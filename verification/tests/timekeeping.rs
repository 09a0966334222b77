use blockclock::clock::{get_time, symbol_of_char, symbols_for_hms, OffsetTypes};
use blockclock::glyphs::SEPARATOR;

#[test]
fn symbols_at_end_of_utc_day() {
    // The readout of 23:59:59 is [2, 3, :, 5, 9, :, 5, 9].
    let syms = symbols_for_hms(23, 59, 59);
    assert_eq!(
        syms,
        vec![2, 3, SEPARATOR, 5, 9, SEPARATOR, 5, 9]
    );
}

#[test]
fn symbols_at_midnight() {
    let syms = symbols_for_hms(0, 0, 0);
    assert_eq!(
        syms,
        vec![0, 0, SEPARATOR, 0, 0, SEPARATOR, 0, 0]
    );
}

#[test]
fn symbols_zero_pad_every_field() {
    let syms = symbols_for_hms(9, 5, 7);
    assert_eq!(
        syms,
        vec![0, 9, SEPARATOR, 0, 5, SEPARATOR, 0, 7]
    );
}

#[test]
fn digits_map_to_their_values() {
    for (c, want) in ('0'..='9').zip(0u32..10) {
        assert_eq!(symbol_of_char(c), want);
    }
}

#[test]
fn separator_maps_to_separator_symbol() {
    assert_eq!(symbol_of_char(':'), SEPARATOR);
}

#[test]
fn unmapped_characters_fall_back_to_zero() {
    assert_eq!(symbol_of_char('x'), 0);
    assert_eq!(symbol_of_char(' '), 0);
    assert_eq!(symbol_of_char('/'), 0);
}

fn assert_valid_readout(syms: &[u32]) {
    assert_eq!(syms.len(), 8);
    assert_eq!(syms[2], SEPARATOR);
    assert_eq!(syms[5], SEPARATOR);
    for &i in &[0usize, 1, 3, 4, 6, 7] {
        assert!(syms[i] <= 9);
    }
    let h = syms[0] * 10 + syms[1];
    let m = syms[3] * 10 + syms[4];
    let s = syms[6] * 10 + syms[7];
    assert!(h < 24);
    assert!(m < 60);
    assert!(s < 60);
}

#[test]
fn sampling_utc_gives_a_valid_readout() {
    assert_valid_readout(&get_time(&OffsetTypes::Utc));
}

#[test]
fn sampling_local_gives_a_valid_readout() {
    assert_valid_readout(&get_time(&OffsetTypes::Local));
}

#[test]
fn sampling_a_named_timezone_gives_a_valid_readout() {
    let offset = OffsetTypes::Timezone(chrono_tz::Tz::Europe__Paris);
    assert_valid_readout(&get_time(&offset));
}
