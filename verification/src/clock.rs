//! The time source: samples the wall clock under an offset policy and
//! turns the zero-padded `HH:MM:SS` readout into symbols.

use vstd::prelude::*;
use crate::glyphs::SEPARATOR;
use chrono::Timelike;

verus! {

/// The offset applied to the sampled instant: fixed UTC, the system's
/// local offset, or a named timezone.
pub enum OffsetTypes {
    Utc,
    Local,
    Timezone(chrono_tz::Tz),
}

/// The symbol a readout character stands for: a digit for itself, the
/// separator ':' for the separator symbol, and anything else for 0 as
/// a documented fallback.
pub open spec fn symbol_of_char_spec(c: char) -> u32 {
    if '0' <= c && c <= '9' {
        (c as int - '0' as int) as u32
    } else if c == ':' {
        SEPARATOR
    } else {
        0
    }
}

/// Maps one readout character to its symbol.
pub fn symbol_of_char(c: char) -> (r: u32)
    ensures
        r == symbol_of_char_spec(c),
{
    let v = c as u32;
    if 48 <= v && v <= 57 {
        v - 48
    } else if v == 58 {
        SEPARATOR
    } else {
        0
    }
}

/// The symbol readout of a time of day: tens and units of the hour,
/// separator, tens and units of the minute, separator, tens and units
/// of the second.
pub open spec fn time_symbols(h: int, m: int, s: int) -> Seq<u32> {
    seq![
        (h / 10) as u32,
        (h % 10) as u32,
        SEPARATOR,
        (m / 10) as u32,
        (m % 10) as u32,
        SEPARATOR,
        (s / 10) as u32,
        (s % 10) as u32,
    ]
}

/// The character for one decimal digit.
fn digit_char(d: u32) -> (c: char)
    requires
        d <= 9,
    ensures
        symbol_of_char_spec(c) == d,
{
    match d {
        0 => '0',
        1 => '1',
        2 => '2',
        3 => '3',
        4 => '4',
        5 => '5',
        6 => '6',
        7 => '7',
        8 => '8',
        _ => '9',
    }
}

/// Zero-padded `HH:MM:SS` readout of a time of day, as characters.
pub fn format_hms(h: u8, m: u8, s: u8) -> (cs: Vec<char>)
    requires
        h < 24,
        m < 60,
        s < 60,
    ensures
        cs@.len() == 8,
        cs@.map_values(|c: char| symbol_of_char_spec(c))
            == time_symbols(h as int, m as int, s as int),
        cs@[2] == ':' && cs@[5] == ':',
{
    let mut cs: Vec<char> = Vec::new();
    let hv = h as u32;
    let mv = m as u32;
    let sv = s as u32;
    cs.push(digit_char(hv / 10));
    cs.push(digit_char(hv % 10));
    cs.push(':');
    cs.push(digit_char(mv / 10));
    cs.push(digit_char(mv % 10));
    cs.push(':');
    cs.push(digit_char(sv / 10));
    cs.push(digit_char(sv % 10));
    proof {
        assert(cs@.map_values(|c: char| symbol_of_char_spec(c))
            =~= time_symbols(h as int, m as int, s as int));
    }
    cs
}

/// Symbols of a time of day: the formatted readout, mapped character
/// by character.
pub fn symbols_for_hms(h: u8, m: u8, s: u8) -> (syms: Vec<u32>)
    requires
        h < 24,
        m < 60,
        s < 60,
    ensures
        syms@ == time_symbols(h as int, m as int, s as int),
        syms@.len() == 8,
        forall|i: int| 0 <= i < syms@.len() ==> syms@[i] <= 10,
        syms@[2] == SEPARATOR && syms@[5] == SEPARATOR,
{
    let cs = format_hms(h, m, s);
    let mut syms: Vec<u32> = Vec::new();
    let mut i: usize = 0;
    while i < cs.len()
        invariant
            i <= cs@.len(),
            syms@ == cs@.subrange(0, i as int).map_values(|c: char| symbol_of_char_spec(c)),
        decreases cs@.len() - i,
    {
        syms.push(symbol_of_char(cs[i]));
        proof {
            assert(cs@.subrange(0, i + 1).drop_last() =~= cs@.subrange(0, i as int));
            assert(cs@.subrange(0, i + 1).map_values(|c: char| symbol_of_char_spec(c))
                =~= cs@.subrange(0, i as int).map_values(|c: char| symbol_of_char_spec(c))
                    .push(symbol_of_char_spec(cs@[i as int])));
        }
        i += 1;
    }
    proof {
        assert(cs@.subrange(0, cs@.len() as int) =~= cs@);
        assert(syms@ =~= time_symbols(h as int, m as int, s as int));
    }
    syms
}

/// Relies on std::time::SystemTime, chrono::DateTime::from_timestamp
/// and the Timelike accessors: the hour is 0 to 23, minute and second
/// 0 to 59. A clock before the Unix epoch, or out of chrono's range,
/// reads as the epoch instead of aborting.
#[verifier::external_body]
fn now_hms_utc() -> (r: (u8, u8, u8))
    ensures
        r.0 < 24,
        r.1 < 60,
        r.2 < 60,
{
    let secs = match std::time::SystemTime::now().duration_since(std::time::UNIX_EPOCH) {
        Ok(d) => d.as_secs() as i64,
        Err(_) => 0,
    };
    let t = chrono::DateTime::from_timestamp(secs, 0).unwrap_or_default();
    (t.hour() as u8, t.minute() as u8, t.second() as u8)
}

/// Relies on std::time::SystemTime, chrono::DateTime::from_timestamp,
/// the conversion to chrono::Local and the Timelike accessors: the
/// hour is 0 to 23, minute and second 0 to 59. A clock before the Unix
/// epoch, or out of chrono's range, reads as the epoch instead of
/// aborting; chrono itself still aborts when the system's timezone
/// database yields no local time type.
#[verifier::external_body]
fn now_hms_local() -> (r: (u8, u8, u8))
    ensures
        r.0 < 24,
        r.1 < 60,
        r.2 < 60,
{
    let secs = match std::time::SystemTime::now().duration_since(std::time::UNIX_EPOCH) {
        Ok(d) => d.as_secs() as i64,
        Err(_) => 0,
    };
    let t = chrono::DateTime::from_timestamp(secs, 0).unwrap_or_default();
    let t = t.with_timezone(&chrono::Local);
    (t.hour() as u8, t.minute() as u8, t.second() as u8)
}

/// Relies on std::time::SystemTime, chrono::DateTime::from_timestamp,
/// DateTime::with_timezone (total for chrono_tz's precompiled zones)
/// and the Timelike accessors: the hour is 0 to 23, minute and second
/// 0 to 59. A clock before the Unix epoch, or out of chrono's range,
/// reads as the epoch instead of aborting.
#[verifier::external_body]
fn now_hms_tz(tz: &chrono_tz::Tz) -> (r: (u8, u8, u8))
    ensures
        r.0 < 24,
        r.1 < 60,
        r.2 < 60,
{
    let secs = match std::time::SystemTime::now().duration_since(std::time::UNIX_EPOCH) {
        Ok(d) => d.as_secs() as i64,
        Err(_) => 0,
    };
    let t = chrono::DateTime::from_timestamp(secs, 0).unwrap_or_default();
    let t = t.with_timezone(tz);
    (t.hour() as u8, t.minute() as u8, t.second() as u8)
}

/// Samples the clock under the given offset policy; the result is the
/// symbol readout of some valid time of day, freshly sampled on every
/// call.
pub fn get_time(offset: &OffsetTypes) -> (syms: Vec<u32>)
    ensures
        exists|h: int, m: int, s: int|
            0 <= h < 24 && 0 <= m < 60 && 0 <= s < 60
                && syms@ == time_symbols(h, m, s),
        syms@.len() == 8,
        forall|i: int| 0 <= i < syms@.len() ==> syms@[i] <= 10,
        syms@[2] == SEPARATOR && syms@[5] == SEPARATOR,
{
    let (h, m, s) = match offset {
        OffsetTypes::Utc => now_hms_utc(),
        OffsetTypes::Local => now_hms_local(),
        OffsetTypes::Timezone(t) => now_hms_tz(t),
    };
    let syms = symbols_for_hms(h, m, s);
    proof {
        assert(0 <= h < 24 && 0 <= m < 60 && 0 <= s < 60
            && syms@ == time_symbols(h as int, m as int, s as int));
    }
    syms
}

} // verus!
