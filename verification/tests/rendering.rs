use blockclock::glyphs::{glyph_for, SEPARATOR};
use blockclock::render::render_frame;

fn zeros_and_separators() -> Vec<u32> {
    vec![0, 0, SEPARATOR, 0, 0, SEPARATOR, 0, 0]
}

#[test]
fn glyph_table_golden() {
    let expected: [[[bool; 3]; 5]; 11] = [
        [
            [true, true, true],
            [true, false, true],
            [true, false, true],
            [true, false, true],
            [true, true, true],
        ],
        [
            [true, true, false],
            [false, true, false],
            [false, true, false],
            [false, true, false],
            [true, true, true],
        ],
        [
            [true, true, true],
            [false, false, true],
            [true, true, true],
            [true, false, false],
            [true, true, true],
        ],
        [
            [true, true, true],
            [false, false, true],
            [true, true, true],
            [false, false, true],
            [true, true, true],
        ],
        [
            [true, false, true],
            [true, false, true],
            [true, true, true],
            [false, false, true],
            [false, false, true],
        ],
        [
            [true, true, true],
            [true, false, false],
            [true, true, true],
            [false, false, true],
            [true, true, true],
        ],
        [
            [true, true, true],
            [true, false, false],
            [true, true, true],
            [true, false, true],
            [true, true, true],
        ],
        [
            [true, true, true],
            [false, false, true],
            [false, false, true],
            [false, false, true],
            [false, false, true],
        ],
        [
            [true, true, true],
            [true, false, true],
            [true, true, true],
            [true, false, true],
            [true, true, true],
        ],
        [
            [true, true, true],
            [true, false, true],
            [true, true, true],
            [false, false, true],
            [false, false, true],
        ],
        [
            [false, false, false],
            [false, true, false],
            [false, false, false],
            [false, true, false],
            [false, false, false],
        ],
    ];
    for sym in 0..11u32 {
        assert_eq!(glyph_for(sym), expected[sym as usize]);
    }
}

#[test]
fn frame_of_all_zero_time_at_size_one() {
    let lines = render_frame(&zeros_and_separators(), 1, &None);
    let expected = vec![
        "\u{2588}\u{2588}\u{2588} \u{2588}\u{2588}\u{2588}     \u{2588}\u{2588}\u{2588} \u{2588}\u{2588}\u{2588}     \u{2588}\u{2588}\u{2588} \u{2588}\u{2588}\u{2588} ",
        "\u{2588} \u{2588} \u{2588} \u{2588}  \u{2588}  \u{2588} \u{2588} \u{2588} \u{2588}  \u{2588}  \u{2588} \u{2588} \u{2588} \u{2588} ",
        "\u{2588} \u{2588} \u{2588} \u{2588}     \u{2588} \u{2588} \u{2588} \u{2588}     \u{2588} \u{2588} \u{2588} \u{2588} ",
        "\u{2588} \u{2588} \u{2588} \u{2588}  \u{2588}  \u{2588} \u{2588} \u{2588} \u{2588}  \u{2588}  \u{2588} \u{2588} \u{2588} \u{2588} ",
        "\u{2588}\u{2588}\u{2588} \u{2588}\u{2588}\u{2588}     \u{2588}\u{2588}\u{2588} \u{2588}\u{2588}\u{2588}     \u{2588}\u{2588}\u{2588} \u{2588}\u{2588}\u{2588} ",
    ];
    assert_eq!(lines.len(), 5);
    for (line, want) in lines.iter().zip(expected.iter()) {
        assert_eq!(line, want);
    }
}

#[test]
fn frame_dimensions_without_status() {
    let syms = zeros_and_separators();
    for n in 1..4u32 {
        let lines = render_frame(&syms, n, &None);
        assert_eq!(lines.len(), (5 * n) as usize);
        for line in &lines {
            let width = line.chars().count();
            assert_eq!(width as u32, n * 3 * 8 + n * 8);
        }
    }
}

#[test]
fn frame_dimensions_with_status() {
    let syms = vec![1, SEPARATOR];
    let lines = render_frame(&syms, 2, &Some("Europe/Paris".to_string()));
    assert_eq!(lines.len(), 5 * 2 + 2);
    for line in lines.iter().take(10) {
        assert_eq!(line.chars().count() as u32, 2 * 3 * 2 + 2 * 2);
    }
    assert_eq!(lines[10], "");
    assert_eq!(lines[11], "Timezone=Europe/Paris");
}

#[test]
fn rendering_twice_is_byte_identical() {
    let syms = vec![1, 2, SEPARATOR, 3, 4, SEPARATOR, 5, 6];
    let status = Some("Europe/Paris".to_string());
    let first = render_frame(&syms, 3, &status);
    let second = render_frame(&syms, 3, &status);
    assert_eq!(first, second);
    let third = render_frame(&syms, 3, &status);
    assert_eq!(second, third);
}

#[test]
fn vertical_and_horizontal_scaling() {
    let syms = vec![7];
    let lines = render_frame(&syms, 2, &None);
    assert_eq!(lines.len(), 10);
    // Row 0 of the glyph for 7 is fully filled: doubled it spans two
    // identical lines of six filled cells and the two-wide separator.
    let top = "\u{2588}\u{2588}\u{2588}\u{2588}\u{2588}\u{2588}  ";
    assert_eq!(lines[0], top);
    assert_eq!(lines[1], top);
    // Row 1 is blank, blank, filled.
    let second = "    \u{2588}\u{2588}  ";
    assert_eq!(lines[2], second);
    assert_eq!(lines[3], second);
}

#[test]
fn empty_symbols_give_empty_lines() {
    let lines = render_frame(&Vec::new(), 1, &None);
    assert_eq!(lines.len(), 5);
    for line in &lines {
        assert_eq!(line, "");
    }
}

#[test]
fn size_factor_zero_is_degenerate() {
    let lines = render_frame(&zeros_and_separators(), 0, &None);
    assert_eq!(lines.len(), 0);
}
