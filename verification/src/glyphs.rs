//! The glyph table: a fixed 5-row by 3-column boolean bitmap for each
//! of the eleven symbols (digits 0-9 and the time separator).

use vstd::prelude::*;

verus! {

/// Symbol value standing for the time separator ':'.
pub const SEPARATOR: u32 = 10;

/// The reference bitmap of symbol `sym`, row-major: five rows of three
/// cells each; `true` is a filled cell. Symbols are the digits 0-9 and
/// 10 for the separator.
pub open spec fn glyph_rows(sym: int) -> Seq<Seq<bool>> {
    if sym == 0 {
        seq![
            seq![true, true, true],
            seq![true, false, true],
            seq![true, false, true],
            seq![true, false, true],
            seq![true, true, true],
        ]
    } else if sym == 1 {
        seq![
            seq![true, true, false],
            seq![false, true, false],
            seq![false, true, false],
            seq![false, true, false],
            seq![true, true, true],
        ]
    } else if sym == 2 {
        seq![
            seq![true, true, true],
            seq![false, false, true],
            seq![true, true, true],
            seq![true, false, false],
            seq![true, true, true],
        ]
    } else if sym == 3 {
        seq![
            seq![true, true, true],
            seq![false, false, true],
            seq![true, true, true],
            seq![false, false, true],
            seq![true, true, true],
        ]
    } else if sym == 4 {
        seq![
            seq![true, false, true],
            seq![true, false, true],
            seq![true, true, true],
            seq![false, false, true],
            seq![false, false, true],
        ]
    } else if sym == 5 {
        seq![
            seq![true, true, true],
            seq![true, false, false],
            seq![true, true, true],
            seq![false, false, true],
            seq![true, true, true],
        ]
    } else if sym == 6 {
        seq![
            seq![true, true, true],
            seq![true, false, false],
            seq![true, true, true],
            seq![true, false, true],
            seq![true, true, true],
        ]
    } else if sym == 7 {
        seq![
            seq![true, true, true],
            seq![false, false, true],
            seq![false, false, true],
            seq![false, false, true],
            seq![false, false, true],
        ]
    } else if sym == 8 {
        seq![
            seq![true, true, true],
            seq![true, false, true],
            seq![true, true, true],
            seq![true, false, true],
            seq![true, true, true],
        ]
    } else if sym == 9 {
        seq![
            seq![true, true, true],
            seq![true, false, true],
            seq![true, true, true],
            seq![false, false, true],
            seq![false, false, true],
        ]
    } else {
        seq![
            seq![false, false, false],
            seq![false, true, false],
            seq![false, false, false],
            seq![false, true, false],
            seq![false, false, false],
        ]
    }
}

/// One cell of the reference bitmap of symbol `sym`.
pub open spec fn glyph_cell(sym: int, row: int, col: int) -> bool {
    glyph_rows(sym)[row][col]
}

/// Looks the bitmap of a symbol up in the fixed table.
pub fn glyph_for(sym: u32) -> (g: [[bool; 3]; 5])
    requires
        sym <= 10,
    ensures
        forall|r: int, c: int|
            0 <= r < 5 && 0 <= c < 3 ==> g@[r]@[c] == glyph_cell(sym as int, r, c),
{
    match sym {
        0 => [
            [true, true, true],
            [true, false, true],
            [true, false, true],
            [true, false, true],
            [true, true, true],
        ],
        1 => [
            [true, true, false],
            [false, true, false],
            [false, true, false],
            [false, true, false],
            [true, true, true],
        ],
        2 => [
            [true, true, true],
            [false, false, true],
            [true, true, true],
            [true, false, false],
            [true, true, true],
        ],
        3 => [
            [true, true, true],
            [false, false, true],
            [true, true, true],
            [false, false, true],
            [true, true, true],
        ],
        4 => [
            [true, false, true],
            [true, false, true],
            [true, true, true],
            [false, false, true],
            [false, false, true],
        ],
        5 => [
            [true, true, true],
            [true, false, false],
            [true, true, true],
            [false, false, true],
            [true, true, true],
        ],
        6 => [
            [true, true, true],
            [true, false, false],
            [true, true, true],
            [true, false, true],
            [true, true, true],
        ],
        7 => [
            [true, true, true],
            [false, false, true],
            [false, false, true],
            [false, false, true],
            [false, false, true],
        ],
        8 => [
            [true, true, true],
            [true, false, true],
            [true, true, true],
            [true, false, true],
            [true, true, true],
        ],
        9 => [
            [true, true, true],
            [true, false, true],
            [true, true, true],
            [false, false, true],
            [false, false, true],
        ],
        _ => [
            [false, false, false],
            [false, true, false],
            [false, false, false],
            [false, true, false],
            [false, false, false],
        ],
    }
}

} // verus!
