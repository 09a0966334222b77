//! The renderer: lays a sequence of symbols out as text lines, one
//! glyph after the other, every cell scaled to a `size_factor` by
//! `size_factor` block, with an optional timezone status line.

use vstd::prelude::*;
use vstd::arithmetic::div_mod::lemma_fundamental_div_mod_converse;
use vstd::string::StringExecFns;
use crate::glyphs::{glyph_cell, glyph_for};

verus! {

/// A horizontal run of `n` copies of the filled or the blank cell
/// character.
pub open spec fn cell_block(filled: bool, n: nat) -> Seq<char> {
    Seq::new(n, |i: int| if filled { '\u{2588}' } else { ' ' })
}

/// One rendered row of one glyph: its three cell columns, then one
/// blank separator column, each column `n` characters wide.
pub open spec fn glyph_row_chars(sym: int, row: int, n: nat) -> Seq<char> {
    cell_block(glyph_cell(sym, row, 0), n) + cell_block(glyph_cell(sym, row, 1), n)
        + cell_block(glyph_cell(sym, row, 2), n) + cell_block(false, n)
}

/// One full rendered line: row `row` of every glyph, in symbol order.
pub open spec fn frame_line(syms: Seq<u32>, row: int, n: nat) -> Seq<char>
    decreases syms.len(),
{
    if syms.len() == 0 {
        Seq::empty()
    } else {
        frame_line(syms.drop_last(), row, n) + glyph_row_chars(syms.last() as int, row, n)
    }
}

/// Every line of one rendered frame: each of the five glyph rows
/// repeated `n` times, then, when a status text is given, one blank
/// line and one `Timezone=` line naming it.
pub open spec fn frame_lines(syms: Seq<u32>, n: nat, status: Option<Seq<char>>) -> Seq<
    Seq<char>,
> {
    let body = Seq::new(5 * n, |i: int| frame_line(syms, i / n as int, n));
    match status {
        Some(name) => body + seq![Seq::<char>::empty(), "Timezone="@ + name],
        None => body,
    }
}

/// The status text of an offset selection, when one is given.
pub open spec fn status_view(status: Option<String>) -> Option<Seq<char>> {
    match status {
        Some(name) => Some(name@),
        None => None,
    }
}

/// Appends one scaled cell: `n` filled or blank characters.
fn append_block(line: &mut String, filled: bool, n: u32)
    ensures
        final(line)@ == old(line)@ + cell_block(filled, n as nat),
{
    let mut k: u32 = 0;
    while k < n
        invariant
            k <= n,
            line@ == old(line)@ + cell_block(filled, k as nat),
        decreases n - k,
    {
        if filled {
            line.append("\u{2588}");
        } else {
            line.append(" ");
        }
        proof {
            reveal_strlit("\u{2588}");
            reveal_strlit(" ");
            assert(line@ =~= old(line)@ + cell_block(filled, (k + 1) as nat));
        }
        k += 1;
    }
    proof {
        assert(line@ =~= old(line)@ + cell_block(filled, n as nat));
    }
}

/// Renders row `row` of every glyph into one line of text.
fn render_line(syms: &Vec<u32>, size_factor: u32, row: usize) -> (line: String)
    requires
        row < 5,
        forall|i: int| 0 <= i < syms@.len() ==> syms@[i] <= 10,
    ensures
        line@ == frame_line(syms@, row as int, size_factor as nat),
{
    let mut line = String::new();
    let mut g: usize = 0;
    while g < syms.len()
        invariant
            row < 5,
            g <= syms@.len(),
            forall|i: int| 0 <= i < syms@.len() ==> syms@[i] <= 10,
            line@ == frame_line(syms@.subrange(0, g as int), row as int, size_factor as nat),
        decreases syms@.len() - g,
    {
        let ghost before = line@;
        let sym = syms[g];
        let glyph = glyph_for(sym);
        let cells = glyph[row];
        append_block(&mut line, cells[0], size_factor);
        append_block(&mut line, cells[1], size_factor);
        append_block(&mut line, cells[2], size_factor);
        append_block(&mut line, false, size_factor);
        proof {
            let n = size_factor as nat;
            assert(line@ =~= before + glyph_row_chars(sym as int, row as int, n));
            assert(syms@.subrange(0, g + 1).drop_last() =~= syms@.subrange(0, g as int));
            assert(syms@.subrange(0, g + 1).last() == syms@[g as int]);
        }
        g += 1;
    }
    proof {
        assert(syms@.subrange(0, syms@.len() as int) =~= syms@);
    }
    line
}

/// Renders one frame: every glyph row scaled `size_factor` times in
/// both directions, and, when a status text is given, a blank line and
/// a `Timezone=` line after the glyph lines.
pub fn render_frame(syms: &Vec<u32>, size_factor: u32, status: &Option<String>) -> (lines: Vec<
    String,
>)
    requires
        forall|i: int| 0 <= i < syms@.len() ==> syms@[i] <= 10,
    ensures
        lines.deep_view() == frame_lines(syms@, size_factor as nat, status_view(*status)),
{
    let ghost n = size_factor as nat;
    let mut lines: Vec<String> = Vec::new();
    let mut row: usize = 0;
    while row < 5
        invariant
            n == size_factor as nat,
            row <= 5,
            forall|i: int| 0 <= i < syms@.len() ==> syms@[i] <= 10,
            lines@.len() == row * size_factor,
            forall|i: int|
                0 <= i < lines@.len() ==> (#[trigger] lines@[i])@ == frame_line(
                    syms@,
                    i / size_factor as int,
                    n,
                ),
        decreases 5 - row,
    {
        let mut rep: u32 = 0;
        while rep < size_factor
            invariant
                n == size_factor as nat,
                row < 5,
                rep <= size_factor,
                forall|i: int| 0 <= i < syms@.len() ==> syms@[i] <= 10,
                lines@.len() == row * size_factor + rep,
                forall|i: int|
                    0 <= i < lines@.len() ==> (#[trigger] lines@[i])@ == frame_line(
                        syms@,
                        i / size_factor as int,
                        n,
                    ),
            decreases size_factor - rep,
        {
            let line = render_line(syms, size_factor, row);
            let ghost prev = lines@;
            lines.push(line);
            proof {
                let last = prev.len() as int;
                lemma_fundamental_div_mod_converse(
                    last,
                    size_factor as int,
                    row as int,
                    rep as int,
                );
                assert(lines@[last] == line);
                assert(lines@[last]@ == frame_line(syms@, last / size_factor as int, n));
            }
            rep += 1;
        }
        proof {
            assert((row + 1) * size_factor == row * size_factor + size_factor) by (nonlinear_arith);
        }
        row += 1;
    }
    match status {
        Some(name) => {
            lines.push(String::new());
            let mut st = String::from_str("Timezone=");
            st.append(name.as_str());
            lines.push(st);
        },
        None => (),
    }
    proof {
        assert(lines.deep_view() =~~= frame_lines(syms@, n, status_view(*status)));
    }
    lines
}

/// Every rendered line is as wide as its symbols ask: three scaled
/// cell columns and one scaled separator column per glyph.
pub proof fn lemma_frame_line_len(syms: Seq<u32>, row: int, n: nat)
    ensures
        frame_line(syms, row, n).len() == n * 3 * syms.len() + n * syms.len(),
    decreases syms.len(),
{
    if syms.len() == 0 {
    } else {
        lemma_frame_line_len(syms.drop_last(), row, n);
        assert(n * 3 * (syms.len() - 1) + n * (syms.len() - 1) + (n * 3 + n) == n * 3
            * syms.len() + n * syms.len()) by (nonlinear_arith);
    }
}

/// Law: a frame has exactly `5 * n` lines without a status text and
/// `5 * n + 2` with one, and each glyph line is exactly
/// `n * 3 * len + n * len` characters wide for `len` symbols.
pub proof fn lemma_frame_dimensions(syms: Seq<u32>, n: nat, status: Option<Seq<char>>)
    ensures
        frame_lines(syms, n, status).len() == 5 * n + (if status is Some {
            2int
        } else {
            0int
        }),
        forall|i: int|
            0 <= i < 5 * n ==> (#[trigger] frame_lines(syms, n, status)[i]).len() == n * 3
                * syms.len() + n * syms.len(),
{
    assert forall|i: int| 0 <= i < 5 * n implies (#[trigger] frame_lines(syms, n, status)[i]).len()
        == n * 3 * syms.len() + n * syms.len() by {
        lemma_frame_line_len(syms, i / n as int, n);
    }
}

/// Law: rendering is deterministic — the same symbols, size factor
/// and status text always describe the byte-identical frame, so two
/// renders of one moment agree.
pub proof fn lemma_render_deterministic(
    v1: Seq<Seq<char>>,
    v2: Seq<Seq<char>>,
    syms: Seq<u32>,
    n: nat,
    status: Option<Seq<char>>,
)
    requires
        v1 == frame_lines(syms, n, status),
        v2 == frame_lines(syms, n, status),
    ensures
        v1 == v2,
{
}

} // verus!
