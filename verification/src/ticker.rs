//! The continuous display loop's plan: after a frame is written, wait
//! one second, move the cursor up over exactly the lines just written,
//! and clear from the cursor down before the next frame.

use vstd::prelude::*;

verus! {

/// One terminal action of the continuous display loop.
#[derive(Clone, Copy, PartialEq, Eq, Debug)]
pub enum TermAction {
    /// Wait this many milliseconds.
    Sleep(u64),
    /// Move the cursor up this many rows.
    MoveUp(usize),
    /// Clear from the cursor to the end of the screen.
    ClearDown,
}

/// The milliseconds slept between two frames.
pub const TICK_MILLIS: u64 = 1000;

/// The actions owed after a frame of `lines_written` lines: the
/// one-second wait, then the cursor move up over those lines, then the
/// clear to the end of the screen.
pub open spec fn after_frame_plan(lines_written: usize) -> Seq<TermAction> {
    seq![
        TermAction::Sleep(TICK_MILLIS),
        TermAction::MoveUp(lines_written),
        TermAction::ClearDown,
    ]
}

/// Plans the actions that follow the frame just written, from that
/// frame's own line count.
pub fn plan_after_frame(frame: &Vec<String>) -> (plan: Vec<TermAction>)
    ensures
        plan@ == after_frame_plan(frame@.len() as usize),
{
    let lines_written = frame.len();
    let mut plan: Vec<TermAction> = Vec::new();
    plan.push(TermAction::Sleep(TICK_MILLIS));
    plan.push(TermAction::MoveUp(lines_written));
    plan.push(TermAction::ClearDown);
    proof {
        assert(plan@ =~= after_frame_plan(frame@.len() as usize));
    }
    plan
}

/// Law: after a frame of `l` lines, the cursor moves up exactly `l`
/// rows, and that move comes before the clear — the count is the one
/// of the immediately preceding frame, never a stale value.
pub proof fn lemma_reposition_matches_frame(l: usize)
    ensures
        after_frame_plan(l).len() == 3,
        after_frame_plan(l)[1] == TermAction::MoveUp(l),
        after_frame_plan(l)[2] == TermAction::ClearDown,
        forall|k: int, x: usize|
            0 <= k < 3 && after_frame_plan(l)[k] == TermAction::MoveUp(x) ==> x == l,
{
}

} // verus!
