use blockclock::render::render_frame;
use blockclock::ticker::{plan_after_frame, TermAction, TICK_MILLIS};

#[test]
fn plan_after_a_frame_moves_up_by_its_line_count() {
    let frame: Vec<String> = (0..7).map(|_| String::new()).collect();
    let plan = plan_after_frame(&frame);
    assert_eq!(
        plan,
        vec![
            TermAction::Sleep(TICK_MILLIS),
            TermAction::MoveUp(7),
            TermAction::ClearDown,
        ]
    );
}

#[test]
fn plan_tracks_the_preceding_frame_not_a_stale_count() {
    let small = render_frame(&vec![0, 0], 1, &None);
    let big = render_frame(&vec![0, 0], 3, &Some("Europe/Paris".to_string()));
    let first = plan_after_frame(&small);
    let second = plan_after_frame(&big);
    assert_eq!(first[1], TermAction::MoveUp(5));
    assert_eq!(second[1], TermAction::MoveUp(17));
    // The move always comes right before the clear.
    assert_eq!(first[2], TermAction::ClearDown);
    assert_eq!(second[2], TermAction::ClearDown);
}

#[test]
fn the_wait_is_one_second() {
    assert_eq!(TICK_MILLIS, 1000);
    let plan = plan_after_frame(&Vec::new());
    assert_eq!(plan[0], TermAction::Sleep(1000));
}
