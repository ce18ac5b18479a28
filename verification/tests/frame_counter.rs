use rollback_core::frame::{increase_frame_system, FrameCount};
use rollback_core::history::InputHistory;

#[test]
fn frame_counter_increments_by_one() {
    let mut fc = FrameCount::zero();
    assert_eq!(fc.frame, 0);
    increase_frame_system(&mut fc);
    assert_eq!(fc.frame, 1);
    increase_frame_system(&mut fc);
    increase_frame_system(&mut fc);
    assert_eq!(fc.frame, 3);
}

#[test]
fn empty_history_has_no_rollback_point() {
    let h = InputHistory::new(8);
    assert_eq!(h.len(), 0);
    assert_eq!(h.first_divergence(), None);
    assert!(!h.contains(0));
}
