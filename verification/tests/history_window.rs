use rollback_core::input::{encode, Input};
use rollback_core::sim::FrameInputs;
use rollback_core::history::InputHistory;

fn none_pair() -> FrameInputs {
    FrameInputs::none()
}

#[test]
fn matching_confirmation_keeps_convergence() {
    // Predicted equals confirmed: the rollback point does not exist.
    let mut h = InputHistory::new(4);
    h.push(none_pair(), true, false);
    h.push(none_pair(), true, false);
    let differs = h.confirm(1, 0, Input::none());
    assert!(!differs);
    let differs = h.confirm(1, 1, Input::none());
    assert!(!differs);
    assert_eq!(h.first_divergence(), None);
}

#[test]
fn contradicting_confirmation_marks_divergence() {
    let mut h = InputHistory::new(4);
    h.push(none_pair(), true, false);
    h.push(none_pair(), true, false);
    h.push(none_pair(), true, false);
    let jump = encode(false, false, true, false);
    let differs = h.confirm(1, 1, jump);
    assert!(differs);
    assert_eq!(h.first_divergence(), Some(1));
    // The earliest divergent frame wins.
    let differs = h.confirm(1, 2, jump);
    assert!(differs);
    assert_eq!(h.first_divergence(), Some(1));
}

#[test]
fn resimulation_clears_divergence() {
    let mut h = InputHistory::new(4);
    h.push(none_pair(), true, false);
    let jump = encode(false, false, true, false);
    assert!(h.confirm(1, 0, jump));
    assert_eq!(h.first_divergence(), Some(0));
    h.mark_resimulated(0);
    assert_eq!(h.first_divergence(), None);
    // The confirmed input is now the one in use.
    assert_eq!(h.get(0).used.p1, jump);
}

#[test]
fn eviction_moves_the_window() {
    let mut h = InputHistory::new(3);
    h.push(none_pair(), true, true);
    h.push(none_pair(), true, true);
    h.push(none_pair(), true, true);
    assert_eq!(h.len(), 3);
    assert_eq!(h.start, 0);
    assert!(h.contains(0));
    h.evict_front();
    assert_eq!(h.len(), 2);
    assert_eq!(h.start, 1);
    assert!(!h.contains(0));
    assert!(h.contains(1) && h.contains(2));
}
