use rollback_core::input::{encode, encode_edge, Input, INPUT_JUMP, INPUT_LEFT, INPUT_RIGHT, INPUT_STRIKE};

#[test]
fn encode_no_controls() {
    let i = encode(false, false, false, false);
    assert_eq!(i.bits, 0);
    assert!(!i.left());
    assert!(!i.right());
    assert!(!i.jump());
    assert!(!i.strike());
    assert_eq!(i, Input::none());
}

#[test]
fn encode_single_actions() {
    assert_eq!(encode(true, false, false, false).bits, INPUT_LEFT);
    assert_eq!(encode(false, true, false, false).bits, INPUT_RIGHT);
    assert_eq!(encode(false, false, true, false).bits, INPUT_JUMP);
    assert_eq!(encode(false, false, false, true).bits, INPUT_STRIKE);
}

#[test]
fn encode_combinations() {
    let i = encode(true, true, true, true);
    assert_eq!(i.bits, INPUT_LEFT | INPUT_RIGHT | INPUT_JUMP | INPUT_STRIKE);
    assert!(i.left() && i.right() && i.jump() && i.strike());
    let j = encode(true, false, true, false);
    assert_eq!(j.bits, INPUT_LEFT | INPUT_JUMP);
    assert!(j.left() && !j.right() && j.jump() && !j.strike());
}

#[test]
fn encode_is_pure_and_total() {
    // Same controls, same value, every time.
    assert_eq!(encode(true, false, true, false), encode(true, false, true, false));
}

#[test]
fn jump_edge_triggers_once() {
    // Fresh press: jump bit set, held-state carried forward.
    let (i1, held1) = encode_edge(false, false, true, false, false);
    assert!(i1.jump());
    assert!(held1);
    // Still held: no repeat.
    let (i2, held2) = encode_edge(false, false, true, false, held1);
    assert!(!i2.jump());
    assert!(held2);
    // Released, then pressed again: triggers again.
    let (i3, held3) = encode_edge(false, false, false, false, held2);
    assert!(!i3.jump());
    assert!(!held3);
    let (i4, _) = encode_edge(false, false, true, false, held3);
    assert!(i4.jump());
}
