use rollback_core::input::{encode, Input};
use rollback_core::scheduler::{RemoteInputOutcome, Scheduler};
use rollback_core::sim::{checksum, step, SimState};

#[test]
fn rollback_scenario_with_delay_and_window() {
    // Two players, input delay 2, rollback window 8.  The local peer ticks
    // frames 0..10 predicting the remote input as "nothing pressed"; at
    // frame 10 a confirmed remote input for frame 4 arrives with the jump
    // bit set.
    let mut s = Scheduler::new(0, 2, 8, SimState::initial());
    for _ in 0..10 {
        s.tick(Input::none());
    }
    assert_eq!(s.frame.frame, 10);
    let before = checksum(&s.state);

    let jump = encode(false, false, true, false);
    let outcome = s.handle_remote_input(4, jump);
    assert_eq!(outcome, RemoteInputOutcome::Confirmed { differs: true });

    // The rollback point is frame 4.
    let r = s.find_rollback_point();
    assert_eq!(r, Some(4));

    s.perform_rollback(4);
    // Rollback never changes the forward-progress counter.
    assert_eq!(s.frame.frame, 10);
    // The corrected history produced a different state at frame 10.
    let after = checksum(&s.state);
    assert_ne!(before, after);
    // Nothing is left to resimulate.
    assert_eq!(s.find_rollback_point(), None);
}

#[test]
fn no_rollback_when_predictions_match() {
    // The remote input never changes, so predicted == confirmed and no
    // rollback point exists.
    let mut s = Scheduler::new(0, 0, 8, SimState::initial());
    for _ in 0..6 {
        s.tick(Input::none());
    }
    for f in 0..6 {
        let outcome = s.handle_remote_input(f, Input::none());
        assert_eq!(outcome, RemoteInputOutcome::Confirmed { differs: false });
    }
    assert_eq!(s.find_rollback_point(), None);
}

#[test]
fn history_stays_within_window() {
    // The ring retains at most `window` frames: the oldest retained frame
    // is always at least the current frame minus the window.
    let mut s = Scheduler::new(0, 0, 4, SimState::initial());
    for _ in 0..20 {
        s.tick(Input::none());
    }
    assert_eq!(s.frame.frame, 20);
    assert!(s.history.len() <= 4);
    assert!(s.history.start >= 20 - 4);
    // A confirmation for an evicted frame is too late to matter.
    assert_eq!(s.handle_remote_input(3, Input::none()), RemoteInputOutcome::Stale);
}

#[test]
fn local_input_is_delayed() {
    // With input delay 2, the input sampled at tick 0 applies to frame 2.
    let mut s = Scheduler::new(0, 2, 8, SimState::initial());
    let left = encode(true, false, false, false);
    s.tick(left);
    s.tick(Input::none());
    s.tick(Input::none());
    assert_eq!(s.history.get(0).used.p0, Input::none());
    assert_eq!(s.history.get(1).used.p0, Input::none());
    assert_eq!(s.history.get(2).used.p0, left);
}

#[test]
fn buffered_remote_input_is_consumed() {
    // A confirmation for a frame not yet simulated waits and is used --
    // confirmed, not predicted -- when the scheduler reaches that frame.
    let mut s = Scheduler::new(0, 0, 8, SimState::initial());
    let strike = encode(false, false, false, true);
    assert_eq!(s.handle_remote_input(3, strike), RemoteInputOutcome::Buffered);
    for _ in 0..4 {
        s.tick(Input::none());
    }
    let rec = s.history.get(3);
    assert_eq!(rec.used.p1, strike);
    assert!(rec.confirmed1);
    assert_eq!(s.find_rollback_point(), None);
}

#[test]
fn prediction_repeats_last_known_input() {
    // After a confirmed "left", the unconfirmed frames are predicted as
    // "left" too, so a matching late confirmation causes no rollback.
    let mut s = Scheduler::new(0, 0, 8, SimState::initial());
    let left = encode(true, false, false, false);
    s.handle_remote_input(0, left);
    for _ in 0..3 {
        s.tick(Input::none());
    }
    assert_eq!(s.history.get(1).used.p1, left);
    assert_eq!(s.history.get(2).used.p1, left);
    assert_eq!(
        s.handle_remote_input(1, left),
        RemoteInputOutcome::Confirmed { differs: false }
    );
    assert_eq!(s.find_rollback_point(), None);
}

#[test]
fn two_peers_agree_on_checksums() {
    // Two independent simulations fed identical input sequences from frame
    // 0 report equal checksums at every frame.
    let mut a = Scheduler::new(0, 0, 8, SimState::initial());
    let mut b = Scheduler::new(1, 0, 8, SimState::initial());
    let script0 = [
        encode(true, false, false, false),
        encode(true, false, true, false),
        encode(false, false, false, false),
        encode(false, true, false, false),
    ];
    let script1 = [
        encode(false, true, false, false),
        encode(false, false, false, true),
        encode(false, false, true, false),
        encode(true, false, false, false),
    ];
    for t in 0..40 {
        let i0 = script0[t % 4];
        let i1 = script1[t % 4];
        let f = a.frame.frame;
        // Each peer hears the other's input before the tick.
        assert!(matches!(
            a.handle_remote_input(f, i1),
            RemoteInputOutcome::Buffered
        ));
        assert!(matches!(
            b.handle_remote_input(f, i0),
            RemoteInputOutcome::Buffered
        ));
        a.tick(i0);
        b.tick(i1);
        assert_eq!(checksum(&a.state), checksum(&b.state));
    }
    assert_eq!(a.frame.frame, 40);
    assert_eq!(b.frame.frame, 40);
}

#[test]
fn replaying_the_history_reproduces_the_snapshots() {
    // Restoring the oldest retained snapshot and resimulating the recorded
    // inputs reproduces every stored snapshot and the live state, and two
    // replays agree bit for bit.
    let mut s = Scheduler::new(0, 1, 8, SimState::initial());
    let script = [
        encode(true, false, false, false),
        encode(false, false, true, false),
        encode(false, true, false, true),
    ];
    for t in 0..6 {
        let f = s.frame.frame;
        s.handle_remote_input(f, script[(t + 1) % 3]);
        s.tick(script[t % 3]);
    }
    let start = s.history.start;
    let mut replay1 = s.snapshots.restore(start);
    let mut replay2 = s.snapshots.restore(start);
    let mut f = start;
    while f < s.frame.frame {
        let used = s.history.get(f).used;
        replay1 = step(&replay1, &used);
        replay2 = step(&replay2, &used);
        assert_eq!(replay1, replay2);
        assert_eq!(replay1, s.snapshots.restore(f + 1));
        f += 1;
    }
    assert_eq!(replay1, s.state);
}

#[test]
fn rollback_converges_to_direct_simulation() {
    // Simulating with correct inputs known in advance gives the same state
    // as predicting wrongly and rolling back once the truth arrives.
    let jump = encode(false, false, true, false);

    // Direct: every remote input for frames 0..6 is known before it is
    // simulated — a jump at frame 2, nothing otherwise.
    let mut direct = Scheduler::new(0, 0, 8, SimState::initial());
    for f in 0..6u32 {
        direct.handle_remote_input(f, if f == 2 { jump } else { Input::none() });
    }
    for _ in 0..6 {
        direct.tick(Input::none());
    }

    // Predicted: the same confirmations arrive only after frame 6 was
    // reached on predictions, and the divergence at frame 2 is rolled back.
    let mut predicted = Scheduler::new(0, 0, 8, SimState::initial());
    for _ in 0..6 {
        predicted.tick(Input::none());
    }
    for f in 0..6u32 {
        predicted.handle_remote_input(f, if f == 2 { jump } else { Input::none() });
    }
    assert_eq!(predicted.find_rollback_point(), Some(2));
    predicted.perform_rollback(2);

    assert_eq!(direct.state, predicted.state);
    assert_eq!(checksum(&direct.state), checksum(&predicted.state));
}
