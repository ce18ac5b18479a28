use rollback_core::events::{SessionEvent, TransportNotice};
use rollback_core::input::{encode, Input};
use rollback_core::session::{
    roster_phase, Message, RollbackSession, SessionBuilder, SessionError, SessionState,
};
use rollback_core::sim::SimState;

fn start_two_player(local_handle: usize) -> RollbackSession {
    let mut b = SessionBuilder::new().with_input_delay(2).with_desync_interval(10).with_rollback_window(8);
    b.add_player(11, 0, local_handle == 0).unwrap();
    b.add_player(22, 1, local_handle == 1).unwrap();
    b.start(SimState::initial()).unwrap()
}

#[test]
fn roster_gates_the_session() {
    assert_eq!(roster_phase(0, 2), SessionState::AwaitingPeers);
    assert_eq!(roster_phase(1, 2), SessionState::AwaitingPeers);
    assert_eq!(roster_phase(2, 2), SessionState::Active);
}

#[test]
fn establishment_failures_are_fatal() {
    let mut b = SessionBuilder::new();
    // A handle outside the player range cannot be bound.
    assert_eq!(b.add_player(11, 2, true), Err(SessionError::InvalidHandle));
    // A handle cannot be bound twice.
    assert_eq!(b.add_player(11, 0, true), Ok(0));
    assert_eq!(b.add_player(22, 0, false), Err(SessionError::DuplicateHandle));
    // Starting without every handle bound fails.
    let b1 = SessionBuilder::new();
    assert!(matches!(b1.start(SimState::initial()), Err(SessionError::MissingPlayers)));
    // Starting without exactly one local player fails.
    let mut b2 = SessionBuilder::new();
    b2.add_player(11, 0, false).unwrap();
    b2.add_player(22, 1, false).unwrap();
    assert!(matches!(
        b2.start(SimState::initial()),
        Err(SessionError::LocalPlayerMisconfigured)
    ));
}

#[test]
fn established_session_is_active_at_frame_zero() {
    let s = start_two_player(0);
    assert_eq!(s.status, SessionState::Active);
    assert_eq!(s.current_frame(), 0);
    assert_eq!(s.current_state(), SimState::initial());
    assert_eq!(s.config.input_delay, 2);
    assert_eq!(s.config.desync_interval, 10);
    assert_eq!(s.config.window, 8);
    assert_eq!(s.config.local_handle, 0);
}

#[test]
fn local_handle_follows_the_local_slot() {
    let s = start_two_player(1);
    assert_eq!(s.config.local_handle, 1);
}

#[test]
fn ticks_stamp_outgoing_inputs_with_the_delayed_frame() {
    let mut s = start_two_player(0);
    let left = encode(true, false, false, false);
    let t = s.advance_frame(left);
    assert_eq!(
        t.outgoing_input,
        Message::Input { frame: 2, player_handle: 0, input: left }
    );
    assert_eq!(s.current_frame(), 1);
}

#[test]
fn settled_frames_report_checksums_on_cadence() {
    let mut b = SessionBuilder::new().with_rollback_window(2).with_desync_interval(2);
    b.add_player(11, 0, true).unwrap();
    b.add_player(22, 1, false).unwrap();
    let mut s = b.start(SimState::initial()).unwrap();
    let mut reports = Vec::new();
    for _ in 0..6 {
        let t = s.advance_frame(Input::none());
        if let Some(cr) = t.checksum_report {
            reports.push(cr.frame);
        }
    }
    // With window 2, frame f settles at tick f + 2; cadence 2 keeps the
    // even frames: 0 settles at tick 2, 2 at tick 4.
    assert_eq!(reports, vec![0, 2]);
}

#[test]
fn transport_disconnect_faults_the_session() {
    let mut s = start_two_player(0);
    let e = s.handle_transport(1, TransportNotice::Interrupted);
    assert_eq!(e, SessionEvent::NetworkInterrupted { handle: 1 });
    assert_eq!(s.status, SessionState::Active);
    let e = s.handle_transport(1, TransportNotice::Resumed);
    assert_eq!(e, SessionEvent::NetworkResumed { handle: 1 });
    assert_eq!(s.status, SessionState::Active);
    let e = s.handle_transport(1, TransportNotice::Disconnected);
    assert_eq!(e, SessionEvent::Disconnected { handle: 1 });
    assert_eq!(s.status, SessionState::Faulted);
}

#[test]
fn input_for_the_local_handle_is_ignored() {
    let mut s = start_two_player(0);
    let before = s.scheduler.history.len();
    let ev = s.handle_message(Message::Input { frame: 0, player_handle: 0, input: Input::none() });
    assert_eq!(ev, None);
    assert_eq!(s.scheduler.history.len(), before);
    assert_eq!(s.current_frame(), 0);
}

#[test]
fn two_sessions_stay_in_sync_and_agree() {
    // Two peers exchange every input and checksum message; their states and
    // checksums agree at every frame, and every comparison matches.
    let mut a = start_two_player(0);
    let mut b = start_two_player(1);
    let script0 = [
        encode(true, false, false, false),
        encode(false, false, true, false),
        encode(false, true, false, false),
    ];
    let script1 = [
        encode(false, true, false, false),
        encode(false, false, false, true),
        encode(true, false, true, false),
    ];
    for t in 0..30 {
        let ta = a.advance_frame(script0[t % 3]);
        let tb = b.advance_frame(script1[t % 3]);
        assert_eq!(a.handle_message(tb.outgoing_input), None);
        assert_eq!(b.handle_message(ta.outgoing_input), None);
        if let Some(cr) = ta.checksum_report {
            let ev = b.handle_message(Message::Checksum { frame: cr.frame, checksum: cr.value });
            assert_eq!(ev, None);
            assert!(!b.faults.desynced);
        }
        if let Some(cr) = tb.checksum_report {
            let ev = a.handle_message(Message::Checksum { frame: cr.frame, checksum: cr.value });
            assert_eq!(ev, None);
            assert!(!a.faults.desynced);
        }
        assert_eq!(a.local_checksum(), b.local_checksum());
        assert_eq!(a.current_state(), b.current_state());
    }
    assert_eq!(a.current_frame(), 30);
}

#[test]
fn desync_between_sessions_raises_one_event() {
    // A remote checksum that contradicts the local record surfaces exactly
    // one desync event for the run.
    let mut b = SessionBuilder::new().with_rollback_window(1).with_desync_interval(1);
    b.add_player(11, 0, true).unwrap();
    b.add_player(22, 1, false).unwrap();
    let mut s = b.start(SimState::initial()).unwrap();
    let mut settled = Vec::new();
    for _ in 0..4 {
        let t = s.advance_frame(Input::none());
        if let Some(cr) = t.checksum_report {
            settled.push(cr);
        }
    }
    assert!(settled.len() >= 2);
    let ev = s.handle_message(Message::Checksum { frame: settled[0].frame, checksum: settled[0].value ^ 1 });
    assert_eq!(
        ev,
        Some(SessionEvent::DesyncDetected {
            frame: settled[0].frame,
            local_checksum: settled[0].value,
            remote_checksum: settled[0].value ^ 1,
        })
    );
    // The persisting run raises nothing further.
    let ev = s.handle_message(Message::Checksum { frame: settled[1].frame, checksum: settled[1].value ^ 1 });
    assert_eq!(ev, None);
    assert!(s.faults.desynced);
    // A matching frame clears the desync.
    let ev = s.handle_message(Message::Checksum { frame: settled[1].frame, checksum: settled[1].value });
    assert_eq!(ev, None);
    assert!(!s.faults.desynced);
}
