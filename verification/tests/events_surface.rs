use rollback_core::desync::ChecksumOutcome;
use rollback_core::events::{
    classify, transition, FaultSurface, PeerConnection, SessionEvent, Severity, TransportNotice,
};

#[test]
fn connection_state_machine() {
    // A live channel can be interrupted and resumed.
    assert_eq!(
        transition(PeerConnection::Connected, TransportNotice::Interrupted),
        PeerConnection::Interrupted
    );
    assert_eq!(
        transition(PeerConnection::Interrupted, TransportNotice::Resumed),
        PeerConnection::Connected
    );
    // A resumption of a healthy channel changes nothing.
    assert_eq!(
        transition(PeerConnection::Connected, TransportNotice::Resumed),
        PeerConnection::Connected
    );
    // Disconnection is terminal: nothing leaves it.
    assert_eq!(
        transition(PeerConnection::Connected, TransportNotice::Disconnected),
        PeerConnection::Disconnected
    );
    assert_eq!(
        transition(PeerConnection::Disconnected, TransportNotice::Resumed),
        PeerConnection::Disconnected
    );
    assert_eq!(
        transition(PeerConnection::Disconnected, TransportNotice::Interrupted),
        PeerConnection::Disconnected
    );
}

#[test]
fn event_severities() {
    assert_eq!(
        classify(&SessionEvent::DesyncDetected { frame: 5, local_checksum: 1, remote_checksum: 2 }),
        Severity::Error
    );
    assert_eq!(classify(&SessionEvent::NetworkInterrupted { handle: 1 }), Severity::Warning);
    assert_eq!(classify(&SessionEvent::Disconnected { handle: 1 }), Severity::Warning);
    assert_eq!(classify(&SessionEvent::NetworkResumed { handle: 1 }), Severity::Info);
    assert_eq!(classify(&SessionEvent::WaitRecommendation { skip_frames: 2 }), Severity::Info);
}

#[test]
fn notices_surface_as_events() {
    let mut s = FaultSurface::new();
    let e = s.apply_notice(1, TransportNotice::Interrupted);
    assert_eq!(e, SessionEvent::NetworkInterrupted { handle: 1 });
    assert_eq!(s.peer1, PeerConnection::Interrupted);
    assert_eq!(s.peer0, PeerConnection::Connected);
    let e = s.apply_notice(1, TransportNotice::Resumed);
    assert_eq!(e, SessionEvent::NetworkResumed { handle: 1 });
    assert_eq!(s.peer1, PeerConnection::Connected);
    let e = s.apply_notice(0, TransportNotice::Disconnected);
    assert_eq!(e, SessionEvent::Disconnected { handle: 0 });
    assert_eq!(s.peer0, PeerConnection::Disconnected);
}

#[test]
fn desync_outcome_raises_one_event() {
    let mut s = FaultSurface::new();
    // A fresh desync surfaces exactly one event and sets the flag.
    let e = s.apply_checksum_outcome(ChecksumOutcome::NewDesync, 7, 1, 2);
    assert_eq!(e, Some(SessionEvent::DesyncDetected { frame: 7, local_checksum: 1, remote_checksum: 2 }));
    assert!(s.desynced);
    // The persisting run stays silent.
    assert_eq!(s.apply_checksum_outcome(ChecksumOutcome::StillDesynced, 8, 1, 2), None);
    assert!(s.desynced);
    // A match clears the flag.
    assert_eq!(s.apply_checksum_outcome(ChecksumOutcome::Match, 9, 3, 3), None);
    assert!(!s.desynced);
    // An unknown frame changes nothing.
    assert_eq!(s.apply_checksum_outcome(ChecksumOutcome::Unknown, 10, 0, 4), None);
    assert!(!s.desynced);
}
