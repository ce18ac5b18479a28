//! Event and fault surface: normalizes transport notifications and desync
//! reports into an application-visible event stream.
//!
//! Per peer the connection runs the state machine Connected → Interrupted →
//! (Connected | Disconnected); disconnection is terminal.  Session-wide a
//! single in-sync / desynced flag follows the desync detector.  This layer
//! only classifies and forwards — it performs no recovery, retries nothing,
//! and swallows nothing.

use vstd::prelude::*;
use crate::desync::ChecksumOutcome;

verus! {

/// Connection state of one remote peer.
#[derive(Clone, Copy, PartialEq, Eq, Structural, Debug)]
pub enum PeerConnection {
    /// The channel is healthy.
    Connected,
    /// Transient loss: the session stays active and inputs are predicted.
    Interrupted,
    /// Terminal loss for this peer.
    Disconnected,
}

/// A transport-level notification about one peer's channel.
#[derive(Clone, Copy, PartialEq, Eq, Structural, Debug)]
pub enum TransportNotice {
    /// The channel stopped delivering; may resume.
    Interrupted,
    /// The channel resumed after an interruption.
    Resumed,
    /// The channel is gone for good.
    Disconnected,
}

/// An application-visible session event.
#[derive(Clone, Copy, PartialEq, Eq, Structural, Debug)]
pub enum SessionEvent {
    /// Peers' states differ where determinism says they must not.
    DesyncDetected { frame: u32, local_checksum: u64, remote_checksum: u64 },
    /// A peer's channel was interrupted; the session keeps predicting.
    NetworkInterrupted { handle: usize },
    /// A peer's channel resumed.
    NetworkResumed { handle: usize },
    /// A peer disconnected for good.
    Disconnected { handle: usize },
    /// The peer is ahead; skipping frames would rebalance the session.
    WaitRecommendation { skip_frames: u32 },
}

/// How severe an event is for the application log.
#[derive(Clone, Copy, PartialEq, Eq, Structural, Debug)]
pub enum Severity {
    Info,
    Warning,
    Error,
}

/// The connection state after a transport notice: an interruption of a
/// live channel suspends it, a resumption revives only an interrupted
/// channel, and disconnection is terminal — nothing leaves it.
pub open spec fn spec_transition(c: PeerConnection, n: TransportNotice) -> PeerConnection {
    match n {
        TransportNotice::Interrupted => if c == PeerConnection::Disconnected {
            PeerConnection::Disconnected
        } else {
            PeerConnection::Interrupted
        },
        TransportNotice::Resumed => if c == PeerConnection::Interrupted {
            PeerConnection::Connected
        } else {
            c
        },
        TransportNotice::Disconnected => PeerConnection::Disconnected,
    }
}

/// Applies one transport notice to a peer's connection state.
pub fn transition(c: PeerConnection, n: TransportNotice) -> (r: PeerConnection)
    ensures
        r == spec_transition(c, n),
{
    match n {
        TransportNotice::Interrupted => if c == PeerConnection::Disconnected {
            PeerConnection::Disconnected
        } else {
            PeerConnection::Interrupted
        },
        TransportNotice::Resumed => if c == PeerConnection::Interrupted {
            PeerConnection::Connected
        } else {
            c
        },
        TransportNotice::Disconnected => PeerConnection::Disconnected,
    }
}

/// The log severity of an event: a desync is an error (states must never
/// differ), losing or suspending a channel is a warning, the rest is
/// informational.
pub open spec fn spec_severity(e: SessionEvent) -> Severity {
    match e {
        SessionEvent::DesyncDetected { .. } => Severity::Error,
        SessionEvent::NetworkInterrupted { .. } => Severity::Warning,
        SessionEvent::Disconnected { .. } => Severity::Warning,
        SessionEvent::NetworkResumed { .. } => Severity::Info,
        SessionEvent::WaitRecommendation { .. } => Severity::Info,
    }
}

/// Classifies an event for the application log.
pub fn classify(e: &SessionEvent) -> (s: Severity)
    ensures
        s == spec_severity(*e),
{
    match e {
        SessionEvent::DesyncDetected { .. } => Severity::Error,
        SessionEvent::NetworkInterrupted { .. } => Severity::Warning,
        SessionEvent::Disconnected { .. } => Severity::Warning,
        SessionEvent::NetworkResumed { .. } => Severity::Info,
        SessionEvent::WaitRecommendation { .. } => Severity::Info,
    }
}

/// Per-session fault state: each peer's connection plus the session-wide
/// in-sync flag.
pub struct FaultSurface {
    /// Connection state of the peer bound to handle 0.
    pub peer0: PeerConnection,
    /// Connection state of the peer bound to handle 1.
    pub peer1: PeerConnection,
    /// Whether a desync fault is currently standing.
    pub desynced: bool,
}

impl FaultSurface {
    /// The recorded state of the peer at `handle`.
    pub open spec fn spec_peer(self, handle: int) -> PeerConnection {
        if handle == 0 {
            self.peer0
        } else {
            self.peer1
        }
    }

    /// Some peer is gone for good: the session cannot recover.
    pub open spec fn spec_any_disconnected(self) -> bool {
        self.peer0 == PeerConnection::Disconnected || self.peer1 == PeerConnection::Disconnected
    }

    /// All channels healthy, no desync standing.
    pub fn new() -> (s: FaultSurface)
        ensures
            s.peer0 == PeerConnection::Connected,
            s.peer1 == PeerConnection::Connected,
            !s.desynced,
    {
        FaultSurface {
            peer0: PeerConnection::Connected,
            peer1: PeerConnection::Connected,
            desynced: false,
        }
    }

    /// Applies a transport notice for the peer at `handle` and returns the
    /// event to surface for it.  Classification only: no retry, no
    /// recovery.
    pub fn apply_notice(&mut self, handle: usize, n: TransportNotice) -> (e: SessionEvent)
        requires
            handle < 2,
        ensures
            final(self).spec_peer(handle as int) == spec_transition(
                old(self).spec_peer(handle as int),
                n,
            ),
            final(self).spec_peer(1 - handle as int) == old(self).spec_peer(1 - handle as int),
            final(self).desynced == old(self).desynced,
            e == match n {
                TransportNotice::Interrupted => (SessionEvent::NetworkInterrupted { handle }),
                TransportNotice::Resumed => (SessionEvent::NetworkResumed { handle }),
                TransportNotice::Disconnected => (SessionEvent::Disconnected { handle }),
            },
    {
        let cur = if handle == 0 {
            self.peer0
        } else {
            self.peer1
        };
        let next = transition(cur, n);
        if handle == 0 {
            self.peer0 = next;
        } else {
            self.peer1 = next;
        }
        match n {
            TransportNotice::Interrupted => SessionEvent::NetworkInterrupted { handle },
            TransportNotice::Resumed => SessionEvent::NetworkResumed { handle },
            TransportNotice::Disconnected => SessionEvent::Disconnected { handle },
        }
    }

    /// Folds a desync-detector outcome into the session-wide flag and
    /// returns the event to surface: exactly the fresh desync raises one,
    /// everything else passes silently.
    pub fn apply_checksum_outcome(
        &mut self,
        o: ChecksumOutcome,
        frame: u32,
        local_checksum: u64,
        remote_checksum: u64,
    ) -> (e: Option<SessionEvent>)
        ensures
            final(self).peer0 == old(self).peer0,
            final(self).peer1 == old(self).peer1,
            final(self).desynced == match o {
                ChecksumOutcome::Match => false,
                ChecksumOutcome::NewDesync => true,
                ChecksumOutcome::StillDesynced => true,
                ChecksumOutcome::Unknown => old(self).desynced,
            },
            e == match o {
                ChecksumOutcome::NewDesync => Option::Some(
                    SessionEvent::DesyncDetected { frame, local_checksum, remote_checksum },
                ),
                _ => Option::<SessionEvent>::None,
            },
    {
        match o {
            ChecksumOutcome::Match => {
                self.desynced = false;
                Option::None
            },
            ChecksumOutcome::NewDesync => {
                self.desynced = true;
                Option::Some(SessionEvent::DesyncDetected { frame, local_checksum, remote_checksum })
            },
            ChecksumOutcome::StillDesynced => {
                self.desynced = true;
                Option::None
            },
            ChecksumOutcome::Unknown => Option::None,
        }
    }
}

} // verus!
