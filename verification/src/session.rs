//! Peer session manager: establishes a session with exactly two peers,
//! binds each to a player handle, configures input delay and desync
//! cadence, and thereafter carries only input and checksum payloads between
//! the scheduler and the network layer.
//!
//! Establishment failures are fatal to session start and surfaced once;
//! mid-session channel loss moves the session to `Faulted` and is surfaced
//! as an event rather than retried.

use vstd::prelude::*;
use crate::desync::ChecksumOutcome;
use crate::desync::ChecksumRecord;
use crate::desync::DesyncDetector;
use crate::desync::spec_lookup;
use crate::events::FaultSurface;
use crate::events::SessionEvent;
use crate::events::TransportNotice;
use crate::input::Input;
use crate::scheduler::Scheduler;
use crate::scheduler::TickReport;
use crate::sim::SimState;
use crate::sim::spec_checksum;
use crate::sim::checksum;

verus! {

/// Number of players a session binds: this design is fixed at two peers.
pub const NUM_PLAYERS: usize = 2;

/// Lifecycle of a session.
#[derive(Clone, Copy, PartialEq, Eq, Structural, Debug)]
pub enum SessionState {
    /// The roster has not reached the required size yet.
    AwaitingPeers,
    /// All player handles have a connected peer; the simulation runs.
    Active,
    /// Unrecoverable network loss; surfaced, never retried internally.
    Faulted,
}

/// Why a session could not be established.
#[derive(Clone, Copy, PartialEq, Eq, Structural, Debug)]
pub enum SessionError {
    /// A player was bound to a handle outside `0..NUM_PLAYERS`.
    InvalidHandle,
    /// Two players were bound to the same handle.
    DuplicateHandle,
    /// Not every handle in `0..NUM_PLAYERS` has a player.
    MissingPlayers,
    /// The session needs exactly one local player.
    LocalPlayerMisconfigured,
}

/// Session parameters, fixed at establishment.
#[derive(Clone, Copy, PartialEq, Eq, Structural, Debug)]
pub struct SessionConfig {
    /// How many peers the session binds.
    pub num_players: usize,
    /// Frames of artificial local input latency: trades responsiveness for
    /// fewer rollbacks.
    pub input_delay: usize,
    /// Maximum rollback window in frames.
    pub window: usize,
    /// Exchange checksums every this many settled frames.
    pub desync_interval: u32,
    /// The handle driven by local controls.
    pub local_handle: usize,
}

impl SessionConfig {
    /// Well-formedness of the configuration.
    pub open spec fn wf(self) -> bool {
        &&& self.num_players == NUM_PLAYERS
        &&& self.local_handle < 2
        &&& self.window >= 1
        &&& self.desync_interval >= 1
    }
}

/// One peer bound (or to be bound) to a player handle.
#[derive(Clone, Copy, PartialEq, Eq, Structural, Debug)]
pub struct PlayerSlot {
    /// The peer's identifier from the discovery roster.
    pub id: u64,
    /// The player handle it is bound to.
    pub handle: usize,
    /// Whether this is the local player.
    pub local: bool,
}

/// The session phase implied by the discovery roster: before the roster
/// reaches the required size the session awaits peers; from then on it can
/// go active.
pub fn roster_phase(present: usize, needed: usize) -> (s: SessionState)
    ensures
        s == (if present < needed {
            SessionState::AwaitingPeers
        } else {
            SessionState::Active
        }),
{
    if present < needed {
        SessionState::AwaitingPeers
    } else {
        SessionState::Active
    }
}

/// How many slots are marked local.
pub open spec fn spec_local_count(slots: Seq<PlayerSlot>) -> int
    decreases slots.len(),
{
    if slots.len() == 0 {
        0
    } else {
        spec_local_count(slots.skip(1)) + if slots[0].local {
            1int
        } else {
            0int
        }
    }
}

/// The handle of the first slot marked local.
pub open spec fn spec_local_handle(slots: Seq<PlayerSlot>) -> int
    decreases slots.len(),
{
    if slots.len() == 0 {
        0
    } else if slots[0].local {
        slots[0].handle as int
    } else {
        spec_local_handle(slots.skip(1))
    }
}

/// Builds a two-peer session: binds each enumerated peer to a handle,
/// carries the input-delay and desync-cadence configuration, and checks the
/// establishment rules when the session starts.
pub struct SessionBuilder {
    pub config: SessionConfig,
    pub slots: Vec<PlayerSlot>,
}

impl SessionBuilder {
    /// Some slot already binds handle `h`.
    pub open spec fn spec_has_handle(self, h: int) -> bool {
        exists|i: int| 0 <= i < self.slots@.len() && (#[trigger] self.slots@[i]).handle == h
    }

    /// A builder with no players yet: two-player session, no input delay, a
    /// rollback window of 8 frames, checksums exchanged every settled
    /// frame.
    pub fn new() -> (b: SessionBuilder)
        ensures
            b.config == (SessionConfig {
                num_players: NUM_PLAYERS,
                input_delay: 0,
                window: 8,
                desync_interval: 1,
                local_handle: 0,
            }),
            b.config.wf(),
            b.slots@.len() == 0,
    {
        SessionBuilder {
            config: SessionConfig {
                num_players: NUM_PLAYERS,
                input_delay: 0,
                window: 8,
                desync_interval: 1,
                local_handle: 0,
            },
            slots: Vec::new(),
        }
    }

    /// Sets the frames of artificial local input latency.
    pub fn with_input_delay(self, d: usize) -> (b: SessionBuilder)
        ensures
            b.config == (SessionConfig { input_delay: d, ..self.config }),
            b.slots == self.slots,
    {
        SessionBuilder { config: SessionConfig { input_delay: d, ..self.config }, slots: self.slots }
    }

    /// Sets the maximum rollback window.
    pub fn with_rollback_window(self, w: usize) -> (b: SessionBuilder)
        requires
            w >= 1,
        ensures
            b.config == (SessionConfig { window: w, ..self.config }),
            b.slots == self.slots,
    {
        SessionBuilder { config: SessionConfig { window: w, ..self.config }, slots: self.slots }
    }

    /// Sets the desync-detection cadence: exchange checksums every `k`
    /// settled frames.
    pub fn with_desync_interval(self, k: u32) -> (b: SessionBuilder)
        requires
            k >= 1,
        ensures
            b.config == (SessionConfig { desync_interval: k, ..self.config }),
            b.slots == self.slots,
    {
        SessionBuilder {
            config: SessionConfig { desync_interval: k, ..self.config },
            slots: self.slots,
        }
    }

    /// Whether some slot already binds handle `h`.
    fn has_handle(&self, h: usize) -> (b: bool)
        ensures
            b == self.spec_has_handle(h as int),
    {
        let n = self.slots.len();
        let mut i: usize = 0;
        while i < n
            invariant
                i <= n,
                n == self.slots@.len(),
                forall|k: int| 0 <= k < i ==> (#[trigger] self.slots@[k]).handle != h,
            decreases n - i,
        {
            if self.slots[i].handle == h {
                return true;
            }
            i = i + 1;
        }
        false
    }

    /// Binds peer `id` to player handle `handle`.  Fails — fatally for the
    /// session being built, as establishment failures are — on a handle
    /// outside the player range or one already bound.
    pub fn add_player(&mut self, id: u64, handle: usize, local: bool) -> (r: Result<
        usize,
        SessionError,
    >)
        ensures
            final(self).config == old(self).config,
            match r {
                Result::Ok(h) => {
                    &&& h == handle
                    &&& handle < old(self).config.num_players
                    &&& !old(self).spec_has_handle(handle as int)
                    &&& final(self).slots@ == old(self).slots@.push(
                        PlayerSlot { id, handle, local },
                    )
                },
                Result::Err(SessionError::InvalidHandle) => {
                    &&& handle >= old(self).config.num_players
                    &&& final(self).slots == old(self).slots
                },
                Result::Err(SessionError::DuplicateHandle) => {
                    &&& handle < old(self).config.num_players
                    &&& old(self).spec_has_handle(handle as int)
                    &&& final(self).slots == old(self).slots
                },
                Result::Err(_) => false,
            },
    {
        if handle >= self.config.num_players {
            return Result::Err(SessionError::InvalidHandle);
        }
        if self.has_handle(handle) {
            return Result::Err(SessionError::DuplicateHandle);
        }
        self.slots.push(PlayerSlot { id, handle, local });
        Result::Ok(handle)
    }

    /// Counts the slots marked local.
    fn local_count(&self) -> (n: usize)
        ensures
            n == spec_local_count(self.slots@),
            n <= self.slots@.len(),
    {
        let len = self.slots.len();
        let mut i: usize = 0;
        let mut n: usize = 0;
        proof {
            assert(self.slots@.skip(0) =~= self.slots@);
        }
        while i < len
            invariant
                i <= len,
                n <= i,
                len == self.slots@.len(),
                spec_local_count(self.slots@) == n + spec_local_count(self.slots@.skip(i as int)),
            decreases len - i,
        {
            proof {
                assert(self.slots@.skip(i as int)[0] == self.slots@[i as int]);
                assert(self.slots@.skip(i as int).skip(1) =~= self.slots@.skip(i + 1));
            }
            if self.slots[i].local {
                n = n + 1;
            }
            i = i + 1;
        }
        proof {
            assert(self.slots@.skip(len as int) =~= Seq::<PlayerSlot>::empty());
        }
        n
    }

    /// The handle of the first slot marked local.
    fn local_handle_of_slots(&self) -> (h: usize)
        requires
            spec_local_count(self.slots@) >= 1,
        ensures
            h == spec_local_handle(self.slots@),
    {
        let len = self.slots.len();
        let mut i: usize = 0;
        proof {
            assert(self.slots@.skip(0) =~= self.slots@);
        }
        while i < len
            invariant
                i <= len,
                len == self.slots@.len(),
                spec_local_count(self.slots@.skip(i as int)) >= 1,
                spec_local_handle(self.slots@) == spec_local_handle(self.slots@.skip(i as int)),
            decreases len - i,
        {
            proof {
                assert(self.slots@.skip(i as int)[0] == self.slots@[i as int]);
                assert(self.slots@.skip(i as int).skip(1) =~= self.slots@.skip(i + 1));
            }
            if self.slots[i].local {
                return self.slots[i].handle;
            }
            i = i + 1;
        }
        proof {
            assert(self.slots@.skip(len as int) =~= Seq::<PlayerSlot>::empty());
            assert(false);
        }
        0
    }

    /// Starts the session over the established channel, simulating from
    /// `initial`.  Every handle in `0..NUM_PLAYERS` must be bound and
    /// exactly one slot must be local; a violation is an establishment
    /// failure, fatal to session start and reported once.  On success the
    /// session is `Active` at frame 0.
    pub fn start(self, initial: SimState) -> (r: Result<RollbackSession, SessionError>)
        requires
            self.config.wf(),
            initial.wf(),
        ensures
            match r {
                Result::Ok(s) => {
                    &&& self.spec_has_handle(0) && self.spec_has_handle(1)
                    &&& spec_local_count(self.slots@) == 1
                    &&& s.wf()
                    &&& s.status == SessionState::Active
                    &&& s.config == (SessionConfig {
                        local_handle: spec_local_handle(self.slots@) as usize,
                        ..self.config
                    })
                    &&& s.scheduler.frame.frame == 0
                    &&& s.scheduler.state == initial
                    &&& s.scheduler.history.records@.len() == 0
                    &&& s.detector.local@.len() == 0
                    &&& !s.faults.desynced
                },
                Result::Err(SessionError::MissingPlayers) => !(self.spec_has_handle(0)
                    && self.spec_has_handle(1)),
                Result::Err(SessionError::LocalPlayerMisconfigured) => {
                    &&& self.spec_has_handle(0) && self.spec_has_handle(1)
                    &&& (spec_local_count(self.slots@) != 1 || spec_local_handle(self.slots@) >= 2)
                },
                Result::Err(_) => false,
            },
    {
        if !(self.has_handle(0) && self.has_handle(1)) {
            return Result::Err(SessionError::MissingPlayers);
        }
        if self.local_count() != 1 {
            return Result::Err(SessionError::LocalPlayerMisconfigured);
        }
        let local_handle = self.local_handle_of_slots();
        if local_handle >= 2 {
            // A local slot bound past the player range cannot happen once
            // add_player has vetted every slot, but slots are plain data:
            // treat it as the establishment failure it is.
            return Result::Err(SessionError::LocalPlayerMisconfigured);
        }
        let config = SessionConfig { local_handle, ..self.config };
        let scheduler = Scheduler::new(local_handle, config.input_delay, config.window, initial);
        let detector = DesyncDetector::new(config.desync_interval, 64);
        Result::Ok(
            RollbackSession {
                config,
                status: SessionState::Active,
                scheduler,
                detector,
                faults: FaultSurface::new(),
            },
        )
    }
}

/// A wire payload: the only things peers exchange once the session runs.
#[derive(Clone, Copy, PartialEq, Eq, Structural, Debug)]
pub enum Message {
    /// One player's input for one frame.
    Input { frame: u32, player_handle: usize, input: Input },
    /// The sender's state checksum at a settled frame.
    Checksum { frame: u32, checksum: u64 },
}

/// What one session tick produced: the scheduler's report, the input
/// message to send to the peer (the local input, stamped with the frame it
/// will apply to after the input delay), and, when a settled frame hit the
/// desync cadence, the checksum to send.
pub struct SessionTick {
    pub report: TickReport,
    pub outgoing_input: Message,
    pub checksum_report: Option<ChecksumRecord>,
}

/// An established two-peer rollback session: the scheduler, the desync
/// detector and the fault surface behind one façade that the application
/// drives once per fixed tick and feeds with received messages.
pub struct RollbackSession {
    pub config: SessionConfig,
    pub status: SessionState,
    pub scheduler: Scheduler,
    pub detector: DesyncDetector,
    pub faults: FaultSurface,
}

impl RollbackSession {
    /// Well-formedness: the parts agree with the configuration.
    pub open spec fn wf(self) -> bool {
        &&& self.config.wf()
        &&& self.scheduler.wf()
        &&& self.scheduler.local_handle == self.config.local_handle
        &&& self.scheduler.input_delay == self.config.input_delay
        &&& self.scheduler.window == self.config.window
        &&& self.detector.wf()
        &&& self.detector.interval == self.config.desync_interval
    }

    /// The current frame counter.
    pub fn current_frame(&self) -> (f: u32)
        ensures
            f == self.scheduler.frame.frame,
    {
        self.scheduler.frame.frame
    }

    /// The live rollback-registered state, read-only, for presentation.
    pub fn current_state(&self) -> (s: SimState)
        ensures
            s == self.scheduler.state,
    {
        self.scheduler.state
    }

    /// The checksum of the live state.
    pub fn local_checksum(&self) -> (c: u64)
        requires
            self.wf(),
        ensures
            c == spec_checksum(self.scheduler.state),
    {
        proof {
            self.scheduler.lemma_state_wf();
        }
        checksum(&self.scheduler.state)
    }

    /// One fixed tick: rollback if a confirmation contradicted a used
    /// prediction, then advance one frame (see `Scheduler::tick`).  When
    /// the frame evicted from the window falls on the desync cadence, its
    /// settled checksum is recorded locally and handed back to be sent to
    /// the peer.
    pub fn advance_frame(&mut self, local: Input) -> (t: SessionTick)
        requires
            old(self).wf(),
            old(self).scheduler.frame.frame + 2 <= u32::MAX,
            old(self).scheduler.frame.frame + old(self).config.input_delay <= u32::MAX,
        ensures
            t.outgoing_input == (Message::Input {
                frame: (old(self).scheduler.frame.frame + old(self).config.input_delay) as u32,
                player_handle: old(self).config.local_handle,
                input: local,
            }),
            final(self).wf(),
            final(self).config == old(self).config,
            final(self).status == old(self).status,
            final(self).faults == old(self).faults,
            final(self).scheduler.frame.frame == old(self).scheduler.frame.frame + 1,
            !final(self).scheduler.history.spec_has_divergence(),
            final(self).scheduler.history.records@.len() <= final(self).config.window,
            match t.report.rolled_back {
                Option::None => !old(self).scheduler.history.spec_has_divergence(),
                Option::Some(r) => {
                    &&& old(self).scheduler.history.contains_frame(r as int)
                    &&& old(self).scheduler.history.record_at(r as int).diverged()
                    &&& r as int >= old(self).scheduler.frame.frame - old(self).config.window
                },
            },
            match t.checksum_report {
                Option::Some(cr) => {
                    &&& t.report.settled == Option::Some((cr.frame, cr.value))
                    &&& cr.frame % old(self).config.desync_interval == 0
                    &&& cr.value == spec_checksum(
                        old(self).scheduler.snapshots.snap_at(
                            old(self).scheduler.history.start as int,
                        ),
                    )
                    &&& final(self).detector.local@ == (if old(self).detector.local@.len() == old(
                        self,
                    ).detector.capacity {
                        old(self).detector.local@.skip(1)
                    } else {
                        old(self).detector.local@
                    }).push(cr)
                },
                Option::None => {
                    &&& match t.report.settled {
                        Option::Some(sc) => sc.0 % old(self).config.desync_interval != 0,
                        Option::None => true,
                    }
                    &&& final(self).detector == old(self).detector
                },
            },
    {
        let outgoing_input = Message::Input {
            frame: self.scheduler.frame.frame + self.config.input_delay as u32,
            player_handle: self.config.local_handle,
            input: local,
        };
        let report = self.scheduler.tick(local);
        let mut checksum_report: Option<ChecksumRecord> = Option::None;
        if let Option::Some(sc) = report.settled {
            if self.detector.due(sc.0) {
                self.detector.record_local(sc.0, sc.1);
                checksum_report = Option::Some(ChecksumRecord { frame: sc.0, value: sc.1 });
            }
        }
        SessionTick { report, outgoing_input, checksum_report }
    }

    /// Feeds one received wire message in.  An input for the remote handle
    /// goes to the scheduler (any needed rollback happens at the next
    /// tick); an input echoing the local handle is ignored; a checksum
    /// report is compared against the local record for that frame, and the
    /// first mismatch of a run surfaces as the one desync event.
    pub fn handle_message(&mut self, msg: Message) -> (ev: Option<SessionEvent>)
        requires
            old(self).wf(),
        ensures
            final(self).wf(),
            final(self).config == old(self).config,
            final(self).status == old(self).status,
            final(self).scheduler.frame == old(self).scheduler.frame,
            final(self).scheduler.state == old(self).scheduler.state,
            match msg {
                Message::Input { frame, player_handle, input } => {
                    &&& ev is None
                    &&& final(self).detector == old(self).detector
                    &&& final(self).faults == old(self).faults
                    &&& player_handle != old(self).scheduler.spec_remote_handle() ==> *final(self)
                        == *old(self)
                    &&& (player_handle == old(self).scheduler.spec_remote_handle() && old(
                        self,
                    ).scheduler.history.contains_frame(frame as int)) ==> {
                        &&& final(self).scheduler.history.record_at(
                            frame as int,
                        ).known.spec_for_handle(old(self).scheduler.spec_remote_handle()) == input
                        &&& final(self).scheduler.history.record_at(frame as int).used == old(
                            self,
                        ).scheduler.history.record_at(frame as int).used
                    }
                    &&& (player_handle == old(self).scheduler.spec_remote_handle() && frame >= old(
                        self,
                    ).scheduler.frame.frame) ==> final(self).scheduler.future_remote@ == old(
                        self,
                    ).scheduler.future_remote@.push((frame, input))
                    &&& (player_handle == old(self).scheduler.spec_remote_handle() && (frame as int)
                        < old(self).scheduler.history.start) ==> *final(self) == *old(self)
                },
                Message::Checksum { frame, checksum } => {
                    &&& final(self).scheduler == old(self).scheduler
                    &&& ev == (match old(self).detector.spec_outcome(frame, checksum) {
                        ChecksumOutcome::NewDesync => Option::Some(
                            SessionEvent::DesyncDetected {
                                frame,
                                local_checksum: match spec_lookup(old(self).detector.local@, frame) {
                                    Option::Some(v) => v,
                                    Option::None => 0,
                                },
                                remote_checksum: checksum,
                            },
                        ),
                        _ => Option::<SessionEvent>::None,
                    })
                    &&& final(self).detector.in_desync == old(self).detector.spec_in_desync_after(
                        frame,
                        checksum,
                    )
                    &&& final(self).faults.desynced == (match old(self).detector.spec_outcome(
                        frame,
                        checksum,
                    ) {
                        ChecksumOutcome::Match => false,
                        ChecksumOutcome::NewDesync => true,
                        ChecksumOutcome::StillDesynced => true,
                        ChecksumOutcome::Unknown => old(self).faults.desynced,
                    })
                },
            },
    {
        match msg {
            Message::Input { frame, player_handle, input } => {
                let remote_handle = 1 - self.config.local_handle;
                if player_handle == remote_handle {
                    self.scheduler.handle_remote_input(frame, input);
                }
                Option::None
            },
            Message::Checksum { frame, checksum } => {
                let local_value = match self.detector.lookup_local(frame) {
                    Option::Some(v) => v,
                    Option::None => 0,
                };
                let outcome = self.detector.handle_remote(frame, checksum);
                self.faults.apply_checksum_outcome(outcome, frame, local_value, checksum)
            },
        }
    }

    /// Applies a transport notice for the peer at `handle`: an
    /// interruption keeps the session active on predictions, a
    /// disconnection is terminal and moves the session to `Faulted`.  The
    /// returned event is surfaced, never swallowed; nothing is retried.
    pub fn handle_transport(&mut self, handle: usize, n: TransportNotice) -> (ev: SessionEvent)
        requires
            old(self).wf(),
            handle < 2,
        ensures
            final(self).wf(),
            final(self).config == old(self).config,
            final(self).scheduler == old(self).scheduler,
            final(self).detector == old(self).detector,
            final(self).faults.spec_peer(handle as int) == crate::events::spec_transition(
                old(self).faults.spec_peer(handle as int),
                n,
            ),
            final(self).faults.spec_peer(1 - handle as int) == old(self).faults.spec_peer(
                1 - handle as int,
            ),
            final(self).status == (if n == TransportNotice::Disconnected {
                SessionState::Faulted
            } else {
                old(self).status
            }),
            ev == match n {
                TransportNotice::Interrupted => (SessionEvent::NetworkInterrupted { handle }),
                TransportNotice::Resumed => (SessionEvent::NetworkResumed { handle }),
                TransportNotice::Disconnected => (SessionEvent::Disconnected { handle }),
            },
    {
        let ev = self.faults.apply_notice(handle, n);
        if n == TransportNotice::Disconnected {
            self.status = SessionState::Faulted;
        }
        ev
    }
}

} // verus!
