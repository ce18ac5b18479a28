//! The frame scheduler: drives the fixed-tick simulation and orchestrates
//! save → rewind → resimulate → advance.
//!
//! Each tick the scheduler delays the local player's input by the configured
//! number of frames, merges it with the best-known remote input (confirmed
//! where one has arrived, otherwise the repeat-last-known prediction), finds
//! the earliest frame whose previously-used input differs from what is now
//! confirmed, restores that frame's snapshot and resimulates forward, then
//! advances the frame counter by one and retains a fresh snapshot, evicting
//! history older than the rollback window.
//!
//! Its well-formedness invariant records the determinism contract at run
//! time: every retained snapshot equals the step of the previous snapshot
//! under the inputs its frame was last simulated with, and the live state is
//! the newest snapshot.

use vstd::prelude::*;
use crate::frame::FrameCount;
use crate::history::InputHistory;
use crate::input::Input;
use crate::sim::FrameInputs;
use crate::sim::SimState;
use crate::sim::spec_sim;
use crate::sim::spec_step;
use crate::sim::spec_checksum;
use crate::sim::step;
use crate::sim::checksum;
use crate::snapshot::SnapshotStore;

verus! {

/// What became of a remote input message.
#[derive(Clone, Copy, PartialEq, Eq, Structural, Debug)]
pub enum RemoteInputOutcome {
    /// The frame is older than the retained window: the message arrived too
    /// late to matter and is dropped.
    Stale,
    /// The frame has not been simulated yet: the confirmation is buffered
    /// and consumed when the scheduler reaches that frame.
    Buffered,
    /// The frame is in the retained window: the confirmation is recorded,
    /// and `differs` says whether it contradicts the input that frame was
    /// simulated with — the signal that a rollback is pending.
    Confirmed { differs: bool },
}

/// The best-known inputs of the retained frames `from..end`, oldest first.
pub open spec fn spec_known_from(h: InputHistory, from: int) -> Seq<FrameInputs> {
    Seq::new((h.spec_end() - from) as nat, |i: int| h.record_at(from + i).known)
}

/// The inputs the retained frames `from..upto` were last simulated with,
/// oldest first.
pub open spec fn spec_used_range(h: InputHistory, from: int, upto: int) -> Seq<FrameInputs> {
    Seq::new((upto - from) as nat, |i: int| h.record_at(from + i).used)
}

/// The first buffered confirmation for frame `f`, in arrival order.
pub open spec fn spec_first_future(entries: Seq<(u32, Input)>, f: u32) -> Option<Input>
    decreases entries.len(),
{
    if entries.len() == 0 {
        Option::None
    } else if entries[0].0 == f {
        Option::Some(entries[0].1)
    } else {
        spec_first_future(entries.skip(1), f)
    }
}

/// The frame scheduler.  Owns the frame counter, the live state, the input
/// history and the snapshot store; the peer session manager feeds it remote
/// confirmations and it exposes read-only state to the presentation layer.
pub struct Scheduler {
    /// Which player handle is driven by local controls (0 or 1).
    pub local_handle: usize,
    /// Frames of artificial latency on local input.
    pub input_delay: usize,
    /// Maximum rollback window: how many simulated frames stay retained.
    pub window: usize,
    /// The current frame: the next one to simulate.
    pub frame: FrameCount,
    /// The live state, at the start of the current frame.
    pub state: SimState,
    /// Per-frame inputs of the retained frames `[start, frame)`.
    pub history: InputHistory,
    /// Snapshots at the start of each frame in `[start, frame]`.
    pub snapshots: SnapshotStore,
    /// Local inputs already sampled, for frames `frame..frame + input_delay`.
    pub pending_local: Vec<Input>,
    /// Most recent confirmed remote input: the repeat-last-known prediction.
    pub last_remote: Input,
    /// Frame of that most recent confirmation.
    pub last_remote_frame: u32,
    /// Confirmed remote inputs for frames not yet simulated.
    pub future_remote: Vec<(u32, Input)>,
}

impl Scheduler {
    /// The remote player's handle.
    pub open spec fn spec_remote_handle(self) -> int {
        1 - self.local_handle
    }

    /// Every retained snapshot is well-formed.
    pub open spec fn snaps_wf(self) -> bool {
        forall|f: int|
            self.snapshots.contains_frame(f) ==> (#[trigger] self.snapshots.snap_at(f)).wf()
    }

    /// The determinism chain: each retained snapshot is exactly the step of
    /// the previous one under the inputs its frame was last simulated with.
    /// Restoring any retained snapshot and resimulating the same inputs
    /// therefore reproduces the stored snapshots bit for bit.
    pub open spec fn chain_ok(self) -> bool {
        forall|f: int|
            #![trigger self.history.record_at(f)]
            self.history.contains_frame(f) ==> self.snapshots.snap_at(f + 1) == spec_step(
                self.snapshots.snap_at(f),
                self.history.record_at(f).used,
            )
    }

    /// Well-formedness of the whole scheduler.
    pub open spec fn wf(self) -> bool {
        &&& self.local_handle < 2
        &&& self.window >= 1
        &&& self.history.wf()
        &&& self.snapshots.wf()
        &&& self.history.window == self.window
        &&& self.snapshots.window == self.window
        &&& self.snapshots.start == self.history.start
        &&& self.snapshots.snaps@.len() == self.history.records@.len() + 1
        &&& self.history.spec_end() == self.frame.frame
        &&& self.state == self.snapshots.spec_last()
        &&& self.pending_local@.len() == self.input_delay
        &&& forall|i: int|
            0 <= i < self.future_remote@.len() ==> (#[trigger] self.future_remote@[i]).0
                >= self.frame.frame
        &&& self.snaps_wf()
        &&& self.chain_ok()
    }

    /// Oldest retained frame.
    pub open spec fn spec_start(self) -> int {
        self.history.start as int
    }

    /// Bounded history: a well-formed scheduler retains at most `window`
    /// frames of input history (plus the one snapshot that anchors the
    /// window), and the oldest retained frame is never older than the
    /// current frame minus the window — so a rollback point outside the
    /// window cannot arise.
    pub proof fn lemma_bounded_history(self)
        requires
            self.wf(),
        ensures
            self.history.records@.len() <= self.window,
            self.snapshots.snaps@.len() <= self.window + 1,
            self.history.start >= self.frame.frame - self.window,
            self.snapshots.start >= self.frame.frame - self.window,
    {
    }

    /// The determinism invariant at run time: in a well-formed scheduler,
    /// every retained snapshot — the live state included, as the newest one
    /// — equals the oldest retained snapshot resimulated through the inputs
    /// the intervening frames were last simulated with.  Restoring any
    /// snapshot and replaying the same input history therefore reproduces
    /// the stored snapshots bit for bit, however often it is done.
    pub proof fn lemma_snapshots_replayable(self, f: int)
        requires
            self.wf(),
            self.snapshots.contains_frame(f),
        ensures
            self.snapshots.snap_at(f) == spec_sim(
                self.snapshots.snap_at(self.spec_start()),
                spec_used_range(self.history, self.spec_start(), f),
            ),
        decreases f - self.spec_start(),
    {
        let start = self.spec_start();
        if f == start {
            assert(spec_used_range(self.history, start, f) =~= Seq::<FrameInputs>::empty());
        } else {
            self.lemma_snapshots_replayable(f - 1);
            assert(self.history.contains_frame(f - 1));
            assert(self.snapshots.snap_at(f) == spec_step(
                self.snapshots.snap_at(f - 1),
                self.history.record_at(f - 1).used,
            ));
            let shorter = spec_used_range(self.history, start, f - 1);
            let full = spec_used_range(self.history, start, f);
            assert(full =~= shorter.push(self.history.record_at(f - 1).used));
            crate::sim::lemma_sim_snoc(
                self.snapshots.snap_at(start),
                shorter,
                self.history.record_at(f - 1).used,
            );
        }
    }

    /// The live state of a well-formed scheduler is well-formed: it is the
    /// newest retained snapshot.
    pub proof fn lemma_state_wf(self)
        requires
            self.wf(),
        ensures
            self.state.wf(),
    {
        assert(self.snapshots.contains_frame(self.snapshots.spec_end() - 1));
        assert(self.snapshots.snap_at(self.snapshots.spec_end() - 1).wf());
        assert(self.state == self.snapshots.snap_at(self.snapshots.spec_end() - 1));
    }

    /// A scheduler at frame 0 with the given initial state, an empty
    /// history, and the initial snapshot retained.  Until real inputs are
    /// sampled, the local delay line is primed with all-clear inputs, and
    /// the remote prediction starts all-clear.
    pub fn new(local_handle: usize, input_delay: usize, window: usize, initial: SimState) -> (s:
        Scheduler)
        requires
            local_handle < 2,
            window >= 1,
            initial.wf(),
        ensures
            s.wf(),
            s.local_handle == local_handle,
            s.input_delay == input_delay,
            s.window == window,
            s.frame.frame == 0,
            s.state == initial,
            s.history.records@.len() == 0,
            s.history.start == 0,
    {
        let mut pending: Vec<Input> = Vec::new();
        let mut i: usize = 0;
        while i < input_delay
            invariant
                i <= input_delay,
                pending@.len() == i,
            decreases input_delay - i,
        {
            pending.push(Input::none());
            i = i + 1;
        }
        Scheduler {
            local_handle,
            input_delay,
            window,
            frame: FrameCount::zero(),
            state: initial,
            history: InputHistory::new(window),
            snapshots: SnapshotStore::new(window, initial),
            pending_local: pending,
            last_remote: Input::none(),
            last_remote_frame: 0,
            future_remote: Vec::new(),
        }
    }

    /// Takes in one remote input message `(frame, input)` from the network
    /// layer.  A frame already simulated and still retained gets the
    /// confirmation recorded against the input it was simulated with; a
    /// frame not yet reached is buffered; a frame older than the window is
    /// dropped.  The repeat-last-known prediction follows the newest
    /// confirmation for a frame already simulated; a buffered confirmation
    /// reaches the prediction when the scheduler consumes it.  Receipt never
    /// blocks or rewinds anything by itself: rollback happens at the next
    /// tick boundary.
    pub fn handle_remote_input(&mut self, frame: u32, input: Input) -> (r: RemoteInputOutcome)
        requires
            old(self).wf(),
        ensures
            final(self).wf(),
            final(self).frame == old(self).frame,
            final(self).state == old(self).state,
            final(self).local_handle == old(self).local_handle,
            final(self).input_delay == old(self).input_delay,
            final(self).window == old(self).window,
            final(self).snapshots == old(self).snapshots,
            final(self).pending_local == old(self).pending_local,
            final(self).history.start == old(self).history.start,
            final(self).history.records@.len() == old(self).history.records@.len(),
            (r == RemoteInputOutcome::Stale) <==> (frame as int) < old(self).history.start,
            (r == RemoteInputOutcome::Buffered) <==> frame >= old(self).frame.frame,
            match r {
                RemoteInputOutcome::Stale => {
                    &&& final(self).history == old(self).history
                    &&& final(self).future_remote == old(self).future_remote
                    &&& final(self).last_remote == old(self).last_remote
                    &&& final(self).last_remote_frame == old(self).last_remote_frame
                },
                RemoteInputOutcome::Buffered => {
                    &&& final(self).history == old(self).history
                    &&& final(self).future_remote@ == old(self).future_remote@.push((frame, input))
                    &&& final(self).last_remote == old(self).last_remote
                    &&& final(self).last_remote_frame == old(self).last_remote_frame
                },
                RemoteInputOutcome::Confirmed { differs } => {
                    &&& old(self).history.contains_frame(frame as int)
                    &&& differs == (input != old(self).history.record_at(
                        frame as int,
                    ).used.spec_for_handle(old(self).spec_remote_handle()))
                    &&& final(self).future_remote == old(self).future_remote
                    &&& final(self).history.record_at(frame as int).known.spec_for_handle(
                        old(self).spec_remote_handle(),
                    ) == input
                    &&& final(self).history.record_at(frame as int).used == old(self).history.record_at(frame as int).used
                    &&& final(self).history.record_at(frame as int).spec_confirmed(
                        old(self).spec_remote_handle(),
                    )
                    &&& forall|g: int|
                        final(self).history.contains_frame(g) && g != frame ==> final(self).history.record_at(g) == old(self).history.record_at(g)
                },
            },
            final(self).last_remote == (if (r matches RemoteInputOutcome::Confirmed { .. })
                && frame >= old(self).last_remote_frame {
                input
            } else {
                old(self).last_remote
            }),
            final(self).last_remote_frame == (if (r matches RemoteInputOutcome::Confirmed { .. })
                && frame >= old(self).last_remote_frame {
                frame
            } else {
                old(self).last_remote_frame
            }),
    {
        if frame < self.history.start {
            return RemoteInputOutcome::Stale;
        }
        if frame >= self.frame.frame {
            self.future_remote.push((frame, input));
            return RemoteInputOutcome::Buffered;
        }
        let remote_handle = 1 - self.local_handle;
        let differs = self.history.confirm(remote_handle, frame, input);
        if frame >= self.last_remote_frame {
            self.last_remote = input;
            self.last_remote_frame = frame;
        }
        RemoteInputOutcome::Confirmed { differs }
    }

    /// The rollback point: the earliest retained frame whose previously-used
    /// input for any handle differs from the input now known to be
    /// confirmed, or `None` when every prediction so far matches the
    /// confirmations — then no rollback occurs.  A rollback point older than
    /// the window is impossible by construction: at most `window` frames are
    /// retained, so any reported point is at least `frame - window`.
    pub fn find_rollback_point(&self) -> (r: Option<u32>)
        requires
            self.wf(),
        ensures
            match r {
                Option::None => !self.history.spec_has_divergence(),
                Option::Some(f) => {
                    &&& self.history.contains_frame(f as int)
                    &&& self.history.record_at(f as int).diverged()
                    &&& forall|g: int|
                        self.history.start <= g < f ==> !#[trigger] self.history.record_at(
                            g,
                        ).diverged()
                    &&& f as int >= self.frame.frame - self.window
                    &&& f < self.frame.frame
                },
            },
    {
        self.history.first_divergence()
    }

    /// Restores the snapshot at the rollback point `r` and resimulates
    /// every frame from `r` to the current frame with the best-known
    /// inputs, recording a fresh snapshot after each resimulated frame
    /// (overwriting the stale ones) and marking those inputs as the ones in
    /// use.  The frame counter is untouched: rollback never changes forward
    /// progress.  Afterwards no retained frame is diverged, and the live
    /// state is exactly the restored snapshot resimulated through the
    /// best-known input sequence — recomputing it any number of times gives
    /// the same state, since the step is a pure function.
    #[verifier::loop_isolation(false)]
    pub fn perform_rollback(&mut self, r: u32)
        requires
            old(self).wf(),
            old(self).history.contains_frame(r as int),
            forall|g: int|
                old(self).history.start <= g < r ==> !#[trigger] old(self).history.record_at(
                    g,
                ).diverged(),
        ensures
            final(self).wf(),
            final(self).frame == old(self).frame,
            final(self).local_handle == old(self).local_handle,
            final(self).input_delay == old(self).input_delay,
            final(self).window == old(self).window,
            final(self).pending_local == old(self).pending_local,
            final(self).last_remote == old(self).last_remote,
            final(self).last_remote_frame == old(self).last_remote_frame,
            final(self).future_remote == old(self).future_remote,
            final(self).history.start == old(self).history.start,
            final(self).history.records@.len() == old(self).history.records@.len(),
            forall|g: int|
                old(self).history.start <= g < r ==> final(self).history.record_at(g) == old(self).history.record_at(g),
            forall|g: int|
                final(self).history.contains_frame(g) ==> final(self).history.record_at(g).known
                    == old(self).history.record_at(g).known,
            forall|g: int|
                r <= g < final(self).history.spec_end() ==> final(self).history.record_at(g).used
                    == old(self).history.record_at(g).known,
            !final(self).history.spec_has_divergence(),
            forall|g: int|
                old(self).snapshots.contains_frame(g) && g <= r ==> final(self).snapshots.snap_at(
                    g,
                ) == old(self).snapshots.snap_at(g),
            final(self).state == spec_sim(
                old(self).snapshots.snap_at(r as int),
                spec_known_from(old(self).history, r as int),
            ),
    {
        let ghost knowns = spec_known_from(old(self).history, r as int);
        let ghost snap_r = old(self).snapshots.snap_at(r as int);
        let end = self.frame.frame;
        let mut st = self.snapshots.restore(r);
        let mut f = r;
        while f < end
            invariant
                r <= f <= end,
                self.local_handle == old(self).local_handle,
                self.input_delay == old(self).input_delay,
                self.window == old(self).window,
                self.frame == old(self).frame,
                self.state == old(self).state,
                self.pending_local == old(self).pending_local,
                self.last_remote == old(self).last_remote,
                self.last_remote_frame == old(self).last_remote_frame,
                self.future_remote == old(self).future_remote,
                self.history.wf(),
                self.history.start == old(self).history.start,
                self.history.records@.len() == old(self).history.records@.len(),
                self.history.window == old(self).history.window,
                self.snapshots.wf(),
                self.snapshots.start == old(self).snapshots.start,
                self.snapshots.snaps@.len() == old(self).snapshots.snaps@.len(),
                self.snapshots.window == old(self).snapshots.window,
                forall|g: int|
                    old(self).history.start <= g < r ==> self.history.record_at(g) == old(self).history.record_at(g),
                forall|g: int|
                    self.history.contains_frame(g) ==> (#[trigger] self.history.record_at(
                        g,
                    )).known == old(self).history.record_at(g).known && self.history.record_at(
                        g,
                    ).confirmed0 == old(self).history.record_at(g).confirmed0
                        && self.history.record_at(g).confirmed1 == old(self).history.record_at(
                        g,
                    ).confirmed1,
                forall|g: int|
                    r <= g < f ==> (#[trigger] self.history.record_at(g)).used == old(self).history.record_at(g).known,
                forall|g: int|
                    f <= g < self.history.spec_end() ==> self.history.record_at(g) == old(self).history.record_at(g),
                forall|g: int|
                    old(self).snapshots.contains_frame(g) && g <= r
                        ==> #[trigger] self.snapshots.snap_at(g) == old(self).snapshots.snap_at(g),
                forall|g: int|
                    f < g <= end ==> #[trigger] self.snapshots.snap_at(g) == old(self).snapshots.snap_at(g),
                forall|g: int|
                    self.history.contains_frame(g) && g != f ==> self.snapshots.snap_at(g + 1)
                        == spec_step(
                        self.snapshots.snap_at(g),
                        (#[trigger] self.history.record_at(g)).used,
                    ),
                self.snaps_wf(),
                st == self.snapshots.snap_at(f as int),
                st.wf(),
                st == spec_sim(snap_r, knowns.take(f - r)),
            decreases end - f,
        {
            let rec = self.history.get(f);
            let inp = rec.known;
            proof {
                assert(knowns[f - r] == old(self).history.record_at(f as int).known);
                assert(knowns.take(f + 1 - r) =~= knowns.take(f - r).push(knowns[f - r]));
                crate::sim::lemma_sim_snoc(snap_r, knowns.take(f - r), knowns[f - r]);
            }
            st = step(&st, &inp);
            self.history.mark_resimulated(f);
            let ghost pre_snaps = self.snapshots;
            self.snapshots.overwrite(f + 1, st);
            proof {
                assert forall|g: int| pre_snaps.contains_frame(g) && g != f + 1 implies
                    self.snapshots.snap_at(g) == pre_snaps.snap_at(g) by {
                    assert(self.snapshots.snaps@[g - pre_snaps.start] == pre_snaps.snaps@.update(
                        f + 1 - pre_snaps.start,
                        st,
                    )[g - pre_snaps.start]);
                }
                assert(self.snapshots.snap_at(f + 1) == st);
                assert forall|g: int|
                    old(self).snapshots.contains_frame(g) && g <= r implies self.snapshots.snap_at(
                    g,
                ) == old(self).snapshots.snap_at(g) by {
                    assert(pre_snaps.contains_frame(g));
                    assert(g != f + 1);
                    assert(self.snapshots.snap_at(g) == pre_snaps.snap_at(g));
                    assert(pre_snaps.snap_at(g) == old(self).snapshots.snap_at(g));
                }
                assert forall|g: int| f + 1 < g <= end implies self.snapshots.snap_at(g) == old(self).snapshots.snap_at(g) by {
                    assert(pre_snaps.contains_frame(g));
                    assert(self.snapshots.snap_at(g) == pre_snaps.snap_at(g));
                    assert(pre_snaps.snap_at(g) == old(self).snapshots.snap_at(g));
                }
                assert forall|g: int| self.snapshots.contains_frame(g) implies (
                #[trigger] self.snapshots.snap_at(g)).wf() by {
                    if g == f + 1 {
                        assert(self.snapshots.snap_at(g) == st);
                    } else {
                        assert(pre_snaps.contains_frame(g));
                        assert(self.snapshots.snap_at(g) == pre_snaps.snap_at(g));
                        assert(pre_snaps.snap_at(g).wf());
                    }
                }
            }
            f = f + 1;
        }
        self.state = st;
        proof {
            assert(knowns.take(end - r) =~= knowns);
        }
    }
}

/// What one tick did: whether a rollback was applied and from which frame,
/// and which frame (with its checksum) left the rollback window.
#[derive(Clone, Copy, Debug)]
pub struct TickReport {
    /// The rollback point restored and resimulated this tick, if any.
    pub rolled_back: Option<u32>,
    /// The frame evicted from the window this tick, with the checksum of
    /// its snapshot.  An evicted frame is settled: no in-flight rollback
    /// can change it any more, so its checksum is final and fit to report
    /// to the remote peer for desync detection.
    pub settled: Option<(u32, u64)>,
}

impl Scheduler {
    /// One fixed tick.  In order: the earliest frame whose previously-used
    /// prediction contradicts a confirmation is found and, if there is one,
    /// restored and resimulated (the rollback); the locally sampled input
    /// enters the delay line and the input delayed by `input_delay` ticks
    /// comes out for the current frame; the remote input is the buffered
    /// confirmation for this frame if one arrived, otherwise the
    /// repeat-last-known prediction — ticking never blocks waiting on the
    /// network; the oldest frame is evicted (and its settled checksum
    /// reported) once the window is full; the simulation steps, the frame
    /// counter advances by exactly one, and a fresh snapshot is retained.
    #[verifier::rlimit(30)]
    pub fn tick(&mut self, local: Input) -> (rep: TickReport)
        requires
            old(self).wf(),
            old(self).frame.frame + 2 <= u32::MAX,
        ensures
            final(self).wf(),
            final(self).frame.frame == old(self).frame.frame + 1,
            final(self).local_handle == old(self).local_handle,
            final(self).input_delay == old(self).input_delay,
            final(self).window == old(self).window,
            final(self).last_remote == (match spec_first_future(
                old(self).future_remote@,
                old(self).frame.frame,
            ) {
                Option::Some(ci) => ci,
                Option::None => old(self).last_remote,
            }),
            match rep.rolled_back {
                Option::None => !old(self).history.spec_has_divergence(),
                Option::Some(r) => {
                    &&& old(self).history.contains_frame(r as int)
                    &&& old(self).history.record_at(r as int).diverged()
                    &&& forall|g: int|
                        old(self).history.start <= g < r ==> !#[trigger] old(self).history.record_at(g).diverged()
                    &&& r as int >= old(self).frame.frame - old(self).window
                },
            },
            !final(self).history.spec_has_divergence(),
            final(self).pending_local@ == (old(self).pending_local@ + seq![local]).skip(1),
            final(self).history.record_at(old(self).frame.frame as int).used.spec_for_handle(
                old(self).local_handle as int,
            ) == (old(self).pending_local@ + seq![local])[0],
            ({
                let used_r = final(self).history.record_at(
                    old(self).frame.frame as int,
                ).used.spec_for_handle(old(self).spec_remote_handle());
                match spec_first_future(old(self).future_remote@, old(self).frame.frame) {
                    Option::Some(ci) => used_r == ci && final(self).history.record_at(
                        old(self).frame.frame as int,
                    ).spec_confirmed(old(self).spec_remote_handle()),
                    Option::None => used_r == old(self).last_remote && !final(self).history.record_at(old(self).frame.frame as int).spec_confirmed(
                        old(self).spec_remote_handle(),
                    ),
                }
            }),
            match rep.settled {
                Option::Some(sc) => {
                    &&& old(self).history.records@.len() == old(self).window
                    &&& sc.0 == old(self).history.start
                    &&& sc.1 == spec_checksum(
                        old(self).snapshots.snap_at(old(self).history.start as int),
                    )
                    &&& final(self).history.start == old(self).history.start + 1
                },
                Option::None => {
                    &&& old(self).history.records@.len() < old(self).window
                    &&& final(self).history.start == old(self).history.start
                },
            },
            final(self).history.records@.len() <= final(self).window,
            final(self).history.start >= final(self).frame.frame - final(self).window,
    {
        let rolled_back = self.find_rollback_point();
        if let Option::Some(r) = rolled_back {
            self.perform_rollback(r);
        }
        let ghost mid = *self;
        self.pending_local.push(local);
        let loc = self.pending_local.remove(0);
        proof {
            assert(self.pending_local@ =~= (old(self).pending_local@ + seq![local]).skip(1));
            assert(loc == (old(self).pending_local@ + seq![local])[0]);
        }
        let fut = take_future(&mut self.future_remote, self.frame.frame);
        let remote_confirmed = fut.is_some();
        let rem = match fut {
            Option::Some(i) => i,
            Option::None => self.last_remote,
        };
        if remote_confirmed {
            self.last_remote = rem;
            self.last_remote_frame = self.frame.frame;
        }
        let remote_handle = 1 - self.local_handle;
        let inputs = FrameInputs::none().with_handle(self.local_handle, loc).with_handle(
            remote_handle,
            rem,
        );
        let c0 = if self.local_handle == 0 {
            true
        } else {
            remote_confirmed
        };
        let c1 = if self.local_handle == 1 {
            true
        } else {
            remote_confirmed
        };
        let mut settled: Option<(u32, u64)> = Option::None;
        if self.history.len() == self.window {
            let sf = self.history.start;
            let snap0 = self.snapshots.restore(sf);
            proof {
                assert(self.snapshots.snap_at(sf as int).wf());
            }
            let c = checksum(&snap0);
            settled = Option::Some((sf, c));
            let ghost pre_evict = *self;
            self.history.evict_front();
            self.snapshots.evict_front();
            proof {
                assert forall|g: int| self.snapshots.contains_frame(g) implies
                    #[trigger] self.snapshots.snap_at(g) == pre_evict.snapshots.snap_at(g) by {
                    assert(self.snapshots.snaps@[g - self.snapshots.start]
                        == pre_evict.snapshots.snaps@.skip(1)[g - pre_evict.snapshots.start - 1]);
                }
                assert forall|g: int| self.snapshots.contains_frame(g) implies (
                #[trigger] self.snapshots.snap_at(g)).wf() by {
                    assert(pre_evict.snapshots.contains_frame(g));
                    assert(self.snapshots.snap_at(g) == pre_evict.snapshots.snap_at(g));
                }
                assert forall|g: int| self.history.contains_frame(g) implies
                    self.snapshots.snap_at(g + 1) == spec_step(
                    self.snapshots.snap_at(g),
                    (#[trigger] self.history.record_at(g)).used,
                ) by {
                    assert(self.history.record_at(g) == pre_evict.history.record_at(g));
                    assert(self.snapshots.snap_at(g) == pre_evict.snapshots.snap_at(g));
                    assert(self.snapshots.snap_at(g + 1) == pre_evict.snapshots.snap_at(g + 1));
                }
                assert(self.snapshots.spec_last() == self.snapshots.snap_at(
                    self.snapshots.spec_end() - 1,
                ));
                assert(self.snapshots.snap_at(self.snapshots.spec_end() - 1)
                    == pre_evict.snapshots.snap_at(pre_evict.snapshots.spec_end() - 1));
                assert(self.state == self.snapshots.spec_last());
            }
        }
        let ghost pre_push = *self;
        proof {
            assert(self.state == self.snapshots.spec_last());
            assert(self.snapshots.contains_frame(self.snapshots.spec_end() - 1));
            assert(self.snapshots.snap_at(self.snapshots.spec_end() - 1).wf());
            assert(self.state == self.snapshots.snap_at(self.snapshots.spec_end() - 1));
            assert(self.state.wf());
        }
        let new_state = step(&self.state, &inputs);
        self.history.push(inputs, c0, c1);
        self.snapshots.push(new_state);
        self.state = new_state;
        crate::frame::increase_frame_system(&mut self.frame);
        proof {
            assert forall|g: int| self.snapshots.contains_frame(g) && g
                < self.snapshots.spec_end() - 1 implies #[trigger] self.snapshots.snap_at(g)
                == pre_push.snapshots.snap_at(g) by {
                assert(self.snapshots.snaps@[g - self.snapshots.start]
                    == pre_push.snapshots.snaps@.push(new_state)[g - pre_push.snapshots.start]);
            }
            assert(self.snapshots.snap_at(self.snapshots.spec_end() - 1) == new_state);
            assert forall|g: int| self.history.contains_frame(g) implies self.snapshots.snap_at(
                g + 1,
            ) == spec_step(
                self.snapshots.snap_at(g),
                (#[trigger] self.history.record_at(g)).used,
            ) by {
                if g < self.history.spec_end() - 1 {
                    assert(self.history.record_at(g) == pre_push.history.record_at(g));
                    assert(self.snapshots.snap_at(g) == pre_push.snapshots.snap_at(g));
                    assert(self.snapshots.snap_at(g + 1) == pre_push.snapshots.snap_at(g + 1));
                } else {
                    assert(self.history.record_at(g).used == inputs);
                    assert(self.snapshots.snap_at(g) == pre_push.snapshots.spec_last());
                    assert(self.snapshots.snap_at(g + 1) == new_state);
                }
            }
            assert forall|g: int| self.snapshots.contains_frame(g) implies (
            #[trigger] self.snapshots.snap_at(g)).wf() by {
                if g < self.snapshots.spec_end() - 1 {
                    assert(self.snapshots.snap_at(g) == pre_push.snapshots.snap_at(g));
                    assert(pre_push.snapshots.contains_frame(g));
                } else {
                    assert(self.snapshots.snap_at(g) == new_state);
                }
            }
            assert forall|g: int| self.history.contains_frame(g) implies !(
            #[trigger] self.history.record_at(g)).diverged() by {
                if g < self.history.spec_end() - 1 {
                    assert(self.history.record_at(g) == mid.history.record_at(g));
                }
            }
        }
        TickReport { rolled_back, settled }
    }
}

/// Removes every buffered confirmation for frame `f` from `entries`,
/// returning the first one in arrival order, if any.
fn take_future(entries: &mut Vec<(u32, Input)>, f: u32) -> (r: Option<Input>)
    ensures
        r == spec_first_future(old(entries)@, f),
        forall|i: int| 0 <= i < final(entries)@.len() ==> (#[trigger] final(entries)@[i]).0 != f,
        forall|i: int|
            0 <= i < final(entries)@.len() ==> exists|j: int|
                0 <= j < old(entries)@.len() && old(entries)@[j] == #[trigger] final(entries)@[i],
{
    let n = entries.len();
    let mut found: Option<Input> = Option::None;
    let mut kept: Vec<(u32, Input)> = Vec::new();
    let mut i: usize = 0;
    proof {
        assert(entries@.skip(0) =~= entries@);
    }
    while i < n
        invariant
            i <= n,
            n == entries@.len(),
            found.is_none() ==> spec_first_future(entries@, f) == spec_first_future(
                entries@.skip(i as int),
                f,
            ),
            found.is_some() ==> spec_first_future(entries@, f) == found,
            forall|k: int| 0 <= k < kept@.len() ==> (#[trigger] kept@[k]).0 != f,
            forall|k: int|
                0 <= k < kept@.len() ==> exists|j: int|
                    0 <= j < entries@.len() && entries@[j] == #[trigger] kept@[k],
        decreases n - i,
    {
        let e = entries[i];
        proof {
            assert(entries@.skip(i as int)[0] == entries@[i as int]);
            assert(entries@.skip(i as int).skip(1) =~= entries@.skip(i + 1));
        }
        if e.0 == f {
            if found.is_none() {
                found = Option::Some(e.1);
            }
        } else {
            kept.push(e);
        }
        i = i + 1;
    }
    proof {
        assert(entries@.skip(n as int) =~= Seq::<(u32, Input)>::empty());
    }
    *entries = kept;
    found
}

} // verus!
