//! Bounded per-frame input history.
//!
//! A ring of records, one per simulated frame, holding for each player
//! handle the input the simulation step last consumed (`used`) and the
//! best-known input (`known`): the confirmed value where a confirmation has
//! arrived, otherwise the prediction that was used.  A frame whose known
//! input differs from its used input marks a pending rollback; the earliest
//! such frame is the rollback point.  The ring retains at most the
//! configured rollback window, so a rollback point older than the window is
//! impossible by construction.

use vstd::prelude::*;
use crate::input::Input;
use crate::sim::FrameInputs;

verus! {

/// One frame's record: the inputs its last simulation used, the best-known
/// inputs, and which handles are confirmed.
#[derive(Clone, Copy, PartialEq, Eq, Structural, Debug)]
pub struct InputRecord {
    /// Inputs the simulation step for this frame last consumed.
    pub used: FrameInputs,
    /// Best-known inputs: the confirmed value for a confirmed handle, the
    /// prediction that was used otherwise.
    pub known: FrameInputs,
    /// Whether handle 0's input is confirmed.
    pub confirmed0: bool,
    /// Whether handle 1's input is confirmed.
    pub confirmed1: bool,
}

impl InputRecord {
    /// The frame's previously-used input differs from what is now known:
    /// the frame must be resimulated.
    pub open spec fn diverged(self) -> bool {
        self.known != self.used
    }

    /// Whether the given handle's input is confirmed.
    pub open spec fn spec_confirmed(self, handle: int) -> bool {
        if handle == 0 {
            self.confirmed0
        } else {
            self.confirmed1
        }
    }

    /// Both handles confirmed.
    pub open spec fn fully_confirmed(self) -> bool {
        self.confirmed0 && self.confirmed1
    }
}

/// The ordered, bounded history of per-frame inputs: record `i` belongs to
/// frame `start + i`, and at most `window` frames are retained.
pub struct InputHistory {
    /// Maximum number of retained frames: the rollback window.
    pub window: usize,
    /// Oldest retained frame.
    pub start: u32,
    /// One record per retained frame, oldest first.
    pub records: Vec<InputRecord>,
}

impl InputHistory {
    /// Well-formedness: a positive window bounds the ring, and frame
    /// numbers stay within the counter's range.
    pub open spec fn wf(self) -> bool {
        &&& self.window >= 1
        &&& self.records@.len() <= self.window
        &&& self.start + self.records@.len() <= u32::MAX
    }

    /// One past the newest retained frame.
    pub open spec fn spec_end(self) -> int {
        self.start + self.records@.len()
    }

    /// Whether frame `f` is retained.
    pub open spec fn contains_frame(self, f: int) -> bool {
        self.start <= f < self.spec_end()
    }

    /// The record of retained frame `f`.
    pub open spec fn record_at(self, f: int) -> InputRecord {
        self.records@[f - self.start]
    }

    /// Some retained frame needs resimulation.
    pub open spec fn spec_has_divergence(self) -> bool {
        exists|f: int| self.contains_frame(f) && #[trigger] self.record_at(f).diverged()
    }

    /// An empty history starting at frame 0.
    pub fn new(window: usize) -> (h: InputHistory)
        requires
            window >= 1,
        ensures
            h.wf(),
            h.window == window,
            h.start == 0,
            h.records@.len() == 0,
    {
        InputHistory { window, start: 0, records: Vec::new() }
    }

    /// Number of retained frames.
    pub fn len(&self) -> (n: usize)
        ensures
            n == self.records@.len(),
    {
        self.records.len()
    }

    /// Whether frame `f` is retained.
    pub fn contains(&self, f: u32) -> (b: bool)
        requires
            self.wf(),
        ensures
            b == self.contains_frame(f as int),
    {
        self.start <= f && ((f - self.start) as usize) < self.records.len()
    }

    /// Reads the record of retained frame `f`.
    pub fn get(&self, f: u32) -> (r: InputRecord)
        requires
            self.wf(),
            self.contains_frame(f as int),
        ensures
            r == self.record_at(f as int),
    {
        self.records[(f - self.start) as usize]
    }

    /// Appends the record for the next frame, first simulated just now with
    /// inputs `used`, each handle marked confirmed where the value is a
    /// confirmation rather than a prediction.  The new frame's known input
    /// starts equal to the used one: a frame never begins diverged.
    pub fn push(&mut self, used: FrameInputs, confirmed0: bool, confirmed1: bool)
        requires
            old(self).wf(),
            old(self).records@.len() < old(self).window,
            old(self).spec_end() < u32::MAX,
        ensures
            final(self).wf(),
            final(self).window == old(self).window,
            final(self).start == old(self).start,
            final(self).records@ == old(self).records@.push(
                InputRecord { used, known: used, confirmed0, confirmed1 },
            ),
            !final(self).record_at(final(self).spec_end() - 1).diverged(),
    {
        self.records.push(InputRecord { used, known: used, confirmed0, confirmed1 });
    }

    /// Records the arrival of a confirmed input for `handle` at retained
    /// frame `frame`.  The best-known input for that handle becomes the
    /// confirmed value; the inputs the frame was simulated with are
    /// untouched.  Returns whether the confirmation differs from the input
    /// previously used for that handle — the signal that a rollback to this
    /// frame (or an earlier one) is needed.
    pub fn confirm(&mut self, handle: usize, frame: u32, input: Input) -> (differs: bool)
        requires
            old(self).wf(),
            handle < 2,
            old(self).contains_frame(frame as int),
        ensures
            final(self).wf(),
            final(self).window == old(self).window,
            final(self).start == old(self).start,
            final(self).records@.len() == old(self).records@.len(),
            differs == (input != old(self).record_at(frame as int).used.spec_for_handle(
                handle as int,
            )),
            final(self).record_at(frame as int).used == old(self).record_at(frame as int).used,
            final(self).record_at(frame as int).known.spec_for_handle(handle as int) == input,
            final(self).record_at(frame as int).known.spec_for_handle(1 - handle as int) == old(
                self,
            ).record_at(frame as int).known.spec_for_handle(1 - handle as int),
            final(self).record_at(frame as int).spec_confirmed(handle as int),
            final(self).record_at(frame as int).spec_confirmed(1 - handle as int) == old(
                self,
            ).record_at(frame as int).spec_confirmed(1 - handle as int),
            forall|g: int|
                final(self).contains_frame(g) && g != frame ==> final(self).record_at(g) == old(
                    self,
                ).record_at(g),
    {
        let idx = (frame - self.start) as usize;
        let rec = self.records[idx];
        let differs = input != rec.used.for_handle(handle);
        let new_rec = InputRecord {
            used: rec.used,
            known: rec.known.with_handle(handle, input),
            confirmed0: rec.confirmed0 || handle == 0,
            confirmed1: rec.confirmed1 || handle == 1,
        };
        self.records[idx] = new_rec;
        differs
    }

    /// After frame `frame` has been resimulated with its best-known inputs,
    /// records that those inputs are now the ones in use.  The frame is no
    /// longer diverged.
    pub fn mark_resimulated(&mut self, frame: u32)
        requires
            old(self).wf(),
            old(self).contains_frame(frame as int),
        ensures
            final(self).wf(),
            final(self).window == old(self).window,
            final(self).start == old(self).start,
            final(self).records@.len() == old(self).records@.len(),
            final(self).record_at(frame as int) == (InputRecord {
                used: old(self).record_at(frame as int).known,
                ..old(self).record_at(frame as int)
            }),
            !final(self).record_at(frame as int).diverged(),
            forall|g: int|
                final(self).contains_frame(g) && g != frame ==> final(self).record_at(g) == old(
                    self,
                ).record_at(g),
    {
        let idx = (frame - self.start) as usize;
        let rec = self.records[idx];
        self.records[idx] = InputRecord { used: rec.known, ..rec };
    }

    /// Drops the oldest retained frame, once no in-flight rollback can
    /// reach it any more.
    pub fn evict_front(&mut self)
        requires
            old(self).wf(),
            old(self).records@.len() >= 1,
        ensures
            final(self).wf(),
            final(self).window == old(self).window,
            final(self).start == old(self).start + 1,
            final(self).records@ == old(self).records@.skip(1),
            forall|g: int|
                final(self).contains_frame(g) ==> final(self).record_at(g) == old(self).record_at(
                    g,
                ),
    {
        self.records.remove(0);
        self.start = self.start + 1;
        assert(final(self).records@ =~= old(self).records@.skip(1));
    }

    /// The earliest retained frame whose previously-used input for any
    /// handle differs from the input now known — the rollback point — or
    /// `None` when every prediction so far matches what has been confirmed.
    pub fn first_divergence(&self) -> (r: Option<u32>)
        requires
            self.wf(),
        ensures
            match r {
                Option::None => !self.spec_has_divergence(),
                Option::Some(f) => {
                    &&& self.contains_frame(f as int)
                    &&& self.record_at(f as int).diverged()
                    &&& forall|g: int|
                        self.start <= g < f ==> !#[trigger] self.record_at(g).diverged()
                },
            },
    {
        let n = self.records.len();
        let mut i: usize = 0;
        while i < n
            invariant
                self.wf(),
                n == self.records@.len(),
                i <= n,
                forall|g: int|
                    self.start <= g < self.start + i ==> !#[trigger] self.record_at(g).diverged(),
            decreases n - i,
        {
            let rec = self.records[i];
            if rec.known != rec.used {
                return Option::Some(self.start + i as u32);
            }
            i = i + 1;
        }
        Option::None
    }
}

/// Prediction convergence, one confirmation at a time: a confirmation that
/// carries exactly the input the frame was already simulated with leaves
/// the frame undiverged.  `updated` is the record as `confirm` rewrites it:
/// the used inputs untouched, the known input at `handle` set to the
/// confirmed value, the other handle's known input kept.
pub proof fn lemma_matching_confirmation_no_divergence(
    rec: InputRecord,
    updated: InputRecord,
    handle: int,
    input: Input,
)
    requires
        0 <= handle < 2,
        !rec.diverged(),
        input == rec.used.spec_for_handle(handle),
        updated.used == rec.used,
        updated.known.spec_for_handle(handle) == input,
        updated.known.spec_for_handle(1 - handle) == rec.known.spec_for_handle(1 - handle),
    ensures
        !updated.diverged(),
{
    if handle == 0 {
        assert(updated.known.p0 == updated.used.p0);
        assert(updated.known.p1 == updated.used.p1);
    } else {
        assert(updated.known.p1 == updated.used.p1);
        assert(updated.known.p0 == updated.used.p0);
    }
}

/// Prediction convergence over the whole window: when no retained frame's
/// best-known inputs differ from the inputs it was simulated with — the
/// remote input never changed from what the repeat-last-known policy
/// predicted — the rollback point does not exist and no rollback occurs.
pub proof fn lemma_prediction_convergence(h: InputHistory)
    requires
        forall|f: int| h.contains_frame(f) ==> !(#[trigger] h.record_at(f)).diverged(),
    ensures
        !h.spec_has_divergence(),
{
}

} // verus!
