//! Desync detector: compares locally computed state checksums against the
//! values the remote peer reports for the same frames.
//!
//! Checksums are recorded only for settled frames — frames no in-flight
//! rollback can still change — so a reported value is never overwritten
//! later.  Every `interval` frames a comparison is due.  A mismatch raises
//! exactly one desync fault per contiguous mismatched run: further
//! mismatches while the run persists are classified as ongoing, and a
//! matching frame ends the run and re-arms the detector.  Detection only
//! classifies; there is no authoritative peer, so nothing is auto-corrected.

use vstd::prelude::*;

verus! {

/// A checksum reported for one settled frame.
#[derive(Clone, Copy, PartialEq, Eq, Structural, Debug)]
pub struct ChecksumRecord {
    pub frame: u32,
    pub value: u64,
}

/// The classification of one remote checksum report.
#[derive(Clone, Copy, PartialEq, Eq, Structural, Debug)]
pub enum ChecksumOutcome {
    /// The local and remote values for the frame agree.
    Match,
    /// First mismatch of a contiguous run: the one desync fault to raise.
    NewDesync,
    /// The run persists; no further fault is raised for it.
    StillDesynced,
    /// No local record for that frame is retained: nothing to compare.
    Unknown,
}

/// The locally recorded checksum for frame `f`: the first retained record
/// carrying that frame, if any.
pub open spec fn spec_lookup(records: Seq<ChecksumRecord>, f: u32) -> Option<u64>
    decreases records.len(),
{
    if records.len() == 0 {
        Option::None
    } else if records[0].frame == f {
        Option::Some(records[0].value)
    } else {
        spec_lookup(records.skip(1), f)
    }
}

/// The desync detector: locally recorded checksums of settled frames, the
/// comparison cadence, and whether a mismatched run is currently open.
pub struct DesyncDetector {
    /// Compare every `interval` confirmed frames.
    pub interval: u32,
    /// How many local records are retained for late remote reports.
    pub capacity: usize,
    /// Checksums of settled frames, oldest first.
    pub local: Vec<ChecksumRecord>,
    /// A mismatched run is open: its fault has already been raised.
    pub in_desync: bool,
}

impl DesyncDetector {
    /// Well-formedness: a positive cadence and a bounded record store.
    pub open spec fn wf(self) -> bool {
        &&& self.interval >= 1
        &&& self.capacity >= 1
        &&& self.local@.len() <= self.capacity
    }

    /// What a remote report `(f, value)` is classified as.
    pub open spec fn spec_outcome(self, f: u32, value: u64) -> ChecksumOutcome {
        match spec_lookup(self.local@, f) {
            Option::None => ChecksumOutcome::Unknown,
            Option::Some(v) => if v == value {
                ChecksumOutcome::Match
            } else if self.in_desync {
                ChecksumOutcome::StillDesynced
            } else {
                ChecksumOutcome::NewDesync
            },
        }
    }

    /// Whether a mismatched run is open after a remote report `(f, value)`.
    pub open spec fn spec_in_desync_after(self, f: u32, value: u64) -> bool {
        match spec_lookup(self.local@, f) {
            Option::None => self.in_desync,
            Option::Some(v) => v != value,
        }
    }

    /// A fresh detector with the given cadence and record capacity.
    pub fn new(interval: u32, capacity: usize) -> (d: DesyncDetector)
        requires
            interval >= 1,
            capacity >= 1,
        ensures
            d.wf(),
            d.interval == interval,
            d.capacity == capacity,
            d.local@.len() == 0,
            !d.in_desync,
    {
        DesyncDetector { interval, capacity, local: Vec::new(), in_desync: false }
    }

    /// Whether a checksum exchange is due at `frame`: every `interval`
    /// confirmed frames.
    pub fn due(&self, frame: u32) -> (b: bool)
        requires
            self.wf(),
        ensures
            b == (frame % self.interval == 0),
    {
        frame % self.interval == 0
    }

    /// Records the locally computed checksum of a settled frame, evicting
    /// the oldest record once the store is full.
    pub fn record_local(&mut self, frame: u32, value: u64)
        requires
            old(self).wf(),
        ensures
            final(self).wf(),
            final(self).interval == old(self).interval,
            final(self).capacity == old(self).capacity,
            final(self).in_desync == old(self).in_desync,
            final(self).local@ == (if old(self).local@.len() == old(self).capacity {
                old(self).local@.skip(1)
            } else {
                old(self).local@
            }).push(ChecksumRecord { frame, value }),
    {
        if self.local.len() == self.capacity {
            self.local.remove(0);
            assert(self.local@ =~= old(self).local@.skip(1));
        }
        self.local.push(ChecksumRecord { frame, value });
    }

    /// The locally recorded checksum for frame `f`, if still retained.
    pub fn lookup_local(&self, f: u32) -> (r: Option<u64>)
        ensures
            r == spec_lookup(self.local@, f),
    {
        let n = self.local.len();
        let mut i: usize = 0;
        proof {
            assert(self.local@.skip(0) =~= self.local@);
        }
        while i < n
            invariant
                i <= n,
                n == self.local@.len(),
                spec_lookup(self.local@, f) == spec_lookup(self.local@.skip(i as int), f),
            decreases n - i,
        {
            let rec = self.local[i];
            proof {
                assert(self.local@.skip(i as int)[0] == self.local@[i as int]);
                assert(self.local@.skip(i as int).skip(1) =~= self.local@.skip(i + 1));
            }
            if rec.frame == f {
                return Option::Some(rec.value);
            }
            i = i + 1;
        }
        proof {
            assert(self.local@.skip(n as int) =~= Seq::<ChecksumRecord>::empty());
        }
        Option::None
    }

    /// Classifies the checksum the remote peer reports for frame `f` and
    /// updates the run state: a mismatch opens a run (raising its one
    /// fault only if no run was open), a match closes it, an unknown frame
    /// changes nothing.
    pub fn handle_remote(&mut self, f: u32, value: u64) -> (o: ChecksumOutcome)
        requires
            old(self).wf(),
        ensures
            final(self).wf(),
            final(self).interval == old(self).interval,
            final(self).capacity == old(self).capacity,
            final(self).local == old(self).local,
            o == old(self).spec_outcome(f, value),
            final(self).in_desync == old(self).spec_in_desync_after(f, value),
    {
        let n = self.local.len();
        let mut i: usize = 0;
        proof {
            assert(self.local@.skip(0) =~= self.local@);
        }
        while i < n
            invariant
                i <= n,
                n == self.local@.len(),
                *self == *old(self),
                self.wf(),
                spec_lookup(self.local@, f) == spec_lookup(self.local@.skip(i as int), f),
                forall|k: int| 0 <= k < i ==> (#[trigger] self.local@[k]).frame != f,
            decreases n - i,
        {
            let rec = self.local[i];
            proof {
                assert(self.local@.skip(i as int)[0] == self.local@[i as int]);
                assert(self.local@.skip(i as int).skip(1) =~= self.local@.skip(i + 1));
            }
            if rec.frame == f {
                if rec.value == value {
                    self.in_desync = false;
                    return ChecksumOutcome::Match;
                }
                if self.in_desync {
                    return ChecksumOutcome::StillDesynced;
                }
                self.in_desync = true;
                return ChecksumOutcome::NewDesync;
            }
            i = i + 1;
        }
        proof {
            assert(self.local@.skip(n as int) =~= Seq::<ChecksumRecord>::empty());
        }
        ChecksumOutcome::Unknown
    }
}

/// Exactly one fault per contiguous mismatched run: a report that raises
/// `NewDesync` leaves a run open, and while it stays open every further
/// mismatched report is classified `StillDesynced` — never a second
/// `NewDesync` — until some frame matches again and closes the run.
pub proof fn lemma_one_fault_per_run(d: DesyncDetector, f1: u32, v1: u64, f2: u32, v2: u64)
    requires
        d.spec_outcome(f1, v1) == ChecksumOutcome::NewDesync,
    ensures
        d.spec_in_desync_after(f1, v1),
        ({
            let d2 = DesyncDetector { in_desync: d.spec_in_desync_after(f1, v1), ..d };
            d2.spec_outcome(f2, v2) != ChecksumOutcome::NewDesync
        }),
{
}

/// A matching report closes the run and re-arms the detector: a mismatch
/// that follows a match raises a fresh fault rather than being folded into
/// the closed run.
pub proof fn lemma_match_rearms(d: DesyncDetector, f1: u32, v1: u64, f2: u32, v2: u64)
    requires
        d.spec_outcome(f1, v1) == ChecksumOutcome::Match,
        ({
            let d2 = DesyncDetector { in_desync: d.spec_in_desync_after(f1, v1), ..d };
            d2.spec_outcome(f2, v2) != ChecksumOutcome::Match && d2.spec_outcome(f2, v2)
                != ChecksumOutcome::Unknown
        }),
    ensures
        ({
            let d2 = DesyncDetector { in_desync: d.spec_in_desync_after(f1, v1), ..d };
            d2.spec_outcome(f2, v2) == ChecksumOutcome::NewDesync
        }),
{
}

} // verus!
