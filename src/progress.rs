use vstd::prelude::*;
use crate::phase::{CloneState, next_phase, rank};

verus! {

/// One data point reported by a transport: the phase it is meant for, the
/// items received so far and the total (zero while the total is unknown).
#[derive(Clone, Copy, Debug, PartialEq, Eq, Structural)]
pub struct Observation {
    pub phase: CloneState,
    pub received: u64,
    pub total: u64,
}

impl Observation {
    /// An observation never reports more than a known total.
    pub open spec fn consistent(self) -> bool {
        self.total > 0 ==> self.received <= self.total
    }

    /// The observation closes its phase.
    pub open spec fn completes(self) -> bool {
        self.total > 0 && self.received == self.total
    }
}

/// The live state of one fetch: its phase and the latest counts of that phase.
#[derive(Clone, Copy, Debug, PartialEq, Eq, Structural)]
pub struct JobProgress {
    pub phase: CloneState,
    pub received: u64,
    pub total: u64,
}

impl JobProgress {
    pub open spec fn wf(self) -> bool {
        self.total > 0 ==> self.received <= self.total
    }

    /// Only a consistent observation for the current, unfinished phase is applied.
    pub open spec fn accepts(self, o: Observation) -> bool {
        &&& self.phase != CloneState::Finished
        &&& o.phase == self.phase
        &&& o.consistent()
    }

    /// The progress after an observation: an accepted one that completes
    /// its phase moves to the next phase with fresh counts, another accepted
    /// one is recorded, and anything else changes nothing.
    pub open spec fn after(self, o: Observation) -> JobProgress {
        if !self.accepts(o) {
            self
        } else if o.completes() {
            JobProgress { phase: next_phase(self.phase), received: 0, total: 0 }
        } else {
            JobProgress { phase: self.phase, received: o.received, total: o.total }
        }
    }

    pub open spec fn new_spec() -> JobProgress {
        JobProgress { phase: CloneState::ReceivingObjects, received: 0, total: 0 }
    }

    /// A fetch that has not reported anything yet.
    pub fn new() -> (r: JobProgress)
        ensures
            r == JobProgress::new_spec(),
            r.wf(),
    {
        JobProgress { phase: CloneState::new(), received: 0, total: 0 }
    }

    /// Whether `o` would be applied.
    pub fn admits(&self, o: &Observation) -> (r: bool)
        ensures
            r == self.accepts(*o),
    {
        self.phase != CloneState::Finished && o.phase == self.phase && (o.total == 0
            || o.received <= o.total)
    }

    /// Feeds one observation; returns whether it was applied.
    pub fn apply(&mut self, o: Observation) -> (accepted: bool)
        requires
            old(self).wf(),
        ensures
            accepted == old(self).accepts(o),
            *final(self) == old(self).after(o),
            final(self).wf(),
            rank(final(self).phase) >= rank(old(self).phase),
    {
        if !self.admits(&o) {
            false
        } else {
            if o.total > 0 && o.received == o.total {
                self.phase = self.phase.next();
                self.received = 0;
                self.total = 0;
            } else {
                self.received = o.received;
                self.total = o.total;
            }
            true
        }
    }

    /// Forwards counts from a transport that does not tell phases apart: they
    /// are taken as counts of the current phase. Returns the observation when
    /// it was applied.
    pub fn observe_transfer(&mut self, received: u64, total: u64) -> (r: Option<Observation>)
        requires
            old(self).wf(),
        ensures
            ({
                let o = Observation { phase: old(self).phase, received, total };
                &&& *final(self) == old(self).after(o)
                &&& r == if old(self).accepts(o) { Some(o) } else { None::<Observation> }
            }),
            final(self).wf(),
    {
        let o = Observation { phase: self.phase, received, total };
        if self.apply(o) {
            Some(o)
        } else {
            None
        }
    }
}

} // verus!
