use vstd::prelude::*;
use crate::line::{chars_of, line_progress, parse_progress, CARRIAGE_RETURN, LINE_FEED};
use crate::phase::{phase_label, rank};
use crate::progress::{JobProgress, Observation};

verus! {

/// A progress source that reads the diagnostic output of a fetch tool, which
/// redraws one terminal line in place with carriage returns.
pub struct TextProgressSource {
    /// Bytes of the line that has not been terminated yet.
    pub pending: Vec<u8>,
    pub progress: JobProgress,
}

/// A carriage return ends a line just as a line feed does.
pub open spec fn is_line_end(b: u8) -> bool {
    b == LINE_FEED || b == CARRIAGE_RETURN
}

/// The observation that a complete line yields in the given progress: the
/// line must report counts for the current phase's label, and the
/// observation must be one the progress accepts.
pub open spec fn line_observation(p: JobProgress, line: Seq<u8>) -> Option<Observation> {
    match phase_label(p.phase) {
        None => None,
        Some(l) => match line_progress(line, l) {
            None => None,
            Some(c) => {
                let o = Observation { phase: p.phase, received: c.0, total: c.1 };
                if p.accepts(o) {
                    Some(o)
                } else {
                    None
                }
            },
        },
    }
}

/// The pending line, the progress and the observations produced, in order,
/// after reading `bytes`.
pub open spec fn decode(pending: Seq<u8>, progress: JobProgress, bytes: Seq<u8>) -> (
    Seq<u8>,
    JobProgress,
    Seq<Observation>,
)
    decreases bytes.len(),
{
    if bytes.len() == 0 {
        (pending, progress, Seq::empty())
    } else {
        let before = decode(pending, progress, bytes.drop_last());
        let b = bytes.last();
        if is_line_end(b) {
            match line_observation(before.1, before.0) {
                Some(o) => (Seq::empty(), before.1.after(o), before.2.push(o)),
                None => (Seq::empty(), before.1, before.2),
            }
        } else {
            (before.0.push(b), before.1, before.2)
        }
    }
}

/// The number of line ends among `bytes`.
pub open spec fn line_ends(bytes: Seq<u8>) -> nat
    decreases bytes.len(),
{
    if bytes.len() == 0 {
        0
    } else {
        line_ends(bytes.drop_last()) + if is_line_end(bytes.last()) {
            1nat
        } else {
            0nat
        }
    }
}

/// No line is counted twice: reading output yields at most one observation
/// per line it completes, and the phase moves on at most once per
/// observation, so at most once per line.
pub proof fn lemma_one_observation_per_line(pending: Seq<u8>, progress: JobProgress, bytes: Seq<u8>)
    ensures
        decode(pending, progress, bytes).2.len() <= line_ends(bytes),
        rank(decode(pending, progress, bytes).1.phase) <= rank(progress.phase) + decode(
            pending,
            progress,
            bytes,
        ).2.len(),
    decreases bytes.len(),
{
    if bytes.len() > 0 {
        lemma_one_observation_per_line(pending, progress, bytes.drop_last());
    }
}

impl TextProgressSource {
    pub open spec fn wf(&self) -> bool {
        self.progress.wf()
    }

    /// A source for a fetch that has printed nothing yet.
    pub fn new() -> (r: TextProgressSource)
        ensures
            r.pending@ == Seq::<u8>::empty(),
            r.progress == JobProgress::new_spec(),
            r.wf(),
    {
        TextProgressSource { pending: Vec::new(), progress: JobProgress::new() }
    }

    fn line_observation(&self) -> (r: Option<Observation>)
        requires
            self.wf(),
        ensures
            r == line_observation(self.progress, self.pending@),
    {
        match self.progress.phase.label() {
            None => None,
            Some(l) => {
                let label = chars_of(l.as_str());
                match parse_progress(&self.pending, &label) {
                    None => None,
                    Some(c) => {
                        let o = Observation { phase: self.progress.phase, received: c.0, total: c.1 };
                        if self.progress.admits(&o) {
                            Some(o)
                        } else {
                            None
                        }
                    },
                }
            },
        }
    }

    /// Reads the next bytes of output; each line they complete is matched
    /// against the current phase's label. Returns the observations applied.
    pub fn feed(&mut self, bytes: &[u8]) -> (r: Vec<Observation>)
        requires
            old(self).wf(),
        ensures
            ({
                let d = decode(old(self).pending@, old(self).progress, bytes@);
                &&& final(self).pending@ == d.0
                &&& final(self).progress == d.1
                &&& r@ == d.2
            }),
            final(self).wf(),
    {
        let mut out: Vec<Observation> = Vec::new();
        let mut i: usize = 0;
        while i < bytes.len()
            invariant
                i <= bytes.len(),
                self.wf(),
                ({
                    let d = decode(old(self).pending@, old(self).progress, bytes@.take(i as int));
                    &&& self.pending@ == d.0
                    &&& self.progress == d.1
                    &&& out@ == d.2
                }),
            decreases bytes.len() - i,
        {
            let b = bytes[i];
            proof {
                assert(bytes@.take(i + 1).drop_last() == bytes@.take(i as int));
            }
            if b == LINE_FEED || b == CARRIAGE_RETURN {
                match self.line_observation() {
                    Some(o) => {
                        self.progress.apply(o);
                        out.push(o);
                    },
                    None => {},
                }
                self.pending.clear();
            } else {
                self.pending.push(b);
            }
            i = i + 1;
        }
        proof {
            assert(bytes@.take(bytes@.len() as int) == bytes@);
        }
        out
    }
}

} // verus!
