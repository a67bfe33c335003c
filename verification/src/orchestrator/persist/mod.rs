//! Persisting interval reports: classifying each round into its phase and
//! rendering the console line and the two CSV files.
use vstd::prelude::*;

pub mod console;
pub mod csv;
pub mod interval;
pub mod transactions;

pub use console::ConsolePersister;
pub use interval::IntervalCsvPersister;
pub use transactions::TransactionCsvPersister;

use crate::text::push_str;
use crate::tracker::IntervalReport;

verus! {

/// The phase of the load test a round belongs to.
#[derive(Debug, Clone, Copy, PartialEq, Eq, Structural)]
pub enum Phase {
    Warmup,
    Pause,
    Load,
}

/// The phase of round `n` (counted from zero) after a warmup of `duration`
/// rounds followed by a pause of `pause` rounds.
pub open spec fn phase_of(n: int, duration: int, pause: int) -> Phase {
    if n < duration {
        Phase::Warmup
    } else if n < duration + pause {
        Phase::Pause
    } else {
        Phase::Load
    }
}

/// Assigns each report, in arrival order, to its phase.
pub struct PhaseClassifier {
    warmup_duration: u32,
    warmup_pause: u32,
    count: u64,
}

impl PhaseClassifier {
    pub closed spec fn spec_duration(self) -> u32 {
        self.warmup_duration
    }

    pub closed spec fn spec_pause(self) -> u32 {
        self.warmup_pause
    }

    /// The number of rounds classified so far.
    pub closed spec fn spec_count(self) -> u64 {
        self.count
    }

    /// A classifier for a warmup of `warmup_duration` rounds followed by a
    /// pause of `warmup_pause` rounds.
    pub fn new(warmup_duration: u32, warmup_pause: u32) -> (c: Self)
        ensures
            c.spec_duration() == warmup_duration,
            c.spec_pause() == warmup_pause,
            c.spec_count() == 0,
    {
        PhaseClassifier {
            warmup_duration,
            warmup_pause,
            count: 0,
        }
    }

    /// How many rounds were classified so far.
    pub fn rounds(&self) -> (n: u64)
        ensures
            n == self.spec_count(),
    {
        self.count
    }

    /// The phase of the next round.
    pub fn classify(&mut self) -> (p: Phase)
        requires
            old(self).spec_count() < u64::MAX,
        ensures
            p == phase_of(old(self).spec_count() as int, old(self).spec_duration() as int, old(self).spec_pause() as int),
            final(self).spec_count() == old(self).spec_count() + 1,
            final(self).spec_duration() == old(self).spec_duration(),
            final(self).spec_pause() == old(self).spec_pause(),
    {
        let duration = self.warmup_duration as u64;
        let pause = self.warmup_pause as u64;
        let phase = if self.count < duration {
            Phase::Warmup
        } else if self.count < duration + pause {
            Phase::Pause
        } else {
            Phase::Load
        };
        self.count = self.count + 1;
        phase
    }
}

/// Rounds are classified in order: first all warmup rounds, then all pause
/// rounds, then load rounds only.
pub proof fn lemma_phases_are_ordered(n: int, m: int, duration: int, pause: int)
    requires
        0 <= n <= m,
        0 <= duration,
        0 <= pause,
    ensures
        phase_of(m, duration, pause) == Phase::Warmup ==> phase_of(n, duration, pause) == Phase::Warmup,
        phase_of(n, duration, pause) == Phase::Load ==> phase_of(m, duration, pause) == Phase::Load,
        phase_of(n, duration, pause) == Phase::Pause ==> phase_of(m, duration, pause) != Phase::Warmup,
{
}

/// A fresh classifier, called again and again, gives `duration` warmup
/// rounds, then `pause` pause rounds, then load rounds only: the `k`-th
/// call (from zero) gives `phase_of(k, duration, pause)`. `cs[k]` is the
/// classifier before the `k`-th call, which gave `phases[k]` and left
/// `cs[k + 1]`; each state is described by what `new` and `classify`
/// ensure. A classifier counts its calls in a `u64`, so at most
/// `u64::MAX` calls can be made.
pub proof fn lemma_classifier_sequence(cs: Seq<PhaseClassifier>, phases: Seq<Phase>)
    requires
        cs.len() == phases.len() + 1,
        cs[0].spec_count() == 0,
        forall|k: int| 0 <= k < phases.len() ==> {
            &&& #[trigger] phases[k] == phase_of(cs[k].spec_count() as int, cs[k].spec_duration() as int, cs[k].spec_pause() as int)
            &&& cs[k + 1].spec_count() == cs[k].spec_count() + 1
            &&& cs[k + 1].spec_duration() == cs[k].spec_duration()
            &&& cs[k + 1].spec_pause() == cs[k].spec_pause()
        },
    ensures
        forall|k: int| 0 <= k < phases.len() ==>
            #[trigger] phases[k] == phase_of(k, cs[0].spec_duration() as int, cs[0].spec_pause() as int),
    decreases phases.len(),
{
    if phases.len() > 0 {
        let n = phases.len() - 1;
        let c0 = cs.drop_last();
        let p0 = phases.drop_last();
        assert forall|k: int| 0 <= k < p0.len() implies {
            &&& #[trigger] p0[k] == phase_of(c0[k].spec_count() as int, c0[k].spec_duration() as int, c0[k].spec_pause() as int)
            &&& c0[k + 1].spec_count() == c0[k].spec_count() + 1
            &&& c0[k + 1].spec_duration() == c0[k].spec_duration()
            &&& c0[k + 1].spec_pause() == c0[k].spec_pause()
        } by {
            assert(phases[k] == p0[k]);
        }
        lemma_classifier_sequence(c0, p0);
        assert forall|k: int| 0 <= k <= n implies #[trigger] cs[k].spec_count() == k
            && cs[k].spec_duration() == cs[0].spec_duration() && cs[k].spec_pause() == cs[0].spec_pause() by {
            lemma_classifier_counts(cs, phases, k);
        }
        assert forall|k: int| 0 <= k < phases.len() implies
            #[trigger] phases[k] == phase_of(k, cs[0].spec_duration() as int, cs[0].spec_pause() as int) by {
            if k < n {
                assert(p0[k] == phases[k]);
            } else {
                assert(cs[k].spec_count() == k);
            }
        }
    }
}

proof fn lemma_classifier_counts(cs: Seq<PhaseClassifier>, phases: Seq<Phase>, k: int)
    requires
        cs.len() == phases.len() + 1,
        cs[0].spec_count() == 0,
        forall|k: int| 0 <= k < phases.len() ==> {
            &&& #[trigger] phases[k] == phase_of(cs[k].spec_count() as int, cs[k].spec_duration() as int, cs[k].spec_pause() as int)
            &&& cs[k + 1].spec_count() == cs[k].spec_count() + 1
            &&& cs[k + 1].spec_duration() == cs[k].spec_duration()
            &&& cs[k + 1].spec_pause() == cs[k].spec_pause()
        },
        0 <= k <= phases.len(),
    ensures
        cs[k].spec_count() == k,
        cs[k].spec_duration() == cs[0].spec_duration(),
        cs[k].spec_pause() == cs[0].spec_pause(),
    decreases k,
{
    if k > 0 {
        lemma_classifier_counts(cs, phases, k - 1);
        let j = k - 1;
        assert(0 <= j < phases.len());
        assert(phases[j] == phase_of(cs[j].spec_count() as int, cs[j].spec_duration() as int, cs[j].spec_pause() as int));
        assert(cs[j + 1].spec_count() == cs[j].spec_count() + 1);
        assert(cs[j + 1] == cs[k]);
    }
}

/// A persister could not write its output.
#[derive(Debug, Clone, PartialEq, Eq)]
pub struct PersistError {
    /// The persister's name.
    pub name: &'static str,
    /// The message of the write error.
    pub message: String,
}

/// The message of a persist error.
pub open spec fn persist_error_message(e: PersistError) -> Seq<char> {
    "persister `"@ + e.name@ + "` failed: "@ + e.message@
}

impl PersistError {
    /// The message of the error.
    pub fn describe(&self) -> (s: String)
        ensures
            s@ == persist_error_message(*self),
    {
        let mut s = String::new();
        push_str(&mut s, "persister `");
        push_str(&mut s, self.name);
        push_str(&mut s, "` failed: ");
        push_str(&mut s, self.message.as_str());
        s
    }
}

/// Something that records the interval reports of a load test, one round at
/// a time, each with its phase.
pub trait Persister {
    /// Records one round's report.
    fn persist(&mut self, report: &IntervalReport, phase: Phase) -> Result<(), PersistError>;

    /// Writes out whatever has been recorded.
    fn flush(&mut self) -> Result<(), PersistError>;
}

} // verus!
