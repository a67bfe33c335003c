//! The one-line progress summary printed per round.
use vstd::prelude::*;
use crate::text::{decimal, push_char, push_decimal, push_str};
use crate::tracker::IntervalReport;
use super::Phase;

verus! {

/// The whole seconds by which the target time of a round is shifted back
/// for display: the warmup and the pause for a warmup round, the pause for
/// a pause round, nothing for a load round.
pub open spec fn display_shift(phase: Phase, duration: u32, pause: u32) -> int {
    match phase {
        Phase::Warmup => duration + pause,
        Phase::Pause => pause as int,
        Phase::Load => 0,
    }
}

/// The progress line of a round whose shifted target time, in seconds with
/// one decimal, reads `target`.
pub open spec fn round_line(report: IntervalReport, target: Seq<char>) -> Seq<char> {
    let s = report.stats;
    "TARGET="@ + target
        + "s; LOAD="@ + decimal(report.load_level as nat)
        + "; #SUCC="@ + decimal(s.successful_transactions as nat)
        + "; #FAIL="@ + decimal(s.failed_transactions as nat)
        + "; #TO="@ + decimal(s.timeout_transactions as nat)
        + "; #DROP="@ + decimal(s.dropped_transactions as nat)
        + "; AVG ST="@ + decimal(s.spec_average() as nat)
        + "ms"@
}

/// `label` followed by the decimal of `value`.
pub open spec fn labeled(label: Seq<char>, value: nat) -> Seq<char> {
    label + decimal(value)
}

/// The progress line names each count after its label: it begins with
/// `TARGET=`, `target`, `s` and `; LOAD=` with the load level; somewhere
/// it holds `; #SUCC=` with the successful count followed by `; #FAIL=`
/// with the failed count, and `; #TO=` with the timeout count followed by
/// `; #DROP=` with the dropped count; and it ends with `; AVG ST=`, the
/// average service time in milliseconds and `ms`.
pub proof fn lemma_round_line_labels(report: IntervalReport, target: Seq<char>)
    ensures
        ({
            let l = round_line(report, target);
            let st = report.stats;
            let head = "TARGET="@ + target + labeled("s; LOAD="@, report.load_level as nat);
            let counts = labeled("; #SUCC="@, st.successful_transactions as nat) + labeled("; #FAIL="@, st.failed_transactions as nat);
            let lost = labeled("; #TO="@, st.timeout_transactions as nat) + labeled("; #DROP="@, st.dropped_transactions as nat);
            let tail = labeled("; AVG ST="@, st.spec_average() as nat) + "ms"@;
            &&& l.subrange(0, head.len() as int) == head
            &&& exists|p: int| 0 <= p && p + counts.len() <= l.len() && #[trigger] l.subrange(p, p + counts.len()) == counts
            &&& exists|p: int| 0 <= p && p + lost.len() <= l.len() && #[trigger] l.subrange(p, p + lost.len()) == lost
            &&& l.len() >= tail.len() && l.subrange(l.len() - tail.len(), l.len() as int) == tail
        }),
{
    let l = round_line(report, target);
    let st = report.stats;
    let head = "TARGET="@ + target + labeled("s; LOAD="@, report.load_level as nat);
    let counts = labeled("; #SUCC="@, st.successful_transactions as nat) + labeled("; #FAIL="@, st.failed_transactions as nat);
    let lost = labeled("; #TO="@, st.timeout_transactions as nat) + labeled("; #DROP="@, st.dropped_transactions as nat);
    let tail = labeled("; AVG ST="@, st.spec_average() as nat) + "ms"@;
    assert(l =~= head + counts + lost + tail);
    let p1 = head.len() as int;
    let p2 = (head.len() + counts.len()) as int;
    assert(l.subrange(0, p1) =~= head);
    assert(l.subrange(p1, p1 + counts.len()) =~= counts);
    assert(l.subrange(p2, p2 + lost.len()) =~= lost);
    assert(l.subrange(l.len() - tail.len(), l.len() as int) =~= tail);
}

/// Renders one progress line per round and keeps the text that is still to
/// be written out.
pub struct ConsolePersister {
    warmup_duration: u32,
    warmup_pause: u32,
    pending: String,
}

impl ConsolePersister {
    pub closed spec fn spec_duration(self) -> u32 {
        self.warmup_duration
    }

    pub closed spec fn spec_pause(self) -> u32 {
        self.warmup_pause
    }

    /// The rendered text not yet taken.
    pub closed spec fn spec_pending(self) -> Seq<char> {
        self.pending@
    }

    pub fn new(warmup_duration: u32, warmup_pause: u32) -> (p: Self)
        ensures
            p.spec_duration() == warmup_duration,
            p.spec_pause() == warmup_pause,
            p.spec_pending() == Seq::<char>::empty(),
    {
        ConsolePersister { warmup_duration, warmup_pause, pending: String::new() }
    }

    /// The whole seconds by which the target time of a round in `phase` is
    /// shifted back for display.
    pub fn target_shift_secs(&self, phase: Phase) -> (s: u64)
        ensures
            s == display_shift(phase, self.spec_duration(), self.spec_pause()),
    {
        match phase {
            Phase::Warmup => self.warmup_duration as u64 + self.warmup_pause as u64,
            Phase::Pause => self.warmup_pause as u64,
            Phase::Load => 0,
        }
    }

    /// The progress line of `report`. The shifted target time is a
    /// floating-point number of seconds, which the library does not hold:
    /// `target` is its rendering with one decimal (the target time in
    /// seconds less `target_shift_secs`, written with `{:.1}`).
    pub fn format_round(&self, report: &IntervalReport, target: &str) -> (s: String)
        ensures
            s@ == round_line(*report, target@),
    {
        let stats = &report.stats;
        let mut s = String::new();
        push_str(&mut s, "TARGET=");
        push_str(&mut s, target);
        push_str(&mut s, "s; LOAD=");
        push_decimal(&mut s, report.load_level as u64);
        push_str(&mut s, "; #SUCC=");
        push_decimal(&mut s, stats.successful_transactions);
        push_str(&mut s, "; #FAIL=");
        push_decimal(&mut s, stats.failed_transactions);
        push_str(&mut s, "; #TO=");
        push_decimal(&mut s, stats.timeout_transactions);
        push_str(&mut s, "; #DROP=");
        push_decimal(&mut s, stats.dropped_transactions);
        push_str(&mut s, "; AVG ST=");
        push_decimal(&mut s, stats.average_response_time());
        push_str(&mut s, "ms");
        proof {
            assert(s@ =~= round_line(*report, target@));
        }
        s
    }

    /// Renders the progress line of `report`, with `target` the rendered
    /// shifted target time, and queues it, with a line break, for writing.
    pub fn persist(&mut self, report: &IntervalReport, target: &str)
        ensures
            final(self).spec_pending() == old(self).spec_pending() + round_line(*report, target@).push('\n'),
            final(self).spec_duration() == old(self).spec_duration(),
            final(self).spec_pause() == old(self).spec_pause(),
    {
        let line = self.format_round(report, target);
        push_str(&mut self.pending, line.as_str());
        push_char(&mut self.pending, '\n');
    }

    /// Takes the queued text, leaving nothing queued.
    pub fn take_pending(&mut self) -> (s: String)
        ensures
            s@ == old(self).spec_pending(),
            final(self).spec_pending() == Seq::<char>::empty(),
            final(self).spec_duration() == old(self).spec_duration(),
            final(self).spec_pause() == old(self).spec_pause(),
    {
        let mut s = String::new();
        std::mem::swap(&mut s, &mut self.pending);
        s
    }

    /// The queued text.
    pub fn into_inner(self) -> (s: String)
        ensures
            s@ == self.spec_pending(),
    {
        self.pending
    }
}

} // verus!
