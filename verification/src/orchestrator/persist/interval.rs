//! The per-interval CSV file.
use vstd::prelude::*;
use crate::text::{decimal, push_char, push_str, u64_to_decimal};
use crate::tracker::IntervalReport;
use super::csv::{csv_row, render_row};
use super::{Phase, PersistError};

verus! {

pub const FILE_NAME: &'static str = "interval.csv";

/// The error of writing the interval file, with the write error's message.
pub fn io_err(message: String) -> (e: PersistError)
    ensures
        e.name@ == FILE_NAME@,
        e.message == message,
{
    PersistError { name: FILE_NAME, message }
}
pub const HEADER: &'static str = "target_time,load_level,successful_transactions,failed_transactions,timeout_transactions,dropped_transactions,avg_service_time,final_batch_time,phase";

/// The name of a phase as written in the CSV file.
pub open spec fn phase_name(phase: Phase) -> Seq<char> {
    match phase {
        Phase::Warmup => "warmup"@,
        Phase::Pause => "pause"@,
        Phase::Load => "load"@,
    }
}

/// The fields of the row of `report` in `phase`, before escaping, with
/// `target` the rendered target time and `final_batch` the rendered final
/// batch time, which stands only where the report has one.
pub open spec fn interval_fields(report: IntervalReport, phase: Phase, target: Seq<char>, final_batch: Seq<char>) -> Seq<Seq<char>> {
    let s = report.stats;
    seq![
        target,
        decimal(report.load_level as nat),
        decimal(s.successful_transactions as nat),
        decimal(s.failed_transactions as nat),
        decimal(s.timeout_transactions as nat),
        decimal(s.dropped_transactions as nat),
        decimal(s.spec_average() as nat),
        match report.final_batch_time {
            Some(_) => final_batch,
            None => Seq::<char>::empty(),
        },
        phase_name(phase),
    ]
}

fn phase_string(phase: Phase) -> (s: String)
    ensures
        s@ == phase_name(phase),
{
    let mut s = String::new();
    match phase {
        Phase::Warmup => push_str(&mut s, "warmup"),
        Phase::Pause => push_str(&mut s, "pause"),
        Phase::Load => push_str(&mut s, "load"),
    }
    s
}

/// Renders one row per interval report and keeps the text still to be
/// written out; the header is queued on construction.
pub struct IntervalCsvPersister {
    pending: String,
}

impl IntervalCsvPersister {
    /// The rendered text not yet taken.
    pub closed spec fn spec_pending(self) -> Seq<char> {
        self.pending@
    }

    /// A persister with the header line queued.
    pub fn new() -> (p: Self)
        ensures
            p.spec_pending() == HEADER@.push('\n'),
    {
        let mut pending = String::new();
        push_str(&mut pending, HEADER);
        push_char(&mut pending, '\n');
        IntervalCsvPersister { pending }
    }

    /// The CSV row of `report` in `phase` (without the line break). Its
    /// target and final batch times are floating-point numbers of seconds,
    /// which the library does not hold: `target` and `final_batch` are their
    /// renderings (`Duration::as_secs_f64`, written with `to_string`);
    /// `final_batch` is used only where the report has a final batch time.
    pub fn format_row(&self, report: &IntervalReport, phase: Phase, target: &str, final_batch: &str) -> (s: String)
        ensures
            s@ == csv_row(interval_fields(*report, phase, target@, final_batch@)),
    {
        let stats = &report.stats;
        let final_batch_time = match report.final_batch_time {
            Some(_) => final_batch.to_owned(),
            None => String::new(),
        };
        let mut fields: Vec<String> = Vec::new();
        fields.push(target.to_owned());
        fields.push(u64_to_decimal(report.load_level as u64));
        fields.push(u64_to_decimal(stats.successful_transactions));
        fields.push(u64_to_decimal(stats.failed_transactions));
        fields.push(u64_to_decimal(stats.timeout_transactions));
        fields.push(u64_to_decimal(stats.dropped_transactions));
        fields.push(u64_to_decimal(stats.average_response_time()));
        fields.push(final_batch_time);
        fields.push(phase_string(phase));
        proof {
            assert(fields@.map_values(|f: String| f@) =~= interval_fields(*report, phase, target@, final_batch@));
        }
        render_row(&fields)
    }

    /// Renders the row of `report` and queues it, with a line break.
    pub fn persist(&mut self, report: &IntervalReport, phase: Phase, target: &str, final_batch: &str)
        ensures
            final(self).spec_pending() == old(self).spec_pending()
                + csv_row(interval_fields(*report, phase, target@, final_batch@)).push('\n'),
    {
        let row = self.format_row(report, phase, target, final_batch);
        push_str(&mut self.pending, row.as_str());
        push_char(&mut self.pending, '\n');
    }

    /// Takes the queued text, leaving nothing queued.
    pub fn take_pending(&mut self) -> (s: String)
        ensures
            s@ == old(self).spec_pending(),
            final(self).spec_pending() == Seq::<char>::empty(),
    {
        let mut s = String::new();
        std::mem::swap(&mut s, &mut self.pending);
        s
    }

    /// The queued text.
    pub fn into_inner(self) -> (s: String)
        ensures
            s@ == self.spec_pending(),
    {
        self.pending
    }
}

} // verus!
