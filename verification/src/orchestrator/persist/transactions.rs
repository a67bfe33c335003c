//! The per-transaction CSV file.
use vstd::prelude::*;
use crate::load::NANOS_PER_MILLI;
use crate::text::{debug_str, decimal, push_char, push_decimal, push_str, str_debug, u64_to_decimal};
use crate::tracker::IntervalReport;
use crate::transaction::{DroppedCode, FailedCode, TimeoutCode, TransactionResult};
use super::csv::{csv_row, join_fields, render_row};
use super::PersistError;

verus! {

pub const FILE_NAME: &'static str = "transactions.csv";

/// The error of writing the transactions file, with the write error's
/// message.
pub fn io_err(message: String) -> (e: PersistError)
    ensures
        e.name@ == FILE_NAME@,
        e.message == message,
{
    PersistError { name: FILE_NAME, message }
}
pub const HEADER: &'static str = "target_time,start_time,load_generator_id,virtual_user_id,spec_id,response_time_ms,service_time_ms,outcome,reason";

/// The columns of the transactions file, in the order of `HEADER`.
pub open spec fn transaction_columns() -> Seq<Seq<char>> {
    seq![
        "target_time"@,
        "start_time"@,
        "load_generator_id"@,
        "virtual_user_id"@,
        "spec_id"@,
        "response_time_ms"@,
        "service_time_ms"@,
        "outcome"@,
        "reason"@,
    ]
}

/// The header names the columns of the transactions file in order: the
/// response time in milliseconds is the sixth column (index 5) and the
/// service time in milliseconds the seventh (index 6).
pub proof fn lemma_header_columns()
    ensures
        HEADER@ == join_fields(transaction_columns()),
        transaction_columns().len() == 9,
        transaction_columns()[5] == "response_time_ms"@,
        transaction_columns()[6] == "service_time_ms"@,
{
    reveal_strlit("target_time,start_time,load_generator_id,virtual_user_id,spec_id,response_time_ms,service_time_ms,outcome,reason");
    reveal_strlit("target_time");
    reveal_strlit("start_time");
    reveal_strlit("load_generator_id");
    reveal_strlit("virtual_user_id");
    reveal_strlit("spec_id");
    reveal_strlit("response_time_ms");
    reveal_strlit("service_time_ms");
    reveal_strlit("outcome");
    reveal_strlit("reason");
    let c = transaction_columns();
    assert(c.take(1) =~= seq!["target_time"@]);
    assert(c.take(2).drop_last() =~= c.take(1));
    assert(c.take(3).drop_last() =~= c.take(2));
    assert(c.take(4).drop_last() =~= c.take(3));
    assert(c.take(5).drop_last() =~= c.take(4));
    assert(c.take(6).drop_last() =~= c.take(5));
    assert(c.take(7).drop_last() =~= c.take(6));
    assert(c.take(8).drop_last() =~= c.take(7));
    assert(c.take(9).drop_last() =~= c.take(8));
    assert(c.take(9) =~= c);
    assert(join_fields(c.take(1)) =~= c[0]);
    assert(join_fields(c.take(2)) =~= join_fields(c.take(1)).push(',') + c[1]);
    assert(join_fields(c.take(3)) =~= join_fields(c.take(2)).push(',') + c[2]);
    assert(join_fields(c.take(4)) =~= join_fields(c.take(3)).push(',') + c[3]);
    assert(join_fields(c.take(5)) =~= join_fields(c.take(4)).push(',') + c[4]);
    assert(join_fields(c.take(6)) =~= join_fields(c.take(5)).push(',') + c[5]);
    assert(join_fields(c.take(7)) =~= join_fields(c.take(6)).push(',') + c[6]);
    assert(join_fields(c.take(8)) =~= join_fields(c.take(7)).push(',') + c[7]);
    assert(join_fields(c.take(9)) =~= join_fields(c.take(8)).push(',') + c[8]);
    assert(join_fields(c) =~= HEADER@);
}

/// The `Debug` rendering of a failure code.
pub open spec fn failed_reason(code: FailedCode) -> Seq<char> {
    match code {
        FailedCode::Send(m) => "Send("@ + str_debug(m@) + ")"@,
        FailedCode::Extract(m) => "Extract("@ + str_debug(m@) + ")"@,
        FailedCode::Status(c) => "Status("@ + decimal(c as nat) + ")"@,
    }
}

/// The `Debug` rendering of a timeout code.
pub open spec fn timeout_reason(code: TimeoutCode) -> Seq<char> {
    match code {
        TimeoutCode::Error(m) => "Error("@ + str_debug(m@) + ")"@,
    }
}

/// The `Debug` rendering of a drop code.
pub open spec fn dropped_reason(code: DroppedCode) -> Seq<char> {
    match code {
        DroppedCode::WaitTimeTooLong(t) => "WaitTimeTooLong(ResponseTime { nanos: "@ + decimal(t.spec_nanos()) + " })"@,
        DroppedCode::Error(m) => "Error("@ + str_debug(m@) + ")"@,
    }
}

/// The fields of the row of `r`, before escaping: target and start time in
/// seconds (`target` and `start`, as the caller rendered them), generator
/// and virtual user, spec index, response and service time in
/// milliseconds, outcome and reason. A dropped transaction has no spec
/// index and no service time; a successful one has no reason.
pub open spec fn transaction_fields(r: TransactionResult, target: Seq<char>, start: Seq<char>) -> Seq<Seq<char>> {
    match r {
        TransactionResult::Success { metadata: m, response_time, service_time } => seq![
            target,
            start,
            decimal(m.loadgenerator_id.spec_get() as nat),
            decimal(m.virtual_user_id.spec_get() as nat),
            decimal(m.spec_id.spec_get() as nat),
            decimal(response_time.spec_nanos() / (NANOS_PER_MILLI as nat)),
            decimal(service_time.spec_nanos() / (NANOS_PER_MILLI as nat)),
            "success"@,
            Seq::<char>::empty(),
        ],
        TransactionResult::Failed { metadata: m, response_time, service_time, code } => seq![
            target,
            start,
            decimal(m.loadgenerator_id.spec_get() as nat),
            decimal(m.virtual_user_id.spec_get() as nat),
            decimal(m.spec_id.spec_get() as nat),
            decimal(response_time.spec_nanos() / (NANOS_PER_MILLI as nat)),
            decimal(service_time.spec_nanos() / (NANOS_PER_MILLI as nat)),
            "failed"@,
            failed_reason(code),
        ],
        TransactionResult::Timeout { metadata: m, response_time, service_time, code } => seq![
            target,
            start,
            decimal(m.loadgenerator_id.spec_get() as nat),
            decimal(m.virtual_user_id.spec_get() as nat),
            decimal(m.spec_id.spec_get() as nat),
            decimal(response_time.spec_nanos() / (NANOS_PER_MILLI as nat)),
            decimal(service_time.spec_nanos() / (NANOS_PER_MILLI as nat)),
            "timeout"@,
            timeout_reason(code),
        ],
        TransactionResult::Dropped { metadata: m, response_time, code } => seq![
            target,
            start,
            decimal(m.loadgenerator_id.spec_get() as nat),
            decimal(m.virtual_user_id.spec_get() as nat),
            Seq::<char>::empty(),
            decimal(response_time.spec_nanos() / (NANOS_PER_MILLI as nat)),
            Seq::<char>::empty(),
            "dropped"@,
            dropped_reason(code),
        ],
    }
}

fn wrapped(prefix: &str, inner: String) -> (s: String)
    ensures
        s@ == prefix@ + inner@ + ")"@,
{
    let mut s = String::new();
    push_str(&mut s, prefix);
    push_str(&mut s, inner.as_str());
    push_str(&mut s, ")");
    s
}

fn failed_reason_string(code: &FailedCode) -> (s: String)
    ensures
        s@ == failed_reason(*code),
{
    match code {
        FailedCode::Send(m) => wrapped("Send(", debug_str(m.as_str())),
        FailedCode::Extract(m) => wrapped("Extract(", debug_str(m.as_str())),
        FailedCode::Status(c) => wrapped("Status(", u64_to_decimal(*c as u64)),
    }
}

fn timeout_reason_string(code: &TimeoutCode) -> (s: String)
    ensures
        s@ == timeout_reason(*code),
{
    match code {
        TimeoutCode::Error(m) => wrapped("Error(", debug_str(m.as_str())),
    }
}

fn dropped_reason_string(code: &DroppedCode) -> (s: String)
    ensures
        s@ == dropped_reason(*code),
{
    match code {
        DroppedCode::WaitTimeTooLong(t) => {
            let mut s = String::new();
            push_str(&mut s, "WaitTimeTooLong(ResponseTime { nanos: ");
            push_decimal(&mut s, t.as_nanos());
            push_str(&mut s, " })");
            proof {
                assert(s@ =~= dropped_reason(*code));
            }
            s
        },
        DroppedCode::Error(m) => wrapped("Error(", debug_str(m.as_str())),
    }
}

/// Renders one row per transaction result and keeps the text still to be
/// written out; the header is queued on construction.
pub struct TransactionCsvPersister {
    pending: String,
}

/// The rows of `results`, each followed by a line break, with `times[i]`
/// the rendered target and start time of `results[i]`.
pub open spec fn result_rows(results: Seq<TransactionResult>, times: Seq<(Seq<char>, Seq<char>)>) -> Seq<char>
    decreases results.len(),
{
    if results.len() == 0 {
        seq![]
    } else {
        result_rows(results.drop_last(), times.drop_last())
            + csv_row(transaction_fields(results.last(), times.last().0, times.last().1)).push('\n')
    }
}

impl TransactionCsvPersister {
    /// The rendered text not yet taken.
    pub closed spec fn spec_pending(self) -> Seq<char> {
        self.pending@
    }

    /// A persister with the header line queued.
    pub fn new() -> (p: Self)
        ensures
            p.spec_pending() == HEADER@.push('\n'),
    {
        let mut pending = String::new();
        push_str(&mut pending, HEADER);
        push_char(&mut pending, '\n');
        TransactionCsvPersister { pending }
    }

    /// The CSV row of one transaction (without the line break). Its target
    /// and start time are floating-point numbers of seconds, which the
    /// library does not hold: `target` and `start` are their renderings
    /// (`Duration::as_secs_f64`, written with `to_string`).
    pub fn format_row(&self, result: &TransactionResult, target: &str, start: &str) -> (s: String)
        ensures
            s@ == csv_row(transaction_fields(*result, target@, start@)),
            exists|f: Seq<Seq<char>>| #![trigger csv_row(f)] {
                &&& s@ == csv_row(f)
                &&& f.len() == transaction_columns().len()
                &&& f[0] == target@
                &&& f[1] == start@
                &&& f[5] == decimal(result.spec_response_time().spec_nanos() / (NANOS_PER_MILLI as nat))
                &&& match result.spec_service_time() {
                    Some(st) => f[6] == decimal(st.spec_nanos() / (NANOS_PER_MILLI as nat)),
                    None => f[6] == Seq::<char>::empty(),
                }
            },
    {
        let (load_generator_id, virtual_user_id, response_time_ms) = match result {
            TransactionResult::Success { metadata, response_time, .. } => (
                metadata.loadgenerator_id.get(),
                metadata.virtual_user_id,
                response_time.as_millis(),
            ),
            TransactionResult::Failed { metadata, response_time, .. } => (
                metadata.loadgenerator_id.get(),
                metadata.virtual_user_id,
                response_time.as_millis(),
            ),
            TransactionResult::Timeout { metadata, response_time, .. } => (
                metadata.loadgenerator_id.get(),
                metadata.virtual_user_id,
                response_time.as_millis(),
            ),
            TransactionResult::Dropped { metadata, response_time, .. } => (
                metadata.loadgenerator_id.get(),
                metadata.virtual_user_id,
                response_time.as_millis(),
            ),
        };
        let (spec_id, service_time_ms, outcome, reason) = match result {
            TransactionResult::Success { metadata, service_time, .. } => (
                metadata.spec_id.to_string(),
                u64_to_decimal(service_time.as_millis()),
                "success",
                String::new(),
            ),
            TransactionResult::Failed { metadata, service_time, code, .. } => (
                metadata.spec_id.to_string(),
                u64_to_decimal(service_time.as_millis()),
                "failed",
                failed_reason_string(code),
            ),
            TransactionResult::Timeout { metadata, service_time, code, .. } => (
                metadata.spec_id.to_string(),
                u64_to_decimal(service_time.as_millis()),
                "timeout",
                timeout_reason_string(code),
            ),
            TransactionResult::Dropped { code, .. } => (
                String::new(),
                String::new(),
                "dropped",
                dropped_reason_string(code),
            ),
        };
        let mut outcome_text = String::new();
        push_str(&mut outcome_text, outcome);
        let mut fields: Vec<String> = Vec::new();
        fields.push(target.to_owned());
        fields.push(start.to_owned());
        fields.push(u64_to_decimal(load_generator_id as u64));
        fields.push(virtual_user_id.to_string());
        fields.push(spec_id);
        fields.push(u64_to_decimal(response_time_ms));
        fields.push(service_time_ms);
        fields.push(outcome_text);
        fields.push(reason);
        proof {
            assert(fields@.map_values(|f: String| f@) =~= transaction_fields(*result, target@, start@));
        }
        let row = render_row(&fields);
        proof {
            let f = fields@.map_values(|f: String| f@);
            assert(row@ == csv_row(f));
            assert(f.len() == transaction_columns().len());
        }
        row
    }

    /// Renders and queues the rows of every result of `report`, in order;
    /// `times[i]` holds the rendered target and start time of the `i`-th
    /// result.
    pub fn persist(&mut self, report: &IntervalReport, times: &Vec<(String, String)>)
        requires
            times.len() == report.stats.spec_results().len(),
        ensures
            final(self).spec_pending() == old(self).spec_pending()
                + result_rows(report.stats.spec_results(), times.deep_view()),
    {
        let results = report.stats.results();
        let ghost tv = times.deep_view();
        let mut i: usize = 0;
        proof {
            assert(results@.take(0) =~= Seq::<TransactionResult>::empty());
            assert(tv.take(0) =~= Seq::<(Seq<char>, Seq<char>)>::empty());
        }
        while i < results.len()
            invariant
                i <= results.len(),
                results@ == report.stats.spec_results(),
                tv == times.deep_view(),
                tv.len() == results.len(),
                self.pending@ == old(self).spec_pending() + result_rows(results@.take(i as int), tv.take(i as int)),
            decreases results.len() - i,
        {
            let row = self.format_row(&results[i], times[i].0.as_str(), times[i].1.as_str());
            push_str(&mut self.pending, row.as_str());
            push_char(&mut self.pending, '\n');
            proof {
                assert(results@.take(i + 1).drop_last() =~= results@.take(i as int));
                assert(tv.take(i + 1).drop_last() =~= tv.take(i as int));
                assert(tv.take(i + 1).last() == (times@[i as int].0@, times@[i as int].1@));
                assert(self.pending@ =~= old(self).spec_pending() + result_rows(results@.take(i + 1), tv.take(i + 1)));
            }
            i = i + 1;
        }
        proof {
            assert(results@.take(results.len() as int) =~= results@);
            assert(tv.take(tv.len() as int) =~= tv);
        }
    }

    /// Takes the queued text, leaving nothing queued.
    pub fn take_pending(&mut self) -> (s: String)
        ensures
            s@ == old(self).spec_pending(),
            final(self).spec_pending() == Seq::<char>::empty(),
    {
        let mut s = String::new();
        std::mem::swap(&mut s, &mut self.pending);
        s
    }

    /// The queued text.
    pub fn into_inner(self) -> (s: String)
        ensures
            s@ == self.spec_pending(),
    {
        self.pending
    }
}

} // verus!
