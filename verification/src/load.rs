//! Time quantities of a load test, held as whole nanoseconds.
//!
//! All durations are measured relative to a known origin: a relative load
//! test time counts from the start of the load test, while service and
//! response times are spans of a single transaction. Only the clock reads
//! (`LoadTestTime::now`, `StartTime::now`, `StartTime::elapsed`) depend on
//! the machine; everything else is plain arithmetic on nanoseconds.
use vstd::prelude::*;
use std::time::Instant;

verus! {

pub const NANOS_PER_SEC: u64 = 1_000_000_000;
pub const NANOS_PER_MILLI: u64 = 1_000_000;

#[verifier::external_type_specification]
#[verifier::external_body]
pub struct ExInstant(Instant);

/// Reads the monotonic clock (`std::time::Instant::now`). Nothing is stated
/// of the value: it depends on the time of the call.
#[verifier::external_body]
fn instant_now() -> Instant {
    Instant::now()
}

/// The whole nanoseconds from `earlier` to `later`, or zero when `later` is
/// not after `earlier` (`Instant::saturating_duration_since`). Nothing is
/// stated of the value: instants are readings of the machine's clock.
#[verifier::external_body]
fn nanos_between(later: &Instant, earlier: &Instant) -> u64 {
    later.saturating_duration_since(*earlier).as_nanos() as u64
}

/// A point in time relative to the start of the load test.
#[derive(Debug, Clone, Copy, PartialEq, Eq, PartialOrd, Ord, Hash, Structural)]
pub struct RelativeLoadTestTime {
    nanos: u64,
}

impl RelativeLoadTestTime {
    pub closed spec fn spec_nanos(self) -> nat {
        self.nanos as nat
    }

    /// The time `nanos` nanoseconds after the start of the load test.
    pub fn from_nanos(nanos: u64) -> (t: Self)
        ensures
            t.spec_nanos() == nanos,
    {
        RelativeLoadTestTime { nanos }
    }

    /// The time `ms` milliseconds after the start of the load test.
    pub fn from_millis(ms: u64) -> (t: Self)
        requires
            ms * NANOS_PER_MILLI <= u64::MAX,
        ensures
            t.spec_nanos() == ms * NANOS_PER_MILLI,
    {
        RelativeLoadTestTime { nanos: ms * NANOS_PER_MILLI }
    }

    /// The time `secs` seconds after the start of the load test.
    pub fn from_secs(secs: u64) -> (t: Self)
        requires
            secs * NANOS_PER_SEC <= u64::MAX,
        ensures
            t.spec_nanos() == secs * NANOS_PER_SEC,
    {
        RelativeLoadTestTime { nanos: secs * NANOS_PER_SEC }
    }

    pub fn as_nanos(&self) -> (n: u64)
        ensures
            n == self.spec_nanos(),
    {
        self.nanos
    }

    /// Whole milliseconds since the start of the load test.
    pub fn as_millis(&self) -> (n: u64)
        ensures
            n == self.spec_nanos() / (NANOS_PER_MILLI as nat),
    {
        self.nanos / NANOS_PER_MILLI
    }
}

/// How long a transaction waited for the server's response.
#[derive(Debug, Clone, Copy, PartialEq, Eq, PartialOrd, Ord, Hash, Structural)]
pub struct ServiceTime {
    nanos: u64,
}

impl ServiceTime {
    pub closed spec fn spec_nanos(self) -> nat {
        self.nanos as nat
    }

    pub fn from_nanos(nanos: u64) -> (t: Self)
        ensures
            t.spec_nanos() == nanos,
    {
        ServiceTime { nanos }
    }

    pub fn from_millis(ms: u64) -> (t: Self)
        requires
            ms * NANOS_PER_MILLI <= u64::MAX,
        ensures
            t.spec_nanos() == ms * NANOS_PER_MILLI,
    {
        ServiceTime { nanos: ms * NANOS_PER_MILLI }
    }

    pub fn as_nanos(&self) -> (n: u64)
        ensures
            n == self.spec_nanos(),
    {
        self.nanos
    }

    /// Whole milliseconds of the span.
    pub fn as_millis(&self) -> (n: u64)
        ensures
            n == self.spec_nanos() / (NANOS_PER_MILLI as nat),
    {
        self.nanos / NANOS_PER_MILLI
    }
}

/// End-to-end time of a transaction, from queueing to completion.
#[derive(Debug, Clone, Copy, PartialEq, Eq, PartialOrd, Ord, Hash, Structural)]
pub struct ResponseTime {
    nanos: u64,
}

impl ResponseTime {
    pub closed spec fn spec_nanos(self) -> nat {
        self.nanos as nat
    }

    pub fn from_nanos(nanos: u64) -> (t: Self)
        ensures
            t.spec_nanos() == nanos,
    {
        ResponseTime { nanos }
    }

    pub fn from_millis(ms: u64) -> (t: Self)
        requires
            ms * NANOS_PER_MILLI <= u64::MAX,
        ensures
            t.spec_nanos() == ms * NANOS_PER_MILLI,
    {
        ResponseTime { nanos: ms * NANOS_PER_MILLI }
    }

    pub fn as_nanos(&self) -> (n: u64)
        ensures
            n == self.spec_nanos(),
    {
        self.nanos
    }

    /// Whole milliseconds of the span.
    pub fn as_millis(&self) -> (n: u64)
        ensures
            n == self.spec_nanos() / (NANOS_PER_MILLI as nat),
    {
        self.nanos / NANOS_PER_MILLI
    }
}

/// The nanoseconds from `offset` to `reading`, both counted from the same
/// origin: their difference, or zero where `reading` is not past `offset`.
pub open spec fn span_after(reading: nat, offset: nat) -> nat {
    if reading >= offset { (reading - offset) as nat } else { 0 }
}

/// A transaction's response time never exceeds the time since the start of
/// the load test, and is exactly that time less the transaction's offset
/// when the reading is past the offset: a later reading gives a response
/// time at least as long, and a later start (a larger offset) one at most
/// as long.
pub proof fn lemma_span_after(reading: nat, offset: nat, later: nat, later_offset: nat)
    requires
        reading <= later,
        offset <= later_offset,
    ensures
        span_after(reading, offset) <= reading,
        span_after(reading, offset) + offset >= reading,
        reading >= offset ==> span_after(reading, offset) + offset == reading,
        span_after(reading, offset) <= span_after(later, offset),
        span_after(reading, later_offset) <= span_after(reading, offset),
{
}

/// The instant at which the load test started.
#[derive(Debug, Clone, Copy)]
pub struct LoadTestTime {
    origin: Instant,
}

impl LoadTestTime {
    /// Marks the present instant as the start of the load test.
    pub fn now() -> Self {
        LoadTestTime { origin: instant_now() }
    }
}

/// The instant at which a transaction was queued, kept together with the
/// start of the load test it belongs to.
#[derive(Debug, Clone, Copy)]
pub struct StartTime {
    origin: LoadTestTime,
    offset: RelativeLoadTestTime,
}

impl StartTime {
    pub closed spec fn spec_offset(self) -> RelativeLoadTestTime {
        self.offset
    }

    /// The start of the load test that the transaction belongs to.
    pub closed spec fn spec_origin(self) -> LoadTestTime {
        self.origin
    }

    /// Marks the present instant as the start of a transaction of the load
    /// test that started at `origin`; the offset from `origin` is read from
    /// the clock.
    pub fn now(origin: LoadTestTime) -> (t: Self)
        ensures
            t.spec_origin() == origin,
    {
        let now = instant_now();
        let offset = RelativeLoadTestTime::from_nanos(nanos_between(&now, &origin.origin));
        StartTime { origin, offset }
    }

    /// A start `offset` after a load test that starts now.
    pub fn from_relative(offset: RelativeLoadTestTime) -> (t: Self)
        ensures
            t.spec_offset() == offset,
    {
        StartTime { origin: LoadTestTime::now(), offset }
    }

    /// The start of the transaction relative to the start of the load test.
    pub fn relative_to_start(&self) -> (t: RelativeLoadTestTime)
        ensures
            t == self.spec_offset(),
    {
        self.offset
    }

    /// The time that passed since the transaction started: the clock's
    /// nanoseconds since the start of the load test, less the transaction's
    /// offset from that start, and zero where the reading is not past the
    /// offset. The reading itself depends on the time of the call, so it is
    /// stated to exist rather than named.
    pub fn elapsed(&self) -> (r: ResponseTime)
        ensures
            exists|since_origin: u64| #[trigger] span_after(since_origin as nat, self.spec_offset().spec_nanos()) == r.spec_nanos(),
    {
        let now = instant_now();
        let since_origin = nanos_between(&now, &self.origin.origin);
        let r = ResponseTime::from_nanos(since_origin.saturating_sub(self.offset.nanos));
        proof {
            assert(span_after(since_origin as nat, self.spec_offset().spec_nanos()) == r.spec_nanos());
        }
        r
    }
}

} // verus!
