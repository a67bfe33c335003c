//! Connecting to a generator, with bounded retries and exponential backoff.
use vstd::prelude::*;
use vstd::arithmetic::power2::pow2;

verus! {

/// Attempts after the first one before giving up.
pub const MAX_RETRIES: u32 = 5;
/// The delay before the first retry.
pub const BASE_DELAY_MS: u64 = 100;
/// The longest delay between attempts.
pub const MAX_DELAY_MS: u64 = 5000;
/// How long one connection attempt may take.
pub const CONNECT_TIMEOUT_SECS: u64 = 5;

/// Why one connection attempt failed.
#[derive(Debug, Clone, PartialEq, Eq)]
pub enum ConnectAttemptError {
    /// The attempt took longer than the connect timeout.
    TimedOut,
    /// The connection was refused or failed; the system's message.
    Failed { message: String },
}

/// Connecting failed for good.
#[derive(Debug, Clone, PartialEq, Eq)]
pub enum ConnectError {
    /// The last of `attempt` attempts to connect to `addr` failed.
    Failed { addr: String, attempt: u32, source: ConnectAttemptError },
}

/// What to do after a failed attempt.
#[derive(Debug, Clone, PartialEq, Eq)]
pub enum RetryDecision {
    /// Wait `delay_ms` milliseconds, then try again.
    Retry { delay_ms: u64 },
    /// Stop and report the error.
    GiveUp(ConnectError),
}

/// The delay before retrying after failed attempt `attempt` (from zero):
/// the base delay doubled per attempt, at most the longest delay.
pub open spec fn backoff_ms(attempt: nat) -> int {
    let d = BASE_DELAY_MS * pow2(attempt);
    if d < MAX_DELAY_MS { d } else { MAX_DELAY_MS as int }
}

/// The retry delay starts at the base delay and doubles from one failed
/// attempt to the next until it reaches the longest delay: the delay after
/// attempt `k + 1` is twice the delay after attempt `k`, at most
/// `MAX_DELAY_MS`, for every attempt that is still retried.
pub proof fn lemma_backoff_doubles(k: nat)
    ensures
        backoff_ms(0) == BASE_DELAY_MS,
        k + 1 < MAX_RETRIES ==> backoff_ms(k + 1) == (if 2 * backoff_ms(k) < MAX_DELAY_MS { 2 * backoff_ms(k) } else { MAX_DELAY_MS as int }),
        BASE_DELAY_MS <= backoff_ms(k) <= MAX_DELAY_MS,
{
    vstd::arithmetic::power2::lemma2_to64();
    vstd::arithmetic::power2::lemma_pow2_unfold(k + 1);
    vstd::arithmetic::power2::lemma_pow2_pos(k);
    assert(BASE_DELAY_MS * pow2(k + 1) == 2 * (BASE_DELAY_MS * pow2(k))) by (nonlinear_arith)
        requires pow2(k + 1) == 2 * pow2(k);
    assert(BASE_DELAY_MS * pow2(k) >= BASE_DELAY_MS) by (nonlinear_arith)
        requires pow2(k) > 0;
}

/// A generator that is not connected yet.
#[derive(Debug, Clone, PartialEq, Eq)]
pub struct ConnectHandle {
    addr: String,
}

impl ConnectHandle {
    pub closed spec fn spec_addr(self) -> Seq<char> {
        self.addr@
    }

    pub fn new(addr: String) -> (h: Self)
        ensures
            h.spec_addr() == addr@,
    {
        ConnectHandle { addr }
    }

    /// The generator's address.
    pub fn addr(&self) -> (a: &str)
        ensures
            a@ == self.spec_addr(),
    {
        self.addr.as_str()
    }

    /// What to do after attempt `attempt` (counted from zero) failed with
    /// `source`: retry after the backoff delay while retries are left,
    /// otherwise give up, reporting the number of attempts made.
    pub fn after_failed_attempt(&self, attempt: u32, source: ConnectAttemptError) -> (d: RetryDecision)
        requires
            attempt <= MAX_RETRIES,
        ensures
            attempt == MAX_RETRIES ==> (d matches RetryDecision::GiveUp(ConnectError::Failed { addr, attempt: a, source: s })
                && addr@ == self.spec_addr() && a == attempt + 1 && s == source),
            attempt < MAX_RETRIES ==> d == (RetryDecision::Retry { delay_ms: backoff_ms(attempt as nat) as u64 }),
    {
        if attempt == MAX_RETRIES {
            return RetryDecision::GiveUp(ConnectError::Failed {
                addr: self.addr.clone(),
                attempt: attempt + 1,
                source,
            });
        }
        let mut factor: u64 = 1;
        let mut k: u32 = 0;
        proof {
            vstd::arithmetic::power2::lemma2_to64();
        }
        while k < attempt
            invariant
                k <= attempt,
                attempt < MAX_RETRIES,
                factor == pow2(k as nat),
            decreases attempt - k,
        {
            proof {
                vstd::arithmetic::power2::lemma_pow2_unfold((k + 1) as nat);
                vstd::arithmetic::power2::lemma2_to64();
            }
            factor = factor * 2;
            k = k + 1;
        }
        proof {
            vstd::arithmetic::power2::lemma2_to64();
            assert(factor <= 16);
        }
        let delay = BASE_DELAY_MS * factor;
        let delay_ms = if delay < MAX_DELAY_MS { delay } else { MAX_DELAY_MS };
        RetryDecision::Retry { delay_ms }
    }
}

} // verus!
