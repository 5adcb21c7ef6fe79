//! The retry policy shared by every network-backed content source: bounded
//! exponential backoff against a deadline, retrying transient failures only.
use vstd::prelude::*;

verus! {

/// The first wait of a network source before it asks again, in milliseconds.
pub const INITIAL_BACKOFF_MS: u64 = 500;

/// How long a network source keeps asking, in milliseconds.
pub const TIMEOUT_MS: u64 = 120_000;

/// A failure that knows whether trying again may help.
pub trait Retryable {
    fn should_retry(&self) -> bool;
}

/// What a failed HTTP exchange reports about itself.
#[derive(Debug, Clone)]
pub struct TransportFailure {
    /// Connecting to the peer failed.
    pub connect: bool,
    /// The exchange timed out.
    pub timeout: bool,
    /// Building or sending the request failed.
    pub request: bool,
    /// The response body could not be decoded.
    pub decode: bool,
    /// The peer answered with an error status.
    pub status: Option<u16>,
    /// The URL of the exchange, where known.
    pub target: Option<String>,
}

impl TransportFailure {
    /// Whether the failure is transient: a failed connection or a timeout.
    pub open spec fn transient(&self) -> bool {
        self.connect || self.timeout
    }
}

impl Retryable for TransportFailure {
    fn should_retry(&self) -> (r: bool)
        ensures
            r == self.transient(),
    {
        self.connect || self.timeout
    }
}

/// The state of one retrying call: the next wait and the deadline, both in
/// milliseconds since the first attempt began.
#[derive(Debug, Clone, Copy, PartialEq, Eq, Structural)]
pub struct Backoff {
    pub backoff_ms: u64,
    pub deadline_ms: u64,
}

/// What to do after a failed attempt.
#[derive(Debug, Clone, Copy, PartialEq, Eq, Structural)]
pub enum RetryStep {
    /// Wait this long, then invoke the operation again.
    Retry { wait_ms: u64 },
    /// Hand the failure to the caller.
    Stop,
}

/// A wait twice as long, held at the largest value a `u64` takes.
pub open spec fn doubled(ms: u64) -> u64 {
    if 2 * ms > u64::MAX {
        u64::MAX
    } else {
        (2 * ms) as u64
    }
}

/// The decision after a failure observed at `elapsed_ms`, and the next state.
pub open spec fn step_spec(b: Backoff, retryable: bool, elapsed_ms: u64) -> (RetryStep, Backoff) {
    if !retryable || b.deadline_ms < elapsed_ms {
        (RetryStep::Stop, b)
    } else {
        (
            RetryStep::Retry { wait_ms: b.backoff_ms },
            Backoff { backoff_ms: doubled(b.backoff_ms), deadline_ms: b.deadline_ms },
        )
    }
}

impl Backoff {
    /// The state before the first attempt: wait `initial_backoff_ms` after the
    /// first transient failure, and give up once `timeout_ms` have passed.
    pub fn new(initial_backoff_ms: u64, timeout_ms: u64) -> (r: Backoff)
        ensures
            r.backoff_ms == initial_backoff_ms,
            r.deadline_ms == timeout_ms,
    {
        Backoff { backoff_ms: initial_backoff_ms, deadline_ms: timeout_ms }
    }

    /// Decides what follows a failed attempt that came back `elapsed_ms`
    /// after the first attempt began: a non-transient failure, or one past
    /// the deadline, stops; otherwise wait the current backoff and double it.
    pub fn after_failure(&mut self, retryable: bool, elapsed_ms: u64) -> (r: RetryStep)
        ensures
            (r, *final(self)) == step_spec(*old(self), retryable, elapsed_ms),
    {
        if !retryable || self.deadline_ms < elapsed_ms {
            RetryStep::Stop
        } else {
            let wait_ms = self.backoff_ms;
            self.backoff_ms = if self.backoff_ms > u64::MAX / 2 {
                u64::MAX
            } else {
                self.backoff_ms * 2
            };
            RetryStep::Retry { wait_ms }
        }
    }
}

/// How one invocation of the operation ended, and when.
pub ghost struct Attempt {
    /// The invocation succeeded.
    pub success: bool,
    /// A failure was transient.
    pub retryable: bool,
    /// When the invocation came back, in milliseconds since the first began.
    pub at_ms: u64,
}

/// How a retrying call ends.
pub ghost enum RetryEnd {
    Succeeded,
    Failed,
    /// The operation was still being retried when the attempts ran out.
    Pending,
}

/// The number of invocations that a retrying call makes, and how it ends,
/// when its invocations end as `attempts` says.
pub open spec fn retry_run(b: Backoff, attempts: Seq<Attempt>) -> (nat, RetryEnd)
    decreases attempts.len(),
{
    if attempts.len() == 0 {
        (0, RetryEnd::Pending)
    } else if attempts[0].success {
        (1, RetryEnd::Succeeded)
    } else {
        let (step, next) = step_spec(b, attempts[0].retryable, attempts[0].at_ms);
        match step {
            RetryStep::Stop => (1, RetryEnd::Failed),
            RetryStep::Retry { .. } => {
                let (n, end) = retry_run(next, attempts.drop_first());
                (n + 1, end)
            },
        }
    }
}

/// An operation that fails transiently `k` times, each time before the
/// deadline, and then succeeds, is invoked `k + 1` times and its success is
/// returned.
pub proof fn retry_until_success(b: Backoff, attempts: Seq<Attempt>, k: nat)
    requires
        attempts.len() > k,
        forall|i: int| 0 <= i < k ==> !(#[trigger] attempts[i]).success && attempts[i].retryable
            && attempts[i].at_ms <= b.deadline_ms,
        attempts[k as int].success,
    ensures
        retry_run(b, attempts) == (k + 1, RetryEnd::Succeeded),
    decreases k,
{
    if k > 0 {
        let next = step_spec(b, attempts[0].retryable, attempts[0].at_ms).1;
        assert(next.deadline_ms == b.deadline_ms);
        let rest = attempts.drop_first();
        assert forall|i: int| 0 <= i < k - 1 implies !(#[trigger] rest[i]).success
            && rest[i].retryable && rest[i].at_ms <= next.deadline_ms by {
            assert(rest[i] == attempts[i + 1]);
        }
        assert(rest[(k - 1) as int] == attempts[k as int]);
        retry_until_success(next, rest, (k - 1) as nat);
    }
}

/// An operation that only ever fails transiently is invoked again as long as
/// its failures come back by the deadline, and given up at the first failure
/// that comes back past it.
pub proof fn transient_failures_end_past_deadline(b: Backoff, attempts: Seq<Attempt>, i: nat)
    requires
        attempts.len() > i,
        forall|j: int| 0 <= j <= i ==> !(#[trigger] attempts[j]).success && attempts[j].retryable,
        forall|j: int| 0 <= j < i ==> (#[trigger] attempts[j]).at_ms <= b.deadline_ms,
        attempts[i as int].at_ms > b.deadline_ms,
    ensures
        retry_run(b, attempts) == (i + 1, RetryEnd::Failed),
    decreases i,
{
    if i > 0 {
        let next = step_spec(b, attempts[0].retryable, attempts[0].at_ms).1;
        let rest = attempts.drop_first();
        assert forall|j: int| 0 <= j <= i - 1 implies !(#[trigger] rest[j]).success
            && rest[j].retryable by {
            assert(rest[j] == attempts[j + 1]);
        }
        assert forall|j: int| 0 <= j < i - 1 implies (#[trigger] rest[j]).at_ms
            <= next.deadline_ms by {
            assert(rest[j] == attempts[j + 1]);
        }
        assert(rest[(i - 1) as int] == attempts[i as int]);
        transient_failures_end_past_deadline(next, rest, (i - 1) as nat);
    }
}

/// An operation whose first failure is not transient is invoked once, and
/// that failure is returned.
pub proof fn no_retry_of_final_failure(b: Backoff, attempts: Seq<Attempt>)
    requires
        attempts.len() > 0,
        !attempts[0].success,
        !attempts[0].retryable,
    ensures
        retry_run(b, attempts) == (1nat, RetryEnd::Failed),
{
}

/// An operation that always fails transiently, under a deadline shorter than
/// the first backoff, is invoked at most twice: the attempt after the first
/// wait already comes back past the deadline, and its failure is returned.
pub proof fn deadline_shorter_than_backoff(b: Backoff, attempts: Seq<Attempt>)
    requires
        attempts.len() >= 2,
        b.deadline_ms < b.backoff_ms,
        forall|i: int| 0 <= i < attempts.len() ==> !(#[trigger] attempts[i]).success
            && attempts[i].retryable,
        attempts[1].at_ms >= attempts[0].at_ms + b.backoff_ms,
    ensures
        retry_run(b, attempts).0 <= 2,
        retry_run(b, attempts).1 == RetryEnd::Failed,
{
    let rest = attempts.drop_first();
    assert(rest[0] == attempts[1]);
    if attempts[0].at_ms <= b.deadline_ms {
        let next = step_spec(b, true, attempts[0].at_ms).1;
        assert(next.deadline_ms < rest[0].at_ms);
        assert(retry_run(next, rest) == (1nat, RetryEnd::Failed));
    }
}

} // verus!
