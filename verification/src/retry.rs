use vstd::prelude::*;

use core::marker::PhantomData;

verus! {

/// What to do with a failed request.
#[derive(Debug, PartialEq, Eq)]
pub enum RetryDecision<OutError> {
    /// Wait this many seconds, then send the request again.
    WaitRetry(u64),
    /// Give up and hand the error on.
    ForwardError(OutError),
}

/// Retries a failed request after a fixed pause until it has been attempted
/// `max_attempts` times, then hands the error on.
pub struct RetryErrorHandler<OutError> {
    max_attempts: usize,
    duration_secs: u64,
    current_attempt: usize,
    phantom: PhantomData<OutError>,
}

/// One decision of a retry handler: from `before`, handed the error `e`, the
/// handler counts one more attempt, becoming `after`, and decides `r`: it hands
/// `e` on once the count exceeds the maximum, and retries after the pause before.
pub open spec fn handle_transition<OutError>(
    before: RetryErrorHandler<OutError>,
    e: OutError,
    after: RetryErrorHandler<OutError>,
    r: RetryDecision<OutError>,
) -> bool {
    &&& after.spec_max_attempts() == before.spec_max_attempts()
    &&& after.spec_duration_secs() == before.spec_duration_secs()
    &&& after.spec_current_attempt() == before.spec_current_attempt() + 1
    &&& if after.spec_current_attempt() > after.spec_max_attempts() {
        r == RetryDecision::ForwardError(e)
    } else {
        r == RetryDecision::<OutError>::WaitRetry(after.spec_duration_secs())
    }
}

impl<OutError> RetryErrorHandler<OutError> {
    pub closed spec fn spec_max_attempts(&self) -> usize {
        self.max_attempts
    }

    pub closed spec fn spec_duration_secs(&self) -> u64 {
        self.duration_secs
    }

    /// How many times the request has been sent so far.
    pub closed spec fn spec_current_attempt(&self) -> usize {
        self.current_attempt
    }

    /// A handler for a request that has just been sent for the first time.
    pub fn new(max_attempts: usize, duration_secs: u64) -> (r: Self)
        ensures
            r.spec_max_attempts() == max_attempts,
            r.spec_duration_secs() == duration_secs,
            r.spec_current_attempt() == 1,
    {
        RetryErrorHandler { max_attempts, duration_secs, current_attempt: 1, phantom: PhantomData }
    }

    pub fn max_attempts(&self) -> (r: usize)
        ensures
            r == self.spec_max_attempts(),
    {
        self.max_attempts
    }

    pub fn duration_secs(&self) -> (r: u64)
        ensures
            r == self.spec_duration_secs(),
    {
        self.duration_secs
    }

    pub fn current_attempt(&self) -> (r: usize)
        ensures
            r == self.spec_current_attempt(),
    {
        self.current_attempt
    }

    /// Decides on the error of the latest attempt: the attempt count goes up by
    /// one, and the error is handed on once the count exceeds `max_attempts`;
    /// before that the request is retried after `duration_secs` seconds.
    pub fn handle(&mut self, e: OutError) -> (r: RetryDecision<OutError>)
        requires
            old(self).spec_current_attempt() < usize::MAX,
        ensures
            handle_transition(*old(self), e, *final(self), r),
    {
        self.current_attempt = self.current_attempt + 1;
        if self.current_attempt > self.max_attempts {
            RetryDecision::ForwardError(e)
        } else {
            RetryDecision::WaitRetry(self.duration_secs)
        }
    }
}

/// A handler made for `max_attempts` retries the first `max_attempts - 1`
/// errors it is handed, each after `duration_secs` seconds, and hands on every
/// later error: a request is sent at most `max_attempts` times (at least once).
pub proof fn lemma_retry_budget<OutError>(
    handlers: Seq<RetryErrorHandler<OutError>>,
    errors: Seq<OutError>,
    decisions: Seq<RetryDecision<OutError>>,
)
    requires
        handlers.len() == errors.len() + 1,
        decisions.len() == errors.len(),
        handlers[0].spec_current_attempt() == 1,
        forall|i: int|
            0 <= i < errors.len() ==> handle_transition(
                handlers[i],
                #[trigger] errors[i],
                handlers[i + 1],
                decisions[i],
            ),
    ensures
        forall|i: int|
            0 <= i < errors.len() ==> if i + 1 < handlers[0].spec_max_attempts() {
                #[trigger] decisions[i] == RetryDecision::<OutError>::WaitRetry(handlers[0].spec_duration_secs())
            } else {
                decisions[i] == RetryDecision::ForwardError(errors[i])
            },
{
    assert forall|i: int| 0 <= i <= errors.len() implies {
        &&& (#[trigger] handlers[i]).spec_current_attempt() == i + 1
        &&& handlers[i].spec_max_attempts() == handlers[0].spec_max_attempts()
        &&& handlers[i].spec_duration_secs() == handlers[0].spec_duration_secs()
    } by {
        lemma_retry_counts(handlers, errors, decisions, i);
    }
    assert forall|i: int| 0 <= i < errors.len() implies if i + 1 < handlers[0].spec_max_attempts() {
        #[trigger] decisions[i] == RetryDecision::<OutError>::WaitRetry(handlers[0].spec_duration_secs())
    } else {
        decisions[i] == RetryDecision::ForwardError(errors[i])
    } by {
        assert(handle_transition(handlers[i], errors[i], handlers[i + 1], decisions[i]));
        assert(handlers[i + 1].spec_current_attempt() == i + 2);
    }
}

proof fn lemma_retry_counts<OutError>(
    handlers: Seq<RetryErrorHandler<OutError>>,
    errors: Seq<OutError>,
    decisions: Seq<RetryDecision<OutError>>,
    n: int,
)
    requires
        handlers.len() == errors.len() + 1,
        decisions.len() == errors.len(),
        handlers[0].spec_current_attempt() == 1,
        forall|i: int|
            0 <= i < errors.len() ==> handle_transition(
                handlers[i],
                #[trigger] errors[i],
                handlers[i + 1],
                decisions[i],
            ),
        0 <= n <= errors.len(),
    ensures
        handlers[n].spec_current_attempt() == n + 1,
        handlers[n].spec_max_attempts() == handlers[0].spec_max_attempts(),
        handlers[n].spec_duration_secs() == handlers[0].spec_duration_secs(),
    decreases n,
{
    if n > 0 {
        lemma_retry_counts(handlers, errors, decisions, n - 1);
        assert(handle_transition(handlers[n - 1], errors[n - 1], handlers[n], decisions[n - 1]));
    }
}

/// How many times the exchange service sends a request to exmo (or asks for an
/// order's status) before it gives up with the last error.
pub const SERVICE_ATTEMPTS: usize = 3;

/// How long the exchange service pauses after a failed request, in milliseconds.
pub const SERVICE_PAUSE_MILLIS: u64 = 200;

/// What the exchange service does after a failed request (it has always paused
/// for `SERVICE_PAUSE_MILLIS` first).
#[derive(Debug, Clone, Copy, PartialEq, Eq, Structural)]
pub enum AttemptStep {
    /// Send the request again.
    Retry,
    /// Stop and report the error of the last request.
    GiveUp,
}

/// The count of failed requests in one of the exchange service's retry loops.
#[derive(Debug, Clone, Copy, PartialEq, Eq, Structural)]
pub struct Attempts {
    failed: usize,
}

/// One failure counted: from `before` the count goes up by one to `after`, and
/// the request is sent again exactly while fewer than `SERVICE_ATTEMPTS` failed.
pub open spec fn failure_transition(before: Attempts, after: Attempts, r: AttemptStep) -> bool {
    &&& after.spec_failed() == before.spec_failed() + 1
    &&& (r == AttemptStep::Retry <==> after.spec_failed() < SERVICE_ATTEMPTS)
}

impl Attempts {
    pub closed spec fn spec_failed(self) -> nat {
        self.failed as nat
    }

    /// No request has failed yet.
    pub fn new() -> (r: Attempts)
        ensures
            r.spec_failed() == 0,
    {
        Attempts { failed: 0 }
    }

    pub fn failed(&self) -> (r: usize)
        ensures
            r == self.spec_failed(),
    {
        self.failed
    }

    /// Counts a failed request and decides whether to send it again: a
    /// request is sent at most `SERVICE_ATTEMPTS` times.
    pub fn after_failure(&mut self) -> (r: AttemptStep)
        requires
            old(self).spec_failed() < SERVICE_ATTEMPTS,
        ensures
            failure_transition(*old(self), *final(self), r),
    {
        self.failed = self.failed + 1;
        if self.failed < SERVICE_ATTEMPTS {
            AttemptStep::Retry
        } else {
            AttemptStep::GiveUp
        }
    }
}

/// In the exchange service's retry loops, the first `SERVICE_ATTEMPTS - 1`
/// failures of a request lead to a retry and the next one to giving up: a
/// request is sent at most `SERVICE_ATTEMPTS` times.
pub proof fn lemma_service_attempts(counts: Seq<Attempts>, steps: Seq<AttemptStep>)
    requires
        counts.len() == steps.len() + 1,
        counts[0].spec_failed() == 0,
        forall|i: int| 0 <= i < steps.len() ==> failure_transition(counts[i], #[trigger] counts[i + 1], steps[i]),
    ensures
        forall|i: int| 0 <= i < steps.len() ==> (#[trigger] steps[i] == AttemptStep::Retry <==> i + 1 < SERVICE_ATTEMPTS),
{
    assert forall|i: int| 0 <= i <= steps.len() implies (#[trigger] counts[i]).spec_failed() == i by {
        lemma_attempt_counts(counts, steps, i);
    }
    assert forall|i: int| 0 <= i < steps.len() implies (#[trigger] steps[i] == AttemptStep::Retry <==> i + 1 < SERVICE_ATTEMPTS) by {
        assert(failure_transition(counts[i], counts[i + 1], steps[i]));
        assert(counts[i + 1].spec_failed() == i + 1);
    }
}

proof fn lemma_attempt_counts(counts: Seq<Attempts>, steps: Seq<AttemptStep>, n: int)
    requires
        counts.len() == steps.len() + 1,
        counts[0].spec_failed() == 0,
        forall|i: int| 0 <= i < steps.len() ==> failure_transition(counts[i], #[trigger] counts[i + 1], steps[i]),
        0 <= n <= steps.len(),
    ensures
        counts[n].spec_failed() == n,
    decreases n,
{
    if n > 0 {
        lemma_attempt_counts(counts, steps, n - 1);
        assert(failure_transition(counts[n - 1], counts[n], steps[n - 1]));
    }
}

} // verus!
