//! Bounded retries of a fallible operation, as a machine that is told each
//! attempt's outcome and answers with what to do next.

use crate::cooldown::ConfigurationError;
use vstd::prelude::*;

verus! {

/// How long to wait between two attempts, in milliseconds.
#[derive(Clone, Copy, Debug, PartialEq, Eq, Structural)]
pub enum Backoff {
    /// The same delay after every failure.
    Fixed { delay_ms: u64 },
    /// `base_ms` after the first failure, then twice the delay before, never above `cap_ms`.
    Exponential { base_ms: u64, cap_ms: u64 },
}

/// `base` doubled `doublings` times, held at `cap`.
pub open spec fn capped_doubling(base: nat, cap: nat, doublings: nat) -> nat
    decreases doublings,
{
    if doublings == 0 {
        if base < cap {
            base
        } else {
            cap
        }
    } else {
        let before = capped_doubling(base, cap, (doublings - 1) as nat);
        if 2 * before < cap {
            2 * before
        } else {
            cap
        }
    }
}

/// A delay that doubling leaves as it is stays for good.
proof fn lemma_doubling_rests(base: nat, cap: nat, from: nat, to: nat)
    requires
        from <= to,
        capped_doubling(base, cap, from) == 0 || capped_doubling(base, cap, from) == cap,
    ensures
        capped_doubling(base, cap, to) == capped_doubling(base, cap, from),
    decreases to - from,
{
    if from < to {
        lemma_doubling_rests(base, cap, from, (to - 1) as nat);
    }
}

impl Backoff {
    /// The delay after the `failures`-th failed attempt.
    pub open spec fn delay_after(self, failures: nat) -> nat {
        match self {
            Backoff::Fixed { delay_ms } => delay_ms as nat,
            Backoff::Exponential { base_ms, cap_ms } => capped_doubling(
                base_ms as nat,
                cap_ms as nat,
                if failures == 0 {
                    0
                } else {
                    (failures - 1) as nat
                },
            ),
        }
    }

    /// Computes the delay after the `failures`-th failed attempt.
    pub fn delay_ms(&self, failures: u32) -> (res: u64)
        ensures
            res == self.delay_after(failures as nat),
    {
        match *self {
            Backoff::Fixed { delay_ms } => delay_ms,
            Backoff::Exponential { base_ms, cap_ms } => {
                let doublings: u32 = if failures == 0 {
                    0
                } else {
                    failures - 1
                };
                let mut delay: u64 = if base_ms < cap_ms {
                    base_ms
                } else {
                    cap_ms
                };
                let mut done: u32 = 0;
                while done < doublings && 0 < delay && delay < cap_ms
                    invariant
                        done <= doublings,
                        delay == capped_doubling(base_ms as nat, cap_ms as nat, done as nat),
                    decreases doublings - done,
                {
                    delay = if delay < cap_ms - delay {
                        delay + delay
                    } else {
                        cap_ms
                    };
                    done += 1;
                }
                proof {
                    if done < doublings {
                        lemma_doubling_rests(
                            base_ms as nat,
                            cap_ms as nat,
                            done as nat,
                            doublings as nat,
                        );
                    }
                }
                delay
            },
        }
    }
}

/// How often an operation is attempted and how long is waited in between.
#[derive(Clone, Copy, Debug, PartialEq, Eq, Structural)]
pub struct RetryPolicy {
    pub max_attempts: u32,
    pub backoff: Backoff,
}

impl RetryPolicy {
    /// A policy allows at least one attempt.
    pub open spec fn valid(self) -> bool {
        self.max_attempts >= 1
    }

    /// Checks the attempt count once, when the settings are read.
    pub fn new(max_attempts: u32, backoff: Backoff) -> (res: Result<RetryPolicy, ConfigurationError>)
        ensures
            max_attempts == 0 ==> res == Err::<RetryPolicy, ConfigurationError>(
                ConfigurationError::NoAttemptAllowed,
            ),
            max_attempts >= 1 ==> res == Ok::<RetryPolicy, ConfigurationError>(
                RetryPolicy { max_attempts, backoff },
            ),
    {
        if max_attempts == 0 {
            Err(ConfigurationError::NoAttemptAllowed)
        } else {
            Ok(RetryPolicy { max_attempts, backoff })
        }
    }
}

/// How one attempt ended, as the operation itself classifies it.
#[derive(Debug)]
pub enum AttemptOutcome<T, E> {
    Success(T),
    /// A transport-level failure: worth another attempt.
    Retryable(E),
    /// A well-formed refusal: another attempt would end the same way.
    Terminal(E),
}

/// Why an operation was given up.
#[derive(Debug)]
pub enum RetryError<E> {
    /// Every allowed attempt failed; the last attempt's error.
    PersistentFailure(E),
    /// The remote side refused the request; not retried.
    RemoteRejection(E),
}

/// What to do after an attempt.
#[derive(Debug)]
pub enum RetryStep<T, E> {
    Done(T),
    /// Wait `delay_ms`, attempt again and report to `next`.
    RetryAfter { delay_ms: u64, next: RetryExecutor },
    GiveUp(RetryError<E>),
}

/// The state between attempts: the policy and the failures so far.
#[derive(Clone, Copy, Debug, PartialEq, Eq, Structural)]
pub struct RetryExecutor {
    pub policy: RetryPolicy,
    pub failures: u32,
}

impl RetryExecutor {
    /// One more attempt is allowed.
    pub open spec fn wf(self) -> bool {
        self.failures < self.policy.max_attempts
    }

    /// What follows an attempt's outcome: a success and a refusal end the
    /// run at once; a retryable failure ends it when it was the last
    /// allowed attempt, and otherwise asks for another after the delay.
    pub open spec fn step<T, E>(self, outcome: AttemptOutcome<T, E>) -> RetryStep<T, E> {
        match outcome {
            AttemptOutcome::Success(value) => RetryStep::Done(value),
            AttemptOutcome::Terminal(error) => RetryStep::GiveUp(RetryError::RemoteRejection(error)),
            AttemptOutcome::Retryable(error) => if self.failures + 1 >= self.policy.max_attempts {
                RetryStep::GiveUp(RetryError::PersistentFailure(error))
            } else {
                RetryStep::RetryAfter {
                    delay_ms: self.policy.backoff.delay_after((self.failures + 1) as nat) as u64,
                    next: RetryExecutor { policy: self.policy, failures: (self.failures + 1) as u32 },
                }
            },
        }
    }

    /// The executor before the first attempt.
    pub fn new(policy: RetryPolicy) -> (res: RetryExecutor)
        requires
            policy.valid(),
        ensures
            res == (RetryExecutor { policy, failures: 0 }),
            res.wf(),
    {
        RetryExecutor { policy, failures: 0 }
    }

    /// Takes the outcome of the attempt just made and says how to go on.
    pub fn on_outcome<T, E>(self, outcome: AttemptOutcome<T, E>) -> (res: RetryStep<T, E>)
        requires
            self.wf(),
        ensures
            res == self.step(outcome),
            res matches RetryStep::RetryAfter { next, .. } ==> next.wf(),
    {
        match outcome {
            AttemptOutcome::Success(value) => RetryStep::Done(value),
            AttemptOutcome::Terminal(error) => RetryStep::GiveUp(RetryError::RemoteRejection(error)),
            AttemptOutcome::Retryable(error) => {
                let failures: u32 = self.failures + 1;
                if failures >= self.policy.max_attempts {
                    RetryStep::GiveUp(RetryError::PersistentFailure(error))
                } else {
                    RetryStep::RetryAfter {
                        delay_ms: self.policy.backoff.delay_ms(failures),
                        next: RetryExecutor { policy: self.policy, failures },
                    }
                }
            },
        }
    }
}

/// Feeds the outcomes of successive attempts to an executor: the number of
/// attempts made, and the result once there is one.
pub open spec fn run<T, E>(executor: RetryExecutor, outcomes: Seq<AttemptOutcome<T, E>>) -> (
    nat,
    Option<Result<T, RetryError<E>>>,
)
    decreases outcomes.len(),
{
    if outcomes.len() == 0 {
        (0, None)
    } else {
        match executor.step(outcomes[0]) {
            RetryStep::Done(value) => (1, Some(Ok(value))),
            RetryStep::GiveUp(error) => (1, Some(Err(error))),
            RetryStep::RetryAfter { next, .. } => {
                let rest = run(next, outcomes.skip(1));
                (rest.0 + 1, rest.1)
            },
        }
    }
}

/// An operation that fails retryably every time is attempted until the
/// policy's count is reached, not once more, and is then given up with the
/// last attempt's error.
pub proof fn lemma_always_failing_exhausts<T, E>(
    executor: RetryExecutor,
    outcomes: Seq<AttemptOutcome<T, E>>,
)
    requires
        executor.wf(),
        forall|i: int| 0 <= i < outcomes.len() ==> outcomes[i] is Retryable,
        outcomes.len() >= executor.policy.max_attempts - executor.failures,
    ensures
        run(executor, outcomes).0 == executor.policy.max_attempts - executor.failures,
        run(executor, outcomes).1 == Some(
            Err::<T, RetryError<E>>(
                RetryError::PersistentFailure(
                    outcomes[executor.policy.max_attempts - executor.failures - 1]->Retryable_0,
                ),
            ),
        ),
    decreases outcomes.len(),
{
    if executor.failures + 1 < executor.policy.max_attempts {
        let next = RetryExecutor { policy: executor.policy, failures: (executor.failures + 1) as u32 };
        let rest = outcomes.skip(1);
        assert forall|i: int| 0 <= i < rest.len() implies rest[i] is Retryable by {
            assert(rest[i] == outcomes[i + 1]);
        }
        lemma_always_failing_exhausts(next, rest);
        assert(rest[next.policy.max_attempts - next.failures - 1] == outcomes[executor.policy.max_attempts
            - executor.failures - 1]);
    }
}

/// With at least two attempts allowed, a failure followed by a success ends
/// in that success after two attempts.
pub proof fn lemma_second_attempt_succeeds<T, E>(
    policy: RetryPolicy,
    outcomes: Seq<AttemptOutcome<T, E>>,
)
    requires
        policy.max_attempts >= 2,
        outcomes.len() >= 2,
        outcomes[0] is Retryable,
        outcomes[1] is Success,
    ensures
        run(RetryExecutor { policy, failures: 0 }, outcomes) == (
            2nat,
            Some(Ok::<T, RetryError<E>>(outcomes[1]->Success_0)),
        ),
{
    let next = RetryExecutor { policy, failures: 1 };
    let rest = outcomes.skip(1);
    assert(rest[0] == outcomes[1]);
    assert(run(next, rest) == (1nat, Some(Ok::<T, RetryError<E>>(outcomes[1]->Success_0))));
}

} // verus!
