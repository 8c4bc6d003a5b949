//! The discipline of every call over the network: how long one attempt may
//! take, and whether a failed attempt is followed by another.

use vstd::prelude::*;

verus! {

/// How many times a failed call is tried again.
#[derive(Clone, Copy, Debug, PartialEq, Eq, Structural)]
pub enum Budget {
    /// As often as it takes: the call is never given up.
    Unbounded,
    /// At most this many times after the first attempt.
    Retries(u32),
}

/// How a call is retried: the backoff between attempts, the budget of
/// retries and the time that one attempt may take.
#[derive(Clone, Copy, Debug, PartialEq, Eq, Structural)]
pub struct RetryPolicy {
    /// Seconds before the first retry.
    pub base_delay_secs: u64,
    /// Factor by which the delay grows from one retry to the next.
    pub multiplier: u32,
    /// Seconds that no delay exceeds.
    pub cap_secs: u64,
    /// How often the call is retried.
    pub budget: Budget,
    /// Seconds after which one attempt is given up.
    pub timeout_secs: u64,
}

/// How one attempt ended.
#[derive(Clone, Copy, Debug, PartialEq, Eq, Structural)]
pub enum Outcome {
    /// The attempt got its answer.
    Success,
    /// The attempt failed in a way that may pass: a timeout, a broken
    /// connection, an error on the server's side.
    TransientFailure,
    /// The attempt failed in a way that another attempt would not mend.
    FatalFailure,
}

/// What follows an attempt.
#[derive(Clone, Copy, Debug, PartialEq, Eq, Structural)]
pub enum Verdict {
    /// The call returns the answer.
    Return,
    /// The call is attempted again.
    Retry,
    /// The call returns the failure.
    GiveUp,
}

impl RetryPolicy {
    /// The policy of the calls that must get through: polling the status of
    /// the source and of the destination, starting and stopping the
    /// destination room.
    pub fn unbounded() -> (policy: RetryPolicy)
        ensures
            policy == (RetryPolicy {
                base_delay_secs: 1,
                multiplier: 3,
                cap_secs: 1800,
                budget: Budget::Unbounded,
                timeout_secs: 30,
            }),
    {
        RetryPolicy {
            base_delay_secs: 1,
            multiplier: 3,
            cap_secs: 1800,
            budget: Budget::Unbounded,
            timeout_secs: 30,
        }
    }

    /// The policy of a call that is made once and not again: looking up the
    /// room of a preview source, which the next tick repeats anyway.
    pub fn single_attempt() -> (policy: RetryPolicy)
        ensures
            policy == (RetryPolicy {
                base_delay_secs: 1,
                multiplier: 3,
                cap_secs: 1800,
                budget: Budget::Retries(0),
                timeout_secs: 30,
            }),
    {
        RetryPolicy {
            base_delay_secs: 1,
            multiplier: 3,
            cap_secs: 1800,
            budget: Budget::Retries(0),
            timeout_secs: 30,
        }
    }

    /// Whether, after `attempts` attempts that all failed, the budget allows
    /// another.
    pub open spec fn allows_retry(self, attempts: nat) -> bool {
        match self.budget {
            Budget::Unbounded => true,
            Budget::Retries(retries) => attempts <= retries,
        }
    }

    /// What follows the attempt that made the count `attempts`: a success
    /// returns, a failure that may pass is retried while the budget allows
    /// it, and any other failure is given up.
    pub open spec fn verdict(self, attempts: nat, outcome: Outcome) -> Verdict {
        match outcome {
            Outcome::Success => Verdict::Return,
            Outcome::TransientFailure => if self.allows_retry(attempts) {
                Verdict::Retry
            } else {
                Verdict::GiveUp
            },
            Outcome::FatalFailure => Verdict::GiveUp,
        }
    }

    /// Whether, after `attempts` attempts that all failed, the budget allows
    /// another.
    pub fn may_retry(&self, attempts: u64) -> (allowed: bool)
        ensures
            allowed == self.allows_retry(attempts as nat),
    {
        match self.budget {
            Budget::Unbounded => true,
            Budget::Retries(retries) => attempts <= retries as u64,
        }
    }

    /// The most retries that the budget allows, where a number is wanted: an
    /// unbounded budget gives the largest.
    pub fn max_retries(&self) -> (retries: u32)
        ensures
            retries == match self.budget {
                Budget::Unbounded => u32::MAX,
                Budget::Retries(retries) => retries,
            },
    {
        match self.budget {
            Budget::Unbounded => u32::MAX,
            Budget::Retries(retries) => retries,
        }
    }
}

/// One call in progress: its policy and the attempts made so far.
#[derive(Clone, Copy, Debug, PartialEq, Eq, Structural)]
pub struct Call {
    pub policy: RetryPolicy,
    pub attempts: u64,
}

impl Call {
    /// A call of which no attempt was made yet.
    pub fn begin(policy: RetryPolicy) -> (call: Call)
        ensures
            call == (Call { policy, attempts: 0 }),
    {
        Call { policy, attempts: 0 }
    }

    /// Counts an attempt and says what follows it.
    pub fn record(&mut self, outcome: Outcome) -> (verdict: Verdict)
        requires
            old(self).attempts < u64::MAX,
        ensures
            final(self).policy == old(self).policy,
            final(self).attempts == old(self).attempts + 1,
            verdict == old(self).policy.verdict((old(self).attempts + 1) as nat, outcome),
    {
        self.attempts = self.attempts + 1;
        match outcome {
            Outcome::Success => Verdict::Return,
            Outcome::TransientFailure => if self.policy.may_retry(self.attempts) {
                Verdict::Retry
            } else {
                Verdict::GiveUp
            },
            Outcome::FatalFailure => Verdict::GiveUp,
        }
    }
}

/// How a call ends whose attempts end as `outcomes` say, in order, after
/// `made` attempts were made already: the verdict that ends it and the
/// attempts made by then. Outcomes after the one that ends the call are not
/// looked at. Where the outcomes run out first, the verdict is `Retry`.
pub open spec fn conclusion(policy: RetryPolicy, made: nat, outcomes: Seq<Outcome>) -> (Verdict, nat)
    decreases outcomes.len(),
{
    if outcomes.len() == 0 {
        (Verdict::Retry, made)
    } else {
        let verdict = policy.verdict(made + 1, outcomes[0]);
        if verdict == Verdict::Retry {
            conclusion(policy, made + 1, outcomes.skip(1))
        } else {
            (verdict, made + 1)
        }
    }
}

/// `failures` failed attempts and then a success.
pub open spec fn fails_then_succeeds(failures: nat) -> Seq<Outcome> {
    Seq::new(failures, |i: int| Outcome::TransientFailure).push(Outcome::Success)
}

/// A call whose budget allows `failures` retries, and that fails `failures`
/// times before it succeeds, returns the success, after `failures + 1`
/// attempts. An unbounded budget allows any number.
pub proof fn lemma_retry_until_success(policy: RetryPolicy, made: nat, failures: nat)
    requires
        policy.budget matches Budget::Retries(retries) ==> made + failures <= retries,
    ensures
        conclusion(policy, made, fails_then_succeeds(failures)) == (
            Verdict::Return,
            made + failures + 1,
        ),
    decreases failures,
{
    let outcomes = fails_then_succeeds(failures);
    if failures == 0 {
        assert(outcomes[0] == Outcome::Success);
    } else {
        assert(outcomes[0] == Outcome::TransientFailure);
        assert(outcomes.skip(1) =~= fails_then_succeeds((failures - 1) as nat));
        lemma_retry_until_success(policy, made + 1, (failures - 1) as nat);
    }
}

/// Under the unbounded policy, a call that fails any number of times and
/// then succeeds returns the success, and has made one attempt more than it
/// failed.
pub proof fn lemma_unbounded_call_terminates(policy: RetryPolicy, failures: nat)
    requires
        policy.budget == Budget::Unbounded,
    ensures
        conclusion(policy, 0, fails_then_succeeds(failures)) == (Verdict::Return, failures + 1),
{
    lemma_retry_until_success(policy, 0, failures);
}

/// A call that is made once gives up at its first failure.
pub proof fn lemma_single_attempt_gives_up(policy: RetryPolicy, outcomes: Seq<Outcome>)
    requires
        policy.budget == Budget::Retries(0),
        outcomes.len() > 0,
        outcomes[0] == Outcome::TransientFailure,
    ensures
        conclusion(policy, 0, outcomes) == (Verdict::GiveUp, 1nat),
{
}

} // verus!
