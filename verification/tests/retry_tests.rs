use bilistream::retry::{Budget, Call, Outcome, RetryPolicy, Verdict};

fn attempts_until_done(policy: RetryPolicy, failures: u64) -> (Verdict, u64) {
    let mut call = Call::begin(policy);
    let mut failed = 0;
    loop {
        let outcome = if failed < failures { Outcome::TransientFailure } else { Outcome::Success };
        failed += 1;
        let verdict = call.record(outcome);
        if verdict != Verdict::Retry {
            return (verdict, call.attempts);
        }
    }
}

#[test]
fn the_two_policies() {
    let unbounded = RetryPolicy::unbounded();
    assert_eq!(unbounded.budget, Budget::Unbounded);
    assert_eq!(unbounded.timeout_secs, 30);
    assert_eq!(unbounded.base_delay_secs, 1);
    assert_eq!(unbounded.multiplier, 3);
    assert_eq!(unbounded.cap_secs, 1800);
    assert_eq!(unbounded.max_retries(), 4294967295);
    let single = RetryPolicy::single_attempt();
    assert_eq!(single.budget, Budget::Retries(0));
    assert_eq!(single.timeout_secs, 30);
    assert_eq!(single.max_retries(), 0);
}

#[test]
fn unbounded_call_returns_after_one_more_attempt_than_failures() {
    assert_eq!(attempts_until_done(RetryPolicy::unbounded(), 0), (Verdict::Return, 1));
    assert_eq!(attempts_until_done(RetryPolicy::unbounded(), 1), (Verdict::Return, 2));
    assert_eq!(attempts_until_done(RetryPolicy::unbounded(), 5), (Verdict::Return, 6));
    assert_eq!(attempts_until_done(RetryPolicy::unbounded(), 100000), (Verdict::Return, 100001));
}

#[test]
fn single_attempt_gives_up_at_the_first_failure() {
    assert_eq!(attempts_until_done(RetryPolicy::single_attempt(), 0), (Verdict::Return, 1));
    assert_eq!(attempts_until_done(RetryPolicy::single_attempt(), 1), (Verdict::GiveUp, 1));
    assert_eq!(attempts_until_done(RetryPolicy::single_attempt(), 9), (Verdict::GiveUp, 1));
}

#[test]
fn bounded_budget_allows_that_many_retries() {
    let mut policy = RetryPolicy::unbounded();
    policy.budget = Budget::Retries(3);
    assert_eq!(policy.max_retries(), 3);
    assert_eq!(attempts_until_done(policy, 3), (Verdict::Return, 4));
    assert_eq!(attempts_until_done(policy, 4), (Verdict::GiveUp, 4));
    assert!(policy.may_retry(1));
    assert!(policy.may_retry(3));
    assert!(!policy.may_retry(4));
    assert!(RetryPolicy::unbounded().may_retry(u64::MAX));
    assert!(!RetryPolicy::single_attempt().may_retry(1));
}

#[test]
fn record_counts_every_attempt() {
    let mut call = Call::begin(RetryPolicy::unbounded());
    assert_eq!(call.attempts, 0);
    assert_eq!(call.record(Outcome::TransientFailure), Verdict::Retry);
    assert_eq!(call.attempts, 1);
    assert_eq!(call.record(Outcome::Success), Verdict::Return);
    assert_eq!(call.attempts, 2);
    assert_eq!(call.policy, RetryPolicy::unbounded());
}

#[test]
fn a_fatal_failure_is_given_up_under_any_policy() {
    let mut unbounded = Call::begin(RetryPolicy::unbounded());
    assert_eq!(unbounded.record(Outcome::TransientFailure), Verdict::Retry);
    assert_eq!(unbounded.record(Outcome::FatalFailure), Verdict::GiveUp);
    assert_eq!(unbounded.attempts, 2);
    let mut single = Call::begin(RetryPolicy::single_attempt());
    assert_eq!(single.record(Outcome::FatalFailure), Verdict::GiveUp);
}
