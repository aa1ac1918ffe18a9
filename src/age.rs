use crate::error::Error;
use crate::retry::{next_action, FailureHandling, RetryAction, RetryState};
use crate::step::{step_follows, ApiFailure, Step};
use vstd::prelude::*;

verus! {

/// Attempts allowed for fetching a user's details.
pub const ACCOUNT_AGE_ATTEMPTS: usize = 5;

/// The endpoint name reported when the account age cannot be fetched.
pub open spec fn account_age_endpoint() -> Seq<char> {
    "Account age"@
}

/// Every failure of the user-details call is retried; a rate limit first
/// waits out the cooldown.
pub open spec fn age_failure_handling(f: ApiFailure) -> FailureHandling {
    match f {
        ApiFailure::RateLimited => FailureHandling::Retry { cooldown: true },
        _ => FailureHandling::Retry { cooldown: false },
    }
}

/// The value of a decimal digit character.
pub open spec fn digit_value(c: char) -> Option<u64> {
    if '0' <= c && c <= '9' {
        Some((c as u32 - '0' as u32) as u64)
    } else {
        None
    }
}

/// The year that a creation timestamp starts with: its first four
/// characters, read as decimal digits.
pub open spec fn year_prefix(s: Seq<char>) -> Option<u64> {
    if s.len() >= 4 && digit_value(s[0]) is Some && digit_value(s[1]) is Some && digit_value(
        s[2],
    ) is Some && digit_value(s[3]) is Some {
        Some(
            (digit_value(s[0])->0 * 1000 + digit_value(s[1])->0 * 100 + digit_value(s[2])->0 * 10
                + digit_value(s[3])->0) as u64,
        )
    } else {
        None
    }
}

fn digit(c: char) -> (r: Option<u64>)
    ensures
        r == digit_value(c),
{
    if '0' <= c && c <= '9' {
        Some((c as u32 - '0' as u32) as u64)
    } else {
        None
    }
}

/// Reads the account-creation year from the start of a creation timestamp.
pub fn year_from_timestamp(created_at: &String) -> (r: Option<u64>)
    ensures
        r == year_prefix(created_at@),
{
    let s = created_at.as_str();
    if s.unicode_len() < 4 {
        return None;
    }
    let d0 = digit(s.get_char(0));
    let d1 = digit(s.get_char(1));
    let d2 = digit(s.get_char(2));
    let d3 = digit(s.get_char(3));
    match (d0, d1, d2, d3) {
        (Some(a), Some(b), Some(c), Some(d)) => Some(a * 1000 + b * 100 + c * 10 + d),
        _ => None,
    }
}

/// The retry decisions of fetching one member's account-creation year.
pub struct AgeClassifier {
    pub retry: RetryState,
}

impl AgeClassifier {
    /// A classification that has made no attempt yet.
    pub fn new() -> (r: AgeClassifier)
        ensures
            r.retry.attempts_remaining == ACCOUNT_AGE_ATTEMPTS,
    {
        AgeClassifier { retry: RetryState::new(ACCOUNT_AGE_ATTEMPTS) }
    }

    /// Decides what follows one response of the user-details call: its
    /// creation timestamp, or its failure.
    pub fn on_response(&mut self, response: Result<String, ApiFailure>) -> (r: Step<u64>)
        ensures
            match response {
                Ok(created_at) => {
                    &&& final(self).retry == old(self).retry
                    &&& match year_prefix(created_at@) {
                        Some(year) => r == Step::<u64>::Done(year),
                        None => match r {
                            Step::Fail(Error::MalformedCreationTimestamp(t)) => t@ == created_at@,
                            _ => false,
                        },
                    }
                },
                Err(f) => {
                    let (rest, a) = next_action(
                        old(self).retry.attempts_remaining as nat,
                        age_failure_handling(f),
                    );
                    &&& final(self).retry.attempts_remaining == rest
                    &&& step_follows(r, a, account_age_endpoint())
                },
            },
    {
        match response {
            Ok(created_at) => match year_from_timestamp(&created_at) {
                Some(year) => Step::Done(year),
                None => Step::Fail(Error::MalformedCreationTimestamp(created_at)),
            },
            Err(f) => {
                let handling = match f {
                    ApiFailure::RateLimited => FailureHandling::Retry { cooldown: true },
                    _ => FailureHandling::Retry { cooldown: false },
                };
                match self.retry.on_failure(handling) {
                    RetryAction::RetryNow => Step::Retry,
                    RetryAction::CooldownThenRetry(secs) => Step::Wait(secs),
                    RetryAction::GiveUp => Step::Fail(
                        Error::EndpointExceededRetryLimit("Account age".to_owned()),
                    ),
                    RetryAction::Abort => Step::Abort,
                    RetryAction::Succeed => {
                        proof {
                            assert(false);
                        }
                        Step::Abort
                    },
                }
            },
        }
    }
}

} // verus!

verus! {

/// The attempt outcomes of a user-details call that fails with `failures`
/// in turn and then meets `tail`.
pub open spec fn age_outcomes(failures: Seq<ApiFailure>, tail: Seq<crate::retry::Attempt>) -> Seq<
    crate::retry::Attempt,
> {
    failures.map_values(|f: ApiFailure| crate::retry::Attempt::Failed(age_failure_handling(f)))
        + tail
}

/// Fewer failures than the attempt budget, then a success: the
/// classification succeeds. As many failures as the budget: it gives up.
pub proof fn lemma_account_age_budget(
    failures: Seq<ApiFailure>,
    tail: Seq<crate::retry::Attempt>,
)
    requires
        failures.len() <= ACCOUNT_AGE_ATTEMPTS,
        failures.len() < ACCOUNT_AGE_ATTEMPTS ==> tail.len() > 0 && tail[0] is Succeeded,
    ensures
        failures.len() < ACCOUNT_AGE_ATTEMPTS ==> crate::retry::final_action(
            ACCOUNT_AGE_ATTEMPTS as nat,
            age_outcomes(failures, tail),
        ) == Some(RetryAction::Succeed),
        failures.len() == ACCOUNT_AGE_ATTEMPTS ==> crate::retry::final_action(
            ACCOUNT_AGE_ATTEMPTS as nat,
            age_outcomes(failures, tail),
        ) == Some(RetryAction::GiveUp),
{
    let hs = failures.map_values(|f: ApiFailure| age_failure_handling(f));
    assert forall|i: int| 0 <= i < hs.len() implies #[trigger] hs[i] is Retry by {}
    crate::retry::lemma_retry_budget(ACCOUNT_AGE_ATTEMPTS as nat, hs, tail);
    assert(hs.map_values(|h: FailureHandling| crate::retry::Attempt::Failed(h)) =~= failures.map_values(
        |f: ApiFailure| crate::retry::Attempt::Failed(age_failure_handling(f)),
    ));
}

/// `k` rate-limited failures, fewer than the budget, then a success: the
/// classification succeeds after exactly `k` cooldown waits.
pub proof fn lemma_account_age_rate_limits(k: nat)
    requires
        k < ACCOUNT_AGE_ATTEMPTS,
    ensures
        ({
            let outcomes = age_outcomes(
                Seq::new(k, |i: int| ApiFailure::RateLimited),
                seq![crate::retry::Attempt::Succeeded],
            );
            &&& crate::retry::final_action(ACCOUNT_AGE_ATTEMPTS as nat, outcomes) == Some(
                RetryAction::Succeed,
            )
            &&& crate::retry::cooldown_waits(ACCOUNT_AGE_ATTEMPTS as nat, outcomes) == k
        }),
{
    let tail = seq![crate::retry::Attempt::Succeeded];
    let failures = Seq::new(k, |i: int| ApiFailure::RateLimited);
    lemma_account_age_budget(failures, tail);
    crate::retry::lemma_one_wait_per_rate_limit(ACCOUNT_AGE_ATTEMPTS as nat, k, tail);
    assert(age_outcomes(failures, tail) =~= Seq::new(
        k,
        |i: int| crate::retry::Attempt::Failed(FailureHandling::Retry { cooldown: true }),
    ) + tail);
    assert(tail[0] == crate::retry::Attempt::Succeeded);
}

} // verus!
