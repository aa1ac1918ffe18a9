use crate::retry::{next_action, FailureHandling, RetryAction, RetryState};
use crate::error::Error;
use crate::step::{step_follows, ApiFailure, Step, ALREADY_HAS_ROLE_CODE};
use vstd::prelude::*;

verus! {

/// Attempts allowed for setting a member's role.
pub const SET_ROLE_ATTEMPTS: usize = 5;

/// The endpoint name reported when a role cannot be set.
pub open spec fn set_role_endpoint() -> Seq<char> {
    "Set group member role"@
}

/// A refused credential is fatal; "already has the role" is success; a
/// rate limit waits out the cooldown; anything else is retried at once.
pub open spec fn assign_failure_handling(f: ApiFailure) -> FailureHandling {
    match f {
        ApiFailure::InvalidCredential => FailureHandling::Abort,
        ApiFailure::RateLimited => FailureHandling::Retry { cooldown: true },
        ApiFailure::KnownIdempotentConflict(code) => if code == ALREADY_HAS_ROLE_CODE {
            FailureHandling::TreatAsSuccess
        } else {
            FailureHandling::Retry { cooldown: false }
        },
        ApiFailure::Other => FailureHandling::Retry { cooldown: false },
    }
}

/// The retry decisions of giving one member one role.
pub struct RoleAssigner {
    pub retry: RetryState,
}

impl RoleAssigner {
    /// An assignment that has made no attempt yet.
    pub fn new() -> (r: RoleAssigner)
        ensures
            r.retry.attempts_remaining == SET_ROLE_ATTEMPTS,
    {
        RoleAssigner { retry: RetryState::new(SET_ROLE_ATTEMPTS) }
    }

    /// Decides what follows one response of the set-role call.
    pub fn on_response(&mut self, response: Result<(), ApiFailure>) -> (r: Step<()>)
        ensures
            match response {
                Ok(()) => r == Step::<()>::Done(()) && final(self).retry == old(self).retry,
                Err(f) => {
                    let (rest, a) = next_action(
                        old(self).retry.attempts_remaining as nat,
                        assign_failure_handling(f),
                    );
                    &&& final(self).retry.attempts_remaining == rest
                    &&& step_follows(r, a, set_role_endpoint())
                },
            },
    {
        match response {
            Ok(()) => Step::Done(()),
            Err(f) => {
                let handling = match f {
                    ApiFailure::InvalidCredential => FailureHandling::Abort,
                    ApiFailure::RateLimited => FailureHandling::Retry { cooldown: true },
                    ApiFailure::KnownIdempotentConflict(code) => {
                        if code == ALREADY_HAS_ROLE_CODE {
                            FailureHandling::TreatAsSuccess
                        } else {
                            FailureHandling::Retry { cooldown: false }
                        }
                    },
                    ApiFailure::Other => FailureHandling::Retry { cooldown: false },
                };
                match self.retry.on_failure(handling) {
                    RetryAction::Succeed => Step::Done(()),
                    RetryAction::Abort => Step::Abort,
                    RetryAction::RetryNow => Step::Retry,
                    RetryAction::CooldownThenRetry(secs) => Step::Wait(secs),
                    RetryAction::GiveUp => Step::Fail(
                        Error::EndpointExceededRetryLimit("Set group member role".to_owned()),
                    ),
                }
            },
        }
    }
}

} // verus!

verus! {

/// A member that already holds the role: the platform's conflict answer is
/// success, with the attempt budget untouched, so asking again succeeds
/// again.
pub proof fn lemma_assignment_idempotent(remaining: nat)
    ensures
        ({
            let h = assign_failure_handling(
                ApiFailure::KnownIdempotentConflict(ALREADY_HAS_ROLE_CODE),
            );
            &&& next_action(remaining, h) == (remaining, RetryAction::Succeed)
            &&& next_action(next_action(remaining, h).0, h) == (remaining, RetryAction::Succeed)
        }),
{
}

} // verus!
