use crate::error::Error;
use crate::retry::RetryAction;
use vstd::prelude::*;

verus! {

/// A failure of one platform call, classified once where the response is
/// received.
pub enum ApiFailure {
    /// The platform asks the caller to slow down.
    RateLimited,
    /// The session credential was refused.
    InvalidCredential,
    /// A platform error whose code says that the request's goal already holds.
    KnownIdempotentConflict(u16),
    /// Any other failure.
    Other,
}

/// The platform's error code for "the user already has this role".
pub const ALREADY_HAS_ROLE_CODE: u16 = 26;

impl ApiFailure {
    /// Classifies an error code that the platform returned with an
    /// otherwise unrecognised error.
    pub fn from_error_code(code: u16) -> (r: ApiFailure)
        ensures
            code == ALREADY_HAS_ROLE_CODE ==> r == ApiFailure::KnownIdempotentConflict(code),
            code != ALREADY_HAS_ROLE_CODE ==> r == ApiFailure::Other,
    {
        if code == ALREADY_HAS_ROLE_CODE {
            ApiFailure::KnownIdempotentConflict(code)
        } else {
            ApiFailure::Other
        }
    }
}

/// What the caller of a retrying operation does next.
pub enum Step<T> {
    /// The operation is complete, with this value.
    Done(T),
    /// Sleep for this many seconds, then make the next attempt.
    Wait(u64),
    /// Make the next attempt at once.
    Retry,
    /// The operation failed with this error.
    Fail(Error),
    /// The operation failed fatally; the caller hands on the platform's own
    /// error.
    Abort,
}

/// `s` is the step that carries out the retry action `a` of an operation
/// whose endpoint is named `endpoint`.
pub open spec fn step_follows<T>(s: Step<T>, a: RetryAction, endpoint: Seq<char>) -> bool {
    match a {
        RetryAction::Succeed => s is Done,
        RetryAction::Abort => s is Abort,
        RetryAction::RetryNow => s is Retry,
        RetryAction::CooldownThenRetry(w) => s == Step::<T>::Wait(w),
        RetryAction::GiveUp => match s {
            Step::Fail(Error::EndpointExceededRetryLimit(name)) => name@ == endpoint,
            _ => false,
        },
    }
}

} // verus!
