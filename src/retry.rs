use vstd::prelude::*;

verus! {

/// Seconds to wait after a rate-limited response before the next attempt.
pub const COOLDOWN_SECS: u64 = 60;

/// How an operation wants one failed attempt handled.
pub enum FailureHandling {
    /// The failure is fatal: stop at once and hand the failure on.
    Abort,
    /// The failure means that the operation's goal already holds.
    TreatAsSuccess,
    /// Try again, after the cooldown if `cooldown` is set.
    Retry { cooldown: bool },
}

/// What the caller does after an attempt.
pub enum RetryAction {
    /// The operation is complete.
    Succeed,
    /// The operation failed fatally; the failure is handed on unchanged.
    Abort,
    /// Make the next attempt at once.
    RetryNow,
    /// Sleep for the given number of seconds, then make the next attempt.
    CooldownThenRetry(u64),
    /// The attempt budget is spent.
    GiveUp,
}

/// The outcome of one attempt of an operation.
pub enum Attempt {
    Succeeded,
    Failed(FailureHandling),
}

/// The attempts left to one logical operation.
pub struct RetryState {
    pub attempts_remaining: usize,
}

/// The budget left and the action that follow a failed attempt made with
/// `remaining` attempts left (the failed one included).
pub open spec fn next_action(remaining: nat, handling: FailureHandling) -> (nat, RetryAction) {
    match handling {
        FailureHandling::Abort => (remaining, RetryAction::Abort),
        FailureHandling::TreatAsSuccess => (remaining, RetryAction::Succeed),
        FailureHandling::Retry { cooldown } => {
            if remaining <= 1 {
                (0, RetryAction::GiveUp)
            } else if cooldown {
                ((remaining - 1) as nat, RetryAction::CooldownThenRetry(COOLDOWN_SECS))
            } else {
                ((remaining - 1) as nat, RetryAction::RetryNow)
            }
        },
    }
}

/// Whether an action leads to another attempt.
pub open spec fn retries(a: RetryAction) -> bool {
    a is RetryNow || a is CooldownThenRetry
}

/// The action that ends an operation started with `remaining` attempts
/// that meets the attempt outcomes `outcomes` in turn; `None` while it is
/// still running after all of them.
pub open spec fn final_action(remaining: nat, outcomes: Seq<Attempt>) -> Option<RetryAction>
    decreases outcomes.len(),
{
    if outcomes.len() == 0 {
        None
    } else {
        match outcomes[0] {
            Attempt::Succeeded => Some(RetryAction::Succeed),
            Attempt::Failed(h) => {
                let (rest, a) = next_action(remaining, h);
                if retries(a) {
                    final_action(rest, outcomes.drop_first())
                } else {
                    Some(a)
                }
            },
        }
    }
}

/// How many cooldown waits an operation started with `remaining` attempts
/// makes while it meets the attempt outcomes `outcomes` in turn.
pub open spec fn cooldown_waits(remaining: nat, outcomes: Seq<Attempt>) -> nat
    decreases outcomes.len(),
{
    if outcomes.len() == 0 {
        0
    } else {
        match outcomes[0] {
            Attempt::Succeeded => 0,
            Attempt::Failed(h) => {
                let (rest, a) = next_action(remaining, h);
                if retries(a) {
                    (if a is CooldownThenRetry {
                        1nat
                    } else {
                        0nat
                    }) + cooldown_waits(rest, outcomes.drop_first())
                } else {
                    0
                }
            },
        }
    }
}

impl RetryState {
    /// A fresh operation with `max_attempts` attempts.
    pub fn new(max_attempts: usize) -> (r: RetryState)
        ensures
            r.attempts_remaining == max_attempts,
    {
        RetryState { attempts_remaining: max_attempts }
    }

    /// Records a failed attempt and decides what follows it.
    pub fn on_failure(&mut self, handling: FailureHandling) -> (r: RetryAction)
        ensures
            (final(self).attempts_remaining as nat, r) == next_action(
                old(self).attempts_remaining as nat,
                handling,
            ),
    {
        match handling {
            FailureHandling::Abort => RetryAction::Abort,
            FailureHandling::TreatAsSuccess => RetryAction::Succeed,
            FailureHandling::Retry { cooldown } => {
                if self.attempts_remaining <= 1 {
                    self.attempts_remaining = 0;
                    RetryAction::GiveUp
                } else {
                    self.attempts_remaining = self.attempts_remaining - 1;
                    if cooldown {
                        RetryAction::CooldownThenRetry(COOLDOWN_SECS)
                    } else {
                        RetryAction::RetryNow
                    }
                }
            },
        }
    }
}

/// Retryable failures followed by a success: with fewer failures than the
/// budget the operation succeeds; with as many as the budget it gives up,
/// whatever comes after.
pub proof fn lemma_retry_budget(remaining: nat, failures: Seq<FailureHandling>, tail: Seq<Attempt>)
    requires
        remaining >= 1,
        forall|i: int| 0 <= i < failures.len() ==> #[trigger] failures[i] is Retry,
        failures.len() <= remaining,
        failures.len() < remaining ==> tail.len() > 0 && tail[0] is Succeeded,
    ensures
        failures.len() < remaining ==> final_action(
            remaining,
            failures.map_values(|h: FailureHandling| Attempt::Failed(h)) + tail,
        ) == Some(RetryAction::Succeed),
        failures.len() == remaining ==> final_action(
            remaining,
            failures.map_values(|h: FailureHandling| Attempt::Failed(h)) + tail,
        ) == Some(RetryAction::GiveUp),
    decreases failures.len(),
{
    let outcomes = failures.map_values(|h: FailureHandling| Attempt::Failed(h)) + tail;
    if failures.len() == 0 {
        assert(outcomes =~= tail);
    } else {
        assert(outcomes[0] == Attempt::Failed(failures[0]));
        if remaining > 1 {
            let rest = failures.drop_first();
            assert forall|i: int| 0 <= i < rest.len() implies #[trigger] rest[i] is Retry by {
                assert(rest[i] == failures[i + 1]);
            }
            lemma_retry_budget((remaining - 1) as nat, rest, tail);
            assert(outcomes.drop_first() =~= rest.map_values(
                |h: FailureHandling| Attempt::Failed(h),
            ) + tail);
        }
    }
}

/// Rate-limited failures, fewer than the budget, each lead to exactly one
/// cooldown wait before the next attempt.
pub proof fn lemma_one_wait_per_rate_limit(remaining: nat, k: nat, tail: Seq<Attempt>)
    requires
        k < remaining,
    ensures
        cooldown_waits(
            remaining,
            Seq::new(k, |i: int| Attempt::Failed(FailureHandling::Retry { cooldown: true })) + tail,
        ) == k + cooldown_waits((remaining - k) as nat, tail),
    decreases k,
{
    let outcomes = Seq::new(k, |i: int| Attempt::Failed(FailureHandling::Retry { cooldown: true }))
        + tail;
    if k == 0 {
        assert(outcomes =~= tail);
    } else {
        lemma_one_wait_per_rate_limit((remaining - 1) as nat, (k - 1) as nat, tail);
        assert(outcomes.drop_first() =~= Seq::new(
            (k - 1) as nat,
            |i: int| Attempt::Failed(FailureHandling::Retry { cooldown: true }),
        ) + tail);
        assert(outcomes[0] == Attempt::Failed(FailureHandling::Retry { cooldown: true }));
    }
}

} // verus!
