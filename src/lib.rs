//! Rank synchronisation for a group: every member of the scanned roles is
//! given the role that corresponds to the year in which their account was
//! created.
//!
//! The library holds the decisions of a run: resolving role names, the
//! year index, the paging protocol and the retry rules of the two mutating
//! or classifying calls. Performing the calls themselves is left to the
//! caller, which feeds each response back in and carries out the action
//! that comes out.
mod age;
mod assign;
mod error;
mod orchestrate;
mod pager;
mod retry;
mod role_directory;
mod run;
mod step;
mod year_index;

pub use error::Error;
pub use year_index::{is_year_index_of, reverse_role_year_pairs, role_of_year};
pub use role_directory::{
    entries_agree, find_role_id, first_unresolved, generate_role_id_lookup, lemma_missing_role_fails,
    lookup_in, required_names, required_role_names, role_id_in, GroupRole, RoleIdLookup,
};
pub use retry::{
    cooldown_waits, final_action, lemma_one_wait_per_rate_limit, lemma_retry_budget, next_action,
    retries, Attempt, FailureHandling, RetryAction, RetryState, COOLDOWN_SECS,
};
pub use step::{step_follows, ApiFailure, Step, ALREADY_HAS_ROLE_CODE};
pub use age::{
    account_age_endpoint, age_failure_handling, digit_value, year_from_timestamp, year_prefix,
    age_outcomes, lemma_account_age_budget, lemma_account_age_rate_limits, AgeClassifier,
    ACCOUNT_AGE_ATTEMPTS,
};
pub use assign::{
    assign_failure_handling, lemma_assignment_idempotent, set_role_endpoint, RoleAssigner,
    SET_ROLE_ATTEMPTS,
};
pub use pager::{MemberPager, PagerState, PAGE_LIMIT};
pub use orchestrate::{
    assigned_role, lemma_configured_year_gets_its_role, lemma_unconfigured_year_gets_wildcard,
    role_assignment, target_role_name, years_unambiguous,
};
pub use run::{Action, Assigned, Event, Phase, Request, SyncRun};
