use crate::age::{account_age_endpoint, age_failure_handling, year_prefix, AgeClassifier};
use crate::assign::{assign_failure_handling, set_role_endpoint, RoleAssigner};
use crate::retry::{next_action, RetryAction};
use crate::error::Error;
use crate::orchestrate::{role_assignment, target_role_name};
use crate::pager::MemberPager;
use crate::role_directory::{
    first_unresolved, generate_role_id_lookup, required_names, GroupRole, RoleIdLookup,
};
use crate::step::{ApiFailure, Step};
use crate::year_index::{is_year_index_of, reverse_role_year_pairs};
use std::collections::HashMap;
use vstd::prelude::*;

verus! {

/// A platform call that the run asks its caller to make.
pub enum Request {
    /// List the group's roles.
    GroupRoles { group_id: u64 },
    /// List one page of the members that hold a role.
    Members { group_id: u64, role_id: u64, cursor: Option<String> },
    /// Fetch a user's details.
    UserDetails { user_id: u64 },
    /// Give a user a role.
    SetRole { group_id: u64, user_id: u64, role_id: u64 },
}

/// What the caller does next.
pub enum Action {
    /// Make this call and hand its response back.
    Call(Request),
    /// Sleep for this many seconds, then make this call.
    WaitThenCall(u64, Request),
    /// The run is complete.
    Finish,
    /// The run failed with this error.
    Fail(Error),
    /// The run failed fatally on the platform error that was just received.
    Abort,
}

/// The response to a call of the run.
pub enum Event {
    /// The group's roles.
    Roles(Vec<GroupRole>),
    /// One page of members and the cursor of the next page.
    Page(Vec<u64>, Option<String>),
    /// A listing call failed.
    ListingFailed,
    /// A user's creation timestamp, or the failure of that call.
    Details(Result<String, ApiFailure>),
    /// The outcome of a set-role call.
    RoleSet(Result<(), ApiFailure>),
}

/// A completed assignment, to be reported.
pub struct Assigned {
    pub role: String,
    pub user_id: u64,
    pub year: u64,
}

/// Where a run stands.
pub enum Phase {
    ResolvingRoles,
    Paging,
    Classifying(AgeClassifier),
    Assigning(RoleAssigner),
    Finished,
}

/// One synchronisation run: roles are resolved once, then each scanned
/// role's members are paged through, and each member is classified and
/// assigned before the next one begins.
pub struct SyncRun {
    pub group_id: u64,
    pub scanned_roles: Vec<String>,
    pub role_year_pairs: Vec<(String, Vec<u64>)>,
    pub wildcard_role: String,
    pub year_index: HashMap<u64, String>,
    pub lookup: RoleIdLookup,
    pub role_pos: usize,
    pub pager: MemberPager,
    pub members: Vec<u64>,
    pub member_pos: usize,
    pub year: u64,
    pub target: String,
    pub target_id: u64,
    pub phase: Phase,
}

/// `r` carries out the retry action `a` of a call that is repeated as
/// `again` and whose endpoint is named `endpoint`.
pub open spec fn retry_follows(a: RetryAction, r: Action, again: Request, endpoint: Seq<char>) -> bool {
    match a {
        RetryAction::CooldownThenRetry(w) => r == Action::WaitThenCall(w, again),
        RetryAction::RetryNow => r == Action::Call(again),
        RetryAction::GiveUp => match r {
            Action::Fail(Error::EndpointExceededRetryLimit(n)) => n@ == endpoint,
            _ => false,
        },
        RetryAction::Abort => r is Abort,
        RetryAction::Succeed => true,
    }
}

impl SyncRun {
    /// The run's internal invariant.
    pub open spec fn wf(&self) -> bool {
        &&& is_year_index_of(self.year_index@, self.role_year_pairs@)
        &&& self.role_pos <= self.scanned_roles@.len()
        &&& self.member_pos <= self.members@.len()
        &&& (self.phase is Paging || self.phase is Classifying || self.phase is Assigning)
            ==> self.role_pos < self.scanned_roles@.len()
        &&& self.phase is Paging ==> !(self.pager.state is Finished)
        &&& (self.phase is Classifying || self.phase is Assigning) ==> self.member_pos
            < self.members@.len()
    }

    /// Whether `event` answers the call that the run is waiting on.
    pub open spec fn awaits(&self, event: Event) -> bool {
        match self.phase {
            Phase::ResolvingRoles => event is Roles || event is ListingFailed,
            Phase::Paging => event is Page || event is ListingFailed,
            Phase::Classifying(_) => event is Details,
            Phase::Assigning(_) => event is RoleSet,
            Phase::Finished => false,
        }
    }

    /// A run over the given configuration; it starts by listing the roles.
    pub fn new(
        group_id: u64,
        scanned_roles: Vec<String>,
        role_year_pairs: Vec<(String, Vec<u64>)>,
        wildcard_role: String,
    ) -> (r: (SyncRun, Action))
        ensures
            r.0.wf(),
            r.0.phase is ResolvingRoles,
            r.0.group_id == group_id,
            r.0.scanned_roles == scanned_roles,
            r.0.role_year_pairs == role_year_pairs,
            r.0.wildcard_role == wildcard_role,
            r.1 == Action::Call(Request::GroupRoles { group_id }),
    {
        let year_index = reverse_role_year_pairs(&role_year_pairs);
        let run = SyncRun {
            group_id,
            scanned_roles,
            role_year_pairs,
            wildcard_role,
            year_index,
            lookup: RoleIdLookup { entries: Vec::new() },
            role_pos: 0,
            pager: MemberPager::new(group_id, 0),
            members: Vec::new(),
            member_pos: 0,
            year: 0,
            target: String::new(),
            target_id: 0,
            phase: Phase::ResolvingRoles,
        };
        (run, Action::Call(Request::GroupRoles { group_id }))
    }

    /// Whether `event` answers the call that the run is waiting on.
    pub fn is_awaiting(&self, event: &Event) -> (r: bool)
        ensures
            r == self.awaits(*event),
    {
        match (&self.phase, event) {
            (Phase::ResolvingRoles, Event::Roles(_)) => true,
            (Phase::ResolvingRoles, Event::ListingFailed) => true,
            (Phase::Paging, Event::Page(_, _)) => true,
            (Phase::Paging, Event::ListingFailed) => true,
            (Phase::Classifying(_), Event::Details(_)) => true,
            (Phase::Assigning(_), Event::RoleSet(_)) => true,
            _ => false,
        }
    }

    /// Starts on the scanned role at `role_pos`, or finishes after the last.
    fn next_role(&mut self) -> (r: Action)
        requires
            old(self).wf(),
            old(self).role_pos <= old(self).scanned_roles@.len(),
        ensures
            final(self).wf(),
            final(self).group_id == old(self).group_id,
            final(self).scanned_roles == old(self).scanned_roles,
            final(self).role_year_pairs == old(self).role_year_pairs,
            final(self).wildcard_role == old(self).wildcard_role,
            final(self).year_index@ == old(self).year_index@,
            final(self).lookup == old(self).lookup,
            final(self).phase is Paging || final(self).phase is Finished,
            final(self).role_pos == old(self).role_pos,
            final(self).phase is Finished <==> (r is Finish || r is Fail),
            r is Finish <==> old(self).role_pos == old(self).scanned_roles@.len(),
            old(self).role_pos < old(self).scanned_roles@.len() ==> match old(self).lookup.id_of(
                old(self).scanned_roles@[old(self).role_pos as int]@,
            ) {
                Some(id) => r == Action::Call(
                    Request::Members { group_id: old(self).group_id, role_id: id, cursor: None },
                ),
                None => r is Fail,
            },
    {
        if self.role_pos == self.scanned_roles.len() {
            self.phase = Phase::Finished;
            return Action::Finish;
        }
        match MemberPager::for_role(&self.lookup, self.group_id, &self.scanned_roles[self.role_pos]) {
            Ok(pager) => {
                self.pager = pager;
                self.members = Vec::new();
                self.member_pos = 0;
                self.phase = Phase::Paging;
                Action::Call(
                    Request::Members {
                        group_id: self.group_id,
                        role_id: self.pager.role_id,
                        cursor: None,
                    },
                )
            },
            Err(e) => {
                self.phase = Phase::Finished;
                Action::Fail(e)
            },
        }
    }

    /// Moves on to the member at `member_pos`, the next page, or the next role.
    fn next_member(&mut self) -> (r: Action)
        requires
            old(self).wf(),
            old(self).role_pos < old(self).scanned_roles@.len(),
        ensures
            final(self).wf(),
            final(self).group_id == old(self).group_id,
            final(self).scanned_roles == old(self).scanned_roles,
            final(self).role_year_pairs == old(self).role_year_pairs,
            final(self).wildcard_role == old(self).wildcard_role,
            final(self).year_index@ == old(self).year_index@,
            final(self).lookup == old(self).lookup,
            !(final(self).phase is ResolvingRoles),
            !(final(self).phase is Assigning),
            old(self).member_pos < old(self).members@.len() ==> {
                &&& r == Action::Call(
                    Request::UserDetails {
                        user_id: old(self).members@[old(self).member_pos as int],
                    },
                )
                &&& final(self).members == old(self).members
                &&& final(self).member_pos == old(self).member_pos
            },
            old(self).member_pos >= old(self).members@.len() && old(self).pager.state is Finished
                ==> {
                &&& final(self).role_pos == old(self).role_pos + 1
                &&& (old(self).role_pos + 1 == old(self).scanned_roles@.len() ==> r is Finish)
            },
    {
        if self.member_pos < self.members.len() {
            let user_id = self.members[self.member_pos];
            self.phase = Phase::Classifying(AgeClassifier::new());
            return Action::Call(Request::UserDetails { user_id });
        }
        if self.pager.is_finished() {
            let n = self.scanned_roles.len();
            assert(self.role_pos < n);
            self.phase = Phase::Finished;
            self.role_pos = self.role_pos + 1;
            return self.next_role();
        }
        self.phase = Phase::Paging;
        Action::Call(
            Request::Members {
                group_id: self.pager.group_id,
                role_id: self.pager.role_id,
                cursor: self.pager.cursor(),
            },
        )
    }

    /// Takes in the response to the pending call and decides what follows;
    /// a completed assignment is handed back for reporting.
    pub fn on_event(&mut self, event: Event) -> (r: (Option<Assigned>, Action))
        requires
            old(self).wf(),
            old(self).awaits(event),
        ensures
            final(self).wf(),
            final(self).scanned_roles == old(self).scanned_roles,
            final(self).role_year_pairs == old(self).role_year_pairs,
            final(self).wildcard_role == old(self).wildcard_role,
            final(self).year_index@ == old(self).year_index@,
            r.0 is Some ==> old(self).phase is Assigning,
            event is ListingFailed ==> r == (None::<Assigned>, Action::Abort),
            match event {
                Event::Roles(roles) => {
                    let names = required_names(
                        old(self).scanned_roles@,
                        old(self).role_year_pairs@,
                        old(self).wildcard_role,
                    );
                    match first_unresolved(roles@, names) {
                        Some(missing) => {
                            &&& final(self).phase is Finished
                            &&& r.0 is None
                            &&& match r.1 {
                                Action::Fail(Error::RoleNotFound(n)) => n@ == missing,
                                _ => false,
                            }
                        },
                        None => {
                            &&& r.0 is None
                            &&& (old(self).scanned_roles@.len() == 0 ==> r.1 is Finish)
                            &&& (old(self).scanned_roles@.len() > 0 ==> r.1 == Action::Call(
                                Request::Members {
                                    group_id: old(self).group_id,
                                    role_id: final(self).lookup.id_of(
                                        old(self).scanned_roles@[0]@,
                                    )->0,
                                    cursor: None,
                                },
                            ))
                        },
                    }
                },
                Event::Details(Ok(created_at)) if year_prefix(created_at@) is Some => {
                    let year = year_prefix(created_at@)->0;
                    let target = target_role_name(
                        old(self).year_index@,
                        old(self).wildcard_role@,
                        year,
                    );
                    match old(self).lookup.id_of(target) {
                        Some(id) => r.1 == Action::Call(
                            Request::SetRole {
                                group_id: old(self).group_id,
                                user_id: old(self).members@[old(self).member_pos as int],
                                role_id: id,
                            },
                        ),
                        None => match r.1 {
                            Action::Fail(Error::RoleNotFound(n)) => n@ == target,
                            _ => false,
                        },
                    }
                },
                Event::Details(Ok(created_at)) => year_prefix(created_at@) is None ==> match r.1 {
                    Action::Fail(Error::MalformedCreationTimestamp(t)) => t@ == created_at@,
                    _ => false,
                },
                Event::Details(Err(f)) => match old(self).phase {
                    Phase::Classifying(c) => retry_follows(
                        next_action(c.retry.attempts_remaining as nat, age_failure_handling(f)).1,
                        r.1,
                        Request::UserDetails {
                            user_id: old(self).members@[old(self).member_pos as int],
                        },
                        account_age_endpoint(),
                    ),
                    _ => false,
                },
                Event::RoleSet(Err(f)) => match old(self).phase {
                    Phase::Assigning(a) => {
                        let act = next_action(
                            a.retry.attempts_remaining as nat,
                            assign_failure_handling(f),
                        ).1;
                        &&& retry_follows(
                            act,
                            r.1,
                            Request::SetRole {
                                group_id: old(self).group_id,
                                user_id: old(self).members@[old(self).member_pos as int],
                                role_id: old(self).target_id,
                            },
                            set_role_endpoint(),
                        )
                        &&& (act is Succeed <==> r.0 is Some)
                    },
                    _ => false,
                },
                Event::Page(ids, cursor) => {
                    &&& ids@.len() > 0 ==> r.1 == Action::Call(Request::UserDetails { user_id: ids@[0] })
                    &&& ids@.len() > 0 ==> final(self).members@ == ids@
                    &&& ids@.len() == 0 ==> final(self).role_pos == old(self).role_pos + 1
                    &&& ids@.len() == 0 && old(self).role_pos + 1 == old(self).scanned_roles@.len()
                        ==> r.1 is Finish
                },
                Event::RoleSet(Ok(())) => match r.0 {
                    Some(a) => {
                        &&& a.user_id == old(self).members@[old(self).member_pos as int]
                        &&& a.year == old(self).year
                        &&& a.role == old(self).target
                    },
                    None => false,
                },
                _ => true,
            },
    {
        match event {
            Event::ListingFailed => {
                self.phase = Phase::Finished;
                (None, Action::Abort)
            },
            Event::Roles(roles) => {
                match generate_role_id_lookup(
                    &roles,
                    &self.scanned_roles,
                    &self.role_year_pairs,
                    &self.wildcard_role,
                ) {
                    Ok(lookup) => {
                        proof {
                            let names = required_names(
                                self.scanned_roles@,
                                self.role_year_pairs@,
                                self.wildcard_role,
                            );
                            if self.scanned_roles@.len() > 0 {
                                assert(names[0] == self.scanned_roles@[0]);
                                assert(lookup.id_of(names[0]@) is Some);
                            }
                        }
                        self.lookup = lookup;
                        self.role_pos = 0;
                        (None, self.next_role())
                    },
                    Err(e) => {
                        self.phase = Phase::Finished;
                        (None, Action::Fail(e))
                    },
                }
            },
            Event::Page(member_ids, cursor) => {
                self.members = self.pager.accept_page(member_ids, cursor);
                self.member_pos = 0;
                self.phase = Phase::Finished;
                (None, self.next_member())
            },
            Event::Details(response) => {
                let user_id = self.members[self.member_pos];
                let step = match &mut self.phase {
                    Phase::Classifying(c) => c.on_response(response),
                    _ => Step::Abort,
                };
                match step {
                    Step::Done(year) => {
                        match role_assignment(
                            &self.year_index,
                            &self.lookup,
                            &self.wildcard_role,
                            year,
                        ) {
                            Ok((role, role_id)) => {
                                self.year = year;
                                self.target = role;
                                self.target_id = role_id;
                                self.phase = Phase::Assigning(RoleAssigner::new());
                                (
                                    None,
                                    Action::Call(
                                        Request::SetRole {
                                            group_id: self.group_id,
                                            user_id,
                                            role_id,
                                        },
                                    ),
                                )
                            },
                            Err(e) => {
                                self.phase = Phase::Finished;
                                (None, Action::Fail(e))
                            },
                        }
                    },
                    Step::Wait(secs) => (
                        None,
                        Action::WaitThenCall(secs, Request::UserDetails { user_id }),
                    ),
                    Step::Retry => (None, Action::Call(Request::UserDetails { user_id })),
                    Step::Fail(e) => {
                        self.phase = Phase::Finished;
                        (None, Action::Fail(e))
                    },
                    Step::Abort => {
                        self.phase = Phase::Finished;
                        (None, Action::Abort)
                    },
                }
            },
            Event::RoleSet(response) => {
                let m = self.members.len();
                assert(self.member_pos < m);
                let user_id = self.members[self.member_pos];
                let step = match &mut self.phase {
                    Phase::Assigning(a) => a.on_response(response),
                    _ => Step::Abort,
                };
                match step {
                    Step::Done(()) => {
                        let done = Assigned { role: self.target.clone(), user_id, year: self.year };
                        self.phase = Phase::Finished;
                        self.member_pos = self.member_pos + 1;
                        (Some(done), self.next_member())
                    },
                    Step::Wait(secs) => (
                        None,
                        Action::WaitThenCall(
                            secs,
                            Request::SetRole {
                                group_id: self.group_id,
                                user_id,
                                role_id: self.target_id,
                            },
                        ),
                    ),
                    Step::Retry => (
                        None,
                        Action::Call(
                            Request::SetRole {
                                group_id: self.group_id,
                                user_id,
                                role_id: self.target_id,
                            },
                        ),
                    ),
                    Step::Fail(e) => {
                        self.phase = Phase::Finished;
                        (None, Action::Fail(e))
                    },
                    Step::Abort => {
                        self.phase = Phase::Finished;
                        (None, Action::Abort)
                    },
                }
            },
        }
    }
}

} // verus!
