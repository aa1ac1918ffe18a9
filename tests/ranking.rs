use classics_ranking_bot::{
    assigned_role, generate_role_id_lookup, required_role_names, reverse_role_year_pairs,
    role_assignment, year_from_timestamp, AgeClassifier, ApiFailure, Error, GroupRole,
    MemberPager, PagerState, RetryAction, RetryState, FailureHandling, RoleAssigner, Step,
    find_role_id, ACCOUNT_AGE_ATTEMPTS, COOLDOWN_SECS, SET_ROLE_ATTEMPTS, PAGE_LIMIT,
};

fn s(x: &str) -> String {
    x.to_string()
}

fn example_pairs() -> Vec<(String, Vec<u64>)> {
    vec![(s("Vintage"), vec![2006, 2007]), (s("Modern"), vec![2020])]
}

fn group_roles() -> Vec<GroupRole> {
    vec![
        GroupRole { id: 11, name: s("Guest") },
        GroupRole { id: 22, name: s("Member") },
        GroupRole { id: 33, name: s("Vintage") },
        GroupRole { id: 44, name: s("Modern") },
    ]
}

#[test]
fn example_years_pick_roles() {
    let index = reverse_role_year_pairs(&example_pairs());
    let wildcard = s("Member");
    assert_eq!(assigned_role(&index, &wildcard, 2006), "Vintage");
    assert_eq!(assigned_role(&index, &wildcard, 2007), "Vintage");
    assert_eq!(assigned_role(&index, &wildcard, 2020), "Modern");
    assert_eq!(assigned_role(&index, &wildcard, 2015), "Member");
}

#[test]
fn reverse_maps_every_year() {
    let index = reverse_role_year_pairs(&example_pairs());
    assert_eq!(index.len(), 3);
    assert_eq!(index.get(&2006).map(|r| r.as_str()), Some("Vintage"));
    assert_eq!(index.get(&2020).map(|r| r.as_str()), Some("Modern"));
    assert_eq!(index.get(&2015), None);
}

#[test]
fn reverse_later_entry_wins_on_shared_year() {
    let pairs = vec![(s("Old"), vec![2010]), (s("New"), vec![2010, 2011])];
    let index = reverse_role_year_pairs(&pairs);
    assert_eq!(index.get(&2010).map(|r| r.as_str()), Some("New"));
}

#[test]
fn reverse_of_empty_is_empty() {
    let index = reverse_role_year_pairs(&Vec::new());
    assert!(index.is_empty());
}

#[test]
fn lookup_resolves_every_required_name() {
    let lookup = generate_role_id_lookup(&group_roles(), &vec![s("Guest")], &example_pairs(), &s("Member"));
    let lookup = match lookup {
        Ok(l) => l,
        Err(_) => panic!("all roles exist"),
    };
    assert_eq!(lookup.get(&s("Guest")), Some(11));
    assert_eq!(lookup.get(&s("Member")), Some(22));
    assert_eq!(lookup.get(&s("Vintage")), Some(33));
    assert_eq!(lookup.get(&s("Modern")), Some(44));
    assert_eq!(lookup.get(&s("Champion")), None);
}

#[test]
fn missing_role_is_reported() {
    let r = generate_role_id_lookup(&group_roles(), &vec![s("Guest"), s("Champion")], &example_pairs(), &s("Member"));
    assert!(matches!(r, Err(Error::RoleNotFound(n)) if n == "Champion"));
}

#[test]
fn first_missing_role_in_order_is_reported() {
    let pairs = vec![(s("Ancient"), vec![2005])];
    let r = generate_role_id_lookup(&group_roles(), &vec![s("Guest")], &pairs, &s("Nobody"));
    assert!(matches!(r, Err(Error::RoleNotFound(n)) if n == "Ancient"));
    let r = generate_role_id_lookup(&group_roles(), &vec![s("Guest")], &example_pairs(), &s("Nobody"));
    assert!(matches!(r, Err(Error::RoleNotFound(n)) if n == "Nobody"));
}

#[test]
fn required_names_are_in_resolution_order() {
    let names = required_role_names(&vec![s("Guest")], &example_pairs(), &s("Member"));
    assert_eq!(names, vec![s("Guest"), s("Vintage"), s("Modern"), s("Member")]);
}

#[test]
fn find_role_id_takes_first_match() {
    let roles = vec![GroupRole { id: 1, name: s("A") }, GroupRole { id: 2, name: s("A") }];
    assert_eq!(find_role_id(&roles, &s("A")), Some(1));
    assert_eq!(find_role_id(&roles, &s("a")), None);
}

#[test]
fn role_assignment_gives_name_and_id() {
    let index = reverse_role_year_pairs(&example_pairs());
    let lookup = match generate_role_id_lookup(&group_roles(), &vec![], &example_pairs(), &s("Member")) {
        Ok(l) => l,
        Err(_) => panic!("all roles exist"),
    };
    assert!(matches!(role_assignment(&index, &lookup, &s("Member"), 2007), Ok((n, 33)) if n == "Vintage"));
    assert!(matches!(role_assignment(&index, &lookup, &s("Member"), 1999), Ok((n, 22)) if n == "Member"));
    assert!(matches!(role_assignment(&index, &lookup, &s("Ghost"), 1999), Err(Error::RoleNotFound(n)) if n == "Ghost"));
}

#[test]
fn year_is_read_from_timestamp() {
    assert_eq!(year_from_timestamp(&s("2006-03-01T00:00:00Z")), Some(2006));
    assert_eq!(year_from_timestamp(&s("1999")), Some(1999));
    assert_eq!(year_from_timestamp(&s("0042-01-01")), Some(42));
    assert_eq!(year_from_timestamp(&s("200")), None);
    assert_eq!(year_from_timestamp(&s("20x6-01-01")), None);
    assert_eq!(year_from_timestamp(&s("")), None);
}

#[test]
fn assigner_code_26_is_success_at_once() {
    let mut a = RoleAssigner::new();
    let step = a.on_response(Err(ApiFailure::from_error_code(26)));
    assert!(matches!(step, Step::Done(())));
    assert_eq!(a.retry.attempts_remaining, SET_ROLE_ATTEMPTS);
}

#[test]
fn assigner_idempotent_twice() {
    for _ in 0..2 {
        let mut a = RoleAssigner::new();
        assert!(matches!(a.on_response(Err(ApiFailure::KnownIdempotentConflict(26))), Step::Done(())));
    }
    let mut a = RoleAssigner::new();
    assert!(matches!(a.on_response(Ok(())), Step::Done(())));
}

#[test]
fn other_error_codes_are_plain_failures() {
    assert!(matches!(ApiFailure::from_error_code(25), ApiFailure::Other));
    assert!(matches!(ApiFailure::from_error_code(26), ApiFailure::KnownIdempotentConflict(26)));
}

#[test]
fn assigner_invalid_credential_aborts() {
    let mut a = RoleAssigner::new();
    assert!(matches!(a.on_response(Err(ApiFailure::InvalidCredential)), Step::Abort));
}

#[test]
fn assigner_gives_up_after_budget() {
    let mut a = RoleAssigner::new();
    for _ in 0..4 {
        assert!(matches!(a.on_response(Err(ApiFailure::Other)), Step::Retry));
    }
    let step = a.on_response(Err(ApiFailure::Other));
    assert!(matches!(step, Step::Fail(Error::EndpointExceededRetryLimit(n)) if n == "Set group member role"));
}

#[test]
fn assigner_rate_limit_waits() {
    let mut a = RoleAssigner::new();
    assert!(matches!(a.on_response(Err(ApiFailure::RateLimited)), Step::Wait(60)));
}

#[test]
fn classifier_four_rate_limits_then_success() {
    let mut c = AgeClassifier::new();
    let mut waits = 0;
    for _ in 0..4 {
        match c.on_response(Err(ApiFailure::RateLimited)) {
            Step::Wait(secs) => {
                assert_eq!(secs, COOLDOWN_SECS);
                waits += 1;
            }
            _ => panic!("a rate limit waits"),
        }
    }
    assert_eq!(waits, 4);
    assert!(matches!(c.on_response(Ok(s("2011-05-05T10:00:00Z"))), Step::Done(2011)));
}

#[test]
fn classifier_k_failures_then_success() {
    for k in 0..ACCOUNT_AGE_ATTEMPTS {
        let mut c = AgeClassifier::new();
        for _ in 0..k {
            assert!(matches!(c.on_response(Err(ApiFailure::Other)), Step::Retry));
        }
        assert!(matches!(c.on_response(Ok(s("2008-01-01"))), Step::Done(2008)));
    }
}

#[test]
fn classifier_five_failures_fail() {
    let mut c = AgeClassifier::new();
    for _ in 0..4 {
        assert!(matches!(c.on_response(Err(ApiFailure::InvalidCredential)), Step::Retry));
    }
    let step = c.on_response(Err(ApiFailure::RateLimited));
    assert!(matches!(step, Step::Fail(Error::EndpointExceededRetryLimit(n)) if n == "Account age"));
}

#[test]
fn classifier_malformed_timestamp_fails() {
    let mut c = AgeClassifier::new();
    assert!(matches!(c.on_response(Ok(s("n/a"))), Step::Fail(Error::MalformedCreationTimestamp(t)) if t == "n/a"));
}

#[test]
fn retry_state_counts_down() {
    let mut r = RetryState::new(2);
    assert!(matches!(r.on_failure(FailureHandling::Retry { cooldown: false }), RetryAction::RetryNow));
    assert_eq!(r.attempts_remaining, 1);
    assert!(matches!(r.on_failure(FailureHandling::Retry { cooldown: true }), RetryAction::GiveUp));
    assert_eq!(r.attempts_remaining, 0);
    let mut r = RetryState::new(3);
    assert!(matches!(r.on_failure(FailureHandling::Retry { cooldown: true }), RetryAction::CooldownThenRetry(60)));
    assert!(matches!(r.on_failure(FailureHandling::TreatAsSuccess), RetryAction::Succeed));
    assert!(matches!(r.on_failure(FailureHandling::Abort), RetryAction::Abort));
    assert_eq!(r.attempts_remaining, 2);
}

#[test]
fn pager_empty_page_ends_even_with_cursor() {
    let mut p = MemberPager::new(7, 8);
    assert_eq!(p.cursor(), None);
    let ids = p.accept_page(vec![], Some(s("abc")));
    assert!(ids.is_empty());
    assert!(p.is_finished());
}

#[test]
fn pager_last_page_without_cursor_yields_then_ends() {
    let mut p = MemberPager::new(7, 8);
    let ids = p.accept_page(vec![1, 2, 3], Some(s("next")));
    assert_eq!(ids, vec![1, 2, 3]);
    assert!(!p.is_finished());
    assert_eq!(p.cursor(), Some(s("next")));
    assert!(matches!(&p.state, PagerState::At(c) if c == "next"));
    let ids = p.accept_page(vec![4], None);
    assert_eq!(ids, vec![4]);
    assert!(p.is_finished());
    assert!(p.accept_page(vec![5], Some(s("more"))).is_empty());
    assert!(p.is_finished());
    assert_eq!(PAGE_LIMIT, 100);
}

#[test]
fn pager_for_role_resolves_the_role() {
    let lookup = match generate_role_id_lookup(&group_roles(), &vec![s("Guest")], &example_pairs(), &s("Member")) {
        Ok(l) => l,
        Err(_) => panic!("all roles exist"),
    };
    let p = match MemberPager::for_role(&lookup, 5, &s("Vintage")) {
        Ok(p) => p,
        Err(_) => panic!("Vintage was resolved"),
    };
    assert_eq!((p.group_id, p.role_id), (5, 33));
    assert!(matches!(p.state, PagerState::Start));
    assert!(matches!(MemberPager::for_role(&lookup, 5, &s("Champion")), Err(Error::RoleNotFound(n)) if n == "Champion"));
}
