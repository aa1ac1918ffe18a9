use classics_ranking_bot::{Action, ApiFailure, Error, Event, GroupRole, Request, SyncRun};

fn s(x: &str) -> String {
    x.to_string()
}

fn roles() -> Vec<GroupRole> {
    vec![
        GroupRole { id: 11, name: s("Guest") },
        GroupRole { id: 22, name: s("Member") },
        GroupRole { id: 33, name: s("Vintage") },
        GroupRole { id: 44, name: s("Modern") },
    ]
}

fn new_run(scanned: Vec<String>) -> SyncRun {
    let pairs = vec![(s("Vintage"), vec![2006, 2007]), (s("Modern"), vec![2020])];
    let (run, action) = SyncRun::new(9, scanned, pairs, s("Member"));
    assert!(matches!(action, Action::Call(Request::GroupRoles { group_id: 9 })));
    run
}

#[test]
fn run_fails_on_missing_role_before_paging() {
    let mut run = new_run(vec![s("Guest"), s("Champion")]);
    let (assigned, action) = run.on_event(Event::Roles(roles()));
    assert!(assigned.is_none());
    assert!(matches!(action, Action::Fail(Error::RoleNotFound(n)) if n == "Champion"));
    assert!(!run.is_awaiting(&Event::Page(vec![1], None)));
}

#[test]
fn run_assigns_by_year_then_wildcard() {
    let mut run = new_run(vec![s("Guest")]);
    let (_, action) = run.on_event(Event::Roles(roles()));
    assert!(matches!(action, Action::Call(Request::Members { group_id: 9, role_id: 11, cursor: None })));

    let (_, action) = run.on_event(Event::Page(vec![1, 2], None));
    assert!(matches!(action, Action::Call(Request::UserDetails { user_id: 1 })));

    let (_, action) = run.on_event(Event::Details(Err(ApiFailure::RateLimited)));
    assert!(matches!(action, Action::WaitThenCall(60, Request::UserDetails { user_id: 1 })));

    let (_, action) = run.on_event(Event::Details(Ok(s("2006-04-01T00:00:00Z"))));
    assert!(matches!(action, Action::Call(Request::SetRole { group_id: 9, user_id: 1, role_id: 33 })));

    let (assigned, action) = run.on_event(Event::RoleSet(Ok(())));
    let a = assigned.expect("assignment is reported");
    assert_eq!((a.role.as_str(), a.user_id, a.year), ("Vintage", 1, 2006));
    assert!(matches!(action, Action::Call(Request::UserDetails { user_id: 2 })));

    let (_, action) = run.on_event(Event::Details(Ok(s("2015-01-01"))));
    assert!(matches!(action, Action::Call(Request::SetRole { user_id: 2, role_id: 22, .. })));

    let (_, action) = run.on_event(Event::RoleSet(Err(ApiFailure::Other)));
    assert!(matches!(action, Action::Call(Request::SetRole { user_id: 2, role_id: 22, .. })));

    let (assigned, action) = run.on_event(Event::RoleSet(Err(ApiFailure::from_error_code(26))));
    let a = assigned.expect("already holding the role is success");
    assert_eq!((a.role.as_str(), a.user_id, a.year), ("Member", 2, 2015));
    assert!(matches!(action, Action::Finish));
}

#[test]
fn run_empty_page_moves_to_next_role() {
    let mut run = new_run(vec![s("Guest"), s("Modern")]);
    let _ = run.on_event(Event::Roles(roles()));
    let (_, action) = run.on_event(Event::Page(vec![], Some(s("cursor"))));
    assert!(matches!(action, Action::Call(Request::Members { role_id: 44, cursor: None, .. })));
    let (_, action) = run.on_event(Event::Page(vec![5], Some(s("c2"))));
    assert!(matches!(action, Action::Call(Request::UserDetails { user_id: 5 })));
    let _ = run.on_event(Event::Details(Ok(s("2020-02-02"))));
    let (assigned, action) = run.on_event(Event::RoleSet(Ok(())));
    assert_eq!(assigned.map(|a| a.role), Some(s("Modern")));
    assert!(matches!(&action, Action::Call(Request::Members { role_id: 44, cursor: Some(c), .. }) if c == "c2"));
    let (_, action) = run.on_event(Event::Page(vec![], None));
    assert!(matches!(action, Action::Finish));
}

#[test]
fn run_aborts_on_invalid_credential_and_listing_failure() {
    let mut run = new_run(vec![s("Guest")]);
    let _ = run.on_event(Event::Roles(roles()));
    let _ = run.on_event(Event::Page(vec![3], None));
    let _ = run.on_event(Event::Details(Ok(s("2007-07-07"))));
    let (assigned, action) = run.on_event(Event::RoleSet(Err(ApiFailure::InvalidCredential)));
    assert!(assigned.is_none());
    assert!(matches!(action, Action::Abort));

    let mut run = new_run(vec![s("Guest")]);
    let (_, action) = run.on_event(Event::ListingFailed);
    assert!(matches!(action, Action::Abort));
}

#[test]
fn run_with_no_scanned_roles_finishes() {
    let mut run = new_run(vec![]);
    let (_, action) = run.on_event(Event::Roles(roles()));
    assert!(matches!(action, Action::Finish));
}
