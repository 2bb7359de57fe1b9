//! Who may connect, and how many connections each may hold.

use sentinelld::ipc::client_auth::{
    active_console_session, authorize_pipe_client, decide, ClientIdentity, Decision,
};
use sentinelld::ipc::fairness::{
    PrincipalQuota, MAX_CONNECTIONS_PER_PRINCIPAL, MAX_CONNECTIONS_UNIDENTIFIED,
};

fn id(sid: &str, session: u32, elevated: bool) -> ClientIdentity {
    ClientIdentity::from_token(sid.to_string(), session, elevated, false)
}

fn user(sid: &str) -> ClientIdentity {
    id(sid, 1, false)
}

#[test]
fn anonymous_sid_denied() {
    assert_eq!(
        decide(&id("S-1-5-7", 1, false), Some(1)),
        Decision::Deny("anonymous/null SID")
    );
    assert_eq!(
        decide(&id("S-1-0-0", 1, false), Some(1)),
        Decision::Deny("anonymous/null SID")
    );
}

#[test]
fn system_and_elevated_always_allowed() {
    assert_eq!(decide(&id("S-1-5-18", 0, false), Some(1)), Decision::Allow);
    assert_eq!(
        decide(&id("S-1-5-21-1-2-3-1001", 2, true), Some(1)),
        Decision::Allow
    );
}

#[test]
fn interactive_console_user_allowed() {
    assert_eq!(
        decide(&id("S-1-5-21-1-2-3-1001", 1, false), Some(1)),
        Decision::Allow
    );
}

#[test]
fn unprivileged_non_console_session_denied() {
    assert_eq!(
        decide(&id("S-1-5-21-9-9-9-1055", 2, false), Some(1)),
        Decision::Deny("unprivileged caller in a non-console session")
    );
    assert_eq!(
        decide(&id("S-1-5-21-9-9-9-1055", 0, false), Some(1)),
        Decision::Deny("unprivileged caller in a non-console session")
    );
}

#[test]
fn unknown_console_session_fails_open() {
    assert_eq!(
        decide(&id("S-1-5-21-1-2-3-1001", 3, false), None),
        Decision::Allow
    );
}

#[test]
fn unresolved_client_is_let_in() {
    assert!(authorize_pipe_client(None, Some(1)));
    assert!(!authorize_pipe_client(Some(&id("S-1-5-7", 1, false)), Some(1)));
    assert_eq!(active_console_session(u32::MAX), None);
    assert_eq!(active_console_session(2), Some(2));
}

#[test]
fn principal_capped_at_max() {
    let mut q = PrincipalQuota::new();
    let alice = user("S-1-5-21-1-2-3-1001");
    let mut held = Vec::new();
    for _ in 0..MAX_CONNECTIONS_PER_PRINCIPAL {
        held.push(q.try_acquire(Some(&alice)).expect("under cap"));
    }
    assert!(
        q.try_acquire(Some(&alice)).is_none(),
        "connection #{} for one SID must be shed",
        MAX_CONNECTIONS_PER_PRINCIPAL + 1
    );
    assert_eq!(q.held(Some(&alice)), MAX_CONNECTIONS_PER_PRINCIPAL);
}

#[test]
fn over_cap_shed_does_not_corrupt_accounting() {
    let mut q = PrincipalQuota::new();
    let alice = user("S-1-5-21-1-2-3-1001");
    let mut held = Vec::new();
    for _ in 0..MAX_CONNECTIONS_PER_PRINCIPAL {
        held.push(q.try_acquire(Some(&alice)).unwrap());
    }
    assert!(q.try_acquire(Some(&alice)).is_none());
    assert!(q.try_acquire(Some(&alice)).is_none());
    assert_eq!(q.held(Some(&alice)), MAX_CONNECTIONS_PER_PRINCIPAL);
    for permit in held {
        q.release(permit);
    }
    assert_eq!(q.held(Some(&alice)), 0);
    assert!(q.try_acquire(Some(&alice)).is_some());
}

#[test]
fn principals_are_independent() {
    let mut q = PrincipalQuota::new();
    let alice = user("S-1-5-21-1-2-3-1001");
    let bob = user("S-1-5-21-9-9-9-1055");
    let mut flood = Vec::new();
    for _ in 0..MAX_CONNECTIONS_PER_PRINCIPAL {
        flood.push(q.try_acquire(Some(&alice)).unwrap());
    }
    assert!(q.try_acquire(Some(&alice)).is_none());
    assert!(
        q.try_acquire(Some(&bob)).is_some(),
        "a second principal must still get service while the first is capped"
    );
}

#[test]
fn drop_releases_and_entry_is_removed() {
    let mut q = PrincipalQuota::new();
    let alice = user("S-1-5-21-1-2-3-1001");
    let p = q.try_acquire(Some(&alice)).unwrap();
    assert_eq!(q.held(Some(&alice)), 1);
    assert_eq!(q.distinct_principals(), 1);
    q.release(p);
    assert_eq!(q.held(Some(&alice)), 0);
    assert_eq!(q.distinct_principals(), 0);
}

#[test]
fn unidentified_bucket_is_shared_and_capped() {
    let mut q = PrincipalQuota::new();
    let mut held = Vec::new();
    for _ in 0..MAX_CONNECTIONS_UNIDENTIFIED {
        held.push(q.try_acquire(None).expect("under unidentified cap"));
    }
    assert!(
        q.try_acquire(None).is_none(),
        "the fail-open bucket must have its own cap, not be a bypass"
    );
    assert_eq!(q.held(None), MAX_CONNECTIONS_UNIDENTIFIED);
    for permit in held {
        q.release(permit);
    }
    assert_eq!(q.held(None), 0);
}

#[test]
fn unidentified_bucket_does_not_starve_identified_principals() {
    let mut q = PrincipalQuota::new();
    let alice = user("S-1-5-21-1-2-3-1001");
    let mut flood = Vec::new();
    for _ in 0..MAX_CONNECTIONS_UNIDENTIFIED {
        flood.push(q.try_acquire(None).unwrap());
    }
    assert!(q.try_acquire(None).is_none());
    assert!(q.try_acquire(Some(&alice)).is_some());
}

#[test]
fn cap_constants_keep_global_budget_plausible() {
    assert!(2 * MAX_CONNECTIONS_PER_PRINCIPAL + MAX_CONNECTIONS_UNIDENTIFIED <= 64);
}
