//! Method policies and rate limits.

use sentinelld::ipc::client_auth::ClientIdentity;
use sentinelld::ipc::policy::{
    method_registry, MethodClass, MethodPolicy, MethodRegistry, RateBucket,
};
use sentinelld::ipc::rate::{RateLimiter, MAX_PRINCIPAL_ENTRIES};

const SECOND: u64 = 1_000_000_000;
const T0: u64 = 1_000 * SECOND;

fn policy(reg: &MethodRegistry, method: &str) -> MethodPolicy {
    reg.get(method).expect("registered")
}

fn sid(s: &str) -> ClientIdentity {
    ClientIdentity::from_token(s.to_string(), 1, false, false)
}

#[test]
fn registry_covers_all_methods() {
    let reg = method_registry();
    assert!(reg.len() >= 35, "expected at least 35 methods, got {}", reg.len());
    assert!(reg.contains_key("health"));
    assert!(reg.contains_key("scan.start"));
    assert!(reg.contains_key("idle_scanner.status"));
    assert!(reg.contains_key("runtime.scan_buffer"));
    assert!(reg.contains_key("quarantine.delete"));
    assert!(reg.contains_key("sources.set"));
    assert!(!reg.contains_key("no.such.method"));
    assert!(reg.get("no.such.method").is_none());
}

#[test]
fn public_methods_no_auth() {
    let reg = method_registry();
    let health = policy(&reg, "health");
    assert_eq!(health.class, MethodClass::PublicStatus);
    assert!(health.allowed_while_reloading);
    assert!(health.allowed_while_degraded);
}

#[test]
fn dangerous_methods_audit_logged() {
    let reg = method_registry();
    for method in ["quarantine.restore", "quarantine.delete", "quarantine.restore_as"] {
        let policy = policy(&reg, method);
        assert_eq!(policy.class, MethodClass::DangerousOperation);
        assert!(policy.audit_log);
    }
}

#[test]
fn webprotection_status_is_registered_and_authenticated() {
    let reg = method_registry();
    let p = reg.get("webprotection.status").expect("registered");
    assert_eq!(p.class, MethodClass::AuthenticatedRead);
    assert_eq!(p.rate_bucket, RateBucket::Status);
    assert!(p.allowed_while_reloading);
    assert!(p.allowed_while_degraded);
}

#[test]
fn dev_mode_methods_registered() {
    let reg = method_registry();
    let status = policy(&reg, "dev.status");
    assert_eq!(status.class, MethodClass::AuthenticatedRead);
    assert!(status.allowed_while_reloading);
    let toggle = policy(&reg, "dev.set_developer_mode");
    assert_eq!(toggle.class, MethodClass::AuthenticatedAction);
    assert!(toggle.audit_log);
    assert_eq!(toggle.rate_bucket, RateBucket::ConfigMutation);
    let bench = policy(&reg, "benchmark.run");
    assert_eq!(bench.class, MethodClass::AuthenticatedAction);
    assert_eq!(bench.rate_bucket, RateBucket::DiagnosticsExport);
    assert!(!bench.allowed_while_reloading);
}

#[test]
fn privileged_mutations_challenge_required() {
    let reg = method_registry();
    for method in ["settings.set", "sources.set", "protection.disable"] {
        let policy = policy(&reg, method);
        assert!(matches!(policy.class, MethodClass::PrivilegedMutation));
    }
}

#[test]
fn payload_limits_sane() {
    let reg = method_registry();
    assert!(policy(&reg, "health").max_payload_bytes <= 1024);
    assert!(policy(&reg, "settings.set").max_payload_bytes <= 32768);
    assert!(policy(&reg, "diagnostics.export").max_payload_bytes <= 4096);
}

#[test]
fn reloading_blocks_mutations() {
    let reg = method_registry();
    assert!(!policy(&reg, "scan.start").allowed_while_reloading);
    assert!(!policy(&reg, "sources.set").allowed_while_reloading);
    assert!(policy(&reg, "health").allowed_while_reloading);
    assert!(policy(&reg, "scan.status").allowed_while_reloading);
}

#[test]
fn rate_limiter_allows_burst() {
    let mut limiter = RateLimiter::new(T0);
    for _ in 0..4 {
        assert!(limiter.check(RateBucket::QuarantineOps, None, T0).is_ok());
    }
}

#[test]
fn rate_limiter_blocks_excess() {
    let mut limiter = RateLimiter::new(T0);
    assert!(limiter.check(RateBucket::SourcesMutation, None, T0).is_ok());
    assert!(limiter.check(RateBucket::SourcesMutation, None, T0).is_ok());
    assert!(limiter.check(RateBucket::SourcesMutation, None, T0).is_err());
}

#[test]
fn rate_limiter_never_underflows() {
    let mut limiter = RateLimiter::new(T0);
    assert!(limiter.check(RateBucket::SourcesMutation, None, T0).is_ok());
    assert!(limiter.check(RateBucket::SourcesMutation, None, T0).is_ok());
    for _ in 0..10 {
        assert!(limiter.check(RateBucket::SourcesMutation, None, T0).is_err());
    }
    assert_eq!(limiter.tokens(RateBucket::SourcesMutation), 0);
}

#[test]
fn rate_limiter_unlimited_never_blocks() {
    let mut limiter = RateLimiter::new(T0);
    for _ in 0..100 {
        assert!(limiter.check(RateBucket::Unlimited, None, T0).is_ok());
    }
}

#[test]
fn rate_limiter_preserves_sub_token_remainder() {
    let mut limiter = RateLimiter::new(T0);
    // Drain the bucket (10 per minute: one token in six seconds), the share of one
    // principal first and then the rest with others.
    for _ in 0..10 {
        let _ = limiter.check(RateBucket::ConfigMutation, None, T0);
    }
    for i in 0..10 {
        let p = sid(&format!("S-1-5-21-1-2-3-{i}"));
        let _ = limiter.check(RateBucket::ConfigMutation, Some(&p), T0);
    }
    assert_eq!(limiter.tokens(RateBucket::ConfigMutation), 0);
    assert_eq!(limiter.last_refill(RateBucket::ConfigMutation), T0);
    // Six and a half seconds later a principal with a fresh share asks.
    let now = T0 + 6 * SECOND + SECOND / 2;
    let probe = sid("S-1-5-21-1-2-3-999");
    assert!(limiter.check(RateBucket::ConfigMutation, Some(&probe), now).is_ok());
    // The half second that made no whole token is kept.
    let remainder = now - limiter.last_refill(RateBucket::ConfigMutation);
    assert!(remainder >= SECOND / 5, "sub-token remainder lost: {remainder}");
    assert!(remainder <= SECOND * 3 / 2, "remainder unexpectedly large: {remainder}");
    assert_eq!(remainder, SECOND / 2);
}

#[test]
fn scancontrol_one_principal_cannot_starve_another() {
    let mut limiter = RateLimiter::new(T0);
    let flooder = sid("S-1-5-21-1-2-3-1100");
    let victim = sid("S-1-5-21-1-2-3-1200");

    let mut accepted = 0;
    for _ in 0..20 {
        if limiter.check(RateBucket::ScanControl, Some(&flooder), T0).is_ok() {
            accepted += 1;
        }
    }
    assert_eq!(
        accepted, 2,
        "flooder must be capped at its per-principal burst (2), not the global burst (3)"
    );
    assert_eq!(
        limiter.tokens(RateBucket::ScanControl),
        1,
        "one cold-start global token is reserved for other principals"
    );
    assert!(
        limiter.check(RateBucket::ScanControl, Some(&victim), T0).is_ok(),
        "second principal must be served while the first is capped"
    );
}

#[test]
fn two_principals_split_steady_state() {
    let mut limiter = RateLimiter::new(T0);
    let flooder = sid("S-1-5-21-1-2-3-1100");
    let victim = sid("S-1-5-21-1-2-3-1200");
    while limiter.check(RateBucket::ScanControl, Some(&flooder), T0).is_ok() {}
    while limiter.check(RateBucket::ScanControl, Some(&victim), T0).is_ok() {}

    for round in 0..3u64 {
        let now = T0 + (round + 1) * 12 * SECOND;
        assert!(
            limiter.check(RateBucket::ScanControl, Some(&flooder), now).is_ok(),
            "round {round}: flooder share"
        );
        assert!(
            limiter.check(RateBucket::ScanControl, Some(&flooder), now).is_err(),
            "round {round}: flooder beyond share must be rejected"
        );
        assert!(
            limiter.check(RateBucket::ScanControl, Some(&victim), now).is_ok(),
            "round {round}: victim must be served every window"
        );
    }
}

#[test]
fn rejected_requests_consume_no_tokens() {
    let mut limiter = RateLimiter::new(T0);
    let flooder = sid("S-1-5-21-1-2-3-1100");
    while limiter.check(RateBucket::ScanControl, Some(&flooder), T0).is_ok() {}
    let before = limiter.tokens(RateBucket::ScanControl);
    for _ in 0..50 {
        assert!(limiter.check(RateBucket::ScanControl, Some(&flooder), T0).is_err());
    }
    assert_eq!(
        limiter.tokens(RateBucket::ScanControl),
        before,
        "50 rejected requests must not move the global token count"
    );
}

#[test]
fn retry_after_reflects_per_principal_rate() {
    let mut limiter = RateLimiter::new(T0);
    let flooder = sid("S-1-5-21-1-2-3-1100");
    while limiter.check(RateBucket::ScanControl, Some(&flooder), T0).is_ok() {}
    assert_eq!(limiter.check(RateBucket::ScanControl, Some(&flooder), T0), Err(12));
}

#[test]
fn global_ceiling_unchanged_across_many_principals() {
    let mut limiter = RateLimiter::new(T0);
    let mut accepted = 0;
    for i in 0..10 {
        let p = sid(&format!("S-1-5-21-1-2-3-{}", 2000 + i));
        if limiter.check(RateBucket::ScanControl, Some(&p), T0).is_ok() {
            accepted += 1;
        }
    }
    assert_eq!(accepted, 3, "global burst (3) remains the ceiling");
}

#[test]
fn unidentified_bucket_is_shared_and_conservative() {
    let mut limiter = RateLimiter::new(T0);
    assert!(limiter.check(RateBucket::ScanControl, None, T0).is_ok());
    assert!(limiter.check(RateBucket::ScanControl, None, T0).is_ok());
    assert!(
        limiter.check(RateBucket::ScanControl, None, T0).is_err(),
        "the shared unidentified bucket must be capped at the per-principal burst"
    );
    let alice = sid("S-1-5-21-1-2-3-1001");
    assert!(limiter.check(RateBucket::ScanControl, Some(&alice), T0).is_ok());
}

#[test]
fn principal_state_bounded_with_lru_eviction() {
    let mut limiter = RateLimiter::new(T0);
    for i in 0..(MAX_PRINCIPAL_ENTRIES + 20) {
        let p = sid(&format!("S-1-5-21-9-9-9-{}", i));
        assert!(limiter.check(RateBucket::ScanControl, Some(&p), T0).is_ok() || i >= 3);
    }
    let len = limiter.principal_entries();
    assert!(
        len <= MAX_PRINCIPAL_ENTRIES,
        "principal map must stay bounded: {len} > {MAX_PRINCIPAL_ENTRIES}"
    );
}

#[test]
fn per_principal_does_not_tighten_other_buckets() {
    let mut limiter = RateLimiter::new(T0);
    let p = sid("S-1-5-21-1-2-3-1001");
    while limiter.check(RateBucket::ScanControl, Some(&p), T0).is_ok() {}
    assert!(limiter.check(RateBucket::ScanControl, Some(&p), T0).is_err());
    for _ in 0..4 {
        assert!(limiter.check(RateBucket::QuarantineOps, Some(&p), T0).is_ok());
    }
}

#[test]
fn status_per_principal_fits_dashboard_baseline() {
    let mut limiter = RateLimiter::new(T0);
    let gui = sid("S-1-5-21-1-2-3-1001");
    while limiter.check(RateBucket::Status, Some(&gui), T0).is_ok() {}
    let mut now = T0 + 60 * SECOND;
    let mut ok = 0;
    for wave in 0..3 {
        if wave > 0 {
            now += 20 * SECOND;
        }
        for _ in 0..36 {
            if limiter.check(RateBucket::Status, Some(&gui), now).is_ok() {
                ok += 1;
            }
        }
    }
    assert_eq!(ok, 108, "dashboard's 108/min from one SID must fit");
}

#[test]
fn first_party_is_held_to_the_global_layer_alone() {
    let mut limiter = RateLimiter::new(T0);
    let gui = ClientIdentity::from_token("S-1-5-21-1-2-3-1001".to_string(), 1, false, true);
    let mut accepted = 0;
    for _ in 0..20 {
        if limiter.check(RateBucket::ScanControl, Some(&gui), T0).is_ok() {
            accepted += 1;
        }
    }
    assert_eq!(accepted, 3);
    assert_eq!(limiter.principal_entries(), 0);
}
