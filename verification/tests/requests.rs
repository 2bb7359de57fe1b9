//! Requests from the frame to the answer.

use sentinelld::config::PerformanceConfig;
use sentinelld::ipc::auth::{
    adopt_stored_secret, choose_ipc_secret, constant_time_eq, generate_ipc_secret, hex_text,
    new_scan_id, settle_new_secret, ChallengeSlot, CreateOutcome, SecretSource, SecretStep, NANOS_PER_SEC,
};
use sentinelld::ipc::critical::{
    check_entry, check_worker_path, is_dangerous_path, is_hex64_lower, read_critical, set_critical,
    CriticalConfig, CriticalOutcome, ListKind, Toggle,
};
use sentinelld::ipc::dispatch::{
    check_scan_target, clamp_passes, is_challengeable_method, Action, Outcome,
    INSUFFICIENT_PRIVILEGE, INVALID_PARAMS, METHOD_NOT_FOUND,
};
use sentinelld::ipc::events::{
    argus_reloaded, auto_memory_scan_if_running, total_score, memory_scanned,
    memory_scanned_on_detection, protection_switched, provider_changed, provider_rolled_back,
    provider_updated, recent_errors, settings_changed, yara_message,
};
use sentinelld::activity::ActivityRow;
use sentinelld::engine::CvdVersion;
use sentinelld::footprint::pressure::PressureState;
use sentinelld::footprint::ProcessMemory;
use sentinelld::ipc::frame::{
    after_header, after_payload, check_frame, client_check_disabled, method_too_long, next_backoff,
    response_frame, wants_first_instance, ConnectionStep, FrameCheck, ReadEnd,
};
use sentinelld::ipc::params::{listed_packs, pack_list};
use sentinelld::ipc::policy::{ENGINE_RELOADING, PAYLOAD_TOO_LARGE, RATE_LIMITED};
use sentinelld::ipc::runtime::{
    manual_queue, worker_active_path, CancelAnswer, QueueFacts, RuntimeFacts,
};
use sentinelld::ipc::settings::{
    check_provider, check_provider_update, critical_diff, developer_status, pin_settings, redact,
    reject_critical_changes,
    set_developer_mode, DaemonConfig, DeveloperConfig,
};
use sentinelld::ipc::state::{
    AppState, ArgusStart, CaptureFacts, EngineStart, Startup, StartupTimes,
};
use sentinelld::memory_scanner::regions::untouched;
use sentinelld::memory_scanner::ProcessInfo;
use sentinelld::quarantine::{RestoreEvent, RestoreJob, RestoreStage, RestoreStep};
use sentinelld::resilience::{AfterFailure, ArgusWorker, ExternalReason};
use sentinelld::scan::start::{start_quick_scan, QueueFlags, ScanRoute};
use sentinelld::stats::{ArgusStats, CacheStats};
use serde_json::Value;

const T0: u64 = 1_000 * NANOS_PER_SEC;
const SECRET: &str = "0123456789abcdef0123456789abcdef";

fn developer(password: &str) -> DeveloperConfig {
    DeveloperConfig {
        enabled: false,
        telemetry_enabled: false,
        telemetry_max_kb: 512,
        password_sha256: password.to_string(),
    }
}

fn started(engine: EngineStart<u32>) -> AppState<u32> {
    AppState::new(Startup {
        engine,
        argus: ArgusStart {
            version: "2.1".to_string(),
            active_layers: 11,
            ioc: Some((Some(3), "C:\\ioc.txt".to_string())),
            yara: Ok(5),
            yara_sources: vec!["a".to_string(), "b".to_string()],
        },
        times: StartupTimes { daemon: 1, engine: 2, argus: 3, ioc: 4, yara: 5 },
        directories_known: true,
        secret: Some(SECRET.to_string()),
        developer: developer(""),
        queue: QueueFlags { file: true, folder: true, quick: true, full: true },
        argus_worker: ArgusWorker::new(false, "argusd.exe".to_string(), 30),
        performance: PerformanceConfig::default(),
        total_ram_mb: Some(8192),
        signature_stale_days: Some(3),
        now: T0,
        now_secs: 1_700_000_000,
    })
}

fn daemon() -> AppState<u32> {
    started(EngineStart::Loaded { engine: 7, signatures: 100 })
}

fn params(members: &[(&str, &str)]) -> Value {
    let mut map = serde_json::Map::new();
    for (key, value) in members {
        map.insert(key.to_string(), Value::String(value.to_string()));
    }
    Value::Object(map)
}

fn rejected(outcome: &Outcome<String>) -> (i32, String) {
    match outcome {
        Outcome::Reject { code, message } => (*code, message.clone()),
        _ => panic!("expected an error"),
    }
}

fn facts(working_set_mb: u64) -> CaptureFacts {
    CaptureFacts {
        memory: ProcessMemory { working_set_mb, private_bytes_mb: 1, peak_working_set_mb: 2 },
        yara_rules: 5,
        cache_entries: 6,
        active_workers: 1,
    }
}

#[test]
fn challenge_token_is_bound_to_method_scope() {
    let mut state = daemon();
    let token = state.generate_challenge_token("engine.reload", T0);
    assert!(!token.is_empty(), "issued token must be non-empty");
    assert!(
        !state.validate_challenge_token(&token, "settings.set", T0, 0),
        "token issued for engine.reload must NOT validate against settings.set"
    );
    assert!(!state.validate_challenge_token(&token, "engine.reload", T0, 0));
    let token2 = state.generate_challenge_token("engine.reload", T0);
    assert_ne!(token, token2);
    assert!(
        state.validate_challenge_token(&token2, "engine.reload", T0, 0),
        "token issued for engine.reload must validate against engine.reload"
    );
    assert!(
        !state.validate_challenge_token(&token2, "engine.reload", T0, 0),
        "challenge token must be single-use even on the correct scope"
    );
    let rows = state.activity_list();
    assert_eq!(rows[0].title, "Invalid challenge token — dangerous command rejected");
    assert_eq!(rows[0].message, "engine.reload");
}

#[test]
fn challenge_token_expires() {
    let mut slot = ChallengeSlot::new();
    let token = slot.generate_challenge_token("settings.set", T0);
    assert_eq!(token.len(), 36);
    assert!(!slot.validate_challenge_token(&token, "settings.set", T0 + 60 * NANOS_PER_SEC));
    let token = slot.generate_challenge_token("settings.set", T0);
    assert!(slot.validate_challenge_token(&token, "settings.set", T0 + 60 * NANOS_PER_SEC - 1));
}

#[test]
fn startup_is_logged() {
    let state = daemon();
    assert_eq!(state.signature_stale_hours, 72);
    assert_eq!(state.residency_manager.config.threshold_mb, 350);
    assert_eq!(state.residency_manager.last_reduction_mb, 0);
    let state = daemon();
    let messages: Vec<String> = state.activity.entries.iter().map(|e| e.message.clone()).collect();
    assert_eq!(
        messages,
        vec![
            "Daemon started".to_string(),
            "ClamAV engine loaded — 100 signatures".to_string(),
            "ARGUS heuristics engine v2.1 initialized — 11 layers active".to_string(),
            "IOC database loaded — 3 hash(es)".to_string(),
            "ARGUS YARA engine loaded — 5 behavioral rules compiled".to_string(),
        ]
    );
    assert_eq!(state.activity.entries[4].detail.as_deref(), Some("Rule sources: a, b"));
    assert_eq!(state.performance_config.memory_critical_mb, 2867);
    let failed = started(EngineStart::Failed { error: "no dll".to_string() });
    assert_eq!(failed.activity.entries[1].message, "Engine failed: no dll");
    assert!(failed.engine.engine.is_none());
    let skipped = started(EngineStart::NotConfigured);
    assert_eq!(skipped.engine.last_error.as_deref(), Some("Not configured"));
}

#[test]
fn public_request_is_served() {
    let mut state = daemon();
    let outcome = state.dispatch_sync("engine.status", &params(&[]), None, T0, 0);
    assert!(matches!(outcome, Outcome::Perform(Action::EngineStatus)));
    assert_eq!(state.ipc_total_requests, 1);
    let outcome = state.dispatch_sync("no.such", &params(&[]), None, T0, 0);
    assert_eq!(rejected(&outcome), (METHOD_NOT_FOUND, "unknown method: no.such".to_string()));
}

#[test]
fn secret_is_asked_for() {
    let mut state = daemon();
    let outcome = state.dispatch_sync("scan.start", &params(&[("auth", "wrong")]), None, T0, 0);
    assert_eq!(
        rejected(&outcome),
        (INVALID_PARAMS, "quick scans require IPC authentication".to_string())
    );
    let p = params(&[("auth", SECRET), ("type", "file"), ("target", "C:\\x.exe")]);
    let outcome = state.dispatch_sync("scan.start", &p, None, T0, 0);
    match outcome {
        Outcome::Perform(Action::StartScan { scan_type, target }) => {
            assert_eq!(scan_type, "file");
            assert_eq!(target.as_deref(), Some("C:\\x.exe"));
        }
        _ => panic!("the scan starts"),
    }
    let mut open = daemon();
    open.gate.auth.secret = None;
    assert!(!open.validate_ipc_auth(""));
}

#[test]
fn dangerous_request_takes_a_token() {
    let mut state = daemon();
    let outcome = state.dispatch_sync("quarantine.delete", &params(&[("id", "q1")]), None, T0, 9);
    match outcome {
        Outcome::Refuse { error } => {
            assert_eq!(error, "Challenge token required for quarantine delete");
        }
        _ => panic!("refused"),
    }
    assert_eq!(state.activity_list()[0].category, "security");
    let ask = params(&[("auth", SECRET), ("method", "quarantine.delete")]);
    let outcome = state.dispatch_sync("security.challenge", &ask, None, T0, 0);
    let method = match outcome {
        Outcome::Perform(Action::IssueChallenge { method }) => method,
        _ => panic!("a token is issued"),
    };
    let token = state.generate_challenge_token(&method, T0);
    let p = params(&[("id", "q1"), ("token", token.as_str())]);
    let outcome = state.dispatch_sync("quarantine.delete", &p, None, T0, 0);
    assert!(matches!(outcome, Outcome::Perform(Action::QuarantineDelete { .. })));
    let ask = params(&[("auth", SECRET), ("method", "health")]);
    let outcome = state.dispatch_sync("security.challenge", &ask, None, T0, 0);
    assert_eq!(rejected(&outcome).0, INVALID_PARAMS);
    assert!(is_challengeable_method("protection.disable"));
    assert!(!is_challengeable_method("scan.start"));
}

#[test]
fn missing_token_and_secret_are_refused() {
    let mut state = daemon();
    let token = state.generate_challenge_token("quarantine.delete", T0);
    assert_eq!(token.len(), 36);
    for (i, c) in token.chars().enumerate() {
        match i {
            8 | 13 | 18 | 23 => assert_eq!(c, '-'),
            14 => assert_eq!(c, '4'),
            _ => assert!(c.is_ascii_digit() || ('a'..='f').contains(&c)),
        }
    }
    let outcome = state.dispatch_sync("quarantine.delete", &Value::Null, None, T0, 0);
    assert!(matches!(outcome, Outcome::Refuse { .. }));
    let outcome = state.dispatch_sync("scan.cancel", &Value::Null, None, T0, 0);
    assert_eq!(rejected(&outcome).0, INVALID_PARAMS);
    let id = new_scan_id();
    assert_eq!(id.len(), 36);
    assert_ne!(id, new_scan_id());
}

#[test]
fn packs_are_read_from_the_manifest() {
    let packs = pack_list(Some(r#"{"packs": [{"name": "core"}], "v": 1}"#)).expect("packs");
    assert_eq!(packs.as_array().map(|list| list.len()), Some(1));
    assert_eq!(pack_list(Some(r#"{"v": 1}"#)), None);
    assert_eq!(pack_list(Some("no json")), None);
    assert_eq!(pack_list(None), None);
    let manifest = Some(params(&[("packs", "none")]));
    assert_eq!(listed_packs(&manifest), Some(Value::String("none".to_string())));
}

#[test]
fn policy_comes_first() {
    let mut state = daemon();
    let long = "x".repeat(5000);
    let outcome = state.dispatch_sync("health", &params(&[("pad", long.as_str())]), None, T0, 0);
    let (code, message) = rejected(&outcome);
    assert_eq!(code, PAYLOAD_TOO_LARGE);
    assert_eq!(message, "payload 5010 bytes exceeds limit 512 for health");

    let p = params(&[("auth", SECRET)]);
    assert!(state.reload_engine(5).is_none());
    let outcome = state.dispatch_sync("scan.start", &p, None, T0, 0);
    assert_eq!(
        rejected(&outcome),
        (ENGINE_RELOADING, "engine is reloading — try again shortly".to_string())
    );
    state.finish_reload_engine(
        Ok((8, 200)),
        CvdVersion { version: None, timestamp: None },
        10,
    );
    assert_eq!(state.committed.signature_count, 200);
    let outcome = state.dispatch_sync("scan.start", &p, None, T0, 0);
    assert!(matches!(outcome, Outcome::Perform(_)));
    let outcome = state.dispatch_sync("scan.start", &p, None, T0, 0);
    let (code, message) = rejected(&outcome);
    assert_eq!(code, RATE_LIMITED);
    assert_eq!(message, "rate limited — retry after 12s");
}

#[test]
fn scan_targets_are_local() {
    assert!(check_scan_target("C:\\Users").is_none());
    assert!(check_scan_target("\\\\?\\C:\\very-long-path").is_none());
    for bad in [
        "",
        "\\\\server\\share",
        "//server/share",
        "\\\\?\\UNC\\server\\share",
        "\\\\.\\PHYSICALDRIVE0",
        "\\\\?\\GLOBALROOT\\Device\\X",
        "C:\\a\0b",
    ] {
        assert!(check_scan_target(bad).is_some(), "{bad}");
    }
    assert_eq!(
        check_scan_target(&"a".repeat(4097)).as_deref(),
        Some("target path too long")
    );
}

#[test]
fn gui_events_are_marked_as_such() {
    let mut state = daemon();
    let p = params(&[
        ("auth", SECRET),
        ("severity", "critical"),
        ("category", "security"),
        ("title", "CRITICAL"),
        ("message", "m"),
    ]);
    match state.dispatch_sync("activity.log", &p, None, T0, 0) {
        Outcome::Perform(Action::ActivityLog { severity, category, title, message }) => {
            assert_eq!(severity, "info");
            assert_eq!(category, "gui:security");
            assert_eq!(title, "[gui] CRITICAL");
            assert_eq!(message, "m");
        }
        _ => panic!("the event is logged"),
    }
}

#[test]
fn benchmark_takes_developer_mode() {
    let mut state = daemon();
    let p = params(&[("auth", SECRET)]);
    let outcome = state.dispatch_sync("benchmark.run", &p, None, T0, 0);
    assert_eq!(rejected(&outcome).1, "benchmark requires developer mode");
    let mut config = developer("hash");
    config.enabled = true;
    state.load_developer_config(config);
    assert!(state.developer_config().enabled);
    let outcome = state.dispatch_sync("benchmark.run", &p, None, T0, 0);
    assert!(matches!(outcome, Outcome::Perform(Action::Benchmark { passes: 3 })));
    assert_eq!(clamp_passes(Some(0)), 1);
    assert_eq!(clamp_passes(Some(99)), 10);
}

#[test]
fn frames_are_checked() {
    assert!(matches!(check_frame(&[0, 0, 0, 1]), FrameCheck::TooSmall));
    assert!(matches!(check_frame(&[0, 0, 0, 2]), FrameCheck::Accept(2)));
    assert!(matches!(check_frame(&[1, 0, 0, 0]), FrameCheck::Accept(16_777_216)));
    assert!(matches!(check_frame(&[1, 0, 0, 1]), FrameCheck::TooLarge));
    assert_eq!(response_frame(b"{}"), vec![0, 0, 0, 2, b'{', b'}']);
    let fallback = response_frame(&[]);
    assert_eq!(fallback.len(), 4 + 89);
    assert!(String::from_utf8_lossy(&fallback).contains("internal serialization error"));
    assert!(!method_too_long(&"m".repeat(64)));
    assert!(method_too_long(&"m".repeat(65)));
    assert_eq!(after_header(ReadEnd::TimedOut), ConnectionStep::Close);
    assert_eq!(after_payload(ReadEnd::Complete), ConnectionStep::Proceed);
    assert!(wants_first_instance(9));
    assert!(!wants_first_instance(10));
    assert_eq!(next_backoff(100), 200);
    assert_eq!(next_backoff(4000), 5000);
    assert!(client_check_disabled(Some("TRUE")));
    assert!(!client_check_disabled(Some("yes")));
    assert!(!client_check_disabled(None));
}

#[test]
fn secrets_are_adopted_or_made() {
    assert!(constant_time_eq(b"abc", b"abc"));
    assert!(!constant_time_eq(b"abc", b"abd"));
    assert!(!constant_time_eq(b"abc", b"ab"));
    assert_eq!(hex_text(&[0x00, 0xAB, 0x0f]), "00ab0f");
    let one = generate_ipc_secret();
    let two = generate_ipc_secret();
    assert_eq!(one.len(), 64);
    assert_ne!(one, two);
    assert!(adopt_stored_secret(Some("short")).is_none());
    assert_eq!(adopt_stored_secret(Some(&format!(" {one}\n"))), Some(one.clone()));
    assert!(matches!(
        choose_ipc_secret(Some(&two), Some(&one)),
        SecretSource::Disk { tampered: true, .. }
    ));
    assert!(matches!(
        choose_ipc_secret(Some(&two), None),
        SecretSource::Environment { .. }
    ));
    assert!(matches!(choose_ipc_secret(None, None), SecretSource::Generate));
    assert!(matches!(settle_new_secret(&one, &CreateOutcome::Written, None), SecretStep::Use(_)));
    match settle_new_secret(&one, &CreateOutcome::AlreadyExists, Some(&two)) {
        SecretStep::Use(winner) => assert_eq!(winner, two),
        _ => panic!("the winner's secret is used"),
    }
    assert!(matches!(
        settle_new_secret(&one, &CreateOutcome::WriteFailed, None),
        SecretStep::GiveUp
    ));
    assert!(matches!(
        settle_new_secret(&one, &CreateOutcome::Failed, None),
        SecretStep::Overwrite
    ));
}

fn critical() -> CriticalConfig {
    CriticalConfig {
        realtime_enabled: true,
        auto_quarantine: true,
        heuristic_alerts: true,
        idle_scan_enabled: true,
        scheduled_scan_enabled: true,
        argus_worker_enabled: false,
        scan_argus_worker_enabled: false,
        enhanced_signature_provider: "none".to_string(),
        argus_worker_path: String::new(),
        scan_argus_worker_path: String::new(),
        excluded_paths: vec!["C:\\keep".to_string()],
        excluded_extensions: Vec::new(),
        excluded_detections: Vec::new(),
        trusted_hashes: Vec::new(),
        realtime_roots: Vec::new(),
    }
}

#[test]
fn critical_settings_are_checked() {
    let mut map = serde_json::Map::new();
    map.insert("realtime_enabled".to_string(), Value::Bool(false));
    map.insert(
        "excluded_paths".to_string(),
        Value::Array(vec![Value::String("C:\\work\\out".to_string())]),
    );
    let request = read_critical(&Value::Object(map));
    let (outcome, toggle) = set_critical(critical(), &request, false);
    assert_eq!(toggle, Toggle::Disable);
    match outcome {
        CriticalOutcome::Accepted { config, changes, .. } => {
            assert!(!config.realtime_enabled);
            assert_eq!(config.excluded_paths, vec!["C:\\work\\out".to_string()]);
            assert_eq!(changes.len(), 2);
        }
        CriticalOutcome::Rejected { message, .. } => panic!("{message}"),
    }
    let mut map = serde_json::Map::new();
    map.insert(
        "excluded_paths".to_string(),
        Value::Array(vec![Value::String("C:\\".to_string())]),
    );
    let request = read_critical(&Value::Object(map));
    let (outcome, _) = set_critical(critical(), &request, false);
    match outcome {
        CriticalOutcome::Rejected { message, .. } => {
            assert!(message.starts_with("validation failed: "));
        }
        CriticalOutcome::Accepted { .. } => panic!("the drive cannot be excluded"),
    }
    let mut map = serde_json::Map::new();
    map.insert("realtime_enabled".to_string(), Value::Bool(false));
    map.insert(
        "excluded_paths".to_string(),
        Value::Array(vec![Value::String(String::new())]),
    );
    let request = read_critical(&Value::Object(map));
    let (outcome, toggle) = set_critical(critical(), &request, false);
    assert_eq!(toggle, Toggle::Keep);
    match outcome {
        CriticalOutcome::Rejected { message, .. } => {
            assert_eq!(message, "validation failed: excluded_paths[0]: empty entry");
        }
        CriticalOutcome::Accepted { .. } => panic!("an empty path cannot be excluded"),
    }
    let mut state = daemon();
    let (outcome, toggle) = state.change_critical(critical(), &request, 5, 6);
    assert_eq!(toggle, Toggle::Keep);
    assert!(!state.is_user_disabled());
    let rejection = outcome.rejection().expect("rejected");
    assert_eq!(rejection.code, INVALID_PARAMS);
    assert_eq!(rejection.event.severity, "warning");
    assert!(outcome.saved_event().is_none());
    assert_eq!(
        state.activity_list()[0].title,
        "protection.set_critical rejected: excluded_paths[0]: empty entry"
    );
    let mut map = serde_json::Map::new();
    map.insert("realtime_enabled".to_string(), Value::Bool(false));
    let request = read_critical(&Value::Object(map));
    let (outcome, toggle) = state.change_critical(critical(), &request, 5, 6);
    assert_eq!(toggle, Toggle::Disable);
    assert!(state.is_user_disabled());
    assert_eq!(state.protection_disabled_at, 5);
    assert!(outcome.rejection().is_none());
    let event = outcome.saved_event().expect("accepted");
    assert_eq!(event.title, "Critical settings changed: realtime_enabled=false");
    assert_eq!(event.message, "Requires administrator elevation");
    assert!(is_dangerous_path("C:\\"));
    assert!(is_hex64_lower(&"a".repeat(64)));
    assert!(!is_hex64_lower(&"A".repeat(64)));
    assert!(check_entry(ListKind::Hash, "xyz").is_some());
    assert!(check_worker_path("..\\evil.exe").is_some());
}

#[test]
fn critical_changes_are_named() {
    let current = critical();
    assert!(critical_diff(&current, &critical()).is_empty());
    let mut asked = critical();
    asked.realtime_enabled = !asked.realtime_enabled;
    asked.enhanced_signature_provider.push('x');
    asked.trusted_hashes.push("a".repeat(64));
    let names = critical_diff(&current, &asked);
    assert_eq!(
        names,
        vec![
            "realtime_enabled".to_string(),
            "enhanced_signature_provider".to_string(),
            "trusted_hashes".to_string(),
        ]
    );
    let rejection = reject_critical_changes(&names).expect("a critical setting differs");
    assert_eq!(rejection.code, INSUFFICIENT_PRIVILEGE);
    assert_eq!(
        check_provider_update("none", true),
        Some("no enhanced provider configured")
    );
    assert_eq!(
        check_provider_update("community", false),
        Some("configured provider not found in registry")
    );
    assert_eq!(check_provider_update("community", true), None);
}

#[test]
fn settings_keep_what_is_critical() {
    let requested = DaemonConfig {
        critical: CriticalConfig { excluded_paths: vec!["C:\\".to_string()], ..critical() },
        developer: DeveloperConfig { enabled: true, ..developer("attacker") },
        rest: 2,
    };
    let current = DaemonConfig { critical: critical(), developer: developer("mine"), rest: 1 };
    let mut pinned = pin_settings(requested, current);
    assert_eq!(pinned.critical.excluded_paths, vec!["C:\\keep".to_string()]);
    assert_eq!(pinned.developer.password_sha256, "mine");
    assert!(pinned.developer.enabled);
    assert_eq!(pinned.rest, 2);
    redact(&mut pinned);
    assert!(pinned.developer.password_sha256.is_empty());
    assert!(reject_critical_changes(&vec![]).is_none());
    let rejection =
        reject_critical_changes(&vec!["a".to_string(), "b".to_string()]).expect("rejected");
    assert_eq!(rejection.code, INSUFFICIENT_PRIVILEGE);
    assert!(rejection.message.ends_with("protection.set_critical: a, b"));
    assert_eq!(check_provider("x", false).as_deref(), Some("unknown provider: x"));
    assert!(check_provider("none", false).is_none());
}

#[test]
fn developer_mode_takes_the_password() {
    let mut config = developer("");
    assert!(set_developer_mode(&mut config, true, true, None).is_err());
    let mut config = developer("hash");
    let rejection = set_developer_mode(&mut config, false, true, None).err().expect("locked");
    assert_eq!(
        rejection.message,
        "developer mode locked: invalid password or not provisioned"
    );
    assert!(!config.enabled);
    let event = set_developer_mode(&mut config, true, true, Some(true)).ok().expect("unlocked");
    assert_eq!(event.title, "Developer mode enabled (telemetry on)");
    let status = developer_status(&config);
    assert!(status.enabled && status.telemetry_enabled && status.provisioned);
}

#[test]
fn scans_need_an_engine() {
    let mut state = daemon();
    assert_eq!(state.start_scan("quick", "id", 50).ok(), Some(ScanRoute::QueuedQuick));
    assert_eq!(state.activity_tracker.last_manual_scan, 50);
    let answer = state.start_scan("deep", "id", 50).err().expect("unknown");
    assert_eq!(answer.error.as_deref(), Some("Unknown scan type: deep"));
    let mut broken = started(EngineStart::Failed { error: "no dll".to_string() });
    let answer = broken.start_scan("quick", "id", 50).err().expect("no engine");
    assert_eq!(answer.error.as_deref(), Some("Engine not available: no dll"));
}

#[test]
fn cancel_is_answered() {
    let mut state = daemon();
    assert_eq!(state.cancel_scan(1), CancelAnswer::AlreadyCompleted);
    assert!(start_quick_scan(&mut state.board, "job-1", 5).is_ok());
    assert!(worker_active_path(&state.board).is_some());
    assert_eq!(state.cancel_scan(2), CancelAnswer::Asked(true));
    assert_eq!(state.activity_list()[0].title, "Scan cancelled by user");
    assert_eq!(
        manual_queue(&vec![
            QueueFacts { kind: "idle".to_string(), depth: Some(9), average_scan_duration_ms: None },
            QueueFacts {
                kind: "manual".to_string(),
                depth: Some(2),
                average_scan_duration_ms: Some(30),
            },
        ]),
        (2, 30)
    );
}

#[test]
fn pressure_moves_work_out() {
    let mut state = daemon();
    assert_eq!(state.argus_route(), None);
    assert_eq!(state.update_pressure(&facts(4000)), PressureState::Critical);
    assert!(state.should_pause_idle_for_pressure());
    assert_eq!(state.argus_route(), Some(ExternalReason::MemoryPressure));
    assert_eq!(state.pressure_policy(&facts(4000)).max_resident_workers, 1);
    state.set_audit_mode(true);
    assert_eq!(state.argus_route(), Some(ExternalReason::AuditMode));
    assert_eq!(state.argus_worker_failed("worker timeout after 30s"), AfterFailure::FallBack);
    assert_eq!(state.argus_worker.timeout_count, 1);
    assert_eq!(state.resilience.worker_timeouts_total, 1);
    assert_eq!(state.argus_worker_failed("scan cancelled"), AfterFailure::GiveUp);
    assert_eq!(state.argus_worker.fallback_count, 1);
    assert_eq!(state.clamav_route(), None);
    state.set_clamav_subprocess(true, 3);
    assert_eq!(state.clamav_route(), Some(10));
}

#[test]
fn footprint_is_compared_with_its_baselines() {
    let mut state = daemon();
    state.record_startup_footprint(&facts(300));
    state.record_post_scan_footprint(&facts(500));
    let snapshot = state.capture_footprint(&facts(450));
    assert_eq!(snapshot.delta_since_start_mb, 150);
    assert_eq!(snapshot.delta_since_last_scan_mb, -50);
    assert!(snapshot.clamav_loaded);
    assert!(!state.check_residency_trim(500, 1_700_000_010));
    assert!(state.check_residency_trim(500, 1_700_001_000));
    assert_eq!(state.residency_diagnostics(50, 1, 1_700_001_000).trim_count, 1);
}

#[test]
fn runtime_is_reported() {
    let mut state = daemon();
    let facts = RuntimeFacts {
        now: T0 + 3_700 * NANOS_PER_SEC,
        now_ts: 1_700_003_700,
        stored: None,
        newest_db_mtime: Some(1_700_000_000),
        watcher_active: false,
        argus: ArgusStats {
            engine_version: "2.1".to_string(),
            files_analyzed: 9,
            threats_detected: 1,
            active_layers: 11,
            avg_analysis_time_us: 77,
            yara_rules_loaded: 5,
        },
        cache: CacheStats { hits: 1, misses: 2, entries: 3 },
        memory: ProcessMemory { working_set_mb: 900, private_bytes_mb: 1, peak_working_set_mb: 2 },
        active_workers: 0,
    };
    let report = state.runtime_stats(&facts);
    assert_eq!(report.uptime_human, "1h 1m 40s");
    assert_eq!(report.started_at, 1_700_000_000);
    assert_eq!(report.protection_state, "degraded");
    assert_eq!(report.protection_detail.as_deref(), Some("Real-time watcher inactive"));
    assert!(!report.db_stale);
    assert_eq!(report.db_stale_hours, 1);
    assert_eq!(report.idle_scanner_state, "disabled");
    assert_eq!(report.activity_count, 5);
    assert_eq!(report.footprint.warning_level, "elevated");
    assert_eq!(state.pressure_state(), PressureState::Elevated);
}

#[test]
fn protection_can_be_paused() {
    let mut state = daemon();
    assert_eq!(state.daemon_mode(), "normal");
    state.disable_protection(77);
    assert!(state.is_user_disabled());
    assert_eq!(state.protection_disabled_at, 77);
    assert_eq!(state.daemon_mode(), "user_disabled");
    state.touch_watcher_heartbeat(100);
    assert!(!state.supervise_watcher(true, 1000));
    state.enable_protection();
    assert_eq!(state.protection_disabled_at, 0);
    assert!(!state.supervise_watcher(true, 160));
    assert!(state.supervise_watcher(true, 161));
    assert_eq!(state.resilience.watcher_restarts_total, 1);
    assert!(!state.supervise_watcher(true, 162));
    state.set_audit_mode(true);
    assert_eq!(state.daemon_mode(), "audit");
    state.set_config_drift(true);
    assert!(state.config_drift() && !state.binary_integrity_drift());
}

#[test]
fn trusted_hashes_ignore_case() {
    let mut state = daemon();
    state.load_trusted_hashes(vec!["ABCD".to_string()]);
    assert!(state.is_hash_trusted("abcd"));
    assert!(state.is_hash_trusted("AbCd"));
    assert!(!state.is_hash_trusted("abce"));
    state.load_detection_exclusions(vec!["x".to_string()]);
    assert_eq!(state.detection_exclusions(), vec!["x".to_string()]);
}

#[test]
fn restore_goes_on_in_order() {
    let mut state = daemon();
    let mut job = RestoreJob::new("q-1", false);
    let found =
        RestoreEvent::Found { records_open: true, place: Some("C:\\a.exe".to_string()) };
    let step = state.advance_restore(&mut job, found, T0, 3);
    assert!(matches!(step, RestoreStep::Write));
    assert!(state.is_restore_suppressed("C:\\a.exe", T0));
    let written = RestoreEvent::Written(Ok("C:\\a.exe".to_string()));
    let step = state.advance_restore(&mut job, written, T0, 3);
    assert!(matches!(step, RestoreStep::Record));
    let step = state.advance_restore(&mut job, RestoreEvent::Recorded(None), T0, 3);
    assert!(matches!(step, RestoreStep::Purge));
    match state.advance_restore(&mut job, RestoreEvent::Purged, T0, 3) {
        RestoreStep::Done(path) => assert_eq!(path, "C:\\a.exe"),
        _ => panic!("the restore is done"),
    }
    assert_eq!(state.activity_list()[0].title, "File restored from quarantine");
    assert_eq!(state.activity_list()[0].message, "C:\\a.exe");
}

#[test]
fn restore_fails_at_every_stage() {
    let failed = |step: RestoreStep| match step {
        RestoreStep::Fail(error) => error,
        _ => panic!("the restore fails"),
    };
    let mut job = RestoreJob::new("q-1", true);
    let closed = RestoreEvent::Found { records_open: false, place: None };
    assert_eq!(failed(job.advance(closed)), "Database not available");
    assert_eq!(job.stage, RestoreStage::Over);
    let mut job = RestoreJob::new("q-1", true);
    let unknown = RestoreEvent::Found { records_open: true, place: None };
    assert_eq!(failed(job.advance(unknown)), "Not found: q-1");

    let at_write = || {
        let mut job = RestoreJob::new("q-1", true);
        let found = RestoreEvent::Found { records_open: true, place: Some("D:\\b".to_string()) };
        assert!(matches!(job.advance(found), RestoreStep::Mark));
        assert!(matches!(job.advance(RestoreEvent::Marked), RestoreStep::Write));
        job
    };
    let mut job = at_write();
    let error = failed(job.advance(RestoreEvent::Written(Err("disk full".to_string()))));
    assert_eq!(error, "disk full");
    let mut job = at_write();
    let step = job.advance(RestoreEvent::Written(Ok("D:\\b".to_string())));
    assert!(matches!(step, RestoreStep::Record));
    assert_eq!(failed(job.advance(RestoreEvent::Recorded(Some("db".to_string())))), "db");
    assert_eq!(job.describe().title, "File restored to alternate path");
}

#[test]
fn restores_are_left_alone_for_a_while() {
    let mut state = daemon();
    state.mark_restore_in_progress("C:\\a", T0);
    assert!(state.is_restore_suppressed("C:\\a", T0 + 29 * NANOS_PER_SEC));
    assert!(!state.is_restore_suppressed("C:\\a", T0 + 30 * NANOS_PER_SEC));
    assert!(!state.is_restore_suppressed("C:\\b", T0));
    let end = state.finish_quarantine(true, "Win.Test", "C:\\a", "scan-1", 4);
    assert!(!end.undo);
    assert_eq!(state.activity_list()[0].title, "Quarantined: Win.Test");
    assert!(state.finish_quarantine(false, "Win.Test", "C:\\a", "scan-1", 4).undo);
    state.finish_delete("q-1", 5);
    assert_eq!(state.activity_list()[0].message, "q-1");
}

#[test]
fn handlers_leave_entries() {
    assert_eq!(
        provider_changed("p").title,
        "Enhanced signature provider changed to: p"
    );
    assert_eq!(
        provider_updated("p", Ok(4)).title,
        "Enhanced signatures updated: p (4 files)"
    );
    assert_eq!(
        provider_updated("p", Err(None)).title,
        "Enhanced signature update FAILED: unknown"
    );
    assert_eq!(provider_rolled_back().severity, "critical");
    assert_eq!(yara_message(Ok(12)), "12 YARA rules reloaded");
    assert_eq!(yara_message(Err("bad")), "YARA reload error: bad");
    assert_eq!(argus_reloaded("m").message, "m");
    assert_eq!(settings_changed(true).title, "Configuration updated via settings.set_full");
    assert_eq!(protection_switched(true).title, "Protection paused by user");
    assert_eq!(total_score(90, 20), 100);
    assert_eq!(total_score(40, 20), 60);
    let result = untouched(9, true, 15);
    assert_eq!(memory_scanned(&result, 9).message, "0 regions, 0 findings");
    let processes = vec![
        ProcessInfo { pid: 3, name: "other".to_string(), path: None, memory_mb: 1 },
        ProcessInfo {
            pid: 9,
            name: "evil.exe".to_string(),
            path: Some("C:\\EVIL.exe".to_string()),
            memory_mb: 1,
        },
    ];
    assert_eq!(auto_memory_scan_if_running("c:\\evil.EXE", 76, &processes), Some(1));
    assert_eq!(auto_memory_scan_if_running("c:\\evil.EXE", 75, &processes), None);
    let event = memory_scanned_on_detection(&processes[1], &result);
    assert_eq!(event.title, "Auto memory scan: evil.exe (PID 9)");
    assert_eq!(event.message, "0 regions, 0 findings, 15ms");
}

#[test]
fn troubles_are_picked_out() {
    let row = |severity: &str, n: i64| ActivityRow {
        timestamp: n,
        severity: severity.to_string(),
        category: String::new(),
        title: String::new(),
        message: String::new(),
    };
    let mut rows = Vec::new();
    for n in 0..30 {
        rows.push(row(if n % 2 == 0 { "warning" } else { "info" }, n));
    }
    let list = recent_errors(&rows);
    assert_eq!(list.len(), 10);
    assert_eq!(list[9].timestamp, 18);
}
