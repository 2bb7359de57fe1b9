//! The life of scans, updates and helpers, and the answers to what is refused.

use sentinelld::config::PerformanceConfig;
use sentinelld::idle_scanner::IdleScannerState;
use sentinelld::ipc::auth::NANOS_PER_SEC;
use sentinelld::ipc::client_auth::ClientIdentity;
use sentinelld::ipc::critical::{check_entry, check_worker_path, ListKind};
use sentinelld::ipc::dispatch::{
    Action, Fields, Outcome, TokenUse, INSUFFICIENT_PRIVILEGE, INVALID_PARAMS,
};
use sentinelld::ipc::policy::UNAUTHORIZED;
use sentinelld::ipc::settings::DeveloperConfig;
use sentinelld::ipc::state::{AppState, ArgusStart, EngineStart, Startup, StartupTimes};
use sentinelld::resilience::{orchestrator_active_workers, ArgusWorker};
use sentinelld::scan::board::ScanBoard;
use sentinelld::scan::job::{ScanRecord, ScanResultResponse};
use sentinelld::scan::perf::ScanPerformanceSummary;
use sentinelld::scan::pipeline::{
    plan_ecosystem, step_error, FileEnd, FileJob, FileJobEvent, FileJobStage, FileJobStep,
    FilePipeline, FileStage, FileStep,
};
use sentinelld::scan::start::{
    start_full_scan, start_orchestrated_file_scan, start_orchestrated_folder_scan,
    start_startup_scan, unscanned_result, united_result, QueueFlags,
};
use sentinelld::scan::verdict::{ArgusVerdict, ScanTiming};
use sentinelld::scan::worker::{
    completed_within_budget, describe_error, ecosystem_note, BudgetCounters, BudgetOutcome,
    ClamResult, TimeoutReason,
};
use sentinelld::stats::totals_fit;
use sentinelld::update::UpdateState;

const T0: u64 = 1_000 * NANOS_PER_SEC;
const SECRET: &str = "0123456789abcdef0123456789abcdef";

fn started(engine: EngineStart<u32>) -> AppState<u32> {
    AppState::new(Startup {
        engine,
        argus: ArgusStart {
            version: "2.1".to_string(),
            active_layers: 11,
            ioc: None,
            yara: Ok(5),
            yara_sources: Vec::new(),
        },
        times: StartupTimes { daemon: 1, engine: 2, argus: 3, ioc: 4, yara: 5 },
        directories_known: true,
        secret: Some(SECRET.to_string()),
        developer: DeveloperConfig {
            enabled: false,
            telemetry_enabled: false,
            telemetry_max_kb: 512,
            password_sha256: String::new(),
        },
        queue: QueueFlags { file: true, folder: true, quick: true, full: true },
        argus_worker: ArgusWorker::new(false, "argusd.exe".to_string(), 30),
        performance: PerformanceConfig::default(),
        total_ram_mb: None,
        signature_stale_days: None,
        now: T0,
        now_secs: 1_700_000_000,
    })
}

fn daemon() -> AppState<u32> {
    started(EngineStart::Loaded { engine: 7, signatures: 100 })
}

fn with_secret() -> Fields<String> {
    let mut fields = Fields::empty();
    fields.auth = Some(SECRET.to_string());
    fields
}

fn result(infected: bool, error: Option<&str>) -> ScanResultResponse {
    ScanResultResponse {
        path: "C:\\x.exe".to_string(),
        infected,
        virus_name: None,
        scanned_bytes: 10,
        error: error.map(|e| e.to_string()),
    }
}

#[test]
fn updates_are_tracked_to_their_end() {
    let mut state = daemon();
    assert_eq!(
        state.start_update(false, true, 60, 61).err().as_deref(),
        Some("freshclam binary not found")
    );
    assert_eq!(state.update_status().last_error.as_deref(), Some("freshclam binary not found"));
    assert_eq!(state.activity_list()[0].title, "Update failed");
    assert_eq!(
        state.start_update(true, false, 60, 61).err().as_deref(),
        Some("freshclam.conf not found")
    );
    assert!(state.start_update(true, true, 62, 63).is_ok());
    assert_eq!(state.activity_tracker.last_update, 62);
    assert_eq!(state.activity_list()[0].title, "Signature update started");
    assert_eq!(
        state.start_update(true, true, 64, 65).err().as_deref(),
        Some("Update already in progress")
    );
    state.finish_update(true, "daily.cvd updated", 66);
    let report = state.update_status();
    assert_eq!(report.state, UpdateState::Applying);
    assert_eq!(report.percent, Some(85));
    assert_eq!(report.current_file.as_deref(), Some("Reloading ClamAV engine..."));
    state.note_stale_engine("no memory", 67);
    let rows = state.activity_list();
    assert_eq!(rows[0].title, "Updated but engine reload failed");
    assert_eq!(rows[0].message, "no memory");
    assert_eq!(rows[1].title, "Signatures updated successfully");

    let mut state = daemon();
    assert!(state.start_update(true, true, 1, 1).is_ok());
    state.finish_update(false, "", 2);
    assert_eq!(state.activity_list()[0].message, "freshclam failed (no output)");
}

#[test]
fn helpers_are_watched() {
    let mut state = daemon();
    state.record_worker_panic("worker died");
    state.record_worker_timeout("worker hung");
    state.set_binary_integrity_drift(true);
    state.touch_watcher_heartbeat(100);
    state.touch_orchestrator_heartbeat(100);
    let report = state.resilience_diagnostics(221);
    assert_eq!(report.worker_panics, 1);
    assert_eq!(report.worker_timeouts, 1);
    assert_eq!(report.last_recovery_reason.as_deref(), Some("worker timeout: worker hung"));
    assert!(report.watcher_heartbeat_stale);
    assert!(!report.orchestrator_heartbeat_stale);
    assert!(report.binary_integrity_drift && !report.config_drift);
    assert!(state.orchestrator_health(&vec![0, 0]).healthy);
    assert!(!state.orchestrator_health(&vec![0, 0]).ready_for_next_pilot);
    assert!(!state.orchestrator_health(&vec![1, 2]).healthy);
    assert_eq!(state.orchestrator_health(&vec![1, 2]).crashes, 3);
    assert_eq!(state.budget_diagnostics().total_timeouts, 0);
    assert_eq!(orchestrator_active_workers(&vec![0, 2, 0, 1]), 2);
    assert_eq!(orchestrator_active_workers(&Vec::new()), 0);
}

#[test]
fn idle_scanner_needs_an_engine() {
    let mut broken = started(EngineStart::NotConfigured);
    assert!(!broken.start_idle_scanner(true));
    assert_eq!(broken.idle_scanner_stats().state, IdleScannerState::Disabled);
    let mut state = daemon();
    assert!(!state.start_idle_scanner(false));
    assert_eq!(state.idle_scanner_stats().state, IdleScannerState::Disabled);
    assert!(state.start_idle_scanner(true));
    assert_eq!(state.idle_scanner_stats().state, IdleScannerState::WaitingForCapacity);
}

#[test]
fn file_scan_ends_in_every_way() {
    let mut board = ScanBoard::new();
    let job = start_orchestrated_file_scan(&mut board, "job-1", 100, Some("C:\\x.exe"))
        .expect("the slot is free");
    board.mark_running("job-1");
    let event = board.complete_orchestrated_file_cancelled(&job, 30, 101);
    assert_eq!(event.title, "File scan cancelled");
    assert_eq!(event.message, "C:\\x.exe");
    assert_eq!(board.scan_status().state, "cancelled");
    assert_eq!(board.counters.cancelled, 1);
    assert_eq!(board.scan_history()[0].status, "cancelled");

    let job = start_orchestrated_file_scan(&mut board, "job-2", 102, Some("C:\\x.exe"))
        .expect("the slot is free again");
    board.mark_running("job-2");
    let done = board.complete_orchestrated_file_error(&job, "disk gone", 30, 103);
    assert_eq!(done.event.title, "File scan failed");
    assert_eq!(done.event.message, "disk gone");
    assert!(done.detection.is_none());
    assert_eq!(board.counters.failed, 1);
    assert!(!board.is_scan_active());

    let (answer, done) = board.scan_single_file(
        "job-3",
        "C:\\x.exe",
        result(true, None),
        Some(ScanTiming {
            strategy: None,
            argus_total_us: 5,
            yara_us: 1,
            hash_us: 2,
            clamav_us: 7,
        }),
        104,
        106,
    );
    assert_eq!(answer.status, "infected");
    assert_eq!(done.detection.map(|d| d.path).as_deref(), Some("C:\\x.exe"));
    let row = done.row.expect("a row is stored");
    assert_eq!(row.duration_ms, 2000);
    assert_eq!(row.clamav_phase_us, 7);
    assert_eq!(row.threats_found, 1);
    assert_eq!(done.event.severity, "critical");
    let (answer, _) =
        board.scan_single_file("job-4", "C:\\x.exe", result(false, Some("locked")), None, 1, 1);
    assert_eq!(answer.status, "error");
    let (answer, done) =
        board.scan_single_file("job-5", "C:\\x.exe", result(false, None), None, 1, 1);
    assert_eq!(answer.status, "clean");
    assert_eq!(done.event.title, "File scan: clean");
    assert_eq!(board.scan_history()[0].scan_id, "job-5");
}

#[test]
fn scans_of_every_type_take_the_slot() {
    let mut board = ScanBoard::new();
    let entry = start_full_scan(&mut board, "full-1", 5).ok().expect("free");
    assert_eq!(entry.message, "Full disk scan started");
    let refusal = start_startup_scan(&mut board, "s-1", 6).err().expect("taken");
    assert!(refusal.error.is_some());

    let mut board = ScanBoard::new();
    let entry = start_startup_scan(&mut board, "s-1", 6).ok().expect("free");
    assert_eq!(entry.message, "Startup scan started");
    assert!(start_full_scan(&mut board, "full-1", 7).is_err());

    let mut board = ScanBoard::new();
    let answer = start_orchestrated_folder_scan(&mut board, "f-1", 5, None, false)
        .err()
        .expect("no target");
    assert_eq!(answer.error.as_deref(), Some("No target directory specified"));
    let answer = start_orchestrated_folder_scan(&mut board, "f-1", 5, Some("C:\\a"), false)
        .err()
        .expect("no directory");
    assert_eq!(answer.error.as_deref(), Some("Not a directory: C:\\a"));
    assert!(!board.is_scan_active());
    let event = start_orchestrated_folder_scan(&mut board, "f-1", 5, Some("C:\\a"), true)
        .ok()
        .expect("free");
    assert_eq!(event.title, "Folder scan queued: C:\\a");
    assert_eq!(board.scan_status().state, "queued");
}

#[test]
fn results_are_united() {
    let refused = unscanned_result("C:\\x", "too large");
    assert!(!refused.infected);
    assert_eq!(refused.error.as_deref(), Some("too large"));
    let verdict = ArgusVerdict {
        path: "C:\\x".to_string(),
        file_size: 9,
        score: 0,
        label: "Clean".to_string(),
        findings: Vec::new(),
        timing: None,
    };
    let found = ClamResult {
        infected: true,
        virus_name: Some("Win.Test".to_string()),
        error: None,
    };
    let united = united_result("C:\\x", 9, &found, &verdict, &[]);
    assert!(united.infected);
    assert_eq!(united.virus_name.as_deref(), Some("Win.Test"));
    let excluded = united_result("C:\\x", 9, &found, &verdict, &["win.test".to_string()]);
    assert!(!excluded.infected);
    assert_eq!(excluded.virus_name, None);
    assert_eq!(ecosystem_note(3, 40), "3 findings, score 40");
    assert_eq!(describe_error("C:\\x", "denied"), "C:\\x: denied");
    assert!(completed_within_budget(false, 0));
    assert!(!completed_within_budget(true, 0));
    assert!(!completed_within_budget(false, 1));
}

#[test]
fn totals_have_a_limit() {
    let record = |files: u64| ScanRecord {
        job_id: "j".to_string(),
        scan_type: "file".to_string(),
        started_at: 0,
        finished_at: 0,
        files_scanned: files,
        threats_found: 0,
        status: "clean".to_string(),
    };
    assert!(totals_fit(&vec![record(u64::MAX - 1), record(1)]));
    assert!(!totals_fit(&vec![record(u64::MAX), record(1)]));
    assert!(ScanPerformanceSummary::default().can_count());
}

#[test]
fn every_dangerous_method_takes_its_token_once() {
    let methods = [
        "engine.reload",
        "argus.reload",
        "settings.set",
        "settings.set_full",
        "sources.set",
        "sources.update",
        "sources.rollback",
        "protection.set_critical",
        "protection.disable",
        "protection.enable",
        "quarantine.add",
        "quarantine.restore",
        "quarantine.restore_as",
        "quarantine.delete",
    ];
    for method in methods {
        let mut state = daemon();
        let token = state.generate_challenge_token(method, T0);
        let mut fields = with_secret();
        fields.dest = Some("C:\\out".to_string());
        fields.token = Some(token.clone());
        fields.challenge_token = Some(token);
        let (outcome, token_use) = state.gate.route_request(&state.registry, method, &fields, T0);
        assert_eq!(token_use, TokenUse::Accepted, "{method}");
        assert!(matches!(outcome, Outcome::Perform(_)), "{method}");
        let (outcome, token_use) = state.gate.route_request(&state.registry, method, &fields, T0);
        assert_eq!(token_use, TokenUse::Rejected, "{method}");
        match outcome {
            Outcome::Reject { code, message } => {
                let code_of_sources = method.starts_with("sources.");
                assert_eq!(code == INSUFFICIENT_PRIVILEGE, code_of_sources, "{method}");
                assert_eq!(code == INVALID_PARAMS, !code_of_sources, "{method}");
                assert!(message.starts_with("challenge token required"), "{method}");
            }
            Outcome::Refuse { error } => {
                assert!(method.starts_with("quarantine."), "{method}");
                assert!(error.starts_with("Challenge token required"), "{method}");
            }
            _ => panic!("{method}"),
        }
    }
}

#[test]
fn every_protected_method_asks_for_the_secret() {
    let methods = [
        ("scan.start", "quick scans require IPC authentication"),
        ("engine.reload", "authenticated IPC engine reload required"),
        ("scan.cancel", "authenticated IPC scan cancel required"),
        ("quarantine.list", "authenticated IPC quarantine list required"),
        ("calibration.report_safe", "authenticated IPC update required"),
        ("runtime.status", "authenticated IPC runtime status required"),
        ("trust.status", "authenticated IPC trust status required"),
        ("runtime.scan_buffer", "authenticated IPC required"),
        ("detections.list", "authenticated IPC detections list required"),
        ("watcher.status", "authenticated IPC required for watcher status"),
        ("idle_scanner.status", "authenticated IPC required for idle scanner status"),
        ("update.start", "authenticated IPC update start required"),
        ("activity.list", "authenticated IPC activity list required"),
        ("activity.log", "authenticated IPC activity log required"),
        ("argus.analyze", "authenticated IPC required for ARGUS analysis"),
        ("argus.reload", "authenticated IPC ARGUS reload required"),
        ("memory.list_processes", "authenticated IPC memory access required"),
        ("memory.scan_process", "authenticated IPC memory access required"),
        ("settings.get", "authenticated IPC settings read required"),
        ("security.challenge", "authenticated IPC challenge required"),
        ("settings.set", "authenticated IPC settings update required"),
        ("diagnostics.export", "authenticated IPC diagnostics export required"),
        ("dev.status", "authenticated IPC dev status read required"),
        ("dev.set_developer_mode", "authenticated IPC dev toggle required"),
        ("benchmark.run", "authenticated IPC benchmark run required"),
    ];
    for (method, expected) in methods {
        let mut state = daemon();
        let (outcome, token_use) = state.gate.route_request(&state.registry, method, &Fields::empty(), T0);
        assert_eq!(token_use, TokenUse::NotPresented);
        match outcome {
            Outcome::Reject { code, message } => {
                assert_eq!(code, INVALID_PARAMS);
                assert_eq!(message, expected);
            }
            _ => panic!("{method}"),
        }
    }
}

#[test]
fn every_query_asks_for_the_secret() {
    for method in [
        "scan.history",
        "stats.runtime",
        "sources.status",
        "sources.list",
        "argus.packs",
        "argus.verdicts",
    ] {
        let mut state = daemon();
        match state.gate.route_request(&state.registry, method, &Fields::empty(), T0).0 {
            Outcome::Reject { code, message } => {
                assert_eq!(code, UNAUTHORIZED);
                assert_eq!(message, "authenticated IPC required");
            }
            _ => panic!("{method}"),
        }
        let outcome = state.gate.route_request(&state.registry, method, &with_secret(), T0).0;
        assert!(matches!(outcome, Outcome::Perform(_)), "{method}");
    }
    for method in ["health", "engine.status", "scan.status", "update.status", "argus.version"] {
        let mut state = daemon();
        let outcome = state.gate.route_request(&state.registry, method, &Fields::empty(), T0).0;
        assert!(matches!(outcome, Outcome::Perform(_)), "{method}");
    }
}

#[test]
fn dangerous_methods_take_elevation() {
    let caller = |elevated: bool| {
        ClientIdentity::from_token("S-1-5-21-7".to_string(), 1, elevated, false)
    };
    let nothing = serde_json::Value::Null;
    let mut state = daemon();
    for _ in 0..50 {
        match state.dispatch_sync("quarantine.delete", &nothing, Some(&caller(false)), T0, 0) {
            Outcome::Reject { code, message } => {
                assert_eq!(code, INSUFFICIENT_PRIVILEGE);
                assert_eq!(message, "administrator elevation required for quarantine.delete");
            }
            _ => panic!("the caller is not elevated"),
        }
    }
    match state.dispatch_sync("memory.scan_process", &nothing, Some(&caller(false)), T0, 0) {
        Outcome::Reject { code, .. } => assert_eq!(code, INSUFFICIENT_PRIVILEGE),
        _ => panic!("the caller is not elevated"),
    }
    for client in [Some(caller(true)), None] {
        match state.dispatch_sync("quarantine.delete", &nothing, client.as_ref(), T0, 0) {
            Outcome::Refuse { error } => {
                assert_eq!(error, "Challenge token required for quarantine delete");
            }
            _ => panic!("a token is missing"),
        }
    }
}

#[test]
fn parameters_are_asked_for() {
    let mut state = daemon();
    let mut note = |method: &str, fields: &Fields<String>| -> String {
        match state.gate.route_request(&state.registry, method, fields, T0).0 {
            Outcome::Note { error } => error,
            Outcome::Refuse { error } => error,
            _ => panic!("{method}"),
        }
    };
    assert_eq!(note("argus.analyze", &with_secret()), "Missing 'path' parameter");
    assert_eq!(note("memory.scan_process", &with_secret()), "pid required");
    assert_eq!(note("runtime.scan_buffer", &with_secret()), "empty content");
    assert_eq!(note("calibration.report_safe", &with_secret()), "missing sha256 or file_path");
    let mut fields = with_secret();
    fields.pid = Some(1 << 32);
    assert_eq!(note("memory.scan_process", &fields), "pid required");

    let token = state.generate_challenge_token("quarantine.restore_as", T0);
    let mut fields = with_secret();
    fields.token = Some(token);
    match state.gate.route_request(&state.registry, "quarantine.restore_as", &fields, T0).0 {
        Outcome::Refuse { error } => assert_eq!(error, "dest path required"),
        _ => panic!("a destination is needed"),
    }
    let token = state.generate_challenge_token("quarantine.restore_as", T0);
    fields.token = Some(token);
    fields.dest = Some("x".repeat(4097));
    match state.gate.route_request(&state.registry, "quarantine.restore_as", &fields, T0).0 {
        Outcome::Refuse { error } => assert_eq!(error, "id/dest param too long"),
        _ => panic!("the destination is too long"),
    }
    let token = state.generate_challenge_token("quarantine.add", T0);
    fields.token = Some(token);
    fields.virus_name = Some("x".repeat(257));
    match state.gate.route_request(&state.registry, "quarantine.add", &fields, T0).0 {
        Outcome::Reject { message, .. } => assert_eq!(message, "quarantine.add param too long"),
        _ => panic!("the name is too long"),
    }
    let mut fields = with_secret();
    fields.scan_id = Some("s-1".to_string());
    match state.gate.route_request(&state.registry, "detections.list", &fields, T0).0 {
        Outcome::Perform(Action::DetectionsOf { scan_id }) => assert_eq!(scan_id, "s-1"),
        _ => panic!("the detections of one scan"),
    }
}

#[test]
fn entries_of_lists_are_checked() {
    let error = |kind: ListKind, entry: &str| check_entry(kind, entry);
    let long = "x".repeat(4097);
    assert_eq!(error(ListKind::ExcludedPath, "  ").as_deref(), Some("empty entry"));
    assert_eq!(error(ListKind::ExcludedPath, &long).as_deref(), Some("path too long"));
    assert_eq!(
        error(ListKind::ExcludedPath, "C:\\").as_deref(),
        Some("\"C:\\\\\" would exclude critical system area")
    );
    assert_eq!(error(ListKind::ExcludedPath, "D:\\work\\out"), None);
    assert_eq!(error(ListKind::Root, "").as_deref(), Some("empty entry"));
    assert_eq!(error(ListKind::Root, &long).as_deref(), Some("path too long"));
    assert_eq!(
        error(ListKind::Root, "C:\\").as_deref(),
        Some("\"C:\\\\\" is too broad — would hang the watcher in reparse loops")
    );
    assert_eq!(error(ListKind::Extension, ".").as_deref(), Some("empty entry"));
    assert_eq!(
        error(ListKind::Extension, &"x".repeat(17)).as_deref(),
        Some("extension too long")
    );
    assert_eq!(
        error(ListKind::Extension, "*").as_deref(),
        Some("globs and path separators rejected")
    );
    assert_eq!(
        error(ListKind::Extension, "e-e").as_deref(),
        Some("extension must be ASCII alphanumeric")
    );
    assert_eq!(error(ListKind::Extension, ".TXT"), None);
    assert_eq!(
        error(ListKind::Detection, " ").as_deref(),
        Some("empty entry rejected (would silence ALL detections)")
    );
    assert_eq!(
        error(ListKind::Detection, &"x".repeat(257)).as_deref(),
        Some("detection name too long")
    );
    assert_eq!(
        error(ListKind::Hash, "xyz").as_deref(),
        Some("must be 64-char lowercase hex SHA-256")
    );
    assert_eq!(error(ListKind::Hash, &"AB".repeat(32)), None);
    assert_eq!(
        check_worker_path("").as_deref(),
        Some("argus_worker_path: empty or too long")
    );
    assert_eq!(
        check_worker_path("..\\evil.exe").as_deref(),
        Some("argus_worker_path=\"..\\\\evil.exe\" rejected (dangerous or traversal)")
    );
    assert_eq!(
        check_worker_path("D:\\tools\\worker.dll").as_deref(),
        Some("argus_worker_path=\"D:\\\\tools\\\\worker.dll\" must end with .exe")
    );
    assert_eq!(check_worker_path("D:\\tools\\worker.EXE"), None);
}

fn verdict(score: u32) -> ArgusVerdict {
    ArgusVerdict {
        path: "C:\\x".to_string(),
        file_size: 9,
        score,
        label: "Clean".to_string(),
        findings: Vec::new(),
        timing: None,
    }
}

fn clam(infected: bool, error: Option<&str>) -> ClamResult {
    ClamResult { infected, virus_name: None, error: error.map(|e| e.to_string()) }
}

fn left(step: FileStep) -> FileEnd {
    match step {
        FileStep::Leave(end) => end,
        _ => panic!("the file is done with"),
    }
}

#[test]
fn files_are_passed_over() {
    let (pipeline, step) = FilePipeline::start("C:\\x", Ok(11), 10, false);
    assert_eq!(pipeline.stage, FileStage::Over);
    let end = left(step);
    assert!(end.counted && end.errors.is_empty() && !end.remember_clean);
    let (_, step) = FilePipeline::start("C:\\x", Ok(1), 10, true);
    assert!(left(step).counted);
    let (_, step) = FilePipeline::start("C:\\x", Err("denied"), 10, false);
    assert_eq!(left(step).errors, vec!["C:\\x: denied".to_string()]);
}

#[test]
fn file_goes_through_the_engines() {
    let (mut pipeline, step) = FilePipeline::start("C:\\x", Ok(1), 10, false);
    assert!(matches!(step, FileStep::RunSignatures));
    let step = pipeline.signatures_done(clam(false, None), true, false);
    assert!(matches!(step, FileStep::RunHeuristics));
    let step = pipeline.heuristics_done(Ok(Some("worker hung".to_string())), true, true);
    assert!(matches!(step, FileStep::WeighTimeouts));
    assert_eq!(pipeline.timeouts, vec![TimeoutReason::ClamAv, TimeoutReason::Yara]);
    let mut counters = BudgetCounters::new();
    let (score, completed, step) =
        pipeline.timeouts_weighed(&mut counters, 80, 30, BudgetOutcome::Partial, true);
    assert_eq!(score, 100);
    assert!(!completed);
    assert!(matches!(step, FileStep::GatherEvidence { streams: false }));
    assert_eq!(counters.files_with_timeouts, 1);
    assert_eq!(counters.yara_timeouts, 1);
    assert_eq!(counters.partial_results, 1);
    let end = pipeline.conclude(&verdict(score), &[]);
    assert!(end.threat.is_some() && !end.remember_clean && end.counted);
    assert_eq!(end.errors, vec!["C:\\x: worker hung".to_string()]);
    assert_eq!(pipeline.stage, FileStage::Over);
}

#[test]
fn clean_file_builds_familiarity() {
    let (mut pipeline, _) = FilePipeline::start("C:\\x", Ok(1), 10, false);
    pipeline.signatures_done(clam(false, None), false, false);
    pipeline.heuristics_done(Ok(None), true, false);
    let mut counters = BudgetCounters::new();
    let (score, completed, _) =
        pipeline.timeouts_weighed(&mut counters, 0, 0, BudgetOutcome::Complete, false);
    assert!(completed);
    assert_eq!(counters.files_with_timeouts, 0);
    let end = pipeline.conclude(&verdict(score), &[]);
    assert!(end.remember_clean && end.observe_trust && !end.findings);
}

#[test]
fn file_out_of_time_is_cut_short() {
    let (mut pipeline, _) = FilePipeline::start("C:\\x", Ok(1), 10, false);
    let end = left(pipeline.signatures_done(clam(true, Some("odd")), false, true));
    assert_eq!(end.threat.map(|d| d.virus_name).as_deref(), Some("Unknown"));
    assert!(end.errors.is_empty() && !end.remember_clean && end.counted);
    assert_eq!(pipeline.timeouts, vec![TimeoutReason::Total]);
    let (mut pipeline, _) = FilePipeline::start("C:\\x", Ok(1), 10, false);
    let end = left(pipeline.signatures_done(clam(false, None), false, true));
    assert!(end.threat.is_none() && end.remember_clean && !end.observe_trust);
}

#[test]
fn cancelled_helper_ends_the_thread() {
    let (mut pipeline, _) = FilePipeline::start("C:\\x", Ok(1), 10, false);
    pipeline.signatures_done(clam(false, None), false, false);
    let end = left(pipeline.heuristics_done(Err("scan cancelled".to_string()), false, false));
    assert!(end.leave_job && !end.counted);
    assert_eq!(end.errors, vec!["C:\\x: scan cancelled".to_string()]);
}

#[test]
fn ecosystem_is_told_of_scores() {
    let plan = plan_ecosystem(45, 2);
    assert!(plan.consult);
    assert_eq!(plan.evidence, Some(("2 findings, score 45".to_string(), 4)));
    assert_eq!(plan_ecosystem(200, 1).evidence.map(|e| e.1), Some(10));
    assert_eq!(plan_ecosystem(45, 0).evidence, None);
    assert!(!plan_ecosystem(0, 3).consult);
}

#[test]
fn queued_file_job_heeds_cancellation() {
    let mut job = FileJob::new();
    assert_eq!(job.advance(FileJobEvent::Taken { cancelled: true }), FileJobStep::Cancel);
    assert_eq!(job.stage, FileJobStage::Over);
    let mut job = FileJob::new();
    assert_eq!(job.advance(FileJobEvent::Taken { cancelled: false }), FileJobStep::LookUp);
    let step = job.advance(FileJobEvent::LookedUp { exists_on_disk: true, excluded: false });
    assert_eq!(step, FileJobStep::RunSignatures);
    let step = job.advance(FileJobEvent::SignaturesDone { cancelled: false });
    assert_eq!(step, FileJobStep::RunHeuristics);
    let step = job.advance(FileJobEvent::HeuristicsDone { cancelled: false });
    assert_eq!(step, FileJobStep::Succeed);
    assert_eq!(step_error(step), None);
    for (exists_on_disk, excluded, error) in
        [(false, true, "File not found"), (true, true, "Path excluded by configuration")]
    {
        let mut job = FileJob::new();
        job.advance(FileJobEvent::Taken { cancelled: false });
        let step = job.advance(FileJobEvent::LookedUp { exists_on_disk, excluded });
        assert_eq!(step_error(step), Some(error));
    }
}
