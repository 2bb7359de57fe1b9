//! Verdicts, scan jobs and the scan slot.

use arc_swap::ArcSwap;
use sentinelld::engine::{
    begin_reload, compute_db_stale, dated_files, engine_status, finish_reload, is_db_stale, later_of,
    newest_signature_db_mtime_secs, parse_cvd_header, read_cvd_version, reload_phase_from_u8,
    reload_phase_u8, stale_threshold_hours, version_files, CommittedState, CvdVersion, DbStamp,
    EngineSnapshot, FileHead, ReloadPhase, ReloadState,
};
use sentinelld::scan::board::{queued_file_start, ScanBoard, MAX_SCAN_HISTORY};
use sentinelld::scan::job::{
    duration_ms, Detection, ScanJob, ScanJobStatus, ScanLiveState, ScanResultResponse,
};
use sentinelld::scan::perf::ScanPerformanceSummary;
use sentinelld::scan::pipeline::{report_file, FileEnd};
use sentinelld::scan::start::{
    file_gate, gate_error, max_depth, max_file_size, quick_targets, route_scan, scan_threads,
    start_folder_scan, start_orchestrated_file_scan, start_orchestrated_full_scan,
    start_orchestrated_quick_scan, start_quick_scan, unknown_scan_type, FileGate, QueueFlags,
    ScanRoute, DEFAULT_MAX_FILE_SIZE,
};
use sentinelld::scan::startup::{
    choose_targets, is_launchable, keep_target, wants_temporary_file, StartupCheck, StartupStep,
    PathPart, StartupTarget, DAY,
};
use sentinelld::scan::verdict::{
    unify_detection_filtered, ArgusVerdict, Finding, Layer, ScanStrategy, ScanTiming,
};
use sentinelld::scan::worker::{
    apply_timeouts, begin_worker, conclude_file, conclude_partial, drift_escalation,
    ecosystem_weight, finish_folder_scan, may_enter, recurrence_bonus, screen_file, show_total,
    shows_progress, visit_entry, BudgetCounters, BudgetOutcome, ClamResult, EntryFacts, FileReport,
    FileScreen, FileTiming, JobEnd, ScanMsg, ScanTally, TimeoutReason, Visit,
};
use sentinelld::footprint::pressure::PressureState;
use std::sync::Arc;

fn mk_job(id: &str, kind: &str) -> ScanJob {
    ScanJob::new(id, kind, ScanJobStatus::Pending, 0, 0, "")
}

fn make_verdict(score: u32) -> ArgusVerdict {
    ArgusVerdict {
        path: "C:\\test\\sample.exe".to_string(),
        file_size: 1024,
        score,
        label: "Clean".to_string(),
        findings: Vec::new(),
        timing: None,
    }
}

fn make_verdict_with_finding(score: u32, layer: Layer, desc: &str) -> ArgusVerdict {
    let mut v = make_verdict(score);
    v.findings.push(Finding { layer, weight: score, description: desc.to_string() });
    v
}

fn clean() -> ClamResult {
    ClamResult { infected: false, virus_name: None, error: None }
}

fn infected(name: &str) -> ClamResult {
    ClamResult { infected: true, virus_name: Some(name.to_string()), error: None }
}

#[test]
fn db_stale_uses_3_day_threshold_and_handles_restart() {
    let now = 1_700_000_000_i64;
    let hour = 3600;
    let day = 24 * hour;
    assert_eq!(compute_db_stale(Some(now), now, 72), (false, 0));
    assert_eq!(compute_db_stale(Some(now - 2 * day), now, 72).0, false);
    assert_eq!(compute_db_stale(Some(now - 4 * day), now, 72).0, true);
    assert_eq!(compute_db_stale(Some(now - 3 * day), now, 72), (false, 72));
    assert_eq!(compute_db_stale(None, now, 72), (true, 0));
    assert_eq!(compute_db_stale(Some(now + day), now, 72), (false, 0));
}

#[test]
fn loaded_signatures_of_unknown_age_are_not_stale() {
    assert!(!is_db_stale(100, None, 0, 72));
    assert!(is_db_stale(0, None, 0, 72));
    assert_eq!(stale_threshold_hours(None), 72);
    assert_eq!(stale_threshold_hours(Some(0)), 24);
    assert_eq!(stale_threshold_hours(Some(99)), 720);
    assert_eq!(later_of(Some(3), Some(5)), Some(5));
    assert_eq!(newest_signature_db_mtime_secs(&vec![None, Some(7), Some(4)]), Some(7));
    assert_eq!(newest_signature_db_mtime_secs(&vec![]), None);
}

#[test]
fn scan_threads_in_sane_range() {
    for cores in [None, Some(1), Some(2), Some(6), Some(16), Some(128)] {
        let n = scan_threads(cores);
        assert!((2..=8).contains(&n), "scan threads {n} must be in [2,8]");
    }
    assert_eq!(scan_threads(Some(12)), 6);
}

#[test]
fn reserve_active_scan_serializes_and_recovers_on_terminal_state() {
    let mut inner = ScanBoard::new();
    assert!(
        inner.reserve_active_scan(mk_job("first", "file")).is_ok(),
        "first reserve must succeed"
    );
    let reject = inner
        .reserve_active_scan(mk_job("second", "quick"))
        .expect_err("second reserve must be rejected while a scan is in flight");
    assert_eq!(reject.status, "error");
    assert_eq!(reject.job_id, "first", "rejection must name the in-flight job");
    assert!(reject.error.unwrap_or_default().contains("already"));
    assert_eq!(
        inner.active_scan.as_ref().map(|j| j.id.clone()),
        Some("first".to_string()),
        "rejected reserve must NOT overwrite the in-flight job"
    );
    for terminal in [
        ScanJobStatus::Completed,
        ScanJobStatus::Cancelled,
        ScanJobStatus::Failed,
    ] {
        inner.active_scan.as_mut().expect("active_scan present").status = terminal;
        assert!(
            inner.reserve_active_scan(mk_job("next", "full")).is_ok(),
            "reserve must succeed once the prior scan is terminal"
        );
    }
}

#[test]
fn clamav_positive_argus_low_score_is_infected() {
    let argus = make_verdict(20);
    let (infected, name) = unify_detection_filtered(true, Some("Win.Trojan.Agent"), &argus, &[]);
    assert!(infected, "ClamAV positive should always be infected");
    let n = name.unwrap();
    assert!(n.contains("Win.Trojan.Agent"), "name should contain ClamAV detection: {n}");
    assert!(!n.contains("ARGUS"), "low ARGUS score should not be annotated: {n}");
}

#[test]
fn clamav_positive_argus_high_score_includes_argus_annotation() {
    let argus = make_verdict(90);
    let (infected, name) = unify_detection_filtered(true, Some("Win.Trojan.Agent"), &argus, &[]);
    assert!(infected);
    let n = name.unwrap();
    assert!(n.contains("Win.Trojan.Agent"), "should contain ClamAV name: {n}");
    assert!(n.contains("ARGUS: 90/100"), "should annotate ARGUS score when > 50: {n}");
}

#[test]
fn clamav_positive_no_name_defaults_to_malware_generic() {
    let argus = make_verdict(10);
    let (infected, name) = unify_detection_filtered(true, None, &argus, &[]);
    assert!(infected);
    let n = name.unwrap();
    assert!(
        n.contains("Malware.Generic"),
        "missing ClamAV name should default to Malware.Generic: {n}"
    );
}

#[test]
fn clamav_negative_argus_85_is_infected() {
    let argus =
        make_verdict_with_finding(85, Layer::PatternDetection, "Discord token stealer pattern");
    let (infected, name) = unify_detection_filtered(false, None, &argus, &[]);
    assert!(infected, "ARGUS score >= 85 without ClamAV should be infected");
    let n = name.unwrap();
    assert!(n.starts_with("ARGUS/"), "ARGUS-only detection should start with ARGUS/: {n}");
    assert!(n.contains("85/100"), "should contain ARGUS score: {n}");
}

#[test]
fn clamav_negative_argus_score_50_not_infected() {
    let argus = make_verdict(50);
    let (infected, name) = unify_detection_filtered(false, None, &argus, &[]);
    assert!(!infected, "ARGUS score 50 without ClamAV should NOT be infected");
    assert!(name.is_none());
}

#[test]
fn clamav_negative_argus_score_84_not_infected() {
    let argus = make_verdict(84);
    let (infected, name) = unify_detection_filtered(false, None, &argus, &[]);
    assert!(
        !infected,
        "ARGUS score 84 without ClamAV should NOT be infected (threshold is 85)"
    );
    assert!(name.is_none());
}

#[test]
fn clamav_negative_argus_score_0_not_infected() {
    let argus = make_verdict(0);
    let (infected, name) = unify_detection_filtered(false, None, &argus, &[]);
    assert!(!infected);
    assert!(name.is_none());
}

#[test]
fn clamav_negative_argus_100_is_infected() {
    let argus = make_verdict_with_finding(
        100,
        Layer::IocCorrelation,
        "SHA-256 matches known malware IOC",
    );
    let (infected, name) = unify_detection_filtered(false, None, &argus, &[]);
    assert!(infected);
    let n = name.unwrap();
    assert!(n.contains("IOC.KnownMalicious"), "IOC layer → IOC.KnownMalicious: {n}");
}

#[test]
fn exclusion_suppresses_clamav_detection() {
    let argus = make_verdict(10);
    let exclusions = vec!["Win.Trojan.Agent".to_string()];
    let (infected, name) =
        unify_detection_filtered(true, Some("Win.Trojan.Agent-12345"), &argus, &exclusions);
    assert!(!infected, "excluded detection should NOT be reported as infected");
    assert!(name.is_none());
}

#[test]
fn exclusion_is_case_insensitive() {
    let argus = make_verdict(10);
    let exclusions = vec!["win.trojan.agent".to_string()];
    let (infected, name) =
        unify_detection_filtered(true, Some("Win.Trojan.Agent-999"), &argus, &exclusions);
    assert!(!infected, "case-insensitive exclusion should suppress detection");
    assert!(name.is_none());
}

#[test]
fn exclusion_substring_match() {
    let argus = make_verdict(60);
    let exclusions = vec!["Trojan".to_string()];
    let (infected, _) =
        unify_detection_filtered(true, Some("Win.Trojan.Generic-42"), &argus, &exclusions);
    assert!(!infected, "substring exclusion should match");
}

#[test]
fn exclusion_no_match_still_infected() {
    let argus = make_verdict(60);
    let exclusions = vec!["Ransomware".to_string()];
    let (infected, name) =
        unify_detection_filtered(true, Some("Win.Trojan.Agent"), &argus, &exclusions);
    assert!(infected, "non-matching exclusion should leave detection intact");
    assert!(name.is_some());
}

#[test]
fn exclusion_suppresses_argus_only_detection() {
    let argus = make_verdict_with_finding(90, Layer::PatternDetection, "Discord token stealer");
    let exclusions = vec!["Stealer.Discord".to_string()];
    let (infected, name) = unify_detection_filtered(false, None, &argus, &exclusions);
    assert!(!infected, "ARGUS-only detection should be suppressible by exclusion");
    assert!(name.is_none());
}

#[test]
fn empty_exclusion_list_does_not_suppress() {
    let argus = make_verdict(10);
    let (infected, name) = unify_detection_filtered(true, Some("Win.Trojan.Agent"), &argus, &[]);
    assert!(infected);
    assert!(name.is_some());
}

#[test]
fn argus_only_packer_layer_gives_packed_suspicious() {
    let argus = make_verdict_with_finding(90, Layer::PackerDetection, "UPX packer detected");
    let (infected, name) = unify_detection_filtered(false, None, &argus, &[]);
    assert!(infected);
    let n = name.unwrap();
    assert!(
        n.contains("Packed.Suspicious"),
        "PackerDetection layer should yield Packed.Suspicious: {n}"
    );
}

#[test]
fn argus_only_script_layer_gives_script_malicious() {
    let argus =
        make_verdict_with_finding(92, Layer::ScriptAnalysis, "Obfuscated PowerShell dropper");
    let (infected, name) = unify_detection_filtered(false, None, &argus, &[]);
    assert!(infected);
    let n = name.unwrap();
    assert!(
        n.contains("Script.Malicious"),
        "ScriptAnalysis layer should yield Script.Malicious: {n}"
    );
}

#[test]
fn argus_only_deception_layer_gives_deception_disguised() {
    let argus = make_verdict_with_finding(95, Layer::FileDeception, "RTLO character in filename");
    let (infected, name) = unify_detection_filtered(false, None, &argus, &[]);
    assert!(infected);
    let n = name.unwrap();
    assert!(
        n.contains("Deception.Disguised"),
        "FileDeception layer should yield Deception.Disguised: {n}"
    );
}

#[test]
fn argus_only_no_findings_defaults_to_suspicious_behavior() {
    let argus = make_verdict(85);
    let (infected, name) = unify_detection_filtered(false, None, &argus, &[]);
    assert!(infected);
    let n = name.unwrap();
    assert!(
        n.contains("Suspicious.Behavior"),
        "no findings should default to Suspicious.Behavior: {n}"
    );
}

#[test]
fn max_file_size_returns_config_not_hardcoded() {
    let size = max_file_size(None);
    assert_eq!(
        size, DEFAULT_MAX_FILE_SIZE,
        "without config, max_file_size should equal DEFAULT_MAX_FILE_SIZE"
    );
    assert_eq!(
        DEFAULT_MAX_FILE_SIZE,
        512 * 1024 * 1024,
        "DEFAULT_MAX_FILE_SIZE should be 512 MB"
    );
    assert_eq!(max_file_size(Some(3)), 3 * 1024 * 1024);
}

fn make_live_state() -> ScanLiveState {
    ScanLiveState {
        id: "test-scan-001".to_string(),
        kind: "quick".to_string(),
        started_at: 0,
        files_total: 0,
        files_scanned: 0,
        threats_found: 0,
        cancel_flag: false,
        status: 0,
        current_path: String::new(),
    }
}

#[test]
fn scan_job_status_pending_to_running() {
    let mut live = make_live_state();
    assert!(live.status_enum() == ScanJobStatus::Pending, "initial status should be Pending");
    live.set_status(ScanJobStatus::Running);
    assert!(live.status_enum() == ScanJobStatus::Running, "should transition to Running");
}

#[test]
fn scan_job_status_running_to_completed() {
    let mut live = make_live_state();
    live.set_status(ScanJobStatus::Running);
    live.set_status(ScanJobStatus::Completed);
    assert!(live.status_enum() == ScanJobStatus::Completed, "should transition to Completed");
}

#[test]
fn scan_job_status_running_to_cancelled() {
    let mut live = make_live_state();
    live.set_status(ScanJobStatus::Running);
    live.set_status(ScanJobStatus::Cancelled);
    assert!(live.status_enum() == ScanJobStatus::Cancelled, "should transition to Cancelled");
}

#[test]
fn scan_job_status_running_to_draining_to_cancelled() {
    let mut live = make_live_state();
    live.set_status(ScanJobStatus::Running);
    live.set_status(ScanJobStatus::Draining);
    assert!(live.status_enum() == ScanJobStatus::Draining, "should transition to Draining");
    live.set_status(ScanJobStatus::Cancelled);
    assert!(
        live.status_enum() == ScanJobStatus::Cancelled,
        "should transition from Draining to Cancelled"
    );
}

#[test]
fn scan_job_status_running_to_failed() {
    let mut live = make_live_state();
    live.set_status(ScanJobStatus::Running);
    live.set_status(ScanJobStatus::Failed);
    assert!(live.status_enum() == ScanJobStatus::Failed, "should transition to Failed");
}

#[test]
fn scan_job_status_cancel_flag_is_initially_false() {
    let live = make_live_state();
    assert!(!live.cancel_flag, "cancel flag should be false on construction");
}

fn slot_with(engine: u32) -> EngineSnapshot<Arc<u32>> {
    EngineSnapshot { engine: Some(Arc::new(engine)), last_error: None }
}

#[test]
fn arcswap_engine_slot_preserves_in_flight_arc_across_swap() {
    let slot: ArcSwap<EngineSnapshot<Arc<u32>>> = ArcSwap::new(Arc::new(slot_with(11)));
    let held = slot.load().engine.clone().expect("slot was Some");
    assert_eq!(*held, 11);
    let prev = slot.swap(Arc::new(slot_with(22)));
    assert_eq!(*held, 11);
    let after = slot.load().engine.clone().expect("slot was Some");
    assert_eq!(*after, 22);
    drop(prev);
    assert_eq!(*held, 11);
}

#[test]
fn failed_reload_keeps_the_engine() {
    let mut state = ReloadState { in_progress: false, phase: 0 };
    let mut slot = slot_with(1);
    let mut committed = CommittedState { signature_count: 10, db: None };
    let on_disk = CvdVersion { version: Some(27_000), timestamp: Some(1_700_000_000) };

    assert!(begin_reload(&mut state, true).is_none());
    assert_eq!(begin_reload(&mut state, true), Some("engine reload already in progress"));
    let event = finish_reload(
        &mut state,
        &mut slot,
        &mut committed,
        Err("corrupt CVD".to_string()),
        on_disk,
    );
    assert_eq!(event.title, "Engine reload failed");
    assert_eq!(slot.engine.as_deref(), Some(&1));
    assert_eq!(slot.last_error.as_deref(), Some("corrupt CVD"));
    assert_eq!(committed.signature_count, 10);
    assert_eq!(reload_phase_from_u8(state.phase), ReloadPhase::Failed);

    assert_eq!(
        begin_reload(&mut state, false),
        Some("DLL or DB directory not configured")
    );
    assert!(begin_reload(&mut state, true).is_none());
    let event =
        finish_reload(&mut state, &mut slot, &mut committed, Ok((Arc::new(2), 42)), on_disk);
    assert_eq!(event.title, "Engine reloaded — 42 signatures");
    assert_eq!(slot.engine.as_deref(), Some(&2));
    assert!(slot.last_error.is_none());
    assert_eq!(
        committed.db,
        Some(DbStamp { version: Some(27_000), timestamp: 1_700_000_000 })
    );
    let report = engine_status(&slot, &committed, CvdVersion { version: None, timestamp: None }, None, state.phase);
    assert!(report.ready);
    assert_eq!(report.db_version, Some(27_000));
    assert_eq!(reload_phase_u8(ReloadPhase::Activating), 2);
}

#[test]
fn signature_header_is_read() {
    let header = "ClamAV-VDB:07 Nov 2023 10-15 +0000:27086:2054000:90:hash:sig:1699348502\nrest";
    let v = parse_cvd_header(header).expect("a header");
    assert_eq!(v.version, Some(27086));
    assert_eq!(v.timestamp, Some(1699348502));
    let header = "ClamAV-VDB:date:27086:2054000:90:hash:builder: 1699348502 :x";
    let v = parse_cvd_header(header).expect("a header");
    assert_eq!(v.timestamp, Some(1699348502));
    assert!(parse_cvd_header("PK:1:2").is_none());
    let head = |text: &str, bytes_read: usize| Some(FileHead { bytes_read, text: text.to_string() });
    let v = read_cvd_version(&vec![
        None,
        head("nonsense", 512),
        head("ClamAV-VDB:t:9:1", 20),
        head(header, 512),
    ]);
    assert_eq!(v.version, Some(27086));
    assert_eq!(version_files(), vec!["daily.cvd", "daily.cld", "main.cvd", "main.cld"]);
    assert_eq!(dated_files().len(), 6);
}

#[test]
fn scans_are_routed() {
    let none = QueueFlags { file: false, folder: false, quick: false, full: false };
    let all = QueueFlags { file: true, folder: true, quick: true, full: true };
    assert_eq!(route_scan("file", none), ScanRoute::SingleFile);
    assert_eq!(route_scan("file", all), ScanRoute::QueuedFile);
    assert_eq!(route_scan("full", all), ScanRoute::QueuedFull);
    assert_eq!(route_scan("startup", all), ScanRoute::Startup);
    assert_eq!(route_scan("deep", all), ScanRoute::Unknown);
    let answer = unknown_scan_type("id-1", "deep");
    assert_eq!(answer.error.as_deref(), Some("Unknown scan type: deep"));
    assert_eq!(max_depth("quick"), 3);
    assert_eq!(max_depth("full"), 10);
    assert_eq!(
        quick_targets("C:\\Users\\a", None),
        vec![
            "C:\\Users\\a\\Downloads".to_string(),
            "C:\\Users\\a\\Desktop".to_string(),
            "C:\\Users\\a\\AppData\\Local\\Temp".to_string(),
        ]
    );
}

#[test]
fn queued_file_scan_runs_to_its_end() {
    let mut board = ScanBoard::new();
    let job = start_orchestrated_file_scan(&mut board, "job-1", 100, Some("C:\\x.exe"))
        .expect("the slot is free");
    assert_eq!(board.scan_status().state, "queued");
    let refusal = start_quick_scan(&mut board, "job-2", 100).err().expect("the slot is taken");
    assert_eq!(
        refusal.error.as_deref(),
        Some("Another scan is already queued — cancel it or wait")
    );
    assert_eq!(file_gate(false, true, false), FileGate::Scan);
    assert_eq!(gate_error(file_gate(false, false, false)), Some("File not found"));
    assert_eq!(
        gate_error(file_gate(false, true, true)),
        Some("Path excluded by configuration")
    );
    board.mark_running("job-1");
    assert!(board.is_scan_active());
    let result = ScanResultResponse {
        path: "C:\\x.exe".to_string(),
        infected: true,
        virus_name: Some("Win.Test".to_string()),
        scanned_bytes: 10,
        error: None,
    };
    let done =
        board.complete_orchestrated_file_success(&job, &result, "Malicious", None, 1500, 102);
    assert_eq!(done.detection.as_ref().map(|d| d.virus_name.as_str()), Some("Win.Test"));
    assert!(!board.is_scan_active());
    assert_eq!(board.counters.completed_file, 1);
    assert_eq!(board.scan_history().len(), 1);
    assert!(start_orchestrated_full_scan(&mut board, "job-3", 103).is_ok());
}

#[test]
fn missing_targets_are_refused() {
    let mut board = ScanBoard::new();
    assert!(start_orchestrated_file_scan(&mut board, "a", 0, Some("  ")).is_err());
    assert!(start_folder_scan(&mut board, "a", 0, Some("C:\\nowhere"), false).is_err());
    assert!(start_orchestrated_quick_scan(&mut board, "a", 0, false).is_err());
    assert_eq!(board.scan_status().state, "idle");
}

#[test]
fn waiting_scan_is_cancelled_at_once() {
    let mut board = ScanBoard::new();
    assert!(board.begin(&queued_file_start("C:\\x"), "job-1", 5).is_ok());
    assert!(board.cancel_scan());
    assert_eq!(board.scan_status().state, "cancelled");
    assert!(board.begin(&queued_file_start("C:\\y"), "job-2", 6).is_ok());
    board.mark_running("job-2");
    assert!(board.cancel_scan());
    assert_eq!(board.scan_status().state, "cancelling");
}

#[test]
fn history_is_bounded() {
    let mut board = ScanBoard::new();
    for i in 0..(MAX_SCAN_HISTORY + 5) {
        let id = format!("job-{i}");
        let job = start_orchestrated_file_scan(&mut board, &id, 0, Some("C:\\x")).expect("free");
        let result = ScanResultResponse {
            path: "C:\\x".to_string(),
            infected: false,
            virus_name: None,
            scanned_bytes: 1,
            error: None,
        };
        let done = board.complete_orchestrated_file_success(&job, &result, "Clean", None, 1, 1);
        assert!(done.detection.is_none());
    }
    assert!(board.scan_history.len() <= MAX_SCAN_HISTORY);
}

#[test]
fn folder_scan_is_summed_up() {
    let mut board = ScanBoard::new();
    assert!(start_folder_scan(&mut board, "f-1", 10, Some("C:\\dir"), true).is_ok());
    begin_worker(&mut board, "f-1", "folder", 10, false, false);
    let mut tally = ScanTally::new(1);
    let detection =
        Detection { path: "C:\\dir\\a".to_string(), virus_name: "Win.Test".to_string() };
    show_total(&mut board, 1000);
    assert_eq!(board.scan_live.as_ref().map(|l| l.files_total), Some(1000));
    for (threat, errors) in [(None, vec!["C:\\dir\\b: odd".to_string()]), (Some(detection), vec![])]
    {
        let file = FileEnd {
            errors,
            threat,
            findings: false,
            counted: true,
            remember_clean: false,
            observe_trust: false,
            leave_job: false,
        };
        let msgs = report_file(&mut board, file, None);
        assert_eq!(msgs.len(), 1);
        for msg in msgs {
            assert!(!tally.absorb(&mut board, msg));
        }
    }
    let given_up = FileEnd {
        errors: Vec::new(),
        threat: None,
        findings: true,
        counted: false,
        remember_clean: false,
        observe_trust: false,
        leave_job: true,
    };
    let msgs = report_file(&mut board, given_up, None);
    assert!(matches!(msgs[0], ScanMsg::Findings(None)));
    assert!(tally.absorb(&mut board, ScanMsg::Done));
    let end = JobEnd {
        id: "f-1".to_string(),
        kind: "folder".to_string(),
        from_queue: false,
        cancelled: false,
        files_discovered: 2,
        targets: "C:\\dir".to_string(),
        finished: 12,
    };
    let (row, _event, detections) = finish_folder_scan(&mut board, &end, tally);
    assert_eq!(row.files_scanned, 2);
    assert_eq!(row.threats_found, 1);
    assert_eq!(row.duration_ms, 2000);
    assert_eq!(detections.len(), 1);
    let job = board.active_scan.as_ref().expect("the job stays on the board");
    assert_eq!(job.detections.len() as u64, job.threats_found);
    assert!(job.files_scanned <= job.files_total);
    assert!(!board.is_scan_active());
    assert!(start_quick_scan(&mut board, "q-1", 13).is_ok());
}

#[test]
fn walk_skips_what_it_should() {
    let plain = EntryFacts {
        reparse_point: false,
        excluded: false,
        is_dir: false,
        is_file: true,
        skippable: false,
        own: false,
    };
    assert_eq!(visit_entry(plain), Visit::Emit);
    assert_eq!(visit_entry(EntryFacts { reparse_point: true, ..plain }), Visit::Skip);
    assert_eq!(visit_entry(EntryFacts { excluded: true, ..plain }), Visit::Skip);
    assert_eq!(visit_entry(EntryFacts { own: true, ..plain }), Visit::Skip);
    assert_eq!(
        visit_entry(EntryFacts { is_dir: true, is_file: false, ..plain }),
        Visit::Descend
    );
    assert!(may_enter(1, false));
    assert!(!may_enter(0, false));
    assert!(!may_enter(3, true));
    assert!(shows_progress(2000));
    assert!(!shows_progress(2001));
}

#[test]
fn files_are_screened_and_concluded() {
    assert!(matches!(screen_file("p", Ok(11), 10, false), FileScreen::TooLarge));
    assert!(matches!(screen_file("p", Ok(10), 10, true), FileScreen::Cached));
    assert!(matches!(screen_file("p", Ok(10), 10, false), FileScreen::Scan));
    match screen_file("p", Err("denied"), 10, false) {
        FileScreen::Unreadable(m) => assert_eq!(m, "p: denied"),
        _ => panic!("unreadable"),
    }
    let partial = conclude_partial("p", &infected("Win.Test"));
    assert_eq!(partial.threat.map(|d| d.virus_name), Some("Win.Test".to_string()));
    assert!(!partial.cache_clean);
    let c = conclude_file("p", &clean(), &make_verdict(10), None, &[]);
    assert!(matches!(c.report, FileReport::Nothing));
    assert!(c.cache_clean);
    let c = conclude_file("p", &infected("Win.Test"), &make_verdict(90), None, &[]);
    assert!(matches!(c.report, FileReport::Threat(_)));
    assert!(!c.cache_clean);
}

#[test]
fn timeouts_raise_the_score() {
    let mut counters = BudgetCounters::new();
    let score = apply_timeouts(
        &mut counters,
        95,
        10,
        &vec![TimeoutReason::Yara, TimeoutReason::ClamAv],
        BudgetOutcome::Partial,
    );
    assert_eq!(score, 100);
    assert_eq!(counters.files_with_timeouts, 1);
    assert_eq!(counters.yara_timeouts, 1);
    assert_eq!(counters.clamav_timeouts, 1);
    assert_eq!(counters.partial_results, 1);
    let mut untouched = BudgetCounters::new();
    assert_eq!(apply_timeouts(&mut untouched, 40, 0, &vec![], BudgetOutcome::Complete), 40);
    assert_eq!(untouched, BudgetCounters::new());
    assert_eq!(drift_escalation(&vec![]), Some(0));
    let drifts = vec![
        Finding { layer: Layer::Other, weight: 7, description: "Signer DRIFT".to_string() },
        Finding { layer: Layer::Other, weight: 9, description: "other".to_string() },
        Finding { layer: Layer::Other, weight: 5, description: "path drift".to_string() },
    ];
    assert_eq!(drift_escalation(&drifts), Some(12));
    assert_eq!(ecosystem_weight(57), 5);
    assert_eq!(ecosystem_weight(250), 10);
    assert_eq!(recurrence_bonus(3), 6);
    assert_eq!(recurrence_bonus(9), 8);
    assert_eq!(ecosystem_weight(0), 0);
    assert_eq!(recurrence_bonus(0), 0);
}

#[test]
fn slowest_files_are_ranked() {
    let mut perf = ScanPerformanceSummary::default();
    for i in 0..15u64 {
        let timing = ScanTiming {
            strategy: Some(ScanStrategy::FullAnalysis),
            argus_total_us: 150_000 + i * 1000,
            yara_us: 1,
            hash_us: 1,
            clamav_us: 2,
        };
        perf.record_file(&format!("f{i}"), 10, &timing);
    }
    assert_eq!(perf.strategy_full, 15);
    assert_eq!(perf.slowest_files.len(), 10);
    assert_eq!(perf.slowest_files[0].path, "f14");
    let kept: Vec<u64> = perf.slowest_files.iter().map(|f| f.time_us).collect();
    assert_eq!(kept, (5..15u64).rev().map(|i| 150_000 + i * 1000).collect::<Vec<_>>());
    let timing = FileTiming {
        path: "x".to_string(),
        file_size: 1,
        timing: ScanTiming {
            strategy: None,
            argus_total_us: 0,
            yara_us: 0,
            hash_us: 0,
            clamav_us: 0,
        },
    };
    assert_eq!(timing.path, "x");
    assert_eq!(duration_ms(10, 12), 2000);
    assert_eq!(duration_ms(12, 10), 0);
}

#[test]
fn startup_check_sums_up() {
    let event = StartupCheck::announce(0);
    assert_eq!(event.title, "Startup check: all clear");
    let event = StartupCheck::announce(3);
    assert_eq!(event.title, "Performing startup protection verification... (3 files)");
    let mut check = StartupCheck::new();
    assert_eq!(
        StartupCheck::before_file(PressureState::Warning, true, Some(5)),
        StartupStep::Yield
    );
    assert_eq!(
        StartupCheck::before_file(PressureState::Normal, true, Some(0)),
        StartupStep::Skip
    );
    assert_eq!(
        StartupCheck::before_file(PressureState::Normal, true, Some(104_857_601)),
        StartupStep::Skip
    );
    assert_eq!(
        StartupCheck::before_file(PressureState::Elevated, true, None),
        StartupStep::Scan
    );
    assert!(check.conclude(&clean(), &make_verdict(0), &[]).is_none());
    assert_eq!(
        check.finish().title,
        "Startup verification complete: 1 critical files clean"
    );
    assert_eq!(
        check.conclude(&infected("Win.Test"), &make_verdict(0), &[]),
        Some("Win.Test".to_string())
    );
    let event = check.finish();
    assert_eq!(event.severity, "warning");
    assert_eq!(event.title, "Startup check: 1 threat(s) found in 2 files");
}

#[test]
fn startup_check_chooses_its_files() {
    let now = 100 * DAY;
    assert!(wants_temporary_file(true, Some("EXE"), Some(now - DAY), now));
    assert!(!wants_temporary_file(true, Some("exe"), Some(now - DAY - 1), now));
    assert!(!wants_temporary_file(true, Some("txt"), Some(now), now));
    assert!(!wants_temporary_file(true, None, Some(now), now));
    assert!(!wants_temporary_file(false, Some("exe"), Some(now), now));
    assert!(is_launchable("ps1"));
    assert!(keep_target(false, false, Some(false)));
    assert!(!keep_target(false, false, Some(true)));
    assert!(!keep_target(true, false, None));
}

#[test]
fn startup_targets_are_in_order() {
    let parts = |path: &[&str]| -> Vec<PathPart> {
        path.iter()
            .map(|p| match p.strip_suffix(':') {
                Some(letter) => PathPart::Drive(letter.to_string()),
                None => PathPart::Name(p.to_string()),
            })
            .collect()
    };
    let target = |path: &[&str], own: bool, cached_clean: Option<bool>| StartupTarget {
        parts: parts(path),
        own,
        excluded: false,
        cached_clean,
    };
    let targets = vec![
        target(&["C:", "b"], false, None),
        target(&["C:", "a-b"], false, Some(false)),
        target(&["C:", "a", "x"], false, None),
        target(&["C:", "b"], false, None),
        target(&["C:", "c"], true, None),
        target(&["C:", "d"], false, Some(true)),
        target(&["C:", "a"], false, None),
    ];
    assert_eq!(choose_targets(&targets), vec![6, 2, 1, 0]);
    let mixed = vec![
        target(&["Abc.exe"], false, None),
        target(&["c:", "x"], false, None),
        StartupTarget {
            parts: vec![PathPart::Root, PathPart::Name("x".to_string())],
            own: false,
            excluded: false,
            cached_clean: None,
        },
        target(&["C:", "x"], false, None),
    ];
    assert_eq!(choose_targets(&mixed), vec![1, 2, 0]);
    assert!(choose_targets(&Vec::new()).is_empty());
}

#[test]
fn summary_accounts_for_every_file() {
    let mut perf = ScanPerformanceSummary::default();
    let timing = |strategy: Option<ScanStrategy>, us: u64| ScanTiming {
        strategy,
        argus_total_us: us,
        yara_us: 1,
        hash_us: 2,
        clamav_us: 3,
    };
    perf.record_file("a", u64::MAX, &timing(Some(ScanStrategy::SkipSafe), 100_000));
    perf.record_file("b", 5, &timing(None, 100_001));
    perf.record_file("c", 5, &timing(Some(ScanStrategy::TooLarge), 1));
    assert_eq!((perf.strategy_skip, perf.strategy_too_large, perf.strategy_full), (1, 1, 0));
    assert_eq!(perf.total_argus_us, 200_002);
    assert_eq!((perf.total_yara_us, perf.total_hash_us, perf.total_clamav_us), (3, 6, 9));
    assert_eq!(perf.total_bytes_scanned, u64::MAX);
    assert_eq!(perf.slowest_files.len(), 1);
    assert_eq!(perf.slowest_files[0].path, "b");
}
