//! What runs in the background, and the small rules around it.

use sentinelld::boot::{
    benchmark_worker, choose_directory, log_filter, log_needs_rotation, plan_startup,
    shutdown_event, wants_isolation, StartupPlan,
};
use sentinelld::footprint::pressure::PressureState;
use sentinelld::footprint::{capture, FootprintBaselines, ProcessMemory};
use sentinelld::idle_scanner::collect::{
    file_priority, FileCollector, IdleEntry, Offer, MAX_WALK_DEPTH,
};
use sentinelld::idle_scanner::resources::{
    check_resources, foreground_is_true_fullscreen, fullscreen_or_busy, next_probe,
    screen_locked_or_away, CpuMeter, CpuTimes, ForegroundWindow, PartialReadings, PauseReason,
    Probe, Readings, Rect, ResourceConfig, WS_CAPTION,
};
use sentinelld::idle_scanner::{
    build_scan_targets, cycle_pause_secs, needs_scan, random_sleep, target_places, unanalysed,
    Cycle, FileStep, IdleScanner, IdleScannerState, IdleSettings, ScanSpeed, SLOW_PERIOD,
};
use sentinelld::quarantine::{check_delete, find_item, is_restorable, RestoreSuppression};
use sentinelld::resilience::{health_gate, ArgusWorker, Resilience};
use sentinelld::scan::board::ScanBoard;
use sentinelld::scan::job::ScanRow;
use sentinelld::scan::worker::ClamResult;
use sentinelld::stats::{
    format_uptime, protection_detail, protection_state, CacheStats, ProtectionState, Shields,
};
use sentinelld::telemetry::{reload_record, scan_record};
use sentinelld::update::{freshclam_error_detail, UpdatePhase, UpdateState, UpdateTracker};
use sentinelld::watch::{
    candidate_roots, choose_roots, watcher_failed, watcher_stalled, watcher_started, Place,
    MAX_ROOTS,
};

#[test]
fn freshclam_error_detail_surfaces_tail_not_banner() {
    let out = "Exit code 56: ClamAV update process started\n\
               Current working dir is /tmp\n\
               \n\
               ERROR: Can't query current.cvd.clamav.net\n\
               ERROR: Can't read DNS, mirror unreachable";
    let d = freshclam_error_detail(out);
    assert!(d.contains("mirror unreachable"), "must surface the last error: {d}");
    assert!(!d.contains("update process started"), "should drop the banner head");
    assert_eq!(freshclam_error_detail(""), "freshclam failed (no output)");
    assert_eq!(freshclam_error_detail("   \n\n"), "freshclam failed (no output)");
}

#[test]
fn update_goes_through_its_phases() {
    let mut tracker = UpdateTracker::new();
    assert!(tracker.begin_update().is_some());
    assert!(tracker.begin_update().is_none());
    tracker.set_phase(UpdatePhase::Checking);
    assert_eq!(tracker.update_status().percent, Some(5));
    tracker.on_line("Downloading daily.cvd [100%]");
    let report = tracker.update_status();
    assert_eq!(report.state, UpdateState::Downloading);
    assert_eq!(report.current_file.as_deref(), Some("daily.cvd"));
    tracker.on_line("daily.cvd updated");
    assert_eq!(tracker.update_status().percent, Some(70));
    let event = tracker.updater_finished(false, "ERROR: mirror unreachable", 50);
    assert_eq!(event.severity, "warning");
    tracker.end_update();
    assert!(tracker.update_status().last_error.is_some());
    assert!(tracker.begin_update().is_some());
}

#[test]
fn roots_are_chosen() {
    let place = |path: &str, present: bool| Place { path: path.to_string(), present };
    let roots = candidate_roots(
        &vec![place("D:\\data", true), place("E:\\gone", false)],
        None,
        Some("T:\\tmp"),
        &vec![],
        &None,
    );
    assert!(roots.contains(&"D:\\data".to_string()));
    assert!(roots.contains(&"C:\\ProgramData".to_string()));
    assert!(!roots.contains(&"E:\\gone".to_string()));
    let many: Vec<Place> = (0..200).map(|i| place(&format!("C:\\d{i}"), true)).collect();
    assert_eq!(choose_roots(&many).len(), MAX_ROOTS);
    let twice = vec![place("C:\\A", true), place("c:\\a", true), place("C:\\b", false)];
    assert_eq!(choose_roots(&twice).len(), 1);
    assert_eq!(
        watcher_started(&vec!["x".to_string()], 1).title,
        "Real-time protection started"
    );
    let failed = watcher_failed("no handle");
    assert_eq!(failed.severity, "warning");
    assert_eq!(failed.title, "Watcher failed to start");
    assert_eq!(failed.message, "no handle");
    assert!(watcher_stalled(false, true, 100, 161));
    assert!(!watcher_stalled(false, true, 100, 160));
    assert!(!watcher_stalled(false, true, 0, 1000));
    assert!(!watcher_stalled(true, true, 100, 1000));
}

fn resources() -> ResourceConfig {
    ResourceConfig {
        allow_on_battery: false,
        cpu_threshold: 40,
        disk_latency_threshold_ms: 50,
        pause_on_fullscreen: true,
    }
}

fn idle_machine() -> Readings {
    Readings { on_battery: false, fullscreen: false, cpu_percent: 10, disk_ms: 1 }
}

#[test]
fn scanner_waits_for_capacity() {
    let config = resources();
    let idle = idle_machine();
    assert_eq!(check_resources(&config, false, None, &idle), None);
    assert_eq!(
        check_resources(&config, true, None, &Readings { on_battery: true, ..idle }),
        Some(PauseReason::Battery)
    );
    assert_eq!(
        check_resources(&config, true, Some(true), &idle),
        Some(PauseReason::Fullscreen)
    );
    assert_eq!(
        check_resources(&config, false, Some(false), &Readings { fullscreen: true, ..idle }),
        None
    );
    assert_eq!(check_resources(&config, true, None, &idle), Some(PauseReason::ScanRunning));
    assert_eq!(
        check_resources(&config, false, None, &Readings { cpu_percent: 41, ..idle }),
        Some(PauseReason::HighCpu)
    );
    assert_eq!(
        check_resources(&config, false, None, &Readings { disk_ms: 51, ..idle }),
        Some(PauseReason::HighDisk)
    );
    assert_eq!(PauseReason::Battery.sleep_secs(), 60);
    assert_eq!(PauseReason::HighDisk.label(), "high_disk");
}

#[test]
fn readings_are_taken_in_order() {
    let config = resources();
    let mut taken = PartialReadings {
        on_battery: None,
        fullscreen: None,
        cpu_percent: None,
        disk_ms: None,
    };
    assert_eq!(next_probe(&config, false, None, &taken), Some(Probe::Battery));
    taken.on_battery = Some(false);
    assert_eq!(next_probe(&config, false, None, &taken), Some(Probe::Fullscreen));
    assert_eq!(next_probe(&config, false, Some(true), &taken), None);
    taken.fullscreen = Some(false);
    assert_eq!(next_probe(&config, true, None, &taken), None);
    assert_eq!(next_probe(&config, false, None, &taken), Some(Probe::Cpu));
    taken.cpu_percent = Some(90);
    assert_eq!(next_probe(&config, false, None, &taken), None);
    taken.cpu_percent = Some(9);
    assert_eq!(next_probe(&config, false, None, &taken), Some(Probe::Disk));
    taken.disk_ms = Some(9);
    assert_eq!(next_probe(&config, false, None, &taken), None);
}

#[test]
fn processor_load_is_measured() {
    let mut meter = CpuMeter::new();
    assert_eq!(meter.cpu_usage_percent(None), 0);
    assert_eq!(
        meter.cpu_usage_percent(Some(CpuTimes { idle: 100, kernel: 150, user: 50 })),
        0
    );
    assert_eq!(
        meter.cpu_usage_percent(Some(CpuTimes { idle: 150, kernel: 230, user: 70 })),
        50
    );
    assert_eq!(
        meter.cpu_usage_percent(Some(CpuTimes { idle: 150, kernel: 230, user: 70 })),
        0
    );
}

#[test]
fn maximised_window_is_no_game() {
    let monitor = Rect { left: 0, top: 0, right: 1920, bottom: 1080 };
    let window = |image: &str, style: u32| {
        Some(ForegroundWindow {
            image: Some(image.to_string()),
            style,
            rect: Some(monitor),
            monitor: Some(monitor),
        })
    };
    assert!(foreground_is_true_fullscreen(&window("C:\\game.exe", 0)));
    assert!(!foreground_is_true_fullscreen(&window("C:\\app.exe", WS_CAPTION)));
    assert!(!foreground_is_true_fullscreen(&window("C:\\X\\SENTINELLA.EXE", 0)));
    assert!(!foreground_is_true_fullscreen(&None));
    assert!(fullscreen_or_busy(Some(3), &None));
    assert!(!fullscreen_or_busy(Some(2), &None));
    assert!(screen_locked_or_away(Some(1)));
    assert!(!screen_locked_or_away(None));
}

fn entry(path: &str, extension: Option<&str>, size: u64, modified: u64) -> IdleEntry {
    IdleEntry {
        path: path.to_string(),
        name: Some(path.to_string()),
        extension: extension.map(|e| e.to_string()),
        is_dir: false,
        is_file: true,
        is_symlink: false,
        skippable: false,
        own: false,
        build_or_dev: false,
        excluded: false,
        size: Some(size),
        modified,
    }
}

#[test]
fn files_are_collected_by_priority() {
    let mut collector = FileCollector::new(100, 4);
    assert!(collector.may_list(MAX_WALK_DEPTH));
    assert!(!collector.may_list(MAX_WALK_DEPTH + 1));
    assert_eq!(collector.offer(&entry("a.txt", Some("txt"), 5, 10)), Offer::Next);
    assert_eq!(collector.offer(&entry("b.EXE", Some("EXE"), 5, 1)), Offer::Next);
    assert_eq!(collector.offer(&entry("c.png", Some("PNG"), 5, 99)), Offer::Next);
    assert_eq!(collector.offer(&entry("d.exe", Some("exe"), 101, 99)), Offer::Next);
    assert_eq!(collector.offer(&entry("e.exe", Some("exe"), 0, 99)), Offer::Next);
    let dir = IdleEntry { is_dir: true, is_file: false, ..entry("docs", None, 0, 0) };
    assert_eq!(collector.offer(&dir), Offer::Enter);
    let noisy = IdleEntry { is_dir: true, is_file: false, ..entry("Node_Modules", None, 0, 0) };
    assert_eq!(collector.offer(&noisy), Offer::Next);
    assert_eq!(collector.offer(&entry("f.dll", Some("dll"), 5, 7)), Offer::Next);
    assert_eq!(collector.offer(&entry("g", None, 5, 10)), Offer::Next);
    assert_eq!(collector.offer(&entry("h.exe", Some("exe"), 5, 50)), Offer::Full);
    let order: Vec<String> = collector.finish().into_iter().map(|c| c.path).collect();
    assert_eq!(
        order,
        vec!["f.dll".to_string(), "b.EXE".to_string(), "a.txt".to_string(), "g".to_string()]
    );
    assert_eq!(file_priority(Some("Docm")), 4);
    assert_eq!(file_priority(Some("ps1")), 1);
    assert_eq!(file_priority(Some("7z")), 3);
    assert_eq!(file_priority(Some("lnk")), 5);
    assert_eq!(file_priority(Some("reg")), 6);
    assert_eq!(file_priority(Some("msi")), 2);
    assert_eq!(file_priority(None), 10);
}

fn settings() -> IdleSettings {
    IdleSettings {
        enabled: true,
        on_battery: false,
        cpu_pause_threshold: 40,
        disk_latency_pause_ms: 50,
        fullscreen_pause: true,
        max_file_size_mb: 2,
        max_files_per_session: 1,
        slow_delay_min_ms: 10,
        slow_delay_max_ms: 20,
        normal_delay_min_ms: 5,
        normal_delay_max_ms: 5,
        fast_delay_min_ms: 1,
        fast_delay_max_ms: 0,
    }
}

#[test]
fn idle_cycle_runs() {
    let mut scanner = IdleScanner::start();
    let off = IdleSettings { enabled: false, ..settings() };
    assert!(scanner.begin_cycle(&off).is_none());
    assert_eq!(scanner.stats().state, IdleScannerState::Disabled);
    let limits = scanner.begin_cycle(&settings()).expect("enabled");
    assert_eq!(limits.max_file_size, 2 * 1024 * 1024);
    assert_eq!(scanner.wait_for_capacity(true, None), Some(30));
    assert_eq!(scanner.stats().state, IdleScannerState::PausedCpu);
    assert_eq!(scanner.stats().last_pause_reason, "memory_pressure");
    assert_eq!(scanner.wait_for_capacity(false, Some(PauseReason::Battery)), Some(60));
    assert_eq!(scanner.wait_for_capacity(false, None), None);
    let mut cycle = Cycle::new(limits, 1000);
    scanner.enter_target("Downloads");
    assert_eq!(
        scanner.before_file(&cycle, false, Some(PauseReason::HighDisk), false, 1000),
        FileStep::PassAfter(5)
    );
    assert_eq!(
        scanner.before_file(&cycle, false, None, false, 1000 + SLOW_PERIOD),
        FileStep::Scan(ScanSpeed::Slow)
    );
    assert_eq!(
        scanner.before_file(&cycle, false, None, false, 1001 + SLOW_PERIOD),
        FileStep::Scan(ScanSpeed::Normal)
    );
    assert_eq!(
        scanner.before_file(&cycle, false, None, true, 1000),
        FileStep::Scan(ScanSpeed::Fast)
    );
    assert_eq!(scanner.stats().state.as_str(), "scanning_fast");
    assert_eq!(scanner.before_file(&cycle, true, None, true, 1000), FileStep::LeaveTarget);
    let clam = ClamResult {
        infected: true,
        virus_name: Some("Win.Test".to_string()),
        error: Some("late".to_string()),
    };
    let conclusion = scanner.conclude(&mut cycle, &clam, &unanalysed("p", 3), &[]);
    assert_eq!(conclusion.quarantine.as_deref(), Some("Win.Test"));
    assert_eq!(conclusion.record, None);
    assert_eq!(scanner.before_file(&cycle, false, None, true, 1000), FileStep::LeaveTarget);
    let event = scanner.finish_cycle(&cycle, 77);
    assert_eq!(event.title, "Background scan complete — 1 files checked");
    assert_eq!(scanner.stats().last_completed, Some(77));
    assert_eq!(scanner.stats().files_scanned_session, 1);
    scanner.stop();
    assert!(!scanner.running);
    assert!(needs_scan(true, Some(false), true));
    assert!(!needs_scan(true, Some(true), true));
    assert!(!needs_scan(true, None, false));
}

#[test]
fn delays_stay_within_bounds() {
    let s = settings();
    assert_eq!(s.delay_bounds(ScanSpeed::Slow), (10, 20));
    let mut seen = Vec::new();
    for _ in 0..200 {
        let ms = random_sleep(10, 20);
        assert!((10..=20).contains(&ms));
        seen.push(ms);
    }
    assert!(seen.iter().any(|ms| *ms != seen[0]));
    assert_eq!(random_sleep(5, 5), 5);
    assert_eq!(random_sleep(1, 0), 1);
    assert!((1800..=3600).contains(&cycle_pause_secs()));
    assert_eq!(s.resources().cpu_threshold, 40);
    let places = target_places("C:\\U", None, Some("R:\\r"), None);
    assert_eq!(places[2], "C:\\U\\AppData\\Local\\Temp");
    assert_eq!(places[3], "R:\\r");
    assert_eq!(
        build_scan_targets(&vec![
            Place { path: "a".to_string(), present: false },
            Place { path: "b".to_string(), present: true },
        ]),
        vec!["b".to_string()]
    );
}

#[test]
fn quarantine_rules() {
    assert!(is_restorable(Some(12), "quarantined"));
    assert!(!is_restorable(Some(11), "quarantined"));
    assert!(!is_restorable(None, "quarantined"));
    assert!(!is_restorable(Some(100), "restored"));
    assert!(check_delete("quarantined").is_ok());
    assert_eq!(
        check_delete("restored"),
        Err("Cannot delete: status is 'restored', not quarantined".to_string())
    );
    assert_eq!(find_item(false, true, "x").as_deref(), Some("Database not available"));
    assert_eq!(find_item(true, false, "x").as_deref(), Some("Not found: x"));
    assert_eq!(find_item(true, true, "x"), None);
    let mut marks = RestoreSuppression::new();
    marks.mark_restore_in_progress("a", 0);
    marks.mark_restore_in_progress("b", 10_000_000_000);
    assert!(marks.is_restore_suppressed("a", 29_999_999_999));
    marks.mark_restore_in_progress("a", 20_000_000_000);
    assert!(marks.is_restore_suppressed("a", 49_999_999_999));
    assert!(!marks.is_restore_suppressed("b", 40_000_000_000));
}

#[test]
fn health_is_judged() {
    let board = ScanBoard::new();
    let mut worker = ArgusWorker::new(true, "w".to_string(), 5);
    let mut resilience = Resilience::new();
    let gate = health_gate(&vec![0, 0], &worker, &board.counters);
    assert!(gate.healthy && !gate.ready_for_next_pilot);
    worker.record_argus_worker_failure(&mut resilience, "worker panic: boom");
    assert_eq!(resilience.worker_panics_total, 1);
    assert_eq!(
        resilience.last_recovery_reason.as_deref(),
        Some("worker panic: worker panic: boom")
    );
    assert!(health_gate(&vec![], &worker, &board.counters).healthy);
    assert!(!health_gate(&vec![1], &worker, &board.counters).healthy);
    resilience.touch_watcher_heartbeat(100);
    resilience.touch_orchestrator_heartbeat(100);
    let report = resilience.resilience_diagnostics(&worker, 221);
    assert!(report.watcher_heartbeat_stale);
    assert!(!report.orchestrator_heartbeat_stale);
}

#[test]
fn protection_is_told() {
    let full = Shields {
        user_disabled: false,
        engine: true,
        watcher: true,
        argus_layers: 11,
        yara_rules: 5,
    };
    assert_eq!(protection_state(full), ProtectionState::FullyProtected);
    assert_eq!(protection_detail(full), None);
    assert_eq!(
        protection_state(Shields { watcher: false, ..full }),
        ProtectionState::Degraded
    );
    assert_eq!(
        protection_state(Shields { argus_layers: 0, ..full }),
        ProtectionState::Minimal
    );
    assert_eq!(
        protection_state(Shields { engine: false, ..full }),
        ProtectionState::Unprotected
    );
    assert_eq!(
        protection_state(Shields { user_disabled: true, ..full }).as_str(),
        "user_disabled"
    );
    assert_eq!(
        protection_detail(Shields { engine: false, watcher: false, yara_rules: 0, ..full })
            .as_deref(),
        Some("ClamAV engine unavailable; Real-time watcher inactive; No YARA rules loaded")
    );
    assert_eq!(format_uptime(59), "59s");
    assert_eq!(format_uptime(61), "1m 1s");
    assert_eq!(format_uptime(3_600), "1h 0m 0s");
    assert_eq!(format_uptime(90_061), "1d 1h 1m");
}

#[test]
fn startup_is_planned() {
    assert!(log_needs_rotation(Some(10_485_761)));
    assert!(!log_needs_rotation(Some(10_485_760)));
    assert!(!log_needs_rotation(None));
    assert!(log_filter("debug").starts_with("debug,walrus=warn"));
    let place = |path: &str, present: bool| Place { path: path.to_string(), present };
    let candidates = vec![place("a", false), place("b", true), place("c", true)];
    assert_eq!(choose_directory(None, &candidates).as_deref(), Some("b"));
    assert_eq!(choose_directory(Some("z"), &candidates).as_deref(), Some("z"));
    assert_eq!(choose_directory(None, &vec![]), None);
    assert_eq!(
        plan_startup(true, true, true),
        StartupPlan {
            critical_scan: false,
            idle_scanner: false,
            powershell_bridge: false,
            scheduler: false
        }
    );
    assert!(plan_startup(false, true, false).critical_scan);
    assert!(wants_isolation("subprocess"));
    assert_eq!(benchmark_worker("  "), "argusd.exe");
    assert_eq!(benchmark_worker("x.exe"), "x.exe");
    assert_eq!(shutdown_event().title, "Daemon shutting down");
}

#[test]
fn durations_are_recorded() {
    let mut baselines = FootprintBaselines::new();
    let snap = capture(
        true,
        1,
        1,
        1,
        1,
        ProcessMemory { working_set_mb: 5, private_bytes_mb: 6, peak_working_set_mb: 7 },
        &mut baselines,
    );
    let scan = ScanRow {
        scan_id: "s".to_string(),
        scan_type: "quick".to_string(),
        status: "completed".to_string(),
        started_at: 0,
        finished_at: Some(1),
        files_scanned: 2,
        threats_found: 3,
        errors_count: 4,
        duration_ms: 5,
        bytes_scanned: 6,
        clamav_phase_us: 7,
        argus_phase_us: 8,
    };
    let record = scan_record(
        &scan,
        &snap,
        PressureState::Warning,
        &CacheStats { hits: 1, misses: 2, entries: 3 },
    );
    assert_eq!(record.pressure, "Warning");
    assert_eq!(record.notes[3], "scan_cache: hits=1 misses=2 entries=3");
    assert_eq!(record.notes[4], "phase: clamav=7us argus=8us");
    let record = reload_record(9, Err("bad"), &snap, PressureState::Normal);
    assert_eq!(record.label, "failed");
    assert_eq!(record.notes, vec!["error=bad".to_string()]);
}
