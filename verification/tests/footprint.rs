//! Memory use, memory pressure and residency.

use sentinelld::config::PerformanceConfig;
use sentinelld::footprint::pressure::{
    classify, entry_threshold, ram_relative_thresholds, PressurePolicy, PressureState,
    PressureTracker,
};
use sentinelld::footprint::residency::{
    ActivityTracker, ResidencyConfig, ResidencyManager, ResidencyMode, ScanGuard,
};
use sentinelld::footprint::{capture, FootprintBaselines, ProcessMemory};

fn memory(working_set_mb: u64) -> ProcessMemory {
    ProcessMemory { working_set_mb, private_bytes_mb: 0, peak_working_set_mb: 0 }
}

fn default_perf() -> PerformanceConfig {
    PerformanceConfig::default()
}

const NOW: u64 = 1_700_000_000;

fn cleared() -> ActivityTracker {
    let mut tracker = ActivityTracker::new(NOW);
    tracker.last_realtime_scan = 0;
    tracker.last_manual_scan = 0;
    tracker.last_idle_scan = 0;
    tracker.last_reload = 0;
    tracker.last_update = 0;
    tracker
}

#[test]
fn capture_returns_valid_snapshot() {
    let mut baselines = FootprintBaselines::new();
    baselines.record_startup(100);
    let snap = capture(true, 3_600_000, 119, 1000, 4, memory(300), &mut baselines);
    assert!(snap.working_set_mb > 0);
    assert_eq!(snap.signature_count, 3_600_000);
    assert_eq!(snap.yara_rules, 119);
    assert!(!snap.notes.is_empty());
}

#[test]
fn capture_names_the_causes() {
    let mut baselines = FootprintBaselines::new();
    let snap = capture(true, 3_600_000, 250, 50_000, 6, memory(300), &mut baselines);
    assert_eq!(
        snap.notes,
        vec![
            "ClamAV: ~360MB estimated for 3600000 signatures".to_string(),
            "Large working set likely caused by ClamAV signatures".to_string(),
            "YARA-X: 250 rules (wasmtime JIT contributes ~50-150MB)".to_string(),
            "High YARA rule footprint".to_string(),
            "Worker count (6) exceeds default concurrency (4)".to_string(),
            "Scan cache large: 50000 entries".to_string(),
        ]
    );
    assert_eq!(snap.delta_since_start_mb, 0);
    assert_eq!(snap.warning_level, "normal");
}

#[test]
fn capture_tells_the_trend() {
    let mut baselines = FootprintBaselines::new();
    baselines.record_post_scan(3000);
    let snap = capture(false, 0, 0, 0, 0, memory(2600), &mut baselines);
    assert_eq!(
        snap.notes,
        vec![
            "Memory returned after scan completion".to_string(),
            "Working set >2.5GB CRITICAL — investigate immediately".to_string(),
        ]
    );
    let snap = capture(false, 0, 0, 0, 0, memory(3200), &mut baselines);
    assert_eq!(snap.notes[0], "Possible retained scan buffers");
    let snap = capture(false, 0, 0, 0, 0, memory(1600), &mut baselines);
    assert_eq!(snap.warning_level, "warning");
    assert_eq!(
        snap.notes[1],
        "Working set >1.5GB — consider subprocess worker mode for heavy scans"
    );
    let mut growing = FootprintBaselines::new();
    for i in 0..7 {
        growing.record_capture(100 + i);
    }
    let snap = capture(false, 0, 0, 0, 0, memory(900), &mut growing);
    assert_eq!(snap.warning_level, "elevated");
    assert_eq!(
        snap.notes,
        vec!["Monotonic growth detected over last 8 captures — possible slow leak".to_string()]
    );
}

#[test]
fn delta_tracking_works() {
    let mut baselines = FootprintBaselines::new();
    baselines.record_startup(200);
    baselines.record_post_scan(250);
    let snap = capture(true, 1_000_000, 50, 100, 1, memory(180), &mut baselines);
    assert_eq!(snap.delta_since_start_mb, snap.working_set_mb as i64 - 200);
    assert_eq!(snap.delta_since_last_scan_mb, snap.working_set_mb as i64 - 250);
}

#[test]
fn warning_levels() {
    let mut baselines = FootprintBaselines::new();
    let snap = capture(false, 0, 0, 0, 0, memory(0), &mut baselines);
    assert!(["normal", "elevated", "warning", "critical"].contains(&snap.warning_level.as_str()));
}

#[test]
fn monotonic_growth_detection() {
    let mut baselines = FootprintBaselines::new();
    for i in 0..8 {
        baselines.record_capture(100 + i * 10);
    }
    assert!(baselines.is_monotonic_growth(8));
}

#[test]
fn no_false_monotonic_growth() {
    let mut baselines = FootprintBaselines::new();
    for ws in &[100, 120, 90, 110, 80, 100, 95, 105] {
        baselines.record_capture(*ws);
    }
    assert!(!baselines.is_monotonic_growth(8));
}

#[test]
fn unmeasured_captures_are_no_growth() {
    let mut baselines = FootprintBaselines::new();
    for _ in 0..8 {
        baselines.record_capture(0);
    }
    assert!(!baselines.is_monotonic_growth(8));
    // Only the last sixteen captures count.
    for _ in 0..16 {
        baselines.record_capture(7);
    }
    assert!(baselines.is_monotonic_growth(16));
    assert!(!baselines.is_monotonic_growth(17));
}

#[test]
fn ram_relative_scales_across_hardware() {
    let (w4, c4) = ram_relative_thresholds(4096, "normal");
    assert!(c4 < 1500, "4GB critical {c4} should be well under the old 2500");
    assert!(w4 < c4);

    let (_w8, c8) = ram_relative_thresholds(8192, "normal");
    assert!(c8 > c4, "more RAM gives a higher critical threshold");

    let (w32, c32) = ram_relative_thresholds(32768, "normal");
    assert!(c32 <= 4096 && w32 <= 3072, "huge RAM is ceiling-capped");
    assert!(w32 < c32);

    let (w2, c2) = ram_relative_thresholds(2048, "normal");
    assert!(w2 >= 512 && c2 >= 1024 && w2 < c2);

    let lo = ram_relative_thresholds(8192, "low").1;
    let no = ram_relative_thresholds(8192, "normal").1;
    let ag = ram_relative_thresholds(8192, "aggressive").1;
    assert!(lo < no && no <= ag);
}

#[test]
fn thresholds_match_double_precision() {
    let shares: [(&str, f64, f64); 3] =
        [("low", 0.12, 0.22), ("normal", 0.20, 0.35), ("aggressive", 0.30, 0.50)];
    for (profile, warn, crit) in shares {
        for total in (0u64..70_000).chain([1 << 40, u64::MAX / 2, u64::MAX]) {
            let w = ((total as f64 * warn) as u64).clamp(512, 3072);
            let mut c = ((total as f64 * crit) as u64).clamp(1024, 4096);
            if c <= w {
                c = w + 256;
            }
            assert_eq!(ram_relative_thresholds(total, profile), (w, c), "{profile} {total}");
        }
    }
}

#[test]
fn classify_normal() {
    assert_eq!(classify(300, &default_perf()), PressureState::Normal);
    assert_eq!(classify(799, &default_perf()), PressureState::Normal);
}

#[test]
fn classify_elevated() {
    assert_eq!(classify(800, &default_perf()), PressureState::Normal);
    assert_eq!(classify(801, &default_perf()), PressureState::Elevated);
    assert_eq!(classify(1200, &default_perf()), PressureState::Elevated);
}

#[test]
fn classify_warning() {
    assert_eq!(classify(1501, &default_perf()), PressureState::Warning);
    assert_eq!(classify(2000, &default_perf()), PressureState::Warning);
}

#[test]
fn classify_critical() {
    assert_eq!(classify(2501, &default_perf()), PressureState::Critical);
    assert_eq!(classify(4000, &default_perf()), PressureState::Critical);
}

#[test]
fn policy_normal_no_actions() {
    let policy = PressurePolicy::evaluate(400, &default_perf());
    assert_eq!(policy.state, PressureState::Normal);
    assert!(!policy.prefer_external_argus);
    assert!(!policy.pause_idle_scanner);
    assert!(!policy.reject_full_scans);
    assert!(policy.actions.is_empty());
}

#[test]
fn policy_warning_routes_external() {
    let policy = PressurePolicy::evaluate(1800, &default_perf());
    assert_eq!(policy.state, PressureState::Warning);
    assert!(policy.prefer_external_argus);
    assert!(!policy.pause_idle_scanner);
    assert_eq!(policy.max_resident_workers, 1);
}

#[test]
fn policy_critical_pauses_idle() {
    let policy = PressurePolicy::evaluate(3000, &default_perf());
    assert_eq!(policy.state, PressureState::Critical);
    assert!(policy.prefer_external_argus);
    assert!(policy.pause_idle_scanner);
    assert!(policy.reject_full_scans);
    assert_eq!(
        policy.actions,
        vec![
            "route_argus_to_external_worker".to_string(),
            "pause_idle_scanner".to_string(),
            "reject_new_full_scans".to_string(),
            "reduce_resident_workers_to_1".to_string(),
        ]
    );
}

#[test]
fn policy_respects_disabled_external() {
    let mut perf = default_perf();
    perf.external_argus_under_pressure = false;
    let policy = PressurePolicy::evaluate(1800, &perf);
    assert!(!policy.prefer_external_argus);
}

#[test]
fn tracker_atomic_updates() {
    let mut tracker = PressureTracker::new();
    assert_eq!(tracker.current(), PressureState::Normal);

    tracker.update(1800, &default_perf());
    assert_eq!(tracker.current(), PressureState::Warning);
    assert!(tracker.prefer_external_argus());

    tracker.update(400, &default_perf());
    assert_eq!(tracker.current(), PressureState::Normal);
    assert!(!tracker.prefer_external_argus());
}

#[test]
fn tracker_does_not_flap_at_a_threshold() {
    let mut tracker = PressureTracker::new();
    assert_eq!(tracker.update(2501, &default_perf()), PressureState::Critical);
    assert!(tracker.should_pause_idle());
    // Within the margin below 2500 the class holds.
    assert_eq!(tracker.update(2400, &default_perf()), PressureState::Critical);
    assert_eq!(tracker.update(2373, &default_perf()), PressureState::Critical);
    assert_eq!(tracker.update(2372, &default_perf()), PressureState::Warning);
    // A step up is immediate.
    assert_eq!(tracker.update(2501, &default_perf()), PressureState::Critical);
    assert_eq!(entry_threshold(PressureState::Elevated, &default_perf()), 800);
}

#[test]
fn pressure_levels_survive_encoding() {
    for state in [
        PressureState::Normal,
        PressureState::Elevated,
        PressureState::Warning,
        PressureState::Critical,
    ] {
        assert_eq!(PressureState::from_u8(state.as_u8()), state);
    }
    assert_eq!(PressureState::from_u8(200), PressureState::Critical);
    assert_eq!(PressureState::Elevated.as_str(), "elevated");
}

#[test]
fn custom_thresholds() {
    let perf = PerformanceConfig {
        memory_warning_mb: 500,
        memory_critical_mb: 1000,
        ..default_perf()
    };
    assert_eq!(classify(400, &perf), PressureState::Normal);
    assert_eq!(classify(600, &perf), PressureState::Warning);
    assert_eq!(classify(1100, &perf), PressureState::Critical);
}

#[test]
fn chosen_thresholds_are_kept() {
    let mut chosen = default_perf();
    chosen.memory_warning_mb = 1400;
    chosen.resolve_thresholds(Some(4096));
    assert_eq!((chosen.memory_warning_mb, chosen.memory_critical_mb), (1400, 2500));

    let mut untouched = default_perf();
    untouched.resolve_thresholds(None);
    assert_eq!((untouched.memory_warning_mb, untouched.memory_critical_mb), (1500, 2500));
    untouched.resolve_thresholds(Some(4096));
    assert_eq!((untouched.memory_warning_mb, untouched.memory_critical_mb), (819, 1433));
}

#[test]
fn active_scan_blocks_quiet() {
    let mut tracker = cleared();
    assert!(tracker.is_quiet(1, NOW));
    tracker.inc_active_scans();
    assert!(!tracker.is_quiet(1, NOW));
    tracker.dec_active_scans();
    assert!(tracker.is_quiet(1, NOW));
}

#[test]
fn recent_activity_blocks_quiet() {
    let mut tracker = ActivityTracker::new(NOW);
    tracker.record_realtime_scan(NOW);
    assert!(!tracker.is_quiet(300, NOW));
}

#[test]
fn quiet_begins_on_the_second() {
    let mut tracker = cleared();
    tracker.record_manual_scan(NOW - 300);
    assert_eq!(tracker.quiet_for_secs(NOW), 300);
    assert!(tracker.is_quiet(300, NOW));
    assert!(!tracker.is_quiet(301, NOW));
    assert!(!tracker.is_quiet(300, NOW - 1));
    tracker.record_update(NOW);
    assert!(tracker.is_quiet(0, NOW));
    assert!(!tracker.is_quiet(1, NOW));
    assert!(!cleared().is_quiet(NOW + 1, NOW));
}

#[test]
fn quiet_for_secs_reports_elapsed() {
    let tracker = cleared();
    let quiet = tracker.quiet_for_secs(NOW);
    assert!(quiet > 1_000_000);
    assert_eq!(quiet, NOW);
}

#[test]
fn scan_guard_raii_releases() {
    let mut tracker = ActivityTracker::new(NOW);
    assert_eq!(tracker.active_scan_count, 0);
    let g1 = ScanGuard::new(&mut tracker);
    assert_eq!(tracker.active_scan_count, 1);
    let g2 = ScanGuard::new(&mut tracker);
    assert_eq!(tracker.active_scan_count, 2);
    g2.release(&mut tracker);
    assert_eq!(tracker.active_scan_count, 1);
    g1.release(&mut tracker);
    assert_eq!(tracker.active_scan_count, 0);
}

#[test]
fn trim_respects_cooldown() {
    let mut mgr = ResidencyManager::new(ResidencyConfig {
        enabled: true,
        quiet_minutes: 0,
        threshold_mb: 0,
        cooldown_minutes: 999,
    });
    let tracker = cleared();
    let first = mgr.check_and_trim(&tracker, 500, NOW);
    assert!(first);
    mgr.record_reduction(500, 80);
    assert_eq!(mgr.last_reduction_mb, 420);
    let second = mgr.check_and_trim(&tracker, 500, NOW);
    assert!(!second);
    assert!(mgr.check_and_trim(&tracker, 500, NOW + 999 * 60));
    assert_eq!(mgr.trim_count, 2);
}

#[test]
fn disabled_config_skips_trim() {
    let mut mgr = ResidencyManager::new(ResidencyConfig {
        enabled: false,
        quiet_minutes: 0,
        threshold_mb: 0,
        cooldown_minutes: 0,
    });
    let mut tracker = ActivityTracker::new(NOW);
    tracker.last_realtime_scan = 0;
    tracker.last_reload = 0;
    assert!(!mgr.check_and_trim(&tracker, 500, NOW));
}

#[test]
fn small_working_set_is_not_trimmed() {
    let mut mgr = ResidencyManager::new(ResidencyConfig::default());
    assert!(!mgr.check_and_trim(&cleared(), 349, NOW));
    assert!(mgr.check_and_trim(&cleared(), 350, NOW));
}

#[test]
fn diagnostics_contains_expected_fields() {
    let mgr = ResidencyManager::new(ResidencyConfig::default());
    let tracker = ActivityTracker::new(NOW);
    let diag = mgr.diagnostics(&tracker, 200, 150, NOW);
    assert_eq!(diag.strategy(), "quiet_retrim");
    assert!(diag.enabled);
    assert_eq!(diag.working_set_mb, 200);
    assert_eq!(diag.private_bytes_mb, 150);
    assert!(!diag.quiet);
    assert_eq!(diag.quiet_for_secs, 0);
    assert_eq!(diag.mode, ResidencyMode::EngineWarm);
    assert_eq!(diag.trim_count, 0);
    assert_eq!(diag.active_scan_count, 0);
}

#[test]
fn activity_timestamps_change_mode() {
    let mgr = ResidencyManager::new(ResidencyConfig::default());
    let mut tracker = ActivityTracker::new(NOW);
    tracker.last_realtime_scan = 0;
    tracker.last_reload = 0;

    let diag = mgr.diagnostics(&tracker, 50, 0, NOW);
    let mode = diag.mode.as_str();
    assert!(
        mode == "trimmed_standby" || mode == "quiet_idle",
        "expected trimmed_standby or quiet_idle, got {mode}"
    );
    assert_eq!(mgr.diagnostics(&tracker, 400, 0, NOW).mode.as_str(), "quiet_idle");

    tracker.inc_active_scans();
    let diag2 = mgr.diagnostics(&tracker, 50, 0, NOW);
    assert_eq!(diag2.mode.as_str(), "active_scan");
    tracker.dec_active_scans();
}

#[test]
fn record_helpers_update_timestamps() {
    let mut tracker = cleared();
    tracker.record_realtime_scan(NOW);
    assert!(tracker.last_realtime_scan > 0);
    assert_eq!(tracker.realtime_scan_count, 1);
    tracker.record_manual_scan(NOW);
    assert!(tracker.last_manual_scan > 0);
    tracker.record_idle_scan(NOW);
    assert!(tracker.last_idle_scan > 0);
    tracker.record_reload(NOW);
    assert!(tracker.last_reload > 0);
    tracker.record_update(NOW);
    assert!(tracker.last_update > 0);
}
