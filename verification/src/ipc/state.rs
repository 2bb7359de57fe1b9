//! The state of the daemon, and how a request changes it.
//!
//! One value holds what the parts of the daemon share. A method changes the part
//! it is about and leaves the others as they are; its contract says so.

use super::auth::{is_uuid, long_enough, redeemable, Challenge, ChallengeSlot, IpcAuth};
use super::client_auth::ClientIdentity;
use super::dispatch::{
    admission, answered, enforce_policy, fields_of, gate_after, read_fields, route, sound, Fields,
    Gate, GateState, Outcome, TokenUse,
};
use super::params::{compact_bytes, payload_size};
use super::policy::{method_registry, registered, MethodRegistry};
use super::rate::{initial, Budgets, RateLimiter};
use super::settings::DeveloperConfig;
use crate::activity::{
    activity_rows_view, entry_of, recent_rows, ActivityEntry, ActivityLog, ActivityRow,
    MAX_ACTIVITY,
};
use crate::config::PerformanceConfig;
use crate::engine::{
    phase_number, stale_hours, stale_threshold_hours, CommittedState, EngineSnapshot, ReloadPhase,
    ReloadState,
};
use crate::footprint::pressure::{
    actions_of, background_stops, class_of, external_preferred, next_state, under_pressure,
    workers_kept, PressurePolicy, PressureState, PressureTracker,
};
use crate::footprint::residency::{
    decided, residency_report, trim_due, usual_residency, ActivityTracker, ResidencyConfig,
    ResidencyManager, ResidencyReport,
};
use crate::footprint::{
    capture, delta, growing, kept, load_notes, trend_notes, warning_word, FootprintBaselines,
    FootprintSnapshot, LoadFacts, ProcessMemory,
};
use crate::idle_scanner::IdleScanner;
use crate::quarantine::RestoreSuppression;
use crate::resilience::{ArgusWorker, ClamIsolation, Resilience};
use crate::scan::board::{empty_board, ScanBoard};
use crate::scan::job::{last_items, ActivityEvent};
use crate::scan::start::QueueFlags;
use crate::scan::worker::BudgetCounters;
use crate::text::{
    decimal, decimal_text, join, joined, lowercased, owned_view, same, texts, to_lowercase,
};
use crate::update::{UpdatePhase, UpdateTracker, Updates};
use vstd::prelude::*;

verus! {

/// What the parts of the daemon share. `E` is a handle on the signature engine.
pub struct AppState<E> {
    /// When the daemon started, in nanoseconds.
    pub started_at: u64,
    pub engine: EngineSnapshot<E>,
    pub committed: CommittedState,
    pub reload: ReloadState,
    /// Whether the directories of the engine and its signatures are known.
    pub directories_known: bool,
    pub board: ScanBoard,
    pub activity: ActivityLog,
    pub gate: Gate,
    pub developer: DeveloperConfig,
    pub update: UpdateTracker,
    pub rate_limiter: RateLimiter,
    pub registry: MethodRegistry,
    pub queue: QueueFlags,
    pub argus_worker: ArgusWorker,
    pub isolation: ClamIsolation,
    pub resilience: Resilience,
    pub budget: BudgetCounters,
    pub footprint_baselines: FootprintBaselines,
    pub pressure_tracker: PressureTracker,
    pub performance_config: PerformanceConfig,
    pub residency_manager: ResidencyManager,
    pub activity_tracker: ActivityTracker,
    pub restore_suppress: RestoreSuppression,
    pub excluded_detections: Vec<String>,
    /// In lower case.
    pub trusted_hashes: Vec<String>,
    pub audit_mode: bool,
    /// The user switched protection off.
    pub user_disabled_protection: bool,
    /// When, in seconds since 1970; zero while it is on.
    pub protection_disabled_at: u64,
    pub ipc_total_requests: u64,
    pub ipc_reconnect_count: u64,
    pub ipc_last_error_ts: u64,
    pub signature_stale_hours: u64,
    pub idle_scanner: Option<IdleScanner>,
}

/// How the engine came up.
pub enum EngineStart<E> {
    Loaded { engine: E, signatures: u64 },
    Failed { error: String },
    NotConfigured,
}

/// When the steps of the startup were taken, in seconds since 1970.
#[derive(Debug, Clone, Copy, PartialEq, Eq, Structural)]
pub struct StartupTimes {
    pub daemon: i64,
    pub engine: i64,
    pub argus: i64,
    pub ioc: i64,
    pub yara: i64,
}

/// How the heuristics came up.
pub struct ArgusStart {
    pub version: String,
    pub active_layers: u32,
    /// The list of known hashes that was found: how many it holds, where it could
    /// be read, and where it is.
    pub ioc: Option<(Option<u64>, String)>,
    /// How many rules were compiled, or why none were.
    pub yara: Result<u64, String>,
    /// The directories that the rules came from.
    pub yara_sources: Vec<String>,
}

/// A line of the log about the startup.
pub open spec fn startup_entry(
    event_type: Seq<char>,
    message: Seq<char>,
    detail: Option<Seq<char>>,
    timestamp: i64,
) -> ActivityEntry<Seq<char>> {
    ActivityEntry { event_type, message, detail, timestamp }
}

/// The line about the engine.
pub open spec fn engine_entry<E>(engine: EngineStart<E>, at: i64) -> ActivityEntry<Seq<char>> {
    match engine {
        EngineStart::Loaded { signatures, .. } => startup_entry(
            "engine_loaded"@,
            "ClamAV engine loaded — "@ + decimal(signatures as nat) + " signatures"@,
            Some("Engine compiled and ready to scan"@),
            at,
        ),
        EngineStart::Failed { error } => startup_entry(
            "engine_error"@,
            "Engine failed: "@ + error@,
            None,
            at,
        ),
        EngineStart::NotConfigured => startup_entry(
            "engine_skipped"@,
            "Engine not configured"@,
            None,
            at,
        ),
    }
}

/// The line about the list of known hashes, if it could be read.
pub open spec fn ioc_entries(ioc: Option<(Option<u64>, String)>, at: i64) -> Seq<
    ActivityEntry<Seq<char>>,
> {
    match ioc {
        Some((Some(count), path)) => seq![
            startup_entry(
                "ioc_loaded"@,
                "IOC database loaded — "@ + decimal(count as nat) + " hash(es)"@,
                Some("Source: "@ + path@),
                at,
            ),
        ],
        _ => Seq::empty(),
    }
}

/// The line about the rules, unless there were none.
pub open spec fn yara_entries(yara: Result<u64, String>, sources: Seq<String>, at: i64) -> Seq<
    ActivityEntry<Seq<char>>,
> {
    match yara {
        Ok(count) => if count > 0 {
            seq![
                startup_entry(
                    "yara_loaded"@,
                    "ARGUS YARA engine loaded — "@ + decimal(count as nat)
                        + " behavioral rules compiled"@,
                    Some("Rule sources: "@ + joined(texts(sources), ", "@)),
                    at,
                ),
            ]
        } else {
            Seq::empty()
        },
        Err(e) => seq![
            startup_entry("yara_error"@, "YARA rule loading failed: "@ + e@, None, at),
        ],
    }
}

/// The log after the startup.
pub open spec fn startup_log<E>(
    engine: EngineStart<E>,
    argus: ArgusStart,
    times: StartupTimes,
) -> Seq<ActivityEntry<Seq<char>>> {
    seq![
        startup_entry(
            "daemon_start"@,
            "Daemon started"@,
            Some("sentinelld initializing"@),
            times.daemon,
        ),
        engine_entry(engine, times.engine),
        startup_entry(
            "argus_loaded"@,
            "ARGUS heuristics engine v"@ + argus.version@ + " initialized — "@ + decimal(
                argus.active_layers as nat,
            ) + " layers active"@,
            Some("Layered suspicion engine ready"@),
            times.argus,
        ),
    ] + ioc_entries(argus.ioc, times.ioc) + yara_entries(
        argus.yara,
        argus.yara_sources@,
        times.yara,
    )
}

fn log_engine_start<E>(log: &mut ActivityLog, engine: &EngineStart<E>, at: i64)
    ensures
        final(log)@ == old(log)@.push(engine_entry(*engine, at)),
{
    match engine {
        EngineStart::Loaded { signatures, .. } => {
            let mut message = "ClamAV engine loaded — ".to_owned();
            message.append(decimal_text(*signatures).as_str());
            message.append(" signatures");
            log.push(
                ActivityEntry::new(
                    "engine_loaded",
                    message,
                    Some("Engine compiled and ready to scan"),
                    at,
                ),
            );
        },
        EngineStart::Failed { error } => {
            let mut message = "Engine failed: ".to_owned();
            message.append(error.as_str());
            log.push(ActivityEntry::new("engine_error", message, None, at));
        },
        EngineStart::NotConfigured => {
            log.push(
                ActivityEntry::new(
                    "engine_skipped",
                    "Engine not configured".to_owned(),
                    None,
                    at,
                ),
            );
        },
    }
}

fn log_argus_start(log: &mut ActivityLog, argus: &ArgusStart, times: &StartupTimes)
    ensures
        final(log)@ == old(log)@.push(
            startup_entry(
                "argus_loaded"@,
                "ARGUS heuristics engine v"@ + argus.version@ + " initialized — "@ + decimal(
                    argus.active_layers as nat,
                ) + " layers active"@,
                Some("Layered suspicion engine ready"@),
                times.argus,
            ),
        ) + ioc_entries(argus.ioc, times.ioc) + yara_entries(
            argus.yara,
            argus.yara_sources@,
            times.yara,
        ),
{
    let ghost before = log@;
    let mut message = "ARGUS heuristics engine v".to_owned();
    message.append(argus.version.as_str());
    message.append(" initialized — ");
    message.append(decimal_text(argus.active_layers as u64).as_str());
    message.append(" layers active");
    log.push(
        ActivityEntry::new(
            "argus_loaded",
            message,
            Some("Layered suspicion engine ready"),
            times.argus,
        ),
    );
    let ghost first = log@;
    if let Some((Some(count), path)) = &argus.ioc {
        let mut message = "IOC database loaded — ".to_owned();
        message.append(decimal_text(*count).as_str());
        message.append(" hash(es)");
        let mut detail = "Source: ".to_owned();
        detail.append(path.as_str());
        log.push(ActivityEntry::new("ioc_loaded", message, Some(detail.as_str()), times.ioc));
    }
    let ghost second = log@;
    assert(second =~= first + ioc_entries(argus.ioc, times.ioc));
    match &argus.yara {
        Ok(count) => {
            if *count > 0 {
                let mut message = "ARGUS YARA engine loaded — ".to_owned();
                message.append(decimal_text(*count).as_str());
                message.append(" behavioral rules compiled");
                let mut detail = "Rule sources: ".to_owned();
                detail.append(join(&argus.yara_sources, ", ").as_str());
                log.push(
                    ActivityEntry::new("yara_loaded", message, Some(detail.as_str()), times.yara),
                );
            }
        },
        Err(e) => {
            let mut message = "YARA rule loading failed: ".to_owned();
            message.append(e.as_str());
            log.push(ActivityEntry::new("yara_error", message, None, times.yara));
        },
    }
    assert(log@ =~= second + yara_entries(argus.yara, argus.yara_sources@, times.yara));
}

/// No failure yet.
pub open spec fn untroubled() -> Resilience<Seq<char>> {
    Resilience {
        worker_panics_total: 0,
        worker_timeouts_total: 0,
        last_recovery_reason: None,
        watcher_last_heartbeat: 0,
        orchestrator_last_heartbeat: 0,
        watcher_restarts_total: 0,
        binary_integrity_drift: false,
        config_drift: false,
    }
}

/// No timeout yet.
pub open spec fn no_timeouts() -> BudgetCounters {
    BudgetCounters {
        files_with_timeouts: 0,
        clamav_timeouts: 0,
        yara_timeouts: 0,
        total_timeouts: 0,
        partial_results: 0,
        exhausted: 0,
        realtime_timeouts: 0,
        idle_timeouts: 0,
        transient_skips: 0,
    }
}

/// What the daemon starts with.
pub struct Startup<E> {
    pub engine: EngineStart<E>,
    pub argus: ArgusStart,
    pub times: StartupTimes,
    pub directories_known: bool,
    /// The secret of the pipe, long enough to be one.
    pub secret: Option<String>,
    pub developer: DeveloperConfig,
    pub queue: QueueFlags,
    pub argus_worker: ArgusWorker,
    pub performance: PerformanceConfig,
    /// Memory of the machine, where it is known.
    pub total_ram_mb: Option<u64>,
    pub signature_stale_days: Option<u32>,
    /// Now, in nanoseconds.
    pub now: u64,
    /// Now, in seconds since 1970.
    pub now_secs: u64,
}

/// Thresholds in force after the startup.
pub open spec fn thresholds_resolved(
    before: PerformanceConfig,
    total_ram_mb: Option<u64>,
    after: PerformanceConfig,
) -> bool {
    match total_ram_mb {
        Some(ram) => if crate::config::thresholds_untouched(before) {
            after == (PerformanceConfig {
                memory_warning_mb: crate::footprint::pressure::thresholds_for(
                    ram as nat,
                    before.memory_profile@,
                ).0 as u64,
                memory_critical_mb: crate::footprint::pressure::thresholds_for(
                    ram as nat,
                    before.memory_profile@,
                ).1 as u64,
                ..before
            })
        } else {
            after == before
        },
        None => after == before,
    }
}

impl<E> AppState<E> {
    /// What holds of the state at all times.
    pub open spec fn wf(&self) -> bool {
        &&& self.rate_limiter.wf()
        &&& self.registry.entries@ == registered()
        &&& self.footprint_baselines.wf()
        &&& self.footprint_baselines.startup() <= i64::MAX
        &&& self.footprint_baselines.post_scan() <= i64::MAX
        &&& self.restore_suppress.wf()
        &&& self.residency_manager.config.wf()
        &&& self.gate.developer_mode == self.developer.enabled
        &&& 24 <= self.signature_stale_hours <= 720
        &&& sound(self.gate@)
    }

    /// The state after a startup.
    pub fn new(s: Startup<E>) -> (state: Self)
        requires
            s.secret matches Some(secret) ==> long_enough(secret@),
        ensures
            state.wf(),
            state.started_at == s.now,
            state.engine.engine == (match s.engine {
                EngineStart::Loaded { engine, .. } => Some(engine),
                _ => None,
            }),
            owned_view(state.engine.last_error) == (match s.engine {
                EngineStart::Loaded { .. } => None,
                EngineStart::Failed { error } => Some(error@),
                EngineStart::NotConfigured => Some("Not configured"@),
            }),
            state.committed == (CommittedState {
                signature_count: match s.engine {
                    EngineStart::Loaded { signatures, .. } => signatures,
                    _ => 0,
                },
                db: None,
            }),
            !state.reload.in_progress,
            state.reload.phase == phase_number(ReloadPhase::Idle),
            state.directories_known == s.directories_known,
            state.board@ == empty_board(),
            state.activity@ == startup_log(s.engine, s.argus, s.times),
            state.gate@ == (GateState {
                secret: owned_view(s.secret),
                challenge: None,
                developer_mode: s.developer.enabled,
            }),
            state.developer@ == s.developer@,
            state.update@ == (Updates {
                running: false,
                phase: UpdatePhase::Idle,
                last_timestamp: None,
                last_error: None,
            }),
            state.rate_limiter@ == initial(s.now),
            state.queue == s.queue,
            state.argus_worker@ == s.argus_worker@,
            state.isolation == (ClamIsolation { enabled: false, timeout_secs: 30 }),
            state.resilience@ == untroubled(),
            state.budget == no_timeouts(),
            state.footprint_baselines.startup() == 0,
            state.footprint_baselines.post_scan() == 0,
            state.footprint_baselines.count() == 0,
            state.footprint_baselines.captures().len() == 0,
            state.pressure_tracker@ is Normal,
            state.residency_manager == (ResidencyManager {
                config: usual_residency(),
                last_trim: 0,
                trim_count: 0,
                last_reduction_mb: 0,
            }),
            state.signature_stale_hours == stale_hours(s.signature_stale_days),
            thresholds_resolved(s.performance, s.total_ram_mb, state.performance_config),
            state.performance_config == crate::config::fitted(s.performance, s.total_ram_mb),
            state.activity_tracker == (ActivityTracker {
                last_realtime_scan: s.now_secs,
                last_manual_scan: 0,
                last_idle_scan: 0,
                last_reload: s.now_secs,
                last_update: 0,
                active_scan_count: 0,
                realtime_scan_count: 0,
            }),
            state.restore_suppress@ == Map::<Seq<char>, u64>::empty(),
            state.excluded_detections@.len() == 0,
            state.trusted_hashes@.len() == 0,
            !state.audit_mode,
            !state.user_disabled_protection,
            state.protection_disabled_at == 0,
            state.ipc_total_requests == 0,
            state.ipc_reconnect_count == 0,
            state.ipc_last_error_ts == 0,
            state.idle_scanner is None,
    {
        let mut activity = ActivityLog::new();
        activity.push(
            ActivityEntry::new(
                "daemon_start",
                "Daemon started".to_owned(),
                Some("sentinelld initializing"),
                s.times.daemon,
            ),
        );
        log_engine_start(&mut activity, &s.engine, s.times.engine);
        log_argus_start(&mut activity, &s.argus, &s.times);
        assert(activity@ =~= startup_log(s.engine, s.argus, s.times));
        let (engine, last_error, signature_count): (Option<E>, Option<String>, u64) =
            match s.engine {
            EngineStart::Loaded { engine, signatures } => (Some(engine), None, signatures),
            EngineStart::Failed { error } => (None, Some(error), 0),
            EngineStart::NotConfigured => (None, Some("Not configured".to_owned()), 0),
        };
        let mut performance_config = s.performance;
        performance_config.resolve_thresholds(s.total_ram_mb);
        AppState {
            started_at: s.now,
            engine: EngineSnapshot { engine, last_error },
            committed: CommittedState { signature_count, db: None },
            reload: ReloadState {
                in_progress: false,
                phase: crate::engine::reload_phase_u8(ReloadPhase::Idle),
            },
            directories_known: s.directories_known,
            board: ScanBoard::new(),
            activity,
            gate: Gate {
                auth: IpcAuth { secret: s.secret },
                challenge: ChallengeSlot::new(),
                developer_mode: s.developer.enabled,
            },
            developer: s.developer,
            update: UpdateTracker::new(),
            rate_limiter: RateLimiter::new(s.now),
            registry: method_registry(),
            queue: s.queue,
            argus_worker: s.argus_worker,
            isolation: ClamIsolation::new(),
            resilience: Resilience::new(),
            budget: BudgetCounters::new(),
            footprint_baselines: FootprintBaselines::new(),
            pressure_tracker: PressureTracker::new(),
            performance_config,
            residency_manager: ResidencyManager::new(ResidencyConfig::default()),
            activity_tracker: ActivityTracker::new(s.now_secs),
            restore_suppress: RestoreSuppression::new(),
            excluded_detections: Vec::new(),
            trusted_hashes: Vec::new(),
            audit_mode: false,
            user_disabled_protection: false,
            protection_disabled_at: 0,
            ipc_total_requests: 0,
            ipc_reconnect_count: 0,
            ipc_last_error_ts: 0,
            signature_stale_hours: stale_threshold_hours(s.signature_stale_days),
            idle_scanner: None,
        }
    }
}

/// The log with one more entry, as far as entries are kept.
pub open spec fn logged(
    log: Seq<ActivityEntry<Seq<char>>>,
    category: Seq<char>,
    title: Seq<char>,
    message: Seq<char>,
    now: i64,
) -> Seq<ActivityEntry<Seq<char>>> {
    last_items(log.push(entry_of(category, title, message, now)), MAX_ACTIVITY as nat)
}

/// What comes of a request: the budgets, the state of the lock, the answer, and whether
/// a token that was not accepted is to be logged.
pub struct Served {
    pub budgets: Budgets,
    pub gate: GateState,
    pub answer: Outcome<Seq<char>>,
    pub alarm: bool,
}

/// A request from its admission to its answer.
pub open spec fn served(
    b: Budgets,
    g: GateState,
    method: Seq<char>,
    f: Fields<Seq<char>>,
    payload: nat,
    id: Option<&ClientIdentity>,
    reloading: bool,
    now: u64,
) -> Served {
    let (budgets, refusal) = admission(b, method, payload, id, reloading, now);
    let (answer, token) = route(g, method, f, now);
    Served {
        budgets,
        gate: if refusal is Some {
            g
        } else {
            gate_after(g, token)
        },
        answer: answered(refusal, answer),
        alarm: refusal is None && token is Rejected,
    }
}

/// The seconds from one moment to another, both in nanoseconds.
pub open spec fn seconds_up(started_at: u64, now: u64) -> int {
    if now >= started_at {
        (now - started_at) / 1_000_000_000
    } else {
        0
    }
}

/// The mode of the daemon in one word.
pub open spec fn mode_word(user_disabled: bool, audit: bool) -> Seq<char> {
    if user_disabled {
        "user_disabled"@
    } else if audit {
        "audit"@
    } else {
        "normal"@
    }
}

/// The hashes to trust, as they are kept.
pub open spec fn trust_list(hashes: Seq<Seq<char>>) -> Seq<Seq<char>> {
    hashes.map_values(|h: Seq<char>| lowercased(h))
}

/// Whether a hash is on the list.
pub open spec fn on_trust_list(list: Seq<Seq<char>>, sha256: Seq<char>) -> bool {
    list.contains(lowercased(sha256))
}

/// Title of the entry on a rejected token.
pub open spec fn bad_token_title() -> Seq<char> {
    "Invalid challenge token — dangerous command rejected"@
}

impl<E> AppState<E> {
    /// Enter an event in the log in memory.
    pub fn log_activity(&mut self, event: &ActivityEvent, now: i64)
        requires
            old(self).wf(),
        ensures
            final(self).wf(),
            final(self).activity@ == logged(
                old(self).activity@,
                event.category@,
                event.title@,
                event.message@,
                now,
            ),
            *final(self) == (AppState { activity: final(self).activity, ..*old(self) }),
    {
        self.activity.log_activity(
            event.category.as_str(),
            event.title.as_str(),
            event.message.as_str(),
            now,
        );
    }

    /// The latest entries, the latest first.
    pub fn activity_list(&self) -> (rows: Vec<ActivityRow>)
        ensures
            activity_rows_view(rows@) == recent_rows(self.activity@),
    {
        self.activity.activity_list()
    }

    /// Count a request.
    pub fn record_request(&mut self)
        requires
            old(self).wf(),
        ensures
            final(self).wf(),
            *final(self) == (AppState {
                ipc_total_requests: old(self).ipc_total_requests.wrapping_add(1),
                ..*old(self)
            }),
    {
        self.ipc_total_requests = self.ipc_total_requests.wrapping_add(1);
    }

    /// Count a connection that broke.
    pub fn record_ipc_error(&mut self, now_secs: u64)
        requires
            old(self).wf(),
        ensures
            final(self).wf(),
            *final(self) == (AppState {
                ipc_reconnect_count: old(self).ipc_reconnect_count.wrapping_add(1),
                ipc_last_error_ts: now_secs,
                ..*old(self)
            }),
    {
        self.ipc_reconnect_count = self.ipc_reconnect_count.wrapping_add(1);
        self.ipc_last_error_ts = now_secs;
    }

    /// Whether `auth` is the shared secret.
    pub fn validate_ipc_auth(&self, auth: &str) -> (valid: bool)
        ensures
            valid == (self.gate@.secret == Some(auth@)),
    {
        self.gate.auth.validate_ipc_auth(auth)
    }

    /// Issue a token for one method.
    pub fn generate_challenge_token(&mut self, method: &str, now: u64) -> (token: String)
        requires
            old(self).wf(),
        ensures
            final(self).wf(),
            is_uuid(token@),
            token@.len() == 36,
            final(self).gate@ == (GateState {
                challenge: Some(Challenge { token: token@, method: method@, issued_at: now }),
                ..old(self).gate@
            }),
            *final(self) == (AppState { gate: final(self).gate, ..*old(self) }),
    {
        self.gate.challenge.generate_challenge_token(method, now)
    }

    /// Present a token. It is gone afterwards; one that is not accepted leaves an
    /// entry in the log.
    pub fn validate_challenge_token(
        &mut self,
        token: &str,
        expected_method: &str,
        now: u64,
        now_ts: i64,
    ) -> (valid: bool)
        requires
            old(self).wf(),
        ensures
            final(self).wf(),
            valid == redeemable(old(self).gate@.challenge, token@, expected_method@, now),
            final(self).gate@ == (GateState { challenge: None, ..old(self).gate@ }),
            final(self).activity@ == if valid {
                old(self).activity@
            } else {
                logged(
                    old(self).activity@,
                    "security"@,
                    bad_token_title(),
                    expected_method@,
                    now_ts,
                )
            },
            *final(self) == (AppState {
                gate: final(self).gate,
                activity: final(self).activity,
                ..*old(self)
            }),
    {
        let valid = self.gate.challenge.validate_challenge_token(token, expected_method, now);
        if !valid {
            self.activity.log_activity(
                "security",
                "Invalid challenge token — dangerous command rejected",
                expected_method,
                now_ts,
            );
        }
        valid
    }

    /// Decide what a request gets. The caller's elevation and the policy of the method
    /// come first: a request that they refuse changes nothing but the counters. A token that is presented
    /// is gone, and one that is not accepted is logged.
    pub fn dispatch_sync(
        &mut self,
        method: &str,
        params: &serde_json::Value,
        client: Option<&ClientIdentity>,
        now: u64,
        now_ts: i64,
    ) -> (outcome: Outcome<String>)
        requires
            old(self).wf(),
        ensures
            final(self).wf(),
            ({
                let s = served(
                    old(self).rate_limiter@,
                    old(self).gate@,
                    method@,
                    fields_of(params),
                    compact_bytes(params).len(),
                    client,
                    old(self).reload.in_progress,
                    now,
                );
                &&& final(self).rate_limiter@ == s.budgets
                &&& final(self).gate@ == s.gate
                &&& outcome@ == s.answer
                &&& final(self).activity@ == if s.alarm {
                    logged(old(self).activity@, "security"@, bad_token_title(), method@, now_ts)
                } else {
                    old(self).activity@
                }
            }),
            ({
                let (budgets, refusal) = admission(
                    old(self).rate_limiter@,
                    method@,
                    compact_bytes(params).len(),
                    client,
                    old(self).reload.in_progress,
                    now,
                );
                let (answer, token) = route(old(self).gate@, method@, fields_of(params), now);
                &&& final(self).rate_limiter@ == budgets
                &&& outcome@ == answered(refusal, answer)
                &&& final(self).gate@ == if refusal is Some {
                    old(self).gate@
                } else {
                    gate_after(old(self).gate@, token)
                }
                &&& final(self).activity@ == if refusal is None && token is Rejected {
                    logged(old(self).activity@, "security"@, bad_token_title(), method@, now_ts)
                } else {
                    old(self).activity@
                }
            }),
            *final(self) == (AppState {
                ipc_total_requests: old(self).ipc_total_requests.wrapping_add(1),
                rate_limiter: final(self).rate_limiter,
                gate: final(self).gate,
                activity: final(self).activity,
                ..*old(self)
            }),
    {
        self.record_request();
        let reloading = self.reload.in_progress;
        let refusal = enforce_policy(
            &self.registry,
            &mut self.rate_limiter,
            method,
            payload_size(params),
            client,
            reloading,
            now,
        );
        if let Some(outcome) = refusal {
            return outcome;
        }
        let fields = read_fields(params);
        let (outcome, token) = self.gate.route_request(&self.registry, method, &fields, now);
        match token {
            TokenUse::Rejected => {
                self.activity.log_activity(
                    "security",
                    "Invalid challenge token — dangerous command rejected",
                    method,
                    now_ts,
                );
            },
            _ => {},
        }
        outcome
    }

    /// Take up changed settings of the developer mode.
    pub fn load_developer_config(&mut self, config: DeveloperConfig)
        requires
            old(self).wf(),
        ensures
            final(self).wf(),
            final(self).developer@ == config@,
            final(self).gate@ == (GateState {
                developer_mode: config.enabled,
                ..old(self).gate@
            }),
            *final(self) == (AppState {
                developer: final(self).developer,
                gate: final(self).gate,
                ..*old(self)
            }),
    {
        self.gate.developer_mode = config.enabled;
        self.developer = config;
    }

    pub fn developer_config(&self) -> (config: DeveloperConfig)
        ensures
            config@ == self.developer@,
    {
        self.developer.duplicate()
    }

    /// Whether the engine is being reloaded.
    pub fn is_engine_reloading(&self) -> (yes: bool)
        ensures
            yes == self.reload.in_progress,
    {
        self.reload.in_progress
    }

    /// Seconds since the start.
    pub fn uptime_secs(&self, now: u64) -> (secs: u64)
        ensures
            secs == seconds_up(self.started_at, now),
            secs == if now >= self.started_at {
                ((now - self.started_at) / 1_000_000_000) as u64
            } else {
                0
            },
    {
        now.saturating_sub(self.started_at) / 1_000_000_000
    }

    /// The user switches protection off. The watcher is to be stopped.
    pub fn disable_protection(&mut self, now_secs: u64)
        requires
            old(self).wf(),
        ensures
            final(self).wf(),
            *final(self) == (AppState {
                user_disabled_protection: true,
                protection_disabled_at: now_secs,
                ..*old(self)
            }),
    {
        self.user_disabled_protection = true;
        self.protection_disabled_at = now_secs;
    }

    /// The user switches protection on again. The watcher is to be started.
    pub fn enable_protection(&mut self)
        requires
            old(self).wf(),
        ensures
            final(self).wf(),
            *final(self) == (AppState {
                user_disabled_protection: false,
                protection_disabled_at: 0,
                ..*old(self)
            }),
    {
        self.user_disabled_protection = false;
        self.protection_disabled_at = 0;
    }

    pub fn is_user_disabled(&self) -> (yes: bool)
        ensures
            yes == self.user_disabled_protection,
    {
        self.user_disabled_protection
    }

    pub fn set_audit_mode(&mut self, enabled: bool)
        requires
            old(self).wf(),
        ensures
            final(self).wf(),
            *final(self) == (AppState { audit_mode: enabled, ..*old(self) }),
    {
        self.audit_mode = enabled;
    }

    pub fn is_audit_mode(&self) -> (yes: bool)
        ensures
            yes == self.audit_mode,
    {
        self.audit_mode
    }

    /// The mode of the daemon in one word.
    pub fn daemon_mode(&self) -> (mode: &'static str)
        ensures
            mode@ == mode_word(self.user_disabled_protection, self.audit_mode),
            mode@ == if self.user_disabled_protection {
                "user_disabled"@
            } else if self.audit_mode {
                "audit"@
            } else {
                "normal"@
            },
    {
        if self.is_user_disabled() {
            "user_disabled"
        } else if self.is_audit_mode() {
            "audit"
        } else {
            "normal"
        }
    }

    pub fn load_detection_exclusions(&mut self, exclusions: Vec<String>)
        requires
            old(self).wf(),
        ensures
            final(self).wf(),
            *final(self) == (AppState { excluded_detections: exclusions, ..*old(self) }),
    {
        self.excluded_detections = exclusions;
    }

    pub fn detection_exclusions(&self) -> (list: Vec<String>)
        ensures
            list@ == self.excluded_detections@,
    {
        self.excluded_detections.clone()
    }

    /// Take up the hashes of files to trust; their case does not matter.
    pub fn load_trusted_hashes(&mut self, hashes: Vec<String>)
        requires
            old(self).wf(),
        ensures
            final(self).wf(),
            texts(final(self).trusted_hashes@) == trust_list(texts(hashes@)),
            texts(final(self).trusted_hashes@) == texts(hashes@).map_values(
                |h: Seq<char>| lowercased(h),
            ),
            *final(self) == (AppState {
                trusted_hashes: final(self).trusted_hashes,
                ..*old(self)
            }),
    {
        let mut lower: Vec<String> = Vec::new();
        let ghost wanted = texts(hashes@).map_values(|h: Seq<char>| lowercased(h));
        let mut i: usize = 0;
        assert(texts(lower@) =~= wanted.take(0));
        while i < hashes.len()
            invariant
                i <= hashes@.len(),
                wanted == texts(hashes@).map_values(|h: Seq<char>| lowercased(h)),
                texts(lower@) == wanted.take(i as int),
            decreases hashes@.len() - i,
        {
            let ghost before = lower@;
            lower.push(to_lowercase(hashes[i].as_str()));
            assert(texts(lower@) =~= texts(before).push(lowercased(hashes@[i as int]@)));
            assert(wanted.take(i + 1) =~= wanted.take(i as int).push(wanted[i as int]));
            i = i + 1;
        }
        assert(wanted.take(wanted.len() as int) =~= wanted);
        self.trusted_hashes = lower;
    }

    /// Whether a file with this hash is trusted.
    pub fn is_hash_trusted(&self, sha256: &str) -> (yes: bool)
        ensures
            yes == on_trust_list(texts(self.trusted_hashes@), sha256@),
            yes == texts(self.trusted_hashes@).contains(lowercased(sha256@)),
    {
        let wanted = to_lowercase(sha256);
        let ghost list = texts(self.trusted_hashes@);
        let mut i: usize = 0;
        while i < self.trusted_hashes.len()
            invariant
                wanted@ == lowercased(sha256@),
                list == texts(self.trusted_hashes@),
                i <= self.trusted_hashes@.len(),
                forall|j: int| 0 <= j < i ==> list[j] != wanted@,
            decreases self.trusted_hashes@.len() - i,
        {
            if same(self.trusted_hashes[i].as_str(), wanted.as_str()) {
                assert(list[i as int] == wanted@);
                return true;
            }
            i = i + 1;
        }
        false
    }
}

/// What the machine and the other parts of the daemon report for a capture.
#[derive(Debug, Clone, Copy, PartialEq, Eq, Structural)]
pub struct CaptureFacts {
    pub memory: ProcessMemory,
    pub yara_rules: u64,
    pub cache_entries: u64,
    pub active_workers: u32,
}

/// The baselines after a capture.
pub open spec fn captured(before: FootprintBaselines, ws: u64, after: FootprintBaselines) -> bool {
    &&& after.captures() == kept(before.captures().push(ws))
    &&& after.count() == before.count().wrapping_add(1)
    &&& after.startup() == before.startup()
    &&& after.post_scan() == before.post_scan()
}

/// A snapshot that matches the facts, taken with these baselines.
pub open spec fn snapshot_of(
    snapshot: FootprintSnapshot,
    facts: CaptureFacts,
    clamav_loaded: bool,
    signature_count: u64,
    before: FootprintBaselines,
    after: FootprintBaselines,
) -> bool {
    &&& snapshot.working_set_mb == facts.memory.working_set_mb
    &&& snapshot.private_bytes_mb == facts.memory.private_bytes_mb
    &&& snapshot.peak_working_set_mb == facts.memory.peak_working_set_mb
    &&& snapshot.clamav_loaded == clamav_loaded
    &&& snapshot.signature_count == signature_count
    &&& snapshot.yara_rules == facts.yara_rules
    &&& snapshot.scan_cache_entries == facts.cache_entries
    &&& snapshot.active_workers == facts.active_workers
    &&& snapshot.delta_since_start_mb == delta(facts.memory.working_set_mb, before.startup())
    &&& snapshot.delta_since_last_scan_mb == delta(
        facts.memory.working_set_mb,
        before.post_scan(),
    )
    &&& snapshot.warning_level@ == warning_word(facts.memory.working_set_mb)
    &&& texts(snapshot.notes@) == load_notes(
        LoadFacts {
            clamav_loaded,
            signature_count,
            yara_rules: facts.yara_rules,
            scan_cache_entries: facts.cache_entries,
            active_workers: facts.active_workers,
        },
        facts.memory.working_set_mb,
    ) + trend_notes(
        delta(facts.memory.working_set_mb, before.post_scan()),
        growing(after.captures(), 8),
        facts.memory.working_set_mb,
    )
}

impl<E> AppState<E> {
    /// Take a snapshot of the memory in use; the class of memory pressure follows
    /// it.
    pub fn capture_footprint(&mut self, facts: &CaptureFacts) -> (snapshot: FootprintSnapshot)
        requires
            old(self).wf(),
            facts.memory.working_set_mb <= i64::MAX,
        ensures
            final(self).wf(),
            snapshot_of(
                snapshot,
                *facts,
                old(self).engine.engine is Some,
                old(self).committed.signature_count,
                old(self).footprint_baselines,
                final(self).footprint_baselines,
            ),
            captured(
                old(self).footprint_baselines,
                facts.memory.working_set_mb,
                final(self).footprint_baselines,
            ),
            final(self).pressure_tracker@ == next_state(
                old(self).pressure_tracker@,
                facts.memory.working_set_mb as int,
                old(self).performance_config,
            ),
            *final(self) == (AppState {
                footprint_baselines: final(self).footprint_baselines,
                pressure_tracker: final(self).pressure_tracker,
                ..*old(self)
            }),
    {
        let snapshot = capture(
            self.engine.engine.is_some(),
            self.committed.signature_count,
            facts.yara_rules,
            facts.cache_entries,
            facts.active_workers,
            facts.memory,
            &mut self.footprint_baselines,
        );
        let _state = self.pressure_tracker.update(
            snapshot.working_set_mb,
            &self.performance_config,
        );
        snapshot
    }

    /// Measure, and tell the class of memory pressure.
    pub fn update_pressure(&mut self, facts: &CaptureFacts) -> (state: PressureState)
        requires
            old(self).wf(),
            facts.memory.working_set_mb <= i64::MAX,
        ensures
            final(self).wf(),
            state == next_state(
                old(self).pressure_tracker@,
                facts.memory.working_set_mb as int,
                old(self).performance_config,
            ),
            final(self).pressure_tracker@ == state,
            captured(
                old(self).footprint_baselines,
                facts.memory.working_set_mb,
                final(self).footprint_baselines,
            ),
            *final(self) == (AppState {
                footprint_baselines: final(self).footprint_baselines,
                pressure_tracker: final(self).pressure_tracker,
                ..*old(self)
            }),
    {
        let snapshot = self.capture_footprint(facts);
        self.pressure_tracker.update(snapshot.working_set_mb, &self.performance_config)
    }

    pub fn pressure_state(&self) -> (state: PressureState)
        ensures
            state == self.pressure_tracker@,
    {
        self.pressure_tracker.current()
    }

    /// Measure, and tell what follows from the working set.
    pub fn pressure_policy(&mut self, facts: &CaptureFacts) -> (policy: PressurePolicy)
        requires
            old(self).wf(),
            facts.memory.working_set_mb <= i64::MAX,
        ensures
            final(self).wf(),
            policy.working_set_mb == facts.memory.working_set_mb,
            policy.state == class_of(
                facts.memory.working_set_mb as int,
                old(self).performance_config,
            ),
            policy.prefer_external_argus == (old(self).performance_config.external_argus_under_pressure
                && under_pressure(policy.state)),
            policy.pause_idle_scanner == policy.state is Critical,
            policy.reject_full_scans == policy.state is Critical,
            policy.max_resident_workers == if under_pressure(policy.state) {
                old(self).performance_config.max_resident_workers_on_pressure
            } else {
                0
            },
            policy.prefer_external_argus == external_preferred(
                policy.state,
                old(self).performance_config,
            ),
            policy.pause_idle_scanner == background_stops(policy.state),
            policy.reject_full_scans == background_stops(policy.state),
            policy.max_resident_workers == workers_kept(
                policy.state,
                old(self).performance_config,
            ),
            texts(policy.actions@) == actions_of(policy.state, old(self).performance_config),
            captured(
                old(self).footprint_baselines,
                facts.memory.working_set_mb,
                final(self).footprint_baselines,
            ),
            final(self).pressure_tracker@ == next_state(
                old(self).pressure_tracker@,
                facts.memory.working_set_mb as int,
                old(self).performance_config,
            ),
            *final(self) == (AppState {
                footprint_baselines: final(self).footprint_baselines,
                pressure_tracker: final(self).pressure_tracker,
                ..*old(self)
            }),
    {
        let snapshot = self.capture_footprint(facts);
        PressurePolicy::evaluate(snapshot.working_set_mb, &self.performance_config)
    }

    /// Whether the idle scanner has to pause for want of memory.
    pub fn should_pause_idle_for_pressure(&self) -> (pause: bool)
        ensures
            pause == self.pressure_tracker@ is Critical,
            pause == background_stops(self.pressure_tracker@),
    {
        self.pressure_tracker.should_pause_idle()
    }

    /// Measure, and take the result as the baseline of the startup.
    pub fn record_startup_footprint(&mut self, facts: &CaptureFacts)
        requires
            old(self).wf(),
            facts.memory.working_set_mb <= i64::MAX,
        ensures
            final(self).wf(),
            final(self).footprint_baselines.startup() == facts.memory.working_set_mb,
            ({
                let before = old(self).footprint_baselines;
                final(self).footprint_baselines.post_scan() == before.post_scan()
            }),
            final(self).footprint_baselines.captures() == kept(
                old(self).footprint_baselines.captures().push(facts.memory.working_set_mb),
            ),
            final(self).pressure_tracker@ == next_state(
                old(self).pressure_tracker@,
                facts.memory.working_set_mb as int,
                old(self).performance_config,
            ),
            *final(self) == (AppState {
                footprint_baselines: final(self).footprint_baselines,
                pressure_tracker: final(self).pressure_tracker,
                ..*old(self)
            }),
    {
        let snapshot = self.capture_footprint(facts);
        self.footprint_baselines.record_startup(snapshot.working_set_mb);
    }

    /// Measure, and take the result as the baseline of the latest scan.
    pub fn record_post_scan_footprint(&mut self, facts: &CaptureFacts)
        requires
            old(self).wf(),
            facts.memory.working_set_mb <= i64::MAX,
        ensures
            final(self).wf(),
            final(self).footprint_baselines.post_scan() == facts.memory.working_set_mb,
            final(self).footprint_baselines.startup() == old(self).footprint_baselines.startup(),
            final(self).footprint_baselines.captures() == kept(
                old(self).footprint_baselines.captures().push(facts.memory.working_set_mb),
            ),
            final(self).pressure_tracker@ == next_state(
                old(self).pressure_tracker@,
                facts.memory.working_set_mb as int,
                old(self).performance_config,
            ),
            *final(self) == (AppState {
                footprint_baselines: final(self).footprint_baselines,
                pressure_tracker: final(self).pressure_tracker,
                ..*old(self)
            }),
    {
        let snapshot = self.capture_footprint(facts);
        self.footprint_baselines.record_post_scan(snapshot.working_set_mb);
    }

    /// Decide whether to trim the working set now.
    pub fn check_residency_trim(&mut self, working_set_mb: u64, now_secs: u64) -> (trim: bool)
        requires
            old(self).wf(),
        ensures
            final(self).wf(),
            trim == trim_due(
                old(self).residency_manager,
                old(self).activity_tracker,
                working_set_mb,
                now_secs,
            ),
            final(self).residency_manager == decided(
                old(self).residency_manager,
                trim,
                now_secs,
            ),
            *final(self) == if trim {
                AppState {
                    residency_manager: ResidencyManager {
                        last_trim: now_secs,
                        trim_count: old(self).residency_manager.trim_count.wrapping_add(1),
                        ..old(self).residency_manager
                    },
                    ..*old(self)
                }
            } else {
                *old(self)
            },
    {
        self.residency_manager.check_and_trim(&self.activity_tracker, working_set_mb, now_secs)
    }

    /// Report on residency.
    pub fn residency_diagnostics(
        &self,
        working_set_mb: u64,
        private_bytes_mb: u64,
        now_secs: u64,
    ) -> (report: ResidencyReport)
        requires
            self.wf(),
        ensures
            report == residency_report(
                self.residency_manager,
                self.activity_tracker,
                working_set_mb,
                private_bytes_mb,
                now_secs,
            ),
    {
        self.residency_manager.diagnostics(
            &self.activity_tracker,
            working_set_mb,
            private_bytes_mb,
            now_secs,
        )
    }
}

/// A request that is refused admission uses up no token and raises no alarm, and its
/// refusal is the answer.
pub proof fn refused_requests_use_up_no_token(
    b: Budgets,
    g: GateState,
    method: Seq<char>,
    f: Fields<Seq<char>>,
    payload: nat,
    id: Option<&ClientIdentity>,
    reloading: bool,
    now: u64,
)
    ensures
        ({
            let s = served(b, g, method, f, payload, id, reloading, now);
            let refusal = admission(b, method, payload, id, reloading, now).1;
            &&& s.gate.secret == g.secret && s.gate.developer_mode == g.developer_mode
            &&& refusal is Some ==> s.gate == g && !s.alarm && Some(s.answer) == refusal
            &&& s.budgets == admission(b, method, payload, id, reloading, now).0
        }),
{
}

/// An admitted request gets the answer of its route. A token that it presents is gone
/// afterwards, so it can serve no second request, and the alarm is raised exactly where
/// the token was not accepted.
pub proof fn tokens_serve_one_request(
    b: Budgets,
    g: GateState,
    method: Seq<char>,
    f: Fields<Seq<char>>,
    payload: nat,
    id: Option<&ClientIdentity>,
    reloading: bool,
    now: u64,
    token: Seq<char>,
    other: Seq<char>,
    later: u64,
)
    requires
        admission(b, method, payload, id, reloading, now).1 is None,
    ensures
        ({
            let s = served(b, g, method, f, payload, id, reloading, now);
            let (answer, used) = route(g, method, f, now);
            &&& s.answer == answer
            &&& s.alarm <==> used is Rejected
            &&& used is NotPresented ==> s.gate == g
            &&& used is Accepted || used is Rejected ==> !redeemable(
                s.gate.challenge,
                token,
                other,
                later,
            )
        }),
{
}

/// A new entry is the last of the log; up to five hundred are kept, and it is the
/// oldest that goes.
pub proof fn entries_are_logged_in_order(
    log: Seq<ActivityEntry<Seq<char>>>,
    category: Seq<char>,
    title: Seq<char>,
    message: Seq<char>,
    now: i64,
)
    ensures
        ({
            let after = logged(log, category, title, message, now);
            let e = after.last();
            &&& after.len() <= 500
            &&& log.len() < 500 ==> after.drop_last() == log
            &&& log.len() == 500 ==> after.drop_last() == log.drop_first()
            &&& e.event_type == category && e.message == title && e.timestamp == now
            &&& message.len() > 0 ==> e.detail == Some(message)
            &&& message.len() == 0 ==> e.detail is None
        }),
{
    let after = logged(log, category, title, message, now);
    if log.len() < 500 {
        assert(after.drop_last() =~= log);
    }
    if log.len() == 500 {
        assert(after.drop_last() =~= log.drop_first());
    }
}

/// A token that was not accepted is told as a rejected dangerous command.
pub proof fn rejected_tokens_are_told()
    ensures
        bad_token_title() == "Invalid challenge token — dangerous command rejected"@,
{
}

/// The time since the start counts whole seconds, and is nothing where the clock ran
/// backwards.
pub proof fn uptime_counts_whole_seconds(started_at: u64, now: u64, secs: int)
    requires
        secs >= 0,
    ensures
        now < started_at ==> seconds_up(started_at, now) == 0,
        now >= started_at ==> (seconds_up(started_at, now) >= secs <==> now - started_at >= secs
            * 1_000_000_000),
{
}

/// Protection that the user switched off comes before the audit.
pub proof fn mode_tells_what_is_off(user_disabled: bool, audit: bool)
    ensures
        user_disabled ==> mode_word(user_disabled, audit) == "user_disabled"@,
        !user_disabled && audit ==> mode_word(user_disabled, audit) == "audit"@,
        !user_disabled && !audit ==> mode_word(user_disabled, audit) == "normal"@,
{
}

/// A hash is trusted exactly where the list that was taken up holds it, in any case.
pub proof fn listed_hashes_are_trusted(hashes: Seq<Seq<char>>, sha256: Seq<char>)
    ensures
        on_trust_list(trust_list(hashes), sha256) <==> exists|k: int|
            0 <= k < hashes.len() && lowercased(#[trigger] hashes[k]) == lowercased(sha256),
{
    let list = trust_list(hashes);
    if list.contains(lowercased(sha256)) {
        let k = choose|k: int| 0 <= k < list.len() && list[k] == lowercased(sha256);
        assert(lowercased(hashes[k]) == lowercased(sha256));
    }
    if exists|k: int|
        0 <= k < hashes.len() && lowercased(#[trigger] hashes[k]) == lowercased(sha256) {
        let k = choose|k: int|
            0 <= k < hashes.len() && lowercased(#[trigger] hashes[k]) == lowercased(sha256);
        assert(list[k] == lowercased(sha256));
    }
}

/// Thresholds that somebody chose stay, and so do the other settings of performance.
pub proof fn chosen_thresholds_stay(
    before: PerformanceConfig,
    total_ram_mb: Option<u64>,
    after: PerformanceConfig,
)
    requires
        thresholds_resolved(before, total_ram_mb, after),
    ensures
        total_ram_mb is None || before.memory_warning_mb != 1500 || before.memory_critical_mb
            != 2500 ==> after == before,
        after.external_argus_under_pressure == before.external_argus_under_pressure,
        after.max_resident_workers_on_pressure == before.max_resident_workers_on_pressure,
        after.memory_profile == before.memory_profile,
{
}

/// The startup is logged in the order in which it goes: the daemon, the engine, the
/// heuristics, and the list of known hashes and the rules where there is something to
/// say of them.
pub proof fn startup_is_logged_in_order<E>(
    engine: EngineStart<E>,
    argus: ArgusStart,
    times: StartupTimes,
)
    ensures
        ({
            let log = startup_log(engine, argus, times);
            let hashes = argus.ioc is Some && (argus.ioc->0).0 is Some;
            let rules = argus.yara is Err || argus.yara->Ok_0 > 0;
            &&& log.len() == 3 + (if hashes {
                1int
            } else {
                0
            }) + (if rules {
                1int
            } else {
                0
            })
            &&& log[0].event_type == "daemon_start"@ && log[0].timestamp == times.daemon
            &&& log[0].message == "Daemon started"@
            &&& log[1].timestamp == times.engine
            &&& engine is Loaded ==> log[1].event_type == "engine_loaded"@
            &&& engine is Failed ==> log[1].event_type == "engine_error"@
            &&& engine is NotConfigured ==> log[1].event_type == "engine_skipped"@
            &&& log[2].event_type == "argus_loaded"@ && log[2].timestamp == times.argus
            &&& hashes ==> log[3].event_type == "ioc_loaded"@ && log[3].timestamp == times.ioc
            &&& rules ==> log.last().timestamp == times.yara
            &&& rules && argus.yara is Ok ==> log.last().event_type == "yara_loaded"@
            &&& rules && argus.yara is Err ==> log.last().event_type == "yara_error"@
        }),
{
}

/// The lines of the startup tell the numbers and the errors.
pub proof fn startup_lines_tell_the_numbers<E>(
    engine: EngineStart<E>,
    ioc: Option<(Option<u64>, String)>,
    yara: Result<u64, String>,
    sources: Seq<String>,
    at: i64,
)
    ensures
        engine matches EngineStart::Loaded { signatures, .. } ==> engine_entry(engine, at).message
            == "ClamAV engine loaded — "@ + decimal(signatures as nat) + " signatures"@,
        engine matches EngineStart::Failed { error } ==> engine_entry(engine, at).message
            == "Engine failed: "@ + error@,
        engine is NotConfigured ==> engine_entry(engine, at).message == "Engine not configured"@,
        (ioc is Some && (ioc->0).0 is Some) ==> ioc_entries(ioc, at)[0].message
            == "IOC database loaded — "@ + decimal((ioc->0).0->0 as nat) + " hash(es)"@
            && ioc_entries(ioc, at)[0].detail == Some("Source: "@ + (ioc->0).1@),
        (yara is Ok && yara->Ok_0 > 0) ==> yara_entries(yara, sources, at)[0].message
            == "ARGUS YARA engine loaded — "@ + decimal(yara->Ok_0 as nat)
            + " behavioral rules compiled"@,
        yara is Err ==> yara_entries(yara, sources, at)[0].message == "YARA rule loading failed: "@
            + yara->Err_0@,
{
}

/// A capture is counted and kept; the baselines of the startup and of the latest scan
/// stay.
pub proof fn captures_keep_the_baselines(
    before: FootprintBaselines,
    ws: u64,
    after: FootprintBaselines,
)
    requires
        captured(before, ws, after),
    ensures
        after.startup() == before.startup(),
        after.post_scan() == before.post_scan(),
        before.count() < u64::MAX ==> after.count() == before.count() + 1,
        after.captures() == kept(before.captures().push(ws)),
{
}

/// A snapshot tells the memory in use and what is loaded as they are, and how much
/// more is in use than at the start and at the end of the latest scan.
pub proof fn snapshot_tells_the_memory(
    snapshot: FootprintSnapshot,
    facts: CaptureFacts,
    clamav_loaded: bool,
    signature_count: u64,
    before: FootprintBaselines,
    after: FootprintBaselines,
)
    requires
        snapshot_of(snapshot, facts, clamav_loaded, signature_count, before, after),
    ensures
        snapshot.working_set_mb == facts.memory.working_set_mb,
        snapshot.private_bytes_mb == facts.memory.private_bytes_mb,
        snapshot.peak_working_set_mb == facts.memory.peak_working_set_mb,
        snapshot.clamav_loaded == clamav_loaded,
        snapshot.signature_count == signature_count,
        snapshot.yara_rules == facts.yara_rules,
        snapshot.scan_cache_entries == facts.cache_entries,
        snapshot.active_workers == facts.active_workers,
        snapshot.delta_since_start_mb == delta(facts.memory.working_set_mb, before.startup()),
        snapshot.delta_since_last_scan_mb == delta(
            facts.memory.working_set_mb,
            before.post_scan(),
        ),
        snapshot.warning_level@ == warning_word(facts.memory.working_set_mb),
{
}

/// A daemon starts without a failure and without a timeout.
pub proof fn start_is_untroubled()
    ensures
        untroubled().worker_panics_total == 0 && untroubled().worker_timeouts_total == 0,
        untroubled().watcher_restarts_total == 0,
        untroubled().watcher_last_heartbeat == 0 && untroubled().orchestrator_last_heartbeat == 0,
        untroubled().last_recovery_reason is None,
        !untroubled().binary_integrity_drift && !untroubled().config_drift,
        no_timeouts().total_timeouts == 0 && no_timeouts().files_with_timeouts == 0,
        no_timeouts().partial_results == 0 && no_timeouts().exhausted == 0,
        no_timeouts().clamav_timeouts == 0 && no_timeouts().yara_timeouts == 0,
        no_timeouts().realtime_timeouts == 0 && no_timeouts().idle_timeouts == 0,
        no_timeouts().transient_skips == 0,
{
}

} // verus!
