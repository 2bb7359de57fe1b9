//! The engine, the scans and the helpers, as the state of the daemon holds them.

use super::critical::{
    critical_result, critical_toggle, set_critical, CriticalConfig, CriticalOutcome,
    CriticalRequest, Toggle,
};
use super::state::{logged, snapshot_of, captured, AppState, CaptureFacts};
use crate::engine::{
    begin_reload, compute_db_stale, engine_status, finish_reload, is_db_stale, later, later_of,
    phase_of, reload_refusal, reported, reported_stale, stamp_of, staleness, CvdVersion, EngineReport,
};
use crate::footprint::pressure::{next_state, under_pressure};
use crate::footprint::residency::ActivityTracker;
use crate::idle_scanner::{IdleScanner, IdleScannerState, IdleScannerStats};
use crate::quarantine::{
    deleted_event, finish_quarantine, holding, holds, restore_expects, restore_next,
    restored_event, QuarantineEnd, RestoreEvent, RestoreJob, RestoreStep,
};
use crate::resilience::{
    after_failure, argus_route, at_least_ten, clamav_time, failure_noted, failure_verdict, health_gate,
    reported_health, route_argus, stale, sum, untroubled_queue, with_panic, with_timeout, worker_failed, AfterFailure, ClamIsolation,
    ExternalReason, HealthGate, Resilience, ResilienceReport,
};
use crate::scan::board::{
    cancel, history_rows, rows_view, status_of, Board, ScanBoard, ScanStatusResponse,
};
use crate::scan::job::{decoded, start_error, ActivityEvent, ScanJobStatus, ScanRow, ScanStartResponse};
use crate::scan::start::{
    engine_missing, route_of, route_scan, unknown_scan_type, QueueFlags, ScanRoute,
};
use crate::scan::worker::BudgetCounters;
use crate::stats::{
    detail_of, files_in, format_uptime, history_totals, idle_plain, idle_plain_word, issues, protection,
    protection_detail, protection_state, protection_word, threats_in, uptime_words, ArgusStats,
    CacheStats, RuntimeStats, Shields, StoredTotals,
};
use crate::text::{first_chars, joined, owned_view, same, text_view};
use crate::update::{ended_event, failure_detail, report_of, updater_ended, UpdatePhase, UpdateReport, Updates};
use crate::watch::{stalled, watcher_stalled, WATCHER_STALL_SECS};
use vstd::prelude::*;

verus! {

/// Whether a request to cancel finds anything to cancel.
pub open spec fn cancellable(b: Board) -> bool {
    let status = status_of(b);
    status.running || status.state == "queued"@ || status.state == "pending"@
}

/// The path that is being scanned: the live one where a scan runs or drains and
/// tells it, else that of the active job while it runs.
pub open spec fn active_path(b: Board) -> Option<Seq<char>> {
    if b.live matches Some(l) && (decoded(l.status) is Running || decoded(l.status) is Draining)
        && l.current_path.len() > 0 {
        Some(b.live->0.current_path)
    } else if b.active matches Some(j) && j.status is Running {
        Some(b.active->0.current_path)
    } else {
        None
    }
}

/// Tell the path that is being scanned.
pub fn worker_active_path(board: &ScanBoard) -> (path: Option<String>)
    ensures
        owned_view(path) == active_path(board@),
{
    if let Some(live) = &board.scan_live {
        let status = live.status_enum();
        if status == ScanJobStatus::Running || status == ScanJobStatus::Draining {
            if live.current_path.as_str().unicode_len() > 0 {
                return Some(live.current_path.clone());
            }
        }
    }
    if let Some(job) = &board.active_scan {
        if job.status == ScanJobStatus::Running {
            return Some(job.current_path.clone());
        }
    }
    None
}

/// What a queue reports of itself.
pub struct QueueFacts {
    pub kind: String,
    pub depth: Option<u64>,
    pub average_scan_duration_ms: Option<u64>,
}

/// Whether the `i`-th queue is the first for manual scans.
pub open spec fn first_manual(queues: Seq<QueueFacts>, i: int) -> bool {
    &&& 0 <= i < queues.len()
    &&& queues[i].kind@ == "manual"@
    &&& forall|j: int| 0 <= j < i ==> (#[trigger] queues[j]).kind@ != "manual"@
}

/// Whether these are the depth and the average duration of the first queue for manual
/// scans; zero where they are not known, or where there is no such queue.
pub open spec fn manual_facts(queues: Seq<QueueFacts>, facts: (u64, u64)) -> bool {
    &&& forall|i: int| #[trigger]
        first_manual(queues, i) ==> facts == (
            match queues[i].depth {
                Some(n) => n,
                None => 0u64,
            },
            match queues[i].average_scan_duration_ms {
                Some(n) => n,
                None => 0u64,
            },
        )
    &&& (forall|i: int| 0 <= i < queues.len() ==> (#[trigger] queues[i]).kind@ != "manual"@)
        ==> facts == (0u64, 0u64)
}

/// Depth and average duration of the queue for manual scans; zero where they are
/// not known.
pub fn manual_queue(queues: &Vec<QueueFacts>) -> (facts: (u64, u64))
    ensures
        manual_facts(queues@, facts),
        forall|i: int| #[trigger]
            first_manual(queues@, i) ==> facts == (
                match queues@[i].depth {
                    Some(n) => n,
                    None => 0u64,
                },
                match queues@[i].average_scan_duration_ms {
                    Some(n) => n,
                    None => 0u64,
                },
            ),
        (forall|i: int| 0 <= i < queues@.len() ==> (#[trigger] queues@[i]).kind@ != "manual"@)
            ==> facts == (0u64, 0u64),
{
    let mut i: usize = 0;
    while i < queues.len()
        invariant
            i <= queues@.len(),
            forall|j: int| 0 <= j < i ==> (#[trigger] queues@[j]).kind@ != "manual"@,
        decreases queues@.len() - i,
    {
        if same(queues[i].kind.as_str(), "manual") {
            let depth: u64 = match queues[i].depth {
                Some(n) => n,
                None => 0,
            };
            let average: u64 = match queues[i].average_scan_duration_ms {
                Some(n) => n,
                None => 0,
            };
            assert forall|k: int| #[trigger] first_manual(queues@, k) implies k == i by {
                if k < i {
                } else if k > i {
                    assert(queues@[i as int].kind@ != "manual"@);
                }
            }
            return (depth, average);
        }
        i = i + 1;
    }
    (0, 0)
}

/// The restore after an event, and what is left to do outside. The mark is set
/// along the way.
pub open spec fn restore_onward(
    job: RestoreJob<Seq<char>>,
    event: RestoreEvent<Seq<char>>,
) -> (RestoreJob<Seq<char>>, RestoreStep<Seq<char>>) {
    let (next, step) = restore_next(job, event);
    if step is Mark {
        restore_next(next, RestoreEvent::Marked)
    } else {
        (next, step)
    }
}

/// Why a scan cannot be started, if it cannot: there is no engine, or nobody knows
/// such a scan.
pub open spec fn start_refusal(
    ready: bool,
    last_error: Option<Seq<char>>,
    scan_type: Seq<char>,
    flags: QueueFlags,
) -> Option<Seq<char>> {
    if !ready {
        Some(
            "Engine not available: "@ + (match last_error {
                Some(e) => e,
                None => "No engine"@,
            }),
        )
    } else if route_of(scan_type, flags) is Unknown {
        Some("Unknown scan type: "@ + scan_type)
    } else {
        None
    }
}

/// What an attempt to start an update comes to: the state of the updates, and what
/// went wrong.
pub open spec fn update_start(u: Updates, binary_found: bool, config_found: bool) -> (
    Updates,
    Option<Seq<char>>,
) {
    if u.running {
        (u, Some("Update already in progress"@))
    } else if !binary_found {
        (
            Updates { last_error: Some("freshclam binary not found"@), ..u },
            Some("freshclam binary not found"@),
        )
    } else if !config_found {
        (
            Updates { last_error: Some("freshclam.conf not found"@), ..u },
            Some("freshclam.conf not found"@),
        )
    } else {
        (Updates { running: true, last_error: None, ..u }, None)
    }
}

/// Whether protection is off and since when, after a request to change it.
pub open spec fn protection_after(
    disabled: bool,
    since: u64,
    toggle: Toggle,
    now_secs: u64,
) -> (bool, u64) {
    match toggle {
        Toggle::Disable => (true, now_secs),
        Toggle::Enable => (false, 0u64),
        Toggle::Keep => (disabled, since),
    }
}

/// The engine after a reload: the new one, or the old one where there is none.
pub open spec fn engine_after<E>(before: Option<E>, loaded: Option<E>) -> Option<E> {
    match loaded {
        Some(engine) => Some(engine),
        None => before,
    }
}

/// Whether the idle scanner starts.
pub open spec fn idle_starts(enabled: bool, engine_ready: bool) -> bool {
    enabled && engine_ready
}

/// What a request to cancel is answered.
#[derive(Debug, Clone, Copy, PartialEq, Eq, Structural)]
pub enum CancelAnswer {
    /// The scan was asked to stop, or there was none to ask after all.
    Asked(bool),
    /// There was nothing to cancel.
    AlreadyCompleted,
}

impl<E> AppState<E> {
    /// Begin a scan that a request asks for: how to run it, or the answer where it
    /// cannot be run. With an engine the request counts as activity.
    pub fn start_scan(&mut self, scan_type: &str, id: &str, now_secs: u64) -> (answer: Result<
        ScanRoute,
        ScanStartResponse,
    >)
        requires
            old(self).wf(),
        ensures
            final(self).wf(),
            *final(self) == if old(self).engine.engine is Some {
                AppState {
                    activity_tracker: ActivityTracker {
                        last_manual_scan: now_secs,
                        ..old(self).activity_tracker
                    },
                    ..*old(self)
                }
            } else {
                *old(self)
            },
            ({
                let route = route_of(scan_type@, old(self).queue);
                match answer {
                    Ok(r) => {
                        &&& old(self).engine.engine is Some
                        &&& r == route
                        &&& !(route is Unknown)
                    },
                    Err(response) => response@ == if old(self).engine.engine is None {
                        start_error(
                            id@,
                            "Engine not available: "@ + (match owned_view(
                                old(self).engine.last_error,
                            ) {
                                Some(e) => e,
                                None => "No engine"@,
                            }),
                        )
                    } else {
                        start_error(id@, "Unknown scan type: "@ + scan_type@)
                    },
                }
            }),
            ({
                let refusal = start_refusal(
                    old(self).engine.engine is Some,
                    owned_view(old(self).engine.last_error),
                    scan_type@,
                    old(self).queue,
                );
                match answer {
                    Ok(r) => refusal is None && r == route_of(scan_type@, old(self).queue),
                    Err(response) => refusal is Some && response@ == start_error(id@, refusal->0),
                }
            }),
            answer is Ok <==> old(self).engine.engine is Some && !(route_of(
                scan_type@,
                old(self).queue,
            ) is Unknown),
    {
        if self.engine.engine.is_none() {
            let last_error = match &self.engine.last_error {
                Some(e) => Some(e.as_str()),
                None => None,
            };
            return Err(engine_missing(id, last_error));
        }
        self.activity_tracker.record_manual_scan(now_secs);
        let route = route_scan(scan_type, self.queue);
        match route {
            ScanRoute::Unknown => Err(unknown_scan_type(id, scan_type)),
            _ => Ok(route),
        }
    }

    /// Whether a manual scan is running.
    pub fn is_scan_active(&self) -> (yes: bool)
        ensures
            yes == (self.board@.active matches Some(j) && j.status is Running),
    {
        self.board.is_scan_active()
    }

    /// The history, the latest scan first.
    pub fn scan_history(&self) -> (rows: Vec<ScanRow>)
        ensures
            rows_view(rows@) == history_rows(self.board@.history),
    {
        self.board.scan_history()
    }

    pub fn scan_status(&self) -> (status: ScanStatusResponse)
        ensures
            status@ == status_of(self.board@),
    {
        self.board.scan_status()
    }

    /// Answer a request to cancel the scan.
    pub fn cancel_scan(&mut self, now_ts: i64) -> (answer: CancelAnswer)
        requires
            old(self).wf(),
        ensures
            final(self).wf(),
            if cancellable(old(self).board@) {
                &&& answer == CancelAnswer::Asked(cancel(old(self).board@).1)
                &&& final(self).board@ == cancel(old(self).board@).0
                &&& final(self).activity@ == logged(
                    old(self).activity@,
                    "scan"@,
                    "Scan cancelled by user"@,
                    ""@,
                    now_ts,
                )
            } else {
                &&& answer is AlreadyCompleted
                &&& final(self).board@ == old(self).board@
                &&& final(self).activity@ == old(self).activity@
            },
            *final(self) == (AppState {
                board: final(self).board,
                activity: final(self).activity,
                ..*old(self)
            }),
    {
        let status = self.board.scan_status();
        if status.running || same(status.state, "queued") || same(status.state, "pending") {
            let cancelled = self.board.cancel_scan();
            self.activity.log_activity("scan", "Scan cancelled by user", "", now_ts);
            CancelAnswer::Asked(cancelled)
        } else {
            CancelAnswer::AlreadyCompleted
        }
    }

    /// Begin a reload of the engine. Where it cannot begin, the reason comes back;
    /// the attempt counts as activity either way.
    pub fn reload_engine(&mut self, now_secs: u64) -> (refusal: Option<&'static str>)
        requires
            old(self).wf(),
        ensures
            final(self).wf(),
            text_view(refusal) == reload_refusal(
                old(self).reload.in_progress,
                old(self).directories_known,
            ),
            text_view(refusal) == if old(self).reload.in_progress {
                Some("engine reload already in progress"@)
            } else if !old(self).directories_known {
                Some("DLL or DB directory not configured"@)
            } else {
                None
            },
            refusal is None ==> final(self).reload.in_progress && phase_of(
                final(self).reload.phase,
            ) is Compiling,
            refusal is Some ==> final(self).reload == old(self).reload,
            *final(self) == (AppState {
                reload: final(self).reload,
                activity_tracker: ActivityTracker {
                    last_reload: now_secs,
                    ..old(self).activity_tracker
                },
                ..*old(self)
            }),
    {
        self.activity_tracker.record_reload(now_secs);
        begin_reload(&mut self.reload, self.directories_known)
    }

    /// End a reload. A new engine takes the place of the old one together with
    /// what is reported of it; after a failure the old one goes on serving.
    pub fn finish_reload_engine(
        &mut self,
        loaded: Result<(E, u64), String>,
        on_disk: CvdVersion,
        now_ts: i64,
    )
        requires
            old(self).wf(),
        ensures
            final(self).wf(),
            !final(self).reload.in_progress,
            final(self).engine.engine == engine_after(
                old(self).engine.engine,
                match loaded {
                    Ok((engine, _)) => Some(engine),
                    Err(_) => None,
                },
            ),
            match loaded {
                Ok((engine, sigs)) => {
                    &&& phase_of(final(self).reload.phase) is Idle
                    &&& final(self).engine.engine == Some(engine)
                    &&& final(self).engine.last_error is None
                    &&& final(self).committed.signature_count == sigs
                    &&& final(self).committed.db == stamp_of(on_disk)
                    &&& final(self).activity@ == logged(
                        old(self).activity@,
                        "engine"@,
                        "Engine reloaded — "@ + crate::text::decimal(sigs as nat) + " signatures"@,
                        ""@,
                        now_ts,
                    )
                },
                Err(e) => {
                    &&& phase_of(final(self).reload.phase) is Failed
                    &&& final(self).engine.engine == old(self).engine.engine
                    &&& owned_view(final(self).engine.last_error) == Some(e@)
                    &&& final(self).committed == old(self).committed
                    &&& final(self).activity@ == logged(
                        old(self).activity@,
                        "engine"@,
                        "Engine reload failed"@,
                        e@,
                        now_ts,
                    )
                },
            },
            *final(self) == (AppState {
                reload: final(self).reload,
                engine: final(self).engine,
                committed: final(self).committed,
                activity: final(self).activity,
                ..*old(self)
            }),
    {
        let event = finish_reload(
            &mut self.reload,
            &mut self.engine,
            &mut self.committed,
            loaded,
            on_disk,
        );
        self.log_activity(&event, now_ts);
    }

    /// Report on the engine.
    pub fn engine_status(&self, on_disk: CvdVersion) -> (report: EngineReport)
        ensures
            report == (EngineReport {
                ready: self.engine.engine is Some,
                db_version: reported(self.committed, on_disk).version,
                db_timestamp: reported(self.committed, on_disk).timestamp,
                signature_count: self.committed.signature_count,
                last_update: self.update@.last_timestamp,
                reload_phase: phase_of(self.reload.phase),
            }),
    {
        engine_status(
            &self.engine,
            &self.committed,
            on_disk,
            self.update.last_timestamp,
            self.reload.phase,
        )
    }

    /// Start an update of the signatures: it counts as activity, and begins unless
    /// one is running or the updater is not there. What went wrong comes back.
    pub fn start_update(
        &mut self,
        binary_found: bool,
        config_found: bool,
        now_secs: u64,
        now_ts: i64,
    ) -> (answer: Result<(), String>)
        requires
            old(self).wf(),
        ensures
            final(self).wf(),
            final(self).update@ == update_start(old(self).update@, binary_found, config_found).0,
            (match answer {
                Ok(_) => None,
                Err(e) => Some(e@),
            }) == update_start(old(self).update@, binary_found, config_found).1,
            ({
                let begun = logged(
                    old(self).activity@,
                    "update"@,
                    "Signature update started"@,
                    "Running freshclam..."@,
                    now_ts,
                );
                if old(self).update@.running {
                    &&& answer matches Err(e) && e@ == "Update already in progress"@
                    &&& final(self).update@ == old(self).update@
                    &&& final(self).activity@ == old(self).activity@
                } else if binary_found && config_found {
                    &&& answer is Ok
                    &&& final(self).update@ == (Updates {
                        running: true,
                        last_error: None,
                        ..old(self).update@
                    })
                    &&& final(self).activity@ == begun
                } else {
                    let error = if !binary_found {
                        "freshclam binary not found"@
                    } else {
                        "freshclam.conf not found"@
                    };
                    &&& answer matches Err(e) && e@ == error
                    &&& final(self).update@ == (Updates {
                        running: false,
                        last_error: Some(error),
                        ..old(self).update@
                    })
                    &&& final(self).activity@ == logged(
                        begun,
                        "update"@,
                        "Update failed"@,
                        error,
                        now_ts,
                    )
                }
            }),
            *final(self) == (AppState {
                update: final(self).update,
                activity: final(self).activity,
                activity_tracker: ActivityTracker {
                    last_update: now_secs,
                    ..old(self).activity_tracker
                },
                ..*old(self)
            }),
    {
        self.activity_tracker.record_update(now_secs);
        match self.update.begin_update() {
            Some(event) => {
                self.log_activity(&event, now_ts);
            },
            None => {
                return Err("Update already in progress".to_owned());
            },
        }
        match self.update.check_updater(binary_found, config_found) {
            Some((error, event)) => {
                self.log_activity(&event, now_ts);
                Err(error)
            },
            None => Ok(()),
        }
    }

    /// The updater has ended; where it succeeded, the engine is to be reloaded.
    pub fn finish_update(&mut self, success: bool, message: &str, now_ts: i64)
        requires
            old(self).wf(),
        ensures
            final(self).wf(),
            final(self).update@ == updater_ended(old(self).update@, success, message@, now_ts),
            final(self).activity@ == logged(
                old(self).activity@,
                ended_event(success, message@).category,
                ended_event(success, message@).title,
                ended_event(success, message@).message,
                now_ts,
            ),
            final(self).update@ == if success {
                Updates {
                    last_timestamp: Some(now_ts),
                    phase: UpdatePhase::ReloadingEngine,
                    ..old(self).update@
                }
            } else {
                Updates { last_error: Some(failure_detail(message@)), ..old(self).update@ }
            },
            final(self).activity@ == if success {
                logged(
                    old(self).activity@,
                    "update"@,
                    "Signatures updated successfully"@,
                    first_chars(message@, 200),
                    now_ts,
                )
            } else {
                logged(
                    old(self).activity@,
                    "update"@,
                    "Signature update failed"@,
                    failure_detail(message@),
                    now_ts,
                )
            },
            *final(self) == (AppState {
                update: final(self).update,
                activity: final(self).activity,
                ..*old(self)
            }),
    {
        let event = self.update.updater_finished(success, message, now_ts);
        self.log_activity(&event, now_ts);
    }

    /// The signatures were updated but the engine could not be reloaded.
    pub fn note_stale_engine(&mut self, error: &str, now_ts: i64)
        requires
            old(self).wf(),
        ensures
            final(self).wf(),
            final(self).activity@ == logged(
                old(self).activity@,
                "update"@,
                "Updated but engine reload failed"@,
                error@,
                now_ts,
            ),
            *final(self) == (AppState { activity: final(self).activity, ..*old(self) }),
    {
        self.activity.log_activity("update", "Updated but engine reload failed", error, now_ts);
    }

    pub fn update_status(&self) -> (report: UpdateReport)
        ensures
            report@ == report_of(self.update@),
    {
        self.update.update_status()
    }

    /// Why the heuristics run in the helper, if they do.
    pub fn argus_route(&self) -> (reason: Option<ExternalReason>)
        ensures
            reason == argus_route(
                self.argus_worker.enabled,
                self.audit_mode,
                self.performance_config.external_argus_under_pressure,
                under_pressure(self.pressure_tracker@),
            ),
    {
        route_argus(
            self.argus_worker.enabled,
            self.audit_mode,
            self.performance_config.external_argus_under_pressure,
            self.pressure_tracker.prefer_external_argus(),
        )
    }

    /// The helper failed on a file: give up where the job was cancelled, else
    /// count the failure and do the work here.
    pub fn argus_worker_failed(&mut self, error: &str) -> (next: AfterFailure)
        requires
            old(self).wf(),
        ensures
            final(self).wf(),
            next == failure_verdict(error@),
            match next {
                AfterFailure::GiveUp => *final(self) == *old(self),
                AfterFailure::FallBack => {
                    &&& final(self).argus_worker@ == worker_failed(old(self).argus_worker@, error@)
                    &&& final(self).resilience@ == failure_noted(old(self).resilience@, error@)
                    &&& *final(self) == (AppState {
                        argus_worker: final(self).argus_worker,
                        resilience: final(self).resilience,
                        ..*old(self)
                    })
                },
            },
    {
        let next = after_failure(error);
        match next {
            AfterFailure::GiveUp => {},
            AfterFailure::FallBack => {
                self.argus_worker.record_argus_worker_failure(&mut self.resilience, error);
            },
        }
        next
    }

    pub fn set_clamav_subprocess(&mut self, enabled: bool, timeout_sec: u64)
        requires
            old(self).wf(),
        ensures
            final(self).wf(),
            *final(self) == (AppState {
                isolation: ClamIsolation { enabled, timeout_secs: at_least_ten(timeout_sec) },
                ..*old(self)
            }),
    {
        self.isolation.set_clamav_subprocess(enabled, timeout_sec);
    }

    /// How long the signature engine may take in a process of its own, if it runs
    /// in one.
    pub fn clamav_route(&self) -> (secs: Option<u64>)
        ensures
            secs == clamav_time(self.isolation, self.directories_known),
            secs == if self.isolation.enabled && self.directories_known {
                Some(at_least_ten(self.isolation.timeout_secs))
            } else {
                None
            },
    {
        self.isolation.route_clamav(self.directories_known)
    }

    pub fn record_worker_panic(&mut self, reason: &str)
        requires
            old(self).wf(),
        ensures
            final(self).wf(),
            final(self).resilience@ == with_panic(old(self).resilience@, reason@),
            *final(self) == (AppState { resilience: final(self).resilience, ..*old(self) }),
    {
        self.resilience.record_worker_panic(reason);
    }

    pub fn record_worker_timeout(&mut self, reason: &str)
        requires
            old(self).wf(),
        ensures
            final(self).wf(),
            final(self).resilience@ == with_timeout(old(self).resilience@, reason@),
            *final(self) == (AppState { resilience: final(self).resilience, ..*old(self) }),
    {
        self.resilience.record_worker_timeout(reason);
    }

    pub fn touch_watcher_heartbeat(&mut self, now_secs: u64)
        requires
            old(self).wf(),
        ensures
            final(self).wf(),
            final(self).resilience@ == (Resilience {
                watcher_last_heartbeat: now_secs,
                ..old(self).resilience@
            }),
            *final(self) == (AppState { resilience: final(self).resilience, ..*old(self) }),
    {
        self.resilience.touch_watcher_heartbeat(now_secs);
    }

    pub fn touch_orchestrator_heartbeat(&mut self, now_secs: u64)
        requires
            old(self).wf(),
        ensures
            final(self).wf(),
            final(self).resilience@ == (Resilience {
                orchestrator_last_heartbeat: now_secs,
                ..old(self).resilience@
            }),
            *final(self) == (AppState { resilience: final(self).resilience, ..*old(self) }),
    {
        self.resilience.touch_orchestrator_heartbeat(now_secs);
    }

    /// Look after the watcher: whether to restart it now. A restart is counted and
    /// taken as a sign of life.
    pub fn supervise_watcher(&mut self, realtime_on: bool, now_secs: u64) -> (restart: bool)
        requires
            old(self).wf(),
        ensures
            final(self).wf(),
            restart == stalled(
                old(self).user_disabled_protection,
                realtime_on,
                old(self).resilience.watcher_last_heartbeat,
                now_secs,
            ),
            restart == (!old(self).user_disabled_protection && realtime_on && old(self).resilience.watcher_last_heartbeat != 0 && now_secs
                > old(self).resilience.watcher_last_heartbeat + WATCHER_STALL_SECS),
            final(self).resilience@ == if restart {
                Resilience {
                    watcher_restarts_total: old(self).resilience.watcher_restarts_total.wrapping_add(1),
                    watcher_last_heartbeat: now_secs,
                    ..old(self).resilience@
                }
            } else {
                old(self).resilience@
            },
            *final(self) == (AppState { resilience: final(self).resilience, ..*old(self) }),
    {
        let restart = watcher_stalled(
            self.user_disabled_protection,
            realtime_on,
            self.resilience.watcher_last_heartbeat,
            now_secs,
        );
        if restart {
            self.resilience.watcher_restarted(now_secs);
        }
        restart
    }

    pub fn set_binary_integrity_drift(&mut self, drifted: bool)
        requires
            old(self).wf(),
        ensures
            final(self).wf(),
            final(self).resilience@ == (Resilience {
                binary_integrity_drift: drifted,
                ..old(self).resilience@
            }),
            *final(self) == (AppState { resilience: final(self).resilience, ..*old(self) }),
    {
        self.resilience.set_binary_integrity_drift(drifted);
    }

    pub fn binary_integrity_drift(&self) -> (drifted: bool)
        ensures
            drifted == self.resilience@.binary_integrity_drift,
    {
        self.resilience.binary_integrity_drift
    }

    pub fn set_config_drift(&mut self, drifted: bool)
        requires
            old(self).wf(),
        ensures
            final(self).wf(),
            final(self).resilience@ == (Resilience {
                config_drift: drifted,
                ..old(self).resilience@
            }),
            *final(self) == (AppState { resilience: final(self).resilience, ..*old(self) }),
    {
        self.resilience.set_config_drift(drifted);
    }

    pub fn config_drift(&self) -> (drifted: bool)
        ensures
            drifted == self.resilience@.config_drift,
    {
        self.resilience.config_drift
    }

    /// Judge a request to change critical settings and apply it to the running
    /// protection. One that is rejected is logged and changes nothing else.
    pub fn change_critical(
        &mut self,
        config: CriticalConfig,
        request: &CriticalRequest,
        now_secs: u64,
        now_ts: i64,
    ) -> (result: (CriticalOutcome, Toggle))
        requires
            old(self).wf(),
        ensures
            final(self).wf(),
            critical_result(config@, request@, result.0),
            result.1 == critical_toggle(request@, old(self).user_disabled_protection),
            (final(self).user_disabled_protection, final(self).protection_disabled_at)
                == protection_after(
                old(self).user_disabled_protection,
                old(self).protection_disabled_at,
                result.1,
                now_secs,
            ),
            final(self).user_disabled_protection == match result.1 {
                Toggle::Disable => true,
                Toggle::Enable => false,
                Toggle::Keep => old(self).user_disabled_protection,
            },
            final(self).protection_disabled_at == match result.1 {
                Toggle::Disable => now_secs,
                Toggle::Enable => 0,
                Toggle::Keep => old(self).protection_disabled_at,
            },
            final(self).activity@ == match result.0 {
                CriticalOutcome::Rejected { title, .. } => logged(
                    old(self).activity@,
                    "protection"@,
                    title@,
                    ""@,
                    now_ts,
                ),
                CriticalOutcome::Accepted { .. } => old(self).activity@,
            },
            *final(self) == (AppState {
                user_disabled_protection: final(self).user_disabled_protection,
                protection_disabled_at: final(self).protection_disabled_at,
                activity: final(self).activity,
                ..*old(self)
            }),
    {
        let (outcome, toggle) = set_critical(config, request, self.user_disabled_protection);
        match toggle {
            Toggle::Disable => self.disable_protection(now_secs),
            Toggle::Enable => self.enable_protection(),
            Toggle::Keep => {},
        }
        if let Some(rejection) = outcome.rejection() {
            self.log_activity(&rejection.event, now_ts);
        }
        (outcome, toggle)
    }

    /// Report on the helpers. The clock has not run backwards since their latest
    /// signs of life.
    pub fn resilience_diagnostics(&self, now_secs: u64) -> (report: ResilienceReport)
        requires
            self.resilience.watcher_last_heartbeat <= now_secs,
            self.resilience.orchestrator_last_heartbeat <= now_secs,
        ensures
            report@ == reported_health(self.resilience@, self.argus_worker@, now_secs),
            report@ == (ResilienceReport {
                worker_panics: self.resilience.worker_panics_total,
                worker_timeouts: self.resilience.worker_timeouts_total,
                argus_fallbacks: self.argus_worker.fallback_count,
                argus_timeouts: self.argus_worker.timeout_count,
                last_recovery_reason: owned_view(self.resilience.last_recovery_reason),
                watcher_heartbeat_ts: self.resilience.watcher_last_heartbeat,
                watcher_heartbeat_stale: stale(
                    self.resilience.watcher_last_heartbeat,
                    now_secs,
                    120,
                ),
                orchestrator_heartbeat_ts: self.resilience.orchestrator_last_heartbeat,
                orchestrator_heartbeat_stale: stale(
                    self.resilience.orchestrator_last_heartbeat,
                    now_secs,
                    300,
                ),
                watcher_restarts_total: self.resilience.watcher_restarts_total,
                binary_integrity_drift: self.resilience.binary_integrity_drift,
                config_drift: self.resilience.config_drift,
            }),
    {
        self.resilience.resilience_diagnostics(&self.argus_worker, now_secs)
    }

    /// Counters of bounded execution.
    pub fn budget_diagnostics(&self) -> (counters: BudgetCounters)
        ensures
            counters == self.budget,
    {
        self.budget
    }

    /// Judge the queue.
    pub fn orchestrator_health(&self, worker_crashes: &Vec<u64>) -> (gate: HealthGate)
        requires
            sum(worker_crashes@) <= u64::MAX,
        ensures
            gate.crashes == sum(worker_crashes@),
            gate.timeouts == self.argus_worker.timeout_count,
            gate.fallbacks == self.argus_worker.fallback_count,
            gate.failed == self.board.counters.failed,
            gate.completed_file_scans == self.board.counters.completed_file,
            gate.healthy == (gate.crashes == 0 && gate.timeouts == 0 && gate.failed == 0
                && gate.fallbacks <= 2),
            gate.ready_for_next_pilot == (gate.healthy && gate.completed_file_scans >= 3),
            gate.healthy == untroubled_queue(
                sum(worker_crashes@),
                self.argus_worker.timeout_count,
                self.argus_worker.fallback_count,
                self.board.counters.failed,
            ),
    {
        health_gate(worker_crashes, &self.argus_worker, &self.board.counters)
    }

    /// Mark a path that is about to be restored.
    pub fn mark_restore_in_progress(&mut self, path: &str, now: u64)
        requires
            old(self).wf(),
        ensures
            final(self).wf(),
            final(self).restore_suppress@ == holding(old(self).restore_suppress@, now).insert(
                path@,
                now,
            ),
            *final(self) == (AppState {
                restore_suppress: final(self).restore_suppress,
                ..*old(self)
            }),
    {
        self.restore_suppress.mark_restore_in_progress(path, now);
    }

    /// Whether the watcher leaves a path alone.
    pub fn is_restore_suppressed(&self, path: &str, now: u64) -> (yes: bool)
        requires
            self.wf(),
        ensures
            yes == (self.restore_suppress@.contains_key(path@) && holds(
                self.restore_suppress@[path@],
                now,
            )),
    {
        self.restore_suppress.is_restore_suppressed(path, now)
    }

    /// Go on with a restore. The place is marked here, so that the watcher leaves it
    /// alone before anything is written, and a restore that is done is logged.
    pub fn advance_restore(
        &mut self,
        job: &mut RestoreJob,
        event: RestoreEvent,
        now: u64,
        now_ts: i64,
    ) -> (step: RestoreStep)
        requires
            old(self).wf(),
            restore_expects(old(job).stage, event@),
            !(event is Marked),
        ensures
            final(self).wf(),
            (final(job)@, step@) == restore_onward(old(job)@, event@),
            !(step is Mark),
            step is Write ==> final(self).restore_suppress@.contains_key(final(job).path@)
                && final(self).restore_suppress@[final(job).path@] == now,
            final(self).restore_suppress@ == if restore_next(old(job)@, event@).1 is Mark {
                holding(old(self).restore_suppress@, now).insert(final(job).path@, now)
            } else {
                old(self).restore_suppress@
            },
            final(self).activity@ == if step is Done {
                logged(
                    old(self).activity@,
                    "quarantine"@,
                    restored_event(final(job).path@, final(job).elsewhere).title,
                    final(job).path@,
                    now_ts,
                )
            } else {
                old(self).activity@
            },
            *final(self) == (AppState {
                restore_suppress: final(self).restore_suppress,
                activity: final(self).activity,
                ..*old(self)
            }),
    {
        let mut step = job.advance(event);
        if let RestoreStep::Mark = step {
            self.mark_restore_in_progress(job.path.as_str(), now);
            step = job.advance(RestoreEvent::Marked);
        }
        if let RestoreStep::Done(_) = step {
            let event = job.describe();
            self.log_activity(&event, now_ts);
        }
        step
    }

    /// End a quarantine and log it where it worked.
    pub fn finish_quarantine(
        &mut self,
        done: bool,
        virus_name: &str,
        path: &str,
        scan_id: &str,
        now_ts: i64,
    ) -> (end: QuarantineEnd)
        requires
            old(self).wf(),
        ensures
            final(self).wf(),
            end.undo == !done,
            end.event is Some <==> done,
            end.event matches Some(e) ==> e@ == (ActivityEvent {
                severity: "critical"@,
                category: "quarantine"@,
                title: "Quarantined: "@ + virus_name@,
                message: path@,
                scan_id: Some(scan_id@),
            }),
            final(self).activity@ == if done {
                logged(
                    old(self).activity@,
                    "quarantine"@,
                    "Quarantined: "@ + virus_name@,
                    path@,
                    now_ts,
                )
            } else {
                old(self).activity@
            },
            *final(self) == (AppState { activity: final(self).activity, ..*old(self) }),
    {
        let end = finish_quarantine(done, virus_name, path, scan_id);
        if let Some(event) = &end.event {
            self.log_activity(event, now_ts);
        }
        end
    }

    /// Log that an item was deleted.
    pub fn finish_delete(&mut self, id: &str, now_ts: i64)
        requires
            old(self).wf(),
        ensures
            final(self).wf(),
            final(self).activity@ == logged(
                old(self).activity@,
                "quarantine"@,
                "Quarantine item permanently deleted"@,
                id@,
                now_ts,
            ),
            *final(self) == (AppState { activity: final(self).activity, ..*old(self) }),
    {
        let event = deleted_event(id);
        self.log_activity(&event, now_ts);
    }

    /// Start the idle scanner where it is switched on and there is an engine to
    /// scan with: whether it was started.
    pub fn start_idle_scanner(&mut self, enabled: bool) -> (started: bool)
        requires
            old(self).wf(),
        ensures
            final(self).wf(),
            started == (enabled && old(self).engine.engine is Some),
            started == idle_starts(enabled, old(self).engine.engine is Some),
            started ==> final(self).idle_scanner is Some && final(self).idle_scanner->0@ == (
            IdleScanner {
                running: true,
                files_scanned: 0,
                state: IdleScannerState::WaitingForCapacity,
                current_target: ""@,
                last_pause_reason: ""@,
                last_completed: None,
            }),
            !started ==> final(self).idle_scanner == old(self).idle_scanner,
            *final(self) == (AppState { idle_scanner: final(self).idle_scanner, ..*old(self) }),
    {
        let started = enabled && self.engine.engine.is_some();
        if started {
            self.idle_scanner = Some(IdleScanner::start());
        }
        started
    }

    /// Report on the idle scanner; one that was never started is off.
    pub fn idle_scanner_stats(&self) -> (stats: IdleScannerStats)
        ensures
            stats@ == (match self.idle_scanner {
                Some(scanner) => IdleScannerStats {
                    state: scanner.state,
                    files_scanned_session: scanner.files_scanned,
                    current_target: scanner.current_target@,
                    last_pause_reason: scanner.last_pause_reason@,
                    last_completed: scanner.last_completed,
                },
                None => IdleScannerStats {
                    state: IdleScannerState::Disabled,
                    files_scanned_session: 0,
                    current_target: ""@,
                    last_pause_reason: ""@,
                    last_completed: None,
                },
            }),
    {
        match &self.idle_scanner {
            Some(scanner) => scanner.stats(),
            None => IdleScannerStats {
                state: IdleScannerState::Disabled,
                files_scanned_session: 0,
                current_target: "".to_owned(),
                last_pause_reason: "".to_owned(),
                last_completed: None,
            },
        }
    }
}

/// What a report on the whole daemon takes from outside.
pub struct RuntimeFacts {
    /// Now, in nanoseconds.
    pub now: u64,
    /// Now, in seconds since 1970.
    pub now_ts: i64,
    /// Totals that are kept over restarts, where the records are open.
    pub stored: Option<StoredTotals>,
    /// When a signature file was last written.
    pub newest_db_mtime: Option<i64>,
    pub watcher_active: bool,
    pub argus: ArgusStats,
    pub cache: CacheStats,
    pub memory: crate::footprint::ProcessMemory,
    pub active_workers: u32,
}

/// What protects the machine, as the state and the facts tell.
pub open spec fn shields_of<E>(state: AppState<E>, facts: RuntimeFacts) -> Shields {
    Shields {
        user_disabled: state.user_disabled_protection,
        engine: state.engine.engine is Some,
        watcher: facts.watcher_active,
        argus_layers: facts.argus.active_layers,
        yara_rules: facts.argus.yara_rules_loaded,
    }
}

/// Seconds since the start.
pub open spec fn uptime<E>(state: AppState<E>, now: u64) -> u64 {
    if now >= state.started_at {
        ((now - state.started_at) / 1_000_000_000) as u64
    } else {
        0
    }
}

/// Whether the counts of a report are those of the state and the facts.
pub open spec fn counts_reported<E>(
    r: RuntimeStats,
    state: AppState<E>,
    facts: RuntimeFacts,
) -> bool {
    let up = uptime(state, facts.now);
    let history = state.board@.history;
    &&& r.uptime_secs == up
    &&& r.uptime_human@ == uptime_words(up as nat)
    &&& r.started_at == facts.now_ts - up
    &&& r.scans_completed == match facts.stored {
        Some(stored) => stored.scans as nat,
        None => history.len(),
    }
    &&& r.threats_found_total == match facts.stored {
        Some(stored) => stored.threats as nat,
        None => threats_in(history),
    }
    &&& r.quarantine_count == match facts.stored {
        Some(stored) => stored.quarantined,
        None => 0,
    }
    &&& r.total_detections == match facts.stored {
        Some(stored) => stored.detections,
        None => 0,
    }
    &&& r.total_files_scanned == files_in(history)
    &&& r.ipc_requests_served == state.ipc_total_requests
    &&& r.activity_count == state.activity@.len()
    &&& r.ipc_reconnect_count == state.ipc_reconnect_count
    &&& r.ipc_last_error_ts == state.ipc_last_error_ts
}

/// Whether what a report says of the engines is so.
pub open spec fn engines_reported<E>(
    r: RuntimeStats,
    state: AppState<E>,
    facts: RuntimeFacts,
) -> bool {
    let effective = later(state.update@.last_timestamp, facts.newest_db_mtime);
    &&& r.engine_loaded == state.engine.engine is Some
    &&& r.signature_count == state.committed.signature_count
    &&& r.db_stale == reported_stale(
        state.committed.signature_count,
        effective,
        facts.now_ts,
        state.signature_stale_hours,
    )
    &&& r.db_stale_hours == staleness(effective, facts.now_ts, state.signature_stale_hours).1
    &&& r.last_update_timestamp == state.update@.last_timestamp
    &&& r.argus_version@ == facts.argus.engine_version@
    &&& r.argus_files_analyzed == facts.argus.files_analyzed
    &&& r.argus_threats_detected == facts.argus.threats_detected
    &&& r.argus_active_layers == facts.argus.active_layers
    &&& r.argus_avg_analysis_us == facts.argus.avg_analysis_time_us
    &&& r.argus_yara_rules == facts.argus.yara_rules_loaded
    &&& r.cache_hits == facts.cache.hits
    &&& r.cache_misses == facts.cache.misses
    &&& r.cache_entries == facts.cache.entries
}

/// Whether what a report says of the protection is so.
pub open spec fn protection_reported<E>(
    r: RuntimeStats,
    state: AppState<E>,
    facts: RuntimeFacts,
) -> bool {
    let shields = shields_of(state, facts);
    &&& r.watcher_active == facts.watcher_active
    &&& r.protection_state@ == protection_word(protection(shields))
    &&& owned_view(r.protection_detail) == detail_of(shields)
    &&& owned_view(r.protection_detail) == if issues(shields).len() == 0 {
        None
    } else {
        Some(joined(issues(shields), "; "@))
    }
    &&& r.idle_scanner_state@ == idle_plain_word(
        match state.idle_scanner {
            Some(scanner) => scanner.state,
            None => IdleScannerState::Disabled,
        },
    )
    &&& r.idle_scanner_files == match state.idle_scanner {
        Some(scanner) => scanner.files_scanned,
        None => 0,
    }
}

impl<E> AppState<E> {
    /// Report on the daemon as a whole. The report takes a snapshot of the memory
    /// in use.
    pub fn runtime_stats(&mut self, facts: &RuntimeFacts) -> (report: RuntimeStats)
        requires
            old(self).wf(),
            facts.now_ts - uptime(*old(self), facts.now) >= i64::MIN,
            facts.memory.working_set_mb <= i64::MAX,
            files_in(old(self).board@.history) <= u64::MAX,
            threats_in(old(self).board@.history) <= u64::MAX,
        ensures
            final(self).wf(),
            counts_reported(report, *old(self), *facts),
            engines_reported(report, *old(self), *facts),
            protection_reported(report, *old(self), *facts),
            snapshot_of(
                report.footprint,
                capture_facts(*facts),
                old(self).engine.engine is Some,
                old(self).committed.signature_count,
                old(self).footprint_baselines,
                final(self).footprint_baselines,
            ),
            captured(
                old(self).footprint_baselines,
                facts.memory.working_set_mb,
                final(self).footprint_baselines,
            ),
            final(self).pressure_tracker@ == next_state(
                old(self).pressure_tracker@,
                facts.memory.working_set_mb as int,
                old(self).performance_config,
            ),
            *final(self) == (AppState {
                footprint_baselines: final(self).footprint_baselines,
                pressure_tracker: final(self).pressure_tracker,
                ..*old(self)
            }),
    {
        let up: u64 = self.uptime_secs(facts.now);
        let (files, threats): (u64, u64) = history_totals(&self.board.scan_history);
        let (scans_completed, threats_found_total, quarantine_count, total_detections): (
            u64,
            u64,
            u64,
            u64,
        ) = match facts.stored {
            Some(stored) => (stored.scans, stored.threats, stored.quarantined, stored.detections),
            None => (self.board.scan_history.len() as u64, threats, 0, 0),
        };
        let last_update = self.update.last_timestamp;
        let effective = later_of(last_update, facts.newest_db_mtime);
        let (_, db_stale_hours): (bool, u64) = compute_db_stale(
            effective,
            facts.now_ts,
            self.signature_stale_hours,
        );
        let db_stale = is_db_stale(
            self.committed.signature_count,
            effective,
            facts.now_ts,
            self.signature_stale_hours,
        );
        let shields = Shields {
            user_disabled: self.user_disabled_protection,
            engine: self.engine.engine.is_some(),
            watcher: facts.watcher_active,
            argus_layers: facts.argus.active_layers,
            yara_rules: facts.argus.yara_rules_loaded,
        };
        let idle = self.idle_scanner_stats();
        let engine_loaded = self.engine.engine.is_some();
        let activity_count: u64 = self.activity.entries.len() as u64;
        let footprint = self.capture_footprint(
            &CaptureFacts {
                memory: facts.memory,
                yara_rules: facts.argus.yara_rules_loaded,
                cache_entries: facts.cache.entries,
                active_workers: facts.active_workers,
            },
        );
        RuntimeStats {
            uptime_secs: up,
            uptime_human: format_uptime(up),
            scans_completed,
            threats_found_total,
            ipc_requests_served: self.ipc_total_requests,
            quarantine_count,
            activity_count,
            started_at: facts.now_ts - up as i64,
            engine_loaded,
            signature_count: self.committed.signature_count,
            db_stale,
            db_stale_hours,
            watcher_active: facts.watcher_active,
            last_update_timestamp: last_update,
            total_files_scanned: files,
            total_detections,
            argus_version: facts.argus.engine_version.clone(),
            argus_files_analyzed: facts.argus.files_analyzed,
            argus_threats_detected: facts.argus.threats_detected,
            argus_active_layers: facts.argus.active_layers,
            argus_avg_analysis_us: facts.argus.avg_analysis_time_us,
            argus_yara_rules: facts.argus.yara_rules_loaded,
            protection_state: protection_state(shields).as_str().to_owned(),
            protection_detail: protection_detail(shields),
            cache_hits: facts.cache.hits,
            cache_misses: facts.cache.misses,
            cache_entries: facts.cache.entries,
            idle_scanner_state: idle_plain(idle.state).to_owned(),
            idle_scanner_files: idle.files_scanned_session,
            ipc_reconnect_count: self.ipc_reconnect_count,
            ipc_last_error_ts: self.ipc_last_error_ts,
            footprint,
        }
    }
}

/// The facts for the snapshot that a report takes.
pub open spec fn capture_facts(facts: RuntimeFacts) -> CaptureFacts {
    CaptureFacts {
        memory: facts.memory,
        yara_rules: facts.argus.yara_rules_loaded,
        cache_entries: facts.cache.entries,
        active_workers: facts.active_workers,
    }
}

/// A scan can be cancelled while it waits, runs or drains, and not once it is over.
pub proof fn unfinished_scans_can_be_cancelled(b: Board)
    ensures
        b.live is None && b.active is None ==> !cancellable(b),
        b.live matches Some(l) ==> (cancellable(b) <==> decoded(l.status) is Running || decoded(
            l.status,
        ) is Pending || decoded(l.status) is Draining),
        (b.live is None && b.active is Some) ==> (cancellable(b) <==> b.active->0.status is Running
            || b.active->0.status is Pending),
{
    reveal_strlit("idle");
    reveal_strlit("pending");
    reveal_strlit("queued");
    reveal_strlit("running");
    reveal_strlit("completed");
    reveal_strlit("cancelled");
    reveal_strlit("failed");
    reveal_strlit("cancelling");
    assert("idle"@.len() == 4 && "pending"@.len() == 7 && "queued"@.len() == 6);
    assert("running"@.len() == 7 && "completed"@.len() == 9 && "cancelled"@.len() == 9);
    assert("failed"@.len() == 6 && "cancelling"@.len() == 10);
    assert("failed"@[0] == 'f' && "queued"@[0] == 'q' && "running"@[0] == 'r' && "pending"@[0]
        == 'p');
}

/// The path that is told is that of the scan in progress, and none is told where
/// nothing runs.
pub proof fn path_is_told_while_scanning(b: Board)
    ensures
        ({
            let live = b.live is Some && (decoded(b.live->0.status) is Running || decoded(
                b.live->0.status,
            ) is Draining) && b.live->0.current_path.len() > 0;
            let active = b.active is Some && b.active->0.status is Running;
            &&& live ==> active_path(b) == Some(b.live->0.current_path)
            &&& !live && active ==> active_path(b) == Some(b.active->0.current_path)
            &&& !live && !active ==> active_path(b) is None
        }),
{
}

/// The numbers of the manual queue are those of the first queue of that kind,
/// whatever stands behind it, and nothing where there is none.
pub proof fn manual_queue_is_the_first(queues: Seq<QueueFacts>, facts: (u64, u64), k: int)
    requires
        manual_facts(queues, facts),
        0 <= k <= queues.len(),
        forall|j: int| 0 <= j < k ==> (#[trigger] queues[j]).kind@ != "manual"@,
    ensures
        k == queues.len() ==> facts == (0u64, 0u64),
        k < queues.len() && queues[k].kind@ == "manual"@ ==> {
            &&& queues[k].depth matches Some(n) ==> facts.0 == n
            &&& queues[k].depth is None ==> facts.0 == 0
            &&& queues[k].average_scan_duration_ms matches Some(n) ==> facts.1 == n
            &&& queues[k].average_scan_duration_ms is None ==> facts.1 == 0
        },
{
    if k < queues.len() && queues[k].kind@ == "manual"@ {
        assert(first_manual(queues, k));
    }
}

/// Where a restore finds the place of its item, the next thing outside is to write it:
/// the mark is set on the way, and no mark is left to set.
pub proof fn restore_marks_before_it_writes(
    job: RestoreJob<Seq<char>>,
    event: RestoreEvent<Seq<char>>,
)
    requires
        !(event is Marked),
    ensures
        ({
            let (next, step) = restore_onward(job, event);
            &&& !(step is Mark)
            &&& step is Write ==> (event matches RestoreEvent::Found { records_open, place }
                && records_open && place == Some(next.path))
            &&& (event matches RestoreEvent::Found { records_open, place } && records_open
                && place is Some) ==> step is Write
            &&& next.id == job.id && next.elsewhere == job.elsewhere
        }),
{
}

/// A scan starts where there is an engine and the type is known; without an engine its
/// last error is told, and else the type that nobody knows.
pub proof fn scans_need_an_engine(
    last_error: Option<Seq<char>>,
    scan_type: Seq<char>,
    flags: QueueFlags,
)
    ensures
        ({
            let refusal = start_refusal(false, last_error, scan_type, flags);
            &&& last_error matches Some(e) ==> refusal == Some("Engine not available: "@ + e)
            &&& last_error is None ==> refusal == Some("Engine not available: "@ + "No engine"@)
        }),
        ({
            let known = scan_type == "file"@ || scan_type == "quick"@ || scan_type == "folder"@
                || scan_type == "full"@ || scan_type == "startup"@;
            let refusal = start_refusal(true, last_error, scan_type, flags);
            &&& known ==> refusal is None
            &&& !known ==> refusal == Some("Unknown scan type: "@ + scan_type)
        }),
{
    crate::scan::start::scans_are_routed_by_their_type(scan_type, flags);
}

/// An update starts where none is running and the updater is there, and then its last
/// error is forgotten; whatever is missing is told and kept, and a running update is
/// not disturbed.
pub proof fn updates_start_where_they_can(u: Updates, binary_found: bool, config_found: bool)
    ensures
        ({
            let (after, error) = update_start(u, binary_found, config_found);
            &&& error is None <==> !u.running && binary_found && config_found
            &&& error is None ==> after.running && after.last_error is None
            &&& error is Some ==> after.running == u.running
            &&& u.running ==> after == u && error == Some("Update already in progress"@)
            &&& error is Some && !u.running ==> after.last_error == error
            &&& !u.running && !binary_found ==> error == Some("freshclam binary not found"@)
            &&& !u.running && binary_found && !config_found ==> error == Some(
                "freshclam.conf not found"@,
            )
            &&& after.phase == u.phase && after.last_timestamp == u.last_timestamp
        }),
{
}

/// Protection that is switched off is off from then on; switched on, it is on; and a
/// request that says nothing of it leaves it as it is.
pub proof fn protection_follows_its_switch(
    disabled: bool,
    since: u64,
    toggle: Toggle,
    now_secs: u64,
)
    ensures
        toggle is Disable ==> protection_after(disabled, since, toggle, now_secs) == (
            true,
            now_secs,
        ),
        toggle is Enable ==> protection_after(disabled, since, toggle, now_secs) == (false, 0u64),
        toggle is Keep ==> protection_after(disabled, since, toggle, now_secs) == (disabled, since),
{
}

/// A reload never leaves the daemon without the engine that it had.
pub proof fn reload_loses_no_engine<E>(before: Option<E>, loaded: Option<E>)
    ensures
        before is Some ==> engine_after(before, loaded) is Some,
        loaded is Some ==> engine_after(before, loaded) == loaded,
        loaded is None ==> engine_after(before, loaded) == before,
{
}

/// The idle scanner needs its switch and an engine.
pub proof fn idle_scanner_needs_both(enabled: bool, engine_ready: bool)
    ensures
        idle_starts(enabled, engine_ready) ==> enabled && engine_ready,
        enabled && engine_ready ==> idle_starts(enabled, engine_ready),
{
}

/// The totals of a report are those of the records where they are open, else those of
/// the history; the rest is counted since the start.
pub proof fn report_tells_the_counts<E>(r: RuntimeStats, state: AppState<E>, facts: RuntimeFacts)
    requires
        counts_reported(r, state, facts),
    ensures
        facts.stored matches Some(s) ==> r.scans_completed == s.scans && r.threats_found_total
            == s.threats && r.quarantine_count == s.quarantined && r.total_detections
            == s.detections,
        facts.stored is None ==> r.scans_completed == state.board@.history.len()
            && r.quarantine_count == 0 && r.total_detections == 0,
        facts.now >= state.started_at ==> r.uptime_secs == (facts.now - state.started_at)
            / 1_000_000_000,
        facts.now < state.started_at ==> r.uptime_secs == 0,
        r.started_at + r.uptime_secs == facts.now_ts,
        r.ipc_requests_served == state.ipc_total_requests,
        r.activity_count == state.activity@.len(),
        r.ipc_reconnect_count == state.ipc_reconnect_count,
        r.ipc_last_error_ts == state.ipc_last_error_ts,
{
}

/// A report tells of each engine what the engine tells of itself.
pub proof fn report_tells_of_the_engines<E>(
    r: RuntimeStats,
    state: AppState<E>,
    facts: RuntimeFacts,
)
    requires
        engines_reported(r, state, facts),
    ensures
        r.engine_loaded <==> state.engine.engine is Some,
        r.signature_count == state.committed.signature_count,
        r.last_update_timestamp == state.update@.last_timestamp,
        r.argus_version@ == facts.argus.engine_version@,
        r.argus_files_analyzed == facts.argus.files_analyzed,
        r.argus_threats_detected == facts.argus.threats_detected,
        r.argus_active_layers == facts.argus.active_layers,
        r.argus_avg_analysis_us == facts.argus.avg_analysis_time_us,
        r.argus_yara_rules == facts.argus.yara_rules_loaded,
        r.cache_hits == facts.cache.hits,
        r.cache_misses == facts.cache.misses,
        r.cache_entries == facts.cache.entries,
{
}

/// A report calls the machine protected by what protects it: the switch of the user,
/// the engine, the watcher and the heuristics, as they are.
pub proof fn report_tells_of_the_protection<E>(
    r: RuntimeStats,
    state: AppState<E>,
    facts: RuntimeFacts,
)
    requires
        protection_reported(r, state, facts),
    ensures
        r.watcher_active == facts.watcher_active,
        state.idle_scanner is None ==> r.idle_scanner_files == 0 && r.idle_scanner_state@
            == idle_plain_word(IdleScannerState::Disabled),
        state.idle_scanner matches Some(s) ==> r.idle_scanner_files == s.files_scanned
            && r.idle_scanner_state@ == idle_plain_word(s.state),
        shields_of(state, facts).user_disabled == state.user_disabled_protection,
        shields_of(state, facts).engine <==> state.engine.engine is Some,
        shields_of(state, facts).watcher == facts.watcher_active,
        shields_of(state, facts).argus_layers == facts.argus.active_layers,
        shields_of(state, facts).yara_rules == facts.argus.yara_rules_loaded,
        r.protection_state@ == protection_word(protection(shields_of(state, facts))),
        owned_view(r.protection_detail) == detail_of(shields_of(state, facts)),
{
}

/// The snapshot of a report takes its numbers from where they are.
pub proof fn snapshot_takes_the_facts(facts: RuntimeFacts)
    ensures
        capture_facts(facts).memory == facts.memory,
        capture_facts(facts).yara_rules == facts.argus.yara_rules_loaded,
        capture_facts(facts).cache_entries == facts.cache.entries,
        capture_facts(facts).active_workers == facts.active_workers,
{
}

} // verus!
