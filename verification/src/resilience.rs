//! What the daemon does when its helpers fail, and what it says about it.
//!
//! The two engines can run in processes of their own. A helper that fails is
//! counted and the work is done in this process; only a cancelled job ends.

use crate::scan::board::JobCounters;
use crate::text::{contains, occurs, owned_view};
use vstd::prelude::*;

verus! {

/// The helper that runs the heuristics.
pub struct ArgusWorker<T = String> {
    pub enabled: bool,
    pub path: T,
    pub timeout_secs: u64,
    pub fallback_count: u64,
    pub timeout_count: u64,
    pub last_error: Option<T>,
    pub last_timeout: Option<T>,
}

impl View for ArgusWorker {
    type V = ArgusWorker<Seq<char>>;

    open spec fn view(&self) -> ArgusWorker<Seq<char>> {
        ArgusWorker {
            enabled: self.enabled,
            path: self.path@,
            timeout_secs: self.timeout_secs,
            fallback_count: self.fallback_count,
            timeout_count: self.timeout_count,
            last_error: owned_view(self.last_error),
            last_timeout: owned_view(self.last_timeout),
        }
    }
}

/// Failures, signs of life and signs of tampering. Times are in seconds since
/// 1970; zero is never.
pub struct Resilience<T = String> {
    pub worker_panics_total: u64,
    pub worker_timeouts_total: u64,
    pub last_recovery_reason: Option<T>,
    pub watcher_last_heartbeat: u64,
    pub orchestrator_last_heartbeat: u64,
    pub watcher_restarts_total: u64,
    pub binary_integrity_drift: bool,
    pub config_drift: bool,
}

impl View for Resilience {
    type V = Resilience<Seq<char>>;

    open spec fn view(&self) -> Resilience<Seq<char>> {
        Resilience {
            worker_panics_total: self.worker_panics_total,
            worker_timeouts_total: self.worker_timeouts_total,
            last_recovery_reason: owned_view(self.last_recovery_reason),
            watcher_last_heartbeat: self.watcher_last_heartbeat,
            orchestrator_last_heartbeat: self.orchestrator_last_heartbeat,
            watcher_restarts_total: self.watcher_restarts_total,
            binary_integrity_drift: self.binary_integrity_drift,
            config_drift: self.config_drift,
        }
    }
}

/// One more panic of a worker.
pub open spec fn with_panic(r: Resilience<Seq<char>>, reason: Seq<char>) -> Resilience<Seq<char>> {
    Resilience {
        worker_panics_total: r.worker_panics_total.wrapping_add(1),
        last_recovery_reason: Some("worker panic: "@ + reason),
        ..r
    }
}

/// One more timeout of a worker.
pub open spec fn with_timeout(r: Resilience<Seq<char>>, reason: Seq<char>) -> Resilience<
    Seq<char>,
> {
    Resilience {
        worker_timeouts_total: r.worker_timeouts_total.wrapping_add(1),
        last_recovery_reason: Some("worker timeout: "@ + reason),
        ..r
    }
}

/// A failure of the helper, as the helper's own record shows it.
pub open spec fn worker_failed(w: ArgusWorker<Seq<char>>, error: Seq<char>) -> ArgusWorker<
    Seq<char>,
> {
    let counted = ArgusWorker {
        fallback_count: w.fallback_count.wrapping_add(1),
        last_error: Some(error),
        ..w
    };
    if occurs("timeout"@, error) {
        ArgusWorker {
            timeout_count: w.timeout_count.wrapping_add(1),
            last_timeout: Some(error),
            ..counted
        }
    } else {
        counted
    }
}

/// A failure of the helper, as the daemon's record shows it.
pub open spec fn failure_noted(r: Resilience<Seq<char>>, error: Seq<char>) -> Resilience<
    Seq<char>,
> {
    if occurs("timeout"@, error) {
        with_timeout(r, error)
    } else if occurs("panic"@, error) || occurs("crash"@, error) {
        with_panic(r, error)
    } else {
        r
    }
}

impl Resilience {
    pub fn new() -> (r: Self)
        ensures
            r@ == (Resilience {
                worker_panics_total: 0,
                worker_timeouts_total: 0,
                last_recovery_reason: None::<Seq<char>>,
                watcher_last_heartbeat: 0,
                orchestrator_last_heartbeat: 0,
                watcher_restarts_total: 0,
                binary_integrity_drift: false,
                config_drift: false,
            }),
    {
        Resilience {
            worker_panics_total: 0,
            worker_timeouts_total: 0,
            last_recovery_reason: None,
            watcher_last_heartbeat: 0,
            orchestrator_last_heartbeat: 0,
            watcher_restarts_total: 0,
            binary_integrity_drift: false,
            config_drift: false,
        }
    }

    pub fn record_worker_panic(&mut self, reason: &str)
        ensures
            final(self)@ == with_panic(old(self)@, reason@),
    {
        self.worker_panics_total = self.worker_panics_total.wrapping_add(1);
        let mut text = "worker panic: ".to_owned();
        text.append(reason);
        self.last_recovery_reason = Some(text);
    }

    pub fn record_worker_timeout(&mut self, reason: &str)
        ensures
            final(self)@ == with_timeout(old(self)@, reason@),
    {
        self.worker_timeouts_total = self.worker_timeouts_total.wrapping_add(1);
        let mut text = "worker timeout: ".to_owned();
        text.append(reason);
        self.last_recovery_reason = Some(text);
    }

    /// The watcher gave a sign of life.
    pub fn touch_watcher_heartbeat(&mut self, now: u64)
        ensures
            final(self)@ == (Resilience { watcher_last_heartbeat: now, ..old(self)@ }),
    {
        self.watcher_last_heartbeat = now;
    }

    /// The queue gave a sign of life.
    pub fn touch_orchestrator_heartbeat(&mut self, now: u64)
        ensures
            final(self)@ == (Resilience { orchestrator_last_heartbeat: now, ..old(self)@ }),
    {
        self.orchestrator_last_heartbeat = now;
    }

    /// The watcher was restarted. The restart counts as a sign of life, so that
    /// it is not restarted again while it warms up.
    pub fn watcher_restarted(&mut self, now: u64)
        ensures
            final(self)@ == (Resilience {
                watcher_restarts_total: old(self).watcher_restarts_total.wrapping_add(1),
                watcher_last_heartbeat: now,
                ..old(self)@
            }),
    {
        self.watcher_restarts_total = self.watcher_restarts_total.wrapping_add(1);
        self.touch_watcher_heartbeat(now);
    }

    pub fn set_binary_integrity_drift(&mut self, drifted: bool)
        ensures
            final(self)@ == (Resilience { binary_integrity_drift: drifted, ..old(self)@ }),
    {
        self.binary_integrity_drift = drifted;
    }

    pub fn set_config_drift(&mut self, drifted: bool)
        ensures
            final(self)@ == (Resilience { config_drift: drifted, ..old(self)@ }),
    {
        self.config_drift = drifted;
    }
}

impl ArgusWorker {
    /// A helper that has not failed yet.
    pub fn new(enabled: bool, path: String, timeout_secs: u64) -> (worker: Self)
        ensures
            worker@ == (ArgusWorker {
                enabled,
                path: path@,
                timeout_secs,
                fallback_count: 0,
                timeout_count: 0,
                last_error: None,
                last_timeout: None,
            }),
    {
        ArgusWorker {
            enabled,
            path,
            timeout_secs,
            fallback_count: 0,
            timeout_count: 0,
            last_error: None,
            last_timeout: None,
        }
    }

    /// The helper failed and the work falls back to this process.
    pub fn record_argus_worker_failure(&mut self, resilience: &mut Resilience, error: &str)
        ensures
            final(self)@ == worker_failed(old(self)@, error@),
            final(resilience)@ == failure_noted(old(resilience)@, error@),
    {
        self.fallback_count = self.fallback_count.wrapping_add(1);
        self.last_error = Some(error.to_owned());
        if contains(error, "timeout") {
            self.timeout_count = self.timeout_count.wrapping_add(1);
            self.last_timeout = Some(error.to_owned());
            resilience.record_worker_timeout(error);
        } else if contains(error, "panic") || contains(error, "crash") {
            resilience.record_worker_panic(error);
        }
    }
}

/// Why the heuristics run in the helper.
#[derive(Debug, Clone, Copy, PartialEq, Eq, Structural)]
pub enum ExternalReason {
    Config,
    AuditMode,
    MemoryPressure,
}

/// Why the heuristics run in the helper, if they do.
pub open spec fn argus_route(
    enabled: bool,
    audit_mode: bool,
    external_under_pressure: bool,
    pressed: bool,
) -> Option<ExternalReason> {
    if enabled {
        Some(ExternalReason::Config)
    } else if audit_mode {
        Some(ExternalReason::AuditMode)
    } else if external_under_pressure && pressed {
        Some(ExternalReason::MemoryPressure)
    } else {
        None
    }
}

pub fn route_argus(
    enabled: bool,
    audit_mode: bool,
    external_under_pressure: bool,
    pressed: bool,
) -> (reason: Option<ExternalReason>)
    ensures
        reason == argus_route(enabled, audit_mode, external_under_pressure, pressed),
{
    if enabled {
        Some(ExternalReason::Config)
    } else if audit_mode {
        Some(ExternalReason::AuditMode)
    } else if external_under_pressure && pressed {
        Some(ExternalReason::MemoryPressure)
    } else {
        None
    }
}

/// What to do when a helper has failed.
#[derive(Debug, Clone, Copy, PartialEq, Eq, Structural)]
pub enum AfterFailure {
    /// The job was cancelled: it ends with this error.
    GiveUp,
    /// Do the work in this process.
    FallBack,
}

/// What follows from an error of a helper.
pub open spec fn failure_verdict(error: Seq<char>) -> AfterFailure {
    if occurs("cancelled"@, error) {
        AfterFailure::GiveUp
    } else {
        AfterFailure::FallBack
    }
}

pub fn after_failure(error: &str) -> (next: AfterFailure)
    ensures
        next == failure_verdict(error@),
{
    if contains(error, "cancelled") {
        AfterFailure::GiveUp
    } else {
        AfterFailure::FallBack
    }
}

/// Whether the signature engine runs in a process of its own, and for how long
/// it may.
#[derive(Debug, Clone, Copy, PartialEq, Eq, Structural)]
pub struct ClamIsolation {
    pub enabled: bool,
    pub timeout_secs: u64,
}

/// At least ten seconds.
pub open spec fn at_least_ten(secs: u64) -> u64 {
    if secs < 10 {
        10
    } else {
        secs
    }
}

/// The time for the helper, if it is used.
pub open spec fn clamav_time(c: ClamIsolation, directories_known: bool) -> Option<u64> {
    if c.enabled && directories_known {
        Some(at_least_ten(c.timeout_secs))
    } else {
        None
    }
}

impl ClamIsolation {
    pub fn new() -> (isolation: Self)
        ensures
            isolation == (ClamIsolation { enabled: false, timeout_secs: 30 }),
    {
        ClamIsolation { enabled: false, timeout_secs: 30 }
    }

    /// Switch the isolation. A helper gets ten seconds at least.
    pub fn set_clamav_subprocess(&mut self, enabled: bool, timeout_sec: u64)
        ensures
            *final(self) == (ClamIsolation { enabled, timeout_secs: at_least_ten(timeout_sec) }),
    {
        self.enabled = enabled;
        self.timeout_secs = if timeout_sec < 10 {
            10
        } else {
            timeout_sec
        };
    }

    /// The time for the helper, if it is used: the isolation must be on and both
    /// directories known.
    pub fn route_clamav(&self, directories_known: bool) -> (secs: Option<u64>)
        ensures
            secs == clamav_time(*self, directories_known),
            secs == if self.enabled && directories_known {
                Some(at_least_ten(self.timeout_secs))
            } else {
                None
            },
    {
        if self.enabled && directories_known {
            Some(
                if self.timeout_secs < 10 {
                    10
                } else {
                    self.timeout_secs
                },
            )
        } else {
            None
        }
    }
}

/// Report on failures and signs of life.
pub struct ResilienceReport<T = String> {
    pub worker_panics: u64,
    pub worker_timeouts: u64,
    pub argus_fallbacks: u64,
    pub argus_timeouts: u64,
    pub last_recovery_reason: Option<T>,
    pub watcher_heartbeat_ts: u64,
    pub watcher_heartbeat_stale: bool,
    pub orchestrator_heartbeat_ts: u64,
    pub orchestrator_heartbeat_stale: bool,
    pub watcher_restarts_total: u64,
    pub binary_integrity_drift: bool,
    pub config_drift: bool,
}

impl View for ResilienceReport {
    type V = ResilienceReport<Seq<char>>;

    open spec fn view(&self) -> ResilienceReport<Seq<char>> {
        ResilienceReport {
            worker_panics: self.worker_panics,
            worker_timeouts: self.worker_timeouts,
            argus_fallbacks: self.argus_fallbacks,
            argus_timeouts: self.argus_timeouts,
            last_recovery_reason: owned_view(self.last_recovery_reason),
            watcher_heartbeat_ts: self.watcher_heartbeat_ts,
            watcher_heartbeat_stale: self.watcher_heartbeat_stale,
            orchestrator_heartbeat_ts: self.orchestrator_heartbeat_ts,
            orchestrator_heartbeat_stale: self.orchestrator_heartbeat_stale,
            watcher_restarts_total: self.watcher_restarts_total,
            binary_integrity_drift: self.binary_integrity_drift,
            config_drift: self.config_drift,
        }
    }
}

/// Whether a sign of life is older than `limit` seconds. Without one there is
/// nothing to be stale.
pub open spec fn stale(beat: u64, now: u64, limit: int) -> bool {
    beat > 0 && now - beat > limit
}

/// The report on failures and signs of life.
pub open spec fn reported_health(
    r: Resilience<Seq<char>>,
    w: ArgusWorker<Seq<char>>,
    now: u64,
) -> ResilienceReport<Seq<char>> {
    ResilienceReport {
        worker_panics: r.worker_panics_total,
        worker_timeouts: r.worker_timeouts_total,
        argus_fallbacks: w.fallback_count,
        argus_timeouts: w.timeout_count,
        last_recovery_reason: r.last_recovery_reason,
        watcher_heartbeat_ts: r.watcher_last_heartbeat,
        watcher_heartbeat_stale: stale(r.watcher_last_heartbeat, now, 120),
        orchestrator_heartbeat_ts: r.orchestrator_last_heartbeat,
        orchestrator_heartbeat_stale: stale(r.orchestrator_last_heartbeat, now, 300),
        watcher_restarts_total: r.watcher_restarts_total,
        binary_integrity_drift: r.binary_integrity_drift,
        config_drift: r.config_drift,
    }
}

impl Resilience {
    /// Report. The clock has not run backwards since the latest signs of life.
    pub fn resilience_diagnostics(&self, worker: &ArgusWorker, now: u64) -> (report:
        ResilienceReport)
        requires
            self.watcher_last_heartbeat <= now,
            self.orchestrator_last_heartbeat <= now,
        ensures
            report@ == reported_health(self@, worker@, now),
            report@ == (ResilienceReport {
                worker_panics: self.worker_panics_total,
                worker_timeouts: self.worker_timeouts_total,
                argus_fallbacks: worker.fallback_count,
                argus_timeouts: worker.timeout_count,
                last_recovery_reason: owned_view(self.last_recovery_reason),
                watcher_heartbeat_ts: self.watcher_last_heartbeat,
                watcher_heartbeat_stale: stale(self.watcher_last_heartbeat, now, 120),
                orchestrator_heartbeat_ts: self.orchestrator_last_heartbeat,
                orchestrator_heartbeat_stale: stale(self.orchestrator_last_heartbeat, now, 300),
                watcher_restarts_total: self.watcher_restarts_total,
                binary_integrity_drift: self.binary_integrity_drift,
                config_drift: self.config_drift,
            }),
    {
        let watcher: u64 = self.watcher_last_heartbeat;
        let queue: u64 = self.orchestrator_last_heartbeat;
        let last_recovery_reason = match &self.last_recovery_reason {
            Some(text) => Some(text.clone()),
            None => None,
        };
        ResilienceReport {
            worker_panics: self.worker_panics_total,
            worker_timeouts: self.worker_timeouts_total,
            argus_fallbacks: worker.fallback_count,
            argus_timeouts: worker.timeout_count,
            last_recovery_reason,
            watcher_heartbeat_ts: watcher,
            watcher_heartbeat_stale: watcher > 0 && now - watcher > 120,
            orchestrator_heartbeat_ts: queue,
            orchestrator_heartbeat_stale: queue > 0 && now - queue > 300,
            watcher_restarts_total: self.watcher_restarts_total,
            binary_integrity_drift: self.binary_integrity_drift,
            config_drift: self.config_drift,
        }
    }
}

/// Whether the queue has worked without trouble, and long enough to rely on it
/// further.
#[derive(Debug, Clone, Copy, PartialEq, Eq, Structural)]
pub struct HealthGate {
    pub healthy: bool,
    pub ready_for_next_pilot: bool,
    pub crashes: u64,
    pub timeouts: u64,
    pub fallbacks: u64,
    pub failed: u64,
    pub completed_file_scans: u64,
}

/// How many of the workers have a job.
pub open spec fn busy(active_jobs: Seq<u64>) -> nat
    decreases active_jobs.len(),
{
    if active_jobs.len() == 0 {
        0
    } else if active_jobs.last() > 0 {
        busy(active_jobs.drop_last()) + 1
    } else {
        busy(active_jobs.drop_last())
    }
}

/// Count the workers that have a job, of no more workers than a `u32` can count.
pub fn orchestrator_active_workers(active_jobs: &Vec<u64>) -> (count: u32)
    requires
        active_jobs@.len() <= u32::MAX,
    ensures
        count == busy(active_jobs@),
{
    let mut count: u32 = 0;
    let mut i: usize = 0;
    while i < active_jobs.len()
        invariant
            i <= active_jobs@.len() <= u32::MAX,
            count == busy(active_jobs@.take(i as int)),
            count <= i,
        decreases active_jobs@.len() - i,
    {
        assert(active_jobs@.take(i + 1).drop_last() =~= active_jobs@.take(i as int));
        if active_jobs[i] > 0 {
            count = count + 1;
        }
        i = i + 1;
    }
    assert(active_jobs@.take(active_jobs@.len() as int) =~= active_jobs@);
    count
}

/// The sum of some counts.
pub open spec fn sum(counts: Seq<u64>) -> nat
    decreases counts.len(),
{
    if counts.len() == 0 {
        0
    } else {
        sum(counts.drop_last()) + counts.last() as nat
    }
}

proof fn lemma_sum_grows(counts: Seq<u64>, i: int)
    requires
        0 <= i <= counts.len(),
    ensures
        sum(counts.take(i)) <= sum(counts),
    decreases counts.len() - i,
{
    if i < counts.len() {
        lemma_sum_grows(counts, i + 1);
        assert(counts.take(i + 1).drop_last() =~= counts.take(i));
    } else {
        assert(counts.take(i) =~= counts);
    }
}

/// Add up counts whose sum fits in 64 bits.
pub fn add_up(counts: &Vec<u64>) -> (total: u64)
    requires
        sum(counts@) <= u64::MAX,
    ensures
        total == sum(counts@),
{
    let mut total: u64 = 0;
    let mut i: usize = 0;
    assert(counts@.take(0) =~= Seq::<u64>::empty());
    while i < counts.len()
        invariant
            i <= counts@.len(),
            sum(counts@) <= u64::MAX,
            total == sum(counts@.take(i as int)),
        decreases counts@.len() - i,
    {
        assert(counts@.take(i + 1).drop_last() =~= counts@.take(i as int));
        proof {
            lemma_sum_grows(counts@, i + 1);
        }
        total = total + counts[i];
        i = i + 1;
    }
    assert(counts@.take(counts@.len() as int) =~= counts@);
    total
}

/// Whether the queue has worked without trouble.
pub open spec fn untroubled_queue(crashes: nat, timeouts: u64, fallbacks: u64, failed: u64) -> bool {
    crashes == 0 && timeouts == 0 && failed == 0 && fallbacks <= 2
}

/// Whether the queue can be relied on further.
pub open spec fn reliable_queue(
    crashes: nat,
    timeouts: u64,
    fallbacks: u64,
    failed: u64,
    completed: u64,
) -> bool {
    untroubled_queue(crashes, timeouts, fallbacks, failed) && completed >= 3
}

/// Judge the queue.
pub fn health_gate(worker_crashes: &Vec<u64>, worker: &ArgusWorker, jobs: &JobCounters) -> (gate:
    HealthGate)
    requires
        sum(worker_crashes@) <= u64::MAX,
    ensures
        gate.crashes == sum(worker_crashes@),
        gate.healthy == untroubled_queue(
            sum(worker_crashes@),
            worker.timeout_count,
            worker.fallback_count,
            jobs.failed,
        ),
        gate.ready_for_next_pilot == reliable_queue(
            sum(worker_crashes@),
            worker.timeout_count,
            worker.fallback_count,
            jobs.failed,
            jobs.completed_file,
        ),
        gate.timeouts == worker.timeout_count,
        gate.fallbacks == worker.fallback_count,
        gate.failed == jobs.failed,
        gate.completed_file_scans == jobs.completed_file,
        gate.healthy == (sum(worker_crashes@) == 0 && worker.timeout_count == 0 && jobs.failed == 0
            && worker.fallback_count <= 2),
        gate.ready_for_next_pilot == (gate.healthy && jobs.completed_file >= 3),
{
    let crashes: u64 = add_up(worker_crashes);
    let healthy = crashes == 0 && worker.timeout_count == 0 && jobs.failed == 0
        && worker.fallback_count <= 2;
    HealthGate {
        healthy,
        ready_for_next_pilot: healthy && jobs.completed_file >= 3,
        crashes,
        timeouts: worker.timeout_count,
        fallbacks: worker.fallback_count,
        failed: jobs.failed,
        completed_file_scans: jobs.completed_file,
    }
}

/// A cancelled job is never done over in this process.
pub proof fn cancelled_job_is_not_repeated(error: Seq<char>)
    requires
        occurs("cancelled"@, error),
    ensures
        failure_verdict(error) is GiveUp,
{
}

/// A switched-on helper is used whatever the memory pressure, and without
/// pressure, audit mode or the switch the work stays in this process.
pub proof fn external_work_has_a_reason(
    enabled: bool,
    audit_mode: bool,
    external_under_pressure: bool,
    pressed: bool,
)
    ensures
        argus_route(enabled, audit_mode, external_under_pressure, pressed) is None <==> !enabled
            && !audit_mode && !(external_under_pressure && pressed),
{
}

/// A helper of the signature engine runs where isolation is on and both directories
/// are known, and always has ten seconds at least.
pub proof fn isolated_engine_has_its_time(c: ClamIsolation, directories_known: bool)
    ensures
        clamav_time(c, directories_known) is Some <==> c.enabled && directories_known,
        clamav_time(c, directories_known) matches Some(secs) ==> secs >= 10 && secs
            >= c.timeout_secs && (c.timeout_secs >= 10 ==> secs == c.timeout_secs),
        at_least_ten(c.timeout_secs) == if c.timeout_secs < 10 {
            10u64
        } else {
            c.timeout_secs
        },
{
}

/// Trouble of a worker is counted once, in its own count, and told; nothing else
/// changes with it.
pub proof fn trouble_is_counted_once(r: Resilience<Seq<char>>, reason: Seq<char>)
    requires
        r.worker_panics_total < u64::MAX,
        r.worker_timeouts_total < u64::MAX,
    ensures
        with_panic(r, reason) == (Resilience {
            worker_panics_total: (r.worker_panics_total + 1) as u64,
            last_recovery_reason: Some("worker panic: "@ + reason),
            ..r
        }),
        with_timeout(r, reason) == (Resilience {
            worker_timeouts_total: (r.worker_timeouts_total + 1) as u64,
            last_recovery_reason: Some("worker timeout: "@ + reason),
            ..r
        }),
{
}

/// A failure of the helper always counts as a fallback, and as a timeout or a panic
/// where its error says so; a timeout is no panic.
pub proof fn helper_failures_are_told_apart(
    w: ArgusWorker<Seq<char>>,
    r: Resilience<Seq<char>>,
    error: Seq<char>,
)
    requires
        w.fallback_count < u64::MAX,
        w.timeout_count < u64::MAX,
        r.worker_panics_total < u64::MAX,
        r.worker_timeouts_total < u64::MAX,
    ensures
        ({
            let late = occurs("timeout"@, error);
            let fell = occurs("panic"@, error) || occurs("crash"@, error);
            let worker = worker_failed(w, error);
            let noted = failure_noted(r, error);
            &&& worker.fallback_count == w.fallback_count + 1
            &&& worker.last_error == Some(error)
            &&& late ==> worker.timeout_count == w.timeout_count + 1 && worker.last_timeout == Some(
                error,
            )
            &&& !late ==> worker.timeout_count == w.timeout_count && worker.last_timeout
                == w.last_timeout
            &&& worker.enabled == w.enabled && worker.path == w.path && worker.timeout_secs
                == w.timeout_secs
            &&& late ==> noted.worker_timeouts_total == r.worker_timeouts_total + 1
                && noted.worker_panics_total == r.worker_panics_total
            &&& !late && fell ==> noted.worker_panics_total == r.worker_panics_total + 1
                && noted.worker_timeouts_total == r.worker_timeouts_total
            &&& !late && !fell ==> noted == r
        }),
{
}

/// Work goes on in this process after every failure but that of a cancelled job.
pub proof fn other_failures_fall_back(error: Seq<char>)
    ensures
        failure_verdict(error) is FallBack <==> !occurs("cancelled"@, error),
{
}

/// The helper is used for the first reason that holds: it is switched on, audit mode
/// is, or memory is pressed and that sends the work outside.
pub proof fn helper_is_used_for_the_first_reason(
    enabled: bool,
    audit_mode: bool,
    external_under_pressure: bool,
    pressed: bool,
)
    ensures
        ({
            let reason = argus_route(enabled, audit_mode, external_under_pressure, pressed);
            &&& reason == Some(ExternalReason::Config) <==> enabled
            &&& reason == Some(ExternalReason::AuditMode) <==> !enabled && audit_mode
            &&& reason == Some(ExternalReason::MemoryPressure) <==> !enabled && !audit_mode
                && external_under_pressure && pressed
        }),
{
}

/// The report tells every count as it is; the watcher is stale after two minutes of
/// silence and the queue after five, and neither before its first sign of life.
pub proof fn health_report_tells_the_counts(
    r: Resilience<Seq<char>>,
    w: ArgusWorker<Seq<char>>,
    now: u64,
)
    ensures
        ({
            let report = reported_health(r, w, now);
            &&& report.worker_panics == r.worker_panics_total
            &&& report.worker_timeouts == r.worker_timeouts_total
            &&& report.argus_fallbacks == w.fallback_count
            &&& report.argus_timeouts == w.timeout_count
            &&& report.last_recovery_reason == r.last_recovery_reason
            &&& report.watcher_heartbeat_ts == r.watcher_last_heartbeat
            &&& report.orchestrator_heartbeat_ts == r.orchestrator_last_heartbeat
            &&& report.watcher_heartbeat_stale <==> r.watcher_last_heartbeat > 0 && now
                > r.watcher_last_heartbeat + 120
            &&& report.orchestrator_heartbeat_stale <==> r.orchestrator_last_heartbeat > 0 && now
                > r.orchestrator_last_heartbeat + 300
            &&& report.watcher_restarts_total == r.watcher_restarts_total
            &&& report.binary_integrity_drift == r.binary_integrity_drift
            &&& report.config_drift == r.config_drift
        }),
{
}

/// The queue is healthy without a crash, a timeout or a failure and with two
/// fallbacks at most, and ready for more after three completed files.
pub proof fn queue_health_has_its_limits(
    crashes: nat,
    timeouts: u64,
    fallbacks: u64,
    failed: u64,
    completed: u64,
)
    ensures
        crashes > 0 || timeouts > 0 || failed > 0 || fallbacks > 2 ==> !untroubled_queue(
            crashes,
            timeouts,
            fallbacks,
            failed,
        ),
        crashes == 0 && timeouts == 0 && failed == 0 && fallbacks < 3 ==> untroubled_queue(
            crashes,
            timeouts,
            fallbacks,
            failed,
        ),
        reliable_queue(crashes, timeouts, fallbacks, failed, completed) <==> untroubled_queue(
            crashes,
            timeouts,
            fallbacks,
            failed,
        ) && completed > 2,
{
}

proof fn lemma_busy_add(a: Seq<u64>, b: Seq<u64>)
    ensures
        busy(a + b) == busy(a) + busy(b),
        sum(a + b) == sum(a) + sum(b),
    decreases b.len(),
{
    if b.len() == 0 {
        assert(a + b =~= a);
    } else {
        assert((a + b).drop_last() =~= a + b.drop_last());
        lemma_busy_add(a, b.drop_last());
    }
}

/// Counts of two lists add up; a worker is busy where it has a job, and counts with
/// its own number in a sum.
pub proof fn workers_add_up(a: Seq<u64>, b: Seq<u64>, jobs: u64)
    ensures
        busy(a + b) == busy(a) + busy(b),
        sum(a + b) == sum(a) + sum(b),
        jobs > 0 ==> busy(seq![jobs]) == 1,
        jobs == 0 ==> busy(seq![jobs]) == 0,
        sum(seq![jobs]) == jobs,
        busy(Seq::empty()) == 0,
        sum(Seq::empty()) == 0,
{
    lemma_busy_add(a, b);
    assert(seq![jobs].drop_last() =~= Seq::<u64>::empty());
    assert(busy(seq![jobs].drop_last()) == 0);
    assert(sum(seq![jobs].drop_last()) == 0);
}

} // verus!
