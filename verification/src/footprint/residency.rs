//! When the working set is trimmed.
//!
//! Protection comes first: memory is given back only after a quiet time, never
//! while a scan runs, and not again before a cooldown has passed.

use vstd::prelude::*;

verus! {

/// One scan that runs. It is handed back to the tracker when the scan ends.
pub struct ScanGuard {
    held: bool,
}

impl ScanGuard {
    /// Count a scan that begins.
    pub fn new(tracker: &mut ActivityTracker) -> (guard: Self)
        ensures
            *final(tracker) == (ActivityTracker {
                active_scan_count: old(tracker).active_scan_count.wrapping_add(1),
                ..*old(tracker)
            }),
    {
        tracker.inc_active_scans();
        ScanGuard { held: true }
    }

    /// The scan has ended.
    pub fn release(self, tracker: &mut ActivityTracker)
        ensures
            *final(tracker) == (ActivityTracker {
                active_scan_count: old(tracker).active_scan_count.wrapping_sub(1),
                ..*old(tracker)
            }),
    {
        tracker.dec_active_scans();
    }
}

/// Settings on trimming.
#[derive(Debug, Clone, Copy, PartialEq, Eq, Structural)]
pub struct ResidencyConfig {
    pub enabled: bool,
    /// Minutes of quiet before a trim.
    pub quiet_minutes: u64,
    /// Working set from which a trim is worth it, in MB.
    pub threshold_mb: u64,
    /// Minutes between two trims.
    pub cooldown_minutes: u64,
}

/// The settings unless others are made.
pub open spec fn usual_residency() -> ResidencyConfig {
    ResidencyConfig { enabled: true, quiet_minutes: 5, threshold_mb: 350, cooldown_minutes: 10 }
}

impl Default for ResidencyConfig {
    fn default() -> (config: Self)
        ensures
            config == usual_residency(),
    {
        ResidencyConfig { enabled: true, quiet_minutes: 5, threshold_mb: 350, cooldown_minutes: 10 }
    }
}

impl ResidencyConfig {
    /// The times in seconds fit in 64 bits.
    pub open spec fn wf(&self) -> bool {
        self.quiet_minutes * 60 <= u64::MAX && self.cooldown_minutes * 60 <= u64::MAX
    }
}

/// When each part of the daemon was last active, in seconds since 1970; zero is
/// never.
#[derive(Debug, Clone, Copy, PartialEq, Eq, Structural)]
pub struct ActivityTracker {
    pub last_realtime_scan: u64,
    pub last_manual_scan: u64,
    pub last_idle_scan: u64,
    pub last_reload: u64,
    pub last_update: u64,
    /// Scans that run now.
    pub active_scan_count: u64,
    /// Files that were scanned because they changed.
    pub realtime_scan_count: u64,
}

/// The larger of two times.
pub open spec fn max_of(a: u64, b: u64) -> u64 {
    if a >= b {
        a
    } else {
        b
    }
}

fn larger(a: u64, b: u64) -> (m: u64)
    ensures
        m == max_of(a, b),
{
    if a >= b {
        a
    } else {
        b
    }
}

/// When anything was last active.
pub open spec fn last_activity(t: ActivityTracker) -> u64 {
    max_of(
        t.last_realtime_scan,
        max_of(
            t.last_manual_scan,
            max_of(t.last_idle_scan, max_of(t.last_reload, t.last_update)),
        ),
    )
}

/// Time that has passed since `since`, none where that lies ahead.
pub open spec fn elapsed(now: u64, since: u64) -> u64 {
    if now >= since {
        (now - since) as u64
    } else {
        0
    }
}

/// Whether no scan runs and the latest activity is at least `quiet_secs` seconds
/// ago.
pub open spec fn quiet(t: ActivityTracker, quiet_secs: u64, now: u64) -> bool {
    t.active_scan_count == 0 && last_activity(t) + quiet_secs <= now
}

impl ActivityTracker {
    /// A tracker that counts the start itself as activity.
    pub fn new(now: u64) -> (tracker: Self)
        ensures
            tracker == (ActivityTracker {
                last_realtime_scan: now,
                last_manual_scan: 0,
                last_idle_scan: 0,
                last_reload: now,
                last_update: 0,
                active_scan_count: 0,
                realtime_scan_count: 0,
            }),
    {
        ActivityTracker {
            last_realtime_scan: now,
            last_manual_scan: 0,
            last_idle_scan: 0,
            last_reload: now,
            last_update: 0,
            active_scan_count: 0,
            realtime_scan_count: 0,
        }
    }

    pub fn record_realtime_scan(&mut self, now: u64)
        ensures
            *final(self) == (ActivityTracker {
                last_realtime_scan: now,
                realtime_scan_count: old(self).realtime_scan_count.wrapping_add(1),
                ..*old(self)
            }),
    {
        self.last_realtime_scan = now;
        self.realtime_scan_count = self.realtime_scan_count.wrapping_add(1);
    }

    pub fn record_manual_scan(&mut self, now: u64)
        ensures
            *final(self) == (ActivityTracker { last_manual_scan: now, ..*old(self) }),
    {
        self.last_manual_scan = now;
    }

    pub fn record_idle_scan(&mut self, now: u64)
        ensures
            *final(self) == (ActivityTracker { last_idle_scan: now, ..*old(self) }),
    {
        self.last_idle_scan = now;
    }

    pub fn record_reload(&mut self, now: u64)
        ensures
            *final(self) == (ActivityTracker { last_reload: now, ..*old(self) }),
    {
        self.last_reload = now;
    }

    pub fn record_update(&mut self, now: u64)
        ensures
            *final(self) == (ActivityTracker { last_update: now, ..*old(self) }),
    {
        self.last_update = now;
    }

    pub fn inc_active_scans(&mut self)
        ensures
            *final(self) == (ActivityTracker {
                active_scan_count: old(self).active_scan_count.wrapping_add(1),
                ..*old(self)
            }),
    {
        self.active_scan_count = self.active_scan_count.wrapping_add(1);
    }

    pub fn dec_active_scans(&mut self)
        ensures
            *final(self) == (ActivityTracker {
                active_scan_count: old(self).active_scan_count.wrapping_sub(1),
                ..*old(self)
            }),
    {
        self.active_scan_count = self.active_scan_count.wrapping_sub(1);
    }

    /// Whether the daemon has been quiet for at least `quiet_secs` seconds.
    pub fn is_quiet(&self, quiet_secs: u64, now: u64) -> (yes: bool)
        ensures
            yes == quiet(*self, quiet_secs, now),
    {
        if self.active_scan_count > 0 || quiet_secs > now {
            return false;
        }
        let cutoff: u64 = now - quiet_secs;
        self.last_realtime_scan <= cutoff && self.last_manual_scan <= cutoff && self.last_idle_scan
            <= cutoff && self.last_reload <= cutoff && self.last_update <= cutoff
    }

    /// Seconds since anything was active.
    pub fn quiet_for_secs(&self, now: u64) -> (secs: u64)
        ensures
            secs == elapsed(now, last_activity(*self)),
    {
        let latest = larger(
            self.last_realtime_scan,
            larger(
                self.last_manual_scan,
                larger(self.last_idle_scan, larger(self.last_reload, self.last_update)),
            ),
        );
        now.saturating_sub(latest)
    }
}

/// What a report says of residency.
#[derive(Debug, Clone, Copy, PartialEq, Eq, Structural)]
pub enum ResidencyMode {
    ActiveScan,
    TrimmedStandby,
    QuietIdle,
    EngineWarm,
}

/// The word for a mode.
pub open spec fn mode_text(mode: ResidencyMode) -> Seq<char> {
    match mode {
        ResidencyMode::ActiveScan => "active_scan"@,
        ResidencyMode::TrimmedStandby => "trimmed_standby"@,
        ResidencyMode::QuietIdle => "quiet_idle"@,
        ResidencyMode::EngineWarm => "engine_warm"@,
    }
}

impl ResidencyMode {
    pub fn as_str(self) -> (word: &'static str)
        ensures
            word@ == mode_text(self),
    {
        match self {
            ResidencyMode::ActiveScan => "active_scan",
            ResidencyMode::TrimmedStandby => "trimmed_standby",
            ResidencyMode::QuietIdle => "quiet_idle",
            ResidencyMode::EngineWarm => "engine_warm",
        }
    }
}

/// Report on residency.
#[derive(Debug, Clone, Copy, PartialEq, Eq, Structural)]
pub struct ResidencyReport {
    pub enabled: bool,
    pub working_set_mb: u64,
    pub private_bytes_mb: u64,
    pub quiet: bool,
    pub quiet_for_secs: u64,
    pub retrim_threshold_mb: u64,
    pub last_trim_at: u64,
    pub trim_count: u64,
    pub last_trim_reduction_mb: u64,
    pub active_scan_count: u64,
    pub realtime_scan_count: u64,
    pub last_realtime_scan_at: u64,
    pub cooldown_minutes: u64,
    pub mode: ResidencyMode,
}

/// The word for the strategy in force.
pub open spec fn strategy_text(enabled: bool) -> Seq<char> {
    if enabled {
        "quiet_retrim"@
    } else {
        "none"@
    }
}

impl ResidencyReport {
    pub fn strategy(&self) -> (word: &'static str)
        ensures
            word@ == strategy_text(self.enabled),
    {
        if self.enabled {
            "quiet_retrim"
        } else {
            "none"
        }
    }
}

/// The mode that holds.
pub open spec fn mode_of(t: ActivityTracker, working_set_mb: u64, now: u64) -> ResidencyMode {
    if t.active_scan_count > 0 {
        ResidencyMode::ActiveScan
    } else if working_set_mb < 100 {
        ResidencyMode::TrimmedStandby
    } else if quiet(t, 60, now) {
        ResidencyMode::QuietIdle
    } else {
        ResidencyMode::EngineWarm
    }
}

/// Trims and when they happened.
#[derive(Debug, Clone, Copy, PartialEq, Eq, Structural)]
pub struct ResidencyManager {
    pub config: ResidencyConfig,
    /// Time of the latest trim in seconds since 1970; zero is never.
    pub last_trim: u64,
    pub trim_count: u64,
    pub last_reduction_mb: u64,
}

/// Whether a trim is due.
pub open spec fn trim_due(
    m: ResidencyManager,
    activity: ActivityTracker,
    working_set_mb: u64,
    now: u64,
) -> bool {
    &&& m.config.enabled
    &&& quiet(activity, (m.config.quiet_minutes * 60) as u64, now)
    &&& m.last_trim == 0 || elapsed(now, m.last_trim) >= m.config.cooldown_minutes * 60
    &&& working_set_mb >= m.config.threshold_mb
}

/// The report on residency.
pub open spec fn residency_report(
    m: ResidencyManager,
    activity: ActivityTracker,
    working_set_mb: u64,
    private_bytes_mb: u64,
    now: u64,
) -> ResidencyReport {
    ResidencyReport {
        enabled: m.config.enabled,
        working_set_mb,
        private_bytes_mb,
        quiet: quiet(activity, (m.config.quiet_minutes * 60) as u64, now),
        quiet_for_secs: elapsed(now, last_activity(activity)),
        retrim_threshold_mb: m.config.threshold_mb,
        last_trim_at: m.last_trim,
        trim_count: m.trim_count,
        last_trim_reduction_mb: m.last_reduction_mb,
        active_scan_count: activity.active_scan_count,
        realtime_scan_count: activity.realtime_scan_count,
        last_realtime_scan_at: activity.last_realtime_scan,
        cooldown_minutes: m.config.cooldown_minutes,
        mode: mode_of(activity, working_set_mb, now),
    }
}

/// The trims after a decision on one.
pub open spec fn decided(m: ResidencyManager, trim: bool, now: u64) -> ResidencyManager {
    if trim {
        ResidencyManager { last_trim: now, trim_count: m.trim_count.wrapping_add(1), ..m }
    } else {
        m
    }
}

impl ResidencyManager {
    pub fn new(config: ResidencyConfig) -> (manager: Self)
        ensures
            manager == (ResidencyManager {
                config,
                last_trim: 0,
                trim_count: 0,
                last_reduction_mb: 0,
            }),
    {
        ResidencyManager { config, last_trim: 0, trim_count: 0, last_reduction_mb: 0 }
    }

    /// Decide whether to trim now, and count the trim if so. The caller trims and
    /// then calls `record_reduction`.
    pub fn check_and_trim(
        &mut self,
        activity: &ActivityTracker,
        working_set_mb: u64,
        now: u64,
    ) -> (trim: bool)
        requires
            old(self).config.wf(),
        ensures
            trim == trim_due(*old(self), *activity, working_set_mb, now),
            *final(self) == decided(*old(self), trim, now),
            trim ==> *final(self) == (ResidencyManager {
                last_trim: now,
                trim_count: old(self).trim_count.wrapping_add(1),
                ..*old(self)
            }),
            !trim ==> *final(self) == *old(self),
    {
        if !self.config.enabled {
            return false;
        }
        let quiet_secs: u64 = self.config.quiet_minutes * 60;
        if !activity.is_quiet(quiet_secs, now) {
            return false;
        }
        let cooldown_secs: u64 = self.config.cooldown_minutes * 60;
        if self.last_trim > 0 && now.saturating_sub(self.last_trim) < cooldown_secs {
            return false;
        }
        if working_set_mb < self.config.threshold_mb {
            return false;
        }
        self.last_trim = now;
        self.trim_count = self.trim_count.wrapping_add(1);
        true
    }

    /// Note what a trim gave back.
    pub fn record_reduction(&mut self, before_mb: u64, after_mb: u64)
        ensures
            *final(self) == (ResidencyManager {
                last_reduction_mb: elapsed(before_mb, after_mb),
                ..*old(self)
            }),
    {
        self.last_reduction_mb = before_mb.saturating_sub(after_mb);
    }

    /// Report on residency.
    pub fn diagnostics(
        &self,
        activity: &ActivityTracker,
        working_set_mb: u64,
        private_bytes_mb: u64,
        now: u64,
    ) -> (report: ResidencyReport)
        requires
            self.config.wf(),
        ensures
            report == residency_report(*self, *activity, working_set_mb, private_bytes_mb, now),
    {
        let mode = if activity.active_scan_count > 0 {
            ResidencyMode::ActiveScan
        } else if working_set_mb < 100 {
            ResidencyMode::TrimmedStandby
        } else if activity.is_quiet(60, now) {
            ResidencyMode::QuietIdle
        } else {
            ResidencyMode::EngineWarm
        };
        ResidencyReport {
            enabled: self.config.enabled,
            working_set_mb,
            private_bytes_mb,
            quiet: activity.is_quiet(self.config.quiet_minutes * 60, now),
            quiet_for_secs: activity.quiet_for_secs(now),
            retrim_threshold_mb: self.config.threshold_mb,
            last_trim_at: self.last_trim,
            trim_count: self.trim_count,
            last_trim_reduction_mb: self.last_reduction_mb,
            active_scan_count: activity.active_scan_count,
            realtime_scan_count: activity.realtime_scan_count,
            last_realtime_scan_at: activity.last_realtime_scan,
            cooldown_minutes: self.config.cooldown_minutes,
            mode,
        }
    }
}

/// While a scan runs the daemon is not quiet and nothing is trimmed.
pub proof fn active_scan_blocks_trim(
    m: ResidencyManager,
    activity: ActivityTracker,
    quiet_secs: u64,
    working_set_mb: u64,
    now: u64,
)
    requires
        activity.active_scan_count > 0,
    ensures
        !quiet(activity, quiet_secs, now),
        !trim_due(m, activity, working_set_mb, now),
{
}

/// Activity within the quiet time blocks a trim, whichever part was active: a
/// scan, a reload or an update.
pub proof fn recent_activity_blocks_trim(
    m: ResidencyManager,
    activity: ActivityTracker,
    working_set_mb: u64,
    now: u64,
)
    requires
        m.config.wf(),
        last_activity(activity) + m.config.quiet_minutes * 60 > now,
    ensures
        !trim_due(m, activity, working_set_mb, now),
{
}

/// After a trim none follows before the cooldown is over.
pub proof fn cooldown_blocks_trim(
    m: ResidencyManager,
    activity: ActivityTracker,
    working_set_mb: u64,
    now: u64,
)
    requires
        m.last_trim > 0,
        m.config.cooldown_minutes > 0,
        now < m.last_trim + m.config.cooldown_minutes * 60,
    ensures
        !trim_due(m, activity, working_set_mb, now),
{
}

/// Counting a scan that begins and one that ends leaves the count as it was.
pub proof fn guard_returns_what_it_took(count: u64)
    ensures
        count.wrapping_add(1).wrapping_sub(1) == count,
{
}

/// Without a scan that runs, the daemon is quiet for exactly the times that are no
/// longer than the one since its latest activity.
pub proof fn quiet_is_time_since_activity(activity: ActivityTracker, quiet_secs: u64, now: u64)
    requires
        activity.active_scan_count == 0,
        last_activity(activity) <= now,
    ensures
        quiet(activity, quiet_secs, now) <==> quiet_secs <= elapsed(now, last_activity(activity)),
{
}

/// A daemon that stays quiet for a time was quiet for every shorter one.
pub proof fn quiet_for_long_is_quiet_for_short(
    activity: ActivityTracker,
    long: u64,
    short: u64,
    now: u64,
)
    requires
        short <= long,
        quiet(activity, long, now),
    ensures
        quiet(activity, short, now),
{
}

/// A trim is due where trimming is on, the daemon was quiet long enough, the cooldown
/// is over and the working set is worth it; nothing else holds it back.
pub proof fn quiet_daemon_is_trimmed(
    m: ResidencyManager,
    activity: ActivityTracker,
    working_set_mb: u64,
    now: u64,
)
    requires
        m.config.wf(),
    ensures
        trim_due(m, activity, working_set_mb, now) <==> m.config.enabled
            && activity.active_scan_count == 0 && activity.last_realtime_scan + 60
            * m.config.quiet_minutes <= now && activity.last_manual_scan + 60
            * m.config.quiet_minutes <= now && activity.last_idle_scan + 60
            * m.config.quiet_minutes <= now && activity.last_reload + 60 * m.config.quiet_minutes
            <= now && activity.last_update + 60 * m.config.quiet_minutes <= now && (m.last_trim
            == 0 || m.last_trim + 60 * m.config.cooldown_minutes <= now || (now < m.last_trim
            && m.config.cooldown_minutes == 0)) && working_set_mb >= m.config.threshold_mb,
{
}

/// A trim is dated and counted; a decision against one changes nothing.
pub proof fn trims_are_counted(m: ResidencyManager, trim: bool, now: u64)
    requires
        m.trim_count < u64::MAX,
    ensures
        trim ==> decided(m, trim, now).last_trim == now && decided(m, trim, now).trim_count
            == m.trim_count + 1 && decided(m, trim, now).config == m.config && decided(
            m,
            trim,
            now,
        ).last_reduction_mb == m.last_reduction_mb,
        !trim ==> decided(m, trim, now) == m,
{
}

/// The latest activity is that of one of the parts, and none was later.
pub proof fn latest_activity_is_the_latest(t: ActivityTracker)
    ensures
        last_activity(t) >= t.last_realtime_scan,
        last_activity(t) >= t.last_manual_scan,
        last_activity(t) >= t.last_idle_scan,
        last_activity(t) >= t.last_reload,
        last_activity(t) >= t.last_update,
        last_activity(t) == t.last_realtime_scan || last_activity(t) == t.last_manual_scan
            || last_activity(t) == t.last_idle_scan || last_activity(t) == t.last_reload
            || last_activity(t) == t.last_update,
{
}

/// Time passes forward only.
pub proof fn time_does_not_run_backwards(now: u64, since: u64)
    ensures
        now >= since ==> since + elapsed(now, since) == now,
        now < since ==> elapsed(now, since) == 0,
{
}

/// The mode tells a scan that runs before all, a trimmed daemon below a hundred
/// megabytes, and quiet after a minute.
pub proof fn mode_tells_the_daemon(t: ActivityTracker, working_set_mb: u64, now: u64)
    ensures
        mode_of(t, working_set_mb, now) is ActiveScan <==> t.active_scan_count > 0,
        mode_of(t, working_set_mb, now) is TrimmedStandby <==> t.active_scan_count == 0
            && working_set_mb < 100,
        mode_of(t, working_set_mb, now) is QuietIdle <==> t.active_scan_count == 0
            && working_set_mb >= 100 && last_activity(t) + 60 <= now,
        mode_of(t, working_set_mb, now) is EngineWarm <==> t.active_scan_count == 0
            && working_set_mb >= 100 && last_activity(t) + 60 > now,
{
}

/// The report tells each number as it is.
pub proof fn residency_report_tells_the_numbers(
    m: ResidencyManager,
    t: ActivityTracker,
    working_set_mb: u64,
    private_bytes_mb: u64,
    now: u64,
)
    requires
        m.config.wf(),
    ensures
        ({
            let r = residency_report(m, t, working_set_mb, private_bytes_mb, now);
            &&& r.enabled == m.config.enabled
            &&& r.working_set_mb == working_set_mb && r.private_bytes_mb == private_bytes_mb
            &&& r.quiet <==> t.active_scan_count == 0 && last_activity(t) + 60
                * m.config.quiet_minutes <= now
            &&& last_activity(t) <= now ==> r.quiet_for_secs == now - last_activity(t)
            &&& r.retrim_threshold_mb == m.config.threshold_mb
            &&& r.last_trim_at == m.last_trim && r.trim_count == m.trim_count
            &&& r.last_trim_reduction_mb == m.last_reduction_mb
            &&& r.active_scan_count == t.active_scan_count
            &&& r.realtime_scan_count == t.realtime_scan_count
            &&& r.last_realtime_scan_at == t.last_realtime_scan
            &&& r.cooldown_minutes == m.config.cooldown_minutes
            &&& r.mode == mode_of(t, working_set_mb, now)
        }),
{
}

/// Unless others are made the settings are these: trimming is on, after five quiet
/// minutes, from 350 megabytes on and every ten minutes at most.
pub proof fn usual_settings_trim_after_five_minutes()
    ensures
        usual_residency().enabled,
        usual_residency().quiet_minutes == 5,
        usual_residency().threshold_mb == 350,
        usual_residency().cooldown_minutes == 10,
{
}

/// The words for the modes and strategies.
pub proof fn residency_words(mode: ResidencyMode, enabled: bool)
    ensures
        mode is ActiveScan ==> mode_text(mode) == "active_scan"@,
        mode is TrimmedStandby ==> mode_text(mode) == "trimmed_standby"@,
        mode is QuietIdle ==> mode_text(mode) == "quiet_idle"@,
        mode is EngineWarm ==> mode_text(mode) == "engine_warm"@,
        enabled ==> strategy_text(enabled) == "quiet_retrim"@,
        !enabled ==> strategy_text(enabled) == "none"@,
{
}

} // verus!
