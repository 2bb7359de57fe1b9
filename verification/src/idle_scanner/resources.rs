//! Does the machine have capacity to spare right now?
//!
//! The signals (processor times, power, the foreground window, the disk) are
//! read outside and handed in; here stands what they mean.

use crate::text::{ends, ends_with, lowercased, to_lowercase};
use vstd::prelude::*;

verus! {

/// Processor times since the machine started. The kernel's time holds the idle
/// time.
#[derive(Debug, Clone, Copy, PartialEq, Eq, Structural)]
pub struct CpuTimes {
    pub idle: u64,
    pub kernel: u64,
    pub user: u64,
}

/// The times of the previous reading; all zero before the first.
#[derive(Debug, Clone, Copy, PartialEq, Eq, Structural)]
pub struct CpuMeter {
    pub previous: CpuTimes,
}

/// What a counter has grown by; none where it went back.
pub open spec fn grown(before: u64, after: u64) -> int {
    if after >= before {
        after - before
    } else {
        0
    }
}

/// Percentage of the time between two readings in which the processor was busy.
/// Before the first reading, or without any time between, it is zero.
pub open spec fn busy_percent(before: CpuTimes, after: CpuTimes) -> int {
    let total = grown(before.kernel, after.kernel) + grown(before.user, after.user);
    let idle = grown(before.idle, after.idle);
    if (before.idle == 0 && before.kernel == 0 && before.user == 0) || total == 0 {
        0
    } else if idle >= total {
        0
    } else {
        (total - idle) * 100 / total
    }
}

impl CpuMeter {
    pub fn new() -> (meter: Self)
        ensures
            meter.previous == (CpuTimes { idle: 0, kernel: 0, user: 0 }),
    {
        CpuMeter { previous: CpuTimes { idle: 0, kernel: 0, user: 0 } }
    }

    /// Processor load since the previous reading. A reading that failed is zero
    /// and changes nothing.
    pub fn cpu_usage_percent(&mut self, now: Option<CpuTimes>) -> (percent: u32)
        ensures
            match now {
                Some(times) => percent == busy_percent(old(self).previous, times)
                    && final(self).previous == times,
                None => percent == 0 && *final(self) == *old(self),
            },
            percent <= 100,
    {
        let times = match now {
            Some(times) => times,
            None => {
                return 0;
            },
        };
        let before = self.previous;
        self.previous = times;
        if before.idle == 0 && before.kernel == 0 && before.user == 0 {
            return 0;
        }
        let idle: u128 = times.idle.saturating_sub(before.idle) as u128;
        let kernel: u128 = times.kernel.saturating_sub(before.kernel) as u128;
        let user: u128 = times.user.saturating_sub(before.user) as u128;
        let total: u128 = kernel + user;
        if total == 0 || idle >= total {
            return 0;
        }
        let busy: u128 = total - idle;
        let percent: u128 = busy * 100 / total;
        assert(percent <= 100) by (nonlinear_arith)
            requires
                busy <= total,
                total > 0,
                percent == busy * 100 / (total as int),
        ;
        percent as u32
    }
}

/// Whether the shell is sure that a game or a presentation fills the screen: a
/// full-screen Direct3D application, presentation mode or a modern full-screen
/// application. The "busy" state is not among them, as a maximised window is
/// enough for it.
pub open spec fn surely_game(notification_state: Option<i32>) -> bool {
    notification_state == Some(3i32) || notification_state == Some(4i32) || notification_state
        == Some(7i32)
}

pub fn shell_says_definitely_game(notification_state: Option<i32>) -> (yes: bool)
    ensures
        yes == surely_game(notification_state),
{
    match notification_state {
        Some(state) => state == 3 || state == 4 || state == 7,
        None => false,
    }
}

/// Whether the screen is locked or the user is away.
pub open spec fn away_from_screen(notification_state: Option<i32>) -> bool {
    notification_state == Some(1i32)
}

pub fn screen_locked_or_away(notification_state: Option<i32>) -> (yes: bool)
    ensures
        yes == away_from_screen(notification_state),
        yes == (notification_state == Some(1i32)),
{
    match notification_state {
        Some(state) => state == 1,
        None => false,
    }
}

/// A rectangle on the desktop.
#[derive(Debug, Clone, Copy, PartialEq, Eq, Structural)]
pub struct Rect {
    pub left: i32,
    pub top: i32,
    pub right: i32,
    pub bottom: i32,
}

/// What is known of the window in front.
#[derive(Debug)]
pub struct ForegroundWindow {
    /// Image of the process that owns the window, where it could be told.
    pub image: Option<String>,
    pub style: u32,
    /// The window, where it could be measured.
    pub rect: Option<Rect>,
    /// The monitor that it is on, where it could be measured.
    pub monitor: Option<Rect>,
}

/// Window style bits of a caption.
pub const WS_CAPTION: u32 = 0x00C0_0000;

/// Window style bit of a thin border.
pub const WS_BORDER: u32 = 0x0080_0000;

/// Window style bit of a dialogue frame.
pub const WS_DLGFRAME: u32 = 0x0040_0000;

/// Whether an image path in lower case is one of our own programs.
pub open spec fn own_image(lower: Seq<char>) -> bool {
    ends(lower, "sentinella.exe"@) || ends(lower, "sentinelld.exe"@) || ends(
        lower,
        "sentinella-cli.exe"@,
    ) || ends(lower, "argusd.exe"@)
}

pub fn is_own_image(lower: &str) -> (yes: bool)
    ensures
        yes == own_image(lower@),
{
    ends_with(lower, "sentinella.exe") || ends_with(lower, "sentinelld.exe") || ends_with(
        lower,
        "sentinella-cli.exe",
    ) || ends_with(lower, "argusd.exe")
}

/// Whether a process with this image is one of our own.
pub fn process_is_ours(image: &str) -> (yes: bool)
    ensures
        yes == own_image(lowercased(image@)),
{
    let lower = to_lowercase(image);
    is_own_image(lower.as_str())
}

/// Whether a window has no frame and covers its monitor exactly.
pub open spec fn covers_monitor(w: ForegroundWindow) -> bool {
    &&& w.style & WS_CAPTION == 0
    &&& w.style & WS_BORDER == 0
    &&& w.style & WS_DLGFRAME == 0
    &&& w.rect is Some
    &&& w.monitor is Some
    &&& w.rect == w.monitor
}

/// Whether the window in front is a full-screen window of another program.
pub open spec fn true_fullscreen(w: Option<ForegroundWindow>) -> bool {
    match w {
        Some(w) => !(w.image matches Some(image) && own_image(lowercased(image@)))
            && covers_monitor(w),
        None => false,
    }
}

pub fn foreground_is_true_fullscreen(window: &Option<ForegroundWindow>) -> (yes: bool)
    ensures
        yes == true_fullscreen(*window),
{
    match window {
        Some(w) => {
            if let Some(image) = &w.image {
                if process_is_ours(image.as_str()) {
                    return false;
                }
            }
            if w.style & WS_CAPTION != 0 || w.style & WS_BORDER != 0 || w.style & WS_DLGFRAME != 0 {
                return false;
            }
            match (w.rect, w.monitor) {
                (Some(r), Some(m)) => r.left == m.left && r.top == m.top && r.right == m.right
                    && r.bottom == m.bottom,
                _ => false,
            }
        },
        None => false,
    }
}

/// Whether something fills the screen: the shell is sure, or the window in front
/// shows it. What cannot be told counts as no.
pub open spec fn screen_filled(
    notification_state: Option<i32>,
    window: Option<ForegroundWindow>,
) -> bool {
    surely_game(notification_state) || true_fullscreen(window)
}

pub fn fullscreen_or_busy(
    notification_state: Option<i32>,
    window: &Option<ForegroundWindow>,
) -> (yes: bool)
    ensures
        yes == screen_filled(notification_state, *window),
        yes == (surely_game(notification_state) || true_fullscreen(*window)),
{
    shell_says_definitely_game(notification_state) || foreground_is_true_fullscreen(window)
}

/// Why the scanner waits.
#[derive(Debug, Clone, Copy, PartialEq, Eq, Structural)]
pub enum PauseReason {
    Battery,
    Fullscreen,
    HighCpu,
    HighDisk,
    ScanRunning,
    MemoryPressure,
}

/// The word for a reason.
pub open spec fn pause_label(reason: PauseReason) -> Seq<char> {
    match reason {
        PauseReason::Battery => "on_battery"@,
        PauseReason::Fullscreen => "fullscreen"@,
        PauseReason::HighCpu => "high_cpu"@,
        PauseReason::HighDisk => "high_disk"@,
        PauseReason::ScanRunning => "scan_running"@,
        PauseReason::MemoryPressure => "memory_pressure"@,
    }
}

/// How long to wait before looking again, in seconds.
pub open spec fn pause_secs(reason: PauseReason) -> u64 {
    match reason {
        PauseReason::Battery => 60,
        PauseReason::Fullscreen => 30,
        PauseReason::ScanRunning => 10,
        PauseReason::HighCpu => 10,
        PauseReason::HighDisk => 5,
        PauseReason::MemoryPressure => 30,
    }
}

impl PauseReason {
    pub fn label(self) -> (word: &'static str)
        ensures
            word@ == pause_label(self),
    {
        match self {
            PauseReason::Battery => "on_battery",
            PauseReason::Fullscreen => "fullscreen",
            PauseReason::HighCpu => "high_cpu",
            PauseReason::HighDisk => "high_disk",
            PauseReason::ScanRunning => "scan_running",
            PauseReason::MemoryPressure => "memory_pressure",
        }
    }

    pub fn sleep_secs(self) -> (secs: u64)
        ensures
            secs == pause_secs(self),
    {
        match self {
            PauseReason::Battery => 60,
            PauseReason::Fullscreen => 30,
            PauseReason::ScanRunning => 10,
            PauseReason::HighCpu => 10,
            PauseReason::HighDisk => 5,
            PauseReason::MemoryPressure => 30,
        }
    }
}

/// When the scanner is to wait.
#[derive(Debug, Clone, Copy, PartialEq, Eq, Structural)]
pub struct ResourceConfig {
    pub allow_on_battery: bool,
    /// Processor load above which it waits, in per cent.
    pub cpu_threshold: u32,
    /// Disk latency above which it waits, in milliseconds.
    pub disk_latency_threshold_ms: u64,
    pub pause_on_fullscreen: bool,
}

/// Readings of the machine.
#[derive(Debug, Clone, Copy, PartialEq, Eq, Structural)]
pub struct Readings {
    pub on_battery: bool,
    pub fullscreen: bool,
    pub cpu_percent: u32,
    pub disk_ms: u64,
}

/// Why the scanner has to wait, if it has to. A report from the user's session
/// on what fills the screen goes before our own reading.
pub open spec fn pause_for(
    config: ResourceConfig,
    scan_running: bool,
    gui_fullscreen_hint: Option<bool>,
    r: Readings,
) -> Option<PauseReason> {
    if !config.allow_on_battery && r.on_battery {
        Some(PauseReason::Battery)
    } else if config.pause_on_fullscreen && (match gui_fullscreen_hint {
        Some(hint) => hint,
        None => r.fullscreen,
    }) {
        Some(PauseReason::Fullscreen)
    } else if scan_running {
        Some(PauseReason::ScanRunning)
    } else if r.cpu_percent > config.cpu_threshold {
        Some(PauseReason::HighCpu)
    } else if r.disk_ms > config.disk_latency_threshold_ms {
        Some(PauseReason::HighDisk)
    } else {
        None
    }
}

/// Decide whether the scanner has to wait.
pub fn check_resources(
    config: &ResourceConfig,
    scan_running: bool,
    gui_fullscreen_hint: Option<bool>,
    readings: &Readings,
) -> (reason: Option<PauseReason>)
    ensures
        reason == pause_for(*config, scan_running, gui_fullscreen_hint, *readings),
{
    if !config.allow_on_battery && readings.on_battery {
        return Some(PauseReason::Battery);
    }
    if config.pause_on_fullscreen {
        let fullscreen = match gui_fullscreen_hint {
            Some(hint) => hint,
            None => readings.fullscreen,
        };
        if fullscreen {
            return Some(PauseReason::Fullscreen);
        }
    }
    if scan_running {
        return Some(PauseReason::ScanRunning);
    }
    if readings.cpu_percent > config.cpu_threshold {
        return Some(PauseReason::HighCpu);
    }
    if readings.disk_ms > config.disk_latency_threshold_ms {
        return Some(PauseReason::HighDisk);
    }
    None
}

/// A reading that can be taken.
#[derive(Debug, Clone, Copy, PartialEq, Eq, Structural)]
pub enum Probe {
    Battery,
    Fullscreen,
    Cpu,
    Disk,
}

/// The readings that were taken so far.
#[derive(Debug, Clone, Copy, PartialEq, Eq, Structural)]
pub struct PartialReadings {
    pub on_battery: Option<bool>,
    pub fullscreen: Option<bool>,
    pub cpu_percent: Option<u32>,
    pub disk_ms: Option<u64>,
}

/// Whether full readings hold what was taken so far.
pub open spec fn completes(p: PartialReadings, r: Readings) -> bool {
    &&& p.on_battery matches Some(v) ==> v == r.on_battery
    &&& p.fullscreen matches Some(v) ==> v == r.fullscreen
    &&& p.cpu_percent matches Some(v) ==> v == r.cpu_percent
    &&& p.disk_ms matches Some(v) ==> v == r.disk_ms
}

/// The next reading to take, in an order that takes none in vain: the costly
/// ones come last, and none is taken once the answer is certain.
pub open spec fn probe_after(
    config: ResourceConfig,
    scan_running: bool,
    gui_fullscreen_hint: Option<bool>,
    p: PartialReadings,
) -> Option<Probe> {
    if !config.allow_on_battery && p.on_battery is None {
        Some(Probe::Battery)
    } else if !config.allow_on_battery && p.on_battery == Some(true) {
        None
    } else if config.pause_on_fullscreen && gui_fullscreen_hint is None && p.fullscreen is None {
        Some(Probe::Fullscreen)
    } else if config.pause_on_fullscreen && (gui_fullscreen_hint == Some(true) || (
    gui_fullscreen_hint is None && p.fullscreen == Some(true))) {
        None
    } else if scan_running {
        None
    } else {
        match p.cpu_percent {
            None => Some(Probe::Cpu),
            Some(cpu) => if cpu > config.cpu_threshold {
                None
            } else if p.disk_ms is None {
                Some(Probe::Disk)
            } else {
                None
            },
        }
    }
}

/// Tell which reading to take next; none where the answer is certain.
pub fn next_probe(
    config: &ResourceConfig,
    scan_running: bool,
    gui_fullscreen_hint: Option<bool>,
    taken: &PartialReadings,
) -> (probe: Option<Probe>)
    ensures
        probe == probe_after(*config, scan_running, gui_fullscreen_hint, *taken),
{
    if !config.allow_on_battery {
        match taken.on_battery {
            None => {
                return Some(Probe::Battery);
            },
            Some(yes) => if yes {
                return None;
            },
        }
    }
    if config.pause_on_fullscreen {
        match gui_fullscreen_hint {
            Some(hint) => if hint {
                return None;
            },
            None => match taken.fullscreen {
                None => {
                    return Some(Probe::Fullscreen);
                },
                Some(yes) => if yes {
                    return None;
                },
            },
        }
    }
    if scan_running {
        return None;
    }
    match taken.cpu_percent {
        None => Some(Probe::Cpu),
        Some(cpu) => if cpu > config.cpu_threshold {
            None
        } else if taken.disk_ms.is_none() {
            Some(Probe::Disk)
        } else {
            None
        },
    }
}

/// Once no reading is left to take, the answer is the same whatever the others
/// would have been.
pub proof fn readings_left_out_do_not_matter(
    config: ResourceConfig,
    scan_running: bool,
    hint: Option<bool>,
    taken: PartialReadings,
    one: Readings,
    other: Readings,
)
    requires
        probe_after(config, scan_running, hint, taken) is None,
        completes(taken, one),
        completes(taken, other),
    ensures
        pause_for(config, scan_running, hint, one) == pause_for(config, scan_running, hint, other),
{
}

/// With a fresh report from the user's session our own reading of the screen is
/// not asked for and does not matter.
pub proof fn fresh_report_decides_fullscreen(
    config: ResourceConfig,
    scan_running: bool,
    hint: bool,
    r: Readings,
    other: bool,
)
    ensures
        pause_for(config, scan_running, Some(hint), r) == pause_for(
            config,
            scan_running,
            Some(hint),
            Readings { fullscreen: other, ..r },
        ),
{
}

/// The scanner goes on only with a machine that has capacity: plugged in or
/// allowed on battery, nothing in full screen, no other scan, and load and
/// latency within their limits.
pub proof fn scanning_needs_capacity(
    config: ResourceConfig,
    scan_running: bool,
    hint: Option<bool>,
    r: Readings,
)
    requires
        pause_for(config, scan_running, hint, r) is None,
    ensures
        config.allow_on_battery || !r.on_battery,
        !scan_running,
        config.pause_on_fullscreen ==> hint != Some(true) && (hint is None ==> !r.fullscreen),
        r.cpu_percent <= config.cpu_threshold,
        r.disk_ms <= config.disk_latency_threshold_ms,
{
}

/// A window with a frame is never a full-screen game, however large it is.
pub proof fn maximised_window_is_no_game(w: ForegroundWindow)
    requires
        w.style & WS_CAPTION != 0,
    ensures
        !true_fullscreen(Some(w)),
{
}

/// The scanner waits for the first reason that holds, in this order: battery,
/// something that fills the screen, another scan, a busy processor, a slow disk; with
/// none of them it goes on.
pub proof fn scanner_waits_for_the_first_reason(
    config: ResourceConfig,
    scan_running: bool,
    hint: Option<bool>,
    r: Readings,
)
    ensures
        ({
            let battery = !config.allow_on_battery && r.on_battery;
            let screen = config.pause_on_fullscreen && (hint == Some(true) || (hint is None
                && r.fullscreen));
            let cpu = r.cpu_percent > config.cpu_threshold;
            let disk = r.disk_ms > config.disk_latency_threshold_ms;
            let reason = pause_for(config, scan_running, hint, r);
            &&& reason == Some(PauseReason::Battery) <==> battery
            &&& reason == Some(PauseReason::Fullscreen) <==> !battery && screen
            &&& reason == Some(PauseReason::ScanRunning) <==> !battery && !screen && scan_running
            &&& reason == Some(PauseReason::HighCpu) <==> !battery && !screen && !scan_running
                && cpu
            &&& reason == Some(PauseReason::HighDisk) <==> !battery && !screen && !scan_running
                && !cpu && disk
            &&& reason is None <==> !battery && !screen && !scan_running && !cpu && !disk
        }),
{
}

/// How long the scanner waits depends on the reason alone, and each reason has its
/// own word.
pub proof fn waits_have_their_length(reason: PauseReason, other: PauseReason)
    ensures
        reason is Battery ==> pause_secs(reason) == 60 && pause_label(reason) == "on_battery"@,
        reason is Fullscreen ==> pause_secs(reason) == 30 && pause_label(reason) == "fullscreen"@,
        reason is HighCpu ==> pause_secs(reason) == 10 && pause_label(reason) == "high_cpu"@,
        reason is HighDisk ==> pause_secs(reason) == 5 && pause_label(reason) == "high_disk"@,
        reason is ScanRunning ==> pause_secs(reason) == 10 && pause_label(reason)
            == "scan_running"@,
        reason is MemoryPressure ==> pause_secs(reason) == 30 && pause_label(reason)
            == "memory_pressure"@,
        reason != other ==> pause_label(reason) != pause_label(other),
{
    reveal_strlit("on_battery");
    reveal_strlit("fullscreen");
    reveal_strlit("high_cpu");
    reveal_strlit("high_disk");
    reveal_strlit("scan_running");
    reveal_strlit("memory_pressure");
    assert("on_battery"@.len() == 10 && "fullscreen"@.len() == 10);
    assert("on_battery"@[0] == 'o' && "fullscreen"@[0] == 'f');
    assert("high_cpu"@.len() == 8 && "high_disk"@.len() == 9);
    assert("scan_running"@.len() == 12 && "memory_pressure"@.len() == 15);
}

/// The load is the share of the time that was not idle, from nought to a hundred; it
/// is nought before there is anything to compare with.
pub proof fn load_is_time_not_idle(before: CpuTimes, after: CpuTimes)
    requires
        before.idle <= after.idle,
        before.kernel <= after.kernel,
        before.user <= after.user,
    ensures
        ({
            let total = (after.kernel - before.kernel) + (after.user - before.user);
            let idle = after.idle - before.idle;
            let percent = busy_percent(before, after);
            &&& 0 <= percent <= 100
            &&& before.idle == 0 && before.kernel == 0 && before.user == 0 ==> percent == 0
            &&& idle >= total ==> percent == 0
            &&& (before.idle > 0 || before.kernel > 0 || before.user > 0) && idle < total
                ==> percent * total <= 100 * (total - idle) < (percent + 1) * total
        }),
{
    let total = (after.kernel - before.kernel) + (after.user - before.user);
    let idle = after.idle - before.idle;
    if total > 0 && idle < total {
        let x = (total - idle) * 100;
        let q = x / total;
        assert(q * total <= x < (q + 1) * total && 0 <= q <= 100) by (nonlinear_arith)
            requires
                q == x / total,
                total > 0,
                0 <= x <= 100 * total,
        ;
    }
}

/// The shell is sure of a game in the states of a full-screen application, of a
/// presentation and of a modern application; the user is away in the first state.
pub proof fn shell_states(state: i32)
    ensures
        surely_game(Some(state)) <==> state == 3 || state == 4 || state == 7,
        !surely_game(None),
        away_from_screen(Some(state)) <==> state == 1,
        !away_from_screen(None),
{
}

/// A window fills the screen where it is no window of ours, has no frame and covers
/// its monitor exactly; what could not be measured does not.
pub proof fn frameless_window_fills_the_screen(w: ForegroundWindow, state: Option<i32>)
    ensures
        (w.image matches Some(image) && own_image(lowercased(image@))) ==> !true_fullscreen(
            Some(w),
        ),
        w.rect is None || w.monitor is None || w.rect != w.monitor ==> !true_fullscreen(Some(w)),
        w.style & 0x00C0_0000 != 0 || w.style & 0x0080_0000 != 0 || w.style & 0x0040_0000 != 0
            ==> !true_fullscreen(Some(w)),
        w.image is None && w.rect is Some && w.rect == w.monitor && w.style & 0x00C0_0000 == 0
            && w.style & 0x0080_0000 == 0 && w.style & 0x0040_0000 == 0 ==> true_fullscreen(
            Some(w),
        ),
        (w.image matches Some(image) && !own_image(lowercased(image@))) && w.rect is Some && w.rect
            == w.monitor && w.style & 0x00C0_0000 == 0 && w.style & 0x0080_0000 == 0 && w.style
            & 0x0040_0000 == 0 ==> true_fullscreen(Some(w)),
        !true_fullscreen(None),
        screen_filled(state, Some(w)) <==> surely_game(state) || true_fullscreen(Some(w)),
{
}

/// Our own programs are told by the end of their path.
pub proof fn own_programs_are_these(lower: Seq<char>)
    ensures
        own_image(lower) <==> ends(lower, "sentinella.exe"@) || ends(lower, "sentinelld.exe"@)
            || ends(lower, "sentinella-cli.exe"@) || ends(lower, "argusd.exe"@),
{
}

/// A reading is asked for only where it can still decide, the cheap ones first.
pub proof fn costly_readings_come_last(
    config: ResourceConfig,
    scan_running: bool,
    hint: Option<bool>,
    p: PartialReadings,
)
    ensures
        ({
            let probe = probe_after(config, scan_running, hint, p);
            &&& probe == Some(Probe::Battery) <==> !config.allow_on_battery && p.on_battery is None
            &&& probe == Some(Probe::Fullscreen) ==> config.pause_on_fullscreen && hint is None
                && p.fullscreen is None
            &&& probe == Some(Probe::Cpu) ==> !scan_running && p.cpu_percent is None
            &&& probe == Some(Probe::Disk) ==> !scan_running && p.disk_ms is None && (
            p.cpu_percent matches Some(cpu) && cpu <= config.cpu_threshold)
            &&& scan_running ==> probe != Some(Probe::Cpu) && probe != Some(Probe::Disk)
            &&& (p.on_battery is Some && p.fullscreen is Some && p.cpu_percent is Some
                && p.disk_ms is Some) ==> probe is None
        }),
{
}

} // verus!
