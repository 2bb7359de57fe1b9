//! The idle scanner: files that nothing has touched are scanned when the machine
//! has capacity to spare.
//!
//! The thread, its sleeps and the engines are outside. The scanner is told what
//! is the case and says what to do next.

pub mod collect;
pub mod resources;

use crate::scan::job::ActivityEvent;
use crate::scan::verdict::{unify_detection_filtered, united, ArgusVerdict};
use crate::scan::worker::ClamResult;
use crate::text::{decimal, decimal_text, owned_view, text_view, texts};
use crate::watch::{present, Place};
use rand::Rng;
use resources::{pause_label, pause_secs, PauseReason, ResourceConfig};
use vstd::prelude::*;

verus! {

/// How fast files follow one another.
#[derive(Debug, Clone, Copy, PartialEq, Eq, Structural)]
pub enum ScanSpeed {
    /// In the first five minutes.
    Slow,
    Normal,
    /// While the screen is locked or the user is away.
    Fast,
}

/// What the scanner is doing.
#[derive(Debug, Clone, Copy, PartialEq, Eq, Structural)]
pub enum IdleScannerState {
    Disabled,
    WaitingForCapacity,
    ScanningSlow,
    ScanningNormal,
    ScanningFast,
    PausedCpu,
    PausedDisk,
    PausedFullscreen,
    PausedBattery,
    PausedScanRunning,
    Completed,
}

/// The word for a state.
pub open spec fn idle_word(state: IdleScannerState) -> Seq<char> {
    match state {
        IdleScannerState::Disabled => "disabled"@,
        IdleScannerState::WaitingForCapacity => "waiting_for_capacity"@,
        IdleScannerState::ScanningSlow => "scanning_slow"@,
        IdleScannerState::ScanningNormal => "scanning_normal"@,
        IdleScannerState::ScanningFast => "scanning_fast"@,
        IdleScannerState::PausedCpu => "paused_cpu"@,
        IdleScannerState::PausedDisk => "paused_disk"@,
        IdleScannerState::PausedFullscreen => "paused_fullscreen"@,
        IdleScannerState::PausedBattery => "paused_battery"@,
        IdleScannerState::PausedScanRunning => "paused_scan_running"@,
        IdleScannerState::Completed => "completed"@,
    }
}

impl IdleScannerState {
    pub fn as_str(self) -> (word: &'static str)
        ensures
            word@ == idle_word(self),
    {
        match self {
            IdleScannerState::Disabled => "disabled",
            IdleScannerState::WaitingForCapacity => "waiting_for_capacity",
            IdleScannerState::ScanningSlow => "scanning_slow",
            IdleScannerState::ScanningNormal => "scanning_normal",
            IdleScannerState::ScanningFast => "scanning_fast",
            IdleScannerState::PausedCpu => "paused_cpu",
            IdleScannerState::PausedDisk => "paused_disk",
            IdleScannerState::PausedFullscreen => "paused_fullscreen",
            IdleScannerState::PausedBattery => "paused_battery",
            IdleScannerState::PausedScanRunning => "paused_scan_running",
            IdleScannerState::Completed => "completed",
        }
    }
}

/// The state of a scanner that waits for this reason. Memory pressure shows as
/// load.
pub open spec fn paused(reason: PauseReason) -> IdleScannerState {
    match reason {
        PauseReason::Battery => IdleScannerState::PausedBattery,
        PauseReason::Fullscreen => IdleScannerState::PausedFullscreen,
        PauseReason::HighCpu => IdleScannerState::PausedCpu,
        PauseReason::HighDisk => IdleScannerState::PausedDisk,
        PauseReason::ScanRunning => IdleScannerState::PausedScanRunning,
        PauseReason::MemoryPressure => IdleScannerState::PausedCpu,
    }
}

pub fn pause_state(reason: PauseReason) -> (state: IdleScannerState)
    ensures
        state == paused(reason),
{
    match reason {
        PauseReason::Battery => IdleScannerState::PausedBattery,
        PauseReason::Fullscreen => IdleScannerState::PausedFullscreen,
        PauseReason::HighCpu => IdleScannerState::PausedCpu,
        PauseReason::HighDisk => IdleScannerState::PausedDisk,
        PauseReason::ScanRunning => IdleScannerState::PausedScanRunning,
        PauseReason::MemoryPressure => IdleScannerState::PausedCpu,
    }
}

/// The state of a scanner at work.
pub open spec fn scanning(speed: ScanSpeed) -> IdleScannerState {
    match speed {
        ScanSpeed::Slow => IdleScannerState::ScanningSlow,
        ScanSpeed::Normal => IdleScannerState::ScanningNormal,
        ScanSpeed::Fast => IdleScannerState::ScanningFast,
    }
}

/// Report on the scanner.
#[derive(Debug)]
pub struct IdleScannerStats<T = String> {
    pub state: IdleScannerState,
    pub files_scanned_session: u64,
    pub current_target: T,
    pub last_pause_reason: T,
    pub last_completed: Option<i64>,
}

impl View for IdleScannerStats {
    type V = IdleScannerStats<Seq<char>>;

    open spec fn view(&self) -> IdleScannerStats<Seq<char>> {
        IdleScannerStats {
            state: self.state,
            files_scanned_session: self.files_scanned_session,
            current_target: self.current_target@,
            last_pause_reason: self.last_pause_reason@,
            last_completed: self.last_completed,
        }
    }
}

/// Settings of the scanner.
#[derive(Debug, Clone, Copy, PartialEq, Eq, Structural)]
pub struct IdleSettings {
    pub enabled: bool,
    pub on_battery: bool,
    pub cpu_pause_threshold: u32,
    pub disk_latency_pause_ms: u64,
    pub fullscreen_pause: bool,
    pub max_file_size_mb: u64,
    pub max_files_per_session: u32,
    pub slow_delay_min_ms: u64,
    pub slow_delay_max_ms: u64,
    pub normal_delay_min_ms: u64,
    pub normal_delay_max_ms: u64,
    pub fast_delay_min_ms: u64,
    pub fast_delay_max_ms: u64,
}

/// Bounds of the delay between two files, in milliseconds.
pub open spec fn delays(s: IdleSettings, speed: ScanSpeed) -> (u64, u64) {
    match speed {
        ScanSpeed::Slow => (s.slow_delay_min_ms, s.slow_delay_max_ms),
        ScanSpeed::Normal => (s.normal_delay_min_ms, s.normal_delay_max_ms),
        ScanSpeed::Fast => (s.fast_delay_min_ms, s.fast_delay_max_ms),
    }
}

impl IdleSettings {
    /// When the scanner has to wait.
    pub fn resources(&self) -> (config: ResourceConfig)
        ensures
            config == (ResourceConfig {
                allow_on_battery: self.on_battery,
                cpu_threshold: self.cpu_pause_threshold,
                disk_latency_threshold_ms: self.disk_latency_pause_ms,
                pause_on_fullscreen: self.fullscreen_pause,
            }),
    {
        ResourceConfig {
            allow_on_battery: self.on_battery,
            cpu_threshold: self.cpu_pause_threshold,
            disk_latency_threshold_ms: self.disk_latency_pause_ms,
            pause_on_fullscreen: self.fullscreen_pause,
        }
    }

    pub fn delay_bounds(&self, speed: ScanSpeed) -> (bounds: (u64, u64))
        ensures
            bounds == delays(*self, speed),
    {
        match speed {
            ScanSpeed::Slow => (self.slow_delay_min_ms, self.slow_delay_max_ms),
            ScanSpeed::Normal => (self.normal_delay_min_ms, self.normal_delay_max_ms),
            ScanSpeed::Fast => (self.fast_delay_min_ms, self.fast_delay_max_ms),
        }
    }
}

/// `rand`'s `Rng::gen_range` over an inclusive range, from the generator of the
/// thread: some number in the range. Which one it is rests on chance.
#[verifier::external_body]
fn random_between(low: u64, high: u64) -> (n: u64)
    requires
        low <= high,
    ensures
        low <= n <= high,
{
    rand::thread_rng().gen_range(low..=high)
}

/// How long to sleep between two files, in milliseconds: anything within the
/// bounds, the lower one where they leave no room.
pub fn random_sleep(min_ms: u64, max_ms: u64) -> (ms: u64)
    ensures
        min_ms < max_ms ==> min_ms <= ms <= max_ms,
        min_ms >= max_ms ==> ms == min_ms,
{
    if max_ms > min_ms {
        random_between(min_ms, max_ms)
    } else {
        min_ms
    }
}

/// How long to wait for the next cycle, in seconds: half an hour to an hour.
pub fn cycle_pause_secs() -> (secs: u64)
    ensures
        1800 <= secs <= 3600,
{
    random_between(1800, 3600)
}

/// Directories of a user that are worth a look, the likeliest first.
pub open spec fn idle_places(
    home: Seq<char>,
    temp: Option<Seq<char>>,
    appdata: Option<Seq<char>>,
    localappdata: Option<Seq<char>>,
) -> Seq<Seq<char>> {
    seq![
        home + "\\Downloads"@,
        home + "\\Desktop"@,
        match temp {
            Some(t) => t,
            None => home + "\\AppData\\Local\\Temp"@,
        },
        match appdata {
            Some(t) => t,
            None => home + "\\AppData\\Roaming"@,
        },
        match localappdata {
            Some(t) => t,
            None => home + "\\AppData\\Local"@,
        },
        home + "\\Documents"@,
    ]
}

fn under(home: &str, tail: &str) -> (path: String)
    ensures
        path@ == home@ + tail@,
{
    let mut path = home.to_owned();
    path.append(tail);
    path
}

fn given_or(given: Option<&str>, home: &str, tail: &str) -> (path: String)
    ensures
        path@ == (match given {
            Some(t) => t@,
            None => home@ + tail@,
        }),
{
    match given {
        Some(t) => t.to_owned(),
        None => under(home, tail),
    }
}

/// The directories to look for, from the variables of the environment.
pub fn target_places(
    home: &str,
    temp: Option<&str>,
    appdata: Option<&str>,
    localappdata: Option<&str>,
) -> (places: Vec<String>)
    ensures
        texts(places@) == idle_places(
            home@,
            text_view(temp),
            text_view(appdata),
            text_view(localappdata),
        ),
{
    let mut places: Vec<String> = Vec::new();
    places.push(under(home, "\\Downloads"));
    places.push(under(home, "\\Desktop"));
    places.push(given_or(temp, home, "\\AppData\\Local\\Temp"));
    places.push(given_or(appdata, home, "\\AppData\\Roaming"));
    places.push(given_or(localappdata, home, "\\AppData\\Local"));
    places.push(under(home, "\\Documents"));
    assert(texts(places@) =~= idle_places(
        home@,
        text_view(temp),
        text_view(appdata),
        text_view(localappdata),
    ));
    places
}

/// Keep the directories that are there, in their order.
pub fn build_scan_targets(places: &Vec<Place>) -> (targets: Vec<String>)
    ensures
        texts(targets@) == present(places@),
{
    let mut targets: Vec<String> = Vec::new();
    let mut i: usize = 0;
    assert(texts(targets@) =~= present(places@.take(0)));
    while i < places.len()
        invariant
            i <= places@.len(),
            texts(targets@) == present(places@.take(i as int)),
        decreases places@.len() - i,
    {
        assert(places@.take(i + 1).drop_last() =~= places@.take(i as int));
        let ghost before = targets@;
        if places[i].present {
            targets.push(places[i].path.clone());
            assert(texts(targets@) =~= texts(before).push(places@[i as int].path@));
        }
        i = i + 1;
    }
    assert(places@.take(places@.len() as int) =~= places@);
    targets
}

/// What a cycle may do.
#[derive(Debug, Clone, Copy, PartialEq, Eq, Structural)]
pub struct CycleLimits {
    /// Largest file in bytes.
    pub max_file_size: u64,
    pub max_files: u64,
}

/// A cycle at work.
#[derive(Debug, Clone, Copy, PartialEq, Eq, Structural)]
pub struct Cycle {
    pub limits: CycleLimits,
    /// When it began, in nanoseconds.
    pub started: u64,
    pub scanned: u64,
}

impl Cycle {
    pub fn new(limits: CycleLimits, now: u64) -> (cycle: Self)
        ensures
            cycle == (Cycle { limits, started: now, scanned: 0 }),
    {
        Cycle { limits, started: now, scanned: 0 }
    }
}

/// Five minutes in nanoseconds.
pub const SLOW_PERIOD: u64 = 300_000_000_000;

/// The speed of a cycle that began at `started`.
pub open spec fn speed_at(started: u64, now: u64, away: bool) -> ScanSpeed {
    if away {
        ScanSpeed::Fast
    } else if now - started > SLOW_PERIOD {
        ScanSpeed::Normal
    } else {
        ScanSpeed::Slow
    }
}

/// What to do about a file.
#[derive(Debug, Clone, Copy, PartialEq, Eq, Structural)]
pub enum FileStep {
    /// On to the next directory.
    LeaveTarget,
    /// Sleep so many seconds, and on to the next file.
    PassAfter(u64),
    /// Scan the file, at this speed.
    Scan(ScanSpeed),
}

/// What becomes of a scanned file.
#[derive(Debug)]
pub struct IdleConclusion {
    /// Whether it is clean, for the cache; nothing where the engine failed.
    pub record: Option<bool>,
    /// Name of the threat to quarantine it for.
    pub quarantine: Option<String>,
}

/// The scanner.
pub struct IdleScanner<T = String> {
    pub running: bool,
    pub files_scanned: u64,
    pub state: IdleScannerState,
    pub current_target: T,
    pub last_pause_reason: T,
    pub last_completed: Option<i64>,
}

impl View for IdleScanner {
    type V = IdleScanner<Seq<char>>;

    open spec fn view(&self) -> IdleScanner<Seq<char>> {
        IdleScanner {
            running: self.running,
            files_scanned: self.files_scanned,
            state: self.state,
            current_target: self.current_target@,
            last_pause_reason: self.last_pause_reason@,
            last_completed: self.last_completed,
        }
    }
}

/// What a scanner does at a file.
pub open spec fn file_step(
    s: IdleScanner<Seq<char>>,
    cycle: Cycle,
    memory_pressure: bool,
    pause: Option<PauseReason>,
    away: bool,
    now: u64,
) -> FileStep {
    if !s.running || cycle.scanned >= cycle.limits.max_files || memory_pressure {
        FileStep::LeaveTarget
    } else {
        match pause {
            Some(reason) => FileStep::PassAfter(pause_secs(reason)),
            None => FileStep::Scan(speed_at(cycle.started, now, away)),
        }
    }
}

/// The scanner while it waits for a reason.
pub open spec fn waiting(s: IdleScanner<Seq<char>>, reason: PauseReason) -> IdleScanner<Seq<char>> {
    IdleScanner { state: paused(reason), last_pause_reason: pause_label(reason), ..s }
}

/// Why a scanner has to wait before it begins. Critical memory pressure goes first.
pub open spec fn waits_for(memory_pressure: bool, pause: Option<PauseReason>) -> Option<
    PauseReason,
> {
    if memory_pressure {
        Some(PauseReason::MemoryPressure)
    } else {
        pause
    }
}

/// The scanner after it has decided about a file.
pub open spec fn after_step(
    s: IdleScanner<Seq<char>>,
    cycle: Cycle,
    pause: Option<PauseReason>,
    step: FileStep,
) -> IdleScanner<Seq<char>> {
    match step {
        FileStep::LeaveTarget => if s.running && cycle.scanned < cycle.limits.max_files {
            waiting(s, PauseReason::MemoryPressure)
        } else {
            s
        },
        FileStep::PassAfter(_) => waiting(s, pause->0),
        FileStep::Scan(speed) => IdleScanner { state: scanning(speed), ..s },
    }
}

/// What a cycle may do, where the scanner is on.
pub open spec fn limits_of(settings: IdleSettings) -> Option<CycleLimits> {
    if settings.enabled {
        Some(
            CycleLimits {
                max_file_size: (settings.max_file_size_mb * 1_048_576) as u64,
                max_files: settings.max_files_per_session as u64,
            },
        )
    } else {
        None
    }
}

/// What is remembered of a scanned file: nothing where the engine failed.
pub open spec fn remembered(engine_failed: bool, threat: bool) -> Option<bool> {
    if engine_failed {
        None
    } else {
        Some(!threat)
    }
}

/// Whether the engines look at a file.
pub open spec fn worth_a_look(
    size_known: bool,
    cached_clean: Option<bool>,
    readable: bool,
) -> bool {
    size_known && cached_clean != Some(true) && readable
}

impl IdleScanner {
    /// A scanner that has not found capacity yet.
    pub fn start() -> (scanner: Self)
        ensures
            scanner@ == (IdleScanner {
                running: true,
                files_scanned: 0,
                state: IdleScannerState::WaitingForCapacity,
                current_target: ""@,
                last_pause_reason: ""@,
                last_completed: None,
            }),
    {
        IdleScanner {
            running: true,
            files_scanned: 0,
            state: IdleScannerState::WaitingForCapacity,
            current_target: "".to_owned(),
            last_pause_reason: "".to_owned(),
            last_completed: None,
        }
    }

    /// Report on the scanner.
    pub fn stats(&self) -> (stats: IdleScannerStats)
        ensures
            stats@ == (IdleScannerStats {
                state: self.state,
                files_scanned_session: self.files_scanned,
                current_target: self.current_target@,
                last_pause_reason: self.last_pause_reason@,
                last_completed: self.last_completed,
            }),
    {
        IdleScannerStats {
            state: self.state,
            files_scanned_session: self.files_scanned,
            current_target: self.current_target.clone(),
            last_pause_reason: self.last_pause_reason.clone(),
            last_completed: self.last_completed,
        }
    }

    /// Ask the scanner to stop.
    pub fn stop(&mut self)
        ensures
            final(self)@ == (IdleScanner { running: false, ..old(self)@ }),
    {
        self.running = false;
    }

    pub fn set_state(&mut self, new: IdleScannerState)
        ensures
            final(self)@ == (IdleScanner { state: new, ..old(self)@ }),
    {
        self.state = new;
    }

    fn pause(&mut self, reason: PauseReason)
        ensures
            final(self)@ == waiting(old(self)@, reason),
    {
        self.set_state(pause_state(reason));
        self.last_pause_reason = reason.label().to_owned();
    }

    /// Begin a cycle with the settings in force. Without limits the scanner is
    /// switched off and looks again in ten seconds.
    pub fn begin_cycle(&mut self, settings: &IdleSettings) -> (limits: Option<CycleLimits>)
        requires
            settings.enabled ==> settings.max_file_size_mb * 1_048_576 <= u64::MAX,
        ensures
            final(self)@ == (IdleScanner {
                state: if settings.enabled {
                    IdleScannerState::WaitingForCapacity
                } else {
                    IdleScannerState::Disabled
                },
                ..old(self)@
            }),
            limits == limits_of(*settings),
            limits == if settings.enabled {
                Some(
                    CycleLimits {
                        max_file_size: (settings.max_file_size_mb * 1_048_576) as u64,
                        max_files: settings.max_files_per_session as u64,
                    },
                )
            } else {
                None
            },
    {
        if !settings.enabled {
            self.set_state(IdleScannerState::Disabled);
            return None;
        }
        self.set_state(IdleScannerState::WaitingForCapacity);
        Some(
            CycleLimits {
                max_file_size: settings.max_file_size_mb * 1_048_576,
                max_files: settings.max_files_per_session as u64,
            },
        )
    }

    /// Wait for capacity: how many seconds to sleep before looking again, or
    /// nothing once the scan can begin. Critical memory pressure goes first.
    pub fn wait_for_capacity(&mut self, memory_pressure: bool, pause: Option<PauseReason>) -> (secs:
        Option<u64>)
        ensures
            match waits_for(memory_pressure, pause) {
                Some(reason) => secs == Some(pause_secs(reason)) && final(self)@ == waiting(
                    old(self)@,
                    reason,
                ),
                None => secs is None && final(self)@ == old(self)@,
            },
            ({
                let reason = if memory_pressure {
                    Some(PauseReason::MemoryPressure)
                } else {
                    pause
                };
                match reason {
                    Some(reason) => secs == Some(pause_secs(reason)) && final(self)@ == waiting(
                        old(self)@,
                        reason,
                    ),
                    None => secs is None && final(self)@ == old(self)@,
                }
            }),
    {
        let reason = if memory_pressure {
            Some(PauseReason::MemoryPressure)
        } else {
            pause
        };
        match reason {
            Some(reason) => {
                self.pause(reason);
                Some(reason.sleep_secs())
            },
            None => None,
        }
    }

    /// Turn to a directory.
    pub fn enter_target(&mut self, name: &str)
        ensures
            final(self)@ == (IdleScanner { current_target: name@, ..old(self)@ }),
    {
        self.current_target = name.to_owned();
    }

    /// Decide about the next file.
    pub fn before_file(
        &mut self,
        cycle: &Cycle,
        memory_pressure: bool,
        pause: Option<PauseReason>,
        away: bool,
        now: u64,
    ) -> (step: FileStep)
        ensures
            step == file_step(old(self)@, *cycle, memory_pressure, pause, away, now),
            final(self)@ == after_step(old(self)@, *cycle, pause, step),
            final(self)@ == match step {
                FileStep::LeaveTarget => if old(self).running && cycle.scanned
                    < cycle.limits.max_files {
                    waiting(old(self)@, PauseReason::MemoryPressure)
                } else {
                    old(self)@
                },
                FileStep::PassAfter(_) => waiting(old(self)@, pause->0),
                FileStep::Scan(speed) => IdleScanner { state: scanning(speed), ..old(self)@ },
            },
    {
        if !self.running || cycle.scanned >= cycle.limits.max_files {
            return FileStep::LeaveTarget;
        }
        if memory_pressure {
            self.pause(PauseReason::MemoryPressure);
            return FileStep::LeaveTarget;
        }
        if let Some(reason) = pause {
            self.pause(reason);
            return FileStep::PassAfter(reason.sleep_secs());
        }
        let speed = if away {
            ScanSpeed::Fast
        } else if now.saturating_sub(cycle.started) > SLOW_PERIOD {
            ScanSpeed::Normal
        } else {
            ScanSpeed::Slow
        };
        let state = match speed {
            ScanSpeed::Slow => IdleScannerState::ScanningSlow,
            ScanSpeed::Normal => IdleScannerState::ScanningNormal,
            ScanSpeed::Fast => IdleScannerState::ScanningFast,
        };
        self.set_state(state);
        FileStep::Scan(speed)
    }

    /// Conclude on a file that the engines have looked at.
    pub fn conclude(
        &mut self,
        cycle: &mut Cycle,
        clamav: &ClamResult,
        argus: &ArgusVerdict,
        exclusions: &[String],
    ) -> (conclusion: IdleConclusion)
        requires
            old(cycle).scanned < old(cycle).limits.max_files,
        ensures
            final(self)@ == (IdleScanner {
                files_scanned: old(self).files_scanned.wrapping_add(1),
                ..old(self)@
            }),
            *final(cycle) == (Cycle { scanned: (old(cycle).scanned + 1) as u64, ..*old(cycle) }),
            owned_view(conclusion.quarantine) == united(
                clamav.infected,
                owned_view(clamav.virus_name),
                *argus,
                exclusions@,
            ),
            conclusion.record == remembered(
                clamav.error is Some,
                conclusion.quarantine is Some,
            ),
            conclusion.record == if clamav.error is None {
                Some(conclusion.quarantine is None)
            } else {
                None
            },
    {
        let name = match &clamav.virus_name {
            Some(name) => Some(name.as_str()),
            None => None,
        };
        let (is_threat, threat_name) = unify_detection_filtered(
            clamav.infected,
            name,
            argus,
            exclusions,
        );
        let record = if clamav.error.is_none() {
            Some(!is_threat)
        } else {
            None
        };
        cycle.scanned = cycle.scanned + 1;
        self.files_scanned = self.files_scanned.wrapping_add(1);
        IdleConclusion { record, quarantine: threat_name }
    }

    /// End a cycle. What to enter in the activity log comes back.
    pub fn finish_cycle(&mut self, cycle: &Cycle, now: i64) -> (event: ActivityEvent)
        ensures
            final(self)@ == (IdleScanner {
                state: IdleScannerState::Completed,
                current_target: ""@,
                last_completed: Some(now),
                ..old(self)@
            }),
            event@ == (ActivityEvent {
                severity: "info"@,
                category: "idle_scan"@,
                title: "Background scan complete — "@ + decimal(cycle.scanned as nat)
                    + " files checked"@,
                message: ""@,
                scan_id: None,
            }),
    {
        self.set_state(IdleScannerState::Completed);
        self.current_target = "".to_owned();
        self.last_completed = Some(now);
        let mut title = "Background scan complete — ".to_owned();
        title.append(decimal_text(cycle.scanned).as_str());
        title.append(" files checked");
        ActivityEvent::general("info", "idle_scan", title, "")
    }
}

/// Whether the engines look at a file: it is still there, not known to be clean,
/// and can be opened.
pub fn needs_scan(size_known: bool, cached_clean: Option<bool>, readable: bool) -> (yes: bool)
    ensures
        yes == worth_a_look(size_known, cached_clean, readable),
        yes == (size_known && cached_clean != Some(true) && readable),
{
    if !size_known {
        return false;
    }
    if let Some(clean) = cached_clean {
        if clean {
            return false;
        }
    }
    readable
}

/// The verdict on a file whose time was used up before the heuristics could run:
/// clean as far as they go.
pub fn unanalysed(path: &str, file_size: u64) -> (verdict: ArgusVerdict)
    ensures
        verdict.path@ == path@,
        verdict.file_size == file_size,
        verdict.score == 0,
        verdict.label@ == "Clean"@,
        verdict.findings@.len() == 0,
        verdict.timing is None,
{
    ArgusVerdict {
        path: path.to_owned(),
        file_size,
        score: 0,
        label: "Clean".to_owned(),
        findings: Vec::new(),
        timing: None,
    }
}

/// A cycle never scans more files than it may.
pub proof fn cycle_respects_its_limit(
    s: IdleScanner<Seq<char>>,
    cycle: Cycle,
    memory_pressure: bool,
    pause: Option<PauseReason>,
    away: bool,
    now: u64,
)
    ensures
        file_step(s, cycle, memory_pressure, pause, away, now) is Scan ==> cycle.scanned
            < cycle.limits.max_files,
{
}

/// No file is scanned under critical memory pressure, without capacity or after
/// the scanner was stopped.
pub proof fn scanner_yields(
    s: IdleScanner<Seq<char>>,
    cycle: Cycle,
    memory_pressure: bool,
    pause: Option<PauseReason>,
    away: bool,
    now: u64,
)
    requires
        memory_pressure || pause is Some || !s.running,
    ensures
        !(file_step(s, cycle, memory_pressure, pause, away, now) is Scan),
{
}

/// A scanner scans a file where it runs, may scan another one, has memory and nothing
/// makes it wait; it passes over a file for the time of the reason, and leaves the
/// directory otherwise.
pub proof fn scanner_goes_on_with_capacity(
    s: IdleScanner<Seq<char>>,
    cycle: Cycle,
    memory_pressure: bool,
    pause: Option<PauseReason>,
    away: bool,
    now: u64,
)
    ensures
        ({
            let goes_on = s.running && cycle.scanned < cycle.limits.max_files && !memory_pressure;
            let step = file_step(s, cycle, memory_pressure, pause, away, now);
            &&& step is LeaveTarget <==> !goes_on
            &&& step is Scan <==> goes_on && pause is None
            &&& goes_on && pause is Some ==> step == FileStep::PassAfter(pause_secs(pause->0))
            &&& step is Scan && away ==> step == FileStep::Scan(ScanSpeed::Fast)
            &&& step is Scan && !away && now > cycle.started + 300_000_000_000 ==> step
                == FileStep::Scan(ScanSpeed::Normal)
            &&& step is Scan && !away && now <= cycle.started + 300_000_000_000 ==> step
                == FileStep::Scan(ScanSpeed::Slow)
        }),
{
}

/// What the scanner shows is what it does: its speed while it scans, and the reason
/// while it waits.
pub proof fn scanner_shows_what_it_does(
    s: IdleScanner<Seq<char>>,
    cycle: Cycle,
    memory_pressure: bool,
    pause: Option<PauseReason>,
    away: bool,
    now: u64,
)
    ensures
        ({
            let step = file_step(s, cycle, memory_pressure, pause, away, now);
            let after = after_step(s, cycle, pause, step);
            &&& step == FileStep::Scan(ScanSpeed::Fast) ==> after.state is ScanningFast
            &&& step == FileStep::Scan(ScanSpeed::Normal) ==> after.state is ScanningNormal
            &&& step == FileStep::Scan(ScanSpeed::Slow) ==> after.state is ScanningSlow
            &&& step is PassAfter && pause == Some(PauseReason::Battery) ==> after.state
                is PausedBattery && after.last_pause_reason == "on_battery"@
            &&& step is PassAfter && pause == Some(PauseReason::Fullscreen) ==> after.state
                is PausedFullscreen && after.last_pause_reason == "fullscreen"@
            &&& step is PassAfter && pause == Some(PauseReason::HighCpu) ==> after.state
                is PausedCpu && after.last_pause_reason == "high_cpu"@
            &&& step is PassAfter && pause == Some(PauseReason::HighDisk) ==> after.state
                is PausedDisk && after.last_pause_reason == "high_disk"@
            &&& step is PassAfter && pause == Some(PauseReason::ScanRunning) ==> after.state
                is PausedScanRunning && after.last_pause_reason == "scan_running"@
            &&& memory_pressure && s.running && cycle.scanned < cycle.limits.max_files
                ==> after.state is PausedCpu && after.last_pause_reason == "memory_pressure"@
            &&& !s.running || cycle.scanned >= cycle.limits.max_files ==> after == s
            &&& after.running == s.running && after.files_scanned == s.files_scanned
                && after.current_target == s.current_target && after.last_completed
                == s.last_completed
        }),
{
}

/// Memory pressure makes the scanner wait before any other reason.
pub proof fn memory_pressure_goes_first(memory_pressure: bool, pause: Option<PauseReason>)
    ensures
        memory_pressure ==> waits_for(memory_pressure, pause) == Some(
            PauseReason::MemoryPressure,
        ),
        !memory_pressure ==> waits_for(memory_pressure, pause) == pause,
{
}

/// A scanner that is on may scan as many files of such a size as configured.
pub proof fn settings_limit_a_cycle(settings: IdleSettings)
    requires
        settings.max_file_size_mb * 1_048_576 <= u64::MAX,
    ensures
        settings.enabled <==> limits_of(settings) is Some,
        limits_of(settings) matches Some(l) ==> l.max_file_size == settings.max_file_size_mb
            * 1024 * 1024 && l.max_files == settings.max_files_per_session,
{
}

/// Each speed has the delays that are configured for it.
pub proof fn delays_follow_the_speed(s: IdleSettings)
    ensures
        delays(s, ScanSpeed::Slow) == (s.slow_delay_min_ms, s.slow_delay_max_ms),
        delays(s, ScanSpeed::Normal) == (s.normal_delay_min_ms, s.normal_delay_max_ms),
        delays(s, ScanSpeed::Fast) == (s.fast_delay_min_ms, s.fast_delay_max_ms),
{
}

/// A threat is never remembered as clean, and nothing is remembered of a file that
/// the engine failed on.
pub proof fn threats_are_not_remembered_as_clean(engine_failed: bool, threat: bool)
    ensures
        engine_failed ==> remembered(engine_failed, threat) is None,
        !engine_failed ==> (remembered(engine_failed, threat) == Some(true) <==> !threat),
        remembered(engine_failed, threat) is Some <==> !engine_failed,
{
}

/// The engines look at every file that is there and can be opened, unless it is known
/// to be clean.
pub proof fn unknown_files_are_looked_at(
    size_known: bool,
    cached_clean: Option<bool>,
    readable: bool,
)
    ensures
        cached_clean == Some(true) ==> !worth_a_look(size_known, cached_clean, readable),
        cached_clean != Some(true) ==> (worth_a_look(size_known, cached_clean, readable)
            <==> size_known && readable),
{
}

/// The scanner looks at downloads, desktop, temporary and application data, and
/// documents, in this order, each where the environment says it is.
pub proof fn likeliest_places_come_first(
    home: Seq<char>,
    temp: Option<Seq<char>>,
    appdata: Option<Seq<char>>,
    localappdata: Option<Seq<char>>,
)
    ensures
        ({
            let places = idle_places(home, temp, appdata, localappdata);
            &&& places.len() == 6
            &&& places[0] == home + "\\Downloads"@
            &&& places[1] == home + "\\Desktop"@
            &&& temp matches Some(t) ==> places[2] == t
            &&& temp is None ==> places[2] == home + "\\AppData\\Local\\Temp"@
            &&& appdata matches Some(t) ==> places[3] == t
            &&& appdata is None ==> places[3] == home + "\\AppData\\Roaming"@
            &&& localappdata matches Some(t) ==> places[4] == t
            &&& localappdata is None ==> places[4] == home + "\\AppData\\Local"@
            &&& places[5] == home + "\\Documents"@
        }),
{
}

/// The words for the scanner's states differ.
pub proof fn idle_words_differ(a: IdleScannerState, b: IdleScannerState)
    ensures
        a != b ==> idle_word(a) != idle_word(b),
        a is Disabled ==> idle_word(a) == "disabled"@,
        a is WaitingForCapacity ==> idle_word(a) == "waiting_for_capacity"@,
        a is ScanningSlow ==> idle_word(a) == "scanning_slow"@,
        a is ScanningNormal ==> idle_word(a) == "scanning_normal"@,
        a is ScanningFast ==> idle_word(a) == "scanning_fast"@,
        a is PausedCpu ==> idle_word(a) == "paused_cpu"@,
        a is PausedDisk ==> idle_word(a) == "paused_disk"@,
        a is PausedFullscreen ==> idle_word(a) == "paused_fullscreen"@,
        a is PausedBattery ==> idle_word(a) == "paused_battery"@,
        a is PausedScanRunning ==> idle_word(a) == "paused_scan_running"@,
        a is Completed ==> idle_word(a) == "completed"@,
{
    reveal_strlit("disabled");
    reveal_strlit("waiting_for_capacity");
    reveal_strlit("scanning_slow");
    reveal_strlit("scanning_normal");
    reveal_strlit("scanning_fast");
    reveal_strlit("paused_cpu");
    reveal_strlit("paused_disk");
    reveal_strlit("paused_fullscreen");
    reveal_strlit("paused_battery");
    reveal_strlit("paused_scan_running");
    reveal_strlit("completed");
    assert("disabled"@.len() == 8);
    assert("waiting_for_capacity"@.len() == 20);
    assert("scanning_slow"@.len() == 13 && "scanning_slow"@[9] == 's');
    assert("scanning_normal"@.len() == 15);
    assert("scanning_fast"@.len() == 13 && "scanning_fast"@[9] == 'f');
    assert("paused_cpu"@.len() == 10);
    assert("paused_disk"@.len() == 11);
    assert("paused_fullscreen"@.len() == 17);
    assert("paused_battery"@.len() == 14);
    assert("paused_scan_running"@.len() == 19);
    assert("completed"@.len() == 9);
}

/// Each reason to wait shows as its own state; memory pressure shows as load.
pub proof fn reason_shows_in_the_state(reason: PauseReason)
    ensures
        paused(reason) is PausedBattery <==> reason is Battery,
        paused(reason) is PausedFullscreen <==> reason is Fullscreen,
        paused(reason) is PausedDisk <==> reason is HighDisk,
        paused(reason) is PausedScanRunning <==> reason is ScanRunning,
        paused(reason) is PausedCpu <==> reason is HighCpu || reason is MemoryPressure,
{
}

} // verus!
