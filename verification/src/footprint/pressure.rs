//! Memory pressure: how the working set is classed and what follows from it.
//!
//! Nothing here frees memory; other parts of the daemon act on the class.

use crate::config::PerformanceConfig;
use crate::text::{decimal, decimal_text, texts};
use vstd::prelude::*;

verus! {

/// Class of the working set.
#[derive(Debug, Clone, Copy, PartialEq, Eq, Structural)]
pub enum PressureState {
    /// Up to 800 MB.
    Normal,
    /// Above 800 MB: watched, nothing is done yet.
    Elevated,
    /// Above the warning threshold: heavy work moves to other processes.
    Warning,
    /// Above the critical threshold: background work stops.
    Critical,
}

/// The level of a class, from 0 to 3.
pub open spec fn level(state: PressureState) -> u8 {
    match state {
        PressureState::Normal => 0,
        PressureState::Elevated => 1,
        PressureState::Warning => 2,
        PressureState::Critical => 3,
    }
}

/// The class of a level; anything above 2 is critical.
pub open spec fn state_of(v: u8) -> PressureState {
    if v == 0 {
        PressureState::Normal
    } else if v == 1 {
        PressureState::Elevated
    } else if v == 2 {
        PressureState::Warning
    } else {
        PressureState::Critical
    }
}

/// The word for a class.
pub open spec fn pressure_word(state: PressureState) -> Seq<char> {
    match state {
        PressureState::Normal => "normal"@,
        PressureState::Elevated => "elevated"@,
        PressureState::Warning => "warning"@,
        PressureState::Critical => "critical"@,
    }
}

impl PressureState {
    pub fn as_u8(self) -> (v: u8)
        ensures
            v == level(self),
    {
        match self {
            PressureState::Normal => 0,
            PressureState::Elevated => 1,
            PressureState::Warning => 2,
            PressureState::Critical => 3,
        }
    }

    pub fn from_u8(v: u8) -> (state: Self)
        ensures
            state == state_of(v),
    {
        match v {
            0 => PressureState::Normal,
            1 => PressureState::Elevated,
            2 => PressureState::Warning,
            _ => PressureState::Critical,
        }
    }

    /// The word that reports use.
    pub fn as_str(self) -> (word: &'static str)
        ensures
            word@ == pressure_word(self),
    {
        match self {
            PressureState::Normal => "normal",
            PressureState::Elevated => "elevated",
            PressureState::Warning => "warning",
            PressureState::Critical => "critical",
        }
    }
}

/// The class of a working set.
pub open spec fn class_of(working_set_mb: int, config: PerformanceConfig) -> PressureState {
    if working_set_mb > config.memory_critical_mb {
        PressureState::Critical
    } else if working_set_mb > config.memory_warning_mb {
        PressureState::Warning
    } else if working_set_mb > 800 {
        PressureState::Elevated
    } else {
        PressureState::Normal
    }
}

pub fn classify(working_set_mb: u64, config: &PerformanceConfig) -> (state: PressureState)
    ensures
        state == class_of(working_set_mb as int, *config),
{
    if working_set_mb > config.memory_critical_mb {
        PressureState::Critical
    } else if working_set_mb > config.memory_warning_mb {
        PressureState::Warning
    } else if working_set_mb > 800 {
        PressureState::Elevated
    } else {
        PressureState::Normal
    }
}

/// What the working set must exceed to come into a class.
pub open spec fn entry_of(state: PressureState, config: PerformanceConfig) -> u64 {
    match state {
        PressureState::Normal => 0,
        PressureState::Elevated => 800,
        PressureState::Warning => config.memory_warning_mb,
        PressureState::Critical => config.memory_critical_mb,
    }
}

pub fn entry_threshold(state: PressureState, config: &PerformanceConfig) -> (mb: u64)
    ensures
        mb == entry_of(state, *config),
{
    match state {
        PressureState::Normal => 0,
        PressureState::Elevated => 800,
        PressureState::Warning => config.memory_warning_mb,
        PressureState::Critical => config.memory_critical_mb,
    }
}

/// How far below the threshold of its class the working set must fall before the
/// class steps down, in MB.
pub const HYSTERESIS_MARGIN_MB: u64 = 128;

/// What follows from a class.
#[derive(Debug, Clone)]
pub struct PressurePolicy {
    pub state: PressureState,
    pub working_set_mb: u64,
    /// Whether analysis moves to another process.
    pub prefer_external_argus: bool,
    /// Whether the idle scanner pauses.
    pub pause_idle_scanner: bool,
    /// Whether new full scans are refused.
    pub reject_full_scans: bool,
    /// Workers to keep; zero leaves the number alone.
    pub max_resident_workers: u32,
    /// The measures by name.
    pub actions: Vec<String>,
}

/// Whether a class asks for less memory.
pub open spec fn under_pressure(state: PressureState) -> bool {
    state is Warning || state is Critical
}

/// The measures of a class by name.
pub open spec fn actions_of(state: PressureState, config: PerformanceConfig) -> Seq<Seq<char>> {
    let route = if under_pressure(state) && config.external_argus_under_pressure {
        seq!["route_argus_to_external_worker"@]
    } else {
        Seq::empty()
    };
    let stop = if state is Critical {
        seq!["pause_idle_scanner"@, "reject_new_full_scans"@]
    } else {
        Seq::empty()
    };
    let reduce = if under_pressure(state) && config.max_resident_workers_on_pressure > 0 {
        seq![
            "reduce_resident_workers_to_"@ + decimal(
                config.max_resident_workers_on_pressure as nat,
            ),
        ]
    } else {
        Seq::empty()
    };
    route + stop + reduce
}

/// Whether analysis moves to another process.
pub open spec fn external_preferred(state: PressureState, config: PerformanceConfig) -> bool {
    under_pressure(state) && config.external_argus_under_pressure
}

/// Whether background work and new full scans stop.
pub open spec fn background_stops(state: PressureState) -> bool {
    state is Critical
}

/// Workers to keep; zero leaves the number alone.
pub open spec fn workers_kept(state: PressureState, config: PerformanceConfig) -> u32 {
    if under_pressure(state) {
        config.max_resident_workers_on_pressure
    } else {
        0
    }
}

impl PressurePolicy {
    /// The policy for a working set.
    pub fn evaluate(working_set_mb: u64, config: &PerformanceConfig) -> (policy: Self)
        ensures
            policy.prefer_external_argus == external_preferred(policy.state, *config),
            policy.pause_idle_scanner == background_stops(policy.state),
            policy.reject_full_scans == background_stops(policy.state),
            policy.max_resident_workers == workers_kept(policy.state, *config),
            policy.state == class_of(working_set_mb as int, *config),
            policy.working_set_mb == working_set_mb,
            policy.prefer_external_argus == (under_pressure(policy.state)
                && config.external_argus_under_pressure),
            policy.pause_idle_scanner == policy.state is Critical,
            policy.reject_full_scans == policy.state is Critical,
            policy.max_resident_workers == if under_pressure(policy.state) {
                config.max_resident_workers_on_pressure
            } else {
                0
            },
            texts(policy.actions@) == actions_of(policy.state, *config),
    {
        let state = classify(working_set_mb, config);
        let mut actions: Vec<String> = Vec::new();
        let pressed = matches!(state, PressureState::Warning | PressureState::Critical);
        let critical = matches!(state, PressureState::Critical);
        let external = pressed && config.external_argus_under_pressure;
        if external {
            actions.push("route_argus_to_external_worker".to_owned());
        }
        if critical {
            actions.push("pause_idle_scanner".to_owned());
            actions.push("reject_new_full_scans".to_owned());
        }
        let workers: u32 = if pressed {
            config.max_resident_workers_on_pressure
        } else {
            0
        };
        if workers > 0 {
            let mut name = "reduce_resident_workers_to_".to_owned();
            name.append(decimal_text(workers as u64).as_str());
            actions.push(name);
        }
        assert(texts(actions@) =~= actions_of(state, *config));
        PressurePolicy {
            state,
            working_set_mb,
            prefer_external_argus: external,
            pause_idle_scanner: critical,
            reject_full_scans: critical,
            max_resident_workers: workers,
            actions,
        }
    }
}

/// The class after a measurement. A step up is immediate; a step down waits until
/// the working set is the margin or more below the threshold of the class it
/// leaves.
pub open spec fn next_state(
    before: PressureState,
    working_set_mb: int,
    config: PerformanceConfig,
) -> PressureState {
    let raw = class_of(working_set_mb, config);
    if level(raw) < level(before) && working_set_mb + HYSTERESIS_MARGIN_MB > entry_of(
        before,
        config,
    ) {
        before
    } else {
        raw
    }
}

/// The class in force.
pub struct PressureTracker {
    state: u8,
}

impl PressureTracker {
    /// The class in force.
    pub closed spec fn view(&self) -> PressureState {
        state_of(self.state)
    }

    pub fn new() -> (tracker: Self)
        ensures
            tracker@ is Normal,
    {
        PressureTracker { state: PressureState::Normal.as_u8() }
    }

    /// Take in a measurement. The class that holds from now on comes back.
    pub fn update(&mut self, working_set_mb: u64, config: &PerformanceConfig) -> (state:
        PressureState)
        ensures
            state == next_state(old(self)@, working_set_mb as int, *config),
            final(self)@ == state,
    {
        let raw = classify(working_set_mb, config);
        let before = self.current();
        let state = if raw.as_u8() < before.as_u8() {
            let entry = entry_threshold(before, config);
            if working_set_mb as u128 + HYSTERESIS_MARGIN_MB as u128 > entry as u128 {
                before
            } else {
                raw
            }
        } else {
            raw
        };
        self.state = state.as_u8();
        state
    }

    pub fn current(&self) -> (state: PressureState)
        ensures
            state == self@,
    {
        PressureState::from_u8(self.state)
    }

    /// Whether analysis moves to another process.
    pub fn prefer_external_argus(&self) -> (prefer: bool)
        ensures
            prefer == under_pressure(self@),
    {
        matches!(self.current(), PressureState::Warning | PressureState::Critical)
    }

    /// Whether the idle scanner pauses.
    pub fn should_pause_idle(&self) -> (pause: bool)
        ensures
            pause == self@ is Critical,
            pause == background_stops(self@),
    {
        matches!(self.current(), PressureState::Critical)
    }
}

/// Percentages of the memory at which the warning and the critical class begin.
pub open spec fn percentages(profile: Seq<char>) -> (nat, nat) {
    if profile == "low"@ {
        (12, 22)
    } else if profile == "aggressive"@ {
        (30, 50)
    } else {
        (20, 35)
    }
}

/// Whether 35 per cent of `total`, worked out in double precision, comes out just
/// below the whole number that it is: the binary fraction nearest to 0.35 is a
/// little smaller, and for these totals rounding does not make up for it. Totals
/// whose share is below the floor are left aside.
pub open spec fn falls_short(total: nat) -> bool {
    total % 20 == 0 && (5120 < total < 5860 || 10240 < total < 11720)
}

/// A percentage of a total in whole MB.
pub open spec fn share(total: nat, percent: nat) -> int {
    if percent == 35 && falls_short(total) {
        total * percent / 100 - 1
    } else {
        (total * percent / 100) as int
    }
}

/// `n`, or the nearer bound where it lies outside them.
pub open spec fn clamped(n: int, lo: int, hi: int) -> int {
    if n < lo {
        lo
    } else if n > hi {
        hi
    } else {
        n
    }
}

/// Warning and critical threshold for a machine with `total_ram_mb` of memory.
pub open spec fn thresholds_for(total_ram_mb: nat, profile: Seq<char>) -> (int, int) {
    let warning = clamped(share(total_ram_mb, percentages(profile).0), 512, 3072);
    let critical = clamped(share(total_ram_mb, percentages(profile).1), 1024, 4096);
    (
        warning,
        if critical <= warning {
            warning + 256
        } else {
            critical
        },
    )
}

fn share_within(total: u64, percent: u64, lo: u64, hi: u64) -> (mb: u64)
    requires
        percent <= 100,
        0 < lo <= hi,
    ensures
        mb == clamped(share(total as nat, percent as nat), lo as int, hi as int),
{
    assert(0 <= total * percent <= u64::MAX * 100) by (nonlinear_arith)
        requires
            0 <= total <= u64::MAX,
            0 <= percent <= 100,
    ;
    let exact: u128 = total as u128 * percent as u128 / 100;
    let short = percent == 35 && total % 20 == 0 && ((5120 < total && total < 5860) || (10240
        < total && total < 11720));
    let mb: u128 = if short {
        exact - 1
    } else {
        exact
    };
    if mb < lo as u128 {
        lo
    } else if mb > hi as u128 {
        hi
    } else {
        mb as u64
    }
}

/// Thresholds that back off at about the same fraction of any machine's memory,
/// with a floor for small machines and a ceiling for large ones.
pub fn ram_relative_thresholds(total_ram_mb: u64, profile: &str) -> (thresholds: (u64, u64))
    ensures
        thresholds.0 == thresholds_for(total_ram_mb as nat, profile@).0,
        thresholds.1 == thresholds_for(total_ram_mb as nat, profile@).1,
{
    let (warn, crit): (u64, u64) = if *profile == *"low" {
        (12, 22)
    } else if *profile == *"aggressive" {
        (30, 50)
    } else {
        (20, 35)
    };
    let warning: u64 = share_within(total_ram_mb, warn, 512, 3072);
    let mut critical: u64 = share_within(total_ram_mb, crit, 1024, 4096);
    if critical <= warning {
        critical = warning + 256;
    }
    (warning, critical)
}

/// A class is read back as it was written.
pub proof fn state_survives_encoding(state: PressureState)
    ensures
        state_of(level(state)) == state,
{
}

/// A larger working set is never in a lower class.
pub proof fn class_is_monotone(smaller: int, larger: int, config: PerformanceConfig)
    requires
        smaller <= larger,
    ensures
        level(class_of(smaller, config)) <= level(class_of(larger, config)),
{
}

/// A step up is never held back.
pub proof fn step_up_is_immediate(
    before: PressureState,
    working_set_mb: int,
    config: PerformanceConfig,
)
    requires
        level(class_of(working_set_mb, config)) >= level(before),
    ensures
        next_state(before, working_set_mb, config) == class_of(working_set_mb, config),
{
}

/// A working set that stays within the margin below the threshold of the class in
/// force does not move the class down, however often it is measured.
pub proof fn hovering_does_not_flap(
    before: PressureState,
    measured: Seq<int>,
    config: PerformanceConfig,
)
    requires
        forall|i: int|
            0 <= i < measured.len() ==> {
                &&& (#[trigger] measured[i]) + HYSTERESIS_MARGIN_MB > entry_of(before, config)
                &&& level(class_of(measured[i], config)) <= level(before)
            },
    ensures
        after_all(before, measured, config) == before,
    decreases measured.len(),
{
    if measured.len() > 0 {
        let rest = measured.drop_last();
        assert forall|i: int| 0 <= i < rest.len() implies {
            &&& (#[trigger] rest[i]) + HYSTERESIS_MARGIN_MB > entry_of(before, config)
            &&& level(class_of(rest[i], config)) <= level(before)
        } by {
            assert(rest[i] == measured[i]);
        }
        hovering_does_not_flap(before, rest, config);
        let last = measured[measured.len() - 1];
        assert(level(class_of(last, config)) <= level(before));
    }
}

/// The class after several measurements.
pub open spec fn after_all(
    before: PressureState,
    measured: Seq<int>,
    config: PerformanceConfig,
) -> PressureState
    decreases measured.len(),
{
    if measured.len() == 0 {
        before
    } else {
        next_state(after_all(before, measured.drop_last(), config), measured.last(), config)
    }
}

/// A working set that falls the margin below the threshold of its class is
/// classed anew.
pub proof fn clear_fall_steps_down(
    before: PressureState,
    working_set_mb: int,
    config: PerformanceConfig,
)
    requires
        working_set_mb + HYSTERESIS_MARGIN_MB <= entry_of(before, config),
    ensures
        next_state(before, working_set_mb, config) == class_of(working_set_mb, config),
{
}

/// The class in force is never below the class of the latest measurement.
pub proof fn pressure_is_never_understated(
    before: PressureState,
    working_set_mb: int,
    config: PerformanceConfig,
)
    ensures
        level(next_state(before, working_set_mb, config)) >= level(
            class_of(working_set_mb, config),
        ),
{
}

/// The warning comes before the critical threshold, and both stay within their
/// bounds, on any machine.
pub proof fn thresholds_are_ordered(total_ram_mb: nat, profile: Seq<char>)
    ensures
        512 <= thresholds_for(total_ram_mb, profile).0 <= 3072,
        1024 <= thresholds_for(total_ram_mb, profile).1 <= 4096,
        thresholds_for(total_ram_mb, profile).0 < thresholds_for(total_ram_mb, profile).1,
{
}

proof fn lemma_share_monotone(less: nat, more: nat, percent: nat)
    requires
        less <= more,
        0 < percent <= 100,
    ensures
        share(less, percent) <= share(more, percent),
{
    assert(less * percent <= more * percent) by (nonlinear_arith)
        requires
            less <= more,
    ;
    if percent == 35 && falls_short(more) && less < more {
        assert(less * 35 / 100 < more * 35 / 100);
    }
}

/// More memory never lowers a threshold.
pub proof fn more_memory_never_lowers_thresholds(less: nat, more: nat, profile: Seq<char>)
    requires
        less <= more,
    ensures
        thresholds_for(less, profile).0 <= thresholds_for(more, profile).0,
        thresholds_for(less, profile).1 <= thresholds_for(more, profile).1,
{
    lemma_share_monotone(less, more, percentages(profile).0);
    lemma_share_monotone(less, more, percentages(profile).1);
}

/// On the same machine the profiles are in order: "low" backs off first,
/// "aggressive" last.
pub proof fn profiles_are_ordered(total_ram_mb: nat)
    ensures
        thresholds_for(total_ram_mb, "low"@).0 <= thresholds_for(total_ram_mb, "normal"@).0,
        thresholds_for(total_ram_mb, "normal"@).0 <= thresholds_for(
            total_ram_mb,
            "aggressive"@,
        ).0,
        thresholds_for(total_ram_mb, "low"@).1 <= thresholds_for(total_ram_mb, "normal"@).1,
        thresholds_for(total_ram_mb, "normal"@).1 <= thresholds_for(
            total_ram_mb,
            "aggressive"@,
        ).1,
{
    reveal_strlit("low");
    reveal_strlit("normal");
    reveal_strlit("aggressive");
    assert("low"@.len() == 3 && "normal"@.len() == 6 && "aggressive"@.len() == 10);
    assert(percentages("low"@) == (12nat, 22nat));
    assert(percentages("normal"@) == (20nat, 35nat));
    assert(percentages("aggressive"@) == (30nat, 50nat));
    let t = total_ram_mb;
    assert(share(t, 12) <= share(t, 20) <= share(t, 30));
    assert(share(t, 22) <= share(t, 35) <= share(t, 50));
}

/// The class of a working set is told by the thresholds: 800 megabytes, the warning
/// and the critical one, each to be exceeded.
pub proof fn thresholds_tell_the_class(working_set_mb: int, config: PerformanceConfig)
    requires
        800 <= config.memory_warning_mb <= config.memory_critical_mb,
    ensures
        class_of(working_set_mb, config) is Normal <==> working_set_mb <= 800,
        class_of(working_set_mb, config) is Elevated <==> 800 < working_set_mb
            <= config.memory_warning_mb,
        class_of(working_set_mb, config) is Warning <==> config.memory_warning_mb < working_set_mb
            <= config.memory_critical_mb,
        class_of(working_set_mb, config) is Critical <==> working_set_mb
            > config.memory_critical_mb,
{
}

/// A class steps down once the working set is 128 megabytes or more below the
/// threshold that it was entered by, and not before.
pub proof fn margin_is_128(before: PressureState, working_set_mb: int, config: PerformanceConfig)
    requires
        level(class_of(working_set_mb, config)) < level(before),
    ensures
        next_state(before, working_set_mb, config) == before <==> working_set_mb > entry_of(
            before,
            config,
        ) - 128,
        before is Elevated ==> entry_of(before, config) == 800,
        before is Warning ==> entry_of(before, config) == config.memory_warning_mb,
        before is Critical ==> entry_of(before, config) == config.memory_critical_mb,
{
}

/// What is done rises with the class: nothing below a warning, less work in this
/// process from a warning on, and no background work and no new full scan in the
/// critical class alone. Each measure is told by its name.
pub proof fn measures_rise_with_pressure(state: PressureState, config: PerformanceConfig)
    ensures
        ({
            let actions = actions_of(state, config);
            let pressed = state is Warning || state is Critical;
            &&& external_preferred(state, config) <==> pressed
                && config.external_argus_under_pressure
            &&& background_stops(state) <==> state is Critical
            &&& pressed ==> workers_kept(state, config)
                == config.max_resident_workers_on_pressure
            &&& !pressed ==> workers_kept(state, config) == 0 && actions.len() == 0
            &&& actions.contains("route_argus_to_external_worker"@) <==> external_preferred(
                state,
                config,
            )
            &&& actions.contains("pause_idle_scanner"@) <==> state is Critical
            &&& actions.contains("reject_new_full_scans"@) <==> state is Critical
            &&& pressed && config.max_resident_workers_on_pressure > 0 ==> actions.last()
                == "reduce_resident_workers_to_"@ + decimal(
                config.max_resident_workers_on_pressure as nat,
            )
        }),
{
    reveal_strlit("route_argus_to_external_worker");
    reveal_strlit("pause_idle_scanner");
    reveal_strlit("reject_new_full_scans");
    reveal_strlit("reduce_resident_workers_to_");
    let a = "route_argus_to_external_worker"@;
    let b = "pause_idle_scanner"@;
    let c = "reject_new_full_scans"@;
    let d = "reduce_resident_workers_to_"@ + decimal(
        config.max_resident_workers_on_pressure as nat,
    );
    assert(a.len() == 30 && b.len() == 18 && c.len() == 21);
    assert(a[1] == 'o' && b[0] == 'p' && c[2] == 'j' && d[2] == 'd' && d[1] == 'e');
    let all = actions_of(state, config);
    let r: int = if external_preferred(state, config) {
        1
    } else {
        0
    };
    if external_preferred(state, config) {
        assert(all[0] == a);
    }
    if state is Critical {
        assert(all[r] == b);
        assert(all[r + 1] == c);
    }
}

/// The words for the classes differ.
pub proof fn pressure_words_differ(a: PressureState, b: PressureState)
    ensures
        a != b ==> pressure_word(a) != pressure_word(b),
        a is Normal ==> pressure_word(a) == "normal"@,
        a is Elevated ==> pressure_word(a) == "elevated"@,
        a is Warning ==> pressure_word(a) == "warning"@,
        a is Critical ==> pressure_word(a) == "critical"@,
{
    reveal_strlit("normal");
    reveal_strlit("elevated");
    reveal_strlit("warning");
    reveal_strlit("critical");
    assert("normal"@.len() == 6 && "warning"@.len() == 7);
    assert("elevated"@[0] == 'e' && "critical"@[0] == 'c');
    assert("elevated"@.len() == 8 && "critical"@.len() == 8);
}

/// Within its bounds a threshold is the profile's share of the memory: 12 and 22 per
/// cent for a low profile, 30 and 50 for an aggressive one, 20 and 35 else, the last
/// to a megabyte.
pub proof fn thresholds_are_shares_of_memory(total_ram_mb: nat, profile: Seq<char>)
    ensures
        ({
            let (warning, critical) = thresholds_for(total_ram_mb, profile);
            let (w, c): (nat, nat) = if profile == "low"@ {
                (12, 22)
            } else if profile == "aggressive"@ {
                (30, 50)
            } else {
                (20, 35)
            };
            &&& 512 <= total_ram_mb * w / 100 <= 3072 ==> warning == total_ram_mb * w / 100
            &&& total_ram_mb * w / 100 < 512 ==> warning == 512
            &&& total_ram_mb * w / 100 > 3072 ==> warning == 3072
            &&& c != 35 && warning < total_ram_mb * c / 100 && 1024 <= total_ram_mb * c / 100
                <= 4096 ==> critical == total_ram_mb * c / 100
            &&& c == 35 && warning + 1 < total_ram_mb * c / 100 && 1024 < total_ram_mb * c / 100
                <= 4096 ==> total_ram_mb * c / 100 - 1 <= critical <= total_ram_mb * c / 100
        }),
{
}

} // verus!
