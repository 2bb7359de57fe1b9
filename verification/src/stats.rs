//! What the daemon says about itself as a whole.

use crate::footprint::FootprintSnapshot;
use crate::idle_scanner::IdleScannerState;
use crate::scan::job::{records_view, ScanRecord};
use crate::text::{decimal, decimal_text, join, joined, owned_view, texts};
use vstd::prelude::*;

verus! {

/// A time span in words, with two or three units.
pub open spec fn uptime_words(secs: nat) -> Seq<char> {
    let d = secs / 86400;
    let h = (secs % 86400) / 3600;
    let m = (secs % 3600) / 60;
    let s = secs % 60;
    if d > 0 {
        decimal(d) + "d "@ + decimal(h) + "h "@ + decimal(m) + "m"@
    } else if h > 0 {
        decimal(h) + "h "@ + decimal(m) + "m "@ + decimal(s) + "s"@
    } else if m > 0 {
        decimal(m) + "m "@ + decimal(s) + "s"@
    } else {
        decimal(s) + "s"@
    }
}

pub fn format_uptime(secs: u64) -> (text: String)
    ensures
        text@ == uptime_words(secs as nat),
{
    let d: u64 = secs / 86400;
    let h: u64 = (secs % 86400) / 3600;
    let m: u64 = (secs % 3600) / 60;
    let s: u64 = secs % 60;
    if d > 0 {
        let mut text = decimal_text(d);
        text.append("d ");
        text.append(decimal_text(h).as_str());
        text.append("h ");
        text.append(decimal_text(m).as_str());
        text.append("m");
        text
    } else if h > 0 {
        let mut text = decimal_text(h);
        text.append("h ");
        text.append(decimal_text(m).as_str());
        text.append("m ");
        text.append(decimal_text(s).as_str());
        text.append("s");
        text
    } else if m > 0 {
        let mut text = decimal_text(m);
        text.append("m ");
        text.append(decimal_text(s).as_str());
        text.append("s");
        text
    } else {
        let mut text = decimal_text(s);
        text.append("s");
        text
    }
}

/// How well the machine is protected.
#[derive(Debug, Clone, Copy, PartialEq, Eq, Structural)]
pub enum ProtectionState {
    UserDisabled,
    FullyProtected,
    Degraded,
    Minimal,
    Unprotected,
}

/// The word for a state.
pub open spec fn protection_word(state: ProtectionState) -> Seq<char> {
    match state {
        ProtectionState::UserDisabled => "user_disabled"@,
        ProtectionState::FullyProtected => "fully_protected"@,
        ProtectionState::Degraded => "degraded"@,
        ProtectionState::Minimal => "minimal"@,
        ProtectionState::Unprotected => "unprotected"@,
    }
}

impl ProtectionState {
    pub fn as_str(self) -> (word: &'static str)
        ensures
            word@ == protection_word(self),
    {
        match self {
            ProtectionState::UserDisabled => "user_disabled",
            ProtectionState::FullyProtected => "fully_protected",
            ProtectionState::Degraded => "degraded",
            ProtectionState::Minimal => "minimal",
            ProtectionState::Unprotected => "unprotected",
        }
    }
}

/// What protects the machine at the moment.
#[derive(Debug, Clone, Copy, PartialEq, Eq, Structural)]
pub struct Shields {
    /// The user switched protection off.
    pub user_disabled: bool,
    pub engine: bool,
    pub watcher: bool,
    /// Layers of the heuristics that are active.
    pub argus_layers: u32,
    pub yara_rules: u64,
}

/// The state that follows from the shields.
pub open spec fn protection(s: Shields) -> ProtectionState {
    if s.user_disabled {
        ProtectionState::UserDisabled
    } else if !s.engine {
        ProtectionState::Unprotected
    } else if s.argus_layers == 0 {
        ProtectionState::Minimal
    } else if s.watcher && s.yara_rules > 0 {
        ProtectionState::FullyProtected
    } else {
        ProtectionState::Degraded
    }
}

pub fn protection_state(s: Shields) -> (state: ProtectionState)
    ensures
        state == protection(s),
{
    if s.user_disabled {
        return ProtectionState::UserDisabled;
    }
    let argus_ok = s.argus_layers > 0;
    let yara_ok = s.yara_rules > 0;
    if s.engine && s.watcher && argus_ok && yara_ok {
        ProtectionState::FullyProtected
    } else if s.engine && argus_ok {
        ProtectionState::Degraded
    } else if s.engine {
        ProtectionState::Minimal
    } else {
        ProtectionState::Unprotected
    }
}

/// What is missing.
pub open spec fn issues(s: Shields) -> Seq<Seq<char>> {
    (if s.engine {
        Seq::empty()
    } else {
        seq!["ClamAV engine unavailable"@]
    }) + (if s.watcher {
        Seq::empty()
    } else {
        seq!["Real-time watcher inactive"@]
    }) + (if s.yara_rules == 0 {
        seq!["No YARA rules loaded"@]
    } else {
        Seq::empty()
    })
}

/// What is missing, in words; nothing where nothing is.
pub open spec fn detail_of(s: Shields) -> Option<Seq<char>> {
    if issues(s).len() == 0 {
        None
    } else {
        Some(joined(issues(s), "; "@))
    }
}

pub fn protection_detail(s: Shields) -> (detail: Option<String>)
    ensures
        owned_view(detail) == detail_of(s),
        owned_view(detail) == if issues(s).len() == 0 {
            None
        } else {
            Some(joined(issues(s), "; "@))
        },
{
    let mut list: Vec<String> = Vec::new();
    if !s.engine {
        list.push("ClamAV engine unavailable".to_owned());
    }
    if !s.watcher {
        list.push("Real-time watcher inactive".to_owned());
    }
    if s.yara_rules == 0 {
        list.push("No YARA rules loaded".to_owned());
    }
    assert(texts(list@) =~= issues(s));
    if list.len() == 0 {
        None
    } else {
        Some(join(&list, "; "))
    }
}

/// The scanner's state as one word without separators.
pub open spec fn idle_plain_word(state: IdleScannerState) -> Seq<char> {
    match state {
        IdleScannerState::Disabled => "disabled"@,
        IdleScannerState::WaitingForCapacity => "waitingforcapacity"@,
        IdleScannerState::ScanningSlow => "scanningslow"@,
        IdleScannerState::ScanningNormal => "scanningnormal"@,
        IdleScannerState::ScanningFast => "scanningfast"@,
        IdleScannerState::PausedCpu => "pausedcpu"@,
        IdleScannerState::PausedDisk => "pauseddisk"@,
        IdleScannerState::PausedFullscreen => "pausedfullscreen"@,
        IdleScannerState::PausedBattery => "pausedbattery"@,
        IdleScannerState::PausedScanRunning => "pausedscanrunning"@,
        IdleScannerState::Completed => "completed"@,
    }
}

pub fn idle_plain(state: IdleScannerState) -> (word: &'static str)
    ensures
        word@ == idle_plain_word(state),
{
    match state {
        IdleScannerState::Disabled => "disabled",
        IdleScannerState::WaitingForCapacity => "waitingforcapacity",
        IdleScannerState::ScanningSlow => "scanningslow",
        IdleScannerState::ScanningNormal => "scanningnormal",
        IdleScannerState::ScanningFast => "scanningfast",
        IdleScannerState::PausedCpu => "pausedcpu",
        IdleScannerState::PausedDisk => "pauseddisk",
        IdleScannerState::PausedFullscreen => "pausedfullscreen",
        IdleScannerState::PausedBattery => "pausedbattery",
        IdleScannerState::PausedScanRunning => "pausedscanrunning",
        IdleScannerState::Completed => "completed",
    }
}

/// Threats in the scans of a history.
pub open spec fn threats_in(history: Seq<ScanRecord<Seq<char>>>) -> nat
    decreases history.len(),
{
    if history.len() == 0 {
        0
    } else {
        threats_in(history.drop_last()) + history.last().threats_found as nat
    }
}

/// Files in the scans of a history.
pub open spec fn files_in(history: Seq<ScanRecord<Seq<char>>>) -> nat
    decreases history.len(),
{
    if history.len() == 0 {
        0
    } else {
        files_in(history.drop_last()) + history.last().files_scanned as nat
    }
}

proof fn lemma_totals_grow(history: Seq<ScanRecord<Seq<char>>>, i: int)
    requires
        0 <= i <= history.len(),
    ensures
        threats_in(history.take(i)) <= threats_in(history),
        files_in(history.take(i)) <= files_in(history),
    decreases history.len() - i,
{
    if i < history.len() {
        lemma_totals_grow(history, i + 1);
        assert(history.take(i + 1).drop_last() =~= history.take(i));
    } else {
        assert(history.take(i) =~= history);
    }
}

/// Files and threats of a history whose totals fit in 64 bits.
pub fn history_totals(history: &Vec<ScanRecord>) -> (totals: (u64, u64))
    requires
        files_in(records_view(history@)) <= u64::MAX,
        threats_in(records_view(history@)) <= u64::MAX,
    ensures
        totals.0 == files_in(records_view(history@)),
        totals.1 == threats_in(records_view(history@)),
{
    let ghost all = records_view(history@);
    let mut files: u64 = 0;
    let mut threats: u64 = 0;
    let mut i: usize = 0;
    assert(all.take(0) =~= Seq::<ScanRecord<Seq<char>>>::empty());
    while i < history.len()
        invariant
            i <= history@.len(),
            all == records_view(history@),
            files_in(all) <= u64::MAX,
            threats_in(all) <= u64::MAX,
            files == files_in(all.take(i as int)),
            threats == threats_in(all.take(i as int)),
        decreases history@.len() - i,
    {
        assert(all.take(i + 1).drop_last() =~= all.take(i as int));
        proof {
            lemma_totals_grow(all, i + 1);
        }
        files = files + history[i].files_scanned;
        threats = threats + history[i].threats_found;
        i = i + 1;
    }
    assert(all.take(all.len() as int) =~= all);
    (files, threats)
}

/// Whether the totals of a history fit in 64 bits.
pub fn totals_fit(history: &Vec<ScanRecord>) -> (yes: bool)
    ensures
        yes == (files_in(records_view(history@)) <= u64::MAX && threats_in(records_view(history@))
            <= u64::MAX),
{
    let ghost all = records_view(history@);
    let mut files: u128 = 0;
    let mut threats: u128 = 0;
    let mut i: usize = 0;
    assert(all.take(0) =~= Seq::<ScanRecord<Seq<char>>>::empty());
    while i < history.len()
        invariant
            i <= history@.len(),
            all == records_view(history@),
            files == files_in(all.take(i as int)),
            threats == threats_in(all.take(i as int)),
            files <= u64::MAX,
            threats <= u64::MAX,
        decreases history@.len() - i,
    {
        assert(all.take(i + 1).drop_last() =~= all.take(i as int));
        proof {
            lemma_totals_grow(all, i + 1);
        }
        files = files + history[i].files_scanned as u128;
        threats = threats + history[i].threats_found as u128;
        if files > u64::MAX as u128 || threats > u64::MAX as u128 {
            return false;
        }
        i = i + 1;
    }
    assert(all.take(all.len() as int) =~= all);
    true
}

/// What the heuristics report of themselves.
#[derive(Debug, Clone)]
pub struct ArgusStats {
    pub engine_version: String,
    pub files_analyzed: u64,
    pub threats_detected: u64,
    pub active_layers: u32,
    pub avg_analysis_time_us: u64,
    pub yara_rules_loaded: u64,
}

/// Totals that are kept over restarts, where the records are open.
#[derive(Debug, Clone, Copy, PartialEq, Eq, Structural)]
pub struct StoredTotals {
    pub scans: u64,
    pub threats: u64,
    pub quarantined: u64,
    pub detections: u64,
}

/// Counts of the scan cache.
#[derive(Debug, Clone, Copy, PartialEq, Eq, Structural)]
pub struct CacheStats {
    pub hits: u64,
    pub misses: u64,
    pub entries: u64,
}

/// Report on the daemon as a whole.
pub struct RuntimeStats {
    pub uptime_secs: u64,
    pub uptime_human: String,
    pub scans_completed: u64,
    pub threats_found_total: u64,
    pub ipc_requests_served: u64,
    pub quarantine_count: u64,
    pub activity_count: u64,
    pub started_at: i64,
    pub engine_loaded: bool,
    pub signature_count: u64,
    pub db_stale: bool,
    pub db_stale_hours: u64,
    pub watcher_active: bool,
    pub last_update_timestamp: Option<i64>,
    pub total_files_scanned: u64,
    pub total_detections: u64,
    pub argus_version: String,
    pub argus_files_analyzed: u64,
    pub argus_threats_detected: u64,
    pub argus_active_layers: u32,
    pub argus_avg_analysis_us: u64,
    pub argus_yara_rules: u64,
    pub protection_state: String,
    pub protection_detail: Option<String>,
    pub cache_hits: u64,
    pub cache_misses: u64,
    pub cache_entries: u64,
    pub idle_scanner_state: String,
    pub idle_scanner_files: u64,
    pub ipc_reconnect_count: u64,
    pub ipc_last_error_ts: u64,
    pub footprint: FootprintSnapshot,
}

/// Without an engine the machine is never called protected, whatever else runs.
pub proof fn no_engine_no_protection(s: Shields)
    requires
        !s.engine,
    ensures
        protection(s) is Unprotected || protection(s) is UserDisabled,
{
}

/// The machine is fully protected exactly when the user wants it and nothing is
/// missing.
pub proof fn full_protection_has_no_issues(s: Shields)
    ensures
        protection(s) is FullyProtected <==> !s.user_disabled && s.argus_layers > 0 && issues(
            s,
        ).len() == 0,
{
}

/// Each missing shield is told, and none that is there; they are told together.
pub proof fn missing_shields_are_told(s: Shields)
    ensures
        issues(s).contains("ClamAV engine unavailable"@) <==> !s.engine,
        issues(s).contains("Real-time watcher inactive"@) <==> !s.watcher,
        issues(s).contains("No YARA rules loaded"@) <==> s.yara_rules == 0,
        issues(s).len() <= 3,
        detail_of(s) is None <==> s.engine && s.watcher && s.yara_rules > 0,
        detail_of(s) is Some ==> detail_of(s) == Some(joined(issues(s), "; "@)),
        !s.engine && s.watcher && s.yara_rules > 0 ==> detail_of(s) == Some(
            "ClamAV engine unavailable"@,
        ),
{
    reveal_strlit("ClamAV engine unavailable");
    reveal_strlit("Real-time watcher inactive");
    reveal_strlit("No YARA rules loaded");
    assert("ClamAV engine unavailable"@.len() == 25);
    assert("Real-time watcher inactive"@.len() == 26);
    assert("No YARA rules loaded"@.len() == 20);
    let all = issues(s);
    let e: int = if s.engine {
        0
    } else {
        1
    };
    let w: int = if s.watcher {
        0
    } else {
        1
    };
    if !s.engine {
        assert(all[0] == "ClamAV engine unavailable"@);
    }
    if !s.watcher {
        assert(all[e] == "Real-time watcher inactive"@);
    }
    if s.yara_rules == 0 {
        assert(all[e + w] == "No YARA rules loaded"@);
    }
    if all.len() == 1 {
        assert(joined(all, "; "@) == all[0]);
    }
}

/// The state follows the shields: what the user switched off is told before all,
/// a machine without an engine is unprotected, one without heuristics minimally
/// protected, and one that lacks the watcher or rules degraded.
pub proof fn state_follows_the_shields(s: Shields)
    ensures
        protection(s) is UserDisabled <==> s.user_disabled,
        protection(s) is Unprotected <==> !s.user_disabled && !s.engine,
        protection(s) is Minimal <==> !s.user_disabled && s.engine && s.argus_layers == 0,
        protection(s) is Degraded <==> !s.user_disabled && s.engine && s.argus_layers > 0 && (
        !s.watcher || s.yara_rules == 0),
{
}

/// The states of protection are told by different words.
pub proof fn protection_words_differ(a: ProtectionState, b: ProtectionState)
    ensures
        a != b ==> protection_word(a) != protection_word(b),
        a is UserDisabled ==> protection_word(a) == "user_disabled"@,
        a is FullyProtected ==> protection_word(a) == "fully_protected"@,
        a is Degraded ==> protection_word(a) == "degraded"@,
        a is Minimal ==> protection_word(a) == "minimal"@,
        a is Unprotected ==> protection_word(a) == "unprotected"@,
{
    reveal_strlit("user_disabled");
    reveal_strlit("fully_protected");
    reveal_strlit("degraded");
    reveal_strlit("minimal");
    reveal_strlit("unprotected");
    assert("user_disabled"@.len() == 13 && "fully_protected"@.len() == 15);
    assert("degraded"@.len() == 8 && "minimal"@.len() == 7 && "unprotected"@.len() == 11);
}

/// A time span is told in the units that make it up: days, hours, minutes and
/// seconds add up to it, and no unit is told that is not needed.
pub proof fn uptime_adds_up(d: nat, h: nat, m: nat, s: nat)
    requires
        h < 24,
        m < 60,
        s < 60,
    ensures
        ({
            let secs = 86400 * d + 3600 * h + 60 * m + s;
            &&& d > 0 ==> uptime_words(secs) == decimal(d) + "d "@ + decimal(h) + "h "@ + decimal(
                m,
            ) + "m"@
            &&& d == 0 && h > 0 ==> uptime_words(secs) == decimal(h) + "h "@ + decimal(m) + "m "@
                + decimal(s) + "s"@
            &&& d == 0 && h == 0 && m > 0 ==> uptime_words(secs) == decimal(m) + "m "@ + decimal(s)
                + "s"@
            &&& d == 0 && h == 0 && m == 0 ==> uptime_words(secs) == decimal(s) + "s"@
        }),
{
    let secs = 86400 * d + 3600 * h + 60 * m + s;
    assert(secs / 86400 == d);
    assert(secs % 86400 == 3600 * h + 60 * m + s);
    assert((3600 * h + 60 * m + s) / 3600 == h);
    assert(secs % 3600 == 60 * m + s);
    assert((60 * m + s) / 60 == m);
    assert(secs % 60 == s);
}

proof fn lemma_totals_add(a: Seq<ScanRecord<Seq<char>>>, b: Seq<ScanRecord<Seq<char>>>)
    ensures
        threats_in(a + b) == threats_in(a) + threats_in(b),
        files_in(a + b) == files_in(a) + files_in(b),
    decreases b.len(),
{
    if b.len() == 0 {
        assert(a + b =~= a);
    } else {
        assert((a + b).drop_last() =~= a + b.drop_last());
        lemma_totals_add(a, b.drop_last());
    }
}

/// The totals of two histories add up, and one scan counts with its own files and
/// threats.
pub proof fn histories_add_up(
    a: Seq<ScanRecord<Seq<char>>>,
    b: Seq<ScanRecord<Seq<char>>>,
    r: ScanRecord<Seq<char>>,
)
    ensures
        threats_in(a + b) == threats_in(a) + threats_in(b),
        files_in(a + b) == files_in(a) + files_in(b),
        threats_in(seq![r]) == r.threats_found,
        files_in(seq![r]) == r.files_scanned,
        threats_in(Seq::empty()) == 0,
        files_in(Seq::empty()) == 0,
{
    lemma_totals_add(a, b);
    assert(seq![r].drop_last() =~= Seq::<ScanRecord<Seq<char>>>::empty());
    assert(threats_in(seq![r].drop_last()) == 0);
    assert(files_in(seq![r].drop_last()) == 0);
}

/// The words for the states of the idle scanner.
pub proof fn idle_states_have_their_words(state: IdleScannerState)
    ensures
        ({
            let word = idle_plain_word(state);
            &&& state is Disabled ==> word == "disabled"@
            &&& state is WaitingForCapacity ==> word == "waitingforcapacity"@
            &&& state is ScanningSlow ==> word == "scanningslow"@
            &&& state is ScanningNormal ==> word == "scanningnormal"@
            &&& state is ScanningFast ==> word == "scanningfast"@
            &&& state is PausedCpu ==> word == "pausedcpu"@
            &&& state is PausedDisk ==> word == "pauseddisk"@
            &&& state is PausedFullscreen ==> word == "pausedfullscreen"@
            &&& state is PausedBattery ==> word == "pausedbattery"@
            &&& state is PausedScanRunning ==> word == "pausedscanrunning"@
            &&& state is Completed ==> word == "completed"@
        }),
{
}

} // verus!
