//! Looking into the memory of a process.
//!
//! The regions of a process are queried and read outside, one at a time and
//! within a budget; what to read, when to stop and what the content means is
//! decided here.

pub mod patterns;
pub mod regions;

use crate::ranking::{ranked, sort_ranked, Ranked};
use crate::text::{owned_view, texts};
use vstd::prelude::*;

verus! {

/// How serious a finding is.
#[derive(Debug, Clone, Copy, PartialEq, Eq, Structural)]
pub enum MemorySeverity {
    Info,
    Suspicious,
    Malicious,
}

/// A finding in the memory of a process.
#[derive(Debug)]
pub struct MemoryFinding<T = String> {
    pub region_address: u64,
    pub region_size: u64,
    pub description: T,
    pub severity: MemorySeverity,
    /// Name of the rule that matched, if one did.
    pub yara_rule: Option<T>,
}

impl View for MemoryFinding {
    type V = MemoryFinding<Seq<char>>;

    open spec fn view(&self) -> MemoryFinding<Seq<char>> {
        MemoryFinding {
            region_address: self.region_address,
            region_size: self.region_size,
            description: self.description@,
            severity: self.severity,
            yara_rule: owned_view(self.yara_rule),
        }
    }
}

/// The findings of a list.
pub open spec fn finding_list(list: Seq<MemoryFinding>) -> Seq<MemoryFinding<Seq<char>>> {
    list.map_values(|f: MemoryFinding| f@)
}

/// How much of a process is looked at.
#[derive(Debug, Clone, Copy, PartialEq, Eq, Structural)]
pub struct MemoryScanBudget {
    pub max_region_size_mb: u64,
    pub max_total_scan_mb: u64,
    pub max_regions_per_process: u32,
    pub timeout_secs: u64,
}

impl Default for MemoryScanBudget {
    fn default() -> (budget: Self)
        ensures
            budget == (MemoryScanBudget {
                max_region_size_mb: 64,
                max_total_scan_mb: 256,
                max_regions_per_process: 512,
                timeout_secs: 30,
            }),
    {
        MemoryScanBudget {
            max_region_size_mb: 64,
            max_total_scan_mb: 256,
            max_regions_per_process: 512,
            timeout_secs: 30,
        }
    }
}

/// Why a region or the rest of a process was left out.
#[derive(Debug, Clone, Copy, PartialEq, Eq, Structural)]
pub enum MemoryTimeoutReason {
    RegionTooLarge,
    BudgetExceeded,
    AccessDenied,
    ReadFailed,
    YaraTimeout,
    WallClockTimeout,
    RegionLimitReached,
    Cancelled,
}

/// A module that a process has loaded.
#[derive(Debug, Clone)]
pub struct ModuleInfo {
    pub name: String,
    pub path: String,
    pub base_address: u64,
    pub size: u64,
}

/// Most modules that are listed of one process.
pub const MAX_MODULES: usize = 2048;

/// Add a module to the list. Whether to ask for another one comes back.
pub fn add_module(modules: &mut Vec<ModuleInfo>, module: ModuleInfo) -> (more: bool)
    ensures
        final(modules)@ == old(modules)@.push(module),
        more == (final(modules)@.len() < MAX_MODULES),
{
    modules.push(module);
    modules.len() < MAX_MODULES
}

/// What was found in one process.
#[derive(Debug)]
pub struct MemoryScanResult {
    pub pid: u32,
    pub process_name: String,
    pub process_path: Option<String>,
    pub regions_scanned: u32,
    pub regions_skipped: u32,
    pub bytes_scanned: u64,
    pub findings: Vec<MemoryFinding>,
    pub errors: Vec<String>,
    pub skip_reasons: Vec<MemoryTimeoutReason>,
    pub access_denied_count: u32,
    pub scan_time_ms: u64,
    pub modules: Vec<ModuleInfo>,
}

/// A result as contracts speak of it.
#[verifier::ext_equal]
pub struct MemoryReport {
    pub pid: u32,
    pub process_name: Seq<char>,
    pub process_path: Option<Seq<char>>,
    pub regions_scanned: u32,
    pub regions_skipped: u32,
    pub bytes_scanned: u64,
    pub findings: Seq<MemoryFinding<Seq<char>>>,
    pub errors: Seq<Seq<char>>,
    pub skip_reasons: Seq<MemoryTimeoutReason>,
    pub access_denied_count: u32,
    pub scan_time_ms: u64,
    pub modules: Seq<ModuleInfo>,
}

impl View for MemoryScanResult {
    type V = MemoryReport;

    open spec fn view(&self) -> MemoryReport {
        MemoryReport {
            pid: self.pid,
            process_name: self.process_name@,
            process_path: owned_view(self.process_path),
            regions_scanned: self.regions_scanned,
            regions_skipped: self.regions_skipped,
            bytes_scanned: self.bytes_scanned,
            findings: finding_list(self.findings@),
            errors: texts(self.errors@),
            skip_reasons: self.skip_reasons@,
            access_denied_count: self.access_denied_count,
            scan_time_ms: self.scan_time_ms,
            modules: self.modules@,
        }
    }
}

/// The result of a process that was not looked at yet.
pub open spec fn empty_report(pid: u32) -> MemoryReport {
    MemoryReport {
        pid,
        process_name: Seq::empty(),
        process_path: None,
        regions_scanned: 0,
        regions_skipped: 0,
        bytes_scanned: 0,
        findings: Seq::empty(),
        errors: Seq::empty(),
        skip_reasons: Seq::empty(),
        access_denied_count: 0,
        scan_time_ms: 0,
        modules: Seq::empty(),
    }
}

impl MemoryScanResult {
    pub fn new(pid: u32) -> (result: Self)
        ensures
            result@ == empty_report(pid),
    {
        let result = MemoryScanResult {
            pid,
            process_name: String::new(),
            process_path: None,
            regions_scanned: 0,
            regions_skipped: 0,
            bytes_scanned: 0,
            findings: Vec::new(),
            errors: Vec::new(),
            skip_reasons: Vec::new(),
            access_denied_count: 0,
            scan_time_ms: 0,
            modules: Vec::new(),
        };
        assert(result@ =~~= empty_report(pid));
        result
    }
}

/// A running process.
#[derive(Debug)]
pub struct ProcessInfo {
    pub pid: u32,
    pub name: String,
    pub path: Option<String>,
    pub memory_mb: u64,
}

impl Ranked for ProcessInfo {
    /// The process with the most memory goes first.
    open spec fn rank(&self) -> int {
        -self.memory_mb
    }

    fn goes_before(&self, other: &Self) -> (yes: bool) {
        self.memory_mb > other.memory_mb
    }
}

/// The processes with a name, without the idle process. One that could not be
/// asked is `None`.
pub open spec fn named(probes: Seq<Option<ProcessInfo>>) -> Seq<ProcessInfo>
    decreases probes.len(),
{
    if probes.len() == 0 {
        Seq::empty()
    } else {
        let before = named(probes.drop_last());
        match probes.last() {
            Some(info) => if info.pid != 0 && info.name@.len() > 0 {
                before.push(info)
            } else {
                before
            },
            None => before,
        }
    }
}

/// List the running processes, the one with the most memory first.
pub fn list_processes(probes: Vec<Option<ProcessInfo>>) -> (list: Vec<ProcessInfo>)
    ensures
        ranked(list@, named(probes@)),
{
    let ghost all = probes@;
    let mut left = probes;
    let mut backwards: Vec<ProcessInfo> = Vec::new();
    assert(all.take(all.len() as int) =~= all);
    assert(named(all) + backwards@.reverse() =~= named(all));
    while left.len() > 0
        invariant
            left@.len() <= all.len(),
            left@ == all.take(left@.len() as int),
            named(all) == named(left@) + backwards@.reverse(),
        decreases left@.len(),
    {
        let ghost before = left@;
        let ghost back = backwards@;
        let probe = match left.pop() {
            Some(probe) => probe,
            None => {
                return Vec::new();
            },
        };
        assert(left@ =~= before.drop_last());
        assert(left@ =~= all.take(left@.len() as int));
        if let Some(info) = probe {
            if info.pid != 0 && info.name.as_str().unicode_len() > 0 {
                backwards.push(info);
                assert(backwards@.reverse() =~= seq![info] + back.reverse());
                assert(named(left@) + backwards@.reverse() =~= named(before) + back.reverse());
            }
        }
    }
    assert(named(all) =~= backwards@.reverse());
    let mut list: Vec<ProcessInfo> = Vec::new();
    let ghost whole = backwards@;
    while backwards.len() > 0
        invariant
            backwards@.len() <= whole.len(),
            backwards@ == whole.take(backwards@.len() as int),
            list@ == whole.reverse().take(whole.len() - backwards@.len()),
        decreases backwards@.len(),
    {
        let info = match backwards.pop() {
            Some(info) => info,
            None => {
                return list;
            },
        };
        list.push(info);
        assert(backwards@ =~= whole.take(backwards@.len() as int));
        assert(list@ =~= whole.reverse().take(whole.len() - backwards@.len()));
    }
    assert(list@ =~= whole.reverse());
    sort_ranked(list)
}

proof fn lemma_named(probes: Seq<Option<ProcessInfo>>, info: ProcessInfo)
    ensures
        named(probes).contains(info) <==> info.pid != 0 && info.name@.len() > 0
            && probes.contains(Some(info)),
    decreases probes.len(),
{
    if probes.len() > 0 {
        let rest = probes.drop_last();
        lemma_named(rest, info);
        let before = named(rest);
        let all = named(probes);
        let n = probes.len() - 1;
        if probes.last() is Some && probes.last()->0.pid != 0 && probes.last()->0.name@.len() > 0 {
            assert(all =~= before.push(probes.last()->0));
            assert(all[before.len() as int] == probes.last()->0);
        }
        if before.contains(info) {
            let i = choose|i: int| 0 <= i < before.len() && before[i] == info;
            assert(all[i] == info);
        }
        if rest.contains(Some(info)) {
            let i = choose|i: int| 0 <= i < rest.len() && rest[i] == Some(info);
            assert(probes[i] == Some(info));
        }
        if probes.contains(Some(info)) {
            let i = choose|i: int| 0 <= i < probes.len() && probes[i] == Some(info);
            if i < n {
                assert(rest[i] == Some(info));
            }
        }
    }
}

/// A process is listed where it could be asked, has a name and is not the idle
/// process, and nothing else is.
pub proof fn named_processes_are_listed(probes: Seq<Option<ProcessInfo>>, info: ProcessInfo)
    ensures
        named(probes).contains(info) <==> info.pid != 0 && info.name@.len() > 0
            && probes.contains(Some(info)),
        named(probes).len() <= probes.len(),
{
    lemma_named(probes, info);
    lemma_named_len(probes);
}

proof fn lemma_named_len(probes: Seq<Option<ProcessInfo>>)
    ensures
        named(probes).len() <= probes.len(),
    decreases probes.len(),
{
    if probes.len() > 0 {
        lemma_named_len(probes.drop_last());
    }
}

/// A process that was not looked at yet has no findings, no errors and no counts.
pub proof fn report_begins_empty(pid: u32)
    ensures
        empty_report(pid).pid == pid,
        empty_report(pid).findings.len() == 0 && empty_report(pid).errors.len() == 0,
        empty_report(pid).regions_scanned == 0 && empty_report(pid).regions_skipped == 0,
        empty_report(pid).bytes_scanned == 0 && empty_report(pid).access_denied_count == 0,
        empty_report(pid).skip_reasons.len() == 0 && empty_report(pid).modules.len() == 0,
        empty_report(pid).scan_time_ms == 0,
{
}

} // verus!
