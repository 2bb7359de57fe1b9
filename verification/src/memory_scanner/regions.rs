//! The walk over the regions of a process.

use super::patterns::{
    api_names, as_findings, begins_like_program, check_memory_patterns, has_sled, holds_text,
    pattern_becomes_one_finding, patterns_are_found_where_they_are, patterns_in, Pattern,
};
use super::{
    empty_report, finding_list, MemoryFinding, MemoryReport, MemoryScanBudget, MemoryScanResult,
    MemorySeverity, MemoryTimeoutReason, ModuleInfo,
};
use crate::text::{decimal, decimal_text, owned_view, text_view, texts};
use vstd::prelude::*;

verus! {

/// Page protection of the four kinds of executable pages.
pub const PAGE_EXECUTE: u32 = 0x10;

pub const PAGE_EXECUTE_READ: u32 = 0x20;

pub const PAGE_EXECUTE_READWRITE: u32 = 0x40;

pub const PAGE_EXECUTE_WRITECOPY: u32 = 0x80;

/// State of a region that has memory behind it.
pub const MEM_COMMIT: u32 = 0x1000;

/// Type of a region that comes from the file of a program.
pub const MEM_IMAGE: u32 = 0x100_0000;

/// A region, as the system describes it.
#[derive(Debug, Clone, Copy, PartialEq, Eq, Structural)]
pub struct Region {
    pub base: u64,
    pub size: u64,
    pub state: u32,
    pub protect: u32,
    pub kind: u32,
}

/// Whether code can run in a region.
pub open spec fn executable(r: Region) -> bool {
    r.protect == PAGE_EXECUTE || r.protect == PAGE_EXECUTE_READ || r.protect
        == PAGE_EXECUTE_READWRITE || r.protect == PAGE_EXECUTE_WRITECOPY
}

/// Whether a region is looked at.
pub open spec fn worth_reading(r: Region) -> bool {
    r.state == MEM_COMMIT && executable(r) && r.size > 0
}

/// A megabyte count in bytes, as far as 64 bits go.
pub open spec fn megabytes(mb: u64) -> u64 {
    if mb * 1_048_576 > u64::MAX {
        u64::MAX
    } else {
        (mb * 1_048_576) as u64
    }
}

fn to_bytes(mb: u64) -> (bytes: u64)
    ensures
        bytes == megabytes(mb),
{
    let bytes: u128 = mb as u128 * 1_048_576;
    if bytes > u64::MAX as u128 {
        u64::MAX
    } else {
        bytes as u64
    }
}

/// What the protection of a region alone gives away.
pub open spec fn region_findings(r: Region) -> Seq<MemoryFinding<Seq<char>>> {
    let rwx = MemoryFinding {
        region_address: r.base,
        region_size: r.size,
        description: "RWX memory region ("@ + decimal((r.size / 1024) as nat)
            + " KB) — read+write+execute is a strong indicator of injected or self-modifying code"@,
        severity: MemorySeverity::Suspicious,
        yara_rule: None::<Seq<char>>,
    };
    let unbacked = MemoryFinding {
        region_address: r.base,
        region_size: r.size,
        description: "Unbacked executable memory ("@ + decimal((r.size / 1024) as nat)
            + " KB) — not backed by any image file"@,
        severity: MemorySeverity::Info,
        yara_rule: None::<Seq<char>>,
    };
    (if r.protect == PAGE_EXECUTE_READWRITE && r.size > 4096 {
        seq![rwx]
    } else {
        Seq::empty()
    }) + (if r.kind != MEM_IMAGE && r.size > 4096 {
        seq![unbacked]
    } else {
        Seq::empty()
    })
}

fn add_region_findings(r: &Region, findings: &mut Vec<MemoryFinding>)
    ensures
        finding_list(final(findings)@) == finding_list(old(findings)@) + region_findings(*r),
{
    let ghost first = finding_list(findings@);
    if r.protect == PAGE_EXECUTE_READWRITE && r.size > 4096 {
        let mut description = "RWX memory region (".to_owned();
        description.append(decimal_text(r.size / 1024).as_str());
        description.append(
            " KB) — read+write+execute is a strong indicator of injected or self-modifying code",
        );
        findings.push(
            MemoryFinding {
                region_address: r.base,
                region_size: r.size,
                description,
                severity: MemorySeverity::Suspicious,
                yara_rule: None,
            },
        );
    }
    if r.kind != MEM_IMAGE && r.size > 4096 {
        let mut description = "Unbacked executable memory (".to_owned();
        description.append(decimal_text(r.size / 1024).as_str());
        description.append(" KB) — not backed by any image file");
        findings.push(
            MemoryFinding {
                region_address: r.base,
                region_size: r.size,
                description,
                severity: MemorySeverity::Info,
                yara_rule: None,
            },
        );
    }
    assert(finding_list(findings@) =~= first + region_findings(*r));
}

/// A finding of the heuristics in a piece of memory.
#[derive(Debug)]
pub struct BufferFinding {
    pub description: String,
    pub weight: u32,
    pub technical_detail: Option<String>,
}

/// How serious a finding of this weight is.
pub open spec fn severity_of(weight: u32) -> MemorySeverity {
    if weight >= 15 {
        MemorySeverity::Malicious
    } else if weight >= 5 {
        MemorySeverity::Suspicious
    } else {
        MemorySeverity::Info
    }
}

pub fn weight_severity(weight: u32) -> (severity: MemorySeverity)
    ensures
        severity == severity_of(weight),
{
    if weight >= 15 {
        MemorySeverity::Malicious
    } else if weight >= 5 {
        MemorySeverity::Suspicious
    } else {
        MemorySeverity::Info
    }
}

/// Findings of the heuristics as findings on a region.
pub open spec fn on_region(found: Seq<BufferFinding>, base: u64, size: u64) -> Seq<
    MemoryFinding<Seq<char>>,
> {
    found.map_values(
        |f: BufferFinding|
            MemoryFinding {
                region_address: base,
                region_size: size,
                description: f.description@,
                severity: severity_of(f.weight),
                yara_rule: owned_view(f.technical_detail),
            },
    )
}

fn add_buffer_findings(
    found: &Vec<BufferFinding>,
    base: u64,
    size: u64,
    findings: &mut Vec<MemoryFinding>,
)
    ensures
        finding_list(final(findings)@) == finding_list(old(findings)@) + on_region(
            found@,
            base,
            size,
        ),
{
    let ghost first = finding_list(findings@);
    let mut i: usize = 0;
    assert(first + on_region(found@.take(0), base, size) =~= first);
    while i < found.len()
        invariant
            i <= found@.len(),
            finding_list(findings@) == first + on_region(found@.take(i as int), base, size),
        decreases found@.len() - i,
    {
        let f = &found[i];
        let yara_rule = match &f.technical_detail {
            Some(text) => Some(text.clone()),
            None => None,
        };
        let ghost before = finding_list(findings@);
        findings.push(
            MemoryFinding {
                region_address: base,
                region_size: size,
                description: f.description.clone(),
                severity: weight_severity(f.weight),
                yara_rule,
            },
        );
        assert(finding_list(findings@) =~= before.push(findings@.last()@));
        assert(finding_list(findings@) =~= first + on_region(found@.take(i + 1), base, size));
        i = i + 1;
    }
    assert(found@.take(found@.len() as int) =~= found@);
}

/// The digit of a number below sixteen.
pub open spec fn hex_char(n: int) -> char {
    if n < 10 {
        (48 + n) as char
    } else {
        (87 + n) as char
    }
}

/// A number in hexadecimal, in lower case.
pub open spec fn hexadecimal(n: nat) -> Seq<char>
    decreases n,
{
    if n < 16 {
        seq![hex_char(n as int)]
    } else {
        hexadecimal(n / 16).push(hex_char((n % 16) as int))
    }
}

fn hexadecimal_text(n: u64) -> (text: String)
    ensures
        text@ == hexadecimal(n as nat),
    decreases n,
{
    let low: u8 = (n % 16) as u8;
    let c: char = if low < 10 {
        (48 + low) as char
    } else {
        (87 + low) as char
    };
    if n < 16 {
        let mut text = String::new();
        text.push(c);
        assert(text@ =~= hexadecimal(n as nat));
        text
    } else {
        let mut text = hexadecimal_text(n / 16);
        text.push(c);
        text
    }
}

/// The name under which a region is analysed.
pub fn region_name(pid: u32, base: u64) -> (name: String)
    ensures
        name@ == "pid"@ + decimal(pid as nat) + ":0x"@ + hexadecimal(base as nat),
{
    let mut name = "pid".to_owned();
    name.append(decimal_text(pid as u64).as_str());
    name.append(":0x");
    name.append(hexadecimal_text(base).as_str());
    name
}

/// The walk: where it is, what it has seen and what it has found.
pub struct RegionScan {
    pub result: MemoryScanResult,
    pub budget: MemoryScanBudget,
    /// Where the next query begins.
    pub address: u64,
    pub seen: u32,
}

/// What to do about a region.
#[derive(Debug, Clone, Copy, PartialEq, Eq, Structural)]
pub enum RegionStep {
    /// The walk is over.
    Stop,
    /// Read so many bytes from the start of the region.
    Read(u64),
    /// On to the next region.
    Pass,
}

/// What to do about a region that the walk has come to.
pub open spec fn region_step(m: MemoryReport, budget: MemoryScanBudget, r: Region) -> RegionStep {
    if !worth_reading(r) {
        RegionStep::Pass
    } else if over_budget(m, budget, r) {
        RegionStep::Stop
    } else {
        RegionStep::Read(read_size(budget, r))
    }
}

/// The result with one more reason.
pub open spec fn noting(r: MemoryReport, reason: MemoryTimeoutReason) -> MemoryReport {
    MemoryReport { skip_reasons: r.skip_reasons.push(reason), ..r }
}

/// The result with one more region that was left out, and why.
pub open spec fn skipping(r: MemoryReport, reason: MemoryTimeoutReason) -> MemoryReport {
    MemoryReport {
        regions_skipped: (r.regions_skipped + 1) as u32,
        skip_reasons: r.skip_reasons.push(reason),
        ..r
    }
}

/// Why the walk stops before the next query, if it does.
pub open spec fn stop_reason(
    budget: MemoryScanBudget,
    seen: u32,
    cancelled: bool,
    elapsed_secs: u64,
) -> Option<MemoryTimeoutReason> {
    if cancelled {
        Some(MemoryTimeoutReason::Cancelled)
    } else if elapsed_secs >= budget.timeout_secs {
        Some(MemoryTimeoutReason::WallClockTimeout)
    } else if seen >= budget.max_regions_per_process {
        Some(MemoryTimeoutReason::RegionLimitReached)
    } else {
        None
    }
}

/// How much of a region is read at most.
pub open spec fn read_size(budget: MemoryScanBudget, r: Region) -> u64 {
    if r.size > megabytes(budget.max_region_size_mb) {
        megabytes(budget.max_region_size_mb)
    } else {
        r.size
    }
}

/// The result after a look at the description of a region.
pub open spec fn described(m: MemoryReport, budget: MemoryScanBudget, r: Region) -> MemoryReport {
    if worth_reading(r) {
        let found = MemoryReport { findings: m.findings + region_findings(r), ..m };
        let cut = if r.size > megabytes(budget.max_region_size_mb) {
            skipping(found, MemoryTimeoutReason::RegionTooLarge)
        } else {
            found
        };
        if over_budget(m, budget, r) {
            let over = skipping(cut, MemoryTimeoutReason::BudgetExceeded);
            MemoryReport {
                errors: over.errors.push("Max scan bytes reached — stopping"@),
                ..over
            }
        } else {
            cut
        }
    } else {
        m
    }
}

/// Whether reading a region would go over the total.
pub open spec fn over_budget(m: MemoryReport, budget: MemoryScanBudget, r: Region) -> bool {
    m.bytes_scanned + read_size(budget, r) > megabytes(budget.max_total_scan_mb)
}

/// The result after a region was read, or could not be.
pub open spec fn read_in(
    m: MemoryReport,
    r: Region,
    data: Seq<u8>,
    found: Seq<BufferFinding>,
    high_entropy: Option<Seq<char>>,
) -> MemoryReport {
    if data.len() > 0 {
        MemoryReport {
            regions_scanned: (m.regions_scanned + 1) as u32,
            bytes_scanned: (m.bytes_scanned + data.len()) as u64,
            findings: m.findings + on_region(found, r.base, data.len() as u64) + as_findings(
                patterns_in(data, high_entropy),
                r.base,
                data.len() as u64,
            ),
            ..m
        }
    } else {
        skipping(m, MemoryTimeoutReason::ReadFailed)
    }
}

/// Whether a region leads nowhere: it is empty, ends beyond the address space or
/// does not end behind the address that was asked for.
pub open spec fn leads_nowhere(r: Region, address: u64) -> bool {
    r.size == 0 || r.base + r.size > u64::MAX || r.base + r.size <= address
}

impl RegionScan {
    /// The counts are within the budget.
    pub open spec fn wf(&self) -> bool {
        &&& self.seen <= self.budget.max_regions_per_process
        &&& self.result.regions_scanned <= self.seen
        &&& self.result.bytes_scanned <= megabytes(self.budget.max_total_scan_mb)
    }

    /// The walk may read `size` bytes of the region it has just seen.
    pub open spec fn may_read(&self, size: u64) -> bool {
        &&& self.wf()
        &&& self.result.regions_scanned < self.seen
        &&& self.result.regions_skipped < u32::MAX
        &&& self.result.bytes_scanned + size <= megabytes(self.budget.max_total_scan_mb)
    }

    /// A region may be counted as left out twice: for its size, and because it was
    /// not read.
    pub open spec fn can_skip(&self) -> bool {
        self.result.regions_skipped <= u32::MAX - 2
    }

    /// Whether there is room to count another region as left out.
    pub fn has_room(&self) -> (yes: bool)
        ensures
            yes == self.can_skip(),
    {
        self.result.regions_skipped <= u32::MAX - 2
    }

    /// Begin with a process. The daemon does not look at itself.
    pub fn begin(
        pid: u32,
        own_pid: u32,
        budget: MemoryScanBudget,
        name: Option<(String, Option<String>)>,
        modules: Vec<ModuleInfo>,
    ) -> (scan: Option<RegionScan>)
        ensures
            scan is None <==> pid == own_pid,
            scan matches Some(s) ==> {
                &&& s.wf()
                &&& s.budget == budget
                &&& s.address == 0
                &&& s.seen == 0
                &&& s.result@ == (MemoryReport {
                    process_name: match name {
                        Some((n, _)) => n@,
                        None => Seq::empty(),
                    },
                    process_path: match name {
                        Some((_, p)) => owned_view(p),
                        None => None,
                    },
                    modules: modules@,
                    ..empty_report(pid)
                })
            },
    {
        if pid == own_pid {
            return None;
        }
        let mut result = MemoryScanResult::new(pid);
        let ghost fresh = result@;
        if let Some((n, p)) = name {
            result.process_name = n;
            result.process_path = p;
        }
        result.modules = modules;
        assert(finding_list(result.findings@) == fresh.findings);
        assert(texts(result.errors@) == fresh.errors);
        Some(RegionScan { result, budget, address: 0, seen: 0 })
    }

    /// The process could not be opened.
    pub fn access_denied(&mut self)
        requires
            old(self).result.access_denied_count < u32::MAX,
        ensures
            final(self).result@ == (MemoryReport {
                access_denied_count: (old(self).result.access_denied_count + 1) as u32,
                ..noting(old(self).result@, MemoryTimeoutReason::AccessDenied)
            }),
            final(self).budget == old(self).budget,
            final(self).address == old(self).address,
            final(self).seen == old(self).seen,
    {
        self.result.access_denied_count = self.result.access_denied_count + 1;
        self.result.skip_reasons.push(MemoryTimeoutReason::AccessDenied);
    }

    /// Whether to query the next region. Where not, the reason is noted.
    pub fn before_query(&mut self, cancelled: bool, elapsed_secs: u64) -> (go_on: bool)
        requires
            old(self).wf(),
        ensures
            final(self).wf(),
            final(self).budget == old(self).budget,
            final(self).address == old(self).address,
            final(self).seen == old(self).seen,
            match stop_reason(old(self).budget, old(self).seen, cancelled, elapsed_secs) {
                Some(reason) => !go_on && final(self).result@ == noting(
                    old(self).result@,
                    reason,
                ),
                None => go_on && final(self).result@ == old(self).result@,
            },
    {
        let reason = if cancelled {
            MemoryTimeoutReason::Cancelled
        } else if elapsed_secs >= self.budget.timeout_secs {
            MemoryTimeoutReason::WallClockTimeout
        } else if self.seen >= self.budget.max_regions_per_process {
            MemoryTimeoutReason::RegionLimitReached
        } else {
            return true;
        };
        self.result.skip_reasons.push(reason);
        false
    }

    fn skip(&mut self, reason: MemoryTimeoutReason)
        requires
            old(self).result.regions_skipped < u32::MAX,
        ensures
            final(self).result@ == skipping(old(self).result@, reason),
            final(self).budget == old(self).budget,
            final(self).address == old(self).address,
            final(self).seen == old(self).seen,
    {
        self.result.regions_skipped = self.result.regions_skipped + 1;
        self.result.skip_reasons.push(reason);
    }

    /// Look at the description of a region, or at the lack of one.
    pub fn see_region(&mut self, region: Option<Region>) -> (step: RegionStep)
        requires
            old(self).wf(),
            old(self).seen < old(self).budget.max_regions_per_process,
            old(self).can_skip(),
        ensures
            final(self).wf(),
            final(self).budget == old(self).budget,
            final(self).address == old(self).address,
            match region {
                Some(r) => {
                    &&& final(self).seen == old(self).seen + 1
                    &&& final(self).result@ == described(old(self).result@, old(self).budget, r)
                    &&& step == region_step(old(self).result@, old(self).budget, r)
                    &&& step == if !worth_reading(r) {
                        RegionStep::Pass
                    } else if over_budget(old(self).result@, old(self).budget, r) {
                        RegionStep::Stop
                    } else {
                        RegionStep::Read(read_size(old(self).budget, r))
                    }
                    &&& step matches RegionStep::Read(size) ==> final(self).may_read(size)
                },
                None => step is Stop && final(self).seen == old(self).seen && final(self).result@
                    == old(self).result@,
            },
    {
        let r = match region {
            Some(r) => r,
            None => {
                return RegionStep::Stop;
            },
        };
        self.seen = self.seen + 1;
        let is_executable = r.protect == PAGE_EXECUTE || r.protect == PAGE_EXECUTE_READ || r.protect
            == PAGE_EXECUTE_READWRITE || r.protect == PAGE_EXECUTE_WRITECOPY;
        if !(r.state == MEM_COMMIT && is_executable && r.size > 0) {
            return RegionStep::Pass;
        }
        add_region_findings(&r, &mut self.result.findings);
        let largest: u64 = to_bytes(self.budget.max_region_size_mb);
        let size: u64 = if r.size > largest {
            self.skip(MemoryTimeoutReason::RegionTooLarge);
            largest
        } else {
            r.size
        };
        if self.result.bytes_scanned.saturating_add(size) > to_bytes(self.budget.max_total_scan_mb)
            || size > u64::MAX - self.result.bytes_scanned {
            self.skip(MemoryTimeoutReason::BudgetExceeded);
            let ghost before = texts(self.result.errors@);
            self.result.errors.push("Max scan bytes reached — stopping".to_owned());
            assert(texts(self.result.errors@) =~= before.push(
                "Max scan bytes reached — stopping"@,
            ));
            return RegionStep::Stop;
        }
        RegionStep::Read(size)
    }

    /// Take in what was read of a region, with what the heuristics made of it;
    /// nothing where the read failed.
    pub fn take_in(
        &mut self,
        region: &Region,
        data: &[u8],
        found: &Vec<BufferFinding>,
        high_entropy: Option<&str>,
    )
        requires
            data@.len() <= u64::MAX,
            old(self).may_read(data@.len() as u64),
        ensures
            final(self).wf(),
            final(self).budget == old(self).budget,
            final(self).address == old(self).address,
            final(self).seen == old(self).seen,
            final(self).result@ == read_in(
                old(self).result@,
                *region,
                data@,
                found@,
                text_view(high_entropy),
            ),
    {
        if data.len() > 0 {
            self.result.regions_scanned = self.result.regions_scanned + 1;
            self.result.bytes_scanned = self.result.bytes_scanned + data.len() as u64;
            add_buffer_findings(found, region.base, data.len() as u64, &mut self.result.findings);
            check_memory_patterns(
                data,
                region.base,
                data.len() as u64,
                high_entropy,
                &mut self.result.findings,
            );
        } else {
            self.skip(MemoryTimeoutReason::ReadFailed);
        }
    }

    /// Move on behind a region. The walk ends at one that leads nowhere.
    pub fn advance(&mut self, region: &Region) -> (go_on: bool)
        requires
            old(self).wf(),
        ensures
            final(self).wf(),
            final(self).budget == old(self).budget,
            final(self).seen == old(self).seen,
            if leads_nowhere(*region, old(self).address) {
                &&& !go_on
                &&& final(self).address == old(self).address
                &&& final(self).result@ == noting(
                    old(self).result@,
                    MemoryTimeoutReason::RegionLimitReached,
                )
            } else {
                &&& go_on
                &&& final(self).address == region.base + region.size
                &&& final(self).address > old(self).address
                &&& final(self).result@ == old(self).result@
            },
    {
        if region.size == 0 || region.size > u64::MAX - region.base || region.base + region.size
            <= self.address {
            self.result.skip_reasons.push(MemoryTimeoutReason::RegionLimitReached);
            return false;
        }
        self.address = region.base + region.size;
        true
    }

    /// End the walk.
    pub fn finish(self, scan_time_ms: u64) -> (result: MemoryScanResult)
        ensures
            result@ == (MemoryReport { scan_time_ms, ..self.result@ }),
    {
        let mut result = self.result;
        result.scan_time_ms = scan_time_ms;
        result
    }
}

/// The result for a process that was not looked into: the daemon itself, or any
/// process where the system has no way to read its memory.
pub fn untouched(pid: u32, supported: bool, scan_time_ms: u64) -> (result: MemoryScanResult)
    ensures
        result@ == (MemoryReport {
            scan_time_ms,
            errors: if supported {
                Seq::empty()
            } else {
                seq!["Memory scanning only supported on Windows"@]
            },
            ..empty_report(pid)
        }),
{
    let mut result = MemoryScanResult::new(pid);
    let ghost fresh = result@;
    if !supported {
        result.errors.push("Memory scanning only supported on Windows".to_owned());
    }
    result.scan_time_ms = scan_time_ms;
    assert(texts(result.errors@) =~= if supported {
        Seq::empty()
    } else {
        seq!["Memory scanning only supported on Windows"@]
    });
    result
}

/// A cancelled walk stops before the next query, whatever is left of the budget.
pub proof fn cancelled_walk_stops(budget: MemoryScanBudget, seen: u32, elapsed_secs: u64)
    ensures
        stop_reason(budget, seen, true, elapsed_secs) == Some(MemoryTimeoutReason::Cancelled),
{
}

/// The walk goes on only within its limits on time and regions.
pub proof fn walk_stays_within_limits(
    budget: MemoryScanBudget,
    seen: u32,
    cancelled: bool,
    elapsed_secs: u64,
)
    requires
        stop_reason(budget, seen, cancelled, elapsed_secs) is None,
    ensures
        elapsed_secs < budget.timeout_secs,
        seen < budget.max_regions_per_process,
{
}

/// No single read is larger than the limit for a region, nor takes the total over
/// its limit.
pub proof fn read_stays_within_budget(m: MemoryReport, budget: MemoryScanBudget, r: Region)
    ensures
        read_size(budget, r) <= megabytes(budget.max_region_size_mb),
        !over_budget(m, budget, r) ==> m.bytes_scanned + read_size(budget, r) <= megabytes(
            budget.max_total_scan_mb,
        ),
{
}

proof fn lemma_among<A>(a: Seq<A>, b: Seq<A>, x: A)
    ensures
        (a + b).contains(x) <==> a.contains(x) || b.contains(x),
{
    let all = a + b;
    if a.contains(x) {
        let i = choose|i: int| 0 <= i < a.len() && a[i] == x;
        assert(all[i] == x);
    }
    if b.contains(x) {
        let i = choose|i: int| 0 <= i < b.len() && b[i] == x;
        assert(all[a.len() + i] == x);
    }
    if all.contains(x) {
        let i = choose|i: int| 0 <= i < all.len() && all[i] == x;
        if i < a.len() {
            assert(a[i] == x);
        } else {
            assert(b[i - a.len()] == x);
        }
    }
}

/// After a region was read with at least one byte, each pattern that the data holds
/// has its finding, on that region and with the size that was read, whatever and
/// however much the heuristics found in the same data.
pub proof fn patterns_are_found_beside_heuristics(
    m: MemoryReport,
    r: Region,
    data: Seq<u8>,
    found: Seq<BufferFinding>,
    high_entropy: Option<Seq<char>>,
)
    requires
        0 < data.len() <= u64::MAX,
    ensures
        ({
            let after = read_in(m, r, data, found, high_entropy).findings;
            let finding = |description: Seq<char>, severity: MemorySeverity|
                MemoryFinding {
                    region_address: r.base,
                    region_size: data.len() as u64,
                    description,
                    severity,
                    yara_rule: None::<Seq<char>>,
                };
            &&& begins_like_program(data) ==> after.contains(
                finding(
                    "PE header found in executable memory — possible injected or unpacked module"@,
                    MemorySeverity::Suspicious,
                ),
            )
            &&& has_sled(data) ==> after.contains(
                finding(
                    "Large NOP sled detected — common shellcode landing pad"@,
                    MemorySeverity::Suspicious,
                ),
            )
            &&& holds_text(data, "ReflectiveLoader"@) || holds_text(data, "reflective_loader"@)
                ==> after.contains(
                finding(
                    "Reflective DLL loader string found in memory — technique used to load DLLs without LoadLibrary"@,
                    MemorySeverity::Malicious,
                ),
            )
            &&& api_names(data) >= 3 ==> after.contains(
                finding(
                    "Manual API resolution pattern ("@ + decimal(api_names(data) as nat)
                        + "/5 common APIs as strings) — indicates position-independent shellcode or reflective loader"@,
                    MemorySeverity::Suspicious,
                ),
            )
            &&& data.len() >= 1024 && high_entropy is Some ==> after.contains(
                finding(
                    "High entropy ("@ + high_entropy->0
                        + ") in executable memory — possible encrypted or compressed payload"@,
                    MemorySeverity::Suspicious,
                ),
            )
            &&& holds_text(data, "NtUnmapViewOfSection"@) || holds_text(
                data,
                "ZwUnmapViewOfSection"@,
            ) ==> after.contains(
                finding(
                    "Process hollowing API string (NtUnmapViewOfSection) in memory — used to replace process image"@,
                    MemorySeverity::Malicious,
                ),
            )
        }),
{
    assert forall|f: MemoryFinding<Seq<char>>|
        as_findings(patterns_in(data, high_entropy), r.base, data.len() as u64).contains(
            f,
        ) implies #[trigger] read_in(m, r, data, found, high_entropy).findings.contains(f) by {
        lemma_among(
            m.findings + on_region(found, r.base, data.len() as u64),
            as_findings(patterns_in(data, high_entropy), r.base, data.len() as u64),
            f,
        );
    }
    assert forall|f: MemoryFinding<Seq<char>>|
        f.region_address == r.base && f.region_size == data.len() as u64 && f.yara_rule is None
            && patterns_in(data, high_entropy).contains(
            Pattern { description: f.description, severity: f.severity },
        ) implies #[trigger] read_in(m, r, data, found, high_entropy).findings.contains(f) by {
        pattern_becomes_one_finding(
            patterns_in(data, high_entropy),
            r.base,
            data.len() as u64,
            f,
        );
    }
    assert forall|p: Pattern| true implies #[trigger] patterns_in(data, high_entropy).contains(p)
        == patterns_in(data, high_entropy).contains(p) by {
        patterns_are_found_where_they_are(data, high_entropy, p);
    }
    let soft = MemorySeverity::Suspicious;
    let hard = MemorySeverity::Malicious;
    patterns_are_found_where_they_are(
        data,
        high_entropy,
        Pattern {
            description: "PE header found in executable memory — possible injected or unpacked module"@,
            severity: soft,
        },
    );
    patterns_are_found_where_they_are(
        data,
        high_entropy,
        Pattern {
            description: "Large NOP sled detected — common shellcode landing pad"@,
            severity: soft,
        },
    );
    patterns_are_found_where_they_are(
        data,
        high_entropy,
        Pattern {
            description: "Reflective DLL loader string found in memory — technique used to load DLLs without LoadLibrary"@,
            severity: hard,
        },
    );
    patterns_are_found_where_they_are(
        data,
        high_entropy,
        Pattern {
            description: "Manual API resolution pattern ("@ + decimal(api_names(data) as nat)
                + "/5 common APIs as strings) — indicates position-independent shellcode or reflective loader"@,
            severity: soft,
        },
    );
    patterns_are_found_where_they_are(
        data,
        high_entropy,
        Pattern {
            description: "High entropy ("@ + high_entropy->0
                + ") in executable memory — possible encrypted or compressed payload"@,
            severity: soft,
        },
    );
    patterns_are_found_where_they_are(
        data,
        high_entropy,
        Pattern {
            description: "Process hollowing API string (NtUnmapViewOfSection) in memory — used to replace process image"@,
            severity: hard,
        },
    );
}

/// Of a region that was read, nothing that was found before is lost, each finding of
/// the heuristics is kept with the severity of its weight, and together with the
/// patterns that is all.
pub proof fn read_keeps_and_adds(
    m: MemoryReport,
    r: Region,
    data: Seq<u8>,
    found: Seq<BufferFinding>,
    high_entropy: Option<Seq<char>>,
    i: int,
)
    requires
        0 < data.len() <= u64::MAX,
        0 <= i < found.len(),
    ensures
        ({
            let after = read_in(m, r, data, found, high_entropy).findings;
            let mine = after[m.findings.len() + i];
            &&& after.len() == m.findings.len() + found.len() + patterns_in(
                data,
                high_entropy,
            ).len()
            &&& after.take(m.findings.len() as int) == m.findings
            &&& mine.region_address == r.base
            &&& mine.region_size == data.len()
            &&& mine.description == found[i].description@
            &&& mine.yara_rule == owned_view(found[i].technical_detail)
            &&& found[i].weight >= 15 ==> mine.severity == MemorySeverity::Malicious
            &&& 5 <= found[i].weight < 15 ==> mine.severity == MemorySeverity::Suspicious
            &&& found[i].weight < 5 ==> mine.severity == MemorySeverity::Info
        }),
{
    let after = read_in(m, r, data, found, high_entropy).findings;
    assert(after.take(m.findings.len() as int) =~= m.findings);
    assert(on_region(found, r.base, data.len() as u64)[i] == after[m.findings.len() + i]);
}

/// A region that was read counts with all its bytes, and leaves the rest of the
/// result as it is; one that could not be read counts as left out and finds nothing.
pub proof fn read_is_counted(
    m: MemoryReport,
    r: Region,
    data: Seq<u8>,
    found: Seq<BufferFinding>,
    high_entropy: Option<Seq<char>>,
)
    requires
        data.len() <= u64::MAX - m.bytes_scanned,
        m.regions_scanned < u32::MAX,
        m.regions_skipped < u32::MAX,
    ensures
        ({
            let after = read_in(m, r, data, found, high_entropy);
            &&& after.bytes_scanned == m.bytes_scanned + data.len()
            &&& after.regions_scanned + after.regions_skipped == m.regions_scanned
                + m.regions_skipped + 1
            &&& data.len() > 0 ==> after.regions_scanned == m.regions_scanned + 1
                && after.skip_reasons == m.skip_reasons
            &&& data.len() == 0 ==> after.findings == m.findings && after.skip_reasons
                == m.skip_reasons.push(MemoryTimeoutReason::ReadFailed)
            &&& after.pid == m.pid
            &&& after.process_name == m.process_name
            &&& after.process_path == m.process_path
            &&& after.errors == m.errors
            &&& after.access_denied_count == m.access_denied_count
            &&& after.scan_time_ms == m.scan_time_ms
            &&& after.modules == m.modules
        }),
{
}

/// Only committed memory in which code can run is read, and all of that is.
pub proof fn committed_code_is_read(r: Region)
    ensures
        worth_reading(r) <==> r.state == 0x1000 && r.size > 0 && (r.protect == 0x10 || r.protect
            == 0x20 || r.protect == 0x40 || r.protect == 0x80),
{
}

/// Memory that can be written and run is told where it is larger than a page, and so
/// is code that comes from no program's file; nothing else is told of a region alone.
pub proof fn protection_gives_away(r: Region, f: MemoryFinding<Seq<char>>)
    ensures
        region_findings(r).contains(f) <==> f.region_address == r.base && f.region_size == r.size
            && f.yara_rule is None && r.size > 4096 && {
            ||| r.protect == 0x40 && f.severity == MemorySeverity::Suspicious && f.description
                == "RWX memory region ("@ + decimal((r.size / 1024) as nat)
                + " KB) — read+write+execute is a strong indicator of injected or self-modifying code"@
            ||| r.kind != 0x100_0000 && f.severity == MemorySeverity::Info && f.description
                == "Unbacked executable memory ("@ + decimal((r.size / 1024) as nat)
                + " KB) — not backed by any image file"@
        },
        region_findings(r).len() == if r.size <= 4096 {
            0int
        } else {
            (if r.protect == 0x40 {
                1int
            } else {
                0int
            }) + (if r.kind != 0x100_0000 {
                1int
            } else {
                0int
            })
        },
{
    let rwx = MemoryFinding {
        region_address: r.base,
        region_size: r.size,
        description: "RWX memory region ("@ + decimal((r.size / 1024) as nat)
            + " KB) — read+write+execute is a strong indicator of injected or self-modifying code"@,
        severity: MemorySeverity::Suspicious,
        yara_rule: None::<Seq<char>>,
    };
    let unbacked = MemoryFinding {
        region_address: r.base,
        region_size: r.size,
        description: "Unbacked executable memory ("@ + decimal((r.size / 1024) as nat)
            + " KB) — not backed by any image file"@,
        severity: MemorySeverity::Info,
        yara_rule: None::<Seq<char>>,
    };
    let all = region_findings(r);
    if r.size > 4096 {
        if r.protect == 0x40 {
            assert(all[0] == rwx);
        }
        if r.kind != 0x100_0000 {
            assert(all[all.len() - 1] == unbacked);
        }
    }
    if all.contains(f) {
        let i = choose|i: int| 0 <= i < all.len() && all[i] == f;
        assert(f == rwx || f == unbacked);
    }
}

/// A look at a region adds what its protection gives away and takes nothing away;
/// a region that is not read leaves no trace.
pub proof fn look_adds_what_protection_shows(m: MemoryReport, budget: MemoryScanBudget, r: Region)
    requires
        m.regions_skipped <= u32::MAX - 2,
    ensures
        ({
            let after = described(m, budget, r);
            &&& !worth_reading(r) ==> after == m
            &&& worth_reading(r) ==> after.findings == m.findings + region_findings(r)
            &&& after.bytes_scanned == m.bytes_scanned
            &&& after.regions_scanned == m.regions_scanned
            &&& after.skip_reasons.len() - m.skip_reasons.len() == after.regions_skipped
                - m.regions_skipped
            &&& worth_reading(r) && r.size > megabytes(budget.max_region_size_mb)
                ==> after.skip_reasons.contains(MemoryTimeoutReason::RegionTooLarge)
            &&& worth_reading(r) && over_budget(m, budget, r) ==> after.skip_reasons.last()
                == MemoryTimeoutReason::BudgetExceeded && after.errors == m.errors.push(
                "Max scan bytes reached — stopping"@,
            )
            &&& worth_reading(r) && r.size <= megabytes(budget.max_region_size_mb)
                && !over_budget(m, budget, r) ==> after.skip_reasons == m.skip_reasons
                && after.errors == m.errors
            &&& !over_budget(m, budget, r) ==> after.errors == m.errors
        }),
{
    let after = described(m, budget, r);
    if worth_reading(r) && r.size > megabytes(budget.max_region_size_mb) {
        assert(after.skip_reasons[m.skip_reasons.len() as int]
            == MemoryTimeoutReason::RegionTooLarge);
    }
}

/// A megabyte is 1048576 bytes, and a region within its limit is read whole.
pub proof fn small_regions_are_read_whole(budget: MemoryScanBudget, r: Region)
    ensures
        budget.max_region_size_mb <= 17_592_186_044_415 ==> megabytes(budget.max_region_size_mb)
            == budget.max_region_size_mb * 1_048_576,
        budget.max_region_size_mb > 17_592_186_044_415 ==> megabytes(budget.max_region_size_mb)
            == u64::MAX,
        r.size <= budget.max_region_size_mb * 1_048_576 ==> read_size(budget, r) == r.size,
        r.size > budget.max_region_size_mb * 1_048_576 ==> read_size(budget, r)
            == budget.max_region_size_mb * 1_048_576,
{
}

/// Reading goes over the budget exactly where the bytes read so far and those of the
/// region are more than the megabytes allowed.
pub proof fn budget_is_the_sum_of_reads(m: MemoryReport, budget: MemoryScanBudget, r: Region)
    requires
        budget.max_total_scan_mb <= 17_592_186_044_415,
    ensures
        over_budget(m, budget, r) <==> m.bytes_scanned + read_size(budget, r)
            > budget.max_total_scan_mb * 1_048_576,
{
}

/// The reason why a walk stops is the first that holds: it was cancelled, its time is
/// over, or it has seen enough regions; without one of these it goes on.
pub proof fn walk_stops_for_a_reason(
    budget: MemoryScanBudget,
    seen: u32,
    cancelled: bool,
    elapsed_secs: u64,
)
    ensures
        ({
            let reason = stop_reason(budget, seen, cancelled, elapsed_secs);
            &&& reason == Some(MemoryTimeoutReason::Cancelled) <==> cancelled
            &&& reason == Some(MemoryTimeoutReason::WallClockTimeout) <==> !cancelled
                && elapsed_secs >= budget.timeout_secs
            &&& reason == Some(MemoryTimeoutReason::RegionLimitReached) <==> !cancelled
                && elapsed_secs < budget.timeout_secs && seen >= budget.max_regions_per_process
            &&& reason is None <==> !cancelled && elapsed_secs < budget.timeout_secs && seen
                < budget.max_regions_per_process
        }),
{
}

/// The walk only moves forward, and ends where a region does not lead on.
pub proof fn walk_moves_forward(r: Region, address: u64)
    ensures
        !leads_nowhere(r, address) <==> r.size > 0 && address < r.base + r.size <= u64::MAX,
{
}

/// The value of a number in hexadecimal: each digit stands for sixteen times the one
/// behind it, in the digits 0 to 9 and a to f.
pub proof fn hexadecimal_is_positional(n: nat, digit: nat)
    requires
        digit < 16,
    ensures
        n > 0 ==> hexadecimal(16 * n + digit) == hexadecimal(n) + hexadecimal(digit),
        hexadecimal(digit).len() == 1,
        digit < 10 ==> hexadecimal(digit)[0] as int == '0' as int + digit,
        digit >= 10 ==> hexadecimal(digit)[0] as int == 'a' as int + digit - 10,
{
    if n > 0 {
        assert((16 * n + digit) / 16 == n);
        assert((16 * n + digit) % 16 == digit);
        assert(hexadecimal(16 * n + digit) =~= hexadecimal(n) + hexadecimal(digit));
    }
}

/// The weight of a finding tells how severe it is: malicious from fifteen on,
/// suspicious from five on.
pub proof fn weight_tells_the_severity(weight: u32)
    ensures
        severity_of(weight) is Malicious <==> weight >= 15,
        severity_of(weight) is Suspicious <==> 5 <= weight < 15,
        severity_of(weight) is Info <==> weight < 5,
{
}

/// Every region that is worth reading is read while the budget lasts; others are passed
/// over, and the walk stops at the first that no longer fits.
pub proof fn regions_are_read_while_the_budget_lasts(
    m: MemoryReport,
    budget: MemoryScanBudget,
    r: Region,
)
    ensures
        region_step(m, budget, r) is Pass <==> !worth_reading(r),
        region_step(m, budget, r) is Stop <==> worth_reading(r) && over_budget(m, budget, r),
        worth_reading(r) && !over_budget(m, budget, r) ==> region_step(m, budget, r)
            == RegionStep::Read(read_size(budget, r)),
{
}

} // verus!
