//! What the handlers of requests leave in the activity log, and the small rules
//! of their answers.

use crate::activity::{activity_rows_view, ActivityRow};
use crate::memory_scanner::{MemoryScanResult, ProcessInfo};
use crate::scan::job::ActivityEvent;
use crate::text::{decimal, decimal_text, lowercased, same, text_view, to_lowercase};
use vstd::prelude::*;

verus! {

/// An entry without a message that belongs to no scan.
pub open spec fn plain_event(severity: Seq<char>, category: Seq<char>, title: Seq<char>) -> ActivityEvent<
    Seq<char>,
> {
    ActivityEvent { severity, category, title, message: ""@, scan_id: None::<Seq<char>> }
}

/// The entry on a changed provider of signatures.
pub fn provider_changed(provider: &str) -> (event: ActivityEvent)
    ensures
        event@ == plain_event(
            "critical"@,
            "sources"@,
            "Enhanced signature provider changed to: "@ + provider@,
        ),
{
    let mut title = "Enhanced signature provider changed to: ".to_owned();
    title.append(provider);
    ActivityEvent::general("critical", "sources", title, "")
}

/// How severe an entry on a look into memory is.
pub open spec fn memory_severity(findings: nat) -> Seq<char> {
    if findings == 0 {
        "info"@
    } else {
        "warning"@
    }
}

/// The entry on an update of the provider's signatures: how many files it
/// brought, or why it failed.
pub fn provider_updated(name: &str, outcome: Result<u64, Option<&str>>) -> (event: ActivityEvent)
    ensures
        event@.category == "sources"@,
        outcome is Ok ==> event@.severity == "info"@,
        outcome is Err ==> event@.severity == "critical"@,
        event@ == match outcome {
            Ok(files) => plain_event(
                "info"@,
                "sources"@,
                "Enhanced signatures updated: "@ + name@ + " ("@ + decimal(files as nat)
                    + " files)"@,
            ),
            Err(error) => plain_event(
                "critical"@,
                "sources"@,
                "Enhanced signature update FAILED: "@ + (match text_view(error) {
                    Some(e) => e,
                    None => "unknown"@,
                }),
            ),
        },
{
    match outcome {
        Ok(files) => {
            let mut title = "Enhanced signatures updated: ".to_owned();
            title.append(name);
            title.append(" (");
            title.append(decimal_text(files).as_str());
            title.append(" files)");
            ActivityEvent::general("info", "sources", title, "")
        },
        Err(error) => {
            let mut title = "Enhanced signature update FAILED: ".to_owned();
            match error {
                Some(e) => title.append(e),
                None => title.append("unknown"),
            }
            ActivityEvent::general("critical", "sources", title, "")
        },
    }
}

/// The entry on a return to the official signatures.
pub fn provider_rolled_back() -> (event: ActivityEvent)
    ensures
        event@ == plain_event(
            "critical"@,
            "sources"@,
            "Enhanced signatures rolled back — official ClamAV only"@,
        ),
{
    ActivityEvent::general(
        "critical",
        "sources",
        "Enhanced signatures rolled back — official ClamAV only".to_owned(),
        "",
    )
}

/// How a reload of the rules went, in words.
pub open spec fn yara_words(loaded: Result<u64, Seq<char>>) -> Seq<char> {
    match loaded {
        Ok(count) => decimal(count as nat) + " YARA rules reloaded"@,
        Err(e) => "YARA reload error: "@ + e,
    }
}

/// The entry on protection that the user paused or resumed.
pub open spec fn switch_event(paused: bool) -> ActivityEvent<Seq<char>> {
    if paused {
        plain_event("warning"@, "protection"@, "Protection paused by user"@)
    } else {
        plain_event("info"@, "protection"@, "Protection resumed by user"@)
    }
}

/// How a reload of the rules went, in words.
pub fn yara_message(loaded: Result<u64, &str>) -> (message: String)
    ensures
        message@ == yara_words(
            match loaded {
                Ok(count) => Ok(count),
                Err(e) => Err(e@),
            },
        ),
        message@ == match loaded {
            Ok(count) => decimal(count as nat) + " YARA rules reloaded"@,
            Err(e) => "YARA reload error: "@ + e@,
        },
{
    match loaded {
        Ok(count) => {
            let mut message = decimal_text(count);
            message.append(" YARA rules reloaded");
            message
        },
        Err(e) => {
            let mut message = "YARA reload error: ".to_owned();
            message.append(e);
            message
        },
    }
}

/// The entry on a reload of the heuristics.
pub fn argus_reloaded(message: &str) -> (event: ActivityEvent)
    ensures
        event@ == (ActivityEvent {
            severity: "info"@,
            category: "argus"@,
            title: "ARGUS intelligence reloaded"@,
            message: message@,
            scan_id: None,
        }),
{
    ActivityEvent::general("info", "argus", "ARGUS intelligence reloaded".to_owned(), message)
}

/// The entry on a look into the memory of a process that was asked for.
pub fn memory_scanned(result: &MemoryScanResult, pid: u32) -> (event: ActivityEvent)
    ensures
        event@.severity == memory_severity(result.findings@.len()),
        event@ == (ActivityEvent {
            severity: if result.findings@.len() == 0 {
                "info"@
            } else {
                "warning"@
            },
            category: "memory_scan"@,
            title: "Memory scan: "@ + result.process_name@ + " (PID "@ + decimal(pid as nat)
                + ")"@,
            message: decimal(result.regions_scanned as nat) + " regions, "@ + decimal(
                result.findings@.len(),
            ) + " findings"@,
            scan_id: None,
        }),
{
    let mut title = "Memory scan: ".to_owned();
    title.append(result.process_name.as_str());
    title.append(" (PID ");
    title.append(decimal_text(pid as u64).as_str());
    title.append(")");
    let mut message = decimal_text(result.regions_scanned as u64);
    message.append(" regions, ");
    message.append(decimal_text(result.findings.len() as u64).as_str());
    message.append(" findings");
    let severity = if result.findings.len() == 0 {
        "info"
    } else {
        "warning"
    };
    ActivityEvent::general(severity, "memory_scan", title, message.as_str())
}

/// Score from which a running copy of a file is looked into.
pub const MEMORY_SCAN_SCORE: u32 = 76;

/// Whether a process runs from the file, whatever the case of the letters.
pub open spec fn runs_from(p: ProcessInfo, file_path: Seq<char>) -> bool {
    p.path matches Some(path) && lowercased(path@) == lowercased(file_path)
}

/// Whether this is the process to look into: the first that runs from a file with a
/// high score, if there is one.
pub open spec fn to_look_into(
    file_path: Seq<char>,
    argus_score: u32,
    processes: Seq<ProcessInfo>,
    found: Option<int>,
) -> bool {
    match found {
        Some(i) => {
            &&& argus_score >= MEMORY_SCAN_SCORE
            &&& 0 <= i < processes.len()
            &&& runs_from(processes[i], file_path)
            &&& forall|j: int| 0 <= j < i ==> !runs_from(#[trigger] processes[j], file_path)
        },
        None => argus_score < MEMORY_SCAN_SCORE || forall|j: int|
            0 <= j < processes.len() ==> !runs_from(#[trigger] processes[j], file_path),
    }
}

/// The first process that runs from a file with a high score.
pub fn auto_memory_scan_if_running(
    file_path: &str,
    argus_score: u32,
    processes: &Vec<ProcessInfo>,
) -> (found: Option<usize>)
    ensures
        to_look_into(
            file_path@,
            argus_score,
            processes@,
            match found {
                Some(i) => Some(i as int),
                None => None,
            },
        ),
        match found {
            Some(i) => {
                &&& argus_score >= MEMORY_SCAN_SCORE
                &&& i < processes@.len()
                &&& runs_from(processes@[i as int], file_path@)
                &&& forall|j: int| 0 <= j < i ==> !runs_from(#[trigger] processes@[j], file_path@)
            },
            None => argus_score < MEMORY_SCAN_SCORE || forall|j: int|
                0 <= j < processes@.len() ==> !runs_from(#[trigger] processes@[j], file_path@),
        },
{
    if argus_score < MEMORY_SCAN_SCORE {
        return None;
    }
    let wanted = to_lowercase(file_path);
    let mut i: usize = 0;
    while i < processes.len()
        invariant
            argus_score >= MEMORY_SCAN_SCORE,
            wanted@ == lowercased(file_path@),
            i <= processes@.len(),
            forall|j: int| 0 <= j < i ==> !runs_from(#[trigger] processes@[j], file_path@),
        decreases processes@.len() - i,
    {
        if let Some(path) = &processes[i].path {
            if same(to_lowercase(path.as_str()).as_str(), wanted.as_str()) {
                return Some(i);
            }
        }
        i = i + 1;
    }
    None
}

/// The entry on such a look.
pub fn memory_scanned_on_detection(process: &ProcessInfo, result: &MemoryScanResult) -> (event:
    ActivityEvent)
    ensures
        event@.severity == memory_severity(result.findings@.len()),
        event@ == (ActivityEvent {
            severity: if result.findings@.len() == 0 {
                "info"@
            } else {
                "warning"@
            },
            category: "memory_scan"@,
            title: "Auto memory scan: "@ + process.name@ + " (PID "@ + decimal(process.pid as nat)
                + ")"@,
            message: decimal(result.regions_scanned as nat) + " regions, "@ + decimal(
                result.findings@.len(),
            ) + " findings, "@ + decimal(result.scan_time_ms as nat) + "ms"@,
            scan_id: None,
        }),
{
    let mut title = "Auto memory scan: ".to_owned();
    title.append(process.name.as_str());
    title.append(" (PID ");
    title.append(decimal_text(process.pid as u64).as_str());
    title.append(")");
    let mut message = decimal_text(result.regions_scanned as u64);
    message.append(" regions, ");
    message.append(decimal_text(result.findings.len() as u64).as_str());
    message.append(" findings, ");
    message.append(decimal_text(result.scan_time_ms).as_str());
    message.append("ms");
    let severity = if result.findings.len() == 0 {
        "info"
    } else {
        "warning"
    };
    ActivityEvent::general(severity, "memory_scan", title, message.as_str())
}

/// The entry on changed settings; `full` tells which request changed them.
pub fn settings_changed(full: bool) -> (event: ActivityEvent)
    ensures
        event@ == plain_event(
            "info"@,
            "settings"@,
            if full {
                "Configuration updated via settings.set_full"@
            } else {
                "Configuration updated via IPC"@
            },
        ),
{
    let title = if full {
        "Configuration updated via settings.set_full".to_owned()
    } else {
        "Configuration updated via IPC".to_owned()
    };
    ActivityEvent::general("info", "settings", title, "")
}

/// The entry on protection that the user paused or resumed.
pub fn protection_switched(paused: bool) -> (event: ActivityEvent)
    ensures
        event@ == switch_event(paused),
        event@ == if paused {
            plain_event("warning"@, "protection"@, "Protection paused by user"@)
        } else {
            plain_event("info"@, "protection"@, "Protection resumed by user"@)
        },
{
    if paused {
        ActivityEvent::general(
            "warning",
            "protection",
            "Protection paused by user".to_owned(),
            "",
        )
    } else {
        ActivityEvent::general(
            "info",
            "protection",
            "Protection resumed by user".to_owned(),
            "",
        )
    }
}

/// The score of a buffer with what the history of its process adds, up to 100.
pub open spec fn boosted(score: u32, boost: u32) -> int {
    if score + boost > 100 {
        100
    } else {
        score + boost
    }
}

pub fn total_score(score: u32, boost: u32) -> (total: u32)
    ensures
        total == boosted(score, boost),
        total == if score + boost > 100 {
            100
        } else {
            score + boost
        },
{
    let total: u64 = score as u64 + boost as u64;
    if total > 100 {
        100
    } else {
        total as u32
    }
}

/// Whether an entry tells of trouble.
pub open spec fn troubling(severity: Seq<char>) -> bool {
    severity == "warning"@ || severity == "critical"@ || severity == "error"@
}

/// At most `n` of the entries that tell of trouble, in their order.
pub open spec fn troubles(rows: Seq<ActivityRow<Seq<char>>>, n: nat) -> Seq<ActivityRow<Seq<char>>>
    decreases rows.len(),
{
    if rows.len() == 0 {
        Seq::empty()
    } else {
        let before = troubles(rows.drop_last(), n);
        if before.len() < n && troubling(rows.last().severity) {
            before.push(rows.last())
        } else {
            before
        }
    }
}

/// The first ten entries that tell of trouble, for the diagnostics.
pub fn recent_errors(rows: &Vec<ActivityRow>) -> (list: Vec<ActivityRow>)
    ensures
        activity_rows_view(list@) == troubles(activity_rows_view(rows@), 10),
        list@.len() <= 10,
{
    let ghost all = activity_rows_view(rows@);
    let mut list: Vec<ActivityRow> = Vec::new();
    let mut i: usize = 0;
    assert(activity_rows_view(list@) =~= troubles(all.take(0), 10));
    while i < rows.len()
        invariant
            i <= rows@.len(),
            all == activity_rows_view(rows@),
            activity_rows_view(list@) == troubles(all.take(i as int), 10),
            list@.len() <= 10,
        decreases rows@.len() - i,
    {
        assert(all.take(i + 1).drop_last() =~= all.take(i as int));
        assert(all.take(i + 1).last() == rows@[i as int]@);
        let r = &rows[i];
        let severity = r.severity.as_str();
        if list.len() < 10 && (same(severity, "warning") || same(severity, "critical") || same(
            severity,
            "error",
        )) {
            let ghost before = list@;
            list.push(
                ActivityRow {
                    timestamp: r.timestamp,
                    severity: r.severity.clone(),
                    category: r.category.clone(),
                    title: r.title.clone(),
                    message: r.message.clone(),
                },
            );
            assert(activity_rows_view(list@) =~= activity_rows_view(before).push(
                rows@[i as int]@,
            ));
        }
        i = i + 1;
    }
    assert(all.take(all.len() as int) =~= all);
    list
}

/// A running copy of a file is looked into from a score of 76 on; it is the first
/// process of that path, in any case, and none where there is none.
pub proof fn running_copies_are_looked_into(
    file_path: Seq<char>,
    argus_score: u32,
    processes: Seq<ProcessInfo>,
    found: Option<int>,
    k: int,
)
    requires
        to_look_into(file_path, argus_score, processes, found),
    ensures
        found is Some ==> argus_score >= 76,
        found matches Some(i) ==> 0 <= i < processes.len() && (processes[i].path matches Some(path)
            && lowercased(path@) == lowercased(file_path)),
        argus_score >= 76 && 0 <= k < processes.len() && (processes[k].path matches Some(path)
            && lowercased(path@) == lowercased(file_path)) ==> found is Some && found->0 <= k,
{
    if argus_score >= 76 && 0 <= k < processes.len() && runs_from(processes[k], file_path) {
        assert(runs_from(processes[k], file_path));
    }
}

/// A boost never lowers a score that is within a hundred, nor takes it beyond.
pub proof fn boost_adds_up_to_a_hundred(score: u32, boost: u32)
    ensures
        boosted(score, boost) <= 100,
        score + boost <= 100 ==> boosted(score, boost) == score + boost,
        score + boost > 100 ==> boosted(score, boost) == 100,
{
}

/// A look into memory that finds something is logged as a warning, else as
/// information.
pub proof fn findings_make_a_warning(findings: nat)
    ensures
        findings > 0 ==> memory_severity(findings) == "warning"@,
        findings == 0 ==> memory_severity(findings) == "info"@,
{
}

/// Warnings, critical entries and errors tell of trouble, and nothing else does.
pub proof fn troubles_are_these(severity: Seq<char>)
    ensures
        troubling(severity) <==> severity == "warning"@ || severity == "critical"@ || severity
            == "error"@,
{
}

proof fn lemma_troubles(rows: Seq<ActivityRow<Seq<char>>>, n: nat)
    ensures
        troubles(rows, n).len() <= n,
        troubles(rows, n) == (if rows.filter(
            |r: ActivityRow<Seq<char>>| troubling(r.severity),
        ).len() <= n {
            rows.filter(|r: ActivityRow<Seq<char>>| troubling(r.severity))
        } else {
            rows.filter(|r: ActivityRow<Seq<char>>| troubling(r.severity)).take(n as int)
        }),
    decreases rows.len(),
{
    reveal(Seq::filter);
    let f = |r: ActivityRow<Seq<char>>| troubling(r.severity);
    if rows.len() > 0 {
        let rest = rows.drop_last();
        lemma_troubles(rest, n);
        let all = rows.filter(f);
        let before = rest.filter(f);
        if f(rows.last()) {
            assert(all =~= before.push(rows.last()));
            if before.len() >= n {
                assert(all.take(n as int) =~= before.take(n as int));
                assert(before.len() == n ==> before.take(n as int) =~= before);
            }
        } else {
            assert(all =~= before);
        }
    }
}

/// The diagnostics hold the first entries that tell of trouble, in their order: all of
/// them, or as many as asked for.
pub proof fn first_troubles_are_told(rows: Seq<ActivityRow<Seq<char>>>, n: nat)
    ensures
        ({
            let all = rows.filter(|r: ActivityRow<Seq<char>>| troubling(r.severity));
            &&& all.len() <= n ==> troubles(rows, n) == all
            &&& all.len() > n ==> troubles(rows, n) == all.take(n as int)
        }),
{
    lemma_troubles(rows, n);
}

/// An entry without a message is as severe, and of the category and title, as said.
pub proof fn plain_entries_say_what_they_say(
    severity: Seq<char>,
    category: Seq<char>,
    title: Seq<char>,
)
    ensures
        ({
            let e = plain_event(severity, category, title);
            &&& e.severity == severity && e.category == category && e.title == title
            &&& e.message.len() == 0 && e.scan_id is None
        }),
{
    reveal_strlit("");
}

/// A reload of the rules tells how many there are, or why there are none.
pub proof fn reload_of_rules_is_told(count: u64, error: Seq<char>)
    ensures
        yara_words(Ok(count)) == decimal(count as nat) + " YARA rules reloaded"@,
        yara_words(Err(error)) == "YARA reload error: "@ + error,
{
}

/// To pause protection is a warning, to resume it is not.
pub proof fn paused_protection_is_a_warning(paused: bool)
    ensures
        paused ==> switch_event(paused).severity == "warning"@ && switch_event(paused).title
            == "Protection paused by user"@,
        !paused ==> switch_event(paused).severity == "info"@ && switch_event(paused).title
            == "Protection resumed by user"@,
        switch_event(paused).category == "protection"@,
{
}

} // verus!
