//! The folder scan: what becomes of each file, and of the job in the end.
//!
//! The walk over the directories, the engines and the threads are outside. Here
//! stand the decisions between them: which entries are visited, which files are
//! scanned, what a timeout does to a score, and what is reported.

use super::board::{detection_view, Board, JobCounters, ScanBoard};
use super::job::{
    detections_view, duplicate_detections, duration_ms, encoded, fresh_live, millis_between,
    records_view, ActivityEvent, Detection, Job, OrchestratedJobResult, ScanJobStatus,
    ScanLiveState, ScanRecord, ScanRow,
};
use super::perf::{countable, with_file};
use super::verdict::{
    unify_detection_filtered, united, ArgusVerdict, Finding, ScanTiming,
};
use crate::text::{
    contains, decimal, decimal_text, join, joined, lowercased, occurs, owned_view, same, text_view,
    texts, to_lowercase,
};
use vstd::prelude::*;

verus! {

/// What the walk knows of a directory entry.
#[derive(Debug, Clone, Copy, PartialEq, Eq, Structural)]
pub struct EntryFacts {
    /// A symbolic link or junction.
    pub reparse_point: bool,
    /// Excluded by the configuration.
    pub excluded: bool,
    pub is_dir: bool,
    pub is_file: bool,
    /// A directory or file that is never worth a scan.
    pub skippable: bool,
    /// A file of the daemon itself.
    pub own: bool,
}

/// What the walk does with an entry.
#[derive(Debug, Clone, Copy, PartialEq, Eq, Structural)]
pub enum Visit {
    Skip,
    Descend,
    Emit,
}

pub open spec fn visit_of(f: EntryFacts) -> Visit {
    if f.reparse_point || f.excluded || f.skippable || f.own {
        Visit::Skip
    } else if f.is_dir {
        Visit::Descend
    } else if f.is_file {
        Visit::Emit
    } else {
        Visit::Skip
    }
}

/// Judge an entry of a directory.
pub fn visit_entry(f: EntryFacts) -> (visit: Visit)
    ensures
        visit == visit_of(f),
{
    if f.reparse_point || f.excluded {
        return Visit::Skip;
    }
    if f.is_dir {
        if f.skippable || f.own {
            Visit::Skip
        } else {
            Visit::Descend
        }
    } else if f.is_file {
        if f.skippable || f.own {
            Visit::Skip
        } else {
            Visit::Emit
        }
    } else {
        Visit::Skip
    }
}

/// Whether a directory is entered at all: the walk is neither too deep nor cancelled.
pub open spec fn enterable(depth_left: u32, cancelled: bool) -> bool {
    depth_left > 0 && !cancelled
}

pub fn may_enter(depth_left: u32, cancelled: bool) -> (yes: bool)
    ensures
        yes == (depth_left > 0 && !cancelled),
        yes == enterable(depth_left, cancelled),
{
    depth_left > 0 && !cancelled
}

/// Whether the total shown is brought up to date at the `count`-th file.
pub fn shows_progress(count: u64) -> (yes: bool)
    ensures
        yes == (count % 1000 == 0),
{
    count % 1000 == 0
}

/// What to do with a file before the engines run.
pub enum FileScreen {
    TooLarge,
    /// Its size could not be read; the text is the error to report.
    Unreadable(String),
    /// Known to be clean.
    Cached,
    Scan,
}

/// The message of an error on one file.
pub open spec fn file_message(path: Seq<char>, error: Seq<char>) -> Seq<char> {
    path + ": "@ + error
}

pub fn describe_error(path: &str, error: &str) -> (message: String)
    ensures
        message@ == file_message(path@, error@),
{
    let mut message = path.to_owned();
    message.append(": ");
    message.append(error);
    message
}

/// Judge a file by its size, which may be unreadable, and by the cache.
pub fn screen_file(path: &str, size: Result<u64, &str>, max_size: u64, cached_clean: bool) -> (screen:
    FileScreen)
    ensures
        match size {
            Ok(n) => if n > max_size {
                screen is TooLarge
            } else if cached_clean {
                screen is Cached
            } else {
                screen is Scan
            },
            Err(e) => screen matches FileScreen::Unreadable(m) && m@ == file_message(path@, e@),
        },
{
    match size {
        Ok(n) => if n > max_size {
            FileScreen::TooLarge
        } else if cached_clean {
            FileScreen::Cached
        } else {
            FileScreen::Scan
        },
        Err(e) => FileScreen::Unreadable(describe_error(path, e)),
    }
}

/// What the signature engine said of a file.
#[derive(Debug)]
pub struct ClamResult {
    pub infected: bool,
    pub virus_name: Option<String>,
    pub error: Option<String>,
}

/// A file whose time was used up before the heuristics could run.
pub struct PartialResult {
    pub threat: Option<Detection>,
    /// Whether the file is remembered as clean.
    pub cache_clean: bool,
}

/// Conclude on a file from the signature engine alone.
pub fn conclude_partial(path: &str, clamav: &ClamResult) -> (result: PartialResult)
    ensures
        detection_view(result.threat) == if clamav.infected {
            Some(
                Detection {
                    path: path@,
                    virus_name: match owned_view(clamav.virus_name) {
                        Some(name) => name,
                        None => "Unknown"@,
                    },
                },
            )
        } else {
            None
        },
        result.cache_clean == !clamav.infected,
{
    let threat = if clamav.infected {
        let virus_name = match &clamav.virus_name {
            Some(name) => name.clone(),
            None => "Unknown".to_owned(),
        };
        Some(Detection { path: path.to_owned(), virus_name })
    } else {
        None
    };
    PartialResult { threat, cache_clean: !clamav.infected }
}

/// Why a part of the analysis ran out of time.
#[derive(Debug, Clone, Copy, PartialEq, Eq, Structural)]
pub enum TimeoutReason {
    ClamAv,
    Yara,
    Total,
    Other,
}

/// How far the analysis of a file came.
#[derive(Debug, Clone, Copy, PartialEq, Eq, Structural)]
pub enum BudgetOutcome {
    Complete,
    Partial,
    Suspicious,
    Exhausted,
}

/// Counters of bounded execution.
#[derive(Debug, Clone, Copy, PartialEq, Eq, Structural)]
pub struct BudgetCounters {
    pub files_with_timeouts: u64,
    pub clamav_timeouts: u64,
    pub yara_timeouts: u64,
    pub total_timeouts: u64,
    pub partial_results: u64,
    pub exhausted: u64,
    pub realtime_timeouts: u64,
    pub idle_timeouts: u64,
    pub transient_skips: u64,
}

impl BudgetCounters {
    pub fn new() -> (c: BudgetCounters)
        ensures
            c == (BudgetCounters {
                files_with_timeouts: 0,
                clamav_timeouts: 0,
                yara_timeouts: 0,
                total_timeouts: 0,
                partial_results: 0,
                exhausted: 0,
                realtime_timeouts: 0,
                idle_timeouts: 0,
                transient_skips: 0,
            }),
    {
        BudgetCounters {
            files_with_timeouts: 0,
            clamav_timeouts: 0,
            yara_timeouts: 0,
            total_timeouts: 0,
            partial_results: 0,
            exhausted: 0,
            realtime_timeouts: 0,
            idle_timeouts: 0,
            transient_skips: 0,
        }
    }
}

/// The counters with one more timeout.
pub open spec fn with_timeout(c: BudgetCounters, reason: TimeoutReason) -> BudgetCounters {
    match reason {
        TimeoutReason::ClamAv => BudgetCounters {
            clamav_timeouts: c.clamav_timeouts.wrapping_add(1),
            ..c
        },
        TimeoutReason::Yara => BudgetCounters {
            yara_timeouts: c.yara_timeouts.wrapping_add(1),
            ..c
        },
        TimeoutReason::Total => BudgetCounters {
            total_timeouts: c.total_timeouts.wrapping_add(1),
            ..c
        },
        TimeoutReason::Other => c,
    }
}

/// The counters with all these timeouts.
pub open spec fn with_timeouts(c: BudgetCounters, reasons: Seq<TimeoutReason>) -> BudgetCounters
    decreases reasons.len(),
{
    if reasons.len() == 0 {
        c
    } else {
        with_timeout(with_timeouts(c, reasons.drop_last()), reasons.last())
    }
}

/// The counters after a file with timeouts.
pub open spec fn budget_after(
    c: BudgetCounters,
    reasons: Seq<TimeoutReason>,
    outcome: BudgetOutcome,
) -> BudgetCounters {
    let counted = with_timeouts(
        BudgetCounters { files_with_timeouts: c.files_with_timeouts.wrapping_add(1), ..c },
        reasons,
    );
    match outcome {
        BudgetOutcome::Partial | BudgetOutcome::Suspicious => BudgetCounters {
            partial_results: counted.partial_results.wrapping_add(1),
            ..counted
        },
        BudgetOutcome::Exhausted => BudgetCounters {
            exhausted: counted.exhausted.wrapping_add(1),
            ..counted
        },
        BudgetOutcome::Complete => counted,
    }
}

/// A score raised by the suspicion of timeouts, at most a hundred.
pub open spec fn raised(score: u32, weight: u32) -> u32 {
    if score + weight > 100 {
        100
    } else {
        (score + weight) as u32
    }
}

/// Count the timeouts of a file and raise its score. Without suspicion nothing
/// changes.
pub fn apply_timeouts(
    counters: &mut BudgetCounters,
    score: u32,
    weight: u32,
    reasons: &Vec<TimeoutReason>,
    outcome: BudgetOutcome,
) -> (new_score: u32)
    ensures
        new_score == if weight > 0 {
            raised(score, weight)
        } else {
            score
        },
        *final(counters) == if weight > 0 {
            budget_after(*old(counters), reasons@, outcome)
        } else {
            *old(counters)
        },
{
    if weight == 0 {
        return score;
    }
    counters.files_with_timeouts = counters.files_with_timeouts.wrapping_add(1);
    let ghost first = *counters;
    let mut i: usize = 0;
    assert(reasons@.take(0) =~= Seq::<TimeoutReason>::empty());
    while i < reasons.len()
        invariant
            i <= reasons@.len(),
            *counters == with_timeouts(first, reasons@.take(i as int)),
        decreases reasons@.len() - i,
    {
        assert(reasons@.take(i + 1).drop_last() =~= reasons@.take(i as int));
        match reasons[i] {
            TimeoutReason::ClamAv => {
                counters.clamav_timeouts = counters.clamav_timeouts.wrapping_add(1);
            },
            TimeoutReason::Yara => {
                counters.yara_timeouts = counters.yara_timeouts.wrapping_add(1);
            },
            TimeoutReason::Total => {
                counters.total_timeouts = counters.total_timeouts.wrapping_add(1);
            },
            TimeoutReason::Other => {},
        }
        i = i + 1;
    }
    assert(reasons@.take(reasons@.len() as int) =~= reasons@);
    match outcome {
        BudgetOutcome::Partial | BudgetOutcome::Suspicious => {
            counters.partial_results = counters.partial_results.wrapping_add(1);
        },
        BudgetOutcome::Exhausted => {
            counters.exhausted = counters.exhausted.wrapping_add(1);
        },
        BudgetOutcome::Complete => {},
    }
    let sum: u64 = score as u64 + weight as u64;
    if sum > 100 {
        100
    } else {
        sum as u32
    }
}

/// Sum of the weights of the findings that speak of drift.
pub open spec fn drift_sum(findings: Seq<Finding>) -> nat
    decreases findings.len(),
{
    if findings.len() == 0 {
        0
    } else {
        let f = findings.last();
        drift_sum(findings.drop_last()) + if occurs("drift"@, lowercased(f.description@)) {
            f.weight as nat
        } else {
            0
        }
    }
}

proof fn lemma_drift_grows(findings: Seq<Finding>, i: int)
    requires
        0 <= i <= findings.len(),
    ensures
        drift_sum(findings.take(i)) <= drift_sum(findings),
    decreases findings.len() - i,
{
    if i < findings.len() {
        lemma_drift_grows(findings, i + 1);
        assert(findings.take(i + 1).drop_last() =~= findings.take(i));
    } else {
        assert(findings.take(i) =~= findings);
    }
}

/// Add up the weights of the findings that speak of drift; nothing where the sum
/// does not fit in 32 bits.
pub fn drift_escalation(findings: &Vec<Finding>) -> (sum: Option<u32>)
    ensures
        match sum {
            Some(n) => n == drift_sum(findings@),
            None => drift_sum(findings@) > u32::MAX,
        },
{
    let mut sum: u64 = 0;
    let mut i: usize = 0;
    assert(findings@.take(0) =~= Seq::<Finding>::empty());
    while i < findings.len()
        invariant
            i <= findings@.len(),
            sum <= u32::MAX,
            sum == drift_sum(findings@.take(i as int)),
        decreases findings@.len() - i,
    {
        proof {
            lemma_drift_grows(findings@, i + 1);
            assert(findings@.take(i + 1).drop_last() =~= findings@.take(i as int));
        }
        let lower = to_lowercase(findings[i].description.as_str());
        if contains(lower.as_str(), "drift") {
            sum = sum + findings[i].weight as u64;
            if sum > u32::MAX as u64 {
                return None;
            }
        }
        i = i + 1;
    }
    assert(findings@.take(findings@.len() as int) =~= findings@);
    Some(sum as u32)
}

/// Weight of a heuristic score as evidence on its ecosystem: a tenth of it, at most
/// ten.
pub open spec fn tenth_of(base_score: u32) -> u32 {
    if base_score / 10 > 10 {
        10
    } else {
        base_score / 10
    }
}

pub fn ecosystem_weight(base_score: u32) -> (weight: u32)
    ensures
        weight == tenth_of(base_score),
        weight == if base_score / 10 > 10 {
            10
        } else {
            base_score / 10
        },
{
    let tenth: u32 = base_score / 10;
    if tenth > 10 {
        10
    } else {
        tenth
    }
}

/// What is noted of a file as evidence on its ecosystem.
pub fn ecosystem_note(findings: usize, base_score: u32) -> (note: String)
    ensures
        note@ == decimal(findings as nat) + " findings, score "@ + decimal(base_score as nat),
{
    let mut note = decimal_text(findings as u64);
    note.append(" findings, score ");
    note.append(decimal_text(base_score as u64).as_str());
    note
}

/// Whether an analysis came to its end in time.
pub open spec fn in_time(expired: bool, timeouts: int) -> bool {
    !expired && timeouts == 0
}

pub fn completed_within_budget(expired: bool, timeouts: usize) -> (yes: bool)
    ensures
        yes == in_time(expired, timeouts as int),
        yes == (!expired && timeouts == 0),
{
    !expired && timeouts == 0
}

/// Bonus for a file that was seen before: two for each time, at most eight.
pub open spec fn bonus_of(count: u32) -> int {
    2 * (if count > 4 {
        4
    } else {
        count as int
    })
}

pub fn recurrence_bonus(count: u32) -> (bonus: u32)
    ensures
        bonus == bonus_of(count),
        bonus == 2 * (if count > 4 {
            4
        } else {
            count as int
        }),
{
    if count > 4 {
        8
    } else {
        count * 2
    }
}

/// What a scanned file is reported as.
pub enum FileReport {
    Threat(Detection),
    /// No threat, but the heuristics found something.
    Findings,
    Nothing,
}

/// The conclusion on a file that both engines have seen.
pub struct FileConclusion {
    pub report: FileReport,
    pub errors: Vec<String>,
    /// Whether the file is remembered as clean.
    pub cache_clean: bool,
    /// Whether the file builds familiarity.
    pub observe_trust: bool,
}

/// The messages of the errors on one file.
pub open spec fn file_errors(
    path: Seq<char>,
    worker_error: Option<Seq<char>>,
    clamav_error: Option<Seq<char>>,
) -> Seq<Seq<char>> {
    (match worker_error {
        Some(e) => seq![file_message(path, e)],
        None => Seq::empty(),
    }) + (match clamav_error {
        Some(e) => seq![file_message(path, e)],
        None => Seq::empty(),
    })
}

/// Conclude on a file that both engines have seen.
pub fn conclude_file(
    path: &str,
    clamav: &ClamResult,
    argus: &ArgusVerdict,
    worker_error: Option<&str>,
    exclusions: &[String],
) -> (conclusion: FileConclusion)
    ensures
        ({
            let name = united(
                clamav.infected,
                owned_view(clamav.virus_name),
                *argus,
                exclusions@,
            );
            &&& match name {
                Some(virus_name) => conclusion.report matches FileReport::Threat(d) && d@ == (
                Detection { path: path@, virus_name }),
                None => if argus.findings@.len() > 0 {
                    conclusion.report is Findings
                } else {
                    conclusion.report is Nothing
                },
            }
            &&& conclusion.cache_clean == (name is None && clamav.error is None)
        }),
        texts(conclusion.errors@) == file_errors(
            path@,
            text_view(worker_error),
            owned_view(clamav.error),
        ),
        conclusion.observe_trust == (argus.score == 0 && !clamav.infected),
        conclusion.report is Threat ==> !conclusion.cache_clean && !conclusion.observe_trust,
{
    let mut errors: Vec<String> = Vec::new();
    match worker_error {
        Some(e) => errors.push(describe_error(path, e)),
        None => {},
    }
    let mut clamav_failed = false;
    match &clamav.error {
        Some(e) => {
            clamav_failed = true;
            errors.push(describe_error(path, e.as_str()));
        },
        None => {},
    }
    assert(texts(errors@) =~= file_errors(path@, text_view(worker_error), owned_view(clamav.error)));
    let clamav_name: Option<&str> = match &clamav.virus_name {
        Some(name) => Some(name.as_str()),
        None => None,
    };
    let (is_threat, name) = unify_detection_filtered(
        clamav.infected,
        clamav_name,
        argus,
        exclusions,
    );
    let report = match name {
        Some(virus_name) => FileReport::Threat(Detection { path: path.to_owned(), virus_name }),
        None => if argus.findings.len() > 0 {
            FileReport::Findings
        } else {
            FileReport::Nothing
        },
    };
    FileConclusion {
        report,
        errors,
        cache_clean: !is_threat && !clamav_failed,
        observe_trust: argus.score == 0 && !clamav.infected,
    }
}

/// Message of a scan thread to the collector.
pub enum ScanMsg {
    Progress(String),
    Threat(Detection, Option<FileTiming>),
    Findings(Option<FileTiming>),
    Error(String),
    Done,
}

/// Mathematical value of a [`ScanMsg`].
pub enum Msg {
    Progress(Seq<char>),
    Threat(Detection<Seq<char>>, Option<FileTiming>),
    Findings(Option<FileTiming>),
    Error(Seq<char>),
    Done,
}

impl View for ScanMsg {
    type V = Msg;

    open spec fn view(&self) -> Msg {
        match *self {
            ScanMsg::Progress(path) => Msg::Progress(path@),
            ScanMsg::Threat(detection, timing) => Msg::Threat(detection@, timing),
            ScanMsg::Findings(timing) => Msg::Findings(timing),
            ScanMsg::Error(error) => Msg::Error(error@),
            ScanMsg::Done => Msg::Done,
        }
    }
}

/// The values of a list of messages.
pub open spec fn msgs_view(msgs: Seq<ScanMsg>) -> Seq<Msg> {
    msgs.map_values(|m: ScanMsg| m@)
}

/// The timing of one file, as it enters the summary.
pub struct FileTiming {
    pub path: String,
    pub file_size: u64,
    pub timing: ScanTiming,
}

/// What the scan threads of a job have reported so far.
pub struct ScanTally {
    pub detections: Vec<Detection>,
    pub errors: Vec<String>,
    pub threads_done: usize,
    pub num_threads: usize,
}

impl ScanTally {
    pub fn new(num_threads: usize) -> (tally: ScanTally)
        ensures
            detections_view(tally.detections@) == Seq::<Detection<Seq<char>>>::empty(),
            texts(tally.errors@) == Seq::<Seq<char>>::empty(),
            tally.threads_done == 0,
            tally.num_threads == num_threads,
    {
        let tally = ScanTally {
            detections: Vec::new(),
            errors: Vec::new(),
            threads_done: 0,
            num_threads,
        };
        assert(detections_view(tally.detections@) =~= Seq::empty());
        assert(texts(tally.errors@) =~= Seq::empty());
        tally
    }

    /// Take a message in. Returns whether all threads are done.
    pub fn absorb(&mut self, board: &mut ScanBoard, msg: ScanMsg) -> (finished: bool)
        requires
            old(self).threads_done < old(self).num_threads,
            old(board).active_scan matches Some(j) ==> j.perf_summary.wf() && countable(
                j.perf_summary@,
            ),
        ensures
            final(self).num_threads == old(self).num_threads,
            detections_view(final(self).detections@) == match msg {
                ScanMsg::Threat(d, _) => detections_view(old(self).detections@).push(d@),
                _ => detections_view(old(self).detections@),
            },
            texts(final(self).errors@) == match msg {
                ScanMsg::Error(e) => texts(old(self).errors@).push(e@),
                _ => texts(old(self).errors@),
            },
            final(self).threads_done == old(self).threads_done + if msg is Done {
                1int
            } else {
                0int
            },
            finished == (msg is Done && final(self).threads_done >= final(self).num_threads),
            detections_view(final(self).detections@) == detected(
                detections_view(old(self).detections@),
                msg@,
            ),
            texts(final(self).errors@) == complained(texts(old(self).errors@), msg@),
            finished == last_message(
                msg@,
                old(self).threads_done as int,
                old(self).num_threads as int,
            ),
            final(board)@ == absorbed(old(board)@, msg),
    {
        match msg {
            ScanMsg::Progress(path) => {
                if let Some(live) = &mut board.scan_live {
                    live.current_path = path;
                }
                false
            },
            ScanMsg::Threat(detection, timing) => {
                record_timing(board, timing);
                let ghost before = self.detections@;
                self.detections.push(detection);
                assert(detections_view(self.detections@) =~= detections_view(before).push(
                    detection@,
                ));
                false
            },
            ScanMsg::Findings(timing) => {
                record_timing(board, timing);
                false
            },
            ScanMsg::Error(error) => {
                let ghost before = self.errors@;
                self.errors.push(error);
                assert(texts(self.errors@) =~= texts(before).push(error@));
                false
            },
            ScanMsg::Done => {
                self.threads_done = self.threads_done + 1;
                self.threads_done >= self.num_threads
            },
        }
    }
}

/// The detections after a message.
pub open spec fn detected(
    detections: Seq<Detection<Seq<char>>>,
    msg: Msg,
) -> Seq<Detection<Seq<char>>> {
    match msg {
        Msg::Threat(d, _) => detections.push(d),
        _ => detections,
    }
}

/// The errors after a message.
pub open spec fn complained(errors: Seq<Seq<char>>, msg: Msg) -> Seq<Seq<char>> {
    match msg {
        Msg::Error(e) => errors.push(e),
        _ => errors,
    }
}

/// Whether a message is the last one: that of the last thread to be done.
pub open spec fn last_message(msg: Msg, done_before: int, threads: int) -> bool {
    msg is Done && done_before + 1 >= threads
}

/// The board with the timing of one file.
pub open spec fn with_timing(b: Board, timing: Option<FileTiming>) -> Board {
    match (b.active, timing) {
        (Some(j), Some(t)) => Board {
            active: Some(
                Job {
                    perf_summary: with_file(j.perf_summary, t.path@, t.file_size, t.timing),
                    ..j
                },
            ),
            ..b
        },
        _ => b,
    }
}

/// The board after a message.
pub open spec fn absorbed(b: Board, msg: ScanMsg) -> Board {
    match msg {
        ScanMsg::Progress(path) => match b.live {
            Some(l) => Board { live: Some(ScanLiveState { current_path: path@, ..l }), ..b },
            None => b,
        },
        ScanMsg::Threat(_, timing) => with_timing(b, timing),
        ScanMsg::Findings(timing) => with_timing(b, timing),
        _ => b,
    }
}

fn record_timing(board: &mut ScanBoard, timing: Option<FileTiming>)
    requires
        old(board).active_scan matches Some(j) ==> j.perf_summary.wf() && countable(
            j.perf_summary@,
        ),
    ensures
        final(board)@ == with_timing(old(board)@, timing),
{
    match timing {
        Some(t) => {
            if let Some(job) = &mut board.active_scan {
                job.perf_summary.record_file(t.path.as_str(), t.file_size, &t.timing);
            }
        },
        None => {},
    }
}

/// The board when the worker of a job begins: a job from the queue shows itself
/// as running, another gets its live snapshot now.
pub open spec fn worker_begun(
    b: Board,
    id: Seq<char>,
    kind: Seq<char>,
    now: i64,
    from_queue: bool,
    cancel_flag: bool,
) -> Board {
    if from_queue {
        match b.live {
            Some(l) => Board {
                live: Some(
                    ScanLiveState {
                        files_total: 0,
                        status: encoded(ScanJobStatus::Running),
                        ..l
                    },
                ),
                ..b
            },
            None => b,
        }
    } else {
        Board {
            live: Some(
                ScanLiveState {
                    cancel_flag,
                    ..fresh_live(id, kind, ScanJobStatus::Running, now, 0, "Scanning..."@)
                },
            ),
            ..b
        }
    }
}

/// How a job ended.
pub struct JobEnd<T = String> {
    pub id: T,
    pub kind: T,
    /// Whether the job came from the queue.
    pub from_queue: bool,
    pub cancelled: bool,
    pub files_discovered: u64,
    /// The scanned places, in one text.
    pub targets: T,
    pub finished: i64,
}

impl View for JobEnd {
    type V = JobEnd<Seq<char>>;

    open spec fn view(&self) -> JobEnd<Seq<char>> {
        JobEnd {
            id: self.id@,
            kind: self.kind@,
            from_queue: self.from_queue,
            cancelled: self.cancelled,
            files_discovered: self.files_discovered,
            targets: self.targets@,
            finished: self.finished,
        }
    }
}

/// The status word of a folder scan.
pub open spec fn end_word(cancelled: bool, threats: u64) -> Seq<char> {
    if cancelled {
        "cancelled"@
    } else if threats > 0 {
        "threats"@
    } else {
        "clean"@
    }
}

/// The counters after a job from the queue.
pub open spec fn counted_end(c: JobCounters, kind: Seq<char>, cancelled: bool) -> JobCounters {
    if cancelled {
        JobCounters { cancelled: c.cancelled.wrapping_add(1), ..c }
    } else if kind == "full"@ {
        JobCounters { completed_full: c.completed_full.wrapping_add(1), ..c }
    } else if kind == "folder"@ {
        JobCounters { completed_folder: c.completed_folder.wrapping_add(1), ..c }
    } else if kind == "quick"@ {
        JobCounters { completed_quick: c.completed_quick.wrapping_add(1), ..c }
    } else {
        c
    }
}

pub open spec fn end_status(cancelled: bool) -> ScanJobStatus {
    if cancelled {
        ScanJobStatus::Cancelled
    } else {
        ScanJobStatus::Completed
    }
}

/// When the job that holds the board started.
pub open spec fn board_started(b: Board) -> i64 {
    match b.active {
        Some(j) => j.started_at,
        None => 0,
    }
}

/// The board after a folder scan.
pub open spec fn folder_finished(
    b: Board,
    end: JobEnd<Seq<char>>,
    detections: Seq<Detection<Seq<char>>>,
    errors: Seq<Seq<char>>,
) -> Board {
    let l = b.live->0;
    let word = end_word(end.cancelled, l.threats_found);
    Board {
        live: Some(
            ScanLiveState {
                files_total: end.files_discovered,
                status: encoded(end_status(end.cancelled)),
                current_path: Seq::empty(),
                ..l
            },
        ),
        active: match b.active {
            Some(j) => Some(
                Job {
                    status: end_status(end.cancelled),
                    finished_at: Some(end.finished),
                    files_total: end.files_discovered,
                    files_scanned: l.files_scanned,
                    threats_found: l.threats_found,
                    detections,
                    errors,
                    current_path: Seq::empty(),
                    ..j
                },
            ),
            None => None,
        },
        history: b.history.push(
            ScanRecord {
                job_id: end.id,
                scan_type: end.kind,
                started_at: board_started(b),
                finished_at: end.finished,
                files_scanned: l.files_scanned,
                threats_found: l.threats_found,
                status: word,
            },
        ),
        counters: if end.from_queue {
            counted_end(b.counters, end.kind, end.cancelled)
        } else {
            b.counters
        },
        last_job: if end.from_queue {
            Some(
                OrchestratedJobResult {
                    id: end.id,
                    path: end.targets,
                    verdict: Some(word),
                    status: word,
                    duration_ms: millis_between(l.started_at, end.finished),
                    error: None,
                },
            )
        } else {
            b.last_job
        },
    }
}

/// The row of a folder scan.
pub open spec fn folder_row(
    b: Board,
    end: JobEnd<Seq<char>>,
    errors: Seq<Seq<char>>,
) -> ScanRow<Seq<char>> {
    let l = b.live->0;
    ScanRow {
        scan_id: end.id,
        scan_type: end.kind,
        status: end_word(end.cancelled, l.threats_found),
        started_at: board_started(b),
        finished_at: Some(end.finished),
        files_scanned: l.files_scanned,
        threats_found: l.threats_found,
        errors_count: if b.active is Some {
            errors.len() as u64
        } else {
            0
        },
        duration_ms: millis_between(board_started(b), end.finished),
        bytes_scanned: match b.active {
            Some(j) => j.perf_summary.total_bytes_scanned,
            None => 0,
        },
        clamav_phase_us: match b.active {
            Some(j) => j.perf_summary.total_clamav_us,
            None => 0,
        },
        argus_phase_us: match b.active {
            Some(j) => j.perf_summary.total_argus_us,
            None => 0,
        },
    }
}

/// The names of the detected threats.
pub open spec fn threat_names(detections: Seq<Detection<Seq<char>>>) -> Seq<Seq<char>> {
    detections.map_values(|d: Detection<Seq<char>>| d.virus_name)
}

/// The event of a folder scan.
pub open spec fn folder_event(
    b: Board,
    end: JobEnd<Seq<char>>,
    detections: Seq<Detection<Seq<char>>>,
) -> ActivityEvent<Seq<char>> {
    let l = b.live->0;
    ActivityEvent {
        severity: if l.threats_found > 0 {
            "critical"@
        } else if end.cancelled {
            "warning"@
        } else {
            "info"@
        },
        category: "scan"@,
        title: (if end.cancelled {
            "Quick scan cancelled — "@
        } else {
            "Quick scan complete — "@
        }) + decimal(l.files_scanned as nat) + " files, "@ + decimal(l.threats_found as nat)
            + " threats"@,
        message: joined(threat_names(detections), ", "@),
        scan_id: Some(end.id),
    }
}

/// Begin the work on a job.
pub fn begin_worker(
    board: &mut ScanBoard,
    id: &str,
    kind: &str,
    now: i64,
    from_queue: bool,
    cancel_flag: bool,
)
    ensures
        final(board)@ == worker_begun(old(board)@, id@, kind@, now, from_queue, cancel_flag),
{
    if from_queue {
        if let Some(live) = &mut board.scan_live {
            live.files_total = 0;
            live.set_status(ScanJobStatus::Running);
        }
    } else {
        let mut live = ScanLiveState::new(
            id,
            kind,
            ScanJobStatus::Running,
            now,
            0,
            "Scanning...",
        );
        live.cancel_flag = cancel_flag;
        board.scan_live = Some(live);
    }
}

/// The board once `count` files were found: the total shown is brought up to date
/// now and again.
pub open spec fn total_shown(b: Board, count: u64) -> Board {
    match b.live {
        Some(l) => if count % 1000 == 0 {
            Board { live: Some(ScanLiveState { files_total: count, ..l }), ..b }
        } else {
            b
        },
        None => b,
    }
}

/// Note that the walk has found `count` files so far.
pub fn show_total(board: &mut ScanBoard, count: u64)
    ensures
        final(board)@ == total_shown(old(board)@, count),
{
    if shows_progress(count) {
        if let Some(live) = &mut board.scan_live {
            live.files_total = count;
        }
    }
}

fn names_of(detections: &Vec<Detection>) -> (names: Vec<String>)
    ensures
        texts(names@) == threat_names(detections_view(detections@)),
{
    let mut names: Vec<String> = Vec::new();
    let mut i: usize = 0;
    let ghost all = threat_names(detections_view(detections@));
    assert(texts(names@) =~= all.take(0));
    while i < detections.len()
        invariant
            i <= detections@.len(),
            all == threat_names(detections_view(detections@)),
            texts(names@) == all.take(i as int),
        decreases detections@.len() - i,
    {
        let ghost before = names@;
        let name = detections[i].virus_name.clone();
        names.push(name);
        assert(texts(names@) =~= texts(before).push(name@));
        i = i + 1;
        assert(texts(names@) =~= all.take(i as int));
    }
    assert(all.take(all.len() as int) =~= all);
    names
}

/// Record the end of a folder scan. Each of the detections is to be persisted.
pub fn finish_folder_scan(board: &mut ScanBoard, end: &JobEnd, tally: ScanTally) -> (done: (
    ScanRow,
    ActivityEvent,
    Vec<Detection>,
))
    requires
        old(board).scan_live is Some,
    ensures
        final(board)@ == folder_finished(
            old(board)@,
            end@,
            detections_view(tally.detections@),
            texts(tally.errors@),
        ),
        done.0@ == folder_row(old(board)@, end@, texts(tally.errors@)),
        done.1@ == folder_event(old(board)@, end@, detections_view(tally.detections@)),
        detections_view(done.2@) == detections_view(tally.detections@),
{
    let ghost before = board@;
    let ghost errors_view = texts(tally.errors@);
    let status = if end.cancelled {
        ScanJobStatus::Cancelled
    } else {
        ScanJobStatus::Completed
    };
    let mut scanned: u64 = 0;
    let mut threats: u64 = 0;
    let mut live_started: i64 = 0;
    if let Some(live) = &mut board.scan_live {
        live.files_total = end.files_discovered;
        live.set_status(status);
        live.current_path = String::new();
        scanned = live.files_scanned;
        threats = live.threats_found;
        live_started = live.started_at;
    }
    let word = if end.cancelled {
        "cancelled"
    } else if threats > 0 {
        "threats"
    } else {
        "clean"
    };
    if end.from_queue {
        if end.cancelled {
            board.counters.cancelled = board.counters.cancelled.wrapping_add(1);
        } else if same(end.kind.as_str(), "full") {
            board.counters.completed_full = board.counters.completed_full.wrapping_add(1);
        } else if same(end.kind.as_str(), "folder") {
            board.counters.completed_folder = board.counters.completed_folder.wrapping_add(1);
        } else if same(end.kind.as_str(), "quick") {
            board.counters.completed_quick = board.counters.completed_quick.wrapping_add(1);
        }
        board.last_job = Some(
            OrchestratedJobResult {
                id: end.id.clone(),
                path: end.targets.clone(),
                verdict: Some(word.to_owned()),
                status: word.to_owned(),
                duration_ms: duration_ms(live_started, end.finished),
                error: None,
            },
        );
    }
    let detections = tally.detections;
    let names = names_of(&detections);
    let errors_len: u64 = tally.errors.len() as u64;
    let mut started: i64 = 0;
    let mut errors_count: u64 = 0;
    let mut bytes_scanned: u64 = 0;
    let mut clamav_phase_us: u64 = 0;
    let mut argus_phase_us: u64 = 0;
    if let Some(job) = &mut board.active_scan {
        started = job.started_at;
        errors_count = errors_len;
        bytes_scanned = job.perf_summary.total_bytes_scanned;
        clamav_phase_us = job.perf_summary.total_clamav_us;
        argus_phase_us = job.perf_summary.total_argus_us;
        job.status = status;
        job.finished_at = Some(end.finished);
        job.files_total = end.files_discovered;
        job.files_scanned = scanned;
        job.threats_found = threats;
        job.detections = duplicate_detections(&detections);
        job.errors = tally.errors;
        job.current_path = String::new();
    }
    let record = ScanRecord {
        job_id: end.id.clone(),
        scan_type: end.kind.clone(),
        started_at: started,
        finished_at: end.finished,
        files_scanned: scanned,
        threats_found: threats,
        status: word.to_owned(),
    };
    let ghost old_history = board.scan_history@;
    board.scan_history.push(record);
    assert(records_view(board.scan_history@) =~= records_view(old_history).push(record@));
    assert(board@ =~= folder_finished(before, end@, detections_view(detections@), errors_view));
    let row = ScanRow {
        scan_id: end.id.clone(),
        scan_type: end.kind.clone(),
        status: word.to_owned(),
        started_at: started,
        finished_at: Some(end.finished),
        files_scanned: scanned,
        threats_found: threats,
        errors_count,
        duration_ms: duration_ms(started, end.finished),
        bytes_scanned,
        clamav_phase_us,
        argus_phase_us,
    };
    let severity = if threats > 0 {
        "critical"
    } else if end.cancelled {
        "warning"
    } else {
        "info"
    };
    let mut title = if end.cancelled {
        "Quick scan cancelled — ".to_owned()
    } else {
        "Quick scan complete — ".to_owned()
    };
    title.append(decimal_text(scanned).as_str());
    title.append(" files, ");
    title.append(decimal_text(threats).as_str());
    title.append(" threats");
    let event = ActivityEvent {
        severity: severity.to_owned(),
        category: "scan".to_owned(),
        title,
        message: join(&names, ", "),
        scan_id: Some(end.id.clone()),
    };
    (row, event, detections)
}

/// The end of a folder scan frees the slot.
pub proof fn folder_end_frees_the_slot(
    b: Board,
    end: JobEnd<Seq<char>>,
    detections: Seq<Detection<Seq<char>>>,
    errors: Seq<Seq<char>>,
)
    ensures
        !super::board::occupied(folder_finished(b, end, detections, errors)),
{
}

/// A link or an excluded entry is never followed nor handed on, be it a directory or
/// a file; nor is one of the daemon's own, or one that is not worth a scan.
pub proof fn walk_stays_off_links_and_exclusions(f: EntryFacts)
    requires
        f.reparse_point || f.excluded || f.own || f.skippable,
    ensures
        visit_of(f) != Visit::Descend,
        visit_of(f) != Visit::Emit,
{
}

/// Every other directory is entered and every other file handed on; what is neither
/// is passed over.
pub proof fn walk_misses_no_plain_entry(f: EntryFacts)
    requires
        !f.reparse_point,
        !f.excluded,
        !f.own,
        !f.skippable,
    ensures
        f.is_dir ==> visit_of(f) == Visit::Descend,
        !f.is_dir && f.is_file ==> visit_of(f) == Visit::Emit,
        !f.is_dir && !f.is_file ==> visit_of(f) == Visit::Skip,
{
}

/// A directory is entered as long as the walk is not too deep, unless the scan was
/// cancelled.
pub proof fn walk_ends_at_its_depth(depth_left: u32, cancelled: bool)
    ensures
        cancelled ==> !enterable(depth_left, cancelled),
        depth_left == 0 ==> !enterable(depth_left, cancelled),
        depth_left > 0 && !cancelled ==> enterable(depth_left, cancelled),
{
}

/// Timeouts never lower a score, nor take it beyond a hundred, and raise it by their
/// whole weight short of that.
pub proof fn timeouts_raise_the_score(score: u32, weight: u32)
    ensures
        score <= 100 ==> score <= raised(score, weight) <= 100,
        score + weight <= 100 ==> raised(score, weight) == score + weight,
        score + weight > 100 ==> raised(score, weight) == 100,
{
}

/// A score counts for a tenth of itself as evidence on its ecosystem, ten at most.
pub proof fn ecosystem_weight_is_a_tenth(base_score: u32)
    ensures
        tenth_of(base_score) <= 10,
        base_score < 110 ==> 10 * tenth_of(base_score) <= base_score < 10 * tenth_of(base_score)
            + 10,
        base_score >= 100 ==> tenth_of(base_score) == 10,
{
}

/// A file that was seen before counts two for each time, eight at most.
pub proof fn recurrence_counts_two_each(count: u32)
    ensures
        count <= 4 ==> bonus_of(count) == 2 * count,
        count >= 4 ==> bonus_of(count) == 8,
{
}

/// An analysis is complete where neither the file's time nor that of an engine ran
/// out.
pub proof fn timeouts_leave_an_analysis_incomplete(expired: bool, timeouts: int)
    ensures
        expired ==> !in_time(expired, timeouts),
        timeouts > 0 ==> !in_time(expired, timeouts),
        !expired && timeouts == 0 ==> in_time(expired, timeouts),
{
}

spec fn times(reasons: Seq<TimeoutReason>, reason: TimeoutReason) -> nat
    decreases reasons.len(),
{
    if reasons.len() == 0 {
        0
    } else {
        times(reasons.drop_last(), reason) + if reasons.last() == reason {
            1nat
        } else {
            0
        }
    }
}

proof fn lemma_times(reasons: Seq<TimeoutReason>, reason: TimeoutReason)
    ensures
        times(reasons, reason) == reasons.filter(|r: TimeoutReason| r == reason).len(),
    decreases reasons.len(),
{
    reveal(Seq::filter);
    if reasons.len() > 0 {
        lemma_times(reasons.drop_last(), reason);
    }
}

proof fn lemma_with_timeouts(c: BudgetCounters, reasons: Seq<TimeoutReason>)
    requires
        c.clamav_timeouts + reasons.len() <= u64::MAX,
        c.yara_timeouts + reasons.len() <= u64::MAX,
        c.total_timeouts + reasons.len() <= u64::MAX,
    ensures
        with_timeouts(c, reasons) == (BudgetCounters {
            clamav_timeouts: (c.clamav_timeouts + times(reasons, TimeoutReason::ClamAv)) as u64,
            yara_timeouts: (c.yara_timeouts + times(reasons, TimeoutReason::Yara)) as u64,
            total_timeouts: (c.total_timeouts + times(reasons, TimeoutReason::Total)) as u64,
            ..c
        }),
        times(reasons, TimeoutReason::ClamAv) + times(reasons, TimeoutReason::Yara) + times(
            reasons,
            TimeoutReason::Total,
        ) <= reasons.len(),
    decreases reasons.len(),
{
    if reasons.len() > 0 {
        lemma_with_timeouts(c, reasons.drop_last());
    }
}

/// A file with timeouts counts once, and each of its timeouts once in the counter of
/// its engine; what came of it counts as partial or exhausted. The other counters
/// stay.
pub proof fn timeouts_are_counted(
    c: BudgetCounters,
    reasons: Seq<TimeoutReason>,
    outcome: BudgetOutcome,
)
    requires
        c.files_with_timeouts < u64::MAX,
        c.clamav_timeouts + reasons.len() <= u64::MAX,
        c.yara_timeouts + reasons.len() <= u64::MAX,
        c.total_timeouts + reasons.len() <= u64::MAX,
        c.partial_results < u64::MAX,
        c.exhausted < u64::MAX,
    ensures
        ({
            let after = budget_after(c, reasons, outcome);
            &&& after.files_with_timeouts == c.files_with_timeouts + 1
            &&& after.clamav_timeouts == c.clamav_timeouts + reasons.filter(
                |r: TimeoutReason| r == TimeoutReason::ClamAv,
            ).len()
            &&& after.yara_timeouts == c.yara_timeouts + reasons.filter(
                |r: TimeoutReason| r == TimeoutReason::Yara,
            ).len()
            &&& after.total_timeouts == c.total_timeouts + reasons.filter(
                |r: TimeoutReason| r == TimeoutReason::Total,
            ).len()
            &&& outcome is Exhausted ==> after.exhausted == c.exhausted + 1
            &&& !(outcome is Exhausted) ==> after.exhausted == c.exhausted
            &&& outcome is Partial || outcome is Suspicious ==> after.partial_results
                == c.partial_results + 1
            &&& outcome is Complete || outcome is Exhausted ==> after.partial_results
                == c.partial_results
            &&& after.realtime_timeouts == c.realtime_timeouts
            &&& after.idle_timeouts == c.idle_timeouts
            &&& after.transient_skips == c.transient_skips
        }),
{
    let first = BudgetCounters {
        files_with_timeouts: c.files_with_timeouts.wrapping_add(1),
        ..c
    };
    lemma_with_timeouts(first, reasons);
    lemma_times(reasons, TimeoutReason::ClamAv);
    lemma_times(reasons, TimeoutReason::Yara);
    lemma_times(reasons, TimeoutReason::Total);
}

proof fn lemma_drift_add(a: Seq<Finding>, b: Seq<Finding>)
    ensures
        drift_sum(a + b) == drift_sum(a) + drift_sum(b),
    decreases b.len(),
{
    if b.len() == 0 {
        assert(a + b =~= a);
    } else {
        assert((a + b).drop_last() =~= a + b.drop_last());
        lemma_drift_add(a, b.drop_last());
    }
}

/// Findings that speak of drift, in any case, count with their weights, and no other
/// finding does; the sums of two lists add up.
pub proof fn drift_counts_with_its_weight(a: Seq<Finding>, b: Seq<Finding>, f: Finding)
    ensures
        drift_sum(a + b) == drift_sum(a) + drift_sum(b),
        occurs("drift"@, lowercased(f.description@)) ==> drift_sum(seq![f]) == f.weight,
        !occurs("drift"@, lowercased(f.description@)) ==> drift_sum(seq![f]) == 0,
        drift_sum(Seq::empty()) == 0,
{
    lemma_drift_add(a, b);
    assert(seq![f].drop_last() =~= Seq::<Finding>::empty());
    assert(drift_sum(seq![f].drop_last()) == 0);
}

/// The errors on a file are told under its path, that of the helper first, and none
/// where there is none.
pub proof fn file_errors_are_told(
    path: Seq<char>,
    worker_error: Option<Seq<char>>,
    clamav_error: Option<Seq<char>>,
)
    ensures
        ({
            let all = file_errors(path, worker_error, clamav_error);
            &&& worker_error matches Some(e) ==> all.len() > 0 && all[0] == path + ": "@ + e
            &&& clamav_error matches Some(e) ==> all.len() > 0 && all.last() == path + ": "@ + e
            &&& worker_error is None && clamav_error is None ==> all.len() == 0
            &&& worker_error is Some && clamav_error is Some ==> all.len() == 2
            &&& all.len() <= 2
        }),
{
}

/// A threat that a thread reports is collected, an error is kept, and nothing that
/// was collected before is lost; the job is over with the last thread, and not
/// before.
pub proof fn messages_are_collected(
    detections: Seq<Detection<Seq<char>>>,
    errors: Seq<Seq<char>>,
    msg: Msg,
    done_before: int,
    threads: int,
)
    requires
        0 <= done_before < threads,
    ensures
        msg matches Msg::Threat(d, _) ==> detected(detections, msg) == detections.push(d),
        !(msg is Threat) ==> detected(detections, msg) == detections,
        msg matches Msg::Error(e) ==> complained(errors, msg) == errors.push(e),
        !(msg is Error) ==> complained(errors, msg) == errors,
        last_message(msg, done_before, threads) <==> msg is Done && done_before == threads - 1,
{
}

/// A message changes of the board at most the path that is shown and the timings of
/// the job.
pub proof fn messages_leave_the_counts_alone(b: Board, msg: ScanMsg)
    ensures
        ({
            let after = absorbed(b, msg);
            &&& after.history == b.history
            &&& after.counters == b.counters
            &&& after.last_job == b.last_job
            &&& after.live is Some == b.live is Some
            &&& after.active is Some == b.active is Some
            &&& b.live matches Some(l) ==> after.live == Some(
                ScanLiveState { current_path: after.live->0.current_path, ..l },
            )
            &&& b.live is Some && msg@ is Progress ==> after.live->0.current_path
                == msg@->Progress_0
            &&& b.live is Some && !(msg@ is Progress) ==> after.live == b.live
            &&& b.active matches Some(j) ==> after.active == Some(
                Job { perf_summary: after.active->0.perf_summary, ..j },
            )
            &&& msg@ is Done || msg@ is Error || msg@ is Progress ==> after.active == b.active
        }),
{
}

/// A scan that was cancelled says so, whatever it found; else it tells whether it
/// found threats.
pub proof fn end_word_tells_the_end(cancelled: bool, threats: u64)
    ensures
        cancelled ==> end_word(cancelled, threats) == "cancelled"@,
        !cancelled && threats > 0 ==> end_word(cancelled, threats) == "threats"@,
        !cancelled && threats == 0 ==> end_word(cancelled, threats) == "clean"@,
{
}

/// A job from the queue counts once when it ends: as cancelled, or as completed in
/// its own kind.
pub proof fn each_end_counts_once(c: JobCounters, kind: Seq<char>, cancelled: bool)
    requires
        c.cancelled < u64::MAX,
        c.completed_full < u64::MAX,
        c.completed_folder < u64::MAX,
        c.completed_quick < u64::MAX,
    ensures
        ({
            let after = counted_end(c, kind, cancelled);
            &&& cancelled ==> after == (JobCounters { cancelled: (c.cancelled + 1) as u64, ..c })
            &&& !cancelled && kind == "full"@ ==> after == (JobCounters {
                completed_full: (c.completed_full + 1) as u64,
                ..c
            })
            &&& !cancelled && kind == "folder"@ ==> after == (JobCounters {
                completed_folder: (c.completed_folder + 1) as u64,
                ..c
            })
            &&& !cancelled && kind == "quick"@ ==> after == (JobCounters {
                completed_quick: (c.completed_quick + 1) as u64,
                ..c
            })
            &&& !cancelled && kind != "full"@ && kind != "folder"@ && kind != "quick"@ ==> after
                == c
        }),
{
    reveal_strlit("full");
    reveal_strlit("folder");
    reveal_strlit("quick");
    assert("full"@.len() == 4 && "folder"@.len() == 6 && "quick"@.len() == 5);
}

/// The end of a folder scan is told alike everywhere: on the board, in the history
/// and in the row that is persisted.
pub proof fn folder_end_is_told_alike(
    b: Board,
    end: JobEnd<Seq<char>>,
    detections: Seq<Detection<Seq<char>>>,
    errors: Seq<Seq<char>>,
)
    requires
        b.live is Some,
        errors.len() <= u64::MAX,
    ensures
        ({
            let l = b.live->0;
            let done = folder_finished(b, end, detections, errors);
            let record = done.history.last();
            let row = folder_row(b, end, errors);
            &&& done.history == b.history.push(record)
            &&& record.job_id == end.id && row.scan_id == end.id
            &&& record.scan_type == end.kind && row.scan_type == end.kind
            &&& record.finished_at == end.finished && row.finished_at == Some(end.finished)
            &&& record.started_at == row.started_at
            &&& record.files_scanned == l.files_scanned && row.files_scanned == l.files_scanned
            &&& record.threats_found == l.threats_found && row.threats_found == l.threats_found
            &&& record.status == row.status
            &&& row.status == "cancelled"@ <==> end.cancelled
            &&& row.status == "threats"@ <==> !end.cancelled && l.threats_found > 0
            &&& row.status == "clean"@ <==> !end.cancelled && l.threats_found == 0
            &&& done.live == Some(
                ScanLiveState {
                    files_total: end.files_discovered,
                    status: done.live->0.status,
                    current_path: Seq::empty(),
                    ..l
                },
            )
            &&& b.active matches Some(j) ==> {
                let after = done.active->0;
                &&& done.active is Some
                &&& after.detections == detections
                &&& after.errors == errors
                &&& after.files_scanned == l.files_scanned
                &&& after.threats_found == l.threats_found
                &&& after.files_total == end.files_discovered
                &&& after.finished_at == Some(end.finished)
                &&& after.status is Cancelled <==> end.cancelled
                &&& after.status is Completed <==> !end.cancelled
                &&& row.errors_count == errors.len()
                &&& row.started_at == j.started_at
                &&& row.bytes_scanned == j.perf_summary.total_bytes_scanned
                &&& row.clamav_phase_us == j.perf_summary.total_clamav_us
                &&& row.argus_phase_us == j.perf_summary.total_argus_us
            }
            &&& end.from_queue ==> (done.last_job matches Some(r) && r.id == end.id && r.path
                == end.targets && r.status == row.status && r.verdict == Some(row.status)
                && r.error is None)
            &&& !end.from_queue ==> done.last_job == b.last_job && done.counters == b.counters
        }),
{
    reveal_strlit("cancelled");
    reveal_strlit("threats");
    reveal_strlit("clean");
    assert("cancelled"@.len() == 9 && "threats"@.len() == 7 && "clean"@.len() == 5);
}

/// A folder scan that found threats is logged as critical, also where it was
/// cancelled; the entry counts files and threats and names each threat.
pub proof fn folder_threats_are_critical(
    b: Board,
    end: JobEnd<Seq<char>>,
    detections: Seq<Detection<Seq<char>>>,
    i: int,
)
    requires
        b.live is Some,
    ensures
        ({
            let l = b.live->0;
            let event = folder_event(b, end, detections);
            &&& l.threats_found > 0 ==> event.severity == "critical"@
            &&& l.threats_found == 0 && end.cancelled ==> event.severity == "warning"@
            &&& l.threats_found == 0 && !end.cancelled ==> event.severity == "info"@
            &&& event.category == "scan"@
            &&& event.scan_id == Some(end.id)
            &&& end.cancelled ==> event.title == "Quick scan cancelled — "@ + decimal(
                l.files_scanned as nat,
            ) + " files, "@ + decimal(l.threats_found as nat) + " threats"@
            &&& !end.cancelled ==> event.title == "Quick scan complete — "@ + decimal(
                l.files_scanned as nat,
            ) + " files, "@ + decimal(l.threats_found as nat) + " threats"@
            &&& 0 <= i < detections.len() ==> threat_names(detections)[i]
                == detections[i].virus_name
            &&& threat_names(detections).len() == detections.len()
            &&& event.message == joined(threat_names(detections), ", "@)
        }),
{
}

/// The worker of a job from the queue shows it as running and keeps what is counted;
/// that of another job begins a snapshot of its own.
pub proof fn worker_shows_itself_running(
    b: Board,
    id: Seq<char>,
    kind: Seq<char>,
    now: i64,
    from_queue: bool,
    cancel_flag: bool,
)
    ensures
        ({
            let after = worker_begun(b, id, kind, now, from_queue, cancel_flag);
            &&& after.active == b.active
            &&& after.history == b.history
            &&& after.counters == b.counters
            &&& after.last_job == b.last_job
            &&& after.live matches Some(l) ==> l.status == encoded(ScanJobStatus::Running)
                && l.files_total == 0
            &&& from_queue ==> (after.live is Some <==> b.live is Some)
            &&& from_queue && b.live is Some ==> after.live == Some(
                ScanLiveState {
                    files_total: 0,
                    status: encoded(ScanJobStatus::Running),
                    ..b.live->0
                },
            )
            &&& !from_queue ==> after.live is Some && after.live->0.id == id
                && after.live->0.kind == kind && after.live->0.started_at == now
                && after.live->0.cancel_flag == cancel_flag && after.live->0.files_scanned == 0
                && after.live->0.threats_found == 0 && after.live->0.current_path
                == "Scanning..."@
        }),
{
}

/// The total that is shown is brought up to date at every thousandth file and nothing
/// else changes with it.
pub proof fn total_is_shown_now_and_again(b: Board, count: u64)
    ensures
        ({
            let after = total_shown(b, count);
            &&& count % 1000 == 0 && b.live is Some ==> after.live == Some(
                ScanLiveState { files_total: count, ..b.live->0 },
            )
            &&& count % 1000 != 0 ==> after == b
            &&& after.active == b.active
            &&& after.history == b.history
            &&& after.counters == b.counters
            &&& after.last_job == b.last_job
        }),
{
}

} // verus!
