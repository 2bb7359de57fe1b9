//! One file on its way through the engines, step by step.
//!
//! The engines run outside. After each of them the pipeline takes in what came
//! back and tells what to do next, until the file is done with.

use super::board::{begun, cancel, detection_view, Board, ScanBoard, ScanStart};
use super::job::{Detection, ScanLiveState};
use super::start::{gate_error, FileGate};
use super::verdict::{united, ArgusVerdict};
use super::worker::{
    absorbed, apply_timeouts, budget_after, completed_within_budget, conclude_file,
    conclude_partial, describe_error, ecosystem_note, ecosystem_weight, file_errors, file_message,
    folder_finished, msgs_view, raised, screen_file, tenth_of, total_shown, worker_begun, BudgetCounters,
    BudgetOutcome, ClamResult, FileReport, FileScreen, FileTiming, JobEnd, Msg, ScanMsg,
    TimeoutReason,
};
use crate::text::{decimal, owned_view, text_view, texts};
use vstd::multiset::Multiset;
use vstd::prelude::*;

verus! {

/// Where a file of a folder scan stands.
#[derive(Debug, Clone, Copy, PartialEq, Eq, Structural)]
pub enum FileStage {
    Signatures,
    Heuristics,
    Budget,
    Evidence,
    Over,
}

/// What becomes of a file that is done with.
pub struct FileEnd {
    pub errors: Vec<String>,
    pub threat: Option<Detection>,
    /// Whether the findings of the heuristics are reported, short of a threat.
    pub findings: bool,
    /// Whether the file counts as looked at.
    pub counted: bool,
    /// Whether the file is remembered as clean.
    pub remember_clean: bool,
    /// Whether the file builds familiarity.
    pub observe_trust: bool,
    /// Whether the thread takes no further file.
    pub leave_job: bool,
}

/// Mathematical value of a [`FileEnd`].
pub struct End {
    pub errors: Seq<Seq<char>>,
    pub threat: Option<Detection<Seq<char>>>,
    pub findings: bool,
    pub counted: bool,
    pub remember_clean: bool,
    pub observe_trust: bool,
    pub leave_job: bool,
}

impl View for FileEnd {
    type V = End;

    open spec fn view(&self) -> End {
        End {
            errors: texts(self.errors@),
            threat: detection_view(self.threat),
            findings: self.findings,
            counted: self.counted,
            remember_clean: self.remember_clean,
            observe_trust: self.observe_trust,
            leave_job: self.leave_job,
        }
    }
}

/// What to do next with a file.
pub enum FileStep {
    RunSignatures,
    RunHeuristics,
    /// Ask how suspicious the timeouts are.
    WeighTimeouts,
    /// Gather further evidence, from the alternate streams too where time is left.
    GatherEvidence { streams: bool },
    Leave(FileEnd),
}

/// Mathematical value of a [`FileStep`].
pub enum Step {
    RunSignatures,
    RunHeuristics,
    WeighTimeouts,
    GatherEvidence { streams: bool },
    Leave(End),
}

impl View for FileStep {
    type V = Step;

    open spec fn view(&self) -> Step {
        match *self {
            FileStep::RunSignatures => Step::RunSignatures,
            FileStep::RunHeuristics => Step::RunHeuristics,
            FileStep::WeighTimeouts => Step::WeighTimeouts,
            FileStep::GatherEvidence { streams } => Step::GatherEvidence { streams },
            FileStep::Leave(end) => Step::Leave(end@),
        }
    }
}

/// The end of a file that no engine looks at.
pub open spec fn passed_over(errors: Seq<Seq<char>>) -> End {
    End {
        errors,
        threat: None,
        findings: false,
        counted: true,
        remember_clean: false,
        observe_trust: false,
        leave_job: false,
    }
}

/// The end of a file whose time was used up before the heuristics could run.
pub open spec fn cut_short(path: Seq<char>, infected: bool, name: Option<Seq<char>>) -> End {
    End {
        errors: Seq::empty(),
        threat: if infected {
            Some(
                Detection {
                    path,
                    virus_name: match name {
                        Some(n) => n,
                        None => "Unknown"@,
                    },
                },
            )
        } else {
            None
        },
        findings: false,
        counted: true,
        remember_clean: !infected,
        observe_trust: false,
        leave_job: false,
    }
}

/// The end of a file whose analysis was cancelled in the helper: the thread leaves
/// with it, and the file does not count.
pub open spec fn given_up(path: Seq<char>, error: Seq<char>) -> End {
    End {
        errors: seq![file_message(path, error)],
        threat: None,
        findings: false,
        counted: false,
        remember_clean: false,
        observe_trust: false,
        leave_job: true,
    }
}

/// The end of a file that both engines have seen.
pub open spec fn judged(
    path: Seq<char>,
    clamav: ClamResult,
    worker_error: Option<Seq<char>>,
    argus: ArgusVerdict,
    exclusions: Seq<String>,
) -> End {
    let name = united(clamav.infected, owned_view(clamav.virus_name), argus, exclusions);
    End {
        errors: file_errors(path, worker_error, owned_view(clamav.error)),
        threat: match name {
            Some(virus_name) => Some(Detection { path, virus_name }),
            None => None,
        },
        findings: name is None && argus.findings@.len() > 0,
        counted: true,
        remember_clean: name is None && clamav.error is None,
        observe_trust: argus.score == 0 && !clamav.infected,
        leave_job: false,
    }
}

/// What to do with a file that is taken up.
pub open spec fn first_step(
    path: Seq<char>,
    size: Result<u64, Seq<char>>,
    max_size: u64,
    cached_clean: bool,
) -> Step {
    match size {
        Ok(n) => if n > max_size || cached_clean {
            Step::Leave(passed_over(Seq::empty()))
        } else {
            Step::RunSignatures
        },
        Err(e) => Step::Leave(passed_over(seq![file_message(path, e)])),
    }
}

/// The size of a file, or the error on it.
pub open spec fn size_view(size: Result<u64, &str>) -> Result<u64, Seq<char>> {
    match size {
        Ok(n) => Ok(n),
        Err(e) => Err(e@),
    }
}

/// What to do with a file that the signature engine has looked at.
pub open spec fn after_signatures(path: Seq<char>, clamav: ClamResult, expired: bool) -> Step {
    if expired {
        Step::Leave(cut_short(path, clamav.infected, owned_view(clamav.virus_name)))
    } else {
        Step::RunHeuristics
    }
}

/// What to do with a file that the heuristics have looked at, or not.
pub open spec fn after_heuristics(path: Seq<char>, error: Option<Seq<char>>) -> Step {
    match error {
        Some(e) => Step::Leave(given_up(path, e)),
        None => Step::WeighTimeouts,
    }
}

/// A reason, where it applies.
pub open spec fn reason_if(applies: bool, reason: TimeoutReason) -> Seq<TimeoutReason> {
    if applies {
        seq![reason]
    } else {
        Seq::empty()
    }
}

/// The score of a file once its timeouts are weighed.
pub open spec fn weighed_score(score: u32, weight: u32) -> u32 {
    if weight > 0 {
        raised(score, weight)
    } else {
        score
    }
}

/// Whether a file was analysed in full: in time, and without a timeout on the way.
pub open spec fn analysed_in_full(expired: bool, timeouts: Seq<TimeoutReason>) -> bool {
    !expired && timeouts.len() == 0
}

/// The timeouts that the signature engine leaves behind.
pub open spec fn signature_timeouts(late: bool, expired: bool) -> Seq<TimeoutReason> {
    reason_if(late, TimeoutReason::ClamAv) + reason_if(expired, TimeoutReason::Total)
}

/// A file of a folder scan.
pub struct FilePipeline {
    pub path: String,
    pub stage: FileStage,
    pub timeouts: Vec<TimeoutReason>,
    /// What the signature engine said, once it has run.
    pub clamav: ClamResult,
    /// Why the helper failed, where the heuristics ran without it.
    pub worker_error: Option<String>,
}

fn leave_early(errors: Vec<String>) -> (step: FileStep)
    ensures
        step@ == Step::Leave(passed_over(texts(errors@))),
{
    FileStep::Leave(
        FileEnd {
            errors,
            threat: None,
            findings: false,
            counted: true,
            remember_clean: false,
            observe_trust: false,
            leave_job: false,
        },
    )
}

impl FilePipeline {
    /// Take up a file. One that is too large, cannot be read or is known to be
    /// clean is left at once.
    pub fn start(path: &str, size: Result<u64, &str>, max_size: u64, cached_clean: bool) -> (begun: (
        Self,
        FileStep,
    ))
        ensures
            begun.0.path@ == path@,
            begun.0.timeouts@ == Seq::<TimeoutReason>::empty(),
            begun.0.worker_error is None,
            begun.1@ == match size {
                Ok(n) => if n > max_size || cached_clean {
                    Step::Leave(passed_over(Seq::empty()))
                } else {
                    Step::RunSignatures
                },
                Err(e) => Step::Leave(passed_over(seq![file_message(path@, e@)])),
            },
            begun.1@ == first_step(path@, size_view(size), max_size, cached_clean),
            begun.0.stage == if begun.1@ is Leave {
                FileStage::Over
            } else {
                FileStage::Signatures
            },
    {
        let mut errors: Vec<String> = Vec::new();
        let (stage, step) = match screen_file(path, size, max_size, cached_clean) {
            FileScreen::TooLarge | FileScreen::Cached => {
                assert(texts(errors@) =~= Seq::<Seq<char>>::empty());
                (FileStage::Over, leave_early(errors))
            },
            FileScreen::Unreadable(error) => {
                errors.push(error);
                assert(texts(errors@) =~= seq![error@]);
                (FileStage::Over, leave_early(errors))
            },
            FileScreen::Scan => (FileStage::Signatures, FileStep::RunSignatures),
        };
        (
            FilePipeline {
                path: path.to_owned(),
                stage,
                timeouts: Vec::new(),
                clamav: ClamResult { infected: false, virus_name: None, error: None },
                worker_error: None,
            },
            step,
        )
    }

    /// The signature engine has run. `late` tells that it took longer than it may,
    /// `expired` that no time is left for the file: its result is then all there is.
    pub fn signatures_done(&mut self, clamav: ClamResult, late: bool, expired: bool) -> (step:
        FileStep)
        requires
            old(self).stage == FileStage::Signatures,
        ensures
            final(self).path == old(self).path,
            final(self).worker_error == old(self).worker_error,
            final(self).clamav == clamav,
            final(self).timeouts@ == old(self).timeouts@ + reason_if(late, TimeoutReason::ClamAv)
                + reason_if(expired, TimeoutReason::Total),
            step@ == if expired {
                Step::Leave(
                    cut_short(old(self).path@, clamav.infected, owned_view(clamav.virus_name)),
                )
            } else {
                Step::RunHeuristics
            },
            step@ == after_signatures(old(self).path@, clamav, expired),
            final(self).timeouts@ == old(self).timeouts@ + signature_timeouts(late, expired),
            final(self).stage == if expired {
                FileStage::Over
            } else {
                FileStage::Heuristics
            },
    {
        let ghost before = self.timeouts@;
        if late {
            self.timeouts.push(TimeoutReason::ClamAv);
        }
        if expired {
            self.timeouts.push(TimeoutReason::Total);
        }
        assert(self.timeouts@ =~= before + reason_if(late, TimeoutReason::ClamAv) + reason_if(
            expired,
            TimeoutReason::Total,
        ));
        let step = if expired {
            self.stage = FileStage::Over;
            let partial = conclude_partial(self.path.as_str(), &clamav);
            let errors: Vec<String> = Vec::new();
            assert(texts(errors@) =~= Seq::<Seq<char>>::empty());
            FileStep::Leave(
                FileEnd {
                    errors,
                    threat: partial.threat,
                    findings: false,
                    counted: true,
                    remember_clean: partial.cache_clean,
                    observe_trust: false,
                    leave_job: false,
                },
            )
        } else {
            self.stage = FileStage::Heuristics;
            FileStep::RunHeuristics
        };
        self.clamav = clamav;
        step
    }

    /// The heuristics have run, perhaps after the helper failed, or the job was
    /// cancelled in the helper. `timed` tells that the verdict carries timings,
    /// `late` that the rules took longer than they may.
    pub fn heuristics_done(
        &mut self,
        outcome: Result<Option<String>, String>,
        timed: bool,
        late: bool,
    ) -> (step: FileStep)
        requires
            old(self).stage == FileStage::Heuristics,
        ensures
            final(self).path == old(self).path,
            final(self).clamav == old(self).clamav,
            step@ == after_heuristics(
                old(self).path@,
                match outcome {
                    Ok(_) => None,
                    Err(error) => Some(error@),
                },
            ),
            match outcome {
                Ok(worker_error) => {
                    &&& step@ == Step::WeighTimeouts
                    &&& final(self).stage == FileStage::Budget
                    &&& final(self).worker_error == worker_error
                    &&& final(self).timeouts@ == old(self).timeouts@ + reason_if(
                        timed && late,
                        TimeoutReason::Yara,
                    )
                },
                Err(error) => {
                    &&& step@ == Step::Leave(given_up(old(self).path@, error@))
                    &&& final(self).stage == FileStage::Over
                    &&& final(self).worker_error == old(self).worker_error
                    &&& final(self).timeouts@ == old(self).timeouts@
                },
            },
    {
        match outcome {
            Ok(worker_error) => {
                self.worker_error = worker_error;
                let ghost before = self.timeouts@;
                if timed && late {
                    self.timeouts.push(TimeoutReason::Yara);
                }
                assert(self.timeouts@ =~= before + reason_if(timed && late, TimeoutReason::Yara));
                self.stage = FileStage::Budget;
                FileStep::WeighTimeouts
            },
            Err(error) => {
                self.stage = FileStage::Over;
                let message = describe_error(self.path.as_str(), error.as_str());
                let mut errors: Vec<String> = Vec::new();
                errors.push(message);
                assert(texts(errors@) =~= seq![message@]);
                FileStep::Leave(
                    FileEnd {
                        errors,
                        threat: None,
                        findings: false,
                        counted: false,
                        remember_clean: false,
                        observe_trust: false,
                        leave_job: true,
                    },
                )
            },
        }
    }

    /// Count the timeouts and raise the score by their weight. The new score comes
    /// back, and whether the analysis came to its end in time.
    pub fn timeouts_weighed(
        &mut self,
        counters: &mut BudgetCounters,
        score: u32,
        weight: u32,
        outcome: BudgetOutcome,
        expired: bool,
    ) -> (weighed: (u32, bool, FileStep))
        requires
            old(self).stage == FileStage::Budget,
        ensures
            *final(self) == (FilePipeline { stage: FileStage::Evidence, ..*old(self) }),
            weighed.0 == weighed_score(score, weight),
            weighed.1 == analysed_in_full(expired, old(self).timeouts@),
            weighed.0 == if weight > 0 {
                raised(score, weight)
            } else {
                score
            },
            weighed.1 == (!expired && old(self).timeouts@.len() == 0),
            weighed.2@ == (Step::GatherEvidence { streams: !expired }),
            *final(counters) == if weight > 0 {
                budget_after(*old(counters), old(self).timeouts@, outcome)
            } else {
                *old(counters)
            },
    {
        let new_score = apply_timeouts(counters, score, weight, &self.timeouts, outcome);
        let completed = completed_within_budget(expired, self.timeouts.len());
        self.stage = FileStage::Evidence;
        (new_score, completed, FileStep::GatherEvidence { streams: !expired })
    }

    /// All evidence is in: `argus` holds the final score and findings.
    pub fn conclude(&mut self, argus: &ArgusVerdict, exclusions: &[String]) -> (end: FileEnd)
        requires
            old(self).stage == FileStage::Evidence,
        ensures
            *final(self) == (FilePipeline { stage: FileStage::Over, ..*old(self) }),
            end@ == judged(
                old(self).path@,
                old(self).clamav,
                owned_view(old(self).worker_error),
                *argus,
                exclusions@,
            ),
    {
        let worker_error: Option<&str> = match &self.worker_error {
            Some(e) => Some(e.as_str()),
            None => None,
        };
        let conclusion = conclude_file(
            self.path.as_str(),
            &self.clamav,
            argus,
            worker_error,
            exclusions,
        );
        self.stage = FileStage::Over;
        let (threat, findings) = match conclusion.report {
            FileReport::Threat(detection) => (Some(detection), false),
            FileReport::Findings => (None, true),
            FileReport::Nothing => (None, false),
        };
        FileEnd {
            errors: conclusion.errors,
            threat,
            findings,
            counted: true,
            remember_clean: conclusion.cache_clean,
            observe_trust: conclusion.observe_trust,
            leave_job: false,
        }
    }
}

/// `n` plus one where `counted`; the count wraps.
pub open spec fn count_if(n: u64, counted: bool) -> u64 {
    if counted {
        n.wrapping_add(1)
    } else {
        n
    }
}

/// The board after a file was reported: it counts as looked at where it does, and
/// as a threat where it is one.
pub open spec fn filed(b: Board, end: End) -> Board {
    match b.live {
        Some(l) => Board {
            live: Some(
                ScanLiveState {
                    files_scanned: count_if(l.files_scanned, end.counted),
                    threats_found: count_if(l.threats_found, end.threat is Some),
                    ..l
                },
            ),
            ..b
        },
        None => b,
    }
}

/// The messages on errors.
pub open spec fn error_msgs(errors: Seq<Seq<char>>) -> Seq<Msg> {
    errors.map_values(|e: Seq<char>| Msg::Error(e))
}

/// The message on what was found in a file, if anything was.
pub open spec fn verdict_msgs(end: End, timing: Option<FileTiming>) -> Seq<Msg> {
    match end.threat {
        Some(detection) => seq![Msg::Threat(detection, timing)],
        None => if end.findings {
            seq![Msg::Findings(timing)]
        } else {
            Seq::empty()
        },
    }
}

/// What the collector is told of a file: its errors, and what was found.
pub open spec fn messages(end: End, timing: Option<FileTiming>) -> Seq<Msg> {
    error_msgs(end.errors) + verdict_msgs(end, timing)
}

/// Report a file that is done with: count it on the board, and say what the
/// collector is to be told.
pub fn report_file(board: &mut ScanBoard, end: FileEnd, timing: Option<FileTiming>) -> (msgs: Vec<
    ScanMsg,
>)
    ensures
        final(board)@ == filed(old(board)@, end@),
        msgs_view(msgs@) == messages(end@, timing),
{
    if let Some(live) = &mut board.scan_live {
        if end.counted {
            live.files_scanned = live.files_scanned.wrapping_add(1);
        }
        if end.threat.is_some() {
            live.threats_found = live.threats_found.wrapping_add(1);
        }
    }
    let ghost all = end@.errors;
    let mut left = end.errors;
    let mut msgs: Vec<ScanMsg> = Vec::new();
    let n: usize = left.len();
    let mut i: usize = 0;
    assert(msgs_view(msgs@) =~= error_msgs(all.take(0)));
    while i < n
        invariant
            i <= n,
            n == left@.len(),
            all == texts(left@),
            msgs_view(msgs@) == error_msgs(all.take(i as int)),
        decreases n - i,
    {
        let ghost before = msgs@;
        let error = left[i].clone();
        msgs.push(ScanMsg::Error(error));
        assert(msgs_view(msgs@) =~= msgs_view(before).push(Msg::Error(all[i as int])));
        assert(error_msgs(all.take(i + 1)) =~= error_msgs(all.take(i as int)).push(
            Msg::Error(all[i as int]),
        ));
        i = i + 1;
    }
    assert(all.take(n as int) =~= all);
    let ghost before = msgs@;
    match end.threat {
        Some(detection) => {
            msgs.push(ScanMsg::Threat(detection, timing));
        },
        None => if end.findings {
            msgs.push(ScanMsg::Findings(timing));
        },
    }
    assert(msgs_view(msgs@) =~= msgs_view(before) + verdict_msgs(end@, timing));
    msgs
}

/// A folder scan at work: the board, the messages on their way to the collector,
/// what it has collected, and how many files were reported.
pub struct ScanRun {
    pub board: Board,
    pub pending: Multiset<Msg>,
    pub detections: Seq<Detection<Seq<char>>>,
    pub reported: nat,
}

/// What happens in a folder scan. The threads and the walk are at work side by
/// side, so these come in any order.
pub enum ScanEvent {
    /// A thread reports a file.
    Report(End, Option<FileTiming>),
    /// The collector takes a message.
    Take(ScanMsg),
    /// The walk has found so many files.
    Show(u64),
    /// The user cancels the scan.
    Cancel,
}

/// Whether a message tells of a file that was reported.
pub open spec fn on_report(m: Msg) -> bool {
    m is Threat || m is Findings || m is Error
}

/// A message is taken after it was sent, and once.
pub open spec fn can_happen(run: ScanRun, event: ScanEvent) -> bool {
    match event {
        ScanEvent::Take(msg) => on_report(msg@) ==> run.pending.count(msg@) > 0,
        _ => true,
    }
}

/// The scan after an event.
pub open spec fn happened(run: ScanRun, event: ScanEvent) -> ScanRun {
    match event {
        ScanEvent::Report(end, timing) => ScanRun {
            board: filed(run.board, end),
            pending: run.pending.add(messages(end, timing).to_multiset()),
            reported: run.reported + 1,
            ..run
        },
        ScanEvent::Take(msg) => ScanRun {
            board: absorbed(run.board, msg),
            pending: if on_report(msg@) {
                run.pending.remove(msg@)
            } else {
                run.pending
            },
            detections: match msg@ {
                Msg::Threat(detection, _) => run.detections.push(detection),
                _ => run.detections,
            },
            ..run
        },
        ScanEvent::Show(count) => ScanRun { board: total_shown(run.board, count), ..run },
        ScanEvent::Cancel => ScanRun { board: cancel(run.board).0, ..run },
    }
}

/// A scan that begins on a board.
pub open spec fn beginning(board: Board) -> ScanRun {
    ScanRun { board, pending: Multiset::empty(), detections: Seq::empty(), reported: 0 }
}

/// The scan after a series of events.
pub open spec fn run_of(board: Board, events: Seq<ScanEvent>) -> ScanRun
    decreases events.len(),
{
    if events.len() == 0 {
        beginning(board)
    } else {
        happened(run_of(board, events.drop_last()), events.last())
    }
}

/// Whether a series of events can happen.
pub open spec fn possible(board: Board, events: Seq<ScanEvent>) -> bool
    decreases events.len(),
{
    events.len() > 0 ==> possible(board, events.drop_last()) && can_happen(
        run_of(board, events.drop_last()),
        events.last(),
    )
}

/// How many of these messages tell of a threat.
pub open spec fn threats_among(msgs: Multiset<Msg>) -> nat {
    msgs.filter(|m: Msg| m is Threat).len()
}

proof fn lemma_threats_add(a: Multiset<Msg>, b: Multiset<Msg>)
    ensures
        threats_among(a.add(b)) == threats_among(a) + threats_among(b),
{
    let f = |m: Msg| m is Threat;
    assert(a.add(b).filter(f) =~= a.filter(f).add(b.filter(f)));
}

proof fn lemma_threats_remove(a: Multiset<Msg>, m: Msg)
    requires
        a.count(m) > 0,
    ensures
        threats_among(a) == threats_among(a.remove(m)) + (if m is Threat {
            1nat
        } else {
            0
        }),
{
    let f = |m: Msg| m is Threat;
    if m is Threat {
        assert(a.filter(f) =~= a.remove(m).filter(f).insert(m));
    } else {
        assert(a.filter(f) =~= a.remove(m).filter(f));
    }
}

proof fn lemma_threats_sent(end: End, timing: Option<FileTiming>)
    ensures
        threats_among(messages(end, timing).to_multiset()) == (if end.threat is Some {
            1nat
        } else {
            0
        }),
{
    broadcast use vstd::seq_lib::group_to_multiset_ensures;

    let f = |m: Msg| m is Threat;
    let errors = error_msgs(end.errors);
    let verdict = verdict_msgs(end, timing);
    vstd::seq_lib::lemma_multiset_commutative(errors, verdict);
    lemma_threats_add(errors.to_multiset(), verdict.to_multiset());
    assert(errors.to_multiset().filter(f) =~= Multiset::<Msg>::empty()) by {
        assert forall|m: Msg| errors.to_multiset().filter(f).count(m) == 0 by {
            if errors.to_multiset().count(m) > 0 {
                assert(errors.contains(m));
                assert(m is Error);
            }
        }
    }
    let nothing = Seq::<Msg>::empty();
    assert(nothing.to_multiset() =~= Multiset::<Msg>::empty());
    assert(nothing.to_multiset().filter(f) =~= Multiset::<Msg>::empty());
    if verdict.len() > 0 {
        let m = verdict[0];
        assert(verdict =~= nothing.push(m));
        assert(verdict.to_multiset() =~= Multiset::<Msg>::empty().insert(m));
        if m is Threat {
            assert(verdict.to_multiset().filter(f) =~= Multiset::<Msg>::empty().insert(m));
        } else {
            assert(verdict.to_multiset().filter(f) =~= Multiset::<Msg>::empty());
        }
    } else {
        assert(verdict =~= nothing);
    }
}

/// Whether a board shows a scan that has counted nothing yet.
pub open spec fn nothing_counted(b: Board) -> bool {
    b.live matches Some(l) && l.files_scanned == 0 && l.threats_found == 0
}

/// The worker of a scan that was started begins with nothing counted, whether or
/// not the scan went through the queue.
pub proof fn worker_begins_with_nothing_counted(
    b: Board,
    start: ScanStart<Seq<char>>,
    id: Seq<char>,
    now: i64,
    later: i64,
    cancel_flag: bool,
)
    requires
        begun(b, start, id, now).1 is None,
    ensures
        nothing_counted(
            worker_begun(
                begun(b, start, id, now).0,
                id,
                start.kind,
                later,
                start.queued,
                cancel_flag,
            ),
        ),
{
}

/// At every moment of a folder scan the threats on the board are those that were
/// collected and those on their way, and no more files count as looked at than were
/// reported.
pub proof fn counts_agree_with_reports(board: Board, events: Seq<ScanEvent>)
    requires
        nothing_counted(board),
        possible(board, events),
        run_of(board, events).reported <= u64::MAX,
    ensures
        ({
            let run = run_of(board, events);
            &&& run.board.live matches Some(l) && l.threats_found == run.detections.len()
                + threats_among(run.pending) && l.threats_found <= run.reported && l.files_scanned
                <= run.reported
        }),
    decreases events.len(),
{
    if events.len() == 0 {
        assert(Multiset::<Msg>::empty().filter(|m: Msg| m is Threat) =~= Multiset::<Msg>::empty());
    } else {
        let before = run_of(board, events.drop_last());
        let event = events.last();
        counts_agree_with_reports(board, events.drop_last());
        match event {
            ScanEvent::Report(end, timing) => {
                lemma_threats_sent(end, timing);
                lemma_threats_add(before.pending, messages(end, timing).to_multiset());
            },
            ScanEvent::Take(msg) => {
                if on_report(msg@) {
                    lemma_threats_remove(before.pending, msg@);
                }
            },
            ScanEvent::Show(count) => {},
            ScanEvent::Cancel => {},
        }
    }
}

/// Once every message has been taken and the scan is recorded, the job has as many
/// detections as threats, and it has looked at no more files than were found.
pub proof fn finished_scan_adds_up(
    board: Board,
    events: Seq<ScanEvent>,
    end: JobEnd<Seq<char>>,
    errors: Seq<Seq<char>>,
)
    requires
        nothing_counted(board),
        possible(board, events),
        run_of(board, events).pending == Multiset::<Msg>::empty(),
        run_of(board, events).reported <= end.files_discovered,
    ensures
        ({
            let run = run_of(board, events);
            let done = folder_finished(run.board, end, run.detections, errors);
            &&& done.live matches Some(l) && l.threats_found == run.detections.len()
                && l.files_scanned <= l.files_total && l.files_total == end.files_discovered
            &&& done.active matches Some(j) ==> j.detections.len() == j.threats_found
                && j.files_scanned <= j.files_total
        }),
{
    counts_agree_with_reports(board, events);
    assert(Multiset::<Msg>::empty().filter(|m: Msg| m is Threat) =~= Multiset::<Msg>::empty());
}

/// What to do about the ecosystem of a file.
pub struct EcosystemPlan {
    /// Whether the ecosystem is asked, and told how the score came about.
    pub consult: bool,
    /// The evidence to add before, with its weight.
    pub evidence: Option<(String, u32)>,
}

/// Whether a score is evidence on the ecosystem of its file, and with what weight.
pub open spec fn evidence_weight(base_score: u32, findings: usize) -> Option<u32> {
    if base_score > 0 && findings > 0 {
        Some(tenth_of(base_score))
    } else {
        None
    }
}

/// Decide what a heuristic score means for the ecosystem of its file. A score of
/// zero means nothing.
pub fn plan_ecosystem(base_score: u32, findings: usize) -> (plan: EcosystemPlan)
    ensures
        match plan.evidence {
            Some((_, weight)) => evidence_weight(base_score, findings) == Some(weight),
            None => evidence_weight(base_score, findings) is None,
        },
        plan.consult == (base_score > 0),
        match plan.evidence {
            Some((note, weight)) => {
                &&& base_score > 0 && findings > 0
                &&& note@ == decimal(findings as nat) + " findings, score "@ + decimal(
                    base_score as nat,
                )
                &&& weight == if base_score / 10 > 10 {
                    10
                } else {
                    base_score / 10
                }
            },
            None => base_score == 0 || findings == 0,
        },
{
    let evidence = if base_score > 0 && findings > 0 {
        Some((ecosystem_note(findings, base_score), ecosystem_weight(base_score)))
    } else {
        None
    };
    EcosystemPlan { consult: base_score > 0, evidence }
}

/// Where a file scan from the queue stands.
#[derive(Debug, Clone, Copy, PartialEq, Eq, Structural)]
pub enum FileJobStage {
    Waiting,
    Located,
    Signatures,
    Heuristics,
    Over,
}

/// What happened to a file scan from the queue.
#[derive(Debug, Clone, Copy, PartialEq, Eq, Structural)]
pub enum FileJobEvent {
    /// Its turn has come.
    Taken { cancelled: bool },
    /// Its path was looked up.
    LookedUp { exists_on_disk: bool, excluded: bool },
    SignaturesDone { cancelled: bool },
    HeuristicsDone { cancelled: bool },
}

/// What to do next with a file scan from the queue.
#[derive(Debug, Clone, Copy, PartialEq, Eq, Structural)]
pub enum FileJobStep {
    /// Show the job as running and look up its path.
    LookUp,
    RunSignatures,
    RunHeuristics,
    /// Record the job as cancelled.
    Cancel,
    /// Record the job as failed: there is no such file.
    NotFound,
    /// Record the job as failed: the path is excluded.
    Excluded,
    /// Record the result of both engines.
    Succeed,
}

/// Whether an event belongs to a stage.
pub open spec fn expected(stage: FileJobStage, event: FileJobEvent) -> bool {
    match event {
        FileJobEvent::Taken { .. } => stage is Waiting,
        FileJobEvent::LookedUp { .. } => stage is Located,
        FileJobEvent::SignaturesDone { .. } => stage is Signatures,
        FileJobEvent::HeuristicsDone { .. } => stage is Heuristics,
    }
}

/// The stage after an event, and what to do next.
pub open spec fn file_job_next(event: FileJobEvent) -> (FileJobStage, FileJobStep) {
    match event {
        FileJobEvent::Taken { cancelled } => if cancelled {
            (FileJobStage::Over, FileJobStep::Cancel)
        } else {
            (FileJobStage::Located, FileJobStep::LookUp)
        },
        FileJobEvent::LookedUp { exists_on_disk, excluded } => if !exists_on_disk {
            (FileJobStage::Over, FileJobStep::NotFound)
        } else if excluded {
            (FileJobStage::Over, FileJobStep::Excluded)
        } else {
            (FileJobStage::Signatures, FileJobStep::RunSignatures)
        },
        FileJobEvent::SignaturesDone { cancelled } => if cancelled {
            (FileJobStage::Over, FileJobStep::Cancel)
        } else {
            (FileJobStage::Heuristics, FileJobStep::RunHeuristics)
        },
        FileJobEvent::HeuristicsDone { cancelled } => if cancelled {
            (FileJobStage::Over, FileJobStep::Cancel)
        } else {
            (FileJobStage::Over, FileJobStep::Succeed)
        },
    }
}

/// A file scan from the queue.
pub struct FileJob {
    pub stage: FileJobStage,
}

impl FileJob {
    pub fn new() -> (job: Self)
        ensures
            job.stage == FileJobStage::Waiting,
    {
        FileJob { stage: FileJobStage::Waiting }
    }

    /// Take in what happened and tell what to do next. A request to cancel is
    /// heeded between any two engines.
    pub fn advance(&mut self, event: FileJobEvent) -> (step: FileJobStep)
        requires
            expected(old(self).stage, event),
        ensures
            (final(self).stage, step) == file_job_next(event),
    {
        let (stage, step) = match event {
            FileJobEvent::Taken { cancelled } => if cancelled {
                (FileJobStage::Over, FileJobStep::Cancel)
            } else {
                (FileJobStage::Located, FileJobStep::LookUp)
            },
            FileJobEvent::LookedUp { exists_on_disk, excluded } => if !exists_on_disk {
                (FileJobStage::Over, FileJobStep::NotFound)
            } else if excluded {
                (FileJobStage::Over, FileJobStep::Excluded)
            } else {
                (FileJobStage::Signatures, FileJobStep::RunSignatures)
            },
            FileJobEvent::SignaturesDone { cancelled } => if cancelled {
                (FileJobStage::Over, FileJobStep::Cancel)
            } else {
                (FileJobStage::Heuristics, FileJobStep::RunHeuristics)
            },
            FileJobEvent::HeuristicsDone { cancelled } => if cancelled {
                (FileJobStage::Over, FileJobStep::Cancel)
            } else {
                (FileJobStage::Over, FileJobStep::Succeed)
            },
        };
        self.stage = stage;
        step
    }
}

/// Why a file scan from the queue fails before the engines run.
pub open spec fn job_failure(step: FileJobStep) -> Option<Seq<char>> {
    match step {
        FileJobStep::NotFound => Some("File not found"@),
        FileJobStep::Excluded => Some("Path excluded by configuration"@),
        _ => None,
    }
}

pub fn step_error(step: FileJobStep) -> (error: Option<&'static str>)
    ensures
        text_view(error) == job_failure(step),
        text_view(error) == match step {
            FileJobStep::NotFound => Some("File not found"@),
            FileJobStep::Excluded => Some("Path excluded by configuration"@),
            _ => None,
        },
{
    match step {
        FileJobStep::NotFound => gate_error(FileGate::NotFound),
        FileJobStep::Excluded => gate_error(FileGate::Excluded),
        _ => None,
    }
}

/// A request to cancel that is seen between two steps ends the job.
pub proof fn cancel_between_steps_is_heeded(event: FileJobEvent)
    requires
        event matches FileJobEvent::Taken { cancelled: true } || event
            matches FileJobEvent::SignaturesDone { cancelled: true } || event
            matches FileJobEvent::HeuristicsDone { cancelled: true },
    ensures
        file_job_next(event) == (FileJobStage::Over, FileJobStep::Cancel),
{
}

/// A file that is reported as a threat is never remembered as clean, nor does it
/// build familiarity.
pub proof fn threat_is_not_remembered_clean(
    path: Seq<char>,
    clamav: ClamResult,
    worker_error: Option<Seq<char>>,
    argus: ArgusVerdict,
    exclusions: Seq<String>,
)
    ensures
        ({
            let whole = judged(path, clamav, worker_error, argus, exclusions);
            let partial = cut_short(path, clamav.infected, owned_view(clamav.virus_name));
            &&& whole.threat is Some ==> !whole.remember_clean && !whole.observe_trust
            &&& partial.threat is Some ==> !partial.remember_clean && !partial.observe_trust
        }),
{
}

/// Every file that is left counts as looked at, unless its analysis was cancelled
/// in the helper.
pub proof fn every_judged_file_counts(
    path: Seq<char>,
    errors: Seq<Seq<char>>,
    clamav: ClamResult,
    worker_error: Option<Seq<char>>,
    argus: ArgusVerdict,
    exclusions: Seq<String>,
    error: Seq<char>,
)
    ensures
        passed_over(errors).counted,
        cut_short(path, clamav.infected, owned_view(clamav.virus_name)).counted,
        judged(path, clamav, worker_error, argus, exclusions).counted,
        !given_up(path, error).counted,
{
}

/// A file goes to the engines unless it is too large, cannot be read or is known to
/// be clean; one that is left out is neither a threat nor remembered as clean, and an
/// error on it is told.
pub proof fn files_go_to_the_engines(
    path: Seq<char>,
    size: Result<u64, Seq<char>>,
    max_size: u64,
    cached_clean: bool,
)
    ensures
        ({
            let step = first_step(path, size, max_size, cached_clean);
            &&& step is RunSignatures <==> (size matches Ok(n) && n <= max_size && !cached_clean)
            &&& step is RunSignatures || step is Leave
            &&& step matches Step::Leave(end) ==> {
                &&& end.threat is None
                &&& !end.remember_clean
                &&& !end.observe_trust
                &&& !end.findings
                &&& end.counted
                &&& !end.leave_job
                &&& size is Ok ==> end.errors.len() == 0
                &&& size matches Err(e) ==> end.errors == seq![path + ": "@ + e]
            }
        }),
{
}

/// What the signature engine found is reported also where no time is left for the
/// heuristics; else the heuristics always run, whatever the signature engine found.
pub proof fn signature_match_outlasts_the_clock(path: Seq<char>, clamav: ClamResult, expired: bool)
    ensures
        ({
            let step = after_signatures(path, clamav, expired);
            &&& !expired ==> step is RunHeuristics
            &&& expired && clamav.infected ==> (step matches Step::Leave(end) && end.threat
                == Some(
                Detection {
                    path,
                    virus_name: match owned_view(clamav.virus_name) {
                        Some(name) => name,
                        None => "Unknown"@,
                    },
                },
            ) && !end.remember_clean)
            &&& expired && !clamav.infected ==> (step matches Step::Leave(end)
                && end.threat is None && end.remember_clean)
            &&& step matches Step::Leave(end) ==> end.counted && !end.observe_trust
                && !end.findings && !end.leave_job && end.errors.len() == 0
        }),
{
}

/// A file whose analysis is cancelled in the helper is told and forgotten, and its
/// thread leaves; with any other outcome the analysis goes on.
pub proof fn cancelled_analysis_ends_the_thread(path: Seq<char>, error: Option<Seq<char>>)
    ensures
        error is None ==> after_heuristics(path, error) is WeighTimeouts,
        error matches Some(e) ==> (after_heuristics(path, error) matches Step::Leave(end)
            && end.leave_job && !end.counted && end.threat is None && !end.remember_clean
            && !end.observe_trust && !end.findings && end.errors == seq![path + ": "@ + e]),
{
}

/// A file that both engines have seen is a threat exactly where they agree on a name,
/// and it is told under that name; only what neither engine minds and no engine
/// failed on is remembered as clean.
pub proof fn judgement_follows_the_engines(
    path: Seq<char>,
    clamav: ClamResult,
    worker_error: Option<Seq<char>>,
    argus: ArgusVerdict,
    exclusions: Seq<String>,
)
    ensures
        ({
            let end = judged(path, clamav, worker_error, argus, exclusions);
            let name = united(clamav.infected, owned_view(clamav.virus_name), argus, exclusions);
            &&& end.threat is Some <==> name is Some
            &&& end.threat matches Some(d) ==> d.path == path && name == Some(d.virus_name)
            &&& end.findings <==> name is None && argus.findings@.len() > 0
            &&& end.remember_clean <==> name is None && clamav.error is None
            &&& end.observe_trust <==> argus.score == 0 && !clamav.infected
            &&& end.counted && !end.leave_job
            &&& clamav.error is Some ==> end.errors.len() > 0 && !end.remember_clean
            &&& worker_error is None && clamav.error is None ==> end.errors.len() == 0
        }),
{
}

/// Every error on a file and every threat in it is told to the collector, the errors
/// first, and findings where there is no threat.
pub proof fn collector_is_told_everything(end: End, timing: Option<FileTiming>, i: int)
    ensures
        ({
            let all = messages(end, timing);
            &&& 0 <= i < end.errors.len() ==> all[i] == Msg::Error(end.errors[i])
            &&& end.threat matches Some(d) ==> all.len() == end.errors.len() + 1 && all.last()
                == Msg::Threat(d, timing)
            &&& end.threat is None && end.findings ==> all.len() == end.errors.len() + 1
                && all.last() == Msg::Findings(timing)
            &&& end.threat is None && !end.findings ==> all.len() == end.errors.len()
        }),
{
}

/// A reported file counts once as looked at where it counts, and once as a threat
/// where it is one; nothing else on the board changes.
pub proof fn reported_file_counts_once(b: Board, end: End)
    requires
        b.live matches Some(l) ==> l.files_scanned < u64::MAX && l.threats_found < u64::MAX,
    ensures
        ({
            let after = filed(b, end);
            &&& after.active == b.active
            &&& after.history == b.history
            &&& after.counters == b.counters
            &&& after.last_job == b.last_job
            &&& b.live is None ==> after.live is None
            &&& b.live matches Some(l) ==> (after.live matches Some(m) && m.files_scanned
                == l.files_scanned + (if end.counted {
                1int
            } else {
                0
            }) && m.threats_found == l.threats_found + (if end.threat is Some {
                1int
            } else {
                0
            }) && m.files_total == l.files_total && m.status == l.status && m.cancel_flag
                == l.cancel_flag && m.current_path == l.current_path)
        }),
{
}

/// A score with findings is evidence on the ecosystem of its file, by a tenth of it;
/// one without, or a score of zero, is none.
pub proof fn findings_are_evidence(base_score: u32, findings: usize)
    ensures
        evidence_weight(base_score, findings) is Some <==> base_score > 0 && findings > 0,
        evidence_weight(base_score, findings) matches Some(w) ==> w <= 10 && (base_score < 110
            ==> 10 * w <= base_score < 10 * w + 10),
{
}

/// A file scan from the queue goes through its steps in order: it is looked up, then
/// both engines run unless the file is missing or excluded, and it succeeds after
/// both.
pub proof fn file_job_goes_through_both_engines(event: FileJobEvent)
    ensures
        ({
            let (stage, step) = file_job_next(event);
            &&& event == (FileJobEvent::Taken { cancelled: false }) ==> step is LookUp && stage
                is Located
            &&& event matches FileJobEvent::LookedUp { exists_on_disk, excluded } ==> {
                &&& !exists_on_disk ==> step is NotFound
                &&& exists_on_disk && excluded ==> step is Excluded
                &&& exists_on_disk && !excluded ==> step is RunSignatures && stage is Signatures
            }
            &&& event == (FileJobEvent::SignaturesDone { cancelled: false }) ==> step
                is RunHeuristics && stage is Heuristics
            &&& event == (FileJobEvent::HeuristicsDone { cancelled: false }) ==> step is Succeed
            &&& step is Succeed ==> event is HeuristicsDone
            &&& stage is Over <==> (step is Cancel || step is NotFound || step is Excluded || step
                is Succeed)
        }),
{
}

/// A file scan from the queue fails early for one of two reasons, and tells which.
pub proof fn early_failures_are_told(step: FileJobStep)
    ensures
        step is NotFound ==> job_failure(step) == Some("File not found"@),
        step is Excluded ==> job_failure(step) == Some("Path excluded by configuration"@),
        !(step is NotFound || step is Excluded) ==> job_failure(step) is None,
{
}

/// Timeouts never lower a score, nor take it beyond a hundred, and without weight they
/// leave it alone.
pub proof fn timeouts_never_lower_the_score(score: u32, weight: u32)
    ensures
        weight == 0 ==> weighed_score(score, weight) == score,
        weight > 0 && score + weight <= 100 ==> weighed_score(score, weight) == score + weight,
        weight > 0 && score + weight > 100 ==> weighed_score(score, weight) == 100,
{
}

/// A file counts as analysed in full exactly where nothing timed out.
pub proof fn full_analysis_has_no_timeout(expired: bool, timeouts: Seq<TimeoutReason>)
    ensures
        analysed_in_full(expired, timeouts) <==> !expired && timeouts == Seq::<
            TimeoutReason,
        >::empty(),
{
    if timeouts.len() == 0 {
        assert(timeouts =~= Seq::<TimeoutReason>::empty());
    }
}

/// A late signature engine and an expired clock are each noted, once.
pub proof fn late_signatures_are_noted(late: bool, expired: bool)
    ensures
        signature_timeouts(late, expired).contains(TimeoutReason::ClamAv) <==> late,
        signature_timeouts(late, expired).contains(TimeoutReason::Total) <==> expired,
        signature_timeouts(late, expired).len() == (if late {
            1int
        } else {
            0
        }) + (if expired {
            1int
        } else {
            0
        }),
{
    let t = signature_timeouts(late, expired);
    if late {
        assert(t[0] == TimeoutReason::ClamAv);
    }
    if expired {
        assert(t.last() == TimeoutReason::Total);
    }
}

} // verus!
