//! Scan jobs: their records, their life and what callers are told of them.
//!
//! Records are generic over the type of a text: `String` where they are held,
//! `Seq<char>` where contracts speak of them.

use super::perf::{empty_perf, Perf, ScanPerformanceSummary};
use crate::text::{owned_view, texts};
use vstd::prelude::*;

verus! {

/// State of a scan job.
#[derive(Debug, Clone, Copy, PartialEq, Eq, Structural)]
pub enum ScanJobStatus {
    Pending,
    Running,
    Completed,
    Cancelled,
    Failed,
    Draining,
}

/// Whether a job still holds the scan slot.
pub open spec fn in_flight(status: ScanJobStatus) -> bool {
    status is Running || status is Pending || status is Draining
}

impl ScanJobStatus {
    pub fn is_in_flight(self) -> (yes: bool)
        ensures
            yes == in_flight(self),
    {
        match self {
            ScanJobStatus::Running | ScanJobStatus::Pending | ScanJobStatus::Draining => true,
            _ => false,
        }
    }

    /// The state in the words of a refused start.
    pub fn overlap_word(self) -> (word: &'static str)
        ensures
            word@ == overlap_word(self),
    {
        match self {
            ScanJobStatus::Pending => "queued",
            ScanJobStatus::Running => "running",
            ScanJobStatus::Draining => "draining",
            ScanJobStatus::Completed => "completed",
            ScanJobStatus::Cancelled => "cancelled",
            ScanJobStatus::Failed => "failed",
        }
    }

    /// The state in the words of a status report.
    pub fn state_word(self) -> (word: &'static str)
        ensures
            word@ == state_word(self),
    {
        match self {
            ScanJobStatus::Pending => "queued",
            ScanJobStatus::Running => "running",
            ScanJobStatus::Completed => "completed",
            ScanJobStatus::Cancelled => "cancelled",
            ScanJobStatus::Failed => "failed",
            ScanJobStatus::Draining => "cancelling",
        }
    }
}

pub open spec fn overlap_word(status: ScanJobStatus) -> Seq<char> {
    match status {
        ScanJobStatus::Pending => "queued"@,
        ScanJobStatus::Running => "running"@,
        ScanJobStatus::Draining => "draining"@,
        ScanJobStatus::Completed => "completed"@,
        ScanJobStatus::Cancelled => "cancelled"@,
        ScanJobStatus::Failed => "failed"@,
    }
}

pub open spec fn state_word(status: ScanJobStatus) -> Seq<char> {
    match status {
        ScanJobStatus::Pending => "queued"@,
        ScanJobStatus::Running => "running"@,
        ScanJobStatus::Completed => "completed"@,
        ScanJobStatus::Cancelled => "cancelled"@,
        ScanJobStatus::Failed => "failed"@,
        ScanJobStatus::Draining => "cancelling"@,
    }
}

/// The number that a state is kept as in the live snapshot.
pub open spec fn encoded(status: ScanJobStatus) -> u8 {
    match status {
        ScanJobStatus::Pending => 0,
        ScanJobStatus::Running => 1,
        ScanJobStatus::Completed => 2,
        ScanJobStatus::Cancelled => 3,
        ScanJobStatus::Failed => 4,
        ScanJobStatus::Draining => 5,
    }
}

/// The state that a number stands for; an unknown one is a pending job.
pub open spec fn decoded(status: u8) -> ScanJobStatus {
    if status == 1 {
        ScanJobStatus::Running
    } else if status == 2 {
        ScanJobStatus::Completed
    } else if status == 3 {
        ScanJobStatus::Cancelled
    } else if status == 4 {
        ScanJobStatus::Failed
    } else if status == 5 {
        ScanJobStatus::Draining
    } else {
        ScanJobStatus::Pending
    }
}

/// A state is read back as it was written.
pub proof fn status_survives_encoding(status: ScanJobStatus)
    ensures
        decoded(encoded(status)) == status,
{
}

/// Snapshot of a running scan.
#[derive(Debug)]
pub struct ScanLiveState<T = String> {
    pub id: T,
    pub kind: T,
    pub started_at: i64,
    pub files_total: u64,
    pub files_scanned: u64,
    pub threats_found: u64,
    pub cancel_flag: bool,
    pub status: u8,
    pub current_path: T,
}

impl View for ScanLiveState {
    type V = ScanLiveState<Seq<char>>;

    open spec fn view(&self) -> ScanLiveState<Seq<char>> {
        ScanLiveState {
            id: self.id@,
            kind: self.kind@,
            started_at: self.started_at,
            files_total: self.files_total,
            files_scanned: self.files_scanned,
            threats_found: self.threats_found,
            cancel_flag: self.cancel_flag,
            status: self.status,
            current_path: self.current_path@,
        }
    }
}

impl ScanLiveState {
    pub fn status_enum(&self) -> (status: ScanJobStatus)
        ensures
            status == decoded(self.status),
    {
        match self.status {
            1 => ScanJobStatus::Running,
            2 => ScanJobStatus::Completed,
            3 => ScanJobStatus::Cancelled,
            4 => ScanJobStatus::Failed,
            5 => ScanJobStatus::Draining,
            _ => ScanJobStatus::Pending,
        }
    }

    pub fn set_status(&mut self, s: ScanJobStatus)
        ensures
            final(self)@ == (ScanLiveState { status: encoded(s), ..old(self)@ }),
    {
        self.status =
        match s {
            ScanJobStatus::Pending => 0,
            ScanJobStatus::Running => 1,
            ScanJobStatus::Completed => 2,
            ScanJobStatus::Cancelled => 3,
            ScanJobStatus::Failed => 4,
            ScanJobStatus::Draining => 5,
        };
    }
}

/// A detected threat.
#[derive(Debug)]
pub struct Detection<T = String> {
    pub path: T,
    pub virus_name: T,
}

impl View for Detection {
    type V = Detection<Seq<char>>;

    open spec fn view(&self) -> Detection<Seq<char>> {
        Detection { path: self.path@, virus_name: self.virus_name@ }
    }
}

impl Detection {
    pub fn duplicate(&self) -> (copy: Detection)
        ensures
            copy@ == self@,
    {
        Detection { path: self.path.clone(), virus_name: self.virus_name.clone() }
    }
}

/// The values of a list of detections.
pub open spec fn detections_view(list: Seq<Detection>) -> Seq<Detection<Seq<char>>> {
    list.map_values(|d: Detection| d@)
}

/// A second list of the same detections.
pub fn duplicate_detections(list: &Vec<Detection>) -> (copy: Vec<Detection>)
    ensures
        detections_view(copy@) == detections_view(list@),
{
    let mut copy: Vec<Detection> = Vec::new();
    let mut i: usize = 0;
    while i < list.len()
        invariant
            i <= list@.len(),
            detections_view(copy@) == detections_view(list@).take(i as int),
        decreases list@.len() - i,
    {
        let ghost before = copy@;
        let d = list[i].duplicate();
        copy.push(d);
        assert(detections_view(copy@) =~= detections_view(before).push(list@[i as int]@));
        i = i + 1;
        assert(detections_view(copy@) =~= detections_view(list@).take(i as int));
    }
    assert(detections_view(list@).take(list@.len() as int) =~= detections_view(list@));
    copy
}

/// A running or completed scan job.
#[derive(Debug)]
pub struct ScanJob {
    pub id: String,
    pub kind: String,
    pub status: ScanJobStatus,
    pub started_at: i64,
    pub finished_at: Option<i64>,
    pub files_scanned: u64,
    pub files_total: u64,
    pub threats_found: u64,
    pub current_path: String,
    pub detections: Vec<Detection>,
    pub errors: Vec<String>,
    pub cancel_flag: bool,
    pub perf_summary: ScanPerformanceSummary,
}

/// Mathematical value of a [`ScanJob`].
#[verifier::ext_equal]
pub struct Job {
    pub id: Seq<char>,
    pub kind: Seq<char>,
    pub status: ScanJobStatus,
    pub started_at: i64,
    pub finished_at: Option<i64>,
    pub files_scanned: u64,
    pub files_total: u64,
    pub threats_found: u64,
    pub current_path: Seq<char>,
    pub detections: Seq<Detection<Seq<char>>>,
    pub errors: Seq<Seq<char>>,
    pub cancel_flag: bool,
    pub perf_summary: Perf,
}

impl View for ScanJob {
    type V = Job;

    open spec fn view(&self) -> Job {
        Job {
            id: self.id@,
            kind: self.kind@,
            status: self.status,
            started_at: self.started_at,
            finished_at: self.finished_at,
            files_scanned: self.files_scanned,
            files_total: self.files_total,
            threats_found: self.threats_found,
            current_path: self.current_path@,
            detections: detections_view(self.detections@),
            errors: texts(self.errors@),
            cancel_flag: self.cancel_flag,
            perf_summary: self.perf_summary@,
        }
    }
}

/// A job that has done nothing yet.
pub open spec fn fresh_job(
    id: Seq<char>,
    kind: Seq<char>,
    status: ScanJobStatus,
    now: i64,
    files_total: u64,
    current_path: Seq<char>,
) -> Job {
    Job {
        id,
        kind,
        status,
        started_at: now,
        finished_at: None,
        files_scanned: 0,
        files_total,
        threats_found: 0,
        current_path,
        detections: Seq::empty(),
        errors: Seq::empty(),
        cancel_flag: false,
        perf_summary: empty_perf(),
    }
}

impl ScanJob {
    pub fn new(
        id: &str,
        kind: &str,
        status: ScanJobStatus,
        now: i64,
        files_total: u64,
        current_path: &str,
    ) -> (job: ScanJob)
        ensures
            job@ == fresh_job(id@, kind@, status, now, files_total, current_path@),
            job.perf_summary.wf(),
    {
        let job = ScanJob {
            id: id.to_owned(),
            kind: kind.to_owned(),
            status,
            started_at: now,
            finished_at: None,
            files_scanned: 0,
            files_total,
            threats_found: 0,
            current_path: current_path.to_owned(),
            detections: Vec::new(),
            errors: Vec::new(),
            cancel_flag: false,
            perf_summary: ScanPerformanceSummary::default(),
        };
        assert(job@ =~= fresh_job(id@, kind@, status, now, files_total, current_path@));
        job
    }
}

/// A live snapshot of a job that has done nothing yet.
pub open spec fn fresh_live(
    id: Seq<char>,
    kind: Seq<char>,
    status: ScanJobStatus,
    now: i64,
    files_total: u64,
    current_path: Seq<char>,
) -> ScanLiveState<Seq<char>> {
    ScanLiveState {
        id,
        kind,
        started_at: now,
        files_total,
        files_scanned: 0,
        threats_found: 0,
        cancel_flag: false,
        status: encoded(status),
        current_path,
    }
}

impl ScanLiveState {
    pub fn new(
        id: &str,
        kind: &str,
        status: ScanJobStatus,
        now: i64,
        files_total: u64,
        current_path: &str,
    ) -> (live: ScanLiveState)
        ensures
            live@ == fresh_live(id@, kind@, status, now, files_total, current_path@),
    {
        let mut live = ScanLiveState {
            id: id.to_owned(),
            kind: kind.to_owned(),
            started_at: now,
            files_total,
            files_scanned: 0,
            threats_found: 0,
            cancel_flag: false,
            status: 0,
            current_path: current_path.to_owned(),
        };
        live.set_status(status);
        live
    }
}

/// A finished scan in the history.
#[derive(Debug)]
pub struct ScanRecord<T = String> {
    pub job_id: T,
    pub scan_type: T,
    pub started_at: i64,
    pub finished_at: i64,
    pub files_scanned: u64,
    pub threats_found: u64,
    pub status: T,
}

impl View for ScanRecord {
    type V = ScanRecord<Seq<char>>;

    open spec fn view(&self) -> ScanRecord<Seq<char>> {
        ScanRecord {
            job_id: self.job_id@,
            scan_type: self.scan_type@,
            started_at: self.started_at,
            finished_at: self.finished_at,
            files_scanned: self.files_scanned,
            threats_found: self.threats_found,
            status: self.status@,
        }
    }
}

/// The values of a history.
pub open spec fn records_view(list: Seq<ScanRecord>) -> Seq<ScanRecord<Seq<char>>> {
    list.map_values(|r: ScanRecord| r@)
}

/// A scan as it is persisted.
#[derive(Debug)]
pub struct ScanRow<T = String> {
    pub scan_id: T,
    pub scan_type: T,
    pub status: T,
    pub started_at: i64,
    pub finished_at: Option<i64>,
    pub files_scanned: u64,
    pub threats_found: u64,
    pub errors_count: u64,
    pub duration_ms: u64,
    pub bytes_scanned: u64,
    pub clamav_phase_us: u64,
    pub argus_phase_us: u64,
}

impl View for ScanRow {
    type V = ScanRow<Seq<char>>;

    open spec fn view(&self) -> ScanRow<Seq<char>> {
        ScanRow {
            scan_id: self.scan_id@,
            scan_type: self.scan_type@,
            status: self.status@,
            started_at: self.started_at,
            finished_at: self.finished_at,
            files_scanned: self.files_scanned,
            threats_found: self.threats_found,
            errors_count: self.errors_count,
            duration_ms: self.duration_ms,
            bytes_scanned: self.bytes_scanned,
            clamav_phase_us: self.clamav_phase_us,
            argus_phase_us: self.argus_phase_us,
        }
    }
}

/// Outcome of scanning one file.
#[derive(Debug)]
pub struct ScanResultResponse<T = String> {
    pub path: T,
    pub infected: bool,
    pub virus_name: Option<T>,
    pub scanned_bytes: u64,
    pub error: Option<T>,
}

impl View for ScanResultResponse {
    type V = ScanResultResponse<Seq<char>>;

    open spec fn view(&self) -> ScanResultResponse<Seq<char>> {
        ScanResultResponse {
            path: self.path@,
            infected: self.infected,
            virus_name: owned_view(self.virus_name),
            scanned_bytes: self.scanned_bytes,
            error: owned_view(self.error),
        }
    }
}

/// Answer to a request to start a scan.
#[derive(Debug)]
pub struct ScanStartResponse<T = String> {
    pub job_id: T,
    pub status: T,
    pub result: Option<ScanResultResponse<T>>,
    pub error: Option<T>,
}

impl View for ScanStartResponse {
    type V = ScanStartResponse<Seq<char>>;

    open spec fn view(&self) -> ScanStartResponse<Seq<char>> {
        ScanStartResponse {
            job_id: self.job_id@,
            status: self.status@,
            result: match self.result {
                Some(r) => Some(r@),
                None => None,
            },
            error: owned_view(self.error),
        }
    }
}

/// The answer that reports an error.
pub open spec fn start_error(id: Seq<char>, error: Seq<char>) -> ScanStartResponse<Seq<char>> {
    ScanStartResponse { job_id: id, status: "error"@, result: None, error: Some(error) }
}

/// The answer that reports an accepted job.
pub open spec fn start_accepted(id: Seq<char>, status: Seq<char>) -> ScanStartResponse<Seq<char>> {
    ScanStartResponse { job_id: id, status, result: None, error: None }
}

impl ScanStartResponse {
    pub fn failed(id: &str, error: String) -> (response: ScanStartResponse)
        ensures
            response@ == start_error(id@, error@),
    {
        ScanStartResponse {
            job_id: id.to_owned(),
            status: "error".to_owned(),
            result: None,
            error: Some(error),
        }
    }

    pub fn accepted(id: &str, status: &str) -> (response: ScanStartResponse)
        ensures
            response@ == start_accepted(id@, status@),
    {
        ScanStartResponse {
            job_id: id.to_owned(),
            status: status.to_owned(),
            result: None,
            error: None,
        }
    }
}

/// Queue that an orchestrated job waits in.
#[derive(Debug, Clone, Copy, PartialEq, Eq, Structural)]
pub enum QueueKind {
    Manual,
}

/// A job handed to the orchestrator.
#[derive(Debug)]
pub struct OrchestratedScanJob<T = String> {
    pub id: T,
    pub queue_kind: QueueKind,
    pub path: T,
    pub requested_at: i64,
}

impl View for OrchestratedScanJob {
    type V = OrchestratedScanJob<Seq<char>>;

    open spec fn view(&self) -> OrchestratedScanJob<Seq<char>> {
        OrchestratedScanJob {
            id: self.id@,
            queue_kind: self.queue_kind,
            path: self.path@,
            requested_at: self.requested_at,
        }
    }
}

/// Outcome of the latest orchestrated job.
#[derive(Debug)]
pub struct OrchestratedJobResult<T = String> {
    pub id: T,
    pub path: T,
    pub verdict: Option<T>,
    pub status: T,
    pub duration_ms: u64,
    pub error: Option<T>,
}

impl View for OrchestratedJobResult {
    type V = OrchestratedJobResult<Seq<char>>;

    open spec fn view(&self) -> OrchestratedJobResult<Seq<char>> {
        OrchestratedJobResult {
            id: self.id@,
            path: self.path@,
            verdict: owned_view(self.verdict),
            status: self.status@,
            duration_ms: self.duration_ms,
            error: owned_view(self.error),
        }
    }
}

/// An entry for the activity log.
#[derive(Debug)]
pub struct ActivityEvent<T = String> {
    pub severity: T,
    pub category: T,
    pub title: T,
    pub message: T,
    pub scan_id: Option<T>,
}

impl View for ActivityEvent {
    type V = ActivityEvent<Seq<char>>;

    open spec fn view(&self) -> ActivityEvent<Seq<char>> {
        ActivityEvent {
            severity: self.severity@,
            category: self.category@,
            title: self.title@,
            message: self.message@,
            scan_id: owned_view(self.scan_id),
        }
    }
}

impl ActivityEvent {
    /// An event that belongs to no scan.
    pub fn general(severity: &str, category: &str, title: String, message: &str) -> (event:
        ActivityEvent)
        ensures
            event@ == (ActivityEvent {
                severity: severity@,
                category: category@,
                title: title@,
                message: message@,
                scan_id: None,
            }),
    {
        ActivityEvent {
            severity: severity.to_owned(),
            category: category.to_owned(),
            title,
            message: message.to_owned(),
            scan_id: None,
        }
    }
}

/// Milliseconds between two times in seconds; a clock that ran backwards gives
/// none.
pub open spec fn millis_between(started: i64, finished: i64) -> u64 {
    if finished <= started {
        0
    } else if (finished - started) * 1000 > u64::MAX {
        u64::MAX
    } else {
        ((finished - started) * 1000) as u64
    }
}

pub fn duration_ms(started: i64, finished: i64) -> (ms: u64)
    ensures
        ms == millis_between(started, finished),
{
    if finished <= started {
        return 0;
    }
    let ms: i128 = (finished as i128 - started as i128) * 1000;
    if ms > u64::MAX as i128 {
        u64::MAX
    } else {
        ms as u64
    }
}

/// The last `n` items.
pub open spec fn last_items<A>(s: Seq<A>, n: nat) -> Seq<A> {
    if s.len() <= n {
        s
    } else {
        s.subrange(s.len() - n, s.len() as int)
    }
}

/// Drop items from the front until at most `n` are left.
pub fn keep_last<A>(v: &mut Vec<A>, n: usize)
    ensures
        final(v)@ == last_items(old(v)@, n as nat),
{
    let ghost all = v@;
    if v.len() > n {
        let cut: usize = v.len() - n;
        let tail = v.split_off(cut);
        *v = tail;
        assert(v@ =~= all.subrange(all.len() - n, all.len() as int));
    }
}

/// A job holds the slot from the moment it is queued until it has come to its end:
/// completed, cancelled or failed.
pub proof fn slot_is_held_until_the_end(status: ScanJobStatus)
    ensures
        in_flight(status) <==> !(status is Completed || status is Cancelled || status is Failed),
{
}

/// No two states are told in the same words, and a state is told alike in a report
/// and in a refusal, except that a draining job reports that it is cancelling.
pub proof fn states_are_told_apart(a: ScanJobStatus, b: ScanJobStatus)
    ensures
        a != b ==> state_word(a) != state_word(b),
        a != b ==> overlap_word(a) != overlap_word(b),
        !(a is Draining) ==> state_word(a) == overlap_word(a),
        a is Draining ==> state_word(a) == "cancelling"@ && overlap_word(a) == "draining"@,
        a is Pending ==> state_word(a) == "queued"@,
        a is Running ==> state_word(a) == "running"@,
        a is Completed ==> state_word(a) == "completed"@,
        a is Cancelled ==> state_word(a) == "cancelled"@,
        a is Failed ==> state_word(a) == "failed"@,
{
    reveal_strlit("queued");
    reveal_strlit("running");
    reveal_strlit("draining");
    reveal_strlit("completed");
    reveal_strlit("cancelled");
    reveal_strlit("cancelling");
    reveal_strlit("failed");
    assert("queued"@.len() == 6 && "failed"@.len() == 6 && "running"@.len() == 7);
    assert("queued"@[0] == 'q' && "failed"@[0] == 'f');
    assert("draining"@.len() == 8 && "cancelling"@.len() == 10);
    assert("completed"@.len() == 9 && "cancelled"@.len() == 9);
    assert("completed"@[1] == 'o' && "cancelled"@[1] == 'a');
}

/// The time between two moments is told in milliseconds, and is none where the clock
/// ran backwards.
pub proof fn seconds_become_milliseconds(started: i64, finished: i64)
    ensures
        finished <= started ==> millis_between(started, finished) == 0,
        0 < finished - started <= 18_446_744_073_709_551 ==> millis_between(started, finished)
            == 1000 * (finished - started),
{
}

/// The last items are an end of the list: none is added or changed, no more are
/// dropped than must be, and those that are dropped are the oldest.
pub proof fn oldest_items_are_dropped<A>(s: Seq<A>, n: nat, i: int)
    ensures
        last_items(s, n).len() == if s.len() < n {
            s.len()
        } else {
            n
        },
        0 <= i < last_items(s, n).len() ==> last_items(s, n)[last_items(s, n).len() - 1 - i]
            == s[s.len() - 1 - i],
{
}

/// A job that begins has done nothing yet, and shows the same in its snapshot.
pub proof fn fresh_job_has_done_nothing(
    id: Seq<char>,
    kind: Seq<char>,
    status: ScanJobStatus,
    now: i64,
    files_total: u64,
    path: Seq<char>,
)
    ensures
        ({
            let j = fresh_job(id, kind, status, now, files_total, path);
            let l = fresh_live(id, kind, status, now, files_total, path);
            &&& j.id == id && l.id == id
            &&& j.kind == kind && l.kind == kind
            &&& j.status == status && decoded(l.status) == status
            &&& j.started_at == now && l.started_at == now
            &&& j.finished_at is None
            &&& j.files_total == files_total && l.files_total == files_total
            &&& j.files_scanned == 0 && l.files_scanned == 0
            &&& j.threats_found == 0 && l.threats_found == 0
            &&& j.current_path == path && l.current_path == path
            &&& j.detections.len() == 0
            &&& j.errors.len() == 0
            &&& !j.cancel_flag && !l.cancel_flag
        }),
{
}

/// An answer tells the job it is about, and an error only where there is one.
pub proof fn answers_tell_their_job(id: Seq<char>, text: Seq<char>)
    ensures
        ({
            let bad = start_error(id, text);
            let good = start_accepted(id, text);
            &&& bad.job_id == id && bad.status == "error"@ && bad.error == Some(text)
            &&& bad.result is None
            &&& good.job_id == id && good.status == text && good.error is None
            &&& good.result is None
        }),
{
}

} // verus!
