//! The scan board: the one active scan, its live snapshot and the history.
//!
//! At most one scan holds the slot. A start is checked and reserved in one
//! step, every end of a job frees the slot, and a job never touches the entry of
//! another.

use super::job::{
    decoded, detections_view, duplicate_detections, duration_ms, encoded, fresh_job, fresh_live,
    in_flight, keep_last, last_items, millis_between, overlap_word, records_view, start_error,
    state_word, ActivityEvent, Detection, Job, OrchestratedJobResult, OrchestratedScanJob, ScanJob,
    ScanJobStatus, ScanLiveState, ScanRecord, ScanResultResponse, ScanRow, ScanStartResponse,
};
use super::verdict::ScanTiming;
use crate::text::{owned_view, same, texts};
use vstd::prelude::*;

verus! {

/// Scans that the history keeps where it is trimmed.
pub const MAX_SCAN_HISTORY: usize = 200;

/// Orchestrated jobs by their end.
#[derive(Debug, Clone, Copy, PartialEq, Eq, Structural)]
pub struct JobCounters {
    pub completed_file: u64,
    pub completed_folder: u64,
    pub completed_quick: u64,
    pub completed_full: u64,
    pub cancelled: u64,
    pub failed: u64,
}

/// The scan state of the daemon.
pub struct ScanBoard {
    pub active_scan: Option<ScanJob>,
    pub scan_live: Option<ScanLiveState>,
    pub scan_history: Vec<ScanRecord>,
    pub counters: JobCounters,
    pub last_job: Option<OrchestratedJobResult>,
}

/// Mathematical value of a [`ScanBoard`].
#[verifier::ext_equal]
pub struct Board {
    pub active: Option<Job>,
    pub live: Option<ScanLiveState<Seq<char>>>,
    pub history: Seq<ScanRecord<Seq<char>>>,
    pub counters: JobCounters,
    pub last_job: Option<OrchestratedJobResult<Seq<char>>>,
}

pub open spec fn job_view(job: Option<ScanJob>) -> Option<Job> {
    match job {
        Some(j) => Some(j@),
        None => None,
    }
}

pub open spec fn live_view(live: Option<ScanLiveState>) -> Option<ScanLiveState<Seq<char>>> {
    match live {
        Some(l) => Some(l@),
        None => None,
    }
}

pub open spec fn result_view(result: Option<OrchestratedJobResult>) -> Option<
    OrchestratedJobResult<Seq<char>>,
> {
    match result {
        Some(r) => Some(r@),
        None => None,
    }
}

impl View for ScanBoard {
    type V = Board;

    open spec fn view(&self) -> Board {
        Board {
            active: job_view(self.active_scan),
            live: live_view(self.scan_live),
            history: records_view(self.scan_history@),
            counters: self.counters,
            last_job: result_view(self.last_job),
        }
    }
}

/// Nothing scanned yet.
pub open spec fn empty_board() -> Board {
    Board {
        active: None,
        live: None,
        history: Seq::empty(),
        counters: JobCounters {
            completed_file: 0,
            completed_folder: 0,
            completed_quick: 0,
            completed_full: 0,
            cancelled: 0,
            failed: 0,
        },
        last_job: None,
    }
}

/// Whether the slot is taken.
pub open spec fn occupied(b: Board) -> bool {
    b.active matches Some(j) && in_flight(j.status)
}

/// The answer to a start while `j` holds the slot.
pub open spec fn overlap(j: Job) -> ScanStartResponse<Seq<char>> {
    start_error(
        j.id,
        "Another scan is already "@ + overlap_word(j.status) + " — cancel it or wait"@,
    )
}

/// The board after a start, and the refusal it met.
pub open spec fn reserved(b: Board, job: Job) -> (Board, Option<ScanStartResponse<Seq<char>>>) {
    if occupied(b) {
        (b, Some(overlap(b.active->0)))
    } else {
        (Board { active: Some(job), ..b }, None)
    }
}

pub open spec fn refusal_view(refusal: Result<(), ScanStartResponse>) -> Option<
    ScanStartResponse<Seq<char>>,
> {
    match refusal {
        Ok(()) => None,
        Err(response) => Some(response@),
    }
}

/// A scan to start, as the board records it.
pub struct ScanStart<T = String> {
    pub kind: T,
    /// Whether the job waits in the queue first.
    pub queued: bool,
    pub files_total: u64,
    pub job_path: T,
    pub live_path: T,
}

impl View for ScanStart {
    type V = ScanStart<Seq<char>>;

    open spec fn view(&self) -> ScanStart<Seq<char>> {
        ScanStart {
            kind: self.kind@,
            queued: self.queued,
            files_total: self.files_total,
            job_path: self.job_path@,
            live_path: self.live_path@,
        }
    }
}

/// The state in which a job starts.
pub open spec fn first_status(queued: bool) -> ScanJobStatus {
    if queued {
        ScanJobStatus::Pending
    } else {
        ScanJobStatus::Running
    }
}

/// The board after the start of a job. A queued job has its live snapshot at
/// once, a job that runs directly gets it from its worker.
pub open spec fn begun(
    b: Board,
    start: ScanStart<Seq<char>>,
    id: Seq<char>,
    now: i64,
) -> (Board, Option<ScanStartResponse<Seq<char>>>) {
    let status = first_status(start.queued);
    let (after, refusal) = reserved(
        b,
        fresh_job(id, start.kind, status, now, start.files_total, start.job_path),
    );
    if refusal is Some || !start.queued {
        (after, refusal)
    } else {
        (
            Board {
                live: Some(
                    fresh_live(id, start.kind, status, now, start.files_total, start.live_path),
                ),
                ..after
            },
            None,
        )
    }
}

/// A queued scan of one file.
pub open spec fn file_start(path: Seq<char>) -> ScanStart<Seq<char>> {
    ScanStart { kind: "file"@, queued: true, files_total: 1, job_path: path, live_path: path }
}

pub fn queued_file_start(path: &str) -> (start: ScanStart)
    ensures
        start@ == file_start(path@),
{
    ScanStart {
        kind: "file".to_owned(),
        queued: true,
        files_total: 1,
        job_path: path.to_owned(),
        live_path: path.to_owned(),
    }
}

/// A queued scan of one folder.
pub open spec fn folder_start(folder: Seq<char>) -> ScanStart<Seq<char>> {
    ScanStart {
        kind: "folder"@,
        queued: true,
        files_total: 0,
        job_path: "Queued: "@ + folder,
        live_path: "Enumerating "@ + folder + "..."@,
    }
}

pub fn queued_folder_start(folder: &str) -> (start: ScanStart)
    ensures
        start@ == folder_start(folder@),
{
    let mut job_path = "Queued: ".to_owned();
    job_path.append(folder);
    let mut live_path = "Enumerating ".to_owned();
    live_path.append(folder);
    live_path.append("...");
    ScanStart { kind: "folder".to_owned(), queued: true, files_total: 0, job_path, live_path }
}

/// A queued scan of the usual places.
pub open spec fn quick_start() -> ScanStart<Seq<char>> {
    ScanStart {
        kind: "quick"@,
        queued: true,
        files_total: 0,
        job_path: "Queued"@,
        live_path: "Queued: quick scan"@,
    }
}

pub fn queued_quick_start() -> (start: ScanStart)
    ensures
        start@ == quick_start(),
{
    ScanStart {
        kind: "quick".to_owned(),
        queued: true,
        files_total: 0,
        job_path: "Queued".to_owned(),
        live_path: "Queued: quick scan".to_owned(),
    }
}

/// A queued scan of all drives.
pub open spec fn full_start() -> ScanStart<Seq<char>> {
    ScanStart {
        kind: "full"@,
        queued: true,
        files_total: 0,
        job_path: "Queued: full disk scan"@,
        live_path: "Enumerating drives..."@,
    }
}

pub fn queued_full_start() -> (start: ScanStart)
    ensures
        start@ == full_start(),
{
    ScanStart {
        kind: "full".to_owned(),
        queued: true,
        files_total: 0,
        job_path: "Queued: full disk scan".to_owned(),
        live_path: "Enumerating drives...".to_owned(),
    }
}

/// A scan that runs directly, with what it shows first.
pub open spec fn plain_start(kind: Seq<char>, shown: Seq<char>) -> ScanStart<Seq<char>> {
    ScanStart { kind, queued: false, files_total: 0, job_path: shown, live_path: Seq::empty() }
}

pub fn direct_start(kind: &str, shown: &str) -> (start: ScanStart)
    ensures
        start@ == plain_start(kind@, shown@),
{
    ScanStart {
        kind: kind.to_owned(),
        queued: false,
        files_total: 0,
        job_path: shown.to_owned(),
        live_path: String::new(),
    }
}

/// The board after `id` started to run.
pub open spec fn running(b: Board, id: Seq<char>) -> Board {
    Board {
        active: match b.active {
            Some(j) => if j.id == id {
                Some(Job { status: ScanJobStatus::Running, ..j })
            } else {
                Some(j)
            },
            None => None,
        },
        live: match b.live {
            Some(l) => if l.id == id {
                Some(ScanLiveState { status: encoded(ScanJobStatus::Running), ..l })
            } else {
                Some(l)
            },
            None => None,
        },
        ..b
    }
}

/// The status word of a file scan.
pub open spec fn success_status(result: ScanResultResponse<Seq<char>>) -> Seq<char> {
    if result.error is Some {
        "failed"@
    } else {
        "completed"@
    }
}

pub open spec fn threats_in(result: ScanResultResponse<Seq<char>>) -> u64 {
    if result.infected {
        1
    } else {
        0
    }
}

/// The name of the threat, where there is one.
pub open spec fn threat_name(result: ScanResultResponse<Seq<char>>) -> Seq<char> {
    match result.virus_name {
        Some(name) => name,
        None => "Unknown"@,
    }
}

/// The event of a scanned file.
pub open spec fn file_event(
    result: ScanResultResponse<Seq<char>>,
    path: Seq<char>,
    id: Seq<char>,
) -> ActivityEvent<Seq<char>> {
    ActivityEvent {
        severity: if result.infected {
            "critical"@
        } else {
            "info"@
        },
        category: "scan"@,
        title: if result.infected {
            "Threat: "@ + threat_name(result)
        } else {
            "File scan: clean"@
        },
        message: path,
        scan_id: Some(id),
    }
}

fn describe_file(result: &ScanResultResponse, path: &str, id: &str) -> (event: ActivityEvent)
    ensures
        event@ == file_event(result@, path@, id@),
{
    let severity = if result.infected {
        "critical"
    } else {
        "info"
    };
    let title = if result.infected {
        let mut title = "Threat: ".to_owned();
        title.append(name_of_threat(result).as_str());
        title
    } else {
        "File scan: clean".to_owned()
    };
    ActivityEvent {
        severity: severity.to_owned(),
        category: "scan".to_owned(),
        title,
        message: path.to_owned(),
        scan_id: Some(id.to_owned()),
    }
}

fn name_of_threat(result: &ScanResultResponse) -> (name: String)
    ensures
        name@ == threat_name(result@),
{
    match &result.virus_name {
        Some(name) => name.clone(),
        None => "Unknown".to_owned(),
    }
}

/// Time that the two engines took, where it was measured.
pub open spec fn phases(timing: Option<ScanTiming>) -> (u64, u64) {
    match timing {
        Some(t) => (t.clamav_us, t.argus_total_us),
        None => (0, 0),
    }
}

/// The row on the scan of one file.
pub open spec fn file_row(
    id: Seq<char>,
    status: Seq<char>,
    started: i64,
    finished: i64,
    duration_ms: u64,
    result: ScanResultResponse<Seq<char>>,
    timing: Option<ScanTiming>,
) -> ScanRow<Seq<char>> {
    ScanRow {
        scan_id: id,
        scan_type: "file"@,
        status,
        started_at: started,
        finished_at: Some(finished),
        files_scanned: 1,
        threats_found: threats_in(result),
        errors_count: if result.error is Some {
            1
        } else {
            0
        },
        duration_ms,
        bytes_scanned: result.scanned_bytes,
        clamav_phase_us: phases(timing).0,
        argus_phase_us: phases(timing).1,
    }
}

/// The detection that the scan of one file leaves behind, if there is one.
pub open spec fn file_detection(result: ScanResultResponse<Seq<char>>, path: Seq<char>) -> Option<
    Detection<Seq<char>>,
> {
    if result.infected {
        Some(Detection { path, virus_name: threat_name(result) })
    } else {
        None
    }
}

/// What a finished job leaves behind for the database and the log.
pub struct Completion {
    pub row: Option<ScanRow>,
    pub detection: Option<Detection>,
    pub event: ActivityEvent,
}

pub open spec fn row_view(row: Option<ScanRow>) -> Option<ScanRow<Seq<char>>> {
    match row {
        Some(r) => Some(r@),
        None => None,
    }
}

pub open spec fn detection_view(d: Option<Detection>) -> Option<Detection<Seq<char>>> {
    match d {
        Some(x) => Some(x@),
        None => None,
    }
}

/// The job after its file was scanned.
pub open spec fn job_succeeded(
    j: Job,
    path: Seq<char>,
    result: ScanResultResponse<Seq<char>>,
    finished: i64,
) -> Job {
    Job {
        status: ScanJobStatus::Completed,
        finished_at: Some(finished),
        files_scanned: 1,
        threats_found: threats_in(result),
        current_path: Seq::empty(),
        detections: if result.infected {
            seq![Detection { path, virus_name: threat_name(result) }]
        } else {
            j.detections
        },
        errors: match result.error {
            Some(e) => j.errors.push(e),
            None => j.errors,
        },
        ..j
    }
}

/// The record of a scan of one file.
pub open spec fn file_record(
    id: Seq<char>,
    started: i64,
    finished: i64,
    files: u64,
    threats: u64,
    status: Seq<char>,
) -> ScanRecord<Seq<char>> {
    ScanRecord {
        job_id: id,
        scan_type: "file"@,
        started_at: started,
        finished_at: finished,
        files_scanned: files,
        threats_found: threats,
        status,
    }
}

/// The board after an orchestrated file scan.
pub open spec fn file_succeeded(
    b: Board,
    job: OrchestratedScanJob<Seq<char>>,
    result: ScanResultResponse<Seq<char>>,
    label: Seq<char>,
    elapsed_ms: u64,
    finished: i64,
) -> Board {
    Board {
        active: match b.active {
            Some(j) => if j.id == job.id {
                Some(job_succeeded(j, job.path, result, finished))
            } else {
                Some(j)
            },
            None => None,
        },
        live: match b.live {
            Some(l) => if l.id == job.id {
                Some(
                    ScanLiveState {
                        files_scanned: 1,
                        threats_found: threats_in(result),
                        status: encoded(ScanJobStatus::Completed),
                        ..l
                    },
                )
            } else {
                Some(l)
            },
            None => None,
        },
        history: last_items(
            b.history.push(
                file_record(
                    job.id,
                    job.requested_at,
                    finished,
                    1,
                    threats_in(result),
                    success_status(result),
                ),
            ),
            MAX_SCAN_HISTORY as nat,
        ),
        counters: JobCounters {
            completed_file: b.counters.completed_file.wrapping_add(1),
            ..b.counters
        },
        last_job: Some(
            OrchestratedJobResult {
                id: job.id,
                path: job.path,
                verdict: Some(label),
                status: success_status(result),
                duration_ms: elapsed_ms,
                error: result.error,
            },
        ),
    }
}

/// The board after an orchestrated file scan was cancelled.
pub open spec fn file_cancelled(
    b: Board,
    job: OrchestratedScanJob<Seq<char>>,
    elapsed_ms: u64,
    finished: i64,
) -> Board {
    Board {
        active: match b.active {
            Some(j) => if j.id == job.id {
                Some(
                    Job {
                        status: ScanJobStatus::Cancelled,
                        finished_at: Some(finished),
                        current_path: Seq::empty(),
                        ..j
                    },
                )
            } else {
                Some(j)
            },
            None => None,
        },
        live: match b.live {
            Some(l) => if l.id == job.id {
                Some(ScanLiveState { status: encoded(ScanJobStatus::Cancelled), ..l })
            } else {
                Some(l)
            },
            None => None,
        },
        history: b.history.push(
            file_record(job.id, job.requested_at, finished, 0, 0, "cancelled"@),
        ),
        counters: JobCounters { cancelled: b.counters.cancelled.wrapping_add(1), ..b.counters },
        last_job: Some(
            OrchestratedJobResult {
                id: job.id,
                path: job.path,
                verdict: None,
                status: "cancelled"@,
                duration_ms: elapsed_ms,
                error: None,
            },
        ),
    }
}

/// The board after an orchestrated file scan failed.
pub open spec fn file_failed(
    b: Board,
    id: Seq<char>,
    path: Seq<char>,
    requested_at: i64,
    error: Seq<char>,
    finished: i64,
) -> Board {
    Board {
        active: match b.active {
            Some(j) => if j.id == id {
                Some(
                    Job {
                        status: ScanJobStatus::Failed,
                        finished_at: Some(finished),
                        errors: j.errors.push(error),
                        current_path: Seq::empty(),
                        ..j
                    },
                )
            } else {
                Some(j)
            },
            None => None,
        },
        live: b.live,
        history: b.history.push(file_record(id, requested_at, finished, 0, 0, "failed"@)),
        counters: JobCounters { failed: b.counters.failed.wrapping_add(1), ..b.counters },
        last_job: Some(
            OrchestratedJobResult {
                id,
                path,
                verdict: None,
                status: "failed"@,
                duration_ms: millis_between(requested_at, finished),
                error: Some(error),
            },
        ),
    }
}

/// The row of a failed file scan.
pub open spec fn failed_row(id: Seq<char>, requested_at: i64, finished: i64) -> ScanRow<Seq<char>> {
    ScanRow {
        scan_id: id,
        scan_type: "file"@,
        status: "failed"@,
        started_at: requested_at,
        finished_at: Some(finished),
        files_scanned: 0,
        threats_found: 0,
        errors_count: 1,
        duration_ms: millis_between(requested_at, finished),
        bytes_scanned: 0,
        clamav_phase_us: 0,
        argus_phase_us: 0,
    }
}

/// The board after an orchestrated file scan could not begin.
pub open spec fn file_error(
    b: Board,
    job: OrchestratedScanJob<Seq<char>>,
    error: Seq<char>,
    elapsed_ms: u64,
    finished: i64,
) -> Board {
    let failed = file_failed(b, job.id, job.path, job.requested_at, error, finished);
    Board {
        live: match failed.live {
            Some(l) => if l.id == job.id {
                Some(ScanLiveState { status: encoded(ScanJobStatus::Failed), ..l })
            } else {
                Some(l)
            },
            None => None,
        },
        last_job: Some(
            OrchestratedJobResult {
                id: job.id,
                path: job.path,
                verdict: None,
                status: "failed"@,
                duration_ms: elapsed_ms,
                error: Some(error),
            },
        ),
        ..failed
    }
}

/// What a cancel request makes of a job.
pub open spec fn cancelled_to(status: ScanJobStatus) -> ScanJobStatus {
    if status is Pending {
        ScanJobStatus::Cancelled
    } else {
        ScanJobStatus::Draining
    }
}

/// The board after a cancel request, and whether there was something to cancel.
pub open spec fn cancel(b: Board) -> (Board, bool) {
    match b.live {
        Some(l) => {
            let next = cancelled_to(decoded(l.status));
            (
                Board {
                    live: Some(ScanLiveState { cancel_flag: true, status: encoded(next), ..l }),
                    active: match b.active {
                        Some(j) => if j.id == l.id {
                            Some(Job { cancel_flag: true, status: next, ..j })
                        } else {
                            Some(j)
                        },
                        None => None,
                    },
                    ..b
                },
                true,
            )
        },
        None => match b.active {
            Some(j) => if j.status is Running || j.status is Pending {
                (
                    Board {
                        active: Some(
                            Job { cancel_flag: true, status: cancelled_to(j.status), ..j },
                        ),
                        ..b
                    },
                    true,
                )
            } else {
                (b, false)
            },
            None => (b, false),
        },
    }
}

proof fn lemma_records_push(list: Seq<ScanRecord>, r: ScanRecord)
    ensures
        records_view(list.push(r)) == records_view(list).push(r@),
{
    assert(records_view(list.push(r)) =~= records_view(list).push(r@));
}

proof fn lemma_records_last(list: Seq<ScanRecord>, n: nat)
    ensures
        records_view(last_items(list, n)) == last_items(records_view(list), n),
{
    assert(records_view(last_items(list, n)) =~= last_items(records_view(list), n));
}

proof fn lemma_texts_push(list: Seq<String>, item: String)
    ensures
        texts(list.push(item)) == texts(list).push(item@),
{
    assert(texts(list.push(item)) =~= texts(list).push(item@));
}

impl ScanBoard {
    pub fn new() -> (board: ScanBoard)
        ensures
            board@ == empty_board(),
    {
        let board = ScanBoard {
            active_scan: None,
            scan_live: None,
            scan_history: Vec::new(),
            counters: JobCounters {
                completed_file: 0,
                completed_folder: 0,
                completed_quick: 0,
                completed_full: 0,
                cancelled: 0,
                failed: 0,
            },
            last_job: None,
        };
        assert(board@.history =~= empty_board().history);
        board
    }

    /// Check that no scan is in flight and install `job`, in one step.
    pub fn reserve_active_scan(&mut self, job: ScanJob) -> (answer: Result<(), ScanStartResponse>)
        ensures
            (final(self)@, refusal_view(answer)) == reserved(old(self)@, job@),
    {
        match &self.active_scan {
            Some(existing) => if existing.status.is_in_flight() {
                let mut error = "Another scan is already ".to_owned();
                error.append(existing.status.overlap_word());
                error.append(" — cancel it or wait");
                return Err(ScanStartResponse::failed(existing.id.as_str(), error));
            },
            None => {},
        }
        self.active_scan = Some(job);
        Ok(())
    }

    /// Start a job: reserve the slot and, for a queued job, show it as queued.
    pub fn begin(&mut self, start: &ScanStart, id: &str, now: i64) -> (answer: Result<
        (),
        ScanStartResponse,
    >)
        ensures
            (final(self)@, refusal_view(answer)) == begun(old(self)@, start@, id@, now),
    {
        let status = if start.queued {
            ScanJobStatus::Pending
        } else {
            ScanJobStatus::Running
        };
        let job = ScanJob::new(
            id,
            start.kind.as_str(),
            status,
            now,
            start.files_total,
            start.job_path.as_str(),
        );
        match self.reserve_active_scan(job) {
            Ok(()) => {},
            Err(response) => {
                return Err(response);
            },
        }
        if start.queued {
            self.scan_live = Some(
                ScanLiveState::new(
                    id,
                    start.kind.as_str(),
                    status,
                    now,
                    start.files_total,
                    start.live_path.as_str(),
                ),
            );
        }
        Ok(())
    }

    /// Show the job `id` as running.
    pub fn mark_running(&mut self, id: &str)
        ensures
            final(self)@ == running(old(self)@, id@),
    {
        if let Some(live) = &mut self.scan_live {
            if same(live.id.as_str(), id) {
                live.set_status(ScanJobStatus::Running);
            }
        }
        if let Some(job) = &mut self.active_scan {
            if same(job.id.as_str(), id) {
                job.status = ScanJobStatus::Running;
            }
        }
    }

    /// Whether a manual scan is running.
    pub fn is_scan_active(&self) -> (yes: bool)
        ensures
            yes == (self@.active matches Some(j) && j.status is Running),
    {
        match &self.active_scan {
            Some(job) => job.status == ScanJobStatus::Running,
            None => false,
        }
    }

    /// Ask the scan to stop. A job that still waits is cancelled at once, a
    /// running one drains.
    pub fn cancel_scan(&mut self) -> (cancelled: bool)
        ensures
            (final(self)@, cancelled) == cancel(old(self)@),
    {
        if let Some(live) = &mut self.scan_live {
            let previous = live.status_enum();
            live.cancel_flag = true;
            let next = if previous == ScanJobStatus::Pending {
                ScanJobStatus::Cancelled
            } else {
                ScanJobStatus::Draining
            };
            live.set_status(next);
            if let Some(job) = &mut self.active_scan {
                if same(job.id.as_str(), live.id.as_str()) {
                    job.cancel_flag = true;
                    job.status = next;
                }
            }
            return true;
        }
        if let Some(job) = &mut self.active_scan {
            if job.status == ScanJobStatus::Running || job.status == ScanJobStatus::Pending {
                job.cancel_flag = true;
                job.status =
                if job.status == ScanJobStatus::Pending {
                    ScanJobStatus::Cancelled
                } else {
                    ScanJobStatus::Draining
                };
                return true;
            }
        }
        false
    }

    fn push_record(&mut self, record: ScanRecord)
        ensures
            final(self)@ == (Board { history: old(self)@.history.push(record@), ..old(self)@ }),
    {
        proof {
            lemma_records_push(self.scan_history@, record);
        }
        self.scan_history.push(record);
    }

    /// Drop the oldest records beyond the limit.
    fn trim_history(&mut self)
        ensures
            final(self)@ == (Board {
                history: last_items(old(self)@.history, MAX_SCAN_HISTORY as nat),
                ..old(self)@
            }),
    {
        proof {
            lemma_records_last(self.scan_history@, MAX_SCAN_HISTORY as nat);
        }
        keep_last(&mut self.scan_history, MAX_SCAN_HISTORY);
    }

    /// Record the end of an orchestrated file scan. `label` is the heuristics'
    /// verdict in words.
    pub fn complete_orchestrated_file_success(
        &mut self,
        job: &OrchestratedScanJob,
        result: &ScanResultResponse,
        label: &str,
        timing: Option<ScanTiming>,
        elapsed_ms: u64,
        finished: i64,
    ) -> (done: Completion)
        ensures
            final(self)@ == file_succeeded(
                old(self)@,
                job@,
                result@,
                label@,
                elapsed_ms,
                finished,
            ),
            row_view(done.row) == Some(
                ScanRow {
                    scan_id: job.id@,
                    scan_type: "file"@,
                    status: success_status(result@),
                    started_at: job.requested_at,
                    finished_at: Some(finished),
                    files_scanned: 1,
                    threats_found: threats_in(result@),
                    errors_count: if result.error is Some {
                        1
                    } else {
                        0
                    },
                    duration_ms: elapsed_ms,
                    bytes_scanned: result.scanned_bytes,
                    clamav_phase_us: phases(timing).0,
                    argus_phase_us: phases(timing).1,
                },
            ),
            row_view(done.row) == Some(
                file_row(
                    job.id@,
                    success_status(result@),
                    job.requested_at,
                    finished,
                    elapsed_ms,
                    result@,
                    timing,
                ),
            ),
            detection_view(done.detection) == file_detection(result@, job.path@),
            detection_view(done.detection) == if result.infected {
                Some(Detection { path: job.path@, virus_name: threat_name(result@) })
            } else {
                None
            },
            done.event@ == file_event(result@, job.path@, job.id@),
    {
        let ghost before = self@;
        let threats: u64 = if result.infected {
            1
        } else {
            0
        };
        let errors_count: u64 = match &result.error {
            Some(_) => 1,
            None => 0,
        };
        let status = match &result.error {
            Some(_) => "failed",
            None => "completed",
        };
        if let Some(live) = &mut self.scan_live {
            if same(live.id.as_str(), job.id.as_str()) {
                live.files_scanned = 1;
                live.threats_found = threats;
                live.set_status(ScanJobStatus::Completed);
            }
        }
        if let Some(active) = &mut self.active_scan {
            if same(active.id.as_str(), job.id.as_str()) {
                active.status = ScanJobStatus::Completed;
                active.finished_at = Some(finished);
                active.files_scanned = 1;
                active.threats_found = threats;
                active.current_path = String::new();
                if result.infected {
                    let mut found: Vec<Detection> = Vec::new();
                    found.push(
                        Detection { path: job.path.clone(), virus_name: name_of_threat(result) },
                    );
                    assert(detections_view(found@) =~= seq![
                        Detection { path: job.path@, virus_name: threat_name(result@) },
                    ]);
                    active.detections = found;
                }
                match &result.error {
                    Some(error) => {
                        let text = error.clone();
                        proof {
                            lemma_texts_push(active.errors@, text);
                        }
                        active.errors.push(text);
                    },
                    None => {},
                }
            }
        }
        self.counters.completed_file = self.counters.completed_file.wrapping_add(1);
        self.push_record(
            ScanRecord {
                job_id: job.id.clone(),
                scan_type: "file".to_owned(),
                started_at: job.requested_at,
                finished_at: finished,
                files_scanned: 1,
                threats_found: threats,
                status: status.to_owned(),
            },
        );
        self.trim_history();
        self.last_job = Some(
            OrchestratedJobResult {
                id: job.id.clone(),
                path: job.path.clone(),
                verdict: Some(label.to_owned()),
                status: status.to_owned(),
                duration_ms: elapsed_ms,
                error: result.error.clone(),
            },
        );
        let (clamav_phase_us, argus_phase_us): (u64, u64) = match timing {
            Some(t) => (t.clamav_us, t.argus_total_us),
            None => (0, 0),
        };
        let detection = if result.infected {
            Some(Detection { path: job.path.clone(), virus_name: name_of_threat(result) })
        } else {
            None
        };
        Completion {
            row: Some(
                ScanRow {
                    scan_id: job.id.clone(),
                    scan_type: "file".to_owned(),
                    status: status.to_owned(),
                    started_at: job.requested_at,
                    finished_at: Some(finished),
                    files_scanned: 1,
                    threats_found: threats,
                    errors_count,
                    duration_ms: elapsed_ms,
                    bytes_scanned: result.scanned_bytes,
                    clamav_phase_us,
                    argus_phase_us,
                },
            ),
            detection,
            event: describe_file(result, job.path.as_str(), job.id.as_str()),
        }
    }

    /// Record that an orchestrated file scan was cancelled.
    pub fn complete_orchestrated_file_cancelled(
        &mut self,
        job: &OrchestratedScanJob,
        elapsed_ms: u64,
        finished: i64,
    ) -> (event: ActivityEvent)
        ensures
            final(self)@ == file_cancelled(old(self)@, job@, elapsed_ms, finished),
            event@ == (ActivityEvent {
                severity: "warning"@,
                category: "scan"@,
                title: "File scan cancelled"@,
                message: job.path@,
                scan_id: Some(job.id@),
            }),
    {
        if let Some(live) = &mut self.scan_live {
            if same(live.id.as_str(), job.id.as_str()) {
                live.set_status(ScanJobStatus::Cancelled);
            }
        }
        if let Some(active) = &mut self.active_scan {
            if same(active.id.as_str(), job.id.as_str()) {
                active.status = ScanJobStatus::Cancelled;
                active.finished_at = Some(finished);
                active.current_path = String::new();
            }
        }
        self.counters.cancelled = self.counters.cancelled.wrapping_add(1);
        self.push_record(
            ScanRecord {
                job_id: job.id.clone(),
                scan_type: "file".to_owned(),
                started_at: job.requested_at,
                finished_at: finished,
                files_scanned: 0,
                threats_found: 0,
                status: "cancelled".to_owned(),
            },
        );
        self.last_job = Some(
            OrchestratedJobResult {
                id: job.id.clone(),
                path: job.path.clone(),
                verdict: None,
                status: "cancelled".to_owned(),
                duration_ms: elapsed_ms,
                error: None,
            },
        );
        ActivityEvent {
            severity: "warning".to_owned(),
            category: "scan".to_owned(),
            title: "File scan cancelled".to_owned(),
            message: job.path.clone(),
            scan_id: Some(job.id.clone()),
        }
    }

    /// Record that an orchestrated file scan failed.
    pub fn complete_orchestrated_file_failure(
        &mut self,
        id: &str,
        path: &str,
        requested_at: i64,
        error: &str,
        finished: i64,
    ) -> (done: Completion)
        ensures
            final(self)@ == file_failed(old(self)@, id@, path@, requested_at, error@, finished),
            row_view(done.row) == Some(failed_row(id@, requested_at, finished)),
            done.detection is None,
            done.event@ == (ActivityEvent {
                severity: "warning"@,
                category: "scan"@,
                title: "File scan failed"@,
                message: error@,
                scan_id: Some(id@),
            }),
    {
        if let Some(active) = &mut self.active_scan {
            if same(active.id.as_str(), id) {
                active.status = ScanJobStatus::Failed;
                active.finished_at = Some(finished);
                let text = error.to_owned();
                proof {
                    lemma_texts_push(active.errors@, text);
                }
                active.errors.push(text);
                active.current_path = String::new();
            }
        }
        self.counters.failed = self.counters.failed.wrapping_add(1);
        self.push_record(
            ScanRecord {
                job_id: id.to_owned(),
                scan_type: "file".to_owned(),
                started_at: requested_at,
                finished_at: finished,
                files_scanned: 0,
                threats_found: 0,
                status: "failed".to_owned(),
            },
        );
        self.last_job = Some(
            OrchestratedJobResult {
                id: id.to_owned(),
                path: path.to_owned(),
                verdict: None,
                status: "failed".to_owned(),
                duration_ms: duration_ms(requested_at, finished),
                error: Some(error.to_owned()),
            },
        );
        Completion {
            row: Some(
                ScanRow {
                    scan_id: id.to_owned(),
                    scan_type: "file".to_owned(),
                    status: "failed".to_owned(),
                    started_at: requested_at,
                    finished_at: Some(finished),
                    files_scanned: 0,
                    threats_found: 0,
                    errors_count: 1,
                    duration_ms: duration_ms(requested_at, finished),
                    bytes_scanned: 0,
                    clamav_phase_us: 0,
                    argus_phase_us: 0,
                },
            ),
            detection: None,
            event: ActivityEvent {
                severity: "warning".to_owned(),
                category: "scan".to_owned(),
                title: "File scan failed".to_owned(),
                message: error.to_owned(),
                scan_id: Some(id.to_owned()),
            },
        }
    }

    /// Record that an orchestrated file scan could not begin.
    pub fn complete_orchestrated_file_error(
        &mut self,
        job: &OrchestratedScanJob,
        error: &str,
        elapsed_ms: u64,
        finished: i64,
    ) -> (done: Completion)
        ensures
            final(self)@ == file_error(old(self)@, job@, error@, elapsed_ms, finished),
            row_view(done.row) == Some(failed_row(job.id@, job.requested_at, finished)),
            done.detection is None,
            done.event@ == (ActivityEvent {
                severity: "warning"@,
                category: "scan"@,
                title: "File scan failed"@,
                message: error@,
                scan_id: Some(job.id@),
            }),
    {
        let done = self.complete_orchestrated_file_failure(
            job.id.as_str(),
            job.path.as_str(),
            job.requested_at,
            error,
            finished,
        );
        if let Some(live) = &mut self.scan_live {
            if same(live.id.as_str(), job.id.as_str()) {
                live.set_status(ScanJobStatus::Failed);
            }
        }
        self.last_job = Some(
            OrchestratedJobResult {
                id: job.id.clone(),
                path: job.path.clone(),
                verdict: None,
                status: "failed".to_owned(),
                duration_ms: elapsed_ms,
                error: Some(error.to_owned()),
            },
        );
        done
    }

    /// Record a scan of one file that ran outside the queue, and answer its
    /// caller. The active scan is not touched.
    pub fn scan_single_file(
        &mut self,
        id: &str,
        target: &str,
        result: ScanResultResponse,
        timing: Option<ScanTiming>,
        started: i64,
        finished: i64,
    ) -> (done: (ScanStartResponse, Completion))
        ensures
            final(self)@ == (Board {
                history: last_items(
                    old(self)@.history.push(
                        file_record(
                            id@,
                            started,
                            finished,
                            1,
                            threats_in(result@),
                            single_status(result@),
                        ),
                    ),
                    MAX_SCAN_HISTORY as nat,
                ),
                ..old(self)@
            }),
            done.0@ == (ScanStartResponse {
                job_id: id@,
                status: single_status(result@),
                result: Some(result@),
                error: None,
            }),
            row_view(done.1.row) == Some(
                ScanRow {
                    scan_id: id@,
                    scan_type: "file"@,
                    status: single_status(result@),
                    started_at: started,
                    finished_at: Some(finished),
                    files_scanned: 1,
                    threats_found: threats_in(result@),
                    errors_count: if result.error is Some {
                        1
                    } else {
                        0
                    },
                    duration_ms: millis_between(started, finished),
                    bytes_scanned: result.scanned_bytes,
                    clamav_phase_us: phases(timing).0,
                    argus_phase_us: phases(timing).1,
                },
            ),
            row_view(done.1.row) == Some(
                file_row(
                    id@,
                    single_status(result@),
                    started,
                    finished,
                    millis_between(started, finished),
                    result@,
                    timing,
                ),
            ),
            detection_view(done.1.detection) == file_detection(result@, target@),
            detection_view(done.1.detection) == if result.infected {
                Some(Detection { path: target@, virus_name: threat_name(result@) })
            } else {
                None
            },
            done.1.event@ == file_event(result@, target@, id@),
    {
        let threats: u64 = if result.infected {
            1
        } else {
            0
        };
        let status = match &result.error {
            Some(_) => "error",
            None => if result.infected {
                "infected"
            } else {
                "clean"
            },
        };
        let errors_count: u64 = match &result.error {
            Some(_) => 1,
            None => 0,
        };
        self.push_record(
            ScanRecord {
                job_id: id.to_owned(),
                scan_type: "file".to_owned(),
                started_at: started,
                finished_at: finished,
                files_scanned: 1,
                threats_found: threats,
                status: status.to_owned(),
            },
        );
        self.trim_history();
        let (clamav_phase_us, argus_phase_us): (u64, u64) = match timing {
            Some(t) => (t.clamav_us, t.argus_total_us),
            None => (0, 0),
        };
        let detection = if result.infected {
            Some(Detection { path: target.to_owned(), virus_name: name_of_threat(&result) })
        } else {
            None
        };
        let row = ScanRow {
            scan_id: id.to_owned(),
            scan_type: "file".to_owned(),
            status: status.to_owned(),
            started_at: started,
            finished_at: Some(finished),
            files_scanned: 1,
            threats_found: threats,
            errors_count,
            duration_ms: duration_ms(started, finished),
            bytes_scanned: result.scanned_bytes,
            clamav_phase_us,
            argus_phase_us,
        };
        let event = describe_file(&result, target, id);
        let response = ScanStartResponse {
            job_id: id.to_owned(),
            status: status.to_owned(),
            result: Some(result),
            error: None,
        };
        (response, Completion { row: Some(row), detection, event })
    }

    /// Report the scan.
    pub fn scan_status(&self) -> (status: ScanStatusResponse)
        ensures
            status@ == status_of(self@),
    {
        match &self.scan_live {
            Some(live) => {
                let state = live.status_enum();
                let detections = match &self.active_scan {
                    Some(job) => duplicate_detections(&job.detections),
                    None => Vec::new(),
                };
                assert(self@.active is None ==> detections_view(detections@) =~= Seq::empty());
                ScanStatusResponse {
                    running: state == ScanJobStatus::Running || state == ScanJobStatus::Draining,
                    job_id: Some(live.id.clone()),
                    state: state.state_word(),
                    scan_type: Some(live.kind.clone()),
                    files_scanned: live.files_scanned,
                    files_total: live.files_total,
                    threats_found: live.threats_found,
                    current_path: Some(live.current_path.clone()),
                    scans_completed: self.scan_history.len() as u64,
                    detections,
                    started_at: Some(live.started_at),
                    finished_at: None,
                    errors_count: 0,
                }
            },
            None => match &self.active_scan {
                Some(job) => {
                    ScanStatusResponse {
                        running: job.status == ScanJobStatus::Running,
                        job_id: Some(job.id.clone()),
                        state: job.status.state_word(),
                        scan_type: Some(job.kind.clone()),
                        files_scanned: job.files_scanned,
                        files_total: job.files_total,
                        threats_found: job.threats_found,
                        current_path: Some(job.current_path.clone()),
                        scans_completed: self.scan_history.len() as u64,
                        detections: duplicate_detections(&job.detections),
                        started_at: Some(job.started_at),
                        finished_at: job.finished_at,
                        errors_count: job.errors.len() as u64,
                    }
                },
                None => {
                    let detections: Vec<Detection> = Vec::new();
                    assert(detections_view(detections@) =~= Seq::empty());
                    ScanStatusResponse {
                        running: false,
                        job_id: None,
                        state: "idle",
                        scan_type: None,
                        files_scanned: 0,
                        files_total: 0,
                        threats_found: 0,
                        current_path: None,
                        scans_completed: self.scan_history.len() as u64,
                        detections,
                        started_at: None,
                        finished_at: None,
                        errors_count: 0,
                    }
                },
            },
        }
    }

    /// The history, the latest scan first.
    pub fn scan_history(&self) -> (rows: Vec<ScanRow>)
        ensures
            rows_view(rows@) == history_rows(self@.history),
    {
        let n: usize = self.scan_history.len();
        let mut rows: Vec<ScanRow> = Vec::new();
        let mut i: usize = 0;
        assert(rows_view(rows@) =~= Seq::empty());
        while i < n
            invariant
                n == self.scan_history@.len(),
                i <= n,
                rows@.len() == i,
                forall|k: int|
                    0 <= k < i ==> #[trigger] rows_view(rows@)[k] == record_row(
                        self@.history[n - 1 - k],
                    ),
            decreases n - i,
        {
            let r = &self.scan_history[n - 1 - i];
            let row = ScanRow {
                scan_id: r.job_id.clone(),
                scan_type: r.scan_type.clone(),
                status: r.status.clone(),
                started_at: r.started_at,
                finished_at: Some(r.finished_at),
                files_scanned: r.files_scanned,
                threats_found: r.threats_found,
                errors_count: 0,
                duration_ms: duration_ms(r.started_at, r.finished_at),
                bytes_scanned: 0,
                clamav_phase_us: 0,
                argus_phase_us: 0,
            };
            let ghost before = rows@;
            rows.push(row);
            assert(rows_view(rows@) =~= rows_view(before).push(row@));
            assert(row@ == record_row(self@.history[n - 1 - i]));
            i = i + 1;
        }
        assert(rows_view(rows@) =~= history_rows(self@.history));
        rows
    }
}

/// The status word of a scan outside the queue.
pub open spec fn single_status(result: ScanResultResponse<Seq<char>>) -> Seq<char> {
    if result.error is Some {
        "error"@
    } else if result.infected {
        "infected"@
    } else {
        "clean"@
    }
}

/// The row that a record of the history stands for.
pub open spec fn record_row(r: ScanRecord<Seq<char>>) -> ScanRow<Seq<char>> {
    ScanRow {
        scan_id: r.job_id,
        scan_type: r.scan_type,
        status: r.status,
        started_at: r.started_at,
        finished_at: Some(r.finished_at),
        files_scanned: r.files_scanned,
        threats_found: r.threats_found,
        errors_count: 0,
        duration_ms: millis_between(r.started_at, r.finished_at),
        bytes_scanned: 0,
        clamav_phase_us: 0,
        argus_phase_us: 0,
    }
}

/// The history as rows, the latest scan first.
pub open spec fn history_rows(history: Seq<ScanRecord<Seq<char>>>) -> Seq<ScanRow<Seq<char>>> {
    Seq::new(history.len(), |i: int| record_row(history[history.len() - 1 - i]))
}

pub open spec fn rows_view(rows: Seq<ScanRow>) -> Seq<ScanRow<Seq<char>>> {
    rows.map_values(|r: ScanRow| r@)
}

/// Report of a scan.
#[derive(Debug)]
pub struct ScanStatusResponse {
    pub running: bool,
    pub job_id: Option<String>,
    pub state: &'static str,
    pub scan_type: Option<String>,
    pub files_scanned: u64,
    pub files_total: u64,
    pub threats_found: u64,
    pub current_path: Option<String>,
    pub scans_completed: u64,
    pub detections: Vec<Detection>,
    pub started_at: Option<i64>,
    pub finished_at: Option<i64>,
    pub errors_count: u64,
}

/// Mathematical value of a [`ScanStatusResponse`].
#[verifier::ext_equal]
pub struct StatusReport {
    pub running: bool,
    pub job_id: Option<Seq<char>>,
    pub state: Seq<char>,
    pub scan_type: Option<Seq<char>>,
    pub files_scanned: u64,
    pub files_total: u64,
    pub threats_found: u64,
    pub current_path: Option<Seq<char>>,
    pub scans_completed: nat,
    pub detections: Seq<Detection<Seq<char>>>,
    pub started_at: Option<i64>,
    pub finished_at: Option<i64>,
    pub errors_count: nat,
}

impl View for ScanStatusResponse {
    type V = StatusReport;

    open spec fn view(&self) -> StatusReport {
        StatusReport {
            running: self.running,
            job_id: owned_view(self.job_id),
            state: self.state@,
            scan_type: owned_view(self.scan_type),
            files_scanned: self.files_scanned,
            files_total: self.files_total,
            threats_found: self.threats_found,
            current_path: owned_view(self.current_path),
            scans_completed: self.scans_completed as nat,
            detections: detections_view(self.detections@),
            started_at: self.started_at,
            finished_at: self.finished_at,
            errors_count: self.errors_count as nat,
        }
    }
}

/// The report of a board: of the live snapshot where there is one, else of the
/// active job.
pub open spec fn status_of(b: Board) -> StatusReport {
    match b.live {
        Some(l) => StatusReport {
            running: decoded(l.status) is Running || decoded(l.status) is Draining,
            job_id: Some(l.id),
            state: state_word(decoded(l.status)),
            scan_type: Some(l.kind),
            files_scanned: l.files_scanned,
            files_total: l.files_total,
            threats_found: l.threats_found,
            current_path: Some(l.current_path),
            scans_completed: b.history.len(),
            detections: match b.active {
                Some(j) => j.detections,
                None => Seq::empty(),
            },
            started_at: Some(l.started_at),
            finished_at: None,
            errors_count: 0,
        },
        None => match b.active {
            Some(j) => StatusReport {
                running: j.status is Running,
                job_id: Some(j.id),
                state: state_word(j.status),
                scan_type: Some(j.kind),
                files_scanned: j.files_scanned,
                files_total: j.files_total,
                threats_found: j.threats_found,
                current_path: Some(j.current_path),
                scans_completed: b.history.len(),
                detections: j.detections,
                started_at: Some(j.started_at),
                finished_at: j.finished_at,
                errors_count: j.errors.len(),
            },
            None => StatusReport {
                running: false,
                job_id: None,
                state: "idle"@,
                scan_type: None,
                files_scanned: 0,
                files_total: 0,
                threats_found: 0,
                current_path: None,
                scans_completed: b.history.len(),
                detections: Seq::empty(),
                started_at: None,
                finished_at: None,
                errors_count: 0,
            },
        },
    }
}

/// While a scan is in flight, a start is refused, names the scan that holds the
/// slot, and changes nothing.
pub proof fn overlapping_start_is_refused(
    b: Board,
    start: ScanStart<Seq<char>>,
    id: Seq<char>,
    now: i64,
)
    requires
        occupied(b),
    ensures
        begun(b, start, id, now).0 == b,
        begun(b, start, id, now).1 matches Some(r) && r.job_id == b.active->0.id && r.status
            == "error"@,
{
}

/// Once the slot is free, a start takes it.
pub proof fn free_slot_is_taken(
    b: Board,
    start: ScanStart<Seq<char>>,
    id: Seq<char>,
    now: i64,
)
    requires
        !occupied(b),
    ensures
        begun(b, start, id, now).1 is None,
        occupied(begun(b, start, id, now).0),
        begun(b, start, id, now).0.active->0.id == id,
{
}

/// Every end of an orchestrated file scan frees the slot that the job holds.
pub proof fn every_end_frees_the_slot(
    b: Board,
    job: OrchestratedScanJob<Seq<char>>,
    result: ScanResultResponse<Seq<char>>,
    label: Seq<char>,
    error: Seq<char>,
    elapsed_ms: u64,
    finished: i64,
)
    requires
        b.active matches Some(j) && j.id == job.id,
    ensures
        !occupied(file_succeeded(b, job, result, label, elapsed_ms, finished)),
        !occupied(file_cancelled(b, job, elapsed_ms, finished)),
        !occupied(file_failed(b, job.id, job.path, job.requested_at, error, finished)),
        !occupied(file_error(b, job, error, elapsed_ms, finished)),
{
}

/// The end of one job leaves the entry of another as it was.
pub proof fn jobs_do_not_touch_each_other(
    b: Board,
    job: OrchestratedScanJob<Seq<char>>,
    result: ScanResultResponse<Seq<char>>,
    label: Seq<char>,
    error: Seq<char>,
    elapsed_ms: u64,
    finished: i64,
)
    requires
        b.active matches Some(j) && j.id != job.id,
    ensures
        file_succeeded(b, job, result, label, elapsed_ms, finished).active == b.active,
        file_cancelled(b, job, elapsed_ms, finished).active == b.active,
        file_error(b, job, error, elapsed_ms, finished).active == b.active,
        running(b, job.id).active == b.active,
{
}

/// A job that still waits is cancelled at once and frees the slot; a running one
/// keeps it until it has drained.
pub proof fn cancel_of_waiting_job_frees_the_slot(b: Board)
    requires
        b.live is Some,
        b.active is Some,
        b.active->0.id == b.live->0.id,
        b.active->0.status == decoded(b.live->0.status),
    ensures
        cancel(b).1,
        b.active->0.status is Pending ==> !occupied(cancel(b).0),
        b.active->0.status is Running ==> occupied(cancel(b).0),
        cancel(b).0.active->0.cancel_flag && cancel(b).0.live->0.cancel_flag,
{
}

/// The history that a file scan leaves is never longer than its limit.
pub proof fn trimmed_history_is_bounded(
    b: Board,
    job: OrchestratedScanJob<Seq<char>>,
    result: ScanResultResponse<Seq<char>>,
    label: Seq<char>,
    elapsed_ms: u64,
    finished: i64,
)
    ensures
        file_succeeded(b, job, result, label, elapsed_ms, finished).history.len()
            <= MAX_SCAN_HISTORY,
        file_succeeded(b, job, result, label, elapsed_ms, finished).history.last().job_id == job.id,
{
}

/// Each start shows itself as its own kind: the queued ones wait, show where they are
/// going, and the scan of one file counts that file.
pub proof fn starts_show_their_kind(path: Seq<char>, kind: Seq<char>, shown: Seq<char>)
    ensures
        file_start(path).kind == "file"@ && file_start(path).queued && file_start(
            path,
        ).files_total == 1 && file_start(path).job_path == path && file_start(path).live_path
            == path,
        folder_start(path).kind == "folder"@ && folder_start(path).queued && folder_start(
            path,
        ).files_total == 0 && folder_start(path).job_path == "Queued: "@ + path && folder_start(
            path,
        ).live_path == "Enumerating "@ + path + "..."@,
        quick_start().kind == "quick"@ && quick_start().queued && quick_start().files_total == 0,
        full_start().kind == "full"@ && full_start().queued && full_start().files_total == 0,
        plain_start(kind, shown).kind == kind && !plain_start(kind, shown).queued && plain_start(
            kind,
            shown,
        ).job_path == shown && plain_start(kind, shown).files_total == 0,
{
}

/// A job that is queued waits and shows itself at once; one that runs directly runs
/// at once and is shown by its worker. History, counters and the latest result are
/// left alone.
pub proof fn queued_jobs_wait(b: Board, start: ScanStart<Seq<char>>, id: Seq<char>, now: i64)
    requires
        !occupied(b),
    ensures
        ({
            let after = begun(b, start, id, now).0;
            &&& after.active matches Some(j) && j.kind == start.kind && j.started_at == now
                && j.current_path == start.job_path && j.files_total == start.files_total
            &&& start.queued ==> after.active->0.status is Pending && (after.live matches Some(l)
                && l.id == id && l.kind == start.kind && decoded(l.status) is Pending
                && l.current_path == start.live_path && l.started_at == now)
            &&& !start.queued ==> after.active->0.status is Running && after.live == b.live
            &&& after.history == b.history
            &&& after.counters == b.counters
            &&& after.last_job == b.last_job
        }),
{
}

/// A start that is refused is told the state of the scan in its way.
pub proof fn refused_start_tells_the_state(
    b: Board,
    start: ScanStart<Seq<char>>,
    id: Seq<char>,
    now: i64,
)
    requires
        occupied(b),
    ensures
        begun(b, start, id, now).1 matches Some(r) && r.error == Some(
            "Another scan is already "@ + overlap_word(b.active->0.status)
                + " — cancel it or wait"@,
        ) && r.result is None,
{
}

/// A job that starts to run is shown as running, alone and in nothing else changed.
pub proof fn running_job_is_shown(b: Board, id: Seq<char>)
    ensures
        ({
            let after = running(b, id);
            &&& b.active matches Some(j) ==> after.active == Some(
                Job {
                    status: if j.id == id {
                        ScanJobStatus::Running
                    } else {
                        j.status
                    },
                    ..j
                },
            )
            &&& b.active is None ==> after.active is None
            &&& b.live matches Some(l) ==> (after.live matches Some(m) && m == (ScanLiveState {
                status: m.status,
                ..l
            }) && (l.id == id ==> decoded(m.status) is Running) && (l.id != id ==> m.status
                == l.status))
            &&& b.live is None ==> after.live is None
            &&& after.history == b.history
            &&& after.counters == b.counters
            &&& after.last_job == b.last_job
        }),
{
}

/// The end of a file scan is recorded once, with the times, the threat and the error
/// that it had, and counts as completed also where an engine failed.
pub proof fn finished_file_is_recorded(
    b: Board,
    job: OrchestratedScanJob<Seq<char>>,
    result: ScanResultResponse<Seq<char>>,
    label: Seq<char>,
    elapsed_ms: u64,
    finished: i64,
)
    requires
        b.counters.completed_file < u64::MAX,
    ensures
        ({
            let after = file_succeeded(b, job, result, label, elapsed_ms, finished);
            let record = after.history.last();
            &&& record.job_id == job.id
            &&& record.scan_type == "file"@
            &&& record.started_at == job.requested_at
            &&& record.finished_at == finished
            &&& record.files_scanned == 1
            &&& record.threats_found == if result.infected {
                1int
            } else {
                0
            }
            &&& result.error is Some ==> record.status == "failed"@
            &&& result.error is None ==> record.status == "completed"@
            &&& after.counters == (JobCounters {
                completed_file: (b.counters.completed_file + 1) as u64,
                ..b.counters
            })
            &&& after.last_job matches Some(r) && r.id == job.id && r.path == job.path
                && r.verdict == Some(label) && r.status == record.status && r.duration_ms
                == elapsed_ms && r.error == result.error
            &&& (b.active matches Some(j) && j.id == job.id) ==> {
                let done = after.active->0;
                &&& done.status is Completed
                &&& done.finished_at == Some(finished)
                &&& done.files_scanned == 1
                &&& result.infected ==> done.threats_found == 1 && done.detections == seq![
                    Detection {
                        path: job.path,
                        virus_name: match result.virus_name {
                            Some(name) => name,
                            None => "Unknown"@,
                        },
                    },
                ]
                &&& !result.infected ==> done.threats_found == 0 && done.detections
                    == b.active->0.detections
                &&& result.error matches Some(e) ==> done.errors == b.active->0.errors.push(e)
                &&& result.error is None ==> done.errors == b.active->0.errors
            }
            &&& (b.live matches Some(l) && l.id == job.id) ==> after.live->0.files_scanned == 1
                && after.live->0.threats_found == record.threats_found && decoded(
                after.live->0.status,
            ) is Completed
            &&& (b.live matches Some(l) && l.id != job.id) ==> after.live == b.live
        }),
{
}

/// A file scan that was cancelled or failed is recorded as that, with no file and no
/// threat, and counts once as that.
pub proof fn unfinished_file_is_recorded(
    b: Board,
    job: OrchestratedScanJob<Seq<char>>,
    error: Seq<char>,
    elapsed_ms: u64,
    finished: i64,
)
    requires
        b.counters.cancelled < u64::MAX,
        b.counters.failed < u64::MAX,
    ensures
        ({
            let stopped = file_cancelled(b, job, elapsed_ms, finished);
            let failed = file_error(b, job, error, elapsed_ms, finished);
            &&& stopped.history.len() == b.history.len() + 1
            &&& failed.history.len() == b.history.len() + 1
            &&& stopped.history.drop_last() == b.history
            &&& failed.history.drop_last() == b.history
            &&& stopped.history.last().status == "cancelled"@
            &&& failed.history.last().status == "failed"@
            &&& stopped.history.last() == (ScanRecord {
                status: "cancelled"@,
                ..failed.history.last()
            })
            &&& failed.history.last().job_id == job.id
            &&& failed.history.last().scan_type == "file"@
            &&& failed.history.last().started_at == job.requested_at
            &&& failed.history.last().finished_at == finished
            &&& failed.history.last().files_scanned == 0
            &&& failed.history.last().threats_found == 0
            &&& stopped.counters == (JobCounters {
                cancelled: (b.counters.cancelled + 1) as u64,
                ..b.counters
            })
            &&& failed.counters == (JobCounters {
                failed: (b.counters.failed + 1) as u64,
                ..b.counters
            })
            &&& stopped.last_job matches Some(r) && r.id == job.id && r.path == job.path
                && r.verdict is None && r.status == "cancelled"@ && r.duration_ms == elapsed_ms
                && r.error is None
            &&& failed.last_job matches Some(r) && r.id == job.id && r.path == job.path
                && r.verdict is None && r.status == "failed"@ && r.duration_ms == elapsed_ms
                && r.error == Some(error)
            &&& (b.active matches Some(j) && j.id == job.id) ==> stopped.active->0.status
                is Cancelled && failed.active->0.status is Failed && failed.active->0.errors
                == b.active->0.errors.push(error) && stopped.active->0.errors
                == b.active->0.errors && failed.active->0.finished_at == Some(finished)
                && stopped.active->0.finished_at == Some(finished)
            &&& (b.live matches Some(l) && l.id == job.id) ==> decoded(stopped.live->0.status)
                is Cancelled && decoded(failed.live->0.status) is Failed
        }),
{
    assert(file_cancelled(b, job, elapsed_ms, finished).history.drop_last() =~= b.history);
    assert(file_error(b, job, error, elapsed_ms, finished).history.drop_last() =~= b.history);
}

/// An infected file is logged as critical under the name of its threat, every other
/// file as information.
pub proof fn infected_files_are_critical(
    result: ScanResultResponse<Seq<char>>,
    path: Seq<char>,
    id: Seq<char>,
)
    ensures
        ({
            let e = file_event(result, path, id);
            &&& result.infected ==> e.severity == "critical"@
            &&& result.infected && result.virus_name is Some ==> e.title == "Threat: "@
                + result.virus_name->0
            &&& result.infected && result.virus_name is None ==> e.title == "Threat: "@
                + "Unknown"@
            &&& !result.infected ==> e.severity == "info"@ && e.title == "File scan: clean"@
            &&& e.category == "scan"@
            &&& e.message == path
            &&& e.scan_id == Some(id)
        }),
{
}

/// A scan outside the queue tells an error before a threat, and a threat before a
/// clean file.
pub proof fn single_scan_tells_errors_first(result: ScanResultResponse<Seq<char>>)
    ensures
        result.error is Some ==> single_status(result) == "error"@,
        result.error is None && result.infected ==> single_status(result) == "infected"@,
        result.error is None && !result.infected ==> single_status(result) == "clean"@,
{
}

/// A cancel request marks the scan that is shown and the job behind it, and touches
/// no other job and no record; without a scan there is nothing to cancel.
pub proof fn cancel_marks_the_scan(b: Board)
    ensures
        ({
            let (after, done) = cancel(b);
            &&& done <==> b.live is Some || (b.active matches Some(j) && (j.status is Running
                || j.status is Pending))
            &&& !done ==> after == b
            &&& b.live matches Some(l) ==> (after.live matches Some(m) && m.cancel_flag
                && m.files_scanned == l.files_scanned && m.threats_found == l.threats_found
                && m.id == l.id && (decoded(l.status) is Pending ==> decoded(m.status)
                is Cancelled) && (decoded(l.status) is Running ==> decoded(m.status) is Draining))
            &&& (b.live matches Some(l) && b.active is Some && b.active->0.id == l.id)
                ==> after.active->0.cancel_flag && after.active->0.status == decoded(
                after.live->0.status,
            )
            &&& (b.live matches Some(l) && b.active is Some && b.active->0.id != l.id)
                ==> after.active == b.active
            &&& (b.live is None && (b.active matches Some(j) && j.status is Running))
                ==> after.active->0.cancel_flag && after.active->0.status is Draining
            &&& (b.live is None && (b.active matches Some(j) && j.status is Pending))
                ==> after.active->0.cancel_flag && after.active->0.status is Cancelled
            &&& after.history == b.history
            &&& after.counters == b.counters
            &&& after.last_job == b.last_job
        }),
{
}

/// The report on a scan is that of its snapshot where there is one, else of the job
/// that was last active, and of nothing where there was none.
pub proof fn report_is_of_the_latest_scan(b: Board)
    ensures
        ({
            let r = status_of(b);
            &&& b.live matches Some(l) ==> {
                &&& r.job_id == Some(l.id)
                &&& r.scan_type == Some(l.kind)
                &&& r.running <==> (decoded(l.status) is Running || decoded(l.status) is Draining)
                &&& r.state == state_word(decoded(l.status))
                &&& r.files_scanned == l.files_scanned
                &&& r.files_total == l.files_total
                &&& r.threats_found == l.threats_found
                &&& r.current_path == Some(l.current_path)
                &&& r.started_at == Some(l.started_at)
            }
            &&& (b.live is None && b.active is Some) ==> {
                let j = b.active->0;
                &&& r.job_id == Some(j.id)
                &&& r.scan_type == Some(j.kind)
                &&& r.running <==> j.status is Running
                &&& r.state == state_word(j.status)
                &&& r.files_scanned == j.files_scanned
                &&& r.files_total == j.files_total
                &&& r.threats_found == j.threats_found
                &&& r.current_path == Some(j.current_path)
                &&& r.started_at == Some(j.started_at)
                &&& r.finished_at == j.finished_at
                &&& r.errors_count == j.errors.len()
            }
            &&& b.active matches Some(j) ==> r.detections == j.detections
            &&& (b.live is None && b.active is None) ==> !r.running && r.state == "idle"@
                && r.job_id is None && r.files_scanned == 0 && r.threats_found == 0
                && r.detections.len() == 0
            &&& r.scans_completed == b.history.len()
        }),
{
}

/// The history is told with the latest scan first, each as it was recorded.
pub proof fn history_is_told_backwards(history: Seq<ScanRecord<Seq<char>>>, i: int)
    ensures
        history_rows(history).len() == history.len(),
        0 <= i < history.len() ==> {
            let row = history_rows(history)[history.len() - 1 - i];
            let r = history[i];
            &&& row.scan_id == r.job_id
            &&& row.scan_type == r.scan_type
            &&& row.status == r.status
            &&& row.started_at == r.started_at
            &&& row.finished_at == Some(r.finished_at)
            &&& row.files_scanned == r.files_scanned
            &&& row.threats_found == r.threats_found
            &&& row.duration_ms == millis_between(r.started_at, r.finished_at)
        },
{
}

/// A board that is new has seen no scan.
pub proof fn new_board_is_blank()
    ensures
        !occupied(empty_board()),
        empty_board().live is None,
        empty_board().history.len() == 0,
        empty_board().last_job is None,
        empty_board().counters.completed_file == 0 && empty_board().counters.completed_folder == 0
            && empty_board().counters.completed_quick == 0
            && empty_board().counters.completed_full == 0,
        empty_board().counters.cancelled == 0 && empty_board().counters.failed == 0,
{
}

/// A failed file scan leaves a row of its own: one error, no file and no threat.
pub proof fn failed_scan_leaves_a_row(id: Seq<char>, requested_at: i64, finished: i64)
    ensures
        ({
            let row = failed_row(id, requested_at, finished);
            &&& row.scan_id == id && row.scan_type == "file"@ && row.status == "failed"@
            &&& row.started_at == requested_at && row.finished_at == Some(finished)
            &&& row.files_scanned == 0 && row.threats_found == 0 && row.errors_count == 1
            &&& row.duration_ms == millis_between(requested_at, finished)
        }),
{
}

/// The history that a file scan leaves is cut to the latest two hundred.
pub proof fn history_keeps_two_hundred(
    b: Board,
    job: OrchestratedScanJob<Seq<char>>,
    result: ScanResultResponse<Seq<char>>,
    label: Seq<char>,
    elapsed_ms: u64,
    finished: i64,
)
    ensures
        file_succeeded(b, job, result, label, elapsed_ms, finished).history.len() == if b.history.len()
            < 200 {
            b.history.len() + 1
        } else {
            200
        },
{
}

/// A file that is infected leaves a detection with its path, and a clean one none.
pub proof fn infected_files_are_detected(
    result: ScanResultResponse<Seq<char>>,
    path: Seq<char>,
)
    ensures
        file_detection(result, path) is Some <==> result.infected,
        file_detection(result, path) matches Some(d) ==> d.path == path,
        result.infected ==> (match result.virus_name {
            Some(name) => file_detection(result, path)->0.virus_name == name,
            None => file_detection(result, path)->0.virus_name == "Unknown"@,
        }),
{
}

/// The row on a file tells one file, its threat, its error, and the time of each engine
/// as it was measured.
pub proof fn row_tells_of_one_file(
    id: Seq<char>,
    status: Seq<char>,
    started: i64,
    finished: i64,
    duration_ms: u64,
    result: ScanResultResponse<Seq<char>>,
    timing: Option<ScanTiming>,
)
    ensures
        ({
            let row = file_row(id, status, started, finished, duration_ms, result, timing);
            &&& row.scan_id == id && row.scan_type == "file"@ && row.status == status
            &&& row.started_at == started && row.finished_at == Some(finished)
            &&& row.files_scanned == 1 && row.duration_ms == duration_ms
            &&& result.infected ==> row.threats_found == 1
            &&& !result.infected ==> row.threats_found == 0
            &&& result.error is Some <==> row.errors_count == 1
            &&& result.error is None <==> row.errors_count == 0
            &&& row.bytes_scanned == result.scanned_bytes
            &&& timing matches Some(t) ==> row.clamav_phase_us == t.clamav_us
                && row.argus_phase_us == t.argus_total_us
            &&& timing is None ==> row.clamav_phase_us == 0 && row.argus_phase_us == 0
        }),
{
}

/// A scan outside the queue tells its error first, else whether the file is infected.
pub proof fn single_scan_tells_its_result(result: ScanResultResponse<Seq<char>>)
    ensures
        result.error is Some ==> single_status(result) == "error"@,
        result.error is None && result.infected ==> single_status(result) == "infected"@,
        result.error is None && !result.infected ==> single_status(result) == "clean"@,
{
}

} // verus!
