//! Start of a scan: which kind it is, whether it may start, and what is said.

use super::board::{
    begun, direct_start, file_start, folder_start, full_start, plain_start, queued_file_start,
    queued_folder_start, queued_full_start, queued_quick_start, quick_start, Board, ScanBoard,
    ScanStart,
};
use super::job::{
    start_error, ActivityEvent, OrchestratedScanJob, QueueKind, ScanResultResponse,
    ScanStartResponse,
};
use super::verdict::{unify_detection_filtered, united, ArgusVerdict};
use super::worker::ClamResult;
use crate::activity::ActivityEntry;
use crate::text::{owned_view, same, text_view, texts, trim, trimmed};
use vstd::prelude::*;

verus! {

/// Which scans go through the queue.
#[derive(Debug, Clone, Copy, PartialEq, Eq, Structural)]
pub struct QueueFlags {
    pub file: bool,
    pub folder: bool,
    pub quick: bool,
    pub full: bool,
}

/// How a scan is run.
#[derive(Debug, Clone, Copy, PartialEq, Eq, Structural)]
pub enum ScanRoute {
    QueuedFile,
    SingleFile,
    QueuedQuick,
    Quick,
    QueuedFolder,
    Folder,
    QueuedFull,
    Full,
    Startup,
    Unknown,
}

pub open spec fn route_of(scan_type: Seq<char>, flags: QueueFlags) -> ScanRoute {
    if scan_type == "file"@ {
        if flags.file {
            ScanRoute::QueuedFile
        } else {
            ScanRoute::SingleFile
        }
    } else if scan_type == "quick"@ {
        if flags.quick {
            ScanRoute::QueuedQuick
        } else {
            ScanRoute::Quick
        }
    } else if scan_type == "folder"@ {
        if flags.folder {
            ScanRoute::QueuedFolder
        } else {
            ScanRoute::Folder
        }
    } else if scan_type == "full"@ {
        if flags.full {
            ScanRoute::QueuedFull
        } else {
            ScanRoute::Full
        }
    } else if scan_type == "startup"@ {
        ScanRoute::Startup
    } else {
        ScanRoute::Unknown
    }
}

pub fn route_scan(scan_type: &str, flags: QueueFlags) -> (route: ScanRoute)
    ensures
        route == route_of(scan_type@, flags),
{
    if same(scan_type, "file") {
        if flags.file {
            ScanRoute::QueuedFile
        } else {
            ScanRoute::SingleFile
        }
    } else if same(scan_type, "quick") {
        if flags.quick {
            ScanRoute::QueuedQuick
        } else {
            ScanRoute::Quick
        }
    } else if same(scan_type, "folder") {
        if flags.folder {
            ScanRoute::QueuedFolder
        } else {
            ScanRoute::Folder
        }
    } else if same(scan_type, "full") {
        if flags.full {
            ScanRoute::QueuedFull
        } else {
            ScanRoute::Full
        }
    } else if same(scan_type, "startup") {
        ScanRoute::Startup
    } else {
        ScanRoute::Unknown
    }
}

/// The answer while there is no engine.
pub fn engine_missing(id: &str, last_error: Option<&str>) -> (response: ScanStartResponse)
    ensures
        response@ == start_error(
            id@,
            "Engine not available: "@ + match text_view(last_error) {
                Some(e) => e,
                None => "No engine"@,
            },
        ),
{
    let mut error = "Engine not available: ".to_owned();
    match last_error {
        Some(e) => error.append(e),
        None => error.append("No engine"),
    }
    ScanStartResponse::failed(id, error)
}

/// The answer to a scan type that does not exist.
pub fn unknown_scan_type(id: &str, scan_type: &str) -> (response: ScanStartResponse)
    ensures
        response@ == start_error(id@, "Unknown scan type: "@ + scan_type@),
{
    let mut error = "Unknown scan type: ".to_owned();
    error.append(scan_type);
    ScanStartResponse::failed(id, error)
}

/// Whether a target names something.
pub open spec fn names_something(target: Option<Seq<char>>) -> bool {
    target matches Some(t) && trimmed(t).len() > 0
}

/// The board after a start that nothing speaks against, and the refusal it met:
/// another scan may hold the slot.
pub open spec fn started<R>(
    before: Board,
    after: Board,
    start: ScanStart<Seq<char>>,
    id: Seq<char>,
    now: i64,
    answer: Result<R, ScanStartResponse>,
) -> bool {
    match answer {
        Ok(_) => begun(before, start, id, now) == (after, None::<ScanStartResponse<Seq<char>>>),
        Err(response) => begun(before, start, id, now) == (after, Some(response@)),
    }
}

/// Whether a start is refused with `error` before it comes to the board.
pub open spec fn refused<R>(
    before: Board,
    after: Board,
    id: Seq<char>,
    error: Seq<char>,
    answer: Result<R, ScanStartResponse>,
) -> bool {
    after == before && (answer matches Err(response) && response@ == start_error(id, error))
}

/// Start a queued scan of one file.
pub fn start_orchestrated_file_scan(
    board: &mut ScanBoard,
    id: &str,
    now: i64,
    target: Option<&str>,
) -> (answer: Result<OrchestratedScanJob, ScanStartResponse>)
    ensures
        if names_something(text_view(target)) {
            &&& started(old(board)@, final(board)@, file_start(target->0@), id@, now, answer)
            &&& answer matches Ok(job) ==> job@ == (OrchestratedScanJob {
                id: id@,
                queue_kind: QueueKind::Manual,
                path: target->0@,
                requested_at: now,
            })
        } else {
            refused(old(board)@, final(board)@, id@, "No target path specified"@, answer)
        },
{
    let path: &str = match target {
        Some(p) => {
            let inner = trim(p);
            if inner.as_str().is_empty() {
                return Err(
                    ScanStartResponse::failed(id, "No target path specified".to_owned()),
                );
            }
            p
        },
        None => {
            return Err(ScanStartResponse::failed(id, "No target path specified".to_owned()));
        },
    };
    let start = queued_file_start(path);
    match board.begin(&start, id, now) {
        Ok(()) => Ok(
            OrchestratedScanJob {
                id: id.to_owned(),
                queue_kind: QueueKind::Manual,
                path: path.to_owned(),
                requested_at: now,
            },
        ),
        Err(response) => Err(response),
    }
}

/// The event of a scan that was accepted.
pub open spec fn start_event(title: Seq<char>, message: Seq<char>) -> ActivityEvent<Seq<char>> {
    ActivityEvent { severity: "info"@, category: "scan"@, title, message, scan_id: None }
}

/// Why a folder cannot be scanned. `missing` is said where none is given.
pub open spec fn folder_error(target: Option<Seq<char>>, is_dir: bool, missing: Seq<char>) -> Option<
    Seq<char>,
> {
    match target {
        Some(p) => if is_dir {
            None
        } else {
            Some("Not a directory: "@ + p)
        },
        None => Some(missing),
    }
}

fn check_folder(target: Option<&str>, is_dir: bool, missing: &str) -> (error: Option<String>)
    ensures
        owned_view(error) == folder_error(text_view(target), is_dir, missing@),
{
    match target {
        Some(p) => if is_dir {
            None
        } else {
            let mut error = "Not a directory: ".to_owned();
            error.append(p);
            Some(error)
        },
        None => Some(missing.to_owned()),
    }
}

/// Start a queued scan of one folder. `is_dir` tells whether the target is a
/// directory.
pub fn start_orchestrated_folder_scan(
    board: &mut ScanBoard,
    id: &str,
    now: i64,
    target: Option<&str>,
    is_dir: bool,
) -> (answer: Result<ActivityEvent, ScanStartResponse>)
    ensures
        match folder_error(text_view(target), is_dir, "No target directory specified"@) {
            Some(error) => refused(old(board)@, final(board)@, id@, error, answer),
            None => {
                &&& started(old(board)@, final(board)@, folder_start(target->0@), id@, now, answer)
                &&& answer matches Ok(event) ==> event@ == start_event(
                    "Folder scan queued: "@ + target->0@,
                    target->0@,
                )
            },
        },
{
    match check_folder(target, is_dir, "No target directory specified") {
        Some(error) => {
            return Err(ScanStartResponse::failed(id, error));
        },
        None => {},
    }
    let folder: &str = target.unwrap();
    let start = queued_folder_start(folder);
    match board.begin(&start, id, now) {
        Ok(()) => {
            let mut title = "Folder scan queued: ".to_owned();
            title.append(folder);
            Ok(ActivityEvent::general("info", "scan", title, folder))
        },
        Err(response) => Err(response),
    }
}

/// Start a queued scan of the usual places. `found` tells whether any of them
/// exists.
pub fn start_orchestrated_quick_scan(board: &mut ScanBoard, id: &str, now: i64, found: bool) -> (answer:
    Result<ActivityEvent, ScanStartResponse>)
    ensures
        if found {
            &&& started(old(board)@, final(board)@, quick_start(), id@, now, answer)
            &&& answer matches Ok(event) ==> event@ == start_event(
                "Quick scan queued (orchestrated)"@,
                ""@,
            )
        } else {
            refused(old(board)@, final(board)@, id@, "No quick scan directories found"@, answer)
        },
{
    if !found {
        return Err(ScanStartResponse::failed(id, "No quick scan directories found".to_owned()));
    }
    let start = queued_quick_start();
    match board.begin(&start, id, now) {
        Ok(()) => Ok(
            ActivityEvent::general(
                "info",
                "scan",
                "Quick scan queued (orchestrated)".to_owned(),
                "",
            ),
        ),
        Err(response) => Err(response),
    }
}

/// Start a queued scan of all drives.
pub fn start_orchestrated_full_scan(board: &mut ScanBoard, id: &str, now: i64) -> (answer: Result<
    ActivityEvent,
    ScanStartResponse,
>)
    ensures
        started(old(board)@, final(board)@, full_start(), id@, now, answer),
        answer matches Ok(event) ==> event@ == start_event(
            "Full disk scan queued (orchestrated)"@,
            ""@,
        ),
{
    let start = queued_full_start();
    match board.begin(&start, id, now) {
        Ok(()) => Ok(
            ActivityEvent::general(
                "info",
                "scan",
                "Full disk scan queued (orchestrated)".to_owned(),
                "",
            ),
        ),
        Err(response) => Err(response),
    }
}

/// Start a scan of one folder outside the queue.
pub fn start_folder_scan(
    board: &mut ScanBoard,
    id: &str,
    now: i64,
    target: Option<&str>,
    is_dir: bool,
) -> (answer: Result<ActivityEvent, ScanStartResponse>)
    ensures
        match folder_error(text_view(target), is_dir, "No folder path specified"@) {
            Some(error) => refused(old(board)@, final(board)@, id@, error, answer),
            None => {
                &&& started(
                    old(board)@,
                    final(board)@,
                    plain_start("folder"@, "Starting..."@),
                    id@,
                    now,
                    answer,
                )
                &&& answer matches Ok(event) ==> event@ == start_event(
                    "Folder scan started: "@ + target->0@,
                    target->0@,
                )
            },
        },
{
    match check_folder(target, is_dir, "No folder path specified") {
        Some(error) => {
            return Err(ScanStartResponse::failed(id, error));
        },
        None => {},
    }
    let folder: &str = target.unwrap();
    let start = direct_start("folder", "Starting...");
    match board.begin(&start, id, now) {
        Ok(()) => {
            let mut title = "Folder scan started: ".to_owned();
            title.append(folder);
            Ok(ActivityEvent::general("info", "scan", title, folder))
        },
        Err(response) => Err(response),
    }
}

/// The entry of a scan that starts outside the queue.
pub open spec fn start_entry(message: Seq<char>, detail: Seq<char>, now: i64) -> ActivityEntry<
    Seq<char>,
> {
    ActivityEntry {
        event_type: "scan_start"@,
        message,
        detail: Some(detail),
        timestamp: now,
    }
}

/// Start a scan of the usual places outside the queue.
pub fn start_quick_scan(board: &mut ScanBoard, id: &str, now: i64) -> (answer: Result<
    ActivityEntry,
    ScanStartResponse,
>)
    ensures
        started(
            old(board)@,
            final(board)@,
            plain_start("quick"@, "Starting..."@),
            id@,
            now,
            answer,
        ),
        answer matches Ok(entry) ==> entry@ == start_entry(
            "Quick scan started"@,
            "Scanning Downloads, Desktop, Temp"@,
            now,
        ),
{
    let start = direct_start("quick", "Starting...");
    match board.begin(&start, id, now) {
        Ok(()) => Ok(
            ActivityEntry::new(
                "scan_start",
                "Quick scan started".to_owned(),
                Some("Scanning Downloads, Desktop, Temp"),
                now,
            ),
        ),
        Err(response) => Err(response),
    }
}

/// Start a scan of all drives outside the queue.
pub fn start_full_scan(board: &mut ScanBoard, id: &str, now: i64) -> (answer: Result<
    ActivityEntry,
    ScanStartResponse,
>)
    ensures
        started(
            old(board)@,
            final(board)@,
            plain_start("full"@, "Enumerating drives..."@),
            id@,
            now,
            answer,
        ),
        answer matches Ok(entry) ==> entry@ == start_entry(
            "Full disk scan started"@,
            "Scanning all fixed drives"@,
            now,
        ),
{
    let start = direct_start("full", "Enumerating drives...");
    match board.begin(&start, id, now) {
        Ok(()) => Ok(
            ActivityEntry::new(
                "scan_start",
                "Full disk scan started".to_owned(),
                Some("Scanning all fixed drives"),
                now,
            ),
        ),
        Err(response) => Err(response),
    }
}

/// Start a scan of autorun entries and recent executables.
pub fn start_startup_scan(board: &mut ScanBoard, id: &str, now: i64) -> (answer: Result<
    ActivityEntry,
    ScanStartResponse,
>)
    ensures
        started(
            old(board)@,
            final(board)@,
            plain_start("startup"@, "Collecting startup targets..."@),
            id@,
            now,
            answer,
        ),
        answer matches Ok(entry) ==> entry@ == start_entry(
            "Startup scan started"@,
            "Scanning autorun entries + recent executables"@,
            now,
        ),
{
    let start = direct_start("startup", "Collecting startup targets...");
    match board.begin(&start, id, now) {
        Ok(()) => Ok(
            ActivityEntry::new(
                "scan_start",
                "Startup scan started".to_owned(),
                Some("Scanning autorun entries + recent executables"),
                now,
            ),
        ),
        Err(response) => Err(response),
    }
}

/// What to do with a queued file scan whose turn has come.
#[derive(Debug, Clone, Copy, PartialEq, Eq, Structural)]
pub enum FileGate {
    Cancelled,
    NotFound,
    Excluded,
    Scan,
}

/// What becomes of a queued file scan whose turn has come.
pub open spec fn gate_of(cancelled: bool, exists_on_disk: bool, excluded: bool) -> FileGate {
    if cancelled {
        FileGate::Cancelled
    } else if !exists_on_disk {
        FileGate::NotFound
    } else if excluded {
        FileGate::Excluded
    } else {
        FileGate::Scan
    }
}

/// Judge a queued file scan before the engines run.
pub fn file_gate(cancelled: bool, exists_on_disk: bool, excluded: bool) -> (gate: FileGate)
    ensures
        gate == gate_of(cancelled, exists_on_disk, excluded),
        gate == if cancelled {
            FileGate::Cancelled
        } else if !exists_on_disk {
            FileGate::NotFound
        } else if excluded {
            FileGate::Excluded
        } else {
            FileGate::Scan
        },
{
    if cancelled {
        FileGate::Cancelled
    } else if !exists_on_disk {
        FileGate::NotFound
    } else if excluded {
        FileGate::Excluded
    } else {
        FileGate::Scan
    }
}

/// The error of a file that is not scanned.
pub open spec fn error_of_gate(gate: FileGate) -> Option<Seq<char>> {
    match gate {
        FileGate::NotFound => Some("File not found"@),
        FileGate::Excluded => Some("Path excluded by configuration"@),
        _ => None,
    }
}

pub fn gate_error(gate: FileGate) -> (error: Option<&'static str>)
    ensures
        text_view(error) == error_of_gate(gate),
        text_view(error) == match gate {
            FileGate::NotFound => Some("File not found"@),
            FileGate::Excluded => Some("Path excluded by configuration"@),
            _ => None,
        },
{
    match gate {
        FileGate::NotFound => Some("File not found"),
        FileGate::Excluded => Some("Path excluded by configuration"),
        _ => None,
    }
}

/// The result for a file that the engines do not look at.
pub fn unscanned_result(path: &str, error: &str) -> (result: ScanResultResponse)
    ensures
        result@ == (ScanResultResponse {
            path: path@,
            infected: false,
            virus_name: None,
            scanned_bytes: 0,
            error: Some(error@),
        }),
{
    ScanResultResponse {
        path: path.to_owned(),
        infected: false,
        virus_name: None,
        scanned_bytes: 0,
        error: Some(error.to_owned()),
    }
}

/// The result for a file that both engines have looked at: one file, one
/// detection.
pub open spec fn result_of(
    path: Seq<char>,
    scanned_bytes: u64,
    clamav: ClamResult,
    argus: ArgusVerdict,
    exclusions: Seq<String>,
) -> ScanResultResponse<Seq<char>> {
    let name = united(clamav.infected, owned_view(clamav.virus_name), argus, exclusions);
    ScanResultResponse {
        path,
        infected: name is Some,
        virus_name: name,
        scanned_bytes,
        error: owned_view(clamav.error),
    }
}

pub fn united_result(
    path: &str,
    scanned_bytes: u64,
    clamav: &ClamResult,
    argus: &ArgusVerdict,
    exclusions: &[String],
) -> (result: ScanResultResponse)
    ensures
        result@ == result_of(path@, scanned_bytes, *clamav, *argus, exclusions@),
        ({
            let name = united(
                clamav.infected,
                owned_view(clamav.virus_name),
                *argus,
                exclusions@,
            );
            result@ == (ScanResultResponse {
                path: path@,
                infected: name is Some,
                virus_name: name,
                scanned_bytes,
                error: owned_view(clamav.error),
            })
        }),
{
    let clamav_name: Option<&str> = match &clamav.virus_name {
        Some(name) => Some(name.as_str()),
        None => None,
    };
    let (infected, virus_name) = unify_detection_filtered(
        clamav.infected,
        clamav_name,
        argus,
        exclusions,
    );
    let error = match &clamav.error {
        Some(e) => Some(e.clone()),
        None => None,
    };
    ScanResultResponse { path: path.to_owned(), infected, virus_name, scanned_bytes, error }
}

/// The places that a quick scan looks at.
pub open spec fn usual_places(home: Seq<char>, temp: Option<Seq<char>>) -> Seq<Seq<char>> {
    seq![
        home + "\\Downloads"@,
        home + "\\Desktop"@,
        match temp {
            Some(t) => t,
            None => home + "\\AppData\\Local\\Temp"@,
        },
    ]
}

pub fn quick_targets(home: &str, temp: Option<&str>) -> (places: Vec<String>)
    ensures
        texts(places@) == usual_places(home@, text_view(temp)),
{
    let mut downloads = home.to_owned();
    downloads.append("\\Downloads");
    let mut desktop = home.to_owned();
    desktop.append("\\Desktop");
    let temp_dir = match temp {
        Some(t) => t.to_owned(),
        None => {
            let mut t = home.to_owned();
            t.append("\\AppData\\Local\\Temp");
            t
        },
    };
    let mut places: Vec<String> = Vec::new();
    places.push(downloads);
    places.push(desktop);
    places.push(temp_dir);
    assert(texts(places@) =~= usual_places(home@, text_view(temp)));
    places
}

/// Depth to which a scan descends.
pub open spec fn depth_of(scan_type: Seq<char>) -> u32 {
    if scan_type == "quick"@ || scan_type == "startup"@ {
        3u32
    } else {
        10u32
    }
}

pub fn max_depth(scan_type: &str) -> (depth: u32)
    ensures
        depth == depth_of(scan_type@),
        depth == if scan_type@ == "quick"@ || scan_type@ == "startup"@ {
            3u32
        } else {
            10u32
        },
{
    if same(scan_type, "quick") || same(scan_type, "startup") {
        3
    } else {
        10
    }
}

/// Largest file that is scanned where nothing is configured.
pub const DEFAULT_MAX_FILE_SIZE: u64 = 536_870_912;

/// Largest file that is scanned, from the configured size in megabytes.
pub open spec fn size_limit(configured_mb: Option<u64>) -> int {
    match configured_mb {
        Some(mb) => mb * 1_048_576,
        None => DEFAULT_MAX_FILE_SIZE as int,
    }
}

pub fn max_file_size(configured_mb: Option<u64>) -> (bytes: u64)
    requires
        configured_mb matches Some(mb) ==> mb * 1_048_576 <= u64::MAX,
    ensures
        bytes == size_limit(configured_mb),
        bytes == match configured_mb {
            Some(mb) => mb * 1_048_576,
            None => DEFAULT_MAX_FILE_SIZE as int,
        },
{
    match configured_mb {
        Some(mb) => mb * 1024 * 1024,
        None => DEFAULT_MAX_FILE_SIZE,
    }
}

/// Parallel scan threads: half the logical cores, between two and eight; four
/// where the number of cores is unknown.
pub open spec fn threads_for(cores: Option<usize>) -> int {
    match cores {
        Some(n) => if n / 2 < 2 {
            2
        } else if n / 2 > 8 {
            8
        } else {
            n as int / 2
        },
        None => 4,
    }
}

pub fn scan_threads(cores: Option<usize>) -> (threads: usize)
    ensures
        threads == threads_for(cores),
        2 <= threads <= 8,
        cores is None ==> threads == 4,
        cores matches Some(n) ==> threads == if n / 2 < 2 {
            2
        } else if n / 2 > 8 {
            8
        } else {
            n / 2
        },
{
    match cores {
        Some(n) => {
            let half: usize = n / 2;
            if half < 2 {
                2
            } else if half > 8 {
                8
            } else {
                half
            }
        },
        None => 4,
    }
}

/// Each type of scan is run as what it is, through the queue where that is switched
/// on for the type, and an unknown type is not run.
pub proof fn scans_are_routed_by_their_type(scan_type: Seq<char>, flags: QueueFlags)
    ensures
        ({
            let route = route_of(scan_type, flags);
            &&& scan_type == "file"@ <==> (route is QueuedFile || route is SingleFile)
            &&& scan_type == "quick"@ <==> (route is QueuedQuick || route is Quick)
            &&& scan_type == "folder"@ <==> (route is QueuedFolder || route is Folder)
            &&& scan_type == "full"@ <==> (route is QueuedFull || route is Full)
            &&& scan_type == "startup"@ <==> route is Startup
            &&& route is QueuedFile ==> flags.file
            &&& route is SingleFile ==> !flags.file
            &&& route is QueuedQuick ==> flags.quick
            &&& route is Quick ==> !flags.quick
            &&& route is QueuedFolder ==> flags.folder
            &&& route is Folder ==> !flags.folder
            &&& route is QueuedFull ==> flags.full
            &&& route is Full ==> !flags.full
        }),
{
    reveal_strlit("file");
    reveal_strlit("quick");
    reveal_strlit("folder");
    reveal_strlit("full");
    reveal_strlit("startup");
    assert("file"@.len() == 4 && "quick"@.len() == 5 && "folder"@.len() == 6);
    assert("full"@.len() == 4 && "startup"@.len() == 7);
    assert("file"@[1] == 'i' && "full"@[1] == 'u');
}

/// A file scan goes to the engines where it was not cancelled and the file is there
/// and not excluded; a missing or excluded file is told as an error.
pub proof fn gate_lets_plain_files_through(cancelled: bool, exists_on_disk: bool, excluded: bool)
    ensures
        ({
            let gate = gate_of(cancelled, exists_on_disk, excluded);
            &&& gate is Scan <==> !cancelled && exists_on_disk && !excluded
            &&& gate is Cancelled <==> cancelled
            &&& !cancelled && !exists_on_disk ==> error_of_gate(gate) == Some("File not found"@)
            &&& !cancelled && exists_on_disk && excluded ==> error_of_gate(gate) == Some(
                "Path excluded by configuration"@,
            )
            &&& gate is Scan || gate is Cancelled ==> error_of_gate(gate) is None
        }),
{
}

/// The result on a file says infected exactly where it names a threat, and tells the
/// failure of the signature engine.
pub proof fn result_names_the_threat(
    path: Seq<char>,
    scanned_bytes: u64,
    clamav: ClamResult,
    argus: ArgusVerdict,
    exclusions: Seq<String>,
)
    ensures
        ({
            let r = result_of(path, scanned_bytes, clamav, argus, exclusions);
            &&& r.infected <==> r.virus_name is Some
            &&& r.virus_name == united(
                clamav.infected,
                owned_view(clamav.virus_name),
                argus,
                exclusions,
            )
            &&& r.path == path
            &&& r.scanned_bytes == scanned_bytes
            &&& r.error == owned_view(clamav.error)
        }),
{
}

/// A quick scan looks at the downloads, the desktop and the temporary directory of
/// the user, wherever that is.
pub proof fn quick_scan_looks_at_usual_places(home: Seq<char>, temp: Option<Seq<char>>)
    ensures
        ({
            let places = usual_places(home, temp);
            &&& places.len() == 3
            &&& places.contains(home + "\\Downloads"@)
            &&& places.contains(home + "\\Desktop"@)
            &&& temp matches Some(t) ==> places.contains(t)
            &&& temp is None ==> places.contains(home + "\\AppData\\Local\\Temp"@)
        }),
{
    let places = usual_places(home, temp);
    assert(places[0] == home + "\\Downloads"@);
    assert(places[1] == home + "\\Desktop"@);
    assert(places[2] == places[2]);
}

/// A quick or startup scan goes three directories deep, every other one ten.
pub proof fn quick_scans_stay_shallow(scan_type: Seq<char>)
    ensures
        scan_type == "quick"@ || scan_type == "startup"@ ==> depth_of(scan_type) == 3,
        scan_type != "quick"@ && scan_type != "startup"@ ==> depth_of(scan_type) == 10,
{
}

/// The largest file is as many megabytes as configured, 512 where nothing is.
pub proof fn size_limit_is_in_megabytes(configured_mb: Option<u64>)
    ensures
        configured_mb matches Some(mb) ==> size_limit(configured_mb) == mb * 1024 * 1024,
        configured_mb is None ==> size_limit(configured_mb) == 512 * 1024 * 1024,
{
}

/// Half the cores scan, but never less than two nor more than eight threads.
pub proof fn half_the_cores_scan(cores: Option<usize>)
    ensures
        2 <= threads_for(cores) <= 8,
        cores is None ==> threads_for(cores) == 4,
        (cores matches Some(n) && 4 <= n <= 17) ==> 2 * threads_for(cores) <= cores->0 <= 2
            * threads_for(cores) + 1,
        (cores matches Some(n) && n < 4) ==> threads_for(cores) == 2,
        (cores matches Some(n) && n > 17) ==> threads_for(cores) == 8,
{
}

/// A target names something where it is given and not blank.
pub proof fn blank_targets_name_nothing(target: Option<Seq<char>>)
    ensures
        target is None ==> !names_something(target),
        target matches Some(t) ==> (names_something(target) <==> trimmed(t).len() > 0),
{
}

/// A folder is refused where none is given, or where it is no directory; nothing else
/// speaks against it.
pub proof fn only_directories_are_scanned(
    target: Option<Seq<char>>,
    is_dir: bool,
    missing: Seq<char>,
)
    ensures
        target is None ==> folder_error(target, is_dir, missing) == Some(missing),
        target is Some && is_dir ==> folder_error(target, is_dir, missing) is None,
        target is Some && !is_dir ==> folder_error(target, is_dir, missing) == Some(
            "Not a directory: "@ + target->0,
        ),
{
}

/// A refused start leaves the board alone and says why; a start that is not refused
/// is on the board as the job that was asked for.
pub proof fn starts_are_all_or_nothing<R>(
    before: Board,
    after: Board,
    start: ScanStart<Seq<char>>,
    id: Seq<char>,
    now: i64,
    error: Seq<char>,
    answer: Result<R, ScanStartResponse>,
)
    ensures
        refused(before, after, id, error, answer) ==> answer is Err && after == before
            && answer->Err_0@.error == Some(error) && answer->Err_0@.job_id == id,
        started(before, after, start, id, now, answer) && answer is Err ==> after == before,
        started(before, after, start, id, now, answer) && answer is Ok ==> (after.active matches Some(
            j,
        ) && j.id == id && j.kind == start.kind && j.started_at == now && j.files_total
            == start.files_total && j.current_path == start.job_path),
{
}

/// The start of a scan is logged as information on a scan, in the words given.
pub proof fn starts_are_information(title: Seq<char>, message: Seq<char>, now: i64)
    ensures
        ({
            let e = start_event(title, message);
            let entry = start_entry(title, message, now);
            &&& e.severity == "info"@ && e.category == "scan"@
            &&& e.title == title && e.message == message && e.scan_id is None
            &&& entry.event_type == "scan_start"@ && entry.message == title
            &&& entry.detail == Some(message) && entry.timestamp == now
        }),
{
}

/// A file that is not scanned has an error where it is missing or excluded, and none
/// where the scan was cancelled.
pub proof fn unscanned_files_have_an_error(gate: FileGate)
    ensures
        gate is NotFound ==> error_of_gate(gate) == Some("File not found"@),
        gate is Excluded ==> error_of_gate(gate) == Some("Path excluded by configuration"@),
        gate is Cancelled || gate is Scan ==> error_of_gate(gate) is None,
{
}

} // verus!
