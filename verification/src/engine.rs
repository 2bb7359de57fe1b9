//! The signature engine: its slot, its reloads and the age of its signatures.
//!
//! A reload builds a new engine first and puts it into the slot only when it is
//! ready; a reload that fails leaves the engine that serves scans where it is.

use crate::scan::job::ActivityEvent;
use crate::text::{
    decimal, decimal_text, first_line, owned_view, parse_i64, parse_u32, parsed_i64, parsed_uint,
    parts, split, starts_with, begins, take_first_line, text_view, texts, trim, trimmed,
};
use vstd::prelude::*;

verus! {

/// Where a reload is in its life.
#[derive(Debug, Clone, Copy, PartialEq, Eq, Structural)]
pub enum ReloadPhase {
    Idle,
    Compiling,
    Activating,
    Failed,
}

/// The number that a phase is kept as.
pub open spec fn phase_number(p: ReloadPhase) -> u8 {
    match p {
        ReloadPhase::Idle => 0,
        ReloadPhase::Compiling => 1,
        ReloadPhase::Activating => 2,
        ReloadPhase::Failed => 3,
    }
}

/// The phase that a number stands for; an unknown one is no reload.
pub open spec fn phase_of(v: u8) -> ReloadPhase {
    if v == 1 {
        ReloadPhase::Compiling
    } else if v == 2 {
        ReloadPhase::Activating
    } else if v == 3 {
        ReloadPhase::Failed
    } else {
        ReloadPhase::Idle
    }
}

pub fn reload_phase_u8(p: ReloadPhase) -> (v: u8)
    ensures
        v == phase_number(p),
{
    match p {
        ReloadPhase::Idle => 0,
        ReloadPhase::Compiling => 1,
        ReloadPhase::Activating => 2,
        ReloadPhase::Failed => 3,
    }
}

pub fn reload_phase_from_u8(v: u8) -> (p: ReloadPhase)
    ensures
        p == phase_of(v),
{
    match v {
        1 => ReloadPhase::Compiling,
        2 => ReloadPhase::Activating,
        3 => ReloadPhase::Failed,
        _ => ReloadPhase::Idle,
    }
}

/// A phase is read back as it was written.
pub proof fn phase_survives_encoding(p: ReloadPhase)
    ensures
        phase_of(phase_number(p)) == p,
{
}

/// What the slot holds: an engine, if there is one, and the error of the latest
/// attempt to load one. Both change together.
pub struct EngineSnapshot<E> {
    pub engine: Option<E>,
    pub last_error: Option<String>,
}

impl<E> EngineSnapshot<E> {
    /// Put a new engine into the slot. What was there comes back.
    pub fn publish(&mut self, engine: E) -> (previous: Option<E>)
        ensures
            final(self).engine == Some(engine),
            final(self).last_error is None,
            previous == old(self).engine,
    {
        let previous = self.engine.take();
        self.engine = Some(engine);
        self.last_error = None;
        previous
    }

    /// Note an error. The engine stays.
    pub fn record_error(&mut self, error: String)
        ensures
            final(self).engine == old(self).engine,
            final(self).last_error == Some(error),
    {
        self.last_error = Some(error);
    }
}

/// What the latest successful load committed.
#[derive(Debug, Clone, Copy, PartialEq, Eq, Structural)]
pub struct CommittedState {
    pub signature_count: u64,
    /// Version and time of the signatures, where a load was committed.
    pub db: Option<DbStamp>,
}

/// Version of the signatures, where it is known, and their time.
#[derive(Debug, Clone, Copy, PartialEq, Eq, Structural)]
pub struct DbStamp {
    pub version: Option<u32>,
    pub timestamp: i64,
}

/// Version and time that the header of a signature file tells.
#[derive(Debug, Clone, Copy, PartialEq, Eq, Structural)]
pub struct CvdVersion {
    pub version: Option<u32>,
    pub timestamp: Option<i64>,
}

/// The stamp that a header gives. A version of zero is none, a header without a
/// time is no stamp.
pub open spec fn stamp_of(v: CvdVersion) -> Option<DbStamp> {
    match v.timestamp {
        Some(timestamp) => if timestamp == i64::MIN {
            None
        } else {
            Some(
                DbStamp {
                    version: if v.version == Some(0u32) {
                        None
                    } else {
                        v.version
                    },
                    timestamp,
                },
            )
        },
        None => None,
    }
}

/// Version and time to report: the committed ones, or those on disk while
/// nothing was committed.
pub open spec fn reported(c: CommittedState, on_disk: CvdVersion) -> CvdVersion {
    match c.db {
        Some(stamp) => CvdVersion { version: stamp.version, timestamp: Some(stamp.timestamp) },
        None => on_disk,
    }
}

impl CommittedState {
    /// Commit a load of `sigs` signatures.
    pub fn commit_engine_state(&mut self, sigs: u64, on_disk: CvdVersion)
        ensures
            final(self).signature_count == sigs,
            final(self).db == stamp_of(on_disk),
    {
        self.signature_count = sigs;
        self.db =
        match on_disk.timestamp {
            Some(timestamp) => if timestamp == i64::MIN {
                None
            } else {
                let version = match on_disk.version {
                    Some(v) => if v == 0 {
                        None
                    } else {
                        Some(v)
                    },
                    None => None,
                };
                Some(DbStamp { version, timestamp })
            },
            None => None,
        };
    }
}

/// Report on the engine.
#[derive(Debug, Clone, Copy, PartialEq, Eq, Structural)]
pub struct EngineReport {
    /// Whether an engine serves scans.
    pub ready: bool,
    pub db_version: Option<u32>,
    pub db_timestamp: Option<i64>,
    pub signature_count: u64,
    pub last_update: Option<i64>,
    pub reload_phase: ReloadPhase,
}

/// Report the committed engine. A reload in progress does not make it less
/// ready.
pub fn engine_status<E>(
    slot: &EngineSnapshot<E>,
    committed: &CommittedState,
    on_disk: CvdVersion,
    last_update: Option<i64>,
    phase: u8,
) -> (report: EngineReport)
    ensures
        report == (EngineReport {
            ready: slot.engine is Some,
            db_version: reported(*committed, on_disk).version,
            db_timestamp: reported(*committed, on_disk).timestamp,
            signature_count: committed.signature_count,
            last_update,
            reload_phase: phase_of(phase),
        }),
{
    let (db_version, db_timestamp): (Option<u32>, Option<i64>) = match committed.db {
        Some(stamp) => (stamp.version, Some(stamp.timestamp)),
        None => (on_disk.version, on_disk.timestamp),
    };
    EngineReport {
        ready: slot.engine.is_some(),
        db_version,
        db_timestamp,
        signature_count: committed.signature_count,
        last_update,
        reload_phase: reload_phase_from_u8(phase),
    }
}

/// What a header says: fields between colons, the first with a fixed start, the
/// third the version, the eighth the time in seconds.
pub open spec fn header_version(header: Seq<char>) -> Option<CvdVersion> {
    let fields = parts(first_line(header), ':');
    if fields.len() >= 3 && begins(fields[0], "ClamAV-VDB"@) {
        Some(
            CvdVersion {
                version: match parsed_uint(fields[2], u32::MAX as nat) {
                    Some(v) => Some(v as u32),
                    None => None,
                },
                timestamp: if fields.len() > 7 {
                    match parsed_i64(trimmed(fields[7])) {
                        Some(t) => Some(t as i64),
                        None => None,
                    }
                } else {
                    None
                },
            },
        )
    } else {
        None
    }
}

/// Read the header of a signature file.
pub fn parse_cvd_header(header: &str) -> (version: Option<CvdVersion>)
    ensures
        version == header_version(header@),
{
    let line = take_first_line(header);
    let fields = split(line.as_str(), ':');
    let ghost spec_fields = parts(first_line(header@), ':');
    assert(texts(fields@).len() == fields@.len());
    if fields.len() < 3 {
        return None;
    }
    assert(spec_fields[0] == fields@[0]@ && spec_fields[2] == fields@[2]@);
    if !starts_with(fields[0].as_str(), "ClamAV-VDB") {
        return None;
    }
    let version = parse_u32(fields[2].as_str());
    let timestamp = if fields.len() > 7 {
        assert(spec_fields[7] == fields@[7]@);
        let field = trim(fields[7].as_str());
        parse_i64(field.as_str())
    } else {
        None
    };
    Some(CvdVersion { version, timestamp })
}

/// The files that tell the version of the signatures. The daily ones change most
/// often, so they are asked first.
pub open spec fn version_file_names() -> Seq<&'static str> {
    seq!["daily.cvd", "daily.cld", "main.cvd", "main.cld"]
}

pub fn version_files() -> (names: Vec<&'static str>)
    ensures
        names@ == version_file_names(),
{
    let mut names: Vec<&'static str> = Vec::new();
    names.push("daily.cvd");
    names.push("daily.cld");
    names.push("main.cvd");
    names.push("main.cld");
    assert(names@ =~= version_file_names());
    names
}

/// The files whose times tell when signatures were last written.
pub fn dated_files() -> (names: Vec<&'static str>)
    ensures
        names@ == version_file_names() + seq!["bytecode.cvd", "bytecode.cld"],
{
    let mut names = version_files();
    names.push("bytecode.cvd");
    names.push("bytecode.cld");
    assert(names@ =~= version_file_names() + seq!["bytecode.cvd", "bytecode.cld"]);
    names
}

/// How much of a signature file is read for its header, in bytes.
pub const HEADER_SIZE: usize = 512;

/// A file that gives no more bytes than this has no header.
pub const MIN_HEADER_READ: usize = 20;

/// The beginning of a signature file.
pub struct FileHead {
    /// How many bytes were read.
    pub bytes_read: usize,
    /// The bytes as text.
    pub text: String,
}

/// What the beginning of a file tells, where it could be read.
pub open spec fn head_version(head: Option<FileHead>) -> Option<CvdVersion> {
    match head {
        Some(h) => if h.bytes_read > MIN_HEADER_READ {
            header_version(h.text@)
        } else {
            None
        },
        None => None,
    }
}

/// The version that the first file with a header tells.
pub open spec fn first_version(heads: Seq<Option<FileHead>>) -> CvdVersion
    decreases heads.len(),
{
    if heads.len() == 0 {
        CvdVersion { version: None, timestamp: None }
    } else {
        match head_version(heads[0]) {
            Some(v) => v,
            None => first_version(heads.subrange(1, heads.len() as int)),
        }
    }
}

/// Version and time of the signatures on disk, from the beginnings of the files
/// that [`version_files`] names, in that order; `None` stands for a file that could
/// not be opened.
pub fn read_cvd_version(heads: &Vec<Option<FileHead>>) -> (version: CvdVersion)
    ensures
        version == first_version(heads@),
{
    let mut i: usize = 0;
    assert(heads@.subrange(0, heads@.len() as int) =~= heads@);
    while i < heads.len()
        invariant
            i <= heads@.len(),
            first_version(heads@) == first_version(
                heads@.subrange(i as int, heads@.len() as int),
            ),
        decreases heads@.len() - i,
    {
        let ghost rest = heads@.subrange(i as int, heads@.len() as int);
        assert(rest.subrange(1, rest.len() as int) =~= heads@.subrange(
            i + 1,
            heads@.len() as int,
        ));
        if let Some(head) = &heads[i] {
            if head.bytes_read > MIN_HEADER_READ {
                match parse_cvd_header(head.text.as_str()) {
                    Some(v) => {
                        return v;
                    },
                    None => {},
                }
            }
        }
        i = i + 1;
    }
    CvdVersion { version: None, timestamp: None }
}

/// The later of two optional times.
pub open spec fn later(a: Option<i64>, b: Option<i64>) -> Option<i64> {
    match (a, b) {
        (Some(x), Some(y)) => if x >= y {
            Some(x)
        } else {
            Some(y)
        },
        (Some(x), None) => Some(x),
        (None, y) => y,
    }
}

pub fn later_of(a: Option<i64>, b: Option<i64>) -> (t: Option<i64>)
    ensures
        t == later(a, b),
{
    match (a, b) {
        (Some(x), Some(y)) => if x >= y {
            Some(x)
        } else {
            Some(y)
        },
        (Some(x), None) => Some(x),
        (None, y) => y,
    }
}

/// The latest of some optional times.
pub open spec fn latest(times: Seq<Option<i64>>) -> Option<i64>
    decreases times.len(),
{
    if times.len() == 0 {
        None
    } else {
        later(latest(times.drop_last()), times.last())
    }
}

/// When a signature file was last written, from the times of the files.
pub fn newest_signature_db_mtime_secs(times: &Vec<Option<i64>>) -> (newest: Option<i64>)
    ensures
        newest == latest(times@),
{
    let mut newest: Option<i64> = None;
    let mut i: usize = 0;
    assert(times@.take(0) =~= Seq::<Option<i64>>::empty());
    while i < times.len()
        invariant
            i <= times@.len(),
            newest == latest(times@.take(i as int)),
        decreases times@.len() - i,
    {
        assert(times@.take(i + 1).drop_last() =~= times@.take(i as int));
        newest = later_of(newest, times[i]);
        i = i + 1;
    }
    assert(times@.take(times@.len() as int) =~= times@);
    newest
}

/// Whether signatures of time `effective_ts` are stale, and their age in hours.
/// Without a time they are stale.
pub open spec fn staleness(effective_ts: Option<i64>, now_ts: i64, threshold_hours: u64) -> (
    bool,
    u64,
) {
    match effective_ts {
        Some(ts) => {
            let hours = if now_ts > ts {
                ((now_ts - ts) / 3600) as u64
            } else {
                0
            };
            (hours > threshold_hours, hours)
        },
        None => (true, 0),
    }
}

pub fn compute_db_stale(effective_ts: Option<i64>, now_ts: i64, threshold_hours: u64) -> (stale: (
    bool,
    u64,
))
    ensures
        stale == staleness(effective_ts, now_ts, threshold_hours),
{
    match effective_ts {
        Some(ts) => {
            let hours: u64 = if now_ts > ts {
                ((now_ts as i128 - ts as i128) / 3600) as u64
            } else {
                0
            };
            (hours > threshold_hours, hours)
        },
        None => (true, 0),
    }
}

/// Whether the signatures are reported as stale: loaded signatures of unknown
/// age are not.
pub open spec fn reported_stale(
    signature_count: u64,
    effective_ts: Option<i64>,
    now_ts: i64,
    threshold_hours: u64,
) -> bool {
    !(signature_count > 0 && effective_ts is None) && staleness(
        effective_ts,
        now_ts,
        threshold_hours,
    ).0
}

pub fn is_db_stale(
    signature_count: u64,
    effective_ts: Option<i64>,
    now_ts: i64,
    threshold_hours: u64,
) -> (stale: bool)
    ensures
        stale == reported_stale(signature_count, effective_ts, now_ts, threshold_hours),
{
    if signature_count > 0 && effective_ts.is_none() {
        false
    } else {
        compute_db_stale(effective_ts, now_ts, threshold_hours).0
    }
}

/// The staleness threshold in hours, from the configured days: one to thirty,
/// three where nothing is configured.
pub open spec fn stale_hours(configured_days: Option<u32>) -> int {
    24 * (match configured_days {
        Some(d) => if d < 1 {
            1
        } else if d > 30 {
            30
        } else {
            d as int
        },
        None => 3,
    })
}

pub fn stale_threshold_hours(configured_days: Option<u32>) -> (hours: u64)
    ensures
        24 <= hours <= 720,
        hours == stale_hours(configured_days),
{
    let days: u64 = match configured_days {
        Some(d) => if d < 1 {
            1
        } else if d > 30 {
            30
        } else {
            d as u64
        },
        None => 3,
    };
    days * 24
}

/// Older signatures are never reported as fresher.
pub proof fn staleness_is_monotone(older: i64, newer: i64, now_ts: i64, threshold_hours: u64)
    requires
        older <= newer,
    ensures
        staleness(Some(newer), now_ts, threshold_hours).0 ==> staleness(
            Some(older),
            now_ts,
            threshold_hours,
        ).0,
        staleness(Some(older), now_ts, threshold_hours).1 >= staleness(
            Some(newer),
            now_ts,
            threshold_hours,
        ).1,
{
}

/// Reloads of the engine: at most one at a time.
pub struct ReloadState {
    pub in_progress: bool,
    pub phase: u8,
}

/// Why a reload cannot begin.
pub open spec fn reload_refusal(in_progress: bool, configured: bool) -> Option<Seq<char>> {
    if in_progress {
        Some("engine reload already in progress"@)
    } else if !configured {
        Some("DLL or DB directory not configured"@)
    } else {
        None
    }
}

/// Begin a reload, unless one is running or the engine is not configured.
pub fn begin_reload(state: &mut ReloadState, configured: bool) -> (refusal: Option<&'static str>)
    ensures
        text_view(refusal) == reload_refusal(old(state).in_progress, configured),
        text_view(refusal) == if old(state).in_progress {
            Some("engine reload already in progress"@)
        } else if !configured {
            Some("DLL or DB directory not configured"@)
        } else {
            None
        },
        refusal is None ==> final(state).in_progress && phase_of(final(state).phase) is Compiling,
        refusal is Some ==> *final(state) == *old(state),
{
    if state.in_progress {
        return Some("engine reload already in progress");
    }
    if !configured {
        return Some("DLL or DB directory not configured");
    }
    state.in_progress = true;
    state.phase = reload_phase_u8(ReloadPhase::Compiling);
    None
}

/// End a reload. With an engine, the slot and the committed state change
/// together; with an error, both stay and the error is noted.
pub fn finish_reload<E>(
    state: &mut ReloadState,
    slot: &mut EngineSnapshot<E>,
    committed: &mut CommittedState,
    loaded: Result<(E, u64), String>,
    on_disk: CvdVersion,
) -> (event: ActivityEvent)
    ensures
        !final(state).in_progress,
        match loaded {
            Ok((engine, sigs)) => {
                &&& phase_of(final(state).phase) is Idle
                &&& final(slot).engine == Some(engine)
                &&& final(slot).last_error is None
                &&& final(committed).signature_count == sigs
                &&& final(committed).db == stamp_of(on_disk)
                &&& event@ == (ActivityEvent {
                    severity: "info"@,
                    category: "engine"@,
                    title: "Engine reloaded — "@ + decimal(sigs as nat) + " signatures"@,
                    message: ""@,
                    scan_id: None,
                })
            },
            Err(e) => {
                &&& phase_of(final(state).phase) is Failed
                &&& final(slot).engine == old(slot).engine
                &&& owned_view(final(slot).last_error) == Some(e@)
                &&& *final(committed) == *old(committed)
                &&& event@ == (ActivityEvent {
                    severity: "warning"@,
                    category: "engine"@,
                    title: "Engine reload failed"@,
                    message: e@,
                    scan_id: None,
                })
            },
        },
{
    state.in_progress = false;
    match loaded {
        Ok((engine, sigs)) => {
            let _previous = slot.publish(engine);
            committed.commit_engine_state(sigs, on_disk);
            state.phase = reload_phase_u8(ReloadPhase::Idle);
            let mut title = "Engine reloaded — ".to_owned();
            title.append(decimal_text(sigs).as_str());
            title.append(" signatures");
            ActivityEvent::general("info", "engine", title, "")
        },
        Err(e) => {
            state.phase = reload_phase_u8(ReloadPhase::Failed);
            let event = ActivityEvent::general(
                "warning",
                "engine",
                "Engine reload failed".to_owned(),
                e.as_str(),
            );
            slot.record_error(e);
            event
        },
    }
}

/// One reload runs at a time, and only of an engine that is configured.
pub proof fn one_reload_at_a_time(in_progress: bool, configured: bool)
    ensures
        reload_refusal(in_progress, configured) is None <==> !in_progress && configured,
        in_progress ==> reload_refusal(in_progress, configured) == Some(
            "engine reload already in progress"@,
        ),
        !in_progress && !configured ==> reload_refusal(in_progress, configured) == Some(
            "DLL or DB directory not configured"@,
        ),
{
}

/// What a load committed is what is reported, whatever lies on disk by then; before
/// any load it is what lies on disk.
pub proof fn committed_state_is_reported(sigs: u64, loaded: CvdVersion, on_disk: CvdVersion)
    ensures
        ({
            let c = CommittedState { signature_count: sigs, db: stamp_of(loaded) };
            &&& (loaded.timestamp is Some && loaded.timestamp->0 != i64::MIN) ==> reported(
                c,
                on_disk,
            ).timestamp == loaded.timestamp
            &&& (loaded.timestamp is Some && loaded.timestamp->0 != i64::MIN && loaded.version
                != Some(0u32)) ==> reported(c, on_disk).version == loaded.version
            &&& (loaded.timestamp is Some && loaded.timestamp->0 != i64::MIN && loaded.version
                == Some(0u32)) ==> reported(c, on_disk).version is None
            &&& loaded.timestamp is None ==> reported(c, on_disk) == on_disk
        }),
{
}

/// A header tells the version in its third field and the time in its eighth, where
/// its first begins as that of a signature file.
pub proof fn header_tells_version_and_time(header: Seq<char>)
    ensures
        ({
            let fields = parts(first_line(header), ':');
            let told = header_version(header);
            &&& told is Some <==> fields.len() >= 3 && begins(fields[0], "ClamAV-VDB"@)
            &&& told is Some ==> (told->0.version is Some <==> parsed_uint(
                fields[2],
                4_294_967_295,
            ) is Some)
            &&& told is Some && parsed_uint(fields[2], 4_294_967_295) is Some
                ==> told->0.version->0 == parsed_uint(fields[2], 4_294_967_295)->0 as u32
            &&& told is Some && fields.len() <= 7 ==> told->0.timestamp is None
            &&& told is Some && fields.len() > 7 ==> (told->0.timestamp is Some <==> parsed_i64(
                trimmed(fields[7]),
            ) is Some)
            &&& told is Some && fields.len() > 7 && parsed_i64(trimmed(fields[7])) is Some
                ==> told->0.timestamp->0 == parsed_i64(trimmed(fields[7]))->0 as i64
        }),
{
}

proof fn lemma_first_version(heads: Seq<Option<FileHead>>, i: int)
    requires
        0 <= i < heads.len(),
        head_version(heads[i]) is Some,
        forall|k: int| 0 <= k < i ==> head_version(#[trigger] heads[k]) is None,
    ensures
        first_version(heads) == head_version(heads[i])->0,
    decreases heads.len(),
{
    if i > 0 {
        assert(head_version(heads[0]) is None);
        let rest = heads.subrange(1, heads.len() as int);
        assert(rest[i - 1] == heads[i]);
        assert forall|k: int| 0 <= k < i - 1 implies head_version(#[trigger] rest[k]) is None by {
            assert(rest[k] == heads[k + 1]);
        }
        lemma_first_version(rest, i - 1);
    }
}

/// The first file with a header tells the version, whatever the files behind it hold;
/// a file that gives no more than twenty bytes has no header.
pub proof fn first_header_tells_the_version(heads: Seq<Option<FileHead>>, i: int)
    requires
        0 <= i < heads.len(),
        forall|k: int|
            0 <= k < i ==> ((#[trigger] heads[k]) is None || heads[k]->0.bytes_read <= 20
                || header_version(heads[k]->0.text@) is None),
    ensures
        (heads[i] matches Some(h) && h.bytes_read > 20 && header_version(h.text@) is Some)
            ==> first_version(heads) == header_version(heads[i]->0.text@)->0,
{
    assert forall|k: int| 0 <= k < i implies head_version(#[trigger] heads[k]) is None by {}
    if head_version(heads[i]) is Some {
        lemma_first_version(heads, i);
    }
}

/// The daily signatures are asked for their version before the main ones, the packed
/// file before the unpacked one.
pub proof fn daily_signatures_come_first()
    ensures
        version_file_names().len() == 4,
        version_file_names()[0]@ == "daily.cvd"@,
        version_file_names()[1]@ == "daily.cld"@,
        version_file_names()[2]@ == "main.cvd"@,
        version_file_names()[3]@ == "main.cld"@,
{
}

proof fn lemma_latest(times: Seq<Option<i64>>)
    ensures
        latest(times) is Some ==> times.contains(latest(times)),
        forall|k: int|
            0 <= k < times.len() && (#[trigger] times[k]) is Some ==> latest(times) is Some
                && latest(times)->0 >= times[k]->0,
    decreases times.len(),
{
    if times.len() > 0 {
        let rest = times.drop_last();
        lemma_latest(rest);
        let n = times.len() - 1;
        assert(times[n] == times.last());
        if latest(rest) is Some {
            let i = choose|i: int| 0 <= i < rest.len() && rest[i] == latest(rest);
            assert(times[i] == latest(rest));
        }
        assert forall|k: int| 0 <= k < times.len() && (#[trigger] times[k]) is Some implies latest(
            times,
        ) is Some && latest(times)->0 >= times[k]->0 by {
            if k < n {
                assert(rest[k] == times[k]);
            }
        }
    }
}

/// The latest of some times is one of them, and none is later.
pub proof fn latest_is_one_of_them(times: Seq<Option<i64>>, k: int)
    ensures
        latest(times) is Some ==> times.contains(latest(times)),
        0 <= k < times.len() && times[k] is Some ==> latest(times) is Some && latest(times)->0
            >= times[k]->0,
{
    lemma_latest(times);
}

/// The later of two times is one of them and not before the other; a missing one does
/// not count.
pub proof fn later_is_not_before(a: Option<i64>, b: Option<i64>)
    ensures
        later(a, b) == a || later(a, b) == b,
        later(a, b) is None <==> a is None && b is None,
        a matches Some(x) ==> later(a, b)->0 >= x,
        b matches Some(y) ==> later(a, b)->0 >= y,
{
}

/// Signatures are stale once they are more than the threshold of whole hours old, and
/// where their age is unknown; those from the future are fresh.
pub proof fn staleness_counts_whole_hours(ts: i64, now_ts: i64, threshold_hours: u64)
    ensures
        staleness(None, now_ts, threshold_hours) == (true, 0u64),
        now_ts <= ts ==> staleness(Some(ts), now_ts, threshold_hours) == (false, 0u64),
        now_ts > ts ==> 3600 * staleness(Some(ts), now_ts, threshold_hours).1 <= now_ts - ts < 3600
            * staleness(Some(ts), now_ts, threshold_hours).1 + 3600,
        now_ts > ts ==> (staleness(Some(ts), now_ts, threshold_hours).0 <==> now_ts - ts >= 3600
            * threshold_hours + 3600),
{
}

/// Loaded signatures of unknown age are not reported as stale; a missing database is.
pub proof fn loaded_signatures_are_not_stale(
    signature_count: u64,
    effective_ts: Option<i64>,
    now_ts: i64,
    threshold_hours: u64,
)
    ensures
        effective_ts is None ==> (reported_stale(
            signature_count,
            effective_ts,
            now_ts,
            threshold_hours,
        ) <==> signature_count == 0),
        effective_ts is Some ==> (reported_stale(
            signature_count,
            effective_ts,
            now_ts,
            threshold_hours,
        ) <==> staleness(effective_ts, now_ts, threshold_hours).0),
{
}

/// The threshold is as many days as configured, within one and thirty, and three days
/// where nothing is configured.
pub proof fn threshold_is_in_days(configured_days: Option<u32>)
    ensures
        configured_days is None ==> stale_hours(configured_days) == 72,
        (configured_days matches Some(d) && 1 <= d <= 30) ==> stale_hours(configured_days) == 24
            * configured_days->0,
        configured_days == Some(0u32) ==> stale_hours(configured_days) == 24,
        (configured_days matches Some(d) && d > 30) ==> stale_hours(configured_days) == 720,
{
}

/// The phases of a reload are kept as different numbers, and a number of none of them
/// is no reload.
pub proof fn phases_are_told_apart(a: ReloadPhase, b: ReloadPhase, v: u8)
    ensures
        a != b ==> phase_number(a) != phase_number(b),
        v > 3 ==> phase_of(v) is Idle,
        phase_number(ReloadPhase::Idle) == 0,
{
}

} // verus!
