//! Records of how long things took, which the developer mode keeps on disk.

use crate::footprint::pressure::PressureState;
use crate::footprint::FootprintSnapshot;
use crate::scan::job::ScanRow;
use crate::stats::CacheStats;
use crate::text::{decimal, decimal_text, texts};
use vstd::prelude::*;

verus! {

/// One record.
pub struct PerfRecord {
    pub kind: String,
    pub label: String,
    pub files: u64,
    pub bytes: u64,
    pub duration_ms: u64,
    pub threats: u64,
    pub working_set_mb: u64,
    pub private_bytes_mb: u64,
    pub peak_working_set_mb: u64,
    pub pressure: String,
    pub notes: Vec<String>,
}

/// A record as contracts speak of it.
pub struct Perf {
    pub kind: Seq<char>,
    pub label: Seq<char>,
    pub files: u64,
    pub bytes: u64,
    pub duration_ms: u64,
    pub threats: u64,
    pub working_set_mb: u64,
    pub private_bytes_mb: u64,
    pub peak_working_set_mb: u64,
    pub pressure: Seq<char>,
    pub notes: Seq<Seq<char>>,
}

impl View for PerfRecord {
    type V = Perf;

    open spec fn view(&self) -> Perf {
        Perf {
            kind: self.kind@,
            label: self.label@,
            files: self.files,
            bytes: self.bytes,
            duration_ms: self.duration_ms,
            threats: self.threats,
            working_set_mb: self.working_set_mb,
            private_bytes_mb: self.private_bytes_mb,
            peak_working_set_mb: self.peak_working_set_mb,
            pressure: self.pressure@,
            notes: texts(self.notes@),
        }
    }
}

/// The name of a class of memory pressure.
pub open spec fn pressure_name(state: PressureState) -> Seq<char> {
    match state {
        PressureState::Normal => "Normal"@,
        PressureState::Elevated => "Elevated"@,
        PressureState::Warning => "Warning"@,
        PressureState::Critical => "Critical"@,
    }
}

fn name_pressure(state: PressureState) -> (name: String)
    ensures
        name@ == pressure_name(state),
{
    match state {
        PressureState::Normal => "Normal".to_owned(),
        PressureState::Elevated => "Elevated".to_owned(),
        PressureState::Warning => "Warning".to_owned(),
        PressureState::Critical => "Critical".to_owned(),
    }
}

fn note(label: &str, text: &str) -> (note: String)
    ensures
        note@ == label@ + text@,
{
    let mut note = label.to_owned();
    note.append(text);
    note
}

/// The notes on a scan.
pub open spec fn scan_notes(scan: ScanRow<Seq<char>>, cache: CacheStats) -> Seq<Seq<char>> {
    seq![
        "status="@ + scan.status,
        "scan_id="@ + scan.scan_id,
        "errors="@ + decimal(scan.errors_count as nat),
        "scan_cache: hits="@ + decimal(cache.hits as nat) + " misses="@ + decimal(
            cache.misses as nat,
        ) + " entries="@ + decimal(cache.entries as nat),
        "phase: clamav="@ + decimal(scan.clamav_phase_us as nat) + "us argus="@ + decimal(
            scan.argus_phase_us as nat,
        ) + "us"@,
    ]
}

/// The record of a scan that has ended.
pub open spec fn scan_perf(
    scan: ScanRow<Seq<char>>,
    snap: FootprintSnapshot,
    pressure: PressureState,
    cache: CacheStats,
) -> Perf {
    Perf {
        kind: "scan"@,
        label: scan.scan_type,
        files: scan.files_scanned,
        bytes: scan.bytes_scanned,
        duration_ms: scan.duration_ms,
        threats: scan.threats_found,
        working_set_mb: snap.working_set_mb,
        private_bytes_mb: snap.private_bytes_mb,
        peak_working_set_mb: snap.peak_working_set_mb,
        pressure: pressure_name(pressure),
        notes: scan_notes(scan, cache),
    }
}

/// Record a scan that has ended.
pub fn scan_record(
    scan: &ScanRow,
    snap: &FootprintSnapshot,
    pressure: PressureState,
    cache: &CacheStats,
) -> (record: PerfRecord)
    ensures
        record@ == scan_perf(scan@, *snap, pressure, *cache),
        record@ == (Perf {
            kind: "scan"@,
            label: scan.scan_type@,
            files: scan.files_scanned,
            bytes: scan.bytes_scanned,
            duration_ms: scan.duration_ms,
            threats: scan.threats_found,
            working_set_mb: snap.working_set_mb,
            private_bytes_mb: snap.private_bytes_mb,
            peak_working_set_mb: snap.peak_working_set_mb,
            pressure: pressure_name(pressure),
            notes: scan_notes(scan@, *cache),
        }),
{
    let mut cached = "scan_cache: hits=".to_owned();
    cached.append(decimal_text(cache.hits).as_str());
    cached.append(" misses=");
    cached.append(decimal_text(cache.misses).as_str());
    cached.append(" entries=");
    cached.append(decimal_text(cache.entries).as_str());
    let mut phases = "phase: clamav=".to_owned();
    phases.append(decimal_text(scan.clamav_phase_us).as_str());
    phases.append("us argus=");
    phases.append(decimal_text(scan.argus_phase_us).as_str());
    phases.append("us");
    let mut notes: Vec<String> = Vec::new();
    notes.push(note("status=", scan.status.as_str()));
    notes.push(note("scan_id=", scan.scan_id.as_str()));
    notes.push(note("errors=", decimal_text(scan.errors_count).as_str()));
    notes.push(cached);
    notes.push(phases);
    assert(texts(notes@) =~= scan_notes(scan@, *cache));
    PerfRecord {
        kind: "scan".to_owned(),
        label: scan.scan_type.clone(),
        files: scan.files_scanned,
        bytes: scan.bytes_scanned,
        duration_ms: scan.duration_ms,
        threats: scan.threats_found,
        working_set_mb: snap.working_set_mb,
        private_bytes_mb: snap.private_bytes_mb,
        peak_working_set_mb: snap.peak_working_set_mb,
        pressure: name_pressure(pressure),
        notes,
    }
}

/// The record of a reload of the engine.
pub open spec fn reload_perf(
    reload_ms: u64,
    result: Result<u64, Seq<char>>,
    snap: FootprintSnapshot,
    pressure: PressureState,
) -> Perf {
    Perf {
        kind: "reload"@,
        label: match result {
            Ok(_) => "ok"@,
            Err(_) => "failed"@,
        },
        files: 0,
        bytes: 0,
        duration_ms: reload_ms,
        threats: 0,
        working_set_mb: snap.working_set_mb,
        private_bytes_mb: snap.private_bytes_mb,
        peak_working_set_mb: snap.peak_working_set_mb,
        pressure: pressure_name(pressure),
        notes: seq![
            match result {
                Ok(sigs) => "signatures="@ + decimal(sigs as nat),
                Err(e) => "error="@ + e,
            },
        ],
    }
}

/// Record a reload of the engine.
pub fn reload_record(
    reload_ms: u64,
    result: Result<u64, &str>,
    snap: &FootprintSnapshot,
    pressure: PressureState,
) -> (record: PerfRecord)
    ensures
        record@ == reload_perf(
            reload_ms,
            match result {
                Ok(sigs) => Ok(sigs),
                Err(e) => Err(e@),
            },
            *snap,
            pressure,
        ),
        record@ == (Perf {
            kind: "reload"@,
            label: match result {
                Ok(_) => "ok"@,
                Err(_) => "failed"@,
            },
            files: 0,
            bytes: 0,
            duration_ms: reload_ms,
            threats: 0,
            working_set_mb: snap.working_set_mb,
            private_bytes_mb: snap.private_bytes_mb,
            peak_working_set_mb: snap.peak_working_set_mb,
            pressure: pressure_name(pressure),
            notes: seq![
                match result {
                    Ok(sigs) => "signatures="@ + decimal(sigs as nat),
                    Err(e) => "error="@ + e@,
                },
            ],
        }),
{
    let (label, text) = match result {
        Ok(sigs) => ("ok", note("signatures=", decimal_text(sigs).as_str())),
        Err(e) => ("failed", note("error=", e)),
    };
    let mut notes: Vec<String> = Vec::new();
    notes.push(text);
    assert(texts(notes@) =~= seq![text@]);
    PerfRecord {
        kind: "reload".to_owned(),
        label: label.to_owned(),
        files: 0,
        bytes: 0,
        duration_ms: reload_ms,
        threats: 0,
        working_set_mb: snap.working_set_mb,
        private_bytes_mb: snap.private_bytes_mb,
        peak_working_set_mb: snap.peak_working_set_mb,
        pressure: name_pressure(pressure),
        notes,
    }
}

/// The record of a scan tells its numbers as they are, under the name of the scan's
/// type, with its status, identifier and errors in the notes.
pub proof fn scan_record_tells_the_scan(
    scan: ScanRow<Seq<char>>,
    snap: FootprintSnapshot,
    pressure: PressureState,
    cache: CacheStats,
)
    ensures
        ({
            let r = scan_perf(scan, snap, pressure, cache);
            &&& r.kind == "scan"@ && r.label == scan.scan_type
            &&& r.files == scan.files_scanned && r.bytes == scan.bytes_scanned
            &&& r.duration_ms == scan.duration_ms && r.threats == scan.threats_found
            &&& r.working_set_mb == snap.working_set_mb && r.private_bytes_mb
                == snap.private_bytes_mb && r.peak_working_set_mb == snap.peak_working_set_mb
            &&& r.notes.len() == 5
            &&& r.notes[0] == "status="@ + scan.status
            &&& r.notes[1] == "scan_id="@ + scan.scan_id
            &&& r.notes[2] == "errors="@ + decimal(scan.errors_count as nat)
            &&& r.notes[3] == "scan_cache: hits="@ + decimal(cache.hits as nat) + " misses="@
                + decimal(cache.misses as nat) + " entries="@ + decimal(cache.entries as nat)
            &&& r.notes[4] == "phase: clamav="@ + decimal(scan.clamav_phase_us as nat)
                + "us argus="@ + decimal(scan.argus_phase_us as nat) + "us"@
            &&& pressure is Normal ==> r.pressure == "Normal"@
            &&& pressure is Elevated ==> r.pressure == "Elevated"@
            &&& pressure is Warning ==> r.pressure == "Warning"@
            &&& pressure is Critical ==> r.pressure == "Critical"@
        }),
{
}

/// The record of a reload tells whether it worked, how long it took, and the
/// signatures or the error.
pub proof fn reload_record_tells_the_reload(
    reload_ms: u64,
    result: Result<u64, Seq<char>>,
    snap: FootprintSnapshot,
    pressure: PressureState,
)
    ensures
        ({
            let r = reload_perf(reload_ms, result, snap, pressure);
            &&& r.kind == "reload"@ && r.duration_ms == reload_ms
            &&& result is Ok ==> r.label == "ok"@
            &&& result is Err ==> r.label == "failed"@
            &&& result matches Ok(sigs) ==> r.notes == seq!["signatures="@ + decimal(sigs as nat)]
            &&& result matches Err(e) ==> r.notes == seq!["error="@ + e]
            &&& r.files == 0 && r.bytes == 0 && r.threats == 0
            &&& r.pressure == pressure_name(pressure)
            &&& r.working_set_mb == snap.working_set_mb && r.private_bytes_mb
                == snap.private_bytes_mb && r.peak_working_set_mb == snap.peak_working_set_mb
        }),
{
}

} // verus!
