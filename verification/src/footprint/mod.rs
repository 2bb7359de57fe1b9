//! What the daemon says about its own memory use.
//!
//! A snapshot names the likely causes of a large working set, relates it to what
//! was measured before and warns when it only ever grows.

pub mod pressure;
pub mod residency;

use crate::text::{decimal, decimal_text, texts};
use vstd::prelude::*;

verus! {

/// Memory of the process in MB, as the system reports it.
#[derive(Debug, Clone, Copy, PartialEq, Eq, Structural)]
pub struct ProcessMemory {
    pub working_set_mb: u64,
    pub private_bytes_mb: u64,
    pub peak_working_set_mb: u64,
}

/// Memory use of the daemon at one moment.
#[derive(Debug, Clone)]
pub struct FootprintSnapshot {
    pub working_set_mb: u64,
    pub private_bytes_mb: u64,
    pub peak_working_set_mb: u64,
    pub clamav_loaded: bool,
    pub signature_count: u64,
    pub yara_rules: u64,
    pub scan_cache_entries: u64,
    pub active_workers: u32,
    /// Growth since startup, in MB; negative where memory came back.
    pub delta_since_start_mb: i64,
    /// Growth since the latest scan ended, in MB.
    pub delta_since_last_scan_mb: i64,
    /// "normal", "elevated", "warning" or "critical".
    pub warning_level: String,
    pub notes: Vec<String>,
}

/// How many captures are kept.
pub const RECENT_CAPTURES: usize = 16;

/// What later captures are compared with. A baseline of zero is none.
pub struct FootprintBaselines {
    startup_ws_mb: u64,
    last_post_scan_ws_mb: u64,
    capture_count: u64,
    recent_captures: Vec<u64>,
}

/// The last `RECENT_CAPTURES` of `captures`.
pub open spec fn kept(captures: Seq<u64>) -> Seq<u64> {
    if captures.len() > RECENT_CAPTURES {
        captures.subrange(captures.len() - RECENT_CAPTURES, captures.len() as int)
    } else {
        captures
    }
}

/// Whether a capture is followed by one that is not smaller. A size of zero was
/// not measured and follows nothing.
pub open spec fn goes_up(before: u64, after: u64) -> bool {
    before <= after && 0 < after
}

/// Whether the last `n` captures, of at least as many, never go down.
pub open spec fn growing(captures: Seq<u64>, n: int) -> bool {
    captures.len() >= n && forall|i: int|
        captures.len() - n <= i < captures.len() - 1 ==> goes_up(
            #[trigger] captures[i],
            captures[i + 1],
        )
}

impl FootprintBaselines {
    /// Working set after startup.
    pub closed spec fn startup(&self) -> u64 {
        self.startup_ws_mb
    }

    /// Working set after the latest scan.
    pub closed spec fn post_scan(&self) -> u64 {
        self.last_post_scan_ws_mb
    }

    /// How many captures there were; the count wraps.
    pub closed spec fn count(&self) -> u64 {
        self.capture_count
    }

    /// The latest captures, the newest last.
    pub closed spec fn captures(&self) -> Seq<u64> {
        self.recent_captures@
    }

    /// No more captures are held than are kept.
    pub open spec fn wf(&self) -> bool {
        self.captures().len() <= RECENT_CAPTURES
    }

    pub fn new() -> (baselines: Self)
        ensures
            baselines.wf(),
            baselines.startup() == 0,
            baselines.post_scan() == 0,
            baselines.count() == 0,
            baselines.captures() == Seq::<u64>::empty(),
    {
        FootprintBaselines {
            startup_ws_mb: 0,
            last_post_scan_ws_mb: 0,
            capture_count: 0,
            recent_captures: Vec::new(),
        }
    }

    /// Set the baseline of the startup.
    pub fn record_startup(&mut self, ws_mb: u64)
        ensures
            final(self).startup() == ws_mb,
            final(self).post_scan() == old(self).post_scan(),
            final(self).count() == old(self).count(),
            final(self).captures() == old(self).captures(),
    {
        self.startup_ws_mb = ws_mb;
    }

    /// Set the baseline of the latest scan.
    pub fn record_post_scan(&mut self, ws_mb: u64)
        ensures
            final(self).post_scan() == ws_mb,
            final(self).startup() == old(self).startup(),
            final(self).count() == old(self).count(),
            final(self).captures() == old(self).captures(),
    {
        self.last_post_scan_ws_mb = ws_mb;
    }

    /// Remember a capture; the oldest one goes when there are too many.
    pub fn record_capture(&mut self, ws_mb: u64)
        requires
            old(self).wf(),
        ensures
            final(self).wf(),
            final(self).captures() == kept(old(self).captures().push(ws_mb)),
            final(self).count() == old(self).count().wrapping_add(1),
            final(self).startup() == old(self).startup(),
            final(self).post_scan() == old(self).post_scan(),
    {
        self.capture_count = self.capture_count.wrapping_add(1);
        self.recent_captures.push(ws_mb);
        if self.recent_captures.len() > RECENT_CAPTURES {
            let ghost before = self.recent_captures@;
            let _oldest = self.recent_captures.remove(0);
            assert(self.recent_captures@ =~= before.subrange(1, before.len() as int));
        }
    }

    /// Whether the last `min_captures` captures never went down.
    pub fn is_monotonic_growth(&self, min_captures: usize) -> (grows: bool)
        ensures
            grows == growing(self.captures(), min_captures as int),
    {
        let n: usize = self.recent_captures.len();
        if n < min_captures {
            return false;
        }
        if n == 0 {
            return true;
        }
        let first: usize = n - min_captures;
        let mut i: usize = first;
        while i < n - 1
            invariant
                n > 0,
                n == self.recent_captures@.len(),
                min_captures <= n,
                first == n - min_captures,
                first <= i <= n,
                forall|j: int|
                    first <= j < i ==> goes_up(
                        #[trigger] self.recent_captures@[j],
                        self.recent_captures@[j + 1],
                    ),
            decreases n - i,
        {
            let before: u64 = self.recent_captures[i];
            let after: u64 = self.recent_captures[i + 1];
            if !(after >= before && after > before.saturating_sub(5)) {
                assert(!goes_up(self.captures()[i as int], self.captures()[i + 1]));
                return false;
            }
            i = i + 1;
        }
        true
    }
}

/// What the daemon has loaded and runs at the moment of a capture.
#[derive(Debug, Clone, Copy, PartialEq, Eq, Structural)]
pub struct LoadFacts {
    pub clamav_loaded: bool,
    pub signature_count: u64,
    pub yara_rules: u64,
    pub scan_cache_entries: u64,
    pub active_workers: u32,
}

/// The texts of `list` if `yes`, else none.
pub open spec fn given(yes: bool, list: Seq<Seq<char>>) -> Seq<Seq<char>> {
    if yes {
        list
    } else {
        Seq::empty()
    }
}

/// Notes on what takes up memory.
pub open spec fn load_notes(f: LoadFacts, working_set: u64) -> Seq<Seq<char>> {
    let sig_mb = f.signature_count / 10_000;
    let signed = f.clamav_loaded && f.signature_count > 0;
    given(
        signed,
        seq![
            "ClamAV: ~"@ + decimal(sig_mb as nat) + "MB estimated for "@ + decimal(
                f.signature_count as nat,
            ) + " signatures"@,
        ],
    ) + given(
        signed && working_set > 0 && sig_mb > working_set / 2,
        seq!["Large working set likely caused by ClamAV signatures"@],
    ) + given(
        f.yara_rules > 0,
        seq![
            "YARA-X: "@ + decimal(f.yara_rules as nat)
                + " rules (wasmtime JIT contributes ~50-150MB)"@,
        ],
    ) + given(f.yara_rules > 200, seq!["High YARA rule footprint"@]) + given(
        f.active_workers > 4,
        seq![
            "Worker count ("@ + decimal(f.active_workers as nat)
                + ") exceeds default concurrency (4)"@,
        ],
    ) + given(
        f.scan_cache_entries > 40_000,
        seq!["Scan cache large: "@ + decimal(f.scan_cache_entries as nat) + " entries"@],
    )
}

/// Growth over a baseline; none where there is no baseline.
pub open spec fn delta(working_set: u64, baseline: u64) -> int {
    if baseline > 0 {
        working_set - baseline
    } else {
        0
    }
}

/// Notes on how the working set has changed.
pub open spec fn trend_notes(delta_scan: int, grows: bool, working_set: u64) -> Seq<Seq<char>> {
    given(delta_scan < -10, seq!["Memory returned after scan completion"@]) + given(
        delta_scan > 100,
        seq!["Possible retained scan buffers"@],
    ) + given(
        grows,
        seq!["Monotonic growth detected over last 8 captures — possible slow leak"@],
    ) + given(
        working_set > 2500,
        seq!["Working set >2.5GB CRITICAL — investigate immediately"@],
    ) + given(
        1500 < working_set <= 2500,
        seq!["Working set >1.5GB — consider subprocess worker mode for heavy scans"@],
    )
}

/// The word for a working set.
pub open spec fn warning_word(working_set: u64) -> Seq<char> {
    if working_set > 2500 {
        "critical"@
    } else if working_set > 1500 {
        "warning"@
    } else if working_set > 800 {
        "elevated"@
    } else {
        "normal"@
    }
}

fn load_note_list(f: LoadFacts, working_set: u64) -> (notes: Vec<String>)
    ensures
        texts(notes@) == load_notes(f, working_set),
{
    let mut notes: Vec<String> = Vec::new();
    if f.clamav_loaded && f.signature_count > 0 {
        let sig_mb: u64 = f.signature_count / 10_000;
        let mut note = "ClamAV: ~".to_owned();
        note.append(decimal_text(sig_mb).as_str());
        note.append("MB estimated for ");
        note.append(decimal_text(f.signature_count).as_str());
        note.append(" signatures");
        notes.push(note);
        if working_set > 0 && sig_mb > working_set / 2 {
            notes.push("Large working set likely caused by ClamAV signatures".to_owned());
        }
    }
    if f.yara_rules > 0 {
        let mut note = "YARA-X: ".to_owned();
        note.append(decimal_text(f.yara_rules).as_str());
        note.append(" rules (wasmtime JIT contributes ~50-150MB)");
        notes.push(note);
        if f.yara_rules > 200 {
            notes.push("High YARA rule footprint".to_owned());
        }
    }
    if f.active_workers > 4 {
        let mut note = "Worker count (".to_owned();
        note.append(decimal_text(f.active_workers as u64).as_str());
        note.append(") exceeds default concurrency (4)");
        notes.push(note);
    }
    if f.scan_cache_entries > 40_000 {
        let mut note = "Scan cache large: ".to_owned();
        note.append(decimal_text(f.scan_cache_entries).as_str());
        note.append(" entries");
        notes.push(note);
    }
    assert(texts(notes@) =~= load_notes(f, working_set));
    notes
}

fn add_trend_notes(notes: &mut Vec<String>, delta_scan: i64, grows: bool, working_set: u64)
    ensures
        texts(final(notes)@) == texts(old(notes)@) + trend_notes(
            delta_scan as int,
            grows,
            working_set,
        ),
{
    let ghost first = texts(notes@);
    if delta_scan < -10 {
        notes.push("Memory returned after scan completion".to_owned());
    }
    if delta_scan > 100 {
        notes.push("Possible retained scan buffers".to_owned());
    }
    if grows {
        notes.push(
            "Monotonic growth detected over last 8 captures — possible slow leak".to_owned(),
        );
    }
    if working_set > 2500 {
        notes.push("Working set >2.5GB CRITICAL — investigate immediately".to_owned());
    } else if working_set > 1500 {
        notes.push(
            "Working set >1.5GB — consider subprocess worker mode for heavy scans".to_owned(),
        );
    }
    assert(texts(notes@) =~= first + trend_notes(delta_scan as int, grows, working_set));
}

/// Take a snapshot and remember it for the next ones. The system reports sizes
/// that fit a signed number.
pub fn capture(
    clamav_loaded: bool,
    signature_count: u64,
    yara_rules: u64,
    scan_cache_entries: u64,
    active_workers: u32,
    memory: ProcessMemory,
    baselines: &mut FootprintBaselines,
) -> (snapshot: FootprintSnapshot)
    requires
        old(baselines).wf(),
        memory.working_set_mb <= i64::MAX,
        old(baselines).startup() <= i64::MAX,
        old(baselines).post_scan() <= i64::MAX,
    ensures
        final(baselines).wf(),
        final(baselines).captures() == kept(old(baselines).captures().push(memory.working_set_mb)),
        final(baselines).count() == old(baselines).count().wrapping_add(1),
        final(baselines).startup() == old(baselines).startup(),
        final(baselines).post_scan() == old(baselines).post_scan(),
        snapshot.working_set_mb == memory.working_set_mb,
        snapshot.private_bytes_mb == memory.private_bytes_mb,
        snapshot.peak_working_set_mb == memory.peak_working_set_mb,
        snapshot.clamav_loaded == clamav_loaded,
        snapshot.signature_count == signature_count,
        snapshot.yara_rules == yara_rules,
        snapshot.scan_cache_entries == scan_cache_entries,
        snapshot.active_workers == active_workers,
        snapshot.delta_since_start_mb == delta(memory.working_set_mb, old(baselines).startup()),
        snapshot.delta_since_last_scan_mb == delta(
            memory.working_set_mb,
            old(baselines).post_scan(),
        ),
        snapshot.warning_level@ == warning_word(memory.working_set_mb),
        texts(snapshot.notes@) == load_notes(
            LoadFacts {
                clamav_loaded,
                signature_count,
                yara_rules,
                scan_cache_entries,
                active_workers,
            },
            memory.working_set_mb,
        ) + trend_notes(
            delta(memory.working_set_mb, old(baselines).post_scan()),
            growing(final(baselines).captures(), 8),
            memory.working_set_mb,
        ),
{
    let facts = LoadFacts {
        clamav_loaded,
        signature_count,
        yara_rules,
        scan_cache_entries,
        active_workers,
    };
    let working_set: u64 = memory.working_set_mb;
    let mut notes = load_note_list(facts, working_set);
    let startup: u64 = baselines.startup_ws_mb;
    let post_scan: u64 = baselines.last_post_scan_ws_mb;
    let delta_start: i64 = if startup > 0 {
        working_set as i64 - startup as i64
    } else {
        0
    };
    let delta_scan: i64 = if post_scan > 0 {
        working_set as i64 - post_scan as i64
    } else {
        0
    };
    baselines.record_capture(working_set);
    let grows = baselines.is_monotonic_growth(8);
    add_trend_notes(&mut notes, delta_scan, grows, working_set);
    let warning_level = if working_set > 2500 {
        "critical"
    } else if working_set > 1500 {
        "warning"
    } else if working_set > 800 {
        "elevated"
    } else {
        "normal"
    };
    FootprintSnapshot {
        working_set_mb: working_set,
        private_bytes_mb: memory.private_bytes_mb,
        peak_working_set_mb: memory.peak_working_set_mb,
        clamav_loaded,
        signature_count,
        yara_rules,
        scan_cache_entries,
        active_workers,
        delta_since_start_mb: delta_start,
        delta_since_last_scan_mb: delta_scan,
        warning_level: warning_level.to_owned(),
        notes,
    }
}

/// Eight measured captures that never go down are growth, whatever came before.
pub proof fn steady_growth_is_seen(earlier: Seq<u64>, last: Seq<u64>)
    requires
        last.len() == 8,
        last[0] > 0,
        forall|i: int| 0 <= i < 7 ==> (#[trigger] last[i]) <= last[i + 1],
    ensures
        growing(kept(earlier + last), 8),
{
    let all = earlier + last;
    let k = kept(all);
    assert(last[1] > 0 && last[2] > 0 && last[3] > 0 && last[4] > 0 && last[5] > 0 && last[6] > 0
        && last[7] > 0);
    assert forall|i: int| k.len() - 8 <= i < k.len() - 1 implies goes_up(
        #[trigger] k[i],
        k[i + 1],
    ) by {
        let j = i - (k.len() - 8);
        assert(k[i] == last[j]);
        assert(k[i + 1] == last[j + 1]);
    }
}

/// A single drop among the last eight captures is no growth.
pub proof fn drop_is_no_growth(captures: Seq<u64>, at: int)
    requires
        captures.len() - 8 <= at < captures.len() - 1,
        0 <= at,
        captures[at] > captures[at + 1],
    ensures
        !growing(captures, 8),
{
}

/// The word for a working set rises with it: above 800, 1500 and 2500 megabytes.
pub proof fn warning_rises_with_memory(working_set: u64)
    ensures
        working_set <= 800 ==> warning_word(working_set) == "normal"@,
        800 < working_set <= 1500 ==> warning_word(working_set) == "elevated"@,
        1500 < working_set <= 2500 ==> warning_word(working_set) == "warning"@,
        working_set > 2500 ==> warning_word(working_set) == "critical"@,
{
}

/// Growth is what the working set has gained over its baseline, and none where there
/// is no baseline.
pub proof fn growth_is_over_the_baseline(working_set: u64, baseline: u64)
    ensures
        baseline == 0 ==> delta(working_set, baseline) == 0,
        baseline > 0 ==> baseline + delta(working_set, baseline) == working_set,
{
}

proof fn lemma_given(a: Seq<Seq<char>>, yes: bool, note: Seq<char>, x: Seq<char>)
    ensures
        (a + given(yes, seq![note])).contains(x) <==> a.contains(x) || (yes && x == note),
{
    let b = given(yes, seq![note]);
    let all = a + b;
    if a.contains(x) {
        let i = choose|i: int| 0 <= i < a.len() && a[i] == x;
        assert(all[i] == x);
    }
    if yes {
        assert(all[a.len() as int] == note);
    }
    if all.contains(x) {
        let i = choose|i: int| 0 <= i < all.len() && all[i] == x;
        if i < a.len() {
            assert(a[i] == x);
        }
    }
}

/// A note on the trend is made exactly where it holds: memory came back, buffers were
/// kept, captures grew, or the working set is beyond a limit.
pub proof fn trends_are_noted(delta_scan: int, grows: bool, working_set: u64, note: Seq<char>)
    ensures
        trend_notes(delta_scan, grows, working_set).contains(note) <==> {
            ||| delta_scan < -10 && note == "Memory returned after scan completion"@
            ||| delta_scan > 100 && note == "Possible retained scan buffers"@
            ||| grows && note
                == "Monotonic growth detected over last 8 captures — possible slow leak"@
            ||| working_set > 2500 && note
                == "Working set >2.5GB CRITICAL — investigate immediately"@
            ||| 1500 < working_set <= 2500 && note
                == "Working set >1.5GB — consider subprocess worker mode for heavy scans"@
        },
{
    let a = given(delta_scan < -10, seq!["Memory returned after scan completion"@]);
    let b = a + given(delta_scan > 100, seq!["Possible retained scan buffers"@]);
    let c = b + given(
        grows,
        seq!["Monotonic growth detected over last 8 captures — possible slow leak"@],
    );
    let d = c + given(
        working_set > 2500,
        seq!["Working set >2.5GB CRITICAL — investigate immediately"@],
    );
    let none = Seq::<Seq<char>>::empty();
    assert(none + a =~= a);
    lemma_given(none, delta_scan < -10, "Memory returned after scan completion"@, note);
    lemma_given(a, delta_scan > 100, "Possible retained scan buffers"@, note);
    lemma_given(
        b,
        grows,
        "Monotonic growth detected over last 8 captures — possible slow leak"@,
        note,
    );
    lemma_given(
        c,
        working_set > 2500,
        "Working set >2.5GB CRITICAL — investigate immediately"@,
        note,
    );
    lemma_given(
        d,
        1500 < working_set <= 2500,
        "Working set >1.5GB — consider subprocess worker mode for heavy scans"@,
        note,
    );
}

/// A note on the load is made exactly where it holds, with the numbers that it is
/// about.
pub proof fn loads_are_noted(f: LoadFacts, working_set: u64, note: Seq<char>)
    ensures
        ({
            let sig_mb = f.signature_count / 10_000;
            let signed = f.clamav_loaded && f.signature_count > 0;
            load_notes(f, working_set).contains(note) <==> {
                ||| signed && note == "ClamAV: ~"@ + decimal(sig_mb as nat)
                    + "MB estimated for "@ + decimal(f.signature_count as nat) + " signatures"@
                ||| signed && working_set > 0 && sig_mb > working_set / 2 && note
                    == "Large working set likely caused by ClamAV signatures"@
                ||| f.yara_rules > 0 && note == "YARA-X: "@ + decimal(f.yara_rules as nat)
                    + " rules (wasmtime JIT contributes ~50-150MB)"@
                ||| f.yara_rules > 200 && note == "High YARA rule footprint"@
                ||| f.active_workers > 4 && note == "Worker count ("@ + decimal(
                    f.active_workers as nat,
                ) + ") exceeds default concurrency (4)"@
                ||| f.scan_cache_entries > 40_000 && note == "Scan cache large: "@ + decimal(
                    f.scan_cache_entries as nat,
                ) + " entries"@
            }
        }),
{
    let sig_mb = f.signature_count / 10_000;
    let signed = f.clamav_loaded && f.signature_count > 0;
    let n1 = "ClamAV: ~"@ + decimal(sig_mb as nat) + "MB estimated for "@ + decimal(
        f.signature_count as nat,
    ) + " signatures"@;
    let n2 = "Large working set likely caused by ClamAV signatures"@;
    let n3 = "YARA-X: "@ + decimal(f.yara_rules as nat)
        + " rules (wasmtime JIT contributes ~50-150MB)"@;
    let n4 = "High YARA rule footprint"@;
    let n5 = "Worker count ("@ + decimal(f.active_workers as nat)
        + ") exceeds default concurrency (4)"@;
    let n6 = "Scan cache large: "@ + decimal(f.scan_cache_entries as nat) + " entries"@;
    let large = signed && working_set > 0 && sig_mb > working_set / 2;
    let a = given(signed, seq![n1]);
    let b = a + given(large, seq![n2]);
    let c = b + given(f.yara_rules > 0, seq![n3]);
    let d = c + given(f.yara_rules > 200, seq![n4]);
    let e = d + given(f.active_workers > 4, seq![n5]);
    let none = Seq::<Seq<char>>::empty();
    assert(none + a =~= a);
    lemma_given(none, signed, n1, note);
    lemma_given(a, large, n2, note);
    lemma_given(b, f.yara_rules > 0, n3, note);
    lemma_given(c, f.yara_rules > 200, n4, note);
    lemma_given(d, f.active_workers > 4, n5, note);
    lemma_given(e, f.scan_cache_entries > 40_000, n6, note);
}

/// The latest sixteen captures are kept.
pub proof fn latest_captures_are_kept(captures: Seq<u64>, i: int)
    ensures
        captures.len() <= 16 ==> kept(captures) == captures,
        captures.len() > 16 ==> kept(captures).len() == 16,
        0 <= i < kept(captures).len() ==> kept(captures)[kept(captures).len() - 1 - i]
            == captures[captures.len() - 1 - i],
{
}

} // verus!
