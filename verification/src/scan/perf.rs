//! Aggregate scan performance.

use super::verdict::{ScanStrategy, ScanTiming};
use vstd::multiset::Multiset;
use vstd::prelude::*;

verus! {

/// Analysis time from which a file counts as slow, in microseconds.
pub const SLOW_FILE_US: u64 = 100_000;

/// Slow files that are kept.
pub const MAX_SLOW_FILES: usize = 10;

/// A slow file and its analysis time in microseconds.
#[derive(Debug)]
pub struct SlowFile {
    pub path: String,
    pub time_us: u64,
}

/// Mathematical value of a [`SlowFile`].
pub struct Slow {
    pub path: Seq<char>,
    pub time_us: u64,
}

impl View for SlowFile {
    type V = Slow;

    open spec fn view(&self) -> Slow {
        Slow { path: self.path@, time_us: self.time_us }
    }
}

/// Aggregate scan performance summary.
#[derive(Debug)]
pub struct ScanPerformanceSummary {
    pub strategy_full: u64,
    pub strategy_light: u64,
    pub strategy_signature: u64,
    pub strategy_skip: u64,
    pub strategy_too_large: u64,
    pub total_argus_us: u64,
    pub total_yara_us: u64,
    pub total_hash_us: u64,
    pub total_clamav_us: u64,
    pub total_bytes_scanned: u64,
    pub cache_hits: u64,
    pub cache_misses: u64,
    /// Slowest files, the slowest first.
    pub slowest_files: Vec<SlowFile>,
}

/// Mathematical value of a [`ScanPerformanceSummary`].
#[verifier::ext_equal]
pub struct Perf {
    pub strategy_full: u64,
    pub strategy_light: u64,
    pub strategy_signature: u64,
    pub strategy_skip: u64,
    pub strategy_too_large: u64,
    pub total_argus_us: u64,
    pub total_yara_us: u64,
    pub total_hash_us: u64,
    pub total_clamav_us: u64,
    pub total_bytes_scanned: u64,
    pub cache_hits: u64,
    pub cache_misses: u64,
    pub slowest_files: Seq<Slow>,
}

/// The values of a list of slow files.
pub open spec fn slow_view(files: Seq<SlowFile>) -> Seq<Slow> {
    files.map_values(|f: SlowFile| f@)
}

impl View for ScanPerformanceSummary {
    type V = Perf;

    open spec fn view(&self) -> Perf {
        Perf {
            strategy_full: self.strategy_full,
            strategy_light: self.strategy_light,
            strategy_signature: self.strategy_signature,
            strategy_skip: self.strategy_skip,
            strategy_too_large: self.strategy_too_large,
            total_argus_us: self.total_argus_us,
            total_yara_us: self.total_yara_us,
            total_hash_us: self.total_hash_us,
            total_clamav_us: self.total_clamav_us,
            total_bytes_scanned: self.total_bytes_scanned,
            cache_hits: self.cache_hits,
            cache_misses: self.cache_misses,
            slowest_files: slow_view(self.slowest_files@),
        }
    }
}

/// The summary of nothing.
pub open spec fn empty_perf() -> Perf {
    Perf {
        strategy_full: 0,
        strategy_light: 0,
        strategy_signature: 0,
        strategy_skip: 0,
        strategy_too_large: 0,
        total_argus_us: 0,
        total_yara_us: 0,
        total_hash_us: 0,
        total_clamav_us: 0,
        total_bytes_scanned: 0,
        cache_hits: 0,
        cache_misses: 0,
        slowest_files: Seq::empty(),
    }
}

impl Default for ScanPerformanceSummary {
    fn default() -> (summary: Self)
        ensures
            summary@ == empty_perf(),
    {
        let summary = ScanPerformanceSummary {
            strategy_full: 0,
            strategy_light: 0,
            strategy_signature: 0,
            strategy_skip: 0,
            strategy_too_large: 0,
            total_argus_us: 0,
            total_yara_us: 0,
            total_hash_us: 0,
            total_clamav_us: 0,
            total_bytes_scanned: 0,
            cache_hits: 0,
            cache_misses: 0,
            slowest_files: Vec::new(),
        };
        assert(summary@ =~= empty_perf());
        summary
    }
}

/// The slowest first, at most [`MAX_SLOW_FILES`] of them, slow ones only.
pub open spec fn ranked(files: Seq<Slow>) -> bool {
    &&& files.len() <= MAX_SLOW_FILES
    &&& forall|i: int, j: int|
        0 <= i < j < files.len() ==> (#[trigger] files[i]).time_us >= (#[trigger] files[j]).time_us
    &&& forall|i: int| 0 <= i < files.len() ==> (#[trigger] files[i]).time_us > SLOW_FILE_US
}

/// Where a file of time `time_us` goes: behind every file that is not faster.
pub open spec fn place(files: Seq<Slow>, time_us: u64) -> int
    decreases files.len(),
{
    if files.len() == 0 {
        0
    } else if files.last().time_us >= time_us {
        files.len() as int
    } else {
        place(files.drop_last(), time_us)
    }
}

/// The ranking with one more file.
pub open spec fn with_slow(files: Seq<Slow>, file: Slow) -> Seq<Slow> {
    if file.time_us > SLOW_FILE_US {
        let more = files.insert(place(files, file.time_us), file);
        if more.len() > MAX_SLOW_FILES {
            more.take(MAX_SLOW_FILES as int)
        } else {
            more
        }
    } else {
        files
    }
}

/// The sum, or the largest number where it does not fit.
pub open spec fn capped_sum(a: u64, b: u64) -> u64 {
    if a + b > u64::MAX {
        u64::MAX
    } else {
        (a + b) as u64
    }
}

/// `n` plus one where `counted`.
pub open spec fn bump(n: u64, counted: bool) -> u64 {
    if counted {
        (n + 1) as u64
    } else {
        n
    }
}

/// The summary with one more file.
pub open spec fn with_file(p: Perf, path: Seq<char>, file_size: u64, timing: ScanTiming) -> Perf {
    Perf {
        strategy_full: bump(p.strategy_full, timing.strategy == Some(ScanStrategy::FullAnalysis)),
        strategy_light: bump(
            p.strategy_light,
            timing.strategy == Some(ScanStrategy::LightAnalysis),
        ),
        strategy_signature: bump(
            p.strategy_signature,
            timing.strategy == Some(ScanStrategy::SignatureOnly),
        ),
        strategy_skip: bump(p.strategy_skip, timing.strategy == Some(ScanStrategy::SkipSafe)),
        strategy_too_large: bump(
            p.strategy_too_large,
            timing.strategy == Some(ScanStrategy::TooLarge),
        ),
        total_argus_us: capped_sum(p.total_argus_us, timing.argus_total_us),
        total_yara_us: capped_sum(p.total_yara_us, timing.yara_us),
        total_hash_us: capped_sum(p.total_hash_us, timing.hash_us),
        total_clamav_us: capped_sum(p.total_clamav_us, timing.clamav_us),
        total_bytes_scanned: capped_sum(p.total_bytes_scanned, file_size),
        cache_hits: p.cache_hits,
        cache_misses: p.cache_misses,
        slowest_files: with_slow(
            p.slowest_files,
            Slow { path, time_us: timing.argus_total_us },
        ),
    }
}

/// Whether another file can be counted.
pub open spec fn countable(p: Perf) -> bool {
    &&& p.strategy_full < u64::MAX
    &&& p.strategy_light < u64::MAX
    &&& p.strategy_signature < u64::MAX
    &&& p.strategy_skip < u64::MAX
    &&& p.strategy_too_large < u64::MAX
}

proof fn lemma_place(files: Seq<Slow>, time_us: u64)
    ensures
        0 <= place(files, time_us) <= files.len(),
        forall|i: int| place(files, time_us) <= i < files.len() ==> (#[trigger] files[i]).time_us
            < time_us,
        place(files, time_us) > 0 ==> files[place(files, time_us) - 1].time_us >= time_us,
    decreases files.len(),
{
    if files.len() > 0 && files.last().time_us < time_us {
        let init = files.drop_last();
        lemma_place(init, time_us);
        assert forall|i: int| place(files, time_us) <= i < files.len() implies (
        #[trigger] files[i]).time_us < time_us by {
            if i < init.len() {
                assert(init[i] == files[i]);
            }
        }
    }
}

proof fn lemma_place_unique(files: Seq<Slow>, time_us: u64, at: int)
    requires
        0 <= at <= files.len(),
        forall|i: int| at <= i < files.len() ==> (#[trigger] files[i]).time_us < time_us,
        at > 0 ==> files[at - 1].time_us >= time_us,
    ensures
        at == place(files, time_us),
{
    lemma_place(files, time_us);
    let p = place(files, time_us);
    if p < at {
        assert(files[at - 1].time_us < time_us);
    }
    if at < p {
        assert(files[p - 1].time_us < time_us);
    }
}

proof fn lemma_inserted_is_ranked(files: Seq<Slow>, file: Slow)
    requires
        ranked(files),
        file.time_us > SLOW_FILE_US,
    ensures
        ({
            let more = files.insert(place(files, file.time_us), file);
            &&& forall|i: int, j: int|
                0 <= i < j < more.len() ==> (#[trigger] more[i]).time_us >= (
                #[trigger] more[j]).time_us
            &&& forall|i: int|
                0 <= i < more.len() ==> (#[trigger] more[i]).time_us > SLOW_FILE_US
        }),
{
    lemma_place(files, file.time_us);
    let at = place(files, file.time_us);
    let more = files.insert(at, file);
    assert forall|i: int, j: int| 0 <= i < j < more.len() implies (#[trigger] more[i]).time_us >= (
    #[trigger] more[j]).time_us by {
        if i < at {
            assert(more[i] == files[i]);
            if j == at {
                assert(files[at - 1].time_us >= file.time_us);
            } else if j > at {
                assert(more[j] == files[j - 1]);
            } else {
                assert(more[j] == files[j]);
            }
        } else if i == at {
            assert(more[j] == files[j - 1]);
        } else {
            assert(more[i] == files[i - 1]);
            assert(more[j] == files[j - 1]);
        }
    }
    assert forall|i: int| 0 <= i < more.len() implies (#[trigger] more[i]).time_us
        > SLOW_FILE_US by {
        if i < at {
            assert(more[i] == files[i]);
        } else if i > at {
            assert(more[i] == files[i - 1]);
        }
    }
}

/// A ranking stays one when a file is added.
pub proof fn ranking_is_kept(files: Seq<Slow>, file: Slow)
    requires
        ranked(files),
    ensures
        ranked(with_slow(files, file)),
{
    if file.time_us > SLOW_FILE_US {
        lemma_place(files, file.time_us);
        lemma_inserted_is_ranked(files, file);
    }
}

/// A file that was recorded.
pub struct Recorded {
    pub path: Seq<char>,
    pub file_size: u64,
    pub timing: ScanTiming,
}

/// A recorded file as it enters the ranking.
pub open spec fn slow_of(r: Recorded) -> Slow {
    Slow { path: r.path, time_us: r.timing.argus_total_us }
}

/// The files of a series as they enter the ranking.
pub open spec fn slows_of(series: Seq<Recorded>) -> Seq<Slow> {
    series.map_values(|r: Recorded| slow_of(r))
}

/// The summary of a series of files.
pub open spec fn summed(series: Seq<Recorded>) -> Perf
    decreases series.len(),
{
    if series.len() == 0 {
        empty_perf()
    } else {
        let r = series.last();
        with_file(summed(series.drop_last()), r.path, r.file_size, r.timing)
    }
}

/// Whether the ranking `kept` holds files of `all` and leaves out none that is
/// slower than one it holds, nor any slow one while there is room.
pub open spec fn holds_slowest(kept: Seq<Slow>, all: Multiset<Slow>) -> bool {
    let left = all.sub(kept.to_multiset());
    &&& ranked(kept)
    &&& kept.to_multiset().subset_of(all)
    &&& forall|f: Slow, i: int|
        #![trigger left.count(f), kept[i]]
        left.count(f) > 0 && 0 <= i < kept.len() ==> f.time_us <= kept[i].time_us
    &&& forall|f: Slow| #[trigger]
        left.count(f) > 0 && f.time_us > SLOW_FILE_US ==> kept.len() == MAX_SLOW_FILES
}

proof fn lemma_slowest_step(kept: Seq<Slow>, all: Multiset<Slow>, x: Slow)
    requires
        holds_slowest(kept, all),
    ensures
        holds_slowest(with_slow(kept, x), all.insert(x)),
{
    broadcast use vstd::seq_lib::group_to_multiset_ensures;

    let after = with_slow(kept, x);
    let left = all.sub(kept.to_multiset());
    let left_after = all.insert(x).sub(after.to_multiset());
    ranking_is_kept(kept, x);
    if x.time_us > SLOW_FILE_US {
        lemma_place(kept, x.time_us);
        let at = place(kept, x.time_us);
        let more = kept.insert(at, x);
        vstd::seq_lib::to_multiset_insert(kept, at, x);
        if more.len() > MAX_SLOW_FILES {
            assert(more.len() == MAX_SLOW_FILES + 1);
            let last = more.last();
            assert(after =~= more.drop_last());
            assert(more =~= after.push(last));
            assert(more.to_multiset() =~= after.to_multiset().insert(last));
            let kept_set = kept.to_multiset();
            let after_set = after.to_multiset();
            assert forall|f: Slow| #[trigger]
                after_set.count(f) <= all.insert(x).count(f) && left_after.count(f)
                    == left.insert(last).count(f) by {
                assert(kept_set.count(f) <= all.count(f));
                assert(kept_set.insert(x).count(f) == after_set.insert(last).count(f));
            }
            assert(left_after =~= left.insert(last));
            assert forall|f: Slow, i: int|
                #![trigger left_after.count(f), after[i]]
                left_after.count(f) > 0 && 0 <= i < after.len() implies f.time_us
                <= after[i].time_us by {
                lemma_inserted_is_ranked(kept, x);
                assert(after[i] == more[i]);
                assert(more[i].time_us >= more[more.len() - 1].time_us);
                if f != last {
                    assert(left.count(f) > 0);
                    assert(f.time_us <= kept[kept.len() - 1].time_us);
                    if i < at {
                        assert(more[i] == kept[i]);
                        assert(left.count(f) > 0);
                    } else if i == at {
                        assert(kept[kept.len() - 1].time_us < x.time_us);
                    } else {
                        assert(more[i] == kept[i - 1]);
                    }
                }
            }
        } else {
            assert(after == more);
            let kept_set = kept.to_multiset();
            assert forall|f: Slow| #[trigger]
                after.to_multiset().count(f) <= all.insert(x).count(f) && left_after.count(f)
                    == left.count(f) by {
                assert(kept_set.count(f) <= all.count(f));
                assert(kept_set.insert(x).count(f) == after.to_multiset().count(f));
            }
            assert(left_after =~= left);
            assert forall|f: Slow, i: int|
                #![trigger left_after.count(f), after[i]]
                left_after.count(f) > 0 && 0 <= i < after.len() implies f.time_us
                <= after[i].time_us by {
                assert(left.count(f) > 0);
                assert(after[i].time_us > SLOW_FILE_US);
            }
        }
    } else {
        assert(after == kept);
        let kept_set = kept.to_multiset();
        assert forall|f: Slow| #[trigger]
            kept_set.count(f) <= all.insert(x).count(f) && left_after.count(f) == left.insert(
                x,
            ).count(f) by {
            assert(kept_set.count(f) <= all.count(f));
        }
        assert(left_after =~= left.insert(x));
        assert forall|f: Slow, i: int|
            #![trigger left_after.count(f), after[i]]
            left_after.count(f) > 0 && 0 <= i < after.len() implies f.time_us <= after[i].time_us by {
            if f != x {
                assert(left.count(f) > 0);
                assert(f.time_us <= kept[i].time_us);
            }
        }
        assert forall|f: Slow| #[trigger]
            left_after.count(f) > 0 && f.time_us > SLOW_FILE_US implies after.len()
            == MAX_SLOW_FILES by {
            assert(f != x);
            assert(left.count(f) > 0);
        }
    }
}

/// After any series of files the ten slowest are kept: each time that is left out
/// is at most each time that is kept, and a slow file is left out only for want of
/// room.
pub proof fn ten_slowest_are_kept(series: Seq<Recorded>)
    ensures
        holds_slowest(summed(series).slowest_files, slows_of(series).to_multiset()),
    decreases series.len(),
{
    broadcast use vstd::seq_lib::group_to_multiset_ensures;

    if series.len() == 0 {
        assert(slows_of(series) =~= Seq::<Slow>::empty());
    } else {
        let before = series.drop_last();
        ten_slowest_are_kept(before);
        let x = slow_of(series.last());
        assert(slows_of(series) =~= slows_of(before).push(x));
        lemma_slowest_step(summed(before).slowest_files, slows_of(before).to_multiset(), x);
    }
}

/// How many files of a series were scanned by a strategy.
pub open spec fn times_used(series: Seq<Recorded>, strategy: ScanStrategy) -> nat
    decreases series.len(),
{
    if series.len() == 0 {
        0
    } else {
        times_used(series.drop_last(), strategy) + (if series.last().timing.strategy == Some(
            strategy,
        ) {
            1nat
        } else {
            0
        })
    }
}

/// A quantity of each file, summed over a series.
pub open spec fn sum_over(series: Seq<Recorded>, quantity: spec_fn(Recorded) -> u64) -> nat
    decreases series.len(),
{
    if series.len() == 0 {
        0
    } else {
        sum_over(series.drop_last(), quantity) + quantity(series.last()) as nat
    }
}

/// A sum as far as 64 bits go.
pub open spec fn capped(n: nat) -> u64 {
    if n > u64::MAX {
        u64::MAX
    } else {
        n as u64
    }
}

/// The summary of any series of files says of each strategy how many files it was
/// used on, of each quantity its sum as far as 64 bits go, and holds the ten slowest
/// files. It tells of no hit or miss of the cache.
pub proof fn summary_accounts_for_series(series: Seq<Recorded>)
    requires
        series.len() <= u64::MAX,
    ensures
        ({
            let p = summed(series);
            &&& p.strategy_full == times_used(series, ScanStrategy::FullAnalysis)
            &&& p.strategy_light == times_used(series, ScanStrategy::LightAnalysis)
            &&& p.strategy_signature == times_used(series, ScanStrategy::SignatureOnly)
            &&& p.strategy_skip == times_used(series, ScanStrategy::SkipSafe)
            &&& p.strategy_too_large == times_used(series, ScanStrategy::TooLarge)
            &&& p.total_argus_us == capped(
                sum_over(series, |r: Recorded| r.timing.argus_total_us),
            )
            &&& p.total_yara_us == capped(sum_over(series, |r: Recorded| r.timing.yara_us))
            &&& p.total_hash_us == capped(sum_over(series, |r: Recorded| r.timing.hash_us))
            &&& p.total_clamav_us == capped(sum_over(series, |r: Recorded| r.timing.clamav_us))
            &&& p.total_bytes_scanned == capped(sum_over(series, |r: Recorded| r.file_size))
            &&& p.cache_hits == 0
            &&& p.cache_misses == 0
            &&& holds_slowest(p.slowest_files, slows_of(series).to_multiset())
        }),
    decreases series.len(),
{
    ten_slowest_are_kept(series);
    lemma_used_at_most(series);
    if series.len() > 0 {
        summary_accounts_for_series(series.drop_last());
    }
}

proof fn lemma_used_at_most(series: Seq<Recorded>)
    ensures
        forall|s: ScanStrategy| #[trigger] times_used(series, s) <= series.len(),
    decreases series.len(),
{
    if series.len() > 0 {
        lemma_used_at_most(series.drop_last());
        assert forall|s: ScanStrategy| #[trigger] times_used(series, s) <= series.len() by {
            assert(times_used(series.drop_last(), s) <= series.drop_last().len());
        }
    }
}

/// Short of as many files as 64 bits can count, another one can always be counted.
pub proof fn another_file_can_be_counted(series: Seq<Recorded>)
    requires
        series.len() < u64::MAX,
    ensures
        countable(summed(series)),
{
    summary_accounts_for_series(series);
    lemma_used_at_most(series);
}

/// A file that is not slow leaves the ranking as it is.
pub proof fn fast_file_leaves_the_ranking(
    p: Perf,
    path: Seq<char>,
    file_size: u64,
    timing: ScanTiming,
)
    requires
        timing.argus_total_us <= SLOW_FILE_US,
    ensures
        with_file(p, path, file_size, timing).slowest_files == p.slowest_files,
{
}

/// A file without a strategy counts under none.
pub proof fn file_without_strategy_counts_nowhere(
    p: Perf,
    path: Seq<char>,
    file_size: u64,
    timing: ScanTiming,
)
    requires
        timing.strategy is None,
    ensures
        ({
            let q = with_file(p, path, file_size, timing);
            &&& q.strategy_full == p.strategy_full
            &&& q.strategy_light == p.strategy_light
            &&& q.strategy_signature == p.strategy_signature
            &&& q.strategy_skip == p.strategy_skip
            &&& q.strategy_too_large == p.strategy_too_large
        }),
{
}

/// Adding a file counts it once, under its own strategy.
pub proof fn file_is_counted_once(p: Perf, path: Seq<char>, file_size: u64, timing: ScanTiming)
    requires
        countable(p),
        timing.strategy is Some,
    ensures
        ({
            let q = with_file(p, path, file_size, timing);
            q.strategy_full + q.strategy_light + q.strategy_signature + q.strategy_skip
                + q.strategy_too_large == p.strategy_full + p.strategy_light + p.strategy_signature
                + p.strategy_skip + p.strategy_too_large + 1
        }),
{
    match timing.strategy->0 {
        ScanStrategy::FullAnalysis => {},
        ScanStrategy::LightAnalysis => {},
        ScanStrategy::SignatureOnly => {},
        ScanStrategy::SkipSafe => {},
        ScanStrategy::TooLarge => {},
    }
}

impl ScanPerformanceSummary {
    /// Whether one more file can be counted.
    pub fn can_count(&self) -> (yes: bool)
        ensures
            yes == countable(self@),
    {
        self.strategy_full < u64::MAX && self.strategy_light < u64::MAX && self.strategy_signature
            < u64::MAX && self.strategy_skip < u64::MAX && self.strategy_too_large < u64::MAX
    }

    pub open spec fn wf(&self) -> bool {
        ranked(self@.slowest_files)
    }

    /// Account for one file.
    pub fn record_file(&mut self, path: &str, file_size: u64, timing: &ScanTiming)
        requires
            old(self).wf(),
            countable(old(self)@),
        ensures
            final(self).wf(),
            final(self)@ == with_file(old(self)@, path@, file_size, *timing),
    {
        let ghost before = self@;
        match timing.strategy {
            Some(ScanStrategy::FullAnalysis) => {
                self.strategy_full = self.strategy_full + 1;
            },
            Some(ScanStrategy::LightAnalysis) => {
                self.strategy_light = self.strategy_light + 1;
            },
            Some(ScanStrategy::SignatureOnly) => {
                self.strategy_signature = self.strategy_signature + 1;
            },
            Some(ScanStrategy::SkipSafe) => {
                self.strategy_skip = self.strategy_skip + 1;
            },
            Some(ScanStrategy::TooLarge) => {
                self.strategy_too_large = self.strategy_too_large + 1;
            },
            None => {},
        }
        self.total_argus_us = self.total_argus_us.saturating_add(timing.argus_total_us);
        self.total_yara_us = self.total_yara_us.saturating_add(timing.yara_us);
        self.total_hash_us = self.total_hash_us.saturating_add(timing.hash_us);
        self.total_clamav_us = self.total_clamav_us.saturating_add(timing.clamav_us);
        self.total_bytes_scanned = self.total_bytes_scanned.saturating_add(file_size);
        let time_us: u64 = timing.argus_total_us;
        let ghost added = Slow { path: path@, time_us };
        proof {
            ranking_is_kept(before.slowest_files, added);
        }
        if time_us > SLOW_FILE_US {
            let mut at: usize = self.slowest_files.len();
            let ghost files = before.slowest_files;
            let ghost n = files.len() as int;
            while at > 0 && self.slowest_files[at - 1].time_us < time_us
                invariant
                    at <= self.slowest_files@.len(),
                    files == slow_view(self.slowest_files@),
                    n == files.len(),
                    forall|i: int| at <= i < n ==> (#[trigger] files[i]).time_us < time_us,
                decreases at,
            {
                assert(files[at - 1] == self.slowest_files@[at - 1]@);
                at = at - 1;
            }
            proof {
                if at > 0 {
                    assert(files[at - 1] == self.slowest_files@[at - 1]@);
                }
                lemma_place_unique(files, time_us, at as int);
            }
            let file = SlowFile { path: path.to_owned(), time_us };
            self.slowest_files.insert(at, file);
            assert(slow_view(self.slowest_files@) =~= files.insert(at as int, added));
            if self.slowest_files.len() > MAX_SLOW_FILES {
                let ghost more = self.slowest_files@;
                self.slowest_files.truncate(MAX_SLOW_FILES);
                assert(slow_view(self.slowest_files@) =~= slow_view(more).take(
                    MAX_SLOW_FILES as int,
                ));
            }
        }
        assert(self@.slowest_files =~= with_slow(before.slowest_files, added));
        assert(self@ =~= with_file(before, path@, file_size, *timing));
    }
}

/// A file is slow where its analysis takes more than a tenth of a second, and ten of
/// the slow ones are kept.
pub proof fn slow_files_have_their_limits(files: Seq<Slow>, file: Slow)
    requires
        ranked(files),
    ensures
        file.time_us <= 100_000 ==> with_slow(files, file) == files,
        file.time_us > 100_000 && files.len() < 10 ==> with_slow(files, file).len() == files.len()
            + 1,
        with_slow(files, file).len() <= 10,
{
    ranking_is_kept(files, file);
    lemma_place(files, file.time_us);
}

} // verus!
