//! The decisions of the startup: where things are and what is started.

use crate::scan::job::ActivityEvent;
use crate::text::{owned_view, same, text_view, trim, trimmed};
use crate::watch::Place;
use vstd::prelude::*;

verus! {

/// Size above which the log file is put aside, in bytes.
pub const LOG_LIMIT: u64 = 10_485_760;

/// Whether the log file is put aside before a new one is begun.
pub open spec fn log_is_full(size: Option<u64>) -> bool {
    size matches Some(n) && n > LOG_LIMIT
}

pub fn log_needs_rotation(size: Option<u64>) -> (yes: bool)
    ensures
        yes == log_is_full(size),
        yes == (size matches Some(n) && n > LOG_LIMIT),
{
    match size {
        Some(n) => n > LOG_LIMIT,
        None => false,
    }
}

/// What is logged at this level: the chatter of some libraries is left out.
pub fn log_filter(level: &str) -> (filter: String)
    ensures
        filter@ == level@
            + ",walrus=warn,wasmtime=warn,wasmtime_internal_cranelift=warn,cranelift_codegen=warn,regalloc2=warn,goblin=warn"@,
{
    let mut filter = level.to_owned();
    filter.append(
        ",walrus=warn,wasmtime=warn,wasmtime_internal_cranelift=warn,cranelift_codegen=warn,regalloc2=warn,goblin=warn",
    );
    filter
}

/// The first of the places that is there.
pub open spec fn first_present(places: Seq<Place>) -> Option<Seq<char>>
    decreases places.len(),
{
    if places.len() == 0 {
        None
    } else if places[0].present {
        Some(places[0].path@)
    } else {
        first_present(places.subrange(1, places.len() as int))
    }
}

/// A directory: the given one, else the first candidate that is there.
pub open spec fn chosen(given: Option<Seq<char>>, candidates: Seq<Place>) -> Option<Seq<char>> {
    match given {
        Some(d) => Some(d),
        None => first_present(candidates),
    }
}

pub fn choose_directory(given: Option<&str>, candidates: &Vec<Place>) -> (directory: Option<String>)
    ensures
        owned_view(directory) == chosen(text_view(given), candidates@),
        owned_view(directory) == match text_view(given) {
            Some(d) => Some(d),
            None => first_present(candidates@),
        },
{
    if let Some(d) = given {
        return Some(d.to_owned());
    }
    let mut i: usize = 0;
    assert(candidates@.subrange(0, candidates@.len() as int) =~= candidates@);
    while i < candidates.len()
        invariant
            given is None,
            i <= candidates@.len(),
            first_present(candidates@) == first_present(
                candidates@.subrange(i as int, candidates@.len() as int),
            ),
        decreases candidates@.len() - i,
    {
        let ghost rest = candidates@.subrange(i as int, candidates@.len() as int);
        assert(rest[0] == candidates@[i as int]);
        if candidates[i].present {
            return Some(candidates[i].path.clone());
        }
        assert(rest.subrange(1, rest.len() as int) =~= candidates@.subrange(
            i + 1,
            candidates@.len() as int,
        ));
        i = i + 1;
    }
    None
}

/// What is started. The watcher always is.
#[derive(Debug, Clone, Copy, PartialEq, Eq, Structural)]
pub struct StartupPlan {
    pub critical_scan: bool,
    pub idle_scanner: bool,
    pub powershell_bridge: bool,
    pub scheduler: bool,
}

/// What is started. In audit mode nothing but the watcher is.
pub open spec fn startup_plan(
    audit_mode: bool,
    critical_scan: bool,
    powershell_bridge: bool,
) -> StartupPlan {
    StartupPlan {
        critical_scan: !audit_mode && critical_scan,
        idle_scanner: !audit_mode,
        powershell_bridge: !audit_mode && powershell_bridge,
        scheduler: !audit_mode,
    }
}

/// Decide what is started. In audit mode nothing but the watcher is.
pub fn plan_startup(audit_mode: bool, critical_scan: bool, powershell_bridge: bool) -> (plan:
    StartupPlan)
    ensures
        plan == startup_plan(audit_mode, critical_scan, powershell_bridge),
        plan == (StartupPlan {
            critical_scan: !audit_mode && critical_scan,
            idle_scanner: !audit_mode,
            powershell_bridge: !audit_mode && powershell_bridge,
            scheduler: !audit_mode,
        }),
{
    StartupPlan {
        critical_scan: !audit_mode && critical_scan,
        idle_scanner: !audit_mode,
        powershell_bridge: !audit_mode && powershell_bridge,
        scheduler: !audit_mode,
    }
}

/// Whether the configuration asks for the signature engine in a process of its
/// own.
pub open spec fn asks_for_process(setting: Seq<char>) -> bool {
    setting == "subprocess"@
}

pub fn wants_isolation(setting: &str) -> (yes: bool)
    ensures
        yes == asks_for_process(setting@),
        yes == (setting@ == "subprocess"@),
{
    same(setting, "subprocess")
}

/// The program that runs the benchmark: the configured helper, or the one that
/// lies beside the daemon.
pub open spec fn benchmark_program(configured: Seq<char>) -> Seq<char> {
    if trimmed(configured).len() == 0 {
        "argusd.exe"@
    } else {
        configured
    }
}

pub fn benchmark_worker(configured: &str) -> (program: String)
    ensures
        program@ == benchmark_program(configured@),
        program@ == if trimmed(configured@).len() == 0 {
            "argusd.exe"@
        } else {
            configured@
        },
{
    if trim(configured).as_str().unicode_len() == 0 {
        "argusd.exe".to_owned()
    } else {
        configured.to_owned()
    }
}

/// The entry on a shutdown.
pub fn shutdown_event() -> (event: ActivityEvent)
    ensures
        event@ == (ActivityEvent {
            severity: "info"@,
            category: "system"@,
            title: "Daemon shutting down"@,
            message: "Graceful shutdown"@,
            scan_id: None,
        }),
{
    ActivityEvent::general(
        "info",
        "system",
        "Daemon shutting down".to_owned(),
        "Graceful shutdown",
    )
}

/// The log is put aside once it is larger than ten megabytes, and not where there is
/// none.
pub proof fn large_logs_are_put_aside(size: Option<u64>)
    ensures
        size is None ==> !log_is_full(size),
        size matches Some(n) ==> (log_is_full(size) <==> n > 10 * 1024 * 1024),
{
}

proof fn lemma_first_present(places: Seq<Place>, i: int)
    requires
        0 <= i < places.len(),
        places[i].present,
        forall|k: int| 0 <= k < i ==> !(#[trigger] places[k]).present,
    ensures
        first_present(places) == Some(places[i].path@),
    decreases places.len(),
{
    if i > 0 {
        assert(!places[0].present);
        let rest = places.subrange(1, places.len() as int);
        assert(rest[i - 1] == places[i]);
        assert forall|k: int| 0 <= k < i - 1 implies !(#[trigger] rest[k]).present by {
            assert(rest[k] == places[k + 1]);
        }
        lemma_first_present(rest, i - 1);
    }
}

proof fn lemma_none_present(places: Seq<Place>)
    requires
        forall|k: int| 0 <= k < places.len() ==> !(#[trigger] places[k]).present,
    ensures
        first_present(places) is None,
    decreases places.len(),
{
    if places.len() > 0 {
        assert(!places[0].present);
        let rest = places.subrange(1, places.len() as int);
        assert forall|k: int| 0 <= k < rest.len() implies !(#[trigger] rest[k]).present by {
            assert(rest[k] == places[k + 1]);
        }
        lemma_none_present(rest);
    }
}

/// A directory that is given is taken; else the first candidate that is there, and
/// none where none is.
pub proof fn given_directory_wins(
    given: Option<Seq<char>>,
    candidates: Seq<Place>,
    i: int,
)
    ensures
        given is Some ==> chosen(given, candidates) == given,
        given is None && 0 <= i < candidates.len() && candidates[i].present && (forall|k: int|
            0 <= k < i ==> !(#[trigger] candidates[k]).present) ==> chosen(given, candidates)
            == Some(candidates[i].path@),
        given is None && (forall|k: int|
            0 <= k < candidates.len() ==> !(#[trigger] candidates[k]).present) ==> chosen(
            given,
            candidates,
        ) is None,
{
    if 0 <= i < candidates.len() && candidates[i].present && (forall|k: int|
        0 <= k < i ==> !(#[trigger] candidates[k]).present) {
        lemma_first_present(candidates, i);
    }
    if forall|k: int| 0 <= k < candidates.len() ==> !(#[trigger] candidates[k]).present {
        lemma_none_present(candidates);
    }
}

/// In audit mode nothing but the watcher is started; else the scanner and the
/// scheduler always are, and the rest where it is asked for.
pub proof fn audit_mode_starts_nothing(
    audit_mode: bool,
    critical_scan: bool,
    powershell_bridge: bool,
)
    ensures
        ({
            let plan = startup_plan(audit_mode, critical_scan, powershell_bridge);
            &&& audit_mode ==> !plan.critical_scan && !plan.idle_scanner
                && !plan.powershell_bridge && !plan.scheduler
            &&& !audit_mode ==> plan.critical_scan == critical_scan && plan.idle_scanner
                && plan.powershell_bridge == powershell_bridge && plan.scheduler
        }),
{
}

/// The configured helper runs the benchmark, unless none is.
pub proof fn configured_helper_runs_the_benchmark(configured: Seq<char>)
    ensures
        trimmed(configured).len() > 0 ==> benchmark_program(configured) == configured,
        trimmed(configured).len() == 0 ==> benchmark_program(configured) == "argusd.exe"@,
{
}

/// One word asks for a process of its own, and no other does.
pub proof fn one_word_asks_for_a_process(setting: Seq<char>)
    ensures
        asks_for_process("subprocess"@),
        setting != "subprocess"@ ==> !asks_for_process(setting),
{
}

} // verus!
