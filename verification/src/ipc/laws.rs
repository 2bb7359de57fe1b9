//! Laws that tie the method registry to the dispatcher.

use super::dispatch::{auth_message, challengeable, secret_refusal, Fields};
use super::policy::{
    action_methods, dangerous_methods, mutation_methods, policy_in, policy_of, quarantine_methods,
    query_methods, registered, settings_methods, status_methods, MethodClass, MethodEntry,
    MethodPolicy,
};
use vstd::prelude::*;

verus! {

/// Whether a class demands a challenge token.
pub open spec fn demands_challenge(class: MethodClass) -> bool {
    class is PrivilegedMutation || class is DangerousOperation
}

/// Whether a line of the registry demands a challenge token exactly where one
/// can be issued for its method.
pub open spec fn guarded(e: MethodEntry) -> bool {
    demands_challenge(e.policy.class) <==> challengeable(e.name@)
}

proof fn lemma_challenge_names()
    ensures
        "engine.reload"@.len() == 13,
        "argus.reload"@.len() == 12,
        "settings.set"@.len() == 12,
        "settings.set_full"@.len() == 17,
        "sources.set"@.len() == 11,
        "sources.update"@.len() == 14,
        "sources.rollback"@.len() == 16,
        "protection.set_critical"@.len() == 23,
        "protection.disable"@.len() == 18,
        "protection.enable"@.len() == 17,
        "quarantine.add"@.len() == 14,
        "quarantine.restore"@.len() == 18,
        "quarantine.restore_as"@.len() == 21,
        "quarantine.delete"@.len() == 17,
{
    reveal_strlit("engine.reload");
    reveal_strlit("argus.reload");
    reveal_strlit("settings.set");
    reveal_strlit("settings.set_full");
    reveal_strlit("sources.set");
    reveal_strlit("sources.update");
    reveal_strlit("sources.rollback");
    reveal_strlit("protection.set_critical");
    reveal_strlit("protection.disable");
    reveal_strlit("protection.enable");
    reveal_strlit("quarantine.add");
    reveal_strlit("quarantine.restore");
    reveal_strlit("quarantine.restore_as");
    reveal_strlit("quarantine.delete");
}

proof fn lemma_status_methods()
    ensures
        forall|i: int| 0 <= i < status_methods().len() ==> guarded(#[trigger] status_methods()[i]),
{
    lemma_challenge_names();
    reveal_strlit("argus.version");
    reveal_strlit("engine.reload");
    reveal_strlit("engine.status");
    reveal_strlit("health");
    reveal_strlit("idle_scanner.status");
    reveal_strlit("protection.disable");
    reveal_strlit("quarantine.add");
    reveal_strlit("quarantine.restore");
    reveal_strlit("scan.status");
    reveal_strlit("security.challenge");
    reveal_strlit("sources.set");
    reveal_strlit("sources.update");
    reveal_strlit("update.status");
    reveal_strlit("watcher.status");
    reveal_strlit("webprotection.status");
    assert("engine.status"@[7] != "engine.reload"@[7]);
    assert("scan.status"@[1] != "sources.set"@[1]);
    assert("watcher.status"@[0] != "sources.update"@[0]);
    assert("watcher.status"@[0] != "quarantine.add"@[0]);
    assert("update.status"@[0] != "engine.reload"@[0]);
    assert("argus.version"@[0] != "engine.reload"@[0]);
    assert("security.challenge"@[0] != "protection.disable"@[0]);
    assert("security.challenge"@[0] != "quarantine.restore"@[0]);
    assert(guarded(status_methods()[0]));
    assert(guarded(status_methods()[1]));
    assert(guarded(status_methods()[2]));
    assert(guarded(status_methods()[3]));
    assert(guarded(status_methods()[4]));
    assert(guarded(status_methods()[5]));
    assert(guarded(status_methods()[6]));
    assert(guarded(status_methods()[7]));
    assert(guarded(status_methods()[8]));
}

proof fn lemma_query_methods()
    ensures
        forall|i: int| 0 <= i < query_methods().len() ==> guarded(#[trigger] query_methods()[i]),
{
    lemma_challenge_names();
    reveal_strlit("activity.list");
    reveal_strlit("argus.reload");
    reveal_strlit("detections.list");
    reveal_strlit("engine.reload");
    reveal_strlit("quarantine.add");
    reveal_strlit("quarantine.list");
    reveal_strlit("runtime.status");
    reveal_strlit("scan.history");
    reveal_strlit("settings.set");
    reveal_strlit("sources.list");
    reveal_strlit("sources.status");
    reveal_strlit("sources.update");
    reveal_strlit("stats.runtime");
    reveal_strlit("trust.status");
    assert("scan.history"@[0] != "argus.reload"@[0]);
    assert("scan.history"@[1] != "settings.set"@[1]);
    assert("activity.list"@[0] != "engine.reload"@[0]);
    assert("stats.runtime"@[0] != "engine.reload"@[0]);
    assert("runtime.status"@[0] != "sources.update"@[0]);
    assert("runtime.status"@[0] != "quarantine.add"@[0]);
    assert("trust.status"@[0] != "argus.reload"@[0]);
    assert("trust.status"@[0] != "settings.set"@[0]);
    assert("sources.status"@[8] != "sources.update"@[8]);
    assert("sources.status"@[0] != "quarantine.add"@[0]);
    assert("sources.list"@[0] != "argus.reload"@[0]);
    assert("sources.list"@[1] != "settings.set"@[1]);
    assert(guarded(query_methods()[0]));
    assert(guarded(query_methods()[1]));
    assert(guarded(query_methods()[2]));
    assert(guarded(query_methods()[3]));
    assert(guarded(query_methods()[4]));
    assert(guarded(query_methods()[5]));
    assert(guarded(query_methods()[6]));
    assert(guarded(query_methods()[7]));
    assert(guarded(query_methods()[8]));
}

proof fn lemma_settings_methods()
    ensures
        forall|i: int| 0 <= i < settings_methods().len() ==> guarded(#[trigger] settings_methods()[i]),
{
    lemma_challenge_names();
    reveal_strlit("argus.packs");
    reveal_strlit("argus.reload");
    reveal_strlit("argus.verdicts");
    reveal_strlit("dev.status");
    reveal_strlit("memory.list_processes");
    reveal_strlit("protection.enable");
    reveal_strlit("quarantine.add");
    reveal_strlit("quarantine.delete");
    reveal_strlit("quarantine.restore_as");
    reveal_strlit("settings.get");
    reveal_strlit("settings.get_defaults");
    reveal_strlit("settings.get_full");
    reveal_strlit("settings.restart_requirements");
    reveal_strlit("settings.set");
    reveal_strlit("settings.set_full");
    reveal_strlit("sources.set");
    reveal_strlit("sources.update");
    reveal_strlit("system.fullscreen_report");
    assert("argus.packs"@[0] != "sources.set"@[0]);
    assert("argus.verdicts"@[0] != "sources.update"@[0]);
    assert("argus.verdicts"@[0] != "quarantine.add"@[0]);
    assert("memory.list_processes"@[0] != "quarantine.restore_as"@[0]);
    assert("settings.get"@[0] != "argus.reload"@[0]);
    assert("settings.get"@[9] != "settings.set"@[9]);
    assert("settings.get_full"@[9] != "settings.set_full"@[9]);
    assert("settings.get_full"@[0] != "protection.enable"@[0]);
    assert("settings.get_full"@[0] != "quarantine.delete"@[0]);
    assert("settings.get_defaults"@[0] != "quarantine.restore_as"@[0]);
    assert(guarded(settings_methods()[0]));
    assert(guarded(settings_methods()[1]));
    assert(guarded(settings_methods()[2]));
    assert(guarded(settings_methods()[3]));
    assert(guarded(settings_methods()[4]));
    assert(guarded(settings_methods()[5]));
    assert(guarded(settings_methods()[6]));
    assert(guarded(settings_methods()[7]));
    assert(guarded(settings_methods()[8]));
}

proof fn lemma_action_methods()
    ensures
        forall|i: int| 0 <= i < action_methods().len() ==> guarded(#[trigger] action_methods()[i]),
{
    lemma_challenge_names();
    reveal_strlit("activity.log");
    reveal_strlit("argus.analyze");
    reveal_strlit("argus.reload");
    reveal_strlit("engine.reload");
    reveal_strlit("memory.scan_process");
    reveal_strlit("runtime.scan_buffer");
    reveal_strlit("scan.cancel");
    reveal_strlit("scan.start");
    reveal_strlit("settings.set");
    reveal_strlit("sources.set");
    reveal_strlit("update.start");
    assert("scan.cancel"@[1] != "sources.set"@[1]);
    assert("update.start"@[0] != "argus.reload"@[0]);
    assert("update.start"@[0] != "settings.set"@[0]);
    assert("activity.log"@[1] != "argus.reload"@[1]);
    assert("activity.log"@[0] != "settings.set"@[0]);
    assert("argus.analyze"@[0] != "engine.reload"@[0]);
    assert(guarded(action_methods()[0]));
    assert(guarded(action_methods()[1]));
    assert(guarded(action_methods()[2]));
    assert(guarded(action_methods()[3]));
    assert(guarded(action_methods()[4]));
    assert(guarded(action_methods()[5]));
    assert(guarded(action_methods()[6]));
    assert(guarded(action_methods()[7]));
}

proof fn lemma_quarantine_methods()
    ensures
        forall|i: int| 0 <= i < quarantine_methods().len() ==> guarded(#[trigger] quarantine_methods()[i]),
{
    lemma_challenge_names();
    reveal_strlit("benchmark.run");
    reveal_strlit("calibration.report_safe");
    reveal_strlit("dev.set_developer_mode");
    reveal_strlit("diagnostics.export");
    reveal_strlit("engine.reload");
    reveal_strlit("protection.disable");
    reveal_strlit("protection.set_critical");
    reveal_strlit("quarantine.restore");
    assert("calibration.report_safe"@[0] != "protection.set_critical"@[0]);
    assert("diagnostics.export"@[0] != "protection.disable"@[0]);
    assert("diagnostics.export"@[0] != "quarantine.restore"@[0]);
    assert("benchmark.run"@[0] != "engine.reload"@[0]);
    assert(guarded(quarantine_methods()[0]));
    assert(guarded(quarantine_methods()[1]));
    assert(guarded(quarantine_methods()[2]));
    assert(guarded(quarantine_methods()[3]));
    assert(guarded(quarantine_methods()[4]));
}

proof fn lemma_mutation_methods()
    ensures
        forall|i: int| 0 <= i < mutation_methods().len() ==> guarded(#[trigger] mutation_methods()[i]),
{
    lemma_challenge_names();
    assert(guarded(mutation_methods()[0]));
    assert(guarded(mutation_methods()[1]));
    assert(guarded(mutation_methods()[2]));
    assert(guarded(mutation_methods()[3]));
    assert(guarded(mutation_methods()[4]));
    assert(guarded(mutation_methods()[5]));
    assert(guarded(mutation_methods()[6]));
    assert(guarded(mutation_methods()[7]));
    assert(guarded(mutation_methods()[8]));
}

proof fn lemma_dangerous_methods()
    ensures
        forall|i: int| 0 <= i < dangerous_methods().len() ==> guarded(#[trigger] dangerous_methods()[i]),
{
    lemma_challenge_names();
    assert(guarded(dangerous_methods()[0]));
    assert(guarded(dangerous_methods()[1]));
    assert(guarded(dangerous_methods()[2]));
}

proof fn lemma_first_line(entries: Seq<MethodEntry>, method: Seq<char>)
    ensures
        match policy_in(entries, method) {
            Some(policy) => exists|i: int|
                0 <= i < entries.len() && (#[trigger] entries[i]).name@ == method
                    && entries[i].policy == policy,
            None => forall|i: int|
                0 <= i < entries.len() ==> (#[trigger] entries[i]).name@ != method,
        },
    decreases entries.len(),
{
    if entries.len() > 0 {
        let rest = entries.subrange(1, entries.len() as int);
        lemma_first_line(rest, method);
        assert forall|i: int| 0 <= i < rest.len() implies #[trigger] rest[i] == entries[i + 1] by {}
        if entries[0].name@ != method {
            match policy_in(rest, method) {
                Some(policy) => {
                    let i = choose|i: int|
                        0 <= i < rest.len() && (#[trigger] rest[i]).name@ == method
                            && rest[i].policy == policy;
                    assert(entries[i + 1] == rest[i]);
                },
                None => {
                    assert forall|i: int| 0 <= i < entries.len() implies (
                    #[trigger] entries[i]).name@ != method by {
                        if i > 0 {
                            assert(rest[i - 1] == entries[i]);
                        }
                    }
                },
            }
        }
    }
}

proof fn lemma_registered_guarded()
    ensures
        forall|i: int| 0 <= i < registered().len() ==> guarded(#[trigger] registered()[i]),
{
    lemma_status_methods();
    lemma_query_methods();
    lemma_settings_methods();
    lemma_action_methods();
    lemma_quarantine_methods();
    lemma_mutation_methods();
    lemma_dangerous_methods();
    assert forall|i: int| 0 <= i < registered().len() implies guarded(#[trigger] registered()[i]) by {
        if i < 9 {
            assert(registered()[i] == status_methods()[i - 0]);
        } else if i < 18 {
            assert(registered()[i] == query_methods()[i - 9]);
        } else if i < 27 {
            assert(registered()[i] == settings_methods()[i - 18]);
        } else if i < 35 {
            assert(registered()[i] == action_methods()[i - 27]);
        } else if i < 40 {
            assert(registered()[i] == quarantine_methods()[i - 35]);
        } else if i < 49 {
            assert(registered()[i] == mutation_methods()[i - 40]);
        } else {
            assert(registered()[i] == dangerous_methods()[i - 49]);
        }
    }
}

/// A registered method demands a challenge token exactly where one can be
/// issued for it, and every method that a token can be issued for is
/// registered.
pub proof fn challenge_matches_class(method: Seq<char>)
    ensures
        challengeable(method) <==> policy_of(method) is Some && demands_challenge(
            policy_of(method)->0.class,
        ),
{
    lemma_registered_guarded();
    lemma_first_line(registered(), method);
    if challengeable(method) {
        assert(registered()[48].name@ == "engine.reload"@);
        assert(registered()[32].name@ == "argus.reload"@);
        assert(registered()[40].name@ == "settings.set"@);
        assert(registered()[41].name@ == "settings.set_full"@);
        assert(registered()[45].name@ == "sources.set"@);
        assert(registered()[46].name@ == "sources.update"@);
        assert(registered()[47].name@ == "sources.rollback"@);
        assert(registered()[42].name@ == "protection.set_critical"@);
        assert(registered()[43].name@ == "protection.disable"@);
        assert(registered()[44].name@ == "protection.enable"@);
        assert(registered()[35].name@ == "quarantine.add"@);
        assert(registered()[49].name@ == "quarantine.restore"@);
        assert(registered()[50].name@ == "quarantine.restore_as"@);
        assert(registered()[51].name@ == "quarantine.delete"@);
    }
}

proof fn lemma_status_names(f: Fields<Seq<char>>)
    ensures
        auth_message("health"@, f) is None,
        auth_message("engine.status"@, f) is None,
        auth_message("scan.status"@, f) is None,
        auth_message("update.status"@, f) is None,
        auth_message("argus.version"@, f) is None,
{
    reveal_strlit("health");
    assert("health"@.len() == 6);
    reveal_strlit("engine.status");
    assert("engine.status"@.len() == 13);
    reveal_strlit("scan.status");
    assert("scan.status"@.len() == 11);
    reveal_strlit("update.status");
    assert("update.status"@.len() == 13);
    reveal_strlit("argus.version");
    assert("argus.version"@.len() == 13);
    reveal_strlit("scan.start");
    assert("scan.start"@.len() == 10);
    reveal_strlit("engine.reload");
    assert("engine.reload"@.len() == 13);
    reveal_strlit("scan.cancel");
    assert("scan.cancel"@.len() == 11);
    reveal_strlit("quarantine.list");
    assert("quarantine.list"@.len() == 15);
    reveal_strlit("calibration.report_safe");
    assert("calibration.report_safe"@.len() == 23);
    reveal_strlit("runtime.status");
    assert("runtime.status"@.len() == 14);
    reveal_strlit("trust.status");
    assert("trust.status"@.len() == 12);
    reveal_strlit("runtime.scan_buffer");
    assert("runtime.scan_buffer"@.len() == 19);
    reveal_strlit("detections.list");
    assert("detections.list"@.len() == 15);
    reveal_strlit("watcher.status");
    assert("watcher.status"@.len() == 14);
    reveal_strlit("idle_scanner.status");
    assert("idle_scanner.status"@.len() == 19);
    reveal_strlit("update.start");
    assert("update.start"@.len() == 12);
    reveal_strlit("activity.list");
    assert("activity.list"@.len() == 13);
    reveal_strlit("activity.log");
    assert("activity.log"@.len() == 12);
    reveal_strlit("argus.analyze");
    assert("argus.analyze"@.len() == 13);
    reveal_strlit("argus.reload");
    assert("argus.reload"@.len() == 12);
    reveal_strlit("memory.list_processes");
    assert("memory.list_processes"@.len() == 21);
    reveal_strlit("memory.scan_process");
    assert("memory.scan_process"@.len() == 19);
    reveal_strlit("settings.get");
    assert("settings.get"@.len() == 12);
    reveal_strlit("settings.get_full");
    assert("settings.get_full"@.len() == 17);
    reveal_strlit("settings.get_defaults");
    assert("settings.get_defaults"@.len() == 21);
    reveal_strlit("settings.restart_requirements");
    assert("settings.restart_requirements"@.len() == 29);
    reveal_strlit("security.challenge");
    assert("security.challenge"@.len() == 18);
    reveal_strlit("settings.set");
    assert("settings.set"@.len() == 12);
    reveal_strlit("settings.set_full");
    assert("settings.set_full"@.len() == 17);
    reveal_strlit("diagnostics.export");
    assert("diagnostics.export"@.len() == 18);
    reveal_strlit("dev.status");
    assert("dev.status"@.len() == 10);
    reveal_strlit("dev.set_developer_mode");
    assert("dev.set_developer_mode"@.len() == 22);
    reveal_strlit("benchmark.run");
    assert("benchmark.run"@.len() == 13);
    assert("engine.status"@[7] != "engine.reload"@[7]);
    assert("engine.status"@[0] != "activity.list"@[0]);
    assert("engine.status"@[0] != "argus.analyze"@[0]);
    assert("engine.status"@[0] != "benchmark.run"@[0]);
    assert("scan.status"@[5] != "scan.cancel"@[5]);
    assert("update.status"@[0] != "engine.reload"@[0]);
    assert("update.status"@[0] != "activity.list"@[0]);
    assert("update.status"@[0] != "argus.analyze"@[0]);
    assert("update.status"@[0] != "benchmark.run"@[0]);
    assert("argus.version"@[0] != "engine.reload"@[0]);
    assert("argus.version"@[1] != "activity.list"@[1]);
    assert("argus.version"@[6] != "argus.analyze"@[6]);
    assert("argus.version"@[0] != "benchmark.run"@[0]);
}

/// A status endpoint is served to everybody. The one that issues tokens is no
/// mere status: it asks for the secret.
pub proof fn status_needs_no_secret(method: Seq<char>, f: Fields<Seq<char>>)
    requires
        policy_of(method) matches Some(p) && p.class is PublicStatus,
        method != "security.challenge"@,
    ensures
        secret_refusal(method, f) is None,
{
    lemma_first_line(registered(), method);
    lemma_status_names(f);
    let i = choose|i: int|
        0 <= i < registered().len() && (#[trigger] registered()[i]).name@ == method
            && registered()[i].policy == policy_of(method)->0;
    if i < 9 {
        assert(registered()[i] == status_methods()[i - 0]);
    } else if i < 18 {
        assert(registered()[i] == query_methods()[i - 9]);
    } else if i < 27 {
        assert(registered()[i] == settings_methods()[i - 18]);
    } else if i < 35 {
        assert(registered()[i] == action_methods()[i - 27]);
    } else if i < 40 {
        assert(registered()[i] == quarantine_methods()[i - 35]);
    } else if i < 49 {
        assert(registered()[i] == mutation_methods()[i - 40]);
    } else {
        assert(registered()[i] == dangerous_methods()[i - 49]);
    }
}

/// Every change of the security posture and every irreversible operation is
/// audited, and none is served while the engine reloads or is degraded.
pub proof fn privileged_methods_are_audited(method: Seq<char>)
    requires
        policy_of(method) is Some,
        demands_challenge(policy_of(method)->0.class),
    ensures
        policy_of(method)->0.audit_log,
        !policy_of(method)->0.allowed_while_reloading,
        !policy_of(method)->0.allowed_while_degraded,
{
    lemma_first_line(registered(), method);
    lemma_classes();
}

/// Status and queries are served while the engine reloads; nothing else is.
pub proof fn only_reads_while_reloading(method: Seq<char>)
    requires
        policy_of(method) is Some,
    ensures
        policy_of(method)->0.allowed_while_reloading <==> (
        policy_of(method)->0.class is PublicStatus || policy_of(
            method,
        )->0.class is AuthenticatedRead),
        policy_of(method)->0.allowed_while_degraded
            == policy_of(method)->0.allowed_while_reloading,
{
    lemma_first_line(registered(), method);
    lemma_classes();
}

spec fn by_class(p: MethodPolicy) -> bool {
    &&& p.allowed_while_reloading == (p.class is PublicStatus || p.class is AuthenticatedRead)
    &&& p.allowed_while_degraded == p.allowed_while_reloading
    &&& demands_challenge(p.class) ==> p.audit_log
}

proof fn lemma_classes()
    ensures
        forall|i: int| 0 <= i < registered().len() ==> by_class((#[trigger] registered()[i]).policy),
{
    assert forall|i: int| 0 <= i < registered().len() implies by_class(
        (#[trigger] registered()[i]).policy,
    ) by {
        if i < 9 {
            assert(registered()[i] == status_methods()[i - 0]);
        } else if i < 18 {
            assert(registered()[i] == query_methods()[i - 9]);
        } else if i < 27 {
            assert(registered()[i] == settings_methods()[i - 18]);
        } else if i < 35 {
            assert(registered()[i] == action_methods()[i - 27]);
        } else if i < 40 {
            assert(registered()[i] == quarantine_methods()[i - 35]);
        } else if i < 49 {
            assert(registered()[i] == mutation_methods()[i - 40]);
        } else {
            assert(registered()[i] == dangerous_methods()[i - 49]);
        }
    }
}

} // verus!
