//! Method registry: what each request method may carry and when it is served.
//!
//! Every method has a declared class, payload limit and rate bucket. The
//! dispatcher applies the policy before it looks at the request itself.

use vstd::prelude::*;

verus! {

/// Method security class.
#[derive(Debug, Clone, Copy, PartialEq, Eq, Structural)]
pub enum MethodClass {
    /// No auth needed. Status/health endpoints.
    PublicStatus,
    /// IPC auth required. Read-only queries.
    AuthenticatedRead,
    /// IPC auth required. State-changing actions.
    AuthenticatedAction,
    /// Challenge token required. Modifies security posture.
    PrivilegedMutation,
    /// Challenge token required. Irreversible or high-risk.
    DangerousOperation,
}

/// Rate limit bucket: methods in one bucket share a rate limit.
#[derive(Debug, Clone, Copy, PartialEq, Eq, Structural, Hash)]
pub enum RateBucket {
    Status,
    ScanControl,
    QuarantineOps,
    ConfigMutation,
    DiagnosticsExport,
    SourcesMutation,
    MemoryScan,
    Unlimited,
}

/// Policy for a single method.
#[derive(Debug, Clone, Copy, PartialEq, Eq, Structural)]
pub struct MethodPolicy {
    pub class: MethodClass,
    pub max_payload_bytes: usize,
    pub rate_bucket: RateBucket,
    pub audit_log: bool,
    pub allowed_while_reloading: bool,
    pub allowed_while_degraded: bool,
}

/// Too many requests from the caller or from everybody.
pub const RATE_LIMITED: i32 = -32020;

/// The parameters are longer than the method's payload limit.
pub const PAYLOAD_TOO_LARGE: i32 = -32021;

/// The method is not served while the engine reloads.
pub const ENGINE_RELOADING: i32 = -32022;

/// The method is not served in degraded mode.
pub const DEGRADED_MODE: i32 = -32023;

/// The method needs a challenge token.
pub const CHALLENGE_REQUIRED: i32 = -32024;

/// The caller is not authenticated.
pub const UNAUTHORIZED: i32 = -32025;

/// The method is switched off.
pub const METHOD_DISABLED: i32 = -32026;

/// Status endpoint, served without authentication.
#[verifier::allow_in_spec]
pub fn pub_status(max_payload_bytes: usize) -> MethodPolicy
    returns
        (MethodPolicy {
            class: MethodClass::PublicStatus,
            max_payload_bytes,
            rate_bucket: RateBucket::Status,
            audit_log: false,
            allowed_while_reloading: true,
            allowed_while_degraded: true,
        }),
{
    MethodPolicy {
        class: MethodClass::PublicStatus,
        max_payload_bytes,
        rate_bucket: RateBucket::Status,
        audit_log: false,
        allowed_while_reloading: true,
        allowed_while_degraded: true,
    }
}

/// Authenticated query.
#[verifier::allow_in_spec]
pub fn auth_read(max_payload_bytes: usize, rate_bucket: RateBucket) -> MethodPolicy
    returns
        (MethodPolicy {
            class: MethodClass::AuthenticatedRead,
            max_payload_bytes,
            rate_bucket,
            audit_log: false,
            allowed_while_reloading: true,
            allowed_while_degraded: true,
        }),
{
    MethodPolicy {
        class: MethodClass::AuthenticatedRead,
        max_payload_bytes,
        rate_bucket,
        audit_log: false,
        allowed_while_reloading: true,
        allowed_while_degraded: true,
    }
}

/// Authenticated action, not served while the engine reloads.
#[verifier::allow_in_spec]
pub fn auth_action(max_payload_bytes: usize, rate_bucket: RateBucket, audit_log: bool) -> MethodPolicy
    returns
        (MethodPolicy {
            class: MethodClass::AuthenticatedAction,
            max_payload_bytes,
            rate_bucket,
            audit_log,
            allowed_while_reloading: false,
            allowed_while_degraded: false,
        }),
{
    MethodPolicy {
        class: MethodClass::AuthenticatedAction,
        max_payload_bytes,
        rate_bucket,
        audit_log,
        allowed_while_reloading: false,
        allowed_while_degraded: false,
    }
}

/// Change of the security posture: audited, challenge token required.
#[verifier::allow_in_spec]
pub fn priv_mutation(max_payload_bytes: usize, rate_bucket: RateBucket) -> MethodPolicy
    returns
        (MethodPolicy {
            class: MethodClass::PrivilegedMutation,
            max_payload_bytes,
            rate_bucket,
            audit_log: true,
            allowed_while_reloading: false,
            allowed_while_degraded: false,
        }),
{
    MethodPolicy {
        class: MethodClass::PrivilegedMutation,
        max_payload_bytes,
        rate_bucket,
        audit_log: true,
        allowed_while_reloading: false,
        allowed_while_degraded: false,
    }
}

/// Irreversible operation: audited, challenge token required.
#[verifier::allow_in_spec]
pub fn dangerous(max_payload_bytes: usize, rate_bucket: RateBucket) -> MethodPolicy
    returns
        (MethodPolicy {
            class: MethodClass::DangerousOperation,
            max_payload_bytes,
            rate_bucket,
            audit_log: true,
            allowed_while_reloading: false,
            allowed_while_degraded: false,
        }),
{
    MethodPolicy {
        class: MethodClass::DangerousOperation,
        max_payload_bytes,
        rate_bucket,
        audit_log: true,
        allowed_while_reloading: false,
        allowed_while_degraded: false,
    }
}

/// One line of the registry.
#[derive(Debug, Clone, Copy)]
pub struct MethodEntry {
    pub name: &'static str,
    pub policy: MethodPolicy,
}

/// The registry: each method with its policy.
pub struct MethodRegistry {
    pub entries: Vec<MethodEntry>,
}

/// Status endpoints.
pub open spec fn status_methods() -> Seq<MethodEntry> {
    seq![
        MethodEntry { name: "health", policy: pub_status(512) },
        MethodEntry { name: "engine.status", policy: pub_status(512) },
        MethodEntry { name: "scan.status", policy: pub_status(512) },
        MethodEntry { name: "watcher.status", policy: auth_read(512, RateBucket::Status) },
        MethodEntry { name: "webprotection.status", policy: auth_read(512, RateBucket::Status) },
        MethodEntry { name: "idle_scanner.status", policy: auth_read(512, RateBucket::Status) },
        MethodEntry { name: "update.status", policy: pub_status(512) },
        MethodEntry { name: "argus.version", policy: pub_status(512) },
        MethodEntry { name: "security.challenge", policy: pub_status(1024) },
    ]
}

/// Queries over scans, activity, quarantine and sources.
pub open spec fn query_methods() -> Seq<MethodEntry> {
    seq![
        MethodEntry { name: "scan.history", policy: auth_read(1024, RateBucket::Status) },
        MethodEntry { name: "activity.list", policy: auth_read(1024, RateBucket::Status) },
        MethodEntry { name: "stats.runtime", policy: auth_read(1024, RateBucket::Status) },
        MethodEntry { name: "runtime.status", policy: auth_read(1024, RateBucket::Status) },
        MethodEntry { name: "trust.status", policy: auth_read(1024, RateBucket::Status) },
        MethodEntry { name: "detections.list", policy: auth_read(4096, RateBucket::Status) },
        MethodEntry { name: "quarantine.list", policy: auth_read(1024, RateBucket::QuarantineOps) },
        MethodEntry { name: "sources.status", policy: auth_read(1024, RateBucket::Status) },
        MethodEntry { name: "sources.list", policy: auth_read(1024, RateBucket::Status) },
    ]
}

/// Queries over processes, settings and intelligence.
pub open spec fn settings_methods() -> Seq<MethodEntry> {
    seq![
        MethodEntry { name: "argus.packs", policy: auth_read(1024, RateBucket::Status) },
        MethodEntry { name: "argus.verdicts", policy: auth_read(4096, RateBucket::Status) },
        MethodEntry { name: "memory.list_processes", policy: auth_read(1024, RateBucket::MemoryScan) },
        MethodEntry { name: "settings.get", policy: auth_read(512, RateBucket::Status) },
        MethodEntry { name: "system.fullscreen_report", policy: auth_action(256, RateBucket::Status, false) },
        MethodEntry { name: "settings.get_full", policy: auth_read(16384, RateBucket::Status) },
        MethodEntry { name: "settings.get_defaults", policy: auth_read(8192, RateBucket::Status) },
        MethodEntry { name: "settings.restart_requirements", policy: auth_read(8192, RateBucket::Status) },
        MethodEntry { name: "dev.status", policy: auth_read(512, RateBucket::Status) },
    ]
}

/// Scans, updates and analyses.
pub open spec fn action_methods() -> Seq<MethodEntry> {
    seq![
        MethodEntry { name: "scan.start", policy: auth_action(4096, RateBucket::ScanControl, true) },
        MethodEntry { name: "scan.cancel", policy: auth_action(512, RateBucket::ScanControl, true) },
        MethodEntry { name: "update.start", policy: auth_action(1024, RateBucket::ScanControl, true) },
        MethodEntry { name: "activity.log", policy: auth_action(4096, RateBucket::DiagnosticsExport, false) },
        MethodEntry { name: "argus.analyze", policy: auth_action(8192, RateBucket::ScanControl, false) },
        MethodEntry { name: "argus.reload", policy: priv_mutation(1024, RateBucket::ScanControl) },
        MethodEntry { name: "runtime.scan_buffer", policy: auth_action(1048576, RateBucket::MemoryScan, true) },
        MethodEntry { name: "memory.scan_process", policy: auth_action(1024, RateBucket::MemoryScan, true) },
    ]
}

/// Quarantine, calibration, diagnostics and developer mode.
pub open spec fn quarantine_methods() -> Seq<MethodEntry> {
    seq![
        MethodEntry { name: "quarantine.add", policy: priv_mutation(4096, RateBucket::QuarantineOps) },
        MethodEntry { name: "calibration.report_safe", policy: auth_action(4096, RateBucket::QuarantineOps, true) },
        MethodEntry { name: "diagnostics.export", policy: auth_action(1024, RateBucket::DiagnosticsExport, false) },
        MethodEntry { name: "dev.set_developer_mode", policy: auth_action(1024, RateBucket::ConfigMutation, true) },
        MethodEntry { name: "benchmark.run", policy: auth_action(1024, RateBucket::DiagnosticsExport, false) },
    ]
}

/// Changes of the security posture.
pub open spec fn mutation_methods() -> Seq<MethodEntry> {
    seq![
        MethodEntry { name: "settings.set", policy: priv_mutation(16384, RateBucket::ConfigMutation) },
        MethodEntry { name: "settings.set_full", policy: priv_mutation(32768, RateBucket::ConfigMutation) },
        MethodEntry { name: "protection.set_critical", policy: priv_mutation(32768, RateBucket::ConfigMutation) },
        MethodEntry { name: "protection.disable", policy: priv_mutation(1024, RateBucket::ConfigMutation) },
        MethodEntry { name: "protection.enable", policy: priv_mutation(1024, RateBucket::ConfigMutation) },
        MethodEntry { name: "sources.set", policy: priv_mutation(4096, RateBucket::SourcesMutation) },
        MethodEntry { name: "sources.update", policy: priv_mutation(1024, RateBucket::SourcesMutation) },
        MethodEntry { name: "sources.rollback", policy: priv_mutation(1024, RateBucket::SourcesMutation) },
        MethodEntry { name: "engine.reload", policy: priv_mutation(1024, RateBucket::ScanControl) },
    ]
}

/// Irreversible operations.
pub open spec fn dangerous_methods() -> Seq<MethodEntry> {
    seq![
        MethodEntry { name: "quarantine.restore", policy: dangerous(1024, RateBucket::QuarantineOps) },
        MethodEntry { name: "quarantine.restore_as", policy: dangerous(4096, RateBucket::QuarantineOps) },
        MethodEntry { name: "quarantine.delete", policy: dangerous(1024, RateBucket::QuarantineOps) },
    ]
}

/// Every method that is served under a policy.
pub open spec fn registered() -> Seq<MethodEntry> {
    status_methods() + query_methods() + settings_methods() + action_methods() + quarantine_methods() + mutation_methods() + dangerous_methods()
}

/// The policy that the table gives `method`: that of its first line with that
/// name.
pub open spec fn policy_in(entries: Seq<MethodEntry>, method: Seq<char>) -> Option<MethodPolicy>
    decreases entries.len(),
{
    if entries.len() == 0 {
        None
    } else if entries[0].name@ == method {
        Some(entries[0].policy)
    } else {
        policy_in(entries.subrange(1, entries.len() as int), method)
    }
}

/// The policy of `method`, if it is registered.
pub open spec fn policy_of(method: Seq<char>) -> Option<MethodPolicy> {
    policy_in(registered(), method)
}

fn push_status_methods(entries: &mut Vec<MethodEntry>)
    ensures
        final(entries)@ == old(entries)@ + status_methods(),
{
    entries.push(MethodEntry { name: "health", policy: pub_status(512) });
    entries.push(MethodEntry { name: "engine.status", policy: pub_status(512) });
    entries.push(MethodEntry { name: "scan.status", policy: pub_status(512) });
    entries.push(MethodEntry { name: "watcher.status", policy: auth_read(512, RateBucket::Status) });
    entries.push(MethodEntry { name: "webprotection.status", policy: auth_read(512, RateBucket::Status) });
    entries.push(MethodEntry { name: "idle_scanner.status", policy: auth_read(512, RateBucket::Status) });
    entries.push(MethodEntry { name: "update.status", policy: pub_status(512) });
    entries.push(MethodEntry { name: "argus.version", policy: pub_status(512) });
    entries.push(MethodEntry { name: "security.challenge", policy: pub_status(1024) });
    assert(entries@ =~= old(entries)@ + status_methods());
}

fn push_query_methods(entries: &mut Vec<MethodEntry>)
    ensures
        final(entries)@ == old(entries)@ + query_methods(),
{
    entries.push(MethodEntry { name: "scan.history", policy: auth_read(1024, RateBucket::Status) });
    entries.push(MethodEntry { name: "activity.list", policy: auth_read(1024, RateBucket::Status) });
    entries.push(MethodEntry { name: "stats.runtime", policy: auth_read(1024, RateBucket::Status) });
    entries.push(MethodEntry { name: "runtime.status", policy: auth_read(1024, RateBucket::Status) });
    entries.push(MethodEntry { name: "trust.status", policy: auth_read(1024, RateBucket::Status) });
    entries.push(MethodEntry { name: "detections.list", policy: auth_read(4096, RateBucket::Status) });
    entries.push(MethodEntry { name: "quarantine.list", policy: auth_read(1024, RateBucket::QuarantineOps) });
    entries.push(MethodEntry { name: "sources.status", policy: auth_read(1024, RateBucket::Status) });
    entries.push(MethodEntry { name: "sources.list", policy: auth_read(1024, RateBucket::Status) });
    assert(entries@ =~= old(entries)@ + query_methods());
}

fn push_settings_methods(entries: &mut Vec<MethodEntry>)
    ensures
        final(entries)@ == old(entries)@ + settings_methods(),
{
    entries.push(MethodEntry { name: "argus.packs", policy: auth_read(1024, RateBucket::Status) });
    entries.push(MethodEntry { name: "argus.verdicts", policy: auth_read(4096, RateBucket::Status) });
    entries.push(MethodEntry { name: "memory.list_processes", policy: auth_read(1024, RateBucket::MemoryScan) });
    entries.push(MethodEntry { name: "settings.get", policy: auth_read(512, RateBucket::Status) });
    entries.push(MethodEntry { name: "system.fullscreen_report", policy: auth_action(256, RateBucket::Status, false) });
    entries.push(MethodEntry { name: "settings.get_full", policy: auth_read(16384, RateBucket::Status) });
    entries.push(MethodEntry { name: "settings.get_defaults", policy: auth_read(8192, RateBucket::Status) });
    entries.push(MethodEntry { name: "settings.restart_requirements", policy: auth_read(8192, RateBucket::Status) });
    entries.push(MethodEntry { name: "dev.status", policy: auth_read(512, RateBucket::Status) });
    assert(entries@ =~= old(entries)@ + settings_methods());
}

fn push_action_methods(entries: &mut Vec<MethodEntry>)
    ensures
        final(entries)@ == old(entries)@ + action_methods(),
{
    entries.push(MethodEntry { name: "scan.start", policy: auth_action(4096, RateBucket::ScanControl, true) });
    entries.push(MethodEntry { name: "scan.cancel", policy: auth_action(512, RateBucket::ScanControl, true) });
    entries.push(MethodEntry { name: "update.start", policy: auth_action(1024, RateBucket::ScanControl, true) });
    entries.push(MethodEntry { name: "activity.log", policy: auth_action(4096, RateBucket::DiagnosticsExport, false) });
    entries.push(MethodEntry { name: "argus.analyze", policy: auth_action(8192, RateBucket::ScanControl, false) });
    entries.push(MethodEntry { name: "argus.reload", policy: priv_mutation(1024, RateBucket::ScanControl) });
    entries.push(MethodEntry { name: "runtime.scan_buffer", policy: auth_action(1048576, RateBucket::MemoryScan, true) });
    entries.push(MethodEntry { name: "memory.scan_process", policy: auth_action(1024, RateBucket::MemoryScan, true) });
    assert(entries@ =~= old(entries)@ + action_methods());
}

fn push_quarantine_methods(entries: &mut Vec<MethodEntry>)
    ensures
        final(entries)@ == old(entries)@ + quarantine_methods(),
{
    entries.push(MethodEntry { name: "quarantine.add", policy: priv_mutation(4096, RateBucket::QuarantineOps) });
    entries.push(MethodEntry { name: "calibration.report_safe", policy: auth_action(4096, RateBucket::QuarantineOps, true) });
    entries.push(MethodEntry { name: "diagnostics.export", policy: auth_action(1024, RateBucket::DiagnosticsExport, false) });
    entries.push(MethodEntry { name: "dev.set_developer_mode", policy: auth_action(1024, RateBucket::ConfigMutation, true) });
    entries.push(MethodEntry { name: "benchmark.run", policy: auth_action(1024, RateBucket::DiagnosticsExport, false) });
    assert(entries@ =~= old(entries)@ + quarantine_methods());
}

fn push_mutation_methods(entries: &mut Vec<MethodEntry>)
    ensures
        final(entries)@ == old(entries)@ + mutation_methods(),
{
    entries.push(MethodEntry { name: "settings.set", policy: priv_mutation(16384, RateBucket::ConfigMutation) });
    entries.push(MethodEntry { name: "settings.set_full", policy: priv_mutation(32768, RateBucket::ConfigMutation) });
    entries.push(MethodEntry { name: "protection.set_critical", policy: priv_mutation(32768, RateBucket::ConfigMutation) });
    entries.push(MethodEntry { name: "protection.disable", policy: priv_mutation(1024, RateBucket::ConfigMutation) });
    entries.push(MethodEntry { name: "protection.enable", policy: priv_mutation(1024, RateBucket::ConfigMutation) });
    entries.push(MethodEntry { name: "sources.set", policy: priv_mutation(4096, RateBucket::SourcesMutation) });
    entries.push(MethodEntry { name: "sources.update", policy: priv_mutation(1024, RateBucket::SourcesMutation) });
    entries.push(MethodEntry { name: "sources.rollback", policy: priv_mutation(1024, RateBucket::SourcesMutation) });
    entries.push(MethodEntry { name: "engine.reload", policy: priv_mutation(1024, RateBucket::ScanControl) });
    assert(entries@ =~= old(entries)@ + mutation_methods());
}

fn push_dangerous_methods(entries: &mut Vec<MethodEntry>)
    ensures
        final(entries)@ == old(entries)@ + dangerous_methods(),
{
    entries.push(MethodEntry { name: "quarantine.restore", policy: dangerous(1024, RateBucket::QuarantineOps) });
    entries.push(MethodEntry { name: "quarantine.restore_as", policy: dangerous(4096, RateBucket::QuarantineOps) });
    entries.push(MethodEntry { name: "quarantine.delete", policy: dangerous(1024, RateBucket::QuarantineOps) });
    assert(entries@ =~= old(entries)@ + dangerous_methods());
}

/// Build the method registry.
pub fn method_registry() -> (registry: MethodRegistry)
    ensures
        registry.entries@ == registered(),
{
    let mut entries: Vec<MethodEntry> = Vec::new();
    push_status_methods(&mut entries);
    push_query_methods(&mut entries);
    push_settings_methods(&mut entries);
    push_action_methods(&mut entries);
    push_quarantine_methods(&mut entries);
    push_mutation_methods(&mut entries);
    push_dangerous_methods(&mut entries);
    assert(entries@ =~= registered());
    MethodRegistry { entries }
}

impl MethodRegistry {
    /// The policy of `method`.
    pub fn get(&self, method: &str) -> (policy: Option<MethodPolicy>)
        ensures
            policy == policy_in(self.entries@, method@),
    {
        let mut i: usize = 0;
        proof {
            assert(self.entries@.subrange(0, self.entries@.len() as int) =~= self.entries@);
        }
        while i < self.entries.len()
            invariant
                i <= self.entries@.len(),
                policy_in(self.entries@, method@) == policy_in(
                    self.entries@.subrange(i as int, self.entries@.len() as int),
                    method@,
                ),
            decreases self.entries@.len() - i,
        {
            let ghost rest = self.entries@.subrange(i as int, self.entries@.len() as int);
            assert(rest.subrange(1, rest.len() as int) =~= self.entries@.subrange(
                i + 1,
                self.entries@.len() as int,
            ));
            if *self.entries[i].name == *method {
                return Some(self.entries[i].policy);
            }
            i = i + 1;
        }
        None
    }

    /// Whether `method` is registered.
    pub fn contains_key(&self, method: &str) -> (known: bool)
        ensures
            known == (policy_in(self.entries@, method@) is Some),
    {
        self.get(method).is_some()
    }

    /// Number of registered methods.
    pub fn len(&self) -> (n: usize)
        ensures
            n == self.entries@.len(),
    {
        self.entries.len()
    }
}

proof fn lemma_policy_in_two(a: Seq<MethodEntry>, b: Seq<MethodEntry>, method: Seq<char>)
    ensures
        policy_in(a + b, method) == match policy_in(a, method) {
            Some(policy) => Some(policy),
            None => policy_in(b, method),
        },
    decreases a.len(),
{
    if a.len() == 0 {
        assert(a + b =~= b);
    } else {
        let rest = a.subrange(1, a.len() as int);
        assert((a + b)[0] == a[0]);
        assert((a + b).subrange(1, (a + b).len() as int) =~= rest + b);
        lemma_policy_in_two(rest, b, method);
    }
}

proof fn lemma_status_methods(method: Seq<char>)
    ensures
        policy_in(status_methods(), method) == if method == "health"@ {
            Some(pub_status(512))
        } else if method == "engine.status"@ {
            Some(pub_status(512))
        } else if method == "scan.status"@ {
            Some(pub_status(512))
        } else if method == "watcher.status"@ {
            Some(auth_read(512, RateBucket::Status))
        } else if method == "webprotection.status"@ {
            Some(auth_read(512, RateBucket::Status))
        } else if method == "idle_scanner.status"@ {
            Some(auth_read(512, RateBucket::Status))
        } else if method == "update.status"@ {
            Some(pub_status(512))
        } else if method == "argus.version"@ {
            Some(pub_status(512))
        } else if method == "security.challenge"@ {
            Some(pub_status(1024))
        } else {
            None
        },
{
    reveal_with_fuel(policy_in, 10);
    let all = status_methods();
    let rest1 = all.subrange(1, all.len() as int);
    assert(rest1.len() == 8);
    assert(rest1[0] == all[1]);
    let rest2 = rest1.subrange(1, rest1.len() as int);
    assert(rest2.len() == 7);
    assert(rest2[0] == all[2]);
    let rest3 = rest2.subrange(1, rest2.len() as int);
    assert(rest3.len() == 6);
    assert(rest3[0] == all[3]);
    let rest4 = rest3.subrange(1, rest3.len() as int);
    assert(rest4.len() == 5);
    assert(rest4[0] == all[4]);
    let rest5 = rest4.subrange(1, rest4.len() as int);
    assert(rest5.len() == 4);
    assert(rest5[0] == all[5]);
    let rest6 = rest5.subrange(1, rest5.len() as int);
    assert(rest6.len() == 3);
    assert(rest6[0] == all[6]);
    let rest7 = rest6.subrange(1, rest6.len() as int);
    assert(rest7.len() == 2);
    assert(rest7[0] == all[7]);
    let rest8 = rest7.subrange(1, rest7.len() as int);
    assert(rest8.len() == 1);
    assert(rest8[0] == all[8]);
    let rest9 = rest8.subrange(1, rest8.len() as int);
    assert(rest9.len() == 0);
}

proof fn lemma_query_methods(method: Seq<char>)
    ensures
        policy_in(query_methods(), method) == if method == "scan.history"@ {
            Some(auth_read(1024, RateBucket::Status))
        } else if method == "activity.list"@ {
            Some(auth_read(1024, RateBucket::Status))
        } else if method == "stats.runtime"@ {
            Some(auth_read(1024, RateBucket::Status))
        } else if method == "runtime.status"@ {
            Some(auth_read(1024, RateBucket::Status))
        } else if method == "trust.status"@ {
            Some(auth_read(1024, RateBucket::Status))
        } else if method == "detections.list"@ {
            Some(auth_read(4096, RateBucket::Status))
        } else if method == "quarantine.list"@ {
            Some(auth_read(1024, RateBucket::QuarantineOps))
        } else if method == "sources.status"@ {
            Some(auth_read(1024, RateBucket::Status))
        } else if method == "sources.list"@ {
            Some(auth_read(1024, RateBucket::Status))
        } else {
            None
        },
{
    reveal_with_fuel(policy_in, 10);
    let all = query_methods();
    let rest1 = all.subrange(1, all.len() as int);
    assert(rest1.len() == 8);
    assert(rest1[0] == all[1]);
    let rest2 = rest1.subrange(1, rest1.len() as int);
    assert(rest2.len() == 7);
    assert(rest2[0] == all[2]);
    let rest3 = rest2.subrange(1, rest2.len() as int);
    assert(rest3.len() == 6);
    assert(rest3[0] == all[3]);
    let rest4 = rest3.subrange(1, rest3.len() as int);
    assert(rest4.len() == 5);
    assert(rest4[0] == all[4]);
    let rest5 = rest4.subrange(1, rest4.len() as int);
    assert(rest5.len() == 4);
    assert(rest5[0] == all[5]);
    let rest6 = rest5.subrange(1, rest5.len() as int);
    assert(rest6.len() == 3);
    assert(rest6[0] == all[6]);
    let rest7 = rest6.subrange(1, rest6.len() as int);
    assert(rest7.len() == 2);
    assert(rest7[0] == all[7]);
    let rest8 = rest7.subrange(1, rest7.len() as int);
    assert(rest8.len() == 1);
    assert(rest8[0] == all[8]);
    let rest9 = rest8.subrange(1, rest8.len() as int);
    assert(rest9.len() == 0);
}

proof fn lemma_settings_methods(method: Seq<char>)
    ensures
        policy_in(settings_methods(), method) == if method == "argus.packs"@ {
            Some(auth_read(1024, RateBucket::Status))
        } else if method == "argus.verdicts"@ {
            Some(auth_read(4096, RateBucket::Status))
        } else if method == "memory.list_processes"@ {
            Some(auth_read(1024, RateBucket::MemoryScan))
        } else if method == "settings.get"@ {
            Some(auth_read(512, RateBucket::Status))
        } else if method == "system.fullscreen_report"@ {
            Some(auth_action(256, RateBucket::Status, false))
        } else if method == "settings.get_full"@ {
            Some(auth_read(16384, RateBucket::Status))
        } else if method == "settings.get_defaults"@ {
            Some(auth_read(8192, RateBucket::Status))
        } else if method == "settings.restart_requirements"@ {
            Some(auth_read(8192, RateBucket::Status))
        } else if method == "dev.status"@ {
            Some(auth_read(512, RateBucket::Status))
        } else {
            None
        },
{
    reveal_with_fuel(policy_in, 10);
    let all = settings_methods();
    let rest1 = all.subrange(1, all.len() as int);
    assert(rest1.len() == 8);
    assert(rest1[0] == all[1]);
    let rest2 = rest1.subrange(1, rest1.len() as int);
    assert(rest2.len() == 7);
    assert(rest2[0] == all[2]);
    let rest3 = rest2.subrange(1, rest2.len() as int);
    assert(rest3.len() == 6);
    assert(rest3[0] == all[3]);
    let rest4 = rest3.subrange(1, rest3.len() as int);
    assert(rest4.len() == 5);
    assert(rest4[0] == all[4]);
    let rest5 = rest4.subrange(1, rest4.len() as int);
    assert(rest5.len() == 4);
    assert(rest5[0] == all[5]);
    let rest6 = rest5.subrange(1, rest5.len() as int);
    assert(rest6.len() == 3);
    assert(rest6[0] == all[6]);
    let rest7 = rest6.subrange(1, rest6.len() as int);
    assert(rest7.len() == 2);
    assert(rest7[0] == all[7]);
    let rest8 = rest7.subrange(1, rest7.len() as int);
    assert(rest8.len() == 1);
    assert(rest8[0] == all[8]);
    let rest9 = rest8.subrange(1, rest8.len() as int);
    assert(rest9.len() == 0);
}

proof fn lemma_action_methods(method: Seq<char>)
    ensures
        policy_in(action_methods(), method) == if method == "scan.start"@ {
            Some(auth_action(4096, RateBucket::ScanControl, true))
        } else if method == "scan.cancel"@ {
            Some(auth_action(512, RateBucket::ScanControl, true))
        } else if method == "update.start"@ {
            Some(auth_action(1024, RateBucket::ScanControl, true))
        } else if method == "activity.log"@ {
            Some(auth_action(4096, RateBucket::DiagnosticsExport, false))
        } else if method == "argus.analyze"@ {
            Some(auth_action(8192, RateBucket::ScanControl, false))
        } else if method == "argus.reload"@ {
            Some(priv_mutation(1024, RateBucket::ScanControl))
        } else if method == "runtime.scan_buffer"@ {
            Some(auth_action(1048576, RateBucket::MemoryScan, true))
        } else if method == "memory.scan_process"@ {
            Some(auth_action(1024, RateBucket::MemoryScan, true))
        } else {
            None
        },
{
    reveal_with_fuel(policy_in, 9);
    let all = action_methods();
    let rest1 = all.subrange(1, all.len() as int);
    assert(rest1.len() == 7);
    assert(rest1[0] == all[1]);
    let rest2 = rest1.subrange(1, rest1.len() as int);
    assert(rest2.len() == 6);
    assert(rest2[0] == all[2]);
    let rest3 = rest2.subrange(1, rest2.len() as int);
    assert(rest3.len() == 5);
    assert(rest3[0] == all[3]);
    let rest4 = rest3.subrange(1, rest3.len() as int);
    assert(rest4.len() == 4);
    assert(rest4[0] == all[4]);
    let rest5 = rest4.subrange(1, rest4.len() as int);
    assert(rest5.len() == 3);
    assert(rest5[0] == all[5]);
    let rest6 = rest5.subrange(1, rest5.len() as int);
    assert(rest6.len() == 2);
    assert(rest6[0] == all[6]);
    let rest7 = rest6.subrange(1, rest6.len() as int);
    assert(rest7.len() == 1);
    assert(rest7[0] == all[7]);
    let rest8 = rest7.subrange(1, rest7.len() as int);
    assert(rest8.len() == 0);
}

proof fn lemma_quarantine_methods(method: Seq<char>)
    ensures
        policy_in(quarantine_methods(), method) == if method == "quarantine.add"@ {
            Some(priv_mutation(4096, RateBucket::QuarantineOps))
        } else if method == "calibration.report_safe"@ {
            Some(auth_action(4096, RateBucket::QuarantineOps, true))
        } else if method == "diagnostics.export"@ {
            Some(auth_action(1024, RateBucket::DiagnosticsExport, false))
        } else if method == "dev.set_developer_mode"@ {
            Some(auth_action(1024, RateBucket::ConfigMutation, true))
        } else if method == "benchmark.run"@ {
            Some(auth_action(1024, RateBucket::DiagnosticsExport, false))
        } else {
            None
        },
{
    reveal_with_fuel(policy_in, 6);
    let all = quarantine_methods();
    let rest1 = all.subrange(1, all.len() as int);
    assert(rest1.len() == 4);
    assert(rest1[0] == all[1]);
    let rest2 = rest1.subrange(1, rest1.len() as int);
    assert(rest2.len() == 3);
    assert(rest2[0] == all[2]);
    let rest3 = rest2.subrange(1, rest2.len() as int);
    assert(rest3.len() == 2);
    assert(rest3[0] == all[3]);
    let rest4 = rest3.subrange(1, rest3.len() as int);
    assert(rest4.len() == 1);
    assert(rest4[0] == all[4]);
    let rest5 = rest4.subrange(1, rest4.len() as int);
    assert(rest5.len() == 0);
}

proof fn lemma_mutation_methods(method: Seq<char>)
    ensures
        policy_in(mutation_methods(), method) == if method == "settings.set"@ {
            Some(priv_mutation(16384, RateBucket::ConfigMutation))
        } else if method == "settings.set_full"@ {
            Some(priv_mutation(32768, RateBucket::ConfigMutation))
        } else if method == "protection.set_critical"@ {
            Some(priv_mutation(32768, RateBucket::ConfigMutation))
        } else if method == "protection.disable"@ {
            Some(priv_mutation(1024, RateBucket::ConfigMutation))
        } else if method == "protection.enable"@ {
            Some(priv_mutation(1024, RateBucket::ConfigMutation))
        } else if method == "sources.set"@ {
            Some(priv_mutation(4096, RateBucket::SourcesMutation))
        } else if method == "sources.update"@ {
            Some(priv_mutation(1024, RateBucket::SourcesMutation))
        } else if method == "sources.rollback"@ {
            Some(priv_mutation(1024, RateBucket::SourcesMutation))
        } else if method == "engine.reload"@ {
            Some(priv_mutation(1024, RateBucket::ScanControl))
        } else {
            None
        },
{
    reveal_with_fuel(policy_in, 10);
    let all = mutation_methods();
    let rest1 = all.subrange(1, all.len() as int);
    assert(rest1.len() == 8);
    assert(rest1[0] == all[1]);
    let rest2 = rest1.subrange(1, rest1.len() as int);
    assert(rest2.len() == 7);
    assert(rest2[0] == all[2]);
    let rest3 = rest2.subrange(1, rest2.len() as int);
    assert(rest3.len() == 6);
    assert(rest3[0] == all[3]);
    let rest4 = rest3.subrange(1, rest3.len() as int);
    assert(rest4.len() == 5);
    assert(rest4[0] == all[4]);
    let rest5 = rest4.subrange(1, rest4.len() as int);
    assert(rest5.len() == 4);
    assert(rest5[0] == all[5]);
    let rest6 = rest5.subrange(1, rest5.len() as int);
    assert(rest6.len() == 3);
    assert(rest6[0] == all[6]);
    let rest7 = rest6.subrange(1, rest6.len() as int);
    assert(rest7.len() == 2);
    assert(rest7[0] == all[7]);
    let rest8 = rest7.subrange(1, rest7.len() as int);
    assert(rest8.len() == 1);
    assert(rest8[0] == all[8]);
    let rest9 = rest8.subrange(1, rest8.len() as int);
    assert(rest9.len() == 0);
}

proof fn lemma_dangerous_methods(method: Seq<char>)
    ensures
        policy_in(dangerous_methods(), method) == if method == "quarantine.restore"@ {
            Some(dangerous(1024, RateBucket::QuarantineOps))
        } else if method == "quarantine.restore_as"@ {
            Some(dangerous(4096, RateBucket::QuarantineOps))
        } else if method == "quarantine.delete"@ {
            Some(dangerous(1024, RateBucket::QuarantineOps))
        } else {
            None
        },
{
    reveal_with_fuel(policy_in, 4);
    let all = dangerous_methods();
    let rest1 = all.subrange(1, all.len() as int);
    assert(rest1.len() == 2);
    assert(rest1[0] == all[1]);
    let rest2 = rest1.subrange(1, rest1.len() as int);
    assert(rest2.len() == 1);
    assert(rest2[0] == all[2]);
    let rest3 = rest2.subrange(1, rest2.len() as int);
    assert(rest3.len() == 0);
}

proof fn lemma_policy_of(method: Seq<char>)
    ensures
        policy_of(method) == match policy_in(status_methods(), method) {
            Some(p) => Some(p),
            None => match policy_in(query_methods(), method) {
                Some(p) => Some(p),
                None => match policy_in(settings_methods(), method) {
                    Some(p) => Some(p),
                    None => match policy_in(action_methods(), method) {
                        Some(p) => Some(p),
                        None => match policy_in(quarantine_methods(), method) {
                            Some(p) => Some(p),
                            None => match policy_in(mutation_methods(), method) {
                                Some(p) => Some(p),
                                None => policy_in(dangerous_methods(), method),
                            },
                        },
                    },
                },
            },
        },
{
    let a = status_methods();
    let b = query_methods();
    let c = settings_methods();
    let d = action_methods();
    let e = quarantine_methods();
    let f = mutation_methods();
    let g = dangerous_methods();
    lemma_policy_in_two(a + b + c + d + e + f, g, method);
    lemma_policy_in_two(a + b + c + d + e, f, method);
    lemma_policy_in_two(a + b + c + d, e, method);
    lemma_policy_in_two(a + b + c, d, method);
    lemma_policy_in_two(a + b, c, method);
    lemma_policy_in_two(a, b, method);
}

proof fn lemma_method_names()
    ensures
        "health"@.len() == 6,
        "engine.status"@.len() == 13 && "engine.status"@[0] == 'e' && "engine.status"@[7] == 's',
        "scan.status"@.len() == 11 && "scan.status"@[5] == 's',
        "watcher.status"@.len() == 14 && "watcher.status"@[0] == 'w' && "watcher.status"@[8] == 's',
        "webprotection.status"@.len() == 20,
        "idle_scanner.status"@.len() == 19 && "idle_scanner.status"@[0] == 'i',
        "update.status"@.len() == 13 && "update.status"@[0] == 'u' && "update.status"@[7] == 's',
        "argus.version"@.len() == 13 && "argus.version"@[0] == 'a' && "argus.version"@[7] == 'e',
        "security.challenge"@.len() == 18 && "security.challenge"@[0] == 's',
        "scan.history"@.len() == 12 && "scan.history"@[0] == 's' && "scan.history"@[9] == 'o',
        "activity.list"@.len() == 13 && "activity.list"@[0] == 'a' && "activity.list"@[7] == 'y',
        "stats.runtime"@.len() == 13 && "stats.runtime"@[0] == 's' && "stats.runtime"@[7] == 'u',
        "runtime.status"@.len() == 14 && "runtime.status"@[0] == 'r' && "runtime.status"@[8] == 's',
        "trust.status"@.len() == 12 && "trust.status"@[0] == 't' && "trust.status"@[9] == 't',
        "detections.list"@.len() == 15 && "detections.list"@[0] == 'd',
        "quarantine.list"@.len() == 15 && "quarantine.list"@[0] == 'q',
        "sources.status"@.len() == 14 && "sources.status"@[0] == 's' && "sources.status"@[8] == 's',
        "sources.list"@.len() == 12 && "sources.list"@[0] == 's' && "sources.list"@[9] == 'i',
        "argus.packs"@.len() == 11 && "argus.packs"@[5] == '.',
        "argus.verdicts"@.len() == 14 && "argus.verdicts"@[0] == 'a' && "argus.verdicts"@[8] == 'r',
        "memory.list_processes"@.len() == 21 && "memory.list_processes"@[0] == 'm',
        "settings.get"@.len() == 12 && "settings.get"@[0] == 's' && "settings.get"@[9] == 'g',
        "system.fullscreen_report"@.len() == 24,
        "settings.get_full"@.len() == 17 && "settings.get_full"@[9] == 'g',
        "settings.get_defaults"@.len() == 21 && "settings.get_defaults"@[0] == 's',
        "settings.restart_requirements"@.len() == 29,
        "dev.status"@.len() == 10 && "dev.status"@[0] == 'd',
        "scan.start"@.len() == 10 && "scan.start"@[0] == 's',
        "scan.cancel"@.len() == 11 && "scan.cancel"@[5] == 'c',
        "update.start"@.len() == 12 && "update.start"@[0] == 'u' && "update.start"@[9] == 'a',
        "activity.log"@.len() == 12 && "activity.log"@[0] == 'a' && "activity.log"@[9] == 'l',
        "argus.analyze"@.len() == 13 && "argus.analyze"@[0] == 'a' && "argus.analyze"@[7] == 'n',
        "argus.reload"@.len() == 12 && "argus.reload"@[0] == 'a' && "argus.reload"@[9] == 'o',
        "runtime.scan_buffer"@.len() == 19 && "runtime.scan_buffer"@[0] == 'r',
        "memory.scan_process"@.len() == 19 && "memory.scan_process"@[0] == 'm',
        "quarantine.add"@.len() == 14 && "quarantine.add"@[0] == 'q' && "quarantine.add"@[8] == 'n',
        "calibration.report_safe"@.len() == 23 && "calibration.report_safe"@[0] == 'c',
        "diagnostics.export"@.len() == 18 && "diagnostics.export"@[0] == 'd',
        "dev.set_developer_mode"@.len() == 22,
        "benchmark.run"@.len() == 13 && "benchmark.run"@[0] == 'b' && "benchmark.run"@[7] == 'r',
        "settings.set"@.len() == 12 && "settings.set"@[0] == 's' && "settings.set"@[9] == 's',
        "settings.set_full"@.len() == 17 && "settings.set_full"@[9] == 's',
        "protection.set_critical"@.len() == 23 && "protection.set_critical"@[0] == 'p',
        "protection.disable"@.len() == 18 && "protection.disable"@[0] == 'p',
        "protection.enable"@.len() == 17 && "protection.enable"@[9] == 'n',
        "sources.set"@.len() == 11 && "sources.set"@[5] == 'e',
        "sources.update"@.len() == 14 && "sources.update"@[0] == 's' && "sources.update"@[8] == 'u',
        "sources.rollback"@.len() == 16,
        "engine.reload"@.len() == 13 && "engine.reload"@[0] == 'e' && "engine.reload"@[7] == 'r',
        "quarantine.restore"@.len() == 18 && "quarantine.restore"@[0] == 'q',
        "quarantine.restore_as"@.len() == 21 && "quarantine.restore_as"@[0] == 'q',
        "quarantine.delete"@.len() == 17 && "quarantine.delete"@[9] == 'e',
{
    reveal_strlit("health");
    reveal_strlit("engine.status");
    reveal_strlit("scan.status");
    reveal_strlit("watcher.status");
    reveal_strlit("webprotection.status");
    reveal_strlit("idle_scanner.status");
    reveal_strlit("update.status");
    reveal_strlit("argus.version");
    reveal_strlit("security.challenge");
    reveal_strlit("scan.history");
    reveal_strlit("activity.list");
    reveal_strlit("stats.runtime");
    reveal_strlit("runtime.status");
    reveal_strlit("trust.status");
    reveal_strlit("detections.list");
    reveal_strlit("quarantine.list");
    reveal_strlit("sources.status");
    reveal_strlit("sources.list");
    reveal_strlit("argus.packs");
    reveal_strlit("argus.verdicts");
    reveal_strlit("memory.list_processes");
    reveal_strlit("settings.get");
    reveal_strlit("system.fullscreen_report");
    reveal_strlit("settings.get_full");
    reveal_strlit("settings.get_defaults");
    reveal_strlit("settings.restart_requirements");
    reveal_strlit("dev.status");
    reveal_strlit("scan.start");
    reveal_strlit("scan.cancel");
    reveal_strlit("update.start");
    reveal_strlit("activity.log");
    reveal_strlit("argus.analyze");
    reveal_strlit("argus.reload");
    reveal_strlit("runtime.scan_buffer");
    reveal_strlit("memory.scan_process");
    reveal_strlit("quarantine.add");
    reveal_strlit("calibration.report_safe");
    reveal_strlit("diagnostics.export");
    reveal_strlit("dev.set_developer_mode");
    reveal_strlit("benchmark.run");
    reveal_strlit("settings.set");
    reveal_strlit("settings.set_full");
    reveal_strlit("protection.set_critical");
    reveal_strlit("protection.disable");
    reveal_strlit("protection.enable");
    reveal_strlit("sources.set");
    reveal_strlit("sources.update");
    reveal_strlit("sources.rollback");
    reveal_strlit("engine.reload");
    reveal_strlit("quarantine.restore");
    reveal_strlit("quarantine.restore_as");
    reveal_strlit("quarantine.delete");
}

/// Who may call each method: a method has the class that it is listed under here,
/// and one that is not listed has none.
pub proof fn class_of_each_method(method: Seq<char>)
    ensures
        (policy_of(method) matches Some(p) && p.class is PublicStatus) <==> (method == "health"@
            || method == "engine.status"@
            || method == "scan.status"@
            || method == "update.status"@
            || method == "argus.version"@
            || method == "security.challenge"@),
        (policy_of(method) matches Some(p) && p.class is AuthenticatedRead) <==> (method == "watcher.status"@
            || method == "webprotection.status"@
            || method == "idle_scanner.status"@
            || method == "scan.history"@
            || method == "activity.list"@
            || method == "stats.runtime"@
            || method == "runtime.status"@
            || method == "trust.status"@
            || method == "detections.list"@
            || method == "quarantine.list"@
            || method == "sources.status"@
            || method == "sources.list"@
            || method == "argus.packs"@
            || method == "argus.verdicts"@
            || method == "memory.list_processes"@
            || method == "settings.get"@
            || method == "settings.get_full"@
            || method == "settings.get_defaults"@
            || method == "settings.restart_requirements"@
            || method == "dev.status"@),
        (policy_of(method) matches Some(p) && p.class is AuthenticatedAction) <==> (method == "system.fullscreen_report"@
            || method == "scan.start"@
            || method == "scan.cancel"@
            || method == "update.start"@
            || method == "activity.log"@
            || method == "argus.analyze"@
            || method == "runtime.scan_buffer"@
            || method == "memory.scan_process"@
            || method == "calibration.report_safe"@
            || method == "diagnostics.export"@
            || method == "dev.set_developer_mode"@
            || method == "benchmark.run"@),
        (policy_of(method) matches Some(p) && p.class is PrivilegedMutation) <==> (method == "argus.reload"@
            || method == "quarantine.add"@
            || method == "settings.set"@
            || method == "settings.set_full"@
            || method == "protection.set_critical"@
            || method == "protection.disable"@
            || method == "protection.enable"@
            || method == "sources.set"@
            || method == "sources.update"@
            || method == "sources.rollback"@
            || method == "engine.reload"@),
        (policy_of(method) matches Some(p) && p.class is DangerousOperation) <==> (method == "quarantine.restore"@
            || method == "quarantine.restore_as"@
            || method == "quarantine.delete"@),
{
    lemma_method_names();
    lemma_policy_of(method);
    lemma_status_methods(method);
    lemma_query_methods(method);
    lemma_settings_methods(method);
    lemma_action_methods(method);
    lemma_quarantine_methods(method);
    lemma_mutation_methods(method);
    lemma_dangerous_methods(method);
}

/// How much each method may carry, in bytes.
pub proof fn payload_limit_of_each_method(method: Seq<char>)
    ensures
        (policy_of(method) matches Some(p) && p.max_payload_bytes == 256) <==> (method == "system.fullscreen_report"@),
        (policy_of(method) matches Some(p) && p.max_payload_bytes == 512) <==> (method == "health"@
            || method == "engine.status"@
            || method == "scan.status"@
            || method == "watcher.status"@
            || method == "webprotection.status"@
            || method == "idle_scanner.status"@
            || method == "update.status"@
            || method == "argus.version"@
            || method == "settings.get"@
            || method == "dev.status"@
            || method == "scan.cancel"@),
        (policy_of(method) matches Some(p) && p.max_payload_bytes == 1024) <==> (method == "security.challenge"@
            || method == "scan.history"@
            || method == "activity.list"@
            || method == "stats.runtime"@
            || method == "runtime.status"@
            || method == "trust.status"@
            || method == "quarantine.list"@
            || method == "sources.status"@
            || method == "sources.list"@
            || method == "argus.packs"@
            || method == "memory.list_processes"@
            || method == "update.start"@
            || method == "argus.reload"@
            || method == "memory.scan_process"@
            || method == "diagnostics.export"@
            || method == "dev.set_developer_mode"@
            || method == "benchmark.run"@
            || method == "protection.disable"@
            || method == "protection.enable"@
            || method == "sources.update"@
            || method == "sources.rollback"@
            || method == "engine.reload"@
            || method == "quarantine.restore"@
            || method == "quarantine.delete"@),
        (policy_of(method) matches Some(p) && p.max_payload_bytes == 4096) <==> (method == "detections.list"@
            || method == "argus.verdicts"@
            || method == "scan.start"@
            || method == "activity.log"@
            || method == "quarantine.add"@
            || method == "calibration.report_safe"@
            || method == "sources.set"@
            || method == "quarantine.restore_as"@),
        (policy_of(method) matches Some(p) && p.max_payload_bytes == 8192) <==> (method == "settings.get_defaults"@
            || method == "settings.restart_requirements"@
            || method == "argus.analyze"@),
        (policy_of(method) matches Some(p) && p.max_payload_bytes == 16384) <==> (method == "settings.get_full"@
            || method == "settings.set"@),
        (policy_of(method) matches Some(p) && p.max_payload_bytes == 32768) <==> (method == "settings.set_full"@
            || method == "protection.set_critical"@),
        (policy_of(method) matches Some(p) && p.max_payload_bytes == 1048576) <==> (method == "runtime.scan_buffer"@),
{
    lemma_method_names();
    lemma_policy_of(method);
    lemma_status_methods(method);
    lemma_query_methods(method);
    lemma_settings_methods(method);
    lemma_action_methods(method);
    lemma_quarantine_methods(method);
    lemma_mutation_methods(method);
    lemma_dangerous_methods(method);
}

/// Which methods share a rate limit.
pub proof fn rate_bucket_of_each_method(method: Seq<char>)
    ensures
        (policy_of(method) matches Some(p) && p.rate_bucket is Status) <==> (method == "health"@
            || method == "engine.status"@
            || method == "scan.status"@
            || method == "watcher.status"@
            || method == "webprotection.status"@
            || method == "idle_scanner.status"@
            || method == "update.status"@
            || method == "argus.version"@
            || method == "security.challenge"@
            || method == "scan.history"@
            || method == "activity.list"@
            || method == "stats.runtime"@
            || method == "runtime.status"@
            || method == "trust.status"@
            || method == "detections.list"@
            || method == "sources.status"@
            || method == "sources.list"@
            || method == "argus.packs"@
            || method == "argus.verdicts"@
            || method == "settings.get"@
            || method == "system.fullscreen_report"@
            || method == "settings.get_full"@
            || method == "settings.get_defaults"@
            || method == "settings.restart_requirements"@
            || method == "dev.status"@),
        (policy_of(method) matches Some(p) && p.rate_bucket is QuarantineOps) <==> (method == "quarantine.list"@
            || method == "quarantine.add"@
            || method == "calibration.report_safe"@
            || method == "quarantine.restore"@
            || method == "quarantine.restore_as"@
            || method == "quarantine.delete"@),
        (policy_of(method) matches Some(p) && p.rate_bucket is MemoryScan) <==> (method == "memory.list_processes"@
            || method == "runtime.scan_buffer"@
            || method == "memory.scan_process"@),
        (policy_of(method) matches Some(p) && p.rate_bucket is ScanControl) <==> (method == "scan.start"@
            || method == "scan.cancel"@
            || method == "update.start"@
            || method == "argus.analyze"@
            || method == "argus.reload"@
            || method == "engine.reload"@),
        (policy_of(method) matches Some(p) && p.rate_bucket is DiagnosticsExport) <==> (method == "activity.log"@
            || method == "diagnostics.export"@
            || method == "benchmark.run"@),
        (policy_of(method) matches Some(p) && p.rate_bucket is ConfigMutation) <==> (method == "dev.set_developer_mode"@
            || method == "settings.set"@
            || method == "settings.set_full"@
            || method == "protection.set_critical"@
            || method == "protection.disable"@
            || method == "protection.enable"@),
        (policy_of(method) matches Some(p) && p.rate_bucket is SourcesMutation) <==> (method == "sources.set"@
            || method == "sources.update"@
            || method == "sources.rollback"@),
{
    lemma_method_names();
    lemma_policy_of(method);
    lemma_status_methods(method);
    lemma_query_methods(method);
    lemma_settings_methods(method);
    lemma_action_methods(method);
    lemma_quarantine_methods(method);
    lemma_mutation_methods(method);
    lemma_dangerous_methods(method);
}

/// Which methods leave a trace in the audit log.
pub proof fn audited_methods(method: Seq<char>)
    ensures
        (policy_of(method) matches Some(p) && p.audit_log) <==> (method == "scan.start"@
            || method == "scan.cancel"@
            || method == "update.start"@
            || method == "argus.reload"@
            || method == "runtime.scan_buffer"@
            || method == "memory.scan_process"@
            || method == "quarantine.add"@
            || method == "calibration.report_safe"@
            || method == "dev.set_developer_mode"@
            || method == "settings.set"@
            || method == "settings.set_full"@
            || method == "protection.set_critical"@
            || method == "protection.disable"@
            || method == "protection.enable"@
            || method == "sources.set"@
            || method == "sources.update"@
            || method == "sources.rollback"@
            || method == "engine.reload"@
            || method == "quarantine.restore"@
            || method == "quarantine.restore_as"@
            || method == "quarantine.delete"@),
{
    lemma_method_names();
    lemma_policy_of(method);
    lemma_status_methods(method);
    lemma_query_methods(method);
    lemma_settings_methods(method);
    lemma_action_methods(method);
    lemma_quarantine_methods(method);
    lemma_mutation_methods(method);
    lemma_dangerous_methods(method);
}

/// What only reads is served at any time; what acts waits for the engine, and what
/// changes the security posture or cannot be undone is audited as well.
pub proof fn class_decides_when_served(method: Seq<char>)
    ensures
        policy_of(method) matches Some(p) ==> {
            &&& p.allowed_while_reloading <==> (p.class is PublicStatus || p.class
                is AuthenticatedRead)
            &&& p.allowed_while_degraded <==> (p.class is PublicStatus || p.class
                is AuthenticatedRead)
            &&& p.class is PrivilegedMutation || p.class is DangerousOperation ==> p.audit_log
            &&& p.class is PublicStatus || p.class is AuthenticatedRead ==> !p.audit_log
            &&& !(p.rate_bucket is Unlimited)
        },
{
    lemma_policy_of(method);
    lemma_status_methods(method);
    lemma_query_methods(method);
    lemma_settings_methods(method);
    lemma_action_methods(method);
    lemma_quarantine_methods(method);
    lemma_mutation_methods(method);
    lemma_dangerous_methods(method);
}

} // verus!
