//! Changing settings over the pipe.
//!
//! Settings on which detection depends cannot be changed along with the others:
//! whatever a caller sends for them, the values in force stay.

use super::critical::{Critical, CriticalConfig};
use super::dispatch::{INSUFFICIENT_PRIVILEGE, INVALID_PARAMS};
use crate::scan::job::ActivityEvent;
use crate::text::{join, joined, owned_view, same, text_view, texts};
use vstd::prelude::*;

verus! {

/// Settings of the developer mode.
pub struct DeveloperConfig<T = String> {
    pub enabled: bool,
    pub telemetry_enabled: bool,
    pub telemetry_max_kb: u64,
    /// Digest of the password; empty where none was set.
    pub password_sha256: T,
}

impl View for DeveloperConfig {
    type V = DeveloperConfig<Seq<char>>;

    open spec fn view(&self) -> DeveloperConfig<Seq<char>> {
        DeveloperConfig {
            enabled: self.enabled,
            telemetry_enabled: self.telemetry_enabled,
            telemetry_max_kb: self.telemetry_max_kb,
            password_sha256: self.password_sha256@,
        }
    }
}

impl DeveloperConfig {
    /// A copy with the same settings.
    pub fn duplicate(&self) -> (copy: Self)
        ensures
            copy@ == self@,
    {
        DeveloperConfig {
            enabled: self.enabled,
            telemetry_enabled: self.telemetry_enabled,
            telemetry_max_kb: self.telemetry_max_kb,
            password_sha256: self.password_sha256.clone(),
        }
    }
}

/// The settings of the daemon. `R` holds the ones that no rule speaks of.
pub struct DaemonConfig<R> {
    pub critical: CriticalConfig,
    pub developer: DeveloperConfig,
    pub rest: R,
}

/// The settings of the developer mode that a request leads to: the digest of the
/// password stays.
pub open spec fn pinned_developer(
    requested: DeveloperConfig<Seq<char>>,
    current: DeveloperConfig<Seq<char>>,
) -> DeveloperConfig<Seq<char>> {
    DeveloperConfig { password_sha256: current.password_sha256, ..requested }
}

/// Take the requested settings, but keep the critical ones and the digest of the
/// developer's password as they are.
pub fn pin_settings<R>(requested: DaemonConfig<R>, current: DaemonConfig<R>) -> (pinned:
    DaemonConfig<R>)
    ensures
        pinned.critical@ == current.critical@,
        pinned.developer@ == pinned_developer(requested.developer@, current.developer@),
        pinned.developer@ == (DeveloperConfig {
            password_sha256: current.developer.password_sha256@,
            ..requested.developer@
        }),
        pinned.rest == requested.rest,
{
    let developer = DeveloperConfig {
        enabled: requested.developer.enabled,
        telemetry_enabled: requested.developer.telemetry_enabled,
        telemetry_max_kb: requested.developer.telemetry_max_kb,
        password_sha256: current.developer.password_sha256,
    };
    DaemonConfig { critical: current.critical, developer, rest: requested.rest }
}

/// The developer mode without the digest of its password.
pub open spec fn redacted(config: DeveloperConfig<Seq<char>>) -> DeveloperConfig<Seq<char>> {
    DeveloperConfig { password_sha256: Seq::empty(), ..config }
}

/// Leave out the digest before settings go over the pipe.
pub fn redact<R>(config: &mut DaemonConfig<R>)
    ensures
        final(config).developer@ == redacted(old(config).developer@),
        final(config).developer@ == (DeveloperConfig {
            password_sha256: Seq::<char>::empty(),
            ..old(config).developer@
        }),
        final(config).critical == old(config).critical,
        final(config).rest == old(config).rest,
{
    config.developer.password_sha256 = String::new();
    assert(config.developer.password_sha256@ =~= Seq::<char>::empty());
}

/// An error answer, with what to enter in the activity log.
pub struct Rejection {
    pub code: i32,
    pub message: String,
    pub event: ActivityEvent,
}

/// The name of a setting where it differs.
pub open spec fn named(differs: bool, name: Seq<char>) -> Seq<Seq<char>> {
    if differs {
        seq![name]
    } else {
        Seq::empty()
    }
}

/// The names of the critical settings in which two configurations differ. The
/// mirrors that the scan pipeline reads have none of their own.
pub open spec fn differing(current: Critical, asked: Critical) -> Seq<Seq<char>> {
    Seq::<Seq<char>>::empty()
        + named(current.realtime_enabled != asked.realtime_enabled, "realtime_enabled"@)
        + named(current.auto_quarantine != asked.auto_quarantine, "auto_quarantine"@)
        + named(current.heuristic_alerts != asked.heuristic_alerts, "heuristic_alerts"@)
        + named(current.idle_scan_enabled != asked.idle_scan_enabled, "idle_scan_enabled"@)
        + named(current.scheduled_scan_enabled != asked.scheduled_scan_enabled, "scheduled_scan_enabled"@)
        + named(current.argus_worker_enabled != asked.argus_worker_enabled, "argus_worker_enabled"@)
        + named(current.enhanced_signature_provider != asked.enhanced_signature_provider, "enhanced_signature_provider"@)
        + named(current.argus_worker_path != asked.argus_worker_path, "argus_worker_path"@)
        + named(current.excluded_paths != asked.excluded_paths, "excluded_paths"@)
        + named(current.excluded_extensions != asked.excluded_extensions, "excluded_extensions"@)
        + named(current.excluded_detections != asked.excluded_detections, "excluded_detections"@)
        + named(current.trusted_hashes != asked.trusted_hashes, "trusted_hashes"@)
        + named(current.realtime_roots != asked.realtime_roots, "realtime_roots"@)
}

fn note(differs: bool, name: &str, names: &mut Vec<String>)
    ensures
        texts(final(names)@) == texts(old(names)@) + named(differs, name@),
{
    let ghost before = names@;
    if differs {
        names.push(name.to_owned());
    }
    assert(texts(names@) =~= texts(before) + named(differs, name@));
}

fn same_texts(a: &Vec<String>, b: &Vec<String>) -> (yes: bool)
    ensures
        yes == (texts(a@) == texts(b@)),
{
    if a.len() != b.len() {
        assert(texts(a@).len() != texts(b@).len());
        return false;
    }
    let mut i: usize = 0;
    while i < a.len()
        invariant
            a@.len() == b@.len(),
            i <= a@.len(),
            forall|k: int| 0 <= k < i ==> #[trigger] texts(a@)[k] == texts(b@)[k],
        decreases a@.len() - i,
    {
        if !same(a[i].as_str(), b[i].as_str()) {
            assert(texts(a@)[i as int] != texts(b@)[i as int]);
            return false;
        }
        i = i + 1;
    }
    assert(texts(a@) =~= texts(b@));
    true
}

/// Name the critical settings that a request would change.
#[verifier::spinoff_prover]
#[verifier::rlimit(40)]
pub fn critical_diff(current: &CriticalConfig, asked: &CriticalConfig) -> (names: Vec<String>)
    ensures
        texts(names@) == differing(current@, asked@),
{
    let mut names: Vec<String> = Vec::new();
    assert(texts(names@) =~= Seq::<Seq<char>>::empty());
    note(current.realtime_enabled != asked.realtime_enabled, "realtime_enabled", &mut names);
    note(current.auto_quarantine != asked.auto_quarantine, "auto_quarantine", &mut names);
    note(current.heuristic_alerts != asked.heuristic_alerts, "heuristic_alerts", &mut names);
    note(current.idle_scan_enabled != asked.idle_scan_enabled, "idle_scan_enabled", &mut names);
    note(current.scheduled_scan_enabled != asked.scheduled_scan_enabled, "scheduled_scan_enabled", &mut names);
    note(current.argus_worker_enabled != asked.argus_worker_enabled, "argus_worker_enabled", &mut names);
    note(!same(current.enhanced_signature_provider.as_str(), asked.enhanced_signature_provider.as_str()), "enhanced_signature_provider", &mut names);
    note(!same(current.argus_worker_path.as_str(), asked.argus_worker_path.as_str()), "argus_worker_path", &mut names);
    note(!same_texts(&current.excluded_paths, &asked.excluded_paths), "excluded_paths", &mut names);
    note(!same_texts(&current.excluded_extensions, &asked.excluded_extensions), "excluded_extensions", &mut names);
    note(!same_texts(&current.excluded_detections, &asked.excluded_detections), "excluded_detections", &mut names);
    note(!same_texts(&current.trusted_hashes, &asked.trusted_hashes), "trusted_hashes", &mut names);
    note(!same_texts(&current.realtime_roots, &asked.realtime_roots), "realtime_roots", &mut names);
    names
}

/// Refuse a change that would touch critical settings; `differing` names them.
pub fn reject_critical_changes(differing: &Vec<String>) -> (rejection: Option<Rejection>)
    ensures
        rejection is None <==> differing@.len() == 0,
        rejection matches Some(r) ==> {
            &&& r.code == INSUFFICIENT_PRIVILEGE
            &&& r.message@
                == "rejected: kill-vector fields can only be changed via protection.set_critical: "@
                + joined(texts(differing@), ", "@)
            &&& r.event@ == (ActivityEvent {
                severity: "warning"@,
                category: "settings"@,
                title: "settings.set_full rejected — kill-vector mutation: "@ + joined(
                    texts(differing@),
                    ", "@,
                ),
                message: "Use protection.set_critical (requires UAC) for these fields"@,
                scan_id: None,
            })
        },
{
    if differing.len() == 0 {
        return None;
    }
    let names = join(differing, ", ");
    let mut message =
        "rejected: kill-vector fields can only be changed via protection.set_critical: ".to_owned();
    message.append(names.as_str());
    let mut title = "settings.set_full rejected — kill-vector mutation: ".to_owned();
    title.append(names.as_str());
    Some(
        Rejection {
            code: INSUFFICIENT_PRIVILEGE,
            message,
            event: ActivityEvent::general(
                "warning",
                "settings",
                title,
                "Use protection.set_critical (requires UAC) for these fields",
            ),
        },
    )
}

/// The entry on a change of the developer mode.
pub open spec fn developer_event(enabled: bool, telemetry: bool) -> ActivityEvent<Seq<char>> {
    ActivityEvent {
        severity: "info"@,
        category: "developer"@,
        title: "Developer mode "@ + (if enabled {
            "enabled"@
        } else {
            "disabled"@
        }) + " (telemetry "@ + (if telemetry {
            "on"@
        } else {
            "off"@
        }) + ")"@,
        message: ""@,
        scan_id: None::<Seq<char>>,
    }
}

/// Whether the developer mode may be switched: the password matches, and one was set.
pub open spec fn developer_unlocked(
    config: DeveloperConfig<Seq<char>>,
    password_matches: bool,
) -> bool {
    password_matches && config.password_sha256.len() > 0
}

/// The developer mode after it was switched.
pub open spec fn switched_developer(
    config: DeveloperConfig<Seq<char>>,
    enabled: bool,
    telemetry_enabled: Option<bool>,
) -> DeveloperConfig<Seq<char>> {
    DeveloperConfig {
        enabled,
        telemetry_enabled: match telemetry_enabled {
            Some(t) => t,
            None => config.telemetry_enabled,
        },
        ..config
    }
}

/// Switch the developer mode. It takes the password that was set; where none was
/// set, nothing matches.
pub fn set_developer_mode(
    config: &mut DeveloperConfig,
    password_matches: bool,
    enabled: bool,
    telemetry_enabled: Option<bool>,
) -> (answer: Result<ActivityEvent, Rejection>)
    ensures
        answer is Ok <==> password_matches && old(config).password_sha256@.len() > 0,
        answer is Ok <==> developer_unlocked(old(config)@, password_matches),
        final(config)@ == if developer_unlocked(old(config)@, password_matches) {
            switched_developer(old(config)@, enabled, telemetry_enabled)
        } else {
            old(config)@
        },
        match answer {
            Ok(event) => {
                &&& final(config)@ == (DeveloperConfig {
                    enabled,
                    telemetry_enabled: match telemetry_enabled {
                        Some(t) => t,
                        None => old(config).telemetry_enabled,
                    },
                    ..old(config)@
                })
                &&& event@ == developer_event(final(config).enabled, final(config).telemetry_enabled)
            },
            Err(r) => {
                &&& final(config)@ == old(config)@
                &&& r.code == INVALID_PARAMS
                &&& r.message@ == "developer mode locked: invalid password or not provisioned"@
                &&& r.event@ == (ActivityEvent {
                    severity: "warning"@,
                    category: "developer"@,
                    title: "Developer-mode toggle rejected (bad/absent password)"@,
                    message: ""@,
                    scan_id: None,
                })
            },
        },
{
    if !password_matches || config.password_sha256.as_str().unicode_len() == 0 {
        return Err(
            Rejection {
                code: INVALID_PARAMS,
                message: "developer mode locked: invalid password or not provisioned".to_owned(),
                event: ActivityEvent::general(
                    "warning",
                    "developer",
                    "Developer-mode toggle rejected (bad/absent password)".to_owned(),
                    "",
                ),
            },
        );
    }
    config.enabled = enabled;
    if let Some(t) = telemetry_enabled {
        config.telemetry_enabled = t;
    }
    let mut title = "Developer mode ".to_owned();
    title.append(
        if config.enabled {
            "enabled"
        } else {
            "disabled"
        },
    );
    title.append(" (telemetry ");
    title.append(
        if config.telemetry_enabled {
            "on"
        } else {
            "off"
        },
    );
    title.append(")");
    Ok(ActivityEvent::general("info", "developer", title, ""))
}

/// Report on the developer mode, without the digest.
#[derive(Debug, Clone, Copy, PartialEq, Eq, Structural)]
pub struct DeveloperStatus {
    pub enabled: bool,
    pub telemetry_enabled: bool,
    /// Whether a password was set.
    pub provisioned: bool,
    pub telemetry_max_kb: u64,
}

/// The report on the developer mode.
pub open spec fn status_of_developer(config: DeveloperConfig<Seq<char>>) -> DeveloperStatus {
    DeveloperStatus {
        enabled: config.enabled,
        telemetry_enabled: config.telemetry_enabled,
        provisioned: config.password_sha256.len() > 0,
        telemetry_max_kb: config.telemetry_max_kb,
    }
}

pub fn developer_status(config: &DeveloperConfig) -> (status: DeveloperStatus)
    ensures
        status == status_of_developer(config@),
        status == (DeveloperStatus {
            enabled: config.enabled,
            telemetry_enabled: config.telemetry_enabled,
            provisioned: config.password_sha256@.len() > 0,
            telemetry_max_kb: config.telemetry_max_kb,
        }),
{
    DeveloperStatus {
        enabled: config.enabled,
        telemetry_enabled: config.telemetry_enabled,
        provisioned: config.password_sha256.as_str().unicode_len() > 0,
        telemetry_max_kb: config.telemetry_max_kb,
    }
}

/// Why a provider of signatures cannot be chosen.
pub open spec fn provider_error(provider: Seq<char>, known: bool) -> Option<Seq<char>> {
    if provider != "none"@ && !known {
        Some("unknown provider: "@ + provider)
    } else {
        None
    }
}

/// Why the signatures of a provider cannot be updated.
pub open spec fn provider_update_error(provider: Seq<char>, known: bool) -> Option<Seq<char>> {
    if provider == "none"@ {
        Some("no enhanced provider configured"@)
    } else if !known {
        Some("configured provider not found in registry"@)
    } else {
        None
    }
}

/// Refuse a provider of signatures that is not known; "none" always is.
pub fn check_provider(provider: &str, known: bool) -> (error: Option<String>)
    ensures
        owned_view(error) == provider_error(provider@, known),
        owned_view(error) == if provider@ != "none"@ && !known {
            Some("unknown provider: "@ + provider@)
        } else {
            None
        },
{
    if *provider == *"none" || known {
        return None;
    }
    let mut error = "unknown provider: ".to_owned();
    error.append(provider);
    Some(error)
}

/// Why the signatures of the configured provider cannot be updated.
pub fn check_provider_update(provider: &str, known: bool) -> (error: Option<&'static str>)
    ensures
        text_view(error) == provider_update_error(provider@, known),
        text_view(error) == if provider@ == "none"@ {
            Some("no enhanced provider configured"@)
        } else if !known {
            Some("configured provider not found in registry"@)
        } else {
            None
        },
{
    if same(provider, "none") {
        Some("no enhanced provider configured")
    } else if !known {
        Some("configured provider not found in registry")
    } else {
        None
    }
}

#[verifier::opaque]
spec fn plus(names: Seq<Seq<char>>, differs: bool, name: Seq<char>) -> Seq<Seq<char>> {
    names + named(differs, name)
}

spec fn gathered(
    realtime_enabled: bool,
    auto_quarantine: bool,
    heuristic_alerts: bool,
    idle_scan_enabled: bool,
    scheduled_scan_enabled: bool,
    argus_worker_enabled: bool,
    enhanced_signature_provider: bool,
    argus_worker_path: bool,
    excluded_paths: bool,
    excluded_extensions: bool,
    excluded_detections: bool,
    trusted_hashes: bool,
    realtime_roots: bool,
) -> Seq<Seq<char>> {
    let l0 = Seq::<Seq<char>>::empty();
    let l1 = plus(l0, realtime_enabled, "realtime_enabled"@);
    let l2 = plus(l1, auto_quarantine, "auto_quarantine"@);
    let l3 = plus(l2, heuristic_alerts, "heuristic_alerts"@);
    let l4 = plus(l3, idle_scan_enabled, "idle_scan_enabled"@);
    let l5 = plus(l4, scheduled_scan_enabled, "scheduled_scan_enabled"@);
    let l6 = plus(l5, argus_worker_enabled, "argus_worker_enabled"@);
    let l7 = plus(l6, enhanced_signature_provider, "enhanced_signature_provider"@);
    let l8 = plus(l7, argus_worker_path, "argus_worker_path"@);
    let l9 = plus(l8, excluded_paths, "excluded_paths"@);
    let l10 = plus(l9, excluded_extensions, "excluded_extensions"@);
    let l11 = plus(l10, excluded_detections, "excluded_detections"@);
    let l12 = plus(l11, trusted_hashes, "trusted_hashes"@);
    let l13 = plus(l12, realtime_roots, "realtime_roots"@);
    l13
}

#[verifier::opaque]
spec fn lists(names: Seq<Seq<char>>, x: Seq<char>) -> bool {
    names.contains(x)
}

proof fn lemma_named(a: Seq<Seq<char>>, differs: bool, name: Seq<char>, x: Seq<char>)
    ensures
        lists(plus(a, differs, name), x) <==> lists(a, x) || (differs && x == name),
        plus(a, differs, name).len() == a.len() + if differs {
            1int
        } else {
            0int
        },
{
    reveal(lists);
    reveal(plus);
    let all = a + named(differs, name);
    if a.contains(x) {
        let i = choose|i: int| 0 <= i < a.len() && a[i] == x;
        assert(all[i] == x);
    }
    if differs {
        assert(all[a.len() as int] == name);
    }
    if all.contains(x) {
        let i = choose|i: int| 0 <= i < all.len() && all[i] == x;
        if i < a.len() {
            assert(a[i] == x);
        }
    }
}

proof fn lemma_gathered(
    realtime_enabled: bool,
    auto_quarantine: bool,
    heuristic_alerts: bool,
    idle_scan_enabled: bool,
    scheduled_scan_enabled: bool,
    argus_worker_enabled: bool,
    enhanced_signature_provider: bool,
    argus_worker_path: bool,
    excluded_paths: bool,
    excluded_extensions: bool,
    excluded_detections: bool,
    trusted_hashes: bool,
    realtime_roots: bool,
    x: Seq<char>,
)
    ensures
        lists(
            gathered(
                realtime_enabled,
                auto_quarantine,
                heuristic_alerts,
                idle_scan_enabled,
                scheduled_scan_enabled,
                argus_worker_enabled,
                enhanced_signature_provider,
                argus_worker_path,
                excluded_paths,
                excluded_extensions,
                excluded_detections,
                trusted_hashes,
                realtime_roots,
            ),
            x,
        ) <==> {
            ||| realtime_enabled && x == "realtime_enabled"@
            ||| auto_quarantine && x == "auto_quarantine"@
            ||| heuristic_alerts && x == "heuristic_alerts"@
            ||| idle_scan_enabled && x == "idle_scan_enabled"@
            ||| scheduled_scan_enabled && x == "scheduled_scan_enabled"@
            ||| argus_worker_enabled && x == "argus_worker_enabled"@
            ||| enhanced_signature_provider && x == "enhanced_signature_provider"@
            ||| argus_worker_path && x == "argus_worker_path"@
            ||| excluded_paths && x == "excluded_paths"@
            ||| excluded_extensions && x == "excluded_extensions"@
            ||| excluded_detections && x == "excluded_detections"@
            ||| trusted_hashes && x == "trusted_hashes"@
            ||| realtime_roots && x == "realtime_roots"@
        },
        gathered(
            realtime_enabled,
            auto_quarantine,
            heuristic_alerts,
            idle_scan_enabled,
            scheduled_scan_enabled,
            argus_worker_enabled,
            enhanced_signature_provider,
            argus_worker_path,
            excluded_paths,
            excluded_extensions,
            excluded_detections,
            trusted_hashes,
            realtime_roots,
        ).len() == 0 <==> {
            &&& !realtime_enabled
            &&& !auto_quarantine
            &&& !heuristic_alerts
            &&& !idle_scan_enabled
            &&& !scheduled_scan_enabled
            &&& !argus_worker_enabled
            &&& !enhanced_signature_provider
            &&& !argus_worker_path
            &&& !excluded_paths
            &&& !excluded_extensions
            &&& !excluded_detections
            &&& !trusted_hashes
            &&& !realtime_roots
        },
{
    let l0 = Seq::<Seq<char>>::empty();
    assert(!lists(l0, x)) by {
        reveal(lists);
    }
    let l1 = plus(l0, realtime_enabled, "realtime_enabled"@);
    lemma_named(l0, realtime_enabled, "realtime_enabled"@, x);
    let l2 = plus(l1, auto_quarantine, "auto_quarantine"@);
    lemma_named(l1, auto_quarantine, "auto_quarantine"@, x);
    let l3 = plus(l2, heuristic_alerts, "heuristic_alerts"@);
    lemma_named(l2, heuristic_alerts, "heuristic_alerts"@, x);
    let l4 = plus(l3, idle_scan_enabled, "idle_scan_enabled"@);
    lemma_named(l3, idle_scan_enabled, "idle_scan_enabled"@, x);
    let l5 = plus(l4, scheduled_scan_enabled, "scheduled_scan_enabled"@);
    lemma_named(l4, scheduled_scan_enabled, "scheduled_scan_enabled"@, x);
    let l6 = plus(l5, argus_worker_enabled, "argus_worker_enabled"@);
    lemma_named(l5, argus_worker_enabled, "argus_worker_enabled"@, x);
    let l7 = plus(l6, enhanced_signature_provider, "enhanced_signature_provider"@);
    lemma_named(l6, enhanced_signature_provider, "enhanced_signature_provider"@, x);
    let l8 = plus(l7, argus_worker_path, "argus_worker_path"@);
    lemma_named(l7, argus_worker_path, "argus_worker_path"@, x);
    let l9 = plus(l8, excluded_paths, "excluded_paths"@);
    lemma_named(l8, excluded_paths, "excluded_paths"@, x);
    let l10 = plus(l9, excluded_extensions, "excluded_extensions"@);
    lemma_named(l9, excluded_extensions, "excluded_extensions"@, x);
    let l11 = plus(l10, excluded_detections, "excluded_detections"@);
    lemma_named(l10, excluded_detections, "excluded_detections"@, x);
    let l12 = plus(l11, trusted_hashes, "trusted_hashes"@);
    lemma_named(l11, trusted_hashes, "trusted_hashes"@, x);
    let l13 = plus(l12, realtime_roots, "realtime_roots"@);
    lemma_named(l12, realtime_roots, "realtime_roots"@, x);
}

proof fn lemma_differing(current: Critical, asked: Critical)
    ensures
        differing(current, asked) == gathered(
            current.realtime_enabled != asked.realtime_enabled,
            current.auto_quarantine != asked.auto_quarantine,
            current.heuristic_alerts != asked.heuristic_alerts,
            current.idle_scan_enabled != asked.idle_scan_enabled,
            current.scheduled_scan_enabled != asked.scheduled_scan_enabled,
            current.argus_worker_enabled != asked.argus_worker_enabled,
            current.enhanced_signature_provider != asked.enhanced_signature_provider,
            current.argus_worker_path != asked.argus_worker_path,
            current.excluded_paths != asked.excluded_paths,
            current.excluded_extensions != asked.excluded_extensions,
            current.excluded_detections != asked.excluded_detections,
            current.trusted_hashes != asked.trusted_hashes,
            current.realtime_roots != asked.realtime_roots,
        ),
{
    reveal(plus);
}

/// A request that leaves the critical settings alone is not refused for them, and
/// one that touches any is.
pub proof fn only_critical_changes_differ(current: Critical, asked: Critical)
    ensures
        differing(current, asked).len() == 0 <==> asked == (Critical {
            scan_argus_worker_enabled: asked.scan_argus_worker_enabled,
            scan_argus_worker_path: asked.scan_argus_worker_path,
            ..current
        }),
{
    lemma_differing(current, asked);
    lemma_gathered(
        current.realtime_enabled != asked.realtime_enabled,
        current.auto_quarantine != asked.auto_quarantine,
        current.heuristic_alerts != asked.heuristic_alerts,
        current.idle_scan_enabled != asked.idle_scan_enabled,
        current.scheduled_scan_enabled != asked.scheduled_scan_enabled,
        current.argus_worker_enabled != asked.argus_worker_enabled,
        current.enhanced_signature_provider != asked.enhanced_signature_provider,
        current.argus_worker_path != asked.argus_worker_path,
        current.excluded_paths != asked.excluded_paths,
        current.excluded_extensions != asked.excluded_extensions,
        current.excluded_detections != asked.excluded_detections,
        current.trusted_hashes != asked.trusted_hashes,
        current.realtime_roots != asked.realtime_roots,
        ""@,
    );
}

/// A critical setting is named exactly where a request would change it.
pub proof fn changed_settings_are_named(current: Critical, asked: Critical, name: Seq<char>)
    ensures
        differing(current, asked).contains(name) <==> {
            ||| current.realtime_enabled != asked.realtime_enabled && name
                == "realtime_enabled"@
            ||| current.auto_quarantine != asked.auto_quarantine && name
                == "auto_quarantine"@
            ||| current.heuristic_alerts != asked.heuristic_alerts && name
                == "heuristic_alerts"@
            ||| current.idle_scan_enabled != asked.idle_scan_enabled && name
                == "idle_scan_enabled"@
            ||| current.scheduled_scan_enabled != asked.scheduled_scan_enabled && name
                == "scheduled_scan_enabled"@
            ||| current.argus_worker_enabled != asked.argus_worker_enabled && name
                == "argus_worker_enabled"@
            ||| current.enhanced_signature_provider != asked.enhanced_signature_provider && name
                == "enhanced_signature_provider"@
            ||| current.argus_worker_path != asked.argus_worker_path && name
                == "argus_worker_path"@
            ||| current.excluded_paths != asked.excluded_paths && name
                == "excluded_paths"@
            ||| current.excluded_extensions != asked.excluded_extensions && name
                == "excluded_extensions"@
            ||| current.excluded_detections != asked.excluded_detections && name
                == "excluded_detections"@
            ||| current.trusted_hashes != asked.trusted_hashes && name
                == "trusted_hashes"@
            ||| current.realtime_roots != asked.realtime_roots && name
                == "realtime_roots"@
        },
{
    lemma_differing(current, asked);
    lemma_gathered(
        current.realtime_enabled != asked.realtime_enabled,
        current.auto_quarantine != asked.auto_quarantine,
        current.heuristic_alerts != asked.heuristic_alerts,
        current.idle_scan_enabled != asked.idle_scan_enabled,
        current.scheduled_scan_enabled != asked.scheduled_scan_enabled,
        current.argus_worker_enabled != asked.argus_worker_enabled,
        current.enhanced_signature_provider != asked.enhanced_signature_provider,
        current.argus_worker_path != asked.argus_worker_path,
        current.excluded_paths != asked.excluded_paths,
        current.excluded_extensions != asked.excluded_extensions,
        current.excluded_detections != asked.excluded_detections,
        current.trusted_hashes != asked.trusted_hashes,
        current.realtime_roots != asked.realtime_roots,
        name,
    );
    reveal(lists);
}

/// A request never changes the digest of the password; the rest of the developer mode
/// is as it asks.
pub proof fn password_digest_is_pinned(
    requested: DeveloperConfig<Seq<char>>,
    current: DeveloperConfig<Seq<char>>,
)
    ensures
        ({
            let after = pinned_developer(requested, current);
            &&& after.password_sha256 == current.password_sha256
            &&& after.enabled == requested.enabled
            &&& after.telemetry_enabled == requested.telemetry_enabled
            &&& after.telemetry_max_kb == requested.telemetry_max_kb
        }),
{
}

/// Without a password that was set and matches, the developer mode stays locked; with
/// it the mode is as asked, and its telemetry where that is asked for.
pub proof fn password_unlocks_developer_mode(
    config: DeveloperConfig<Seq<char>>,
    password_matches: bool,
    enabled: bool,
    telemetry_enabled: Option<bool>,
)
    ensures
        !password_matches ==> !developer_unlocked(config, password_matches),
        config.password_sha256.len() == 0 ==> !developer_unlocked(config, password_matches),
        password_matches && config.password_sha256.len() > 0 ==> developer_unlocked(
            config,
            password_matches,
        ),
        ({
            let after = switched_developer(config, enabled, telemetry_enabled);
            &&& after.enabled == enabled
            &&& telemetry_enabled matches Some(t) ==> after.telemetry_enabled == t
            &&& telemetry_enabled is None ==> after.telemetry_enabled == config.telemetry_enabled
            &&& after.telemetry_max_kb == config.telemetry_max_kb
            &&& after.password_sha256 == config.password_sha256
        }),
{
}

/// The report tells whether a password was set, but not its digest.
pub proof fn developer_report_hides_the_digest(
    a: DeveloperConfig<Seq<char>>,
    b: DeveloperConfig<Seq<char>>,
)
    requires
        a.enabled == b.enabled,
        a.telemetry_enabled == b.telemetry_enabled,
        a.telemetry_max_kb == b.telemetry_max_kb,
        a.password_sha256.len() > 0,
        b.password_sha256.len() > 0,
    ensures
        status_of_developer(a) == status_of_developer(b),
        status_of_developer(a).provisioned,
        status_of_developer(a).enabled == a.enabled,
        status_of_developer(a).telemetry_enabled == a.telemetry_enabled,
        status_of_developer(a).telemetry_max_kb == a.telemetry_max_kb,
{
}

/// A switch of the developer mode is logged with what is on.
pub proof fn developer_switch_is_logged(enabled: bool, telemetry: bool)
    ensures
        ({
            let e = developer_event(enabled, telemetry);
            &&& e.severity == "info"@ && e.category == "developer"@
            &&& enabled && telemetry ==> e.title == "Developer mode "@ + "enabled"@
                + " (telemetry "@ + "on"@ + ")"@
            &&& enabled && !telemetry ==> e.title == "Developer mode "@ + "enabled"@
                + " (telemetry "@ + "off"@ + ")"@
            &&& !enabled && telemetry ==> e.title == "Developer mode "@ + "disabled"@
                + " (telemetry "@ + "on"@ + ")"@
            &&& !enabled && !telemetry ==> e.title == "Developer mode "@ + "disabled"@
                + " (telemetry "@ + "off"@ + ")"@
        }),
{
}

/// A provider is chosen where it is known, or is none; it is updated where it is known
/// and not none.
pub proof fn unknown_providers_are_refused(provider: Seq<char>, known: bool)
    ensures
        provider_error(provider, known) is None <==> known || provider == "none"@,
        provider_error(provider, known) is Some ==> provider_error(provider, known) == Some(
            "unknown provider: "@ + provider,
        ),
        provider_update_error(provider, known) is None <==> known && provider != "none"@,
        provider == "none"@ ==> provider_update_error(provider, known) == Some(
            "no enhanced provider configured"@,
        ),
        provider != "none"@ && !known ==> provider_update_error(provider, known) == Some(
            "configured provider not found in registry"@,
        ),
{
}

/// Settings that are handed out hold no digest, and everything else as it is.
pub proof fn digest_is_not_handed_out(config: DeveloperConfig<Seq<char>>)
    ensures
        redacted(config).password_sha256.len() == 0,
        redacted(config).enabled == config.enabled,
        redacted(config).telemetry_enabled == config.telemetry_enabled,
        redacted(config).telemetry_max_kb == config.telemetry_max_kb,
{
}

/// The report calls the developer mode provisioned exactly where a password was set.
pub proof fn provisioned_means_a_password(config: DeveloperConfig<Seq<char>>)
    ensures
        status_of_developer(config).provisioned <==> config.password_sha256.len() != 0,
{
}

} // verus!
