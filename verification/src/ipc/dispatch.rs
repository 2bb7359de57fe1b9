//! Dispatch of a request.
//!
//! The dispatcher decides what a request gets: a refusal with its code and
//! message, or the action to perform with its arguments. It applies, in this
//! order, the caller's elevation, the method's policy, the shared secret, the
//! challenge token, and the rules on the method's own parameters.

use super::auth::{
    is_uuid, long_enough, redeemable, token_expires, Challenge, ChallengeSlot, IpcAuth,
};
use super::client_auth::ClientIdentity;
use super::params::{
    bool_field, bool_members, member, text_field, text_members, uint_field, uint_members,
};
use super::policy::{
    class_of_each_method, policy_of, registered, MethodClass, MethodPolicy, MethodRegistry, ENGINE_RELOADING,
    PAYLOAD_TOO_LARGE, RATE_LIMITED, UNAUTHORIZED,
};
use super::rate::{limit, Budgets, RateLimiter};
use crate::text::{
    begins, byte_len, byte_length, contains, contains_char, decimal, decimal_text, first_chars,
    lower_ascii, occurs, owned_view, same, starts_with, take_chars, to_ascii_lowercase, trim,
    trimmed,
};
use vstd::prelude::*;

verus! {

/// The request is no valid JSON-RPC request.
pub const INVALID_REQUEST: i32 = -32600;

/// The frame is no JSON.
pub const PARSE_ERROR: i32 = -32700;

/// There is no such method.
pub const METHOD_NOT_FOUND: i32 = -32601;

/// The parameters are not acceptable.
pub const INVALID_PARAMS: i32 = -32602;

/// The daemon failed.
pub const INTERNAL_ERROR: i32 = -32603;

/// The caller may not do this.
pub const INSUFFICIENT_PRIVILEGE: i32 = -32010;

/// Longest method name, in bytes.
pub const MAX_METHOD_LEN: usize = 64;

/// The parameters that the methods read. `T` is the type of a text.
pub struct Fields<T> {
    pub auth: Option<T>,
    pub token: Option<T>,
    pub challenge_token: Option<T>,
    pub scan_type: Option<T>,
    pub target: Option<T>,
    pub path: Option<T>,
    pub virus_name: Option<T>,
    pub scan_id: Option<T>,
    pub id: Option<T>,
    pub dest: Option<T>,
    pub quarantine_id: Option<T>,
    pub sha256: Option<T>,
    pub file_path: Option<T>,
    pub detection_name: Option<T>,
    pub content: Option<T>,
    pub language: Option<T>,
    pub source_app: Option<T>,
    pub content_name: Option<T>,
    pub severity: Option<T>,
    pub category: Option<T>,
    pub title: Option<T>,
    pub message: Option<T>,
    pub provider: Option<T>,
    pub method: Option<T>,
    pub password: Option<T>,
    pub enabled: Option<bool>,
    pub telemetry_enabled: Option<bool>,
    pub pid: Option<u64>,
    pub passes: Option<u64>,
}

impl View for Fields<String> {
    type V = Fields<Seq<char>>;

    open spec fn view(&self) -> Fields<Seq<char>> {
        Fields {
            auth: owned_view(self.auth),
            token: owned_view(self.token),
            challenge_token: owned_view(self.challenge_token),
            scan_type: owned_view(self.scan_type),
            target: owned_view(self.target),
            path: owned_view(self.path),
            virus_name: owned_view(self.virus_name),
            scan_id: owned_view(self.scan_id),
            id: owned_view(self.id),
            dest: owned_view(self.dest),
            quarantine_id: owned_view(self.quarantine_id),
            sha256: owned_view(self.sha256),
            file_path: owned_view(self.file_path),
            detection_name: owned_view(self.detection_name),
            content: owned_view(self.content),
            language: owned_view(self.language),
            source_app: owned_view(self.source_app),
            content_name: owned_view(self.content_name),
            severity: owned_view(self.severity),
            category: owned_view(self.category),
            title: owned_view(self.title),
            message: owned_view(self.message),
            provider: owned_view(self.provider),
            method: owned_view(self.method),
            password: owned_view(self.password),
            enabled: self.enabled,
            telemetry_enabled: self.telemetry_enabled,
            pid: self.pid,
            passes: self.passes,
        }
    }
}

/// The parameters that a JSON value holds.
pub open spec fn fields_of(v: &serde_json::Value) -> Fields<Seq<char>> {
    Fields {
        auth: member(text_members(v), "auth"@),
        token: member(text_members(v), "token"@),
        challenge_token: member(text_members(v), "challenge_token"@),
        scan_type: member(text_members(v), "type"@),
        target: member(text_members(v), "target"@),
        path: member(text_members(v), "path"@),
        virus_name: member(text_members(v), "virus_name"@),
        scan_id: member(text_members(v), "scan_id"@),
        id: member(text_members(v), "id"@),
        dest: member(text_members(v), "dest"@),
        quarantine_id: member(text_members(v), "quarantine_id"@),
        sha256: member(text_members(v), "sha256"@),
        file_path: member(text_members(v), "file_path"@),
        detection_name: member(text_members(v), "detection_name"@),
        content: member(text_members(v), "content"@),
        language: member(text_members(v), "language"@),
        source_app: member(text_members(v), "source_app"@),
        content_name: member(text_members(v), "content_name"@),
        severity: member(text_members(v), "severity"@),
        category: member(text_members(v), "category"@),
        title: member(text_members(v), "title"@),
        message: member(text_members(v), "message"@),
        provider: member(text_members(v), "provider"@),
        method: member(text_members(v), "method"@),
        password: member(text_members(v), "password"@),
        enabled: member(bool_members(v), "enabled"@),
        telemetry_enabled: member(bool_members(v), "telemetry_enabled"@),
        pid: member(uint_members(v), "pid"@),
        passes: member(uint_members(v), "passes"@),
    }
}

/// Read the parameters that the methods use.
pub fn read_fields(v: &serde_json::Value) -> (fields: Fields<String>)
    ensures
        fields@ == fields_of(v),
{
    Fields {
        auth: text_field(v, "auth"),
        token: text_field(v, "token"),
        challenge_token: text_field(v, "challenge_token"),
        scan_type: text_field(v, "type"),
        target: text_field(v, "target"),
        path: text_field(v, "path"),
        virus_name: text_field(v, "virus_name"),
        scan_id: text_field(v, "scan_id"),
        id: text_field(v, "id"),
        dest: text_field(v, "dest"),
        quarantine_id: text_field(v, "quarantine_id"),
        sha256: text_field(v, "sha256"),
        file_path: text_field(v, "file_path"),
        detection_name: text_field(v, "detection_name"),
        content: text_field(v, "content"),
        language: text_field(v, "language"),
        source_app: text_field(v, "source_app"),
        content_name: text_field(v, "content_name"),
        severity: text_field(v, "severity"),
        category: text_field(v, "category"),
        title: text_field(v, "title"),
        message: text_field(v, "message"),
        provider: text_field(v, "provider"),
        method: text_field(v, "method"),
        password: text_field(v, "password"),
        enabled: bool_field(v, "enabled"),
        telemetry_enabled: bool_field(v, "telemetry_enabled"),
        pid: uint_field(v, "pid"),
        passes: uint_field(v, "passes"),
    }
}

/// No parameters at all.
pub open spec fn no_fields() -> Fields<Seq<char>> {
    Fields {
        auth: None,
        token: None,
        challenge_token: None,
        scan_type: None,
        target: None,
        path: None,
        virus_name: None,
        scan_id: None,
        id: None,
        dest: None,
        quarantine_id: None,
        sha256: None,
        file_path: None,
        detection_name: None,
        content: None,
        language: None,
        source_app: None,
        content_name: None,
        severity: None,
        category: None,
        title: None,
        message: None,
        provider: None,
        method: None,
        password: None,
        enabled: None,
        telemetry_enabled: None,
        pid: None,
        passes: None,
    }
}

impl Fields<String> {
    pub fn empty() -> (fields: Fields<String>)
        ensures
            fields@ == no_fields(),
    {
        Fields {
            auth: None,
            token: None,
            challenge_token: None,
            scan_type: None,
            target: None,
            path: None,
            virus_name: None,
            scan_id: None,
            id: None,
            dest: None,
            quarantine_id: None,
            sha256: None,
            file_path: None,
            detection_name: None,
            content: None,
            language: None,
            source_app: None,
            content_name: None,
            severity: None,
            category: None,
            title: None,
            message: None,
            provider: None,
            method: None,
            password: None,
            enabled: None,
            telemetry_enabled: None,
            pid: None,
            passes: None,
        }
    }
}

/// What an accepted request asks the daemon to do. `T` is the type of a text.
pub enum Action<T> {
    /// Report the engine.
    EngineStatus,
    /// Reload the engine.
    EngineReload,
    /// Start a scan.
    StartScan { scan_type: T, target: Option<T> },
    /// Report the scan.
    ScanStatus,
    /// List past scans.
    ScanHistory,
    /// Cancel the scan.
    CancelScan,
    /// List the quarantine.
    QuarantineList,
    /// Move a file into quarantine.
    QuarantineAdd { path: T, virus_name: T, scan_id: T },
    /// Restore a file to its place.
    QuarantineRestore { id: T },
    /// Restore a file to another place.
    QuarantineRestoreAs { id: T, dest: T },
    /// Destroy a quarantined file.
    QuarantineDelete { id: T },
    /// Record a false positive.
    ReportSafe { quarantine_id: T, sha256: T, file_path: T, detection_name: T },
    /// Report runtime intelligence.
    RuntimeStatus,
    /// Report the trust graph.
    TrustStatus,
    /// Analyse a buffer; `app_name` tells the script language.
    ScanBuffer { content: T, app_name: T, source_app: T, content_name: T },
    /// List the latest detections.
    RecentDetections,
    /// List the detections of one scan.
    DetectionsOf { scan_id: T },
    /// Report the watcher.
    WatcherStatus,
    /// Report the idle scanner.
    IdleScannerStatus,
    /// Report the update.
    UpdateStatus,
    /// Start an update.
    UpdateStart,
    /// List the activity.
    ActivityList,
    /// Log an event of the GUI.
    ActivityLog { severity: T, category: T, title: T, message: T },
    /// Report the statistics.
    RuntimeStats,
    /// Analyse a file.
    ArgusAnalyze { path: T },
    /// List verdicts, of one scan if given.
    ArgusVerdicts { of_scan: Option<T> },
    /// Report the heuristics engine.
    ArgusVersion,
    /// Report the signature sources.
    SourcesStatus,
    /// Change the enhanced signature provider.
    SourcesSet { provider: T },
    /// Update the enhanced signatures.
    SourcesUpdate,
    /// Go back to the official signatures.
    SourcesRollback,
    /// Reload the heuristics.
    ArgusReload,
    /// Report the intelligence packs.
    ArgusPacks,
    /// List processes.
    ListProcesses,
    /// Scan a process.
    ScanProcess { pid: u32 },
    /// Report the settings.
    SettingsGet,
    /// Issue a challenge token for one method.
    IssueChallenge { method: T },
    /// Change the settings.
    SettingsSet,
    /// Report the health.
    Health,
    /// Report every setting.
    SettingsGetFull,
    /// Report the default settings.
    SettingsGetDefaults,
    /// Report which settings need a restart.
    RestartRequirements,
    /// Change every setting that is not critical.
    SettingsSetFull,
    /// Change critical settings.
    SetCritical,
    /// Pause the protection.
    ProtectionDisable,
    /// Resume the protection.
    ProtectionEnable,
    /// Export the diagnostics.
    DiagnosticsExport,
    /// Report the developer mode.
    DevStatus,
    /// Toggle the developer mode.
    SetDeveloperMode { password: T, enabled: bool, telemetry_enabled: Option<bool> },
    /// Run the benchmark.
    Benchmark { passes: u32 },
}

impl View for Action<String> {
    type V = Action<Seq<char>>;

    open spec fn view(&self) -> Action<Seq<char>> {
        match *self {
            Action::EngineStatus => Action::EngineStatus,
            Action::EngineReload => Action::EngineReload,
            Action::StartScan { scan_type, target } => Action::StartScan { scan_type: scan_type@, target: owned_view(target) },
            Action::ScanStatus => Action::ScanStatus,
            Action::ScanHistory => Action::ScanHistory,
            Action::CancelScan => Action::CancelScan,
            Action::QuarantineList => Action::QuarantineList,
            Action::QuarantineAdd { path, virus_name, scan_id } => Action::QuarantineAdd { path: path@, virus_name: virus_name@, scan_id: scan_id@ },
            Action::QuarantineRestore { id } => Action::QuarantineRestore { id: id@ },
            Action::QuarantineRestoreAs { id, dest } => Action::QuarantineRestoreAs { id: id@, dest: dest@ },
            Action::QuarantineDelete { id } => Action::QuarantineDelete { id: id@ },
            Action::ReportSafe { quarantine_id, sha256, file_path, detection_name } => Action::ReportSafe { quarantine_id: quarantine_id@, sha256: sha256@, file_path: file_path@, detection_name: detection_name@ },
            Action::RuntimeStatus => Action::RuntimeStatus,
            Action::TrustStatus => Action::TrustStatus,
            Action::ScanBuffer { content, app_name, source_app, content_name } => Action::ScanBuffer { content: content@, app_name: app_name@, source_app: source_app@, content_name: content_name@ },
            Action::RecentDetections => Action::RecentDetections,
            Action::DetectionsOf { scan_id } => Action::DetectionsOf { scan_id: scan_id@ },
            Action::WatcherStatus => Action::WatcherStatus,
            Action::IdleScannerStatus => Action::IdleScannerStatus,
            Action::UpdateStatus => Action::UpdateStatus,
            Action::UpdateStart => Action::UpdateStart,
            Action::ActivityList => Action::ActivityList,
            Action::ActivityLog { severity, category, title, message } => Action::ActivityLog { severity: severity@, category: category@, title: title@, message: message@ },
            Action::RuntimeStats => Action::RuntimeStats,
            Action::ArgusAnalyze { path } => Action::ArgusAnalyze { path: path@ },
            Action::ArgusVerdicts { of_scan } => Action::ArgusVerdicts { of_scan: owned_view(of_scan) },
            Action::ArgusVersion => Action::ArgusVersion,
            Action::SourcesStatus => Action::SourcesStatus,
            Action::SourcesSet { provider } => Action::SourcesSet { provider: provider@ },
            Action::SourcesUpdate => Action::SourcesUpdate,
            Action::SourcesRollback => Action::SourcesRollback,
            Action::ArgusReload => Action::ArgusReload,
            Action::ArgusPacks => Action::ArgusPacks,
            Action::ListProcesses => Action::ListProcesses,
            Action::ScanProcess { pid } => Action::ScanProcess { pid },
            Action::SettingsGet => Action::SettingsGet,
            Action::IssueChallenge { method } => Action::IssueChallenge { method: method@ },
            Action::SettingsSet => Action::SettingsSet,
            Action::Health => Action::Health,
            Action::SettingsGetFull => Action::SettingsGetFull,
            Action::SettingsGetDefaults => Action::SettingsGetDefaults,
            Action::RestartRequirements => Action::RestartRequirements,
            Action::SettingsSetFull => Action::SettingsSetFull,
            Action::SetCritical => Action::SetCritical,
            Action::ProtectionDisable => Action::ProtectionDisable,
            Action::ProtectionEnable => Action::ProtectionEnable,
            Action::DiagnosticsExport => Action::DiagnosticsExport,
            Action::DevStatus => Action::DevStatus,
            Action::SetDeveloperMode { password, enabled, telemetry_enabled } => Action::SetDeveloperMode { password: password@, enabled, telemetry_enabled },
            Action::Benchmark { passes } => Action::Benchmark { passes },
        }
    }
}

/// What a request gets. `T` is the type of a text.
pub enum Outcome<T> {
    /// An error response.
    Reject { code: i32, message: T },
    /// A result that says `ok: false` and why.
    Refuse { error: T },
    /// A result that holds an error and nothing else.
    Note { error: T },
    /// Perform the action and answer with its result.
    Perform(Action<T>),
}

impl View for Outcome<String> {
    type V = Outcome<Seq<char>>;

    open spec fn view(&self) -> Outcome<Seq<char>> {
        match *self {
            Outcome::Reject { code, message } => Outcome::Reject { code, message: message@ },
            Outcome::Refuse { error } => Outcome::Refuse { error: error@ },
            Outcome::Note { error } => Outcome::Note { error: error@ },
            Outcome::Perform(action) => Outcome::Perform(action@),
        }
    }
}

fn reject(code: i32, message: &str) -> (outcome: Outcome<String>)
    ensures
        outcome@ == (Outcome::Reject { code, message: message@ }),
{
    Outcome::Reject { code, message: message.to_owned() }
}

fn refuse(error: &str) -> (outcome: Outcome<String>)
    ensures
        outcome@ == (Outcome::Refuse::<Seq<char>> { error: error@ }),
{
    Outcome::Refuse { error: error.to_owned() }
}

fn note(error: &str) -> (outcome: Outcome<String>)
    ensures
        outcome@ == (Outcome::Note::<Seq<char>> { error: error@ }),
{
    Outcome::Note { error: error.to_owned() }
}

/// A parameter, or the text that stands for a missing one.
pub open spec fn or_text(field: Option<Seq<char>>, fallback: Seq<char>) -> Seq<char> {
    match field {
        Some(text) => text,
        None => fallback,
    }
}

fn text_or(field: &Option<String>, fallback: &str) -> (text: String)
    ensures
        text@ == or_text(owned_view(*field), fallback@),
{
    match field {
        Some(text) => text.clone(),
        None => fallback.to_owned(),
    }
}

/// Methods that a challenge token can be issued for.
pub open spec fn challengeable(method: Seq<char>) -> bool {
    ||| method == "engine.reload"@
    ||| method == "argus.reload"@
    ||| method == "settings.set"@
    ||| method == "settings.set_full"@
    ||| method == "sources.set"@
    ||| method == "sources.update"@
    ||| method == "sources.rollback"@
    ||| method == "protection.set_critical"@
    ||| method == "protection.disable"@
    ||| method == "protection.enable"@
    ||| method == "quarantine.add"@
    ||| method == "quarantine.restore"@
    ||| method == "quarantine.restore_as"@
    ||| method == "quarantine.delete"@
}

/// Whether a challenge token can be issued for `method`: a closed list, so that
/// no token is ever bound to a name of the caller's making.
pub fn is_challengeable_method(method: &str) -> (yes: bool)
    ensures
        yes == challengeable(method@),
{
    same(method, "engine.reload")
        || same(method, "argus.reload")
        || same(method, "settings.set")
        || same(method, "settings.set_full")
        || same(method, "sources.set")
        || same(method, "sources.update")
        || same(method, "sources.rollback")
        || same(method, "protection.set_critical")
        || same(method, "protection.disable")
        || same(method, "protection.enable")
        || same(method, "quarantine.add")
        || same(method, "quarantine.restore")
        || same(method, "quarantine.restore_as")
        || same(method, "quarantine.delete")
}

/// The message for a caller without the secret, for the methods that need it.
pub open spec fn auth_message(method: Seq<char>, f: Fields<Seq<char>>) -> Option<Seq<char>> {
    if method == "scan.start"@ {
        Some(or_text(f.scan_type, "quick"@) + " scans require IPC authentication"@)
    } else if method == "engine.reload"@ {
        Some("authenticated IPC engine reload required"@)
    } else if method == "scan.cancel"@ {
        Some("authenticated IPC scan cancel required"@)
    } else if method == "quarantine.list"@ {
        Some("authenticated IPC quarantine list required"@)
    } else if method == "calibration.report_safe"@ {
        Some("authenticated IPC update required"@)
    } else if method == "runtime.status"@ {
        Some("authenticated IPC runtime status required"@)
    } else if method == "trust.status"@ {
        Some("authenticated IPC trust status required"@)
    } else if method == "runtime.scan_buffer"@ {
        Some("authenticated IPC required"@)
    } else if method == "detections.list"@ {
        Some("authenticated IPC detections list required"@)
    } else if method == "watcher.status"@ {
        Some("authenticated IPC required for watcher status"@)
    } else if method == "idle_scanner.status"@ {
        Some("authenticated IPC required for idle scanner status"@)
    } else if method == "update.start"@ {
        Some("authenticated IPC update start required"@)
    } else if method == "activity.list"@ {
        Some("authenticated IPC activity list required"@)
    } else if method == "activity.log"@ {
        Some("authenticated IPC activity log required"@)
    } else if method == "argus.analyze"@ {
        Some("authenticated IPC required for ARGUS analysis"@)
    } else if method == "argus.reload"@ {
        Some("authenticated IPC ARGUS reload required"@)
    } else if method == "memory.list_processes"@ {
        Some("authenticated IPC memory access required"@)
    } else if method == "memory.scan_process"@ {
        Some("authenticated IPC memory access required"@)
    } else if method == "settings.get"@ {
        Some("authenticated IPC settings read required"@)
    } else if method == "settings.get_full"@ {
        Some("authenticated IPC settings read required"@)
    } else if method == "settings.get_defaults"@ {
        Some("authenticated IPC settings read required"@)
    } else if method == "settings.restart_requirements"@ {
        Some("authenticated IPC settings read required"@)
    } else if method == "security.challenge"@ {
        Some("authenticated IPC challenge required"@)
    } else if method == "settings.set"@ {
        Some("authenticated IPC settings update required"@)
    } else if method == "settings.set_full"@ {
        Some("authenticated IPC settings update required"@)
    } else if method == "diagnostics.export"@ {
        Some("authenticated IPC diagnostics export required"@)
    } else if method == "dev.status"@ {
        Some("authenticated IPC dev status read required"@)
    } else if method == "dev.set_developer_mode"@ {
        Some("authenticated IPC dev toggle required"@)
    } else if method == "benchmark.run"@ {
        Some("authenticated IPC benchmark run required"@)
    } else {
        None
    }
}

pub fn auth_required(method: &str, f: &Fields<String>) -> (message: Option<String>)
    ensures
        owned_view(message) == auth_message(method@, f@),
{
    if same(method, "scan.start") {
        let mut message = text_or(&f.scan_type, "quick");
        message.append(" scans require IPC authentication");
        return Some(message);
    }
    let message = if same(method, "engine.reload") {
        "authenticated IPC engine reload required"
    } else if same(method, "scan.cancel") {
        "authenticated IPC scan cancel required"
    } else if same(method, "quarantine.list") {
        "authenticated IPC quarantine list required"
    } else if same(method, "calibration.report_safe") {
        "authenticated IPC update required"
    } else if same(method, "runtime.status") {
        "authenticated IPC runtime status required"
    } else if same(method, "trust.status") {
        "authenticated IPC trust status required"
    } else if same(method, "runtime.scan_buffer") {
        "authenticated IPC required"
    } else if same(method, "detections.list") {
        "authenticated IPC detections list required"
    } else if same(method, "watcher.status") {
        "authenticated IPC required for watcher status"
    } else if same(method, "idle_scanner.status") {
        "authenticated IPC required for idle scanner status"
    } else if same(method, "update.start") {
        "authenticated IPC update start required"
    } else if same(method, "activity.list") {
        "authenticated IPC activity list required"
    } else if same(method, "activity.log") {
        "authenticated IPC activity log required"
    } else if same(method, "argus.analyze") {
        "authenticated IPC required for ARGUS analysis"
    } else if same(method, "argus.reload") {
        "authenticated IPC ARGUS reload required"
    } else if same(method, "memory.list_processes") {
        "authenticated IPC memory access required"
    } else if same(method, "memory.scan_process") {
        "authenticated IPC memory access required"
    } else if same(method, "settings.get") {
        "authenticated IPC settings read required"
    } else if same(method, "settings.get_full") {
        "authenticated IPC settings read required"
    } else if same(method, "settings.get_defaults") {
        "authenticated IPC settings read required"
    } else if same(method, "settings.restart_requirements") {
        "authenticated IPC settings read required"
    } else if same(method, "security.challenge") {
        "authenticated IPC challenge required"
    } else if same(method, "settings.set") {
        "authenticated IPC settings update required"
    } else if same(method, "settings.set_full") {
        "authenticated IPC settings update required"
    } else if same(method, "diagnostics.export") {
        "authenticated IPC diagnostics export required"
    } else if same(method, "dev.status") {
        "authenticated IPC dev status read required"
    } else if same(method, "dev.set_developer_mode") {
        "authenticated IPC dev toggle required"
    } else if same(method, "benchmark.run") {
        "authenticated IPC benchmark run required"
    } else {
        return None;
    };
    Some(message.to_owned())
}

/// The token that a method wants, as the caller gave it, and the answer to a
/// caller without it.
pub struct TokenRule<T> {
    pub given: T,
    pub answer: Outcome<T>,
}

pub open spec fn token_rule(method: Seq<char>, f: Fields<Seq<char>>) -> Option<TokenRule<Seq<char>>> {
    let token = or_text(f.token, ""@);
    let challenge_token = or_text(f.challenge_token, ""@);
    if method == "engine.reload"@ {
        Some(TokenRule { given: token, answer: Outcome::Reject { code: INVALID_PARAMS, message: "challenge token required for engine reload"@ } })
    } else if method == "argus.reload"@ {
        Some(TokenRule { given: token, answer: Outcome::Reject { code: INVALID_PARAMS, message: "challenge token required for ARGUS reload"@ } })
    } else if method == "settings.set"@ {
        Some(TokenRule { given: token, answer: Outcome::Reject { code: INVALID_PARAMS, message: "challenge token required for settings update"@ } })
    } else if method == "settings.set_full"@ {
        Some(TokenRule { given: token, answer: Outcome::Reject { code: INVALID_PARAMS, message: "challenge token required for settings update"@ } })
    } else if method == "protection.set_critical"@ {
        Some(TokenRule { given: token, answer: Outcome::Reject { code: INVALID_PARAMS, message: "challenge token required — call security.challenge first"@ } })
    } else if method == "protection.disable"@ {
        Some(TokenRule { given: token, answer: Outcome::Reject { code: INVALID_PARAMS, message: "challenge token required"@ } })
    } else if method == "protection.enable"@ {
        Some(TokenRule { given: token, answer: Outcome::Reject { code: INVALID_PARAMS, message: "challenge token required"@ } })
    } else if method == "sources.set"@ {
        Some(TokenRule { given: challenge_token, answer: Outcome::Reject { code: INSUFFICIENT_PRIVILEGE, message: "challenge token required to change signature sources"@ } })
    } else if method == "sources.update"@ {
        Some(TokenRule { given: challenge_token, answer: Outcome::Reject { code: INSUFFICIENT_PRIVILEGE, message: "challenge token required for provider update"@ } })
    } else if method == "sources.rollback"@ {
        Some(TokenRule { given: challenge_token, answer: Outcome::Reject { code: INSUFFICIENT_PRIVILEGE, message: "challenge token required for rollback"@ } })
    } else if method == "quarantine.add"@ {
        Some(TokenRule { given: token, answer: Outcome::Refuse { error: "Challenge token required for quarantine add"@ } })
    } else if method == "quarantine.restore"@ {
        Some(TokenRule { given: token, answer: Outcome::Refuse { error: "Challenge token required for quarantine restore"@ } })
    } else if method == "quarantine.restore_as"@ {
        Some(TokenRule { given: token, answer: Outcome::Refuse { error: "Challenge token required for quarantine restore"@ } })
    } else if method == "quarantine.delete"@ {
        Some(TokenRule { given: token, answer: Outcome::Refuse { error: "Challenge token required for quarantine delete"@ } })
    } else {
        None
    }
}

impl View for TokenRule<String> {
    type V = TokenRule<Seq<char>>;

    open spec fn view(&self) -> TokenRule<Seq<char>> {
        TokenRule { given: self.given@, answer: self.answer@ }
    }
}

pub fn token_required(method: &str, f: &Fields<String>) -> (rule: Option<TokenRule<String>>)
    ensures
        match rule {
            Some(r) => token_rule(method@, f@) == Some(r@),
            None => token_rule(method@, f@) is None,
        },
{
    let rule = if same(method, "engine.reload") {
        TokenRule { given: text_or(&f.token, ""), answer: reject(INVALID_PARAMS, "challenge token required for engine reload") }
    } else if same(method, "argus.reload") {
        TokenRule { given: text_or(&f.token, ""), answer: reject(INVALID_PARAMS, "challenge token required for ARGUS reload") }
    } else if same(method, "settings.set") {
        TokenRule { given: text_or(&f.token, ""), answer: reject(INVALID_PARAMS, "challenge token required for settings update") }
    } else if same(method, "settings.set_full") {
        TokenRule { given: text_or(&f.token, ""), answer: reject(INVALID_PARAMS, "challenge token required for settings update") }
    } else if same(method, "protection.set_critical") {
        TokenRule { given: text_or(&f.token, ""), answer: reject(INVALID_PARAMS, "challenge token required — call security.challenge first") }
    } else if same(method, "protection.disable") {
        TokenRule { given: text_or(&f.token, ""), answer: reject(INVALID_PARAMS, "challenge token required") }
    } else if same(method, "protection.enable") {
        TokenRule { given: text_or(&f.token, ""), answer: reject(INVALID_PARAMS, "challenge token required") }
    } else if same(method, "sources.set") {
        TokenRule { given: text_or(&f.challenge_token, ""), answer: reject(INSUFFICIENT_PRIVILEGE, "challenge token required to change signature sources") }
    } else if same(method, "sources.update") {
        TokenRule { given: text_or(&f.challenge_token, ""), answer: reject(INSUFFICIENT_PRIVILEGE, "challenge token required for provider update") }
    } else if same(method, "sources.rollback") {
        TokenRule { given: text_or(&f.challenge_token, ""), answer: reject(INSUFFICIENT_PRIVILEGE, "challenge token required for rollback") }
    } else if same(method, "quarantine.add") {
        TokenRule { given: text_or(&f.token, ""), answer: refuse("Challenge token required for quarantine add") }
    } else if same(method, "quarantine.restore") {
        TokenRule { given: text_or(&f.token, ""), answer: refuse("Challenge token required for quarantine restore") }
    } else if same(method, "quarantine.restore_as") {
        TokenRule { given: text_or(&f.token, ""), answer: refuse("Challenge token required for quarantine restore") }
    } else if same(method, "quarantine.delete") {
        TokenRule { given: text_or(&f.token, ""), answer: refuse("Challenge token required for quarantine delete") }
    } else {
        return None;
    };
    Some(rule)
}

/// Longest path that is accepted, in bytes.
pub const MAX_PATH_LEN: usize = 4096;

/// Whether a scan target leads off the machine or into a device namespace. The
/// long-path form of a local path is fine.
pub open spec fn off_limits(target: Seq<char>) -> bool {
    let lower = lower_ascii(target);
    ||| begins(target, "\\\\"@) && !begins(lower, "\\\\?\\"@) && !begins(lower, "\\\\.\\"@)
    ||| begins(target, "//"@)
    ||| begins(lower, "\\\\?\\unc\\"@)
    ||| begins(lower, "\\\\.\\"@)
    ||| occurs("\\globalroot\\"@, lower)
    ||| occurs("\\physicaldrive"@, lower)
}

/// Why a scan target is not acceptable.
pub open spec fn target_refusal(target: Seq<char>) -> Option<Seq<char>> {
    if target.len() == 0 {
        Some("empty target path"@)
    } else if byte_len(target) > MAX_PATH_LEN {
        Some("target path too long"@)
    } else if off_limits(target) {
        Some("scan target must be a local non-UNC path"@)
    } else if target.contains('\0') {
        Some("scan target contains embedded NUL"@)
    } else {
        None
    }
}

pub fn check_scan_target(target: &str) -> (refusal: Option<String>)
    ensures
        owned_view(refusal) == target_refusal(target@),
{
    if target.is_empty() {
        return Some("empty target path".to_owned());
    }
    if byte_length(target) > MAX_PATH_LEN {
        return Some("target path too long".to_owned());
    }
    let lower_text = to_ascii_lowercase(target);
    let lower = lower_text.as_str();
    let unc_share = (starts_with(target, "\\\\") && !starts_with(lower, "\\\\?\\") && !starts_with(
        lower,
        "\\\\.\\",
    )) || starts_with(target, "//");
    let long_unc = starts_with(lower, "\\\\?\\unc\\");
    let device = starts_with(lower, "\\\\.\\") || contains(lower, "\\globalroot\\") || contains(
        lower,
        "\\physicaldrive",
    );
    if unc_share || long_unc || device {
        return Some("scan target must be a local non-UNC path".to_owned());
    }
    if contains_char(target, '\0') {
        return Some("scan target contains embedded NUL".to_owned());
    }
    None
}

/// A text of the GUI, cut to `max` characters; a missing or blank one is
/// replaced by `fallback`.
pub open spec fn bounded_text(field: Option<Seq<char>>, fallback: Seq<char>, max: nat) -> Seq<char> {
    first_chars(
        match field {
            Some(text) => if trimmed(text).len() > 0 {
                text
            } else {
                fallback
            },
            None => fallback,
        },
        max,
    )
}

pub fn bounded_field(field: &Option<String>, fallback: &str, max: usize) -> (text: String)
    ensures
        text@ == bounded_text(owned_view(*field), fallback@, max as nat),
{
    match field {
        Some(text) => {
            let inner = trim(text.as_str());
            if !inner.as_str().is_empty() {
                return take_chars(text.as_str(), max);
            }
        },
        None => {},
    }
    take_chars(fallback, max)
}

/// The severity that an event of the GUI gets: it cannot claim a higher one
/// than `warning`.
pub open spec fn gui_severity(raw: Seq<char>) -> Seq<char> {
    if raw == "info"@ || raw == "warning"@ {
        raw
    } else {
        "info"@
    }
}

/// The event that the GUI asks to log. Its category and title are marked, so
/// that it cannot pass for an event of the daemon's own.
pub open spec fn gui_event(f: Fields<Seq<char>>) -> Action<Seq<char>> {
    Action::ActivityLog {
        severity: gui_severity(bounded_text(f.severity, "info"@, 24)),
        category: "gui:"@ + bounded_text(f.category, "general"@, 40),
        title: "[gui] "@ + bounded_text(f.title, "Activity event"@, 154),
        message: bounded_text(f.message, ""@, 512),
    }
}

fn bound_event(f: &Fields<String>) -> (action: Action<String>)
    ensures
        action@ == gui_event(f@),
{
    let raw = bounded_field(&f.severity, "info", 24);
    let severity = if same(raw.as_str(), "info") || same(raw.as_str(), "warning") {
        raw
    } else {
        "info".to_owned()
    };
    let mut category = "gui:".to_owned();
    category.append(bounded_field(&f.category, "general", 40).as_str());
    let mut title = "[gui] ".to_owned();
    title.append(bounded_field(&f.title, "Activity event", 154).as_str());
    let message = bounded_field(&f.message, "", 512);
    Action::ActivityLog { severity, category, title, message }
}

/// Start of a scan.
pub open spec fn serve_scan_start(f: Fields<Seq<char>>) -> Outcome<Seq<char>> {
    let refusal = match f.target {
        Some(target) => target_refusal(target),
        None => None,
    };
    match refusal {
        Some(message) => Outcome::Reject { code: INVALID_PARAMS, message },
        None => Outcome::Perform(
            Action::StartScan { scan_type: or_text(f.scan_type, "quick"@), target: f.target },
        ),
    }
}

fn scan_start(f: &Fields<String>) -> (outcome: Outcome<String>)
    ensures
        outcome@ == serve_scan_start(f@),
{
    match &f.target {
        Some(target) => match check_scan_target(target.as_str()) {
            Some(message) => {
                return Outcome::Reject { code: INVALID_PARAMS, message };
            },
            None => {},
        },
        None => {},
    }
    Outcome::Perform(
        Action::StartScan { scan_type: text_or(&f.scan_type, "quick"), target: f.target.clone() },
    )
}

/// Longest name of a finding in the quarantine, in bytes.
pub const MAX_VIRUS_NAME: usize = 256;

/// Longest scan or quarantine identifier, in bytes.
pub const MAX_ID_LEN: usize = 128;

pub open spec fn serve_quarantine_add(f: Fields<Seq<char>>) -> Outcome<Seq<char>> {
    let path = or_text(f.path, ""@);
    let virus_name = or_text(f.virus_name, "Unknown"@);
    let scan_id = or_text(f.scan_id, ""@);
    if byte_len(path) > MAX_PATH_LEN || byte_len(virus_name) > MAX_VIRUS_NAME || byte_len(scan_id)
        > MAX_ID_LEN {
        Outcome::Reject { code: INVALID_PARAMS, message: "quarantine.add param too long"@ }
    } else {
        Outcome::Perform(Action::QuarantineAdd { path, virus_name, scan_id })
    }
}

fn quarantine_add(f: &Fields<String>) -> (outcome: Outcome<String>)
    ensures
        outcome@ == serve_quarantine_add(f@),
{
    let path = text_or(&f.path, "");
    let virus_name = text_or(&f.virus_name, "Unknown");
    let scan_id = text_or(&f.scan_id, "");
    if byte_length(path.as_str()) > MAX_PATH_LEN || byte_length(virus_name.as_str())
        > MAX_VIRUS_NAME || byte_length(scan_id.as_str()) > MAX_ID_LEN {
        reject(INVALID_PARAMS, "quarantine.add param too long")
    } else {
        Outcome::Perform(Action::QuarantineAdd { path, virus_name, scan_id })
    }
}

pub open spec fn serve_restore_as(f: Fields<Seq<char>>) -> Outcome<Seq<char>> {
    let id = or_text(f.id, ""@);
    let dest = or_text(f.dest, ""@);
    if byte_len(id) > MAX_ID_LEN || byte_len(dest) > MAX_PATH_LEN {
        Outcome::Refuse { error: "id/dest param too long"@ }
    } else if dest.len() == 0 {
        Outcome::Refuse { error: "dest path required"@ }
    } else {
        Outcome::Perform(Action::QuarantineRestoreAs { id, dest })
    }
}

fn restore_as(f: &Fields<String>) -> (outcome: Outcome<String>)
    ensures
        outcome@ == serve_restore_as(f@),
{
    let id = text_or(&f.id, "");
    let dest = text_or(&f.dest, "");
    if byte_length(id.as_str()) > MAX_ID_LEN || byte_length(dest.as_str()) > MAX_PATH_LEN {
        refuse("id/dest param too long")
    } else if dest.as_str().is_empty() {
        refuse("dest path required")
    } else {
        Outcome::Perform(Action::QuarantineRestoreAs { id, dest })
    }
}

pub open spec fn serve_report_safe(f: Fields<Seq<char>>) -> Outcome<Seq<char>> {
    let sha256 = or_text(f.sha256, ""@);
    let file_path = or_text(f.file_path, ""@);
    if sha256.len() == 0 || file_path.len() == 0 {
        Outcome::Refuse { error: "missing sha256 or file_path"@ }
    } else {
        Outcome::Perform(
            Action::ReportSafe {
                quarantine_id: or_text(f.quarantine_id, ""@),
                sha256,
                file_path,
                detection_name: or_text(f.detection_name, ""@),
            },
        )
    }
}

fn report_safe(f: &Fields<String>) -> (outcome: Outcome<String>)
    ensures
        outcome@ == serve_report_safe(f@),
{
    let sha256 = text_or(&f.sha256, "");
    let file_path = text_or(&f.file_path, "");
    if sha256.as_str().is_empty() || file_path.as_str().is_empty() {
        refuse("missing sha256 or file_path")
    } else {
        Outcome::Perform(
            Action::ReportSafe {
                quarantine_id: text_or(&f.quarantine_id, ""),
                sha256,
                file_path,
                detection_name: text_or(&f.detection_name, ""),
            },
        )
    }
}

pub open spec fn serve_scan_buffer(f: Fields<Seq<char>>) -> Outcome<Seq<char>> {
    let content = or_text(f.content, ""@);
    if content.len() == 0 {
        Outcome::Refuse { error: "empty content"@ }
    } else {
        Outcome::Perform(
            Action::ScanBuffer {
                content,
                app_name: or_text(f.language, "other"@) + ".exe"@,
                source_app: or_text(f.source_app, "dev-inject"@),
                content_name: or_text(f.content_name, "manual"@),
            },
        )
    }
}

fn scan_buffer(f: &Fields<String>) -> (outcome: Outcome<String>)
    ensures
        outcome@ == serve_scan_buffer(f@),
{
    let content = text_or(&f.content, "");
    if content.as_str().is_empty() {
        refuse("empty content")
    } else {
        let mut app_name = text_or(&f.language, "other");
        app_name.append(".exe");
        Outcome::Perform(
            Action::ScanBuffer {
                content,
                app_name,
                source_app: text_or(&f.source_app, "dev-inject"),
                content_name: text_or(&f.content_name, "manual"),
            },
        )
    }
}

/// Passes of the benchmark: three unless asked for, at least one, at most ten.
pub open spec fn benchmark_passes(asked: Option<u64>) -> u32 {
    match asked {
        Some(n) => if n < 1 {
            1
        } else if n > 10 {
            10
        } else {
            n as u32
        },
        None => 3,
    }
}

pub fn clamp_passes(asked: Option<u64>) -> (passes: u32)
    ensures
        passes == benchmark_passes(asked),
        1 <= passes <= 10,
{
    match asked {
        Some(n) => if n < 1 {
            1
        } else if n > 10 {
            10
        } else {
            n as u32
        },
        None => 3,
    }
}

/// The process to scan: the number's low 32 bits.
pub open spec fn process_id(asked: Option<u64>) -> u32 {
    match asked {
        Some(n) => n as u32,
        None => 0,
    }
}

/// The methods whose parameters are of no consequence, with their actions.
pub open spec fn plain_action(method: Seq<char>) -> Option<Action<Seq<char>>> {
    if method == "engine.status"@ {
        Some(Action::EngineStatus)
    } else if method == "engine.reload"@ {
        Some(Action::EngineReload)
    } else if method == "scan.status"@ {
        Some(Action::ScanStatus)
    } else if method == "scan.history"@ {
        Some(Action::ScanHistory)
    } else if method == "scan.cancel"@ {
        Some(Action::CancelScan)
    } else if method == "quarantine.list"@ {
        Some(Action::QuarantineList)
    } else if method == "runtime.status"@ {
        Some(Action::RuntimeStatus)
    } else if method == "trust.status"@ {
        Some(Action::TrustStatus)
    } else if method == "watcher.status"@ {
        Some(Action::WatcherStatus)
    } else if method == "idle_scanner.status"@ {
        Some(Action::IdleScannerStatus)
    } else if method == "update.status"@ {
        Some(Action::UpdateStatus)
    } else if method == "update.start"@ {
        Some(Action::UpdateStart)
    } else if method == "activity.list"@ {
        Some(Action::ActivityList)
    } else if method == "stats.runtime"@ {
        Some(Action::RuntimeStats)
    } else if method == "argus.version"@ {
        Some(Action::ArgusVersion)
    } else if method == "sources.status"@ {
        Some(Action::SourcesStatus)
    } else if method == "sources.list"@ {
        Some(Action::SourcesStatus)
    } else if method == "sources.update"@ {
        Some(Action::SourcesUpdate)
    } else if method == "sources.rollback"@ {
        Some(Action::SourcesRollback)
    } else if method == "argus.reload"@ {
        Some(Action::ArgusReload)
    } else if method == "argus.packs"@ {
        Some(Action::ArgusPacks)
    } else if method == "memory.list_processes"@ {
        Some(Action::ListProcesses)
    } else if method == "settings.get"@ {
        Some(Action::SettingsGet)
    } else if method == "settings.set"@ {
        Some(Action::SettingsSet)
    } else if method == "health"@ {
        Some(Action::Health)
    } else if method == "settings.get_full"@ {
        Some(Action::SettingsGetFull)
    } else if method == "settings.get_defaults"@ {
        Some(Action::SettingsGetDefaults)
    } else if method == "settings.restart_requirements"@ {
        Some(Action::RestartRequirements)
    } else if method == "settings.set_full"@ {
        Some(Action::SettingsSetFull)
    } else if method == "protection.set_critical"@ {
        Some(Action::SetCritical)
    } else if method == "protection.disable"@ {
        Some(Action::ProtectionDisable)
    } else if method == "protection.enable"@ {
        Some(Action::ProtectionEnable)
    } else if method == "diagnostics.export"@ {
        Some(Action::DiagnosticsExport)
    } else if method == "dev.status"@ {
        Some(Action::DevStatus)
    } else {
        None
    }
}

fn plain(method: &str) -> (action: Option<Action<String>>)
    ensures
        match action {
            Some(a) => plain_action(method@) == Some(a@),
            None => plain_action(method@) is None,
        },
{
    let action = if same(method, "engine.status") {
        Action::EngineStatus
    } else if same(method, "engine.reload") {
        Action::EngineReload
    } else if same(method, "scan.status") {
        Action::ScanStatus
    } else if same(method, "scan.history") {
        Action::ScanHistory
    } else if same(method, "scan.cancel") {
        Action::CancelScan
    } else if same(method, "quarantine.list") {
        Action::QuarantineList
    } else if same(method, "runtime.status") {
        Action::RuntimeStatus
    } else if same(method, "trust.status") {
        Action::TrustStatus
    } else if same(method, "watcher.status") {
        Action::WatcherStatus
    } else if same(method, "idle_scanner.status") {
        Action::IdleScannerStatus
    } else if same(method, "update.status") {
        Action::UpdateStatus
    } else if same(method, "update.start") {
        Action::UpdateStart
    } else if same(method, "activity.list") {
        Action::ActivityList
    } else if same(method, "stats.runtime") {
        Action::RuntimeStats
    } else if same(method, "argus.version") {
        Action::ArgusVersion
    } else if same(method, "sources.status") {
        Action::SourcesStatus
    } else if same(method, "sources.list") {
        Action::SourcesStatus
    } else if same(method, "sources.update") {
        Action::SourcesUpdate
    } else if same(method, "sources.rollback") {
        Action::SourcesRollback
    } else if same(method, "argus.reload") {
        Action::ArgusReload
    } else if same(method, "argus.packs") {
        Action::ArgusPacks
    } else if same(method, "memory.list_processes") {
        Action::ListProcesses
    } else if same(method, "settings.get") {
        Action::SettingsGet
    } else if same(method, "settings.set") {
        Action::SettingsSet
    } else if same(method, "health") {
        Action::Health
    } else if same(method, "settings.get_full") {
        Action::SettingsGetFull
    } else if same(method, "settings.get_defaults") {
        Action::SettingsGetDefaults
    } else if same(method, "settings.restart_requirements") {
        Action::RestartRequirements
    } else if same(method, "settings.set_full") {
        Action::SettingsSetFull
    } else if same(method, "protection.set_critical") {
        Action::SetCritical
    } else if same(method, "protection.disable") {
        Action::ProtectionDisable
    } else if same(method, "protection.enable") {
        Action::ProtectionEnable
    } else if same(method, "diagnostics.export") {
        Action::DiagnosticsExport
    } else if same(method, "dev.status") {
        Action::DevStatus
    } else {
        return None;
    };
    Some(action)
}

/// What an authorized request gets.
pub open spec fn serve(method: Seq<char>, f: Fields<Seq<char>>, developer_mode: bool) -> Outcome<
    Seq<char>,
> {
    if plain_action(method) is Some {
        Outcome::Perform(plain_action(method)->0)
    } else if method == "scan.start"@ {
        serve_scan_start(f)
    } else if method == "quarantine.add"@ {
        serve_quarantine_add(f)
    } else if method == "quarantine.restore"@ {
        Outcome::Perform(Action::QuarantineRestore { id: or_text(f.id, ""@) })
    } else if method == "quarantine.restore_as"@ {
        serve_restore_as(f)
    } else if method == "quarantine.delete"@ {
        Outcome::Perform(Action::QuarantineDelete { id: or_text(f.id, ""@) })
    } else if method == "calibration.report_safe"@ {
        serve_report_safe(f)
    } else if method == "runtime.scan_buffer"@ {
        serve_scan_buffer(f)
    } else if method == "detections.list"@ {
        if or_text(f.scan_id, ""@).len() == 0 {
            Outcome::Perform(Action::RecentDetections)
        } else {
            Outcome::Perform(Action::DetectionsOf { scan_id: or_text(f.scan_id, ""@) })
        }
    } else if method == "activity.log"@ {
        Outcome::Perform(gui_event(f))
    } else if method == "argus.analyze"@ {
        match f.path {
            Some(path) => Outcome::Perform(Action::ArgusAnalyze { path }),
            None => Outcome::Note { error: "Missing 'path' parameter"@ },
        }
    } else if method == "argus.verdicts"@ {
        Outcome::Perform(Action::ArgusVerdicts { of_scan: f.scan_id })
    } else if method == "sources.set"@ {
        Outcome::Perform(Action::SourcesSet { provider: or_text(f.provider, "none"@) })
    } else if method == "memory.scan_process"@ {
        if process_id(f.pid) == 0 {
            Outcome::Note { error: "pid required"@ }
        } else {
            Outcome::Perform(Action::ScanProcess { pid: process_id(f.pid) })
        }
    } else if method == "security.challenge"@ {
        if challengeable(or_text(f.method, ""@)) {
            Outcome::Perform(Action::IssueChallenge { method: or_text(f.method, ""@) })
        } else {
            Outcome::Reject {
                code: INVALID_PARAMS,
                message:
                    "challenge token requires a known dangerous-method scope (param: method)"@,
            }
        }
    } else if method == "dev.set_developer_mode"@ {
        Outcome::Perform(
            Action::SetDeveloperMode {
                password: or_text(f.password, ""@),
                enabled: f.enabled == Some(true),
                telemetry_enabled: f.telemetry_enabled,
            },
        )
    } else if method == "benchmark.run"@ {
        if developer_mode {
            Outcome::Perform(Action::Benchmark { passes: benchmark_passes(f.passes) })
        } else {
            Outcome::Reject { code: INVALID_PARAMS, message: "benchmark requires developer mode"@ }
        }
    } else {
        Outcome::Reject { code: METHOD_NOT_FOUND, message: "unknown method: "@ + method }
    }
}

/// Answer an authorized request.
pub fn serve_request(method: &str, f: &Fields<String>, developer_mode: bool) -> (outcome: Outcome<
    String,
>)
    ensures
        outcome@ == serve(method@, f@, developer_mode),
{
    match plain(method) {
        Some(action) => {
            return Outcome::Perform(action);
        },
        None => {},
    }
    if same(method, "scan.start") {
        scan_start(f)
    } else if same(method, "quarantine.add") {
        quarantine_add(f)
    } else if same(method, "quarantine.restore") {
        Outcome::Perform(Action::QuarantineRestore { id: text_or(&f.id, "") })
    } else if same(method, "quarantine.restore_as") {
        restore_as(f)
    } else if same(method, "quarantine.delete") {
        Outcome::Perform(Action::QuarantineDelete { id: text_or(&f.id, "") })
    } else if same(method, "calibration.report_safe") {
        report_safe(f)
    } else if same(method, "runtime.scan_buffer") {
        scan_buffer(f)
    } else if same(method, "detections.list") {
        let scan_id = text_or(&f.scan_id, "");
        if scan_id.as_str().is_empty() {
            Outcome::Perform(Action::RecentDetections)
        } else {
            Outcome::Perform(Action::DetectionsOf { scan_id })
        }
    } else if same(method, "activity.log") {
        Outcome::Perform(bound_event(f))
    } else if same(method, "argus.analyze") {
        match &f.path {
            Some(path) => Outcome::Perform(Action::ArgusAnalyze { path: path.clone() }),
            None => note("Missing 'path' parameter"),
        }
    } else if same(method, "argus.verdicts") {
        Outcome::Perform(Action::ArgusVerdicts { of_scan: f.scan_id.clone() })
    } else if same(method, "sources.set") {
        Outcome::Perform(Action::SourcesSet { provider: text_or(&f.provider, "none") })
    } else if same(method, "memory.scan_process") {
        let pid: u32 = match f.pid {
            Some(n) => n as u32,
            None => 0,
        };
        if pid == 0 {
            note("pid required")
        } else {
            Outcome::Perform(Action::ScanProcess { pid })
        }
    } else if same(method, "security.challenge") {
        let scope = text_or(&f.method, "");
        if is_challengeable_method(scope.as_str()) {
            Outcome::Perform(Action::IssueChallenge { method: scope })
        } else {
            reject(
                INVALID_PARAMS,
                "challenge token requires a known dangerous-method scope (param: method)",
            )
        }
    } else if same(method, "dev.set_developer_mode") {
        let enabled = match f.enabled {
            Some(on) => on,
            None => false,
        };
        Outcome::Perform(
            Action::SetDeveloperMode {
                password: text_or(&f.password, ""),
                enabled,
                telemetry_enabled: f.telemetry_enabled,
            },
        )
    } else if same(method, "benchmark.run") {
        if developer_mode {
            Outcome::Perform(Action::Benchmark { passes: clamp_passes(f.passes) })
        } else {
            reject(INVALID_PARAMS, "benchmark requires developer mode")
        }
    } else {
        let mut message = "unknown method: ".to_owned();
        message.append(method);
        Outcome::Reject { code: METHOD_NOT_FOUND, message }
    }
}

/// What became of the outstanding challenge token.
#[derive(Debug, Clone, Copy, PartialEq, Eq, Structural)]
pub enum TokenUse {
    /// The request did not come to it.
    NotPresented,
    Accepted,
    Rejected,
}

/// What stands between a request and its action.
pub struct Gate {
    pub auth: IpcAuth,
    pub challenge: ChallengeSlot,
    pub developer_mode: bool,
}

/// Mathematical value of a [`Gate`].
pub struct GateState {
    pub secret: Option<Seq<char>>,
    pub challenge: Option<Challenge>,
    pub developer_mode: bool,
}

impl View for Gate {
    type V = GateState;

    open spec fn view(&self) -> GateState {
        GateState {
            secret: owned_view(self.auth.secret),
            challenge: self.challenge@,
            developer_mode: self.developer_mode,
        }
    }
}

/// Whether a secret is long enough to be one, and an outstanding token is a random
/// identifier.
pub open spec fn sound(g: GateState) -> bool {
    &&& g.secret matches Some(secret) ==> long_enough(secret)
    &&& g.challenge matches Some(c) ==> is_uuid(c.token)
}

/// Whether the class of a method demands the secret: queries and actions do.
pub open spec fn demands_secret(method: Seq<char>) -> bool {
    policy_of(method) matches Some(p) && (p.class is AuthenticatedRead
        || p.class is AuthenticatedAction)
}

/// The answer to a caller without the secret, for the methods that need it. Most
/// answer in words of their own; the class catches the others.
pub open spec fn secret_refusal(method: Seq<char>, f: Fields<Seq<char>>) -> Option<
    Outcome<Seq<char>>,
> {
    match auth_message(method, f) {
        Some(message) => Some(Outcome::Reject { code: INVALID_PARAMS, message }),
        None => if demands_secret(method) {
            Some(Outcome::Reject { code: UNAUTHORIZED, message: "authenticated IPC required"@ })
        } else {
            None
        },
    }
}

/// The refusal for a caller without the secret.
pub fn refuse_without_secret(registry: &MethodRegistry, method: &str, f: &Fields<String>) -> (refusal:
    Option<Outcome<String>>)
    requires
        registry.entries@ == registered(),
    ensures
        match refusal {
            Some(outcome) => secret_refusal(method@, f@) == Some(outcome@),
            None => secret_refusal(method@, f@) is None,
        },
{
    match auth_required(method, f) {
        Some(message) => {
            return Some(Outcome::Reject { code: INVALID_PARAMS, message });
        },
        None => {},
    }
    match registry.get(method) {
        Some(policy) => match policy.class {
            MethodClass::AuthenticatedRead | MethodClass::AuthenticatedAction => Some(
                reject(UNAUTHORIZED, "authenticated IPC required"),
            ),
            _ => None,
        },
        None => None,
    }
}

/// What a request gets, and what becomes of the outstanding token.
pub open spec fn route(g: GateState, method: Seq<char>, f: Fields<Seq<char>>, now: u64) -> (
    Outcome<Seq<char>>,
    TokenUse,
) {
    if secret_refusal(method, f) is Some && g.secret != Some(or_text(f.auth, ""@)) {
        (secret_refusal(method, f)->0, TokenUse::NotPresented)
    } else {
        match token_rule(method, f) {
            Some(rule) => if redeemable(g.challenge, rule.given, method, now) {
                (serve(method, f, g.developer_mode), TokenUse::Accepted)
            } else {
                (rule.answer, TokenUse::Rejected)
            },
            None => (serve(method, f, g.developer_mode), TokenUse::NotPresented),
        }
    }
}

/// What is left after a request. A presented token is gone, whatever the answer.
pub open spec fn gate_after(g: GateState, token: TokenUse) -> GateState {
    GateState {
        secret: g.secret,
        challenge: if token is NotPresented {
            g.challenge
        } else {
            None
        },
        developer_mode: g.developer_mode,
    }
}

impl Gate {
    /// Decide what a request gets.
    pub fn route_request(
        &mut self,
        registry: &MethodRegistry,
        method: &str,
        f: &Fields<String>,
        now: u64,
    ) -> (routed: (Outcome<String>, TokenUse))
        requires
            registry.entries@ == registered(),
        ensures
            (routed.0@, routed.1) == route(old(self)@, method@, f@, now),
            final(self)@ == gate_after(old(self)@, routed.1),
    {
        match refuse_without_secret(registry, method, f) {
            Some(refusal) => {
                let given = text_or(&f.auth, "");
                if !self.auth.validate_ipc_auth(given.as_str()) {
                    return (refusal, TokenUse::NotPresented);
                }
            },
            None => {},
        }
        match token_required(method, f) {
            Some(rule) => {
                let valid = self.challenge.validate_challenge_token(
                    rule.given.as_str(),
                    method,
                    now,
                );
                if valid {
                    (serve_request(method, f, self.developer_mode), TokenUse::Accepted)
                } else {
                    (rule.answer, TokenUse::Rejected)
                }
            },
            None => (serve_request(method, f, self.developer_mode), TokenUse::NotPresented),
        }
    }
}

/// Whether a method is for administrators: it takes a challenge token, or it shows
/// where a process has its modules in memory.
pub open spec fn takes_elevation(method: Seq<char>) -> bool {
    challengeable(method) || method == "memory.scan_process"@
}

/// Whether a caller may ask for what takes elevation: an administrator or the
/// system. A caller whose identity could not be resolved is let through here
/// as at the door.
pub open spec fn elevated(id: Option<&ClientIdentity>) -> bool {
    match id {
        Some(c) => c.is_elevated || c.is_system,
        None => true,
    }
}

fn is_elevated(id: Option<&ClientIdentity>) -> (yes: bool)
    ensures
        yes == elevated(id),
{
    match id {
        Some(c) => c.is_elevated || c.is_system,
        None => true,
    }
}

/// The budgets after a request was admitted or not, and the refusal where it was
/// not.
pub open spec fn admission(
    b: Budgets,
    method: Seq<char>,
    payload: nat,
    id: Option<&ClientIdentity>,
    reloading: bool,
    now: u64,
) -> (Budgets, Option<Outcome<Seq<char>>>) {
    if takes_elevation(method) && !elevated(id) {
        (
            b,
            Some(
                Outcome::Reject {
                    code: INSUFFICIENT_PRIVILEGE,
                    message: "administrator elevation required for "@ + method,
                },
            ),
        )
    } else {
        policed(b, method, payload, id, reloading, now)
    }
}

/// The budgets after the policy of a method was applied, and the refusal it led
/// to.
pub open spec fn policed(
    b: Budgets,
    method: Seq<char>,
    payload: nat,
    id: Option<&ClientIdentity>,
    reloading: bool,
    now: u64,
) -> (Budgets, Option<Outcome<Seq<char>>>) {
    match policy_of(method) {
        Some(policy) => if payload > policy.max_payload_bytes {
            (
                b,
                Some(
                    Outcome::Reject {
                        code: PAYLOAD_TOO_LARGE,
                        message: "payload "@ + decimal(payload) + " bytes exceeds limit "@ + decimal(
                            policy.max_payload_bytes as nat,
                        ) + " for "@ + method,
                    },
                ),
            )
        } else {
            let (after, answer) = limit(b, policy.rate_bucket, id, now);
            match answer {
                Err(seconds) => (
                    after,
                    Some(
                        Outcome::Reject {
                            code: RATE_LIMITED,
                            message: "rate limited — retry after "@ + decimal(seconds as nat)
                                + "s"@,
                        },
                    ),
                ),
                Ok(()) => if !policy.allowed_while_reloading && reloading {
                    (
                        after,
                        Some(
                            Outcome::Reject {
                                code: ENGINE_RELOADING,
                                message: "engine is reloading — try again shortly"@,
                            },
                        ),
                    )
                } else {
                    (after, None)
                },
            }
        },
        None => (b, None),
    }
}

/// Admit a request or refuse it: first by the caller's elevation, where the method
/// takes it, and after that by the method's policy, which is payload
/// cap, rate limit and reload gate. A method that is not registered has none.
pub fn enforce_policy(
    registry: &MethodRegistry,
    limiter: &mut RateLimiter,
    method: &str,
    payload: usize,
    id: Option<&ClientIdentity>,
    reloading: bool,
    now: u64,
) -> (refusal: Option<Outcome<String>>)
    requires
        registry.entries@ == registered(),
        old(limiter).wf(),
    ensures
        final(limiter).wf(),
        ({
            let (after, expected) = admission(
                old(limiter)@,
                method@,
                payload as nat,
                id,
                reloading,
                now,
            );
            &&& final(limiter)@ == after
            &&& match refusal {
                Some(outcome) => expected == Some(outcome@),
                None => expected is None,
            }
        }),
{
    let for_administrators = is_challengeable_method(method) || same(method, "memory.scan_process");
    if for_administrators && !is_elevated(id) {
        let mut message = "administrator elevation required for ".to_owned();
        message.append(method);
        return Some(Outcome::Reject { code: INSUFFICIENT_PRIVILEGE, message });
    }
    let policy: MethodPolicy = match registry.get(method) {
        Some(policy) => policy,
        None => {
            return None;
        },
    };
    if payload > policy.max_payload_bytes {
        let mut message = "payload ".to_owned();
        message.append(decimal_text(payload as u64).as_str());
        message.append(" bytes exceeds limit ");
        message.append(decimal_text(policy.max_payload_bytes as u64).as_str());
        message.append(" for ");
        message.append(method);
        return Some(Outcome::Reject { code: PAYLOAD_TOO_LARGE, message });
    }
    match limiter.check(policy.rate_bucket, id, now) {
        Err(seconds) => {
            let mut message = "rate limited — retry after ".to_owned();
            message.append(decimal_text(seconds as u64).as_str());
            message.append("s");
            Some(Outcome::Reject { code: RATE_LIMITED, message })
        },
        Ok(()) => if !policy.allowed_while_reloading && reloading {
            Some(reject(ENGINE_RELOADING, "engine is reloading — try again shortly"))
        } else {
            None
        },
    }
}

/// Actions that change the security posture or destroy data.
pub open spec fn dangerous_action<T>(a: Action<T>) -> bool {
    match a {
        Action::EngineReload => true,
        Action::ArgusReload => true,
        Action::SettingsSet => true,
        Action::SettingsSetFull => true,
        Action::SetCritical => true,
        Action::ProtectionDisable => true,
        Action::ProtectionEnable => true,
        Action::SourcesSet { provider } => true,
        Action::SourcesUpdate => true,
        Action::SourcesRollback => true,
        Action::QuarantineAdd { path, virus_name, scan_id } => true,
        Action::QuarantineRestore { id } => true,
        Action::QuarantineRestoreAs { id, dest } => true,
        Action::QuarantineDelete { id } => true,
        _ => false,
    }
}

/// The token that a request carries, in the field where its method looks for it.
pub open spec fn carried_token(method: Seq<char>, f: Fields<Seq<char>>) -> Option<Seq<char>> {
    if method == "sources.set"@ || method == "sources.update"@ || method == "sources.rollback"@ {
        f.challenge_token
    } else {
        f.token
    }
}

/// A method wants a token exactly where one can be issued for it.
pub proof fn token_wanted_where_issued(method: Seq<char>, f: Fields<Seq<char>>)
    ensures
        token_rule(method, f) is Some <==> challengeable(method),
{
}

/// No dangerous action is performed unless the request carries the one outstanding
/// token, which is fresh and was issued for the very method; that token is gone
/// afterwards.
pub proof fn dangerous_action_needs_token(
    g: GateState,
    method: Seq<char>,
    f: Fields<Seq<char>>,
    now: u64,
)
    requires
        route(g, method, f, now).0 matches Outcome::Perform(a) && dangerous_action(a),
    ensures
        g.challenge matches Some(c) && c.method == method && redeemable(
            g.challenge,
            c.token,
            method,
            now,
        ),
        token_rule(method, f) matches Some(rule) && g.challenge matches Some(c) && rule.given
            == c.token,
        sound(g) ==> carried_token(method, f) == Some(g.challenge->0.token),
        route(g, method, f, now).1 is Accepted,
        gate_after(g, route(g, method, f, now).1).challenge is None,
{
    reveal_strlit("");
    lemma_token_names();
}

/// A request that carries no token is never let through on one, also while one is
/// outstanding; a dangerous one is answered that it needs a token, or that its
/// caller is not authenticated.
pub proof fn request_without_token_is_refused(
    g: GateState,
    method: Seq<char>,
    f: Fields<Seq<char>>,
    now: u64,
)
    requires
        g.challenge matches Some(c) ==> c.token.len() == 36,
        carried_token(method, f) is None,
    ensures
        !(route(g, method, f, now).1 is Accepted),
        challengeable(method) ==> !(route(g, method, f, now).0 is Perform),
{
    reveal_strlit("");
    lemma_token_names();
}

/// The methods that look for their token elsewhere are other ones than the rest.
proof fn lemma_token_names()
    ensures
        "sources.set"@.len() == 11,
        "sources.update"@.len() == 14,
        "sources.rollback"@.len() == 16,
        "engine.reload"@.len() == 13,
        "argus.reload"@.len() == 12,
        "settings.set"@.len() == 12,
        "settings.set_full"@.len() == 17,
        "protection.set_critical"@.len() == 23,
        "protection.disable"@.len() == 18,
        "protection.enable"@.len() == 17,
        "quarantine.add"@.len() == 14,
        "sources.update"@ != "quarantine.add"@,
        "quarantine.restore"@.len() == 18,
        "quarantine.restore_as"@.len() == 21,
        "quarantine.delete"@.len() == 17,
{
    reveal_strlit("sources.set");
    reveal_strlit("sources.update");
    reveal_strlit("sources.rollback");
    reveal_strlit("engine.reload");
    reveal_strlit("argus.reload");
    reveal_strlit("settings.set");
    reveal_strlit("settings.set_full");
    reveal_strlit("protection.set_critical");
    reveal_strlit("protection.disable");
    reveal_strlit("protection.enable");
    reveal_strlit("quarantine.add");
    reveal_strlit("quarantine.restore");
    reveal_strlit("quarantine.restore_as");
    reveal_strlit("quarantine.delete");
    assert("sources.update"@[0] != "quarantine.add"@[0]);
}

/// A request without the `auth` parameter is refused wherever the secret is needed,
/// and leaves the outstanding token alone.
pub proof fn request_without_auth_is_refused(
    g: GateState,
    method: Seq<char>,
    f: Fields<Seq<char>>,
    now: u64,
)
    requires
        sound(g),
        secret_refusal(method, f) is Some,
        f.auth is None,
    ensures
        route(g, method, f, now) == (secret_refusal(method, f)->0, TokenUse::NotPresented),
        gate_after(g, route(g, method, f, now).1) == g,
{
    reveal_strlit("");
    assert(""@ =~= Seq::<char>::empty());
    assert(byte_len(Seq::<char>::empty()) == 0);
}

/// A fresh token that was issued for a method lets that method through once its
/// caller has shown the secret.
pub proof fn issued_token_is_honoured(
    g: GateState,
    method: Seq<char>,
    f: Fields<Seq<char>>,
    now: u64,
)
    requires
        secret_refusal(method, f) is Some ==> g.secret == Some(or_text(f.auth, ""@)),
        token_rule(method, f) matches Some(rule) && redeemable(g.challenge, rule.given, method, now),
    ensures
        route(g, method, f, now) == (serve(method, f, g.developer_mode), TokenUse::Accepted),
{
}

/// A token is good for one use: once one was presented, accepted or not, no
/// request is let through on a token until another is issued.
pub proof fn token_works_once(
    g: GateState,
    method: Seq<char>,
    f: Fields<Seq<char>>,
    now: u64,
    next_method: Seq<char>,
    next_f: Fields<Seq<char>>,
    later: u64,
)
    requires
        !(route(g, method, f, now).1 is NotPresented),
    ensures
        !(route(gate_after(g, route(g, method, f, now).1), next_method, next_f, later).1
            is Accepted),
{
}

/// Without the secret, a method that needs it is refused, and the outstanding
/// token is left alone.
pub proof fn secret_comes_first(g: GateState, method: Seq<char>, f: Fields<Seq<char>>, now: u64)
    requires
        secret_refusal(method, f) is Some,
        g.secret is None || g.secret->0 != or_text(f.auth, ""@),
    ensures
        route(g, method, f, now) == (secret_refusal(method, f)->0, TokenUse::NotPresented),
        gate_after(g, route(g, method, f, now).1) == g,
{
}

/// No query and no action is performed for a caller without the secret, whether
/// or not the method looks at it on its own account.
pub proof fn queries_and_actions_need_the_secret(
    g: GateState,
    method: Seq<char>,
    f: Fields<Seq<char>>,
    now: u64,
)
    requires
        demands_secret(method),
        g.secret is None || g.secret->0 != or_text(f.auth, ""@),
    ensures
        route(g, method, f, now).0 matches Outcome::Reject { code, .. } && code == (
        if auth_message(method, f) is Some {
            INVALID_PARAMS
        } else {
            UNAUTHORIZED
        }),
        route(g, method, f, now).1 is NotPresented,
{
}

/// A caller without elevation is refused what takes elevation before it costs
/// anybody a token of a budget, whatever else holds of the request.
pub proof fn unelevated_caller_spends_nothing(
    b: Budgets,
    method: Seq<char>,
    payload: nat,
    id: Option<&ClientIdentity>,
    reloading: bool,
    now: u64,
)
    requires
        takes_elevation(method),
        !elevated(id),
    ensures
        admission(b, method, payload, id, reloading, now).0 == b,
        admission(b, method, payload, id, reloading, now).1 matches Some(
            Outcome::Reject { code, .. },
        ) && code == INSUFFICIENT_PRIVILEGE,
{
}

/// The answer to a request that was admitted or not.
pub open spec fn answered(
    refusal: Option<Outcome<Seq<char>>>,
    routed: Outcome<Seq<char>>,
) -> Outcome<Seq<char>> {
    match refusal {
        Some(outcome) => outcome,
        None => routed,
    }
}

/// The rate limit comes before the secret: a caller who is over the limit is told
/// so, whether or not the request carries the secret.
pub proof fn rate_limit_comes_before_secret(
    b: Budgets,
    g: GateState,
    method: Seq<char>,
    f: Fields<Seq<char>>,
    payload: nat,
    id: Option<&ClientIdentity>,
    reloading: bool,
    now: u64,
)
    requires
        elevated(id) || !takes_elevation(method),
        policy_of(method) matches Some(policy) && payload <= policy.max_payload_bytes && limit(
            b,
            policy.rate_bucket,
            id,
            now,
        ).1 is Err,
    ensures
        answered(
            admission(b, method, payload, id, reloading, now).1,
            route(g, method, f, now).0,
        ) matches Outcome::Reject { code, .. } && code == RATE_LIMITED,
{
}

/// A token is only ever issued for a method on the closed list, and only to a
/// caller that has the secret.
pub proof fn challenge_has_known_scope(
    g: GateState,
    method: Seq<char>,
    f: Fields<Seq<char>>,
    now: u64,
    scope: Seq<char>,
)
    requires
        route(g, method, f, now).0 == Outcome::Perform(Action::IssueChallenge { method: scope }),
    ensures
        challengeable(scope),
        method == "security.challenge"@,
        g.secret == Some(or_text(f.auth, ""@)),
{
    reveal_strlit("security.challenge");
    reveal_strlit("scan.start");
}

/// A scan never starts on a target that is empty, leads off the machine or
/// holds a NUL.
pub proof fn scan_target_is_local(
    g: GateState,
    method: Seq<char>,
    f: Fields<Seq<char>>,
    now: u64,
    scan_type: Seq<char>,
    target: Seq<char>,
)
    requires
        route(g, method, f, now).0 == Outcome::Perform(
            Action::StartScan { scan_type, target: Some(target) },
        ),
    ensures
        target.len() > 0,
        byte_len(target) <= MAX_PATH_LEN,
        !off_limits(target),
        !target.contains('\0'),
{
}

/// An event of the GUI is always marked as one: it never carries a category or
/// title of the daemon's own, nor a severity above `warning`.
pub proof fn gui_events_are_marked(
    g: GateState,
    method: Seq<char>,
    f: Fields<Seq<char>>,
    now: u64,
    severity: Seq<char>,
    category: Seq<char>,
    title: Seq<char>,
    message: Seq<char>,
)
    requires
        route(g, method, f, now).0 == Outcome::Perform(
            Action::ActivityLog { severity, category, title, message },
        ),
    ensures
        severity == "info"@ || severity == "warning"@,
        begins(category, "gui:"@),
        category.len() <= 44,
        begins(title, "[gui] "@),
        title.len() <= 160,
        message.len() <= 512,
{
    reveal_strlit("gui:");
    reveal_strlit("[gui] ");
    reveal_strlit("general");
    reveal_strlit("Activity event");
    reveal_strlit("");
    assert(category.subrange(0, 4) =~= "gui:"@);
    assert(title.subrange(0, 6) =~= "[gui] "@);
}

/// A benchmark runs in developer mode alone, with one to ten passes.
pub proof fn benchmark_needs_developer_mode(
    g: GateState,
    method: Seq<char>,
    f: Fields<Seq<char>>,
    now: u64,
    passes: u32,
)
    requires
        route(g, method, f, now).0 == Outcome::Perform(Action::Benchmark::<Seq<char>> { passes }),
    ensures
        g.developer_mode,
        1 <= passes <= 10,
{
}

/// A payload that is too long is refused before it costs a token of a budget.
pub proof fn oversized_payload_is_free(
    b: Budgets,
    method: Seq<char>,
    payload: nat,
    id: Option<&ClientIdentity>,
    reloading: bool,
    now: u64,
)
    requires
        policy_of(method) is Some,
        payload > policy_of(method)->0.max_payload_bytes,
    ensures
        admission(b, method, payload, id, reloading, now).0 == b,
        admission(b, method, payload, id, reloading, now).1 is Some,
{
}

/// The names of the methods are told apart by their lengths and some letters.
proof fn lemma_served_names()
    ensures
        "engine.status"@.len() == 13 && "engine.status"@[0] == 'e' && "engine.status"@[7] == 's',
        "engine.reload"@.len() == 13 && "engine.reload"@[0] == 'e' && "engine.reload"@[7] == 'r',
        "scan.status"@.len() == 11 && "scan.status"@[5] == 's',
        "scan.history"@.len() == 12 && "scan.history"@[0] == 's' && "scan.history"@[9] == 'o',
        "scan.cancel"@.len() == 11 && "scan.cancel"@[5] == 'c',
        "quarantine.list"@.len() == 15 && "quarantine.list"@[0] == 'q',
        "runtime.status"@.len() == 14 && "runtime.status"@[0] == 'r' && "runtime.status"@[8] == 's',
        "trust.status"@.len() == 12 && "trust.status"@[0] == 't' && "trust.status"@[9] == 't',
        "watcher.status"@.len() == 14 && "watcher.status"@[0] == 'w' && "watcher.status"@[8] == 's',
        "idle_scanner.status"@.len() == 19 && "idle_scanner.status"@[0] == 'i',
        "update.status"@.len() == 13 && "update.status"@[0] == 'u' && "update.status"@[7] == 's',
        "update.start"@.len() == 12 && "update.start"@[0] == 'u' && "update.start"@[9] == 'a',
        "activity.list"@.len() == 13 && "activity.list"@[0] == 'a' && "activity.list"@[7] == 'y',
        "stats.runtime"@.len() == 13 && "stats.runtime"@[0] == 's' && "stats.runtime"@[7] == 'u',
        "argus.version"@.len() == 13 && "argus.version"@[0] == 'a' && "argus.version"@[7] == 'e',
        "sources.status"@.len() == 14 && "sources.status"@[0] == 's' && "sources.status"@[8] == 's',
        "sources.list"@.len() == 12 && "sources.list"@[0] == 's' && "sources.list"@[9] == 'i',
        "sources.update"@.len() == 14 && "sources.update"@[0] == 's' && "sources.update"@[8] == 'u',
        "sources.rollback"@.len() == 16,
        "argus.reload"@.len() == 12 && "argus.reload"@[0] == 'a' && "argus.reload"@[9] == 'o',
        "argus.packs"@.len() == 11 && "argus.packs"@[5] == '.',
        "memory.list_processes"@.len() == 21 && "memory.list_processes"@[0] == 'm',
        "settings.get"@.len() == 12 && "settings.get"@[0] == 's' && "settings.get"@[9] == 'g',
        "settings.set"@.len() == 12 && "settings.set"@[0] == 's' && "settings.set"@[9] == 's',
        "health"@.len() == 6,
        "settings.get_full"@.len() == 17 && "settings.get_full"@[9] == 'g',
        "settings.get_defaults"@.len() == 21 && "settings.get_defaults"@[0] == 's',
        "settings.restart_requirements"@.len() == 29,
        "settings.set_full"@.len() == 17 && "settings.set_full"@[9] == 's',
        "protection.set_critical"@.len() == 23 && "protection.set_critical"@[0] == 'p',
        "protection.disable"@.len() == 18 && "protection.disable"@[0] == 'p',
        "protection.enable"@.len() == 17 && "protection.enable"@[9] == 'n',
        "diagnostics.export"@.len() == 18 && "diagnostics.export"@[0] == 'd',
        "dev.status"@.len() == 10 && "dev.status"@[0] == 'd',
        "scan.start"@.len() == 10 && "scan.start"@[0] == 's',
        "quarantine.add"@.len() == 14 && "quarantine.add"@[0] == 'q' && "quarantine.add"@[8] == 'n',
        "quarantine.restore"@.len() == 18 && "quarantine.restore"@[0] == 'q',
        "quarantine.restore_as"@.len() == 21 && "quarantine.restore_as"@[0] == 'q',
        "quarantine.delete"@.len() == 17 && "quarantine.delete"@[9] == 'e',
        "calibration.report_safe"@.len() == 23 && "calibration.report_safe"@[0] == 'c',
        "runtime.scan_buffer"@.len() == 19 && "runtime.scan_buffer"@[0] == 'r',
        "detections.list"@.len() == 15 && "detections.list"@[0] == 'd',
        "activity.log"@.len() == 12 && "activity.log"@[0] == 'a' && "activity.log"@[9] == 'l',
        "argus.analyze"@.len() == 13 && "argus.analyze"@[0] == 'a' && "argus.analyze"@[7] == 'n',
        "argus.verdicts"@.len() == 14 && "argus.verdicts"@[0] == 'a' && "argus.verdicts"@[8] == 'r',
        "sources.set"@.len() == 11 && "sources.set"@[5] == 'e',
        "memory.scan_process"@.len() == 19 && "memory.scan_process"@[0] == 'm',
        "security.challenge"@.len() == 18 && "security.challenge"@[0] == 's',
        "dev.set_developer_mode"@.len() == 22,
        "benchmark.run"@.len() == 13 && "benchmark.run"@[0] == 'b' && "benchmark.run"@[7] == 'r',
{
    reveal_strlit("engine.status");
    reveal_strlit("engine.reload");
    reveal_strlit("scan.status");
    reveal_strlit("scan.history");
    reveal_strlit("scan.cancel");
    reveal_strlit("quarantine.list");
    reveal_strlit("runtime.status");
    reveal_strlit("trust.status");
    reveal_strlit("watcher.status");
    reveal_strlit("idle_scanner.status");
    reveal_strlit("update.status");
    reveal_strlit("update.start");
    reveal_strlit("activity.list");
    reveal_strlit("stats.runtime");
    reveal_strlit("argus.version");
    reveal_strlit("sources.status");
    reveal_strlit("sources.list");
    reveal_strlit("sources.update");
    reveal_strlit("sources.rollback");
    reveal_strlit("argus.reload");
    reveal_strlit("argus.packs");
    reveal_strlit("memory.list_processes");
    reveal_strlit("settings.get");
    reveal_strlit("settings.set");
    reveal_strlit("health");
    reveal_strlit("settings.get_full");
    reveal_strlit("settings.get_defaults");
    reveal_strlit("settings.restart_requirements");
    reveal_strlit("settings.set_full");
    reveal_strlit("protection.set_critical");
    reveal_strlit("protection.disable");
    reveal_strlit("protection.enable");
    reveal_strlit("diagnostics.export");
    reveal_strlit("dev.status");
    reveal_strlit("scan.start");
    reveal_strlit("quarantine.add");
    reveal_strlit("quarantine.restore");
    reveal_strlit("quarantine.restore_as");
    reveal_strlit("quarantine.delete");
    reveal_strlit("calibration.report_safe");
    reveal_strlit("runtime.scan_buffer");
    reveal_strlit("detections.list");
    reveal_strlit("activity.log");
    reveal_strlit("argus.analyze");
    reveal_strlit("argus.verdicts");
    reveal_strlit("sources.set");
    reveal_strlit("memory.scan_process");
    reveal_strlit("security.challenge");
    reveal_strlit("dev.set_developer_mode");
    reveal_strlit("benchmark.run");
}

/// A request that is performed is performed as it was asked: each action comes from
/// its own method and has exactly the parameters that the request names.
pub proof fn action_is_the_one_asked_for(
    method: Seq<char>,
    f: Fields<Seq<char>>,
    developer_mode: bool,
    action: Action<Seq<char>>,
)
    requires
        serve(method, f, developer_mode) == Outcome::Perform(action),
    ensures
        match action {
            Action::EngineStatus => method == "engine.status"@,
            Action::EngineReload => method == "engine.reload"@,
            Action::ScanStatus => method == "scan.status"@,
            Action::ScanHistory => method == "scan.history"@,
            Action::CancelScan => method == "scan.cancel"@,
            Action::QuarantineList => method == "quarantine.list"@,
            Action::RuntimeStatus => method == "runtime.status"@,
            Action::TrustStatus => method == "trust.status"@,
            Action::WatcherStatus => method == "watcher.status"@,
            Action::IdleScannerStatus => method == "idle_scanner.status"@,
            Action::UpdateStatus => method == "update.status"@,
            Action::UpdateStart => method == "update.start"@,
            Action::ActivityList => method == "activity.list"@,
            Action::RuntimeStats => method == "stats.runtime"@,
            Action::ArgusVersion => method == "argus.version"@,
            Action::SourcesStatus => method == "sources.status"@ || method == "sources.list"@,
            Action::SourcesUpdate => method == "sources.update"@,
            Action::SourcesRollback => method == "sources.rollback"@,
            Action::ArgusReload => method == "argus.reload"@,
            Action::ArgusPacks => method == "argus.packs"@,
            Action::ListProcesses => method == "memory.list_processes"@,
            Action::SettingsGet => method == "settings.get"@,
            Action::SettingsSet => method == "settings.set"@,
            Action::Health => method == "health"@,
            Action::SettingsGetFull => method == "settings.get_full"@,
            Action::SettingsGetDefaults => method == "settings.get_defaults"@,
            Action::RestartRequirements => method == "settings.restart_requirements"@,
            Action::SettingsSetFull => method == "settings.set_full"@,
            Action::SetCritical => method == "protection.set_critical"@,
            Action::ProtectionDisable => method == "protection.disable"@,
            Action::ProtectionEnable => method == "protection.enable"@,
            Action::DiagnosticsExport => method == "diagnostics.export"@,
            Action::DevStatus => method == "dev.status"@,
            Action::StartScan { scan_type, target } => {
                &&& method == "scan.start"@
                &&& f.scan_type matches Some(named) ==> scan_type == named
                &&& f.scan_type is None ==> scan_type == "quick"@
                &&& target == f.target
            },
            Action::QuarantineAdd { path, virus_name, scan_id } => {
                &&& method == "quarantine.add"@
                &&& f.path matches Some(named) ==> path == named
                &&& f.path is None ==> path == ""@
                &&& f.virus_name matches Some(named) ==> virus_name == named
                &&& f.virus_name is None ==> virus_name == "Unknown"@
                &&& f.scan_id matches Some(named) ==> scan_id == named
                &&& f.scan_id is None ==> scan_id == ""@
                &&& byte_len(path) <= 4096 && byte_len(virus_name) <= 256 && byte_len(scan_id)
                    <= 128
            },
            Action::QuarantineRestore { id } => {
                &&& method == "quarantine.restore"@
                &&& f.id matches Some(named) ==> id == named
                &&& f.id is None ==> id == ""@
            },
            Action::QuarantineRestoreAs { id, dest } => {
                &&& method == "quarantine.restore_as"@
                &&& f.id matches Some(named) ==> id == named
                &&& f.id is None ==> id == ""@
                &&& f.dest == Some(dest)
                &&& dest.len() > 0
                &&& byte_len(id) <= 128 && byte_len(dest) <= 4096
            },
            Action::QuarantineDelete { id } => {
                &&& method == "quarantine.delete"@
                &&& f.id matches Some(named) ==> id == named
                &&& f.id is None ==> id == ""@
            },
            Action::ReportSafe { quarantine_id, sha256, file_path, detection_name } => {
                &&& method == "calibration.report_safe"@
                &&& f.sha256 == Some(sha256)
                &&& f.file_path == Some(file_path)
                &&& sha256.len() > 0 && file_path.len() > 0
                &&& f.quarantine_id matches Some(named) ==> quarantine_id == named
                &&& f.quarantine_id is None ==> quarantine_id == ""@
                &&& f.detection_name matches Some(named) ==> detection_name == named
                &&& f.detection_name is None ==> detection_name == ""@
            },
            Action::ScanBuffer { content, app_name, source_app, content_name } => {
                &&& method == "runtime.scan_buffer"@
                &&& f.content == Some(content)
                &&& content.len() > 0
                &&& f.language matches Some(named) ==> app_name == named + ".exe"@
                &&& f.language is None ==> app_name == "other"@ + ".exe"@
                &&& f.source_app matches Some(named) ==> source_app == named
                &&& f.source_app is None ==> source_app == "dev-inject"@
                &&& f.content_name matches Some(named) ==> content_name == named
                &&& f.content_name is None ==> content_name == "manual"@
            },
            Action::RecentDetections => method == "detections.list"@ && (f.scan_id matches Some(
                named,
            ) ==> named.len() == 0),
            Action::DetectionsOf { scan_id } => method == "detections.list"@ && f.scan_id == Some(
                scan_id,
            ) && scan_id.len() > 0,
            Action::ActivityLog { severity, category, title, message } => method
                == "activity.log"@,
            Action::ArgusAnalyze { path } => method == "argus.analyze"@ && f.path == Some(path),
            Action::ArgusVerdicts { of_scan } => method == "argus.verdicts"@ && of_scan
                == f.scan_id,
            Action::SourcesSet { provider } => {
                &&& method == "sources.set"@
                &&& f.provider matches Some(named) ==> provider == named
                &&& f.provider is None ==> provider == "none"@
            },
            Action::ScanProcess { pid } => {
                &&& method == "memory.scan_process"@
                &&& f.pid is Some
                &&& f.pid->0 <= u32::MAX ==> pid == f.pid->0
                &&& pid != 0
            },
            Action::IssueChallenge { method: scope } => method == "security.challenge"@
                && f.method == Some(scope) && challengeable(scope),
            Action::SetDeveloperMode { password, enabled, telemetry_enabled } => {
                &&& method == "dev.set_developer_mode"@
                &&& f.password matches Some(named) ==> password == named
                &&& f.password is None ==> password == ""@
                &&& enabled <==> f.enabled == Some(true)
                &&& telemetry_enabled == f.telemetry_enabled
            },
            Action::Benchmark { passes } => {
                &&& method == "benchmark.run"@
                &&& developer_mode
                &&& f.passes is None ==> passes == 3
                &&& f.passes matches Some(n) ==> (1 <= n <= 10 ==> passes == n) && (n == 0
                    ==> passes == 1) && (n > 10 ==> passes == 10)
            },
        },
{
    reveal_strlit("");
    lemma_scopes_are_named();
}

proof fn lemma_scopes_are_named()
    ensures
        !challengeable(""@),
{
    reveal_strlit("");
    lemma_token_names();
}

/// A scan that is asked for by a caller with the secret, on no target or on one that
/// is acceptable, is started with exactly the type that the request names, `quick`
/// only where it names none, and with exactly its target. No other scan is started.
pub proof fn scan_starts_as_asked(g: GateState, f: Fields<Seq<char>>, now: u64)
    requires
        f.auth is Some,
        g.secret == f.auth,
        f.target matches Some(t) ==> t.len() > 0 && byte_len(t) <= 4096 && !off_limits(t)
            && !t.contains('\0'),
    ensures
        route(g, "scan.start"@, f, now).0 matches Outcome::Perform(
            Action::StartScan { scan_type, target },
        ) && target == f.target && (f.scan_type matches Some(named) ==> scan_type == named) && (
        f.scan_type is None ==> scan_type == "quick"@),
        route(g, "scan.start"@, f, now).1 is NotPresented,
{
    lemma_served_names();
}

/// Two scans that are asked for with different types, or on different targets, are
/// different scans.
pub proof fn different_scans_are_kept_apart(
    a: Fields<Seq<char>>,
    b: Fields<Seq<char>>,
    developer_mode: bool,
)
    requires
        serve("scan.start"@, a, developer_mode) is Perform,
        serve("scan.start"@, a, developer_mode) == serve("scan.start"@, b, developer_mode),
        a.scan_type is Some == b.scan_type is Some,
    ensures
        a.scan_type == b.scan_type,
        a.target == b.target,
{
    lemma_served_names();
}

/// The methods that take no parameters are all served, each with its own action.
pub proof fn plain_methods_are_served(f: Fields<Seq<char>>, developer_mode: bool)
    ensures
        serve("engine.status"@, f, developer_mode) == Outcome::Perform(Action::<Seq<char>>::EngineStatus),
        serve("engine.reload"@, f, developer_mode) == Outcome::Perform(Action::<Seq<char>>::EngineReload),
        serve("scan.status"@, f, developer_mode) == Outcome::Perform(Action::<Seq<char>>::ScanStatus),
        serve("scan.history"@, f, developer_mode) == Outcome::Perform(Action::<Seq<char>>::ScanHistory),
        serve("scan.cancel"@, f, developer_mode) == Outcome::Perform(Action::<Seq<char>>::CancelScan),
        serve("quarantine.list"@, f, developer_mode) == Outcome::Perform(Action::<Seq<char>>::QuarantineList),
        serve("runtime.status"@, f, developer_mode) == Outcome::Perform(Action::<Seq<char>>::RuntimeStatus),
        serve("trust.status"@, f, developer_mode) == Outcome::Perform(Action::<Seq<char>>::TrustStatus),
        serve("watcher.status"@, f, developer_mode) == Outcome::Perform(Action::<Seq<char>>::WatcherStatus),
        serve("idle_scanner.status"@, f, developer_mode) == Outcome::Perform(Action::<Seq<char>>::IdleScannerStatus),
        serve("update.status"@, f, developer_mode) == Outcome::Perform(Action::<Seq<char>>::UpdateStatus),
        serve("update.start"@, f, developer_mode) == Outcome::Perform(Action::<Seq<char>>::UpdateStart),
        serve("activity.list"@, f, developer_mode) == Outcome::Perform(Action::<Seq<char>>::ActivityList),
        serve("stats.runtime"@, f, developer_mode) == Outcome::Perform(Action::<Seq<char>>::RuntimeStats),
        serve("argus.version"@, f, developer_mode) == Outcome::Perform(Action::<Seq<char>>::ArgusVersion),
        serve("sources.status"@, f, developer_mode) == Outcome::Perform(Action::<Seq<char>>::SourcesStatus),
        serve("sources.list"@, f, developer_mode) == Outcome::Perform(Action::<Seq<char>>::SourcesStatus),
        serve("sources.update"@, f, developer_mode) == Outcome::Perform(Action::<Seq<char>>::SourcesUpdate),
        serve("sources.rollback"@, f, developer_mode) == Outcome::Perform(Action::<Seq<char>>::SourcesRollback),
        serve("argus.reload"@, f, developer_mode) == Outcome::Perform(Action::<Seq<char>>::ArgusReload),
        serve("argus.packs"@, f, developer_mode) == Outcome::Perform(Action::<Seq<char>>::ArgusPacks),
        serve("memory.list_processes"@, f, developer_mode) == Outcome::Perform(Action::<Seq<char>>::ListProcesses),
        serve("settings.get"@, f, developer_mode) == Outcome::Perform(Action::<Seq<char>>::SettingsGet),
        serve("settings.set"@, f, developer_mode) == Outcome::Perform(Action::<Seq<char>>::SettingsSet),
        serve("health"@, f, developer_mode) == Outcome::Perform(Action::<Seq<char>>::Health),
        serve("settings.get_full"@, f, developer_mode) == Outcome::Perform(Action::<Seq<char>>::SettingsGetFull),
        serve("settings.get_defaults"@, f, developer_mode) == Outcome::Perform(Action::<Seq<char>>::SettingsGetDefaults),
        serve("settings.restart_requirements"@, f, developer_mode) == Outcome::Perform(Action::<Seq<char>>::RestartRequirements),
        serve("settings.set_full"@, f, developer_mode) == Outcome::Perform(Action::<Seq<char>>::SettingsSetFull),
        serve("protection.set_critical"@, f, developer_mode) == Outcome::Perform(Action::<Seq<char>>::SetCritical),
        serve("protection.disable"@, f, developer_mode) == Outcome::Perform(Action::<Seq<char>>::ProtectionDisable),
        serve("protection.enable"@, f, developer_mode) == Outcome::Perform(Action::<Seq<char>>::ProtectionEnable),
        serve("diagnostics.export"@, f, developer_mode) == Outcome::Perform(Action::<Seq<char>>::DiagnosticsExport),
        serve("dev.status"@, f, developer_mode) == Outcome::Perform(Action::<Seq<char>>::DevStatus),
{
    lemma_served_names();
}

/// The methods that take parameters are served wherever these are acceptable, and
/// say why not where they are not.
pub proof fn methods_with_parameters_are_served(f: Fields<Seq<char>>, developer_mode: bool)
    ensures
        serve("quarantine.restore"@, f, developer_mode) is Perform,
        serve("quarantine.delete"@, f, developer_mode) is Perform,
        serve("detections.list"@, f, developer_mode) is Perform,
        serve("activity.log"@, f, developer_mode) is Perform,
        serve("argus.verdicts"@, f, developer_mode) is Perform,
        serve("sources.set"@, f, developer_mode) is Perform,
        serve("dev.set_developer_mode"@, f, developer_mode) is Perform,
        serve("argus.analyze"@, f, developer_mode) is Perform <==> f.path is Some,
        f.path is None ==> serve("argus.analyze"@, f, developer_mode) == (Outcome::Note {
            error: "Missing 'path' parameter"@,
        }),
        serve("benchmark.run"@, f, developer_mode) is Perform <==> developer_mode,
        !developer_mode ==> serve("benchmark.run"@, f, developer_mode) == (Outcome::Reject {
            code: INVALID_PARAMS,
            message: "benchmark requires developer mode"@,
        }),
        f.pid is None || f.pid == Some(0u64) ==> serve("memory.scan_process"@, f, developer_mode)
            == (Outcome::Note { error: "pid required"@ }),
        (f.pid matches Some(n) && 0 < n <= u32::MAX) ==> serve(
            "memory.scan_process"@,
            f,
            developer_mode,
        ) is Perform,
        (f.method matches Some(scope) && challengeable(scope)) ==> serve(
            "security.challenge"@,
            f,
            developer_mode,
        ) is Perform,
        f.method is None || !challengeable(f.method->0) ==> serve(
            "security.challenge"@,
            f,
            developer_mode,
        ) == (Outcome::Reject {
            code: INVALID_PARAMS,
            message: "challenge token requires a known dangerous-method scope (param: method)"@,
        }),
        serve("runtime.scan_buffer"@, f, developer_mode) is Perform <==> (f.content matches Some(
            text,
        ) && text.len() > 0),
        !(serve("runtime.scan_buffer"@, f, developer_mode) is Perform) ==> serve(
            "runtime.scan_buffer"@,
            f,
            developer_mode,
        ) == (Outcome::Refuse { error: "empty content"@ }),
        serve("calibration.report_safe"@, f, developer_mode) is Perform <==> (f.sha256 is Some
            && f.sha256->0.len() > 0 && f.file_path is Some && f.file_path->0.len() > 0),
        !(serve("calibration.report_safe"@, f, developer_mode) is Perform) ==> serve(
            "calibration.report_safe"@,
            f,
            developer_mode,
        ) == (Outcome::Refuse { error: "missing sha256 or file_path"@ }),
{
    lemma_served_names();
    lemma_scopes_are_named();
    reveal_strlit("");
}

/// A file is put into quarantine, and restored elsewhere, wherever no parameter is
/// longer than it may be and there is a place to restore to.
pub proof fn quarantine_requests_are_bounded(f: Fields<Seq<char>>, developer_mode: bool)
    requires
        f.path is Some,
        f.virus_name is Some,
        f.scan_id is Some,
        f.id is Some,
        f.dest is Some,
    ensures
        ({
            let fits = byte_len(f.path->0) <= 4096 && byte_len(f.virus_name->0) <= 256 && byte_len(
                f.scan_id->0,
            ) <= 128;
            let outcome = serve("quarantine.add"@, f, developer_mode);
            &&& fits <==> outcome is Perform
            &&& !fits ==> outcome == (Outcome::Reject {
                code: INVALID_PARAMS,
                message: "quarantine.add param too long"@,
            })
        }),
        ({
            let fits = byte_len(f.id->0) <= 128 && byte_len(f.dest->0) <= 4096;
            let outcome = serve("quarantine.restore_as"@, f, developer_mode);
            &&& !fits ==> outcome == (Outcome::Refuse { error: "id/dest param too long"@ })
            &&& fits && f.dest->0.len() == 0 ==> outcome == (Outcome::Refuse {
                error: "dest path required"@,
            })
            &&& fits && f.dest->0.len() > 0 ==> outcome is Perform
        }),
{
    lemma_served_names();
}

/// A name that is none of the methods' is told so, and only such a name.
pub proof fn unknown_methods_are_told(
    method: Seq<char>,
    f: Fields<Seq<char>>,
    developer_mode: bool,
)
    ensures
        (serve(method, f, developer_mode) matches Outcome::Reject { code, message } && code
            == -32601 && message == "unknown method: "@ + method) <==> !(method == "engine.status"@
            || method == "engine.reload"@
            || method == "scan.status"@
            || method == "scan.history"@
            || method == "scan.cancel"@
            || method == "quarantine.list"@
            || method == "runtime.status"@
            || method == "trust.status"@
            || method == "watcher.status"@
            || method == "idle_scanner.status"@
            || method == "update.status"@
            || method == "update.start"@
            || method == "activity.list"@
            || method == "stats.runtime"@
            || method == "argus.version"@
            || method == "sources.status"@
            || method == "sources.list"@
            || method == "sources.update"@
            || method == "sources.rollback"@
            || method == "argus.reload"@
            || method == "argus.packs"@
            || method == "memory.list_processes"@
            || method == "settings.get"@
            || method == "settings.set"@
            || method == "health"@
            || method == "settings.get_full"@
            || method == "settings.get_defaults"@
            || method == "settings.restart_requirements"@
            || method == "settings.set_full"@
            || method == "protection.set_critical"@
            || method == "protection.disable"@
            || method == "protection.enable"@
            || method == "diagnostics.export"@
            || method == "dev.status"@
            || method == "scan.start"@
            || method == "quarantine.add"@
            || method == "quarantine.restore"@
            || method == "quarantine.restore_as"@
            || method == "quarantine.delete"@
            || method == "calibration.report_safe"@
            || method == "runtime.scan_buffer"@
            || method == "detections.list"@
            || method == "activity.log"@
            || method == "argus.analyze"@
            || method == "argus.verdicts"@
            || method == "sources.set"@
            || method == "memory.scan_process"@
            || method == "security.challenge"@
            || method == "dev.set_developer_mode"@
            || method == "benchmark.run"@),
        (serve(method, f, developer_mode) matches Outcome::Reject { code, .. } && code == -32601)
            ==> serve(method, f, developer_mode) == (Outcome::Reject {
            code: METHOD_NOT_FOUND,
            message: "unknown method: "@ + method,
        }),
{
}

/// Without the secret only the state of the daemon is told: whatever else is
/// performed was asked for with the secret, or with a token that is issued to a
/// caller who has it.
pub proof fn only_status_is_public(
    g: GateState,
    method: Seq<char>,
    f: Fields<Seq<char>>,
    now: u64,
    action: Action<Seq<char>>,
)
    requires
        route(g, method, f, now).0 == Outcome::Perform(action),
        g.secret is None || f.auth is None || g.secret != f.auth,
        sound(g),
    ensures
        action is EngineStatus || action is ScanStatus || action is UpdateStatus || action
            is ArgusVersion || action is Health || dangerous_action(action),
        dangerous_action(action) ==> route(g, method, f, now).1 is Accepted,
{
    reveal_strlit("");
    assert(""@ =~= Seq::<char>::empty());
    assert(byte_len(Seq::<char>::empty()) == 0);
    lemma_served_names();
    class_of_each_method(method);
}

/// The state of the daemon is told to anybody, without a secret and without a token.
pub proof fn status_is_for_everybody(g: GateState, f: Fields<Seq<char>>, now: u64)
    ensures
        route(g, "health"@, f, now) == (
            Outcome::Perform(Action::<Seq<char>>::Health),
            TokenUse::NotPresented,
        ),
        route(g, "engine.status"@, f, now) == (
            Outcome::Perform(Action::<Seq<char>>::EngineStatus),
            TokenUse::NotPresented,
        ),
        route(g, "scan.status"@, f, now) == (
            Outcome::Perform(Action::<Seq<char>>::ScanStatus),
            TokenUse::NotPresented,
        ),
        route(g, "update.status"@, f, now) == (
            Outcome::Perform(Action::<Seq<char>>::UpdateStatus),
            TokenUse::NotPresented,
        ),
        route(g, "argus.version"@, f, now) == (
            Outcome::Perform(Action::<Seq<char>>::ArgusVersion),
            TokenUse::NotPresented,
        ),
{
    lemma_served_names();
    class_of_each_method("health"@);
    class_of_each_method("engine.status"@);
    class_of_each_method("scan.status"@);
    class_of_each_method("update.status"@);
    class_of_each_method("argus.version"@);
}

/// A caller with the secret is served every method that takes no token, and the
/// outstanding token is left alone.
pub proof fn secret_opens_what_takes_no_token(
    g: GateState,
    method: Seq<char>,
    f: Fields<Seq<char>>,
    now: u64,
)
    requires
        f.auth is Some,
        g.secret == f.auth,
        !challengeable(method),
    ensures
        route(g, method, f, now) == (serve(method, f, g.developer_mode), TokenUse::NotPresented),
        gate_after(g, route(g, method, f, now).1).challenge == g.challenge,
{
    token_wanted_where_issued(method, f);
}

/// A caller with the secret and a token of the right scope, presented within a
/// minute, is served a method that takes one.
pub proof fn token_opens_its_method(
    g: GateState,
    method: Seq<char>,
    f: Fields<Seq<char>>,
    now: u64,
    c: Challenge,
)
    requires
        f.auth is Some,
        g.secret == f.auth,
        challengeable(method),
        g.challenge == Some(c),
        c.method == method,
        carried_token(method, f) == Some(c.token),
        now < c.issued_at + 60_000_000_000,
    ensures
        route(g, method, f, now) == (serve(method, f, g.developer_mode), TokenUse::Accepted),
{
    lemma_served_names();
    token_expires(c, now);
}

/// The answer to a dangerous request without its token says which one is missing,
/// in the way of its method, and burns the outstanding token.
pub proof fn missing_token_is_named(g: GateState, f: Fields<Seq<char>>, now: u64)
    requires
        f.auth is Some,
        g.secret == f.auth,
        g.challenge is None,
    ensures
        route(g, "engine.reload"@, f, now) == (Outcome::<Seq<char>>::Reject { code: INVALID_PARAMS, message: "challenge token required for engine reload"@ }, TokenUse::Rejected),
        route(g, "argus.reload"@, f, now) == (Outcome::<Seq<char>>::Reject { code: INVALID_PARAMS, message: "challenge token required for ARGUS reload"@ }, TokenUse::Rejected),
        route(g, "settings.set"@, f, now) == (Outcome::<Seq<char>>::Reject { code: INVALID_PARAMS, message: "challenge token required for settings update"@ }, TokenUse::Rejected),
        route(g, "settings.set_full"@, f, now) == (Outcome::<Seq<char>>::Reject { code: INVALID_PARAMS, message: "challenge token required for settings update"@ }, TokenUse::Rejected),
        route(g, "protection.set_critical"@, f, now) == (Outcome::<Seq<char>>::Reject { code: INVALID_PARAMS, message: "challenge token required — call security.challenge first"@ }, TokenUse::Rejected),
        route(g, "protection.disable"@, f, now) == (Outcome::<Seq<char>>::Reject { code: INVALID_PARAMS, message: "challenge token required"@ }, TokenUse::Rejected),
        route(g, "protection.enable"@, f, now) == (Outcome::<Seq<char>>::Reject { code: INVALID_PARAMS, message: "challenge token required"@ }, TokenUse::Rejected),
        route(g, "sources.set"@, f, now) == (Outcome::<Seq<char>>::Reject { code: INSUFFICIENT_PRIVILEGE, message: "challenge token required to change signature sources"@ }, TokenUse::Rejected),
        route(g, "sources.update"@, f, now) == (Outcome::<Seq<char>>::Reject { code: INSUFFICIENT_PRIVILEGE, message: "challenge token required for provider update"@ }, TokenUse::Rejected),
        route(g, "sources.rollback"@, f, now) == (Outcome::<Seq<char>>::Reject { code: INSUFFICIENT_PRIVILEGE, message: "challenge token required for rollback"@ }, TokenUse::Rejected),
        route(g, "quarantine.add"@, f, now) == (Outcome::<Seq<char>>::Refuse { error: "Challenge token required for quarantine add"@ }, TokenUse::Rejected),
        route(g, "quarantine.restore"@, f, now) == (Outcome::<Seq<char>>::Refuse { error: "Challenge token required for quarantine restore"@ }, TokenUse::Rejected),
        route(g, "quarantine.restore_as"@, f, now) == (Outcome::<Seq<char>>::Refuse { error: "Challenge token required for quarantine restore"@ }, TokenUse::Rejected),
        route(g, "quarantine.delete"@, f, now) == (Outcome::<Seq<char>>::Refuse { error: "Challenge token required for quarantine delete"@ }, TokenUse::Rejected),
{
    lemma_served_names();
}

/// The answer to a caller without the secret tells what was asked for.
pub proof fn missing_secret_is_named(g: GateState, f: Fields<Seq<char>>, now: u64)
    requires
        g.secret is None,
    ensures
        f.scan_type matches Some(named) ==> route(g, "scan.start"@, f, now).0
            == (Outcome::Reject { code: INVALID_PARAMS, message: named + " scans require IPC authentication"@ }),
        f.scan_type is None ==> route(g, "scan.start"@, f, now).0 == (Outcome::Reject {
            code: INVALID_PARAMS,
            message: "quick"@ + " scans require IPC authentication"@,
        }),
        route(g, "engine.reload"@, f, now).0 == (Outcome::Reject { code: INVALID_PARAMS, message: "authenticated IPC engine reload required"@ }),
        route(g, "scan.cancel"@, f, now).0 == (Outcome::Reject { code: INVALID_PARAMS, message: "authenticated IPC scan cancel required"@ }),
        route(g, "quarantine.list"@, f, now).0 == (Outcome::Reject { code: INVALID_PARAMS, message: "authenticated IPC quarantine list required"@ }),
        route(g, "calibration.report_safe"@, f, now).0 == (Outcome::Reject { code: INVALID_PARAMS, message: "authenticated IPC update required"@ }),
        route(g, "runtime.status"@, f, now).0 == (Outcome::Reject { code: INVALID_PARAMS, message: "authenticated IPC runtime status required"@ }),
        route(g, "trust.status"@, f, now).0 == (Outcome::Reject { code: INVALID_PARAMS, message: "authenticated IPC trust status required"@ }),
        route(g, "runtime.scan_buffer"@, f, now).0 == (Outcome::Reject { code: INVALID_PARAMS, message: "authenticated IPC required"@ }),
        route(g, "detections.list"@, f, now).0 == (Outcome::Reject { code: INVALID_PARAMS, message: "authenticated IPC detections list required"@ }),
        route(g, "watcher.status"@, f, now).0 == (Outcome::Reject { code: INVALID_PARAMS, message: "authenticated IPC required for watcher status"@ }),
        route(g, "idle_scanner.status"@, f, now).0 == (Outcome::Reject { code: INVALID_PARAMS, message: "authenticated IPC required for idle scanner status"@ }),
        route(g, "update.start"@, f, now).0 == (Outcome::Reject { code: INVALID_PARAMS, message: "authenticated IPC update start required"@ }),
        route(g, "activity.list"@, f, now).0 == (Outcome::Reject { code: INVALID_PARAMS, message: "authenticated IPC activity list required"@ }),
        route(g, "activity.log"@, f, now).0 == (Outcome::Reject { code: INVALID_PARAMS, message: "authenticated IPC activity log required"@ }),
        route(g, "argus.analyze"@, f, now).0 == (Outcome::Reject { code: INVALID_PARAMS, message: "authenticated IPC required for ARGUS analysis"@ }),
        route(g, "argus.reload"@, f, now).0 == (Outcome::Reject { code: INVALID_PARAMS, message: "authenticated IPC ARGUS reload required"@ }),
        route(g, "memory.list_processes"@, f, now).0 == (Outcome::Reject { code: INVALID_PARAMS, message: "authenticated IPC memory access required"@ }),
        route(g, "memory.scan_process"@, f, now).0 == (Outcome::Reject { code: INVALID_PARAMS, message: "authenticated IPC memory access required"@ }),
        route(g, "settings.get"@, f, now).0 == (Outcome::Reject { code: INVALID_PARAMS, message: "authenticated IPC settings read required"@ }),
        route(g, "settings.get_full"@, f, now).0 == (Outcome::Reject { code: INVALID_PARAMS, message: "authenticated IPC settings read required"@ }),
        route(g, "settings.get_defaults"@, f, now).0 == (Outcome::Reject { code: INVALID_PARAMS, message: "authenticated IPC settings read required"@ }),
        route(g, "settings.restart_requirements"@, f, now).0 == (Outcome::Reject { code: INVALID_PARAMS, message: "authenticated IPC settings read required"@ }),
        route(g, "security.challenge"@, f, now).0 == (Outcome::Reject { code: INVALID_PARAMS, message: "authenticated IPC challenge required"@ }),
        route(g, "settings.set"@, f, now).0 == (Outcome::Reject { code: INVALID_PARAMS, message: "authenticated IPC settings update required"@ }),
        route(g, "settings.set_full"@, f, now).0 == (Outcome::Reject { code: INVALID_PARAMS, message: "authenticated IPC settings update required"@ }),
        route(g, "diagnostics.export"@, f, now).0 == (Outcome::Reject { code: INVALID_PARAMS, message: "authenticated IPC diagnostics export required"@ }),
        route(g, "dev.status"@, f, now).0 == (Outcome::Reject { code: INVALID_PARAMS, message: "authenticated IPC dev status read required"@ }),
        route(g, "dev.set_developer_mode"@, f, now).0 == (Outcome::Reject { code: INVALID_PARAMS, message: "authenticated IPC dev toggle required"@ }),
        route(g, "benchmark.run"@, f, now).0 == (Outcome::Reject { code: INVALID_PARAMS, message: "authenticated IPC benchmark run required"@ }),
{
    lemma_served_names();
}

/// A parameter is read from the member of its own name, and is missing where there is
/// no such member of its kind.
pub proof fn parameters_come_from_their_members(v: &serde_json::Value)
    ensures
        ({
            let f = fields_of(v);
            let has = |key: Seq<char>| text_members(v).contains_key(key);
            let text = |key: Seq<char>| text_members(v)[key];
            &&& f.auth is Some <==> has("auth"@)
            &&& f.auth matches Some(t) ==> t == text("auth"@)
            &&& f.token is Some <==> has("token"@)
            &&& f.token matches Some(t) ==> t == text("token"@)
            &&& f.challenge_token is Some <==> has("challenge_token"@)
            &&& f.challenge_token matches Some(t) ==> t == text("challenge_token"@)
            &&& f.scan_type is Some <==> has("type"@)
            &&& f.scan_type matches Some(t) ==> t == text("type"@)
            &&& f.target is Some <==> has("target"@)
            &&& f.target matches Some(t) ==> t == text("target"@)
            &&& f.path is Some <==> has("path"@)
            &&& f.path matches Some(t) ==> t == text("path"@)
            &&& f.virus_name is Some <==> has("virus_name"@)
            &&& f.virus_name matches Some(t) ==> t == text("virus_name"@)
            &&& f.scan_id is Some <==> has("scan_id"@)
            &&& f.scan_id matches Some(t) ==> t == text("scan_id"@)
            &&& f.id is Some <==> has("id"@)
            &&& f.id matches Some(t) ==> t == text("id"@)
            &&& f.dest is Some <==> has("dest"@)
            &&& f.dest matches Some(t) ==> t == text("dest"@)
            &&& f.quarantine_id is Some <==> has("quarantine_id"@)
            &&& f.quarantine_id matches Some(t) ==> t == text("quarantine_id"@)
            &&& f.sha256 is Some <==> has("sha256"@)
            &&& f.sha256 matches Some(t) ==> t == text("sha256"@)
            &&& f.file_path is Some <==> has("file_path"@)
            &&& f.file_path matches Some(t) ==> t == text("file_path"@)
            &&& f.detection_name is Some <==> has("detection_name"@)
            &&& f.detection_name matches Some(t) ==> t == text("detection_name"@)
            &&& f.content is Some <==> has("content"@)
            &&& f.content matches Some(t) ==> t == text("content"@)
            &&& f.language is Some <==> has("language"@)
            &&& f.language matches Some(t) ==> t == text("language"@)
            &&& f.source_app is Some <==> has("source_app"@)
            &&& f.source_app matches Some(t) ==> t == text("source_app"@)
            &&& f.content_name is Some <==> has("content_name"@)
            &&& f.content_name matches Some(t) ==> t == text("content_name"@)
            &&& f.severity is Some <==> has("severity"@)
            &&& f.severity matches Some(t) ==> t == text("severity"@)
            &&& f.category is Some <==> has("category"@)
            &&& f.category matches Some(t) ==> t == text("category"@)
            &&& f.title is Some <==> has("title"@)
            &&& f.title matches Some(t) ==> t == text("title"@)
            &&& f.message is Some <==> has("message"@)
            &&& f.message matches Some(t) ==> t == text("message"@)
            &&& f.provider is Some <==> has("provider"@)
            &&& f.provider matches Some(t) ==> t == text("provider"@)
            &&& f.method is Some <==> has("method"@)
            &&& f.method matches Some(t) ==> t == text("method"@)
            &&& f.password is Some <==> has("password"@)
            &&& f.password matches Some(t) ==> t == text("password"@)
            &&& f.enabled is Some <==> bool_members(v).contains_key("enabled"@)
            &&& f.enabled matches Some(t) ==> t == bool_members(v)["enabled"@]
            &&& f.telemetry_enabled is Some <==> bool_members(v).contains_key("telemetry_enabled"@)
            &&& f.telemetry_enabled matches Some(t) ==> t == bool_members(v)["telemetry_enabled"@]
            &&& f.pid is Some <==> uint_members(v).contains_key("pid"@)
            &&& f.pid matches Some(t) ==> t == uint_members(v)["pid"@]
            &&& f.passes is Some <==> uint_members(v).contains_key("passes"@)
            &&& f.passes matches Some(t) ==> t == uint_members(v)["passes"@]
        }),
{
}

/// A request is refused before it is looked at for one of four reasons only, in this
/// order: its caller is not elevated, its payload is too long, it comes too often, or
/// the engine is reloading.
pub proof fn admission_has_four_refusals(
    b: Budgets,
    method: Seq<char>,
    payload: nat,
    id: Option<&ClientIdentity>,
    reloading: bool,
    now: u64,
)
    ensures
        ({
            let refusal = admission(b, method, payload, id, reloading, now).1;
            let for_administrators = challengeable(method) || method == "memory.scan_process"@;
            let plain_user = id matches Some(c) && !c.is_elevated && !c.is_system;
            let policy = policy_of(method);
            let too_long = policy matches Some(p) && payload > p.max_payload_bytes;
            let spent = policy matches Some(p) && limit(b, p.rate_bucket, id, now).1 is Err;
            let waits = policy matches Some(p) && !p.allowed_while_reloading && reloading;
            if for_administrators && plain_user {
                refusal == Some(
                    Outcome::Reject {
                        code: INSUFFICIENT_PRIVILEGE,
                        message: "administrator elevation required for "@ + method,
                    },
                )
            } else if too_long {
                refusal matches Some(Outcome::Reject { code, message }) && code == -32021
                    && message == "payload "@ + decimal(payload) + " bytes exceeds limit "@
                    + decimal(policy->0.max_payload_bytes as nat) + " for "@ + method
            } else if spent {
                refusal matches Some(Outcome::Reject { code, message }) && code == -32020
                    && message == "rate limited — retry after "@ + decimal(
                    limit(b, policy->0.rate_bucket, id, now).1->Err_0 as nat,
                ) + "s"@
            } else if waits {
                refusal == Some(
                    Outcome::Reject {
                        code: ENGINE_RELOADING,
                        message: "engine is reloading — try again shortly"@,
                    },
                )
            } else {
                refusal is None
            }
        }),
{
}

/// A request that is neither too long nor of an unelevated caller is counted against
/// its bucket, also where it is refused because the engine reloads; no other request
/// is.
pub proof fn admitted_requests_are_counted(
    b: Budgets,
    method: Seq<char>,
    payload: nat,
    id: Option<&ClientIdentity>,
    reloading: bool,
    now: u64,
)
    requires
        policy_of(method) is Some,
        payload <= policy_of(method)->0.max_payload_bytes,
        challengeable(method) || method == "memory.scan_process"@ ==> (id matches Some(c) ==> (
        c.is_elevated || c.is_system)),
    ensures
        admission(b, method, payload, id, reloading, now).0 == limit(
            b,
            policy_of(method)->0.rate_bucket,
            id,
            now,
        ).0,
{
}

/// Which methods a token can be issued for.
pub proof fn dangerous_methods_take_tokens(method: Seq<char>)
    ensures
        challengeable(method) <==> (policy_of(method) matches Some(p) && (p.class
            is PrivilegedMutation || p.class is DangerousOperation)),
{
    class_of_each_method(method);
}

/// A local path is a fine target: one that begins neither with two slashes nor with
/// two backslashes, and names no device, is never refused for where it leads.
pub proof fn local_paths_are_fine(target: Seq<char>)
    requires
        target.len() >= 2,
        !(target[0] == '\\' && target[1] == '\\'),
        !(target[0] == '/' && target[1] == '/'),
        !occurs("\\globalroot\\"@, lower_ascii(target)),
        !occurs("\\physicaldrive"@, lower_ascii(target)),
        byte_len(target) <= 4096,
        !target.contains('\0'),
    ensures
        target_refusal(target) is None,
{
    reveal_strlit("\\\\");
    reveal_strlit("//");
    reveal_strlit("\\\\?\\unc\\");
    reveal_strlit("\\\\.\\");
    let lower = lower_ascii(target);
    assert(lower[0] == '\\' ==> target[0] == '\\');
    assert(lower[1] == '\\' ==> target[1] == '\\');
    if begins(target, "\\\\"@) {
        assert(target.subrange(0, 2)[0] == '\\' && target.subrange(0, 2)[1] == '\\');
    }
    if begins(target, "//"@) {
        assert(target.subrange(0, 2)[0] == '/' && target.subrange(0, 2)[1] == '/');
    }
    if begins(lower, "\\\\?\\unc\\"@) {
        assert(lower.subrange(0, 8)[0] == '\\' && lower.subrange(0, 8)[1] == '\\');
    }
    if begins(lower, "\\\\.\\"@) {
        assert(lower.subrange(0, 4)[0] == '\\' && lower.subrange(0, 4)[1] == '\\');
    }
}

/// A share of another machine is never a target, nor is a device or a path that is
/// too long, empty or holds a NUL; each is answered in its own words.
pub proof fn foreign_targets_are_refused(target: Seq<char>)
    ensures
        target.len() == 0 ==> target_refusal(target) == Some("empty target path"@),
        target.len() > 0 && byte_len(target) > 4096 ==> target_refusal(target) == Some(
            "target path too long"@,
        ),
        target.len() > 2 && byte_len(target) <= 4096 && target[0] == '\\' && target[1] == '\\'
            && target[2] != '?' ==> target_refusal(target) == Some(
            "scan target must be a local non-UNC path"@,
        ),
        target.len() >= 2 && byte_len(target) <= 4096 && target[0] == '/' && target[1] == '/'
            ==> target_refusal(target) == Some("scan target must be a local non-UNC path"@),
        target.len() > 0 && byte_len(target) <= 4096 && (occurs(
            "\\globalroot\\"@,
            lower_ascii(target),
        ) || occurs("\\physicaldrive"@, lower_ascii(target)) || begins(
            lower_ascii(target),
            "\\\\?\\unc\\"@,
        ) || begins(lower_ascii(target), "\\\\.\\"@)) ==> target_refusal(target) == Some(
            "scan target must be a local non-UNC path"@,
        ),
        target.contains('\0') ==> target_refusal(target) is Some,
{
    reveal_strlit("\\\\");
    reveal_strlit("//");
    reveal_strlit("\\\\?\\");
    reveal_strlit("\\\\.\\");
    let lower = lower_ascii(target);
    if target.len() >= 2 && target[0] == '/' && target[1] == '/' {
        assert(target.subrange(0, 2) =~= "//"@);
    }
    if target.len() > 2 && target[0] == '\\' && target[1] == '\\' && target[2] != '?' {
        assert(target.subrange(0, 2) =~= "\\\\"@);
        if begins(lower, "\\\\?\\"@) {
            assert(lower.subrange(0, 4)[2] == '?');
            assert(lower[2] == '?');
        }
    }
}

/// What the GUI logs is what it asked to log, cut to size and marked; a blank or
/// missing text is replaced, and a severity other than `info` and `warning` becomes
/// `info`.
pub proof fn gui_text_is_kept(f: Fields<Seq<char>>)
    ensures
        gui_event(f) matches Action::ActivityLog { severity, category, title, message } && {
            &&& (f.category matches Some(text) && trimmed(text).len() > 0 && text.len() <= 40)
                ==> category == "gui:"@ + f.category->0
            &&& f.category is None ==> category == "gui:"@ + "general"@
            &&& (f.title matches Some(text) && trimmed(text).len() > 0 && text.len() <= 154)
                ==> title == "[gui] "@ + f.title->0
            &&& f.title is None ==> title == "[gui] "@ + "Activity event"@
            &&& (f.message matches Some(text) && trimmed(text).len() > 0 && text.len() <= 512)
                ==> message == f.message->0
            &&& f.message is None ==> message == ""@
            &&& f.severity == Some("warning"@) ==> severity == "warning"@
            &&& f.severity != Some("warning"@) && (f.severity matches Some(text) ==> text.len() <= 24)
                ==> severity == "info"@
        },
{
    reveal_strlit("general");
    reveal_strlit("Activity event");
    reveal_strlit("");
    reveal_strlit("info");
    reveal_strlit("warning");
    let w = "warning"@;
    assert(w[0] == 'w' && w[6] == 'g');
    crate::text::blanks_are_white_letters_are_not('w');
    crate::text::blanks_are_white_letters_are_not('g');
    crate::text::trimming_takes_white_ends(w);
}

/// A text of the GUI is a beginning of what was given, of at most so many characters.
pub proof fn gui_text_is_cut(field: Option<Seq<char>>, fallback: Seq<char>, max: nat)
    ensures
        bounded_text(field, fallback, max).len() <= max,
        (field matches Some(text) && trimmed(text).len() > 0) ==> (if field->0.len() <= max {
            bounded_text(field, fallback, max) == field->0
        } else {
            bounded_text(field, fallback, max) == field->0.take(max as int)
        }),
        (field is None || trimmed(field->0).len() == 0) && fallback.len() <= max ==> bounded_text(
            field,
            fallback,
            max,
        ) == fallback,
{
}

/// A process number that fits in 32 bits is taken as it is.
pub proof fn process_number_is_kept(asked: Option<u64>)
    ensures
        (asked matches Some(n) && n <= u32::MAX) ==> process_id(asked) == asked->0,
        asked is None ==> process_id(asked) == 0,
{
}

/// The codes of the errors are those that clients know.
pub proof fn error_codes_are_fixed()
    ensures
        PARSE_ERROR == -32700,
        INVALID_REQUEST == -32600,
        METHOD_NOT_FOUND == -32601,
        INVALID_PARAMS == -32602,
        INTERNAL_ERROR == -32603,
        INSUFFICIENT_PRIVILEGE == -32010,
        RATE_LIMITED == -32020,
        PAYLOAD_TOO_LARGE == -32021,
        ENGINE_RELOADING == -32022,
        UNAUTHORIZED == -32025,
{
}

} // verus!
