//! Change of the critical settings.
//!
//! These are the settings that decide whether malware is seen at all. A change
//! is checked field by field and applied as a whole or not at all; every reason
//! for a refusal is reported.

use super::dispatch::{INVALID_PARAMS, MAX_PATH_LEN};
use super::params::{
    bool_field, bool_members, item_texts, list_field, list_members, member, owned_items,
    text_field, text_members,
};
use super::settings::Rejection;
use crate::scan::job::ActivityEvent;
use crate::text::{
    byte_len, byte_length, chars_of, contains, contains_char, decimal, decimal_text, ends,
    ends_with, join, joined, lowercased, occurs, owned_view, quote, quoted, same, texts,
    to_lowercase, trim, trim_end_matches, trim_start_matches, trimmed, without_leading,
    without_trailing,
};
use vstd::prelude::*;

verus! {

/// Most entries that a list may have.
pub const MAX_LIST_ENTRIES: usize = 64;

/// The critical settings.
pub struct CriticalConfig {
    pub realtime_enabled: bool,
    pub auto_quarantine: bool,
    pub heuristic_alerts: bool,
    pub idle_scan_enabled: bool,
    pub scheduled_scan_enabled: bool,
    pub argus_worker_enabled: bool,
    /// Mirror of `argus_worker_enabled` that the scan pipeline reads.
    pub scan_argus_worker_enabled: bool,
    pub enhanced_signature_provider: String,
    pub argus_worker_path: String,
    /// Mirror of `argus_worker_path` that the scan pipeline reads.
    pub scan_argus_worker_path: String,
    pub excluded_paths: Vec<String>,
    pub excluded_extensions: Vec<String>,
    pub excluded_detections: Vec<String>,
    pub trusted_hashes: Vec<String>,
    pub realtime_roots: Vec<String>,
}

/// Mathematical value of a [`CriticalConfig`].
pub struct Critical {
    pub realtime_enabled: bool,
    pub auto_quarantine: bool,
    pub heuristic_alerts: bool,
    pub idle_scan_enabled: bool,
    pub scheduled_scan_enabled: bool,
    pub argus_worker_enabled: bool,
    pub scan_argus_worker_enabled: bool,
    pub enhanced_signature_provider: Seq<char>,
    pub argus_worker_path: Seq<char>,
    pub scan_argus_worker_path: Seq<char>,
    pub excluded_paths: Seq<Seq<char>>,
    pub excluded_extensions: Seq<Seq<char>>,
    pub excluded_detections: Seq<Seq<char>>,
    pub trusted_hashes: Seq<Seq<char>>,
    pub realtime_roots: Seq<Seq<char>>,
}

impl View for CriticalConfig {
    type V = Critical;

    open spec fn view(&self) -> Critical {
        Critical {
            realtime_enabled: self.realtime_enabled,
            auto_quarantine: self.auto_quarantine,
            heuristic_alerts: self.heuristic_alerts,
            idle_scan_enabled: self.idle_scan_enabled,
            scheduled_scan_enabled: self.scheduled_scan_enabled,
            argus_worker_enabled: self.argus_worker_enabled,
            scan_argus_worker_enabled: self.scan_argus_worker_enabled,
            enhanced_signature_provider: self.enhanced_signature_provider@,
            argus_worker_path: self.argus_worker_path@,
            scan_argus_worker_path: self.scan_argus_worker_path@,
            excluded_paths: texts(self.excluded_paths@),
            excluded_extensions: texts(self.excluded_extensions@),
            excluded_detections: texts(self.excluded_detections@),
            trusted_hashes: texts(self.trusted_hashes@),
            realtime_roots: texts(self.realtime_roots@),
        }
    }
}

/// The settings that a request asks to change.
pub struct CriticalRequest {
    pub realtime_enabled: Option<bool>,
    pub auto_quarantine: Option<bool>,
    pub heuristic_alerts: Option<bool>,
    pub idle_scan_enabled: Option<bool>,
    pub scheduled_scan_enabled: Option<bool>,
    pub argus_worker_enabled: Option<bool>,
    pub enhanced_signature_provider: Option<String>,
    pub argus_worker_path: Option<String>,
    pub excluded_paths: Option<Vec<Option<String>>>,
    pub excluded_extensions: Option<Vec<Option<String>>>,
    pub excluded_detections: Option<Vec<Option<String>>>,
    pub trusted_hashes: Option<Vec<Option<String>>>,
    pub realtime_roots: Option<Vec<Option<String>>>,
}

/// Mathematical value of a [`CriticalRequest`].
pub struct CriticalFields {
    pub realtime_enabled: Option<bool>,
    pub auto_quarantine: Option<bool>,
    pub heuristic_alerts: Option<bool>,
    pub idle_scan_enabled: Option<bool>,
    pub scheduled_scan_enabled: Option<bool>,
    pub argus_worker_enabled: Option<bool>,
    pub enhanced_signature_provider: Option<Seq<char>>,
    pub argus_worker_path: Option<Seq<char>>,
    pub excluded_paths: Option<Seq<Option<Seq<char>>>>,
    pub excluded_extensions: Option<Seq<Option<Seq<char>>>>,
    pub excluded_detections: Option<Seq<Option<Seq<char>>>>,
    pub trusted_hashes: Option<Seq<Option<Seq<char>>>>,
    pub realtime_roots: Option<Seq<Option<Seq<char>>>>,
}

impl View for CriticalRequest {
    type V = CriticalFields;

    open spec fn view(&self) -> CriticalFields {
        CriticalFields {
            realtime_enabled: self.realtime_enabled,
            auto_quarantine: self.auto_quarantine,
            heuristic_alerts: self.heuristic_alerts,
            idle_scan_enabled: self.idle_scan_enabled,
            scheduled_scan_enabled: self.scheduled_scan_enabled,
            argus_worker_enabled: self.argus_worker_enabled,
            enhanced_signature_provider: owned_view(self.enhanced_signature_provider),
            argus_worker_path: owned_view(self.argus_worker_path),
            excluded_paths: owned_items(self.excluded_paths),
            excluded_extensions: owned_items(self.excluded_extensions),
            excluded_detections: owned_items(self.excluded_detections),
            trusted_hashes: owned_items(self.trusted_hashes),
            realtime_roots: owned_items(self.realtime_roots),
        }
    }
}

/// The critical settings that a JSON value asks to change.
pub open spec fn critical_of(v: &serde_json::Value) -> CriticalFields {
    CriticalFields {
        realtime_enabled: member(bool_members(v), "realtime_enabled"@),
        auto_quarantine: member(bool_members(v), "auto_quarantine"@),
        heuristic_alerts: member(bool_members(v), "heuristic_alerts"@),
        idle_scan_enabled: member(bool_members(v), "idle_scan_enabled"@),
        scheduled_scan_enabled: member(bool_members(v), "scheduled_scan_enabled"@),
        argus_worker_enabled: member(bool_members(v), "argus_worker_enabled"@),
        enhanced_signature_provider: member(text_members(v), "enhanced_signature_provider"@),
        argus_worker_path: member(text_members(v), "argus_worker_path"@),
        excluded_paths: member(list_members(v), "excluded_paths"@),
        excluded_extensions: member(list_members(v), "excluded_extensions"@),
        excluded_detections: member(list_members(v), "excluded_detections"@),
        trusted_hashes: member(list_members(v), "trusted_hashes"@),
        realtime_roots: member(list_members(v), "realtime_roots"@),
    }
}

/// Read the critical settings that a request asks to change.
pub fn read_critical(v: &serde_json::Value) -> (request: CriticalRequest)
    ensures
        request@ == critical_of(v),
{
    CriticalRequest {
        realtime_enabled: bool_field(v, "realtime_enabled"),
        auto_quarantine: bool_field(v, "auto_quarantine"),
        heuristic_alerts: bool_field(v, "heuristic_alerts"),
        idle_scan_enabled: bool_field(v, "idle_scan_enabled"),
        scheduled_scan_enabled: bool_field(v, "scheduled_scan_enabled"),
        argus_worker_enabled: bool_field(v, "argus_worker_enabled"),
        enhanced_signature_provider: text_field(v, "enhanced_signature_provider"),
        argus_worker_path: text_field(v, "argus_worker_path"),
        excluded_paths: list_field(v, "excluded_paths"),
        excluded_extensions: list_field(v, "excluded_extensions"),
        excluded_detections: list_field(v, "excluded_detections"),
        trusted_hashes: list_field(v, "trusted_hashes"),
        realtime_roots: list_field(v, "realtime_roots"),
    }
}

/// Paths that must not be excluded or watched as a whole: drive and system
/// roots, and everything that climbs.
pub open spec fn dangerous_path(path: Seq<char>) -> bool {
    let s = without_trailing(lowercased(trimmed(path)), '\\');
    ||| s == ""@
    ||| s == "c:"@
    ||| s == "c:/"@
    ||| s == "/"@
    ||| s == "\\"@
    ||| s == "c:\\windows"@
    ||| s == "c:\\windows\\system32"@
    ||| s == "c:\\program files"@
    ||| s == "c:\\program files (x86)"@
    ||| occurs(".."@, s)
}

pub fn is_dangerous_path(path: &str) -> (yes: bool)
    ensures
        yes == dangerous_path(path@),
{
    let inner = trim(path);
    let lower = to_lowercase(inner.as_str());
    let stripped = trim_end_matches(lower.as_str(), '\\');
    let s = stripped.as_str();
    same(s, "") || same(s, "c:") || same(s, "c:/") || same(s, "/") || same(s, "\\") || same(
        s,
        "c:\\windows",
    ) || same(s, "c:\\windows\\system32") || same(s, "c:\\program files") || same(
        s,
        "c:\\program files (x86)",
    ) || contains(s, "..")
}

/// A lower-case hexadecimal digit.
pub open spec fn lower_hex(c: char) -> bool {
    ('0' <= c && c <= '9') || ('a' <= c && c <= 'f')
}

/// 64 lower-case hexadecimal digits.
pub open spec fn hex64(s: Seq<char>) -> bool {
    s.len() == 64 && forall|i: int| 0 <= i < s.len() ==> lower_hex(#[trigger] s[i])
}

pub fn is_hex64_lower(s: &str) -> (yes: bool)
    ensures
        yes == hex64(s@),
{
    let chars = chars_of(s);
    if chars.len() != 64 {
        return false;
    }
    let mut i: usize = 0;
    while i < chars.len()
        invariant
            chars@ == s@,
            i <= chars@.len(),
            forall|j: int| 0 <= j < i ==> lower_hex(#[trigger] s@[j]),
        decreases chars@.len() - i,
    {
        let c = chars[i];
        if !(('0' <= c && c <= '9') || ('a' <= c && c <= 'f')) {
            assert(!lower_hex(s@[i as int]));
            return false;
        }
        i = i + 1;
    }
    true
}

/// An ASCII letter or digit.
pub open spec fn alphanumeric(c: char) -> bool {
    ('0' <= c && c <= '9') || ('a' <= c && c <= 'z') || ('A' <= c && c <= 'Z')
}

pub open spec fn all_alphanumeric(s: Seq<char>) -> bool {
    forall|i: int| 0 <= i < s.len() ==> alphanumeric(#[trigger] s[i])
}

fn is_alphanumeric(s: &str) -> (yes: bool)
    ensures
        yes == all_alphanumeric(s@),
{
    let chars = chars_of(s);
    let mut i: usize = 0;
    while i < chars.len()
        invariant
            chars@ == s@,
            i <= chars@.len(),
            forall|j: int| 0 <= j < i ==> alphanumeric(#[trigger] s@[j]),
        decreases chars@.len() - i,
    {
        let c = chars[i];
        if !(('0' <= c && c <= '9') || ('a' <= c && c <= 'z') || ('A' <= c && c <= 'Z')) {
            assert(!alphanumeric(s@[i as int]));
            return false;
        }
        i = i + 1;
    }
    true
}

/// What a list of the settings holds.
#[derive(Debug, Clone, Copy, PartialEq, Eq, Structural)]
pub enum ListKind {
    ExcludedPath,
    Extension,
    Detection,
    Hash,
    Root,
}

/// Why an entry of a list is not acceptable.
pub open spec fn entry_error(kind: ListKind, entry: Seq<char>) -> Option<Seq<char>> {
    let t = trimmed(entry);
    match kind {
        ListKind::ExcludedPath => if t.len() == 0 {
            Some("empty entry"@)
        } else if byte_len(t) > MAX_PATH_LEN {
            Some("path too long"@)
        } else if dangerous_path(t) {
            Some(quoted(t) + " would exclude critical system area"@)
        } else {
            None
        },
        ListKind::Root => if t.len() == 0 {
            Some("empty entry"@)
        } else if byte_len(t) > MAX_PATH_LEN {
            Some("path too long"@)
        } else if dangerous_path(t) {
            Some(quoted(t) + " is too broad — would hang the watcher in reparse loops"@)
        } else {
            None
        },
        ListKind::Extension => {
            let e = without_leading(t, '.');
            if e.len() == 0 {
                Some("empty entry"@)
            } else if byte_len(e) > 16 {
                Some("extension too long"@)
            } else if e.contains('*') || e.contains('?') || e.contains('\\') || e.contains('/') {
                Some("globs and path separators rejected"@)
            } else if !all_alphanumeric(e) {
                Some("extension must be ASCII alphanumeric"@)
            } else {
                None
            }
        },
        ListKind::Detection => if t.len() == 0 {
            Some("empty entry rejected (would silence ALL detections)"@)
        } else if byte_len(t) > 256 {
            Some("detection name too long"@)
        } else {
            None
        },
        ListKind::Hash => if !hex64(lowercased(t)) {
            Some("must be 64-char lowercase hex SHA-256"@)
        } else {
            None
        },
    }
}

pub fn check_entry(kind: ListKind, entry: &str) -> (error: Option<String>)
    ensures
        owned_view(error) == entry_error(kind, entry@),
{
    let inner = trim(entry);
    let t = inner.as_str();
    match kind {
        ListKind::ExcludedPath => if t.is_empty() {
            Some("empty entry".to_owned())
        } else if byte_length(t) > MAX_PATH_LEN {
            Some("path too long".to_owned())
        } else if is_dangerous_path(t) {
            let mut why = quote(t);
            why.append(" would exclude critical system area");
            Some(why)
        } else {
            None
        },
        ListKind::Root => if t.is_empty() {
            Some("empty entry".to_owned())
        } else if byte_length(t) > MAX_PATH_LEN {
            Some("path too long".to_owned())
        } else if is_dangerous_path(t) {
            let mut why = quote(t);
            why.append(" is too broad — would hang the watcher in reparse loops");
            Some(why)
        } else {
            None
        },
        ListKind::Extension => {
            let bare = trim_start_matches(t, '.');
            let e = bare.as_str();
            if e.is_empty() {
                Some("empty entry".to_owned())
            } else if byte_length(e) > 16 {
                Some("extension too long".to_owned())
            } else if contains_char(e, '*') || contains_char(e, '?') || contains_char(e, '\\')
                || contains_char(e, '/') {
                Some("globs and path separators rejected".to_owned())
            } else if !is_alphanumeric(e) {
                Some("extension must be ASCII alphanumeric".to_owned())
            } else {
                None
            }
        },
        ListKind::Detection => if t.is_empty() {
            Some("empty entry rejected (would silence ALL detections)".to_owned())
        } else if byte_length(t) > 256 {
            Some("detection name too long".to_owned())
        } else {
            None
        },
        ListKind::Hash => {
            let lower = to_lowercase(t);
            if !is_hex64_lower(lower.as_str()) {
                Some("must be 64-char lowercase hex SHA-256".to_owned())
            } else {
                None
            }
        },
    }
}

/// The form in which an accepted entry is kept.
pub open spec fn normal_form(kind: ListKind, entry: Seq<char>) -> Seq<char> {
    match kind {
        ListKind::Extension => lowercased(without_leading(trimmed(entry), '.')),
        ListKind::Hash => lowercased(trimmed(entry)),
        _ => entry,
    }
}

fn normalize(kind: ListKind, entry: &str) -> (kept: String)
    ensures
        kept@ == normal_form(kind, entry@),
{
    match kind {
        ListKind::Extension => {
            let inner = trim(entry);
            let bare = trim_start_matches(inner.as_str(), '.');
            to_lowercase(bare.as_str())
        },
        ListKind::Hash => {
            let inner = trim(entry);
            to_lowercase(inner.as_str())
        },
        _ => entry.to_owned(),
    }
}

/// Why the item at a place of a list is not acceptable.
pub open spec fn item_error(kind: ListKind, item: Option<Seq<char>>) -> Option<Seq<char>> {
    match item {
        Some(entry) => entry_error(kind, entry),
        None => Some("not a string"@),
    }
}

/// The reasons against the items of a list, each with the item's place.
pub open spec fn item_errors(key: Seq<char>, kind: ListKind, items: Seq<Option<Seq<char>>>) -> Seq<
    Seq<char>,
>
    decreases items.len(),
{
    if items.len() == 0 {
        Seq::empty()
    } else {
        let before = item_errors(key, kind, items.drop_last());
        match item_error(kind, items.last()) {
            Some(why) => before.push(
                key + "["@ + decimal((items.len() - 1) as nat) + "]: "@ + why,
            ),
            None => before,
        }
    }
}

/// The acceptable items of a list, as they are kept.
pub open spec fn kept_items(kind: ListKind, items: Seq<Option<Seq<char>>>) -> Seq<Seq<char>>
    decreases items.len(),
{
    if items.len() == 0 {
        Seq::empty()
    } else {
        let before = kept_items(kind, items.drop_last());
        if item_error(kind, items.last()) is None {
            before.push(normal_form(kind, items.last()->0))
        } else {
            before
        }
    }
}

/// The reasons against a list.
pub open spec fn list_errors(
    key: Seq<char>,
    kind: ListKind,
    list: Option<Seq<Option<Seq<char>>>>,
) -> Seq<Seq<char>> {
    match list {
        Some(items) => if items.len() > MAX_LIST_ENTRIES {
            seq![
                key + ": too many entries ("@ + decimal(items.len()) + " > "@ + decimal(
                    MAX_LIST_ENTRIES as nat,
                ) + ")"@,
            ]
        } else {
            item_errors(key, kind, items)
        },
        None => Seq::empty(),
    }
}

/// The list after the request: what it asks for where it is not too long.
pub open spec fn new_list(
    kind: ListKind,
    list: Option<Seq<Option<Seq<char>>>>,
    current: Seq<Seq<char>>,
) -> Seq<Seq<char>> {
    match list {
        Some(items) => if items.len() > MAX_LIST_ENTRIES {
            current
        } else {
            kept_items(kind, items)
        },
        None => current,
    }
}

/// The note on a changed list: its name and its new length.
pub open spec fn list_change(
    key: Seq<char>,
    kind: ListKind,
    list: Option<Seq<Option<Seq<char>>>>,
) -> Seq<Seq<char>> {
    match list {
        Some(items) => if items.len() > MAX_LIST_ENTRIES {
            Seq::empty()
        } else {
            seq![key + "=["@ + decimal(kept_items(kind, items).len()) + "]"@]
        },
        None => Seq::empty(),
    }
}

proof fn lemma_texts_push(list: Seq<String>, item: String)
    ensures
        texts(list.push(item)) == texts(list).push(item@),
{
    assert(texts(list.push(item)) =~= texts(list).push(item@));
}

/// Check a list, note what changes and what is wrong, and return the new list.
pub fn change_list(
    key: &str,
    kind: ListKind,
    list: &Option<Vec<Option<String>>>,
    current: Vec<String>,
    changes: &mut Vec<String>,
    errors: &mut Vec<String>,
) -> (kept: Vec<String>)
    ensures
        texts(kept@) == new_list(kind, owned_items(*list), texts(current@)),
        texts(final(changes)@) == texts(old(changes)@) + list_change(key@, kind, owned_items(*list)),
        texts(final(errors)@) == texts(old(errors)@) + list_errors(key@, kind, owned_items(*list)),
{
    let items: &Vec<Option<String>> = match list {
        Some(items) => items,
        None => {
            assert(texts(changes@) =~= texts(changes@) + Seq::<Seq<char>>::empty());
            assert(texts(errors@) =~= texts(errors@) + Seq::<Seq<char>>::empty());
            return current;
        },
    };
    let ghost all = item_texts(items@);
    assert(owned_items(*list) == Some(all));
    if items.len() > MAX_LIST_ENTRIES {
        let mut why = key.to_owned();
        why.append(": too many entries (");
        why.append(decimal_text(items.len() as u64).as_str());
        why.append(" > ");
        why.append(decimal_text(MAX_LIST_ENTRIES as u64).as_str());
        why.append(")");
        proof {
            lemma_texts_push(errors@, why);
            assert(texts(errors@).push(why@) =~= texts(errors@) + list_errors(
                key@,
                kind,
                Some(all),
            ));
            assert(texts(changes@) =~= texts(changes@) + Seq::<Seq<char>>::empty());
        }
        errors.push(why);
        return current;
    }
    let ghost errors_before = texts(errors@);
    let mut kept: Vec<String> = Vec::new();
    let mut i: usize = 0;
    assert(all.take(0) =~= Seq::<Option<Seq<char>>>::empty());
    assert(texts(kept@) =~= kept_items(kind, all.take(0)));
    assert(texts(errors@) =~= errors_before + item_errors(key@, kind, all.take(0)));
    while i < items.len()
        invariant
            all == item_texts(items@),
            i <= items@.len(),
            texts(kept@) == kept_items(kind, all.take(i as int)),
            texts(errors@) == errors_before + item_errors(key@, kind, all.take(i as int)),
        decreases items@.len() - i,
    {
        let ghost now = all.take(i + 1);
        proof {
            assert(now.drop_last() =~= all.take(i as int));
            assert(now.last() == owned_view(items@[i as int]));
        }
        let error: Option<String> = match &items[i] {
            Some(entry) => check_entry(kind, entry.as_str()),
            None => Some("not a string".to_owned()),
        };
        match error {
            Some(reason) => {
                let mut why = key.to_owned();
                why.append("[");
                why.append(decimal_text(i as u64).as_str());
                why.append("]: ");
                why.append(reason.as_str());
                proof {
                    lemma_texts_push(errors@, why);
                    assert((errors_before + item_errors(key@, kind, all.take(i as int))).push(why@)
                        =~= errors_before + item_errors(key@, kind, now));
                }
                errors.push(why);
            },
            None => match &items[i] {
                Some(entry) => {
                    let form = normalize(kind, entry.as_str());
                    proof {
                        lemma_texts_push(kept@, form);
                    }
                    kept.push(form);
                },
                None => {},
            },
        }
        i = i + 1;
    }
    assert(all.take(all.len() as int) =~= all);
    let mut note = key.to_owned();
    note.append("=[");
    note.append(decimal_text(kept.len() as u64).as_str());
    note.append("]");
    proof {
        lemma_texts_push(changes@, note);
        assert(texts(kept@).len() == kept@.len());
        assert(texts(changes@).push(note@) =~= texts(changes@) + list_change(
            key@,
            kind,
            Some(all),
        ));
    }
    changes.push(note);
    kept
}

/// A truth value as it is printed.
pub open spec fn bool_text(v: bool) -> Seq<char> {
    if v {
        "true"@
    } else {
        "false"@
    }
}

/// The note on a changed switch.
pub open spec fn switch_change(key: Seq<char>, asked: Option<bool>) -> Seq<Seq<char>> {
    match asked {
        Some(v) => seq![key + "="@ + bool_text(v)],
        None => Seq::empty(),
    }
}

/// The switch after the request.
pub open spec fn new_switch(asked: Option<bool>, current: bool) -> bool {
    match asked {
        Some(v) => v,
        None => current,
    }
}

fn change_switch(key: &str, asked: Option<bool>, current: bool, changes: &mut Vec<String>) -> (value:
    bool)
    ensures
        value == new_switch(asked, current),
        texts(final(changes)@) == texts(old(changes)@) + switch_change(key@, asked),
{
    match asked {
        Some(v) => {
            let mut note = key.to_owned();
            note.append("=");
            note.append(
                if v {
                    "true"
                } else {
                    "false"
                },
            );
            proof {
                lemma_texts_push(changes@, note);
                assert(texts(changes@).push(note@) =~= texts(changes@) + switch_change(
                    key@,
                    asked,
                ));
            }
            changes.push(note);
            v
        },
        None => {
            assert(texts(changes@) =~= texts(changes@) + Seq::<Seq<char>>::empty());
            current
        },
    }
}

/// Providers of enhanced signatures that can be chosen.
pub open spec fn known_provider(provider: Seq<char>) -> bool {
    provider == "none"@ || provider == "enhanced"@ || provider == "community"@
}

pub open spec fn provider_errors(asked: Option<Seq<char>>) -> Seq<Seq<char>> {
    match asked {
        Some(v) => if known_provider(v) {
            Seq::empty()
        } else {
            seq![
                "enhanced_signature_provider="@ + quoted(v)
                    + " not in allowlist (none|enhanced|community)"@,
            ]
        },
        None => Seq::empty(),
    }
}

pub open spec fn provider_change(asked: Option<Seq<char>>) -> Seq<Seq<char>> {
    match asked {
        Some(v) => if known_provider(v) {
            seq!["enhanced_signature_provider="@ + v]
        } else {
            Seq::empty()
        },
        None => Seq::empty(),
    }
}

pub open spec fn new_provider(asked: Option<Seq<char>>, current: Seq<char>) -> Seq<char> {
    match asked {
        Some(v) => if known_provider(v) {
            v
        } else {
            current
        },
        None => current,
    }
}

fn change_provider(
    asked: &Option<String>,
    current: String,
    changes: &mut Vec<String>,
    errors: &mut Vec<String>,
) -> (provider: String)
    ensures
        provider@ == new_provider(owned_view(*asked), current@),
        texts(final(changes)@) == texts(old(changes)@) + provider_change(owned_view(*asked)),
        texts(final(errors)@) == texts(old(errors)@) + provider_errors(owned_view(*asked)),
{
    assert(texts(changes@) =~= texts(changes@) + Seq::<Seq<char>>::empty());
    assert(texts(errors@) =~= texts(errors@) + Seq::<Seq<char>>::empty());
    match asked {
        Some(v) => if same(v.as_str(), "none") || same(v.as_str(), "enhanced") || same(
            v.as_str(),
            "community",
        ) {
            let mut note = "enhanced_signature_provider=".to_owned();
            note.append(v.as_str());
            proof {
                lemma_texts_push(changes@, note);
                assert(texts(changes@).push(note@) =~= texts(changes@) + provider_change(
                    owned_view(*asked),
                ));
            }
            changes.push(note);
            v.clone()
        } else {
            let mut why = "enhanced_signature_provider=".to_owned();
            why.append(quote(v.as_str()).as_str());
            why.append(" not in allowlist (none|enhanced|community)");
            proof {
                lemma_texts_push(errors@, why);
                assert(texts(errors@).push(why@) =~= texts(errors@) + provider_errors(
                    owned_view(*asked),
                ));
            }
            errors.push(why);
            current
        },
        None => current,
    }
}

/// Why a worker path is not acceptable. `t` has no white space around it.
pub open spec fn worker_path_error(t: Seq<char>) -> Option<Seq<char>> {
    if t.len() == 0 || byte_len(t) > MAX_PATH_LEN {
        Some("argus_worker_path: empty or too long"@)
    } else if dangerous_path(t) || occurs(".."@, t) {
        Some("argus_worker_path="@ + quoted(t) + " rejected (dangerous or traversal)"@)
    } else if !ends(lowercased(t), ".exe"@) {
        Some("argus_worker_path="@ + quoted(t) + " must end with .exe"@)
    } else {
        None
    }
}

pub fn check_worker_path(t: &str) -> (error: Option<String>)
    ensures
        owned_view(error) == worker_path_error(t@),
{
    if t.is_empty() || byte_length(t) > MAX_PATH_LEN {
        return Some("argus_worker_path: empty or too long".to_owned());
    }
    if is_dangerous_path(t) || contains(t, "..") {
        let mut why = "argus_worker_path=".to_owned();
        why.append(quote(t).as_str());
        why.append(" rejected (dangerous or traversal)");
        return Some(why);
    }
    let lower = to_lowercase(t);
    if !ends_with(lower.as_str(), ".exe") {
        let mut why = "argus_worker_path=".to_owned();
        why.append(quote(t).as_str());
        why.append(" must end with .exe");
        return Some(why);
    }
    None
}

pub open spec fn worker_path_errors(asked: Option<Seq<char>>) -> Seq<Seq<char>> {
    match asked {
        Some(v) => match worker_path_error(trimmed(v)) {
            Some(why) => seq![why],
            None => Seq::empty(),
        },
        None => Seq::empty(),
    }
}

pub open spec fn worker_path_change(asked: Option<Seq<char>>) -> Seq<Seq<char>> {
    match asked {
        Some(v) => if worker_path_error(trimmed(v)) is None {
            seq!["argus_worker_path="@ + trimmed(v)]
        } else {
            Seq::empty()
        },
        None => Seq::empty(),
    }
}

pub open spec fn new_worker_path(asked: Option<Seq<char>>, current: Seq<char>) -> Seq<char> {
    match asked {
        Some(v) => if worker_path_error(trimmed(v)) is None {
            trimmed(v)
        } else {
            current
        },
        None => current,
    }
}

fn change_worker_path(
    asked: &Option<String>,
    current: String,
    mirror: String,
    changes: &mut Vec<String>,
    errors: &mut Vec<String>,
) -> (paths: (String, String))
    ensures
        paths.0@ == new_worker_path(owned_view(*asked), current@),
        paths.1@ == new_worker_path(owned_view(*asked), mirror@),
        texts(final(changes)@) == texts(old(changes)@) + worker_path_change(owned_view(*asked)),
        texts(final(errors)@) == texts(old(errors)@) + worker_path_errors(owned_view(*asked)),
{
    assert(texts(changes@) =~= texts(changes@) + Seq::<Seq<char>>::empty());
    assert(texts(errors@) =~= texts(errors@) + Seq::<Seq<char>>::empty());
    match asked {
        Some(v) => {
            let t = trim(v.as_str());
            match check_worker_path(t.as_str()) {
                Some(why) => {
                    proof {
                        lemma_texts_push(errors@, why);
                        assert(texts(errors@).push(why@) =~= texts(errors@) + worker_path_errors(
                            owned_view(*asked),
                        ));
                    }
                    errors.push(why);
                    (current, mirror)
                },
                None => {
                    let mut note = "argus_worker_path=".to_owned();
                    note.append(t.as_str());
                    proof {
                        lemma_texts_push(changes@, note);
                        assert(texts(changes@).push(note@) =~= texts(changes@)
                            + worker_path_change(owned_view(*asked)));
                    }
                    changes.push(note);
                    let copy = t.clone();
                    (t, copy)
                },
            }
        },
        None => (current, mirror),
    }
}

/// What a request does to the running protection.
#[derive(Debug, Clone, Copy, PartialEq, Eq, Structural)]
pub enum Toggle {
    Keep,
    Disable,
    Enable,
}

/// A user's own pause is not lifted by the setting.
pub open spec fn toggle_of(asked: Option<bool>, user_disabled: bool) -> Toggle {
    match asked {
        Some(true) => if user_disabled {
            Toggle::Keep
        } else {
            Toggle::Enable
        },
        Some(false) => Toggle::Disable,
        None => Toggle::Keep,
    }
}

/// The settings after the request, were it accepted.
pub open spec fn changed(c: Critical, r: CriticalFields) -> Critical {
    Critical {
        realtime_enabled: new_switch(r.realtime_enabled, c.realtime_enabled),
        auto_quarantine: new_switch(r.auto_quarantine, c.auto_quarantine),
        heuristic_alerts: new_switch(r.heuristic_alerts, c.heuristic_alerts),
        idle_scan_enabled: new_switch(r.idle_scan_enabled, c.idle_scan_enabled),
        scheduled_scan_enabled: new_switch(r.scheduled_scan_enabled, c.scheduled_scan_enabled),
        argus_worker_enabled: new_switch(r.argus_worker_enabled, c.argus_worker_enabled),
        scan_argus_worker_enabled: new_switch(
            r.argus_worker_enabled,
            c.scan_argus_worker_enabled,
        ),
        enhanced_signature_provider: new_provider(
            r.enhanced_signature_provider,
            c.enhanced_signature_provider,
        ),
        argus_worker_path: new_worker_path(r.argus_worker_path, c.argus_worker_path),
        scan_argus_worker_path: new_worker_path(r.argus_worker_path, c.scan_argus_worker_path),
        excluded_paths: new_list(ListKind::ExcludedPath, r.excluded_paths, c.excluded_paths),
        excluded_extensions: new_list(ListKind::Extension, r.excluded_extensions, c.excluded_extensions),
        excluded_detections: new_list(ListKind::Detection, r.excluded_detections, c.excluded_detections),
        trusted_hashes: new_list(ListKind::Hash, r.trusted_hashes, c.trusted_hashes),
        realtime_roots: new_list(ListKind::Root, r.realtime_roots, c.realtime_roots),
    }
}

/// The notes on everything that the request changes.
pub open spec fn all_changes(r: CriticalFields) -> Seq<Seq<char>> {
    switch_change("realtime_enabled"@, r.realtime_enabled)
        + switch_change("auto_quarantine"@, r.auto_quarantine)
        + switch_change("heuristic_alerts"@, r.heuristic_alerts)
        + switch_change("idle_scan_enabled"@, r.idle_scan_enabled)
        + switch_change("scheduled_scan_enabled"@, r.scheduled_scan_enabled)
        + switch_change("argus_worker_enabled"@, r.argus_worker_enabled)
        + provider_change(r.enhanced_signature_provider)
        + worker_path_change(r.argus_worker_path)
        + list_change("excluded_paths"@, ListKind::ExcludedPath, r.excluded_paths)
        + list_change("excluded_extensions"@, ListKind::Extension, r.excluded_extensions)
        + list_change("excluded_detections"@, ListKind::Detection, r.excluded_detections)
        + list_change("trusted_hashes"@, ListKind::Hash, r.trusted_hashes)
        + list_change("realtime_roots"@, ListKind::Root, r.realtime_roots)
}

/// Everything that is wrong with the request.
pub open spec fn all_errors(r: CriticalFields) -> Seq<Seq<char>> {
    provider_errors(r.enhanced_signature_provider)
        + worker_path_errors(r.argus_worker_path)
        + list_errors("excluded_paths"@, ListKind::ExcludedPath, r.excluded_paths)
        + list_errors("excluded_extensions"@, ListKind::Extension, r.excluded_extensions)
        + list_errors("excluded_detections"@, ListKind::Detection, r.excluded_detections)
        + list_errors("trusted_hashes"@, ListKind::Hash, r.trusted_hashes)
        + list_errors("realtime_roots"@, ListKind::Root, r.realtime_roots)
}

/// What became of a request to change critical settings.
pub enum CriticalOutcome {
    /// Nothing is changed. The texts are the entry of the activity log and the
    /// message of the response.
    Rejected { title: String, message: String },
    /// The settings to save, the notes on what changed, and the title of the
    /// activity entry once they are saved.
    Accepted { config: CriticalConfig, changes: Vec<String>, title: String },
}

/// What a request does to the running protection: nothing where it is rejected.
pub open spec fn critical_toggle(r: CriticalFields, user_disabled: bool) -> Toggle {
    if all_errors(r).len() > 0 {
        Toggle::Keep
    } else {
        toggle_of(r.realtime_enabled, user_disabled)
    }
}

/// What becomes of a request: it is rejected where anything is wrong with it, with
/// all reasons, and else accepted as a whole.
pub open spec fn critical_result(c: Critical, r: CriticalFields, outcome: CriticalOutcome) -> bool {
    match outcome {
        CriticalOutcome::Rejected { title, message } => {
            &&& all_errors(r).len() > 0
            &&& title@ == "protection.set_critical rejected: "@ + joined(all_errors(r), "; "@)
            &&& message@ == "validation failed: "@ + joined(all_errors(r), "; "@)
        },
        CriticalOutcome::Accepted { config, changes, title } => {
            &&& all_errors(r).len() == 0
            &&& config@ == changed(c, r)
            &&& texts(changes@) == all_changes(r)
            &&& title@ == "Critical settings changed: "@ + joined(all_changes(r), ", "@)
        },
    }
}

/// The entry of the activity log on a change of critical settings.
pub open spec fn critical_event(title: Seq<char>, message: Seq<char>) -> ActivityEvent<Seq<char>> {
    ActivityEvent {
        severity: "warning"@,
        category: "protection"@,
        title,
        message,
        scan_id: None::<Seq<char>>,
    }
}

impl CriticalOutcome {
    /// The error answer to a request that is rejected, with its entry in the
    /// activity log.
    pub fn rejection(&self) -> (rejection: Option<Rejection>)
        ensures
            match *self {
                CriticalOutcome::Rejected { title, message } => rejection matches Some(r)
                    && r.code == INVALID_PARAMS && r.message@ == message@ && r.event@
                    == critical_event(title@, ""@),
                CriticalOutcome::Accepted { .. } => rejection is None,
            },
    {
        match self {
            CriticalOutcome::Rejected { title, message } => Some(
                Rejection {
                    code: INVALID_PARAMS,
                    message: message.clone(),
                    event: ActivityEvent::general("warning", "protection", title.clone(), ""),
                },
            ),
            CriticalOutcome::Accepted { .. } => None,
        }
    }

    /// The entry of the activity log once the settings of a request that is
    /// accepted are saved.
    pub fn saved_event(&self) -> (event: Option<ActivityEvent>)
        ensures
            match *self {
                CriticalOutcome::Rejected { .. } => event is None,
                CriticalOutcome::Accepted { title, .. } => event matches Some(e) && e@
                    == critical_event(title@, "Requires administrator elevation"@),
            },
    {
        match self {
            CriticalOutcome::Rejected { .. } => None,
            CriticalOutcome::Accepted { title, .. } => Some(
                ActivityEvent::general(
                    "warning",
                    "protection",
                    title.clone(),
                    "Requires administrator elevation",
                ),
            ),
        }
    }
}

/// Judge a request to change critical settings. `user_disabled` tells that the
/// user paused the protection. A request that is rejected leaves the running
/// protection alone too.
pub fn set_critical(config: CriticalConfig, request: &CriticalRequest, user_disabled: bool) -> (result:
    (CriticalOutcome, Toggle))
    ensures
        result.1 == critical_toggle(request@, user_disabled),
        critical_result(config@, request@, result.0),
{
    let mut changes: Vec<String> = Vec::new();
    let mut errors: Vec<String> = Vec::new();
    assert(texts(changes@) =~= Seq::<Seq<char>>::empty());
    assert(texts(errors@) =~= Seq::<Seq<char>>::empty());
    let realtime_enabled = change_switch("realtime_enabled", request.realtime_enabled, config.realtime_enabled, &mut changes);
    let auto_quarantine = change_switch("auto_quarantine", request.auto_quarantine, config.auto_quarantine, &mut changes);
    let heuristic_alerts = change_switch("heuristic_alerts", request.heuristic_alerts, config.heuristic_alerts, &mut changes);
    let idle_scan_enabled = change_switch("idle_scan_enabled", request.idle_scan_enabled, config.idle_scan_enabled, &mut changes);
    let scheduled_scan_enabled = change_switch("scheduled_scan_enabled", request.scheduled_scan_enabled, config.scheduled_scan_enabled, &mut changes);
    let argus_worker_enabled = change_switch("argus_worker_enabled", request.argus_worker_enabled, config.argus_worker_enabled, &mut changes);
    let scan_argus_worker_enabled = match request.argus_worker_enabled {
        Some(v) => v,
        None => config.scan_argus_worker_enabled,
    };
    let enhanced_signature_provider = change_provider(
        &request.enhanced_signature_provider,
        config.enhanced_signature_provider,
        &mut changes,
        &mut errors,
    );
    let (argus_worker_path, scan_argus_worker_path) = change_worker_path(
        &request.argus_worker_path,
        config.argus_worker_path,
        config.scan_argus_worker_path,
        &mut changes,
        &mut errors,
    );
    let excluded_paths = change_list(
        "excluded_paths",
        ListKind::ExcludedPath,
        &request.excluded_paths,
        config.excluded_paths,
        &mut changes,
        &mut errors,
    );
    let excluded_extensions = change_list(
        "excluded_extensions",
        ListKind::Extension,
        &request.excluded_extensions,
        config.excluded_extensions,
        &mut changes,
        &mut errors,
    );
    let excluded_detections = change_list(
        "excluded_detections",
        ListKind::Detection,
        &request.excluded_detections,
        config.excluded_detections,
        &mut changes,
        &mut errors,
    );
    let trusted_hashes = change_list(
        "trusted_hashes",
        ListKind::Hash,
        &request.trusted_hashes,
        config.trusted_hashes,
        &mut changes,
        &mut errors,
    );
    let realtime_roots = change_list(
        "realtime_roots",
        ListKind::Root,
        &request.realtime_roots,
        config.realtime_roots,
        &mut changes,
        &mut errors,
    );
    proof {
        assert(texts(changes@) =~= all_changes(request@));
        assert(texts(errors@) =~= all_errors(request@));
        assert(texts(errors@).len() == errors@.len());
    }
    if errors.len() > 0 {
        let reasons = join(&errors, "; ");
        let mut title = "protection.set_critical rejected: ".to_owned();
        title.append(reasons.as_str());
        let mut message = "validation failed: ".to_owned();
        message.append(reasons.as_str());
        return (CriticalOutcome::Rejected { title, message }, Toggle::Keep);
    }
    let toggle = match request.realtime_enabled {
        Some(true) => if user_disabled {
            Toggle::Keep
        } else {
            Toggle::Enable
        },
        Some(false) => Toggle::Disable,
        None => Toggle::Keep,
    };
    let mut title = "Critical settings changed: ".to_owned();
    title.append(join(&changes, ", ").as_str());
    let after = CriticalConfig {
        realtime_enabled,
        auto_quarantine,
        heuristic_alerts,
        idle_scan_enabled,
        scheduled_scan_enabled,
        argus_worker_enabled,
        scan_argus_worker_enabled,
        enhanced_signature_provider,
        argus_worker_path,
        scan_argus_worker_path,
        excluded_paths,
        excluded_extensions,
        excluded_detections,
        trusted_hashes,
        realtime_roots,
    };
    (CriticalOutcome::Accepted { config: after, changes, title }, toggle)
}

/// Whether an item of a list is acceptable and `kept` is its normal form.
pub open spec fn kept_as(kind: ListKind, item: Option<Seq<char>>, kept: Seq<char>) -> bool {
    item matches Some(entry) && entry_error(kind, entry) is None && kept == normal_form(kind, entry)
}

/// A list that nothing is wrong with is taken over whole, in its order, each
/// entry in its normal form.
pub proof fn accepted_list_is_whole(
    key: Seq<char>,
    kind: ListKind,
    items: Seq<Option<Seq<char>>>,
    current: Seq<Seq<char>>,
)
    requires
        list_errors(key, kind, Some(items)).len() == 0,
    ensures
        items.len() <= MAX_LIST_ENTRIES,
        new_list(kind, Some(items), current).len() == items.len(),
        forall|i: int|
            0 <= i < items.len() ==> kept_as(
                kind,
                items[i],
                #[trigger] new_list(kind, Some(items), current)[i],
            ),
{
    lemma_kept(key, kind, items);
}

proof fn lemma_kept(key: Seq<char>, kind: ListKind, items: Seq<Option<Seq<char>>>)
    requires
        item_errors(key, kind, items).len() == 0,
    ensures
        kept_items(kind, items).len() == items.len(),
        forall|i: int|
            0 <= i < items.len() ==> kept_as(kind, items[i], #[trigger] kept_items(kind, items)[i]),
    decreases items.len(),
{
    if items.len() > 0 {
        let init = items.drop_last();
        lemma_kept(key, kind, init);
        assert forall|i: int| 0 <= i < items.len() implies kept_as(
            kind,
            items[i],
            #[trigger] kept_items(kind, items)[i],
        ) by {
            if i < init.len() {
                assert(items[i] == init[i]);
                assert(kept_items(kind, items)[i] == kept_items(kind, init)[i]);
            }
        }
    }
}

/// No accepted change silences every detection: each excluded name has a
/// character in it.
pub proof fn no_blank_detection_is_excluded(c: Critical, r: CriticalFields, i: int)
    requires
        all_errors(r).len() == 0,
        r.excluded_detections is Some,
        0 <= i < changed(c, r).excluded_detections.len(),
    ensures
        trimmed(changed(c, r).excluded_detections[i]).len() > 0,
{
    accepted_list_is_whole(
        "excluded_detections"@,
        ListKind::Detection,
        r.excluded_detections->0,
        c.excluded_detections,
    );
}

/// No accepted change excludes a system root, or watches one.
pub proof fn no_system_root_is_listed(c: Critical, r: CriticalFields, i: int)
    requires
        all_errors(r).len() == 0,
    ensures
        r.excluded_paths is Some && 0 <= i < changed(c, r).excluded_paths.len()
            ==> !dangerous_path(trimmed(changed(c, r).excluded_paths[i])),
        r.realtime_roots is Some && 0 <= i < changed(c, r).realtime_roots.len()
            ==> !dangerous_path(trimmed(changed(c, r).realtime_roots[i])),
{
    if r.excluded_paths is Some {
        accepted_list_is_whole(
            "excluded_paths"@,
            ListKind::ExcludedPath,
            r.excluded_paths->0,
            c.excluded_paths,
        );
    }
    if r.realtime_roots is Some {
        accepted_list_is_whole(
            "realtime_roots"@,
            ListKind::Root,
            r.realtime_roots->0,
            c.realtime_roots,
        );
    }
}

/// Every hash that an accepted change trusts is a SHA-256 in lower case.
pub proof fn trusted_hashes_are_hashes(c: Critical, r: CriticalFields, i: int)
    requires
        all_errors(r).len() == 0,
        r.trusted_hashes is Some,
        0 <= i < changed(c, r).trusted_hashes.len(),
    ensures
        hex64(changed(c, r).trusted_hashes[i]),
{
    accepted_list_is_whole(
        "trusted_hashes"@,
        ListKind::Hash,
        r.trusted_hashes->0,
        c.trusted_hashes,
    );
}

/// What a request does not mention stays as it was.
pub proof fn unmentioned_settings_stay(c: Critical, r: CriticalFields)
    ensures
        r.realtime_enabled is None ==> changed(c, r).realtime_enabled == c.realtime_enabled,
        r.auto_quarantine is None ==> changed(c, r).auto_quarantine == c.auto_quarantine,
        r.heuristic_alerts is None ==> changed(c, r).heuristic_alerts == c.heuristic_alerts,
        r.idle_scan_enabled is None ==> changed(c, r).idle_scan_enabled == c.idle_scan_enabled,
        r.scheduled_scan_enabled is None ==> changed(c, r).scheduled_scan_enabled
            == c.scheduled_scan_enabled,
        r.argus_worker_enabled is None ==> changed(c, r).argus_worker_enabled
            == c.argus_worker_enabled && changed(c, r).scan_argus_worker_enabled
            == c.scan_argus_worker_enabled,
        r.enhanced_signature_provider is None ==> changed(c, r).enhanced_signature_provider
            == c.enhanced_signature_provider,
        r.argus_worker_path is None ==> changed(c, r).argus_worker_path == c.argus_worker_path
            && changed(c, r).scan_argus_worker_path == c.scan_argus_worker_path,
        r.excluded_paths is None ==> changed(c, r).excluded_paths == c.excluded_paths,
        r.excluded_extensions is None ==> changed(c, r).excluded_extensions
            == c.excluded_extensions,
        r.excluded_detections is None ==> changed(c, r).excluded_detections
            == c.excluded_detections,
        r.trusted_hashes is None ==> changed(c, r).trusted_hashes == c.trusted_hashes,
        r.realtime_roots is None ==> changed(c, r).realtime_roots == c.realtime_roots,
{
}

/// What a request asks for is what is set: each switch to the value it names, the
/// pipeline's own copies with it, and a provider or worker that is acceptable.
pub proof fn asked_settings_are_taken(c: Critical, r: CriticalFields)
    ensures
        ({
            let after = changed(c, r);
            &&& r.realtime_enabled matches Some(v) ==> after.realtime_enabled == v
            &&& r.auto_quarantine matches Some(v) ==> after.auto_quarantine == v
            &&& r.heuristic_alerts matches Some(v) ==> after.heuristic_alerts == v
            &&& r.idle_scan_enabled matches Some(v) ==> after.idle_scan_enabled == v
            &&& r.scheduled_scan_enabled matches Some(v) ==> after.scheduled_scan_enabled == v
            &&& r.argus_worker_enabled matches Some(v) ==> after.argus_worker_enabled == v
            &&& r.argus_worker_enabled matches Some(v) ==> after.scan_argus_worker_enabled == v
            &&& r.enhanced_signature_provider == Some("none"@) ==> after.enhanced_signature_provider
                == "none"@
            &&& r.enhanced_signature_provider == Some("enhanced"@)
                ==> after.enhanced_signature_provider == "enhanced"@
            &&& r.enhanced_signature_provider == Some("community"@)
                ==> after.enhanced_signature_provider == "community"@
            &&& (r.argus_worker_path matches Some(path) && worker_path_error(trimmed(path)) is None)
                ==> after.argus_worker_path == trimmed(r.argus_worker_path->0)
                && after.scan_argus_worker_path == trimmed(r.argus_worker_path->0)
        }),
{
}

/// A worker is a program with its path: it is not empty, not too long, does not climb
/// and is no system root.
pub proof fn worker_is_a_program(t: Seq<char>)
    ensures
        worker_path_error(t) is None <==> t.len() > 0 && byte_len(t) <= 4096 && !dangerous_path(t)
            && !occurs(".."@, t) && ends(lowercased(t), ".exe"@),
        t.len() == 0 || byte_len(t) > 4096 ==> worker_path_error(t) == Some(
            "argus_worker_path: empty or too long"@,
        ),
        t.len() > 0 && byte_len(t) <= 4096 && (dangerous_path(t) || occurs(".."@, t))
            ==> worker_path_error(t) == Some(
            "argus_worker_path="@ + quoted(t) + " rejected (dangerous or traversal)"@,
        ),
        t.len() > 0 && byte_len(t) <= 4096 && !dangerous_path(t) && !occurs(".."@, t) && !ends(
            lowercased(t),
            ".exe"@,
        ) ==> worker_path_error(t) == Some(
            "argus_worker_path="@ + quoted(t) + " must end with .exe"@,
        ),
{
}

/// The roots of the system are dangerous in any case and with any number of
/// backslashes behind them, and so is every path that climbs; no other path is.
pub proof fn system_roots_are_dangerous(path: Seq<char>, s: Seq<char>)
    requires
        s == without_trailing(lowercased(trimmed(path)), '\\'),
    ensures
        s.len() == 0 ==> dangerous_path(path),
        s == "c:"@ || s == "c:/"@ || s == "/"@ || s == "\\"@ ==> dangerous_path(path),
        s == "c:\\windows"@ || s == "c:\\windows\\system32"@ ==> dangerous_path(path),
        s == "c:\\program files"@ || s == "c:\\program files (x86)"@ ==> dangerous_path(path),
        occurs(".."@, s) ==> dangerous_path(path),
        s.len() > 0 && s != "c:"@ && s != "c:/"@ && s != "/"@ && s != "\\"@ && s
            != "c:\\windows"@ && s != "c:\\windows\\system32"@ && s != "c:\\program files"@ && s
            != "c:\\program files (x86)"@ && !occurs(".."@, s) ==> !dangerous_path(path),
{
    reveal_strlit("");
    if s.len() == 0 {
        assert(s =~= ""@);
    }
}

/// A path may be excluded, or watched, where it is there, not too long and not
/// dangerous; the white space around it does not count.
pub proof fn paths_are_checked(entry: Seq<char>)
    ensures
        ({
            let t = trimmed(entry);
            let excluded = entry_error(ListKind::ExcludedPath, entry);
            let root = entry_error(ListKind::Root, entry);
            &&& excluded is None <==> t.len() > 0 && byte_len(t) <= 4096 && !dangerous_path(t)
            &&& root is None <==> excluded is None
            &&& t.len() == 0 ==> excluded == Some("empty entry"@) && root == excluded
            &&& t.len() > 0 && byte_len(t) > 4096 ==> excluded == Some("path too long"@) && root
                == excluded
            &&& t.len() > 0 && byte_len(t) <= 4096 && dangerous_path(t) ==> excluded == Some(
                quoted(t) + " would exclude critical system area"@,
            ) && root == Some(
                quoted(t) + " is too broad — would hang the watcher in reparse loops"@,
            )
        }),
{
}

/// An extension is up to sixteen ASCII letters and digits, with or without dots in
/// front; it is kept without them and in lower case.
pub proof fn extensions_are_letters_and_digits(entry: Seq<char>)
    ensures
        ({
            let e = without_leading(trimmed(entry), '.');
            let error = entry_error(ListKind::Extension, entry);
            &&& error is None ==> 0 < e.len() && byte_len(e) <= 16 && forall|i: int|
                0 <= i < e.len() ==> ('0' <= (#[trigger] e[i]) <= '9' || 'a' <= e[i] <= 'z' || 'A'
                    <= e[i] <= 'Z')
            &&& e.len() > 0 && byte_len(e) <= 16 && (forall|i: int|
                0 <= i < e.len() ==> ('0' <= (#[trigger] e[i]) <= '9' || 'a' <= e[i] <= 'z' || 'A'
                    <= e[i] <= 'Z')) ==> error is None
            &&& e.len() == 0 ==> error == Some("empty entry"@)
            &&& e.len() > 0 && byte_len(e) > 16 ==> error == Some("extension too long"@)
            &&& e.len() > 0 && byte_len(e) <= 16 && (e.contains('*') || e.contains('?')
                || e.contains('\\') || e.contains('/')) ==> error == Some(
                "globs and path separators rejected"@,
            )
            &&& normal_form(ListKind::Extension, entry) == lowercased(e)
        }),
{
    let e = without_leading(trimmed(entry), '.');
    if e.len() > 0 && byte_len(e) <= 16 && (forall|i: int|
        0 <= i < e.len() ==> ('0' <= (#[trigger] e[i]) <= '9' || 'a' <= e[i] <= 'z' || 'A' <= e[i]
            <= 'Z')) {
        assert forall|c: char| e.contains(c) implies '0' <= c <= '9' || 'a' <= c <= 'z' || 'A' <= c
            <= 'Z' by {
            let i = choose|i: int| 0 <= i < e.len() && e[i] == c;
            assert(e[i] == c);
        }
        assert(all_alphanumeric(e));
    }
    if entry_error(ListKind::Extension, entry) is None {
        assert forall|i: int| 0 <= i < e.len() implies ('0' <= (#[trigger] e[i]) <= '9' || 'a'
            <= e[i] <= 'z' || 'A' <= e[i] <= 'Z') by {
            assert(alphanumeric(e[i]));
        }
    }
}

/// A detection may be excluded by a name of up to 256 bytes that is not blank, and a
/// file by its SHA-256 in hexadecimal, which is kept in lower case; all other lists
/// are kept as they are given.
pub proof fn names_and_hashes_are_checked(entry: Seq<char>)
    ensures
        ({
            let t = trimmed(entry);
            let name = entry_error(ListKind::Detection, entry);
            let hash = entry_error(ListKind::Hash, entry);
            let lower = lowercased(t);
            &&& name is None <==> 0 < t.len() && byte_len(t) <= 256
            &&& t.len() == 0 ==> name == Some(
                "empty entry rejected (would silence ALL detections)"@,
            )
            &&& t.len() > 0 && byte_len(t) > 256 ==> name == Some("detection name too long"@)
            &&& hash is None <==> lower.len() == 64 && forall|i: int|
                0 <= i < 64 ==> ('0' <= #[trigger] lower[i] <= '9' || 'a' <= lower[i] <= 'f')
            &&& hash is Some ==> hash == Some("must be 64-char lowercase hex SHA-256"@)
            &&& normal_form(ListKind::Hash, entry) == lower
            &&& normal_form(ListKind::Detection, entry) == entry
            &&& normal_form(ListKind::ExcludedPath, entry) == entry
            &&& normal_form(ListKind::Root, entry) == entry
        }),
{
    let lower = lowercased(trimmed(entry));
    if hex64(lower) {
        assert forall|i: int| 0 <= i < 64 implies ('0' <= #[trigger] lower[i] <= '9' || 'a'
            <= lower[i] <= 'f') by {
            assert(lower_hex(lower[i]));
        }
    }
    if lower.len() == 64 && (forall|i: int|
        0 <= i < 64 ==> ('0' <= #[trigger] lower[i] <= '9' || 'a' <= lower[i] <= 'f')) {
        assert(hex64(lower));
    }
}

proof fn lemma_item_errors(key: Seq<char>, kind: ListKind, items: Seq<Option<Seq<char>>>, i: int)
    requires
        0 <= i < items.len(),
    ensures
        item_error(kind, items[i]) matches Some(why) ==> item_errors(key, kind, items).contains(
            key + "["@ + decimal(i as nat) + "]: "@ + why,
        ),
    decreases items.len(),
{
    let rest = items.drop_last();
    let before = item_errors(key, kind, rest);
    let all = item_errors(key, kind, items);
    if i < rest.len() {
        lemma_item_errors(key, kind, rest, i);
        if item_error(kind, items[i]) is Some {
            let note = key + "["@ + decimal(i as nat) + "]: "@ + item_error(kind, items[i])->0;
            let k = choose|k: int| 0 <= k < before.len() && before[k] == note;
            assert(all[k] == note);
        }
    } else if item_error(kind, items[i]) is Some {
        assert(all[before.len() as int] == key + "["@ + decimal(i as nat) + "]: "@ + item_error(
            kind,
            items[i],
        )->0);
    }
}

proof fn lemma_no_item_errors(key: Seq<char>, kind: ListKind, items: Seq<Option<Seq<char>>>)
    ensures
        item_errors(key, kind, items).len() <= items.len(),
        item_errors(key, kind, items).len() + kept_items(kind, items).len() == items.len(),
        (forall|i: int| 0 <= i < items.len() ==> item_error(kind, #[trigger] items[i]) is None)
            ==> item_errors(key, kind, items).len() == 0,
    decreases items.len(),
{
    if items.len() > 0 {
        let rest = items.drop_last();
        lemma_no_item_errors(key, kind, rest);
        if forall|i: int| 0 <= i < items.len() ==> item_error(kind, #[trigger] items[i]) is None {
            assert forall|i: int| 0 <= i < rest.len() implies item_error(kind, #[trigger] rest[i])
                is None by {
                assert(rest[i] == items[i]);
            }
            assert(items[items.len() - 1] == items.last());
        }
    }
}

/// Every bad item of a list is reported with its place, a list with no bad item is
/// not reported at all, and one of more than 64 entries is refused as a whole.
pub proof fn bad_items_are_reported(
    key: Seq<char>,
    kind: ListKind,
    items: Seq<Option<Seq<char>>>,
    i: int,
)
    ensures
        items.len() <= 64 && 0 <= i < items.len() && items[i] is None ==> list_errors(
            key,
            kind,
            Some(items),
        ).contains(key + "["@ + decimal(i as nat) + "]: "@ + "not a string"@),
        items.len() <= 64 && 0 <= i < items.len() && items[i] is Some && entry_error(
            kind,
            items[i]->0,
        ) is Some ==> list_errors(key, kind, Some(items)).contains(
            key + "["@ + decimal(i as nat) + "]: "@ + entry_error(kind, items[i]->0)->0,
        ),
        items.len() <= 64 && (forall|k: int|
            0 <= k < items.len() ==> (#[trigger] items[k]) is Some && entry_error(
                kind,
                items[k]->0,
            ) is None) ==> list_errors(key, kind, Some(items)).len() == 0,
        items.len() > 64 ==> list_errors(key, kind, Some(items)) == seq![
            key + ": too many entries ("@ + decimal(items.len()) + " > "@ + decimal(64) + ")"@,
        ],
        list_errors(key, kind, None).len() == 0,
        items.len() <= 64 ==> list_errors(key, kind, Some(items)).len() + new_list(
            kind,
            Some(items),
            Seq::empty(),
        ).len() == items.len(),
{
    if 0 <= i < items.len() {
        lemma_item_errors(key, kind, items, i);
    }
    lemma_no_item_errors(key, kind, items);
}

/// A request is accepted exactly where nothing of it is wrong: its provider is known,
/// its worker is a program, and each of its lists is short enough and has no bad
/// entry.
pub proof fn sound_requests_are_accepted(c: Critical, r: CriticalFields, outcome: CriticalOutcome)
    requires
        critical_result(c, r, outcome),
    ensures
        outcome is Accepted <==> {
            &&& r.enhanced_signature_provider matches Some(v) ==> v == "none"@ || v
                == "enhanced"@ || v == "community"@
            &&& r.argus_worker_path matches Some(v) ==> worker_path_error(trimmed(v)) is None
            &&& list_errors("excluded_paths"@, ListKind::ExcludedPath, r.excluded_paths).len() == 0
            &&& list_errors("excluded_extensions"@, ListKind::Extension, r.excluded_extensions).len() == 0
            &&& list_errors("excluded_detections"@, ListKind::Detection, r.excluded_detections).len() == 0
            &&& list_errors("trusted_hashes"@, ListKind::Hash, r.trusted_hashes).len() == 0
            &&& list_errors("realtime_roots"@, ListKind::Root, r.realtime_roots).len() == 0
        },
        outcome matches CriticalOutcome::Accepted { config, .. } ==> config@ == changed(c, r),
        outcome matches CriticalOutcome::Accepted { changes, title, .. } ==> title@
            == "Critical settings changed: "@ + joined(texts(changes@), ", "@),
        outcome matches CriticalOutcome::Rejected { title, message } ==> title@
            == "protection.set_critical rejected: "@ + joined(all_errors(r), "; "@) && message@
            == "validation failed: "@ + joined(all_errors(r), "; "@),
{
}

/// Every reason against a request is among those that are reported.
pub proof fn every_reason_is_reported(r: CriticalFields, why: Seq<char>)
    ensures
        (r.enhanced_signature_provider matches Some(v) && v != "none"@ && v != "enhanced"@ && v
            != "community"@) ==> all_errors(r).contains(
            "enhanced_signature_provider="@ + quoted(r.enhanced_signature_provider->0)
                + " not in allowlist (none|enhanced|community)"@,
        ),
        (r.argus_worker_path matches Some(v) && worker_path_error(trimmed(v)) == Some(why))
            ==> all_errors(r).contains(why),
        list_errors("excluded_paths"@, ListKind::ExcludedPath, r.excluded_paths).contains(why) ==> all_errors(
            r,
        ).contains(why),
        list_errors("excluded_extensions"@, ListKind::Extension, r.excluded_extensions).contains(why) ==> all_errors(
            r,
        ).contains(why),
        list_errors("excluded_detections"@, ListKind::Detection, r.excluded_detections).contains(why) ==> all_errors(
            r,
        ).contains(why),
        list_errors("trusted_hashes"@, ListKind::Hash, r.trusted_hashes).contains(why) ==> all_errors(
            r,
        ).contains(why),
        list_errors("realtime_roots"@, ListKind::Root, r.realtime_roots).contains(why) ==> all_errors(
            r,
        ).contains(why),
{
    let a = provider_errors(r.enhanced_signature_provider);
    let b = worker_path_errors(r.argus_worker_path);
    let c = list_errors("excluded_paths"@, ListKind::ExcludedPath, r.excluded_paths);
    let d = list_errors("excluded_extensions"@, ListKind::Extension, r.excluded_extensions);
    let e = list_errors("excluded_detections"@, ListKind::Detection, r.excluded_detections);
    let f = list_errors("trusted_hashes"@, ListKind::Hash, r.trusted_hashes);
    let g = list_errors("realtime_roots"@, ListKind::Root, r.realtime_roots);
    assert forall|x: Seq<char>|
        a.contains(x) || b.contains(x) || c.contains(x) || d.contains(x) || e.contains(x)
            || f.contains(x) || g.contains(x) implies #[trigger] all_errors(r).contains(x) by {
        lemma_either(a, b, x);
        lemma_either(a + b, c, x);
        lemma_either(a + b + c, d, x);
        lemma_either(a + b + c + d, e, x);
        lemma_either(a + b + c + d + e, f, x);
        lemma_either(a + b + c + d + e + f, g, x);
    }
    if a.len() > 0 {
        assert(a.contains(a[0]));
    }
    if b.len() > 0 {
        assert(b.contains(b[0]));
    }
}

proof fn lemma_either(a: Seq<Seq<char>>, b: Seq<Seq<char>>, x: Seq<char>)
    ensures
        (a + b).contains(x) <==> a.contains(x) || b.contains(x),
{
    let all = a + b;
    if a.contains(x) {
        let i = choose|i: int| 0 <= i < a.len() && a[i] == x;
        assert(all[i] == x);
    }
    if b.contains(x) {
        let i = choose|i: int| 0 <= i < b.len() && b[i] == x;
        assert(all[a.len() + i] == x);
    }
    if all.contains(x) {
        let i = choose|i: int| 0 <= i < all.len() && all[i] == x;
        if i < a.len() {
            assert(a[i] == x);
        } else {
            assert(b[i - a.len()] == x);
        }
    }
}

/// Every switch that a request sets is noted with its name and value, and what it
/// does not mention is not noted.
pub proof fn changes_are_noted(r: CriticalFields)
    ensures
        r.realtime_enabled == Some(true) ==> all_changes(r).contains("realtime_enabled"@ + "="@ + "true"@),
        r.realtime_enabled == Some(false) ==> all_changes(r).contains("realtime_enabled"@ + "="@ + "false"@),
        r.auto_quarantine == Some(true) ==> all_changes(r).contains("auto_quarantine"@ + "="@ + "true"@),
        r.auto_quarantine == Some(false) ==> all_changes(r).contains("auto_quarantine"@ + "="@ + "false"@),
        r.heuristic_alerts == Some(true) ==> all_changes(r).contains("heuristic_alerts"@ + "="@ + "true"@),
        r.heuristic_alerts == Some(false) ==> all_changes(r).contains("heuristic_alerts"@ + "="@ + "false"@),
        r.idle_scan_enabled == Some(true) ==> all_changes(r).contains("idle_scan_enabled"@ + "="@ + "true"@),
        r.idle_scan_enabled == Some(false) ==> all_changes(r).contains("idle_scan_enabled"@ + "="@ + "false"@),
        r.scheduled_scan_enabled == Some(true) ==> all_changes(r).contains("scheduled_scan_enabled"@ + "="@ + "true"@),
        r.scheduled_scan_enabled == Some(false) ==> all_changes(r).contains("scheduled_scan_enabled"@ + "="@ + "false"@),
        r.argus_worker_enabled == Some(true) ==> all_changes(r).contains("argus_worker_enabled"@ + "="@ + "true"@),
        r.argus_worker_enabled == Some(false) ==> all_changes(r).contains("argus_worker_enabled"@ + "="@ + "false"@),
        r.enhanced_signature_provider == Some("enhanced"@) ==> all_changes(r).contains(
            "enhanced_signature_provider="@ + "enhanced"@,
        ),
        all_changes(r).len() <= 13,
        r.realtime_enabled is None
            && r.auto_quarantine is None
            && r.heuristic_alerts is None
            && r.idle_scan_enabled is None
            && r.scheduled_scan_enabled is None
            && r.argus_worker_enabled is None
            && r.enhanced_signature_provider is None
            && r.argus_worker_path is None
            && r.excluded_paths is None
            && r.excluded_extensions is None
            && r.excluded_detections is None
            && r.trusted_hashes is None
            && r.realtime_roots is None ==> all_changes(r).len() == 0,
{
    let a = switch_change("realtime_enabled"@, r.realtime_enabled);
    let b = switch_change("auto_quarantine"@, r.auto_quarantine);
    let c = switch_change("heuristic_alerts"@, r.heuristic_alerts);
    let d = switch_change("idle_scan_enabled"@, r.idle_scan_enabled);
    let e = switch_change("scheduled_scan_enabled"@, r.scheduled_scan_enabled);
    let f = switch_change("argus_worker_enabled"@, r.argus_worker_enabled);
    let g = provider_change(r.enhanced_signature_provider);
    let all = all_changes(r);
    let n2 = a.len() as int;
    let n3 = n2 + b.len();
    let n4 = n3 + c.len();
    let n5 = n4 + d.len();
    let n6 = n5 + e.len();
    let n7 = n6 + f.len();
    if a.len() > 0 {
        assert(all[0] == a[0]);
    }
    if b.len() > 0 {
        assert(all[n2] == b[0]);
    }
    if c.len() > 0 {
        assert(all[n3] == c[0]);
    }
    if d.len() > 0 {
        assert(all[n4] == d[0]);
    }
    if e.len() > 0 {
        assert(all[n5] == e[0]);
    }
    if f.len() > 0 {
        assert(all[n6] == f[0]);
    }
    if g.len() > 0 {
        assert(all[n7] == g[0]);
    }
}

/// The protection is paused where an accepted request asks for it, resumed where one
/// asks for it and the user did not pause it, and left alone otherwise.
pub proof fn protection_follows_the_switch(r: CriticalFields, user_disabled: bool)
    ensures
        critical_toggle(r, user_disabled) is Disable <==> all_errors(r).len() == 0
            && r.realtime_enabled == Some(false),
        critical_toggle(r, user_disabled) is Enable <==> all_errors(r).len() == 0
            && r.realtime_enabled == Some(true) && !user_disabled,
{
}

/// Each setting is read from the member of its own name.
pub proof fn critical_settings_come_from_their_members(v: &serde_json::Value)
    ensures
        ({
            let f = critical_of(v);
            &&& f.realtime_enabled is Some <==> bool_members(v).contains_key("realtime_enabled"@)
            &&& f.realtime_enabled matches Some(t) ==> t == bool_members(v)["realtime_enabled"@]
            &&& f.auto_quarantine is Some <==> bool_members(v).contains_key("auto_quarantine"@)
            &&& f.auto_quarantine matches Some(t) ==> t == bool_members(v)["auto_quarantine"@]
            &&& f.heuristic_alerts is Some <==> bool_members(v).contains_key("heuristic_alerts"@)
            &&& f.heuristic_alerts matches Some(t) ==> t == bool_members(v)["heuristic_alerts"@]
            &&& f.idle_scan_enabled is Some <==> bool_members(v).contains_key("idle_scan_enabled"@)
            &&& f.idle_scan_enabled matches Some(t) ==> t == bool_members(v)["idle_scan_enabled"@]
            &&& f.scheduled_scan_enabled is Some <==> bool_members(v).contains_key("scheduled_scan_enabled"@)
            &&& f.scheduled_scan_enabled matches Some(t) ==> t == bool_members(v)["scheduled_scan_enabled"@]
            &&& f.argus_worker_enabled is Some <==> bool_members(v).contains_key("argus_worker_enabled"@)
            &&& f.argus_worker_enabled matches Some(t) ==> t == bool_members(v)["argus_worker_enabled"@]
            &&& f.enhanced_signature_provider is Some <==> text_members(v).contains_key("enhanced_signature_provider"@)
            &&& f.enhanced_signature_provider matches Some(t) ==> t == text_members(v)["enhanced_signature_provider"@]
            &&& f.argus_worker_path is Some <==> text_members(v).contains_key("argus_worker_path"@)
            &&& f.argus_worker_path matches Some(t) ==> t == text_members(v)["argus_worker_path"@]
            &&& f.excluded_paths is Some <==> list_members(v).contains_key("excluded_paths"@)
            &&& f.excluded_paths matches Some(t) ==> t == list_members(v)["excluded_paths"@]
            &&& f.excluded_extensions is Some <==> list_members(v).contains_key("excluded_extensions"@)
            &&& f.excluded_extensions matches Some(t) ==> t == list_members(v)["excluded_extensions"@]
            &&& f.excluded_detections is Some <==> list_members(v).contains_key("excluded_detections"@)
            &&& f.excluded_detections matches Some(t) ==> t == list_members(v)["excluded_detections"@]
            &&& f.trusted_hashes is Some <==> list_members(v).contains_key("trusted_hashes"@)
            &&& f.trusted_hashes matches Some(t) ==> t == list_members(v)["trusted_hashes"@]
            &&& f.realtime_roots is Some <==> list_members(v).contains_key("realtime_roots"@)
            &&& f.realtime_roots matches Some(t) ==> t == list_members(v)["realtime_roots"@]
        }),
{
}

/// A change of critical settings is logged as a warning about the protection, in the
/// words that are given.
pub proof fn critical_changes_are_warnings(title: Seq<char>, message: Seq<char>)
    ensures
        ({
            let e = critical_event(title, message);
            &&& e.severity == "warning"@
            &&& e.category == "protection"@
            &&& e.title == title
            &&& e.message == message
            &&& e.scan_id is None
        }),
{
}

/// A list that a request sets is noted with its name and its new length; one that is
/// too long, or not mentioned, is not.
pub proof fn changed_lists_are_noted(
    key: Seq<char>,
    kind: ListKind,
    items: Seq<Option<Seq<char>>>,
)
    ensures
        items.len() <= 64 ==> list_change(key, kind, Some(items)) == seq![
            key + "=["@ + decimal(kept_items(kind, items).len()) + "]"@,
        ],
        items.len() > 64 ==> list_change(key, kind, Some(items)).len() == 0,
        list_change(key, kind, None).len() == 0,
{
}

} // verus!
