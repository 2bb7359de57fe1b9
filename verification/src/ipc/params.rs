//! Parameters of a request.
//!
//! The parameters arrive as a JSON value. What the dispatcher reads of it are
//! its members that are texts, truth values, whole numbers and lists of texts.

use crate::text::owned_view;
use vstd::prelude::*;

verus! {

/// A JSON value of the `serde_json` crate.
#[verifier::external_type_specification]
#[verifier::external_body]
pub struct ExValue(serde_json::Value);

/// The members of a JSON object that are texts.
pub uninterp spec fn text_members(v: &serde_json::Value) -> Map<Seq<char>, Seq<char>>;

/// The members of a JSON object that are truth values.
pub uninterp spec fn bool_members(v: &serde_json::Value) -> Map<Seq<char>, bool>;

/// The members of a JSON object that are whole numbers of 64 bits.
pub uninterp spec fn uint_members(v: &serde_json::Value) -> Map<Seq<char>, u64>;

/// The members of a JSON object that are lists; an item that is no text is
/// `None`.
pub uninterp spec fn list_members(v: &serde_json::Value) -> Map<
    Seq<char>,
    Seq<Option<Seq<char>>>,
>;

/// The compact JSON text of a value, in bytes.
pub uninterp spec fn compact_bytes(v: &serde_json::Value) -> Seq<u8>;

/// The members of a JSON object, whatever they are.
pub uninterp spec fn value_members(v: &serde_json::Value) -> Map<Seq<char>, serde_json::Value>;

/// The value that a JSON text stands for; nothing where it is no JSON.
pub uninterp spec fn parsed(text: Seq<char>) -> Option<serde_json::Value>;

/// The member `key`, if there is one.
pub open spec fn member<T>(members: Map<Seq<char>, T>, key: Seq<char>) -> Option<T> {
    if members.contains_key(key) {
        Some(members[key])
    } else {
        None
    }
}

/// The texts of a list whose items may be no text.
pub open spec fn item_texts(list: Seq<Option<String>>) -> Seq<Option<Seq<char>>> {
    list.map_values(|item: Option<String>| owned_view(item))
}

/// `Value::get` and `Value::as_str` of `serde_json`: the member `key` where the
/// value is an object that has it as a text.
#[verifier::external_body]
pub(crate) fn text_field(v: &serde_json::Value, key: &str) -> (field: Option<String>)
    ensures
        owned_view(field) == member(text_members(v), key@),
{
    v.get(key)?.as_str().map(String::from)
}

/// `Value::get` and `Value::as_bool` of `serde_json`: the member `key` where the
/// value is an object that has it as a truth value.
#[verifier::external_body]
pub(crate) fn bool_field(v: &serde_json::Value, key: &str) -> (field: Option<bool>)
    ensures
        field == member(bool_members(v), key@),
{
    v.get(key)?.as_bool()
}

/// `Value::get` and `Value::as_u64` of `serde_json`: the member `key` where the
/// value is an object that has it as a whole number of 64 bits.
#[verifier::external_body]
pub(crate) fn uint_field(v: &serde_json::Value, key: &str) -> (field: Option<u64>)
    ensures
        field == member(uint_members(v), key@),
{
    v.get(key)?.as_u64()
}

/// The items of an optional list.
pub open spec fn owned_items(list: Option<Vec<Option<String>>>) -> Option<Seq<Option<Seq<char>>>> {
    match list {
        Some(items) => Some(item_texts(items@)),
        None => None,
    }
}

/// `Value::get` and `Value::as_array` of `serde_json`: the items of the member
/// `key` where the value is an object that has it as a list.
#[verifier::external_body]
pub(crate) fn list_field(v: &serde_json::Value, key: &str) -> (field: Option<Vec<Option<String>>>)
    ensures
        owned_items(field) == member(list_members(v), key@),
{
    let items = v.get(key)?.as_array()?;
    Some(items.iter().map(|item| item.as_str().map(String::from)).collect())
}

/// `Value::get` of `serde_json`: a copy of the member `key` where the value is an
/// object that has it.
#[verifier::external_body]
pub(crate) fn value_field(v: &serde_json::Value, key: &str) -> (field: Option<serde_json::Value>)
    ensures
        field == member(value_members(v), key@),
{
    v.get(key).cloned()
}

/// `serde_json::from_str` into a `Value`: what a JSON text stands for, nothing where
/// it is no JSON.
#[verifier::external_body]
pub(crate) fn parse_value(text: &str) -> (v: Option<serde_json::Value>)
    ensures
        v == parsed(text@),
{
    serde_json::from_str(text).ok()
}

/// `serde_json::to_vec`: the compact JSON text of a value. It is empty where the
/// value cannot be written.
#[verifier::external_body]
pub(crate) fn compact(v: &serde_json::Value) -> (bytes: Vec<u8>)
    ensures
        bytes@ == compact_bytes(v),
{
    serde_json::to_vec(v).unwrap_or_default()
}

/// The packs that a manifest lists, if it lists any.
pub open spec fn packs_of(manifest: Option<serde_json::Value>) -> Option<serde_json::Value> {
    match manifest {
        Some(v) => member(value_members(&v), "packs"@),
        None => None,
    }
}

/// Read the packs from a parsed manifest.
pub fn listed_packs(manifest: &Option<serde_json::Value>) -> (packs: Option<serde_json::Value>)
    ensures
        packs == packs_of(*manifest),
{
    match manifest {
        Some(v) => value_field(v, "packs"),
        None => None,
    }
}

/// Read the packs from the text of a manifest, where there is one. A text that is no
/// JSON lists none.
pub fn pack_list(manifest: Option<&str>) -> (packs: Option<serde_json::Value>)
    ensures
        packs == match manifest {
            Some(text) => packs_of(parsed(text@)),
            None => None,
        },
{
    match manifest {
        Some(text) => {
            let v = parse_value(text);
            listed_packs(&v)
        },
        None => None,
    }
}

pub fn payload_size(v: &serde_json::Value) -> (n: usize)
    ensures
        n == compact_bytes(v).len(),
{
    compact(v).len()
}

/// A member is found under its own name and no other, as it is.
pub proof fn members_are_found_by_name<T>(members: Map<Seq<char>, T>, key: Seq<char>, other: Seq<char>, value: T)
    ensures
        member(members, key) is Some <==> members.contains_key(key),
        member(members.insert(key, value), key) == Some(value),
        other != key ==> member(members.insert(key, value), other) == member(members, other),
        member(members.remove(key), key) is None,
{
}

/// The packs of a manifest are its member of that name.
pub proof fn packs_are_a_member(v: serde_json::Value)
    ensures
        packs_of(None) is None,
        packs_of(Some(v)) is Some <==> value_members(&v).contains_key("packs"@),
        packs_of(Some(v)) matches Some(packs) ==> packs == value_members(&v)["packs"@],
{
}

} // verus!
