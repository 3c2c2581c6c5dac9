//! The JSON facts the relay logic reads, behind `serde_json`.
use vstd::prelude::*;

verus! {

/// What `serde_json` yields for the JSON text `json` at the JSON pointer
/// `pointer` when that value is a string; `None` when the text does not
/// parse, the pointer leads nowhere or the value is not a string.
pub uninterp spec fn json_pointer_text(json: Seq<char>, pointer: Seq<char>) -> Option<Seq<char>>;

/// Parses `json` with `serde_json::from_str`, follows `pointer`
/// (`Value::pointer`) and returns the string found there
/// (`Value::as_str`).  The contract names the result by
/// [`json_pointer_text`] of both arguments and claims nothing else.
#[verifier::external_body]
pub(crate) fn json_pointer_str(json: &str, pointer: &str) -> (r: Option<String>)
    ensures
        r.deep_view() == json_pointer_text(json@, pointer@),
{
    serde_json::from_str::<serde_json::Value>(json).ok().and_then(
        |v| v.pointer(pointer).and_then(|x| x.as_str()).map(|s| s.to_string()),
    )
}

/// Whether the JSON text `json` parses and holds a value at `pointer`.
pub uninterp spec fn json_pointer_present(json: Seq<char>, pointer: Seq<char>) -> bool;

/// Parses `json` with `serde_json::from_str` and tells whether
/// `Value::pointer` finds a value at `pointer`.  The contract names the
/// result by [`json_pointer_present`] of both arguments.
#[verifier::external_body]
pub(crate) fn json_has_pointer(json: &str, pointer: &str) -> (r: bool)
    ensures
        r == json_pointer_present(json@, pointer@),
{
    serde_json::from_str::<serde_json::Value>(json).ok().map_or(false, |v| v.pointer(pointer).is_some())
}

/// What `serde_json` yields for the JSON text `json` at `pointer` when
/// that value is a boolean; `None` otherwise.
pub uninterp spec fn json_pointer_boolean(json: Seq<char>, pointer: Seq<char>) -> Option<bool>;

/// Parses `json` with `serde_json::from_str`, follows `pointer` and returns
/// the boolean found there (`Value::as_bool`).  The contract names the
/// result by [`json_pointer_boolean`] of both arguments.
#[verifier::external_body]
pub(crate) fn json_pointer_bool(json: &str, pointer: &str) -> (r: Option<bool>)
    ensures
        r == json_pointer_boolean(json@, pointer@),
{
    serde_json::from_str::<serde_json::Value>(json).ok().and_then(|v| v.pointer(pointer).and_then(|x| x.as_bool()))
}

/// What `serde_json` yields for the JSON text `json` at `pointer` when
/// that value is an integer that fits `i64`; `None` otherwise.
pub uninterp spec fn json_pointer_integer(json: Seq<char>, pointer: Seq<char>) -> Option<i64>;

/// Parses `json` with `serde_json::from_str`, follows `pointer` and returns
/// the integer found there (`Value::as_i64`).  The contract names the result
/// by [`json_pointer_integer`] of both arguments.
#[verifier::external_body]
pub(crate) fn json_pointer_i64(json: &str, pointer: &str) -> (r: Option<i64>)
    ensures
        r == json_pointer_integer(json@, pointer@),
{
    serde_json::from_str::<serde_json::Value>(json).ok().and_then(|v| v.pointer(pointer).and_then(|x| x.as_i64()))
}

/// The member names of the JSON object at `pointer` of `json`, in the
/// order `serde_json` iterates them; `None` when that value is not an
/// object.
pub uninterp spec fn json_object_keys_at(json: Seq<char>, pointer: Seq<char>) -> Option<Seq<Seq<char>>>;

/// Parses `json`, follows `pointer` and lists the keys of the object found
/// there (`Value::as_object`, `Map::keys`).  The contract names the result
/// by [`json_object_keys_at`] of both arguments.
#[verifier::external_body]
pub(crate) fn json_object_keys(json: &str, pointer: &str) -> (r: Option<Vec<String>>)
    ensures
        r.deep_view() == json_object_keys_at(json@, pointer@),
{
    serde_json::from_str::<serde_json::Value>(json).ok().and_then(
        |v| v.pointer(pointer).and_then(|x| x.as_object()).map(|m| m.keys().cloned().collect()),
    )
}

/// The items of the JSON array at `pointer` of `json`, each as its string
/// when it is one; `None` when that value is not an array.
pub uninterp spec fn json_array_strings_at(json: Seq<char>, pointer: Seq<char>) -> Option<Seq<Option<Seq<char>>>>;

/// Parses `json`, follows `pointer` and maps the items of the array found
/// there through `Value::as_str`.  The contract names the result by
/// [`json_array_strings_at`] of both arguments.
#[verifier::external_body]
pub(crate) fn json_array_strings(json: &str, pointer: &str) -> (r: Option<Vec<Option<String>>>)
    ensures
        r.deep_view() == json_array_strings_at(json@, pointer@),
{
    serde_json::from_str::<serde_json::Value>(json).ok().and_then(
        |v| v.pointer(pointer).and_then(|x| x.as_array()).map(|a| a.iter().map(|i| i.as_str().map(|s| s.to_string())).collect()),
    )
}

/// The length of the JSON array at `pointer` of `json`; `None` when that
/// value is not an array.
pub uninterp spec fn json_array_len_at(json: Seq<char>, pointer: Seq<char>) -> Option<nat>;

/// Parses `json`, follows `pointer` and returns the length of the array
/// found there.  The contract names the result by [`json_array_len_at`].
#[verifier::external_body]
pub(crate) fn json_array_len(json: &str, pointer: &str) -> (r: Option<usize>)
    ensures
        match r {
            Some(n) => json_array_len_at(json@, pointer@) == Some(n as nat),
            None => json_array_len_at(json@, pointer@) is None,
        },
{
    serde_json::from_str::<serde_json::Value>(json).ok().and_then(|v| v.pointer(pointer).and_then(|x| x.as_array()).map(|a| a.len()))
}

/// The compact JSON text `serde_json` prints for the value at `pointer` of
/// `json`; `None` when the text does not parse or the pointer leads nowhere.
pub uninterp spec fn json_pointer_raw_at(json: Seq<char>, pointer: Seq<char>) -> Option<Seq<char>>;

/// Parses `json`, follows `pointer` and prints the value found there with
/// `Value::to_string`.  The contract names the result by
/// [`json_pointer_raw_at`] of both arguments.
#[verifier::external_body]
pub(crate) fn json_pointer_raw(json: &str, pointer: &str) -> (r: Option<String>)
    ensures
        r.deep_view() == json_pointer_raw_at(json@, pointer@),
{
    serde_json::from_str::<serde_json::Value>(json).ok().and_then(|v| v.pointer(pointer).map(|x| x.to_string()))
}

/// The items of the JSON array at `pointer` of `json`, each printed as
/// compact JSON text; `None` when that value is not an array.
pub uninterp spec fn json_array_items_at(json: Seq<char>, pointer: Seq<char>) -> Option<Seq<Seq<char>>>;

/// Parses `json`, follows `pointer` and prints each item of the array found
/// there with `Value::to_string`.  The contract names the result by
/// [`json_array_items_at`] of both arguments.
#[verifier::external_body]
pub(crate) fn json_array_items(json: &str, pointer: &str) -> (r: Option<Vec<String>>)
    ensures
        r.deep_view() == json_array_items_at(json@, pointer@),
{
    serde_json::from_str::<serde_json::Value>(json).ok().and_then(
        |v| v.pointer(pointer).and_then(|x| x.as_array()).map(|a| a.iter().map(|i| i.to_string()).collect()),
    )
}

/// A root member name that a JSON pointer spells as it is (no `/`, no `~`).
pub open spec fn plain_member_name(key: Seq<char>) -> bool {
    forall|i: int| 0 <= i < key.len() ==> key[i] != '/' && key[i] != '~'
}

/// The compact JSON text `serde_json` prints after `value[key] = json!(text)`
/// on the document `json` (an object gains or replaces the member; null
/// becomes an object holding just it).
pub uninterp spec fn json_with_member_text(json: Seq<char>, key: Seq<char>, text: Seq<char>) -> Seq<char>;

/// Parses `json`, sets its root member `key` to the string `text` with
/// `Value`'s `IndexMut` and prints the result with `Value::to_string`.
/// `requires` admits only an object or null (indexing anything else
/// panics).  The contract names the result by [`json_with_member_text`]
/// and states what `serde_json` plainly does: the printed document reads
/// back as an object whose member `key` is the string `text`.
#[verifier::external_body]
pub(crate) fn json_set_member(json: &str, key: &str, text: &str) -> (r: String)
    requires
        json_object_keys_at(json@, ""@) is Some || json_pointer_raw_at(json@, ""@) == Some("null"@),
    ensures
        r@ == json_with_member_text(json@, key@, text@),
        json_object_keys_at(r@, ""@) is Some,
        plain_member_name(key@) ==> json_pointer_text(r@, "/"@ + key@) == Some(text@),
{
    let mut v: serde_json::Value = serde_json::from_str(json).unwrap_or(serde_json::Value::Null);
    v[key] = serde_json::Value::String(text.to_string());
    v.to_string()
}

} // verus!
