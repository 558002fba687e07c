//! Reading the fields of a record from a JSON object, and writing them back.
//!
//! Reading is lenient: a member that is missing, `null`, or of another kind
//! than the field expects reads as absent. Writing puts `null` where a field
//! is absent, so that what was written reads back as it was.

use crate::float::Float64;
use crate::json::{entries_view, items_view, lookup, Json, JsonNumber, JsonView};
use vstd::prelude::*;

verus! {

/// The text under `key`, where `json` is an object whose member `key` is a string.
pub open spec fn text_field(json: JsonView, key: Seq<char>) -> Option<Seq<char>> {
    match json.member(key) {
        Some(value) => value.text(),
        None => None,
    }
}

/// The double under `key`, where the member is a number that has one.
pub open spec fn double_field(json: JsonView, key: Seq<char>) -> Option<Float64> {
    match json.member(key) {
        Some(value) => value.double(),
        None => None,
    }
}

/// The integer under `key`, where the member is a whole number within `i64`.
pub open spec fn integer_field(json: JsonView, key: Seq<char>) -> Option<i64> {
    match json.member(key) {
        Some(value) => value.integer(),
        None => None,
    }
}

/// The integer under `key`, where the member is a whole number within `i32`.
pub open spec fn small_integer_field(json: JsonView, key: Seq<char>) -> Option<i32> {
    match integer_field(json, key) {
        Some(value) => if i32::MIN <= value <= i32::MAX {
            Some(value as i32)
        } else {
            None
        },
        None => None,
    }
}

/// The object under `key`, where the member is one.
pub open spec fn object_field(json: JsonView, key: Seq<char>) -> Option<JsonView> {
    match json.member(key) {
        Some(value) => if value.is_object() {
            Some(value)
        } else {
            None
        },
        None => None,
    }
}

/// The items under `key`, where the member is an array.
pub open spec fn array_field(json: JsonView, key: Seq<char>) -> Option<Seq<JsonView>> {
    match json.member(key) {
        Some(value) => value.items(),
        None => None,
    }
}

/// The view of an optional string.
pub open spec fn text_view(text: Option<String>) -> Option<Seq<char>> {
    match text {
        Some(s) => Some(s@),
        None => None,
    }
}

/// What an optional string is written as.
pub open spec fn text_json(text: Option<Seq<char>>) -> JsonView {
    match text {
        Some(s) => JsonView::Text(s),
        None => JsonView::Null,
    }
}

/// What an optional double is written as: a number where it is finite, and
/// `null` otherwise, since JSON has no way to write an infinity or a NaN.
pub open spec fn double_json(value: Option<Float64>) -> JsonView {
    match value {
        Some(x) => if x.finite() {
            JsonView::Number(JsonNumber { integer: None, double: Some(x) })
        } else {
            JsonView::Null
        },
        None => JsonView::Null,
    }
}

/// What an optional integer is written as.
pub open spec fn integer_json(value: Option<i64>) -> JsonView {
    match value {
        Some(n) => JsonView::Number(JsonNumber { integer: Some(n), double: None }),
        None => JsonView::Null,
    }
}

/// What an optional small integer is written as.
pub open spec fn small_integer_json(value: Option<i32>) -> JsonView {
    match value {
        Some(n) => JsonView::Number(JsonNumber { integer: Some(n as i64), double: None }),
        None => JsonView::Null,
    }
}

/// An optional double that can be written and read back: absent, or finite.
pub open spec fn writable(value: Option<Float64>) -> bool {
    value matches Some(x) ==> x.finite()
}

/// The member `key` is missing from `json`, or is `null`.
pub open spec fn unset(json: JsonView, key: Seq<char>) -> bool {
    json.member(key) is None || json.member(key) == Some(JsonView::Null)
}

/// A member that is missing or `null` reads as absent, whatever kind of
/// field is asked for.
pub proof fn law_unset_reads_absent(json: JsonView, key: Seq<char>)
    requires
        unset(json, key),
    ensures
        text_field(json, key) is None,
        double_field(json, key) is None,
        integer_field(json, key) is None,
        small_integer_field(json, key) is None,
        object_field(json, key) is None,
        array_field(json, key) is None,
{
}

/// A member of another kind than the field expects reads as absent: a
/// string field reads only strings, a numeric field only numbers, a record
/// only objects and a list only arrays.
pub proof fn law_mismatch_reads_absent(json: JsonView, key: Seq<char>)
    requires
        json.member(key) is Some,
    ensures
        !(json.member(key)->Some_0 is Text) ==> text_field(json, key) is None,
        !(json.member(key)->Some_0 is Number) ==> double_field(json, key) is None && integer_field(
            json,
            key,
        ) is None && small_integer_field(json, key) is None,
        !(json.member(key)->Some_0 is Object) ==> object_field(json, key) is None,
        !(json.member(key)->Some_0 is Array) ==> array_field(json, key) is None,
{
}

/// Looking a name up after one more member was appended: an earlier member
/// of that name still counts, and otherwise the new member does if it has
/// the name.
pub broadcast proof fn lemma_lookup_push(
    entries: Seq<(Seq<char>, JsonView)>,
    entry: (Seq<char>, JsonView),
    key: Seq<char>,
)
    ensures
        #[trigger] lookup(entries.push(entry), key) == match lookup(entries, key) {
            Some(found) => Some(found),
            None => if entry.0 == key {
                Some(entry.1)
            } else {
                None
            },
        },
{
    assert(entries.push(entry).drop_last() =~= entries);
}

/// Nothing is found among no members.
pub broadcast proof fn lemma_lookup_empty(key: Seq<char>)
    ensures
        #[trigger] lookup(Seq::empty(), key) is None,
{
}

pub fn read_text(json: &Json, key: &str) -> (r: Option<String>)
    ensures
        text_view(r) == text_field(json@, key@),
{
    match json.member(key) {
        Some(value) => match value.as_text() {
            Some(s) => Some(s.clone()),
            None => None,
        },
        None => None,
    }
}

pub fn read_double(json: &Json, key: &str) -> (r: Option<Float64>)
    ensures
        r == double_field(json@, key@),
{
    match json.member(key) {
        Some(value) => value.as_double(),
        None => None,
    }
}

pub fn read_integer(json: &Json, key: &str) -> (r: Option<i64>)
    ensures
        r == integer_field(json@, key@),
{
    match json.member(key) {
        Some(value) => value.as_integer(),
        None => None,
    }
}

pub fn read_small_integer(json: &Json, key: &str) -> (r: Option<i32>)
    ensures
        r == small_integer_field(json@, key@),
{
    match read_integer(json, key) {
        Some(value) => if -0x8000_0000 <= value && value <= 0x7fff_ffff {
            Some(value as i32)
        } else {
            None
        },
        None => None,
    }
}

pub fn read_object<'a>(json: &'a Json, key: &str) -> (r: Option<&'a Json>)
    ensures
        match r {
            Some(found) => object_field(json@, key@) == Some(found@),
            None => object_field(json@, key@) is None,
        },
{
    match json.member(key) {
        Some(value) => if value.is_object() {
            Some(value)
        } else {
            None
        },
        None => None,
    }
}

pub fn read_array<'a>(json: &'a Json, key: &str) -> (r: Option<&'a Vec<Json>>)
    ensures
        match r {
            Some(items) => array_field(json@, key@) == Some(items_view(items@)),
            None => array_field(json@, key@) is None,
        },
{
    match json.member(key) {
        Some(value) => value.as_array(),
        None => None,
    }
}

pub fn write_text(text: &Option<String>) -> (r: Json)
    ensures
        r@ == text_json(text_view(*text)),
{
    match text {
        Some(s) => Json::Text(s.clone()),
        None => Json::Null,
    }
}

pub fn write_double(value: Option<Float64>) -> (r: Json)
    ensures
        r@ == double_json(value),
{
    match value {
        Some(x) => if x.is_finite() {
            Json::Number(JsonNumber { integer: None, double: Some(x) })
        } else {
            Json::Null
        },
        None => Json::Null,
    }
}

pub fn write_integer(value: Option<i64>) -> (r: Json)
    ensures
        r@ == integer_json(value),
{
    match value {
        Some(n) => Json::Number(JsonNumber { integer: Some(n), double: None }),
        None => Json::Null,
    }
}

pub fn write_small_integer(value: Option<i32>) -> (r: Json)
    ensures
        r@ == small_integer_json(value),
{
    match value {
        Some(n) => Json::Number(JsonNumber { integer: Some(n as i64), double: None }),
        None => Json::Null,
    }
}

/// Appends the member `key: value` to the members of an object under construction.
pub fn put(entries: &mut Vec<(String, Json)>, key: &str, value: Json)
    ensures
        entries_view(final(entries)@) == entries_view(old(entries)@).push((key@, value@)),
{
    entries.push((String::from_str(key), value));
    assert(entries@.drop_last() =~= old(entries)@);
}

} // verus!
