//! A JSON document as a tree of plain values, and how one is read from text.

use crate::float::Float64;
use crate::text::same_text;
use serde_json::Value;
use vstd::prelude::*;
use vstd::string::to_string_from_display_ensures;

verus! {

/// A JSON number, as the two readings the decoders consult.
#[derive(Clone, Copy, Debug, PartialEq, Eq, Structural)]
pub struct JsonNumber {
    /// The exact value, where the number is an integer within `i64`.
    pub integer: Option<i64>,
    /// The value as a double, where one is known.
    pub double: Option<Float64>,
}

/// A JSON document.
///
/// An object keeps its members in a list; a name is looked up from the front,
/// so the first member of a given name is the one that counts.
#[derive(Debug, PartialEq)]
pub enum Json {
    Null,
    Bool(bool),
    Number(JsonNumber),
    Text(String),
    Array(Vec<Json>),
    Object(Vec<(String, Json)>),
}

/// The mathematical value of a [`Json`].
pub enum JsonView {
    Null,
    Bool(bool),
    Number(JsonNumber),
    Text(Seq<char>),
    Array(Seq<JsonView>),
    Object(Seq<(Seq<char>, JsonView)>),
}

/// The member of the given name that stands first in `entries`, if any.
pub open spec fn lookup(entries: Seq<(Seq<char>, JsonView)>, key: Seq<char>) -> Option<JsonView>
    decreases entries.len(),
{
    if entries.len() == 0 {
        None
    } else {
        match lookup(entries.drop_last(), key) {
            Some(found) => Some(found),
            None => if entries.last().0 == key {
                Some(entries.last().1)
            } else {
                None
            },
        }
    }
}

impl JsonView {
    /// The member `key` of an object; nothing for any other kind of value.
    pub open spec fn member(self, key: Seq<char>) -> Option<JsonView> {
        match self {
            JsonView::Object(entries) => lookup(entries, key),
            _ => None,
        }
    }

    pub open spec fn is_object(self) -> bool {
        self is Object
    }

    pub open spec fn text(self) -> Option<Seq<char>> {
        match self {
            JsonView::Text(s) => Some(s),
            _ => None,
        }
    }

    pub open spec fn integer(self) -> Option<i64> {
        match self {
            JsonView::Number(n) => n.integer,
            _ => None,
        }
    }

    pub open spec fn double(self) -> Option<Float64> {
        match self {
            JsonView::Number(n) => n.double,
            _ => None,
        }
    }

    pub open spec fn items(self) -> Option<Seq<JsonView>> {
        match self {
            JsonView::Array(items) => Some(items),
            _ => None,
        }
    }
}

/// The value of a document.
pub open spec fn json_view(json: Json) -> JsonView
    decreases json,
{
    match json {
        Json::Null => JsonView::Null,
        Json::Bool(b) => JsonView::Bool(b),
        Json::Number(n) => JsonView::Number(n),
        Json::Text(s) => JsonView::Text(s@),
        Json::Array(items) => JsonView::Array(items_view(items@)),
        Json::Object(entries) => JsonView::Object(entries_view(entries@)),
    }
}

/// The values of a list of documents, in order.
pub open spec fn items_view(items: Seq<Json>) -> Seq<JsonView>
    decreases items,
{
    if items.len() == 0 {
        Seq::empty()
    } else {
        items_view(items.drop_last()).push(json_view(items.last()))
    }
}

/// The members of an object, each name and value by its view, in order.
pub open spec fn entries_view(entries: Seq<(String, Json)>) -> Seq<(Seq<char>, JsonView)>
    decreases entries,
{
    if entries.len() == 0 {
        Seq::empty()
    } else {
        entries_view(entries.drop_last()).push((entries.last().0@, json_view(entries.last().1)))
    }
}

impl View for Json {
    type V = JsonView;

    open spec fn view(&self) -> JsonView {
        json_view(*self)
    }
}

/// `items_view` works item by item.
pub proof fn lemma_items_view(items: Seq<Json>)
    ensures
        items_view(items).len() == items.len(),
        forall|i: int| 0 <= i < items.len() ==> #[trigger] items_view(items)[i] == items[i]@,
    decreases items.len(),
{
    if items.len() > 0 {
        lemma_items_view(items.drop_last());
    }
}

/// `entries_view` works member by member.
pub proof fn lemma_entries_view(entries: Seq<(String, Json)>)
    ensures
        entries_view(entries).len() == entries.len(),
        forall|i: int|
            0 <= i < entries.len() ==> #[trigger] entries_view(entries)[i] == (
                entries[i].0@,
                entries[i].1@,
            ),
    decreases entries.len(),
{
    if entries.len() > 0 {
        lemma_entries_view(entries.drop_last());
    }
}

/// A member found among the first `n` entries is the member found in all of them.
pub proof fn lemma_lookup_prefix(entries: Seq<(Seq<char>, JsonView)>, key: Seq<char>, n: int)
    requires
        0 <= n <= entries.len(),
        lookup(entries.take(n), key) is Some,
    ensures
        lookup(entries, key) == lookup(entries.take(n), key),
    decreases entries.len() - n,
{
    if n < entries.len() {
        assert(entries.take(n + 1).drop_last() =~= entries.take(n));
        lemma_lookup_prefix(entries, key, n + 1);
    } else {
        assert(entries.take(n) =~= entries);
    }
}

/// `serde_json::Value`, the document type of the parser.
#[verifier::external_type_specification]
#[verifier::external_body]
pub struct ExValue(serde_json::Value);

/// `serde_json::Error`, what the parser reports.
#[verifier::external_type_specification]
#[verifier::external_body]
pub struct ExParseError(serde_json::Error);

/// The document that the parser reads from `bytes`; nothing where it rejects them.
pub uninterp spec fn json_document(bytes: Seq<u8>) -> Option<JsonView>;

/// Copies a `serde_json::Value` into a [`Json`], kind by kind.
///
/// Trusted, and nothing is claimed of the result here. A number carries what
/// `Number::as_i64` and `Number::as_f64` report, the double by its bits; an
/// object's members come in the order in which `serde_json::Map` hands them
/// out.
#[verifier::external_body]
fn tree_of_value(value: Value) -> (tree: Json) {
    match value {
        Value::Null => Json::Null,
        Value::Bool(b) => Json::Bool(b),
        Value::Number(n) => {
            let double = n.as_f64().map(|x| Float64 { bits: x.to_bits() });
            Json::Number(JsonNumber { integer: n.as_i64(), double })
        },
        Value::String(s) => Json::Text(s),
        Value::Array(items) => Json::Array(items.into_iter().map(tree_of_value).collect()),
        Value::Object(map) => Json::Object(
            map.into_iter().map(|(name, member)| (name, tree_of_value(member))).collect(),
        ),
    }
}

/// Parses `bytes` with `serde_json::from_slice`.
///
/// Trusted. The claim is that the outcome is a function of the bytes alone:
/// the parser accepts exactly the inputs for which [`json_document`] names a
/// document, and the tree handed back has that document as its view.
#[verifier::external_body]
pub(crate) fn parse_document(bytes: &[u8]) -> (r: Result<Json, serde_json::Error>)
    ensures
        r is Ok <==> json_document(bytes@) is Some,
        r matches Ok(tree) ==> json_document(bytes@) == Some(tree@),
{
    match serde_json::from_slice::<Value>(bytes) {
        Ok(value) => Ok(tree_of_value(value)),
        Err(e) => Err(e),
    }
}

/// Whether `text` holds the words ` at line ` somewhere.
pub open spec fn mentions_line(text: Seq<char>) -> bool {
    exists|i: int, j: int|
        0 <= i <= j <= text.len() && #[trigger] text.subrange(i, j) == " at line "@
}

/// Whether `text` is what `error` shows for itself: whatever its `to_string`
/// returns holds exactly `text`.
pub open spec fn shows(error: serde_json::Error, text: Seq<char>) -> bool {
    forall|shown: String| #[trigger] to_string_from_display_ensures(&error, shown) ==> shown@ == text
}

/// Whether `error` is how the parser says `message`: it shows exactly the
/// message, unless the message holds the words ` at line `.
pub open spec fn said(error: serde_json::Error, message: Seq<char>) -> bool {
    !mentions_line(message) ==> shows(error, message)
}

/// Makes the parser's error for a document of the wrong shape, with
/// `message` as its text, through `serde::de::Error::custom`.
///
/// Trusted. The claim is that an error made from a message without the words
/// ` at line ` shows exactly that message. Where the message holds them, the
/// parser may take its end for a position in the input, and nothing is
/// claimed.
#[verifier::external_body]
pub(crate) fn schema_error(message: &str) -> (e: serde_json::Error)
    ensures
        said(e, message@),
{
    <serde_json::Error as serde::de::Error>::custom(message)
}

impl Json {
    /// The member `key` of an object, looked up from the front.
    pub fn member<'a>(&'a self, key: &str) -> (r: Option<&'a Json>)
        ensures
            match r {
                Some(found) => self@.member(key@) == Some(found@),
                None => self@.member(key@) is None,
            },
    {
        match self {
            Json::Object(entries) => {
                proof {
                    lemma_entries_view(entries@);
                }
                let ghost all = entries_view(entries@);
                let mut i: usize = 0;
                while i < entries.len()
                    invariant
                        i <= entries.len(),
                        all.len() == entries.len(),
                        forall|k: int|
                            0 <= k < all.len() ==> #[trigger] all[k] == (
                                entries@[k].0@,
                                entries@[k].1@,
                            ),
                        self@ == JsonView::Object(all),
                        lookup(all.take(i as int), key@) is None,
                    decreases entries.len() - i,
                {
                    proof {
                        assert(all.take(i + 1).drop_last() =~= all.take(i as int));
                    }
                    if same_text(entries[i].0.as_str(), key) {
                        proof {
                            lemma_lookup_prefix(all, key@, i + 1);
                        }
                        return Some(&entries[i].1);
                    }
                    i += 1;
                }
                proof {
                    assert(all.take(i as int) =~= all);
                }
                None
            },
            _ => None,
        }
    }

    pub fn is_object(&self) -> (r: bool)
        ensures
            r == self@.is_object(),
    {
        match self {
            Json::Object(_) => true,
            _ => false,
        }
    }

    /// The characters of a string value.
    pub fn as_text(&self) -> (r: Option<&String>)
        ensures
            match r {
                Some(s) => self@.text() == Some(s@),
                None => self@.text() is None,
            },
    {
        match self {
            Json::Text(s) => Some(s),
            _ => None,
        }
    }

    /// The exact value of a number that is an integer within `i64`.
    pub fn as_integer(&self) -> (r: Option<i64>)
        ensures
            r == self@.integer(),
    {
        match self {
            Json::Number(n) => n.integer,
            _ => None,
        }
    }

    /// The value of a number as a double.
    pub fn as_double(&self) -> (r: Option<Float64>)
        ensures
            r == self@.double(),
    {
        match self {
            Json::Number(n) => n.double,
            _ => None,
        }
    }

    /// The items of an array.
    pub fn as_array(&self) -> (r: Option<&Vec<Json>>)
        ensures
            match r {
                Some(items) => self@.items() == Some(items_view(items@)),
                None => self@.items() is None,
            },
    {
        match self {
            Json::Array(items) => Some(items),
            _ => None,
        }
    }
}

} // verus!
