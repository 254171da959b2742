//! Reading and writing JSON text with `serde_json`.
//!
//! `serde_json` holds a document as a `Value`. The library sees into one only
//! one level at a time, through [`unpack`] and [`pack`]; the conversion from
//! and to [`Json`] is built on those two.

use crate::json::{items_view, members_view, writable, Json, JsonModel, JsonNumber};
use crate::keyed::distinct_keys;
use serde_json::Value;
use vstd::prelude::*;

verus! {

#[verifier::external_type_specification]
#[verifier::external_body]
pub struct ExValue(Value);

/// The document that a `serde_json::Value` holds, the members of an object
/// in the order in which its map hands them out.
pub uninterp spec fn value_doc(value: Value) -> JsonModel;

/// The document that `serde_json` reads from a text, `None` where the text is
/// not one JSON document.
pub uninterp spec fn parsed_text(text: Seq<char>) -> Option<JsonModel>;

/// The text that `serde_json` writes for a document, indented for a reader,
/// `None` where it reports an error.
pub uninterp spec fn rendered_text(doc: JsonModel) -> Option<Seq<char>>;

/// The top level of a `Value` that is being read: what lies below is still
/// held as `Value`s.
pub enum Shape<'a> {
    Null,
    Bool(bool),
    Number(JsonNumber),
    Text(&'a String),
    Array(&'a Vec<Value>),
    Object(Vec<(&'a String, &'a Value)>),
}

/// The top level of a `Value` that is being built from the `Value`s below it.
pub enum Parts {
    Null,
    Bool(bool),
    Number(JsonNumber),
    Text(String),
    Array(Vec<Value>),
    Object(Vec<(String, Value)>),
}

/// The documents of a list of values.
pub open spec fn docs_of(items: Seq<Value>) -> Seq<JsonModel> {
    items.map_values(|v: Value| value_doc(v))
}

/// The names and documents of a list of members that are borrowed.
pub open spec fn borrowed_members(members: Seq<(&String, &Value)>) -> Seq<(Seq<char>, JsonModel)> {
    members.map_values(|m: (&String, &Value)| ((*m.0)@, value_doc(*m.1)))
}

/// The names and documents of a list of members.
pub open spec fn owned_members(members: Seq<(String, Value)>) -> Seq<(Seq<char>, JsonModel)> {
    members.map_values(|m: (String, Value)| (m.0@, value_doc(m.1)))
}

impl<'a> Shape<'a> {
    /// The document of the value that has this top level.
    pub open spec fn model(self) -> JsonModel {
        match self {
            Shape::Null => JsonModel::Null,
            Shape::Bool(b) => JsonModel::Bool(b),
            Shape::Number(n) => JsonModel::Number(n),
            Shape::Text(s) => JsonModel::Text((*s)@),
            Shape::Array(items) => JsonModel::Array(docs_of((*items)@)),
            Shape::Object(members) => JsonModel::Object(borrowed_members(members@)),
        }
    }
}

impl Parts {
    /// The document of the value that has this top level.
    pub open spec fn model(self) -> JsonModel {
        match self {
            Parts::Null => JsonModel::Null,
            Parts::Bool(b) => JsonModel::Bool(b),
            Parts::Number(n) => JsonModel::Number(n),
            Parts::Text(s) => JsonModel::Text(s@),
            Parts::Array(items) => JsonModel::Array(docs_of(items@)),
            Parts::Object(members) => JsonModel::Object(owned_members(members@)),
        }
    }

    /// Whether a value with this top level can be built: a number is an
    /// integer in its own range, and no two members have one name.
    pub open spec fn fits(self) -> bool {
        match self {
            Parts::Number(n) => n.is_plain(),
            Parts::Object(members) => distinct_keys(owned_members(members@)),
            _ => true,
        }
    }
}

/// Tells the variants of a `serde_json::Value` apart. A number is told apart
/// by `Number::as_u64` and `Number::as_i64`: the first answers for an integer
/// from 0 up, the second for one below 0, neither for any other number. The
/// members of an object come in the order of `Map::iter`.
#[verifier::external_body]
fn unpack<'a>(value: &'a Value) -> (shape: Shape<'a>)
    ensures
        shape.model() == value_doc(*value),
{
    match value {
        Value::Null => Shape::Null,
        Value::Bool(b) => Shape::Bool(*b),
        Value::Number(n) => Shape::Number(
            match (n.as_u64(), n.as_i64()) {
                (Some(u), _) => JsonNumber::Unsigned(u),
                (_, Some(i)) => JsonNumber::Negative(i),
                _ => JsonNumber::Fraction,
            },
        ),
        Value::String(s) => Shape::Text(s),
        Value::Array(items) => Shape::Array(items),
        Value::Object(map) => Shape::Object(map.iter().collect()),
    }
}

/// Builds a `serde_json::Value` from its top level, with `Value::from` for
/// an integer and by collecting the members into a `Map` for an object. The
/// claim for an object rests on the map keeping the order in which members
/// with distinct names are put in, which `serde_json` does with its feature
/// `preserve_order`.
#[verifier::external_body]
fn pack(parts: Parts) -> (value: Value)
    requires
        parts.fits(),
    ensures
        value_doc(value) == parts.model(),
{
    match parts {
        Parts::Null | Parts::Number(JsonNumber::Fraction) => Value::Null,
        Parts::Bool(b) => Value::Bool(b),
        Parts::Number(JsonNumber::Unsigned(u)) => Value::from(u),
        Parts::Number(JsonNumber::Negative(i)) => Value::from(i),
        Parts::Text(s) => Value::String(s),
        Parts::Array(items) => Value::Array(items),
        Parts::Object(members) => Value::Object(members.into_iter().collect()),
    }
}

/// Calls `serde_json::from_str` for a `Value`. The claim: whether the call
/// succeeds, and the document it gives, depend on the text alone. On failure
/// the result is the message of `serde_json`'s error, of which nothing is
/// claimed.
#[verifier::external_body]
fn parse_value(text: &str) -> (r: Result<Value, String>)
    ensures
        match r {
            Ok(value) => parsed_text(text@) == Some(value_doc(value)),
            Err(_) => parsed_text(text@) is None,
        },
{
    match serde_json::from_str::<Value>(text) {
        Ok(value) => Ok(value),
        Err(e) => Err(e.to_string()),
    }
}

/// Calls `serde_json::to_string_pretty` on a `Value`. The claim: whether the
/// call succeeds, and the text it gives, depend on the document alone, where
/// the document holds no number but integers. On failure the result is the
/// message of `serde_json`'s error, of which nothing is claimed.
#[verifier::external_body]
fn render_value(value: &Value) -> (r: Result<String, String>)
    requires
        writable(value_doc(*value)),
    ensures
        match r {
            Ok(text) => rendered_text(value_doc(*value)) == Some(text@),
            Err(_) => rendered_text(value_doc(*value)) is None,
        },
{
    match serde_json::to_string_pretty(value) {
        Ok(text) => Ok(text),
        Err(e) => Err(e.to_string()),
    }
}

/// The [`Json`] of the document that a `Value` holds.
pub(crate) fn from_value(value: &Value) -> (doc: Json)
    ensures
        doc@ == value_doc(*value),
    decreases value_doc(*value),
{
    match unpack(value) {
        Shape::Null => Json::Null,
        Shape::Bool(b) => Json::Bool(b),
        Shape::Number(n) => Json::Number(n),
        Shape::Text(s) => Json::Text(s.clone()),
        Shape::Array(items) => {
            let ghost below = docs_of(items@);
            let mut docs: Vec<Json> = Vec::new();
            let mut i: usize = 0;
            while i < items.len()
                invariant
                    i <= items.len(),
                    docs.len() == i,
                    value_doc(*value) == JsonModel::Array(below),
                    below == docs_of(items@),
                    forall|j: int| 0 <= j < i ==> (#[trigger] docs[j])@ == below[j],
                decreases items.len() - i,
            {
                proof {
                    assert(below[i as int] == value_doc(items@[i as int]));
                    let whole = value_doc(*value);
                    assert(decreases_to!(whole => whole->Array_0));
                    assert(decreases_to!(whole->Array_0 => whole->Array_0[i as int]));
                }
                docs.push(from_value(&items[i]));
                i += 1;
            }
            let doc = Json::Array(docs);
            proof {
                assert(doc@ == JsonModel::Array(items_view(docs@)));
                assert(items_view(docs@) =~= below);
            }
            doc
        },
        Shape::Object(members) => {
            let ghost below = borrowed_members(members@);
            let mut docs: Vec<(String, Json)> = Vec::new();
            let mut i: usize = 0;
            while i < members.len()
                invariant
                    i <= members.len(),
                    docs.len() == i,
                    value_doc(*value) == JsonModel::Object(below),
                    below == borrowed_members(members@),
                    forall|j: int|
                        0 <= j < i ==> (#[trigger] docs[j]).0@ == below[j].0 && docs[j].1@
                            == below[j].1,
                decreases members.len() - i,
            {
                proof {
                    assert(below[i as int] == ((*members@[i as int].0)@, value_doc(
                        *members@[i as int].1,
                    )));
                    let whole = value_doc(*value);
                    assert(decreases_to!(whole => whole->Object_0));
                    assert(decreases_to!(whole->Object_0 => whole->Object_0[i as int]));
                    assert(decreases_to!(whole->Object_0[i as int] => whole->Object_0[i as int].1));
                }
                let name = members[i].0.clone();
                let doc = from_value(members[i].1);
                docs.push((name, doc));
                i += 1;
            }
            let doc = Json::Object(docs);
            proof {
                assert(doc@ == JsonModel::Object(members_view(docs@)));
                assert(members_view(docs@) =~= below);
            }
            doc
        },
    }
}

/// The `Value` that holds the document of a [`Json`].
pub(crate) fn to_value(doc: &Json) -> (value: Value)
    requires
        writable(doc@),
    ensures
        value_doc(value) == doc@,
    decreases doc,
{
    match doc {
        Json::Null => pack(Parts::Null),
        Json::Bool(b) => pack(Parts::Bool(*b)),
        Json::Number(n) => pack(Parts::Number(*n)),
        Json::Text(s) => pack(Parts::Text(s.clone())),
        Json::Array(items) => {
            let ghost below = items_view(items@);
            proof {
                assert(doc@ == JsonModel::Array(below));
            }
            let mut values: Vec<Value> = Vec::new();
            let mut i: usize = 0;
            while i < items.len()
                invariant
                    i <= items.len(),
                    values.len() == i,
                    *doc == Json::Array(*items),
                    doc@ == JsonModel::Array(below),
                    below == items_view(items@),
                    writable(doc@),
                    forall|j: int| 0 <= j < i ==> value_doc(#[trigger] values[j]) == below[j],
                decreases items.len() - i,
            {
                proof {
                    assert(below[i as int] == items[i as int]@);
                    assert(doc@->Array_0 == below);
                    assert(writable(below[i as int]));
                }
                values.push(to_value(&items[i]));
                i += 1;
            }
            proof {
                assert(docs_of(values@) =~= below);
            }
            pack(Parts::Array(values))
        },
        Json::Object(members) => {
            let ghost below = members_view(members@);
            proof {
                assert(doc@ == JsonModel::Object(below));
            }
            let mut values: Vec<(String, Value)> = Vec::new();
            let mut i: usize = 0;
            while i < members.len()
                invariant
                    i <= members.len(),
                    values.len() == i,
                    *doc == Json::Object(*members),
                    doc@ == JsonModel::Object(below),
                    below == members_view(members@),
                    writable(doc@),
                    forall|j: int|
                        0 <= j < i ==> (#[trigger] values[j]).0@ == below[j].0 && value_doc(
                            values[j].1,
                        ) == below[j].1,
                decreases members.len() - i,
            {
                proof {
                    assert(below[i as int] == (members[i as int].0@, members[i as int].1@));
                    assert(writable(below[i as int].1));
                }
                let name = members[i].0.clone();
                let value = to_value(&members[i].1);
                values.push((name, value));
                i += 1;
            }
            proof {
                assert(owned_members(values@) =~= below);
            }
            pack(Parts::Object(values))
        },
    }
}

/// Reads a document from a text. The result is exactly [`parsed_text`]; an
/// error holds the cause in words.
pub(crate) fn parse_document(text: &str) -> (r: Result<Json, String>)
    ensures
        match r {
            Ok(doc) => parsed_text(text@) == Some(doc@),
            Err(_) => parsed_text(text@) is None,
        },
{
    match parse_value(text) {
        Ok(value) => Ok(from_value(&value)),
        Err(cause) => Err(cause),
    }
}

/// Writes a document as text. The result is exactly [`rendered_text`]; an
/// error holds the cause in words.
pub(crate) fn render_document(doc: &Json) -> (r: Result<String, String>)
    requires
        writable(doc@),
    ensures
        match r {
            Ok(text) => rendered_text(doc@) == Some(text@),
            Err(_) => rendered_text(doc@) is None,
        },
{
    let value = to_value(doc);
    render_value(&value)
}

} // verus!
