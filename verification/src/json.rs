//! JSON documents as trees.
//!
//! The library holds a document as a tree of its own, [`Json`], so that the
//! code that reads a record out of it can be verified.

use crate::keyed::{distinct_keys, is_first, lemma_value_at, value_of};
use crate::text::same_text;
use vstd::prelude::*;

verus! {

/// A JSON number, as far as a record reads it: an integer from 0 to
/// `u64::MAX`, an integer below 0 down to `i64::MIN`, or anything else.
#[derive(Clone, Copy, Debug, PartialEq, Eq, Structural)]
pub enum JsonNumber {
    Unsigned(u64),
    /// An integer below 0 in a document that was read from text. One that
    /// holds an integer from 0 up is read as that integer all the same.
    Negative(i64),
    /// A number with a fraction or an exponent, or an integer beyond the two
    /// ranges. Its value is not kept.
    Fraction,
}

impl JsonNumber {
    /// The integer that the number stands for, if it is one that is kept.
    pub open spec fn integer(self) -> Option<int> {
        match self {
            JsonNumber::Unsigned(u) => Some(u as int),
            JsonNumber::Negative(i) => Some(i as int),
            JsonNumber::Fraction => None,
        }
    }
}

/// A JSON document.
#[derive(Debug)]
pub enum Json {
    Null,
    Bool(bool),
    Number(JsonNumber),
    Text(String),
    Array(Vec<Json>),
    /// The members in the order of the document.
    Object(Vec<(String, Json)>),
}

/// The mathematical value of a [`Json`] document.
pub enum JsonModel {
    Null,
    Bool(bool),
    Number(JsonNumber),
    Text(Seq<char>),
    Array(Seq<JsonModel>),
    Object(Seq<(Seq<char>, JsonModel)>),
}

impl View for Json {
    type V = JsonModel;

    open spec fn view(&self) -> JsonModel
        decreases self,
    {
        match self {
            Json::Null => JsonModel::Null,
            Json::Bool(b) => JsonModel::Bool(*b),
            Json::Number(n) => JsonModel::Number(*n),
            Json::Text(s) => JsonModel::Text(s@),
            Json::Array(items) => JsonModel::Array(items_view(items@)),
            Json::Object(members) => JsonModel::Object(members_view(members@)),
        }
    }
}

/// The values of the items of an array.
pub open spec fn items_view(items: Seq<Json>) -> Seq<JsonModel>
    decreases items,
{
    Seq::new(items.len(), |i: int| if 0 <= i < items.len() { items[i]@ } else { JsonModel::Null })
}

/// The names and values of the members of an object.
pub open spec fn members_view(members: Seq<(String, Json)>) -> Seq<(Seq<char>, JsonModel)>
    decreases members,
{
    Seq::new(
        members.len(),
        |i: int|
            if 0 <= i < members.len() {
                (members[i].0@, members[i].1@)
            } else {
                (Seq::empty(), JsonModel::Null)
            },
    )
}

/// The first member of an object under `key`.
pub fn find_member<'a>(members: &'a Vec<(String, Json)>, key: &str) -> (r: Option<&'a Json>)
    ensures
        match r {
            Some(value) => value_of(members_view(members@), key@) == Some(value@),
            None => value_of(members_view(members@), key@) is None,
        },
{
    let ghost model = members_view(members@);
    let mut i: usize = 0;
    while i < members.len()
        invariant
            i <= members.len(),
            model == members_view(members@),
            forall|j: int| 0 <= j < i ==> (#[trigger] model[j]).0 != key@,
        decreases members.len() - i,
    {
        if same_text(members[i].0.as_str(), key) {
            proof {
                assert(model[i as int].0 == key@);
                assert(is_first(model, key@, i as int));
                lemma_value_at(model, key@, i as int);
            }
            return Some(&members[i].1);
        }
        i += 1;
    }
    None
}

impl JsonNumber {
    /// Whether the number is an integer written in its own range: one from 0
    /// up as unsigned, one below 0 as negative.
    pub open spec fn is_plain(self) -> bool {
        match self {
            JsonNumber::Unsigned(_) => true,
            JsonNumber::Negative(i) => i < 0,
            JsonNumber::Fraction => false,
        }
    }
}

/// Whether a document can be written out as it stands: each number in it is
/// an integer in its own range, and no object in it has two members under
/// one name.
pub open spec fn writable(doc: JsonModel) -> bool
    decreases doc,
{
    match doc {
        JsonModel::Number(n) => n.is_plain(),
        JsonModel::Array(items) => forall|i: int|
            0 <= i < items.len() ==> writable(#[trigger] items[i]),
        JsonModel::Object(members) => distinct_keys(members) && forall|i: int|
            0 <= i < members.len() ==> writable((#[trigger] members[i]).1),
        _ => true,
    }
}

} // verus!
