//! Reading the members of a JSON object as the fields of a record.
//!
//! A field is required, optional or has a default. A required field that is
//! missing is an error. An optional field that is missing or `null` is
//! absent. A field with a default that is missing takes the default. A member
//! that is there and is not of the field's type is an error in each case.

use crate::character::texts_view;
use crate::json::{find_member, items_view, members_view, Json, JsonModel, JsonNumber};
use crate::keyed::{value_of, with_value};
use crate::proficiency::ProficiencyMap;
use crate::text::joined;
use vstd::prelude::*;

verus! {

/// Why a JSON document is not a record.
#[derive(Clone, Debug, PartialEq, Eq)]
pub enum DecodeError {
    /// The document, or a member that holds a record of its own, is no object.
    NotAnObject,
    /// A required field has no member.
    MissingField(String),
    /// The member of a field is not of the field's type.
    InvalidField(String),
}

/// The mathematical value of a [`DecodeError`].
pub enum DecodeFailure {
    NotAnObject,
    MissingField(Seq<char>),
    InvalidField(Seq<char>),
}

impl View for DecodeError {
    type V = DecodeFailure;

    open spec fn view(&self) -> DecodeFailure {
        match self {
            DecodeError::NotAnObject => DecodeFailure::NotAnObject,
            DecodeError::MissingField(name) => DecodeFailure::MissingField(name@),
            DecodeError::InvalidField(name) => DecodeFailure::InvalidField(name@),
        }
    }
}

impl DecodeFailure {
    /// The failure in words.
    pub open spec fn message(self) -> Seq<char> {
        match self {
            DecodeFailure::NotAnObject => "expected a JSON object"@,
            DecodeFailure::MissingField(name) => "missing field `"@ + name + "`"@,
            DecodeFailure::InvalidField(name) => "invalid value for field `"@ + name + "`"@,
        }
    }
}

impl DecodeError {
    /// The error in words.
    pub fn message(&self) -> (r: String)
        ensures
            r@ == self@.message(),
    {
        match self {
            DecodeError::NotAnObject => "expected a JSON object".to_owned(),
            DecodeError::MissingField(name) => {
                let mut r = joined("missing field `", name.as_str());
                r.append("`");
                r
            },
            DecodeError::InvalidField(name) => {
                let mut r = joined("invalid value for field `", name.as_str());
                r.append("`");
                r
            },
        }
    }
}

/// The text of a document that is a string.
pub open spec fn as_text(doc: JsonModel) -> Option<Seq<char>> {
    match doc {
        JsonModel::Text(s) => Some(s),
        _ => None,
    }
}

/// The truth value of a document that is `true` or `false`.
pub open spec fn as_bool(doc: JsonModel) -> Option<bool> {
    match doc {
        JsonModel::Bool(b) => Some(b),
        _ => None,
    }
}

/// The integer of a document that is a number from `low` to `high`.
pub open spec fn as_integer(doc: JsonModel, low: int, high: int) -> Option<int> {
    match doc {
        JsonModel::Number(n) => match n.integer() {
            Some(i) => if low <= i <= high {
                Some(i)
            } else {
                None
            },
            None => None,
        },
        _ => None,
    }
}

/// The texts of a document that is an array of strings.
pub open spec fn as_texts(doc: JsonModel) -> Option<Seq<Seq<char>>> {
    match doc {
        JsonModel::Array(items) => if forall|i: int|
            0 <= i < items.len() ==> as_text(#[trigger] items[i]) is Some {
            Some(items.map_values(|item: JsonModel| as_text(item)->0))
        } else {
            None
        },
        _ => None,
    }
}

/// The numbers of a document that is an array of integers from 0 to 255.
pub open spec fn as_small_numbers(doc: JsonModel) -> Option<Seq<u8>> {
    match doc {
        JsonModel::Array(items) => if forall|i: int|
            0 <= i < items.len() ==> as_integer(#[trigger] items[i], 0, 255) is Some {
            Some(items.map_values(|item: JsonModel| as_integer(item, 0, 255)->0 as u8))
        } else {
            None
        },
        _ => None,
    }
}

/// The text of a string.
pub fn read_text(doc: &Json) -> (r: Option<String>)
    ensures
        match r {
            Some(s) => as_text(doc@) == Some(s@),
            None => as_text(doc@) is None,
        },
{
    match doc {
        Json::Text(s) => Some(s.clone()),
        _ => None,
    }
}

/// The truth value of `true` or `false`.
pub fn read_bool(doc: &Json) -> (r: Option<bool>)
    ensures
        r == as_bool(doc@),
{
    match doc {
        Json::Bool(b) => Some(*b),
        _ => None,
    }
}

/// The integer of a number from `low` to `high`.
pub fn read_integer(doc: &Json, low: i128, high: i128) -> (r: Option<i128>)
    ensures
        match r {
            Some(i) => as_integer(doc@, low as int, high as int) == Some(i as int),
            None => as_integer(doc@, low as int, high as int) is None,
        },
{
    let i: i128 = match doc {
        Json::Number(JsonNumber::Unsigned(u)) => *u as i128,
        Json::Number(JsonNumber::Negative(i)) => *i as i128,
        _ => {
            return None;
        },
    };
    if low <= i && i <= high {
        Some(i)
    } else {
        None
    }
}

/// The texts of an array of strings.
pub fn read_texts(doc: &Json) -> (r: Option<Vec<String>>)
    ensures
        match r {
            Some(texts) => as_texts(doc@) == Some(texts_view(texts@)),
            None => as_texts(doc@) is None,
        },
{
    let items = match doc {
        Json::Array(items) => items,
        _ => {
            return None;
        },
    };
    let ghost model = items_view(items@);
    proof {
        assert(*doc == Json::Array(*items));
        assert(doc@ == JsonModel::Array(model));
    }
    let mut texts: Vec<String> = Vec::new();
    let mut i: usize = 0;
    while i < items.len()
        invariant
            i <= items.len(),
            doc@ == JsonModel::Array(model),
            model.len() == items.len(),
            forall|j: int| 0 <= j < items.len() ==> model[j] == (#[trigger] items[j])@,
            texts.len() == i,
            forall|j: int| 0 <= j < i ==> as_text(#[trigger] model[j]) == Some(texts[j]@),
        decreases items.len() - i,
    {
        match read_text(&items[i]) {
            Some(text) => {
                texts.push(text);
            },
            None => {
                assert(as_text(model[i as int]) is None);
                return None;
            },
        }
        i += 1;
    }
    proof {
        assert(as_texts(doc@)->0 =~= texts_view(texts@));
    }
    Some(texts)
}

/// The numbers of an array of integers from 0 to 255.
pub fn read_small_numbers(doc: &Json) -> (r: Option<Vec<u8>>)
    ensures
        match r {
            Some(numbers) => as_small_numbers(doc@) == Some(numbers@),
            None => as_small_numbers(doc@) is None,
        },
{
    let items = match doc {
        Json::Array(items) => items,
        _ => {
            return None;
        },
    };
    let ghost model = items_view(items@);
    proof {
        assert(*doc == Json::Array(*items));
        assert(doc@ == JsonModel::Array(model));
    }
    let mut numbers: Vec<u8> = Vec::new();
    let mut i: usize = 0;
    while i < items.len()
        invariant
            i <= items.len(),
            doc@ == JsonModel::Array(model),
            model.len() == items.len(),
            forall|j: int| 0 <= j < items.len() ==> model[j] == (#[trigger] items[j])@,
            numbers.len() == i,
            forall|j: int|
                0 <= j < i ==> as_integer(#[trigger] model[j], 0, 255) == Some(numbers[j] as int),
        decreases items.len() - i,
    {
        match read_integer(&items[i], 0, 255) {
            Some(n) => {
                numbers.push(n as u8);
            },
            None => {
                assert(as_integer(model[i as int], 0, 255) is None);
                return None;
            },
        }
        i += 1;
    }
    proof {
        assert(as_small_numbers(doc@)->0 =~= numbers@);
    }
    Some(numbers)
}

/// The bonuses that the members of an object give, taken in their order: a
/// name that comes again overwrites its bonus.
pub open spec fn collected(members: Seq<(Seq<char>, JsonModel)>) -> Seq<(Seq<char>, u8)>
    decreases members.len(),
{
    if members.len() == 0 {
        Seq::empty()
    } else {
        with_value(
            collected(members.drop_last()),
            members.last().0,
            as_integer(members.last().1, 0, 255)->0 as u8,
        )
    }
}

/// The bonuses of a document that is an object of integers from 0 to 255.
pub open spec fn as_bonuses(doc: JsonModel) -> Option<Seq<(Seq<char>, u8)>> {
    match doc {
        JsonModel::Object(members) => if forall|i: int|
            0 <= i < members.len() ==> as_integer((#[trigger] members[i]).1, 0, 255) is Some {
            Some(collected(members))
        } else {
            None
        },
        _ => None,
    }
}

/// The bonuses of an object of integers from 0 to 255.
pub fn read_bonuses(doc: &Json) -> (r: Option<ProficiencyMap>)
    ensures
        match r {
            Some(bonuses) => as_bonuses(doc@) == Some(bonuses@),
            None => as_bonuses(doc@) is None,
        },
{
    let members = match doc {
        Json::Object(members) => members,
        _ => {
            return None;
        },
    };
    let ghost model = members_view(members@);
    proof {
        assert(*doc == Json::Object(*members));
        assert(doc@ == JsonModel::Object(model));
    }
    let mut bonuses = ProficiencyMap::new();
    let mut i: usize = 0;
    while i < members.len()
        invariant
            i <= members.len(),
            model == members_view(members@),
            doc@ == JsonModel::Object(model),
            forall|j: int| 0 <= j < i ==> as_integer((#[trigger] model[j]).1, 0, 255) is Some,
            bonuses@ == collected(model.take(i as int)),
        decreases members.len() - i,
    {
        match read_integer(&members[i].1, 0, 255) {
            Some(n) => {
                let _ = bonuses.insert(members[i].0.clone(), n as u8);
                proof {
                    assert(model.take(i + 1).drop_last() =~= model.take(i as int));
                }
            },
            None => {
                assert(as_integer(model[i as int].1, 0, 255) is None);
                return None;
            },
        }
        i += 1;
    }
    proof {
        assert(model.take(i as int) =~= model);
    }
    Some(bonuses)
}

/// What a required field reads from the member found for it.
pub open spec fn required<T>(
    key: Seq<char>,
    found: Option<JsonModel>,
    read: spec_fn(JsonModel) -> Option<T>,
) -> Result<T, DecodeFailure> {
    match found {
        None => Err(DecodeFailure::MissingField(key)),
        Some(value) => match read(value) {
            Some(t) => Ok(t),
            None => Err(DecodeFailure::InvalidField(key)),
        },
    }
}

/// What an optional field reads from the member found for it.
pub open spec fn optional<T>(
    key: Seq<char>,
    found: Option<JsonModel>,
    read: spec_fn(JsonModel) -> Option<T>,
) -> Result<Option<T>, DecodeFailure> {
    match found {
        None => Ok(None),
        Some(JsonModel::Null) => Ok(None),
        Some(value) => match read(value) {
            Some(t) => Ok(Some(t)),
            None => Err(DecodeFailure::InvalidField(key)),
        },
    }
}

/// What a field with a default reads from the member found for it.
pub open spec fn defaulted<T>(
    key: Seq<char>,
    found: Option<JsonModel>,
    read: spec_fn(JsonModel) -> Option<T>,
    default: T,
) -> Result<T, DecodeFailure> {
    match found {
        None => Ok(default),
        Some(value) => match read(value) {
            Some(t) => Ok(t),
            None => Err(DecodeFailure::InvalidField(key)),
        },
    }
}

/// The members of an object, as the fields read them.
pub type Members = Seq<(Seq<char>, JsonModel)>;

pub open spec fn required_text(m: Members, key: Seq<char>) -> Result<Seq<char>, DecodeFailure> {
    required(key, value_of(m, key), |v: JsonModel| as_text(v))
}

pub open spec fn optional_text(m: Members, key: Seq<char>) -> Result<
    Option<Seq<char>>,
    DecodeFailure,
> {
    optional(key, value_of(m, key), |v: JsonModel| as_text(v))
}

pub open spec fn defaulted_text(m: Members, key: Seq<char>, default: Seq<char>) -> Result<
    Seq<char>,
    DecodeFailure,
> {
    defaulted(key, value_of(m, key), |v: JsonModel| as_text(v), default)
}

pub open spec fn required_integer(m: Members, key: Seq<char>, low: int, high: int) -> Result<
    int,
    DecodeFailure,
> {
    required(key, value_of(m, key), |v: JsonModel| as_integer(v, low, high))
}

pub open spec fn optional_integer(m: Members, key: Seq<char>, low: int, high: int) -> Result<
    Option<int>,
    DecodeFailure,
> {
    optional(key, value_of(m, key), |v: JsonModel| as_integer(v, low, high))
}

pub open spec fn defaulted_integer(
    m: Members,
    key: Seq<char>,
    low: int,
    high: int,
    default: int,
) -> Result<int, DecodeFailure> {
    defaulted(key, value_of(m, key), |v: JsonModel| as_integer(v, low, high), default)
}

pub open spec fn defaulted_bool(m: Members, key: Seq<char>, default: bool) -> Result<
    bool,
    DecodeFailure,
> {
    defaulted(key, value_of(m, key), |v: JsonModel| as_bool(v), default)
}

pub open spec fn required_texts(m: Members, key: Seq<char>) -> Result<
    Seq<Seq<char>>,
    DecodeFailure,
> {
    required(key, value_of(m, key), |v: JsonModel| as_texts(v))
}

pub open spec fn defaulted_texts(m: Members, key: Seq<char>) -> Result<
    Seq<Seq<char>>,
    DecodeFailure,
> {
    defaulted(key, value_of(m, key), |v: JsonModel| as_texts(v), Seq::empty())
}

pub open spec fn required_small_numbers(m: Members, key: Seq<char>) -> Result<
    Seq<u8>,
    DecodeFailure,
> {
    required(key, value_of(m, key), |v: JsonModel| as_small_numbers(v))
}

pub open spec fn defaulted_bonuses(m: Members, key: Seq<char>) -> Result<
    Seq<(Seq<char>, u8)>,
    DecodeFailure,
> {
    defaulted(key, value_of(m, key), |v: JsonModel| as_bonuses(v), Seq::empty())
}

/// The error of a required field that has no member.
fn missing<T>(key: &str) -> (r: Result<T, DecodeError>)
    ensures
        r is Err,
        r->Err_0@ == DecodeFailure::MissingField(key@),
{
    Err(DecodeError::MissingField(key.to_owned()))
}

/// The error of a field whose member is not of its type.
fn invalid<T>(key: &str) -> (r: Result<T, DecodeError>)
    ensures
        r is Err,
        r->Err_0@ == DecodeFailure::InvalidField(key@),
{
    Err(DecodeError::InvalidField(key.to_owned()))
}

/// Reads a required field that holds a string.
pub fn read_required_text(members: &Vec<(String, Json)>, key: &str) -> (r: Result<
    String,
    DecodeError,
>)
    ensures
        match r {
            Ok(t) => required_text(members_view(members@), key@) == Ok::<_, DecodeFailure>(t@),
            Err(e) => required_text(members_view(members@), key@) == Err::<Seq<char>, _>(e@),
        },
{
    match find_member(members, key) {
        None => missing(key),
        Some(value) => match read_text(value) {
            Some(t) => Ok(t),
            None => invalid(key),
        },
    }
}

/// Reads an optional field that holds a string.
pub fn read_optional_text(members: &Vec<(String, Json)>, key: &str) -> (r: Result<
    Option<String>,
    DecodeError,
>)
    ensures
        match r {
            Ok(Some(t)) => optional_text(members_view(members@), key@) == Ok::<_, DecodeFailure>(
                Some(t@),
            ),
            Ok(None) => optional_text(members_view(members@), key@) == Ok::<_, DecodeFailure>(
                None::<Seq<char>>,
            ),
            Err(e) => optional_text(members_view(members@), key@) == Err::<Option<Seq<char>>, _>(
                e@,
            ),
        },
{
    match find_member(members, key) {
        None => Ok(None),
        Some(Json::Null) => Ok(None),
        Some(value) => match read_text(value) {
            Some(t) => Ok(Some(t)),
            None => invalid(key),
        },
    }
}

/// Reads a field that holds a string and has a default.
pub fn read_defaulted_text(members: &Vec<(String, Json)>, key: &str, default: String) -> (r:
    Result<String, DecodeError>)
    ensures
        match r {
            Ok(t) => defaulted_text(members_view(members@), key@, default@) == Ok::<
                _,
                DecodeFailure,
            >(t@),
            Err(e) => defaulted_text(members_view(members@), key@, default@) == Err::<Seq<char>, _>(
                e@,
            ),
        },
{
    match find_member(members, key) {
        None => Ok(default),
        Some(value) => match read_text(value) {
            Some(t) => Ok(t),
            None => invalid(key),
        },
    }
}

/// Reads a required field that holds an integer from `low` to `high`.
pub fn read_required_integer(members: &Vec<(String, Json)>, key: &str, low: i128, high: i128) -> (r:
    Result<i128, DecodeError>)
    ensures
        match r {
            Ok(i) => required_integer(members_view(members@), key@, low as int, high as int) == Ok::<
                _,
                DecodeFailure,
            >(i as int),
            Err(e) => required_integer(members_view(members@), key@, low as int, high as int)
                == Err::<int, _>(e@),
        },
{
    match find_member(members, key) {
        None => missing(key),
        Some(value) => match read_integer(value, low, high) {
            Some(i) => Ok(i),
            None => invalid(key),
        },
    }
}

/// Reads an optional field that holds an integer from `low` to `high`.
pub fn read_optional_integer(members: &Vec<(String, Json)>, key: &str, low: i128, high: i128) -> (r:
    Result<Option<i128>, DecodeError>)
    ensures
        match r {
            Ok(Some(i)) => optional_integer(members_view(members@), key@, low as int, high as int)
                == Ok::<_, DecodeFailure>(Some(i as int)),
            Ok(None) => optional_integer(members_view(members@), key@, low as int, high as int)
                == Ok::<_, DecodeFailure>(None::<int>),
            Err(e) => optional_integer(members_view(members@), key@, low as int, high as int)
                == Err::<Option<int>, _>(e@),
        },
{
    match find_member(members, key) {
        None => Ok(None),
        Some(Json::Null) => Ok(None),
        Some(value) => match read_integer(value, low, high) {
            Some(i) => Ok(Some(i)),
            None => invalid(key),
        },
    }
}

/// Reads a field that holds an integer from `low` to `high` and has a default.
pub fn read_defaulted_integer(
    members: &Vec<(String, Json)>,
    key: &str,
    low: i128,
    high: i128,
    default: i128,
) -> (r: Result<i128, DecodeError>)
    ensures
        match r {
            Ok(i) => defaulted_integer(
                members_view(members@),
                key@,
                low as int,
                high as int,
                default as int,
            ) == Ok::<_, DecodeFailure>(i as int),
            Err(e) => defaulted_integer(
                members_view(members@),
                key@,
                low as int,
                high as int,
                default as int,
            ) == Err::<int, _>(e@),
        },
{
    match find_member(members, key) {
        None => Ok(default),
        Some(value) => match read_integer(value, low, high) {
            Some(i) => Ok(i),
            None => invalid(key),
        },
    }
}

/// Reads a field that holds `true` or `false` and has a default.
pub fn read_defaulted_bool(members: &Vec<(String, Json)>, key: &str, default: bool) -> (r: Result<
    bool,
    DecodeError,
>)
    ensures
        match r {
            Ok(b) => defaulted_bool(members_view(members@), key@, default) == Ok::<_, DecodeFailure>(
                b,
            ),
            Err(e) => defaulted_bool(members_view(members@), key@, default) == Err::<bool, _>(e@),
        },
{
    match find_member(members, key) {
        None => Ok(default),
        Some(value) => match read_bool(value) {
            Some(b) => Ok(b),
            None => invalid(key),
        },
    }
}

/// Reads a required field that holds an array of strings.
pub fn read_required_texts(members: &Vec<(String, Json)>, key: &str) -> (r: Result<
    Vec<String>,
    DecodeError,
>)
    ensures
        match r {
            Ok(texts) => required_texts(members_view(members@), key@) == Ok::<_, DecodeFailure>(
                texts_view(texts@),
            ),
            Err(e) => required_texts(members_view(members@), key@) == Err::<Seq<Seq<char>>, _>(e@),
        },
{
    match find_member(members, key) {
        None => missing(key),
        Some(value) => match read_texts(value) {
            Some(texts) => Ok(texts),
            None => invalid(key),
        },
    }
}

/// Reads a field that holds an array of strings and is empty by default.
pub fn read_defaulted_texts(members: &Vec<(String, Json)>, key: &str) -> (r: Result<
    Vec<String>,
    DecodeError,
>)
    ensures
        match r {
            Ok(texts) => defaulted_texts(members_view(members@), key@) == Ok::<_, DecodeFailure>(
                texts_view(texts@),
            ),
            Err(e) => defaulted_texts(members_view(members@), key@) == Err::<Seq<Seq<char>>, _>(e@),
        },
{
    match find_member(members, key) {
        None => {
            let texts: Vec<String> = Vec::new();
            assert(texts_view(texts@) =~= Seq::<Seq<char>>::empty());
            Ok(texts)
        },
        Some(value) => match read_texts(value) {
            Some(texts) => Ok(texts),
            None => invalid(key),
        },
    }
}

/// Reads a required field that holds an array of integers from 0 to 255.
pub fn read_required_small_numbers(members: &Vec<(String, Json)>, key: &str) -> (r: Result<
    Vec<u8>,
    DecodeError,
>)
    ensures
        match r {
            Ok(numbers) => required_small_numbers(members_view(members@), key@) == Ok::<
                _,
                DecodeFailure,
            >(numbers@),
            Err(e) => required_small_numbers(members_view(members@), key@) == Err::<Seq<u8>, _>(e@),
        },
{
    match find_member(members, key) {
        None => missing(key),
        Some(value) => match read_small_numbers(value) {
            Some(numbers) => Ok(numbers),
            None => invalid(key),
        },
    }
}

/// Reads a field that holds an object of bonuses and is empty by default.
pub fn read_defaulted_bonuses(members: &Vec<(String, Json)>, key: &str) -> (r: Result<
    ProficiencyMap,
    DecodeError,
>)
    ensures
        match r {
            Ok(bonuses) => defaulted_bonuses(members_view(members@), key@) == Ok::<
                _,
                DecodeFailure,
            >(bonuses@),
            Err(e) => defaulted_bonuses(members_view(members@), key@) == Err::<
                Seq<(Seq<char>, u8)>,
                _,
            >(e@),
        },
{
    match find_member(members, key) {
        None => Ok(ProficiencyMap::new()),
        Some(value) => match read_bonuses(value) {
            Some(bonuses) => Ok(bonuses),
            None => invalid(key),
        },
    }
}

} // verus!
