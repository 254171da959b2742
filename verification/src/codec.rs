//! A record as the text of its file.
//!
//! The text is JSON. `serde_json` reads and writes the text; the record is
//! read out of the document, and written as one, by the library's own code.

use crate::character::{Character, CharacterView};
use crate::decode::{decode_character, decoded};
use crate::encode::{encode_character, encoded};
use crate::error::{StorageError, StorageFailure};
use crate::json::Json;
use crate::roundtrip::lemma_encoded_is_writable;
use crate::value::{parse_document, parsed_text, render_document, rendered_text};
use vstd::prelude::*;

verus! {

/// The record that a text holds: the text is one JSON document, and the
/// document is a record. `None` where either fails.
pub open spec fn record_in(text: Seq<char>) -> Option<CharacterView> {
    match parsed_text(text) {
        Some(doc) => match decoded(doc) {
            Ok(c) => Some(c),
            Err(_) => None,
        },
        None => None,
    }
}

/// The text of a record: that of its document. `None` where the document
/// cannot be written.
pub open spec fn text_of(c: CharacterView) -> Option<Seq<char>> {
    rendered_text(encoded(c))
}

/// Whether `e` is the error that reading `text` gives: a parse error, which
/// names the field that failed where the text is a JSON document. Where the
/// text is none, the cause is what `serde_json` says of it.
pub open spec fn is_parse_failure(text: Seq<char>, e: StorageFailure) -> bool {
    &&& record_in(text) is None
    &&& e is Parse
    &&& parsed_text(text) matches Some(doc) ==> e == StorageFailure::Parse(
        decoded(doc)->Err_0.message(),
    )
}

/// What reading a record gives, from what reading the document gave: the
/// document's record, or a parse error with the cause in words.
pub fn record_from(parsed: Result<Json, String>) -> (r: Result<Character, StorageError>)
    ensures
        match (parsed, r) {
            (Ok(doc), Ok(c)) => decoded(doc@) == Ok::<_, crate::fields::DecodeFailure>(c@),
            (Ok(doc), Err(e)) => decoded(doc@) is Err && e@ == StorageFailure::Parse(
                decoded(doc@)->Err_0.message(),
            ),
            (Err(cause), Ok(_)) => false,
            (Err(cause), Err(e)) => e@ == StorageFailure::Parse(cause@),
        },
{
    match parsed {
        Ok(doc) => match decode_character(&doc) {
            Ok(c) => Ok(c),
            Err(e) => Err(StorageError::Parse(e.message())),
        },
        Err(cause) => Err(StorageError::Parse(cause)),
    }
}

/// What writing a record gives, from what writing the document gave: the
/// text, or a serialization error with the cause in words.
pub fn text_from(rendered: Result<String, String>) -> (r: Result<String, StorageError>)
    ensures
        match (rendered, r) {
            (Ok(text), Ok(t)) => t == text,
            (Err(cause), Err(e)) => e@ == StorageFailure::Serialize(cause@),
            _ => false,
        },
{
    match rendered {
        Ok(text) => Ok(text),
        Err(cause) => Err(StorageError::Serialize(cause)),
    }
}

/// Reads a record from the text of its file.
///
/// Succeeds exactly where [`record_in`] has a record, and gives that record.
/// Every failure is a parse error, as [`is_parse_failure`] says.
pub fn parse_character(text: &str) -> (r: Result<Character, StorageError>)
    ensures
        match r {
            Ok(c) => record_in(text@) == Some(c@),
            Err(e) => is_parse_failure(text@, e@),
        },
{
    record_from(parse_document(text))
}

/// Writes a record as the text of its file.
///
/// Succeeds exactly where [`text_of`] has a text, and gives that text. Every
/// failure is a serialization error.
pub fn serialize_character(c: &Character) -> (r: Result<String, StorageError>)
    ensures
        match r {
            Ok(text) => text_of(c@) == Some(text@),
            Err(e) => text_of(c@) is None && e@ is Serialize,
        },
{
    let doc = encode_character(c);
    proof {
        lemma_encoded_is_writable(c@);
    }
    text_from(render_document(&doc))
}

} // verus!
