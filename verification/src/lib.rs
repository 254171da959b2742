//! Record storage for a character-sheet editor: one JSON file per character
//! in a per-user data directory.
//!
//! The library holds the record type ([`character`]), its JSON form
//! ([`codec`], [`decode`], [`encode`]), the naming of the record files
//! ([`layout`]) and the decisions of listing, saving and deleting ([`store`]);
//! [`laws`] states what holds of them together. Reading and writing the files
//! is left to the caller.

pub mod character;
pub mod codec;
pub mod decode;
pub mod directory;
pub mod encode;
pub mod error;
pub mod fields;
pub mod json;
pub mod keyed;
pub mod laws;
pub mod layout;
pub mod proficiency;
pub mod roundtrip;
pub mod store;
pub mod text;
pub mod value;
