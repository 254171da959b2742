//! The failures of the store.

use crate::text::joined;
use vstd::prelude::*;

verus! {

/// A failure of the store. Each holds the cause in words, as the step that
/// failed gave it.
#[derive(Clone, Debug, PartialEq, Eq)]
pub enum StorageError {
    /// The storage directory could not be created.
    CreateDirectory(String),
    /// The storage directory could not be listed.
    ReadDirectory(String),
    /// An entry of the storage directory could not be read.
    ReadEntry(String),
    /// A record file could not be read.
    ReadFile { path: String, cause: String },
    /// A record file could not be written.
    WriteFile(String),
    /// A record file could not be removed.
    DeleteFile(String),
    /// The text of a record file is not a record.
    Parse(String),
    /// A record could not be written as text.
    Serialize(String),
}

/// The mathematical value of a [`StorageError`].
pub enum StorageFailure {
    CreateDirectory(Seq<char>),
    ReadDirectory(Seq<char>),
    ReadEntry(Seq<char>),
    ReadFile { path: Seq<char>, cause: Seq<char> },
    WriteFile(Seq<char>),
    DeleteFile(Seq<char>),
    Parse(Seq<char>),
    Serialize(Seq<char>),
}

/// What a failure is about.
#[derive(Clone, Copy, Debug, PartialEq, Eq, Structural)]
pub enum FailureKind {
    /// The storage directory cannot be created, listed or read.
    Directory,
    /// One record file cannot be read, written or removed.
    File,
    /// A record cannot be read from its text or written as text.
    Serialization,
}

impl View for StorageError {
    type V = StorageFailure;

    open spec fn view(&self) -> StorageFailure {
        match self {
            StorageError::CreateDirectory(cause) => StorageFailure::CreateDirectory(cause@),
            StorageError::ReadDirectory(cause) => StorageFailure::ReadDirectory(cause@),
            StorageError::ReadEntry(cause) => StorageFailure::ReadEntry(cause@),
            StorageError::ReadFile { path, cause } => StorageFailure::ReadFile {
                path: path@,
                cause: cause@,
            },
            StorageError::WriteFile(cause) => StorageFailure::WriteFile(cause@),
            StorageError::DeleteFile(cause) => StorageFailure::DeleteFile(cause@),
            StorageError::Parse(cause) => StorageFailure::Parse(cause@),
            StorageError::Serialize(cause) => StorageFailure::Serialize(cause@),
        }
    }
}

impl StorageFailure {
    /// The failure in words: what failed, the path where one is known, and
    /// the cause.
    pub open spec fn message(self) -> Seq<char> {
        match self {
            StorageFailure::CreateDirectory(cause) => "Failed to create directory: "@ + cause,
            StorageFailure::ReadDirectory(cause) => "Failed to read directory: "@ + cause,
            StorageFailure::ReadEntry(cause) => "Failed to read entry: "@ + cause,
            StorageFailure::ReadFile { path, cause } => "Failed to read file "@ + path + ": "@
                + cause,
            StorageFailure::WriteFile(cause) => "Failed to write file: "@ + cause,
            StorageFailure::DeleteFile(cause) => "Failed to delete file: "@ + cause,
            StorageFailure::Parse(cause) => "Failed to parse character: "@ + cause,
            StorageFailure::Serialize(cause) => "Failed to serialize character: "@ + cause,
        }
    }

    /// What the failure is about.
    pub open spec fn kind(self) -> FailureKind {
        match self {
            StorageFailure::CreateDirectory(_) => FailureKind::Directory,
            StorageFailure::ReadDirectory(_) => FailureKind::Directory,
            StorageFailure::ReadEntry(_) => FailureKind::Directory,
            StorageFailure::ReadFile { .. } => FailureKind::File,
            StorageFailure::WriteFile(_) => FailureKind::File,
            StorageFailure::DeleteFile(_) => FailureKind::File,
            StorageFailure::Parse(_) => FailureKind::Serialization,
            StorageFailure::Serialize(_) => FailureKind::Serialization,
        }
    }
}

impl StorageError {
    /// The error in words, as the caller of the store is told.
    pub fn message(&self) -> (r: String)
        ensures
            r@ == self@.message(),
    {
        match self {
            StorageError::CreateDirectory(cause) => joined(
                "Failed to create directory: ",
                cause.as_str(),
            ),
            StorageError::ReadDirectory(cause) => joined("Failed to read directory: ", cause.as_str()),
            StorageError::ReadEntry(cause) => joined("Failed to read entry: ", cause.as_str()),
            StorageError::ReadFile { path, cause } => {
                let mut r = joined("Failed to read file ", path.as_str());
                r.append(": ");
                r.append(cause.as_str());
                r
            },
            StorageError::WriteFile(cause) => joined("Failed to write file: ", cause.as_str()),
            StorageError::DeleteFile(cause) => joined("Failed to delete file: ", cause.as_str()),
            StorageError::Parse(cause) => joined("Failed to parse character: ", cause.as_str()),
            StorageError::Serialize(cause) => joined(
                "Failed to serialize character: ",
                cause.as_str(),
            ),
        }
    }

    /// What the error is about.
    pub fn kind(&self) -> (r: FailureKind)
        ensures
            r == self@.kind(),
    {
        match self {
            StorageError::CreateDirectory(_) => FailureKind::Directory,
            StorageError::ReadDirectory(_) => FailureKind::Directory,
            StorageError::ReadEntry(_) => FailureKind::Directory,
            StorageError::ReadFile { .. } => FailureKind::File,
            StorageError::WriteFile(_) => FailureKind::File,
            StorageError::DeleteFile(_) => FailureKind::File,
            StorageError::Parse(_) => FailureKind::Serialization,
            StorageError::Serialize(_) => FailureKind::Serialization,
        }
    }
}

} // verus!
