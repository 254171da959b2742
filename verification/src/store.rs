//! The three operations of the store, as steps that a caller with a file
//! system takes, and as operations on a directory held in memory.
//!
//! The library touches no file. For each operation it has a step function:
//! the caller does what the step asks (create the directory, read a file,
//! write one) and hands back what came of it; the step function says what to
//! do next, and in the end what the operation returns. [`MemoryStore`] takes
//! the same steps against a [`Directory`].

use crate::character::{Character, CharacterView};
use crate::codec::{is_parse_failure, parse_character, record_in, serialize_character, text_of};
use crate::directory::{Directory, Files};
use crate::error::{StorageError, StorageFailure};
use crate::keyed::{with_value, without_key};
use crate::layout::{is_record_file, is_record_name, record_file_name, record_name};
use vstd::pervasive::unreached;
use vstd::prelude::*;

verus! {

/// The values of a list of records.
pub open spec fn records_view(records: Seq<Character>) -> Seq<CharacterView> {
    records.map_values(|c: Character| c@)
}

/// What the caller met while it listed the storage directory.
#[derive(Debug)]
pub enum ListEvent {
    /// The storage directory does not exist.
    Missing,
    /// The storage directory could not be opened; the cause in words.
    OpenFailed(String),
    /// The next entry could not be read; the cause in words.
    EntryFailed(String),
    /// The next entry, by its file name.
    Entry(String),
    /// The text of the file that the last step asked for.
    Content(String),
    /// The file that the last step asked for could not be read.
    ContentFailed { path: String, cause: String },
    /// No entry is left.
    End,
}

/// What the caller does next while listing. Each step but a failure carries
/// the records read so far, which go into the next call.
#[derive(Debug)]
pub enum ListStep {
    /// Go on to the next entry.
    Next(Vec<Character>),
    /// Read the file of the entry just given, then hand in its text.
    Read(Vec<Character>),
    /// The listing is complete: these are the records.
    Done(Vec<Character>),
    /// The listing failed, and no record is returned.
    Failed(StorageError),
}

/// One step of listing the records.
///
/// A directory that is missing gives no records and no error. An entry is
/// read where its name is that of a record file, and passed over otherwise.
/// The text of a record file adds its record after those read before. The
/// first failure ends the listing: an entry or a file that cannot be read, or
/// a text that is no record.
pub fn list_step(records: Vec<Character>, event: ListEvent) -> (step: ListStep)
    ensures
        match event {
            ListEvent::Missing => step matches ListStep::Done(rs) && rs == records,
            ListEvent::OpenFailed(cause) => step matches ListStep::Failed(e) && e@
                == StorageFailure::ReadDirectory(cause@),
            ListEvent::EntryFailed(cause) => step matches ListStep::Failed(e) && e@
                == StorageFailure::ReadEntry(cause@),
            ListEvent::Entry(name) => if is_record_name(name@) {
                step matches ListStep::Read(rs) && rs == records
            } else {
                step matches ListStep::Next(rs) && rs == records
            },
            ListEvent::Content(text) => match record_in(text@) {
                Some(c) => step matches ListStep::Next(rs) && records_view(rs@) == records_view(
                    records@,
                ).push(c),
                None => step matches ListStep::Failed(e) && is_parse_failure(text@, e@),
            },
            ListEvent::ContentFailed { path, cause } => step matches ListStep::Failed(e) && e@
                == (StorageFailure::ReadFile { path: path@, cause: cause@ }),
            ListEvent::End => step matches ListStep::Done(rs) && rs == records,
        },
{
    match event {
        ListEvent::Missing => ListStep::Done(records),
        ListEvent::OpenFailed(cause) => ListStep::Failed(StorageError::ReadDirectory(cause)),
        ListEvent::EntryFailed(cause) => ListStep::Failed(StorageError::ReadEntry(cause)),
        ListEvent::Entry(name) => if is_record_file(name.as_str()) {
            ListStep::Read(records)
        } else {
            ListStep::Next(records)
        },
        ListEvent::Content(text) => match parse_character(text.as_str()) {
            Ok(c) => {
                let mut records = records;
                let ghost before = records@;
                records.push(c);
                proof {
                    assert(records_view(records@) =~= records_view(before).push(c@));
                }
                ListStep::Next(records)
            },
            Err(e) => ListStep::Failed(e),
        },
        ListEvent::ContentFailed { path, cause } => ListStep::Failed(
            StorageError::ReadFile { path, cause },
        ),
        ListEvent::End => ListStep::Done(records),
    }
}

/// What came of the last step of saving a record.
#[derive(Debug)]
pub enum SaveEvent {
    /// The storage directory is there: it was, or it was created.
    DirectoryReady,
    /// The storage directory could not be created; the cause in words.
    DirectoryFailed(String),
    /// The file was written.
    Written,
    /// The file could not be written; the cause in words.
    WriteFailed(String),
}

/// What the caller does next while saving.
#[derive(Debug)]
pub enum SaveStep {
    /// Write this text to the file of this name in the storage directory,
    /// over whatever the file held.
    Write { file_name: String, text: String },
    /// The record is saved.
    Done,
    /// Saving failed.
    Failed(StorageError),
}

/// One step of saving a record. The caller first sees to it that the
/// storage directory exists, and hands in what came of that.
///
/// Once the directory is there the record is written as text, whole, to the
/// file named by its `id`. The first failure ends the operation.
pub fn save_step(c: &Character, event: SaveEvent) -> (step: SaveStep)
    ensures
        match event {
            SaveEvent::DirectoryReady => match text_of(c@) {
                Some(t) => step matches SaveStep::Write { file_name, text } && file_name@
                    == record_name(c@.id) && text@ == t,
                None => step matches SaveStep::Failed(e) && e@ is Serialize,
            },
            SaveEvent::DirectoryFailed(cause) => step matches SaveStep::Failed(e) && e@
                == StorageFailure::CreateDirectory(cause@),
            SaveEvent::Written => step is Done,
            SaveEvent::WriteFailed(cause) => step matches SaveStep::Failed(e) && e@
                == StorageFailure::WriteFile(cause@),
        },
{
    match event {
        SaveEvent::DirectoryReady => match serialize_character(c) {
            Ok(text) => SaveStep::Write { file_name: record_file_name(c.id.as_str()), text },
            Err(e) => SaveStep::Failed(e),
        },
        SaveEvent::DirectoryFailed(cause) => SaveStep::Failed(StorageError::CreateDirectory(cause)),
        SaveEvent::Written => SaveStep::Done,
        SaveEvent::WriteFailed(cause) => SaveStep::Failed(StorageError::WriteFile(cause)),
    }
}

/// What came of the last step of deleting a record.
#[derive(Debug)]
pub enum DeleteEvent {
    /// The file of the record exists.
    Found,
    /// There is no file of the record.
    NotFound,
    /// The file was removed.
    Removed,
    /// The file could not be removed; the cause in words.
    RemoveFailed(String),
}

/// What the caller does next while deleting.
#[derive(Debug)]
pub enum DeleteStep {
    /// Remove the file of the record.
    Remove,
    /// The record is gone.
    Done,
    /// Deleting failed.
    Failed(StorageError),
}

/// One step of deleting a record. The caller first looks whether the file of
/// the record exists, and hands in what it found.
///
/// A record that has no file is deleted already, which is no error. Only a
/// removal that fails is one.
pub fn delete_step(event: DeleteEvent) -> (step: DeleteStep)
    ensures
        match event {
            DeleteEvent::Found => step is Remove,
            DeleteEvent::NotFound => step is Done,
            DeleteEvent::Removed => step is Done,
            DeleteEvent::RemoveFailed(cause) => step matches DeleteStep::Failed(e) && e@
                == StorageFailure::DeleteFile(cause@),
        },
{
    match event {
        DeleteEvent::Found => DeleteStep::Remove,
        DeleteEvent::NotFound => DeleteStep::Done,
        DeleteEvent::Removed => DeleteStep::Done,
        DeleteEvent::RemoveFailed(cause) => DeleteStep::Failed(StorageError::DeleteFile(cause)),
    }
}

/// The records that listing a directory gives, in the order of its files:
/// the record of each file whose name is that of a record file. `None` where
/// the text of one of those files is no record.
pub open spec fn listing_of(files: Files) -> Option<Seq<CharacterView>>
    decreases files.len(),
{
    if files.len() == 0 {
        Some(Seq::empty())
    } else {
        let last = files.last();
        match listing_of(files.drop_last()) {
            None => None,
            Some(before) => if !is_record_name(last.0) {
                Some(before)
            } else {
                match record_in(last.1) {
                    Some(c) => Some(before.push(c)),
                    None => None,
                }
            },
        }
    }
}

/// The text of the first record file that holds no record, if there is one.
pub open spec fn first_corrupt(files: Files) -> Option<Seq<char>>
    decreases files.len(),
{
    if files.len() == 0 {
        None
    } else {
        let last = files.last();
        match first_corrupt(files.drop_last()) {
            Some(text) => Some(text),
            None => if is_record_name(last.0) && record_in(last.1) is None {
                Some(last.1)
            } else {
                None
            },
        }
    }
}

/// The first corrupt file among the first files of a directory is the first
/// corrupt file of the directory.
pub proof fn lemma_first_corrupt_on(files: Files, k: int)
    requires
        0 <= k <= files.len(),
        first_corrupt(files.take(k)) is Some,
    ensures
        first_corrupt(files) == first_corrupt(files.take(k)),
    decreases files.len() - k,
{
    if k < files.len() {
        assert(files.take(k + 1).drop_last() =~= files.take(k));
        lemma_first_corrupt_on(files, k + 1);
    } else {
        assert(files.take(k) =~= files);
    }
}

/// Where the first files of a directory cannot be listed, the directory
/// cannot.
pub proof fn lemma_listing_fails_on(files: Files, k: int)
    requires
        0 <= k <= files.len(),
        listing_of(files.take(k)) is None,
    ensures
        listing_of(files) is None,
    decreases files.len() - k,
{
    if k < files.len() {
        assert(files.take(k + 1).drop_last() =~= files.take(k));
        lemma_listing_fails_on(files, k + 1);
    } else {
        assert(files.take(k) =~= files);
    }
}

/// The files of a storage directory, none where the directory is missing.
pub open spec fn files_in(directory: Option<Files>) -> Files {
    match directory {
        Some(files) => files,
        None => Seq::empty(),
    }
}

/// The storage directory after `c` was saved: the directory exists, and the
/// file named by the record's `id` holds `text`.
pub open spec fn saved(directory: Option<Files>, id: Seq<char>, text: Seq<char>) -> Option<Files> {
    Some(with_value(files_in(directory), record_name(id), text))
}

/// The storage directory after the record of `id` was deleted.
pub open spec fn deleted(directory: Option<Files>, id: Seq<char>) -> Option<Files> {
    match directory {
        Some(files) => Some(without_key(files, record_name(id))),
        None => None,
    }
}

/// A store whose storage directory is held in memory.
#[derive(Debug)]
pub struct MemoryStore {
    /// The storage directory, `None` while it does not exist.
    pub directory: Option<Directory>,
}

impl View for MemoryStore {
    type V = Option<Files>;

    open spec fn view(&self) -> Option<Files> {
        match self.directory {
            Some(d) => Some(d@),
            None => None,
        }
    }
}

impl MemoryStore {
    /// The store before anything was saved: there is no storage directory.
    pub fn new() -> (r: MemoryStore)
        ensures
            r@ is None,
    {
        MemoryStore { directory: None }
    }

    /// Lists the records: all of them, or an error and none.
    ///
    /// Without a storage directory the list is empty. Otherwise it is
    /// [`listing_of`] the directory's files; where that has none, the error
    /// is the parse error of the first record file that holds no record.
    pub fn load_characters(&self) -> (r: Result<Vec<Character>, StorageError>)
        ensures
            match self@ {
                None => r matches Ok(records) && records@.len() == 0,
                Some(files) => match r {
                    Ok(records) => listing_of(files) == Some(records_view(records@)),
                    Err(e) => {
                        &&& listing_of(files) is None
                        &&& first_corrupt(files) matches Some(text) && is_parse_failure(text, e@)
                    },
                },
            },
    {
        let directory = match &self.directory {
            Some(d) => d,
            None => {
                return match list_step(Vec::new(), ListEvent::Missing) {
                    ListStep::Done(records) => Ok(records),
                    _ => unreached(),
                };
            },
        };
        let files = directory.files();
        let ghost model = directory@;
        let mut records: Vec<Character> = Vec::new();
        let mut i: usize = 0;
        proof {
            assert(records_view(records@) =~= Seq::<CharacterView>::empty());
            assert(model.take(0) =~= Seq::<(Seq<char>, Seq<char>)>::empty());
        }
        while i < files.len()
            invariant
                i <= files.len(),
                self@ == Some(model),
                model == crate::directory::files_view(files@),
                listing_of(model.take(i as int)) == Some(records_view(records@)),
                first_corrupt(model.take(i as int)) is None,
            decreases files.len() - i,
        {
            proof {
                assert(model.take(i + 1).drop_last() =~= model.take(i as int));
                assert(model.take(i + 1).last() == model[i as int]);
                assert(model[i as int] == (files[i as int].0@, files[i as int].1@));
            }
            records = match list_step(records, ListEvent::Entry(files[i].0.clone())) {
                ListStep::Next(records) => records,
                ListStep::Read(records) => match list_step(
                    records,
                    ListEvent::Content(files[i].1.clone()),
                ) {
                    ListStep::Next(records) => records,
                    ListStep::Failed(e) => {
                        proof {
                            lemma_listing_fails_on(model, i + 1);
                            lemma_first_corrupt_on(model, i + 1);
                        }
                        return Err(e);
                    },
                    _ => unreached(),
                },
                _ => unreached(),
            };
            i += 1;
        }
        proof {
            assert(model.take(i as int) =~= model);
        }
        match list_step(records, ListEvent::End) {
            ListStep::Done(records) => Ok(records),
            _ => unreached(),
        }
    }

    /// Saves a record: the storage directory exists afterwards, and the file
    /// named by the record's `id` holds its text, whatever it held before.
    ///
    /// Fails, with the directory created and no file touched, only where the
    /// record cannot be written as text.
    pub fn save_character(&mut self, c: &Character) -> (r: Result<(), StorageError>)
        ensures
            match r {
                Ok(()) => text_of(c@) matches Some(text) && final(self)@ == saved(
                    old(self)@,
                    c@.id,
                    text,
                ),
                Err(e) => text_of(c@) is None && e@ is Serialize && final(self)@ == Some(
                    files_in(old(self)@),
                ),
            },
    {
        let mut directory = match self.directory.take() {
            Some(d) => d,
            None => Directory::new(),
        };
        let r = match save_step(c, SaveEvent::DirectoryReady) {
            SaveStep::Write { file_name, text } => {
                directory.write(file_name, text);
                match save_step(c, SaveEvent::Written) {
                    SaveStep::Done => Ok(()),
                    _ => unreached(),
                }
            },
            SaveStep::Failed(e) => Err(e),
            _ => unreached(),
        };
        self.directory = Some(directory);
        r
    }

    /// Deletes the record of `id`: its file is gone afterwards. Where there
    /// was none, nothing changes. Never fails.
    pub fn delete_character(&mut self, id: &str) -> (r: Result<(), StorageError>)
        ensures
            r is Ok,
            final(self)@ == deleted(old(self)@, id@),
    {
        let name = record_file_name(id);
        let mut directory = match self.directory.take() {
            Some(d) => d,
            None => {
                return match delete_step(DeleteEvent::NotFound) {
                    DeleteStep::Done => Ok(()),
                    _ => unreached(),
                };
            },
        };
        let found = if directory.read(name.as_str()).is_some() {
            DeleteEvent::Found
        } else {
            DeleteEvent::NotFound
        };
        let r = match delete_step(found) {
            DeleteStep::Remove => {
                let _ = directory.remove(name.as_str());
                match delete_step(DeleteEvent::Removed) {
                    DeleteStep::Done => Ok(()),
                    _ => unreached(),
                }
            },
            DeleteStep::Done => Ok(()),
            _ => unreached(),
        };
        self.directory = Some(directory);
        r
    }
}

} // verus!
