//! What holds of the store, whatever is saved, listed and deleted.
//!
//! The laws speak of a storage directory as [`MemoryStore`](crate::store::MemoryStore)
//! holds it: each file name stands for one file of the directory. On disk
//! that is so of a name without a path separator in it; of a record whose
//! `id` holds one the laws say nothing.
//!
//! Reading back what was written goes through the text that `serde_json`
//! writes and reads; that it reads a document as it was written is a premise
//! of the laws that need it ([`reads_back`]), and is not proved here.

use crate::character::CharacterView;
use crate::codec::{record_in, text_of};
use crate::directory::Files;
use crate::encode::encoded;
use crate::keyed::{
    distinct_keys, has_key, lemma_first_exists, lemma_with_value, lemma_with_value_entries,
    lemma_with_value_twice, lemma_without_key, lemma_without_key_entries, place_of, value_of,
    with_value, without_key,
};
use crate::layout::{
    is_record_name, lemma_record_name_injective, lemma_record_name_is_record, record_name,
};
use crate::roundtrip::lemma_decode_encode;
use crate::store::{deleted, files_in, listing_of, saved};
use crate::value::parsed_text;
use vstd::prelude::*;

verus! {

/// Whether the text that is written for a record is read as the document
/// that it was written from.
pub open spec fn reads_back(c: CharacterView) -> bool {
    text_of(c) matches Some(text) && parsed_text(text) == Some(encoded(c))
}

/// A record whose text reads back is read from its text as it was.
pub proof fn law_text_round_trip(c: CharacterView)
    requires
        c.wf(),
    ensures
        reads_back(c) ==> record_in(text_of(c)->0) == Some(c),
{
    lemma_decode_encode(c);
}

/// The number of records of a list that have the identifier `id`.
pub open spec fn occurrences(records: Seq<CharacterView>, id: Seq<char>) -> nat
    decreases records.len(),
{
    if records.len() == 0 {
        0
    } else {
        occurrences(records.drop_last(), id) + if records.last().id == id {
            1nat
        } else {
            0nat
        }
    }
}

/// Whether each record file that holds a record is named by the `id` of
/// its record. A directory that only the store has written is so.
pub open spec fn coherent(files: Files) -> bool {
    forall|i: int|
        0 <= i < files.len() && is_record_name((#[trigger] files[i]).0) ==> (record_in(
            files[i].1,
        ) matches Some(r) ==> record_name(r.id) == files[i].0)
}

/// Whether the text of each record file holds a record.
pub open spec fn all_records(files: Files) -> bool {
    forall|i: int|
        0 <= i < files.len() && is_record_name((#[trigger] files[i]).0) ==> record_in(
            files[i].1,
        ) is Some
}

/// A directory can be listed exactly where each of its record files holds a
/// record: one file that holds none fails the whole listing.
pub proof fn law_listing_is_all_or_nothing(files: Files)
    ensures
        listing_of(files) is Some <==> all_records(files),
    decreases files.len(),
{
    if files.len() > 0 {
        let shorter = files.drop_last();
        law_listing_is_all_or_nothing(shorter);
        assert(files.last() == files[files.len() - 1]);
        assert forall|i: int| 0 <= i < shorter.len() implies #[trigger] shorter[i] == files[i] by {}
        if all_records(files) {
            assert forall|i: int|
                0 <= i < shorter.len() && is_record_name((#[trigger] shorter[i]).0) implies record_in(
                shorter[i].1,
            ) is Some by {
                assert(shorter[i] == files[i]);
            }
        }
        if listing_of(files) is Some {
            assert forall|i: int|
                0 <= i < files.len() && is_record_name((#[trigger] files[i]).0) implies record_in(
                files[i].1,
            ) is Some by {
                if i < shorter.len() {
                    assert(shorter[i] == files[i]);
                }
            }
        }
    }
}

/// Each listed record is the record of a record file, and the record of each
/// record file is listed.
pub proof fn lemma_listed_records(files: Files)
    requires
        listing_of(files) is Some,
    ensures
        forall|k: int|
            0 <= k < listing_of(files)->0.len() ==> exists|i: int|
                0 <= i < files.len() && is_record_name(files[i].0) && record_in(files[i].1) == Some(
                    #[trigger] listing_of(files)->0[k],
                ),
        forall|i: int|
            0 <= i < files.len() && is_record_name((#[trigger] files[i]).0) ==> record_in(
                files[i].1,
            ) is Some && listing_of(files)->0.contains(record_in(files[i].1)->0),
    decreases files.len(),
{
    if files.len() > 0 {
        let shorter = files.drop_last();
        let last = files[files.len() - 1];
        let records = listing_of(files)->0;
        let before = listing_of(shorter)->0;
        assert(files.last() == last);
        lemma_listed_records(shorter);
        assert forall|i: int| 0 <= i < shorter.len() implies #[trigger] shorter[i] == files[i] by {}
        assert forall|k: int| 0 <= k < records.len() implies exists|i: int|
            0 <= i < files.len() && is_record_name(files[i].0) && record_in(files[i].1) == Some(
                #[trigger] records[k],
            ) by {
            if k < before.len() {
                assert(records[k] == before[k]);
                let i = choose|i: int|
                    0 <= i < shorter.len() && is_record_name(shorter[i].0) && record_in(
                        shorter[i].1,
                    ) == Some(before[k]);
                assert(files[i] == shorter[i]);
            } else {
                assert(record_in(last.1) == Some(records[k]));
            }
        }
        assert forall|i: int|
            0 <= i < files.len() && is_record_name((#[trigger] files[i]).0) implies record_in(
            files[i].1,
        ) is Some && records.contains(record_in(files[i].1)->0) by {
            if i < shorter.len() {
                assert(shorter[i] == files[i]);
                let r = record_in(files[i].1)->0;
                assert(before.contains(r));
                let k = choose|k: int| 0 <= k < before.len() && before[k] == r;
                assert(records[k] == r);
            } else {
                assert(records[records.len() - 1] == record_in(last.1)->0);
            }
        }
    }
}

/// In a coherent directory without a name twice, the listing holds one
/// record of an identifier whose file is there, and none of any other.
pub proof fn lemma_one_record_each(files: Files, id: Seq<char>)
    requires
        distinct_keys(files),
        coherent(files),
        listing_of(files) is Some,
    ensures
        occurrences(listing_of(files)->0, id) == if id.len() > 0 && has_key(files, record_name(id)) {
            1nat
        } else {
            0nat
        },
    decreases files.len(),
{
    let name = record_name(id);
    lemma_record_name_is_record(id);
    if files.len() > 0 {
        let shorter = files.drop_last();
        let last = files[files.len() - 1];
        assert(files.last() == last);
        assert forall|i: int| 0 <= i < shorter.len() implies #[trigger] shorter[i] == files[i] by {}
        assert(distinct_keys(shorter));
        assert(coherent(shorter)) by {
            assert forall|i: int|
                0 <= i < shorter.len() && is_record_name((#[trigger] shorter[i]).0) implies (
            record_in(shorter[i].1) matches Some(r) ==> record_name(r.id) == shorter[i].0) by {
                assert(shorter[i] == files[i]);
            }
        }
        lemma_one_record_each(shorter, id);
        let before = listing_of(shorter)->0;
        // Whether the file of `id` is among the earlier files.
        if has_key(shorter, name) {
            let j = choose|j: int| 0 <= j < shorter.len() && (#[trigger] shorter[j]).0 == name;
            assert(files[j].0 == name);
            assert(last.0 != name);
        }
        if has_key(files, name) && !has_key(shorter, name) {
            let j = choose|j: int| 0 <= j < files.len() && (#[trigger] files[j]).0 == name;
            if j < shorter.len() {
                assert(shorter[j].0 == name);
            }
            assert(last.0 == name);
        }
        if last.0 == name {
            assert(files[files.len() - 1].0 == name);
            assert(has_key(files, name));
        }
        if is_record_name(last.0) {
            let r = record_in(last.1)->0;
            assert(listing_of(files)->0 == before.push(r));
            assert(before.push(r).drop_last() =~= before);
            assert(record_name(r.id) == last.0);
            lemma_record_name_injective(r.id, id);
        } else {
            assert(listing_of(files)->0 == before);
        }
    } else {
        assert(!has_key(files, name));
    }
}

/// Saving a record keeps a directory coherent.
pub proof fn lemma_save_keeps_coherent(files: Files, c: CharacterView, text: Seq<char>)
    requires
        coherent(files),
        record_in(text) == Some(c),
    ensures
        coherent(with_value(files, record_name(c.id), text)),
{
    let after = with_value(files, record_name(c.id), text);
    lemma_with_value_entries(files, record_name(c.id), text);
    assert forall|i: int|
        0 <= i < after.len() && is_record_name((#[trigger] after[i]).0) implies (record_in(
        after[i].1,
    ) matches Some(r) ==> record_name(r.id) == after[i].0) by {
        if after[i] != (record_name(c.id), text) {
            let j = choose|j: int| 0 <= j < files.len() && files[j] == after[i];
            assert(is_record_name(files[j].0));
        }
    }
}

/// After a record is saved, listing gives it back: the listing holds the
/// record as it was saved, and no other record of its `id`, whatever the file
/// of that `id` held before. The directory can be listed if it could be
/// before.
///
/// This holds of a record whose `id` is not empty (the file of an empty `id`
/// is not taken for a record file) and whose text reads back.
pub proof fn law_saved_record_is_listed(files: Files, c: CharacterView)
    requires
        distinct_keys(files),
        coherent(files),
        c.wf(),
    ensures
        c.id.len() > 0 && reads_back(c) ==> {
            let after = with_value(files, record_name(c.id), text_of(c)->0);
            &&& distinct_keys(after)
            &&& coherent(after)
            &&& value_of(after, record_name(c.id)) == text_of(c)
            &&& listing_of(files) is Some ==> listing_of(after) is Some
            &&& listing_of(after) matches Some(records) ==> {
                &&& records.contains(c)
                &&& occurrences(records, c.id) == 1
                &&& forall|k: int|
                    0 <= k < records.len() && (#[trigger] records[k]).id == c.id ==> records[k]
                        == c
            }
        },
{
    if c.id.len() > 0 && reads_back(c) {
        let name = record_name(c.id);
        let text = text_of(c)->0;
        let after = with_value(files, name, text);
        law_text_round_trip(c);
        lemma_record_name_is_record(c.id);
        lemma_with_value(files, name, text);
        lemma_with_value_entries(files, name, text);
        lemma_save_keeps_coherent(files, c, text);
        law_listing_is_all_or_nothing(files);
        law_listing_is_all_or_nothing(after);
        if listing_of(files) is Some {
            assert forall|i: int|
                0 <= i < after.len() && is_record_name((#[trigger] after[i]).0) implies record_in(
                after[i].1,
            ) is Some by {
                if after[i] != (name, text) {
                    let j = choose|j: int| 0 <= j < files.len() && files[j] == after[i];
                    assert(is_record_name(files[j].0));
                }
            }
        }
        if listing_of(after) is Some {
            let records = listing_of(after)->0;
            lemma_listed_records(after);
            lemma_one_record_each(after, c.id);
            lemma_first_exists(after, name);
            let at = place_of(after, name);
            assert(after[at].1 == text);
            assert(is_record_name(after[at].0));
            assert(records.contains(c));
            assert forall|k: int|
                0 <= k < records.len() && (#[trigger] records[k]).id == c.id implies records[k]
                == c by {
                let i = choose|i: int|
                    0 <= i < after.len() && is_record_name(after[i].0) && record_in(after[i].1)
                        == Some(records[k]);
                assert(record_name(records[k].id) == after[i].0);
                if i != at {
                    if i < at {
                        assert(after[i].0 != after[at].0);
                    } else {
                        assert(after[at].0 != after[i].0);
                    }
                }
            }
        }
    }
}

/// Saving a record again under its `id`, with other fields, leaves the
/// directory as if only the second had been saved: the file holds the second
/// text and not both.
pub proof fn law_save_again_replaces(
    directory: Option<Files>,
    id: Seq<char>,
    first: Seq<char>,
    second: Seq<char>,
)
    ensures
        saved(saved(directory, id, first), id, second) == saved(directory, id, second),
{
    lemma_with_value_twice(files_in(directory), record_name(id), first, second);
}

/// Deleting a record that has no file leaves the store as it was.
pub proof fn law_delete_absent_changes_nothing(directory: Option<Files>, id: Seq<char>)
    requires
        !has_key(files_in(directory), record_name(id)),
    ensures
        deleted(directory, id) == directory,
{
}

/// Deleting a record takes its file away and leaves every other file as it
/// was; a directory that could be listed can be listed afterwards.
pub proof fn law_delete_removes_only_that(files: Files, id: Seq<char>)
    requires
        distinct_keys(files),
    ensures
        distinct_keys(without_key(files, record_name(id))),
        !has_key(without_key(files, record_name(id)), record_name(id)),
        forall|other: Seq<char>|
            other != record_name(id) ==> value_of(without_key(files, record_name(id)), other)
                == value_of(files, other),
        coherent(files) ==> coherent(without_key(files, record_name(id))),
        listing_of(files) is Some ==> listing_of(without_key(files, record_name(id))) is Some,
{
    let name = record_name(id);
    let after = without_key(files, name);
    lemma_without_key(files, name);
    lemma_without_key_entries(files, name);
    law_listing_is_all_or_nothing(files);
    law_listing_is_all_or_nothing(after);
    if coherent(files) {
        assert forall|i: int|
            0 <= i < after.len() && is_record_name((#[trigger] after[i]).0) implies (record_in(
            after[i].1,
        ) matches Some(r) ==> record_name(r.id) == after[i].0) by {
            let j = choose|j: int| 0 <= j < files.len() && files[j] == after[i];
            assert(is_record_name(files[j].0));
        }
    }
    if listing_of(files) is Some {
        assert forall|i: int|
            0 <= i < after.len() && is_record_name((#[trigger] after[i]).0) implies record_in(
            after[i].1,
        ) is Some by {
            let j = choose|j: int| 0 <= j < files.len() && files[j] == after[i];
            assert(is_record_name(files[j].0));
        }
    }
}

/// A store in which nothing was saved lists no record, and that is no error.
pub proof fn law_fresh_store_lists_nothing()
    ensures
        listing_of(files_in(None)) == Some(Seq::<CharacterView>::empty()),
{
}

/// After two records of different `id` are saved, each has the file named
/// by its `id`, with its own text, and listing gives both back.
///
/// This holds of records whose `id` is not empty and whose text reads back.
pub proof fn law_two_saved_both_listed(files: Files, a: CharacterView, b: CharacterView)
    requires
        distinct_keys(files),
        coherent(files),
        a.wf(),
        b.wf(),
        a.id != b.id,
    ensures
        a.id.len() > 0 && b.id.len() > 0 && reads_back(a) && reads_back(b) ==> {
            let after = with_value(
                with_value(files, record_name(a.id), text_of(a)->0),
                record_name(b.id),
                text_of(b)->0,
            );
            &&& record_name(a.id) != record_name(b.id)
            &&& value_of(after, record_name(a.id)) == text_of(a)
            &&& value_of(after, record_name(b.id)) == text_of(b)
            &&& listing_of(files) is Some ==> listing_of(after) is Some
            &&& listing_of(after) matches Some(records) ==> {
                &&& records.contains(a)
                &&& records.contains(b)
                &&& occurrences(records, a.id) == 1
                &&& occurrences(records, b.id) == 1
            }
        },
{
    if a.id.len() > 0 && b.id.len() > 0 && reads_back(a) && reads_back(b) {
        let first = with_value(files, record_name(a.id), text_of(a)->0);
        let after = with_value(first, record_name(b.id), text_of(b)->0);
        lemma_record_name_injective(a.id, b.id);
        lemma_record_name_is_record(a.id);
        law_saved_record_is_listed(files, a);
        law_saved_record_is_listed(first, b);
        lemma_with_value(first, record_name(b.id), text_of(b)->0);
        law_text_round_trip(a);
        if listing_of(after) is Some {
            let records = listing_of(after)->0;
            lemma_listed_records(after);
            lemma_one_record_each(after, a.id);
            lemma_first_exists(after, record_name(a.id));
            let at = place_of(after, record_name(a.id));
            assert(after[at].1 == text_of(a)->0);
            assert(is_record_name(after[at].0));
            assert(records.contains(a));
        }
    }
}

} // verus!
