//! A record that is written as a document is read back from it unchanged.

use crate::character::{AbilityScores, CharacterView, Currency};
use crate::decode::{currency_of, decoded, record_of, scores_of};
use crate::encode::{
    bonuses_doc, currency_doc, encoded, integer_doc, present, record_fields, scores_doc,
    small_numbers_doc, texts_doc,
};
use crate::fields::{as_bonuses, as_small_numbers, as_texts, collected, DecodeFailure};
use crate::json::{writable, JsonModel};
use crate::keyed::{
    distinct_keys, has_key, lemma_value_after_push, lemma_value_of_entry, lemma_value_of_pushed,
    value_of, with_value,
};
use vstd::prelude::*;

verus! {

/// A list of strings is read back from its document.
pub proof fn lemma_texts_read_back(texts: Seq<Seq<char>>)
    ensures
        as_texts(texts_doc(texts)) == Some(texts),
{
    assert(as_texts(texts_doc(texts))->0 =~= texts);
}

/// A list of small numbers is read back from its document.
pub proof fn lemma_small_numbers_read_back(numbers: Seq<u8>)
    ensures
        as_small_numbers(small_numbers_doc(numbers)) == Some(numbers),
{
    assert(as_small_numbers(small_numbers_doc(numbers))->0 =~= numbers);
}

/// The members of the document of a proficiency map give its entries back.
proof fn lemma_collected_back(entries: Seq<(Seq<char>, u8)>)
    requires
        distinct_keys(entries),
    ensures
        collected(bonuses_doc(entries)->Object_0) == entries,
    decreases entries.len(),
{
    let members = bonuses_doc(entries)->Object_0;
    if entries.len() == 0 {
        assert(collected(members) =~= entries);
    } else {
        let shorter = entries.drop_last();
        assert(members.drop_last() =~= bonuses_doc(shorter)->Object_0);
        lemma_collected_back(shorter);
        let last = entries.last();
        assert(!has_key(shorter, last.0));
        assert(with_value(shorter, last.0, last.1) =~= entries);
    }
}

/// A proficiency map is read back from its document.
pub proof fn lemma_bonuses_read_back(entries: Seq<(Seq<char>, u8)>)
    requires
        distinct_keys(entries),
    ensures
        as_bonuses(bonuses_doc(entries)) == Some(entries),
{
    lemma_collected_back(entries);
}

/// No member stands under a key that no field has.
proof fn lemma_present_keys(fields: Seq<(Seq<char>, Option<JsonModel>)>, key: Seq<char>)
    requires
        !has_key(fields, key),
    ensures
        !has_key(present(fields), key),
    decreases fields.len(),
{
    if fields.len() > 0 {
        let shorter = fields.drop_last();
        assert forall|j: int| 0 <= j < shorter.len() implies (#[trigger] shorter[j]).0 != key by {
            assert(shorter[j] == fields[j]);
        }
        lemma_present_keys(shorter, key);
        assert(fields.last() == fields[fields.len() - 1]);
    }
}

/// Among fields with distinct names, the member under the name of a field is
/// the document of that field, and there is none where the field has none.
pub proof fn lemma_present_member(fields: Seq<(Seq<char>, Option<JsonModel>)>, i: int)
    requires
        distinct_keys(fields),
        0 <= i < fields.len(),
    ensures
        value_of(present(fields), fields[i].0) == fields[i].1,
    decreases fields.len(),
{
    let shorter = fields.drop_last();
    let last = fields.last();
    let key = fields[i].0;
    assert(last == fields[fields.len() - 1]);
    assert forall|j: int| 0 <= j < shorter.len() implies #[trigger] shorter[j] == fields[j] by {}
    if i == fields.len() - 1 {
        assert(!has_key(shorter, key));
        lemma_present_keys(shorter, key);
        match last.1 {
            Some(doc) => {
                lemma_value_of_pushed(present(shorter), (key, doc));
            },
            None => {},
        }
    } else {
        assert(distinct_keys(shorter));
        assert(shorter[i] == fields[i]);
        lemma_present_member(shorter, i);
        match last.1 {
            Some(doc) => {
                lemma_value_after_push(present(shorter), (last.0, doc), key);
            },
            None => {},
        }
    }
}

/// The length and the first character of a name: two names that differ in
/// either are different names.
spec fn tag(key: Seq<char>) -> (int, char) {
    (key.len() as int, key[0])
}

/// The ability scores are read back from their document.
pub proof fn lemma_scores_read_back(scores: AbilityScores)
    ensures
        scores_doc(scores) is Object,
        distinct_keys(scores_doc(scores)->Object_0),
        scores_of(scores_doc(scores)->Object_0) == Ok::<_, DecodeFailure>(scores),
{
    let m = scores_doc(scores)->Object_0;
    reveal_strlit("strength");
    assert(tag("strength"@) == (8int, 's'));
    reveal_strlit("dexterity");
    assert(tag("dexterity"@) == (9int, 'd'));
    reveal_strlit("constitution");
    assert(tag("constitution"@) == (12int, 'c'));
    reveal_strlit("intelligence");
    assert(tag("intelligence"@) == (12int, 'i'));
    reveal_strlit("wisdom");
    assert(tag("wisdom"@) == (6int, 'w'));
    reveal_strlit("charisma");
    assert(tag("charisma"@) == (8int, 'c'));
    assert forall|i: int, j: int| 0 <= i < j < m.len() implies (#[trigger] m[i]).0 != (#[trigger] m[j]).0 by {
        assert(tag(m[i].0) != tag(m[j].0));
    }
    lemma_value_of_entry(m, 0);
    lemma_value_of_entry(m, 1);
    lemma_value_of_entry(m, 2);
    lemma_value_of_entry(m, 3);
    lemma_value_of_entry(m, 4);
    lemma_value_of_entry(m, 5);
}

/// A purse is read back from its document.
pub proof fn lemma_currency_read_back(currency: Currency)
    ensures
        currency_doc(currency) is Object,
        distinct_keys(currency_doc(currency)->Object_0),
        currency_of(currency_doc(currency)->Object_0) == Ok::<_, DecodeFailure>(currency),
{
    let m = currency_doc(currency)->Object_0;
    reveal_strlit("platinum");
    assert(tag("platinum"@) == (8int, 'p'));
    reveal_strlit("gold");
    assert(tag("gold"@) == (4int, 'g'));
    reveal_strlit("silver");
    assert(tag("silver"@) == (6int, 's'));
    reveal_strlit("copper");
    assert(tag("copper"@) == (6int, 'c'));
    assert forall|i: int, j: int| 0 <= i < j < m.len() implies (#[trigger] m[i]).0 != (#[trigger] m[j]).0 by {
        assert(tag(m[i].0) != tag(m[j].0));
    }
    lemma_value_of_entry(m, 0);
    lemma_value_of_entry(m, 1);
    lemma_value_of_entry(m, 2);
    lemma_value_of_entry(m, 3);
}

/// No two fields of a record have one name.
pub proof fn lemma_field_names_distinct(c: CharacterView)
    ensures
        distinct_keys(record_fields(c)),
{
    let fields = record_fields(c);
    reveal_strlit("id");
    assert(tag("id"@) == (2int, 'i'));
    reveal_strlit("name");
    assert(tag("name"@) == (4int, 'n'));
    reveal_strlit("race");
    assert(tag("race"@) == (4int, 'r'));
    reveal_strlit("subrace");
    assert(tag("subrace"@) == (7int, 's'));
    reveal_strlit("class");
    assert(tag("class"@) == (5int, 'c'));
    reveal_strlit("background");
    assert(tag("background"@) == (10int, 'b'));
    reveal_strlit("alignment");
    assert(tag("alignment"@) == (9int, 'a'));
    reveal_strlit("level");
    assert(tag("level"@) == (5int, 'l'));
    reveal_strlit("ability_scores");
    assert(tag("ability_scores"@) == (14int, 'a'));
    reveal_strlit("hit_points");
    assert(tag("hit_points"@) == (10int, 'h'));
    reveal_strlit("max_hit_points");
    assert(tag("max_hit_points"@) == (14int, 'm'));
    reveal_strlit("armor_class");
    assert(tag("armor_class"@) == (11int, 'a'));
    reveal_strlit("initiative");
    assert(tag("initiative"@) == (10int, 'i'));
    reveal_strlit("equipment");
    assert(tag("equipment"@) == (9int, 'e'));
    reveal_strlit("spells");
    assert(tag("spells"@) == (6int, 's'));
    reveal_strlit("spell_slots");
    assert(tag("spell_slots"@) == (11int, 's'));
    reveal_strlit("notes");
    assert(tag("notes"@) == (5int, 'n'));
    reveal_strlit("saving_throw_proficiencies");
    assert(tag("saving_throw_proficiencies"@) == (26int, 's'));
    reveal_strlit("skill_proficiencies");
    assert(tag("skill_proficiencies"@) == (19int, 's'));
    reveal_strlit("armor_proficiencies");
    assert(tag("armor_proficiencies"@) == (19int, 'a'));
    reveal_strlit("weapon_proficiencies");
    assert(tag("weapon_proficiencies"@) == (20int, 'w'));
    reveal_strlit("tool_proficiencies");
    assert(tag("tool_proficiencies"@) == (18int, 't'));
    reveal_strlit("languages");
    assert(tag("languages"@) == (9int, 'l'));
    reveal_strlit("heroic_inspiration");
    assert(tag("heroic_inspiration"@) == (18int, 'h'));
    reveal_strlit("used_abilities");
    assert(tag("used_abilities"@) == (14int, 'u'));
    reveal_strlit("currency");
    assert(tag("currency"@) == (8int, 'c'));
    assert forall|i: int, j: int| 0 <= i < j < fields.len() implies (#[trigger] fields[i]).0 != (
    #[trigger] fields[j]).0 by {
        assert(tag(fields[i].0) != tag(fields[j].0));
    }
}

/// Writing a record as a document and reading the document gives the record
/// back, whatever its fields hold.
pub proof fn lemma_decode_encode(c: CharacterView)
    requires
        c.wf(),
    ensures
        decoded(encoded(c)) == Ok::<_, DecodeFailure>(c),
{
    let fields = record_fields(c);
    let m = present(fields);
    lemma_field_names_distinct(c);
    lemma_present_member(fields, 0);
    lemma_present_member(fields, 1);
    lemma_present_member(fields, 2);
    lemma_present_member(fields, 3);
    lemma_present_member(fields, 4);
    lemma_present_member(fields, 5);
    lemma_present_member(fields, 6);
    lemma_present_member(fields, 7);
    lemma_present_member(fields, 8);
    lemma_present_member(fields, 9);
    lemma_present_member(fields, 10);
    lemma_present_member(fields, 11);
    lemma_present_member(fields, 12);
    lemma_present_member(fields, 13);
    lemma_present_member(fields, 14);
    lemma_present_member(fields, 15);
    lemma_present_member(fields, 16);
    lemma_present_member(fields, 17);
    lemma_present_member(fields, 18);
    lemma_present_member(fields, 19);
    lemma_present_member(fields, 20);
    lemma_present_member(fields, 21);
    lemma_present_member(fields, 22);
    lemma_present_member(fields, 23);
    lemma_present_member(fields, 24);
    lemma_present_member(fields, 25);
    lemma_texts_read_back(c.equipment);
    lemma_texts_read_back(c.spells);
    lemma_small_numbers_read_back(c.spell_slots);
    lemma_bonuses_read_back(c.saving_throw_proficiencies);
    lemma_bonuses_read_back(c.skill_proficiencies);
    lemma_texts_read_back(c.armor_proficiencies);
    lemma_texts_read_back(c.weapon_proficiencies);
    lemma_texts_read_back(c.tool_proficiencies);
    lemma_texts_read_back(c.languages);
    lemma_texts_read_back(c.used_abilities);
    lemma_scores_read_back(c.ability_scores);
    if c.currency is Some {
        lemma_currency_read_back(c.currency->0);
    }
    assert(record_of(m) == Ok::<_, DecodeFailure>(c));
}

/// The members that fields with distinct names give have distinct names.
proof fn lemma_present_distinct(fields: Seq<(Seq<char>, Option<JsonModel>)>)
    requires
        distinct_keys(fields),
    ensures
        distinct_keys(present(fields)),
    decreases fields.len(),
{
    if fields.len() > 0 {
        let shorter = fields.drop_last();
        let last = fields[fields.len() - 1];
        assert(fields.last() == last);
        assert forall|i: int| 0 <= i < shorter.len() implies #[trigger] shorter[i] == fields[i] by {}
        lemma_present_distinct(shorter);
        assert(!has_key(shorter, last.0));
        lemma_present_keys(shorter, last.0);
    }
}

/// Fields whose documents can be written give members that can.
proof fn lemma_present_writable(fields: Seq<(Seq<char>, Option<JsonModel>)>)
    requires
        forall|i: int|
            0 <= i < fields.len() && (#[trigger] fields[i]).1 is Some ==> writable(fields[i].1->0),
    ensures
        forall|j: int|
            0 <= j < present(fields).len() ==> writable((#[trigger] present(fields)[j]).1),
    decreases fields.len(),
{
    if fields.len() > 0 {
        let shorter = fields.drop_last();
        assert forall|i: int| 0 <= i < shorter.len() implies #[trigger] shorter[i] == fields[i] by {}
        lemma_present_writable(shorter);
        let last = fields[fields.len() - 1];
        assert(fields.last() == last);
        assert forall|j: int| 0 <= j < present(fields).len() implies writable(
            (#[trigger] present(fields)[j]).1,
        ) by {
            if j < present(shorter).len() {
                assert(present(fields)[j] == present(shorter)[j]);
            } else {
                assert(present(fields)[j].1 == last.1->0);
            }
        }
    }
}

/// The documents of the parts of a record can be written.
proof fn lemma_parts_are_writable(c: CharacterView)
    requires
        c.wf(),
    ensures
        forall|i: int| i64::MIN <= i ==> writable(#[trigger] integer_doc(i)),
        forall|texts: Seq<Seq<char>>| writable(#[trigger] texts_doc(texts)),
        writable(small_numbers_doc(c.spell_slots)),
        writable(bonuses_doc(c.saving_throw_proficiencies)),
        writable(bonuses_doc(c.skill_proficiencies)),
        writable(scores_doc(c.ability_scores)),
        c.currency is Some ==> writable(currency_doc(c.currency->0)),
{
    assert forall|i: int| i64::MIN <= i implies writable(#[trigger] integer_doc(i)) by {}
    assert forall|texts: Seq<Seq<char>>| writable(#[trigger] texts_doc(texts)) by {
        let items = texts_doc(texts)->Array_0;
        assert forall|k: int| 0 <= k < items.len() implies writable(#[trigger] items[k]) by {}
    }
    let slots = small_numbers_doc(c.spell_slots)->Array_0;
    assert forall|k: int| 0 <= k < slots.len() implies writable(#[trigger] slots[k]) by {}
    let saves = bonuses_doc(c.saving_throw_proficiencies)->Object_0;
    assert forall|k: int| 0 <= k < saves.len() implies writable((#[trigger] saves[k]).1) by {}
    assert(distinct_keys(saves));
    let skills = bonuses_doc(c.skill_proficiencies)->Object_0;
    assert forall|k: int| 0 <= k < skills.len() implies writable((#[trigger] skills[k]).1) by {}
    assert(distinct_keys(skills));
    lemma_scores_read_back(c.ability_scores);
    let scores = scores_doc(c.ability_scores)->Object_0;
    assert forall|k: int| 0 <= k < scores.len() implies writable((#[trigger] scores[k]).1) by {}
    if c.currency is Some {
        lemma_currency_read_back(c.currency->0);
        let purse = currency_doc(c.currency->0)->Object_0;
        assert forall|k: int| 0 <= k < purse.len() implies writable((#[trigger] purse[k]).1) by {}
    }
}

/// The document of a record can be written out as it stands.
pub proof fn lemma_encoded_is_writable(c: CharacterView)
    requires
        c.wf(),
    ensures
        writable(encoded(c)),
{
    let fields = record_fields(c);
    lemma_parts_are_writable(c);
    assert forall|i: int| 0 <= i < fields.len() && (#[trigger] fields[i]).1 is Some implies writable(
        fields[i].1->0,
    ) by {}
    lemma_present_writable(fields);
    lemma_field_names_distinct(c);
    lemma_present_distinct(fields);
}

} // verus!
