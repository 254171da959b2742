//! Writing a character record as a JSON document.

use crate::character::{AbilityScores, Character, CharacterView, Currency};
use crate::fields::Members;
use crate::json::{items_view, members_view, Json, JsonModel, JsonNumber};
use crate::proficiency::{entries_view, ProficiencyMap};
use vstd::prelude::*;

verus! {

/// The document of an integer.
pub open spec fn integer_doc(i: int) -> JsonModel {
    if i >= 0 {
        JsonModel::Number(JsonNumber::Unsigned(i as u64))
    } else {
        JsonModel::Number(JsonNumber::Negative(i as i64))
    }
}

/// The document of a list of strings: an array of strings.
pub open spec fn texts_doc(texts: Seq<Seq<char>>) -> JsonModel {
    JsonModel::Array(texts.map_values(|t: Seq<char>| JsonModel::Text(t)))
}

/// The document of a list of small numbers: an array of integers.
pub open spec fn small_numbers_doc(numbers: Seq<u8>) -> JsonModel {
    JsonModel::Array(numbers.map_values(|n: u8| integer_doc(n as int)))
}

/// The document of a proficiency map: an object with one integer member for
/// each entry, in the order of the entries.
pub open spec fn bonuses_doc(entries: Seq<(Seq<char>, u8)>) -> JsonModel {
    JsonModel::Object(entries.map_values(|e: (Seq<char>, u8)| (e.0, integer_doc(e.1 as int))))
}

/// The document of the ability scores: an object of six integers.
pub open spec fn scores_doc(scores: AbilityScores) -> JsonModel {
    JsonModel::Object(
        seq![
            ("strength"@, integer_doc(scores.strength as int)),
            ("dexterity"@, integer_doc(scores.dexterity as int)),
            ("constitution"@, integer_doc(scores.constitution as int)),
            ("intelligence"@, integer_doc(scores.intelligence as int)),
            ("wisdom"@, integer_doc(scores.wisdom as int)),
            ("charisma"@, integer_doc(scores.charisma as int)),
        ],
    )
}

/// The document of a purse: an object of four integers.
pub open spec fn currency_doc(currency: Currency) -> JsonModel {
    JsonModel::Object(
        seq![
            ("platinum"@, integer_doc(currency.platinum as int)),
            ("gold"@, integer_doc(currency.gold as int)),
            ("silver"@, integer_doc(currency.silver as int)),
            ("copper"@, integer_doc(currency.copper as int)),
        ],
    )
}

/// The fields of a record in their order, each with the document of its
/// value, or with `None` where an optional field is absent.
pub open spec fn record_fields(c: CharacterView) -> Seq<(Seq<char>, Option<JsonModel>)> {
    seq![
        ("id"@, Some(JsonModel::Text(c.id))),
        ("name"@, Some(JsonModel::Text(c.name))),
        ("race"@, Some(JsonModel::Text(c.race))),
        (
            "subrace"@,
            match c.subrace {
                Some(s) => Some(JsonModel::Text(s)),
                None => None,
            },
        ),
        ("class"@, Some(JsonModel::Text(c.class))),
        ("background"@, Some(JsonModel::Text(c.background))),
        ("alignment"@, Some(JsonModel::Text(c.alignment))),
        ("level"@, Some(integer_doc(c.level as int))),
        ("ability_scores"@, Some(scores_doc(c.ability_scores))),
        ("hit_points"@, Some(integer_doc(c.hit_points as int))),
        (
            "max_hit_points"@,
            match c.max_hit_points {
                Some(n) => Some(integer_doc(n as int)),
                None => None,
            },
        ),
        ("armor_class"@, Some(integer_doc(c.armor_class as int))),
        ("initiative"@, Some(integer_doc(c.initiative as int))),
        ("equipment"@, Some(texts_doc(c.equipment))),
        ("spells"@, Some(texts_doc(c.spells))),
        ("spell_slots"@, Some(small_numbers_doc(c.spell_slots))),
        ("notes"@, Some(JsonModel::Text(c.notes))),
        ("saving_throw_proficiencies"@, Some(bonuses_doc(c.saving_throw_proficiencies))),
        ("skill_proficiencies"@, Some(bonuses_doc(c.skill_proficiencies))),
        ("armor_proficiencies"@, Some(texts_doc(c.armor_proficiencies))),
        ("weapon_proficiencies"@, Some(texts_doc(c.weapon_proficiencies))),
        ("tool_proficiencies"@, Some(texts_doc(c.tool_proficiencies))),
        ("languages"@, Some(texts_doc(c.languages))),
        ("heroic_inspiration"@, Some(JsonModel::Bool(c.heroic_inspiration))),
        ("used_abilities"@, Some(texts_doc(c.used_abilities))),
        (
            "currency"@,
            match c.currency {
                Some(purse) => Some(currency_doc(purse)),
                None => None,
            },
        ),
    ]
}

/// The members that a list of fields gives: one for each field that has a
/// document, in the order of the fields.
pub open spec fn present(fields: Seq<(Seq<char>, Option<JsonModel>)>) -> Members
    decreases fields.len(),
{
    if fields.len() == 0 {
        Seq::empty()
    } else {
        match fields.last().1 {
            Some(doc) => present(fields.drop_last()).push((fields.last().0, doc)),
            None => present(fields.drop_last()),
        }
    }
}

/// The document of a record: an object with one member for each field in the
/// order of [`record_fields`]. An optional field that is absent has no member.
pub open spec fn encoded(c: CharacterView) -> JsonModel {
    JsonModel::Object(present(record_fields(c)))
}

/// The document of a string.
fn text_json(text: &String) -> (doc: Json)
    ensures
        doc@ == JsonModel::Text(text@),
{
    Json::Text(text.clone())
}

/// The document of an integer that is not negative.
fn unsigned_json(n: u64) -> (doc: Json)
    ensures
        doc@ == integer_doc(n as int),
{
    Json::Number(JsonNumber::Unsigned(n))
}

/// The document of an integer.
fn signed_json(i: i64) -> (doc: Json)
    ensures
        doc@ == integer_doc(i as int),
{
    if i >= 0 {
        Json::Number(JsonNumber::Unsigned(i as u64))
    } else {
        Json::Number(JsonNumber::Negative(i))
    }
}

/// The document of a list of strings.
fn texts_json(texts: &Vec<String>) -> (doc: Json)
    ensures
        doc@ == texts_doc(crate::character::texts_view(texts@)),
{
    let mut items: Vec<Json> = Vec::new();
    let mut i: usize = 0;
    while i < texts.len()
        invariant
            i <= texts.len(),
            items.len() == i,
            forall|j: int| 0 <= j < i ==> (#[trigger] items[j])@ == JsonModel::Text(texts[j]@),
        decreases texts.len() - i,
    {
        items.push(text_json(&texts[i]));
        i += 1;
    }
    let doc = Json::Array(items);
    proof {
        assert(doc@ == JsonModel::Array(items_view(items@)));
        assert(items_view(items@) =~= crate::character::texts_view(texts@).map_values(
            |t: Seq<char>| JsonModel::Text(t),
        ));
    }
    doc
}

/// The document of a list of small numbers.
fn small_numbers_json(numbers: &Vec<u8>) -> (doc: Json)
    ensures
        doc@ == small_numbers_doc(numbers@),
{
    let mut items: Vec<Json> = Vec::new();
    let mut i: usize = 0;
    while i < numbers.len()
        invariant
            i <= numbers.len(),
            items.len() == i,
            forall|j: int| 0 <= j < i ==> (#[trigger] items[j])@ == integer_doc(numbers[j] as int),
        decreases numbers.len() - i,
    {
        items.push(unsigned_json(numbers[i] as u64));
        i += 1;
    }
    let doc = Json::Array(items);
    proof {
        assert(doc@ == JsonModel::Array(items_view(items@)));
        assert(items_view(items@) =~= numbers@.map_values(|n: u8| integer_doc(n as int)));
    }
    doc
}

/// The document of a proficiency map.
fn bonuses_json(bonuses: &ProficiencyMap) -> (doc: Json)
    ensures
        doc@ == bonuses_doc(bonuses@),
{
    let entries = bonuses.entries();
    let mut members: Vec<(String, Json)> = Vec::new();
    let mut i: usize = 0;
    while i < entries.len()
        invariant
            i <= entries.len(),
            members.len() == i,
            forall|j: int|
                0 <= j < i ==> (#[trigger] members[j]).0@ == entries[j].0@ && members[j].1@
                    == integer_doc(entries[j].1 as int),
        decreases entries.len() - i,
    {
        members.push((entries[i].0.clone(), unsigned_json(entries[i].1 as u64)));
        i += 1;
    }
    let doc = Json::Object(members);
    proof {
        assert(doc@ == JsonModel::Object(members_view(members@)));
        assert(members_view(members@) =~= entries_view(entries@).map_values(
            |e: (Seq<char>, u8)| (e.0, integer_doc(e.1 as int)),
        ));
    }
    doc
}

/// The document of the ability scores.
fn scores_json(scores: &AbilityScores) -> (doc: Json)
    ensures
        doc@ == scores_doc(*scores),
{
    let members: Vec<(String, Json)> = vec![
        ("strength".to_owned(), unsigned_json(scores.strength as u64)),
        ("dexterity".to_owned(), unsigned_json(scores.dexterity as u64)),
        ("constitution".to_owned(), unsigned_json(scores.constitution as u64)),
        ("intelligence".to_owned(), unsigned_json(scores.intelligence as u64)),
        ("wisdom".to_owned(), unsigned_json(scores.wisdom as u64)),
        ("charisma".to_owned(), unsigned_json(scores.charisma as u64)),
    ];
    let doc = Json::Object(members);
    proof {
        assert(doc@ == JsonModel::Object(members_view(members@)));
        assert(members_view(members@) =~= scores_doc(*scores)->Object_0);
    }
    doc
}

/// The document of a purse.
fn currency_json(currency: &Currency) -> (doc: Json)
    ensures
        doc@ == currency_doc(*currency),
{
    let members: Vec<(String, Json)> = vec![
        ("platinum".to_owned(), unsigned_json(currency.platinum as u64)),
        ("gold".to_owned(), unsigned_json(currency.gold as u64)),
        ("silver".to_owned(), unsigned_json(currency.silver as u64)),
        ("copper".to_owned(), unsigned_json(currency.copper as u64)),
    ];
    let doc = Json::Object(members);
    proof {
        assert(doc@ == JsonModel::Object(members_view(members@)));
        assert(members_view(members@) =~= currency_doc(*currency)->Object_0);
    }
    doc
}

/// The value of a document that may be absent.
pub open spec fn optional_view(doc: Option<Json>) -> Option<JsonModel> {
    match doc {
        Some(d) => Some(d@),
        None => None,
    }
}

/// Adds the member of one field, if the field has a document.
fn put(
    members: &mut Vec<(String, Json)>,
    key: &str,
    doc: Option<Json>,
    Ghost(fields): Ghost<Seq<(Seq<char>, Option<JsonModel>)>>,
)
    requires
        fields.len() > 0,
        fields.last() == (key@, optional_view(doc)),
        members_view(old(members)@) == present(fields.drop_last()),
    ensures
        members_view(final(members)@) == present(fields),
{
    match doc {
        Some(d) => {
            members.push((key.to_owned(), d));
            proof {
                assert(members_view(members@) =~= members_view(old(members)@).push((key@, d@)));
            }
        },
        None => {},
    }
}

/// Writes a record as a document. The result is exactly [`encoded`]; the
/// record, like every record, is well formed.
pub fn encode_character(c: &Character) -> (doc: Json)
    ensures
        doc@ == encoded(c@),
        c@.wf(),
{
    let _ = c.saving_throw_proficiencies.entries();
    let _ = c.skill_proficiencies.entries();
    let ghost all = record_fields(c@);
    let mut members: Vec<(String, Json)> = Vec::new();
    proof {
        assert(members_view(members@) =~= present(all.take(0)));
    }
    let subrace = match &c.subrace {
        Some(s) => Some(text_json(s)),
        None => None,
    };
    let max_hit_points = match c.max_hit_points {
        Some(n) => Some(unsigned_json(n as u64)),
        None => None,
    };
    let currency = match &c.currency {
        Some(purse) => Some(currency_json(purse)),
        None => None,
    };
    proof {
        assert forall|k: int| 0 < k <= all.len() implies #[trigger] all.take(k).drop_last()
            == all.take(k - 1) && all.take(k).last() == all[k - 1] by {
            assert(all.take(k).drop_last() =~= all.take(k - 1));
        }
    }
    put(&mut members, "id", Some(text_json(&c.id)), Ghost(all.take(1)));
    put(&mut members, "name", Some(text_json(&c.name)), Ghost(all.take(2)));
    put(&mut members, "race", Some(text_json(&c.race)), Ghost(all.take(3)));
    put(&mut members, "subrace", subrace, Ghost(all.take(4)));
    put(&mut members, "class", Some(text_json(&c.class)), Ghost(all.take(5)));
    put(&mut members, "background", Some(text_json(&c.background)), Ghost(all.take(6)));
    put(&mut members, "alignment", Some(text_json(&c.alignment)), Ghost(all.take(7)));
    put(&mut members, "level", Some(unsigned_json(c.level as u64)), Ghost(all.take(8)));
    put(&mut members, "ability_scores", Some(scores_json(&c.ability_scores)), Ghost(all.take(9)));
    put(&mut members, "hit_points", Some(unsigned_json(c.hit_points as u64)), Ghost(all.take(10)));
    put(&mut members, "max_hit_points", max_hit_points, Ghost(all.take(11)));
    put(&mut members, "armor_class", Some(unsigned_json(c.armor_class as u64)), Ghost(all.take(12)));
    put(&mut members, "initiative", Some(signed_json(c.initiative as i64)), Ghost(all.take(13)));
    put(&mut members, "equipment", Some(texts_json(&c.equipment)), Ghost(all.take(14)));
    put(&mut members, "spells", Some(texts_json(&c.spells)), Ghost(all.take(15)));
    put(&mut members, "spell_slots", Some(small_numbers_json(&c.spell_slots)), Ghost(all.take(16)));
    put(&mut members, "notes", Some(text_json(&c.notes)), Ghost(all.take(17)));
    put(
        &mut members,
        "saving_throw_proficiencies",
        Some(bonuses_json(&c.saving_throw_proficiencies)),
        Ghost(all.take(18)),
    );
    put(
        &mut members,
        "skill_proficiencies",
        Some(bonuses_json(&c.skill_proficiencies)),
        Ghost(all.take(19)),
    );
    put(
        &mut members,
        "armor_proficiencies",
        Some(texts_json(&c.armor_proficiencies)),
        Ghost(all.take(20)),
    );
    put(
        &mut members,
        "weapon_proficiencies",
        Some(texts_json(&c.weapon_proficiencies)),
        Ghost(all.take(21)),
    );
    put(
        &mut members,
        "tool_proficiencies",
        Some(texts_json(&c.tool_proficiencies)),
        Ghost(all.take(22)),
    );
    put(&mut members, "languages", Some(texts_json(&c.languages)), Ghost(all.take(23)));
    put(
        &mut members,
        "heroic_inspiration",
        Some(Json::Bool(c.heroic_inspiration)),
        Ghost(all.take(24)),
    );
    put(&mut members, "used_abilities", Some(texts_json(&c.used_abilities)), Ghost(all.take(25)));
    put(&mut members, "currency", currency, Ghost(all.take(26)));
    let doc = Json::Object(members);
    proof {
        assert(all.take(26) =~= all);
        assert(doc@ == JsonModel::Object(members_view(members@)));
    }
    doc
}

} // verus!
