//! Reading a character record out of a JSON document.

use crate::character::{
    default_alignment, default_alignment_text, AbilityScores, Character, CharacterView, Currency,
};
use crate::fields::{
    defaulted_bonuses, defaulted_bool, defaulted_integer, defaulted_text, defaulted_texts,
    optional_integer, optional_text, read_defaulted_bonuses, read_defaulted_bool,
    read_defaulted_integer, read_defaulted_text, read_defaulted_texts, read_optional_integer,
    read_optional_text, read_required_integer, read_required_small_numbers, read_required_text,
    read_required_texts, required_integer, required_small_numbers, required_text, required_texts,
    DecodeError, DecodeFailure, Members,
};
use crate::json::{find_member, members_view, Json, JsonModel};
use crate::keyed::{has_key, value_of};
use vstd::prelude::*;

verus! {

/// The ability scores that the members of an object hold: six required
/// integers from 0 to 255. The first field that fails gives the failure.
pub open spec fn scores_of(m: Members) -> Result<AbilityScores, DecodeFailure> {
    let strength = required_integer(m, "strength"@, 0, 255);
    let dexterity = required_integer(m, "dexterity"@, 0, 255);
    let constitution = required_integer(m, "constitution"@, 0, 255);
    let intelligence = required_integer(m, "intelligence"@, 0, 255);
    let wisdom = required_integer(m, "wisdom"@, 0, 255);
    let charisma = required_integer(m, "charisma"@, 0, 255);
    if strength is Err {
        Err(strength->Err_0)
    } else if dexterity is Err {
        Err(dexterity->Err_0)
    } else if constitution is Err {
        Err(constitution->Err_0)
    } else if intelligence is Err {
        Err(intelligence->Err_0)
    } else if wisdom is Err {
        Err(wisdom->Err_0)
    } else if charisma is Err {
        Err(charisma->Err_0)
    } else {
        Ok(
            AbilityScores {
                strength: strength->Ok_0 as u8,
                dexterity: dexterity->Ok_0 as u8,
                constitution: constitution->Ok_0 as u8,
                intelligence: intelligence->Ok_0 as u8,
                wisdom: wisdom->Ok_0 as u8,
                charisma: charisma->Ok_0 as u8,
            },
        )
    }
}

/// Reads the ability scores out of the members of an object.
pub fn read_scores(members: &Vec<(String, Json)>) -> (r: Result<AbilityScores, DecodeError>)
    ensures
        match r {
            Ok(scores) => scores_of(members_view(members@)) == Ok::<_, DecodeFailure>(scores),
            Err(e) => scores_of(members_view(members@)) == Err::<AbilityScores, _>(e@),
        },
{
    let strength = read_required_integer(members, "strength", 0, 255)?;
    let dexterity = read_required_integer(members, "dexterity", 0, 255)?;
    let constitution = read_required_integer(members, "constitution", 0, 255)?;
    let intelligence = read_required_integer(members, "intelligence", 0, 255)?;
    let wisdom = read_required_integer(members, "wisdom", 0, 255)?;
    let charisma = read_required_integer(members, "charisma", 0, 255)?;
    Ok(
        AbilityScores {
            strength: strength as u8,
            dexterity: dexterity as u8,
            constitution: constitution as u8,
            intelligence: intelligence as u8,
            wisdom: wisdom as u8,
            charisma: charisma as u8,
        },
    )
}

/// The purse that the members of an object hold: four integers from 0 to
/// `u32::MAX`, each 0 where it is missing. The first field that fails gives
/// the failure.
pub open spec fn currency_of(m: Members) -> Result<Currency, DecodeFailure> {
    let platinum = defaulted_integer(m, "platinum"@, 0, u32::MAX as int, 0);
    let gold = defaulted_integer(m, "gold"@, 0, u32::MAX as int, 0);
    let silver = defaulted_integer(m, "silver"@, 0, u32::MAX as int, 0);
    let copper = defaulted_integer(m, "copper"@, 0, u32::MAX as int, 0);
    if platinum is Err {
        Err(platinum->Err_0)
    } else if gold is Err {
        Err(gold->Err_0)
    } else if silver is Err {
        Err(silver->Err_0)
    } else if copper is Err {
        Err(copper->Err_0)
    } else {
        Ok(
            Currency {
                platinum: platinum->Ok_0 as u32,
                gold: gold->Ok_0 as u32,
                silver: silver->Ok_0 as u32,
                copper: copper->Ok_0 as u32,
            },
        )
    }
}

/// Reads the purse out of the members of an object.
pub fn read_currency(members: &Vec<(String, Json)>) -> (r: Result<Currency, DecodeError>)
    ensures
        match r {
            Ok(currency) => currency_of(members_view(members@)) == Ok::<_, DecodeFailure>(currency),
            Err(e) => currency_of(members_view(members@)) == Err::<Currency, _>(e@),
        },
{
    let platinum = read_defaulted_integer(members, "platinum", 0, 0xffff_ffff, 0)?;
    let gold = read_defaulted_integer(members, "gold", 0, 0xffff_ffff, 0)?;
    let silver = read_defaulted_integer(members, "silver", 0, 0xffff_ffff, 0)?;
    let copper = read_defaulted_integer(members, "copper", 0, 0xffff_ffff, 0)?;
    Ok(
        Currency {
            platinum: platinum as u32,
            gold: gold as u32,
            silver: silver as u32,
            copper: copper as u32,
        },
    )
}

/// The ability scores under `key`: the member is required and is an object.
pub open spec fn required_scores(m: Members, key: Seq<char>) -> Result<
    AbilityScores,
    DecodeFailure,
> {
    match value_of(m, key) {
        None => Err(DecodeFailure::MissingField(key)),
        Some(JsonModel::Object(inner)) => scores_of(inner),
        Some(_) => Err(DecodeFailure::InvalidField(key)),
    }
}

/// The purse under `key`: the member is optional and, where it is there and
/// not `null`, an object.
pub open spec fn optional_currency(m: Members, key: Seq<char>) -> Result<
    Option<Currency>,
    DecodeFailure,
> {
    match value_of(m, key) {
        None => Ok(None),
        Some(JsonModel::Null) => Ok(None),
        Some(JsonModel::Object(inner)) => match currency_of(inner) {
            Ok(currency) => Ok(Some(currency)),
            Err(e) => Err(e),
        },
        Some(_) => Err(DecodeFailure::InvalidField(key)),
    }
}

/// Reads the ability scores under `key`.
pub fn read_required_scores(members: &Vec<(String, Json)>, key: &str) -> (r: Result<
    AbilityScores,
    DecodeError,
>)
    ensures
        match r {
            Ok(scores) => required_scores(members_view(members@), key@) == Ok::<_, DecodeFailure>(
                scores,
            ),
            Err(e) => required_scores(members_view(members@), key@) == Err::<AbilityScores, _>(e@),
        },
{
    match find_member(members, key) {
        None => Err(DecodeError::MissingField(key.to_owned())),
        Some(Json::Object(inner)) => read_scores(inner),
        Some(_) => Err(DecodeError::InvalidField(key.to_owned())),
    }
}

/// Reads the purse under `key`.
pub fn read_optional_currency(members: &Vec<(String, Json)>, key: &str) -> (r: Result<
    Option<Currency>,
    DecodeError,
>)
    ensures
        match r {
            Ok(currency) => optional_currency(members_view(members@), key@) == Ok::<
                _,
                DecodeFailure,
            >(currency),
            Err(e) => optional_currency(members_view(members@), key@) == Err::<Option<Currency>, _>(
                e@,
            ),
        },
{
    match find_member(members, key) {
        None => Ok(None),
        Some(Json::Null) => Ok(None),
        Some(Json::Object(inner)) => match read_currency(inner) {
            Ok(currency) => Ok(Some(currency)),
            Err(e) => Err(e),
        },
        Some(_) => Err(DecodeError::InvalidField(key.to_owned())),
    }
}

/// The record that the members of an object hold. The fields are read in the
/// order of [`CharacterView`], and the first that fails gives the failure.
///
/// `subrace`, `max_hit_points` and `currency` are optional. `alignment` is
/// `"Neutral"` where it is missing; the proficiencies, the languages and the
/// used abilities are empty, and `heroic_inspiration` is `false`, where they
/// are missing. Every other field is required. A member under any other name
/// is passed over.
pub open spec fn record_of(m: Members) -> Result<CharacterView, DecodeFailure> {
    let id = required_text(m, "id"@);
    let name = required_text(m, "name"@);
    let race = required_text(m, "race"@);
    let subrace = optional_text(m, "subrace"@);
    let class = required_text(m, "class"@);
    let background = required_text(m, "background"@);
    let alignment = defaulted_text(m, "alignment"@, default_alignment_text());
    let level = required_integer(m, "level"@, 0, 255);
    let ability_scores = required_scores(m, "ability_scores"@);
    let hit_points = required_integer(m, "hit_points"@, 0, 65535);
    let max_hit_points = optional_integer(m, "max_hit_points"@, 0, 65535);
    let armor_class = required_integer(m, "armor_class"@, 0, 255);
    let initiative = required_integer(m, "initiative"@, -128, 127);
    let equipment = required_texts(m, "equipment"@);
    let spells = required_texts(m, "spells"@);
    let spell_slots = required_small_numbers(m, "spell_slots"@);
    let notes = required_text(m, "notes"@);
    let saving_throws = defaulted_bonuses(m, "saving_throw_proficiencies"@);
    let skills = defaulted_bonuses(m, "skill_proficiencies"@);
    let armor = defaulted_texts(m, "armor_proficiencies"@);
    let weapons = defaulted_texts(m, "weapon_proficiencies"@);
    let tools = defaulted_texts(m, "tool_proficiencies"@);
    let languages = defaulted_texts(m, "languages"@);
    let heroic_inspiration = defaulted_bool(m, "heroic_inspiration"@, false);
    let used_abilities = defaulted_texts(m, "used_abilities"@);
    let currency = optional_currency(m, "currency"@);
    if id is Err {
        Err(id->Err_0)
    } else if name is Err {
        Err(name->Err_0)
    } else if race is Err {
        Err(race->Err_0)
    } else if subrace is Err {
        Err(subrace->Err_0)
    } else if class is Err {
        Err(class->Err_0)
    } else if background is Err {
        Err(background->Err_0)
    } else if alignment is Err {
        Err(alignment->Err_0)
    } else if level is Err {
        Err(level->Err_0)
    } else if ability_scores is Err {
        Err(ability_scores->Err_0)
    } else if hit_points is Err {
        Err(hit_points->Err_0)
    } else if max_hit_points is Err {
        Err(max_hit_points->Err_0)
    } else if armor_class is Err {
        Err(armor_class->Err_0)
    } else if initiative is Err {
        Err(initiative->Err_0)
    } else if equipment is Err {
        Err(equipment->Err_0)
    } else if spells is Err {
        Err(spells->Err_0)
    } else if spell_slots is Err {
        Err(spell_slots->Err_0)
    } else if notes is Err {
        Err(notes->Err_0)
    } else if saving_throws is Err {
        Err(saving_throws->Err_0)
    } else if skills is Err {
        Err(skills->Err_0)
    } else if armor is Err {
        Err(armor->Err_0)
    } else if weapons is Err {
        Err(weapons->Err_0)
    } else if tools is Err {
        Err(tools->Err_0)
    } else if languages is Err {
        Err(languages->Err_0)
    } else if heroic_inspiration is Err {
        Err(heroic_inspiration->Err_0)
    } else if used_abilities is Err {
        Err(used_abilities->Err_0)
    } else if currency is Err {
        Err(currency->Err_0)
    } else {
        Ok(
            CharacterView {
                id: id->Ok_0,
                name: name->Ok_0,
                race: race->Ok_0,
                subrace: subrace->Ok_0,
                class: class->Ok_0,
                background: background->Ok_0,
                alignment: alignment->Ok_0,
                level: level->Ok_0 as u8,
                ability_scores: ability_scores->Ok_0,
                hit_points: hit_points->Ok_0 as u16,
                max_hit_points: match max_hit_points->Ok_0 {
                    Some(n) => Some(n as u16),
                    None => None,
                },
                armor_class: armor_class->Ok_0 as u8,
                initiative: initiative->Ok_0 as i8,
                equipment: equipment->Ok_0,
                spells: spells->Ok_0,
                spell_slots: spell_slots->Ok_0,
                notes: notes->Ok_0,
                saving_throw_proficiencies: saving_throws->Ok_0,
                skill_proficiencies: skills->Ok_0,
                armor_proficiencies: armor->Ok_0,
                weapon_proficiencies: weapons->Ok_0,
                tool_proficiencies: tools->Ok_0,
                languages: languages->Ok_0,
                heroic_inspiration: heroic_inspiration->Ok_0,
                used_abilities: used_abilities->Ok_0,
                currency: currency->Ok_0,
            },
        )
    }
}

/// The record that a document holds: the document is an object, and its
/// members are read by [`record_of`].
pub open spec fn decoded(doc: JsonModel) -> Result<CharacterView, DecodeFailure> {
    match doc {
        JsonModel::Object(m) => record_of(m),
        _ => Err(DecodeFailure::NotAnObject),
    }
}

/// Reads a record out of the members of an object.
pub fn read_record(members: &Vec<(String, Json)>) -> (r: Result<Character, DecodeError>)
    ensures
        match r {
            Ok(c) => record_of(members_view(members@)) == Ok::<_, DecodeFailure>(c@),
            Err(e) => record_of(members_view(members@)) == Err::<CharacterView, _>(e@),
        },
{
    let id = read_required_text(members, "id")?;
    let name = read_required_text(members, "name")?;
    let race = read_required_text(members, "race")?;
    let subrace = read_optional_text(members, "subrace")?;
    let class = read_required_text(members, "class")?;
    let background = read_required_text(members, "background")?;
    let alignment = read_defaulted_text(members, "alignment", default_alignment())?;
    let level = read_required_integer(members, "level", 0, 255)?;
    let ability_scores = read_required_scores(members, "ability_scores")?;
    let hit_points = read_required_integer(members, "hit_points", 0, 65535)?;
    let max_hit_points = read_optional_integer(members, "max_hit_points", 0, 65535)?;
    let armor_class = read_required_integer(members, "armor_class", 0, 255)?;
    let initiative = read_required_integer(members, "initiative", -128, 127)?;
    let equipment = read_required_texts(members, "equipment")?;
    let spells = read_required_texts(members, "spells")?;
    let spell_slots = read_required_small_numbers(members, "spell_slots")?;
    let notes = read_required_text(members, "notes")?;
    let saving_throw_proficiencies = read_defaulted_bonuses(members, "saving_throw_proficiencies")?;
    let skill_proficiencies = read_defaulted_bonuses(members, "skill_proficiencies")?;
    let armor_proficiencies = read_defaulted_texts(members, "armor_proficiencies")?;
    let weapon_proficiencies = read_defaulted_texts(members, "weapon_proficiencies")?;
    let tool_proficiencies = read_defaulted_texts(members, "tool_proficiencies")?;
    let languages = read_defaulted_texts(members, "languages")?;
    let heroic_inspiration = read_defaulted_bool(members, "heroic_inspiration", false)?;
    let used_abilities = read_defaulted_texts(members, "used_abilities")?;
    let currency = read_optional_currency(members, "currency")?;
    Ok(
        Character {
            id,
            name,
            race,
            subrace,
            class,
            background,
            alignment,
            level: level as u8,
            ability_scores,
            hit_points: hit_points as u16,
            max_hit_points: match max_hit_points {
                Some(n) => Some(n as u16),
                None => None,
            },
            armor_class: armor_class as u8,
            initiative: initiative as i8,
            equipment,
            spells,
            spell_slots,
            notes,
            saving_throw_proficiencies,
            skill_proficiencies,
            armor_proficiencies,
            weapon_proficiencies,
            tool_proficiencies,
            languages,
            heroic_inspiration,
            used_abilities,
            currency,
        },
    )
}

/// Reads a record out of a document. The result is exactly [`decoded`].
pub fn decode_character(doc: &Json) -> (r: Result<Character, DecodeError>)
    ensures
        match r {
            Ok(c) => decoded(doc@) == Ok::<_, DecodeFailure>(c@),
            Err(e) => decoded(doc@) == Err::<CharacterView, _>(e@),
        },
{
    match doc {
        Json::Object(members) => read_record(members),
        _ => Err(DecodeError::NotAnObject),
    }
}

/// A record that was written without an alignment is read with the alignment
/// `"Neutral"`.
pub proof fn law_missing_alignment_is_neutral(m: Members)
    requires
        !has_key(m, "alignment"@),
    ensures
        record_of(m) matches Ok(c) ==> c.alignment == "Neutral"@,
{
}

/// A record that was written without a purse is read without one. A purse
/// that was written without a denomination is read with none of its coins.
pub proof fn law_missing_currency_is_absent(m: Members)
    ensures
        !has_key(m, "currency"@) ==> (record_of(m) matches Ok(c) ==> c.currency is None),
        currency_of(m) matches Ok(purse) ==> {
            &&& !has_key(m, "platinum"@) ==> purse.platinum == 0
            &&& !has_key(m, "gold"@) ==> purse.gold == 0
            &&& !has_key(m, "silver"@) ==> purse.silver == 0
            &&& !has_key(m, "copper"@) ==> purse.copper == 0
        },
        currency_of(Seq::empty()) == Ok::<_, DecodeFailure>(Currency::empty()),
{
    assert(!has_key(Seq::<(Seq<char>, JsonModel)>::empty(), "platinum"@));
    assert(!has_key(Seq::<(Seq<char>, JsonModel)>::empty(), "gold"@));
    assert(!has_key(Seq::<(Seq<char>, JsonModel)>::empty(), "silver"@));
    assert(!has_key(Seq::<(Seq<char>, JsonModel)>::empty(), "copper"@));
}

/// A record that was written without its proficiencies, its languages or
/// its used abilities is read with each of them empty, and one written
/// without heroic inspiration is read as having none.
pub proof fn law_missing_collections_are_empty(m: Members)
    ensures
        record_of(m) matches Ok(c) ==> {
            &&& !has_key(m, "saving_throw_proficiencies"@) ==> c.saving_throw_proficiencies.len()
                == 0
            &&& !has_key(m, "skill_proficiencies"@) ==> c.skill_proficiencies.len() == 0
            &&& !has_key(m, "armor_proficiencies"@) ==> c.armor_proficiencies.len() == 0
            &&& !has_key(m, "weapon_proficiencies"@) ==> c.weapon_proficiencies.len() == 0
            &&& !has_key(m, "tool_proficiencies"@) ==> c.tool_proficiencies.len() == 0
            &&& !has_key(m, "languages"@) ==> c.languages.len() == 0
            &&& !has_key(m, "used_abilities"@) ==> c.used_abilities.len() == 0
            &&& !has_key(m, "heroic_inspiration"@) ==> !c.heroic_inspiration
        },
{
}

} // verus!
