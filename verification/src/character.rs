//! The character record and its parts.

use crate::keyed::distinct_keys;
use crate::proficiency::ProficiencyMap;
use vstd::prelude::*;

verus! {

/// The six ability scores of a character. No score is range-checked.
#[derive(Clone, Copy, Debug, PartialEq, Eq, Structural)]
pub struct AbilityScores {
    pub strength: u8,
    pub dexterity: u8,
    pub constitution: u8,
    pub intelligence: u8,
    pub wisdom: u8,
    pub charisma: u8,
}

/// The coins a character carries, by denomination.
#[derive(Clone, Copy, Debug, PartialEq, Eq, Structural)]
pub struct Currency {
    pub platinum: u32,
    pub gold: u32,
    pub silver: u32,
    pub copper: u32,
}

impl Currency {
    /// The purse with no coin of any denomination.
    pub open spec fn empty() -> Currency {
        Currency { platinum: 0, gold: 0, silver: 0, copper: 0 }
    }
}

impl Default for Currency {
    fn default() -> (r: Currency)
        ensures
            r == Currency::empty(),
    {
        Currency { platinum: 0, gold: 0, silver: 0, copper: 0 }
    }
}

/// The alignment of a record that names none.
pub open spec fn default_alignment_text() -> Seq<char> {
    "Neutral"@
}

/// The alignment given to a record that was written without one.
pub fn default_alignment() -> (r: String)
    ensures
        r@ == default_alignment_text(),
{
    "Neutral".to_owned()
}

/// The characters of each string of a list.
pub open spec fn texts_view(texts: Seq<String>) -> Seq<Seq<char>> {
    texts.map_values(|t: String| t@)
}

/// One character sheet. The store keeps one file for each `id`.
#[derive(Clone, Debug, PartialEq)]
pub struct Character {
    pub id: String,
    pub name: String,
    pub race: String,
    pub subrace: Option<String>,
    pub class: String,
    pub background: String,
    pub alignment: String,
    pub level: u8,
    pub ability_scores: AbilityScores,
    pub hit_points: u16,
    pub max_hit_points: Option<u16>,
    pub armor_class: u8,
    pub initiative: i8,
    pub equipment: Vec<String>,
    pub spells: Vec<String>,
    /// The number of spell slots of each spell level, the first level first.
    pub spell_slots: Vec<u8>,
    pub notes: String,
    pub saving_throw_proficiencies: ProficiencyMap,
    pub skill_proficiencies: ProficiencyMap,
    pub armor_proficiencies: Vec<String>,
    pub weapon_proficiencies: Vec<String>,
    pub tool_proficiencies: Vec<String>,
    pub languages: Vec<String>,
    pub heroic_inspiration: bool,
    /// The names of the special abilities that were used up.
    pub used_abilities: Vec<String>,
    pub currency: Option<Currency>,
}

/// The mathematical value of a [`Character`].
pub struct CharacterView {
    pub id: Seq<char>,
    pub name: Seq<char>,
    pub race: Seq<char>,
    pub subrace: Option<Seq<char>>,
    pub class: Seq<char>,
    pub background: Seq<char>,
    pub alignment: Seq<char>,
    pub level: u8,
    pub ability_scores: AbilityScores,
    pub hit_points: u16,
    pub max_hit_points: Option<u16>,
    pub armor_class: u8,
    pub initiative: i8,
    pub equipment: Seq<Seq<char>>,
    pub spells: Seq<Seq<char>>,
    pub spell_slots: Seq<u8>,
    pub notes: Seq<char>,
    pub saving_throw_proficiencies: Seq<(Seq<char>, u8)>,
    pub skill_proficiencies: Seq<(Seq<char>, u8)>,
    pub armor_proficiencies: Seq<Seq<char>>,
    pub weapon_proficiencies: Seq<Seq<char>>,
    pub tool_proficiencies: Seq<Seq<char>>,
    pub languages: Seq<Seq<char>>,
    pub heroic_inspiration: bool,
    pub used_abilities: Seq<Seq<char>>,
    pub currency: Option<Currency>,
}

impl CharacterView {
    /// Whether the value is that of some [`Character`]: in each of its two
    /// proficiency maps no name occurs twice.
    pub open spec fn wf(self) -> bool {
        &&& distinct_keys(self.saving_throw_proficiencies)
        &&& distinct_keys(self.skill_proficiencies)
    }
}

impl View for Character {
    type V = CharacterView;

    open spec fn view(&self) -> CharacterView {
        CharacterView {
            id: self.id@,
            name: self.name@,
            race: self.race@,
            subrace: match self.subrace {
                Some(s) => Some(s@),
                None => None,
            },
            class: self.class@,
            background: self.background@,
            alignment: self.alignment@,
            level: self.level,
            ability_scores: self.ability_scores,
            hit_points: self.hit_points,
            max_hit_points: self.max_hit_points,
            armor_class: self.armor_class,
            initiative: self.initiative,
            equipment: texts_view(self.equipment@),
            spells: texts_view(self.spells@),
            spell_slots: self.spell_slots@,
            notes: self.notes@,
            saving_throw_proficiencies: self.saving_throw_proficiencies@,
            skill_proficiencies: self.skill_proficiencies@,
            armor_proficiencies: texts_view(self.armor_proficiencies@),
            weapon_proficiencies: texts_view(self.weapon_proficiencies@),
            tool_proficiencies: texts_view(self.tool_proficiencies@),
            languages: texts_view(self.languages@),
            heroic_inspiration: self.heroic_inspiration,
            used_abilities: texts_view(self.used_abilities@),
            currency: self.currency,
        }
    }
}

} // verus!
