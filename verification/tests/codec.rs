use character_store::character::{default_alignment, AbilityScores, Character, Currency};
use character_store::codec::{parse_character, record_from, serialize_character, text_from};
use character_store::decode::decode_character;
use character_store::encode::encode_character;
use character_store::error::{FailureKind, StorageError};
use character_store::fields::DecodeError;
use character_store::json::{Json, JsonNumber};
use character_store::proficiency::ProficiencyMap;

fn fenn() -> Character {
    Character {
        id: "abc".to_string(),
        name: "Fenn".to_string(),
        race: "Halfling".to_string(),
        subrace: None,
        class: "Rogue".to_string(),
        background: "Urchin".to_string(),
        alignment: default_alignment(),
        level: 3,
        ability_scores: AbilityScores {
            strength: 10,
            dexterity: 14,
            constitution: 12,
            intelligence: 8,
            wisdom: 13,
            charisma: 15,
        },
        hit_points: 22,
        max_hit_points: None,
        armor_class: 15,
        initiative: 2,
        equipment: Vec::new(),
        spells: Vec::new(),
        spell_slots: Vec::new(),
        notes: String::new(),
        saving_throw_proficiencies: ProficiencyMap::new(),
        skill_proficiencies: ProficiencyMap::new(),
        armor_proficiencies: Vec::new(),
        weapon_proficiencies: Vec::new(),
        tool_proficiencies: Vec::new(),
        languages: Vec::new(),
        heroic_inspiration: false,
        used_abilities: Vec::new(),
        currency: None,
    }
}

fn lyra() -> Character {
    let mut saves = ProficiencyMap::new();
    saves.insert("wisdom".to_string(), 5);
    saves.insert("charisma".to_string(), 4);
    let mut skills = ProficiencyMap::new();
    skills.insert("Arcana".to_string(), 6);
    Character {
        id: "lyra-01".to_string(),
        name: "Lyra \"the Quick\" Ñandú".to_string(),
        race: "Elf".to_string(),
        subrace: Some("High Elf".to_string()),
        class: "Wizard".to_string(),
        background: "Sage".to_string(),
        alignment: "Lawful Good".to_string(),
        level: 255,
        ability_scores: AbilityScores {
            strength: 0,
            dexterity: 255,
            constitution: 1,
            intelligence: 20,
            wisdom: 2,
            charisma: 3,
        },
        hit_points: 65535,
        max_hit_points: Some(0),
        armor_class: 0,
        initiative: -128,
        equipment: vec!["Staff".to_string(), "Spell book\n(second)".to_string()],
        spells: vec!["Mage Hand".to_string()],
        spell_slots: vec![4, 3, 0, 255],
        notes: "line one\nline two\t\\ end".to_string(),
        saving_throw_proficiencies: saves,
        skill_proficiencies: skills,
        armor_proficiencies: vec!["Light".to_string()],
        weapon_proficiencies: vec!["Dagger".to_string(), "Dart".to_string()],
        tool_proficiencies: vec!["Thieves' tools".to_string()],
        languages: vec!["Common".to_string(), "Elvish".to_string()],
        heroic_inspiration: true,
        used_abilities: vec!["Second Wind".to_string()],
        currency: Some(Currency { platinum: 1, gold: 4294967295, silver: 0, copper: 7 }),
    }
}

const FENN_TEXT: &str = r#"{
  "id": "abc",
  "name": "Fenn",
  "race": "Halfling",
  "class": "Rogue",
  "background": "Urchin",
  "alignment": "Neutral",
  "level": 3,
  "ability_scores": {
    "strength": 10,
    "dexterity": 14,
    "constitution": 12,
    "intelligence": 8,
    "wisdom": 13,
    "charisma": 15
  },
  "hit_points": 22,
  "armor_class": 15,
  "initiative": 2,
  "equipment": [],
  "spells": [],
  "spell_slots": [],
  "notes": "",
  "saving_throw_proficiencies": {},
  "skill_proficiencies": {},
  "armor_proficiencies": [],
  "weapon_proficiencies": [],
  "tool_proficiencies": [],
  "languages": [],
  "heroic_inspiration": false,
  "used_abilities": []
}"#;

const MINIMAL_TEXT: &str = r#"{
  "id": "old-1", "name": "Brakk", "race": "Orc", "class": "Fighter",
  "background": "Soldier", "level": 1,
  "ability_scores": {"strength": 16, "dexterity": 10, "constitution": 14,
                     "intelligence": 8, "wisdom": 10, "charisma": 9},
  "hit_points": 12, "armor_class": 16, "initiative": 0,
  "equipment": ["Axe"], "spells": [], "spell_slots": [], "notes": "veteran"
}"#;

fn with_member(name: &str, value: &str) -> String {
    let body = MINIMAL_TEXT.trim_end().trim_end_matches('}');
    format!("{}, \"{}\": {} }}", body, name, value)
}

fn without_member(name: &str) -> String {
    let doc: serde_json::Value = serde_json::from_str(MINIMAL_TEXT).unwrap();
    let mut map = doc.as_object().unwrap().clone();
    map.shift_remove(name);
    serde_json::to_string(&serde_json::Value::Object(map)).unwrap()
}

fn parse_cause(text: &str) -> String {
    match parse_character(text) {
        Err(StorageError::Parse(cause)) => cause,
        other => panic!("expected a parse error, got {:?}", other),
    }
}

#[test]
fn default_alignment_is_neutral() {
    assert_eq!(default_alignment(), "Neutral");
}

#[test]
fn serialize_gives_the_exact_pretty_text() {
    assert_eq!(serialize_character(&fenn()).unwrap(), FENN_TEXT);
}

#[test]
fn serialize_leaves_absent_optional_fields_out() {
    let text = serialize_character(&fenn()).unwrap();
    assert!(!text.contains("subrace"));
    assert!(!text.contains("max_hit_points"));
    assert!(!text.contains("currency"));
    let text = serialize_character(&lyra()).unwrap();
    assert!(text.contains("\"subrace\": \"High Elf\""));
    assert!(text.contains("\"max_hit_points\": 0"));
    assert!(text.contains("\"gold\": 4294967295"));
    assert!(text.contains("\"initiative\": -128"));
}

#[test]
fn parse_reads_the_exact_pretty_text() {
    assert_eq!(parse_character(FENN_TEXT).unwrap(), fenn());
}

#[test]
fn text_round_trip_keeps_every_field() {
    for c in [fenn(), lyra()] {
        let text = serialize_character(&c).unwrap();
        let back = parse_character(&text).unwrap();
        assert_eq!(back, c);
        assert_eq!(back.saving_throw_proficiencies.entries(), c.saving_throw_proficiencies.entries());
        assert_eq!(serialize_character(&back).unwrap(), text);
    }
}

#[test]
fn document_round_trip_keeps_every_field() {
    for c in [fenn(), lyra()] {
        assert_eq!(decode_character(&encode_character(&c)).unwrap(), c);
    }
}

#[test]
fn encode_puts_the_fields_in_their_order() {
    let names: Vec<String> = match encode_character(&lyra()) {
        Json::Object(members) => members.into_iter().map(|m| m.0).collect(),
        other => panic!("expected an object, got {:?}", other),
    };
    assert_eq!(
        names,
        vec![
            "id", "name", "race", "subrace", "class", "background", "alignment", "level",
            "ability_scores", "hit_points", "max_hit_points", "armor_class", "initiative",
            "equipment", "spells", "spell_slots", "notes", "saving_throw_proficiencies",
            "skill_proficiencies", "armor_proficiencies", "weapon_proficiencies",
            "tool_proficiencies", "languages", "heroic_inspiration", "used_abilities", "currency",
        ]
    );
}

#[test]
fn missing_alignment_parses_as_neutral() {
    let c = parse_character(MINIMAL_TEXT).unwrap();
    assert_eq!(c.alignment, "Neutral");
    assert_eq!(c.id, "old-1");
    assert_eq!(c.name, "Brakk");
    assert_eq!(c.ability_scores.strength, 16);
    assert_eq!(c.equipment, vec!["Axe".to_string()]);
}

#[test]
fn missing_currency_parses_as_absent() {
    let c = parse_character(MINIMAL_TEXT).unwrap();
    assert_eq!(c.currency, None);
    assert_eq!(c.subrace, None);
    assert_eq!(c.max_hit_points, None);
}

#[test]
fn missing_coins_parse_as_zero() {
    let c = parse_character(&with_member("currency", "{}")).unwrap();
    assert_eq!(c.currency, Some(Currency { platinum: 0, gold: 0, silver: 0, copper: 0 }));
    assert_eq!(c.currency, Some(Currency::default()));
    let c = parse_character(&with_member("currency", "{\"gold\": 12, \"copper\": 3}")).unwrap();
    assert_eq!(c.currency, Some(Currency { platinum: 0, gold: 12, silver: 0, copper: 3 }));
}

#[test]
fn missing_collections_parse_as_empty() {
    let c = parse_character(MINIMAL_TEXT).unwrap();
    assert_eq!(c.saving_throw_proficiencies.len(), 0);
    assert_eq!(c.skill_proficiencies.len(), 0);
    assert!(c.armor_proficiencies.is_empty());
    assert!(c.weapon_proficiencies.is_empty());
    assert!(c.tool_proficiencies.is_empty());
    assert!(c.languages.is_empty());
    assert!(c.used_abilities.is_empty());
    assert!(!c.heroic_inspiration);
}

#[test]
fn null_is_absent_only_for_optional_fields() {
    let c = parse_character(&with_member("currency", "null")).unwrap();
    assert_eq!(c.currency, None);
    let c = parse_character(&with_member("subrace", "null")).unwrap();
    assert_eq!(c.subrace, None);
    let c = parse_character(&with_member("max_hit_points", "null")).unwrap();
    assert_eq!(c.max_hit_points, None);
    assert_eq!(parse_cause(&with_member("alignment", "null")), "invalid value for field `alignment`");
    assert_eq!(parse_cause(&with_member("languages", "null")), "invalid value for field `languages`");
    assert_eq!(
        parse_cause(&with_member("currency", "{\"gold\": null}")),
        "invalid value for field `gold`"
    );
}

#[test]
fn unknown_members_are_passed_over() {
    let c = parse_character(&with_member("portrait", "{\"w\": 1.5, \"tags\": [null, true]}")).unwrap();
    assert_eq!(c.name, "Brakk");
}

#[test]
fn proficiencies_are_read_in_their_order() {
    let c = parse_character(&with_member(
        "skill_proficiencies",
        "{\"Stealth\": 7, \"Arcana\": 2, \"Athletics\": 0}",
    ))
    .unwrap();
    let entries = c.skill_proficiencies.entries().clone();
    assert_eq!(
        entries,
        vec![("Stealth".to_string(), 7), ("Arcana".to_string(), 2), ("Athletics".to_string(), 0)]
    );
    assert_eq!(c.skill_proficiencies.get("Arcana"), Some(2));
    assert_eq!(c.skill_proficiencies.get("arcana"), None);
}

#[test]
fn a_missing_required_field_is_named() {
    for name in [
        "id", "name", "race", "class", "background", "level", "ability_scores", "hit_points",
        "armor_class", "initiative", "equipment", "spells", "spell_slots", "notes",
    ] {
        assert_eq!(parse_cause(&without_member(name)), format!("missing field `{}`", name));
    }
    assert_eq!(
        parse_cause(&with_member("x", "0").replace("\"wisdom\": 10,", "")),
        "missing field `wisdom`"
    );
}

#[test]
fn the_first_failing_field_gives_the_error() {
    let text = without_member("notes").replace("\"name\":\"Brakk\"", "\"name\":7");
    assert_eq!(parse_cause(&text), "invalid value for field `name`");
    let text = without_member("id").replace("\"name\":\"Brakk\"", "\"name\":7");
    assert_eq!(parse_cause(&text), "missing field `id`");
}

#[test]
fn numbers_out_of_range_are_invalid() {
    let level = |v: &str| MINIMAL_TEXT.replace("\"level\": 1", &format!("\"level\": {}", v));
    assert_eq!(parse_character(&level("255")).unwrap().level, 255);
    assert_eq!(parse_character(&level("0")).unwrap().level, 0);
    for bad in ["256", "-1", "3.0", "1e2", "\"3\"", "true", "[3]", "18446744073709551616"] {
        assert_eq!(parse_cause(&level(bad)), "invalid value for field `level`");
    }
    let initiative =
        |v: &str| MINIMAL_TEXT.replace("\"initiative\": 0", &format!("\"initiative\": {}", v));
    assert_eq!(parse_character(&initiative("-128")).unwrap().initiative, -128);
    assert_eq!(parse_character(&initiative("127")).unwrap().initiative, 127);
    assert_eq!(parse_cause(&initiative("128")), "invalid value for field `initiative`");
    assert_eq!(parse_cause(&initiative("-129")), "invalid value for field `initiative`");
    let hit_points =
        |v: &str| MINIMAL_TEXT.replace("\"hit_points\": 12", &format!("\"hit_points\": {}", v));
    assert_eq!(parse_character(&hit_points("65535")).unwrap().hit_points, 65535);
    assert_eq!(parse_cause(&hit_points("65536")), "invalid value for field `hit_points`");
    assert_eq!(
        parse_cause(&with_member("currency", "{\"gold\": 4294967296}")),
        "invalid value for field `gold`"
    );
    assert_eq!(
        parse_cause(&with_member("saving_throw_proficiencies", "{\"wisdom\": 256}")),
        "invalid value for field `saving_throw_proficiencies`"
    );
    assert_eq!(
        parse_cause(&MINIMAL_TEXT.replace("\"spell_slots\": []", "\"spell_slots\": [4, 300]")),
        "invalid value for field `spell_slots`"
    );
    assert_eq!(
        parse_cause(&MINIMAL_TEXT.replace("[\"Axe\"]", "[\"Axe\", 1]")),
        "invalid value for field `equipment`"
    );
}

#[test]
fn a_member_of_the_wrong_shape_is_invalid() {
    assert_eq!(
        parse_cause(&with_member("currency", "[1, 2, 3, 4]")),
        "invalid value for field `currency`"
    );
    assert_eq!(
        parse_cause(&with_member("heroic_inspiration", "1")),
        "invalid value for field `heroic_inspiration`"
    );
    let text = MINIMAL_TEXT.replace("\"ability_scores\": {", "\"ability_scores\": 0, \"x\": {");
    assert_eq!(parse_cause(&text), "invalid value for field `ability_scores`");
}

#[test]
fn a_document_that_is_no_object_is_no_record() {
    for text in ["[]", "null", "3", "\"abc\"", "true"] {
        assert_eq!(parse_cause(text), "expected a JSON object");
    }
}

#[test]
fn text_that_is_no_json_is_a_parse_error() {
    for text in ["", "{", "{\"id\": }", "not json", "{} trailing"] {
        let error = parse_character(text).unwrap_err();
        assert!(matches!(error, StorageError::Parse(_)));
        assert_eq!(error.kind(), FailureKind::Serialization);
        assert!(error.message().starts_with("Failed to parse character: "));
        assert!(error.message().len() > "Failed to parse character: ".len());
    }
    assert_eq!(
        parse_character("{}").unwrap_err().message(),
        "Failed to parse character: missing field `id`"
    );
}

#[test]
fn record_from_maps_each_outcome() {
    assert_eq!(
        record_from(Err("boom at line 1".to_string())),
        Err(StorageError::Parse("boom at line 1".to_string()))
    );
    assert_eq!(
        record_from(Ok(Json::Array(Vec::new()))),
        Err(StorageError::Parse("expected a JSON object".to_string()))
    );
    assert_eq!(record_from(Ok(encode_character(&lyra()))), Ok(lyra()));
}

#[test]
fn text_from_maps_each_outcome() {
    assert_eq!(text_from(Ok("{}".to_string())), Ok("{}".to_string()));
    assert_eq!(
        text_from(Err("no".to_string())),
        Err(StorageError::Serialize("no".to_string()))
    );
}

#[test]
fn decode_errors_in_words() {
    assert_eq!(DecodeError::NotAnObject.message(), "expected a JSON object");
    assert_eq!(DecodeError::MissingField("id".to_string()).message(), "missing field `id`");
    assert_eq!(
        DecodeError::InvalidField("level".to_string()).message(),
        "invalid value for field `level`"
    );
}

#[test]
fn decode_reads_a_document_built_by_hand() {
    let doc = Json::Object(vec![
        ("id".to_string(), Json::Text("x".to_string())),
        ("level".to_string(), Json::Number(JsonNumber::Fraction)),
    ]);
    assert_eq!(decode_character(&doc), Err(DecodeError::MissingField("name".to_string())));
    assert_eq!(decode_character(&Json::Null), Err(DecodeError::NotAnObject));
    assert_eq!(decode_character(&Json::Bool(true)), Err(DecodeError::NotAnObject));
}
