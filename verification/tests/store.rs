use character_store::character::{default_alignment, AbilityScores, Character, Currency};
use character_store::codec::serialize_character;
use character_store::directory::Directory;
use character_store::error::StorageError;
use character_store::proficiency::ProficiencyMap;
use character_store::store::{
    delete_step, list_step, save_step, DeleteEvent, DeleteStep, ListEvent, ListStep, MemoryStore,
    SaveEvent, SaveStep,
};

fn sheet(id: &str, name: &str) -> Character {
    Character {
        id: id.to_string(),
        name: name.to_string(),
        race: "Halfling".to_string(),
        subrace: None,
        class: "Rogue".to_string(),
        background: "Urchin".to_string(),
        alignment: default_alignment(),
        level: 3,
        ability_scores: AbilityScores {
            strength: 10,
            dexterity: 14,
            constitution: 12,
            intelligence: 8,
            wisdom: 13,
            charisma: 15,
        },
        hit_points: 22,
        max_hit_points: None,
        armor_class: 15,
        initiative: 2,
        equipment: Vec::new(),
        spells: Vec::new(),
        spell_slots: Vec::new(),
        notes: String::new(),
        saving_throw_proficiencies: ProficiencyMap::new(),
        skill_proficiencies: ProficiencyMap::new(),
        armor_proficiencies: Vec::new(),
        weapon_proficiencies: Vec::new(),
        tool_proficiencies: Vec::new(),
        languages: Vec::new(),
        heroic_inspiration: false,
        used_abilities: Vec::new(),
        currency: None,
    }
}

fn file_names(store: &MemoryStore) -> Vec<String> {
    match &store.directory {
        Some(d) => d.files().iter().map(|f| f.0.clone()).collect(),
        None => Vec::new(),
    }
}

fn store_with(files: &[(&str, &str)]) -> MemoryStore {
    let mut directory = Directory::new();
    for (name, text) in files {
        directory.write(name.to_string(), text.to_string());
    }
    MemoryStore { directory: Some(directory) }
}

#[test]
fn save_then_list_gives_the_record_back() {
    let mut store = MemoryStore::new();
    let fenn = sheet("abc", "Fenn");
    assert_eq!(store.save_character(&fenn), Ok(()));
    let listed = store.load_characters().unwrap();
    assert_eq!(listed.len(), 1);
    assert_eq!(listed[0], fenn);
    assert_eq!(listed[0].id, "abc");
    assert_eq!(listed[0].name, "Fenn");
    assert_eq!(listed[0].level, 3);
    assert_eq!(listed[0].ability_scores.strength, 10);
    assert_eq!(listed[0].ability_scores.dexterity, 14);
    assert_eq!(listed[0].ability_scores.constitution, 12);
    assert_eq!(listed[0].ability_scores.intelligence, 8);
    assert_eq!(listed[0].ability_scores.wisdom, 13);
    assert_eq!(listed[0].ability_scores.charisma, 15);
    assert_eq!(listed[0].hit_points, 22);
    assert_eq!(listed[0].armor_class, 15);
    assert_eq!(listed[0].initiative, 2);
    assert_eq!(listed[0].alignment, "Neutral");
    assert_eq!(listed[0].currency, None);
    assert_eq!(listed[0].saving_throw_proficiencies.len(), 0);
}

#[test]
fn saving_again_replaces_the_record() {
    let mut store = MemoryStore::new();
    let mut fenn = sheet("abc", "Fenn");
    store.save_character(&fenn).unwrap();
    fenn.level = 4;
    fenn.hit_points = 30;
    fenn.currency = Some(Currency { platinum: 0, gold: 25, silver: 3, copper: 0 });
    fenn.skill_proficiencies.insert("Stealth".to_string(), 6);
    store.save_character(&fenn).unwrap();
    let listed = store.load_characters().unwrap();
    assert_eq!(listed.len(), 1);
    assert_eq!(listed[0], fenn);
    assert_eq!(listed[0].level, 4);
    assert_eq!(file_names(&store), vec!["abc.json".to_string()]);
}

#[test]
fn deleting_what_is_not_there_changes_nothing() {
    let mut store = MemoryStore::new();
    assert_eq!(store.delete_character("ghost"), Ok(()));
    assert!(store.directory.is_none());
    store.save_character(&sheet("abc", "Fenn")).unwrap();
    let before = file_names(&store);
    let text = store.directory.as_ref().unwrap().read("abc.json").cloned();
    assert_eq!(store.delete_character("ghost"), Ok(()));
    assert_eq!(store.delete_character(""), Ok(()));
    assert_eq!(store.delete_character("abc.json"), Ok(()));
    assert_eq!(file_names(&store), before);
    assert_eq!(store.directory.as_ref().unwrap().read("abc.json").cloned(), text);
    assert_eq!(store.load_characters().unwrap().len(), 1);
}

#[test]
fn deleting_removes_the_record_and_is_idempotent() {
    let mut store = MemoryStore::new();
    store.save_character(&sheet("abc", "Fenn")).unwrap();
    store.save_character(&sheet("def", "Mira")).unwrap();
    assert_eq!(store.delete_character("abc"), Ok(()));
    let listed = store.load_characters().unwrap();
    assert_eq!(listed.len(), 1);
    assert_eq!(listed[0].id, "def");
    assert_eq!(store.delete_character("abc"), Ok(()));
    assert_eq!(file_names(&store), vec!["def.json".to_string()]);
    assert_eq!(store.delete_character("def"), Ok(()));
    assert!(store.directory.is_some());
    assert_eq!(store.load_characters().unwrap().len(), 0);
}

#[test]
fn a_fresh_store_lists_nothing() {
    let store = MemoryStore::new();
    assert!(store.directory.is_none());
    assert_eq!(store.load_characters(), Ok(Vec::new()));
}

#[test]
fn two_records_are_both_listed_each_in_its_file() {
    let mut store = MemoryStore::new();
    let fenn = sheet("abc", "Fenn");
    let mira = sheet("def-2", "Mira");
    store.save_character(&fenn).unwrap();
    store.save_character(&mira).unwrap();
    assert_eq!(file_names(&store), vec!["abc.json".to_string(), "def-2.json".to_string()]);
    let listed = store.load_characters().unwrap();
    assert_eq!(listed, vec![fenn.clone(), mira.clone()]);
    let directory = store.directory.as_ref().unwrap();
    assert_eq!(directory.read("abc.json"), Some(&serialize_character(&fenn).unwrap()));
    assert_eq!(directory.read("def-2.json"), Some(&serialize_character(&mira).unwrap()));
}

#[test]
fn one_corrupt_file_fails_the_whole_listing() {
    let good = serialize_character(&sheet("abc", "Fenn")).unwrap();
    let store = store_with(&[("abc.json", &good), ("bad.json", "{ nope"), ("def.json", &good)]);
    let error = store.load_characters().unwrap_err();
    assert!(matches!(error, StorageError::Parse(_)));
    let store = store_with(&[("abc.json", &good), ("bad.json", "{}")]);
    assert_eq!(
        store.load_characters(),
        Err(StorageError::Parse("missing field `id`".to_string()))
    );
}

#[test]
fn the_first_corrupt_file_gives_the_error() {
    let store = store_with(&[("a.json", "{}"), ("b.json", "[]")]);
    assert_eq!(
        store.load_characters(),
        Err(StorageError::Parse("missing field `id`".to_string()))
    );
    let store = store_with(&[("b.json", "[]"), ("a.json", "{}")]);
    assert_eq!(
        store.load_characters(),
        Err(StorageError::Parse("expected a JSON object".to_string()))
    );
}

#[test]
fn files_that_are_no_record_files_are_passed_over() {
    let good = serialize_character(&sheet("abc", "Fenn")).unwrap();
    let store = store_with(&[
        ("readme.txt", "not json"),
        ("abc.json", &good),
        (".json", "{ nope"),
        ("abc.json.bak", "{ nope"),
        ("ABC.JSON", "{ nope"),
    ]);
    let listed = store.load_characters().unwrap();
    assert_eq!(listed.len(), 1);
    assert_eq!(listed[0].id, "abc");
}

#[test]
fn a_record_with_an_empty_id_is_saved_and_not_listed() {
    let mut store = MemoryStore::new();
    store.save_character(&sheet("", "Nobody")).unwrap();
    assert_eq!(file_names(&store), vec![".json".to_string()]);
    assert_eq!(store.load_characters(), Ok(Vec::new()));
}

#[test]
fn a_record_written_long_ago_is_listed_with_defaults() {
    let text = r#"{"id":"old","name":"Brakk","race":"Orc","class":"Fighter","background":"Soldier",
        "level":1,"ability_scores":{"strength":16,"dexterity":10,"constitution":14,
        "intelligence":8,"wisdom":10,"charisma":9},"hit_points":12,"armor_class":16,
        "initiative":-1,"equipment":[],"spells":[],"spell_slots":[],"notes":""}"#;
    let store = store_with(&[("old.json", text)]);
    let listed = store.load_characters().unwrap();
    assert_eq!(listed.len(), 1);
    assert_eq!(listed[0].alignment, "Neutral");
    assert_eq!(listed[0].currency, None);
    assert_eq!(listed[0].initiative, -1);
    assert!(listed[0].languages.is_empty());
    assert_eq!(listed[0].skill_proficiencies.len(), 0);
}

#[test]
fn the_listing_follows_the_order_of_the_files() {
    let mut store = MemoryStore::new();
    for id in ["c", "a", "b"] {
        store.save_character(&sheet(id, id)).unwrap();
    }
    store.save_character(&sheet("a", "again")).unwrap();
    let ids: Vec<String> = store.load_characters().unwrap().into_iter().map(|c| c.id).collect();
    assert_eq!(ids, vec!["c".to_string(), "a".to_string(), "b".to_string()]);
    assert_eq!(store.load_characters().unwrap()[1].name, "again");
}

#[test]
fn list_steps() {
    let one = vec![sheet("abc", "Fenn")];
    assert!(matches!(list_step(Vec::new(), ListEvent::Missing), ListStep::Done(r) if r.is_empty()));
    assert!(matches!(list_step(one.clone(), ListEvent::End), ListStep::Done(r) if r == one));
    assert!(matches!(
        list_step(one.clone(), ListEvent::Entry("x.json".to_string())),
        ListStep::Read(r) if r == one
    ));
    assert!(matches!(
        list_step(one.clone(), ListEvent::Entry("x.txt".to_string())),
        ListStep::Next(r) if r == one
    ));
    assert!(matches!(
        list_step(one.clone(), ListEvent::Entry(".json".to_string())),
        ListStep::Next(r) if r == one
    ));
    let text = serialize_character(&sheet("def", "Mira")).unwrap();
    assert!(matches!(
        list_step(one.clone(), ListEvent::Content(text)),
        ListStep::Next(r) if r == vec![sheet("abc", "Fenn"), sheet("def", "Mira")]
    ));
    assert!(matches!(
        list_step(one.clone(), ListEvent::Content("[]".to_string())),
        ListStep::Failed(e) if e == StorageError::Parse("expected a JSON object".to_string())
    ));
    assert!(matches!(
        list_step(one.clone(), ListEvent::OpenFailed("denied".to_string())),
        ListStep::Failed(e) if e.message() == "Failed to read directory: denied"
    ));
    assert!(matches!(
        list_step(one.clone(), ListEvent::EntryFailed("gone".to_string())),
        ListStep::Failed(e) if e.message() == "Failed to read entry: gone"
    ));
    assert!(matches!(
        list_step(
            one,
            ListEvent::ContentFailed { path: "/d/x.json".to_string(), cause: "denied".to_string() }
        ),
        ListStep::Failed(e) if e.message() == "Failed to read file /d/x.json: denied"
    ));
}

#[test]
fn save_steps() {
    let fenn = sheet("abc", "Fenn");
    let expected = serialize_character(&fenn).unwrap();
    assert!(matches!(
        save_step(&fenn, SaveEvent::DirectoryReady),
        SaveStep::Write { file_name, text } if file_name == "abc.json" && text == expected
    ));
    assert!(matches!(save_step(&fenn, SaveEvent::Written), SaveStep::Done));
    assert!(matches!(
        save_step(&fenn, SaveEvent::DirectoryFailed("read-only".to_string())),
        SaveStep::Failed(e) if e.message() == "Failed to create directory: read-only"
    ));
    assert!(matches!(
        save_step(&fenn, SaveEvent::WriteFailed("full".to_string())),
        SaveStep::Failed(e) if e.message() == "Failed to write file: full"
    ));
}

#[test]
fn delete_steps() {
    assert!(matches!(delete_step(DeleteEvent::Found), DeleteStep::Remove));
    assert!(matches!(delete_step(DeleteEvent::NotFound), DeleteStep::Done));
    assert!(matches!(delete_step(DeleteEvent::Removed), DeleteStep::Done));
    assert!(matches!(
        delete_step(DeleteEvent::RemoveFailed("busy".to_string())),
        DeleteStep::Failed(e) if e.message() == "Failed to delete file: busy"
    ));
}
