use character_store::directory::Directory;
use character_store::json::{find_member, Json, JsonNumber};
use character_store::proficiency::ProficiencyMap;

#[test]
fn proficiency_map_keeps_one_entry_for_each_name() {
    let mut map = ProficiencyMap::new();
    assert_eq!(map.len(), 0);
    assert_eq!(map.get("Stealth"), None);
    assert_eq!(map.insert("Stealth".to_string(), 3), None);
    assert_eq!(map.insert("Arcana".to_string(), 1), None);
    assert_eq!(map.insert("Stealth".to_string(), 5), Some(3));
    assert_eq!(map.len(), 2);
    assert_eq!(map.get("Stealth"), Some(5));
    assert_eq!(map.get("Arcana"), Some(1));
    assert_eq!(map.get(""), None);
    assert_eq!(
        map.entries().clone(),
        vec![("Stealth".to_string(), 5), ("Arcana".to_string(), 1)]
    );
}

#[test]
fn proficiency_maps_are_equal_whatever_the_order() {
    let mut a = ProficiencyMap::new();
    a.insert("x".to_string(), 1);
    a.insert("y".to_string(), 2);
    let mut b = ProficiencyMap::new();
    b.insert("y".to_string(), 2);
    b.insert("x".to_string(), 1);
    assert!(a == b);
    assert!(a.clone() == a);
    b.insert("x".to_string(), 3);
    assert!(a != b);
    b.insert("x".to_string(), 1);
    b.insert("z".to_string(), 0);
    assert!(a != b);
    assert!(ProficiencyMap::new() == ProficiencyMap::new());
    assert!(a != ProficiencyMap::new());
}

#[test]
fn directory_keeps_one_file_for_each_name() {
    let mut d = Directory::new();
    assert_eq!(d.read("a"), None);
    assert!(!d.remove("a"));
    d.write("a".to_string(), "1".to_string());
    d.write("b".to_string(), "2".to_string());
    d.write("c".to_string(), "3".to_string());
    d.write("a".to_string(), "4".to_string());
    assert_eq!(d.files().len(), 3);
    assert_eq!(d.read("a"), Some(&"4".to_string()));
    assert_eq!(d.files()[0], ("a".to_string(), "4".to_string()));
    assert!(d.remove("b"));
    assert!(!d.remove("b"));
    assert_eq!(d.read("b"), None);
    assert_eq!(
        d.files().clone(),
        vec![("a".to_string(), "4".to_string()), ("c".to_string(), "3".to_string())]
    );
}

#[test]
fn find_member_gives_the_first_under_the_name() {
    let members = vec![
        ("a".to_string(), Json::Number(JsonNumber::Unsigned(1))),
        ("b".to_string(), Json::Null),
        ("a".to_string(), Json::Bool(true)),
    ];
    assert!(matches!(find_member(&members, "a"), Some(Json::Number(JsonNumber::Unsigned(1)))));
    assert!(matches!(find_member(&members, "b"), Some(Json::Null)));
    assert!(find_member(&members, "c").is_none());
    assert!(find_member(&Vec::new(), "a").is_none());
}
