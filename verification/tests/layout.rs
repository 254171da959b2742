use character_store::error::{FailureKind, StorageError};
use character_store::layout::{
    characters_dir_from, characters_dir_under, get_characters_dir, is_record_file,
    record_file_name, record_path,
};
use character_store::text::{joined, same_text};

#[test]
fn record_file_is_named_by_the_id() {
    assert_eq!(record_file_name("abc"), "abc.json");
    assert_eq!(record_file_name("a b.c"), "a b.c.json");
    assert_eq!(record_file_name("Ñandú"), "Ñandú.json");
    assert_eq!(record_file_name(""), ".json");
}

#[test]
fn record_files_end_in_json() {
    assert!(is_record_file("abc.json"));
    assert!(is_record_file("a.b.json"));
    assert!(is_record_file("..json"));
    assert!(is_record_file("Ñandú.json"));
    assert!(is_record_file("x.json.json"));
    assert!(!is_record_file(".json"));
    assert!(!is_record_file("json"));
    assert!(!is_record_file(""));
    assert!(!is_record_file("abc.JSON"));
    assert!(!is_record_file("abc.jsonx"));
    assert!(!is_record_file("abc.json "));
    assert!(!is_record_file("abcjson"));
    assert!(!is_record_file("abc.txt"));
    assert!(!is_record_file("abc.json.bak"));
    assert!(!is_record_file("ñ.jso"));
}

#[test]
fn record_file_agrees_with_the_extension_of_the_path() {
    for name in ["abc.json", ".json", "..json", "a.b.json", "x.JSON", "noext", "é.json", "a.json."] {
        let by_path = std::path::Path::new(name).extension().and_then(|e| e.to_str()) == Some("json");
        assert_eq!(is_record_file(name), by_path, "{}", name);
    }
}

#[test]
fn the_file_of_an_id_is_a_record_file_unless_the_id_is_empty() {
    for id in ["a", "abc", "x.y", " ", "Ñ"] {
        assert!(is_record_file(&record_file_name(id)));
    }
    assert!(!is_record_file(&record_file_name("")));
}

#[test]
fn storage_directory_lies_under_the_data_directory() {
    let expected: std::path::PathBuf =
        ["base", "dnd-beyond-desktop", "characters"].iter().collect();
    assert_eq!(characters_dir_under("base"), expected.to_str().unwrap());
    assert_ne!(characters_dir_under("base"), "base");
}

#[test]
fn storage_directory_follows_the_data_directory() {
    assert_eq!(characters_dir_from(None), None);
    assert_eq!(characters_dir_from(Some("base".to_string())), Some(characters_dir_under("base")));
    assert_eq!(get_characters_dir(), characters_dir_from(
        dirs::data_dir().and_then(|d| d.into_os_string().into_string().ok())
    ));
}

#[test]
fn record_path_lies_in_the_directory() {
    let expected = std::path::Path::new("some").join("dir").join("abc.json");
    let dir = std::path::Path::new("some").join("dir");
    assert_eq!(record_path(dir.to_str().unwrap(), "abc"), expected.to_str().unwrap());
}

#[test]
fn user_storage_directory_ends_in_the_two_names() {
    if let Some(dir) = get_characters_dir() {
        let path = std::path::Path::new(&dir);
        assert!(path.ends_with(std::path::Path::new("dnd-beyond-desktop").join("characters")));
        assert_eq!(Some(dir), dirs::data_dir().map(|d| characters_dir_under(d.to_str().unwrap())));
    } else {
        assert!(dirs::data_dir().map_or(true, |d| d.to_str().is_none()));
    }
}

#[test]
fn same_text_compares_characters() {
    assert!(same_text("", ""));
    assert!(same_text("abc", "abc"));
    assert!(same_text("Ñandú", "Ñandú"));
    assert!(!same_text("abc", "abd"));
    assert!(!same_text("abc", "ab"));
    assert!(!same_text("", "a"));
    assert!(!same_text("e\u{301}", "\u{e9}"));
}

#[test]
fn joined_puts_one_text_after_the_other() {
    assert_eq!(joined("ab", "cd"), "abcd");
    assert_eq!(joined("", "x"), "x");
    assert_eq!(joined("x", ""), "x");
}

#[test]
fn every_error_says_what_failed_and_why() {
    let cause = || "disk on fire".to_string();
    let cases = [
        (StorageError::CreateDirectory(cause()), "Failed to create directory: disk on fire", FailureKind::Directory),
        (StorageError::ReadDirectory(cause()), "Failed to read directory: disk on fire", FailureKind::Directory),
        (StorageError::ReadEntry(cause()), "Failed to read entry: disk on fire", FailureKind::Directory),
        (
            StorageError::ReadFile { path: "/d/abc.json".to_string(), cause: cause() },
            "Failed to read file /d/abc.json: disk on fire",
            FailureKind::File,
        ),
        (StorageError::WriteFile(cause()), "Failed to write file: disk on fire", FailureKind::File),
        (StorageError::DeleteFile(cause()), "Failed to delete file: disk on fire", FailureKind::File),
        (StorageError::Parse(cause()), "Failed to parse character: disk on fire", FailureKind::Serialization),
        (
            StorageError::Serialize(cause()),
            "Failed to serialize character: disk on fire",
            FailureKind::Serialization,
        ),
    ];
    for (error, message, kind) in cases {
        assert_eq!(error.message(), message);
        assert_eq!(error.kind(), kind);
    }
}
