use memory_anki::{load_from, StorageError, StoragePayload, StoredFile, STORAGE_FILE_NAME};
use serde_json::Value;

fn json(text: &str) -> Value {
    serde_json::from_str(text).unwrap()
}

fn payload(cards: &str, decks: &[&str]) -> StoragePayload {
    StoragePayload { cards: json(cards), decks: decks.iter().map(|d| d.to_string()).collect() }
}

fn save_then_load(p: StoragePayload) -> StoragePayload {
    let text = p.encode().unwrap();
    load_from(StoredFile::Text(text)).unwrap()
}

#[test]
fn missing_file_loads_empty_document() {
    let p = load_from(StoredFile::Missing).unwrap();
    assert!(p.cards.is_null());
    assert!(p.decks.is_empty());
}

#[test]
fn empty_document_is_null_with_no_decks() {
    let p = StoragePayload::empty();
    assert_eq!(p.cards, Value::Null);
    assert_eq!(p.decks.len(), 0);
}

#[test]
fn spanish_card_round_trips() {
    let cards = r#"{"1": {"front":"hola","back":"hello"}}"#;
    let p = save_then_load(payload(cards, &["Spanish"]));
    assert_eq!(p.cards, json(cards));
    assert_eq!(p.decks, vec!["Spanish".to_string()]);
}

#[test]
fn deck_order_is_kept() {
    let p = save_then_load(payload("[]", &["b", "a", "c"]));
    assert_eq!(p.decks, vec!["b".to_string(), "a".to_string(), "c".to_string()]);
}

#[test]
fn duplicate_and_empty_decks_round_trip() {
    let p = save_then_load(payload("null", &["x", "", "x", ""]));
    assert_eq!(p.decks, vec!["x".to_string(), String::new(), "x".to_string(), String::new()]);
    assert!(p.cards.is_null());
}

#[test]
fn empty_document_round_trips() {
    let p = save_then_load(StoragePayload::empty());
    assert!(p.cards.is_null());
    assert!(p.decks.is_empty());
}

#[test]
fn later_save_replaces_earlier() {
    let mut stored = payload(r#"{"a": 1}"#, &["one"]).encode().unwrap();
    assert_eq!(StoragePayload::decode(&stored).unwrap().decks, vec!["one".to_string()]);
    stored = payload(r#"{"b": [true, "x", 2.5]}"#, &["two", "three"]).encode().unwrap();
    let p = load_from(StoredFile::Text(stored)).unwrap();
    assert_eq!(p.cards, json(r#"{"b": [true, "x", 2.5]}"#));
    assert_eq!(p.decks, vec!["two".to_string(), "three".to_string()]);
}

#[test]
fn encoded_text_is_pretty_printed() {
    let text = payload(r#"{"k": 7}"#, &["d"]).encode().unwrap();
    assert_eq!(text, "{\n  \"cards\": {\n    \"k\": 7\n  },\n  \"decks\": [\n    \"d\"\n  ]\n}");
}

#[test]
fn invalid_json_is_a_deserialization_error() {
    let r = load_from(StoredFile::Text("this is not json".to_string()));
    assert!(matches!(r, Err(StorageError::DeserializationError(_))));
}

#[test]
fn truncated_file_is_a_deserialization_error() {
    let r = load_from(StoredFile::Text("{\n  \"cards\": {".to_string()));
    assert!(matches!(r, Err(StorageError::DeserializationError(_))));
}

#[test]
fn missing_decks_is_a_deserialization_error() {
    let r = StoragePayload::decode(r#"{"cards": {}}"#);
    assert!(matches!(r, Err(StorageError::DeserializationError(_))));
}

#[test]
fn missing_cards_is_a_deserialization_error() {
    let r = StoragePayload::decode(r#"{"decks": []}"#);
    assert!(matches!(r, Err(StorageError::DeserializationError(_))));
}

#[test]
fn decks_of_numbers_is_a_deserialization_error() {
    let r = StoragePayload::decode(r#"{"cards": {}, "decks": [1, 2]}"#);
    assert!(matches!(r, Err(StorageError::DeserializationError(_))));
}

#[test]
fn top_level_array_is_a_deserialization_error() {
    let r = StoragePayload::decode("[1, 2]");
    assert!(matches!(r, Err(StorageError::DeserializationError(_))));
}

#[test]
fn unknown_fields_are_ignored() {
    let p = StoragePayload::decode(r#"{"cards": 5, "extra": true, "decks": ["a"]}"#).unwrap();
    assert_eq!(p.cards, json("5"));
    assert_eq!(p.decks, vec!["a".to_string()]);
}

#[test]
fn unreadable_file_is_an_io_error() {
    let r = load_from(StoredFile::Unreadable("permission denied".to_string()));
    match r {
        Err(StorageError::IoError(cause)) => assert_eq!(cause, "permission denied"),
        other => panic!("unexpected {:?}", other),
    }
}

#[test]
fn message_gives_the_cause() {
    let e = StorageError::StorageUnavailable("no home directory".to_string());
    assert_eq!(e.message(), "no home directory");
    assert_eq!(StorageError::SerializationError("s".to_string()).message(), "s");
}

#[test]
fn object_has_cards_and_decks_keys() {
    let m = payload("3", &["d1"]).to_object();
    assert_eq!(m.len(), 2);
    assert_eq!(m.get("cards"), Some(&json("3")));
    assert_eq!(m.get("decks"), Some(&json(r#"["d1"]"#)));
    let back = StoragePayload::from_object(m).unwrap();
    assert_eq!(back.cards, json("3"));
    assert_eq!(back.decks, vec!["d1".to_string()]);
}

#[test]
fn storage_file_name_is_fixed() {
    assert_eq!(STORAGE_FILE_NAME, "memory-anki-storage.json");
}

#[test]
fn repeated_key_keeps_last_value() {
    let p = StoragePayload::decode(r#"{"cards": 1, "decks": ["a"], "decks": ["b"]}"#).unwrap();
    assert_eq!(p.cards, json("1"));
    assert_eq!(p.decks, vec!["b".to_string()]);
}
