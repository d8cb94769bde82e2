use reminder_dispatch::models::Reminder;
use reminder_dispatch::store::{ReminderStore, StoreError};

fn record(id: &str, message: &str) -> Reminder {
    Reminder {
        id: id.to_string(),
        message: message.to_string(),
        remind_at: "2025-01-01T09:00:00Z".to_string(),
    }
}

#[test]
fn a_new_store_is_empty() {
    let store = ReminderStore::new();
    assert_eq!(store.len(), 0);
    assert!(store.list_all().is_empty());
}

#[test]
fn create_returns_the_stored_record() {
    let mut store = ReminderStore::new();
    let created = store
        .create("buy milk".to_string(), "2025-01-01T09:00:00Z".to_string())
        .expect("an empty store takes every record");
    assert_eq!(created.message, "buy milk");
    assert_eq!(created.remind_at, "2025-01-01T09:00:00Z");
    assert_eq!(created.id.len(), 36);
    let listed = store.list_all();
    assert_eq!(listed.len(), 1);
    assert_eq!(listed[0].id, created.id);
    assert_eq!(listed[0].message, "buy milk");
    assert_eq!(listed[0].remind_at, "2025-01-01T09:00:00Z");
}

#[test]
fn create_draws_an_identifier_that_no_record_has() {
    let mut store = ReminderStore::new();
    let mut seen: Vec<String> = Vec::new();
    for n in 0..50 {
        let created = store.create(format!("note {}", n), "t".to_string()).expect("stored");
        assert!(!created.id.is_empty());
        assert!(!seen.contains(&created.id));
        seen.push(created.id);
    }
    assert_eq!(store.len(), 50);
}

#[test]
fn list_all_keeps_the_order_of_creation() {
    let mut store = ReminderStore::new();
    assert_eq!(store.insert(record("a", "first")), Ok(()));
    assert_eq!(store.insert(record("b", "second")), Ok(()));
    assert_eq!(store.insert(record("c", "third")), Ok(()));
    let listed = store.list_all();
    let messages: Vec<&str> = listed.iter().map(|r| r.message.as_str()).collect();
    assert_eq!(messages, vec!["first", "second", "third"]);
}

#[test]
fn insert_refuses_an_identifier_that_is_taken() {
    let mut store = ReminderStore::new();
    assert_eq!(store.insert(record("a", "first")), Ok(()));
    assert_eq!(store.insert(record("a", "again")), Err(StoreError::DuplicateId));
    let listed = store.list_all();
    assert_eq!(listed.len(), 1);
    assert_eq!(listed[0].message, "first");
}

#[test]
fn duplicate_identifier_has_its_text() {
    assert_eq!(StoreError::DuplicateId.message(), "a reminder with this id is already stored");
}

#[test]
fn contains_id_finds_stored_identifiers_only() {
    let mut store = ReminderStore::new();
    assert!(!store.contains_id(&"a".to_string()));
    assert_eq!(store.insert(record("a", "first")), Ok(()));
    assert_eq!(store.insert(record("b", "second")), Ok(()));
    assert!(store.contains_id(&"a".to_string()));
    assert!(store.contains_id(&"b".to_string()));
    assert!(!store.contains_id(&"c".to_string()));
    assert!(!store.contains_id(&"".to_string()));
}

#[test]
fn delete_all_removes_everything_and_counts() {
    let mut store = ReminderStore::new();
    assert_eq!(store.insert(record("a", "first")), Ok(()));
    assert_eq!(store.insert(record("b", "second")), Ok(()));
    assert_eq!(store.delete_all(), 2);
    assert_eq!(store.len(), 0);
    assert!(store.list_all().is_empty());
}

#[test]
fn delete_all_twice_is_delete_all_once() {
    let mut store = ReminderStore::new();
    assert_eq!(store.insert(record("a", "first")), Ok(()));
    assert_eq!(store.delete_all(), 1);
    assert!(store.list_all().is_empty());
    assert_eq!(store.delete_all(), 0);
    assert!(store.list_all().is_empty());
}

#[test]
fn delete_all_on_an_empty_store_removes_nothing() {
    let mut store = ReminderStore::new();
    assert_eq!(store.delete_all(), 0);
    assert!(store.list_all().is_empty());
}

#[test]
fn an_identifier_is_free_again_after_delete_all() {
    let mut store = ReminderStore::new();
    assert_eq!(store.insert(record("a", "first")), Ok(()));
    assert_eq!(store.delete_all(), 1);
    assert_eq!(store.insert(record("a", "anew")), Ok(()));
    assert_eq!(store.list_all()[0].message, "anew");
}
