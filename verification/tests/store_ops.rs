use todo_store::{Record, Store};

fn record(title: &str, completed: bool) -> Record {
    Record { title: title.to_string(), completed }
}

#[test]
fn create_then_list_has_the_record_at_the_end() {
    let mut store = Store::new();
    store.create(record("first", false));
    let out = store.create(record("second", true));
    assert_eq!(out.title, "second");
    assert!(out.completed);
    let records = store.list();
    assert_eq!(records.len(), 2);
    assert_eq!(records[1].title, "second");
    assert!(records[1].completed);
    assert_eq!(records[0].title, "first");
}

#[test]
fn list_on_a_new_store_is_empty() {
    let store = Store::new();
    assert_eq!(store.list().len(), 0);
}

#[test]
fn update_replaces_the_first_match_in_place() {
    let mut store = Store::new();
    store.create(record("a", false));
    store.create(record("b", false));
    store.create(record("b", false));
    let out = store.update(record("b", true));
    assert!(out.is_some());
    let updated = out.unwrap();
    assert_eq!(updated.title, "b");
    assert!(updated.completed);
    let records = store.list();
    assert_eq!(records.len(), 3);
    assert!(!records[0].completed);
    assert!(records[1].completed);
    assert!(!records[2].completed);
}

#[test]
fn update_without_a_match_changes_nothing() {
    let mut store = Store::new();
    store.create(record("a", false));
    let out = store.update(record("zzz", true));
    assert!(out.is_none());
    let records = store.list();
    assert_eq!(records.len(), 1);
    assert_eq!(records[0].title, "a");
    assert!(!records[0].completed);
}

#[test]
fn delete_removes_exactly_the_first_match() {
    let mut store = Store::new();
    store.create(record("x", false));
    store.create(record("dup", false));
    store.create(record("dup", true));
    let found = store.delete(&record("dup", false));
    assert!(found);
    let records = store.list();
    assert_eq!(records.len(), 2);
    assert_eq!(records[0].title, "x");
    assert_eq!(records[1].title, "dup");
    assert!(records[1].completed);
}

#[test]
fn delete_matches_on_the_title_alone() {
    let mut store = Store::new();
    store.create(record("chore", true));
    let found = store.delete(&record("chore", false));
    assert!(found);
    assert_eq!(store.list().len(), 0);
}

#[test]
fn delete_without_a_match_changes_nothing() {
    let mut store = Store::new();
    store.create(record("a", true));
    let found = store.delete(&record("b", true));
    assert!(!found);
    let records = store.list();
    assert_eq!(records.len(), 1);
    assert_eq!(records[0].title, "a");
}

#[test]
fn create_keeps_duplicate_titles() {
    let mut store = Store::new();
    store.create(record("same", false));
    store.create(record("same", true));
    let records = store.list();
    assert_eq!(records.len(), 2);
    assert_eq!(records[0].title, "same");
    assert_eq!(records[1].title, "same");
}

#[test]
fn distinct_creations_are_never_lost_or_duplicated() {
    let mut store = Store::new();
    let n = 20;
    for i in 0..n {
        store.create(record(&format!("item {}", i), false));
    }
    let records = store.list();
    assert_eq!(records.len(), n);
    for i in 0..n {
        let title = format!("item {}", i);
        let count = records.iter().filter(|r| r.title == title).count();
        assert_eq!(count, 1);
    }
}

#[test]
fn validate_checks_the_title_length() {
    assert!(record("a", false).validate());
    assert!(record(&"b".repeat(100), false).validate());
    assert!(!record("", false).validate());
    assert!(!record(&"b".repeat(101), false).validate());
}
