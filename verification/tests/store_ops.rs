use hyperlist::store::{create_table_sql, insert_sql, select_sql, Store, StoreError};

#[test]
fn initialize_twice_keeps_rows() {
    let mut store = Store::new();
    store.initialize();
    store
        .insert(String::from("Ann"), String::from("2024-01-01"))
        .unwrap();
    store.initialize();
    let recs = store.list_all().unwrap();
    assert_eq!(recs.len(), 1);
    assert_eq!(recs[0].name, "Ann");
    assert_eq!(recs[0].date, "2024-01-01");
}

#[test]
fn insert_list_round_trip() {
    let mut store = Store::new();
    store.initialize();
    store
        .insert(String::from("Ann"), String::from("2024-01-01"))
        .unwrap();
    let recs = store.list_all().unwrap();
    assert!(recs
        .iter()
        .any(|r| r.name == "Ann" && r.date == "2024-01-01" && r.tags.is_empty()));
}

#[test]
fn empty_store_listing() {
    let mut store = Store::new();
    store.initialize();
    let recs = store.list_all().unwrap();
    assert!(recs.is_empty());
}

#[test]
fn two_inserts_both_present() {
    let mut store = Store::new();
    store.initialize();
    store
        .insert(String::from("Ann"), String::from("2024-01-01"))
        .unwrap();
    store
        .insert(String::from("Bob"), String::from("2024-02-02"))
        .unwrap();
    let recs = store.list_all().unwrap();
    assert_eq!(recs.len(), 2);
    assert!(recs.iter().any(|r| r.name == "Ann" && r.date == "2024-01-01"));
    assert!(recs.iter().any(|r| r.name == "Bob" && r.date == "2024-02-02"));
}

#[test]
fn insert_without_table_fails() {
    let mut store = Store::new();
    let r = store.insert(String::from("Ann"), String::from("2024-01-01"));
    assert_eq!(r, Err(StoreError::MissingTable));
    assert_eq!(store.list_all(), Err(StoreError::MissingTable));
}

#[test]
fn sql_text() {
    assert_eq!(
        create_table_sql(),
        "CREATE TABLE IF NOT EXISTS test_data (name TEXT, date TEXT)"
    );
    assert_eq!(insert_sql(), "INSERT INTO test_data (name, date) VALUES (?1, ?2)");
    assert_eq!(select_sql(), "SELECT name, date FROM test_data");
}
