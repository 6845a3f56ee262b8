use guestbook::entry::Entry;
use guestbook::error::Error;
use guestbook::store::Store;
use guestbook::store::create_table_sql;
use guestbook::store::insert_entry_sql;
use guestbook::store::list_entries_sql;

#[test]
fn test_app_context() {
    let mut db = Store::open();
    db.bootstrap();
    let entry = Entry {
        who: "boss".to_string(),
        message: "hi!".to_string(),
    };
    assert!(db.append(entry.clone()).is_ok());
    let query = db.list();
    assert!(query.is_ok());
    let record = query.unwrap();
    let first = record.first().unwrap();
    assert_eq!(entry, *first);
}

#[test]
fn round_trip_preserves_fields() {
    let mut db = Store::open();
    db.bootstrap();
    let entry = Entry::new("ada".to_string(), "hello there".to_string());
    assert!(db.append(entry.clone()).is_ok());
    let listed = db.list().unwrap();
    assert!(listed.contains(&entry));
    assert_eq!(listed.last().unwrap().who, "ada");
    assert_eq!(listed.last().unwrap().message, "hello there");
}

#[test]
fn empty_state_lists_nothing() {
    let mut db = Store::open();
    db.bootstrap();
    let listed = db.list();
    assert!(listed.is_ok());
    assert_eq!(listed.unwrap().len(), 0);
}

#[test]
fn append_is_additive() {
    let mut db = Store::open();
    db.bootstrap();
    let entries = vec![
        Entry::new("a".to_string(), "one".to_string()),
        Entry::new("b".to_string(), "two".to_string()),
        Entry::new("c".to_string(), "three".to_string()),
    ];
    for e in &entries {
        assert!(db.append(e.clone()).is_ok());
    }
    let listed = db.list().unwrap();
    assert_eq!(listed.len(), 3);
    for (stored, appended) in listed.iter().zip(entries.iter()) {
        assert_eq!(stored, appended);
    }
}

#[test]
fn bootstrap_twice_keeps_data() {
    let mut db = Store::open();
    db.bootstrap();
    db.bootstrap();
    assert_eq!(db.list().unwrap().len(), 0);
    let entry = Entry::new("ada".to_string(), "kept".to_string());
    assert!(db.append(entry.clone()).is_ok());
    db.bootstrap();
    let listed = db.list().unwrap();
    assert_eq!(listed.len(), 1);
    assert_eq!(listed[0], entry);
}

#[test]
fn boss_says_hi() {
    let mut db = Store::open();
    db.bootstrap();
    let entry = Entry::new("boss".to_string(), "hi!".to_string());
    assert!(db.append(entry.clone()).is_ok());
    let listed = db.list().unwrap();
    assert_eq!(listed.len(), 1);
    assert_eq!(listed[0], entry);
}

#[test]
fn append_without_schema_fails() {
    let mut db = Store::open();
    let entry = Entry::new("boss".to_string(), "hi!".to_string());
    let r = db.append(entry);
    assert!(matches!(r, Err(Error::Database(ref m)) if m == "no such table: record"));
}

#[test]
fn list_without_schema_fails() {
    let db = Store::open();
    let r = db.list();
    assert!(matches!(r, Err(Error::Database(ref m)) if m == "no such table: record"));
}

#[test]
fn statements_are_exact() {
    assert_eq!(
        create_table_sql(),
        "CREATE TABLE IF NOT EXISTS record (who TEXT NOT NULL, message TEXT NOT NULL);"
    );
    assert_eq!(insert_entry_sql(), "INSERT INTO record VALUES ($1, $2);");
    assert_eq!(list_entries_sql(), "SELECT who, message FROM record;");
}

#[test]
fn error_response_parts() {
    let (status, message) = Error::Write.response_parts();
    assert_eq!(status, 500);
    assert_eq!(message, "fail to write");
    let (status, message) = Error::Read.response_parts();
    assert_eq!(status, 500);
    assert_eq!(message, "fail to read");
    let (status, message) = Error::Database("disk I/O error".to_string()).response_parts();
    assert_eq!(status, 500);
    assert_eq!(message, "disk I/O error");
}
