use todo_list::database::{Database, MockDatabase};

#[test]
fn fresh_engine_has_nothing() {
    let db = MockDatabase::default();
    assert_eq!(db.get("2024-05-06 07:08:09"), None);
    assert_eq!(db.get(""), None);
}

#[test]
fn insert_then_get_returns_the_bytes() {
    let mut db = MockDatabase::default();
    db.insert("2024-05-06 07:08:09", "go to school");
    assert_eq!(db.get("2024-05-06 07:08:09"), Some(b"go to school".to_vec()));
}

#[test]
fn insert_stores_utf8_bytes() {
    let mut db = MockDatabase::default();
    db.insert("k", "h\u{e9}llo \u{4e16}\u{754c}");
    assert_eq!(
        db.get("k"),
        Some(vec![0x68, 0xc3, 0xa9, 0x6c, 0x6c, 0x6f, 0x20, 0xe4, 0xb8, 0x96, 0xe7, 0x95, 0x8c])
    );
}

#[test]
fn second_insert_overwrites_the_first() {
    let mut db = MockDatabase::default();
    db.insert("k", "first");
    db.insert("k", "second");
    assert_eq!(db.get("k"), Some(b"second".to_vec()));
}

#[test]
fn empty_value_is_not_absent() {
    let mut db = MockDatabase::default();
    db.insert("k", "");
    assert_eq!(db.get("k"), Some(Vec::new()));
    assert_eq!(db.get("other"), None);
}

#[test]
fn empty_key_is_a_key() {
    let mut db = MockDatabase::default();
    db.insert("", "value");
    assert_eq!(db.get(""), Some(b"value".to_vec()));
    db.delete("");
    assert_eq!(db.get(""), None);
}

#[test]
fn delete_removes_the_value() {
    let mut db = MockDatabase::default();
    db.insert("k", "value");
    db.delete("k");
    assert_eq!(db.get("k"), None);
}

#[test]
fn delete_is_idempotent() {
    let mut db = MockDatabase::default();
    db.delete("never written");
    assert_eq!(db.get("never written"), None);
    db.insert("k", "value");
    db.delete("k");
    db.delete("k");
    assert_eq!(db.get("k"), None);
}

#[test]
fn other_keys_are_left_alone() {
    let mut db = MockDatabase::default();
    db.insert("a", "one");
    db.insert("b", "two");
    db.insert("a", "three");
    assert_eq!(db.get("b"), Some(b"two".to_vec()));
    db.delete("a");
    assert_eq!(db.get("a"), None);
    assert_eq!(db.get("b"), Some(b"two".to_vec()));
}

#[test]
fn insert_after_delete_is_found_again() {
    let mut db = MockDatabase::default();
    db.insert("k", "old");
    db.delete("k");
    db.insert("k", "new");
    assert_eq!(db.get("k"), Some(b"new".to_vec()));
}

#[test]
fn get_hands_out_a_copy() {
    let mut db = MockDatabase::default();
    db.insert("k", "value");
    let mut copy = db.get("k").unwrap();
    copy.push(b'!');
    copy[0] = b'V';
    assert_eq!(db.get("k"), Some(b"value".to_vec()));
}
