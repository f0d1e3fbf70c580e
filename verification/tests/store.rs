use miniredis_server::db::Db;

#[test]
fn new_store_is_empty() {
    let db = Db::new();
    assert_eq!(db.get(&"aa".to_string()), None);
}

#[test]
fn get_after_set_gives_value() {
    let mut db = Db::new();
    db.set("aa".to_string(), b"bb".to_vec());
    assert_eq!(db.get(&"aa".to_string()), Some(b"bb".to_vec()));
}

#[test]
fn later_set_replaces_value() {
    let mut db = Db::new();
    db.set("aa".to_string(), b"first".to_vec());
    db.set("aa".to_string(), b"second".to_vec());
    assert_eq!(db.get(&"aa".to_string()), Some(b"second".to_vec()));
}

#[test]
fn set_leaves_other_keys() {
    let mut db = Db::new();
    db.set("aa".to_string(), b"1".to_vec());
    db.set("bb".to_string(), b"2".to_vec());
    db.set("cc".to_string(), b"3".to_vec());
    db.set("bb".to_string(), b"22".to_vec());
    assert_eq!(db.get(&"aa".to_string()), Some(b"1".to_vec()));
    assert_eq!(db.get(&"bb".to_string()), Some(b"22".to_vec()));
    assert_eq!(db.get(&"cc".to_string()), Some(b"3".to_vec()));
    assert_eq!(db.get(&"dd".to_string()), None);
}

#[test]
fn empty_key_and_value_are_stored() {
    let mut db = Db::new();
    db.set(String::new(), Vec::new());
    assert_eq!(db.get(&String::new()), Some(Vec::new()));
}
