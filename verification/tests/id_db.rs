use ebay_watcher::id_db::IdDatabase;

const ID: &'static str = "test_id";

#[test]
fn empty() {
    let db = IdDatabase::new();
    assert!(db.is_empty(), "new db should be empty");
}

#[test]
fn add() {
    let mut db = IdDatabase::new();
    db.add(ID);
    assert_eq!(db.len(), 1, "db should contain 1 id");
    assert!(db.contains(ID), "db should contain the added id");
}

#[test]
fn add_is_set_like() {
    let mut db = IdDatabase::new();
    db.add(ID);
    db.add(ID);
    assert_eq!(db.len(), 1, "adding the same id twice keeps one entry");
    db.add("other");
    assert_eq!(db.len(), 2);
    assert!(db.contains("other"));
    assert!(!db.contains("missing"));
    assert!(!db.is_empty());
}

#[test]
fn ids_can_be_written_out() {
    let mut db = IdDatabase::new();
    db.add("a");
    db.add("b");
    let mut seen = Vec::new();
    for i in 0..db.len() {
        seen.push(db.id_at(i).clone());
    }
    seen.sort();
    assert_eq!(seen, vec!["a".to_string(), "b".to_string()]);
}
