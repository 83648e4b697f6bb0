use rlbot_gui::str_map::StrMap;

#[test]
fn insert_replaces_existing_keys() {
    let mut m = StrMap::new();
    m.insert("a".to_owned(), 1);
    m.insert("b".to_owned(), 2);
    m.insert("a".to_owned(), 3);
    assert_eq!(m.len(), 2);
    assert_eq!(m.get("a"), Some(&3));
    assert_eq!(m.get("b"), Some(&2));
    assert_eq!(m.get("c"), None);
    assert!(m.contains_key("b"));
    assert!(!m.contains_key("c"));
    assert_eq!(m.position("b"), Some(1));
}

#[test]
fn later_pairs_win() {
    let m = StrMap::from_pairs(vec![("x".to_owned(), 1), ("y".to_owned(), 2), ("x".to_owned(), 5)]);
    assert_eq!(m.len(), 2);
    assert_eq!(m.get("x"), Some(&5));
    let keys: Vec<&str> = m.pairs().iter().map(|(k, _)| k.as_str()).collect();
    assert_eq!(keys, vec!["x", "y"]);
}
