use coerce::table::Table;

#[test]
fn insert_get_remove() {
    let mut table: Table<u32> = Table::new();
    assert_eq!(table.len(), 0);
    assert_eq!(table.insert("a".to_string(), 1), None);
    assert_eq!(table.insert("b".to_string(), 2), None);
    assert_eq!(table.insert("a".to_string(), 3), Some(1));
    assert_eq!(table.len(), 2);
    assert_eq!(table.get("a"), Some(&3));
    assert_eq!(table.get("b"), Some(&2));
    assert_eq!(table.get("c"), None);
    assert!(table.contains_key("b"));
    assert!(!table.contains_key(""));
    assert_eq!(table.key_list(), vec!["a".to_string(), "b".to_string()]);
    assert_eq!(table.remove("a"), Some(3));
    assert_eq!(table.remove("a"), None);
    assert_eq!(table.key_list(), vec!["b".to_string()]);
    assert_eq!(table.insert("a".to_string(), 4), None);
    assert_eq!(table.key_list(), vec!["b".to_string(), "a".to_string()]);
}

#[test]
fn keys_are_told_apart_by_their_text() {
    let mut table: Table<u8> = Table::new();
    table.insert("".to_string(), 0);
    table.insert("é".to_string(), 1);
    table.insert("e".to_string(), 2);
    assert_eq!(table.len(), 3);
    assert_eq!(table.get(""), Some(&0));
    assert_eq!(table.get("é"), Some(&1));
    assert_eq!(table.get("e"), Some(&2));
}
