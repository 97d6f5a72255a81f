use ids::table::StringTable;

#[test]
fn table_insert_get_remove() {
    let mut table: StringTable<u64> = StringTable::new();
    assert!(table.is_empty());
    assert_eq!(table.len(), 0);
    table.insert("a".to_string(), 1);
    table.insert("b".to_string(), 2);
    table.insert("a".to_string(), 3);
    assert_eq!(table.len(), 2);
    assert!(!table.is_empty());
    assert_eq!(table.get("a"), Some(&3));
    assert_eq!(table.get("b"), Some(&2));
    assert_eq!(table.get("c"), None);
    assert!(table.contains_key("b"));
    assert!(!table.contains_key(""));
    assert_eq!(table.remove("a"), Some(3));
    assert_eq!(table.remove("a"), None);
    assert_eq!(table.len(), 1);
    assert_eq!(table.get("b"), Some(&2));
}

#[test]
fn table_sweeps() {
    let second: i128 = 1_000_000_000;
    let mut times: StringTable<Vec<i128>> = StringTable::new();
    times.insert("x".to_string(), vec![0, second, 2 * second]);
    times.insert("y".to_string(), vec![]);
    times.evict_all(2 * second, 1);
    assert_eq!(times.get("x").unwrap(), &vec![2 * second]);
    assert_eq!(times.get("y").unwrap(), &Vec::<i128>::new());
    assert_eq!(times.len(), 2);

    let mut ports: StringTable<std::collections::HashSet<u16>> = StringTable::new();
    ports.insert("a".to_string(), std::collections::HashSet::new());
    ports.insert("b".to_string(), [80u16].into_iter().collect());
    ports.insert("c".to_string(), std::collections::HashSet::new());
    ports.drop_empty();
    assert_eq!(ports.len(), 1);
    assert!(ports.contains_key("b"));
}
