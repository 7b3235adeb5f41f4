use rust_hw::hash_map::hash_map;

#[test]
fn test_hash_map() {
    let map = hash_map(vec![
        ("one", 1),
        ("two", 2),
        ("three", 3),
        ("four", 4),
        ("five", 5),
        ("six", 6),
    ]);

    assert_eq!(map["one"], 1);
    assert_eq!(map["two"], 2);
    assert_eq!(map["three"], 3);
}

#[test]
fn hash_map_later_entry_wins() {
    let map = hash_map(vec![(1u32, "a"), (2, "b"), (1, "c")]);
    assert_eq!(map.len(), 2);
    assert_eq!(map[&1], "c");
    assert_eq!(map[&2], "b");
}

#[test]
fn hash_map_of_nothing_is_empty() {
    let map = hash_map(Vec::<(u8, u8)>::new());
    assert!(map.is_empty());
}
