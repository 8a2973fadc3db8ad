use mcp_todo_task::StringMap;

#[test]
fn new_map_is_empty() {
    let map: StringMap<usize> = StringMap::new();
    assert_eq!(map.len(), 0);
    assert_eq!(map.get("anything"), None);
    assert!(!map.contains_key("anything"));
    assert_eq!(map.position("anything"), None);
}

#[test]
fn insert_then_get() {
    let mut map: StringMap<usize> = StringMap::new();
    map.insert("a".to_string(), 1);
    map.insert("b".to_string(), 2);
    assert_eq!(map.len(), 2);
    assert_eq!(map.get("a"), Some(&1));
    assert_eq!(map.get("b"), Some(&2));
    assert_eq!(map.get("c"), None);
    assert!(map.contains_key("a"));
    assert!(!map.contains_key("A"));
}

#[test]
fn insert_under_present_key_replaces_in_place() {
    let mut map: StringMap<String> = StringMap::new();
    map.insert("first".to_string(), "1".to_string());
    map.insert("second".to_string(), "2".to_string());
    map.insert("first".to_string(), "one".to_string());
    assert_eq!(map.len(), 2);
    assert_eq!(map.get("first"), Some(&"one".to_string()));
    assert_eq!(map.key_at(0), "first");
    assert_eq!(map.value_at(0), "one");
    assert_eq!(map.key_at(1), "second");
    assert_eq!(map.value_at(1), "2");
}

#[test]
fn entries_keep_insertion_order() {
    let mut map: StringMap<usize> = StringMap::new();
    map.insert("zeta".to_string(), 26);
    map.insert("alpha".to_string(), 1);
    map.insert("mid".to_string(), 13);
    assert_eq!(map.position("zeta"), Some(0));
    assert_eq!(map.position("alpha"), Some(1));
    assert_eq!(map.position("mid"), Some(2));
    assert_eq!(map.key_at(2), "mid");
    assert_eq!(*map.value_at(2), 13);
}

#[test]
fn keys_are_compared_by_content() {
    let mut map: StringMap<usize> = StringMap::new();
    map.insert(String::new(), 0);
    map.insert("é".to_string(), 1);
    map.insert("e".to_string(), 2);
    assert_eq!(map.len(), 3);
    assert_eq!(map.get(""), Some(&0));
    assert_eq!(map.get("é"), Some(&1));
    assert_eq!(map.get("e"), Some(&2));
}
