use notes_cli::string_map::StringMap;

#[test]
fn a_new_map_is_empty() {
    let map = StringMap::new();
    assert_eq!(map.len(), 0);
    assert!(!map.contains_key("a"));
    assert_eq!(map.get("a"), None);
}

#[test]
fn insert_adds_a_new_key() {
    let mut map = StringMap::new();
    map.insert("a".to_string(), "1".to_string());
    map.insert("b".to_string(), "2".to_string());
    assert_eq!(map.len(), 2);
    assert!(map.contains_key("a"));
    assert!(map.contains_key("b"));
    assert!(!map.contains_key("c"));
    assert_eq!(map.get("a"), Some(&"1".to_string()));
    assert_eq!(map.get("b"), Some(&"2".to_string()));
}

#[test]
fn insert_replaces_the_value_of_a_key() {
    let mut map = StringMap::new();
    map.insert("a".to_string(), "1".to_string());
    map.insert("b".to_string(), "2".to_string());
    map.insert("a".to_string(), "3".to_string());
    assert_eq!(map.len(), 2);
    assert_eq!(map.get("a"), Some(&"3".to_string()));
    assert_eq!(map.get("b"), Some(&"2".to_string()));
}

#[test]
fn keys_are_compared_character_by_character() {
    let mut map = StringMap::new();
    map.insert("key".to_string(), "1".to_string());
    map.insert("Key".to_string(), "2".to_string());
    map.insert("".to_string(), "3".to_string());
    map.insert("ke".to_string(), "4".to_string());
    map.insert("clé".to_string(), "5".to_string());
    assert_eq!(map.len(), 5);
    assert_eq!(map.get("key"), Some(&"1".to_string()));
    assert_eq!(map.get("Key"), Some(&"2".to_string()));
    assert_eq!(map.get(""), Some(&"3".to_string()));
    assert_eq!(map.get("ke"), Some(&"4".to_string()));
    assert_eq!(map.get("clé"), Some(&"5".to_string()));
    assert_eq!(map.get("cle"), None);
}

#[test]
fn entry_gives_the_entries_in_the_order_of_their_keys() {
    let mut map = StringMap::new();
    map.insert("z".to_string(), "1".to_string());
    map.insert("a".to_string(), "2".to_string());
    map.insert("z".to_string(), "3".to_string());
    assert_eq!(map.entry(0), (&"z".to_string(), &"3".to_string()));
    assert_eq!(map.entry(1), (&"a".to_string(), &"2".to_string()));
}

#[test]
fn a_clone_holds_the_same_entries() {
    let mut map = StringMap::new();
    map.insert("a".to_string(), "1".to_string());
    map.insert("b".to_string(), "2".to_string());
    let mut copy = map.clone();
    assert_eq!(copy.len(), 2);
    assert_eq!(copy.get("a"), Some(&"1".to_string()));
    assert_eq!(copy.get("b"), Some(&"2".to_string()));
    copy.insert("a".to_string(), "changed".to_string());
    assert_eq!(map.get("a"), Some(&"1".to_string()));
}
