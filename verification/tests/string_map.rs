use fronius_exporter::string_map::StringMap;

#[test]
fn new_map_is_empty() {
    let map: StringMap<u32> = StringMap::new();
    assert_eq!(map.len(), 0);
    assert_eq!(map.get("0"), None);
    assert_eq!(map.find("0"), None);
}

#[test]
fn insert_appends_new_keys_in_order() {
    let mut map: StringMap<u32> = StringMap::new();
    map.insert("b".to_string(), 2);
    map.insert("a".to_string(), 1);
    map.insert("c".to_string(), 3);
    assert_eq!(map.len(), 3);
    assert_eq!(map.entry(0), (&"b".to_string(), &2));
    assert_eq!(map.entry(1), (&"a".to_string(), &1));
    assert_eq!(map.entry(2), (&"c".to_string(), &3));
    assert_eq!(map.find("a"), Some(1));
    assert_eq!(map.get("c"), Some(&3));
    assert_eq!(map.get("d"), None);
}

#[test]
fn insert_replaces_in_place() {
    let mut map: StringMap<u32> = StringMap::new();
    map.insert("b".to_string(), 2);
    map.insert("a".to_string(), 1);
    map.insert("b".to_string(), 20);
    assert_eq!(map.len(), 2);
    assert_eq!(map.entry(0), (&"b".to_string(), &20));
    assert_eq!(map.entry(1), (&"a".to_string(), &1));
    assert_eq!(map.get("b"), Some(&20));
}

#[test]
fn keys_are_compared_exactly() {
    let mut map: StringMap<u32> = StringMap::new();
    map.insert("0".to_string(), 1);
    map.insert("00".to_string(), 2);
    map.insert("".to_string(), 3);
    assert_eq!(map.len(), 3);
    assert_eq!(map.get("0"), Some(&1));
    assert_eq!(map.get("00"), Some(&2));
    assert_eq!(map.get(""), Some(&3));
    assert_eq!(map.get(" 0"), None);
}
