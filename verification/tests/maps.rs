use lite_notes::keyed::Keyed;

#[test]
fn a_new_map_is_empty() {
    let map: Keyed<u8> = Keyed::new();
    assert_eq!(map.len(), 0);
    assert_eq!(map.get("1"), None);
}

#[test]
fn a_later_value_replaces_the_earlier() {
    let mut map: Keyed<u8> = Keyed::new();
    map.insert("1", 10);
    map.insert("2", 20);
    map.insert("1", 30);
    assert_eq!(map.len(), 2);
    assert_eq!(map.get("1"), Some(&30));
    assert_eq!(map.get("2"), Some(&20));
    assert_eq!(map.get("3"), None);
}

#[test]
fn entries_keep_the_order_in_which_their_keys_came() {
    let mut map: Keyed<u8> = Keyed::new();
    for (key, value) in [("b", 1), ("a", 2), ("b", 3), ("c", 4), ("a", 5)] {
        map.insert(key, value);
    }
    let keys: Vec<&str> = (0..map.len()).map(|i| map.entry(i).0.as_str()).collect();
    assert_eq!(keys, vec!["b", "a", "c"]);
}

#[test]
fn entries_are_the_members() {
    let mut map: Keyed<String> = Keyed::new();
    for n in 0..20u32 {
        map.insert(&(n % 7).to_string(), n.to_string());
    }
    assert_eq!(map.len(), 7);
    for i in 0..map.len() {
        let (key, value) = map.entry(i);
        assert_eq!(map.get(key), Some(value));
    }
    for n in 0..7u32 {
        let key = n.to_string();
        assert!((0..map.len()).any(|i| map.entry(i).0 == key));
    }
}
