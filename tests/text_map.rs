use http_request::TextMap;

#[test]
fn new_map_is_empty() {
    let m = TextMap::new();
    assert!(m.is_empty());
    assert_eq!(m.len(), 0);
    assert_eq!(m.get("a"), None);
    assert!(!m.contains_key("a"));
}

#[test]
fn insert_hands_back_the_previous_value() {
    let mut m = TextMap::new();
    assert_eq!(m.insert("a".to_string(), "1".to_string()), None);
    assert_eq!(m.insert("b".to_string(), "2".to_string()), None);
    assert_eq!(m.insert("a".to_string(), "3".to_string()), Some("1".to_string()));
    assert_eq!(m.len(), 2);
    assert_eq!(m.get("a"), Some("3".to_string()));
    assert_eq!(m.get("b"), Some("2".to_string()));
    assert!(!m.is_empty());
}

#[test]
fn remove_takes_the_value_out() {
    let mut m = TextMap::new();
    m.insert("a".to_string(), "1".to_string());
    m.insert("b".to_string(), "2".to_string());
    m.insert("c".to_string(), "3".to_string());
    assert_eq!(m.remove("a"), Some("1".to_string()));
    assert_eq!(m.remove("a"), None);
    assert_eq!(m.len(), 2);
    assert!(!m.contains_key("a"));
    assert_eq!(m.get("b"), Some("2".to_string()));
    assert_eq!(m.get("c"), Some("3".to_string()));
    assert_eq!(m.remove("b"), Some("2".to_string()));
    assert_eq!(m.remove("c"), Some("3".to_string()));
    assert!(m.is_empty());
}

#[test]
fn empty_key_and_value_are_kept() {
    let mut m = TextMap::new();
    m.insert(String::new(), String::new());
    assert!(m.contains_key(""));
    assert_eq!(m.get(""), Some(String::new()));
}
