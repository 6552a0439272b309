use node_info_aggregator::annotations::Annotations;

#[test]
fn empty_annotations_hold_nothing() {
    let annotations = Annotations::new();
    assert_eq!(annotations.get("vsl.rss3.io/scrape"), None);
    assert_eq!(annotations.get(""), None);
}

#[test]
fn inserted_value_is_found_under_its_key() {
    let mut annotations = Annotations::new();
    annotations.insert("a".to_string(), "1".to_string());
    annotations.insert("b".to_string(), "2".to_string());
    assert_eq!(annotations.get("a"), Some(&"1".to_string()));
    assert_eq!(annotations.get("b"), Some(&"2".to_string()));
    assert_eq!(annotations.get("c"), None);
}

#[test]
fn keys_are_compared_exactly() {
    let mut annotations = Annotations::new();
    annotations.insert("Key".to_string(), "v".to_string());
    assert_eq!(annotations.get("key"), None);
    assert_eq!(annotations.get("Key "), None);
    assert_eq!(annotations.get("Ke"), None);
    assert_eq!(annotations.get("Key"), Some(&"v".to_string()));
}

#[test]
fn second_insert_replaces_the_value() {
    let mut annotations = Annotations::new();
    annotations.insert("a".to_string(), "1".to_string());
    annotations.insert("b".to_string(), "2".to_string());
    annotations.insert("a".to_string(), "3".to_string());
    assert_eq!(annotations.get("a"), Some(&"3".to_string()));
    assert_eq!(annotations.get("b"), Some(&"2".to_string()));
}

#[test]
fn empty_key_and_empty_value_are_ordinary() {
    let mut annotations = Annotations::new();
    annotations.insert(String::new(), String::new());
    assert_eq!(annotations.get(""), Some(&String::new()));
    assert_eq!(annotations.get("a"), None);
}
