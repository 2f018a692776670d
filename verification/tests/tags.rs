use seabird_proxy::tags::Tags;

#[test]
fn new_tags_are_empty() {
    let tags = Tags::new();
    assert_eq!(tags.len(), 0);
    assert!(tags.get("proxy/skip").is_none());
    assert!(tags.to_vec().is_empty());
}

#[test]
fn insert_adds_a_tag() {
    let mut tags = Tags::new();
    assert_eq!(tags.insert("a".to_string(), "1".to_string()), None);
    assert_eq!(tags.len(), 1);
    assert_eq!(tags.get("a"), Some(&"1".to_string()));
    assert_eq!(tags.get("b"), None);
}

#[test]
fn insert_replaces_the_value_of_a_known_name() {
    let mut tags = Tags::new();
    tags.insert("a".to_string(), "1".to_string());
    tags.insert("b".to_string(), "2".to_string());
    assert_eq!(tags.insert("a".to_string(), "3".to_string()), Some("1".to_string()));
    assert_eq!(tags.len(), 2);
    assert_eq!(tags.get("a"), Some(&"3".to_string()));
    assert_eq!(tags.get("b"), Some(&"2".to_string()));
}

#[test]
fn names_are_told_apart_exactly() {
    let mut tags = Tags::new();
    tags.insert("proxy/skip".to_string(), "1".to_string());
    assert_eq!(tags.get("proxy/skip"), Some(&"1".to_string()));
    assert_eq!(tags.get("proxy/ski"), None);
    assert_eq!(tags.get("proxy/skip "), None);
    assert_eq!(tags.get(""), None);
}

#[test]
fn empty_name_is_a_name() {
    let mut tags = Tags::new();
    tags.insert(String::new(), "x".to_string());
    assert_eq!(tags.get(""), Some(&"x".to_string()));
    assert_eq!(tags.len(), 1);
}

#[test]
fn clone_holds_the_same_tags() {
    let mut tags = Tags::new();
    tags.insert("a".to_string(), "1".to_string());
    tags.insert("b".to_string(), "2".to_string());
    let copy = tags.clone();
    assert_eq!(copy.len(), 2);
    assert_eq!(copy.get("a"), Some(&"1".to_string()));
    assert_eq!(copy.get("b"), Some(&"2".to_string()));
}

#[test]
fn clone_is_independent_of_its_source() {
    let mut tags = Tags::new();
    tags.insert("a".to_string(), "1".to_string());
    let copy = tags.clone();
    tags.insert("a".to_string(), "9".to_string());
    assert_eq!(copy.get("a"), Some(&"1".to_string()));
    assert_eq!(tags.get("a"), Some(&"9".to_string()));
}

#[test]
fn to_vec_lists_each_name_once() {
    let mut tags = Tags::new();
    tags.insert("a".to_string(), "1".to_string());
    tags.insert("b".to_string(), "2".to_string());
    tags.insert("a".to_string(), "3".to_string());
    let mut entries = tags.to_vec();
    entries.sort();
    assert_eq!(
        entries,
        vec![("a".to_string(), "3".to_string()), ("b".to_string(), "2".to_string())]
    );
}
