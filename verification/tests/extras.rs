use weaviate_embedded::extras::Extras;

#[test]
fn new_extras_are_empty() {
    let extras = Extras::new();
    assert_eq!(extras.len(), 0);
    assert_eq!(extras.get("A"), None);
}

#[test]
fn keys_are_unique_and_the_last_value_wins() {
    let extras = Extras::new()
        .insert("A".to_string(), "1".to_string())
        .insert("B".to_string(), "2".to_string())
        .insert("A".to_string(), "3".to_string());
    assert_eq!(extras.len(), 2);
    assert_eq!(extras.get("A"), Some("3"));
    assert_eq!(extras.get("B"), Some("2"));
    assert_eq!(extras.get("C"), None);
    assert_eq!(extras.entry(0), ("A", "3"));
    assert_eq!(extras.entry(1), ("B", "2"));
}

#[test]
fn keys_are_compared_exactly() {
    let extras = Extras::new()
        .insert("a".to_string(), "1".to_string())
        .insert("A".to_string(), "2".to_string())
        .insert("".to_string(), "3".to_string());
    assert_eq!(extras.len(), 3);
    assert_eq!(extras.get("a"), Some("1"));
    assert_eq!(extras.get("A"), Some("2"));
    assert_eq!(extras.get(""), Some("3"));
}

#[test]
fn pairs_are_collected_in_turn() {
    let pairs = vec![
        ("A".to_string(), "1".to_string()),
        ("B".to_string(), "2".to_string()),
        ("A".to_string(), "3".to_string()),
    ];
    let extras = Extras::from_pairs(&pairs);
    assert_eq!(extras.len(), 2);
    assert_eq!(extras.entry(0), ("A", "3"));
    assert_eq!(extras.entry(1), ("B", "2"));
    assert_eq!(Extras::from_pairs(&Vec::new()), Extras::new());
    let same = Extras::new()
        .insert("A".to_string(), "3".to_string())
        .insert("B".to_string(), "2".to_string());
    assert_eq!(extras, same);
}
