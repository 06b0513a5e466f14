use podcast_search::categories::Categories;
use podcast_search::text::decimal_text;

#[test]
fn decimal_text_renders_numerals() {
    assert_eq!(decimal_text(0), "0");
    assert_eq!(decimal_text(7), "7");
    assert_eq!(decimal_text(10), "10");
    assert_eq!(decimal_text(1234567890), "1234567890");
}

#[test]
fn from_names_numbers_by_position() {
    let table = Categories::from_names(vec!["News".to_string(), "Tech".to_string()]);
    assert_eq!(table.len(), 2);
    assert_eq!(table.get("0"), Some(&"News".to_string()));
    assert_eq!(table.get("1"), Some(&"Tech".to_string()));
    assert_eq!(table.get("2"), None);
    assert_eq!(table.key_at(1), "1");
}

#[test]
fn insert_replaces_the_name_under_a_key() {
    let mut table = Categories::new();
    assert!(table.is_empty());
    table.insert("55".to_string(), "News".to_string());
    table.insert("9".to_string(), "Arts".to_string());
    table.insert("55".to_string(), "Daily News".to_string());
    assert_eq!(table.len(), 2);
    assert_eq!(table.key_at(0), "55");
    assert_eq!(table.name_at(0), "Daily News");
    assert_eq!(table.key_at(1), "9");
    assert_eq!(table.get("55"), Some(&"Daily News".to_string()));
    assert_eq!(table.get("9"), Some(&"Arts".to_string()));
    assert_eq!(table.get("5"), None);
    assert!(table.contains_key("9"));
    assert!(!table.contains_key(""));
}

#[test]
fn tables_are_equal_as_mappings() {
    let mut a = Categories::new();
    a.insert("1".to_string(), "News".to_string());
    a.insert("2".to_string(), "Arts".to_string());
    let mut b = Categories::new();
    b.insert("2".to_string(), "Arts".to_string());
    b.insert("1".to_string(), "News".to_string());
    assert!(a == b);
    assert!(a.included_in(&b));
    let copy = a.clone();
    assert!(copy == a);
    assert_eq!(copy.key_at(0), "1");
    b.insert("3".to_string(), "Music".to_string());
    assert!(a != b);
    assert!(a.included_in(&b));
    assert!(!b.included_in(&a));
    a.insert("3".to_string(), "Sports".to_string());
    assert!(a != b);
    assert!(Categories::new() == Categories::new());
    assert!(Categories::from_names(vec![]) == Categories::new());
}

#[test]
fn from_names_keeps_repeated_names() {
    let table = Categories::from_names(vec!["News".to_string(), "News".to_string()]);
    assert_eq!(table.len(), 2);
    assert_eq!(table.get("0"), Some(&"News".to_string()));
    assert_eq!(table.get("1"), Some(&"News".to_string()));
}
