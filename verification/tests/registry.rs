use pty_sessions::text::same_text;
use pty_sessions::Registry;

#[test]
fn new_registry_is_empty() {
    let registry: Registry<u32> = Registry::new();
    assert!(registry.is_empty());
    assert_eq!(registry.len(), 0);
    assert!(!registry.contains("a"));
    assert!(registry.get("a").is_none());
}

#[test]
fn insert_then_get_finds_the_session() {
    let mut registry: Registry<u32> = Registry::new();
    assert_eq!(registry.insert("a".to_string(), 7), Ok(()));
    assert_eq!(registry.insert("b".to_string(), 9), Ok(()));
    assert_eq!(registry.len(), 2);
    assert!(!registry.is_empty());
    assert!(registry.contains("a"));
    assert!(registry.contains("b"));
    assert!(!registry.contains("c"));
    assert_eq!(registry.get("a"), Some(&7));
    assert_eq!(registry.get("b"), Some(&9));
    assert_eq!(registry.get("c"), None);
}

#[test]
fn insert_refuses_a_live_identifier_and_hands_the_session_back() {
    let mut registry: Registry<u32> = Registry::new();
    assert_eq!(registry.insert("a".to_string(), 7), Ok(()));
    assert_eq!(registry.insert("a".to_string(), 8), Err(8));
    assert_eq!(registry.len(), 1);
    assert_eq!(registry.get("a"), Some(&7));
}

#[test]
fn remove_hands_over_exactly_the_named_session() {
    let mut registry: Registry<u32> = Registry::new();
    assert_eq!(registry.insert("a".to_string(), 1), Ok(()));
    assert_eq!(registry.insert("b".to_string(), 2), Ok(()));
    assert_eq!(registry.insert("c".to_string(), 3), Ok(()));
    assert_eq!(registry.remove("b"), Some(2));
    assert_eq!(registry.len(), 2);
    assert_eq!(registry.get("a"), Some(&1));
    assert_eq!(registry.get("b"), None);
    assert_eq!(registry.get("c"), Some(&3));
    assert_eq!(registry.remove("b"), None);
    assert_eq!(registry.len(), 2);
    assert_eq!(registry.remove("a"), Some(1));
    assert_eq!(registry.remove("c"), Some(3));
    assert!(registry.is_empty());
}

#[test]
fn an_identifier_can_be_registered_again_after_removal() {
    let mut registry: Registry<u32> = Registry::new();
    assert_eq!(registry.insert("a".to_string(), 1), Ok(()));
    assert_eq!(registry.remove("a"), Some(1));
    assert_eq!(registry.insert("a".to_string(), 2), Ok(()));
    assert_eq!(registry.get("a"), Some(&2));
}

#[test]
fn identifiers_are_compared_by_content() {
    let mut registry: Registry<u32> = Registry::new();
    assert_eq!(registry.insert("".to_string(), 0), Ok(()));
    assert_eq!(registry.insert("t".to_string(), 1), Ok(()));
    assert_eq!(registry.insert("t1".to_string(), 2), Ok(()));
    assert_eq!(registry.insert("T1".to_string(), 3), Ok(()));
    assert_eq!(registry.insert("t\u{e9}".to_string(), 4), Ok(()));
    assert_eq!(registry.get(""), Some(&0));
    assert_eq!(registry.get("t"), Some(&1));
    assert_eq!(registry.get("t1"), Some(&2));
    assert_eq!(registry.get("T1"), Some(&3));
    assert_eq!(registry.get("t\u{e9}"), Some(&4));
    assert_eq!(registry.get("t2"), None);
    assert_eq!(registry.get("te"), None);
}

#[test]
fn same_text_tells_equal_from_different() {
    assert!(same_text("", ""));
    assert!(same_text("abc", "abc"));
    assert!(same_text("h\u{e9}llo \u{1F600}", "h\u{e9}llo \u{1F600}"));
    assert!(!same_text("abc", "abd"));
    assert!(!same_text("abc", "ab"));
    assert!(!same_text("ab", "abc"));
    assert!(!same_text("", "a"));
    assert!(!same_text("\u{e9}", "e"));
}
