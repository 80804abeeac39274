use apm::attrs::{AttrBag, AttrValue};

#[test]
fn test_insertion_order_kept() {
    let mut bag = AttrBag::new();
    bag.insert("b".to_string(), AttrValue::I64(1));
    bag.insert("a".to_string(), AttrValue::I64(2));
    bag.insert("c".to_string(), AttrValue::I64(3));
    assert_eq!(bag.len(), 3);
    assert_eq!(bag.entry_at(0).0, "b");
    assert_eq!(bag.entry_at(1).0, "a");
    assert_eq!(bag.entry_at(2).0, "c");
}

#[test]
fn test_insert_replaces_in_place() {
    let mut bag = AttrBag::new();
    bag.insert("a".to_string(), AttrValue::I64(1));
    bag.insert("b".to_string(), AttrValue::I64(2));
    bag.insert("a".to_string(), AttrValue::I64(9));
    assert_eq!(bag.len(), 2);
    assert_eq!(bag.entry_at(0).0, "a");
    assert_eq!(bag.entry_at(0).1, AttrValue::I64(9));
}

#[test]
fn test_remove_and_get() {
    let mut bag = AttrBag::new();
    bag.insert("x".to_string(), AttrValue::Bool(true));
    assert_eq!(bag.get("x"), Some(&AttrValue::Bool(true)));
    assert_eq!(bag.remove("x"), Some(AttrValue::Bool(true)));
    assert_eq!(bag.get("x"), None);
    assert_eq!(bag.remove("x"), None);
}

#[test]
fn test_remove_str_type_fallback() {
    let mut bag = AttrBag::new();
    bag.insert("n".to_string(), AttrValue::I64(7));
    // A non-string value is consumed but projects to nothing.
    assert_eq!(bag.remove_str("n"), None);
    assert!(bag.is_empty());
}

#[test]
fn test_remove_i64_accepts_fitting_u64() {
    let mut bag = AttrBag::new();
    bag.insert("a".to_string(), AttrValue::U64(200));
    bag.insert("b".to_string(), AttrValue::U64(u64::MAX));
    assert_eq!(bag.remove_i64("a"), Some(200));
    assert_eq!(bag.remove_i64("b"), None);
}

#[test]
fn test_merge_applies_updates_in_order() {
    let mut bag = AttrBag::new();
    bag.insert("a".to_string(), AttrValue::I64(1));
    let mut updates = AttrBag::new();
    updates.insert("a".to_string(), AttrValue::I64(2));
    updates.insert("b".to_string(), AttrValue::Str("x".to_string()));
    bag.merge(updates);
    assert_eq!(bag.len(), 2);
    assert_eq!(bag.get("a"), Some(&AttrValue::I64(2)));
    assert_eq!(bag.get("b"), Some(&AttrValue::Str("x".to_string())));
}

#[test]
fn test_duplicate_is_equal() {
    let mut bag = AttrBag::new();
    bag.insert("a".to_string(), AttrValue::Str("v".to_string()));
    let copy = bag.duplicate();
    assert_eq!(copy.len(), 1);
    assert_eq!(copy.get("a"), Some(&AttrValue::Str("v".to_string())));
}
