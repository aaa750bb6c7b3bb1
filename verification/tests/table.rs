use portaltech::text::{decimal_text, same_text};
use portaltech::Table;

#[test]
fn values_are_found_under_their_keys() {
    let mut table: Table<u32> = Table::new();
    assert_eq!(table.len(), 0);
    table.insert("a".to_string(), 1);
    table.insert("b".to_string(), 2);
    assert_eq!(table.get("a"), Some(&1));
    assert_eq!(table.get("b"), Some(&2));
    assert_eq!(table.get("c"), None);
    assert_eq!(table.len(), 2);
}

#[test]
fn later_values_replace_earlier_ones() {
    let mut table: Table<u32> = Table::new();
    table.insert("a".to_string(), 1);
    table.insert("a".to_string(), 2);
    assert_eq!(table.get("a"), Some(&2));
    assert_eq!(table.len(), 1);
}

#[test]
fn removed_keys_are_gone() {
    let mut table: Table<u32> = Table::new();
    for (i, key) in ["a", "b", "c"].iter().enumerate() {
        table.insert(key.to_string(), i as u32);
    }
    assert_eq!(table.remove("b"), Some(1));
    assert_eq!(table.remove("b"), None);
    let mut keys = table.keys();
    keys.sort();
    assert_eq!(keys, vec!["a".to_string(), "c".to_string()]);
    assert_eq!(table.get("c"), Some(&2));
}

#[test]
fn keys_and_values_stand_side_by_side() {
    let mut table: Table<u32> = Table::new();
    table.insert("a".to_string(), 1);
    table.insert("b".to_string(), 2);
    for i in 0..table.len() {
        assert_eq!(table.get(table.key_at(i)), Some(table.value_at(i)));
    }
}

#[test]
fn text_is_compared_by_characters() {
    assert!(same_text("", ""));
    assert!(same_text("h\u{e9}", "h\u{e9}"));
    assert!(!same_text("he\u{301}", "h\u{e9}"));
    assert!(!same_text("a", "A"));
    assert!(!same_text("ab", "a"));
}

#[test]
fn numbers_are_written_in_decimal() {
    for n in [0u64, 1, 9, 10, 99, 100, 5242881, u64::MAX] {
        assert_eq!(decimal_text(n), n.to_string());
    }
}
