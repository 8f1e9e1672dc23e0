use handy::table::Table;
use handy::text::{
    clone_optional, clone_strings, is_blank, join2, join3, language_of_locale, owned, same,
    strip_invisible,
};

#[test]
fn table_starts_empty() {
    let table: Table<u32> = Table::new();
    assert_eq!(table.len(), 0);
    assert!(!table.contains_key("a"));
    assert_eq!(table.get("a"), None);
}

#[test]
fn table_insert_then_get() {
    let mut table: Table<u32> = Table::new();
    table.insert("one".to_string(), 1);
    table.insert("two".to_string(), 2);
    assert_eq!(table.len(), 2);
    assert_eq!(table.get("one"), Some(&1));
    assert_eq!(table.get("two"), Some(&2));
    assert_eq!(table.get("three"), None);
}

#[test]
fn table_insert_replaces_in_place() {
    let mut table: Table<u32> = Table::new();
    table.insert("one".to_string(), 1);
    table.insert("two".to_string(), 2);
    table.insert("one".to_string(), 11);
    assert_eq!(table.len(), 2);
    assert_eq!(table.get("one"), Some(&11));
    assert_eq!(table.key_at(0), "one");
    assert_eq!(table.key_at(1), "two");
    assert_eq!(table.value_at(0), &11);
}

#[test]
fn table_remove_moves_entries_up() {
    let mut table: Table<u32> = Table::new();
    table.insert("a".to_string(), 1);
    table.insert("b".to_string(), 2);
    table.insert("c".to_string(), 3);
    assert_eq!(table.remove("b"), Some(2));
    assert_eq!(table.remove("b"), None);
    assert_eq!(table.len(), 2);
    assert_eq!(table.key_at(0), "a");
    assert_eq!(table.key_at(1), "c");
    assert_eq!(table.value_at(1), &3);
}

#[test]
fn table_clone_keeps_entries() {
    let mut table: Table<String> = Table::new();
    table.insert("k".to_string(), "v".to_string());
    let copy = table.clone();
    assert_eq!(copy, table);
    assert_eq!(copy.get("k"), Some(&"v".to_string()));
}

#[test]
fn same_compares_characters() {
    assert!(same("abc", "abc"));
    assert!(!same("abc", "abd"));
    assert!(!same("abc", "ab"));
    assert!(same("", ""));
}

#[test]
fn joins_concatenate() {
    assert_eq!(join2("ab", "cd"), "abcd");
    assert_eq!(join3("a", "", "b"), "ab");
    assert_eq!(owned("x"), "x");
}

#[test]
fn blank_means_only_white_space() {
    assert!(is_blank(""));
    assert!(is_blank("  \t\n"));
    assert!(is_blank("\u{00A0}\u{3000}"));
    assert!(!is_blank(" a "));
    assert!(!is_blank("\u{200B}"));
}

#[test]
fn language_is_the_part_before_the_separator() {
    assert_eq!(language_of_locale("en-US"), "en");
    assert_eq!(language_of_locale("pt_BR"), "pt");
    assert_eq!(language_of_locale("de"), "de");
    assert_eq!(language_of_locale(""), "");
    assert_eq!(language_of_locale("-x"), "");
    assert_eq!(language_of_locale("zh-Hant_TW"), "zh");
}

#[test]
fn strip_removes_the_four_invisible_characters() {
    assert_eq!(strip_invisible("Hel\u{200B}lo\u{FEFF}"), "Hello");
    assert_eq!(strip_invisible("\u{200C}a\u{200D}b\u{200B}\u{FEFF}"), "ab");
    assert_eq!(strip_invisible("\u{200B}\u{200B}"), "");
}

#[test]
fn strip_leaves_clean_text_alone() {
    assert_eq!(strip_invisible("Hello, world"), "Hello, world");
    assert_eq!(strip_invisible(""), "");
    assert_eq!(strip_invisible("a\u{00A0}b \u{2060}"), "a\u{00A0}b \u{2060}");
}

#[test]
fn strip_twice_is_strip_once() {
    let once = strip_invisible("a\u{200B}\u{FEFF}b\u{200D}c");
    let twice = strip_invisible(&once);
    assert_eq!(once, "abc");
    assert_eq!(twice, once);
}

#[test]
fn copies_are_equal() {
    assert_eq!(clone_optional(&Some("mic".to_string())), Some("mic".to_string()));
    assert_eq!(clone_optional(&None), None);
    let words = vec!["a".to_string(), "b".to_string()];
    assert_eq!(clone_strings(&words), words);
}
