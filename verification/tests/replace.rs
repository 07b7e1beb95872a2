use gdsetup::replace::{apply_replacements, contains_str, replace_all};

#[test]
fn replace_all_replaces_every_occurrence() {
    assert_eq!(replace_all("foo bar foo", "foo", "baz"), "baz bar baz");
    assert_eq!(replace_all("abc", "d", "x"), "abc");
    assert_eq!(replace_all("", "a", "b"), "");
}

#[test]
fn replace_all_is_leftmost_and_non_overlapping() {
    assert_eq!(replace_all("aaa", "aa", "b"), "ba");
    assert_eq!(replace_all("aaaa", "aa", "a"), "aa");
    assert_eq!(replace_all("ababa", "aba", "c"), "cba");
}

#[test]
fn replace_all_handles_growing_and_shrinking_patterns() {
    assert_eq!(replace_all("x.y.z", ".", "::"), "x::y::z");
    assert_eq!(replace_all("foo_library_init", "foo", "bar"), "bar_library_init");
    assert_eq!(replace_all("uninitialize_foo_module", "initialize_foo_module", "initialize_bar_module"), "uninitialize_bar_module");
}

#[test]
fn apply_replacements_applies_pairs_in_order() {
    let ps = vec![
        ("a".to_string(), "b".to_string()),
        ("bb".to_string(), "c".to_string()),
    ];
    assert_eq!(apply_replacements("ab", &ps), "c");
    let ps2 = vec![
        ("Foo::Foo()".to_string(), "Bar::Bar()".to_string()),
        ("Foo::".to_string(), "Bar::".to_string()),
    ];
    assert_eq!(apply_replacements("Foo::Foo() Foo::x", &ps2), "Bar::Bar() Bar::x");
}

#[test]
fn round_trip_restores_text_when_new_spelling_is_fresh() {
    let text = "#ifndef FOO_CLASS_H\nclass Foo : Foo();\n";
    let forward = replace_all(text, "FOO_CLASS_H", "BAR_CLASS_H");
    let back = replace_all(&forward, "BAR_CLASS_H", "FOO_CLASS_H");
    assert_eq!(back, text);
}

#[test]
fn contains_str_finds_substrings() {
    assert!(contains_str("abcdef", "cde"));
    assert!(contains_str("abcdef", ""));
    assert!(contains_str("abcdef", "abcdef"));
    assert!(!contains_str("abcdef", "cdf"));
    assert!(!contains_str("ab", "abc"));
}
