use gdsetup::codegen::get_classname_uppercase;
use gdsetup::is_valid_root;
use gdsetup::symbols::{derive_symbols, to_upper};

#[test]
fn class_title_uppercases_first_character_only() {
    assert_eq!(get_classname_uppercase("foo"), "Foo");
    assert_eq!(get_classname_uppercase("foo_bar2"), "Foo_bar2");
    assert_eq!(get_classname_uppercase("_leading"), "_leading");
}

#[test]
fn upper_uppercases_every_character() {
    assert_eq!(to_upper("foo"), "FOO");
    assert_eq!(to_upper("foo_bar2"), "FOO_BAR2");
    assert_eq!(to_upper(""), "");
}

#[test]
fn derive_returns_all_three_spellings() {
    let d = derive_symbols("gdexample");
    assert_eq!(d.raw, "gdexample");
    assert_eq!(d.upper, "GDEXAMPLE");
    assert_eq!(d.class_title, "Gdexample");
}

#[test]
fn single_character_root_derives_correctly() {
    let d = derive_symbols("x");
    assert_eq!(d.raw, "x");
    assert_eq!(d.upper, "X");
    assert_eq!(d.class_title, "X");
}

#[test]
fn root_validation_accepts_identifier_safe_names() {
    assert!(is_valid_root("foo"));
    assert!(is_valid_root("x"));
    assert!(is_valid_root("_private"));
    assert!(is_valid_root("mod2_name"));
}

#[test]
fn root_validation_rejects_unsafe_names() {
    assert!(!is_valid_root(""));
    assert!(!is_valid_root("Foo"));
    assert!(!is_valid_root("foo bar"));
    assert!(!is_valid_root("foo/bar"));
    assert!(!is_valid_root("1abc"));
    assert!(!is_valid_root("f\u{e9}e"));
}
