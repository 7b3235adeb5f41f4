use rust_hw::compare::{chars_of, compare_string};

#[test]
fn test_compare() {
    assert!(compare_string("abc", "ABC"));
    assert!(!compare_string("abc", "abc"));
    assert!(!compare_string("", "ABC"));
    assert!(compare_string("Moratoryvan", "Darkholm"));
    assert!(!compare_string("zxc ", "zzc"));
}

#[test]
fn compare_longer_string_after_its_prefix() {
    assert!(compare_string("abc", "ab"));
    assert!(!compare_string("ab", "abc"));
    assert!(!compare_string("", ""));
    assert!(compare_string("ABC", ""));
}

#[test]
fn compare_decides_at_first_difference() {
    assert!(compare_string("b", "abz"));
    assert!(!compare_string("ab", "b"));
    assert!(compare_string("é", "e"));
}

#[test]
fn chars_of_keeps_every_character() {
    assert_eq!(chars_of("héllo"), vec!['h', 'é', 'l', 'l', 'o']);
    assert_eq!(chars_of(""), Vec::<char>::new());
}

#[test]
fn compare_is_asymmetric() {
    assert!(compare_string("b", "a"));
    assert!(!compare_string("a", "b"));
    assert!(!compare_string("same", "same"));
}
