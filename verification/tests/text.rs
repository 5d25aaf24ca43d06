use rocy::text::{eq_ignore_ascii_case, split_on, starts_with_ignore_ascii_case, str_eq, trim};

#[test]
fn string_comparisons() {
    assert!(str_eq("abc", "abc"));
    assert!(!str_eq("abc", "abd"));
    assert!(!str_eq("abc", "ab"));
    assert!(eq_ignore_ascii_case("HeLLo", "hello"));
    assert!(!eq_ignore_ascii_case("Straße", "STRASSE"));
    assert!(eq_ignore_ascii_case("é", "é"));
    assert!(starts_with_ignore_ascii_case("Multipart/form-data", "multipart/"));
    assert!(!starts_with_ignore_ascii_case("multi", "multipart/"));
}

#[test]
fn trim_removes_unicode_white_space_at_both_ends() {
    assert_eq!(trim("  a b  "), "a b");
    assert_eq!(trim("\t\n x\u{3000}"), "x");
    assert_eq!(trim("   "), "");
    assert_eq!(trim(""), "");
    assert_eq!(trim("\u{00A0}y\u{2028}"), "y");
    for s in ["  a b  ", "\t\n x\u{3000}", " \u{85}z\u{200A} ", "q"] {
        assert_eq!(trim(s), s.trim());
    }
}

#[test]
fn split_matches_str_split() {
    for s in ["", ",", "a", "a,b", ",a,,b,", "x, y ,z"] {
        let expected: Vec<String> = s.split(',').map(|p| p.to_string()).collect();
        assert_eq!(split_on(s, ','), expected);
    }
}
