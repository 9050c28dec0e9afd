use glogout::text::{replace_all, str_eq, trim};

#[test]
fn replace_is_left_to_right_and_non_overlapping() {
    assert_eq!(replace_all("aaa", "aa", "b"), "ba");
    assert_eq!(replace_all("x{{a}}y{{a}}", "{{a}}", "1"), "x1y1");
    assert_eq!(replace_all("abc", "zz", "q"), "abc");
    assert_eq!(replace_all("", "a", "b"), "");
    assert_eq!(replace_all("ab", "ab", "ab"), "ab");
    for (s, f, t) in [("aXbXc", "X", "--"), ("ééé", "é", "e"), ("{{{{x}}", "{{x}}", "!")] {
        assert_eq!(replace_all(s, f, t), s.replace(f, t));
    }
}

#[test]
fn trim_matches_std() {
    for s in ["  host \n", "\u{3000}x\u{2029}", "", "   ", "a b", "\t\r\nz\u{85}"] {
        assert_eq!(trim(s), s.trim());
    }
}

#[test]
fn string_equality() {
    assert!(str_eq("show", "show"));
    assert!(!str_eq("show", "shows"));
    assert!(!str_eq("show", "Show"));
    assert!(str_eq("", ""));
}
