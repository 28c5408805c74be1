use pixi_logic::text::{
    comes_before, decimal, join, replace_all, split_before, str_eq, strip_prefix, trim,
};

#[test]
fn replacing_goes_from_left_to_right() {
    assert_eq!(replace_all("aaa", "aa", "b"), "ba");
    assert_eq!(replace_all("@A@A@", "@A@", "x"), "xA@");
    assert_eq!(replace_all("plain", "@A@", "x"), "plain");
    assert_eq!(replace_all("@A@", "@A@", "@A@@A@"), "@A@@A@");
    assert_eq!(replace_all("", "a", "b"), "");
}

#[test]
fn numbers_are_written_in_decimal() {
    for n in [0, 7, 10, 99, 100, 12345, usize::MAX] {
        assert_eq!(decimal(n), n.to_string());
    }
}

#[test]
fn parts_are_joined() {
    let parts = |parts: &[&str]| -> Vec<String> {
        parts.iter().map(|part| part.to_string()).collect()
    };
    assert_eq!(join(&parts(&[]), ", "), "");
    assert_eq!(join(&parts(&["a"]), ", "), "a");
    assert_eq!(join(&parts(&["a", "", "b"]), ", "), "a, , b");
}

#[test]
fn white_space_is_trimmed() {
    for text in ["", "  ", " a b ", "\n\t\u{a0}x\u{2003}", "\u{200b}y", "\u{85}z\u{3000}"] {
        assert_eq!(trim(text), text.trim());
    }
}

#[test]
fn texts_are_cut_and_compared() {
    assert_eq!(split_before("2025-01-31T10", 'T'), "2025-01-31");
    assert_eq!(split_before("2025", 'T'), "2025");
    assert_eq!(split_before("", 'T'), "");
    assert_eq!(strip_prefix("v1.0", "v"), Some("1.0"));
    assert_eq!(strip_prefix("1.0", "v"), None);
    assert_eq!(strip_prefix("v1.0", ""), Some("v1.0"));
    assert!(str_eq("a", "a"));
    assert!(!str_eq("a", "b"));
    for (a, b) in [("a", "b"), ("", "a"), ("ab", "b"), ("a", "ab"), ("é", "z"), ("b", "b")] {
        assert_eq!(comes_before(a, b), a < b);
        assert_eq!(comes_before(b, a), b < a);
    }
}
