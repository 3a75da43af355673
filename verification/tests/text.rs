use herdr::text::{concat3, is_whitespace, starts_with, str_eq, str_lt, trim_str};

#[test]
fn whitespace_matches_the_standard_library() {
    for c in ['\t', '\n', '\u{b}', '\u{c}', '\r', ' ', '\u{85}', '\u{a0}', '\u{1680}', '\u{2000}',
        '\u{200a}', '\u{2028}', '\u{2029}', '\u{202f}', '\u{205f}', '\u{3000}', 'a', '\u{200b}',
        '\u{feff}', '\u{180e}', '0', '\u{1f600}']
    {
        assert_eq!(is_whitespace(c), c.is_whitespace(), "{c:?}");
    }
}

#[test]
fn trimming_matches_the_standard_library() {
    for s in ["", "  ", " a ", "\u{3000}b\u{2029}", "a b", "\u{200b}x", "é "] {
        assert_eq!(trim_str(s), s.trim());
    }
}

#[test]
fn equality_prefix_and_order() {
    assert!(str_eq("abc", "abc"));
    assert!(!str_eq("abc", "abd"));
    assert!(!str_eq("ab", "abc"));
    assert!(starts_with("manifest unavailable: x", "manifest unavailable"));
    assert!(!starts_with("manifest", "manifest unavailable"));
    assert!(starts_with("x", ""));
    assert!(str_lt("a", "b"));
    assert!(str_lt("a", "ab"));
    assert!(!str_lt("ab", "a"));
    assert!(!str_lt("a", "a"));
    assert!(str_lt("Z", "a"));
    assert_eq!(str_lt("é", "z"), "é" < "z");
    assert_eq!(str_lt("z", "é"), "z" < "é");
    assert_eq!(concat3("a", ".", "b"), "a.b");
}
