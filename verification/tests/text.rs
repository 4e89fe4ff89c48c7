use pds_dash::text::{joined, contains_char, is_white_space, trim, trim_end_char};

#[test]
fn trim_strips_both_ends() {
    assert_eq!(trim("  alice \n\t"), "alice");
    assert_eq!(trim("a b"), "a b");
    assert_eq!(trim(""), "");
    assert_eq!(trim(" \r\n "), "");
}

#[test]
fn trim_uses_unicode_white_space() {
    assert_eq!(trim("\u{3000}x\u{85}\u{a0}"), "x");
    assert_eq!(trim("\u{200b}x"), "\u{200b}x");
    for c in ['\t', '\n', '\u{b}', '\u{c}', '\r', ' ', '\u{85}', '\u{a0}', '\u{1680}', '\u{2000}', '\u{200a}', '\u{2028}', '\u{2029}', '\u{202f}', '\u{205f}', '\u{3000}'] {
        assert!(is_white_space(c), "{c:?}");
        assert!(c.is_whitespace());
    }
    for c in ['a', '\u{200b}', '\u{180e}', '\u{feff}', '_'] {
        assert_eq!(is_white_space(c), c.is_whitespace(), "{c:?}");
    }
}

#[test]
fn trim_agrees_with_std() {
    for s in ["  x  ", "\u{2003}héllo wörld\u{2029}", "x", "   ", "a\u{3000}"] {
        assert_eq!(trim(s), s.trim());
    }
}

#[test]
fn trim_end_char_strips_all_trailing() {
    assert_eq!(trim_end_char("http://localhost:3000//", '/'), "http://localhost:3000");
    assert_eq!(trim_end_char("http://a/b", '/'), "http://a/b");
    assert_eq!(trim_end_char("///", '/'), "");
}

#[test]
fn contains_and_concat() {
    assert!(contains_char("alice.bsky.social", '.'));
    assert!(!contains_char("alice", '.'));
    assert_eq!(joined("ab", "cd"), "abcd");
}
