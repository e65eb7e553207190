use alfred::text::{is_whitespace, split_words, trim};

#[test]
fn trim_strips_both_ends() {
    assert_eq!(trim("  hello world \n"), "hello world");
    assert_eq!(trim("\u{00A0}x\u{2003}"), "x");
    assert_eq!(trim("   "), "");
    assert_eq!(trim(""), "");
    assert_eq!(trim("abc"), "abc");
}

#[test]
fn split_words_matches_std() {
    for s in ["", "a", "  a  b ", "x\ty\nz", "\u{2028}p\u{85}q", "one"] {
        let expected: Vec<String> = s.split_whitespace().map(|w| w.to_string()).collect();
        assert_eq!(split_words(s), expected);
    }
}

#[test]
fn whitespace_matches_std() {
    for c in ['\t', '\n', '\u{0B}', ' ', '\u{85}', '\u{A0}', '\u{1680}', '\u{2000}', '\u{200A}',
        '\u{2028}', '\u{2029}', '\u{202F}', '\u{205F}', '\u{3000}', 'a', '\u{200B}', '_', '\u{180E}']
    {
        assert_eq!(is_whitespace(c), c.is_whitespace(), "{:?}", c);
    }
}
