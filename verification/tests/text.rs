use cserunner::text::{char_is_space, chars_of, trim};

#[test]
fn chars_of_lists_the_characters() {
    assert_eq!(chars_of(""), Vec::<char>::new());
    assert_eq!(chars_of("a/b"), vec!['a', '/', 'b']);
    assert_eq!(chars_of("\u{e9}t\u{e9}"), vec!['\u{e9}', 't', '\u{e9}']);
}

#[test]
fn white_space_is_what_unicode_says() {
    for c in [' ', '\t', '\n', '\r', '\u{0b}', '\u{0c}', '\u{85}', '\u{a0}', '\u{2003}', '\u{3000}'] {
        assert!(char_is_space(c));
    }
    for c in ['a', '_', '/', '0', '\u{8}', '\u{200b}', '\u{e9}'] {
        assert!(!char_is_space(c));
    }
}

#[test]
fn white_space_agrees_with_the_standard_library() {
    for n in 0..0x3100u32 {
        if let Some(c) = char::from_u32(n) {
            assert_eq!(char_is_space(c), c.is_whitespace());
        }
    }
}

#[test]
fn trim_removes_the_white_space_around() {
    assert_eq!(trim("  /home/u/p \n"), "/home/u/p");
    assert_eq!(trim("y\n"), "y");
    assert_eq!(trim("\t a b \r\n"), "a b");
    assert_eq!(trim("abc"), "abc");
    assert_eq!(trim(" x"), "x");
    assert_eq!(trim("x "), "x");
}

#[test]
fn trim_of_white_space_is_empty() {
    assert_eq!(trim(""), "");
    assert_eq!(trim("\n"), "");
    assert_eq!(trim("  \t \r\n"), "");
}

#[test]
fn trim_agrees_with_the_standard_library() {
    for line in ["", " ", "a", " a", "a ", "  \u{e9} \u{3000}", "\u{a0}n\u{2028}", "a  b", " \n\ty \n"] {
        assert_eq!(trim(line), line.trim());
    }
}
