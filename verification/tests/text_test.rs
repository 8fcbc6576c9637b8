use chat_handler::text::{
    chars_of, concat2, concat3, contains, decimal_text, has_text, join, parse_number, replace_all,
    same_text, space, split_words, strip_prefix,
};

fn strings(list: &[&str]) -> Vec<String> {
    list.iter().map(|s| s.to_string()).collect()
}

#[test]
fn words_are_split() {
    assert_eq!(split_words("  !start  now ", true), strings(&["!start", "now"]));
    assert_eq!(split_words("", true), strings(&[]));
    assert_eq!(split_words(" \t\r\n\u{c} ", true), strings(&[]));
    assert_eq!(split_words("one", false), strings(&["one"]));
    assert_eq!(split_words("zażółć gęślą", false), strings(&["zażółć", "gęślą"]));
}

#[test]
fn unicode_whitespace_splits_words_only_where_asked() {
    let text = "a\u{a0}b\u{3000}c\u{2009}d\u{b}e\u{85}f";
    assert_eq!(split_words(text, true), strings(&[text]));
    assert_eq!(split_words(text, false), strings(&["a", "b", "c", "d", "e", "f"]));
}

#[test]
fn whitespace_is_that_of_the_standard_library() {
    for n in 0..0x11000u32 {
        if let Some(c) = char::from_u32(n) {
            assert_eq!(space(c, true), c.is_ascii_whitespace(), "{:?}", c);
            assert_eq!(space(c, false), c.is_whitespace(), "{:?}", c);
        }
    }
}

#[test]
fn words_agree_with_the_standard_library() {
    for text in ["", " ", "a", " a b\tc ", "x\u{2003}y z", "\u{feff}a b", "!alias rem x"] {
        let ascii: Vec<String> = text.split_ascii_whitespace().map(|s| s.to_string()).collect();
        let unicode: Vec<String> = text.split_whitespace().map(|s| s.to_string()).collect();
        assert_eq!(split_words(text, true), ascii);
        assert_eq!(split_words(text, false), unicode);
    }
}

#[test]
fn words_hold_no_whitespace() {
    for word in split_words(" !trigger\u{2028}500  now\u{a0}", false) {
        assert!(!word.is_empty());
        assert!(!word.contains(char::is_whitespace));
    }
}

#[test]
fn prefixes_are_stripped() {
    assert_eq!(strip_prefix("!start", "!"), Some("start".to_string()));
    assert_eq!(strip_prefix("!start", ""), Some("!start".to_string()));
    assert_eq!(strip_prefix("!", "!"), Some("".to_string()));
    assert_eq!(strip_prefix("!!start", "!"), Some("!start".to_string()));
    assert_eq!(strip_prefix("start", "!"), None);
    assert_eq!(strip_prefix("!", "!!"), None);
    assert_eq!(strip_prefix("é!x", "é"), Some("!x".to_string()));
}

#[test]
fn patterns_are_found() {
    assert!(contains("abcabd", "abd"));
    assert!(contains("abc", ""));
    assert!(contains("", ""));
    assert!(!contains("", "a"));
    assert!(!contains("abcab", "abd"));
    assert!(contains("xé", "é"));
}

#[test]
fn occurrences_are_replaced_from_left_to_right() {
    assert_eq!(replace_all("aaaaa", "aa", "b"), "bba");
    assert_eq!(replace_all("x%{n}y%{n}", "%{n}", "%{n}"), "x%{n}y%{n}");
    assert_eq!(replace_all("abc", "z", "y"), "abc");
    assert_eq!(replace_all("", "z", "y"), "");
    assert_eq!(replace_all("ż-ż", "ż", ""), "-");
}

#[test]
fn text_without_the_pattern_stays() {
    assert_eq!(replace_all("Current trigger", "%{number}", "5"), "Current trigger");
}

#[test]
fn parts_are_joined() {
    assert_eq!(join(&strings(&[]), " - "), "");
    assert_eq!(join(&strings(&["a"]), " - "), "a");
    assert_eq!(join(&strings(&["a", "", "c"]), " - "), "a -  - c");
}

#[test]
fn strings_are_put_together() {
    assert_eq!(concat2("a", "b"), "ab");
    assert_eq!(concat3("a", "", "c"), "ac");
    assert_eq!(chars_of("añ"), vec!['a', 'ñ']);
}

#[test]
fn strings_are_compared() {
    assert!(same_text("on", "on"));
    assert!(!same_text("on", "On"));
    assert!(has_text(&strings(&["a", "b"]), "b"));
    assert!(!has_text(&strings(&["a", "b"]), "c"));
    assert!(!has_text(&strings(&[]), ""));
}

#[test]
fn numbers_are_written() {
    for n in [0u64, 7, 9, 10, 99, 100, 4294967295, u64::MAX] {
        assert_eq!(decimal_text(n), n.to_string());
    }
}

#[test]
fn numbers_read_back() {
    for n in [0u64, 7, 10, 1205, u64::MAX] {
        assert_eq!(parse_number(&decimal_text(n), u64::MAX), Some(n));
    }
}

#[test]
fn numbers_are_read_as_the_standard_library_does() {
    for text in [
        "0", "5", "+5", "007", "255", "256", "", "+", "-1", "1 ", " 1", "1.5", "1_0", "++1", "٣",
        "4294967295", "4294967296", "99999999999999999999999",
    ] {
        assert_eq!(parse_number(text, u8::MAX as u64), text.parse::<u8>().ok().map(|n| n as u64));
        assert_eq!(parse_number(text, u32::MAX as u64), text.parse::<u32>().ok().map(|n| n as u64));
        assert_eq!(parse_number(text, u64::MAX), text.parse::<u64>().ok());
    }
}

#[test]
fn numbers_keep_to_their_limit() {
    assert_eq!(parse_number("3", 2), None);
    assert_eq!(parse_number("2", 2), Some(2));
    assert_eq!(parse_number("0", 0), Some(0));
    assert_eq!(parse_number("1", 0), None);
}
