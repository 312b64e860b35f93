use search::numeral::{parse_i32, parse_usize};
use search::text::{chars_of, collapse_whitespace, string_of_range, trim, white_space};

#[test]
fn white_space_is_the_unicode_property() {
    let mut code: u32 = 0;
    while code <= 0x10FFFF {
        if let Some(c) = char::from_u32(code) {
            assert_eq!(white_space(c), c.is_whitespace(), "U+{:04X}", code);
        }
        code += 1;
    }
}

#[test]
fn chars_and_strings_convert_both_ways() {
    assert_eq!(chars_of("héllo"), vec!['h', 'é', 'l', 'l', 'o']);
    assert_eq!(chars_of(""), Vec::<char>::new());
    assert_eq!(string_of_range(&vec!['a', '\u{3000}', 'ß'], 0, 3), "a\u{3000}ß");
    assert_eq!(string_of_range(&vec!['a', 'b', 'c', 'd'], 1, 3), "bc");
    assert_eq!(string_of_range(&vec!['a', 'b', 'c', 'd'], 2, 2), "");
}

#[test]
fn collapse_replaces_each_run_by_one_space() {
    assert_eq!(collapse_whitespace("hello   world"), "hello world");
    assert_eq!(collapse_whitespace("a \t\n b"), "a b");
    assert_eq!(collapse_whitespace("  a  "), " a ");
    assert_eq!(collapse_whitespace("\t"), " ");
    assert_eq!(collapse_whitespace("a\u{3000}\u{2003}b\u{a0}c"), "a b c");
    assert_eq!(collapse_whitespace(""), "");
    assert_eq!(collapse_whitespace("abc"), "abc");
}

#[test]
fn collapse_agrees_with_white_space_on_every_character() {
    let mut text = String::new();
    let mut expected = String::new();
    let mut code: u32 = 0;
    while code <= 0x10FFFF {
        if let Some(c) = char::from_u32(code) {
            text.push('x');
            text.push(c);
            text.push(c);
            expected.push('x');
            if white_space(c) {
                expected.push(' ');
            } else {
                expected.push(c);
                expected.push(c);
            }
        }
        code += 1;
    }
    assert!(collapse_whitespace(&text) == expected);
}

#[test]
fn collapse_is_idempotent_on_examples() {
    for text in ["", " ", "a", "  a  b \t c\n\n", "\u{85}x\u{2028}\u{2029}y", "no-space", " \r\n "] {
        let once = collapse_whitespace(text);
        let twice = collapse_whitespace(&once);
        assert_eq!(twice, once);
    }
}

#[test]
fn trim_removes_white_space_at_both_ends() {
    for text in ["", " ", "   ", "a", " a", "a ", "  a b  ", "\t\u{3000}x y\u{a0}\n", "a  b"] {
        assert_eq!(trim(text), text.trim());
    }
    assert_eq!(trim("  a b  "), "a b");
}

#[test]
fn parse_i32_reads_signed_decimals() {
    assert_eq!(parse_i32("21"), Some(21));
    assert_eq!(parse_i32("+21"), Some(21));
    assert_eq!(parse_i32("-21"), Some(-21));
    assert_eq!(parse_i32("0021"), Some(21));
    assert_eq!(parse_i32("-0"), Some(0));
    assert_eq!(parse_i32("2147483647"), Some(i32::MAX));
    assert_eq!(parse_i32("-2147483648"), Some(i32::MIN));
    assert_eq!(parse_i32("2147483648"), None);
    assert_eq!(parse_i32("-2147483649"), None);
    assert_eq!(parse_i32("99999999999999999999999999999999999999999999"), None);
    assert_eq!(parse_i32(""), None);
    assert_eq!(parse_i32("+"), None);
    assert_eq!(parse_i32("-"), None);
    assert_eq!(parse_i32(" 21"), None);
    assert_eq!(parse_i32("21 "), None);
    assert_eq!(parse_i32("2_1"), None);
    assert_eq!(parse_i32("+-1"), None);
    assert_eq!(parse_i32("١٢"), None);
}

#[test]
fn parse_usize_reads_unsigned_decimals() {
    assert_eq!(parse_usize("0"), Some(0));
    assert_eq!(parse_usize("+7"), Some(7));
    assert_eq!(parse_usize("007"), Some(7));
    assert_eq!(parse_usize("-0"), None);
    assert_eq!(parse_usize("-7"), None);
    assert_eq!(parse_usize(""), None);
    assert_eq!(parse_usize("+"), None);
    assert_eq!(parse_usize("1.5"), None);
    assert_eq!(parse_usize(&usize::MAX.to_string()), Some(usize::MAX));
    assert_eq!(parse_usize(&format!("{}0", usize::MAX)), None);
    assert_eq!(parse_usize("18446744073709551616"), "18446744073709551616".parse::<usize>().ok());
}

#[test]
fn parsers_agree_with_the_standard_library() {
    let samples = [
        "", "0", "1", "20", "21", "+20", "-20", "+", "-", "++1", "--1", "1-", "1+", "00", "000021",
        "2147483647", "2147483648", "-2147483648", "-2147483649", "4294967295", "4294967296",
        "18446744073709551615", "18446744073709551616", "340282366920938463463374607431768211455",
        "340282366920938463463374607431768211456", "1e3", "0x10", " 1", "1 ", "\t1", "1\n", "a",
        "12a", "a12", "１２", "1,000", "1.0", "+0", "-00", "9999999999", "-9999999999",
    ];
    for text in samples {
        assert_eq!(parse_i32(text), text.parse::<i32>().ok(), "{:?}", text);
        assert_eq!(parse_usize(text), text.parse::<usize>().ok(), "{:?}", text);
    }
}
