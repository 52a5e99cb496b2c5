use exchange_rate_bot::decimal::{parse_u64, parse_u64_between};
use exchange_rate_bot::text::{chars_of, matches_at, replace, same_text, starts_with};

#[test]
fn reads_numbers_as_the_standard_parser_does() {
    for text in [
        "0", "7", "+7", "007", "+007", "18446744073709551615", "18446744073709551616",
        "+18446744073709551615", "99999999999999999999", "184467440737095516150", "", "+", "-", "-0",
        "-7", "++7", "+-7", "7+", " 7", "7 ", "7_000", "0x10", "1e3", "1.0", "٣", "７", "12a", "a12",
        "1844674407370955161", "1844674407370955162", "00000000000000000000000001",
    ] {
        assert_eq!(parse_u64(text), text.parse::<u64>().ok(), "{text:?}");
    }
}

#[test]
fn reads_a_number_from_a_stretch_of_characters() {
    let chars = chars_of("ab+12,34");
    assert_eq!(parse_u64_between(&chars, 2, 5), Some(12));
    assert_eq!(parse_u64_between(&chars, 3, 5), Some(12));
    assert_eq!(parse_u64_between(&chars, 6, 8), Some(34));
    assert_eq!(parse_u64_between(&chars, 2, 8), None);
    assert_eq!(parse_u64_between(&chars, 2, 3), None);
    assert_eq!(parse_u64_between(&chars, 4, 4), None);
    assert_eq!(parse_u64_between(&chars, 0, 2), None);
}

#[test]
fn replaces_as_the_standard_library_does() {
    for (text, from, to) in [
        ("{FROM} to {TO}", "{FROM}", "USD"),
        ("aaa", "aa", "b"),
        ("aaaa", "aa", "b"),
        ("abcabc", "abc", ""),
        ("abcabc", "bc", "XYZ"),
        ("abcabc", "abcd", "x"),
        ("", "a", "b"),
        ("a", "a", "a"),
        ("aXbXc", "X", "XX"),
        ("ééé", "é", "e"),
        ("x\u{1F600}y", "\u{1F600}", ":)"),
        ("abab", "ab", "ba"),
        ("mississippi", "ss", "s"),
        ("mississippi", "issi", "-"),
        ("{{FROM}}", "{FROM}", "x"),
    ] {
        assert_eq!(replace(text, from, to), text.replace(from, to), "{text:?} {from:?} {to:?}");
    }
}

#[test]
fn an_empty_pattern_matches_nowhere() {
    assert_eq!(replace("abc", "", "x"), "abc");
    assert_eq!(replace("", "", "x"), "");
}

#[test]
fn tells_prefixes_as_the_standard_library_does() {
    for (text, prefix) in [
        ("USD", "US"), ("USD", "USD"), ("USD", "USDX"), ("USD", ""), ("", ""), ("", "U"), ("USD", "SD"),
        ("USD", "us"), ("éa", "é"), ("éa", "e"),
    ] {
        assert_eq!(starts_with(text, prefix), text.starts_with(prefix), "{text:?} {prefix:?}");
    }
}

#[test]
fn finds_a_pattern_at_a_place() {
    let text = chars_of("abcabc");
    let pattern = chars_of("bc");
    assert!(matches_at(&text, 1, &pattern));
    assert!(matches_at(&text, 4, &pattern));
    assert!(!matches_at(&text, 0, &pattern));
    assert!(!matches_at(&text, 5, &pattern));
    assert!(!matches_at(&text, 6, &pattern));
    assert!(matches_at(&text, 6, &chars_of("")));
    assert!(matches_at(&text, 0, &text));
}

#[test]
fn takes_a_text_apart_and_puts_it_together() {
    assert_eq!(chars_of("aé\u{1F600}"), vec!['a', 'é', '\u{1F600}']);
    assert_eq!(chars_of(""), Vec::<char>::new());
}

#[test]
fn tells_whether_two_texts_are_the_same() {
    for (left, right) in [
        ("", ""), ("a", "a"), ("a", "b"), ("a", ""), ("", "a"), ("USD", "USD"), ("USD", "usd"), ("USD", "USDT"),
        ("é", "é"), ("é", "e\u{301}"), ("\u{1F600}", "\u{1F600}"), ("\u{1F600}", "\u{1F601}"), ("ab", "ba"),
    ] {
        assert_eq!(same_text(left, right), left == right, "{left:?} {right:?}");
    }
}
