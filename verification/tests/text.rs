use wakedev::text::{
    append_chars, append_decimal, append_range, append_str, blank, chars_of, contains, ends_with,
    eq_ignore_ascii_case, find_char, parse_integer, parse_port, rfind_char, same_chars,
    starts_with, string_of, sub_chars, trim,
};

fn cs(s: &str) -> Vec<char> {
    s.chars().collect()
}

fn decimal_of(n: u128) -> String {
    let mut out = String::from(">");
    append_decimal(&mut out, n);
    out
}

#[test]
fn characters_round_trip() {
    assert_eq!(chars_of("aé\u{1F600}b"), vec!['a', 'é', '\u{1F600}', 'b']);
    assert_eq!(chars_of(""), Vec::<char>::new());
    assert_eq!(string_of(&cs("aé\u{1F600}b")), "aé\u{1F600}b");
    assert_eq!(sub_chars(&cs("hello"), 1, 3), cs("el"));
    assert_eq!(sub_chars(&cs("hello"), 5, 5), cs(""));
}

#[test]
fn appending_adds_at_the_end() {
    let mut out = String::from("a");
    append_str(&mut out, "bc");
    append_chars(&mut out, &cs("dé"));
    append_range(&mut out, &cs("0123456"), 2, 4);
    assert_eq!(out, "abcdé23");
    assert_eq!(wakedev::text::concat("ab", "cd"), "abcd");
    assert_eq!(wakedev::text::concat("", ""), "");
}

#[test]
fn prefixes_and_suffixes() {
    assert!(starts_with(&cs("http://x"), &cs("http://")));
    assert!(starts_with(&cs("x"), &cs("")));
    assert!(!starts_with(&cs("htt"), &cs("http://")));
    assert!(!starts_with(&cs("xhttp://"), &cs("http://")));
    assert!(ends_with(&cs("a/notify"), &cs("/notify")));
    assert!(ends_with(&cs(""), &cs("")));
    assert!(!ends_with(&cs("notify"), &cs("/notify")));
    assert!(!ends_with(&cs("/notify "), &cs("/notify")));
    assert!(same_chars(&cs("ab"), &cs("ab")));
    assert!(!same_chars(&cs("ab"), &cs("abc")));
    assert!(!same_chars(&cs("ab"), &cs("aB")));
}

#[test]
fn searching_finds_first_and_last() {
    assert_eq!(find_char(&cs("a:b:c"), ':'), 1);
    assert_eq!(rfind_char(&cs("a:b:c"), ':'), 3);
    assert_eq!(find_char(&cs("abc"), ':'), 3);
    assert_eq!(rfind_char(&cs("abc"), ':'), 3);
    assert_eq!(find_char(&cs(""), ':'), 0);
    assert_eq!(rfind_char(&cs(":"), ':'), 0);
    assert!(contains(&cs("diff: unknown option -- color"), &cs("unknown option")));
    assert!(contains(&cs("abc"), &cs("")));
    assert!(contains(&cs("abc"), &cs("abc")));
    assert!(!contains(&cs("abc"), &cs("abcd")));
    assert!(!contains(&cs("ababab"), &cs("abb")));
}

#[test]
fn ascii_case_is_ignored_for_letters_only() {
    assert!(eq_ignore_ascii_case(&cs("Authorization"), &cs("aUTHORIZATION")));
    assert!(eq_ignore_ascii_case(&cs(""), &cs("")));
    assert!(!eq_ignore_ascii_case(&cs("a"), &cs("ab")));
    assert!(!eq_ignore_ascii_case(&cs("@"), &cs("`")));
    assert!(!eq_ignore_ascii_case(&cs("["), &cs("{")));
    assert!(!eq_ignore_ascii_case(&cs("É"), &cs("é")));
    assert!(eq_ignore_ascii_case(&cs("zÉ"), &cs("ZÉ")));
}

#[test]
fn blank_means_white_space_only() {
    assert!(blank(&cs("")));
    assert!(blank(&cs(" \t\r\n\u{b}\u{c}\u{85}\u{a0}\u{1680}\u{2000}\u{200a}")));
    assert!(blank(&cs("\u{2028}\u{2029}\u{202f}\u{205f}\u{3000}")));
    assert!(!blank(&cs(" x ")));
    assert!(!blank(&cs("\u{200b}")));
    assert!(!blank(&cs("\u{feff}")));
    assert!(!blank(&cs("\u{1c}")));
    for code in 0u32..0x3100 {
        if let Some(c) = char::from_u32(code) {
            assert_eq!(blank(&[c]), c.is_whitespace(), "U+{:04X}", code);
        }
    }
}

#[test]
fn trimming_takes_white_space_off_both_ends() {
    assert_eq!(trim(&cs("  a b \n")), cs("a b"));
    assert_eq!(trim(&cs("a")), cs("a"));
    assert_eq!(trim(&cs(" \u{3000} ")), cs(""));
    assert_eq!(trim(&cs("")), cs(""));
    for s in ["  x", "x  ", "\t x y \u{a0}", " \u{200b} "] {
        assert_eq!(string_of(&trim(&cs(s))), s.trim());
    }
}

#[test]
fn decimal_has_no_leading_zeros() {
    assert_eq!(decimal_of(0), ">0");
    assert_eq!(decimal_of(7), ">7");
    assert_eq!(decimal_of(10), ">10");
    assert_eq!(decimal_of(4280), ">4280");
    assert_eq!(decimal_of(65535), ">65535");
    assert_eq!(decimal_of(1234567890123), ">1234567890123");
    assert_eq!(decimal_of(u128::MAX), format!(">{}", u128::MAX));
}

#[test]
fn ports_parse_as_sixteen_bit_numbers() {
    assert_eq!(parse_port(&cs("0")), Some(0));
    assert_eq!(parse_port(&cs("4280")), Some(4280));
    assert_eq!(parse_port(&cs("+4280")), Some(4280));
    assert_eq!(parse_port(&cs("0004280")), Some(4280));
    assert_eq!(parse_port(&cs("65535")), Some(65535));
    assert_eq!(parse_port(&cs("65536")), None);
    assert_eq!(parse_port(&cs("99999999999999999999")), None);
    assert_eq!(parse_port(&cs("")), None);
    assert_eq!(parse_port(&cs("+")), None);
    assert_eq!(parse_port(&cs("-1")), None);
    assert_eq!(parse_port(&cs("-0")), None);
    assert_eq!(parse_port(&cs("++1")), None);
    assert_eq!(parse_port(&cs("1 ")), None);
    assert_eq!(parse_port(&cs("١٢")), None);
    for s in ["12", "+12", "012", "65535", "65536", "", "+", "-", "-5", "1a", " 1"] {
        assert_eq!(parse_port(&cs(s)), s.parse::<u16>().ok(), "{:?}", s);
    }
}

#[test]
fn integers_parse_with_a_sign() {
    assert_eq!(parse_integer(&cs("0")), Some(0));
    assert_eq!(parse_integer(&cs("-0")), Some(0));
    assert_eq!(parse_integer(&cs("+17")), Some(17));
    assert_eq!(parse_integer(&cs("-17")), Some(-17));
    assert_eq!(parse_integer(&cs("9223372036854775807")), Some(i64::MAX));
    assert_eq!(parse_integer(&cs("9223372036854775808")), None);
    assert_eq!(parse_integer(&cs("-9223372036854775808")), Some(i64::MIN));
    assert_eq!(parse_integer(&cs("-9223372036854775809")), None);
    assert_eq!(parse_integer(&cs("")), None);
    assert_eq!(parse_integer(&cs("-")), None);
    assert_eq!(parse_integer(&cs("+")), None);
    assert_eq!(parse_integer(&cs("1.5")), None);
    assert_eq!(parse_integer(&cs("--1")), None);
    assert_eq!(parse_integer(&cs("1_000")), None);
    for s in ["42", "-42", "+42", "007", "-", "", "abc", "12a", "18446744073709551616"] {
        assert_eq!(parse_integer(&cs(s)), s.parse::<i64>().ok(), "{:?}", s);
    }
}
