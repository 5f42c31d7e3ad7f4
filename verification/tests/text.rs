use qoredb::text::{
    chars_of, concat2, concat3, contains, decimal_string, decimal_string_wide, eq_ignore_ascii_case,
    is_whitespace_char, join, quote, starts_with, str_eq, str_lt, string_of, strip_whitespace,
    to_ascii_lowercase, trim,
};

#[test]
fn trimming_follows_unicode_whitespace() {
    assert_eq!(trim("  a b \n"), "a b");
    assert_eq!(trim(""), "");
    assert_eq!(trim(" \t\r\n"), "");
    assert_eq!(trim("x"), "x");
    assert_eq!(trim("\u{a0}x\u{3000}"), "x");
    assert_eq!(trim("\u{200b}x"), "\u{200b}x");
    for s in ["  a b \n", "", "é ", " \u{2003}ab\u{2003} "] {
        assert_eq!(trim(s), s.trim());
        assert_eq!(trim(&trim(s)), trim(s));
    }
}

#[test]
fn lower_case_touches_ascii_letters_only() {
    assert_eq!(to_ascii_lowercase("AbC xyz 123 _-"), "abc xyz 123 _-");
    assert_eq!(to_ascii_lowercase("ÄÖ É"), "ÄÖ É");
    assert_eq!(to_ascii_lowercase("@[`{AZ"), "@[`{az");
    assert_eq!(to_ascii_lowercase(""), "");
    assert!(eq_ignore_ascii_case("PostGres", "postgres"));
    assert!(!eq_ignore_ascii_case("postgres", "postgre"));
    assert!(!eq_ignore_ascii_case("ä", "Ä"));
    assert!(eq_ignore_ascii_case("", ""));
}

#[test]
fn searching_finds_substrings() {
    assert!(contains("hello world", "o w"));
    assert!(contains("hello", ""));
    assert!(contains("", ""));
    assert!(contains("hello", "hello"));
    assert!(contains("aab", "ab"));
    assert!(!contains("hello", "hello!"));
    assert!(!contains("", "a"));
    assert!(!contains("abc", "ac"));
    assert!(starts_with("SELECT 1", "SELECT"));
    assert!(starts_with("a", ""));
    assert!(!starts_with("SEL", "SELECT"));
    assert!(!starts_with(" SELECT", "SELECT"));
}

#[test]
fn strings_compare_like_std() {
    let samples = ["", "a", "ab", "abc", "b", "B", "é", "z", "a\u{10000}", "a\u{ffff}"];
    for a in samples {
        for b in samples {
            assert_eq!(str_lt(a, b), a < b, "{:?} < {:?}", a, b);
            assert_eq!(str_eq(a, b), a == b, "{:?} == {:?}", a, b);
        }
    }
}

#[test]
fn numbers_are_written_in_decimal() {
    assert_eq!(decimal_string(0), "0");
    assert_eq!(decimal_string(7), "7");
    assert_eq!(decimal_string(10), "10");
    assert_eq!(decimal_string(5432), "5432");
    assert_eq!(decimal_string(u64::MAX), u64::MAX.to_string());
    assert_eq!(decimal_string_wide(u128::MAX), u128::MAX.to_string());
    assert_eq!(decimal_string_wide(1_000_000_000_000_000_000_000), "1000000000000000000000");
}

#[test]
fn joining_and_concatenation() {
    let parts: Vec<String> = ["a", "", "c"].iter().map(|s| s.to_string()).collect();
    assert_eq!(join(&parts, ", "), "a, , c");
    assert_eq!(join(&parts[..1].to_vec(), ", "), "a");
    assert_eq!(join(&Vec::new(), ", "), "");
    assert_eq!(concat2("a", "b"), "ab");
    assert_eq!(concat3("a", "", "c"), "ac");
}

#[test]
fn quoting_doubles_the_quote_character() {
    assert_eq!(quote("a\"b", '"'), "\"a\"\"b\"");
    assert_eq!(quote("", '`'), "``");
    assert_eq!(quote("```", '`'), "````````");
    assert_eq!(quote("x", '\''), "'x'");
}

#[test]
fn characters_round_trip() {
    for s in ["", "abc", "é\u{10000}z"] {
        let v = chars_of(s);
        assert_eq!(v, s.chars().collect::<Vec<_>>());
        assert_eq!(string_of(&v), s);
    }
    assert_eq!(strip_whitespace(&chars_of(" a\tb\n c\u{a0}")), chars_of("abc"));
}

#[test]
fn whitespace_is_the_unicode_property() {
    let mut count = 0;
    for n in 0..=0x10FFFFu32 {
        if let Some(c) = char::from_u32(n) {
            assert_eq!(is_whitespace_char(c), c.is_whitespace(), "U+{:04X}", n);
            if is_whitespace_char(c) {
                count += 1;
            }
        }
    }
    assert_eq!(count, 25);
    assert!(is_whitespace_char(' ') && is_whitespace_char('\n') && is_whitespace_char('\u{3000}'));
    assert!(!is_whitespace_char('\u{200b}') && !is_whitespace_char('a') && !is_whitespace_char('\u{180e}'));
}
