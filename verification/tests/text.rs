use key_vaulter::text::{is_word, parse_flag, parse_integer, trim};

#[test]
fn trim_takes_off_surrounding_white_space() {
    assert_eq!(trim("  Grace \r\n"), "Grace");
    assert_eq!(trim("\t30\n"), "30");
    assert_eq!(trim("\u{a0}\u{3000}x\u{2003}"), "x");
}

#[test]
fn trim_keeps_inner_white_space() {
    assert_eq!(trim(" a  b "), "a  b");
    assert_eq!(trim("a b"), "a b");
}

#[test]
fn trim_of_nothing_but_white_space_is_empty() {
    assert_eq!(trim(""), "");
    assert_eq!(trim(" \n\t "), "");
}

#[test]
fn trim_keeps_what_is_not_white_space() {
    assert_eq!(trim("\u{200b}x\u{200b}"), "\u{200b}x\u{200b}");
    assert_eq!(trim("é"), "é");
}

#[test]
fn trim_agrees_with_std() {
    for s in ["", " ", "x", " x", "x ", "  x y  ", "\n\nline\n", "\u{85}a\u{1680}"] {
        assert_eq!(trim(s), s.trim());
    }
}

#[test]
fn parse_integer_reads_plain_digits() {
    assert_eq!(parse_integer("42"), Some(42));
    assert_eq!(parse_integer("0"), Some(0));
    assert_eq!(parse_integer("007"), Some(7));
    assert_eq!(parse_integer("30"), Some(30));
}

#[test]
fn parse_integer_reads_a_sign() {
    assert_eq!(parse_integer("-42"), Some(-42));
    assert_eq!(parse_integer("+42"), Some(42));
    assert_eq!(parse_integer("-0"), Some(0));
}

#[test]
fn parse_integer_covers_the_range_of_i64() {
    assert_eq!(parse_integer("9223372036854775807"), Some(i64::MAX));
    assert_eq!(parse_integer("-9223372036854775808"), Some(i64::MIN));
    assert_eq!(parse_integer("-9223372036854775807"), Some(i64::MIN + 1));
}

#[test]
fn parse_integer_refuses_what_i64_cannot_hold() {
    assert_eq!(parse_integer("9223372036854775808"), None);
    assert_eq!(parse_integer("-9223372036854775809"), None);
    assert_eq!(parse_integer("18446744073709551616"), None);
    assert_eq!(parse_integer("99999999999999999999999999999999"), None);
}

#[test]
fn parse_integer_refuses_what_is_not_a_number() {
    assert_eq!(parse_integer(""), None);
    assert_eq!(parse_integer("-"), None);
    assert_eq!(parse_integer("+"), None);
    assert_eq!(parse_integer("abc"), None);
    assert_eq!(parse_integer("12a"), None);
    assert_eq!(parse_integer("1 2"), None);
    assert_eq!(parse_integer(" 12"), None);
    assert_eq!(parse_integer("1.5"), None);
    assert_eq!(parse_integer("1e3"), None);
    assert_eq!(parse_integer("--1"), None);
    assert_eq!(parse_integer("1_000"), None);
    assert_eq!(parse_integer("٣"), None);
}

#[test]
fn parse_integer_agrees_with_std() {
    for s in ["", "0", "-", "+", "+0", "-1", "12", "0012", "9223372036854775807",
        "9223372036854775808", "-9223372036854775808", "-9223372036854775809", "x", "1x", "+-1"]
    {
        assert_eq!(parse_integer(s), s.parse::<i64>().ok());
    }
}

#[test]
fn parse_flag_reads_true_and_false() {
    assert_eq!(parse_flag("true"), Some(true));
    assert_eq!(parse_flag("false"), Some(false));
}

#[test]
fn parse_flag_does_not_mind_case() {
    assert_eq!(parse_flag("TRUE"), Some(true));
    assert_eq!(parse_flag("True"), Some(true));
    assert_eq!(parse_flag("fAlSe"), Some(false));
}

#[test]
fn parse_flag_refuses_everything_else() {
    assert_eq!(parse_flag(""), None);
    assert_eq!(parse_flag("yes"), None);
    assert_eq!(parse_flag("1"), None);
    assert_eq!(parse_flag("tru"), None);
    assert_eq!(parse_flag("truee"), None);
    assert_eq!(parse_flag(" true"), None);
    assert_eq!(parse_flag("t\u{212a}ue"), None);
}

#[test]
fn is_word_compares_letters_without_case() {
    assert!(is_word("Hello", "hello"));
    assert!(is_word("hello", "hello"));
    assert!(!is_word("hello", "Hello"));
    assert!(!is_word("hell", "hello"));
    assert!(is_word("", ""));
}
