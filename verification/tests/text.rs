use n4n5::text::{
    blank, chars_of, decimal_string, is_text_not_after, pad_right, push_repeated, same_text,
    signed_decimal_string, split, starts_with, string_of,
};

#[test]
fn decimal_of_small_and_large_numbers() {
    assert_eq!(decimal_string(0), "0");
    assert_eq!(decimal_string(7), "7");
    assert_eq!(decimal_string(10), "10");
    assert_eq!(decimal_string(1999), "1999");
    assert_eq!(decimal_string(u64::MAX), "18446744073709551615");
}

#[test]
fn signed_decimal_covers_the_whole_range() {
    assert_eq!(signed_decimal_string(0), "0");
    assert_eq!(signed_decimal_string(-1), "-1");
    assert_eq!(signed_decimal_string(123456), "123456");
    assert_eq!(signed_decimal_string(i64::MIN), "-9223372036854775808");
    assert_eq!(signed_decimal_string(i64::MAX), "9223372036854775807");
}

#[test]
fn same_text_compares_characters() {
    assert!(same_text("abc", "abc"));
    assert!(same_text("", ""));
    assert!(!same_text("abc", "abd"));
    assert!(!same_text("abc", "ab"));
    assert!(same_text("héllo", "héllo"));
}

#[test]
fn characters_round_trip() {
    let chars = chars_of("aé\n");
    assert_eq!(chars, vec!['a', 'é', '\n']);
    assert_eq!(string_of(&chars), "aé\n");
}

#[test]
fn padding_counts_characters() {
    assert_eq!(pad_right("ab", 5), "ab   ");
    assert_eq!(pad_right("abcdef", 3), "abcdef");
    assert_eq!(pad_right("", 2), "  ");
    assert_eq!(pad_right("é", 3), "é  ");
}

#[test]
fn repeated_characters_are_appended() {
    let mut s = String::from("x");
    push_repeated(&mut s, '-', 3);
    assert_eq!(s, "x---");
    push_repeated(&mut s, '-', 0);
    assert_eq!(s, "x---");
}

#[test]
fn prefix_test() {
    assert!(starts_with("incoming: soon", "incoming"));
    assert!(starts_with("incoming", "incoming"));
    assert!(!starts_with("incomin", "incoming"));
    assert!(!starts_with("Incoming", "incoming"));
    assert!(starts_with("anything", ""));
}

#[test]
fn split_keeps_empty_parts() {
    assert_eq!(split("a,b", ','), vec!["a", "b"]);
    assert_eq!(split("", ','), vec![""]);
    assert_eq!(split("a,", ','), vec!["a", ""]);
    assert_eq!(split(",a,,b", ','), vec!["", "a", "", "b"]);
    assert_eq!(split("abc", ','), vec!["abc"]);
}

#[test]
fn blank_means_white_space_only() {
    assert!(blank(""));
    assert!(blank("  \t\n"));
    assert!(!blank(" a "));
}

#[test]
fn texts_are_ordered_by_character() {
    let a = chars_of("alpha");
    let b = chars_of("beta");
    let ab = chars_of("alphabet");
    assert!(is_text_not_after(&a, &b));
    assert!(!is_text_not_after(&b, &a));
    assert!(is_text_not_after(&a, &ab));
    assert!(!is_text_not_after(&ab, &a));
    assert!(is_text_not_after(&a, &a));
    assert!(is_text_not_after(&chars_of("Zebra"), &chars_of("apple")));
}

#[test]
fn white_space_is_what_unicode_calls_so() {
    assert!(blank(""));
    assert!(blank(" \t\r\n\u{b}\u{c}"));
    assert!(blank("\u{85}\u{a0}\u{1680}\u{2000}\u{200a}\u{2028}\u{2029}\u{202f}\u{205f}\u{3000}"));
    assert!(!blank("\u{200b}"));
    assert!(!blank("\u{180e}"));
    assert!(!blank("\u{1f}"));
    assert!(!blank(" a "));
}
