//! Text helpers.

use rehearsal::text::{decimal_text, join_with, signed_decimal_text, split_lines};

#[test]
fn lines_match_str_lines() {
    for s in ["", "a", "a\n", "a\n\n", "\n", "a\r\nb", "a\rb\n", "x\r\n\r\ny", "tail\r"] {
        let expected: Vec<&str> = s.lines().collect();
        assert_eq!(split_lines(s), expected, "{s:?}");
    }
}

#[test]
fn numbers_in_decimal() {
    assert_eq!(decimal_text(0), "0");
    assert_eq!(decimal_text(1234567890), "1234567890");
    assert_eq!(decimal_text(u64::MAX), u64::MAX.to_string());
    assert_eq!(signed_decimal_text(-42), "-42");
    assert_eq!(signed_decimal_text(i64::MIN), i64::MIN.to_string());
}

#[test]
fn joining_puts_separators_between() {
    let v: Vec<String> = vec!["a".into(), "b".into(), "c".into()];
    assert_eq!(join_with(&v, "; "), "a; b; c");
    assert_eq!(join_with(&vec![], "; "), "");
}
