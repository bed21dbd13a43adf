use server::numtext::{i64_to_text, parse_i32, u64_to_text};
use server::text::{join_with, split_on, text_contains};
use server::http::{user_id_from_subject, HttpStatus};

#[test]
fn renders_unsigned_decimals() {
    assert_eq!(u64_to_text(0), "0");
    assert_eq!(u64_to_text(7), "7");
    assert_eq!(u64_to_text(1234567890), "1234567890");
    assert_eq!(u64_to_text(u64::MAX), u64::MAX.to_string());
}

#[test]
fn renders_signed_decimals() {
    assert_eq!(i64_to_text(-42), "-42");
    assert_eq!(i64_to_text(0), "0");
    assert_eq!(i64_to_text(i64::MIN), "-9223372036854775808");
    assert_eq!(i64_to_text(i64::MAX), "9223372036854775807");
}

#[test]
fn parses_like_str_parse() {
    let cases = [
        "123", "+7", "-0", "-2147483648", "2147483647", "2147483648", "-2147483649", "", "-", "+", "12a",
        " 1", "1 ", "٣", "0001", "99999999999999999999",
    ];
    for c in cases {
        assert_eq!(parse_i32(c), c.parse::<i32>().ok(), "case {:?}", c);
    }
}

#[test]
fn rendered_numbers_parse_back() {
    for x in [0i32, 1, -1, 10, -10, 2147483647, -2147483648, 40213, -987654] {
        assert_eq!(parse_i32(&i64_to_text(x as i64)), Some(x));
    }
}

#[test]
fn splits_like_str_split() {
    assert_eq!(split_on("a,b,,c", ','), vec!["a", "b", "", "c"]);
    assert_eq!(split_on("", ','), vec![""]);
    assert_eq!(split_on("SUV", ','), vec!["SUV"]);
    assert_eq!(split_on(",", ','), vec!["", ""]);
    assert_eq!(split_on("세단,SUV", ','), vec!["세단", "SUV"]);
}

#[test]
fn joins_like_slice_join() {
    let v: Vec<String> = vec!["a".into(), "b".into(), "c".into()];
    assert_eq!(join_with(&v, " AND "), "a AND b AND c");
    assert_eq!(join_with(&Vec::new(), ","), "");
    assert_eq!(join_with(&vec!["x".to_string()], ","), "x");
}

#[test]
fn finds_substrings() {
    assert!(text_contains("error: 차량이 예약중입니다!", "차량이 예약중입니다"));
    assert!(!text_contains("차량이 예약", "차량이 예약중입니다"));
    assert!(text_contains("abc", ""));
    assert!(text_contains("abc", "abc"));
    assert!(!text_contains("", "a"));
}

#[test]
fn reads_the_caller_from_the_token() {
    assert_eq!(user_id_from_subject("42").ok(), Some(42));
    let refused = user_id_from_subject("abc").err().unwrap();
    assert_eq!(refused.status, HttpStatus::Unauthorized);
    assert_eq!(refused.message, "Invalid token");
}
