use sql_monitor::number::{decimal, parse_i32, parse_i64};
use sql_monitor::text::{chars_of, string_of, split_by, trimmed, lines_of, equal_ignore_ascii_case};

fn cs(s: &str) -> Vec<char> {
    s.chars().collect()
}

#[test]
fn decimal_text_of_integers() {
    assert_eq!(decimal(0).into_iter().collect::<String>(), "0");
    assert_eq!(decimal(-4096).into_iter().collect::<String>(), "-4096");
    assert_eq!(decimal(18446744073709551615).into_iter().collect::<String>(), "18446744073709551615");
}

#[test]
fn reading_32_bit_numbers() {
    assert_eq!(parse_i32(&cs("57")), Some(57));
    assert_eq!(parse_i32(&cs("+57")), Some(57));
    assert_eq!(parse_i32(&cs("-2147483648")), Some(-2147483648));
    assert_eq!(parse_i32(&cs("2147483648")), None);
    assert_eq!(parse_i32(&cs("")), None);
    assert_eq!(parse_i32(&cs("-")), None);
    assert_eq!(parse_i32(&cs("5 7")), None);
    assert_eq!(parse_i32(&cs("abc")), None);
}

#[test]
fn reading_64_bit_numbers() {
    assert_eq!(parse_i64(&cs("65000")), Some(65000));
    assert_eq!(parse_i64(&cs("9223372036854775807")), Some(i64::MAX));
    assert_eq!(parse_i64(&cs("9223372036854775808")), None);
    assert_eq!(parse_i64(&cs("12 ms")), None);
}

#[test]
fn strings_go_through_characters_unchanged() {
    let v = chars_of("快照 snapshot ✓");
    assert_eq!(v.len(), 13);
    assert_eq!(string_of(&v), "快照 snapshot ✓");
}

#[test]
fn splitting_and_trimming_as_std_does() {
    let parts = split_by(&cs("a | b |  | c"), &cs(" | "));
    let parts: Vec<String> = parts.into_iter().map(|p| p.into_iter().collect()).collect();
    assert_eq!(parts, vec!["a", "b", "", "c"]);
    assert_eq!(trimmed(&cs("\t x y \r\n")).into_iter().collect::<String>(), "x y");
    let ls: Vec<String> = lines_of(&cs("one\r\ntwo\n\nthree")).into_iter().map(|l| l.into_iter().collect()).collect();
    assert_eq!(ls, vec!["one", "two", "", "three"]);
    assert!(equal_ignore_ascii_case(&cs("Logical Connections"), &cs("logical connections")));
    assert!(!equal_ignore_ascii_case(&cs("Transactions"), &cs("Transaction")));
}
