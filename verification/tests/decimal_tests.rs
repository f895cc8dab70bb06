use eindhoven_events::decimal::{
    decimal_width, digit, digit_of, parse_i32, push_decimal, push_integer, push_padded,
};

fn parse(text: &str) -> Option<i32> {
    parse_i32(&text.chars().collect())
}

#[test]
fn parse_i32_reads_what_the_standard_library_reads() {
    let cases = [
        "0", "7", "42", "-42", "+42", "0042", "2147483647", "2147483648", "-2147483648",
        "-2147483649", "", "+", "-", "+-1", "1 ", " 1", "12a", "a12", "１２", "1_000",
        "00000000000000000000123", "99999999999999999999999", "-0", "+0", "--1",
    ];
    for case in cases {
        assert_eq!(parse(case), case.parse::<i32>().ok(), "{case:?}");
    }
}

#[test]
fn parse_i32_exact_values() {
    assert_eq!(parse("2025"), Some(2025));
    assert_eq!(parse("-2147483648"), Some(i32::MIN));
    assert_eq!(parse("2147483647"), Some(i32::MAX));
    assert_eq!(parse("2147483648"), None);
    assert_eq!(parse(""), None);
}

#[test]
fn digits() {
    assert!(digit('0'));
    assert!(digit('9'));
    assert!(!digit('a'));
    assert!(!digit('٣'));
    assert_eq!(digit_of(0), '0');
    assert_eq!(digit_of(9), '9');
}

#[test]
fn writing_numbers() {
    let mut out: Vec<char> = Vec::new();
    push_decimal(&mut out, 0);
    out.push(' ');
    push_decimal(&mut out, 1234567890);
    out.push(' ');
    push_integer(&mut out, -17);
    out.push(' ');
    push_integer(&mut out, i64::MIN);
    out.push(' ');
    push_padded(&mut out, 5, 2);
    out.push(' ');
    push_padded(&mut out, 123, 2);
    out.push(' ');
    push_padded(&mut out, 7, 4);
    let text: String = out.iter().collect();
    assert_eq!(text, "0 1234567890 -17 -9223372036854775808 05 123 0007");
    assert_eq!(decimal_width(0), 1);
    assert_eq!(decimal_width(9), 1);
    assert_eq!(decimal_width(10), 2);
    assert_eq!(decimal_width(u64::MAX), 20);
}
