use rusty::text::{decimal_string, parse_bounded, parse_u16, parse_u64, push_decimal};

#[test]
fn decimal_string_of_small_numbers() {
    assert_eq!(decimal_string(0), "0");
    assert_eq!(decimal_string(7), "7");
    assert_eq!(decimal_string(10), "10");
    assert_eq!(decimal_string(909), "909");
    assert_eq!(decimal_string(1234567890), "1234567890");
}

#[test]
fn decimal_string_of_the_largest_number() {
    assert_eq!(decimal_string(u64::MAX), "18446744073709551615");
}

#[test]
fn decimal_string_agrees_with_the_standard_rendering() {
    let mut n: u64 = 1;
    for _ in 0..64 {
        assert_eq!(decimal_string(n), n.to_string());
        assert_eq!(decimal_string(n - 1), (n - 1).to_string());
        n = n.wrapping_mul(2);
    }
}

#[test]
fn push_decimal_appends() {
    let mut s = String::from("<@");
    push_decimal(&mut s, 4051);
    assert_eq!(s, "<@4051");
}

#[test]
fn parse_u64_reads_numerals() {
    assert_eq!(parse_u64("0"), Some(0));
    assert_eq!(parse_u64("7"), Some(7));
    assert_eq!(parse_u64("007"), Some(7));
    assert_eq!(parse_u64("+5"), Some(5));
    assert_eq!(parse_u64("1234567890"), Some(1234567890));
    assert_eq!(parse_u64("18446744073709551615"), Some(u64::MAX));
    assert_eq!(parse_u64("00018446744073709551615"), Some(u64::MAX));
}

#[test]
fn parse_u64_rejects_everything_else() {
    assert_eq!(parse_u64(""), None);
    assert_eq!(parse_u64("+"), None);
    assert_eq!(parse_u64("-"), None);
    assert_eq!(parse_u64("-1"), None);
    assert_eq!(parse_u64("++1"), None);
    assert_eq!(parse_u64("1+"), None);
    assert_eq!(parse_u64(" 1"), None);
    assert_eq!(parse_u64("1 "), None);
    assert_eq!(parse_u64("12a"), None);
    assert_eq!(parse_u64("0x10"), None);
    assert_eq!(parse_u64("1_000"), None);
    assert_eq!(parse_u64("１２"), None);
    assert_eq!(parse_u64("1é"), None);
    assert_eq!(parse_u64("18446744073709551616"), None);
    assert_eq!(parse_u64("99999999999999999999999"), None);
}

#[test]
fn parse_u64_agrees_with_the_standard_parser() {
    let inputs = [
        "", "+", "-", "0", "+0", "-0", "000", "42", "+42", "-42", "4 2", "18446744073709551615",
        "18446744073709551616", "18446744073709551620", "184467440737095516150", "abc", "9a",
        "+-1", "٣",
    ];
    for s in inputs.iter() {
        assert_eq!(parse_u64(s), s.parse::<u64>().ok(), "input {:?}", s);
    }
}

#[test]
fn parse_u16_reads_ports() {
    assert_eq!(parse_u16("5432"), Some(5432));
    assert_eq!(parse_u16("0"), Some(0));
    assert_eq!(parse_u16("65535"), Some(65535));
    assert_eq!(parse_u16("+65535"), Some(65535));
    assert_eq!(parse_u16("65536"), None);
    assert_eq!(parse_u16("70000"), None);
    assert_eq!(parse_u16("-1"), None);
    assert_eq!(parse_u16(""), None);
    assert_eq!(parse_u16("port"), None);
}

#[test]
fn parse_u16_agrees_with_the_standard_parser() {
    let inputs = ["", "+", "1", "65535", "65536", "0065535", "655350", "6553a", "+1", "-1"];
    for s in inputs.iter() {
        assert_eq!(parse_u16(s), s.parse::<u16>().ok(), "input {:?}", s);
    }
}

#[test]
fn parse_bounded_keeps_the_bound() {
    assert_eq!(parse_bounded("5", 5), Some(5));
    assert_eq!(parse_bounded("6", 5), None);
    assert_eq!(parse_bounded("9", 5), None);
    assert_eq!(parse_bounded("0", 0), Some(0));
    assert_eq!(parse_bounded("1", 0), None);
    assert_eq!(parse_bounded("10", 100), Some(10));
    assert_eq!(parse_bounded("100", 100), Some(100));
    assert_eq!(parse_bounded("101", 100), None);
}

#[test]
fn reading_a_numeral_gives_the_number_back() {
    let numbers = [0u64, 1, 9, 10, 99, 100, 65535, 65536, 4294967296, u64::MAX - 1, u64::MAX];
    for &n in numbers.iter() {
        assert_eq!(parse_u64(&decimal_string(n)), Some(n));
    }
}
