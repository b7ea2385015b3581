use kube_informer::decimal::{format_u32, parse_u32, push_decimal, read_digit};

#[test]
fn read_digit_accepts_ascii_digits_only() {
    assert_eq!(read_digit('0'), Some(0));
    assert_eq!(read_digit('7'), Some(7));
    assert_eq!(read_digit('9'), Some(9));
    assert_eq!(read_digit('/'), None);
    assert_eq!(read_digit(':'), None);
    assert_eq!(read_digit('a'), None);
    assert_eq!(read_digit('+'), None);
    assert_eq!(read_digit('\u{0663}'), None);
}

#[test]
fn parse_reads_plain_numbers() {
    assert_eq!(parse_u32("0"), Some(0));
    assert_eq!(parse_u32("5"), Some(5));
    assert_eq!(parse_u32("42"), Some(42));
    assert_eq!(parse_u32("1234567890"), Some(1234567890));
}

#[test]
fn parse_accepts_one_leading_plus() {
    assert_eq!(parse_u32("+5"), Some(5));
    assert_eq!(parse_u32("+0"), Some(0));
    assert_eq!(parse_u32("++5"), None);
    assert_eq!(parse_u32("5+"), None);
    assert_eq!(parse_u32("+"), None);
}

#[test]
fn parse_accepts_leading_zeros() {
    assert_eq!(parse_u32("007"), Some(7));
    assert_eq!(parse_u32("0000000000000000000000000001"), Some(1));
    assert_eq!(parse_u32("+000"), Some(0));
}

#[test]
fn parse_refuses_what_is_no_number() {
    assert_eq!(parse_u32(""), None);
    assert_eq!(parse_u32("-"), None);
    assert_eq!(parse_u32("-1"), None);
    assert_eq!(parse_u32("-0"), None);
    assert_eq!(parse_u32(" 5"), None);
    assert_eq!(parse_u32("5 "), None);
    assert_eq!(parse_u32("1_000"), None);
    assert_eq!(parse_u32("12a"), None);
    assert_eq!(parse_u32("a12"), None);
    assert_eq!(parse_u32("0x10"), None);
    assert_eq!(parse_u32("1.0"), None);
    assert_eq!(parse_u32("\u{0663}"), None);
    assert_eq!(parse_u32("abc"), None);
}

#[test]
fn parse_stops_at_the_largest_u32() {
    assert_eq!(parse_u32("4294967295"), Some(u32::MAX));
    assert_eq!(parse_u32("4294967296"), None);
    assert_eq!(parse_u32("4294967300"), None);
    assert_eq!(parse_u32("42949672950"), None);
    assert_eq!(parse_u32("99999999999999999999999999"), None);
    assert_eq!(parse_u32("+4294967295"), Some(u32::MAX));
    assert_eq!(parse_u32("004294967295"), Some(u32::MAX));
}

#[test]
fn parse_agrees_with_the_standard_library() {
    let samples = [
        "", "+", "-", "0", "00", "+0", "-0", "1", "+1", "-1", "10", "010", "99", "4294967295",
        "4294967296", "+4294967295", "18446744073709551615", " 1", "1 ", "1\n", "\t1", "1e3",
        "0b1", "1,000", "1_0", "٣", "１", "v1", "abc", "12abc", "+-1", "+ 1", "3000000000",
        "2147483648", "00000000004294967295", "00000000004294967296",
    ];
    for s in samples {
        assert_eq!(parse_u32(s), s.parse::<u32>().ok(), "on {:?}", s);
    }
}

#[test]
fn format_writes_without_sign_or_leading_zeros() {
    assert_eq!(format_u32(0), "0");
    assert_eq!(format_u32(7), "7");
    assert_eq!(format_u32(10), "10");
    assert_eq!(format_u32(409), "409");
    assert_eq!(format_u32(1000000000), "1000000000");
    assert_eq!(format_u32(u32::MAX), "4294967295");
}

#[test]
fn format_agrees_with_the_standard_library() {
    let mut n: u32 = 0;
    loop {
        assert_eq!(format_u32(n), n.to_string());
        if n > u32::MAX / 3 {
            break;
        }
        n = n * 3 + 1;
    }
    for n in [9, 10, 11, 99, 100, 101, 999999999, 1000000000, 4294967294, u32::MAX] {
        assert_eq!(format_u32(n), n.to_string());
    }
}

#[test]
fn format_then_parse_gives_the_number_back() {
    for n in [0u32, 1, 9, 10, 123, 65535, 65536, 4294967295] {
        assert_eq!(parse_u32(&format_u32(n)), Some(n));
    }
}

#[test]
fn push_decimal_appends_to_what_is_there() {
    let mut out = String::from("rv=");
    push_decimal(&mut out, 120);
    assert_eq!(out, "rv=120");
    push_decimal(&mut out, 0);
    assert_eq!(out, "rv=1200");
}
