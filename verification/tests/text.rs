use pyromaniac::text::{decimal, decimal_bytes, parse_decimal, parse_u16, same_bytes};

#[test]
fn parse_u16_reads_plain_numbers() {
    assert_eq!(parse_u16("0"), Some(0));
    assert_eq!(parse_u16("3000"), Some(3000));
    assert_eq!(parse_u16("65535"), Some(65535));
}

#[test]
fn parse_u16_takes_one_leading_plus() {
    assert_eq!(parse_u16("+80"), Some(80));
    assert_eq!(parse_u16("++80"), None);
    assert_eq!(parse_u16("+"), None);
}

#[test]
fn parse_u16_takes_leading_zeros() {
    assert_eq!(parse_u16("00012"), Some(12));
    assert_eq!(parse_u16("000000000000000000000000065535"), Some(65535));
}

#[test]
fn parse_u16_refuses_what_is_no_number() {
    assert_eq!(parse_u16(""), None);
    assert_eq!(parse_u16("-1"), None);
    assert_eq!(parse_u16(" 1"), None);
    assert_eq!(parse_u16("1 "), None);
    assert_eq!(parse_u16("12a"), None);
    assert_eq!(parse_u16("0x10"), None);
    assert_eq!(parse_u16("\u{ff11}\u{ff12}"), None);
}

#[test]
fn parse_u16_refuses_what_does_not_fit() {
    assert_eq!(parse_u16("65536"), None);
    assert_eq!(parse_u16("99999"), None);
    assert_eq!(parse_u16("18446744073709551616"), None);
    assert_eq!(parse_u16("99999999999999999999999999999999"), None);
}

#[test]
fn parse_u16_agrees_with_the_standard_library() {
    let samples = [
        "", "+", "-", "0", "+0", "-0", "7", "007", "65535", "65536", "+65535", "+65536", "1e3",
        "12 ", " 12", "1_000", "\u{ff14}\u{ff12}", "abc", "655350", "000",
    ];
    for text in samples {
        assert_eq!(parse_u16(text), text.parse::<u16>().ok(), "on {:?}", text);
    }
    let mut n: u32 = 0;
    while n <= 65535 {
        let text = n.to_string();
        assert_eq!(parse_u16(&text), Some(n as u16));
        n += 257;
    }
}

#[test]
fn parse_decimal_reads_a_part_of_the_bytes() {
    let bytes = b"ab123cd";
    assert_eq!(parse_decimal(bytes, 2, 5, 1000), Some(123));
    assert_eq!(parse_decimal(bytes, 2, 5, 123), Some(123));
    assert_eq!(parse_decimal(bytes, 2, 5, 122), None);
    assert_eq!(parse_decimal(bytes, 2, 6, 1000), None);
    assert_eq!(parse_decimal(bytes, 2, 2, 1000), None);
    assert_eq!(parse_decimal(bytes, 7, 7, 1000), None);
}

#[test]
fn parse_decimal_reaches_the_largest_number() {
    let bytes = b"18446744073709551615";
    assert_eq!(parse_decimal(bytes, 0, bytes.len(), u64::MAX), Some(u64::MAX));
    let over = b"18446744073709551616";
    assert_eq!(parse_decimal(over, 0, over.len(), u64::MAX), None);
    assert_eq!(parse_decimal(b"0", 0, 1, 0), Some(0));
    assert_eq!(parse_decimal(b"1", 0, 1, 0), None);
}

#[test]
fn decimal_writes_without_sign_or_zeros() {
    assert_eq!(decimal(0), "0");
    assert_eq!(decimal(9), "9");
    assert_eq!(decimal(10), "10");
    assert_eq!(decimal(111), "111");
    assert_eq!(decimal(65535), "65535");
    assert_eq!(decimal(u64::MAX), "18446744073709551615");
}

#[test]
fn decimal_bytes_writes_the_same_digits() {
    assert_eq!(decimal_bytes(0), b"0".to_vec());
    assert_eq!(decimal_bytes(5000), b"5000".to_vec());
    assert_eq!(decimal_bytes(u64::MAX), b"18446744073709551615".to_vec());
}

#[test]
fn written_numbers_are_read_back() {
    let samples: [u64; 8] = [0, 1, 9, 10, 99, 100, 4294967295, u64::MAX];
    for n in samples {
        let bytes = decimal_bytes(n);
        assert_eq!(parse_decimal(&bytes, 0, bytes.len(), u64::MAX), Some(n));
        assert_eq!(decimal(n), n.to_string());
    }
}

#[test]
fn same_bytes_compares_length_and_content() {
    assert!(same_bytes(b"", b""));
    assert!(same_bytes(b"abc", b"abc"));
    assert!(!same_bytes(b"abc", b"abd"));
    assert!(!same_bytes(b"abc", b"ab"));
    assert!(!same_bytes(b"", b"a"));
}
