use domectrl::decimal::{decimal_string, parse_u32};

#[test]
fn writes_numbers_like_to_string() {
    for n in [0u64, 7, 9, 10, 99, 100, 9600, 4294967295, 18446744073709551615] {
        assert_eq!(decimal_string(n), n.to_string());
    }
}

#[test]
fn reads_numbers_like_str_parse() {
    let cases = [
        "0", "42", "+7", "007", "", "+", "-", "-1", "-0", "4294967295", "4294967296",
        "99999999999999999999", "12a", " 1", "1 ", "+-1", "١٢", "9600",
    ];
    for s in cases {
        assert_eq!(parse_u32(s), s.parse::<u32>().ok(), "input {:?}", s);
    }
}

#[test]
fn exact_parse_values() {
    assert_eq!(parse_u32("+12"), Some(12));
    assert_eq!(parse_u32("4294967295"), Some(u32::MAX));
    assert_eq!(parse_u32("4294967296"), None);
    assert_eq!(parse_u32("abc"), None);
}

#[test]
fn written_numbers_read_back() {
    for n in [0u32, 1, 10, 500, 30000, u32::MAX] {
        assert_eq!(parse_u32(&decimal_string(n as u64)), Some(n));
    }
}
