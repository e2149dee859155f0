use rustproto::num::parse_i64;
use rustproto::num::parse_u64;
use rustproto::num::u64_to_dec;

#[test]
fn unsigned_decimals_parse_exactly() {
    assert_eq!(parse_u64("0"), Some(0));
    assert_eq!(parse_u64("1"), Some(1));
    assert_eq!(parse_u64("0042"), Some(42));
    assert_eq!(parse_u64("18446744073709551615"), Some(u64::MAX));
    assert_eq!(parse_u64("18446744073709551616"), None);
    assert_eq!(parse_u64("99999999999999999999999999"), None);
    assert_eq!(parse_u64(""), None);
    assert_eq!(parse_u64("-1"), None);
    assert_eq!(parse_u64("+1"), None);
    assert_eq!(parse_u64("12 "), None);
    assert_eq!(parse_u64("1a2"), None);
}

#[test]
fn signed_decimals_parse_like_the_standard_parser() {
    for s in [
        "0",
        "1",
        "-1",
        "+7",
        "9223372036854775807",
        "-9223372036854775808",
        "9223372036854775808",
        "-9223372036854775809",
        "",
        "-",
        "+",
        "--1",
        "1.5",
        "00123",
    ] {
        assert_eq!(parse_i64(s), s.parse::<i64>().ok(), "mismatch on {:?}", s);
    }
}

#[test]
fn decimal_rendering_round_trips() {
    for n in [0u64, 1, 9, 10, 99, 100, 1001, 30000, u64::MAX - 1, u64::MAX] {
        let s = u64_to_dec(n);
        assert_eq!(s, n.to_string());
        assert_eq!(parse_u64(&s), Some(n));
    }
}
