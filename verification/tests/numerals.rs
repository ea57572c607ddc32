use cancelbot::num::parse_dec_u64;
use cancelbot::num::u64_to_dec;

#[test]
fn plain_ordinals_parse() {
    assert_eq!(parse_dec_u64("0"), Some(0));
    assert_eq!(parse_dec_u64("12"), Some(12));
    assert_eq!(parse_dec_u64("2552"), Some(2552));
}

#[test]
fn leading_zeros_parse_numerically() {
    assert_eq!(parse_dec_u64("012"), Some(12));
}

#[test]
fn junk_does_not_parse() {
    assert_eq!(parse_dec_u64(""), None);
    assert_eq!(parse_dec_u64("12a"), None);
    assert_eq!(parse_dec_u64("a12"), None);
    assert_eq!(parse_dec_u64("-1"), None);
    assert_eq!(parse_dec_u64("1.5"), None);
}

#[test]
fn parse_stops_at_the_integer_limit() {
    assert_eq!(parse_dec_u64("18446744073709551615"), Some(u64::MAX));
    assert_eq!(parse_dec_u64("18446744073709551616"), None);
    assert_eq!(parse_dec_u64("99999999999999999999999"), None);
}

#[test]
fn rendering_is_canonical() {
    assert_eq!(u64_to_dec(0), "0");
    assert_eq!(u64_to_dec(7), "7");
    assert_eq!(u64_to_dec(12345), "12345");
    assert_eq!(u64_to_dec(u64::MAX), "18446744073709551615");
}

#[test]
fn rendering_round_trips_through_parsing() {
    for n in [0u64, 1, 9, 10, 99, 100, 2552, u64::MAX] {
        assert_eq!(parse_dec_u64(&u64_to_dec(n)), Some(n));
    }
}
