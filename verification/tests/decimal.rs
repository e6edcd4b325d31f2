use vipdf::decimal::{parse_decimal, parse_decimal_after};

#[test]
fn parses_like_std() {
    for s in ["0", "7", "42", "+5", "007", "", "+", "-1", "-0", "1a", " 1", "++1", "18446744073709551615", "18446744073709551616", "١"] {
        assert_eq!(parse_decimal(s), s.parse::<usize>().ok(), "{s:?}");
    }
}

#[test]
fn parses_after_a_number_like_std() {
    for (n, s) in [(0usize, "5"), (12, "3"), (3, "+5"), (1844674407370955161, "5"), (1844674407370955161, "6"), (7, ""), (7, "x")] {
        assert_eq!(parse_decimal_after(n, s), (n.to_string() + s).parse::<usize>().ok(), "{n} {s:?}");
    }
}
