use pixel_canvas::decimal::parse_dimension;

#[test]
fn digits_give_their_value() {
    assert_eq!(parse_dimension("0"), Some(0));
    assert_eq!(parse_dimension("7"), Some(7));
    assert_eq!(parse_dimension("42"), Some(42));
    assert_eq!(parse_dimension("640"), Some(640));
    assert_eq!(parse_dimension("0042"), Some(42));
}

#[test]
fn a_leading_plus_is_accepted() {
    assert_eq!(parse_dimension("+5"), Some(5));
    assert_eq!(parse_dimension("+0"), Some(0));
    assert_eq!(parse_dimension("+"), None);
    assert_eq!(parse_dimension("++5"), None);
    assert_eq!(parse_dimension("5+"), None);
}

#[test]
fn text_that_is_no_number_gives_none() {
    assert_eq!(parse_dimension(""), None);
    assert_eq!(parse_dimension(" 5"), None);
    assert_eq!(parse_dimension("5 "), None);
    assert_eq!(parse_dimension("-5"), None);
    assert_eq!(parse_dimension("-0"), None);
    assert_eq!(parse_dimension("1_000"), None);
    assert_eq!(parse_dimension("12px"), None);
    assert_eq!(parse_dimension("1.5"), None);
    assert_eq!(parse_dimension("0x10"), None);
    assert_eq!(parse_dimension("\u{661}\u{662}"), None);
    assert_eq!(parse_dimension("Width Input"), None);
}

#[test]
fn values_beyond_32_bits_give_none() {
    assert_eq!(parse_dimension("4294967295"), Some(u32::MAX));
    assert_eq!(parse_dimension("4294967296"), None);
    assert_eq!(parse_dimension("4294967300"), None);
    assert_eq!(parse_dimension("99999999999999999999999999"), None);
    assert_eq!(parse_dimension("00000000000000004294967295"), Some(u32::MAX));
    assert_eq!(parse_dimension("42949672950"), None);
    assert_eq!(parse_dimension("4294967296x"), None);
}

#[test]
fn agrees_with_the_standard_parser() {
    let samples = [
        "", "+", "-", "0", "+0", "-0", "1", "9", "10", "099", "+099", "4294967295", "4294967296",
        "+4294967295", "18446744073709551616", "12a", "a12", "1 2", "\t3", "3\n", "\u{663}", "\u{ff11}\u{ff12}",
        "+-1", "1e3", "0000000000000000000000001", "429496729", "4294967290", "4294967299",
    ];
    for s in samples {
        assert_eq!(parse_dimension(s), s.parse::<u32>().ok(), "on {:?}", s);
    }
    for n in (0..=u32::MAX).step_by(9_999_991) {
        let s = format!("{}", n);
        assert_eq!(parse_dimension(&s), Some(n));
    }
}
