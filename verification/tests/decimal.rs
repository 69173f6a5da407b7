use hardware_info::decimal::parse_u64;

#[test]
fn parses_plain_digits() {
    assert_eq!(parse_u64("0"), Some(0));
    assert_eq!(parse_u64("7"), Some(7));
    assert_eq!(parse_u64("17179869184"), Some(17179869184));
}

#[test]
fn keeps_leading_zeros() {
    assert_eq!(parse_u64("007"), Some(7));
    assert_eq!(parse_u64("0000000000000000000000000012"), Some(12));
}

#[test]
fn accepts_one_leading_plus() {
    assert_eq!(parse_u64("+5"), Some(5));
    assert_eq!(parse_u64("++5"), None);
    assert_eq!(parse_u64("+"), None);
}

#[test]
fn rejects_empty_text() {
    assert_eq!(parse_u64(""), None);
}

#[test]
fn rejects_minus_sign() {
    assert_eq!(parse_u64("-5"), None);
    assert_eq!(parse_u64("-0"), None);
}

#[test]
fn rejects_other_characters() {
    assert_eq!(parse_u64("12a"), None);
    assert_eq!(parse_u64(" 12"), None);
    assert_eq!(parse_u64("12 "), None);
    assert_eq!(parse_u64("1_000"), None);
    assert_eq!(parse_u64("1.5"), None);
    assert_eq!(parse_u64("\u{ff11}\u{ff12}"), None);
}

#[test]
fn largest_value_fits() {
    assert_eq!(parse_u64("18446744073709551615"), Some(u64::MAX));
}

#[test]
fn one_past_largest_is_rejected() {
    assert_eq!(parse_u64("18446744073709551616"), None);
    assert_eq!(parse_u64("99999999999999999999"), None);
    assert_eq!(parse_u64("184467440737095516150"), None);
}

#[test]
fn agrees_with_std_on_samples() {
    let samples = vec![
        "", "+", "-", "0", "+0", "-0", "1", "42", "0042", "+42", "4 2", "४२", "18446744073709551615",
        "18446744073709551616", "+18446744073709551615", "abc", "1e3", "0x10", "2097152",
    ];
    for s in samples {
        assert_eq!(parse_u64(s), s.parse::<u64>().ok(), "on {:?}", s);
    }
}
