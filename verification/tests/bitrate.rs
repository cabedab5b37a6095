use zeroscope::bitrate::{parse_bitrate, BitrateError};

#[test]
fn test_plain_number() {
    assert_eq!(parse_bitrate("6000000"), Ok(6_000_000));
}

#[test]
fn test_mega_suffix_both_cases() {
    assert_eq!(parse_bitrate("6M"), Ok(6_000_000));
    assert_eq!(parse_bitrate("6m"), Ok(6_000_000));
}

#[test]
fn test_kilo_suffix_both_cases() {
    assert_eq!(parse_bitrate("500K"), Ok(500_000));
    assert_eq!(parse_bitrate("500k"), Ok(500_000));
}

#[test]
fn test_surrounding_whitespace_is_ignored() {
    assert_eq!(parse_bitrate("  8M\t"), Ok(8_000_000));
    assert_eq!(parse_bitrate("\n42\n"), Ok(42));
}

#[test]
fn test_leading_plus_is_accepted() {
    assert_eq!(parse_bitrate("+5M"), Ok(5_000_000));
}

#[test]
fn test_empty_and_blank_are_rejected() {
    assert_eq!(parse_bitrate(""), Err(BitrateError::Empty));
    assert_eq!(parse_bitrate("   "), Err(BitrateError::Empty));
}

#[test]
fn test_garbage_is_an_invalid_number() {
    assert_eq!(parse_bitrate("abc"), Err(BitrateError::InvalidNumber));
    assert_eq!(parse_bitrate("12x3"), Err(BitrateError::InvalidNumber));
    assert_eq!(parse_bitrate("M"), Err(BitrateError::InvalidNumber));
    assert_eq!(parse_bitrate("+"), Err(BitrateError::InvalidNumber));
    assert_eq!(parse_bitrate("5 M"), Err(BitrateError::InvalidNumber));
    assert_eq!(parse_bitrate("-5"), Err(BitrateError::InvalidNumber));
}

#[test]
fn test_number_beyond_sixty_four_bits_is_invalid() {
    assert_eq!(parse_bitrate("18446744073709551615"), Ok(u64::MAX));
    assert_eq!(
        parse_bitrate("18446744073709551616"),
        Err(BitrateError::InvalidNumber)
    );
}

#[test]
fn test_suffix_overflow_is_reported_as_overflow() {
    assert_eq!(
        parse_bitrate("18446744073709551615K"),
        Err(BitrateError::Overflow)
    );
    assert_eq!(
        parse_bitrate("18446744073709551615M"),
        Err(BitrateError::Overflow)
    );
    // The largest value the mega suffix still admits.
    assert_eq!(parse_bitrate("18446744073709K"), Ok(18_446_744_073_709_000));
}
