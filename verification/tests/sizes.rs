use crnch::size::{
    judge_size, parse_size, size_from_captures, validate_size, SizeError, MAX_SIZE_KB,
};

#[test]
fn test_parse_size_kilobytes() {
    assert_eq!(parse_size("200k"), Some(200));
    assert_eq!(parse_size("200kb"), Some(200));
    assert_eq!(parse_size("200K"), Some(200));
    assert_eq!(parse_size("200KB"), Some(200));
}

#[test]
fn test_parse_size_megabytes() {
    assert_eq!(parse_size("1m"), Some(1024));
    assert_eq!(parse_size("1mb"), Some(1024));
    assert_eq!(parse_size("1.5m"), Some(1536));
    assert_eq!(parse_size("2M"), Some(2048));
}

#[test]
fn test_parse_size_gigabytes() {
    assert_eq!(parse_size("1g"), Some(1024 * 1024));
    assert_eq!(parse_size("1gb"), Some(1024 * 1024));
    assert_eq!(parse_size("2G"), Some(2 * 1024 * 1024));
}

#[test]
fn test_parse_size_decimals() {
    assert_eq!(parse_size("0.5m"), Some(512));
    assert_eq!(parse_size("1.5k"), Some(1));
}

#[test]
fn test_parse_size_invalid() {
    assert_eq!(parse_size(""), None);
    assert_eq!(parse_size("invalid"), None);
    assert_eq!(parse_size("k"), None);
    assert_eq!(parse_size("-100k"), None);
    assert_eq!(parse_size("100x"), None);
}

#[test]
fn test_validate_size_success() {
    assert!(validate_size("200k").is_ok());
    assert!(validate_size("1.5m").is_ok());
    assert!(validate_size("1g").is_ok());
}

#[test]
fn test_validate_size_zero() {
    assert!(validate_size("0k").is_err());
    assert!(validate_size("0").is_err());
}

#[test]
fn test_validate_size_too_large() {
    assert!(validate_size("20g").is_err()); // > 10GB
}

#[test]
fn test_validate_size_invalid_format() {
    assert!(validate_size("invalid").is_err());
    assert!(validate_size("").is_err());
    assert!(validate_size("-100k").is_err());
}

#[test]
fn parse_size_without_unit_counts_kilobytes() {
    assert_eq!(parse_size("200"), Some(200));
    assert_eq!(parse_size("0"), Some(0));
    assert_eq!(parse_size("007"), Some(7));
}

#[test]
fn parse_size_mixed_case_units() {
    assert_eq!(parse_size("3Mb"), Some(3072));
    assert_eq!(parse_size("3mB"), Some(3072));
    assert_eq!(parse_size("1Gb"), Some(1_048_576));
    assert_eq!(parse_size("9Kb"), Some(9));
}

#[test]
fn parse_size_rounds_down() {
    assert_eq!(parse_size("0.1m"), Some(102));
    assert_eq!(parse_size("0.7m"), Some(716));
    assert_eq!(parse_size("0.999k"), Some(0));
    assert_eq!(parse_size("2.25g"), Some(2_359_296));
    assert_eq!(parse_size("0.0009765625m"), Some(1));
    assert_eq!(parse_size("0.0009765624m"), Some(0));
}

#[test]
fn parse_size_rejects_malformed_numbers() {
    assert_eq!(parse_size("1."), None);
    assert_eq!(parse_size(".5m"), None);
    assert_eq!(parse_size("1.2.3k"), None);
    assert_eq!(parse_size("1 k"), None);
    assert_eq!(parse_size("12kbb"), None);
    assert_eq!(parse_size("200k\n"), None);
    assert_eq!(parse_size("+5k"), None);
    assert_eq!(parse_size("1e3"), None);
}

#[test]
fn parse_size_rejects_digits_outside_ascii() {
    // Arabic-Indic digits are digits to the pattern, not to the number.
    assert_eq!(parse_size("\u{0663}k"), None);
}

#[test]
fn parse_size_saturates() {
    assert_eq!(parse_size("18446744073709551615"), Some(u64::MAX));
    assert_eq!(parse_size("18446744073709551616"), Some(u64::MAX));
    assert_eq!(parse_size("99999999999999999999999999g"), Some(u64::MAX));
    assert_eq!(parse_size("18014398509481984m"), Some(u64::MAX));
    assert_eq!(parse_size("18014398509481983m"), Some(18014398509481983 * 1024));
}

#[test]
fn parse_size_ignores_digits_past_the_twentieth() {
    assert_eq!(parse_size("0.50000000000000000000000000001m"), Some(512));
    assert_eq!(parse_size("0.49999999999999999999999999999m"), Some(511));
    assert_eq!(parse_size("1.00000000000000000000000000000k"), Some(1));
    assert_eq!(parse_size("0.000000953674316406250000000001g"), Some(1));
    assert_eq!(parse_size("0.000000953674316406249999999999g"), Some(0));
}

#[test]
fn size_from_captures_reads_number_and_unit() {
    assert_eq!(size_from_captures("200", None), Some(200));
    assert_eq!(size_from_captures("200", Some("k")), Some(200));
    assert_eq!(size_from_captures("200", Some("kb")), Some(200));
    assert_eq!(size_from_captures("1.5", Some("m")), Some(1536));
    assert_eq!(size_from_captures("1.5", Some("mb")), Some(1536));
    assert_eq!(size_from_captures("2", Some("g")), Some(2_097_152));
    assert_eq!(size_from_captures("2", Some("gb")), Some(2_097_152));
    assert_eq!(size_from_captures("2", Some("tb")), Some(2));
    assert_eq!(size_from_captures("2", Some("G")), Some(2));
}

#[test]
fn size_from_captures_rejects_what_is_no_number() {
    assert_eq!(size_from_captures("", None), None);
    assert_eq!(size_from_captures(".", None), None);
    assert_eq!(size_from_captures("1.", None), None);
    assert_eq!(size_from_captures(".1", None), None);
    assert_eq!(size_from_captures("1,5", None), None);
    assert_eq!(size_from_captures("1.5.5", None), None);
    assert_eq!(size_from_captures("1e5", None), None);
    assert_eq!(size_from_captures("12a", Some("m")), None);
}

#[test]
fn validate_size_names_each_reason() {
    assert_eq!(validate_size(""), Err(SizeError::Empty));
    assert_eq!(validate_size("0"), Err(SizeError::Zero));
    assert_eq!(validate_size("0.9k"), Err(SizeError::Zero));
    assert_eq!(validate_size("20g"), Err(SizeError::TooLarge));
    assert_eq!(validate_size("abc"), Err(SizeError::Invalid));
    assert_eq!(validate_size("200k"), Ok(200));
    assert_eq!(validate_size("1.5m"), Ok(1536));
}

#[test]
fn validate_size_limit_is_ten_gigabytes() {
    assert_eq!(MAX_SIZE_KB, 10 * 1024 * 1024);
    assert_eq!(validate_size("10g"), Ok(MAX_SIZE_KB));
    assert_eq!(validate_size("10485760"), Ok(MAX_SIZE_KB));
    assert_eq!(validate_size("10485761"), Err(SizeError::TooLarge));
    assert_eq!(validate_size("1"), Ok(1));
}

#[test]
fn judge_size_orders_its_checks() {
    assert_eq!(judge_size(true, Some(5)), Err(SizeError::Empty));
    assert_eq!(judge_size(false, None), Err(SizeError::Invalid));
    assert_eq!(judge_size(false, Some(0)), Err(SizeError::Zero));
    assert_eq!(judge_size(false, Some(MAX_SIZE_KB + 1)), Err(SizeError::TooLarge));
    assert_eq!(judge_size(false, Some(MAX_SIZE_KB)), Ok(MAX_SIZE_KB));
}

#[test]
fn size_error_messages() {
    assert_eq!(
        SizeError::Empty.message(""),
        "Size cannot be empty. Examples: 200k, 1.5m, 500kb"
    );
    assert_eq!(
        SizeError::Zero.message("0"),
        "Size must be greater than 0. Examples: 200k, 1.5m, 500kb"
    );
    assert_eq!(SizeError::TooLarge.message("20g"), "Size too large (max 10GB). Got: 20g");
    assert_eq!(
        SizeError::Invalid.message("abc"),
        "Invalid size format: 'abc'. Examples:\n   - 200k or 200kb (200 kilobytes)\n   - 1.5m or 1.5mb (1.5 megabytes)\n   - 2g or 2gb (2 gigabytes)"
    );
}
