use sword_web::errors::ParseError;
use sword_web::parse::{parse_byte_size, parse_duration};
use sword_web::strutil::{render_byte_size, render_duration_ms, u64_to_dec};

#[test]
fn byte_size_decimal_convention() {
    assert_eq!(parse_byte_size("10MB"), Ok(10_000_000));
    assert_eq!(parse_byte_size("1KB"), Ok(1_000));
    assert_eq!(parse_byte_size("1GB"), Ok(1_000_000_000));
    assert_eq!(parse_byte_size("1TB"), Ok(1_000_000_000_000));
    assert_eq!(parse_byte_size("1PB"), Ok(1_000_000_000_000_000));
    assert_eq!(parse_byte_size("1EB"), Ok(1_000_000_000_000_000_000));
}

#[test]
fn byte_size_binary_convention() {
    assert_eq!(parse_byte_size("10MiB"), Ok(10_485_760));
    assert_eq!(parse_byte_size("1KiB"), Ok(1_024));
    assert_eq!(parse_byte_size("1GiB"), Ok(1_073_741_824));
    assert_eq!(parse_byte_size("1TiB"), Ok(1_099_511_627_776));
}

#[test]
fn byte_size_no_suffix_is_raw_bytes() {
    assert_eq!(parse_byte_size("5"), Ok(5));
    assert_eq!(parse_byte_size("0"), Ok(0));
    assert_eq!(parse_byte_size("5B"), Ok(5));
    assert_eq!(parse_byte_size("123456789"), Ok(123_456_789));
}

#[test]
fn byte_size_case_insensitive() {
    assert_eq!(parse_byte_size("1kb"), Ok(1_000));
    assert_eq!(parse_byte_size("1Kb"), Ok(1_000));
    assert_eq!(parse_byte_size("1kib"), Ok(1_024));
    assert_eq!(parse_byte_size("1KIB"), Ok(1_024));
    assert_eq!(parse_byte_size("1mB"), Ok(1_000_000));
}

#[test]
fn byte_size_decimal_number() {
    assert_eq!(parse_byte_size("1.5MB"), Ok(1_500_000));
    assert_eq!(parse_byte_size("2.5KiB"), Ok(2_560));
    assert_eq!(parse_byte_size("0.5KB"), Ok(500));
    // Fractional bytes truncate.
    assert_eq!(parse_byte_size("1.9B"), Ok(1));
    assert_eq!(parse_byte_size("0.999KB"), Ok(999));
}

#[test]
fn byte_size_invalid_format() {
    assert_eq!(parse_byte_size(""), Err(ParseError::InvalidFormat));
    assert_eq!(parse_byte_size("abc"), Err(ParseError::InvalidFormat));
    assert_eq!(parse_byte_size(".5MB"), Err(ParseError::InvalidFormat));
    assert_eq!(parse_byte_size("1.MB"), Err(ParseError::InvalidFormat));
    assert_eq!(parse_byte_size("1..2MB"), Err(ParseError::InvalidFormat));
    assert_eq!(parse_byte_size("10XB"), Err(ParseError::InvalidFormat));
    assert_eq!(parse_byte_size("10 MB"), Err(ParseError::InvalidFormat));
    assert_eq!(parse_byte_size("MB"), Err(ParseError::InvalidFormat));
    assert_eq!(parse_byte_size("10MBs"), Err(ParseError::InvalidFormat));
    // More fractional digits than the grammar admits.
    assert_eq!(
        parse_byte_size("1.0000000000000MB"),
        Err(ParseError::InvalidFormat)
    );
}

#[test]
fn byte_size_overflow() {
    assert_eq!(parse_byte_size("18446744073709551615"), Ok(u64::MAX));
    assert_eq!(
        parse_byte_size("18446744073709551616"),
        Err(ParseError::Overflow)
    );
    assert_eq!(parse_byte_size("20000000000EB"), Err(ParseError::Overflow));
    assert_eq!(
        parse_byte_size("99999999999999999999999999KB"),
        Err(ParseError::Overflow)
    );
}

#[test]
fn duration_single_units() {
    assert_eq!(parse_duration("30s"), Ok(30_000));
    assert_eq!(parse_duration("100ms"), Ok(100));
    assert_eq!(parse_duration("1m"), Ok(60_000));
    assert_eq!(parse_duration("2h"), Ok(7_200_000));
    assert_eq!(parse_duration("2d"), Ok(172_800_000));
}

#[test]
fn duration_compound_sums_components() {
    // 1h30m is 5400 seconds.
    assert_eq!(parse_duration("1h30m"), Ok(5_400_000));
    assert_eq!(parse_duration("1m30s"), Ok(90_000));
    assert_eq!(parse_duration("1s500ms"), Ok(1_500));
    assert_eq!(parse_duration("1d1h1m1s1ms"), Ok(90_061_001));
}

#[test]
fn duration_case_insensitive() {
    assert_eq!(parse_duration("30S"), Ok(30_000));
    assert_eq!(parse_duration("1H30M"), Ok(5_400_000));
    assert_eq!(parse_duration("5MS"), Ok(5));
}

#[test]
fn duration_invalid_format() {
    assert_eq!(parse_duration(""), Err(ParseError::InvalidFormat));
    assert_eq!(parse_duration("10"), Err(ParseError::InvalidFormat));
    assert_eq!(parse_duration("s"), Err(ParseError::InvalidFormat));
    assert_eq!(parse_duration("10x"), Err(ParseError::InvalidFormat));
    assert_eq!(parse_duration("10s5"), Err(ParseError::InvalidFormat));
    assert_eq!(parse_duration("10ss"), Err(ParseError::InvalidFormat));
    assert_eq!(parse_duration("1.5s"), Err(ParseError::InvalidFormat));
    assert_eq!(parse_duration(" 30s"), Err(ParseError::InvalidFormat));
}

#[test]
fn duration_overflow() {
    assert_eq!(parse_duration("99999999999999999999d"), Err(ParseError::Overflow));
    assert_eq!(parse_duration("18446744073709551615ms"), Ok(u64::MAX));
    assert_eq!(parse_duration("18446744073709551616ms"), Err(ParseError::Overflow));
}

#[test]
fn byte_size_reparse_of_canonical_rendering() {
    // Parsing, re-rendering canonically, and parsing again is stable.
    let v = parse_byte_size("10MB").unwrap();
    let rendered = render_byte_size(v);
    assert_eq!(rendered, "10000000");
    assert_eq!(parse_byte_size(&rendered), Ok(v));

    let v2 = parse_byte_size("1.5KiB").unwrap();
    let rendered2 = render_byte_size(v2);
    assert_eq!(parse_byte_size(&rendered2), Ok(v2));
}

#[test]
fn duration_reparse_of_canonical_rendering() {
    let v = parse_duration("1h30m").unwrap();
    let rendered = render_duration_ms(v);
    assert_eq!(rendered, "5400000ms");
    assert_eq!(parse_duration(&rendered), Ok(v));
}

#[test]
fn decimal_rendering() {
    assert_eq!(u64_to_dec(0), "0");
    assert_eq!(u64_to_dec(7), "7");
    assert_eq!(u64_to_dec(1234), "1234");
    assert_eq!(u64_to_dec(u64::MAX), "18446744073709551615");
}
