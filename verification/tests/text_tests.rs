use zune_workflow::text::{
    extension_of, parse_u16, parse_usize, trim_ascii, u64_to_string, usize_to_string,
    ParseNumError,
};

#[test]
fn parses_plain_decimals() {
    assert_eq!(parse_usize("42"), Ok(42));
    assert_eq!(parse_usize("0"), Ok(0));
    assert_eq!(parse_usize("007"), Ok(7));
    assert_eq!(parse_u16("65535"), Ok(65535));
}

#[test]
fn rejects_empty_tokens() {
    assert_eq!(parse_usize(""), Err(ParseNumError::EmptyInput));
    assert_eq!(parse_u16(""), Err(ParseNumError::EmptyInput));
}

#[test]
fn rejects_stray_characters() {
    assert_eq!(parse_usize("4a2"), Err(ParseNumError::InvalidDigit));
    assert_eq!(parse_usize("-3"), Err(ParseNumError::InvalidDigit));
    assert_eq!(parse_usize(" 3"), Err(ParseNumError::InvalidDigit));
}

#[test]
fn rejects_too_large_values() {
    assert_eq!(parse_u16("65536"), Err(ParseNumError::Overflow));
    assert_eq!(parse_u16("70000"), Err(ParseNumError::Overflow));
    assert_eq!(
        parse_usize("99999999999999999999999999999"),
        Err(ParseNumError::Overflow)
    );
}

#[test]
fn parse_error_messages_match_std_wording() {
    assert_eq!(
        ParseNumError::EmptyInput.message(),
        "cannot parse integer from empty string"
    );
    assert_eq!(
        ParseNumError::InvalidDigit.message(),
        "invalid digit found in string"
    );
    assert_eq!(
        ParseNumError::Overflow.message(),
        "number too large to fit in target type"
    );
}

#[test]
fn renders_decimals() {
    assert_eq!(u64_to_string(0), "0");
    assert_eq!(u64_to_string(7), "7");
    assert_eq!(u64_to_string(10), "10");
    assert_eq!(u64_to_string(120), "120");
    assert_eq!(u64_to_string(98765), "98765");
    assert_eq!(usize_to_string(4096), "4096");
}

#[test]
fn parse_and_render_round_trip() {
    for n in [0usize, 1, 9, 10, 99, 100, 12345, 65535] {
        assert_eq!(parse_usize(&usize_to_string(n)), Ok(n));
    }
}

#[test]
fn trims_ascii_whitespace_at_both_ends() {
    assert_eq!(trim_ascii("  north\t"), "north");
    assert_eq!(trim_ascii("north"), "north");
    assert_eq!(trim_ascii(" a b "), "a b");
    assert_eq!(trim_ascii("\r\n"), "");
    assert_eq!(trim_ascii(""), "");
}

#[test]
fn extracts_extensions_like_a_path_would() {
    assert_eq!(extension_of("b.png"), Some("png".to_string()));
    assert_eq!(extension_of("archive.tar.gz"), Some("gz".to_string()));
    assert_eq!(extension_of("path/to/img.qoi"), Some("qoi".to_string()));
    assert_eq!(extension_of("dir.v/file"), None);
    assert_eq!(extension_of(".bashrc"), None);
    assert_eq!(extension_of("name"), None);
    assert_eq!(extension_of("-"), None);
    assert_eq!(extension_of("trailing."), Some("".to_string()));
}
