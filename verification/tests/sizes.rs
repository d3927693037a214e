use swatch::{parse_size, sizes_or_default, validate_size, ImageSpecifications, SizeError};

#[test]
fn plain_size_token_is_read_as_height_then_width() {
    assert_eq!(parse_size("100x50"), Ok((100, 50)));
    assert_eq!(parse_size("128x128"), Ok((128, 128)));
    assert_eq!(parse_size("1x500"), Ok((1, 500)));
}

#[test]
fn out_of_range_dimensions_are_clamped_not_refused() {
    assert_eq!(parse_size("0x600"), Ok((1, 500)));
    assert!(validate_size(&"0x600"));
    assert_eq!(parse_size("501x0"), Ok((500, 1)));
    assert_eq!(parse_size("4294967295x4294967295"), Ok((500, 500)));
}

#[test]
fn a_token_without_separator_is_refused() {
    assert_eq!(parse_size("128"), Err(SizeError::MissingSeparator));
    assert_eq!(parse_size(""), Err(SizeError::MissingSeparator));
    assert_eq!(parse_size("100X50"), Err(SizeError::MissingSeparator));
    assert!(!validate_size(&"128"));
    assert!(!validate_size(&""));
}

#[test]
fn a_side_that_is_no_number_is_refused() {
    assert_eq!(parse_size("x"), Err(SizeError::InvalidDimension));
    assert_eq!(parse_size("10x"), Err(SizeError::InvalidDimension));
    assert_eq!(parse_size("x10"), Err(SizeError::InvalidDimension));
    assert_eq!(parse_size("abcx10"), Err(SizeError::InvalidDimension));
    assert_eq!(parse_size("10x1o"), Err(SizeError::InvalidDimension));
    assert_eq!(parse_size("-1x10"), Err(SizeError::InvalidDimension));
    assert_eq!(parse_size("10x 10"), Err(SizeError::InvalidDimension));
    assert_eq!(parse_size("1.5x10"), Err(SizeError::InvalidDimension));
    assert_eq!(parse_size("+x10"), Err(SizeError::InvalidDimension));
    assert!(!validate_size(&"10x"));
    assert!(!validate_size(&"-1x10"));
}

#[test]
fn a_second_separator_is_refused() {
    assert_eq!(parse_size("1x2x3"), Err(SizeError::InvalidDimension));
    assert_eq!(parse_size("10xx10"), Err(SizeError::InvalidDimension));
    assert!(!validate_size(&"1x2x3"));
}

#[test]
fn a_value_beyond_u32_is_refused() {
    assert_eq!(parse_size("4294967296x10"), Err(SizeError::InvalidDimension));
    assert_eq!(parse_size("10x99999999999999999999999"), Err(SizeError::InvalidDimension));
    assert!(!validate_size(&"4294967296x10"));
}

#[test]
fn a_plus_sign_and_leading_zeros_are_accepted() {
    assert_eq!(parse_size("+10x+20"), Ok((10, 20)));
    assert_eq!(parse_size("0000000000000000000007x010"), Ok((7, 10)));
    assert!(validate_size(&"+10x+20"));
    assert_eq!(parse_size("++10x20"), Err(SizeError::InvalidDimension));
}

#[test]
fn validate_size_agrees_with_the_standard_number_reader() {
    let tokens = [
        "100x50", "0x600", "x", "", "10x", "x10", "+5x5", "-5x5", "5x-5", "١x5", "5x5 ", " 5x5",
        "4294967295x1", "4294967296x1", "1x2x3", "00x00", "1_0x10", "0x0", "5x+", "+x+",
    ];
    for token in tokens {
        let expected = match token.split_once('x') {
            Some((h, w)) => h.parse::<u32>().is_ok() && w.parse::<u32>().is_ok(),
            None => false,
        };
        assert_eq!(validate_size(&token), expected, "token {:?}", token);
        assert_eq!(parse_size(token).is_ok(), expected, "token {:?}", token);
    }
}

#[test]
fn lenient_reading_falls_back_to_128() {
    assert_eq!(sizes_or_default("nonsense"), (128, 128));
    assert_eq!(sizes_or_default(""), (128, 128));
    assert_eq!(sizes_or_default("abcx600"), (128, 500));
    assert_eq!(sizes_or_default("0xabc"), (1, 128));
    assert_eq!(sizes_or_default("x"), (128, 128));
    assert_eq!(sizes_or_default("64x32"), (64, 32));
}

#[test]
fn get_sizes_reads_the_size_token_leniently() {
    let spec = ImageSpecifications { format: "png", size: "0x600" };
    assert_eq!(spec.get_sizes(), (1, 500));
    let spec = ImageSpecifications { format: "png", size: "128x128" };
    assert_eq!(spec.get_sizes(), (128, 128));
    let spec = ImageSpecifications { format: "png", size: "wide" };
    assert_eq!(spec.get_sizes(), (128, 128));
    let spec = ImageSpecifications { format: "png", size: "7xwide" };
    assert_eq!(spec.get_sizes(), (7, 128));
}

#[test]
fn strict_and_lenient_readings_agree_on_size_tokens() {
    for token in ["1x1", "0x0", "500x500", "501x499", "+3x0004", "4294967295x2"] {
        assert!(validate_size(&token));
        assert_eq!(parse_size(token), Ok(sizes_or_default(token)));
    }
}

#[test]
fn every_size_read_lies_in_range() {
    for token in ["0x0", "1x1", "500x500", "9999x1", "nonsense", "x", "12xq", "qx12"] {
        let (h, w) = sizes_or_default(token);
        assert!((1..=500).contains(&h) && (1..=500).contains(&w));
        if let Ok((h, w)) = parse_size(token) {
            assert!((1..=500).contains(&h) && (1..=500).contains(&w));
        }
    }
}

#[test]
fn size_errors_share_one_message() {
    assert_eq!(SizeError::MissingSeparator.message(), "Invalid size qualifier");
    assert_eq!(SizeError::InvalidDimension.message(), "Invalid size qualifier");
}
