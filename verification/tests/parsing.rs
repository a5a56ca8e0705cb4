use chimera_mapper::numparse::{parse_prefixed_u32, parse_u16, parse_u8, u32_from_digits, IntErrorKind};

#[test]
fn decimal_and_hex_values() {
    assert_eq!(parse_u16("0x248a"), Ok(0x248a));
    assert_eq!(parse_u16("0X5B49"), Ok(0x5b49));
    assert_eq!(parse_u16("42"), Ok(42));
    assert_eq!(parse_u8("0x10"), Ok(0x10));
    assert_eq!(parse_u8("8"), Ok(8));
}

#[test]
fn white_space_around_a_value_is_ignored() {
    assert_eq!(parse_u16("  17\t\n"), Ok(17));
    assert_eq!(parse_u16("\u{3000}0x1f\u{a0}"), Ok(0x1f));
}

#[test]
fn a_plus_sign_is_accepted_like_std() {
    assert_eq!(parse_prefixed_u32("+5"), Ok(5));
    assert_eq!(parse_prefixed_u32("0x+ff"), Ok(255));
}

#[test]
fn invalid_digits_are_reported_with_the_trimmed_text() {
    assert_eq!(
        parse_u16(" abc "),
        Err("invalid integer value \"abc\": invalid digit found in string".to_string())
    );
    assert_eq!(
        parse_u16("0xzz"),
        Err("invalid hex value \"0xzz\": invalid digit found in string".to_string())
    );
    assert_eq!(
        parse_prefixed_u32("-5"),
        Err("invalid integer value \"-5\": invalid digit found in string".to_string())
    );
    assert_eq!(
        parse_prefixed_u32("+"),
        Err("invalid integer value \"+\": invalid digit found in string".to_string())
    );
}

#[test]
fn empty_text_is_reported() {
    assert_eq!(
        parse_u16(""),
        Err("invalid integer value \"\": cannot parse integer from empty string".to_string())
    );
    assert_eq!(
        parse_u16("0x"),
        Err("invalid hex value \"0x\": cannot parse integer from empty string".to_string())
    );
}

#[test]
fn overflow_is_reported() {
    assert_eq!(
        parse_prefixed_u32("4294967296"),
        Err("invalid integer value \"4294967296\": number too large to fit in target type".to_string())
    );
    assert_eq!(parse_prefixed_u32("4294967295"), Ok(u32::MAX));
    assert_eq!(
        parse_prefixed_u32("0x100000000"),
        Err("invalid hex value \"0x100000000\": number too large to fit in target type".to_string())
    );
    assert_eq!(
        parse_prefixed_u32("99999999999x"),
        Err("invalid integer value \"99999999999x\": number too large to fit in target type".to_string())
    );
}

#[test]
fn values_that_do_not_fit_quote_the_input() {
    assert_eq!(parse_u8(" 256"), Err("value \" 256\" does not fit into u8".to_string()));
    assert_eq!(parse_u16("0x10000"), Err("value \"0x10000\" does not fit into u16".to_string()));
}

#[test]
fn quoting_escapes_like_debug() {
    let expected = format!("invalid integer value {:?}: invalid digit found in string", "a\"b\\");
    assert_eq!(parse_u16("a\"b\\"), Err(expected));
}

#[test]
fn digits_follow_from_str_radix() {
    for text in ["0", "7", "65535", "+12", "12a", "", "+", "-", "4294967296", "ff"] {
        let ours = u32_from_digits(text, 10);
        let std_result = u32::from_str_radix(text, 10);
        assert_eq!(ours.is_ok(), std_result.is_ok(), "{text}");
        if let (Ok(a), Ok(b)) = (ours, std_result) {
            assert_eq!(a, b);
        }
    }
    assert_eq!(u32_from_digits("fF", 16), Ok(255));
    assert_eq!(u32_from_digits("g", 16), Err(IntErrorKind::InvalidDigit));
    assert_eq!(u32_from_digits("", 16), Err(IntErrorKind::Empty));
    assert_eq!(u32_from_digits("1ffffffff", 16), Err(IntErrorKind::PosOverflow));
}

#[test]
fn decimal_round_trip() {
    for v in [0u16, 1, 9, 10, 255, 4096, 65535] {
        assert_eq!(parse_u16(&v.to_string()), Ok(v));
    }
    for v in [0u32, 99, 65536, u32::MAX] {
        assert_eq!(parse_prefixed_u32(&v.to_string()), Ok(v));
    }
}

#[test]
fn bytes_round_trip_in_every_common_form() {
    for b in 0..=255u8 {
        assert_eq!(parse_u8(&format!("0x{:02x}", b)), Ok(b));
        assert_eq!(parse_u8(&format!("0X{:X}", b)), Ok(b));
        assert_eq!(parse_u8(&b.to_string()), Ok(b));
    }
}
