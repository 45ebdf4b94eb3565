use progcalc::radix::{
    digit_char_of, digit_value_of, format_signed, format_unsigned, group_by_four, parse_u64,
    str_eq, to_ascii_upper,
};

#[test]
fn formats_in_each_radix() {
    assert_eq!(format_unsigned(0, 16), "0");
    assert_eq!(format_unsigned(255, 16), "FF");
    assert_eq!(format_unsigned(255, 10), "255");
    assert_eq!(format_unsigned(8, 8), "10");
    assert_eq!(format_unsigned(5, 2), "101");
    assert_eq!(format_unsigned(u64::MAX, 16), "FFFFFFFFFFFFFFFF");
    assert_eq!(format_unsigned(u64::MAX, 10), "18446744073709551615");
}

#[test]
fn formats_signed() {
    assert_eq!(format_signed(0), "0");
    assert_eq!(format_signed(-42), "-42");
    assert_eq!(format_signed(i64::MAX), "9223372036854775807");
    assert_eq!(format_signed(i64::MIN), "-9223372036854775808");
}

#[test]
fn parses_like_from_str_radix() {
    let cases = ["0", "FF", "ff", "+1A", "", "+", "-1", "G", "12 ", "FFFFFFFFFFFFFFFF", "10000000000000000", "0000000000000000000001"];
    for c in cases.iter() {
        assert_eq!(parse_u64(c, 16), u64::from_str_radix(c, 16).ok(), "case {:?}", c);
    }
    for c in ["", "0", "9", "A", "18446744073709551615", "18446744073709551616", "+7"].iter() {
        assert_eq!(parse_u64(c, 10), u64::from_str_radix(c, 10).ok(), "case {:?}", c);
    }
    for c in ["101", "2", "1111111111111111111111111111111111111111111111111111111111111111"].iter() {
        assert_eq!(parse_u64(c, 2), u64::from_str_radix(c, 2).ok(), "case {:?}", c);
    }
    assert_eq!(parse_u64("z", 36), Some(35));
}

#[test]
fn format_then_parse_gives_the_number_back() {
    for &n in [0u64, 1, 7, 255, 4096, 0xDEAD_BEEF, u64::MAX].iter() {
        for &r in [2u32, 8, 10, 16].iter() {
            assert_eq!(parse_u64(&format_unsigned(n, r), r), Some(n));
        }
    }
}

#[test]
fn groups_of_four() {
    assert_eq!(group_by_four(""), "");
    assert_eq!(group_by_four("1"), "1");
    assert_eq!(group_by_four("1234"), "1234");
    assert_eq!(group_by_four("12345"), "1 2345");
    assert_eq!(group_by_four("123456789"), "1 2345 6789");
    assert_eq!(group_by_four("12345678"), "1234 5678");
    assert_eq!(group_by_four("1234 5678").replace(' ', ""), "12345678");
}

#[test]
fn characters() {
    assert_eq!(to_ascii_upper('a'), 'A');
    assert_eq!(to_ascii_upper('z'), 'Z');
    assert_eq!(to_ascii_upper('A'), 'A');
    assert_eq!(to_ascii_upper('+'), '+');
    assert_eq!(to_ascii_upper('é'), 'é');
    assert_eq!(digit_char_of(0), '0');
    assert_eq!(digit_char_of(9), '9');
    assert_eq!(digit_char_of(10), 'A');
    assert_eq!(digit_char_of(15), 'F');
    assert_eq!(digit_value_of('f', 16), Some(15));
    assert_eq!(digit_value_of('F', 16), Some(15));
    assert_eq!(digit_value_of('8', 8), None);
    assert_eq!(digit_value_of('-', 16), None);
    assert!(str_eq("ADD", "ADD"));
    assert!(!str_eq("ADD", "AD"));
    assert!(!str_eq("ADD", "ADC"));
}
