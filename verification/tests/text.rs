use just_llm_client::num::{format_decimal, format_hex_padded, parse_i32, parse_unsigned};
use just_llm_client::text::{split_lines, trim, trim_start};

#[test]
fn lines_follow_str_lines() {
    for s in ["", "a", "a\n", "a\r\nb", "a\n\nb\n", "\n", "x\r", "x\ry\n", "a\r\r\n"] {
        let expected: Vec<String> = s.lines().map(str::to_owned).collect();
        assert_eq!(split_lines(s), expected, "{s:?}");
    }
}

#[test]
fn trimming_follows_str_trim() {
    for s in ["  a b  ", "\u{3000}x\u{2029}", "\t\n", "", "none"] {
        assert_eq!(trim(s), s.trim());
        assert_eq!(trim_start(s), s.trim_start());
    }
}

#[test]
fn integer_parsing_follows_str_parse() {
    for s in ["0", "+7", "-12", "2147483647", "-2147483648", "2147483648", "", "-", "+", "1a", " 1", "+-1", "007"] {
        assert_eq!(parse_i32(s), s.parse::<i32>().ok(), "{s:?}");
    }
    assert_eq!(parse_unsigned("18446744073709551615", u64::MAX), Some(u64::MAX));
    assert_eq!(parse_unsigned("18446744073709551616", u64::MAX), None);
    assert_eq!(parse_unsigned("300", 255), None);
    assert_eq!(parse_unsigned("255", 255), Some(255));
}

#[test]
fn number_formatting() {
    assert_eq!(format_decimal(0), "0");
    assert_eq!(format_decimal(1234567890), "1234567890");
    assert_eq!(format_hex_padded(0, 8), "00000000");
    assert_eq!(format_hex_padded(0xbeef, 8), "0000beef");
    assert_eq!(format_hex_padded(0x123456789, 8), "123456789");
}
