use rustmail::text::{
    byte_len, chars_of, ellipsize, find, hex6, i64_to_string, is_whitespace, parse_u64,
    parse_u64_radix, push_decimal, starts_with, str_eq, strip_prefix, trim, u64_to_string,
};

#[test]
fn decimal_of_zero_and_large_numbers() {
    assert_eq!(u64_to_string(0), "0");
    assert_eq!(u64_to_string(7), "7");
    assert_eq!(u64_to_string(1234567890), "1234567890");
    assert_eq!(u64_to_string(u64::MAX), "18446744073709551615");
}

#[test]
fn decimal_of_signed_numbers() {
    assert_eq!(i64_to_string(0), "0");
    assert_eq!(i64_to_string(-42), "-42");
    assert_eq!(i64_to_string(42), "42");
    assert_eq!(i64_to_string(i64::MIN), "-9223372036854775808");
    assert_eq!(i64_to_string(i64::MAX), "9223372036854775807");
}

#[test]
fn push_decimal_appends() {
    let mut s = String::from("id=");
    push_decimal(&mut s, 305);
    assert_eq!(s, "id=305");
}

#[test]
fn hex6_pads_to_six_upper_case_digits() {
    assert_eq!(hex6(0x5865F2), "5865F2");
    assert_eq!(hex6(0xff), "0000FF");
    assert_eq!(hex6(0), "000000");
    assert_eq!(hex6(0x1234567), "1234567");
    assert_eq!(hex6(0xabcdef), format!("{:06X}", 0xabcdefu32));
}

#[test]
fn chars_of_lists_the_characters() {
    assert_eq!(chars_of("aé🔵"), vec!['a', 'é', '🔵']);
    assert!(chars_of("").is_empty());
}

#[test]
fn whitespace_follows_std() {
    for c in [' ', '\t', '\n', '\r', '\u{a0}', '\u{2003}', '\u{3000}'] {
        assert!(is_whitespace(c));
        assert_eq!(is_whitespace(c), c.is_whitespace());
    }
    for c in ['a', '0', '_', '・'] {
        assert!(!is_whitespace(c));
    }
    for u in 0u32..0x3100 {
        if let Some(c) = char::from_u32(u) {
            assert_eq!(is_whitespace(c), c.is_whitespace());
        }
    }
}

#[test]
fn trim_removes_surrounding_whitespace() {
    assert_eq!(trim("  a b \t\n"), "a b");
    assert_eq!(trim("\u{3000}x\u{a0}"), "x");
    assert_eq!(trim("   "), "");
    assert_eq!(trim(""), "");
}

#[test]
fn trim_twice_is_trim_once() {
    for s in ["  hi  ", "\n\tx y\r\n", "", "plain", " \u{2003} a"] {
        assert_eq!(trim(trim(s)), trim(s));
    }
}

#[test]
fn find_gives_first_index_or_length() {
    let v = chars_of("ab:cd:e");
    assert_eq!(find(&v, ':'), 2);
    assert_eq!(find(&v, 'z'), 7);
    assert_eq!(find(&Vec::new(), ':'), 0);
}

#[test]
fn prefixes() {
    assert!(starts_with("command:logs", "command:"));
    assert!(starts_with("abc", ""));
    assert!(!starts_with("com", "command:"));
    assert_eq!(strip_prefix("command:abc", "command:"), Some("abc"));
    assert_eq!(strip_prefix("command:", "command:"), Some(""));
    assert_eq!(strip_prefix("ticket:abc", "command:"), None);
}

#[test]
fn parse_u64_reads_like_from_str_radix() {
    assert_eq!(parse_u64("12"), Some(12));
    assert_eq!(parse_u64("+12"), Some(12));
    assert_eq!(parse_u64("007"), Some(7));
    assert_eq!(parse_u64(""), None);
    assert_eq!(parse_u64("+"), None);
    assert_eq!(parse_u64("-1"), None);
    assert_eq!(parse_u64("1 "), None);
    assert_eq!(parse_u64("18446744073709551615"), Some(u64::MAX));
    assert_eq!(parse_u64("18446744073709551616"), None);
    assert_eq!(parse_u64_radix("ff", 16), Some(255));
    assert_eq!(parse_u64_radix("FF", 16), Some(255));
    assert_eq!(parse_u64_radix("#FF", 16), None);
    assert_eq!(parse_u64_radix("g", 16), None);
    assert_eq!(parse_u64_radix("101", 2), Some(5));
    assert_eq!(parse_u64_radix("zz", 36), Some(36 * 36 - 1));
    for (s, r) in [("5865F2", 16u32), ("777", 8), ("0", 10), ("+ab", 16)] {
        assert_eq!(parse_u64_radix(s, r as u64), u64::from_str_radix(s, r).ok());
    }
}

#[test]
fn decimal_round_trip() {
    for n in [0u64, 1, 9, 10, 99, 100, 4096, 1234567890123, u64::MAX] {
        assert_eq!(parse_u64(&u64_to_string(n)), Some(n));
    }
}

#[test]
fn hex_round_trip() {
    for n in [0u32, 1, 0xff, 0x5865F2, 0xED4245, 0xffffff] {
        assert_eq!(parse_u64_radix(&hex6(n), 16), Some(n as u64));
    }
}

#[test]
fn byte_len_counts_utf8_bytes() {
    assert_eq!(byte_len(""), 0);
    assert_eq!(byte_len("abc"), 3);
    assert_eq!(byte_len("é"), 2);
    assert_eq!(byte_len("🔵"), 4);
}

#[test]
fn ellipsize_cuts_long_text() {
    assert_eq!(ellipsize("abcdef", 3), "abc...");
    assert_eq!(ellipsize("abc", 3), "abc");
    assert_eq!(ellipsize("", 0), "");
    assert_eq!(ellipsize("éé", 2), "é...");
    assert_eq!(ellipsize("éé", 4), "éé");
}

#[test]
fn string_equality() {
    assert!(str_eq("abc", "abc"));
    assert!(str_eq("", ""));
    assert!(!str_eq("abc", "abd"));
    assert!(!str_eq("abc", "ab"));
}
