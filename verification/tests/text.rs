use directmessages::text::{
    blank, chars_of, decimal_text, digit, hexadecimal, is_before, join, lower, parse_port, same,
    text_of, trim, trim_end, white,
};

#[test]
fn white_space_is_unicode_white_space() {
    for n in 0..=0x3100u32 {
        if let Some(c) = char::from_u32(n) {
            assert_eq!(white(c), c.is_whitespace(), "{n:x}");
        }
    }
}

#[test]
fn texts_are_trimmed_as_std_trims_them() {
    for text in ["", " ", "a", " a ", "\t a b \u{2003}\n", "\u{85}x\u{3000}", "  "] {
        assert_eq!(trim(text), text.trim());
        assert_eq!(trim_end(text), text.trim_end());
        assert_eq!(blank(text), text.trim().is_empty());
    }
}

#[test]
fn ports_are_parsed_as_std_parses_them() {
    for text in [
        "", "0", "1", "65535", "65536", "00080", "+80", "+", "-1", "8 0", " 80", "12a", "٣",
        "99999999999999999999999", "++1", "+00000000065535",
    ] {
        assert_eq!(parse_port(text), text.parse::<u16>().ok(), "{text}");
    }
}

#[test]
fn numbers_are_written_in_decimal() {
    for n in [0u64, 7, 10, 99, 100, 65535, 4_294_967_296, u64::MAX] {
        assert_eq!(decimal_text(n), n.to_string());
    }
}

#[test]
fn texts_are_ordered_as_std_orders_them() {
    let texts = ["", "a", "ab", "b", "B", "10.0.0.1", "10.0.0.10", "é", "日", "🦀", "\u{ffff}"];
    for a in texts {
        for b in texts {
            assert_eq!(is_before(a, b), a < b, "{a} {b}");
            assert_eq!(same(a, b), a == b);
        }
    }
}

#[test]
fn digits_of_both_cases() {
    for c in ['0', '9', 'a', 'f', 'g', 'A', 'F', 'G', '/', ':', '`', '@', 'é'] {
        assert_eq!(digit(c), c.is_ascii_digit());
        assert_eq!(hexadecimal(c), c.is_ascii_hexdigit());
    }
    for c in ['0', 'a', 'A', 'F'] {
        assert_eq!(lower(c), c.to_ascii_lowercase());
    }
}

#[test]
fn texts_are_taken_apart_and_joined() {
    let chars = chars_of("añb");
    assert_eq!(chars, ['a', 'ñ', 'b']);
    assert_eq!(text_of(&chars, 1, 3), "ñb");
    assert_eq!(join("a", "b"), "ab");
}
