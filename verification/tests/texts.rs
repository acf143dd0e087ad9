use gaze::text::{
    contains, decimal, find, hex4, leading_digits, parse_unsigned, split_once, starts_with,
    str_eq, strip_prefix, trim, unquote, upper_eq,
};

const TEXTS: [&str; 9] = [
    "",
    " ",
    "  a b  ",
    "\u{2003}\u{85}x\u{3000}\r\n",
    "\u{200b}x\u{200b}",
    "a:b:c",
    "ünï cödé",
    "\u{feff}",
    "\u{180e}y",
];

#[test]
fn texts_are_trimmed_as_std_does() {
    for text in TEXTS {
        assert_eq!(trim(text), text.trim(), "{text:?}");
    }
    for code in 0..0x3100u32 {
        if let Some(c) = char::from_u32(code) {
            let text = format!("{c}x{c}");
            assert_eq!(trim(&text), text.trim(), "{code:x}");
        }
    }
}

#[test]
fn texts_are_searched_as_std_does() {
    for text in TEXTS {
        for needle in ["", "a", "b:", " ", "ö", "xyz"] {
            assert_eq!(contains(text, needle), text.contains(needle));
            assert_eq!(starts_with(text, needle), text.starts_with(needle));
            assert_eq!(strip_prefix(text, needle), text.strip_prefix(needle));
            assert_eq!(
                find(text, needle),
                text.find(needle).map(|i| text[..i].chars().count())
            );
            assert_eq!(str_eq(text, needle), text == needle);
        }
        assert_eq!(split_once(text, ':'), text.split_once(':'));
    }
}

#[test]
fn numbers_are_read_as_std_reads_them() {
    for text in [
        "0", "7", "+7", "-7", "007", "255", "256", "65535", "65536", "4294967295", "4294967296",
        "18446744073709551615", "18446744073709551616", "99999999999999999999999", "", "+", " 1",
        "1a", "ff", "٣",
    ] {
        assert_eq!(
            parse_unsigned(text, 10, u8::MAX as u64),
            text.parse::<u8>().ok().map(|n| n as u64),
            "{text:?}"
        );
        assert_eq!(
            parse_unsigned(text, 10, u32::MAX as u64),
            text.parse::<u32>().ok().map(|n| n as u64),
            "{text:?}"
        );
        assert_eq!(
            parse_unsigned(text, 10, u64::MAX),
            text.parse::<u64>().ok(),
            "{text:?}"
        );
        assert_eq!(
            parse_unsigned(text, 16, u16::MAX as u64),
            u16::from_str_radix(text, 16).ok().map(|n| n as u64),
            "{text:?}"
        );
    }
}

#[test]
fn numbers_are_written_as_std_writes_them() {
    for n in [0u64, 9, 10, 101, 65_536, u64::MAX] {
        assert_eq!(decimal(n), n.to_string());
    }
    for n in [0u16, 10, 0xabc, 0xffff, 0x46d] {
        assert_eq!(hex4(n), format!("{n:04x}"));
    }
}

#[test]
fn quotes_digits_and_cases() {
    assert_eq!(unquote("\"'a'b\"'"), "a'b");
    assert_eq!(unquote("''"), "");
    assert_eq!(leading_digits("12x3"), 2);
    assert_eq!(leading_digits("x"), 0);
    assert!(upper_eq("gRay8", "GRAY8"));
    assert!(!upper_eq("ß", "SS"));
    assert!(!upper_eq("ä", "Ä"));
}
