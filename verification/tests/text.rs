use usedns::text::{
    chars_of, contains_chars, decimal_string, eq_ignore_ascii_case_chars, is_whitespace,
    lines_chars, parse_u32_chars, replace_str, split_chars, str_contains, str_eq, trim_str,
};

fn s(v: &[char]) -> String {
    v.iter().collect()
}

#[test]
fn whitespace_matches_std() {
    for code in 0u32..0x3100 {
        if let Some(c) = char::from_u32(code) {
            assert_eq!(is_whitespace(c), c.is_whitespace(), "U+{code:04X}");
        }
    }
    for c in ['\u{FEFF}', '\u{180E}', '\u{200B}', '\u{3000}', '\u{205F}'] {
        assert_eq!(is_whitespace(c), c.is_whitespace());
    }
}

#[test]
fn trim_matches_std() {
    for text in [
        "",
        "  ",
        " a ",
        "\u{3000}x y\u{2028}",
        "\t\r\n1.1.1.1\r\n",
        "abc",
        "\u{A0}\u{85}z",
    ] {
        assert_eq!(trim_str(text), text.trim());
    }
}

#[test]
fn split_matches_std() {
    for text in ["", "a", "a,b", "1.1.1.1, 1.0.0.1", ",;a b\tc,", "  "] {
        let expected: Vec<&str> = text.split([',', ';', ' ', '\t']).collect();
        let got: Vec<String> = split_chars(&chars_of(text), &[',', ';', ' ', '\t'])
            .iter()
            .map(|v| s(v))
            .collect();
        assert_eq!(got, expected);
    }
}

#[test]
fn lines_match_std() {
    for text in ["", "a", "a\n", "a\r\nb\r\n", "\n\nx", "a\rb\n\r", "x\r\r\n"] {
        let expected: Vec<&str> = text.lines().collect();
        let got: Vec<String> = lines_chars(&chars_of(text)).iter().map(|v| s(v)).collect();
        assert_eq!(got, expected, "{text:?}");
    }
}

#[test]
fn replace_matches_std() {
    for (text, from, to) in [
        ("it's", "'", "''"),
        ("''", "'", "''"),
        ("aaaa", "aa", "b"),
        ("__A__ __A__", "__A__", "x"),
        ("none", "z", "y"),
        ("", "a", "b"),
    ] {
        assert_eq!(replace_str(text, from, to), text.replace(from, to));
    }
}

#[test]
fn contains_and_equality() {
    assert!(str_contains("AppsUseLightTheme    REG_DWORD    0x0", "0x0"));
    assert!(!str_contains("0x1", "0x0"));
    assert!(str_contains("abc", ""));
    assert!(contains_chars(&chars_of("hello"), &chars_of("llo")));
    assert!(!contains_chars(&chars_of("he"), &chars_of("hello")));
    assert!(str_eq("id", "id"));
    assert!(!str_eq("id", "en"));
    assert!(eq_ignore_ascii_case_chars(&chars_of("2A10::AD1"), &chars_of("2a10::ad1")));
    assert!(!eq_ignore_ascii_case_chars(&chars_of("É"), &chars_of("é")));
}

#[test]
fn number_text() {
    for text in ["0", "7", "+12", "4294967295", "4294967296", "", "+", "-1", "12a", "007", " 1"] {
        assert_eq!(parse_u32_chars(&chars_of(text)), text.parse::<u32>().ok(), "{text:?}");
    }
    for n in [0u128, 9, 10, 1234567890123, u128::MAX] {
        assert_eq!(decimal_string(n), n.to_string());
    }
}
