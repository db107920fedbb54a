use fleet_gateway::text;

#[test]
fn white_space_is_that_of_unicode() {
    for n in 0..=0x10_ffff_u32 {
        if let Some(c) = char::from_u32(n) {
            assert_eq!(text::is_white_space(c), c.is_whitespace(), "{n:x}");
        }
    }
}

#[test]
fn trimming() {
    for s in ["", " ", "a", " a", "a ", "\t a b \n", "\u{3000}x\u{a0}", "é \u{85}"] {
        assert_eq!(text::trim(s), s.trim());
        assert_eq!(text::is_blank(s), s.trim().is_empty());
    }
}

#[test]
fn splitting() {
    assert_eq!(text::split_trimmed("a, b ,,c", ','), vec!["a", "b", "", "c"]);
    assert_eq!(text::split_trimmed("", ','), vec![""]);
    assert_eq!(text::split_trimmed(",", ','), vec!["", ""]);
    assert_eq!(text::split_trimmed(" é ", ','), vec!["é"]);
}

#[test]
fn trailing_characters() {
    assert_eq!(text::trim_trailing("http://x//", '/'), "http://x");
    assert_eq!(text::trim_trailing("///", '/'), "");
    assert_eq!(text::trim_trailing("", '/'), "");
    assert_eq!(text::trim_trailing("/a", '/'), "/a");
}

#[test]
fn numbers() {
    for s in [
        "0", "7", "+7", "007", "18446744073709551615", "18446744073709551616", "99999999999999999999999",
        "", "+", "-0", "-1", " 1", "1 ", "1.5", "++1", "1+", "٣", "12a",
    ] {
        assert_eq!(text::parse_number(s), s.parse::<u64>().ok(), "{s}");
    }
}

#[test]
fn decimal_numbers_read_back() {
    for n in [0, 1, 9, 10, 99, 100, 1_234_567_890, u64::MAX] {
        let mut out = String::from("n=");
        text::push_decimal(&mut out, n);
        assert_eq!(out, format!("n={n}"));
        assert_eq!(text::parse_number(&out[2..]), Some(n));
    }
    let mut out = String::new();
    text::push_decimal_option(&mut out, None);
    text::push_decimal_option(&mut out, Some(42));
    assert_eq!(out, "NoneSome(42)");
}

#[test]
fn comparison() {
    assert!(text::same_text("", ""));
    assert!(text::same_text("é", "é"));
    assert!(!text::same_text("a", "A"));
    assert!(!text::same_text("a", "ab"));
    assert_eq!(text::to_chars("aé—"), vec!['a', 'é', '—']);
}
