use codexbar::text::{
    byte_len, capitalize, comes_before, contains_text, decimal_of, eq_ignore_ascii_case, join,
    last_full_line, lines, parse_integer, same, signed_decimal_of, split_once, starts_with, strip_prefix,
    strip_suffix, titleize_word, trim, trim_char, trim_end_char, trim_quotes, words, WordKind,
};

#[test]
fn trimming_agrees_with_std() {
    for s in ["", " ", "  a b\t\n", "\u{3000}x\u{2003}", "\u{85}y\u{a0}", "\u{200b}z\u{200b}", "\u{feff}q", "é "] {
        assert_eq!(trim(s), s.trim(), "{s:?}");
    }
    for n in 0..0x3100u32 {
        if let Some(c) = char::from_u32(n) {
            let s = c.to_string();
            assert_eq!(trim(&s).is_empty(), s.trim().is_empty(), "{n:x}");
        }
    }
}

#[test]
fn lines_agree_with_std() {
    for s in ["", "\n", "a", "a\n", "a\nb", "a\r\nb\r\n", "a\r", "\r\n\r\n", "x\r\r\ny", "a\n\nb"] {
        assert_eq!(lines(s), s.lines().map(str::to_string).collect::<Vec<_>>(), "{s:?}");
    }
    assert_eq!(last_full_line("a\n b \n\n"), Some("b".to_string()));
    assert_eq!(last_full_line(" \n"), None);
}

#[test]
fn searching_agrees_with_std() {
    for (s, p) in [("", ""), ("abc", ""), ("abc", "bc"), ("abc", "d"), ("aab", "ab"), ("ab", "abc"), ("日本語", "本")] {
        assert_eq!(contains_text(s, p), s.contains(p));
        assert_eq!(starts_with(s, p), s.starts_with(p));
        assert_eq!(strip_prefix(s, p), s.strip_prefix(p).map(str::to_string));
        assert_eq!(strip_suffix(s, p), s.strip_suffix(p).map(str::to_string));
        assert_eq!(same(s, p), s == p);
        assert_eq!(comes_before(s, p), s < p);
        assert_eq!(comes_before(p, s), p < s);
        assert_eq!(eq_ignore_ascii_case(s, p), s.eq_ignore_ascii_case(p));
    }
    assert!(eq_ignore_ascii_case("CoDeX", "codex"));
    assert!(!eq_ignore_ascii_case("É", "é"));
}

#[test]
fn splitting_and_stripping_agree_with_std() {
    assert_eq!(split_once("a=b=c", '='), Some(("a".to_string(), "b=c".to_string())));
    assert_eq!(split_once("abc", '='), None);
    assert_eq!(trim_char("\"\"x\"", '"'), "\"\"x\"".trim_matches('"'));
    assert_eq!(trim_end_char("a//", '/'), "a");
    assert_eq!(trim_quotes("'\"key\"'"), "'\"key\"'".trim_matches(['\'', '"']));
    assert_eq!(join(&vec!["a".to_string(), "b".to_string()], " · "), "a · b");
    assert_eq!(join(&Vec::new(), ","), "");
}

#[test]
fn numbers_are_written_and_read() {
    for n in [0u128, 7, 10, 99, 1234567890, u128::MAX] {
        assert_eq!(decimal_of(n), n.to_string());
    }
    for n in [0i128, -1, 42, i64::MIN as i128] {
        assert_eq!(signed_decimal_of(n), n.to_string());
    }
    for s in [
        "0", "-0", "+7", "9223372036854775807", "9223372036854775808", "-9223372036854775808", "-9223372036854775809",
        "", "-", "+", "12a", " 1", "00012", "999999999999999999999999999999",
    ] {
        assert_eq!(parse_integer(s), s.parse::<i64>().ok(), "{s}");
    }
}

#[test]
fn words_and_case_follow_unicode() {
    assert_eq!(words("a_b--c d", WordKind::Unseparated), vec!["a", "b", "c", "d"]);
    assert_eq!(words("GPT-5 (beta)", WordKind::Alphanumeric), vec!["GPT", "5", "beta"]);
    assert_eq!(capitalize("ßtraße"), "SStraße");
    assert_eq!(capitalize(""), "");
    assert_eq!(titleize_word("ÉCOLE"), "École");
    assert_eq!(byte_len("é日"), 5);
}
