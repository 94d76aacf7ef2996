use ats::text;

#[test]
fn white_space_is_that_of_the_standard_library() {
    for n in 0u32..=0x10ffff {
        if let Some(c) = char::from_u32(n) {
            assert_eq!(text::is_whitespace(c), c.is_whitespace(), "U+{n:04X}");
        }
    }
}

const SAMPLES: [&str; 9] = [
    "",
    " ",
    "abc",
    "  a b  c ",
    "\u{3000}x\u{85}",
    "é\n\tü\u{a0}",
    "a\u{200b}b",
    "\r\n",
    "one two\u{2028}three",
];

#[test]
fn trimming_and_tokens_are_those_of_the_standard_library() {
    for s in SAMPLES {
        assert_eq!(text::trim(s), s.trim());
        assert_eq!(text::trim_start(s), s.trim_start());
        assert_eq!(text::trim_end(s), s.trim_end());
        assert_eq!(text::is_blank(s), s.trim().is_empty());
        assert_eq!(text::split_words(s), s.split_whitespace().collect::<Vec<_>>());
        assert_eq!(text::to_ascii_lowercase(s), s.to_ascii_lowercase());
        assert_eq!(text::string_of(&text::chars_of(s)), s);
    }
    assert_eq!(text::to_ascii_lowercase("ÀBC[z"), "Àbc[z");
}

#[test]
fn occurrences_are_those_of_the_standard_library() {
    for s in ["", "a", "aab", "abab", "éaé", "aaab"] {
        for t in ["", "a", "b", "ab", "aab", "é", "éa", "bb", "aaaab"] {
            assert_eq!(text::contains(s, t), s.contains(t), "{s} {t}");
            assert_eq!(text::same_text(s, t), s == t);
        }
    }
}

#[test]
fn numerals() {
    for n in [0u64, 1, 9, 10, 99, 100, 65535, u64::MAX] {
        assert_eq!(text::decimal(n), n.to_string());
    }
    for n in [0u64, 7, 42, 2026, 9999] {
        assert_eq!(text::padded_decimal(n, 4), format!("{n:04}"));
    }
    for n in [0i32, -1, 7, -10, i32::MAX, i32::MIN] {
        assert_eq!(text::signed_decimal(n), n.to_string());
    }
}

#[test]
fn concatenations() {
    assert_eq!(text::concat2("a", "é"), "aé");
    assert_eq!(text::concat3("a", "", "b"), "ab");
    let parts = vec!["x".to_string(), "".to_string(), "y".to_string()];
    assert_eq!(text::join(&parts, ", "), parts.join(", "));
    assert_eq!(text::join(&vec![], "-"), "");
}

#[test]
fn snippets_end_with_an_ellipsis() {
    assert_eq!(text::snippet("héllo", 5), "héllo");
    assert_eq!(text::snippet("héllo", 4), "héll…");
    assert_eq!(text::snippet("x", 0), "…");
    assert_eq!(text::snippet("", 0), "");
}
