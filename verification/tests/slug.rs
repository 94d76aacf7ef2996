use ats::{sanitize_title, MAX_SLUG_CHARS};

#[test]
fn typical_title() {
    assert_eq!(
        sanitize_title("Senior Rust Engineer (Remote) — Acme Inc."),
        "senior-rust-engineer-remote-acme-inc"
    );
}

#[test]
fn collapses_whitespace_and_punctuation_runs() {
    assert_eq!(sanitize_title("  !!  Hello // World  !!  "), "hello-world");
}

#[test]
fn preserves_unicode_letters_lowercased() {
    let out = sanitize_title("Ingeniero de Software Sénior");
    assert_eq!(out, "ingeniero-de-software-sénior");
}

#[test]
fn long_title_truncated_at_char_boundary() {
    let raw = "a".repeat(120);
    let out = sanitize_title(&raw);
    assert!(out.chars().count() <= MAX_SLUG_CHARS);
    assert!(out.chars().all(|c| c == 'a'));
}

#[test]
fn multibyte_truncation_keeps_valid_utf8() {
    let raw = format!("{}{}{}", "a".repeat(58), 'é', "bbbb");
    let out = sanitize_title(&raw);
    assert!(out.chars().count() <= MAX_SLUG_CHARS);
    assert!(out.is_char_boundary(out.len()));
}

#[test]
fn truncation_drops_trailing_hyphen_from_cut() {
    let raw = format!("{}-extra", "a".repeat(60));
    let out = sanitize_title(&raw);
    assert!(!out.ends_with('-'), "got: {out}");
    assert!(out.chars().count() <= MAX_SLUG_CHARS);
}

#[test]
fn empty_input_falls_back_to_untitled() {
    assert_eq!(sanitize_title(""), "untitled");
}

#[test]
fn all_punctuation_falls_back_to_untitled() {
    assert_eq!(sanitize_title("  !!!  ---  @@@  "), "untitled");
}

#[test]
fn hyphen_runs_collapse_with_surrounding_whitespace() {
    assert_eq!(sanitize_title("foo -- bar"), "foo-bar");
}

#[test]
fn digits_are_preserved() {
    assert_eq!(sanitize_title("Rust 2024 Engineer"), "rust-2024-engineer");
}

#[test]
fn cut_inside_a_separator_leaves_no_hyphen() {
    let raw = format!("{} b", "a".repeat(59));
    assert_eq!(sanitize_title(&raw), "a".repeat(59));
    let raw = format!("{} b", "a".repeat(58));
    assert_eq!(sanitize_title(&raw), format!("{}-b", "a".repeat(58)));
}

#[test]
fn lowercase_mapping_of_several_characters() {
    // The small form of U+0130 is an `i` and a combining dot, which separates.
    assert_eq!(sanitize_title("İstanbul"), "i-stanbul");
    assert_eq!(sanitize_title("ÀÉÎ ß"), "àéî-ß");
}

#[test]
fn slugs_are_well_formed() {
    for raw in ["--a--b--", "A!B@C", "…", "日本語 エンジニア", "a - - b", "x\ty\nz"] {
        let out = sanitize_title(raw);
        assert!(!out.is_empty());
        assert!(!out.starts_with('-') && !out.ends_with('-') && !out.contains("--"), "{out}");
        assert!(out.chars().all(|c| c == '-' || c.is_alphanumeric()), "{out}");
        assert_eq!(sanitize_title(&out), out);
    }
}

#[test]
fn slug_is_its_own_slug_and_case_does_not_count() {
    for raw in ["Senior RUST Engineer!", "İstanbul ÀÉÎ", "…", "", "ΣΊΣΥΦΟΣ", "A-b_C"] {
        let out = sanitize_title(raw);
        assert_eq!(sanitize_title(&out), out);
        assert_eq!(sanitize_title(&raw.to_ascii_lowercase()), out);
    }
    assert_eq!(sanitize_title("untitled"), "untitled");
    assert_eq!(sanitize_title("Senior RUST Engineer!"), "senior-rust-engineer");
}

#[test]
fn lowercase_forms_stay() {
    for c in '\0'..=char::MAX {
        for low in c.to_lowercase() {
            assert!(low.to_lowercase().eq([low]), "{c:?}");
        }
    }
}

#[test]
fn every_single_letter_is_its_own_slug() {
    for c in '\0'..='\u{ffff}' {
        let out = sanitize_title(&c.to_string());
        assert_eq!(sanitize_title(&out), out, "{c:?}");
    }
}
