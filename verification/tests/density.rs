use ats::density::{map_band, measure, total_matches, DensityBand};
use ats::domain::{HardSkill, JobTitle, KeywordSet, SoftSkill};

fn hard(term: &str) -> HardSkill {
    HardSkill {
        primary_term: term.into(),
        acronym: String::new(),
        semantic_cluster: String::new(),
        importance_score: 1,
    }
}

fn one_term_kw(term: &str) -> KeywordSet {
    KeywordSet { hard_skills_and_tools: vec![hard(term)], ..Default::default() }
}

fn words(n: usize, word: &str) -> String {
    vec![word; n].join(" ")
}

#[test]
fn map_band_boundaries() {
    assert_eq!(map_band(19, 1000), DensityBand::Low);
    assert_eq!(map_band(2, 100), DensityBand::Silent);
    assert_eq!(map_band(29, 1000), DensityBand::Silent);
    assert_eq!(map_band(3, 100), DensityBand::Informational);
    assert_eq!(map_band(5, 100), DensityBand::Informational);
    assert_eq!(map_band(500_001, 10_000_000), DensityBand::Over);
}

#[test]
fn bands_agree_with_the_quotient() {
    for denominator in 1u32..400 {
        for numerator in 0u32..40 {
            let d = numerator as f32 / denominator as f32;
            let expected = if d < 0.02 {
                DensityBand::Low
            } else if d < 0.03 {
                DensityBand::Silent
            } else if d <= 0.05 {
                DensityBand::Informational
            } else {
                DensityBand::Over
            };
            assert_eq!(map_band(numerator, denominator), expected, "{numerator}/{denominator}");
        }
    }
    assert_eq!(map_band(u32::MAX, u32::MAX), DensityBand::Over);
    assert_eq!(map_band(0, u32::MAX), DensityBand::Low);
}

#[test]
fn more_matches_never_lower_the_band() {
    let rank = |b: DensityBand| match b {
        DensityBand::Low => 0,
        DensityBand::Silent => 1,
        DensityBand::Informational => 2,
        DensityBand::Over => 3,
    };
    for n in 0u32..30 {
        assert!(rank(map_band(n, 200)) <= rank(map_band(n + 1, 200)));
        assert!(rank(map_band(n, 201)) <= rank(map_band(n, 200)));
    }
}

#[test]
fn dedupes_primary_terms_across_categories_case_insensitively() {
    let set = KeywordSet {
        hard_skills_and_tools: vec![hard("rust")],
        soft_skills_and_competencies: vec![SoftSkill {
            primary_term: "RUST".into(),
            semantic_cluster: String::new(),
            importance_score: 1,
        }],
        industry_specific_terminology: vec![],
        certifications_and_credentials: vec![],
        job_titles_and_seniority: vec![],
    };
    let md = "Professional Rust work.";
    let r = measure(md, &set);
    assert_eq!(r.numerator, 1, "one keyword appearance should not be double-counted");
}

#[test]
fn density_low_band() {
    let md = format!("{} kw", words(200, "a"));
    let r = measure(&md, &one_term_kw("kw"));
    assert_eq!(r.denominator, 201);
    assert_eq!(r.numerator, 1);
    assert!((r.numerator as f32 / r.denominator as f32) < 0.02);
    assert_eq!(map_band(r.numerator, r.denominator), DensityBand::Low);
}

#[test]
fn density_silent_band_no_tracing_beyond_eprint() {
    let md = format!("{} kw kw", words(98, "a"));
    let r = measure(&md, &one_term_kw("kw"));
    assert_eq!(r.denominator, 100, "got {}", r.denominator);
    assert_eq!(r.numerator, 2);
    let band = map_band(r.numerator, r.denominator);
    assert_eq!(band, DensityBand::Silent);
    assert_eq!(band.event(), None);
}

#[test]
fn density_informational_band() {
    let md = format!("{} kw kw kw", words(97, "a"));
    let r = measure(&md, &one_term_kw("kw"));
    assert_eq!(r.denominator, 100);
    assert_eq!(r.numerator, 3);
    assert_eq!(map_band(r.numerator, r.denominator), DensityBand::Informational);
}

#[test]
fn density_over_ceiling() {
    let md = format!("{} {}", words(94, "a"), words(6, "kw"));
    let r = measure(&md, &one_term_kw("kw"));
    assert_eq!(r.denominator, 100);
    assert_eq!(r.numerator, 6);
    assert_eq!(map_band(r.numerator, r.denominator), DensityBand::Over);
}

#[test]
fn denominator_zero() {
    let r = measure("", &one_term_kw("x"));
    assert_eq!(r.denominator, 0);
    assert_eq!(r.numerator, 0);
    assert_eq!(map_band(r.numerator, r.denominator), DensityBand::Low);
}

#[test]
fn multibyte_term_matches() {
    let set = one_term_kw("世界");
    let md = "你好 世界 世界 其他";
    let r = measure(md, &set);
    assert_eq!(r.numerator, 2);
    assert!(r.denominator >= 4);
}

#[test]
fn terms_are_literal_and_whole_words() {
    // The dot is no wildcard, and a term does not match inside a longer word.
    let r = measure("a.b axb a.bc A.B", &one_term_kw("a.b"));
    assert_eq!((r.numerator, r.denominator), (2, 4));
    // What follows the term may be anything but a word character.
    assert_eq!(measure("c++ c++x", &one_term_kw("c++")).numerator, 1);
    let all = r"\.+*?()|[]{}^$#&-~";
    let text = format!("x{all}x");
    assert_eq!(measure(&text, &one_term_kw(&text)).numerator, 1);
}

#[test]
fn blank_terms_and_wordless_tokens_do_not_count() {
    let set = KeywordSet {
        hard_skills_and_tools: vec![hard("  "), hard(" Rust "), hard("rust"), hard("")],
        job_titles_and_seniority: vec![JobTitle {
            primary_term: "Engineer".into(),
            importance_score: 1,
        }],
        ..Default::default()
    };
    let r = measure("* Rust — engineer -- RUST !", &set);
    assert_eq!((r.numerator, r.denominator), (3, 3));
}

#[test]
fn band_events() {
    assert_eq!(DensityBand::Low.event(), Some("density.low"));
    assert_eq!(DensityBand::Informational.event(), Some("density.informational_upper"));
    assert_eq!(DensityBand::Over.event(), Some("density.over_ceiling"));
    assert!(DensityBand::Low.is_warning() && DensityBand::Over.is_warning());
    assert!(!DensityBand::Silent.is_warning() && !DensityBand::Informational.is_warning());
}

#[test]
fn terms_may_start_or_end_with_a_sign() {
    let r = measure("Senior C++ developer", &one_term_kw("C++"));
    assert_eq!((r.numerator, r.denominator), (1, 3));
    assert_eq!(measure("C#, c# and C#x; AC#", &one_term_kw("C#")).numerator, 2);
    assert_eq!(measure(".NET on .net, not ASP.NET", &one_term_kw(".NET")).numerator, 2);
    assert_eq!(measure("C++", &one_term_kw("C++")).numerator, 1);
}

#[test]
fn counts_are_added_up_to_the_largest_number() {
    assert_eq!(total_matches(&vec![]), 0);
    assert_eq!(total_matches(&vec![Some(2), None, Some(3)]), 5);
    assert_eq!(total_matches(&vec![Some(u32::MAX as usize), Some(1), None]), u32::MAX);
}
