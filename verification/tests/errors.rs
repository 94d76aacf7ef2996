use ats::ports::{LlmError, PdfError};
use ats::scrape_port::ScrapeError;
use ats::{AtsError, LlmClass, ScrapeClass, YamlDiag};

fn diag(path: Option<&str>, reason: &str, line: Option<usize>, column: Option<usize>) -> YamlDiag {
    YamlDiag { path: path.map(|p| p.to_string()), reason: reason.to_string(), line, column }
}

#[test]
fn exit_codes_match_locked_scheme() {
    let cases: Vec<(AtsError, i32)> = vec![
        (AtsError::Config("x".into()), 2),
        (AtsError::Yaml(diag(Some("cv"), "bad", None, None)), 3),
        (AtsError::Scrape(ScrapeClass::NotFound), 4),
        (AtsError::Llm(LlmClass::Transient("x".into())), 5),
        (AtsError::SchemaInvalid("x".into()), 6),
        (AtsError::Pdf("x".into()), 7),
        (AtsError::Io("x".into()), 1),
        (AtsError::Other("x".into()), 1),
    ];
    for (err, expected) in &cases {
        assert_eq!(
            err.exit_code(),
            *expected,
            "variant {err:?} should map to exit code {expected}"
        );
    }
}

#[test]
fn class_tags_are_stable() {
    assert_eq!(AtsError::Config("".into()).class(), "config");
    assert_eq!(AtsError::Other("".into()).class(), "other");
    assert_eq!(AtsError::SchemaInvalid("x".into()).class(), "schema-invalid");
}

#[test]
fn every_class_tag() {
    assert_eq!(AtsError::Yaml(diag(None, "r", None, None)).class(), "yaml");
    assert_eq!(AtsError::Scrape(ScrapeClass::Offline).class(), "scrape");
    assert_eq!(AtsError::Llm(LlmClass::Auth("k".into())).class(), "llm");
    assert_eq!(AtsError::Pdf("p".into()).class(), "pdf");
    assert_eq!(AtsError::Io("i".into()).class(), "io");
}

#[test]
fn messages_carry_their_prefix() {
    assert_eq!(AtsError::Config("c".into()).to_string(), "config error: c");
    assert_eq!(
        AtsError::Yaml(diag(Some("cv"), "bad", Some(2), None)).to_string(),
        "yaml error: cv: bad (line 2)"
    );
    assert_eq!(AtsError::Scrape(ScrapeClass::Http(418)).to_string(), "scrape error: http 418");
    assert_eq!(
        AtsError::Scrape(ScrapeClass::BrowserMissing("no".into())).to_string(),
        "scrape error: browser-missing: no"
    );
    assert_eq!(
        AtsError::Llm(LlmClass::ContextExceeded("m".into())).to_string(),
        "llm error: context-exceeded: m"
    );
    assert_eq!(AtsError::Llm(LlmClass::Other("m".into())).to_string(), "llm error: llm-other: m");
    assert_eq!(AtsError::SchemaInvalid("s".into()).to_string(), "schema validation failed: s");
    assert_eq!(AtsError::Io("i".into()).to_string(), "io error: i");
    assert_eq!(AtsError::Other("o".into()).to_string(), "o");
    assert_eq!(
        AtsError::from_pdf(PdfError::Render("boom".into())).to_string(),
        "pdf error: render: boom"
    );
    let from: AtsError = diag(None, "r", None, None).into();
    assert_eq!(from.exit_code(), 3);
}

#[test]
fn yaml_diag_renders_position_when_present() {
    let diag = diag(Some("cv.work_experience[0].start_date"), "expected string", Some(12), Some(5));
    let rendered = diag.to_string();
    assert!(rendered.contains("cv.work_experience[0].start_date"));
    assert!(rendered.contains("line 12"));
    assert!(rendered.contains("column 5"));
}

#[test]
fn yaml_diag_omits_position_when_absent() {
    let diag = diag(Some("cv"), "bad", None, None);
    let rendered = diag.to_string();
    assert!(!rendered.contains("line"));
    assert!(!rendered.contains("column"));
}

#[test]
fn yaml_diag_without_path_emits_reason_only() {
    let diag = diag(None, "invalid YAML syntax", Some(3), Some(1));
    let rendered = diag.to_string();
    assert_eq!(rendered, "invalid YAML syntax (line 3, column 1)");
}

#[test]
fn yaml_diag_column_without_line_is_not_shown() {
    assert_eq!(diag(None, "r", None, Some(4)).to_string(), "r");
}

#[test]
fn scrape_error_maps_to_expected_class() {
    let cases: Vec<(ScrapeError, ScrapeClass)> = vec![
        (ScrapeError::Offline("dns".into()), ScrapeClass::Offline),
        (ScrapeError::NetworkTimeout("reset".into()), ScrapeClass::NetworkTimeout),
        (ScrapeError::Timeout("idle".into()), ScrapeClass::Timeout),
        (ScrapeError::AuthRequired { status: 401 }, ScrapeClass::AuthRequired),
        (ScrapeError::NotFound { status: 404 }, ScrapeClass::NotFound),
        (ScrapeError::GeoBlocked { status: 451 }, ScrapeClass::GeoBlocked),
        (ScrapeError::Http { status: 418 }, ScrapeClass::Http(418)),
    ];
    for (err, expected) in &cases {
        let class: ScrapeClass = err.clone().into();
        assert_eq!(class, *expected, "{err:?}");
    }
}

#[test]
fn class_tag_is_stable_for_browser_missing_and_other() {
    assert_eq!(
        ScrapeClass::from(ScrapeError::BrowserMissing("Chrome gone".into())).class_tag(),
        "browser-missing"
    );
    assert_eq!(ScrapeClass::from(ScrapeError::Other("something".into())).class_tag(), "other");
}

#[test]
fn http_class_tag_embeds_status() {
    assert_eq!(ScrapeClass::from(ScrapeError::Http { status: 418 }).class_tag(), "http-418");
}

#[test]
fn scrape_error_messages() {
    assert_eq!(ScrapeError::Offline("x".into()).to_string(), "offline: x");
    assert_eq!(ScrapeError::Timeout("x".into()).to_string(), "scrape/timeout: x");
    assert_eq!(
        ScrapeError::AuthRequired { status: 403 }.to_string(),
        "auth-required (status 403)"
    );
    assert_eq!(ScrapeError::NotFound { status: 404 }.to_string(), "not-found (status 404)");
    assert_eq!(ScrapeError::GeoBlocked { status: 451 }.to_string(), "geo-blocked (status 451)");
    assert_eq!(ScrapeError::Http { status: 500 }.to_string(), "http 500");
}

#[test]
fn llm_error_maps_to_llm_class() {
    assert_eq!(
        LlmError::Transient("rate-limit".into()).class(),
        LlmClass::Transient("rate-limit".into())
    );
    assert_eq!(LlmError::Auth("401".into()).class(), LlmClass::Auth("401".into()));
    let ctx = LlmError::ContextExceeded {
        model: "m/x".into(),
        message: "too long".into(),
        prompt_tokens: Some(1234),
    };
    match ctx.class() {
        LlmClass::ContextExceeded(msg) => {
            assert!(msg.contains("m/x") && msg.contains("too long"), "got: {msg}")
        }
        other => panic!("expected ContextExceeded, got {other:?}"),
    }
}

#[test]
fn llm_error_outcome_tags_are_stable() {
    assert_eq!(LlmError::Transient("".into()).outcome_tag(), "transient");
    assert_eq!(LlmError::Auth("".into()).outcome_tag(), "auth");
    assert_eq!(
        LlmError::ContextExceeded {
            model: "".into(),
            message: "".into(),
            prompt_tokens: None,
        }
        .outcome_tag(),
        "context-exceeded"
    );
    assert_eq!(LlmError::Other("".into()).outcome_tag(), "other");
}

#[test]
fn llm_error_messages() {
    assert_eq!(LlmError::Transient("t".into()).to_string(), "transient: t");
    assert_eq!(
        LlmError::ContextExceeded {
            model: "m".into(),
            message: "long".into(),
            prompt_tokens: None,
        }
        .to_string(),
        "context-exceeded (model `m`): long"
    );
    assert_eq!(LlmError::Other("o".into()).to_string(), "llm-other: o");
}
