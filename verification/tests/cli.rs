use ats::audit::RunOutcome;
use ats::cli::{
    after_write, check_inputs, classify_outcome, keywords_from_input, llm_class_tag, stub_error,
    stub_page, yaml_read_error, Command, FailedOutcome, InputSource, StderrUsageReporter,
    WriteFailure, NOT_IMPLEMENTED,
};
use ats::error::{AtsError, LlmClass, ScrapeClass};
use ats::ports::{LlmCallRecord, TokenUsage};
use ats::scrape_port::ScrapeError;
use serde_json::Value;

#[test]
fn dash_is_stdin() {
    let s: InputSource = "-".parse().unwrap();
    assert!(s.is_stdin());
    assert_eq!(s.describe(), "-");
}

#[test]
fn anything_else_is_a_path() {
    let s: InputSource = "resume.md".parse().unwrap();
    assert!(!s.is_stdin());
    assert_eq!(s.describe(), "resume.md");
    assert_eq!(InputSource::parse("--"), InputSource::File("--".into()));
}

#[test]
fn both_inputs_cannot_be_stdin() {
    let file = InputSource::File("x".into());
    assert!(check_inputs(&InputSource::Stdin, &file).is_ok());
    assert!(check_inputs(&file, &InputSource::Stdin).is_ok());
    assert!(check_inputs(&file, &file).is_ok());
    let err = check_inputs(&InputSource::Stdin, &InputSource::Stdin).unwrap_err();
    assert_eq!(err.exit_code(), 2);
    assert_eq!(
        err.to_string(),
        "config error: only one of --resume and --keywords may be '-' (stdin); both cannot read from standard input"
    );
}

#[test]
fn command_names_and_summaries() {
    let cases: Vec<(Command, &str, &str)> = vec![
        (Command::Render { yaml: "x.yaml".into() }, "render", r#"{"yaml":"x.yaml"}"#),
        (Command::Scrape { url: "u".into() }, "scrape", r#"{"url":"u"}"#),
        (Command::Keywords, "keywords", "{}"),
        (
            Command::Optimize {
                resume: InputSource::Stdin,
                keywords: InputSource::File("k".into()),
            },
            "optimize",
            r#"{"keywords":"k","resume":"-"}"#,
        ),
        (Command::Pdf { out: "o.pdf".into() }, "pdf", r#"{"out":"o.pdf"}"#),
        (
            Command::Run { yaml: "y".into(), url: "u".into() },
            "run",
            r#"{"url":"u","yaml":"y"}"#,
        ),
    ];
    for (command, name, summary) in cases {
        assert_eq!(command.name(), name);
        assert_eq!(command.args_summary().to_string(), summary);
    }
}

#[test]
fn reporter_formats_line() {
    let reporter = StderrUsageReporter::new("scrape");
    let s = reporter.line(&LlmCallRecord {
        timestamp: "t".into(),
        stage: "scrape".into(),
        model: "m".into(),
        temperature: Value::from(0.0),
        seed: None,
        prompt: "p".into(),
        response: "r".into(),
        usage: TokenUsage { prompt: 100, completion: 50, total: 150 },
        attempt: 1,
        outcome: "ok".into(),
    });
    assert!(s.contains("[scrape] tokens:"), "got: {s}");
    assert!(s.contains("prompt=100"));
    assert!(s.contains("outcome=ok"));
    assert_eq!(
        s,
        "[scrape] tokens: prompt=100 completion=50 total=150 attempt=1 outcome=ok\n"
    );
}

fn tag(err: AtsError) -> String {
    match classify_outcome(&err) {
        FailedOutcome::Unimplemented => panic!("implemented"),
        FailedOutcome::Failure(tag) => tag,
    }
}

#[test]
fn outcomes_carry_the_class_of_the_failure() {
    assert_eq!(tag(AtsError::Scrape(ScrapeClass::NotFound)), "scrape/not-found");
    assert_eq!(tag(AtsError::Scrape(ScrapeClass::Http(418))), "scrape/http-418");
    assert_eq!(tag(AtsError::Llm(LlmClass::Auth("x".into()))), "llm/auth");
    assert_eq!(tag(AtsError::Llm(LlmClass::ContextExceeded("x".into()))), "llm/context-exceeded");
    assert_eq!(tag(AtsError::SchemaInvalid("x".into())), "schema-invalid");
    assert_eq!(tag(AtsError::Io("x".into())), "io");
    assert_eq!(tag(AtsError::Other("x".into())), "other");
    let pending = classify_outcome(&AtsError::Other(NOT_IMPLEMENTED.to_string()));
    assert!(matches!(pending, FailedOutcome::Unimplemented));
    assert!(matches!(pending.as_outcome(), RunOutcome::Unimplemented));
    assert_eq!(FailedOutcome::Failure("pdf".into()).as_outcome().as_tag(), "pdf");
    assert_eq!(llm_class_tag(&LlmClass::Transient("x".into())), "transient");
    assert_eq!(llm_class_tag(&LlmClass::Other("x".into())), "other");
}

#[test]
fn broken_pipes_are_no_failure() {
    assert!(after_write(None).is_ok());
    assert!(after_write(Some(WriteFailure { broken_pipe: true, cause: "x".into() })).is_ok());
    let err = after_write(Some(WriteFailure { broken_pipe: false, cause: "full".into() }))
        .unwrap_err();
    assert_eq!(err.to_string(), "io error: full");
}

#[test]
fn unreadable_documents() {
    let err = yaml_read_error(true, "nope.yaml", "unused");
    assert_eq!((err.exit_code(), err.to_string().as_str()), (3, "yaml error: yaml file not found: nope.yaml"));
    let err = yaml_read_error(false, "x", "denied");
    assert_eq!((err.exit_code(), err.to_string().as_str()), (1, "io error: denied"));
}

#[test]
fn keyword_input_is_validated() {
    let err = keywords_from_input("{").unwrap_err();
    assert_eq!(err.exit_code(), 6);
    assert_eq!(
        err.to_string(),
        "schema validation failed: keywords input is not valid JSON (EOF while parsing an object at line 1 column 1); expected a document matching the ats_keyword_extraction schema"
    );
    let err = keywords_from_input(r#"{"nope":1}"#).unwrap_err();
    assert_eq!(err.exit_code(), 6);
    assert!(err.to_string().starts_with(
        "schema validation failed: keywords JSON did not match ats_keyword_extraction schema: schema violation: "
    ));
}

#[test]
fn stub_pages_stand_for_failures() {
    assert_eq!(stub_page("<html/>".into()).unwrap(), "<html/>");
    assert_eq!(stub_page("erro".into()).unwrap(), "erro");
    assert_eq!(stub_page(" error:offline".into()).unwrap(), " error:offline");
    assert!(matches!(
        stub_page("error: not-found\n".into()),
        Err(ScrapeError::NotFound { status: 404 })
    ));
    assert!(matches!(stub_page("error:".into()), Err(ScrapeError::Other(m)) if m == "stub: "));
    assert!(matches!(stub_error("offline"), ScrapeError::Offline(m) if m == "stub: offline"));
    assert!(matches!(stub_error("network-timeout"), ScrapeError::NetworkTimeout(_)));
    assert!(matches!(stub_error("timeout"), ScrapeError::Timeout(_)));
    assert!(matches!(stub_error("auth-required"), ScrapeError::AuthRequired { status: 401 }));
    assert!(matches!(stub_error("geo-blocked"), ScrapeError::GeoBlocked { status: 451 }));
    assert!(matches!(stub_error("http-418"), ScrapeError::Http { status: 418 }));
    assert!(matches!(stub_error("browser-missing"), ScrapeError::BrowserMissing(m) if m == "stub: no Chrome"));
    assert!(matches!(stub_error("x"), ScrapeError::Other(m) if m == "stub: x"));
}
