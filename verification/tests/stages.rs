use ats::assets::{
    PROMPT_KEYWORD_EXTRACTION, PROMPT_RESUME_OPTIMIZATION, PROMPT_SCRAPE_TO_MARKDOWN,
};
use ats::config::ModelStageConfig;
use ats::domain::{
    CertificationKeyword, HardSkill, IndustryTerm, JobTitle, KeywordSet, SoftSkill,
};
use ats::error::{AtsError, LlmClass, ScrapeClass};
use ats::ports::{
    ChatRole, LlmCallRecord, LlmError, LlmResponse, TokenUsage, VecAuditSink,
};
use ats::schema::{Violation, ViolationKind};
use ats::scrape_port::ScrapeError;
use ats::stage::keywords::{
    is_low_signal, parse_keywords_from_value, read_keywords, to_markdown, validate_and_parse,
    KeywordExtraction, KeywordExtractionOutcome, KeywordStep, LOW_SIGNAL_WORD_THRESHOLD,
};
use ats::stage::ranking::rank;
use ats::stage::{optimize, scrape};
use serde_json::Value;

fn json(text: &str) -> Value {
    serde_json::from_str(text).unwrap()
}

fn model_cfg() -> ModelStageConfig {
    ModelStageConfig { name: "openai/gpt-x".into(), temperature: Value::from(0.0), seed: 42 }
}

fn valid_json() -> String {
    json(
        r#"{
        "hard_skills_and_tools": [{
            "primary_term": "Rust",
            "acronym": "",
            "semantic_cluster": "systems",
            "importance_score": 9
        }],
        "soft_skills_and_competencies": [{
            "primary_term": "Communication",
            "semantic_cluster": "collaboration",
            "importance_score": 5
        }],
        "industry_specific_terminology": [{
            "primary_term": "HIPAA",
            "acronym": "",
            "importance_score": 7
        }],
        "certifications_and_credentials": [{
            "primary_term": "AWS SAA",
            "importance_score": 6
        }],
        "job_titles_and_seniority": [{
            "primary_term": "Staff Engineer",
            "importance_score": 8
        }]
    }"#,
    )
    .to_string()
}

fn usage(prompt: u64, completion: u64) -> TokenUsage {
    TokenUsage { prompt, completion, total: prompt + completion }
}

fn response(body: &str) -> Result<LlmResponse, LlmError> {
    Ok(LlmResponse {
        content: body.to_string(),
        usage: usage(100, 50),
        raw: json("{}"),
    })
}

fn long_posting() -> String {
    "Senior Rust Engineer posting. ".repeat(60)
}

/// Runs an extraction on scripted replies; also gives the number of requests.
fn extract(
    posting: &str,
    max_attempts: u32,
    replies: Vec<Result<LlmResponse, LlmError>>,
) -> (Result<KeywordExtractionOutcome, AtsError>, Vec<LlmCallRecord>, usize) {
    let mut audit = VecAuditSink::default();
    let mut calls = 0;
    let mut state = match KeywordExtraction::start(posting, &model_cfg(), max_attempts) {
        Ok(state) => state,
        Err(e) => return (Err(e), audit.take(), 0),
    };
    for reply in replies {
        let request = state.request();
        assert_eq!(request.stage, "keywords");
        assert_eq!(request.messages[0].content, PROMPT_KEYWORD_EXTRACTION);
        assert_eq!(request.messages[1].content, posting);
        calls += 1;
        match state.on_reply(reply, "now".into()) {
            KeywordStep::Done(outcome) => return (Ok(outcome), audit.take(), calls),
            KeywordStep::Retry { next, record } => {
                audit.record(record);
                state = next;
            }
            KeywordStep::Failed { error, record } => {
                if let Some(record) = record {
                    audit.record(record);
                }
                return (Err(error), audit.take(), calls);
            }
        }
    }
    panic!("no more scripted responses");
}

#[test]
fn schema_valid_first_try() {
    let (outcome, audit, calls) = extract(&long_posting(), 3, vec![response(&valid_json())]);
    let outcome = outcome.unwrap();
    assert_eq!(outcome.set.hard_skills_and_tools[0].primary_term, "Rust");
    assert_eq!(outcome.usage_total.total, 150);
    assert_eq!(audit.len(), 0);
    assert_eq!(calls, 1);
    assert!(outcome.markdown.contains("## Hard Skills and Tools"));
}

#[test]
fn schema_invalid_twice_then_valid() {
    let bad_non_json = "not-json {oops";
    let bad_schema = json(
        r#"{
        "hard_skills_and_tools": [{
            "primary_term": "Rust",
            "acronym": "",
            "semantic_cluster": "systems",
            "importance_score": "nine"
        }],
        "soft_skills_and_competencies": [],
        "industry_specific_terminology": [],
        "certifications_and_credentials": [],
        "job_titles_and_seniority": []
    }"#,
    )
    .to_string();
    let (outcome, records, calls) = extract(
        &long_posting(),
        3,
        vec![response(bad_non_json), response(&bad_schema), response(&valid_json())],
    );
    let outcome = outcome.unwrap();
    assert_eq!(outcome.set.hard_skills_and_tools[0].primary_term, "Rust");
    assert_eq!(records.len(), 2, "two schema-invalid attempts recorded");
    for rec in records.iter() {
        assert_eq!(rec.outcome, "schema-invalid");
    }
    assert_eq!(outcome.usage_total.total, 450);
    assert_eq!(calls, 3);
    assert_eq!((records[0].attempt, records[1].attempt), (1, 2));
    assert_eq!(records[0].timestamp, "now");
    assert_eq!(records[0].usage, usage(100, 50));
    assert_eq!(
        records[0].response,
        "[schema-invalid: content is not valid JSON: expected ident at line 1 column 2] not-json {oops"
    );
    assert!(records[1]
        .response
        .starts_with("[schema-invalid: schema violation: \"nine\" is not of type \"integer\"] {"));
}

#[test]
fn three_strikes_returns_schema_invalid() {
    let (outcome, audit, _) = extract(
        &long_posting(),
        3,
        vec![response("not json"), response("still not json"), response("nope")],
    );
    let err = outcome.unwrap_err();
    assert_eq!(err.exit_code(), 6);
    let msg = err.to_string();
    assert!(msg.contains("keyword extraction"), "got: {msg}");
    assert_eq!(audit.len(), 3);
    assert_eq!(
        msg,
        "schema validation failed: keyword extraction: 3 attempts exceeded schema validation \
         (last error: content is not valid JSON: expected ident at line 1 column 2; \
         last response: nope)"
    );
}

#[test]
fn llm_error_propagates_without_schema_retry() {
    let (outcome, audit, calls) =
        extract(&long_posting(), 3, vec![Err(LlmError::Auth("401".into()))]);
    let err = outcome.unwrap_err();
    assert_eq!(err.exit_code(), 5);
    assert_eq!((audit.len(), calls), (0, 1));
    assert!(matches!(err, AtsError::Llm(LlmClass::Auth(m)) if m == "401"));
}

#[test]
fn low_signal_short_posting_still_proceeds() {
    let (outcome, _, _) = extract("short posting", 3, vec![response(&valid_json())]);
    assert_eq!(outcome.unwrap().set.hard_skills_and_tools[0].primary_term, "Rust");
    assert!(is_low_signal("short posting"));
    assert_eq!(LOW_SIGNAL_WORD_THRESHOLD, 200);
    assert!(is_low_signal(&"w ".repeat(199)));
    assert!(!is_low_signal(&"w\t".repeat(200)));
}

#[test]
fn zero_attempts_are_refused() {
    let (outcome, _, calls) = extract("p", 0, vec![]);
    let err = outcome.unwrap_err();
    assert_eq!(calls, 0);
    assert_eq!(err.exit_code(), 1);
    assert_eq!(err.to_string(), "schema_validation_max_attempts must be >= 1");
}

#[test]
fn records_are_cut_to_size() {
    let posting = "é".repeat(2_001);
    let content = "x".repeat(4_001);
    let (outcome, audit, _) = extract(&posting, 1, vec![response(&content)]);
    assert_eq!(audit[0].prompt, format!("{}…", "é".repeat(2_000)));
    assert!(audit[0].response.ends_with(&format!("] {}…", "x".repeat(4_000))));
    assert!(outcome
        .unwrap_err()
        .to_string()
        .ends_with(&format!("; last response: {}…)", "x".repeat(500))));
}

#[test]
fn requests_carry_the_structured_output_block() {
    let state = KeywordExtraction::start("posting", &model_cfg(), 2).ok().unwrap();
    let request = state.request();
    let format = request.response_format.unwrap();
    assert_eq!(format["type"], "json_schema");
    assert_eq!(format["json_schema"]["name"], "ats_keyword_extraction");
    assert_eq!(request.model, "openai/gpt-x");
    assert_eq!(request.seed, Some(42));
    assert_eq!(request.temperature, Value::from(0.0));
    assert_eq!(request.messages.len(), 2);
    assert_eq!(request.messages[0].role, ChatRole::System);
    assert_eq!(request.messages[1].role, ChatRole::User);
}

#[test]
fn reading_is_decided_by_the_verdict_and_then_the_types() {
    let good = json(&valid_json());
    assert!(read_keywords(&good, Ok(None)).is_ok());
    let violation = Violation {
        instance_path: "/x".into(),
        message: "m".into(),
        kind: ViolationKind::Other,
    };
    assert_eq!(read_keywords(&good, Ok(Some(violation))).unwrap_err(), "schema violation: m");
    assert_eq!(read_keywords(&good, Err("b".into())).unwrap_err(), "keyword schema: b");
    assert_eq!(
        read_keywords(&json("{}"), Ok(None)).unwrap_err(),
        "deserialise KeywordSet: missing field `hard_skills_and_tools`"
    );
    let err = validate_and_parse("{}").unwrap_err();
    assert!(err.starts_with("schema violation: ") && err.contains("is a required property"), "{err}");
    assert!(parse_keywords_from_value(&good).is_ok());
}

#[test]
fn scores_outside_of_the_range_of_the_type_are_refused() {
    let text = valid_json().replace("\"importance_score\":9", "\"importance_score\":3000000000");
    let err = validate_and_parse(&text).unwrap_err();
    assert!(
        err.starts_with("deserialise KeywordSet: invalid value: integer `3000000000`")
            || err.starts_with("schema violation: "),
        "{err}"
    );
}

#[test]
fn keyword_set_markdown_view_sorts_and_formats() {
    let set = KeywordSet {
        hard_skills_and_tools: vec![
            HardSkill {
                primary_term: "Python".into(),
                acronym: "".into(),
                semantic_cluster: "languages".into(),
                importance_score: 5,
            },
            HardSkill {
                primary_term: "Rust".into(),
                acronym: "".into(),
                semantic_cluster: "systems".into(),
                importance_score: 9,
            },
        ],
        soft_skills_and_competencies: vec![SoftSkill {
            primary_term: "Leadership".into(),
            semantic_cluster: "".into(),
            importance_score: 6,
        }],
        industry_specific_terminology: vec![IndustryTerm {
            primary_term: "KPI".into(),
            acronym: "Key Performance Indicator".into(),
            importance_score: 4,
        }],
        certifications_and_credentials: vec![CertificationKeyword {
            primary_term: "AWS SAA".into(),
            importance_score: 3,
        }],
        job_titles_and_seniority: vec![JobTitle {
            primary_term: "Staff Engineer".into(),
            importance_score: 8,
        }],
    };
    let md = to_markdown(&set);
    let expected = "## Hard Skills and Tools\n\
        - Rust (score 9, cluster systems)\n\
        - Python (score 5, cluster languages)\n\
        \n## Soft Skills and Competencies\n\
        - Leadership (score 6)\n\
        \n## Industry-Specific Terminology\n\
        - KPI (score 4, acronym Key Performance Indicator)\n\
        \n## Certifications and Credentials\n\
        - AWS SAA (score 3)\n\
        \n## Job Titles and Seniority\n\
        - Staff Engineer (score 8)\n";
    assert_eq!(md, expected);
}

#[test]
fn empty_catalogue_keeps_its_headings() {
    assert_eq!(
        to_markdown(&KeywordSet::default()),
        "## Hard Skills and Tools\n\n## Soft Skills and Competencies\n\n\
         ## Industry-Specific Terminology\n\n## Certifications and Credentials\n\n\
         ## Job Titles and Seniority\n"
    );
}

#[test]
fn equal_scores_keep_their_order_and_remarks_are_trimmed() {
    let title = |term: &str, score: i32| JobTitle {
        primary_term: term.into(),
        importance_score: score,
    };
    let set = KeywordSet {
        hard_skills_and_tools: vec![HardSkill {
            primary_term: "A".into(),
            acronym: " \t".into(),
            semantic_cluster: "  c d ".into(),
            importance_score: -3,
        }],
        job_titles_and_seniority: vec![
            title("a", 1),
            title("b", 2),
            title("c", 1),
            title("d", 2),
            title("e", i32::MIN),
        ],
        ..Default::default()
    };
    let md = to_markdown(&set);
    assert!(md.contains("- A (score -3, cluster c d)\n"));
    assert!(md.ends_with(
        "- b (score 2)\n- d (score 2)\n- a (score 1)\n- c (score 1)\n- e (score -2147483648)\n"
    ));
}

#[test]
fn ranking_is_the_stable_descending_sort() {
    let scores = vec![3, 9, 3, -1, 9, 0, i32::MAX, i32::MIN];
    let mut expected: Vec<usize> = (0..scores.len()).collect();
    expected.sort_by(|a, b| scores[*b].cmp(&scores[*a]));
    assert_eq!(rank(&scores), expected);
    assert!(rank(&vec![]).is_empty());
}

fn keyword_fixture() -> KeywordSet {
    parse_keywords_from_value(&json(&valid_json())).expect("valid keywords")
}

#[test]
fn optimization_sends_both_inputs_and_returns_the_reply() {
    let keywords_md = to_markdown(&keyword_fixture());
    let baseline = "# Jane Doe\n\n## Professional Summary\nEngineer.\n";
    let model =
        ModelStageConfig { name: "m/x".into(), temperature: Value::from(0.1), seed: 1 };
    let req = optimize::request(baseline, &keywords_md, &model);
    let outcome = optimize::on_reply(Ok(LlmResponse {
        content: "# Jane Doe\n".into(),
        usage: usage(10, 20),
        raw: json("{}"),
    }))
    .expect("optimize succeeds");
    assert!(!outcome.markdown.is_empty());
    assert_eq!(outcome.usage.total, 30);
    assert_eq!(req.stage, "optimize");
    assert!(req.response_format.is_none());
    assert_eq!(req.model, "m/x");
    assert_eq!(req.messages[0].content.as_str(), PROMPT_RESUME_OPTIMIZATION);
    let user = &req.messages[1].content;
    assert!(user.contains("=== RESUME ==="));
    assert!(user.contains("=== KEYWORDS ==="));
    assert_eq!(
        *user,
        format!("=== RESUME ===\n{baseline}\n\n=== KEYWORDS ===\n{keywords_md}\n")
    );
}

#[test]
fn failed_optimization_keeps_its_class() {
    let err = optimize::on_reply(Err(LlmError::Transient("busy".into()))).unwrap_err();
    assert!(matches!(err, AtsError::Llm(LlmClass::Transient(m)) if m == "busy"));
}

fn scrape_cfg() -> ModelStageConfig {
    ModelStageConfig { name: "openai/test".into(), temperature: Value::from(0.0), seed: 42 }
}

fn fetch_and_convert(
    page: Result<&str, ScrapeError>,
    reply: Result<&str, LlmError>,
) -> Result<scrape::ScrapeStageOutcome, AtsError> {
    scrape::on_page(page.map(|html| html.to_string()), &scrape_cfg())?;
    scrape::on_reply(reply.map(|content| LlmResponse {
        content: content.to_string(),
        usage: usage(42, 10),
        raw: json("{}"),
    }))
}

#[test]
fn happy_path_returns_job_posting() {
    let outcome = fetch_and_convert(
        Ok("<html><body>hi</body></html>"),
        Ok("{\"title\":\"Senior Rust Engineer\",\"markdown\":\"## About\\n- do things\"}"),
    )
    .unwrap();
    assert_eq!(outcome.posting.title, "Senior Rust Engineer");
    assert!(outcome.posting.markdown.contains("## About"));
    assert_eq!(outcome.usage.total, 52);
}

#[test]
fn request_carries_structured_output_response_format() {
    let sent = scrape::on_page(Ok("<html/>".into()), &scrape_cfg()).unwrap();
    assert_eq!(sent.stage, "scrape");
    assert_eq!(sent.messages[0].content, PROMPT_SCRAPE_TO_MARKDOWN);
    assert_eq!(sent.messages[1].content, "<html/>");
    let fmt = sent
        .response_format
        .expect("scrape stage must set response_format (structured outputs)");
    assert_eq!(fmt["type"], "json_schema");
    assert_eq!(fmt["json_schema"]["strict"], true);
    assert_eq!(fmt["json_schema"]["name"], "job_posting_extraction");
    let props = &fmt["json_schema"]["schema"]["properties"];
    assert!(props.get("title").is_some());
    assert!(props.get("markdown").is_some());
}

#[test]
fn scrape_offline_propagates_as_ats_scrape_offline() {
    let err =
        fetch_and_convert(Err(ScrapeError::Offline("dns fail".into())), Ok("unused")).unwrap_err();
    assert_eq!(err.exit_code(), 4);
    match err {
        AtsError::Scrape(ScrapeClass::Offline) => {}
        other => panic!("expected Scrape(Offline), got {other:?}"),
    }
}

#[test]
fn scrape_not_found_maps_to_not_found_class() {
    let err =
        fetch_and_convert(Err(ScrapeError::NotFound { status: 404 }), Ok("unused")).unwrap_err();
    match err {
        AtsError::Scrape(ScrapeClass::NotFound) => {}
        other => panic!("expected NotFound, got {other:?}"),
    }
}

#[test]
fn scrape_http_preserves_status_code() {
    let err = fetch_and_convert(Err(ScrapeError::Http { status: 418 }), Ok("unused")).unwrap_err();
    match err {
        AtsError::Scrape(ScrapeClass::Http(418)) => {}
        other => panic!("expected Http(418), got {other:?}"),
    }
}

#[test]
fn scrape_browser_missing_surfaces_as_scrape_class() {
    let err = fetch_and_convert(Err(ScrapeError::BrowserMissing("no Chrome".into())), Ok("unused"))
        .unwrap_err();
    match err {
        AtsError::Scrape(ScrapeClass::BrowserMissing(msg)) => assert!(msg.contains("no Chrome")),
        other => panic!("expected BrowserMissing, got {other:?}"),
    }
}

#[test]
fn llm_auth_error_becomes_ats_llm() {
    let err = fetch_and_convert(Ok("<html/>"), Err(LlmError::Auth("401".into()))).unwrap_err();
    assert_eq!(err.exit_code(), 5);
}

#[test]
fn non_json_llm_response_is_other_error() {
    let err = fetch_and_convert(Ok("<html/>"), Ok("not json at all")).unwrap_err();
    assert_eq!(err.exit_code(), 1);
    let msg = err.to_string();
    assert!(msg.contains("non-JSON"), "got: {msg}");
}

#[test]
fn missing_markdown_field_is_other_error() {
    let err = fetch_and_convert(Ok("<html/>"), Ok(r#"{"title":"only title"}"#)).unwrap_err();
    assert_eq!(err.exit_code(), 1);
    assert_eq!(
        err.to_string(),
        "scrape-to-markdown LLM returned non-JSON content: missing field `markdown`"
    );
}

#[test]
fn absent_title_defaults_to_empty_string() {
    let outcome = fetch_and_convert(Ok("<html/>"), Ok(r#"{"markdown":"body"}"#)).unwrap();
    assert_eq!(outcome.posting.title, "");
    assert_eq!(outcome.posting.markdown, "body");
}

#[test]
fn blank_replies_and_wrong_types_are_other_errors() {
    assert_eq!(
        scrape::parse_llm_output(" \n\u{3000}").unwrap_err().to_string(),
        "scrape-to-markdown LLM returned empty content"
    );
    assert_eq!(
        scrape::parse_llm_output(r#"{"markdown":"m","title":null}"#).unwrap_err().to_string(),
        "scrape-to-markdown LLM returned non-JSON content: invalid type: null, expected a string"
    );
    let posting = scrape::parse_llm_output("\n {\"markdown\":\"m\",\"title\":\"t\",\"x\":1} ").unwrap();
    assert_eq!((posting.title.as_str(), posting.markdown.as_str()), ("t", "m"));
    let posting = scrape::posting_from_value(&json(r#"{"markdown":"m"}"#)).unwrap();
    assert_eq!(posting.markdown, "m");
}

#[test]
fn scrape_reply_may_be_a_list_of_title_and_markdown() {
    let posting = scrape::parse_llm_output(r#"["T", "M"]"#).unwrap();
    assert_eq!((posting.title.as_str(), posting.markdown.as_str()), ("T", "M"));
    for bad in [r#"["T"]"#, "[]", r#"["T", "M", "X"]"#, r#"["T", 1]"#, r#"[null, "M"]"#, "1"] {
        let err = scrape::parse_llm_output(bad).unwrap_err();
        assert_eq!(err.exit_code(), 1);
        assert!(
            err.to_string().starts_with("scrape-to-markdown LLM returned non-JSON content: "),
            "{bad}"
        );
    }
}
