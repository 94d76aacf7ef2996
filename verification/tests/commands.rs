use ats::audit::{RunFolder, Timestamp};
use ats::cli::{keywords_from_input, stub_page, InputSource, WriteFailure};
use ats::commands::{
    conclude, keywords::Keywords, optimize::Optimize, pdf::Pdf, render::Render, scrape::Scrape,
    Action, Ended, Event, OpenFailure, ReadFailure, RenderFailure, Step,
};
use ats::config::{
    Config, ModelStageConfig, ModelsConfig, OpenRouterConfig, RetriesConfig, ScrapeConfig,
};
use ats::fs_layout::{BinaryFsLayout, FsPath};
use ats::openrouter::{read_reply, CompletionStep, OpenRouterClient};
use ats::ports::{LlmCallRecord, LlmRequest, LlmResponse, LlmError, PdfError};
use serde_json::Value;
use std::collections::BTreeMap;

fn json(text: &str) -> Value {
    serde_json::from_str(text).unwrap()
}

fn stage(temperature: f64) -> ModelStageConfig {
    ModelStageConfig { name: "x/y".into(), temperature: Value::from(temperature), seed: 42 }
}

fn config() -> Config {
    Config {
        openrouter: OpenRouterConfig {
            api_key: "test-key".into(),
            base_url: "http://127.0.0.1:1".into(),
        },
        models: ModelsConfig {
            scrape_to_markdown: stage(0.0),
            keyword_extraction: stage(0.0),
            resume_optimization: stage(0.2),
        },
        scrape: ScrapeConfig { network_idle_timeout_ms: 1000 },
        retries: RetriesConfig {
            llm_transient_max_attempts: 5,
            llm_transient_backoff_ms: vec![0, 0, 0, 0, 0],
            schema_validation_max_attempts: 3,
        },
    }
}

fn layout() -> BinaryFsLayout {
    BinaryFsLayout::new_rooted_at("/srv/ats")
}

fn folder(command: &'static str) -> RunFolder {
    let started =
        Timestamp { year: 2026, month: 4, day: 22, hour: 14, minute: 30, second: 15 };
    RunFolder::new_with_started_at(&layout(), started, command, None)
}

fn shown(path: &FsPath) -> String {
    format!("{}/{}", path.root, path.names.join("/"))
}

/// The outside of a command, in memory.
#[derive(Default)]
struct World {
    files: BTreeMap<String, String>,
    stdin: String,
    page: String,
    /// Status and body of the replies of the model; the last one is repeated.
    replies: Vec<(u16, String)>,
    audit: Vec<LlmCallRecord>,
    stdout: Option<String>,
    refuse_rename: bool,
    refuse_stdout: Option<bool>,
    sent: Vec<LlmRequest>,
}

impl World {
    fn ask(&mut self, request: LlmRequest) -> Result<LlmResponse, LlmError> {
        let cfg = config();
        let client = OpenRouterClient::new(&cfg.openrouter, &cfg.retries);
        let mut attempt = 1;
        loop {
            let (status, body) =
                if self.replies.len() > 1 { self.replies.remove(0) } else { self.replies[0].clone() };
            let result = read_reply(status, &body, &request.model);
            match client.on_attempt(&request, attempt, result, "now".into()) {
                CompletionStep::Done { response, record } => {
                    self.audit.push(record);
                    self.sent.push(request);
                    return Ok(response);
                }
                CompletionStep::Retry { record, next_attempt, .. } => {
                    self.audit.push(record);
                    attempt = next_attempt;
                }
                CompletionStep::Failed { error, record } => {
                    self.audit.push(record);
                    return Err(error);
                }
            }
        }
    }

    fn perform(&mut self, action: Action, serialised: Option<String>) -> Event {
        match action {
            Action::ReadYaml { path } => Event::Yaml(match self.files.get(&path) {
                Some(text) => Ok(text.clone().into_bytes()),
                None => Err(ReadFailure { missing: true, cause: "no such file".into() }),
            }),
            Action::ReadInput(InputSource::Stdin) => Event::Input(Ok(self.stdin.clone())),
            Action::ReadInput(InputSource::File(path)) => {
                Event::Input(self.files.get(&path).cloned().ok_or("no such file".to_string()))
            }
            Action::OpenAudit { path } => {
                self.files.insert(shown(&path), String::new());
                Event::Opened(Ok(()))
            }
            Action::FetchHtml { idle_timeout_ms, .. } => {
                assert_eq!(idle_timeout_ms, 1000);
                Event::Page(stub_page(self.page.clone()))
            }
            Action::Ask { record, request } => {
                if let Some(record) = record {
                    self.audit.push(record);
                }
                Event::Reply { reply: self.ask(request), timestamp: "now".into() }
            }
            Action::LoadCache { path } => {
                let shown = shown(&path);
                Event::Stored { stored: Ok(self.files.get(&shown).cloned()), shown }
            }
            Action::StoreCache(write) => {
                assert_eq!(shown(&write.dir), "/srv/ats/cache");
                assert_eq!(shown(&write.temporary), format!("{}.tmp", shown(&write.path)));
                self.files.insert(shown(&write.path), write.content);
                Event::Done(Ok(()))
            }
            Action::RenameFolder { from, to } => {
                if self.refuse_rename {
                    return Event::Renamed(Err(RunFolder::rename_refused(&shown(&to))));
                }
                let old = format!("{}/", shown(&from));
                let moved: Vec<String> =
                    self.files.keys().filter(|k| k.starts_with(&old)).cloned().collect();
                for key in moved {
                    let content = self.files.remove(&key).unwrap();
                    self.files.insert(key.replace(&shown(&from), &shown(&to)), content);
                }
                Event::Renamed(Ok(()))
            }
            Action::Serialise => Event::Serialised(serialised.ok_or("nothing".to_string())),
            Action::WriteFile { path, content } => {
                self.files.insert(shown(&path), content);
                Event::Done(Ok(()))
            }
            Action::ReportDensity(report) => Event::Density(Value::from(
                (report.numerator as f32 / report.denominator as f32) as f64,
            )),
            Action::RenderPdf { markdown, out } => {
                if out.contains("no/such/dir") {
                    let error = PdfError::Render("no such directory".into());
                    return Event::Rendered(Err(RenderFailure::Pdf(error)));
                }
                self.files.insert(out, format!("%PDF-1.4\n{markdown}"));
                Event::Rendered(Ok(()))
            }
            Action::Measure { path } => Event::Size(Ok(self.files[&path].len() as u64)),
            Action::Print { content, newline } => {
                if let Some(broken_pipe) = self.refuse_stdout {
                    let failure = WriteFailure { broken_pipe, cause: "closed".into() };
                    return Event::Printed(Some(failure));
                }
                self.stdout = Some(if newline { format!("{content}\n") } else { content });
                Event::Printed(None)
            }
        }
    }

    fn finish(&mut self, ended: Ended) -> (i32, Value, RunFolder) {
        if let Some(record) = ended.record {
            self.audit.push(record);
        }
        let (code, text) = conclude(&ended.run, &ended.result, "a", "b");
        let run_json = json(&text);
        assert_eq!(run_json["exit_code"], code);
        (code, run_json, ended.run)
    }

    fn outcomes(&self) -> Vec<String> {
        self.audit.iter().map(|r| r.outcome.clone()).collect()
    }
}

fn scrape(world: &mut World, url: &str) -> (i32, Value, RunFolder) {
    let mut step = Scrape::start(folder("scrape"), config(), url);
    loop {
        match step {
            Step::Over(ended) => return world.finish(ended),
            Step::Next { state, action } => {
                let text = state.posting().map(|p| {
                    format!(
                        "{{\"title\":{},\"markdown\":{}}}",
                        Value::from(p.title.as_str()),
                        Value::from(p.markdown.as_str())
                    )
                });
                let event = world.perform(action, text);
                assert!(state.accepts(&event));
                step = state.step(event);
            }
        }
    }
}

fn keywords(world: &mut World) -> (i32, Value, RunFolder) {
    let mut step = Keywords::start(folder("keywords"), config());
    loop {
        match step {
            Step::Over(ended) => return world.finish(ended),
            Step::Next { state, action } => {
                let text = state.catalogue().map(|set| {
                    assert_eq!(set.hard_skills_and_tools[0].primary_term, "Rust");
                    keyword_payload()
                });
                let event = world.perform(action, text);
                assert!(state.accepts(&event));
                step = state.step(event);
            }
        }
    }
}

fn optimize(world: &mut World, resume: &str, keywords: &str) -> (i32, Value, RunFolder) {
    let mut step = Optimize::start(
        folder("optimize"),
        config(),
        InputSource::parse(resume),
        InputSource::parse(keywords),
    );
    loop {
        match step {
            Step::Over(ended) => return world.finish(ended),
            Step::Next { state, action } => {
                let event = world.perform(action, None);
                assert!(state.accepts(&event));
                step = state.step(event);
            }
        }
    }
}

fn pdf(world: &mut World, out: &str) -> (i32, Value, RunFolder) {
    let mut step = Pdf::start(folder("pdf"), out);
    loop {
        match step {
            Step::Over(ended) => return world.finish(ended),
            Step::Next { state, action } => {
                let event = world.perform(action, None);
                assert!(state.accepts(&event));
                step = state.step(event);
            }
        }
    }
}

fn render(world: &mut World, yaml: &str) -> (i32, Value, RunFolder) {
    let mut step = Render::start(folder("render"), layout(), yaml);
    loop {
        match step {
            Step::Over(ended) => return world.finish(ended),
            Step::Next { state, action } => {
                let event = world.perform(action, None);
                assert!(state.accepts(&event));
                step = state.step(event);
            }
        }
    }
}

fn keyword_payload() -> String {
    r#"{
        "hard_skills_and_tools": [{
            "primary_term": "Rust",
            "acronym": "",
            "semantic_cluster": "systems",
            "importance_score": 9
        }],
        "soft_skills_and_competencies": [{
            "primary_term": "Communication",
            "semantic_cluster": "collaboration",
            "importance_score": 5
        }],
        "industry_specific_terminology": [{
            "primary_term": "HIPAA",
            "acronym": "",
            "importance_score": 7
        }],
        "certifications_and_credentials": [{
            "primary_term": "AWS SAA",
            "importance_score": 6
        }],
        "job_titles_and_seniority": [{
            "primary_term": "Senior Software Engineer",
            "importance_score": 8
        }]
    }"#
    .to_string()
}

fn chat_body(content: &str, prompt: u64, completion: u64) -> String {
    format!(
        r#"{{
        "id": "chatcmpl-test",
        "object": "chat.completion",
        "choices": [{{
            "index": 0,
            "message": {{ "role": "assistant", "content": {} }},
            "finish_reason": "stop"
        }}],
        "usage": {{
            "prompt_tokens": {prompt},
            "completion_tokens": {completion},
            "total_tokens": {}
        }}
    }}"#,
        Value::from(content),
        prompt + completion
    )
}

fn long_posting_md() -> String {
    "Senior Rust Engineer role with heavy concurrency. We value clear communication. ".repeat(30)
}

fn keywords_world(replies: Vec<(u16, String)>) -> World {
    World { stdin: long_posting_md(), replies, ..World::default() }
}

const KEYWORDS_DIR: &str = "/srv/ats/runs/20260422-143015_keywords";

#[test]
fn keywords_happy_path_writes_artifacts_and_stderr_reports_tokens() {
    let mut world = keywords_world(vec![(200, chat_body(&keyword_payload(), 834, 712))]);
    let (code, run_json, _) = keywords(&mut world);
    assert_eq!(code, 0);
    let parsed = json(world.stdout.as_ref().unwrap());
    for key in [
        "hard_skills_and_tools",
        "soft_skills_and_competencies",
        "industry_specific_terminology",
        "certifications_and_credentials",
        "job_titles_and_seniority",
    ] {
        assert!(parsed.get(key).is_some(), "missing key {key}");
    }
    for name in ["keywords.json", "keywords.md", "llm-audit.jsonl"] {
        assert!(world.files.contains_key(&format!("{KEYWORDS_DIR}/{name}")), "{name}");
    }
    assert_eq!(world.audit.len(), 1);
    assert_eq!(world.audit[0].outcome, "ok");
    assert_eq!(world.audit[0].usage.total, 1546);
    assert_eq!(run_json["token_usage_total"]["total"], 1546);
    assert!(world.files[&format!("{KEYWORDS_DIR}/keywords.md")].contains("- Rust (score 9"));
}

#[test]
fn keywords_three_invalid_responses_exit_six_and_record_schema_invalid() {
    let bad = r#"{"hard_skills_and_tools": "should be an array, not a string"}"#;
    let mut world = keywords_world(vec![(200, chat_body(bad, 834, 712))]);
    let (code, run_json, _) = keywords(&mut world);
    assert_eq!(code, 6);
    assert_eq!(run_json["outcome"], "schema-invalid");
    let invalid = world.outcomes().iter().filter(|o| *o == "schema-invalid").count();
    assert_eq!(invalid, 3, "{:?}", world.outcomes());
    assert!(!world.files.contains_key(&format!("{KEYWORDS_DIR}/keywords.json")));
    assert!(world.stdout.is_none());
}

#[test]
fn keywords_auth_failure_exits_five_with_single_audit_record() {
    let mut world = keywords_world(vec![(401, "invalid api key".into())]);
    let (code, run_json, _) = keywords(&mut world);
    assert_eq!(code, 5);
    assert_eq!(run_json["outcome"], "llm/auth");
    assert_eq!(world.outcomes(), vec!["auth"]);
}

#[test]
fn keywords_context_exceeded_exits_five() {
    let body = r#"{"error":{"message":"This model's maximum context length is 4096 tokens","code":"context_length_exceeded"}}"#;
    let mut world = keywords_world(vec![(400, body.into())]);
    let (code, _, _) = keywords(&mut world);
    assert_eq!(code, 5);
    assert_eq!(world.outcomes(), vec!["context-exceeded"]);
}

#[test]
fn keywords_transient_then_success_records_three_attempts() {
    let mut world = keywords_world(vec![
        (429, "rate limit".into()),
        (429, "rate limit".into()),
        (200, chat_body(&keyword_payload(), 834, 712)),
    ]);
    let (code, _, _) = keywords(&mut world);
    assert_eq!(code, 0);
    assert_eq!(world.outcomes(), vec!["transient", "transient", "ok"]);
}

#[test]
fn failed_clients_and_inputs_end_the_command() {
    let next = |step: Step<Keywords>, event: Event| match step {
        Step::Next { state, .. } => state.step(event),
        Step::Over(_) => panic!("over already"),
    };
    let over = |step: Step<Keywords>| match step {
        Step::Over(ended) => ended.result.unwrap_err().to_string(),
        Step::Next { .. } => panic!("not over"),
    };
    let step = Keywords::start(folder("keywords"), config());
    assert_eq!(over(next(step, Event::Input(Err("closed".into())))), "io error: closed");
    let opened = |failure: OpenFailure| {
        let step = Keywords::start(folder("keywords"), config());
        let step = next(step, Event::Input(Ok("posting".into())));
        over(next(step, Event::Opened(Err(failure))))
    };
    assert_eq!(opened(OpenFailure::Audit("full".into())), "io error: full");
    assert_eq!(
        opened(OpenFailure::Client("tls".into())),
        "failed to build OpenRouter client: tls"
    );
}

fn scrape_world(page: &str, content: &str) -> World {
    World {
        page: page.into(),
        replies: vec![(200, chat_body(content, 1200, 400))],
        ..World::default()
    }
}

#[test]
fn scrape_happy_path_writes_artifacts_and_renames_with_slug() {
    let content = "{\"title\":\"Senior Rust Engineer\",\"markdown\":\"## About\\n- ship it\"}";
    let mut world =
        scrape_world("<html><body><h1>Senior Rust Engineer</h1></body></html>", content);
    let (code, run_json, run) = scrape(&mut world, "https://example.test/job");
    assert_eq!(code, 0);
    let parsed = json(world.stdout.as_ref().unwrap());
    assert_eq!(parsed["title"], "Senior Rust Engineer");
    assert!(parsed["markdown"].as_str().unwrap().contains("## About"));
    let dir = "/srv/ats/runs/20260422-143015_scrape_senior-rust-engineer";
    assert_eq!(shown(&run.path()), dir);
    for name in ["posting.json", "posting.md", "llm-audit.jsonl"] {
        assert!(world.files.contains_key(&format!("{dir}/{name}")), "{name}");
    }
    assert_eq!(run_json["outcome"], "success");
    assert_eq!(run_json["exit_code"], 0);
    assert_eq!(run_json["token_usage_total"]["total"], 1600);
    assert_eq!(run_json["command"], "scrape");
    assert_eq!(run_json["slug"], "senior-rust-engineer");
}

#[test]
fn refused_rename_keeps_the_name() {
    let content = "{\"title\":\"T\",\"markdown\":\"m\"}";
    let mut world = scrape_world("<html/>", content);
    world.refuse_rename = true;
    let (code, run_json, run) = scrape(&mut world, "https://example.test/job");
    assert_eq!(code, 0);
    assert!(shown(&run.path()).ends_with("_scrape"));
    assert!(run_json.get("slug").is_none());
    assert!(world.files.contains_key("/srv/ats/runs/20260422-143015_scrape/posting.md"));
}

#[test]
fn scrape_non_json_llm_response_is_exit_one_other() {
    let mut world = scrape_world("<html>ok</html>", "not json at all");
    let (code, run_json, _) = scrape(&mut world, "https://example.test/job");
    assert_eq!(code, 1);
    assert_eq!(run_json["outcome"], "other");
    assert_eq!(run_json["exit_code"], 1);
}

#[test]
fn scrape_not_found_exits_four_without_slug() {
    let mut world = scrape_world("error:not-found", "");
    let (code, run_json, run) = scrape(&mut world, "https://example.test/missing");
    assert_eq!(code, 4);
    assert!(shown(&run.path()).ends_with("_scrape"));
    assert_eq!(run_json["outcome"], "scrape/not-found");
    assert_eq!(run_json["exit_code"], 4);
    assert!(world.sent.is_empty());
}

#[test]
fn scrape_offline_exits_four_with_offline_class() {
    let mut world = scrape_world("error:offline", "");
    let (code, run_json, _) = scrape(&mut world, "https://example.test");
    assert_eq!(code, 4);
    assert_eq!(run_json["outcome"], "scrape/offline");
}

#[test]
fn scrape_browser_missing_exits_four() {
    let mut world = scrape_world("error:browser-missing", "");
    assert_eq!(scrape(&mut world, "https://example.test").0, 4);
}

#[test]
fn scrape_http_418_exits_four() {
    let mut world = scrape_world("error:http-418", "");
    assert_eq!(scrape(&mut world, "https://example.test").0, 4);
}

fn optimize_world() -> World {
    let mut world = World {
        replies: vec![(200, chat_body("# Jane Doe\n## Optimized\nUsing Rust tools.", 10, 20))],
        ..World::default()
    };
    world.files.insert("baseline.md".into(), "# Jane Doe\n".into());
    world.files.insert("keywords.json".into(), keyword_payload());
    world
}

#[test]
fn optimize_writes_artifacts_and_density() {
    let mut world = optimize_world();
    let (code, run_json, _) = optimize(&mut world, "baseline.md", "keywords.json");
    assert_eq!(code, 0);
    assert_eq!(world.stdout.as_deref(), Some("# Jane Doe\n## Optimized\nUsing Rust tools.\n"));
    let dir = "/srv/ats/runs/20260422-143015_optimize";
    assert!(world.files.contains_key(&format!("{dir}/optimized.md")));
    assert!(world.files.contains_key(&format!("{dir}/llm-audit.jsonl")));
    assert_eq!(run_json["token_usage_total"]["total"], 30);
    let kd = &run_json["keyword_density"];
    assert!(kd["value"].is_number());
    assert_eq!(kd["numerator"], 1);
    assert_eq!(kd["denominator"], 6);
    assert!(world.sent[0].messages[1].content.starts_with("=== RESUME ===\n# Jane Doe\n"));
    assert_eq!(world.sent[0].temperature, Value::from(0.2));
}

#[test]
fn optimize_reads_one_input_from_stdin() {
    let mut world = optimize_world();
    world.stdin = keyword_payload();
    assert_eq!(optimize(&mut world, "baseline.md", "-").0, 0);
    let mut world = optimize_world();
    world.stdin = "# From stdin\n".into();
    assert_eq!(optimize(&mut world, "-", "keywords.json").0, 0);
    assert!(world.sent[0].messages[1].content.contains("# From stdin"));
}

#[test]
fn invalid_keywords_exits_six() {
    let mut world = optimize_world();
    world.files.insert("bad.json".into(), r#"{ "nope": 1 }"#.into());
    let (code, run_json, _) = optimize(&mut world, "baseline.md", "bad.json");
    assert_eq!(code, 6);
    assert_eq!(run_json["outcome"], "schema-invalid");
    assert!(world.sent.is_empty() && world.audit.is_empty());
}

#[test]
fn invalid_keywords_name_the_schema() {
    let err = keywords_from_input(r#"{ "nope": 1 }"#).unwrap_err();
    assert_eq!(err.exit_code(), 6);
    let shown = err.to_string().to_lowercase();
    assert!(shown.contains("ats_keyword_extraction"), "expected schema hint: {shown}");
    assert!(shown.contains("schema"), "expected schema hint: {shown}");
    let Step::Next { state, .. } = Optimize::start(
        folder("optimize"),
        config(),
        InputSource::parse("baseline.md"),
        InputSource::parse("bad.json"),
    ) else {
        panic!("no step")
    };
    let Step::Next { state, .. } = state.step(Event::Input(Ok("# Jane\n".into()))) else {
        panic!("no step")
    };
    let Step::Over(ended) = state.step(Event::Input(Ok(r#"{ "nope": 1 }"#.into()))) else {
        panic!("not over")
    };
    let shown = ended.result.unwrap_err().to_string();
    assert!(shown.contains("ats_keyword_extraction schema"), "expected schema hint: {shown}");
}

#[test]
fn two_stdin_sources_exit_two() {
    let mut world = optimize_world();
    let (code, run_json, _) = optimize(&mut world, "-", "-");
    assert_eq!(code, 2);
    assert_eq!(run_json["outcome"], "config");
}

#[test]
fn pdf_records_size_and_path() {
    let mut world = World { stdin: "# Hello\n\nWorld.\n".into(), ..World::default() };
    let (code, run_json, _) = pdf(&mut world, "ok.pdf");
    assert_eq!(code, 0);
    assert!(world.stdout.is_none());
    assert_eq!(run_json["bytes_written"], world.files["ok.pdf"].len());
    assert_eq!(run_json["output_path"], "ok.pdf");
}

#[test]
fn pdf_unwritable_parent_exits_seven_and_class_is_pdf() {
    let mut world = World { stdin: "# Hello\n".into(), ..World::default() };
    let (code, run_json, _) = pdf(&mut world, "no/such/dir/out.pdf");
    assert_eq!(code, 7);
    assert_eq!(run_json["outcome"], "pdf");
    assert!(world.stdout.is_none() && !world.files.contains_key("no/such/dir/out.pdf"));
    let Step::Next { state, .. } = Pdf::start(folder("pdf"), "o") else { panic!("no step") };
    let Step::Next { state, .. } = state.step(Event::Input(Ok("x".into()))) else {
        panic!("no step")
    };
    let Step::Over(ended) =
        state.step(Event::Rendered(Err(RenderFailure::Task("cancelled".into()))))
    else {
        panic!("not over")
    };
    assert_eq!(ended.result.unwrap_err().to_string(), "pdf task join: cancelled");
}

fn sample_yaml() -> &'static str {
    r#"
cv:
  personal_information:
    full_name: Jane Doe
    email: jane@example.com
    phone: "+1 555-0100"
    linkedin_url: https://linkedin.com/in/jane
    location: Remote
  professional_summary: Experienced engineer.
"#
}

fn render_world(yaml: &str) -> World {
    let mut world = World::default();
    world.files.insert("resume.yaml".into(), yaml.into());
    world
}

#[test]
fn first_call_writes_markdown_and_records_cached_false() {
    let mut world = render_world(sample_yaml());
    let (code, body, _) = render(&mut world, "resume.yaml");
    assert_eq!(code, 0);
    let rendered = world.stdout.as_ref().unwrap();
    assert!(rendered.starts_with("# Jane Doe\n"));
    assert!(rendered.contains("## Professional Summary\nExperienced engineer."));
    assert_eq!(body["cached"], false);
    assert!(
        body["cache_path"].as_str().unwrap().contains("baseline-"),
        "cache_path must point inside cache/: {body}"
    );
}

#[test]
fn second_call_hits_cache_and_records_cached_true() {
    let mut world = render_world(sample_yaml());
    render(&mut world, "resume.yaml");
    let first = world.stdout.take();
    let (_, body, _) = render(&mut world, "resume.yaml");
    assert_eq!(body["cached"], true);
    assert_eq!(world.stdout, first);
    assert_eq!(world.files.keys().filter(|k| k.starts_with("/srv/ats/cache/")).count(), 1);
}

#[test]
fn missing_yaml_returns_yaml_error() {
    let mut world = World::default();
    let Step::Next { state, action } = Render::start(folder("render"), layout(), "nope.yaml")
    else {
        panic!("no step")
    };
    let event = world.perform(action, None);
    let Step::Over(ended) = state.step(event) else { panic!("not over") };
    let err = ended.result.unwrap_err();
    assert_eq!(err.exit_code(), 3);
    assert!(err.to_string().contains("yaml file not found"));
}

fn render_failure(yaml: &str) -> (i32, String) {
    let mut world = render_world(yaml);
    let Step::Next { state, action } = Render::start(folder("render"), layout(), "resume.yaml")
    else {
        panic!("no step")
    };
    let event = world.perform(action, None);
    let Step::Over(ended) = state.step(event) else { panic!("not over") };
    let err = ended.result.unwrap_err();
    (err.exit_code(), err.to_string())
}

#[test]
fn invalid_yaml_missing_summary_returns_exit_three_and_names_path() {
    let (code, message) = render_failure(
        r#"
cv:
  personal_information:
    full_name: Jane Doe
    email: jane@example.com
    phone: "+1"
    linkedin_url: https://x
    location: Remote
"#,
    );
    assert_eq!(code, 3);
    assert!(
        message.contains("cv.professional_summary"),
        "expected `cv.professional_summary` in diagnostic: {message}"
    );
}

#[test]
fn output_failures_keep_the_cache_on_record() {
    let mut world = render_world(sample_yaml());
    world.refuse_stdout = Some(true);
    let (code, body, _) = render(&mut world, "resume.yaml");
    assert_eq!((code, &body["cached"], &body["outcome"]), (0, &Value::from(false), &Value::from("success")));
    world.refuse_stdout = Some(false);
    let (code, body, _) = render(&mut world, "resume.yaml");
    assert_eq!((code, &body["cached"], &body["outcome"]), (1, &Value::from(true), &Value::from("io")));
}

#[test]
fn events_out_of_turn_are_not_accepted() {
    let Step::Next { state, .. } = Render::start(folder("render"), layout(), "x") else {
        panic!("no step")
    };
    assert!(!state.accepts(&Event::Printed(None)));
    assert!(!state.accepts(&Event::Done(Ok(()))));
    assert!(state.accepts(&Event::Yaml(Ok(vec![]))));
}
