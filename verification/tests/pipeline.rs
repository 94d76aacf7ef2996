use ats::audit::{RunFolder, RunOutcome, Timestamp};
use ats::cli::classify_outcome;
use ats::commands::conclude;
use ats::commands::run::{self as run_command, after_failure, after_success, stages_error, Run};
use ats::commands::ReadFailure;
use ats::config::{
    Config, ModelStageConfig, ModelsConfig, OpenRouterConfig, RetriesConfig, ScrapeConfig,
};
use ats::error::AtsError;
use ats::fs_layout::{BinaryFsLayout, FsPath};
use ats::pipeline::{
    Action, Event, Pipeline, RunPipelineError, RunPipelineInput, RunPipelineResult, Step,
};
use ats::ports::{LlmCallRecord, LlmError, LlmRequest, LlmResponse, PdfError, TokenUsage};
use ats::parse_and_validate;
use ats::scrape_port::ScrapeError;
use serde_json::Value;
use std::collections::BTreeMap;

fn json(text: &str) -> Value {
    serde_json::from_str(text).unwrap()
}

fn minimal_resume_yaml() -> &'static [u8] {
    br#"cv:
  personal_information:
    full_name: "Jane Doe"
    email: "jane@example.com"
    phone: "+1 555-0100"
    linkedin_url: "https://linkedin.com/in/jane"
    location: "Remote"
  professional_summary: "Experienced engineer focused on backend systems."
"#
}

fn valid_keywords_json() -> &'static str {
    r#"{
  "hard_skills_and_tools": [
    {"primary_term": "Rust", "acronym": "", "semantic_cluster": "lang", "importance_score": 9}
  ],
  "soft_skills_and_competencies": [
    {"primary_term": "Communication", "semantic_cluster": "people", "importance_score": 5}
  ],
  "industry_specific_terminology": [
    {"primary_term": "ATS", "acronym": "", "importance_score": 7}
  ],
  "certifications_and_credentials": [
    {"primary_term": "AWS SAA", "importance_score": 3}
  ],
  "job_titles_and_seniority": [
    {"primary_term": "Senior Engineer", "importance_score": 8}
  ]
}"#
}

fn scrape_json(title: &str, markdown: &str) -> String {
    format!(
        "{{\"title\":{},\"markdown\":{}}}",
        Value::from(title),
        Value::from(markdown)
    )
}

fn stage(name: &str) -> ModelStageConfig {
    ModelStageConfig { name: name.into(), temperature: Value::from(0.0), seed: 1 }
}

fn test_config() -> Config {
    Config {
        openrouter: OpenRouterConfig {
            api_key: "sk-test".into(),
            base_url: "https://localhost/v1".into(),
        },
        models: ModelsConfig {
            scrape_to_markdown: stage("x/scrape"),
            keyword_extraction: stage("x/keywords"),
            resume_optimization: stage("x/optimize"),
        },
        scrape: ScrapeConfig { network_idle_timeout_ms: 1000 },
        retries: RetriesConfig {
            llm_transient_max_attempts: 1,
            llm_transient_backoff_ms: vec![],
            schema_validation_max_attempts: 3,
        },
    }
}

fn started() -> Timestamp {
    Timestamp { year: 2026, month: 4, day: 22, hour: 14, minute: 30, second: 15 }
}

fn shown(path: &FsPath) -> String {
    format!("{}/{}", path.root, path.names.join("/"))
}

/// The outside of a run, in memory.
struct World {
    page: Option<Result<String, ScrapeError>>,
    scrape_replies: Vec<Result<String, LlmError>>,
    stage_replies: Vec<Result<String, LlmError>>,
    files: BTreeMap<String, String>,
    dirs: Vec<String>,
    records: Vec<LlmCallRecord>,
    built: bool,
    /// A file operation on a path that ends like this fails.
    broken: Option<&'static str>,
    pdf_broken: bool,
    pdf_missing: bool,
}

impl World {
    fn new(
        page: Result<&str, ScrapeError>,
        scrape_replies: Vec<Result<String, LlmError>>,
        stage_replies: Vec<Result<String, LlmError>>,
    ) -> World {
        World {
            page: Some(page.map(|html| html.to_string())),
            scrape_replies,
            stage_replies,
            files: BTreeMap::new(),
            dirs: Vec::new(),
            records: Vec::new(),
            built: false,
            broken: None,
            pdf_broken: false,
            pdf_missing: false,
        }
    }

    fn reply(queue: &mut Vec<Result<String, LlmError>>, _request: LlmRequest) -> Event {
        let reply = queue.remove(0).map(|content| LlmResponse {
            content,
            usage: TokenUsage { prompt: 10, completion: 5, total: 15 },
            raw: json("{}"),
        });
        Event::Reply { reply, timestamp: "now".into() }
    }

    fn done(&self, path: &FsPath) -> Result<(), String> {
        match self.broken {
            Some(end) if shown(path).ends_with(end) => Err(format!("cannot touch {end}")),
            _ => Ok(()),
        }
    }

    fn perform(&mut self, action: Action) -> Event {
        match action {
            Action::FetchHtml { idle_timeout_ms, .. } => {
                assert_eq!(idle_timeout_ms, 1000);
                Event::Page(self.page.take().expect("scraper called twice"))
            }
            Action::AskScrape(request) => World::reply(&mut self.scrape_replies, request),
            Action::TakeAudit => Event::Audit(Ok(Vec::new())),
            Action::CreateFolder { dirs, path } => {
                assert_eq!(dirs.len(), 3);
                let result = self.done(&path);
                if result.is_ok() {
                    self.dirs.push(shown(&path));
                }
                Event::Done(result)
            }
            Action::WriteFile { path, content } => {
                let result = self.done(&path);
                if result.is_ok() {
                    self.files.insert(shown(&path), content);
                }
                Event::Done(result)
            }
            Action::BuildStages { dir, records } => {
                assert_eq!(shown(&dir), self.dirs[0]);
                self.records.extend(records);
                self.built = true;
                Event::Built(match self.broken {
                    Some("stages") => Err(stages_error("tls")),
                    _ => Ok(()),
                })
            }
            Action::LoadCache { path } => Event::Stored {
                stored: Ok(self.files.get(&shown(&path)).cloned()),
                shown: shown(&path),
            },
            Action::StoreCache(write) => {
                self.files.insert(shown(&write.path), write.content);
                Event::Done(self.done(&write.path))
            }
            Action::AskKeywords { record, request } => {
                self.records.extend(record);
                World::reply(&mut self.stage_replies, request)
            }
            Action::WriteKeywords { path } => {
                self.files.insert(shown(&path), "keywords".into());
                Event::KeywordsWritten(self.done(&path).map_err(AtsError::Io))
            }
            Action::AskOptimize(request) => World::reply(&mut self.stage_replies, request),
            Action::ReportDensity(report) => Event::Density(Value::from(
                (report.numerator as f32 / report.denominator as f32) as f64,
            )),
            Action::RenderPdf { markdown, path } => {
                if self.pdf_broken {
                    return Event::Pdf(Err(PdfError::Render("no font".into())));
                }
                if !self.pdf_missing {
                    self.files.insert(shown(&path), format!("%PDF-1.4\n{markdown}\n%%EOF\n"));
                }
                Event::Pdf(Ok(()))
            }
            Action::CheckFile { path } => Event::Exists(self.files.contains_key(&shown(&path))),
            Action::CreateDir { path } => {
                assert!(shown(&path).ends_with("/output"));
                Event::Done(self.done(&path))
            }
            Action::CopyFile { from, to } => {
                let content = self.files[&shown(&from)].clone();
                self.files.insert(shown(&to), content);
                Event::Done(Ok(()))
            }
            Action::RenameFile { from, to } => {
                let result = self.done(&to);
                if result.is_ok() {
                    let content = self.files.remove(&shown(&from)).unwrap();
                    self.files.insert(shown(&to), content);
                }
                Event::Done(result)
            }
        }
    }

    fn run(&mut self) -> Result<(RunFolder, RunPipelineResult), RunPipelineError> {
        let input = RunPipelineInput {
            url: "https://example.com/job/1".into(),
            yaml_bytes: minimal_resume_yaml().to_vec(),
            resume: parse_and_validate(minimal_resume_yaml()).unwrap(),
        };
        let layout = BinaryFsLayout::new_rooted_at("/srv/ats");
        let (mut pipeline, mut action) = Pipeline::start(input, test_config(), started(), layout);
        loop {
            let event = self.perform(action);
            assert!(pipeline.accepts(&event));
            match pipeline.step(event) {
                Step::Next { pipeline: next, action: wanted } => {
                    pipeline = next;
                    action = wanted;
                }
                Step::Finished { run, result } => return Ok((run, result)),
                Step::Failed { error, record, cleanup } => {
                    self.records.extend(record);
                    if let Some(path) = cleanup {
                        self.files.remove(&shown(&path));
                    }
                    return Err(error);
                }
            }
        }
    }
}

fn happy_world() -> World {
    World::new(
        Ok("<html></html>"),
        vec![Ok(scrape_json("Senior Rust Engineer", "# Role\nBuild Rust services.\n"))],
        vec![
            Ok(valid_keywords_json().to_string()),
            Ok("# Jane Doe\nOptimized resume content with Rust.\n".to_string()),
        ],
    )
}

const RUN_DIR: &str = "/srv/ats/runs/20260422-143015_run_senior-rust-engineer";

#[test]
fn happy_path_materialises_all_artefacts_and_copies_pdf() {
    let mut world = happy_world();
    let (run, pipeline) = match world.run() {
        Ok(r) => r,
        Err(_) => panic!("expected happy path to succeed"),
    };
    let left = after_success(
        run,
        &pipeline,
        &shown(&pipeline.output_pdf),
        json(r#"{"url":"u"}"#),
        test_config().redacted_snapshot(),
    );
    let run = left.run.unwrap();
    let (code, text) = conclude(&run, &left.result, "2026-04-22", "2026-04-22");
    assert_eq!(code, 0);

    let dir_name = run.path().names.last().unwrap().clone();
    assert!(
        dir_name.starts_with("20260422-") && dir_name.contains("_run_senior-rust-engineer"),
        "run dir name: {dir_name}"
    );
    assert_eq!(shown(&pipeline.run_dir), RUN_DIR);
    for expected in [
        "baseline.md",
        "posting.json",
        "posting.md",
        "keywords.json",
        "keywords.md",
        "optimized.md",
    ] {
        assert!(
            world.files.contains_key(&format!("{RUN_DIR}/{expected}")),
            "missing artefact: {expected}"
        );
    }
    let name = "20260422-143015_senior-rust-engineer_resume";
    assert_eq!(shown(&pipeline.final_md), format!("{RUN_DIR}/{name}.md"));
    assert_eq!(shown(&pipeline.final_pdf), format!("{RUN_DIR}/{name}.pdf"));
    assert_eq!(shown(&pipeline.output_pdf), format!("/srv/ats/output/{name}.pdf"));
    assert!(world.files.contains_key(&shown(&pipeline.final_md)), "final .md missing");
    assert!(world.files[&shown(&pipeline.final_pdf)].starts_with("%PDF-"), "final pdf not a PDF");
    assert_eq!(pipeline.ts_prefix, "20260422-143015");
    assert_eq!(pipeline.slug, "senior-rust-engineer");

    let run_json = json(&text);
    assert_eq!(run_json["command"], "run");
    assert_eq!(run_json["outcome"], "success");
    assert_eq!(run_json["exit_code"], 0);
    assert_eq!(run_json["scrape_slug"], "senior-rust-engineer");
    assert_eq!(run_json["cached_baseline"], false);
    assert_eq!(run_json["cached"], false);
    let density = &run_json["keyword_density"];
    assert!(density["numerator"].is_number());
    assert_eq!(density["value"], run_json["density"]);
    assert_eq!(run_json["token_usage_total"]["total"], 45);
    assert_eq!(run_json["total_tokens"]["total"], 45);
    assert_eq!(run_json["final_pdf"], shown(&pipeline.output_pdf).as_str());
    assert_eq!(run_json["args_summary"]["url"], "u");
    assert_eq!(run_json["config_snapshot"]["openrouter"]["api_key"], "***");

    assert_eq!(
        world.files[&shown(&pipeline.final_pdf)],
        world.files[&shown(&pipeline.output_pdf)],
        "output/ copy must match run folder pdf"
    );
    assert_eq!(world.records.len(), 0);
    assert_eq!(
        world.files[&format!("{RUN_DIR}/posting.json")],
        "{\n  \"markdown\": \"# Role\\nBuild Rust services.\\n\",\n  \"title\": \"Senior Rust Engineer\"\n}"
    );
    assert!(!world.files.keys().any(|k| k.contains(".tmp_")));
}

#[test]
fn second_run_reuses_the_baseline() {
    let mut world = happy_world();
    assert!(world.run().is_ok());
    let files = std::mem::take(&mut world.files);
    let mut second = happy_world();
    second.files = files;
    let (_, pipeline) = second.run().ok().unwrap();
    assert!(pipeline.cached_baseline);
}

#[test]
fn scrape_offline_leaves_no_run_folder_and_exits_four() {
    let mut world = World::new(Err(ScrapeError::Offline("unreachable".into())), vec![], vec![]);
    let err = match world.run() {
        Err(RunPipelineError::Early(e)) => e,
        Err(RunPipelineError::Late { .. }) => panic!("expected Early failure"),
        Ok(_) => panic!("expected scrape to fail"),
    };
    assert_eq!(err.exit_code(), 4, "{:?}", err);
    assert_eq!(err.class(), "scrape");
    assert!(!world.built, "build_stages must not run on scrape failure");
    assert!(world.dirs.is_empty(), "pre-scrape failure must not create any run folder");
    assert!(world.files.is_empty(), "no PDF should land in output/");
    let left = after_failure(RunPipelineError::Early(err), json("{}"), json("{}"));
    assert!(left.run.is_none());
    assert_eq!(left.result.unwrap_err().exit_code(), 4);
}

#[test]
fn keywords_schema_invalid_three_times_materialises_failed_run_and_exits_six() {
    let bad = r#"{"nope": true}"#.to_string();
    let mut world = World::new(
        Ok("<html>ok</html>"),
        vec![Ok(scrape_json("Staff Engineer", "# Role\nLead teams.\n"))],
        vec![Ok(bad.clone()), Ok(bad.clone()), Ok(bad)],
    );
    let (run, err) = match world.run() {
        Err(RunPipelineError::Late { run, err }) => (run, err),
        Err(RunPipelineError::Early(e)) => panic!("expected Late failure, got Early({e:?})"),
        Ok(_) => panic!("expected schema failure, got Ok"),
    };
    assert_eq!(err.exit_code(), 6, "{:?}", err);
    assert_eq!(err.class(), "schema-invalid");

    let run_json = json(&run.finalize("a", "b", RunOutcome::Failure("schema-invalid"), 6));
    assert_eq!(run_json["outcome"], "schema-invalid");
    assert_eq!(run_json["exit_code"], 6);
    let tag = classify_outcome(&err);
    assert_eq!(tag.as_outcome().as_tag(), "schema-invalid");

    let recs = &world.records;
    assert_eq!(recs.len(), 3, "expected 3 schema attempts, got {}", recs.len());
    for r in recs {
        assert_eq!(r.stage, "keywords");
        assert_eq!(r.outcome, "schema-invalid");
    }

    let dir = shown(&run.path());
    assert!(world.files.contains_key(&format!("{dir}/posting.json")));
    assert!(world.files.contains_key(&format!("{dir}/baseline.md")));
    assert!(!world.files.contains_key(&format!("{dir}/optimized.md")));

    let left = after_failure(
        RunPipelineError::Late { run, err },
        json(r#"{"yaml":"y"}"#),
        json("{}"),
    );
    let run = left.run.unwrap();
    let (code, text) = conclude(&run, &left.result, "a", "b");
    assert_eq!(code, 6);
    assert_eq!(json(&text)["args_summary"]["yaml"], "y");
}

#[test]
fn every_file_operation_can_fail_a_run() {
    let cases = [
        ("20260422-143015_run_senior-rust-engineer", false),
        ("posting.json", true),
        ("posting.md", true),
        ("stages", true),
        ("baseline.md", true),
        ("keywords.json", true),
        ("keywords.md", true),
        ("optimized.md", true),
        ("_resume.md", true),
        ("/output", true),
        ("/output/20260422-143015_senior-rust-engineer_resume.pdf", true),
    ];
    for (end, late) in cases {
        let mut world = happy_world();
        world.broken = Some(end);
        match world.run() {
            Err(RunPipelineError::Early(e)) => {
                assert!(!late, "{end}");
                assert_eq!(e.exit_code(), 1);
            }
            Err(RunPipelineError::Late { run, err }) => {
                assert!(late, "{end}");
                assert_eq!(err.exit_code(), 1);
                assert_eq!(shown(&run.path()), RUN_DIR);
            }
            Ok(_) => panic!("{end} did not fail the run"),
        }
        assert!(!world.files.keys().any(|k| k.contains(".tmp_")), "{end} left a copy behind");
    }
}

#[test]
fn pdf_failures_are_late() {
    let mut world = happy_world();
    world.pdf_broken = true;
    match world.run() {
        Err(RunPipelineError::Late { err, .. }) => {
            assert_eq!((err.exit_code(), err.to_string().as_str()), (7, "pdf error: render: no font"))
        }
        _ => panic!("expected a late failure"),
    }
    let mut world = happy_world();
    world.pdf_missing = true;
    match world.run() {
        Err(RunPipelineError::Late { err, .. }) => {
            assert_eq!(err.to_string(), "pdf error: pdf output missing after render")
        }
        _ => panic!("expected a late failure"),
    }
}

#[test]
fn model_failures_after_the_scrape_are_late() {
    let mut world = happy_world();
    world.stage_replies = vec![Err(LlmError::Auth("401".into()))];
    match world.run() {
        Err(RunPipelineError::Late { run, err }) => {
            assert_eq!(err.exit_code(), 5);
            assert_eq!(run.aggregated_token_usage().total, 15);
        }
        _ => panic!("expected a late failure"),
    }
    let mut world = happy_world();
    world.stage_replies[1] = Err(LlmError::Other("odd".into()));
    match world.run() {
        Err(RunPipelineError::Late { run, err }) => {
            assert_eq!(err.to_string(), "llm error: llm-other: odd");
            assert_eq!(run.aggregated_token_usage().total, 30);
        }
        _ => panic!("expected a late failure"),
    }
    let mut world = happy_world();
    world.scrape_replies = vec![Err(LlmError::Auth("401".into()))];
    assert!(matches!(world.run(), Err(RunPipelineError::Early(e)) if e.exit_code() == 5));
}

fn begin(events: Vec<run_command::Event>) -> run_command::Step {
    let layout = BinaryFsLayout::new_rooted_at("/srv/ats");
    let (mut state, action) = Run::start(test_config(), layout, "r.yaml", "https://h/");
    assert!(matches!(action, run_command::Action::CreateDirs(dirs) if dirs.len() == 3));
    let mut events = events.into_iter().peekable();
    while let Some(event) = events.next() {
        assert!(state.accepts(&event));
        match state.step(event) {
            run_command::Step::Next { state: next, .. } => state = next,
            other => {
                assert!(events.peek().is_none());
                return other;
            }
        }
    }
    panic!("the command is not over");
}

fn failure(step: run_command::Step) -> (i32, String) {
    match step {
        run_command::Step::Failed(e) => (e.exit_code(), e.to_string()),
        _ => panic!("expected a failure"),
    }
}

#[test]
fn a_run_begins_only_with_a_good_document() {
    let ready = || run_command::Event::Done(Ok(()));
    assert_eq!(
        failure(begin(vec![run_command::Event::Done(Err("read-only".into()))])),
        (1, "io error: read-only".to_string())
    );
    let missing = ReadFailure { missing: true, cause: "x".into() };
    assert_eq!(
        failure(begin(vec![ready(), run_command::Event::Yaml(Err(missing))])),
        (3, "yaml error: yaml file not found: r.yaml".to_string())
    );
    let (code, message) =
        failure(begin(vec![ready(), run_command::Event::Yaml(Ok(b"cv: {}".to_vec()))]));
    assert_eq!(code, 3);
    assert!(message.starts_with("yaml error: cv."), "{message}");
    let document = || run_command::Event::Yaml(Ok(minimal_resume_yaml().to_vec()));
    let connected = |client: Result<(), String>| run_command::Event::Connected {
        started_at: started(),
        client,
    };
    assert_eq!(
        failure(begin(vec![ready(), document(), connected(Err("tls".into()))])),
        (1, "openrouter (scrape): tls".to_string())
    );
    match begin(vec![ready(), document(), connected(Ok(()))]) {
        run_command::Step::Begin { pipeline, action } => {
            assert_eq!(pipeline.plan.started_at, started());
            assert!(matches!(action, Action::FetchHtml { url, .. } if url == "https://h/"));
        }
        _ => panic!("expected the run to begin"),
    }
}

#[test]
fn tokens_that_do_not_fit_end_a_run_with_its_folder() {
    let mut world = happy_world();
    let start = || {
        let input = RunPipelineInput {
            url: "https://example.com/job/1".into(),
            yaml_bytes: minimal_resume_yaml().to_vec(),
            resume: parse_and_validate(minimal_resume_yaml()).unwrap(),
        };
        let layout = BinaryFsLayout::new_rooted_at("/srv/ats");
        Pipeline::start(input, test_config(), started(), layout)
    };
    let (early, _) = start();
    assert!(matches!(
        early.give_up(AtsError::Other("no".into())),
        RunPipelineError::Early(AtsError::Other(m)) if m == "no"
    ));
    let (mut pipeline, mut action) = start();
    loop {
        let mut event = world.perform(action);
        if let Event::Reply { reply: Ok(response), .. } = &mut event {
            if !world.dirs.is_empty() {
                response.usage.total = u64::MAX;
            }
        }
        if !pipeline.accepts(&event) {
            break;
        }
        let Step::Next { pipeline: next, action: wanted } = pipeline.step(event) else {
            panic!("the tokens do not fit")
        };
        pipeline = next;
        action = wanted;
    }
    let RunPipelineError::Late { run, err } = pipeline.give_up(AtsError::Other("no".into())) else {
        panic!("there is a folder")
    };
    assert_eq!(err.exit_code(), 1);
    assert!(shown(&run.path()).ends_with("20260422-143015_run_senior-rust-engineer"));
}
