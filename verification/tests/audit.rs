use ats::audit::{format_run_dir_ts, is_same_place, RenamePlan, RunFolder, RunOutcome, Timestamp};
use ats::config::{
    Config, ModelStageConfig, ModelsConfig, OpenRouterConfig, RetriesConfig, ScrapeConfig,
};
use ats::fs_layout::{BinaryFsLayout, FsPath};
use ats::openrouter::serialise_messages;
use ats::ports::{ChatMessage, ChatRole, TokenUsage};
use serde_json::Value;
use time::{Date, Month, PrimitiveDateTime, Time};

const STARTED: &str = "2026-04-22T14:30:15.000000000Z";

fn pinned() -> Timestamp {
    Timestamp { year: 2026, month: 4, day: 22, hour: 14, minute: 30, second: 15 }
}

fn layout() -> BinaryFsLayout {
    BinaryFsLayout::new_rooted_at("/srv/ats")
}

fn json(text: &str) -> Value {
    serde_json::from_str(text).unwrap()
}

fn last(path: &FsPath) -> String {
    path.names.last().unwrap().clone()
}

fn written(run: &RunFolder, outcome: RunOutcome, exit_code: i32) -> Value {
    json(&run.finalize(STARTED, STARTED, outcome, exit_code))
}

#[test]
fn creates_folder_without_slug() {
    let run = RunFolder::new_with_started_at(&layout(), pinned(), "render", None);
    assert_eq!(last(&run.path()), "20260422-143015_render");
    assert_eq!(run.path().root, "/srv/ats");
    assert_eq!(run.path().names[0], "runs");
    assert_eq!(run.started_at(), pinned());
}

#[test]
fn creates_folder_with_slug() {
    let run =
        RunFolder::new_with_started_at(&layout(), pinned(), "scrape", Some("acme-engineer"));
    assert_eq!(last(&run.path()), "20260422-143015_scrape_acme-engineer");
    let run = RunFolder::new_with_started_at(&layout(), pinned(), "scrape", Some(""));
    assert_eq!(last(&run.path()), "20260422-143015_scrape");
}

#[test]
fn finalize_writes_run_json_with_snapshot_and_exit_code() {
    let mut run = RunFolder::new_with_started_at(&layout(), pinned(), "render", None);
    run.set_args_summary(json(r#"{"yaml": "x.yaml"}"#));
    run.set_config_snapshot(json(
        r#"{"openrouter": {"api_key": "***", "base_url": "https://openrouter.ai/api/v1"}}"#,
    ));
    let body = written(&run, RunOutcome::Unimplemented, 1);
    assert_eq!(body["outcome"], "unimplemented");
    assert_eq!(body["exit_code"], 1);
    assert_eq!(body["command"], "render");
    assert_eq!(body["args_summary"]["yaml"], "x.yaml");
    assert_eq!(body["config_snapshot"]["openrouter"]["api_key"], "***");
    assert_eq!(body["token_usage_total"]["total"], 0);
    assert!(body["started_at"].as_str().unwrap().starts_with("2026-04-22"));
    assert!(body.get("slug").is_none());
}

#[test]
fn run_json_is_indented_and_complete() {
    let run = RunFolder::new_with_started_at(&layout(), pinned(), "scrape", Some("acme"));
    let text = run.finalize("a", "b", RunOutcome::Failure("scrape"), 4);
    assert_eq!(
        text,
        "{\n  \"args_summary\": null,\n  \"command\": \"scrape\",\n  \"config_snapshot\": null,\n  \
         \"exit_code\": 4,\n  \"finished_at\": \"b\",\n  \"outcome\": \"scrape\",\n  \
         \"slug\": \"acme\",\n  \"started_at\": \"a\",\n  \"token_usage_total\": {\n    \
         \"completion\": 0,\n    \"prompt\": 0,\n    \"total\": 0\n  }\n}"
    );
    let value = json(&text);
    assert_eq!(text, serde_json::to_string_pretty(&value).unwrap());
    assert_eq!(run.run_json("a", "b", RunOutcome::Failure("scrape"), 4), value);
}

#[test]
fn rename_with_slug_round_trip() {
    let mut run = RunFolder::new_with_started_at(&layout(), pinned(), "scrape", None);
    let original = run.path();
    match run.plan_rename("acme-engineer") {
        RenamePlan::Rename { from, to } => {
            assert_eq!(from, original);
            assert_eq!(last(&to), "20260422-143015_scrape_acme-engineer");
            run.renamed("acme-engineer");
            assert_eq!(run.path(), to);
        }
        _ => panic!("the folder has to be renamed"),
    }
    let made =
        RunFolder::new_with_started_at(&layout(), pinned(), "scrape", Some("acme-engineer"));
    assert_eq!(run.path(), made.path());
    assert_eq!(written(&run, RunOutcome::Success, 0)["slug"], "acme-engineer");
}

#[test]
fn rename_is_idempotent_when_slug_unchanged() {
    let mut run = RunFolder::new_with_started_at(&layout(), pinned(), "scrape", Some("acme"));
    let path_before = run.path();
    assert!(matches!(run.plan_rename("acme"), RenamePlan::Named));
    run.keep_path("acme");
    assert_eq!(run.path(), path_before);
    assert!(matches!(run.plan_rename(""), RenamePlan::Keep));
    assert_eq!(
        RunFolder::rename_refused("/x"),
        "refusing to rename run folder: /x already exists"
    );
}

#[test]
fn folder_names_are_compared_as_paths() {
    let mut run = RunFolder::new_with_started_at(&layout(), pinned(), "scrape", Some("acme"));
    for same in ["acme/", "acme//", "acme/.", "acme/./"] {
        assert!(matches!(run.plan_rename(same), RenamePlan::Named), "{same}");
    }
    for other in ["acme/..", "acme/x", ".acme", "acme.", "/acme"] {
        assert!(matches!(run.plan_rename(other), RenamePlan::Rename { .. }), "{other}");
    }
    assert!(is_same_place("a/b", "a//./b/"));
    assert!(!is_same_place("a/b", "ab") && !is_same_place("a", "a/b"));
    let before = run.path();
    run.keep_path("acme/");
    assert_eq!(run.path(), before);
    assert_eq!(written(&run, RunOutcome::Success, 0)["slug"], "acme/");
}

#[test]
fn extras_merge_into_run_json_top_level() {
    let mut run = RunFolder::new_with_started_at(&layout(), pinned(), "render", None);
    run.set_extra("cached", Value::from(true));
    run.set_extra("cache_path", Value::from("/tmp/baseline-abc.md"));
    let body = written(&run, RunOutcome::Success, 0);
    assert_eq!(body["cached"], true);
    assert_eq!(body["cache_path"], "/tmp/baseline-abc.md");
    assert_eq!(body["command"], "render");
}

#[test]
fn later_extras_shadow_earlier_ones() {
    let mut run = RunFolder::new_with_started_at(&layout(), pinned(), "render", None);
    run.set_extra("cached", Value::from(false));
    run.set_extra("command", Value::from("other"));
    run.set_extra("cached", Value::from(true));
    let body = written(&run, RunOutcome::Success, 0);
    assert_eq!(body["cached"], true);
    assert_eq!(body["command"], "other");
    assert_eq!(body["outcome"], "success");
}

#[test]
fn token_usage_accumulates() {
    let mut run = RunFolder::new_with_started_at(&layout(), pinned(), "keywords", None);
    run.add_token_usage(&TokenUsage { prompt: 10, completion: 5, total: 15 });
    run.add_token_usage(&TokenUsage { prompt: 1, completion: 2, total: 3 });
    let body = written(&run, RunOutcome::Success, 0);
    assert_eq!(body["token_usage_total"]["prompt"], 11);
    assert_eq!(body["token_usage_total"]["completion"], 7);
    assert_eq!(body["token_usage_total"]["total"], 18);
    assert_eq!(
        run.aggregated_token_usage(),
        TokenUsage { prompt: 11, completion: 7, total: 18 }
    );
}

#[test]
fn usages_that_do_not_fit_are_told_apart() {
    let big = TokenUsage { prompt: u64::MAX, completion: 0, total: 0 };
    let one = TokenUsage { prompt: 1, completion: 0, total: 0 };
    assert!(!big.can_add(&one) && !one.can_add(&big));
    assert!(big.can_add(&TokenUsage::zero()));
    assert_eq!(one.plus(&one), TokenUsage { prompt: 2, completion: 0, total: 0 });
    assert_eq!(TokenUsage::default(), TokenUsage::zero());
}

#[test]
fn folder_time_agrees_with_the_calendar_format() {
    let format = time::format_description::parse("[year][month][day]-[hour][minute][second]")
        .unwrap();
    for (year, month, day, hour, minute, second) in
        [(2026u16, 4u8, 22u8, 14u8, 30u8, 15u8), (7, 1, 2, 3, 4, 5), (9999, 12, 31, 23, 59, 59), (0, 10, 10, 0, 0, 0)]
    {
        let date = Date::from_calendar_date(year as i32, Month::try_from(month).unwrap(), day)
            .unwrap();
        let moment =
            PrimitiveDateTime::new(date, Time::from_hms(hour, minute, second).unwrap());
        let t = Timestamp { year, month, day, hour, minute, second };
        assert!(t.is_well_formed());
        assert_eq!(format_run_dir_ts(&t), moment.format(&format).unwrap());
    }
    assert!(!Timestamp { year: 10_000, month: 1, day: 1, hour: 0, minute: 0, second: 0 }
        .is_well_formed());
}

#[test]
fn chat_role_serializes_lowercase() {
    let msg = ChatMessage { role: ChatRole::System, content: "s".into() };
    let s = serialise_messages(&vec![msg]);
    assert!(s.contains("\"role\":\"system\""), "got: {s}");
    assert_eq!(ChatRole::System.as_str(), "system");
    assert_eq!(ChatRole::User.as_str(), "user");
    assert_eq!(ChatRole::Assistant.as_str(), "assistant");
}

fn stage(temperature: f64) -> ModelStageConfig {
    ModelStageConfig { name: "x/y".into(), temperature: Value::from(temperature), seed: 42 }
}

fn sample_config(api_key: &str) -> Config {
    Config {
        openrouter: OpenRouterConfig {
            api_key: api_key.into(),
            base_url: "https://openrouter.ai/api/v1".into(),
        },
        models: ModelsConfig {
            scrape_to_markdown: stage(0.0),
            keyword_extraction: stage(0.0),
            resume_optimization: stage(0.2),
        },
        scrape: ScrapeConfig { network_idle_timeout_ms: 30_000 },
        retries: RetriesConfig {
            llm_transient_max_attempts: 5,
            llm_transient_backoff_ms: vec![1000, 2000, 4000, 8000, 16000],
            schema_validation_max_attempts: 3,
        },
    }
}

#[test]
fn missing_file_is_config_error() {
    let err = Config::not_found("/srv/ats/config.json");
    assert_eq!(err.exit_code(), 2);
    let msg = err.to_string();
    assert!(msg.contains("config.json not found at"), "got message: {msg}");
    assert_eq!(msg, "config error: config.json not found at /srv/ats/config.json");
}

#[test]
fn other_config_errors() {
    let err = Config::unreadable("p", "denied");
    assert_eq!((err.exit_code(), err.to_string().as_str()), (2, "config error: p: cannot read: denied"));
    let err = Config::malformed("p", "missing field `seed`", "models.keyword_extraction");
    assert_eq!(err.exit_code(), 2);
    assert_eq!(
        err.to_string(),
        "config error: p: missing field `seed` at `models.keyword_extraction`"
    );
}

#[test]
fn redacted_snapshot_masks_api_key() {
    let snap = sample_config("secret").redacted_snapshot();
    assert_eq!(snap["openrouter"]["api_key"], "***");
    assert_eq!(snap["openrouter"]["base_url"], "https://openrouter.ai/api/v1");
    assert!(!snap.to_string().contains("secret"));
    assert_eq!(snap, sample_config("other").redacted_snapshot());
}

#[test]
fn snapshot_shows_everything_else() {
    let snap = sample_config("secret").redacted_snapshot();
    let expected = json(
        r#"{
  "openrouter": { "api_key": "***", "base_url": "https://openrouter.ai/api/v1" },
  "models": {
    "scrape_to_markdown":  { "name": "x/y", "temperature": 0.0, "seed": 42 },
    "keyword_extraction":  { "name": "x/y", "temperature": 0.0, "seed": 42 },
    "resume_optimization": { "name": "x/y", "temperature": 0.2, "seed": 42 }
  },
  "scrape": { "network_idle_timeout_ms": 30000 },
  "retries": {
    "llm_transient_max_attempts": 5,
    "llm_transient_backoff_ms": [1000, 2000, 4000, 8000, 16000],
    "schema_validation_max_attempts": 3
  }
}"#,
    );
    assert_eq!(snap, expected);
}
