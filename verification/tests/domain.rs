use ats::assets::{
    KEYWORD_RESPONSE_FORMAT, PROMPT_KEYWORD_EXTRACTION, PROMPT_RESUME_OPTIMIZATION,
    PROMPT_SCRAPE_TO_MARKDOWN, RESUME_TEMPLATE, SCRAPE_RESPONSE_FORMAT, YAML_SCHEMA,
};
use ats::decode::Decode;
use ats::domain::{
    CertificationKeyword, HardSkill, IndustryTerm, JobTitle, KeywordSet, SoftSkill,
};
use ats::fs_layout::{default_config_path, BinaryFsLayout, FsPath};
use ats::logging::{LogFormat, DEFAULT_FILTER};
use ats::schema::{keyword_response_format, scrape_response_format};
use serde_json::Value;

fn json(text: &str) -> Value {
    serde_json::from_str(text).unwrap()
}

const SCHEMA_SHAPE: &str = r#"{
    "hard_skills_and_tools": [{
        "primary_term": "Rust",
        "acronym": "",
        "semantic_cluster": "systems programming",
        "importance_score": 9
    }],
    "soft_skills_and_competencies": [{
        "primary_term": "Communication",
        "semantic_cluster": "collaboration",
        "importance_score": 5
    }],
    "industry_specific_terminology": [{
        "primary_term": "HIPAA",
        "acronym": "Health Insurance Portability and Accountability Act",
        "importance_score": 7
    }],
    "certifications_and_credentials": [{
        "primary_term": "AWS Certified Solutions Architect",
        "importance_score": 6
    }],
    "job_titles_and_seniority": [{
        "primary_term": "Senior Software Engineer",
        "importance_score": 8
    }]
}"#;

#[test]
fn deserialises_from_schema_shape() {
    let parsed = match KeywordSet::decode(&json(SCHEMA_SHAPE), "") {
        Ok(set) => set,
        Err(e) => panic!("{}: {}", e.path, e.reason),
    };
    assert_eq!(parsed.hard_skills_and_tools[0].primary_term, "Rust");
    assert!(!parsed.industry_specific_terminology[0].acronym.is_empty());
    assert_eq!(parsed.soft_skills_and_competencies[0].semantic_cluster, "collaboration");
    assert_eq!(parsed.certifications_and_credentials[0].importance_score, 6);
    assert_eq!(parsed.job_titles_and_seniority[0].importance_score, 8);
}

#[test]
fn all_primary_terms_covers_every_category() {
    let set = KeywordSet {
        hard_skills_and_tools: vec![HardSkill {
            primary_term: "Rust".into(),
            acronym: "".into(),
            semantic_cluster: "".into(),
            importance_score: 9,
        }],
        soft_skills_and_competencies: vec![SoftSkill {
            primary_term: "Leadership".into(),
            semantic_cluster: "".into(),
            importance_score: 4,
        }],
        industry_specific_terminology: vec![IndustryTerm {
            primary_term: "KPI".into(),
            acronym: "Key Performance Indicator".into(),
            importance_score: 7,
        }],
        certifications_and_credentials: vec![CertificationKeyword {
            primary_term: "PMP".into(),
            importance_score: 3,
        }],
        job_titles_and_seniority: vec![JobTitle {
            primary_term: "Staff Engineer".into(),
            importance_score: 8,
        }],
    };
    let terms: Vec<&str> = set.all_primary_terms();
    assert_eq!(terms, vec!["Rust", "Leadership", "KPI", "PMP", "Staff Engineer"]);
    assert!(KeywordSet::default().all_primary_terms().is_empty());
}

#[test]
fn resume_template_is_non_empty() {
    assert!(RESUME_TEMPLATE.contains("## Professional Summary"));
    assert!(RESUME_TEMPLATE.contains("## Work Experience"));
}

#[test]
fn yaml_schema_parses_as_json() {
    let value: Value =
        serde_json::from_str(YAML_SCHEMA).expect("yaml_schema.json must be valid JSON");
    assert_eq!(value["type"], "object");
}

#[test]
fn yaml_schema_compiles_as_jsonschema_validator() {
    let value: Value = serde_json::from_str(YAML_SCHEMA).unwrap();
    let validator = jsonschema::JSONSchema::options()
        .compile(&value)
        .expect("yaml_schema.json must compile as a JSON Schema validator");
    let ok = json(
        r#"{"cv": {
            "personal_information": {
                "full_name": "Jane Doe",
                "email": "jane@example.com",
                "phone": "+1 555-0100",
                "linkedin_url": "https://linkedin.com/in/jane",
                "location": "Remote"
            },
            "professional_summary": "Experienced engineer."
        }}"#,
    );
    assert!(validator.is_valid(&ok), "minimally-compliant document should validate");
}

#[test]
fn keyword_response_format_parses_as_json() {
    let value: Value = serde_json::from_str(KEYWORD_RESPONSE_FORMAT)
        .expect("ats_keyword_extraction.json must be valid JSON");
    assert_eq!(value["type"], "json_schema");
    assert_eq!(keyword_response_format().unwrap(), value);
}

#[test]
fn scrape_response_format_parses_as_json_and_inner_schema_compiles() {
    let value: Value = serde_json::from_str(SCRAPE_RESPONSE_FORMAT)
        .expect("job_posting_extraction.json must be valid JSON");
    assert_eq!(scrape_response_format().unwrap(), value);
    assert_eq!(value["type"], "json_schema");
    assert_eq!(value["json_schema"]["strict"], true);
    let inner = value
        .pointer("/json_schema/schema")
        .cloned()
        .expect("job_posting_extraction.json must contain /json_schema/schema");
    let validator = jsonschema::JSONSchema::options()
        .compile(&inner)
        .expect("inner schema must compile as a JSON Schema validator");
    let ok = json(r###"{"title": "Senior Rust Engineer", "markdown": "## About\n- build things"}"###);
    assert!(validator.is_valid(&ok));
    let missing_title = json(r#"{ "markdown": "body" }"#);
    assert!(!validator.is_valid(&missing_title));
}

#[test]
fn prompts_are_non_empty() {
    for (name, prompt) in [
        ("scrape_to_markdown", PROMPT_SCRAPE_TO_MARKDOWN),
        ("keyword_extraction", PROMPT_KEYWORD_EXTRACTION),
        ("resume_optimization", PROMPT_RESUME_OPTIMIZATION),
    ] {
        assert!(!prompt.trim().is_empty(), "prompt `{name}` must not be empty");
    }
}

fn shown(path: &FsPath) -> String {
    let mut out = path.root.clone();
    for name in &path.names {
        out.push('/');
        out.push_str(name);
    }
    out
}

#[test]
fn rooted_layout_returns_expected_children() {
    let layout = BinaryFsLayout::new_rooted_at("/opt/ats");
    assert_eq!(shown(&layout.binary_dir()), "/opt/ats");
    assert_eq!(shown(&layout.config_path()), "/opt/ats/config.json");
    assert_eq!(shown(&layout.cache_dir()), "/opt/ats/cache");
    assert_eq!(shown(&layout.runs_dir()), "/opt/ats/runs");
    assert_eq!(shown(&layout.output_dir()), "/opt/ats/output");
    let required: Vec<String> = layout.required_dirs().iter().map(shown).collect();
    assert_eq!(required, vec!["/opt/ats/cache", "/opt/ats/runs", "/opt/ats/output"]);
}

#[test]
fn config_override_wins() {
    let custom = "/opt/ats/custom.json".to_string();
    let layout =
        BinaryFsLayout::new_rooted_at("/opt/ats").with_config_override(Some(custom.clone()));
    assert_eq!(shown(&layout.config_path()), custom);
    assert_eq!(shown(&default_config_path(&layout.binary_dir())), "/opt/ats/config.json");
    let layout = layout.with_config_override(None);
    assert_eq!(shown(&layout.config_path()), "/opt/ats/config.json");
}

#[test]
fn parse_round_trip() {
    assert_eq!(LogFormat::parse("json").unwrap(), LogFormat::Json);
    assert_eq!(LogFormat::parse("pretty").unwrap(), LogFormat::Pretty);
    assert!(LogFormat::parse("xml").is_err());
}

#[test]
fn unknown_log_format_names_the_value() {
    assert_eq!(
        LogFormat::parse("JSON").unwrap_err(),
        "unknown --log-format value `JSON` (expected `json` or `pretty`)"
    );
    assert!(DEFAULT_FILTER.starts_with("info,"));
    assert_eq!("pretty".parse::<LogFormat>(), Ok(LogFormat::Pretty));
    assert!("".parse::<LogFormat>().is_err());
}
