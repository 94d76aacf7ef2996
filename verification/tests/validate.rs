use ats::decode::Decode;
use ats::domain::ResumeYaml;
use ats::render::validate::{
    json_pointer_to_dotted, parse_and_validate, read_validated, violation_to_diag,
};
use ats::schema::{Violation, ViolationKind};
use serde_json::Value;

#[test]
fn json_pointer_empty_maps_to_empty_string() {
    assert_eq!(json_pointer_to_dotted(""), "");
}

#[test]
fn json_pointer_root_with_field() {
    assert_eq!(json_pointer_to_dotted("/cv"), "cv");
}

#[test]
fn json_pointer_nested_object() {
    assert_eq!(
        json_pointer_to_dotted("/cv/personal_information/full_name"),
        "cv.personal_information.full_name"
    );
}

#[test]
fn json_pointer_array_index_is_bracketed_and_attached() {
    assert_eq!(
        json_pointer_to_dotted("/cv/work_experience/1/start_date"),
        "cv.work_experience[1].start_date"
    );
}

#[test]
fn json_pointer_trailing_array_index() {
    assert_eq!(json_pointer_to_dotted("/cv/skills/0"), "cv.skills[0]");
}

#[test]
fn json_pointer_unescapes_slash_and_tilde() {
    assert_eq!(json_pointer_to_dotted("/foo~1bar"), "foo/bar");
    assert_eq!(json_pointer_to_dotted("/foo~0bar"), "foo~bar");
}

#[test]
fn json_pointer_leading_array_index_is_bracketed_standalone() {
    assert_eq!(json_pointer_to_dotted("/0"), "[0]");
}

#[test]
fn json_pointer_edge_cases() {
    assert_eq!(json_pointer_to_dotted("/a/~01"), "a.~1");
    assert_eq!(json_pointer_to_dotted("/a//b"), "a..b");
    assert_eq!(json_pointer_to_dotted("///a"), "a");
    assert_eq!(json_pointer_to_dotted("/0/1"), "[0][1]");
    assert_eq!(json_pointer_to_dotted("/0/x"), "[0].x");
    assert_eq!(json_pointer_to_dotted("/1a/2"), "1a[2]");
    assert_eq!(json_pointer_to_dotted("/\u{661}"), "\u{661}");
}

fn happy_yaml() -> Vec<u8> {
    br#"
cv:
  personal_information:
    full_name: Jane Doe
    email: jane@example.com
    phone: "+1 555-0100"
    linkedin_url: https://linkedin.com/in/jane
    location: Remote
  professional_summary: "Experienced engineer."
"#
    .to_vec()
}

#[test]
fn happy_path_returns_resume() {
    let resume = parse_and_validate(&happy_yaml()).expect("valid YAML must parse");
    assert_eq!(resume.personal_information.full_name, "Jane Doe");
    assert!(resume.skills.is_empty());
    assert!(resume.work_experience.is_empty());
}

#[test]
fn missing_required_field_names_dotted_path() {
    let yaml = br#"
cv:
  personal_information:
    full_name: Jane Doe
    email: jane@example.com
    phone: "+1 555-0100"
    linkedin_url: https://linkedin.com/in/jane
    location: Remote
"#;
    let err = parse_and_validate(yaml).unwrap_err();
    let path = err.path.as_deref().unwrap_or("");
    assert!(
        path.contains("professional_summary"),
        "expected path to name professional_summary, got {}",
        err.to_string()
    );
    assert_eq!(
        err.to_string(),
        "cv.professional_summary: `professional_summary` is a required property"
    );
}

#[test]
fn wrong_type_at_nested_array_index_maps_to_bracket_path() {
    let yaml = br#"
cv:
  personal_information:
    full_name: Jane Doe
    email: jane@example.com
    phone: "+1"
    linkedin_url: https://example.com
    location: Remote
  professional_summary: "ok"
  work_experience:
    - job_title: One
      company_name: First
      location: NYC
      start_date: "01/2020"
      end_date: "Present"
    - job_title: Two
      company_name: Second
      location: NYC
      start_date: 42
      end_date: "01/2024"
"#;
    let err = parse_and_validate(yaml).unwrap_err();
    let path = err.path.as_deref().unwrap_or("");
    assert_eq!(
        path, "cv.work_experience[1].start_date",
        "expected bracketed index path, got `{path}`"
    );
    assert_eq!(err.reason, "42 is not of type \"string\"");
}

#[test]
fn syntax_error_sets_line_and_column() {
    let yaml = b"cv:\n\tpersonal_information: {}\n";
    let err = parse_and_validate(yaml).unwrap_err();
    assert!(err.path.is_none(), "syntax errors have no structural path");
    assert!(
        err.line.is_some(),
        "syntax errors must carry a line number when the parser provides one"
    );
    assert!(err.reason.starts_with("invalid YAML: "), "{}", err.reason);
}

#[test]
fn unknown_keys_are_listed() {
    let mut yaml = happy_yaml();
    yaml.extend_from_slice(b"  hobbies: []\n  zeal: 1\n");
    let err = parse_and_validate(&yaml).unwrap_err();
    assert_eq!(err.path.as_deref(), Some("cv"));
    assert_eq!(err.reason, "unexpected additional properties: hobbies, zeal");
}

#[test]
fn document_without_cv_is_reported_at_its_key() {
    let err = parse_and_validate(b"{}").unwrap_err();
    assert_eq!(err.to_string(), "cv: `cv` is a required property");
    let err = parse_and_validate(b"- a\n").unwrap_err();
    assert!(err.path.is_none());
    assert!(err.reason.contains("is not of type \"object\""), "{}", err.reason);
}

#[test]
fn missing_summary_is_rejected_with_path() {
    let yaml = b"cv:\n  personal_information:\n    full_name: J\n    email: e\n    phone: p\n    linkedin_url: l\n    location: r\n";
    let err = parse_and_validate(yaml).unwrap_err();
    assert_eq!(err.path.as_deref(), Some("cv.professional_summary"));
    assert!(err.line.is_none() && err.column.is_none());
}

fn violation(path: &str, kind: ViolationKind) -> Violation {
    Violation { instance_path: path.into(), message: "the message".into(), kind }
}

#[test]
fn violations_become_diagnostics() {
    let d = violation_to_diag(&violation("/cv/skills/2", ViolationKind::Other));
    assert_eq!(d.to_string(), "cv.skills[2]: the message");
    let d = violation_to_diag(&violation("", ViolationKind::Other));
    assert_eq!(d.to_string(), "the message");
    let d = violation_to_diag(&violation("", ViolationKind::Required(Value::from("cv"))));
    assert_eq!(d.to_string(), "cv: `cv` is a required property");
    let d = violation_to_diag(&violation("/cv", ViolationKind::Required(Value::from(3))));
    assert_eq!(d.to_string(), "cv.: `` is a required property");
    let d = violation_to_diag(&violation(
        "/cv",
        ViolationKind::AdditionalProperties(vec!["a".into(), "b".into()]),
    ));
    assert_eq!(d.to_string(), "cv: unexpected additional properties: a, b");
}

#[test]
fn a_verdict_decides_before_the_types_do() {
    let value: Value = serde_json::from_str("{}").unwrap();
    let err = read_validated(&value, Ok(Some(violation("/x", ViolationKind::Other)))).unwrap_err();
    assert_eq!(err.to_string(), "x: the message");
    let err = read_validated(&value, Ok(None)).unwrap_err();
    assert_eq!(err.to_string(), ".: missing field `cv`");
    let err = read_validated(&value, Err("broken".into())).unwrap_err();
    assert_eq!(err.to_string(), "resume schema: broken");
}

fn decode(json: &str) -> Result<ResumeYaml, String> {
    let value: Value = serde_json::from_str(json).unwrap();
    ResumeYaml::decode(&value, "").map_err(|e| format!("{}: {}", e.path, e.reason))
}

#[test]
fn missing_optional_vecs_default_to_empty() {
    let yaml = r#"
cv:
  personal_information:
    full_name: "Jane"
    email: "jane@x"
    phone: "555"
    linkedin_url: "https://linkedin"
    location: "Remote"
  professional_summary: "One line."
"#;
    let parsed = parse_and_validate(yaml.as_bytes()).unwrap();
    assert!(parsed.skills.is_empty());
    assert!(parsed.work_experience.is_empty());
    assert!(parsed.education.is_empty());
    assert!(parsed.certifications.is_empty());
}

#[test]
fn end_date_present_is_preserved_verbatim() {
    let yaml = r#"
cv:
  personal_information:
    full_name: "Jane"
    email: "jane@x"
    phone: "555"
    linkedin_url: "https://linkedin"
    location: "Remote"
  professional_summary: "One line."
  work_experience:
    - job_title: "Engineer"
      company_name: "Acme"
      location: "Remote"
      start_date: "01/2023"
      end_date: "Present"
"#;
    let parsed = parse_and_validate(yaml.as_bytes()).unwrap();
    assert_eq!(parsed.work_experience[0].end_date, "Present");
}

const CONTACT: &str =
    r#""personal_information":{"full_name":"a","email":"b","phone":"c","linkedin_url":"d","location":"e"}"#;

#[test]
fn decoding_reports_the_first_failure() {
    assert_eq!(decode("{}").unwrap_err(), ": missing field `cv`");
    assert_eq!(decode(r#"{"cv":{}}"#).unwrap_err(), "cv: missing field `personal_information`");
    assert_eq!(
        decode(&format!(r#"{{"cv":{{{CONTACT}}}}}"#)).unwrap_err(),
        "cv: missing field `professional_summary`"
    );
    assert_eq!(
        decode(&format!(
            r#"{{"cv":{{{CONTACT},"professional_summary":"s","skills":[{{"category":"x","items":["a",1]}}]}}}}"#
        ))
        .unwrap_err(),
        "cv.skills[0].items[1]: invalid type: integer `1`, expected a string"
    );
    assert_eq!(
        decode(&format!(
            r#"{{"cv":{{{CONTACT},"professional_summary":"s","education":{{}},"skills":3}}}}"#
        ))
        .unwrap_err(),
        "cv.education: invalid type: map, expected a sequence"
    );
    assert_eq!(
        decode(&format!(r#"{{"cv":{{{CONTACT},"professional_summary":null}}}}"#)).unwrap_err(),
        "cv.professional_summary: invalid type: null, expected a string"
    );
}

#[test]
fn decoding_reads_every_field() {
    let doc = decode(&format!(
        r#"{{"cv":{{{CONTACT},"professional_summary":"s","ignored":1,
          "skills":[{{"category":"k","items":["i","j"]}},{{"category":"l"}}],
          "work_experience":[{{"job_title":"t","company_name":"c","location":"l","start_date":"s","end_date":"e","bullets":["b"]}}],
          "education":[{{"degree_name":"d","institution":"i","location":"l","graduation_date":"g"}}],
          "certifications":[{{"title":"t","issuing_organization":"o","year":"y"}}]}}}}"#
    ))
    .unwrap();
    let cv = doc.cv;
    assert_eq!(cv.personal_information.phone, "c");
    assert_eq!(cv.personal_information.linkedin_url, "d");
    assert_eq!(cv.skills[0].items, vec!["i", "j"]);
    assert!(cv.skills[1].items.is_empty());
    assert_eq!(cv.work_experience[0].company_name, "c");
    assert_eq!(cv.work_experience[0].bullets, vec!["b"]);
    assert_eq!(cv.education[0].graduation_date, "g");
    assert_eq!(cv.certifications[0].issuing_organization, "o");
}
