use ats::domain::{Certification, Degree, Job, PersonalInformation, Resume, SkillCategory};
use ats::fs_layout::BinaryFsLayout;
use ats::render::cache::{cache_path, hash_key_with_template, load_or_render};
use ats::render::render_baseline;
use ats::{hash_key, parse_and_validate};
use sha2::Digest;

fn sample_personal() -> PersonalInformation {
    PersonalInformation {
        full_name: "Jane Doe".into(),
        email: "jane@example.com".into(),
        phone: "+1 555-0100".into(),
        linkedin_url: "https://linkedin.com/in/jane".into(),
        location: "Remote, US".into(),
    }
}

fn minimal_resume() -> Resume {
    Resume {
        personal_information: sample_personal(),
        professional_summary: "Senior engineer with 10 years experience.".into(),
        skills: Vec::new(),
        work_experience: Vec::new(),
        education: Vec::new(),
        certifications: Vec::new(),
    }
}

#[test]
fn minimal_renders_only_required_sections() {
    let rendered = render_baseline(&minimal_resume());
    assert!(rendered.starts_with("# Jane Doe\n"));
    assert!(rendered.contains("## Professional Summary"));
    assert!(!rendered.contains("## Skills"));
    assert!(!rendered.contains("## Work Experience"));
    assert!(!rendered.contains("## Education"));
    assert!(!rendered.contains("## Certifications"));
    assert!(rendered.ends_with('\n'));
}

#[test]
fn header_contains_all_five_identifiers_pipe_joined() {
    let rendered = render_baseline(&minimal_resume());
    let second_line = rendered.lines().nth(1).unwrap();
    assert_eq!(
        second_line,
        "jane@example.com | +1 555-0100 | https://linkedin.com/in/jane | Remote, US"
    );
}

#[test]
fn summary_trims_trailing_whitespace() {
    let mut r = minimal_resume();
    r.professional_summary = "Hello world.\n\n".into();
    let rendered = render_baseline(&r);
    assert!(rendered.contains("## Professional Summary\nHello world."));
    assert!(!rendered.contains("Hello world.\n\n\n\n"));
}

#[test]
fn skills_section_skipped_when_every_category_is_empty() {
    let mut r = minimal_resume();
    r.skills = vec![SkillCategory { category: "Empty".into(), items: Vec::new() }];
    assert!(!render_baseline(&r).contains("## Skills"));
}

#[test]
fn skills_section_uses_star_bullet_and_joins_items() {
    let mut r = minimal_resume();
    r.skills = vec![SkillCategory {
        category: "Languages".into(),
        items: vec!["Rust".into(), "Python".into()],
    }];
    let rendered = render_baseline(&r);
    assert!(rendered.contains("## Skills\n* **Languages:** Rust, Python"));
}

#[test]
fn work_experience_preserves_present_and_en_dash() {
    let mut r = minimal_resume();
    r.work_experience = vec![Job {
        job_title: "Staff Engineer".into(),
        company_name: "Acme".into(),
        location: "Remote".into(),
        start_date: "01/2020".into(),
        end_date: "Present".into(),
        bullets: vec!["Did great things.".into()],
    }];
    let rendered = render_baseline(&r);
    assert!(rendered.contains("01/2020 \u{2013} Present"));
    assert!(rendered.contains("* Did great things."));
}

#[test]
fn work_experience_omits_bullets_when_empty() {
    let mut r = minimal_resume();
    r.work_experience = vec![Job {
        job_title: "Engineer".into(),
        company_name: "Corp".into(),
        location: "NYC".into(),
        start_date: "01/2018".into(),
        end_date: "12/2019".into(),
        bullets: Vec::new(),
    }];
    let rendered = render_baseline(&r);
    assert!(rendered.contains("NYC | 01/2018 \u{2013} 12/2019"));
    assert!(!rendered.contains("12/2019\n*"));
}

#[test]
fn education_and_certifications_formatting() {
    let mut r = minimal_resume();
    r.education = vec![Degree {
        degree_name: "BSc in CS".into(),
        institution: "State University".into(),
        location: "City, ST".into(),
        graduation_date: "05/2014".into(),
    }];
    r.certifications = vec![Certification {
        title: "AWS Certified Solutions Architect".into(),
        issuing_organization: "Amazon Web Services".into(),
        year: "2022".into(),
    }];
    let rendered = render_baseline(&r);
    assert!(rendered
        .contains("## Education\n\n\n**BSc in CS**\nState University, City, ST | 05/2014"));
    assert!(rendered.contains(
        "## Certifications\n* **AWS Certified Solutions Architect**, Amazon Web Services, 2022"
    ));
}

#[test]
fn sections_are_separated_by_two_blank_lines() {
    let mut r = minimal_resume();
    r.skills = vec![SkillCategory { category: "Languages".into(), items: vec!["Rust".into()] }];
    let rendered = render_baseline(&r);
    assert!(rendered.contains("Remote, US\n\n\n## Professional Summary"));
    assert!(rendered.contains("10 years experience.\n\n\n## Skills"));
}

#[test]
fn full_resume_byte_for_byte() {
    let r = Resume {
        personal_information: sample_personal(),
        professional_summary: "Builds things. \n".into(),
        skills: vec![
            SkillCategory { category: "Languages".into(), items: vec!["Rust".into(), "C".into()] },
            SkillCategory { category: "None".into(), items: vec![] },
            SkillCategory { category: "Tools".into(), items: vec!["Git".into()] },
        ],
        work_experience: vec![
            Job {
                job_title: "Two".into(),
                company_name: "B".into(),
                location: "NYC".into(),
                start_date: "02/2022".into(),
                end_date: "Present".into(),
                bullets: vec!["One.".into(), "  ".into(), "Two.".into()],
            },
            Job {
                job_title: "One".into(),
                company_name: "A".into(),
                location: "LA".into(),
                start_date: "01/2020".into(),
                end_date: "02/2022".into(),
                bullets: vec![],
            },
        ],
        education: vec![Degree {
            degree_name: "BSc".into(),
            institution: "Uni".into(),
            location: "City".into(),
            graduation_date: "2019".into(),
        }],
        certifications: vec![
            Certification { title: "X".into(), issuing_organization: "O".into(), year: "1".into() },
            Certification { title: "Y".into(), issuing_organization: "P".into(), year: "2".into() },
        ],
    };
    let expected = "# Jane Doe\n\
        jane@example.com | +1 555-0100 | https://linkedin.com/in/jane | Remote, US\n\n\n\
        ## Professional Summary\nBuilds things.\n\n\n\
        ## Skills\n* **Languages:** Rust, C\n* **Tools:** Git\n\n\n\
        ## Work Experience\n\n\n\
        **Two** | **B**\nNYC | 02/2022 \u{2013} Present\n* One.\n* Two.\n\n\n\
        **One** | **A**\nLA | 01/2020 \u{2013} 02/2022\n\n\n\
        ## Education\n\n\n**BSc**\nUni, City | 2019\n\n\n\
        ## Certifications\n* **X**, O, 1\n* **Y**, P, 2\n";
    let rendered = render_baseline(&r);
    assert_eq!(rendered, expected);
    assert!(rendered.lines().all(|l| !l.ends_with(' ')));
    assert!(rendered.ends_with('\n') && !rendered.ends_with("\n\n"));
}

fn sample_resume() -> Resume {
    Resume {
        personal_information: PersonalInformation {
            full_name: "Jane Doe".into(),
            email: "jane@example.com".into(),
            phone: "+1 555-0100".into(),
            linkedin_url: "https://linkedin.com/in/jane".into(),
            location: "Remote".into(),
        },
        professional_summary: "A summary.".into(),
        skills: Vec::new(),
        work_experience: Vec::new(),
        education: Vec::new(),
        certifications: Vec::new(),
    }
}

#[test]
fn hash_is_stable_and_lowercase_hex() {
    let hex = hash_key(b"anything");
    assert_eq!(hex.len(), 64, "sha256 hex is 64 chars, got {hex}");
    assert!(hex.chars().all(|c| c.is_ascii_hexdigit() && !c.is_ascii_uppercase()));
    assert_eq!(hex, hash_key(b"anything"));
}

#[test]
fn hash_of_known_bytes() {
    assert_eq!(
        hash_key_with_template(b"", b""),
        hash_key_with_template(b"\r\r", b"\r")
    );
    let direct = sha2::Sha256::digest(b"abc\n---\ndef");
    let hex: String = direct.iter().map(|b| format!("{b:02x}")).collect();
    assert_eq!(hash_key_with_template(b"abc", b"def"), hex);
}

#[test]
fn hash_differs_by_yaml_and_by_template() {
    let a = hash_key(b"one");
    let b = hash_key(b"two");
    assert_ne!(a, b, "different YAML must hash differently");

    let same_yaml_other_template = hash_key_with_template(b"one", b"## different template body");
    assert_ne!(a, same_yaml_other_template, "template changes must invalidate cache");
}

#[test]
fn first_call_writes_cache_second_call_hits() {
    let layout = BinaryFsLayout::new_rooted_at("/srv/ats");
    let yaml = b"cv: { anything: value }";
    let resume = sample_resume();

    let (miss, write) = load_or_render(&layout, yaml, &resume, None);
    assert!(!miss.cached, "first call must be a miss");
    let write = write.expect("cache file must be written");
    assert_eq!(write.content, miss.content, "written file matches returned content");
    assert_eq!(write.path, miss.path);
    assert_eq!(
        write.temporary.names.last().unwrap(),
        &format!("{}.tmp", write.path.names.last().unwrap())
    );
    assert_eq!(miss.content, render_baseline(&resume));

    let (hit, none) = load_or_render(&layout, yaml, &resume, Some(write.content));
    assert!(hit.cached, "second call must be a hit");
    assert!(none.is_none());
    assert_eq!(hit.content, miss.content);
    assert_eq!(hit.path, miss.path);
}

#[test]
fn hash_key_is_stable_across_crlf_vs_lf_yaml() {
    let lf = b"cv:\n  personal_information:\n    full_name: Jane\n";
    let crlf = b"cv:\r\n  personal_information:\r\n    full_name: Jane\r\n";
    assert_eq!(
        hash_key(lf),
        hash_key(crlf),
        "CRLF/LF variants of identical YAML must hash to the same key"
    );
}

#[test]
fn hash_key_changes_when_non_newline_bytes_change() {
    let a = hash_key(b"cv:\n  full_name: Jane\n");
    let b = hash_key(b"cv:\n  full_name: John\n");
    assert_ne!(a, b, "different non-newline content must hash differently");
}

#[test]
fn hash_key_is_stable_if_template_has_crlf() {
    let yaml = b"cv:\n  full_name: Jane\n";
    let template_lf = b"# {{full_name}}\n\n## Summary\n{{summary}}\n";
    let template_crlf = b"# {{full_name}}\r\n\r\n## Summary\r\n{{summary}}\r\n";
    assert_eq!(
        hash_key_with_template(yaml, template_lf),
        hash_key_with_template(yaml, template_crlf),
        "CRLF template must hash identically to LF template"
    );
}

#[test]
fn different_yaml_bytes_yield_different_cache_files() {
    let layout = BinaryFsLayout::new_rooted_at("/srv/ats");
    let a = cache_path(&layout, b"one");
    let b = cache_path(&layout, b"two");
    assert_ne!(a, b);
    assert_eq!(a.root, "/srv/ats");
    assert_eq!(a.names[0], "cache");
    assert_eq!(a.names[1], format!("baseline-{}.md", hash_key(b"one")));
}

#[test]
fn minimal_document_renders_two_blocks() {
    let yaml = b"cv:\n  personal_information:\n    full_name: \"Jane\"\n    email: \"jane@x\"\n    phone: \"555\"\n    linkedin_url: \"https://linkedin\"\n    location: \"Remote\"\n  professional_summary: \"One line.\"\n";
    let resume = parse_and_validate(yaml).unwrap();
    assert_eq!(
        render_baseline(&resume),
        "# Jane\njane@x | 555 | https://linkedin | Remote\n\n\n## Professional Summary\nOne line.\n"
    );
}

fn assert_tidy(rendered: &str) {
    for line in rendered.split('\n') {
        assert_eq!(line.trim_end(), line);
    }
    assert!(rendered.ends_with('\n') && !rendered.ends_with("\n\n"), "{rendered:?}");
}

#[test]
fn no_line_ends_in_white_space() {
    let mut r = minimal_resume();
    r.work_experience = vec![Job {
        job_title: "Engineer".into(),
        company_name: "Acme".into(),
        location: "Remote".into(),
        start_date: "2020".into(),
        end_date: "Present".into(),
        bullets: vec!["did ".into(), "first \n second\n".into(), "last\t\n\n".into()],
    }];
    let rendered = render_baseline(&r);
    assert!(rendered.ends_with(
        "Remote | 2020 \u{2013} Present\n* did\n* first\n second\n\n* last\n"
    ));
    assert_tidy(&rendered);
}

#[test]
fn empty_texts_leave_no_white_space() {
    let mut r = minimal_resume();
    r.personal_information.full_name = " ".into();
    r.personal_information.location = String::new();
    r.professional_summary = " \n".into();
    let rendered = render_baseline(&r);
    assert_eq!(
        rendered,
        "#\njane@example.com | +1 555-0100 | https://linkedin.com/in/jane |\n\n\n\
         ## Professional Summary\n"
    );
    assert_tidy(&rendered);
    r.skills = vec![SkillCategory { category: "None ".into(), items: vec!["".into()] }];
    r.education = vec![Degree {
        degree_name: "BSc".into(),
        institution: "MIT\n".into(),
        location: "US".into(),
        graduation_date: " ".into(),
    }];
    r.certifications = vec![Certification {
        title: "CKA".into(),
        issuing_organization: "CNCF".into(),
        year: "".into(),
    }];
    let rendered = render_baseline(&r);
    assert!(rendered.ends_with(
        "## Professional Summary\n\n\n## Skills\n* **None :**\n\n\n## Education\n\n\n\
         **BSc**\nMIT\n, US |\n\n\n## Certifications\n* **CKA**, CNCF,\n"
    ));
    assert_tidy(&rendered);
}

#[test]
fn white_space_inside_a_line_stays() {
    let mut r = minimal_resume();
    r.personal_information.email = "e ".into();
    r.skills = vec![SkillCategory {
        category: "Languages ".into(),
        items: vec!["Rust ".into(), "Go ".into()],
    }];
    let rendered = render_baseline(&r);
    assert!(rendered.contains("\ne  | +1 555-0100 | "), "{rendered}");
    assert!(rendered.ends_with("* **Languages :** Rust , Go\n"), "{rendered}");
    assert_tidy(&rendered);
}
