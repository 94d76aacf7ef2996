//! The baseline resume as Markdown.
//!
//! Blocks stand in a fixed order, two blank lines apart: the contact header, the
//! summary, and then skills, work experience, education and certifications,
//! each only where it has something to show. Date ranges use the en dash. The
//! output ends with a single newline, and no line of it ends in white space.

use vstd::prelude::*;
use crate::domain::{Certification, Degree, Job, PersonalInformation, Resume, SkillCategory};
use crate::render::tidy;
use crate::text;

verus! {

// ---------------------------------------------------------------------------
// What is rendered
// ---------------------------------------------------------------------------

/// The contact header.
pub open spec fn header_block(p: PersonalInformation) -> Seq<char> {
    tidy::tidied(
        "# "@ + p.full_name@ + "\n"@ + p.email@ + " | "@ + p.phone@ + " | "@ + p.linkedin_url@
            + " | "@ + p.location@,
    )
}

/// The summary, without white space at its end.
pub open spec fn summary_block(summary: Seq<char>) -> Seq<char> {
    tidy::tidied("## Professional Summary\n"@ + text::trimmed_end(summary))
}

/// One skill category: its label and its terms.
pub open spec fn skill_line(c: SkillCategory) -> Seq<char> {
    "* **"@ + c.category@ + ":** "@ + text::joined(text::views(c.items@), ", "@)
}

/// The lines of the categories that have terms.
pub open spec fn skill_lines(skills: Seq<SkillCategory>) -> Seq<Seq<char>>
    decreases skills.len(),
{
    if skills.len() == 0 {
        Seq::empty()
    } else if skills.last().items@.len() == 0 {
        skill_lines(skills.drop_last())
    } else {
        skill_lines(skills.drop_last()).push(skill_line(skills.last()))
    }
}

/// The bullets of a job, each on a line of its own; blank ones are left out.
pub open spec fn bullet_lines(bullets: Seq<String>) -> Seq<char>
    decreases bullets.len(),
{
    if bullets.len() == 0 {
        Seq::empty()
    } else if text::trimmed(bullets.last()@).len() == 0 {
        bullet_lines(bullets.drop_last())
    } else {
        bullet_lines(bullets.drop_last()) + "\n* "@ + bullets.last()@
    }
}

/// One job.
pub open spec fn job_text(job: Job) -> Seq<char> {
    "**"@ + job.job_title@ + "** | **"@ + job.company_name@ + "**\n"@ + job.location@ + " | "@
        + job.start_date@ + " \u{2013} "@ + job.end_date@ + bullet_lines(job.bullets@)
}

/// One degree.
pub open spec fn degree_text(d: Degree) -> Seq<char> {
    "**"@ + d.degree_name@ + "**\n"@ + d.institution@ + ", "@ + d.location@ + " | "@
        + d.graduation_date@
}

/// One certification.
pub open spec fn certification_line(c: Certification) -> Seq<char> {
    "* **"@ + c.title@ + "**, "@ + c.issuing_organization@ + ", "@ + c.year@
}

/// The jobs, in order.
pub open spec fn job_texts(jobs: Seq<Job>) -> Seq<Seq<char>> {
    Seq::new(jobs.len(), |i: int| job_text(jobs[i]))
}

/// The degrees, in order.
pub open spec fn degree_texts(degrees: Seq<Degree>) -> Seq<Seq<char>> {
    Seq::new(degrees.len(), |i: int| degree_text(degrees[i]))
}

/// The certifications, in order.
pub open spec fn certification_lines(certs: Seq<Certification>) -> Seq<Seq<char>> {
    Seq::new(certs.len(), |i: int| certification_line(certs[i]))
}

/// A section under its heading, or nothing where it has no part.
pub open spec fn section(heading: Seq<char>, parts: Seq<Seq<char>>, gap: Seq<char>) -> Seq<
    Seq<char>,
> {
    if parts.len() == 0 {
        Seq::empty()
    } else {
        seq![tidy::tidied(heading + text::joined(parts, gap))]
    }
}

/// The skills section.
pub open spec fn skills_section(skills: Seq<SkillCategory>) -> Seq<Seq<char>> {
    section("## Skills\n"@, skill_lines(skills), "\n"@)
}

/// The work-experience section.
pub open spec fn work_section(jobs: Seq<Job>) -> Seq<Seq<char>> {
    section("## Work Experience\n\n\n"@, job_texts(jobs), "\n\n\n"@)
}

/// The education section.
pub open spec fn education_section(degrees: Seq<Degree>) -> Seq<Seq<char>> {
    section("## Education\n\n\n"@, degree_texts(degrees), "\n\n\n"@)
}

/// The certifications section.
pub open spec fn certifications_section(certs: Seq<Certification>) -> Seq<Seq<char>> {
    section("## Certifications\n"@, certification_lines(certs), "\n"@)
}

/// The blocks of a resume.
pub open spec fn blocks(resume: Resume) -> Seq<Seq<char>> {
    seq![
        header_block(resume.personal_information),
        summary_block(resume.professional_summary@),
    ] + skills_section(resume.skills@) + work_section(resume.work_experience@)
        + education_section(resume.education@) + certifications_section(resume.certifications@)
}

/// The baseline Markdown of a resume.
pub open spec fn baseline(resume: Resume) -> Seq<char> {
    text::joined(blocks(resume), "\n\n\n"@).push('\n')
}

// ---------------------------------------------------------------------------
// Rendering
// ---------------------------------------------------------------------------

/// Renders a resume to its baseline Markdown.
pub fn render_baseline(resume: &Resume) -> (r: String)
    ensures
        r@ == baseline(*resume),
        tidy::tidy(r@),
        r@.len() >= 2,
        r@.last() == '\n',
        r@[r@.len() - 2] != '\n',
{
    proof {
        baseline_is_tidy(*resume);
    }
    let mut parts: Vec<String> = Vec::new();
    parts.push(render_header(&resume.personal_information));
    parts.push(render_summary(resume.professional_summary.as_str()));
    assert(text::views(parts@) =~= seq![
        header_block(resume.personal_information),
        summary_block(resume.professional_summary@),
    ]);
    let skills = render_skills(&resume.skills);
    push_block(&mut parts, skills);
    let work = render_work_experience(&resume.work_experience);
    push_block(&mut parts, work);
    let education = render_education(&resume.education);
    push_block(&mut parts, education);
    let certifications = render_certifications(&resume.certifications);
    push_block(&mut parts, certifications);
    let mut out = text::join(&parts, "\n\n\n");
    out.push('\n');
    out
}

/// A block that is there, or none.
pub open spec fn optional_block(block: Option<String>) -> Seq<Seq<char>> {
    match block {
        Some(b) => seq![b@],
        None => Seq::empty(),
    }
}

fn push_block(parts: &mut Vec<String>, block: Option<String>)
    ensures
        text::views(final(parts)@) == text::views(old(parts)@) + optional_block(block),
{
    let ghost before = text::views(parts@);
    match block {
        Some(b) => {
            parts.push(b);
            assert(text::views(parts@) =~= before + optional_block(block));
        },
        None => {
            assert(text::views(parts@) =~= before + optional_block(block));
        },
    }
}

fn render_header(p: &PersonalInformation) -> (r: String)
    ensures
        r@ == header_block(*p),
{
    let mut out = "# ".to_string();
    out.push_str(p.full_name.as_str());
    out.push_str("\n");
    out.push_str(p.email.as_str());
    out.push_str(" | ");
    out.push_str(p.phone.as_str());
    out.push_str(" | ");
    out.push_str(p.linkedin_url.as_str());
    out.push_str(" | ");
    out.push_str(p.location.as_str());
    tidy::tidy_text(out.as_str())
}

fn render_summary(summary: &str) -> (r: String)
    ensures
        r@ == summary_block(summary@),
{
    let trimmed = text::trim_end(summary);
    let out = text::concat2("## Professional Summary\n", trimmed.as_str());
    tidy::tidy_text(out.as_str())
}

fn render_section(heading: &str, parts: &Vec<String>, gap: &str) -> (r: Option<String>)
    ensures
        optional_block(r) == section(heading@, text::views(parts@), gap@),
{
    if parts.len() == 0 {
        return None;
    }
    let body = text::join(parts, gap);
    let block = text::concat2(heading, body.as_str());
    Some(tidy::tidy_text(block.as_str()))
}

fn render_skills(skills: &Vec<SkillCategory>) -> (r: Option<String>)
    ensures
        optional_block(r) == skills_section(skills@),
{
    let mut lines: Vec<String> = Vec::new();
    for i in 0..skills.len()
        invariant
            text::views(lines@) == skill_lines(skills@.take(i as int)),
    {
        let c = &skills[i];
        assert(skills@.take(i + 1).drop_last() =~= skills@.take(i as int));
        if c.items.len() > 0 {
            let ghost before = lines@;
            let terms = text::join(&c.items, ", ");
            let mut line = "* **".to_string();
            line.push_str(c.category.as_str());
            line.push_str(":** ");
            line.push_str(terms.as_str());
            lines.push(line);
            assert(text::views(lines@) =~= text::views(before).push(skill_line(*c)));
        }
    }
    assert(skills@.take(skills@.len() as int) =~= skills@);
    render_section("## Skills\n", &lines, "\n")
}

fn render_work_experience(jobs: &Vec<Job>) -> (r: Option<String>)
    ensures
        optional_block(r) == work_section(jobs@),
{
    let mut rendered: Vec<String> = Vec::new();
    for i in 0..jobs.len()
        invariant
            text::views(rendered@) == job_texts(jobs@).take(i as int),
    {
        let ghost before = rendered@;
        rendered.push(render_job(&jobs[i]));
        assert(text::views(rendered@) =~= text::views(before).push(job_text(jobs@[i as int])));
        assert(job_texts(jobs@).take(i + 1) =~= job_texts(jobs@).take(i as int).push(
            job_text(jobs@[i as int]),
        ));
    }
    assert(job_texts(jobs@).take(jobs@.len() as int) =~= job_texts(jobs@));
    render_section("## Work Experience\n\n\n", &rendered, "\n\n\n")
}

fn render_job(job: &Job) -> (r: String)
    ensures
        r@ == job_text(*job),
{
    let mut out = "**".to_string();
    out.push_str(job.job_title.as_str());
    out.push_str("** | **");
    out.push_str(job.company_name.as_str());
    out.push_str("**\n");
    out.push_str(job.location.as_str());
    out.push_str(" | ");
    out.push_str(job.start_date.as_str());
    out.push_str(" \u{2013} ");
    out.push_str(job.end_date.as_str());
    let ghost head = out@;
    assert(out@ =~= head + bullet_lines(job.bullets@.take(0)));
    for i in 0..job.bullets.len()
        invariant
            out@ == head + bullet_lines(job.bullets@.take(i as int)),
    {
        let bullet = &job.bullets[i];
        assert(job.bullets@.take(i + 1).drop_last() =~= job.bullets@.take(i as int));
        if !text::is_blank(bullet.as_str()) {
            out.push_str("\n* ");
            out.push_str(bullet.as_str());
            assert(out@ =~= head + bullet_lines(job.bullets@.take(i + 1)));
        }
    }
    assert(job.bullets@.take(job.bullets@.len() as int) =~= job.bullets@);
    out
}

fn render_education(degrees: &Vec<Degree>) -> (r: Option<String>)
    ensures
        optional_block(r) == education_section(degrees@),
{
    let mut rendered: Vec<String> = Vec::new();
    for i in 0..degrees.len()
        invariant
            text::views(rendered@) == degree_texts(degrees@).take(i as int),
    {
        let d = &degrees[i];
        let ghost before = rendered@;
        let mut out = "**".to_string();
        out.push_str(d.degree_name.as_str());
        out.push_str("**\n");
        out.push_str(d.institution.as_str());
        out.push_str(", ");
        out.push_str(d.location.as_str());
        out.push_str(" | ");
        out.push_str(d.graduation_date.as_str());
        rendered.push(out);
        assert(text::views(rendered@) =~= text::views(before).push(degree_text(*d)));
        assert(degree_texts(degrees@).take(i + 1) =~= degree_texts(degrees@).take(i as int).push(
            degree_text(*d),
        ));
    }
    assert(degree_texts(degrees@).take(degrees@.len() as int) =~= degree_texts(degrees@));
    render_section("## Education\n\n\n", &rendered, "\n\n\n")
}

fn render_certifications(certs: &Vec<Certification>) -> (r: Option<String>)
    ensures
        optional_block(r) == certifications_section(certs@),
{
    let mut lines: Vec<String> = Vec::new();
    for i in 0..certs.len()
        invariant
            text::views(lines@) == certification_lines(certs@).take(i as int),
    {
        let c = &certs[i];
        let ghost before = lines@;
        let mut out = "* **".to_string();
        out.push_str(c.title.as_str());
        out.push_str("**, ");
        out.push_str(c.issuing_organization.as_str());
        out.push_str(", ");
        out.push_str(c.year.as_str());
        lines.push(out);
        assert(text::views(lines@) =~= text::views(before).push(certification_line(*c)));
        assert(certification_lines(certs@).take(i + 1) =~= certification_lines(certs@).take(
            i as int,
        ).push(certification_line(*c)));
    }
    assert(certification_lines(certs@).take(certs@.len() as int) =~= certification_lines(certs@));
    render_section("## Certifications\n", &lines, "\n")
}

// ---------------------------------------------------------------------------
// Laws: sections and line ends
// ---------------------------------------------------------------------------

/// Categories without terms leave no trace: where no category has a term, there
/// is no skills section.
pub proof fn empty_categories_are_omitted(skills: Seq<SkillCategory>)
    requires
        forall|i: int| 0 <= i < skills.len() ==> (#[trigger] skills[i]).items@.len() == 0,
    ensures
        skills_section(skills).len() == 0,
{
    lemma_no_skill_lines(skills);
}

proof fn lemma_no_skill_lines(skills: Seq<SkillCategory>)
    requires
        forall|i: int| 0 <= i < skills.len() ==> (#[trigger] skills[i]).items@.len() == 0,
    ensures
        skill_lines(skills).len() == 0,
    decreases skills.len(),
{
    if skills.len() > 0 {
        assert(skills.last() == skills[skills.len() - 1]);
        assert forall|i: int| 0 <= i < skills.drop_last().len() implies (
        #[trigger] skills.drop_last()[i]).items@.len() == 0 by {
            assert(skills.drop_last()[i] == skills[i]);
        }
        lemma_no_skill_lines(skills.drop_last());
    }
}

/// A resume without optional sections renders to its header and its summary,
/// two blank lines apart.
pub proof fn minimal_resume_has_two_blocks(resume: Resume)
    requires
        forall|i: int|
            0 <= i < resume.skills@.len() ==> (#[trigger] resume.skills@[i]).items@.len() == 0,
        resume.work_experience@.len() == 0,
        resume.education@.len() == 0,
        resume.certifications@.len() == 0,
    ensures
        baseline(resume) == header_block(resume.personal_information) + "\n\n\n"@ + summary_block(
            resume.professional_summary@,
        ) + seq!['\n'],
{
    empty_categories_are_omitted(resume.skills@);
    let header = header_block(resume.personal_information);
    let summary = summary_block(resume.professional_summary@);
    assert(blocks(resume) =~= seq![header, summary]);
    let all = seq![header, summary];
    assert(all.drop_last() =~= seq![header]);
    assert(seq![header].drop_last().len() == 0);
    assert(text::joined(seq![header], "\n\n\n"@) == header);
    assert(text::joined(all, "\n\n\n"@) == header + "\n\n\n"@ + summary);
}

/// A block that can stand in the output: it is not empty, no line of it ends in
/// white space, and it does not end in a newline.
pub open spec fn tidy_block(s: Seq<char>) -> bool {
    s.len() > 0 && tidy::tidy(s) && s.last() != '\n'
}

proof fn lemma_join_of_blocks(parts: Seq<Seq<char>>)
    requires
        forall|i: int| 0 <= i < parts.len() ==> tidy_block(#[trigger] parts[i]),
    ensures
        parts.len() > 0 ==> tidy_block(text::joined(parts, "\n\n\n"@)),
    decreases parts.len(),
{
    reveal_strlit("\n\n\n");
    if parts.len() > 0 {
        let before = parts.drop_last();
        let last = parts.last();
        assert(tidy_block(parts[parts.len() - 1]));
        assert forall|i: int| 0 <= i < before.len() implies tidy_block(#[trigger] before[i]) by {
            assert(before[i] == parts[i]);
        }
        lemma_join_of_blocks(before);
        if before.len() > 0 {
            let head = text::joined(before, "\n\n\n"@);
            let all = head + "\n\n\n"@ + last;
            let n = head.len() as int;
            assert forall|i: int| 0 <= i < all.len() - 1 && #[trigger] tidy::blank(
                all[i],
            ) implies all[i + 1] != '\n' by {
                if i < n - 1 {
                    assert(all[i] == head[i] && all[i + 1] == head[i + 1]);
                } else if i == n - 1 {
                    assert(all[i] == head.last());
                } else if i < n + 3 {
                    assert(all[i] == "\n\n\n"@[i - n]);
                } else {
                    assert(all[i] == last[i - n - 3] && all[i + 1] == last[i - n - 2]);
                }
            }
            assert(all.last() == last.last());
        }
    }
}

proof fn lemma_block(raw: Seq<char>)
    requires
        raw.len() > 0,
        raw.first() == '#',
    ensures
        tidy_block(tidy::tidied(raw)),
{
    tidy::tidied_text_is_tidy(raw);
}

proof fn lemma_section(heading: Seq<char>, parts: Seq<Seq<char>>, gap: Seq<char>)
    requires
        heading.len() > 0,
        heading.first() == '#',
    ensures
        forall|i: int|
            0 <= i < section(heading, parts, gap).len() ==> tidy_block(
                #[trigger] section(heading, parts, gap)[i],
            ),
{
    if parts.len() > 0 {
        let raw = heading + text::joined(parts, gap);
        assert(raw.first() == heading.first());
        lemma_block(raw);
    }
}

proof fn lemma_blocks(resume: Resume)
    ensures
        blocks(resume).len() >= 2,
        forall|i: int| 0 <= i < blocks(resume).len() ==> tidy_block(#[trigger] blocks(resume)[i]),
{
    reveal_strlit("# ");
    reveal_strlit("## Professional Summary\n");
    reveal_strlit("## Skills\n");
    reveal_strlit("## Work Experience\n\n\n");
    reveal_strlit("## Education\n\n\n");
    reveal_strlit("## Certifications\n");
    let p = resume.personal_information;
    let header = "# "@ + p.full_name@ + "\n"@ + p.email@ + " | "@ + p.phone@
        + " | "@ + p.linkedin_url@ + " | "@ + p.location@;
    assert(header.first() == "# "@[0]);
    lemma_block(header);
    let summary = "## Professional Summary\n"@ + text::trimmed_end(
        resume.professional_summary@,
    );
    assert(summary.first() == "## Professional Summary\n"@[0]);
    lemma_block(summary);
    lemma_section("## Skills\n"@, skill_lines(resume.skills@), "\n"@);
    lemma_section(
        "## Work Experience\n\n\n"@,
        job_texts(resume.work_experience@),
        "\n\n\n"@,
    );
    lemma_section("## Education\n\n\n"@, degree_texts(resume.education@), "\n\n\n"@);
    lemma_section(
        "## Certifications\n"@,
        certification_lines(resume.certifications@),
        "\n"@,
    );
}

/// Whatever the resume holds, no line of the output ends in white space, and the
/// output ends with a single newline.
pub proof fn baseline_is_tidy(resume: Resume)
    ensures
        tidy::tidy(baseline(resume)),
        baseline(resume).len() >= 2,
        baseline(resume).last() == '\n',
        baseline(resume)[baseline(resume).len() - 2] != '\n',
{
    lemma_blocks(resume);
    lemma_join_of_blocks(blocks(resume));
    let body = text::joined(blocks(resume), "\n\n\n"@);
    let all = baseline(resume);
    assert forall|i: int| 0 <= i < all.len() - 1 && #[trigger] tidy::blank(all[i]) implies all[i
        + 1] != '\n' by {
        assert(all[i] == body[i]);
        if i == body.len() - 1 {
            assert(all[i] == body.last());
        } else {
            assert(all[i + 1] == body[i + 1]);
        }
    }
}

} // verus!
