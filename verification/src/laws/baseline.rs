//! The baseline Markdown of a resume: it says all that the resume says, in order,
//! and nothing else.

use vstd::prelude::*;
use crate::domain::{Certification, Degree, Job, PersonalInformation, Resume, SkillCategory};
use crate::laws::lines;
use crate::render::markdown;
use crate::render::tidy;
use crate::text;

verus! {

/// The name, and the ways to reach its bearer.
pub open spec fn contact(p: PersonalInformation) -> Seq<char> {
    "# "@ + p.full_name@ + "\n"@ + p.email@ + " | "@ + p.phone@ + " | "@ + p.linkedin_url@ + " | "@
        + p.location@
}

/// The summary under its heading.
pub open spec fn summary(s: Seq<char>) -> Seq<char> {
    "## Professional Summary\n"@ + text::trimmed_end(s)
}

/// The terms of a category behind the first, each behind a comma.
pub open spec fn more_terms(items: Seq<String>, from: int) -> Seq<char>
    decreases items.len() - from,
{
    if from >= items.len() {
        Seq::empty()
    } else {
        ", "@ + items[from]@ + more_terms(items, from + 1)
    }
}

/// A category with its label and all its terms.
pub open spec fn skill(c: SkillCategory) -> Seq<char>
    recommends
        c.items@.len() > 0,
{
    "* **"@ + c.category@ + ":** "@ + (c.items@[0]@ + more_terms(c.items@, 1))
}

/// The bullets from one on, each on a line of its own; a blank one has none.
pub open spec fn bullets(items: Seq<String>, from: int) -> Seq<char>
    decreases items.len() - from,
{
    if from >= items.len() {
        Seq::empty()
    } else if text::trimmed(items[from]@).len() == 0 {
        bullets(items, from + 1)
    } else {
        "\n* "@ + items[from]@ + bullets(items, from + 1)
    }
}

/// A job with its title, company, location, dates and bullets.
pub open spec fn job(j: Job) -> Seq<char> {
    "**"@ + j.job_title@ + "** | **"@ + j.company_name@ + "**\n"@ + j.location@ + " | "@
        + j.start_date@ + " \u{2013} "@ + j.end_date@ + bullets(j.bullets@, 0)
}

/// A degree with its name, institution, location and date.
pub open spec fn degree(d: Degree) -> Seq<char> {
    "**"@ + d.degree_name@ + "**\n"@ + d.institution@ + ", "@ + d.location@ + " | "@
        + d.graduation_date@
}

/// A certification with its title, organization and year.
pub open spec fn certification(c: Certification) -> Seq<char> {
    "* **"@ + c.title@ + "**, "@ + c.issuing_organization@ + ", "@ + c.year@
}

// ---------------------------------------------------------------------------
// The texts of the entries
// ---------------------------------------------------------------------------

proof fn lemma_terms(items: Seq<String>, n: int)
    requires
        0 < n <= items.len(),
    ensures
        text::joined(text::views(items).take(n), ", "@) + more_terms(items, n) == items[0]@
            + more_terms(items, 1),
    decreases n,
{
    let parts = text::views(items).take(n);
    let before = parts.drop_last();
    assert(parts.last() == items[n - 1]@);
    if n == 1 {
        assert(before.len() == 0);
    } else {
        assert(before =~= text::views(items).take(n - 1));
        lemma_terms(items, n - 1);
        let front = text::joined(before, ", "@);
        assert(more_terms(items, n - 1) == ", "@ + items[n - 1]@ + more_terms(items, n));
        assert(text::joined(parts, ", "@) + more_terms(items, n) =~= front + more_terms(
            items,
            n - 1,
        ));
    }
}

proof fn lemma_skill(c: SkillCategory)
    requires
        c.items@.len() > 0,
    ensures
        markdown::skill_line(c) == skill(c),
{
    let n = c.items@.len() as int;
    lemma_terms(c.items@, n);
    assert(text::views(c.items@).take(n) =~= text::views(c.items@));
    assert(more_terms(c.items@, n) =~= Seq::empty());
    assert(text::joined(text::views(c.items@), ", "@) =~= c.items@[0]@ + more_terms(c.items@, 1));
}

proof fn lemma_bullets(items: Seq<String>, n: int)
    requires
        0 <= n <= items.len(),
    ensures
        markdown::bullet_lines(items.take(n)) + bullets(items, n) == bullets(items, 0),
    decreases n,
{
    let upto = items.take(n);
    if n == 0 {
        assert(markdown::bullet_lines(upto) =~= Seq::<char>::empty());
        assert(markdown::bullet_lines(upto) + bullets(items, n) =~= bullets(items, 0));
    } else {
        assert(upto.drop_last() =~= items.take(n - 1));
        assert(upto.last() == items[n - 1]);
        lemma_bullets(items, n - 1);
        assert(markdown::bullet_lines(upto) + bullets(items, n) =~= markdown::bullet_lines(
            items.take(n - 1),
        ) + bullets(items, n - 1));
    }
}

proof fn lemma_job(j: Job)
    ensures
        markdown::job_text(j) == job(j),
{
    let n = j.bullets@.len() as int;
    lemma_bullets(j.bullets@, n);
    assert(j.bullets@.take(n) =~= j.bullets@);
    assert(bullets(j.bullets@, n) =~= Seq::empty());
    assert(markdown::bullet_lines(j.bullets@) =~= bullets(j.bullets@, 0));
}

/// The line of a category with terms is among the lines of the skills.
proof fn lemma_skill_is_listed(skills: Seq<SkillCategory>, i: int) -> (k: int)
    requires
        0 <= i < skills.len(),
        skills[i].items@.len() > 0,
    ensures
        0 <= k < markdown::skill_lines(skills).len(),
        markdown::skill_lines(skills)[k] == skill(skills[i]),
    decreases skills.len(),
{
    let before = skills.drop_last();
    if i == skills.len() - 1 {
        lemma_skill(skills[i]);
        markdown::skill_lines(before).len() as int
    } else {
        assert(before[i] == skills[i]);
        lemma_skill_is_listed(before, i)
    }
}

proof fn lemma_skills_start(skills: Seq<SkillCategory>)
    ensures
        forall|k: int|
            0 <= k < markdown::skill_lines(skills).len() ==> (#[trigger] markdown::skill_lines(
                skills,
            )[k]).len() > 0 && !text::white_space(markdown::skill_lines(skills)[k].first()),
    decreases skills.len(),
{
    reveal_strlit("* **");
    if skills.len() > 0 {
        let before = markdown::skill_lines(skills.drop_last());
        let all = markdown::skill_lines(skills);
        lemma_skills_start(skills.drop_last());
        assert forall|k: int| 0 <= k < all.len() implies (#[trigger] all[k]).len() > 0
            && !text::white_space(all[k].first()) by {
            if k < before.len() {
                assert(all[k] == before[k]);
            } else {
                assert(all[k] == markdown::skill_line(skills.last()));
                assert(all[k].first() == "* **"@[0]);
            }
        }
    }
}

proof fn lemma_newlines()
    ensures
        "\n"@.len() == 1,
        "\n"@[0] == '\n',
        "\n\n\n"@.len() == 3,
        forall|i: int| 0 <= i < 3 ==> "\n\n\n"@[i] == '\n',
{
    reveal_strlit("\n");
    reveal_strlit("\n\n\n");
}

proof fn lemma_skills_parts(skills: Seq<SkillCategory>)
    requires
        markdown::skill_lines(skills).len() > 0,
    ensures
        lines::section_parts("## Skills\n"@, markdown::skill_lines(skills), "\n"@),
{
    lemma_newlines();
    lemma_skills_start(skills);
    reveal_strlit("## Skills\n");
}

proof fn lemma_work_parts(jobs: Seq<Job>)
    requires
        jobs.len() > 0,
    ensures
        lines::section_parts(
            "## Work Experience\n\n\n"@,
            markdown::job_texts(jobs),
            "\n\n\n"@,
        ),
{
    lemma_newlines();
    reveal_strlit("**");
    reveal_strlit("## Work Experience\n\n\n");
}

proof fn lemma_education_parts(degrees: Seq<Degree>)
    requires
        degrees.len() > 0,
    ensures
        lines::section_parts(
            "## Education\n\n\n"@,
            markdown::degree_texts(degrees),
            "\n\n\n"@,
        ),
{
    lemma_newlines();
    reveal_strlit("**");
    reveal_strlit("## Education\n\n\n");
}

proof fn lemma_certifications_parts(certs: Seq<Certification>)
    requires
        certs.len() > 0,
    ensures
        lines::section_parts("## Certifications\n"@, markdown::certification_lines(certs), "\n"@),
{
    lemma_newlines();
    reveal_strlit("* **");
    reveal_strlit("## Certifications\n");
}

// ---------------------------------------------------------------------------
// Blocks in the baseline
// ---------------------------------------------------------------------------

proof fn lemma_block_in_baseline(resume: Resume, k: int, needle: Seq<char>)
    requires
        0 <= k < markdown::blocks(resume).len(),
        text::occurs(markdown::blocks(resume)[k], needle),
    ensures
        text::occurs(markdown::baseline(resume), needle),
{
    let all = markdown::blocks(resume);
    let whole = text::joined(all, "\n\n\n"@);
    lines::lemma_joined_holds(all, "\n\n\n"@, k);
    lemma_occurs_through(whole, all[k], needle);
    text::lemma_occurs_in_front(whole, seq!['\n'], needle);
    assert(whole + seq!['\n'] =~= whole.push('\n'));
}

proof fn lemma_block_starts_in_baseline(resume: Resume, k: int, needle: Seq<char>)
    requires
        0 < k < markdown::blocks(resume).len(),
        text::stands_at(markdown::blocks(resume)[k], needle, 0),
    ensures
        text::occurs(markdown::baseline(resume), "\n\n\n"@ + needle),
{
    let all = markdown::blocks(resume);
    let sep = "\n\n\n"@;
    let whole = text::joined(all, sep);
    lines::lemma_joined_holds(all, sep, k);
    let block = sep + all[k];
    let start = sep + needle;
    assert(block.subrange(0, start.len() as int) =~= start) by {
        assert forall|m: int| 0 <= m < start.len() implies block[m] == start[m] by {
            if m >= sep.len() {
                assert(all[k].subrange(0, needle.len() as int)[m - sep.len()] == needle[m
                    - sep.len()]);
            }
        }
    }
    assert(text::stands_at(block, start, 0));
    lemma_occurs_through(whole, block, start);
    text::lemma_occurs_in_front(whole, seq!['\n'], start);
    assert(whole + seq!['\n'] =~= whole.push('\n'));
}

proof fn lemma_occurs_through(whole: Seq<char>, part: Seq<char>, needle: Seq<char>)
    requires
        text::occurs(whole, part),
        text::occurs(part, needle),
    ensures
        text::occurs(whole, needle),
{
    let p = choose|at: int| text::stands_at(whole, part, at);
    let q = choose|at: int| text::stands_at(part, needle, at);
    assert(whole.subrange(p + q, p + q + needle.len()) =~= needle) by {
        assert forall|m: int| 0 <= m < needle.len() implies whole[p + q + m] == needle[m] by {
            assert(part.subrange(q, q + needle.len())[m] == needle[m]);
            assert(whole.subrange(p, p + part.len())[q + m] == part[q + m]);
        }
    }
    assert(text::stands_at(whole, needle, p + q));
}

proof fn lemma_sections_are_blocks(resume: Resume)
    ensures
        markdown::blocks(resume)[0] == tidy::tidied(contact(resume.personal_information)),
        markdown::blocks(resume)[1] == tidy::tidied(summary(resume.professional_summary@)),
        markdown::blocks(resume).len() >= 2,
        markdown::skill_lines(resume.skills@).len() > 0 ==> exists|k: int|
            1 < k < markdown::blocks(resume).len() && #[trigger] markdown::blocks(resume)[k]
                == tidy::tidied(
                "## Skills\n"@ + text::joined(markdown::skill_lines(resume.skills@), "\n"@),
            ),
        resume.work_experience@.len() > 0 ==> exists|k: int|
            1 < k < markdown::blocks(resume).len() && #[trigger] markdown::blocks(resume)[k]
                == tidy::tidied(
                "## Work Experience\n\n\n"@ + text::joined(
                    markdown::job_texts(resume.work_experience@),
                    "\n\n\n"@,
                ),
            ),
        resume.education@.len() > 0 ==> exists|k: int|
            1 < k < markdown::blocks(resume).len() && #[trigger] markdown::blocks(resume)[k]
                == tidy::tidied(
                "## Education\n\n\n"@ + text::joined(
                    markdown::degree_texts(resume.education@),
                    "\n\n\n"@,
                ),
            ),
        resume.certifications@.len() > 0 ==> exists|k: int|
            1 < k < markdown::blocks(resume).len() && #[trigger] markdown::blocks(resume)[k]
                == tidy::tidied(
                "## Certifications\n"@ + text::joined(
                    markdown::certification_lines(resume.certifications@),
                    "\n"@,
                ),
            ),
{
    let all = markdown::blocks(resume);
    let a = markdown::skills_section(resume.skills@);
    let b = markdown::work_section(resume.work_experience@);
    let c = markdown::education_section(resume.education@);
    let d = markdown::certifications_section(resume.certifications@);
    let i: int = 2;
    let j = i + a.len();
    let k = j + b.len();
    let l = k + c.len();
    assert(a.len() > 0 ==> all[i] == a[0]);
    assert(b.len() > 0 ==> all[j] == b[0]);
    assert(c.len() > 0 ==> all[k] == c[0]);
    assert(d.len() > 0 ==> all[l] == d[0]);
}

/// The baseline starts with the contact block.
pub proof fn baseline_starts_with_the_contact_block(resume: Resume)
    ensures
        text::stands_at(
            markdown::baseline(resume),
            tidy::tidied(contact(resume.personal_information)),
            0,
        ),
{
    lemma_sections_are_blocks(resume);
    let all = markdown::blocks(resume);
    let whole = markdown::baseline(resume);
    text::lemma_join_from_the_front(all, "\n\n\n"@);
    let first = all[0];
    assert(whole.subrange(0, first.len() as int) =~= first);
}

/// The baseline holds the summary, under its heading.
pub proof fn baseline_holds_the_summary(resume: Resume)
    ensures
        text::occurs(
            markdown::baseline(resume),
            "\n\n\n"@ + tidy::tidied(summary(resume.professional_summary@)),
        ),
{
    lemma_sections_are_blocks(resume);
    let block = markdown::blocks(resume)[1];
    assert(block.subrange(0, block.len() as int) =~= block);
    lemma_block_starts_in_baseline(resume, 1, block);
}

/// Every category with terms has its line in the baseline, with its label and all
/// its terms.
pub proof fn baseline_shows_every_skill(resume: Resume)
    ensures
        forall|i: int|
            0 <= i < resume.skills@.len() && resume.skills@[i].items@.len() > 0 ==> text::occurs(
                markdown::baseline(resume),
                tidy::tidied(#[trigger] skill(resume.skills@[i])),
            ),
{
    let items = resume.skills@;
    assert forall|i: int| 0 <= i < items.len() && items[i].items@.len() > 0 implies text::occurs(
        markdown::baseline(resume),
        tidy::tidied(#[trigger] skill(items[i])),
    ) by {
        let parts = markdown::skill_lines(items);
        let at = lemma_skill_is_listed(items, i);
        lemma_skills_parts(items);
        lines::lemma_section_holds("## Skills\n"@, parts, "\n"@, at);
        lemma_sections_are_blocks(resume);
        let block = tidy::tidied("## Skills\n"@ + text::joined(parts, "\n"@));
        let k = choose|k: int|
            1 < k < markdown::blocks(resume).len() && #[trigger] markdown::blocks(resume)[k]
                == block;
        lemma_block_in_baseline(resume, k, tidy::tidied(skill(items[i])));
    }
}

/// Every job has its text in the baseline, with its title, company, location, dates and
/// bullets: the first right under the heading, and each other one behind the job
/// before it.
pub proof fn baseline_shows_every_job(resume: Resume)
    ensures
        forall|i: int|
            0 <= i < resume.work_experience@.len() ==> text::occurs(
                markdown::baseline(resume),
                tidy::tidied(#[trigger] job(resume.work_experience@[i])),
            ),
        resume.work_experience@.len() > 0 ==> text::occurs(
            markdown::baseline(resume),
            "\n\n\n"@ + ("## Work Experience\n\n\n"@ + tidy::tidied(job(resume.work_experience@[0]))),
        ),
        forall|i: int|
            0 < i < resume.work_experience@.len() && !text::white_space(
                job(resume.work_experience@[i - 1]).last(),
            ) ==> text::occurs(
                markdown::baseline(resume),
                tidy::tidied(job(resume.work_experience@[i - 1])) + "\n\n\n"@ + tidy::tidied(
                    #[trigger] job(resume.work_experience@[i]),
                ),
            ),
{
    let items = resume.work_experience@;
    let gap = "\n\n\n"@;
    assert forall|i: int| 0 <= i < items.len() implies text::occurs(
        markdown::baseline(resume),
        tidy::tidied(#[trigger] job(items[i])),
    ) by {
        let k = lemma_job_in_block(resume, i);
        lemma_block_in_baseline(resume, k, tidy::tidied(job(items[i])));
    }
    if items.len() > 0 {
        let k = lemma_job_in_block(resume, 0);
        lemma_block_starts_in_baseline(
            resume,
            k,
            "## Work Experience\n\n\n"@ + tidy::tidied(job(items[0])),
        );
    }
    assert forall|i: int|
        0 < i < items.len() && !text::white_space(
            job(items[i - 1]).last(),
        ) implies text::occurs(
        markdown::baseline(resume),
        tidy::tidied(job(items[i - 1])) + gap + tidy::tidied(#[trigger] job(items[i])),
    ) by {
        let k = lemma_job_in_block(resume, i);
        lemma_block_in_baseline(
            resume,
            k,
            tidy::tidied(job(items[i - 1])) + gap + tidy::tidied(job(items[i])),
        );
    }
}

proof fn lemma_job_in_block(resume: Resume, i: int) -> (k: int)
    requires
        0 <= i < resume.work_experience@.len(),
    ensures
        1 < k < markdown::blocks(resume).len(),
        text::occurs(
            markdown::blocks(resume)[k],
            tidy::tidied(job(resume.work_experience@[i])),
        ),
        i == 0 ==> text::stands_at(
            markdown::blocks(resume)[k],
            "## Work Experience\n\n\n"@ + tidy::tidied(job(resume.work_experience@[0])),
            0,
        ),
        i > 0 && !text::white_space(job(resume.work_experience@[i - 1]).last()) ==> text::occurs(
            markdown::blocks(resume)[k],
            tidy::tidied(job(resume.work_experience@[i - 1])) + "\n\n\n"@ + tidy::tidied(
                job(resume.work_experience@[i]),
            ),
        ),
{
    let items = resume.work_experience@;
    let parts = markdown::job_texts(items);
    lemma_work_parts(items);
    lemma_job(items[i]);
    if i > 0 {
        lemma_job(items[i - 1]);
    }
    lines::lemma_section_holds("## Work Experience\n\n\n"@, parts, "\n\n\n"@, i);
    lemma_sections_are_blocks(resume);
    let block = tidy::tidied("## Work Experience\n\n\n"@ + text::joined(parts, "\n\n\n"@));
    choose|k: int|
        1 < k < markdown::blocks(resume).len() && #[trigger] markdown::blocks(resume)[k] == block
}

/// Every degree has its text in the baseline, with its name, institution, location and
/// date: the first right under the heading, and each other one behind the degree
/// before it.
pub proof fn baseline_shows_every_degree(resume: Resume)
    ensures
        forall|i: int|
            0 <= i < resume.education@.len() ==> text::occurs(
                markdown::baseline(resume),
                tidy::tidied(#[trigger] degree(resume.education@[i])),
            ),
        resume.education@.len() > 0 ==> text::occurs(
            markdown::baseline(resume),
            "\n\n\n"@ + ("## Education\n\n\n"@ + tidy::tidied(degree(resume.education@[0]))),
        ),
        forall|i: int|
            0 < i < resume.education@.len() && !text::white_space(
                degree(resume.education@[i - 1]).last(),
            ) ==> text::occurs(
                markdown::baseline(resume),
                tidy::tidied(degree(resume.education@[i - 1])) + "\n\n\n"@ + tidy::tidied(
                    #[trigger] degree(resume.education@[i]),
                ),
            ),
{
    let items = resume.education@;
    let gap = "\n\n\n"@;
    assert forall|i: int| 0 <= i < items.len() implies text::occurs(
        markdown::baseline(resume),
        tidy::tidied(#[trigger] degree(items[i])),
    ) by {
        let k = lemma_degree_in_block(resume, i);
        lemma_block_in_baseline(resume, k, tidy::tidied(degree(items[i])));
    }
    if items.len() > 0 {
        let k = lemma_degree_in_block(resume, 0);
        lemma_block_starts_in_baseline(
            resume,
            k,
            "## Education\n\n\n"@ + tidy::tidied(degree(items[0])),
        );
    }
    assert forall|i: int|
        0 < i < items.len() && !text::white_space(
            degree(items[i - 1]).last(),
        ) implies text::occurs(
        markdown::baseline(resume),
        tidy::tidied(degree(items[i - 1])) + gap + tidy::tidied(#[trigger] degree(items[i])),
    ) by {
        let k = lemma_degree_in_block(resume, i);
        lemma_block_in_baseline(
            resume,
            k,
            tidy::tidied(degree(items[i - 1])) + gap + tidy::tidied(degree(items[i])),
        );
    }
}

proof fn lemma_degree_in_block(resume: Resume, i: int) -> (k: int)
    requires
        0 <= i < resume.education@.len(),
    ensures
        1 < k < markdown::blocks(resume).len(),
        text::occurs(
            markdown::blocks(resume)[k],
            tidy::tidied(degree(resume.education@[i])),
        ),
        i == 0 ==> text::stands_at(
            markdown::blocks(resume)[k],
            "## Education\n\n\n"@ + tidy::tidied(degree(resume.education@[0])),
            0,
        ),
        i > 0 && !text::white_space(degree(resume.education@[i - 1]).last()) ==> text::occurs(
            markdown::blocks(resume)[k],
            tidy::tidied(degree(resume.education@[i - 1])) + "\n\n\n"@ + tidy::tidied(
                degree(resume.education@[i]),
            ),
        ),
{
    let items = resume.education@;
    let parts = markdown::degree_texts(items);
    lemma_education_parts(items);
    lines::lemma_section_holds("## Education\n\n\n"@, parts, "\n\n\n"@, i);
    lemma_sections_are_blocks(resume);
    let block = tidy::tidied("## Education\n\n\n"@ + text::joined(parts, "\n\n\n"@));
    choose|k: int|
        1 < k < markdown::blocks(resume).len() && #[trigger] markdown::blocks(resume)[k] == block
}

/// Every certification has its line in the baseline, with its title, organization and
/// year: the first right under the heading, and each other one behind the certification
/// before it.
pub proof fn baseline_shows_every_certification(resume: Resume)
    ensures
        forall|i: int|
            0 <= i < resume.certifications@.len() ==> text::occurs(
                markdown::baseline(resume),
                tidy::tidied(#[trigger] certification(resume.certifications@[i])),
            ),
        resume.certifications@.len() > 0 ==> text::occurs(
            markdown::baseline(resume),
            "\n\n\n"@ + ("## Certifications\n"@ + tidy::tidied(certification(resume.certifications@[0]))),
        ),
        forall|i: int|
            0 < i < resume.certifications@.len() && !text::white_space(
                certification(resume.certifications@[i - 1]).last(),
            ) ==> text::occurs(
                markdown::baseline(resume),
                tidy::tidied(certification(resume.certifications@[i - 1])) + "\n"@ + tidy::tidied(
                    #[trigger] certification(resume.certifications@[i]),
                ),
            ),
{
    let items = resume.certifications@;
    let gap = "\n"@;
    assert forall|i: int| 0 <= i < items.len() implies text::occurs(
        markdown::baseline(resume),
        tidy::tidied(#[trigger] certification(items[i])),
    ) by {
        let k = lemma_certification_in_block(resume, i);
        lemma_block_in_baseline(resume, k, tidy::tidied(certification(items[i])));
    }
    if items.len() > 0 {
        let k = lemma_certification_in_block(resume, 0);
        lemma_block_starts_in_baseline(
            resume,
            k,
            "## Certifications\n"@ + tidy::tidied(certification(items[0])),
        );
    }
    assert forall|i: int|
        0 < i < items.len() && !text::white_space(
            certification(items[i - 1]).last(),
        ) implies text::occurs(
        markdown::baseline(resume),
        tidy::tidied(certification(items[i - 1])) + gap + tidy::tidied(#[trigger] certification(items[i])),
    ) by {
        let k = lemma_certification_in_block(resume, i);
        lemma_block_in_baseline(
            resume,
            k,
            tidy::tidied(certification(items[i - 1])) + gap + tidy::tidied(certification(items[i])),
        );
    }
}

proof fn lemma_certification_in_block(resume: Resume, i: int) -> (k: int)
    requires
        0 <= i < resume.certifications@.len(),
    ensures
        1 < k < markdown::blocks(resume).len(),
        text::occurs(
            markdown::blocks(resume)[k],
            tidy::tidied(certification(resume.certifications@[i])),
        ),
        i == 0 ==> text::stands_at(
            markdown::blocks(resume)[k],
            "## Certifications\n"@ + tidy::tidied(certification(resume.certifications@[0])),
            0,
        ),
        i > 0 && !text::white_space(certification(resume.certifications@[i - 1]).last()) ==> text::occurs(
            markdown::blocks(resume)[k],
            tidy::tidied(certification(resume.certifications@[i - 1])) + "\n"@ + tidy::tidied(
                certification(resume.certifications@[i]),
            ),
        ),
{
    let items = resume.certifications@;
    let parts = markdown::certification_lines(items);
    lemma_certifications_parts(items);
    lines::lemma_section_holds("## Certifications\n"@, parts, "\n"@, i);
    lemma_sections_are_blocks(resume);
    let block = tidy::tidied("## Certifications\n"@ + text::joined(parts, "\n"@));
    choose|k: int|
        1 < k < markdown::blocks(resume).len() && #[trigger] markdown::blocks(resume)[k] == block
}

// ---------------------------------------------------------------------------
// Nothing but the resume
// ---------------------------------------------------------------------------

/// The ink of the categories that have terms, in order.
pub open spec fn skills_ink(items: Seq<SkillCategory>) -> Seq<char>
    decreases items.len(),
{
    if items.len() == 0 {
        Seq::empty()
    } else if items.last().items@.len() == 0 {
        skills_ink(items.drop_last())
    } else {
        skills_ink(items.drop_last()) + lines::ink(skill(items.last()))
    }
}

/// The ink of the jobs, in order.
pub open spec fn work_ink(items: Seq<Job>) -> Seq<char>
    decreases items.len(),
{
    if items.len() == 0 {
        Seq::empty()
    } else {
        work_ink(items.drop_last()) + lines::ink(job(items.last()))
    }
}

/// The ink of the degrees, in order.
pub open spec fn education_ink(items: Seq<Degree>) -> Seq<char>
    decreases items.len(),
{
    if items.len() == 0 {
        Seq::empty()
    } else {
        education_ink(items.drop_last()) + lines::ink(degree(items.last()))
    }
}

/// The ink of the certifications, in order.
pub open spec fn certifications_ink(items: Seq<Certification>) -> Seq<char>
    decreases items.len(),
{
    if items.len() == 0 {
        Seq::empty()
    } else {
        certifications_ink(items.drop_last()) + lines::ink(certification(items.last()))
    }
}

/// The heading of a section that has something to show.
pub open spec fn heading_ink(shown: bool, heading: Seq<char>) -> Seq<char> {
    if shown {
        lines::ink(heading)
    } else {
        Seq::empty()
    }
}

/// Some category has terms.
pub open spec fn has_terms(items: Seq<SkillCategory>) -> bool {
    exists|i: int| 0 <= i < items.len() && (#[trigger] items[i]).items@.len() > 0
}

proof fn lemma_gaps_have_no_ink()
    ensures
        lines::ink("\n"@).len() == 0,
        lines::ink("\n\n\n"@).len() == 0,
{
    reveal_strlit("\n");
    reveal_strlit("\n\n\n");
    assert("\n"@.drop_last() =~= Seq::empty());
    assert("\n\n\n"@.drop_last() =~= seq!['\n', '\n']);
    assert(seq!['\n', '\n'].drop_last() =~= seq!['\n']);
    assert(seq!['\n'].drop_last() =~= Seq::empty());
    assert(lines::ink(Seq::<char>::empty()) =~= Seq::empty());
    assert(seq!['\n'].last() == '\n');
    assert(lines::ink(seq!['\n']) =~= Seq::empty());
    assert(lines::ink(seq!['\n', '\n']) =~= Seq::empty());
}

proof fn lemma_skills_ink(items: Seq<SkillCategory>)
    ensures
        lines::ink(text::joined(markdown::skill_lines(items), "\n"@)) == skills_ink(items),
        markdown::skill_lines(items).len() > 0 <==> has_terms(items),
        !has_terms(items) ==> skills_ink(items).len() == 0,
    decreases items.len(),
{
    lemma_gaps_have_no_ink();
    if items.len() > 0 {
        let before = items.drop_last();
        lemma_skills_ink(before);
        if items.last().items@.len() > 0 {
            assert(items[items.len() - 1].items@.len() > 0);
            lemma_skill(items.last());
            lines::lemma_ink_joined(markdown::skill_lines(before), "\n"@, skill(items.last()));
        } else if has_terms(items) {
            let i = choose|i: int| 0 <= i < items.len() && (#[trigger] items[i]).items@.len() > 0;
            assert(before[i] == items[i]);
        } else {
            if has_terms(before) {
                let i = choose|i: int|
                    0 <= i < before.len() && (#[trigger] before[i]).items@.len() > 0;
                assert(before[i] == items[i]);
            }
        }
    }
}

proof fn lemma_work_ink(items: Seq<Job>)
    ensures
        lines::ink(text::joined(markdown::job_texts(items), "\n\n\n"@)) == work_ink(items),
    decreases items.len(),
{
    lemma_gaps_have_no_ink();
    if items.len() > 0 {
        let before = items.drop_last();
        lemma_work_ink(before);
        lemma_job(items.last());
        lines::lemma_ink_joined(markdown::job_texts(before), "\n\n\n"@, job(items.last()));
        assert(markdown::job_texts(items) =~= markdown::job_texts(before).push(
            job(items.last()),
        ));
    }
}

proof fn lemma_education_ink(items: Seq<Degree>)
    ensures
        lines::ink(text::joined(markdown::degree_texts(items), "\n\n\n"@)) == education_ink(items),
    decreases items.len(),
{
    lemma_gaps_have_no_ink();
    if items.len() > 0 {
        let before = items.drop_last();
        lemma_education_ink(before);
        lines::lemma_ink_joined(markdown::degree_texts(before), "\n\n\n"@, degree(items.last()));
        assert(markdown::degree_texts(items) =~= markdown::degree_texts(before).push(
            degree(items.last()),
        ));
    }
}

proof fn lemma_certifications_ink(items: Seq<Certification>)
    ensures
        lines::ink(text::joined(markdown::certification_lines(items), "\n"@)) == certifications_ink(items),
    decreases items.len(),
{
    lemma_gaps_have_no_ink();
    if items.len() > 0 {
        let before = items.drop_last();
        lemma_certifications_ink(before);
        lines::lemma_ink_joined(markdown::certification_lines(before), "\n"@, certification(items.last()));
        assert(markdown::certification_lines(items) =~= markdown::certification_lines(before).push(
            certification(items.last()),
        ));
    }
}

proof fn lemma_section_ink(heading: Seq<char>, parts: Seq<Seq<char>>, gap: Seq<char>)
    ensures
        lines::ink(text::joined(markdown::section(heading, parts, gap), "\n\n\n"@)) == heading_ink(
            parts.len() > 0,
            heading,
        ) + lines::ink(text::joined(parts, gap)),
{
    let made = markdown::section(heading, parts, gap);
    if parts.len() == 0 {
        assert(text::joined(parts, gap) =~= Seq::empty());
        assert(lines::ink(Seq::<char>::empty()) =~= Seq::empty());
        assert(text::joined(made, "\n\n\n"@) =~= Seq::empty());
    } else {
        let raw = heading + text::joined(parts, gap);
        assert(made.drop_last().len() == 0);
        assert(text::joined(made, "\n\n\n"@) == tidy::tidied(raw));
        lines::tidying_takes_white_space_alone(raw);
        lines::lemma_ink_concat(heading, text::joined(parts, gap));
    }
}

proof fn lemma_ink_of_two(a: Seq<Seq<char>>, b: Seq<Seq<char>>)
    ensures
        lines::ink(text::joined(a + b, "\n\n\n"@)) == lines::ink(text::joined(a, "\n\n\n"@))
            + lines::ink(text::joined(b, "\n\n\n"@)),
{
    let sep = "\n\n\n"@;
    lemma_gaps_have_no_ink();
    assert(lines::ink(Seq::<char>::empty()) =~= Seq::empty());
    if a.len() == 0 {
        assert(a + b =~= b);
        assert(text::joined(a, sep) =~= Seq::empty());
        assert(lines::ink(text::joined(a, sep)) + lines::ink(text::joined(b, sep)) =~= lines::ink(
            text::joined(b, sep),
        ));
    } else if b.len() == 0 {
        assert(a + b =~= a);
        assert(text::joined(b, sep) =~= Seq::empty());
        assert(lines::ink(text::joined(a, sep)) + lines::ink(text::joined(b, sep)) =~= lines::ink(
            text::joined(a, sep),
        ));
    } else {
        text::lemma_joined_concat(a, b, sep);
        lines::lemma_ink_concat(text::joined(a, sep) + sep, text::joined(b, sep));
        lines::lemma_ink_concat(text::joined(a, sep), sep);
        assert(lines::ink(text::joined(a, sep)) + lines::ink(sep) =~= lines::ink(
            text::joined(a, sep),
        ));
    }
}

/// But for white space, the baseline is the contact block, the summary, and every
/// section that has something to show: the skills, the jobs, the degrees and the
/// certifications, each in the order of the resume.
pub proof fn baseline_says_what_the_resume_says(resume: Resume)
    ensures
        lines::ink(markdown::baseline(resume)) == lines::ink(contact(resume.personal_information))
            + lines::ink("## Professional Summary\n"@ + resume.professional_summary@) + (
        heading_ink(has_terms(resume.skills@), "## Skills\n"@) + skills_ink(resume.skills@)) + (
        heading_ink(resume.work_experience@.len() > 0, "## Work Experience\n\n\n"@) + work_ink(
            resume.work_experience@,
        )) + (heading_ink(resume.education@.len() > 0, "## Education\n\n\n"@) + education_ink(
            resume.education@,
        )) + (heading_ink(resume.certifications@.len() > 0, "## Certifications\n"@)
            + certifications_ink(resume.certifications@)),
{
    let sep = "\n\n\n"@;
    let top = seq![
        markdown::header_block(resume.personal_information),
        markdown::summary_block(resume.professional_summary@),
    ];
    let a = markdown::skills_section(resume.skills@);
    let b = markdown::work_section(resume.work_experience@);
    let c = markdown::education_section(resume.education@);
    let d = markdown::certifications_section(resume.certifications@);
    lemma_ink_of_two(top + a + b + c, d);
    lemma_ink_of_two(top + a + b, c);
    lemma_ink_of_two(top + a, b);
    lemma_ink_of_two(top, a);
    lemma_sections_ink(resume);
    lemma_top_ink(resume);
    let whole = text::joined(markdown::blocks(resume), sep);
    assert(whole.push('\n').last() == '\n');
    assert(whole.push('\n').drop_last() =~= whole);
    assert(lines::ink(markdown::baseline(resume)) == lines::ink(whole));
}

proof fn lemma_sections_ink(resume: Resume)
    ensures
        lines::ink(text::joined(markdown::skills_section(resume.skills@), "\n\n\n"@))
            == heading_ink(has_terms(resume.skills@), "## Skills\n"@) + skills_ink(resume.skills@),
        lines::ink(text::joined(markdown::work_section(resume.work_experience@), "\n\n\n"@))
            == heading_ink(resume.work_experience@.len() > 0, "## Work Experience\n\n\n"@)
            + work_ink(resume.work_experience@),
        lines::ink(text::joined(markdown::education_section(resume.education@), "\n\n\n"@))
            == heading_ink(resume.education@.len() > 0, "## Education\n\n\n"@) + education_ink(
            resume.education@,
        ),
        lines::ink(
            text::joined(markdown::certifications_section(resume.certifications@), "\n\n\n"@),
        ) == heading_ink(resume.certifications@.len() > 0, "## Certifications\n"@)
            + certifications_ink(resume.certifications@),
{
    let sep = "\n\n\n"@;
    lemma_skills_ink(resume.skills@);
    lemma_section_ink("## Skills\n"@, markdown::skill_lines(resume.skills@), "\n"@);
    lemma_work_ink(resume.work_experience@);
    lemma_section_ink(
        "## Work Experience\n\n\n"@,
        markdown::job_texts(resume.work_experience@),
        sep,
    );
    lemma_education_ink(resume.education@);
    lemma_section_ink("## Education\n\n\n"@, markdown::degree_texts(resume.education@), sep);
    lemma_certifications_ink(resume.certifications@);
    lemma_section_ink(
        "## Certifications\n"@,
        markdown::certification_lines(resume.certifications@),
        "\n"@,
    );
}

proof fn lemma_top_ink(resume: Resume)
    ensures
        lines::ink(
            text::joined(
                seq![
                    markdown::header_block(resume.personal_information),
                    markdown::summary_block(resume.professional_summary@),
                ],
                "\n\n\n"@,
            ),
        ) == lines::ink(contact(resume.personal_information)) + lines::ink(
            "## Professional Summary\n"@ + resume.professional_summary@,
        ),
{
    let one = seq![markdown::header_block(resume.personal_information)];
    let two = seq![markdown::summary_block(resume.professional_summary@)];
    lemma_ink_of_two(one, two);
    assert(one + two =~= seq![
        markdown::header_block(resume.personal_information),
        markdown::summary_block(resume.professional_summary@),
    ]);
    assert(one.drop_last().len() == 0 && two.drop_last().len() == 0);
    assert(text::joined(one, "\n\n\n"@) == one[0]);
    assert(text::joined(two, "\n\n\n"@) == two[0]);
    lines::tidying_takes_white_space_alone(contact(resume.personal_information));
    lines::tidying_takes_white_space_alone(summary(resume.professional_summary@));
    lines::tidying_takes_white_space_alone(resume.professional_summary@);
    lines::lemma_ink_concat(
        "## Professional Summary\n"@,
        text::trimmed_end(resume.professional_summary@),
    );
    lines::lemma_ink_concat("## Professional Summary\n"@, resume.professional_summary@);
}

} // verus!
