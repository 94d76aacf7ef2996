//! The Markdown view of a keyword catalogue: every entry with all it says, once,
//! in the section of its category, the higher scores first.

use vstd::prelude::*;
use crate::domain::{
    CertificationKeyword, HardSkill, IndustryTerm, JobTitle, KeywordSet, SoftSkill,
};
use crate::stage::keywords;
use crate::stage::ranking;
use crate::text;

verus! {

/// What an entry says beside its term and its score: nothing where the value is
/// blank.
pub open spec fn note(label: Seq<char>, value: Seq<char>) -> Seq<char> {
    if text::trimmed(value).len() == 0 {
        Seq::empty()
    } else {
        label + text::trimmed(value)
    }
}

/// A hard skill with its term, its score, its cluster and its acronym.
pub open spec fn hard_entry(k: HardSkill) -> Seq<char> {
    "- "@ + k.primary_term@ + " (score "@ + text::signed_numeral(k.importance_score as int) + note(
        ", cluster "@,
        k.semantic_cluster@,
    ) + note(", acronym "@, k.acronym@) + ")\n"@
}

/// A soft skill with its term, its score and its cluster.
pub open spec fn soft_entry(k: SoftSkill) -> Seq<char> {
    "- "@ + k.primary_term@ + " (score "@ + text::signed_numeral(k.importance_score as int) + note(
        ", cluster "@,
        k.semantic_cluster@,
    ) + ")\n"@
}

/// An industry term with its term, its score and its acronym.
pub open spec fn industry_entry(k: IndustryTerm) -> Seq<char> {
    "- "@ + k.primary_term@ + " (score "@ + text::signed_numeral(k.importance_score as int) + note(
        ", acronym "@,
        k.acronym@,
    ) + ")\n"@
}

/// A certification with its term and its score.
pub open spec fn certification_entry(k: CertificationKeyword) -> Seq<char> {
    "- "@ + k.primary_term@ + " (score "@ + text::signed_numeral(k.importance_score as int)
        + ")\n"@
}

/// A job title with its term and its score.
pub open spec fn title_entry(k: JobTitle) -> Seq<char> {
    "- "@ + k.primary_term@ + " (score "@ + text::signed_numeral(k.importance_score as int)
        + ")\n"@
}

/// The entries of the hard skills, in the order of the catalogue.
pub open spec fn hard_entries(items: Seq<HardSkill>) -> Seq<Seq<char>> {
    Seq::new(items.len(), |i: int| hard_entry(items[i]))
}

/// The scores of the hard skills.
pub open spec fn hard_scores(items: Seq<HardSkill>) -> Seq<i32> {
    Seq::new(items.len(), |i: int| items[i].importance_score)
}

/// The entries of the soft skills, in the order of the catalogue.
pub open spec fn soft_entries(items: Seq<SoftSkill>) -> Seq<Seq<char>> {
    Seq::new(items.len(), |i: int| soft_entry(items[i]))
}

/// The scores of the soft skills.
pub open spec fn soft_scores(items: Seq<SoftSkill>) -> Seq<i32> {
    Seq::new(items.len(), |i: int| items[i].importance_score)
}

/// The entries of the industry terms, in the order of the catalogue.
pub open spec fn industry_entries(items: Seq<IndustryTerm>) -> Seq<Seq<char>> {
    Seq::new(items.len(), |i: int| industry_entry(items[i]))
}

/// The scores of the industry terms.
pub open spec fn industry_scores(items: Seq<IndustryTerm>) -> Seq<i32> {
    Seq::new(items.len(), |i: int| items[i].importance_score)
}

/// The entries of the certifications, in the order of the catalogue.
pub open spec fn certification_entries(items: Seq<CertificationKeyword>) -> Seq<Seq<char>> {
    Seq::new(items.len(), |i: int| certification_entry(items[i]))
}

/// The scores of the certifications.
pub open spec fn certification_scores(items: Seq<CertificationKeyword>) -> Seq<i32> {
    Seq::new(items.len(), |i: int| items[i].importance_score)
}

/// The entries of the job titles, in the order of the catalogue.
pub open spec fn title_entries(items: Seq<JobTitle>) -> Seq<Seq<char>> {
    Seq::new(items.len(), |i: int| title_entry(items[i]))
}

/// The scores of the job titles.
pub open spec fn title_scores(items: Seq<JobTitle>) -> Seq<i32> {
    Seq::new(items.len(), |i: int| items[i].importance_score)
}

/// `order` names each of the entries with these scores once, higher scores first,
/// and equal scores in the order of the entries.
pub open spec fn ranks(order: Seq<int>, scores: Seq<i32>) -> bool {
    &&& order.len() == scores.len()
    &&& order.no_duplicates()
    &&& forall|k: int| 0 <= k < order.len() ==> 0 <= #[trigger] order[k] < scores.len()
    &&& forall|i: int| 0 <= i < scores.len() ==> #[trigger] order.contains(i)
    &&& forall|j: int, k: int|
        0 <= j < k < order.len() ==> {
            ||| scores[#[trigger] order[j]] > scores[#[trigger] order[k]]
            ||| scores[order[j]] == scores[order[k]] && order[j] < order[k]
        }
}

/// The lines one behind the other, in this order.
pub open spec fn listing(lines: Seq<Seq<char>>, order: Seq<int>) -> Seq<char>
    decreases order.len(),
{
    if order.len() == 0 {
        Seq::empty()
    } else {
        lines[order[0]] + listing(lines, order.skip(1))
    }
}

proof fn lemma_listing_push(lines: Seq<Seq<char>>, order: Seq<int>, i: int)
    ensures
        listing(lines, order.push(i)) == listing(lines, order) + lines[i],
    decreases order.len(),
{
    let all = order.push(i);
    if order.len() == 0 {
        assert(all.skip(1) =~= Seq::empty());
        assert(listing(lines, all.skip(1)) =~= Seq::empty());
        assert(listing(lines, all) =~= listing(lines, order) + lines[i]);
    } else {
        lemma_listing_push(lines, order.skip(1), i);
        assert(all.skip(1) =~= order.skip(1).push(i));
        assert(listing(lines, all) =~= listing(lines, order) + lines[i]);
    }
}

proof fn lemma_picked_is_listing(lines: Seq<Seq<char>>, order: Seq<int>)
    ensures
        keywords::picked(lines, order) == listing(lines, order),
    decreases order.len(),
{
    if order.len() > 0 {
        lemma_picked_is_listing(lines, order.drop_last());
        lemma_listing_push(lines, order.drop_last(), order.last());
        assert(order.drop_last().push(order.last()) =~= order);
    }
}

proof fn lemma_section(heading: Seq<char>, lines: Seq<Seq<char>>, scores: Seq<i32>) -> (order: Seq<
    int,
>)
    requires
        lines.len() == scores.len(),
    ensures
        ranks(order, scores),
        keywords::category(heading, lines, scores) == "## "@ + heading + "\n"@ + listing(
            lines,
            order,
        ),
{
    let order = ranking::ranking(scores);
    ranking::ranking_is_a_stable_descending_sort(scores);
    lemma_picked_is_listing(lines, order);
    assert forall|j: int, k: int| 0 <= j < k < order.len() implies {
        ||| scores[#[trigger] order[j]] > scores[#[trigger] order[k]]
        ||| scores[order[j]] == scores[order[k]] && order[j] < order[k]
    } by {
        assert(ranking::ranks_before(scores, order[j], order[k]));
    }
    order
}

/// A section of the view: its heading, and its lines in an order that ranks them.
pub open spec fn is_section(
    s: Seq<char>,
    heading: Seq<char>,
    lines: Seq<Seq<char>>,
    scores: Seq<i32>,
    order: Seq<int>,
) -> bool {
    ranks(order, scores) && s == "## "@ + heading + "\n"@ + listing(lines, order)
}

proof fn lemma_remark(label: Seq<char>, value: Seq<char>)
    ensures
        keywords::remark(label, value) == note(", "@ + label + " "@, value),
{
}

proof fn lemma_labels()
    ensures
        ", "@ + "cluster"@ + " "@ == ", cluster "@,
        ", "@ + "acronym"@ + " "@ == ", acronym "@,
{
    reveal_strlit(", ");
    reveal_strlit(" ");
    reveal_strlit("cluster");
    reveal_strlit("acronym");
    reveal_strlit(", cluster ");
    reveal_strlit(", acronym ");
    assert(", "@ + "cluster"@ + " "@ =~= ", cluster "@);
    assert(", "@ + "acronym"@ + " "@ =~= ", acronym "@);
}

proof fn lemma_hard_entry(k: HardSkill)
    ensures
        keywords::hard_line(k) == hard_entry(k),
{
    lemma_labels();
    lemma_remark("cluster"@, k.semantic_cluster@);
    lemma_remark("acronym"@, k.acronym@);
}

proof fn lemma_soft_entry(k: SoftSkill)
    ensures
        keywords::soft_line(k) == soft_entry(k),
{
    lemma_labels();
    lemma_remark("cluster"@, k.semantic_cluster@);
}

proof fn lemma_industry_entry(k: IndustryTerm)
    ensures
        keywords::industry_line(k) == industry_entry(k),
{
    lemma_labels();
    lemma_remark("acronym"@, k.acronym@);
}

/// The view is the five sections, a blank line apart. Each section holds every
/// entry of its category once, with all that the entry says, by descending score.
pub proof fn view_ranks_every_entry_once(set: KeywordSet) -> (s: (
    Seq<char>,
    Seq<char>,
    Seq<char>,
    Seq<char>,
    Seq<char>,
))
    ensures
        keywords::markdown_view(set) == s.0 + "\n"@ + s.1 + "\n"@ + s.2 + "\n"@ + s.3 + "\n"@ + s.4,
        ({
            let items = set.hard_skills_and_tools@;
            exists|order: Seq<int>| #[trigger]
                is_section(
                    s.0,
                    "Hard Skills and Tools"@,
                    hard_entries(items),
                    hard_scores(items),
                    order,
                )
        }),
        ({
            let items = set.soft_skills_and_competencies@;
            exists|order: Seq<int>| #[trigger]
                is_section(
                    s.1,
                    "Soft Skills and Competencies"@,
                    soft_entries(items),
                    soft_scores(items),
                    order,
                )
        }),
        ({
            let items = set.industry_specific_terminology@;
            exists|order: Seq<int>| #[trigger]
                is_section(
                    s.2,
                    "Industry-Specific Terminology"@,
                    industry_entries(items),
                    industry_scores(items),
                    order,
                )
        }),
        ({
            let items = set.certifications_and_credentials@;
            exists|order: Seq<int>| #[trigger]
                is_section(
                    s.3,
                    "Certifications and Credentials"@,
                    certification_entries(items),
                    certification_scores(items),
                    order,
                )
        }),
        ({
            let items = set.job_titles_and_seniority@;
            exists|order: Seq<int>| #[trigger]
                is_section(
                    s.4,
                    "Job Titles and Seniority"@,
                    title_entries(items),
                    title_scores(items),
                    order,
                )
        }),
{
    let hard = set.hard_skills_and_tools@;
    let hard_lines = hard_entries(hard);
    let hard_scores = hard_scores(hard);
    assert forall|i: int| 0 <= i < hard.len() implies hard_lines[i] == keywords::hard_line(
        hard[i],
    ) by {
        lemma_hard_entry(hard[i]);
    }
    assert(hard_lines =~= Seq::new(hard.len(), |i: int| keywords::hard_line(hard[i])));
    let o0 = lemma_section("Hard Skills and Tools"@, hard_lines, hard_scores);
    let s0 = keywords::hard_category(hard);
    assert(is_section(s0, "Hard Skills and Tools"@, hard_lines, hard_scores, o0));

    let soft = set.soft_skills_and_competencies@;
    let soft_lines = soft_entries(soft);
    let soft_scores = soft_scores(soft);
    assert forall|i: int| 0 <= i < soft.len() implies soft_lines[i] == keywords::soft_line(
        soft[i],
    ) by {
        lemma_soft_entry(soft[i]);
    }
    assert(soft_lines =~= Seq::new(soft.len(), |i: int| keywords::soft_line(soft[i])));
    let o1 = lemma_section("Soft Skills and Competencies"@, soft_lines, soft_scores);
    let s1 = keywords::soft_category(soft);
    assert(is_section(s1, "Soft Skills and Competencies"@, soft_lines, soft_scores, o1));

    let industry = set.industry_specific_terminology@;
    let industry_lines = industry_entries(industry);
    let industry_scores = industry_scores(industry);
    assert forall|i: int| 0 <= i < industry.len() implies industry_lines[i]
        == keywords::industry_line(industry[i]) by {
        lemma_industry_entry(industry[i]);
    }
    assert(industry_lines =~= Seq::new(
        industry.len(),
        |i: int| keywords::industry_line(industry[i]),
    ));
    let o2 = lemma_section("Industry-Specific Terminology"@, industry_lines, industry_scores);
    let s2 = keywords::industry_category(industry);
    assert(is_section(
        s2,
        "Industry-Specific Terminology"@,
        industry_lines,
        industry_scores,
        o2,
    ));

    let certs = set.certifications_and_credentials@;
    let cert_lines = certification_entries(certs);
    let cert_scores = certification_scores(certs);
    assert(cert_lines =~= Seq::new(certs.len(), |i: int| keywords::certification_line(certs[i])));
    let o3 = lemma_section("Certifications and Credentials"@, cert_lines, cert_scores);
    let s3 = keywords::certification_category(certs);
    assert(is_section(s3, "Certifications and Credentials"@, cert_lines, cert_scores, o3));

    let titles = set.job_titles_and_seniority@;
    let title_lines = title_entries(titles);
    let title_scores = title_scores(titles);
    assert(title_lines =~= Seq::new(titles.len(), |i: int| keywords::title_line(titles[i])));
    let o4 = lemma_section("Job Titles and Seniority"@, title_lines, title_scores);
    let s4 = keywords::title_category(titles);
    assert(is_section(s4, "Job Titles and Seniority"@, title_lines, title_scores, o4));

    (s0, s1, s2, s3, s4)
}

proof fn lemma_listing_holds(lines: Seq<Seq<char>>, order: Seq<int>, k: int)
    requires
        0 <= k < order.len(),
    ensures
        text::occurs(listing(lines, order), lines[order[k]]),
    decreases order.len(),
{
    let first = lines[order[0]];
    let rest = listing(lines, order.skip(1));
    let all = listing(lines, order);
    assert(all == first + rest);
    if k == 0 {
        assert(all.subrange(0, first.len() as int) =~= first);
        assert(text::stands_at(all, first, 0));
    } else {
        assert(order.skip(1)[k - 1] == order[k]);
        lemma_listing_holds(lines, order.skip(1), k - 1);
        let line = lines[order[k]];
        let at = choose|at: int| text::stands_at(rest, line, at);
        let p = at + first.len();
        assert(all.subrange(p, p + line.len()) =~= rest.subrange(at, at + line.len()));
        assert(text::stands_at(all, line, p));
    }
}

proof fn lemma_occurs_in_sections(
    s: (Seq<char>, Seq<char>, Seq<char>, Seq<char>, Seq<char>),
    needle: Seq<char>,
)
    requires
        text::occurs(s.0, needle) || text::occurs(s.1, needle) || text::occurs(s.2, needle)
            || text::occurs(s.3, needle) || text::occurs(s.4, needle),
    ensures
        text::occurs(s.0 + "\n"@ + s.1 + "\n"@ + s.2 + "\n"@ + s.3 + "\n"@ + s.4, needle),
{
    let nl = "\n"@;
    let a = s.0;
    let b = a + nl + s.1;
    let c = b + nl + s.2;
    let d = c + nl + s.3;
    if text::occurs(a, needle) {
        text::lemma_occurs_in_front(a, nl, needle);
        text::lemma_occurs_in_front(a + nl, s.1, needle);
    }
    if text::occurs(s.1, needle) {
        text::lemma_occurs_behind(a + nl, s.1, needle);
    }
    if text::occurs(b, needle) {
        text::lemma_occurs_in_front(b, nl, needle);
        text::lemma_occurs_in_front(b + nl, s.2, needle);
    }
    if text::occurs(s.2, needle) {
        text::lemma_occurs_behind(b + nl, s.2, needle);
    }
    if text::occurs(c, needle) {
        text::lemma_occurs_in_front(c, nl, needle);
        text::lemma_occurs_in_front(c + nl, s.3, needle);
    }
    if text::occurs(s.3, needle) {
        text::lemma_occurs_behind(c + nl, s.3, needle);
    }
    if text::occurs(d, needle) {
        text::lemma_occurs_in_front(d, nl, needle);
        text::lemma_occurs_in_front(d + nl, s.4, needle);
    }
    if text::occurs(s.4, needle) {
        text::lemma_occurs_behind(d + nl, s.4, needle);
    }
}

proof fn lemma_section_holds(
    s: Seq<char>,
    heading: Seq<char>,
    lines: Seq<Seq<char>>,
    scores: Seq<i32>,
    i: int,
)
    requires
        exists|order: Seq<int>| #[trigger] is_section(s, heading, lines, scores, order),
        0 <= i < scores.len(),
    ensures
        text::occurs(s, lines[i]),
{
    let order = choose|order: Seq<int>| #[trigger] is_section(s, heading, lines, scores, order);
    assert(order.contains(i));
    let k = choose|k: int| 0 <= k < order.len() && order[k] == i;
    lemma_listing_holds(lines, order, k);
    text::lemma_occurs_behind("## "@ + heading + "\n"@, listing(lines, order), lines[i]);
}

/// Every entry of the catalogue is in the view, with its term, its score, and its
/// cluster and its acronym where they are not blank.
pub proof fn view_holds_every_entry(set: KeywordSet)
    ensures
        forall|i: int|
            0 <= i < set.hard_skills_and_tools@.len() ==> text::occurs(
                keywords::markdown_view(set),
                #[trigger] hard_entry(set.hard_skills_and_tools@[i]),
            ),
        forall|i: int|
            0 <= i < set.soft_skills_and_competencies@.len() ==> text::occurs(
                keywords::markdown_view(set),
                #[trigger] soft_entry(set.soft_skills_and_competencies@[i]),
            ),
        forall|i: int|
            0 <= i < set.industry_specific_terminology@.len() ==> text::occurs(
                keywords::markdown_view(set),
                #[trigger] industry_entry(set.industry_specific_terminology@[i]),
            ),
        forall|i: int|
            0 <= i < set.certifications_and_credentials@.len() ==> text::occurs(
                keywords::markdown_view(set),
                #[trigger] certification_entry(set.certifications_and_credentials@[i]),
            ),
        forall|i: int|
            0 <= i < set.job_titles_and_seniority@.len() ==> text::occurs(
                keywords::markdown_view(set),
                #[trigger] title_entry(set.job_titles_and_seniority@[i]),
            ),
{
    let s = view_ranks_every_entry_once(set);
    let all = keywords::markdown_view(set);
    assert forall|i: int| 0 <= i < set.hard_skills_and_tools@.len() implies text::occurs(
        all,
        #[trigger] hard_entry(set.hard_skills_and_tools@[i]),
    ) by {
        let items = set.hard_skills_and_tools@;
        lemma_section_holds(s.0, "Hard Skills and Tools"@, hard_entries(items), hard_scores(items), i);
        lemma_occurs_in_sections(s, hard_entry(items[i]));
    }
    assert forall|i: int| 0 <= i < set.soft_skills_and_competencies@.len() implies text::occurs(
        all,
        #[trigger] soft_entry(set.soft_skills_and_competencies@[i]),
    ) by {
        let items = set.soft_skills_and_competencies@;
        lemma_section_holds(s.1, "Soft Skills and Competencies"@, soft_entries(items), soft_scores(items), i);
        lemma_occurs_in_sections(s, soft_entry(items[i]));
    }
    assert forall|i: int| 0 <= i < set.industry_specific_terminology@.len() implies text::occurs(
        all,
        #[trigger] industry_entry(set.industry_specific_terminology@[i]),
    ) by {
        let items = set.industry_specific_terminology@;
        lemma_section_holds(s.2, "Industry-Specific Terminology"@, industry_entries(items), industry_scores(items), i);
        lemma_occurs_in_sections(s, industry_entry(items[i]));
    }
    assert forall|i: int| 0 <= i < set.certifications_and_credentials@.len() implies text::occurs(
        all,
        #[trigger] certification_entry(set.certifications_and_credentials@[i]),
    ) by {
        let items = set.certifications_and_credentials@;
        lemma_section_holds(s.3, "Certifications and Credentials"@, certification_entries(items), certification_scores(items), i);
        lemma_occurs_in_sections(s, certification_entry(items[i]));
    }
    assert forall|i: int| 0 <= i < set.job_titles_and_seniority@.len() implies text::occurs(
        all,
        #[trigger] title_entry(set.job_titles_and_seniority@[i]),
    ) by {
        let items = set.job_titles_and_seniority@;
        lemma_section_holds(s.4, "Job Titles and Seniority"@, title_entries(items), title_scores(items), i);
        lemma_occurs_in_sections(s, title_entry(items[i]));
    }
}

} // verus!
