//! Documents and catalogues: what is read is what they say, member by member.

use vstd::prelude::*;
use crate::decode;
use crate::decode::Decode;
use crate::domain::{
    Certification, CertificationKeyword, Degree, HardSkill, IndustryTerm, Job, JobPosting, JobTitle,
    KeywordSet, PersonalInformation, Resume, ResumeYaml, SkillCategory, SoftSkill,
};
use crate::json::Tree;

verus! {

/// The member under this key is this text.
pub open spec fn text_at(m: Map<Seq<char>, Tree>, key: Seq<char>, s: Seq<char>) -> bool {
    m.dom().contains(key) && m[key] == Tree::Text(s)
}

/// The member under this key is a text.
pub open spec fn has_text(m: Map<Seq<char>, Tree>, key: Seq<char>) -> bool {
    m.dom().contains(key) && m[key] is Text
}

/// The member under this key is this number.
pub open spec fn number_at(m: Map<Seq<char>, Tree>, key: Seq<char>, n: int) -> bool {
    m.dom().contains(key) && m[key] == Tree::Int(n)
}

/// The member under this key is a number of 32 bits.
pub open spec fn has_number(m: Map<Seq<char>, Tree>, key: Seq<char>) -> bool {
    m.dom().contains(key) && (m[key] matches Tree::Int(n) && i32::MIN <= n <= i32::MAX)
}

/// The member under this key is the list of these texts, or missing where there are none.
pub open spec fn texts_at(m: Map<Seq<char>, Tree>, key: Seq<char>, xs: Seq<String>) -> bool {
    if m.dom().contains(key) {
        m[key] matches Tree::List(items) && items.len() == xs.len() && forall|i: int|
            0 <= i < xs.len() ==> items[i] == Tree::Text((#[trigger] xs[i])@)
    } else {
        xs.len() == 0
    }
}

/// The member under this key is missing or a list of texts.
pub open spec fn may_have_texts(m: Map<Seq<char>, Tree>, key: Seq<char>) -> bool {
    m.dom().contains(key) ==> (m[key] matches Tree::List(items) && forall|i: int|
        0 <= i < items.len() ==> (#[trigger] items[i]) is Text)
}

proof fn lemma_texts(items: Seq<Tree>, path: Seq<char>, from: nat)
    ensures
        decode::elements_problem::<String>(items, path, from) is None <==> forall|i: int|
            from <= i < items.len() ==> (#[trigger] items[i]) is Text,
    decreases items.len() - from,
{
    if from < items.len() {
        lemma_texts(items, path, from + 1);
        assert(items[from as int] is Text <==> String::problem(
            items[from as int],
            decode::element_path(path, from),
        ) is None);
    }
}

/// Contact data is read member by member: every field is the member of its name. It can be
/// read where the members are there and of their type.
pub proof fn personal_information_is_read_by_its_members(t: Tree, path: Seq<char>, x: PersonalInformation)
    ensures
        PersonalInformation::decodes(t, x) <==> {
            &&& t matches Tree::Object(m)
            &&& text_at(m, "full_name"@, x.full_name@)
            &&& text_at(m, "email"@, x.email@)
            &&& text_at(m, "phone"@, x.phone@)
            &&& text_at(m, "linkedin_url"@, x.linkedin_url@)
            &&& text_at(m, "location"@, x.location@)
        },
        PersonalInformation::problem(t, path) is None <==> {
            &&& t matches Tree::Object(m)
            &&& has_text(m, "full_name"@)
            &&& has_text(m, "email"@)
            &&& has_text(m, "phone"@)
            &&& has_text(m, "linkedin_url"@)
            &&& has_text(m, "location"@)
        },
{
    reveal_with_fuel(decode::first_of, 12);
}

/// A skill category is read member by member: every field is the member of its name. It can be
/// read where the members are there and of their type.
pub proof fn skill_category_is_read_by_its_members(t: Tree, path: Seq<char>, x: SkillCategory)
    ensures
        SkillCategory::decodes(t, x) <==> {
            &&& t matches Tree::Object(m)
            &&& text_at(m, "category"@, x.category@)
            &&& texts_at(m, "items"@, x.items@)
        },
        SkillCategory::problem(t, path) is None <==> {
            &&& t matches Tree::Object(m)
            &&& has_text(m, "category"@)
            &&& may_have_texts(m, "items"@)
        },
{
    reveal_with_fuel(decode::first_of, 6);
    if t is Object {
        let m = t->Object_0;
        if m.dom().contains("items"@) && m["items"@] is List {
            lemma_texts(m["items"@]->List_0, decode::member_path(path, "items"@), 0);
        }
    }
}

/// A job is read member by member: every field is the member of its name. It can be
/// read where the members are there and of their type.
pub proof fn job_is_read_by_its_members(t: Tree, path: Seq<char>, x: Job)
    ensures
        Job::decodes(t, x) <==> {
            &&& t matches Tree::Object(m)
            &&& text_at(m, "job_title"@, x.job_title@)
            &&& text_at(m, "company_name"@, x.company_name@)
            &&& text_at(m, "location"@, x.location@)
            &&& text_at(m, "start_date"@, x.start_date@)
            &&& text_at(m, "end_date"@, x.end_date@)
            &&& texts_at(m, "bullets"@, x.bullets@)
        },
        Job::problem(t, path) is None <==> {
            &&& t matches Tree::Object(m)
            &&& has_text(m, "job_title"@)
            &&& has_text(m, "company_name"@)
            &&& has_text(m, "location"@)
            &&& has_text(m, "start_date"@)
            &&& has_text(m, "end_date"@)
            &&& may_have_texts(m, "bullets"@)
        },
{
    reveal_with_fuel(decode::first_of, 14);
    if t is Object {
        let m = t->Object_0;
        if m.dom().contains("bullets"@) && m["bullets"@] is List {
            lemma_texts(m["bullets"@]->List_0, decode::member_path(path, "bullets"@), 0);
        }
    }
}

/// A degree is read member by member: every field is the member of its name. It can be
/// read where the members are there and of their type.
pub proof fn degree_is_read_by_its_members(t: Tree, path: Seq<char>, x: Degree)
    ensures
        Degree::decodes(t, x) <==> {
            &&& t matches Tree::Object(m)
            &&& text_at(m, "degree_name"@, x.degree_name@)
            &&& text_at(m, "institution"@, x.institution@)
            &&& text_at(m, "location"@, x.location@)
            &&& text_at(m, "graduation_date"@, x.graduation_date@)
        },
        Degree::problem(t, path) is None <==> {
            &&& t matches Tree::Object(m)
            &&& has_text(m, "degree_name"@)
            &&& has_text(m, "institution"@)
            &&& has_text(m, "location"@)
            &&& has_text(m, "graduation_date"@)
        },
{
    reveal_with_fuel(decode::first_of, 10);
}

/// A certification is read member by member: every field is the member of its name. It can be
/// read where the members are there and of their type.
pub proof fn certification_is_read_by_its_members(t: Tree, path: Seq<char>, x: Certification)
    ensures
        Certification::decodes(t, x) <==> {
            &&& t matches Tree::Object(m)
            &&& text_at(m, "title"@, x.title@)
            &&& text_at(m, "issuing_organization"@, x.issuing_organization@)
            &&& text_at(m, "year"@, x.year@)
        },
        Certification::problem(t, path) is None <==> {
            &&& t matches Tree::Object(m)
            &&& has_text(m, "title"@)
            &&& has_text(m, "issuing_organization"@)
            &&& has_text(m, "year"@)
        },
{
    reveal_with_fuel(decode::first_of, 8);
}

/// A hard skill is read member by member: every field is the member of its name. It can be
/// read where the members are there and of their type.
pub proof fn hard_skill_is_read_by_its_members(t: Tree, path: Seq<char>, x: HardSkill)
    ensures
        HardSkill::decodes(t, x) <==> {
            &&& t matches Tree::Object(m)
            &&& text_at(m, "primary_term"@, x.primary_term@)
            &&& text_at(m, "acronym"@, x.acronym@)
            &&& text_at(m, "semantic_cluster"@, x.semantic_cluster@)
            &&& number_at(m, "importance_score"@, x.importance_score as int)
        },
        HardSkill::problem(t, path) is None <==> {
            &&& t matches Tree::Object(m)
            &&& has_text(m, "primary_term"@)
            &&& has_text(m, "acronym"@)
            &&& has_text(m, "semantic_cluster"@)
            &&& has_number(m, "importance_score"@)
        },
{
    reveal_with_fuel(decode::first_of, 10);
}

/// A soft skill is read member by member: every field is the member of its name. It can be
/// read where the members are there and of their type.
pub proof fn soft_skill_is_read_by_its_members(t: Tree, path: Seq<char>, x: SoftSkill)
    ensures
        SoftSkill::decodes(t, x) <==> {
            &&& t matches Tree::Object(m)
            &&& text_at(m, "primary_term"@, x.primary_term@)
            &&& text_at(m, "semantic_cluster"@, x.semantic_cluster@)
            &&& number_at(m, "importance_score"@, x.importance_score as int)
        },
        SoftSkill::problem(t, path) is None <==> {
            &&& t matches Tree::Object(m)
            &&& has_text(m, "primary_term"@)
            &&& has_text(m, "semantic_cluster"@)
            &&& has_number(m, "importance_score"@)
        },
{
    reveal_with_fuel(decode::first_of, 8);
}

/// An industry term is read member by member: every field is the member of its name. It can be
/// read where the members are there and of their type.
pub proof fn industry_term_is_read_by_its_members(t: Tree, path: Seq<char>, x: IndustryTerm)
    ensures
        IndustryTerm::decodes(t, x) <==> {
            &&& t matches Tree::Object(m)
            &&& text_at(m, "primary_term"@, x.primary_term@)
            &&& text_at(m, "acronym"@, x.acronym@)
            &&& number_at(m, "importance_score"@, x.importance_score as int)
        },
        IndustryTerm::problem(t, path) is None <==> {
            &&& t matches Tree::Object(m)
            &&& has_text(m, "primary_term"@)
            &&& has_text(m, "acronym"@)
            &&& has_number(m, "importance_score"@)
        },
{
    reveal_with_fuel(decode::first_of, 8);
}

/// A certification of the catalogue is read member by member: every field is the member of its name. It can be
/// read where the members are there and of their type.
pub proof fn certification_keyword_is_read_by_its_members(t: Tree, path: Seq<char>, x: CertificationKeyword)
    ensures
        CertificationKeyword::decodes(t, x) <==> {
            &&& t matches Tree::Object(m)
            &&& text_at(m, "primary_term"@, x.primary_term@)
            &&& number_at(m, "importance_score"@, x.importance_score as int)
        },
        CertificationKeyword::problem(t, path) is None <==> {
            &&& t matches Tree::Object(m)
            &&& has_text(m, "primary_term"@)
            &&& has_number(m, "importance_score"@)
        },
{
    reveal_with_fuel(decode::first_of, 6);
}

/// A job title is read member by member: every field is the member of its name. It can be
/// read where the members are there and of their type.
pub proof fn job_title_is_read_by_its_members(t: Tree, path: Seq<char>, x: JobTitle)
    ensures
        JobTitle::decodes(t, x) <==> {
            &&& t matches Tree::Object(m)
            &&& text_at(m, "primary_term"@, x.primary_term@)
            &&& number_at(m, "importance_score"@, x.importance_score as int)
        },
        JobTitle::problem(t, path) is None <==> {
            &&& t matches Tree::Object(m)
            &&& has_text(m, "primary_term"@)
            &&& has_number(m, "importance_score"@)
        },
{
    reveal_with_fuel(decode::first_of, 6);
}

/// The member under this key reads as a list of this kind.
pub open spec fn list_at<T: Decode>(m: Map<Seq<char>, Tree>, key: Seq<char>, xs: Seq<T>) -> bool {
    m.dom().contains(key) && (m[key] matches Tree::List(items) && items.len() == xs.len()
        && forall|i: int| 0 <= i < xs.len() ==> T::decodes(items[i], #[trigger] xs[i]))
}

/// A resume is read member by member: contact data and summary are there, and every other
/// section is the list of its name, entry by entry, or empty where there is no such list.
pub proof fn resume_is_read_by_its_members(t: Tree, x: Resume)
    ensures
        Resume::decodes(t, x) <==> {
            &&& t matches Tree::Object(m)
            &&& m.dom().contains("personal_information"@)
            &&& PersonalInformation::decodes(m["personal_information"@], x.personal_information)
            &&& text_at(m, "professional_summary"@, x.professional_summary@)
            &&& list_at(m, "skills"@, x.skills@) || (!m.dom().contains("skills"@)
                && x.skills@.len() == 0)
            &&& list_at(m, "work_experience"@, x.work_experience@) || (!m.dom().contains(
                "work_experience"@,
            ) && x.work_experience@.len() == 0)
            &&& list_at(m, "education"@, x.education@) || (!m.dom().contains("education"@)
                && x.education@.len() == 0)
            &&& list_at(m, "certifications"@, x.certifications@) || (!m.dom().contains(
                "certifications"@,
            ) && x.certifications@.len() == 0)
        },
{
}

/// The resume of a document is its `cv` block.
pub proof fn document_holds_the_resume(t: Tree, x: ResumeYaml)
    ensures
        ResumeYaml::decodes(t, x) <==> {
            &&& t matches Tree::Object(m)
            &&& m.dom().contains("cv"@)
            &&& Resume::decodes(m["cv"@], x.cv)
        },
{
}

/// A catalogue is read member by member: its five categories are the lists of their names,
/// entry by entry.
pub proof fn catalogue_is_read_by_its_members(t: Tree, x: KeywordSet)
    ensures
        KeywordSet::decodes(t, x) <==> {
            &&& t matches Tree::Object(m)
            &&& list_at(m, "hard_skills_and_tools"@, x.hard_skills_and_tools@)
            &&& list_at(m, "soft_skills_and_competencies"@, x.soft_skills_and_competencies@)
            &&& list_at(m, "industry_specific_terminology"@, x.industry_specific_terminology@)
            &&& list_at(m, "certifications_and_credentials"@, x.certifications_and_credentials@)
            &&& list_at(m, "job_titles_and_seniority"@, x.job_titles_and_seniority@)
        },
{
}

/// A posting is read member by member, or from a list of its title and its body. It can be
/// read where the body is a text, and the title is one too or missing.
pub proof fn posting_is_read_by_its_members(t: Tree, path: Seq<char>, x: JobPosting)
    ensures
        JobPosting::decodes(t, x) <==> crate::laws::run::says(t, x),
        JobPosting::problem(t, path) is None <==> {
            ||| t matches Tree::Object(m) && has_text(m, "markdown"@) && (m.dom().contains(
                "title"@,
            ) ==> m["title"@] is Text)
            ||| t matches Tree::List(items) && items.len() == 2 && items[0] is Text && items[1]
                is Text
        },
{
    reveal_with_fuel(decode::first_of, 5);
    if t is List {
        let items = t->List_0;
        if items.len() == 2 {
            lemma_texts(items, path, 0);
        }
    } else if t is Object {
        assert(String::problem(t->Object_0["title"@], decode::member_path(path, "title"@)) is None
            <==> t->Object_0["title"@] is Text);
    }
    if x.title@.len() == 0 {
        assert(x.title@ =~= Seq::<char>::empty());
    }
}

/// A reply holds a posting where it is not blank, is JSON, and reads as one; and nowhere
/// else.
pub proof fn scrape_reply_passes_three_times(content: Seq<char>)
    ensures
        crate::stage::scrape::reply_problem(content) is None <==> {
            &&& crate::text::trimmed(content).len() > 0
            &&& crate::json::json_parsed(crate::text::trimmed(content)) is Ok
            &&& JobPosting::problem(
                crate::json::json_parsed(crate::text::trimmed(content))->Ok_0,
                Seq::empty(),
            ) is None
        },
{
}

/// The path of a member stands behind that of its object, and the path of an element tells
/// its place.
pub proof fn paths_lead_to_their_value(path: Seq<char>, key: Seq<char>, i: nat)
    ensures
        path.len() > 0 ==> decode::member_path(path, key) == path + "."@ + key,
        path.len() == 0 ==> decode::member_path(path, key) == key,
        decode::element_path(path, i) == path + "["@ + crate::text::numeral(i) + "]"@,
{
}

} // verus!
