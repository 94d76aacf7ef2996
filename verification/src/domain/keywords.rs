//! The keyword catalogue that is extracted from a job posting.

use vstd::prelude::*;

verus! {

/// Technical or tooling entry.
#[derive(Debug, Clone, PartialEq, Eq)]
pub struct HardSkill {
    pub primary_term: String,
    pub acronym: String,
    pub semantic_cluster: String,
    pub importance_score: i32,
}

/// Behavioural or competency entry.
#[derive(Debug, Clone, PartialEq, Eq)]
pub struct SoftSkill {
    pub primary_term: String,
    pub semantic_cluster: String,
    pub importance_score: i32,
}

/// Jargon, metric or framework of the posting's industry.
#[derive(Debug, Clone, PartialEq, Eq)]
pub struct IndustryTerm {
    pub primary_term: String,
    pub acronym: String,
    pub importance_score: i32,
}

/// Required license, degree or professional certification.
#[derive(Debug, Clone, PartialEq, Eq)]
pub struct CertificationKeyword {
    pub primary_term: String,
    pub importance_score: i32,
}

/// Exact role title with its seniority.
#[derive(Debug, Clone, PartialEq, Eq)]
pub struct JobTitle {
    pub primary_term: String,
    pub importance_score: i32,
}

/// The full catalogue, in its five categories.
#[derive(Debug, Clone, PartialEq, Eq)]
pub struct KeywordSet {
    pub hard_skills_and_tools: Vec<HardSkill>,
    pub soft_skills_and_competencies: Vec<SoftSkill>,
    pub industry_specific_terminology: Vec<IndustryTerm>,
    pub certifications_and_credentials: Vec<CertificationKeyword>,
    pub job_titles_and_seniority: Vec<JobTitle>,
}

impl Default for KeywordSet {
    /// The catalogue without an entry.
    fn default() -> (r: Self)
        ensures
            r.hard_skills_and_tools@.len() == 0,
            r.soft_skills_and_competencies@.len() == 0,
            r.industry_specific_terminology@.len() == 0,
            r.certifications_and_credentials@.len() == 0,
            r.job_titles_and_seniority@.len() == 0,
    {
        KeywordSet {
            hard_skills_and_tools: Vec::new(),
            soft_skills_and_competencies: Vec::new(),
            industry_specific_terminology: Vec::new(),
            certifications_and_credentials: Vec::new(),
            job_titles_and_seniority: Vec::new(),
        }
    }
}

impl KeywordSet {
    /// The primary terms of the hard skills.
    pub open spec fn hard_terms(self) -> Seq<Seq<char>> {
        let items = self.hard_skills_and_tools@;
        Seq::new(items.len(), |i: int| items[i].primary_term@)
    }

    /// The primary terms of the soft skills.
    pub open spec fn soft_terms(self) -> Seq<Seq<char>> {
        let items = self.soft_skills_and_competencies@;
        Seq::new(items.len(), |i: int| items[i].primary_term@)
    }

    /// The primary terms of the industry terminology.
    pub open spec fn industry_terms(self) -> Seq<Seq<char>> {
        let items = self.industry_specific_terminology@;
        Seq::new(items.len(), |i: int| items[i].primary_term@)
    }

    /// The primary terms of the certifications.
    pub open spec fn certification_terms(self) -> Seq<Seq<char>> {
        let items = self.certifications_and_credentials@;
        Seq::new(items.len(), |i: int| items[i].primary_term@)
    }

    /// The primary terms of the job titles.
    pub open spec fn title_terms(self) -> Seq<Seq<char>> {
        let items = self.job_titles_and_seniority@;
        Seq::new(items.len(), |i: int| items[i].primary_term@)
    }

    /// Every primary term, category after category.
    pub open spec fn terms(self) -> Seq<Seq<char>> {
        self.hard_terms() + self.soft_terms() + self.industry_terms() + self.certification_terms()
            + self.title_terms()
    }

    /// Every primary term across the five categories, category after category.
    pub fn all_primary_terms(&self) -> (r: Vec<&str>)
        ensures
            r@.len() == self.terms().len(),
            forall|i: int| 0 <= i < r@.len() ==> (#[trigger] r@[i])@ == self.terms()[i],
    {
        let mut out: Vec<&str> = Vec::new();
        let ghost all = self.terms();
        let n1: usize = self.hard_skills_and_tools.len();
        for i in 0..n1
            invariant
                n1 == self.hard_terms().len(),
                all == self.terms(),
                out@.len() == i,
                forall|k: int| 0 <= k < out@.len() ==> (#[trigger] out@[k])@ == all[k],
        {
            out.push(self.hard_skills_and_tools[i].primary_term.as_str());
        }
        let n2: usize = self.soft_skills_and_competencies.len();
        for i in 0..n2
            invariant
                n2 == self.soft_terms().len(),
                all == self.terms(),
                out@.len() == self.hard_terms().len() + i,
                forall|k: int| 0 <= k < out@.len() ==> (#[trigger] out@[k])@ == all[k],
        {
            out.push(self.soft_skills_and_competencies[i].primary_term.as_str());
        }
        let n3: usize = self.industry_specific_terminology.len();
        for i in 0..n3
            invariant
                n3 == self.industry_terms().len(),
                all == self.terms(),
                out@.len() == self.hard_terms().len() + self.soft_terms().len() + i,
                forall|k: int| 0 <= k < out@.len() ==> (#[trigger] out@[k])@ == all[k],
        {
            out.push(self.industry_specific_terminology[i].primary_term.as_str());
        }
        let n4: usize = self.certifications_and_credentials.len();
        for i in 0..n4
            invariant
                n4 == self.certification_terms().len(),
                all == self.terms(),
                out@.len() == self.hard_terms().len() + self.soft_terms().len()
                    + self.industry_terms().len() + i,
                forall|k: int| 0 <= k < out@.len() ==> (#[trigger] out@[k])@ == all[k],
        {
            out.push(self.certifications_and_credentials[i].primary_term.as_str());
        }
        let n5: usize = self.job_titles_and_seniority.len();
        for i in 0..n5
            invariant
                n5 == self.title_terms().len(),
                all == self.terms(),
                out@.len() == self.hard_terms().len() + self.soft_terms().len()
                    + self.industry_terms().len() + self.certification_terms().len() + i,
                forall|k: int| 0 <= k < out@.len() ==> (#[trigger] out@[k])@ == all[k],
        {
            out.push(self.job_titles_and_seniority[i].primary_term.as_str());
        }
        out
    }
}

} // verus!
