//! The resume as a document: the shape of the YAML contract.
//!
//! The top level of the document is one `cv` block. Contact data and summary
//! are always there; every other section may be empty.

use vstd::prelude::*;

verus! {

/// Contact block at the top of the resume.
#[derive(Debug, Clone, PartialEq, Eq)]
pub struct PersonalInformation {
    pub full_name: String,
    pub email: String,
    pub phone: String,
    pub linkedin_url: String,
    pub location: String,
}

/// One skill category: a label and its terms.
#[derive(Debug, Clone, PartialEq, Eq)]
pub struct SkillCategory {
    pub category: String,
    pub items: Vec<String>,
}

/// One position held.
#[derive(Debug, Clone, PartialEq, Eq)]
pub struct Job {
    pub job_title: String,
    pub company_name: String,
    pub location: String,
    pub start_date: String,
    /// Free-form text; `Present` is rendered as it stands.
    pub end_date: String,
    pub bullets: Vec<String>,
}

/// One degree.
#[derive(Debug, Clone, PartialEq, Eq)]
pub struct Degree {
    pub degree_name: String,
    pub institution: String,
    pub location: String,
    pub graduation_date: String,
}

/// One certification.
#[derive(Debug, Clone, PartialEq, Eq)]
pub struct Certification {
    pub title: String,
    pub issuing_organization: String,
    pub year: String,
}

/// The resume as it is rendered: the `cv` block of the document, with absent
/// sections empty.
#[derive(Debug, Clone, PartialEq, Eq)]
pub struct Resume {
    pub personal_information: PersonalInformation,
    pub professional_summary: String,
    pub skills: Vec<SkillCategory>,
    pub work_experience: Vec<Job>,
    pub education: Vec<Degree>,
    pub certifications: Vec<Certification>,
}

/// The whole document: the outer `cv` wrapper.
#[derive(Debug, Clone, PartialEq, Eq)]
pub struct ResumeYaml {
    pub cv: Resume,
}

} // verus!
