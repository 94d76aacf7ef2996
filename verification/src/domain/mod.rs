//! The plain data of the resume optimizer: resumes, keyword catalogues and job
//! postings.

pub mod job_posting;
pub mod keywords;
pub mod resume;

pub use job_posting::JobPosting;
pub use keywords::{
    CertificationKeyword, HardSkill, IndustryTerm, JobTitle, KeywordSet, SoftSkill,
};
pub use resume::{
    Certification, Degree, Job, PersonalInformation, Resume, ResumeYaml, SkillCategory,
};
