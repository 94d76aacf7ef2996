//! ATS resume optimizer: the domain model, the rendering rules, the stage state
//! machines and the error taxonomy behind the `ats` command line tool.
//!
//! The library decides and computes; it never touches the network, the disk or
//! the clock. Where a stage waits for something outside, it is a state machine
//! that says what to do next and takes the event that comes back.

pub mod assets;
pub mod audit;
pub mod chromium;
pub mod cli;
pub mod commands;
pub mod config;
pub mod decode;
pub mod density;
pub mod domain;
pub mod error;
pub mod fetch;
pub mod fs_layout;
pub mod json;
pub mod laws;
pub mod logging;
pub mod openrouter;
pub mod pdf;
pub mod pipeline;
pub mod ports;
pub mod probe;
pub mod render;
pub mod schema;
pub mod scrape_port;
pub mod slug;
pub mod stage;
pub mod text;

pub use audit::{format_run_dir_ts, RunFolder};
pub use config::{Config, ModelStageConfig};
pub use domain::{
    Certification, CertificationKeyword, Degree, HardSkill, IndustryTerm, Job, JobPosting, JobTitle,
    KeywordSet, PersonalInformation, Resume, ResumeYaml, SkillCategory, SoftSkill,
};
pub use error::{AtsError, LlmClass, ScrapeClass, YamlDiag};
pub use fs_layout::BinaryFsLayout;
pub use logging::LogFormat;
pub use openrouter::{is_context_exceeded_error, OpenRouterClient};
pub use pipeline::{Pipeline, RunPipelineError, RunPipelineInput, RunPipelineResult};
pub use ports::{
    ChatMessage, ChatRole, LlmCallRecord, LlmError, LlmRequest, LlmResponse, PdfError, TokenUsage,
    VecAuditSink,
};
pub use probe::classify_reachability_error;
pub use render::cache::{hash_key, load_or_render, CacheResult};
pub use render::markdown::render_baseline;
pub use render::validate::{json_pointer_to_dotted, parse_and_validate};
pub use scrape_port::ScrapeError;
pub use slug::{sanitize_title, MAX_SLUG_CHARS};
