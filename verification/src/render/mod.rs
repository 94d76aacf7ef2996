//! Validating resumes and rendering them to Markdown.

pub mod cache;
pub mod markdown;
pub mod tidy;
pub mod validate;

pub use markdown::render_baseline;
pub use validate::{json_pointer_to_dotted, parse_and_validate};
