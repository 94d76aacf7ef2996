//! A scraped job posting.

use vstd::prelude::*;

verus! {

/// A scraped posting: the raw title as it was extracted, and the posting's body
/// as clean Markdown.
#[derive(Debug, Clone, PartialEq, Eq)]
pub struct JobPosting {
    pub title: String,
    pub markdown: String,
}

} // verus!
