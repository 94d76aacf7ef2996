//! The stages of the pipeline. A stage that waits for a reply is a state
//! machine: it says what to ask, and takes the reply to its next state.

pub mod keywords;
pub mod optimize;
pub mod ranking;
pub mod scrape;
