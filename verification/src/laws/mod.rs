//! What holds of the operations of the tool as a whole: how the result of one
//! relates to its input, and how the results of two calls relate.

pub mod baseline;
pub mod cache;
pub mod catalogue;
pub mod commands;
pub mod density;
pub mod documents;
pub mod endings;
pub mod extraction;
pub mod lines;
pub mod messages;
pub mod names;
pub mod pages;
pub mod records;
pub mod run;
pub mod slug;
pub mod wire;
pub mod words;
