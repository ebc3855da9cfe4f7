//! The Research phase: the research document and the prompts that produce it.

pub mod context;
pub mod document;
pub mod parse;
pub mod prompts;
