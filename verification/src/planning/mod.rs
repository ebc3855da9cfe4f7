//! The Planning phase: approaches, the plan, prompts and the reading of
//! the model's replies.

pub mod approach;
pub mod error;
pub mod plan;
pub mod parse;
pub mod progress;
pub mod prompts;
