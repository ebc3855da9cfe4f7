//! Language-model plumbing that does not talk to the network: errors,
//! messages and tool calls, provider selection, and the decoding of
//! streamed responses.

pub mod bedrock;
pub mod error;
pub mod provider;
pub mod request;
pub mod stream;
pub mod tool_call;

use vstd::prelude::*;

use crate::text::owned;

verus! {

/// A chunk of streamed response from an LLM.
#[derive(Debug, Clone)]
pub struct StreamChunk {
    /// The text content of this chunk.
    pub text: String,
    /// Whether this is the final chunk.
    pub is_final: bool,
}

impl StreamChunk {
    /// Create a new text chunk.
    pub fn text(text: &str) -> (c: Self)
        ensures
            c.text@ == text@,
            !c.is_final,
    {
        StreamChunk { text: owned(text), is_final: false }
    }

    /// Create a final (end of stream) chunk.
    pub fn done() -> (c: Self)
        ensures
            c.text@.len() == 0,
            c.is_final,
    {
        StreamChunk { text: String::new(), is_final: true }
    }
}

} // verus!
