//! Errors of the knowledge graph.

use vstd::prelude::*;

use crate::text::owned;

verus! {

/// Errors that can occur in the knowledge graph.
#[derive(Debug, Clone, PartialEq, Eq)]
pub enum KnowledgeError {
    /// Database connection or query error.
    Database(String),
    /// Embedding generation error.
    Embedding(String),
    /// File parsing error.
    Parse { path: String, message: String },
    /// IO error at a path (empty when unknown), with the error's message.
    Io { path: String, message: String },
    /// Knowledge graph not initialized.
    NotInitialized,
    /// Entity not found.
    EntityNotFound(String),
    /// Index corrupted.
    Corrupted(String),
    /// Configuration error.
    Config(String),
}

/// The message of a knowledge error.
pub open spec fn knowledge_error_message(e: KnowledgeError) -> Seq<char> {
    match e {
        KnowledgeError::Database(s) => "Database error: "@ + s@,
        KnowledgeError::Embedding(s) => "Embedding error: "@ + s@,
        KnowledgeError::Parse { path, message } => "Parse error in "@ + path@ + ": "@ + message@,
        KnowledgeError::Io { path, message } => "IO error at "@ + path@ + ": "@ + message@,
        KnowledgeError::NotInitialized => "Knowledge graph not initialized. Run 'arq init' first."@,
        KnowledgeError::EntityNotFound(s) => "Entity not found: "@ + s@,
        KnowledgeError::Corrupted(s) => "Index corrupted: "@ + s@,
        KnowledgeError::Config(s) => "Configuration error: "@ + s@,
    }
}

/// `head` followed by `a`.
fn joined(head: &str, a: &String) -> (r: String)
    ensures
        r@ == head@ + a@,
{
    let mut r = owned(head);
    r.append(a.as_str());
    r
}

impl KnowledgeError {
    /// The human-readable message of this error.
    pub fn to_display_string(&self) -> (r: String)
        ensures
            r@ == knowledge_error_message(*self),
    {
        match self {
            KnowledgeError::Database(s) => joined("Database error: ", s),
            KnowledgeError::Embedding(s) => joined("Embedding error: ", s),
            KnowledgeError::Parse { path, message } => {
                let mut r = joined("Parse error in ", path);
                r.append(": ");
                r.append(message.as_str());
                r
            },
            KnowledgeError::Io { path, message } => {
                let mut r = joined("IO error at ", path);
                r.append(": ");
                r.append(message.as_str());
                r
            },
            KnowledgeError::NotInitialized => owned(
                "Knowledge graph not initialized. Run 'arq init' first.",
            ),
            KnowledgeError::EntityNotFound(s) => joined("Entity not found: ", s),
            KnowledgeError::Corrupted(s) => joined("Index corrupted: ", s),
            KnowledgeError::Config(s) => joined("Configuration error: ", s),
        }
    }
}

} // verus!
