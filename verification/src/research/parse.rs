//! Progress, errors, and the reading of the model's reply, of the Research
//! phase.

use vstd::prelude::*;

use crate::knowledge::error::{knowledge_error_message, KnowledgeError};
use crate::llm::error::{llm_error_message, LLMError};
use crate::research::document::{Dependency, Finding, ResearchDoc, Source};
use crate::text::owned;

verus! {

/// Progress events during research.
#[derive(Debug, Clone)]
pub enum ResearchProgress {
    /// Research has started
    Started,
    /// Gathering context from codebase
    GatheringContext,
    /// Searching knowledge graph
    SearchingKnowledgeGraph,
    /// Found results from knowledge graph
    KnowledgeGraphResults { count: usize },
    /// Calling LLM for analysis
    CallingLLM,
    /// Parsing the LLM response
    ParsingResponse,
    /// Research completed successfully
    Complete,
    /// An error occurred
    Error(String),
}

/// Errors that can occur during research.
#[derive(Debug, Clone)]
pub enum ResearchError {
    /// Gathering the codebase context failed, with the reason.
    Context(String),
    /// The model call failed.
    LLM(LLMError),
    /// The knowledge graph failed.
    Knowledge(KnowledgeError),
    /// The reply could not be read.
    ParseError(String),
}

/// The message of a research error.
pub open spec fn research_error_message(e: ResearchError) -> Seq<char> {
    match e {
        ResearchError::Context(s) => "Context error: "@ + s@,
        ResearchError::LLM(l) => "LLM error: "@ + llm_error_message(l),
        ResearchError::Knowledge(k) => "Knowledge graph error: "@ + knowledge_error_message(k),
        ResearchError::ParseError(s) => "Parse error: "@ + s@,
    }
}

impl ResearchError {
    /// The human-readable message of this error.
    pub fn to_display_string(&self) -> (r: String)
        ensures
            r@ == research_error_message(*self),
    {
        match self {
            ResearchError::Context(s) => {
                let mut r = owned("Context error: ");
                r.append(s.as_str());
                r
            },
            ResearchError::LLM(l) => {
                let mut r = owned("LLM error: ");
                r.append(l.to_display_string().as_str());
                r
            },
            ResearchError::Knowledge(k) => {
                let mut r = owned("Knowledge graph error: ");
                r.append(k.to_display_string().as_str());
                r
            },
            ResearchError::ParseError(s) => {
                let mut r = owned("Parse error: ");
                r.append(s.as_str());
                r
            },
        }
    }
}

/// The research reply as the model gives it.
#[derive(Debug, Clone)]
pub struct ResearchData {
    pub summary: String,
    pub findings: Vec<Finding>,
    pub dependencies: Vec<Dependency>,
    pub suggested_approach: String,
}

/// The research document of a task built from the model's reply and the
/// sources the context came from.
pub fn research_doc_from_data(task_name: &str, data: ResearchData, sources: Vec<Source>) -> (d:
    ResearchDoc)
    ensures
        d.task_name@ == task_name@,
        d.summary == data.summary,
        d.codebase_analysis == data.findings,
        d.dependencies == data.dependencies,
        d.suggested_approach == data.suggested_approach,
        d.sources == sources,
{
    let mut doc = ResearchDoc::new(task_name);
    doc.summary = data.summary;
    doc.suggested_approach = data.suggested_approach;
    doc.codebase_analysis = data.findings;
    doc.dependencies = data.dependencies;
    doc.sources = sources;
    doc
}

} // verus!
