//! Errors of the planning phase.

use vstd::prelude::*;

use crate::llm::error::{llm_error_message, LLMError};
use crate::text::{decimal, owned, push_decimal};

verus! {

/// Errors that can occur during the planning phase.
#[derive(Debug, Clone)]
pub enum PlanningError {
    /// Research document is required to generate a plan
    NoResearchDoc,
    /// Error from the LLM
    LLMError(LLMError),
    /// Failed to parse the LLM response
    ParseError(String),
    /// IO error, with its message
    IoError(String),
    /// No approach was selected
    NoApproachSelected,
    /// Invalid approach index
    InvalidApproachIndex(usize),
}

/// The message of a planning error.
pub open spec fn planning_error_message(e: PlanningError) -> Seq<char> {
    match e {
        PlanningError::NoResearchDoc => "Research document required"@,
        PlanningError::LLMError(l) => "LLM error: "@ + llm_error_message(l),
        PlanningError::ParseError(s) => "Failed to parse plan: "@ + s@,
        PlanningError::IoError(s) => "IO error: "@ + s@,
        PlanningError::NoApproachSelected => "No approach selected"@,
        PlanningError::InvalidApproachIndex(i) => "Invalid approach index: "@ + decimal(i as nat),
    }
}

impl PlanningError {
    /// The human-readable message of this error.
    pub fn to_display_string(&self) -> (r: String)
        ensures
            r@ == planning_error_message(*self),
    {
        match self {
            PlanningError::NoResearchDoc => owned("Research document required"),
            PlanningError::LLMError(l) => {
                let mut r = owned("LLM error: ");
                let m = l.to_display_string();
                r.append(m.as_str());
                r
            },
            PlanningError::ParseError(s) => {
                let mut r = owned("Failed to parse plan: ");
                r.append(s.as_str());
                r
            },
            PlanningError::IoError(s) => {
                let mut r = owned("IO error: ");
                r.append(s.as_str());
                r
            },
            PlanningError::NoApproachSelected => owned("No approach selected"),
            PlanningError::InvalidApproachIndex(i) => {
                let mut r = owned("Invalid approach index: ");
                push_decimal(&mut r, *i);
                r
            },
        }
    }
}

impl From<LLMError> for PlanningError {
    fn from(e: LLMError) -> (r: Self) {
        PlanningError::LLMError(e)
    }
}

impl vstd::std_specs::convert::FromSpecImpl<LLMError> for PlanningError {
    open spec fn obeys_from_spec() -> bool {
        true
    }

    open spec fn from_spec(e: LLMError) -> PlanningError {
        PlanningError::LLMError(e)
    }
}

} // verus!
