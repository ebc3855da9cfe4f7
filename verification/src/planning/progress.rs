//! Progress events of the planning phase.

use vstd::prelude::*;

verus! {

/// Progress events during the planning phase.
///
/// These events are sent to the TUI to update progress indicators
/// and provide feedback to the user about what's happening.
#[derive(Debug, Clone)]
pub enum PlanningProgress {
    /// Planning has started
    Started,
    /// Loading the research document
    LoadingResearch,
    /// Generating implementation approaches
    GeneratingApproaches,
    /// Approaches are ready for user selection
    ApproachesReady(usize),
    /// User has selected an approach, generating specification
    GeneratingSpec,
    /// Checking complexity and validating the plan
    CheckingComplexity,
    /// Planning completed successfully
    Complete,
    /// An error occurred
    Error(String),
}

/// The description of a progress state.
pub open spec fn planning_progress_description(p: PlanningProgress) -> Seq<char> {
    match p {
        PlanningProgress::Started => "Starting planning phase..."@,
        PlanningProgress::LoadingResearch => "Loading research document..."@,
        PlanningProgress::GeneratingApproaches => "Generating approaches..."@,
        PlanningProgress::ApproachesReady(_) => "Approaches ready"@,
        PlanningProgress::GeneratingSpec => "Generating specification..."@,
        PlanningProgress::CheckingComplexity => "Checking complexity..."@,
        PlanningProgress::Complete => "Planning complete"@,
        PlanningProgress::Error(_) => "Error occurred"@,
    }
}

impl PlanningProgress {
    /// Returns a human-readable description of the progress state.
    pub fn description(&self) -> (r: &'static str)
        ensures
            r@ == planning_progress_description(*self),
    {
        match self {
            PlanningProgress::Started => "Starting planning phase...",
            PlanningProgress::LoadingResearch => "Loading research document...",
            PlanningProgress::GeneratingApproaches => "Generating approaches...",
            PlanningProgress::ApproachesReady(_) => "Approaches ready",
            PlanningProgress::GeneratingSpec => "Generating specification...",
            PlanningProgress::CheckingComplexity => "Checking complexity...",
            PlanningProgress::Complete => "Planning complete",
            PlanningProgress::Error(_) => "Error occurred",
        }
    }

    /// Returns true if this is a terminal state (Complete or Error).
    pub fn is_terminal(&self) -> (r: bool)
        ensures
            r == (*self is Complete || *self is Error),
    {
        match self {
            PlanningProgress::Complete => true,
            PlanningProgress::Error(_) => true,
            _ => false,
        }
    }

    /// Returns true if this is an error state.
    pub fn is_error(&self) -> (r: bool)
        ensures
            r == *self is Error,
    {
        match self {
            PlanningProgress::Error(_) => true,
            _ => false,
        }
    }
}

} // verus!
