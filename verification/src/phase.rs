use vstd::prelude::*;

verus! {

/// The phase a task is in.
///
/// Tasks progress linearly through phases:
/// Research -> Planning -> Agent -> Complete.
#[derive(Debug, Clone, Copy, PartialEq, Eq, Structural)]
pub enum Phase {
    /// Analyzing codebase, gathering context, validating understanding
    Research,
    /// Creating architectural decisions and specifications
    Planning,
    /// Executing the approved plan, generating code
    Agent,
    /// Task completed successfully
    Complete,
}

/// The successor of a phase in the workflow, `None` after `Complete`.
pub open spec fn spec_next_phase(p: Phase) -> Option<Phase> {
    match p {
        Phase::Research => Some(Phase::Planning),
        Phase::Planning => Some(Phase::Agent),
        Phase::Agent => Some(Phase::Complete),
        Phase::Complete => None,
    }
}

/// Position of a phase in the workflow order.
pub open spec fn phase_rank(p: Phase) -> int {
    match p {
        Phase::Research => 0,
        Phase::Planning => 1,
        Phase::Agent => 2,
        Phase::Complete => 3,
    }
}

impl Phase {
    /// Returns the next phase in the workflow, or `None` if already complete.
    pub fn next(&self) -> (r: Option<Phase>)
        ensures
            r == spec_next_phase(*self),
    {
        match self {
            Phase::Research => Some(Phase::Planning),
            Phase::Planning => Some(Phase::Agent),
            Phase::Agent => Some(Phase::Complete),
            Phase::Complete => None,
        }
    }

    /// Returns true if this phase can transition to the next phase.
    pub fn can_advance(&self) -> (r: bool)
        ensures
            r == spec_next_phase(*self).is_some(),
            r == (*self != Phase::Complete),
    {
        self.next().is_some()
    }

    /// Returns a human-readable name for the phase.
    pub fn display_name(&self) -> (s: &'static str)
        ensures
            s@ == (match *self {
                Phase::Research => "Research"@,
                Phase::Planning => "Planning"@,
                Phase::Agent => "Agent"@,
                Phase::Complete => "Complete"@,
            }),
    {
        match self {
            Phase::Research => "Research",
            Phase::Planning => "Planning",
            Phase::Agent => "Agent",
            Phase::Complete => "Complete",
        }
    }
}

impl Default for Phase {
    fn default() -> (p: Phase)
        ensures
            p == Phase::Research,
    {
        Phase::Research
    }
}

/// Every phase but the last has exactly one successor, and it is one step
/// further along the workflow: phases only ever move forward.
pub proof fn lemma_next_moves_forward(p: Phase)
    ensures
        spec_next_phase(p) matches Some(q) ==> phase_rank(q) == phase_rank(p) + 1,
        spec_next_phase(p).is_none() <==> p == Phase::Complete,
{
}

} // verus!
