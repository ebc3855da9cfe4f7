//! A task: one user request tracked through Research, Planning and Agent.

use vstd::prelude::*;

use crate::phase::{spec_next_phase, Phase};
use crate::planning::plan::Plan;
use crate::research::document::ResearchDoc;
use crate::text::{
    chars_of, is_alphanumeric, join, join_chars, owned, lowercased, string_from_chars,
    to_lowercase, views, words, words_of, char_is_alphanumeric,
};

verus! {

broadcast use vstd::string::group_string_axioms;

/// A point in time: seconds since the Unix epoch and the nanoseconds past
/// that second (beyond 999,999,999 only during a leap second).
#[derive(Debug, Clone, Copy, PartialEq, Eq, Structural)]
pub struct Timestamp {
    pub secs: i64,
    pub nanos: u32,
}

/// The current time (`chrono::Utc::now`), as seconds and nanoseconds; the
/// nanoseconds stay below two billion, as chrono keeps them.
#[verifier::external_body]
pub(crate) fn now() -> (t: Timestamp)
    ensures
        t.nanos < 2_000_000_000,
{
    let n = chrono::Utc::now();
    Timestamp { secs: n.timestamp(), nanos: n.timestamp_subsec_nanos() }
}

/// A fresh random identifier (`uuid::Uuid::new_v4`, hyphenated): 36
/// characters with hyphens at positions 8, 13, 18 and 23, as uuid formats it.
#[verifier::external_body]
pub(crate) fn new_task_id() -> (id: String)
    ensures
        id@.len() == 36,
        id@[8] == '-' && id@[13] == '-' && id@[18] == '-' && id@[23] == '-',
{
    uuid::Uuid::new_v4().to_string()
}

/// Represents a single task in Arq.
///
/// A task holds the state for one user request, tracking it through
/// the Research → Planning → Agent workflow.
#[derive(Debug, Clone)]
pub struct Task {
    /// Unique identifier of the task
    pub id: String,
    /// Human-readable name derived from the prompt
    pub name: String,
    /// The original user prompt describing what they want to do
    pub prompt: String,
    /// Current phase of the task
    pub phase: Phase,
    /// When the task was created
    pub created_at: Timestamp,
    /// When the task was last updated
    pub updated_at: Timestamp,
    /// Research document, populated after Research phase completes
    pub research_doc: Option<ResearchDoc>,
    /// Plan specification, populated after Planning phase completes
    pub plan: Option<Plan>,
}

/// The characters of `s` a task name keeps: alphanumerics and '-'.
pub open spec fn name_chars(s: Seq<char>) -> Seq<char>
    decreases s.len(),
{
    if s.len() == 0 {
        Seq::empty()
    } else if char_is_alphanumeric(s.last()) || s.last() == '-' {
        name_chars(s.drop_last()).push(s.last())
    } else {
        name_chars(s.drop_last())
    }
}

/// The name of a task with the given prompt: its first five words joined
/// by '-', lowercased, keeping alphanumerics and '-'.
pub open spec fn task_name_of(prompt: Seq<char>) -> Seq<char> {
    name_chars(lowercased(join(first_words(prompt), seq!['-'])))
}

/// The first five words of a prompt (all of them if it has fewer).
pub open spec fn first_words(prompt: Seq<char>) -> Seq<Seq<char>> {
    if words(prompt).len() <= 5 {
        words(prompt)
    } else {
        words(prompt).take(5)
    }
}

/// Whether a task can advance: its phase has a successor and the
/// prerequisite of leaving it is met.
pub open spec fn task_can_advance(t: Task) -> bool {
    match t.phase {
        Phase::Research => t.research_doc is Some,
        Phase::Planning => t.plan is Some,
        Phase::Agent => true,
        Phase::Complete => false,
    }
}

/// A task in the Agent phase can always advance, and advancing it completes
/// it. More generally, every phase but Complete can be left once its
/// prerequisite is met (a research document to leave Research, a plan to
/// leave Planning, nothing to leave Agent), and leaving it moves the task one
/// step along the workflow; a completed task never advances.
pub proof fn lemma_task_advances_when_ready(t: Task)
    ensures
        t.phase == Phase::Agent ==> task_can_advance(t) && spec_next_phase(t.phase) == Some(
            Phase::Complete,
        ),
        (t.phase != Phase::Complete && t.research_doc is Some && t.plan is Some)
            ==> task_can_advance(t),
        t.phase == Phase::Research ==> (task_can_advance(t) <==> t.research_doc is Some),
        t.phase == Phase::Planning ==> (task_can_advance(t) <==> t.plan is Some),
        task_can_advance(t) ==> (spec_next_phase(t.phase) matches Some(q) && crate::phase::phase_rank(q)
            == crate::phase::phase_rank(t.phase) + 1),
        t.phase == Phase::Complete ==> !task_can_advance(t),
{
}

/// The fields a phase change or an update leaves alone are unchanged.
pub open spec fn same_content(a: Task, b: Task) -> bool {
    &&& a.id == b.id
    &&& a.name == b.name
    &&& a.prompt == b.prompt
    &&& a.created_at == b.created_at
}

impl Task {
    /// Creates a new task with the given prompt.
    ///
    /// The task starts in the Research phase.
    pub fn new(prompt: &str) -> (t: Self)
        ensures
            t.prompt@ == prompt@,
            t.name@ == task_name_of(prompt@),
            t.id@.len() == 36,
            t.phase == Phase::Research,
            t.created_at == t.updated_at,
            t.research_doc is None,
            t.plan is None,
    {
        let name = Self::derive_name(prompt);
        let now = now();
        Task {
            id: new_task_id(),
            name,
            prompt: owned(prompt),
            phase: Phase::Research,
            created_at: now,
            updated_at: now,
            research_doc: None,
            plan: None,
        }
    }

    /// Derives a task name from the prompt: the first few words in
    /// kebab-case.
    fn derive_name(prompt: &str) -> (r: String)
        ensures
            r@ == task_name_of(prompt@),
    {
        let cs = chars_of(prompt);
        let ws = words_of(cs.as_slice());
        let mut first: Vec<Vec<char>> = Vec::new();
        let mut i: usize = 0;
        while i < ws.len() && i < 5
            invariant
                i <= ws@.len(),
                i <= 5,
                views(first@) == views(ws@).take(i as int),
            decreases 5 - i,
        {
            let w = ws[i].clone();
            assert(w@ =~= ws@[i as int]@);
            proof {
                crate::text::lemma_views_push(first@, w);
            }
            first.push(w);
            i = i + 1;
            assert(views(first@) =~= views(ws@).take(i as int));
        }
        assert(views(ws@).take(i as int) =~= first_words(prompt@));
        let sep = vec!['-'];
        assert(sep@ =~= seq!['-']);
        let joined = join_chars(&first, sep.as_slice());
        let joined_str = string_from_chars(joined.as_slice());
        let lower = to_lowercase(joined_str.as_str());
        let lc = chars_of(lower.as_str());
        let mut kept: Vec<char> = Vec::new();
        let mut k: usize = 0;
        while k < lc.len()
            invariant
                k <= lc@.len(),
                kept@ == name_chars(lc@.take(k as int)),
            decreases lc.len() - k,
        {
            let c = lc[k];
            assert(lc@.take(k + 1).drop_last() =~= lc@.take(k as int));
            if is_alphanumeric(c) || c == '-' {
                kept.push(c);
            }
            k = k + 1;
        }
        assert(lc@.take(k as int) =~= lc@);
        string_from_chars(kept.as_slice())
    }

    /// Attempts to advance to the next phase.
    ///
    /// Returns true if advancement was successful, false if already complete
    /// or if prerequisites are not met.
    pub fn advance_phase(&mut self) -> (r: bool)
        ensures
            r == task_can_advance(*old(self)),
            r ==> Some(final(self).phase) == spec_next_phase(old(self).phase),
            !r ==> *final(self) == *old(self),
            same_content(*old(self), *final(self)),
            final(self).research_doc == old(self).research_doc,
            final(self).plan == old(self).plan,
    {
        if !self.can_advance() {
            return false;
        }
        match self.phase.next() {
            Some(next) => {
                self.phase = next;
                self.updated_at = now();
                true
            },
            None => false,
        }
    }

    /// Checks if the task can advance to the next phase.
    ///
    /// Each phase has prerequisites:
    /// - Research → Planning: requires research_doc
    /// - Planning → Agent: requires plan
    /// - Agent → Complete: always allowed (completion is handled separately)
    pub fn can_advance(&self) -> (r: bool)
        ensures
            r == task_can_advance(*self),
    {
        match self.phase {
            Phase::Research => self.research_doc.is_some(),
            Phase::Planning => self.plan.is_some(),
            Phase::Agent => true,
            Phase::Complete => false,
        }
    }

    /// Sets the research document, which is only allowed during Research.
    pub fn set_research_doc(&mut self, doc: ResearchDoc) -> (r: Result<(), TaskError>)
        ensures
            old(self).phase == Phase::Research ==> r is Ok && final(self).research_doc == Some(doc)
                && final(self).phase == old(self).phase && final(self).plan == old(self).plan
                && same_content(*old(self), *final(self)) && task_can_advance(*final(self)),
            old(self).phase != Phase::Research ==> r == Err::<(), TaskError>(
                TaskError::WrongPhase { expected: Phase::Research, actual: old(self).phase },
            ) && *final(self) == *old(self),
    {
        if self.phase != Phase::Research {
            return Err(TaskError::WrongPhase { expected: Phase::Research, actual: self.phase });
        }
        self.research_doc = Some(doc);
        self.updated_at = now();
        Ok(())
    }

    /// Sets the plan, which is only allowed during Planning.
    pub fn set_plan(&mut self, plan: Plan) -> (r: Result<(), TaskError>)
        ensures
            old(self).phase == Phase::Planning ==> r is Ok && final(self).plan == Some(plan)
                && final(self).phase == old(self).phase && final(self).research_doc == old(
                self,
            ).research_doc && same_content(*old(self), *final(self)) && task_can_advance(
                *final(self),
            ),
            old(self).phase != Phase::Planning ==> r == Err::<(), TaskError>(
                TaskError::WrongPhase { expected: Phase::Planning, actual: old(self).phase },
            ) && *final(self) == *old(self),
    {
        if self.phase != Phase::Planning {
            return Err(TaskError::WrongPhase { expected: Phase::Planning, actual: self.phase });
        }
        self.plan = Some(plan);
        self.updated_at = now();
        Ok(())
    }

    /// Converts the task to a summary (for listings).
    pub fn to_summary(&self) -> (s: TaskSummary)
        ensures
            s.id@ == self.id@,
            s.name@ == self.name@,
            s.phase == self.phase,
            s.created_at == self.created_at,
            s.updated_at == self.updated_at,
    {
        TaskSummary {
            id: self.id.clone(),
            name: self.name.clone(),
            phase: self.phase,
            created_at: self.created_at,
            updated_at: self.updated_at,
        }
    }
}

/// A lightweight summary of a task for listings.
#[derive(Debug, Clone)]
pub struct TaskSummary {
    pub id: String,
    pub name: String,
    pub phase: Phase,
    pub created_at: Timestamp,
    pub updated_at: Timestamp,
}

/// Errors of task operations.
#[derive(Debug, Clone, Copy, PartialEq, Eq, Structural)]
pub enum TaskError {
    /// The operation needs another phase.
    WrongPhase { expected: Phase, actual: Phase },
}

/// The name of a phase as `Debug` prints it.
pub open spec fn phase_debug_name(p: Phase) -> Seq<char> {
    match p {
        Phase::Research => "Research"@,
        Phase::Planning => "Planning"@,
        Phase::Agent => "Agent"@,
        Phase::Complete => "Complete"@,
    }
}

/// The message of a task error.
pub open spec fn task_error_message(e: TaskError) -> Seq<char> {
    match e {
        TaskError::WrongPhase { expected, actual } => "Wrong phase: expected "@ + phase_debug_name(
            expected,
        ) + ", got "@ + phase_debug_name(actual),
    }
}

impl TaskError {
    /// The human-readable message of this error.
    pub fn to_display_string(&self) -> (r: String)
        ensures
            r@ == task_error_message(*self),
    {
        match self {
            TaskError::WrongPhase { expected, actual } => {
                let mut r = owned("Wrong phase: expected ");
                r.append(expected.display_name());
                r.append(", got ");
                r.append(actual.display_name());
                r
            },
        }
    }
}

} // verus!
