//! The task manager: creating, retrieving and updating tasks, with every
//! change persisted through a storage backend.

use vstd::prelude::*;

use crate::phase::{spec_next_phase, Phase};
use crate::planning::plan::Plan;
use crate::research::document::ResearchDoc;
use crate::storage::{storage_error_message, Storage, StorageError};
use crate::task::{
    same_content, task_can_advance, task_error_message, task_name_of, Task, TaskError,
    TaskSummary,
};
use crate::text::owned;

verus! {

broadcast use vstd::string::group_string_axioms;

/// Errors that can occur in TaskManager operations.
#[derive(Debug, Clone)]
pub enum ManagerError {
    /// The storage backend failed.
    Storage(StorageError),
    /// A task refused the operation, with its message.
    TaskError(String),
    /// The task cannot leave its phase.
    CannotAdvance { phase: Phase, reason: String },
}

/// The reason given when a task's prerequisites for advancing are not met.
pub const PREREQUISITES_NOT_MET: &'static str = "Prerequisites not met";

/// The message of a manager error.
pub open spec fn manager_error_message(e: ManagerError) -> Seq<char> {
    match e {
        ManagerError::Storage(s) => "Storage error: "@ + storage_error_message(s),
        ManagerError::TaskError(s) => "Task error: "@ + s@,
        ManagerError::CannotAdvance { phase, reason } => "Cannot advance from "@
            + crate::task::phase_debug_name(phase) + ": "@ + reason@,
    }
}

impl ManagerError {
    /// The human-readable message of this error.
    pub fn to_display_string(&self) -> (r: String)
        ensures
            r@ == manager_error_message(*self),
    {
        match self {
            ManagerError::Storage(s) => {
                let mut r = owned("Storage error: ");
                r.append(s.to_display_string().as_str());
                r
            },
            ManagerError::TaskError(s) => {
                let mut r = owned("Task error: ");
                r.append(s.as_str());
                r
            },
            ManagerError::CannotAdvance { phase, reason } => {
                let mut r = owned("Cannot advance from ");
                r.append(phase.display_name());
                r.append(": ");
                r.append(reason.as_str());
                r
            },
        }
    }
}

impl From<StorageError> for ManagerError {
    fn from(e: StorageError) -> (r: Self) {
        ManagerError::Storage(e)
    }
}

impl vstd::std_specs::convert::FromSpecImpl<StorageError> for ManagerError {
    open spec fn obeys_from_spec() -> bool {
        true
    }

    open spec fn from_spec(e: StorageError) -> ManagerError {
        ManagerError::Storage(e)
    }
}

/// Whether `r`, when it is an error, is a storage failure.
pub open spec fn storage_error_or<T>(r: Result<T, ManagerError>) -> bool {
    r is Err ==> r matches Err(ManagerError::Storage(_))
}

/// Advances a loaded task to its next phase, when it can advance.
///
/// A task that cannot advance is refused with its phase and the reason
/// "Prerequisites not met", and is left as it was.
pub fn advance_loaded(task: &mut Task) -> (r: Result<Phase, ManagerError>)
    ensures
        task_can_advance(*old(task)) ==> (r matches Ok(p) && Some(p) == spec_next_phase(
            old(task).phase,
        ) && final(task).phase == p),
        !task_can_advance(*old(task)) ==> (r matches Err(
            ManagerError::CannotAdvance { phase, reason },
        ) && phase == old(task).phase && reason@ == PREREQUISITES_NOT_MET@ && *final(task) == *old(
            task,
        )),
        same_content(*old(task), *final(task)),
        final(task).research_doc == old(task).research_doc,
        final(task).plan == old(task).plan,
{
    if !task.can_advance() {
        return Err(
            ManagerError::CannotAdvance { phase: task.phase, reason: owned(PREREQUISITES_NOT_MET) },
        );
    }
    task.advance_phase();
    Ok(task.phase)
}

/// Records a research document on a loaded task; a task outside the
/// Research phase refuses it with the task's error message.
pub fn apply_research_doc(task: &mut Task, doc: ResearchDoc) -> (r: Result<(), ManagerError>)
    ensures
        old(task).phase == Phase::Research ==> r is Ok && final(task).research_doc == Some(doc)
            && final(task).phase == Phase::Research && task_can_advance(*final(task)),
        old(task).phase != Phase::Research ==> (r matches Err(ManagerError::TaskError(m)) && m@
            == task_error_message(
            TaskError::WrongPhase { expected: Phase::Research, actual: old(task).phase },
        ) && *final(task) == *old(task)),
{
    match task.set_research_doc(doc) {
        Ok(()) => Ok(()),
        Err(e) => Err(ManagerError::TaskError(e.to_display_string())),
    }
}

/// Records a plan on a loaded task; a task outside the Planning phase
/// refuses it with the task's error message.
pub fn apply_plan(task: &mut Task, plan: Plan) -> (r: Result<(), ManagerError>)
    ensures
        old(task).phase == Phase::Planning ==> r is Ok && final(task).plan == Some(plan)
            && final(task).phase == Phase::Planning && task_can_advance(*final(task)),
        old(task).phase != Phase::Planning ==> (r matches Err(ManagerError::TaskError(m)) && m@
            == task_error_message(
            TaskError::WrongPhase { expected: Phase::Planning, actual: old(task).phase },
        ) && *final(task) == *old(task)),
{
    match task.set_plan(plan) {
        Ok(()) => Ok(()),
        Err(e) => Err(ManagerError::TaskError(e.to_display_string())),
    }
}

/// Manages tasks and their lifecycle.
///
/// Provides a high-level API for creating, retrieving, and updating tasks
/// with automatic persistence.
pub struct TaskManager<S: Storage> {
    storage: S,
}

impl<S: Storage> TaskManager<S> {
    /// Creates a new TaskManager with the given storage backend.
    pub fn new(storage: S) -> (m: Self)
        ensures
            m.backend() == storage,
    {
        TaskManager { storage }
    }

    /// The storage backend.
    pub closed spec fn backend(&self) -> S {
        self.storage
    }

    /// Creates a new task, persists it, and makes it the current task.
    pub fn create_task(&mut self, prompt: &str) -> (r: Result<Task, ManagerError>)
        ensures
            r matches Ok(t) ==> t.prompt@ == prompt@ && t.name@ == task_name_of(prompt@)
                && t.phase == Phase::Research && t.research_doc is None && t.plan is None,
            storage_error_or(r),
    {
        let task = Task::new(prompt);
        match self.storage.save_task(&task) {
            Ok(()) => {},
            Err(e) => return Err(ManagerError::Storage(e)),
        }
        match self.storage.set_current_task_id(Some(task.id.as_str())) {
            Ok(()) => {},
            Err(e) => return Err(ManagerError::Storage(e)),
        }
        Ok(task)
    }

    /// Gets a task by ID.
    pub fn get_task(&self, id: &str) -> (r: Result<Task, ManagerError>)
        ensures
            storage_error_or(r),
    {
        match self.storage.load_task(id) {
            Ok(t) => Ok(t),
            Err(e) => Err(ManagerError::Storage(e)),
        }
    }

    /// Gets the current task (if any).
    pub fn get_current_task(&self) -> (r: Result<Option<Task>, ManagerError>)
        ensures
            storage_error_or(r),
    {
        match self.storage.get_current_task_id() {
            Ok(Some(id)) => match self.storage.load_task(id.as_str()) {
                Ok(t) => Ok(Some(t)),
                Err(e) => Err(ManagerError::Storage(e)),
            },
            Ok(None) => Ok(None),
            Err(e) => Err(ManagerError::Storage(e)),
        }
    }

    /// Sets the current task by ID, once the task is found.
    pub fn set_current_task(&mut self, id: &str) -> (r: Result<(), ManagerError>)
        ensures
            storage_error_or(r),
    {
        match self.storage.load_task(id) {
            Ok(_) => {},
            Err(e) => return Err(ManagerError::Storage(e)),
        }
        match self.storage.set_current_task_id(Some(id)) {
            Ok(()) => Ok(()),
            Err(e) => Err(ManagerError::Storage(e)),
        }
    }

    /// Clears the current task.
    pub fn clear_current_task(&mut self) -> (r: Result<(), ManagerError>)
        ensures
            storage_error_or(r),
    {
        match self.storage.set_current_task_id(None) {
            Ok(()) => Ok(()),
            Err(e) => Err(ManagerError::Storage(e)),
        }
    }

    /// Lists all tasks.
    pub fn list_tasks(&self) -> (r: Result<Vec<TaskSummary>, ManagerError>)
        ensures
            storage_error_or(r),
    {
        match self.storage.list_tasks() {
            Ok(l) => Ok(l),
            Err(e) => Err(ManagerError::Storage(e)),
        }
    }

    /// Deletes a task by ID.
    pub fn delete_task(&mut self, id: &str) -> (r: Result<(), ManagerError>)
        ensures
            storage_error_or(r),
    {
        match self.storage.delete_task(id) {
            Ok(()) => Ok(()),
            Err(e) => Err(ManagerError::Storage(e)),
        }
    }

    /// Sets the research document of a task and persists the task and the
    /// document.
    pub fn set_research_doc(&mut self, task_id: &str, doc: ResearchDoc) -> (r: Result<
        Task,
        ManagerError,
    >)
        ensures
            r matches Ok(t) ==> t.research_doc == Some(doc) && t.phase == Phase::Research
                && task_can_advance(t),
            r matches Err(ManagerError::TaskError(m)) ==> exists|p: Phase|
                p != Phase::Research && m@ == task_error_message(
                    TaskError::WrongPhase { expected: Phase::Research, actual: p },
                ),
            !(r matches Err(ManagerError::CannotAdvance { .. })),
    {
        let mut task = match self.storage.load_task(task_id) {
            Ok(t) => t,
            Err(e) => return Err(ManagerError::Storage(e)),
        };
        let ghost before = task;
        match apply_research_doc(&mut task, doc) {
            Ok(()) => {},
            Err(e) => {
                assert(before.phase != Phase::Research);
                return Err(e);
            },
        }
        match self.storage.save_task(&task) {
            Ok(()) => {},
            Err(e) => return Err(ManagerError::Storage(e)),
        }
        match &task.research_doc {
            Some(d) => match self.storage.save_research_doc(task_id, d) {
                Ok(()) => {},
                Err(e) => return Err(ManagerError::Storage(e)),
            },
            None => {},
        }
        Ok(task)
    }

    /// Sets the plan of a task and persists the task and the plan.
    pub fn set_plan(&mut self, task_id: &str, plan: Plan) -> (r: Result<Task, ManagerError>)
        ensures
            r matches Ok(t) ==> t.plan == Some(plan) && t.phase == Phase::Planning
                && task_can_advance(t),
            r matches Err(ManagerError::TaskError(m)) ==> exists|p: Phase|
                p != Phase::Planning && m@ == task_error_message(
                    TaskError::WrongPhase { expected: Phase::Planning, actual: p },
                ),
            !(r matches Err(ManagerError::CannotAdvance { .. })),
    {
        let mut task = match self.storage.load_task(task_id) {
            Ok(t) => t,
            Err(e) => return Err(ManagerError::Storage(e)),
        };
        let ghost before = task;
        match apply_plan(&mut task, plan) {
            Ok(()) => {},
            Err(e) => {
                assert(before.phase != Phase::Planning);
                return Err(e);
            },
        }
        match self.storage.save_task(&task) {
            Ok(()) => {},
            Err(e) => return Err(ManagerError::Storage(e)),
        }
        match &task.plan {
            Some(p) => match self.storage.save_plan(task_id, p) {
                Ok(()) => {},
                Err(e) => return Err(ManagerError::Storage(e)),
            },
            None => {},
        }
        Ok(task)
    }

    /// Advances a task to the next phase and persists it.
    pub fn advance_phase(&mut self, task_id: &str) -> (r: Result<Phase, ManagerError>)
        ensures
            r matches Ok(p) ==> p != Phase::Research,
            r matches Err(ManagerError::CannotAdvance { phase, reason }) ==> reason@
                == PREREQUISITES_NOT_MET@,
            !(r matches Err(ManagerError::TaskError(_))),
    {
        let mut task = match self.storage.load_task(task_id) {
            Ok(t) => t,
            Err(e) => return Err(ManagerError::Storage(e)),
        };
        let phase = match advance_loaded(&mut task) {
            Ok(p) => p,
            Err(e) => return Err(e),
        };
        match self.storage.save_task(&task) {
            Ok(()) => {},
            Err(e) => return Err(ManagerError::Storage(e)),
        }
        Ok(phase)
    }
}

} // verus!
