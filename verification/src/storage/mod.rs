//! Persistence of tasks and their artifacts: the storage interface and its
//! errors.

use vstd::prelude::*;

use crate::planning::plan::Plan;
use crate::research::document::ResearchDoc;
use crate::task::{Task, TaskSummary};
use crate::text::owned;

pub mod files;

verus! {

/// Errors that can occur during storage operations.
#[derive(Debug, Clone, PartialEq, Eq)]
pub enum StorageError {
    /// No task has the given id.
    TaskNotFound(String),
    /// An I/O operation failed at a path, with the error's message.
    Io { path: String, message: String },
    /// JSON (de)serialization failed, with the error's message.
    Json(String),
    /// YAML (de)serialization failed, with the error's message.
    Yaml(String),
    /// A task directory is malformed.
    InvalidDirectory(String),
}

/// The message of a storage error.
pub open spec fn storage_error_message(e: StorageError) -> Seq<char> {
    match e {
        StorageError::TaskNotFound(s) => "Task not found: "@ + s@,
        StorageError::Io { path, message } => "IO error at "@ + path@ + ": "@ + message@,
        StorageError::Json(s) => "JSON serialization error: "@ + s@,
        StorageError::Yaml(s) => "YAML serialization error: "@ + s@,
        StorageError::InvalidDirectory(s) => "Invalid task directory: "@ + s@,
    }
}

impl StorageError {
    /// An I/O error at a path.
    pub fn io(path: &str, message: &str) -> (e: Self)
        ensures
            e matches StorageError::Io { path: p, message: m } && p@ == path@ && m@ == message@,
    {
        StorageError::Io { path: owned(path), message: owned(message) }
    }

    /// The human-readable message of this error.
    pub fn to_display_string(&self) -> (r: String)
        ensures
            r@ == storage_error_message(*self),
    {
        let (head, a) = match self {
            StorageError::TaskNotFound(s) => ("Task not found: ", s),
            StorageError::Io { path, message } => {
                let mut r = owned("IO error at ");
                r.append(path.as_str());
                r.append(": ");
                r.append(message.as_str());
                return r;
            },
            StorageError::Json(s) => ("JSON serialization error: ", s),
            StorageError::Yaml(s) => ("YAML serialization error: ", s),
            StorageError::InvalidDirectory(s) => ("Invalid task directory: ", s),
        };
        let mut r = owned(head);
        r.append(a.as_str());
        r
    }
}

/// Trait for task storage backends.
///
/// Implementations handle persisting tasks and their artifacts
/// to various storage systems (file system, database, etc.).
pub trait Storage {
    /// Saves a task to storage.
    fn save_task(&self, task: &Task) -> Result<(), StorageError>;

    /// Loads a task by ID.
    fn load_task(&self, id: &str) -> Result<Task, StorageError>;

    /// Lists all tasks as summaries.
    fn list_tasks(&self) -> Result<Vec<TaskSummary>, StorageError>;

    /// Deletes a task and all its artifacts.
    fn delete_task(&self, id: &str) -> Result<(), StorageError>;

    /// Saves a research document for a task.
    fn save_research_doc(&self, task_id: &str, doc: &ResearchDoc) -> Result<(), StorageError>;

    /// Saves a plan for a task.
    fn save_plan(&self, task_id: &str, plan: &Plan) -> Result<(), StorageError>;

    /// Gets the current task ID (if set).
    fn get_current_task_id(&self) -> Result<Option<String>, StorageError>;

    /// Sets the current task ID.
    fn set_current_task_id(&self, id: Option<&str>) -> Result<(), StorageError>;

    /// Loads project-wide memory, if any.
    fn load_project_memory(&self) -> Result<Option<String>, StorageError>;

    /// Saves project-wide memory.
    fn save_project_memory(&self, memory: &str) -> Result<(), StorageError>;

    /// Loads task-specific memory, if any.
    fn load_task_memory(&self, task_id: &str) -> Result<Option<String>, StorageError>;

    /// Saves task-specific memory.
    fn save_task_memory(&self, task_id: &str, memory: &str) -> Result<(), StorageError>;
}

} // verus!
