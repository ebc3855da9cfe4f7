//! The plan: the specification the Agent phase implements.

use vstd::prelude::*;

use crate::text::owned;

verus! {

/// The output of the Planning phase.
///
/// A specification that defines exactly what the Agent phase will implement.
/// This serves as a contract between user approval and code generation.
#[derive(Debug, Clone)]
pub struct Plan {
    /// Name of the task this plan is for
    pub task_name: String,
    /// The selected approach (from options presented to user)
    pub approach: String,
    /// Complexity rating of this plan
    pub complexity: Complexity,
    /// Files to create
    pub files_to_create: Vec<FileSpec>,
    /// Files to modify
    pub files_to_modify: Vec<FileModification>,
    /// Dependencies to add (package names)
    pub dependencies_to_add: Vec<String>,
}

impl Plan {
    /// Creates a new empty plan for a task.
    pub fn new(task_name: &str, approach: &str) -> (r: Self)
        ensures
            r.task_name@ == task_name@,
            r.approach@ == approach@,
            r.complexity == Complexity::Medium,
            r.files_to_create@.len() == 0,
            r.files_to_modify@.len() == 0,
            r.dependencies_to_add@.len() == 0,
    {
        Plan {
            task_name: owned(task_name),
            approach: owned(approach),
            complexity: Complexity::Medium,
            files_to_create: Vec::new(),
            files_to_modify: Vec::new(),
            dependencies_to_add: Vec::new(),
        }
    }

    /// Returns the total number of files affected by this plan.
    pub fn total_files_affected(&self) -> (r: usize)
        requires
            self.files_to_create@.len() + self.files_to_modify@.len() <= usize::MAX,
        ensures
            r == self.files_to_create@.len() + self.files_to_modify@.len(),
    {
        self.files_to_create.len() + self.files_to_modify.len()
    }
}

/// Complexity rating for a plan.
#[derive(Debug, Clone, Copy, PartialEq, Eq, Structural)]
pub enum Complexity {
    Low,
    Medium,
    High,
}

/// The display name of a complexity rating.
pub open spec fn complexity_name(c: Complexity) -> Seq<char> {
    match c {
        Complexity::Low => "Low"@,
        Complexity::Medium => "Medium"@,
        Complexity::High => "High"@,
    }
}

impl Complexity {
    /// The display name of this rating.
    pub fn as_str(&self) -> (r: &'static str)
        ensures
            r@ == complexity_name(*self),
    {
        match self {
            Complexity::Low => "Low",
            Complexity::Medium => "Medium",
            Complexity::High => "High",
        }
    }
}

/// Specification for a file to create.
#[derive(Debug, Clone)]
pub struct FileSpec {
    /// Path where the file should be created
    pub path: String,
    /// Description of the file's purpose
    pub description: String,
    /// Functions/exports this file will contain
    pub exports: Vec<FunctionSignature>,
}

/// Specification for a file modification.
#[derive(Debug, Clone)]
pub struct FileModification {
    /// Path of the file to modify
    pub path: String,
    /// Approximate line number for the change
    pub line: Option<u32>,
    /// Description of what changes will be made
    pub description: String,
    /// Code to add (imports, function calls, etc.)
    pub additions: Vec<String>,
    /// Code to remove (if any)
    pub removals: Vec<String>,
}

/// A function signature specification.
#[derive(Debug, Clone)]
pub struct FunctionSignature {
    /// Function name
    pub name: String,
    /// Full signature (parameters and return type)
    pub signature: String,
    /// Description of behavior
    pub behavior: Vec<String>,
}

} // verus!
