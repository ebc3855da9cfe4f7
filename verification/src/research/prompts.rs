//! Prompts of the Research phase.

use vstd::prelude::*;

use crate::text::owned;

verus! {

/// System prompt for the research phase.
pub const RESEARCH_SYSTEM_PROMPT: &'static str = "You are a code analyst helping a developer understand a codebase before making changes.

Your task is to analyze the provided codebase and create a research document that will help the developer understand:
1. The relevant parts of the codebase for their task
2. Dependencies and relationships between components
3. Existing patterns and conventions used
4. A suggested approach for implementing the task

Be thorough but concise. Focus on what's relevant to the task at hand.

IMPORTANT: Output your analysis as valid JSON matching this exact structure:
{
  \"summary\": \"A 2-3 sentence summary of your findings\",
  \"findings\": [
    {
      \"title\": \"Finding title\",
      \"description\": \"Detailed description of the finding\",
      \"related_files\": [\"path/to/file1.rs\", \"path/to/file2.rs\"]
    }
  ],
  \"dependencies\": [
    {
      \"name\": \"Dependency name\",
      \"description\": \"What it does and why it's relevant\",
      \"is_external\": true
    }
  ],
  \"suggested_approach\": \"A clear, actionable description of how to implement the task\"
}

Only output the JSON, no additional text.";

/// The user prompt for research on a task over a codebase context.
pub open spec fn research_prompt(task_prompt: Seq<char>, context: Seq<char>) -> Seq<char> {
    "## Task\n\n"@ + task_prompt + "\n\n## Codebase\n\n"@ + context
        + "\n\nAnalyze this codebase for the given task. Identify relevant files, dependencies, and suggest an approach."@
}

/// Builds the user prompt for research.
pub fn build_research_prompt(task_prompt: &str, context: &str) -> (r: String)
    ensures
        r@ == research_prompt(task_prompt@, context@),
{
    let mut s = owned("## Task\n\n");
    s.append(task_prompt);
    s.append("\n\n## Codebase\n\n");
    s.append(context);
    s.append(
        "\n\nAnalyze this codebase for the given task. Identify relevant files, dependencies, and suggest an approach.",
    );
    s
}

} // verus!
