//! Prompts of the Planning phase.

use vstd::prelude::*;

use crate::planning::approach::Approach;
use crate::research::document::{dependency_kind, Dependency, Finding, ResearchDoc};
use crate::text::{concat_all, lemma_concat_all_full, lemma_concat_all_step};

verus! {

/// System prompt for generating implementation approaches.
pub const APPROACHES_SYSTEM_PROMPT: &'static str = "You are a senior software architect. Your task is to analyze research findings and propose 2-3 implementation approaches with clear trade-offs.

Guidelines:
- Each approach should be distinct with different complexity levels
- Focus on minimal, targeted changes that respect the existing codebase
- Consider maintainability, testability, and performance
- Be specific about which files and patterns will be affected
- One approach should be marked as recommended

Output your response as valid JSON with this exact structure:
{
  \"approaches\": [
    {
      \"id\": \"approach_1\",
      \"name\": \"Human-readable name\",
      \"description\": \"Detailed description of what this approach entails\",
      \"pros\": [\"advantage 1\", \"advantage 2\"],
      \"cons\": [\"disadvantage 1\", \"disadvantage 2\"],
      \"complexity\": \"low|medium|high\",
      \"recommended\": true|false
    }
  ]
}

IMPORTANT: Return ONLY valid JSON, no markdown code blocks or extra text.";

/// System prompt for generating a detailed specification from a selected approach.
pub const SPEC_SYSTEM_PROMPT: &'static str = "You are a senior software architect. Your task is to create a detailed implementation specification based on the selected approach.

Guidelines:
- Be specific about file paths and function signatures
- Focus on minimal changes needed
- Consider existing patterns in the codebase
- Include any necessary dependencies
- Specify exact code additions and modifications

Output your response as valid JSON with this exact structure:
{
  \"task_name\": \"Name of the task\",
  \"approach\": \"Selected approach name\",
  \"complexity\": \"low|medium|high\",
  \"files_to_create\": [
    {
      \"path\": \"src/path/to/file.rs\",
      \"description\": \"What this file does\",
      \"exports\": [
        {
          \"name\": \"function_name\",
          \"signature\": \"fn function_name(arg: Type) -> Result\",
          \"behavior\": [\"bullet point 1\", \"bullet point 2\"]
        }
      ]
    }
  ],
  \"files_to_modify\": [
    {
      \"path\": \"src/existing/file.rs\",
      \"line\": 42,
      \"description\": \"What changes are needed\",
      \"additions\": [\"code to add\"],
      \"removals\": [\"code to remove\"]
    }
  ],
  \"dependencies_to_add\": [\"package-name\"]
}

IMPORTANT: Return ONLY valid JSON, no markdown code blocks or extra text.";

/// The JSON shape the specification prompt asks for.
pub const SPEC_JSON_FORMAT: &'static str = "\"Output ONLY valid JSON with this structure:
{
  \"task_name\": \"Name of the task\",
  \"approach\": \"Selected approach name\",
  \"complexity\": \"low|medium|high\",
  \"files_to_create\": [
    {\"path\": \"src/path.rs\", \"description\": \"What it does\", \"exports\": []}
  ],
  \"files_to_modify\": [
    {\"path\": \"src/existing.rs\", \"description\": \"Changes needed\", \"additions\": [], \"removals\": []}
  ],
  \"dependencies_to_add\": []
}

Return ONLY the JSON, no markdown or explanation.";

/// One listed file of a prompt.
pub open spec fn file_line(f: String) -> Seq<char> {
    "- "@ + f@ + "\n"@
}

/// The listed files of a finding.
pub open spec fn files_md(fs: Seq<String>) -> Seq<char> {
    concat_all(fs, |f: String| file_line(f))
}

/// The section of a finding in the approaches prompt.
pub open spec fn finding_section(f: Finding) -> Seq<char> {
    "## "@ + f.title@ + "\n\n"@ + f.description@ + "\n\n"@ + if f.related_files@.len() == 0 {
        Seq::empty()
    } else {
        "Related files:\n"@ + files_md(f.related_files@) + "\n"@
    }
}

/// The line of a dependency in the planning prompts.
pub open spec fn dependency_line(d: Dependency) -> Seq<char> {
    "- "@ + d.name@ + " ("@ + dependency_kind(d) + "): "@ + d.description@ + "\n"@
}

/// The findings sections of the approaches prompt.
pub open spec fn finding_sections(fs: Seq<Finding>) -> Seq<char> {
    concat_all(fs, |f: Finding| finding_section(f))
}

/// The dependency lines of the planning prompts.
pub open spec fn dependency_lines(ds: Seq<Dependency>) -> Seq<char> {
    concat_all(ds, |d: Dependency| dependency_line(d))
}

/// The related files of all findings, in order.
pub open spec fn all_related_files(fs: Seq<Finding>) -> Seq<char> {
    concat_all(fs, |f: Finding| files_md(f.related_files@))
}

/// The prompt asking for implementation approaches.
pub open spec fn approaches_prompt(r: ResearchDoc) -> Seq<char> {
    "# Task\n\n"@ + r.task_name@ + "\n\n"@ + "# Research Summary\n\n"@ + r.summary@ + "\n\n"@
        + "# Codebase Analysis\n\n"@ + finding_sections(r.codebase_analysis@) + "# Dependencies\n\n"@
        + dependency_lines(r.dependencies@) + "\n"@ + "# AI's Suggested Approach\n\n"@
        + r.suggested_approach@ + "\n\n"@
        + "Based on this research, propose 2-3 implementation approaches with trade-offs.\n"@
}

/// The lines of a list of strings, each as "- item".
pub open spec fn bullet_lines(items: Seq<String>) -> Seq<char> {
    concat_all(items, |x: String| file_line(x))
}

/// The prompt asking for a specification of a selected approach.
pub open spec fn spec_prompt(r: ResearchDoc, a: Approach) -> Seq<char> {
    "You are creating an implementation specification. Output ONLY valid JSON.\n\n"@
        + "# Task\n\n"@ + r.task_name@ + "\n\n"@ + "# Research Summary\n\n"@ + r.summary@
        + "\n\n"@ + "# Selected Approach\n\n"@ + "**"@ + a.name@ + "**\n\n"@ + a.description@
        + "\n\n"@ + "## Trade-offs\n\n"@ + "Pros:\n"@ + bullet_lines(a.pros@) + "\nCons:\n"@
        + bullet_lines(a.cons@) + "\n"@ + "# Relevant Files from Research\n\n"@
        + all_related_files(r.codebase_analysis@) + "\n"@ + "# Dependencies Identified\n\n"@
        + dependency_lines(r.dependencies@) + "\n"@
        + "Generate a detailed implementation specification for the selected approach.\n"@
        + "Be specific about exact file paths, function signatures, and code changes.\n\n"@
        + SPEC_JSON_FORMAT@
}

/// Appends the "- item" lines of some strings.
fn push_bullets(s: &mut String, items: &Vec<String>)
    ensures
        final(s)@ == old(s)@ + bullet_lines(items@),
{
    let ghost head = s@;
    let mut i: usize = 0;
    while i < items.len()
        invariant
            i <= items@.len(),
            s@ == head + bullet_lines(items@.take(i as int)),
        decreases items.len() - i,
    {
        s.append("- ");
        s.append(items[i].as_str());
        s.append("\n");
        proof {
            lemma_concat_all_step(items@, |x: String| file_line(x), i as int);
        }
        i = i + 1;
    }
    proof {
        lemma_concat_all_full(items@, |x: String| file_line(x));
    }
}

/// Appends the dependency lines of the planning prompts.
fn push_dependency_lines(s: &mut String, ds: &Vec<Dependency>)
    ensures
        final(s)@ == old(s)@ + dependency_lines(ds@),
{
    let ghost head = s@;
    let mut i: usize = 0;
    while i < ds.len()
        invariant
            i <= ds@.len(),
            s@ == head + dependency_lines(ds@.take(i as int)),
        decreases ds.len() - i,
    {
        let d = &ds[i];
        s.append("- ");
        s.append(d.name.as_str());
        s.append(" (");
        if d.is_external {
            s.append("external");
        } else {
            s.append("internal");
        }
        s.append("): ");
        s.append(d.description.as_str());
        s.append("\n");
        proof {
            lemma_concat_all_step(ds@, |d: Dependency| dependency_line(d), i as int);
        }
        i = i + 1;
    }
    proof {
        lemma_concat_all_full(ds@, |d: Dependency| dependency_line(d));
    }
}

/// Appends the section of a finding in the approaches prompt.
fn push_finding_section(prompt: &mut String, f: &Finding)
    ensures
        final(prompt)@ == old(prompt)@ + finding_section(*f),
{
    prompt.append("## ");
    prompt.append(f.title.as_str());
    prompt.append("\n\n");
    prompt.append(f.description.as_str());
    prompt.append("\n\n");
    if f.related_files.len() != 0 {
        prompt.append("Related files:\n");
        push_bullets(prompt, &f.related_files);
        prompt.append("\n");
    } else {
        assert(prompt@ + Seq::<char>::empty() =~= prompt@);
    }
}

/// Builds a prompt for generating implementation approaches.
pub fn build_approaches_prompt(research: &ResearchDoc) -> (prompt: String)
    ensures
        prompt@ == approaches_prompt(*research),
{
    let mut prompt = String::new();
    prompt.append("# Task\n\n");
    prompt.append(research.task_name.as_str());
    prompt.append("\n\n");
    prompt.append("# Research Summary\n\n");
    prompt.append(research.summary.as_str());
    prompt.append("\n\n");
    prompt.append("# Codebase Analysis\n\n");
    let ghost head = prompt@;
    let fs = &research.codebase_analysis;
    let mut i: usize = 0;
    while i < fs.len()
        invariant
            i <= fs@.len(),
            prompt@ == head + finding_sections(fs@.take(i as int)),
        decreases fs.len() - i,
    {
        push_finding_section(&mut prompt, &fs[i]);
        proof {
            lemma_concat_all_step(fs@, |f: Finding| finding_section(f), i as int);
        }
        i = i + 1;
    }
    proof {
        lemma_concat_all_full(fs@, |f: Finding| finding_section(f));
    }
    prompt.append("# Dependencies\n\n");
    push_dependency_lines(&mut prompt, &research.dependencies);
    prompt.append("\n");
    prompt.append("# AI's Suggested Approach\n\n");
    prompt.append(research.suggested_approach.as_str());
    prompt.append("\n\n");
    prompt.append("Based on this research, propose 2-3 implementation approaches with trade-offs.\n");
    prompt
}

/// Builds a prompt for generating a detailed specification from a selected
/// approach; the instructions are inline, for providers that handle system
/// prompts poorly.
pub fn build_spec_prompt(research: &ResearchDoc, approach: &Approach) -> (prompt: String)
    ensures
        prompt@ == spec_prompt(*research, *approach),
{
    let mut prompt = String::new();
    prompt.append("You are creating an implementation specification. Output ONLY valid JSON.\n\n");
    prompt.append("# Task\n\n");
    prompt.append(research.task_name.as_str());
    prompt.append("\n\n");
    prompt.append("# Research Summary\n\n");
    prompt.append(research.summary.as_str());
    prompt.append("\n\n");
    prompt.append("# Selected Approach\n\n");
    prompt.append("**");
    prompt.append(approach.name.as_str());
    prompt.append("**\n\n");
    prompt.append(approach.description.as_str());
    prompt.append("\n\n");
    prompt.append("## Trade-offs\n\n");
    prompt.append("Pros:\n");
    push_bullets(&mut prompt, &approach.pros);
    prompt.append("\nCons:\n");
    push_bullets(&mut prompt, &approach.cons);
    prompt.append("\n");
    prompt.append("# Relevant Files from Research\n\n");
    let ghost head = prompt@;
    let fs = &research.codebase_analysis;
    let mut i: usize = 0;
    while i < fs.len()
        invariant
            i <= fs@.len(),
            prompt@ == head + all_related_files(fs@.take(i as int)),
        decreases fs.len() - i,
    {
        push_bullets(&mut prompt, &fs[i].related_files);
        proof {
            lemma_concat_all_step(fs@, |f: Finding| files_md(f.related_files@), i as int);
        }
        i = i + 1;
    }
    proof {
        lemma_concat_all_full(fs@, |f: Finding| files_md(f.related_files@));
    }
    prompt.append("\n");
    prompt.append("# Dependencies Identified\n\n");
    push_dependency_lines(&mut prompt, &research.dependencies);
    prompt.append("\n");
    prompt.append("Generate a detailed implementation specification for the selected approach.\n");
    prompt.append("Be specific about exact file paths, function signatures, and code changes.\n\n");
    prompt.append(SPEC_JSON_FORMAT);
    prompt
}

} // verus!
