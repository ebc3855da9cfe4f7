//! The research document: what the Research phase learned about the codebase.

use vstd::prelude::*;

use crate::text::{concat_all, lemma_concat_all_full, lemma_concat_all_step, owned};

verus! {

/// The output of the Research phase.
///
/// Contains validated understanding of the codebase and context
/// relevant to the user's task.
#[derive(Debug, Clone)]
pub struct ResearchDoc {
    /// Name of the task this research is for
    pub task_name: String,
    /// High-level summary of findings
    pub summary: String,
    /// Findings from codebase analysis
    pub codebase_analysis: Vec<Finding>,
    /// Dependencies identified (internal and external)
    pub dependencies: Vec<Dependency>,
    /// AI's suggested approach based on research
    pub suggested_approach: String,
    /// Sources referenced during research
    pub sources: Vec<Source>,
}

/// A finding from codebase analysis.
#[derive(Debug, Clone)]
pub struct Finding {
    /// Title of the finding
    pub title: String,
    /// Detailed description
    pub description: String,
    /// File paths related to this finding
    pub related_files: Vec<String>,
}

/// A dependency identified during research.
#[derive(Debug, Clone)]
pub struct Dependency {
    /// Name of the dependency
    pub name: String,
    /// Description of what it does
    pub description: String,
    /// Whether this is an external package or internal module
    pub is_external: bool,
}

/// A source referenced during research.
#[derive(Debug, Clone)]
pub struct Source {
    /// Type of source
    pub source_type: SourceType,
    /// Location (file path, URL, etc.)
    pub location: String,
}

/// Type of source referenced.
#[derive(Debug, Clone, Copy, PartialEq, Eq, Structural)]
pub enum SourceType {
    /// A file in the codebase
    File,
    /// A URL (documentation, Stack Overflow, etc.)
    Web,
    /// A Slack message or thread
    Slack,
    /// A Confluence page
    Confluence,
    /// Git history (commit, blame, etc.)
    Git,
    /// A hit of a semantic search over the knowledge graph
    KnowledgeGraph,
}

/// The display name of a source type.
pub open spec fn source_type_name(t: SourceType) -> Seq<char> {
    match t {
        SourceType::File => "File"@,
        SourceType::Web => "Web"@,
        SourceType::Slack => "Slack"@,
        SourceType::Confluence => "Confluence"@,
        SourceType::Git => "Git"@,
        SourceType::KnowledgeGraph => "KnowledgeGraph"@,
    }
}

impl SourceType {
    /// The display name of this source type.
    pub fn as_str(&self) -> (r: &'static str)
        ensures
            r@ == source_type_name(*self),
    {
        match self {
            SourceType::File => "File",
            SourceType::Web => "Web",
            SourceType::Slack => "Slack",
            SourceType::Confluence => "Confluence",
            SourceType::Git => "Git",
            SourceType::KnowledgeGraph => "KnowledgeGraph",
        }
    }
}

/// "external" or "internal", as a dependency is.
pub open spec fn dependency_kind(d: Dependency) -> Seq<char> {
    if d.is_external {
        "external"@
    } else {
        "internal"@
    }
}

/// The markdown section of one finding.
pub open spec fn finding_md(f: Finding) -> Seq<char> {
    "### "@ + f.title@ + "\n\n"@ + f.description@ + "\n\n"@
}

/// The markdown line of one dependency.
pub open spec fn dependency_md(d: Dependency) -> Seq<char> {
    "- **"@ + d.name@ + "** ("@ + dependency_kind(d) + "): "@ + d.description@ + "\n"@
}

/// The markdown line of one source.
pub open spec fn source_md(s: Source) -> Seq<char> {
    "- "@ + source_type_name(s.source_type) + ": "@ + s.location@ + "\n"@
}

/// The markdown sections of some findings.
pub open spec fn findings_md(fs: Seq<Finding>) -> Seq<char> {
    concat_all(fs, |f: Finding| finding_md(f))
}

/// The markdown lines of some dependencies.
pub open spec fn dependencies_md(ds: Seq<Dependency>) -> Seq<char> {
    concat_all(ds, |d: Dependency| dependency_md(d))
}

/// The markdown lines of some sources.
pub open spec fn sources_md(ss: Seq<Source>) -> Seq<char> {
    concat_all(ss, |s: Source| source_md(s))
}

/// The markdown rendering of a research document.
pub open spec fn research_markdown(d: ResearchDoc) -> Seq<char> {
    "# Research: "@ + d.task_name@ + "\n\n"@ + "## Summary\n\n"@ + d.summary@ + "\n\n"@
        + "## Codebase Analysis\n\n"@ + findings_md(d.codebase_analysis@) + "## Dependencies\n\n"@
        + dependencies_md(d.dependencies@) + "\n"@ + "## Suggested Approach\n\n"@
        + d.suggested_approach@ + "\n\n"@ + "## Sources\n\n"@ + sources_md(d.sources@)
}

/// Appends the markdown line of a dependency.
fn push_dependency_md(md: &mut String, d: &Dependency)
    ensures
        final(md)@ == old(md)@ + dependency_md(*d),
{
    md.append("- **");
    md.append(d.name.as_str());
    md.append("** (");
    if d.is_external {
        md.append("external");
    } else {
        md.append("internal");
    }
    md.append("): ");
    md.append(d.description.as_str());
    md.append("\n");
}

impl ResearchDoc {
    /// Creates a new empty research document for a task.
    pub fn new(task_name: &str) -> (r: Self)
        ensures
            r.task_name@ == task_name@,
            r.summary@.len() == 0,
            r.codebase_analysis@.len() == 0,
            r.dependencies@.len() == 0,
            r.suggested_approach@.len() == 0,
            r.sources@.len() == 0,
    {
        ResearchDoc {
            task_name: owned(task_name),
            summary: String::new(),
            codebase_analysis: Vec::new(),
            dependencies: Vec::new(),
            suggested_approach: String::new(),
            sources: Vec::new(),
        }
    }

    /// Converts the research document to markdown format.
    pub fn to_markdown(&self) -> (md: String)
        ensures
            md@ == research_markdown(*self),
    {
        let mut md = String::new();
        md.append("# Research: ");
        md.append(self.task_name.as_str());
        md.append("\n\n");
        md.append("## Summary\n\n");
        md.append(self.summary.as_str());
        md.append("\n\n");
        md.append("## Codebase Analysis\n\n");
        let ghost head = md@;
        let fs = &self.codebase_analysis;
        let mut i: usize = 0;
        while i < fs.len()
            invariant
                i <= fs@.len(),
                md@ == head + findings_md(fs@.take(i as int)),
            decreases fs.len() - i,
        {
            let f = &fs[i];
            md.append("### ");
            md.append(f.title.as_str());
            md.append("\n\n");
            md.append(f.description.as_str());
            md.append("\n\n");
            proof {
                lemma_concat_all_step(fs@, |f: Finding| finding_md(f), i as int);
            }
            i = i + 1;
        }
        proof {
            lemma_concat_all_full(fs@, |f: Finding| finding_md(f));
        }
        md.append("## Dependencies\n\n");
        let ghost head2 = md@;
        let ds = &self.dependencies;
        let mut j: usize = 0;
        while j < ds.len()
            invariant
                j <= ds@.len(),
                md@ == head2 + dependencies_md(ds@.take(j as int)),
            decreases ds.len() - j,
        {
            push_dependency_md(&mut md, &ds[j]);
            proof {
                lemma_concat_all_step(ds@, |d: Dependency| dependency_md(d), j as int);
            }
            j = j + 1;
        }
        proof {
            lemma_concat_all_full(ds@, |d: Dependency| dependency_md(d));
        }
        md.append("\n");
        md.append("## Suggested Approach\n\n");
        md.append(self.suggested_approach.as_str());
        md.append("\n\n");
        md.append("## Sources\n\n");
        let ghost head3 = md@;
        let ss = &self.sources;
        let mut k: usize = 0;
        while k < ss.len()
            invariant
                k <= ss@.len(),
                md@ == head3 + sources_md(ss@.take(k as int)),
            decreases ss.len() - k,
        {
            let s = &ss[k];
            md.append("- ");
            md.append(s.source_type.as_str());
            md.append(": ");
            md.append(s.location.as_str());
            md.append("\n");
            proof {
                lemma_concat_all_step(ss@, |s: Source| source_md(s), k as int);
            }
            k = k + 1;
        }
        proof {
            lemma_concat_all_full(ss@, |s: Source| source_md(s));
        }
        md
    }
}

} // verus!
