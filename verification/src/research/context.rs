//! The research context the knowledge graph gives: the code a semantic
//! search found, the calls around the entities it found, and the sources
//! they come from.

use vstd::prelude::*;

use crate::knowledge::records::string_views;
use crate::research::document::{Source, SourceType};
use crate::text::{chars_of, decimal, join, join_chars, owned, push_decimal, str_eq, views};

verus! {

broadcast use vstd::string::group_string_axioms;

/// A hit of a semantic search over the indexed code.
#[derive(Debug, Clone)]
pub struct SearchHit {
    /// The file the hit is in.
    pub path: String,
    /// Its first line.
    pub start_line: u32,
    /// Its last line.
    pub end_line: u32,
    /// Its similarity score as shown, with two decimals.
    pub score_text: String,
    /// The start of its code, when the store gave it.
    pub preview: Option<String>,
    /// The entity the hit belongs to, if any.
    pub entity_id: Option<String>,
    /// The kind of that entity.
    pub entity_type: String,
}

/// What the graph gave about a hit's entity: the names it calls and the
/// names that call it; none where nothing was asked or the query failed.
#[derive(Debug, Clone)]
pub struct HitExpansion {
    pub dependencies: Option<Vec<String>>,
    pub impact: Option<Vec<String>>,
}

/// Where a hit is, as a source: "path:start-end (score: s)".
pub open spec fn hit_location(h: SearchHit) -> Seq<char> {
    h.path@ + ":"@ + decimal(h.start_line as nat) + "-"@ + decimal(h.end_line as nat) + " (score: "@
        + h.score_text@ + ")"@
}

/// The context part showing a hit's code.
pub open spec fn preview_part(h: SearchHit, preview: Seq<char>) -> Seq<char> {
    "### "@ + h.path@ + " (lines "@ + decimal(h.start_line as nat) + "-"@ + decimal(
        h.end_line as nat,
    ) + ")\n```\n"@ + preview + "\n```"@
}

/// The parts showing the code of the first `n` hits that have a preview.
pub open spec fn parts_upto(hs: Seq<SearchHit>, n: int) -> Seq<Seq<char>>
    decreases n,
{
    if n <= 0 {
        Seq::empty()
    } else {
        let prev = parts_upto(hs, n - 1);
        match hs[n - 1].preview {
            Some(p) => prev.push(preview_part(hs[n - 1], p@)),
            None => prev,
        }
    }
}

/// Whether no hit before the `k`-th is in the same file.
pub open spec fn first_in_file(hs: Seq<SearchHit>, k: int) -> bool {
    forall|j: int| 0 <= j < k ==> hs[j].path@ != hs[k].path@
}

/// The source locations of the first `n` hits: one for the first hit of
/// each file.
pub open spec fn locations_upto(hs: Seq<SearchHit>, n: int) -> Seq<Seq<char>>
    decreases n,
{
    if n <= 0 {
        Seq::empty()
    } else {
        let prev = locations_upto(hs, n - 1);
        if first_in_file(hs, n - 1) {
            prev.push(hit_location(hs[n - 1]))
        } else {
            prev
        }
    }
}

/// At most the first five names.
pub open spec fn first_five(ns: Seq<Seq<char>>) -> Seq<Seq<char>> {
    if ns.len() <= 5 {
        ns
    } else {
        ns.take(5)
    }
}

/// A relationship line: "- **kind** `id` " then the relation and up to
/// five names, comma-separated.
pub open spec fn relation_text(kind: Seq<char>, id: Seq<char>, relation: Seq<char>, ns: Seq<Seq<char>>) -> Seq<char> {
    "- **"@ + kind + "** `"@ + id + "` "@ + relation + join(first_five(ns), ", "@)
}

/// The relationship line of some names, when there are any.
pub open spec fn relation_lines(
    kind: Seq<char>,
    id: Seq<char>,
    relation: Seq<char>,
    names: Option<Vec<String>>,
) -> Seq<Seq<char>> {
    match names {
        Some(d) => if d@.len() > 0 {
            seq![relation_text(kind, id, relation, string_views(d@))]
        } else {
            Seq::empty()
        },
        None => Seq::empty(),
    }
}

/// The relationship lines of a hit: what its entity calls, then what calls
/// it; none for a hit without an entity.
pub open spec fn hit_graph(h: SearchHit, x: HitExpansion) -> Seq<Seq<char>> {
    match h.entity_id {
        Some(id) => relation_lines(h.entity_type@, id@, "calls: "@, x.dependencies) + relation_lines(
            h.entity_type@,
            id@,
            "is called by: "@,
            x.impact,
        ),
        None => Seq::empty(),
    }
}

/// The relationship lines of the first `n` hits.
pub open spec fn graph_upto(hs: Seq<SearchHit>, xs: Seq<HitExpansion>, n: int) -> Seq<Seq<char>>
    decreases n,
{
    if n <= 0 {
        Seq::empty()
    } else {
        graph_upto(hs, xs, n - 1) + hit_graph(hs[n - 1], xs[n - 1])
    }
}

/// The context text: the code of the hits, then their relationships when
/// there are any.
pub open spec fn context_text(hs: Seq<SearchHit>, xs: Seq<HitExpansion>) -> Seq<char> {
    let g = graph_upto(hs, xs, hs.len() as int);
    "## Relevant Code (semantic search)\n\n"@ + join(parts_upto(hs, hs.len() as int), "\n\n"@) + "\n"@
        + if g.len() > 0 {
        "\n## Code Relationships (graph analysis)\n\n"@ + join(g, "\n"@) + "\n"@
    } else {
        Seq::empty()
    }
}

/// Where a hit is, as a source location.
fn hit_location_text(h: &SearchHit) -> (r: String)
    ensures
        r@ == hit_location(*h),
{
    let mut r = h.path.clone();
    r.append(":");
    push_decimal(&mut r, h.start_line as usize);
    r.append("-");
    push_decimal(&mut r, h.end_line as usize);
    r.append(" (score: ");
    r.append(h.score_text.as_str());
    r.append(")");
    r
}

/// The context part showing a hit's code.
fn preview_text(h: &SearchHit, preview: &str) -> (r: Vec<char>)
    ensures
        r@ == preview_part(*h, preview@),
{
    let mut r = owned("### ");
    r.append(h.path.as_str());
    r.append(" (lines ");
    push_decimal(&mut r, h.start_line as usize);
    r.append("-");
    push_decimal(&mut r, h.end_line as usize);
    r.append(")\n```\n");
    r.append(preview);
    r.append("\n```");
    chars_of(r.as_str())
}

/// A relationship line.
fn relation_line(kind: &str, id: &str, relation: &str, names: &Vec<String>) -> (r: Vec<char>)
    ensures
        r@ == relation_text(kind@, id@, relation@, string_views(names@)),
{
    let ghost ns = string_views(names@);
    let n: usize = if names.len() <= 5 {
        names.len()
    } else {
        5
    };
    let mut parts: Vec<Vec<char>> = Vec::new();
    let mut i: usize = 0;
    while i < n
        invariant
            i <= n <= names@.len(),
            n == (if names@.len() <= 5 {
                names@.len()
            } else {
                5
            }),
            ns == string_views(names@),
            views(parts@) == ns.take(i as int),
        decreases n - i,
    {
        let c = chars_of(names[i].as_str());
        proof {
            crate::text::lemma_views_push(parts@, c);
        }
        parts.push(c);
        assert(ns.take(i + 1) =~= ns.take(i as int).push(ns[i as int]));
        i = i + 1;
    }
    assert(ns.take(n as int) =~= first_five(ns));
    let sep = chars_of(", ");
    let joined = join_chars(&parts, sep.as_slice());
    let mut r = owned("- **");
    r.append(kind);
    r.append("** `");
    r.append(id);
    r.append("` ");
    r.append(relation);
    let mut out = chars_of(r.as_str());
    crate::text::extend_chars(&mut out, joined.as_slice());
    out
}

/// Adds the relationship line of some names, when there are any.
fn push_relation(graph: &mut Vec<Vec<char>>, kind: &str, id: &str, relation: &str, names: &Option<Vec<String>>)
    ensures
        views(final(graph)@) == views(old(graph)@) + relation_lines(kind@, id@, relation@, *names),
{
    match names {
        Some(d) => {
            if d.len() > 0 {
                let line = relation_line(kind, id, relation, d);
                let ghost before = graph@;
                graph.push(line);
                assert(views(graph@) =~= views(before) + seq![line@]);
            } else {
                assert(views(graph@) + Seq::<Seq<char>>::empty() =~= views(graph@));
            }
        },
        None => {
            assert(views(graph@) + Seq::<Seq<char>>::empty() =~= views(graph@));
        },
    }
}

/// Whether a hit before the `k`-th is in the same file.
fn seen_before(hits: &Vec<SearchHit>, k: usize) -> (r: bool)
    requires
        k < hits@.len(),
    ensures
        r == !first_in_file(hits@, k as int),
{
    let mut j: usize = 0;
    while j < k
        invariant
            j <= k < hits@.len(),
            forall|i: int| 0 <= i < j ==> hits@[i].path@ != hits@[k as int].path@,
        decreases k - j,
    {
        if str_eq(hits[j].path.as_str(), hits[k].path.as_str()) {
            return true;
        }
        j = j + 1;
    }
    false
}

/// The research context of a semantic search's hits and what the graph
/// gave about each: the context text and the sources, one per file (its
/// first hit); none when the search found nothing.
pub fn smart_context(hits: &Vec<SearchHit>, expansions: &Vec<HitExpansion>) -> (r: Option<(String, Vec<Source>)>)
    requires
        hits@.len() == expansions@.len(),
    ensures
        r is None <==> hits@.len() == 0,
        r matches Some((text, sources)) ==> text@ == context_text(hits@, expansions@)
            && sources@.map_values(|s: Source| s.location@) == locations_upto(hits@, hits@.len() as int)
            && forall|i: int| 0 <= i < sources@.len() ==> (#[trigger] sources@[i]).source_type
                == SourceType::KnowledgeGraph,
{
    if hits.len() == 0 {
        return None;
    }
    let mut parts: Vec<Vec<char>> = Vec::new();
    let mut graph: Vec<Vec<char>> = Vec::new();
    let mut sources: Vec<Source> = Vec::new();
    let mut i: usize = 0;
    while i < hits.len()
        invariant
            i <= hits@.len() == expansions@.len(),
            views(parts@) == parts_upto(hits@, i as int),
            views(graph@) == graph_upto(hits@, expansions@, i as int),
            sources@.map_values(|s: Source| s.location@) == locations_upto(hits@, i as int),
            forall|k: int| 0 <= k < sources@.len() ==> (#[trigger] sources@[k]).source_type
                == SourceType::KnowledgeGraph,
        decreases hits.len() - i,
    {
        let h = &hits[i];
        if !seen_before(hits, i) {
            let loc = hit_location_text(h);
            let ghost before = sources@;
            sources.push(Source { source_type: SourceType::KnowledgeGraph, location: loc });
            assert(sources@.map_values(|s: Source| s.location@) =~= before.map_values(
                |s: Source| s.location@,
            ).push(hit_location(hits@[i as int])));
        }
        match &h.preview {
            Some(p) => {
                let part = preview_text(h, p.as_str());
                proof {
                    crate::text::lemma_views_push(parts@, part);
                }
                parts.push(part);
            },
            None => {},
        }
        match &h.entity_id {
            Some(id) => {
                let x = &expansions[i];
                push_relation(&mut graph, h.entity_type.as_str(), id.as_str(), "calls: ", &x.dependencies);
                push_relation(&mut graph, h.entity_type.as_str(), id.as_str(), "is called by: ", &x.impact);
                assert(views(graph@) =~= graph_upto(hits@, expansions@, i + 1));
            },
            None => {
                assert(graph_upto(hits@, expansions@, i as int) + Seq::<Seq<char>>::empty() =~= graph_upto(
                    hits@,
                    expansions@,
                    i as int,
                ));
            },
        }
        i = i + 1;
    }
    let sep2 = chars_of("\n\n");
    let code = join_chars(&parts, sep2.as_slice());
    let text = owned("## Relevant Code (semantic search)\n\n");
    let mut out = chars_of(text.as_str());
    crate::text::extend_chars(&mut out, code.as_slice());
    out.push('\n');
    if graph.len() > 0 {
        let head = chars_of("\n## Code Relationships (graph analysis)\n\n");
        crate::text::extend_chars(&mut out, head.as_slice());
        let sep1 = chars_of("\n");
        let rel = join_chars(&graph, sep1.as_slice());
        crate::text::extend_chars(&mut out, rel.as_slice());
        out.push('\n');
    }
    proof {
        reveal_strlit("\n");
    }
    let t = crate::text::string_from_chars(out.as_slice());
    Some((t, sources))
}

} // verus!
