//! What the tree-sitter parsers share when they walk a syntax tree: the
//! calls found in a function body, and adding an entity together with its
//! containment in the file.

use vstd::prelude::*;

use crate::knowledge::ontology::edges::behavioral::{CallType, CallsEdge};
use crate::knowledge::ontology::edges::structural::ContainsEdge;
use crate::knowledge::parser::result::{parsed_node_id, ParseResult, ParsedEdge, ParsedNode};
use crate::knowledge::parser::syntax::{
    child_by_field, field_child, first_is_uppercase, kind_is, starts_upper, SyntaxNode,
};
use crate::knowledge::parser::views::{
    edge_view, extended_by, lemma_added_edge, lemma_added_node, lemma_extended_nothing,
    lemma_extended_same, lemma_extended_then, node_view, nothing, ostr, then, EdgeView, Extraction,
    NodeView,
};
use crate::text::owned;

verus! {

/// How a grammar spells calls.
#[derive(Debug, Clone, Copy)]
pub struct CallSyntax {
    /// Kind of a call through a function expression (its "function" field).
    pub call: Option<&'static str>,
    /// Kind of a member access used as the called function.
    pub member: &'static str,
    /// Field of a member access that names the member.
    pub member_name: &'static str,
    /// Kind of a method invocation that names its method in a "name" field.
    pub invocation: Option<&'static str>,
    /// Kind of an object creation, and the field that names what is created.
    pub creation: Option<(&'static str, &'static str)>,
}

/// The identifier of the function a call refers to by name.
pub open spec fn callee_id(name: Seq<char>) -> Seq<char> {
    "function:?:"@ + name
}

/// The kind of an object creation in a grammar that has one.
pub open spec fn creation_kind(g: CallSyntax) -> Seq<char> {
    match g.creation {
        Some((k, _f)) => k@,
        None => Seq::empty(),
    }
}

/// The field naming what an object creation creates.
pub open spec fn creation_field(g: CallSyntax) -> Seq<char> {
    match g.creation {
        Some((_k, f)) => f@,
        None => Seq::empty(),
    }
}

/// The calls a node itself makes, or `None` when the search of its subtree
/// stops there (a call of something that is neither a member access nor an
/// identifier, or a member access without a member name).
pub open spec fn own_calls(g: CallSyntax, n: SyntaxNode, caller: Seq<char>) -> Option<Seq<EdgeView>> {
    if g.call matches Some(ck) && n.kind@ == ck@ {
        match field_child(n, "function"@) {
            Some(f) => if f.kind@ == g.member@ {
                match field_child(f, g.member_name@) {
                    Some(m) => Some(seq![EdgeView::Calls(caller, callee_id(m.text@), CallType::Method)]),
                    None => None,
                }
            } else if f.kind@ == "identifier"@ {
                Some(seq![EdgeView::Calls(
                    caller,
                    callee_id(f.text@),
                    if starts_upper(f.text@) { CallType::Constructor } else { CallType::Direct },
                )])
            } else {
                None
            },
            None => Some(Seq::empty()),
        }
    } else if g.invocation matches Some(ik) && n.kind@ == ik@ {
        match field_child(n, "name"@) {
            Some(m) => Some(seq![EdgeView::Calls(caller, callee_id(m.text@), CallType::Method)]),
            None => Some(Seq::empty()),
        }
    } else if g.creation is Some && n.kind@ == creation_kind(g) {
        match field_child(n, creation_field(g)) {
            Some(t) => Some(seq![EdgeView::Calls(caller, callee_id(t.text@), CallType::Constructor)]),
            None => Some(Seq::empty()),
        }
    } else {
        Some(Seq::empty())
    }
}

/// The calls found in a subtree, in source order: those the node makes,
/// then those of each child.
pub open spec fn calls_in(g: CallSyntax, n: SyntaxNode, caller: Seq<char>) -> Seq<EdgeView>
    decreases n, n.children@.len() + 1,
{
    match own_calls(g, n, caller) {
        Some(own) => own + calls_in_kids(g, n, n.children@.len() as int, caller),
        None => Seq::empty(),
    }
}

/// The calls found in the first `k` children of a node.
pub open spec fn calls_in_kids(g: CallSyntax, n: SyntaxNode, k: int, caller: Seq<char>) -> Seq<EdgeView>
    decreases n, k,
{
    if k <= 0 || k > n.children@.len() {
        Seq::empty()
    } else {
        calls_in_kids(g, n, k - 1, caller) + calls_in(g, n.children@[k - 1], caller)
    }
}

/// Only calls: an extraction of relations alone.
pub open spec fn edges_only(es: Seq<EdgeView>) -> Extraction {
    Extraction { nodes: Seq::empty(), edges: es }
}

/// Adds a call edge of a type to the result.
fn add_call_to(result: &mut ParseResult, caller_id: &str, callee_name: &str, call_type: CallType)
    ensures
        extended_by(
            *final(result),
            *old(result),
            edges_only(seq![EdgeView::Calls(caller_id@, callee_id(callee_name@), call_type)]),
        ),
{
    let mut callee = owned("function:?:");
    callee.append(callee_name);
    let mut edge = CallsEdge::new(caller_id, callee.as_str());
    edge.call_type = call_type;
    let ghost before = *result;
    result.add_call(edge);
    proof {
        lemma_added_edge(before, *result, ParsedEdge::Calls(edge));
    }
}

/// Adds the calls a node itself makes; false when the search of its subtree
/// stops there.
fn add_own_calls(g: &CallSyntax, node: &SyntaxNode, caller_id: &str, result: &mut ParseResult) -> (go_on: bool)
    ensures
        go_on == (own_calls(*g, *node, caller_id@) is Some),
        extended_by(*final(result), *old(result), edges_only(
            match own_calls(*g, *node, caller_id@) {
                Some(es) => es,
                None => Seq::empty(),
            },
        )),
{
    proof {
        lemma_extended_nothing(*result);
        assert(crate::knowledge::parser::views::nothing() == edges_only(Seq::empty()));
    }
    let is_call = match g.call {
        Some(ck) => kind_is(node, ck),
        None => false,
    };
    if is_call {
        match child_by_field(node, "function") {
            Some(f) => {
                if kind_is(f, g.member) {
                    match child_by_field(f, g.member_name) {
                        Some(m) => {
                            add_call_to(result, caller_id, m.text.as_str(), CallType::Method);
                            true
                        },
                        None => false,
                    }
                } else if kind_is(f, "identifier") {
                    let call_type = if first_is_uppercase(f.text.as_str()) {
                        CallType::Constructor
                    } else {
                        CallType::Direct
                    };
                    add_call_to(result, caller_id, f.text.as_str(), call_type);
                    true
                } else {
                    false
                }
            },
            None => true,
        }
    } else {
        let is_invocation = match g.invocation {
            Some(ik) => kind_is(node, ik),
            None => false,
        };
        if is_invocation {
            match child_by_field(node, "name") {
                Some(m) => add_call_to(result, caller_id, m.text.as_str(), CallType::Method),
                None => {},
            }
            true
        } else {
            match g.creation {
                Some((ck, cf)) => {
                    if kind_is(node, ck) {
                        match child_by_field(node, cf) {
                            Some(t) => add_call_to(result, caller_id, t.text.as_str(), CallType::Constructor),
                            None => {},
                        }
                    }
                },
                None => {},
            }
            true
        }
    }
}

/// Adds the calls found in a subtree to the result, in source order.
pub fn add_calls(g: &CallSyntax, node: &SyntaxNode, caller_id: &str, result: &mut ParseResult)
    ensures
        extended_by(*final(result), *old(result), edges_only(calls_in(*g, *node, caller_id@))),
    decreases node,
{
    let ghost start = *result;
    if !add_own_calls(g, node, caller_id, result) {
        return;
    }
    let ghost own = own_calls(*g, *node, caller_id@).unwrap();
    let mut i: usize = 0;
    proof {
        lemma_extended_same(*result, start, edges_only(own), edges_only(own + calls_in_kids(*g, *node, 0, caller_id@)));
    }
    while i < node.children.len()
        invariant
            i <= node.children@.len(),
            own == own_calls(*g, *node, caller_id@).unwrap(),
            extended_by(*result, start, edges_only(own + calls_in_kids(*g, *node, i as int, caller_id@))),
        decreases node.children.len() - i,
    {
        let ghost mid = *result;
        add_calls(g, &node.children[i], caller_id, result);
        proof {
            let x = edges_only(own + calls_in_kids(*g, *node, i as int, caller_id@));
            let y = edges_only(calls_in(*g, node.children@[i as int], caller_id@));
            lemma_extended_then(start, mid, *result, x, y);
            lemma_extended_same(*result, start, then(x, y), edges_only(own + calls_in_kids(*g, *node, i + 1, caller_id@)));
        }
        i = i + 1;
    }
}

/// An entity with its containment in the file, when it has an identifier.
pub open spec fn contained(v: NodeView, id: Option<Seq<char>>, path: Seq<char>) -> Extraction {
    Extraction {
        nodes: seq![v],
        edges: match id {
            Some(i) => seq![EdgeView::Contains("file:"@ + path, i)],
            None => Seq::empty(),
        },
    }
}

/// Adds an entity, and its containment in the file when it has an
/// identifier; returns that identifier.
pub fn add_contained(result: &mut ParseResult, entity: ParsedNode, path: &str) -> (id: Option<String>)
    ensures
        ostr(id) == parsed_node_id(entity),
        extended_by(*final(result), *old(result), contained(node_view(entity), parsed_node_id(entity), path@)),
{
    let id: Option<String> = match entity.id() {
        Some(s) => Some(owned(s)),
        None => None,
    };
    let ghost r0 = *result;
    let ghost x0 = Extraction { nodes: seq![node_view(entity)], edges: Seq::empty() };
    match entity {
        ParsedNode::Function(f) => result.add_function(f),
        ParsedNode::Struct(s) => result.add_struct(s),
        ParsedNode::Trait(t) => result.add_trait(t),
        ParsedNode::Impl(i) => result.add_impl(i),
        ParsedNode::Enum(e) => result.add_enum(e),
        ParsedNode::Constant(c) => result.add_constant(c),
    }
    proof {
        lemma_added_node(r0, *result, entity);
    }
    match &id {
        Some(eid) => {
            let mut file_id = owned("file:");
            file_id.append(path);
            let e = ContainsEdge::new(file_id.as_str(), eid.as_str());
            let ghost r1 = *result;
            result.add_contains(e);
            proof {
                lemma_added_edge(r1, *result, ParsedEdge::Contains(e));
                let y = Extraction { nodes: Seq::empty(), edges: seq![edge_view(ParsedEdge::Contains(e))] };
                lemma_extended_then(r0, r1, *result, x0, y);
                lemma_extended_same(*result, r0, then(x0, y), contained(node_view(entity), parsed_node_id(entity), path@));
            }
        },
        None => {
            proof {
                lemma_extended_same(*result, r0, x0, contained(node_view(entity), parsed_node_id(entity), path@));
            }
        },
    }
    id
}

/// The identifier of an extracted entity.
pub open spec fn view_id(v: NodeView) -> Option<Seq<char>> {
    match v {
        NodeView::Function(f) => f.id,
        NodeView::Struct(s) => s.id,
        NodeView::Trait(t) => t.id,
        NodeView::Enum(e) => e.id,
        NodeView::Other => None,
    }
}

/// Whether every entity of an extraction that has an identifier comes with
/// its containment in the file.
pub open spec fn entities_in_file(x: Extraction, path: Seq<char>) -> bool {
    forall|j: int|
        0 <= j < x.nodes.len() ==> (view_id(#[trigger] x.nodes[j]) matches Some(i) ==> x.edges.contains(
            EdgeView::Contains("file:"@ + path, i),
        ))
}

/// Nothing, relations alone, and an entity with its containment keep every
/// entity in the file, and so does one extraction followed by another.
pub proof fn lemma_in_file_parts(a: Extraction, b: Extraction, v: NodeView, es: Seq<EdgeView>, path: Seq<char>)
    ensures
        entities_in_file(nothing(), path),
        entities_in_file(edges_only(es), path),
        entities_in_file(contained(v, view_id(v), path), path),
        entities_in_file(a, path) && entities_in_file(b, path) ==> entities_in_file(then(a, b), path),
{
    let c = contained(v, view_id(v), path);
    assert forall|j: int| 0 <= j < c.nodes.len() implies (view_id(#[trigger] c.nodes[j]) matches Some(i)
        ==> c.edges.contains(EdgeView::Contains("file:"@ + path, i))) by {
        if view_id(c.nodes[j]) is Some {
            assert(c.edges[0] == EdgeView::Contains("file:"@ + path, view_id(v)->0));
        }
    }
    if entities_in_file(a, path) && entities_in_file(b, path) {
        let t = then(a, b);
        assert forall|j: int| 0 <= j < t.nodes.len() implies (view_id(#[trigger] t.nodes[j]) matches Some(i)
            ==> t.edges.contains(EdgeView::Contains("file:"@ + path, i))) by {
            if view_id(t.nodes[j]) is Some {
                let i = view_id(t.nodes[j])->0;
                let e = EdgeView::Contains("file:"@ + path, i);
                if j < a.nodes.len() {
                    assert(t.nodes[j] == a.nodes[j]);
                    let w = choose|w: int| 0 <= w < a.edges.len() && a.edges[w] == e;
                    assert(t.edges[w] == e);
                } else {
                    assert(t.nodes[j] == b.nodes[j - a.nodes.len()]);
                    let w = choose|w: int| 0 <= w < b.edges.len() && b.edges[w] == e;
                    assert(t.edges[a.edges.len() + w] == e);
                }
            }
        }
    }
}

} // verus!
