//! Entities and relations as plain values, for stating what a parser
//! extracts.

use vstd::prelude::*;

use crate::knowledge::ontology::edges::behavioral::CallType;
use crate::knowledge::ontology::nodes::code::{
    ComplexityMetrics, EnumEntity, EnumVariant, FieldInfo, FunctionEntity, Parameter, StructEntity,
    TraitEntity, Visibility,
};
use crate::knowledge::parser::result::{ParseResult, ParsedEdge, ParsedNode};
use crate::knowledge::records::string_views;

verus! {

/// The views of an optional string.
pub open spec fn ostr(o: Option<String>) -> Option<Seq<char>> {
    match o {
        Some(s) => Some(s@),
        None => None,
    }
}

/// A parameter as plain values: name, type, mutable, reference.
pub open spec fn param_view(p: Parameter) -> (Seq<char>, Seq<char>, bool, bool) {
    (p.name@, p.type_str@, p.is_mutable, p.is_reference)
}

/// Parameters as plain values.
pub open spec fn params_view(ps: Seq<Parameter>) -> Seq<(Seq<char>, Seq<char>, bool, bool)> {
    ps.map_values(|p: Parameter| param_view(p))
}

/// A field as plain values: name, type, visibility, attributes, doc.
pub open spec fn field_view(f: FieldInfo) -> (Seq<char>, Seq<char>, Visibility, Seq<Seq<char>>, Option<Seq<char>>) {
    (f.name@, f.type_str@, f.visibility, string_views(f.attributes@), ostr(f.doc_comment))
}

/// Fields as plain values.
pub open spec fn fields_view(fs: Seq<FieldInfo>) -> Seq<(Seq<char>, Seq<char>, Visibility, Seq<Seq<char>>, Option<Seq<char>>)> {
    fs.map_values(|f: FieldInfo| field_view(f))
}

/// A function entity as plain values.
pub struct FunctionView {
    pub id: Option<Seq<char>>,
    pub name: Seq<char>,
    pub qualified_name: Seq<char>,
    pub file_path: Seq<char>,
    pub start_line: u32,
    pub end_line: u32,
    pub signature: Seq<char>,
    pub parent: Option<Seq<char>>,
    pub visibility: Visibility,
    pub is_async: bool,
    pub is_unsafe: bool,
    pub generics: Seq<Seq<char>>,
    pub parameters: Seq<(Seq<char>, Seq<char>, bool, bool)>,
    pub return_type: Option<Seq<char>>,
    pub doc_comment: Option<Seq<char>>,
    pub complexity: Option<ComplexityMetrics>,
}

/// The plain values of a function entity.
pub open spec fn function_view(f: FunctionEntity) -> FunctionView {
    FunctionView {
        id: ostr(f.id),
        name: f.name@,
        qualified_name: f.qualified_name@,
        file_path: f.file_path@,
        start_line: f.start_line,
        end_line: f.end_line,
        signature: f.signature@,
        parent: ostr(f.parent),
        visibility: f.visibility,
        is_async: f.is_async,
        is_unsafe: f.is_unsafe,
        generics: string_views(f.generics@),
        parameters: params_view(f.parameters@),
        return_type: ostr(f.return_type),
        doc_comment: ostr(f.doc_comment),
        complexity: f.complexity,
    }
}

/// A struct entity as plain values.
pub struct StructView {
    pub id: Option<Seq<char>>,
    pub name: Seq<char>,
    pub qualified_name: Seq<char>,
    pub file_path: Seq<char>,
    pub start_line: u32,
    pub end_line: u32,
    pub visibility: Visibility,
    pub generics: Seq<Seq<char>>,
    pub fields: Seq<(Seq<char>, Seq<char>, Visibility, Seq<Seq<char>>, Option<Seq<char>>)>,
    pub derives: Seq<Seq<char>>,
    pub attributes: Seq<Seq<char>>,
    pub doc_comment: Option<Seq<char>>,
}

/// The plain values of a struct entity.
pub open spec fn struct_view(s: StructEntity) -> StructView {
    StructView {
        id: ostr(s.id),
        name: s.name@,
        qualified_name: s.qualified_name@,
        file_path: s.file_path@,
        start_line: s.start_line,
        end_line: s.end_line,
        visibility: s.visibility,
        generics: string_views(s.generics@),
        fields: fields_view(s.fields@),
        derives: string_views(s.derives@),
        attributes: string_views(s.attributes@),
        doc_comment: ostr(s.doc_comment),
    }
}

/// A trait entity as plain values.
pub struct TraitView {
    pub id: Option<Seq<char>>,
    pub name: Seq<char>,
    pub qualified_name: Seq<char>,
    pub file_path: Seq<char>,
    pub start_line: u32,
    pub end_line: u32,
    pub visibility: Visibility,
    pub generics: Seq<Seq<char>>,
    pub super_traits: Seq<Seq<char>>,
    pub required_methods: Seq<Seq<char>>,
    pub provided_methods: Seq<Seq<char>>,
    pub associated_types: Seq<Seq<char>>,
    pub doc_comment: Option<Seq<char>>,
}

/// The plain values of a trait entity.
pub open spec fn trait_view(t: TraitEntity) -> TraitView {
    TraitView {
        id: ostr(t.id),
        name: t.name@,
        qualified_name: t.qualified_name@,
        file_path: t.file_path@,
        start_line: t.start_line,
        end_line: t.end_line,
        visibility: t.visibility,
        generics: string_views(t.generics@),
        super_traits: string_views(t.super_traits@),
        required_methods: string_views(t.required_methods@),
        provided_methods: string_views(t.provided_methods@),
        associated_types: string_views(t.associated_types@),
        doc_comment: ostr(t.doc_comment),
    }
}

/// An enum variant as plain values: name, fields, discriminant, doc.
pub open spec fn variant_view(v: EnumVariant) -> (Seq<char>, Seq<(Seq<char>, Seq<char>, Visibility, Seq<Seq<char>>, Option<Seq<char>>)>, Option<Seq<char>>, Option<Seq<char>>) {
    (v.name@, fields_view(v.fields@), ostr(v.discriminant), ostr(v.doc_comment))
}

/// An enum entity as plain values.
pub struct EnumView {
    pub id: Option<Seq<char>>,
    pub name: Seq<char>,
    pub qualified_name: Seq<char>,
    pub file_path: Seq<char>,
    pub start_line: u32,
    pub end_line: u32,
    pub visibility: Visibility,
    pub generics: Seq<Seq<char>>,
    pub variants: Seq<(Seq<char>, Seq<(Seq<char>, Seq<char>, Visibility, Seq<Seq<char>>, Option<Seq<char>>)>, Option<Seq<char>>, Option<Seq<char>>)>,
    pub derives: Seq<Seq<char>>,
    pub doc_comment: Option<Seq<char>>,
}

/// The plain values of an enum entity.
pub open spec fn enum_view(e: EnumEntity) -> EnumView {
    EnumView {
        id: ostr(e.id),
        name: e.name@,
        qualified_name: e.qualified_name@,
        file_path: e.file_path@,
        start_line: e.start_line,
        end_line: e.end_line,
        visibility: e.visibility,
        generics: string_views(e.generics@),
        variants: e.variants@.map_values(|v: EnumVariant| variant_view(v)),
        derives: string_views(e.derives@),
        doc_comment: ostr(e.doc_comment),
    }
}

/// An extracted entity as plain values.
pub enum NodeView {
    Function(FunctionView),
    Struct(StructView),
    Trait(TraitView),
    Enum(EnumView),
    Other,
}

/// The plain values of a parsed node.
pub open spec fn node_view(n: ParsedNode) -> NodeView {
    match n {
        ParsedNode::Function(f) => NodeView::Function(function_view(f)),
        ParsedNode::Struct(s) => NodeView::Struct(struct_view(s)),
        ParsedNode::Trait(t) => NodeView::Trait(trait_view(t)),
        ParsedNode::Enum(e) => NodeView::Enum(enum_view(e)),
        _ => NodeView::Other,
    }
}

/// Parsed nodes as plain values.
pub open spec fn nodes_view(ns: Seq<ParsedNode>) -> Seq<NodeView> {
    ns.map_values(|n: ParsedNode| node_view(n))
}

/// An extracted relation as plain values: a call (caller, callee id, call
/// type), a containment (container, contained), or another relation.
pub enum EdgeView {
    Calls(Seq<char>, Seq<char>, CallType),
    Contains(Seq<char>, Seq<char>),
    Other,
}

/// The plain values of a parsed edge. Calls are made unconditional, outside
/// loops and without positions; containments are primary and unordered.
pub open spec fn edge_view(e: ParsedEdge) -> EdgeView {
    match e {
        ParsedEdge::Calls(c) => if c.line is None && c.column is None && !c.is_conditional
            && !c.is_in_loop && c.call_count is None {
            EdgeView::Calls(c.from@, c.to@, c.call_type)
        } else {
            EdgeView::Other
        },
        ParsedEdge::Contains(c) => if c.order is None && c.is_primary {
            EdgeView::Contains(c.from@, c.to@)
        } else {
            EdgeView::Other
        },
        _ => EdgeView::Other,
    }
}

/// Parsed edges as plain values.
pub open spec fn edges_view(es: Seq<ParsedEdge>) -> Seq<EdgeView> {
    es.map_values(|e: ParsedEdge| edge_view(e))
}

/// What a walk over a syntax tree adds to a parse result: entities and
/// relations, each in the order they are added.
pub struct Extraction {
    pub nodes: Seq<NodeView>,
    pub edges: Seq<EdgeView>,
}

/// Nothing extracted.
pub open spec fn nothing() -> Extraction {
    Extraction { nodes: Seq::empty(), edges: Seq::empty() }
}

/// What one walk adds followed by what another adds.
pub open spec fn then(a: Extraction, b: Extraction) -> Extraction {
    Extraction { nodes: a.nodes + b.nodes, edges: a.edges + b.edges }
}

/// Whether a parse result's entities and relations are those of another
/// followed by an extraction, with its warnings and file unchanged.
pub open spec fn extended_by(after: ParseResult, before: ParseResult, x: Extraction) -> bool {
    &&& nodes_view(after.nodes@) == nodes_view(before.nodes@) + x.nodes
    &&& edges_view(after.edges@) == edges_view(before.edges@) + x.edges
    &&& after.warnings@ == before.warnings@
    &&& after.file_path@ == before.file_path@
}

/// Extending by what two walks add in turn is extending by both.
pub proof fn lemma_extended_then(a: ParseResult, b: ParseResult, c: ParseResult, x: Extraction, y: Extraction)
    requires
        extended_by(b, a, x),
        extended_by(c, b, y),
    ensures
        extended_by(c, a, then(x, y)),
{
    assert(nodes_view(c.nodes@) =~= nodes_view(a.nodes@) + then(x, y).nodes);
    assert(edges_view(c.edges@) =~= edges_view(a.edges@) + then(x, y).edges);
}

/// A result extends itself by nothing.
pub proof fn lemma_extended_nothing(a: ParseResult)
    ensures
        extended_by(a, a, nothing()),
{
    assert(nodes_view(a.nodes@) =~= nodes_view(a.nodes@) + nothing().nodes);
    assert(edges_view(a.edges@) =~= edges_view(a.edges@) + nothing().edges);
}

/// Adding a node extends a result by its view.
pub proof fn lemma_added_node(a: ParseResult, b: ParseResult, n: ParsedNode)
    requires
        b.nodes@ == a.nodes@.push(n),
        b.edges@ == a.edges@,
        b.warnings@ == a.warnings@,
        b.file_path@ == a.file_path@,
    ensures
        extended_by(b, a, Extraction { nodes: seq![node_view(n)], edges: Seq::empty() }),
{
    assert(nodes_view(b.nodes@) =~= nodes_view(a.nodes@) + seq![node_view(n)]);
    assert(edges_view(b.edges@) =~= edges_view(a.edges@) + Seq::<EdgeView>::empty());
}

/// Adding an edge extends a result by its view.
pub proof fn lemma_added_edge(a: ParseResult, b: ParseResult, e: ParsedEdge)
    requires
        b.edges@ == a.edges@.push(e),
        b.nodes@ == a.nodes@,
        b.warnings@ == a.warnings@,
        b.file_path@ == a.file_path@,
    ensures
        extended_by(b, a, Extraction { nodes: Seq::empty(), edges: seq![edge_view(e)] }),
{
    assert(edges_view(b.edges@) =~= edges_view(a.edges@) + seq![edge_view(e)]);
    assert(nodes_view(b.nodes@) =~= nodes_view(a.nodes@) + Seq::<NodeView>::empty());
}

/// Extending by an extraction is extending by any with the same entities
/// and relations.
pub proof fn lemma_extended_same(after: ParseResult, before: ParseResult, x: Extraction, y: Extraction)
    requires
        extended_by(after, before, x),
        x.nodes =~= y.nodes,
        x.edges =~= y.edges,
    ensures
        extended_by(after, before, y),
{
}

/// A fresh result for a file is the empty result extended by an
/// extraction exactly when its entities and relations are those of the
/// extraction.
pub open spec fn result_is(r: ParseResult, path: Seq<char>, x: Extraction) -> bool {
    &&& r.file_path@ == path
    &&& r.warnings@.len() == 0
    &&& nodes_view(r.nodes@) == x.nodes
    &&& edges_view(r.edges@) == x.edges
}

/// An empty result extended by an extraction is that extraction.
pub proof fn lemma_fresh_extended(before: ParseResult, after: ParseResult, x: Extraction)
    requires
        before.nodes@.len() == 0,
        before.edges@.len() == 0,
        before.warnings@.len() == 0,
        extended_by(after, before, x),
    ensures
        result_is(after, before.file_path@, x),
{
    assert(nodes_view(before.nodes@) =~= Seq::<NodeView>::empty());
    assert(edges_view(before.edges@) =~= Seq::<EdgeView>::empty());
    assert(nodes_view(after.nodes@) =~= x.nodes);
    assert(edges_view(after.edges@) =~= x.edges);
}

} // verus!
