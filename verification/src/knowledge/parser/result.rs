//! Parse results: the entities and relations extracted from one source file.

use vstd::prelude::*;

use crate::knowledge::ontology::edges::{
    CallsEdge, ContainsEdge, ExtendsEdge, HasFieldEdge, ImplementsEdge, ImportsEdge,
    ReturnsTypeEdge, UsesTypeEdge,
};
use crate::knowledge::ontology::nodes::{
    opt_str, opt_view, ConstantEntity, EnumEntity, FunctionEntity, ImplEntity, StructEntity,
    TraitEntity,
};
use crate::text::{owned, push_decimal, decimal};

verus! {

/// Result of parsing a source file: extracted nodes (entities), edges
/// (relations) and non-fatal warnings.
#[derive(Debug)]
pub struct ParseResult {
    /// File path that was parsed.
    pub file_path: String,
    /// Extracted nodes (entities).
    pub nodes: Vec<ParsedNode>,
    /// Extracted edges (relations).
    pub edges: Vec<ParsedEdge>,
    /// Parse warnings (non-fatal issues).
    pub warnings: Vec<String>,
}

/// A parsed node (entity) from the source code.
#[derive(Debug, Clone)]
pub enum ParsedNode {
    /// A function entity
    Function(FunctionEntity),
    /// A struct entity
    Struct(StructEntity),
    /// A trait entity
    Trait(TraitEntity),
    /// A impl entity
    Impl(ImplEntity),
    /// A enum entity
    Enum(EnumEntity),
    /// A constant entity
    Constant(ConstantEntity),
}

/// A parsed edge (relation) from the source code.
#[derive(Debug, Clone)]
pub enum ParsedEdge {
    /// A Calls relation
    Calls(CallsEdge),
    /// A Contains relation
    Contains(ContainsEdge),
    /// A Implements relation
    Implements(ImplementsEdge),
    /// A Extends relation
    Extends(ExtendsEdge),
    /// A UsesType relation
    UsesType(UsesTypeEdge),
    /// A ReturnsType relation
    ReturnsType(ReturnsTypeEdge),
    /// A HasField relation
    HasField(HasFieldEdge),
    /// A Imports relation
    Imports(ImportsEdge),
}

/// Statistics about a parse result.
#[derive(Debug, Clone, Copy, PartialEq, Eq, Structural)]
pub struct ParseStats {
    /// Number of functions
    pub functions: usize,
    /// Number of structs
    pub structs: usize,
    /// Number of traits
    pub traits: usize,
    /// Number of impls
    pub impls: usize,
    /// Number of enums
    pub enums: usize,
    /// Number of constants
    pub constants: usize,
    /// Number of calls
    pub calls: usize,
    /// Number of contains
    pub contains: usize,
    /// Number of implements
    pub implements: usize,
    /// Number of extends
    pub extends: usize,
    /// Number of uses type
    pub uses_type: usize,
    /// Number of returns type
    pub returns_type: usize,
    /// Number of has field
    pub has_field: usize,
    /// Number of imports
    pub imports: usize,
    /// Number of warnings
    pub warnings: usize,
}

/// Number of nodes of `ns` satisfying `f`.
pub open spec fn count_nodes(ns: Seq<ParsedNode>, f: spec_fn(ParsedNode) -> bool) -> nat
    decreases ns.len(),
{
    if ns.len() == 0 {
        0
    } else {
        count_nodes(ns.drop_last(), f) + if f(ns.last()) { 1nat } else { 0nat }
    }
}

/// Number of edges of `es` satisfying `f`.
pub open spec fn count_edges(es: Seq<ParsedEdge>, f: spec_fn(ParsedEdge) -> bool) -> nat
    decreases es.len(),
{
    if es.len() == 0 {
        0
    } else {
        count_edges(es.drop_last(), f) + if f(es.last()) { 1nat } else { 0nat }
    }
}

proof fn lemma_count_nodes_le(ns: Seq<ParsedNode>, f: spec_fn(ParsedNode) -> bool)
    ensures
        count_nodes(ns, f) <= ns.len(),
    decreases ns.len(),
{
    if ns.len() > 0 {
        lemma_count_nodes_le(ns.drop_last(), f);
    }
}

proof fn lemma_count_edges_le(es: Seq<ParsedEdge>, f: spec_fn(ParsedEdge) -> bool)
    ensures
        count_edges(es, f) <= es.len(),
    decreases es.len(),
{
    if es.len() > 0 {
        lemma_count_edges_le(es.drop_last(), f);
    }
}

/// The statistics of a parse result: nodes and edges counted by kind.
pub open spec fn parse_stats(nodes: Seq<ParsedNode>, edges: Seq<ParsedEdge>, warnings: nat) -> ParseStats {
    ParseStats {
        functions: count_nodes(nodes, |n: ParsedNode| n is Function) as usize,
        structs: count_nodes(nodes, |n: ParsedNode| n is Struct) as usize,
        traits: count_nodes(nodes, |n: ParsedNode| n is Trait) as usize,
        impls: count_nodes(nodes, |n: ParsedNode| n is Impl) as usize,
        enums: count_nodes(nodes, |n: ParsedNode| n is Enum) as usize,
        constants: count_nodes(nodes, |n: ParsedNode| n is Constant) as usize,
        calls: count_edges(edges, |e: ParsedEdge| e is Calls) as usize,
        contains: count_edges(edges, |e: ParsedEdge| e is Contains) as usize,
        implements: count_edges(edges, |e: ParsedEdge| e is Implements) as usize,
        extends: count_edges(edges, |e: ParsedEdge| e is Extends) as usize,
        uses_type: count_edges(edges, |e: ParsedEdge| e is UsesType) as usize,
        returns_type: count_edges(edges, |e: ParsedEdge| e is ReturnsType) as usize,
        has_field: count_edges(edges, |e: ParsedEdge| e is HasField) as usize,
        imports: count_edges(edges, |e: ParsedEdge| e is Imports) as usize,
        warnings: warnings as usize,
    }
}

/// The total count of nodes over all kinds.
pub open spec fn total_nodes(s: ParseStats) -> int {
    s.functions + s.structs + s.traits + s.impls + s.enums + s.constants
}

/// The total count of edges over all kinds.
pub open spec fn total_edges(s: ParseStats) -> int {
    s.calls + s.contains + s.implements + s.extends + s.uses_type + s.returns_type + s.has_field
        + s.imports
}

/// Every node is of exactly one kind: the kinds' counts add up to the number of nodes.
pub proof fn lemma_node_counts_partition(ns: Seq<ParsedNode>)
    ensures
        count_nodes(ns, |n: ParsedNode| n is Function) + count_nodes(ns, |n: ParsedNode| n is Struct) + count_nodes(ns, |n: ParsedNode| n is Trait) + count_nodes(ns, |n: ParsedNode| n is Impl) + count_nodes(ns, |n: ParsedNode| n is Enum) + count_nodes(ns, |n: ParsedNode| n is Constant) == ns.len(),
    decreases ns.len(),
{
    if ns.len() > 0 {
        lemma_node_counts_partition(ns.drop_last());
    }
}

/// Every edge is of exactly one kind: the kinds' counts add up to the number of edges.
pub proof fn lemma_edge_counts_partition(es: Seq<ParsedEdge>)
    ensures
        count_edges(es, |e: ParsedEdge| e is Calls) + count_edges(es, |e: ParsedEdge| e is Contains) + count_edges(es, |e: ParsedEdge| e is Implements) + count_edges(es, |e: ParsedEdge| e is Extends) + count_edges(es, |e: ParsedEdge| e is UsesType) + count_edges(es, |e: ParsedEdge| e is ReturnsType) + count_edges(es, |e: ParsedEdge| e is HasField) + count_edges(es, |e: ParsedEdge| e is Imports) == es.len(),
    decreases es.len(),
{
    if es.len() > 0 {
        lemma_edge_counts_partition(es.drop_last());
    }
}

impl ParseResult {
    /// Create a new, empty parse result for the given file.
    pub fn new(file_path: &str) -> (r: Self)
        ensures
            r.file_path@ == file_path@,
            r.nodes@.len() == 0,
            r.edges@.len() == 0,
            r.warnings@.len() == 0,
    {
        ParseResult { file_path: owned(file_path), nodes: Vec::new(), edges: Vec::new(), warnings: Vec::new() }
    }

    /// Adds a function entity.
    pub fn add_function(&mut self, func: FunctionEntity)
        ensures
            final(self).nodes@ == old(self).nodes@.push(ParsedNode::Function(func)),
            final(self).edges@ == old(self).edges@,
            final(self).warnings@ == old(self).warnings@,
            final(self).file_path == old(self).file_path,
    {
        self.nodes.push(ParsedNode::Function(func));
    }

    /// Adds a struct entity.
    pub fn add_struct(&mut self, s: StructEntity)
        ensures
            final(self).nodes@ == old(self).nodes@.push(ParsedNode::Struct(s)),
            final(self).edges@ == old(self).edges@,
            final(self).warnings@ == old(self).warnings@,
            final(self).file_path == old(self).file_path,
    {
        self.nodes.push(ParsedNode::Struct(s));
    }

    /// Adds a trait entity.
    pub fn add_trait(&mut self, t: TraitEntity)
        ensures
            final(self).nodes@ == old(self).nodes@.push(ParsedNode::Trait(t)),
            final(self).edges@ == old(self).edges@,
            final(self).warnings@ == old(self).warnings@,
            final(self).file_path == old(self).file_path,
    {
        self.nodes.push(ParsedNode::Trait(t));
    }

    /// Adds a impl entity.
    pub fn add_impl(&mut self, i: ImplEntity)
        ensures
            final(self).nodes@ == old(self).nodes@.push(ParsedNode::Impl(i)),
            final(self).edges@ == old(self).edges@,
            final(self).warnings@ == old(self).warnings@,
            final(self).file_path == old(self).file_path,
    {
        self.nodes.push(ParsedNode::Impl(i));
    }

    /// Adds a enum entity.
    pub fn add_enum(&mut self, e: EnumEntity)
        ensures
            final(self).nodes@ == old(self).nodes@.push(ParsedNode::Enum(e)),
            final(self).edges@ == old(self).edges@,
            final(self).warnings@ == old(self).warnings@,
            final(self).file_path == old(self).file_path,
    {
        self.nodes.push(ParsedNode::Enum(e));
    }

    /// Adds a constant entity.
    pub fn add_constant(&mut self, c: ConstantEntity)
        ensures
            final(self).nodes@ == old(self).nodes@.push(ParsedNode::Constant(c)),
            final(self).edges@ == old(self).edges@,
            final(self).warnings@ == old(self).warnings@,
            final(self).file_path == old(self).file_path,
    {
        self.nodes.push(ParsedNode::Constant(c));
    }

    /// Adds a Calls edge.
    pub fn add_call(&mut self, edge: CallsEdge)
        ensures
            final(self).edges@ == old(self).edges@.push(ParsedEdge::Calls(edge)),
            final(self).nodes@ == old(self).nodes@,
            final(self).warnings@ == old(self).warnings@,
            final(self).file_path == old(self).file_path,
    {
        self.edges.push(ParsedEdge::Calls(edge));
    }

    /// Adds a Contains edge.
    pub fn add_contains(&mut self, edge: ContainsEdge)
        ensures
            final(self).edges@ == old(self).edges@.push(ParsedEdge::Contains(edge)),
            final(self).nodes@ == old(self).nodes@,
            final(self).warnings@ == old(self).warnings@,
            final(self).file_path == old(self).file_path,
    {
        self.edges.push(ParsedEdge::Contains(edge));
    }

    /// Adds a Implements edge.
    pub fn add_implements(&mut self, edge: ImplementsEdge)
        ensures
            final(self).edges@ == old(self).edges@.push(ParsedEdge::Implements(edge)),
            final(self).nodes@ == old(self).nodes@,
            final(self).warnings@ == old(self).warnings@,
            final(self).file_path == old(self).file_path,
    {
        self.edges.push(ParsedEdge::Implements(edge));
    }

    /// Adds a Extends edge.
    pub fn add_extends(&mut self, edge: ExtendsEdge)
        ensures
            final(self).edges@ == old(self).edges@.push(ParsedEdge::Extends(edge)),
            final(self).nodes@ == old(self).nodes@,
            final(self).warnings@ == old(self).warnings@,
            final(self).file_path == old(self).file_path,
    {
        self.edges.push(ParsedEdge::Extends(edge));
    }

    /// Adds a UsesType edge.
    pub fn add_uses_type(&mut self, edge: UsesTypeEdge)
        ensures
            final(self).edges@ == old(self).edges@.push(ParsedEdge::UsesType(edge)),
            final(self).nodes@ == old(self).nodes@,
            final(self).warnings@ == old(self).warnings@,
            final(self).file_path == old(self).file_path,
    {
        self.edges.push(ParsedEdge::UsesType(edge));
    }

    /// Adds a ReturnsType edge.
    pub fn add_returns_type(&mut self, edge: ReturnsTypeEdge)
        ensures
            final(self).edges@ == old(self).edges@.push(ParsedEdge::ReturnsType(edge)),
            final(self).nodes@ == old(self).nodes@,
            final(self).warnings@ == old(self).warnings@,
            final(self).file_path == old(self).file_path,
    {
        self.edges.push(ParsedEdge::ReturnsType(edge));
    }

    /// Adds a HasField edge.
    pub fn add_has_field(&mut self, edge: HasFieldEdge)
        ensures
            final(self).edges@ == old(self).edges@.push(ParsedEdge::HasField(edge)),
            final(self).nodes@ == old(self).nodes@,
            final(self).warnings@ == old(self).warnings@,
            final(self).file_path == old(self).file_path,
    {
        self.edges.push(ParsedEdge::HasField(edge));
    }

    /// Adds a Imports edge.
    pub fn add_imports(&mut self, edge: ImportsEdge)
        ensures
            final(self).edges@ == old(self).edges@.push(ParsedEdge::Imports(edge)),
            final(self).nodes@ == old(self).nodes@,
            final(self).warnings@ == old(self).warnings@,
            final(self).file_path == old(self).file_path,
    {
        self.edges.push(ParsedEdge::Imports(edge));
    }

    /// Adds a parse warning.
    pub fn warn(&mut self, message: &str)
        ensures
            final(self).warnings@.len() == old(self).warnings@.len() + 1,
            final(self).warnings@.drop_last() == old(self).warnings@,
            final(self).warnings@.last()@ == message@,
            final(self).nodes@ == old(self).nodes@,
            final(self).edges@ == old(self).edges@,
            final(self).file_path == old(self).file_path,
    {
        self.warnings.push(owned(message));
        assert(self.warnings@.drop_last() =~= old(self).warnings@);
    }

    /// Counts the nodes and edges of each kind, and the warnings.
    pub fn stats(&self) -> (r: ParseStats)
        ensures
            r == parse_stats(self.nodes@, self.edges@, self.warnings@.len()),
            total_nodes(r) == self.nodes@.len(),
            total_edges(r) == self.edges@.len(),
    {
        let mut functions: usize = 0;
        let mut structs: usize = 0;
        let mut traits: usize = 0;
        let mut impls: usize = 0;
        let mut enums: usize = 0;
        let mut constants: usize = 0;
        let mut calls: usize = 0;
        let mut contains: usize = 0;
        let mut implements: usize = 0;
        let mut extends: usize = 0;
        let mut uses_type: usize = 0;
        let mut returns_type: usize = 0;
        let mut has_field: usize = 0;
        let mut imports: usize = 0;
        let mut i: usize = 0;
        while i < self.nodes.len()
            invariant
                i <= self.nodes@.len(),
                functions == count_nodes(self.nodes@.take(i as int), |n: ParsedNode| n is Function),
                structs == count_nodes(self.nodes@.take(i as int), |n: ParsedNode| n is Struct),
                traits == count_nodes(self.nodes@.take(i as int), |n: ParsedNode| n is Trait),
                impls == count_nodes(self.nodes@.take(i as int), |n: ParsedNode| n is Impl),
                enums == count_nodes(self.nodes@.take(i as int), |n: ParsedNode| n is Enum),
                constants == count_nodes(self.nodes@.take(i as int), |n: ParsedNode| n is Constant),
            decreases self.nodes.len() - i,
        {
            assert(self.nodes@.take(i + 1).drop_last() =~= self.nodes@.take(i as int));
            proof {
                lemma_count_nodes_le(self.nodes@.take(i as int), |n: ParsedNode| n is Function);
                lemma_count_nodes_le(self.nodes@.take(i as int), |n: ParsedNode| n is Struct);
                lemma_count_nodes_le(self.nodes@.take(i as int), |n: ParsedNode| n is Trait);
                lemma_count_nodes_le(self.nodes@.take(i as int), |n: ParsedNode| n is Impl);
                lemma_count_nodes_le(self.nodes@.take(i as int), |n: ParsedNode| n is Enum);
                lemma_count_nodes_le(self.nodes@.take(i as int), |n: ParsedNode| n is Constant);
            }
            match &self.nodes[i] {
                ParsedNode::Function(_) => functions = functions + 1,
                ParsedNode::Struct(_) => structs = structs + 1,
                ParsedNode::Trait(_) => traits = traits + 1,
                ParsedNode::Impl(_) => impls = impls + 1,
                ParsedNode::Enum(_) => enums = enums + 1,
                ParsedNode::Constant(_) => constants = constants + 1,
            }
            i = i + 1;
        }
        assert(self.nodes@.take(i as int) =~= self.nodes@);
        let mut j: usize = 0;
        while j < self.edges.len()
            invariant
                j <= self.edges@.len(),
                calls == count_edges(self.edges@.take(j as int), |e: ParsedEdge| e is Calls),
                contains == count_edges(self.edges@.take(j as int), |e: ParsedEdge| e is Contains),
                implements == count_edges(self.edges@.take(j as int), |e: ParsedEdge| e is Implements),
                extends == count_edges(self.edges@.take(j as int), |e: ParsedEdge| e is Extends),
                uses_type == count_edges(self.edges@.take(j as int), |e: ParsedEdge| e is UsesType),
                returns_type == count_edges(self.edges@.take(j as int), |e: ParsedEdge| e is ReturnsType),
                has_field == count_edges(self.edges@.take(j as int), |e: ParsedEdge| e is HasField),
                imports == count_edges(self.edges@.take(j as int), |e: ParsedEdge| e is Imports),
            decreases self.edges.len() - j,
        {
            assert(self.edges@.take(j + 1).drop_last() =~= self.edges@.take(j as int));
            proof {
                lemma_count_edges_le(self.edges@.take(j as int), |e: ParsedEdge| e is Calls);
                lemma_count_edges_le(self.edges@.take(j as int), |e: ParsedEdge| e is Contains);
                lemma_count_edges_le(self.edges@.take(j as int), |e: ParsedEdge| e is Implements);
                lemma_count_edges_le(self.edges@.take(j as int), |e: ParsedEdge| e is Extends);
                lemma_count_edges_le(self.edges@.take(j as int), |e: ParsedEdge| e is UsesType);
                lemma_count_edges_le(self.edges@.take(j as int), |e: ParsedEdge| e is ReturnsType);
                lemma_count_edges_le(self.edges@.take(j as int), |e: ParsedEdge| e is HasField);
                lemma_count_edges_le(self.edges@.take(j as int), |e: ParsedEdge| e is Imports);
            }
            match &self.edges[j] {
                ParsedEdge::Calls(_) => calls = calls + 1,
                ParsedEdge::Contains(_) => contains = contains + 1,
                ParsedEdge::Implements(_) => implements = implements + 1,
                ParsedEdge::Extends(_) => extends = extends + 1,
                ParsedEdge::UsesType(_) => uses_type = uses_type + 1,
                ParsedEdge::ReturnsType(_) => returns_type = returns_type + 1,
                ParsedEdge::HasField(_) => has_field = has_field + 1,
                ParsedEdge::Imports(_) => imports = imports + 1,
            }
            j = j + 1;
        }
        assert(self.edges@.take(j as int) =~= self.edges@);
        proof {
            lemma_node_counts_partition(self.nodes@);
            lemma_edge_counts_partition(self.edges@);
        }
        ParseStats {
            functions,
            structs,
            traits,
            impls,
            enums,
            constants,
            calls,
            contains,
            implements,
            extends,
            uses_type,
            returns_type,
            has_field,
            imports,
            warnings: self.warnings.len(),
        }
    }
}

/// The identifier of a parsed node.
pub open spec fn parsed_node_id(n: ParsedNode) -> Option<Seq<char>> {
    match n {
        ParsedNode::Function(x) => opt_view(x.id),
        ParsedNode::Struct(x) => opt_view(x.id),
        ParsedNode::Trait(x) => opt_view(x.id),
        ParsedNode::Impl(x) => opt_view(x.id),
        ParsedNode::Enum(x) => opt_view(x.id),
        ParsedNode::Constant(x) => opt_view(x.id),
    }
}

/// The name of a parsed node (the target type for impls).
pub open spec fn parsed_node_name(n: ParsedNode) -> Seq<char> {
    match n {
        ParsedNode::Function(x) => x.name@,
        ParsedNode::Struct(x) => x.name@,
        ParsedNode::Trait(x) => x.name@,
        ParsedNode::Impl(x) => x.target_type@,
        ParsedNode::Enum(x) => x.name@,
        ParsedNode::Constant(x) => x.name@,
    }
}

/// The file of a parsed node.
pub open spec fn parsed_node_file(n: ParsedNode) -> Seq<char> {
    match n {
        ParsedNode::Function(x) => x.file_path@,
        ParsedNode::Struct(x) => x.file_path@,
        ParsedNode::Trait(x) => x.file_path@,
        ParsedNode::Impl(x) => x.file_path@,
        ParsedNode::Enum(x) => x.file_path@,
        ParsedNode::Constant(x) => x.file_path@,
    }
}

/// The start line of a parsed node (the line for constants).
pub open spec fn parsed_node_start(n: ParsedNode) -> u32 {
    match n {
        ParsedNode::Function(x) => x.start_line,
        ParsedNode::Struct(x) => x.start_line,
        ParsedNode::Trait(x) => x.start_line,
        ParsedNode::Impl(x) => x.start_line,
        ParsedNode::Enum(x) => x.start_line,
        ParsedNode::Constant(x) => x.line,
    }
}

/// The end line of a parsed node (the line for constants).
pub open spec fn parsed_node_end(n: ParsedNode) -> u32 {
    match n {
        ParsedNode::Function(x) => x.end_line,
        ParsedNode::Struct(x) => x.end_line,
        ParsedNode::Trait(x) => x.end_line,
        ParsedNode::Impl(x) => x.end_line,
        ParsedNode::Enum(x) => x.end_line,
        ParsedNode::Constant(x) => x.line,
    }
}

/// The kind name of a parsed node.
pub open spec fn parsed_node_kind(n: ParsedNode) -> Seq<char> {
    match n {
        ParsedNode::Function(x) => "function"@,
        ParsedNode::Struct(x) => "struct"@,
        ParsedNode::Trait(x) => "trait"@,
        ParsedNode::Impl(x) => "impl"@,
        ParsedNode::Enum(x) => "enum"@,
        ParsedNode::Constant(x) => "constant"@,
    }
}

impl ParsedNode {
    /// Get the entity ID.
    pub fn id(&self) -> (r: Option<&str>)
        ensures
            match r {
                Some(s) => parsed_node_id(*self) == Some(s@),
                None => parsed_node_id(*self) is None,
            },
    {
        match self {
            ParsedNode::Function(x) => opt_str(&x.id),
            ParsedNode::Struct(x) => opt_str(&x.id),
            ParsedNode::Trait(x) => opt_str(&x.id),
            ParsedNode::Impl(x) => opt_str(&x.id),
            ParsedNode::Enum(x) => opt_str(&x.id),
            ParsedNode::Constant(x) => opt_str(&x.id),
        }
    }

    /// Get the entity name.
    pub fn name(&self) -> (r: &str)
        ensures
            r@ == parsed_node_name(*self),
    {
        match self {
            ParsedNode::Function(x) => x.name.as_str(),
            ParsedNode::Struct(x) => x.name.as_str(),
            ParsedNode::Trait(x) => x.name.as_str(),
            ParsedNode::Impl(x) => x.target_type.as_str(),
            ParsedNode::Enum(x) => x.name.as_str(),
            ParsedNode::Constant(x) => x.name.as_str(),
        }
    }

    /// Get the file path.
    pub fn file_path(&self) -> (r: &str)
        ensures
            r@ == parsed_node_file(*self),
    {
        match self {
            ParsedNode::Function(x) => x.file_path.as_str(),
            ParsedNode::Struct(x) => x.file_path.as_str(),
            ParsedNode::Trait(x) => x.file_path.as_str(),
            ParsedNode::Impl(x) => x.file_path.as_str(),
            ParsedNode::Enum(x) => x.file_path.as_str(),
            ParsedNode::Constant(x) => x.file_path.as_str(),
        }
    }

    /// Get the start line.
    pub fn start_line(&self) -> (r: u32)
        ensures
            r == parsed_node_start(*self),
    {
        match self {
            ParsedNode::Function(x) => x.start_line,
            ParsedNode::Struct(x) => x.start_line,
            ParsedNode::Trait(x) => x.start_line,
            ParsedNode::Impl(x) => x.start_line,
            ParsedNode::Enum(x) => x.start_line,
            ParsedNode::Constant(x) => x.line,
        }
    }

    /// Get the end line.
    pub fn end_line(&self) -> (r: u32)
        ensures
            r == parsed_node_end(*self),
    {
        match self {
            ParsedNode::Function(x) => x.end_line,
            ParsedNode::Struct(x) => x.end_line,
            ParsedNode::Trait(x) => x.end_line,
            ParsedNode::Impl(x) => x.end_line,
            ParsedNode::Enum(x) => x.end_line,
            ParsedNode::Constant(x) => x.line,
        }
    }

    /// Get the node kind name.
    pub fn kind_name(&self) -> (r: &'static str)
        ensures
            r@ == parsed_node_kind(*self),
    {
        match self {
            ParsedNode::Function(_) => "function",
            ParsedNode::Struct(_) => "struct",
            ParsedNode::Trait(_) => "trait",
            ParsedNode::Impl(_) => "impl",
            ParsedNode::Enum(_) => "enum",
            ParsedNode::Constant(_) => "constant",
        }
    }
}

/// The source ID of a parsed edge.
pub open spec fn parsed_edge_from(e: ParsedEdge) -> Seq<char> {
    match e {
        ParsedEdge::Calls(x) => x.from@,
        ParsedEdge::Contains(x) => x.from@,
        ParsedEdge::Implements(x) => x.from@,
        ParsedEdge::Extends(x) => x.from@,
        ParsedEdge::UsesType(x) => x.from@,
        ParsedEdge::ReturnsType(x) => x.from@,
        ParsedEdge::HasField(x) => x.from@,
        ParsedEdge::Imports(x) => x.from@,
    }
}

/// The target ID of a parsed edge.
pub open spec fn parsed_edge_to(e: ParsedEdge) -> Seq<char> {
    match e {
        ParsedEdge::Calls(x) => x.to@,
        ParsedEdge::Contains(x) => x.to@,
        ParsedEdge::Implements(x) => x.to@,
        ParsedEdge::Extends(x) => x.to@,
        ParsedEdge::UsesType(x) => x.to@,
        ParsedEdge::ReturnsType(x) => x.to@,
        ParsedEdge::HasField(x) => x.to@,
        ParsedEdge::Imports(x) => x.to@,
    }
}

/// The kind name of a parsed edge.
pub open spec fn parsed_edge_kind(e: ParsedEdge) -> Seq<char> {
    match e {
        ParsedEdge::Calls(x) => "calls"@,
        ParsedEdge::Contains(x) => "contains"@,
        ParsedEdge::Implements(x) => "implements"@,
        ParsedEdge::Extends(x) => "extends"@,
        ParsedEdge::UsesType(x) => "uses_type"@,
        ParsedEdge::ReturnsType(x) => "returns_type"@,
        ParsedEdge::HasField(x) => "has_field"@,
        ParsedEdge::Imports(x) => "imports"@,
    }
}

impl ParsedEdge {
    /// Get the source node ID.
    pub fn from(&self) -> (r: &str)
        ensures
            r@ == parsed_edge_from(*self),
    {
        match self {
            ParsedEdge::Calls(x) => x.from.as_str(),
            ParsedEdge::Contains(x) => x.from.as_str(),
            ParsedEdge::Implements(x) => x.from.as_str(),
            ParsedEdge::Extends(x) => x.from.as_str(),
            ParsedEdge::UsesType(x) => x.from.as_str(),
            ParsedEdge::ReturnsType(x) => x.from.as_str(),
            ParsedEdge::HasField(x) => x.from.as_str(),
            ParsedEdge::Imports(x) => x.from.as_str(),
        }
    }

    /// Get the target node ID.
    pub fn to(&self) -> (r: &str)
        ensures
            r@ == parsed_edge_to(*self),
    {
        match self {
            ParsedEdge::Calls(x) => x.to.as_str(),
            ParsedEdge::Contains(x) => x.to.as_str(),
            ParsedEdge::Implements(x) => x.to.as_str(),
            ParsedEdge::Extends(x) => x.to.as_str(),
            ParsedEdge::UsesType(x) => x.to.as_str(),
            ParsedEdge::ReturnsType(x) => x.to.as_str(),
            ParsedEdge::HasField(x) => x.to.as_str(),
            ParsedEdge::Imports(x) => x.to.as_str(),
        }
    }

    /// Get the edge kind name.
    pub fn kind_name(&self) -> (r: &'static str)
        ensures
            r@ == parsed_edge_kind(*self),
    {
        match self {
            ParsedEdge::Calls(_) => "calls",
            ParsedEdge::Contains(_) => "contains",
            ParsedEdge::Implements(_) => "implements",
            ParsedEdge::Extends(_) => "extends",
            ParsedEdge::UsesType(_) => "uses_type",
            ParsedEdge::ReturnsType(_) => "returns_type",
            ParsedEdge::HasField(_) => "has_field",
            ParsedEdge::Imports(_) => "imports",
        }
    }
}

/// The multi-line report of parse statistics.
pub open spec fn stats_text(st: ParseStats) -> Seq<char> {
    "Nodes:\n"@
        + "  Functions: "@ + decimal(st.functions as nat) + "\n"@
        + "  Structs:   "@ + decimal(st.structs as nat) + "\n"@
        + "  Traits:    "@ + decimal(st.traits as nat) + "\n"@
        + "  Impls:     "@ + decimal(st.impls as nat) + "\n"@
        + "  Enums:     "@ + decimal(st.enums as nat) + "\n"@
        + "  Constants: "@ + decimal(st.constants as nat) + "\n"@
        + "Edges:\n"@
        + "  Calls:     "@ + decimal(st.calls as nat) + "\n"@
        + "  Contains:  "@ + decimal(st.contains as nat) + "\n"@
        + "  Implements:"@ + decimal(st.implements as nat) + "\n"@
        + "  UsesType:  "@ + decimal(st.uses_type as nat) + "\n"@
        + if st.warnings > 0 {
            "Warnings: "@ + decimal(st.warnings as nat) + "\n"@
        } else {
            Seq::empty()
        }
}

impl ParseStats {
    /// The multi-line report of these statistics (its `Display` form).
    pub fn to_display_string(&self) -> (r: String)
        ensures
            r@ == stats_text(*self),
    {
        let mut s = String::new();
        s.append("Nodes:\n");
        s.append("  Functions: ");
        push_decimal(&mut s, self.functions);
        s.append("\n");
        s.append("  Structs:   ");
        push_decimal(&mut s, self.structs);
        s.append("\n");
        s.append("  Traits:    ");
        push_decimal(&mut s, self.traits);
        s.append("\n");
        s.append("  Impls:     ");
        push_decimal(&mut s, self.impls);
        s.append("\n");
        s.append("  Enums:     ");
        push_decimal(&mut s, self.enums);
        s.append("\n");
        s.append("  Constants: ");
        push_decimal(&mut s, self.constants);
        s.append("\n");
        s.append("Edges:\n");
        s.append("  Calls:     ");
        push_decimal(&mut s, self.calls);
        s.append("\n");
        s.append("  Contains:  ");
        push_decimal(&mut s, self.contains);
        s.append("\n");
        s.append("  Implements:");
        push_decimal(&mut s, self.implements);
        s.append("\n");
        s.append("  UsesType:  ");
        push_decimal(&mut s, self.uses_type);
        s.append("\n");
        if self.warnings > 0 {
            s.append("Warnings: ");
            push_decimal(&mut s, self.warnings);
            s.append("\n");
        }
        assert(s@ =~= stats_text(*self));
        s
    }
}

} // verus!
