//! Knowledge graph ontology: the semantic schema for the code knowledge
//! graph, with node types (`nodes`) and relationship types (`edges`).

pub mod edges;
pub mod nodes;

use vstd::prelude::*;

verus! {

/// Interface shared by node types of the knowledge graph.
pub trait Node {
    /// The table name in the store for this node type.
    fn table_name() -> &'static str;

    /// Human-readable type name for display.
    fn kind_name(&self) -> &'static str;

    /// Unique identifier within the graph.
    fn node_id(&self) -> Option<String>;
}

/// Interface shared by edge types of the knowledge graph.
pub trait Edge {
    /// The table name in the store for this edge type.
    fn table_name() -> &'static str;

    /// Human-readable relationship name for display.
    fn relation_name(&self) -> &'static str;
}

/// Categories of nodes for filtering and organization.
#[derive(Debug, Clone, Copy, PartialEq, Eq, Structural)]
pub enum NodeCategory {
    /// Code entities (functions, structs, traits)
    Code,
    /// API entities (endpoints, schemas)
    Api,
    /// Structural entities (files, modules)
    Structure,
    /// Test entities (test cases, suites)
    Test,
}

/// Categories of edges for filtering and organization.
#[derive(Debug, Clone, Copy, PartialEq, Eq, Structural)]
pub enum EdgeCategory {
    /// Structural relationships (contains, belongs_to)
    Structure,
    /// Behavioral relationships (calls, returns)
    Behavioral,
    /// Type system relationships (implements, extends)
    TypeSystem,
    /// API relationships (exposes, maps_to)
    Api,
}

} // verus!
