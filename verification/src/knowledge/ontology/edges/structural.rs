use vstd::prelude::*;

use crate::text::owned;

verus! {

/// A CONTAINS B: a parent entity contains a child entity (file contains function, module contains struct).
#[derive(Debug, Clone)]
pub struct ContainsEdge {
    /// Source node ID (parent)
    pub from: String,
    /// Target node ID (child)
    pub to: String,
    /// Order within parent (for maintaining source order)
    pub order: Option<u32>,
    /// Whether this is the primary container
    pub is_primary: bool,
}
impl ContainsEdge {
    /// Creates a primary containment edge with no order.
    pub fn new(from: &str, to: &str) -> (r: Self)
        ensures
            r.from@ == from@,
            r.to@ == to@,
            r.order is None,
            r.is_primary,
    {
        ContainsEdge {
            from: owned(from),
            to: owned(to),
            order: None,
            is_primary: true,
        }
    }

    /// Sets the order within the parent.
    pub fn with_order(self, order: u32) -> (r: Self)
        ensures
            r == (ContainsEdge { order: r.order, ..self }),
            r.order == Some(order),
    {
        let mut s = self;
        s.order = Some(order);
        s
    }
}

/// Type of membership.
#[derive(Debug, Clone, Copy, PartialEq, Eq, Structural)]
pub enum MembershipType {
    /// Defined directly in parent
    Direct,
    /// Re-exported from parent
    Reexport,
    /// Nested within parent
    Nested,
}

impl Default for MembershipType {
    fn default() -> (r: MembershipType)
        ensures
            r == MembershipType::Direct,
    {
        MembershipType::Direct
    }
}
/// A BELONGS_TO B: a child entity belongs to a parent entity (inverse of CONTAINS).
#[derive(Debug, Clone)]
pub struct BelongsToEdge {
    /// Source node ID (child)
    pub from: String,
    /// Target node ID (parent)
    pub to: String,
    /// Membership type
    pub membership: MembershipType,
}
impl BelongsToEdge {
    /// Creates a direct membership edge.
    pub fn new(from: &str, to: &str) -> (r: Self)
        ensures
            r.from@ == from@,
            r.to@ == to@,
            r.membership == MembershipType::Direct,
    {
        BelongsToEdge {
            from: owned(from),
            to: owned(to),
            membership: MembershipType::Direct,
        }
    }
}

/// A IMPORTS B: A imports or uses B.
#[derive(Debug, Clone)]
pub struct ImportsEdge {
    /// Source node ID (importer)
    pub from: String,
    /// Target node ID (imported)
    pub to: String,
    /// Import alias (if renamed)
    pub alias: Option<String>,
    /// Whether this is a wildcard import (use foo::*)
    pub is_wildcard: bool,
    /// Specific items imported (empty = all or default)
    pub items: Vec<String>,
    /// Line number of import statement
    pub line: Option<u32>,
}
impl ImportsEdge {
    /// Creates a plain import edge: no alias, no items, no line.
    pub fn new(from: &str, to: &str) -> (r: Self)
        ensures
            r.from@ == from@,
            r.to@ == to@,
            r.alias is None,
            !r.is_wildcard,
            r.items@.len() == 0,
            r.line is None,
    {
        ImportsEdge {
            from: owned(from),
            to: owned(to),
            alias: None,
            is_wildcard: false,
            items: Vec::new(),
            line: None,
        }
    }

    /// Sets the import alias.
    pub fn with_alias(self, alias: &str) -> (r: Self)
        ensures
            r == (ImportsEdge { alias: r.alias, ..self }),
            r.alias matches Some(a) && a@ == alias@,
    {
        let mut s = self;
        s.alias = Some(owned(alias));
        s
    }

    /// Sets the specific items imported.
    pub fn with_items(self, items: Vec<String>) -> (r: Self)
        ensures
            r == (ImportsEdge { items: r.items, ..self }),
            r.items == items,
    {
        let mut s = self;
        s.items = items;
        s
    }
}

/// Visibility of an export.
#[derive(Debug, Clone, Copy, PartialEq, Eq, Structural)]
pub enum ExportVisibility {
    /// Visible everywhere
    Public,
    /// Visible within the crate
    Crate,
    /// Visible in the parent module
    Super,
    /// Visible within a given path
    Restricted,
}

impl Default for ExportVisibility {
    fn default() -> (r: ExportVisibility)
        ensures
            r == ExportVisibility::Public,
    {
        ExportVisibility::Public
    }
}
/// A EXPORTS B: A makes B publicly available.
#[derive(Debug, Clone)]
pub struct ExportsEdge {
    /// Source node ID (exporter)
    pub from: String,
    /// Target node ID (exported)
    pub to: String,
    /// Export name (may differ from original name)
    pub export_name: Option<String>,
    /// Visibility level of export
    pub visibility: ExportVisibility,
    /// Whether this is a re-export
    pub is_reexport: bool,
}
impl ExportsEdge {
    /// Creates a public, non-re-export edge without an export name.
    pub fn new(from: &str, to: &str) -> (r: Self)
        ensures
            r.from@ == from@,
            r.to@ == to@,
            r.export_name is None,
            r.visibility == ExportVisibility::Public,
            !r.is_reexport,
    {
        ExportsEdge {
            from: owned(from),
            to: owned(to),
            export_name: None,
            visibility: ExportVisibility::Public,
            is_reexport: false,
        }
    }
}

/// Type of dependency.
#[derive(Debug, Clone, Copy, PartialEq, Eq, Structural)]
pub enum DependencyType {
    /// Runtime dependency
    Runtime,
    /// Development/test dependency
    Dev,
    /// Build-time dependency
    Build,
    /// Peer dependency (npm)
    Peer,
    /// Optional dependency
    Optional,
}

impl Default for DependencyType {
    fn default() -> (r: DependencyType)
        ensures
            r == DependencyType::Runtime,
    {
        DependencyType::Runtime
    }
}
/// A DEPENDS_ON B: A requires B to function.
#[derive(Debug, Clone)]
pub struct DependsOnEdge {
    /// Source node ID (dependent)
    pub from: String,
    /// Target node ID (dependency)
    pub to: String,
    /// Type of dependency
    pub dependency_type: DependencyType,
    /// Version constraint (for packages)
    pub version_constraint: Option<String>,
    /// Whether this is optional
    pub is_optional: bool,
    /// Features required (for Rust crates)
    pub features: Vec<String>,
}
impl DependsOnEdge {
    /// Creates a required runtime dependency without version or features.
    pub fn new(from: &str, to: &str) -> (r: Self)
        ensures
            r.from@ == from@,
            r.to@ == to@,
            r.dependency_type == DependencyType::Runtime,
            r.version_constraint is None,
            !r.is_optional,
            r.features@.len() == 0,
    {
        DependsOnEdge {
            from: owned(from),
            to: owned(to),
            dependency_type: DependencyType::Runtime,
            version_constraint: None,
            is_optional: false,
            features: Vec::new(),
        }
    }

    /// Sets the version constraint.
    pub fn with_version(self, version: &str) -> (r: Self)
        ensures
            r == (DependsOnEdge { version_constraint: r.version_constraint, ..self }),
            r.version_constraint matches Some(v) && v@ == version@,
    {
        let mut s = self;
        s.version_constraint = Some(owned(version));
        s
    }

    /// Marks this as a development dependency.
    pub fn dev(self) -> (r: Self)
        ensures
            r == (DependsOnEdge { dependency_type: r.dependency_type, ..self }),
            r.dependency_type == DependencyType::Dev,
    {
        let mut s = self;
        s.dependency_type = DependencyType::Dev;
        s
    }
}

} // verus!
