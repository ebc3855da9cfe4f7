//! Edge types (relationships) of the knowledge graph, organised by meaning:
//! structural, behavioral, type system and API relationships.

pub mod api;
pub mod behavioral;
pub mod structural;
pub mod type_system;

use vstd::prelude::*;

use super::EdgeCategory;
pub use api::{ConsumesEdge, ExposesEdge, MappingType, MapsToEdge, ProducesEdge};
pub use behavioral::{
    AccessType, AwaitContext, AwaitsEdge, CallType, CallsEdge, ErrorMechanism, ReadsEdge,
    ReturnType, ReturnsEdge, ThrowsEdge, WriteType, WritesEdge,
};
pub use structural::{
    BelongsToEdge, ContainsEdge, DependencyType, DependsOnEdge, ExportVisibility, ExportsEdge,
    ImportsEdge, MembershipType,
};
pub use type_system::{
    ExtendsEdge, ExtensionType, HasFieldEdge, ImplementsEdge, ReturnsTypeEdge, TypeUsage,
    UsesTypeEdge,
};

verus! {

/// A unified edge type that can represent any relationship in the knowledge graph.
#[derive(Debug, Clone)]
pub enum GraphEdge {
    /// A contains B (file contains function, module contains struct)
    Contains(ContainsEdge),
    /// A belongs to B (function belongs to file)
    BelongsTo(BelongsToEdge),
    /// A imports B (file imports module)
    Imports(ImportsEdge),
    /// A exports B (module exports function)
    Exports(ExportsEdge),
    /// A depends on B (package depends on package)
    DependsOn(DependsOnEdge),
    /// A calls B (function calls function)
    Calls(CallsEdge),
    /// A returns B (function returns type)
    Returns(ReturnsEdge),
    /// A throws B (function throws error)
    Throws(ThrowsEdge),
    /// A awaits B (async function awaits another)
    Awaits(AwaitsEdge),
    /// A reads B (function reads field/variable)
    Reads(ReadsEdge),
    /// A writes B (function writes field/variable)
    Writes(WritesEdge),
    /// A implements B (struct implements trait)
    Implements(ImplementsEdge),
    /// A extends B (trait extends trait, class extends class)
    Extends(ExtendsEdge),
    /// A uses type B (function parameter uses type)
    UsesType(UsesTypeEdge),
    /// A returns type B (function return type)
    ReturnsType(ReturnsTypeEdge),
    /// A has field of type B
    HasField(HasFieldEdge),
    /// A exposes B (function exposes endpoint)
    Exposes(ExposesEdge),
    /// A maps to B (endpoint maps to handler)
    MapsTo(MapsToEdge),
    /// A consumes B (endpoint consumes schema)
    Consumes(ConsumesEdge),
    /// A produces B (endpoint produces schema)
    Produces(ProducesEdge),
    /// A tests B (test case tests function)
    Tests(TestsEdge),
}

/// The category of an edge.
pub open spec fn edge_category(e: GraphEdge) -> EdgeCategory {
    match e {
        GraphEdge::Contains(x) => EdgeCategory::Structure,
        GraphEdge::BelongsTo(x) => EdgeCategory::Structure,
        GraphEdge::Imports(x) => EdgeCategory::Structure,
        GraphEdge::Exports(x) => EdgeCategory::Structure,
        GraphEdge::DependsOn(x) => EdgeCategory::Structure,
        GraphEdge::Calls(x) => EdgeCategory::Behavioral,
        GraphEdge::Returns(x) => EdgeCategory::Behavioral,
        GraphEdge::Throws(x) => EdgeCategory::Behavioral,
        GraphEdge::Awaits(x) => EdgeCategory::Behavioral,
        GraphEdge::Reads(x) => EdgeCategory::Behavioral,
        GraphEdge::Writes(x) => EdgeCategory::Behavioral,
        GraphEdge::Implements(x) => EdgeCategory::TypeSystem,
        GraphEdge::Extends(x) => EdgeCategory::TypeSystem,
        GraphEdge::UsesType(x) => EdgeCategory::TypeSystem,
        GraphEdge::ReturnsType(x) => EdgeCategory::TypeSystem,
        GraphEdge::HasField(x) => EdgeCategory::TypeSystem,
        GraphEdge::Exposes(x) => EdgeCategory::Api,
        GraphEdge::MapsTo(x) => EdgeCategory::Api,
        GraphEdge::Consumes(x) => EdgeCategory::Api,
        GraphEdge::Produces(x) => EdgeCategory::Api,
        GraphEdge::Tests(x) => EdgeCategory::Api,
    }
}

/// The display name of an edge's relationship.
pub open spec fn edge_relation_name(e: GraphEdge) -> Seq<char> {
    match e {
        GraphEdge::Contains(x) => "CONTAINS"@,
        GraphEdge::BelongsTo(x) => "BELONGS_TO"@,
        GraphEdge::Imports(x) => "IMPORTS"@,
        GraphEdge::Exports(x) => "EXPORTS"@,
        GraphEdge::DependsOn(x) => "DEPENDS_ON"@,
        GraphEdge::Calls(x) => "CALLS"@,
        GraphEdge::Returns(x) => "RETURNS"@,
        GraphEdge::Throws(x) => "THROWS"@,
        GraphEdge::Awaits(x) => "AWAITS"@,
        GraphEdge::Reads(x) => "READS"@,
        GraphEdge::Writes(x) => "WRITES"@,
        GraphEdge::Implements(x) => "IMPLEMENTS"@,
        GraphEdge::Extends(x) => "EXTENDS"@,
        GraphEdge::UsesType(x) => "USES_TYPE"@,
        GraphEdge::ReturnsType(x) => "RETURNS_TYPE"@,
        GraphEdge::HasField(x) => "HAS_FIELD"@,
        GraphEdge::Exposes(x) => "EXPOSES"@,
        GraphEdge::MapsTo(x) => "MAPS_TO"@,
        GraphEdge::Consumes(x) => "CONSUMES"@,
        GraphEdge::Produces(x) => "PRODUCES"@,
        GraphEdge::Tests(x) => "TESTS"@,
    }
}

/// The source node ID of an edge.
pub open spec fn edge_from(e: GraphEdge) -> Seq<char> {
    match e {
        GraphEdge::Contains(x) => x.from@,
        GraphEdge::BelongsTo(x) => x.from@,
        GraphEdge::Imports(x) => x.from@,
        GraphEdge::Exports(x) => x.from@,
        GraphEdge::DependsOn(x) => x.from@,
        GraphEdge::Calls(x) => x.from@,
        GraphEdge::Returns(x) => x.from@,
        GraphEdge::Throws(x) => x.from@,
        GraphEdge::Awaits(x) => x.from@,
        GraphEdge::Reads(x) => x.from@,
        GraphEdge::Writes(x) => x.from@,
        GraphEdge::Implements(x) => x.from@,
        GraphEdge::Extends(x) => x.from@,
        GraphEdge::UsesType(x) => x.from@,
        GraphEdge::ReturnsType(x) => x.from@,
        GraphEdge::HasField(x) => x.from@,
        GraphEdge::Exposes(x) => x.from@,
        GraphEdge::MapsTo(x) => x.from@,
        GraphEdge::Consumes(x) => x.from@,
        GraphEdge::Produces(x) => x.from@,
        GraphEdge::Tests(x) => x.from@,
    }
}

/// The target node ID of an edge.
pub open spec fn edge_to(e: GraphEdge) -> Seq<char> {
    match e {
        GraphEdge::Contains(x) => x.to@,
        GraphEdge::BelongsTo(x) => x.to@,
        GraphEdge::Imports(x) => x.to@,
        GraphEdge::Exports(x) => x.to@,
        GraphEdge::DependsOn(x) => x.to@,
        GraphEdge::Calls(x) => x.to@,
        GraphEdge::Returns(x) => x.to@,
        GraphEdge::Throws(x) => x.to@,
        GraphEdge::Awaits(x) => x.to@,
        GraphEdge::Reads(x) => x.to@,
        GraphEdge::Writes(x) => x.to@,
        GraphEdge::Implements(x) => x.to@,
        GraphEdge::Extends(x) => x.to@,
        GraphEdge::UsesType(x) => x.to@,
        GraphEdge::ReturnsType(x) => x.to@,
        GraphEdge::HasField(x) => x.to@,
        GraphEdge::Exposes(x) => x.to@,
        GraphEdge::MapsTo(x) => x.to@,
        GraphEdge::Consumes(x) => x.to@,
        GraphEdge::Produces(x) => x.to@,
        GraphEdge::Tests(x) => x.to@,
    }
}

impl GraphEdge {
    /// Get the category of this edge.
    pub fn category(&self) -> (r: EdgeCategory)
        ensures
            r == edge_category(*self),
    {
        match self {
            GraphEdge::Contains(_) => EdgeCategory::Structure,
            GraphEdge::BelongsTo(_) => EdgeCategory::Structure,
            GraphEdge::Imports(_) => EdgeCategory::Structure,
            GraphEdge::Exports(_) => EdgeCategory::Structure,
            GraphEdge::DependsOn(_) => EdgeCategory::Structure,
            GraphEdge::Calls(_) => EdgeCategory::Behavioral,
            GraphEdge::Returns(_) => EdgeCategory::Behavioral,
            GraphEdge::Throws(_) => EdgeCategory::Behavioral,
            GraphEdge::Awaits(_) => EdgeCategory::Behavioral,
            GraphEdge::Reads(_) => EdgeCategory::Behavioral,
            GraphEdge::Writes(_) => EdgeCategory::Behavioral,
            GraphEdge::Implements(_) => EdgeCategory::TypeSystem,
            GraphEdge::Extends(_) => EdgeCategory::TypeSystem,
            GraphEdge::UsesType(_) => EdgeCategory::TypeSystem,
            GraphEdge::ReturnsType(_) => EdgeCategory::TypeSystem,
            GraphEdge::HasField(_) => EdgeCategory::TypeSystem,
            GraphEdge::Exposes(_) => EdgeCategory::Api,
            GraphEdge::MapsTo(_) => EdgeCategory::Api,
            GraphEdge::Consumes(_) => EdgeCategory::Api,
            GraphEdge::Produces(_) => EdgeCategory::Api,
            GraphEdge::Tests(_) => EdgeCategory::Api,
        }
    }

    /// Get the relationship name for display.
    pub fn relation_name(&self) -> (r: &'static str)
        ensures
            r@ == edge_relation_name(*self),
    {
        match self {
            GraphEdge::Contains(_) => "CONTAINS",
            GraphEdge::BelongsTo(_) => "BELONGS_TO",
            GraphEdge::Imports(_) => "IMPORTS",
            GraphEdge::Exports(_) => "EXPORTS",
            GraphEdge::DependsOn(_) => "DEPENDS_ON",
            GraphEdge::Calls(_) => "CALLS",
            GraphEdge::Returns(_) => "RETURNS",
            GraphEdge::Throws(_) => "THROWS",
            GraphEdge::Awaits(_) => "AWAITS",
            GraphEdge::Reads(_) => "READS",
            GraphEdge::Writes(_) => "WRITES",
            GraphEdge::Implements(_) => "IMPLEMENTS",
            GraphEdge::Extends(_) => "EXTENDS",
            GraphEdge::UsesType(_) => "USES_TYPE",
            GraphEdge::ReturnsType(_) => "RETURNS_TYPE",
            GraphEdge::HasField(_) => "HAS_FIELD",
            GraphEdge::Exposes(_) => "EXPOSES",
            GraphEdge::MapsTo(_) => "MAPS_TO",
            GraphEdge::Consumes(_) => "CONSUMES",
            GraphEdge::Produces(_) => "PRODUCES",
            GraphEdge::Tests(_) => "TESTS",
        }
    }

    /// Get the source node ID.
    pub fn from_id(&self) -> (r: &str)
        ensures
            r@ == edge_from(*self),
    {
        match self {
            GraphEdge::Contains(e) => e.from.as_str(),
            GraphEdge::BelongsTo(e) => e.from.as_str(),
            GraphEdge::Imports(e) => e.from.as_str(),
            GraphEdge::Exports(e) => e.from.as_str(),
            GraphEdge::DependsOn(e) => e.from.as_str(),
            GraphEdge::Calls(e) => e.from.as_str(),
            GraphEdge::Returns(e) => e.from.as_str(),
            GraphEdge::Throws(e) => e.from.as_str(),
            GraphEdge::Awaits(e) => e.from.as_str(),
            GraphEdge::Reads(e) => e.from.as_str(),
            GraphEdge::Writes(e) => e.from.as_str(),
            GraphEdge::Implements(e) => e.from.as_str(),
            GraphEdge::Extends(e) => e.from.as_str(),
            GraphEdge::UsesType(e) => e.from.as_str(),
            GraphEdge::ReturnsType(e) => e.from.as_str(),
            GraphEdge::HasField(e) => e.from.as_str(),
            GraphEdge::Exposes(e) => e.from.as_str(),
            GraphEdge::MapsTo(e) => e.from.as_str(),
            GraphEdge::Consumes(e) => e.from.as_str(),
            GraphEdge::Produces(e) => e.from.as_str(),
            GraphEdge::Tests(e) => e.from.as_str(),
        }
    }

    /// Get the target node ID.
    pub fn to_id(&self) -> (r: &str)
        ensures
            r@ == edge_to(*self),
    {
        match self {
            GraphEdge::Contains(e) => e.to.as_str(),
            GraphEdge::BelongsTo(e) => e.to.as_str(),
            GraphEdge::Imports(e) => e.to.as_str(),
            GraphEdge::Exports(e) => e.to.as_str(),
            GraphEdge::DependsOn(e) => e.to.as_str(),
            GraphEdge::Calls(e) => e.to.as_str(),
            GraphEdge::Returns(e) => e.to.as_str(),
            GraphEdge::Throws(e) => e.to.as_str(),
            GraphEdge::Awaits(e) => e.to.as_str(),
            GraphEdge::Reads(e) => e.to.as_str(),
            GraphEdge::Writes(e) => e.to.as_str(),
            GraphEdge::Implements(e) => e.to.as_str(),
            GraphEdge::Extends(e) => e.to.as_str(),
            GraphEdge::UsesType(e) => e.to.as_str(),
            GraphEdge::ReturnsType(e) => e.to.as_str(),
            GraphEdge::HasField(e) => e.to.as_str(),
            GraphEdge::Exposes(e) => e.to.as_str(),
            GraphEdge::MapsTo(e) => e.to.as_str(),
            GraphEdge::Consumes(e) => e.to.as_str(),
            GraphEdge::Produces(e) => e.to.as_str(),
            GraphEdge::Tests(e) => e.to.as_str(),
        }
    }
}

/// Test edge for test coverage tracking.
#[derive(Debug, Clone)]
pub struct TestsEdge {
    /// Source node (test case)
    pub from: String,
    /// Target node (function/struct being tested)
    pub to: String,
    /// Test coverage type
    pub coverage_type: TestCoverageType,
}

/// Type of test coverage.
#[derive(Debug, Clone, Copy, PartialEq, Eq, Structural)]
pub enum TestCoverageType {
    /// Direct unit test
    Unit,
    /// Integration test
    Integration,
    /// Indirect coverage through other tests
    Indirect,
}
/// The position of an edge's kind in the ontology's list of relations.
pub open spec fn edge_kind(e: GraphEdge) -> int {
    match e {
        GraphEdge::Contains(x) => 0,
        GraphEdge::BelongsTo(x) => 1,
        GraphEdge::Imports(x) => 2,
        GraphEdge::Exports(x) => 3,
        GraphEdge::DependsOn(x) => 4,
        GraphEdge::Calls(x) => 5,
        GraphEdge::Returns(x) => 6,
        GraphEdge::Throws(x) => 7,
        GraphEdge::Awaits(x) => 8,
        GraphEdge::Reads(x) => 9,
        GraphEdge::Writes(x) => 10,
        GraphEdge::Implements(x) => 11,
        GraphEdge::Extends(x) => 12,
        GraphEdge::UsesType(x) => 13,
        GraphEdge::ReturnsType(x) => 14,
        GraphEdge::HasField(x) => 15,
        GraphEdge::Exposes(x) => 16,
        GraphEdge::MapsTo(x) => 17,
        GraphEdge::Consumes(x) => 18,
        GraphEdge::Produces(x) => 19,
        GraphEdge::Tests(x) => 20,
    }
}

/// The position of the relation a name names, or -1.
spec fn relation_index(n: Seq<char>) -> int {
    if n == "CONTAINS"@ {
        0
    } else if n == "BELONGS_TO"@ {
        1
    } else if n == "IMPORTS"@ {
        2
    } else if n == "EXPORTS"@ {
        3
    } else if n == "DEPENDS_ON"@ {
        4
    } else if n == "CALLS"@ {
        5
    } else if n == "RETURNS"@ {
        6
    } else if n == "THROWS"@ {
        7
    } else if n == "AWAITS"@ {
        8
    } else if n == "READS"@ {
        9
    } else if n == "WRITES"@ {
        10
    } else if n == "IMPLEMENTS"@ {
        11
    } else if n == "EXTENDS"@ {
        12
    } else if n == "USES_TYPE"@ {
        13
    } else if n == "RETURNS_TYPE"@ {
        14
    } else if n == "HAS_FIELD"@ {
        15
    } else if n == "EXPOSES"@ {
        16
    } else if n == "MAPS_TO"@ {
        17
    } else if n == "CONSUMES"@ {
        18
    } else if n == "PRODUCES"@ {
        19
    } else if n == "TESTS"@ {
        20
    } else {
        -1
    }
}

/// Whether a name is made of capital letters and underscores.
pub open spec fn upper_snake(n: Seq<char>) -> bool {
    forall|i: int| 0 <= i < n.len() ==> ('A' <= #[trigger] n[i] <= 'Z' || n[i] == '_')
}

/// Each edge's relation name is made of capital letters and underscores,
/// and names its kind.
proof fn lemma_relation_name_of(e: GraphEdge)
    ensures
        upper_snake(edge_relation_name(e)),
        relation_index(edge_relation_name(e)) == edge_kind(e),
{
    reveal_strlit("CONTAINS");
    reveal_strlit("BELONGS_TO");
    reveal_strlit("IMPORTS");
    reveal_strlit("EXPORTS");
    reveal_strlit("DEPENDS_ON");
    reveal_strlit("CALLS");
    reveal_strlit("RETURNS");
    reveal_strlit("THROWS");
    reveal_strlit("AWAITS");
    reveal_strlit("READS");
    reveal_strlit("WRITES");
    reveal_strlit("IMPLEMENTS");
    reveal_strlit("EXTENDS");
    reveal_strlit("USES_TYPE");
    reveal_strlit("RETURNS_TYPE");
    reveal_strlit("HAS_FIELD");
    reveal_strlit("EXPOSES");
    reveal_strlit("MAPS_TO");
    reveal_strlit("CONSUMES");
    reveal_strlit("PRODUCES");
    reveal_strlit("TESTS");
    let name = edge_relation_name(e);
    match e {
        GraphEdge::Contains(x) => {
            assert(name =~= seq!['C', 'O', 'N', 'T', 'A', 'I', 'N', 'S']);
        },
        GraphEdge::BelongsTo(x) => {
            assert("BELONGS_TO"@.len() != "CONTAINS"@.len());
            assert(name =~= seq!['B', 'E', 'L', 'O', 'N', 'G', 'S', '_', 'T', 'O']);
        },
        GraphEdge::Imports(x) => {
            assert("IMPORTS"@.len() != "CONTAINS"@.len());
            assert("IMPORTS"@.len() != "BELONGS_TO"@.len());
            assert(name =~= seq!['I', 'M', 'P', 'O', 'R', 'T', 'S']);
        },
        GraphEdge::Exports(x) => {
            assert("EXPORTS"@.len() != "CONTAINS"@.len());
            assert("EXPORTS"@.len() != "BELONGS_TO"@.len());
            assert("EXPORTS"@[0] != "IMPORTS"@[0]);
            assert(name =~= seq!['E', 'X', 'P', 'O', 'R', 'T', 'S']);
        },
        GraphEdge::DependsOn(x) => {
            assert("DEPENDS_ON"@.len() != "CONTAINS"@.len());
            assert("DEPENDS_ON"@[0] != "BELONGS_TO"@[0]);
            assert("DEPENDS_ON"@.len() != "IMPORTS"@.len());
            assert("DEPENDS_ON"@.len() != "EXPORTS"@.len());
            assert(name =~= seq!['D', 'E', 'P', 'E', 'N', 'D', 'S', '_', 'O', 'N']);
        },
        GraphEdge::Calls(x) => {
            assert("CALLS"@.len() != "CONTAINS"@.len());
            assert("CALLS"@.len() != "BELONGS_TO"@.len());
            assert("CALLS"@.len() != "IMPORTS"@.len());
            assert("CALLS"@.len() != "EXPORTS"@.len());
            assert("CALLS"@.len() != "DEPENDS_ON"@.len());
            assert(name =~= seq!['C', 'A', 'L', 'L', 'S']);
        },
        GraphEdge::Returns(x) => {
            assert("RETURNS"@.len() != "CONTAINS"@.len());
            assert("RETURNS"@.len() != "BELONGS_TO"@.len());
            assert("RETURNS"@[0] != "IMPORTS"@[0]);
            assert("RETURNS"@[0] != "EXPORTS"@[0]);
            assert("RETURNS"@.len() != "DEPENDS_ON"@.len());
            assert("RETURNS"@.len() != "CALLS"@.len());
            assert(name =~= seq!['R', 'E', 'T', 'U', 'R', 'N', 'S']);
        },
        GraphEdge::Throws(x) => {
            assert("THROWS"@.len() != "CONTAINS"@.len());
            assert("THROWS"@.len() != "BELONGS_TO"@.len());
            assert("THROWS"@.len() != "IMPORTS"@.len());
            assert("THROWS"@.len() != "EXPORTS"@.len());
            assert("THROWS"@.len() != "DEPENDS_ON"@.len());
            assert("THROWS"@.len() != "CALLS"@.len());
            assert("THROWS"@.len() != "RETURNS"@.len());
            assert(name =~= seq!['T', 'H', 'R', 'O', 'W', 'S']);
        },
        GraphEdge::Awaits(x) => {
            assert("AWAITS"@.len() != "CONTAINS"@.len());
            assert("AWAITS"@.len() != "BELONGS_TO"@.len());
            assert("AWAITS"@.len() != "IMPORTS"@.len());
            assert("AWAITS"@.len() != "EXPORTS"@.len());
            assert("AWAITS"@.len() != "DEPENDS_ON"@.len());
            assert("AWAITS"@.len() != "CALLS"@.len());
            assert("AWAITS"@.len() != "RETURNS"@.len());
            assert("AWAITS"@[0] != "THROWS"@[0]);
            assert(name =~= seq!['A', 'W', 'A', 'I', 'T', 'S']);
        },
        GraphEdge::Reads(x) => {
            assert("READS"@.len() != "CONTAINS"@.len());
            assert("READS"@.len() != "BELONGS_TO"@.len());
            assert("READS"@.len() != "IMPORTS"@.len());
            assert("READS"@.len() != "EXPORTS"@.len());
            assert("READS"@.len() != "DEPENDS_ON"@.len());
            assert("READS"@[0] != "CALLS"@[0]);
            assert("READS"@.len() != "RETURNS"@.len());
            assert("READS"@.len() != "THROWS"@.len());
            assert("READS"@.len() != "AWAITS"@.len());
            assert(name =~= seq!['R', 'E', 'A', 'D', 'S']);
        },
        GraphEdge::Writes(x) => {
            assert("WRITES"@.len() != "CONTAINS"@.len());
            assert("WRITES"@.len() != "BELONGS_TO"@.len());
            assert("WRITES"@.len() != "IMPORTS"@.len());
            assert("WRITES"@.len() != "EXPORTS"@.len());
            assert("WRITES"@.len() != "DEPENDS_ON"@.len());
            assert("WRITES"@.len() != "CALLS"@.len());
            assert("WRITES"@.len() != "RETURNS"@.len());
            assert("WRITES"@[0] != "THROWS"@[0]);
            assert("WRITES"@[0] != "AWAITS"@[0]);
            assert("WRITES"@.len() != "READS"@.len());
            assert(name =~= seq!['W', 'R', 'I', 'T', 'E', 'S']);
        },
        GraphEdge::Implements(x) => {
            assert("IMPLEMENTS"@.len() != "CONTAINS"@.len());
            assert("IMPLEMENTS"@[0] != "BELONGS_TO"@[0]);
            assert("IMPLEMENTS"@.len() != "IMPORTS"@.len());
            assert("IMPLEMENTS"@.len() != "EXPORTS"@.len());
            assert("IMPLEMENTS"@[0] != "DEPENDS_ON"@[0]);
            assert("IMPLEMENTS"@.len() != "CALLS"@.len());
            assert("IMPLEMENTS"@.len() != "RETURNS"@.len());
            assert("IMPLEMENTS"@.len() != "THROWS"@.len());
            assert("IMPLEMENTS"@.len() != "AWAITS"@.len());
            assert("IMPLEMENTS"@.len() != "READS"@.len());
            assert("IMPLEMENTS"@.len() != "WRITES"@.len());
            assert(name =~= seq!['I', 'M', 'P', 'L', 'E', 'M', 'E', 'N', 'T', 'S']);
        },
        GraphEdge::Extends(x) => {
            assert("EXTENDS"@.len() != "CONTAINS"@.len());
            assert("EXTENDS"@.len() != "BELONGS_TO"@.len());
            assert("EXTENDS"@[0] != "IMPORTS"@[0]);
            assert("EXTENDS"@[2] != "EXPORTS"@[2]);
            assert("EXTENDS"@.len() != "DEPENDS_ON"@.len());
            assert("EXTENDS"@.len() != "CALLS"@.len());
            assert("EXTENDS"@[0] != "RETURNS"@[0]);
            assert("EXTENDS"@.len() != "THROWS"@.len());
            assert("EXTENDS"@.len() != "AWAITS"@.len());
            assert("EXTENDS"@.len() != "READS"@.len());
            assert("EXTENDS"@.len() != "WRITES"@.len());
            assert("EXTENDS"@.len() != "IMPLEMENTS"@.len());
            assert(name =~= seq!['E', 'X', 'T', 'E', 'N', 'D', 'S']);
        },
        GraphEdge::UsesType(x) => {
            assert("USES_TYPE"@.len() != "CONTAINS"@.len());
            assert("USES_TYPE"@.len() != "BELONGS_TO"@.len());
            assert("USES_TYPE"@.len() != "IMPORTS"@.len());
            assert("USES_TYPE"@.len() != "EXPORTS"@.len());
            assert("USES_TYPE"@.len() != "DEPENDS_ON"@.len());
            assert("USES_TYPE"@.len() != "CALLS"@.len());
            assert("USES_TYPE"@.len() != "RETURNS"@.len());
            assert("USES_TYPE"@.len() != "THROWS"@.len());
            assert("USES_TYPE"@.len() != "AWAITS"@.len());
            assert("USES_TYPE"@.len() != "READS"@.len());
            assert("USES_TYPE"@.len() != "WRITES"@.len());
            assert("USES_TYPE"@.len() != "IMPLEMENTS"@.len());
            assert("USES_TYPE"@.len() != "EXTENDS"@.len());
            assert(name =~= seq!['U', 'S', 'E', 'S', '_', 'T', 'Y', 'P', 'E']);
        },
        GraphEdge::ReturnsType(x) => {
            assert("RETURNS_TYPE"@.len() != "CONTAINS"@.len());
            assert("RETURNS_TYPE"@.len() != "BELONGS_TO"@.len());
            assert("RETURNS_TYPE"@.len() != "IMPORTS"@.len());
            assert("RETURNS_TYPE"@.len() != "EXPORTS"@.len());
            assert("RETURNS_TYPE"@.len() != "DEPENDS_ON"@.len());
            assert("RETURNS_TYPE"@.len() != "CALLS"@.len());
            assert("RETURNS_TYPE"@.len() != "RETURNS"@.len());
            assert("RETURNS_TYPE"@.len() != "THROWS"@.len());
            assert("RETURNS_TYPE"@.len() != "AWAITS"@.len());
            assert("RETURNS_TYPE"@.len() != "READS"@.len());
            assert("RETURNS_TYPE"@.len() != "WRITES"@.len());
            assert("RETURNS_TYPE"@.len() != "IMPLEMENTS"@.len());
            assert("RETURNS_TYPE"@.len() != "EXTENDS"@.len());
            assert("RETURNS_TYPE"@.len() != "USES_TYPE"@.len());
            assert(name =~= seq!['R', 'E', 'T', 'U', 'R', 'N', 'S', '_', 'T', 'Y', 'P', 'E']);
        },
        GraphEdge::HasField(x) => {
            assert("HAS_FIELD"@.len() != "CONTAINS"@.len());
            assert("HAS_FIELD"@.len() != "BELONGS_TO"@.len());
            assert("HAS_FIELD"@.len() != "IMPORTS"@.len());
            assert("HAS_FIELD"@.len() != "EXPORTS"@.len());
            assert("HAS_FIELD"@.len() != "DEPENDS_ON"@.len());
            assert("HAS_FIELD"@.len() != "CALLS"@.len());
            assert("HAS_FIELD"@.len() != "RETURNS"@.len());
            assert("HAS_FIELD"@.len() != "THROWS"@.len());
            assert("HAS_FIELD"@.len() != "AWAITS"@.len());
            assert("HAS_FIELD"@.len() != "READS"@.len());
            assert("HAS_FIELD"@.len() != "WRITES"@.len());
            assert("HAS_FIELD"@.len() != "IMPLEMENTS"@.len());
            assert("HAS_FIELD"@.len() != "EXTENDS"@.len());
            assert("HAS_FIELD"@[0] != "USES_TYPE"@[0]);
            assert("HAS_FIELD"@.len() != "RETURNS_TYPE"@.len());
            assert(name =~= seq!['H', 'A', 'S', '_', 'F', 'I', 'E', 'L', 'D']);
        },
        GraphEdge::Exposes(x) => {
            assert("EXPOSES"@.len() != "CONTAINS"@.len());
            assert("EXPOSES"@.len() != "BELONGS_TO"@.len());
            assert("EXPOSES"@[0] != "IMPORTS"@[0]);
            assert("EXPOSES"@[4] != "EXPORTS"@[4]);
            assert("EXPOSES"@.len() != "DEPENDS_ON"@.len());
            assert("EXPOSES"@.len() != "CALLS"@.len());
            assert("EXPOSES"@[0] != "RETURNS"@[0]);
            assert("EXPOSES"@.len() != "THROWS"@.len());
            assert("EXPOSES"@.len() != "AWAITS"@.len());
            assert("EXPOSES"@.len() != "READS"@.len());
            assert("EXPOSES"@.len() != "WRITES"@.len());
            assert("EXPOSES"@.len() != "IMPLEMENTS"@.len());
            assert("EXPOSES"@[2] != "EXTENDS"@[2]);
            assert("EXPOSES"@.len() != "USES_TYPE"@.len());
            assert("EXPOSES"@.len() != "RETURNS_TYPE"@.len());
            assert("EXPOSES"@.len() != "HAS_FIELD"@.len());
            assert(name =~= seq!['E', 'X', 'P', 'O', 'S', 'E', 'S']);
        },
        GraphEdge::MapsTo(x) => {
            assert("MAPS_TO"@.len() != "CONTAINS"@.len());
            assert("MAPS_TO"@.len() != "BELONGS_TO"@.len());
            assert("MAPS_TO"@[0] != "IMPORTS"@[0]);
            assert("MAPS_TO"@[0] != "EXPORTS"@[0]);
            assert("MAPS_TO"@.len() != "DEPENDS_ON"@.len());
            assert("MAPS_TO"@.len() != "CALLS"@.len());
            assert("MAPS_TO"@[0] != "RETURNS"@[0]);
            assert("MAPS_TO"@.len() != "THROWS"@.len());
            assert("MAPS_TO"@.len() != "AWAITS"@.len());
            assert("MAPS_TO"@.len() != "READS"@.len());
            assert("MAPS_TO"@.len() != "WRITES"@.len());
            assert("MAPS_TO"@.len() != "IMPLEMENTS"@.len());
            assert("MAPS_TO"@[0] != "EXTENDS"@[0]);
            assert("MAPS_TO"@.len() != "USES_TYPE"@.len());
            assert("MAPS_TO"@.len() != "RETURNS_TYPE"@.len());
            assert("MAPS_TO"@.len() != "HAS_FIELD"@.len());
            assert("MAPS_TO"@[0] != "EXPOSES"@[0]);
            assert(name =~= seq!['M', 'A', 'P', 'S', '_', 'T', 'O']);
        },
        GraphEdge::Consumes(x) => {
            assert("CONSUMES"@[3] != "CONTAINS"@[3]);
            assert("CONSUMES"@.len() != "BELONGS_TO"@.len());
            assert("CONSUMES"@.len() != "IMPORTS"@.len());
            assert("CONSUMES"@.len() != "EXPORTS"@.len());
            assert("CONSUMES"@.len() != "DEPENDS_ON"@.len());
            assert("CONSUMES"@.len() != "CALLS"@.len());
            assert("CONSUMES"@.len() != "RETURNS"@.len());
            assert("CONSUMES"@.len() != "THROWS"@.len());
            assert("CONSUMES"@.len() != "AWAITS"@.len());
            assert("CONSUMES"@.len() != "READS"@.len());
            assert("CONSUMES"@.len() != "WRITES"@.len());
            assert("CONSUMES"@.len() != "IMPLEMENTS"@.len());
            assert("CONSUMES"@.len() != "EXTENDS"@.len());
            assert("CONSUMES"@.len() != "USES_TYPE"@.len());
            assert("CONSUMES"@.len() != "RETURNS_TYPE"@.len());
            assert("CONSUMES"@.len() != "HAS_FIELD"@.len());
            assert("CONSUMES"@.len() != "EXPOSES"@.len());
            assert("CONSUMES"@.len() != "MAPS_TO"@.len());
            assert(name =~= seq!['C', 'O', 'N', 'S', 'U', 'M', 'E', 'S']);
        },
        GraphEdge::Produces(x) => {
            assert("PRODUCES"@[0] != "CONTAINS"@[0]);
            assert("PRODUCES"@.len() != "BELONGS_TO"@.len());
            assert("PRODUCES"@.len() != "IMPORTS"@.len());
            assert("PRODUCES"@.len() != "EXPORTS"@.len());
            assert("PRODUCES"@.len() != "DEPENDS_ON"@.len());
            assert("PRODUCES"@.len() != "CALLS"@.len());
            assert("PRODUCES"@.len() != "RETURNS"@.len());
            assert("PRODUCES"@.len() != "THROWS"@.len());
            assert("PRODUCES"@.len() != "AWAITS"@.len());
            assert("PRODUCES"@.len() != "READS"@.len());
            assert("PRODUCES"@.len() != "WRITES"@.len());
            assert("PRODUCES"@.len() != "IMPLEMENTS"@.len());
            assert("PRODUCES"@.len() != "EXTENDS"@.len());
            assert("PRODUCES"@.len() != "USES_TYPE"@.len());
            assert("PRODUCES"@.len() != "RETURNS_TYPE"@.len());
            assert("PRODUCES"@.len() != "HAS_FIELD"@.len());
            assert("PRODUCES"@.len() != "EXPOSES"@.len());
            assert("PRODUCES"@.len() != "MAPS_TO"@.len());
            assert("PRODUCES"@[0] != "CONSUMES"@[0]);
            assert(name =~= seq!['P', 'R', 'O', 'D', 'U', 'C', 'E', 'S']);
        },
        GraphEdge::Tests(x) => {
            assert("TESTS"@.len() != "CONTAINS"@.len());
            assert("TESTS"@.len() != "BELONGS_TO"@.len());
            assert("TESTS"@.len() != "IMPORTS"@.len());
            assert("TESTS"@.len() != "EXPORTS"@.len());
            assert("TESTS"@.len() != "DEPENDS_ON"@.len());
            assert("TESTS"@[0] != "CALLS"@[0]);
            assert("TESTS"@.len() != "RETURNS"@.len());
            assert("TESTS"@.len() != "THROWS"@.len());
            assert("TESTS"@.len() != "AWAITS"@.len());
            assert("TESTS"@[0] != "READS"@[0]);
            assert("TESTS"@.len() != "WRITES"@.len());
            assert("TESTS"@.len() != "IMPLEMENTS"@.len());
            assert("TESTS"@.len() != "EXTENDS"@.len());
            assert("TESTS"@.len() != "USES_TYPE"@.len());
            assert("TESTS"@.len() != "RETURNS_TYPE"@.len());
            assert("TESTS"@.len() != "HAS_FIELD"@.len());
            assert("TESTS"@.len() != "EXPOSES"@.len());
            assert("TESTS"@.len() != "MAPS_TO"@.len());
            assert("TESTS"@.len() != "CONSUMES"@.len());
            assert("TESTS"@.len() != "PRODUCES"@.len());
            assert(name =~= seq!['T', 'E', 'S', 'T', 'S']);
        },
    }
}

/// Relation names are capital letters and underscores, and two edges share
/// a relation name exactly when they are of the same kind.
pub proof fn lemma_relation_names_distinct(a: GraphEdge, b: GraphEdge)
    ensures
        upper_snake(edge_relation_name(a)),
        edge_relation_name(a) == edge_relation_name(b) <==> edge_kind(a) == edge_kind(b),
{
    lemma_relation_name_of(a);
    lemma_relation_name_of(b);
}

} // verus!
