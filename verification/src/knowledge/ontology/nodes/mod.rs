//! Node types of the knowledge graph: code, API, structure and test entities.

pub mod api;
pub mod code;
pub mod structure;
pub mod test;

use vstd::prelude::*;

use super::NodeCategory;
pub use api::{
    ApiParam, ApiType, AuthRequirement, AuthType, DeprecationInfo, EndpointEntity, HttpMethod,
    OperationEntity, OperationResponse, SchemaEntity, SchemaField, SchemaType, SerializationFormat,
};
pub use code::{
    ComplexityMetrics, ConstantEntity, EnumEntity, EnumVariant, FieldInfo, FunctionEntity,
    ImplEntity, Parameter, StructEntity, TraitEntity, Visibility,
};
pub use structure::{
    DependencyInfo, DependencySource, EntryPoint, EntryPointType, FileEntity, ImportInfo, Language,
    ModuleEntity, ModuleVisibility, PackageEntity, PackageType,
};
pub use test::{TestCaseEntity, TestSuiteEntity, TestType};

verus! {

/// The view of an optional string.
pub open spec fn opt_view(o: Option<String>) -> Option<Seq<char>> {
    match o {
        Some(s) => Some(s@),
        None => None,
    }
}

/// Borrows the contents of an optional string.
pub fn opt_str(o: &Option<String>) -> (r: Option<&str>)
    ensures
        match r {
            Some(s) => opt_view(*o) == Some(s@),
            None => o.is_none(),
        },
{
    match o {
        Some(s) => Some(s.as_str()),
        None => None,
    }
}

/// A unified node type that can hold any entity in the knowledge graph.
#[derive(Debug, Clone)]
pub enum GraphNode {
    /// A Function entity
    Function(FunctionEntity),
    /// A Struct entity
    Struct(StructEntity),
    /// A Trait entity
    Trait(TraitEntity),
    /// A Impl entity
    Impl(ImplEntity),
    /// A Enum entity
    Enum(EnumEntity),
    /// A Constant entity
    Constant(ConstantEntity),
    /// A Endpoint entity
    Endpoint(EndpointEntity),
    /// A Schema entity
    Schema(SchemaEntity),
    /// A Operation entity
    Operation(OperationEntity),
    /// A File entity
    File(FileEntity),
    /// A Module entity
    Module(ModuleEntity),
    /// A Package entity
    Package(PackageEntity),
    /// A TestCase entity
    TestCase(TestCaseEntity),
    /// A TestSuite entity
    TestSuite(TestSuiteEntity),
}

/// The category of a node.
pub open spec fn node_category(n: GraphNode) -> NodeCategory {
    match n {
        GraphNode::Function(_) => NodeCategory::Code,
        GraphNode::Struct(_) => NodeCategory::Code,
        GraphNode::Trait(_) => NodeCategory::Code,
        GraphNode::Impl(_) => NodeCategory::Code,
        GraphNode::Enum(_) => NodeCategory::Code,
        GraphNode::Constant(_) => NodeCategory::Code,
        GraphNode::Endpoint(_) => NodeCategory::Api,
        GraphNode::Schema(_) => NodeCategory::Api,
        GraphNode::Operation(_) => NodeCategory::Api,
        GraphNode::File(_) => NodeCategory::Structure,
        GraphNode::Module(_) => NodeCategory::Structure,
        GraphNode::Package(_) => NodeCategory::Structure,
        GraphNode::TestCase(_) => NodeCategory::Test,
        GraphNode::TestSuite(_) => NodeCategory::Test,
    }
}

/// The display type name of a node.
pub open spec fn node_kind_name(n: GraphNode) -> Seq<char> {
    match n {
        GraphNode::Function(_) => "Function"@,
        GraphNode::Struct(_) => "Struct"@,
        GraphNode::Trait(_) => "Trait"@,
        GraphNode::Impl(_) => "Impl"@,
        GraphNode::Enum(_) => "Enum"@,
        GraphNode::Constant(_) => "Constant"@,
        GraphNode::Endpoint(_) => "Endpoint"@,
        GraphNode::Schema(_) => "Schema"@,
        GraphNode::Operation(_) => "Operation"@,
        GraphNode::File(_) => "File"@,
        GraphNode::Module(_) => "Module"@,
        GraphNode::Package(_) => "Package"@,
        GraphNode::TestCase(_) => "TestCase"@,
        GraphNode::TestSuite(_) => "TestSuite"@,
    }
}

/// The identifier of a node, if any.
pub open spec fn node_id(n: GraphNode) -> Option<Seq<char>> {
    match n {
        GraphNode::Function(x) => opt_view(x.id),
        GraphNode::Struct(x) => opt_view(x.id),
        GraphNode::Trait(x) => opt_view(x.id),
        GraphNode::Impl(x) => opt_view(x.id),
        GraphNode::Enum(x) => opt_view(x.id),
        GraphNode::Constant(x) => opt_view(x.id),
        GraphNode::Endpoint(x) => opt_view(x.id),
        GraphNode::Schema(x) => opt_view(x.id),
        GraphNode::Operation(x) => opt_view(x.id),
        GraphNode::File(x) => opt_view(x.id),
        GraphNode::Module(x) => opt_view(x.id),
        GraphNode::Package(x) => opt_view(x.id),
        GraphNode::TestCase(x) => opt_view(x.id),
        GraphNode::TestSuite(x) => opt_view(x.id),
    }
}

/// The display name of a node (a path for endpoints and files, the target type for impls).
pub open spec fn node_name(n: GraphNode) -> Seq<char> {
    match n {
        GraphNode::Function(x) => x.name@,
        GraphNode::Struct(x) => x.name@,
        GraphNode::Trait(x) => x.name@,
        GraphNode::Impl(x) => x.target_type@,
        GraphNode::Enum(x) => x.name@,
        GraphNode::Constant(x) => x.name@,
        GraphNode::Endpoint(x) => x.path@,
        GraphNode::Schema(x) => x.name@,
        GraphNode::Operation(x) => x.name@,
        GraphNode::File(x) => x.path@,
        GraphNode::Module(x) => x.name@,
        GraphNode::Package(x) => x.name@,
        GraphNode::TestCase(x) => x.name@,
        GraphNode::TestSuite(x) => x.name@,
    }
}

impl GraphNode {
    /// Get the category of this node.
    pub fn category(&self) -> (r: NodeCategory)
        ensures
            r == node_category(*self),
    {
        match self {
            GraphNode::Function(_) => NodeCategory::Code,
            GraphNode::Struct(_) => NodeCategory::Code,
            GraphNode::Trait(_) => NodeCategory::Code,
            GraphNode::Impl(_) => NodeCategory::Code,
            GraphNode::Enum(_) => NodeCategory::Code,
            GraphNode::Constant(_) => NodeCategory::Code,
            GraphNode::Endpoint(_) => NodeCategory::Api,
            GraphNode::Schema(_) => NodeCategory::Api,
            GraphNode::Operation(_) => NodeCategory::Api,
            GraphNode::File(_) => NodeCategory::Structure,
            GraphNode::Module(_) => NodeCategory::Structure,
            GraphNode::Package(_) => NodeCategory::Structure,
            GraphNode::TestCase(_) => NodeCategory::Test,
            GraphNode::TestSuite(_) => NodeCategory::Test,
        }
    }

    /// Get a human-readable type name.
    pub fn kind_name(&self) -> (r: &'static str)
        ensures
            r@ == node_kind_name(*self),
    {
        match self {
            GraphNode::Function(_) => "Function",
            GraphNode::Struct(_) => "Struct",
            GraphNode::Trait(_) => "Trait",
            GraphNode::Impl(_) => "Impl",
            GraphNode::Enum(_) => "Enum",
            GraphNode::Constant(_) => "Constant",
            GraphNode::Endpoint(_) => "Endpoint",
            GraphNode::Schema(_) => "Schema",
            GraphNode::Operation(_) => "Operation",
            GraphNode::File(_) => "File",
            GraphNode::Module(_) => "Module",
            GraphNode::Package(_) => "Package",
            GraphNode::TestCase(_) => "TestCase",
            GraphNode::TestSuite(_) => "TestSuite",
        }
    }

    /// Get the unique identifier for this node.
    pub fn id(&self) -> (r: Option<&str>)
        ensures
            match r {
                Some(s) => node_id(*self) == Some(s@),
                None => node_id(*self) is None,
            },
    {
        match self {
            GraphNode::Function(n) => opt_str(&n.id),
            GraphNode::Struct(n) => opt_str(&n.id),
            GraphNode::Trait(n) => opt_str(&n.id),
            GraphNode::Impl(n) => opt_str(&n.id),
            GraphNode::Enum(n) => opt_str(&n.id),
            GraphNode::Constant(n) => opt_str(&n.id),
            GraphNode::Endpoint(n) => opt_str(&n.id),
            GraphNode::Schema(n) => opt_str(&n.id),
            GraphNode::Operation(n) => opt_str(&n.id),
            GraphNode::File(n) => opt_str(&n.id),
            GraphNode::Module(n) => opt_str(&n.id),
            GraphNode::Package(n) => opt_str(&n.id),
            GraphNode::TestCase(n) => opt_str(&n.id),
            GraphNode::TestSuite(n) => opt_str(&n.id),
        }
    }

    /// Get the display name for this node.
    pub fn name(&self) -> (r: &str)
        ensures
            r@ == node_name(*self),
    {
        match self {
            GraphNode::Function(n) => n.name.as_str(),
            GraphNode::Struct(n) => n.name.as_str(),
            GraphNode::Trait(n) => n.name.as_str(),
            GraphNode::Impl(n) => n.target_type.as_str(),
            GraphNode::Enum(n) => n.name.as_str(),
            GraphNode::Constant(n) => n.name.as_str(),
            GraphNode::Endpoint(n) => n.path.as_str(),
            GraphNode::Schema(n) => n.name.as_str(),
            GraphNode::Operation(n) => n.name.as_str(),
            GraphNode::File(n) => n.path.as_str(),
            GraphNode::Module(n) => n.name.as_str(),
            GraphNode::Package(n) => n.name.as_str(),
            GraphNode::TestCase(n) => n.name.as_str(),
            GraphNode::TestSuite(n) => n.name.as_str(),
        }
    }
}

} // verus!
