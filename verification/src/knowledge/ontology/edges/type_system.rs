use vstd::prelude::*;

use crate::text::owned;

verus! {

/// A IMPLEMENTS B: type A implements trait or interface B.
#[derive(Debug, Clone)]
pub struct ImplementsEdge {
    /// Source node ID (implementor)
    pub from: String,
    /// Target node ID (trait/interface)
    pub to: String,
    /// File where implementation is defined
    pub impl_file: Option<String>,
    /// Line number of impl block
    pub impl_line: Option<u32>,
    /// Generic parameters used in impl
    pub generics: Vec<String>,
    /// Where clause constraints
    pub where_clause: Option<String>,
    /// Whether this is a blanket impl
    pub is_blanket: bool,
}
impl ImplementsEdge {
    /// Creates a non-blanket edge with no location, generics or where clause.
    pub fn new(from: &str, to: &str) -> (r: Self)
        ensures
            r.from@ == from@,
            r.to@ == to@,
            r.impl_file is None,
            r.impl_line is None,
            r.generics@.len() == 0,
            r.where_clause is None,
            !r.is_blanket,
    {
        ImplementsEdge {
            from: owned(from),
            to: owned(to),
            impl_file: None,
            impl_line: None,
            generics: Vec::new(),
            where_clause: None,
            is_blanket: false,
        }
    }

    /// Sets the location of the impl block.
    pub fn at(self, file: &str, line: u32) -> (r: Self)
        ensures
            r == (ImplementsEdge { impl_file: r.impl_file, impl_line: r.impl_line, ..self }),
            r.impl_file matches Some(f) && f@ == file@,
            r.impl_line == Some(line),
    {
        let mut s = self;
        s.impl_file = Some(owned(file));
        s.impl_line = Some(line);
        s
    }

    /// Marks this as a blanket impl.
    pub fn blanket(self) -> (r: Self)
        ensures
            r == (ImplementsEdge { is_blanket: r.is_blanket, ..self }),
            r.is_blanket,
    {
        let mut s = self;
        s.is_blanket = true;
        s
    }
}

/// A EXTENDS B: type A extends or inherits from B.
#[derive(Debug, Clone)]
pub struct ExtendsEdge {
    /// Source node ID (subtype)
    pub from: String,
    /// Target node ID (supertype)
    pub to: String,
    /// Extension type
    pub extension_type: ExtensionType,
}
impl ExtendsEdge {
    /// Creates a trait-bound extension edge.
    pub fn new(from: &str, to: &str) -> (r: Self)
        ensures
            r.from@ == from@,
            r.to@ == to@,
            r.extension_type == ExtensionType::TraitBound,
    {
        ExtendsEdge {
            from: owned(from),
            to: owned(to),
            extension_type: ExtensionType::TraitBound,
        }
    }

    /// Marks this as class inheritance.
    pub fn inheritance(self) -> (r: Self)
        ensures
            r == (ExtendsEdge { extension_type: r.extension_type, ..self }),
            r.extension_type == ExtensionType::ClassInheritance,
    {
        let mut s = self;
        s.extension_type = ExtensionType::ClassInheritance;
        s
    }
}

/// Type of extension relationship.
#[derive(Debug, Clone, Copy, PartialEq, Eq, Structural)]
pub enum ExtensionType {
    /// Trait bound (trait: SuperTrait)
    TraitBound,
    /// Class inheritance
    ClassInheritance,
    /// Interface extension
    InterfaceExtension,
    /// Type alias
    TypeAlias,
}

impl Default for ExtensionType {
    fn default() -> (r: ExtensionType)
        ensures
            r == ExtensionType::TraitBound,
    {
        ExtensionType::TraitBound
    }
}
/// A USES_TYPE B: entity A uses type B in some capacity.
#[derive(Debug, Clone)]
pub struct UsesTypeEdge {
    /// Source node ID (user)
    pub from: String,
    /// Target node ID (type being used)
    pub to: String,
    /// How the type is used
    pub usage: TypeUsage,
    /// Whether the type is behind a reference
    pub is_reference: bool,
    /// Whether the type is optional (`Option<T>`)
    pub is_optional: bool,
    /// Whether the type is in a collection (`Vec<T>`, etc.)
    pub is_collection: bool,
}
impl UsesTypeEdge {
    /// Creates a parameter-usage edge of a plain owned type.
    pub fn new(from: &str, to: &str) -> (r: Self)
        ensures
            r.from@ == from@,
            r.to@ == to@,
            r.usage == TypeUsage::Parameter,
            !r.is_reference,
            !r.is_optional,
            !r.is_collection,
    {
        UsesTypeEdge {
            from: owned(from),
            to: owned(to),
            usage: TypeUsage::Parameter,
            is_reference: false,
            is_optional: false,
            is_collection: false,
        }
    }

    /// Marks the usage as a struct field.
    pub fn as_field(self) -> (r: Self)
        ensures
            r == (UsesTypeEdge { usage: r.usage, ..self }),
            r.usage == TypeUsage::Field,
    {
        let mut s = self;
        s.usage = TypeUsage::Field;
        s
    }

    /// Marks the type as used behind a reference.
    pub fn as_reference(self) -> (r: Self)
        ensures
            r == (UsesTypeEdge { is_reference: r.is_reference, ..self }),
            r.is_reference,
    {
        let mut s = self;
        s.is_reference = true;
        s
    }

    /// Marks the type as optional.
    pub fn optional(self) -> (r: Self)
        ensures
            r == (UsesTypeEdge { is_optional: r.is_optional, ..self }),
            r.is_optional,
    {
        let mut s = self;
        s.is_optional = true;
        s
    }
}

/// How a type is used.
#[derive(Debug, Clone, Copy, PartialEq, Eq, Structural)]
pub enum TypeUsage {
    /// Function parameter
    Parameter,
    /// Struct field
    Field,
    /// Local variable
    Variable,
    /// Generic constraint
    Constraint,
    /// Cast target
    Cast,
    /// Associated type
    Associated,
}

impl Default for TypeUsage {
    fn default() -> (r: TypeUsage)
        ensures
            r == TypeUsage::Parameter,
    {
        TypeUsage::Parameter
    }
}
/// A RETURNS_TYPE B: function A has return type B.
#[derive(Debug, Clone)]
pub struct ReturnsTypeEdge {
    /// Source node ID (function)
    pub from: String,
    /// Target node ID (return type)
    pub to: String,
    /// Whether wrapped in Result
    pub is_result: bool,
    /// Whether wrapped in Option
    pub is_option: bool,
    /// Whether this is a Future
    pub is_future: bool,
    /// Whether this is an impl Trait return
    pub is_impl_trait: bool,
}
impl ReturnsTypeEdge {
    /// Creates a return-type edge with no wrapper flags set.
    pub fn new(from: &str, to: &str) -> (r: Self)
        ensures
            r.from@ == from@,
            r.to@ == to@,
            !r.is_result,
            !r.is_option,
            !r.is_future,
            !r.is_impl_trait,
    {
        ReturnsTypeEdge {
            from: owned(from),
            to: owned(to),
            is_result: false,
            is_option: false,
            is_future: false,
            is_impl_trait: false,
        }
    }

    /// Marks the return type as wrapped in Result.
    pub fn result(self) -> (r: Self)
        ensures
            r == (ReturnsTypeEdge { is_result: r.is_result, ..self }),
            r.is_result,
    {
        let mut s = self;
        s.is_result = true;
        s
    }

    /// Marks the return type as a Future.
    pub fn future(self) -> (r: Self)
        ensures
            r == (ReturnsTypeEdge { is_future: r.is_future, ..self }),
            r.is_future,
    {
        let mut s = self;
        s.is_future = true;
        s
    }
}

/// A HAS_FIELD B: struct A has a field of type B.
#[derive(Debug, Clone)]
pub struct HasFieldEdge {
    /// Source node ID (struct)
    pub from: String,
    /// Target node ID (field type)
    pub to: String,
    /// Field name
    pub field_name: String,
    /// Field index (order in struct)
    pub field_index: u32,
    /// Whether field is public
    pub is_public: bool,
    /// Whether field is mutable (for interior mutability patterns)
    pub is_mutable: bool,
}

impl HasFieldEdge {
    /// Creates a private, immutable field edge at index 0.
    pub fn new(from: &str, to: &str, field_name: &str) -> (r: Self)
        ensures
            r.from@ == from@,
            r.to@ == to@,
            r.field_name@ == field_name@,
            r.field_index == 0,
            !r.is_public,
            !r.is_mutable,
    {
        HasFieldEdge {
            from: owned(from),
            to: owned(to),
            field_name: owned(field_name),
            field_index: 0,
            is_public: false,
            is_mutable: false,
        }
    }

    /// Sets the field index.
    pub fn at_index(self, index: u32) -> (r: Self)
        ensures
            r == (HasFieldEdge { field_index: r.field_index, ..self }),
            r.field_index == index,
    {
        let mut s = self;
        s.field_index = index;
        s
    }

    /// Marks the field as public.
    pub fn public(self) -> (r: Self)
        ensures
            r == (HasFieldEdge { is_public: r.is_public, ..self }),
            r.is_public,
    {
        let mut s = self;
        s.is_public = true;
        s
    }
}

} // verus!
