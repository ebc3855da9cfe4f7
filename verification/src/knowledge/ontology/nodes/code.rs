use vstd::prelude::*;

use crate::text::{chars_of, eq_lit, has_prefix, lowercased, to_lowercase, starts_with};

verus! {

/// A function or method in the codebase; `parent` is set for methods.
#[derive(Debug, Clone)]
pub struct FunctionEntity {
    /// Unique identifier (e.g., "function:file.rs:my_function")
    pub id: Option<String>,
    /// Function name
    pub name: String,
    /// Full qualified name (e.g., "module::submodule::function")
    pub qualified_name: String,
    /// File containing this function
    pub file_path: String,
    /// Start line number
    pub start_line: u32,
    /// End line number
    pub end_line: u32,
    /// Function signature
    pub signature: String,
    /// Parent struct/impl if this is a method
    pub parent: Option<String>,
    /// Visibility (pub, pub(crate), private)
    pub visibility: Visibility,
    /// Whether the function is async
    pub is_async: bool,
    /// Whether the function is unsafe
    pub is_unsafe: bool,
    /// Generic parameters (e.g., ["T", "U: Clone"])
    pub generics: Vec<String>,
    /// Parameter types
    pub parameters: Vec<Parameter>,
    /// Return type
    pub return_type: Option<String>,
    /// Documentation comment
    pub doc_comment: Option<String>,
    /// Complexity metrics
    pub complexity: Option<ComplexityMetrics>,
}
/// A function parameter.
#[derive(Debug, Clone)]
pub struct Parameter {
    /// Parameter name
    pub name: String,
    /// Parameter type, as written
    pub type_str: String,
    /// Whether the binding is mutable
    pub is_mutable: bool,
    /// Whether the type is a reference
    pub is_reference: bool,
}
/// Code complexity metrics.
#[derive(Debug, Clone)]
pub struct ComplexityMetrics {
    /// Cyclomatic complexity
    pub cyclomatic: u32,
    /// Lines of code
    pub loc: u32,
    /// Cognitive complexity
    pub cognitive: Option<u32>,
}
/// A struct or class in the codebase.
#[derive(Debug, Clone)]
pub struct StructEntity {
    /// Unique identifier
    pub id: Option<String>,
    /// Struct name
    pub name: String,
    /// Full qualified name
    pub qualified_name: String,
    /// File containing this struct
    pub file_path: String,
    /// Start line number
    pub start_line: u32,
    /// End line number
    pub end_line: u32,
    /// Visibility
    pub visibility: Visibility,
    /// Generic parameters
    pub generics: Vec<String>,
    /// Fields
    pub fields: Vec<FieldInfo>,
    /// Derive macros applied
    pub derives: Vec<String>,
    /// Attributes (e.g., #[serde(rename_all = "camelCase")])
    pub attributes: Vec<String>,
    /// Documentation comment
    pub doc_comment: Option<String>,
}
/// Information about a struct field.
#[derive(Debug, Clone)]
pub struct FieldInfo {
    /// Field name
    pub name: String,
    /// Field type, as written
    pub type_str: String,
    /// Field visibility
    pub visibility: Visibility,
    /// Field attributes
    pub attributes: Vec<String>,
    /// Documentation comment
    pub doc_comment: Option<String>,
}
/// A trait or interface in the codebase.
#[derive(Debug, Clone)]
pub struct TraitEntity {
    /// Unique identifier
    pub id: Option<String>,
    /// Trait name
    pub name: String,
    /// Full qualified name
    pub qualified_name: String,
    /// File containing this trait
    pub file_path: String,
    /// Start line number
    pub start_line: u32,
    /// End line number
    pub end_line: u32,
    /// Visibility
    pub visibility: Visibility,
    /// Generic parameters
    pub generics: Vec<String>,
    /// Super traits (traits this extends)
    pub super_traits: Vec<String>,
    /// Required methods
    pub required_methods: Vec<String>,
    /// Provided (default) methods
    pub provided_methods: Vec<String>,
    /// Associated types
    pub associated_types: Vec<String>,
    /// Documentation comment
    pub doc_comment: Option<String>,
}
/// An implementation block.
#[derive(Debug, Clone)]
pub struct ImplEntity {
    /// Unique identifier
    pub id: Option<String>,
    /// The type being implemented for
    pub target_type: String,
    /// The trait being implemented (None for inherent impl)
    pub trait_name: Option<String>,
    /// File containing this impl
    pub file_path: String,
    /// Start line number
    pub start_line: u32,
    /// End line number
    pub end_line: u32,
    /// Generic parameters
    pub generics: Vec<String>,
    /// Where clause constraints
    pub where_clause: Option<String>,
    /// Methods in this impl block
    pub methods: Vec<String>,
}
/// An enum type in the codebase.
#[derive(Debug, Clone)]
pub struct EnumEntity {
    /// Unique identifier
    pub id: Option<String>,
    /// Enum name
    pub name: String,
    /// Full qualified name
    pub qualified_name: String,
    /// File containing this enum
    pub file_path: String,
    /// Start line number
    pub start_line: u32,
    /// End line number
    pub end_line: u32,
    /// Visibility
    pub visibility: Visibility,
    /// Generic parameters
    pub generics: Vec<String>,
    /// Variants
    pub variants: Vec<EnumVariant>,
    /// Derive macros applied
    pub derives: Vec<String>,
    /// Documentation comment
    pub doc_comment: Option<String>,
}
/// An enum variant.
#[derive(Debug, Clone)]
pub struct EnumVariant {
    /// Variant name
    pub name: String,
    /// Variant fields
    pub fields: Vec<FieldInfo>,
    /// Explicit discriminant, as written
    pub discriminant: Option<String>,
    /// Documentation comment
    pub doc_comment: Option<String>,
}
/// A constant or static in the codebase.
#[derive(Debug, Clone)]
pub struct ConstantEntity {
    /// Unique identifier
    pub id: Option<String>,
    /// Constant name
    pub name: String,
    /// Full qualified name
    pub qualified_name: String,
    /// File containing this constant
    pub file_path: String,
    /// Line number
    pub line: u32,
    /// Visibility
    pub visibility: Visibility,
    /// Type, as written
    pub type_str: String,
    /// Whether this is static (vs const)
    pub is_static: bool,
    /// Whether this is mutable (static mut)
    pub is_mutable: bool,
    /// Documentation comment
    pub doc_comment: Option<String>,
}
/// Visibility level of a code entity.
#[derive(Debug, Clone, Copy, PartialEq, Eq, Structural)]
pub enum Visibility {
    /// Public (accessible from anywhere)
    Public,
    /// Public within crate
    PublicCrate,
    /// Public within parent module
    PublicSuper,
    /// Public within specific path
    PublicIn,
    /// Private (default)
    Private,
}

impl Default for Visibility {
    fn default() -> (r: Visibility)
        ensures
            r == Visibility::Private,
    {
        Visibility::Private
    }
}
/// The visibility a lowercased visibility string denotes.
pub open spec fn visibility_of_lower(l: Seq<char>) -> Visibility {
    if l == "pub"@ || l == "public"@ {
        Visibility::Public
    } else if l == "pub(crate)"@ {
        Visibility::PublicCrate
    } else if l == "pub(super)"@ {
        Visibility::PublicSuper
    } else if has_prefix(l, "pub(in"@) {
        Visibility::PublicIn
    } else {
        Visibility::Private
    }
}

/// The display string of a visibility.
pub open spec fn visibility_str(v: Visibility) -> Seq<char> {
    match v {
        Visibility::Public => "pub"@,
        Visibility::PublicCrate => "pub(crate)"@,
        Visibility::PublicSuper => "pub(super)"@,
        Visibility::PublicIn => "pub(in ...)"@,
        Visibility::Private => "private"@,
    }
}

impl Visibility {
    /// Parses a visibility string, case-insensitively; anything that is not
    /// a recognised public form is `Private`.
    pub fn from_str(s: &str) -> (r: Self)
        ensures
            r == visibility_of_lower(lowercased(s@)),
    {
        let lower = to_lowercase(s);
        let l = chars_of(lower.as_str());
        if eq_lit(l.as_slice(), "pub") || eq_lit(l.as_slice(), "public") {
            Visibility::Public
        } else if eq_lit(l.as_slice(), "pub(crate)") {
            Visibility::PublicCrate
        } else if eq_lit(l.as_slice(), "pub(super)") {
            Visibility::PublicSuper
        } else {
            let p = chars_of("pub(in");
            if starts_with(l.as_slice(), p.as_slice()) {
                Visibility::PublicIn
            } else {
                Visibility::Private
            }
        }
    }

    /// The display string of this visibility.
    pub fn as_str(&self) -> (r: &'static str)
        ensures
            r@ == visibility_str(*self),
    {
        match self {
            Visibility::Public => "pub",
            Visibility::PublicCrate => "pub(crate)",
            Visibility::PublicSuper => "pub(super)",
            Visibility::PublicIn => "pub(in ...)",
            Visibility::Private => "private",
        }
    }
}

/// Parsing a visibility's display string gives the visibility back.
pub proof fn lemma_visibility_round_trip(v: Visibility)
    ensures
        visibility_of_lower(lowercased(visibility_str(v))) == v,
{
    reveal_strlit("pub");
    reveal_strlit("public");
    reveal_strlit("pub(crate)");
    reveal_strlit("pub(super)");
    reveal_strlit("pub(in");
    reveal_strlit("pub(in ...)");
    reveal_strlit("private");
    let t = visibility_str(v);
    crate::text::lemma_lowercase_fixed(t);
    match v {
        Visibility::PublicIn => {
            assert(t.subrange(0, 6) =~= "pub(in"@);
            assert(crate::text::has_prefix(t, "pub(in"@));
            assert(t != "pub"@ && t != "public"@ && t != "pub(crate)"@);
            assert(t[4] == 'i' && "pub(super)"@[4] == 's');
            assert(t != "pub(super)"@);
            assert(lowercased(t) == t);
            assert(visibility_of_lower(t) == Visibility::PublicIn);
        },
        Visibility::Private => {
            assert(t[1] == 'r' && "pub(in"@[1] == 'u');
            assert(t.subrange(0, 6)[1] == 'r');
            assert(!crate::text::has_prefix(t, "pub(in"@));
        },
        Visibility::Public => {
            assert(lowercased(t) == t);
        },
        Visibility::PublicCrate => {
            assert(lowercased(t) == t);
            assert(t != "pub"@ && t != "public"@);
        },
        Visibility::PublicSuper => {
            assert(lowercased(t) == t);
            assert(t != "pub"@ && t != "public"@);
            assert(t[4] == 's' && "pub(crate)"@[4] == 'c');
            assert(t != "pub(crate)"@);
        },
    }
}

} // verus!
