use vstd::prelude::*;

use crate::text::{chars_of, eq_lit, lowercased, to_lowercase};

verus! {

/// A source file.
#[derive(Debug, Clone)]
pub struct FileEntity {
    /// Unique identifier
    pub id: Option<String>,
    /// Relative path
    pub path: String,
    /// File name
    pub name: String,
    /// File extension
    pub extension: String,
    /// Language
    pub language: Language,
    /// Hash of the contents
    pub content_hash: String,
    /// Size in bytes
    pub size: u64,
    /// Number of lines
    pub lines: u32,
    /// Module the file belongs to
    pub module: Option<String>,
    /// Package the file belongs to
    pub package: Option<String>,
    /// Imports
    pub imports: Vec<ImportInfo>,
    /// Exported names
    pub exports: Vec<String>,
    /// When the file was indexed
    pub indexed_at: String,
}
/// Programming or data language of a file.
#[derive(Debug, Clone, Copy, PartialEq, Eq, Structural)]
pub enum Language {
    /// Rust sources
    Rust,
    /// TypeScript sources
    TypeScript,
    /// JavaScript sources
    JavaScript,
    /// Python sources
    Python,
    /// Go sources
    Go,
    /// Java sources
    Java,
    /// Kotlin sources
    Kotlin,
    /// CSharp sources
    CSharp,
    /// Cpp sources
    Cpp,
    /// C sources
    C,
    /// Ruby sources
    Ruby,
    /// Php sources
    Php,
    /// Swift sources
    Swift,
    /// Yaml sources
    Yaml,
    /// Json sources
    Json,
    /// Toml sources
    Toml,
    /// Markdown sources
    Markdown,
    /// Unknown sources
    Unknown,
}

impl Default for Language {
    fn default() -> (r: Language)
        ensures
            r == Language::Unknown,
    {
        Language::Unknown
    }
}
/// The language a lowercased extension denotes.
pub open spec fn language_of_lower(e: Seq<char>) -> Language {
    if e == "rs"@ {
        Language::Rust
    } else if e == "ts"@ || e == "tsx"@ {
        Language::TypeScript
    } else if e == "js"@ || e == "jsx"@ || e == "mjs"@ || e == "cjs"@ {
        Language::JavaScript
    } else if e == "py"@ || e == "pyi"@ {
        Language::Python
    } else if e == "go"@ {
        Language::Go
    } else if e == "java"@ {
        Language::Java
    } else if e == "kt"@ || e == "kts"@ {
        Language::Kotlin
    } else if e == "cs"@ {
        Language::CSharp
    } else if e == "cpp"@ || e == "cc"@ || e == "cxx"@ || e == "hpp"@ || e == "hxx"@ {
        Language::Cpp
    } else if e == "c"@ || e == "h"@ {
        Language::C
    } else if e == "rb"@ {
        Language::Ruby
    } else if e == "php"@ {
        Language::Php
    } else if e == "swift"@ {
        Language::Swift
    } else if e == "yaml"@ || e == "yml"@ {
        Language::Yaml
    } else if e == "json"@ {
        Language::Json
    } else if e == "toml"@ {
        Language::Toml
    } else if e == "md"@ || e == "markdown"@ {
        Language::Markdown
    } else {
        Language::Unknown
    }
}

/// The lowercase name of a language.
pub open spec fn language_str(l: Language) -> Seq<char> {
    match l {
        Language::Rust => "rust"@,
        Language::TypeScript => "typescript"@,
        Language::JavaScript => "javascript"@,
        Language::Python => "python"@,
        Language::Go => "go"@,
        Language::Java => "java"@,
        Language::Kotlin => "kotlin"@,
        Language::CSharp => "csharp"@,
        Language::Cpp => "cpp"@,
        Language::C => "c"@,
        Language::Ruby => "ruby"@,
        Language::Php => "php"@,
        Language::Swift => "swift"@,
        Language::Yaml => "yaml"@,
        Language::Json => "json"@,
        Language::Toml => "toml"@,
        Language::Markdown => "markdown"@,
        Language::Unknown => "unknown"@,
    }
}

impl Language {
    /// The language of a file extension, case-insensitively; `Unknown` otherwise.
    pub fn from_extension(ext: &str) -> (r: Self)
        ensures
            r == language_of_lower(lowercased(ext@)),
    {
        let lower = to_lowercase(ext);
        let e = chars_of(lower.as_str());
        let e = e.as_slice();
        if eq_lit(e, "rs") {
            Language::Rust
        } else if eq_lit(e, "ts") || eq_lit(e, "tsx") {
            Language::TypeScript
        } else if eq_lit(e, "js") || eq_lit(e, "jsx") || eq_lit(e, "mjs") || eq_lit(e, "cjs") {
            Language::JavaScript
        } else if eq_lit(e, "py") || eq_lit(e, "pyi") {
            Language::Python
        } else if eq_lit(e, "go") {
            Language::Go
        } else if eq_lit(e, "java") {
            Language::Java
        } else if eq_lit(e, "kt") || eq_lit(e, "kts") {
            Language::Kotlin
        } else if eq_lit(e, "cs") {
            Language::CSharp
        } else if eq_lit(e, "cpp") || eq_lit(e, "cc") || eq_lit(e, "cxx") || eq_lit(e, "hpp") || eq_lit(e, "hxx") {
            Language::Cpp
        } else if eq_lit(e, "c") || eq_lit(e, "h") {
            Language::C
        } else if eq_lit(e, "rb") {
            Language::Ruby
        } else if eq_lit(e, "php") {
            Language::Php
        } else if eq_lit(e, "swift") {
            Language::Swift
        } else if eq_lit(e, "yaml") || eq_lit(e, "yml") {
            Language::Yaml
        } else if eq_lit(e, "json") {
            Language::Json
        } else if eq_lit(e, "toml") {
            Language::Toml
        } else if eq_lit(e, "md") || eq_lit(e, "markdown") {
            Language::Markdown
        } else {
            Language::Unknown
        }
    }

    /// The lowercase name of this language.
    pub fn as_str(&self) -> (r: &'static str)
        ensures
            r@ == language_str(*self),
    {
        match self {
            Language::Rust => "rust",
            Language::TypeScript => "typescript",
            Language::JavaScript => "javascript",
            Language::Python => "python",
            Language::Go => "go",
            Language::Java => "java",
            Language::Kotlin => "kotlin",
            Language::CSharp => "csharp",
            Language::Cpp => "cpp",
            Language::C => "c",
            Language::Ruby => "ruby",
            Language::Php => "php",
            Language::Swift => "swift",
            Language::Yaml => "yaml",
            Language::Json => "json",
            Language::Toml => "toml",
            Language::Markdown => "markdown",
            Language::Unknown => "unknown",
        }
    }
}

/// An import statement.
#[derive(Debug, Clone)]
pub struct ImportInfo {
    /// Imported module or path
    pub source: String,
    /// Imported items
    pub items: Vec<String>,
    /// Whether this is a re-export
    pub is_reexport: bool,
    /// Line number
    pub line: u32,
}
/// A module (Rust mod, JS module).
#[derive(Debug, Clone)]
pub struct ModuleEntity {
    /// Unique identifier
    pub id: Option<String>,
    /// Module name
    pub name: String,
    /// Module path
    pub path: String,
    /// Defining file
    pub file_path: String,
    /// Parent module
    pub parent: Option<String>,
    /// Visibility
    pub visibility: ModuleVisibility,
    /// Child modules
    pub children: Vec<String>,
    /// Files in the module
    pub files: Vec<String>,
    /// Re-exported items
    pub reexports: Vec<String>,
    /// Documentation comment
    pub doc_comment: Option<String>,
}
/// Visibility of a module.
#[derive(Debug, Clone, Copy, PartialEq, Eq, Structural)]
pub enum ModuleVisibility {
    /// Public module
    Public,
    /// Internal to the package
    Internal,
    /// Private module
    Private,
}

impl Default for ModuleVisibility {
    fn default() -> (r: ModuleVisibility)
        ensures
            r == ModuleVisibility::Private,
    {
        ModuleVisibility::Private
    }
}
/// A package or crate.
#[derive(Debug, Clone)]
pub struct PackageEntity {
    /// Unique identifier
    pub id: Option<String>,
    /// Package name
    pub name: String,
    /// Version
    pub version: String,
    /// Kind of package
    pub package_type: PackageType,
    /// Root directory
    pub root_path: String,
    /// Manifest path
    pub manifest_path: String,
    /// Entry points
    pub entry_points: Vec<EntryPoint>,
    /// Dependencies
    pub dependencies: Vec<DependencyInfo>,
    /// Development dependencies
    pub dev_dependencies: Vec<DependencyInfo>,
    /// Authors
    pub authors: Vec<String>,
    /// License
    pub license: Option<String>,
    /// Description
    pub description: Option<String>,
    /// Repository
    pub repository: Option<String>,
}
/// Kind of package.
#[derive(Debug, Clone, Copy, PartialEq, Eq, Structural)]
pub enum PackageType {
    /// Rust library
    RustLib,
    /// Rust binary
    RustBin,
    /// Rust procedural macro
    RustProcMacro,
    /// npm package
    Npm,
    /// Python package
    Python,
    /// Go module
    Go,
    /// Maven project
    Maven,
    /// Unknown kind
    Unknown,
}
/// An entry point of a package.
#[derive(Debug, Clone)]
pub struct EntryPoint {
    /// Name
    pub name: String,
    /// Path
    pub path: String,
    /// Kind of entry point
    pub entry_type: EntryPointType,
}
/// Kind of entry point.
#[derive(Debug, Clone, Copy, PartialEq, Eq, Structural)]
pub enum EntryPointType {
    /// Library root
    Library,
    /// Binary
    Binary,
    /// Example
    Example,
    /// Benchmark
    Bench,
    /// Test
    Test,
    /// Main program
    Main,
}
/// A package dependency.
#[derive(Debug, Clone)]
pub struct DependencyInfo {
    /// Dependency name
    pub name: String,
    /// Version requirement
    pub version: String,
    /// Where it comes from
    pub source: DependencySource,
    /// Whether optional
    pub optional: bool,
    /// Enabled features
    pub features: Vec<String>,
}
/// Where a dependency comes from.
#[derive(Debug, Clone)]
pub enum DependencySource {
    /// A package registry
    Registry { registry: String },
    /// A git repository
    Git { url: String, branch: Option<String> },
    /// A local path
    Path { path: String },
    /// The enclosing workspace
    Workspace,
}

/// The language a lowercase name names.
spec fn language_named(n: Seq<char>) -> Language {
    if n == "rust"@ {
        Language::Rust
    } else if n == "typescript"@ {
        Language::TypeScript
    } else if n == "javascript"@ {
        Language::JavaScript
    } else if n == "python"@ {
        Language::Python
    } else if n == "go"@ {
        Language::Go
    } else if n == "java"@ {
        Language::Java
    } else if n == "kotlin"@ {
        Language::Kotlin
    } else if n == "csharp"@ {
        Language::CSharp
    } else if n == "cpp"@ {
        Language::Cpp
    } else if n == "c"@ {
        Language::C
    } else if n == "ruby"@ {
        Language::Ruby
    } else if n == "php"@ {
        Language::Php
    } else if n == "swift"@ {
        Language::Swift
    } else if n == "yaml"@ {
        Language::Yaml
    } else if n == "json"@ {
        Language::Json
    } else if n == "toml"@ {
        Language::Toml
    } else if n == "markdown"@ {
        Language::Markdown
    } else {
        Language::Unknown
    }
}

/// Each language's name names it.
proof fn lemma_language_named(l: Language)
    ensures
        language_named(language_str(l)) == l,
{
    reveal_strlit("rust");
    reveal_strlit("typescript");
    reveal_strlit("javascript");
    reveal_strlit("python");
    reveal_strlit("go");
    reveal_strlit("java");
    reveal_strlit("kotlin");
    reveal_strlit("csharp");
    reveal_strlit("cpp");
    reveal_strlit("c");
    reveal_strlit("ruby");
    reveal_strlit("php");
    reveal_strlit("swift");
    reveal_strlit("yaml");
    reveal_strlit("json");
    reveal_strlit("toml");
    reveal_strlit("markdown");
    reveal_strlit("unknown");
    match l {
        Language::Rust => {

        },
        Language::TypeScript => {
            assert("typescript"@.len() != "rust"@.len());
        },
        Language::JavaScript => {
            assert("javascript"@.len() != "rust"@.len());
            assert("javascript"@[0] != "typescript"@[0]);
        },
        Language::Python => {
            assert("python"@.len() != "rust"@.len());
            assert("python"@.len() != "typescript"@.len());
            assert("python"@.len() != "javascript"@.len());
        },
        Language::Go => {
            assert("go"@.len() != "rust"@.len());
            assert("go"@.len() != "typescript"@.len());
            assert("go"@.len() != "javascript"@.len());
            assert("go"@.len() != "python"@.len());
        },
        Language::Java => {
            assert("java"@[0] != "rust"@[0]);
            assert("java"@.len() != "typescript"@.len());
            assert("java"@.len() != "javascript"@.len());
            assert("java"@.len() != "python"@.len());
            assert("java"@.len() != "go"@.len());
        },
        Language::Kotlin => {
            assert("kotlin"@.len() != "rust"@.len());
            assert("kotlin"@.len() != "typescript"@.len());
            assert("kotlin"@.len() != "javascript"@.len());
            assert("kotlin"@[0] != "python"@[0]);
            assert("kotlin"@.len() != "go"@.len());
            assert("kotlin"@.len() != "java"@.len());
        },
        Language::CSharp => {
            assert("csharp"@.len() != "rust"@.len());
            assert("csharp"@.len() != "typescript"@.len());
            assert("csharp"@.len() != "javascript"@.len());
            assert("csharp"@[0] != "python"@[0]);
            assert("csharp"@.len() != "go"@.len());
            assert("csharp"@.len() != "java"@.len());
            assert("csharp"@[0] != "kotlin"@[0]);
        },
        Language::Cpp => {
            assert("cpp"@.len() != "rust"@.len());
            assert("cpp"@.len() != "typescript"@.len());
            assert("cpp"@.len() != "javascript"@.len());
            assert("cpp"@.len() != "python"@.len());
            assert("cpp"@.len() != "go"@.len());
            assert("cpp"@.len() != "java"@.len());
            assert("cpp"@.len() != "kotlin"@.len());
            assert("cpp"@.len() != "csharp"@.len());
        },
        Language::C => {
            assert("c"@.len() != "rust"@.len());
            assert("c"@.len() != "typescript"@.len());
            assert("c"@.len() != "javascript"@.len());
            assert("c"@.len() != "python"@.len());
            assert("c"@.len() != "go"@.len());
            assert("c"@.len() != "java"@.len());
            assert("c"@.len() != "kotlin"@.len());
            assert("c"@.len() != "csharp"@.len());
            assert("c"@.len() != "cpp"@.len());
        },
        Language::Ruby => {
            assert("ruby"@[2] != "rust"@[2]);
            assert("ruby"@.len() != "typescript"@.len());
            assert("ruby"@.len() != "javascript"@.len());
            assert("ruby"@.len() != "python"@.len());
            assert("ruby"@.len() != "go"@.len());
            assert("ruby"@[0] != "java"@[0]);
            assert("ruby"@.len() != "kotlin"@.len());
            assert("ruby"@.len() != "csharp"@.len());
            assert("ruby"@.len() != "cpp"@.len());
            assert("ruby"@.len() != "c"@.len());
        },
        Language::Php => {
            assert("php"@.len() != "rust"@.len());
            assert("php"@.len() != "typescript"@.len());
            assert("php"@.len() != "javascript"@.len());
            assert("php"@.len() != "python"@.len());
            assert("php"@.len() != "go"@.len());
            assert("php"@.len() != "java"@.len());
            assert("php"@.len() != "kotlin"@.len());
            assert("php"@.len() != "csharp"@.len());
            assert("php"@[0] != "cpp"@[0]);
            assert("php"@.len() != "c"@.len());
            assert("php"@.len() != "ruby"@.len());
        },
        Language::Swift => {
            assert("swift"@.len() != "rust"@.len());
            assert("swift"@.len() != "typescript"@.len());
            assert("swift"@.len() != "javascript"@.len());
            assert("swift"@.len() != "python"@.len());
            assert("swift"@.len() != "go"@.len());
            assert("swift"@.len() != "java"@.len());
            assert("swift"@.len() != "kotlin"@.len());
            assert("swift"@.len() != "csharp"@.len());
            assert("swift"@.len() != "cpp"@.len());
            assert("swift"@.len() != "c"@.len());
            assert("swift"@.len() != "ruby"@.len());
            assert("swift"@.len() != "php"@.len());
        },
        Language::Yaml => {
            assert("yaml"@[0] != "rust"@[0]);
            assert("yaml"@.len() != "typescript"@.len());
            assert("yaml"@.len() != "javascript"@.len());
            assert("yaml"@.len() != "python"@.len());
            assert("yaml"@.len() != "go"@.len());
            assert("yaml"@[0] != "java"@[0]);
            assert("yaml"@.len() != "kotlin"@.len());
            assert("yaml"@.len() != "csharp"@.len());
            assert("yaml"@.len() != "cpp"@.len());
            assert("yaml"@.len() != "c"@.len());
            assert("yaml"@[0] != "ruby"@[0]);
            assert("yaml"@.len() != "php"@.len());
            assert("yaml"@.len() != "swift"@.len());
        },
        Language::Json => {
            assert("json"@[0] != "rust"@[0]);
            assert("json"@.len() != "typescript"@.len());
            assert("json"@.len() != "javascript"@.len());
            assert("json"@.len() != "python"@.len());
            assert("json"@.len() != "go"@.len());
            assert("json"@[1] != "java"@[1]);
            assert("json"@.len() != "kotlin"@.len());
            assert("json"@.len() != "csharp"@.len());
            assert("json"@.len() != "cpp"@.len());
            assert("json"@.len() != "c"@.len());
            assert("json"@[0] != "ruby"@[0]);
            assert("json"@.len() != "php"@.len());
            assert("json"@.len() != "swift"@.len());
            assert("json"@[0] != "yaml"@[0]);
        },
        Language::Toml => {
            assert("toml"@[0] != "rust"@[0]);
            assert("toml"@.len() != "typescript"@.len());
            assert("toml"@.len() != "javascript"@.len());
            assert("toml"@.len() != "python"@.len());
            assert("toml"@.len() != "go"@.len());
            assert("toml"@[0] != "java"@[0]);
            assert("toml"@.len() != "kotlin"@.len());
            assert("toml"@.len() != "csharp"@.len());
            assert("toml"@.len() != "cpp"@.len());
            assert("toml"@.len() != "c"@.len());
            assert("toml"@[0] != "ruby"@[0]);
            assert("toml"@.len() != "php"@.len());
            assert("toml"@.len() != "swift"@.len());
            assert("toml"@[0] != "yaml"@[0]);
            assert("toml"@[0] != "json"@[0]);
        },
        Language::Markdown => {
            assert("markdown"@.len() != "rust"@.len());
            assert("markdown"@.len() != "typescript"@.len());
            assert("markdown"@.len() != "javascript"@.len());
            assert("markdown"@.len() != "python"@.len());
            assert("markdown"@.len() != "go"@.len());
            assert("markdown"@.len() != "java"@.len());
            assert("markdown"@.len() != "kotlin"@.len());
            assert("markdown"@.len() != "csharp"@.len());
            assert("markdown"@.len() != "cpp"@.len());
            assert("markdown"@.len() != "c"@.len());
            assert("markdown"@.len() != "ruby"@.len());
            assert("markdown"@.len() != "php"@.len());
            assert("markdown"@.len() != "swift"@.len());
            assert("markdown"@.len() != "yaml"@.len());
            assert("markdown"@.len() != "json"@.len());
            assert("markdown"@.len() != "toml"@.len());
        },
        Language::Unknown => {
            assert("unknown"@.len() != "rust"@.len());
            assert("unknown"@.len() != "typescript"@.len());
            assert("unknown"@.len() != "javascript"@.len());
            assert("unknown"@.len() != "python"@.len());
            assert("unknown"@.len() != "go"@.len());
            assert("unknown"@.len() != "java"@.len());
            assert("unknown"@.len() != "kotlin"@.len());
            assert("unknown"@.len() != "csharp"@.len());
            assert("unknown"@.len() != "cpp"@.len());
            assert("unknown"@.len() != "c"@.len());
            assert("unknown"@.len() != "ruby"@.len());
            assert("unknown"@.len() != "php"@.len());
            assert("unknown"@.len() != "swift"@.len());
            assert("unknown"@.len() != "yaml"@.len());
            assert("unknown"@.len() != "json"@.len());
            assert("unknown"@.len() != "toml"@.len());
            assert("unknown"@.len() != "markdown"@.len());
        },
    }
}

/// The names of languages are lowercase ASCII, and no two languages share
/// a name.
pub proof fn lemma_language_names(a: Language, b: Language)
    ensures
        lowercased(language_str(a)) == language_str(a),
        language_str(a) == language_str(b) ==> a == b,
{
    reveal_strlit("rust");
    reveal_strlit("typescript");
    reveal_strlit("javascript");
    reveal_strlit("python");
    reveal_strlit("go");
    reveal_strlit("java");
    reveal_strlit("kotlin");
    reveal_strlit("csharp");
    reveal_strlit("cpp");
    reveal_strlit("c");
    reveal_strlit("ruby");
    reveal_strlit("php");
    reveal_strlit("swift");
    reveal_strlit("yaml");
    reveal_strlit("json");
    reveal_strlit("toml");
    reveal_strlit("markdown");
    reveal_strlit("unknown");
    crate::text::lemma_lowercase_fixed(language_str(a));
    lemma_language_named(a);
    lemma_language_named(b);
}

} // verus!
