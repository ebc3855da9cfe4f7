//! What is indexed and the patterns and keywords entities are found by.

use vstd::prelude::*;

use crate::knowledge::parser::traits::str_views;

verus! {

/// Maximum chunk size in bytes.
pub const MAX_CHUNK_SIZE: usize = 1000;

/// Chunk overlap in characters.
pub const CHUNK_OVERLAP: usize = 100;

/// Pattern for extracting function calls.
pub const CALL_PATTERN: &'static str = "\\b(\\w+)\\s*\\(";

/// The file extensions indexed by default.
pub open spec fn default_extensions_spec() -> Seq<Seq<char>> {
    seq!["rs"@, "c"@, "cpp"@, "h"@, "hpp"@, "go"@, "java"@, "kt"@, "scala"@, "cs"@, "fs"@, "py"@, "rb"@, "php"@, "js"@, "ts"@, "tsx"@, "jsx"@, "vue"@, "svelte"@, "swift"@, "ml"@, "hs"@, "ex"@, "exs"@, "clj"@, "html"@, "css"@, "scss"@, "yaml"@, "yml"@, "toml"@, "json"@, "md"@, "sql"@]
}

/// Default file extensions to index.
pub fn default_extensions() -> (r: Vec<&'static str>)
    ensures
        str_views(r@) == default_extensions_spec(),
{
    let r = vec!["rs", "c", "cpp", "h", "hpp", "go", "java", "kt", "scala", "cs", "fs", "py", "rb", "php", "js", "ts", "tsx", "jsx", "vue", "svelte", "swift", "ml", "hs", "ex", "exs", "clj", "html", "css", "scss", "yaml", "yml", "toml", "json", "md", "sql"];
    assert(str_views(r@) =~= default_extensions_spec());
    r
}

/// Keywords that are not struct names.
pub open spec fn struct_keywords_spec() -> Seq<Seq<char>> {
    seq!["pub"@, "export"@, "public"@, "class"@, "struct"@, "abstract"@]
}

/// Keywords to filter when extracting struct/class names.
pub fn struct_keywords() -> (r: Vec<&'static str>)
    ensures
        str_views(r@) == struct_keywords_spec(),
{
    let r = vec!["pub", "export", "public", "class", "struct", "abstract"];
    assert(str_views(r@) =~= struct_keywords_spec());
    r
}

/// Keywords that are not function names.
pub open spec fn function_keywords_spec() -> Seq<Seq<char>> {
    seq!["pub"@, "async"@, "fn"@, "function"@, "export"@, "const"@, "let"@, "var"@, "def"@, "func"@, "public"@, "private"@, "protected"@, "static"@]
}

/// Keywords to filter when extracting function names.
pub fn function_keywords() -> (r: Vec<&'static str>)
    ensures
        str_views(r@) == function_keywords_spec(),
{
    let r = vec!["pub", "async", "fn", "function", "export", "const", "let", "var", "def", "func", "public", "private", "protected", "static"];
    assert(str_views(r@) =~= function_keywords_spec());
    r
}

/// Keywords that look like function names.
pub open spec fn non_function_keywords_spec() -> Seq<Seq<char>> {
    seq!["if"@, "for"@, "while"@, "match"@, "switch"@, "return"@, "new"@, "void"@, "int"@, "string"@, "bool"@]
}

/// Common language keywords that look like function calls but aren't.
pub fn non_function_keywords() -> (r: Vec<&'static str>)
    ensures
        str_views(r@) == non_function_keywords_spec(),
{
    let r = vec!["if", "for", "while", "match", "switch", "return", "new", "void", "int", "string", "bool"];
    assert(str_views(r@) =~= non_function_keywords_spec());
    r
}

/// Keywords that are not called functions.
pub open spec fn call_keywords_spec() -> Seq<Seq<char>> {
    seq!["if"@, "for"@, "while"@, "match"@, "switch"@, "return"@, "new"@, "fn"@, "function"@, "def"@, "func"@, "class"@, "struct"@, "enum"@, "type"@, "import"@, "from"@, "use"@, "pub"@, "async"@, "await"@]
}

/// Keywords to filter when extracting function calls.
pub fn call_keywords() -> (r: Vec<&'static str>)
    ensures
        str_views(r@) == call_keywords_spec(),
{
    let r = vec!["if", "for", "while", "match", "switch", "return", "new", "fn", "function", "def", "func", "class", "struct", "enum", "type", "import", "from", "use", "pub", "async", "await"];
    assert(str_views(r@) =~= call_keywords_spec());
    r
}

/// The patterns of struct, enum, class, Go struct and interface definitions.
pub open spec fn struct_patterns_spec() -> Seq<Seq<char>> {
    seq!["(?m)^(\\s*)(pub\\s+)?struct\\s+(\\w+)"@, "(?m)^(\\s*)(pub\\s+)?enum\\s+(\\w+)"@, "(?m)^(\\s*)(export\\s+|public\\s+|abstract\\s+)?(class)\\s+(\\w+)"@, "(?m)^(\\s*)type\\s+(\\w+)\\s+struct"@, "(?m)^(\\s*)(export\\s+|public\\s+)?interface\\s+(\\w+)"@]
}

/// Regex patterns for struct/class extraction.
pub fn struct_patterns() -> (r: Vec<&'static str>)
    ensures
        str_views(r@) == struct_patterns_spec(),
{
    let r = vec!["(?m)^(\\s*)(pub\\s+)?struct\\s+(\\w+)", "(?m)^(\\s*)(pub\\s+)?enum\\s+(\\w+)", "(?m)^(\\s*)(export\\s+|public\\s+|abstract\\s+)?(class)\\s+(\\w+)", "(?m)^(\\s*)type\\s+(\\w+)\\s+struct", "(?m)^(\\s*)(export\\s+|public\\s+)?interface\\s+(\\w+)"];
    assert(str_views(r@) =~= struct_patterns_spec());
    r
}

/// The patterns of function definitions, each with whether its name is the
/// last group that is not a keyword (else the last identifier group).
pub open spec fn function_patterns_spec() -> Seq<(Seq<char>, bool)> {
    seq![("(?m)^(\\s*)(pub\\s+)?(async\\s+)?fn\\s+(\\w+)"@, true), ("(?m)^(\\s*)(export\\s+)?(async\\s+)?function\\s+(\\w+)"@, true), ("(?m)^(\\s*)(export\\s+)?(const|let|var)\\s+(\\w+)\\s*=\\s*(async\\s*)?\\([^)]*\\)\\s*=>"@, false), ("(?m)^(\\s*)(async\\s+)?def\\s+(\\w+)"@, true), ("(?m)^(\\s*)func\\s+(\\([^)]*\\)\\s+)?(\\w+)"@, false), ("(?m)^(\\s*)(public|private|protected)?\\s*(static\\s+)?(async\\s+)?(\\w+)\\s+(\\w+)\\s*\\("@, false)]
}

/// Regex patterns for function extraction, with whether the name is found
/// by skipping keywords.
pub fn function_patterns() -> (r: Vec<(&'static str, bool)>)
    ensures
        r@.map_values(|p: (&'static str, bool)| (p.0@, p.1)) == function_patterns_spec(),
{
    let r = vec![("(?m)^(\\s*)(pub\\s+)?(async\\s+)?fn\\s+(\\w+)", true), ("(?m)^(\\s*)(export\\s+)?(async\\s+)?function\\s+(\\w+)", true), ("(?m)^(\\s*)(export\\s+)?(const|let|var)\\s+(\\w+)\\s*=\\s*(async\\s*)?\\([^)]*\\)\\s*=>", false), ("(?m)^(\\s*)(async\\s+)?def\\s+(\\w+)", true), ("(?m)^(\\s*)func\\s+(\\([^)]*\\)\\s+)?(\\w+)", false), ("(?m)^(\\s*)(public|private|protected)?\\s*(static\\s+)?(async\\s+)?(\\w+)\\s+(\\w+)\\s*\\(", false)];
    assert(r@.map_values(|p: (&'static str, bool)| (p.0@, p.1)) =~= function_patterns_spec());
    r
}

} // verus!
