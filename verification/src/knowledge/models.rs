//! Records of the knowledge graph: files, code nodes, chunks and
//! statistics.

use vstd::prelude::*;

use crate::task::{now, Timestamp};
use crate::text::{extension_of_path, file_name_of_path, owned, extension_of, file_name_of};

verus! {

broadcast use vstd::string::group_string_axioms;

/// A code chunk to be embedded for semantic search (its embedding is
/// attached where it is computed).
#[derive(Debug, Clone)]
pub struct CodeChunk {
    /// Record id, once stored.
    pub id: Option<String>,
    /// File path containing this chunk.
    pub file_path: String,
    /// Entity ID (struct or function) this chunk belongs to, if any.
    pub entity_id: Option<String>,
    /// Entity type ("struct", "function", or "file").
    pub entity_type: String,
    /// The actual code content.
    pub content: String,
    /// Start line number.
    pub start_line: u32,
    /// End line number.
    pub end_line: u32,
}

impl CodeChunk {
    /// Create a new code chunk of a file.
    pub fn new(file_path: &str, content: &str, start_line: u32, end_line: u32) -> (c: Self)
        ensures
            c.id is None,
            c.file_path@ == file_path@,
            c.entity_id is None,
            c.entity_type@ == "file"@,
            c.content@ == content@,
            c.start_line == start_line,
            c.end_line == end_line,
    {
        CodeChunk {
            id: None,
            file_path: owned(file_path),
            entity_id: None,
            entity_type: owned("file"),
            content: owned(content),
            start_line,
            end_line,
        }
    }

    /// Set the entity this chunk belongs to.
    pub fn with_entity(self, entity_id: &str, entity_type: &str) -> (c: Self)
        ensures
            c.entity_id matches Some(e) && e@ == entity_id@,
            c.entity_type@ == entity_type@,
            c.id == self.id,
            c.file_path == self.file_path,
            c.content == self.content,
            c.start_line == self.start_line,
            c.end_line == self.end_line,
    {
        let mut c = self;
        c.entity_id = Some(owned(entity_id));
        c.entity_type = owned(entity_type);
        c
    }
}

/// Statistics about the knowledge graph index.
#[derive(Debug, Clone, Copy, PartialEq, Eq, Structural)]
pub struct IndexStats {
    /// Number of indexed files.
    pub files: usize,
    /// Number of indexed structs/classes.
    pub structs: usize,
    /// Number of indexed functions/methods.
    pub functions: usize,
    /// Number of code chunks.
    pub chunks: usize,
    /// Total size of indexed files in bytes.
    pub total_size: u64,
    /// Last update time.
    pub last_updated: Option<Timestamp>,
}

impl Default for IndexStats {
    fn default() -> (s: Self)
        ensures
            s == (IndexStats {
                files: 0,
                structs: 0,
                functions: 0,
                chunks: 0,
                total_size: 0,
                last_updated: None,
            }),
    {
        IndexStats { files: 0, structs: 0, functions: 0, chunks: 0, total_size: 0, last_updated: None }
    }
}

/// A file node in the knowledge graph.
#[derive(Debug, Clone)]
pub struct FileNode {
    /// Record id, once stored.
    pub id: Option<String>,
    /// Relative path from project root.
    pub path: String,
    /// File name.
    pub name: String,
    /// File extension.
    pub extension: String,
    /// SHA256 hash of file contents (for change detection).
    pub hash: String,
    /// File size in bytes.
    pub size: u64,
    /// When the file was indexed.
    pub indexed_at: Timestamp,
}

/// A present value, or the empty text.
pub open spec fn or_empty(o: Option<Seq<char>>) -> Seq<char> {
    match o {
        Some(s) => s,
        None => Seq::empty(),
    }
}

impl FileNode {
    /// Create a new file node, with the file's name and extension taken
    /// from its path (empty when it has none).
    pub fn new(path: &str, hash: &str, size: u64) -> (f: Self)
        ensures
            f.id is None,
            f.path@ == path@,
            f.name@ == or_empty(file_name_of(path@)),
            f.extension@ == or_empty(extension_of(path@)),
            f.hash@ == hash@,
            f.size == size,
    {
        let name = match file_name_of_path(path) {
            Some(n) => n,
            None => String::new(),
        };
        let extension = match extension_of_path(path) {
            Some(e) => e,
            None => String::new(),
        };
        FileNode {
            id: None,
            path: owned(path),
            name,
            extension,
            hash: owned(hash),
            size,
            indexed_at: now(),
        }
    }
}

/// A struct/class node in the knowledge graph.
#[derive(Debug, Clone)]
pub struct StructNode {
    /// Record id, once stored.
    pub id: Option<String>,
    /// Struct/class name.
    pub name: String,
    /// File containing this struct.
    pub file_path: String,
    /// Start line number.
    pub start_line: u32,
    /// End line number.
    pub end_line: u32,
    /// Visibility ("public" or "private").
    pub visibility: String,
    /// Documentation comment.
    pub doc_comment: Option<String>,
}

/// A function/method node in the knowledge graph.
#[derive(Debug, Clone)]
pub struct FunctionNode {
    /// Record id, once stored.
    pub id: Option<String>,
    /// Function name.
    pub name: String,
    /// File containing this function.
    pub file_path: String,
    /// Parent struct (if this is a method).
    pub parent_struct: Option<String>,
    /// Start line number.
    pub start_line: u32,
    /// End line number.
    pub end_line: u32,
    /// Visibility ("public" or "private").
    pub visibility: String,
    /// Whether the function is async.
    pub is_async: bool,
    /// Function signature.
    pub signature: String,
    /// Documentation comment.
    pub doc_comment: Option<String>,
}

} // verus!
