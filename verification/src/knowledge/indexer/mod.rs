//! Indexing code into the knowledge graph: what to index, how source is cut
//! into chunks, and how entities are found in it.

pub mod chunking;
pub mod extractor;
pub mod patterns;

use vstd::prelude::*;

verus! {

/// Progress information during indexing.
#[derive(Debug, Clone)]
pub struct IndexProgress {
    /// Current file being indexed.
    pub current_file: String,
    /// Number of files processed so far.
    pub files_done: usize,
    /// Total number of files to process.
    pub files_total: usize,
}

} // verus!
