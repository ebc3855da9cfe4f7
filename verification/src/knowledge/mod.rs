//! Knowledge graph: ontology of code entities and relationships, parsing
//! results, and indexing logic.

pub mod error;
pub mod indexer;
pub mod models;
pub mod ontology;
pub mod records;
pub mod parser;
