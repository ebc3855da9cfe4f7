//! Arq core: task workflow, planning and research documents, and the
//! knowledge-graph ontology used to describe a codebase.

pub mod config;
pub mod phase;
pub mod task;
pub mod text;
pub mod knowledge;
pub mod response;
pub mod research;
pub mod storage;
pub mod llm;
pub mod manager;
pub mod planning;
