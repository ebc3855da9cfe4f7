//! Language-agnostic parsing infrastructure: parse results, parser
//! descriptions and the registry mapping file extensions to parsers.

pub mod csharp;
pub mod go;
pub mod java;
pub mod python;
pub mod result;
pub mod rust;
pub mod syntax;
pub mod traits;
pub mod typescript;
pub mod views;
pub mod walk;
pub mod registry;
