use vstd::prelude::*;

use crate::text::owned;

verus! {

/// A EXPOSES B: function or handler A exposes endpoint B.
#[derive(Debug, Clone)]
pub struct ExposesEdge {
    /// Source node ID (handler function)
    pub from: String,
    /// Target node ID (endpoint)
    pub to: String,
    /// Framework used (axum, actix, express, etc.)
    pub framework: Option<String>,
    /// Route annotation/decorator
    pub annotation: Option<String>,
    /// Middleware applied
    pub middleware: Vec<String>,
}
impl ExposesEdge {
    /// Creates an edge with no framework, annotation or middleware.
    pub fn new(from: &str, to: &str) -> (r: Self)
        ensures
            r.from@ == from@,
            r.to@ == to@,
            r.framework is None,
            r.annotation is None,
            r.middleware@.len() == 0,
    {
        ExposesEdge {
            from: owned(from),
            to: owned(to),
            framework: None,
            annotation: None,
            middleware: Vec::new(),
        }
    }

    /// Sets the framework.
    pub fn with_framework(self, framework: &str) -> (r: Self)
        ensures
            r == (ExposesEdge { framework: r.framework, ..self }),
            r.framework matches Some(f) && f@ == framework@,
    {
        let mut s = self;
        s.framework = Some(owned(framework));
        s
    }

    /// Sets the middleware list.
    pub fn with_middleware(self, middleware: Vec<String>) -> (r: Self)
        ensures
            r == (ExposesEdge { middleware: r.middleware, ..self }),
            r.middleware == middleware,
    {
        let mut s = self;
        s.middleware = middleware;
        s
    }
}

/// A MAPS_TO B: API entity A maps to implementation B.
#[derive(Debug, Clone)]
pub struct MapsToEdge {
    /// Source node ID (API entity)
    pub from: String,
    /// Target node ID (implementation)
    pub to: String,
    /// Mapping type
    pub mapping_type: MappingType,
    /// Transformation applied (if any)
    pub transformation: Option<String>,
}
impl MapsToEdge {
    /// Creates a direct mapping without transformation.
    pub fn new(from: &str, to: &str) -> (r: Self)
        ensures
            r.from@ == from@,
            r.to@ == to@,
            r.mapping_type == MappingType::Direct,
            r.transformation is None,
    {
        MapsToEdge {
            from: owned(from),
            to: owned(to),
            mapping_type: MappingType::Direct,
            transformation: None,
        }
    }

    /// Marks the mapping as an adapter.
    pub fn adapter(self) -> (r: Self)
        ensures
            r == (MapsToEdge { mapping_type: r.mapping_type, ..self }),
            r.mapping_type == MappingType::Adapter,
    {
        let mut s = self;
        s.mapping_type = MappingType::Adapter;
        s
    }

    /// Sets the transformation.
    pub fn with_transformation(self, transform: &str) -> (r: Self)
        ensures
            r == (MapsToEdge { transformation: r.transformation, ..self }),
            r.transformation matches Some(t) && t@ == transform@,
    {
        let mut s = self;
        s.transformation = Some(owned(transform));
        s
    }
}

/// Type of API-to-implementation mapping.
#[derive(Debug, Clone, Copy, PartialEq, Eq, Structural)]
pub enum MappingType {
    /// Direct 1:1 mapping
    Direct,
    /// Adapter/wrapper pattern
    Adapter,
    /// Aggregated from multiple sources
    Aggregated,
    /// Generated (e.g., from OpenAPI spec)
    Generated,
}

impl Default for MappingType {
    fn default() -> (r: MappingType)
        ensures
            r == MappingType::Direct,
    {
        MappingType::Direct
    }
}
/// A CONSUMES B: endpoint A consumes schema B as input.
#[derive(Debug, Clone)]
pub struct ConsumesEdge {
    /// Source node ID (endpoint)
    pub from: String,
    /// Target node ID (schema)
    pub to: String,
    /// Content type (application/json, etc.)
    pub content_type: String,
    /// Whether the body is required
    pub required: bool,
    /// Validation applied
    pub validation: Option<String>,
}
impl ConsumesEdge {
    /// Creates a required JSON body edge without validation.
    pub fn new(from: &str, to: &str) -> (r: Self)
        ensures
            r.from@ == from@,
            r.to@ == to@,
            r.content_type@ == "application/json"@,
            r.required,
            r.validation is None,
    {
        ConsumesEdge {
            from: owned(from),
            to: owned(to),
            content_type: owned("application/json"),
            required: true,
            validation: None,
        }
    }

    /// Marks the body as optional.
    pub fn optional(self) -> (r: Self)
        ensures
            r == (ConsumesEdge { required: r.required, ..self }),
            !r.required,
    {
        let mut s = self;
        s.required = false;
        s
    }

    /// Sets the content type.
    pub fn with_content_type(self, content_type: &str) -> (r: Self)
        ensures
            r == (ConsumesEdge { content_type: r.content_type, ..self }),
            r.content_type@ == content_type@,
    {
        let mut s = self;
        s.content_type = owned(content_type);
        s
    }
}

/// A PRODUCES B: endpoint A produces schema B as output.
#[derive(Debug, Clone)]
pub struct ProducesEdge {
    /// Source node ID (endpoint)
    pub from: String,
    /// Target node ID (schema)
    pub to: String,
    /// HTTP status code for this response
    pub status_code: u16,
    /// Content type
    pub content_type: String,
    /// Whether this is the primary/success response
    pub is_primary: bool,
    /// Description of when this response is returned
    pub description: Option<String>,
}
impl ProducesEdge {
    /// Creates a primary 200 JSON response edge without description.
    pub fn new(from: &str, to: &str) -> (r: Self)
        ensures
            r.from@ == from@,
            r.to@ == to@,
            r.status_code == 200,
            r.content_type@ == "application/json"@,
            r.is_primary,
            r.description is None,
    {
        ProducesEdge {
            from: owned(from),
            to: owned(to),
            status_code: 200,
            content_type: owned("application/json"),
            is_primary: true,
            description: None,
        }
    }

    /// Sets the status code.
    pub fn with_status(self, status: u16) -> (r: Self)
        ensures
            r == (ProducesEdge { status_code: r.status_code, ..self }),
            r.status_code == status,
    {
        let mut s = self;
        s.status_code = status;
        s
    }

    /// Marks this as a non-primary response with the given status.
    pub fn error_response(self, status: u16) -> (r: Self)
        ensures
            r == (ProducesEdge { status_code: r.status_code, is_primary: r.is_primary, ..self }),
            r.status_code == status,
            !r.is_primary,
    {
        let mut s = self;
        s.status_code = status;
        s.is_primary = false;
        s
    }
}

} // verus!
