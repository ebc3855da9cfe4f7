use vstd::prelude::*;


verus! {

/// A REST, GraphQL or gRPC endpoint.
#[derive(Debug, Clone)]
pub struct EndpointEntity {
    /// Unique identifier
    pub id: Option<String>,
    /// Route path
    pub path: String,
    /// HTTP method or operation kind
    pub method: HttpMethod,
    /// Handler function ID
    pub handler: String,
    /// File defining the endpoint
    pub file_path: String,
    /// Line number
    pub line: u32,
    /// API style
    pub api_type: ApiType,
    /// Request schema ID
    pub request_schema: Option<String>,
    /// Response schema ID
    pub response_schema: Option<String>,
    /// Path parameters
    pub path_params: Vec<ApiParam>,
    /// Query parameters
    pub query_params: Vec<ApiParam>,
    /// Header parameters
    pub headers: Vec<ApiParam>,
    /// Authentication requirement
    pub auth: Option<AuthRequirement>,
    /// Tags
    pub tags: Vec<String>,
    /// Description
    pub description: Option<String>,
    /// Deprecation information
    pub deprecated: Option<DeprecationInfo>,
}
/// HTTP method, GraphQL operation kind or gRPC call kind.
#[derive(Debug, Clone, Copy, PartialEq, Eq, Structural)]
pub enum HttpMethod {
    /// GET operation
    Get,
    /// POST operation
    Post,
    /// PUT operation
    Put,
    /// PATCH operation
    Patch,
    /// DELETE operation
    Delete,
    /// HEAD operation
    Head,
    /// OPTIONS operation
    Options,
    /// QUERY operation
    Query,
    /// MUTATION operation
    Mutation,
    /// SUBSCRIPTION operation
    Subscription,
    /// UNARY operation
    Unary,
    /// SERVER_STREAM operation
    ServerStream,
    /// CLIENT_STREAM operation
    ClientStream,
    /// BIDI_STREAM operation
    BidiStream,
}
/// The upper-case name of a method.
pub open spec fn http_method_str(m: HttpMethod) -> Seq<char> {
    match m {
        HttpMethod::Get => "GET"@,
        HttpMethod::Post => "POST"@,
        HttpMethod::Put => "PUT"@,
        HttpMethod::Patch => "PATCH"@,
        HttpMethod::Delete => "DELETE"@,
        HttpMethod::Head => "HEAD"@,
        HttpMethod::Options => "OPTIONS"@,
        HttpMethod::Query => "QUERY"@,
        HttpMethod::Mutation => "MUTATION"@,
        HttpMethod::Subscription => "SUBSCRIPTION"@,
        HttpMethod::Unary => "UNARY"@,
        HttpMethod::ServerStream => "SERVER_STREAM"@,
        HttpMethod::ClientStream => "CLIENT_STREAM"@,
        HttpMethod::BidiStream => "BIDI_STREAM"@,
    }
}

impl HttpMethod {
    /// The upper-case name of this method.
    pub fn as_str(&self) -> (r: &'static str)
        ensures
            r@ == http_method_str(*self),
    {
        match self {
            HttpMethod::Get => "GET",
            HttpMethod::Post => "POST",
            HttpMethod::Put => "PUT",
            HttpMethod::Patch => "PATCH",
            HttpMethod::Delete => "DELETE",
            HttpMethod::Head => "HEAD",
            HttpMethod::Options => "OPTIONS",
            HttpMethod::Query => "QUERY",
            HttpMethod::Mutation => "MUTATION",
            HttpMethod::Subscription => "SUBSCRIPTION",
            HttpMethod::Unary => "UNARY",
            HttpMethod::ServerStream => "SERVER_STREAM",
            HttpMethod::ClientStream => "CLIENT_STREAM",
            HttpMethod::BidiStream => "BIDI_STREAM",
        }
    }
}

/// API style.
#[derive(Debug, Clone, Copy, PartialEq, Eq, Structural)]
pub enum ApiType {
    /// REST API
    Rest,
    /// GraphQL API
    GraphQL,
    /// gRPC API
    Grpc,
    /// WebSocket API
    WebSocket,
    /// Other API style
    Custom,
}
/// An API parameter.
#[derive(Debug, Clone)]
pub struct ApiParam {
    /// Parameter name
    pub name: String,
    /// Parameter type, as written
    pub type_str: String,
    /// Whether required
    pub required: bool,
    /// Default value
    pub default_value: Option<String>,
    /// Description
    pub description: Option<String>,
    /// Validation rule
    pub validation: Option<String>,
}
/// An authentication requirement.
#[derive(Debug, Clone)]
pub struct AuthRequirement {
    /// Authentication scheme
    pub auth_type: AuthType,
    /// Required scopes
    pub scopes: Vec<String>,
    /// Whether authentication is optional
    pub optional: bool,
}
/// Authentication scheme.
#[derive(Debug, Clone, Copy, PartialEq, Eq, Structural)]
pub enum AuthType {
    /// No authentication
    NoAuth,
    /// Bearer token
    Bearer,
    /// Basic authentication
    Basic,
    /// API key
    ApiKey,
    /// OAuth 2
    OAuth2,
    /// Other scheme
    Custom,
}
/// Deprecation information.
#[derive(Debug, Clone)]
pub struct DeprecationInfo {
    /// Version deprecated since
    pub since: Option<String>,
    /// Replacement
    pub replacement: Option<String>,
    /// Message
    pub message: Option<String>,
}
/// A data schema or DTO.
#[derive(Debug, Clone)]
pub struct SchemaEntity {
    /// Unique identifier
    pub id: Option<String>,
    /// Schema name
    pub name: String,
    /// Full qualified name
    pub qualified_name: String,
    /// File defining the schema
    pub file_path: String,
    /// Start line
    pub start_line: u32,
    /// End line
    pub end_line: u32,
    /// Schema role
    pub schema_type: SchemaType,
    /// Fields
    pub fields: Vec<SchemaField>,
    /// Source type ID
    pub source_type: Option<String>,
    /// Validations
    pub validations: Vec<String>,
    /// Serialization format
    pub format: SerializationFormat,
    /// Description
    pub description: Option<String>,
    /// Example
    pub example: Option<String>,
}
/// Role of a schema.
#[derive(Debug, Clone, Copy, PartialEq, Eq, Structural)]
pub enum SchemaType {
    /// Request body
    Request,
    /// Response body
    Response,
    /// Data transfer object
    Dto,
    /// Event payload
    Event,
    /// Persisted entity
    Entity,
}
/// A schema field.
#[derive(Debug, Clone)]
pub struct SchemaField {
    /// Field name
    pub name: String,
    /// Field type, as written
    pub type_str: String,
    /// Whether required
    pub required: bool,
    /// Whether nullable
    pub nullable: bool,
    /// Default value
    pub default_value: Option<String>,
    /// Description
    pub description: Option<String>,
    /// Validation rule
    pub validation: Option<String>,
    /// Serialized name
    pub serialized_name: Option<String>,
}
/// Serialization format.
#[derive(Debug, Clone, Copy, PartialEq, Eq, Structural)]
pub enum SerializationFormat {
    /// JSON
    Json,
    /// XML
    Xml,
    /// Protocol buffers
    Protobuf,
    /// MessagePack
    MessagePack,
    /// YAML
    Yaml,
    /// Other format
    Custom,
}

impl Default for SerializationFormat {
    fn default() -> (r: SerializationFormat)
        ensures
            r == SerializationFormat::Json,
    {
        SerializationFormat::Json
    }
}
/// An API operation.
#[derive(Debug, Clone)]
pub struct OperationEntity {
    /// Unique identifier
    pub id: Option<String>,
    /// Operation name
    pub name: String,
    /// Operation ID
    pub operation_id: String,
    /// File defining the operation
    pub file_path: String,
    /// Line number
    pub line: u32,
    /// Method
    pub method: HttpMethod,
    /// Path
    pub path: String,
    /// Summary
    pub summary: Option<String>,
    /// Description
    pub description: Option<String>,
    /// Tags
    pub tags: Vec<String>,
    /// Request body schema ID
    pub request_body: Option<String>,
    /// Responses
    pub responses: Vec<OperationResponse>,
}
/// A response of an operation.
#[derive(Debug, Clone)]
pub struct OperationResponse {
    /// HTTP status code
    pub status_code: u16,
    /// Description
    pub description: Option<String>,
    /// Schema ID
    pub schema: Option<String>,
}
/// The method a name names.
spec fn method_named(n: Seq<char>) -> HttpMethod {
    if n == "GET"@ {
        HttpMethod::Get
    } else if n == "POST"@ {
        HttpMethod::Post
    } else if n == "PUT"@ {
        HttpMethod::Put
    } else if n == "PATCH"@ {
        HttpMethod::Patch
    } else if n == "DELETE"@ {
        HttpMethod::Delete
    } else if n == "HEAD"@ {
        HttpMethod::Head
    } else if n == "OPTIONS"@ {
        HttpMethod::Options
    } else if n == "QUERY"@ {
        HttpMethod::Query
    } else if n == "MUTATION"@ {
        HttpMethod::Mutation
    } else if n == "SUBSCRIPTION"@ {
        HttpMethod::Subscription
    } else if n == "UNARY"@ {
        HttpMethod::Unary
    } else if n == "SERVER_STREAM"@ {
        HttpMethod::ServerStream
    } else if n == "CLIENT_STREAM"@ {
        HttpMethod::ClientStream
    } else {
        HttpMethod::BidiStream
    }
}

/// Each method's name is capitals and underscores and names it.
proof fn lemma_method_name_of(m: HttpMethod)
    ensures
        crate::knowledge::ontology::edges::upper_snake(http_method_str(m)),
        method_named(http_method_str(m)) == m,
{
    reveal_strlit("GET");
    reveal_strlit("POST");
    reveal_strlit("PUT");
    reveal_strlit("PATCH");
    reveal_strlit("DELETE");
    reveal_strlit("HEAD");
    reveal_strlit("OPTIONS");
    reveal_strlit("QUERY");
    reveal_strlit("MUTATION");
    reveal_strlit("SUBSCRIPTION");
    reveal_strlit("UNARY");
    reveal_strlit("SERVER_STREAM");
    reveal_strlit("CLIENT_STREAM");
    reveal_strlit("BIDI_STREAM");
    let name = http_method_str(m);
    match m {
        HttpMethod::Get => {
            assert(name =~= seq!['G', 'E', 'T']);
        },
        HttpMethod::Post => {
            assert("POST"@.len() != "GET"@.len());
            assert(name =~= seq!['P', 'O', 'S', 'T']);
        },
        HttpMethod::Put => {
            assert("PUT"@[0] != "GET"@[0]);
            assert("PUT"@.len() != "POST"@.len());
            assert(name =~= seq!['P', 'U', 'T']);
        },
        HttpMethod::Patch => {
            assert("PATCH"@.len() != "GET"@.len());
            assert("PATCH"@.len() != "POST"@.len());
            assert("PATCH"@.len() != "PUT"@.len());
            assert(name =~= seq!['P', 'A', 'T', 'C', 'H']);
        },
        HttpMethod::Delete => {
            assert("DELETE"@.len() != "GET"@.len());
            assert("DELETE"@.len() != "POST"@.len());
            assert("DELETE"@.len() != "PUT"@.len());
            assert("DELETE"@.len() != "PATCH"@.len());
            assert(name =~= seq!['D', 'E', 'L', 'E', 'T', 'E']);
        },
        HttpMethod::Head => {
            assert("HEAD"@.len() != "GET"@.len());
            assert("HEAD"@[0] != "POST"@[0]);
            assert("HEAD"@.len() != "PUT"@.len());
            assert("HEAD"@.len() != "PATCH"@.len());
            assert("HEAD"@.len() != "DELETE"@.len());
            assert(name =~= seq!['H', 'E', 'A', 'D']);
        },
        HttpMethod::Options => {
            assert("OPTIONS"@.len() != "GET"@.len());
            assert("OPTIONS"@.len() != "POST"@.len());
            assert("OPTIONS"@.len() != "PUT"@.len());
            assert("OPTIONS"@.len() != "PATCH"@.len());
            assert("OPTIONS"@.len() != "DELETE"@.len());
            assert("OPTIONS"@.len() != "HEAD"@.len());
            assert(name =~= seq!['O', 'P', 'T', 'I', 'O', 'N', 'S']);
        },
        HttpMethod::Query => {
            assert("QUERY"@.len() != "GET"@.len());
            assert("QUERY"@.len() != "POST"@.len());
            assert("QUERY"@.len() != "PUT"@.len());
            assert("QUERY"@[0] != "PATCH"@[0]);
            assert("QUERY"@.len() != "DELETE"@.len());
            assert("QUERY"@.len() != "HEAD"@.len());
            assert("QUERY"@.len() != "OPTIONS"@.len());
            assert(name =~= seq!['Q', 'U', 'E', 'R', 'Y']);
        },
        HttpMethod::Mutation => {
            assert("MUTATION"@.len() != "GET"@.len());
            assert("MUTATION"@.len() != "POST"@.len());
            assert("MUTATION"@.len() != "PUT"@.len());
            assert("MUTATION"@.len() != "PATCH"@.len());
            assert("MUTATION"@.len() != "DELETE"@.len());
            assert("MUTATION"@.len() != "HEAD"@.len());
            assert("MUTATION"@.len() != "OPTIONS"@.len());
            assert("MUTATION"@.len() != "QUERY"@.len());
            assert(name =~= seq!['M', 'U', 'T', 'A', 'T', 'I', 'O', 'N']);
        },
        HttpMethod::Subscription => {
            assert("SUBSCRIPTION"@.len() != "GET"@.len());
            assert("SUBSCRIPTION"@.len() != "POST"@.len());
            assert("SUBSCRIPTION"@.len() != "PUT"@.len());
            assert("SUBSCRIPTION"@.len() != "PATCH"@.len());
            assert("SUBSCRIPTION"@.len() != "DELETE"@.len());
            assert("SUBSCRIPTION"@.len() != "HEAD"@.len());
            assert("SUBSCRIPTION"@.len() != "OPTIONS"@.len());
            assert("SUBSCRIPTION"@.len() != "QUERY"@.len());
            assert("SUBSCRIPTION"@.len() != "MUTATION"@.len());
            assert(name =~= seq!['S', 'U', 'B', 'S', 'C', 'R', 'I', 'P', 'T', 'I', 'O', 'N']);
        },
        HttpMethod::Unary => {
            assert("UNARY"@.len() != "GET"@.len());
            assert("UNARY"@.len() != "POST"@.len());
            assert("UNARY"@.len() != "PUT"@.len());
            assert("UNARY"@[0] != "PATCH"@[0]);
            assert("UNARY"@.len() != "DELETE"@.len());
            assert("UNARY"@.len() != "HEAD"@.len());
            assert("UNARY"@.len() != "OPTIONS"@.len());
            assert("UNARY"@[0] != "QUERY"@[0]);
            assert("UNARY"@.len() != "MUTATION"@.len());
            assert("UNARY"@.len() != "SUBSCRIPTION"@.len());
            assert(name =~= seq!['U', 'N', 'A', 'R', 'Y']);
        },
        HttpMethod::ServerStream => {
            assert("SERVER_STREAM"@.len() != "GET"@.len());
            assert("SERVER_STREAM"@.len() != "POST"@.len());
            assert("SERVER_STREAM"@.len() != "PUT"@.len());
            assert("SERVER_STREAM"@.len() != "PATCH"@.len());
            assert("SERVER_STREAM"@.len() != "DELETE"@.len());
            assert("SERVER_STREAM"@.len() != "HEAD"@.len());
            assert("SERVER_STREAM"@.len() != "OPTIONS"@.len());
            assert("SERVER_STREAM"@.len() != "QUERY"@.len());
            assert("SERVER_STREAM"@.len() != "MUTATION"@.len());
            assert("SERVER_STREAM"@.len() != "SUBSCRIPTION"@.len());
            assert("SERVER_STREAM"@.len() != "UNARY"@.len());
            assert(name =~= seq!['S', 'E', 'R', 'V', 'E', 'R', '_', 'S', 'T', 'R', 'E', 'A', 'M']);
        },
        HttpMethod::ClientStream => {
            assert("CLIENT_STREAM"@.len() != "GET"@.len());
            assert("CLIENT_STREAM"@.len() != "POST"@.len());
            assert("CLIENT_STREAM"@.len() != "PUT"@.len());
            assert("CLIENT_STREAM"@.len() != "PATCH"@.len());
            assert("CLIENT_STREAM"@.len() != "DELETE"@.len());
            assert("CLIENT_STREAM"@.len() != "HEAD"@.len());
            assert("CLIENT_STREAM"@.len() != "OPTIONS"@.len());
            assert("CLIENT_STREAM"@.len() != "QUERY"@.len());
            assert("CLIENT_STREAM"@.len() != "MUTATION"@.len());
            assert("CLIENT_STREAM"@.len() != "SUBSCRIPTION"@.len());
            assert("CLIENT_STREAM"@.len() != "UNARY"@.len());
            assert("CLIENT_STREAM"@[0] != "SERVER_STREAM"@[0]);
            assert(name =~= seq!['C', 'L', 'I', 'E', 'N', 'T', '_', 'S', 'T', 'R', 'E', 'A', 'M']);
        },
        HttpMethod::BidiStream => {
            assert("BIDI_STREAM"@.len() != "GET"@.len() || "BIDI_STREAM"@[0] != "GET"@[0]);
            assert("BIDI_STREAM"@.len() != "POST"@.len() || "BIDI_STREAM"@[0] != "POST"@[0]);
            assert("BIDI_STREAM"@.len() != "PUT"@.len() || "BIDI_STREAM"@[0] != "PUT"@[0]);
            assert("BIDI_STREAM"@.len() != "PATCH"@.len() || "BIDI_STREAM"@[0] != "PATCH"@[0]);
            assert("BIDI_STREAM"@.len() != "DELETE"@.len() || "BIDI_STREAM"@[0] != "DELETE"@[0]);
            assert("BIDI_STREAM"@.len() != "HEAD"@.len() || "BIDI_STREAM"@[0] != "HEAD"@[0]);
            assert("BIDI_STREAM"@.len() != "OPTIONS"@.len() || "BIDI_STREAM"@[0] != "OPTIONS"@[0]);
            assert("BIDI_STREAM"@.len() != "QUERY"@.len() || "BIDI_STREAM"@[0] != "QUERY"@[0]);
            assert("BIDI_STREAM"@.len() != "MUTATION"@.len() || "BIDI_STREAM"@[0] != "MUTATION"@[0]);
            assert("BIDI_STREAM"@.len() != "SUBSCRIPTION"@.len() || "BIDI_STREAM"@[0] != "SUBSCRIPTION"@[0]);
            assert("BIDI_STREAM"@.len() != "UNARY"@.len() || "BIDI_STREAM"@[0] != "UNARY"@[0]);
            assert("BIDI_STREAM"@.len() != "SERVER_STREAM"@.len() || "BIDI_STREAM"@[0] != "SERVER_STREAM"@[0]);
            assert("BIDI_STREAM"@.len() != "CLIENT_STREAM"@.len() || "BIDI_STREAM"@[0] != "CLIENT_STREAM"@[0]);
            assert(name =~= seq!['B', 'I', 'D', 'I', '_', 'S', 'T', 'R', 'E', 'A', 'M']);
        },
    }
}

/// Method names are capital letters and underscores, and no two methods
/// share a name.
pub proof fn lemma_method_names_distinct(a: HttpMethod, b: HttpMethod)
    ensures
        crate::knowledge::ontology::edges::upper_snake(http_method_str(a)),
        http_method_str(a) == http_method_str(b) <==> a == b,
{
    lemma_method_name_of(a);
    lemma_method_name_of(b);
}

} // verus!
