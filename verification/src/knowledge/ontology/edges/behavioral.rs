use vstd::prelude::*;

use crate::text::owned;

verus! {

/// A CALLS B: function A invokes function B.
#[derive(Debug, Clone)]
pub struct CallsEdge {
    /// Source node ID (caller)
    pub from: String,
    /// Target node ID (callee)
    pub to: String,
    /// Line number of the call site
    pub line: Option<u32>,
    /// Column number of the call site
    pub column: Option<u32>,
    /// Call type
    pub call_type: CallType,
    /// Whether this is a conditional call (in if/match)
    pub is_conditional: bool,
    /// Whether this is inside a loop
    pub is_in_loop: bool,
    /// Number of times called (static analysis estimate)
    pub call_count: Option<u32>,
}
impl CallsEdge {
    /// Creates an unconditional direct call outside any loop, with no position.
    pub fn new(from: &str, to: &str) -> (r: Self)
        ensures
            r.from@ == from@,
            r.to@ == to@,
            r.line is None,
            r.column is None,
            r.call_type == CallType::Direct,
            !r.is_conditional,
            !r.is_in_loop,
            r.call_count is None,
    {
        CallsEdge {
            from: owned(from),
            to: owned(to),
            line: None,
            column: None,
            call_type: CallType::Direct,
            is_conditional: false,
            is_in_loop: false,
            call_count: None,
        }
    }

    /// Sets the line of the call site.
    pub fn at_line(self, line: u32) -> (r: Self)
        ensures
            r == (CallsEdge { line: r.line, ..self }),
            r.line == Some(line),
    {
        let mut s = self;
        s.line = Some(line);
        s
    }

    /// Marks this as a method call.
    pub fn method(self) -> (r: Self)
        ensures
            r == (CallsEdge { call_type: r.call_type, ..self }),
            r.call_type == CallType::Method,
    {
        let mut s = self;
        s.call_type = CallType::Method;
        s
    }

    /// Marks this call as conditional.
    pub fn conditional(self) -> (r: Self)
        ensures
            r == (CallsEdge { is_conditional: r.is_conditional, ..self }),
            r.is_conditional,
    {
        let mut s = self;
        s.is_conditional = true;
        s
    }
}

/// Type of function call.
#[derive(Debug, Clone, Copy, PartialEq, Eq, Structural)]
pub enum CallType {
    /// Direct function call
    Direct,
    /// Method call on self
    Method,
    /// Static method call
    Static,
    /// Trait method call (dynamic dispatch)
    Dynamic,
    /// Closure/callback invocation
    Closure,
    /// Macro invocation
    Macro,
    /// Constructor call
    Constructor,
}

impl Default for CallType {
    fn default() -> (r: CallType)
        ensures
            r == CallType::Direct,
    {
        CallType::Direct
    }
}
/// A RETURNS B: function A returns value B.
#[derive(Debug, Clone)]
pub struct ReturnsEdge {
    /// Source node ID (function)
    pub from: String,
    /// Target node ID (returned value/type)
    pub to: String,
    /// Line number of return statement
    pub line: Option<u32>,
    /// Return type
    pub return_type: ReturnType,
    /// Whether this is an early return
    pub is_early_return: bool,
}
impl ReturnsEdge {
    /// Creates a plain value-return edge.
    pub fn new(from: &str, to: &str) -> (r: Self)
        ensures
            r.from@ == from@,
            r.to@ == to@,
            r.line is None,
            r.return_type == ReturnType::Value,
            !r.is_early_return,
    {
        ReturnsEdge {
            from: owned(from),
            to: owned(to),
            line: None,
            return_type: ReturnType::Value,
            is_early_return: false,
        }
    }
}

/// Type of return.
#[derive(Debug, Clone, Copy, PartialEq, Eq, Structural)]
pub enum ReturnType {
    /// Normal return value
    Value,
    /// Return Result::Ok
    ResultOk,
    /// Return Result::Err
    ResultErr,
    /// Return Option::Some
    OptionSome,
    /// Return Option::None
    OptionNone,
    /// Implicit return (last expression)
    Implicit,
}

impl Default for ReturnType {
    fn default() -> (r: ReturnType)
        ensures
            r == ReturnType::Value,
    {
        ReturnType::Value
    }
}
/// A THROWS B: function A can throw or return error B.
#[derive(Debug, Clone)]
pub struct ThrowsEdge {
    /// Source node ID (function)
    pub from: String,
    /// Target node ID (error type)
    pub to: String,
    /// Line numbers where error can originate
    pub lines: Vec<u32>,
    /// Whether error is propagated (? operator) or created
    pub is_propagated: bool,
    /// Error handling mechanism
    pub mechanism: ErrorMechanism,
}
impl ThrowsEdge {
    /// Creates a non-propagated Result error edge.
    pub fn new(from: &str, to: &str) -> (r: Self)
        ensures
            r.from@ == from@,
            r.to@ == to@,
            r.lines@.len() == 0,
            !r.is_propagated,
            r.mechanism == ErrorMechanism::Result,
    {
        ThrowsEdge {
            from: owned(from),
            to: owned(to),
            lines: Vec::new(),
            is_propagated: false,
            mechanism: ErrorMechanism::Result,
        }
    }

    /// Marks the error as propagated.
    pub fn propagated(self) -> (r: Self)
        ensures
            r == (ThrowsEdge { is_propagated: r.is_propagated, ..self }),
            r.is_propagated,
    {
        let mut s = self;
        s.is_propagated = true;
        s
    }
}

/// Error handling mechanism.
#[derive(Debug, Clone, Copy, PartialEq, Eq, Structural)]
pub enum ErrorMechanism {
    /// Rust Result type
    Result,
    /// Exception (throw/catch)
    Exception,
    /// Panic
    Panic,
    /// Error return code
    ErrorCode,
}

impl Default for ErrorMechanism {
    fn default() -> (r: ErrorMechanism)
        ensures
            r == ErrorMechanism::Result,
    {
        ErrorMechanism::Result
    }
}
/// A AWAITS B: async function A awaits async operation B.
#[derive(Debug, Clone)]
pub struct AwaitsEdge {
    /// Source node ID (awaiting function)
    pub from: String,
    /// Target node ID (awaited future)
    pub to: String,
    /// Line number of await
    pub line: Option<u32>,
    /// Whether this is in a select/join
    pub is_concurrent: bool,
    /// Await context
    pub context: AwaitContext,
}
impl AwaitsEdge {
    /// Creates a sequential await edge.
    pub fn new(from: &str, to: &str) -> (r: Self)
        ensures
            r.from@ == from@,
            r.to@ == to@,
            r.line is None,
            !r.is_concurrent,
            r.context == AwaitContext::Sequential,
    {
        AwaitsEdge {
            from: owned(from),
            to: owned(to),
            line: None,
            is_concurrent: false,
            context: AwaitContext::Sequential,
        }
    }
}

/// Context of an await.
#[derive(Debug, Clone, Copy, PartialEq, Eq, Structural)]
pub enum AwaitContext {
    /// Simple sequential await
    Sequential,
    /// In a select
    Select,
    /// In a join
    Join,
    /// In a loop
    Loop,
    /// In a spawn
    Spawned,
}

impl Default for AwaitContext {
    fn default() -> (r: AwaitContext)
        ensures
            r == AwaitContext::Sequential,
    {
        AwaitContext::Sequential
    }
}
/// A READS B: function A reads field or variable B.
#[derive(Debug, Clone)]
pub struct ReadsEdge {
    /// Source node ID (reader)
    pub from: String,
    /// Target node ID (data being read)
    pub to: String,
    /// Line numbers of read accesses
    pub lines: Vec<u32>,
    /// Access type
    pub access_type: AccessType,
}
impl ReadsEdge {
    /// Creates a field-read edge with no lines.
    pub fn new(from: &str, to: &str) -> (r: Self)
        ensures
            r.from@ == from@,
            r.to@ == to@,
            r.lines@.len() == 0,
            r.access_type == AccessType::Field,
    {
        ReadsEdge {
            from: owned(from),
            to: owned(to),
            lines: Vec::new(),
            access_type: AccessType::Field,
        }
    }
}

/// Type of data access.
#[derive(Debug, Clone, Copy, PartialEq, Eq, Structural)]
pub enum AccessType {
    /// Direct field access
    Field,
    /// Through getter method
    Getter,
    /// Array/map index access
    Index,
    /// Dereference
    Deref,
}

impl Default for AccessType {
    fn default() -> (r: AccessType)
        ensures
            r == AccessType::Field,
    {
        AccessType::Field
    }
}
/// A WRITES B: function A writes or mutates field or variable B.
#[derive(Debug, Clone)]
pub struct WritesEdge {
    /// Source node ID (writer)
    pub from: String,
    /// Target node ID (data being written)
    pub to: String,
    /// Line numbers of write accesses
    pub lines: Vec<u32>,
    /// Write type
    pub write_type: WriteType,
}
impl WritesEdge {
    /// Creates an assignment edge with no lines.
    pub fn new(from: &str, to: &str) -> (r: Self)
        ensures
            r.from@ == from@,
            r.to@ == to@,
            r.lines@.len() == 0,
            r.write_type == WriteType::Assign,
    {
        WritesEdge {
            from: owned(from),
            to: owned(to),
            lines: Vec::new(),
            write_type: WriteType::Assign,
        }
    }
}

/// Type of write operation.
#[derive(Debug, Clone, Copy, PartialEq, Eq, Structural)]
pub enum WriteType {
    /// Direct assignment
    Assign,
    /// Through setter method
    Setter,
    /// Mutable borrow modification
    MutBorrow,
    /// Compound assignment (+=, etc.)
    Compound,
}

impl Default for WriteType {
    fn default() -> (r: WriteType)
        ensures
            r == WriteType::Assign,
    {
        WriteType::Assign
    }
}
} // verus!
