use vstd::prelude::*;


verus! {

/// A single test case.
#[derive(Debug, Clone)]
pub struct TestCaseEntity {
    /// Unique identifier
    pub id: Option<String>,
    /// Test name
    pub name: String,
    /// Full path of the test
    pub full_path: String,
    /// Defining file
    pub file_path: String,
    /// Start line
    pub start_line: u32,
    /// End line
    pub end_line: u32,
    /// Kind of test
    pub test_type: TestType,
    /// Suite the test belongs to
    pub suite: Option<String>,
    /// Function under test
    pub tests_function: Option<String>,
    /// Whether ignored
    pub ignored: bool,
    /// Why it is ignored
    pub ignore_reason: Option<String>,
    /// Whether it expects a panic
    pub should_panic: bool,
    /// Timeout in milliseconds
    pub timeout_ms: Option<u64>,
    /// Tags
    pub tags: Vec<String>,
    /// Description
    pub description: Option<String>,
}
/// Kind of test.
#[derive(Debug, Clone, Copy, PartialEq, Eq, Structural)]
pub enum TestType {
    /// Unit test
    Unit,
    /// Integration test
    Integration,
    /// End-to-end test
    E2e,
    /// Benchmark
    Benchmark,
    /// Property-based test
    Property,
    /// Snapshot test
    Snapshot,
    /// Documentation test
    Doc,
}
/// A test suite or module.
#[derive(Debug, Clone)]
pub struct TestSuiteEntity {
    /// Unique identifier
    pub id: Option<String>,
    /// Suite name
    pub name: String,
    /// Full path of the suite
    pub full_path: String,
    /// Defining file
    pub file_path: String,
    /// Start line
    pub start_line: u32,
    /// End line
    pub end_line: u32,
    /// Test IDs
    pub tests: Vec<String>,
    /// Nested suite IDs
    pub nested_suites: Vec<String>,
    /// Setup function
    pub setup: Option<String>,
    /// Teardown function
    pub teardown: Option<String>,
    /// Fixtures
    pub fixtures: Vec<String>,
    /// Tags
    pub tags: Vec<String>,
    /// Description
    pub description: Option<String>,
}
} // verus!
