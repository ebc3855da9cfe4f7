use arq_core::knowledge::indexer::extractor::{extract_calls, extract_functions, extract_structs};

#[test]
fn test_extract_rust_struct() {
    let code = r#"
pub struct Config {
    name: String,
}
"#;
    let structs = extract_structs(code, "test.rs");
    assert_eq!(structs.len(), 1);
    assert_eq!(structs[0].name, "Config");
    assert_eq!(structs[0].visibility, "public");
}

#[test]
fn test_extract_rust_function() {
    let code = r#"
pub async fn process_data(input: &str) -> Result<()> {
    Ok(())
}
"#;
    let functions = extract_functions(code, "test.rs");
    assert_eq!(functions.len(), 1);
    assert_eq!(functions[0].name, "process_data");
    assert!(functions[0].is_async);
}

#[test]
fn test_extract_calls() {
    let code = r#"
fn main() {
    let x = calculate(10);
    process(x);
    if condition() {
        return;
    }
}
"#;
    let calls = extract_calls(code);
    assert!(calls.contains(&"calculate".to_string()));
    assert!(calls.contains(&"process".to_string()));
    assert!(calls.contains(&"condition".to_string()));
    // "if" should be filtered out
    assert!(!calls.contains(&"if".to_string()));
}

#[test]
fn extractor_struct_lines_and_private_visibility() {
    let code = "struct Inner {\n    a: u8,\n}\n";
    let structs = extract_structs(code, "lib.rs");
    assert_eq!(structs.len(), 1);
    assert_eq!(structs[0].name, "Inner");
    assert_eq!(structs[0].visibility, "private");
    assert_eq!(structs[0].start_line, 1);
    assert_eq!(structs[0].file_path, "lib.rs");
}

#[test]
fn extractor_calls_skip_keywords_only() {
    let calls = extract_calls("while ready() { go(1); }");
    assert!(calls.contains(&"ready".to_string()));
    assert!(calls.contains(&"go".to_string()));
    assert!(!calls.contains(&"while".to_string()));
}
