use arq_core::knowledge::parser::registry::ParserRegistry;

#[test]
fn test_registry_has_rust_parser() {
    let registry = ParserRegistry::new();
    assert!(registry.can_parse("rs"));
    assert!(registry.parser_for_extension("rs").is_some());
}

#[test]
fn test_registry_has_all_parsers() {
    let registry = ParserRegistry::new();

    // Rust
    assert!(registry.can_parse("rs"));

    // TypeScript/JavaScript
    assert!(registry.can_parse("ts"));
    assert!(registry.can_parse("tsx"));
    assert!(registry.can_parse("js"));
    assert!(registry.can_parse("jsx"));
    assert!(registry.can_parse("mjs"));
    assert!(registry.can_parse("cjs"));

    // Python
    assert!(registry.can_parse("py"));
    assert!(registry.can_parse("pyi"));

    // Go
    assert!(registry.can_parse("go"));

    // Java
    assert!(registry.can_parse("java"));

    // C#
    assert!(registry.can_parse("cs"));
}

#[test]
fn test_parser_for_path() {
    let registry = ParserRegistry::new();
    assert!(registry.parser_for_path("src/lib.rs").is_some());
    assert!(registry.parser_for_path("src/main.py").is_some());
    assert!(registry.parser_for_path("src/app.ts").is_some());
    assert!(registry.parser_for_path("Main.java").is_some());
    assert!(registry.parser_for_path("Program.cs").is_some());
    assert!(registry.parser_for_path("main.go").is_some());
    assert!(registry.parser_for_path("unknown.xyz").is_none());
}

#[test]
fn test_case_insensitive() {
    let registry = ParserRegistry::new();
    assert!(registry.can_parse("RS"));
    assert!(registry.can_parse("Rs"));
    assert!(registry.can_parse("PY"));
    assert!(registry.can_parse("TS"));
}
