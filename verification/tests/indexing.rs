use arq_core::knowledge::indexer::chunking::{chunk_content, should_index};
use arq_core::knowledge::indexer::extractor::{extract_line_range, find_block_end};
use arq_core::knowledge::ontology::edges::structural::{ContainsEdge, ImportsEdge};
use arq_core::knowledge::ontology::nodes::api::HttpMethod;
use arq_core::knowledge::ontology::nodes::code::Visibility;
use arq_core::knowledge::ontology::nodes::structure::Language;
use arq_core::knowledge::parser::registry::ParserRegistry;
use arq_core::knowledge::parser::rust::{implements_edge, implements_edge_ids, super_trait_id};
use arq_core::knowledge::parser::result::ParseResult;
use arq_core::knowledge::records::{count_of, entity_name_of, last_segment_of, sorted_unique};
use arq_core::planning::approach::{Approach, ApproachOptions};
use arq_core::planning::plan::Complexity;

fn numbered_lines(n: usize) -> String {
    let mut text = String::new();
    for i in 1..=n {
        // 49 characters, so each line with its newline is 50 bytes.
        text.push_str(&format!("{:0>4}", i));
        text.push_str(&"x".repeat(45));
        text.push('\n');
    }
    text
}

#[test]
fn short_text_makes_one_chunk() {
    let chunks = chunk_content("fn a() {}\n\nfn b() {}\n", "src/a.rs");
    assert_eq!(chunks.len(), 1);
    assert_eq!(chunks[0].content, "fn a() {}\n\nfn b() {}");
    assert_eq!(chunks[0].start_line, 1);
    assert_eq!(chunks[0].end_line, 3);
    assert_eq!(chunks[0].file_path, "src/a.rs");
    assert!(chunks[0].entity_id.is_none());
}

#[test]
fn empty_or_blank_text_makes_no_chunk() {
    assert!(chunk_content("", "a.rs").is_empty());
    assert!(chunk_content("   \n\n  \n", "a.rs").is_empty());
}

#[test]
fn long_text_chunks_overlap_by_two_lines() {
    let text = numbered_lines(30);
    let chunks = chunk_content(&text, "big.rs");
    assert_eq!(chunks.len(), 2);
    // The first chunk closes once 1000 bytes are gathered: after line 20.
    assert_eq!((chunks[0].start_line, chunks[0].end_line), (1, 20));
    assert!(chunks[0].content.starts_with("0001"));
    assert!(chunks[0].content.ends_with(&format!("0020{}", "x".repeat(45))));
    // The next one starts two lines back and runs to the end.
    assert_eq!((chunks[1].start_line, chunks[1].end_line), (18, 30));
    assert!(chunks[1].content.starts_with("0018"));
    assert!(chunks[1].content.ends_with(&format!("0030{}", "x".repeat(45))));
}

#[test]
fn indexing_goes_by_extension() {
    let exts = vec!["rs".to_string(), "py".to_string()];
    assert!(should_index(&exts, "src/lib.rs"));
    assert!(should_index(&exts, "tools/gen.py"));
    assert!(!should_index(&exts, "README.md"));
    assert!(!should_index(&exts, "Makefile"));
    assert!(!should_index(&exts, "src/lib.RS"));
}

#[test]
fn line_range_is_inclusive_and_one_based() {
    let text = "one\ntwo\nthree\nfour\n";
    assert_eq!(extract_line_range(text, 2, 3), "two\nthree");
    assert_eq!(extract_line_range(text, 0, 1), "one");
    assert_eq!(extract_line_range(text, 4, 9), "four");
    assert_eq!(extract_line_range(text, 5, 9), "");
}

#[test]
fn languages_from_extensions() {
    assert!(Language::from_extension("RS") == Language::Rust);
    assert!(Language::from_extension("tsx") == Language::TypeScript);
    assert!(Language::from_extension("cjs") == Language::JavaScript);
    assert!(Language::from_extension("hxx") == Language::Cpp);
    assert!(Language::from_extension("yml") == Language::Yaml);
    assert!(Language::from_extension("exe") == Language::Unknown);
    assert_eq!(Language::from_extension("cs").as_str(), "csharp");
    assert_eq!(Language::from_extension("markdown").as_str(), "markdown");
}

#[test]
fn registry_lists_each_language_once() {
    let registry = ParserRegistry::new();
    let listed = registry.list_parsers();
    let mut names: Vec<&str> = listed.iter().map(|(n, _)| *n).collect();
    names.sort();
    assert_eq!(names, vec!["C#", "Go", "Java", "JavaScript", "Python", "Rust", "TypeScript"]);
    let rust = listed.iter().find(|(n, _)| *n == "Rust").unwrap();
    assert_eq!(rust.1, vec!["rs"]);
}

#[test]
fn stats_count_edges_and_warnings() {
    let mut result = ParseResult::new("a.rs");
    result.add_contains(ContainsEdge::new("file:a.rs", "fn:a.rs:main"));
    result.add_imports(ImportsEdge::new("file:a.rs", "std::fmt"));
    result.warn("could not read a block");
    let stats = result.stats();
    assert_eq!(stats.contains, 1);
    assert_eq!(stats.imports, 1);
    assert_eq!(stats.functions, 0);
    assert_eq!(stats.warnings, 1);
    assert_eq!(
        stats.to_display_string(),
        "Nodes:\n  Functions: 0\n  Structs:   0\n  Traits:    0\n  Impls:     0\n  Enums:     0\n  Constants: 0\nEdges:\n  Calls:     0\n  Contains:  1\n  Implements:0\n  UsesType:  0\nWarnings: 1\n"
    );
}

#[test]
fn record_names_and_counts() {
    assert_eq!(count_of(Some(3)), 3);
    assert_eq!(count_of(None), 0);
    assert_eq!(last_segment_of("function:path:name"), "name");
    assert_eq!(last_segment_of("plain"), "plain");
    assert_eq!(entity_name_of("fn_node:`src/a.rs:run`"), "run");
    assert_eq!(entity_name_of("struct_node:`Config`"), "Config");
    let names = vec!["b".to_string(), "a".to_string(), "b".to_string(), "ab".to_string()];
    assert_eq!(sorted_unique(names), vec!["a".to_string(), "ab".to_string(), "b".to_string()]);
}

#[test]
fn approaches_display_and_recommendation() {
    let mut options = ApproachOptions::new();
    options.add(Approach::new("a1", "Minimal").with_description("Small change"));
    let mut second = Approach::new("a2", "Full")
        .with_description("Rework the module")
        .with_complexity(Complexity::High)
        .set_recommended();
    second.pros.push("Clean".to_string());
    second.cons.push("Slow".to_string());
    options.add(second);
    assert_eq!(options.len(), 2);
    assert_eq!(options.recommended().unwrap().id, "a2");
    assert_eq!(
        options.get(1).unwrap().to_display_string(1),
        "[2] Full (Recommended)\n    Rework the module\n    + Clean\n    - Slow\n    Complexity: High\n"
    );
    assert_eq!(
        options.to_display_string(),
        "Based on your research, here are possible approaches:\n\n[1] Minimal\n    Small change\n    Complexity: Medium\n\n[2] Full (Recommended)\n    Rework the module\n    + Clean\n    - Slow\n    Complexity: High\n\nType 1-2 to select, or describe your own approach:"
    );
    assert!(options.get(2).is_none());
}

#[test]
fn recommended_is_the_approach_marked_so() {
    let mut options = ApproachOptions::new();
    options.add(Approach::new("x", "A"));
    options.add(Approach::new("x", "B").set_recommended());
    let r = options.recommended().unwrap();
    assert_eq!(r.name, "B");
    assert!(r.recommended);
    let mut none = ApproachOptions::new();
    none.add(Approach::new("y", "C"));
    assert!(none.recommended().is_none());
}

#[test]
fn visibility_strings_parse_back() {
    for v in [Visibility::Public, Visibility::PublicCrate, Visibility::PublicSuper, Visibility::PublicIn, Visibility::Private] {
        assert!(Visibility::from_str(v.as_str()) == v);
    }
    assert!(Visibility::from_str("PUB") == Visibility::Public);
}

#[test]
fn language_names_are_distinct_and_lowercase() {
    let all = [
        "rs", "ts", "js", "py", "go", "java", "kt", "cs", "cpp", "c", "rb", "php", "swift", "yaml", "json",
        "toml", "md", "zzz",
    ];
    let names: Vec<&str> = all.iter().map(|e| Language::from_extension(e).as_str()).collect();
    for (i, a) in names.iter().enumerate() {
        assert_eq!(a.to_lowercase(), *a);
        for b in &names[i + 1..] {
            assert_ne!(a, b);
        }
    }
}

#[test]
fn blocks_end_by_braces_or_indentation() {
    let py = ["def f():", "    a = 1", "    b = 2", "    return a", "x = 2"];
    assert_eq!(find_block_end(&py, 0), 4);
    let rs = ["use x;", "fn g() {", "    y();", "}"];
    assert_eq!(find_block_end(&rs, 1), 3);
    let one = ["fn h() {}", "fn k() {}"];
    assert_eq!(find_block_end(&one, 0), 1);
}

#[test]
fn impl_edges_name_type_and_trait() {
    let (from, to) = implements_edge_ids("Config", "Display");
    assert_eq!(from, "struct:?:Config");
    assert_eq!(to, "trait:?:Display");
    let e = implements_edge("Config", "Display", "src/a.rs", 12);
    assert_eq!(e.from, "struct:?:Config");
    assert_eq!(e.to, "trait:?:Display");
    assert_eq!(e.impl_file.as_deref(), Some("src/a.rs"));
    assert_eq!(e.impl_line, Some(12));
    assert_eq!(super_trait_id("Clone"), "trait:?:Clone");
}

#[test]
fn http_method_names_are_distinct_capitals() {
    let all = [
        HttpMethod::Get, HttpMethod::Post, HttpMethod::Put, HttpMethod::Patch, HttpMethod::Delete,
        HttpMethod::Head, HttpMethod::Options, HttpMethod::Query, HttpMethod::Mutation,
        HttpMethod::Subscription, HttpMethod::Unary, HttpMethod::ServerStream,
        HttpMethod::ClientStream, HttpMethod::BidiStream,
    ];
    let names: Vec<&str> = all.iter().map(|m| m.as_str()).collect();
    assert_eq!(names[11], "SERVER_STREAM");
    for (i, a) in names.iter().enumerate() {
        assert!(a.chars().all(|c| c.is_ascii_uppercase() || c == '_'));
        for b in &names[i + 1..] {
            assert_ne!(a, b);
        }
    }
}
