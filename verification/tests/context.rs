use arq_core::research::context::{smart_context, HitExpansion, SearchHit};
use arq_core::research::document::SourceType;

fn hit(path: &str, start: u32, end: u32, preview: Option<&str>, entity: Option<&str>) -> SearchHit {
    SearchHit {
        path: path.to_string(),
        start_line: start,
        end_line: end,
        score_text: "0.91".to_string(),
        preview: preview.map(|p| p.to_string()),
        entity_id: entity.map(|e| e.to_string()),
        entity_type: "function".to_string(),
    }
}

fn names(ns: &[&str]) -> Option<Vec<String>> {
    Some(ns.iter().map(|n| n.to_string()).collect())
}

#[test]
fn no_hits_means_no_graph_context() {
    assert!(smart_context(&Vec::new(), &Vec::new()).is_none());
}

#[test]
fn hits_give_code_relations_and_one_source_per_file() {
    let hits = vec![
        hit("src/a.rs", 1, 3, Some("fn a() {}"), Some("fn_node:a")),
        hit("src/a.rs", 10, 12, None, None),
        hit("src/b.rs", 4, 5, Some("fn b() {}"), Some("fn_node:b")),
    ];
    let expansions = vec![
        HitExpansion { dependencies: names(&["b", "c", "d", "e", "f", "g"]), impact: names(&[]) },
        HitExpansion { dependencies: None, impact: None },
        HitExpansion { dependencies: None, impact: names(&["a"]) },
    ];
    let (text, sources) = smart_context(&hits, &expansions).unwrap();
    assert_eq!(
        text,
        "## Relevant Code (semantic search)\n\n### src/a.rs (lines 1-3)\n```\nfn a() {}\n```\n\n### src/b.rs (lines 4-5)\n```\nfn b() {}\n```\n\n## Code Relationships (graph analysis)\n\n- **function** `fn_node:a` calls: b, c, d, e, f\n- **function** `fn_node:b` is called by: a\n"
    );
    assert_eq!(sources.len(), 2);
    assert_eq!(sources[0].location, "src/a.rs:1-3 (score: 0.91)");
    assert_eq!(sources[1].location, "src/b.rs:4-5 (score: 0.91)");
    assert!(sources.iter().all(|s| s.source_type == SourceType::KnowledgeGraph));
}

#[test]
fn no_relations_leaves_the_graph_section_out() {
    let hits = vec![hit("x.py", 2, 2, Some("pass"), None)];
    let expansions = vec![HitExpansion { dependencies: None, impact: None }];
    let (text, _) = smart_context(&hits, &expansions).unwrap();
    assert_eq!(text, "## Relevant Code (semantic search)\n\n### x.py (lines 2-2)\n```\npass\n```\n");
}
