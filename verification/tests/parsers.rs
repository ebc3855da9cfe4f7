use arq_core::knowledge::ontology::edges::behavioral::CallType;
use arq_core::knowledge::ontology::nodes::code::Visibility;
use arq_core::knowledge::parser::go::GoParser;
use arq_core::knowledge::parser::java::JavaParser;
use arq_core::knowledge::parser::python::PythonParser;
use arq_core::knowledge::parser::result::{ParseResult, ParsedEdge, ParsedNode};
use arq_core::knowledge::parser::typescript::TypeScriptParser;

fn calls(r: &ParseResult) -> Vec<(String, String, CallType)> {
    r.edges
        .iter()
        .filter_map(|e| match e {
            ParsedEdge::Calls(c) => Some((c.from.clone(), c.to.clone(), c.call_type)),
            _ => None,
        })
        .collect()
}

fn contains(r: &ParseResult) -> Vec<(String, String)> {
    r.edges
        .iter()
        .filter_map(|e| match e {
            ParsedEdge::Contains(c) => Some((c.from.clone(), c.to.clone())),
            _ => None,
        })
        .collect()
}

const GO_SRC: &str = "package main

type Greeter struct {
\tName string
\tcount int
}

type Speaker interface {
\tSpeak() string
}

// Hello greets.
func (g *Greeter) Hello(msg string) string {
\tfmt.Println(msg)
\treturn NewThing()
}
";

#[test]
fn go_parser_extracts_struct_interface_and_method() {
    let r = GoParser::new().parse_file("main.go", GO_SRC).unwrap();
    assert_eq!(r.file_path, "main.go");
    assert_eq!(r.nodes.len(), 3);
    match &r.nodes[0] {
        ParsedNode::Struct(s) => {
            assert_eq!(s.name, "Greeter");
            assert_eq!(s.id.as_deref(), Some("struct:main.go:Greeter"));
            assert_eq!(s.visibility, Visibility::Public);
            assert_eq!(s.fields.len(), 2);
            assert_eq!(s.fields[0].name, "Name");
            assert_eq!(s.fields[0].type_str, "string");
            assert_eq!(s.fields[0].visibility, Visibility::Public);
            assert_eq!(s.fields[1].name, "count");
            assert_eq!(s.fields[1].visibility, Visibility::Private);
            assert_eq!(s.start_line, 3);
        }
        other => panic!("expected struct, got {:?}", other),
    }
    match &r.nodes[1] {
        ParsedNode::Trait(t) => {
            assert_eq!(t.name, "Speaker");
            assert_eq!(t.id.as_deref(), Some("trait:main.go:Speaker"));
        }
        other => panic!("expected trait, got {:?}", other),
    }
    match &r.nodes[2] {
        ParsedNode::Function(f) => {
            assert_eq!(f.name, "Hello");
            // The receiver's type sits inside its parameter declaration, not
            // directly in the receiver list, so the method is not qualified.
            assert_eq!(f.qualified_name, "Hello");
            assert_eq!(f.parent, None);
            assert_eq!(f.id.as_deref(), Some("function:main.go:Hello"));
            assert_eq!(f.signature, "func (g *Greeter) Hello(msg string) string");
            assert_eq!(f.doc_comment.as_deref(), Some("Hello greets."));
            assert_eq!(f.parameters.len(), 1);
            assert_eq!(f.parameters[0].name, "msg");
            assert_eq!(f.parameters[0].type_str, "string");
            assert_eq!(f.return_type.as_deref(), Some("string"));
            assert_eq!(f.start_line, 13);
            assert_eq!(f.end_line, 16);
        }
        other => panic!("expected function, got {:?}", other),
    }
    assert_eq!(
        calls(&r),
        vec![
            (
                "function:main.go:Hello".to_string(),
                "function:?:Println".to_string(),
                CallType::Method
            ),
            (
                "function:main.go:Hello".to_string(),
                "function:?:NewThing".to_string(),
                CallType::Constructor
            ),
        ]
    );
    assert_eq!(contains(&r).len(), 3);
    assert_eq!(
        contains(&r)[2],
        ("file:main.go".to_string(), "function:main.go:Hello".to_string())
    );
}

const PY_SRC: &str = "class Greeter(Base):
    \"\"\"Says hello.\"\"\"
    def __init__(self, name: str, count=1):
        self.name = name
        self.name = name
        self.count = count

    async def greet(self):
        print(self.name)
        Helper()
";

#[test]
fn python_parser_extracts_class_fields_and_methods() {
    let r = PythonParser::new().parse_file("t.py", PY_SRC).unwrap();
    assert_eq!(r.nodes.len(), 3);
    match &r.nodes[0] {
        ParsedNode::Struct(s) => {
            assert_eq!(s.name, "Greeter");
            assert_eq!(s.derives, vec!["Base".to_string()]);
            assert_eq!(s.doc_comment.as_deref(), Some("Says hello."));
            let names: Vec<&str> = s.fields.iter().map(|f| f.name.as_str()).collect();
            assert_eq!(names, vec!["name", "count"]);
            assert_eq!(s.fields[0].type_str, "Any");
        }
        other => panic!("expected class, got {:?}", other),
    }
    match &r.nodes[1] {
        ParsedNode::Function(f) => {
            assert_eq!(f.name, "__init__");
            assert_eq!(f.visibility, Visibility::PublicCrate);
            assert_eq!(f.parameters.len(), 2);
            assert_eq!(f.parameters[0].name, "name");
            assert_eq!(f.parameters[0].type_str, "str");
            assert_eq!(f.parameters[1].name, "count");
            assert_eq!(f.parameters[1].type_str, "Any");
            assert_eq!(f.signature, "def __init__(self, name: str, count=1)");
        }
        other => panic!("expected function, got {:?}", other),
    }
    match &r.nodes[2] {
        ParsedNode::Function(f) => {
            assert_eq!(f.name, "greet");
            assert!(f.is_async);
            assert_eq!(f.visibility, Visibility::Public);
            assert!(f.parameters.is_empty());
        }
        other => panic!("expected function, got {:?}", other),
    }
    assert_eq!(
        calls(&r),
        vec![
            ("function:t.py:greet".to_string(), "function:?:print".to_string(), CallType::Direct),
            ("function:t.py:greet".to_string(), "function:?:Helper".to_string(), CallType::Constructor),
        ]
    );
}

const JAVA_SRC: &str = "/** A point. */
public class Point extends Base implements Shape {
    private int x;
    /**
     * Moves it.
     */
    public synchronized void move(final int dx, int dy) {
        helper.run(dx);
        new Other();
    }
}
";

#[test]
fn java_parser_extracts_class_and_method_in_class() {
    let r = JavaParser::new().parse_file("Test.java", JAVA_SRC).unwrap();
    assert_eq!(r.nodes.len(), 2);
    match &r.nodes[0] {
        ParsedNode::Struct(s) => {
            assert_eq!(s.name, "Point");
            assert_eq!(s.visibility, Visibility::Public);
            assert_eq!(s.attributes, vec!["public".to_string()]);
            assert_eq!(s.doc_comment.as_deref(), Some("A point."));
            assert_eq!(s.fields.len(), 1);
            assert_eq!(s.fields[0].name, "x");
            assert_eq!(s.fields[0].type_str, "int");
            assert_eq!(s.fields[0].visibility, Visibility::Private);
            assert_eq!(s.fields[0].attributes, vec!["private".to_string()]);
        }
        other => panic!("expected class, got {:?}", other),
    }
    match &r.nodes[1] {
        ParsedNode::Function(f) => {
            assert_eq!(f.name, "move");
            assert_eq!(f.qualified_name, "Point.move");
            assert_eq!(f.parent.as_deref(), Some("Point"));
            assert_eq!(f.id.as_deref(), Some("function:Test.java:Point.move"));
            assert!(f.is_async);
            assert!(!f.is_unsafe);
            assert_eq!(f.visibility, Visibility::Public);
            assert_eq!(f.return_type.as_deref(), Some("void"));
            assert_eq!(f.doc_comment.as_deref(), Some("Moves it."));
            assert_eq!(f.parameters.len(), 2);
            assert_eq!(f.parameters[0].name, "dx");
            assert!(!f.parameters[0].is_mutable);
            assert_eq!(f.parameters[1].name, "dy");
            assert!(f.parameters[1].is_mutable);
        }
        other => panic!("expected method, got {:?}", other),
    }
    assert_eq!(
        calls(&r),
        vec![
            ("function:Test.java:Point.move".to_string(), "function:?:run".to_string(), CallType::Method),
            ("function:Test.java:Point.move".to_string(), "function:?:Other".to_string(), CallType::Constructor),
        ]
    );
}

const TS_SRC: &str = "// Adds numbers.
function add(a: number, b?: number): number {
  return helper(a) + new Point(b).x + obj.run();
}
";

#[test]
fn typescript_parser_extracts_function_and_calls() {
    let r = TypeScriptParser::typescript().parse_file("m.ts", TS_SRC).unwrap();
    assert_eq!(r.nodes.len(), 1);
    match &r.nodes[0] {
        ParsedNode::Function(f) => {
            assert_eq!(f.name, "add");
            assert_eq!(f.id.as_deref(), Some("function:m.ts:add"));
            assert_eq!(f.doc_comment.as_deref(), Some("Adds numbers."));
            assert_eq!(f.return_type.as_deref(), Some("number"));
            assert_eq!(f.parameters.len(), 2);
            assert_eq!(f.parameters[0].name, "a");
            assert_eq!(f.parameters[1].name, "b");
            assert_eq!(f.signature, "function add(a: number, b?: number): number {");
            assert_eq!(f.visibility, Visibility::Private);
        }
        other => panic!("expected function, got {:?}", other),
    }
    assert_eq!(
        calls(&r),
        vec![
            ("function:m.ts:add".to_string(), "function:?:helper".to_string(), CallType::Direct),
            ("function:m.ts:add".to_string(), "function:?:Point".to_string(), CallType::Constructor),
            ("function:m.ts:add".to_string(), "function:?:run".to_string(), CallType::Method),
        ]
    );
}

#[test]
fn javascript_parser_reads_plain_functions() {
    let r = TypeScriptParser::javascript()
        .parse_file("a.js", "function go(x) { return stop(x); }\n")
        .unwrap();
    assert_eq!(r.nodes.len(), 1);
    assert_eq!(
        calls(&r),
        vec![("function:a.js:go".to_string(), "function:?:stop".to_string(), CallType::Direct)]
    );
}
