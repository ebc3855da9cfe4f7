//! Python parser (tree-sitter).

use vstd::prelude::*;

use crate::knowledge::ontology::nodes::code::{
    FieldInfo, FunctionEntity, Parameter, StructEntity, Visibility,
};
use crate::knowledge::parser::result::{ParseResult, ParsedNode};
use crate::knowledge::parser::syntax::{
    calculate_complexity, child_by_field, children_of_kinds, end_line_of, field_child,
    first_kid_of_kinds, first_line_of, kids_of_kinds, kind_is, kind_is_one_of,
    lemma_tree_within_fits, node_complexity, node_end_line, node_fits, node_line, parse_syntax,
    start_line_of, strip_prefix_rep, strip_suffix_rep, syntax_tree, text_of, texts, tree_fits,
    trim_end_matches, trim_start_matches, SyntaxLanguage, SyntaxNode,
};
use crate::knowledge::parser::traits::{str_views, Parser, ParserCapability};
use crate::knowledge::parser::views::{
    extended_by, fields_view, function_view, lemma_extended_nothing, lemma_extended_same,
    lemma_extended_then, lemma_fresh_extended, nothing, params_view, result_is, struct_view,
    then, Extraction, FunctionView, NodeView, StructView,
};
use crate::knowledge::parser::walk::{
    add_calls, add_contained, calls_in, contained, edges_only, entities_in_file, lemma_in_file_parts,
    CallSyntax,
};
use crate::knowledge::records::string_views;
use crate::text::{
    chars_eq, chars_of, first_line, has_prefix, has_suffix, owned, starts_with, ends_with, str_eq,
    string_from_chars, trim, trim_chars,
};

verus! {

/// Python parser (tree-sitter).
#[derive(Debug, Clone, Copy, PartialEq, Eq, Structural)]
pub struct PythonParser {
    /// Reserved for parser options.
    pub options: u8,
}

impl PythonParser {
    /// Creates the parser.
    pub fn new() -> (r: Self)
        ensures
            r.options == 0,
    {
        PythonParser { options: 0 }
    }
}

impl PythonParser {
    /// The value `new` returns.
    pub open spec fn new_spec() -> Self {
        PythonParser { options: 0 }
    }
}

impl Default for PythonParser {
    fn default() -> (r: Self)
        ensures
            r.options == 0,
    {
        PythonParser::new()
    }
}

impl Parser for PythonParser {
    open spec fn spec_extensions(&self) -> Seq<Seq<char>> {
        seq!["py"@, "pyi"@]
    }

    fn language_name(&self) -> (r: &'static str)
        ensures
            r@ == "Python"@,
    {
        "Python"
    }

    fn supported_extensions(&self) -> (r: Vec<&'static str>) {
        let r = vec!["py", "pyi"];
        assert(str_views(r@) =~= self.spec_extensions());
        r
    }

    fn capability(&self) -> (r: ParserCapability)
        ensures
            r == ParserCapability::Syntactic,
    {
        ParserCapability::Syntactic
    }
}

// ---------------------------------------------------------------------------
// What the Python parser extracts
// ---------------------------------------------------------------------------

/// How Python spells calls: `f(..)` and `x.f(..)`.
pub open spec fn py_call_syntax() -> CallSyntax {
    CallSyntax {
        call: Some("call"),
        member: "attribute",
        member_name: "attribute",
        invocation: None,
        creation: None,
    }
}

/// The visibility a Python name conventionally has: a name starting with
/// "__" and not ending with it is private, one starting with "_" is
/// internal, any other is public.
pub open spec fn py_visibility(name: Seq<char>) -> Visibility {
    if has_prefix(name, "__"@) && !has_suffix(name, "__"@) {
        Visibility::Private
    } else if has_prefix(name, "_"@) {
        Visibility::PublicCrate
    } else {
        Visibility::Public
    }
}

/// The signature of a definition: its first line without trailing ':'.
pub open spec fn py_signature(n: SyntaxNode) -> Seq<char> {
    strip_suffix_rep(first_line(n.text@), ":"@)
}

/// The parameter a child of a parameter list declares, if any; `self` and
/// `cls` are left out, untyped parameters have type "Any".
pub open spec fn py_param(c: SyntaxNode) -> Option<(Seq<char>, Seq<char>, bool, bool)> {
    if c.kind@ == "identifier"@ {
        if c.text@ != "self"@ && c.text@ != "cls"@ {
            Some((c.text@, "Any"@, false, false))
        } else {
            None
        }
    } else if c.kind@ == "typed_parameter"@ || c.kind@ == "default_parameter"@ || c.kind@
        == "typed_default_parameter"@ {
        let name = match field_child(c, "name"@) {
            Some(x) => x.text@,
            None => match first_kid_of_kinds(c.children@, seq!["identifier"@]) {
                Some(x) => x.text@,
                None => Seq::empty(),
            },
        };
        let t = match field_child(c, "type"@) {
            Some(x) => x.text@,
            None => "Any"@,
        };
        if name.len() > 0 && name != "self"@ && name != "cls"@ {
            Some((name, t, false, false))
        } else {
            None
        }
    } else {
        None
    }
}

/// The parameters some children of a parameter list declare, in order.
pub open spec fn py_param_list(cs: Seq<SyntaxNode>) -> Seq<(Seq<char>, Seq<char>, bool, bool)>
    decreases cs.len(),
{
    if cs.len() == 0 {
        Seq::empty()
    } else {
        match py_param(cs.last()) {
            Some(p) => py_param_list(cs.drop_last()).push(p),
            None => py_param_list(cs.drop_last()),
        }
    }
}

/// The parameters of a function definition.
pub open spec fn py_params(n: SyntaxNode) -> Seq<(Seq<char>, Seq<char>, bool, bool)> {
    match field_child(n, "parameters"@) {
        Some(p) => py_param_list(p.children@),
        None => Seq::empty(),
    }
}

/// A parameter that one child of a list declares is among the list's
/// parameters.
proof fn lemma_py_param_in_list(cs: Seq<SyntaxNode>, k: int)
    requires
        0 <= k < cs.len(),
        py_param(cs[k]) is Some,
    ensures
        py_param_list(cs).contains(py_param(cs[k]).unwrap()),
    decreases cs.len(),
{
    let p = py_param(cs[k]).unwrap();
    let prev = cs.drop_last();
    if k == cs.len() - 1 {
        let l = py_param_list(prev).push(p);
        assert(l[l.len() - 1] == p);
    } else {
        assert(prev[k] == cs[k]);
        lemma_py_param_in_list(prev, k);
        let before = py_param_list(prev);
        let i = choose|i: int| 0 <= i < before.len() && before[i] == p;
        match py_param(cs.last()) {
            Some(q) => {
                assert(before.push(q)[i] == p);
            },
            None => {},
        }
    }
}

/// Every parameter of a function's parameter list that is typed, has a
/// default, or both, and is named other than `self` or `cls`, is one of the
/// function's parameters, with its name and its annotated type.
pub proof fn lemma_py_annotated_param_kept(n: SyntaxNode, plist: SyntaxNode, k: int, name: SyntaxNode, ty: SyntaxNode)
    requires
        field_child(n, "parameters"@) == Some(plist),
        0 <= k < plist.children@.len(),
        plist.children@[k].kind@ == "typed_parameter"@ || plist.children@[k].kind@
            == "default_parameter"@ || plist.children@[k].kind@ == "typed_default_parameter"@,
        field_child(plist.children@[k], "name"@) == Some(name),
        field_child(plist.children@[k], "type"@) == Some(ty),
        name.text@.len() > 0,
        name.text@ != "self"@,
        name.text@ != "cls"@,
    ensures
        py_params(n).contains((name.text@, ty.text@, false, false)),
{
    reveal_strlit("identifier");
    reveal_strlit("typed_parameter");
    reveal_strlit("default_parameter");
    reveal_strlit("typed_default_parameter");
    let c = plist.children@[k];
    assert(c.kind@.len() != "identifier"@.len());
    assert(py_param(c) == Some((name.text@, ty.text@, false, false)));
    lemma_py_param_in_list(plist.children@, k);
}

/// Every bare name in a function's parameter list other than `self` or
/// `cls` is one of the function's parameters, of type "Any".
pub proof fn lemma_py_bare_param_kept(n: SyntaxNode, plist: SyntaxNode, k: int)
    requires
        field_child(n, "parameters"@) == Some(plist),
        0 <= k < plist.children@.len(),
        plist.children@[k].kind@ == "identifier"@,
        plist.children@[k].text@ != "self"@,
        plist.children@[k].text@ != "cls"@,
    ensures
        py_params(n).contains((plist.children@[k].text@, "Any"@, false, false)),
{
    lemma_py_param_in_list(plist.children@, k);
}

/// No parameter of a function is named `self` or `cls`.
pub proof fn lemma_py_params_named(n: SyntaxNode)
    ensures
        forall|i: int|
            0 <= i < py_params(n).len() ==> {
                let nm = #[trigger] py_params(n)[i].0;
                nm != "self"@ && nm != "cls"@
            },
{
    reveal_strlit("self");
    reveal_strlit("cls");
    match field_child(n, "parameters"@) {
        Some(p) => lemma_py_param_list_named(p.children@),
        None => {},
    }
}

proof fn lemma_py_param_list_named(cs: Seq<SyntaxNode>)
    ensures
        forall|i: int|
            0 <= i < py_param_list(cs).len() ==> {
                let nm = #[trigger] py_param_list(cs)[i].0;
                nm != "self"@ && nm != "cls"@
            },
    decreases cs.len(),
{
    reveal_strlit("self");
    reveal_strlit("cls");
    if cs.len() > 0 {
        lemma_py_param_list_named(cs.drop_last());
        let before = py_param_list(cs.drop_last());
        match py_param(cs.last()) {
            Some(q) => {
                assert forall|i: int| 0 <= i < before.len() implies before.push(q)[i] == before[i] by {}
            },
            None => {},
        }
    }
}

/// A docstring without its quotes, trimmed.
pub open spec fn cleaned_docstring(t: Seq<char>) -> Seq<char> {
    trim(
        strip_suffix_rep(
            strip_prefix_rep(
                strip_suffix_rep(
                    strip_prefix_rep(
                        strip_suffix_rep(strip_prefix_rep(t, "\"\"\""@), "\"\"\""@),
                        "\'\'\'"@,
                    ),
                    "\'\'\'"@,
                ),
                "\""@,
            ),
            "\""@,
        ),
    )
}

/// The docstring of a definition: the string of its body's first
/// statement, when that is an expression statement holding one.
pub open spec fn py_docstring(n: SyntaxNode) -> Option<Seq<char>> {
    match field_child(n, "body"@) {
        Some(b) => if b.children@.len() > 0 && b.children@[0].kind@ == "expression_statement"@ {
            match first_kid_of_kinds(b.children@[0].children@, seq!["string"@]) {
                Some(st) => Some(cleaned_docstring(st.text@)),
                None => None,
            }
        } else {
            None
        },
        None => None,
    }
}

/// Whether a definition is async.
pub open spec fn py_is_async(n: SyntaxNode) -> bool {
    n.kind@ == "async_function_definition"@ || has_prefix(n.text@, "async "@)
}

/// The function entity of a function definition with a name.
pub open spec fn py_function(n: SyntaxNode, path: Seq<char>) -> Option<FunctionView> {
    match field_child(n, "name"@) {
        Some(name_node) => {
            let name = name_node.text@;
            Some(FunctionView {
                id: Some("function:"@ + path + ":"@ + name),
                name,
                qualified_name: name,
                file_path: path,
                start_line: start_line_of(n),
                end_line: end_line_of(n),
                signature: py_signature(n),
                parent: None,
                visibility: py_visibility(name),
                is_async: py_is_async(n),
                is_unsafe: false,
                generics: Seq::empty(),
                parameters: py_params(n),
                return_type: match field_child(n, "return_type"@) {
                    Some(r) => Some(r.text@),
                    None => None,
                },
                doc_comment: py_docstring(n),
                complexity: Some(node_complexity(n)),
            })
        },
        None => None,
    }
}

/// The field an instance attribute becomes: public, of type "Any".
pub open spec fn init_field(name: Seq<char>) -> (Seq<char>, Seq<char>, Visibility, Seq<Seq<char>>, Option<Seq<char>>) {
    (name, "Any"@, Visibility::Public, Seq::empty(), None)
}

/// The names of some fields.
pub open spec fn field_names(fs: Seq<FieldInfo>) -> Seq<Seq<char>> {
    fs.map_values(|f: FieldInfo| f.name@)
}

/// Whether every field is an instance attribute field.
pub open spec fn attribute_fields(fs: Seq<FieldInfo>) -> bool {
    fields_view(fs) == field_names(fs).map_values(|nm: Seq<char>| init_field(nm))
}

/// The attribute a statement assigns through `self`: for an expression
/// statement whose assignment's left side starts with "self.", that side
/// without it.
pub open spec fn self_assignment(c: SyntaxNode) -> Option<Seq<char>> {
    if c.kind@ == "expression_statement"@ {
        match first_kid_of_kinds(c.children@, seq!["assignment"@]) {
            Some(a) => match field_child(a, "left"@) {
                Some(l) => if has_prefix(l.text@, "self."@) {
                    Some(strip_prefix_rep(l.text@, "self."@))
                } else {
                    None
                },
                None => None,
            },
            None => None,
        }
    } else {
        None
    }
}

/// The attribute names known after a statement: a new name is added.
pub open spec fn note_attribute(names: Seq<Seq<char>>, c: SyntaxNode) -> Seq<Seq<char>> {
    match self_assignment(c) {
        Some(nm) => if names.contains(nm) {
            names
        } else {
            names.push(nm)
        },
        None => names,
    }
}

/// The attribute names known after walking a subtree's descendants in
/// source order.
pub open spec fn assigned_attributes(names: Seq<Seq<char>>, n: SyntaxNode) -> Seq<Seq<char>>
    decreases n, n.children@.len() + 1,
{
    assigned_attributes_kids(names, n, n.children@.len() as int)
}

/// The attribute names known after walking the first `k` children of a
/// node, each followed by its own descendants.
pub open spec fn assigned_attributes_kids(names: Seq<Seq<char>>, n: SyntaxNode, k: int) -> Seq<Seq<char>>
    decreases n, k,
{
    if k <= 0 || k > n.children@.len() {
        names
    } else {
        let c = n.children@[k - 1];
        assigned_attributes(note_attribute(assigned_attributes_kids(names, n, k - 1), c), c)
    }
}

/// Whether a statement defines `__init__`.
pub open spec fn is_init(s: SyntaxNode) -> bool {
    &&& s.kind@ == "function_definition"@
    &&& (field_child(s, "name"@) matches Some(nm) && nm.text@ == "__init__"@)
}

/// The attribute names known after the `__init__` definitions among some
/// statements of a class body.
pub open spec fn init_attributes(names: Seq<Seq<char>>, stmts: Seq<SyntaxNode>) -> Seq<Seq<char>>
    decreases stmts.len(),
{
    if stmts.len() == 0 {
        names
    } else {
        let a = init_attributes(names, stmts.drop_last());
        if is_init(stmts.last()) {
            assigned_attributes(a, stmts.last())
        } else {
            a
        }
    }
}

/// The attribute names of a class: those its blocks' `__init__`
/// definitions assign through `self`, each once, in order of assignment.
pub open spec fn class_attributes(names: Seq<Seq<char>>, cs: Seq<SyntaxNode>) -> Seq<Seq<char>>
    decreases cs.len(),
{
    if cs.len() == 0 {
        names
    } else {
        let a = class_attributes(names, cs.drop_last());
        if cs.last().kind@ == "block"@ {
            init_attributes(a, cs.last().children@)
        } else {
            a
        }
    }
}

/// The base classes of a class definition.
pub open spec fn py_bases(n: SyntaxNode) -> Seq<Seq<char>> {
    match field_child(n, "superclasses"@) {
        Some(sc) => texts(kids_of_kinds(sc.children@, seq!["identifier"@, "attribute"@])),
        None => Seq::empty(),
    }
}

/// The struct entity of a class definition with a name.
pub open spec fn py_class(n: SyntaxNode, path: Seq<char>) -> Option<StructView> {
    match field_child(n, "name"@) {
        Some(name_node) => {
            let name = name_node.text@;
            Some(StructView {
                id: Some("struct:"@ + path + ":"@ + name),
                name,
                qualified_name: name,
                file_path: path,
                start_line: start_line_of(n),
                end_line: end_line_of(n),
                visibility: Visibility::Public,
                generics: Seq::empty(),
                fields: class_attributes(Seq::empty(), n.children@).map_values(|nm: Seq<char>| init_field(nm)),
                derives: py_bases(n),
                attributes: Seq::empty(),
                doc_comment: py_docstring(n),
            })
        },
        None => None,
    }
}

/// What a node itself contributes: a function with its containment and
/// the calls of its body, or a class with its containment.
pub open spec fn py_own(n: SyntaxNode, path: Seq<char>) -> Extraction {
    if n.kind@ == "function_definition"@ || n.kind@ == "async_function_definition"@ {
        match py_function(n, path) {
            Some(f) => then(
                contained(NodeView::Function(f), f.id, path),
                match (f.id, field_child(n, "body"@)) {
                    (Some(id), Some(b)) => edges_only(calls_in(py_call_syntax(), b, id)),
                    _ => nothing(),
                },
            ),
            None => nothing(),
        }
    } else if n.kind@ == "class_definition"@ {
        match py_class(n, path) {
            Some(c) => contained(NodeView::Struct(c), c.id, path),
            None => nothing(),
        }
    } else {
        nothing()
    }
}

/// What processing a node adds: its own contribution, then that of each
/// child in order.
pub open spec fn py_process(n: SyntaxNode, path: Seq<char>) -> Extraction
    decreases n, n.children@.len() + 1,
{
    then(py_own(n, path), py_process_kids(n, n.children@.len() as int, path))
}

/// What processing the first `k` children of a node adds.
pub open spec fn py_process_kids(n: SyntaxNode, k: int, path: Seq<char>) -> Extraction
    decreases n, k,
{
    if k <= 0 || k > n.children@.len() {
        nothing()
    } else {
        then(py_process_kids(n, k - 1, path), py_process(n.children@[k - 1], path))
    }
}

impl PythonParser {
    /// The visibility of a name.
    fn extract_visibility(&self, name: &str) -> (v: Visibility)
        ensures
            v == py_visibility(name@),
    {
        let cs = chars_of(name);
        let dunder = chars_of("__");
        let under = chars_of("_");
        if starts_with(cs.as_slice(), dunder.as_slice()) && !ends_with(cs.as_slice(), dunder.as_slice()) {
            Visibility::Private
        } else if starts_with(cs.as_slice(), under.as_slice()) {
            Visibility::PublicCrate
        } else {
            Visibility::Public
        }
    }

    /// The signature of a definition.
    fn build_signature(&self, node: &SyntaxNode) -> (r: String)
        ensures
            r@ == py_signature(*node),
    {
        let l = first_line_of(node.text.as_str());
        let t = trim_end_matches(&l, ":");
        string_from_chars(t.as_slice())
    }

    /// The parameter a child of a parameter list declares.
    fn parameter_of(&self, c: &SyntaxNode) -> (r: Option<Parameter>)
        ensures
            match py_param(*c) {
                Some(p) => r matches Some(q) && params_view(seq![q]) == seq![p],
                None => r is None,
            },
    {
        if kind_is(c, "identifier") {
            if !str_eq(c.text.as_str(), "self") && !str_eq(c.text.as_str(), "cls") {
                let q = Parameter { name: text_of(c), type_str: owned("Any"), is_mutable: false, is_reference: false };
                assert(params_view(seq![q]) =~= seq![py_param(*c).unwrap()]);
                Some(q)
            } else {
                None
            }
        } else {
            let kinds = vec!["typed_parameter", "default_parameter", "typed_default_parameter"];
            assert(str_views(kinds@) =~= seq!["typed_parameter"@, "default_parameter"@, "typed_default_parameter"@]);
            if kind_is_one_of(c, &kinds) {
                let name = match child_by_field(c, "name") {
                    Some(x) => text_of(x),
                    None => {
                        let ident = vec!["identifier"];
                        assert(str_views(ident@) =~= seq!["identifier"@]);
                        let ids = children_of_kinds(c, &ident);
                        if ids.len() > 0 {
                            assert(ids@.map_values(|n: &SyntaxNode| *n)[0] == *ids@[0]);
                            text_of(ids[0])
                        } else {
                            String::new()
                        }
                    },
                };
                let t = match child_by_field(c, "type") {
                    Some(x) => text_of(x),
                    None => owned("Any"),
                };
                if name.unicode_len() > 0 && !str_eq(name.as_str(), "self") && !str_eq(name.as_str(), "cls") {
                    let q = Parameter { name, type_str: t, is_mutable: false, is_reference: false };
                    assert(params_view(seq![q]) =~= seq![py_param(*c).unwrap()]);
                    Some(q)
                } else {
                    None
                }
            } else {
                None
            }
        }
    }

    /// The parameters of a function definition.
    fn extract_parameters(&self, node: &SyntaxNode) -> (r: Vec<Parameter>)
        ensures
            params_view(r@) == py_params(*node),
    {
        let mut params: Vec<Parameter> = Vec::new();
        match child_by_field(node, "parameters") {
            Some(params_node) => {
                let cs = &params_node.children;
                let mut i: usize = 0;
                while i < cs.len()
                    invariant
                        i <= cs@.len(),
                        params_view(params@) == py_param_list(cs@.take(i as int)),
                    decreases cs.len() - i,
                {
                    assert(cs@.take(i + 1).drop_last() =~= cs@.take(i as int));
                    assert(cs@.take(i + 1).last() == cs@[i as int]);
                    match self.parameter_of(&cs[i]) {
                        Some(q) => {
                            let ghost before = params@;
                            params.push(q);
                            assert(params_view(params@) =~= params_view(before) + params_view(seq![q]));
                        },
                        None => {},
                    }
                    i = i + 1;
                }
                assert(cs@.take(i as int) =~= cs@);
            },
            None => {
                assert(params_view(params@) =~= Seq::<(Seq<char>, Seq<char>, bool, bool)>::empty());
            },
        }
        params
    }

    /// The docstring of a definition.
    fn extract_docstring(&self, node: &SyntaxNode) -> (r: Option<String>)
        ensures
            crate::knowledge::parser::views::ostr(r) == py_docstring(*node),
    {
        let body = match child_by_field(node, "body") {
            Some(b) => b,
            None => return None,
        };
        if body.children.len() == 0 {
            return None;
        }
        let first = &body.children[0];
        if !kind_is(first, "expression_statement") {
            return None;
        }
        let strs = vec!["string"];
        assert(str_views(strs@) =~= seq!["string"@]);
        let found = children_of_kinds(first, &strs);
        if found.len() == 0 {
            return None;
        }
        assert(found@.map_values(|n: &SyntaxNode| *n)[0] == *found@[0]);
        let t = chars_of(found[0].text.as_str());
        let a = trim_start_matches(&t, "\"\"\"");
        let b = trim_end_matches(&a, "\"\"\"");
        let c = trim_start_matches(&b, "\'\'\'");
        let d = trim_end_matches(&c, "\'\'\'");
        let e = trim_start_matches(&d, "\"");
        let f = trim_end_matches(&e, "\"");
        let cleaned = trim_chars(f.as_slice());
        Some(string_from_chars(cleaned.as_slice()))
    }

    /// The function entity of a function definition.
    fn extract_function(&self, node: &SyntaxNode, path: &str) -> (r: Option<FunctionEntity>)
        requires
            node_fits(*node),
        ensures
            match py_function(*node, path@) {
                Some(v) => r matches Some(f) && function_view(f) == v,
                None => r is None,
            },
    {
        let name_node = match child_by_field(node, "name") {
            Some(n) => n,
            None => return None,
        };
        let name = text_of(name_node);
        let params = self.extract_parameters(node);
        let return_type = match child_by_field(node, "return_type") {
            Some(r) => Some(text_of(r)),
            None => None,
        };
        let text = chars_of(node.text.as_str());
        let async_sp = chars_of("async ");
        let is_async = kind_is(node, "async_function_definition") || starts_with(text.as_slice(), async_sp.as_slice());
        let visibility = self.extract_visibility(name.as_str());
        let mut id = owned("function:");
        id.append(path);
        id.append(":");
        id.append(name.as_str());
        let generics: Vec<String> = Vec::new();
        assert(string_views(generics@) =~= Seq::<Seq<char>>::empty());
        Some(
            FunctionEntity {
                id: Some(id),
                name: name.clone(),
                qualified_name: name,
                file_path: owned(path),
                start_line: node_line(node),
                end_line: node_end_line(node),
                signature: self.build_signature(node),
                parent: None,
                visibility,
                is_async,
                is_unsafe: false,
                generics,
                parameters: params,
                return_type,
                doc_comment: self.extract_docstring(node),
                complexity: calculate_complexity(node),
            },
        )
    }
}

impl PythonParser {
    /// Whether a field of a name is already known.
    fn has_field_named(&self, fields: &Vec<FieldInfo>, name: &[char]) -> (r: bool)
        ensures
            r == field_names(fields@).contains(name@),
    {
        let mut i: usize = 0;
        while i < fields.len()
            invariant
                i <= fields@.len(),
                forall|j: int| 0 <= j < i ==> field_names(fields@)[j] != name@,
            decreases fields.len() - i,
        {
            let f = chars_of(fields[i].name.as_str());
            if chars_eq(f.as_slice(), name) {
                assert(field_names(fields@)[i as int] == name@);
                return true;
            }
            i = i + 1;
        }
        proof {
            if field_names(fields@).contains(name@) {
                let j = choose|j: int| 0 <= j < field_names(fields@).len() && field_names(fields@)[j] == name@;
                assert(field_names(fields@)[j] != name@);
            }
        }
        false
    }

    /// The attribute a statement assigns through `self`.
    fn self_assignment_of(&self, c: &SyntaxNode) -> (r: Option<Vec<char>>)
        ensures
            match self_assignment(*c) {
                Some(nm) => r matches Some(v) && v@ == nm,
                None => r is None,
            },
    {
        if !kind_is(c, "expression_statement") {
            return None;
        }
        let kinds = vec!["assignment"];
        assert(str_views(kinds@) =~= seq!["assignment"@]);
        let found = children_of_kinds(c, &kinds);
        if found.len() == 0 {
            return None;
        }
        assert(found@.map_values(|n: &SyntaxNode| *n)[0] == *found@[0]);
        match child_by_field(found[0], "left") {
            Some(l) => {
                let lt = chars_of(l.text.as_str());
                let pre = chars_of("self.");
                if starts_with(lt.as_slice(), pre.as_slice()) {
                    Some(trim_start_matches(&lt, "self."))
                } else {
                    None
                }
            },
            None => None,
        }
    }

    /// Adds the attribute a statement assigns through `self`, when new.
    fn note_assignment(&self, c: &SyntaxNode, fields: &mut Vec<FieldInfo>)
        requires
            attribute_fields(old(fields)@),
        ensures
            attribute_fields(final(fields)@),
            field_names(final(fields)@) == note_attribute(field_names(old(fields)@), *c),
    {
        match self.self_assignment_of(c) {
            Some(nm) => {
                if !self.has_field_named(fields, nm.as_slice()) {
                    let ghost before = fields@;
                    let attributes: Vec<String> = Vec::new();
                    assert(string_views(attributes@) =~= Seq::<Seq<char>>::empty());
                    fields.push(FieldInfo {
                        name: string_from_chars(nm.as_slice()),
                        type_str: owned("Any"),
                        visibility: Visibility::Public,
                        attributes,
                        doc_comment: None,
                    });
                    assert(field_names(fields@) =~= field_names(before).push(nm@));
                    assert(fields_view(fields@) =~= fields_view(before).push(init_field(nm@)));
                    assert(field_names(fields@).map_values(|n: Seq<char>| init_field(n)) =~= field_names(before).map_values(
                        |n: Seq<char>| init_field(n),
                    ).push(init_field(nm@)));
                }
            },
            None => {},
        }
    }

    /// Adds the attributes assigned through `self` in a subtree, in source
    /// order, each once.
    fn walk_for_assignments(&self, node: &SyntaxNode, fields: &mut Vec<FieldInfo>)
        requires
            attribute_fields(old(fields)@),
        ensures
            attribute_fields(final(fields)@),
            field_names(final(fields)@) == assigned_attributes(field_names(old(fields)@), *node),
        decreases node,
    {
        let ghost start = field_names(fields@);
        let mut i: usize = 0;
        while i < node.children.len()
            invariant
                i <= node.children@.len(),
                attribute_fields(fields@),
                field_names(fields@) == assigned_attributes_kids(start, *node, i as int),
            decreases node.children.len() - i,
        {
            self.note_assignment(&node.children[i], fields);
            self.walk_for_assignments(&node.children[i], fields);
            i = i + 1;
        }
    }

    /// Adds the attributes an `__init__` definition assigns.
    fn extract_init_fields(&self, init_node: &SyntaxNode, fields: &mut Vec<FieldInfo>)
        requires
            attribute_fields(old(fields)@),
        ensures
            attribute_fields(final(fields)@),
            field_names(final(fields)@) == assigned_attributes(field_names(old(fields)@), *init_node),
    {
        self.walk_for_assignments(init_node, fields);
    }

    /// Whether a statement defines `__init__`.
    fn defines_init(&self, s: &SyntaxNode) -> (r: bool)
        ensures
            r == is_init(*s),
    {
        if !kind_is(s, "function_definition") {
            return false;
        }
        match child_by_field(s, "name") {
            Some(nm) => str_eq(nm.text.as_str(), "__init__"),
            None => false,
        }
    }

    /// The instance attributes of a class.
    fn extract_class_fields(&self, node: &SyntaxNode) -> (r: Vec<FieldInfo>)
        ensures
            fields_view(r@) == class_attributes(Seq::empty(), node.children@).map_values(
                |nm: Seq<char>| init_field(nm),
            ),
    {
        let mut fields: Vec<FieldInfo> = Vec::new();
        assert(fields_view(fields@) =~= field_names(fields@).map_values(|nm: Seq<char>| init_field(nm)));
        assert(field_names(fields@) =~= Seq::<Seq<char>>::empty());
        let cs = &node.children;
        let mut i: usize = 0;
        while i < cs.len()
            invariant
                i <= cs@.len(),
                attribute_fields(fields@),
                field_names(fields@) == class_attributes(Seq::empty(), cs@.take(i as int)),
            decreases cs.len() - i,
        {
            let child = &cs[i];
            assert(cs@.take(i + 1).drop_last() =~= cs@.take(i as int));
            assert(cs@.take(i + 1).last() == *child);
            if kind_is(child, "block") {
                let ghost base = field_names(fields@);
                let stmts = &child.children;
                let mut k: usize = 0;
                while k < stmts.len()
                    invariant
                        k <= stmts@.len(),
                        attribute_fields(fields@),
                        field_names(fields@) == init_attributes(base, stmts@.take(k as int)),
                    decreases stmts.len() - k,
                {
                    assert(stmts@.take(k + 1).drop_last() =~= stmts@.take(k as int));
                    assert(stmts@.take(k + 1).last() == stmts@[k as int]);
                    if self.defines_init(&stmts[k]) {
                        self.extract_init_fields(&stmts[k], &mut fields);
                    }
                    k = k + 1;
                }
                assert(stmts@.take(k as int) =~= stmts@);
            }
            i = i + 1;
        }
        assert(cs@.take(i as int) =~= cs@);
        fields
    }

    /// The struct entity of a class definition.
    fn extract_class(&self, node: &SyntaxNode, path: &str) -> (r: Option<StructEntity>)
        requires
            node_fits(*node),
        ensures
            match py_class(*node, path@) {
                Some(v) => r matches Some(s) && struct_view(s) == v,
                None => r is None,
            },
    {
        let name_node = match child_by_field(node, "name") {
            Some(n) => n,
            None => return None,
        };
        let name = text_of(name_node);
        let fields = self.extract_class_fields(node);
        let mut bases: Vec<String> = Vec::new();
        match child_by_field(node, "superclasses") {
            Some(sc) => {
                let kinds = vec!["identifier", "attribute"];
                assert(str_views(kinds@) =~= seq!["identifier"@, "attribute"@]);
                let found = children_of_kinds(sc, &kinds);
                let ghost fv = found@.map_values(|n: &SyntaxNode| *n);
                let mut k: usize = 0;
                while k < found.len()
                    invariant
                        k <= found@.len(),
                        fv == found@.map_values(|n: &SyntaxNode| *n),
                        string_views(bases@) == texts(fv.take(k as int)),
                    decreases found.len() - k,
                {
                    let ghost before = bases@;
                    bases.push(text_of(found[k]));
                    assert(string_views(bases@) =~= string_views(before).push(fv[k as int].text@));
                    assert(texts(fv.take(k + 1)) =~= texts(fv.take(k as int)).push(fv[k as int].text@));
                    k = k + 1;
                }
                assert(fv.take(k as int) =~= fv);
            },
            None => {
                assert(string_views(bases@) =~= Seq::<Seq<char>>::empty());
            },
        }
        let mut id = owned("struct:");
        id.append(path);
        id.append(":");
        id.append(name.as_str());
        let generics: Vec<String> = Vec::new();
        let attributes: Vec<String> = Vec::new();
        assert(string_views(generics@) =~= Seq::<Seq<char>>::empty());
        assert(string_views(attributes@) =~= Seq::<Seq<char>>::empty());
        Some(
            StructEntity {
                id: Some(id),
                name: name.clone(),
                qualified_name: name,
                file_path: owned(path),
                start_line: node_line(node),
                end_line: node_end_line(node),
                visibility: Visibility::Public,
                generics,
                fields,
                derives: bases,
                attributes,
                doc_comment: self.extract_docstring(node),
            },
        )
    }

    /// Adds the calls found in a function body to the result.
    fn extract_calls(&self, node: &SyntaxNode, caller_id: &str, result: &mut ParseResult)
        ensures
            extended_by(*final(result), *old(result), edges_only(calls_in(py_call_syntax(), *node, caller_id@))),
    {
        let g = CallSyntax {
            call: Some("call"),
            member: "attribute",
            member_name: "attribute",
            invocation: None,
            creation: None,
        };
        add_calls(&g, node, caller_id, result);
    }

    /// Adds what a node and its descendants contribute to the result.
    fn process_node(&self, node: &SyntaxNode, path: &str, result: &mut ParseResult)
        requires
            tree_fits(*node),
        ensures
            extended_by(*final(result), *old(result), py_process(*node, path@)),
        decreases node,
    {
        let ghost start = *result;
        let ghost own = py_own(*node, path@);
        proof {
            lemma_extended_nothing(*result);
        }
        if kind_is(node, "function_definition") || kind_is(node, "async_function_definition") {
            match self.extract_function(node, path) {
                Some(func) => {
                    let ghost fv = function_view(func);
                    let id = add_contained(result, ParsedNode::Function(func), path);
                    let ghost r1 = *result;
                    let ghost x1 = contained(NodeView::Function(fv), fv.id, path@);
                    match (&id, child_by_field(node, "body")) {
                        (Some(func_id), Some(body)) => {
                            self.extract_calls(body, func_id.as_str(), result);
                            proof {
                                lemma_extended_then(start, r1, *result, x1, edges_only(calls_in(py_call_syntax(), *body, func_id@)));
                            }
                        },
                        _ => {
                            proof {
                                lemma_extended_nothing(*result);
                                lemma_extended_then(start, r1, *result, x1, nothing());
                            }
                        },
                    }
                },
                None => {},
            }
        } else if kind_is(node, "class_definition") {
            match self.extract_class(node, path) {
                Some(c) => {
                    add_contained(result, ParsedNode::Struct(c), path);
                },
                None => {},
            }
        }
        assert(extended_by(*result, start, own));
        let mut i: usize = 0;
        proof {
            lemma_extended_same(*result, start, own, then(own, py_process_kids(*node, 0, path@)));
        }
        while i < node.children.len()
            invariant
                i <= node.children@.len(),
                tree_fits(*node),
                extended_by(*result, start, then(own, py_process_kids(*node, i as int, path@))),
            decreases node.children.len() - i,
        {
            let ghost mid = *result;
            let ghost child_x = py_process(node.children@[i as int], path@);
            assert(tree_fits(node.children@[i as int]));
            self.process_node(&node.children[i], path, result);
            proof {
                lemma_extended_then(start, mid, *result, then(own, py_process_kids(*node, i as int, path@)), child_x);
                lemma_extended_same(
                    *result,
                    start,
                    then(then(own, py_process_kids(*node, i as int, path@)), child_x),
                    then(own, py_process_kids(*node, i + 1, path@)),
                );
            }
            i = i + 1;
        }
    }

    /// The parse result of a Python syntax tree.
    pub fn extract_from_tree(&self, path: &str, tree: &SyntaxNode) -> (r: ParseResult)
        requires
            tree_fits(*tree),
        ensures
            result_is(r, path@, py_process(*tree, path@)),
    {
        let mut result = ParseResult::new(path);
        let ghost fresh = result;
        self.process_node(tree, path, &mut result);
        proof {
            lemma_fresh_extended(fresh, result, py_process(*tree, path@));
        }
        result
    }

    /// Parses a Python file into its entities and relations.
    pub fn parse_file(&self, path: &str, content: &str) -> (r: Result<ParseResult, String>)
        requires
        ensures
            match syntax_tree(SyntaxLanguage::Python, content@) {
                Ok(t) => r matches Ok(res) && result_is(res, path@, py_process(t, path@)),
                Err(e) => r matches Err(m) && m@ == e,
            },
    {
        match parse_syntax(SyntaxLanguage::Python, content) {
            Ok(tree) => {
                proof {
                    lemma_tree_within_fits(tree, content@);
                }
                Ok(self.extract_from_tree(path, &tree))
            },
            Err(e) => Err(e),
        }
    }
}

/// Every entity a Python syntax tree yields comes with its containment in
/// the file.
pub proof fn lemma_py_entities_in_file(n: SyntaxNode, path: Seq<char>)
    ensures
        entities_in_file(py_process(n, path), path),
    decreases n, n.children@.len() + 1,
{
    lemma_py_kids_in_file(n, n.children@.len() as int, path);
    lemma_in_file_parts(nothing(), nothing(), NodeView::Other, Seq::empty(), path);
    if n.kind@ == "function_definition"@ || n.kind@ == "async_function_definition"@ {
        match py_function(n, path) {
            Some(f) => {
                let rest = match (f.id, field_child(n, "body"@)) {
                    (Some(id), Some(b)) => edges_only(calls_in(py_call_syntax(), b, id)),
                    _ => nothing(),
                };
                lemma_in_file_parts(contained(NodeView::Function(f), f.id, path), rest, NodeView::Function(f), rest.edges, path);
                lemma_in_file_parts(rest, rest, NodeView::Function(f), rest.edges, path);
            },
            None => {},
        }
    } else if n.kind@ == "class_definition"@ {
        match py_class(n, path) {
            Some(c) => lemma_in_file_parts(nothing(), nothing(), NodeView::Struct(c), Seq::empty(), path),
            None => {},
        }
    }
    lemma_in_file_parts(py_own(n, path), py_process_kids(n, n.children@.len() as int, path), NodeView::Other, Seq::empty(), path);
}

/// Every entity the first `k` children of a node yield comes with its
/// containment in the file.
pub proof fn lemma_py_kids_in_file(n: SyntaxNode, k: int, path: Seq<char>)
    ensures
        entities_in_file(py_process_kids(n, k, path), path),
    decreases n, k,
{
    lemma_in_file_parts(nothing(), nothing(), NodeView::Other, Seq::empty(), path);
    if 0 < k <= n.children@.len() {
        lemma_py_kids_in_file(n, k - 1, path);
        lemma_py_entities_in_file(n.children@[k - 1], path);
        lemma_in_file_parts(
            py_process_kids(n, k - 1, path),
            py_process(n.children@[k - 1], path),
            NodeView::Other,
            Seq::empty(),
            path,
        );
    }
}

} // verus!
