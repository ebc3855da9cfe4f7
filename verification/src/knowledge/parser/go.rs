//! Go parser (tree-sitter).

use vstd::prelude::*;

use crate::knowledge::ontology::nodes::code::{
    FieldInfo, FunctionEntity, Parameter, StructEntity, TraitEntity, Visibility,
};
use crate::knowledge::parser::result::{ParseResult, ParsedNode};
use crate::knowledge::parser::syntax::{
    child_by_field, children_of_kinds, calculate_complexity, doc_comment_of, end_line_of,
    extract_doc_comment, field_child, first_is_uppercase, kids_of_kinds, kind_is, node_complexity,
    node_end_line, node_line, start_line_of, starts_upper, strip_prefix_rep, strip_suffix_rep,
    SyntaxNode, first_kid_of_kinds, lemma_field_child_fits, trim_end_matches, trim_start_matches, first_line_of, text_of,
    node_fits, tree_fits, texts, lemma_tree_within_fits, parse_syntax, syntax_tree, SyntaxLanguage,
};
use crate::knowledge::parser::traits::{str_views, Parser, ParserCapability};
use crate::knowledge::parser::walk::{
    add_calls, add_contained, calls_in, contained, edges_only, entities_in_file, lemma_in_file_parts,
    CallSyntax,
};
use crate::knowledge::parser::views::{
    extended_by, fields_view, function_view, lemma_extended_nothing, lemma_extended_same,
    lemma_extended_then, lemma_fresh_extended, nothing, result_is, ostr, params_view,
    struct_view, then, trait_view, Extraction, FunctionView, NodeView, StructView, TraitView,
};
use crate::knowledge::records::string_views;
use crate::text::{first_line, has_prefix, owned, string_from_chars, trim, trim_chars};

verus! {

/// Go parser (tree-sitter).
#[derive(Debug, Clone, Copy, PartialEq, Eq, Structural)]
pub struct GoParser {
    /// Reserved for parser options.
    pub options: u8,
}

impl GoParser {
    /// Creates the parser.
    pub fn new() -> (r: Self)
        ensures
            r.options == 0,
    {
        GoParser { options: 0 }
    }
}

impl GoParser {
    /// The value `new` returns.
    pub open spec fn new_spec() -> Self {
        GoParser { options: 0 }
    }
}

impl Default for GoParser {
    fn default() -> (r: Self)
        ensures
            r.options == 0,
    {
        GoParser::new()
    }
}

impl Parser for GoParser {
    open spec fn spec_extensions(&self) -> Seq<Seq<char>> {
        seq!["go"@]
    }

    fn language_name(&self) -> (r: &'static str)
        ensures
            r@ == "Go"@,
    {
        "Go"
    }

    fn supported_extensions(&self) -> (r: Vec<&'static str>) {
        let r = vec!["go"];
        assert(str_views(r@) =~= self.spec_extensions());
        r
    }

    fn capability(&self) -> (r: ParserCapability)
        ensures
            r == ParserCapability::Syntactic,
    {
        ParserCapability::Syntactic
    }
}

// ---------------------------------------------------------------------------
// What the Go parser extracts
// ---------------------------------------------------------------------------

/// The visibility of a Go name: exported (public) when it starts with an
/// uppercase letter.
pub open spec fn go_visibility(name: Seq<char>) -> Visibility {
    if starts_upper(name) {
        Visibility::Public
    } else {
        Visibility::Private
    }
}

/// The signature of a declaration: its first line without a trailing '{',
/// trimmed.
pub open spec fn go_signature(n: SyntaxNode) -> Seq<char> {
    trim(strip_suffix_rep(first_line(n.text@), "{"@))
}

/// The type of a parameter declaration: its "type" field, else
/// "interface{}".
pub open spec fn go_param_type(d: SyntaxNode) -> Seq<char> {
    match field_child(d, "type"@) {
        Some(t) => t.text@,
        None => "interface{}"@,
    }
}

/// The parameters a declaration's parameter list declares: for each
/// "parameter_declaration", each of its identifiers with its type (a
/// reference when the type starts with '*').
pub open spec fn go_param_decls(cs: Seq<SyntaxNode>) -> Seq<(Seq<char>, Seq<char>, bool, bool)>
    decreases cs.len(),
{
    if cs.len() == 0 {
        Seq::empty()
    } else {
        let prev = go_param_decls(cs.drop_last());
        let d = cs.last();
        if d.kind@ == "parameter_declaration"@ {
            let t = go_param_type(d);
            prev + texts(kids_of_kinds(d.children@, seq!["identifier"@])).map_values(
                |nm: Seq<char>| (nm, t, false, has_prefix(t, seq!['*'])),
            )
        } else {
            prev
        }
    }
}

/// The parameters of a function declaration.
pub open spec fn go_params(n: SyntaxNode) -> Seq<(Seq<char>, Seq<char>, bool, bool)> {
    match field_child(n, "parameters"@) {
        Some(p) => go_param_decls(p.children@),
        None => Seq::empty(),
    }
}

/// The fields of one field declaration list: for each "field_declaration",
/// each of its field identifiers with its type (empty when absent).
pub open spec fn go_field_decls(cs: Seq<SyntaxNode>) -> Seq<(Seq<char>, Seq<char>, Visibility, Seq<Seq<char>>, Option<Seq<char>>)>
    decreases cs.len(),
{
    if cs.len() == 0 {
        Seq::empty()
    } else {
        let prev = go_field_decls(cs.drop_last());
        let d = cs.last();
        if d.kind@ == "field_declaration"@ {
            let t = match field_child(d, "type"@) {
                Some(x) => x.text@,
                None => Seq::empty(),
            };
            prev + texts(kids_of_kinds(d.children@, seq!["field_identifier"@])).map_values(
                |nm: Seq<char>| (nm, t, go_visibility(nm), Seq::<Seq<char>>::empty(), None::<Seq<char>>),
            )
        } else {
            prev
        }
    }
}

/// The fields of a struct type: those of each field declaration list.
pub open spec fn go_struct_fields(cs: Seq<SyntaxNode>) -> Seq<(Seq<char>, Seq<char>, Visibility, Seq<Seq<char>>, Option<Seq<char>>)>
    decreases cs.len(),
{
    if cs.len() == 0 {
        Seq::empty()
    } else {
        let prev = go_struct_fields(cs.drop_last());
        let d = cs.last();
        if d.kind@ == "field_declaration_list"@ {
            prev + go_field_decls(d.children@)
        } else {
            prev
        }
    }
}

/// The receiver type of a method: the first type identifier or pointer
/// type of its "receiver" field.
pub open spec fn go_receiver(n: SyntaxNode) -> Option<Seq<char>> {
    match field_child(n, "receiver"@) {
        Some(r) => match first_kid_of_kinds(r.children@, seq!["type_identifier"@, "pointer_type"@]) {
            Some(t) => Some(t.text@),
            None => None,
        },
        None => None,
    }
}

/// The qualified name of a function: "Receiver.name" for a method (the
/// receiver without '*'), else the name.
pub open spec fn go_qualified(n: SyntaxNode, name: Seq<char>) -> Seq<char> {
    match go_receiver(n) {
        Some(r) => strip_prefix_rep(r, "*"@) + "."@ + name,
        None => name,
    }
}

/// The function entity of a function or method declaration with a name.
pub open spec fn go_function(n: SyntaxNode, prev: Seq<SyntaxNode>, path: Seq<char>) -> Option<FunctionView> {
    match field_child(n, "name"@) {
        Some(name_node) => {
            let name = name_node.text@;
            let q = go_qualified(n, name);
            Some(FunctionView {
                id: Some("function:"@ + path + ":"@ + q),
                name,
                qualified_name: q,
                file_path: path,
                start_line: start_line_of(n),
                end_line: end_line_of(n),
                signature: go_signature(n),
                parent: go_receiver(n),
                visibility: go_visibility(name),
                is_async: false,
                is_unsafe: false,
                generics: Seq::empty(),
                parameters: go_params(n),
                return_type: match field_child(n, "result"@) {
                    Some(r) => Some(r.text@),
                    None => None,
                },
                doc_comment: doc_comment_of(prev),
                complexity: Some(node_complexity(n)),
            })
        },
        None => None,
    }
}

impl GoParser {
    /// The signature of a declaration.
    fn build_signature(&self, node: &SyntaxNode) -> (r: String)
        ensures
            r@ == go_signature(*node),
    {
        let l = first_line_of(node.text.as_str());
        let t = trim_end_matches(&l, "{");
        let tt = trim_chars(t.as_slice());
        string_from_chars(tt.as_slice())
    }

    /// The visibility of a name.
    fn extract_visibility(&self, name: &str) -> (v: Visibility)
        ensures
            v == go_visibility(name@),
    {
        if first_is_uppercase(name) {
            Visibility::Public
        } else {
            Visibility::Private
        }
    }

    /// The type of a parameter declaration.
    fn param_type(&self, d: &SyntaxNode) -> (r: String)
        ensures
            r@ == go_param_type(*d),
    {
        match child_by_field(d, "type") {
            Some(t) => text_of(t),
            None => owned("interface{}"),
        }
    }

    /// The parameters of a function declaration.
    fn extract_parameters(&self, node: &SyntaxNode) -> (r: Vec<Parameter>)
        ensures
            params_view(r@) == go_params(*node),
    {
        let mut params: Vec<Parameter> = Vec::new();
        match child_by_field(node, "parameters") {
            Some(params_node) => {
                let cs = &params_node.children;
                let ident = vec!["identifier"];
                assert(str_views(ident@) =~= seq!["identifier"@]);
                let mut i: usize = 0;
                while i < cs.len()
                    invariant
                        i <= cs@.len(),
                        str_views(ident@) == seq!["identifier"@],
                        params_view(params@) == go_param_decls(cs@.take(i as int)),
                    decreases cs.len() - i,
                {
                    let d = &cs[i];
                    assert(cs@.take(i + 1).drop_last() =~= cs@.take(i as int));
                    assert(cs@.take(i + 1).last() == *d);
                    if kind_is(d, "parameter_declaration") {
                        let names = children_of_kinds(d, &ident);
                        let t = self.param_type(d);
                        let tc = crate::text::chars_of(t.as_str());
                        let star = vec!['*'];
                        let is_ref = crate::text::starts_with(tc.as_slice(), star.as_slice());
                        assert(star@ =~= seq!['*']);
                        let ghost base = params_view(params@);
                        let ghost nv = texts(names@.map_values(|c: &SyntaxNode| *c));
                        let mut k: usize = 0;
                        while k < names.len()
                            invariant
                                k <= names@.len(),
                                nv == texts(names@.map_values(|c: &SyntaxNode| *c)),
                                params_view(params@) == base + nv.take(k as int).map_values(
                                    |nm: Seq<char>| (nm, t@, false, has_prefix(t@, seq!['*'])),
                                ),
                                is_ref == has_prefix(t@, seq!['*']),
                            decreases names.len() - k,
                        {
                            let ghost before = params@;
                            params.push(Parameter { name: text_of(names[k]), type_str: t.clone(), is_mutable: false, is_reference: is_ref });
                            assert(params_view(params@) =~= params_view(before).push(params_view(params@).last()));
                            assert(nv.take(k + 1) =~= nv.take(k as int).push(nv[k as int]));
                            k = k + 1;
                        }
                        assert(nv.take(k as int) =~= nv);
                    } else {
                    }
                    i = i + 1;
                }
                assert(cs@.take(i as int) =~= cs@);
            },
            None => {
                assert(params_view(params@) =~= Seq::<(Seq<char>, Seq<char>, bool, bool)>::empty());
            },
        }
        params
    }
}

impl GoParser {
    /// The fields of one field declaration list.
    fn field_decls(&self, list: &SyntaxNode, fields: &mut Vec<FieldInfo>)
        ensures
            fields_view(final(fields)@) == fields_view(old(fields)@) + go_field_decls(list.children@),
    {
        let cs = &list.children;
        let ident = vec!["field_identifier"];
        assert(str_views(ident@) =~= seq!["field_identifier"@]);
        let ghost start = fields_view(fields@);
        let mut i: usize = 0;
        while i < cs.len()
            invariant
                i <= cs@.len(),
                str_views(ident@) == seq!["field_identifier"@],
                fields_view(fields@) == start + go_field_decls(cs@.take(i as int)),
            decreases cs.len() - i,
        {
            let d = &cs[i];
            assert(cs@.take(i + 1).drop_last() =~= cs@.take(i as int));
            assert(cs@.take(i + 1).last() == *d);
            if kind_is(d, "field_declaration") {
                let names = children_of_kinds(d, &ident);
                let t = match child_by_field(d, "type") {
                    Some(x) => text_of(x),
                    None => String::new(),
                };
                let ghost base = fields_view(fields@);
                let ghost nv = texts(names@.map_values(|c: &SyntaxNode| *c));
                let mut k: usize = 0;
                while k < names.len()
                    invariant
                        k <= names@.len(),
                        nv == texts(names@.map_values(|c: &SyntaxNode| *c)),
                        fields_view(fields@) == base + nv.take(k as int).map_values(
                            |nm: Seq<char>| (nm, t@, go_visibility(nm), Seq::<Seq<char>>::empty(), None::<Seq<char>>),
                        ),
                    decreases names.len() - k,
                {
                    let name = text_of(names[k]);
                    let visibility = self.extract_visibility(name.as_str());
                    let ghost before = fields@;
                    let attributes: Vec<String> = Vec::new();
                    fields.push(FieldInfo { name, type_str: t.clone(), visibility, attributes, doc_comment: None });
                    assert(string_views(attributes@) =~= Seq::<Seq<char>>::empty());
                    assert(fields_view(fields@) =~= fields_view(before).push(fields_view(fields@).last()));
                    assert(nv.take(k + 1) =~= nv.take(k as int).push(nv[k as int]));
                    k = k + 1;
                }
                assert(nv.take(k as int) =~= nv);
                assert(go_field_decls(cs@.take(i + 1)) == go_field_decls(cs@.take(i as int)) + nv.map_values(
                    |nm: Seq<char>| (nm, t@, go_visibility(nm), Seq::<Seq<char>>::empty(), None::<Seq<char>>),
                ));
            }
            i = i + 1;
        }
        assert(cs@.take(i as int) =~= cs@);
    }

    /// The fields of a struct type.
    fn extract_struct_fields(&self, struct_node: &SyntaxNode) -> (r: Vec<FieldInfo>)
        ensures
            fields_view(r@) == go_struct_fields(struct_node.children@),
    {
        let mut fields: Vec<FieldInfo> = Vec::new();
        let cs = &struct_node.children;
        let mut i: usize = 0;
        assert(fields_view(fields@) =~= go_struct_fields(cs@.take(0)));
        while i < cs.len()
            invariant
                i <= cs@.len(),
                fields_view(fields@) == go_struct_fields(cs@.take(i as int)),
            decreases cs.len() - i,
        {
            let d = &cs[i];
            assert(cs@.take(i + 1).drop_last() =~= cs@.take(i as int));
            assert(cs@.take(i + 1).last() == *d);
            if kind_is(d, "field_declaration_list") {
                self.field_decls(d, &mut fields);
            }
            i = i + 1;
        }
        assert(cs@.take(i as int) =~= cs@);
        fields
    }

    /// The receiver type of a method.
    fn receiver(&self, node: &SyntaxNode) -> (r: Option<String>)
        ensures
            ostr(r) == go_receiver(*node),
    {
        match child_by_field(node, "receiver") {
            Some(rv) => {
                let kinds = vec!["type_identifier", "pointer_type"];
                assert(str_views(kinds@) =~= seq!["type_identifier"@, "pointer_type"@]);
                let found = children_of_kinds(rv, &kinds);
                if found.len() > 0 {
                    Some(text_of(found[0]))
                } else {
                    None
                }
            },
            None => None,
        }
    }

    /// The function entity of a function or method declaration.
    fn extract_function(&self, node: &SyntaxNode, siblings: &[SyntaxNode], before: usize, path: &str) -> (r: Option<FunctionEntity>)
        requires
            node_fits(*node),
            before <= siblings@.len(),
        ensures
            match go_function(*node, siblings@.take(before as int), path@) {
                Some(v) => r matches Some(f) && function_view(f) == v,
                None => r is None,
            },
    {
        let name_node = match child_by_field(node, "name") {
            Some(n) => n,
            None => return None,
        };
        let name = text_of(name_node);
        let params = self.extract_parameters(node);
        let return_type = match child_by_field(node, "result") {
            Some(r) => Some(text_of(r)),
            None => None,
        };
        let receiver = self.receiver(node);
        let qualified_name = match &receiver {
            Some(recv) => {
                let rc = crate::text::chars_of(recv.as_str());
                let stripped = trim_start_matches(&rc, "*");
                let mut q = string_from_chars(stripped.as_slice());
                q.append(".");
                q.append(name.as_str());
                q
            },
            None => name.clone(),
        };
        let mut id = owned("function:");
        id.append(path);
        id.append(":");
        id.append(qualified_name.as_str());
        let visibility = self.extract_visibility(name.as_str());
        let generics: Vec<String> = Vec::new();
        assert(string_views(generics@) =~= Seq::<Seq<char>>::empty());
        Some(
            FunctionEntity {
                id: Some(id),
                name,
                qualified_name,
                file_path: owned(path),
                start_line: node_line(node),
                end_line: node_end_line(node),
                signature: self.build_signature(node),
                parent: receiver,
                visibility,
                is_async: false,
                is_unsafe: false,
                generics,
                parameters: params,
                return_type,
                doc_comment: extract_doc_comment(siblings, before),
                complexity: calculate_complexity(node),
            },
        )
    }
}

/// The struct entity of a type spec whose type is a struct type.
pub open spec fn go_struct(n: SyntaxNode, prev: Seq<SyntaxNode>, path: Seq<char>) -> Option<StructView> {
    match field_child(n, "name"@) {
        Some(name_node) => match field_child(n, "type"@) {
            Some(t) => if t.kind@ == "struct_type"@ {
                let name = name_node.text@;
                Some(StructView {
                    id: Some("struct:"@ + path + ":"@ + name),
                    name,
                    qualified_name: name,
                    file_path: path,
                    start_line: start_line_of(n),
                    end_line: end_line_of(t),
                    visibility: go_visibility(name),
                    generics: Seq::empty(),
                    fields: go_struct_fields(t.children@),
                    derives: Seq::empty(),
                    attributes: Seq::empty(),
                    doc_comment: doc_comment_of(prev),
                })
            } else {
                None
            },
            None => None,
        },
        None => None,
    }
}

/// The names of the method specs among an interface type's children.
pub open spec fn go_method_names(cs: Seq<SyntaxNode>) -> Seq<Seq<char>>
    decreases cs.len(),
{
    if cs.len() == 0 {
        Seq::empty()
    } else {
        let prev = go_method_names(cs.drop_last());
        let c = cs.last();
        if c.kind@ == "method_spec"@ {
            match field_child(c, "name"@) {
                Some(m) => prev.push(m.text@),
                None => prev,
            }
        } else {
            prev
        }
    }
}

/// The trait entity of a type spec whose type is an interface type.
pub open spec fn go_interface(n: SyntaxNode, prev: Seq<SyntaxNode>, path: Seq<char>) -> Option<TraitView> {
    match field_child(n, "name"@) {
        Some(name_node) => match field_child(n, "type"@) {
            Some(t) => if t.kind@ == "interface_type"@ {
                let name = name_node.text@;
                Some(TraitView {
                    id: Some("trait:"@ + path + ":"@ + name),
                    name,
                    qualified_name: name,
                    file_path: path,
                    start_line: start_line_of(n),
                    end_line: end_line_of(t),
                    visibility: go_visibility(name),
                    generics: Seq::empty(),
                    super_traits: Seq::empty(),
                    required_methods: go_method_names(t.children@),
                    provided_methods: Seq::empty(),
                    associated_types: Seq::empty(),
                    doc_comment: doc_comment_of(prev),
                })
            } else {
                None
            },
            None => None,
        },
        None => None,
    }
}

/// How Go spells calls: `f(..)` and `x.f(..)`.
pub open spec fn go_call_syntax() -> CallSyntax {
    CallSyntax {
        call: Some("call_expression"),
        member: "selector_expression",
        member_name: "field",
        invocation: None,
        creation: None,
    }
}

/// What a node itself contributes: a function or method with its
/// containment in the file and the calls of its body, or a struct or
/// interface type with its containment.
pub open spec fn go_own(n: SyntaxNode, prev: Seq<SyntaxNode>, path: Seq<char>) -> Extraction {
    if n.kind@ == "function_declaration"@ || n.kind@ == "method_declaration"@ {
        match go_function(n, prev, path) {
            Some(f) => then(
                contained(NodeView::Function(f), f.id, path),
                match (f.id, field_child(n, "body"@)) {
                    (Some(id), Some(b)) => edges_only(calls_in(go_call_syntax(), b, id)),
                    _ => nothing(),
                },
            ),
            None => nothing(),
        }
    } else if n.kind@ == "type_spec"@ {
        match go_struct(n, prev, path) {
            Some(st) => contained(NodeView::Struct(st), st.id, path),
            None => match go_interface(n, prev, path) {
                Some(t) => contained(NodeView::Trait(t), t.id, path),
                None => nothing(),
            },
        }
    } else {
        nothing()
    }
}

/// What processing a node adds: its own contribution, then that of each
/// child in order.
pub open spec fn go_process(n: SyntaxNode, prev: Seq<SyntaxNode>, path: Seq<char>) -> Extraction
    decreases n, n.children@.len() + 1,
{
    then(go_own(n, prev, path), go_process_kids(n, n.children@.len() as int, path))
}

/// What processing the first `k` children of a node adds.
pub open spec fn go_process_kids(n: SyntaxNode, k: int, path: Seq<char>) -> Extraction
    decreases n, k,
{
    if k <= 0 || k > n.children@.len() {
        nothing()
    } else {
        then(
            go_process_kids(n, k - 1, path),
            go_process(n.children@[k - 1], n.children@.take(k - 1), path),
        )
    }
}

impl GoParser {
    /// The struct entity of a type spec.
    fn extract_struct(&self, node: &SyntaxNode, siblings: &[SyntaxNode], before: usize, path: &str) -> (r: Option<StructEntity>)
        requires
            tree_fits(*node),
            before <= siblings@.len(),
        ensures
            match go_struct(*node, siblings@.take(before as int), path@) {
                Some(v) => r matches Some(s) && struct_view(s) == v,
                None => r is None,
            },
    {
        let name_node = match child_by_field(node, "name") {
            Some(n) => n,
            None => return None,
        };
        let name = text_of(name_node);
        let type_node = match child_by_field(node, "type") {
            Some(t) => t,
            None => return None,
        };
        if !kind_is(type_node, "struct_type") {
            return None;
        }
        proof {
            lemma_field_child_fits(*node, "type"@);
        }
        let fields = self.extract_struct_fields(type_node);
        let mut id = owned("struct:");
        id.append(path);
        id.append(":");
        id.append(name.as_str());
        let visibility = self.extract_visibility(name.as_str());
        let generics: Vec<String> = Vec::new();
        let derives: Vec<String> = Vec::new();
        let attributes: Vec<String> = Vec::new();
        assert(string_views(generics@) =~= Seq::<Seq<char>>::empty());
        assert(string_views(derives@) =~= Seq::<Seq<char>>::empty());
        assert(string_views(attributes@) =~= Seq::<Seq<char>>::empty());
        Some(
            StructEntity {
                id: Some(id),
                name: name.clone(),
                qualified_name: name,
                file_path: owned(path),
                start_line: node_line(node),
                end_line: node_end_line(type_node),
                visibility,
                generics,
                fields,
                derives,
                attributes,
                doc_comment: extract_doc_comment(siblings, before),
            },
        )
    }

    /// The trait entity of a type spec.
    fn extract_interface(&self, node: &SyntaxNode, siblings: &[SyntaxNode], before: usize, path: &str) -> (r: Option<TraitEntity>)
        requires
            tree_fits(*node),
            before <= siblings@.len(),
        ensures
            match go_interface(*node, siblings@.take(before as int), path@) {
                Some(v) => r matches Some(t) && trait_view(t) == v,
                None => r is None,
            },
    {
        let name_node = match child_by_field(node, "name") {
            Some(n) => n,
            None => return None,
        };
        let name = text_of(name_node);
        let type_node = match child_by_field(node, "type") {
            Some(t) => t,
            None => return None,
        };
        if !kind_is(type_node, "interface_type") {
            return None;
        }
        proof {
            lemma_field_child_fits(*node, "type"@);
        }
        let mut required_methods: Vec<String> = Vec::new();
        let cs = &type_node.children;
        let mut i: usize = 0;
        while i < cs.len()
            invariant
                i <= cs@.len(),
                string_views(required_methods@) == go_method_names(cs@.take(i as int)),
            decreases cs.len() - i,
        {
            let c = &cs[i];
            assert(cs@.take(i + 1).drop_last() =~= cs@.take(i as int));
            assert(cs@.take(i + 1).last() == *c);
            if kind_is(c, "method_spec") {
                match child_by_field(c, "name") {
                    Some(m) => {
                        let ghost before_names = required_methods@;
                        required_methods.push(text_of(m));
                        assert(string_views(required_methods@) =~= string_views(before_names).push(m.text@));
                    },
                    None => {},
                }
            }
            i = i + 1;
        }
        assert(cs@.take(i as int) =~= cs@);
        let mut id = owned("trait:");
        id.append(path);
        id.append(":");
        id.append(name.as_str());
        let visibility = self.extract_visibility(name.as_str());
        let generics: Vec<String> = Vec::new();
        let super_traits: Vec<String> = Vec::new();
        let provided_methods: Vec<String> = Vec::new();
        let associated_types: Vec<String> = Vec::new();
        assert(string_views(generics@) =~= Seq::<Seq<char>>::empty());
        assert(string_views(super_traits@) =~= Seq::<Seq<char>>::empty());
        assert(string_views(provided_methods@) =~= Seq::<Seq<char>>::empty());
        assert(string_views(associated_types@) =~= Seq::<Seq<char>>::empty());
        Some(
            TraitEntity {
                id: Some(id),
                name: name.clone(),
                qualified_name: name,
                file_path: owned(path),
                start_line: node_line(node),
                end_line: node_end_line(type_node),
                visibility,
                generics,
                super_traits,
                required_methods,
                provided_methods,
                associated_types,
                doc_comment: extract_doc_comment(siblings, before),
            },
        )
    }

    /// Adds the calls found in a function body to the result.
    fn extract_calls(&self, node: &SyntaxNode, caller_id: &str, result: &mut ParseResult)
        ensures
            extended_by(*final(result), *old(result), edges_only(calls_in(go_call_syntax(), *node, caller_id@))),
    {
        let g = CallSyntax {
            call: Some("call_expression"),
            member: "selector_expression",
            member_name: "field",
            invocation: None,
            creation: None,
        };
        add_calls(&g, node, caller_id, result);
    }
}

impl GoParser {
    /// Adds what a node and its descendants contribute to the result; the
    /// node follows the first `before` of its siblings.
    fn process_node(&self, node: &SyntaxNode, siblings: &[SyntaxNode], before: usize, path: &str, result: &mut ParseResult)
        requires
            tree_fits(*node),
            before <= siblings@.len(),
        ensures
            extended_by(*final(result), *old(result), go_process(*node, siblings@.take(before as int), path@)),
        decreases node,
    {
        let ghost start = *result;
        let ghost prev = siblings@.take(before as int);
        let ghost own = go_own(*node, prev, path@);
        proof {
            lemma_extended_nothing(*result);
        }
        if kind_is(node, "function_declaration") || kind_is(node, "method_declaration") {
            match self.extract_function(node, siblings, before, path) {
                Some(func) => {
                    let ghost fv = function_view(func);
                    let id = add_contained(result, ParsedNode::Function(func), path);
                    let ghost r1 = *result;
                    let ghost x1 = contained(NodeView::Function(fv), fv.id, path@);
                    match (&id, child_by_field(node, "body")) {
                        (Some(func_id), Some(body)) => {
                            self.extract_calls(body, func_id.as_str(), result);
                            proof {
                                lemma_extended_then(start, r1, *result, x1, edges_only(calls_in(go_call_syntax(), *body, func_id@)));
                            }
                        },
                        _ => {
                            proof {
                                lemma_extended_nothing(*result);
                                lemma_extended_then(start, r1, *result, x1, nothing());
                            }
                        },
                    }
                },
                None => {},
            }
        } else if kind_is(node, "type_spec") {
            match self.extract_struct(node, siblings, before, path) {
                Some(st) => {
                    add_contained(result, ParsedNode::Struct(st), path);
                },
                None => match self.extract_interface(node, siblings, before, path) {
                    Some(t) => {
                        add_contained(result, ParsedNode::Trait(t), path);
                    },
                    None => {},
                },
            }
        }
        assert(extended_by(*result, start, own));
        let mut i: usize = 0;
        proof {
            lemma_extended_same(*result, start, own, then(own, go_process_kids(*node, 0, path@)));
        }
        while i < node.children.len()
            invariant
                i <= node.children@.len(),
                tree_fits(*node),
                extended_by(*result, start, then(own, go_process_kids(*node, i as int, path@))),
            decreases node.children.len() - i,
        {
            let ghost mid = *result;
            let ghost child_x = go_process(node.children@[i as int], node.children@.take(i as int), path@);
            assert(tree_fits(node.children@[i as int]));
            self.process_node(&node.children[i], node.children.as_slice(), i, path, result);
            proof {
                lemma_extended_then(start, mid, *result, then(own, go_process_kids(*node, i as int, path@)), child_x);
                lemma_extended_same(
                    *result,
                    start,
                    then(then(own, go_process_kids(*node, i as int, path@)), child_x),
                    then(own, go_process_kids(*node, i + 1, path@)),
                );
            }
            i = i + 1;
        }
    }

    /// The parse result of a Go syntax tree.
    pub fn extract_from_tree(&self, path: &str, tree: &SyntaxNode) -> (r: ParseResult)
        requires
            tree_fits(*tree),
        ensures
            result_is(r, path@, go_process(*tree, Seq::empty(), path@)),
    {
        let mut result = ParseResult::new(path);
        let ghost fresh = result;
        let none: Vec<SyntaxNode> = Vec::new();
        assert(none@.take(0) =~= Seq::<SyntaxNode>::empty());
        self.process_node(tree, none.as_slice(), 0, path, &mut result);
        proof {
            lemma_fresh_extended(fresh, result, go_process(*tree, Seq::empty(), path@));
        }
        result
    }

    /// Parses a Go file into its entities and relations.
    pub fn parse_file(&self, path: &str, content: &str) -> (r: Result<ParseResult, String>)
        requires
        ensures
            match syntax_tree(SyntaxLanguage::Go, content@) {
                Ok(t) => r matches Ok(res) && result_is(res, path@, go_process(t, Seq::empty(), path@)),
                Err(e) => r matches Err(m) && m@ == e,
            },
    {
        match parse_syntax(SyntaxLanguage::Go, content) {
            Ok(tree) => {
                proof {
                    lemma_tree_within_fits(tree, content@);
                }
                Ok(self.extract_from_tree(path, &tree))
            },
            Err(e) => Err(e),
        }
    }
}

/// Every entity a Go syntax tree yields comes with its containment in
/// the file.
pub proof fn lemma_go_entities_in_file(n: SyntaxNode, prev: Seq<SyntaxNode>, path: Seq<char>)
    ensures
        entities_in_file(go_process(n, prev, path), path),
    decreases n, n.children@.len() + 1,
{
    lemma_go_kids_in_file(n, n.children@.len() as int, path);
    lemma_in_file_parts(nothing(), nothing(), NodeView::Other, Seq::empty(), path);
    if n.kind@ == "function_declaration"@ || n.kind@ == "method_declaration"@ {
        match go_function(n, prev, path) {
            Some(f) => {
                let rest = match (f.id, field_child(n, "body"@)) {
                    (Some(id), Some(b)) => edges_only(calls_in(go_call_syntax(), b, id)),
                    _ => nothing(),
                };
                lemma_in_file_parts(contained(NodeView::Function(f), f.id, path), rest, NodeView::Function(f), rest.edges, path);
                lemma_in_file_parts(rest, rest, NodeView::Function(f), rest.edges, path);
            },
            None => {},
        }
    } else if n.kind@ == "type_spec"@ {
        match go_struct(n, prev, path) {
            Some(st) => lemma_in_file_parts(nothing(), nothing(), NodeView::Struct(st), Seq::empty(), path),
            None => match go_interface(n, prev, path) {
                Some(t) => lemma_in_file_parts(nothing(), nothing(), NodeView::Trait(t), Seq::empty(), path),
                None => {},
            },
        }
    }
    lemma_in_file_parts(go_own(n, prev, path), go_process_kids(n, n.children@.len() as int, path), NodeView::Other, Seq::empty(), path);
}

/// Every entity the first `k` children of a node yield comes with its
/// containment in the file.
pub proof fn lemma_go_kids_in_file(n: SyntaxNode, k: int, path: Seq<char>)
    ensures
        entities_in_file(go_process_kids(n, k, path), path),
    decreases n, k,
{
    lemma_in_file_parts(nothing(), nothing(), NodeView::Other, Seq::empty(), path);
    if 0 < k <= n.children@.len() {
        lemma_go_kids_in_file(n, k - 1, path);
        lemma_go_entities_in_file(n.children@[k - 1], n.children@.take(k - 1), path);
        lemma_in_file_parts(
            go_process_kids(n, k - 1, path),
            go_process(n.children@[k - 1], n.children@.take(k - 1), path),
            NodeView::Other,
            Seq::empty(),
            path,
        );
    }
}

} // verus!
