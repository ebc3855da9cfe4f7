//! TypeScript and JavaScript parser (tree-sitter).

use vstd::prelude::*;

use crate::knowledge::ontology::nodes::code::{
    EnumEntity, EnumVariant, FieldInfo, FunctionEntity, Parameter, StructEntity, TraitEntity,
    Visibility,
};
use crate::knowledge::parser::result::{ParseResult, ParsedNode};
use crate::knowledge::parser::syntax::{
    calculate_complexity, child_by_field, doc_comment_of, end_line_of, extract_doc_comment,
    field_child, first_line_of, kids_of_kinds, kind_is, kind_is_one_of, lemma_tree_within_fits,
    node_complexity, node_end_line, node_fits, node_line, parse_syntax, start_line_of,
    strip_prefix_rep, syntax_tree, text_of, texts, texts_of_kinds, tree_fits, trim_start_matches,
    SyntaxLanguage, SyntaxNode,
};
use crate::knowledge::parser::traits::{str_views, Parser, ParserCapability};
use crate::knowledge::parser::views::{
    enum_view, extended_by, fields_view, function_view, lemma_extended_nothing,
    lemma_extended_same, lemma_extended_then, lemma_fresh_extended, nothing, params_view,
    result_is, struct_view, then, trait_view, EnumView, Extraction, FunctionView, NodeView,
    StructView, TraitView,
};
use crate::knowledge::parser::walk::{
    add_calls, add_contained, calls_in, contained, edges_only, entities_in_file, lemma_in_file_parts,
    CallSyntax,
};
use crate::knowledge::records::string_views;
use crate::text::{chars_of, contains, contains_seq, first_line, owned, string_from_chars, trim, trim_chars};

verus! {

/// TypeScript or JavaScript parser (tree-sitter).
#[derive(Debug, Clone, Copy, PartialEq, Eq, Structural)]
pub struct TypeScriptParser {
    /// Whether this parser reads TypeScript (otherwise JavaScript).
    pub is_typescript: bool,
}

impl TypeScriptParser {
    /// Create a TypeScript parser (`.ts`, `.tsx`).
    pub fn typescript() -> (r: Self)
        ensures
            r.is_typescript,
    {
        TypeScriptParser { is_typescript: true }
    }

    /// Create a JavaScript parser (`.js`, `.jsx`, `.mjs`, `.cjs`).
    pub fn javascript() -> (r: Self)
        ensures
            !r.is_typescript,
    {
        TypeScriptParser { is_typescript: false }
    }
}

impl Parser for TypeScriptParser {
    open spec fn spec_extensions(&self) -> Seq<Seq<char>> {
        if self.is_typescript {
            seq!["ts"@, "tsx"@]
        } else {
            seq!["js"@, "jsx"@, "mjs"@, "cjs"@]
        }
    }

    fn language_name(&self) -> (r: &'static str)
        ensures
            r@ == (if self.is_typescript { "TypeScript"@ } else { "JavaScript"@ }),
    {
        if self.is_typescript {
            "TypeScript"
        } else {
            "JavaScript"
        }
    }

    fn supported_extensions(&self) -> (r: Vec<&'static str>) {
        if self.is_typescript {
            let r = vec!["ts", "tsx"];
            assert(str_views(r@) =~= self.spec_extensions());
            r
        } else {
            let r = vec!["js", "jsx", "mjs", "cjs"];
            assert(str_views(r@) =~= self.spec_extensions());
            r
        }
    }

    fn capability(&self) -> (r: ParserCapability)
        ensures
            r == ParserCapability::Syntactic,
    {
        ParserCapability::Syntactic
    }
}

// ---------------------------------------------------------------------------
// What the TypeScript parser extracts
// ---------------------------------------------------------------------------

/// How TypeScript and JavaScript spell calls: `f(..)`, `x.f(..)` and
/// `new C(..)`.
pub open spec fn ts_call_syntax() -> CallSyntax {
    CallSyntax {
        call: Some("call_expression"),
        member: "member_expression",
        member_name: "property",
        invocation: None,
        creation: Some(("new_expression", "constructor")),
    }
}

/// The visibility a declaration's text shows: exported or public, else
/// private, protected, or private by default.
pub open spec fn ts_visibility(n: SyntaxNode) -> Visibility {
    if contains_seq(n.text@, "export"@) || contains_seq(n.text@, "public"@) {
        Visibility::Public
    } else if contains_seq(n.text@, "private"@) {
        Visibility::Private
    } else if contains_seq(n.text@, "protected"@) {
        Visibility::PublicSuper
    } else {
        Visibility::Private
    }
}

/// The type parameters of a declaration.
pub open spec fn ts_generics(n: SyntaxNode) -> Seq<Seq<char>> {
    match field_child(n, "type_parameters"@) {
        Some(p) => texts(kids_of_kinds(p.children@, seq!["type_parameter"@])),
        None => Seq::empty(),
    }
}

/// The parameter a required or optional parameter declares: its pattern
/// (empty if none) and its type ("any" if none).
pub open spec fn ts_param(c: SyntaxNode) -> (Seq<char>, Seq<char>, bool, bool) {
    (
        match field_child(c, "pattern"@) {
            Some(x) => x.text@,
            None => Seq::empty(),
        },
        match field_child(c, "type"@) {
            Some(x) => x.text@,
            None => "any"@,
        },
        false,
        false,
    )
}

/// The parameters of a function.
pub open spec fn ts_params(n: SyntaxNode) -> Seq<(Seq<char>, Seq<char>, bool, bool)> {
    match field_child(n, "parameters"@) {
        Some(p) => kids_of_kinds(p.children@, seq!["required_parameter"@, "optional_parameter"@]).map_values(
            |c: SyntaxNode| ts_param(c),
        ),
        None => Seq::empty(),
    }
}

/// Whether a function has an `async` child.
pub open spec fn ts_is_async(n: SyntaxNode) -> bool {
    exists|i: int| 0 <= i < n.children@.len() && (#[trigger] n.children@[i]).kind@ == "async"@
}

/// The function entity of a named function.
pub open spec fn ts_function(n: SyntaxNode, prev: Seq<SyntaxNode>, path: Seq<char>) -> Option<FunctionView> {
    match field_child(n, "name"@) {
        Some(name_node) => {
            let name = name_node.text@;
            Some(FunctionView {
                id: Some("function:"@ + path + ":"@ + name),
                name,
                qualified_name: name,
                file_path: path,
                start_line: start_line_of(n),
                end_line: end_line_of(n),
                signature: first_line(n.text@),
                parent: None,
                visibility: ts_visibility(n),
                is_async: ts_is_async(n),
                is_unsafe: false,
                generics: ts_generics(n),
                parameters: ts_params(n),
                return_type: match field_child(n, "return_type"@) {
                    Some(r) => Some(trim(strip_prefix_rep(r.text@, ":"@))),
                    None => None,
                },
                doc_comment: doc_comment_of(prev),
                complexity: Some(node_complexity(n)),
            })
        },
        None => None,
    }
}

/// The field a field definition declares: its name (empty if none) and its
/// type ("any" if none), public.
pub open spec fn ts_field(c: SyntaxNode) -> (Seq<char>, Seq<char>, Visibility, Seq<Seq<char>>, Option<Seq<char>>) {
    (
        match field_child(c, "name"@) {
            Some(x) => x.text@,
            None => Seq::empty(),
        },
        match field_child(c, "type"@) {
            Some(x) => x.text@,
            None => "any"@,
        },
        Visibility::Public,
        Seq::empty(),
        None,
    )
}

/// The struct entity of a named class.
pub open spec fn ts_class(n: SyntaxNode, prev: Seq<SyntaxNode>, path: Seq<char>) -> Option<StructView> {
    match field_child(n, "name"@) {
        Some(name_node) => {
            let name = name_node.text@;
            Some(StructView {
                id: Some("struct:"@ + path + ":"@ + name),
                name,
                qualified_name: name,
                file_path: path,
                start_line: start_line_of(n),
                end_line: end_line_of(n),
                visibility: ts_visibility(n),
                generics: ts_generics(n),
                fields: kids_of_kinds(n.children@, seq!["public_field_definition"@, "field_definition"@]).map_values(
                    |c: SyntaxNode| ts_field(c),
                ),
                derives: Seq::empty(),
                attributes: Seq::empty(),
                doc_comment: doc_comment_of(prev),
            })
        },
        None => None,
    }
}

/// The names of the method signatures among some children.
pub open spec fn ts_method_names(cs: Seq<SyntaxNode>) -> Seq<Seq<char>>
    decreases cs.len(),
{
    if cs.len() == 0 {
        Seq::empty()
    } else {
        let prev = ts_method_names(cs.drop_last());
        let c = cs.last();
        if c.kind@ == "method_signature"@ {
            match field_child(c, "name"@) {
                Some(m) => prev.push(m.text@),
                None => prev,
            }
        } else {
            prev
        }
    }
}

/// The trait entity of a named interface.
pub open spec fn ts_interface(n: SyntaxNode, prev: Seq<SyntaxNode>, path: Seq<char>) -> Option<TraitView> {
    match field_child(n, "name"@) {
        Some(name_node) => {
            let name = name_node.text@;
            Some(TraitView {
                id: Some("trait:"@ + path + ":"@ + name),
                name,
                qualified_name: name,
                file_path: path,
                start_line: start_line_of(n),
                end_line: end_line_of(n),
                visibility: ts_visibility(n),
                generics: ts_generics(n),
                super_traits: Seq::empty(),
                required_methods: ts_method_names(n.children@),
                provided_methods: Seq::empty(),
                associated_types: Seq::empty(),
                doc_comment: doc_comment_of(prev),
            })
        },
        None => None,
    }
}

/// A variant as plain values: its name alone.
pub open spec fn plain_variant(name: Seq<char>) -> (Seq<char>, Seq<(Seq<char>, Seq<char>, Visibility, Seq<Seq<char>>, Option<Seq<char>>)>, Option<Seq<char>>, Option<Seq<char>>) {
    (name, Seq::empty(), None, None)
}

/// The enum entity of a named enum: a variant for each enum assignment or
/// property identifier child.
pub open spec fn ts_enum(n: SyntaxNode, prev: Seq<SyntaxNode>, path: Seq<char>) -> Option<EnumView> {
    match field_child(n, "name"@) {
        Some(name_node) => {
            let name = name_node.text@;
            Some(EnumView {
                id: Some("enum:"@ + path + ":"@ + name),
                name,
                qualified_name: name,
                file_path: path,
                start_line: start_line_of(n),
                end_line: end_line_of(n),
                visibility: ts_visibility(n),
                generics: Seq::empty(),
                variants: texts(kids_of_kinds(n.children@, seq!["enum_assignment"@, "property_identifier"@])).map_values(
                    |v: Seq<char>| plain_variant(v),
                ),
                derives: Seq::empty(),
                doc_comment: doc_comment_of(prev),
            })
        },
        None => None,
    }
}

/// What a node itself contributes: a function with its containment and
/// the calls of its body, or a class, interface or enum with its
/// containment.
pub open spec fn ts_own(n: SyntaxNode, prev: Seq<SyntaxNode>, path: Seq<char>) -> Extraction {
    if n.kind@ == "function_declaration"@ || n.kind@ == "function"@ || n.kind@ == "arrow_function"@
        || n.kind@ == "method_definition"@ {
        match ts_function(n, prev, path) {
            Some(f) => then(
                contained(NodeView::Function(f), f.id, path),
                match (f.id, field_child(n, "body"@)) {
                    (Some(id), Some(b)) => edges_only(calls_in(ts_call_syntax(), b, id)),
                    _ => nothing(),
                },
            ),
            None => nothing(),
        }
    } else if n.kind@ == "class_declaration"@ || n.kind@ == "class"@ {
        match ts_class(n, prev, path) {
            Some(c) => contained(NodeView::Struct(c), c.id, path),
            None => nothing(),
        }
    } else if n.kind@ == "interface_declaration"@ {
        match ts_interface(n, prev, path) {
            Some(t) => contained(NodeView::Trait(t), t.id, path),
            None => nothing(),
        }
    } else if n.kind@ == "enum_declaration"@ {
        match ts_enum(n, prev, path) {
            Some(e) => contained(NodeView::Enum(e), e.id, path),
            None => nothing(),
        }
    } else {
        nothing()
    }
}

/// What processing a node adds: its own contribution, then that of each
/// child in order.
pub open spec fn ts_process(n: SyntaxNode, prev: Seq<SyntaxNode>, path: Seq<char>) -> Extraction
    decreases n, n.children@.len() + 1,
{
    then(ts_own(n, prev, path), ts_process_kids(n, n.children@.len() as int, path))
}

/// What processing the first `k` children of a node adds.
pub open spec fn ts_process_kids(n: SyntaxNode, k: int, path: Seq<char>) -> Extraction
    decreases n, k,
{
    if k <= 0 || k > n.children@.len() {
        nothing()
    } else {
        then(
            ts_process_kids(n, k - 1, path),
            ts_process(n.children@[k - 1], n.children@.take(k - 1), path),
        )
    }
}

/// The grammar a parser reads.
pub open spec fn ts_language(p: TypeScriptParser) -> SyntaxLanguage {
    if p.is_typescript {
        SyntaxLanguage::TypeScript
    } else {
        SyntaxLanguage::JavaScript
    }
}

impl TypeScriptParser {
    /// The visibility a declaration's text shows.
    fn extract_visibility(&self, node: &SyntaxNode) -> (v: Visibility)
        ensures
            v == ts_visibility(*node),
    {
        let t = chars_of(node.text.as_str());
        let export = chars_of("export");
        let public = chars_of("public");
        let private = chars_of("private");
        let protected = chars_of("protected");
        if contains(t.as_slice(), export.as_slice()) || contains(t.as_slice(), public.as_slice()) {
            Visibility::Public
        } else if contains(t.as_slice(), private.as_slice()) {
            Visibility::Private
        } else if contains(t.as_slice(), protected.as_slice()) {
            Visibility::PublicSuper
        } else {
            Visibility::Private
        }
    }

    /// The type parameters of a declaration.
    fn extract_generics(&self, node: &SyntaxNode) -> (r: Vec<String>)
        ensures
            string_views(r@) == ts_generics(*node),
    {
        match child_by_field(node, "type_parameters") {
            Some(p) => {
                let kinds = vec!["type_parameter"];
                assert(str_views(kinds@) =~= seq!["type_parameter"@]);
                texts_of_kinds(p, &kinds)
            },
            None => {
                let r: Vec<String> = Vec::new();
                assert(string_views(r@) =~= Seq::<Seq<char>>::empty());
                r
            },
        }
    }

    /// The parameters of a function.
    fn extract_parameters(&self, node: &SyntaxNode) -> (r: Vec<Parameter>)
        ensures
            params_view(r@) == ts_params(*node),
    {
        let mut params: Vec<Parameter> = Vec::new();
        match child_by_field(node, "parameters") {
            Some(params_node) => {
                let kinds = vec!["required_parameter", "optional_parameter"];
                assert(str_views(kinds@) =~= seq!["required_parameter"@, "optional_parameter"@]);
                let found = crate::knowledge::parser::syntax::children_of_kinds(params_node, &kinds);
                let ghost fv = found@.map_values(|n: &SyntaxNode| *n);
                let mut k: usize = 0;
                while k < found.len()
                    invariant
                        k <= found@.len(),
                        fv == found@.map_values(|n: &SyntaxNode| *n),
                        params_view(params@) == fv.take(k as int).map_values(|c: SyntaxNode| ts_param(c)),
                    decreases found.len() - k,
                {
                    let c = found[k];
                    let name = match child_by_field(c, "pattern") {
                        Some(x) => text_of(x),
                        None => String::new(),
                    };
                    let t = match child_by_field(c, "type") {
                        Some(x) => text_of(x),
                        None => owned("any"),
                    };
                    let ghost before = params@;
                    params.push(Parameter { name, type_str: t, is_mutable: false, is_reference: false });
                    assert(params_view(params@) =~= params_view(before).push(ts_param(fv[k as int])));
                    assert(fv.take(k + 1).map_values(|c: SyntaxNode| ts_param(c)) =~= fv.take(k as int).map_values(
                        |c: SyntaxNode| ts_param(c),
                    ).push(ts_param(fv[k as int])));
                    k = k + 1;
                }
                assert(fv.take(k as int) =~= fv);
            },
            None => {
                assert(params_view(params@) =~= Seq::<(Seq<char>, Seq<char>, bool, bool)>::empty());
            },
        }
        params
    }

    /// Whether a function has an `async` child.
    fn has_async(&self, node: &SyntaxNode) -> (r: bool)
        ensures
            r == ts_is_async(*node),
    {
        let mut i: usize = 0;
        while i < node.children.len()
            invariant
                i <= node.children@.len(),
                forall|j: int| 0 <= j < i ==> (#[trigger] node.children@[j]).kind@ != "async"@,
            decreases node.children.len() - i,
        {
            if kind_is(&node.children[i], "async") {
                return true;
            }
            i = i + 1;
        }
        false
    }

    /// The function entity of a named function.
    fn extract_function(&self, node: &SyntaxNode, siblings: &[SyntaxNode], before: usize, path: &str) -> (r: Option<FunctionEntity>)
        requires
            node_fits(*node),
            before <= siblings@.len(),
        ensures
            match ts_function(*node, siblings@.take(before as int), path@) {
                Some(v) => r matches Some(f) && function_view(f) == v,
                None => r is None,
            },
    {
        let name_node = match child_by_field(node, "name") {
            Some(n) => n,
            None => return None,
        };
        let name = text_of(name_node);
        let params = self.extract_parameters(node);
        let return_type = match child_by_field(node, "return_type") {
            Some(r) => {
                let rc = chars_of(r.text.as_str());
                let stripped = trim_start_matches(&rc, ":");
                let t = trim_chars(stripped.as_slice());
                Some(string_from_chars(t.as_slice()))
            },
            None => None,
        };
        let is_async = self.has_async(node);
        let sig = first_line_of(node.text.as_str());
        let mut id = owned("function:");
        id.append(path);
        id.append(":");
        id.append(name.as_str());
        Some(
            FunctionEntity {
                id: Some(id),
                name: name.clone(),
                qualified_name: name,
                file_path: owned(path),
                start_line: node_line(node),
                end_line: node_end_line(node),
                signature: string_from_chars(sig.as_slice()),
                parent: None,
                visibility: self.extract_visibility(node),
                is_async,
                is_unsafe: false,
                generics: self.extract_generics(node),
                parameters: params,
                return_type,
                doc_comment: extract_doc_comment(siblings, before),
                complexity: calculate_complexity(node),
            },
        )
    }

    /// The fields of a class.
    fn extract_class_fields(&self, node: &SyntaxNode) -> (r: Vec<FieldInfo>)
        ensures
            fields_view(r@) == kids_of_kinds(node.children@, seq!["public_field_definition"@, "field_definition"@]).map_values(
                |c: SyntaxNode| ts_field(c),
            ),
    {
        let kinds = vec!["public_field_definition", "field_definition"];
        assert(str_views(kinds@) =~= seq!["public_field_definition"@, "field_definition"@]);
        let found = crate::knowledge::parser::syntax::children_of_kinds(node, &kinds);
        let ghost fv = found@.map_values(|n: &SyntaxNode| *n);
        let mut fields: Vec<FieldInfo> = Vec::new();
        let mut k: usize = 0;
        while k < found.len()
            invariant
                k <= found@.len(),
                fv == found@.map_values(|n: &SyntaxNode| *n),
                fields_view(fields@) == fv.take(k as int).map_values(|c: SyntaxNode| ts_field(c)),
            decreases found.len() - k,
        {
            let c = found[k];
            let name = match child_by_field(c, "name") {
                Some(x) => text_of(x),
                None => String::new(),
            };
            let t = match child_by_field(c, "type") {
                Some(x) => text_of(x),
                None => owned("any"),
            };
            let attributes: Vec<String> = Vec::new();
            assert(string_views(attributes@) =~= Seq::<Seq<char>>::empty());
            let ghost before = fields@;
            fields.push(FieldInfo { name, type_str: t, visibility: Visibility::Public, attributes, doc_comment: None });
            assert(fields_view(fields@) =~= fields_view(before).push(ts_field(fv[k as int])));
            assert(fv.take(k + 1).map_values(|c: SyntaxNode| ts_field(c)) =~= fv.take(k as int).map_values(
                |c: SyntaxNode| ts_field(c),
            ).push(ts_field(fv[k as int])));
            k = k + 1;
        }
        assert(fv.take(k as int) =~= fv);
        fields
    }

    /// The struct entity of a named class.
    fn extract_class(&self, node: &SyntaxNode, siblings: &[SyntaxNode], before: usize, path: &str) -> (r: Option<StructEntity>)
        requires
            node_fits(*node),
            before <= siblings@.len(),
        ensures
            match ts_class(*node, siblings@.take(before as int), path@) {
                Some(v) => r matches Some(s) && struct_view(s) == v,
                None => r is None,
            },
    {
        let name_node = match child_by_field(node, "name") {
            Some(n) => n,
            None => return None,
        };
        let name = text_of(name_node);
        let fields = self.extract_class_fields(node);
        let mut id = owned("struct:");
        id.append(path);
        id.append(":");
        id.append(name.as_str());
        let derives: Vec<String> = Vec::new();
        let attributes: Vec<String> = Vec::new();
        assert(string_views(derives@) =~= Seq::<Seq<char>>::empty());
        assert(string_views(attributes@) =~= Seq::<Seq<char>>::empty());
        Some(
            StructEntity {
                id: Some(id),
                name: name.clone(),
                qualified_name: name,
                file_path: owned(path),
                start_line: node_line(node),
                end_line: node_end_line(node),
                visibility: self.extract_visibility(node),
                generics: self.extract_generics(node),
                fields,
                derives,
                attributes,
                doc_comment: extract_doc_comment(siblings, before),
            },
        )
    }

    /// The trait entity of a named interface.
    fn extract_interface(&self, node: &SyntaxNode, siblings: &[SyntaxNode], before: usize, path: &str) -> (r: Option<TraitEntity>)
        requires
            node_fits(*node),
            before <= siblings@.len(),
        ensures
            match ts_interface(*node, siblings@.take(before as int), path@) {
                Some(v) => r matches Some(t) && trait_view(t) == v,
                None => r is None,
            },
    {
        let name_node = match child_by_field(node, "name") {
            Some(n) => n,
            None => return None,
        };
        let name = text_of(name_node);
        let mut required_methods: Vec<String> = Vec::new();
        let cs = &node.children;
        let mut i: usize = 0;
        while i < cs.len()
            invariant
                i <= cs@.len(),
                string_views(required_methods@) == ts_method_names(cs@.take(i as int)),
            decreases cs.len() - i,
        {
            let c = &cs[i];
            assert(cs@.take(i + 1).drop_last() =~= cs@.take(i as int));
            assert(cs@.take(i + 1).last() == *c);
            if kind_is(c, "method_signature") {
                match child_by_field(c, "name") {
                    Some(m) => {
                        let ghost before_names = required_methods@;
                        required_methods.push(text_of(m));
                        assert(string_views(required_methods@) =~= string_views(before_names).push(m.text@));
                    },
                    None => {},
                }
            }
            i = i + 1;
        }
        assert(cs@.take(i as int) =~= cs@);
        let mut id = owned("trait:");
        id.append(path);
        id.append(":");
        id.append(name.as_str());
        let super_traits: Vec<String> = Vec::new();
        let provided_methods: Vec<String> = Vec::new();
        let associated_types: Vec<String> = Vec::new();
        assert(string_views(super_traits@) =~= Seq::<Seq<char>>::empty());
        assert(string_views(provided_methods@) =~= Seq::<Seq<char>>::empty());
        assert(string_views(associated_types@) =~= Seq::<Seq<char>>::empty());
        Some(
            TraitEntity {
                id: Some(id),
                name: name.clone(),
                qualified_name: name,
                file_path: owned(path),
                start_line: node_line(node),
                end_line: node_end_line(node),
                visibility: self.extract_visibility(node),
                generics: self.extract_generics(node),
                super_traits,
                required_methods,
                provided_methods,
                associated_types,
                doc_comment: extract_doc_comment(siblings, before),
            },
        )
    }

    /// The enum entity of a named enum.
    fn extract_enum(&self, node: &SyntaxNode, siblings: &[SyntaxNode], before: usize, path: &str) -> (r: Option<EnumEntity>)
        requires
            node_fits(*node),
            before <= siblings@.len(),
        ensures
            match ts_enum(*node, siblings@.take(before as int), path@) {
                Some(v) => r matches Some(e) && enum_view(e) == v,
                None => r is None,
            },
    {
        let name_node = match child_by_field(node, "name") {
            Some(n) => n,
            None => return None,
        };
        let name = text_of(name_node);
        let kinds = vec!["enum_assignment", "property_identifier"];
        assert(str_views(kinds@) =~= seq!["enum_assignment"@, "property_identifier"@]);
        let names = texts_of_kinds(node, &kinds);
        let ghost nv = string_views(names@);
        let mut variants: Vec<EnumVariant> = Vec::new();
        let mut k: usize = 0;
        while k < names.len()
            invariant
                k <= names@.len(),
                nv == string_views(names@),
                variants@.map_values(|v: EnumVariant| crate::knowledge::parser::views::variant_view(v)) == nv.take(k as int).map_values(
                    |v: Seq<char>| plain_variant(v),
                ),
            decreases names.len() - k,
        {
            let fields: Vec<FieldInfo> = Vec::new();
            assert(fields_view(fields@) =~= Seq::<(Seq<char>, Seq<char>, Visibility, Seq<Seq<char>>, Option<Seq<char>>)>::empty());
            let ghost before = variants@;
            variants.push(EnumVariant { name: names[k].clone(), fields, discriminant: None, doc_comment: None });
            assert(variants@.map_values(|v: EnumVariant| crate::knowledge::parser::views::variant_view(v)) =~= before.map_values(
                |v: EnumVariant| crate::knowledge::parser::views::variant_view(v),
            ).push(plain_variant(nv[k as int])));
            assert(nv.take(k + 1).map_values(|v: Seq<char>| plain_variant(v)) =~= nv.take(k as int).map_values(
                |v: Seq<char>| plain_variant(v),
            ).push(plain_variant(nv[k as int])));
            k = k + 1;
        }
        assert(nv.take(k as int) =~= nv);
        let mut id = owned("enum:");
        id.append(path);
        id.append(":");
        id.append(name.as_str());
        let generics: Vec<String> = Vec::new();
        let derives: Vec<String> = Vec::new();
        assert(string_views(generics@) =~= Seq::<Seq<char>>::empty());
        assert(string_views(derives@) =~= Seq::<Seq<char>>::empty());
        Some(
            EnumEntity {
                id: Some(id),
                name: name.clone(),
                qualified_name: name,
                file_path: owned(path),
                start_line: node_line(node),
                end_line: node_end_line(node),
                visibility: self.extract_visibility(node),
                generics,
                variants,
                derives,
                doc_comment: extract_doc_comment(siblings, before),
            },
        )
    }

    /// Adds the calls found in a function body to the result.
    fn extract_calls(&self, node: &SyntaxNode, caller_id: &str, result: &mut ParseResult)
        ensures
            extended_by(*final(result), *old(result), edges_only(calls_in(ts_call_syntax(), *node, caller_id@))),
    {
        let g = CallSyntax {
            call: Some("call_expression"),
            member: "member_expression",
            member_name: "property",
            invocation: None,
            creation: Some(("new_expression", "constructor")),
        };
        add_calls(&g, node, caller_id, result);
    }

    /// Adds what a node and its descendants contribute to the result; the
    /// node follows the first `before` of its siblings.
    fn process_node(&self, node: &SyntaxNode, siblings: &[SyntaxNode], before: usize, path: &str, result: &mut ParseResult)
        requires
            tree_fits(*node),
            before <= siblings@.len(),
        ensures
            extended_by(*final(result), *old(result), ts_process(*node, siblings@.take(before as int), path@)),
        decreases node,
    {
        let ghost start = *result;
        let ghost prev = siblings@.take(before as int);
        let ghost own = ts_own(*node, prev, path@);
        proof {
            lemma_extended_nothing(*result);
        }
        let fn_kinds = vec!["function_declaration", "function", "arrow_function", "method_definition"];
        assert(str_views(fn_kinds@) =~= seq!["function_declaration"@, "function"@, "arrow_function"@, "method_definition"@]);
        if kind_is_one_of(node, &fn_kinds) {
            match self.extract_function(node, siblings, before, path) {
                Some(func) => {
                    let ghost fv = function_view(func);
                    let id = add_contained(result, ParsedNode::Function(func), path);
                    let ghost r1 = *result;
                    let ghost x1 = contained(NodeView::Function(fv), fv.id, path@);
                    match (&id, child_by_field(node, "body")) {
                        (Some(func_id), Some(body)) => {
                            self.extract_calls(body, func_id.as_str(), result);
                            proof {
                                lemma_extended_then(start, r1, *result, x1, edges_only(calls_in(ts_call_syntax(), *body, func_id@)));
                            }
                        },
                        _ => {
                            proof {
                                lemma_extended_nothing(*result);
                                lemma_extended_then(start, r1, *result, x1, nothing());
                            }
                        },
                    }
                },
                None => {},
            }
        } else if kind_is(node, "class_declaration") || kind_is(node, "class") {
            match self.extract_class(node, siblings, before, path) {
                Some(c) => {
                    add_contained(result, ParsedNode::Struct(c), path);
                },
                None => {},
            }
        } else if kind_is(node, "interface_declaration") {
            match self.extract_interface(node, siblings, before, path) {
                Some(t) => {
                    add_contained(result, ParsedNode::Trait(t), path);
                },
                None => {},
            }
        } else if kind_is(node, "enum_declaration") {
            match self.extract_enum(node, siblings, before, path) {
                Some(e) => {
                    add_contained(result, ParsedNode::Enum(e), path);
                },
                None => {},
            }
        }
        assert(extended_by(*result, start, own));
        let mut i: usize = 0;
        proof {
            lemma_extended_same(*result, start, own, then(own, ts_process_kids(*node, 0, path@)));
        }
        while i < node.children.len()
            invariant
                i <= node.children@.len(),
                tree_fits(*node),
                extended_by(*result, start, then(own, ts_process_kids(*node, i as int, path@))),
            decreases node.children.len() - i,
        {
            let ghost mid = *result;
            let ghost child_x = ts_process(node.children@[i as int], node.children@.take(i as int), path@);
            assert(tree_fits(node.children@[i as int]));
            self.process_node(&node.children[i], node.children.as_slice(), i, path, result);
            proof {
                lemma_extended_then(start, mid, *result, then(own, ts_process_kids(*node, i as int, path@)), child_x);
                lemma_extended_same(
                    *result,
                    start,
                    then(then(own, ts_process_kids(*node, i as int, path@)), child_x),
                    then(own, ts_process_kids(*node, i + 1, path@)),
                );
            }
            i = i + 1;
        }
    }

    /// The parse result of a syntax tree.
    pub fn extract_from_tree(&self, path: &str, tree: &SyntaxNode) -> (r: ParseResult)
        requires
            tree_fits(*tree),
        ensures
            result_is(r, path@, ts_process(*tree, Seq::empty(), path@)),
    {
        let mut result = ParseResult::new(path);
        let ghost fresh = result;
        let none: Vec<SyntaxNode> = Vec::new();
        assert(none@.take(0) =~= Seq::<SyntaxNode>::empty());
        self.process_node(tree, none.as_slice(), 0, path, &mut result);
        proof {
            lemma_fresh_extended(fresh, result, ts_process(*tree, Seq::empty(), path@));
        }
        result
    }

    /// Parses a TypeScript or JavaScript file into its entities and
    /// relations.
    pub fn parse_file(&self, path: &str, content: &str) -> (r: Result<ParseResult, String>)
        requires
        ensures
            match syntax_tree(ts_language(*self), content@) {
                Ok(t) => r matches Ok(res) && result_is(res, path@, ts_process(t, Seq::empty(), path@)),
                Err(e) => r matches Err(m) && m@ == e,
            },
    {
        let lang = if self.is_typescript {
            SyntaxLanguage::TypeScript
        } else {
            SyntaxLanguage::JavaScript
        };
        match parse_syntax(lang, content) {
            Ok(tree) => {
                proof {
                    lemma_tree_within_fits(tree, content@);
                }
                Ok(self.extract_from_tree(path, &tree))
            },
            Err(e) => Err(e),
        }
    }
}

/// Every entity a TypeScript or JavaScript syntax tree yields comes with its containment in
/// the file.
pub proof fn lemma_ts_entities_in_file(n: SyntaxNode, prev: Seq<SyntaxNode>, path: Seq<char>)
    ensures
        entities_in_file(ts_process(n, prev, path), path),
    decreases n, n.children@.len() + 1,
{
    lemma_ts_kids_in_file(n, n.children@.len() as int, path);
    lemma_in_file_parts(nothing(), nothing(), NodeView::Other, Seq::empty(), path);
    if n.kind@ == "function_declaration"@ || n.kind@ == "function"@ || n.kind@ == "arrow_function"@
        || n.kind@ == "method_definition"@ {
        match ts_function(n, prev, path) {
            Some(f) => {
                let rest = match (f.id, field_child(n, "body"@)) {
                    (Some(id), Some(b)) => edges_only(calls_in(ts_call_syntax(), b, id)),
                    _ => nothing(),
                };
                lemma_in_file_parts(contained(NodeView::Function(f), f.id, path), rest, NodeView::Function(f), rest.edges, path);
                lemma_in_file_parts(rest, rest, NodeView::Function(f), rest.edges, path);
            },
            None => {},
        }
    } else if n.kind@ == "class_declaration"@ || n.kind@ == "class"@ {
        match ts_class(n, prev, path) {
            Some(c) => lemma_in_file_parts(nothing(), nothing(), NodeView::Struct(c), Seq::empty(), path),
            None => {},
        }
    } else if n.kind@ == "interface_declaration"@ {
        match ts_interface(n, prev, path) {
            Some(t) => lemma_in_file_parts(nothing(), nothing(), NodeView::Trait(t), Seq::empty(), path),
            None => {},
        }
    } else if n.kind@ == "enum_declaration"@ {
        match ts_enum(n, prev, path) {
            Some(e) => lemma_in_file_parts(nothing(), nothing(), NodeView::Enum(e), Seq::empty(), path),
            None => {},
        }
    }
    lemma_in_file_parts(ts_own(n, prev, path), ts_process_kids(n, n.children@.len() as int, path), NodeView::Other, Seq::empty(), path);
}

/// Every entity the first `k` children of a node yield comes with its
/// containment in the file.
pub proof fn lemma_ts_kids_in_file(n: SyntaxNode, k: int, path: Seq<char>)
    ensures
        entities_in_file(ts_process_kids(n, k, path), path),
    decreases n, k,
{
    lemma_in_file_parts(nothing(), nothing(), NodeView::Other, Seq::empty(), path);
    if 0 < k <= n.children@.len() {
        lemma_ts_kids_in_file(n, k - 1, path);
        lemma_ts_entities_in_file(n.children@[k - 1], n.children@.take(k - 1), path);
        lemma_in_file_parts(
            ts_process_kids(n, k - 1, path),
            ts_process(n.children@[k - 1], n.children@.take(k - 1), path),
            NodeView::Other,
            Seq::empty(),
            path,
        );
    }
}

} // verus!
