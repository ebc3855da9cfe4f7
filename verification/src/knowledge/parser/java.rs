//! Java parser (tree-sitter).

use vstd::prelude::*;

use crate::knowledge::ontology::nodes::code::{
    EnumEntity, EnumVariant, FieldInfo, FunctionEntity, Parameter, StructEntity, TraitEntity,
    Visibility,
};
use crate::knowledge::parser::go::go_signature;
use crate::knowledge::parser::result::{ParseResult, ParsedNode};
use crate::knowledge::parser::syntax::{
    calculate_complexity, child_by_field, doc_comment_of, end_line_of, extract_doc_comment,
    field_child, field_index_from, first_line_of, kids_of_kinds, kind_is,
    lemma_field_child_fits, lemma_field_index_in_range, lemma_tree_within_fits, node_complexity,
    node_end_line, node_fits, node_line, parse_syntax, start_line_of, strip_prefix_rep,
    strip_suffix_rep, syntax_tree, text_of, texts, texts_of_kinds, tree_fits, trim_end_matches,
    trim_start_matches, SyntaxLanguage, SyntaxNode,
};
use crate::knowledge::parser::traits::{str_views, Parser, ParserCapability};
use crate::knowledge::parser::typescript::plain_variant;
use crate::knowledge::parser::views::{
    enum_view, extended_by, fields_view, function_view, lemma_extended_nothing,
    lemma_extended_same, lemma_extended_then, lemma_fresh_extended, nothing, ostr, params_view,
    result_is, struct_view, then, trait_view, variant_view, EnumView, Extraction, FunctionView,
    NodeView, StructView, TraitView,
};
use crate::knowledge::parser::walk::{
    add_calls, add_contained, calls_in, contained, edges_only, entities_in_file, lemma_in_file_parts,
    CallSyntax,
};
use crate::knowledge::records::string_views;
use crate::text::{
    chars_of, has_prefix, join, join_chars, lines, lines_of, owned, starts_with, str_eq,
    string_from_chars, trim, trim_chars, views,
};

verus! {

/// Java parser (tree-sitter).
#[derive(Debug, Clone, Copy, PartialEq, Eq, Structural)]
pub struct JavaParser {
    /// Reserved for parser options.
    pub options: u8,
}

impl JavaParser {
    /// Creates the parser.
    pub fn new() -> (r: Self)
        ensures
            r.options == 0,
    {
        JavaParser { options: 0 }
    }
}

impl JavaParser {
    /// The value `new` returns.
    pub open spec fn new_spec() -> Self {
        JavaParser { options: 0 }
    }
}

impl Default for JavaParser {
    fn default() -> (r: Self)
        ensures
            r.options == 0,
    {
        JavaParser::new()
    }
}

impl Parser for JavaParser {
    open spec fn spec_extensions(&self) -> Seq<Seq<char>> {
        seq!["java"@]
    }

    fn language_name(&self) -> (r: &'static str)
        ensures
            r@ == "Java"@,
    {
        "Java"
    }

    fn supported_extensions(&self) -> (r: Vec<&'static str>) {
        let r = vec!["java"];
        assert(str_views(r@) =~= self.spec_extensions());
        r
    }

    fn capability(&self) -> (r: ParserCapability)
        ensures
            r == ParserCapability::Syntactic,
    {
        ParserCapability::Syntactic
    }
}

// ---------------------------------------------------------------------------
// What the Java parser extracts
// ---------------------------------------------------------------------------

/// How Java spells calls: `x.m(..)` and `new T(..)`.
pub open spec fn java_call_syntax() -> CallSyntax {
    CallSyntax {
        call: None,
        member: "field_access",
        member_name: "field",
        invocation: Some("method_invocation"),
        creation: Some(("object_creation_expression", "type")),
    }
}

/// The texts of some modifier nodes, annotations left out.
pub open spec fn unannotated(ms: Seq<SyntaxNode>) -> Seq<Seq<char>>
    decreases ms.len(),
{
    if ms.len() == 0 {
        Seq::empty()
    } else {
        let prev = unannotated(ms.drop_last());
        if has_prefix(ms.last().text@, seq!['@']) {
            prev
        } else {
            prev.push(ms.last().text@)
        }
    }
}

/// The modifiers among some children: those of each "modifiers" child.
pub open spec fn modifiers_in(cs: Seq<SyntaxNode>) -> Seq<Seq<char>>
    decreases cs.len(),
{
    if cs.len() == 0 {
        Seq::empty()
    } else {
        let prev = modifiers_in(cs.drop_last());
        if cs.last().kind@ == "modifiers"@ {
            prev + unannotated(cs.last().children@)
        } else {
            prev
        }
    }
}

/// The modifiers of a declaration, annotations left out.
pub open spec fn java_modifiers(n: SyntaxNode) -> Seq<Seq<char>> {
    modifiers_in(n.children@)
}

/// The visibility modifiers give: public, private, protected, or package
/// private when none is given.
pub open spec fn java_visibility(mods: Seq<Seq<char>>) -> Visibility {
    if mods.contains("public"@) {
        Visibility::Public
    } else if mods.contains("private"@) {
        Visibility::Private
    } else if mods.contains("protected"@) {
        Visibility::PublicSuper
    } else {
        Visibility::PublicCrate
    }
}

/// The type parameters of a declaration.
pub open spec fn java_type_params(n: SyntaxNode) -> Seq<Seq<char>> {
    match field_child(n, "type_parameters"@) {
        Some(p) => texts(kids_of_kinds(p.children@, seq!["type_parameter"@])),
        None => Seq::empty(),
    }
}

/// The lines of a Javadoc body: each trimmed, without its leading '*',
/// trimmed again; empty ones left out.
pub open spec fn javadoc_lines(ls: Seq<Seq<char>>) -> Seq<Seq<char>>
    decreases ls.len(),
{
    if ls.len() == 0 {
        Seq::empty()
    } else {
        let prev = javadoc_lines(ls.drop_last());
        let c = trim(strip_prefix_rep(trim(ls.last()), "*"@));
        if c.len() > 0 {
            prev.push(c)
        } else {
            prev
        }
    }
}

/// A Javadoc comment's text: its lines between "/**" and "*/", cleaned,
/// joined by newlines.
pub open spec fn cleaned_javadoc(t: Seq<char>) -> Seq<char> {
    join(javadoc_lines(lines(strip_suffix_rep(strip_prefix_rep(t, "/**"@), "*/"@))), seq!['\n'])
}

/// The Javadoc among the comments just before a declaration: the nearest
/// block comment starting with "/**", looking back past line comments and
/// other block comments.
pub open spec fn javadoc_before(prev: Seq<SyntaxNode>) -> Option<Seq<char>>
    decreases prev.len(),
{
    if prev.len() == 0 {
        None
    } else {
        let s = prev.last();
        if s.kind@ == "block_comment"@ {
            if has_prefix(s.text@, "/**"@) {
                Some(cleaned_javadoc(s.text@))
            } else {
                javadoc_before(prev.drop_last())
            }
        } else if s.kind@ == "line_comment"@ {
            javadoc_before(prev.drop_last())
        } else {
            None
        }
    }
}

/// The documentation of a declaration: its Javadoc, else its preceding
/// comments.
pub open spec fn java_doc(prev: Seq<SyntaxNode>) -> Option<Seq<char>> {
    match javadoc_before(prev) {
        Some(d) => Some(d),
        None => doc_comment_of(prev),
    }
}

/// The parameter a formal or spread parameter declares: its name (empty if
/// none), its type ("Object" if none), mutable unless final.
pub open spec fn java_param(c: SyntaxNode) -> (Seq<char>, Seq<char>, bool, bool) {
    (
        match field_child(c, "name"@) {
            Some(x) => x.text@,
            None => Seq::empty(),
        },
        match field_child(c, "type"@) {
            Some(x) => x.text@,
            None => "Object"@,
        },
        !java_modifiers(c).contains("final"@),
        false,
    )
}

/// The parameters of a method.
pub open spec fn java_params(n: SyntaxNode) -> Seq<(Seq<char>, Seq<char>, bool, bool)> {
    match field_child(n, "parameters"@) {
        Some(p) => kids_of_kinds(p.children@, seq!["formal_parameter"@, "spread_parameter"@]).map_values(
            |c: SyntaxNode| java_param(c),
        ),
        None => Seq::empty(),
    }
}

/// The fields one field declaration declares: a field for each named
/// variable declarator, with the declaration's type, visibility and
/// modifiers.
pub open spec fn declared_fields(d: SyntaxNode, ds: Seq<SyntaxNode>) -> Seq<(Seq<char>, Seq<char>, Visibility, Seq<Seq<char>>, Option<Seq<char>>)>
    decreases ds.len(),
{
    if ds.len() == 0 {
        Seq::empty()
    } else {
        let prev = declared_fields(d, ds.drop_last());
        let v = ds.last();
        if v.kind@ == "variable_declarator"@ {
            match field_child(v, "name"@) {
                Some(nm) => prev.push((
                    nm.text@,
                    match field_child(d, "type"@) {
                        Some(t) => t.text@,
                        None => Seq::empty(),
                    },
                    java_visibility(java_modifiers(d)),
                    java_modifiers(d),
                    None,
                )),
                None => prev,
            }
        } else {
            prev
        }
    }
}

/// The fields of the field declarations among some class body children.
pub open spec fn body_fields(cs: Seq<SyntaxNode>) -> Seq<(Seq<char>, Seq<char>, Visibility, Seq<Seq<char>>, Option<Seq<char>>)>
    decreases cs.len(),
{
    if cs.len() == 0 {
        Seq::empty()
    } else {
        let prev = body_fields(cs.drop_last());
        if cs.last().kind@ == "field_declaration"@ {
            prev + declared_fields(cs.last(), cs.last().children@)
        } else {
            prev
        }
    }
}

/// The fields of a class.
pub open spec fn java_fields(n: SyntaxNode) -> Seq<(Seq<char>, Seq<char>, Visibility, Seq<Seq<char>>, Option<Seq<char>>)> {
    match field_child(n, "body"@) {
        Some(b) => body_fields(b.children@),
        None => Seq::empty(),
    }
}

/// The type identifiers and generic types among a node's children.
pub open spec fn type_names(n: SyntaxNode) -> Seq<Seq<char>> {
    texts(kids_of_kinds(n.children@, seq!["type_identifier"@, "generic_type"@]))
}

/// What a class extends and implements: its superclass, then its
/// interfaces.
pub open spec fn java_supertypes(n: SyntaxNode) -> Seq<Seq<char>> {
    (match field_child(n, "superclass"@) {
        Some(sc) => seq![sc.text@],
        None => Seq::empty(),
    }) + (match field_child(n, "interfaces"@) {
        Some(i) => type_names(i),
        None => Seq::empty(),
    })
}

/// The struct entity of a named class.
pub open spec fn java_class(n: SyntaxNode, prev: Seq<SyntaxNode>, path: Seq<char>) -> Option<StructView> {
    match field_child(n, "name"@) {
        Some(name_node) => {
            let name = name_node.text@;
            Some(StructView {
                id: Some("struct:"@ + path + ":"@ + name),
                name,
                qualified_name: name,
                file_path: path,
                start_line: start_line_of(n),
                end_line: end_line_of(n),
                visibility: java_visibility(java_modifiers(n)),
                generics: java_type_params(n),
                fields: java_fields(n),
                derives: java_supertypes(n),
                attributes: java_modifiers(n),
                doc_comment: java_doc(prev),
            })
        },
        None => None,
    }
}

/// The names of the method declarations among some children.
pub open spec fn method_names(cs: Seq<SyntaxNode>) -> Seq<Seq<char>>
    decreases cs.len(),
{
    if cs.len() == 0 {
        Seq::empty()
    } else {
        let prev = method_names(cs.drop_last());
        let c = cs.last();
        if c.kind@ == "method_declaration"@ {
            match field_child(c, "name"@) {
                Some(m) => prev.push(m.text@),
                None => prev,
            }
        } else {
            prev
        }
    }
}

/// The trait entity of a named interface.
pub open spec fn java_interface(n: SyntaxNode, prev: Seq<SyntaxNode>, path: Seq<char>) -> Option<TraitView> {
    match field_child(n, "name"@) {
        Some(name_node) => {
            let name = name_node.text@;
            Some(TraitView {
                id: Some("trait:"@ + path + ":"@ + name),
                name,
                qualified_name: name,
                file_path: path,
                start_line: start_line_of(n),
                end_line: end_line_of(n),
                visibility: java_visibility(java_modifiers(n)),
                generics: java_type_params(n),
                super_traits: match field_child(n, "extends_interfaces"@) {
                    Some(e) => type_names(e),
                    None => Seq::empty(),
                },
                required_methods: match field_child(n, "body"@) {
                    Some(b) => method_names(b.children@),
                    None => Seq::empty(),
                },
                provided_methods: Seq::empty(),
                associated_types: Seq::empty(),
                doc_comment: java_doc(prev),
            })
        },
        None => None,
    }
}

/// The names of the enum constants among some children.
pub open spec fn constant_names(cs: Seq<SyntaxNode>) -> Seq<Seq<char>>
    decreases cs.len(),
{
    if cs.len() == 0 {
        Seq::empty()
    } else {
        let prev = constant_names(cs.drop_last());
        let c = cs.last();
        if c.kind@ == "enum_constant"@ {
            match field_child(c, "name"@) {
                Some(m) => prev.push(m.text@),
                None => prev,
            }
        } else {
            prev
        }
    }
}

/// The enum entity of a named enum.
pub open spec fn java_enum(n: SyntaxNode, prev: Seq<SyntaxNode>, path: Seq<char>) -> Option<EnumView> {
    match field_child(n, "name"@) {
        Some(name_node) => {
            let name = name_node.text@;
            Some(EnumView {
                id: Some("enum:"@ + path + ":"@ + name),
                name,
                qualified_name: name,
                file_path: path,
                start_line: start_line_of(n),
                end_line: end_line_of(n),
                visibility: java_visibility(java_modifiers(n)),
                generics: Seq::empty(),
                variants: (match field_child(n, "body"@) {
                    Some(b) => constant_names(b.children@),
                    None => Seq::empty(),
                }).map_values(|v: Seq<char>| plain_variant(v)),
                derives: Seq::empty(),
                doc_comment: java_doc(prev),
            })
        },
        None => None,
    }
}

/// The function entity of a named method, in a class when one is given.
pub open spec fn java_method(n: SyntaxNode, prev: Seq<SyntaxNode>, path: Seq<char>, class: Option<Seq<char>>) -> Option<FunctionView> {
    match field_child(n, "name"@) {
        Some(name_node) => {
            let name = name_node.text@;
            let q = match class {
                Some(c) => c + "."@ + name,
                None => name,
            };
            Some(FunctionView {
                id: Some("function:"@ + path + ":"@ + q),
                name,
                qualified_name: q,
                file_path: path,
                start_line: start_line_of(n),
                end_line: end_line_of(n),
                signature: go_signature(n),
                parent: class,
                visibility: java_visibility(java_modifiers(n)),
                is_async: java_modifiers(n).contains("synchronized"@),
                is_unsafe: java_modifiers(n).contains("native"@),
                generics: java_type_params(n),
                parameters: java_params(n),
                return_type: match field_child(n, "type"@) {
                    Some(r) => Some(r.text@),
                    None => None,
                },
                doc_comment: java_doc(prev),
                complexity: Some(node_complexity(n)),
            })
        },
        None => None,
    }
}

/// What processing a node adds, in a class when one is given: a method
/// with its containment and the calls of its body; a class with its
/// containment, followed by its body's members in that class instead of
/// its children; an interface or enum with its containment; then the
/// children.
pub open spec fn java_process(n: SyntaxNode, prev: Seq<SyntaxNode>, path: Seq<char>, class: Option<Seq<char>>) -> Extraction
    decreases n, n.children@.len() + 1,
{
    let kids = java_process_kids(n, n.children@.len() as int, path, class);
    if n.kind@ == "method_declaration"@ {
        match java_method(n, prev, path, class) {
            Some(f) => then(
                then(
                    contained(NodeView::Function(f), f.id, path),
                    match (f.id, field_child(n, "body"@)) {
                        (Some(id), Some(b)) => edges_only(calls_in(java_call_syntax(), b, id)),
                        _ => nothing(),
                    },
                ),
                kids,
            ),
            None => kids,
        }
    } else if n.kind@ == "class_declaration"@ {
        match java_class(n, prev, path) {
            Some(c) => then(
                contained(NodeView::Struct(c), c.id, path),
                match field_index_from(n.children@, "body"@, 0) {
                    Some(i) => if 0 <= i < n.children@.len() {
                        java_process_kids(
                            n.children@[i],
                            n.children@[i].children@.len() as int,
                            path,
                            Some(c.name),
                        )
                    } else {
                        nothing()
                    },
                    None => nothing(),
                },
            ),
            None => kids,
        }
    } else if n.kind@ == "interface_declaration"@ {
        match java_interface(n, prev, path) {
            Some(t) => then(contained(NodeView::Trait(t), t.id, path), kids),
            None => kids,
        }
    } else if n.kind@ == "enum_declaration"@ {
        match java_enum(n, prev, path) {
            Some(e) => then(contained(NodeView::Enum(e), e.id, path), kids),
            None => kids,
        }
    } else {
        kids
    }
}

/// What processing the first `k` children of a node adds, in a class when
/// one is given.
pub open spec fn java_process_kids(n: SyntaxNode, k: int, path: Seq<char>, class: Option<Seq<char>>) -> Extraction
    decreases n, k,
{
    if k <= 0 || k > n.children@.len() {
        nothing()
    } else {
        then(
            java_process_kids(n, k - 1, path, class),
            java_process(n.children@[k - 1], n.children@.take(k - 1), path, class),
        )
    }
}

impl JavaParser {
    /// Whether some modifiers include one.
    fn has_modifier(&self, mods: &Vec<String>, m: &str) -> (r: bool)
        ensures
            r == string_views(mods@).contains(m@),
    {
        let mut i: usize = 0;
        while i < mods.len()
            invariant
                i <= mods@.len(),
                forall|j: int| 0 <= j < i ==> string_views(mods@)[j] != m@,
            decreases mods.len() - i,
        {
            if str_eq(mods[i].as_str(), m) {
                assert(string_views(mods@)[i as int] == m@);
                return true;
            }
            i = i + 1;
        }
        proof {
            if string_views(mods@).contains(m@) {
                let j = choose|j: int| 0 <= j < string_views(mods@).len() && string_views(mods@)[j] == m@;
                assert(string_views(mods@)[j] != m@);
            }
        }
        false
    }

    /// The modifiers of a declaration, annotations left out.
    fn extract_modifiers(&self, node: &SyntaxNode) -> (r: Vec<String>)
        ensures
            string_views(r@) == java_modifiers(*node),
    {
        let mut mods: Vec<String> = Vec::new();
        let cs = &node.children;
        let at = vec!['@'];
        assert(at@ =~= seq!['@']);
        let mut i: usize = 0;
        while i < cs.len()
            invariant
                i <= cs@.len(),
                at@ == seq!['@'],
                string_views(mods@) == modifiers_in(cs@.take(i as int)),
            decreases cs.len() - i,
        {
            let c = &cs[i];
            assert(cs@.take(i + 1).drop_last() =~= cs@.take(i as int));
            assert(cs@.take(i + 1).last() == *c);
            if kind_is(c, "modifiers") {
                let ghost base = string_views(mods@);
                let ms = &c.children;
                let mut k: usize = 0;
                while k < ms.len()
                    invariant
                        k <= ms@.len(),
                        at@ == seq!['@'],
                        string_views(mods@) == base + unannotated(ms@.take(k as int)),
                    decreases ms.len() - k,
                {
                    assert(ms@.take(k + 1).drop_last() =~= ms@.take(k as int));
                    assert(ms@.take(k + 1).last() == ms@[k as int]);
                    let t = chars_of(ms[k].text.as_str());
                    if !starts_with(t.as_slice(), at.as_slice()) {
                        let ghost before = mods@;
                        mods.push(text_of(&ms[k]));
                        assert(string_views(mods@) =~= string_views(before).push(ms@[k as int].text@));
                        assert(base + unannotated(ms@.take(k + 1)) =~= (base + unannotated(ms@.take(k as int))).push(ms@[k as int].text@));
                    }
                    k = k + 1;
                }
                assert(ms@.take(k as int) =~= ms@);
            }
            i = i + 1;
        }
        assert(cs@.take(i as int) =~= cs@);
        mods
    }

    /// The modifiers of a parameter or field declaration.
    fn extract_child_modifiers(&self, node: &SyntaxNode) -> (r: Vec<String>)
        ensures
            string_views(r@) == java_modifiers(*node),
    {
        self.extract_modifiers(node)
    }

    /// The visibility some modifiers give.
    fn modifiers_to_visibility(&self, mods: &Vec<String>) -> (v: Visibility)
        ensures
            v == java_visibility(string_views(mods@)),
    {
        if self.has_modifier(mods, "public") {
            Visibility::Public
        } else if self.has_modifier(mods, "private") {
            Visibility::Private
        } else if self.has_modifier(mods, "protected") {
            Visibility::PublicSuper
        } else {
            Visibility::PublicCrate
        }
    }

    /// The type parameters of a declaration.
    fn extract_type_parameters(&self, node: &SyntaxNode) -> (r: Vec<String>)
        ensures
            string_views(r@) == java_type_params(*node),
    {
        match child_by_field(node, "type_parameters") {
            Some(p) => {
                let kinds = vec!["type_parameter"];
                assert(str_views(kinds@) =~= seq!["type_parameter"@]);
                texts_of_kinds(p, &kinds)
            },
            None => {
                let r: Vec<String> = Vec::new();
                assert(string_views(r@) =~= Seq::<Seq<char>>::empty());
                r
            },
        }
    }

    /// The signature of a declaration: its first line without a trailing
    /// '{', trimmed.
    fn build_signature(&self, node: &SyntaxNode) -> (r: String)
        ensures
            r@ == go_signature(*node),
    {
        let l = first_line_of(node.text.as_str());
        let t = trim_end_matches(&l, "{");
        let tt = trim_chars(t.as_slice());
        string_from_chars(tt.as_slice())
    }

    /// A Javadoc comment's cleaned text.
    fn clean_javadoc(&self, text: &str) -> (r: String)
        ensures
            r@ == cleaned_javadoc(text@),
    {
        let t = chars_of(text);
        let a = trim_start_matches(&t, "/**");
        let b = trim_end_matches(&a, "*/");
        let ls = lines_of(b.as_slice());
        let mut parts: Vec<Vec<char>> = Vec::new();
        let mut i: usize = 0;
        while i < ls.len()
            invariant
                i <= ls@.len(),
                views(ls@) == lines(b@),
                views(parts@) == javadoc_lines(views(ls@).take(i as int)),
            decreases ls.len() - i,
        {
            assert(views(ls@).take(i + 1).drop_last() =~= views(ls@).take(i as int));
            assert(views(ls@).take(i + 1).last() == ls@[i as int]@);
            let x = trim_chars(ls[i].as_slice());
            let y = trim_start_matches(&x, "*");
            let z = trim_chars(y.as_slice());
            if z.len() > 0 {
                proof {
                    crate::text::lemma_views_push(parts@, z);
                }
                parts.push(z);
            }
            i = i + 1;
        }
        assert(views(ls@).take(i as int) =~= views(ls@));
        let nl = vec!['\n'];
        assert(nl@ =~= seq!['\n']);
        let joined = join_chars(&parts, nl.as_slice());
        string_from_chars(joined.as_slice())
    }

    /// The Javadoc among the comments just before a declaration.
    fn javadoc_before_of(&self, siblings: &[SyntaxNode], before: usize) -> (r: Option<String>)
        requires
            before <= siblings@.len(),
        ensures
            ostr(r) == javadoc_before(siblings@.take(before as int)),
    {
        let ghost prev = siblings@.take(before as int);
        let mut k = before;
        assert(prev.take(k as int) =~= prev);
        while k > 0
            invariant
                k <= before,
                before <= siblings@.len(),
                prev == siblings@.take(before as int),
                javadoc_before(prev) == javadoc_before(siblings@.take(k as int)),
            decreases k,
        {
            let s = &siblings[k - 1];
            assert(siblings@.take(k as int).drop_last() =~= siblings@.take(k - 1));
            assert(siblings@.take(k as int).last() == *s);
            if kind_is(s, "block_comment") {
                let t = chars_of(s.text.as_str());
                let open = chars_of("/**");
                if starts_with(t.as_slice(), open.as_slice()) {
                    return Some(self.clean_javadoc(s.text.as_str()));
                }
            } else if !kind_is(s, "line_comment") {
                return None;
            }
            k = k - 1;
        }
        None
    }

    /// The documentation of a declaration.
    fn extract_javadoc(&self, siblings: &[SyntaxNode], before: usize) -> (r: Option<String>)
        requires
            before <= siblings@.len(),
        ensures
            ostr(r) == java_doc(siblings@.take(before as int)),
    {
        match self.javadoc_before_of(siblings, before) {
            Some(d) => Some(d),
            None => extract_doc_comment(siblings, before),
        }
    }

    /// The parameters of a method.
    fn extract_parameters(&self, node: &SyntaxNode) -> (r: Vec<Parameter>)
        ensures
            params_view(r@) == java_params(*node),
    {
        let mut params: Vec<Parameter> = Vec::new();
        match child_by_field(node, "parameters") {
            Some(params_node) => {
                let kinds = vec!["formal_parameter", "spread_parameter"];
                assert(str_views(kinds@) =~= seq!["formal_parameter"@, "spread_parameter"@]);
                let found = crate::knowledge::parser::syntax::children_of_kinds(params_node, &kinds);
                let ghost fv = found@.map_values(|n: &SyntaxNode| *n);
                let mut k: usize = 0;
                while k < found.len()
                    invariant
                        k <= found@.len(),
                        fv == found@.map_values(|n: &SyntaxNode| *n),
                        params_view(params@) == fv.take(k as int).map_values(|c: SyntaxNode| java_param(c)),
                    decreases found.len() - k,
                {
                    let c = found[k];
                    let name = match child_by_field(c, "name") {
                        Some(x) => text_of(x),
                        None => String::new(),
                    };
                    let t = match child_by_field(c, "type") {
                        Some(x) => text_of(x),
                        None => owned("Object"),
                    };
                    let modifiers = self.extract_child_modifiers(c);
                    let is_final = self.has_modifier(&modifiers, "final");
                    let ghost before = params@;
                    params.push(Parameter { name, type_str: t, is_mutable: !is_final, is_reference: false });
                    assert(params_view(params@) =~= params_view(before).push(java_param(fv[k as int])));
                    assert(fv.take(k + 1).map_values(|c: SyntaxNode| java_param(c)) =~= fv.take(k as int).map_values(
                        |c: SyntaxNode| java_param(c),
                    ).push(java_param(fv[k as int])));
                    k = k + 1;
                }
                assert(fv.take(k as int) =~= fv);
            },
            None => {
                assert(params_view(params@) =~= Seq::<(Seq<char>, Seq<char>, bool, bool)>::empty());
            },
        }
        params
    }

    /// The fields of a class.
    fn extract_class_fields(&self, node: &SyntaxNode) -> (r: Vec<FieldInfo>)
        ensures
            fields_view(r@) == java_fields(*node),
    {
        let mut fields: Vec<FieldInfo> = Vec::new();
        let body = match child_by_field(node, "body") {
            Some(b) => b,
            None => {
                assert(fields_view(fields@) =~= Seq::<(Seq<char>, Seq<char>, Visibility, Seq<Seq<char>>, Option<Seq<char>>)>::empty());
                return fields;
            },
        };
        let cs = &body.children;
        let mut i: usize = 0;
        assert(fields_view(fields@) =~= body_fields(cs@.take(0)));
        while i < cs.len()
            invariant
                i <= cs@.len(),
                fields_view(fields@) == body_fields(cs@.take(i as int)),
            decreases cs.len() - i,
        {
            let child = &cs[i];
            assert(cs@.take(i + 1).drop_last() =~= cs@.take(i as int));
            assert(cs@.take(i + 1).last() == *child);
            if kind_is(child, "field_declaration") {
                let modifiers = self.extract_child_modifiers(child);
                let visibility = self.modifiers_to_visibility(&modifiers);
                let t = match child_by_field(child, "type") {
                    Some(x) => text_of(x),
                    None => String::new(),
                };
                let ghost base = fields_view(fields@);
                let ds = &child.children;
                let mut k: usize = 0;
                while k < ds.len()
                    invariant
                        k <= ds@.len(),
                        string_views(modifiers@) == java_modifiers(*child),
                        visibility == java_visibility(java_modifiers(*child)),
                        t@ == (match field_child(*child, "type"@) {
                            Some(x) => x.text@,
                            None => Seq::<char>::empty(),
                        }),
                        fields_view(fields@) == base + declared_fields(*child, ds@.take(k as int)),
                    decreases ds.len() - k,
                {
                    assert(ds@.take(k + 1).drop_last() =~= ds@.take(k as int));
                    assert(ds@.take(k + 1).last() == ds@[k as int]);
                    let decl = &ds[k];
                    if kind_is(decl, "variable_declarator") {
                        match child_by_field(decl, "name") {
                            Some(nm) => {
                                let ghost before = fields@;
                                fields.push(FieldInfo {
                                    name: text_of(nm),
                                    type_str: t.clone(),
                                    visibility,
                                    attributes: modifiers.clone(),
                                    doc_comment: None,
                                });
                                assert(fields_view(fields@) =~= fields_view(before).push(fields_view(fields@).last()));
                            },
                            None => {},
                        }
                    }
                    k = k + 1;
                }
                assert(ds@.take(k as int) =~= ds@);
            }
            i = i + 1;
        }
        assert(cs@.take(i as int) =~= cs@);
        fields
    }
}

impl JavaParser {
    /// The type identifiers and generic types among a node's children.
    fn type_names_of(&self, node: &SyntaxNode) -> (r: Vec<String>)
        ensures
            string_views(r@) == type_names(*node),
    {
        let kinds = vec!["type_identifier", "generic_type"];
        assert(str_views(kinds@) =~= seq!["type_identifier"@, "generic_type"@]);
        texts_of_kinds(node, &kinds)
    }

    /// The struct entity of a named class.
    fn extract_class(&self, node: &SyntaxNode, siblings: &[SyntaxNode], before: usize, path: &str) -> (r: Option<StructEntity>)
        requires
            node_fits(*node),
            before <= siblings@.len(),
        ensures
            match java_class(*node, siblings@.take(before as int), path@) {
                Some(v) => r matches Some(s) && struct_view(s) == v,
                None => r is None,
            },
    {
        let name_node = match child_by_field(node, "name") {
            Some(n) => n,
            None => return None,
        };
        let name = text_of(name_node);
        let fields = self.extract_class_fields(node);
        let modifiers = self.extract_modifiers(node);
        let mut derives: Vec<String> = Vec::new();
        match child_by_field(node, "superclass") {
            Some(sc) => {
                derives.push(text_of(sc));
                assert(string_views(derives@) =~= seq![sc.text@]);
            },
            None => {
                assert(string_views(derives@) =~= Seq::<Seq<char>>::empty());
            },
        }
        let ghost first = string_views(derives@);
        match child_by_field(node, "interfaces") {
            Some(interfaces) => {
                let more = self.type_names_of(interfaces);
                let mut k: usize = 0;
                while k < more.len()
                    invariant
                        k <= more@.len(),
                        string_views(derives@) == first + string_views(more@).take(k as int),
                    decreases more.len() - k,
                {
                    let ghost b = derives@;
                    derives.push(more[k].clone());
                    assert(string_views(derives@) =~= string_views(b).push(more@[k as int]@));
                    assert(string_views(more@).take(k + 1) =~= string_views(more@).take(k as int).push(more@[k as int]@));
                    k = k + 1;
                }
                assert(string_views(more@).take(k as int) =~= string_views(more@));
            },
            None => {
                assert(string_views(derives@) =~= first + Seq::<Seq<char>>::empty());
            },
        }
        assert(string_views(derives@) =~= java_supertypes(*node));
        let visibility = self.modifiers_to_visibility(&modifiers);
        let mut id = owned("struct:");
        id.append(path);
        id.append(":");
        id.append(name.as_str());
        Some(
            StructEntity {
                id: Some(id),
                name: name.clone(),
                qualified_name: name,
                file_path: owned(path),
                start_line: node_line(node),
                end_line: node_end_line(node),
                visibility,
                generics: self.extract_type_parameters(node),
                fields,
                derives,
                attributes: modifiers,
                doc_comment: self.extract_javadoc(siblings, before),
            },
        )
    }

    /// The trait entity of a named interface.
    fn extract_interface(&self, node: &SyntaxNode, siblings: &[SyntaxNode], before: usize, path: &str) -> (r: Option<TraitEntity>)
        requires
            node_fits(*node),
            before <= siblings@.len(),
        ensures
            match java_interface(*node, siblings@.take(before as int), path@) {
                Some(v) => r matches Some(t) && trait_view(t) == v,
                None => r is None,
            },
    {
        let name_node = match child_by_field(node, "name") {
            Some(n) => n,
            None => return None,
        };
        let name = text_of(name_node);
        let modifiers = self.extract_modifiers(node);
        let mut required_methods: Vec<String> = Vec::new();
        match child_by_field(node, "body") {
            Some(body) => {
                let cs = &body.children;
                let mut i: usize = 0;
                while i < cs.len()
                    invariant
                        i <= cs@.len(),
                        string_views(required_methods@) == method_names(cs@.take(i as int)),
                    decreases cs.len() - i,
                {
                    let c = &cs[i];
                    assert(cs@.take(i + 1).drop_last() =~= cs@.take(i as int));
                    assert(cs@.take(i + 1).last() == *c);
                    if kind_is(c, "method_declaration") {
                        match child_by_field(c, "name") {
                            Some(m) => {
                                let ghost b = required_methods@;
                                required_methods.push(text_of(m));
                                assert(string_views(required_methods@) =~= string_views(b).push(m.text@));
                            },
                            None => {},
                        }
                    }
                    i = i + 1;
                }
                assert(cs@.take(i as int) =~= cs@);
            },
            None => {
                assert(string_views(required_methods@) =~= Seq::<Seq<char>>::empty());
            },
        }
        let super_traits = match child_by_field(node, "extends_interfaces") {
            Some(e) => self.type_names_of(e),
            None => {
                let r: Vec<String> = Vec::new();
                assert(string_views(r@) =~= Seq::<Seq<char>>::empty());
                r
            },
        };
        let visibility = self.modifiers_to_visibility(&modifiers);
        let mut id = owned("trait:");
        id.append(path);
        id.append(":");
        id.append(name.as_str());
        let provided_methods: Vec<String> = Vec::new();
        let associated_types: Vec<String> = Vec::new();
        assert(string_views(provided_methods@) =~= Seq::<Seq<char>>::empty());
        assert(string_views(associated_types@) =~= Seq::<Seq<char>>::empty());
        Some(
            TraitEntity {
                id: Some(id),
                name: name.clone(),
                qualified_name: name,
                file_path: owned(path),
                start_line: node_line(node),
                end_line: node_end_line(node),
                visibility,
                generics: self.extract_type_parameters(node),
                super_traits,
                required_methods,
                provided_methods,
                associated_types,
                doc_comment: self.extract_javadoc(siblings, before),
            },
        )
    }

    /// The enum entity of a named enum.
    fn extract_enum(&self, node: &SyntaxNode, siblings: &[SyntaxNode], before: usize, path: &str) -> (r: Option<EnumEntity>)
        requires
            node_fits(*node),
            before <= siblings@.len(),
        ensures
            match java_enum(*node, siblings@.take(before as int), path@) {
                Some(v) => r matches Some(e) && enum_view(e) == v,
                None => r is None,
            },
    {
        let name_node = match child_by_field(node, "name") {
            Some(n) => n,
            None => return None,
        };
        let name = text_of(name_node);
        let modifiers = self.extract_modifiers(node);
        let mut variants: Vec<EnumVariant> = Vec::new();
        let ghost names = match field_child(*node, "body"@) {
            Some(b) => constant_names(b.children@),
            None => Seq::<Seq<char>>::empty(),
        };
        match child_by_field(node, "body") {
            Some(body) => {
                let cs = &body.children;
                let mut i: usize = 0;
                while i < cs.len()
                    invariant
                        i <= cs@.len(),
                        variants@.map_values(|v: EnumVariant| variant_view(v)) == constant_names(cs@.take(i as int)).map_values(
                            |v: Seq<char>| plain_variant(v),
                        ),
                    decreases cs.len() - i,
                {
                    let c = &cs[i];
                    assert(cs@.take(i + 1).drop_last() =~= cs@.take(i as int));
                    assert(cs@.take(i + 1).last() == *c);
                    if kind_is(c, "enum_constant") {
                        match child_by_field(c, "name") {
                            Some(m) => {
                                let ghost b = variants@;
                                let fields: Vec<FieldInfo> = Vec::new();
                                assert(fields_view(fields@) =~= Seq::<(Seq<char>, Seq<char>, Visibility, Seq<Seq<char>>, Option<Seq<char>>)>::empty());
                                variants.push(EnumVariant { name: text_of(m), fields, discriminant: None, doc_comment: None });
                                assert(variants@.map_values(|v: EnumVariant| variant_view(v)) =~= b.map_values(
                                    |v: EnumVariant| variant_view(v),
                                ).push(plain_variant(m.text@)));
                                assert(constant_names(cs@.take(i + 1)).map_values(|v: Seq<char>| plain_variant(v)) =~= constant_names(cs@.take(i as int)).map_values(
                                    |v: Seq<char>| plain_variant(v),
                                ).push(plain_variant(m.text@)));
                            },
                            None => {},
                        }
                    }
                    i = i + 1;
                }
                assert(cs@.take(i as int) =~= cs@);
            },
            None => {
                assert(variants@.map_values(|v: EnumVariant| variant_view(v)) =~= names.map_values(|v: Seq<char>| plain_variant(v)));
            },
        }
        let visibility = self.modifiers_to_visibility(&modifiers);
        let mut id = owned("enum:");
        id.append(path);
        id.append(":");
        id.append(name.as_str());
        let generics: Vec<String> = Vec::new();
        let derives: Vec<String> = Vec::new();
        assert(string_views(generics@) =~= Seq::<Seq<char>>::empty());
        assert(string_views(derives@) =~= Seq::<Seq<char>>::empty());
        Some(
            EnumEntity {
                id: Some(id),
                name: name.clone(),
                qualified_name: name,
                file_path: owned(path),
                start_line: node_line(node),
                end_line: node_end_line(node),
                visibility,
                generics,
                variants,
                derives,
                doc_comment: self.extract_javadoc(siblings, before),
            },
        )
    }

    /// The function entity of a named method, in a class when one is given.
    fn extract_method(&self, node: &SyntaxNode, siblings: &[SyntaxNode], before: usize, path: &str, class_name: Option<&str>) -> (r: Option<FunctionEntity>)
        requires
            node_fits(*node),
            before <= siblings@.len(),
        ensures
            match java_method(*node, siblings@.take(before as int), path@, match class_name {
                Some(c) => Some(c@),
                None => None,
            }) {
                Some(v) => r matches Some(f) && function_view(f) == v,
                None => r is None,
            },
    {
        let name_node = match child_by_field(node, "name") {
            Some(n) => n,
            None => return None,
        };
        let name = text_of(name_node);
        let params = self.extract_parameters(node);
        let return_type = match child_by_field(node, "type") {
            Some(r) => Some(text_of(r)),
            None => None,
        };
        let qualified_name = match class_name {
            Some(c) => {
                let mut q = owned(c);
                q.append(".");
                q.append(name.as_str());
                q
            },
            None => name.clone(),
        };
        let modifiers = self.extract_modifiers(node);
        let visibility = self.modifiers_to_visibility(&modifiers);
        let mut id = owned("function:");
        id.append(path);
        id.append(":");
        id.append(qualified_name.as_str());
        Some(
            FunctionEntity {
                id: Some(id),
                name,
                qualified_name,
                file_path: owned(path),
                start_line: node_line(node),
                end_line: node_end_line(node),
                signature: self.build_signature(node),
                parent: match class_name {
                    Some(c) => Some(owned(c)),
                    None => None,
                },
                visibility,
                is_async: self.has_modifier(&modifiers, "synchronized"),
                is_unsafe: self.has_modifier(&modifiers, "native"),
                generics: self.extract_type_parameters(node),
                parameters: params,
                return_type,
                doc_comment: self.extract_javadoc(siblings, before),
                complexity: calculate_complexity(node),
            },
        )
    }

    /// Adds the calls found in a method body to the result.
    fn extract_calls(&self, node: &SyntaxNode, caller_id: &str, result: &mut ParseResult)
        ensures
            extended_by(*final(result), *old(result), edges_only(calls_in(java_call_syntax(), *node, caller_id@))),
    {
        let g = CallSyntax {
            call: None,
            member: "field_access",
            member_name: "field",
            invocation: Some("method_invocation"),
            creation: Some(("object_creation_expression", "type")),
        };
        add_calls(&g, node, caller_id, result);
    }
}

/// The view of an optional class name.
pub open spec fn class_view(c: Option<&str>) -> Option<Seq<char>> {
    match c {
        Some(s) => Some(s@),
        None => None,
    }
}

impl JavaParser {
    /// Adds the members of a class body to the result, in that class.
    fn process_members(&self, body: &SyntaxNode, path: &str, result: &mut ParseResult, class_name: &str)
        requires
            tree_fits(*body),
        ensures
            extended_by(
                *final(result),
                *old(result),
                java_process_kids(*body, body.children@.len() as int, path@, Some(class_name@)),
            ),
        decreases body, 0nat,
    {
        let ghost start = *result;
        proof {
            lemma_extended_nothing(*result);
            lemma_extended_same(*result, start, nothing(), java_process_kids(*body, 0, path@, Some(class_name@)));
        }
        let mut i: usize = 0;
        while i < body.children.len()
            invariant
                i <= body.children@.len(),
                tree_fits(*body),
                extended_by(*result, start, java_process_kids(*body, i as int, path@, Some(class_name@))),
            decreases body.children.len() - i,
        {
            let ghost mid = *result;
            let ghost child_x = java_process(body.children@[i as int], body.children@.take(i as int), path@, Some(class_name@));
            assert(tree_fits(body.children@[i as int]));
            self.process_node(&body.children[i], body.children.as_slice(), i, path, result, Some(class_name));
            proof {
                lemma_extended_then(start, mid, *result, java_process_kids(*body, i as int, path@, Some(class_name@)), child_x);
                lemma_extended_same(
                    *result,
                    start,
                    then(java_process_kids(*body, i as int, path@, Some(class_name@)), child_x),
                    java_process_kids(*body, i + 1, path@, Some(class_name@)),
                );
            }
            i = i + 1;
        }
    }

    /// Adds what a node and its descendants contribute to the result, in a
    /// class when one is given; the node follows the first `before` of its
    /// siblings.
    fn process_node(
        &self,
        node: &SyntaxNode,
        siblings: &[SyntaxNode],
        before: usize,
        path: &str,
        result: &mut ParseResult,
        class_context: Option<&str>,
    )
        requires
            tree_fits(*node),
            before <= siblings@.len(),
        ensures
            extended_by(
                *final(result),
                *old(result),
                java_process(*node, siblings@.take(before as int), path@, class_view(class_context)),
            ),
        decreases node, 1nat,
    {
        let ghost start = *result;
        let ghost prev = siblings@.take(before as int);
        let ghost ctx = class_view(class_context);
        let ghost mut own = nothing();
        proof {
            lemma_extended_nothing(*result);
        }
        if kind_is(node, "method_declaration") {
            match self.extract_method(node, siblings, before, path, class_context) {
                Some(func) => {
                    let ghost fv = function_view(func);
                    let id = add_contained(result, ParsedNode::Function(func), path);
                    let ghost r1 = *result;
                    let ghost x1 = contained(NodeView::Function(fv), fv.id, path@);
                    match (&id, child_by_field(node, "body")) {
                        (Some(func_id), Some(body)) => {
                            self.extract_calls(body, func_id.as_str(), result);
                            proof {
                                lemma_extended_then(start, r1, *result, x1, edges_only(calls_in(java_call_syntax(), *body, func_id@)));
                                own = then(x1, edges_only(calls_in(java_call_syntax(), *body, func_id@)));
                            }
                        },
                        _ => {
                            proof {
                                lemma_extended_nothing(*result);
                                lemma_extended_then(start, r1, *result, x1, nothing());
                                own = then(x1, nothing());
                            }
                        },
                    }
                },
                None => {},
            }
        } else if kind_is(node, "class_declaration") {
            match self.extract_class(node, siblings, before, path) {
                Some(class) => {
                    let class_name = class.name.clone();
                    let ghost cv = struct_view(class);
                    add_contained(result, ParsedNode::Struct(class), path);
                    let ghost r1 = *result;
                    let ghost x1 = contained(NodeView::Struct(cv), cv.id, path@);
                    proof {
                        lemma_field_index_in_range(node.children@, "body"@, 0);
                        lemma_field_child_fits(*node, "body"@);
                    }
                    match child_by_field(node, "body") {
                        Some(body) => {
                            self.process_members(body, path, result, class_name.as_str());
                            proof {
                                let y = java_process_kids(*body, body.children@.len() as int, path@, Some(class_name@));
                                lemma_extended_then(start, r1, *result, x1, y);
                                lemma_extended_same(*result, start, then(x1, y), java_process(*node, prev, path@, ctx));
                            }
                        },
                        None => {
                            proof {
                                lemma_extended_nothing(*result);
                                lemma_extended_then(start, r1, *result, x1, nothing());
                                lemma_extended_same(*result, start, then(x1, nothing()), java_process(*node, prev, path@, ctx));
                            }
                        },
                    }
                    return;
                },
                None => {},
            }
        } else if kind_is(node, "interface_declaration") {
            match self.extract_interface(node, siblings, before, path) {
                Some(t) => {
                    let ghost tv = trait_view(t);
                    add_contained(result, ParsedNode::Trait(t), path);
                    proof {
                        own = contained(NodeView::Trait(tv), tv.id, path@);
                    }
                },
                None => {},
            }
        } else if kind_is(node, "enum_declaration") {
            match self.extract_enum(node, siblings, before, path) {
                Some(e) => {
                    let ghost ev = enum_view(e);
                    add_contained(result, ParsedNode::Enum(e), path);
                    proof {
                        own = contained(NodeView::Enum(ev), ev.id, path@);
                    }
                },
                None => {},
            }
        }
        assert(extended_by(*result, start, own));
        assert(java_process(*node, prev, path@, ctx) == then(own, java_process_kids(*node, node.children@.len() as int, path@, ctx))
            || java_process(*node, prev, path@, ctx) == java_process_kids(*node, node.children@.len() as int, path@, ctx));
        let mut i: usize = 0;
        proof {
            lemma_extended_same(*result, start, own, then(own, java_process_kids(*node, 0, path@, ctx)));
        }
        while i < node.children.len()
            invariant
                i <= node.children@.len(),
                tree_fits(*node),
                ctx == class_view(class_context),
                extended_by(*result, start, then(own, java_process_kids(*node, i as int, path@, ctx))),
            decreases node.children.len() - i,
        {
            let ghost mid = *result;
            let ghost child_x = java_process(node.children@[i as int], node.children@.take(i as int), path@, ctx);
            assert(tree_fits(node.children@[i as int]));
            self.process_node(&node.children[i], node.children.as_slice(), i, path, result, class_context);
            proof {
                lemma_extended_then(start, mid, *result, then(own, java_process_kids(*node, i as int, path@, ctx)), child_x);
                lemma_extended_same(
                    *result,
                    start,
                    then(then(own, java_process_kids(*node, i as int, path@, ctx)), child_x),
                    then(own, java_process_kids(*node, i + 1, path@, ctx)),
                );
            }
            i = i + 1;
        }
        proof {
            let k = java_process_kids(*node, node.children@.len() as int, path@, ctx);
            lemma_extended_same(*result, start, then(own, k), java_process(*node, prev, path@, ctx));
        }
    }

    /// The parse result of a Java syntax tree.
    pub fn extract_from_tree(&self, path: &str, tree: &SyntaxNode) -> (r: ParseResult)
        requires
            tree_fits(*tree),
        ensures
            result_is(r, path@, java_process(*tree, Seq::empty(), path@, None)),
    {
        let mut result = ParseResult::new(path);
        let ghost fresh = result;
        let none: Vec<SyntaxNode> = Vec::new();
        assert(none@.take(0) =~= Seq::<SyntaxNode>::empty());
        self.process_node(tree, none.as_slice(), 0, path, &mut result, None);
        proof {
            lemma_fresh_extended(fresh, result, java_process(*tree, Seq::empty(), path@, None));
        }
        result
    }

    /// Parses a Java file into its entities and relations.
    pub fn parse_file(&self, path: &str, content: &str) -> (r: Result<ParseResult, String>)
        requires
        ensures
            match syntax_tree(SyntaxLanguage::Java, content@) {
                Ok(t) => r matches Ok(res) && result_is(res, path@, java_process(t, Seq::empty(), path@, None)),
                Err(e) => r matches Err(m) && m@ == e,
            },
    {
        match parse_syntax(SyntaxLanguage::Java, content) {
            Ok(tree) => {
                proof {
                    lemma_tree_within_fits(tree, content@);
                }
                Ok(self.extract_from_tree(path, &tree))
            },
            Err(e) => Err(e),
        }
    }
}

/// Every entity a Java syntax tree yields comes with its containment in the
/// file.
pub proof fn lemma_java_entities_in_file(n: SyntaxNode, prev: Seq<SyntaxNode>, path: Seq<char>, class: Option<Seq<char>>)
    ensures
        entities_in_file(java_process(n, prev, path, class), path),
    decreases n, n.children@.len() + 1,
{
    let kids = java_process_kids(n, n.children@.len() as int, path, class);
    lemma_java_kids_in_file(n, n.children@.len() as int, path, class);
    lemma_in_file_parts(nothing(), nothing(), NodeView::Other, Seq::empty(), path);
    if n.kind@ == "method_declaration"@ {
        match java_method(n, prev, path, class) {
            Some(f) => {
                let c = contained(NodeView::Function(f), f.id, path);
                let rest = match (f.id, field_child(n, "body"@)) {
                    (Some(id), Some(b)) => edges_only(calls_in(java_call_syntax(), b, id)),
                    _ => nothing(),
                };
                lemma_in_file_parts(c, rest, NodeView::Function(f), rest.edges, path);
                lemma_in_file_parts(then(c, rest), kids, NodeView::Function(f), rest.edges, path);
            },
            None => {},
        }
    } else if n.kind@ == "class_declaration"@ {
        match java_class(n, prev, path) {
            Some(c) => {
                let members = match field_index_from(n.children@, "body"@, 0) {
                    Some(i) => if 0 <= i < n.children@.len() {
                        java_process_kids(
                            n.children@[i],
                            n.children@[i].children@.len() as int,
                            path,
                            Some(c.name),
                        )
                    } else {
                        nothing()
                    },
                    None => nothing(),
                };
                match field_index_from(n.children@, "body"@, 0) {
                    Some(i) => if 0 <= i < n.children@.len() {
                        lemma_java_kids_in_file(
                            n.children@[i],
                            n.children@[i].children@.len() as int,
                            path,
                            Some(c.name),
                        );
                    },
                    None => {},
                }
                lemma_in_file_parts(contained(NodeView::Struct(c), c.id, path), members, NodeView::Struct(c), Seq::empty(), path);
            },
            None => {},
        }
    } else if n.kind@ == "interface_declaration"@ {
        match java_interface(n, prev, path) {
            Some(t) => lemma_in_file_parts(contained(NodeView::Trait(t), t.id, path), kids, NodeView::Trait(t), Seq::empty(), path),
            None => {},
        }
    } else if n.kind@ == "enum_declaration"@ {
        match java_enum(n, prev, path) {
            Some(e) => lemma_in_file_parts(contained(NodeView::Enum(e), e.id, path), kids, NodeView::Enum(e), Seq::empty(), path),
            None => {},
        }
    }
}

/// Every entity the first `k` children of a node yield comes with its
/// containment in the file.
pub proof fn lemma_java_kids_in_file(n: SyntaxNode, k: int, path: Seq<char>, class: Option<Seq<char>>)
    ensures
        entities_in_file(java_process_kids(n, k, path, class), path),
    decreases n, k,
{
    lemma_in_file_parts(nothing(), nothing(), NodeView::Other, Seq::empty(), path);
    if 0 < k <= n.children@.len() {
        lemma_java_kids_in_file(n, k - 1, path, class);
        lemma_java_entities_in_file(n.children@[k - 1], n.children@.take(k - 1), path, class);
        lemma_in_file_parts(
            java_process_kids(n, k - 1, path, class),
            java_process(n.children@[k - 1], n.children@.take(k - 1), path, class),
            NodeView::Other,
            Seq::empty(),
            path,
        );
    }
}

} // verus!
