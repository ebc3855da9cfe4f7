//! Rust parser (syn-based AST extraction).

use vstd::prelude::*;

use crate::knowledge::ontology::edges::behavioral::{CallType, CallsEdge};
use crate::knowledge::ontology::edges::type_system::ImplementsEdge;
use crate::knowledge::ontology::nodes::code::{ComplexityMetrics, Parameter, Visibility};
use crate::knowledge::parser::syntax::starts_upper;
use crate::knowledge::parser::traits::{str_views, Parser, ParserCapability};
use crate::knowledge::parser::walk::callee_id;
use crate::knowledge::parser::syntax::{first_is_uppercase, lemma_count_matches_le, token_count};
use crate::text::{
    chars_of, count_occurrences, join, join_chars, owned, str_eq, string_from_chars, trim, trim_chars,
    views,
};

verus! {

/// Rust parser (syn-based AST extraction).
#[derive(Debug, Clone, Copy, PartialEq, Eq, Structural)]
pub struct RustParser {
    /// Whether to extract call relationships (slower, requires body analysis).
    pub extract_calls: bool,
}

impl RustParser {
    /// Creates a parser that also extracts call relationships.
    pub fn new() -> (r: Self)
        ensures
            r.extract_calls,
    {
        RustParser { extract_calls: true }
    }

    /// Creates a parser without call extraction (faster).
    pub fn without_calls() -> (r: Self)
        ensures
            !r.extract_calls,
    {
        RustParser { extract_calls: false }
    }
}

impl Default for RustParser {
    fn default() -> (r: Self)
        ensures
            r.extract_calls,
    {
        RustParser::new()
    }
}

impl Parser for RustParser {
    open spec fn spec_extensions(&self) -> Seq<Seq<char>> {
        seq!["rs"@]
    }

    fn language_name(&self) -> (r: &'static str)
        ensures
            r@ == "Rust"@,
    {
        "Rust"
    }

    fn supported_extensions(&self) -> (r: Vec<&'static str>) {
        let r = vec!["rs"];
        assert(str_views(r@) =~= self.spec_extensions());
        r
    }

    fn capability(&self) -> (r: ParserCapability)
        ensures
            r == ParserCapability::Syntactic,
    {
        ParserCapability::Syntactic
    }
}

// ---------------------------------------------------------------------------
// What the Rust parser decides about what syn gives it
// ---------------------------------------------------------------------------

/// The identifier of an entity: its kind, file and name.
pub open spec fn rust_entity_id(kind: Seq<char>, file: Seq<char>, name: Seq<char>) -> Seq<char> {
    kind + ":"@ + file + ":"@ + name
}

/// Generates the identifier of an entity.
pub fn entity_id(kind: &str, file: &str, name: &str) -> (r: String)
    ensures
        r@ == rust_entity_id(kind@, file@, name@),
{
    let mut r = owned(kind);
    r.append(":");
    r.append(file);
    r.append(":");
    r.append(name);
    r
}

/// The name an impl is known by: "Trait_for_Type" for a trait impl, else
/// the type.
pub open spec fn impl_name(trait_name: Option<Seq<char>>, target: Seq<char>) -> Seq<char> {
    match trait_name {
        Some(t) => t + "_for_"@ + target,
        None => target,
    }
}

/// The identifier of an impl block.
pub fn impl_id(file: &str, trait_name: Option<&str>, target: &str) -> (r: String)
    ensures
        r@ == rust_entity_id("impl"@, file@, impl_name(
            match trait_name {
                Some(t) => Some(t@),
                None => None,
            },
            target@,
        )),
{
    let name = match trait_name {
        Some(t) => {
            let mut n = owned(t);
            n.append("_for_");
            n.append(target);
            n
        },
        None => owned(target),
    };
    entity_id("impl", file, name.as_str())
}

/// The qualified name of a method: "Type::name" inside an impl of a type.
pub fn qualified_method_name(parent: Option<&str>, name: &str) -> (r: String)
    ensures
        r@ == match parent {
            Some(p) => p@ + "::"@ + name@,
            None => name@,
        },
{
    match parent {
        Some(p) => {
            let mut q = owned(p);
            q.append("::");
            q.append(name);
            q
        },
        None => owned(name),
    }
}

/// The doc comment of some `#[doc = "..."]` values: each trimmed, joined
/// by newlines, none when there are none.
pub open spec fn rust_doc(values: Seq<Seq<char>>) -> Option<Seq<char>> {
    if values.len() == 0 {
        None
    } else {
        Some(join(values.map_values(|v: Seq<char>| trim(v)), seq!['\n']))
    }
}

/// Builds the doc comment of an item from its doc attribute values.
pub fn doc_comment_of_values(values: &Vec<String>) -> (r: Option<String>)
    ensures
        crate::knowledge::parser::views::ostr(r) == rust_doc(
            values@.map_values(|v: String| v@),
        ),
{
    let ghost vs = values@.map_values(|v: String| v@);
    if values.len() == 0 {
        return None;
    }
    let mut parts: Vec<Vec<char>> = Vec::new();
    let mut i: usize = 0;
    while i < values.len()
        invariant
            i <= values@.len(),
            vs == values@.map_values(|v: String| v@),
            views(parts@) == vs.take(i as int).map_values(|v: Seq<char>| trim(v)),
        decreases values.len() - i,
    {
        let cs = chars_of(values[i].as_str());
        let t = trim_chars(cs.as_slice());
        proof {
            crate::text::lemma_views_push(parts@, t);
        }
        parts.push(t);
        assert(vs.take(i + 1).map_values(|v: Seq<char>| trim(v)) =~= vs.take(i as int).map_values(
            |v: Seq<char>| trim(v),
        ).push(trim(vs[i as int])));
        i = i + 1;
    }
    assert(vs.take(i as int) =~= vs);
    let nl = vec!['\n'];
    assert(nl@ =~= seq!['\n']);
    let joined = join_chars(&parts, nl.as_slice());
    Some(string_from_chars(joined.as_slice()))
}

/// The name a derive path stands for: its identifier when it is a single
/// segment, else its last segment (empty for no segment).
pub open spec fn derive_name(segments: Seq<Seq<char>>) -> Seq<char> {
    if segments.len() == 0 {
        Seq::empty()
    } else {
        segments.last()
    }
}

/// The name a derive path stands for.
pub fn derive_name_of(segments: &Vec<String>) -> (r: String)
    ensures
        r@ == derive_name(segments@.map_values(|v: String| v@)),
{
    if segments.len() == 0 {
        String::new()
    } else {
        segments[segments.len() - 1].clone()
    }
}

/// An attribute as listed: "#[" and its path's segments joined by "::",
/// then "]".
pub open spec fn attribute_text(segments: Seq<Seq<char>>) -> Seq<char> {
    "#["@ + join(segments, "::"@) + "]"@
}

/// Lists an attribute by its path.
pub fn attribute_text_of(segments: &Vec<String>) -> (r: String)
    ensures
        r@ == attribute_text(segments@.map_values(|v: String| v@)),
{
    let mut parts: Vec<Vec<char>> = Vec::new();
    let mut i: usize = 0;
    while i < segments.len()
        invariant
            i <= segments@.len(),
            views(parts@) == segments@.take(i as int).map_values(|v: String| v@),
        decreases segments.len() - i,
    {
        let c = chars_of(segments[i].as_str());
        proof {
            crate::text::lemma_views_push(parts@, c);
        }
        parts.push(c);
        assert(segments@.take(i + 1).map_values(|v: String| v@) =~= segments@.take(i as int).map_values(
            |v: String| v@,
        ).push(segments@[i as int]@));
        i = i + 1;
    }
    assert(segments@.take(i as int) =~= segments@);
    let sep = chars_of("::");
    let joined = join_chars(&parts, sep.as_slice());
    let mut r = owned("#[");
    r.append(string_from_chars(joined.as_slice()).as_str());
    r.append("]");
    r
}

/// Whether an attribute is listed among an item's attributes: all but doc
/// comments and derives.
pub fn is_listed_attribute(segments: &Vec<String>) -> (r: bool)
    ensures
        r == !(segments@.len() == 1 && (segments@[0]@ == "doc"@ || segments@[0]@ == "derive"@)),
{
    !(segments.len() == 1 && (str_eq(segments[0].as_str(), "doc") || str_eq(segments[0].as_str(), "derive")))
}

/// The visibility a restricted `pub(path)` gives: the crate, the parent
/// module, or a given path.
pub open spec fn restricted_visibility(path: Seq<char>) -> Visibility {
    if path == "crate"@ {
        Visibility::PublicCrate
    } else if path == "super"@ {
        Visibility::PublicSuper
    } else {
        Visibility::PublicIn
    }
}

/// The visibility of `pub(path)`, given the path's segments.
pub fn restricted_visibility_of(segments: &Vec<String>) -> (v: Visibility)
    ensures
        v == restricted_visibility(join(segments@.map_values(|s: String| s@), "::"@)),
{
    let mut parts: Vec<Vec<char>> = Vec::new();
    let mut i: usize = 0;
    while i < segments.len()
        invariant
            i <= segments@.len(),
            views(parts@) == segments@.take(i as int).map_values(|v: String| v@),
        decreases segments.len() - i,
    {
        let c = chars_of(segments[i].as_str());
        proof {
            crate::text::lemma_views_push(parts@, c);
        }
        parts.push(c);
        assert(segments@.take(i + 1).map_values(|v: String| v@) =~= segments@.take(i as int).map_values(
            |v: String| v@,
        ).push(segments@[i as int]@));
        i = i + 1;
    }
    assert(segments@.take(i as int) =~= segments@);
    let sep = chars_of("::");
    let path = join_chars(&parts, sep.as_slice());
    if crate::text::eq_lit(path.as_slice(), "crate") {
        Visibility::PublicCrate
    } else if crate::text::eq_lit(path.as_slice(), "super") {
        Visibility::PublicSuper
    } else {
        Visibility::PublicIn
    }
}

/// A type parameter as listed: its name, then ": " and its bounds joined by
/// " + " when it has any.
pub open spec fn type_param_text(ident: Seq<char>, bounds: Seq<Seq<char>>) -> Seq<char> {
    if bounds.len() == 0 {
        ident
    } else {
        ident + ": "@ + join(bounds, " + "@)
    }
}

/// Lists a type parameter with its bounds.
pub fn type_param_text_of(ident: &str, bounds: &Vec<String>) -> (r: String)
    ensures
        r@ == type_param_text(ident@, bounds@.map_values(|v: String| v@)),
{
    let mut s = owned(ident);
    if bounds.len() > 0 {
        let mut parts: Vec<Vec<char>> = Vec::new();
        let mut i: usize = 0;
        while i < bounds.len()
            invariant
                i <= bounds@.len(),
                views(parts@) == bounds@.take(i as int).map_values(|v: String| v@),
            decreases bounds.len() - i,
        {
            let c = chars_of(bounds[i].as_str());
            proof {
                crate::text::lemma_views_push(parts@, c);
            }
            parts.push(c);
            assert(bounds@.take(i + 1).map_values(|v: String| v@) =~= bounds@.take(i as int).map_values(
                |v: String| v@,
            ).push(bounds@[i as int]@));
            i = i + 1;
        }
        assert(bounds@.take(i as int) =~= bounds@);
        let sep = chars_of(" + ");
        let joined = join_chars(&parts, sep.as_slice());
        s.append(": ");
        s.append(string_from_chars(joined.as_slice()).as_str());
    }
    s
}

/// Lists a const parameter: "const NAME: TYPE".
pub fn const_param_text(ident: &str, ty: &str) -> (r: String)
    ensures
        r@ == "const "@ + ident@ + ": "@ + ty@,
{
    let mut s = owned("const ");
    s.append(ident);
    s.append(": ");
    s.append(ty);
    s
}

/// The parameter a `self` receiver declares: named "self", typed `&mut
/// self`, `&self` or `self`.
pub fn receiver_parameter(reference: bool, mutable: bool) -> (p: Parameter)
    ensures
        p.name@ == "self"@,
        p.type_str@ == (if reference {
            if mutable {
                "&mut self"@
            } else {
                "&self"@
            }
        } else {
            "self"@
        }),
        p.is_mutable == mutable,
        p.is_reference == reference,
{
    let t = if reference {
        if mutable {
            "&mut self"
        } else {
            "&self"
        }
    } else {
        "self"
    };
    Parameter { name: owned("self"), type_str: owned(t), is_mutable: mutable, is_reference: reference }
}

/// The parameter a typed argument declares: the identifier of its pattern
/// ("_" for any other pattern), mutable when that identifier is.
pub fn typed_parameter(pattern: Option<(&str, bool)>, ty: &str, is_reference: bool) -> (p: Parameter)
    ensures
        p.name@ == match pattern {
            Some((n, _m)) => n@,
            None => "_"@,
        },
        p.type_str@ == ty@,
        p.is_mutable == (pattern matches Some((_n, m)) && m),
        p.is_reference == is_reference,
{
    match pattern {
        Some((n, m)) => Parameter { name: owned(n), type_str: owned(ty), is_mutable: m, is_reference },
        None => Parameter { name: owned("_"), type_str: owned(ty), is_mutable: false, is_reference },
    }
}

/// The call edge a call site gives, when it gives one: a call through a
/// path is a constructor call when the called name starts uppercase, else
/// a direct call; a method call is a method call; names of macros ("!" at
/// the end) give none. The edge records whether the call is conditional or
/// in a loop.
pub open spec fn rust_call(caller: Seq<char>, name: Seq<char>, method: bool, conditional: bool, in_loop: bool) -> Option<(Seq<char>, Seq<char>, CallType, bool, bool)> {
    if !method && name.len() > 0 && name.last() == '!' {
        None
    } else {
        Some((
            caller,
            callee_id(name),
            if method {
                CallType::Method
            } else if starts_upper(name) {
                CallType::Constructor
            } else {
                CallType::Direct
            },
            conditional,
            in_loop,
        ))
    }
}

/// The ids an impl of a trait relates: the implementing type's and the
/// trait's, each not resolved to a file.
pub open spec fn implements_ids(target: Seq<char>, trait_name: Seq<char>) -> (Seq<char>, Seq<char>) {
    ("struct:?:"@ + target, "trait:?:"@ + trait_name)
}

/// The ids an impl of a trait relates (see `implements_ids`).
pub fn implements_edge_ids(target: &str, trait_name: &str) -> (r: (String, String))
    ensures
        (r.0@, r.1@) == implements_ids(target@, trait_name@),
{
    let mut from = owned("struct:?:");
    from.append(target);
    let mut to = owned("trait:?:");
    to.append(trait_name);
    (from, to)
}

/// The implements edge of an impl of a trait in a file, at a line.
pub fn implements_edge(target: &str, trait_name: &str, file: &str, line: u32) -> (e: ImplementsEdge)
    ensures
        (e.from@, e.to@) == implements_ids(target@, trait_name@),
        e.impl_file matches Some(f) && f@ == file@,
        e.impl_line == Some(line),
        e.generics@.len() == 0,
        e.where_clause is None,
        !e.is_blanket,
{
    let (from, to) = implements_edge_ids(target, trait_name);
    let mut e = ImplementsEdge::new(from.as_str(), to.as_str());
    e.impl_file = Some(owned(file));
    e.impl_line = Some(line);
    e
}

/// The id a super trait is referred to by, not resolved to a file.
pub fn super_trait_id(name: &str) -> (r: String)
    ensures
        r@ == "trait:?:"@ + name@,
{
    let mut r = owned("trait:?:");
    r.append(name);
    r
}

/// The call edge of a call site.
pub fn call_edge(caller_id: &str, name: &str, method: bool, conditional: bool, in_loop: bool) -> (r: Option<CallsEdge>)
    ensures
        match rust_call(caller_id@, name@, method, conditional, in_loop) {
            Some((f, t, ct, c, l)) => r matches Some(e) && e.from@ == f && e.to@ == t && e.call_type == ct
                && e.is_conditional == c && e.is_in_loop == l && e.line is None && e.column is None
                && e.call_count is None,
            None => r is None,
        },
{
    let n = chars_of(name);
    if !method && n.len() > 0 && n[n.len() - 1] == '!' {
        return None;
    }
    let call_type = if method {
        CallType::Method
    } else if first_is_uppercase(name) {
        CallType::Constructor
    } else {
        CallType::Direct
    };
    let mut callee = owned("function:?:");
    callee.append(name);
    let mut edge = CallsEdge::new(caller_id, callee.as_str());
    edge.call_type = call_type;
    edge.is_conditional = conditional;
    edge.is_in_loop = in_loop;
    Some(edge)
}

/// The keywords and operators whose occurrences estimate the cyclomatic
/// complexity of Rust code.
pub open spec fn rust_branching() -> Seq<Seq<char>> {
    seq!["if"@, "else"@, "match"@, "for"@, "while"@, "loop"@, "?"@, "&&"@, "||"@]
}

/// The complexity estimate of the lines from `start_line` to `end_line`
/// (1-based, inclusive, clipped to the file): one more than the occurrences
/// of the branching keywords in them, and their number; none for an empty
/// range.
pub open spec fn rust_complexity(ls: Seq<Seq<char>>, start_line: u32, end_line: u32) -> Option<ComplexityMetrics> {
    let a: int = if start_line >= 1 { start_line - 1 } else { 0 };
    let b: int = if end_line <= ls.len() { end_line as int } else { ls.len() as int };
    if a >= b {
        None
    } else {
        Some(ComplexityMetrics {
            cyclomatic: (1 + token_count(join(ls.subrange(a, b), seq!['\n']), rust_branching())) as u32,
            loc: (b - a) as u32,
            cognitive: None,
        })
    }
}

/// The range of lines a complexity estimate covers, as 0-based bounds:
/// from `start_line` (1-based; 0 counts as 1) through `end_line`, clipped
/// to the file.
pub open spec fn complexity_range(n: nat, start_line: u32, end_line: u32) -> (int, int) {
    let a: int = if start_line >= 1 { start_line - 1 } else { 0 };
    let b: int = if end_line <= n { end_line as int } else { n as int };
    (a, b)
}

/// The lines of a range joined with newlines, or none for an empty range.
fn range_text(lines: &Vec<String>, start_line: u32, end_line: u32) -> (r: Option<Vec<char>>)
    ensures
        ({
            let (a, b) = complexity_range(lines@.len(), start_line, end_line);
            match r {
                Some(code) => a < b && code@ == join(
                    lines@.map_values(|l: String| l@).subrange(a, b),
                    seq!['\n'],
                ),
                None => a >= b,
            }
        }),
{
    let ghost ls = lines@.map_values(|l: String| l@);
    let start: usize = if start_line >= 1 { (start_line - 1) as usize } else { 0 };
    let end: usize = if (end_line as usize) <= lines.len() { end_line as usize } else { lines.len() };
    if start >= end {
        return None;
    }
    let mut parts: Vec<Vec<char>> = Vec::new();
    let mut i: usize = start;
    while i < end
        invariant
            start <= i <= end,
            end <= lines@.len(),
            ls == lines@.map_values(|l: String| l@),
            views(parts@) == ls.subrange(start as int, i as int),
        decreases end - i,
    {
        let c = chars_of(lines[i].as_str());
        proof {
            crate::text::lemma_views_push(parts@, c);
        }
        parts.push(c);
        assert(ls.subrange(start as int, i + 1) =~= ls.subrange(start as int, i as int).push(ls[i as int]));
        i = i + 1;
    }
    let nl = vec!['\n'];
    assert(nl@ =~= seq!['\n']);
    Some(join_chars(&parts, nl.as_slice()))
}

/// One more than the occurrences of the branching tokens in a text.
fn branching_total(code: &Vec<char>) -> (r: u128)
    ensures
        r == 1 + token_count(code@, rust_branching()),
{
    let branching = vec!["if", "else", "match", "for", "while", "loop", "?", "&&", "||"];
    assert(str_views(branching@) =~= rust_branching());
    let n = code.len();
    let mut total: u128 = 1;
    let mut k: usize = 0;
    while k < branching.len()
        invariant
            k <= branching@.len(),
            str_views(branching@) == rust_branching(),
            code@.len() == n,
            total == 1 + token_count(code@, rust_branching().take(k as int)),
            total <= 1 + k * 0x1_0000_0000_0000_0000,
        decreases branching.len() - k,
    {
        let kw = chars_of(branching[k]);
        proof {
            lemma_rust_branching_nonempty();
        }
        assert(kw@ == rust_branching()[k as int]);
        let c = count_occurrences(code.as_slice(), kw.as_slice());
        proof {
            lemma_count_matches_le(code@, kw@);
            assert(rust_branching().take(k + 1).drop_last() =~= rust_branching().take(k as int));
            assert(k < 9);
            assert(k * 0x1_0000_0000_0000_0000 + 0x1_0000_0000_0000_0000 <= 9 * 0x1_0000_0000_0000_0000) by (nonlinear_arith)
                requires
                    k < 9,
            ;
            assert((k + 1) * 0x1_0000_0000_0000_0000 == k * 0x1_0000_0000_0000_0000 + 0x1_0000_0000_0000_0000) by (nonlinear_arith);
        }
        total = total + c as u128;
        k = k + 1;
    }
    assert(rust_branching().take(k as int) =~= rust_branching());
    total
}

/// Estimates the complexity of the lines from `start_line` to `end_line`.
/// The 32-bit counts wrap around, as the original's counters do.
pub fn calculate_complexity(lines: &Vec<String>, start_line: u32, end_line: u32) -> (r: Option<ComplexityMetrics>)
    ensures
        r == rust_complexity(lines@.map_values(|l: String| l@), start_line, end_line),
{
    let start: usize = if start_line >= 1 { (start_line - 1) as usize } else { 0 };
    let end: usize = if (end_line as usize) <= lines.len() { end_line as usize } else { lines.len() };
    match range_text(lines, start_line, end_line) {
        None => None,
        Some(code) => {
            let total = branching_total(&code);
            let cyclomatic = #[verifier::truncate] (total as u32);
            let loc = #[verifier::truncate] ((end - start) as u32);
            Some(ComplexityMetrics { cyclomatic, loc, cognitive: None })
        },
    }
}

/// No Rust branching token is empty.
proof fn lemma_rust_branching_nonempty()
    ensures
        rust_branching().len() == 9,
        forall|i: int| 0 <= i < 9 ==> #[trigger] rust_branching()[i].len() > 0,
{
    reveal_strlit("if");
    reveal_strlit("else");
    reveal_strlit("match");
    reveal_strlit("for");
    reveal_strlit("while");
    reveal_strlit("loop");
    reveal_strlit("?");
    reveal_strlit("&&");
    reveal_strlit("||");
    assert(rust_branching()[0].len() > 0);
    assert(rust_branching()[1].len() > 0);
    assert(rust_branching()[2].len() > 0);
    assert(rust_branching()[3].len() > 0);
    assert(rust_branching()[4].len() > 0);
    assert(rust_branching()[5].len() > 0);
    assert(rust_branching()[6].len() > 0);
    assert(rust_branching()[7].len() > 0);
    assert(rust_branching()[8].len() > 0);
}

} // verus!
