//! Concrete syntax trees as plain values, and the tree queries the language
//! parsers share: fields, kinds, lines, signatures, doc comments and
//! complexity.

use vstd::prelude::*;

use crate::knowledge::ontology::nodes::code::ComplexityMetrics;
use crate::text::{
    chars_of, count_matches, count_occurrences, first_line, lines_of, string_from_chars, str_eq,
    trim, trim_chars, views,
};

verus! {

broadcast use vstd::string::group_string_axioms;

/// A node of a concrete syntax tree: its kind, the field it fills in its
/// parent, the source text it spans, its first and last rows (0-based),
/// and its children in order.
#[derive(Debug)]
pub struct SyntaxNode {
    pub kind: String,
    pub field: Option<String>,
    pub text: String,
    pub start_row: usize,
    pub end_row: usize,
    pub children: Vec<SyntaxNode>,
}

/// The grammars source is parsed with.
#[derive(Debug, Clone, Copy, PartialEq, Eq, Structural)]
pub enum SyntaxLanguage {
    Go,
    Python,
    Java,
    TypeScript,
    JavaScript,
}

/// The syntax tree tree-sitter builds of a text with a grammar, or the
/// message of its failure.
pub uninterp spec fn syntax_tree(lang: SyntaxLanguage, content: Seq<char>) -> Result<SyntaxNode, Seq<char>>;

/// Whether every node of a tree spans rows within the text's lines and a
/// text no longer than the whole source.
pub open spec fn tree_within(n: SyntaxNode, content: Seq<char>) -> bool
    decreases n,
{
    &&& n.start_row <= n.end_row
    &&& n.end_row <= crate::text::count_char(content, '\n')
    &&& n.text@.len() <= content.len()
    &&& forall|i: int| 0 <= i < n.children@.len() ==> tree_within(#[trigger] n.children@[i], content)
}

/// Parses a text with a tree-sitter grammar (`Parser::set_language`,
/// `Parser::parse`) and converts the tree node by node: each node's kind,
/// field name in its parent, text (`&content[node.byte_range()]`), start and
/// end rows, and children. The result is named after the grammar and the
/// text; as tree-sitter defines rows, they count the text's newlines, and
/// each node's text is a slice of the source.
#[verifier::external_body]
pub(crate) fn parse_syntax(lang: SyntaxLanguage, content: &str) -> (r: Result<SyntaxNode, String>)
    ensures
        match r {
            Ok(t) => syntax_tree(lang, content@) == Ok::<SyntaxNode, Seq<char>>(t) && tree_within(t, content@),
            Err(e) => syntax_tree(lang, content@) == Err::<SyntaxNode, Seq<char>>(e@),
        },
{
    let language: tree_sitter::Language = match lang {
        SyntaxLanguage::Go => tree_sitter_go::LANGUAGE.into(),
        SyntaxLanguage::Python => tree_sitter_python::LANGUAGE.into(),
        SyntaxLanguage::Java => tree_sitter_java::LANGUAGE.into(),
        SyntaxLanguage::TypeScript => tree_sitter_typescript::LANGUAGE_TYPESCRIPT.into(),
        SyntaxLanguage::JavaScript => tree_sitter_javascript::LANGUAGE.into(),
    };
    let mut parser = tree_sitter::Parser::new();
    parser.set_language(&language).map_err(|e| format!("Failed to set language: {}", e))?;
    let tree = parser.parse(content, None).ok_or_else(|| "Failed to parse content".to_string())?;
    let mut cursor = tree.walk();
    let root = syntax_node_at(&mut cursor, content);
    Ok(root)
}

/// A tree-sitter cursor, carried through unread.
#[verifier::external_type_specification]
#[verifier::external_body]
pub struct ExTsCursor<'tree>(tree_sitter::TreeCursor<'tree>);

/// Converts the node under a cursor and its descendants, one for one,
/// walking the cursor down and back up.
#[verifier::external_body]
fn syntax_node_at(cursor: &mut tree_sitter::TreeCursor, content: &str) -> SyntaxNode {
    let node = cursor.node();
    let field = cursor.field_name().map(|f| f.to_string());
    let mut children = Vec::new();
    if cursor.goto_first_child() {
        loop {
            children.push(syntax_node_at(cursor, content));
            if !cursor.goto_next_sibling() { break; }
        }
        cursor.goto_parent();
    }
    let (kind, text) = (node.kind().to_string(), content[node.byte_range()].to_string());
    SyntaxNode { kind, field, text, start_row: node.start_position().row, end_row: node.end_position().row, children }
}

// ---------------------------------------------------------------------------
// Queries
// ---------------------------------------------------------------------------

/// The position of the first child filling a field.
pub open spec fn field_index_from(cs: Seq<SyntaxNode>, field: Seq<char>, k: int) -> Option<int>
    decreases cs.len() - k,
{
    if k < 0 || k >= cs.len() {
        None
    } else if cs[k].field matches Some(f) && f@ == field {
        Some(k)
    } else {
        field_index_from(cs, field, k + 1)
    }
}

/// The position found for a field is that of a child.
pub proof fn lemma_field_index_in_range(cs: Seq<SyntaxNode>, field: Seq<char>, k: int)
    ensures
        field_index_from(cs, field, k) matches Some(i) ==> 0 <= k <= i < cs.len(),
    decreases cs.len() - k,
{
    if k >= 0 && k < cs.len() {
        lemma_field_index_in_range(cs, field, k + 1);
    }
}

/// A field's child of a tree that fits fits too.
pub proof fn lemma_field_child_fits(n: SyntaxNode, field: Seq<char>)
    requires
        tree_fits(n),
    ensures
        field_child(n, field) matches Some(c) ==> tree_fits(c),
{
    lemma_field_index_in_range(n.children@, field, 0);
}

/// The first child of a node filling a field (`child_by_field_name`).
pub open spec fn field_child(n: SyntaxNode, field: Seq<char>) -> Option<SyntaxNode> {
    match field_index_from(n.children@, field, 0) {
        Some(i) => Some(n.children@[i]),
        None => None,
    }
}

/// Finds the first child of a node filling a field.
pub fn child_by_field<'a>(node: &'a SyntaxNode, field: &str) -> (r: Option<&'a SyntaxNode>)
    ensures
        match field_child(*node, field@) {
            Some(c) => r == Some(&c),
            None => r is None,
        },
{
    let mut i: usize = 0;
    while i < node.children.len()
        invariant
            i <= node.children@.len(),
            field_index_from(node.children@, field@, 0) == field_index_from(
                node.children@,
                field@,
                i as int,
            ),
        decreases node.children.len() - i,
    {
        match &node.children[i].field {
            Some(f) => {
                if str_eq(f.as_str(), field) {
                    return Some(&node.children[i]);
                }
            },
            None => {},
        }
        i = i + 1;
    }
    None
}

/// The children of a node of some kinds, in order.
pub open spec fn kids_of_kinds(cs: Seq<SyntaxNode>, kinds: Seq<Seq<char>>) -> Seq<SyntaxNode>
    decreases cs.len(),
{
    if cs.len() == 0 {
        Seq::empty()
    } else if kinds.contains(cs.last().kind@) {
        kids_of_kinds(cs.drop_last(), kinds).push(cs.last())
    } else {
        kids_of_kinds(cs.drop_last(), kinds)
    }
}

/// The first child of one of some kinds.
pub open spec fn first_kid_of_kinds(cs: Seq<SyntaxNode>, kinds: Seq<Seq<char>>) -> Option<SyntaxNode> {
    if kids_of_kinds(cs, kinds).len() > 0 {
        Some(kids_of_kinds(cs, kinds)[0])
    } else {
        None
    }
}

/// The texts of some nodes.
pub open spec fn texts(ns: Seq<SyntaxNode>) -> Seq<Seq<char>> {
    ns.map_values(|c: SyntaxNode| c.text@)
}

/// Whether a node's kind is one of some kinds.
pub fn kind_is_one_of(node: &SyntaxNode, kinds: &Vec<&'static str>) -> (r: bool)
    ensures
        r == crate::knowledge::parser::traits::str_views(kinds@).contains(node.kind@),
{
    let kc = chars_of(node.kind.as_str());
    crate::knowledge::indexer::extractor::is_one_of(kc.as_slice(), kinds)
}

/// Whether a node is of a kind.
pub fn kind_is(node: &SyntaxNode, kind: &str) -> (r: bool)
    ensures
        r == (node.kind@ == kind@),
{
    str_eq(node.kind.as_str(), kind)
}

/// The children of a node of some kinds (`children().filter(kind)`).
pub fn children_of_kinds<'a>(node: &'a SyntaxNode, kinds: &Vec<&'static str>) -> (r: Vec<&'a SyntaxNode>)
    ensures
        r@.map_values(|c: &SyntaxNode| *c) == kids_of_kinds(
            node.children@,
            crate::knowledge::parser::traits::str_views(kinds@),
        ),
{
    let ghost ks = crate::knowledge::parser::traits::str_views(kinds@);
    let mut r: Vec<&'a SyntaxNode> = Vec::new();
    let mut i: usize = 0;
    while i < node.children.len()
        invariant
            i <= node.children@.len(),
            ks == crate::knowledge::parser::traits::str_views(kinds@),
            r@.map_values(|c: &SyntaxNode| *c) == kids_of_kinds(node.children@.take(i as int), ks),
        decreases node.children.len() - i,
    {
        assert(node.children@.take(i + 1).drop_last() =~= node.children@.take(i as int));
        assert(node.children@.take(i + 1).last() == node.children@[i as int]);
        if kind_is_one_of(&node.children[i], kinds) {
            let ghost before = r@;
            r.push(&node.children[i]);
            assert(r@.map_values(|c: &SyntaxNode| *c) =~= before.map_values(|c: &SyntaxNode| *c).push(
                node.children@[i as int],
            ));
        }
        i = i + 1;
    }
    assert(node.children@.take(i as int) =~= node.children@);
    r
}

/// The texts of the children of a node of some kinds, in order.
pub fn texts_of_kinds(node: &SyntaxNode, kinds: &Vec<&'static str>) -> (r: Vec<String>)
    ensures
        crate::knowledge::records::string_views(r@) == texts(
            kids_of_kinds(node.children@, crate::knowledge::parser::traits::str_views(kinds@)),
        ),
{
    let found = children_of_kinds(node, kinds);
    let ghost fv = found@.map_values(|n: &SyntaxNode| *n);
    let mut r: Vec<String> = Vec::new();
    let mut k: usize = 0;
    while k < found.len()
        invariant
            k <= found@.len(),
            fv == found@.map_values(|n: &SyntaxNode| *n),
            crate::knowledge::records::string_views(r@) == texts(fv.take(k as int)),
        decreases found.len() - k,
    {
        let ghost before = r@;
        r.push(text_of(found[k]));
        assert(crate::knowledge::records::string_views(r@) =~= crate::knowledge::records::string_views(before).push(fv[k as int].text@));
        assert(texts(fv.take(k + 1)) =~= texts(fv.take(k as int)).push(fv[k as int].text@));
        k = k + 1;
    }
    assert(fv.take(k as int) =~= fv);
    r
}

/// The 1-based line a node starts on.
pub open spec fn start_line_of(n: SyntaxNode) -> u32 {
    (n.start_row + 1) as u32
}

/// The 1-based line a node ends on.
pub open spec fn end_line_of(n: SyntaxNode) -> u32 {
    (n.end_row + 1) as u32
}

/// Get line number (1-based) for a node.
pub fn node_line(node: &SyntaxNode) -> (r: u32)
    ensures
        r == start_line_of(*node),
{
    #[verifier::truncate] (((node.start_row as u128) + 1) as u32)
}

/// Get end line number (1-based) for a node.
pub fn node_end_line(node: &SyntaxNode) -> (r: u32)
    ensures
        r == end_line_of(*node),
{
    #[verifier::truncate] (((node.end_row as u128) + 1) as u32)
}

/// The keywords and operators whose occurrences estimate cyclomatic
/// complexity.
pub open spec fn branching_tokens() -> Seq<Seq<char>> {
    seq!["if"@, "else"@, "for"@, "while"@, "switch"@, "case"@, "catch"@, "?"@, "&&"@, "||"@]
}

/// The occurrences of some tokens in a text, summed.
pub open spec fn token_count(text: Seq<char>, ts: Seq<Seq<char>>) -> int
    decreases ts.len(),
{
    if ts.len() == 0 {
        0
    } else {
        token_count(text, ts.drop_last()) + count_matches(text, ts.last())
    }
}

/// The complexity estimate of a node: one more than the occurrences of the
/// branching tokens in its text, and the lines it spans.
pub open spec fn node_complexity(n: SyntaxNode) -> ComplexityMetrics {
    ComplexityMetrics {
        cyclomatic: (1 + token_count(n.text@, branching_tokens())) as u32,
        loc: (n.end_row - n.start_row + 1) as u32,
        cognitive: None,
    }
}

/// Calculate basic complexity from a node. The 32-bit counts wrap around,
/// as the original's counters do.
pub fn calculate_complexity(node: &SyntaxNode) -> (r: Option<ComplexityMetrics>)
    requires
        node.start_row <= node.end_row,
    ensures
        r == Some(node_complexity(*node)),
{
    let text = chars_of(node.text.as_str());
    let branching = vec!["if", "else", "for", "while", "switch", "case", "catch", "?", "&&", "||"];
    assert(crate::knowledge::parser::traits::str_views(branching@) =~= branching_tokens());
    let n = text.len();
    let mut total: u128 = 1;
    let mut k: usize = 0;
    while k < branching.len()
        invariant
            k <= branching@.len(),
            crate::knowledge::parser::traits::str_views(branching@) == branching_tokens(),
            text@ == node.text@,
            text@.len() == n,
            total == 1 + token_count(text@, branching_tokens().take(k as int)),
            total <= 1 + k * 0x1_0000_0000_0000_0000,
        decreases branching.len() - k,
    {
        let kw = chars_of(branching[k]);
        proof {
            lemma_branching_tokens_nonempty();
        }
        assert(kw@ == branching_tokens()[k as int]);
        let c = count_occurrences(text.as_slice(), kw.as_slice());
        proof {
            lemma_count_matches_le(text@, kw@);
            assert(branching_tokens().take(k + 1).drop_last() =~= branching_tokens().take(k as int));
            assert(k < 10);
            assert(k * 0x1_0000_0000_0000_0000 + 0x1_0000_0000_0000_0000 <= 10 * 0x1_0000_0000_0000_0000) by (nonlinear_arith)
                requires
                    k < 10,
            ;
            assert((k + 1) * 0x1_0000_0000_0000_0000 == k * 0x1_0000_0000_0000_0000 + 0x1_0000_0000_0000_0000) by (nonlinear_arith);
        }
        total = total + c as u128;
        k = k + 1;
    }
    assert(branching_tokens().take(k as int) =~= branching_tokens());
    let loc = #[verifier::truncate] (((node.end_row - node.start_row) as u128 + 1) as u32);
    let cyclomatic = #[verifier::truncate] (total as u32);
    Some(ComplexityMetrics { cyclomatic, loc, cognitive: None })
}

/// No branching token is empty.
proof fn lemma_branching_tokens_nonempty()
    ensures
        branching_tokens().len() == 10,
        forall|i: int| 0 <= i < 10 ==> #[trigger] branching_tokens()[i].len() > 0,
{
    reveal_strlit("if");
    reveal_strlit("else");
    reveal_strlit("for");
    reveal_strlit("while");
    reveal_strlit("switch");
    reveal_strlit("case");
    reveal_strlit("catch");
    reveal_strlit("?");
    reveal_strlit("&&");
    reveal_strlit("||");
    assert(branching_tokens()[0].len() > 0);
    assert(branching_tokens()[1].len() > 0);
    assert(branching_tokens()[2].len() > 0);
    assert(branching_tokens()[3].len() > 0);
    assert(branching_tokens()[4].len() > 0);
    assert(branching_tokens()[5].len() > 0);
    assert(branching_tokens()[6].len() > 0);
    assert(branching_tokens()[7].len() > 0);
    assert(branching_tokens()[8].len() > 0);
    assert(branching_tokens()[9].len() > 0);
}

/// A pattern occurs at most as often as the text is long.
pub proof fn lemma_count_matches_le(s: Seq<char>, p: Seq<char>)
    ensures
        count_matches(s, p) <= s.len(),
    decreases s.len(),
{
    if p.len() == 0 || s.len() < p.len() {
    } else if crate::text::has_prefix(s, p) {
        lemma_count_matches_le(s.skip(p.len() as int), p);
    } else {
        lemma_count_matches_le(s.drop_first(), p);
    }
}

// ---------------------------------------------------------------------------
// Text helpers
// ---------------------------------------------------------------------------

/// `s` without its repeated leading occurrences of `p` (`trim_start_matches`).
pub open spec fn strip_prefix_rep(s: Seq<char>, p: Seq<char>) -> Seq<char>
    decreases s.len(),
{
    if p.len() > 0 && crate::text::has_prefix(s, p) {
        strip_prefix_rep(s.skip(p.len() as int), p)
    } else {
        s
    }
}

/// `s` without its repeated trailing occurrences of `p` (`trim_end_matches`).
pub open spec fn strip_suffix_rep(s: Seq<char>, p: Seq<char>) -> Seq<char>
    decreases s.len(),
{
    if p.len() > 0 && crate::text::has_suffix(s, p) {
        strip_suffix_rep(s.take(s.len() - p.len()), p)
    } else {
        s
    }
}

/// Removes the repeated leading occurrences of `p` from `s`.
pub fn trim_start_matches(s: &Vec<char>, p: &str) -> (r: Vec<char>)
    ensures
        r@ == strip_prefix_rep(s@, p@),
{
    let pc = chars_of(p);
    let mut a: usize = 0;
    let n = s.len();
    assert(s@.skip(0) =~= s@);
    while pc.len() > 0 && a <= n && crate::text::matches_at(s.as_slice(), pc.as_slice(), a)
        invariant
            a <= n,
            n == s@.len(),
            pc@ == p@,
            strip_prefix_rep(s@, p@) == strip_prefix_rep(s@.skip(a as int), p@),
        decreases n - a,
    {
        assert(s@.skip(a as int).subrange(0, pc@.len() as int) =~= s@.subrange(a as int, a + pc@.len()));
        assert(s@.skip(a as int).skip(pc@.len() as int) =~= s@.skip(a + pc@.len()));
        a = a + pc.len();
    }
    proof {
        if pc@.len() > 0 && a <= n {
            assert(s@.skip(a as int).len() < pc@.len() || s@.skip(a as int).subrange(0, pc@.len() as int) != pc@) by {
                if s@.skip(a as int).len() >= pc@.len() {
                    assert(s@.skip(a as int).subrange(0, pc@.len() as int) =~= s@.subrange(a as int, a + pc@.len()));
                }
            }
        }
    }
    crate::text::copy_range(s.as_slice(), a, n)
}

/// Removes the repeated trailing occurrences of `p` from `s`.
pub fn trim_end_matches(s: &Vec<char>, p: &str) -> (r: Vec<char>)
    ensures
        r@ == strip_suffix_rep(s@, p@),
{
    let pc = chars_of(p);
    let mut e: usize = s.len();
    assert(s@.take(e as int) =~= s@);
    while pc.len() > 0 && pc.len() <= e && crate::text::matches_at(s.as_slice(), pc.as_slice(), e - pc.len())
        invariant
            e <= s@.len(),
            pc@ == p@,
            strip_suffix_rep(s@, p@) == strip_suffix_rep(s@.take(e as int), p@),
        decreases e,
    {
        assert(s@.take(e as int).subrange(e - pc@.len(), e as int) =~= s@.subrange(e - pc@.len(), e as int));
        assert(s@.take(e as int).take(e - pc@.len()) =~= s@.take(e - pc@.len()));
        e = e - pc.len();
    }
    proof {
        if pc@.len() > 0 && pc@.len() <= e {
            assert(s@.take(e as int).subrange(e - pc@.len(), e as int) =~= s@.subrange(e - pc@.len(), e as int));
        }
    }
    crate::text::copy_range(s.as_slice(), 0, e)
}

/// A comment's text without its markers, trimmed.
pub open spec fn cleaned_comment(t: Seq<char>) -> Seq<char> {
    trim(
        strip_prefix_rep(
            strip_prefix_rep(
                strip_suffix_rep(
                    strip_prefix_rep(strip_prefix_rep(strip_prefix_rep(t, "//"@), "///"@), "/*"@),
                    "*/"@,
                ),
                "*"@,
            ),
            "#"@,
        ),
    )
}

/// Cleans a comment's text of its markers.
pub fn clean_comment(t: &str) -> (r: Vec<char>)
    ensures
        r@ == cleaned_comment(t@),
{
    let cs = chars_of(t);
    let a = trim_start_matches(&cs, "//");
    let b = trim_start_matches(&a, "///");
    let c = trim_start_matches(&b, "/*");
    let d = trim_end_matches(&c, "*/");
    let e = trim_start_matches(&d, "*");
    let f = trim_start_matches(&e, "#");
    trim_chars(f.as_slice())
}

/// The comments that directly precede a node (its trailing run of
/// "comment" siblings), cleaned, in source order.
pub open spec fn preceding_comments(prev: Seq<SyntaxNode>) -> Seq<Seq<char>>
    decreases prev.len(),
{
    if prev.len() > 0 && prev.last().kind@ == "comment"@ {
        preceding_comments(prev.drop_last()).push(cleaned_comment(prev.last().text@))
    } else {
        Seq::empty()
    }
}

/// The doc comment of a node with the given earlier siblings: its
/// preceding comments joined by newlines, if there are any.
pub open spec fn doc_comment_of(prev: Seq<SyntaxNode>) -> Option<Seq<char>> {
    if preceding_comments(prev).len() == 0 {
        None
    } else {
        Some(crate::text::join(preceding_comments(prev), seq!['\n']))
    }
}

/// Extracts the doc comment of a node from its earlier siblings.
pub fn extract_doc_comment(siblings: &[SyntaxNode], before: usize) -> (r: Option<String>)
    requires
        before <= siblings@.len(),
    ensures
        crate::knowledge::parser::views::ostr(r) == doc_comment_of(siblings@.take(before as int)),
{
    let ghost prev = siblings@.take(before as int);
    let mut k = before;
    assert(prev.take(k as int) =~= prev);
    while k > 0 && kind_is(&siblings[k - 1], "comment")
        invariant
            k <= before,
            before <= siblings@.len(),
            prev == siblings@.take(before as int),
            preceding_comments(prev) == preceding_comments(prev.take(k as int)) + prev.subrange(
                k as int,
                prev.len() as int,
            ).map_values(|n: SyntaxNode| cleaned_comment(n.text@)),
            forall|j: int| k <= j < prev.len() ==> prev[j].kind@ == "comment"@,
        decreases k,
    {
        let ghost t = prev.take(k as int);
        assert(t.drop_last() =~= prev.take(k - 1));
        assert(t.last() == prev[k - 1]);
        assert(prev.subrange(k - 1, prev.len() as int).map_values(|n: SyntaxNode| cleaned_comment(n.text@)) =~= seq![cleaned_comment(prev[k - 1].text@)] + prev.subrange(
            k as int,
            prev.len() as int,
        ).map_values(|n: SyntaxNode| cleaned_comment(n.text@)));
        k = k - 1;
    }
    assert(preceding_comments(prev.take(k as int)) =~= Seq::<Seq<char>>::empty());
    let ghost cms = prev.subrange(k as int, prev.len() as int).map_values(|n: SyntaxNode| cleaned_comment(n.text@));
    assert(preceding_comments(prev) =~= cms);
    if k == before {
        return None;
    }
    let mut parts: Vec<Vec<char>> = Vec::new();
    let mut i = k;
    while i < before
        invariant
            k <= i <= before,
            before <= siblings@.len(),
            prev == siblings@.take(before as int),
            cms == prev.subrange(k as int, prev.len() as int).map_values(|n: SyntaxNode| cleaned_comment(n.text@)),
            views(parts@) == cms.take(i - k),
        decreases before - i,
    {
        let c = clean_comment(siblings[i].text.as_str());
        proof {
            crate::text::lemma_views_push(parts@, c);
        }
        parts.push(c);
        assert(cms.take(i + 1 - k) =~= cms.take(i - k).push(cms[i - k]));
        i = i + 1;
    }
    assert(cms.take(i - k) =~= cms);
    let nl = vec!['\n'];
    assert(nl@ =~= seq!['\n']);
    let joined = crate::text::join_chars(&parts, nl.as_slice());
    Some(string_from_chars(joined.as_slice()))
}

/// Whether a text starts with an uppercase character.
pub open spec fn starts_upper(t: Seq<char>) -> bool {
    t.len() > 0 && crate::text::char_is_uppercase(t[0])
}

/// Whether a text starts with an uppercase character.
pub fn first_is_uppercase(t: &str) -> (r: bool)
    ensures
        r == starts_upper(t@),
{
    if t.unicode_len() == 0 {
        false
    } else {
        crate::text::is_uppercase(t.get_char(0))
    }
}

/// Whether a node ends no earlier than it starts, as tree-sitter's nodes
/// do.
pub open spec fn node_fits(n: SyntaxNode) -> bool {
    n.start_row <= n.end_row
}

/// Whether every node of a tree fits.
pub open spec fn tree_fits(n: SyntaxNode) -> bool
    decreases n,
{
    &&& node_fits(n)
    &&& forall|i: int| 0 <= i < n.children@.len() ==> tree_fits(#[trigger] n.children@[i])
}

/// A tree within a text fits.
pub proof fn lemma_tree_within_fits(n: SyntaxNode, content: Seq<char>)
    requires
        tree_within(n, content),
    ensures
        tree_fits(n),
    decreases n,
{
    assert forall|i: int| 0 <= i < n.children@.len() implies tree_fits(#[trigger] n.children@[i]) by {
        lemma_tree_within_fits(n.children@[i], content);
    }
}

/// The text of a node's first line, as `text.lines().next()` gives it.
pub fn first_line_of(text: &str) -> (r: Vec<char>)
    ensures
        r@ == first_line(text@),
{
    let cs = chars_of(text);
    let ls = lines_of(cs.as_slice());
    if ls.len() > 0 {
        assert(views(ls@)[0] == ls@[0]@);
        let l = ls[0].clone();
        assert(l@ =~= ls@[0]@);
        l
    } else {
        Vec::new()
    }
}

/// A copy of a node's text.
pub fn text_of(n: &SyntaxNode) -> (r: String)
    ensures
        r@ == n.text@,
{
    n.text.clone()
}

} // verus!
