//! Finding structs, functions and calls in source text by pattern, and the
//! line arithmetic around them.

use vstd::prelude::*;
use vstd::string::StringSliceAdditionalSpecFns;

use crate::knowledge::models::{FunctionNode, StructNode};

use crate::text::{
    chars_of, char_is_alphanumeric, contains, contains_seq, count_char, count_char_in,
    has_suffix, is_alphanumeric, join, join_chars, lines, lines_of, string_from_chars, trim,
    trim_chars, trim_start, views,
};

verus! {

broadcast use vstd::string::group_string_axioms;

// ---------------------------------------------------------------------------
// Lines
// ---------------------------------------------------------------------------

/// The lines `start..=end` (1-based) of a text, joined by '\n'; lines past
/// the end are not there.
pub open spec fn line_range_text(content: Seq<char>, start: u32, end: u32) -> Seq<char> {
    let ls = lines(content);
    let a = if start == 0 {
        0
    } else {
        start - 1
    };
    let lo = if a < ls.len() {
        a as int
    } else {
        ls.len() as int
    };
    let hi = if end < ls.len() {
        end as int
    } else {
        ls.len() as int
    };
    join(ls.subrange(lo, hi), seq!['\n'])
}

/// Extract content for a specific line range.
pub fn extract_line_range(content: &str, start: u32, end: u32) -> (r: String)
    requires
        end >= if start == 0 {
            0
        } else {
            start - 1
        },
    ensures
        r@ == line_range_text(content@, start, end),
{
    let start_idx: usize = if start == 0 {
        0
    } else {
        (start - 1) as usize
    };
    let end_idx = end as usize;
    let cs = chars_of(content);
    let ls = lines_of(cs.as_slice());
    let n = ls.len();
    let lo = if start_idx < n {
        start_idx
    } else {
        n
    };
    let hi = if end_idx < n {
        end_idx
    } else {
        n
    };
    let mut picked: Vec<Vec<char>> = Vec::new();
    let mut i = lo;
    while i < hi
        invariant
            lo <= i <= hi <= ls@.len(),
            views(picked@) == views(ls@).subrange(lo as int, i as int),
        decreases hi - i,
    {
        let l = ls[i].clone();
        assert(l@ =~= ls@[i as int]@);
        proof {
            crate::text::lemma_views_push(picked@, l);
        }
        picked.push(l);
        i = i + 1;
        assert(views(picked@) =~= views(ls@).subrange(lo as int, i as int));
    }
    let sep = vec!['\n'];
    assert(sep@ =~= seq!['\n']);
    let joined = join_chars(&picked, sep.as_slice());
    string_from_chars(joined.as_slice())
}

/// The text of the first `offset` bytes of `s`.
pub open spec fn text_before(s: &str, offset: int) -> Seq<char> {
    vstd::utf8::decode_utf8(s.spec_bytes().subrange(0, offset))
}

/// The number (1-based) of the line a byte offset falls on.
pub open spec fn line_at(s: &str, offset: int) -> int {
    count_char(text_before(s, offset), '\n') as int + 1
}

/// Count newlines before a byte offset to get line number.
pub fn count_lines_before(content: &str, offset: usize) -> (n: usize)
    requires
        content.spec_bytes().len() < usize::MAX,
        offset <= content.spec_bytes().len(),
        vstd::utf8::is_char_boundary(content.spec_bytes(), offset as int),
    ensures
        n == line_at(content, offset as int),
{
    let (head, _) = content.split_at(offset);
    proof {
        vstd::utf8::encode_utf8_decode_utf8(head@);
        crate::text::lemma_encode_len(head@);
    }
    let cs = chars_of(head);
    proof {
        crate::text::lemma_count_char_le(cs@, '\n');
        assert(head.spec_bytes().len() == offset);
    }
    count_char_in(cs.as_slice(), '\n') + 1
}

// ---------------------------------------------------------------------------
// Block ends
// ---------------------------------------------------------------------------

/// The byte width of a line's indentation.
pub open spec fn indent_of(l: Seq<char>) -> int {
    vstd::utf8::encode_utf8(l).len() - vstd::utf8::encode_utf8(trim_start(l)).len()
}

/// Opening minus closing braces of a line.
pub open spec fn brace_delta(l: Seq<char>) -> int {
    count_char(l, '{') - count_char(l, '}')
}

/// The scan for a block's end from line `i`, with the brace balance,
/// whether the block has opened, and whether a '{' has been seen so far: the
/// block opens at a '{' or a line ending in ':'. Once open, past its first
/// line, it ends before a non-blank line indented no deeper than its first
/// line while the braces balance (indentation decides a block opened by
/// ':'), and, once a '{' has been seen, after a line where the braces
/// balance. Without an end it spans 50 lines (or to the end of the text).
pub open spec fn block_end_scan(
    ls: Seq<Seq<char>>,
    start: int,
    base: int,
    i: int,
    brace: int,
    found: bool,
    braced: bool,
) -> int
    decreases ls.len() - i,
{
    if i < 0 || i >= ls.len() {
        if start + 50 < ls.len() {
            start + 50
        } else {
            ls.len() as int
        }
    } else {
        let l = ls[i];
        let b = brace + brace_delta(l);
        let f = found || l.contains('{') || has_suffix(trim(l), seq![':']);
        let bs = braced || l.contains('{');
        if f && i > start && trim(l).len() > 0 && indent_of(l) <= base && b <= 0 {
            i
        } else if f && i > start && bs && b <= 0 {
            i + 1
        } else {
            block_end_scan(ls, start, base, i + 1, b, f, bs)
        }
    }
}

/// The end line of the block starting at line index `start`.
pub open spec fn block_end(ls: Seq<Seq<char>>, start: int) -> int {
    if start >= ls.len() {
        start + 1
    } else {
        block_end_scan(ls, start, indent_of(ls[start]), start, 0, false, false)
    }
}

/// The byte width of a line's indentation, computed.
fn indent_width(line: &str) -> (w: usize)
    requires
        line.spec_bytes().len() < 0x8000_0000,
    ensures
        w == indent_of(line@),
{
    let cs = chars_of(line);
    let n = crate::text::leading_ws(cs.as_slice());
    let len = cs.len();
    let rest = line.substring_char(n, len);
    proof {
        assert(line@ =~= line@.take(n as int) + rest@);
        crate::text::lemma_encode_concat(line@.take(n as int), rest@);
    }
    line.len() - rest.len()
}

/// Find the end of a code block using brace counting and indentation.
pub fn find_block_end(lines: &[&str], start_idx: usize) -> (e: usize)
    requires
        lines@.len() < 0x8000_0000,
        start_idx < usize::MAX,
        forall|k: int| 0 <= k < lines@.len() ==> (#[trigger] lines@[k]).spec_bytes().len()
            < 0x8000_0000,
    ensures
        e == block_end(crate::knowledge::parser::traits::str_views(lines@), start_idx as int),
{
    let ghost ls = crate::knowledge::parser::traits::str_views(lines@);
    if start_idx >= lines.len() {
        return start_idx + 1;
    }
    let base = indent_width(lines[start_idx]);
    let mut brace: i64 = 0;
    let mut found = false;
    let mut braced = false;
    let mut i = start_idx;
    while i < lines.len()
        invariant
            start_idx <= i <= lines@.len(),
            lines@.len() < 0x8000_0000,
            forall|k: int| 0 <= k < lines@.len() ==> (#[trigger] lines@[k]).spec_bytes().len()
                < 0x8000_0000,
            ls == crate::knowledge::parser::traits::str_views(lines@),
            base == indent_of(ls[start_idx as int]),
            -(i - start_idx) * 0x8000_0000 <= brace <= (i - start_idx) * 0x8000_0000,
            block_end(ls, start_idx as int) == block_end_scan(
                ls,
                start_idx as int,
                base as int,
                i as int,
                brace as int,
                found,
                braced,
            ),
        decreases lines.len() - i,
    {
        let line = lines[i];
        let cs = chars_of(line);
        proof {
            crate::text::lemma_encode_len(line@);
        }
        let opens = count_char_in(cs.as_slice(), '{');
        let closes = count_char_in(cs.as_slice(), '}');
        proof {
            crate::text::lemma_count_char_le(cs@, '{');
            crate::text::lemma_count_char_le(cs@, '}');
        }
        brace = brace + opens as i64 - closes as i64;
        let t = trim_chars(cs.as_slice());
        let colon = vec![':'];
        assert(colon@ =~= seq![':']);
        let ends_colon = crate::text::ends_with(t.as_slice(), colon.as_slice());
        if opens > 0 {
            assert(cs@.contains('{')) by {
                crate::text::lemma_count_char_pos(cs@, '{');
            }
        } else {
            proof {
                crate::text::lemma_count_char_zero(cs@, '{');
            }
        }
        found = found || opens > 0 || ends_colon;
        braced = braced || opens > 0;
        if found && i > start_idx {
            let ind = indent_width(line);
            if t.len() > 0 && ind <= base && brace <= 0 {
                return i;
            }
            if braced && brace <= 0 {
                return i + 1;
            }
        }
        i = i + 1;
    }
    if start_idx + 50 < lines.len() {
        start_idx + 50
    } else {
        lines.len()
    }
}

// ---------------------------------------------------------------------------
// Pattern matches
// ---------------------------------------------------------------------------

/// One match of a pattern: the byte offset where it starts, and its groups
/// (group 0 is the whole match).
#[derive(Debug, Clone)]
pub struct RegexMatch {
    pub start: usize,
    pub groups: Vec<Option<String>>,
}

/// The groups of a match as plain values.
pub open spec fn groups_view(gs: Seq<Option<String>>) -> Seq<Option<Seq<char>>> {
    gs.map_values(|g: Option<String>| match g {
        Some(s) => Some(s@),
        None => None,
    })
}

/// A match as plain values.
pub open spec fn match_view(m: RegexMatch) -> (int, Seq<Option<Seq<char>>>) {
    (m.start as int, groups_view(m.groups@))
}

/// Matches as plain values.
pub open spec fn matches_view(ms: Seq<RegexMatch>) -> Seq<(int, Seq<Option<Seq<char>>>)> {
    ms.map_values(|m: RegexMatch| match_view(m))
}

/// The successive non-overlapping matches of a pattern in a text
/// (`Regex::captures_iter`), or `None` when the pattern does not compile.
pub uninterp spec fn regex_matches(pattern: Seq<char>, text: Seq<char>) -> Option<
    Seq<(int, Seq<Option<Seq<char>>>)>,
>;

/// `Regex::new(pattern)` and `captures_iter(text)`, each match converted to
/// its start and groups: the result is named after the pattern and the
/// text. As regex documents, every match has its group 0, and its start is
/// a character boundary of the text.
#[verifier::external_body]
fn captures_all(pattern: &str, text: &str) -> (r: Option<Vec<RegexMatch>>)
    ensures
        match r {
            Some(v) => regex_matches(pattern@, text@) == Some(matches_view(v@)) && forall|i: int|
                0 <= i < v@.len() ==> (#[trigger] v@[i]).groups@.len() >= 1 && v@[i].groups@[0] is Some
                    && v@[i].start <= text.spec_bytes().len() && vstd::utf8::is_char_boundary(
                    text.spec_bytes(),
                    v@[i].start as int,
                ),
            None => regex_matches(pattern@, text@) is None,
        },
{
    let re = regex::Regex::new(pattern).ok()?;
    Some(
        re.captures_iter(text).map(
            |c| RegexMatch {
                start: c.get(0).map_or(0, |m| m.start()),
                groups: c.iter().map(|g| g.map(|m| m.as_str().to_string())).collect(),
            },
        ).collect(),
    )
}

/// Whether a (trimmed) group is word-like: non-empty, alphanumerics and
/// '_' only.
pub open spec fn ident_like(t: Seq<char>) -> bool {
    t.len() > 0 && forall|i: int| 0 <= i < t.len() ==> char_is_alphanumeric(t[i]) || t[i] == '_'
}

/// Whether a group names something: word-like once trimmed, and (when
/// `skip_keywords`) not one of the keywords.
pub open spec fn names_something(g: Seq<char>, keywords: Seq<Seq<char>>, skip_keywords: bool) -> bool {
    ident_like(trim(g)) && !(skip_keywords && keywords.contains(trim(g)))
}

/// The last group of a match that names something, as matched (empty when
/// there is none).
pub open spec fn last_identifier(
    gs: Seq<Option<Seq<char>>>,
    keywords: Seq<Seq<char>>,
    skip_keywords: bool,
) -> Seq<char>
    decreases gs.len(),
{
    if gs.len() == 0 {
        Seq::empty()
    } else if gs.last() is Some && names_something(gs.last()->0, keywords, skip_keywords) {
        gs.last()->0
    } else {
        last_identifier(gs.drop_last(), keywords, skip_keywords)
    }
}

/// Whether a text is one of some words.
pub fn is_one_of(t: &[char], words: &Vec<&'static str>) -> (r: bool)
    ensures
        r == crate::knowledge::parser::traits::str_views(words@).contains(t@),
{
    let mut i: usize = 0;
    while i < words.len()
        invariant
            i <= words@.len(),
            forall|j: int| 0 <= j < i ==> words@[j]@ != t@,
        decreases words.len() - i,
    {
        if crate::text::eq_lit(t, words[i]) {
            assert(crate::knowledge::parser::traits::str_views(words@)[i as int] == t@);
            return true;
        }
        i = i + 1;
    }
    proof {
        let v = crate::knowledge::parser::traits::str_views(words@);
        if v.contains(t@) {
            let w = choose|w: int| 0 <= w < v.len() && v[w] == t@;
            assert(words@[w]@ == t@);
        }
    }
    false
}

/// Whether a text is word-like.
fn is_ident_like(t: &[char]) -> (r: bool)
    ensures
        r == ident_like(t@),
{
    if t.len() == 0 {
        return false;
    }
    let mut i: usize = 0;
    while i < t.len()
        invariant
            i <= t@.len(),
            forall|j: int| 0 <= j < i ==> char_is_alphanumeric(t@[j]) || t@[j] == '_',
        decreases t.len() - i,
    {
        if !(is_alphanumeric(t[i]) || t[i] == '_') {
            return false;
        }
        i = i + 1;
    }
    true
}

/// Extract an identifier from a match's groups: the last group that is
/// word-like once trimmed and (when `skip_keywords`) not a keyword.
pub fn extract_identifier(groups: &Vec<Option<String>>, keywords: &Vec<&'static str>, skip_keywords: bool) -> (r: String)
    ensures
        r@ == last_identifier(
            groups_view(groups@),
            crate::knowledge::parser::traits::str_views(keywords@),
            skip_keywords,
        ),
{
    let ghost gv = groups_view(groups@);
    let ghost kv = crate::knowledge::parser::traits::str_views(keywords@);
    let mut i = groups.len();
    assert(gv.take(i as int) =~= gv);
    while i > 0
        invariant
            i <= groups@.len(),
            gv == groups_view(groups@),
            kv == crate::knowledge::parser::traits::str_views(keywords@),
            last_identifier(gv, kv, skip_keywords) == last_identifier(gv.take(i as int), kv, skip_keywords),
        decreases i,
    {
        let ghost t = gv.take(i as int);
        assert(t.drop_last() =~= gv.take(i - 1));
        assert(t.last() == gv[i - 1]);
        match &groups[i - 1] {
            Some(g) => {
                let cs = chars_of(g.as_str());
                let tc = trim_chars(cs.as_slice());
                if is_ident_like(tc.as_slice()) && !(skip_keywords && is_one_of(tc.as_slice(), keywords)) {
                    return g.clone();
                }
            },
            None => {},
        }
        i = i - 1;
    }
    String::new()
}

/// The visibility a match shows: "public" when it mentions "pub",
/// "export" or "public", else "private".
pub open spec fn match_visibility(full: Seq<char>) -> Seq<char> {
    if contains_seq(full, "pub"@) || contains_seq(full, "export"@) || contains_seq(full, "public"@) {
        "public"@
    } else {
        "private"@
    }
}

/// The whole matched text of a match (empty if it has no group 0).
pub open spec fn full_match(gs: Seq<Option<Seq<char>>>) -> Seq<char> {
    if gs.len() > 0 && gs[0] is Some {
        gs[0]->0
    } else {
        Seq::empty()
    }
}

/// The whole matched text of a match.
fn full_match_of(groups: &Vec<Option<String>>) -> (r: String)
    ensures
        r@ == full_match(groups_view(groups@)),
{
    if groups.len() > 0 {
        match &groups[0] {
            Some(g) => g.clone(),
            None => String::new(),
        }
    } else {
        String::new()
    }
}

/// Extract visibility from a match: "public" or "private".
pub fn extract_visibility(groups: &Vec<Option<String>>) -> (r: String)
    ensures
        r@ == match_visibility(full_match(groups_view(groups@))),
{
    let full = full_match_of(groups);
    let cs = chars_of(full.as_str());
    let a = chars_of("pub");
    let b = chars_of("export");
    let c = chars_of("public");
    if contains(cs.as_slice(), a.as_slice()) || contains(cs.as_slice(), b.as_slice()) || contains(
        cs.as_slice(),
        c.as_slice(),
    ) {
        crate::text::owned("public")
    } else {
        crate::text::owned("private")
    }
}

// ---------------------------------------------------------------------------
// Structs, functions and calls
// ---------------------------------------------------------------------------

/// A struct node as plain values: name, file, start line, end line,
/// visibility.
pub open spec fn struct_node_view(n: StructNode) -> (Seq<char>, Seq<char>, u32, u32, Seq<char>) {
    (n.name@, n.file_path@, n.start_line, n.end_line, n.visibility@)
}

/// The line index a match's block starts at.
pub open spec fn match_start_index(content: &str, start: int) -> int {
    let l = line_at(content, start);
    if l >= 1 {
        l - 1
    } else {
        0
    }
}

/// The struct nodes of some matches of a struct pattern: each match that
/// names something, from its line to its block's end.
pub open spec fn struct_views_from(
    ms: Seq<(int, Seq<Option<Seq<char>>>)>,
    content: &str,
    path: Seq<char>,
) -> Seq<(Seq<char>, Seq<char>, u32, u32, Seq<char>)>
    decreases ms.len(),
{
    if ms.len() == 0 {
        Seq::empty()
    } else {
        let prev = struct_views_from(ms.drop_last(), content, path);
        let m = ms.last();
        let name = last_identifier(m.1, crate::knowledge::indexer::patterns::struct_keywords_spec(), true);
        if name.len() == 0 {
            prev
        } else {
            prev.push(
                (
                    name,
                    path,
                    line_at(content, m.0) as u32,
                    block_end(lines(content@), match_start_index(content, m.0)) as u32,
                    match_visibility(full_match(m.1)),
                ),
            )
        }
    }
}

/// The struct nodes found by some patterns, pattern by pattern (a pattern
/// that does not compile finds nothing).
pub open spec fn structs_over(ps: Seq<Seq<char>>, content: &str, path: Seq<char>) -> Seq<
    (Seq<char>, Seq<char>, u32, u32, Seq<char>),
>
    decreases ps.len(),
{
    if ps.len() == 0 {
        Seq::empty()
    } else {
        structs_over(ps.drop_last(), content, path) + match regex_matches(ps.last(), content@) {
            Some(ms) => struct_views_from(ms, content, path),
            None => Seq::empty(),
        }
    }
}

/// Whether a source text is small enough for the line scans: under
/// 2^31 - 1 bytes. Block ends are found with an `i32` brace counter, which
/// overflows (a panic, or a wrong count) once a text holds 2^31 braces, and
/// chunking counts lines with a `u32`; a text under this size can reach
/// neither limit, whatever it holds.
pub open spec fn scannable(content: &str) -> bool {
    content.spec_bytes().len() < 0x7fff_ffff
}

/// Whether matches start at character boundaries of a text.
pub open spec fn matches_fit(ms: Seq<RegexMatch>, content: &str) -> bool {
    forall|i: int|
        0 <= i < ms.len() ==> (#[trigger] ms[i]).start <= content.spec_bytes().len()
            && vstd::utf8::is_char_boundary(content.spec_bytes(), ms[i].start as int)
}

/// Whether `ls` are the lines of `content`, of sizes the scans handle.
pub open spec fn lines_of_content(ls: Seq<&str>, content: &str) -> bool {
    &&& crate::knowledge::parser::traits::str_views(ls) == lines(content@)
    &&& ls.len() < 0x8000_0000
    &&& forall|k: int| 0 <= k < ls.len() ==> (#[trigger] ls[k]).spec_bytes().len() < 0x8000_0000
}

/// Where the block of a match starts and ends (its line, and the end of
/// its block).
fn match_lines(content: &str, start: usize, ls: &[&str]) -> (r: (usize, usize))
    requires
        scannable(content),
        start <= content.spec_bytes().len(),
        vstd::utf8::is_char_boundary(content.spec_bytes(), start as int),
        lines_of_content(ls@, content),
    ensures
        r.0 == line_at(content, start as int),
        r.1 == block_end(lines(content@), match_start_index(content, start as int)),
{
    let start_line = count_lines_before(content, start);
    let idx = if start_line >= 1 {
        start_line - 1
    } else {
        0
    };
    let end_line = find_block_end(ls, idx);
    (start_line, end_line)
}

/// The struct nodes of the matches of one struct pattern.
pub fn structs_from_matches(ms: &Vec<RegexMatch>, content: &str, file_path: &str, ls: &[&str]) -> (r: Vec<StructNode>)
    requires
        scannable(content),
        matches_fit(ms@, content),
        lines_of_content(ls@, content),
    ensures
        r@.map_values(|n: StructNode| struct_node_view(n)) == struct_views_from(matches_view(ms@), content, file_path@),
        forall|i: int| 0 <= i < r@.len() ==> (#[trigger] r@[i]).id is None && r@[i].doc_comment is None,
{
    let kw = crate::knowledge::indexer::patterns::struct_keywords();
    let mut out: Vec<StructNode> = Vec::new();
    let mut i: usize = 0;
    while i < ms.len()
        invariant
            i <= ms@.len(),
            scannable(content),
            matches_fit(ms@, content),
            lines_of_content(ls@, content),
            crate::knowledge::parser::traits::str_views(kw@) == crate::knowledge::indexer::patterns::struct_keywords_spec(),
            out@.map_values(|n: StructNode| struct_node_view(n)) == struct_views_from(matches_view(ms@).take(i as int), content, file_path@),
            forall|k: int| 0 <= k < out@.len() ==> (#[trigger] out@[k]).id is None && out@[k].doc_comment is None,
        decreases ms.len() - i,
    {
        let m = &ms[i];
        let ghost mv = matches_view(ms@);
        assert(mv.take(i + 1).drop_last() =~= mv.take(i as int));
        assert(mv.take(i + 1).last() == match_view(*m));
        let name = extract_identifier(&m.groups, &kw, true);
        if name.as_str().unicode_len() > 0 {
            let (start_line, end_line) = match_lines(content, m.start, ls);
            let visibility = extract_visibility(&m.groups);
            let ghost before = out@;
            out.push(
                StructNode {
                    id: None,
                    name,
                    file_path: crate::text::owned(file_path),
                    start_line: start_line as u32,
                    end_line: end_line as u32,
                    visibility,
                    doc_comment: None,
                },
            );
            assert(out@.map_values(|n: StructNode| struct_node_view(n)) =~= before.map_values(
                |n: StructNode| struct_node_view(n),
            ).push(struct_node_view(out@[before.len() as int])));
        }
        i = i + 1;
    }
    assert(matches_view(ms@).take(i as int) =~= matches_view(ms@));
    out
}

/// A function node as plain values: name, file, start line, end line,
/// visibility, whether async, signature.
pub open spec fn function_node_view(n: FunctionNode) -> (Seq<char>, Seq<char>, u32, u32, Seq<char>, bool, Seq<char>) {
    (n.name@, n.file_path@, n.start_line, n.end_line, n.visibility@, n.is_async, n.signature@)
}

/// The name a function match gives: by skipping keywords, or the last
/// identifier group.
pub open spec fn function_match_name(gs: Seq<Option<Seq<char>>>, skip_keywords: bool) -> Seq<char> {
    if skip_keywords {
        last_identifier(gs, crate::knowledge::indexer::patterns::function_keywords_spec(), true)
    } else {
        last_identifier(gs, Seq::empty(), false)
    }
}

/// The function nodes of some matches of a function pattern: each match
/// whose name is not empty and not a keyword that looks like a call.
pub open spec fn function_views_from(
    ms: Seq<(int, Seq<Option<Seq<char>>>)>,
    skip_keywords: bool,
    content: &str,
    path: Seq<char>,
) -> Seq<(Seq<char>, Seq<char>, u32, u32, Seq<char>, bool, Seq<char>)>
    decreases ms.len(),
{
    if ms.len() == 0 {
        Seq::empty()
    } else {
        let prev = function_views_from(ms.drop_last(), skip_keywords, content, path);
        let m = ms.last();
        let name = function_match_name(m.1, skip_keywords);
        if name.len() == 0 || crate::knowledge::indexer::patterns::non_function_keywords_spec().contains(name) {
            prev
        } else {
            let full = full_match(m.1);
            prev.push(
                (
                    name,
                    path,
                    line_at(content, m.0) as u32,
                    block_end(lines(content@), match_start_index(content, m.0)) as u32,
                    match_visibility(full),
                    contains_seq(full, "async"@),
                    trim(full),
                ),
            )
        }
    }
}

/// The function nodes found by some patterns, pattern by pattern.
pub open spec fn functions_over(ps: Seq<(Seq<char>, bool)>, content: &str, path: Seq<char>) -> Seq<
    (Seq<char>, Seq<char>, u32, u32, Seq<char>, bool, Seq<char>),
>
    decreases ps.len(),
{
    if ps.len() == 0 {
        Seq::empty()
    } else {
        functions_over(ps.drop_last(), content, path) + match regex_matches(ps.last().0, content@) {
            Some(ms) => function_views_from(ms, ps.last().1, content, path),
            None => Seq::empty(),
        }
    }
}

/// The function nodes of the matches of one function pattern.
pub fn functions_from_matches(
    ms: &Vec<RegexMatch>,
    skip_keywords: bool,
    content: &str,
    file_path: &str,
    ls: &[&str],
) -> (r: Vec<FunctionNode>)
    requires
        scannable(content),
        matches_fit(ms@, content),
        lines_of_content(ls@, content),
    ensures
        r@.map_values(|n: FunctionNode| function_node_view(n)) == function_views_from(
            matches_view(ms@),
            skip_keywords,
            content,
            file_path@,
        ),
        forall|i: int|
            0 <= i < r@.len() ==> (#[trigger] r@[i]).id is None && r@[i].doc_comment is None
                && r@[i].parent_struct is None,
{
    let kw = crate::knowledge::indexer::patterns::function_keywords();
    let none: Vec<&'static str> = Vec::new();
    assert(crate::knowledge::parser::traits::str_views(none@) =~= Seq::<Seq<char>>::empty());
    let non_fn = crate::knowledge::indexer::patterns::non_function_keywords();
    let mut out: Vec<FunctionNode> = Vec::new();
    let mut i: usize = 0;
    while i < ms.len()
        invariant
            i <= ms@.len(),
            scannable(content),
            matches_fit(ms@, content),
            lines_of_content(ls@, content),
            crate::knowledge::parser::traits::str_views(kw@)
                == crate::knowledge::indexer::patterns::function_keywords_spec(),
            crate::knowledge::parser::traits::str_views(none@) == Seq::<Seq<char>>::empty(),
            crate::knowledge::parser::traits::str_views(non_fn@)
                == crate::knowledge::indexer::patterns::non_function_keywords_spec(),
            out@.map_values(|n: FunctionNode| function_node_view(n)) == function_views_from(
                matches_view(ms@).take(i as int),
                skip_keywords,
                content,
                file_path@,
            ),
            forall|k: int|
                0 <= k < out@.len() ==> (#[trigger] out@[k]).id is None && out@[k].doc_comment is None
                    && out@[k].parent_struct is None,
        decreases ms.len() - i,
    {
        let m = &ms[i];
        let ghost mv = matches_view(ms@);
        assert(mv.take(i + 1).drop_last() =~= mv.take(i as int));
        assert(mv.take(i + 1).last() == match_view(*m));
        let name = if skip_keywords {
            extract_identifier(&m.groups, &kw, true)
        } else {
            extract_identifier(&m.groups, &none, false)
        };
        let nc = chars_of(name.as_str());
        if nc.len() > 0 && !is_one_of(nc.as_slice(), &non_fn) {
            let (start_line, end_line) = match_lines(content, m.start, ls);
            let visibility = extract_visibility(&m.groups);
            let full = full_match_of(&m.groups);
            let fc = chars_of(full.as_str());
            let asy = chars_of("async");
            let is_async = contains(fc.as_slice(), asy.as_slice());
            let sig = crate::text::trim_str(full.as_str());
            let ghost before = out@;
            out.push(
                FunctionNode {
                    id: None,
                    name,
                    file_path: crate::text::owned(file_path),
                    parent_struct: None,
                    start_line: start_line as u32,
                    end_line: end_line as u32,
                    visibility,
                    is_async,
                    signature: sig,
                    doc_comment: None,
                },
            );
            assert(out@.map_values(|n: FunctionNode| function_node_view(n)) =~= before.map_values(
                |n: FunctionNode| function_node_view(n),
            ).push(function_node_view(out@[before.len() as int])));
        }
        i = i + 1;
    }
    assert(matches_view(ms@).take(i as int) =~= matches_view(ms@));
    out
}

/// The names called in some matches of the call pattern: each first group
/// that is not a keyword.
pub open spec fn calls_from(ms: Seq<(int, Seq<Option<Seq<char>>>)>) -> Seq<Seq<char>>
    decreases ms.len(),
{
    if ms.len() == 0 {
        Seq::empty()
    } else {
        let prev = calls_from(ms.drop_last());
        let gs = ms.last().1;
        if gs.len() > 1 && gs[1] is Some && !crate::knowledge::indexer::patterns::call_keywords_spec().contains(gs[1]->0) {
            prev.push(gs[1]->0)
        } else {
            prev
        }
    }
}

/// The names called in a text: nothing when the call pattern does not
/// compile.
pub open spec fn calls_in(content: Seq<char>) -> Seq<Seq<char>> {
    match regex_matches(crate::knowledge::indexer::patterns::CALL_PATTERN@, content) {
        Some(ms) => calls_from(ms),
        None => Seq::empty(),
    }
}

/// The names called in the matches of the call pattern.
pub fn calls_from_matches(ms: &Vec<RegexMatch>) -> (r: Vec<String>)
    ensures
        crate::knowledge::records::string_views(r@) == calls_from(matches_view(ms@)),
{
    let kw = crate::knowledge::indexer::patterns::call_keywords();
    let mut out: Vec<String> = Vec::new();
    let mut i: usize = 0;
    while i < ms.len()
        invariant
            i <= ms@.len(),
            crate::knowledge::parser::traits::str_views(kw@)
                == crate::knowledge::indexer::patterns::call_keywords_spec(),
            crate::knowledge::records::string_views(out@) == calls_from(matches_view(ms@).take(i as int)),
        decreases ms.len() - i,
    {
        let m = &ms[i];
        let ghost mv = matches_view(ms@);
        assert(mv.take(i + 1).drop_last() =~= mv.take(i as int));
        assert(mv.take(i + 1).last() == match_view(*m));
        if m.groups.len() > 1 {
            match &m.groups[1] {
                Some(name) => {
                    let nc = chars_of(name.as_str());
                    if !is_one_of(nc.as_slice(), &kw) {
                        let ghost before = out@;
                        out.push(name.clone());
                        assert(crate::knowledge::records::string_views(out@) =~= crate::knowledge::records::string_views(before).push(name@));
                    }
                },
                None => {},
            }
        }
        i = i + 1;
    }
    assert(matches_view(ms@).take(i as int) =~= matches_view(ms@));
    out
}

/// Extract function calls from source code.
pub fn extract_calls(content: &str) -> (r: Vec<String>)
    ensures
        crate::knowledge::records::string_views(r@) == calls_in(content@),
{
    match captures_all(crate::knowledge::indexer::patterns::CALL_PATTERN, content) {
        Some(ms) => calls_from_matches(&ms),
        None => {
            let v: Vec<String> = Vec::new();
            assert(crate::knowledge::records::string_views(v@) =~= Seq::<Seq<char>>::empty());
            v
        },
    }
}

/// The lines of a scannable text as strings, with their sizes bounded.
fn content_lines(content: &str) -> (r: Vec<String>)
    requires
        scannable(content),
    ensures
        crate::knowledge::records::string_views(r@) == lines(content@),
        r@.len() < 0x8000_0000,
        forall|k: int| 0 <= k < r@.len() ==> (#[trigger] r@[k])@.len() <= content@.len()
            && vstd::utf8::encode_utf8(r@[k]@).len() < 0x8000_0000,
{
    let cs = chars_of(content);
    let ls = lines_of(cs.as_slice());
    proof {
        crate::text::lemma_lines_pieces(content@);
        crate::text::lemma_encode_len(content@);
    }
    let mut out: Vec<String> = Vec::new();
    let mut i: usize = 0;
    while i < ls.len()
        invariant
            i <= ls@.len(),
            views(ls@) == lines(content@),
            lines(content@).len() <= content@.len() + 1,
            content@.len() <= content.spec_bytes().len(),
            scannable(content),
            forall|j: int|
                0 <= j < lines(content@).len() ==> exists|a: int, b: int|
                    0 <= a <= b <= content@.len() && #[trigger] lines(content@)[j] == content@.subrange(a, b),
            crate::knowledge::records::string_views(out@) == views(ls@).take(i as int),
            forall|k: int| 0 <= k < out@.len() ==> (#[trigger] out@[k])@.len() <= content@.len()
                && vstd::utf8::encode_utf8(out@[k]@).len() < 0x8000_0000,
        decreases ls.len() - i,
    {
        let l = string_from_chars(ls[i].as_slice());
        proof {
            let j = i as int;
            assert(views(ls@)[j] == ls@[j]@);
            let (a, b) = choose|a: int, b: int| 0 <= a <= b <= content@.len() && lines(content@)[j] == content@.subrange(a, b);
            crate::text::lemma_encode_subrange(content@, a, b);
        }
        let ghost before = out@;
        out.push(l);
        assert(crate::knowledge::records::string_views(out@) =~= crate::knowledge::records::string_views(before).push(l@));
        assert(views(ls@).take(i + 1) =~= views(ls@).take(i as int).push(views(ls@)[i as int]));
        i = i + 1;
    }
    assert(views(ls@).take(i as int) =~= views(ls@));
    out
}

/// The text slices of some strings.
fn as_strs(v: &Vec<String>) -> (r: Vec<&str>)
    ensures
        crate::knowledge::parser::traits::str_views(r@) == crate::knowledge::records::string_views(v@),
        r@.len() == v@.len(),
        forall|k: int| 0 <= k < r@.len() ==> (#[trigger] r@[k])@ == v@[k]@,
{
    let mut r: Vec<&str> = Vec::new();
    let mut i: usize = 0;
    while i < v.len()
        invariant
            i <= v@.len(),
            r@.len() == i,
            forall|k: int| 0 <= k < i ==> (#[trigger] r@[k])@ == v@[k]@,
        decreases v.len() - i,
    {
        r.push(v[i].as_str());
        i = i + 1;
    }
    assert(crate::knowledge::parser::traits::str_views(r@) =~= crate::knowledge::records::string_views(v@));
    r
}

/// Extract struct/class definitions from source code.
pub fn extract_structs(content: &str, file_path: &str) -> (r: Vec<StructNode>)
    requires
        scannable(content),
    ensures
        r@.map_values(|n: StructNode| struct_node_view(n)) == structs_over(
            crate::knowledge::indexer::patterns::struct_patterns_spec(),
            content,
            file_path@,
        ),
        forall|i: int| 0 <= i < r@.len() ==> (#[trigger] r@[i]).id is None && r@[i].doc_comment is None,
{
    let owned_lines = content_lines(content);
    let ls = as_strs(&owned_lines);
    let patterns = crate::knowledge::indexer::patterns::struct_patterns();
    let ghost ps = crate::knowledge::parser::traits::str_views(patterns@);
    let mut out: Vec<StructNode> = Vec::new();
    let mut p: usize = 0;
    while p < patterns.len()
        invariant
            p <= patterns@.len(),
            ps == crate::knowledge::parser::traits::str_views(patterns@),
            ps == crate::knowledge::indexer::patterns::struct_patterns_spec(),
            scannable(content),
            lines_of_content(ls@, content),
            forall|k: int| 0 <= k < out@.len() ==> (#[trigger] out@[k]).id is None && out@[k].doc_comment is None,
            out@.map_values(|n: StructNode| struct_node_view(n)) == structs_over(ps.take(p as int), content, file_path@),
        decreases patterns.len() - p,
    {
        assert(ps.take(p + 1).drop_last() =~= ps.take(p as int));
        assert(ps.take(p + 1).last() == patterns@[p as int]@);
        let ghost before = out@.map_values(|n: StructNode| struct_node_view(n));
        match captures_all(patterns[p], content) {
            Some(ms) => {
                let found = structs_from_matches(&ms, content, file_path, ls.as_slice());
                let ghost ob = out@;
                append_all(&mut out, found);
                assert(out@.map_values(|n: StructNode| struct_node_view(n)) =~= ob.map_values(
                    |n: StructNode| struct_node_view(n),
                ) + found@.map_values(|n: StructNode| struct_node_view(n)));
            },
            None => {
                assert(before + Seq::<(Seq<char>, Seq<char>, u32, u32, Seq<char>)>::empty() =~= before);
            },
        }
        p = p + 1;
    }
    assert(ps.take(p as int) =~= ps);
    out
}

/// Moves all of `more` to the end of `out`.
fn append_all<T>(out: &mut Vec<T>, more: Vec<T>)
    ensures
        final(out)@ == old(out)@ + more@,
{
    let ghost all = more@;
    let n = more.len();
    let mut rest = more;
    let mut k: usize = 0;
    while rest.len() > 0
        invariant
            k + rest@.len() == all.len(),
            all.len() == n,
            rest@ == all.skip(k as int),
            out@ == old(out)@ + all.take(k as int),
        decreases rest.len(),
    {
        let x = rest.remove(0);
        assert(x == all[k as int]);
        out.push(x);
        assert(all.take(k + 1) =~= all.take(k as int).push(all[k as int]));
        assert(rest@ =~= all.skip(k + 1));
        k = k + 1;
    }
    assert(all.take(k as int) =~= all);
}

/// Extract function/method definitions from source code.
pub fn extract_functions(content: &str, file_path: &str) -> (r: Vec<FunctionNode>)
    requires
        scannable(content),
    ensures
        r@.map_values(|n: FunctionNode| function_node_view(n)) == functions_over(
            crate::knowledge::indexer::patterns::function_patterns_spec(),
            content,
            file_path@,
        ),
        forall|i: int|
            0 <= i < r@.len() ==> (#[trigger] r@[i]).id is None && r@[i].doc_comment is None
                && r@[i].parent_struct is None,
{
    let owned_lines = content_lines(content);
    let ls = as_strs(&owned_lines);
    let patterns = crate::knowledge::indexer::patterns::function_patterns();
    let ghost ps = patterns@.map_values(|p: (&'static str, bool)| (p.0@, p.1));
    let mut out: Vec<FunctionNode> = Vec::new();
    let mut p: usize = 0;
    while p < patterns.len()
        invariant
            p <= patterns@.len(),
            ps == patterns@.map_values(|p: (&'static str, bool)| (p.0@, p.1)),
            ps == crate::knowledge::indexer::patterns::function_patterns_spec(),
            scannable(content),
            lines_of_content(ls@, content),
            forall|k: int|
                0 <= k < out@.len() ==> (#[trigger] out@[k]).id is None && out@[k].doc_comment is None
                    && out@[k].parent_struct is None,
            out@.map_values(|n: FunctionNode| function_node_view(n)) == functions_over(
                ps.take(p as int),
                content,
                file_path@,
            ),
        decreases patterns.len() - p,
    {
        assert(ps.take(p + 1).drop_last() =~= ps.take(p as int));
        assert(ps.take(p + 1).last() == (patterns@[p as int].0@, patterns@[p as int].1));
        let ghost before = out@.map_values(|n: FunctionNode| function_node_view(n));
        let (pattern, skip) = patterns[p];
        match captures_all(pattern, content) {
            Some(ms) => {
                let found = functions_from_matches(&ms, skip, content, file_path, ls.as_slice());
                let ghost ob = out@;
                append_all(&mut out, found);
                assert(out@.map_values(|n: FunctionNode| function_node_view(n)) =~= ob.map_values(
                    |n: FunctionNode| function_node_view(n),
                ) + found@.map_values(|n: FunctionNode| function_node_view(n)));
            },
            None => {
                assert(before + Seq::<(Seq<char>, Seq<char>, u32, u32, Seq<char>, bool, Seq<char>)>::empty() =~= before);
            },
        }
        p = p + 1;
    }
    assert(ps.take(p as int) =~= ps);
    out
}

} // verus!
