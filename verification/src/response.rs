//! Finding the JSON payload in a model's free-text reply.
//!
//! Models are asked for bare JSON but often wrap it in a markdown code fence
//! or surround it with prose; the payload is recovered before it is parsed.

use vstd::prelude::*;
use vstd::string::StringSliceAdditionalSpecFns;

use crate::text::{occurs_at, chars_of, find, find_spec, has_prefix, rfind, rfind_spec, starts_with, trim, trim_bounds};

verus! {

broadcast use vstd::string::group_string_axioms;

/// The fence that opens and closes a markdown code block.
pub open spec fn fence() -> Seq<char> {
    seq!['`', '`', '`']
}

/// What follows the first line of `t` (its first '\n'), if it has one.
pub open spec fn after_first_line(t: Seq<char>) -> Option<Seq<char>> {
    match find_spec(t, seq!['\n']) {
        Some(a) => Some(t.subrange(a + 1, t.len() as int)),
        None => None,
    }
}

/// The body of a fenced reply: the text between the end of the opening
/// fence's line and the last closing fence, trimmed.
pub open spec fn fenced_body(t: Seq<char>) -> Option<Seq<char>> {
    if has_prefix(t, fence()) {
        match after_first_line(t) {
            Some(rest) => match rfind_spec(rest, fence()) {
                Some(e) => Some(trim(rest.subrange(0, e))),
                None => None,
            },
            None => None,
        }
    } else {
        None
    }
}

/// The text from the first '{' to the last '}', when the last comes after
/// the first.
pub open spec fn braced_body(t: Seq<char>) -> Option<Seq<char>> {
    match (find_spec(t, seq!['{']), rfind_spec(t, seq!['}'])) {
        (Some(st), Some(en)) => if en > st {
            Some(t.subrange(st, en + 1))
        } else {
            None
        },
        _ => None,
    }
}

/// The JSON payload of a reply: the body of its code fence if it is fenced,
/// else its outermost braces, else the whole reply; always trimmed first.
pub open spec fn json_payload(response: Seq<char>) -> Seq<char> {
    let t = trim(response);
    match fenced_body(t) {
        Some(b) => b,
        None => match braced_body(t) {
            Some(b) => b,
            None => t,
        },
    }
}

/// When the trimmed reply does not open a code fence and holds a '{' before
/// a '}', its payload runs from its first '{' to its last '}': a stretch of
/// the trimmed reply that opens with '{' and closes with '}', with no '{'
/// before it and no '}' after it.
pub proof fn lemma_braced_payload(response: Seq<char>, i: int, j: int)
    requires
        !has_prefix(trim(response), fence()),
        0 <= i < j < trim(response).len(),
        trim(response)[i] == '{',
        trim(response)[j] == '}',
    ensures
        ({
            let t = trim(response);
            let p = json_payload(response);
            &&& p.len() >= 2
            &&& p[0] == '{'
            &&& p[p.len() - 1] == '}'
            &&& exists|a: int|
                0 <= a && a + p.len() <= t.len() && #[trigger] t.subrange(a, a + p.len()) == p
                    && (forall|k: int| 0 <= k < a ==> t[k] != '{')
                    && (forall|k: int| a + p.len() <= k < t.len() ==> t[k] != '}')
        }),
{
    let t = trim(response);
    crate::text::lemma_find_char(t, '{');
    crate::text::lemma_rfind_char_last(t, '}');
    assert(fenced_body(t) is None);
    match (find_spec(t, seq!['{']), rfind_spec(t, seq!['}'])) {
        (Some(st), Some(en)) => {
            assert(st <= i);
            assert(en >= j);
            let p = t.subrange(st, en + 1);
            assert(braced_body(t) == Some(p));
            assert(json_payload(response) == p);
            assert(t.subrange(st, st + p.len()) == p);
        },
        (None, _) => {
            assert(t[i] != '{');
        },
        (_, None) => {
            assert(t[j] != '}');
        },
    }
}

/// When the trimmed reply opens a code fence, its payload is what stands
/// between the end of its first line and the last closing fence after that
/// line, trimmed.
pub proof fn lemma_fenced_payload(response: Seq<char>, a: int, e: int)
    requires
        has_prefix(trim(response), fence()),
        0 <= a < trim(response).len(),
        trim(response)[a] == '\n',
        forall|j: int| 0 <= j < a ==> trim(response)[j] != '\n',
        occurs_at(trim(response).subrange(a + 1, trim(response).len() as int), fence(), e),
        forall|j: int|
            e < j ==> !#[trigger] occurs_at(
                trim(response).subrange(a + 1, trim(response).len() as int),
                fence(),
                j,
            ),
    ensures
        json_payload(response) == trim(
            trim(response).subrange(a + 1, trim(response).len() as int).subrange(0, e),
        ),
{
    let t = trim(response);
    let rest = t.subrange(a + 1, t.len() as int);
    crate::text::lemma_find_char(t, '\n');
    crate::text::lemma_rfind_last_occurrence(rest, fence(), e);
    match find_spec(t, seq!['\n']) {
        Some(f) => {
            assert(f == a);
        },
        None => {
            assert(t[a] != '\n');
        },
    }
    assert(after_first_line(t) == Some(rest));
    assert(fenced_body(t) == Some(trim(rest.subrange(0, e))));
}

/// When the trimmed reply does not open a code fence and holds no '{' before
/// a '}', its payload is the whole trimmed reply.
pub proof fn lemma_unbraced_payload(response: Seq<char>)
    requires
        !has_prefix(trim(response), fence()),
        forall|i: int, j: int|
            0 <= i < j < trim(response).len() ==> !(#[trigger] trim(response)[i] == '{'
                && #[trigger] trim(response)[j] == '}'),
    ensures
        json_payload(response) == trim(response),
{
    let t = trim(response);
    crate::text::lemma_find_char(t, '{');
    crate::text::lemma_rfind_char_last(t, '}');
    assert(fenced_body(t) is None);
    match (find_spec(t, seq!['{']), rfind_spec(t, seq!['}'])) {
        (Some(st), Some(en)) => {
            if en > st {
                assert(t[st] == '{' && t[en] == '}');
            }
        },
        _ => {},
    }
}

/// `s` with leading and trailing whitespace removed, as a slice of `s`.
pub fn trim_slice(s: &str) -> (r: &str)
    ensures
        r@ == trim(s@),
{
    let cs = chars_of(s);
    let (a, e) = trim_bounds(cs.as_slice());
    s.substring_char(a, e)
}

/// Extracts JSON from a response that might be wrapped in a markdown code
/// block or have extra text around it.
pub fn extract_json(response: &str) -> (r: &str)
    ensures
        r@ == json_payload(response@),
{
    let trimmed = trim_slice(response);
    let t = chars_of(trimmed);
    let tlen = t.len();
    let fence_chars = chars_of("```");
    proof {
        reveal_strlit("```");
    }
    assert(fence_chars@ =~= fence());
    if starts_with(t.as_slice(), fence_chars.as_slice()) {
        let nl = vec!['\n'];
        assert(nl@ =~= seq!['\n']);
        if let Some(start) = find(t.as_slice(), nl.as_slice()) {
            proof {
                crate::text::lemma_found_occurs(t@, nl@, 0);
                assert(occurs_at(t@, nl@, start as int));
                assert(nl@.len() == 1);
            }
            let rest = trimmed.substring_char(start + 1, tlen);
            let rc = chars_of(rest);
            if let Some(end) = rfind(rc.as_slice(), fence_chars.as_slice()) {
                proof {
                    crate::text::lemma_found_occurs(rc@, fence_chars@, rc@.len() as int);
                }
                let body = rest.substring_char(0, end);
                return trim_slice(body);
            }
        }
    }
    let open = vec!['{'];
    let close = vec!['}'];
    assert(open@ =~= seq!['{']);
    assert(close@ =~= seq!['}']);
    if let Some(start) = find(t.as_slice(), open.as_slice()) {
        if let Some(end) = rfind(t.as_slice(), close.as_slice()) {
            if end > start {
                proof {
                    crate::text::lemma_found_occurs(t@, close@, t@.len() as int);
                    assert(occurs_at(t@, close@, end as int));
                }
                return trimmed.substring_char(start, end + 1);
            }
        }
    }
    trimmed
}

/// How many bytes of a text an error message quotes: at most 500.
pub open spec fn quoted_len(s: &str) -> int {
    if s.spec_bytes().len() < 500 {
        s.spec_bytes().len() as int
    } else {
        500
    }
}

/// The text of the first `quoted_len` bytes of `s`.
pub open spec fn quoted(s: &str) -> Seq<char> {
    vstd::utf8::decode_utf8(s.spec_bytes().subrange(0, quoted_len(s)))
}

/// The first 500 bytes of `s` (all of it if shorter), as error messages
/// quote a reply; the cut must fall on a character boundary.
pub fn first_500_bytes(s: &str) -> (r: &str)
    requires
        s.spec_bytes().len() <= usize::MAX,
        vstd::utf8::is_char_boundary(s.spec_bytes(), quoted_len(s)),
    ensures
        r@ == quoted(s),
{
    let n = s.len();
    let m = if n < 500 {
        n
    } else {
        500
    };
    let (head, _) = s.split_at(m);
    proof {
        vstd::utf8::encode_utf8_decode_utf8(head@);
    }
    head
}

/// An error message: `head`, then the first 500 bytes of `text`.
pub fn quoting_message(head: &str, text: &str) -> (r: String)
    requires
        text.spec_bytes().len() <= usize::MAX,
        vstd::utf8::is_char_boundary(text.spec_bytes(), quoted_len(text)),
    ensures
        r@ == head@ + quoted(text),
{
    let mut r = crate::text::owned(head);
    r.append(first_500_bytes(text));
    r
}

} // verus!
