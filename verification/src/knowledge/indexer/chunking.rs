//! Cutting source text into overlapping chunks for embedding, and the
//! other per-file decisions of indexing.

use sha2::Digest;
use vstd::prelude::*;

use crate::knowledge::indexer::extractor::scannable;
use crate::knowledge::models::CodeChunk;
use crate::text::{
    chars_of, concat_all, extension_of_path, lines, lines_of, extension_of, str_eq,
    string_from_chars, trim, trim_chars, views,
};

verus! {

broadcast use vstd::string::group_string_axioms;

/// The UTF-8 width of a character.
fn utf8_width(c: char) -> (w: usize)
    ensures
        w == vstd::utf8::encode_scalar(c as u32).len(),
{
    let u = c as u32;
    if u <= 0x7F {
        1
    } else if u <= 0x7FF {
        2
    } else if u <= 0xFFFF && !(0xD800 <= u && u <= 0xDFFF) {
        3
    } else {
        4
    }
}

/// Whether the UTF-8 encoding of `s` has at least `n` bytes.
pub fn bytes_at_least(s: &[char], n: usize) -> (r: bool)
    requires
        n < usize::MAX - 4,
    ensures
        r == (vstd::utf8::encode_utf8(s@).len() >= n),
{
    if n == 0 {
        return true;
    }
    let mut acc: usize = 0;
    let mut i: usize = 0;
    assert(vstd::utf8::encode_utf8(s@.take(0)) =~= Seq::<u8>::empty()) by {
        assert(s@.take(0) =~= Seq::<char>::empty());
    }
    while i < s.len()
        invariant
            i <= s@.len(),
            n < usize::MAX - 4,
            acc == vstd::utf8::encode_utf8(s@.take(i as int)).len(),
            acc < n,
        decreases s.len() - i,
    {
        let w = utf8_width(s[i]);
        proof {
            assert(s@.take(i + 1) =~= s@.take(i as int) + seq![s@[i as int]]);
            crate::text::lemma_encode_concat(s@.take(i as int), seq![s@[i as int]]);
            assert(seq![s@[i as int]].drop_first() =~= Seq::<char>::empty());
            assert(vstd::utf8::encode_utf8(Seq::<char>::empty()) =~= Seq::<u8>::empty());
            assert(vstd::utf8::encode_utf8(seq![s@[i as int]]) =~= vstd::utf8::encode_scalar(
                s@[i as int] as u32,
            ));
        }
        acc = acc + w;
        i = i + 1;
        if acc >= n {
            proof {
                assert(s@ =~= s@.take(i as int) + s@.skip(i as int));
                crate::text::lemma_encode_concat(s@.take(i as int), s@.skip(i as int));
            }
            return true;
        }
    }
    assert(s@.take(i as int) =~= s@);
    acc >= n
}

/// The line a chunk overlapping the previous one starts at, after a chunk
/// ended at `line`: two lines back (not below zero).
pub open spec fn overlap_start(line: int) -> int {
    if line >= 2 {
        line - 2
    } else {
        0
    }
}

/// A line followed by a newline.
pub open spec fn with_newline(l: Seq<char>) -> Seq<char> {
    l + seq!['\n']
}

/// The text a new chunk starts with after a chunk ended at `line`: the
/// lines from `overlap_start(line)` (counted from 1, the first line when it
/// is 0) through `line`, as many as there are, each with its newline.
pub open spec fn overlap_text(ls: Seq<Seq<char>>, line: int) -> Seq<char> {
    let os = overlap_start(line);
    let skip = if os >= 1 {
        os - 1
    } else {
        0
    };
    let lo = if skip < ls.len() {
        skip
    } else {
        ls.len() as int
    };
    let hi = if skip + (line - os + 1) < ls.len() {
        skip + (line - os + 1)
    } else {
        ls.len() as int
    };
    concat_all(ls.subrange(lo, hi), |l: Seq<char>| with_newline(l))
}

/// The state of chunking after `n` lines: the chunks made (text, first
/// line, last line), the text gathered since, and the line it starts at.
pub open spec fn chunk_state(ls: Seq<Seq<char>>, n: int) -> (Seq<(Seq<char>, int, int)>, Seq<char>, int)
    decreases n,
{
    if n <= 0 {
        (Seq::empty(), Seq::empty(), 1)
    } else {
        let prev = chunk_state(ls, n - 1);
        let gathered = prev.1 + with_newline(ls[n - 1]);
        if vstd::utf8::encode_utf8(gathered).len() >= 1000 {
            (prev.0.push((trim(gathered), prev.2, n)), overlap_text(ls, n), overlap_start(n))
        } else {
            (prev.0, gathered, prev.2)
        }
    }
}

/// The chunks of a text: lines are gathered until the gathered text reaches
/// 1000 bytes, which makes a chunk (trimmed); the next chunk starts two
/// lines back so that chunks overlap; what is left at the end makes a last
/// chunk unless it is blank.
pub open spec fn text_chunks(content: Seq<char>) -> Seq<(Seq<char>, int, int)> {
    let ls = lines(content);
    if ls.len() == 0 {
        Seq::empty()
    } else {
        let st = chunk_state(ls, ls.len() as int);
        if trim(st.1).len() > 0 {
            st.0.push((trim(st.1), st.2, ls.len() as int))
        } else {
            st.0
        }
    }
}

/// What chunking keeps after any number of lines: the first chunk starts
/// at line 1, each later chunk starts where the overlap after the previous
/// one starts, and the text being gathered starts there too.
proof fn lemma_chunk_state_overlap(ls: Seq<Seq<char>>, n: int)
    ensures
        chunk_state(ls, n).0.len() == 0 ==> chunk_state(ls, n).2 == 1,
        chunk_state(ls, n).0.len() > 0 ==> chunk_state(ls, n).0[0].1 == 1 && chunk_state(ls, n).2
            == overlap_start(chunk_state(ls, n).0.last().2),
        forall|i: int|
            0 <= i < chunk_state(ls, n).0.len() - 1 ==> #[trigger] chunk_state(ls, n).0[i + 1].1
                == overlap_start(chunk_state(ls, n).0[i].2),
    decreases n,
{
    if n > 0 {
        lemma_chunk_state_overlap(ls, n - 1);
        let prev = chunk_state(ls, n - 1);
        let st = chunk_state(ls, n);
        if st.0.len() > prev.0.len() {
            assert forall|i: int| 0 <= i < st.0.len() - 1 implies #[trigger] st.0[i + 1].1
                == overlap_start(st.0[i].2) by {
                if i + 1 < prev.0.len() {
                    assert(st.0[i + 1] == prev.0[i + 1]);
                    assert(st.0[i] == prev.0[i]);
                } else {
                    assert(st.0[i] == prev.0.last());
                }
            }
        }
    }
}

/// Consecutive chunks overlap: the first chunk starts at line 1, and each
/// later one starts two lines before the line the previous one ended at
/// (at line 0 when that one ended before line 2).
pub proof fn lemma_chunks_overlap(content: Seq<char>)
    ensures
        text_chunks(content).len() > 0 ==> text_chunks(content)[0].1 == 1,
        forall|i: int|
            0 <= i < text_chunks(content).len() - 1 ==> #[trigger] text_chunks(content)[i + 1].1
                == overlap_start(text_chunks(content)[i].2),
{
    let ls = lines(content);
    if ls.len() > 0 {
        let st = chunk_state(ls, ls.len() as int);
        lemma_chunk_state_overlap(ls, ls.len() as int);
        let cs = text_chunks(content);
        if cs.len() > st.0.len() {
            assert forall|i: int| 0 <= i < cs.len() - 1 implies #[trigger] cs[i + 1].1
                == overlap_start(cs[i].2) by {
                if i + 1 < st.0.len() {
                    assert(cs[i + 1] == st.0[i + 1]);
                    assert(cs[i] == st.0[i]);
                } else {
                    assert(cs[i] == st.0.last());
                }
            }
        }
    }
}

/// A chunk as plain values: its text, first line and last line.
pub open spec fn chunk_view(c: CodeChunk) -> (Seq<char>, int, int) {
    (c.content@, c.start_line as int, c.end_line as int)
}

/// The text of some lines, each with its newline.
fn lines_with_newlines(ls: &Vec<Vec<char>>, lo: usize, hi: usize) -> (r: Vec<char>)
    requires
        lo <= hi <= ls@.len(),
    ensures
        r@ == concat_all(views(ls@).subrange(lo as int, hi as int), |l: Seq<char>| with_newline(l)),
{
    let ghost vs = views(ls@).subrange(lo as int, hi as int);
    let mut r: Vec<char> = Vec::new();
    let mut i = lo;
    while i < hi
        invariant
            lo <= i <= hi <= ls@.len(),
            vs == views(ls@).subrange(lo as int, hi as int),
            r@ == concat_all(vs.take(i - lo), |l: Seq<char>| with_newline(l)),
        decreases hi - i,
    {
        crate::text::extend_chars(&mut r, ls[i].as_slice());
        r.push('\n');
        proof {
            crate::text::lemma_concat_all_step(vs, |l: Seq<char>| with_newline(l), i - lo);
            assert(vs[i - lo] == ls@[i as int]@);
        }
        i = i + 1;
    }
    proof {
        crate::text::lemma_concat_all_full(vs, |l: Seq<char>| with_newline(l));
    }
    r
}

/// Split content into overlapping chunks for embedding.
pub fn chunk_content(content: &str, file_path: &str) -> (r: Vec<CodeChunk>)
    requires
        scannable(content),
    ensures
        r@.map_values(|c: CodeChunk| chunk_view(c)) == text_chunks(content@),
        forall|i: int|
            0 <= i < r@.len() ==> (#[trigger] r@[i]).file_path@ == file_path@ && r@[i].entity_id is None
                && r@[i].id is None,
{
    let cs = chars_of(content);
    let ls = lines_of(cs.as_slice());
    let ghost lv = views(ls@);
    let mut chunks: Vec<CodeChunk> = Vec::new();
    proof {
        crate::text::lemma_lines_pieces(content@);
        crate::text::lemma_encode_len(content@);
    }
    if ls.len() == 0 {
        return chunks;
    }
    let n = ls.len();
    let mut current: Vec<char> = Vec::new();
    let mut chunk_start_line: u32 = 1;
    let mut current_line: u32 = 1;
    while current_line as usize <= n
        invariant
            n == ls@.len(),
            lv == views(ls@),
            lv == lines(content@),
            n <= 0x7fff_ffff,
            1 <= current_line <= n + 1,
            chunk_start_line <= current_line,
            chunks@.map_values(|c: CodeChunk| chunk_view(c)) == chunk_state(lv, current_line - 1).0,
            current@ == chunk_state(lv, current_line - 1).1,
            chunk_start_line == chunk_state(lv, current_line - 1).2,
            forall|i: int|
                0 <= i < chunks@.len() ==> (#[trigger] chunks@[i]).file_path@ == file_path@
                    && chunks@[i].entity_id is None && chunks@[i].id is None,
        decreases n + 1 - current_line,
    {
        let k = (current_line - 1) as usize;
        crate::text::extend_chars(&mut current, ls[k].as_slice());
        current.push('\n');
        assert(current@ =~= chunk_state(lv, current_line - 1).1 + with_newline(lv[k as int])) by {
            assert(lv[k as int] == ls@[k as int]@);
        }
        if bytes_at_least(current.as_slice(), 1000) {
            let t = trim_chars(current.as_slice());
            let text = string_from_chars(t.as_slice());
            let ghost before = chunks@;
            chunks.push(CodeChunk::new(file_path, text.as_str(), chunk_start_line, current_line));
            assert(chunks@.map_values(|c: CodeChunk| chunk_view(c)) =~= before.map_values(
                |c: CodeChunk| chunk_view(c),
            ).push(chunk_view(chunks@[before.len() as int])));
            let overlap_start: u32 = if current_line >= 2 {
                current_line - 2
            } else {
                0
            };
            let skip: usize = if overlap_start >= 1 {
                (overlap_start - 1) as usize
            } else {
                0
            };
            let take = (current_line - overlap_start + 1) as usize;
            let lo = if skip < n {
                skip
            } else {
                n
            };
            let hi = if skip + take < n {
                skip + take
            } else {
                n
            };
            current = lines_with_newlines(&ls, lo, hi);
            chunk_start_line = overlap_start;
        }
        current_line = current_line + 1;
    }
    assert(current_line - 1 == n);
    let t = trim_chars(current.as_slice());
    if t.len() > 0 {
        let text = string_from_chars(t.as_slice());
        let ghost before = chunks@;
        chunks.push(CodeChunk::new(file_path, text.as_str(), chunk_start_line, current_line - 1));
        assert(chunks@.map_values(|c: CodeChunk| chunk_view(c)) =~= before.map_values(
            |c: CodeChunk| chunk_view(c),
        ).push(chunk_view(chunks@[before.len() as int])));
    }
    chunks
}

/// Whether a path's extension is one of the indexed extensions.
pub open spec fn indexed_path(extensions: Seq<Seq<char>>, path: Seq<char>) -> bool {
    match extension_of(path) {
        Some(e) => extensions.contains(e),
        None => false,
    }
}

/// Check if a file's extension is in the allowed list.
pub fn should_index(extensions: &Vec<String>, path: &str) -> (r: bool)
    ensures
        r == indexed_path(crate::knowledge::records::string_views(extensions@), path@),
{
    match extension_of_path(path) {
        Some(ext) => {
            let mut i: usize = 0;
            while i < extensions.len()
                invariant
                    i <= extensions@.len(),
                    extension_of(path@) == Some(ext@),
                    forall|j: int| 0 <= j < i ==> extensions@[j]@ != ext@,
                decreases extensions.len() - i,
            {
                if str_eq(extensions[i].as_str(), ext.as_str()) {
                    assert(crate::knowledge::records::string_views(extensions@)[i as int] == ext@);
                    assert(crate::knowledge::records::string_views(extensions@).contains(ext@));
                    return true;
                }
                i = i + 1;
            }
            proof {
                let v = crate::knowledge::records::string_views(extensions@);
                if v.contains(ext@) {
                    let w = choose|w: int| 0 <= w < v.len() && v[w] == ext@;
                    assert(extensions@[w]@ == ext@);
                }
            }
            false
        },
        None => false,
    }
}

/// The SHA-256 digest of a text's UTF-8 bytes, in lowercase hex.
pub uninterp spec fn sha256_hex(bytes: Seq<u8>) -> Seq<char>;

/// SHA-256 (`sha2::Sha256`) of the text's bytes, hex-encoded (`hex::encode`):
/// the result is named after the bytes, and is 64 hex digits long, as a
/// 32-byte digest in hex is.
#[verifier::external_body]
fn sha256_hex_of(content: &str) -> (r: String)
    ensures
        r@ == sha256_hex(vstd::string::StringSliceAdditionalSpecFns::spec_bytes(content)),
        r@.len() == 64,
{
    let mut hasher = sha2::Sha256::new();
    hasher.update(content.as_bytes());
    hex::encode(hasher.finalize())
}

/// Compute SHA256 hash of content for change detection.
pub fn compute_hash(content: &str) -> (r: String)
    ensures
        r@ == sha256_hex(vstd::string::StringSliceAdditionalSpecFns::spec_bytes(content)),
        r@.len() == 64,
{
    sha256_hex_of(content)
}

} // verus!
