//! Text utilities over character sequences, with their specifications.
//!
//! Strings are reasoned about through their view as `Seq<char>`.  The
//! functions here are the building blocks the rest of the library uses to
//! split, trim, search and assemble text.

use vstd::prelude::*;

verus! {

broadcast use vstd::string::group_string_axioms;

// ---------------------------------------------------------------------------
// Character classes from std
// ---------------------------------------------------------------------------

/// Whether a character has the Unicode White_Space property, which is what
/// `char::is_whitespace` decides: tab through carriage return, space, next
/// line, no-break space, ogham space mark, en quad through hair space, line
/// and paragraph separators, narrow no-break space, medium mathematical
/// space and ideographic space.
pub open spec fn char_is_whitespace(c: char) -> bool {
    ||| '\u{9}' <= c <= '\u{d}'
    ||| c == ' '
    ||| c == '\u{85}'
    ||| c == '\u{a0}'
    ||| c == '\u{1680}'
    ||| '\u{2000}' <= c <= '\u{200a}'
    ||| c == '\u{2028}'
    ||| c == '\u{2029}'
    ||| c == '\u{202f}'
    ||| c == '\u{205f}'
    ||| c == '\u{3000}'
}

/// Whether `char::is_alphanumeric` holds of a character.
pub uninterp spec fn char_is_alphanumeric(c: char) -> bool;

/// Whether `char::is_uppercase` holds of a character.
pub uninterp spec fn char_is_uppercase(c: char) -> bool;

/// The result of `str::to_lowercase` on a string.
pub uninterp spec fn str_to_lowercase(s: Seq<char>) -> Seq<char>;

/// ASCII lowercase of a character; other characters are unchanged.
pub open spec fn ascii_lower(c: char) -> char {
    if 'A' <= c <= 'Z' {
        ((c as u32) + 32) as char
    } else {
        c
    }
}

/// Whether every character of a text is ASCII.
pub open spec fn all_ascii(s: Seq<char>) -> bool {
    forall|i: int| 0 <= i < s.len() ==> (s[i] as u32) < 128
}

/// A text in lowercase, as `str::to_lowercase` makes it: letter by letter
/// for an ASCII text.
pub open spec fn lowercased(s: Seq<char>) -> Seq<char> {
    if all_ascii(s) {
        s.map_values(|c: char| ascii_lower(c))
    } else {
        str_to_lowercase(s)
    }
}

/// Whether a character is whitespace (Unicode White_Space).
pub(crate) fn is_whitespace(c: char) -> (r: bool)
    ensures
        r == char_is_whitespace(c),
{
    ('\u{9}' <= c && c <= '\u{d}') || c == ' ' || c == '\u{85}' || c == '\u{a0}' || c
        == '\u{1680}' || ('\u{2000}' <= c && c <= '\u{200a}') || c == '\u{2028}' || c
        == '\u{2029}' || c == '\u{202f}' || c == '\u{205f}' || c == '\u{3000}'
}

/// `char::is_alphanumeric`: the result is named; ASCII letters and digits
/// are alphanumeric and '-', '_' and ' ' are not, as the documentation shows.
#[verifier::external_body]
pub(crate) fn is_alphanumeric(c: char) -> (r: bool)
    ensures
        r == char_is_alphanumeric(c),
        ('a' <= c <= 'z' || 'A' <= c <= 'Z' || '0' <= c <= '9') ==> r,
        (c == '-' || c == '_' || c == ' ') ==> !r,
{
    c.is_alphanumeric()
}

/// `char::is_uppercase`: the result is named; ASCII capitals are uppercase
/// and ASCII lowercase letters, digits and '_' are not.
#[verifier::external_body]
pub(crate) fn is_uppercase(c: char) -> (r: bool)
    ensures
        r == char_is_uppercase(c),
        ('A' <= c <= 'Z') ==> r,
        ('a' <= c <= 'z' || '0' <= c <= '9' || c == '_') ==> !r,
{
    c.is_uppercase()
}

/// An ASCII text without capital letters is its own lowercase.
pub proof fn lemma_lowercase_fixed(s: Seq<char>)
    requires
        forall|i: int| 0 <= i < s.len() ==> (s[i] as u32) < 128 && !('A' <= #[trigger] s[i] <= 'Z'),
    ensures
        lowercased(s) == s,
{
    assert(all_ascii(s));
    assert(s.map_values(|c: char| ascii_lower(c)) =~= s);
}

/// `str::to_lowercase`: the result is named after its argument; an ASCII
/// text lowercases letter by letter (each of 'A' to 'Z' becomes its small
/// letter, every other character stays).
#[verifier::external_body]
pub(crate) fn to_lowercase(s: &str) -> (r: String)
    ensures
        r@ == str_to_lowercase(s@),
        r@ == lowercased(s@),
{
    s.to_lowercase()
}

/// The extension of a path, as `std::path::Path::extension` gives it
/// (the part of the file name after its last '.'), when it is valid UTF-8.
pub uninterp spec fn path_extension(p: Seq<char>) -> Option<Seq<char>>;

/// The part of a path after its last '/' (all of it when it has none).
pub open spec fn final_segment(p: Seq<char>) -> Seq<char> {
    match rfind_spec(p, seq!['/']) {
        Some(i) => p.subrange(i + 1, p.len() as int),
        None => p,
    }
}

/// The file name of a path whose part after its last '/' is a plain name:
/// not empty, neither "." nor "..", and without ':'; the path holds no
/// '\\' and does not start with "//" (which some platforms read as
/// separators, drive or share prefixes). `Path::file_name` gives that last
/// component.
pub open spec fn plain_file_name(p: Seq<char>) -> Option<Seq<char>> {
    let s = final_segment(p);
    if s.len() > 0 && s != seq!['.'] && s != seq!['.', '.'] && !s.contains(':') && !p.contains(
        '\\',
    ) && !(p.len() >= 2 && p[0] == '/' && p[1] == '/') {
        Some(s)
    } else {
        None
    }
}

/// The extension of a file name, as `Path::extension` documents it: none
/// when the name has no '.', or when its only '.' is its first character;
/// otherwise what follows its last '.'.
pub open spec fn name_extension(s: Seq<char>) -> Option<Seq<char>> {
    match rfind_spec(s, seq!['.']) {
        Some(i) => if i == 0 {
            None
        } else {
            Some(s.subrange(i + 1, s.len() as int))
        },
        None => None,
    }
}

/// The extension of a path: that of its plain file name when it has one,
/// else what `Path::extension` gives.
pub open spec fn extension_of(p: Seq<char>) -> Option<Seq<char>> {
    match plain_file_name(p) {
        Some(s) => name_extension(s),
        None => path_extension(p),
    }
}

/// `Path::new(path).extension()`, converted to a string: the result is named
/// after the path, and for a path ending in a plain file name it is the
/// extension of that name as the documentation describes it.
#[verifier::external_body]
pub(crate) fn extension_of_path(path: &str) -> (r: Option<String>)
    ensures
        match r {
            Some(e) => path_extension(path@) == Some(e@),
            None => path_extension(path@) is None,
        },
        match r {
            Some(e) => extension_of(path@) == Some(e@),
            None => extension_of(path@) is None,
        },
{
    std::path::Path::new(path).extension().and_then(|e| e.to_str()).map(|e| e.to_string())
}

/// The file name of a path, as `std::path::Path::file_name` gives it (its
/// last component, unless that is ".."), when it is valid UTF-8.
pub uninterp spec fn path_file_name(p: Seq<char>) -> Option<Seq<char>>;

/// The file name of a path: its plain file name when it has one, else what
/// `Path::file_name` gives.
pub open spec fn file_name_of(p: Seq<char>) -> Option<Seq<char>> {
    match plain_file_name(p) {
        Some(s) => Some(s),
        None => path_file_name(p),
    }
}

/// `Path::new(path).file_name()`, converted to a string: the result is
/// named after the path, and for a path ending in a plain file name it is
/// that name (the path's last component).
#[verifier::external_body]
pub(crate) fn file_name_of_path(path: &str) -> (r: Option<String>)
    ensures
        match r {
            Some(e) => path_file_name(path@) == Some(e@),
            None => path_file_name(path@) is None,
        },
        match r {
            Some(e) => file_name_of(path@) == Some(e@),
            None => file_name_of(path@) is None,
        },
{
    std::path::Path::new(path).file_name().and_then(|e| e.to_str()).map(|e| e.to_string())
}

/// `String::from_iter` over characters: the string made of exactly `cs`.
#[verifier::external_body]
pub(crate) fn string_from_chars(cs: &[char]) -> (s: String)
    ensures
        s@ == cs@,
{
    String::from_iter(cs.iter())
}

// ---------------------------------------------------------------------------
// Conversions
// ---------------------------------------------------------------------------

/// The characters of a string, in order.
pub fn chars_of(s: &str) -> (v: Vec<char>)
    ensures
        v@ == s@,
{
    let n = s.unicode_len();
    let mut v: Vec<char> = Vec::new();
    let mut i: usize = 0;
    while i < n
        invariant
            n == s@.len(),
            i <= n,
            v@ == s@.take(i as int),
        decreases n - i,
    {
        let c = s.get_char(i);
        v.push(c);
        i = i + 1;
        assert(v@ =~= s@.take(i as int));
    }
    assert(v@ =~= s@);
    v
}

/// A string holding exactly the given characters (owned copy of `s`).
pub fn owned(s: &str) -> (r: String)
    ensures
        r@ == s@,
{
    String::from_str(s)
}

// ---------------------------------------------------------------------------
// Decimal formatting
// ---------------------------------------------------------------------------

/// The ASCII digit for a value below ten.
pub open spec fn digit_char(d: nat) -> char {
    if d == 0 { '0' }
    else if d == 1 { '1' }
    else if d == 2 { '2' }
    else if d == 3 { '3' }
    else if d == 4 { '4' }
    else if d == 5 { '5' }
    else if d == 6 { '6' }
    else if d == 7 { '7' }
    else if d == 8 { '8' }
    else { '9' }
}

/// Decimal representation of a natural number, without leading zeros.
pub open spec fn decimal(n: nat) -> Seq<char>
    decreases n,
{
    if n < 10 {
        seq![digit_char(n)]
    } else {
        decimal(n / 10).push(digit_char(n % 10))
    }
}

fn digit(d: usize) -> (c: char)
    requires
        d < 10,
    ensures
        c == digit_char(d as nat),
{
    if d == 0 { '0' }
    else if d == 1 { '1' }
    else if d == 2 { '2' }
    else if d == 3 { '3' }
    else if d == 4 { '4' }
    else if d == 5 { '5' }
    else if d == 6 { '6' }
    else if d == 7 { '7' }
    else if d == 8 { '8' }
    else { '9' }
}

/// Decimal digits of `n` as characters.
pub fn decimal_chars(n: usize) -> (v: Vec<char>)
    ensures
        v@ == decimal(n as nat),
    decreases n,
{
    if n < 10 {
        let mut v = Vec::new();
        v.push(digit(n));
        v
    } else {
        let mut v = decimal_chars(n / 10);
        v.push(digit(n % 10));
        v
    }
}

/// Decimal representation of `n` as a string (what `n.to_string()` gives).
pub fn usize_to_string(n: usize) -> (s: String)
    ensures
        s@ == decimal(n as nat),
{
    let v = decimal_chars(n);
    string_from_chars(v.as_slice())
}

/// Appends the decimal representation of `n`.
pub fn push_decimal(s: &mut String, n: usize)
    ensures
        final(s)@ == old(s)@ + decimal(n as nat),
{
    let d = usize_to_string(n);
    s.append(d.as_str());
}

// ---------------------------------------------------------------------------
// Prefixes, suffixes, searching
// ---------------------------------------------------------------------------

/// `p` is a prefix of `s`.
pub open spec fn has_prefix(s: Seq<char>, p: Seq<char>) -> bool {
    p.len() <= s.len() && s.subrange(0, p.len() as int) == p
}

/// `p` is a suffix of `s`.
pub open spec fn has_suffix(s: Seq<char>, p: Seq<char>) -> bool {
    p.len() <= s.len() && s.subrange(s.len() - p.len(), s.len() as int) == p
}

/// `p` occurs in `s` starting at position `i`.
pub open spec fn occurs_at(s: Seq<char>, p: Seq<char>, i: int) -> bool {
    0 <= i && i + p.len() <= s.len() && s.subrange(i, i + p.len()) == p
}

/// `p` occurs somewhere in `s`.
pub open spec fn contains_seq(s: Seq<char>, p: Seq<char>) -> bool {
    exists|i: int| occurs_at(s, p, i)
}

/// Whether `p` occurs at position `i` of `s`.
pub fn matches_at(s: &[char], p: &[char], i: usize) -> (r: bool)
    ensures
        r == occurs_at(s@, p@, i as int),
{
    if i > s.len() || p.len() > s.len() - i {
        return false;
    }
    let mut k: usize = 0;
    while k < p.len()
        invariant
            i + p@.len() <= s@.len(),
            k <= p@.len(),
            forall|j: int| 0 <= j < k ==> s@[i + j] == p@[j],
        decreases p.len() - k,
    {
        assert(i + k < s.len());
        if s[i + k] != p[k] {
            assert(s@.subrange(i as int, i + p@.len())[k as int] != p@[k as int]);
            return false;
        }
        k = k + 1;
    }
    assert(s@.subrange(i as int, i + p@.len()) =~= p@);
    true
}

/// Whether `s` starts with `p`.
pub fn starts_with(s: &[char], p: &[char]) -> (r: bool)
    ensures
        r == has_prefix(s@, p@),
{
    matches_at(s, p, 0)
}

/// Whether `s` ends with `p`.
pub fn ends_with(s: &[char], p: &[char]) -> (r: bool)
    ensures
        r == has_suffix(s@, p@),
{
    if p.len() > s.len() {
        false
    } else {
        matches_at(s, p, s.len() - p.len())
    }
}

/// Position of the first occurrence of `p` in `s` at or after `from`.
pub open spec fn first_occurrence_from(s: Seq<char>, p: Seq<char>, from: int, i: int) -> bool {
    from <= i && occurs_at(s, p, i) && forall|j: int| from <= j < i ==> !occurs_at(s, p, j)
}

/// Finds the first position at or after `from` where `p` occurs.
pub fn find_from(s: &[char], p: &[char], from: usize) -> (r: Option<usize>)
    ensures
        match r {
            Some(i) => first_occurrence_from(s@, p@, from as int, i as int),
            None => forall|j: int| from <= j ==> !occurs_at(s@, p@, j),
        },
{
    let mut i = from;
    while i < s.len()
        invariant
            from <= i,
            forall|j: int| from <= j < i ==> !occurs_at(s@, p@, j),
        decreases s.len() - i,
    {
        if matches_at(s, p, i) {
            return Some(i);
        }
        i = i + 1;
    }
    if i == s.len() && matches_at(s, p, i) {
        return Some(i);
    }
    assert forall|j: int| from <= j implies !occurs_at(s@, p@, j) by {
        if j > s@.len() {
        } else if j < i {
        }
    }
    None
}

/// The first position at or after `k` where `p` occurs in `s`.
pub open spec fn first_at_or_after(s: Seq<char>, p: Seq<char>, k: int) -> Option<int>
    decreases s.len() + 1 - k,
{
    if k < 0 || k > s.len() {
        None
    } else if occurs_at(s, p, k) {
        Some(k)
    } else {
        first_at_or_after(s, p, k + 1)
    }
}

/// The last position at or before `k` where `p` occurs in `s`.
pub open spec fn last_at_or_before(s: Seq<char>, p: Seq<char>, k: int) -> Option<int>
    decreases k + 1,
{
    if k < 0 {
        None
    } else if occurs_at(s, p, k) {
        Some(k)
    } else {
        last_at_or_before(s, p, k - 1)
    }
}

/// Where `str::find` finds `p` in `s`: its first occurrence.
pub open spec fn find_spec(s: Seq<char>, p: Seq<char>) -> Option<int> {
    first_at_or_after(s, p, 0)
}

/// Where `str::rfind` finds `p` in `s`: its last occurrence.
pub open spec fn rfind_spec(s: Seq<char>, p: Seq<char>) -> Option<int> {
    last_at_or_before(s, p, s.len() as int)
}

/// The first occurrence of `p` in `s`.
pub fn find(s: &[char], p: &[char]) -> (r: Option<usize>)
    ensures
        match r {
            Some(i) => find_spec(s@, p@) == Some(i as int),
            None => find_spec(s@, p@) is None,
        },
{
    let mut i: usize = 0;
    while i <= s.len()
        invariant
            find_spec(s@, p@) == first_at_or_after(s@, p@, i as int),
        decreases s.len() + 1 - i,
    {
        if matches_at(s, p, i) {
            return Some(i);
        }
        if i == s.len() {
            assert(first_at_or_after(s@, p@, i + 1) is None);
            return None;
        }
        i = i + 1;
    }
    None
}

/// The last occurrence of `p` in `s`.
pub fn rfind(s: &[char], p: &[char]) -> (r: Option<usize>)
    ensures
        match r {
            Some(i) => rfind_spec(s@, p@) == Some(i as int),
            None => rfind_spec(s@, p@) is None,
        },
{
    let mut i: usize = s.len();
    while true
        invariant
            i <= s@.len(),
            rfind_spec(s@, p@) == last_at_or_before(s@, p@, i as int),
        decreases i,
    {
        if matches_at(s, p, i) {
            return Some(i);
        }
        if i == 0 {
            assert(last_at_or_before(s@, p@, -1) is None);
            return None;
        }
        i = i - 1;
    }
    None
}

/// A found position is an occurrence, and lies in the string.
pub proof fn lemma_found_occurs(s: Seq<char>, p: Seq<char>, k: int)
    ensures
        first_at_or_after(s, p, k) matches Some(i) ==> k <= i && occurs_at(s, p, i),
        last_at_or_before(s, p, k) matches Some(i) ==> i <= k && occurs_at(s, p, i),
    decreases s.len() + 1 - k,
{
    lemma_last_occurs(s, p, k);
    if 0 <= k <= s.len() && !occurs_at(s, p, k) {
        lemma_found_occurs(s, p, k + 1);
    }
}

/// The last occurrence of a character is found where it stands: at `k`
/// when `s[k]` is `c` and no later character is, and nowhere when no
/// character is.
pub proof fn lemma_rfind_char(s: Seq<char>, c: char, k: int)
    requires
        -1 <= k < s.len(),
        k >= 0 ==> s[k] == c,
        forall|j: int| k < j < s.len() ==> s[j] != c,
    ensures
        rfind_spec(s, seq![c]) == (if k >= 0 {
            Some(k)
        } else {
            None::<int>
        }),
{
    lemma_last_char_from(s, c, k, s.len() as int);
}

proof fn lemma_last_char_from(s: Seq<char>, c: char, k: int, m: int)
    requires
        -1 <= k < s.len(),
        k <= m <= s.len(),
        k >= 0 ==> s[k] == c,
        forall|j: int| k < j < s.len() ==> s[j] != c,
    ensures
        last_at_or_before(s, seq![c], m) == (if k >= 0 {
            Some(k)
        } else {
            None::<int>
        }),
    decreases m + 1,
{
    if m >= 0 {
        if m == k {
            assert(s.subrange(k, k + 1) =~= seq![c]);
        } else {
            if m < s.len() {
                assert(s.subrange(m, m + 1)[0] == s[m]);
            }
            assert(!occurs_at(s, seq![c], m));
            lemma_last_char_from(s, c, k, m - 1);
        }
    }
}

proof fn lemma_last_occurs(s: Seq<char>, p: Seq<char>, k: int)
    ensures
        last_at_or_before(s, p, k) matches Some(i) ==> i <= k && occurs_at(s, p, i),
    decreases k + 1,
{
    if k >= 0 && !occurs_at(s, p, k) {
        lemma_last_occurs(s, p, k - 1);
    }
}

/// Searching backwards finds an occurrence of `p` that no later occurrence
/// follows.
pub proof fn lemma_rfind_last_occurrence(s: Seq<char>, p: Seq<char>, e: int)
    requires
        occurs_at(s, p, e),
        forall|j: int| e < j <= s.len() ==> !occurs_at(s, p, j),
    ensures
        rfind_spec(s, p) == Some(e),
{
    lemma_last_from(s, p, e, s.len() as int);
}

proof fn lemma_last_from(s: Seq<char>, p: Seq<char>, e: int, k: int)
    requires
        occurs_at(s, p, e),
        e <= k,
        forall|j: int| e < j <= k ==> !occurs_at(s, p, j),
    ensures
        last_at_or_before(s, p, k) == Some(e),
    decreases k - e,
{
    if k > e {
        lemma_last_from(s, p, e, k - 1);
    }
}

/// A one-character pattern occurs exactly where that character stands.
pub proof fn lemma_occurs_char(s: Seq<char>, c: char, k: int)
    ensures
        occurs_at(s, seq![c], k) <==> (0 <= k < s.len() && s[k] == c),
{
    if 0 <= k < s.len() {
        if s[k] == c {
            assert(s.subrange(k, k + 1) =~= seq![c]);
        } else {
            assert(s.subrange(k, k + 1)[0] == s[k]);
        }
    }
}

/// Searching for a character finds its first occurrence: a position that
/// holds it with no earlier one that does; it finds nothing only when no
/// position holds it.
pub proof fn lemma_find_char(s: Seq<char>, c: char)
    ensures
        match find_spec(s, seq![c]) {
            Some(i) => 0 <= i < s.len() && s[i] == c && forall|j: int| 0 <= j < i ==> s[j] != c,
            None => forall|j: int| 0 <= j < s.len() ==> s[j] != c,
        },
{
    lemma_first_char_from(s, c, 0);
}

proof fn lemma_first_char_from(s: Seq<char>, c: char, k: int)
    requires
        0 <= k,
    ensures
        match first_at_or_after(s, seq![c], k) {
            Some(i) => k <= i < s.len() && s[i] == c && forall|j: int| k <= j < i ==> s[j] != c,
            None => forall|j: int| k <= j < s.len() ==> s[j] != c,
        },
    decreases s.len() + 1 - k,
{
    lemma_occurs_char(s, c, k);
    if k <= s.len() && !occurs_at(s, seq![c], k) {
        lemma_first_char_from(s, c, k + 1);
    }
}

/// Searching backwards for a character finds its last occurrence: a
/// position that holds it with no later one that does; it finds nothing
/// only when no position holds it.
pub proof fn lemma_rfind_char_last(s: Seq<char>, c: char)
    ensures
        match rfind_spec(s, seq![c]) {
            Some(i) => 0 <= i < s.len() && s[i] == c && forall|j: int| i < j < s.len() ==> s[j] != c,
            None => forall|j: int| 0 <= j < s.len() ==> s[j] != c,
        },
{
    lemma_last_char_upto(s, c, s.len() as int);
}

proof fn lemma_last_char_upto(s: Seq<char>, c: char, k: int)
    requires
        k <= s.len(),
    ensures
        match last_at_or_before(s, seq![c], k) {
            Some(i) => 0 <= i <= k && i < s.len() && s[i] == c && forall|j: int|
                i < j <= k && j < s.len() ==> s[j] != c,
            None => forall|j: int| 0 <= j <= k && j < s.len() ==> s[j] != c,
        },
    decreases k + 1,
{
    lemma_occurs_char(s, c, k);
    if k >= 0 && !occurs_at(s, seq![c], k) {
        lemma_last_char_upto(s, c, k - 1);
    }
}

/// Whether `p` occurs in `s`.
pub fn contains(s: &[char], p: &[char]) -> (r: bool)
    ensures
        r == contains_seq(s@, p@),
{
    match find_from(s, p, 0) {
        Some(i) => true,
        None => {
            assert forall|j: int| !occurs_at(s@, p@, j) by {
                if j < 0 {
                }
            }
            false
        },
    }
}

/// Whether `s` spells exactly the literal `lit`.
pub fn eq_lit(s: &[char], lit: &str) -> (r: bool)
    ensures
        r == (s@ == lit@),
{
    let l = chars_of(lit);
    chars_eq(s, l.as_slice())
}

/// Whether the character `c` occurs in `s`.
pub fn contains_char(s: &[char], c: char) -> (r: bool)
    ensures
        r == s@.contains(c),
{
    let mut i: usize = 0;
    while i < s.len()
        invariant
            i <= s@.len(),
            forall|j: int| 0 <= j < i ==> s@[j] != c,
        decreases s.len() - i,
    {
        if s[i] == c {
            return true;
        }
        i = i + 1;
    }
    false
}

/// Whether two character slices are equal.
pub fn chars_eq(a: &[char], b: &[char]) -> (r: bool)
    ensures
        r == (a@ == b@),
{
    if a.len() != b.len() {
        return false;
    }
    let r = matches_at(a, b, 0);
    assert(a@ =~= a@.subrange(0, b@.len() as int));
    r
}

/// Whether two strings are equal.
pub fn str_eq(a: &str, b: &str) -> (r: bool)
    ensures
        r == (a@ == b@),
{
    let av = chars_of(a);
    let bv = chars_of(b);
    chars_eq(av.as_slice(), bv.as_slice())
}

// ---------------------------------------------------------------------------
// Trimming
// ---------------------------------------------------------------------------

/// `s` without its leading whitespace.
pub open spec fn trim_start(s: Seq<char>) -> Seq<char>
    decreases s.len(),
{
    if s.len() > 0 && char_is_whitespace(s[0]) {
        trim_start(s.drop_first())
    } else {
        s
    }
}

/// `s` without its trailing whitespace.
pub open spec fn trim_end(s: Seq<char>) -> Seq<char>
    decreases s.len(),
{
    if s.len() > 0 && char_is_whitespace(s.last()) {
        trim_end(s.drop_last())
    } else {
        s
    }
}

/// `s` without leading and trailing whitespace (what `str::trim` gives).
pub open spec fn trim(s: Seq<char>) -> Seq<char> {
    trim_end(trim_start(s))
}

/// Number of leading whitespace characters.
pub fn leading_ws(s: &[char]) -> (n: usize)
    ensures
        n <= s@.len(),
        trim_start(s@) == s@.skip(n as int),
{
    let mut i: usize = 0;
    assert(s@.skip(0) =~= s@);
    while i < s.len() && is_whitespace(s[i])
        invariant
            i <= s@.len(),
            trim_start(s@) == trim_start(s@.skip(i as int)),
        decreases s.len() - i,
    {
        assert(s@.skip(i as int).drop_first() =~= s@.skip(i + 1));
        i = i + 1;
    }
    assert(s@.skip(i as int).len() == 0 || !char_is_whitespace(s@.skip(i as int)[0]));
    i
}

/// Bounds `(a, e)` such that the trim of `s` is `s[a..e]`.
pub fn trim_bounds(s: &[char]) -> (r: (usize, usize))
    ensures
        r.0 <= r.1 <= s@.len(),
        trim(s@) == s@.subrange(r.0 as int, r.1 as int),
{
    let a = leading_ws(s);
    let ghost t = s@.skip(a as int);
    let mut i: usize = s.len();
    while i > a && is_whitespace(s[i - 1])
        invariant
            a <= i <= s@.len(),
            t == s@.skip(a as int),
            trim_end(t) == trim_end(s@.subrange(a as int, i as int)),
        decreases i,
    {
        assert(s@.subrange(a as int, i as int).drop_last() =~= s@.subrange(a as int, i - 1));
        i = i - 1;
    }
    assert(s@.subrange(a as int, i as int).len() == 0 || !char_is_whitespace(
        s@.subrange(a as int, i as int).last(),
    ));
    (a, i)
}

/// The characters of `s` with leading and trailing whitespace removed.
pub fn trim_chars(s: &[char]) -> (r: Vec<char>)
    ensures
        r@ == trim(s@),
{
    let (a, e) = trim_bounds(s);
    copy_range(s, a, e)
}

/// The characters `s[a..e]`.
pub fn copy_range(s: &[char], a: usize, e: usize) -> (r: Vec<char>)
    requires
        a <= e <= s@.len(),
    ensures
        r@ == s@.subrange(a as int, e as int),
{
    let mut r: Vec<char> = Vec::new();
    let mut i: usize = a;
    while i < e
        invariant
            a <= i <= e <= s@.len(),
            r@ == s@.subrange(a as int, i as int),
        decreases e - i,
    {
        r.push(s[i]);
        i = i + 1;
        assert(r@ =~= s@.subrange(a as int, i as int));
    }
    r
}

/// `s` with leading and trailing whitespace removed, as a string.
pub fn trim_str(s: &str) -> (r: String)
    ensures
        r@ == trim(s@),
{
    let v = chars_of(s);
    let t = trim_chars(v.as_slice());
    string_from_chars(t.as_slice())
}

/// Whether `s` consists of whitespace only (its trim is empty).
pub fn is_blank(s: &[char]) -> (r: bool)
    ensures
        r == (trim(s@).len() == 0),
{
    let t = trim_chars(s);
    t.len() == 0
}


// ---------------------------------------------------------------------------
// Splitting into lines and words, joining
// ---------------------------------------------------------------------------

/// The views of a sequence of character vectors.
pub open spec fn views(v: Seq<Vec<char>>) -> Seq<Seq<char>> {
    v.map_values(|x: Vec<char>| x@)
}

/// Pushing onto a vector pushes its view onto the views.
pub proof fn lemma_views_push(v: Seq<Vec<char>>, x: Vec<char>)
    ensures
        views(v.push(x)) == views(v).push(x@),
        views(v).len() == v.len(),
{
    assert(views(v.push(x)) =~= views(v).push(x@));
}

/// The pieces of `s` between occurrences of `c` (what `split(c)` yields).
pub open spec fn split_on(s: Seq<char>, c: char) -> Seq<Seq<char>>
    decreases s.len(),
{
    if s.len() == 0 {
        seq![Seq::<char>::empty()]
    } else {
        let r = split_on(s.drop_last(), c);
        if s.last() == c {
            r.push(Seq::<char>::empty())
        } else {
            r.update(r.len() - 1, r.last().push(s.last()))
        }
    }
}

/// `split_on` always yields at least one piece.
pub proof fn lemma_split_on_nonempty(s: Seq<char>, c: char)
    ensures
        split_on(s, c).len() >= 1,
    decreases s.len(),
{
    if s.len() > 0 {
        lemma_split_on_nonempty(s.drop_last(), c);
    }
}

/// A line with one trailing carriage return removed.
pub open spec fn strip_cr(l: Seq<char>) -> Seq<char> {
    if l.len() > 0 && l.last() == '\r' {
        l.drop_last()
    } else {
        l
    }
}

/// The lines of `s`, as `str::lines` yields them: split at '\n', a '\r'
/// before a '\n' dropped, and no empty final line after a trailing '\n'.
pub open spec fn lines(s: Seq<char>) -> Seq<Seq<char>> {
    let parts = split_on(s, '\n');
    let k = parts.len() as int;
    let n = if parts.last().len() == 0 { k - 1 } else { k };
    Seq::new(
        n as nat,
        |i: int|
            if i < k - 1 {
                strip_cr(parts[i])
            } else {
                parts[i]
            },
    )
}

fn strip_cr_vec(v: &mut Vec<char>)
    ensures
        final(v)@ == strip_cr(old(v)@),
{
    if v.len() > 0 && v[v.len() - 1] == '\r' {
        v.pop();
    }
}

/// The lines of `s` (see `lines`).
pub fn lines_of(s: &[char]) -> (r: Vec<Vec<char>>)
    ensures
        views(r@) == lines(s@),
{
    let mut out: Vec<Vec<char>> = Vec::new();
    let mut cur: Vec<char> = Vec::new();
    let mut i: usize = 0;
    assert(s@.take(0) =~= Seq::<char>::empty());
    while i < s.len()
        invariant
            i <= s@.len(),
            split_on(s@.take(i as int), '\n').len() >= 1,
            cur@ == split_on(s@.take(i as int), '\n').last(),
            views(out@) == Seq::new(
                (split_on(s@.take(i as int), '\n').len() - 1) as nat,
                |j: int| strip_cr(split_on(s@.take(i as int), '\n')[j]),
            ),
        decreases s.len() - i,
    {
        let ghost prev = split_on(s@.take(i as int), '\n');
        let c = s[i];
        assert(s@.take(i + 1).drop_last() =~= s@.take(i as int));
        let ghost next = split_on(s@.take(i + 1), '\n');
        let ghost old_views = views(out@);
        if c == '\n' {
            let mut line = cur;
            strip_cr_vec(&mut line);
            proof {
                lemma_views_push(out@, line);
            }
            out.push(line);
            cur = Vec::new();
            assert(next == prev.push(Seq::<char>::empty()));
            assert forall|j: int| 0 <= j < next.len() - 1 implies #[trigger] views(out@)[j]
                == strip_cr(next[j]) by {
                if j < prev.len() - 1 {
                    assert(views(out@)[j] == old_views[j]);
                }
            }
            assert(views(out@) =~= Seq::new(
                (next.len() - 1) as nat,
                |j: int| strip_cr(next[j]),
            ));
        } else {
            cur.push(c);
            assert(next == prev.update(prev.len() - 1, prev.last().push(c)));
            assert(views(out@) =~= Seq::new(
                (next.len() - 1) as nat,
                |j: int| strip_cr(next[j]),
            ));
        }
        i = i + 1;
        proof {
            lemma_split_on_nonempty(s@.take(i as int), '\n');
        }
    }
    assert(s@.take(i as int) =~= s@);
    let ghost parts = split_on(s@, '\n');
    let ghost old_views = views(out@);
    if cur.len() > 0 {
        proof {
            lemma_views_push(out@, cur);
        }
        out.push(cur);
        assert forall|j: int| 0 <= j < parts.len() implies #[trigger] views(out@)[j]
            == lines(s@)[j] by {
            if j < parts.len() - 1 {
                assert(views(out@)[j] == old_views[j]);
            }
        }
        assert(views(out@) =~= lines(s@));
    } else {
        assert(views(out@) =~= lines(s@));
    }
    out
}

/// The first line of `s`, or empty when `s` has no lines
/// (what `s.lines().next().unwrap_or("")` gives).
pub open spec fn first_line(s: Seq<char>) -> Seq<char> {
    if lines(s).len() > 0 {
        lines(s)[0]
    } else {
        Seq::empty()
    }
}

/// `parts` joined with `sep` between consecutive parts.
pub open spec fn join(parts: Seq<Seq<char>>, sep: Seq<char>) -> Seq<char>
    decreases parts.len(),
{
    if parts.len() == 0 {
        Seq::empty()
    } else if parts.len() == 1 {
        parts[0]
    } else {
        join(parts.drop_last(), sep) + sep + parts.last()
    }
}

/// Appends all of `src` to `dst`.
pub fn extend_chars(dst: &mut Vec<char>, src: &[char])
    ensures
        final(dst)@ == old(dst)@ + src@,
{
    let ghost before = dst@;
    let mut k: usize = 0;
    while k < src.len()
        invariant
            k <= src@.len(),
            dst@ == before + src@.take(k as int),
        decreases src.len() - k,
    {
        dst.push(src[k]);
        k = k + 1;
        assert(dst@ =~= before + src@.take(k as int));
    }
    assert(src@.take(k as int) =~= src@);
}

/// Joins the given pieces with `sep` between them.
pub fn join_chars(parts: &Vec<Vec<char>>, sep: &[char]) -> (r: Vec<char>)
    ensures
        r@ == join(views(parts@), sep@),
{
    let mut r: Vec<char> = Vec::new();
    let mut i: usize = 0;
    while i < parts.len()
        invariant
            i <= parts@.len(),
            r@ == join(views(parts@).take(i as int), sep@),
        decreases parts.len() - i,
    {
        assert(views(parts@).take(i + 1).drop_last() =~= views(parts@).take(i as int));
        if i > 0 {
            extend_chars(&mut r, sep);
        }
        extend_chars(&mut r, parts[i].as_slice());
        i = i + 1;
        assert(r@ =~= join(views(parts@).take(i as int), sep@));
    }
    assert(views(parts@).take(i as int) =~= views(parts@));
    r
}

/// The maximal runs of non-whitespace characters of `s`
/// (what `str::split_whitespace` yields).
pub open spec fn words(s: Seq<char>) -> Seq<Seq<char>>
    decreases s.len(),
{
    if s.len() == 0 {
        Seq::empty()
    } else {
        let w = words(s.drop_last());
        if char_is_whitespace(s.last()) {
            w
        } else if s.len() >= 2 && !char_is_whitespace(s[s.len() - 2]) && w.len() > 0 {
            w.update(w.len() - 1, w.last().push(s.last()))
        } else {
            w.push(seq![s.last()])
        }
    }
}

/// Splits `s` into its whitespace-separated words.
pub fn words_of(s: &[char]) -> (r: Vec<Vec<char>>)
    ensures
        views(r@) == words(s@),
{
    let mut out: Vec<Vec<char>> = Vec::new();
    let mut i: usize = 0;
    let mut in_word = false;
    assert(s@.take(0) =~= Seq::<char>::empty());
    while i < s.len()
        invariant
            i <= s@.len(),
            views(out@) == words(s@.take(i as int)),
            in_word == (i > 0 && !char_is_whitespace(s@[i - 1])),
            in_word ==> out@.len() > 0,
        decreases s.len() - i,
    {
        let c = s[i];
        assert(s@.take(i + 1).drop_last() =~= s@.take(i as int));
        assert(s@.take(i + 1).last() == c);
        if is_whitespace(c) {
            in_word = false;
        } else if in_word {
            let last = out.len() - 1;
            let mut w = out.remove(last);
            w.push(c);
            out.push(w);
            assert(s@.take(i + 1)[i - 1] == s@[i - 1]);
            assert(views(out@) =~= words(s@.take(i + 1)));
            in_word = true;
        } else {
            let mut w: Vec<char> = Vec::new();
            w.push(c);
            out.push(w);
            assert(w@ =~= seq![c]);
            proof {
                if i >= 1 {
                    assert(s@.take(i + 1)[i - 1] == s@[i - 1]);
                }
            }
            assert(views(out@) =~= words(s@.take(i + 1)));
            in_word = true;
        }
        i = i + 1;
    }
    assert(s@.take(i as int) =~= s@);
    out
}

// ---------------------------------------------------------------------------
// Counting
// ---------------------------------------------------------------------------

/// Number of non-overlapping occurrences of a non-empty `p` in `s`,
/// scanning left to right (what `s.matches(p).count()` gives).
pub open spec fn count_matches(s: Seq<char>, p: Seq<char>) -> nat
    decreases s.len(),
{
    if p.len() == 0 || s.len() < p.len() {
        0
    } else if has_prefix(s, p) {
        1 + count_matches(s.skip(p.len() as int), p)
    } else {
        count_matches(s.drop_first(), p)
    }
}

/// Counts the non-overlapping occurrences of `p` in `s`.
pub fn count_occurrences(s: &[char], p: &[char]) -> (n: usize)
    requires
        p@.len() > 0,
    ensures
        n == count_matches(s@, p@),
{
    let mut i: usize = 0;
    let mut n: usize = 0;
    assert(s@.skip(0) =~= s@);
    while i < s.len() && p.len() <= s.len() - i
        invariant
            i <= s@.len(),
            p@.len() > 0,
            n <= i,
            n + count_matches(s@.skip(i as int), p@) == count_matches(s@, p@),
        decreases s.len() - i,
    {
        let ghost rest = s@.skip(i as int);
        if matches_at(s, p, i) {
            assert(rest.subrange(0, p@.len() as int) =~= s@.subrange(i as int, i + p@.len()));
            assert(rest.skip(p@.len() as int) =~= s@.skip(i + p@.len()));
            n = n + 1;
            i = i + p.len();
        } else {
            assert(rest.subrange(0, p@.len() as int) =~= s@.subrange(i as int, i + p@.len()));
            assert(rest.drop_first() =~= s@.skip(i + 1));
            i = i + 1;
        }
    }
    n
}

/// Number of occurrences of the character `c` in `s`.
pub open spec fn count_char(s: Seq<char>, c: char) -> nat
    decreases s.len(),
{
    if s.len() == 0 {
        0
    } else {
        count_char(s.drop_last(), c) + if s.last() == c { 1nat } else { 0nat }
    }
}


// ---------------------------------------------------------------------------
// Concatenation
// ---------------------------------------------------------------------------

/// The concatenation of `f` applied to each element of `s`, in order.
pub open spec fn concat_all<A>(s: Seq<A>, f: spec_fn(A) -> Seq<char>) -> Seq<char>
    decreases s.len(),
{
    if s.len() == 0 {
        Seq::empty()
    } else {
        concat_all(s.drop_last(), f) + f(s.last())
    }
}

/// Extending a prefix by one element appends that element's text.
pub proof fn lemma_concat_all_step<A>(s: Seq<A>, f: spec_fn(A) -> Seq<char>, i: int)
    requires
        0 <= i < s.len(),
    ensures
        concat_all(s.take(i + 1), f) == concat_all(s.take(i), f) + f(s[i]),
{
    assert(s.take(i + 1).drop_last() =~= s.take(i));
}

/// The whole sequence is its full prefix.
pub proof fn lemma_concat_all_full<A>(s: Seq<A>, f: spec_fn(A) -> Seq<char>)
    ensures
        concat_all(s.take(s.len() as int), f) == concat_all(s, f),
{
    assert(s.take(s.len() as int) =~= s);
}

// ---------------------------------------------------------------------------
// Counting characters, and UTF-8 lengths
// ---------------------------------------------------------------------------

/// How many times `c` occurs in `s`.
pub fn count_char_in(s: &[char], c: char) -> (n: usize)
    ensures
        n == count_char(s@, c),
{
    let mut n: usize = 0;
    let mut i: usize = 0;
    while i < s.len()
        invariant
            i <= s@.len(),
            n == count_char(s@.take(i as int), c),
            n <= i,
        decreases s.len() - i,
    {
        assert(s@.take(i + 1).drop_last() =~= s@.take(i as int));
        if s[i] == c {
            n = n + 1;
        }
        i = i + 1;
    }
    assert(s@.take(i as int) =~= s@);
    n
}

/// The UTF-8 encoding of a concatenation is the concatenation of the
/// encodings.
pub proof fn lemma_encode_concat(a: Seq<char>, b: Seq<char>)
    ensures
        vstd::utf8::encode_utf8(a + b) == vstd::utf8::encode_utf8(a) + vstd::utf8::encode_utf8(b),
    decreases a.len(),
{
    if a.len() == 0 {
        assert(a + b =~= b);
        assert(vstd::utf8::encode_utf8(a) =~= Seq::<u8>::empty());
        assert(Seq::<u8>::empty() + vstd::utf8::encode_utf8(b) =~= vstd::utf8::encode_utf8(b));
    } else {
        lemma_encode_concat(a.drop_first(), b);
        assert((a + b).drop_first() =~= a.drop_first() + b);
        assert((a + b)[0] == a[0]);
        let e0 = vstd::utf8::encode_scalar(a[0] as u32);
        assert(e0 + (vstd::utf8::encode_utf8(a.drop_first()) + vstd::utf8::encode_utf8(b)) =~= (e0
            + vstd::utf8::encode_utf8(a.drop_first())) + vstd::utf8::encode_utf8(b));
    }
}

/// A text has at least as many bytes as characters.
pub proof fn lemma_encode_len(a: Seq<char>)
    ensures
        a.len() <= vstd::utf8::encode_utf8(a).len(),
    decreases a.len(),
{
    if a.len() > 0 {
        lemma_encode_len(a.drop_first());
    }
}

/// A character occurs at most as often as the text is long.
pub proof fn lemma_count_char_le(s: Seq<char>, c: char)
    ensures
        count_char(s, c) <= s.len(),
    decreases s.len(),
{
    if s.len() > 0 {
        lemma_count_char_le(s.drop_last(), c);
    }
}

/// A character that is counted occurs.
pub proof fn lemma_count_char_pos(s: Seq<char>, c: char)
    requires
        count_char(s, c) > 0,
    ensures
        s.contains(c),
    decreases s.len(),
{
    if s.last() == c {
        assert(s[s.len() - 1] == c);
    } else {
        lemma_count_char_pos(s.drop_last(), c);
        let w = choose|w: int| 0 <= w < s.drop_last().len() && s.drop_last()[w] == c;
        assert(s[w] == c);
    }
}

/// A character that is not counted does not occur.
pub proof fn lemma_count_char_zero(s: Seq<char>, c: char)
    requires
        count_char(s, c) == 0,
    ensures
        !s.contains(c),
    decreases s.len(),
{
    if s.len() > 0 {
        lemma_count_char_zero(s.drop_last(), c);
        assert forall|w: int| 0 <= w < s.len() implies s[w] != c by {
            if w < s.len() - 1 {
                assert(s.drop_last()[w] == s[w]);
            }
        }
    }
}

/// The last piece of a split runs to the end of the text.
pub proof fn lemma_split_last_is_suffix(s: Seq<char>, c: char)
    ensures
        split_on(s, c).len() >= 1,
        split_on(s, c).last().len() <= s.len(),
        split_on(s, c).last() == s.subrange(s.len() - split_on(s, c).last().len(), s.len() as int),
    decreases s.len(),
{
    lemma_split_on_nonempty(s, c);
    if s.len() == 0 {
        assert(split_on(s, c).last() =~= s.subrange(0, 0));
    } else {
        lemma_split_last_is_suffix(s.drop_last(), c);
        let l = split_on(s.drop_last(), c).last();
        if s.last() != c {
            assert(l.push(s.last()) =~= s.subrange(s.len() - (l.len() + 1), s.len() as int));
        } else {
            assert(split_on(s, c).last() =~= s.subrange(s.len() as int, s.len() as int));
        }
    }
}

/// The pieces of a split are stretches of the text, and there is at most
/// one more piece than characters.
pub proof fn lemma_split_on_pieces(s: Seq<char>, c: char)
    ensures
        split_on(s, c).len() <= s.len() + 1,
        forall|j: int|
            0 <= j < split_on(s, c).len() ==> exists|a: int, b: int|
                0 <= a <= b <= s.len() && #[trigger] split_on(s, c)[j] == s.subrange(a, b),
    decreases s.len(),
{
    lemma_split_on_nonempty(s, c);
    if s.len() == 0 {
        assert(split_on(s, c)[0] =~= s.subrange(0, 0));
    } else {
        let t = s.drop_last();
        lemma_split_on_pieces(t, c);
        lemma_split_last_is_suffix(t, c);
        let r = split_on(t, c);
        assert forall|j: int| 0 <= j < split_on(s, c).len() implies exists|a: int, b: int|
            0 <= a <= b <= s.len() && #[trigger] split_on(s, c)[j] == s.subrange(a, b) by {
            if j < r.len() - 1 || (j == r.len() - 1 && s.last() == c) {
                let (a, b) = choose|a: int, b: int|
                    0 <= a <= b <= t.len() && r[j] == t.subrange(a, b);
                assert(s.subrange(a, b) =~= t.subrange(a, b));
            } else if j == r.len() - 1 {
                let a = t.len() - r.last().len();
                assert(s.subrange(a, s.len() as int) =~= r.last().push(s.last()));
            } else {
                assert(split_on(s, c)[j] =~= s.subrange(s.len() as int, s.len() as int));
            }
        }
    }
}

/// The lines of a text are stretches of it, and there are at most one more
/// of them than characters.
pub proof fn lemma_lines_pieces(s: Seq<char>)
    ensures
        lines(s).len() <= s.len() + 1,
        forall|j: int|
            0 <= j < lines(s).len() ==> exists|a: int, b: int|
                0 <= a <= b <= s.len() && #[trigger] lines(s)[j] == s.subrange(a, b),
{
    lemma_split_on_pieces(s, '\n');
    lemma_split_on_nonempty(s, '\n');
    let parts = split_on(s, '\n');
    assert forall|j: int| 0 <= j < lines(s).len() implies exists|a: int, b: int|
        0 <= a <= b <= s.len() && #[trigger] lines(s)[j] == s.subrange(a, b) by {
        let (a, b) = choose|a: int, b: int| 0 <= a <= b <= s.len() && parts[j] == s.subrange(a, b);
        if j < parts.len() - 1 && parts[j].len() > 0 && parts[j].last() == '\r' {
            assert(lines(s)[j] =~= s.subrange(a, b - 1));
        }
    }
}

/// A stretch of a text has at most as many bytes as the text.
pub proof fn lemma_encode_subrange(s: Seq<char>, a: int, b: int)
    requires
        0 <= a <= b <= s.len(),
    ensures
        vstd::utf8::encode_utf8(s.subrange(a, b)).len() <= vstd::utf8::encode_utf8(s).len(),
{
    assert(s =~= s.subrange(0, a) + s.subrange(a, b) + s.subrange(b, s.len() as int));
    lemma_encode_concat(s.subrange(0, a) + s.subrange(a, b), s.subrange(b, s.len() as int));
    lemma_encode_concat(s.subrange(0, a), s.subrange(a, b));
}

} // verus!
