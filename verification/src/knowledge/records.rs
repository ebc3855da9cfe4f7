//! Record ids and query results of the knowledge database: the string
//! handling around the database calls.

use vstd::prelude::*;

use crate::knowledge::ontology::nodes::code::{
    ConstantEntity, EnumEntity, FunctionEntity, ImplEntity, StructEntity, TraitEntity,
};
use crate::llm::provider::strip_trailing;
use crate::text::{
    chars_of, contains_char, copy_range, find, find_spec, owned, rfind, rfind_spec,
    string_from_chars,
};

verus! {

broadcast use vstd::string::group_string_axioms;

/// Extended statistics for the rich ontology.
#[derive(Debug, Clone, Copy, PartialEq, Eq, Structural)]
pub struct ExtendedIndexStats {
    pub files: usize,
    pub functions: usize,
    pub structs: usize,
    pub traits: usize,
    pub impls: usize,
    pub enums: usize,
    pub constants: usize,
    pub chunks: usize,
    pub calls: usize,
    pub implements: usize,
}

impl Default for ExtendedIndexStats {
    fn default() -> (s: Self)
        ensures
            s == (ExtendedIndexStats {
                files: 0,
                functions: 0,
                structs: 0,
                traits: 0,
                impls: 0,
                enums: 0,
                constants: 0,
                chunks: 0,
                calls: 0,
                implements: 0,
            }),
    {
        ExtendedIndexStats {
            files: 0,
            functions: 0,
            structs: 0,
            traits: 0,
            impls: 0,
            enums: 0,
            constants: 0,
            chunks: 0,
            calls: 0,
            implements: 0,
        }
    }
}

/// A count the database reported (`count` of a `GROUP ALL` query), as a
/// size: absent counts are zero; the number is taken as `as usize` takes it.
pub fn count_of(r: Option<i64>) -> (n: usize)
    ensures
        match r {
            Some(c) => n == c as usize,
            None => n == 0,
        },
{
    match r {
        Some(c) => c as usize,
        None => 0,
    }
}

/// The escaped form of a record id: when the part after the first ':'
/// itself holds ':', '/' or '.', it is wrapped in backticks.
pub open spec fn escaped_record_id(id: Seq<char>) -> Seq<char> {
    match find_spec(id, seq![':']) {
        Some(p) => {
            let part = id.subrange(p + 1, id.len() as int);
            if part.contains(':') || part.contains('/') || part.contains('.') {
                id.subrange(0, p) + seq![':', '`'] + part + seq!['`']
            } else {
                id
            }
        },
        None => id,
    }
}

/// Escapes a record id for use in a query.
pub fn escape_record_id(id: &str) -> (r: String)
    ensures
        r@ == escaped_record_id(id@),
{
    let cs = chars_of(id);
    let colon = vec![':'];
    assert(colon@ =~= seq![':']);
    match find(cs.as_slice(), colon.as_slice()) {
        Some(p) => {
            proof {
                crate::text::lemma_found_occurs(cs@, colon@, 0);
            }
            let n = cs.len();
            let part = copy_range(cs.as_slice(), p + 1, n);
            if contains_char(part.as_slice(), ':') || contains_char(part.as_slice(), '/')
                || contains_char(part.as_slice(), '.') {
                let mut out = copy_range(cs.as_slice(), 0, p);
                out.push(':');
                out.push('`');
                crate::text::extend_chars(&mut out, part.as_slice());
                out.push('`');
                assert(out@ =~= cs@.subrange(0, p as int) + seq![':', '`'] + part@ + seq!['`']);
                string_from_chars(out.as_slice())
            } else {
                owned(id)
            }
        },
        None => owned(id),
    }
}

/// The last ':'-separated segment of an id (all of it without ':').
pub open spec fn last_segment(id: Seq<char>) -> Seq<char> {
    match rfind_spec(id, seq![':']) {
        Some(p) => id.subrange(p + 1, id.len() as int),
        None => id,
    }
}

/// The last ':'-separated segment of an id: the name in
/// "function:path:name".
pub fn last_segment_of(id: &str) -> (r: String)
    ensures
        r@ == last_segment(id@),
{
    let cs = chars_of(id);
    let colon = vec![':'];
    assert(colon@ =~= seq![':']);
    match rfind(cs.as_slice(), colon.as_slice()) {
        Some(p) => {
            proof {
                crate::text::lemma_found_occurs(cs@, colon@, cs@.len() as int);
            }
            let n = cs.len();
            let rest = copy_range(cs.as_slice(), p + 1, n);
            string_from_chars(rest.as_slice())
        },
        None => owned(id),
    }
}

/// `s` without its leading occurrences of `c`.
pub open spec fn strip_leading(s: Seq<char>, c: char) -> Seq<char>
    decreases s.len(),
{
    if s.len() > 0 && s[0] == c {
        strip_leading(s.drop_first(), c)
    } else {
        s
    }
}

/// The name an entity id refers to: its last segment without the
/// backticks that escaping adds.
pub open spec fn entity_name(id: Seq<char>) -> Seq<char> {
    strip_leading(strip_trailing(last_segment(id), '`'), '`')
}

/// The name an entity id refers to (see `entity_name`).
pub fn entity_name_of(id: &str) -> (r: String)
    ensures
        r@ == entity_name(id@),
{
    let seg = last_segment_of(id);
    let cs = chars_of(seg.as_str());
    let mut e = cs.len();
    assert(cs@.take(e as int) =~= cs@);
    while e > 0 && cs[e - 1] == '`'
        invariant
            e <= cs@.len(),
            strip_trailing(cs@, '`') == strip_trailing(cs@.take(e as int), '`'),
        decreases e,
    {
        assert(cs@.take(e as int).drop_last() =~= cs@.take(e - 1));
        e = e - 1;
    }
    let ghost t = cs@.take(e as int);
    assert(strip_trailing(cs@, '`') == t);
    let mut b: usize = 0;
    assert(t.subrange(0, t.len() as int) =~= t);
    while b < e && cs[b] == '`'
        invariant
            b <= e <= cs@.len(),
            t == cs@.take(e as int),
            strip_leading(t, '`') == strip_leading(t.subrange(b as int, e as int), '`'),
        decreases e - b,
    {
        assert(t.subrange(b as int, e as int).drop_first() =~= t.subrange(b + 1, e as int));
        b = b + 1;
    }
    let out = copy_range(cs.as_slice(), b, e);
    assert(out@ =~= t.subrange(b as int, e as int));
    string_from_chars(out.as_slice())
}

/// An entity's record id, or `table:key` when it has none.
pub open spec fn record_id_or(id: Option<String>, table: Seq<char>, key: Seq<char>) -> Seq<char> {
    match id {
        Some(i) => i@,
        None => table + seq![':'] + key,
    }
}

/// An entity's record id, or `table:key` when it has none.
fn record_id_or_else(id: &Option<String>, table: &str, key: &str) -> (r: String)
    ensures
        r@ == record_id_or(*id, table@, key@),
{
    match id {
        Some(i) => i.clone(),
        None => {
            let mut r = owned(table);
            r.append(":");
            proof {
                reveal_strlit(":");
            }
            r.append(key);
            assert(r@ =~= table@ + seq![':'] + key@);
            r
        },
    }
}

/// The record id of a stored function entity.
pub fn function_record_id(f: &FunctionEntity) -> (r: String)
    ensures
        r@ == record_id_or(f.id, "fn_node"@, f.qualified_name@),
{
    record_id_or_else(&f.id, "fn_node", f.qualified_name.as_str())
}

/// The record id of a stored struct entity.
pub fn struct_record_id(s: &StructEntity) -> (r: String)
    ensures
        r@ == record_id_or(s.id, "struct_node"@, s.qualified_name@),
{
    record_id_or_else(&s.id, "struct_node", s.qualified_name.as_str())
}

/// The record id of a stored trait entity.
pub fn trait_record_id(t: &TraitEntity) -> (r: String)
    ensures
        r@ == record_id_or(t.id, "trait_node"@, t.qualified_name@),
{
    record_id_or_else(&t.id, "trait_node", t.qualified_name.as_str())
}

/// The record id of a stored enum entity.
pub fn enum_record_id(e: &EnumEntity) -> (r: String)
    ensures
        r@ == record_id_or(e.id, "enum_node"@, e.qualified_name@),
{
    record_id_or_else(&e.id, "enum_node", e.qualified_name.as_str())
}

/// The record id of a stored constant entity.
pub fn const_record_id(c: &ConstantEntity) -> (r: String)
    ensures
        r@ == record_id_or(c.id, "const_node"@, c.qualified_name@),
{
    record_id_or_else(&c.id, "const_node", c.qualified_name.as_str())
}

/// The key of an impl without an id: "Trait_for_Type", or the type.
pub open spec fn impl_key(i: ImplEntity) -> Seq<char> {
    match i.trait_name {
        Some(t) => t@ + "_for_"@ + i.target_type@,
        None => i.target_type@,
    }
}

/// The record id of a stored impl entity.
pub fn impl_record_id(i: &ImplEntity) -> (r: String)
    ensures
        r@ == record_id_or(i.id, "impl_node"@, impl_key(*i)),
{
    let key = match &i.trait_name {
        Some(t) => {
            let mut k = t.clone();
            k.append("_for_");
            k.append(i.target_type.as_str());
            k
        },
        None => i.target_type.clone(),
    };
    record_id_or_else(&i.id, "impl_node", key.as_str())
}

/// Whether `a` comes strictly before `b` in the order `String` compares
/// by: lexicographic over code points.
pub open spec fn lex_lt(a: Seq<char>, b: Seq<char>) -> bool
    decreases a.len(),
{
    if a.len() == 0 {
        b.len() > 0
    } else if b.len() == 0 {
        false
    } else if a[0] != b[0] {
        (a[0] as int) < (b[0] as int)
    } else {
        lex_lt(a.drop_first(), b.drop_first())
    }
}

/// The order is strict and total.
pub proof fn lemma_lex_total(a: Seq<char>, b: Seq<char>)
    ensures
        !(lex_lt(a, b) && lex_lt(b, a)),
        a != b ==> lex_lt(a, b) || lex_lt(b, a),
        !lex_lt(a, a),
    decreases a.len(),
{
    if a.len() == 0 && b.len() == 0 {
        assert(a =~= b);
    } else if a.len() > 0 && b.len() > 0 {
        if a[0] == b[0] {
            lemma_lex_total(a.drop_first(), b.drop_first());
            if a.drop_first() == b.drop_first() {
                assert(a =~= b) by {
                    assert forall|k: int| 0 <= k < a.len() implies a[k] == b[k] by {
                        if k > 0 {
                            assert(a.drop_first()[k - 1] == b.drop_first()[k - 1]);
                        }
                    }
                }
            }
        }
    }
    if a.len() > 0 {
        lemma_lex_total(a.drop_first(), a.drop_first());
    }
}

/// The order is transitive.
pub proof fn lemma_lex_trans(a: Seq<char>, b: Seq<char>, c: Seq<char>)
    requires
        lex_lt(a, b),
        lex_lt(b, c),
    ensures
        lex_lt(a, c),
    decreases a.len(),
{
    if a.len() > 0 && b.len() > 0 && c.len() > 0 && a[0] == b[0] && b[0] == c[0] {
        lemma_lex_trans(a.drop_first(), b.drop_first(), c.drop_first());
    }
}

/// Whether two strings compare equal, or which is smaller.
fn lex_compare(a: &str, b: &str) -> (r: (bool, bool))
    ensures
        r.0 == lex_lt(a@, b@),
        r.1 == (a@ == b@),
{
    let x = chars_of(a);
    let y = chars_of(b);
    let mut i: usize = 0;
    assert(x@.skip(0) =~= x@);
    assert(y@.skip(0) =~= y@);
    while i < x.len() && i < y.len() && x[i] == y[i]
        invariant
            i <= x@.len(),
            i <= y@.len(),
            x@.take(i as int) == y@.take(i as int),
            lex_lt(a@, b@) == lex_lt(x@.skip(i as int), y@.skip(i as int)),
            x@ == a@,
            y@ == b@,
        decreases x.len() - i,
    {
        assert(x@.skip(i as int).drop_first() =~= x@.skip(i + 1));
        assert(y@.skip(i as int).drop_first() =~= y@.skip(i + 1));
        assert(x@.take(i + 1) =~= x@.take(i as int).push(x@[i as int]));
        assert(y@.take(i + 1) =~= y@.take(i as int).push(y@[i as int]));
        i = i + 1;
    }
    let eq = i == x.len() && i == y.len();
    if eq {
        assert(x@ =~= x@.take(i as int));
        assert(y@ =~= y@.take(i as int));
    } else if i < x.len() && i < y.len() {
        assert(x@[i as int] != y@[i as int]);
    } else if i == x.len() {
        assert(x@ =~= x@.take(i as int));
        assert(y@.take(i as int) != y@) by {
            assert(y@.take(i as int).len() < y@.len());
        }
    } else {
        assert(y@ =~= y@.take(i as int));
        assert(x@.take(i as int).len() < x@.len());
    }
    let lt = if i < x.len() && i < y.len() {
        x[i] < y[i]
    } else {
        i == x.len() && i < y.len()
    };
    (lt, eq)
}

/// The views of some strings.
pub open spec fn string_views(v: Seq<String>) -> Seq<Seq<char>> {
    v.map_values(|s: String| s@)
}

/// Whether names are in strictly increasing order (hence distinct).
pub open spec fn strictly_sorted(v: Seq<Seq<char>>) -> bool {
    forall|i: int, j: int| 0 <= i < j < v.len() ==> lex_lt(v[i], v[j])
}

/// The names sorted, each once (`sort` then `dedup`).
pub fn sorted_unique(names: Vec<String>) -> (r: Vec<String>)
    ensures
        strictly_sorted(string_views(r@)),
        forall|x: Seq<char>| string_views(r@).contains(x) <==> string_views(names@).contains(x),
{
    let ghost all = string_views(names@);
    let n = names.len();
    let mut rest = names;
    let mut out: Vec<String> = Vec::new();
    let mut i: usize = 0;
    while rest.len() > 0
        invariant
            i + rest@.len() == all.len(),
            all.len() == n,
            string_views(rest@) == all.skip(i as int),
            strictly_sorted(string_views(out@)),
            forall|x: Seq<char>| string_views(out@).contains(x) <==> all.take(i as int).contains(x),
        decreases rest.len(),
    {
        let ghost before = string_views(out@);
        let ghost old_rest = rest@;
        let s = rest.remove(0);
        assert(string_views(rest@) =~= all.skip(i + 1)) by {
            assert(string_views(old_rest) == all.skip(i as int));
            assert(all.skip(i as int).drop_first() =~= all.skip(i + 1));
            assert(string_views(rest@) =~= string_views(old_rest).drop_first());
        }
        assert(s@ == all[i as int]) by {
            assert(string_views(old_rest)[0] == s@);
        }
        let mut k: usize = 0;
        while k < out.len()
            invariant
                k <= out@.len(),
                before == string_views(out@),
                forall|j: int| 0 <= j < k ==> lex_lt(#[trigger] before[j], s@),
            ensures
                k <= out@.len(),
                forall|j: int| 0 <= j < k ==> lex_lt(#[trigger] before[j], s@),
                k < out@.len() ==> !lex_lt(before[k as int], s@),
            decreases out.len() - k,
        {
            let (lt, _) = lex_compare(out[k].as_str(), s.as_str());
            if !lt {
                break;
            }
            k = k + 1;
        }
        let mut dup = false;
        if k < out.len() {
            let (_, eq) = lex_compare(out[k].as_str(), s.as_str());
            dup = eq;
        }
        proof {
            assert(all.take(i + 1) =~= all.take(i as int).push(s@));
        }
        if !dup {
            proof {
                if k < before.len() {
                    lemma_lex_total(before[k as int], s@);
                }
            }
            out.insert(k, s);
            let ghost after = string_views(out@);
            assert(after =~= before.subrange(0, k as int).push(s@ ) + before.subrange(k as int, before.len() as int));
            assert(after.len() == before.len() + 1);
            assert forall|w: int| 0 <= w < k implies after[w] == before[w] by {}
            assert(after[k as int] == s@);
            assert forall|w: int| k < w < after.len() implies after[w] == before[w - 1] by {}
            assert forall|a: int, b: int| 0 <= a < b < after.len() implies lex_lt(after[a], after[b]) by {
                if a < k && b < k {
                    assert(lex_lt(before[a], before[b]));
                } else if a < k && b == k {
                } else if a < k && b > k {
                    assert(lex_lt(before[a], before[b - 1]));
                } else if a == k && b > k {
                    lemma_lex_total(before[k as int], s@);
                    if b - 1 > k {
                        assert(lex_lt(before[k as int], before[b - 1]));
                        lemma_lex_trans(s@, before[k as int], before[b - 1]);
                    }
                } else {
                    assert(lex_lt(before[a - 1], before[b - 1]));
                }
            }
            assert forall|x: Seq<char>| after.contains(x) <==> all.take(i + 1).contains(x) by {
                let t = all.take(i as int);
                let tp = t.push(s@);
                assert(all.take(i + 1) =~= tp);
                if after.contains(x) {
                    let w = choose|w: int| 0 <= w < after.len() && after[w] == x;
                    if w == k {
                        assert(tp[t.len() as int] == x);
                    } else {
                        let v = if w < k { w } else { w - 1 };
                        assert(before[v] == x);
                        assert(before.contains(x));
                        assert(t.contains(x));
                        let u = choose|u: int| 0 <= u < t.len() && t[u] == x;
                        assert(tp[u] == x);
                    }
                    assert(tp.contains(x));
                }
                if tp.contains(x) {
                    let w = choose|w: int| 0 <= w < tp.len() && tp[w] == x;
                    if w == t.len() {
                        assert(after[k as int] == x);
                    } else {
                        assert(t[w] == x);
                        assert(t.contains(x));
                        assert(before.contains(x));
                        let u = choose|u: int| 0 <= u < before.len() && before[u] == x;
                        if u < k {
                            assert(after[u] == x);
                        } else {
                            assert(after[u + 1] == x);
                        }
                    }
                    assert(after.contains(x));
                }
            }
        } else {
            proof {
                assert(before.contains(s@)) by {
                    assert(before[k as int] == s@);
                }
            }
        }
        i = i + 1;
    }
    assert(all.take(i as int) =~= all);
    out
}

} // verus!
