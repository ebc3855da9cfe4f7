//! What file-based storage decides about what it reads: the order tasks are
//! listed in, and when a stored marker or memory file counts as empty.

use vstd::prelude::*;

use crate::task::{TaskSummary, Timestamp};
use crate::text::{owned, trim, trim_str};

verus! {

/// Whether `a` is no later than `b`.
pub open spec fn no_later(a: Timestamp, b: Timestamp) -> bool {
    a.secs < b.secs || (a.secs == b.secs && a.nanos <= b.nanos)
}

/// Whether summaries are ordered by last update, most recent first.
pub open spec fn newest_first(s: Seq<TaskSummary>) -> bool {
    forall|i: int, j: int| 0 <= i < j < s.len() ==> no_later(s[j].updated_at, s[i].updated_at)
}

/// Whether `a` is no later than `b`.
fn is_no_later(a: &Timestamp, b: &Timestamp) -> (r: bool)
    ensures
        r == no_later(*a, *b),
{
    a.secs < b.secs || (a.secs == b.secs && a.nanos <= b.nanos)
}

/// The summaries last updated at `t`.
pub open spec fn updated_at_is(t: Timestamp) -> spec_fn(TaskSummary) -> bool {
    |s: TaskSummary| s.updated_at == t
}

/// Inserting `x` before the first summary strictly older than it, in a
/// list ordered newest first, puts it after the summaries updated at the
/// same moment.
proof fn lemma_insert_after_ties(old_r: Seq<TaskSummary>, x: TaskSummary, p: int, t: Timestamp)
    requires
        0 <= p <= old_r.len(),
        newest_first(old_r),
        p < old_r.len() ==> !no_later(x.updated_at, old_r[p].updated_at),
    ensures
        old_r.insert(p, x).filter(updated_at_is(t)) == (if x.updated_at == t {
            old_r.filter(updated_at_is(t)).push(x)
        } else {
            old_r.filter(updated_at_is(t))
        }),
{
    let f = updated_at_is(t);
    let a = old_r.take(p);
    let b = old_r.skip(p);
    assert(old_r =~= a + b);
    assert(old_r.insert(p, x) =~= a.push(x) + b);
    Seq::filter_distributes_over_add(a, b, f);
    Seq::filter_distributes_over_add(a.push(x), b, f);
    a.lemma_filter_push(x, f);
    if x.updated_at == t {
        assert forall|i: int| 0 <= i < b.len() implies (|y: TaskSummary| !f(y))(#[trigger] b[i]) by {
            assert(b[i] == old_r[p + i]);
            if i > 0 {
                assert(no_later(old_r[p + i].updated_at, old_r[p].updated_at));
            }
        }
        b.lemma_all_neg_filter_empty(f);
        assert(b.filter(f) =~= Seq::<TaskSummary>::empty());
        assert(a.filter(f).push(x) + b.filter(f) =~= a.filter(f).push(x));
        assert(a.filter(f) + b.filter(f) =~= a.filter(f));
    }
}

/// Orders task summaries by last update, most recent first; summaries
/// updated at the same moment keep their order.
pub fn sort_newest_first(summaries: Vec<TaskSummary>) -> (r: Vec<TaskSummary>)
    ensures
        r@.to_multiset() == summaries@.to_multiset(),
        newest_first(r@),
        forall|t: Timestamp| #[trigger] r@.filter(updated_at_is(t)) == summaries@.filter(updated_at_is(t)),
{
    broadcast use vstd::seq_lib::group_seq_properties;
    broadcast use vstd::seq_lib::group_to_multiset_ensures;
    broadcast use vstd::multiset::group_multiset_axioms;

    let mut r: Vec<TaskSummary> = Vec::new();
    let mut rest = summaries;
    let ghost all = rest@;
    let ghost mut taken: int = 0;
    assert(all.take(0) =~= Seq::<TaskSummary>::empty());
    while rest.len() > 0
        invariant
            0 <= taken <= all.len(),
            rest@ == all.skip(taken),
            r@.to_multiset() == all.take(taken).to_multiset(),
            newest_first(r@),
            forall|t: Timestamp| #[trigger] r@.filter(updated_at_is(t)) == all.take(taken).filter(updated_at_is(t)),
        decreases rest.len(),
    {
        let x = rest.remove(0);
        assert(x == all[taken]);
        let mut p: usize = 0;
        while p < r.len() && is_no_later(&x.updated_at, &r[p].updated_at)
            invariant
                p <= r@.len(),
                forall|k: int| 0 <= k < p ==> no_later(x.updated_at, #[trigger] r@[k].updated_at),
            decreases r.len() - p,
        {
            p = p + 1;
        }
        let ghost old_r = r@;
        r.insert(p, x);
        proof {
            assert forall|t: Timestamp| #[trigger] r@.filter(updated_at_is(t)) == all.take(taken + 1).filter(updated_at_is(t)) by {
                lemma_insert_after_ties(old_r, x, p as int, t);
                all.take(taken).lemma_filter_push(x, updated_at_is(t));
                assert(all.take(taken + 1) =~= all.take(taken).push(x));
            }
            assert(all.take(taken + 1) =~= all.take(taken).push(x));
            assert(r@.remove(p as int) =~= old_r);
            assert(r@[p as int] == x);
            r@.to_multiset_ensures();
            vstd::seq_lib::to_multiset_remove(r@, p as int);
            assert(r@.contains(x));
            assert(r@.remove(p as int).to_multiset() =~= r@.to_multiset().remove(x));
            assert(r@.to_multiset().count(x) > 0);
            assert(r@.to_multiset() =~= old_r.to_multiset().insert(x));
            vstd::seq_lib::to_multiset_build(all.take(taken), x);
            assert(all.take(taken + 1).to_multiset() =~= all.take(taken).to_multiset().insert(x));
            assert forall|i: int, j: int| 0 <= i < j < r@.len() implies no_later(
                r@[j].updated_at,
                r@[i].updated_at,
            ) by {
                if j < p {
                } else if j == p {
                } else if i < p {
                    if p < old_r.len() {
                        assert(!no_later(x.updated_at, old_r[p as int].updated_at));
                    }
                } else if i == p {
                    assert(!no_later(x.updated_at, old_r[p as int].updated_at));
                    assert(no_later(old_r[j - 1].updated_at, old_r[p as int].updated_at) || j - 1 == p);
                } else {
                }
            }
            taken = taken + 1;
            assert(rest@ =~= all.skip(taken));
        }
    }
    assert(all.take(taken) =~= all);
    r
}

/// The task id a current-task marker holds: its trimmed content, unless
/// that is empty.
pub fn current_id_of(content: &str) -> (r: Option<String>)
    ensures
        match r {
            Some(id) => id@ == trim(content@) && id@.len() > 0,
            None => trim(content@).len() == 0,
        },
{
    let id = trim_str(content);
    if id.unicode_len() == 0 {
        None
    } else {
        Some(id)
    }
}

/// The memory a memory file holds: its content, unless it is only
/// whitespace.
pub fn memory_of(content: &str) -> (r: Option<String>)
    ensures
        match r {
            Some(m) => m@ == content@ && trim(content@).len() > 0,
            None => trim(content@).len() == 0,
        },
{
    let t = trim_str(content);
    if t.unicode_len() == 0 {
        None
    } else {
        Some(owned(content))
    }
}

} // verus!
