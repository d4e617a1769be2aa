//! Sorted views of a store.
use vstd::prelude::*;
use std::collections::HashMap;
use vstd::std_specs::hash::spec_hash_map_iter;
use vstd::std_specs::iter::IteratorSpec;
use crate::priority::Priority;
use crate::sortby::SortBy;
use crate::store::store_wf;
use crate::todo::Todo;

verus! {

broadcast use vstd::std_specs::hash::group_hash_axioms;

/// The key that `by` sorts on, ascending; `now` decides which tasks are
/// overdue. A task without a due date sorts after every due date.
pub open spec fn sort_key(t: Todo, by: SortBy, now: i64) -> int {
    match by {
        SortBy::Priority => t.priority.spec_rank(),
        SortBy::Status => t.status.spec_rank(),
        SortBy::Created => t.created_at as int,
        SortBy::DueDate => match t.due_date {
            Some(d) => d as int,
            None => i64::MAX as int + 1,
        },
        SortBy::Overdue => if t.spec_overdue_at(now) {
            0
        } else {
            1
        },
    }
}

/// `s` is in ascending order of the key of `by`.
pub open spec fn sorted_by(s: Seq<&Todo>, by: SortBy, now: i64) -> bool {
    forall|i: int, j: int|
        0 <= i < j < s.len() ==> sort_key(*#[trigger] s[i], by, now) <= sort_key(
            *#[trigger] s[j],
            by,
            now,
        )
}

/// `s` holds each task of `m` once, and nothing else.
pub open spec fn lists_store(s: Seq<&Todo>, m: Map<u128, Todo>) -> bool {
    &&& s.len() == m.dom().len()
    &&& forall|i: int|
        0 <= i < s.len() ==> #[trigger] m.contains_key(s[i].id) && m[s[i].id] == *s[i]
    &&& forall|i: int, j: int|
        0 <= i < j < s.len() ==> (#[trigger] s[i]).id != (#[trigger] s[j]).id
    &&& forall|k: u128| #[trigger]
        m.contains_key(k) ==> exists|i: int| 0 <= i < s.len() && s[i].id == k
}

/// The tasks whose key under `by` is `k`.
pub open spec fn with_key<'a>(by: SortBy, now: i64, k: int) -> spec_fn(&'a Todo) -> bool {
    |t: &'a Todo| sort_key(*t, by, now) == k
}

/// Filtering keeps nothing of a sequence none of whose items passes.
proof fn filter_none<'a>(s: Seq<&'a Todo>, pred: spec_fn(&'a Todo) -> bool)
    requires
        forall|i: int| 0 <= i < s.len() ==> !pred(#[trigger] s[i]),
    ensures
        s.filter(pred) == Seq::<&'a Todo>::empty(),
    decreases s.len(),
{
    if s.len() == 0 {
        reveal(Seq::filter);
        assert(s.filter(pred) =~= Seq::<&Todo>::empty());
    } else {
        let init = s.drop_last();
        assert(forall|i: int| 0 <= i < init.len() ==> init[i] == s[i]);
        filter_none(init, pred);
        assert(init.push(s.last()) =~= s);
        init.lemma_filter_push(s.last(), pred);
    }
}

/// The items of `s`, inserted `x` at `p`, that pass `pred`: those of `s`,
/// with `x` after them, given that the items of `s` up to `p` come before
/// and none after `p` passes.
proof fn filter_insert<'a>(s: Seq<&'a Todo>, p: int, x: &'a Todo, pred: spec_fn(&'a Todo) -> bool)
    requires
        0 <= p <= s.len(),
        forall|i: int| p <= i < s.len() ==> !pred(#[trigger] s[i]),
    ensures
        s.insert(p, x).filter(pred) == if pred(x) {
            s.filter(pred).push(x)
        } else {
            s.filter(pred)
        },
{
    let a = s.take(p);
    let b = s.skip(p);
    assert(s =~= a + b);
    assert(s.insert(p, x) =~= a.push(x) + b);
    filter_none(b, pred);
    Seq::filter_distributes_over_add(a, b, pred);
    Seq::filter_distributes_over_add(a.push(x), b, pred);
    a.lemma_filter_push(x, pred);
    assert(b.filter(pred) == Seq::<&Todo>::empty());
    assert(a.filter(pred) + Seq::<&Todo>::empty() =~= a.filter(pred));
    assert(a.filter(pred).push(x) + Seq::<&Todo>::empty() =~= a.filter(pred).push(x));
}

pub fn key_of(t: &Todo, by: SortBy, now: i64) -> (k: i128)
    ensures
        k as int == sort_key(*t, by, now),
{
    match by {
        SortBy::Priority => t.priority.rank() as i128,
        SortBy::Status => t.status.rank() as i128,
        SortBy::Created => t.created_at as i128,
        SortBy::DueDate => match t.due_date {
            Some(d) => d as i128,
            None => i64::MAX as i128 + 1,
        },
        SortBy::Overdue => if t.is_overdue_at(now) {
            0
        } else {
            1
        },
    }
}

/// Inserts `x` into the sorted `out`, after every task whose key is not
/// greater than its own.
fn insert_sorted<'a>(out: &mut Vec<&'a Todo>, x: &'a Todo, by: SortBy, now: i64)
    requires
        sorted_by(old(out)@, by, now),
    ensures
        sorted_by(final(out)@, by, now),
        final(out)@.to_multiset() == old(out)@.to_multiset().insert(x),
        forall|k: int|
            #[trigger] final(out)@.filter(with_key(by, now, k)) == if sort_key(*x, by, now) == k {
                old(out)@.filter(with_key(by, now, k)).push(x)
            } else {
                old(out)@.filter(with_key(by, now, k))
            },
{
    let kx = key_of(x, by, now);
    let mut p: usize = 0;
    while p < out.len() && key_of(out[p], by, now) <= kx
        invariant
            p <= out@.len(),
            out@ == old(out)@,
            sorted_by(out@, by, now),
            forall|i: int| 0 <= i < p ==> sort_key(*out@[i], by, now) <= kx,
        decreases out@.len() - p,
    {
        p = p + 1;
    }
    let ghost s = out@;
    out.insert(p, x);
    proof {
        vstd::seq_lib::to_multiset_insert(s, p as int, x);
        assert forall|k: int|
            #[trigger] out@.filter(with_key(by, now, k)) == if sort_key(*x, by, now) == k {
                s.filter(with_key(by, now, k)).push(x)
            } else {
                s.filter(with_key(by, now, k))
            } by {
            if p < s.len() {
                assert(sort_key(*s[p as int], by, now) > kx);
            }
            assert forall|i: int| p <= i < s.len() implies !(with_key(by, now, k))(
                #[trigger] s[i],
            ) || sort_key(*x, by, now) != k by {
                if p < i {
                    assert(sort_key(*s[p as int], by, now) <= sort_key(*s[i], by, now));
                }
            }
            if sort_key(*x, by, now) == k {
                filter_insert(s, p as int, x, with_key(by, now, k));
            } else {
                let pred = with_key(by, now, k);
                let a = s.take(p as int);
                let b = s.skip(p as int);
                assert(s =~= a + b);
                assert(out@ =~= a.push(x) + b);
                Seq::filter_distributes_over_add(a, b, pred);
                Seq::filter_distributes_over_add(a.push(x), b, pred);
                a.lemma_filter_push(x, pred);
            }
        }
    }
    assert forall|i: int, j: int| 0 <= i < j < out@.len() implies sort_key(
        *#[trigger] out@[i],
        by,
        now,
    ) <= sort_key(*#[trigger] out@[j], by, now) by {
        if j < p {
            assert(out@[i] == s[i] && out@[j] == s[j]);
        } else if j == p {
            assert(out@[i] == s[i]);
        } else if i == p {
            assert(out@[j] == s[j - 1]);
            assert(sort_key(*s[p as int], by, now) > kx);
        } else if i < p {
            assert(out@[i] == s[i] && out@[j] == s[j - 1]);
        } else {
            assert(out@[i] == s[i - 1] && out@[j] == s[j - 1]);
        }
    }
}

/// The tasks of `v`, in ascending order of the key of `by`.
fn sort_refs<'a>(v: &Vec<&'a Todo>, by: SortBy, now: i64) -> (r: Vec<&'a Todo>)
    ensures
        sorted_by(r@, by, now),
        r@.to_multiset() == v@.to_multiset(),
        forall|k: int| #[trigger] r@.filter(with_key(by, now, k)) == v@.filter(with_key(by, now, k)),
{
    let mut out: Vec<&Todo> = Vec::new();
    let mut n: usize = 0;
    assert(out@ =~= v@.take(0));
    assert forall|k: int| #[trigger] out@.filter(with_key(by, now, k)) == v@.take(0).filter(
        with_key(by, now, k),
    ) by {}
    while n < v.len()
        invariant
            n <= v@.len(),
            sorted_by(out@, by, now),
            out@.to_multiset() == v@.take(n as int).to_multiset(),
            forall|k: int|
                #[trigger] out@.filter(with_key(by, now, k)) == v@.take(n as int).filter(
                    with_key(by, now, k),
                ),
        decreases v@.len() - n,
    {
        insert_sorted(&mut out, v[n], by, now);
        proof {
            assert forall|k: int|
                #[trigger] out@.filter(with_key(by, now, k)) == v@.take(n + 1).filter(
                    with_key(by, now, k),
                ) by {
                assert(v@.take(n + 1) == v@.take(n as int).push(v@[n as int]));
                v@.take(n as int).lemma_filter_push(v@[n as int], with_key(by, now, k));
            }
            assert(v@.take(n + 1) == v@.take(n as int).push(v@[n as int]));
            vstd::seq_lib::to_multiset_build(v@.take(n as int), v@[n as int]);
        }
        n = n + 1;
    }
    assert(v@.take(n as int) == v@);
    out
}

/// The tasks of the store, in the order in which the map yields them.
pub(crate) fn collect_refs<'a>(todos: &'a HashMap<u128, Todo>) -> (r: Vec<&'a Todo>)
    requires
        store_wf(todos@),
    ensures
        lists_store(r@, todos@),
        r@ == spec_hash_map_iter(todos).remaining().map_values(|p: (&u128, &Todo)| p.1),
{
    let ghost m = todos@;
    let ghost items = spec_hash_map_iter(todos).remaining();
    let mut out: Vec<&Todo> = Vec::new();
    let iter = todos.iter();
    assert(items.no_duplicates());
    for (k, t) in it: iter
        invariant
            m == todos@,
            it.seq() == items,
            out@.len() == it.index(),
            forall|i: int| 0 <= i < out@.len() ==> out@[i] == items[i].1,
    {
        out.push(t);
    }
    proof {
        assert(out@ =~= spec_hash_map_iter(todos).remaining().map_values(|p: (&u128, &Todo)| p.1));
        assert forall|i: int| 0 <= i < out@.len() implies #[trigger] m.contains_key(out@[i].id)
            && m[out@[i].id] == *out@[i] by {
            assert(m.contains_key(*items[i].0) && m[*items[i].0] == *items[i].1);
        }
        assert forall|i: int, j: int| 0 <= i < j < out@.len() implies (#[trigger] out@[i]).id
            != (#[trigger] out@[j]).id by {
            assert(m.contains_key(*items[i].0) && m[*items[i].0] == *items[i].1);
            assert(m.contains_key(*items[j].0) && m[*items[j].0] == *items[j].1);
            assert(items[i] != items[j]);
        }
        assert forall|k: u128| #[trigger] m.contains_key(k) implies exists|i: int|
            0 <= i < out@.len() && out@[i].id == k by {
            assert(items.contains((&k, &m[k])));
            let j = choose|j: int| 0 <= j < items.len() && items[j] == (&k, &m[k]);
            assert(out@[j].id == k);
        }
    }
    out
}

/// A rearrangement of a listing of the store is a listing of the store.
proof fn lists_store_permuted(v: Seq<&Todo>, r: Seq<&Todo>, m: Map<u128, Todo>)
    requires
        lists_store(v, m),
        r.to_multiset() == v.to_multiset(),
    ensures
        lists_store(r, m),
{
    broadcast use vstd::seq_lib::group_to_multiset_ensures;

    assert(v.no_duplicates()) by {
        assert forall|i: int, j: int| 0 <= i < v.len() && 0 <= j < v.len() && i != j implies v[i]
            != v[j] by {
            if i < j {
                assert(v[i].id != v[j].id);
            } else {
                assert(v[j].id != v[i].id);
            }
        }
    }
    v.lemma_multiset_has_no_duplicates();
    r.lemma_multiset_has_no_duplicates_conv();
    assert(r.len() == v.len()) by {
        vstd::seq_lib::to_multiset_len(r);
        vstd::seq_lib::to_multiset_len(v);
    }
    assert forall|i: int| 0 <= i < r.len() implies #[trigger] m.contains_key(r[i].id) && m[r[i].id]
        == *r[i] by {
        vstd::seq_lib::to_multiset_contains(r, r[i]);
        vstd::seq_lib::to_multiset_contains(v, r[i]);
        let j = choose|j: int| 0 <= j < v.len() && v[j] == r[i];
        assert(m.contains_key(v[j].id));
    }
    assert forall|i: int, j: int| 0 <= i < j < r.len() implies (#[trigger] r[i]).id != (
    #[trigger] r[j]).id by {
        assert(m.contains_key(r[i].id) && m[r[i].id] == *r[i]);
        assert(m.contains_key(r[j].id) && m[r[j].id] == *r[j]);
    }
    assert forall|k: u128| #[trigger] m.contains_key(k) implies exists|i: int|
        0 <= i < r.len() && r[i].id == k by {
        let j = choose|j: int| 0 <= j < v.len() && v[j].id == k;
        vstd::seq_lib::to_multiset_contains(v, v[j]);
        vstd::seq_lib::to_multiset_contains(r, v[j]);
        let i = choose|i: int| 0 <= i < r.len() && r[i] == v[j];
    }
}

/// Every task of the store, in ascending order of the key of `sort_by`;
/// `now` decides which tasks are overdue. Tasks with equal keys keep the
/// order in which the map yields them.
pub fn retrieve_todos_sorted<'a>(todos: &'a HashMap<u128, Todo>, sort_by: SortBy, now: i64) -> (r:
    Vec<&'a Todo>)
    requires
        store_wf(todos@),
    ensures
        lists_store(r@, todos@),
        sorted_by(r@, sort_by, now),
        forall|k: int|
            #[trigger] r@.filter(with_key(sort_by, now, k)) == spec_hash_map_iter(
                todos,
            ).remaining().map_values(|p: (&u128, &Todo)| p.1).filter(with_key(sort_by, now, k)),
{
    let all = collect_refs(todos);
    let r = sort_refs(&all, sort_by, now);
    proof {
        lists_store_permuted(all@, r@, todos@);
    }
    r
}

/// In a list sorted by priority of three tasks whose priorities differ,
/// the tasks come as High, Medium, Low.
pub proof fn priority_sort_order(s: Seq<&Todo>, now: i64)
    requires
        sorted_by(s, SortBy::Priority, now),
        s.len() == 3,
        s[0].priority != s[1].priority,
        s[0].priority != s[2].priority,
        s[1].priority != s[2].priority,
    ensures
        s[0].priority == Priority::High,
        s[1].priority == Priority::Medium,
        s[2].priority == Priority::Low,
{
    assert(sort_key(*s[0], SortBy::Priority, now) <= sort_key(*s[1], SortBy::Priority, now));
    assert(sort_key(*s[1], SortBy::Priority, now) <= sort_key(*s[2], SortBy::Priority, now));
}

/// In a list sorted by due date, every task without a due date comes after
/// every task with one.
pub proof fn undated_sort_last(s: Seq<&Todo>, now: i64)
    requires
        sorted_by(s, SortBy::DueDate, now),
    ensures
        forall|i: int, j: int|
            0 <= i < s.len() && 0 <= j < s.len() && (#[trigger] s[i]).due_date is None && (
            #[trigger] s[j]).due_date is Some ==> j < i,
{
    assert forall|i: int, j: int|
        0 <= i < s.len() && 0 <= j < s.len() && (#[trigger] s[i]).due_date is None && (
        #[trigger] s[j]).due_date is Some implies j < i by {
        if i < j {
            assert(sort_key(*s[i], SortBy::DueDate, now) <= sort_key(*s[j], SortBy::DueDate, now));
        }
    }
}

} // verus!
