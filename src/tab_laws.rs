//! What holds of the tab operations taken together.

use vstd::prelude::*;
use vstd::arithmetic::div_mod::{lemma_mod_self_0, lemma_small_mod};
use crate::order::{
    canonical_order, insert_ordered, lemma_order_prefix_permutes, order_prefix, precedes,
};
use crate::service::{
    adjacent_target, closed, created, next_sort_order, position_in,
    step_position,
};
use crate::store::{
    activated, active_index, deactivated, has_active, has_id, lemma_activated,
    lemma_active_index, single_active, well_formed,
};
use crate::tab::{CreateTabPayload, Tab};

verus! {

/// No two tabs share both the pin flag and the sort order, so canonical order
/// does not depend on when tabs were opened.
pub open spec fn distinct_rank_keys(s: Seq<Tab>) -> bool {
    forall|i: int, j: int|
        0 <= i < s.len() && 0 <= j < s.len() && i != j ==> !(#[trigger] s[i].is_pinned
            == #[trigger] s[j].is_pinned && s[i].sort_order == s[j].sort_order)
}

/// Two tables that compare alike pair by pair.
pub open spec fn same_comparisons(s: Seq<Tab>, t: Seq<Tab>) -> bool {
    &&& s.len() == t.len()
    &&& forall|i: int, j: int|
        0 <= i < s.len() && 0 <= j < s.len() ==> precedes(#[trigger] s[i], #[trigger] s[j])
            == precedes(t[i], t[j])
}

proof fn lemma_insert_same(s: Seq<Tab>, t: Seq<Tab>, order: Seq<usize>, i: usize)
    requires
        same_comparisons(s, t),
        i < s.len(),
        forall|k: int| 0 <= k < order.len() ==> #[trigger] order[k] < s.len(),
    ensures
        insert_ordered(s, order, i) == insert_ordered(t, order, i),
    decreases order.len(),
{
    if order.len() > 0 {
        let rest = order.drop_first();
        assert forall|k: int| 0 <= k < rest.len() implies #[trigger] rest[k] < s.len() by {
            assert(rest[k] == order[k + 1]);
        }
        lemma_insert_same(s, t, rest, i);
        assert(precedes(s[i as int], s[order[0] as int]) == precedes(t[i as int], t[order[0] as int]));
    }
}

/// Canonical order depends on the pairwise comparisons alone.
pub proof fn lemma_order_same(s: Seq<Tab>, t: Seq<Tab>, n: nat)
    requires
        same_comparisons(s, t),
        n <= s.len(),
        s.len() <= usize::MAX,
    ensures
        order_prefix(s, n) == order_prefix(t, n),
    decreases n,
{
    if n > 0 {
        let prev = order_prefix(s, (n - 1) as nat);
        lemma_order_same(s, t, (n - 1) as nat);
        lemma_order_prefix_permutes(s, (n - 1) as nat);
        assert forall|k: int| 0 <= k < prev.len() implies #[trigger] prev[k] < s.len() by {
            assert(prev.contains(prev[k]));
        }
        lemma_insert_same(s, t, prev, (n - 1) as usize);
    }
}

/// Opening a tab leaves canonical order alone when no two tabs share their
/// pin flag and sort order.
proof fn lemma_activation_keeps_order(s: Seq<Tab>, i: int, now: i64)
    requires
        distinct_rank_keys(s),
        0 <= i < s.len(),
        s.len() <= usize::MAX,
    ensures
        canonical_order(activated(s, i, now)) == canonical_order(s),
        distinct_rank_keys(activated(s, i, now)),
{
    let t = activated(s, i, now);
    assert(forall|k: int| 0 <= k < s.len() ==> #[trigger] t[k].is_pinned == s[k].is_pinned
        && t[k].sort_order == s[k].sort_order);
    assert forall|a: int, b: int| 0 <= a < s.len() && 0 <= b < s.len() implies precedes(
        #[trigger] s[a],
        #[trigger] s[b],
    ) == precedes(t[a], t[b]) by {
        assert(t[a].is_pinned == s[a].is_pinned && t[a].sort_order == s[a].sort_order);
        assert(t[b].is_pinned == s[b].is_pinned && t[b].sort_order == s[b].sort_order);
    }
    lemma_order_same(s, t, s.len());
}

proof fn lemma_position_unique(order: Seq<usize>, p: int)
    requires
        order.no_duplicates(),
        0 <= p < order.len(),
    ensures
        position_in(order, order[p] as int) == p,
{
    let c = position_in(order, order[p] as int);
    assert(0 <= c < order.len() && order[c] as int == order[p] as int);
}

/// Stepping to the next tab and then to the previous one comes back to the tab
/// that was active, whenever one was and no two tabs share their pin flag and
/// sort order.
pub proof fn lemma_next_then_previous(s: Seq<Tab>, now1: i64, now2: i64)
    requires
        well_formed(s),
        has_active(s),
        distinct_rank_keys(s),
        s.len() <= usize::MAX,
    ensures
        ({
            let s1 = activated(s, adjacent_target(s, true), now1);
            let s2 = activated(s1, adjacent_target(s1, false), now2);
            &&& has_active(s1)
            &&& has_active(s2)
            &&& s2[active_index(s2)].id == s[active_index(s)].id
        }),
{
    let n = s.len() as int;
    let order = canonical_order(s);
    lemma_order_prefix_permutes(s, s.len());
    let a = active_index(s);
    assert(order.contains(a as usize));
    let pa = position_in(order, a);
    assert(0 <= pa < n && order[pa] as int == a);
    let next_pos = step_position(pa, n, true);
    if pa + 1 < n {
        lemma_small_mod((pa + 1) as nat, n as nat);
    } else {
        lemma_mod_self_0(n);
        assert((pa + 1) % n == 0);
    }
    assert(0 <= next_pos < n);
    let t1 = order[next_pos] as int;
    assert(adjacent_target(s, true) == t1);
    assert(order.contains(order[next_pos]));
    let s1 = activated(s, t1, now1);
    lemma_activated(s, t1, now1);
    lemma_activation_keeps_order(s, t1, now1);
    lemma_active_index(s1, t1);
    lemma_position_unique(order, next_pos);
    assert(step_position(next_pos, n, false) == pa);
    assert(adjacent_target(s1, false) == a);
    let s2 = activated(s1, a, now2);
    lemma_activated(s1, a, now2);
    lemma_active_index(s2, a);
}

/// At most one tab is active after `create`, `activate` or `close`, from any
/// well-formed table (the empty one included).
pub proof fn lemma_at_most_one_active(
    s: Seq<Tab>,
    p: CreateTabPayload,
    id: String,
    i: int,
    now: i64,
)
    requires
        well_formed(s),
        s.len() <= usize::MAX,
    ensures
        !has_id(s, id@) && next_sort_order(s) <= i32::MAX ==> single_active(
            created(s, p, id, now),
        ),
        0 <= i < s.len() ==> single_active(activated(s, i, now)),
        0 <= i < s.len() ==> single_active(closed(s, i, now)),
{
    if 0 <= i < s.len() {
        lemma_activated(s, i, now);
        lemma_close_outcome(s, i, now);
    }
    let c = created(s, p, id, now);
    assert forall|a: int, b: int|
        0 <= a < c.len() && 0 <= b < c.len() && #[trigger] c[a].is_active
            && #[trigger] c[b].is_active implies a == b by {
        if a < s.len() && b < s.len() && crate::service::should_activate(p) {
            assert(c[a] == deactivated(s[a]));
        }
        if a < s.len() && b < s.len() && !crate::service::should_activate(p) {
            assert(c[a] == s[a]);
            assert(c[b] == s[b]);
        }
        if a < s.len() && b == s.len() && crate::service::should_activate(p) {
            assert(c[a] == deactivated(s[a]));
        }
        if b < s.len() && a == s.len() && crate::service::should_activate(p) {
            assert(c[b] == deactivated(s[b]));
        }
        if a < s.len() && b == s.len() && !crate::service::should_activate(p) {
            assert(c[b].is_active == crate::service::should_activate(p));
        }
        if b < s.len() && a == s.len() && !crate::service::should_activate(p) {
            assert(c[a].is_active == crate::service::should_activate(p));
        }
    }
}

/// Closing the active tab leaves exactly one active tab when any remain, and
/// none when none remain; closing another tab keeps the active one.
pub proof fn lemma_close_outcome(s: Seq<Tab>, i: int, now: i64)
    requires
        well_formed(s),
        0 <= i < s.len(),
        s.len() <= usize::MAX,
    ensures
        ({
            let r = closed(s, i, now);
            &&& well_formed(r)
            &&& s[i].is_active && r.len() > 0 ==> has_active(r)
            &&& s[i].is_active && r.len() == 0 ==> !has_active(r)
            &&& !s[i].is_active ==> has_active(r) == has_active(s)
            &&& !s[i].is_active && has_active(s) ==> r[active_index(r)].id == s[active_index(
                s,
            )].id
        }),
{
    let rest = s.remove(i);
    s.remove_ensures(i);
    let r = closed(s, i, now);
    assert forall|a: int, b: int|
        0 <= a < rest.len() && 0 <= b < rest.len() && a != b implies #[trigger] rest[a].id@
        != #[trigger] rest[b].id@ by {
        let a0 = if a < i { a } else { a + 1 };
        let b0 = if b < i { b } else { b + 1 };
        assert(rest[a] == s[a0]);
        assert(rest[b] == s[b0]);
    }
    assert forall|a: int, b: int|
        0 <= a < rest.len() && 0 <= b < rest.len() && #[trigger] rest[a].is_active
            && #[trigger] rest[b].is_active implies a == b by {
        let a0 = if a < i { a } else { a + 1 };
        let b0 = if b < i { b } else { b + 1 };
        assert(rest[a] == s[a0]);
        assert(rest[b] == s[b0]);
    }
    if s[i].is_active && rest.len() > 0 {
        lemma_order_prefix_permutes(rest, rest.len());
        let order = canonical_order(rest);
        assert(order.contains(order[0]));
        let j = order[0] as int;
        assert(0 <= j < rest.len());
        assert forall|k: int| 0 <= k < rest.len() implies !(#[trigger] rest[k]).is_active by {
            let k0 = if k < i { k } else { k + 1 };
            assert(rest[k] == s[k0]);
        }
        assert forall|a: int, b: int|
            0 <= a < r.len() && 0 <= b < r.len() && a != b implies #[trigger] r[a].id@
            != #[trigger] r[b].id@ by {
            assert(r[a].id == rest[a].id);
            assert(r[b].id == rest[b].id);
        }
        assert forall|a: int, b: int|
            0 <= a < r.len() && 0 <= b < r.len() && #[trigger] r[a].is_active
                && #[trigger] r[b].is_active implies a == b by {
            if a != j {
                assert(r[a] == rest[a]);
            }
            if b != j {
                assert(r[b] == rest[b]);
            }
        }
        assert(r[j].is_active);
    } else if !s[i].is_active && has_active(s) {
        let a = active_index(s);
        assert(a != i);
        let a1 = if a < i { a } else { a - 1 };
        assert(r[a1] == s[a]);
        lemma_active_index(r, a1);
    } else if !s[i].is_active {
        assert forall|k: int| 0 <= k < r.len() implies !(#[trigger] r[k]).is_active by {
            let k0 = if k < i { k } else { k + 1 };
            assert(r[k] == s[k0]);
            if s[k0].is_active {
                assert(has_active(s));
            }
        }
    }
}

} // verus!
