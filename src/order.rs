//! Canonical tab order: pinned tabs first, then ascending `sort_order`, then
//! the most recently opened first. Ties keep their storage order.

use vstd::prelude::*;
use crate::tab::Tab;

verus! {

/// `a` is listed strictly before `b`.
pub open spec fn precedes(a: Tab, b: Tab) -> bool {
    ||| a.is_pinned && !b.is_pinned
    ||| a.is_pinned == b.is_pinned && a.sort_order < b.sort_order
    ||| a.is_pinned == b.is_pinned && a.sort_order == b.sort_order && a.last_opened_at
        > b.last_opened_at
}

/// Inserts row index `i` into the ordered indices `order`, after every row
/// that `s[i]` does not precede.
pub open spec fn insert_ordered(s: Seq<Tab>, order: Seq<usize>, i: usize) -> Seq<usize>
    decreases order.len(),
{
    if order.len() == 0 {
        seq![i]
    } else if precedes(s[i as int], s[order[0] as int]) {
        seq![i] + order
    } else {
        seq![order[0]] + insert_ordered(s, order.drop_first(), i)
    }
}

/// The first `n` row indices of `s`, in canonical order.
pub open spec fn order_prefix(s: Seq<Tab>, n: nat) -> Seq<usize>
    decreases n,
{
    if n == 0 {
        Seq::empty()
    } else {
        insert_ordered(s, order_prefix(s, (n - 1) as nat), (n - 1) as usize)
    }
}

/// Row indices of `s` in canonical order.
pub open spec fn canonical_order(s: Seq<Tab>) -> Seq<usize> {
    order_prefix(s, s.len())
}

/// The rows of `s` in canonical order.
pub open spec fn canonical(s: Seq<Tab>) -> Seq<Tab> {
    canonical_order(s).map_values(|i: usize| s[i as int])
}

/// Inserting at the first position whose row `s[i]` precedes.
proof fn lemma_insert_at(s: Seq<Tab>, order: Seq<usize>, i: usize, p: int)
    requires
        0 <= p <= order.len(),
        forall|q: int| 0 <= q < p ==> !precedes(s[i as int], #[trigger] s[order[q] as int]),
        p < order.len() ==> precedes(s[i as int], s[order[p] as int]),
    ensures
        insert_ordered(s, order, i) == order.insert(p, i),
    decreases order.len(),
{
    if order.len() == 0 {
        assert(order.insert(p, i) =~= seq![i]);
    } else if p == 0 {
        assert(order.insert(p, i) =~= seq![i] + order);
    } else {
        let rest = order.drop_first();
        assert forall|q: int| 0 <= q < p - 1 implies !precedes(
            s[i as int],
            #[trigger] s[rest[q] as int],
        ) by {
            assert(rest[q] == order[q + 1]);
        }
        assert(!precedes(s[i as int], s[order[0] as int]));
        lemma_insert_at(s, rest, i, p - 1);
        assert(order.insert(p, i) =~= seq![order[0]] + rest.insert(p - 1, i));
    }
}

/// Inserting adds exactly `i`.
proof fn lemma_insert_members(s: Seq<Tab>, order: Seq<usize>, i: usize)
    ensures
        insert_ordered(s, order, i).len() == order.len() + 1,
        forall|x: usize|
            #[trigger] insert_ordered(s, order, i).contains(x) <==> (order.contains(x) || x == i),
        order.no_duplicates() && !order.contains(i) ==> insert_ordered(
            s,
            order,
            i,
        ).no_duplicates(),
    decreases order.len(),
{
    let r = insert_ordered(s, order, i);
    if order.len() == 0 {
        assert(r =~= seq![i]);
        assert forall|x: usize| #[trigger] r.contains(x) <==> (order.contains(x) || x == i) by {
            if x == i {
                assert(r[0] == i);
            }
        }
    } else if precedes(s[i as int], s[order[0] as int]) {
        assert(r =~= seq![i] + order);
        assert forall|x: usize| #[trigger] r.contains(x) <==> (order.contains(x) || x == i) by {
            if order.contains(x) {
                let k = choose|k: int| 0 <= k < order.len() && order[k] == x;
                assert(r[k + 1] == x);
            }
            if x == i {
                assert(r[0] == i);
            }
            if r.contains(x) {
                let k = choose|k: int| 0 <= k < r.len() && r[k] == x;
                if k > 0 {
                    assert(order[k - 1] == x);
                }
            }
        }
    } else {
        let rest = order.drop_first();
        lemma_insert_members(s, rest, i);
        let rr = insert_ordered(s, rest, i);
        assert(r =~= seq![order[0]] + rr);
        assert forall|x: usize| #[trigger] r.contains(x) <==> (order.contains(x) || x == i) by {
            if r.contains(x) {
                let k = choose|k: int| 0 <= k < r.len() && r[k] == x;
                if k > 0 {
                    assert(rr[k - 1] == x);
                    assert(rr.contains(x));
                    if rest.contains(x) {
                        let m = choose|m: int| 0 <= m < rest.len() && rest[m] == x;
                        assert(order[m + 1] == x);
                    }
                } else {
                    assert(order[0] == x);
                }
            }
            if order.contains(x) {
                let k = choose|k: int| 0 <= k < order.len() && order[k] == x;
                if k > 0 {
                    assert(rest[k - 1] == x);
                    assert(rr.contains(x));
                    let m = choose|m: int| 0 <= m < rr.len() && rr[m] == x;
                    assert(r[m + 1] == x);
                } else {
                    assert(r[0] == x);
                }
            }
            if x == i {
                assert(rr.contains(x));
                let m = choose|m: int| 0 <= m < rr.len() && rr[m] == x;
                assert(r[m + 1] == x);
            }
        }
        if order.no_duplicates() && !order.contains(i) {
            assert(!rest.contains(i)) by {
                if rest.contains(i) {
                    let m = choose|m: int| 0 <= m < rest.len() && rest[m] == i;
                    assert(order[m + 1] == i);
                }
            }
            assert(rest.no_duplicates()) by {
                assert forall|a: int, b: int|
                    0 <= a < rest.len() && 0 <= b < rest.len() && a != b implies rest[a]
                    != rest[b] by {
                    assert(rest[a] == order[a + 1]);
                    assert(rest[b] == order[b + 1]);
                }
            }
            assert(!rr.contains(order[0])) by {
                if rr.contains(order[0]) {
                    if rest.contains(order[0]) {
                        let m = choose|m: int| 0 <= m < rest.len() && rest[m] == order[0];
                        assert(order[m + 1] == order[0]);
                    } else {
                        assert(order[0] == i);
                        assert(order.contains(i));
                    }
                }
            }
            assert forall|a: int, b: int|
                0 <= a < r.len() && 0 <= b < r.len() && a != b implies r[a] != r[b] by {
                if a == 0 && b > 0 {
                    assert(r[b] == rr[b - 1]);
                    assert(rr.contains(r[b]));
                } else if b == 0 && a > 0 {
                    assert(r[a] == rr[a - 1]);
                    assert(rr.contains(r[a]));
                } else if a > 0 && b > 0 {
                    assert(r[a] == rr[a - 1]);
                    assert(r[b] == rr[b - 1]);
                }
            }
        }
    }
}

/// The canonical order lists every row index below `n` exactly once.
pub proof fn lemma_order_prefix_permutes(s: Seq<Tab>, n: nat)
    requires
        n <= usize::MAX,
    ensures
        order_prefix(s, n).len() == n,
        order_prefix(s, n).no_duplicates(),
        forall|x: usize| #[trigger] order_prefix(s, n).contains(x) <==> x < n,
    decreases n,
{
    if n > 0 {
        let prev = order_prefix(s, (n - 1) as nat);
        lemma_order_prefix_permutes(s, (n - 1) as nat);
        lemma_insert_members(s, prev, (n - 1) as usize);
        assert(!prev.contains((n - 1) as usize));
    }
}

/// Row indices `order` list the rows of `s` in canonical order: no row comes
/// after one it precedes, and rows that tie keep their storage order.
pub open spec fn sorted_stably(s: Seq<Tab>, order: Seq<usize>) -> bool {
    forall|p: int, q: int|
        0 <= p < q < order.len() ==> {
            &&& !precedes(s[#[trigger] order[q] as int], s[#[trigger] order[p] as int])
            &&& !precedes(s[order[p] as int], s[order[q] as int]) ==> order[p] < order[q]
        }
}

proof fn lemma_insert_sorted(s: Seq<Tab>, order: Seq<usize>, i: usize)
    requires
        sorted_stably(s, order),
        i < s.len(),
        forall|k: int| 0 <= k < order.len() ==> #[trigger] order[k] < i,
    ensures
        sorted_stably(s, insert_ordered(s, order, i)),
    decreases order.len(),
{
    let r = insert_ordered(s, order, i);
    if order.len() == 0 {
    } else if precedes(s[i as int], s[order[0] as int]) {
        assert(r =~= seq![i] + order);
        assert forall|p: int, q: int| 0 <= p < q < r.len() implies {
            &&& !precedes(s[#[trigger] r[q] as int], s[#[trigger] r[p] as int])
            &&& !precedes(s[r[p] as int], s[r[q] as int]) ==> r[p] < r[q]
        } by {
            if p == 0 {
                let oq = order[q - 1];
                assert(r[q] == oq);
                if q - 1 > 0 {
                    assert(!precedes(s[order[q - 1] as int], s[order[0] as int]));
                }
                assert(oq < i);
            } else {
                assert(r[p] == order[p - 1]);
                assert(r[q] == order[q - 1]);
            }
        }
    } else {
        let rest = order.drop_first();
        assert forall|p: int, q: int| 0 <= p < q < rest.len() implies {
            &&& !precedes(s[#[trigger] rest[q] as int], s[#[trigger] rest[p] as int])
            &&& !precedes(s[rest[p] as int], s[rest[q] as int]) ==> rest[p] < rest[q]
        } by {
            assert(rest[p] == order[p + 1]);
            assert(rest[q] == order[q + 1]);
        }
        assert forall|k: int| 0 <= k < rest.len() implies #[trigger] rest[k] < i by {
            assert(rest[k] == order[k + 1]);
        }
        lemma_insert_sorted(s, rest, i);
        lemma_insert_members(s, rest, i);
        let rr = insert_ordered(s, rest, i);
        assert(r =~= seq![order[0]] + rr);
        assert forall|p: int, q: int| 0 <= p < q < r.len() implies {
            &&& !precedes(s[#[trigger] r[q] as int], s[#[trigger] r[p] as int])
            &&& !precedes(s[r[p] as int], s[r[q] as int]) ==> r[p] < r[q]
        } by {
            if p == 0 {
                let x = rr[q - 1];
                assert(r[q] == x);
                assert(rr.contains(x));
                if x != i {
                    assert(rest.contains(x));
                    let m = choose|m: int| 0 <= m < rest.len() && rest[m] == x;
                    assert(order[m + 1] == x);
                }
            } else {
                assert(r[p] == rr[p - 1]);
                assert(r[q] == rr[q - 1]);
            }
        }
    }
}

/// The canonical order of a table is sorted and stable.
pub proof fn lemma_canonical_sorted(s: Seq<Tab>, n: nat)
    requires
        n <= s.len(),
        s.len() <= usize::MAX,
    ensures
        sorted_stably(s, order_prefix(s, n)),
    decreases n,
{
    if n > 0 {
        let prev = order_prefix(s, (n - 1) as nat);
        lemma_canonical_sorted(s, (n - 1) as nat);
        lemma_order_prefix_permutes(s, (n - 1) as nat);
        assert forall|k: int| 0 <= k < prev.len() implies #[trigger] prev[k] < (n - 1) as usize by {
            assert(prev.contains(prev[k]));
        }
        lemma_insert_sorted(s, prev, (n - 1) as usize);
    }
}

/// Whether `a` is listed strictly before `b`.
pub fn tab_precedes(a: &Tab, b: &Tab) -> (r: bool)
    ensures
        r == precedes(*a, *b),
{
    if a.is_pinned != b.is_pinned {
        a.is_pinned
    } else if a.sort_order != b.sort_order {
        a.sort_order < b.sort_order
    } else {
        a.last_opened_at > b.last_opened_at
    }
}

/// Row indices of `rows` in canonical order.
pub fn canonical_indices(rows: &Vec<Tab>) -> (r: Vec<usize>)
    ensures
        r@ == canonical_order(rows@),
        r@.len() == rows@.len(),
        r@.no_duplicates(),
        forall|k: int| 0 <= k < r@.len() ==> #[trigger] r@[k] < rows@.len(),
        sorted_stably(rows@, r@),
{
    let n = rows.len();
    let mut order: Vec<usize> = Vec::new();
    let mut i: usize = 0;
    while i < n
        invariant
            n == rows@.len(),
            i <= n,
            order@ == order_prefix(rows@, i as nat),
            forall|k: int| 0 <= k < order@.len() ==> #[trigger] order@[k] < i,
        decreases n - i,
    {
        proof {
            lemma_order_prefix_permutes(rows@, i as nat);
        }
        let mut p: usize = 0;
        while p < order.len() && !tab_precedes(&rows[i], &rows[order[p]])
            invariant
                n == rows@.len(),
                i < n,
                p <= order@.len(),
                forall|k: int| 0 <= k < order@.len() ==> #[trigger] order@[k] < i,
                forall|q: int|
                    0 <= q < p ==> !precedes(rows@[i as int], #[trigger] rows@[order@[q] as int]),
            decreases order@.len() - p,
        {
            p = p + 1;
        }
        proof {
            lemma_insert_at(rows@, order@, i, p as int);
        }
        let ghost before = order@;
        order.insert(p, i);
        proof {
            before.insert_ensures(p as int, i);
            assert forall|k: int| 0 <= k < order@.len() implies #[trigger] order@[k] < i + 1 by {
                if k < p {
                    assert(order@[k] == before[k]);
                } else if k > p {
                    assert(order@[k] == before[k - 1]);
                }
            }
        }
        i = i + 1;
    }
    proof {
        lemma_order_prefix_permutes(rows@, n as nat);
        lemma_canonical_sorted(rows@, n as nat);
    }
    order
}

} // verus!
