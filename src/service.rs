//! The tab lifecycle: every operation is one step from a well-formed table to
//! a well-formed table, so at most one tab is ever active.

use vstd::prelude::*;
use vstd::arithmetic::div_mod::lemma_small_mod;
use crate::clock::now_millis;
use crate::identity::fresh_id;
use crate::order::{canonical, canonical_order, lemma_order_prefix_permutes, precedes};
use crate::store::{
    TabStore, activated, active_index, deactivate_all, deactivated, has_active, has_id, index_of,
    lemma_active_index, lemma_activated, lemma_index_of, reopened, well_formed, ids_unique,
};
use crate::tab::{CreateTabPayload, ReorderTabsPayload, Tab, UpdateTabPayload};

verus! {

/// Why a new tab could not be stored.
#[derive(Debug, Clone, Copy, PartialEq, Eq)]
pub enum TabError {
    /// The id is already taken.
    DuplicateId,
    /// The next sort order would not fit in 32 bits.
    SortOrderExhausted,
}

pub open spec fn should_activate(p: CreateTabPayload) -> bool {
    match p.activate {
        Some(b) => b,
        None => true,
    }
}

/// One past the largest sort order, or 0 for an empty table.
pub open spec fn next_sort_order(s: Seq<Tab>) -> int
    decreases s.len(),
{
    if s.len() == 0 {
        0
    } else {
        let rest = next_sort_order(s.drop_last());
        let here = s.last().sort_order + 1;
        if s.len() == 1 || here > rest {
            here
        } else {
            rest
        }
    }
}

/// The row that `create` stores.
pub open spec fn new_tab(p: CreateTabPayload, id: String, order: int, now: i64) -> Tab {
    Tab {
        id: id,
        title: match p.title {
            Some(t) => t,
            None => p.url,
        },
        url: p.url,
        favicon_url: p.favicon_url,
        is_pinned: match p.is_pinned {
            Some(b) => b,
            None => false,
        },
        is_active: should_activate(p),
        sort_order: order as i32,
        last_opened_at: now,
        created_at: now,
        updated_at: now,
    }
}

/// The table after a successful `create`.
pub open spec fn created(s: Seq<Tab>, p: CreateTabPayload, id: String, now: i64) -> Seq<Tab> {
    let base = if should_activate(p) {
        deactivate_all(s)
    } else {
        s
    };
    base.push(new_tab(p, id, next_sort_order(s), now))
}

/// `t` with the fields that `p` sets, updated at `now`.
pub open spec fn updated(t: Tab, p: UpdateTabPayload, now: i64) -> Tab {
    Tab {
        title: match p.title {
            Some(x) => x,
            None => t.title,
        },
        url: match p.url {
            Some(x) => x,
            None => t.url,
        },
        favicon_url: match p.favicon_url {
            Some(x) => Some(x),
            None => t.favicon_url,
        },
        is_pinned: match p.is_pinned {
            Some(b) => b,
            None => t.is_pinned,
        },
        updated_at: now,
        ..t
    }
}

pub open spec fn with_url(t: Tab, url: String, now: i64) -> Tab {
    Tab { url: url, updated_at: now, ..t }
}

pub open spec fn with_title(t: Tab, title: String, now: i64) -> Tab {
    Tab { title: title, updated_at: now, ..t }
}

/// The table after deleting row `i`: if it was active, the first remaining
/// row in canonical order is opened at `now` in its place.
pub open spec fn closed(s: Seq<Tab>, i: int, now: i64) -> Seq<Tab> {
    let rest = s.remove(i);
    if s[i].is_active && rest.len() > 0 {
        let j = canonical_order(rest)[0] as int;
        rest.update(j, reopened(rest[j], now))
    } else {
        rest
    }
}

/// The row that replaces the deleted active row `i`.
pub open spec fn replacement(s: Seq<Tab>, i: int) -> int {
    canonical_order(s.remove(i))[0] as int
}

/// Every row whose id is `id` gets sort order `k`.
pub open spec fn with_order(s: Seq<Tab>, id: Seq<char>, k: int) -> Seq<Tab> {
    s.map_values(|t: Tab| if t.id@ == id { Tab { sort_order: k as i32, ..t } } else { t })
}

/// The table after giving the first `n` ids their index as sort order, in turn.
pub open spec fn reordered(s: Seq<Tab>, ids: Seq<String>, n: nat) -> Seq<Tab>
    decreases n,
{
    if n == 0 {
        s
    } else {
        with_order(reordered(s, ids, (n - 1) as nat), ids[n - 1]@, n - 1)
    }
}

/// Where in the cycle a step from position `p` of `n` lands.
pub open spec fn step_position(p: int, n: int, forward: bool) -> int {
    if forward {
        (p + 1) % n
    } else if p == 0 {
        n - 1
    } else {
        p - 1
    }
}

/// The position of row `x` in `order`.
pub open spec fn position_in(order: Seq<usize>, x: int) -> int {
    choose|p: int| 0 <= p < order.len() && order[p] as int == x
}

/// The row that `activate_next` (`forward`) or `activate_previous` opens: the
/// neighbour of the active row in canonical order, wrapping around, or the
/// first row when none is active.
pub open spec fn adjacent_target(s: Seq<Tab>, forward: bool) -> int {
    let order = canonical_order(s);
    if has_active(s) {
        order[step_position(position_in(order, active_index(s)), s.len() as int, forward)] as int
    } else {
        order[0] as int
    }
}

/// Replacing a row by one with the same id keeps the ids unique.
proof fn lemma_replace_keeps_ids(s: Seq<Tab>, i: int, t: Tab)
    requires
        ids_unique(s),
        0 <= i < s.len(),
        t.id == s[i].id,
    ensures
        ids_unique(s.update(i, t)),
{
    let r = s.update(i, t);
    assert forall|a: int, b: int|
        0 <= a < r.len() && 0 <= b < r.len() && a != b implies #[trigger] r[a].id@
        != #[trigger] r[b].id@ by {
        assert(r[a].id == s[a].id);
        assert(r[b].id == s[b].id);
    }
}

/// Replacing a row by one with the same id and activity keeps the table well
/// formed.
proof fn lemma_replace_keeps_form(s: Seq<Tab>, i: int, t: Tab)
    requires
        well_formed(s),
        0 <= i < s.len(),
        t.id == s[i].id,
        t.is_active == s[i].is_active,
    ensures
        well_formed(s.update(i, t)),
{
    lemma_replace_keeps_ids(s, i, t);
    let r = s.update(i, t);
    assert forall|a: int, b: int|
        0 <= a < r.len() && 0 <= b < r.len() && #[trigger] r[a].is_active
            && #[trigger] r[b].is_active implies a == b by {
        assert(r[a].is_active == s[a].is_active);
        assert(r[b].is_active == s[b].is_active);
    }
}

/// The table operations. Each takes the table it works on.
pub struct TabService;

impl TabService {
    /// All tabs in canonical order.
    pub fn list(store: &TabStore) -> (r: Vec<Tab>)
        ensures
            r@ == canonical(store@),
            r@.len() == store@.len(),
            forall|i: int| 0 <= i < store@.len() ==> r@.contains(#[trigger] store@[i]),
            forall|p: int, q: int|
                0 <= p < q < r@.len() ==> !precedes(#[trigger] r@[q], #[trigger] r@[p]),
    {
        let order = store.canonical_positions();
        let mut out: Vec<Tab> = Vec::new();
        let mut k: usize = 0;
        while k < order.len()
            invariant
                order@ == canonical_order(store@),
                order@.len() == store@.len(),
                forall|q: int| 0 <= q < order@.len() ==> #[trigger] order@[q] < store@.len(),
                k <= order@.len(),
                out@ =~= canonical(store@).take(k as int),
            decreases order@.len() - k,
        {
            out.push(store.row(order[k]));
            k = k + 1;
        }
        assert(out@ =~= canonical(store@));
        proof {
            lemma_order_prefix_permutes(store@, store@.len());
            assert forall|i: int| 0 <= i < store@.len() implies out@.contains(#[trigger] store@[i]) by {
                assert(order@.contains(i as usize));
                let k = choose|k: int| 0 <= k < order@.len() && order@[k] == i as usize;
                assert(out@[k] == store@[i]);
            }
            assert forall|p: int, q: int| 0 <= p < q < out@.len() implies !precedes(
                #[trigger] out@[q],
                #[trigger] out@[p],
            ) by {
                assert(out@[p] == store@[order@[p] as int]);
                assert(out@[q] == store@[order@[q] as int]);
            }
        }
        out
    }

    /// The tab with `id`.
    pub fn get(store: &TabStore, id: &String) -> (r: Option<Tab>)
        requires
            store.wf(),
        ensures
            match r {
                Some(t) => has_id(store@, id@) && t == store@[index_of(store@, id@)],
                None => !has_id(store@, id@),
            },
    {
        match store.position(id) {
            Some(i) => {
                proof {
                    lemma_index_of(store@, i as int);
                }
                Some(store.row(i))
            },
            None => None,
        }
    }

    /// The active tab.
    pub fn get_active(store: &TabStore) -> (r: Option<Tab>)
        requires
            store.wf(),
        ensures
            match r {
                Some(t) => has_active(store@) && t == store@[active_index(store@)],
                None => !has_active(store@),
            },
    {
        match store.active_position() {
            Some(i) => {
                proof {
                    lemma_active_index(store@, i as int);
                }
                Some(store.row(i))
            },
            None => None,
        }
    }

    fn next_sort_order(store: &TabStore) -> (r: i64)
        ensures
            r == next_sort_order(store@),
    {
        let n = store.len();
        let mut best: i64 = 0;
        let mut i: usize = 0;
        while i < n
            invariant
                n == store@.len(),
                i <= n,
                best == next_sort_order(store@.take(i as int)),
                i32::MIN + 1 <= best <= i32::MAX + 1,
            decreases n - i,
        {
            let here = store.row(i).sort_order as i64 + 1;
            assert(store@.take(i + 1).drop_last() =~= store@.take(i as int));
            if i == 0 || here > best {
                best = here;
            }
            i = i + 1;
        }
        assert(store@.take(n as int) =~= store@);
        best
    }

    /// Stores a new tab with id `id`, created at `now`. When the payload asks
    /// for it (the default), every other tab is deactivated first.
    pub fn create_at(store: &mut TabStore, payload: CreateTabPayload, id: String, now: i64) -> (r:
        Result<Tab, TabError>)
        requires
            old(store).wf(),
        ensures
            final(store).wf(),
            match r {
                Ok(t) => {
                    &&& next_sort_order(old(store)@) <= i32::MAX
                    &&& !has_id(old(store)@, id@)
                    &&& final(store)@ == created(old(store)@, payload, id, now)
                    &&& t == final(store)@.last()
                },
                Err(TabError::SortOrderExhausted) => {
                    &&& next_sort_order(old(store)@) > i32::MAX
                    &&& final(store)@ == old(store)@
                },
                Err(TabError::DuplicateId) => {
                    &&& next_sort_order(old(store)@) <= i32::MAX
                    &&& has_id(old(store)@, id@)
                    &&& final(store)@ == old(store)@
                },
            },
    {
        let next = Self::next_sort_order(store);
        if next > i32::MAX as i64 {
            return Err(TabError::SortOrderExhausted);
        }
        if store.position(&id).is_some() {
            return Err(TabError::DuplicateId);
        }
        let activate = match payload.activate {
            Some(b) => b,
            None => true,
        };
        if activate {
            store.deactivate_all();
        }
        let title = match payload.title {
            Some(t) => t,
            None => payload.url.clone(),
        };
        let tab = Tab {
            id: id,
            title: title,
            url: payload.url,
            favicon_url: payload.favicon_url,
            is_pinned: match payload.is_pinned {
                Some(b) => b,
                None => false,
            },
            is_active: activate,
            sort_order: next as i32,
            last_opened_at: now,
            created_at: now,
            updated_at: now,
        };
        let r = tab.duplicate();
        let ghost before = store@;
        store.append(tab);
        proof {
            let s = store@;
            assert forall|a: int, b: int|
                0 <= a < s.len() && 0 <= b < s.len() && a != b implies #[trigger] s[a].id@
                != #[trigger] s[b].id@ by {
                if a < before.len() {
                    assert(s[a].id == old(store)@[a].id);
                }
                if b < before.len() {
                    assert(s[b].id == old(store)@[b].id);
                }
            }
            assert forall|a: int, b: int|
                0 <= a < s.len() && 0 <= b < s.len() && #[trigger] s[a].is_active
                    && #[trigger] s[b].is_active implies a == b by {
                if activate {
                    if a < before.len() {
                        assert(s[a] == deactivated(old(store)@[a]));
                    }
                    if b < before.len() {
                        assert(s[b] == deactivated(old(store)@[b]));
                    }
                } else {
                    assert(a < before.len());
                    assert(b < before.len());
                }
            }
        }
        Ok(r)
    }

    /// Applies the fields that `payload` sets to the tab with its id, at
    /// `now`. Activity and sort order are left alone.
    pub fn update_at(store: &mut TabStore, payload: UpdateTabPayload, now: i64) -> (r: Option<Tab>)
        requires
            old(store).wf(),
        ensures
            final(store).wf(),
            match r {
                Some(t) => {
                    let i = index_of(old(store)@, payload.id@);
                    &&& has_id(old(store)@, payload.id@)
                    &&& final(store)@ == old(store)@.update(i, updated(old(store)@[i], payload, now))
                    &&& t == final(store)@[i]
                },
                None => !has_id(old(store)@, payload.id@) && final(store)@ == old(store)@,
            },
    {
        let i = match store.position(&payload.id) {
            Some(i) => i,
            None => return None,
        };
        proof {
            lemma_index_of(store@, i as int);
        }
        let ghost given = payload;
        let mut t = store.row(i);
        match payload.title {
            Some(x) => t.title = x,
            None => {},
        }
        match payload.url {
            Some(x) => t.url = x,
            None => {},
        }
        match payload.favicon_url {
            Some(x) => t.favicon_url = Some(x),
            None => {},
        }
        match payload.is_pinned {
            Some(b) => t.is_pinned = b,
            None => {},
        }
        t.updated_at = now;
        assert(t == updated(old(store)@[i as int], given, now));
        let r = t.duplicate();
        store.replace(i, t);
        proof {
            lemma_replace_keeps_form(old(store)@, i as int, r);
        }
        Some(r)
    }

    /// Makes the tab with `id` the one active tab, opened at `now`.
    pub fn activate_at(store: &mut TabStore, id: &String, now: i64) -> (r: Option<Tab>)
        requires
            old(store).wf(),
        ensures
            final(store).wf(),
            match r {
                Some(t) => {
                    let i = index_of(old(store)@, id@);
                    &&& has_id(old(store)@, id@)
                    &&& final(store)@ == activated(old(store)@, i, now)
                    &&& t == final(store)@[i]
                },
                None => !has_id(old(store)@, id@) && final(store)@ == old(store)@,
            },
    {
        match store.position(id) {
            Some(i) => {
                proof {
                    lemma_index_of(store@, i as int);
                    lemma_activated(store@, i as int, now);
                }
                Some(store.activate_row(i, now))
            },
            None => None,
        }
    }

    /// Sets the url of the active tab, at `now`.
    pub fn update_active_url_at(store: &mut TabStore, url: String, now: i64) -> (r: Option<Tab>)
        requires
            old(store).wf(),
        ensures
            final(store).wf(),
            match r {
                Some(t) => {
                    let i = active_index(old(store)@);
                    &&& has_active(old(store)@)
                    &&& final(store)@ == old(store)@.update(i, with_url(old(store)@[i], url, now))
                    &&& t == final(store)@[i]
                },
                None => !has_active(old(store)@) && final(store)@ == old(store)@,
            },
    {
        let i = match store.active_position() {
            Some(i) => i,
            None => return None,
        };
        proof {
            lemma_active_index(store@, i as int);
        }
        let mut t = store.row(i);
        t.url = url;
        t.updated_at = now;
        let r = t.duplicate();
        store.replace(i, t);
        proof {
            lemma_replace_keeps_form(old(store)@, i as int, r);
        }
        Some(r)
    }

    /// Sets the title of the active tab, at `now`.
    pub fn update_active_title_at(store: &mut TabStore, title: String, now: i64) -> (r: Option<
        Tab,
    >)
        requires
            old(store).wf(),
        ensures
            final(store).wf(),
            match r {
                Some(t) => {
                    let i = active_index(old(store)@);
                    &&& has_active(old(store)@)
                    &&& final(store)@ == old(store)@.update(
                        i,
                        with_title(old(store)@[i], title, now),
                    )
                    &&& t == final(store)@[i]
                },
                None => !has_active(old(store)@) && final(store)@ == old(store)@,
            },
    {
        let i = match store.active_position() {
            Some(i) => i,
            None => return None,
        };
        proof {
            lemma_active_index(store@, i as int);
        }
        let mut t = store.row(i);
        t.title = title;
        t.updated_at = now;
        let r = t.duplicate();
        store.replace(i, t);
        proof {
            lemma_replace_keeps_form(old(store)@, i as int, r);
        }
        Some(r)
    }

    /// Deletes the tab with `id`. If it was active, the first remaining tab in
    /// canonical order is opened at `now` and returned; otherwise nothing is
    /// returned, though the tab is deleted.
    pub fn close_at(store: &mut TabStore, id: &String, now: i64) -> (r: Option<Tab>)
        requires
            old(store).wf(),
        ensures
            final(store).wf(),
            has_id(old(store)@, id@) ==> final(store)@ == closed(
                old(store)@,
                index_of(old(store)@, id@),
                now,
            ),
            !has_id(old(store)@, id@) ==> final(store)@ == old(store)@,
            r is Some <==> has_id(old(store)@, id@) && old(store)@[index_of(
                old(store)@,
                id@,
            )].is_active && old(store)@.len() > 1,
            r matches Some(t) ==> t == final(store)@[replacement(
                old(store)@,
                index_of(old(store)@, id@),
            )] && t.last_opened_at == now,
    {
        match store.position(id) {
            Some(i) => {
                proof {
                    lemma_index_of(store@, i as int);
                }
                Self::close_row(store, i, now)
            },
            None => None,
        }
    }

    fn close_row(store: &mut TabStore, i: usize, now: i64) -> (r: Option<Tab>)
        requires
            old(store).wf(),
            i < old(store)@.len(),
        ensures
            final(store).wf(),
            final(store)@ == closed(old(store)@, i as int, now),
            r is Some <==> old(store)@[i as int].is_active && old(store)@.len() > 1,
            r matches Some(t) ==> t == final(store)@[replacement(old(store)@, i as int)]
                && t.last_opened_at == now,
    {
        let ghost s = store@;
        let gone = store.delete(i);
        let ghost rest = store@;
        proof {
            s.remove_ensures(i as int);
            assert forall|a: int, b: int|
                0 <= a < rest.len() && 0 <= b < rest.len() && a != b implies #[trigger] rest[a].id@
                != #[trigger] rest[b].id@ by {
                let a0 = if a < i { a } else { a + 1 };
                let b0 = if b < i { b } else { b + 1 };
                assert(rest[a] == s[a0]);
                assert(rest[b] == s[b0]);
            }
            assert forall|a: int, b: int|
                0 <= a < rest.len() && 0 <= b < rest.len() && #[trigger] rest[a].is_active
                    && #[trigger] rest[b].is_active implies a == b by {
                let a0 = if a < i { a } else { a + 1 };
                let b0 = if b < i { b } else { b + 1 };
                assert(rest[a] == s[a0]);
                assert(rest[b] == s[b0]);
            }
        }
        if gone.is_active && store.len() > 0 {
            let order = store.canonical_positions();
            let j = order[0];
            let mut t = store.row(j);
            t.is_active = true;
            t.last_opened_at = now;
            t.updated_at = now;
            let r = t.duplicate();
            store.replace(j, t);
            proof {
                assert forall|k: int| 0 <= k < rest.len() implies !(#[trigger] rest[k]).is_active by {
                    let k0 = if k < i { k } else { k + 1 };
                    assert(rest[k] == s[k0]);
                    assert(k0 != i);
                }
                lemma_replace_keeps_ids(rest, j as int, r);
                let f = store@;
                assert forall|a: int, b: int|
                    0 <= a < f.len() && 0 <= b < f.len() && #[trigger] f[a].is_active
                        && #[trigger] f[b].is_active implies a == b by {
                    if a != j {
                        assert(f[a] == rest[a]);
                    }
                    if b != j {
                        assert(f[b] == rest[b]);
                    }
                }
            }
            Some(r)
        } else {
            None
        }
    }

    /// Gives each listed id its index as sort order, in list order. Unknown ids
    /// are skipped; tabs left out keep their sort order.
    pub fn reorder(store: &mut TabStore, payload: ReorderTabsPayload)
        requires
            old(store).wf(),
            payload.ordered_ids@.len() <= i32::MAX + 1,
        ensures
            final(store).wf(),
            final(store)@ == reordered(
                old(store)@,
                payload.ordered_ids@,
                payload.ordered_ids@.len(),
            ),
    {
        let ids = &payload.ordered_ids;
        let n = ids.len();
        let mut k: usize = 0;
        while k < n
            invariant
                n == ids@.len(),
                n <= i32::MAX + 1,
                k <= n,
                store.wf(),
                store@ == reordered(old(store)@, ids@, k as nat),
            decreases n - k,
        {
            let ghost s = store@;
            match store.position(&ids[k]) {
                Some(i) => {
                    let mut t = store.row(i);
                    t.sort_order = k as i32;
                    proof {
                        lemma_replace_keeps_form(s, i as int, t);
                        assert forall|j: int| 0 <= j < s.len() implies #[trigger] s[j].id@ == ids@[k as int]@
                            <==> j == i by {
                            if j != i {
                                assert(s[j].id@ != s[i as int].id@);
                            }
                        }
                    }
                    store.replace(i, t);
                    assert(store@ =~= with_order(s, ids@[k as int]@, k as int));
                },
                None => {
                    assert(s =~= with_order(s, ids@[k as int]@, k as int));
                },
            }
            k = k + 1;
        }
    }

    /// Opens the neighbour of the active tab in canonical order (the next one
    /// when `forward`, else the previous one), wrapping around; the first tab
    /// when none is active.
    fn activate_adjacent_at(store: &mut TabStore, forward: bool, now: i64) -> (r: Option<Tab>)
        requires
            old(store).wf(),
        ensures
            final(store).wf(),
            old(store)@.len() == 0 ==> r is None && final(store)@ == old(store)@,
            old(store)@.len() > 0 ==> {
                let i = adjacent_target(old(store)@, forward);
                &&& 0 <= i < old(store)@.len()
                &&& final(store)@ == activated(old(store)@, i, now)
                &&& r == Some(final(store)@[i])
            },
    {
        let n = store.len();
        if n == 0 {
            return None;
        }
        let order = store.canonical_positions();
        proof {
            lemma_order_prefix_permutes(store@, n as nat);
        }
        let pos: usize = match store.active_position() {
            Some(a) => {
                proof {
                    lemma_active_index(store@, a as int);
                    assert(order@.contains(a));
                }
                let mut p: usize = 0;
                while p < n && order[p] != a
                    invariant
                        n == order@.len(),
                        p <= n,
                        order@.contains(a),
                        forall|q: int| 0 <= q < p ==> #[trigger] order@[q] != a,
                    decreases n - p,
                {
                    p = p + 1;
                }
                proof {
                    let q = choose|q: int| 0 <= q < order@.len() && order@[q] == a;
                    assert(p < n);
                    let c = position_in(order@, a as int);
                    assert(0 <= c < order@.len() && order@[c] as int == a as int);
                    assert(c == p);
                    assert(position_in(order@, active_index(store@)) == p);
                }
                let next = if forward {
                    if p + 1 == n {
                        0
                    } else {
                        p + 1
                    }
                } else if p == 0 {
                    n - 1
                } else {
                    p - 1
                };
                proof {
                    if forward {
                        if p + 1 == n {
                            assert((p + 1) as int % (n as int) == 0);
                        } else {
                            lemma_small_mod((p + 1) as nat, n as nat);
                        }
                    }
                    assert(next as int == step_position(p as int, n as int, forward));
                }
                next
            },
            None => 0,
        };
        assert(order@[pos as int] as int == adjacent_target(store@, forward));
        let i = order[pos];
        proof {
            lemma_activated(store@, i as int, now);
        }
        Some(store.activate_row(i, now))
    }

    /// `activate_next`, opened at `now`.
    pub fn activate_next_at(store: &mut TabStore, now: i64) -> (r: Option<Tab>)
        requires
            old(store).wf(),
        ensures
            final(store).wf(),
            old(store)@.len() == 0 ==> r is None && final(store)@ == old(store)@,
            old(store)@.len() > 0 ==> {
                let i = adjacent_target(old(store)@, true);
                &&& 0 <= i < old(store)@.len()
                &&& final(store)@ == activated(old(store)@, i, now)
                &&& r == Some(final(store)@[i])
            },
    {
        Self::activate_adjacent_at(store, true, now)
    }

    /// `activate_previous`, opened at `now`.
    pub fn activate_previous_at(store: &mut TabStore, now: i64) -> (r: Option<Tab>)
        requires
            old(store).wf(),
        ensures
            final(store).wf(),
            old(store)@.len() == 0 ==> r is None && final(store)@ == old(store)@,
            old(store)@.len() > 0 ==> {
                let i = adjacent_target(old(store)@, false);
                &&& 0 <= i < old(store)@.len()
                &&& final(store)@ == activated(old(store)@, i, now)
                &&& r == Some(final(store)@[i])
            },
    {
        Self::activate_adjacent_at(store, false, now)
    }

    /// Closes the active tab, as `close_at` does.
    pub fn close_active_at(store: &mut TabStore, now: i64) -> (r: Option<Tab>)
        requires
            old(store).wf(),
        ensures
            final(store).wf(),
            !has_active(old(store)@) ==> r is None && final(store)@ == old(store)@,
            has_active(old(store)@) ==> {
                let i = active_index(old(store)@);
                &&& final(store)@ == closed(old(store)@, i, now)
                &&& r is Some <==> old(store)@.len() > 1
                &&& r matches Some(t) ==> t == final(store)@[replacement(old(store)@, i)]
                    && t.last_opened_at == now
            },
    {
        match store.active_position() {
            Some(i) => {
                proof {
                    lemma_active_index(store@, i as int);
                }
                Self::close_row(store, i, now)
            },
            None => None,
        }
    }

    /// Stores a new tab under a fresh random id, created now.
    pub fn create(store: &mut TabStore, payload: CreateTabPayload) -> (r: Result<Tab, TabError>)
        requires
            old(store).wf(),
        ensures
            final(store).wf(),
            match r {
                Ok(t) => {
                    &&& next_sort_order(old(store)@) <= i32::MAX
                    &&& t.id@.len() == 36
                    &&& final(store)@ == created(old(store)@, payload, t.id, t.created_at)
                    &&& t == final(store)@.last()
                },
                Err(TabError::SortOrderExhausted) => {
                    &&& next_sort_order(old(store)@) > i32::MAX
                    &&& final(store)@ == old(store)@
                },
                Err(TabError::DuplicateId) => {
                    &&& next_sort_order(old(store)@) <= i32::MAX
                    &&& exists|k: int|
                        0 <= k < old(store)@.len() && (#[trigger] old(store)@[k]).id@.len() == 36
                    &&& final(store)@ == old(store)@
                },
            },
    {
        let id = fresh_id();
        let now = now_millis();
        Self::create_at(store, payload, id, now)
    }

    /// `update_at`, now.
    pub fn update(store: &mut TabStore, payload: UpdateTabPayload) -> (r: Option<Tab>)
        requires
            old(store).wf(),
        ensures
            final(store).wf(),
            match r {
                Some(t) => {
                    let i = index_of(old(store)@, payload.id@);
                    &&& has_id(old(store)@, payload.id@)
                    &&& final(store)@ == old(store)@.update(
                        i,
                        updated(old(store)@[i], payload, t.updated_at),
                    )
                    &&& t == final(store)@[i]
                },
                None => !has_id(old(store)@, payload.id@) && final(store)@ == old(store)@,
            },
    {
        let now = now_millis();
        Self::update_at(store, payload, now)
    }

    /// `activate_at`, now.
    pub fn activate(store: &mut TabStore, id: &String) -> (r: Option<Tab>)
        requires
            old(store).wf(),
        ensures
            final(store).wf(),
            match r {
                Some(t) => {
                    let i = index_of(old(store)@, id@);
                    &&& has_id(old(store)@, id@)
                    &&& final(store)@ == activated(old(store)@, i, t.last_opened_at)
                    &&& t == final(store)@[i]
                },
                None => !has_id(old(store)@, id@) && final(store)@ == old(store)@,
            },
    {
        let now = now_millis();
        Self::activate_at(store, id, now)
    }

    /// `update_active_url_at`, now.
    pub fn update_active_url(store: &mut TabStore, url: String) -> (r: Option<Tab>)
        requires
            old(store).wf(),
        ensures
            final(store).wf(),
            match r {
                Some(t) => {
                    let i = active_index(old(store)@);
                    &&& has_active(old(store)@)
                    &&& final(store)@ == old(store)@.update(
                        i,
                        with_url(old(store)@[i], url, t.updated_at),
                    )
                    &&& t == final(store)@[i]
                },
                None => !has_active(old(store)@) && final(store)@ == old(store)@,
            },
    {
        let now = now_millis();
        Self::update_active_url_at(store, url, now)
    }

    /// `update_active_title_at`, now.
    pub fn update_active_title(store: &mut TabStore, title: String) -> (r: Option<Tab>)
        requires
            old(store).wf(),
        ensures
            final(store).wf(),
            match r {
                Some(t) => {
                    let i = active_index(old(store)@);
                    &&& has_active(old(store)@)
                    &&& final(store)@ == old(store)@.update(
                        i,
                        with_title(old(store)@[i], title, t.updated_at),
                    )
                    &&& t == final(store)@[i]
                },
                None => !has_active(old(store)@) && final(store)@ == old(store)@,
            },
    {
        let now = now_millis();
        Self::update_active_title_at(store, title, now)
    }

    /// `close_at`, now.
    pub fn close(store: &mut TabStore, id: &String) -> (r: Option<Tab>)
        requires
            old(store).wf(),
        ensures
            final(store).wf(),
            !has_id(old(store)@, id@) ==> r is None && final(store)@ == old(store)@,
            has_id(old(store)@, id@) ==> {
                let i = index_of(old(store)@, id@);
                &&& r is Some <==> old(store)@[i].is_active && old(store)@.len() > 1
                &&& r matches Some(t) ==> final(store)@ == closed(old(store)@, i, t.last_opened_at)
                    && t == final(store)@[replacement(old(store)@, i)]
                &&& r is None ==> final(store)@ == old(store)@.remove(i)
            },
    {
        let now = now_millis();
        Self::close_at(store, id, now)
    }

    /// `activate_next_at`, now.
    pub fn activate_next(store: &mut TabStore) -> (r: Option<Tab>)
        requires
            old(store).wf(),
        ensures
            final(store).wf(),
            old(store)@.len() == 0 ==> r is None && final(store)@ == old(store)@,
            old(store)@.len() > 0 ==> {
                let i = adjacent_target(old(store)@, true);
                &&& 0 <= i < old(store)@.len()
                &&& r is Some
                &&& final(store)@ == activated(old(store)@, i, r->0.last_opened_at)
                &&& r == Some(final(store)@[i])
            },
    {
        let now = now_millis();
        Self::activate_next_at(store, now)
    }

    /// `activate_previous_at`, now.
    pub fn activate_previous(store: &mut TabStore) -> (r: Option<Tab>)
        requires
            old(store).wf(),
        ensures
            final(store).wf(),
            old(store)@.len() == 0 ==> r is None && final(store)@ == old(store)@,
            old(store)@.len() > 0 ==> {
                let i = adjacent_target(old(store)@, false);
                &&& 0 <= i < old(store)@.len()
                &&& r is Some
                &&& final(store)@ == activated(old(store)@, i, r->0.last_opened_at)
                &&& r == Some(final(store)@[i])
            },
    {
        let now = now_millis();
        Self::activate_previous_at(store, now)
    }

    /// `close_active_at`, now.
    pub fn close_active(store: &mut TabStore) -> (r: Option<Tab>)
        requires
            old(store).wf(),
        ensures
            final(store).wf(),
            !has_active(old(store)@) ==> r is None && final(store)@ == old(store)@,
            has_active(old(store)@) ==> {
                let i = active_index(old(store)@);
                &&& r is Some <==> old(store)@.len() > 1
                &&& r matches Some(t) ==> final(store)@ == closed(old(store)@, i, t.last_opened_at)
                    && t == final(store)@[replacement(old(store)@, i)]
                &&& r is None ==> final(store)@ == old(store)@.remove(i)
            },
    {
        let now = now_millis();
        Self::close_active_at(store, now)
    }
}

} // verus!
