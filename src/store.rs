//! The tab table: rows in storage order, with unique ids and at most one
//! active row.

use vstd::prelude::*;
use crate::order::{canonical_indices, canonical_order, sorted_stably};
use crate::tab::Tab;

verus! {

/// No two rows share an id.
pub open spec fn ids_unique(s: Seq<Tab>) -> bool {
    forall|i: int, j: int|
        0 <= i < s.len() && 0 <= j < s.len() && i != j ==> #[trigger] s[i].id@ != #[trigger] s[j].id@
}

/// At most one row is active.
pub open spec fn single_active(s: Seq<Tab>) -> bool {
    forall|i: int, j: int|
        0 <= i < s.len() && 0 <= j < s.len() && #[trigger] s[i].is_active
            && #[trigger] s[j].is_active ==> i == j
}

pub open spec fn well_formed(s: Seq<Tab>) -> bool {
    ids_unique(s) && single_active(s)
}

pub open spec fn has_id(s: Seq<Tab>, id: Seq<char>) -> bool {
    exists|i: int| 0 <= i < s.len() && #[trigger] s[i].id@ == id
}

/// The row that holds `id`, where one does.
pub open spec fn index_of(s: Seq<Tab>, id: Seq<char>) -> int {
    choose|i: int| 0 <= i < s.len() && #[trigger] s[i].id@ == id
}

pub open spec fn has_active(s: Seq<Tab>) -> bool {
    exists|i: int| 0 <= i < s.len() && #[trigger] s[i].is_active
}

/// The active row, where there is one.
pub open spec fn active_index(s: Seq<Tab>) -> int {
    choose|i: int| 0 <= i < s.len() && #[trigger] s[i].is_active
}

pub open spec fn deactivated(t: Tab) -> Tab {
    Tab { is_active: false, ..t }
}

/// Every row made inactive; nothing else changes.
pub open spec fn deactivate_all(s: Seq<Tab>) -> Seq<Tab> {
    s.map_values(|t: Tab| deactivated(t))
}

/// `t` made active and stamped as opened and updated at `now`.
pub open spec fn reopened(t: Tab, now: i64) -> Tab {
    Tab { is_active: true, last_opened_at: now, updated_at: now, ..t }
}

/// Row `i` becomes the one active row.
pub open spec fn activated(s: Seq<Tab>, i: int, now: i64) -> Seq<Tab> {
    deactivate_all(s).update(i, reopened(s[i], now))
}

pub proof fn lemma_index_of(s: Seq<Tab>, i: int)
    requires
        ids_unique(s),
        0 <= i < s.len(),
    ensures
        has_id(s, s[i].id@),
        index_of(s, s[i].id@) == i,
{
    assert(has_id(s, s[i].id@));
}

pub proof fn lemma_active_index(s: Seq<Tab>, i: int)
    requires
        single_active(s),
        0 <= i < s.len(),
        s[i].is_active,
    ensures
        has_active(s),
        active_index(s) == i,
{
    assert(has_active(s));
}

/// Activation keeps the table well formed and leaves only row `i` active.
pub proof fn lemma_activated(s: Seq<Tab>, i: int, now: i64)
    requires
        well_formed(s),
        0 <= i < s.len(),
    ensures
        well_formed(activated(s, i, now)),
        activated(s, i, now).len() == s.len(),
        forall|j: int|
            0 <= j < s.len() ==> (#[trigger] activated(s, i, now)[j]).is_active == (j == i),
        forall|j: int| 0 <= j < s.len() ==> (#[trigger] activated(s, i, now)[j]).id == s[j].id,
{
    let r = activated(s, i, now);
    assert forall|a: int, b: int|
        0 <= a < r.len() && 0 <= b < r.len() && a != b implies #[trigger] r[a].id@
        != #[trigger] r[b].id@ by {
        assert(r[a].id == s[a].id);
        assert(r[b].id == s[b].id);
    }
}

/// The tab table.
pub struct TabStore {
    rows: Vec<Tab>,
}

impl View for TabStore {
    type V = Seq<Tab>;

    closed spec fn view(&self) -> Seq<Tab> {
        self.rows@
    }
}

impl TabStore {
    pub open spec fn wf(&self) -> bool {
        well_formed(self@)
    }

    /// An empty table.
    pub fn new() -> (r: TabStore)
        ensures
            r@ == Seq::<Tab>::empty(),
            r.wf(),
    {
        TabStore { rows: Vec::new() }
    }

    /// A table over rows read back from storage, if they are well formed.
    pub fn from_rows(rows: Vec<Tab>) -> (r: Option<TabStore>)
        ensures
            r is Some <==> well_formed(rows@),
            r matches Some(st) ==> st@ == rows@,
    {
        let n = rows.len();
        let mut i: usize = 0;
        while i < n
            invariant
                n == rows@.len(),
                i <= n,
                forall|a: int, b: int|
                    0 <= a < i && 0 <= b < n && a != b ==> #[trigger] rows@[a].id@
                        != #[trigger] rows@[b].id@,
                forall|a: int, b: int|
                    0 <= a < i && 0 <= b < n && #[trigger] rows@[a].is_active
                        && #[trigger] rows@[b].is_active ==> a == b,
            decreases n - i,
        {
            let mut j: usize = 0;
            while j < n
                invariant
                    n == rows@.len(),
                    i < n,
                    j <= n,
                    forall|a: int, b: int|
                        0 <= a < i && 0 <= b < n && a != b ==> #[trigger] rows@[a].id@
                            != #[trigger] rows@[b].id@,
                    forall|a: int, b: int|
                        0 <= a < i && 0 <= b < n && #[trigger] rows@[a].is_active
                            && #[trigger] rows@[b].is_active ==> a == b,
                    forall|b: int| 0 <= b < j && b != i ==> rows@[i as int].id@ != #[trigger] rows@[b].id@,
                    forall|b: int|
                        0 <= b < j && rows@[i as int].is_active && #[trigger] rows@[b].is_active ==> b == i,
                decreases n - j,
            {
                if j != i {
                    if rows[i].id == rows[j].id {
                        return None;
                    }
                    if rows[i].is_active && rows[j].is_active {
                        return None;
                    }
                }
                j = j + 1;
            }
            i = i + 1;
        }
        Some(TabStore { rows })
    }

    /// The row index of `id`.
    pub fn position(&self, id: &String) -> (r: Option<usize>)
        ensures
            match r {
                Some(i) => i < self@.len() && self@[i as int].id@ == id@,
                None => !has_id(self@, id@),
            },
    {
        let n = self.rows.len();
        let mut i: usize = 0;
        while i < n
            invariant
                n == self@.len(),
                i <= n,
                forall|k: int| 0 <= k < i ==> #[trigger] self@[k].id@ != id@,
            decreases n - i,
        {
            if self.rows[i].id == *id {
                return Some(i);
            }
            i = i + 1;
        }
        None
    }

    /// The row index of the active tab.
    pub fn active_position(&self) -> (r: Option<usize>)
        ensures
            match r {
                Some(i) => i < self@.len() && self@[i as int].is_active,
                None => !has_active(self@),
            },
    {
        let n = self.rows.len();
        let mut i: usize = 0;
        while i < n
            invariant
                n == self@.len(),
                i <= n,
                forall|k: int| 0 <= k < i ==> !(#[trigger] self@[k]).is_active,
            decreases n - i,
        {
            if self.rows[i].is_active {
                return Some(i);
            }
            i = i + 1;
        }
        None
    }

    /// A copy of row `i`.
    pub fn row(&self, i: usize) -> (r: Tab)
        requires
            i < self@.len(),
        ensures
            r == self@[i as int],
    {
        self.rows[i].duplicate()
    }

    /// Row indices in canonical order.
    pub fn canonical_positions(&self) -> (r: Vec<usize>)
        ensures
            r@ == canonical_order(self@),
            r@.len() == self@.len(),
            r@.no_duplicates(),
            forall|k: int| 0 <= k < r@.len() ==> #[trigger] r@[k] < self@.len(),
            sorted_stably(self@, r@),
    {
        canonical_indices(&self.rows)
    }

    pub fn len(&self) -> (r: usize)
        ensures
            r == self@.len(),
    {
        self.rows.len()
    }

    /// Makes every row inactive.
    pub(crate) fn deactivate_all(&mut self)
        ensures
            final(self)@ == deactivate_all(old(self)@),
    {
        let n = self.rows.len();
        let mut i: usize = 0;
        while i < n
            invariant
                n == self@.len(),
                n == old(self)@.len(),
                i <= n,
                forall|k: int| 0 <= k < i ==> #[trigger] self@[k] == deactivated(old(self)@[k]),
                forall|k: int| i <= k < n ==> #[trigger] self@[k] == old(self)@[k],
            decreases n - i,
        {
            let mut t = self.rows[i].duplicate();
            t.is_active = false;
            self.rows.set(i, t);
            i = i + 1;
        }
        assert(self@ =~= deactivate_all(old(self)@));
    }

    /// Replaces row `i`.
    pub(crate) fn replace(&mut self, i: usize, t: Tab)
        requires
            i < old(self)@.len(),
        ensures
            final(self)@ == old(self)@.update(i as int, t),
    {
        self.rows.set(i, t);
    }

    /// Appends a row.
    pub(crate) fn append(&mut self, t: Tab)
        ensures
            final(self)@ == old(self)@.push(t),
    {
        self.rows.push(t);
    }

    /// Removes row `i` and hands it back.
    pub(crate) fn delete(&mut self, i: usize) -> (r: Tab)
        requires
            i < old(self)@.len(),
        ensures
            r == old(self)@[i as int],
            final(self)@ == old(self)@.remove(i as int),
    {
        self.rows.remove(i)
    }

    /// Row `i` becomes the one active row, opened at `now`.
    pub(crate) fn activate_row(&mut self, i: usize, now: i64) -> (r: Tab)
        requires
            i < old(self)@.len(),
        ensures
            final(self)@ == activated(old(self)@, i as int, now),
            r == final(self)@[i as int],
    {
        let mut t = self.rows[i].duplicate();
        self.deactivate_all();
        t.is_active = true;
        t.last_opened_at = now;
        t.updated_at = now;
        let r = t.duplicate();
        self.rows.set(i, t);
        r
    }
}

} // verus!
