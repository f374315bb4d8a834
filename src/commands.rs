//! The tab commands: each runs one tab operation, then says what the content
//! surface should do and which change notifications go out.

use vstd::prelude::*;
use crate::clock::now_millis;
use crate::presence::{
    Effect, PresenceAction, PresenceError, PresenceState, SurfaceStatus, clear_current_url,
    effects, hide_content_window, hide_effects, opt_view, present_content_window, present_outcome,
    set_current_url,
};
use crate::service::{
    TabError, TabService, adjacent_target, closed, created, next_sort_order, replacement,
    reordered, updated, with_title, with_url,
};
use crate::store::{TabStore, activated, active_index, has_active, has_id, index_of};
use crate::tab::{
    CreateTabPayload, ReorderTabsPayload, Tab, UpdateTabPayload, copy_opt_string, copy_string,
};

verus! {

/// A change notification for listeners of the tab table.
#[derive(Debug)]
pub enum TabChange {
    Created(Tab),
    Updated(Tab),
    Activated(Tab),
    /// The tab with this id was asked to close.
    Closed { id: String },
    /// The active tab was asked to close.
    ClosedActive,
    /// The order changed, at this time.
    Reordered { at: i64 },
}

/// What a command returns, what the content surface should do, and what to
/// announce, in order.
pub struct Dispatch<T> {
    pub value: T,
    pub actions: Vec<PresenceAction>,
    pub changes: Vec<TabChange>,
    /// The URL to hand to `record_presentation` once the host has carried
    /// out `actions`.
    pub shown: Option<String>,
}

/// The effects of a `present` whose failure is ignored.
pub open spec fn ok_or_nothing(o: Result<Seq<Effect>, PresenceError>) -> Seq<Effect> {
    match o {
        Ok(e) => e,
        Err(_) => Seq::empty(),
    }
}

/// The URL that a presentation of `url` asks to remember: the explicit URL,
/// when the plan succeeded.
pub open spec fn to_record(p: PresenceState, url: Option<String>, content: SurfaceStatus) -> Option<
    String,
> {
    match present_outcome(p, url, false, content) {
        Ok(_) => url,
        Err(_) => None,
    }
}

fn present_quietly(presence: &PresenceState, url: Option<String>, content: SurfaceStatus) -> (r: (
    Vec<PresenceAction>,
    Option<String>,
))
    ensures
        effects(r.0@) == ok_or_nothing(present_outcome(*presence, url, false, content)),
        r.1 == to_record(*presence, url, content),
{
    let keep = copy_opt_string(&url);
    match present_content_window(presence, url, false, content) {
        Ok(v) => (v, keep),
        Err(_) => {
            let v: Vec<PresenceAction> = Vec::new();
            assert(effects(v@) =~= Seq::<Effect>::empty());
            (v, None)
        },
    }
}

/// The URL argument that shows `t`: `None` when `t`'s URL is the remembered
/// one, so that the page is not reloaded.
pub open spec fn navigation_target(cached: Option<String>, t: Tab) -> Option<String> {
    if opt_view(cached) == Some(t.url@) {
        None
    } else {
        Some(t.url)
    }
}

/// What follows a replacement tab becoming active after a close: show it, or,
/// when none did, hide the content surface and forget its URL. Gives the next
/// state, the effects, and the URL to remember once they are carried out.
pub open spec fn after_close(p: PresenceState, r: Option<Tab>, content: SurfaceStatus) -> (
    PresenceState,
    Seq<Effect>,
    Option<String>,
) {
    match r {
        Some(t) => (
            p,
            ok_or_nothing(present_outcome(p, Some(t.url), false, content)),
            to_record(p, Some(t.url), content),
        ),
        None => (PresenceState { cached_url: None, ..p }, hide_effects(content), None),
    }
}

fn show_replacement(presence: &mut PresenceState, r: &Option<Tab>, content: SurfaceStatus) -> (a: (
    Vec<PresenceAction>,
    Option<String>,
))
    ensures
        *final(presence) == after_close(*old(presence), *r, content).0,
        effects(a.0@) == after_close(*old(presence), *r, content).1,
        a.1 == after_close(*old(presence), *r, content).2,
{
    match r {
        Some(t) => present_quietly(presence, Some(copy_string(&t.url)), content),
        None => {
            let a = hide_content_window(content);
            clear_current_url(presence);
            (a, None)
        },
    }
}

/// Creates a tab and shows its URL without focusing the content surface.
pub fn tabs_create(
    store: &mut TabStore,
    presence: &PresenceState,
    payload: CreateTabPayload,
    content: SurfaceStatus,
) -> (r: Result<Dispatch<Tab>, TabError>)
    requires
        old(store).wf(),
    ensures
        final(store).wf(),
        match r {
            Ok(d) => {
                &&& next_sort_order(old(store)@) <= i32::MAX
                &&& final(store)@ == created(old(store)@, payload, d.value.id, d.value.created_at)
                &&& d.value == final(store)@.last()
                &&& effects(d.actions@) == ok_or_nothing(
                    present_outcome(*presence, Some(d.value.url), false, content),
                )
                &&& d.shown == to_record(*presence, Some(d.value.url), content)
                &&& d.changes@ == seq![TabChange::Created(d.value)]
            },
            Err(e) => {
                &&& final(store)@ == old(store)@
                &&& (e == TabError::SortOrderExhausted <==> next_sort_order(old(store)@)
                    > i32::MAX)
                &&& e == TabError::DuplicateId ==> exists|k: int|
                    0 <= k < old(store)@.len() && (#[trigger] old(store)@[k]).id@.len() == 36
            },
        },
{
    match TabService::create(store, payload) {
        Ok(tab) => {
            let (actions, shown) = present_quietly(presence, Some(copy_string(&tab.url)), content);
            let mut changes: Vec<TabChange> = Vec::new();
            let value = tab.duplicate();
            changes.push(TabChange::Created(tab));
            Ok(Dispatch { value, actions, changes, shown })
        },
        Err(e) => Err(e),
    }
}

/// Updates a tab and announces it.
pub fn tabs_update(store: &mut TabStore, payload: UpdateTabPayload) -> (r: Dispatch<Option<Tab>>)
    requires
        old(store).wf(),
    ensures
        final(store).wf(),
        r.actions@.len() == 0,
        r.shown is None,
        match r.value {
            Some(t) => {
                let i = index_of(old(store)@, payload.id@);
                &&& has_id(old(store)@, payload.id@)
                &&& final(store)@ == old(store)@.update(
                    i,
                    updated(old(store)@[i], payload, t.updated_at),
                )
                &&& t == final(store)@[i]
                &&& r.changes@ == seq![TabChange::Updated(t)]
            },
            None => {
                &&& !has_id(old(store)@, payload.id@)
                &&& final(store)@ == old(store)@
                &&& r.changes@.len() == 0
            },
        },
{
    let value = TabService::update(store, payload);
    let mut changes: Vec<TabChange> = Vec::new();
    match &value {
        Some(t) => changes.push(TabChange::Updated(t.duplicate())),
        None => {},
    }
    Dispatch { value, actions: Vec::new(), changes, shown: None }
}

/// Activates a tab and shows it, navigating only when its URL is not the one
/// already shown.
pub fn tabs_activate(
    store: &mut TabStore,
    presence: &PresenceState,
    id: &String,
    content: SurfaceStatus,
) -> (r: Dispatch<Option<Tab>>)
    requires
        old(store).wf(),
    ensures
        final(store).wf(),
        match r.value {
            Some(t) => {
                let i = index_of(old(store)@, id@);
                let arg = navigation_target(presence.cached_url, t);
                &&& has_id(old(store)@, id@)
                &&& final(store)@ == activated(old(store)@, i, t.last_opened_at)
                &&& t == final(store)@[i]
                &&& effects(r.actions@) == ok_or_nothing(
                    present_outcome(*presence, arg, false, content),
                )
                &&& r.shown == to_record(*presence, arg, content)
                &&& r.changes@ == seq![TabChange::Activated(t)]
            },
            None => {
                &&& !has_id(old(store)@, id@)
                &&& final(store)@ == old(store)@
                &&& r.actions@.len() == 0
                &&& r.shown is None
                &&& r.changes@.len() == 0
            },
        },
{
    let value = TabService::activate(store, id);
    let mut changes: Vec<TabChange> = Vec::new();
    let (actions, shown) = match &value {
        Some(t) => {
            let same = match &presence.cached_url {
                Some(c) => *c == t.url,
                None => false,
            };
            let arg = if same {
                None
            } else {
                Some(copy_string(&t.url))
            };
            let a = present_quietly(presence, arg, content);
            changes.push(TabChange::Activated(t.duplicate()));
            a
        },
        None => (Vec::new(), None),
    };
    Dispatch { value, actions, changes, shown }
}

/// Closes a tab. A replacement that became active is shown; when none did,
/// the content surface hides and its URL is forgotten.
pub fn tabs_close(
    store: &mut TabStore,
    presence: &mut PresenceState,
    id: &String,
    content: SurfaceStatus,
) -> (r: Dispatch<Option<Tab>>)
    requires
        old(store).wf(),
    ensures
        final(store).wf(),
        !has_id(old(store)@, id@) ==> r.value is None && final(store)@ == old(store)@,
        has_id(old(store)@, id@) ==> {
            let i = index_of(old(store)@, id@);
            &&& r.value is Some <==> old(store)@[i].is_active && old(store)@.len() > 1
            &&& r.value matches Some(t) ==> final(store)@ == closed(
                old(store)@,
                i,
                t.last_opened_at,
            ) && t == final(store)@[replacement(old(store)@, i)]
            &&& r.value is None ==> final(store)@ == old(store)@.remove(i)
        },
        *final(presence) == after_close(*old(presence), r.value, content).0,
        effects(r.actions@) == after_close(*old(presence), r.value, content).1,
        r.shown == after_close(*old(presence), r.value, content).2,
        match r.value {
            Some(t) => r.changes@ == seq![TabChange::Closed { id: *id }, TabChange::Activated(t)],
            None => r.changes@ == seq![TabChange::Closed { id: *id }],
        },
{
    let value = TabService::close(store, id);
    let (actions, shown) = show_replacement(presence, &value, content);
    let mut changes: Vec<TabChange> = Vec::new();
    changes.push(TabChange::Closed { id: copy_string(id) });
    match &value {
        Some(t) => changes.push(TabChange::Activated(t.duplicate())),
        None => {},
    }
    Dispatch { value, actions, changes, shown }
}

/// Closes the active tab, as `tabs_close` does.
pub fn tabs_close_active(
    store: &mut TabStore,
    presence: &mut PresenceState,
    content: SurfaceStatus,
) -> (r: Dispatch<Option<Tab>>)
    requires
        old(store).wf(),
    ensures
        final(store).wf(),
        !has_active(old(store)@) ==> r.value is None && final(store)@ == old(store)@,
        has_active(old(store)@) ==> {
            let i = active_index(old(store)@);
            &&& r.value is Some <==> old(store)@.len() > 1
            &&& r.value matches Some(t) ==> final(store)@ == closed(
                old(store)@,
                i,
                t.last_opened_at,
            ) && t == final(store)@[replacement(old(store)@, i)]
            &&& r.value is None ==> final(store)@ == old(store)@.remove(i)
        },
        *final(presence) == after_close(*old(presence), r.value, content).0,
        effects(r.actions@) == after_close(*old(presence), r.value, content).1,
        r.shown == after_close(*old(presence), r.value, content).2,
        match r.value {
            Some(t) => r.changes@ == seq![TabChange::ClosedActive, TabChange::Activated(t)],
            None => r.changes@ == seq![TabChange::ClosedActive],
        },
{
    let value = TabService::close_active(store);
    let (actions, shown) = show_replacement(presence, &value, content);
    let mut changes: Vec<TabChange> = Vec::new();
    changes.push(TabChange::ClosedActive);
    match &value {
        Some(t) => changes.push(TabChange::Activated(t.duplicate())),
        None => {},
    }
    Dispatch { value, actions, changes, shown }
}

/// Reorders the tabs and announces it.
pub fn tabs_reorder(store: &mut TabStore, payload: ReorderTabsPayload) -> (r: Dispatch<()>)
    requires
        old(store).wf(),
        payload.ordered_ids@.len() <= i32::MAX + 1,
    ensures
        final(store).wf(),
        final(store)@ == reordered(old(store)@, payload.ordered_ids@, payload.ordered_ids@.len()),
        r.actions@.len() == 0,
        r.shown is None,
        r.changes@.len() == 1,
        r.changes@[0] is Reordered,
{
    TabService::reorder(store, payload);
    let mut changes: Vec<TabChange> = Vec::new();
    changes.push(TabChange::Reordered { at: now_millis() });
    Dispatch { value: (), actions: Vec::new(), changes, shown: None }
}

/// Steps to the next (`forward`) or previous tab and shows it.
fn tabs_activate_adjacent(
    store: &mut TabStore,
    presence: &PresenceState,
    forward: bool,
    content: SurfaceStatus,
) -> (r: Dispatch<Option<Tab>>)
    requires
        old(store).wf(),
    ensures
        final(store).wf(),
        old(store)@.len() == 0 ==> {
            &&& r.value is None
            &&& final(store)@ == old(store)@
            &&& r.shown is None
            &&& r.actions@.len() == 0
            &&& r.changes@.len() == 0
        },
        old(store)@.len() > 0 ==> {
            let i = adjacent_target(old(store)@, forward);
            &&& r.value is Some
            &&& final(store)@ == activated(old(store)@, i, r.value->0.last_opened_at)
            &&& r.value->0 == final(store)@[i]
            &&& effects(r.actions@) == ok_or_nothing(
                present_outcome(*presence, Some(r.value->0.url), false, content),
            )
            &&& r.shown == to_record(*presence, Some(r.value->0.url), content)
            &&& r.changes@ == seq![TabChange::Activated(r.value->0)]
        },
{
    let value = if forward {
        TabService::activate_next(store)
    } else {
        TabService::activate_previous(store)
    };
    let mut changes: Vec<TabChange> = Vec::new();
    let (actions, shown) = match &value {
        Some(t) => {
            let a = present_quietly(presence, Some(copy_string(&t.url)), content);
            changes.push(TabChange::Activated(t.duplicate()));
            a
        },
        None => (Vec::new(), None),
    };
    Dispatch { value, actions, changes, shown }
}

/// Steps to the next tab in canonical order and shows it.
pub fn tabs_activate_next(
    store: &mut TabStore,
    presence: &PresenceState,
    content: SurfaceStatus,
) -> (r: Dispatch<Option<Tab>>)
    requires
        old(store).wf(),
    ensures
        final(store).wf(),
        old(store)@.len() == 0 ==> {
            &&& r.value is None
            &&& final(store)@ == old(store)@
            &&& r.shown is None
            &&& r.actions@.len() == 0
            &&& r.changes@.len() == 0
        },
        old(store)@.len() > 0 ==> {
            let i = adjacent_target(old(store)@, true);
            &&& r.value is Some
            &&& final(store)@ == activated(old(store)@, i, r.value->0.last_opened_at)
            &&& r.value->0 == final(store)@[i]
            &&& effects(r.actions@) == ok_or_nothing(
                present_outcome(*presence, Some(r.value->0.url), false, content),
            )
            &&& r.shown == to_record(*presence, Some(r.value->0.url), content)
            &&& r.changes@ == seq![TabChange::Activated(r.value->0)]
        },
{
    tabs_activate_adjacent(store, presence, true, content)
}

/// Steps to the previous tab in canonical order and shows it.
pub fn tabs_activate_previous(
    store: &mut TabStore,
    presence: &PresenceState,
    content: SurfaceStatus,
) -> (r: Dispatch<Option<Tab>>)
    requires
        old(store).wf(),
    ensures
        final(store).wf(),
        old(store)@.len() == 0 ==> {
            &&& r.value is None
            &&& final(store)@ == old(store)@
            &&& r.shown is None
            &&& r.actions@.len() == 0
            &&& r.changes@.len() == 0
        },
        old(store)@.len() > 0 ==> {
            let i = adjacent_target(old(store)@, false);
            &&& r.value is Some
            &&& final(store)@ == activated(old(store)@, i, r.value->0.last_opened_at)
            &&& r.value->0 == final(store)@[i]
            &&& effects(r.actions@) == ok_or_nothing(
                present_outcome(*presence, Some(r.value->0.url), false, content),
            )
            &&& r.shown == to_record(*presence, Some(r.value->0.url), content)
            &&& r.changes@ == seq![TabChange::Activated(r.value->0)]
        },
{
    tabs_activate_adjacent(store, presence, false, content)
}

/// Shows a tab's URL again, navigating even when it is the one shown.
pub fn tabs_reload(
    store: &TabStore,
    presence: &PresenceState,
    id: &String,
    content: SurfaceStatus,
) -> (r: Dispatch<()>)
    requires
        store.wf(),
    ensures
        r.changes@.len() == 0,
        has_id(store@, id@) ==> {
            let t = store@[index_of(store@, id@)];
            &&& effects(r.actions@) == ok_or_nothing(
                present_outcome(*presence, Some(t.url), false, content),
            )
            &&& r.shown == to_record(*presence, Some(t.url), content)
        },
        !has_id(store@, id@) ==> r.actions@.len() == 0 && r.shown is None,
{
    let (actions, shown) = match TabService::get(store, id) {
        Some(t) => present_quietly(presence, Some(t.url), content),
        None => (Vec::new(), None),
    };
    Dispatch { value: (), actions, changes: Vec::new(), shown }
}

/// The content surface reports that it navigated to `url`: the active tab
/// takes it, and it becomes the remembered URL.
pub fn tabs_report_navigation(store: &mut TabStore, presence: &mut PresenceState, url: String) -> (r:
    Dispatch<Option<Tab>>)
    requires
        old(store).wf(),
    ensures
        final(store).wf(),
        r.actions@.len() == 0,
        r.shown is None,
        match r.value {
            Some(t) => {
                let i = active_index(old(store)@);
                &&& has_active(old(store)@)
                &&& final(store)@ == old(store)@.update(
                    i,
                    with_url(old(store)@[i], url, t.updated_at),
                )
                &&& t == final(store)@[i]
                &&& *final(presence) == (PresenceState { cached_url: Some(url), ..*old(presence) })
                &&& r.changes@ == seq![TabChange::Updated(t)]
            },
            None => {
                &&& !has_active(old(store)@)
                &&& final(store)@ == old(store)@
                &&& *final(presence) == *old(presence)
                &&& r.changes@.len() == 0
            },
        },
{
    let value = TabService::update_active_url(store, copy_string(&url));
    let mut changes: Vec<TabChange> = Vec::new();
    match &value {
        Some(t) => {
            set_current_url(presence, url);
            changes.push(TabChange::Updated(t.duplicate()));
        },
        None => {},
    }
    Dispatch { value, actions: Vec::new(), changes, shown: None }
}

/// The content surface reports its title: the active tab takes it.
pub fn tabs_report_title(store: &mut TabStore, title: String) -> (r: Dispatch<Option<Tab>>)
    requires
        old(store).wf(),
    ensures
        final(store).wf(),
        r.actions@.len() == 0,
        r.shown is None,
        match r.value {
            Some(t) => {
                let i = active_index(old(store)@);
                &&& has_active(old(store)@)
                &&& final(store)@ == old(store)@.update(
                    i,
                    with_title(old(store)@[i], title, t.updated_at),
                )
                &&& t == final(store)@[i]
                &&& r.changes@ == seq![TabChange::Updated(t)]
            },
            None => {
                &&& !has_active(old(store)@)
                &&& final(store)@ == old(store)@
                &&& r.changes@.len() == 0
            },
        },
{
    let value = TabService::update_active_title(store, title);
    let mut changes: Vec<TabChange> = Vec::new();
    match &value {
        Some(t) => changes.push(TabChange::Updated(t.duplicate())),
        None => {},
    }
    Dispatch { value, actions: Vec::new(), changes, shown: None }
}

/// The address to report: the one the content surface gives, else the
/// remembered one.
pub fn tabs_get_current_url(surface_url: Option<String>, presence: &PresenceState) -> (r: Option<
    String,
>)
    ensures
        r == (match surface_url {
            Some(u) => Some(u),
            None => presence.cached_url,
        }),
{
    match surface_url {
        Some(u) => Some(u),
        None => crate::presence::get_current_url(presence),
    }
}

} // verus!
