use nob::service::{TabError, TabService};
use nob::store::TabStore;
use nob::tab::{CreateTabPayload, ReorderTabsPayload, Tab, UpdateTabPayload};

fn payload(url: &str) -> CreateTabPayload {
    CreateTabPayload {
        url: url.to_string(),
        title: None,
        favicon_url: None,
        is_pinned: None,
        activate: None,
    }
}

fn s(x: &str) -> String {
    x.to_string()
}

fn store_abc() -> TabStore {
    let mut store = TabStore::new();
    TabService::create_at(&mut store, payload("https://a.example/"), s("A"), 10).unwrap();
    TabService::create_at(&mut store, payload("https://b.example/"), s("B"), 20).unwrap();
    TabService::create_at(&mut store, payload("https://c.example/"), s("C"), 30).unwrap();
    store
}

fn active_ids(store: &TabStore) -> Vec<String> {
    TabService::list(store).into_iter().filter(|t| t.is_active).map(|t| t.id).collect()
}

fn ids(tabs: &[Tab]) -> Vec<String> {
    tabs.iter().map(|t| t.id.clone()).collect()
}

#[test]
fn create_fills_defaults_and_activates() {
    let mut store = TabStore::new();
    let t = TabService::create_at(&mut store, payload("https://a.example/"), s("A"), 42).unwrap();
    assert_eq!(t.id, "A");
    assert_eq!(t.title, "https://a.example/");
    assert_eq!(t.url, "https://a.example/");
    assert_eq!(t.favicon_url, None);
    assert!(!t.is_pinned);
    assert!(t.is_active);
    assert_eq!(t.sort_order, 0);
    assert_eq!(t.last_opened_at, 42);
    assert_eq!(t.created_at, 42);
    assert_eq!(t.updated_at, 42);
}

#[test]
fn create_takes_next_sort_order_and_deactivates_others() {
    let store = store_abc();
    let tabs = TabService::list(&store);
    assert_eq!(ids(&tabs), vec![s("A"), s("B"), s("C")]);
    assert_eq!(tabs.iter().map(|t| t.sort_order).collect::<Vec<_>>(), vec![0, 1, 2]);
    assert_eq!(active_ids(&store), vec![s("C")]);
}

#[test]
fn create_without_activation_keeps_active_tab() {
    let mut store = store_abc();
    let mut p = payload("https://d.example/");
    p.activate = Some(false);
    p.title = Some(s("Dee"));
    p.is_pinned = Some(true);
    let t = TabService::create_at(&mut store, p, s("D"), 40).unwrap();
    assert!(!t.is_active);
    assert_eq!(t.title, "Dee");
    assert!(t.is_pinned);
    assert_eq!(t.sort_order, 3);
    assert_eq!(active_ids(&store), vec![s("C")]);
    assert_eq!(ids(&TabService::list(&store)), vec![s("D"), s("A"), s("B"), s("C")]);
}

#[test]
fn create_refuses_a_taken_id() {
    let mut store = store_abc();
    let r = TabService::create_at(&mut store, payload("https://x.example/"), s("B"), 50);
    assert_eq!(r.unwrap_err(), TabError::DuplicateId);
    assert_eq!(TabService::list(&store).len(), 3);
    assert_eq!(active_ids(&store), vec![s("C")]);
}

#[test]
fn create_refuses_when_sort_order_is_exhausted() {
    let row = Tab {
        id: s("Z"),
        title: s("z"),
        url: s("https://z.example/"),
        favicon_url: None,
        is_pinned: false,
        is_active: false,
        sort_order: i32::MAX,
        last_opened_at: 0,
        created_at: 0,
        updated_at: 0,
    };
    let mut store = TabStore::from_rows(vec![row]).unwrap();
    let r = TabService::create_at(&mut store, payload("https://x.example/"), s("X"), 1);
    assert_eq!(r.unwrap_err(), TabError::SortOrderExhausted);
    assert_eq!(TabService::list(&store).len(), 1);
}

#[test]
fn create_with_fresh_id() {
    let mut store = TabStore::new();
    let t = TabService::create(&mut store, payload("https://a.example/")).unwrap();
    assert_eq!(t.id.len(), 36);
    let u = TabService::create(&mut store, payload("https://b.example/")).unwrap();
    assert_ne!(t.id, u.id);
    assert_eq!(active_ids(&store), vec![u.id]);
}

#[test]
fn from_rows_refuses_two_active_or_shared_ids() {
    let row = |id: &str, active: bool| Tab {
        id: s(id),
        title: s(id),
        url: s(id),
        favicon_url: None,
        is_pinned: false,
        is_active: active,
        sort_order: 0,
        last_opened_at: 0,
        created_at: 0,
        updated_at: 0,
    };
    assert!(TabStore::from_rows(vec![row("A", true), row("B", true)]).is_none());
    assert!(TabStore::from_rows(vec![row("A", false), row("A", false)]).is_none());
    assert!(TabStore::from_rows(vec![row("A", true), row("B", false)]).is_some());
    assert!(TabStore::from_rows(vec![]).is_some());
}

#[test]
fn update_changes_only_given_fields() {
    let mut store = store_abc();
    let p = UpdateTabPayload {
        id: s("A"),
        title: Some(s("Alpha")),
        url: None,
        favicon_url: Some(s("https://a.example/icon.png")),
        is_pinned: Some(true),
    };
    let t = TabService::update_at(&mut store, p, 99).unwrap();
    assert_eq!(t.title, "Alpha");
    assert_eq!(t.url, "https://a.example/");
    assert_eq!(t.favicon_url, Some(s("https://a.example/icon.png")));
    assert!(t.is_pinned);
    assert!(!t.is_active);
    assert_eq!(t.sort_order, 0);
    assert_eq!(t.updated_at, 99);
    assert_eq!(t.last_opened_at, 10);
}

#[test]
fn update_of_unknown_id_is_none() {
    let mut store = store_abc();
    let p = UpdateTabPayload { id: s("Q"), title: Some(s("x")), url: None, favicon_url: None, is_pinned: None };
    assert!(TabService::update_at(&mut store, p, 99).is_none());
    assert_eq!(TabService::get(&store, &s("A")).unwrap().title, "https://a.example/");
}

#[test]
fn activate_moves_the_single_active_flag() {
    let mut store = store_abc();
    let t = TabService::activate_at(&mut store, &s("A"), 77).unwrap();
    assert!(t.is_active);
    assert_eq!(t.last_opened_at, 77);
    assert_eq!(t.updated_at, 77);
    assert_eq!(active_ids(&store), vec![s("A")]);
    assert_eq!(TabService::get_active(&store).unwrap().id, "A");
}

#[test]
fn activate_unknown_id_changes_nothing() {
    let mut store = store_abc();
    assert!(TabService::activate_at(&mut store, &s("Q"), 77).is_none());
    assert_eq!(active_ids(&store), vec![s("C")]);
}

#[test]
fn single_active_after_any_sequence() {
    let mut store = TabStore::new();
    assert!(active_ids(&store).is_empty());
    TabService::create_at(&mut store, payload("https://a.example/"), s("A"), 1).unwrap();
    TabService::create_at(&mut store, payload("https://b.example/"), s("B"), 2).unwrap();
    assert!(active_ids(&store).len() <= 1);
    TabService::activate_at(&mut store, &s("A"), 3);
    assert!(active_ids(&store).len() <= 1);
    TabService::close_at(&mut store, &s("A"), 4);
    assert_eq!(active_ids(&store), vec![s("B")]);
    TabService::close_at(&mut store, &s("B"), 5);
    assert!(active_ids(&store).is_empty());
}

#[test]
fn close_active_hands_over_to_first_in_order() {
    let mut store = store_abc();
    let r = TabService::close_at(&mut store, &s("C"), 50).unwrap();
    assert_eq!(r.id, "A");
    assert!(r.is_active);
    assert_eq!(r.last_opened_at, 50);
    assert_eq!(active_ids(&store), vec![s("A")]);
    assert_eq!(ids(&TabService::list(&store)), vec![s("A"), s("B")]);
}

#[test]
fn close_inactive_keeps_the_active_tab() {
    let mut store = store_abc();
    assert!(TabService::close_at(&mut store, &s("A"), 50).is_none());
    assert_eq!(active_ids(&store), vec![s("C")]);
    assert_eq!(ids(&TabService::list(&store)), vec![s("B"), s("C")]);
}

#[test]
fn close_last_tab_leaves_none_active() {
    let mut store = TabStore::new();
    TabService::create_at(&mut store, payload("https://a.example/"), s("A"), 1).unwrap();
    assert!(TabService::close_at(&mut store, &s("A"), 2).is_none());
    assert!(TabService::list(&store).is_empty());
    assert!(TabService::get_active(&store).is_none());
}

#[test]
fn close_unknown_id_is_none() {
    let mut store = store_abc();
    assert!(TabService::close_at(&mut store, &s("Q"), 2).is_none());
    assert_eq!(TabService::list(&store).len(), 3);
}

#[test]
fn close_active_tab_by_lookup() {
    let mut store = store_abc();
    let r = TabService::close_active_at(&mut store, 60).unwrap();
    assert_eq!(r.id, "A");
    assert!(TabService::get(&store, &s("C")).is_none());
    let mut empty = TabStore::new();
    assert!(TabService::close_active_at(&mut empty, 60).is_none());
}

#[test]
fn reorder_sets_sort_order_by_position() {
    let mut store = store_abc();
    TabService::reorder(&mut store, ReorderTabsPayload { ordered_ids: vec![s("C"), s("A"), s("B")] });
    assert_eq!(TabService::get(&store, &s("A")).unwrap().sort_order, 1);
    assert_eq!(TabService::get(&store, &s("B")).unwrap().sort_order, 2);
    assert_eq!(TabService::get(&store, &s("C")).unwrap().sort_order, 0);
    assert_eq!(ids(&TabService::list(&store)), vec![s("C"), s("A"), s("B")]);
}

#[test]
fn reorder_skips_unknown_and_keeps_omitted() {
    let mut store = store_abc();
    TabService::reorder(&mut store, ReorderTabsPayload { ordered_ids: vec![s("Q"), s("C")] });
    assert_eq!(TabService::get(&store, &s("C")).unwrap().sort_order, 1);
    assert_eq!(TabService::get(&store, &s("A")).unwrap().sort_order, 0);
    assert_eq!(TabService::get(&store, &s("B")).unwrap().sort_order, 1);
}

#[test]
fn list_orders_pinned_then_sort_order_then_recent() {
    let mut store = store_abc();
    TabService::reorder(&mut store, ReorderTabsPayload { ordered_ids: vec![s("A"), s("B"), s("B")] });
    // A=0, B=2, C=2: B and C tie on sort order; C was opened later.
    assert_eq!(ids(&TabService::list(&store)), vec![s("A"), s("C"), s("B")]);
    TabService::activate_at(&mut store, &s("B"), 100);
    assert_eq!(ids(&TabService::list(&store)), vec![s("A"), s("B"), s("C")]);
    let p = UpdateTabPayload { id: s("C"), title: None, url: None, favicon_url: None, is_pinned: Some(true) };
    TabService::update_at(&mut store, p, 101);
    assert_eq!(ids(&TabService::list(&store)), vec![s("C"), s("A"), s("B")]);
}

#[test]
fn next_then_previous_returns_to_start() {
    let mut store = store_abc();
    TabService::activate_at(&mut store, &s("A"), 40);
    assert_eq!(TabService::activate_next_at(&mut store, 41).unwrap().id, "B");
    assert_eq!(TabService::activate_previous_at(&mut store, 42).unwrap().id, "A");
    assert_eq!(active_ids(&store), vec![s("A")]);
}

#[test]
fn next_and_previous_wrap_around() {
    let mut store = store_abc();
    assert_eq!(TabService::activate_next_at(&mut store, 41).unwrap().id, "A");
    assert_eq!(TabService::activate_previous_at(&mut store, 42).unwrap().id, "C");
}

#[test]
fn next_without_active_takes_first_and_empty_gives_none() {
    let mut empty = TabStore::new();
    assert!(TabService::activate_next_at(&mut empty, 1).is_none());
    assert!(TabService::activate_previous_at(&mut empty, 1).is_none());
    let row = Tab {
        id: s("Z"),
        title: s("z"),
        url: s("https://z.example/"),
        favicon_url: None,
        is_pinned: false,
        is_active: false,
        sort_order: 5,
        last_opened_at: 0,
        created_at: 0,
        updated_at: 0,
    };
    let mut idle = TabStore::from_rows(vec![row]).unwrap();
    assert_eq!(TabService::activate_previous_at(&mut idle, 9).unwrap().id, "Z");
}

#[test]
fn single_tab_cycles_to_itself() {
    let mut store = TabStore::new();
    TabService::create_at(&mut store, payload("https://a.example/"), s("A"), 1).unwrap();
    assert_eq!(TabService::activate_next_at(&mut store, 2).unwrap().id, "A");
    assert_eq!(TabService::activate_previous_at(&mut store, 3).unwrap().id, "A");
}

#[test]
fn active_url_and_title_updates() {
    let mut store = store_abc();
    let t = TabService::update_active_url_at(&mut store, s("https://c2.example/"), 70).unwrap();
    assert_eq!(t.id, "C");
    assert_eq!(t.url, "https://c2.example/");
    assert_eq!(t.updated_at, 70);
    let t = TabService::update_active_title_at(&mut store, s("Sea"), 71).unwrap();
    assert_eq!(t.title, "Sea");
    assert_eq!(t.url, "https://c2.example/");
    let mut empty = TabStore::new();
    assert!(TabService::update_active_url_at(&mut empty, s("x"), 1).is_none());
    assert!(TabService::update_active_title_at(&mut empty, s("x"), 1).is_none());
}

#[test]
fn clock_reading_operations() {
    let mut store = TabStore::new();
    let a = TabService::create(&mut store, payload("https://a.example/")).unwrap();
    let b = TabService::create(&mut store, payload("https://b.example/")).unwrap();
    assert_eq!(TabService::activate(&mut store, &a.id).unwrap().id, a.id);
    assert_eq!(TabService::activate_next(&mut store).unwrap().id, b.id);
    assert_eq!(TabService::activate_previous(&mut store).unwrap().id, a.id);
    assert_eq!(TabService::update_active_title(&mut store, s("T")).unwrap().title, "T");
    assert_eq!(TabService::update_active_url(&mut store, s("https://u.example/")).unwrap().url, "https://u.example/");
    let p = UpdateTabPayload { id: b.id.clone(), title: Some(s("Bee")), url: None, favicon_url: None, is_pinned: None };
    assert_eq!(TabService::update(&mut store, p).unwrap().title, "Bee");
    assert_eq!(TabService::close_active(&mut store).unwrap().id, b.id);
    assert!(TabService::close(&mut store, &b.id).is_none());
    assert!(TabService::list(&store).is_empty());
}
