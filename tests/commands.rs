use nob::commands::{
    tabs_activate, tabs_activate_next, tabs_activate_previous, tabs_close, tabs_close_active,
    tabs_create, tabs_get_current_url, tabs_reload, tabs_reorder, tabs_report_navigation,
    tabs_report_title, tabs_update, TabChange,
};
use nob::presence::{record_presentation, PresenceAction, PresenceState, SurfaceStatus};
use nob::service::TabService;
use nob::store::TabStore;
use nob::tab::{CreateTabPayload, ReorderTabsPayload, UpdateTabPayload};

use PresenceAction::{CreateContent, HideContent, MoveContentOffscreen, Navigate, PositionContent, ShowContent};

fn payload(url: &str) -> CreateTabPayload {
    CreateTabPayload { url: url.to_string(), title: None, favicon_url: None, is_pinned: None, activate: None }
}

#[test]
fn create_shows_the_new_tab() {
    let mut store = TabStore::new();
    let mut p = PresenceState::new();
    let d = tabs_create(&mut store, &mut p, payload("https://a.example/"), SurfaceStatus::Absent).unwrap();
    assert_eq!(d.actions, vec![CreateContent { url: "https://a.example/".to_string(), focused: false }, PositionContent]);
    assert!(matches!(&d.changes[..], [TabChange::Created(t)] if t.id == d.value.id));
    assert_eq!(d.shown, Some("https://a.example/".to_string()));
    assert_eq!(p.cached_url, None);
    record_presentation(&mut p, d.shown, true);
    assert_eq!(p.cached_url, Some("https://a.example/".to_string()));
}

#[test]
fn activate_navigates_only_to_a_new_url() {
    let mut store = TabStore::new();
    let mut p = PresenceState::new();
    let d = tabs_create(&mut store, &p, payload("https://a.example/"), SurfaceStatus::Absent).unwrap();
    record_presentation(&mut p, d.shown, true);
    let a = d.value;
    let d = tabs_create(&mut store, &p, payload("https://b.example/"), SurfaceStatus::Shown).unwrap();
    record_presentation(&mut p, d.shown, true);
    let b = d.value;
    let d = tabs_activate(&mut store, &p, &a.id, SurfaceStatus::Shown);
    assert_eq!(d.value.as_ref().unwrap().id, a.id);
    assert_eq!(d.actions, vec![PositionContent, Navigate { url: "https://a.example/".to_string() }]);
    assert_eq!(d.changes.len(), 1);
    record_presentation(&mut p, d.shown, true);
    let d = tabs_activate(&mut store, &mut p, &a.id, SurfaceStatus::Hidden);
    assert_eq!(d.actions, vec![PositionContent, ShowContent]);
    let d = tabs_activate(&mut store, &mut p, &"nope".to_string(), SurfaceStatus::Hidden);
    assert!(d.value.is_none() && d.actions.is_empty() && d.changes.is_empty());
    assert_eq!(TabService::get_active(&store).unwrap().id, a.id);
    assert_ne!(a.id, b.id);
}

#[test]
fn closing_the_last_tab_hides_and_forgets() {
    let mut store = TabStore::new();
    let mut p = PresenceState::new();
    let a = tabs_create(&mut store, &mut p, payload("https://a.example/"), SurfaceStatus::Absent).unwrap().value;
    let d = tabs_close(&mut store, &mut p, &a.id, SurfaceStatus::Shown);
    assert!(d.value.is_none());
    assert_eq!(d.actions, vec![MoveContentOffscreen, HideContent]);
    assert!(matches!(&d.changes[..], [TabChange::Closed { id }] if *id == a.id));
    assert_eq!(p.cached_url, None);
}

#[test]
fn closing_the_active_tab_shows_the_replacement() {
    let mut store = TabStore::new();
    let mut p = PresenceState::new();
    let a = tabs_create(&mut store, &mut p, payload("https://a.example/"), SurfaceStatus::Absent).unwrap().value;
    tabs_create(&mut store, &mut p, payload("https://b.example/"), SurfaceStatus::Shown).unwrap();
    let d = tabs_close_active(&mut store, &mut p, SurfaceStatus::Shown);
    assert_eq!(d.value.as_ref().unwrap().id, a.id);
    assert_eq!(d.actions, vec![PositionContent, Navigate { url: "https://a.example/".to_string() }]);
    assert!(matches!(&d.changes[..], [TabChange::ClosedActive, TabChange::Activated(t)] if t.id == a.id));
}

#[test]
fn cycling_commands_show_the_target() {
    let mut store = TabStore::new();
    let mut p = PresenceState::new();
    let a = tabs_create(&mut store, &mut p, payload("https://a.example/"), SurfaceStatus::Absent).unwrap().value;
    let b = tabs_create(&mut store, &mut p, payload("https://b.example/"), SurfaceStatus::Shown).unwrap().value;
    let d = tabs_activate_next(&mut store, &mut p, SurfaceStatus::Shown);
    assert_eq!(d.value.unwrap().id, a.id);
    let d = tabs_activate_previous(&mut store, &mut p, SurfaceStatus::Shown);
    assert_eq!(d.value.unwrap().id, b.id);
    assert_eq!(d.actions, vec![PositionContent, Navigate { url: "https://b.example/".to_string() }]);
    let mut empty = TabStore::new();
    assert!(tabs_activate_next(&mut empty, &mut p, SurfaceStatus::Shown).value.is_none());
}

#[test]
fn reports_update_the_active_tab_and_cache() {
    let mut store = TabStore::new();
    let mut p = PresenceState::new();
    tabs_create(&mut store, &mut p, payload("https://a.example/"), SurfaceStatus::Absent).unwrap();
    let d = tabs_report_navigation(&mut store, &mut p, "https://a.example/next".to_string());
    assert_eq!(d.value.unwrap().url, "https://a.example/next");
    assert_eq!(p.cached_url, Some("https://a.example/next".to_string()));
    let d = tabs_report_title(&mut store, "Next".to_string());
    assert_eq!(d.value.unwrap().title, "Next");
    assert_eq!(d.changes.len(), 1);
    let mut empty = TabStore::new();
    let d = tabs_report_navigation(&mut empty, &mut p, "https://z.example/".to_string());
    assert!(d.value.is_none());
    assert_eq!(p.cached_url, Some("https://a.example/next".to_string()));
}

#[test]
fn update_reorder_reload_and_current_url() {
    let mut store = TabStore::new();
    let mut p = PresenceState::new();
    let d = tabs_create(&mut store, &p, payload("https://a.example/"), SurfaceStatus::Absent).unwrap();
    record_presentation(&mut p, d.shown, true);
    let a = d.value;
    let d = tabs_update(&mut store, UpdateTabPayload { id: a.id.clone(), title: Some("A".to_string()), url: None, favicon_url: None, is_pinned: None });
    assert_eq!(d.value.unwrap().title, "A");
    let d = tabs_reorder(&mut store, ReorderTabsPayload { ordered_ids: vec![a.id.clone()] });
    assert!(matches!(&d.changes[..], [TabChange::Reordered { .. }]));
    let r = tabs_reload(&store, &p, &a.id, SurfaceStatus::Shown);
    assert_eq!(r.actions, vec![PositionContent, Navigate { url: "https://a.example/".to_string() }]);
    assert_eq!(tabs_get_current_url(None, &p), Some("https://a.example/".to_string()));
    assert_eq!(tabs_get_current_url(Some("https://live.example/".to_string()), &p), Some("https://live.example/".to_string()));
}
