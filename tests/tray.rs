use nob::feature::{init_features, Feature, TabFeature, WindowFeature};
use nob::presence::{toggle_main_window, MainWindowAction};
use nob::presence::PresenceState;
use nob::service::TabService;
use nob::store::TabStore;
use nob::tab::CreateTabPayload;
use nob::tray::{
    activate_next_item, build_tray_registry, close_active_item, quit_app_item, theme_dark_item,
    theme_light_item, theme_system_item, Theme, TrayAction, TrayEntry,
};

#[test]
fn tray_layout() {
    let r = build_tray_registry();
    let layout: Vec<Option<TrayAction>> = r
        .entries
        .iter()
        .map(|e| match e {
            TrayEntry::Item(i) => Some(i.action),
            TrayEntry::Separator => None,
        })
        .collect();
    assert_eq!(
        layout,
        vec![
            Some(TrayAction::ToggleWindow),
            None,
            Some(TrayAction::SetTheme(Theme::Light)),
            Some(TrayAction::SetTheme(Theme::Dark)),
            Some(TrayAction::SetTheme(Theme::System)),
            None,
            Some(TrayAction::Quit),
        ]
    );
    let ids: Vec<Option<&str>> = r
        .entries
        .iter()
        .map(|e| match e {
            TrayEntry::Item(i) => Some(i.id.as_str()),
            TrayEntry::Separator => None,
        })
        .collect();
    assert_eq!(
        ids,
        vec![Some("toggle_window"), None, Some("theme_light"), Some("theme_dark"), Some("theme_system"), None, Some("quit")]
    );
}

#[test]
fn theme_items_disable_the_current_theme() {
    let light = theme_light_item();
    assert_eq!(light.id, "theme_light");
    assert_eq!(light.label, "外观：亮色");
    assert!(!light.is_enabled(Theme::Light));
    assert!(light.is_enabled(Theme::Dark));
    assert!(theme_dark_item().is_enabled(Theme::System));
    assert!(!theme_system_item().is_enabled(Theme::System));
    assert!(quit_app_item().is_enabled(Theme::Light));
    assert_eq!(quit_app_item().id, "quit");
    assert_eq!(activate_next_item().action, TrayAction::ActivateNextTab);
    assert_eq!(close_active_item().id, "tabs_close_active");
}

#[test]
fn features_and_their_commands() {
    let f = init_features();
    assert!(matches!(f[..], [Feature::Settings, Feature::Tab(_), Feature::Window(_)]));
    let tab = TabFeature::new();
    assert_eq!(tab.name(), "tab");
    assert_eq!(WindowFeature::new().name(), "window");
    let names = tab.command_names();
    assert_eq!(names.len(), 9);
    assert_eq!(names[0], "tabs_list");
    assert_eq!(names[8], "tabs_close_active");
}

#[test]
fn tab_feature_start_caches_active_url() {
    let mut store = TabStore::new();
    let mut p = PresenceState::new();
    TabFeature::new().initialize(&store, &mut p);
    assert_eq!(p.cached_url, None);
    let payload = CreateTabPayload { url: "https://a.example/".to_string(), title: None, favicon_url: None, is_pinned: None, activate: None };
    TabService::create(&mut store, payload).unwrap();
    TabFeature::new().initialize(&store, &mut p);
    assert_eq!(p.cached_url, Some("https://a.example/".to_string()));
}

#[test]
fn toggle_flips_visibility() {
    assert_eq!(toggle_main_window(true), MainWindowAction::Hide);
    assert_eq!(toggle_main_window(false), MainWindowAction::Show);
}
