//! The tray menu: items, each bound to one action, laid out with separators.

use vstd::prelude::*;

verus! {

/// The colour scheme the user picked.
#[derive(Debug, Clone, Copy, PartialEq, Eq, Structural)]
pub enum Theme {
    Light,
    Dark,
    System,
}

/// What a tray item does when picked.
#[derive(Debug, Clone, Copy, PartialEq, Eq, Structural)]
pub enum TrayAction {
    /// Show the control surface if hidden, else hide it.
    ToggleWindow,
    SetTheme(Theme),
    ActivateNextTab,
    ActivatePreviousTab,
    CloseActiveTab,
    Quit,
}

/// A menu item.
#[derive(Debug)]
pub struct TrayMenuItem {
    pub id: String,
    pub label: String,
    pub action: TrayAction,
}

/// A theme item can be picked unless its theme is the current one; every
/// other item always can.
pub open spec fn item_enabled(action: TrayAction, current: Theme) -> bool {
    match action {
        TrayAction::SetTheme(t) => t != current,
        _ => true,
    }
}

impl TrayMenuItem {
    /// An item that is always shown.
    pub fn always_visible(id: &str, label: &str, action: TrayAction) -> (r: TrayMenuItem)
        ensures
            r.id@ == id@,
            r.label@ == label@,
            r.action == action,
    {
        TrayMenuItem { id: String::from_str(id), label: String::from_str(label), action }
    }

    /// Whether the item can be picked while `current` is the theme.
    pub fn is_enabled(&self, current: Theme) -> (r: bool)
        ensures
            r == item_enabled(self.action, current),
    {
        match self.action {
            TrayAction::SetTheme(t) => t != current,
            _ => true,
        }
    }
}

/// Switches the theme to light.
pub fn theme_light_item() -> (r: TrayMenuItem)
    ensures
        r.id@ == "theme_light"@,
        r.label@ == "外观：亮色"@,
        r.action == TrayAction::SetTheme(Theme::Light),
{
    TrayMenuItem::always_visible("theme_light", "外观：亮色", TrayAction::SetTheme(Theme::Light))
}

/// Switches the theme to dark.
pub fn theme_dark_item() -> (r: TrayMenuItem)
    ensures
        r.id@ == "theme_dark"@,
        r.label@ == "外观：暗色"@,
        r.action == TrayAction::SetTheme(Theme::Dark),
{
    TrayMenuItem::always_visible("theme_dark", "外观：暗色", TrayAction::SetTheme(Theme::Dark))
}

/// Makes the theme follow the system.
pub fn theme_system_item() -> (r: TrayMenuItem)
    ensures
        r.id@ == "theme_system"@,
        r.label@ == "外观：跟随系统"@,
        r.action == TrayAction::SetTheme(Theme::System),
{
    TrayMenuItem::always_visible("theme_system", "外观：跟随系统", TrayAction::SetTheme(Theme::System))
}

/// Shows or hides the control surface.
pub fn toggle_window_item() -> (r: TrayMenuItem)
    ensures
        r.id@ == "toggle_window"@,
        r.label@ == "显示/隐藏窗口"@,
        r.action == TrayAction::ToggleWindow,
{
    TrayMenuItem::always_visible("toggle_window", "显示/隐藏窗口", TrayAction::ToggleWindow)
}

/// Switches to the next tab.
pub fn activate_next_item() -> (r: TrayMenuItem)
    ensures
        r.id@ == "tabs_activate_next"@,
        r.label@ == "切换到下一个标签"@,
        r.action == TrayAction::ActivateNextTab,
{
    TrayMenuItem::always_visible("tabs_activate_next", "切换到下一个标签", TrayAction::ActivateNextTab)
}

/// Switches to the previous tab.
pub fn activate_previous_item() -> (r: TrayMenuItem)
    ensures
        r.id@ == "tabs_activate_previous"@,
        r.label@ == "切换到上一个标签"@,
        r.action == TrayAction::ActivatePreviousTab,
{
    TrayMenuItem::always_visible(
        "tabs_activate_previous",
        "切换到上一个标签",
        TrayAction::ActivatePreviousTab,
    )
}

/// Closes the active tab.
pub fn close_active_item() -> (r: TrayMenuItem)
    ensures
        r.id@ == "tabs_close_active"@,
        r.label@ == "关闭当前标签"@,
        r.action == TrayAction::CloseActiveTab,
{
    TrayMenuItem::always_visible("tabs_close_active", "关闭当前标签", TrayAction::CloseActiveTab)
}

/// Quits the application.
pub fn quit_app_item() -> (r: TrayMenuItem)
    ensures
        r.id@ == "quit"@,
        r.label@ == "退出"@,
        r.action == TrayAction::Quit,
{
    TrayMenuItem::always_visible("quit", "退出", TrayAction::Quit)
}

/// One line of the menu.
#[derive(Debug)]
pub enum TrayEntry {
    Item(TrayMenuItem),
    Separator,
}

/// The action of each line, `None` for a separator.
pub open spec fn layout(entries: Seq<TrayEntry>) -> Seq<Option<TrayAction>> {
    entries.map_values(
        |e: TrayEntry|
            match e {
                TrayEntry::Item(i) => Some(i.action),
                TrayEntry::Separator => None,
            },
    )
}

/// The id of each line, `None` for a separator.
pub open spec fn entry_ids(entries: Seq<TrayEntry>) -> Seq<Option<Seq<char>>> {
    entries.map_values(
        |e: TrayEntry|
            match e {
                TrayEntry::Item(i) => Some(i.id@),
                TrayEntry::Separator => None,
            },
    )
}

/// The label of each line, `None` for a separator.
pub open spec fn entry_labels(entries: Seq<TrayEntry>) -> Seq<Option<Seq<char>>> {
    entries.map_values(
        |e: TrayEntry|
            match e {
                TrayEntry::Item(i) => Some(i.label@),
                TrayEntry::Separator => None,
            },
    )
}

/// The menu, top to bottom.
#[derive(Debug)]
pub struct TrayRegistry {
    pub entries: Vec<TrayEntry>,
}

impl TrayRegistry {
    pub fn new() -> (r: TrayRegistry)
        ensures
            r.entries@.len() == 0,
    {
        TrayRegistry { entries: Vec::new() }
    }

    pub fn add_item(&mut self, item: TrayMenuItem)
        ensures
            final(self).entries@ == old(self).entries@.push(TrayEntry::Item(item)),
    {
        self.entries.push(TrayEntry::Item(item));
    }

    pub fn add_separator(&mut self)
        ensures
            final(self).entries@ == old(self).entries@.push(TrayEntry::Separator),
    {
        self.entries.push(TrayEntry::Separator);
    }
}

/// The tray menu: show/hide, then the three theme items, then quit, with a
/// separator between the groups.
pub fn build_tray_registry() -> (r: TrayRegistry)
    ensures
        layout(r.entries@) == seq![
            Some(TrayAction::ToggleWindow),
            None,
            Some(TrayAction::SetTheme(Theme::Light)),
            Some(TrayAction::SetTheme(Theme::Dark)),
            Some(TrayAction::SetTheme(Theme::System)),
            None,
            Some(TrayAction::Quit),
        ],
        entry_ids(r.entries@) == seq![
            Some("toggle_window"@),
            None,
            Some("theme_light"@),
            Some("theme_dark"@),
            Some("theme_system"@),
            None,
            Some("quit"@),
        ],
        entry_labels(r.entries@) == seq![
            Some("显示/隐藏窗口"@),
            None,
            Some("外观：亮色"@),
            Some("外观：暗色"@),
            Some("外观：跟随系统"@),
            None,
            Some("退出"@),
        ],
{
    let mut registry = TrayRegistry::new();
    registry.add_item(toggle_window_item());
    registry.add_separator();
    registry.add_item(theme_light_item());
    registry.add_item(theme_dark_item());
    registry.add_item(theme_system_item());
    registry.add_separator();
    registry.add_item(quit_app_item());
    assert(layout(registry.entries@) =~= seq![
        Some(TrayAction::ToggleWindow),
        None,
        Some(TrayAction::SetTheme(Theme::Light)),
        Some(TrayAction::SetTheme(Theme::Dark)),
        Some(TrayAction::SetTheme(Theme::System)),
        None,
        Some(TrayAction::Quit),
    ]);
    assert(entry_ids(registry.entries@) =~= seq![
        Some("toggle_window"@),
        None,
        Some("theme_light"@),
        Some("theme_dark"@),
        Some("theme_system"@),
        None,
        Some("quit"@),
    ]);
    assert(entry_labels(registry.entries@) =~= seq![
        Some("显示/隐藏窗口"@),
        None,
        Some("外观：亮色"@),
        Some("外观：暗色"@),
        Some("外观：跟随系统"@),
        None,
        Some("退出"@),
    ]);
    registry
}

} // verus!
