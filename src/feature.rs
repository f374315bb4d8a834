//! The application's features, by name.

use vstd::prelude::*;
use crate::presence::PresenceState;
use crate::service::TabService;
use crate::store::{TabStore, active_index, has_active};

verus! {

/// The browser-like tabs.
#[derive(Debug, Clone, Copy)]
pub struct TabFeature;

impl TabFeature {
    pub fn new() -> (r: TabFeature) {
        TabFeature
    }

    pub fn name(&self) -> (r: &'static str)
        ensures
            r@ == "tab"@,
    {
        "tab"
    }

    /// The commands this feature answers.
    pub fn command_names(&self) -> (r: Vec<&'static str>)
        ensures
            r@.len() == 9,
            r@[0]@ == "tabs_list"@,
            r@[1]@ == "tabs_create"@,
            r@[2]@ == "tabs_update"@,
            r@[3]@ == "tabs_activate"@,
            r@[4]@ == "tabs_close"@,
            r@[5]@ == "tabs_reorder"@,
            r@[6]@ == "tabs_activate_next"@,
            r@[7]@ == "tabs_activate_previous"@,
            r@[8]@ == "tabs_close_active"@,
    {
        let mut v: Vec<&'static str> = Vec::new();
        v.push("tabs_list");
        v.push("tabs_create");
        v.push("tabs_update");
        v.push("tabs_activate");
        v.push("tabs_close");
        v.push("tabs_reorder");
        v.push("tabs_activate_next");
        v.push("tabs_activate_previous");
        v.push("tabs_close_active");
        v
    }

    /// At start-up the active tab's URL becomes the one to present.
    pub fn initialize(&self, store: &TabStore, presence: &mut PresenceState)
        requires
            store.wf(),
        ensures
            has_active(store@) ==> *final(presence) == (PresenceState {
                cached_url: Some(store@[active_index(store@)].url),
                ..*old(presence)
            }),
            !has_active(store@) ==> *final(presence) == *old(presence),
    {
        match TabService::get_active(store) {
            Some(tab) => crate::presence::set_current_url(presence, tab.url),
            None => {},
        }
    }
}

/// The windows: showing, hiding, placing and focusing them.
#[derive(Debug, Clone, Copy)]
pub struct WindowFeature;

impl WindowFeature {
    pub fn new() -> (r: WindowFeature) {
        WindowFeature
    }

    pub fn name(&self) -> (r: &'static str)
        ensures
            r@ == "window"@,
    {
        "window"
    }
}

/// One feature of the application.
#[derive(Debug, Clone, Copy)]
pub enum Feature {
    /// User settings such as the theme.
    Settings,
    Tab(TabFeature),
    Window(WindowFeature),
}

/// Every feature, in the order they start.
pub fn init_features() -> (r: Vec<Feature>)
    ensures
        r@.len() == 3,
        r@[0] is Settings,
        r@[1] is Tab,
        r@[2] is Window,
{
    let mut v: Vec<Feature> = Vec::new();
    v.push(Feature::Settings);
    v.push(Feature::Tab(TabFeature::new()));
    v.push(Feature::Window(WindowFeature::new()));
    v
}

} // verus!
