//! Tab records and the payloads that create, update and reorder them.

use vstd::prelude::*;

verus! {

/// One tab row. Timestamps are milliseconds since the Unix epoch, UTC.
#[derive(Debug, Clone, PartialEq, Eq)]
pub struct Tab {
    pub id: String,
    pub title: String,
    pub url: String,
    pub favicon_url: Option<String>,
    pub is_pinned: bool,
    pub is_active: bool,
    pub sort_order: i32,
    pub last_opened_at: i64,
    pub created_at: i64,
    pub updated_at: i64,
}

/// Fields of a new tab; omitted options take their defaults.
#[derive(Debug, Clone)]
pub struct CreateTabPayload {
    pub url: String,
    pub title: Option<String>,
    pub favicon_url: Option<String>,
    pub is_pinned: Option<bool>,
    /// Whether the new tab becomes the active one; `None` means yes.
    pub activate: Option<bool>,
}

/// A partial update of the tab with the given id.
#[derive(Debug, Clone)]
pub struct UpdateTabPayload {
    pub id: String,
    pub title: Option<String>,
    pub url: Option<String>,
    pub favicon_url: Option<String>,
    pub is_pinned: Option<bool>,
}

/// Tab ids in their new display order.
#[derive(Debug, Clone)]
pub struct ReorderTabsPayload {
    pub ordered_ids: Vec<String>,
}

pub fn copy_string(s: &String) -> (r: String)
    ensures
        r == *s,
{
    s.clone()
}

pub fn copy_opt_string(s: &Option<String>) -> (r: Option<String>)
    ensures
        r == *s,
{
    match s {
        Some(v) => Some(v.clone()),
        None => None,
    }
}

impl Tab {
    /// A field-for-field copy of this tab.
    pub fn duplicate(&self) -> (r: Tab)
        ensures
            r == *self,
    {
        Tab {
            id: self.id.clone(),
            title: self.title.clone(),
            url: self.url.clone(),
            favicon_url: copy_opt_string(&self.favicon_url),
            is_pinned: self.is_pinned,
            is_active: self.is_active,
            sort_order: self.sort_order,
            last_opened_at: self.last_opened_at,
            created_at: self.created_at,
            updated_at: self.updated_at,
        }
    }
}

} // verus!
