//! Tab lifecycle and window presence for a desktop shell that floats one
//! content surface in front of a control surface.
//!
//! - `tab`, `store`, `order`, `service`: the tab table, its well-formedness
//!   (unique ids, at most one active tab), canonical order, and the
//!   operations on it.
//! - `presence`: the coordinator that decides when the content surface is
//!   created, shown, moved, hidden or navigated, with debounce timers kept as
//!   deadlines.
//! - `commands`: each tab command with what the content surface should do
//!   and which change notifications go out.
//! - `tray`, `feature`: the tray menu and the feature list.
//! - `tab_laws`, `presence_laws`: properties proved across several calls.

mod address;
mod clock;
mod identity;
pub mod commands;
pub mod feature;
pub mod order;
pub mod presence;
pub mod presence_laws;
pub mod service;
pub mod store;
pub mod tab;
pub mod tab_laws;
pub mod tray;
