//! When the content surface is created, shown, moved, hidden or navigated.
//!
//! The coordinator is a state machine. Each event (a call, a focus change, a
//! move of the control surface, a timer that came due) takes the current
//! state and what is known of the content surface, and yields the next state
//! and the actions the host should carry out in order. Each debounce timer is
//! a single deadline in the state: scheduling one replaces the previous one,
//! and a wake-up that finds another deadline (or none) does nothing.

use vstd::prelude::*;
use crate::address::{parse_url, parsed_url};
use crate::tab::copy_opt_string;

verus! {

/// How long the control surface must stay still before the content surface
/// comes back.
pub const MOVE_SETTLE_DELAY: u64 = 500;

/// How long both surfaces must stay unfocused before the content surface hides.
pub const FOCUS_SETTLE_DELAY: u64 = 100;

/// The grace delay before focus goes back to the control surface.
pub const FOCUS_RESTORE_DELAY: u64 = 50;

/// Where the content surface goes before it hides, away from every screen.
pub const OFFSCREEN_X: i32 = -10000;

pub const OFFSCREEN_Y: i32 = -10000;

/// The gap between the control surface and the content surface below it.
pub const CONTENT_GAP: i64 = 10;

/// One of the two windows.
#[derive(Debug, Clone, Copy, PartialEq, Eq)]
pub enum Surface {
    /// The control surface.
    Main,
    /// The floating content surface.
    Content,
}

/// What the host knows of the content surface.
#[derive(Debug, Clone, Copy, PartialEq, Eq)]
pub enum SurfaceStatus {
    Absent,
    Hidden,
    Shown,
}

/// What the host should do, in order.
#[derive(Debug, Clone, PartialEq, Eq)]
pub enum PresenceAction {
    /// Create the content surface loading `url`, focused or not, at a
    /// position derived from the control surface.
    CreateContent { url: String, focused: bool },
    /// Place the content surface below the control surface.
    PositionContent,
    /// Move the content surface off-screen.
    MoveContentOffscreen,
    ShowContent,
    HideContent,
    FocusContent,
    /// After `FOCUS_RESTORE_DELAY`, give focus back to the control surface
    /// (on platforms where showing a window steals focus).
    RestoreMainFocus,
    /// Load `url` in the content surface.
    Navigate { url: String },
    /// Wake the coordinator for the move-settle timer at `due`, replacing the
    /// previous wake-up.
    ScheduleMoveSettle { due: u64 },
    /// Wake the coordinator for the focus-settle timer at `due`, replacing the
    /// previous wake-up.
    ScheduleFocusSettle { due: u64 },
    /// Drop the pending focus-settle wake-up.
    CancelFocusSettle,
}

/// `PresenceAction` with its text as characters.
pub enum Effect {
    CreateContent { url: Seq<char>, focused: bool },
    PositionContent,
    MoveContentOffscreen,
    ShowContent,
    HideContent,
    FocusContent,
    RestoreMainFocus,
    Navigate { url: Seq<char> },
    ScheduleMoveSettle { due: u64 },
    ScheduleFocusSettle { due: u64 },
    CancelFocusSettle,
}

impl View for PresenceAction {
    type V = Effect;

    open spec fn view(&self) -> Effect {
        match self {
            PresenceAction::CreateContent { url, focused } => Effect::CreateContent {
                url: url@,
                focused: *focused,
            },
            PresenceAction::PositionContent => Effect::PositionContent,
            PresenceAction::MoveContentOffscreen => Effect::MoveContentOffscreen,
            PresenceAction::ShowContent => Effect::ShowContent,
            PresenceAction::HideContent => Effect::HideContent,
            PresenceAction::FocusContent => Effect::FocusContent,
            PresenceAction::RestoreMainFocus => Effect::RestoreMainFocus,
            PresenceAction::Navigate { url } => Effect::Navigate { url: url@ },
            PresenceAction::ScheduleMoveSettle { due } => Effect::ScheduleMoveSettle { due: *due },
            PresenceAction::ScheduleFocusSettle { due } => Effect::ScheduleFocusSettle {
                due: *due,
            },
            PresenceAction::CancelFocusSettle => Effect::CancelFocusSettle,
        }
    }
}

pub open spec fn effects(v: Seq<PresenceAction>) -> Seq<Effect> {
    v.map_values(|a: PresenceAction| a@)
}

/// Why `present` did nothing.
#[derive(Debug, Clone, Copy, PartialEq, Eq)]
pub enum PresenceError {
    /// The target is not an absolute URL.
    InvalidUrl,
}

pub open spec fn outcome(r: Result<Vec<PresenceAction>, PresenceError>) -> Result<
    Seq<Effect>,
    PresenceError,
> {
    match r {
        Ok(v) => Ok(effects(v@)),
        Err(e) => Err(e),
    }
}

pub open spec fn opt_view(o: Option<String>) -> Option<Seq<char>> {
    match o {
        Some(s) => Some(s@),
        None => None,
    }
}

/// The coordinator's state. Times are in milliseconds on the host's clock.
#[derive(Debug)]
pub struct PresenceState {
    pub main_focused: bool,
    pub content_focused: bool,
    pub is_dragging: bool,
    pub is_pinned: bool,
    /// The last URL presented, shown again when none is given.
    pub cached_url: Option<String>,
    /// When the move-settle timer comes due.
    pub move_settle_at: Option<u64>,
    /// When the focus-settle timer comes due.
    pub focus_settle_at: Option<u64>,
}

/// `now + delay`, held at the largest time.
pub open spec fn settle_due(now: u64, delay: u64) -> u64 {
    if now + delay <= u64::MAX {
        (now + delay) as u64
    } else {
        u64::MAX
    }
}

fn due_after(now: u64, delay: u64) -> (r: u64)
    ensures
        r == settle_due(now, delay),
{
    now.saturating_add(delay)
}

impl PresenceState {
    /// Nothing focused, dragged or pinned; no URL; no timer.
    pub fn new() -> (r: PresenceState)
        ensures
            !r.main_focused,
            !r.content_focused,
            !r.is_dragging,
            !r.is_pinned,
            r.cached_url is None,
            r.move_settle_at is None,
            r.focus_settle_at is None,
    {
        PresenceState {
            main_focused: false,
            content_focused: false,
            is_dragging: false,
            is_pinned: false,
            cached_url: None,
            move_settle_at: None,
            focus_settle_at: None,
        }
    }
}

/// While pinned, the content surface does not hide when focus leaves.
pub fn set_content_window_pinned(state: &mut PresenceState, pinned: bool)
    ensures
        *final(state) == (PresenceState { is_pinned: pinned, ..*old(state) }),
{
    state.is_pinned = pinned;
}

/// Remembers `url` as the one to present.
pub fn set_current_url(state: &mut PresenceState, url: String)
    ensures
        *final(state) == (PresenceState { cached_url: Some(url), ..*old(state) }),
{
    state.cached_url = Some(url);
}

/// The remembered URL.
pub fn get_current_url(state: &PresenceState) -> (r: Option<String>)
    ensures
        r == state.cached_url,
{
    copy_opt_string(&state.cached_url)
}

/// Forgets the remembered URL.
pub fn clear_current_url(state: &mut PresenceState)
    ensures
        *final(state) == (PresenceState { cached_url: None, ..*old(state) }),
{
    state.cached_url = None;
}

pub open spec fn hide_effects(content: SurfaceStatus) -> Seq<Effect> {
    if content == SurfaceStatus::Absent {
        Seq::empty()
    } else {
        seq![Effect::MoveContentOffscreen, Effect::HideContent]
    }
}

/// Moves the content surface off-screen (so that the platform does not snap
/// it anywhere) and hides it; nothing when there is no content surface.
pub fn hide_content_window(content: SurfaceStatus) -> (r: Vec<PresenceAction>)
    ensures
        effects(r@) == hide_effects(content),
{
    let mut v: Vec<PresenceAction> = Vec::new();
    match content {
        SurfaceStatus::Absent => {},
        _ => {
            v.push(PresenceAction::MoveContentOffscreen);
            v.push(PresenceAction::HideContent);
        },
    }
    assert(effects(v@) =~= hide_effects(content));
    v
}

pub open spec fn navigation(navigate: bool, url: Seq<char>) -> Seq<Effect> {
    if navigate {
        seq![Effect::Navigate { url: url }]
    } else {
        Seq::empty()
    }
}

/// Showing `url`: create the surface if there is none; else place it, show it
/// if hidden, focus it when asked (or hand focus back to the control surface
/// when that had it), and navigate when asked.
pub open spec fn show_effects(
    main_focused: bool,
    url: Seq<char>,
    navigate: bool,
    focus: bool,
    content: SurfaceStatus,
) -> Seq<Effect> {
    match content {
        SurfaceStatus::Absent => seq![
            Effect::CreateContent { url: url, focused: focus },
            Effect::PositionContent,
        ],
        SurfaceStatus::Hidden => {
            let focusing = if focus {
                seq![Effect::FocusContent]
            } else if main_focused {
                seq![Effect::RestoreMainFocus]
            } else {
                Seq::empty()
            };
            seq![Effect::PositionContent, Effect::ShowContent] + focusing + navigation(navigate, url)
        },
        SurfaceStatus::Shown => {
            let focusing = if focus {
                seq![Effect::FocusContent]
            } else {
                Seq::empty()
            };
            seq![Effect::PositionContent] + focusing + navigation(navigate, url)
        },
    }
}

pub open spec fn presentation(
    main_focused: bool,
    parsed: Option<Seq<char>>,
    navigate: bool,
    focus: bool,
    content: SurfaceStatus,
) -> Result<Seq<Effect>, PresenceError> {
    match parsed {
        Some(u) => Ok(show_effects(main_focused, u, navigate, focus, content)),
        None => Err(PresenceError::InvalidUrl),
    }
}

/// The actions that show the parsed target URL, or the error for a target that
/// did not parse.
pub fn plan_presentation(
    main_focused: bool,
    parsed: Option<String>,
    navigate: bool,
    focus: bool,
    content: SurfaceStatus,
) -> (r: Result<Vec<PresenceAction>, PresenceError>)
    ensures
        outcome(r) == presentation(main_focused, opt_view(parsed), navigate, focus, content),
{
    let url = match parsed {
        Some(u) => u,
        None => return Err(PresenceError::InvalidUrl),
    };
    let ghost u = url@;
    let mut v: Vec<PresenceAction> = Vec::new();
    match content {
        SurfaceStatus::Absent => {
            v.push(PresenceAction::CreateContent { url: url, focused: focus });
            v.push(PresenceAction::PositionContent);
        },
        SurfaceStatus::Hidden => {
            v.push(PresenceAction::PositionContent);
            v.push(PresenceAction::ShowContent);
            if focus {
                v.push(PresenceAction::FocusContent);
            } else if main_focused {
                v.push(PresenceAction::RestoreMainFocus);
            }
            if navigate {
                v.push(PresenceAction::Navigate { url: url });
            }
        },
        SurfaceStatus::Shown => {
            v.push(PresenceAction::PositionContent);
            if focus {
                v.push(PresenceAction::FocusContent);
            }
            if navigate {
                v.push(PresenceAction::Navigate { url: url });
            }
        },
    }
    assert(effects(v@) =~= show_effects(main_focused, u, navigate, focus, content));
    Ok(v)
}

/// The state once the host has shown an explicit URL: it is remembered.
pub open spec fn presented(s: PresenceState, url: Option<String>) -> PresenceState {
    match url {
        Some(u) => PresenceState { cached_url: Some(u), ..s },
        None => s,
    }
}

/// What `present` yields: the explicit URL, else the remembered one, is
/// shown; with neither, the content surface is hidden.
pub open spec fn present_outcome(
    s: PresenceState,
    url: Option<String>,
    focus: bool,
    content: SurfaceStatus,
) -> Result<Seq<Effect>, PresenceError> {
    let target = match url {
        Some(u) => Some(u),
        None => s.cached_url,
    };
    match target {
        None => Ok(hide_effects(content)),
        Some(t) => presentation(s.main_focused, parsed_url(t@), url is Some, focus, content),
    }
}

/// Plans showing the content surface on `url`, or on the remembered URL when
/// `url` is `None`; navigates only to an explicit URL, and focuses the surface
/// when `focus`. The state is left alone: an explicit URL is remembered by
/// `record_presentation` once the host has carried the actions out.
pub fn present_content_window(
    state: &PresenceState,
    url: Option<String>,
    focus: bool,
    content: SurfaceStatus,
) -> (r: Result<Vec<PresenceAction>, PresenceError>)
    ensures
        outcome(r) == present_outcome(*state, url, focus, content),
{
    let navigate = url.is_some();
    let target = match url {
        Some(u) => Some(u),
        None => copy_opt_string(&state.cached_url),
    };
    match target {
        None => Ok(hide_content_window(content)),
        Some(t) => {
            let parsed = parse_url(t.as_str());
            plan_presentation(state.main_focused, parsed, navigate, focus, content)
        },
    }
}

/// After the host carried out a presentation of `url`: on success (`host_ok`)
/// an explicit URL becomes the remembered one; on failure nothing changes.
pub fn record_presentation(state: &mut PresenceState, url: Option<String>, host_ok: bool)
    ensures
        *final(state) == (if host_ok {
            presented(*old(state), url)
        } else {
            *old(state)
        }),
{
    if host_ok {
        match url {
            Some(u) => state.cached_url = Some(u),
            None => {},
        }
    }
}

/// The state after the control surface moved or was resized at `now`.
pub open spec fn moved(s: PresenceState, now: u64) -> PresenceState {
    PresenceState {
        is_dragging: true,
        move_settle_at: Some(settle_due(now, MOVE_SETTLE_DELAY)),
        ..s
    }
}

pub open spec fn moved_effects(now: u64, content: SurfaceStatus) -> Seq<Effect> {
    hide_effects(content).push(Effect::ScheduleMoveSettle { due: settle_due(now, MOVE_SETTLE_DELAY) })
}

/// The control surface moved or was resized at `now`: hide the content surface
/// and (re)start the move-settle timer.
pub fn on_main_window_moved(state: &mut PresenceState, now: u64, content: SurfaceStatus) -> (r: Vec<
    PresenceAction,
>)
    ensures
        *final(state) == moved(*old(state), now),
        effects(r@) == moved_effects(now, content),
{
    state.is_dragging = true;
    let due = due_after(now, MOVE_SETTLE_DELAY);
    state.move_settle_at = Some(due);
    let mut v = hide_content_window(content);
    v.push(PresenceAction::ScheduleMoveSettle { due: due });
    assert(effects(v@) =~= moved_effects(now, content));
    v
}

/// The move-settle timer has come due by `now`.
pub open spec fn move_due(s: PresenceState, now: u64) -> bool {
    s.move_settle_at matches Some(d) && d <= now
}

pub open spec fn move_settled(s: PresenceState, now: u64) -> PresenceState {
    if move_due(s, now) {
        PresenceState { is_dragging: false, move_settle_at: None, ..s }
    } else {
        s
    }
}

pub open spec fn move_settle_effects(s: PresenceState, now: u64, content: SurfaceStatus) -> Seq<
    Effect,
> {
    if move_due(s, now) && content != SurfaceStatus::Absent {
        seq![Effect::PositionContent, Effect::ShowContent]
    } else {
        Seq::empty()
    }
}

/// A move-settle wake-up at `now`: if the timer is due, dragging ends and the
/// content surface is placed and shown again; a stale wake-up does nothing.
pub fn on_move_settled(state: &mut PresenceState, now: u64, content: SurfaceStatus) -> (r: Vec<
    PresenceAction,
>)
    ensures
        *final(state) == move_settled(*old(state), now),
        effects(r@) == move_settle_effects(*old(state), now, content),
{
    let mut v: Vec<PresenceAction> = Vec::new();
    let due = match state.move_settle_at {
        Some(d) => d <= now,
        None => false,
    };
    if due {
        state.is_dragging = false;
        state.move_settle_at = None;
        match content {
            SurfaceStatus::Absent => {},
            _ => {
                v.push(PresenceAction::PositionContent);
                v.push(PresenceAction::ShowContent);
            },
        }
    }
    assert(effects(v@) =~= move_settle_effects(*old(state), now, content));
    v
}

pub open spec fn with_focus(s: PresenceState, window: Surface, focused: bool) -> PresenceState {
    match window {
        Surface::Main => PresenceState { main_focused: focused, ..s },
        Surface::Content => PresenceState { content_focused: focused, ..s },
    }
}

/// The state after `window` gained (`focused`) or lost focus at `now`.
pub open spec fn focus_changed(s: PresenceState, window: Surface, focused: bool, now: u64) -> PresenceState {
    let s1 = with_focus(s, window, focused);
    if focused {
        PresenceState { focus_settle_at: None, ..s1 }
    } else {
        PresenceState { focus_settle_at: Some(settle_due(now, FOCUS_SETTLE_DELAY)), ..s1 }
    }
}

pub open spec fn focus_change_effects(
    s: PresenceState,
    window: Surface,
    focused: bool,
    now: u64,
    content: SurfaceStatus,
) -> Seq<Effect> {
    let s1 = with_focus(s, window, focused);
    if focused {
        let reveal = if window == Surface::Main && !s.is_dragging {
            match present_outcome(s1, None, false, content) {
                Ok(e) => e,
                Err(_) => Seq::empty(),
            }
        } else {
            Seq::empty()
        };
        seq![Effect::CancelFocusSettle] + reveal
    } else {
        seq![Effect::ScheduleFocusSettle { due: settle_due(now, FOCUS_SETTLE_DELAY) }]
    }
}

/// `window` gained or lost focus at `now`. A gain cancels the focus-settle
/// timer, and a gain of the control surface outside a drag shows the content
/// surface without focusing it. A loss (re)starts the focus-settle timer.
pub fn handle_focus_change(
    state: &mut PresenceState,
    window: Surface,
    focused: bool,
    now: u64,
    content: SurfaceStatus,
) -> (r: Vec<PresenceAction>)
    ensures
        *final(state) == focus_changed(*old(state), window, focused, now),
        effects(r@) == focus_change_effects(*old(state), window, focused, now, content),
{
    match window {
        Surface::Main => state.main_focused = focused,
        Surface::Content => state.content_focused = focused,
    }
    let mut v: Vec<PresenceAction> = Vec::new();
    if focused {
        state.focus_settle_at = None;
        v.push(PresenceAction::CancelFocusSettle);
        let is_main = match window {
            Surface::Main => true,
            Surface::Content => false,
        };
        if is_main && !state.is_dragging {
            let ghost before = v@;
            match present_content_window(state, None, false, content) {
                Ok(w) => {
                    let mut w = w;
                    let ghost wv = w@;
                    v.append(&mut w);
                    assert(effects(v@) =~= effects(before) + effects(wv));
                },
                Err(_) => {},
            }
        }
    } else {
        let due = due_after(now, FOCUS_SETTLE_DELAY);
        state.focus_settle_at = Some(due);
        v.push(PresenceAction::ScheduleFocusSettle { due: due });
    }
    assert(effects(v@) =~= focus_change_effects(*old(state), window, focused, now, content));
    v
}

/// The focus-settle timer has come due by `now`.
pub open spec fn focus_due(s: PresenceState, now: u64) -> bool {
    s.focus_settle_at matches Some(d) && d <= now
}

pub open spec fn focus_settled(s: PresenceState, now: u64) -> PresenceState {
    if focus_due(s, now) {
        PresenceState { focus_settle_at: None, ..s }
    } else {
        s
    }
}

pub open spec fn focus_settle_effects(s: PresenceState, now: u64, content: SurfaceStatus) -> Seq<
    Effect,
> {
    if focus_due(s, now) && !s.main_focused && !s.content_focused && !s.is_pinned && content
        != SurfaceStatus::Absent {
        seq![Effect::HideContent]
    } else {
        Seq::empty()
    }
}

/// A focus-settle wake-up at `now`: if the timer is due and neither surface
/// has focus and nothing is pinned, the content surface hides; a stale
/// wake-up does nothing.
pub fn on_focus_settled(state: &mut PresenceState, now: u64, content: SurfaceStatus) -> (r: Vec<
    PresenceAction,
>)
    ensures
        *final(state) == focus_settled(*old(state), now),
        effects(r@) == focus_settle_effects(*old(state), now, content),
{
    let mut v: Vec<PresenceAction> = Vec::new();
    let due = match state.focus_settle_at {
        Some(d) => d <= now,
        None => false,
    };
    if due {
        state.focus_settle_at = None;
        let present = match content {
            SurfaceStatus::Absent => false,
            _ => true,
        };
        if !state.main_focused && !state.content_focused && !state.is_pinned && present {
            v.push(PresenceAction::HideContent);
        }
    }
    assert(effects(v@) =~= focus_settle_effects(*old(state), now, content));
    v
}

/// A window origin in physical pixels.
#[derive(Debug, Clone, Copy, PartialEq, Eq, Structural)]
pub struct Position {
    pub x: i32,
    pub y: i32,
}

/// A window's outer origin and size in physical pixels.
#[derive(Debug, Clone, Copy, PartialEq, Eq, Structural)]
pub struct Bounds {
    pub x: i32,
    pub y: i32,
    pub width: u32,
    pub height: u32,
}

/// Just below the control surface, `CONTENT_GAP` pixels down, left edges
/// aligned; held at the largest coordinate.
pub open spec fn content_origin(main: Bounds) -> Position {
    let y = main.y + main.height + CONTENT_GAP;
    Position { x: main.x, y: if y > i32::MAX { i32::MAX } else { y as i32 } }
}

/// Where the content surface must move to sit below the control surface, or
/// `None` when it is there already.
pub fn sync_content_window_position(main: Bounds, current: Option<Position>) -> (r: Option<
    Position,
>)
    ensures
        r == (if current == Some(content_origin(main)) {
            None
        } else {
            Some(content_origin(main))
        }),
{
    let y = main.y as i64 + main.height as i64 + CONTENT_GAP;
    let target = Position { x: main.x, y: if y > i32::MAX as i64 { i32::MAX } else { y as i32 } };
    match current {
        Some(p) => {
            if p.x == target.x && p.y == target.y {
                None
            } else {
                Some(target)
            }
        },
        None => Some(target),
    }
}

/// What toggling the control surface does.
#[derive(Debug, Clone, Copy, PartialEq, Eq, Structural)]
pub enum MainWindowAction {
    Show,
    Hide,
}

/// Hides the control surface when it is visible, else shows it.
pub fn toggle_main_window(visible: bool) -> (r: MainWindowAction)
    ensures
        r == (if visible {
            MainWindowAction::Hide
        } else {
            MainWindowAction::Show
        }),
{
    if visible {
        MainWindowAction::Hide
    } else {
        MainWindowAction::Show
    }
}

} // verus!
