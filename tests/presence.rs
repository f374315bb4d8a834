use nob::presence::{
    clear_current_url, get_current_url, handle_focus_change, hide_content_window,
    on_focus_settled, on_main_window_moved, on_move_settled, plan_presentation,
    present_content_window, record_presentation, set_content_window_pinned, set_current_url,
    sync_content_window_position, Bounds, Position, PresenceAction, PresenceError,
    PresenceState, Surface, SurfaceStatus, FOCUS_SETTLE_DELAY, MOVE_SETTLE_DELAY,
};

use PresenceAction::{
    CancelFocusSettle, CreateContent, FocusContent, HideContent, MoveContentOffscreen, Navigate,
    PositionContent, RestoreMainFocus, ScheduleFocusSettle, ScheduleMoveSettle, ShowContent,
};

#[test]
fn new_state_is_blank() {
    let s = PresenceState::new();
    assert!(!s.main_focused && !s.content_focused && !s.is_dragging && !s.is_pinned);
    assert_eq!(s.cached_url, None);
    assert_eq!(s.move_settle_at, None);
    assert_eq!(s.focus_settle_at, None);
}

#[test]
fn present_with_nothing_to_show_is_a_no_op() {
    let mut s = PresenceState::new();
    let r = present_content_window(&mut s, None, false, SurfaceStatus::Absent);
    assert_eq!(r, Ok(vec![]));
    assert_eq!(s.cached_url, None);
}

#[test]
fn present_with_nothing_to_show_hides_an_existing_surface() {
    let mut s = PresenceState::new();
    let r = present_content_window(&mut s, None, false, SurfaceStatus::Shown);
    assert_eq!(r, Ok(vec![MoveContentOffscreen, HideContent]));
}

#[test]
fn present_creates_the_surface_with_the_parsed_url() {
    let mut s = PresenceState::new();
    let r = present_content_window(&mut s, Some("https://example.com".to_string()), true, SurfaceStatus::Absent);
    assert_eq!(
        r,
        Ok(vec![CreateContent { url: "https://example.com/".to_string(), focused: true }, PositionContent])
    );
    assert_eq!(get_current_url(&s), None);
    record_presentation(&mut s, Some("https://example.com".to_string()), true);
    assert_eq!(get_current_url(&s), Some("https://example.com".to_string()));
}

#[test]
fn failed_presentation_keeps_the_prior_url() {
    let mut s = PresenceState::new();
    set_current_url(&mut s, "https://old.example/".to_string());
    let r = present_content_window(&s, Some("not a url".to_string()), false, SurfaceStatus::Shown);
    assert_eq!(r, Err(PresenceError::InvalidUrl));
    assert_eq!(get_current_url(&s), Some("https://old.example/".to_string()));
    record_presentation(&mut s, Some("https://new.example/".to_string()), false);
    assert_eq!(get_current_url(&s), Some("https://old.example/".to_string()));
    record_presentation(&mut s, None, true);
    assert_eq!(get_current_url(&s), Some("https://old.example/".to_string()));
}

#[test]
fn present_rejects_a_malformed_url() {
    let mut s = PresenceState::new();
    let r = present_content_window(&mut s, Some("not a url".to_string()), false, SurfaceStatus::Shown);
    assert_eq!(r, Err(PresenceError::InvalidUrl));
}

#[test]
fn present_from_cache_shows_without_navigating() {
    let mut s = PresenceState::new();
    set_current_url(&mut s, "https://example.com/a".to_string());
    let r = present_content_window(&mut s, None, false, SurfaceStatus::Hidden);
    assert_eq!(r, Ok(vec![PositionContent, ShowContent]));
    let r = present_content_window(&mut s, None, true, SurfaceStatus::Shown);
    assert_eq!(r, Ok(vec![PositionContent, FocusContent]));
}

#[test]
fn present_hidden_hands_focus_back_to_the_control_surface() {
    let mut s = PresenceState::new();
    s.main_focused = true;
    let r = present_content_window(&mut s, Some("https://example.com/b".to_string()), false, SurfaceStatus::Hidden);
    assert_eq!(
        r,
        Ok(vec![
            PositionContent,
            ShowContent,
            RestoreMainFocus,
            Navigate { url: "https://example.com/b".to_string() },
        ])
    );
}

#[test]
fn plan_presentation_for_each_surface_state() {
    let u = || Some("https://x.example/".to_string());
    assert_eq!(plan_presentation(false, None, true, true, SurfaceStatus::Shown), Err(PresenceError::InvalidUrl));
    assert_eq!(
        plan_presentation(false, u(), true, false, SurfaceStatus::Shown),
        Ok(vec![PositionContent, Navigate { url: "https://x.example/".to_string() }])
    );
    assert_eq!(
        plan_presentation(true, u(), false, true, SurfaceStatus::Hidden),
        Ok(vec![PositionContent, ShowContent, FocusContent])
    );
    assert_eq!(
        plan_presentation(true, u(), true, false, SurfaceStatus::Absent),
        Ok(vec![CreateContent { url: "https://x.example/".to_string(), focused: false }, PositionContent])
    );
}

#[test]
fn hide_moves_offscreen_first() {
    assert_eq!(hide_content_window(SurfaceStatus::Shown), vec![MoveContentOffscreen, HideContent]);
    assert_eq!(hide_content_window(SurfaceStatus::Hidden), vec![MoveContentOffscreen, HideContent]);
    assert_eq!(hide_content_window(SurfaceStatus::Absent), vec![]);
}

#[test]
fn second_move_within_delay_gives_one_settle() {
    let mut s = PresenceState::new();
    let a = on_main_window_moved(&mut s, 1000, SurfaceStatus::Shown);
    assert_eq!(a, vec![MoveContentOffscreen, HideContent, ScheduleMoveSettle { due: 1500 }]);
    assert!(s.is_dragging);
    let a = on_main_window_moved(&mut s, 1200, SurfaceStatus::Hidden);
    assert_eq!(a, vec![MoveContentOffscreen, HideContent, ScheduleMoveSettle { due: 1700 }]);
    // The first timer's wake-up finds a later deadline.
    assert_eq!(on_move_settled(&mut s, 1000 + MOVE_SETTLE_DELAY, SurfaceStatus::Hidden), vec![]);
    assert!(s.is_dragging);
    assert_eq!(on_move_settled(&mut s, 1700, SurfaceStatus::Hidden), vec![PositionContent, ShowContent]);
    assert!(!s.is_dragging);
    assert_eq!(on_move_settled(&mut s, 1700, SurfaceStatus::Shown), vec![]);
    assert_eq!(on_move_settled(&mut s, 5000, SurfaceStatus::Shown), vec![]);
}

#[test]
fn move_deadline_saturates() {
    let mut s = PresenceState::new();
    let a = on_main_window_moved(&mut s, u64::MAX - 1, SurfaceStatus::Absent);
    assert_eq!(a, vec![ScheduleMoveSettle { due: u64::MAX }]);
    assert_eq!(on_move_settled(&mut s, u64::MAX, SurfaceStatus::Absent), vec![]);
    assert!(!s.is_dragging);
}

#[test]
fn pinned_content_survives_focus_loss_until_unpinned() {
    let mut s = PresenceState::new();
    set_content_window_pinned(&mut s, true);
    assert_eq!(
        handle_focus_change(&mut s, Surface::Main, false, 100, SurfaceStatus::Shown),
        vec![ScheduleFocusSettle { due: 200 }]
    );
    assert_eq!(
        handle_focus_change(&mut s, Surface::Content, false, 100, SurfaceStatus::Shown),
        vec![ScheduleFocusSettle { due: 200 }]
    );
    assert_eq!(on_focus_settled(&mut s, 200, SurfaceStatus::Shown), vec![]);
    set_content_window_pinned(&mut s, false);
    handle_focus_change(&mut s, Surface::Content, false, 300, SurfaceStatus::Shown);
    assert_eq!(on_focus_settled(&mut s, 300 + FOCUS_SETTLE_DELAY - 1, SurfaceStatus::Shown), vec![]);
    assert_eq!(on_focus_settled(&mut s, 300 + FOCUS_SETTLE_DELAY, SurfaceStatus::Shown), vec![HideContent]);
}

#[test]
fn focus_moving_between_surfaces_keeps_content() {
    let mut s = PresenceState::new();
    handle_focus_change(&mut s, Surface::Main, true, 0, SurfaceStatus::Absent);
    handle_focus_change(&mut s, Surface::Main, false, 10, SurfaceStatus::Shown);
    let a = handle_focus_change(&mut s, Surface::Content, true, 20, SurfaceStatus::Shown);
    assert_eq!(a, vec![CancelFocusSettle]);
    assert_eq!(s.focus_settle_at, None);
    assert_eq!(on_focus_settled(&mut s, 110, SurfaceStatus::Shown), vec![]);
}

#[test]
fn control_focus_reveals_the_cached_page() {
    let mut s = PresenceState::new();
    set_current_url(&mut s, "https://example.com/".to_string());
    let a = handle_focus_change(&mut s, Surface::Main, true, 0, SurfaceStatus::Hidden);
    assert_eq!(a, vec![CancelFocusSettle, PositionContent, ShowContent, RestoreMainFocus]);
    on_main_window_moved(&mut s, 5, SurfaceStatus::Shown);
    let a = handle_focus_change(&mut s, Surface::Main, true, 6, SurfaceStatus::Hidden);
    assert_eq!(a, vec![CancelFocusSettle]);
}

#[test]
fn control_focus_with_bad_cached_url_only_cancels() {
    let mut s = PresenceState::new();
    set_current_url(&mut s, "::".to_string());
    let a = handle_focus_change(&mut s, Surface::Main, true, 0, SurfaceStatus::Hidden);
    assert_eq!(a, vec![CancelFocusSettle]);
}

#[test]
fn url_cache_accessors() {
    let mut s = PresenceState::new();
    set_current_url(&mut s, "https://a.example/".to_string());
    assert_eq!(get_current_url(&s), Some("https://a.example/".to_string()));
    clear_current_url(&mut s);
    assert_eq!(get_current_url(&s), None);
}

#[test]
fn content_sits_below_the_control_surface() {
    let main = Bounds { x: 100, y: 50, width: 800, height: 60 };
    assert_eq!(sync_content_window_position(main, None), Some(Position { x: 100, y: 120 }));
    assert_eq!(sync_content_window_position(main, Some(Position { x: 100, y: 120 })), None);
    assert_eq!(
        sync_content_window_position(main, Some(Position { x: -10000, y: -10000 })),
        Some(Position { x: 100, y: 120 })
    );
    let tall = Bounds { x: 0, y: i32::MAX - 5, width: 1, height: 4_000_000_000 };
    assert_eq!(sync_content_window_position(tall, None), Some(Position { x: 0, y: i32::MAX }));
}
