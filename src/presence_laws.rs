//! What holds of the presence coordinator across several events.

use vstd::prelude::*;
use crate::presence::{
    Effect, FOCUS_SETTLE_DELAY, MOVE_SETTLE_DELAY, PresenceState, Surface, SurfaceStatus,
    focus_changed, focus_settle_effects, focus_settled, move_settle_effects, move_settled, moved,
    present_outcome, presented, settle_due,
};

verus! {

/// With no URL given and none remembered, `present` without focus succeeds,
/// changes nothing and, with no content surface, asks for nothing at all (in
/// particular, no surface is created).
pub proof fn lemma_present_without_target(s: PresenceState)
    requires
        s.cached_url is None,
    ensures
        presented(s, None) == s,
        present_outcome(s, None, false, SurfaceStatus::Absent) == Ok::<
            Seq<Effect>,
            crate::presence::PresenceError,
        >(Seq::empty()),
{
}

/// A second move of the control surface before the first settles replaces
/// the first timer: no wake-up before the second deadline (the first one's
/// included) does anything; the second deadline ends the drag and, when there
/// is a content surface, places and shows it once; no wake-up after that does
/// anything again.
pub proof fn lemma_move_burst_settles_once(
    s: PresenceState,
    t0: u64,
    t1: u64,
    content: SurfaceStatus,
)
    requires
        t0 <= t1 < t0 + MOVE_SETTLE_DELAY,
        t1 + MOVE_SETTLE_DELAY <= u64::MAX,
    ensures
        ({
            let s2 = moved(moved(s, t0), t1);
            let end = (t1 + MOVE_SETTLE_DELAY) as u64;
            let s3 = move_settled(s2, end);
            &&& s2.is_dragging
            &&& forall|tf: u64|
                tf < end ==> #[trigger] move_settle_effects(s2, tf, content) == Seq::<
                    Effect,
                >::empty() && move_settled(s2, tf) == s2
            &&& move_settle_effects(s2, end, content) == (if content == SurfaceStatus::Absent {
                Seq::<Effect>::empty()
            } else {
                seq![Effect::PositionContent, Effect::ShowContent]
            })
            &&& !s3.is_dragging
            &&& forall|tf: u64|
                #[trigger] move_settle_effects(s3, tf, content) == Seq::<Effect>::empty()
                    && move_settled(s3, tf) == s3
        }),
{
    let s2 = moved(moved(s, t0), t1);
    assert(s2.move_settle_at == Some(settle_due(t1, MOVE_SETTLE_DELAY)));
}

/// While pinned, both surfaces losing focus never hides the content surface;
/// once unpinned, a later loss of focus hides it when the settle delay has
/// passed.
pub proof fn lemma_pin_holds_content(
    s: PresenceState,
    t_main: u64,
    t_content: u64,
    t_settle: u64,
    w: Surface,
    t_loss: u64,
    content: SurfaceStatus,
)
    requires
        s.is_pinned,
        t_loss + FOCUS_SETTLE_DELAY <= u64::MAX,
        content != SurfaceStatus::Absent,
    ensures
        ({
            let s1 = focus_changed(s, Surface::Main, false, t_main);
            let s2 = focus_changed(s1, Surface::Content, false, t_content);
            let s3 = focus_settled(s2, t_settle);
            let s4 = PresenceState { is_pinned: false, ..s3 };
            let s5 = focus_changed(s4, w, false, t_loss);
            &&& focus_settle_effects(s2, t_settle, content) == Seq::<Effect>::empty()
            &&& focus_settle_effects(s5, (t_loss + FOCUS_SETTLE_DELAY) as u64, content) == seq![
                Effect::HideContent,
            ]
        }),
{
}

} // verus!
