//! Laws of the blink state machine.
//!
//! Every way the hosting event loop can enter a `BlinkManager` is one `Op`;
//! `spec_step` is the transition each entry point is proved to implement,
//! and `spec_run` folds a whole sequence of entries. The proof functions
//! here state the guarantees that hold across those sequences: the epoch
//! only ever grows, stale callbacks are inert, a disabled setting pins the
//! cursor visible, and an unfocused surface never toggles.

use vstd::prelude::*;

use crate::blink::BlinkManager;
use crate::blink::Effects;
use crate::blink::no_effects;
use crate::blink::spec_blink_cursors;
use crate::blink::spec_focus_gained;
use crate::blink::spec_focus_lost;
use crate::blink::spec_pause_blinking;
use crate::blink::spec_refresh;
use crate::blink::spec_resume_cursor_blinking;
use crate::blink::spec_show_cursor;

verus! {

/// One entry into the manager: an external request, a reactivity hook, or a
/// firing timer callback. Timer fires and decision entries carry fresh reads
/// of the enabled setting and the focus state, since neither is ever cached.
pub enum Op {
    Refresh { enabled: bool, focused: bool },
    PauseBlinking,
    ShowCursor,
    BlinkTimerFired { epoch: usize, enabled: bool, focused: bool },
    ResumeTimerFired { epoch: usize, enabled: bool, focused: bool },
    FocusGained { enabled: bool, focused: bool },
    FocusLost,
}

/// The transition that one entry performs, with the effects it asks of the
/// host. Each executable method's contract ties it to one arm of this.
pub open spec fn spec_step(s: BlinkManager, op: Op) -> (BlinkManager, Effects) {
    match op {
        Op::Refresh { enabled, focused } => spec_refresh(s, enabled, focused),
        Op::PauseBlinking => spec_pause_blinking(s),
        Op::ShowCursor => spec_show_cursor(s),
        Op::BlinkTimerFired { epoch, enabled, focused } => spec_blink_cursors(
            s,
            epoch,
            enabled,
            focused,
        ),
        Op::ResumeTimerFired { epoch, enabled, focused } => spec_resume_cursor_blinking(
            s,
            epoch,
            enabled,
            focused,
        ),
        Op::FocusGained { enabled, focused } => spec_focus_gained(s, enabled, focused),
        Op::FocusLost => spec_focus_lost(s),
    }
}

/// The state after a whole sequence of entries, first to last.
pub open spec fn spec_run(s: BlinkManager, ops: Seq<Op>) -> BlinkManager
    decreases ops.len(),
{
    if ops.len() == 0 {
        s
    } else {
        spec_run(spec_step(s, ops[0]).0, ops.drop_first())
    }
}

/// Epoch monotonicity, one entry at a time: no entry ever lowers the epoch,
/// and the epoch rises by exactly 1 when the entry arms a timer and not at
/// all when it does not.
pub proof fn lemma_epoch_step(s: BlinkManager, op: Op)
    requires
        s.blink_epoch < usize::MAX,
    ensures
        spec_step(s, op).0.blink_epoch >= s.blink_epoch,
        spec_step(s, op).1.timer is Some ==> spec_step(s, op).0.blink_epoch == s.blink_epoch
            + 1,
        spec_step(s, op).1.timer is None ==> spec_step(s, op).0.blink_epoch == s.blink_epoch,
{
}

/// Epoch monotonicity: over every sequence of entries the epoch is
/// non-decreasing, and it can grow by at most one per entry (it grows by
/// exactly one per timer armed, by `lemma_epoch_step`).
pub proof fn lemma_epoch_monotonic(s: BlinkManager, ops: Seq<Op>)
    requires
        s.blink_epoch + ops.len() <= usize::MAX,
    ensures
        spec_run(s, ops).blink_epoch >= s.blink_epoch,
        spec_run(s, ops).blink_epoch <= s.blink_epoch + ops.len(),
    decreases ops.len(),
{
    if ops.len() > 0 {
        lemma_epoch_step(s, ops[0]);
        lemma_epoch_monotonic(spec_step(s, ops[0]).0, ops.drop_first());
    }
}

/// Stale-callback immunity: a callback stamped with an epoch other than the
/// live one changes nothing. For a resume callback that holds outright; for
/// a blink callback it holds whenever blinking is enabled, and even while it
/// is disabled the stale callback only ever forces the cursor visible —
/// it never hides it, never moves the epoch, and never arms a timer.
pub proof fn lemma_stale_callback_immunity(
    s: BlinkManager,
    epoch: usize,
    enabled: bool,
    focused: bool,
)
    requires
        epoch != s.blink_epoch,
    ensures
        spec_resume_cursor_blinking(s, epoch, enabled, focused) == (s, no_effects()),
        enabled ==> spec_blink_cursors(s, epoch, enabled, focused) == (s, no_effects()),
        spec_blink_cursors(s, epoch, enabled, focused).0.blink_epoch == s.blink_epoch,
        spec_blink_cursors(s, epoch, enabled, focused).1.timer is None,
        spec_blink_cursors(s, epoch, enabled, focused).0.visible == (s.visible || !enabled),
        spec_blink_cursors(s, epoch, enabled, focused).0.blinking_paused == s.blinking_paused,
{
}

/// Disabled setting forces visibility and halts toggling, one firing at a
/// time: with the setting read as disabled, a blink callback leaves the
/// cursor visible, never arms a timer and never moves the epoch; a resume
/// callback never hides a visible cursor and never arms a timer either.
pub proof fn lemma_disabled_forces_visible(s: BlinkManager, epoch: usize, focused: bool)
    ensures
        spec_blink_cursors(s, epoch, false, focused).0 == (BlinkManager { visible: true, ..s }),
        spec_blink_cursors(s, epoch, false, focused).1.notified == !s.visible,
        spec_blink_cursors(s, epoch, false, focused).1.timer is None,
        spec_refresh(s, false, focused).0.visible,
        spec_refresh(s, false, focused).1.timer is None,
        s.visible ==> spec_resume_cursor_blinking(s, epoch, false, focused).0.visible,
        spec_resume_cursor_blinking(s, epoch, false, focused).1.timer is None,
{
}

/// Whether an entry is a timer firing that reads the setting as disabled.
pub open spec fn disabled_timer_fire(op: Op) -> bool {
    match op {
        Op::BlinkTimerFired { enabled, .. } => !enabled,
        Op::ResumeTimerFired { enabled, .. } => !enabled,
        _ => false,
    }
}

/// Disabled setting halts toggling, over whole sequences: while every entry
/// is a timer firing that reads the setting as disabled, a visible cursor
/// stays visible and the epoch never moves — no firing toggles or
/// reschedules until the setting is read as enabled again.
pub proof fn lemma_disabled_run_halts_toggling(s: BlinkManager, ops: Seq<Op>)
    requires
        s.visible,
        forall|i: int| 0 <= i < ops.len() ==> disabled_timer_fire(ops[i]),
    ensures
        spec_run(s, ops).visible,
        spec_run(s, ops).blink_epoch == s.blink_epoch,
    decreases ops.len(),
{
    if ops.len() > 0 {
        assert(disabled_timer_fire(ops[0]));
        lemma_disabled_run_halts_toggling(spec_step(s, ops[0]).0, ops.drop_first());
    }
}

/// Focus loss stops active blinking: a timer firing that finds the surface
/// unfocused — however it was stamped, even by a cycle armed before focus
/// was lost — declines to toggle and declines to reschedule. A blink
/// callback changes nothing at all; a current resume callback only lowers
/// the pause flag.
pub proof fn lemma_unfocused_fire_never_toggles(s: BlinkManager, epoch: usize)
    ensures
        spec_blink_cursors(s, epoch, true, false) == (s, no_effects()),
        spec_resume_cursor_blinking(s, epoch, true, false).0.visible == s.visible,
        spec_resume_cursor_blinking(s, epoch, true, false).0.blink_epoch == s.blink_epoch,
        spec_resume_cursor_blinking(s, epoch, true, false).1 == no_effects(),
{
}

/// Pause forces visibility: whatever the prior state, the state after a
/// pause renders the cursor, and the auto-resume timer it arms carries the
/// freshly bumped epoch.
pub proof fn lemma_pause_forces_visible(s: BlinkManager)
    ensures
        spec_pause_blinking(s).0.visible,
        spec_pause_blinking(s).0.blinking_paused,
        spec_pause_blinking(s).1.timer is Some,
{
}

/// Idempotent show: forcing an already-visible cursor visible again changes
/// nothing and owes the render layer no notification.
pub proof fn lemma_show_cursor_idempotent(s: BlinkManager)
    requires
        s.visible,
    ensures
        spec_show_cursor(s) == (s, no_effects()),
{
}

} // verus!
