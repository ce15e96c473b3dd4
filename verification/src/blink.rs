//! The cursor-blink state machine.
//!
//! A `BlinkManager` decides when a text caret should be rendered visible and
//! when hidden, so that it blinks while its surface is focused, stays solid
//! while blinking is paused or disabled, and never flickers when focus or
//! settings change rapidly.
//!
//! There is no cancellation primitive for scheduled timers. Instead every
//! scheduling decision bumps `blink_epoch` and stamps the new value onto the
//! timer it requests; a callback whose stamp no longer equals the live epoch
//! is stale and must do nothing. The hosting event loop owns the actual
//! timers and re-enters the manager when one fires, handing it the stamped
//! epoch together with fresh reads of the enabled setting and the focus
//! state, which are never cached here.

use vstd::prelude::*;

verus! {

/// Which entry point a scheduled timer callback re-enters when it fires.
#[derive(Clone, Copy, PartialEq, Eq, Structural, Debug)]
pub enum TimerKind {
    /// Re-enter the blink decision procedure, `blink_cursors`.
    Blink,
    /// Clear the pause flag and re-enter the decision procedure,
    /// `resume_cursor_blinking`.
    Resume,
}

/// A request, handed to the hosting event loop, to fire one callback after
/// one blink interval, carrying the epoch captured at scheduling time.
#[derive(Clone, Copy, PartialEq, Eq, Structural, Debug)]
pub struct TimerRequest {
    pub kind: TimerKind,
    pub epoch: usize,
}

/// What a transition asks its host to do: notify the render layer that
/// visibility changed, and/or arm a timer.
#[derive(Clone, Copy, PartialEq, Eq, Debug)]
pub struct Effects {
    /// The render layer must be told that the observable state changed.
    pub notified: bool,
    /// A timer must fire after one blink interval.
    pub timer: Option<TimerRequest>,
}

/// The blink scheduler for one focus-capable input surface.
#[derive(Clone, Copy, PartialEq, Eq, Structural, Debug)]
pub struct BlinkManager {
    /// Milliseconds between visibility toggles; immutable after construction.
    pub blink_interval_ms: u64,
    /// Monotonic counter stamped onto every scheduled timer; the sole means
    /// of invalidating in-flight callbacks.
    pub blink_epoch: usize,
    /// Whether the blinking is paused.
    pub blinking_paused: bool,
    /// Whether the cursor should be visibly rendered or not.
    pub visible: bool,
}

/// The effects of a transition that neither notifies nor schedules.
pub open spec fn no_effects() -> Effects {
    Effects { notified: false, timer: None }
}

/// Forcing the cursor visible: a notification is owed exactly when it was
/// hidden before.
pub open spec fn spec_show_cursor(s: BlinkManager) -> (BlinkManager, Effects) {
    (
        BlinkManager { visible: true, ..s },
        Effects { notified: !s.visible, timer: None },
    )
}

/// The decision procedure, entered with the epoch `epoch` stamped onto the
/// firing callback (or the live epoch, for a refresh) and fresh reads of the
/// enabled setting and the focus state.
///
/// Disabled: force the cursor visible and do not reschedule. Enabled: a
/// callback that is current, focused and unpaused toggles visibility and
/// arms the next cycle under a fresh epoch; anything else is a no-op.
pub open spec fn spec_blink_cursors(
    s: BlinkManager,
    epoch: usize,
    enabled: bool,
    focused: bool,
) -> (BlinkManager, Effects) {
    if !enabled {
        spec_show_cursor(s)
    } else if epoch == s.blink_epoch && focused && !s.blinking_paused {
        let next = (s.blink_epoch + 1) as usize;
        (
            BlinkManager { visible: !s.visible, blink_epoch: next, ..s },
            Effects {
                notified: true,
                timer: Some(TimerRequest { kind: TimerKind::Blink, epoch: next }),
            },
        )
    } else {
        (s, no_effects())
    }
}

/// A resume callback: only honoured while its stamp is still the live epoch,
/// in which case it clears the pause flag and re-enters the decision
/// procedure.
pub open spec fn spec_resume_cursor_blinking(
    s: BlinkManager,
    epoch: usize,
    enabled: bool,
    focused: bool,
) -> (BlinkManager, Effects) {
    if epoch == s.blink_epoch {
        spec_blink_cursors(
            BlinkManager { blinking_paused: false, ..s },
            epoch,
            enabled,
            focused,
        )
    } else {
        (s, no_effects())
    }
}

/// A refresh: the decision procedure entered at the live epoch.
pub open spec fn spec_refresh(s: BlinkManager, enabled: bool, focused: bool) -> (
    BlinkManager,
    Effects,
) {
    spec_blink_cursors(s, s.blink_epoch, enabled, focused)
}

/// A pause: force the cursor visible, raise the pause flag, and arm the
/// auto-resume timer under a fresh epoch, which invalidates every older
/// in-flight callback.
pub open spec fn spec_pause_blinking(s: BlinkManager) -> (BlinkManager, Effects) {
    let next = (s.blink_epoch + 1) as usize;
    (
        BlinkManager { visible: true, blinking_paused: true, blink_epoch: next, ..s },
        Effects {
            notified: !s.visible,
            timer: Some(TimerRequest { kind: TimerKind::Resume, epoch: next }),
        },
    )
}

/// Focus gained: reset the visibility bookkeeping, then run the decision
/// procedure, which both shows the caret and, if enabled and unpaused,
/// starts a fresh blink cycle.
pub open spec fn spec_focus_gained(s: BlinkManager, enabled: bool, focused: bool) -> (
    BlinkManager,
    Effects,
) {
    spec_refresh(BlinkManager { visible: false, ..s }, enabled, focused)
}

/// Focus lost: reset the visibility bookkeeping only. Deliberately
/// asymmetric to focus gain: no notification and no decision procedure run;
/// the next activation reconciles.
pub open spec fn spec_focus_lost(s: BlinkManager) -> (BlinkManager, Effects) {
    (BlinkManager { visible: false, ..s }, no_effects())
}

impl BlinkManager {
    /// A fresh manager: epoch zero, unpaused, visible.
    pub fn new(blink_interval_ms: u64) -> (s: Self)
        ensures
            s == (BlinkManager {
                blink_interval_ms,
                blink_epoch: 0,
                blinking_paused: false,
                visible: true,
            }),
    {
        BlinkManager {
            blink_interval_ms,
            blink_epoch: 0,
            blinking_paused: false,
            visible: true,
        }
    }

    /// Advance to, and return, the next epoch.
    fn next_blink_epoch(&mut self) -> (epoch: usize)
        requires
            old(self).blink_epoch < usize::MAX,
        ensures
            final(self).blink_epoch == old(self).blink_epoch + 1,
            epoch == final(self).blink_epoch,
            *final(self) == (BlinkManager { blink_epoch: epoch, ..*old(self) }),
    {
        self.blink_epoch = self.blink_epoch + 1;
        self.blink_epoch
    }

    /// Force the cursor visible. Idempotent: when it is already visible,
    /// nothing changes and no notification is owed.
    pub fn show_cursor(&mut self) -> (notified: bool)
        ensures
            (*final(self), Effects { notified, timer: None }) == spec_show_cursor(
                *old(self),
            ),
            final(self).visible,
            notified == !old(self).visible,
            old(self).visible ==> !notified && *final(self) == *old(self),
    {
        if !self.visible {
            self.visible = true;
            true
        } else {
            false
        }
    }

    /// The decision procedure, entered by a firing blink callback stamped
    /// `epoch`, with fresh reads of the enabled setting and the focus state.
    ///
    /// The epoch is bumped exactly when a timer is armed, and never moves
    /// otherwise; a stale callback (its stamp differs from the live epoch)
    /// changes nothing while blinking is enabled.
    pub fn blink_cursors(&mut self, epoch: usize, enabled: bool, focused: bool) -> (r: Effects)
        requires
            old(self).blink_epoch < usize::MAX,
        ensures
            (*final(self), r) == spec_blink_cursors(*old(self), epoch, enabled, focused),
            final(self).blink_epoch >= old(self).blink_epoch,
            r.timer is Some ==> final(self).blink_epoch == old(self).blink_epoch + 1,
            r.timer is None ==> final(self).blink_epoch == old(self).blink_epoch,
            enabled && epoch != old(self).blink_epoch ==> *final(self) == *old(self)
                && r == no_effects(),
            !enabled ==> final(self).visible && r.timer is None,
    {
        if enabled {
            if epoch == self.blink_epoch && focused && !self.blinking_paused {
                self.visible = !self.visible;
                let next = self.next_blink_epoch();
                Effects {
                    notified: true,
                    timer: Some(TimerRequest { kind: TimerKind::Blink, epoch: next }),
                }
            } else {
                Effects { notified: false, timer: None }
            }
        } else {
            let notified = self.show_cursor();
            Effects { notified, timer: None }
        }
    }

    /// Entered by a firing auto-resume callback stamped `epoch`. A stale
    /// stamp changes nothing at all; a current one lifts the pause and
    /// re-enters the decision procedure.
    pub fn resume_cursor_blinking(&mut self, epoch: usize, enabled: bool, focused: bool) -> (r:
        Effects)
        requires
            old(self).blink_epoch < usize::MAX,
        ensures
            (*final(self), r) == spec_resume_cursor_blinking(
                *old(self),
                epoch,
                enabled,
                focused,
            ),
            epoch != old(self).blink_epoch ==> *final(self) == *old(self) && r == no_effects(),
            final(self).blink_epoch >= old(self).blink_epoch,
            r.timer is Some ==> final(self).blink_epoch == old(self).blink_epoch + 1,
            r.timer is None ==> final(self).blink_epoch == old(self).blink_epoch,
    {
        if epoch == self.blink_epoch {
            self.blinking_paused = false;
            self.blink_cursors(epoch, enabled, focused)
        } else {
            Effects { notified: false, timer: None }
        }
    }

    /// Re-run the decision procedure at the live epoch; used after an
    /// external settings change, and after focus is gained.
    pub fn refresh(&mut self, enabled: bool, focused: bool) -> (r: Effects)
        requires
            old(self).blink_epoch < usize::MAX,
        ensures
            (*final(self), r) == spec_refresh(*old(self), enabled, focused),
            final(self).blink_epoch >= old(self).blink_epoch,
            r.timer is Some ==> final(self).blink_epoch == old(self).blink_epoch + 1,
            r.timer is None ==> final(self).blink_epoch == old(self).blink_epoch,
            !enabled ==> final(self).visible && r.timer is None,
    {
        let epoch = self.blink_epoch;
        self.blink_cursors(epoch, enabled, focused)
    }

    /// Force the cursor visible, pause blinking, and arm the auto-resume
    /// timer one interval out. The fresh epoch stamped onto that timer
    /// invalidates every older in-flight callback.
    pub fn pause_blinking(&mut self) -> (r: Effects)
        requires
            old(self).blink_epoch < usize::MAX,
        ensures
            (*final(self), r) == spec_pause_blinking(*old(self)),
            final(self).visible,
            final(self).blinking_paused,
            final(self).blink_epoch == old(self).blink_epoch + 1,
            r.notified == !old(self).visible,
            r.timer == Some(TimerRequest {
                kind: TimerKind::Resume,
                epoch: (old(self).blink_epoch + 1) as usize,
            }),
    {
        let notified = self.show_cursor();
        self.blinking_paused = true;
        let epoch = self.next_blink_epoch();
        Effects {
            notified,
            timer: Some(TimerRequest { kind: TimerKind::Resume, epoch }),
        }
    }

    /// Focus gained: reset the visibility bookkeeping, then reconcile
    /// through the decision procedure.
    pub fn handle_focus_gained(&mut self, enabled: bool, focused: bool) -> (r: Effects)
        requires
            old(self).blink_epoch < usize::MAX,
        ensures
            (*final(self), r) == spec_focus_gained(*old(self), enabled, focused),
    {
        self.visible = false;
        self.refresh(enabled, focused)
    }

    /// Focus lost: reset the visibility bookkeeping only; no notification,
    /// no timer, no decision procedure run.
    pub fn handle_focus_lost(&mut self)
        ensures
            (*final(self), no_effects()) == spec_focus_lost(*old(self)),
            *final(self) == (BlinkManager { visible: false, ..*old(self) }),
    {
        self.visible = false;
    }

    /// Whether the cursor is currently rendered. Pure read.
    pub fn visible(&self) -> (v: bool)
        ensures
            v == self.visible,
    {
        self.visible
    }
}

} // verus!
