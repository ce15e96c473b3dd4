use blink_manager::blink::BlinkManager;
use blink_manager::blink::Effects;
use blink_manager::blink::TimerKind;
use blink_manager::blink::TimerRequest;

const INTERVAL_MS: u64 = 500;

fn no_effects() -> Effects {
    Effects { notified: false, timer: None }
}

#[test]
fn new_starts_visible_at_epoch_zero() {
    let m = BlinkManager::new(INTERVAL_MS);
    assert!(m.visible());
    assert_eq!(m.blink_epoch, 0);
    assert!(!m.blinking_paused);
    assert_eq!(m.blink_interval_ms, INTERVAL_MS);
}

#[test]
fn epoch_rises_exactly_once_per_scheduled_timer() {
    let mut m = BlinkManager::new(INTERVAL_MS);
    let mut expected: usize = 0;

    // Focus gain arms a timer: epoch rises by exactly 1.
    let r = m.handle_focus_gained(true, true);
    assert!(r.timer.is_some());
    expected += 1;
    assert_eq!(m.blink_epoch, expected);

    // A current blink fire arms the next cycle: epoch rises by exactly 1.
    let r = m.blink_cursors(expected, true, true);
    assert!(r.timer.is_some());
    expected += 1;
    assert_eq!(m.blink_epoch, expected);

    // A pause arms the auto-resume timer: epoch rises by exactly 1.
    let r = m.pause_blinking();
    assert!(r.timer.is_some());
    expected += 1;
    assert_eq!(m.blink_epoch, expected);

    // Entries that arm no timer leave the epoch alone.
    let r = m.refresh(true, true); // paused: no toggle, no timer
    assert!(r.timer.is_none());
    assert_eq!(m.blink_epoch, expected);
    m.handle_focus_lost();
    assert_eq!(m.blink_epoch, expected);
    m.show_cursor();
    assert_eq!(m.blink_epoch, expected);
}

#[test]
fn stale_callback_mutates_nothing() {
    let mut m = BlinkManager::new(INTERVAL_MS);
    m.handle_focus_gained(true, true);
    assert_eq!(m.blink_epoch, 1);
    let before = m;

    // A blink callback stamped with an old epoch is inert while enabled.
    let r = m.blink_cursors(0, true, true);
    assert_eq!(m, before);
    assert_eq!(r, no_effects());

    // So is a resume callback, whatever the setting reads.
    let r = m.resume_cursor_blinking(0, true, true);
    assert_eq!(m, before);
    assert_eq!(r, no_effects());
    let r = m.resume_cursor_blinking(0, false, true);
    assert_eq!(m, before);
    assert_eq!(r, no_effects());
}

#[test]
fn pause_forces_visibility_immediately() {
    let mut m = BlinkManager::new(INTERVAL_MS);
    m.handle_focus_gained(true, true);
    m.blink_cursors(1, true, true);
    assert!(!m.visible()); // mid-cycle, cursor hidden

    let r = m.pause_blinking();
    assert!(m.visible());
    assert!(m.blinking_paused);
    assert!(r.notified); // it was hidden, so the render layer is told
    assert_eq!(
        r.timer,
        Some(TimerRequest { kind: TimerKind::Resume, epoch: 3 })
    );
}

#[test]
fn disabled_setting_forces_visible_and_halts_toggling() {
    let mut m = BlinkManager::new(INTERVAL_MS);
    m.handle_focus_gained(true, true);
    m.blink_cursors(1, true, true);
    assert!(!m.visible());

    // Settings change read as disabled: cursor forced visible, no timer.
    let r = m.refresh(false, true);
    assert!(m.visible());
    assert!(r.notified);
    assert!(r.timer.is_none());
    let epoch = m.blink_epoch;

    // Any timer firing while disabled toggles nothing and reschedules nothing.
    let r = m.blink_cursors(epoch, false, true);
    assert!(m.visible());
    assert!(!r.notified);
    assert!(r.timer.is_none());
    assert_eq!(m.blink_epoch, epoch);

    // Re-enabled plus refresh: blinking resumes.
    let r = m.refresh(true, true);
    assert!(!m.visible());
    assert_eq!(
        r.timer,
        Some(TimerRequest { kind: TimerKind::Blink, epoch: epoch + 1 })
    );
}

#[test]
fn focus_loss_stops_active_blinking() {
    let mut m = BlinkManager::new(INTERVAL_MS);
    m.handle_focus_gained(true, true);
    assert_eq!(m.blink_epoch, 1); // a blink timer stamped 1 is in flight

    m.handle_focus_lost();
    assert!(!m.visible());
    let before = m;

    // The in-flight timer fires, finds the surface unfocused, and declines
    // to toggle or reschedule, even though its stamp is still current.
    let r = m.blink_cursors(1, true, false);
    assert_eq!(m, before);
    assert_eq!(r, no_effects());

    // Regaining focus restarts a fresh cycle.
    let r = m.handle_focus_gained(true, true);
    assert!(m.visible());
    assert_eq!(
        r.timer,
        Some(TimerRequest { kind: TimerKind::Blink, epoch: 2 })
    );
}

#[test]
fn show_cursor_is_idempotent() {
    let mut m = BlinkManager::new(INTERVAL_MS);
    assert!(m.visible());
    let before = m;
    let notified = m.show_cursor();
    assert!(!notified); // already visible: no observable notification
    assert_eq!(m, before);

    m.handle_focus_lost();
    assert!(!m.visible());
    let notified = m.show_cursor();
    assert!(notified);
    assert!(m.visible());
}

#[test]
fn blink_cycle_scenario_at_500ms() {
    // Construct while unfocused: cursor visible.
    let mut m = BlinkManager::new(500);
    assert!(m.visible());

    // Focus gained: decision procedure runs and arms the first toggle.
    let r = m.handle_focus_gained(true, true);
    assert!(m.visible());
    assert_eq!(
        r.timer,
        Some(TimerRequest { kind: TimerKind::Blink, epoch: 1 })
    );

    // 500 ms later the timer fires undisturbed: hidden.
    let r = m.blink_cursors(1, true, true);
    assert!(!m.visible());
    assert!(r.notified);
    assert_eq!(
        r.timer,
        Some(TimerRequest { kind: TimerKind::Blink, epoch: 2 })
    );

    // Another 500 ms: visible again.
    let r = m.blink_cursors(2, true, true);
    assert!(m.visible());
    assert_eq!(
        r.timer,
        Some(TimerRequest { kind: TimerKind::Blink, epoch: 3 })
    );

    // Pausing now yields a visible cursor immediately, and the in-flight
    // blink timer (stamped 3) is superseded: no toggle before the resume
    // timer, one interval out, fires.
    let r = m.pause_blinking();
    assert!(m.visible());
    assert_eq!(
        r.timer,
        Some(TimerRequest { kind: TimerKind::Resume, epoch: 4 })
    );
    let r = m.blink_cursors(3, true, true);
    assert!(m.visible());
    assert_eq!(r, no_effects());

    // The resume timer fires 500 ms after the pause: blinking restarts.
    let r = m.resume_cursor_blinking(4, true, true);
    assert!(!m.blinking_paused);
    assert!(!m.visible());
    assert_eq!(
        r.timer,
        Some(TimerRequest { kind: TimerKind::Blink, epoch: 5 })
    );
}

#[test]
fn two_rapid_pauses_honour_only_the_second_resume() {
    let mut m = BlinkManager::new(INTERVAL_MS);
    m.handle_focus_gained(true, true);
    assert_eq!(m.blink_epoch, 1);

    // First pause arms a resume stamped 2; 100 ms later a second pause
    // supersedes it with a resume stamped 3.
    let r1 = m.pause_blinking();
    assert_eq!(
        r1.timer,
        Some(TimerRequest { kind: TimerKind::Resume, epoch: 2 })
    );
    let r2 = m.pause_blinking();
    assert_eq!(
        r2.timer,
        Some(TimerRequest { kind: TimerKind::Resume, epoch: 3 })
    );

    // The first pause's resume callback fires stale: a no-op, still paused.
    let before = m;
    let r = m.resume_cursor_blinking(2, true, true);
    assert_eq!(m, before);
    assert_eq!(r, no_effects());
    assert!(m.blinking_paused);

    // The second pause's resume callback is the one that resumes blinking.
    let r = m.resume_cursor_blinking(3, true, true);
    assert!(!m.blinking_paused);
    assert!(!m.visible());
    assert_eq!(
        r.timer,
        Some(TimerRequest { kind: TimerKind::Blink, epoch: 4 })
    );
}

#[test]
fn focus_loss_resets_bookkeeping_without_notifying() {
    let mut m = BlinkManager::new(INTERVAL_MS);
    assert!(m.visible());
    // Focus loss returns no effects at all: it only resets the flag, and
    // leaves reconciliation to the next activation.
    m.handle_focus_lost();
    assert!(!m.visible());
    assert_eq!(m.blink_epoch, 0);
    assert!(!m.blinking_paused);
}

#[test]
fn refresh_is_inert_while_paused_or_unfocused() {
    let mut m = BlinkManager::new(INTERVAL_MS);

    // Unfocused: refresh toggles nothing and arms nothing.
    let before = m;
    let r = m.refresh(true, false);
    assert_eq!(m, before);
    assert_eq!(r, no_effects());

    // Paused: likewise dormant until the resume timer fires.
    m.pause_blinking();
    let before = m;
    let r = m.refresh(true, true);
    assert_eq!(m, before);
    assert_eq!(r, no_effects());
}
