//! The precision touchpad, captured and injected.

use mineshare::input::capture::{
    action_event, CaptureState, ScrollStep, TouchpadGlobalAction, TwoFingerScrollTransform,
};
use mineshare::input::contacts::ContactTable;
use mineshare::input::events::{TouchpadAction, TouchpadContact, TouchpadEvent};
use mineshare::input::foreground::{
    reset_forwarded_keyboard_latches, set_capture_active, TouchpadState,
};
use mineshare::input::touchpad::{
    capture_window_rect, keyboard_capture_action, legacy_capture_may_forward,
    legacy_key_from_message, normalize_i32, plan_lifecycle, raw_alt_tab_edge, raw_meta_edge,
    raw_snipping_edge, reserved_alt_tab_poll_edge, should_enable_native_capture,
    should_neutralize_routed_legacy_shift, should_recover_reserved_alt_tab, ContactPhase,
    KeyboardCaptureAction, LegacyPassthroughTracker, ModifierPair, TERMINAL_REPEAT_COUNT, WM_KEYDOWN,
    WM_KEYUP,
};

fn at(id: u32, x: u16, y: u16) -> TouchpadContact {
    TouchpadContact { id, x, y }
}

#[test]
fn normalization_clamps_and_scales() {
    assert_eq!(normalize_i32(-1, 0, 100), 0);
    assert_eq!(normalize_i32(0, 0, 100), 0);
    assert_eq!(normalize_i32(50, 0, 100), 32_767);
    assert_eq!(normalize_i32(100, 0, 100), u16::MAX);
    assert_eq!(normalize_i32(101, 0, 100), u16::MAX);
    assert_eq!(normalize_i32(50, 100, 100), 0);
}

#[test]
fn scroll_transform_bypasses_three_finger_frames() {
    let mut transform = TwoFingerScrollTransform::new();
    let pair = [at(1, 1, 2), at(2, 3, 4)];
    assert_eq!(transform.apply(&pair), ScrollStep::Restart);
    assert_eq!(transform.apply(&pair), ScrollStep::Continue);
    let three = [pair[0], pair[1], at(3, 5, 6)];
    assert_eq!(transform.apply(&three), ScrollStep::Copy);
    assert_eq!(transform.contact_ids, None);
}

#[test]
fn native_capture_does_not_start_from_a_single_contact() {
    let mut state = CaptureState::new();
    let first = at(7, 10, 20);
    let second = at(8, 30, 40);
    assert!(
        state.snapshot(&[first], &[first]).is_empty(),
        "one-finger pointer/click must remain on the low-latency mouse path"
    );
    assert!(
        state.snapshot(&[], &[]).is_empty(),
        "an ignored one-finger contact must not create a terminal stream"
    );
    let begin = state.snapshot(&[first, second], &[first, second]);
    assert_eq!(begin.len(), 1, "two contacts start native gesture capture");
    assert_eq!(
        state.snapshot(&[first], &[first]).len(),
        1,
        "after a two-finger stream starts, trailing releases remain observable"
    );
    assert_eq!(state.snapshot(&[], &[]).len(), TERMINAL_REPEAT_COUNT);
}

#[test]
fn capture_lifecycle_repeats_terminal() {
    let mut state = CaptureState::new();
    let pair = [at(7, 10, 20), at(8, 30, 40)];
    let begin = state.snapshot(&pair, &pair);
    let stream = begin[0].coalescible_stream().unwrap();
    assert_eq!(begin.len(), 1);
    assert_eq!(state.snapshot(&pair, &pair).len(), 1);
    let terminal = state.snapshot(&[], &[]);
    assert_eq!(terminal, vec![TouchpadEvent::terminal(stream); TERMINAL_REPEAT_COUNT]);
    assert!(state.cancel().is_empty());
}

#[test]
fn new_capture_stream_gets_new_id_after_cancel() {
    let mut state = CaptureState::new();
    let contacts = [at(1, 2, 3), at(2, 4, 5)];
    let first = state.snapshot(&contacts, &contacts)[0].coalescible_stream().unwrap();
    state.cancel();
    let second = state.snapshot(&contacts, &contacts)[0].coalescible_stream().unwrap();
    assert_ne!(first, second);
}

#[test]
fn action_mapping_preserves_peer_semantics() {
    assert_eq!(
        action_event(TouchpadGlobalAction::ThreeFingerTap),
        Some(TouchpadEvent::Action { fingers: 3, action: TouchpadAction::Tap })
    );
    assert_eq!(
        action_event(TouchpadGlobalAction::FourFingerPressUp),
        Some(TouchpadEvent::Action { fingers: 4, action: TouchpadAction::Release })
    );
    assert_eq!(action_event(TouchpadGlobalAction::Other), None);
}

#[test]
fn native_capture_requires_real_foreground_ownership() {
    assert!(
        !should_enable_native_capture(true, true, true, false),
        "advertised APIs are insufficient when Windows kept foreground on the laptop app"
    );
    assert!(should_enable_native_capture(true, true, true, true));
    assert!(!should_enable_native_capture(false, true, true, true));
    assert!(!should_enable_native_capture(true, false, false, true));
}

#[test]
fn capture_surface_is_centered_under_anchor_for_pointer_hit_testing() {
    assert_eq!(capture_window_rect(1_440, 900), (1_438, 898, 5, 5));
    assert_eq!(capture_window_rect(-100, -50), (-102, -52, 5, 5));
}

#[test]
fn foreground_capture_window_recovers_keyboard_messages() {
    let a_down = legacy_key_from_message(WM_KEYDOWN, 0x41, 0x1e_u64 << 16);
    assert_eq!(a_down, Some((0x1e, 0x41, false, true)));
    let right_up = legacy_key_from_message(
        WM_KEYUP,
        0x27,
        (0x4d_u64 << 16) | (1_u64 << 24) | (1_u64 << 31),
    );
    assert_eq!(right_up, Some((0x4d, 0x27, true, false)));
    assert_eq!(
        legacy_key_from_message(0x0102, 0x61, 0),
        None,
        "WM_CHAR must not create a duplicate key event"
    );
}

#[test]
fn reserved_alt_tab_release_recovers_only_a_missing_down_edge() {
    assert!(should_recover_reserved_alt_tab(0x0f, false, false, true));
    assert!(!should_recover_reserved_alt_tab(0x0f, true, false, true));
    assert!(!should_recover_reserved_alt_tab(0x0f, false, true, true));
    assert!(!should_recover_reserved_alt_tab(0x0f, false, false, false));
    assert!(!should_recover_reserved_alt_tab(0x1c, false, false, true));
}

#[test]
fn shell_reserved_alt_tab_replay_meets_interactive_latency_budget() {
    let raw_events_us = [(0_u64, 0x38_u32, true), (640, 0x0f, true), (71_000, 0x0f, false)];
    let mut alt_down = false;
    let mut tab_forwarded = false;
    let first_tab_dispatch_us = raw_events_us
        .into_iter()
        .find_map(|(at_us, scan, down)| {
            if scan == 0x38 {
                alt_down = down;
                return None;
            }
            let edge = raw_alt_tab_edge(true, alt_down, scan, down, tab_forwarded);
            if let Some(down) = edge {
                tab_forwarded = down;
            }
            if edge == Some(true) {
                Some(at_us)
            } else {
                None
            }
        })
        .expect("Raw Input dispatches Tab-down");
    assert!(
        first_tab_dispatch_us <= 1_000,
        "Tab was not dispatched until {first_tab_dispatch_us} µs; source capture budget is 1 ms"
    );
}

#[test]
fn reserved_alt_tab_poller_emits_one_down_and_one_release() {
    let mut forwarded = false;
    let mut edges = Vec::new();
    for tab_down in [false, true, true, true, false, false] {
        if let Some(edge) = reserved_alt_tab_poll_edge(true, true, tab_down, forwarded) {
            edges.push(edge);
            forwarded = edge;
        }
    }
    assert_eq!(edges, [true, false]);
    assert!(!forwarded);
}

#[test]
fn raw_alt_tab_router_deduplicates_each_physical_edge() {
    assert_eq!(raw_alt_tab_edge(true, true, 0x0f, true, false), Some(true));
    assert_eq!(raw_alt_tab_edge(true, true, 0x0f, true, true), None);
    assert_eq!(raw_alt_tab_edge(true, false, 0x0f, false, true), Some(false));
    assert_eq!(raw_alt_tab_edge(true, false, 0x0f, false, false), None);
    assert_eq!(raw_alt_tab_edge(true, false, 0x0f, true, false), None);
    assert_eq!(raw_alt_tab_edge(false, true, 0x0f, true, false), None);
    assert_eq!(raw_alt_tab_edge(true, true, 0x1c, true, false), None);
}

#[test]
fn raw_snipping_router_recovers_release_only() {
    assert_eq!(raw_snipping_edge(true, true, true, 0x1f, true, false), None);
    assert_eq!(raw_snipping_edge(true, true, true, 0x1f, true, true), None);
    assert_eq!(raw_snipping_edge(true, false, false, 0x1f, false, true), Some(false));
    assert_eq!(raw_snipping_edge(false, true, true, 0x1f, true, false), None);
    assert_eq!(raw_snipping_edge(true, true, false, 0x1f, true, false), None);
}

#[test]
fn delayed_raw_snipping_down_cannot_replay_completed_hook_chord() {
    assert_eq!(
        raw_snipping_edge(true, true, true, 0x1f, true, false),
        None,
        "Raw Input is observational and may arrive after hook S-up cleared the current-state latch"
    );
}

#[test]
fn raw_meta_router_recovers_only_missing_edges() {
    assert_eq!(raw_meta_edge(true, true, false), None);
    assert_eq!(raw_meta_edge(true, true, true), None);
    assert_eq!(raw_meta_edge(true, false, true), Some(false));
    assert_eq!(raw_meta_edge(false, false, true), Some(false));
    assert_eq!(raw_meta_edge(false, true, false), None);
}

#[test]
fn raw_recovery_never_forwards_a_bare_win_down() {
    assert_eq!(
        raw_meta_edge(true, true, false),
        None,
        "Raw Input cannot consume the source Shell action, so forwarding bare Win here opens Start on both PCs"
    );
}

#[test]
fn foreground_fallback_never_forwards_bare_shell_meta() {
    assert!(!legacy_capture_may_forward(0x5b));
    assert!(!legacy_capture_may_forward(0x5c));
    assert!(legacy_capture_may_forward(0x1e));
}

#[test]
fn session_reset_clears_forwarded_modifier_latches() {
    let mut ts = TouchpadState::new();
    let mut out = Vec::new();
    let both = ModifierPair { left: true, right: true };
    ts.latches.legacy_shift_held = both;
    ts.latches.legacy_meta_held = both;
    ts.latches.async_meta_forwarded = both;
    ts.latches.async_s_forwarded = true;
    ts.latches.legacy_alt_held = true;
    ts.latches.async_tab_forwarded = true;
    ts.keyboard_suspended = true;

    reset_forwarded_keyboard_latches(&mut ts, &mut out);

    let off = ModifierPair { left: false, right: false };
    assert_eq!(ts.latches.legacy_shift_held, off);
    assert_eq!(ts.latches.legacy_meta_held, off);
    assert_eq!(ts.latches.async_meta_forwarded, off);
    assert!(!ts.latches.async_s_forwarded);
    assert!(!ts.latches.legacy_alt_held);
    assert!(!ts.latches.async_tab_forwarded);
    assert!(!ts.keyboard_suspended);
}

#[test]
fn capture_disable_preserves_owned_release_latches() {
    let mut ts = TouchpadState::new();
    let mut out = Vec::new();
    let left = ModifierPair { left: true, right: false };
    ts.latches.legacy_shift_held = left;
    ts.latches.legacy_meta_held = left;
    ts.latches.async_meta_forwarded = left;
    ts.latches.async_s_forwarded = true;
    ts.keyboard_suspended = true;

    set_capture_active(&mut ts, false, &mut out);

    assert_eq!(ts.latches.legacy_shift_held, left);
    assert_eq!(ts.latches.legacy_meta_held, left);
    assert_eq!(ts.latches.async_meta_forwarded, left);
    assert!(ts.latches.async_s_forwarded);
    assert!(!ts.keyboard_suspended);
}

#[test]
fn modifier_chord_suspends_foreground_capture_until_last_release() {
    assert_eq!(keyboard_capture_action(42, true, false), KeyboardCaptureAction::Suspend);
    assert_eq!(keyboard_capture_action(125, true, false), KeyboardCaptureAction::Suspend);
    assert_eq!(keyboard_capture_action(125, false, false), KeyboardCaptureAction::Keep);
    assert_eq!(keyboard_capture_action(42, false, true), KeyboardCaptureAction::Resume);
    assert_eq!(keyboard_capture_action(31, true, false), KeyboardCaptureAction::Keep);
}

#[test]
fn routed_legacy_shift_down_is_neutralized_in_the_capture_thread() {
    for scan in [0x2a, 0x36] {
        assert!(should_neutralize_routed_legacy_shift(scan, true, true));
        assert!(!should_neutralize_routed_legacy_shift(scan, false, true));
        assert!(!should_neutralize_routed_legacy_shift(scan, true, false));
    }
    assert!(!should_neutralize_routed_legacy_shift(0x1e, true, true));
}

#[test]
fn legacy_down_requires_matching_hook_release_to_pass_locally() {
    let mut tracker = LegacyPassthroughTracker::default();
    tracker.note_legacy_edge(0x2a, false, true);
    assert!(tracker.take_hook_release(0x2a, false));
    assert!(
        !tracker.take_hook_release(0x2a, false),
        "one escaped down edge permits exactly one local release"
    );
    tracker.note_legacy_edge(0x36, false, true);
    assert!(
        tracker.take_hook_release(0x36, true),
        "Right Shift release must match across legacy/hook extended-bit disagreement"
    );
}

#[test]
fn lifecycle_recovers_when_begin_or_update_packet_is_lost() {
    let first_seen = at(10, 1_000, 2_000);
    let begin_lost = plan_lifecycle(None, &ContactTable::new(), 44, &[first_seen], false);
    assert_eq!(
        begin_lost.frame,
        vec![(first_seen, ContactPhase::Down)],
        "the first surviving snapshot must synthesize DOWN"
    );
    let current = begin_lost.next_contacts;
    let moved = TouchpadContact { x: 1_500, ..first_seen };
    let update_lost = plan_lifecycle(Some(44), &current, 44, &[moved], false);
    assert_eq!(
        update_lost.frame,
        vec![(moved, ContactPhase::Update)],
        "the latest absolute snapshot remains sufficient after update loss"
    );
}

#[test]
fn terminal_and_new_stream_release_every_old_contact() {
    let old_a = at(1, 100, 200);
    let old_b = at(2, 300, 400);
    let mut current = ContactTable::new();
    current.insert(old_a);
    current.insert(old_b);
    let terminal = plan_lifecycle(Some(8), &current, 8, &[], true);
    assert_eq!(
        terminal.frame.iter().map(|(_, phase)| *phase).collect::<Vec<_>>(),
        vec![ContactPhase::Up, ContactPhase::Up]
    );
    assert_eq!(terminal.next_contacts.len(), 0);
    assert_eq!(terminal.next_stream_id, None);

    let new_contact = at(9, 500, 600);
    let replacement = plan_lifecycle(Some(8), &current, 9, &[new_contact], false);
    assert_eq!(replacement.release_before, vec![old_a, old_b]);
    assert_eq!(replacement.frame, vec![(new_contact, ContactPhase::Down)]);
    assert_eq!(replacement.next_stream_id, Some(9));

    let duplicate_terminal = plan_lifecycle(None, &ContactTable::new(), 8, &[], true);
    assert!(duplicate_terminal.ignored);
    assert!(duplicate_terminal.frame.is_empty());
}
