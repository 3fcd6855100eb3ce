//! Which machine the keyboard and the mouse drive.

use mineshare::input::events::{
    dispatch, Button, InputEvent, KeyCode, TouchpadContact, TouchpadEvent, MAX_INJECT_DELTA_PX,
    MAX_TOUCHPAD_CONTACTS,
};
use mineshare::input::held::ForwardedInputState;
use mineshare::input::motion::{queue_pending_motion, Clock};
use mineshare::input::speed::{
    mouse_sensitivity, set_mouse_sensitivity, set_touchpad_scroll_speed, touchpad_scroll_speed,
};
use mineshare::input::windows::reclaim_from_peer_hardware;
use mineshare::input::{
    bump_inj_events, bump_local_click, bump_local_mouse_activity, cycle_keyboard_target, force_local_exit_remote,
    forwarded_input_state, game_drive, hz_to_flush_us, is_game_driving, is_game_receiving,
    is_input_locked, keyboard_target, local_in_remote, local_input_age_ms, local_screen_geometry,
    mouse_rate_stats, native_touchpad_pair_available, note_peer_activity, peer_in_remote,
    reset_smart_decision, route_keystroke, route_mouse_button, set_game_drive, set_input_locked,
    set_keyboard_target, set_mouse_rate_hz, set_peer_in_remote, set_peer_side,
    set_remote_event_sender, should_forward_keys, target_flush_us, toggle_game_drive, CursorMode,
    Effect, GameDrive, InputState, KeyboardTarget, PeerSide, Platform, RemoteEvent, ScreenReport,
    TOUCHPAD_CAP_FRAME_CAPTURE, TOUCHPAD_CAP_FRAME_INJECT,
};

const NOW: u64 = 1_000_000;

fn fresh() -> InputState {
    InputState::new(Platform::Windows)
}

#[test]
fn touchpad_frame_rejects_malformed_contact_counts() {
    let contact = TouchpadContact { id: 1, x: 2, y: 3 };
    let frame = TouchpadEvent::frame(9, &[contact], false).expect("valid contact frame");
    assert_eq!(frame.contacts(), Some(&[contact][..]));
    assert!(TouchpadEvent::frame(9, &[], false).is_none());
    assert!(TouchpadEvent::frame(9, &[contact], true).is_none());

    let malformed = TouchpadEvent::Frame {
        stream_id: 9,
        count: (MAX_TOUCHPAD_CONTACTS + 1) as u8,
        contacts: [TouchpadContact::default(); MAX_TOUCHPAD_CONTACTS],
        terminal: false,
    };
    assert!(malformed.contacts().is_none());
    assert_eq!(TouchpadEvent::terminal(9).contacts(), Some(&[][..]));
}

#[test]
fn touchpad_capability_falls_back_without_both_frame_sides() {
    assert!(native_touchpad_pair_available(TOUCHPAD_CAP_FRAME_CAPTURE, TOUCHPAD_CAP_FRAME_INJECT));
    assert!(!native_touchpad_pair_available(TOUCHPAD_CAP_FRAME_CAPTURE, 0));
    assert!(!native_touchpad_pair_available(0, TOUCHPAD_CAP_FRAME_INJECT));
}

#[test]
fn game_drive_state_roundtrips() {
    let mut st = fresh();
    set_game_drive(&mut st, GameDrive::Off);
    assert_eq!(game_drive(&st), GameDrive::Off);
    assert!(!is_game_driving(&st));
    assert!(!is_game_receiving(&st));

    set_game_drive(&mut st, GameDrive::Driving);
    assert_eq!(game_drive(&st), GameDrive::Driving);
    assert!(is_game_driving(&st));
    assert!(!is_game_receiving(&st));

    set_game_drive(&mut st, GameDrive::Receiving);
    assert!(!is_game_driving(&st));
    assert!(is_game_receiving(&st));
}

#[test]
fn toggle_game_drive_receiver_can_stop() {
    let mut st = fresh();
    let mut out = Vec::new();
    set_game_drive(&mut st, GameDrive::Receiving);
    toggle_game_drive(&mut st, &mut out);
    assert_eq!(game_drive(&st), GameDrive::Off);
}

#[test]
fn toggle_game_drive_flips_state() {
    let mut st = fresh();
    let mut out = Vec::new();
    set_game_drive(&mut st, GameDrive::Off);
    toggle_game_drive(&mut st, &mut out);
    assert!(is_game_driving(&st), "toggle from Off enters Driving");
    toggle_game_drive(&mut st, &mut out);
    assert_eq!(game_drive(&st), GameDrive::Off, "toggle from Driving returns Off");
}

#[test]
fn game_drive_is_reported_to_the_peer() {
    let mut st = fresh();
    set_remote_event_sender(&mut st);
    let mut out = Vec::new();
    toggle_game_drive(&mut st, &mut out);
    toggle_game_drive(&mut st, &mut out);
    let told: Vec<Effect> =
        out.into_iter().filter(|e| matches!(e, Effect::Remote(_))).collect();
    assert_eq!(
        told,
        vec![
            Effect::Remote(RemoteEvent::GameDriveStart),
            Effect::Remote(RemoteEvent::GameDriveStop)
        ]
    );
}

#[test]
fn game_drive_remote_events_exist() {
    let a = RemoteEvent::GameDriveStart;
    let b = RemoteEvent::GameDriveStop;
    assert_ne!(format!("{a:?}"), format!("{b:?}"));
}

#[test]
fn game_driving_forces_keys_to_peer() {
    let mut st = fresh();
    set_keyboard_target(&mut st.keys, KeyboardTarget::ForceLocal);
    set_game_drive(&mut st, GameDrive::Driving);
    assert!(should_forward_keys(&mut st, false, NOW), "Driving must forward keys to peer");
    set_game_drive(&mut st, GameDrive::Off);
    assert!(!should_forward_keys(&mut st, false, NOW), "Off + ForceLocal stays local");
}

#[test]
fn hz_maps_to_flush_micros() {
    assert_eq!(hz_to_flush_us(1000), 1_000);
    assert_eq!(hz_to_flush_us(500), 2_000);
    assert_eq!(hz_to_flush_us(125), 8_000);
    assert_eq!(hz_to_flush_us(0), hz_to_flush_us(60));
    assert_eq!(hz_to_flush_us(99999), hz_to_flush_us(1000));
}

#[test]
fn a_mouse_rate_sets_the_interval() {
    let mut st = fresh();
    assert_eq!(target_flush_us(&st), 2_000);
    set_mouse_rate_hz(&mut st, 250);
    assert_eq!(target_flush_us(&st), 4_000);
}

#[test]
fn the_rate_that_was_set_is_shown() {
    let mut st = fresh();
    for (hz, shown) in [(1, 60), (144, 144), (999, 999), (1_000, 1_000), (5_000, 1_000)] {
        set_mouse_rate_hz(&mut st, hz);
        assert_eq!(mouse_rate_stats(&st).set_hz, shown);
    }
    let stats = mouse_rate_stats(&st);
    assert_eq!((stats.fwd_total, stats.inj_total), (0, 0));
}

#[test]
fn the_counts_of_motion_only_grow() {
    let mut st = fresh();
    let mut out = Vec::new();
    let mut last = (0, 0);
    for round in 1..=20u64 {
        let now = Clock { ms: round * 10, us: round * 10_000 };
        let flush_us = target_flush_us(&st);
        queue_pending_motion(&mut st.win.motion, flush_us, 1, 1, now, &mut out);
        bump_inj_events(&mut st);
        if round == 10 {
            reset_smart_decision(&mut st, &mut out);
            set_mouse_rate_hz(&mut st, 1_000);
        }
        let stats = mouse_rate_stats(&st);
        assert_eq!((stats.fwd_total, stats.inj_total), (last.0 + 1, last.1 + 1));
        last = (stats.fwd_total, stats.inj_total);
    }
}

#[test]
fn a_new_state_is_that_of_a_machine_that_has_just_started() {
    let st = fresh();
    assert!(!st.win.auto_engaged && !st.win.game_foreground);
    assert_eq!((st.win.screen_w, st.win.screen_h, st.win.peer_w), (1920, 1080, 1920));
    assert_eq!((st.linux.cursor_x, st.linux.peer_w, st.linux.left_pressure), (960, 2880, 0));
    assert!(!st.touch.setup_complete && !st.touch.focus_pending_logged);
    assert_eq!((st.touch.anchor_x, st.touch.capture.next_stream_id), (0, 1));
}

#[test]
fn a_desktop_is_kept_where_its_edges_are_coordinates() {
    let mut report = ScreenReport {
        origin_x: -1920,
        origin_y: 0,
        width: 3840,
        height: 1080,
        set_w: None,
        set_h: None,
        xrandr: None,
    };
    assert!(report.is_sane(Platform::Windows));
    let mut st = fresh();
    assert_eq!(local_screen_geometry(&mut st, &report), (3840, 1080));
    assert_eq!((st.win.origin_x, st.win.screen_w, st.win.screen_h), (-1920, 3840, 1080));
    report.origin_x = i32::MAX;
    assert!(!report.is_sane(Platform::Windows));
    assert!(report.is_sane(Platform::Linux), "only a Windows desktop has an origin");
}

#[test]
fn dispatch_clamps_oversized_mouse_move() {
    assert_eq!(
        dispatch(InputEvent::MouseMove { dx: -969, dy: 453 }),
        InputEvent::MouseMove { dx: -MAX_INJECT_DELTA_PX, dy: MAX_INJECT_DELTA_PX },
        "oversized handover delta must be clamped"
    );
    assert_eq!(
        dispatch(InputEvent::MouseMove { dx: 64, dy: -18 }),
        InputEvent::MouseMove { dx: 64, dy: -18 },
        "normal motion must be unaffected"
    );
}

#[test]
fn local_activity_newer_routes_local() {
    let mut st = fresh();
    st.activity.peer_activity_at = NOW - 1000;
    st.activity.local_mouse_at = NOW - 50;
    assert!(!should_forward_keys(&mut st, false, NOW));
}

#[test]
fn peer_activity_newer_routes_peer() {
    let mut st = fresh();
    st.activity.local_mouse_at = NOW - 1000;
    st.activity.peer_activity_at = NOW - 50;
    assert!(should_forward_keys(&mut st, false, NOW));
}

#[test]
fn peer_driving_local_screen_keeps_laptop_keyboard_local() {
    let mut st = fresh();
    st.activity.local_mouse_at = NOW - 1000;
    st.activity.peer_activity_at = NOW - 50;
    set_peer_in_remote(&mut st, true);
    assert!(
        !route_keystroke(&mut st, 30, true, false, NOW),
        "when the peer cursor is on this screen, this machine's physical keyboard must remain local"
    );
    assert!(
        !route_keystroke(&mut st, 30, false, false, NOW),
        "the matching local key-up must also remain local"
    );
}

#[test]
fn peer_control_handoff_clears_stale_smart_peer_route() {
    let mut st = fresh();
    st.keys.last_smart_to_peer = true;
    set_peer_in_remote(&mut st, true);
    set_peer_in_remote(&mut st, false);
    assert!(
        !should_forward_keys(&mut st, false, NOW),
        "a completed peer-control handoff must not resurrect the previous peer-directed sticky route"
    );
}

#[test]
fn click_counts_as_activity() {
    let mut st = fresh();
    st.activity.peer_activity_at = NOW - 1000;
    st.activity.local_click_at = NOW - 20;
    assert!(!should_forward_keys(&mut st, false, NOW));
}

#[test]
fn a_click_takes_the_keyboard_back() {
    let mut st = fresh();
    st.activity.peer_activity_at = NOW - 1000;
    assert!(should_forward_keys(&mut st, false, NOW));
    bump_local_click(&mut st.activity, NOW - 10);
    assert!(!should_forward_keys(&mut st, false, NOW));
}

#[test]
fn cursor_in_remote_overrides_to_peer() {
    let mut st = fresh();
    st.activity.local_mouse_at = NOW - 5;
    assert!(should_forward_keys(&mut st, true, NOW));
}

#[test]
fn physical_pc_key_follows_its_remote_cursor_during_stale_inbound_overlap() {
    let mut st = fresh();
    set_peer_in_remote(&mut st, true);
    assert!(
        route_keystroke(&mut st, 37, true, true, NOW),
        "physical PC K-down must follow the PC cursor to the Laptop"
    );
    assert!(
        route_keystroke(&mut st, 37, false, true, NOW),
        "physical PC K-up must follow the same routed press"
    );
}

#[test]
fn both_idle_keeps_sticky_default_local() {
    let mut st = fresh();
    assert!(!should_forward_keys(&mut st, false, NOW));
    st.keys.last_smart_to_peer = true;
    assert!(should_forward_keys(&mut st, false, NOW));
}

#[test]
fn both_stale_keeps_sticky_not_capped_peer() {
    let mut st = fresh();
    st.keys.last_smart_to_peer = false;
    st.activity.local_mouse_at = NOW - 70_000;
    st.activity.peer_activity_at = NOW - 60_000;
    assert!(!should_forward_keys(&mut st, false, NOW));

    let mut st = fresh();
    st.keys.last_smart_to_peer = true;
    st.activity.local_mouse_at = NOW - 70_000;
    st.activity.peer_activity_at = NOW - 60_000;
    assert!(should_forward_keys(&mut st, false, NOW));
}

#[test]
fn manual_targets_ignore_activity() {
    let mut st = fresh();
    st.activity.local_mouse_at = NOW - 5;

    set_keyboard_target(&mut st.keys, KeyboardTarget::ForcePeer);
    assert!(should_forward_keys(&mut st, false, NOW));

    set_keyboard_target(&mut st.keys, KeyboardTarget::ForceLocal);
    assert!(!should_forward_keys(&mut st, true, NOW));

    set_keyboard_target(&mut st.keys, KeyboardTarget::Auto);
    assert!(should_forward_keys(&mut st, true, NOW));
    assert!(!should_forward_keys(&mut st, false, NOW));
}

#[test]
fn the_hotkey_cycles_through_the_targets() {
    let mut st = fresh();
    let mut seen = vec![keyboard_target(&st)];
    for _ in 0..4 {
        cycle_keyboard_target(&mut st.keys);
        seen.push(keyboard_target(&st));
    }
    assert_eq!(
        seen,
        vec![
            KeyboardTarget::Smart,
            KeyboardTarget::ForcePeer,
            KeyboardTarget::ForceLocal,
            KeyboardTarget::Auto,
            KeyboardTarget::Smart
        ]
    );
}

#[test]
fn held_key_release_follows_the_press() {
    let mut st = fresh();
    st.activity.local_mouse_at = NOW - 5;
    assert!(route_keystroke(&mut st, 30, true, true, NOW));
    assert!(route_keystroke(&mut st, 30, false, false, NOW));
    assert!(!route_keystroke(&mut st, 31, true, false, NOW));
}

#[test]
fn keys_past_the_table_are_not_remembered() {
    let mut st = fresh();
    assert!(route_keystroke(&mut st, 2_000, true, true, NOW));
    assert!(!route_keystroke(&mut st, 2_000, false, false, NOW));
}

#[test]
fn nudge_does_not_claim_keyboard() {
    let mut st = fresh();
    st.activity.motion_run_start = NOW;
    st.activity.last_motion_at = NOW;
    bump_local_mouse_activity(&mut st.activity, NOW);
    assert_eq!(
        st.activity.local_mouse_at, 0,
        "a brief nudge must not advance the routing activity clock"
    );
}

#[test]
fn sustained_drag_claims_keyboard() {
    let mut st = fresh();
    st.activity.motion_run_start = NOW - 200;
    st.activity.last_motion_at = NOW - 10;
    bump_local_mouse_activity(&mut st.activity, NOW);
    assert!(
        st.activity.local_mouse_at > 0,
        "a sustained drag must advance the routing activity clock"
    );
}

#[test]
fn a_pause_starts_a_new_run() {
    let mut st = fresh();
    st.activity.motion_run_start = NOW - 5_000;
    st.activity.last_motion_at = NOW - 251;
    bump_local_mouse_activity(&mut st.activity, NOW);
    assert_eq!(st.activity.motion_run_start, NOW);
    assert_eq!(st.activity.local_mouse_at, 0);
}

#[test]
fn reset_zeroes_peer_activity() {
    let mut st = fresh();
    let mut out = Vec::new();
    st.activity.peer_activity_at = NOW;
    reset_smart_decision(&mut st, &mut out);
    assert_eq!(
        st.activity.peer_activity_at, 0,
        "reset_smart_decision must clear stale peer-activity timing"
    );
}

#[test]
fn reported_ages_are_capped() {
    let mut st = fresh();
    assert_eq!(local_input_age_ms(&st, NOW), None);
    st.activity.local_click_at = NOW - 70;
    assert_eq!(local_input_age_ms(&st, NOW), Some(70));
    assert_eq!(local_input_age_ms(&st, NOW + 100_000), Some(60_000));
    note_peer_activity(&mut st, 30, NOW);
    assert_eq!(st.activity.peer_activity_at, NOW - 30);
}

#[test]
fn held_state_snapshot_reconciles_lost_edges() {
    let mut injected = ForwardedInputState::default();
    let mut desired = ForwardedInputState::default();
    desired.apply_event(InputEvent::Key { code: KeyCode(30), down: true });
    desired.apply_event(InputEvent::MouseButton { btn: Button::Left, down: true });

    let presses = injected.reconciliation_events(&desired);
    assert_eq!(presses.len(), 2);
    for event in presses {
        injected.apply_event(event);
    }
    assert_eq!(injected, desired);

    let released = ForwardedInputState::default();
    let releases = injected.reconciliation_events(&released);
    assert_eq!(releases.len(), 2);
    assert!(releases.iter().all(|event| matches!(
        event,
        InputEvent::Key { down: false, .. } | InputEvent::MouseButton { down: false, .. }
    )));
}

#[test]
fn forwarded_snapshot_matches_routing_tracker() {
    let mut st = fresh();
    assert!(route_keystroke(&mut st, 42, true, true, NOW));
    assert!(route_mouse_button(&mut st.keys, Button::Right, true, true));

    let snapshot = forwarded_input_state(&st.keys);
    let events = ForwardedInputState::default().reconciliation_events(&snapshot);
    assert!(events.contains(&InputEvent::Key { code: KeyCode(42), down: true }));
    assert!(events.contains(&InputEvent::MouseButton { btn: Button::Right, down: true }));

    let mut out = Vec::new();
    reset_smart_decision(&mut st, &mut out);
    assert!(!forwarded_input_state(&st.keys).any_held());
}

#[test]
fn forwarded_snapshot_preserves_normalized_extended_keycode() {
    let mut st = fresh();
    assert!(route_keystroke(&mut st, 125, true, true, NOW));
    let snapshot = forwarded_input_state(&st.keys);
    let events = ForwardedInputState::default().reconciliation_events(&snapshot);
    assert!(events.contains(&InputEvent::Key { code: KeyCode(125), down: true }));
}

#[test]
fn local_hardware_takeover_is_immediate_and_one_shot() {
    let mut st = fresh();
    set_peer_in_remote(&mut st, true);
    assert!(
        reclaim_from_peer_hardware(&mut st.link),
        "first local hardware motion must revoke remote ownership"
    );
    assert!(!peer_in_remote(&st), "remote motion must be gated immediately");
    assert!(
        !reclaim_from_peer_hardware(&mut st.link),
        "one hardware burst must emit only one peer-exit request"
    );
}

#[test]
fn the_lock_brings_the_cursor_home() {
    let mut st = fresh();
    let mut out = Vec::new();
    set_remote_event_sender(&mut st);
    st.win.mode = CursorMode::Remote;
    assert!(local_in_remote(&st));
    set_input_locked(&mut st, true, &mut out);
    assert!(is_input_locked(&st));
    assert!(!local_in_remote(&st));
    assert!(out.contains(&Effect::Remote(RemoteEvent::Exited)));
    let told = out.len();
    set_input_locked(&mut st, true, &mut out);
    assert_eq!(out.len(), told);
}

#[test]
fn a_forced_exit_at_home_does_nothing() {
    let mut st = fresh();
    let mut out = Vec::new();
    set_remote_event_sender(&mut st);
    force_local_exit_remote(&mut st, &mut out);
    assert!(!out.contains(&Effect::Remote(RemoteEvent::Exited)));
}

#[test]
fn another_side_recentres_the_linux_capture() {
    let mut st = InputState::new(Platform::Linux);
    st.linux.left_pressure = 12;
    set_peer_side(&mut st, PeerSide::Top);
    assert_eq!(st.link.peer_side, PeerSide::Top);
    assert_eq!(st.linux.left_pressure, 0);
}

#[test]
fn speeds_are_kept_in_range() {
    let mut st = fresh();
    assert_eq!(f32::from_bits(mouse_sensitivity(&st)), 1.0);
    set_mouse_sensitivity(&mut st, 0.6f32.to_bits());
    assert_eq!(f32::from_bits(mouse_sensitivity(&st)), 0.6);
    for (given, kept) in [
        (0.01f32, 0.25f32),
        (99.0, 4.0),
        (-3.0, 0.25),
        (-0.0, 0.25),
        (f32::NAN, 1.0),
        (f32::INFINITY, 1.0),
        (f32::NEG_INFINITY, 1.0),
        (4.0, 4.0),
        (0.25, 0.25),
    ] {
        set_mouse_sensitivity(&mut st, given.to_bits());
        assert_eq!(f32::from_bits(mouse_sensitivity(&st)), kept);
        set_touchpad_scroll_speed(&mut st, given.to_bits());
        assert_eq!(f32::from_bits(touchpad_scroll_speed(&st)), kept);
    }
}
