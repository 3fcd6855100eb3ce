//! Capturing and injecting input on a Windows machine.

use mineshare::input::events::{Button, InputEvent, KeyCode};
use mineshare::input::games::{
    game_detect_round, is_risky_game, should_auto_lock_game, ClipRect, GameSample,
};
use mineshare::input::hooks::{
    forward_hook_motion, handle_raw_input, low_kb_hook, low_mouse_hook,
    should_sync_forwarded_key_latch, KeyHookEvent, MouseHookEvent, MouseVerdict, RawReport, RawStep,
};
use mineshare::input::inject::{
    begin_key, finish_key, inject_key, mouse_move_rel, motion_injection, record_owned_release_result,
    release_all_held, scancode_flags, send_desktop_mouse_move, settle_releases,
    should_emit_mouse_motion_packet, should_inject_owned_edge, should_use_true_relative_injection,
    Desktop, HeldKey, HeldKeys, KeyInjection, MotionInjection, Node, UinputKey,
};
use mineshare::input::keymap::{captured_keycode, key_injection_spec, mapped_vk, KeyInjectionSpec};
use mineshare::input::motion::{should_snap_virt_x, Clock, REMOTE_IDLE_SNAP_MS};
use mineshare::input::windows::{
    crossed_peer_edge, focus_point_is_safe, remote_motion_axes, should_anchor_cursor,
    take_control_action, track_raw_remote_motion, FocusHandoff, HookCapture, TakeControlAction,
    WindowsState, EXIT_BUFFER_PX,
};
use mineshare::input::{
    on_peer_take_control, set_input_locked, set_remote_event_sender, CursorMode, Effect, GameDrive, InputState,
    KeyboardTarget, PeerSide, Platform, RemoteEvent,
};

#[test]
fn focus_handoff_starts_immediately_and_retries_only_after_failure() {
    let mut handoff = FocusHandoff::new();
    handoff.arm();
    assert!(handoff.try_begin());
    handoff.finish(false);
    assert!(handoff.try_begin());
    handoff.finish(true);
    assert!(!handoff.try_begin());
}

#[test]
fn focus_handoff_revalidates_at_first_key_after_motion_activation() {
    let mut handoff = FocusHandoff::new();
    handoff.arm();
    assert!(handoff.try_begin(), "motion may activate the edge window");
    handoff.finish(true);
    assert!(
        handoff.try_begin_key(),
        "the first key needs an independent focus checkpoint at the cursor's final position"
    );
}

#[test]
fn focus_handoff_waits_until_cursor_leaves_warped_edge() {
    let screen = (0, 0, 1919, 1079);
    assert!(!focus_point_is_safe((0, 539), screen));
    assert!(!focus_point_is_safe((7, 539), screen));
    assert!(focus_point_is_safe((8, 539), screen));
    assert!(!focus_point_is_safe((1919, 539), screen));
    assert!(focus_point_is_safe((1911, 539), screen));
    assert!(!focus_point_is_safe((960, 0), screen));
    assert!(focus_point_is_safe((960, 8), screen));
}

#[test]
fn raw_input_edge_detection_preserves_every_layout_direction() {
    let desktop = (0, 0, 99, 99);
    assert!(crossed_peer_edge(PeerSide::Right, desktop, (98, 50), (99, 50)));
    assert!(crossed_peer_edge(PeerSide::Left, desktop, (1, 50), (0, 50)));
    assert!(crossed_peer_edge(PeerSide::Top, desktop, (50, 1), (50, 0)));
    assert!(crossed_peer_edge(PeerSide::Bottom, desktop, (50, 98), (50, 99)));
    assert!(!crossed_peer_edge(PeerSide::Right, desktop, (50, 50), (51, 50)));
}

#[test]
fn direct_key_specs_preserve_meta_and_numpad_identity() {
    assert_eq!(
        key_injection_spec(KeyCode(125)),
        Some(KeyInjectionSpec { scan: 0x5B, extended: true }),
        "left Win must be injected as an extended scan code"
    );
    assert_eq!(
        key_injection_spec(KeyCode(96)),
        Some(KeyInjectionSpec { scan: 0x1C, extended: true }),
        "keypad Enter must not collapse into the main Enter key"
    );
    assert_eq!(
        key_injection_spec(KeyCode(79)),
        Some(KeyInjectionSpec { scan: 0x4F, extended: false }),
        "keypad 1 must remain the non-extended keypad key"
    );
    assert_eq!(
        captured_keycode(0x1C, 0x0D, true),
        96,
        "capturing keypad Enter must retain its E0 identity"
    );
}

#[test]
fn snipping_shortcut_preserves_win_shift_s_identity() {
    assert_eq!(captured_keycode(0x5B, 0x5B, true), 125);
    assert_eq!(captured_keycode(0x2A, 0xA0, false), 42);
    assert_eq!(captured_keycode(0x1F, 0x53, false), 31);
    assert_eq!(
        key_injection_spec(KeyCode(125)),
        Some(KeyInjectionSpec { scan: 0x5B, extended: true })
    );
    assert_eq!(
        key_injection_spec(KeyCode(42)),
        Some(KeyInjectionSpec { scan: 0x2A, extended: false })
    );
    assert_eq!(
        key_injection_spec(KeyCode(31)),
        Some(KeyInjectionSpec { scan: 0x1F, extended: false })
    );
}

#[test]
fn keys_without_a_scan_code_go_by_the_virtual_key() {
    assert_eq!(key_injection_spec(KeyCode(200)), None);
    assert_eq!(inject_key(KeyCode(200)), KeyInjection::Virtual(200));
    assert_eq!(mapped_vk(200, 0), 200);
    assert_eq!(mapped_vk(200, 0x00e0_0041), 0x41);
    assert_eq!(captured_keycode(0x48, 0x26, false), 103);
    assert_eq!(captured_keycode(0x1e, 0x41, false), 0x1e);
}

#[test]
fn scan_code_flags_tell_extended_keys_and_releases() {
    assert_eq!(scancode_flags(false, true), 0x8);
    assert_eq!(scancode_flags(true, true), 0x9);
    assert_eq!(scancode_flags(false, false), 0xa);
    assert_eq!(scancode_flags(true, false), 0xb);
}

#[test]
fn forwarded_modifier_release_clears_latch_after_cursor_returns_local() {
    assert!(should_sync_forwarded_key_latch(true, true));
    assert!(
        should_sync_forwarded_key_latch(false, false),
        "a routed Shift-up must clear the remote-down latch even after cursor handback"
    );
}

#[test]
fn injected_shift_release_requires_a_mineshare_owned_down() {
    let mut held = HeldKeys::new();
    for code in [42, 54] {
        let shift = HeldKey::Key(code);
        assert!(should_inject_owned_edge(&held, shift, true));
        assert!(
            !should_inject_owned_edge(&held, shift, false),
            "unowned Shift-up code {code} could disturb the physical keyboard"
        );
        held.insert(shift);
        assert!(should_inject_owned_edge(&held, shift, false));
        held.remove(shift);
    }
}

#[test]
fn failed_shift_cleanup_retains_ownership_for_retry() {
    let shift = HeldKey::Key(42);
    let mut held = HeldKeys::new();
    record_owned_release_result(&mut held, shift, false);
    assert!(
        held.contains(shift),
        "a failed cleanup must let the next heartbeat retry Shift-up"
    );
    let mut held = HeldKeys::new();
    record_owned_release_result(&mut held, shift, true);
    assert!(held.is_empty(), "successful cleanup must not restore ownership");
}

#[test]
fn a_release_of_everything_keeps_what_failed() {
    let mut held = HeldKeys::new();
    held.insert(HeldKey::Key(30));
    held.insert(HeldKey::MouseBtn(Button::Left));
    held.insert(HeldKey::Key(30));
    let drained = held.drain();
    assert_eq!(drained.len(), 2);
    assert!(held.is_empty());
    let worked: Vec<bool> = drained.iter().map(|k| *k == HeldKey::Key(30)).collect();
    settle_releases(&mut held, &drained, &worked);
    assert!(!held.contains(HeldKey::Key(30)));
    assert!(held.contains(HeldKey::MouseBtn(Button::Left)));
}

#[test]
fn a_linux_machine_releases_on_the_right_device() {
    let mut held = HeldKeys::new();
    held.insert(HeldKey::Key(30));
    held.insert(HeldKey::MouseBtn(Button::Left));
    let events = release_all_held(&mut held);
    assert_eq!(events.len(), 2);
    assert!(events.contains(&UinputKey { node: Node::Keyboard, code: 30, value: 0 }));
    assert!(events.contains(&UinputKey { node: Node::Mouse, code: 0x110, value: 0 }));
    assert!(held.is_empty());
}

#[test]
fn a_press_of_the_peer_asks_for_the_focus_first() {
    let mut st = InputState::new(Platform::Windows);
    let mut held = HeldKeys::new();
    let mut out = Vec::new();
    st.win.focus.key_pending = true;
    let way = begin_key(&mut st.win, &held, KeyCode(30), true, &mut out);
    assert_eq!(way, Some(KeyInjection::Scan(KeyInjectionSpec { scan: 0x1e, extended: false })));
    assert_eq!(out, vec![Effect::ActivateWindowForKey]);
    finish_key(&mut st.keys, &mut held, KeyCode(30), true);
    assert_eq!(st.keys.keys_injected, 1);
    out.clear();
    assert!(begin_key(&mut st.win, &held, KeyCode(30), false, &mut out).is_some());
    finish_key(&mut st.keys, &mut held, KeyCode(30), false);
    assert_eq!(begin_key(&mut st.win, &held, KeyCode(30), false, &mut out), None);
    assert!(out.is_empty());
}

#[test]
fn anchor_cursor_only_when_game_foreground() {
    assert!(should_anchor_cursor(true, false));
    assert!(!should_anchor_cursor(false, true));
    assert!(should_anchor_cursor(true, true));
    assert!(!should_anchor_cursor(false, false));
}

#[test]
fn take_control_skips_warp_when_game_foreground() {
    let bounds = (0, 0, 2880, 1800);
    assert_eq!(
        take_control_action(false, PeerSide::Right, bounds, (700, 700)),
        TakeControlAction::Warp(2880, 900),
    );
    assert_eq!(
        take_control_action(true, PeerSide::Right, bounds, (700, 700)),
        TakeControlAction::Anchor(700, 700),
    );
}

#[test]
fn a_peer_that_takes_control_comes_in_at_its_edge() {
    let mut st = InputState::new(Platform::Windows);
    let mut out = Vec::new();
    on_peer_take_control(&mut st, false, (700, 700), &mut out);
    assert!(matches!(out[0], Effect::WarpCursor { x: 1919, .. }));
    assert_eq!(out[1], Effect::ActivateWindow);
}

#[test]
fn hidden_cursor_alone_does_not_trigger_game_lock() {
    assert!(
        !should_auto_lock_game(true, false, false, true),
        "Windows hides the pointer while typing; that alone is not evidence of a game"
    );
    assert!(should_auto_lock_game(false, true, false, true));
    assert!(should_auto_lock_game(false, false, true, true));
    assert!(!should_auto_lock_game(false, true, false, false));
}

#[test]
fn a_protected_game_locks_the_input_and_frees_it_again() {
    assert!(is_risky_game("VALORANT-Win64-Shipping.exe") || is_risky_game("valorant.exe"));
    assert!(!is_risky_game("notepad.exe"));
    let mut st = InputState::new(Platform::Windows);
    let mut out = Vec::new();
    let confined = GameSample {
        cursor_hidden: true,
        clip: Some(ClipRect { left: 100, top: 100, right: 500, bottom: 400 }),
        exe: Some("some_game.exe".to_string()),
    };
    game_detect_round(&mut st, &confined, &mut out);
    assert!(st.link.input_locked);
    let desktop = GameSample { cursor_hidden: false, clip: None, exe: None };
    game_detect_round(&mut st, &desktop, &mut out);
    assert!(!st.link.input_locked);
}

#[test]
fn a_lock_of_the_user_survives_a_game() {
    let confined = GameSample {
        cursor_hidden: true,
        clip: Some(ClipRect { left: 100, top: 100, right: 500, bottom: 400 }),
        exe: None,
    };
    let desktop = GameSample { cursor_hidden: false, clip: None, exe: None };
    let mut out = Vec::new();
    let mut st = InputState::new(Platform::Windows);
    set_input_locked(&mut st, true, &mut out);
    game_detect_round(&mut st, &confined, &mut out);
    assert!(st.link.input_locked && st.win.game_foreground && !st.win.auto_engaged);
    game_detect_round(&mut st, &desktop, &mut out);
    assert!(st.link.input_locked, "the user locked before the game came");

    let mut st = InputState::new(Platform::Windows);
    game_detect_round(&mut st, &confined, &mut out);
    assert!(st.link.input_locked && st.win.auto_engaged);
    set_input_locked(&mut st, false, &mut out);
    game_detect_round(&mut st, &confined, &mut out);
    assert!(!st.link.input_locked, "the user unlocked in the game");
    set_input_locked(&mut st, true, &mut out);
    game_detect_round(&mut st, &desktop, &mut out);
    assert!(st.link.input_locked, "the user locked in the game");
}

#[test]
fn true_relative_injection_is_scoped_to_game_receiving() {
    assert!(should_use_true_relative_injection(true, GameDrive::Off));
    assert!(should_use_true_relative_injection(false, GameDrive::Receiving));
    assert!(!should_use_true_relative_injection(false, GameDrive::Driving));
    assert!(!should_use_true_relative_injection(false, GameDrive::Off));
}

#[test]
fn desktop_drag_emits_mouse_motion_packets() {
    assert!(should_emit_mouse_motion_packet(false, GameDrive::Off, true));
    assert!(!should_emit_mouse_motion_packet(false, GameDrive::Off, false));
}

#[test]
fn motion_goes_the_way_that_its_target_needs() {
    let mut held = HeldKeys::new();
    held.insert(HeldKey::Key(30));
    assert_eq!(motion_injection(false, GameDrive::Off, &held), MotionInjection::Cursor);
    held.insert(HeldKey::MouseBtn(Button::Right));
    assert_eq!(motion_injection(false, GameDrive::Off, &held), MotionInjection::Positioned);
    assert_eq!(motion_injection(true, GameDrive::Off, &held), MotionInjection::Relative);
    assert_eq!(mouse_move_rel(3, 0).len(), 1);
    assert_eq!(mouse_move_rel(0, 0).len(), 0);
    assert_eq!(mouse_move_rel(3, -4), vec![(0, 3), (1, -4)]);
}

#[test]
fn a_drag_is_positioned_on_the_whole_desktop() {
    let desktop = Desktop { origin_x: 0, origin_y: 0, width: 1920, height: 1080 };
    assert_eq!(send_desktop_mouse_move((1919, 0), 50, -50, desktop), (65_535, 0));
    assert_eq!(send_desktop_mouse_move((0, 0), 0, 0, desktop), (0, 0));
}

#[test]
fn raw_forwarded_motion_tracks_visible_peer_depth() {
    let mut win = WindowsState::new();
    let side = PeerSide::Right;
    win.peer_w = 1_920;
    win.virt_x = 0;
    win.virt_y = 500;
    win.mode = CursorMode::Remote;

    assert!(!track_raw_remote_motion(&mut win, side, 600, 20));
    assert_eq!(
        win.virt_x, 600,
        "source virtual depth must follow the delta visibly applied on the peer"
    );
    assert_eq!(win.virt_y, 520);

    assert!(!track_raw_remote_motion(&mut win, side, -50, 0));
    assert_eq!(win.virt_x, 550, "a small reverse movement must not jump back to the laptop");

    assert!(!track_raw_remote_motion(&mut win, side, -600, 0));
    assert_eq!(win.virt_x, -50);
    assert!(track_raw_remote_motion(&mut win, side, -50, 0));
    assert_eq!(win.virt_x, -EXIT_BUFFER_PX);
}

#[test]
fn remote_depth_axis_matches_every_layout_side() {
    assert_eq!(remote_motion_axes(PeerSide::Right, 7, 11), (7, 11));
    assert_eq!(remote_motion_axes(PeerSide::Left, -7, 11), (7, 11));
    assert_eq!(remote_motion_axes(PeerSide::Top, 11, -7), (7, 11));
    assert_eq!(remote_motion_axes(PeerSide::Bottom, 11, 7), (7, 11));
}

#[test]
fn snap_never_when_non_negative() {
    assert!(!should_snap_virt_x(0, 1, 10_000));
    assert!(!should_snap_virt_x(5, 1, 10_000));
}

#[test]
fn snap_never_when_never_flushed() {
    assert!(!should_snap_virt_x(-1, 0, 10_000));
}

#[test]
fn snap_not_when_recently_flushed() {
    let now = 5_000;
    let last_flush = now - (REMOTE_IDLE_SNAP_MS - 1);
    assert!(!should_snap_virt_x(-50, last_flush, now));
}

#[test]
fn snap_when_negative_and_idle_long() {
    let now = 5_000;
    let last_flush = now - REMOTE_IDLE_SNAP_MS;
    assert!(should_snap_virt_x(-50, last_flush, now));
}

fn mouse(message: u32, x: i32, y: i32) -> MouseHookEvent {
    MouseHookEvent { message, x, y, mouse_data: 0, flags: 0, extra: 0 }
}

#[test]
fn the_mouse_crosses_the_edge_and_its_motion_goes_to_the_peer() {
    let mut st = InputState::new(Platform::Windows);
    set_remote_event_sender(&mut st);
    let mut out = Vec::new();
    assert_eq!(low_mouse_hook(&mut st, mouse(0x200, 1900, 500), 1_000, &mut out), MouseVerdict::Pass);
    assert_eq!(st.win.mode, CursorMode::Local);
    low_mouse_hook(&mut st, mouse(0x200, 1919, 500), 1_010, &mut out);
    assert_eq!(st.win.mode, CursorMode::Remote);
    assert!(out.contains(&Effect::Remote(RemoteEvent::Entered)));
    assert!(out.contains(&Effect::WarpCursor { x: 960, y: 540 }));
    out.clear();
    let verdict = low_mouse_hook(&mut st, mouse(0x200, 965, 537), 1_020, &mut out);
    assert_eq!(verdict, MouseVerdict::Scale { dx: 5, dy: -3 });
    forward_hook_motion(&mut st, 5, -3, Clock { ms: 1_020, us: 1_020_000 }, &mut out);
    let later = Clock { ms: 1_030, us: 1_030_000 };
    forward_hook_motion(&mut st, 0, 0, later, &mut out);
    assert!(out
        .iter()
        .any(|e| matches!(e, Effect::Forward(InputEvent::MouseMove { dx: 5, dy: -3 }))));
}

#[test]
fn a_locked_machine_keeps_its_cursor() {
    let mut st = InputState::new(Platform::Windows);
    st.link.input_locked = true;
    let mut out = Vec::new();
    low_mouse_hook(&mut st, mouse(0x200, 1900, 500), 1_000, &mut out);
    low_mouse_hook(&mut st, mouse(0x200, 1919, 500), 1_010, &mut out);
    assert_eq!(st.win.mode, CursorMode::Local);
    assert!(out.is_empty());
}

#[test]
fn a_button_goes_to_the_peer_with_its_release() {
    let mut st = InputState::new(Platform::Windows);
    st.win.mode = CursorMode::Remote;
    let mut out = Vec::new();
    let verdict = low_mouse_hook(&mut st, mouse(0x201, 960, 540), 1_000, &mut out);
    assert_ne!(verdict, MouseVerdict::Pass);
    assert!(out.contains(&Effect::Forward(InputEvent::MouseButton { btn: Button::Left, down: true })));
    st.win.mode = CursorMode::Local;
    out.clear();
    low_mouse_hook(&mut st, mouse(0x202, 960, 540), 1_010, &mut out);
    assert!(out
        .contains(&Effect::Forward(InputEvent::MouseButton { btn: Button::Left, down: false })));
}

fn key(message: u32, scan: u32, vk: u32) -> KeyHookEvent {
    KeyHookEvent { message, scan, vk, flags: 0 }
}

#[test]
fn a_key_is_kept_while_the_cursor_is_away() {
    let mut st = InputState::new(Platform::Windows);
    st.win.mode = CursorMode::Remote;
    let mut out = Vec::new();
    assert!(low_kb_hook(&mut st, key(0x100, 0x1e, 0x41), None, 1_000, &mut out));
    assert!(out.contains(&Effect::Forward(InputEvent::Key { code: KeyCode(30), down: true })));
    st.win.mode = CursorMode::Local;
    out.clear();
    assert!(low_kb_hook(&mut st, key(0x101, 0x1e, 0x41), None, 1_001, &mut out));
    assert!(out.contains(&Effect::Forward(InputEvent::Key { code: KeyCode(30), down: false })));
    assert!(
        low_kb_hook(&mut st, key(0x100, 0x1f, 0x53), None, 1_002, &mut out),
        "with neither mouse in use the keyboard stays where it was"
    );
    low_mouse_hook(&mut st, mouse(0x201, 960, 540), 1_003, &mut out);
    out.clear();
    assert!(!low_kb_hook(&mut st, key(0x100, 0x20, 0x44), None, 1_004, &mut out));
    assert!(out.is_empty());
}

#[test]
fn the_hotkey_for_the_keyboard_moves_the_target_on() {
    let mut st = InputState::new(Platform::Windows);
    let mut out = Vec::new();
    low_kb_hook(&mut st, key(0x100, 0x1d, 0xa2), None, 1_000, &mut out);
    low_kb_hook(&mut st, key(0x104, 0x38, 0xa4), None, 1_001, &mut out);
    assert!(low_kb_hook(&mut st, key(0x104, 0x25, 0x4b), None, 1_002, &mut out));
    assert_eq!(st.keys.keyboard_target, KeyboardTarget::ForcePeer);
}

#[test]
fn raw_reports_are_sorted() {
    let mut st = InputState::new(Platform::Windows);
    st.win.using_raw_input = true;
    assert_eq!(handle_raw_input(&mut st, RawReport::Other, 1_000), RawStep::Done);
    assert_eq!(
        handle_raw_input(&mut st, RawReport::Mouse { absolute: false, dx: 3, dy: 4 }, 1_000),
        RawStep::ReadCursor
    );
    st.win.mode = CursorMode::Remote;
    assert_eq!(
        handle_raw_input(&mut st, RawReport::Mouse { absolute: false, dx: 3, dy: 4 }, 1_000),
        RawStep::Scale { dx: 3, dy: 4 }
    );
    assert_eq!(
        handle_raw_input(&mut st, RawReport::Mouse { absolute: true, dx: 3, dy: 4 }, 1_000),
        RawStep::Done
    );
}

#[test]
fn the_capture_starts_once() {
    let mut win = WindowsState::new();
    let mut capture = HookCapture::new();
    assert!(capture.start(&mut win, -1920, 0, 3840, 1080));
    assert_eq!((win.origin_x, win.screen_w), (-1920, 3840));
    assert!(!capture.start(&mut win, 0, 0, 800, 600));
    assert_eq!(win.screen_w, 3840);
    let mut other = HookCapture::new();
    let mut blank = WindowsState::new();
    assert!(other.start(&mut blank, 0, 0, 0, 0));
    assert_eq!(blank.screen_w, 1920);
}
