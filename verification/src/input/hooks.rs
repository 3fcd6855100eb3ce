//! The keyboard and mouse hooks of a Windows machine, its raw input, and the
//! keys that reach the capture window.

use crate::arith::{self, clamp_i32, half_i32};
use crate::input::events::{Button, InputEvent, KeyCode};
use crate::input::foreground::{self, note_forwarded_key, raw_keyboard_owns_legacy_tab};
use crate::input::keymap::{self, captured_keycode};
use crate::input::motion::{queue_pending_motion, Clock};
use crate::input::touchpad::{
    self, legacy_capture_may_forward, legacy_key_from_message, raw_alt_tab_edge, raw_meta_edge,
    raw_snipping_edge, reserved_alt_tab_poll_edge, should_neutralize_routed_legacy_shift,
    should_recover_reserved_alt_tab, WM_KEYDOWN, WM_KEYUP, WM_SYSKEYDOWN, WM_SYSKEYUP,
};
use crate::input::windows::{self, WindowsState};
use crate::input::{
    self, bump_local_click, cycle_keyboard_target, fire_remote_event, note_key_forwarded_with_code,
    push_when, route_keystroke, route_mouse_button, set_input_locked, toggle_game_drive, Activity,
    CursorMode, Effect, GameDrive, InputState, KeyRouting, PeerSide, RemoteEvent,
};
use vstd::prelude::*;

verus! {

/// Whether an edge that went to the peer is noted by the capture window: a
/// release always is, a press only while the cursor is on the peer's screen.
pub fn should_sync_forwarded_key_latch(down: bool, cursor_in_remote: bool) -> (r: bool)
    ensures
        r == (cursor_in_remote || !down),
{
    cursor_in_remote || !down
}

/// The touchpad state after a key edge was noted.
pub open spec fn touch_noted(
    ts: foreground::TouchpadState,
    code: u16,
    down: bool,
) -> foreground::TouchpadState {
    foreground::TouchpadState {
        keyboard_suspended: foreground::suspended_after(ts, code, down),
        latches: ts.latches.after(code, down),
        ..ts
    }
}

/// How a key edge changes the state, what it sends, and whether it goes to the
/// peer.
#[verifier::opaque]
pub open spec fn key_routed(
    pre: InputState,
    post: InputState,
    code: u16,
    down: bool,
    remote: bool,
    now_ms: u64,
    sent: Seq<Effect>,
    to_peer: bool,
) -> bool {
    let event = InputEvent::Key { code: KeyCode(code), down };
    let sync = to_peer && (remote || !down);
    &&& to_peer == input::keystroke_to_peer(pre, code, down, remote, now_ms)
    &&& post.keys.held() == input::held_after(pre.keys.held(), event, to_peer)
    &&& post == (InputState {
        keys: KeyRouting {
            held_keys: post.keys.held_keys,
            last_smart_to_peer: if down && !pre.keys.held().keys.contains(code as int) {
                input::remembered_answer(pre, remote, now_ms)
            } else {
                pre.keys.last_smart_to_peer
            },
            keys_forwarded: if to_peer {
                pre.keys.keys_forwarded.wrapping_add(1)
            } else {
                pre.keys.keys_forwarded
            },
            ..pre.keys
        },
        touch: if sync {
            touch_noted(pre.touch, code, down)
        } else {
            pre.touch
        },
        ..pre
    })
    &&& sent == input::when(to_peer, Effect::Forward(event)) + if sync {
        foreground::suspension_effects(pre.touch, code, down)
    } else {
        Seq::empty()
    }
}

/// What routing a key edge does to the touchpad state.
pub proof fn routing_notes_the_edge(
    pre: InputState,
    post: InputState,
    code: u16,
    down: bool,
    remote: bool,
    now_ms: u64,
    sent: Seq<Effect>,
    to_peer: bool,
)
    requires
        key_routed(pre, post, code, down, remote, now_ms, sent, to_peer),
    ensures
        post.touch == if to_peer && (remote || !down) {
            touch_noted(pre.touch, code, down)
        } else {
            pre.touch
        },
{
    reveal(key_routed);
}

/// Routes one key edge by its scan code; tells whether it went to the peer.
pub fn route_physical_key(
    st: &mut InputState,
    scan: u32,
    vk: u32,
    extended: bool,
    down: bool,
    cursor_in_remote: bool,
    now_ms: u64,
    out: &mut Vec<Effect>,
) -> (r: bool)
    ensures
        old(st).well_formed() ==> final(st).well_formed(),
        exists|sent: Seq<Effect>|
            #![trigger key_routed(*old(st), *final(st), keymap::captured_key(scan as u16, vk as u16, extended), down, cursor_in_remote, now_ms, sent, r)]
            key_routed(
                *old(st),
                *final(st),
                keymap::captured_key(scan as u16, vk as u16, extended),
                down,
                cursor_in_remote,
                now_ms,
                sent,
                r,
            ) && final(out)@ == old(out)@ + sent,
{
    let ghost base = out@;
    let code: u16 = captured_keycode(
        #[verifier::truncate] (scan as u16),
        #[verifier::truncate] (vk as u16),
        extended,
    );
    let to_peer = route_keystroke(st, code, down, cursor_in_remote, now_ms);
    let event = Effect::Forward(InputEvent::Key { code: KeyCode(code), down });
    push_when(to_peer, event, out);
    let ghost e1 = input::when(to_peer, event);
    let ghost mut e2 = Seq::<Effect>::empty();
    if to_peer {
        if should_sync_forwarded_key_latch(down, cursor_in_remote) {
            note_forwarded_key(&mut st.touch, code, down, out);
            proof {
                e2 = foreground::suspension_effects(old(st).touch, code, down);
            }
        }
        let ghost held = st.keys.held();
        note_key_forwarded_with_code(&mut st.keys);
        assert(st.keys.held() =~= held);
    }
    proof {
        input::lemma_appended(base, e1, e2);
        assert(base + e1 =~= base + e1 + Seq::<Effect>::empty());
        assert(out@ == base + (e1 + e2));
        reveal(key_routed);
        assert(key_routed(
            *old(st),
            *st,
            code,
            down,
            cursor_in_remote,
            now_ms,
            e1 + e2,
            to_peer,
        ));
    }
    to_peer
}

/// Scan codes of the modifiers and the hotkeys.
pub const SCAN_CTRL: u32 = 0x1d;

pub const SCAN_ALT: u32 = 0x38;

/// R switches between the machines.
pub const SCAN_HOTKEY: u32 = 0x13;

/// L pins the input to this machine.
pub const SCAN_HOTKEY_LOCK: u32 = 0x26;

/// K changes the keyboard target.
pub const SCAN_HOTKEY_KB: u32 = 0x25;

/// G starts and stops Game Drive.
pub const SCAN_G: u32 = 0x22;

/// One key event as the keyboard hook gets it.
#[derive(Debug, Clone, Copy, PartialEq, Eq, Structural)]
pub struct KeyHookEvent {
    pub message: u32,
    pub scan: u32,
    pub vk: u32,
    pub flags: u32,
}

impl KeyHookEvent {
    pub open spec fn is_down(self) -> bool {
        self.message == WM_KEYDOWN || self.message == WM_SYSKEYDOWN
    }

    pub open spec fn is_up(self) -> bool {
        self.message == WM_KEYUP || self.message == WM_SYSKEYUP
    }

    /// Whether a program made the event: one of two bits says so.
    pub open spec fn injected(self) -> bool {
        self.flags & 0x12 != 0
    }

    pub open spec fn extended(self) -> bool {
        self.flags & 0x01 != 0
    }
}

/// The modifiers after a key event.
pub open spec fn modifiers_after(win: WindowsState, ev: KeyHookEvent) -> WindowsState {
    let edge = ev.is_down() || ev.is_up();
    WindowsState {
        mod_ctrl: if edge && ev.scan == SCAN_CTRL {
            ev.is_down()
        } else {
            win.mod_ctrl
        },
        mod_alt: if edge && ev.scan == SCAN_ALT {
            ev.is_down()
        } else {
            win.mod_alt
        },
        ..win
    }
}

fn note_modifiers(win: &mut WindowsState, ev: &KeyHookEvent, down: bool, up: bool)
    requires
        down == ev.is_down(),
        up == ev.is_up(),
    ensures
        *final(win) == modifiers_after(*old(win), *ev),
{
    if down || up {
        if ev.scan == SCAN_CTRL {
            win.mod_ctrl = down;
        }
        if ev.scan == SCAN_ALT {
            win.mod_alt = down;
        }
    }
}

/// The middle of the desktop's height.
pub open spec fn middle_height(win: WindowsState) -> i32 {
    arith::half(win.edges().1 + win.edges().3) as i32
}

/// Where the cursor enters the peer's screen by hotkey: at its height, or in
/// the middle when it is not known.
pub open spec fn hotkey_lateral(win: WindowsState, cursor_y: Option<i32>) -> i32 {
    match cursor_y {
        Some(y) => y,
        None => middle_height(win),
    }
}

/// The state after the hotkey that switches between the machines: the local
/// mouse comes back, or the peer is asked to let go, or the local mouse goes
/// over, which it does not while a game is driven.
pub open spec fn switched(st: InputState, cursor_y: Option<i32>) -> InputState {
    if st.win.mode == CursorMode::Remote {
        InputState {
            win: windows::exited(st.win, st.link.peer_side, middle_height(st.win)),
            touch: foreground::requested_state(st.touch, false),
            ..st
        }
    } else if st.link.peer_in_remote || st.link.game_drive != GameDrive::Off {
        st
    } else {
        InputState {
            win: windows::entered(st.win, hotkey_lateral(st.win, cursor_y)),
            touch: windows::touch_entered(st.touch, st.win),
            ..st
        }
    }
}

pub open spec fn switch_effects(st: InputState) -> Seq<Effect> {
    if st.win.mode == CursorMode::Remote {
        windows::exit_effects(st.link, st.win, st.touch, middle_height(st.win))
    } else if st.link.peer_in_remote {
        st.link.fired(RemoteEvent::RequestPeerExit)
    } else if st.link.game_drive != GameDrive::Off {
        Seq::empty()
    } else {
        windows::enter_effects(st.link, st.win, st.touch)
    }
}

fn switch_sides(st: &mut InputState, cursor_y: Option<i32>, out: &mut Vec<Effect>)
    requires
        old(st).well_formed(),
    ensures
        final(st).well_formed(),
        *final(st) == switched(*old(st), cursor_y),
        final(out)@ == old(out)@ + switch_effects(*old(st)),
{
    let (_, top, _, bottom) = windows::bounds(&st.win);
    let middle: i32 = half_i32(top + bottom);
    if st.win.mode == CursorMode::Remote {
        windows::exit_remote(&st.link, &mut st.win, &mut st.touch, middle, out);
    } else if st.link.peer_in_remote {
        fire_remote_event(&st.link, RemoteEvent::RequestPeerExit, out);
    } else if st.link.game_drive == GameDrive::Off {
        let entry: i32 = match cursor_y {
            Some(y) => y,
            None => middle,
        };
        windows::enter_remote(&st.link, &mut st.win, &mut st.touch, entry, out);
    } else {
        assert(out@ =~= old(out)@ + switch_effects(*old(st)));
    }
}

/// Whether an event presses a hotkey: the key with both modifiers held.
pub open spec fn hotkey(win: WindowsState, ev: KeyHookEvent, scan: u32) -> bool {
    ev.is_down() && ev.scan == scan && win.mod_ctrl && win.mod_alt
}

/// What a hotkey does; nothing when the event presses none.
#[derive(Debug, Clone, Copy, PartialEq, Eq, Structural)]
pub enum Hotkey {
    Absent,
    Switch,
    Lock,
    Target,
    Drive,
}

pub open spec fn hotkey_of(win: WindowsState, ev: KeyHookEvent) -> Hotkey {
    if hotkey(win, ev, SCAN_HOTKEY) {
        Hotkey::Switch
    } else if hotkey(win, ev, SCAN_HOTKEY_LOCK) {
        Hotkey::Lock
    } else if hotkey(win, ev, SCAN_HOTKEY_KB) {
        Hotkey::Target
    } else if hotkey(win, ev, SCAN_G) {
        Hotkey::Drive
    } else {
        Hotkey::Absent
    }
}

fn find_hotkey(win: &WindowsState, ev: &KeyHookEvent, down: bool) -> (r: Hotkey)
    requires
        down == ev.is_down(),
    ensures
        r == hotkey_of(*win, *ev),
{
    if !(down && win.mod_ctrl && win.mod_alt) {
        Hotkey::Absent
    } else if ev.scan == SCAN_HOTKEY {
        Hotkey::Switch
    } else if ev.scan == SCAN_HOTKEY_LOCK {
        Hotkey::Lock
    } else if ev.scan == SCAN_HOTKEY_KB {
        Hotkey::Target
    } else if ev.scan == SCAN_G {
        Hotkey::Drive
    } else {
        Hotkey::Absent
    }
}

/// How a hotkey changes the state and what it sends.
pub open spec fn hotkey_done(
    pre: InputState,
    post: InputState,
    key: Hotkey,
    cursor_y: Option<i32>,
    sent: Seq<Effect>,
) -> bool {
    match key {
        Hotkey::Absent => post == pre && sent == Seq::<Effect>::empty(),
        Hotkey::Switch => post == switched(pre, cursor_y) && sent == switch_effects(pre),
        Hotkey::Lock => if pre.link.input_locked {
            post == input::with_lock(pre, false) && sent == Seq::<Effect>::empty()
        } else {
            let locked = input::with_lock(pre, true);
            post == input::forced_local(locked) && sent == input::forced_local_effects(locked)
        },
        Hotkey::Target => post == (InputState {
            keys: KeyRouting {
                keyboard_target: input::next_target(pre.keys.keyboard_target),
                ..pre.keys
            },
            ..pre
        }) && sent == Seq::<Effect>::empty(),
        Hotkey::Drive => if pre.link.game_drive == GameDrive::Off {
            post == input::with_drive(input::forced_local(pre), GameDrive::Driving) && sent
                == input::forced_local_effects(pre) + pre.link.fired(RemoteEvent::GameDriveStart)
        } else {
            post == input::with_drive(pre, GameDrive::Off) && sent == pre.link.fired(
                RemoteEvent::GameDriveStop,
            )
        },
    }
}

fn do_hotkey(st: &mut InputState, key: Hotkey, cursor_y: Option<i32>, out: &mut Vec<Effect>)
    requires
        old(st).well_formed(),
    ensures
        final(st).well_formed(),
        exists|sent: Seq<Effect>|
            #![trigger hotkey_done(*old(st), *final(st), key, cursor_y, sent)]
            hotkey_done(*old(st), *final(st), key, cursor_y, sent) && final(out)@ == old(out)@
                + sent,
{
    let ghost pre = *st;
    let ghost base = out@;
    match key {
        Hotkey::Absent => {
            assert(hotkey_done(pre, *st, key, cursor_y, Seq::empty()));
            assert(out@ =~= base + Seq::<Effect>::empty());
        },
        Hotkey::Switch => {
            switch_sides(st, cursor_y, out);
            assert(hotkey_done(pre, *st, key, cursor_y, switch_effects(pre)));
        },
        Hotkey::Lock => {
            let next = !st.link.input_locked;
            set_input_locked(st, next, out);
            let ghost sent = if next {
                input::forced_local_effects(input::with_lock(pre, true))
            } else {
                Seq::empty()
            };
            assert(hotkey_done(pre, *st, key, cursor_y, sent));
            assert(out@ =~= base + sent);
        },
        Hotkey::Target => {
            cycle_keyboard_target(&mut st.keys);
            assert(hotkey_done(pre, *st, key, cursor_y, Seq::empty()));
            assert(out@ =~= base + Seq::<Effect>::empty());
        },
        Hotkey::Drive => {
            toggle_game_drive(st, out);
            let ghost sent = if pre.link.game_drive == GameDrive::Off {
                input::forced_local_effects(pre) + pre.link.fired(RemoteEvent::GameDriveStart)
            } else {
                pre.link.fired(RemoteEvent::GameDriveStop)
            };
            assert(hotkey_done(pre, *st, key, cursor_y, sent));
            assert(out@ =~= base + sent);
        },
    }
}

/// How a key event of the hook changes the state, what it sends, and whether
/// it is kept from the system.
///
/// An event that a program made is passed on. A hotkey is done and kept. Any
/// other edge is routed; one that went to the peer is kept, except for a
/// release whose press had reached this machine.
pub open spec fn key_hooked(
    pre: InputState,
    post: InputState,
    ev: KeyHookEvent,
    cursor_y: Option<i32>,
    now_ms: u64,
    sent: Seq<Effect>,
    kept: bool,
) -> bool {
    let mid = InputState { win: modifiers_after(pre.win, ev), ..pre };
    let key = hotkey_of(mid.win, ev);
    if ev.injected() {
        post == pre && sent == Seq::<Effect>::empty() && !kept
    } else if key != Hotkey::Absent {
        hotkey_done(mid, post, key, cursor_y, sent) && kept
    } else if ev.is_down() || ev.is_up() {
        edge_hooked(mid, post, ev, now_ms, sent, kept)
    } else {
        post == mid && sent == Seq::<Effect>::empty() && !kept
    }
}

/// How the hook routes a key edge that is no hotkey, and whether it is kept
/// from the system.
pub open spec fn edge_hooked(
    mid: InputState,
    post: InputState,
    ev: KeyHookEvent,
    now_ms: u64,
    sent: Seq<Effect>,
    kept: bool,
) -> bool {
    exists|mid2: InputState, to_peer: bool|
        #![trigger routed_through(mid, mid2, post, ev, now_ms, sent, to_peer)]
        routed_through(mid, mid2, post, ev, now_ms, sent, to_peer) && kept == (to_peer && !(
        ev.is_up() && mid.touch.passthrough@.contains(
            touchpad::edge_identity(ev.scan, ev.extended()),
        )))
}

/// A key edge routed from `mid2`, which is `mid` without the press that had
/// reached this machine, if the edge is its release.
pub open spec fn routed_through(
    mid: InputState,
    mid2: InputState,
    post: InputState,
    ev: KeyHookEvent,
    now_ms: u64,
    sent: Seq<Effect>,
    to_peer: bool,
) -> bool {
    let identity = touchpad::edge_identity(ev.scan, ev.extended());
    &&& mid2 == (InputState {
        touch: foreground::TouchpadState { passthrough: mid2.touch.passthrough, ..mid.touch },
        ..mid
    })
    &&& mid2.touch.passthrough@ == if ev.is_up() {
        mid.touch.passthrough@.remove(identity)
    } else {
        mid.touch.passthrough@
    }
    &&& key_routed(
        mid2,
        post,
        keymap::captured_key(ev.scan as u16, ev.vk as u16, ev.extended()),
        ev.is_down(),
        mid.win.mode == CursorMode::Remote,
        now_ms,
        sent,
        to_peer,
    )
}

fn route_hooked_edge(
    st: &mut InputState,
    ev: &KeyHookEvent,
    down: bool,
    up: bool,
    now_ms: u64,
    out: &mut Vec<Effect>,
) -> (kept: bool)
    requires
        old(st).well_formed(),
        down == ev.is_down(),
        up == ev.is_up(),
    ensures
        final(st).well_formed(),
        exists|sent: Seq<Effect>|
            #![trigger edge_hooked(*old(st), *final(st), *ev, now_ms, sent, kept)]
            edge_hooked(*old(st), *final(st), *ev, now_ms, sent, kept) && final(out)@ == old(out)@
                + sent,
{
    let ghost mid = *st;
    let ghost base = out@;
    let extended = ev.flags & 0x01 != 0;
    let remote = st.win.mode == CursorMode::Remote;
    let pass = up && st.touch.passthrough.take_hook_release(ev.scan, extended);
    let ghost mid2 = *st;
    let routed = route_physical_key(st, ev.scan, ev.vk, extended, down, remote, now_ms, out);
    let kept = routed && !pass;
    proof {
        let code = keymap::captured_key(ev.scan as u16, ev.vk as u16, extended);
        let sent = choose|sent: Seq<Effect>|
            #![trigger key_routed(mid2, *st, code, down, remote, now_ms, sent, routed)]
            key_routed(mid2, *st, code, down, remote, now_ms, sent, routed) && out@ == base + sent;
        assert(routed_through(mid, mid2, *st, *ev, now_ms, sent, routed));
        assert(edge_hooked(mid, *st, *ev, now_ms, sent, kept));
    }
    kept
}

/// Handles one key event of the hook; tells whether it is kept from the
/// system. `cursor_y` is the height of the cursor, where it is known.
pub fn low_kb_hook(
    st: &mut InputState,
    ev: KeyHookEvent,
    cursor_y: Option<i32>,
    now_ms: u64,
    out: &mut Vec<Effect>,
) -> (kept: bool)
    requires
        old(st).well_formed(),
    ensures
        final(st).well_formed(),
        exists|sent: Seq<Effect>|
            #![trigger key_hooked(*old(st), *final(st), ev, cursor_y, now_ms, sent, kept)]
            key_hooked(*old(st), *final(st), ev, cursor_y, now_ms, sent, kept) && final(out)@ == old(out)@ + sent,
{
    let ghost pre = *st;
    let ghost base = out@;
    let ghost none = Seq::<Effect>::empty();
    if ev.flags & 0x12 != 0 {
        assert(key_hooked(pre, *st, ev, cursor_y, now_ms, none, false));
        assert(out@ =~= base + none);
        return false;
    }
    let down = ev.message == WM_KEYDOWN || ev.message == WM_SYSKEYDOWN;
    let up = ev.message == WM_KEYUP || ev.message == WM_SYSKEYUP;
    note_modifiers(&mut st.win, &ev, down, up);
    let ghost mid = *st;
    let key = find_hotkey(&st.win, &ev, down);
    if key != Hotkey::Absent {
        do_hotkey(st, key, cursor_y, out);
        proof {
            let sent = choose|sent: Seq<Effect>|
                #![trigger hotkey_done(mid, *st, key, cursor_y, sent)]
                hotkey_done(mid, *st, key, cursor_y, sent) && out@ == base + sent;
            assert(key_hooked(pre, *st, ev, cursor_y, now_ms, sent, true));
        }
        return true;
    }
    if down || up {
        let kept = route_hooked_edge(st, &ev, down, up, now_ms, out);
        proof {
            let sent = choose|sent: Seq<Effect>|
                #![trigger edge_hooked(mid, *st, ev, now_ms, sent, kept)]
                edge_hooked(mid, *st, ev, now_ms, sent, kept) && out@ == base + sent;
            assert(key_hooked(pre, *st, ev, cursor_y, now_ms, sent, kept));
        }
        return kept;
    }
    assert(key_hooked(pre, *st, ev, cursor_y, now_ms, none, false));
    assert(out@ =~= base + none);
    false
}

/// Message numbers of the mouse.
pub const WM_MOUSEMOVE: u32 = 0x0200;

pub const WM_LBUTTONDOWN: u32 = 0x0201;

pub const WM_LBUTTONUP: u32 = 0x0202;

pub const WM_RBUTTONDOWN: u32 = 0x0204;

pub const WM_RBUTTONUP: u32 = 0x0205;

pub const WM_MBUTTONDOWN: u32 = 0x0207;

pub const WM_MBUTTONUP: u32 = 0x0208;

pub const WM_MOUSEWHEEL: u32 = 0x020a;

pub const WM_XBUTTONDOWN: u32 = 0x020b;

pub const WM_XBUTTONUP: u32 = 0x020c;

pub const WM_MOUSEHWHEEL: u32 = 0x020e;

/// Marks the events that this program injects.
pub const MINESHARE_INPUT_TAG: u64 = 0x4d53_4852;

/// One mouse event as the mouse hook gets it.
#[derive(Debug, Clone, Copy, PartialEq, Eq, Structural)]
pub struct MouseHookEvent {
    pub message: u32,
    pub x: i32,
    pub y: i32,
    pub mouse_data: u32,
    pub flags: u32,
    pub extra: u64,
}

impl MouseHookEvent {
    /// Whether a program made the event: one of two bits says so.
    pub open spec fn injected(self) -> bool {
        self.flags & 0x3 != 0
    }

    pub open spec fn is_wheel(self) -> bool {
        self.message == WM_MOUSEWHEEL || self.message == WM_MOUSEHWHEEL
    }

    /// Whether a button goes down.
    pub open spec fn is_press(self) -> bool {
        self.message == WM_LBUTTONDOWN || self.message == WM_RBUTTONDOWN || self.message
            == WM_MBUTTONDOWN || self.message == WM_XBUTTONDOWN
    }

    pub open spec fn is_release(self) -> bool {
        self.message == WM_LBUTTONUP || self.message == WM_RBUTTONUP || self.message
            == WM_MBUTTONUP || self.message == WM_XBUTTONUP
    }

    /// The upper half of the event's data.
    pub open spec fn high_word(self) -> int {
        (self.mouse_data / 0x1_0000) as int
    }

    /// The button of a press or release. The upper half of the data tells the
    /// two extra buttons apart.
    pub open spec fn button(self) -> Option<Button> {
        if self.message == WM_LBUTTONDOWN || self.message == WM_LBUTTONUP {
            Some(Button::Left)
        } else if self.message == WM_RBUTTONDOWN || self.message == WM_RBUTTONUP {
            Some(Button::Right)
        } else if self.message == WM_MBUTTONDOWN || self.message == WM_MBUTTONUP {
            Some(Button::Middle)
        } else if self.message == WM_XBUTTONDOWN || self.message == WM_XBUTTONUP {
            if self.high_word() == 1 {
                Some(Button::X1)
            } else if self.high_word() == 2 {
                Some(Button::X2)
            } else {
                None
            }
        } else {
            None
        }
    }

    /// The wheel distance: the upper half of the data as a signed number.
    pub open spec fn wheel_units(self) -> int {
        if self.high_word() >= 0x8000 {
            self.high_word() - 0x1_0000
        } else {
            self.high_word()
        }
    }

    fn read_button(&self) -> (r: Option<Button>)
        ensures
            r == self.button(),
    {
        let m: u32 = self.message;
        if m == WM_LBUTTONDOWN || m == WM_LBUTTONUP {
            Some(Button::Left)
        } else if m == WM_RBUTTONDOWN || m == WM_RBUTTONUP {
            Some(Button::Right)
        } else if m == WM_MBUTTONDOWN || m == WM_MBUTTONUP {
            Some(Button::Middle)
        } else if m == WM_XBUTTONDOWN || m == WM_XBUTTONUP {
            let high: u32 = self.mouse_data / 0x1_0000;
            if high == 1 {
                Some(Button::X1)
            } else if high == 2 {
                Some(Button::X2)
            } else {
                None
            }
        } else {
            None
        }
    }

    fn read_wheel_units(&self) -> (r: i64)
        ensures
            r == self.wheel_units(),
    {
        let high: i64 = (self.mouse_data / 0x1_0000) as i64;
        if high >= 0x8000 {
            high - 0x1_0000
        } else {
            high
        }
    }
}

/// What becomes of a mouse event.
#[derive(Debug, Clone, Copy, PartialEq, Eq, Structural)]
pub enum MouseVerdict {
    /// The system gets it.
    Pass,
    /// It is kept from the system.
    Keep,
    /// It is kept, and its motion goes to the peer: scale it by the
    /// sensitivity and hand the result to [`forward_hook_motion`].
    Scale { dx: i32, dy: i32 },
}

/// Whether an event is kept once its own branch is done: all are, while the
/// local mouse goes to the peer.
pub open spec fn kept_while_forwarding(st: InputState) -> MouseVerdict {
    if windows::forwarding(st.link, st.win) {
        MouseVerdict::Keep
    } else {
        MouseVerdict::Pass
    }
}

fn keep_while_forwarding(st: &InputState) -> (r: MouseVerdict)
    ensures
        r == kept_while_forwarding(*st),
{
    if windows::forwarding_active(&st.link, &st.win) {
        MouseVerdict::Keep
    } else {
        MouseVerdict::Pass
    }
}

/// Whether raw reports own the motion: one came not long ago.
pub open spec fn raw_is_live(win: WindowsState, now_ms: u64) -> bool {
    win.last_raw_input_ms != 0 && arith::elapsed(now_ms, win.last_raw_input_ms)
        < windows::RAW_INPUT_STALE_MS
}

/// How genuine local motion changes the state and what it sends.
pub open spec fn local_motion_done(
    pre: InputState,
    post: InputState,
    x: i32,
    y: i32,
    now_ms: u64,
    sent: Seq<Effect>,
) -> bool {
    let link = windows::reclaimed(pre.link, pre.win, x as int, y as int);
    let moved = WindowsState { last_x: x, last_y: y, ..pre.win };
    let asked = windows::reclaim_effects(pre.link, pre.win, x as int, y as int);
    let activity = pre.activity.after_motion(now_ms);
    if windows::crosses_over(pre.link, pre.win, x as int, y as int) {
        let lateral = if pre.link.peer_side.horizontal() {
            y
        } else {
            x
        };
        &&& post == (InputState {
            link,
            activity,
            win: windows::entered(moved, lateral),
            touch: windows::touch_entered(pre.touch, moved),
            ..pre
        })
        &&& sent == asked + windows::enter_effects(link, moved, pre.touch)
    } else {
        post == (InputState { link, activity, win: moved, ..pre }) && sent == asked
    }
}

/// Handles genuine local motion, seen at a position.
pub fn local_motion(st: &mut InputState, x: i32, y: i32, now_ms: u64, out: &mut Vec<Effect>)
    requires
        old(st).well_formed(),
    ensures
        final(st).well_formed(),
        exists|sent: Seq<Effect>|
            #![trigger local_motion_done(*old(st), *final(st), x, y, now_ms, sent)]
            local_motion_done(*old(st), *final(st), x, y, now_ms, sent) && final(out)@ == old(out)@
                + sent,
{
    let ghost pre = *st;
    let ghost base = out@;
    windows::process_local_mouse_motion(
        &mut st.link,
        &mut st.activity,
        &mut st.win,
        &mut st.touch,
        x,
        y,
        true,
        now_ms,
        out,
    );
    proof {
        let asked = windows::reclaim_effects(pre.link, pre.win, x as int, y as int);
        if windows::crosses_over(pre.link, pre.win, x as int, y as int) {
            let moved = WindowsState { last_x: x, last_y: y, ..pre.win };
            let entered = windows::enter_effects(st.link, moved, pre.touch);
            input::lemma_appended(base, asked, entered);
            assert(local_motion_done(pre, *st, x, y, now_ms, asked + entered));
        } else {
            assert(local_motion_done(pre, *st, x, y, now_ms, asked));
        }
    }
}

/// The hidden cursor back at the anchor.
pub open spec fn pinned(win: WindowsState) -> WindowsState {
    WindowsState {
        last_x: win.anchor_point().0 as i32,
        last_y: win.anchor_point().1 as i32,
        ..win
    }
}

pub open spec fn pin_effects(win: WindowsState) -> Seq<Effect> {
    input::when(
        true,
        Effect::WarpCursor { x: win.anchor_point().0 as i32, y: win.anchor_point().1 as i32 },
    )
}

fn pin_cursor(win: &mut WindowsState, out: &mut Vec<Effect>)
    requires
        old(win).geometry_fits(),
    ensures
        *final(win) == pinned(*old(win)),
        final(out)@ == old(out)@ + pin_effects(*old(win)),
{
    let (ax, ay) = windows::anchor(win);
    push_when(true, Effect::WarpCursor { x: ax, y: ay }, out);
    windows::note_position(win, ax, ay);
}

/// How a mouse motion that the hook handles changes the state and what it
/// sends.
pub open spec fn move_hooked(
    pre: InputState,
    post: InputState,
    ev: MouseHookEvent,
    now_ms: u64,
    sent: Seq<Effect>,
    r: MouseVerdict,
) -> bool {
    if pre.win.mode == CursorMode::Local {
        local_motion_done(pre, post, ev.x, ev.y, now_ms, sent) && r == kept_while_forwarding(post)
    } else if raw_is_live(pre.win, now_ms) {
        post == (InputState { win: pinned(pre.win), ..pre }) && sent == pin_effects(pre.win) && r
            == MouseVerdict::Keep
    } else {
        post == pre && sent == Seq::<Effect>::empty() && r == (MouseVerdict::Scale {
            dx: (ev.x - pre.win.last_x) as i32,
            dy: (ev.y - pre.win.last_y) as i32,
        })
    }
}

fn hook_move(st: &mut InputState, ev: &MouseHookEvent, now_ms: u64, out: &mut Vec<Effect>) -> (r:
    MouseVerdict)
    requires
        old(st).well_formed(),
        ev.message == WM_MOUSEMOVE,
        move_fits(old(st).win, *ev),
    ensures
        final(st).well_formed(),
        exists|sent: Seq<Effect>|
            #![trigger move_hooked(*old(st), *final(st), *ev, now_ms, sent, r)]
            move_hooked(*old(st), *final(st), *ev, now_ms, sent, r) && final(out)@ == old(out)@
                + sent,
{
    let ghost pre = *st;
    let ghost base = out@;
    if st.win.mode == CursorMode::Local {
        local_motion(st, ev.x, ev.y, now_ms, out);
        let r = keep_while_forwarding(st);
        proof {
            let sent = choose|sent: Seq<Effect>|
                #![trigger local_motion_done(pre, *st, ev.x, ev.y, now_ms, sent)]
                local_motion_done(pre, *st, ev.x, ev.y, now_ms, sent) && out@ == base + sent;
            assert(move_hooked(pre, *st, *ev, now_ms, sent, r));
        }
        return r;
    }
    let last_raw: u64 = st.win.last_raw_input_ms;
    if last_raw != 0 && now_ms.saturating_sub(last_raw) < windows::RAW_INPUT_STALE_MS {
        pin_cursor(&mut st.win, out);
        assert(move_hooked(pre, *st, *ev, now_ms, pin_effects(pre.win), MouseVerdict::Keep));
        return MouseVerdict::Keep;
    }
    let r = MouseVerdict::Scale { dx: ev.x - st.win.last_x, dy: ev.y - st.win.last_y };
    assert(move_hooked(pre, *st, *ev, now_ms, Seq::empty(), r));
    assert(out@ =~= base + Seq::<Effect>::empty());
    r
}

/// The distance that a motion in `Remote` mode covers fits its type.
pub open spec fn move_fits(win: WindowsState, ev: MouseHookEvent) -> bool {
    ev.message == WM_MOUSEMOVE && win.mode == CursorMode::Remote ==> i32::MIN <= ev.x - win.last_x
        <= i32::MAX && i32::MIN <= ev.y - win.last_y <= i32::MAX
}

/// How a button event changes the state and what it sends: a press counts as
/// a click, and an edge that goes to the peer is sent and kept.
pub open spec fn button_hooked(
    pre: InputState,
    post: InputState,
    ev: MouseHookEvent,
    now_ms: u64,
    sent: Seq<Effect>,
    r: MouseVerdict,
) -> bool {
    let down = ev.is_press();
    let activity = if down {
        Activity { local_click_at: now_ms, ..pre.activity }
    } else {
        pre.activity
    };
    match ev.button() {
        Some(btn) => {
            let to_peer = input::button_to_peer(
                pre.keys,
                btn,
                down,
                windows::forwarding(pre.link, pre.win),
            );
            let event = InputEvent::MouseButton { btn, down };
            &&& post == (InputState {
                activity,
                keys: KeyRouting { held_buttons: post.keys.held_buttons, ..pre.keys },
                ..pre
            })
            &&& post.keys.held() == input::held_after(pre.keys.held(), event, to_peer)
            &&& sent == input::when(to_peer, Effect::Forward(event))
            &&& r == if to_peer {
                MouseVerdict::Keep
            } else {
                kept_while_forwarding(pre)
            }
        },
        None => post == (InputState { activity, ..pre }) && sent == Seq::<Effect>::empty() && r
            == kept_while_forwarding(pre),
    }
}

fn hook_button(
    st: &mut InputState,
    ev: &MouseHookEvent,
    down: bool,
    now_ms: u64,
    out: &mut Vec<Effect>,
) -> (r: MouseVerdict)
    requires
        old(st).well_formed(),
        down == ev.is_press(),
    ensures
        final(st).well_formed(),
        exists|sent: Seq<Effect>|
            #![trigger button_hooked(*old(st), *final(st), *ev, now_ms, sent, r)]
            button_hooked(*old(st), *final(st), *ev, now_ms, sent, r) && final(out)@ == old(out)@
                + sent,
{
    let ghost pre = *st;
    let ghost base = out@;
    if down {
        bump_local_click(&mut st.activity, now_ms);
    }
    match ev.read_button() {
        Some(btn) => {
            let forwarding = windows::forwarding_active(&st.link, &st.win);
            let to_peer = route_mouse_button(&mut st.keys, btn, down, forwarding);
            let event = Effect::Forward(InputEvent::MouseButton { btn, down });
            push_when(to_peer, event, out);
            let r = if to_peer {
                MouseVerdict::Keep
            } else {
                keep_while_forwarding(st)
            };
            assert(button_hooked(pre, *st, *ev, now_ms, input::when(to_peer, event), r));
            r
        },
        None => {
            let r = keep_while_forwarding(st);
            assert(button_hooked(pre, *st, *ev, now_ms, Seq::empty(), r));
            assert(out@ =~= base + Seq::<Effect>::empty());
            r
        },
    }
}

/// A wheel event that goes to the peer, turned around where the user asked
/// for it.
pub open spec fn wheel_effects(st: InputState, ev: MouseHookEvent) -> Seq<Effect> {
    let horizontal = ev.message == WM_MOUSEHWHEEL;
    let inverted = if horizontal {
        st.tuning.invert_scroll_x
    } else {
        st.tuning.invert_scroll_y
    };
    input::when(
        ev.is_wheel() && windows::forwarding(st.link, st.win),
        Effect::ForwardWheel {
            horizontal,
            units: (if inverted {
                -ev.wheel_units()
            } else {
                ev.wheel_units()
            }) as i64,
        },
    )
}

fn hook_wheel(st: &InputState, ev: &MouseHookEvent, out: &mut Vec<Effect>)
    ensures
        final(out)@ == old(out)@ + wheel_effects(*st, *ev),
{
    let horizontal = ev.message == WM_MOUSEHWHEEL;
    let wheel = ev.message == WM_MOUSEWHEEL || horizontal;
    let inverted = if horizontal {
        st.tuning.invert_scroll_x
    } else {
        st.tuning.invert_scroll_y
    };
    let raw: i64 = ev.read_wheel_units();
    let units: i64 = if inverted {
        -raw
    } else {
        raw
    };
    let forwarding = windows::forwarding_active(&st.link, &st.win);
    push_when(wheel && forwarding, Effect::ForwardWheel { horizontal, units }, out);
}

/// Whether the hook leaves an event alone: one that a program made is, unless
/// it is a wheel event that the system made for the touchpad while the local
/// mouse goes to the peer.
pub open spec fn left_alone(st: InputState, ev: MouseHookEvent) -> bool {
    ev.injected() && !(ev.extra != MINESHARE_INPUT_TAG && ev.is_wheel() && windows::forwarding(
        st.link,
        st.win,
    ))
}

/// How a mouse event of the hook changes the state, what it sends and what
/// becomes of it.
pub open spec fn mouse_hooked(
    pre: InputState,
    post: InputState,
    ev: MouseHookEvent,
    now_ms: u64,
    sent: Seq<Effect>,
    r: MouseVerdict,
) -> bool {
    if left_alone(pre, ev) {
        &&& r == MouseVerdict::Pass
        &&& sent == Seq::<Effect>::empty()
        &&& post == if ev.message == WM_MOUSEMOVE && pre.link.peer_in_remote {
            InputState { win: WindowsState { last_x: ev.x, last_y: ev.y, ..pre.win }, ..pre }
        } else {
            pre
        }
    } else if ev.message == WM_MOUSEMOVE && !windows::forwarding(pre.link, pre.win)
        && pre.win.using_raw_input {
        post == pre && sent == Seq::<Effect>::empty() && r == MouseVerdict::Pass
    } else if ev.message == WM_MOUSEMOVE {
        move_hooked(pre, post, ev, now_ms, sent, r)
    } else if ev.is_press() || ev.is_release() {
        button_hooked(pre, post, ev, now_ms, sent, r)
    } else {
        post == pre && sent == wheel_effects(pre, ev) && r == kept_while_forwarding(pre)
    }
}

/// Handles one mouse event of the hook.
pub fn low_mouse_hook(
    st: &mut InputState,
    ev: MouseHookEvent,
    now_ms: u64,
    out: &mut Vec<Effect>,
) -> (r: MouseVerdict)
    requires
        old(st).well_formed(),
        move_fits(old(st).win, ev),
    ensures
        final(st).well_formed(),
        exists|sent: Seq<Effect>|
            #![trigger mouse_hooked(*old(st), *final(st), ev, now_ms, sent, r)]
            mouse_hooked(*old(st), *final(st), ev, now_ms, sent, r) && final(out)@ == old(out)@
                + sent,
{
    let ghost pre = *st;
    let ghost base = out@;
    let ghost none = Seq::<Effect>::empty();
    let injected = ev.flags & 0x3 != 0;
    let wheel = ev.message == WM_MOUSEWHEEL || ev.message == WM_MOUSEHWHEEL;
    let forwarding = windows::forwarding_active(&st.link, &st.win);
    let system_wheel = injected && ev.extra != MINESHARE_INPUT_TAG && wheel && forwarding;
    if injected && !system_wheel {
        if ev.message == WM_MOUSEMOVE && st.link.peer_in_remote {
            windows::note_position(&mut st.win, ev.x, ev.y);
        }
        assert(out@ =~= base + none);
        assert(mouse_hooked(pre, *st, ev, now_ms, none, MouseVerdict::Pass));
        return MouseVerdict::Pass;
    }
    if ev.message == WM_MOUSEMOVE && !forwarding && st.win.using_raw_input {
        assert(out@ =~= base + none);
        assert(mouse_hooked(pre, *st, ev, now_ms, none, MouseVerdict::Pass));
        return MouseVerdict::Pass;
    }
    if ev.message == WM_MOUSEMOVE {
        let r = hook_move(st, &ev, now_ms, out);
        proof {
            let sent = choose|sent: Seq<Effect>|
                #![trigger move_hooked(pre, *st, ev, now_ms, sent, r)]
                move_hooked(pre, *st, ev, now_ms, sent, r) && out@ == base + sent;
            assert(mouse_hooked(pre, *st, ev, now_ms, sent, r));
        }
        return r;
    }
    let m: u32 = ev.message;
    let press = m == WM_LBUTTONDOWN || m == WM_RBUTTONDOWN || m == WM_MBUTTONDOWN || m
        == WM_XBUTTONDOWN;
    let release = m == WM_LBUTTONUP || m == WM_RBUTTONUP || m == WM_MBUTTONUP || m == WM_XBUTTONUP;
    if press || release {
        let r = hook_button(st, &ev, press, now_ms, out);
        proof {
            let sent = choose|sent: Seq<Effect>|
                #![trigger button_hooked(pre, *st, ev, now_ms, sent, r)]
                button_hooked(pre, *st, ev, now_ms, sent, r) && out@ == base + sent;
            assert(mouse_hooked(pre, *st, ev, now_ms, sent, r));
        }
        return r;
    }
    hook_wheel(st, &ev, out);
    let r = keep_while_forwarding(st);
    assert(mouse_hooked(pre, *st, ev, now_ms, wheel_effects(pre, ev), r));
    r
}

/// How a scaled motion that the hook or a raw report brings changes the state
/// and what it sends: the virtual cursor follows it, and it is queued for the
/// peer unless the cursor has come back far enough to return control.
pub open spec fn motion_forwarded(
    pre: InputState,
    post: InputState,
    moved: WindowsState,
    dx: i32,
    dy: i32,
    returned: bool,
    now: Clock,
    sent: Seq<Effect>,
) -> bool {
    if returned {
        post == (InputState {
            win: windows::exited(moved, pre.link.peer_side, moved.virt_y),
            touch: foreground::requested_state(pre.touch, false),
            ..pre
        }) && sent == windows::exit_effects(pre.link, moved, pre.touch, moved.virt_y)
    } else if dx == 0 && dy == 0 {
        post == (InputState { win: moved, ..pre }) && sent == Seq::<Effect>::empty()
    } else {
        post == (InputState {
            win: WindowsState {
                motion: moved.motion.with(dx, dy).armed(pre.tuning.target_flush_us, now.us).settled(
                    now,
                ),
                ..moved
            },
            ..pre
        }) && sent == moved.motion.queue_effects(pre.tuning.target_flush_us, dx, dy, now)
    }
}

/// Queues a motion for the peer, or returns control.
fn forward_motion(
    st: &mut InputState,
    dx: i32,
    dy: i32,
    returned: bool,
    now: Clock,
    out: &mut Vec<Effect>,
)
    requires
        old(st).well_formed(),
    ensures
        final(st).well_formed(),
        exists|sent: Seq<Effect>|
            #![trigger motion_forwarded(*old(st), *final(st), old(st).win, dx, dy, returned, now, sent)]
            motion_forwarded(*old(st), *final(st), old(st).win, dx, dy, returned, now, sent)
                && final(out)@ == old(out)@ + sent,
{
    let ghost pre = *st;
    let ghost base = out@;
    if returned {
        let lateral: i32 = st.win.virt_y;
        windows::exit_remote(&st.link, &mut st.win, &mut st.touch, lateral, out);
        assert(motion_forwarded(
            pre,
            *st,
            pre.win,
            dx,
            dy,
            true,
            now,
            windows::exit_effects(pre.link, pre.win, pre.touch, lateral),
        ));
        return ;
    }
    queue_pending_motion(&mut st.win.motion, st.tuning.target_flush_us, dx, dy, now, out);
    proof {
        if dx == 0 && dy == 0 {
            assert(out@ =~= base + Seq::<Effect>::empty());
            assert(motion_forwarded(pre, *st, pre.win, dx, dy, false, now, Seq::empty()));
        } else {
            assert(motion_forwarded(
                pre,
                *st,
                pre.win,
                dx,
                dy,
                false,
                now,
                pre.win.motion.queue_effects(pre.tuning.target_flush_us, dx, dy, now),
            ));
        }
    }
}

/// The hook's motion within its limit.
pub open spec fn limited(d: i32) -> i32 {
    arith::clamp(d as int, -windows::MAX_DELTA_PX as int, windows::MAX_DELTA_PX as int) as i32
}

/// The state after the virtual cursor followed a motion; a motion of nothing
/// leaves it.
pub open spec fn followed(st: InputState, dx: i32, dy: i32) -> WindowsState {
    if dx == 0 && dy == 0 {
        st.win
    } else {
        windows::virtual_cursor_moved(st.win, st.link.peer_side, dx as int, dy as int)
    }
}

/// Whether the hook's motion has brought the virtual cursor back.
pub open spec fn brought_back(st: InputState, dx: i32, dy: i32) -> bool {
    (dx != 0 || dy != 0) && followed(st, dx, dy).virt_x <= -windows::EXIT_BUFFER_PX
}

/// How the hook's motion, scaled, changes the state and what it sends: unless
/// control returns, the hidden cursor goes back to the anchor.
pub open spec fn hook_motion_forwarded(
    pre: InputState,
    post: InputState,
    sdx: i32,
    sdy: i32,
    now: Clock,
    mid: InputState,
    sent: Seq<Effect>,
) -> bool {
    let (dx, dy) = (limited(sdx), limited(sdy));
    let back = brought_back(pre, dx, dy);
    &&& motion_forwarded(pre, mid, followed(pre, dx, dy), dx, dy, back, now, sent)
    &&& post == if back {
        mid
    } else {
        InputState { win: pinned(mid.win), ..mid }
    }
}

/// Follows a motion with the virtual cursor; tells whether it has come back.
fn follow(win: &mut WindowsState, side: PeerSide, dx: i32, dy: i32) -> (back: bool)
    requires
        -windows::MAX_DELTA_PX <= dx <= windows::MAX_DELTA_PX,
        -windows::MAX_DELTA_PX <= dy <= windows::MAX_DELTA_PX,
    ensures
        *final(win) == if dx == 0 && dy == 0 {
            *old(win)
        } else {
            windows::virtual_cursor_moved(*old(win), side, dx as int, dy as int)
        },
        back == ((dx != 0 || dy != 0) && final(win).virt_x <= -windows::EXIT_BUFFER_PX),
{
    if dx == 0 && dy == 0 {
        return false;
    }
    windows::advance_remote_virtual_cursor(win, side, dx, dy) <= -windows::EXIT_BUFFER_PX
}

/// Follows a limited motion and sends it; tells whether control returned.
fn forward_limited(st: &mut InputState, dx: i32, dy: i32, now: Clock, out: &mut Vec<Effect>) -> (back:
    bool)
    requires
        old(st).well_formed(),
        -windows::MAX_DELTA_PX <= dx <= windows::MAX_DELTA_PX,
        -windows::MAX_DELTA_PX <= dy <= windows::MAX_DELTA_PX,
    ensures
        final(st).well_formed(),
        back == brought_back(*old(st), dx, dy),
        exists|sent: Seq<Effect>|
            #![trigger motion_forwarded(*old(st), *final(st), followed(*old(st), dx, dy), dx, dy, back, now, sent)]
            motion_forwarded(
                *old(st),
                *final(st),
                followed(*old(st), dx, dy),
                dx,
                dy,
                back,
                now,
                sent,
            ) && final(out)@ == old(out)@ + sent,
{
    let ghost pre = *st;
    let ghost base = out@;
    let back = follow(&mut st.win, st.link.peer_side, dx, dy);
    let ghost mid = *st;
    forward_motion(st, dx, dy, back, now, out);
    proof {
        let sent = choose|sent: Seq<Effect>|
            #![trigger motion_forwarded(mid, *st, mid.win, dx, dy, back, now, sent)]
            motion_forwarded(mid, *st, mid.win, dx, dy, back, now, sent) && out@ == base + sent;
        assert(motion_forwarded(pre, *st, followed(pre, dx, dy), dx, dy, back, now, sent));
    }
    back
}

/// Sends the motion that the hook saw in `Remote` mode, after it was scaled.
pub fn forward_hook_motion(
    st: &mut InputState,
    scaled_dx: i32,
    scaled_dy: i32,
    now: Clock,
    out: &mut Vec<Effect>,
)
    requires
        old(st).well_formed(),
    ensures
        final(st).well_formed(),
        exists|mid: InputState, sent: Seq<Effect>|
            #![trigger hook_motion_forwarded(*old(st), *final(st), scaled_dx, scaled_dy, now, mid, sent)]
            hook_motion_forwarded(*old(st), *final(st), scaled_dx, scaled_dy, now, mid, sent)
                && final(out)@ == old(out)@ + (sent + if brought_back(
                *old(st),
                limited(scaled_dx),
                limited(scaled_dy),
            ) {
                Seq::empty()
            } else {
                pin_effects(mid.win)
            }),
{
    let ghost pre = *st;
    let ghost base = out@;
    let dx: i32 = clamp_i32(scaled_dx, -windows::MAX_DELTA_PX, windows::MAX_DELTA_PX);
    let dy: i32 = clamp_i32(scaled_dy, -windows::MAX_DELTA_PX, windows::MAX_DELTA_PX);
    let back = forward_limited(st, dx, dy, now, out);
    let ghost mid = *st;
    let ghost sent = choose|sent: Seq<Effect>|
        #![trigger motion_forwarded(pre, mid, followed(pre, dx, dy), dx, dy, back, now, sent)]
        motion_forwarded(pre, mid, followed(pre, dx, dy), dx, dy, back, now, sent) && out@ == base
            + sent;
    if back {
        assert(sent + Seq::<Effect>::empty() =~= sent);
    } else {
        pin_cursor(&mut st.win, out);
        proof {
            input::lemma_appended(base, sent, pin_effects(mid.win));
        }
    }
    assert(hook_motion_forwarded(pre, *st, scaled_dx, scaled_dy, now, mid, sent));
}

/// A report of the raw input.
#[derive(Debug, Clone, Copy, PartialEq, Eq, Structural)]
pub enum RawReport {
    Keyboard { scan: u32, vk: u32, flags: u32 },
    Mouse { absolute: bool, dx: i32, dy: i32 },
    Other,
}

/// What is left to do with a raw report.
#[derive(Debug, Clone, Copy, PartialEq, Eq, Structural)]
pub enum RawStep {
    Done,
    /// Hand the edge to [`handle_raw_keyboard`].
    Key { scan: u32, vk: u32, extended: bool, down: bool },
    /// Read the cursor's position and hand it to [`local_motion`].
    ReadCursor,
    /// Scale the motion and hand the result to [`forward_raw_motion`].
    Scale { dx: i32, dy: i32 },
}

/// What a raw report asks for. Nothing without raw input; a mouse that reports
/// positions, or no motion, is left alone.
pub open spec fn raw_step(st: InputState, report: RawReport) -> RawStep {
    if !st.win.using_raw_input {
        RawStep::Done
    } else {
        match report {
            RawReport::Keyboard { scan, vk, flags } => RawStep::Key {
                scan,
                vk,
                extended: flags & 0x2 != 0,
                down: flags & 0x1 == 0,
            },
            RawReport::Mouse { absolute, dx, dy } => if absolute || (dx == 0 && dy == 0) {
                RawStep::Done
            } else if windows::forwarding(st.link, st.win) {
                RawStep::Scale { dx, dy }
            } else {
                RawStep::ReadCursor
            },
            RawReport::Other => RawStep::Done,
        }
    }
}

/// Handles a raw report: motion marks the raw input as live.
pub fn handle_raw_input(st: &mut InputState, report: RawReport, now_ms: u64) -> (r: RawStep)
    requires
        old(st).well_formed(),
    ensures
        final(st).well_formed(),
        r == raw_step(*old(st), report),
        *final(st) == if r is ReadCursor || r is Scale {
            InputState {
                win: WindowsState { last_raw_input_ms: now_ms, ..old(st).win },
                ..*old(st)
            }
        } else {
            *old(st)
        },
{
    if !st.win.using_raw_input {
        return RawStep::Done;
    }
    match report {
        RawReport::Keyboard { scan, vk, flags } => RawStep::Key {
            scan,
            vk,
            extended: flags & 0x2 != 0,
            down: flags & 0x1 == 0,
        },
        RawReport::Mouse { absolute, dx, dy } => {
            if absolute || (dx == 0 && dy == 0) {
                return RawStep::Done;
            }
            st.win.last_raw_input_ms = now_ms;
            if windows::forwarding_active(&st.link, &st.win) {
                RawStep::Scale { dx, dy }
            } else {
                RawStep::ReadCursor
            }
        },
        RawReport::Other => RawStep::Done,
    }
}

/// The state after raw motion was followed: driving a game moves no cursor.
pub open spec fn raw_followed(st: InputState, dx: i32, dy: i32) -> WindowsState {
    if st.win.mode == CursorMode::Remote {
        windows::virtual_cursor_moved(st.win, st.link.peer_side, dx as int, dy as int)
    } else {
        st.win
    }
}

/// Sends the motion of a raw report, after it was scaled.
pub fn forward_raw_motion(
    st: &mut InputState,
    scaled_dx: i32,
    scaled_dy: i32,
    now: Clock,
    out: &mut Vec<Effect>,
)
    requires
        old(st).well_formed(),
        windows::motion_axes(old(st).link.peer_side, scaled_dx as int, scaled_dy as int).0
            <= i32::MAX,
    ensures
        final(st).well_formed(),
        exists|sent: Seq<Effect>|
            #![trigger motion_forwarded(*old(st), *final(st), raw_followed(*old(st), scaled_dx, scaled_dy), scaled_dx, scaled_dy, returns_control(*old(st), scaled_dx, scaled_dy), now, sent)]
            motion_forwarded(
                *old(st),
                *final(st),
                raw_followed(*old(st), scaled_dx, scaled_dy),
                scaled_dx,
                scaled_dy,
                returns_control(*old(st), scaled_dx, scaled_dy),
                now,
                sent,
            ) && final(out)@ == old(out)@ + sent,
{
    let ghost pre = *st;
    let ghost base = out@;
    let back = windows::track_raw_remote_motion(
        &mut st.win,
        st.link.peer_side,
        scaled_dx,
        scaled_dy,
    );
    let ghost mid = *st;
    assert(mid.win == raw_followed(pre, scaled_dx, scaled_dy));
    forward_motion(st, scaled_dx, scaled_dy, back, now, out);
    proof {
        let sent = choose|sent: Seq<Effect>|
            #![trigger motion_forwarded(mid, *st, mid.win, scaled_dx, scaled_dy, back, now, sent)]
            motion_forwarded(mid, *st, mid.win, scaled_dx, scaled_dy, back, now, sent) && out@
                == base + sent;
        assert(motion_forwarded(
            pre,
            *st,
            raw_followed(pre, scaled_dx, scaled_dy),
            scaled_dx,
            scaled_dy,
            returns_control(pre, scaled_dx, scaled_dy),
            now,
            sent,
        ));
    }
}

/// Whether raw motion has brought the virtual cursor back.
pub open spec fn returns_control(st: InputState, dx: i32, dy: i32) -> bool {
    st.win.mode == CursorMode::Remote && raw_followed(st, dx, dy).virt_x
        <= -windows::EXIT_BUFFER_PX
}

/// Virtual keys that the recovered edges carry.
pub const VK_TAB: u32 = 0x09;

pub const VK_LSHIFT: u32 = 0xa0;

pub const VK_RSHIFT: u32 = 0xa1;

/// Scan codes of the keys that the shell keeps to itself.
pub const SCAN_TAB: u32 = 0x0f;

pub const SCAN_S: u32 = 0x1f;

pub const SCAN_LSHIFT: u32 = 0x2a;

pub const SCAN_RSHIFT: u32 = 0x36;

pub const SCAN_LMETA: u32 = 0x5b;

pub const SCAN_RMETA: u32 = 0x5c;

/// The edge that a raw key report sends, with its virtual key and extended
/// bit. A report recovers the release of a shift, logo or S key that was sent,
/// and each edge of a Tab that is held with Alt; other keys come by other ways.
pub open spec fn raw_key_edge(
    ts: foreground::TouchpadState,
    scan: u32,
    vk: u32,
    extended: bool,
    down: bool,
    alt_async: bool,
) -> Option<(u32, bool, bool)> {
    let l = ts.latches;
    let alt_down = l.raw_alt_held || l.legacy_alt_held || alt_async;
    if scan == SCAN_LSHIFT && !down && l.legacy_shift_held.left {
        Some((VK_LSHIFT, false, false))
    } else if scan == SCAN_RSHIFT && !down && l.legacy_shift_held.right {
        Some((VK_RSHIFT, false, false))
    } else if scan == SCAN_LMETA && !down && l.async_meta_forwarded.left {
        Some((vk, extended, false))
    } else if scan == SCAN_RMETA && !down && l.async_meta_forwarded.right {
        Some((vk, extended, false))
    } else if scan == SCAN_S && !down && l.async_s_forwarded {
        Some((vk, extended, false))
    } else if scan == SCAN_TAB && ts.capture_requested && (alt_down || l.async_tab_forwarded) && down
        != l.async_tab_forwarded {
        Some((vk, extended, down))
    } else {
        None
    }
}

/// The latches once a recovered edge was routed: a key is down at the peer
/// after a press that went there, and up after any release.
pub open spec fn raw_latched(
    l: foreground::KeyLatches,
    scan: u32,
    edge: bool,
    routed: bool,
) -> foreground::KeyLatches {
    if !routed && edge {
        l
    } else if scan == SCAN_LMETA {
        foreground::KeyLatches {
            async_meta_forwarded: touchpad::ModifierPair {
                left: edge && routed,
                ..l.async_meta_forwarded
            },
            ..l
        }
    } else if scan == SCAN_RMETA {
        foreground::KeyLatches {
            async_meta_forwarded: touchpad::ModifierPair {
                right: edge && routed,
                ..l.async_meta_forwarded
            },
            ..l
        }
    } else if scan == SCAN_S {
        foreground::KeyLatches { async_s_forwarded: edge && routed, ..l }
    } else if scan == SCAN_TAB {
        foreground::KeyLatches { async_tab_forwarded: edge && routed, ..l }
    } else {
        l
    }
}

fn read_raw_key_edge(
    ts: &foreground::TouchpadState,
    scan: u32,
    vk: u32,
    extended: bool,
    down: bool,
    alt_async: bool,
) -> (r: Option<(u32, bool, bool)>)
    ensures
        r == raw_key_edge(*ts, scan, vk, extended, down, alt_async),
{
    let requested = ts.capture_requested;
    if scan == SCAN_LSHIFT {
        if !down && ts.latches.legacy_shift_held.left {
            return Some((VK_LSHIFT, false, false));
        }
        return None;
    }
    if scan == SCAN_RSHIFT {
        if !down && ts.latches.legacy_shift_held.right {
            return Some((VK_RSHIFT, false, false));
        }
        return None;
    }
    let edge = if scan == SCAN_LMETA {
        raw_meta_edge(requested, down, ts.latches.async_meta_forwarded.left)
    } else if scan == SCAN_RMETA {
        raw_meta_edge(requested, down, ts.latches.async_meta_forwarded.right)
    } else if scan == SCAN_S {
        let shift = ts.latches.legacy_shift_held.left || ts.latches.legacy_shift_held.right;
        let meta = ts.latches.legacy_meta_held.left || ts.latches.legacy_meta_held.right;
        raw_snipping_edge(requested, shift, meta, scan, down, ts.latches.async_s_forwarded)
    } else if scan == SCAN_TAB {
        let alt_down = ts.latches.raw_alt_held || ts.latches.legacy_alt_held || alt_async;
        raw_alt_tab_edge(requested, alt_down, scan, down, ts.latches.async_tab_forwarded)
    } else {
        None
    };
    match edge {
        Some(edge) => Some((vk, extended, edge)),
        None => None,
    }
}

fn latch_edge(l: &mut foreground::KeyLatches, scan: u32, edge: bool, routed: bool)
    ensures
        *final(l) == raw_latched(*old(l), scan, edge, routed),
{
    if routed || !edge {
        let held = edge && routed;
        if scan == SCAN_LMETA {
            l.async_meta_forwarded.left = held;
        } else if scan == SCAN_RMETA {
            l.async_meta_forwarded.right = held;
        } else if scan == SCAN_S {
            l.async_s_forwarded = held;
        } else if scan == SCAN_TAB {
            l.async_tab_forwarded = held;
        }
    }
}

fn latch_raw_edge(ts: &mut foreground::TouchpadState, scan: u32, edge: bool, routed: bool)
    ensures
        *final(ts) == (foreground::TouchpadState {
            latches: raw_latched(old(ts).latches, scan, edge, routed),
            ..*old(ts)
        }),
{
    latch_edge(&mut ts.latches, scan, edge, routed);
}

/// The state between the routing of a recovered edge and its latching.
pub open spec fn before_latching(
    pre: InputState,
    post: InputState,
    code: u16,
    edge: bool,
    routed: bool,
) -> InputState {
    InputState {
        touch: if routed {
            touch_noted(pre.touch, code, edge)
        } else {
            pre.touch
        },
        ..post
    }
}

/// How a recovered edge changes the state and what it sends.
pub open spec fn recovered_edge(
    pre: InputState,
    post: InputState,
    scan: u32,
    vk: u32,
    extended: bool,
    edge: bool,
    now_ms: u64,
    sent: Seq<Effect>,
    routed: bool,
) -> bool {
    let code = keymap::captured_key(scan as u16, vk as u16, extended);
    let mid = before_latching(pre, post, code, edge, routed);
    &&& key_routed(pre, mid, code, edge, true, now_ms, sent, routed)
    &&& post.touch == (foreground::TouchpadState {
        latches: raw_latched(mid.touch.latches, scan, edge, routed),
        ..mid.touch
    })
}

/// Routes an edge that the shell kept, and latches what became of it.
fn recover_edge(
    st: &mut InputState,
    scan: u32,
    vk: u32,
    extended: bool,
    edge: bool,
    now_ms: u64,
    out: &mut Vec<Effect>,
) -> (routed: bool)
    requires
        old(st).well_formed(),
    ensures
        final(st).well_formed(),
        exists|sent: Seq<Effect>|
            #![trigger recovered_edge(*old(st), *final(st), scan, vk, extended, edge, now_ms, sent, routed)]
            recovered_edge(
                *old(st),
                *final(st),
                scan,
                vk,
                extended,
                edge,
                now_ms,
                sent,
                routed,
            ) && final(out)@ == old(out)@ + sent,
{
    let ghost pre = *st;
    let ghost base = out@;
    let ghost code = keymap::captured_key(scan as u16, vk as u16, extended);
    let routed = route_physical_key(st, scan, vk, extended, edge, true, now_ms, out);
    let ghost mid = *st;
    let ghost sent = choose|sent: Seq<Effect>|
        #![trigger key_routed(pre, mid, code, edge, true, now_ms, sent, routed)]
        key_routed(pre, mid, code, edge, true, now_ms, sent, routed) && out@ == base + sent;
    latch_raw_edge(&mut st.touch, scan, edge, routed);
    proof {
        routing_notes_the_edge(pre, mid, code, edge, true, now_ms, sent, routed);
        assert(recovered_edge(pre, *st, scan, vk, extended, edge, now_ms, sent, routed));
    }
    routed
}

/// How a raw key report changes the state and what it sends.
pub open spec fn raw_key_handled(
    pre: InputState,
    post: InputState,
    scan: u32,
    vk: u32,
    extended: bool,
    down: bool,
    alt_async: bool,
    now_ms: u64,
    sent: Seq<Effect>,
    r: bool,
) -> bool {
    match raw_key_edge(pre.touch, scan, vk, extended, down, alt_async) {
        Some((edge_vk, edge_extended, edge)) => recovered_edge(
            pre,
            post,
            scan,
            edge_vk,
            edge_extended,
            edge,
            now_ms,
            sent,
            r,
        ),
        None => {
            &&& !r
            &&& sent == Seq::<Effect>::empty()
            &&& post == if scan == SCAN_ALT {
                InputState {
                    touch: foreground::TouchpadState {
                        latches: foreground::KeyLatches { raw_alt_held: down, ..pre.touch.latches },
                        ..pre.touch
                    },
                    ..pre
                }
            } else {
                pre
            }
        },
    }
}

/// Handles a raw key report; `alt_async` tells whether the system sees Alt
/// held. Tells whether an edge went to the peer.
pub fn handle_raw_keyboard(
    st: &mut InputState,
    scan: u32,
    vk: u32,
    extended: bool,
    down: bool,
    alt_async: bool,
    now_ms: u64,
    out: &mut Vec<Effect>,
) -> (r: bool)
    requires
        old(st).well_formed(),
    ensures
        final(st).well_formed(),
        exists|sent: Seq<Effect>|
            #![trigger raw_key_handled(*old(st), *final(st), scan, vk, extended, down, alt_async, now_ms, sent, r)]
            raw_key_handled(
                *old(st),
                *final(st),
                scan,
                vk,
                extended,
                down,
                alt_async,
                now_ms,
                sent,
                r,
            ) && final(out)@ == old(out)@ + sent,
{
    let ghost pre = *st;
    let ghost base = out@;
    match read_raw_key_edge(&st.touch, scan, vk, extended, down, alt_async) {
        Some((edge_vk, edge_extended, edge)) => {
            let r = recover_edge(st, scan, edge_vk, edge_extended, edge, now_ms, out);
            proof {
                let sent = choose|sent: Seq<Effect>|
                    #![trigger recovered_edge(pre, *st, scan, edge_vk, edge_extended, edge, now_ms, sent, r)]
                    recovered_edge(
                        pre,
                        *st,
                        scan,
                        edge_vk,
                        edge_extended,
                        edge,
                        now_ms,
                        sent,
                        r,
                    ) && out@ == base + sent;
                assert(raw_key_handled(
                    pre,
                    *st,
                    scan,
                    vk,
                    extended,
                    down,
                    alt_async,
                    now_ms,
                    sent,
                    r,
                ));
            }
            r
        },
        None => {
            if scan == SCAN_ALT {
                st.touch.latches.raw_alt_held = down;
            }
            proof {
                assert(out@ =~= base + Seq::<Effect>::empty());
                assert(raw_key_handled(
                    pre,
                    *st,
                    scan,
                    vk,
                    extended,
                    down,
                    alt_async,
                    now_ms,
                    Seq::empty(),
                    false,
                ));
            }
            false
        },
    }
}

/// The Tab edge that a poll finds in the state.
pub open spec fn poll_edge(ts: foreground::TouchpadState, alt_async: bool, tab_async: bool) -> Option<
    bool,
> {
    touchpad::polled_edge(
        ts.capture_enabled,
        ts.latches.legacy_alt_held || alt_async,
        tab_async,
        ts.latches.async_tab_forwarded,
    )
}

/// How a poll changes the state and what it sends.
pub open spec fn polled(
    pre: InputState,
    post: InputState,
    edge: Option<bool>,
    now_ms: u64,
    sent: Seq<Effect>,
    routed: bool,
) -> bool {
    match edge {
        Some(down) => recovered_edge(
            pre,
            post,
            SCAN_TAB,
            VK_TAB,
            false,
            down,
            now_ms,
            sent,
            routed,
        ),
        None => post == pre && sent == Seq::<Effect>::empty() && !routed,
    }
}

/// Looks for a Tab edge that no report brought, and routes it; `alt_async` and
/// `tab_async` tell which of the two keys the system sees held.
pub fn poll_reserved_alt_tab(
    st: &mut InputState,
    alt_async: bool,
    tab_async: bool,
    now_ms: u64,
    out: &mut Vec<Effect>,
) -> (routed: bool)
    requires
        old(st).well_formed(),
    ensures
        final(st).well_formed(),
        exists|sent: Seq<Effect>|
            #![trigger polled(*old(st), *final(st), poll_edge(old(st).touch, alt_async, tab_async), now_ms, sent, routed)]
            polled(
                *old(st),
                *final(st),
                poll_edge(old(st).touch, alt_async, tab_async),
                now_ms,
                sent,
                routed,
            ) && final(out)@ == old(out)@ + sent,
{
    let ghost pre = *st;
    let ghost base = out@;
    let edge = reserved_alt_tab_poll_edge(
        st.touch.capture_enabled,
        st.touch.latches.legacy_alt_held || alt_async,
        tab_async,
        st.touch.latches.async_tab_forwarded,
    );
    match edge {
        Some(down) => {
            let routed = recover_edge(st, SCAN_TAB, VK_TAB, false, down, now_ms, out);
            proof {
                let sent = choose|sent: Seq<Effect>|
                    #![trigger recovered_edge(pre, *st, SCAN_TAB, VK_TAB, false, down, now_ms, sent, routed)]
                    recovered_edge(
                        pre,
                        *st,
                        SCAN_TAB,
                        VK_TAB,
                        false,
                        down,
                        now_ms,
                        sent,
                        routed,
                    ) && out@ == base + sent;
                assert(polled(
                    pre,
                    *st,
                    poll_edge(pre.touch, alt_async, tab_async),
                    now_ms,
                    sent,
                    routed,
                ));
            }
            routed
        },
        None => {
            proof {
                assert(out@ =~= base + Seq::<Effect>::empty());
                assert(polled(
                    pre,
                    *st,
                    poll_edge(pre.touch, alt_async, tab_async),
                    now_ms,
                    Seq::empty(),
                    false,
                ));
            }
            false
        },
    }
}

/// A key edge that the capture window got.
#[derive(Debug, Clone, Copy, PartialEq, Eq, Structural)]
pub struct WindowKey {
    pub scan: u32,
    pub vk: u32,
    pub extended: bool,
    pub down: bool,
}

impl WindowKey {
    pub open spec fn code(self) -> u16 {
        keymap::captured_key(self.scan as u16, self.vk as u16, self.extended)
    }
}

/// The state once the window has noted an Alt edge.
pub open spec fn alt_noted(st: InputState, key: WindowKey) -> InputState {
    if key.scan == SCAN_ALT {
        InputState {
            touch: foreground::TouchpadState {
                latches: foreground::KeyLatches {
                    legacy_alt_held: key.down,
                    ..st.touch.latches
                },
                ..st.touch
            },
            ..st
        }
    } else {
        st
    }
}

/// Whether another way owns an edge that the window got: raw reports own Tab
/// with Alt, the keyboard hook owns the logo keys.
pub open spec fn owned_elsewhere(st: InputState, key: WindowKey) -> bool {
    let l = st.touch.latches;
    ||| key.scan == SCAN_LMETA || key.scan == SCAN_RMETA
    ||| key.scan == SCAN_TAB && st.touch.raw_keyboard_available && (l.raw_alt_held
        || l.legacy_alt_held || l.async_tab_forwarded)
}

/// How the window routes an edge: a shift press that goes to the peer is
/// cleared here, and an edge that goes there is remembered as one that this
/// machine has seen too.
pub open spec fn window_routed(
    pre: InputState,
    post: InputState,
    key: WindowKey,
    now_ms: u64,
    sent: Seq<Effect>,
    routed: bool,
) -> bool {
    let identity = touchpad::edge_identity(key.scan, key.extended);
    let mid = InputState {
        touch: foreground::TouchpadState { passthrough: pre.touch.passthrough, ..post.touch },
        ..post
    };
    &&& key_routed(pre, mid, key.code(), key.down, true, now_ms, sent, routed)
    &&& if routed {
        post.touch.passthrough@ == if key.down {
            pre.touch.passthrough@.insert(identity)
        } else {
            pre.touch.passthrough@.remove(identity)
        }
    } else {
        post.touch.passthrough == pre.touch.passthrough
    }
}

/// The effect that clears a shift press in the window's key state.
pub open spec fn neutralize_effects(key: WindowKey, routed: bool) -> Seq<Effect> {
    input::when(
        routed && key.down && (key.scan == SCAN_LSHIFT || key.scan == SCAN_RSHIFT),
        Effect::NeutralizeShift,
    )
}

fn note_passthrough(ts: &mut foreground::TouchpadState, key: WindowKey)
    ensures
        *final(ts) == (foreground::TouchpadState {
            passthrough: final(ts).passthrough,
            ..*old(ts)
        }),
        final(ts).passthrough@ == if key.down {
            old(ts).passthrough@.insert(touchpad::edge_identity(key.scan, key.extended))
        } else {
            old(ts).passthrough@.remove(touchpad::edge_identity(key.scan, key.extended))
        },
{
    ts.passthrough.note_legacy_edge(key.scan, key.extended, key.down);
}

proof fn lemma_window_routed(
    pre: InputState,
    mid: InputState,
    post: InputState,
    key: WindowKey,
    now_ms: u64,
    sent: Seq<Effect>,
    routed: bool,
)
    requires
        key_routed(pre, mid, key.code(), key.down, true, now_ms, sent, routed),
        post == (InputState { touch: post.touch, ..mid }),
        post.touch == (foreground::TouchpadState {
            passthrough: post.touch.passthrough,
            ..mid.touch
        }),
        !routed ==> post.touch.passthrough == mid.touch.passthrough,
        routed ==> post.touch.passthrough@ == if key.down {
            mid.touch.passthrough@.insert(touchpad::edge_identity(key.scan, key.extended))
        } else {
            mid.touch.passthrough@.remove(touchpad::edge_identity(key.scan, key.extended))
        },
    ensures
        window_routed(pre, post, key, now_ms, sent, routed),
{
    routing_notes_the_edge(pre, mid, key.code(), key.down, true, now_ms, sent, routed);
    let restored = foreground::TouchpadState {
        passthrough: pre.touch.passthrough,
        ..post.touch
    };
    assert(restored == mid.touch);
    assert(InputState { touch: restored, ..post } == mid);
}

fn window_route(st: &mut InputState, key: WindowKey, now_ms: u64, out: &mut Vec<Effect>) -> (routed:
    bool)
    requires
        old(st).well_formed(),
    ensures
        final(st).well_formed(),
        exists|sent: Seq<Effect>|
            #![trigger window_routed(*old(st), *final(st), key, now_ms, sent, routed)]
            window_routed(*old(st), *final(st), key, now_ms, sent, routed) && final(out)@ == old(out)@ + (sent + neutralize_effects(key, routed)),
{
    let ghost pre = *st;
    let ghost base = out@;
    let routed = route_physical_key(
        st,
        key.scan,
        key.vk,
        key.extended,
        key.down,
        true,
        now_ms,
        out,
    );
    let ghost mid = *st;
    let ghost sent = choose|sent: Seq<Effect>|
        #![trigger key_routed(pre, mid, key.code(), key.down, true, now_ms, sent, routed)]
        key_routed(pre, mid, key.code(), key.down, true, now_ms, sent, routed) && out@ == base
            + sent;
    push_when(
        should_neutralize_routed_legacy_shift(key.scan, key.down, routed),
        Effect::NeutralizeShift,
        out,
    );
    if routed {
        note_passthrough(&mut st.touch, key);
    }
    proof {
        input::lemma_appended(base, sent, neutralize_effects(key, routed));
        lemma_window_routed(pre, mid, *st, key, now_ms, sent, routed);
    }
    routed
}

/// How a Tab press that the shell kept is made up for: a press and a release
/// are routed.
pub open spec fn tab_recovered(
    pre: InputState,
    mid: InputState,
    post: InputState,
    key: WindowKey,
    now_ms: u64,
    press: (Seq<Effect>, bool),
    release: (Seq<Effect>, bool),
) -> bool {
    &&& key_routed(pre, mid, key.code(), true, true, now_ms, press.0, press.1)
    &&& key_routed(mid, post, key.code(), false, true, now_ms, release.0, release.1)
}

fn recover_tab(st: &mut InputState, key: WindowKey, now_ms: u64, out: &mut Vec<Effect>) -> (routed:
    bool)
    requires
        old(st).well_formed(),
    ensures
        final(st).well_formed(),
        exists|mid: InputState, press: (Seq<Effect>, bool), release: (Seq<Effect>, bool)|
            #![trigger tab_recovered(*old(st), mid, *final(st), key, now_ms, press, release)]
            tab_recovered(*old(st), mid, *final(st), key, now_ms, press, release) && routed == (
            press.1 && release.1) && final(out)@ == old(out)@ + (press.0 + release.0),
{
    let ghost pre = *st;
    let ghost base = out@;
    let pressed = route_physical_key(st, key.scan, key.vk, key.extended, true, true, now_ms, out);
    let ghost mid = *st;
    let ghost s1 = choose|sent: Seq<Effect>|
        #![trigger key_routed(pre, mid, key.code(), true, true, now_ms, sent, pressed)]
        key_routed(pre, mid, key.code(), true, true, now_ms, sent, pressed) && out@ == base + sent;
    let released = route_physical_key(st, key.scan, key.vk, key.extended, false, true, now_ms, out);
    proof {
        let s2 = choose|sent: Seq<Effect>|
            #![trigger key_routed(mid, *st, key.code(), false, true, now_ms, sent, released)]
            key_routed(mid, *st, key.code(), false, true, now_ms, sent, released) && out@ == base
                + s1 + sent;
        input::lemma_appended(base, s1, s2);
        assert(tab_recovered(pre, mid, *st, key, now_ms, (s1, pressed), (s2, released)));
    }
    pressed && released
}

/// What the window does with a routed edge: the release of a Tab whose press
/// the shell kept is made up for.
pub open spec fn window_key_done(
    pre: InputState,
    mid: InputState,
    post: InputState,
    key: WindowKey,
    now_ms: u64,
    first: (Seq<Effect>, bool),
    late: Seq<Effect>,
    r: bool,
) -> bool {
    &&& window_routed(pre, mid, key, now_ms, first.0, first.1)
    &&& if key.scan == SCAN_TAB && !key.down && !first.1 && mid.touch.latches.legacy_alt_held {
        exists|between: InputState, press: (Seq<Effect>, bool), release: (Seq<Effect>, bool)|
            #![trigger tab_recovered(mid, between, post, key, now_ms, press, release)]
            tab_recovered(mid, between, post, key, now_ms, press, release) && r == (press.1
                && release.1) && late == press.0 + release.0
    } else {
        post == mid && late == Seq::<Effect>::empty() && r == first.1
    }
}

/// Routes an edge that no other way owns, and makes up for a Tab press that
/// the shell kept.
fn route_window_key(st: &mut InputState, key: WindowKey, now_ms: u64, out: &mut Vec<Effect>) -> (r:
    bool)
    requires
        old(st).well_formed(),
    ensures
        final(st).well_formed(),
        exists|mid: InputState, first: (Seq<Effect>, bool), late: Seq<Effect>|
            #![trigger window_key_done(*old(st), mid, *final(st), key, now_ms, first, late, r)]
            window_key_done(*old(st), mid, *final(st), key, now_ms, first, late, r)
                && final(out)@ == old(out)@ + (first.0 + neutralize_effects(key, first.1) + late),
{
    let ghost base = out@;
    let ghost pre = *st;
    let routed = window_route(st, key, now_ms, out);
    let ghost mid = *st;
    let ghost s1 = choose|sent: Seq<Effect>|
        #![trigger window_routed(pre, mid, key, now_ms, sent, routed)]
        window_routed(pre, mid, key, now_ms, sent, routed) && out@ == base + (sent
            + neutralize_effects(key, routed));
    let ghost e1 = s1 + neutralize_effects(key, routed);
    if should_recover_reserved_alt_tab(
        key.scan,
        key.down,
        routed,
        st.touch.latches.legacy_alt_held,
    ) {
        let r = recover_tab(st, key, now_ms, out);
        proof {
            let (between, press, release) = choose|
                between: InputState,
                press: (Seq<Effect>, bool),
                release: (Seq<Effect>, bool),
            |
                #![trigger tab_recovered(mid, between, *st, key, now_ms, press, release)]
                tab_recovered(mid, between, *st, key, now_ms, press, release) && r == (press.1
                    && release.1) && out@ == base + e1 + (press.0 + release.0);
            input::lemma_appended(base, e1, press.0 + release.0);
            assert(window_key_done(
                pre,
                mid,
                *st,
                key,
                now_ms,
                (s1, routed),
                press.0 + release.0,
                r,
            ));
        }
        return r;
    }
    proof {
        assert(e1 + Seq::<Effect>::empty() =~= e1);
        assert(window_key_done(
            pre,
            mid,
            *st,
            key,
            now_ms,
            (s1, routed),
            Seq::empty(),
            routed,
        ));
    }
    routed
}

fn note_window_alt(st: &mut InputState, key: WindowKey)
    ensures
        *final(st) == alt_noted(*old(st), key),
{
    if key.scan == SCAN_ALT {
        note_legacy_alt(&mut st.touch, key.down);
    }
}

fn note_legacy_alt(ts: &mut foreground::TouchpadState, down: bool)
    ensures
        *final(ts) == (foreground::TouchpadState {
            latches: foreground::KeyLatches { legacy_alt_held: down, ..old(ts).latches },
            ..*old(ts)
        }),
{
    ts.latches.legacy_alt_held = down;
}

/// Handles a key edge that the capture window got; tells whether the window
/// keeps it from the system.
pub fn capture_window_key(
    st: &mut InputState,
    key: WindowKey,
    now_ms: u64,
    out: &mut Vec<Effect>,
) -> (r: bool)
    requires
        old(st).well_formed(),
    ensures
        final(st).well_formed(),
        !old(st).touch.capture_enabled ==> !r && *final(st) == *old(st) && final(out)@ == old(out)@,
        old(st).touch.capture_enabled && owned_elsewhere(alt_noted(*old(st), key), key) ==> r
            && *final(st) == alt_noted(*old(st), key) && final(out)@ == old(out)@,
        old(st).touch.capture_enabled && !owned_elsewhere(alt_noted(*old(st), key), key)
            ==> exists|mid: InputState, first: (Seq<Effect>, bool), late: Seq<Effect>|
            #![trigger window_key_done(alt_noted(*old(st), key), mid, *final(st), key, now_ms, first, late, r)]
            window_key_done(
                alt_noted(*old(st), key),
                mid,
                *final(st),
                key,
                now_ms,
                first,
                late,
                r,
            ) && final(out)@ == old(out)@ + (first.0 + neutralize_effects(key, first.1) + late),
{
    if !st.touch.capture_enabled {
        return false;
    }
    note_window_alt(st, key);
    if raw_keyboard_owns_legacy_tab(&st.touch, key.scan) {
        return true;
    }
    if !legacy_capture_may_forward(key.scan) {
        return true;
    }
    route_window_key(st, key, now_ms, out)
}

/// Reads the key edge of a message to the capture window.
pub fn window_key(message: u32, wparam: u64, lparam: u64) -> (r: Option<WindowKey>)
    ensures
        r == if touchpad::key_message(message) {
            Some(
                WindowKey {
                    scan: ((lparam / 0x1_0000) % 0x100) as u32,
                    vk: (wparam % 0x1_0000_0000) as u32,
                    extended: (lparam / 0x100_0000) % 2 == 1,
                    down: message == WM_KEYDOWN || message == WM_SYSKEYDOWN,
                },
            )
        } else {
            None
        },
{
    match legacy_key_from_message(message, wparam, lparam) {
        Some((scan, vk, extended, down)) => Some(WindowKey { scan, vk, extended, down }),
        None => None,
    }
}

/// No event of the mouse hook changes the counts of motion or the rate; what it
/// leaves to be scaled and sent counts once it is sent.
pub proof fn mouse_events_keep_the_counts(
    pre: InputState,
    post: InputState,
    ev: MouseHookEvent,
    now_ms: u64,
    sent: Seq<Effect>,
    r: MouseVerdict,
)
    requires
        mouse_hooked(pre, post, ev, now_ms, sent, r),
    ensures
        input::uncounted(pre, post),
{
}

/// No event of the keyboard hook changes the counts of motion or the rate.
pub proof fn key_events_keep_the_counts(
    pre: InputState,
    post: InputState,
    ev: KeyHookEvent,
    cursor_y: Option<i32>,
    now_ms: u64,
    sent: Seq<Effect>,
    kept: bool,
)
    requires
        key_hooked(pre, post, ev, cursor_y, now_ms, sent, kept),
    ensures
        input::uncounted(pre, post),
{
    let mid = InputState { win: modifiers_after(pre.win, ev), ..pre };
    let key = hotkey_of(mid.win, ev);
    if ev.injected() {
    } else if key != Hotkey::Absent {
        lemma_hotkeys_keep_counts(mid, post, key, cursor_y, sent);
    } else if ev.is_down() || ev.is_up() {
        let (mid2, to_peer) = choose|mid2: InputState, to_peer: bool|
            #![trigger routed_through(mid, mid2, post, ev, now_ms, sent, to_peer)]
            routed_through(mid, mid2, post, ev, now_ms, sent, to_peer) && kept == (to_peer && !(
            ev.is_up() && mid.touch.passthrough@.contains(
                touchpad::edge_identity(ev.scan, ev.extended()),
            )));
        routed_keys_keep_the_counts(
            mid2,
            post,
            keymap::captured_key(ev.scan as u16, ev.vk as u16, ev.extended()),
            ev.is_down(),
            mid.win.mode == CursorMode::Remote,
            now_ms,
            sent,
            to_peer,
        );
    }
}

/// Routing a key changes neither the counts of motion nor the rate.
pub proof fn routed_keys_keep_the_counts(
    pre: InputState,
    post: InputState,
    code: u16,
    down: bool,
    remote: bool,
    now_ms: u64,
    sent: Seq<Effect>,
    to_peer: bool,
)
    requires
        key_routed(pre, post, code, down, remote, now_ms, sent, to_peer),
    ensures
        input::uncounted(pre, post),
{
    reveal(key_routed);
}

/// No edge that the shell kept changes the counts of motion or the rate.
pub proof fn recovered_keys_keep_the_counts(
    pre: InputState,
    post: InputState,
    scan: u32,
    vk: u32,
    extended: bool,
    edge: bool,
    now_ms: u64,
    sent: Seq<Effect>,
    routed: bool,
)
    requires
        recovered_edge(pre, post, scan, vk, extended, edge, now_ms, sent, routed),
    ensures
        input::uncounted(pre, post),
{
    let code = keymap::captured_key(scan as u16, vk as u16, extended);
    let mid = before_latching(pre, post, code, edge, routed);
    routed_keys_keep_the_counts(pre, mid, code, edge, true, now_ms, sent, routed);
}

/// No key of the capture window changes the counts of motion or the rate.
pub proof fn window_keys_keep_the_counts(
    pre: InputState,
    mid: InputState,
    post: InputState,
    key: WindowKey,
    now_ms: u64,
    first: (Seq<Effect>, bool),
    late: Seq<Effect>,
    r: bool,
)
    requires
        window_key_done(pre, mid, post, key, now_ms, first, late, r),
    ensures
        input::uncounted(pre, post),
{
    let restored = InputState {
        touch: foreground::TouchpadState { passthrough: pre.touch.passthrough, ..mid.touch },
        ..mid
    };
    routed_keys_keep_the_counts(
        pre,
        restored,
        key.code(),
        key.down,
        true,
        now_ms,
        first.0,
        first.1,
    );
    if key.scan == SCAN_TAB && !key.down && !first.1 && mid.touch.latches.legacy_alt_held {
        let (between, press, release) = choose|
            between: InputState,
            press: (Seq<Effect>, bool),
            release: (Seq<Effect>, bool),
        |
            #![trigger tab_recovered(mid, between, post, key, now_ms, press, release)]
            tab_recovered(mid, between, post, key, now_ms, press, release);
        routed_keys_keep_the_counts(
            mid,
            between,
            key.code(),
            true,
            true,
            now_ms,
            press.0,
            press.1,
        );
        routed_keys_keep_the_counts(
            between,
            post,
            key.code(),
            false,
            true,
            now_ms,
            release.0,
            release.1,
        );
    }
}

proof fn lemma_hotkeys_keep_counts(
    pre: InputState,
    post: InputState,
    key: Hotkey,
    cursor_y: Option<i32>,
    sent: Seq<Effect>,
)
    requires
        hotkey_done(pre, post, key, cursor_y, sent),
    ensures
        input::uncounted(pre, post),
{
}

/// Motion that goes to the peer is counted at most once, and takes no count
/// back.
pub proof fn forwarded_motion_keeps_the_counts(
    pre: InputState,
    post: InputState,
    moved: WindowsState,
    dx: i32,
    dy: i32,
    returned: bool,
    now: Clock,
    sent: Seq<Effect>,
)
    requires
        motion_forwarded(pre, post, moved, dx, dy, returned, now, sent),
        moved.motion == pre.win.motion,
    ensures
        input::count_kept(input::motion_counts(pre).0, input::motion_counts(post).0),
        input::motion_counts(pre).1 == input::motion_counts(post).1,
        pre.tuning == post.tuning,
{
}

proof fn lemma_hooked_modifiers(
    pre: InputState,
    post: InputState,
    ev: KeyHookEvent,
    cursor_y: Option<i32>,
    now_ms: u64,
    sent: Seq<Effect>,
    kept: bool,
)
    requires
        key_hooked(pre, post, ev, cursor_y, now_ms, sent, kept),
        !ev.injected(),
    ensures
        post.win.mod_ctrl == modifiers_after(pre.win, ev).mod_ctrl,
        post.win.mod_alt == modifiers_after(pre.win, ev).mod_alt,
{
    let mid = InputState { win: modifiers_after(pre.win, ev), ..pre };
    let key = hotkey_of(mid.win, ev);
    if key != Hotkey::Absent {
        lemma_hotkeys_keep_modifiers(mid, post, key, cursor_y, sent);
    } else if ev.is_down() || ev.is_up() {
        lemma_edge_is_no_transition(mid, post, ev, now_ms, sent, kept);
    }
}

proof fn lemma_hotkeys_keep_modifiers(
    pre: InputState,
    post: InputState,
    key: Hotkey,
    cursor_y: Option<i32>,
    sent: Seq<Effect>,
)
    requires
        hotkey_done(pre, post, key, cursor_y, sent),
    ensures
        post.win.mod_ctrl == pre.win.mod_ctrl,
        post.win.mod_alt == pre.win.mod_alt,
{
}

/// A key that a program has made is never taken for the user's: it changes
/// nothing and reaches the system.
pub proof fn made_keys_are_left_alone(
    st: &mut InputState,
    ev: KeyHookEvent,
    cursor_y: Option<i32>,
    now_ms: u64,
    out: &mut Vec<Effect>,
    kept: bool,
)
    requires
        call_ensures(low_kb_hook, (st, ev, cursor_y, now_ms, out), kept),
        ev.flags & 0x12 != 0,
    ensures
        !kept,
        *final(st) == *old(st),
        final(out)@ == old(out)@,
{
    assert(old(out)@ + Seq::<Effect>::empty() =~= old(out)@);
}

/// Ctrl and Alt count as held from press to release, and no other key changes
/// that.
pub proof fn hooked_modifiers_are_held_from_press_to_release(
    st: &mut InputState,
    ev: KeyHookEvent,
    cursor_y: Option<i32>,
    now_ms: u64,
    out: &mut Vec<Effect>,
    kept: bool,
)
    requires
        call_ensures(low_kb_hook, (st, ev, cursor_y, now_ms, out), kept),
        ev.flags & 0x12 == 0,
    ensures
        ({
            let down = ev.message == 0x100 || ev.message == 0x104;
            let up = ev.message == 0x101 || ev.message == 0x105;
            &&& final(st).win.mod_ctrl == if ev.scan == 0x1d && down {
                true
            } else if ev.scan == 0x1d && up {
                false
            } else {
                old(st).win.mod_ctrl
            }
            &&& final(st).win.mod_alt == if ev.scan == 0x38 && down {
                true
            } else if ev.scan == 0x38 && up {
                false
            } else {
                old(st).win.mod_alt
            }
        }),
{
    let sent = choose|sent: Seq<Effect>|
        #![trigger key_hooked(*old(st), *final(st), ev, cursor_y, now_ms, sent, kept)]
        key_hooked(*old(st), *final(st), ev, cursor_y, now_ms, sent, kept) && final(out)@ == old(out)@ + sent;
    lemma_hooked_modifiers(*old(st), *final(st), ev, cursor_y, now_ms, sent, kept);
}

/// Without both Ctrl and Alt no key is a hotkey: the mode, the lock, the drive
/// and the keyboard target stay as they are, and no transition is told.
pub proof fn a_hooked_hotkey_needs_ctrl_and_alt(
    st: &mut InputState,
    ev: KeyHookEvent,
    cursor_y: Option<i32>,
    now_ms: u64,
    out: &mut Vec<Effect>,
    kept: bool,
)
    requires
        call_ensures(low_kb_hook, (st, ev, cursor_y, now_ms, out), kept),
        !(final(st).win.mod_ctrl && final(st).win.mod_alt),
    ensures
        final(st).win.mode == old(st).win.mode,
        final(st).link == old(st).link,
        final(st).keys.keyboard_target == old(st).keys.keyboard_target,
        forall|i: int|
            old(out)@.len() <= i < final(out)@.len() ==> !((#[trigger] final(out)@[i]) is Remote),
{
    let sent = choose|sent: Seq<Effect>|
        #![trigger key_hooked(*old(st), *final(st), ev, cursor_y, now_ms, sent, kept)]
        key_hooked(*old(st), *final(st), ev, cursor_y, now_ms, sent, kept) && final(out)@ == old(out)@ + sent;
    let mid = InputState { win: modifiers_after(old(st).win, ev), ..*old(st) };
    if !ev.injected() {
        lemma_hooked_modifiers(*old(st), *final(st), ev, cursor_y, now_ms, sent, kept);
        if ev.is_down() || ev.is_up() {
            lemma_edge_is_no_transition(mid, *final(st), ev, now_ms, sent, kept);
        }
    }
}

proof fn lemma_edge_is_no_transition(
    mid: InputState,
    post: InputState,
    ev: KeyHookEvent,
    now_ms: u64,
    sent: Seq<Effect>,
    kept: bool,
)
    requires
        edge_hooked(mid, post, ev, now_ms, sent, kept),
    ensures
        post.win == mid.win,
        post.link == mid.link,
        post.keys.keyboard_target == mid.keys.keyboard_target,
        forall|i: int| 0 <= i < sent.len() ==> !((#[trigger] sent[i]) is Remote),
{
    reveal(key_routed);
}

/// With Ctrl and Alt held a press of R, K, L or G does what it is for and reaches
/// nobody: R switches between the machines, K moves the keyboard target on, L locks
/// or frees the input, G starts or stops driving a game. No other key does any of
/// it.
pub proof fn hooked_hotkeys_do_what_they_are_for(
    st: &mut InputState,
    ev: KeyHookEvent,
    cursor_y: Option<i32>,
    now_ms: u64,
    out: &mut Vec<Effect>,
    kept: bool,
)
    requires
        call_ensures(low_kb_hook, (st, ev, cursor_y, now_ms, out), kept),
        old(st).platform == input::Platform::Windows,
        ev.flags & 0x12 == 0,
        ev.message == 0x100 || ev.message == 0x104,
        old(st).win.mod_ctrl,
        old(st).win.mod_alt,
    ensures
        ev.scan == 0x13 || ev.scan == 0x22 || ev.scan == 0x25 || ev.scan == 0x26 ==> kept,
        ev.scan == 0x13 && old(st).win.mode == CursorMode::Remote ==> final(st).win.mode
            == CursorMode::Local,
        ev.scan == 0x13 && old(st).win.mode == CursorMode::Local && !old(st).link.peer_in_remote
            && old(st).link.game_drive == GameDrive::Off ==> final(st).win.mode
            == CursorMode::Remote,
        ev.scan == 0x13 && old(st).win.mode == CursorMode::Local && old(st).link.peer_in_remote
            ==> final(st).win.mode == CursorMode::Local && final(out)@ == old(out)@ + old(st).link.fired(RemoteEvent::RequestPeerExit),
        ev.scan == 0x26 ==> final(st).link.input_locked == !old(st).link.input_locked,
        ev.scan == 0x26 && !old(st).link.input_locked ==> final(st).win.mode == CursorMode::Local,
        ev.scan == 0x25 ==> final(st).keys.keyboard_target != old(st).keys.keyboard_target,
        ev.scan == 0x22 ==> final(st).link.game_drive == if old(st).link.game_drive
            == GameDrive::Off {
            GameDrive::Driving
        } else {
            GameDrive::Off
        },
        ev.scan != 0x26 ==> final(st).link.input_locked == old(st).link.input_locked,
        ev.scan != 0x25 ==> final(st).keys.keyboard_target == old(st).keys.keyboard_target,
        ev.scan != 0x22 ==> final(st).link.game_drive == old(st).link.game_drive,
        ev.scan != 0x13 && ev.scan != 0x22 && ev.scan != 0x26 ==> final(st).win.mode
            == old(st).win.mode,
{
    let sent = choose|sent: Seq<Effect>|
        #![trigger key_hooked(*old(st), *final(st), ev, cursor_y, now_ms, sent, kept)]
        key_hooked(*old(st), *final(st), ev, cursor_y, now_ms, sent, kept) && final(out)@ == old(out)@ + sent;
    let mid = InputState { win: modifiers_after(old(st).win, ev), ..*old(st) };
    if hotkey_of(mid.win, ev) == Hotkey::Absent {
        lemma_edge_is_no_transition(mid, *final(st), ev, now_ms, sent, kept);
    }
}

/// A key that goes to the peer does not reach this machine, and one that does not
/// go there does; the peer gets the edge of the key that was used.
pub proof fn a_key_reaches_one_machine(
    st: &mut InputState,
    ev: KeyHookEvent,
    cursor_y: Option<i32>,
    now_ms: u64,
    out: &mut Vec<Effect>,
    kept: bool,
)
    requires
        call_ensures(low_kb_hook, (st, ev, cursor_y, now_ms, out), kept),
        ev.flags & 0x12 == 0,
        ev.message == 0x100 || ev.message == 0x104,
        !(old(st).win.mod_ctrl && old(st).win.mod_alt),
        ev.scan != 0x1d && ev.scan != 0x38,
    ensures
        ({
            let first = final(out)@[old(out)@.len() as int];
            let sends = final(out)@.len() > old(out)@.len() && first is Forward;
            &&& kept <==> sends
            &&& kept ==> first == Effect::Forward(
                InputEvent::Key {
                    code: KeyCode(
                        keymap::captured_key(
                            ev.scan as u16,
                            ev.vk as u16,
                            ev.flags & 0x01 != 0,
                        ),
                    ),
                    down: true,
                },
            )
        }),
{
    let sent = choose|sent: Seq<Effect>|
        #![trigger key_hooked(*old(st), *final(st), ev, cursor_y, now_ms, sent, kept)]
        key_hooked(*old(st), *final(st), ev, cursor_y, now_ms, sent, kept) && final(out)@ == old(out)@ + sent;
    let mid = InputState { win: modifiers_after(old(st).win, ev), ..*old(st) };
    assert(edge_hooked(mid, *final(st), ev, now_ms, sent, kept));
    lemma_kept_is_sent(mid, *final(st), ev, now_ms, sent, kept);
    if sent.len() > 0 {
        assert(final(out)@[old(out)@.len() as int] == sent[0]);
    }
}

proof fn lemma_kept_is_sent(
    mid: InputState,
    post: InputState,
    ev: KeyHookEvent,
    now_ms: u64,
    sent: Seq<Effect>,
    kept: bool,
)
    requires
        edge_hooked(mid, post, ev, now_ms, sent, kept),
        ev.is_down(),
    ensures
        kept <==> sent.len() > 0 && sent[0] is Forward,
        kept ==> sent[0] == Effect::Forward(
            InputEvent::Key {
                code: KeyCode(keymap::captured_key(ev.scan as u16, ev.vk as u16, ev.extended())),
                down: true,
            },
        ),
{
    reveal(key_routed);
}

/// A mouse event that a program has made is left to the system, but for a wheel
/// that the system turns for a touchpad while the mouse is with the peer.
pub proof fn made_mouse_events_are_left_alone(
    st: &mut InputState,
    ev: MouseHookEvent,
    now_ms: u64,
    out: &mut Vec<Effect>,
    r: MouseVerdict,
)
    requires
        call_ensures(low_mouse_hook, (st, ev, now_ms, out), r),
        ev.flags & 0x3 != 0,
        ev.message != 0x20a && ev.message != 0x20e,
    ensures
        r == MouseVerdict::Pass,
        final(out)@ == old(out)@,
        final(st).win.mode == old(st).win.mode,
        final(st).link == old(st).link,
        final(st).activity == old(st).activity,
{
    assert(old(out)@ + Seq::<Effect>::empty() =~= old(out)@);
}

/// The buttons go where the mouse is: to the peer while it is there, where this
/// machine then does not see them, and here while it is here.
pub proof fn buttons_go_where_the_mouse_is(
    st: &mut InputState,
    ev: MouseHookEvent,
    now_ms: u64,
    out: &mut Vec<Effect>,
    r: MouseVerdict,
)
    requires
        call_ensures(low_mouse_hook, (st, ev, now_ms, out), r),
        ev.flags & 0x3 == 0,
        ev.message == 0x201 || ev.message == 0x204 || ev.message == 0x207,
    ensures
        ({
            let btn = if ev.message == 0x201 {
                Button::Left
            } else if ev.message == 0x204 {
                Button::Right
            } else {
                Button::Middle
            };
            let away = old(st).win.mode == CursorMode::Remote || old(st).link.game_drive
                == GameDrive::Driving;
            &&& away ==> r == MouseVerdict::Keep && final(out)@ == old(out)@.push(
                Effect::Forward(InputEvent::MouseButton { btn, down: true }),
            )
            &&& !away && !old(st).keys.held().buttons.contains(btn) ==> r == MouseVerdict::Pass
                && final(out)@ == old(out)@
            &&& final(st).activity.local_click_at == now_ms
            &&& final(st).win == old(st).win
        }),
{
    let sent = choose|sent: Seq<Effect>|
        #![trigger mouse_hooked(*old(st), *final(st), ev, now_ms, sent, r)]
        mouse_hooked(*old(st), *final(st), ev, now_ms, sent, r) && final(out)@ == old(out)@ + sent;
    let btn = ev.button()->0;
    let event = Effect::Forward(InputEvent::MouseButton { btn, down: true });
    assert(old(out)@.push(event) =~= old(out)@ + seq![event]);
    assert(old(out)@ + Seq::<Effect>::empty() =~= old(out)@);
}

/// The wheel goes to the peer while the mouse is there, as far as it was turned,
/// the other way round where the user has asked for it, and stays here else.
pub proof fn the_hooked_wheel_goes_where_the_mouse_is(
    st: &mut InputState,
    ev: MouseHookEvent,
    now_ms: u64,
    out: &mut Vec<Effect>,
    r: MouseVerdict,
)
    requires
        call_ensures(low_mouse_hook, (st, ev, now_ms, out), r),
        ev.flags & 0x3 == 0,
        ev.message == 0x20a || ev.message == 0x20e,
    ensures
        ({
            let away = old(st).win.mode == CursorMode::Remote || old(st).link.game_drive
                == GameDrive::Driving;
            let sideways = ev.message == 0x20e;
            let inverted = (sideways && old(st).tuning.invert_scroll_x) || (!sideways && old(st).tuning.invert_scroll_y);
            let turned = (ev.mouse_data / 0x1_0000) as int;
            &&& !away ==> r == MouseVerdict::Pass && final(out)@ == old(out)@
            &&& away ==> r == MouseVerdict::Keep && final(out)@.len() == old(out)@.len() + 1
                && match final(out)@.last() {
                Effect::ForwardWheel { horizontal, units } => horizontal == sideways && {
                    let signed = if inverted {
                        -units
                    } else {
                        units as int
                    };
                    turned == signed || turned == signed + 0x1_0000
                } && -0x8000 <= units <= 0x8000,
                _ => false,
            }
        }),
        *final(st) == *old(st),
{
    assert(old(out)@ + Seq::<Effect>::empty() =~= old(out)@);
}

/// Motion that the hook has scaled goes to the peer: the cursor over there moves
/// with it, at most 1500 pixels at a time, and comes home once it was pulled back
/// a hundred pixels past the edge.
pub proof fn hooked_motion_moves_the_peers_cursor(
    st: &mut InputState,
    dx: i32,
    dy: i32,
    now: Clock,
    out: &mut Vec<Effect>,
)
    requires
        call_ensures(forward_hook_motion, (st, dx, dy, now, out), ()),
        old(st).win.mode == CursorMode::Remote,
        -1_500 <= dx <= 1_500,
        -1_500 <= dy <= 1_500,
        dx != 0 || dy != 0,
        -100 < old(st).win.virt_x < 100_000,
        1 <= old(st).win.peer_w <= 100_000,
        1 <= old(st).win.peer_h <= 100_000,
    ensures
        ({
            let (towards, extent) = match old(st).link.peer_side {
                PeerSide::Left => (-dx, old(st).win.peer_w),
                PeerSide::Right => (dx as int, old(st).win.peer_w),
                PeerSide::Top => (-dy, old(st).win.peer_h),
                PeerSide::Bottom => (dy as int, old(st).win.peer_h),
            };
            let depth = old(st).win.virt_x + towards;
            &&& depth <= -100 ==> final(st).win.mode == CursorMode::Local
            &&& depth > -100 ==> final(st).win.mode == CursorMode::Remote
            &&& -100 < depth < extent ==> final(st).win.virt_x == depth
            &&& depth >= extent ==> final(st).win.virt_x == extent - 1
        }),
{
}

/// The same of the motion of a raw report, of whatever length.
pub proof fn raw_motion_moves_the_peers_cursor(
    st: &mut InputState,
    dx: i32,
    dy: i32,
    now: Clock,
    out: &mut Vec<Effect>,
)
    requires
        call_ensures(forward_raw_motion, (st, dx, dy, now, out), ()),
        old(st).win.mode == CursorMode::Remote,
        -100_000 <= dx <= 100_000,
        -100_000 <= dy <= 100_000,
        -100 < old(st).win.virt_x < 100_000,
        1 <= old(st).win.peer_w <= 100_000,
        1 <= old(st).win.peer_h <= 100_000,
    ensures
        ({
            let (towards, extent) = match old(st).link.peer_side {
                PeerSide::Left => (-dx, old(st).win.peer_w),
                PeerSide::Right => (dx as int, old(st).win.peer_w),
                PeerSide::Top => (-dy, old(st).win.peer_h),
                PeerSide::Bottom => (dy as int, old(st).win.peer_h),
            };
            let depth = old(st).win.virt_x + towards;
            &&& depth <= -100 ==> final(st).win.mode == CursorMode::Local
            &&& depth > -100 ==> final(st).win.mode == CursorMode::Remote
            &&& -100 < depth < extent ==> final(st).win.virt_x == depth
        }),
{
}

/// A raw report of a mouse asks for what the mouse is for: its motion goes to the
/// peer while the mouse is there and moves the cursor here else. Without raw input,
/// and for reports of positions, nothing is asked.
pub proof fn raw_reports_ask_for_what_they_are_for(
    st: &mut InputState,
    report: RawReport,
    now_ms: u64,
    r: RawStep,
)
    requires
        call_ensures(handle_raw_input, (st, report, now_ms), r),
    ensures
        !old(st).win.using_raw_input ==> r == RawStep::Done,
        report matches RawReport::Mouse { absolute, dx, dy } ==> {
            let away = old(st).win.mode == CursorMode::Remote || old(st).link.game_drive
                == GameDrive::Driving;
            let moves = old(st).win.using_raw_input && !absolute && (dx != 0 || dy != 0);
            &&& moves && away ==> r == RawStep::Scale { dx, dy }
            &&& moves && !away ==> r == RawStep::ReadCursor
            &&& !moves ==> r == RawStep::Done
            &&& moves ==> final(st).win.last_raw_input_ms == now_ms
        },
        report matches RawReport::Keyboard { scan, vk, flags } ==> old(st).win.using_raw_input ==> r
            == (RawStep::Key { scan, vk, extended: flags & 2 != 0, down: flags & 1 == 0 }),
{
}

} // verus!
