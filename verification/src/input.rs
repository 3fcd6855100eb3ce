//! Input capture and injection: which machine the keyboard and the mouse
//! drive, and what has to be sent to the peer.
//!
//! All of it works on one [`InputState`]. The capture code of either platform
//! hands in what the hardware did and carries out the [`Effect`]s it gets
//! back.

use crate::arith;
use crate::input::events::{Button, InputEvent, KeyCode};
use crate::input::held::{btn_index, ForwardedInputState, KEY_COUNT};
use vstd::prelude::*;

pub mod capture;
pub mod contacts;
pub mod events;
pub mod foreground;
pub mod games;
pub mod held;
pub mod hooks;
pub mod inject;
pub mod keymap;
pub mod linux;
pub mod motion;
pub mod screen;
pub mod speed;
pub mod touchpad;
pub mod windows;

verus! {

pub const TOUCHPAD_CAP_FRAME_CAPTURE: u32 = 1;

pub const TOUCHPAD_CAP_ACTION_CAPTURE: u32 = 2;

pub const TOUCHPAD_CAP_FRAME_INJECT: u32 = 4;

pub const TOUCHPAD_CAP_ACTION_INJECT: u32 = 8;

/// A transition of the local capture that the peer has to hear of.
#[derive(Debug, Clone, Copy, PartialEq, Eq, Structural)]
pub enum RemoteEvent {
    /// Local capture has just entered Remote mode.
    Entered,
    /// Local capture has just left Remote mode.
    Exited,
    /// The user asked the peer to leave Remote mode.
    RequestPeerExit,
    /// The user switched Game Drive on: the peer starts to receive.
    GameDriveStart,
    /// The user switched Game Drive off: the peer stops receiving.
    GameDriveStop,
}

/// Game Drive sends raw relative motion and keys to the peer all the time,
/// without the cursor ever crossing over.
#[derive(Debug, Clone, Copy, PartialEq, Eq, Structural)]
pub enum GameDrive {
    /// The cursor crosses as usual.
    Off,
    /// This machine sends its mouse and keyboard to the peer.
    Driving,
    /// This machine injects the relative input of the peer.
    Receiving,
}

/// Where the local keyboard goes.
#[derive(Debug, Clone, Copy, PartialEq, Eq, Structural)]
pub enum KeyboardTarget {
    /// To the screen whose mouse was used last.
    Smart,
    /// To the screen that the cursor is on.
    Auto,
    /// To the peer, always.
    ForcePeer,
    /// To this machine, always.
    ForceLocal,
}

impl Default for KeyboardTarget {
    fn default() -> (t: Self)
        ensures
            t == KeyboardTarget::Smart,
    {
        KeyboardTarget::Smart
    }
}

/// The edge of the local screen that the peer's screen adjoins.
#[derive(Debug, Clone, Copy, PartialEq, Eq, Structural)]
pub enum PeerSide {
    Left,
    Right,
    Top,
    Bottom,
}

impl PeerSide {
    /// Whether the shared edge is the left or the right one, so that the depth
    /// into the peer's screen is a horizontal distance.
    pub open spec fn horizontal(self) -> bool {
        self == PeerSide::Left || self == PeerSide::Right
    }

    pub fn is_horizontal(self) -> (r: bool)
        ensures
            r == self.horizontal(),
    {
        match self {
            PeerSide::Left | PeerSide::Right => true,
            PeerSide::Top | PeerSide::Bottom => false,
        }
    }
}

/// Whose screen the local mouse and keyboard drive.
#[derive(Debug, Clone, Copy, PartialEq, Eq, Structural)]
pub enum CursorMode {
    Local,
    Remote,
}

/// The capture code that a machine runs.
#[derive(Debug, Clone, Copy, PartialEq, Eq, Structural)]
pub enum Platform {
    Linux,
    Windows,
    Other,
}

/// Something that the capture code has to carry out.
#[derive(Debug, Clone, Copy, PartialEq, Eq)]
pub enum Effect {
    /// Hand the transition to the session with the peer.
    Remote(RemoteEvent),
    /// Send the event to the peer.
    Forward(InputEvent),
    /// Send a scroll to the peer, in the units of the capturing device: whole
    /// notches on Linux, parts of a hundred and twentieth notch on Windows.
    ForwardWheel { horizontal: bool, units: i64 },
    /// Press and release the left button where the cursor is, the release
    /// only if the press went through.
    ClickToFocus,
    /// Put the cursor at a point of the screen.
    WarpCursor { x: i32, y: i32 },
    /// Hide the cursor; the number of calls it took is reported back.
    HideCursor,
    /// Undo that many calls that hid the cursor.
    ShowCursor { calls: i32 },
    /// Replace the keyboard hook by a fresh one.
    RefreshKeyboardHook,
    /// Wake the thread that sends collected motion.
    WakeFlushWatchdog,
    /// Activate the window under the cursor and report whether it worked.
    ActivateWindow,
    /// As before, for the first key after a handover.
    ActivateWindowForKey,
    /// Switch the gesture controller of the touchpad.
    SetGestureController(bool),
    /// Ask the capture window to take or give up the touchpad.
    RouteCapture(bool),
    /// Tell the capture window that keys are being held.
    SuspendCapture,
    /// Tell the capture window that the keys are free again.
    ResumeCapture,
    /// Stop and start the timer that watches the foreground.
    StopFocusTimer,
    StartFocusTimer,
    /// Give the foreground back to this window.
    RestoreForeground(i64),
    HideCaptureWindow,
    /// Clear the shift keys in the key state of the capture thread.
    NeutralizeShift,
}

/// One effect, or none.
pub open spec fn when(condition: bool, effect: Effect) -> Seq<Effect> {
    if condition {
        seq![effect]
    } else {
        Seq::empty()
    }
}

/// Adds an effect if the condition holds.
pub fn push_when(condition: bool, effect: Effect, out: &mut Vec<Effect>)
    ensures
        final(out)@ == old(out)@ + when(condition, effect),
{
    if condition {
        out.push(effect);
    }
    assert(out@ =~= old(out)@ + when(condition, effect));
}

/// Appending is associative.
pub proof fn lemma_appended(base: Seq<Effect>, a: Seq<Effect>, b: Seq<Effect>)
    ensures
        (base + a) + b == base + (a + b),
{
    assert((base + a) + b =~= base + (a + b));
}

/// How this machine and the peer stand to each other.
#[derive(Debug, Clone, Copy, PartialEq, Eq, Structural)]
pub struct Link {
    /// Whether a session listens for transitions.
    pub remote_listener: bool,
    /// Whether the peer drives this machine.
    pub peer_in_remote: bool,
    /// Whether the input is pinned to this machine.
    pub input_locked: bool,
    pub game_drive: GameDrive,
    pub peer_side: PeerSide,
    pub peer_touchpad_capabilities: u32,
}

impl Link {
    /// The effects of a transition: the session hears of it if one listens.
    pub open spec fn fired(self, ev: RemoteEvent) -> Seq<Effect> {
        if self.remote_listener {
            seq![Effect::Remote(ev)]
        } else {
            Seq::empty()
        }
    }
}

/// When either side was used last, in milliseconds; 0 is never.
#[derive(Debug, Clone, Copy, PartialEq, Eq, Structural)]
pub struct Activity {
    /// Time of the last deliberate local drag.
    pub local_mouse_at: u64,
    pub motion_run_start: u64,
    pub last_motion_at: u64,
    /// Time of the last local button press.
    pub local_click_at: u64,
    /// Time of the last activity of the peer, on the local clock.
    pub peer_activity_at: u64,
}

/// Where keys and buttons go.
pub struct KeyRouting {
    pub keyboard_target: KeyboardTarget,
    /// The last answer of the smart keyboard target.
    pub last_smart_to_peer: bool,
    /// The keys whose press went to the peer and whose release did not yet.
    pub held_keys: [bool; 1024],
    /// The buttons whose press went to the peer and whose release did not yet.
    pub held_buttons: [bool; 8],
    pub keys_forwarded: u64,
    pub keys_injected: u64,
}

impl KeyRouting {
    /// The keys and buttons whose press went to the peer.
    pub open spec fn held(self) -> held::Held {
        held::Held {
            keys: Set::new(|k: int| 0 <= k < KEY_COUNT && self.held_keys@[k]),
            buttons: Set::new(|b: Button| self.held_buttons@[held::button_index(b)]),
        }
    }
}

/// What the user has set for the capture.
#[derive(Debug, Clone, Copy, PartialEq, Eq, Structural)]
pub struct Tuning {
    pub invert_scroll_x: bool,
    pub invert_scroll_y: bool,
    /// Interval between two motion packets, in microseconds.
    pub target_flush_us: u64,
    pub auto_focus_on_take: bool,
    /// The bit pattern of the factor for mouse motion.
    pub mouse_sens_bits: u32,
    /// The bit pattern of the factor for scrolling.
    pub scroll_speed_bits: u32,
}

/// Everything that input routing remembers.
pub struct InputState {
    pub platform: Platform,
    pub link: Link,
    pub activity: Activity,
    pub keys: KeyRouting,
    pub tuning: Tuning,
    /// How many motions of the peer were injected.
    pub inj_events: u64,
    /// The protected game in the foreground, if any.
    pub anticheat_warning: Option<String>,
    pub linux: linux::LinuxState,
    pub win: windows::WindowsState,
    pub touch: foreground::TouchpadState,
}

/// Once both sides have been idle for this long the smart keyboard target
/// keeps its last answer.
pub const ACTIVITY_FRESH_MS: u64 = 10_000;

/// A motion run counts as a deliberate drag once it has lasted this long.
pub const DEBOUNCE_MS: u64 = 120;

/// A longer gap than this ends a motion run.
pub const IDLE_RESET_MS: u64 = 250;

/// The oldest activity age that is reported to the peer.
pub const MAX_REPORTED_AGE_MS: u64 = 60_000;

impl Activity {
    pub fn never() -> (r: Self)
        ensures
            r == (Activity {
                local_mouse_at: 0,
                motion_run_start: 0,
                last_motion_at: 0,
                local_click_at: 0,
                peer_activity_at: 0,
            }),
    {
        Activity {
            local_mouse_at: 0,
            motion_run_start: 0,
            last_motion_at: 0,
            local_click_at: 0,
            peer_activity_at: 0,
        }
    }

    /// Time of the last local activity, a drag or a click; 0 is never.
    pub open spec fn local_at(self) -> u64 {
        if self.local_mouse_at >= self.local_click_at {
            self.local_mouse_at
        } else {
            self.local_click_at
        }
    }

    fn local_activity_at(&self) -> (r: u64)
        ensures
            r == self.local_at(),
    {
        if self.local_mouse_at >= self.local_click_at {
            self.local_mouse_at
        } else {
            self.local_click_at
        }
    }

    /// The start of the motion run that a motion at `now_ms` belongs to.
    pub open spec fn run_start(self, now_ms: u64) -> u64 {
        if self.last_motion_at == 0 || arith::elapsed(now_ms, self.last_motion_at) > IDLE_RESET_MS {
            now_ms
        } else {
            self.motion_run_start
        }
    }

    /// The times after a local motion: the run goes on or starts anew, and the
    /// motion is an activity once its run has lasted `DEBOUNCE_MS`.
    pub open spec fn after_motion(self, now_ms: u64) -> Activity {
        Activity {
            last_motion_at: now_ms,
            motion_run_start: self.run_start(now_ms),
            local_mouse_at: if arith::elapsed(now_ms, self.run_start(now_ms)) >= DEBOUNCE_MS {
                now_ms
            } else {
                self.local_mouse_at
            },
            ..self
        }
    }
}

/// Age of an activity; the largest number stands for "never".
pub open spec fn activity_age(at: u64, now_ms: u64) -> int {
    if at == 0 {
        u64::MAX as int
    } else {
        arith::elapsed(now_ms, at)
    }
}

fn age_of(at: u64, now_ms: u64) -> (r: u64)
    ensures
        r == activity_age(at, now_ms),
{
    if at == 0 {
        u64::MAX
    } else {
        now_ms.saturating_sub(at)
    }
}

/// The answer of the smart keyboard target: a cursor on the peer's screen
/// takes the keyboard there, a peer on this screen keeps it here; else the
/// side that was active last has it, and two idle sides change nothing.
pub open spec fn smart_to_peer(
    link: Link,
    activity: Activity,
    last: bool,
    cursor_in_remote: bool,
    now_ms: u64,
) -> bool {
    let local_age = activity_age(activity.local_at(), now_ms);
    let peer_age = activity_age(activity.peer_activity_at, now_ms);
    if cursor_in_remote {
        true
    } else if link.peer_in_remote {
        false
    } else if local_age >= ACTIVITY_FRESH_MS && peer_age >= ACTIVITY_FRESH_MS {
        last
    } else {
        peer_age < local_age
    }
}

/// Whether a fresh key press goes to the peer.
pub open spec fn keys_to_peer(st: InputState, cursor_in_remote: bool, now_ms: u64) -> bool {
    if st.link.game_drive == GameDrive::Driving {
        true
    } else {
        match st.keys.keyboard_target {
            KeyboardTarget::Smart => smart_to_peer(
                st.link,
                st.activity,
                st.keys.last_smart_to_peer,
                cursor_in_remote,
                now_ms,
            ),
            KeyboardTarget::Auto => cursor_in_remote,
            KeyboardTarget::ForcePeer => true,
            KeyboardTarget::ForceLocal => false,
        }
    }
}

/// What the smart target remembers after it was asked.
pub open spec fn remembered_answer(st: InputState, cursor_in_remote: bool, now_ms: u64) -> bool {
    if st.link.game_drive != GameDrive::Driving && st.keys.keyboard_target
        == KeyboardTarget::Smart {
        keys_to_peer(st, cursor_in_remote, now_ms)
    } else {
        st.keys.last_smart_to_peer
    }
}

/// Hands a transition to the session, if one listens.
pub fn fire_remote_event(link: &Link, ev: RemoteEvent, out: &mut Vec<Effect>)
    ensures
        final(out)@ == old(out)@ + link.fired(ev),
{
    if link.remote_listener {
        out.push(Effect::Remote(ev));
    }
    assert(out@ =~= old(out)@ + link.fired(ev));
}

/// Decides where a fresh key press goes, and remembers a smart answer.
pub fn should_forward_keys(st: &mut InputState, cursor_in_remote: bool, now_ms: u64) -> (r: bool)
    ensures
        r == keys_to_peer(*old(st), cursor_in_remote, now_ms),
        *final(st) == (InputState {
            keys: KeyRouting {
                last_smart_to_peer: remembered_answer(*old(st), cursor_in_remote, now_ms),
                ..old(st).keys
            },
            ..*old(st)
        }),
{
    if st.link.game_drive == GameDrive::Driving {
        return true;
    }
    match st.keys.keyboard_target {
        KeyboardTarget::Smart => {
            let to_peer = if cursor_in_remote {
                true
            } else if st.link.peer_in_remote {
                false
            } else {
                let la: u64 = age_of(st.activity.local_activity_at(), now_ms);
                let pa: u64 = age_of(st.activity.peer_activity_at, now_ms);
                if la >= ACTIVITY_FRESH_MS && pa >= ACTIVITY_FRESH_MS {
                    st.keys.last_smart_to_peer
                } else {
                    pa < la
                }
            };
            st.keys.last_smart_to_peer = to_peer;
            to_peer
        },
        KeyboardTarget::Auto => cursor_in_remote,
        KeyboardTarget::ForcePeer => true,
        KeyboardTarget::ForceLocal => false,
    }
}

/// Where a key edge goes: a key whose press went to the peer stays with the
/// peer up to and including its release, any other press is decided afresh
/// and any other release stays here.
pub open spec fn keystroke_to_peer(
    st: InputState,
    code: u16,
    down: bool,
    cursor_in_remote: bool,
    now_ms: u64,
) -> bool {
    st.keys.held().keys.contains(code as int) || (down && keys_to_peer(
        st,
        cursor_in_remote,
        now_ms,
    ))
}

/// What is held on the peer after an edge that went there, or did not.
pub open spec fn held_after(held: held::Held, event: InputEvent, forwarded: bool) -> held::Held {
    if forwarded {
        held.after(event)
    } else {
        held
    }
}

/// Routes one key edge.
pub fn route_keystroke(
    st: &mut InputState,
    code: u16,
    down: bool,
    cursor_in_remote: bool,
    now_ms: u64,
) -> (r: bool)
    ensures
        r == keystroke_to_peer(*old(st), code, down, cursor_in_remote, now_ms),
        final(st).keys.held() == held_after(
            old(st).keys.held(),
            InputEvent::Key { code: KeyCode(code), down },
            r,
        ),
        *final(st) == (InputState {
            keys: KeyRouting {
                held_keys: final(st).keys.held_keys,
                last_smart_to_peer: if down && !old(st).keys.held().keys.contains(code as int) {
                    remembered_answer(*old(st), cursor_in_remote, now_ms)
                } else {
                    old(st).keys.last_smart_to_peer
                },
                ..old(st).keys
            },
            ..*old(st)
        }),
{
    let i: usize = code as usize;
    let was_held = i < KEY_COUNT && st.keys.held_keys[i];
    let forward = if was_held {
        if !down {
            set_held_key(&mut st.keys, code, false);
        }
        true
    } else if down {
        let decide = should_forward_keys(st, cursor_in_remote, now_ms);
        if decide && i < KEY_COUNT {
            set_held_key(&mut st.keys, code, true);
        }
        decide
    } else {
        false
    };
    proof {
        let expected = held_after(
            old(st).keys.held(),
            InputEvent::Key { code: KeyCode(code), down },
            forward,
        );
        assert(st.keys.held() =~= expected);
    }
    forward
}

/// Notes whether the press of a key went to the peer.
fn set_held_key(keys: &mut KeyRouting, code: u16, down: bool)
    requires
        code < KEY_COUNT,
    ensures
        final(keys).held() == old(keys).held().after(InputEvent::Key { code: KeyCode(code), down }),
        *final(keys) == (KeyRouting { held_keys: final(keys).held_keys, ..*old(keys) }),
{
    keys.held_keys[code as usize] = down;
    assert(keys.held() =~= old(keys).held().after(InputEvent::Key { code: KeyCode(code), down }));
}

/// Where a button edge goes: as for keys, but a fresh press follows the
/// cursor.
pub open spec fn button_to_peer(
    keys: KeyRouting,
    btn: Button,
    down: bool,
    cursor_in_remote: bool,
) -> bool {
    keys.held().buttons.contains(btn) || (down && cursor_in_remote)
}

/// Routes one button edge.
pub fn route_mouse_button(
    keys: &mut KeyRouting,
    btn: Button,
    down: bool,
    cursor_in_remote: bool,
) -> (r: bool)
    ensures
        r == button_to_peer(*old(keys), btn, down, cursor_in_remote),
        final(keys).held() == held_after(
            old(keys).held(),
            InputEvent::MouseButton { btn, down },
            r,
        ),
        *final(keys) == (KeyRouting { held_buttons: final(keys).held_buttons, ..*old(keys) }),
{
    let i: usize = btn_index(btn);
    let was_held = keys.held_buttons[i];
    let forward = if was_held {
        if !down {
            keys.held_buttons[i] = false;
        }
        true
    } else if down {
        if cursor_in_remote {
            keys.held_buttons[i] = true;
        }
        cursor_in_remote
    } else {
        false
    };
    proof {
        let expected = held_after(
            old(keys).held(),
            InputEvent::MouseButton { btn, down },
            forward,
        );
        assert(keys.held() =~= expected);
    }
    forward
}

/// Notes a genuine motion of a local mouse. Only a sustained run counts as
/// activity; a nudge does not.
pub fn bump_local_mouse_activity(activity: &mut Activity, now_ms: u64)
    ensures
        *final(activity) == old(activity).after_motion(now_ms),
{
    let last: u64 = activity.last_motion_at;
    activity.last_motion_at = now_ms;
    if last == 0 || now_ms.saturating_sub(last) > IDLE_RESET_MS {
        activity.motion_run_start = now_ms;
    }
    if now_ms.saturating_sub(activity.motion_run_start) >= DEBOUNCE_MS {
        activity.local_mouse_at = now_ms;
    }
}

/// Notes a press of a local mouse button.
pub fn bump_local_click(activity: &mut Activity, now_ms: u64)
    ensures
        *final(activity) == (Activity { local_click_at: now_ms, ..*old(activity) }),
{
    activity.local_click_at = now_ms;
}

/// Counts a key that went to the peer.
pub fn note_key_forwarded_with_code(keys: &mut KeyRouting)
    ensures
        *final(keys) == (KeyRouting {
            keys_forwarded: old(keys).keys_forwarded.wrapping_add(1),
            ..*old(keys)
        }),
{
    keys.keys_forwarded = keys.keys_forwarded.wrapping_add(1);
}

/// The keyboard target after the current one in the cycle of the hotkey.
pub open spec fn next_target(t: KeyboardTarget) -> KeyboardTarget {
    match t {
        KeyboardTarget::Smart => KeyboardTarget::ForcePeer,
        KeyboardTarget::ForcePeer => KeyboardTarget::ForceLocal,
        KeyboardTarget::ForceLocal => KeyboardTarget::Auto,
        KeyboardTarget::Auto => KeyboardTarget::Smart,
    }
}

pub fn set_keyboard_target(keys: &mut KeyRouting, t: KeyboardTarget)
    ensures
        *final(keys) == (KeyRouting { keyboard_target: t, ..*old(keys) }),
{
    keys.keyboard_target = t;
}

/// Moves on to the next keyboard target.
pub fn cycle_keyboard_target(keys: &mut KeyRouting)
    ensures
        *final(keys) == (KeyRouting {
            keyboard_target: next_target(old(keys).keyboard_target),
            ..*old(keys)
        }),
{
    let next = match keys.keyboard_target {
        KeyboardTarget::Smart => KeyboardTarget::ForcePeer,
        KeyboardTarget::ForcePeer => KeyboardTarget::ForceLocal,
        KeyboardTarget::ForceLocal => KeyboardTarget::Auto,
        KeyboardTarget::Auto => KeyboardTarget::Smart,
    };
    set_keyboard_target(keys, next);
}

impl InputState {
    pub open spec fn well_formed(self) -> bool {
        self.win.geometry_fits() && self.touch.well_formed()
    }

    /// The state of a machine that has just started.
    pub fn new(platform: Platform) -> (r: Self)
        ensures
            r.well_formed(),
            r.platform == platform,
            r.link == (Link {
                remote_listener: false,
                peer_in_remote: false,
                input_locked: false,
                game_drive: GameDrive::Off,
                peer_side: PeerSide::Right,
                peer_touchpad_capabilities: 0,
            }),
            r.activity == (Activity {
                local_mouse_at: 0,
                motion_run_start: 0,
                last_motion_at: 0,
                local_click_at: 0,
                peer_activity_at: 0,
            }),
            r.keys.keyboard_target == KeyboardTarget::Smart,
            !r.keys.last_smart_to_peer,
            r.keys.held() == held::Held::nothing(),
            r.keys.keys_forwarded == 0 && r.keys.keys_injected == 0,
            r.tuning == (Tuning {
                invert_scroll_x: false,
                invert_scroll_y: false,
                target_flush_us: 2_000,
                auto_focus_on_take: false,
                mouse_sens_bits: 0x3f80_0000,
                scroll_speed_bits: 0x3f80_0000,
            }),
            r.inj_events == 0,
            r.anticheat_warning is None,
            r.linux.at_start(),
            r.win.at_start(),
            r.touch.at_start(),
    {
        let r = InputState {
            platform,
            link: Link {
                remote_listener: false,
                peer_in_remote: false,
                input_locked: false,
                game_drive: GameDrive::Off,
                peer_side: PeerSide::Right,
                peer_touchpad_capabilities: 0,
            },
            activity: Activity::never(),
            keys: KeyRouting {
                keyboard_target: KeyboardTarget::Smart,
                last_smart_to_peer: false,
                held_keys: [false;1024],
                held_buttons: [false;8],
                keys_forwarded: 0,
                keys_injected: 0,
            },
            tuning: Tuning {
                invert_scroll_x: false,
                invert_scroll_y: false,
                target_flush_us: 2_000,
                auto_focus_on_take: false,
                mouse_sens_bits: 0x3f80_0000,
                scroll_speed_bits: 0x3f80_0000,
            },
            inj_events: 0,
            anticheat_warning: None,
            linux: linux::LinuxState::new(),
            win: windows::WindowsState::new(),
            touch: foreground::TouchpadState::new(),
        };
        assert(r.keys.held() =~= held::Held::nothing());
        r
    }
}

/// Forgets every key and button whose press went to the peer.
pub fn clear_held(keys: &mut KeyRouting)
    ensures
        final(keys).held() == held::Held::nothing(),
        *final(keys) == (KeyRouting {
            held_keys: final(keys).held_keys,
            held_buttons: final(keys).held_buttons,
            ..*old(keys)
        }),
{
    keys.held_keys = [false;1024];
    keys.held_buttons = [false;8];
    assert(keys.held() =~= held::Held::nothing());
}

/// What capture routing means the peer to hold.
pub fn forwarded_input_state(keys: &KeyRouting) -> (r: ForwardedInputState)
    ensures
        r.well_formed(),
        r@ == keys.held(),
{
    let mut state = ForwardedInputState::default();
    let mut code: u16 = 0;
    while code < 1024
        invariant
            code <= 1024,
            state.well_formed(),
            state@.buttons == Set::<Button>::empty(),
            forall|k: int| #[trigger]
                state@.keys.contains(k) <==> 0 <= k < code && keys.held_keys@[k],
        decreases 1024 - code,
    {
        if keys.held_keys[code as usize] {
            state.set_key(code, true);
        }
        code = code + 1;
    }
    let buttons: [Button; 5] = [
        Button::Left,
        Button::Right,
        Button::Middle,
        Button::X1,
        Button::X2,
    ];
    let mut i: usize = 0;
    while i < 5
        invariant
            i <= 5,
            buttons@ =~= seq![Button::Left, Button::Right, Button::Middle, Button::X1, Button::X2],
            state.well_formed(),
            forall|k: int| #[trigger]
                state@.keys.contains(k) <==> 0 <= k < 1024 && keys.held_keys@[k],
            forall|b: Button| #[trigger]
                state@.buttons.contains(b) <==> held::button_index(b) < i
                    && keys.held_buttons@[held::button_index(b)],
        decreases 5 - i,
    {
        let btn = buttons[i];
        assert(held::button_index(btn) == i);
        assert(forall|b: Button| held::button_index(b) == i ==> b == btn);
        if keys.held_buttons[i] {
            state.set_button(btn, true);
        }
        i = i + 1;
    }
    assert(state@ =~= keys.held());
    state
}

/// The state after the local capture was made to leave `Remote` mode.
pub open spec fn forced_local(st: InputState) -> InputState {
    match st.platform {
        Platform::Linux => InputState { linux: linux::forced_out(st.link, st.linux), ..st },
        Platform::Windows => InputState {
            win: windows::forced_out(st.link, st.win),
            touch: windows::forced_out_touch(st.win, st.touch),
            ..st
        },
        Platform::Other => st,
    }
}

pub open spec fn forced_local_effects(st: InputState) -> Seq<Effect> {
    match st.platform {
        Platform::Linux => linux::forced_out_effects(st.link, st.linux),
        Platform::Windows => windows::forced_out_effects(st.link, st.win, st.touch),
        Platform::Other => Seq::empty(),
    }
}

/// Makes the local capture leave `Remote` mode.
pub fn force_local_exit_remote(st: &mut InputState, out: &mut Vec<Effect>)
    requires
        old(st).well_formed(),
    ensures
        final(st).well_formed(),
        *final(st) == forced_local(*old(st)),
        final(out)@ == old(out)@ + forced_local_effects(*old(st)),
{
    match st.platform {
        Platform::Linux => linux::force_exit_remote(&st.link, &mut st.linux, out),
        Platform::Windows => windows::force_exit_remote(
            &st.link,
            &mut st.win,
            &mut st.touch,
            out,
        ),
        Platform::Other => {
            assert(out@ =~= old(out)@ + forced_local_effects(*old(st)));
        },
    }
}

/// Whether the local mouse drives the peer.
pub open spec fn in_remote(st: InputState) -> bool {
    match st.platform {
        Platform::Linux => st.linux.mode == CursorMode::Remote,
        Platform::Windows => st.win.mode == CursorMode::Remote,
        Platform::Other => false,
    }
}

pub fn local_in_remote(st: &InputState) -> (r: bool)
    ensures
        r == in_remote(*st),
{
    match st.platform {
        Platform::Linux => linux::local_in_remote(&st.linux),
        Platform::Windows => windows::local_in_remote(&st.win),
        Platform::Other => false,
    }
}

/// The state with the lock set, before the capture may be made to leave
/// `Remote` mode. The lock then is the user's, whatever engaged it before.
pub open spec fn with_lock(st: InputState, v: bool) -> InputState {
    InputState {
        link: Link { input_locked: v, ..st.link },
        win: windows::WindowsState { auto_engaged: false, ..st.win },
        ..st
    }
}

/// Pins the input to this machine, or frees it. Engaging the lock makes the
/// local capture leave `Remote` mode.
pub fn set_input_locked(st: &mut InputState, v: bool, out: &mut Vec<Effect>)
    requires
        old(st).well_formed(),
    ensures
        final(st).well_formed(),
        v && !old(st).link.input_locked ==> *final(st) == forced_local(with_lock(*old(st), v))
            && final(out)@ == old(out)@ + forced_local_effects(with_lock(*old(st), v)),
        !(v && !old(st).link.input_locked) ==> *final(st) == with_lock(*old(st), v) && final(out)@
            == old(out)@,
{
    let prev = st.link.input_locked;
    st.link.input_locked = v;
    st.win.auto_engaged = false;
    if prev != v && v {
        force_local_exit_remote(st, out);
    }
}

/// The state with another drive, all else as it is.
pub open spec fn with_drive(st: InputState, s: GameDrive) -> InputState {
    InputState { link: Link { game_drive: s, ..st.link }, ..st }
}

/// Starts or stops Game Drive. Either machine can stop it; starting it makes
/// the local capture leave `Remote` mode first.
pub fn toggle_game_drive(st: &mut InputState, out: &mut Vec<Effect>)
    requires
        old(st).well_formed(),
    ensures
        final(st).well_formed(),
        old(st).link.game_drive != GameDrive::Off ==> *final(st) == with_drive(
            *old(st),
            GameDrive::Off,
        ) && final(out)@ == old(out)@ + old(st).link.fired(RemoteEvent::GameDriveStop),
        old(st).link.game_drive == GameDrive::Off ==> *final(st) == with_drive(
            forced_local(*old(st)),
            GameDrive::Driving,
        ) && final(out)@ == old(out)@ + forced_local_effects(*old(st)) + old(st).link.fired(
            RemoteEvent::GameDriveStart,
        ),
{
    if is_game_driving(st) || is_game_receiving(st) {
        set_game_drive(st, GameDrive::Off);
        fire_remote_event(&st.link, RemoteEvent::GameDriveStop, out);
    } else {
        force_local_exit_remote(st, out);
        set_game_drive(st, GameDrive::Driving);
        fire_remote_event(&st.link, RemoteEvent::GameDriveStart, out);
    }
}

pub fn game_drive(st: &InputState) -> (r: GameDrive)
    ensures
        r == st.link.game_drive,
{
    st.link.game_drive
}

pub fn set_game_drive(st: &mut InputState, s: GameDrive)
    ensures
        *final(st) == with_drive(*old(st), s),
{
    st.link.game_drive = s;
}

/// Whether this machine sends its input to the peer's game.
pub fn is_game_driving(st: &InputState) -> (r: bool)
    ensures
        r == (st.link.game_drive == GameDrive::Driving),
{
    st.link.game_drive == GameDrive::Driving
}

/// Whether this machine injects the input of the peer into a game.
pub fn is_game_receiving(st: &InputState) -> (r: bool)
    ensures
        r == (st.link.game_drive == GameDrive::Receiving),
{
    st.link.game_drive == GameDrive::Receiving
}

/// Sets the side of the screen that the peer adjoins. A change makes the Linux
/// capture forget what it collected at the old edge.
pub fn set_peer_side(st: &mut InputState, side: PeerSide)
    ensures
        *final(st) == (InputState {
            link: Link { peer_side: side, ..old(st).link },
            linux: if side != old(st).link.peer_side && old(st).platform == Platform::Linux {
                linux::recentred(old(st).linux)
            } else {
                old(st).linux
            },
            ..*old(st)
        }),
{
    let prev = st.link.peer_side;
    st.link.peer_side = side;
    if prev != side && st.platform == Platform::Linux {
        linux::reset_after_side_change(&mut st.linux);
    }
}

/// Notes whether the peer drives this machine. A peer that takes over makes
/// this screen the keyboard's, so an older answer to the contrary is dropped.
pub fn set_peer_in_remote(st: &mut InputState, v: bool)
    ensures
        *final(st) == (InputState {
            link: Link { peer_in_remote: v, ..old(st).link },
            keys: KeyRouting {
                last_smart_to_peer: old(st).keys.last_smart_to_peer && !v,
                ..old(st).keys
            },
            ..*old(st)
        }),
{
    st.link.peer_in_remote = v;
    if v {
        st.keys.last_smart_to_peer = false;
    }
}

/// Whether all that belongs to the last session is forgotten: the smart answer,
/// the peer's activity, and every key and button that went to the peer. When
/// this machine was used last stays known.
pub open spec fn forgotten(pre: InputState, post: InputState) -> bool {
    &&& post.keys.held() == held::Held::nothing()
    &&& post.keys == (KeyRouting {
        last_smart_to_peer: false,
        held_keys: post.keys.held_keys,
        held_buttons: post.keys.held_buttons,
        ..pre.keys
    })
    &&& post == (InputState {
        keys: post.keys,
        activity: Activity { peer_activity_at: 0, ..pre.activity },
        touch: post.touch,
        ..pre
    })
    &&& if pre.platform == Platform::Windows {
        &&& post.touch.latches_clear()
        &&& post.touch == (foreground::TouchpadState {
            latches: post.touch.latches,
            passthrough: post.touch.passthrough,
            keyboard_suspended: false,
            ..pre.touch
        })
    } else {
        post.touch == pre.touch
    }
}

/// A capture that the keyboard had suspended is resumed when the keys are
/// forgotten.
pub open spec fn forget_effects(st: InputState) -> Seq<Effect> {
    when(
        st.platform == Platform::Windows && st.touch.keyboard_suspended
            && st.touch.capture_requested && st.touch.has_window,
        Effect::ResumeCapture,
    )
}

/// Forgets what belongs to the last session.
pub fn reset_smart_decision(st: &mut InputState, out: &mut Vec<Effect>)
    ensures
        forgotten(*old(st), *final(st)),
        final(out)@ == old(out)@ + forget_effects(*old(st)),
        old(st).well_formed() ==> final(st).well_formed(),
{
    st.keys.last_smart_to_peer = false;
    st.activity.peer_activity_at = 0;
    clear_held(&mut st.keys);
    if st.platform == Platform::Windows {
        foreground::reset_forwarded_keyboard_latches(&mut st.touch, out);
    }
    assert(out@ =~= old(out)@ + forget_effects(*old(st)));
}

/// Notes an activity of the peer, reported by its age.
pub fn note_peer_activity(st: &mut InputState, age_ms: u32, now_ms: u64)
    ensures
        *final(st) == (InputState {
            activity: Activity {
                peer_activity_at: arith::elapsed(now_ms, age_ms as u64) as u64,
                ..old(st).activity
            },
            ..*old(st)
        }),
{
    st.activity.peer_activity_at = now_ms.saturating_sub(age_ms as u64);
}

/// Age of the last local activity, as it is reported to the peer: at most a
/// minute, and nothing when there was none.
pub fn local_input_age_ms(st: &InputState, now_ms: u64) -> (r: Option<u32>)
    ensures
        r is None <==> st.activity.local_at() == 0,
        r matches Some(age) ==> age == if activity_age(st.activity.local_at(), now_ms)
            <= MAX_REPORTED_AGE_MS {
            activity_age(st.activity.local_at(), now_ms)
        } else {
            MAX_REPORTED_AGE_MS as int
        },
{
    let at: u64 = st.activity.local_activity_at();
    if at == 0 {
        return None;
    }
    let age: u64 = now_ms.saturating_sub(at);
    if age <= MAX_REPORTED_AGE_MS {
        Some(age as u32)
    } else {
        Some(MAX_REPORTED_AGE_MS as u32)
    }
}

/// The slowest and the fastest mouse rate, in packets per second.
pub const MIN_MOUSE_RATE_HZ: u32 = 60;

pub const MAX_MOUSE_RATE_HZ: u32 = 1000;

/// Interval between two motion packets at a rate, in microseconds.
pub fn hz_to_flush_us(hz: u32) -> (r: u64)
    ensures
        r == 1_000_000int / arith::clamp(
            hz as int,
            MIN_MOUSE_RATE_HZ as int,
            MAX_MOUSE_RATE_HZ as int,
        ),
        1_000 <= r <= 16_666,
{
    let hz1: u32 = if hz < MIN_MOUSE_RATE_HZ {
        MIN_MOUSE_RATE_HZ
    } else if hz > MAX_MOUSE_RATE_HZ {
        MAX_MOUSE_RATE_HZ
    } else {
        hz
    };
    let rate: u64 = hz1 as u64;
    proof {
        assert(1_000 <= 1_000_000int / (rate as int) <= 16_666) by (nonlinear_arith)
            requires
                60 <= rate <= 1000,
        ;
    }
    1_000_000 / rate
}

pub fn set_mouse_rate_hz(st: &mut InputState, hz: u32)
    ensures
        *final(st) == (InputState {
            tuning: Tuning { target_flush_us: final(st).tuning.target_flush_us, ..old(st).tuning },
            ..*old(st)
        }),
        final(st).tuning.target_flush_us == 1_000_000int / arith::clamp(
            hz as int,
            MIN_MOUSE_RATE_HZ as int,
            MAX_MOUSE_RATE_HZ as int,
        ),
{
    st.tuning.target_flush_us = hz_to_flush_us(hz);
}

pub fn target_flush_us(st: &InputState) -> (r: u64)
    ensures
        r == st.tuning.target_flush_us,
{
    st.tuning.target_flush_us
}

/// The rate that is set, and how many motions went out and came in.
#[derive(Debug, Clone, Copy, PartialEq, Eq, Structural)]
pub struct MouseRateStats {
    pub set_hz: u32,
    pub fwd_total: u64,
    pub inj_total: u64,
}

/// The rate that is shown: how many intervals a second has.
pub open spec fn shown_rate(st: InputState) -> int {
    1_000_000int / (if st.tuning.target_flush_us >= 1 {
        st.tuning.target_flush_us as int
    } else {
        1
    })
}

pub fn mouse_rate_stats(st: &InputState) -> (r: MouseRateStats)
    ensures
        r.set_hz == shown_rate(*st),
        (r.fwd_total, r.inj_total) == motion_counts(*st),
{
    let us: u64 = if st.tuning.target_flush_us >= 1 {
        st.tuning.target_flush_us
    } else {
        1
    };
    proof {
        assert(0 <= 1_000_000int / (us as int) <= 1_000_000) by (nonlinear_arith)
            requires
                us >= 1,
        ;
    }
    let hz: u64 = 1_000_000 / us;
    MouseRateStats { set_hz: hz as u32, fwd_total: st.win.motion.sent, inj_total: st.inj_events }
}

/// Counts a motion of the peer that was injected.
pub fn bump_inj_events(st: &mut InputState)
    ensures
        *final(st) == (InputState { inj_events: old(st).inj_events.wrapping_add(1), ..*old(st) }),
{
    st.inj_events = st.inj_events.wrapping_add(1);
}

/// What the local touchpad can do for a session. Only Windows has one that can
/// be shared.
pub fn local_touchpad_capabilities(st: &InputState) -> (r: u32)
    ensures
        r == if st.platform == Platform::Windows {
            foreground::capability_bits(
                st.touch.frame_capture,
                st.touch.action_capture,
                st.touch.injection_ready,
            )
        } else {
            0
        },
{
    match st.platform {
        Platform::Windows => windows::touchpad_capabilities(&st.touch),
        _ => 0,
    }
}

pub fn set_peer_touchpad_capabilities(st: &mut InputState, capabilities: u32)
    ensures
        *final(st) == (InputState {
            link: Link { peer_touchpad_capabilities: capabilities, ..old(st).link },
            ..*old(st)
        }),
{
    st.link.peer_touchpad_capabilities = capabilities;
}

pub fn peer_touchpad_capabilities(st: &InputState) -> (r: u32)
    ensures
        r == st.link.peer_touchpad_capabilities,
{
    st.link.peer_touchpad_capabilities
}

/// Whether touchpad frames can go from one machine to the other: the one can
/// capture them and the other inject them.
pub fn native_touchpad_pair_available(local: u32, peer: u32) -> (r: bool)
    ensures
        r == (local & TOUCHPAD_CAP_FRAME_CAPTURE != 0 && peer & TOUCHPAD_CAP_FRAME_INJECT != 0),
{
    local & TOUCHPAD_CAP_FRAME_CAPTURE != 0 && peer & TOUCHPAD_CAP_FRAME_INJECT != 0
}

/// What the system tells of the local screen.
pub struct ScreenReport {
    /// Origin and extent of a Windows desktop.
    pub origin_x: i32,
    pub origin_y: i32,
    pub width: i32,
    pub height: i32,
    /// What the user of a Linux machine has set.
    pub set_w: Option<i32>,
    pub set_h: Option<i32>,
    /// What the display server's tool printed there.
    pub xrandr: Option<String>,
}

/// The size that a report gives on a platform.
pub open spec fn reported_size(platform: Platform, report: ScreenReport) -> (u32, u32) {
    match platform {
        Platform::Windows => (
            inject::at_least_one(report.width) as u32,
            inject::at_least_one(report.height) as u32,
        ),
        Platform::Linux => screen::geometry(
            report.set_w,
            report.set_h,
            match report.xrandr {
                Some(text) => screen::told_size(text@, 0),
                None => None,
            },
        ),
        Platform::Other => (1920, 1080),
    }
}

impl ScreenReport {
    /// Whether the desktop that a report gives can be handled on a platform.
    /// Only a Windows desktop has edges that could be too far away.
    pub open spec fn fits(self, platform: Platform) -> bool {
        platform == Platform::Windows ==> windows::span_fits(
            self.origin_x,
            inject::at_least_one(self.width),
        ) && windows::span_fits(self.origin_y, inject::at_least_one(self.height))
    }

    /// Tells whether a report can be handed to [`local_screen_geometry`] without
    /// harm to what follows.
    pub fn is_sane(&self, platform: Platform) -> (r: bool)
        ensures
            r == self.fits(platform),
    {
        platform != Platform::Windows || windows::desktop_fits(
            self.origin_x,
            self.origin_y,
            self.width,
            self.height,
        )
    }
}

/// Finds out the size of the local screen and keeps it.
pub fn local_screen_geometry(st: &mut InputState, report: &ScreenReport) -> (r: (u32, u32))
    ensures
        r == reported_size(old(st).platform, *report),
        *final(st) == match old(st).platform {
            Platform::Windows => InputState {
                win: windows::WindowsState {
                    origin_x: report.origin_x,
                    origin_y: report.origin_y,
                    screen_w: r.0 as i32,
                    screen_h: r.1 as i32,
                    ..old(st).win
                },
                ..*old(st)
            },
            Platform::Linux => InputState {
                linux: linux::LinuxState {
                    screen_w: r.0 as i32,
                    screen_h: r.1 as i32,
                    ..old(st).linux
                },
                ..*old(st)
            },
            Platform::Other => *old(st),
        },
        old(st).well_formed() && report.fits(old(st).platform) ==> final(st).well_formed(),
{
    match st.platform {
        Platform::Windows => windows::local_screen_geometry(
            &mut st.win,
            report.origin_x,
            report.origin_y,
            report.width,
            report.height,
        ),
        Platform::Linux => {
            let xrandr = match &report.xrandr {
                Some(text) => Some(text.as_str()),
                None => None,
            };
            screen::local_screen_geometry(&mut st.linux, report.set_w, report.set_h, xrandr)
        },
        Platform::Other => (1920, 1080),
    }
}

/// The protected game in the foreground, if any.
pub fn anticheat_warning(st: &InputState) -> (r: Option<String>)
    ensures
        match (r, st.anticheat_warning) {
            (Some(a), Some(b)) => a@ == b@,
            (None, None) => true,
            _ => false,
        },
{
    match &st.anticheat_warning {
        Some(name) => Some(name.clone()),
        None => None,
    }
}

pub fn is_input_locked(st: &InputState) -> (r: bool)
    ensures
        r == st.link.input_locked,
{
    st.link.input_locked
}

pub fn invert_scroll_x(st: &InputState) -> (r: bool)
    ensures
        r == st.tuning.invert_scroll_x,
{
    st.tuning.invert_scroll_x
}

pub fn invert_scroll_y(st: &InputState) -> (r: bool)
    ensures
        r == st.tuning.invert_scroll_y,
{
    st.tuning.invert_scroll_y
}

pub fn set_invert_scroll(st: &mut InputState, x: bool, y: bool)
    ensures
        *final(st) == (InputState {
            tuning: Tuning { invert_scroll_x: x, invert_scroll_y: y, ..old(st).tuning },
            ..*old(st)
        }),
{
    st.tuning.invert_scroll_x = x;
    st.tuning.invert_scroll_y = y;
}

pub fn auto_focus_on_take_control(st: &InputState) -> (r: bool)
    ensures
        r == st.tuning.auto_focus_on_take,
{
    st.tuning.auto_focus_on_take
}

pub fn set_auto_focus_on_take_control(st: &mut InputState, v: bool)
    ensures
        *final(st) == (InputState {
            tuning: Tuning { auto_focus_on_take: v, ..old(st).tuning },
            ..*old(st)
        }),
{
    st.tuning.auto_focus_on_take = v;
}

pub fn keys_forwarded(st: &InputState) -> (r: u64)
    ensures
        r == st.keys.keys_forwarded,
{
    st.keys.keys_forwarded
}

pub fn keys_injected(st: &InputState) -> (r: u64)
    ensures
        r == st.keys.keys_injected,
{
    st.keys.keys_injected
}

pub fn keyboard_target(st: &InputState) -> (r: KeyboardTarget)
    ensures
        r == st.keys.keyboard_target,
{
    st.keys.keyboard_target
}

pub fn peer_side(st: &InputState) -> (r: PeerSide)
    ensures
        r == st.link.peer_side,
{
    st.link.peer_side
}

pub fn peer_in_remote(st: &InputState) -> (r: bool)
    ensures
        r == st.link.peer_in_remote,
{
    st.link.peer_in_remote
}

/// From now on transitions are reported.
pub fn set_remote_event_sender(st: &mut InputState)
    ensures
        *final(st) == (InputState {
            link: Link { remote_listener: true, ..old(st).link },
            ..*old(st)
        }),
{
    st.link.remote_listener = true;
}

/// From now on nobody hears of transitions.
pub fn clear_remote_event_sender(st: &mut InputState)
    ensures
        *final(st) == (InputState {
            link: Link { remote_listener: false, ..old(st).link },
            ..*old(st)
        }),
{
    st.link.remote_listener = false;
}

/// Keeps the size of the peer's screen; nothing is smaller than one pixel. A
/// Linux machine needs its width alone.
pub fn set_peer_screen(st: &mut InputState, w: u32, h: u32)
    ensures
        *final(st) == match old(st).platform {
            Platform::Windows => InputState {
                win: windows::WindowsState {
                    peer_w: (if w >= 1 {
                        w
                    } else {
                        1
                    }) as i32,
                    peer_h: (if h >= 1 {
                        h
                    } else {
                        1
                    }) as i32,
                    ..old(st).win
                },
                ..*old(st)
            },
            Platform::Linux => InputState {
                linux: linux::LinuxState {
                    peer_w: (if w >= 1 {
                        w
                    } else {
                        1
                    }) as i32,
                    ..old(st).linux
                },
                ..*old(st)
            },
            Platform::Other => *old(st),
        },
{
    match st.platform {
        Platform::Windows => windows::set_peer_screen(&mut st.win, w, h),
        Platform::Linux => linux::set_peer_screen(&mut st.linux, w, h),
        Platform::Other => {},
    }
}

/// The state once the peer has taken control.
pub open spec fn taken_over(st: InputState, pushed: bool, cur: (i32, i32)) -> InputState {
    match st.platform {
        Platform::Windows => {
            let p = windows::taken_point(st.win, st.link.peer_side, cur);
            InputState {
                win: windows::WindowsState {
                    last_x: p.0 as i32,
                    last_y: p.1 as i32,
                    focus: windows::FocusHandoff { pending: false, key_pending: true },
                    ..st.win
                },
                ..st
            }
        },
        Platform::Linux => if pushed {
            InputState {
                linux: linux::LinuxState {
                    cursor_x: linux::slam(st.linux, st.link.peer_side).2 as i32,
                    cursor_y: linux::slam(st.linux, st.link.peer_side).3 as i32,
                    left_pressure: 0,
                    ..st.linux
                },
                ..st
            }
        } else {
            st
        },
        Platform::Other => st,
    }
}

pub open spec fn taken_over_effects(st: InputState, pushed: bool, cur: (i32, i32)) -> Seq<Effect> {
    match st.platform {
        Platform::Windows => {
            let p = windows::taken_point(st.win, st.link.peer_side, cur);
            when(
                !st.win.game_foreground,
                Effect::WarpCursor { x: p.0 as i32, y: p.1 as i32 },
            ) + seq![Effect::ActivateWindow]
        },
        Platform::Linux => when(pushed && st.tuning.auto_focus_on_take, Effect::ClickToFocus),
        Platform::Other => Seq::empty(),
    }
}

/// Puts the cursor where the peer's comes in. `pushed` tells whether a Linux
/// machine could push it to the edge, `cur` where it is on a Windows machine.
pub fn on_peer_take_control(
    st: &mut InputState,
    pushed: bool,
    cur: (i32, i32),
    out: &mut Vec<Effect>,
)
    requires
        old(st).well_formed(),
    ensures
        final(st).well_formed(),
        *final(st) == taken_over(*old(st), pushed, cur),
        final(out)@ == old(out)@ + taken_over_effects(*old(st), pushed, cur),
{
    match st.platform {
        Platform::Windows => {
            windows::on_peer_take_control(&st.link, &mut st.win, cur, out);
        },
        Platform::Linux => {
            linux::on_peer_take_control(&st.link, &st.tuning, &mut st.linux, pushed, out);
        },
        Platform::Other => {},
    }
    assert(out@ =~= old(out)@ + taken_over_effects(*old(st), pushed, cur));
}

/// A key whose press went to the peer stays with the peer until it is up:
/// whatever the state has become, as long as the key is still noted as held,
/// repeated presses and the release go there too. Keys past the table are not
/// noted.
pub proof fn a_release_follows_its_press(
    before: InputState,
    after: InputState,
    code: u16,
    remote_then: bool,
    then_ms: u64,
    down: bool,
    remote_now: bool,
    now_ms: u64,
)
    requires
        code < KEY_COUNT,
        keystroke_to_peer(before, code, true, remote_then, then_ms),
        after.keys.held() == held_after(
            before.keys.held(),
            InputEvent::Key { code: KeyCode(code), down: true },
            true,
        ),
    ensures
        keystroke_to_peer(after, code, down, remote_now, now_ms),
{
}

/// A release that stays here is one whose press stayed here: the peer never
/// sees half a keystroke.
pub proof fn no_release_without_a_press(st: InputState, code: u16, remote: bool, now_ms: u64)
    ensures
        keystroke_to_peer(st, code, false, remote, now_ms) <==> st.keys.held().keys.contains(
            code as int,
        ),
{
}

/// The same holds of buttons.
pub proof fn a_button_release_follows_its_press(keys: KeyRouting, btn: Button, remote: bool)
    ensures
        button_to_peer(keys, btn, false, remote) <==> keys.held().buttons.contains(btn),
        held_after(keys.held(), InputEvent::MouseButton { btn, down: true }, true).buttons.contains(
            btn,
        ),
        !held_after(keys.held(), InputEvent::MouseButton { btn, down: false }, true).buttons.contains(
            btn,
        ),
{
}

/// The hotkey for the keyboard target comes round after four presses.
pub proof fn keyboard_targets_come_round(t: KeyboardTarget)
    ensures
        next_target(next_target(next_target(next_target(t)))) == t,
        next_target(t) != t,
        next_target(next_target(t)) != t,
{
}

/// While a game is driven every fresh key goes to the peer, whatever the
/// keyboard target is.
pub proof fn driving_sends_every_key(st: InputState, code: u16, remote: bool, now_ms: u64)
    requires
        st.link.game_drive == GameDrive::Driving,
    ensures
        keystroke_to_peer(st, code, true, remote, now_ms),
        remembered_answer(st, remote, now_ms) == st.keys.last_smart_to_peer,
{
}

/// The smart target gives the same answer again and again while both sides are
/// idle and neither cursor is away.
pub proof fn two_idle_sides_change_nothing(st: InputState, now_ms: u64)
    requires
        st.link.game_drive != GameDrive::Driving,
        st.keys.keyboard_target == KeyboardTarget::Smart,
        !st.link.peer_in_remote,
        activity_age(st.activity.local_at(), now_ms) >= ACTIVITY_FRESH_MS,
        activity_age(st.activity.peer_activity_at, now_ms) >= ACTIVITY_FRESH_MS,
    ensures
        keys_to_peer(st, false, now_ms) == st.keys.last_smart_to_peer,
        remembered_answer(st, false, now_ms) == st.keys.last_smart_to_peer,
{
}

/// The rate that is shown is the one that was set, moved into its range: that it
/// is kept in whole microseconds loses nothing.
pub proof fn the_set_rate_is_shown(hz: u32)
    ensures
        ({
            let rate = arith::clamp(hz as int, MIN_MOUSE_RATE_HZ as int, MAX_MOUSE_RATE_HZ as int);
            1_000_000int / (1_000_000int / rate) == rate && 1_000_000int / rate >= 1
        }),
{
    let rate = arith::clamp(hz as int, MIN_MOUSE_RATE_HZ as int, MAX_MOUSE_RATE_HZ as int);
    assert(60 <= rate <= 1_000);
    let us = 1_000_000int / rate;
    assert(us >= 1_000 && us * rate <= 1_000_000 && 1_000_000 < us * rate + us) by (nonlinear_arith)
        requires
            60 <= rate <= 1_000,
            us == 1_000_000int / rate,
    ;
    assert(1_000_000int / us == rate) by (nonlinear_arith)
        requires
            us >= 1_000,
            us * rate <= 1_000_000,
            1_000_000 < us * rate + us,
    ;
}

/// The counts of motion packets that were sent and of motions that were
/// injected.
pub open spec fn motion_counts(st: InputState) -> (u64, u64) {
    (st.win.motion.sent, st.inj_events)
}

/// Whether a step leaves the counts of motion and the rate alone.
pub open spec fn uncounted(pre: InputState, post: InputState) -> bool {
    motion_counts(post) == motion_counts(pre) && post.tuning == pre.tuning
}

/// Whether a count has not gone down, and by one went up at most. After the
/// largest number it starts again at zero, which no machine lives to see.
pub open spec fn count_kept(before: u64, after: u64) -> bool {
    before < u64::MAX ==> before <= after <= before + 1
}

/// Under the smart target the side that was used last has the keyboard, as long
/// as one of them was used not long ago and neither cursor is away.
pub proof fn the_side_used_last_has_the_keyboard(st: InputState, now_ms: u64)
    requires
        st.link.game_drive != GameDrive::Driving,
        st.keys.keyboard_target == KeyboardTarget::Smart,
        !st.link.peer_in_remote,
        activity_age(st.activity.local_at(), now_ms) < ACTIVITY_FRESH_MS || activity_age(
            st.activity.peer_activity_at,
            now_ms,
        ) < ACTIVITY_FRESH_MS,
    ensures
        keys_to_peer(st, false, now_ms) <==> activity_age(st.activity.peer_activity_at, now_ms)
            < activity_age(st.activity.local_at(), now_ms),
{
}

/// A click on this machine brings the keyboard back from a peer whose screen
/// the cursor is not on.
pub proof fn a_local_click_takes_the_keyboard(st: InputState, now_ms: u64)
    requires
        st.link.game_drive != GameDrive::Driving,
        st.keys.keyboard_target == KeyboardTarget::Smart,
        now_ms > 0,
    ensures
        ({
            let clicked = InputState {
                activity: Activity { local_click_at: now_ms, ..st.activity },
                ..st
            };
            !keys_to_peer(clicked, false, now_ms) && !remembered_answer(clicked, false, now_ms)
        }),
{
}

/// A fresh key goes where the user has set it to go: to the peer while a game is
/// driven or the peer is forced, nowhere else while this machine is forced, after
/// the cursor under the automatic target. Under the smart target it goes after a
/// cursor that is away, and else to the side that was used last, as long as one
/// was used within the last ten seconds.
pub proof fn keys_follow_the_target(
    st: &mut InputState,
    remote: bool,
    now_ms: u64,
    r: bool,
)
    requires
        call_ensures(should_forward_keys, (st, remote, now_ms), r),
        old(st).activity.local_mouse_at <= now_ms,
        old(st).activity.local_click_at <= now_ms,
        old(st).activity.peer_activity_at <= now_ms,
        now_ms > 20_000,
    ensures
        ({
            let (l, a, k) = (old(st).link, old(st).activity, old(st).keys);
            let here = if a.local_mouse_at >= a.local_click_at {
                a.local_mouse_at
            } else {
                a.local_click_at
            };
            let there = a.peer_activity_at;
            let smart = k.keyboard_target == KeyboardTarget::Smart && l.game_drive
                != GameDrive::Driving;
            &&& l.game_drive == GameDrive::Driving ==> r
            &&& l.game_drive != GameDrive::Driving && k.keyboard_target == KeyboardTarget::ForcePeer
                ==> r
            &&& l.game_drive != GameDrive::Driving && k.keyboard_target
                == KeyboardTarget::ForceLocal ==> !r
            &&& l.game_drive != GameDrive::Driving && k.keyboard_target == KeyboardTarget::Auto
                ==> r == remote
            &&& smart && remote ==> r
            &&& smart && !remote && l.peer_in_remote ==> !r
            &&& smart && !remote && !l.peer_in_remote && now_ms - there < 10_000 && there > here
                ==> r
            &&& smart && !remote && !l.peer_in_remote && now_ms - here < 10_000 && here >= there
                ==> !r
            &&& smart && !remote && !l.peer_in_remote && now_ms - here >= 10_000 && now_ms - there
                >= 10_000 ==> r == k.last_smart_to_peer
            &&& smart ==> final(st).keys.last_smart_to_peer == r
            &&& !smart ==> final(st).keys.last_smart_to_peer == k.last_smart_to_peer
        }),
        final(st).link == old(st).link,
        final(st).activity == old(st).activity,
        final(st).keys.keyboard_target == old(st).keys.keyboard_target,
{
}

/// The peer sees whole keystrokes or none: the release of a key goes where its
/// press went, whatever was set or used in between.
pub proof fn a_keystroke_goes_to_one_machine(
    st: (&mut InputState, &mut InputState),
    code: u16,
    remote: (bool, bool),
    now_ms: (u64, u64),
    r: (bool, bool),
)
    requires
        code < 1_024,
        !old(st.0).keys.held().keys.contains(code as int),
        call_ensures(route_keystroke, (st.0, code, true, remote.0, now_ms.0), r.0),
        old(st.1).keys.held() == final(st.0).keys.held(),
        call_ensures(route_keystroke, (st.1, code, false, remote.1, now_ms.1), r.1),
    ensures
        r.1 == r.0,
        final(st.1).keys.held() == old(st.0).keys.held(),
{
    assert(final(st.1).keys.held().keys =~= old(st.0).keys.held().keys);
    assert(final(st.1).keys.held().buttons =~= old(st.0).keys.held().buttons);
}

/// A fresh press goes where a key would go at that moment, a repeated one where
/// the first went, and the release of a key that is not held on the peer stays.
pub proof fn a_press_is_routed_once(
    st: (&mut InputState, &mut InputState),
    code: u16,
    down: bool,
    remote: bool,
    now_ms: u64,
    r: (bool, bool),
)
    requires
        call_ensures(route_keystroke, (st.0, code, down, remote, now_ms), r.0),
        *old(st.1) == *old(st.0),
        call_ensures(should_forward_keys, (st.1, remote, now_ms), r.1),
    ensures
        old(st.0).keys.held().keys.contains(code as int) ==> r.0,
        !old(st.0).keys.held().keys.contains(code as int) && down ==> r.0 == r.1,
        !old(st.0).keys.held().keys.contains(code as int) && !down ==> !r.0,
        final(st.0).link == old(st.0).link,
        final(st.0).keys.keyboard_target == old(st.0).keys.keyboard_target,
        r.0 && down && code < 1_024 ==> final(st.0).keys.held().keys.contains(code as int),
        r.0 && !down && code < 1_024 ==> !final(st.0).keys.held().keys.contains(code as int),
{
}

/// A mouse button goes where the cursor is, and its release where its press went.
pub proof fn a_click_goes_to_one_machine(
    keys: (&mut KeyRouting, &mut KeyRouting),
    btn: Button,
    remote: (bool, bool),
    r: (bool, bool),
)
    requires
        !old(keys.0).held().buttons.contains(btn),
        call_ensures(route_mouse_button, (keys.0, btn, true, remote.0), r.0),
        old(keys.1).held() == final(keys.0).held(),
        call_ensures(route_mouse_button, (keys.1, btn, false, remote.1), r.1),
    ensures
        r.0 == remote.0,
        r.1 == r.0,
        final(keys.1).held().buttons == old(keys.0).held().buttons,
{
    assert(final(keys.1).held().buttons =~= old(keys.0).held().buttons);
}

/// The hotkey goes from the smart target to the peer, to this machine, to the
/// automatic target and round again.
pub proof fn targets_come_in_their_order(keys: &mut KeyRouting)
    requires
        call_ensures(cycle_keyboard_target, (keys,), ()),
    ensures
        match old(keys).keyboard_target {
            KeyboardTarget::Smart => final(keys).keyboard_target == KeyboardTarget::ForcePeer,
            KeyboardTarget::ForcePeer => final(keys).keyboard_target == KeyboardTarget::ForceLocal,
            KeyboardTarget::ForceLocal => final(keys).keyboard_target == KeyboardTarget::Auto,
            KeyboardTarget::Auto => final(keys).keyboard_target == KeyboardTarget::Smart,
        },
{
}

/// A nudge of the mouse is no activity, and a drag of an eighth of a second is:
/// motion without a pause of more than a quarter of a second counts from 120
/// milliseconds on.
pub proof fn a_drag_counts_and_a_nudge_does_not(
    a: (&mut Activity, &mut Activity),
    at: (u64, u64),
)
    requires
        0 < at.0 <= at.1,
        old(a.0).last_motion_at + 250 < at.0,
        call_ensures(bump_local_mouse_activity, (a.0, at.0), ()),
        *old(a.1) == *final(a.0),
        call_ensures(bump_local_mouse_activity, (a.1, at.1), ()),
    ensures
        final(a.0).local_mouse_at == old(a.0).local_mouse_at,
        at.1 - at.0 < 120 ==> final(a.1).local_mouse_at == old(a.0).local_mouse_at,
        120 <= at.1 - at.0 <= 250 ==> final(a.1).local_mouse_at == at.1,
        at.1 - at.0 > 250 ==> final(a.1).local_mouse_at == old(a.0).local_mouse_at,
        final(a.1).local_click_at == old(a.0).local_click_at,
        final(a.1).peer_activity_at == old(a.0).peer_activity_at,
{
}

/// A click is an activity at once.
pub proof fn a_click_counts(a: &mut Activity, now_ms: u64)
    requires
        call_ensures(bump_local_click, (a, now_ms), ()),
    ensures
        final(a).local_click_at == now_ms,
        final(a).local_mouse_at == old(a).local_mouse_at,
        final(a).peer_activity_at == old(a).peer_activity_at,
{
}

/// The peer is told how long ago this machine was used, a minute at most, and
/// nothing where it never was; what it is told is when the peer was used, on its
/// own clock.
pub proof fn the_peer_hears_of_activity(
    st: &InputState,
    peer: &mut InputState,
    now_ms: (u64, u64),
    age: u32,
)
    requires
        call_ensures(local_input_age_ms, (st, now_ms.0), Some(age)),
        st.activity.local_mouse_at <= now_ms.0,
        st.activity.local_click_at <= now_ms.0,
        call_ensures(note_peer_activity, (peer, age, now_ms.1), ()),
        now_ms.1 >= 60_000,
    ensures
        ({
            let last = if st.activity.local_mouse_at >= st.activity.local_click_at {
                st.activity.local_mouse_at
            } else {
                st.activity.local_click_at
            };
            &&& last > 0
            &&& now_ms.0 - last <= 60_000 ==> age == now_ms.0 - last
            &&& now_ms.0 - last > 60_000 ==> age == 60_000
        }),
        final(peer).activity.peer_activity_at + age == now_ms.1,
        final(peer).activity.local_mouse_at == old(peer).activity.local_mouse_at,
{
}

/// A machine that was never used tells nothing.
pub proof fn an_unused_machine_tells_nothing(st: &InputState, now_ms: u64, r: Option<u32>)
    requires
        call_ensures(local_input_age_ms, (st, now_ms), r),
    ensures
        r is None <==> st.activity.local_mouse_at == 0 && st.activity.local_click_at == 0,
{
}

/// A lock takes hold at once: the mouse comes home and the peer hears of it.
/// Freeing the input moves nothing.
pub proof fn a_lock_brings_the_mouse_home(st: &mut InputState, v: bool, out: &mut Vec<Effect>)
    requires
        call_ensures(set_input_locked, (st, v, out), ()),
    ensures
        final(st).link.input_locked == v,
        v && !old(st).link.input_locked && old(st).platform == Platform::Linux ==> final(st).linux.mode == CursorMode::Local,
        v && !old(st).link.input_locked && old(st).platform == Platform::Windows ==> final(st).win.mode == CursorMode::Local,
        v && !old(st).link.input_locked && old(st).platform == Platform::Linux && old(st).linux.mode
            == CursorMode::Remote && old(st).link.remote_listener ==> final(out)@ == old(out)@.push(
            Effect::Remote(RemoteEvent::Exited),
        ),
        !v ==> final(st).linux == old(st).linux && final(st).win.mode == old(st).win.mode && final(out)@ == old(out)@,
        final(st).link.peer_in_remote == old(st).link.peer_in_remote,
        final(st).link.game_drive == old(st).link.game_drive,
        final(st).keys == old(st).keys,
{
    let told = Effect::Remote(RemoteEvent::Exited);
    assert(old(out)@.push(told) =~= old(out)@ + seq![told]);
}

/// Driving a game is switched on and off again by the same hotkey, the peer is
/// told of both, and the cursor is at home when it begins.
pub proof fn game_drive_goes_on_and_off(
    st: (&mut InputState, &mut InputState),
    out: (&mut Vec<Effect>, &mut Vec<Effect>),
)
    requires
        call_ensures(toggle_game_drive, (st.0, out.0), ()),
        *old(st.1) == *final(st.0),
        call_ensures(toggle_game_drive, (st.1, out.1), ()),
        old(st.0).link.remote_listener,
    ensures
        old(st.0).link.game_drive == GameDrive::Off ==> {
            &&& final(st.0).link.game_drive == GameDrive::Driving
            &&& final(out.0)@.last() == Effect::Remote(RemoteEvent::GameDriveStart)
            &&& final(st.1).link.game_drive == GameDrive::Off
            &&& final(out.1)@.last() == Effect::Remote(RemoteEvent::GameDriveStop)
            &&& old(st.0).platform == Platform::Linux ==> final(st.0).linux.mode
                == CursorMode::Local
            &&& old(st.0).platform == Platform::Windows ==> final(st.0).win.mode
                == CursorMode::Local
        },
        old(st.0).link.game_drive != GameDrive::Off ==> final(st.0).link.game_drive
            == GameDrive::Off && final(out.0)@.last() == Effect::Remote(RemoteEvent::GameDriveStop),
{
}

/// A rate is moved into the range from 60 to 1000 packets in a second, and the
/// interval is a second divided by it.
pub proof fn rates_are_kept_in_their_range(hz: u32, r: u64)
    requires
        call_ensures(hz_to_flush_us, (hz,), r),
    ensures
        hz <= 60 ==> r == 16_666,
        hz >= 1_000 ==> r == 1_000,
        60 <= hz <= 1_000 ==> r * hz <= 1_000_000 < (r + 1) * hz,
{
    let rate = arith::clamp(hz as int, 60, 1_000);
    assert(r == 1_000_000int / rate);
    if hz <= 60 {
        assert(rate == 60);
        assert(1_000_000int / 60 == 16_666);
    }
    if hz >= 1_000 {
        assert(rate == 1_000);
        assert(1_000_000int / 1_000 == 1_000);
    }
    if 60 <= hz <= 1_000 {
        let q = 1_000_000int / (hz as int);
        assert(q * hz <= 1_000_000 < (q + 1) * hz) by (nonlinear_arith)
            requires
                60 <= hz <= 1_000,
                q == 1_000_000int / (hz as int),
        ;
    }
}

/// The side that is set is the side that counts, and nothing collected at another
/// edge counts there.
pub proof fn the_side_that_is_set_counts(st: &mut InputState, side: PeerSide)
    requires
        call_ensures(set_peer_side, (st, side), ()),
    ensures
        final(st).link.peer_side == side,
        old(st).platform == Platform::Linux && side != old(st).link.peer_side ==> final(st).linux.left_pressure == 0,
        side == old(st).link.peer_side ==> *final(st) == *old(st),
        final(st).win == old(st).win,
        final(st).linux.mode == old(st).linux.mode,
{
}

/// A peer that takes over this machine keeps the keyboard here.
pub proof fn a_driving_peer_keeps_the_keyboard_here(st: &mut InputState, v: bool)
    requires
        call_ensures(set_peer_in_remote, (st, v), ()),
    ensures
        final(st).link.peer_in_remote == v,
        v ==> !final(st).keys.last_smart_to_peer,
        !v ==> final(st).keys.last_smart_to_peer == old(st).keys.last_smart_to_peer,
        final(st).keys.keyboard_target == old(st).keys.keyboard_target,
{
}

/// A touchpad is passed on natively exactly where this machine can capture its
/// frames and the peer can replay them.
pub proof fn a_touchpad_needs_both_ends(local: u32, peer: u32, r: bool)
    requires
        call_ensures(native_touchpad_pair_available, (local, peer), r),
    ensures
        r <==> local & 1 != 0 && peer & 4 != 0,
{
}

/// A setting is what it was set to.
pub proof fn settings_of_the_input_are_kept(
    st: (&mut InputState, &mut InputState),
    x: bool,
    y: bool,
    v: bool,
    r: (bool, bool, bool),
)
    requires
        call_ensures(set_invert_scroll, (st.0, x, y), ()),
        *old(st.1) == *final(st.0),
        call_ensures(set_auto_focus_on_take_control, (st.1, v), ()),
        call_ensures(invert_scroll_x, (&*final(st.1),), r.0),
        call_ensures(invert_scroll_y, (&*final(st.1),), r.1),
        call_ensures(auto_focus_on_take_control, (&*final(st.1),), r.2),
    ensures
        r == (x, y, v),
{
}

/// The peer hears of transitions exactly while a session listens.
pub proof fn transitions_are_told_while_a_session_listens(
    link: &Link,
    ev: RemoteEvent,
    out: &mut Vec<Effect>,
)
    requires
        call_ensures(fire_remote_event, (link, ev, out), ()),
    ensures
        link.remote_listener ==> final(out)@ == old(out)@.push(Effect::Remote(ev)),
        !link.remote_listener ==> final(out)@ == old(out)@,
{
    assert(old(out)@.push(Effect::Remote(ev)) =~= old(out)@ + seq![Effect::Remote(ev)]);
    assert(old(out)@ + Seq::<Effect>::empty() =~= old(out)@);
}

/// Where the peer's cursor comes in, this machine's is put, at the edge that the
/// peer is on; a game that owns the cursor keeps it.
pub proof fn the_cursor_comes_in_at_the_shared_edge(
    st: &mut InputState,
    pushed: bool,
    cur: (i32, i32),
    out: &mut Vec<Effect>,
)
    requires
        call_ensures(on_peer_take_control, (st, pushed, cur, out), ()),
        old(st).platform == Platform::Windows,
        old(st).well_formed(),
        old(st).win.screen_w > 16,
        old(st).win.screen_h > 16,
    ensures
        ({
            let w = old(st).win;
            let (left, top) = (w.origin_x as int, w.origin_y as int);
            let (right, bottom) = (left + w.screen_w - 1, top + w.screen_h - 1);
            let (x, y) = (final(st).win.last_x, final(st).win.last_y);
            if w.game_foreground {
                (x, y) == cur && final(out)@ == old(out)@.push(Effect::ActivateWindow)
            } else {
                &&& final(out)@ == old(out)@.push(Effect::WarpCursor { x, y }).push(
                    Effect::ActivateWindow,
                )
                &&& left <= x <= right && top <= y <= bottom
                &&& old(st).link.peer_side == PeerSide::Left ==> x - left <= 16
                &&& old(st).link.peer_side == PeerSide::Right ==> right - x <= 16
                &&& old(st).link.peer_side == PeerSide::Top ==> y - top <= 16
                &&& old(st).link.peer_side == PeerSide::Bottom ==> bottom - y <= 16
            }
        }),
        final(st).win.focus.key_pending,
{
    let (x, y) = (final(st).win.last_x, final(st).win.last_y);
    let none = Seq::<Effect>::empty();
    assert(old(out)@.push(Effect::ActivateWindow) =~= old(out)@ + (none + seq![
        Effect::ActivateWindow,
    ]));
    assert(old(out)@.push(Effect::WarpCursor { x, y }).push(Effect::ActivateWindow) =~= old(out)@ + (
    seq![Effect::WarpCursor { x, y }] + seq![Effect::ActivateWindow]));
}

/// A machine that has just started is in use by nobody else: the cursor is here,
/// nothing is locked, driven, held or waiting, no peer is known, and keys go where
/// they are used.
pub proof fn a_machine_starts_at_home(platform: Platform, st: InputState)
    requires
        call_ensures(InputState::new, (platform,), st),
    ensures
        st.platform == platform,
        st.linux.mode == CursorMode::Local && st.win.mode == CursorMode::Local,
        !st.link.peer_in_remote && !st.link.input_locked && !st.link.remote_listener,
        st.link.game_drive == GameDrive::Off,
        st.keys.keyboard_target == KeyboardTarget::Smart && !st.keys.last_smart_to_peer,
        st.activity.local_mouse_at == 0 && st.activity.local_click_at == 0
            && st.activity.peer_activity_at == 0,
        !st.linux.mod_ctrl && !st.linux.mod_alt && !st.win.mod_ctrl && !st.win.mod_alt,
        st.linux.pending_dx == 0 && st.linux.pending_dy == 0,
        st.win.motion.pending_dx == 0 && st.win.motion.pending_dy == 0 && !st.win.motion.watchdog,
        st.win.hide_calls == 0 && !st.win.auto_engaged && !st.win.game_foreground,
        !st.touch.capture_requested && !st.touch.capture_enabled && !st.touch.keyboard_suspended,
        st.linux.fwd_count == 0 && st.keys.keys_forwarded == 0 && st.keys.keys_injected == 0,
{
}

/// A new session starts without what the last one had found out about the peer, and
/// a touchpad that a held key had suspended is free again; the use of this machine
/// is not forgotten.
pub proof fn a_new_session_remembers_nothing_of_the_peer(st: &mut InputState, out: &mut Vec<Effect>)
    requires
        call_ensures(reset_smart_decision, (st, out), ()),
    ensures
        final(st).activity.peer_activity_at == 0,
        !final(st).keys.last_smart_to_peer,
        final(st).activity.local_mouse_at == old(st).activity.local_mouse_at,
        final(st).activity.local_click_at == old(st).activity.local_click_at,
        final(st).keys.keyboard_target == old(st).keys.keyboard_target,
        final(st).link == old(st).link,
        old(st).platform != Platform::Windows ==> final(out)@ == old(out)@ && final(st).touch
            == old(st).touch,
        old(st).platform == Platform::Windows ==> !final(st).touch.keyboard_suspended,
        old(st).platform == Platform::Windows && old(st).touch.keyboard_suspended && old(st).touch.capture_requested && old(st).touch.has_window ==> final(out)@ == old(out)@.push(
            Effect::ResumeCapture,
        ),
        !old(st).touch.keyboard_suspended ==> final(out)@ == old(out)@,
{
    assert(old(out)@.push(Effect::ResumeCapture) =~= old(out)@ + seq![Effect::ResumeCapture]);
    assert(old(out)@ + Seq::<Effect>::empty() =~= old(out)@);
}

} // verus!
