//! The foreground window that takes the local touchpad while the cursor is on
//! the peer's screen.

use crate::input::capture::{self, CaptureState};
use crate::input::events::{InputEvent, TouchpadContact, TouchpadEvent};
use crate::input::touchpad::{
    keyboard_capture_action, should_enable_native_capture, InjectionState, KeyboardCaptureAction,
    LegacyPassthroughTracker, ModifierPair,
};
use crate::input::{
    Effect, TOUCHPAD_CAP_ACTION_CAPTURE, TOUCHPAD_CAP_ACTION_INJECT, TOUCHPAD_CAP_FRAME_CAPTURE,
    TOUCHPAD_CAP_FRAME_INJECT,
};
use vstd::prelude::*;

verus! {

/// The keys that count as held, and those whose press was sent to the peer.
#[derive(Debug, Clone, Copy, PartialEq, Eq, Structural)]
pub struct KeyLatches {
    pub legacy_alt_held: bool,
    pub async_tab_forwarded: bool,
    pub raw_alt_held: bool,
    pub legacy_shift_held: ModifierPair,
    pub legacy_meta_held: ModifierPair,
    pub async_meta_forwarded: ModifierPair,
    pub async_s_forwarded: bool,
}

impl KeyLatches {
    /// No key is held.
    pub open spec fn clear(self) -> bool {
        &&& !self.legacy_alt_held
        &&& !self.raw_alt_held
        &&& !self.async_tab_forwarded
        &&& self.legacy_shift_held.none()
        &&& self.legacy_meta_held.none()
        &&& self.async_meta_forwarded.none()
        &&& !self.async_s_forwarded
    }

    pub fn released() -> (r: Self)
        ensures
            r.clear(),
    {
        let off = ModifierPair { left: false, right: false };
        KeyLatches {
            legacy_alt_held: false,
            async_tab_forwarded: false,
            raw_alt_held: false,
            legacy_shift_held: off,
            legacy_meta_held: off,
            async_meta_forwarded: off,
            async_s_forwarded: false,
        }
    }

    /// Whether no modifier that suspends the capture is held.
    pub open spec fn modifiers_free(self) -> bool {
        self.legacy_shift_held.none() && self.legacy_meta_held.none() && !self.legacy_alt_held
    }

    /// The latches after a key edge was sent to the peer.
    pub open spec fn after(self, code: u16, down: bool) -> KeyLatches {
        match code {
            15 => KeyLatches { async_tab_forwarded: down, ..self },
            31 => KeyLatches { async_s_forwarded: down, ..self },
            42 => KeyLatches {
                legacy_shift_held: ModifierPair { left: down, ..self.legacy_shift_held },
                ..self
            },
            54 => KeyLatches {
                legacy_shift_held: ModifierPair { right: down, ..self.legacy_shift_held },
                ..self
            },
            56 => KeyLatches { legacy_alt_held: down, ..self },
            100 => KeyLatches { legacy_alt_held: down, ..self },
            125 => KeyLatches {
                legacy_meta_held: ModifierPair { left: down, ..self.legacy_meta_held },
                async_meta_forwarded: ModifierPair { left: down, ..self.async_meta_forwarded },
                ..self
            },
            126 => KeyLatches {
                legacy_meta_held: ModifierPair { right: down, ..self.legacy_meta_held },
                async_meta_forwarded: ModifierPair { right: down, ..self.async_meta_forwarded },
                ..self
            },
            _ => self,
        }
    }

    /// Notes a key edge that was sent to the peer.
    pub fn note(&mut self, code: u16, down: bool)
        ensures
            *final(self) == old(self).after(code, down),
    {
        if code == 15 {
            self.async_tab_forwarded = down;
        } else if code == 31 {
            self.async_s_forwarded = down;
        } else if code == 42 {
            self.legacy_shift_held.left = down;
        } else if code == 54 {
            self.legacy_shift_held.right = down;
        } else if code == 56 || code == 100 {
            self.legacy_alt_held = down;
        } else if code == 125 {
            self.legacy_meta_held.left = down;
            self.async_meta_forwarded.left = down;
        } else if code == 126 {
            self.legacy_meta_held.right = down;
            self.async_meta_forwarded.right = down;
        }
    }

    fn no_keyboard_capture_modifiers_held(&self) -> (r: bool)
        ensures
            r == self.modifiers_free(),
    {
        !self.legacy_shift_held.left && !self.legacy_shift_held.right && !self.legacy_meta_held.left
            && !self.legacy_meta_held.right && !self.legacy_alt_held
    }
}

/// What the touchpad code remembers.
pub struct TouchpadState {
    /// Whether frames and gestures can be captured here.
    pub frame_capture: bool,
    pub action_capture: bool,
    /// Whether a synthetic touchpad can be made here.
    pub injection_ready: bool,
    pub capture_requested: bool,
    pub capture_enabled: bool,
    /// Whether held modifiers suspend the capture.
    pub keyboard_suspended: bool,
    pub focus_pending_logged: bool,
    pub setup_complete: bool,
    pub latches: KeyLatches,
    pub raw_keyboard_available: bool,
    /// Whether the capture window and the gesture controller exist.
    pub has_window: bool,
    pub has_controller: bool,
    pub anchor_x: i32,
    pub anchor_y: i32,
    /// The window that had the foreground before; 0 is none.
    pub previous_foreground: i64,
    pub passthrough: LegacyPassthroughTracker,
    pub capture: CaptureState,
    pub injection: InjectionState,
}

/// The capability bits of a machine that can do what the flags say.
pub open spec fn capability_bits(
    frame_capture: bool,
    action_capture: bool,
    injection_ready: bool,
) -> int {
    (if frame_capture {
        1int
    } else {
        0
    }) + (if action_capture {
        2int
    } else {
        0
    }) + (if injection_ready {
        12int
    } else {
        0
    })
}

/// Whether a capability word holds a bit.
pub open spec fn has_cap(caps: u32, bit: u32) -> bool {
    caps & bit != 0
}

impl TouchpadState {
    pub open spec fn well_formed(self) -> bool {
        self.capture.well_formed() && self.injection.well_formed()
    }

    /// Nothing was set up, asked for, touched or pressed yet.
    pub open spec fn at_start(self) -> bool {
        &&& !self.frame_capture && !self.action_capture && !self.injection_ready
        &&& !self.capture_requested && !self.capture_enabled && !self.keyboard_suspended
        &&& !self.focus_pending_logged && !self.setup_complete
        &&& self.latches_clear()
        &&& !self.raw_keyboard_available
        &&& !self.has_window && !self.has_controller
        &&& self.anchor_x == 0 && self.anchor_y == 0
        &&& self.previous_foreground == 0
        &&& self.capture.at_start()
        &&& self.injection.idle()
    }

    pub fn new() -> (r: Self)
        ensures
            r.well_formed(),
            r.at_start(),
    {
        TouchpadState {
            frame_capture: false,
            action_capture: false,
            injection_ready: false,
            capture_requested: false,
            capture_enabled: false,
            keyboard_suspended: false,
            focus_pending_logged: false,
            setup_complete: false,
            latches: KeyLatches::released(),
            raw_keyboard_available: false,
            has_window: false,
            has_controller: false,
            anchor_x: 0,
            anchor_y: 0,
            previous_foreground: 0,
            passthrough: LegacyPassthroughTracker::default(),
            capture: CaptureState::new(),
            injection: InjectionState::new(),
        }
    }

    /// No key counts as sent to the peer.
    pub open spec fn latches_clear(self) -> bool {
        &&& self.latches.clear()
        &&& self.passthrough@ == Set::<(u32, bool)>::empty()
    }

    /// Whether frames and gestures of this machine can be injected by a peer
    /// with these capabilities.
    pub open spec fn frames_route(self, peer: u32) -> bool {
        self.frame_capture && has_cap(peer, TOUCHPAD_CAP_FRAME_INJECT)
    }

    pub open spec fn actions_route(self, peer: u32) -> bool {
        self.action_capture && has_cap(peer, TOUCHPAD_CAP_ACTION_INJECT)
    }

    /// The capability bits that are announced to the peer.
    pub fn capabilities(&self) -> (r: u32)
        ensures
            r == capability_bits(self.frame_capture, self.action_capture, self.injection_ready),
    {
        let mut caps: u32 = 0;
        if self.frame_capture {
            caps = caps + TOUCHPAD_CAP_FRAME_CAPTURE;
        }
        if self.action_capture {
            caps = caps + TOUCHPAD_CAP_ACTION_CAPTURE;
        }
        if self.injection_ready {
            caps = caps + TOUCHPAD_CAP_FRAME_INJECT + TOUCHPAD_CAP_ACTION_INJECT;
        }
        caps
    }

    /// Notes what the start-up of the capture brought; fails if neither kind
    /// of capture is there.
    pub fn setup_capture(&mut self, window: bool, controller: bool) -> (ready: bool)
        ensures
            ready == (window || controller),
            *final(self) == (TouchpadState {
                has_window: old(self).has_window || window,
                frame_capture: old(self).frame_capture || window,
                has_controller: old(self).has_controller || controller,
                action_capture: old(self).action_capture || controller,
                setup_complete: true,
                ..*old(self)
            }),
    {
        if window {
            self.has_window = true;
            self.frame_capture = true;
        }
        if controller {
            self.has_controller = true;
            self.action_capture = true;
        }
        self.setup_complete = true;
        window || controller
    }
}

pub fn set_capture_anchor(ts: &mut TouchpadState, x: i32, y: i32)
    ensures
        *final(ts) == (TouchpadState { anchor_x: x, anchor_y: y, ..*old(ts) }),
{
    ts.anchor_x = x;
    ts.anchor_y = y;
}

pub fn set_raw_keyboard_available(ts: &mut TouchpadState, available: bool)
    ensures
        *final(ts) == (TouchpadState { raw_keyboard_available: available, ..*old(ts) }),
{
    ts.raw_keyboard_available = available;
}

/// The effects of asking for, or giving up, the touchpad.
pub open spec fn request_effects(ts: TouchpadState, requested: bool) -> Seq<Effect> {
    if ts.has_window {
        seq![Effect::RouteCapture(requested)]
    } else if ts.has_controller {
        seq![Effect::SetGestureController(false)]
    } else {
        Seq::empty()
    }
}

/// The state after asking for, or giving up, the touchpad. Giving it up ends
/// a suspension; without a capture window nothing can be captured.
pub open spec fn requested_state(ts: TouchpadState, requested: bool) -> TouchpadState {
    TouchpadState {
        capture_requested: requested,
        keyboard_suspended: ts.keyboard_suspended && requested,
        capture_enabled: ts.capture_enabled && ts.has_window,
        ..ts
    }
}

/// Asks for, or gives up, the touchpad.
pub fn set_capture_active(ts: &mut TouchpadState, requested: bool, out: &mut Vec<Effect>)
    ensures
        *final(ts) == requested_state(*old(ts), requested),
        final(out)@ == old(out)@ + request_effects(*old(ts), requested),
{
    ts.capture_requested = requested;
    if !requested {
        ts.keyboard_suspended = false;
    }
    if !ts.has_window {
        ts.capture_enabled = false;
        if ts.has_controller {
            out.push(Effect::SetGestureController(false));
        }
        assert(out@ =~= old(out)@ + request_effects(*old(ts), requested));
        return ;
    }
    out.push(Effect::RouteCapture(requested));
    assert(out@ =~= old(out)@ + request_effects(*old(ts), requested));
}

/// A message for the capture window, if there is one.
pub open spec fn control_effects(ts: TouchpadState, message: Effect) -> Seq<Effect> {
    if ts.has_window {
        seq![message]
    } else {
        Seq::empty()
    }
}

fn post_capture_control(ts: &TouchpadState, message: Effect, out: &mut Vec<Effect>)
    ensures
        final(out)@ == old(out)@ + control_effects(*ts, message),
{
    if ts.has_window {
        out.push(message);
    }
    assert(out@ =~= old(out)@ + control_effects(*ts, message));
}

/// Forgets every key that counts as sent to the peer, and ends a suspension
/// that held keys caused.
pub fn reset_forwarded_keyboard_latches(ts: &mut TouchpadState, out: &mut Vec<Effect>)
    ensures
        final(ts).latches_clear(),
        !final(ts).keyboard_suspended,
        *final(ts) == (TouchpadState {
            latches: final(ts).latches,
            passthrough: final(ts).passthrough,
            keyboard_suspended: false,
            ..*old(ts)
        }),
        final(out)@ == old(out)@ + if old(ts).keyboard_suspended && old(ts).capture_requested {
            control_effects(*old(ts), Effect::ResumeCapture)
        } else {
            Seq::empty()
        },
{
    ts.latches = KeyLatches::released();
    ts.passthrough.clear();
    let was_suspended = ts.keyboard_suspended;
    ts.keyboard_suspended = false;
    if was_suspended && ts.capture_requested {
        post_capture_control(ts, Effect::ResumeCapture, out);
    }
    assert(out@ =~= old(out)@ + if old(ts).keyboard_suspended && old(ts).capture_requested {
        control_effects(*old(ts), Effect::ResumeCapture)
    } else {
        Seq::empty()
    });
}

/// Whether the capture is suspended once a key edge was sent.
pub open spec fn suspended_after(ts: TouchpadState, code: u16, down: bool) -> bool {
    if !crate::input::touchpad::suspends_capture(code) {
        ts.keyboard_suspended
    } else if down {
        true
    } else {
        ts.keyboard_suspended && !ts.latches.after(code, down).modifiers_free()
    }
}

/// The message that the capture window gets for a change of the suspension.
pub open spec fn suspension_effects(ts: TouchpadState, code: u16, down: bool) -> Seq<Effect> {
    if suspended_after(ts, code, down) == ts.keyboard_suspended {
        Seq::empty()
    } else if ts.keyboard_suspended {
        control_effects(ts, Effect::ResumeCapture)
    } else {
        control_effects(ts, Effect::SuspendCapture)
    }
}

/// Notes a key edge that was sent to the peer. The first modifier suspends the
/// foreground capture, the release of the last one resumes it.
pub fn note_forwarded_key(ts: &mut TouchpadState, code: u16, down: bool, out: &mut Vec<Effect>)
    ensures
        *final(ts) == (TouchpadState {
            keyboard_suspended: suspended_after(*old(ts), code, down),
            latches: old(ts).latches.after(code, down),
            ..*old(ts)
        }),
        final(out)@ == old(out)@ + suspension_effects(*old(ts), code, down),
{
    ts.latches.note(code, down);
    let free = ts.latches.no_keyboard_capture_modifiers_held();
    match keyboard_capture_action(code, down, free) {
        KeyboardCaptureAction::Suspend => {
            if !ts.keyboard_suspended {
                ts.keyboard_suspended = true;
                post_capture_control(ts, Effect::SuspendCapture, out);
            }
        },
        KeyboardCaptureAction::Resume => {
            if ts.keyboard_suspended {
                ts.keyboard_suspended = false;
                post_capture_control(ts, Effect::ResumeCapture, out);
            }
        },
        KeyboardCaptureAction::Keep => {},
    }
    assert(out@ =~= old(out)@ + suspension_effects(*old(ts), code, down));
}

/// Whether raw reports handle a Tab edge, so that the same edge in the capture
/// window is left alone.
pub fn raw_keyboard_owns_legacy_tab(ts: &TouchpadState, scan: u32) -> (r: bool)
    ensures
        r == (scan == 0x0f && ts.raw_keyboard_available && (ts.latches.raw_alt_held || ts.latches.legacy_alt_held
            || ts.latches.async_tab_forwarded)),
{
    scan == 0x0f && ts.raw_keyboard_available && (ts.latches.raw_alt_held || ts.latches.legacy_alt_held
        || ts.latches.async_tab_forwarded)
}

/// The frames that end `stream`, sent to the peer; nothing when there is none.
pub open spec fn ends_sent(effects: Seq<Effect>, stream: Option<u32>) -> bool {
    match stream {
        Some(s) => {
            &&& effects.len() == crate::input::touchpad::TERMINAL_REPEAT_COUNT
            &&& forall|i: int|
                0 <= i < effects.len() ==> ((#[trigger] effects[i]) matches Effect::Forward(
                    InputEvent::Touchpad(e),
                ) && e.is_end_of(s))
        },
        None => effects.len() == 0,
    }
}

/// Ends the running stream on the peer.
fn publish_cancel(ts: &mut TouchpadState, out: &mut Vec<Effect>)
    requires
        old(ts).well_formed(),
    ensures
        final(ts).well_formed(),
        *final(ts) == (TouchpadState { capture: final(ts).capture, ..*old(ts) }),
        capture::emptied(old(ts).capture, final(ts).capture),
        exists|ends: Seq<Effect>|
            #![trigger ends_sent(ends, old(ts).capture.stream_id)]
            ends_sent(ends, old(ts).capture.stream_id) && final(out)@ == old(out)@ + ends,
{
    let ghost stream = ts.capture.stream_id;
    let ghost before = out@;
    let events = ts.capture.cancel();
    let mut i: usize = 0;
    while i < events.len()
        invariant
            i <= events@.len(),
            out@ == before + Seq::new(
                i as nat,
                |j: int| Effect::Forward(InputEvent::Touchpad(events@[j])),
            ),
        decreases events@.len() - i,
    {
        out.push(Effect::Forward(InputEvent::Touchpad(events[i])));
        i = i + 1;
        assert(out@ =~= before + Seq::new(
            i as nat,
            |j: int| Effect::Forward(InputEvent::Touchpad(events@[j])),
        ));
    }
    proof {
        let ends = Seq::new(
            events@.len(),
            |j: int| Effect::Forward(InputEvent::Touchpad(events@[j])),
        );
        assert(ends_sent(ends, stream));
        assert(out@ == before + ends);
    }
}

/// What is left to do for a change of the capture.
#[derive(Debug, Clone, Copy, PartialEq, Eq, Structural)]
pub enum CaptureStep {
    Done,
    /// Take the foreground with the capture window and report the result to
    /// [`foreground_claimed`].
    ClaimForeground,
    /// Switch the gesture controller and report the result to
    /// [`controller_switched`].
    SetController { enabled: bool, active: bool, focused: bool },
}

/// The effects before and after the end of the stream when the capture is
/// switched off.
pub open spec fn off_effects_before(ts: TouchpadState) -> Seq<Effect> {
    (if ts.has_controller {
        seq![Effect::SetGestureController(false)]
    } else {
        Seq::empty()
    }) + (if ts.has_window {
        seq![Effect::StopFocusTimer]
    } else {
        Seq::empty()
    })
}

pub open spec fn off_effects_after(ts: TouchpadState) -> Seq<Effect> {
    (if ts.previous_foreground != 0 {
        seq![Effect::RestoreForeground(ts.previous_foreground)]
    } else {
        Seq::empty()
    }) + (if ts.has_window {
        seq![Effect::HideCaptureWindow]
    } else {
        Seq::empty()
    })
}

/// Whether the touchpad can be sent to a peer with these capabilities.
pub open spec fn route_available(ts: TouchpadState, peer: u32) -> bool {
    ts.frames_route(peer) || ts.actions_route(peer)
}

/// Switches the capture off.
fn switch_off(ts: &mut TouchpadState, out: &mut Vec<Effect>)
    requires
        old(ts).well_formed(),
    ensures
        final(ts).well_formed(),
        *final(ts) == (TouchpadState {
            capture_enabled: false,
            previous_foreground: 0,
            focus_pending_logged: false,
            capture: final(ts).capture,
            ..*old(ts)
        }),
        !old(ts).capture_enabled ==> final(ts).capture == old(ts).capture,
        old(ts).capture_enabled ==> capture::emptied(old(ts).capture, final(ts).capture),
        exists|ends: Seq<Effect>|
            #![trigger off_ends(*old(ts), ends)]
            off_ends(*old(ts), ends) && final(out)@ == old(out)@ + off_effects_before(*old(ts))
                + ends + off_effects_after(*old(ts)),
{
    let ghost start = *ts;
    let ghost base = out@;
    let was_active = ts.capture_enabled;
    ts.capture_enabled = false;
    if ts.has_controller {
        out.push(Effect::SetGestureController(false));
    }
    if ts.has_window {
        out.push(Effect::StopFocusTimer);
    }
    assert(out@ =~= base + off_effects_before(start));
    let ghost mid = out@;
    let ghost mut ends: Seq<Effect> = Seq::empty();
    if was_active {
        publish_cancel(ts, out);
        proof {
            ends = choose|e: Seq<Effect>|
                #![trigger ends_sent(e, start.capture.stream_id)]
                ends_sent(e, start.capture.stream_id) && out@ == mid + e;
        }
    }
    assert(off_ends(start, ends));
    assert(out@ =~= mid + ends);
    let ghost late = out@;
    let previous: i64 = ts.previous_foreground;
    ts.previous_foreground = 0;
    if previous != 0 {
        out.push(Effect::RestoreForeground(previous));
    }
    if ts.has_window {
        out.push(Effect::HideCaptureWindow);
    }
    assert(out@ =~= late + off_effects_after(start));
    ts.focus_pending_logged = false;
}

/// The end of the stream that switching off sends: that of a capture that was
/// on, nothing else.
pub open spec fn off_ends(ts: TouchpadState, ends: Seq<Effect>) -> bool {
    if ts.capture_enabled {
        ends_sent(ends, ts.capture.stream_id)
    } else {
        ends.len() == 0
    }
}

/// Whether a capability word holds one of the two injection bits.
fn peer_can_inject(peer: u32, bit: u32) -> (r: bool)
    ensures
        r == has_cap(peer, bit),
{
    peer & bit != 0
}

/// Switches the capture on or off. It goes on only for a peer that can inject
/// something of it, and once the capture window has the foreground.
pub fn apply_capture_active(
    ts: &mut TouchpadState,
    requested: bool,
    peer: u32,
    out: &mut Vec<Effect>,
) -> (r: CaptureStep)
    requires
        old(ts).well_formed(),
    ensures
        final(ts).well_formed(),
        !requested || !route_available(*old(ts), peer) ==> {
            &&& r == CaptureStep::Done
            &&& *final(ts) == (TouchpadState {
                capture_enabled: false,
                previous_foreground: 0,
                focus_pending_logged: false,
                capture: final(ts).capture,
                ..*old(ts)
            })
            &&& !old(ts).capture_enabled ==> final(ts).capture == old(ts).capture
            &&& old(ts).capture_enabled ==> capture::emptied(old(ts).capture, final(ts).capture)
            &&& exists|ends: Seq<Effect>|
                #![trigger off_ends(*old(ts), ends)]
                off_ends(*old(ts), ends) && final(out)@ == old(out)@ + off_effects_before(*old(ts))
                    + ends + off_effects_after(*old(ts))
        },
        requested && route_available(*old(ts), peer) && old(ts).has_window ==> r
            == CaptureStep::ClaimForeground && *final(ts) == *old(ts) && final(out)@ == old(out)@,
        requested && route_available(*old(ts), peer) && !old(ts).has_window ==> claimed(
            *old(ts),
            *final(ts),
            peer,
            0,
            false,
            r,
            old(out)@,
            final(out)@,
        ),
{
    let frames = ts.frame_capture && peer_can_inject(peer, TOUCHPAD_CAP_FRAME_INJECT);
    let actions = ts.action_capture && peer_can_inject(peer, TOUCHPAD_CAP_ACTION_INJECT);
    if !requested || !(frames || actions) {
        switch_off(ts, out);
        return CaptureStep::Done;
    }
    if ts.has_window {
        return CaptureStep::ClaimForeground;
    }
    foreground_claimed(ts, peer, 0, false, out)
}

/// What a claim of the foreground leads to. `previous` is the window that had
/// the foreground, 0 for none or for the capture window itself.
///
/// The capture is on if the claim worked. A capture that goes off ends its
/// stream, one that goes on starts afresh. The gesture controller is then
/// switched, where there is one.
pub open spec fn claimed(
    pre: TouchpadState,
    post: TouchpadState,
    peer: u32,
    previous: i64,
    focused: bool,
    r: CaptureStep,
    out_before: Seq<Effect>,
    out_after: Seq<Effect>,
) -> bool {
    let active = focused && route_available(pre, peer);
    let kept = if pre.has_window && pre.previous_foreground == 0 {
        previous
    } else {
        pre.previous_foreground
    };
    &&& post == (TouchpadState {
        previous_foreground: kept,
        capture_enabled: if pre.has_controller {
            pre.capture_enabled && active
        } else {
            active
        },
        focus_pending_logged: if pre.has_controller {
            pre.focus_pending_logged
        } else {
            !focused
        },
        capture: post.capture,
        ..pre
    })
    &&& pre.capture_enabled == active ==> post.capture == pre.capture
    &&& pre.capture_enabled != active ==> capture::emptied(pre.capture, post.capture)
    &&& exists|ends: Seq<Effect>|
        #![trigger claim_ends(pre, peer, focused, ends)]
        claim_ends(pre, peer, focused, ends) && out_after == out_before + ends + (if !pre.has_controller
            && pre.has_window {
            seq![Effect::StartFocusTimer]
        } else {
            Seq::empty()
        })
    &&& r == if pre.has_controller {
        CaptureStep::SetController {
            enabled: active && pre.actions_route(peer),
            active,
            focused,
        }
    } else {
        CaptureStep::Done
    }
}

/// The end of the stream that a claim sends: that of a capture that goes off.
pub open spec fn claim_ends(
    ts: TouchpadState,
    peer: u32,
    focused: bool,
    ends: Seq<Effect>,
) -> bool {
    if ts.capture_enabled && !(focused && route_available(ts, peer)) {
        ends_sent(ends, ts.capture.stream_id)
    } else {
        ends.len() == 0
    }
}

/// Ends the stream of a capture that goes off and forgets the contacts of one
/// that goes on.
fn settle_stream(ts: &mut TouchpadState, active: bool, out: &mut Vec<Effect>)
    requires
        old(ts).well_formed(),
    ensures
        final(ts).well_formed(),
        *final(ts) == (TouchpadState {
            capture_enabled: old(ts).capture_enabled && active,
            capture: final(ts).capture,
            ..*old(ts)
        }),
        old(ts).capture_enabled == active ==> final(ts).capture == old(ts).capture,
        old(ts).capture_enabled != active ==> capture::emptied(
            old(ts).capture,
            final(ts).capture,
        ),
        old(ts).capture_enabled && !active ==> exists|ends: Seq<Effect>|
            #![trigger ends_sent(ends, old(ts).capture.stream_id)]
            ends_sent(ends, old(ts).capture.stream_id) && final(out)@ == old(out)@ + ends,
        !old(ts).capture_enabled || active ==> final(out)@ == old(out)@,
{
    let was_active = ts.capture_enabled;
    if was_active && !active {
        ts.capture_enabled = false;
        publish_cancel(ts, out);
    } else if !was_active && active {
        ts.capture.reset_without_event();
    }
}

/// Carries on once the foreground was claimed.
#[verifier::rlimit(40)]
pub fn foreground_claimed(
    ts: &mut TouchpadState,
    peer: u32,
    previous: i64,
    focused: bool,
    out: &mut Vec<Effect>,
) -> (r: CaptureStep)
    requires
        old(ts).well_formed(),
    ensures
        final(ts).well_formed(),
        claimed(*old(ts), *final(ts), peer, previous, focused, r, old(out)@, final(out)@),
{
    let ghost start = *ts;
    let ghost base = out@;
    let frames = ts.frame_capture && peer_can_inject(peer, TOUCHPAD_CAP_FRAME_INJECT);
    let actions = ts.action_capture && peer_can_inject(peer, TOUCHPAD_CAP_ACTION_INJECT);
    if ts.has_window && ts.previous_foreground == 0 {
        ts.previous_foreground = previous;
    }
    let active = should_enable_native_capture(true, frames, actions, focused);
    settle_stream(ts, active, out);
    let ghost ends = if start.capture_enabled && !active {
        choose|e: Seq<Effect>|
            #![trigger ends_sent(e, start.capture.stream_id)]
            ends_sent(e, start.capture.stream_id) && out@ == base + e
    } else {
        Seq::empty()
    };
    assert(claim_ends(start, peer, focused, ends));
    assert(out@ =~= base + ends);
    if ts.has_controller {
        assert(out@ =~= base + ends + Seq::<Effect>::empty());
        return CaptureStep::SetController { enabled: active && actions, active, focused };
    }
    finish_claim(ts, active, focused, out);
    CaptureStep::Done
}

/// The state and the timer once everything for a capture change was done.
fn finish_claim(ts: &mut TouchpadState, active: bool, focused: bool, out: &mut Vec<Effect>)
    ensures
        *final(ts) == (TouchpadState {
            capture_enabled: active,
            focus_pending_logged: !focused,
            ..*old(ts)
        }),
        final(out)@ == old(out)@ + if old(ts).has_window {
            seq![Effect::StartFocusTimer]
        } else {
            Seq::empty()
        },
{
    ts.capture_enabled = active;
    if ts.has_window {
        out.push(Effect::StartFocusTimer);
    }
    ts.focus_pending_logged = !focused;
    assert(out@ =~= old(out)@ + if old(ts).has_window {
        seq![Effect::StartFocusTimer]
    } else {
        Seq::empty()
    });
}

/// Carries on once the gesture controller was switched. A controller that
/// refused leaves the capture off.
pub fn controller_switched(
    ts: &mut TouchpadState,
    ok: bool,
    active: bool,
    focused: bool,
    out: &mut Vec<Effect>,
)
    ensures
        !ok ==> *final(ts) == (TouchpadState { capture_enabled: false, ..*old(ts) }) && final(out)@
            == old(out)@,
        ok ==> *final(ts) == (TouchpadState {
            capture_enabled: active,
            focus_pending_logged: !focused,
            ..*old(ts)
        }) && final(out)@ == old(out)@ + if old(ts).has_window {
            seq![Effect::StartFocusTimer]
        } else {
            Seq::empty()
        },
{
    if !ok {
        ts.capture_enabled = false;
        return ;
    }
    finish_claim(ts, active, focused, out);
}

/// A message that the capture window gets.
#[derive(Debug, Clone, Copy, PartialEq, Eq, Structural)]
pub enum CaptureMessage {
    /// The capture was asked for or given up.
    Route(bool),
    /// Modifiers went down.
    Suspend,
    /// The last modifier was released.
    Resume,
    /// The timer ran off while the capture window had, or had not, the
    /// foreground.
    Timer { foreground: bool },
}

/// What a message makes of the capture: on, off, or as it is.
pub open spec fn message_wants(ts: TouchpadState, msg: CaptureMessage) -> Option<bool> {
    let wanted = ts.capture_requested && !ts.keyboard_suspended;
    match msg {
        CaptureMessage::Route(on) => Some(on && wanted),
        CaptureMessage::Suspend => Some(false),
        CaptureMessage::Resume => Some(ts.capture_requested),
        CaptureMessage::Timer { foreground } => if !wanted {
            Some(false)
        } else if foreground && ts.capture_enabled {
            None
        } else {
            Some(true)
        },
    }
}

/// Decides what a message makes of the capture.
pub fn on_capture_message(ts: &TouchpadState, msg: CaptureMessage) -> (r: Option<bool>)
    ensures
        r == message_wants(*ts, msg),
{
    match msg {
        CaptureMessage::Route(on) => Some(on && ts.capture_requested && !ts.keyboard_suspended),
        CaptureMessage::Suspend => Some(false),
        CaptureMessage::Resume => Some(ts.capture_requested),
        CaptureMessage::Timer { foreground } => {
            if ts.capture_requested && !ts.keyboard_suspended {
                if !foreground || !ts.capture_enabled {
                    Some(true)
                } else {
                    None
                }
            } else {
                Some(false)
            }
        },
    }
}

/// Touchpad events on their way to the peer.
pub open spec fn forwarded(events: Seq<TouchpadEvent>) -> Seq<Effect> {
    Seq::new(events.len(), |j: int| Effect::Forward(InputEvent::Touchpad(events[j])))
}

/// Sends a frame of the local touchpad to the peer while the capture is on.
/// `scaled` holds the contacts after the two-finger scroll speed was applied.
pub fn publish_snapshot(
    ts: &mut TouchpadState,
    contacts: &[TouchpadContact],
    scaled: &[TouchpadContact],
    out: &mut Vec<Effect>,
)
    requires
        old(ts).well_formed(),
    ensures
        final(ts).well_formed(),
        *final(ts) == (TouchpadState { capture: final(ts).capture, ..*old(ts) }),
        !old(ts).capture_enabled ==> final(ts).capture == old(ts).capture && final(out)@ == old(out)@,
        old(ts).capture_enabled ==> exists|events: Seq<TouchpadEvent>|
            #![trigger forwarded(events)]
            capture::snapshot_taken(
                old(ts).capture,
                final(ts).capture,
                contacts@,
                scaled@,
                events,
            ) && final(out)@ == old(out)@ + forwarded(events),
{
    if !ts.capture_enabled {
        return ;
    }
    let ghost before = out@;
    let events = ts.capture.snapshot(contacts, scaled);
    let mut i: usize = 0;
    while i < events.len()
        invariant
            i <= events@.len(),
            out@ == before + forwarded(events@.take(i as int)),
        decreases events@.len() - i,
    {
        out.push(Effect::Forward(InputEvent::Touchpad(events[i])));
        i = i + 1;
        assert(out@ =~= before + forwarded(events@.take(i as int)));
    }
    assert(events@.take(events@.len() as int) =~= events@);
}

/// A touchpad is captured exactly where it is asked for, there is one, and the peer
/// can inject what comes of it: then the foreground is claimed, and else the
/// capture is off.
pub proof fn a_touchpad_is_captured_for_a_peer_that_can_use_it(
    ts: &mut TouchpadState,
    requested: bool,
    peer: &TouchpadState,
    caps: u32,
    out: &mut Vec<Effect>,
    r: CaptureStep,
)
    requires
        call_ensures(TouchpadState::capabilities, (peer,), caps),
        call_ensures(apply_capture_active, (ts, requested, caps, out), r),
        old(ts).has_window,
    ensures
        r == CaptureStep::ClaimForeground <==> requested && peer.injection_ready && (
        old(ts).frame_capture || old(ts).action_capture),
        r != CaptureStep::ClaimForeground ==> r == CaptureStep::Done && !final(ts).capture_enabled,
        r == CaptureStep::ClaimForeground ==> *final(ts) == *old(ts) && final(out)@ == old(out)@,
{
    assert(0 <= caps <= 3 ==> caps & 4 == 0 && caps & 8 == 0) by (bit_vector);
    assert(12 <= caps <= 15 ==> caps & 4 != 0 && caps & 8 != 0) by (bit_vector);
}

/// Giving up the touchpad ends what the peer was sent of it and gives the
/// foreground back to the window that had it.
pub proof fn the_foreground_is_given_back(
    ts: &mut TouchpadState,
    peer: u32,
    out: &mut Vec<Effect>,
    r: CaptureStep,
)
    requires
        call_ensures(apply_capture_active, (ts, false, peer, out), r),
    ensures
        r == CaptureStep::Done,
        !final(ts).capture_enabled,
        final(ts).previous_foreground == 0,
        old(ts).previous_foreground != 0 ==> exists|k: int|
            0 <= k < final(out)@.len() && #[trigger] final(out)@[k] == Effect::RestoreForeground(
                old(ts).previous_foreground,
            ),
        old(ts).has_window ==> final(out)@.len() > 0 && final(out)@.last()
            == Effect::HideCaptureWindow,
        old(ts).capture_enabled && old(ts).capture.stream_id is Some ==> exists|k: int|
            0 <= k < final(out)@.len() && (#[trigger] final(out)@[k] matches Effect::Forward(
                InputEvent::Touchpad(e),
            ) && e.is_end_of(old(ts).capture.stream_id->0)),
{
    let pre = *old(ts);
    let ends = choose|ends: Seq<Effect>|
        #![trigger off_ends(pre, ends)]
        off_ends(pre, ends) && final(out)@ == old(out)@ + off_effects_before(pre) + ends
            + off_effects_after(pre);
    assert(off_ends(pre, ends));
    let at = (old(out)@ + off_effects_before(pre) + ends).len() as int;
    if pre.previous_foreground != 0 {
        assert(final(out)@[at] == off_effects_after(pre)[0]);
        assert(final(out)@[at] == Effect::RestoreForeground(pre.previous_foreground));
    }
    if pre.has_window {
        assert(off_effects_after(pre).last() == Effect::HideCaptureWindow);
    }
    if pre.capture_enabled && pre.capture.stream_id is Some {
        let k = (old(out)@ + off_effects_before(pre)).len() as int;
        assert(final(out)@[k] == ends[0]);
    }
}

/// A window that took the foreground while the peer can use the touchpad switches
/// the capture on, one that did not switches it off, and the window that had the
/// foreground first is the one that is remembered.
pub proof fn a_claim_switches_the_capture(
    ts: &mut TouchpadState,
    peer: u32,
    previous: i64,
    focused: bool,
    out: &mut Vec<Effect>,
    r: CaptureStep,
)
    requires
        call_ensures(foreground_claimed, (ts, peer, previous, focused, out), r),
        !old(ts).has_controller,
        old(ts).has_window,
    ensures
        r == CaptureStep::Done,
        !focused ==> !final(ts).capture_enabled,
        focused && old(ts).frame_capture && peer & 4 != 0 ==> final(ts).capture_enabled,
        focused && old(ts).action_capture && peer & 8 != 0 ==> final(ts).capture_enabled,
        peer & 4 == 0 && peer & 8 == 0 ==> !final(ts).capture_enabled,
        old(ts).previous_foreground == 0 ==> final(ts).previous_foreground == previous,
        old(ts).previous_foreground != 0 ==> final(ts).previous_foreground == old(ts).previous_foreground,
        final(ts).capture_requested == old(ts).capture_requested,
        !old(ts).capture_enabled ==> final(out)@ == old(out)@.push(Effect::StartFocusTimer),
        final(out)@.len() > old(out)@.len() && final(out)@.last() == Effect::StartFocusTimer,
{
    let pre = *old(ts);
    let ends = choose|ends: Seq<Effect>|
        #![trigger claim_ends(pre, peer, focused, ends)]
        claim_ends(pre, peer, focused, ends) && final(out)@ == old(out)@ + ends + seq![
            Effect::StartFocusTimer,
        ];
    assert(claim_ends(pre, peer, focused, ends) && final(out)@ == old(out)@ + ends + seq![
        Effect::StartFocusTimer,
    ]);
    if !pre.capture_enabled {
        assert(final(out)@ =~= old(out)@.push(Effect::StartFocusTimer));
    }
}

/// While a modifier is held that was sent to the peer, the window does not take the
/// foreground: its press suspends the capture, and its release resumes it where no
/// other is held. Other keys leave the capture alone.
pub proof fn a_held_modifier_suspends_the_capture(
    ts: (&mut TouchpadState, &mut TouchpadState),
    code: u16,
    out: (&mut Vec<Effect>, &mut Vec<Effect>),
)
    requires
        call_ensures(note_forwarded_key, (ts.0, code, true, out.0), ()),
        *old(ts.1) == *final(ts.0),
        call_ensures(note_forwarded_key, (ts.1, code, false, out.1), ()),
        old(ts.0).latches.clear(),
        !old(ts.0).keyboard_suspended,
        old(ts.0).has_window,
    ensures
        code == 42 || code == 54 || code == 56 || code == 100 || code == 125 || code == 126 ==> {
            &&& final(ts.0).keyboard_suspended
            &&& final(out.0)@ == old(out.0)@.push(Effect::SuspendCapture)
            &&& final(out.1)@ == old(out.1)@.push(Effect::ResumeCapture)
        },
        !(code == 42 || code == 54 || code == 56 || code == 100 || code == 125 || code == 126) ==> {
            &&& !final(ts.0).keyboard_suspended
            &&& final(out.0)@ == old(out.0)@
            &&& final(out.1)@ == old(out.1)@
        },
        !final(ts.1).keyboard_suspended,
        final(ts.1).latches.clear(),
{
    assert(old(out.0)@.push(Effect::SuspendCapture) =~= old(out.0)@ + seq![
        Effect::SuspendCapture,
    ]);
    assert(old(out.1)@.push(Effect::ResumeCapture) =~= old(out.1)@ + seq![Effect::ResumeCapture]);
    assert(old(out.0)@ + Seq::<Effect>::empty() =~= old(out.0)@);
    assert(old(out.1)@ + Seq::<Effect>::empty() =~= old(out.1)@);
}

/// The capture is never on where it was not asked for, whatever message comes; it
/// is off while a modifier suspends it, until it is resumed; and it stays as it is
/// while it is on and has the foreground.
pub proof fn messages_keep_to_what_was_asked_for(
    ts: &TouchpadState,
    msg: CaptureMessage,
    r: Option<bool>,
)
    requires
        call_ensures(on_capture_message, (ts, msg), r),
    ensures
        !ts.capture_requested ==> r == Some(false),
        ts.keyboard_suspended && msg != CaptureMessage::Resume ==> r == Some(false),
        msg == CaptureMessage::Suspend ==> r == Some(false),
        msg == CaptureMessage::Resume && ts.capture_requested ==> r == Some(true),
        ts.capture_requested && !ts.keyboard_suspended ==> {
            &&& msg == CaptureMessage::Route(true) ==> r == Some(true)
            &&& msg == CaptureMessage::Route(false) ==> r == Some(false)
            &&& msg == (CaptureMessage::Timer { foreground: false }) ==> r == Some(true)
            &&& msg == (CaptureMessage::Timer { foreground: true }) && ts.capture_enabled ==> r
                is None
            &&& msg == (CaptureMessage::Timer { foreground: true }) && !ts.capture_enabled ==> r
                == Some(true)
        },
{
}

/// Nothing of a touchpad that is not captured goes out.
pub proof fn an_uncaptured_touchpad_sends_nothing(
    ts: &mut TouchpadState,
    contacts: &[TouchpadContact],
    scaled: &[TouchpadContact],
    out: &mut Vec<Effect>,
)
    requires
        call_ensures(publish_snapshot, (ts, contacts, scaled, out), ()),
        !old(ts).capture_enabled,
    ensures
        final(out)@ == old(out)@,
        *final(ts) == *old(ts),
{
}

/// What is asked for is noted, giving it up ends a suspension, and the window is
/// told of both.
pub proof fn a_request_reaches_the_window(
    ts: &mut TouchpadState,
    requested: bool,
    out: &mut Vec<Effect>,
)
    requires
        call_ensures(set_capture_active, (ts, requested, out), ()),
    ensures
        final(ts).capture_requested == requested,
        !requested ==> !final(ts).keyboard_suspended,
        requested ==> final(ts).keyboard_suspended == old(ts).keyboard_suspended,
        old(ts).has_window ==> final(out)@ == old(out)@.push(Effect::RouteCapture(requested))
            && final(ts).capture_enabled == old(ts).capture_enabled,
        !old(ts).has_window ==> !final(ts).capture_enabled,
{
    assert(old(out)@.push(Effect::RouteCapture(requested)) =~= old(out)@ + seq![
        Effect::RouteCapture(requested),
    ]);
}

} // verus!
