//! Normalised input events, as they travel between the two machines.

use crate::arith::{self, clamp_i32};
use vstd::prelude::*;

verus! {

/// A mouse button.
#[derive(Debug, Clone, Copy, PartialEq, Eq, Hash, Structural)]
pub enum Button {
    Left,
    Right,
    Middle,
    X1,
    X2,
}

/// A key in the Linux `KEY_*` numbering, which matches the PS/2 set-1 scan
/// codes for the common keys.
#[derive(Debug, Clone, Copy, PartialEq, Eq, Structural)]
pub struct KeyCode(pub u16);

/// The most contacts that one touchpad frame carries.
pub const MAX_TOUCHPAD_CONTACTS: usize = 5;

/// Position of one finger. Both axes cover the complete physical range of the
/// touchpad, whatever the DPI or the display layout of either machine.
#[derive(Debug, Clone, Copy, PartialEq, Eq, Structural)]
pub struct TouchpadContact {
    pub id: u32,
    pub x: u16,
    pub y: u16,
}

impl Default for TouchpadContact {
    fn default() -> (c: Self)
        ensures
            c == (TouchpadContact { id: 0, x: 0, y: 0 }),
    {
        TouchpadContact { id: 0, x: 0, y: 0 }
    }
}

/// What a three- or four-finger gesture did.
#[derive(Debug, Clone, Copy, PartialEq, Eq, Structural)]
pub enum TouchpadAction {
    Tap,
    Press,
    Release,
}

/// One message of a precision-touchpad stream.
///
/// A frame holds every contact that is down, so a receiver derives the
/// transitions from two frames that follow each other and the next frame that
/// arrives repairs a lost one.
#[derive(Debug, Clone, Copy, PartialEq, Eq)]
pub enum TouchpadEvent {
    Frame { stream_id: u32, count: u8, contacts: [TouchpadContact; 5], terminal: bool },
    Action { fingers: u8, action: TouchpadAction },
}

impl TouchpadEvent {
    /// A frame that says what it holds: a terminal frame has no contact, any
    /// other has between one and `MAX_TOUCHPAD_CONTACTS`.
    pub open spec fn well_formed_frame(self) -> bool {
        match self {
            TouchpadEvent::Frame { count, terminal, .. } => count <= MAX_TOUCHPAD_CONTACTS && (
            terminal <==> count == 0),
            TouchpadEvent::Action { .. } => false,
        }
    }

    /// The contacts that a well-formed frame carries.
    pub open spec fn carried(self) -> Seq<TouchpadContact> {
        match self {
            TouchpadEvent::Frame { count, contacts, .. } => contacts@.take(count as int),
            TouchpadEvent::Action { .. } => Seq::empty(),
        }
    }

    /// Packs a snapshot of the contacts. There is no frame for more contacts
    /// than fit, for a terminal frame with contacts, nor for an empty frame
    /// that is not terminal.
    pub fn frame(stream_id: u32, contacts: &[TouchpadContact], terminal: bool) -> (r: Option<Self>)
        ensures
            r is Some <==> contacts@.len() <= MAX_TOUCHPAD_CONTACTS && (terminal
                <==> contacts@.len() == 0),
            r matches Some(f) ==> f.well_formed_frame() && f.carried() == contacts@ && (f matches
                TouchpadEvent::Frame { stream_id: s, count: n, contacts: c, terminal: t } && s
                == stream_id && n == contacts@.len() && t == terminal && (forall|i: int|
                contacts@.len() <= i < 5 ==> #[trigger] c@[i] == (TouchpadContact {
                    id: 0,
                    x: 0,
                    y: 0,
                }))),
    {
        if contacts.len() > MAX_TOUCHPAD_CONTACTS || (terminal && contacts.len() != 0) || (!terminal
            && contacts.len() == 0) {
            return None;
        }
        let mut packed: [TouchpadContact; 5] = [TouchpadContact { id: 0, x: 0, y: 0 };5];
        let mut i: usize = 0;
        while i < contacts.len()
            invariant
                i <= contacts@.len() <= 5,
                packed@.len() == 5,
                forall|j: int| 0 <= j < i ==> packed@[j] == contacts@[j],
                forall|j: int|
                    i <= j < 5 ==> #[trigger] packed@[j] == (TouchpadContact { id: 0, x: 0, y: 0 }),
            decreases contacts@.len() - i,
        {
            packed[i] = contacts[i];
            i = i + 1;
        }
        assert(packed@.take(contacts@.len() as int) =~= contacts@);
        Some(
            TouchpadEvent::Frame {
                stream_id,
                count: contacts.len() as u8,
                contacts: packed,
                terminal,
            },
        )
    }

    /// The frame that ends a stream.
    pub fn terminal(stream_id: u32) -> (r: Self)
        ensures
            r.is_end_of(stream_id),
    {
        let packed: [TouchpadContact; 5] = [TouchpadContact { id: 0, x: 0, y: 0 };5];
        TouchpadEvent::Frame { stream_id, count: 0, contacts: packed, terminal: true }
    }

    /// Whether this is the frame without contacts that ends `stream`.
    pub open spec fn is_end_of(self, stream: u32) -> bool {
        self matches TouchpadEvent::Frame { stream_id, count, contacts, terminal } && stream_id
            == stream && count == 0 && terminal && (forall|i: int|
            0 <= i < 5 ==> #[trigger] contacts@[i] == (TouchpadContact { id: 0, x: 0, y: 0 }))
    }

    /// The contacts of a well-formed frame.
    pub fn contacts(&self) -> (r: Option<&[TouchpadContact]>)
        ensures
            r is Some <==> self.well_formed_frame(),
            r matches Some(c) ==> c@ == self.carried(),
    {
        match self {
            TouchpadEvent::Frame { count, contacts, terminal, .. } => {
                let n: usize = *count as usize;
                if n <= MAX_TOUCHPAD_CONTACTS && ((*terminal && n == 0) || (!*terminal && n > 0)) {
                    let held: &[TouchpadContact] = vstd::slice::slice_subrange(
                        vstd::array::array_as_slice(contacts),
                        0,
                        n,
                    );
                    assert(held@ =~= self.carried());
                    Some(held)
                } else {
                    None
                }
            },
            TouchpadEvent::Action { .. } => None,
        }
    }

    /// The stream of a frame that a later frame of the same stream may
    /// replace while both wait to be sent.
    pub fn coalescible_stream(&self) -> (r: Option<u32>)
        ensures
            r == (match *self {
                TouchpadEvent::Frame {
                    stream_id,
                    terminal: false,
                    ..
                } if self.well_formed_frame() => Some(stream_id),
                _ => None,
            }),
    {
        match self {
            TouchpadEvent::Frame { stream_id, terminal, .. } => {
                if !*terminal && self.contacts().is_some() {
                    Some(*stream_id)
                } else {
                    None
                }
            },
            TouchpadEvent::Action { .. } => None,
        }
    }

    /// Whether this frame ends its stream.
    pub fn is_terminal(&self) -> (r: bool)
        ensures
            r == (*self matches TouchpadEvent::Frame { terminal: true, .. }),
    {
        match self {
            TouchpadEvent::Frame { terminal, .. } => *terminal,
            TouchpadEvent::Action { .. } => false,
        }
    }
}

/// One input event on its way to the peer.
///
/// A scroll carries the bit patterns of its two wheel distances, which are
/// 32-bit floating-point notches: no decision of the library reads them.
#[derive(Debug, Clone, Copy, PartialEq, Eq)]
pub enum InputEvent {
    MouseMove { dx: i32, dy: i32 },
    MouseButton { btn: Button, down: bool },
    Key { code: KeyCode, down: bool },
    Scroll { dx_bits: u32, dy_bits: u32 },
    Touchpad(TouchpadEvent),
}

/// The most pixels by which one event moves the local cursor on one axis.
///
/// One stale delta at the moment of a handover can span half a screen, which
/// would fling the camera of a game; real aiming stays far below this limit.
pub const MAX_INJECT_DELTA_PX: i32 = 200;

/// The event that is handed to the operating system for an event of the peer:
/// the same event, but no mouse motion beyond `MAX_INJECT_DELTA_PX`.
pub open spec fn injected_event(event: InputEvent) -> InputEvent {
    match event {
        InputEvent::MouseMove { dx, dy } => InputEvent::MouseMove {
            dx: arith::clamp(dx as int, -MAX_INJECT_DELTA_PX as int, MAX_INJECT_DELTA_PX as int) as i32,
            dy: arith::clamp(dy as int, -MAX_INJECT_DELTA_PX as int, MAX_INJECT_DELTA_PX as int) as i32,
        },
        _ => event,
    }
}

/// Limits the motion of one event of the peer before it is injected.
pub fn dispatch(event: InputEvent) -> (r: InputEvent)
    ensures
        r == injected_event(event),
{
    match event {
        InputEvent::MouseMove { dx, dy } => InputEvent::MouseMove {
            dx: clamp_i32(dx, -MAX_INJECT_DELTA_PX, MAX_INJECT_DELTA_PX),
            dy: clamp_i32(dy, -MAX_INJECT_DELTA_PX, MAX_INJECT_DELTA_PX),
        },
        _ => event,
    }
}

/// Motion that stays within the limit reaches the system as it was sent, and
/// no event moves the cursor by more than the limit.
pub proof fn injection_is_bounded(event: InputEvent)
    ensures
        injected_event(event) matches InputEvent::MouseMove { dx, dy }
            ==> -MAX_INJECT_DELTA_PX <= dx <= MAX_INJECT_DELTA_PX && -MAX_INJECT_DELTA_PX <= dy
            <= MAX_INJECT_DELTA_PX,
        event matches InputEvent::MouseMove { dx, dy } ==> (-MAX_INJECT_DELTA_PX <= dx
            <= MAX_INJECT_DELTA_PX && -MAX_INJECT_DELTA_PX <= dy <= MAX_INJECT_DELTA_PX
            ==> injected_event(event) == event),
        injected_event(injected_event(event)) == injected_event(event),
{
}

/// Motion of the peer is injected as it came, up to 200 pixels each way and no
/// further; the direction is kept, and all other events are as they came.
pub proof fn motion_of_the_peer_is_limited(event: InputEvent, r: InputEvent)
    requires
        call_ensures(dispatch, (event,), r),
    ensures
        !(event is MouseMove) ==> r == event,
        event matches InputEvent::MouseMove { dx, dy } ==> (
        r matches InputEvent::MouseMove { dx: x, dy: y } && {
            &&& -200 <= dx <= 200 ==> x == dx
            &&& -200 <= dy <= 200 ==> y == dy
            &&& dx > 200 ==> x == 200
            &&& dx < -200 ==> x == -200
            &&& dy > 200 ==> y == 200
            &&& dy < -200 ==> y == -200
        }),
{
}

} // verus!
