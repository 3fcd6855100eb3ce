//! Linux capture: edge presses, the virtual cursor on the peer's screen,
//! coalesced motion and the hotkeys.
//!
//! In `Local` mode the system moves the cursor and the code keeps a clamped
//! estimate of where it is. Pressing on against the edge that adjoins the
//! peer enters `Remote` mode, in which every event is sent to the peer and
//! the depth into its screen is tracked until the cursor comes back.

use crate::arith::{self, clamp_i32, magnitude_i64, max_i32};
use crate::input::events::{Button, InputEvent, KeyCode};
use crate::input::{
    self, bump_local_click, bump_local_mouse_activity, cycle_keyboard_target, fire_remote_event,
    note_key_forwarded_with_code, push_when, route_keystroke, route_mouse_button, set_input_locked,
    Activity, CursorMode, Effect, InputState, KeyRouting, Link, PeerSide, RemoteEvent, Tuning,
};
use vstd::prelude::*;

verus! {

/// How far past the entry edge the cursor is pulled back before control
/// returns to this machine.
pub const EXIT_BUFFER_PX: i32 = 100;

/// The most pixels of one motion report that are sent on one axis.
pub const MAX_DELTA_PX: i32 = 30;

/// Overshoot past a left or right edge that enters `Remote` mode.
pub const ENTER_PRESSURE_HORIZ_PX: i32 = 200;

/// Overshoot past a top or bottom edge that enters `Remote` mode.
pub const ENTER_PRESSURE_VERT_PX: i32 = 110;

/// Motion is collected for this long before it is sent.
pub const FLUSH_INTERVAL_MS: u64 = 8;

/// What the Linux capture remembers.
#[derive(Debug, Clone, Copy, PartialEq, Eq, Structural)]
pub struct LinuxState {
    pub mod_ctrl: bool,
    pub mod_alt: bool,
    pub mode: CursorMode,
    pub screen_w: i32,
    pub screen_h: i32,
    pub peer_w: i32,
    /// Estimated position of the local cursor.
    pub cursor_x: i32,
    pub cursor_y: i32,
    /// Depth of the cursor in the peer's screen.
    pub virt_x: i32,
    /// Overshoot past the shared edge so far.
    pub left_pressure: i32,
    /// Motion that was not sent yet.
    pub pending_dx: i32,
    pub pending_dy: i32,
    pub last_flush_ms: u64,
    pub fwd_count: i32,
}

impl LinuxState {
    /// The state at start: a screen of 1920 by 1080, the cursor in its middle,
    /// and a peer screen 2880 wide until the peer has told its own width.
    pub open spec fn at_start(self) -> bool {
        self == (LinuxState {
            mod_ctrl: false,
            mod_alt: false,
            mode: CursorMode::Local,
            screen_w: 1920,
            screen_h: 1080,
            peer_w: 2880,
            cursor_x: 960,
            cursor_y: 540,
            virt_x: 0,
            left_pressure: 0,
            pending_dx: 0,
            pending_dy: 0,
            last_flush_ms: 0,
            fwd_count: 0,
        })
    }

    pub fn new() -> (r: Self)
        ensures
            r.at_start(),
    {
        LinuxState {
            mod_ctrl: false,
            mod_alt: false,
            mode: CursorMode::Local,
            screen_w: 1920,
            screen_h: 1080,
            peer_w: 2880,
            cursor_x: 960,
            cursor_y: 540,
            virt_x: 0,
            left_pressure: 0,
            pending_dx: 0,
            pending_dy: 0,
            last_flush_ms: 0,
            fwd_count: 0,
        }
    }
}

/// What is left to do after a motion report.
#[derive(Debug, Clone, Copy, PartialEq, Eq, Structural)]
pub enum MotionStep {
    /// Nothing.
    Done,
    /// The motion goes to the peer: scale it by the sensitivity and hand the
    /// result to [`forward_scaled_motion`].
    Scale { dx: i32, dy: i32 },
}

/// The state in which the local mouse drives the peer, entered at `now_ms`.
pub open spec fn entered(lx: LinuxState, now_ms: u64) -> LinuxState {
    LinuxState {
        virt_x: 0,
        pending_dx: 0,
        pending_dy: 0,
        last_flush_ms: now_ms,
        mode: CursorMode::Remote,
        ..lx
    }
}

/// Enters `Remote` mode, unless the peer drives this machine.
pub fn enter_remote(link: &Link, lx: &mut LinuxState, now_ms: u64, out: &mut Vec<Effect>)
    ensures
        link.peer_in_remote ==> *final(lx) == *old(lx) && final(out)@ == old(out)@,
        !link.peer_in_remote ==> *final(lx) == entered(*old(lx), now_ms) && final(out)@ == old(out)@ + link.fired(RemoteEvent::Entered),
{
    if link.peer_in_remote {
        return ;
    }
    lx.virt_x = 0;
    lx.pending_dx = 0;
    lx.pending_dy = 0;
    lx.last_flush_ms = now_ms;
    lx.mode = CursorMode::Remote;
    fire_remote_event(link, RemoteEvent::Entered, out);
}

/// Where the cursor estimate is put when control returns: just inside the
/// edge that adjoins the peer.
pub open spec fn restored_cursor(lx: LinuxState, side: PeerSide) -> (int, int) {
    match side {
        PeerSide::Left => (40, lx.cursor_y as int),
        PeerSide::Right => (if lx.screen_w >= 41 {
            lx.screen_w - 41
        } else {
            0
        }, lx.cursor_y as int),
        PeerSide::Top => (lx.cursor_x as int, 40),
        PeerSide::Bottom => (lx.cursor_x as int, if lx.screen_h >= 41 {
            lx.screen_h - 41
        } else {
            0
        }),
    }
}

/// The state after control has returned to this machine.
pub open spec fn exited(lx: LinuxState, side: PeerSide) -> LinuxState {
    LinuxState {
        cursor_x: restored_cursor(lx, side).0 as i32,
        cursor_y: restored_cursor(lx, side).1 as i32,
        left_pressure: 0,
        mode: CursorMode::Local,
        ..lx
    }
}

/// Leaves `Remote` mode.
pub fn exit_remote(link: &Link, lx: &mut LinuxState, out: &mut Vec<Effect>)
    ensures
        *final(lx) == exited(*old(lx), link.peer_side),
        final(out)@ == old(out)@ + link.fired(RemoteEvent::Exited),
{
    match link.peer_side {
        PeerSide::Left => {
            lx.cursor_x = 40;
        },
        PeerSide::Right => {
            lx.cursor_x = if lx.screen_w >= 41 {
                lx.screen_w - 41
            } else {
                0
            };
        },
        PeerSide::Top => {
            lx.cursor_y = 40;
        },
        PeerSide::Bottom => {
            lx.cursor_y = if lx.screen_h >= 41 {
                lx.screen_h - 41
            } else {
                0
            };
        },
    }
    lx.left_pressure = 0;
    lx.mode = CursorMode::Local;
    fire_remote_event(link, RemoteEvent::Exited, out);
}

/// Whether the local mouse drives the peer.
pub fn local_in_remote(lx: &LinuxState) -> (r: bool)
    ensures
        r == (lx.mode == CursorMode::Remote),
{
    lx.mode == CursorMode::Remote
}

/// No overshoot, and the cursor estimate in the middle of the screen.
pub open spec fn recentred(lx: LinuxState) -> LinuxState {
    LinuxState {
        cursor_x: arith::half(lx.screen_w as int) as i32,
        cursor_y: arith::half(lx.screen_h as int) as i32,
        left_pressure: 0,
        ..lx
    }
}

/// Forgets the overshoot and puts the cursor estimate in the middle of the
/// screen, after the user moved the peer to another side.
pub fn reset_after_side_change(lx: &mut LinuxState)
    ensures
        *final(lx) == recentred(*old(lx)),
{
    lx.cursor_x = arith::half_i32(lx.screen_w);
    lx.cursor_y = arith::half_i32(lx.screen_h);
    lx.left_pressure = 0;
}

/// Leaves `Remote` mode if the local mouse is in it.
pub fn force_exit_remote(link: &Link, lx: &mut LinuxState, out: &mut Vec<Effect>)
    ensures
        *final(lx) == forced_out(*link, *old(lx)),
        final(out)@ == old(out)@ + forced_out_effects(*link, *old(lx)),
{
    if lx.mode == CursorMode::Remote {
        exit_remote(link, lx, out);
    }
    assert(out@ =~= old(out)@ + forced_out_effects(*link, *old(lx)));
}

/// The state after `Remote` mode was left, if the local mouse was in it.
pub open spec fn forced_out(link: Link, lx: LinuxState) -> LinuxState {
    if lx.mode == CursorMode::Remote {
        exited(lx, link.peer_side)
    } else {
        lx
    }
}

pub open spec fn forced_out_effects(link: Link, lx: LinuxState) -> Seq<Effect> {
    if lx.mode == CursorMode::Remote {
        link.fired(RemoteEvent::Exited)
    } else {
        Seq::empty()
    }
}

/// The state after the pending motion was sent.
pub open spec fn flushed(lx: LinuxState, now_ms: u64) -> LinuxState {
    if lx.pending_dx == 0 && lx.pending_dy == 0 {
        lx
    } else {
        LinuxState {
            pending_dx: 0,
            pending_dy: 0,
            last_flush_ms: now_ms,
            fwd_count: lx.fwd_count.wrapping_add(1),
            ..lx
        }
    }
}

/// One combined motion for all that is pending, nothing when nothing is.
pub open spec fn flush_effects(lx: LinuxState) -> Seq<Effect> {
    if lx.pending_dx == 0 && lx.pending_dy == 0 {
        Seq::empty()
    } else {
        seq![Effect::Forward(InputEvent::MouseMove { dx: lx.pending_dx, dy: lx.pending_dy })]
    }
}

/// Sends the pending motion.
pub fn flush_pending(lx: &mut LinuxState, now_ms: u64, out: &mut Vec<Effect>)
    ensures
        *final(lx) == flushed(*old(lx), now_ms),
        final(out)@ == old(out)@ + flush_effects(*old(lx)),
{
    let dx: i32 = lx.pending_dx;
    let dy: i32 = lx.pending_dy;
    if dx == 0 && dy == 0 {
        assert(out@ =~= old(out)@ + flush_effects(*old(lx)));
        return ;
    }
    lx.pending_dx = 0;
    lx.pending_dy = 0;
    lx.last_flush_ms = now_ms;
    out.push(Effect::Forward(InputEvent::MouseMove { dx, dy }));
    lx.fwd_count = lx.fwd_count.wrapping_add(1);
    assert(out@ =~= old(out)@ + flush_effects(*old(lx)));
}

/// Whether collected motion is due.
pub open spec fn flush_due(lx: LinuxState, now_ms: u64) -> bool {
    arith::elapsed(now_ms, lx.last_flush_ms) >= FLUSH_INTERVAL_MS
}

/// The periodic tick that sends motion which no later report pushed out.
pub fn flush_watchdog_tick(lx: &mut LinuxState, now_ms: u64, out: &mut Vec<Effect>)
    ensures
        old(lx).mode == CursorMode::Remote && flush_due(*old(lx), now_ms) ==> *final(lx) == flushed(
            *old(lx),
            now_ms,
        ) && final(out)@ == old(out)@ + flush_effects(*old(lx)),
        !(old(lx).mode == CursorMode::Remote && flush_due(*old(lx), now_ms)) ==> *final(lx) == *old(lx) && final(out)@ == old(out)@,
{
    if lx.mode != CursorMode::Remote {
        return ;
    }
    if now_ms.saturating_sub(lx.last_flush_ms) >= FLUSH_INTERVAL_MS {
        flush_pending(lx, now_ms, out);
    }
}

/// How far a position lies past the edge that adjoins the peer.
pub open spec fn overshoot(lx: LinuxState, side: PeerSide, x: int, y: int) -> int {
    match side {
        PeerSide::Left => -x,
        PeerSide::Right => x - (lx.screen_w - 1),
        PeerSide::Top => -y,
        PeerSide::Bottom => y - (lx.screen_h - 1),
    }
}

/// Motion into the peer's screen, as a positive depth.
pub open spec fn depth_delta(side: PeerSide, dx: int, dy: int) -> int {
    match side {
        PeerSide::Left => -dx,
        PeerSide::Right => dx,
        PeerSide::Top => -dy,
        PeerSide::Bottom => dy,
    }
}

/// Overshoot that enters `Remote` mode.
pub open spec fn enter_threshold(side: PeerSide) -> int {
    if side.horizontal() {
        ENTER_PRESSURE_HORIZ_PX as int
    } else {
        ENTER_PRESSURE_VERT_PX as int
    }
}

/// The last position inside an extent.
pub open spec fn last_inside(extent: i32) -> int {
    if extent >= 1 {
        extent - 1
    } else {
        0
    }
}

/// The cursor estimate after a local motion: moved, and clamped to the screen
/// as the system clamps the cursor itself.
pub open spec fn followed(lx: LinuxState, dx: int, dy: int) -> LinuxState {
    LinuxState {
        cursor_x: arith::clamp(lx.cursor_x + dx, 0, last_inside(lx.screen_w)) as i32,
        cursor_y: arith::clamp(lx.cursor_y + dy, 0, last_inside(lx.screen_h)) as i32,
        ..lx
    }
}

/// Whether a local motion presses on against the shared edge.
pub open spec fn presses(lx: LinuxState, side: PeerSide, dx: int, dy: int) -> bool {
    overshoot(lx, side, lx.cursor_x + dx, lx.cursor_y + dy) > 0
}

/// The overshoot collected once a local motion has been added.
pub open spec fn pressure_after(lx: LinuxState, side: PeerSide, dx: int, dy: int) -> int {
    lx.left_pressure + overshoot(lx, side, lx.cursor_x + dx, lx.cursor_y + dy)
}

/// Whether a local motion enters `Remote` mode.
pub open spec fn press_enters(
    lx: LinuxState,
    side: PeerSide,
    locked: bool,
    dx: int,
    dy: int,
) -> bool {
    presses(lx, side, dx, dy) && !locked && pressure_after(lx, side, dx, dy) >= enter_threshold(
        side,
    )
}

/// The cursor estimate and the overshoot after a motion in `Local` mode. A
/// lock and the entry itself forget the overshoot, and so does a motion away
/// from the edge.
pub open spec fn pressed(
    lx: LinuxState,
    side: PeerSide,
    locked: bool,
    dx: int,
    dy: int,
) -> LinuxState {
    LinuxState {
        left_pressure: if presses(lx, side, dx, dy) {
            if locked || press_enters(lx, side, locked, dx, dy) {
                0
            } else {
                pressure_after(lx, side, dx, dy) as i32
            }
        } else if depth_delta(side, dx, dy) < 0 {
            0
        } else {
            lx.left_pressure
        },
        ..followed(lx, dx, dy)
    }
}

/// The depth in the peer's screen after a motion in `Remote` mode.
pub open spec fn depth_after(lx: LinuxState, side: PeerSide, dx: int, dy: int) -> int {
    arith::clamp(lx.virt_x + depth_delta(side, dx, dy), -EXIT_BUFFER_PX as int, lx.peer_w as int)
}

/// Whether a value fits the coordinates of the capture code.
pub open spec fn fits(v: int) -> bool {
    i32::MIN <= v <= i32::MAX
}

/// The overshoot of a press fits its type, and so does what is collected of it.
pub open spec fn press_fits(lx: LinuxState, side: PeerSide, locked: bool, dx: int, dy: int) -> bool {
    &&& fits(overshoot(lx, side, lx.cursor_x + dx, lx.cursor_y + dy))
    &&& !locked ==> fits(pressure_after(lx, side, dx, dy))
}

/// Every coordinate that a motion report leads to fits its type.
pub open spec fn batch_fits(link: Link, lx: LinuxState, dx: int, dy: int) -> bool {
    if lx.mode == CursorMode::Remote {
        &&& fits(depth_delta(link.peer_side, dx, dy))
        &&& fits(lx.virt_x + depth_delta(link.peer_side, dx, dy))
        &&& lx.peer_w >= -EXIT_BUFFER_PX
    } else if link.peer_in_remote {
        fits(arith::magnitude(dx) + arith::magnitude(dy))
    } else {
        &&& fits(lx.cursor_x + dx)
        &&& fits(lx.cursor_y + dy)
        &&& fits(lx.screen_w - 1)
        &&& fits(lx.screen_h - 1)
        &&& presses(lx, link.peer_side, dx, dy) ==> press_fits(
            lx,
            link.peer_side,
            link.input_locked,
            dx,
            dy,
        )
    }
}

/// The state after a motion report. In `Local` mode an edge press enters
/// `Remote` mode, unless the peer drives this machine; in `Remote` mode the
/// depth moves, and control returns once the cursor was pulled back far enough.
pub open spec fn after_batch(
    link: Link,
    lx: LinuxState,
    dx: int,
    dy: int,
    now_ms: u64,
) -> LinuxState {
    if lx.mode == CursorMode::Local {
        if link.peer_in_remote {
            lx
        } else {
            let moved = pressed(lx, link.peer_side, link.input_locked, dx, dy);
            if press_enters(lx, link.peer_side, link.input_locked, dx, dy) {
                entered(moved, now_ms)
            } else {
                moved
            }
        }
    } else {
        let moved = LinuxState { virt_x: depth_after(lx, link.peer_side, dx, dy) as i32, ..lx };
        if moved.virt_x <= -EXIT_BUFFER_PX {
            exited(flushed(moved, now_ms), link.peer_side)
        } else {
            moved
        }
    }
}

/// What a motion report sends: a request to the peer when the user moves a
/// mouse that the peer drives, the entry into `Remote` mode, or the motion
/// that was still pending and the return of control.
pub open spec fn batch_effects(link: Link, lx: LinuxState, dx: int, dy: int) -> Seq<Effect> {
    if lx.mode == CursorMode::Local {
        if link.peer_in_remote {
            if arith::magnitude(dx) + arith::magnitude(dy) > 5 {
                link.fired(RemoteEvent::RequestPeerExit)
            } else {
                Seq::empty()
            }
        } else if press_enters(lx, link.peer_side, link.input_locked, dx, dy) {
            link.fired(RemoteEvent::Entered)
        } else {
            Seq::empty()
        }
    } else if depth_after(lx, link.peer_side, dx, dy) <= -EXIT_BUFFER_PX {
        flush_effects(lx) + link.fired(RemoteEvent::Exited)
    } else {
        Seq::empty()
    }
}

/// What is left to do after a motion report: motion that goes to the peer is
/// to be scaled.
pub open spec fn batch_step(link: Link, lx: LinuxState, dx: i32, dy: i32) -> MotionStep {
    if lx.mode == CursorMode::Remote && depth_after(lx, link.peer_side, dx as int, dy as int)
        > -EXIT_BUFFER_PX {
        MotionStep::Scale { dx, dy }
    } else {
        MotionStep::Done
    }
}

/// Handles one synchronised motion report.
pub fn handle_motion_batch(
    link: &Link,
    lx: &mut LinuxState,
    dx: i32,
    dy: i32,
    now_ms: u64,
    out: &mut Vec<Effect>,
) -> (r: MotionStep)
    requires
        batch_fits(*link, *old(lx), dx as int, dy as int),
    ensures
        r == batch_step(*link, *old(lx), dx, dy),
        *final(lx) == after_batch(*link, *old(lx), dx as int, dy as int, now_ms),
        final(out)@ == old(out)@ + batch_effects(*link, *old(lx), dx as int, dy as int),
{
    if lx.mode == CursorMode::Local {
        if link.peer_in_remote {
            if magnitude_i64(dx as i64) + magnitude_i64(dy as i64) > 5 {
                fire_remote_event(link, RemoteEvent::RequestPeerExit, out);
            }
        } else if press_edge(lx, link.peer_side, link.input_locked, dx, dy) {
            enter_remote(link, lx, now_ms, out);
        }
        assert(out@ =~= old(out)@ + batch_effects(*link, *old(lx), dx as int, dy as int));
        MotionStep::Done
    } else {
        let depth: i32 = move_in_peer(lx, link.peer_side, dx, dy);
        if depth <= -EXIT_BUFFER_PX {
            flush_pending(lx, now_ms, out);
            exit_remote(link, lx, out);
            assert(out@ =~= old(out)@ + batch_effects(*link, *old(lx), dx as int, dy as int));
            return MotionStep::Done;
        }
        assert(out@ =~= old(out)@ + batch_effects(*link, *old(lx), dx as int, dy as int));
        MotionStep::Scale { dx, dy }
    }
}

/// Moves the depth in the peer's screen; tells the new depth.
fn move_in_peer(lx: &mut LinuxState, side: PeerSide, dx: i32, dy: i32) -> (depth: i32)
    requires
        fits(depth_delta(side, dx as int, dy as int)),
        fits(old(lx).virt_x + depth_delta(side, dx as int, dy as int)),
        old(lx).peer_w >= -EXIT_BUFFER_PX,
    ensures
        depth == depth_after(*old(lx), side, dx as int, dy as int),
        *final(lx) == (LinuxState { virt_x: depth, ..*old(lx) }),
{
    let depth_dx: i32 = match side {
        PeerSide::Left => -dx,
        PeerSide::Right => dx,
        PeerSide::Top => -dy,
        PeerSide::Bottom => dy,
    };
    let depth: i32 = clamp_i32(lx.virt_x + depth_dx, -EXIT_BUFFER_PX, lx.peer_w);
    lx.virt_x = depth;
    depth
}

/// Moves the cursor estimate and collects overshoot past the shared edge;
/// tells whether there is enough of it to enter `Remote` mode.
fn press_edge(lx: &mut LinuxState, side: PeerSide, locked: bool, dx: i32, dy: i32) -> (enters: bool)
    requires
        fits(old(lx).cursor_x + dx),
        fits(old(lx).cursor_y + dy),
        fits(old(lx).screen_w - 1),
        fits(old(lx).screen_h - 1),
        presses(*old(lx), side, dx as int, dy as int) ==> press_fits(
            *old(lx),
            side,
            locked,
            dx as int,
            dy as int,
        ),
    ensures
        enters == press_enters(*old(lx), side, locked, dx as int, dy as int),
        *final(lx) == pressed(*old(lx), side, locked, dx as int, dy as int),
{
    let raw_x: i32 = lx.cursor_x + dx;
    let raw_y: i32 = lx.cursor_y + dy;
    lx.cursor_x = clamp_i32(raw_x, 0, max_i32(lx.screen_w - 1, 0));
    lx.cursor_y = clamp_i32(raw_y, 0, max_i32(lx.screen_h - 1, 0));
    let over: i32;
    let cancel: bool;
    match side {
        PeerSide::Left => {
            over = if raw_x < 0 {
                -raw_x
            } else {
                0
            };
            cancel = dx > 0;
        },
        PeerSide::Right => {
            over = if raw_x > lx.screen_w - 1 {
                raw_x - (lx.screen_w - 1)
            } else {
                0
            };
            cancel = dx < 0;
        },
        PeerSide::Top => {
            over = if raw_y < 0 {
                -raw_y
            } else {
                0
            };
            cancel = dy > 0;
        },
        PeerSide::Bottom => {
            over = if raw_y > lx.screen_h - 1 {
                raw_y - (lx.screen_h - 1)
            } else {
                0
            };
            cancel = dy < 0;
        },
    }
    if over > 0 {
        if locked {
            lx.left_pressure = 0;
            return false;
        }
        let threshold: i32 = if side.is_horizontal() {
            ENTER_PRESSURE_HORIZ_PX
        } else {
            ENTER_PRESSURE_VERT_PX
        };
        let pressure: i32 = lx.left_pressure + over;
        if pressure >= threshold {
            lx.left_pressure = 0;
            return true;
        }
        lx.left_pressure = pressure;
    } else if cancel {
        lx.left_pressure = 0;
    }
    false
}

/// The state once a scaled motion has been added to what is pending.
pub open spec fn collected(lx: LinuxState, dx: int, dy: int) -> LinuxState {
    let fdx = arith::clamp(dx, -MAX_DELTA_PX as int, MAX_DELTA_PX as int) as i32;
    let fdy = arith::clamp(dy, -MAX_DELTA_PX as int, MAX_DELTA_PX as int) as i32;
    LinuxState {
        pending_dx: lx.pending_dx.wrapping_add(fdx),
        pending_dy: lx.pending_dy.wrapping_add(fdy),
        ..lx
    }
}

/// Adds a motion, already scaled by the sensitivity, to what is pending, and
/// sends it all once the interval is over.
pub fn forward_scaled_motion(
    lx: &mut LinuxState,
    scaled_dx: i32,
    scaled_dy: i32,
    now_ms: u64,
    out: &mut Vec<Effect>,
)
    ensures
        ({
            let sum = collected(*old(lx), scaled_dx as int, scaled_dy as int);
            if flush_due(*old(lx), now_ms) {
                *final(lx) == flushed(sum, now_ms) && final(out)@ == old(out)@ + flush_effects(sum)
            } else {
                *final(lx) == sum && final(out)@ == old(out)@
            }
        }),
{
    let fdx: i32 = clamp_i32(scaled_dx, -MAX_DELTA_PX, MAX_DELTA_PX);
    let fdy: i32 = clamp_i32(scaled_dy, -MAX_DELTA_PX, MAX_DELTA_PX);
    lx.pending_dx = lx.pending_dx.wrapping_add(fdx);
    lx.pending_dy = lx.pending_dy.wrapping_add(fdy);
    if now_ms.saturating_sub(lx.last_flush_ms) >= FLUSH_INTERVAL_MS {
        flush_pending(lx, now_ms, out);
    }
}

/// Numbers of the keys and buttons that the capture treats specially.
pub const KEY_R: u16 = 19;

pub const KEY_LEFTCTRL: u16 = 29;

pub const KEY_K: u16 = 37;

pub const KEY_L: u16 = 38;

pub const KEY_LEFTALT: u16 = 56;

pub const KEY_RIGHTCTRL: u16 = 97;

pub const KEY_RIGHTALT: u16 = 100;

pub const BTN_LEFT: u16 = 0x110;

pub const BTN_RIGHT: u16 = 0x111;

pub const BTN_MIDDLE: u16 = 0x112;

pub const BTN_SIDE: u16 = 0x113;

pub const BTN_EXTRA: u16 = 0x114;

/// Numbers of the relative axes.
pub const REL_X: u16 = 0;

pub const REL_Y: u16 = 1;

pub const REL_HWHEEL: u16 = 6;

pub const REL_WHEEL: u16 = 8;

/// The mouse button that a key number stands for.
pub open spec fn button_of_key(code: u16) -> Option<Button> {
    if code == BTN_LEFT {
        Some(Button::Left)
    } else if code == BTN_RIGHT {
        Some(Button::Right)
    } else if code == BTN_MIDDLE {
        Some(Button::Middle)
    } else if code == BTN_SIDE {
        Some(Button::X1)
    } else if code == BTN_EXTRA {
        Some(Button::X2)
    } else {
        None
    }
}

/// The mouse button that a key number stands for, if any.
pub fn button_from_key(code: u16) -> (r: Option<Button>)
    ensures
        r == button_of_key(code),
{
    if code == BTN_LEFT {
        Some(Button::Left)
    } else if code == BTN_RIGHT {
        Some(Button::Right)
    } else if code == BTN_MIDDLE {
        Some(Button::Middle)
    } else if code == BTN_SIDE {
        Some(Button::X1)
    } else if code == BTN_EXTRA {
        Some(Button::X2)
    } else {
        None
    }
}

/// The key number of a mouse button.
pub open spec fn button_code(btn: Button) -> u16 {
    match btn {
        Button::Left => BTN_LEFT,
        Button::Right => BTN_RIGHT,
        Button::Middle => BTN_MIDDLE,
        Button::X1 => BTN_SIDE,
        Button::X2 => BTN_EXTRA,
    }
}

/// The key number of a mouse button: the one that stands for it.
pub fn key_from_button(btn: Button) -> (r: u16)
    ensures
        r == button_code(btn),
        button_of_key(r) == Some(btn),
{
    match btn {
        Button::Left => BTN_LEFT,
        Button::Right => BTN_RIGHT,
        Button::Middle => BTN_MIDDLE,
        Button::X1 => BTN_SIDE,
        Button::X2 => BTN_EXTRA,
    }
}

/// Each key number stands for at most one button and each button for one key
/// number.
pub proof fn button_numbers_are_unique(a: u16, b: u16)
    ensures
        button_of_key(a) is Some && button_of_key(a) == button_of_key(b) ==> a == b,
{
}

/// One event of an input device.
#[derive(Debug, Clone, Copy, PartialEq, Eq, Structural)]
pub enum DeviceEvent {
    /// Motion on a relative axis.
    Relative { axis: u16, value: i32 },
    /// A key or button: 0 is a release, 1 a press, 2 a repetition.
    Key { code: u16, value: i32 },
    /// The end of a report.
    SynReport,
    Other,
}

/// What the reader of one device remembers.
#[derive(Debug, Clone, Copy, PartialEq, Eq, Structural)]
pub struct Pump {
    /// Whether the device moves a pointer.
    pub is_pointer: bool,
    pub accum_dx: i32,
    pub accum_dy: i32,
    pub grabbed: bool,
}

/// Whether the device is to be kept from the system: all devices while the
/// local mouse drives the peer, pointers also while the peer drives this
/// machine.
pub open spec fn wants_grab(link: Link, lx: LinuxState, pump: Pump) -> bool {
    lx.mode == CursorMode::Remote || (link.peer_in_remote && pump.is_pointer)
}

/// What has to happen to the device before its events are read.
#[derive(Debug, Clone, Copy, PartialEq, Eq, Structural)]
pub enum GrabChange {
    Keep,
    Grab,
    Ungrab,
}

/// Decides whether the device is to be grabbed or let go.
pub fn grab_change(link: &Link, lx: &LinuxState, pump: &Pump) -> (r: GrabChange)
    ensures
        r == if wants_grab(*link, *lx, *pump) == pump.grabbed {
            GrabChange::Keep
        } else if pump.grabbed {
            GrabChange::Ungrab
        } else {
            GrabChange::Grab
        },
{
    let we_drive = lx.mode == CursorMode::Remote;
    let want = we_drive || (link.peer_in_remote && pump.is_pointer);
    if want == pump.grabbed {
        GrabChange::Keep
    } else if want {
        GrabChange::Grab
    } else {
        GrabChange::Ungrab
    }
}

/// Notes the outcome of a change: a grab may fail and is then tried again,
/// letting go always counts as done.
pub fn note_grab(pump: &mut Pump, change: GrabChange, ok: bool)
    ensures
        *final(pump) == (Pump {
            grabbed: match change {
                GrabChange::Keep => old(pump).grabbed,
                GrabChange::Grab => old(pump).grabbed || ok,
                GrabChange::Ungrab => false,
            },
            ..*old(pump)
        }),
{
    match change {
        GrabChange::Keep => {},
        GrabChange::Grab => {
            if ok {
                pump.grabbed = true;
            }
        },
        GrabChange::Ungrab => {
            pump.grabbed = false;
        },
    }
}

/// The modifiers after a key event. Only presses and releases count: a
/// repetition leaves them as they are.
pub open spec fn modifiers_after(lx: LinuxState, code: u16, value: i32) -> LinuxState {
    let edge = value == 0 || value == 1;
    LinuxState {
        mod_ctrl: if edge && (code == KEY_LEFTCTRL || code == KEY_RIGHTCTRL) {
            value == 1
        } else {
            lx.mod_ctrl
        },
        mod_alt: if edge && (code == KEY_LEFTALT || code == KEY_RIGHTALT) {
            value == 1
        } else {
            lx.mod_alt
        },
        ..lx
    }
}

fn note_modifier(lx: &mut LinuxState, code: u16, value: i32)
    ensures
        *final(lx) == modifiers_after(*old(lx), code, value),
{
    if value == 0 || value == 1 {
        if code == KEY_LEFTCTRL || code == KEY_RIGHTCTRL {
            lx.mod_ctrl = value == 1;
        }
        if code == KEY_LEFTALT || code == KEY_RIGHTALT {
            lx.mod_alt = value == 1;
        }
    }
}

/// Whether an event presses a hotkey: the key with both modifiers held.
pub open spec fn hotkey(lx: LinuxState, code: u16, value: i32, key: u16) -> bool {
    value == 1 && code == key && lx.mod_ctrl && lx.mod_alt
}

/// The state after the hotkey that switches between the machines: the local
/// mouse comes back, or the peer is asked to let go, or the local mouse goes
/// over.
pub open spec fn switched(st: InputState, now_ms: u64) -> InputState {
    if st.linux.mode == CursorMode::Remote {
        InputState { linux: exited(st.linux, st.link.peer_side), ..st }
    } else if st.link.peer_in_remote {
        st
    } else {
        InputState { linux: entered(st.linux, now_ms), ..st }
    }
}

pub open spec fn switch_effects(st: InputState) -> Seq<Effect> {
    st.link.fired(
        if st.linux.mode == CursorMode::Remote {
            RemoteEvent::Exited
        } else if st.link.peer_in_remote {
            RemoteEvent::RequestPeerExit
        } else {
            RemoteEvent::Entered
        },
    )
}

fn switch_sides(st: &mut InputState, now_ms: u64, out: &mut Vec<Effect>)
    ensures
        *final(st) == switched(*old(st), now_ms),
        final(out)@ == old(out)@ + switch_effects(*old(st)),
{
    if st.linux.mode == CursorMode::Remote {
        exit_remote(&st.link, &mut st.linux, out);
    } else if st.link.peer_in_remote {
        fire_remote_event(&st.link, RemoteEvent::RequestPeerExit, out);
    } else {
        enter_remote(&st.link, &mut st.linux, now_ms, out);
    }
}

/// How a key or button event that is no hotkey changes the state and what it
/// sends. A press counts as a click for a button; an edge that goes to the
/// peer is sent, and a key is counted.
pub open spec fn edge_routed(
    pre: InputState,
    post: InputState,
    code: u16,
    value: i32,
    now_ms: u64,
    sent: Seq<Effect>,
) -> bool {
    let down = value != 0;
    let remote = pre.linux.mode == CursorMode::Remote;
    match button_of_key(code) {
        Some(btn) => {
            let to_peer = input::button_to_peer(pre.keys, btn, down, remote);
            &&& post == (InputState {
                activity: if down {
                    Activity { local_click_at: now_ms, ..pre.activity }
                } else {
                    pre.activity
                },
                keys: KeyRouting { held_buttons: post.keys.held_buttons, ..pre.keys },
                ..pre
            })
            &&& post.keys.held() == input::held_after(
                pre.keys.held(),
                InputEvent::MouseButton { btn, down },
                to_peer,
            )
            &&& sent == input::when(
                to_peer,
                Effect::Forward(InputEvent::MouseButton { btn, down }),
            )
        },
        None => {
            let to_peer = input::keystroke_to_peer(pre, code, down, remote, now_ms);
            let event = InputEvent::Key { code: KeyCode(code), down };
            &&& post == (InputState {
                keys: KeyRouting {
                    held_keys: post.keys.held_keys,
                    last_smart_to_peer: if down && !pre.keys.held().keys.contains(code as int) {
                        input::remembered_answer(pre, remote, now_ms)
                    } else {
                        pre.keys.last_smart_to_peer
                    },
                    keys_forwarded: if to_peer {
                        pre.keys.keys_forwarded.wrapping_add(1)
                    } else {
                        pre.keys.keys_forwarded
                    },
                    ..pre.keys
                },
                ..pre
            })
            &&& post.keys.held() == input::held_after(pre.keys.held(), event, to_peer)
            &&& sent == input::when(to_peer, Effect::Forward(event))
        },
    }
}

fn route_edge(st: &mut InputState, code: u16, value: i32, now_ms: u64, out: &mut Vec<Effect>)
    ensures
        exists|sent: Seq<Effect>|
            #![trigger edge_routed(*old(st), *final(st), code, value, now_ms, sent)]
            edge_routed(*old(st), *final(st), code, value, now_ms, sent) && final(out)@ == old(out)@
                + sent,
{
    let down = value != 0;
    let remote = st.linux.mode == CursorMode::Remote;
    match button_from_key(code) {
        Some(btn) => {
            if down {
                bump_local_click(&mut st.activity, now_ms);
            }
            let to_peer = route_mouse_button(&mut st.keys, btn, down, remote);
            let event = Effect::Forward(InputEvent::MouseButton { btn, down });
            push_when(to_peer, event, out);
            assert(edge_routed(
                *old(st),
                *st,
                code,
                value,
                now_ms,
                input::when(to_peer, event),
            ));
        },
        None => {
            let to_peer = route_keystroke(st, code, down, remote, now_ms);
            let event = Effect::Forward(InputEvent::Key { code: KeyCode(code), down });
            push_when(to_peer, event, out);
            if to_peer {
                let ghost held = st.keys.held();
                note_key_forwarded_with_code(&mut st.keys);
                assert(st.keys.held() =~= held);
            }
            assert(edge_routed(
                *old(st),
                *st,
                code,
                value,
                now_ms,
                input::when(to_peer, event),
            ));
        },
    }
}

/// How a key event changes the state and what it sends. `mid` is the state in
/// which the modifiers already count.
pub open spec fn key_handled(
    pre: InputState,
    post: InputState,
    code: u16,
    value: i32,
    now_ms: u64,
    sent: Seq<Effect>,
) -> bool {
    let mid = InputState { linux: modifiers_after(pre.linux, code, value), ..pre };
    if hotkey(mid.linux, code, value, KEY_R) {
        post == switched(mid, now_ms) && sent == switch_effects(mid)
    } else if hotkey(mid.linux, code, value, KEY_L) {
        if pre.link.input_locked {
            post == input::with_lock(mid, false) && sent == Seq::<Effect>::empty()
        } else {
            let locked = input::with_lock(mid, true);
            post == input::forced_local(locked) && sent
                == input::forced_local_effects(locked)
        }
    } else if hotkey(mid.linux, code, value, KEY_K) {
        post == (InputState {
            keys: KeyRouting {
                keyboard_target: input::next_target(pre.keys.keyboard_target),
                ..pre.keys
            },
            ..mid
        }) && sent == Seq::<Effect>::empty()
    } else {
        edge_routed(mid, post, code, value, now_ms, sent)
    }
}

/// Handles one key or button event: the hotkeys first, then the routing.
pub fn handle_key(st: &mut InputState, code: u16, value: i32, now_ms: u64, out: &mut Vec<Effect>)
    requires
        old(st).well_formed(),
    ensures
        final(st).well_formed(),
        exists|sent: Seq<Effect>|
            #![trigger key_handled(*old(st), *final(st), code, value, now_ms, sent)]
            key_handled(*old(st), *final(st), code, value, now_ms, sent) && final(out)@ == old(out)@
                + sent,
{
    let ghost base = out@;
    note_modifier(&mut st.linux, code, value);
    let ghost mid = *st;
    let armed = value == 1 && st.linux.mod_ctrl && st.linux.mod_alt;
    if armed && code == KEY_R {
        switch_sides(st, now_ms, out);
        assert(key_handled(*old(st), *st, code, value, now_ms, switch_effects(mid)));
    } else if armed && code == KEY_L {
        let next = !st.link.input_locked;
        set_input_locked(st, next, out);
        let ghost sent = if next {
            input::forced_local_effects(input::with_lock(mid, true))
        } else {
            Seq::empty()
        };
        assert(key_handled(*old(st), *st, code, value, now_ms, sent));
        assert(out@ =~= base + sent);
    } else if armed && code == KEY_K {
        cycle_keyboard_target(&mut st.keys);
        assert(key_handled(*old(st), *st, code, value, now_ms, Seq::empty()));
        assert(out@ =~= base + Seq::<Effect>::empty());
    } else {
        route_edge(st, code, value, now_ms, out);
        let ghost sent = choose|sent: Seq<Effect>|
            #![trigger edge_routed(mid, *st, code, value, now_ms, sent)]
            edge_routed(mid, *st, code, value, now_ms, sent) && out@ == base + sent;
        assert(key_handled(*old(st), *st, code, value, now_ms, sent));
    }
}

/// A wheel event that goes to the peer, turned around where the user asked
/// for it.
pub open spec fn wheel_effects(
    lx: LinuxState,
    tuning: Tuning,
    horizontal: bool,
    value: i32,
) -> Seq<Effect> {
    let inverted = if horizontal {
        tuning.invert_scroll_x
    } else {
        tuning.invert_scroll_y
    };
    input::when(
        lx.mode == CursorMode::Remote,
        Effect::ForwardWheel {
            horizontal,
            units: (if inverted {
                -value
            } else {
                value as int
            }) as i64,
        },
    )
}

/// Handles one wheel event.
pub fn handle_wheel(
    lx: &LinuxState,
    tuning: &Tuning,
    horizontal: bool,
    value: i32,
    out: &mut Vec<Effect>,
)
    ensures
        final(out)@ == old(out)@ + wheel_effects(*lx, *tuning, horizontal, value),
{
    let inverted = if horizontal {
        tuning.invert_scroll_x
    } else {
        tuning.invert_scroll_y
    };
    let units: i64 = if inverted {
        -(value as i64)
    } else {
        value as i64
    };
    push_when(lx.mode == CursorMode::Remote, Effect::ForwardWheel { horizontal, units }, out);
}

/// Every number that an event leads to fits its type.
pub open spec fn event_fits(st: InputState, pump: Pump, ev: DeviceEvent) -> bool {
    match ev {
        DeviceEvent::Relative { axis, value } => if axis == REL_X {
            fits(pump.accum_dx + value)
        } else if axis == REL_Y {
            fits(pump.accum_dy + value)
        } else {
            true
        },
        DeviceEvent::SynReport => batch_fits(
            st.link,
            st.linux,
            pump.accum_dx as int,
            pump.accum_dy as int,
        ),
        _ => true,
    }
}

/// How one event of a device changes the state and the reader of the device,
/// what it sends, and what is left to do.
pub open spec fn pumped(
    pre: InputState,
    post: InputState,
    before: Pump,
    after: Pump,
    ev: DeviceEvent,
    now_ms: u64,
    sent: Seq<Effect>,
    r: MotionStep,
) -> bool {
    match ev {
        DeviceEvent::Relative { axis, value } => {
            let moves = axis == REL_X || axis == REL_Y;
            &&& r == MotionStep::Done
            &&& post == (InputState {
                activity: if moves {
                    pre.activity.after_motion(now_ms)
                } else {
                    pre.activity
                },
                ..pre
            })
            &&& after == (Pump {
                accum_dx: if axis == REL_X {
                    (before.accum_dx + value) as i32
                } else {
                    before.accum_dx
                },
                accum_dy: if axis == REL_Y {
                    (before.accum_dy + value) as i32
                } else {
                    before.accum_dy
                },
                ..before
            })
            &&& sent == if axis == REL_WHEEL || axis == REL_HWHEEL {
                wheel_effects(pre.linux, pre.tuning, axis == REL_HWHEEL, value)
            } else {
                Seq::empty()
            }
        },
        DeviceEvent::Key { code, value } => {
            &&& r == MotionStep::Done
            &&& after == before
            &&& key_handled(pre, post, code, value, now_ms, sent)
        },
        DeviceEvent::SynReport => if before.accum_dx == 0 && before.accum_dy == 0 {
            r == MotionStep::Done && post == pre && after == before && sent == Seq::<Effect>::empty()
        } else {
            &&& r == batch_step(pre.link, pre.linux, before.accum_dx, before.accum_dy)
            &&& post == (InputState {
                linux: after_batch(
                    pre.link,
                    pre.linux,
                    before.accum_dx as int,
                    before.accum_dy as int,
                    now_ms,
                ),
                ..pre
            })
            &&& after == (Pump { accum_dx: 0, accum_dy: 0, ..before })
            &&& sent == batch_effects(
                pre.link,
                pre.linux,
                before.accum_dx as int,
                before.accum_dy as int,
            )
        },
        DeviceEvent::Other => r == MotionStep::Done && post == pre && after == before && sent == Seq::<
            Effect,
        >::empty(),
    }
}

/// Handles one event of a device.
pub fn pump_device(
    st: &mut InputState,
    pump: &mut Pump,
    ev: DeviceEvent,
    now_ms: u64,
    out: &mut Vec<Effect>,
) -> (r: MotionStep)
    requires
        old(st).well_formed(),
        event_fits(*old(st), *old(pump), ev),
    ensures
        final(st).well_formed(),
        exists|sent: Seq<Effect>|
            #![trigger pumped(*old(st), *final(st), *old(pump), *final(pump), ev, now_ms, sent, r)]
            pumped(*old(st), *final(st), *old(pump), *final(pump), ev, now_ms, sent, r) && final(out)@ == old(out)@ + sent,
{
    let ghost base = out@;
    let ghost none = Seq::<Effect>::empty();
    match ev {
        DeviceEvent::Relative { axis, value } => {
            let ghost sent = if axis == REL_WHEEL || axis == REL_HWHEEL {
                wheel_effects(st.linux, st.tuning, axis == REL_HWHEEL, value)
            } else {
                none
            };
            if axis == REL_X {
                pump.accum_dx = pump.accum_dx + value;
                bump_local_mouse_activity(&mut st.activity, now_ms);
            } else if axis == REL_Y {
                pump.accum_dy = pump.accum_dy + value;
                bump_local_mouse_activity(&mut st.activity, now_ms);
            } else if axis == REL_WHEEL {
                handle_wheel(&st.linux, &st.tuning, false, value, out);
            } else if axis == REL_HWHEEL {
                handle_wheel(&st.linux, &st.tuning, true, value, out);
            }
            assert(out@ =~= base + sent);
            assert(pumped(
                *old(st),
                *st,
                *old(pump),
                *pump,
                ev,
                now_ms,
                sent,
                MotionStep::Done,
            ));
            MotionStep::Done
        },
        DeviceEvent::Key { code, value } => {
            handle_key(st, code, value, now_ms, out);
            let ghost sent = choose|sent: Seq<Effect>|
                #![trigger key_handled(*old(st), *st, code, value, now_ms, sent)]
                key_handled(*old(st), *st, code, value, now_ms, sent) && out@ == base + sent;
            assert(pumped(
                *old(st),
                *st,
                *old(pump),
                *pump,
                ev,
                now_ms,
                sent,
                MotionStep::Done,
            ));
            MotionStep::Done
        },
        DeviceEvent::SynReport => {
            if pump.accum_dx != 0 || pump.accum_dy != 0 {
                let dx: i32 = pump.accum_dx;
                let dy: i32 = pump.accum_dy;
                let ghost sent = batch_effects(st.link, st.linux, dx as int, dy as int);
                let step = handle_motion_batch(&st.link, &mut st.linux, dx, dy, now_ms, out);
                pump.accum_dx = 0;
                pump.accum_dy = 0;
                assert(pumped(*old(st), *st, *old(pump), *pump, ev, now_ms, sent, step));
                step
            } else {
                assert(out@ =~= base + none);
                assert(pumped(
                    *old(st),
                    *st,
                    *old(pump),
                    *pump,
                    ev,
                    now_ms,
                    none,
                    MotionStep::Done,
                ));
                MotionStep::Done
            }
        },
        DeviceEvent::Other => {
            assert(out@ =~= base + none);
            assert(pumped(
                *old(st),
                *st,
                *old(pump),
                *pump,
                ev,
                now_ms,
                none,
                MotionStep::Done,
            ));
            MotionStep::Done
        },
    }
}

/// How the cursor is pushed into the shared edge when the peer takes control,
/// and where it is afterwards: the system stops it at the edge.
pub open spec fn slam(lx: LinuxState, side: PeerSide) -> (int, int, int, int) {
    let w: int = if lx.screen_w >= 1 {
        lx.screen_w as int
    } else {
        1
    };
    let h: int = if lx.screen_h >= 1 {
        lx.screen_h as int
    } else {
        1
    };
    match side {
        PeerSide::Left => (-(w * 2), 0, 0, h / 2),
        PeerSide::Right => (w * 2, 0, w - 1, h / 2),
        PeerSide::Top => (0, -(h * 2), w / 2, 0),
        PeerSide::Bottom => (0, h * 2, w / 2, h - 1),
    }
}

/// The motion that pushes the cursor into the shared edge.
pub fn take_control_slam(lx: &LinuxState, side: PeerSide) -> (r: (i32, i32))
    requires
        lx.screen_w <= 0x3fff_ffff,
        lx.screen_h <= 0x3fff_ffff,
    ensures
        r.0 == slam(*lx, side).0,
        r.1 == slam(*lx, side).1,
{
    let w: i32 = max_i32(lx.screen_w, 1);
    let h: i32 = max_i32(lx.screen_h, 1);
    match side {
        PeerSide::Left => (-(w * 2), 0),
        PeerSide::Right => (w * 2, 0),
        PeerSide::Top => (0, -(h * 2)),
        PeerSide::Bottom => (0, h * 2),
    }
}

/// Carries on once the cursor was pushed into the shared edge. A push that
/// failed changes nothing; else the estimate follows, and the window under the
/// cursor is clicked if the user asked for that.
pub fn on_peer_take_control(
    link: &Link,
    tuning: &Tuning,
    lx: &mut LinuxState,
    pushed: bool,
    out: &mut Vec<Effect>,
)
    ensures
        *final(lx) == if pushed {
            LinuxState {
                cursor_x: slam(*old(lx), link.peer_side).2 as i32,
                cursor_y: slam(*old(lx), link.peer_side).3 as i32,
                left_pressure: 0,
                ..*old(lx)
            }
        } else {
            *old(lx)
        },
        final(out)@ == old(out)@ + input::when(
            pushed && tuning.auto_focus_on_take,
            Effect::ClickToFocus,
        ),
{
    push_when(pushed && tuning.auto_focus_on_take, Effect::ClickToFocus, out);
    if !pushed {
        return ;
    }
    let w: i32 = max_i32(lx.screen_w, 1);
    let h: i32 = max_i32(lx.screen_h, 1);
    match link.peer_side {
        PeerSide::Left => {
            lx.cursor_x = 0;
            lx.cursor_y = h / 2;
        },
        PeerSide::Right => {
            lx.cursor_x = w - 1;
            lx.cursor_y = h / 2;
        },
        PeerSide::Top => {
            lx.cursor_x = w / 2;
            lx.cursor_y = 0;
        },
        PeerSide::Bottom => {
            lx.cursor_x = w / 2;
            lx.cursor_y = h - 1;
        },
    }
    lx.left_pressure = 0;
}

/// Stores the width of the peer's screen.
pub fn set_peer_screen(lx: &mut LinuxState, w: u32, h: u32)
    ensures
        *final(lx) == (LinuxState {
            peer_w: (if w >= 1 {
                w
            } else {
                1
            }) as i32,
            ..*old(lx)
        }),
{
    let w1: u32 = if w >= 1 {
        w
    } else {
        1
    };
    lx.peer_w = w1 as i32;
}

/// The cursor estimate never leaves the screen while the local mouse drives
/// this machine, and the depth never leaves the peer's screen by more than the
/// exit buffer.
pub proof fn tracking_stays_in_bounds(link: Link, lx: LinuxState, dx: int, dy: int, now_ms: u64)
    requires
        batch_fits(link, lx, dx, dy),
        lx.screen_w >= 1,
        lx.screen_h >= 1,
    ensures
        ({
            let next = after_batch(link, lx, dx, dy, now_ms);
            &&& lx.mode == CursorMode::Local && !link.peer_in_remote ==> 0 <= next.cursor_x
                < lx.screen_w && 0 <= next.cursor_y < lx.screen_h
            &&& lx.mode == CursorMode::Remote ==> -EXIT_BUFFER_PX <= next.virt_x <= lx.peer_w
        }),
{
}

/// A locked machine, and one that the peer drives, never starts to drive the
/// peer by motion.
pub proof fn lock_and_peer_keep_the_cursor_home(
    link: Link,
    lx: LinuxState,
    dx: int,
    dy: int,
    now_ms: u64,
)
    requires
        lx.mode == CursorMode::Local,
        link.input_locked || link.peer_in_remote,
    ensures
        after_batch(link, lx, dx, dy, now_ms).mode == CursorMode::Local,
{
}

/// A press that enters `Remote` mode has pushed the threshold past the shared
/// edge since the cursor last moved away from it.
pub proof fn entering_takes_a_sustained_press(
    link: Link,
    lx: LinuxState,
    dx: int,
    dy: int,
    now_ms: u64,
)
    requires
        batch_fits(link, lx, dx, dy),
        lx.mode == CursorMode::Local,
        after_batch(link, lx, dx, dy, now_ms).mode == CursorMode::Remote,
    ensures
        pressure_after(lx, link.peer_side, dx, dy) >= enter_threshold(link.peer_side),
        overshoot(lx, link.peer_side, lx.cursor_x + dx, lx.cursor_y + dy) > 0,
        after_batch(link, lx, dx, dy, now_ms).left_pressure == 0,
        after_batch(link, lx, dx, dy, now_ms).virt_x == 0,
{
}

/// Control returns only after the cursor was pulled back by the whole exit
/// buffer from where it entered.
pub proof fn leaving_takes_the_whole_buffer(
    link: Link,
    lx: LinuxState,
    dx: int,
    dy: int,
    now_ms: u64,
)
    requires
        batch_fits(link, lx, dx, dy),
        lx.mode == CursorMode::Remote,
        lx.peer_w > -EXIT_BUFFER_PX,
    ensures
        after_batch(link, lx, dx, dy, now_ms).mode == CursorMode::Local <==> lx.virt_x
            + depth_delta(link.peer_side, dx, dy) <= -EXIT_BUFFER_PX,
{
}

/// No motion is lost and none is sent twice: what was pending and what is
/// added equals what is sent and what is pending afterwards, as long as the
/// sums fit their type.
pub proof fn collected_motion_is_conserved(lx: LinuxState, dx: int, dy: int, now_ms: u64)
    requires
        fits(lx.pending_dx + arith::clamp(dx, -MAX_DELTA_PX as int, MAX_DELTA_PX as int)),
        fits(lx.pending_dy + arith::clamp(dy, -MAX_DELTA_PX as int, MAX_DELTA_PX as int)),
    ensures
        ({
            let sum = collected(lx, dx, dy);
            let sent = input::motion::motion_sent(flush_effects(sum));
            let rest = flushed(sum, now_ms);
            &&& sum.pending_dx == lx.pending_dx + arith::clamp(
                dx,
                -MAX_DELTA_PX as int,
                MAX_DELTA_PX as int,
            )
            &&& sum.pending_dy == lx.pending_dy + arith::clamp(
                dy,
                -MAX_DELTA_PX as int,
                MAX_DELTA_PX as int,
            )
            &&& sent.0 + rest.pending_dx == sum.pending_dx
            &&& sent.1 + rest.pending_dy == sum.pending_dy
        }),
{
    reveal_with_fuel(input::motion::motion_sent, 2);
    let effects = flush_effects(collected(lx, dx, dy));
    if effects.len() > 0 {
        assert(effects.drop_last() =~= Seq::empty());
    }
}

proof fn lemma_edges_keep_counts(
    pre: InputState,
    post: InputState,
    code: u16,
    value: i32,
    now_ms: u64,
    sent: Seq<Effect>,
)
    requires
        edge_routed(pre, post, code, value, now_ms, sent),
    ensures
        input::uncounted(pre, post),
{
}

/// No key or button changes the counts of motion or the rate.
pub proof fn keys_keep_the_counts(
    pre: InputState,
    post: InputState,
    code: u16,
    value: i32,
    now_ms: u64,
    sent: Seq<Effect>,
)
    requires
        key_handled(pre, post, code, value, now_ms, sent),
    ensures
        input::uncounted(pre, post),
{
    let mid = InputState { linux: modifiers_after(pre.linux, code, value), ..pre };
    if !(hotkey(mid.linux, code, value, KEY_R) || hotkey(mid.linux, code, value, KEY_L)
        || hotkey(mid.linux, code, value, KEY_K)) {
        lemma_edges_keep_counts(mid, post, code, value, now_ms, sent);
    }
}

/// The mouse moves the cursor in the peer's screen as it moves: towards the side
/// on which the peer stands it goes deeper, by as many pixels, up to the far end
/// of that screen; home it comes back. Short of a hundred pixels past the edge
/// that it came through, the motion is the peer's and nothing is told; from there
/// on control returns.
pub proof fn the_depth_follows_the_mouse(
    link: &Link,
    lx: &mut LinuxState,
    dx: i32,
    dy: i32,
    now_ms: u64,
    out: &mut Vec<Effect>,
    r: MotionStep,
)
    requires
        call_ensures(handle_motion_batch, (link, lx, dx, dy, now_ms, out), r),
        old(lx).mode == CursorMode::Remote,
        old(lx).peer_w >= 1,
    ensures
        ({
            let depth = old(lx).virt_x + match link.peer_side {
                PeerSide::Left => -dx,
                PeerSide::Right => dx as int,
                PeerSide::Top => -dy,
                PeerSide::Bottom => dy as int,
            };
            &&& depth > -100 ==> {
                &&& final(lx).mode == CursorMode::Remote
                &&& final(lx).virt_x == if depth <= old(lx).peer_w {
                    depth
                } else {
                    old(lx).peer_w as int
                }
                &&& r == MotionStep::Scale { dx, dy }
                &&& final(out)@ == old(out)@
            }
            &&& depth <= -100 ==> {
                &&& final(lx).mode == CursorMode::Local
                &&& r == MotionStep::Done
                &&& link.remote_listener ==> final(out)@.last() == Effect::Remote(
                    RemoteEvent::Exited,
                )
            }
        }),
{
}

/// A push that carried the cursor over goes on into the peer's screen: the same
/// motion again is the peer's and brings nothing back.
pub proof fn pushing_on_stays_with_the_peer(
    link: &Link,
    lx: &mut LinuxState,
    over: &mut LinuxState,
    dx: i32,
    dy: i32,
    at: (u64, u64),
    out: (&mut Vec<Effect>, &mut Vec<Effect>),
    r: (MotionStep, MotionStep),
)
    requires
        call_ensures(handle_motion_batch, (link, lx, dx, dy, at.0, out.0), r.0),
        call_ensures(handle_motion_batch, (link, over, dx, dy, at.1, out.1), r.1),
        *old(over) == *final(lx),
        old(lx).mode == CursorMode::Local,
        final(lx).mode == CursorMode::Remote,
        0 <= old(lx).cursor_x < old(lx).screen_w,
        0 <= old(lx).cursor_y < old(lx).screen_h,
        old(lx).peer_w >= 1,
    ensures
        final(over).mode == CursorMode::Remote,
        final(over).virt_x > 0,
        r.1 == (MotionStep::Scale { dx, dy }),
{
}

/// At home the cursor moves with the mouse and stops at the edges of the screen.
/// It crosses to the peer once it has been pushed far enough past the edge on the
/// peer's side: two hundred pixels past a side, a hundred and ten past the top or
/// the bottom. No other edge lets it through, and a locked machine none.
pub proof fn only_a_push_past_the_shared_edge_crosses(
    link: &Link,
    lx: &mut LinuxState,
    dx: i32,
    dy: i32,
    now_ms: u64,
    out: &mut Vec<Effect>,
    r: MotionStep,
)
    requires
        call_ensures(handle_motion_batch, (link, lx, dx, dy, now_ms, out), r),
        old(lx).mode == CursorMode::Local,
        !link.peer_in_remote,
        0 <= old(lx).cursor_x < old(lx).screen_w,
        0 <= old(lx).cursor_y < old(lx).screen_h,
    ensures
        ({
            let (x, y) = (old(lx).cursor_x + dx, old(lx).cursor_y + dy);
            let past = match link.peer_side {
                PeerSide::Left => -x,
                PeerSide::Right => x + 1 - old(lx).screen_w,
                PeerSide::Top => -y,
                PeerSide::Bottom => y + 1 - old(lx).screen_h,
            };
            let enough = match link.peer_side {
                PeerSide::Left | PeerSide::Right => 200int,
                PeerSide::Top | PeerSide::Bottom => 110int,
            };
            let crosses = !link.input_locked && past > 0 && old(lx).left_pressure + past >= enough;
            &&& r == MotionStep::Done
            &&& final(lx).mode == if crosses {
                CursorMode::Remote
            } else {
                CursorMode::Local
            }
            &&& final(out)@ == if crosses && link.remote_listener {
                old(out)@.push(Effect::Remote(RemoteEvent::Entered))
            } else {
                old(out)@
            }
            &&& crosses ==> final(lx).virt_x == 0 && final(lx).left_pressure == 0
            &&& 0 <= x < old(lx).screen_w ==> final(lx).cursor_x == x
            &&& 0 <= y < old(lx).screen_h ==> final(lx).cursor_y == y
            &&& x < 0 ==> final(lx).cursor_x == 0
            &&& y < 0 ==> final(lx).cursor_y == 0
            &&& x >= old(lx).screen_w ==> final(lx).cursor_x == old(lx).screen_w - 1
            &&& y >= old(lx).screen_h ==> final(lx).cursor_y == old(lx).screen_h - 1
        }),
{
    assert(final(out)@ =~= final(out)@ + Seq::<Effect>::empty());
    assert(old(out)@.push(Effect::Remote(RemoteEvent::Entered)) =~= old(out)@ + seq![
        Effect::Remote(RemoteEvent::Entered),
    ]);
    assert(old(out)@ + Seq::<Effect>::empty() =~= old(out)@);
}

/// A push is collected from report to report, and a motion away from the edge
/// takes it back.
pub proof fn a_push_is_collected_until_the_mouse_turns(
    link: &Link,
    lx: &mut LinuxState,
    dx: i32,
    dy: i32,
    now_ms: u64,
    out: &mut Vec<Effect>,
    r: MotionStep,
)
    requires
        call_ensures(handle_motion_batch, (link, lx, dx, dy, now_ms, out), r),
        old(lx).mode == CursorMode::Local,
        final(lx).mode == CursorMode::Local,
        !link.peer_in_remote && !link.input_locked,
        0 <= old(lx).cursor_x < old(lx).screen_w,
        0 <= old(lx).cursor_y < old(lx).screen_h,
        old(lx).left_pressure >= 0,
    ensures
        ({
            let (x, y) = (old(lx).cursor_x + dx, old(lx).cursor_y + dy);
            let (past, away) = match link.peer_side {
                PeerSide::Left => (-x, dx > 0),
                PeerSide::Right => (x + 1 - old(lx).screen_w, dx < 0),
                PeerSide::Top => (-y, dy > 0),
                PeerSide::Bottom => (y + 1 - old(lx).screen_h, dy < 0),
            };
            &&& past > 0 ==> final(lx).left_pressure == old(lx).left_pressure + past
            &&& past <= 0 && away ==> final(lx).left_pressure == 0
            &&& past <= 0 && !away ==> final(lx).left_pressure == old(lx).left_pressure
        }),
{
}

/// A mouse that the peer drives is asked back by moving it for more than five
/// pixels, and does nothing else meanwhile.
pub proof fn a_driven_mouse_is_asked_back(
    link: &Link,
    lx: &mut LinuxState,
    dx: i32,
    dy: i32,
    now_ms: u64,
    out: &mut Vec<Effect>,
    r: MotionStep,
)
    requires
        call_ensures(handle_motion_batch, (link, lx, dx, dy, now_ms, out), r),
        old(lx).mode == CursorMode::Local,
        link.peer_in_remote,
        link.remote_listener,
    ensures
        *final(lx) == *old(lx),
        r == MotionStep::Done,
        ({
            let ways = (if dx >= 0 {
                dx as int
            } else {
                -dx
            }) + (if dy >= 0 {
                dy as int
            } else {
                -dy
            });
            final(out)@ == if ways > 5 {
                old(out)@.push(Effect::Remote(RemoteEvent::RequestPeerExit))
            } else {
                old(out)@
            }
        }),
{
    assert(old(out)@.push(Effect::Remote(RemoteEvent::RequestPeerExit)) =~= old(out)@ + seq![
        Effect::Remote(RemoteEvent::RequestPeerExit),
    ]);
    assert(old(out)@ + Seq::<Effect>::empty() =~= old(out)@);
}

/// When control returns the cursor is put back near the edge that the peer is
/// on, forty pixels inside, and on a screen wide enough it is on the screen.
pub proof fn the_cursor_returns_near_the_shared_edge(
    link: &Link,
    lx: &mut LinuxState,
    out: &mut Vec<Effect>,
)
    requires
        call_ensures(exit_remote, (link, lx, out), ()),
        old(lx).screen_w > 80,
        old(lx).screen_h > 80,
    ensures
        final(lx).mode == CursorMode::Local,
        match link.peer_side {
            PeerSide::Left => final(lx).cursor_x == 40 && final(lx).cursor_y == old(lx).cursor_y,
            PeerSide::Right => final(lx).cursor_x + 41 == old(lx).screen_w && final(lx).cursor_y
                == old(lx).cursor_y,
            PeerSide::Top => final(lx).cursor_y == 40 && final(lx).cursor_x == old(lx).cursor_x,
            PeerSide::Bottom => final(lx).cursor_y + 41 == old(lx).screen_h && final(lx).cursor_x
                == old(lx).cursor_x,
        },
        final(out)@ == old(out)@ + link.fired(RemoteEvent::Exited),
{
}

/// Motion that goes to the peer is not lost: what was pending and the new
/// motion, of which no step is longer than thirty pixels, are sent together once
/// eight milliseconds have passed, and wait until then.
pub proof fn forwarded_motion_arrives(
    lx: &mut LinuxState,
    dx: i32,
    dy: i32,
    now_ms: u64,
    out: &mut Vec<Effect>,
)
    requires
        call_ensures(forward_scaled_motion, (lx, dx, dy, now_ms, out), ()),
        -30 <= dx <= 30,
        -30 <= dy <= 30,
        -1_000 <= old(lx).pending_dx <= 1_000,
        -1_000 <= old(lx).pending_dy <= 1_000,
        dx + old(lx).pending_dx != 0,
        old(lx).last_flush_ms <= now_ms,
    ensures
        ({
            let sum = ((old(lx).pending_dx + dx) as i32, (old(lx).pending_dy + dy) as i32);
            if now_ms - old(lx).last_flush_ms >= 8 {
                &&& final(out)@ == old(out)@.push(
                    Effect::Forward(InputEvent::MouseMove { dx: sum.0, dy: sum.1 }),
                )
                &&& final(lx).pending_dx == 0 && final(lx).pending_dy == 0
                &&& final(lx).last_flush_ms == now_ms
            } else {
                &&& final(out)@ == old(out)@
                &&& final(lx).pending_dx == sum.0 && final(lx).pending_dy == sum.1
            }
        }),
{
    let sum = ((old(lx).pending_dx + dx) as i32, (old(lx).pending_dy + dy) as i32);
    let sent = Effect::Forward(InputEvent::MouseMove { dx: sum.0, dy: sum.1 });
    assert(old(out)@.push(sent) =~= old(out)@ + seq![sent]);
}

/// No step of a forwarded motion is longer than thirty pixels.
pub proof fn forwarded_steps_are_short(
    lx: &mut LinuxState,
    dx: i32,
    dy: i32,
    now_ms: u64,
    out: &mut Vec<Effect>,
)
    requires
        call_ensures(forward_scaled_motion, (lx, dx, dy, now_ms, out), ()),
        old(lx).pending_dx == 0,
        old(lx).pending_dy == 0,
        final(out)@.len() == old(out)@.len(),
    ensures
        dx > 30 ==> final(lx).pending_dx == 30,
        dx < -30 ==> final(lx).pending_dx == -30,
        dy > 30 ==> final(lx).pending_dy == 30,
        dy < -30 ==> final(lx).pending_dy == -30,
{
}

/// Without both a Ctrl and an Alt key no key is a hotkey: the mode, the lock and
/// the keyboard target stay as they are, and no transition is told. The key goes
/// where ordinary keys go.
pub proof fn a_hotkey_needs_ctrl_and_alt(
    st: &mut InputState,
    code: u16,
    value: i32,
    now_ms: u64,
    out: &mut Vec<Effect>,
)
    requires
        call_ensures(handle_key, (st, code, value, now_ms, out), ()),
        !(final(st).linux.mod_ctrl && final(st).linux.mod_alt),
    ensures
        final(st).linux.mode == old(st).linux.mode,
        final(st).link == old(st).link,
        final(st).keys.keyboard_target == old(st).keys.keyboard_target,
        forall|i: int|
            old(out)@.len() <= i < final(out)@.len() ==> (#[trigger] final(out)@[i]) is Forward,
        !(272 <= code <= 276) ==> final(out)@ == if keystroke_sent(
            *old(st),
            code,
            value != 0,
            now_ms,
        ) {
            old(out)@.push(
                Effect::Forward(InputEvent::Key { code: KeyCode(code), down: value != 0 }),
            )
        } else {
            old(out)@
        },
{
    let sent = choose|sent: Seq<Effect>|
        #![trigger key_handled(*old(st), *final(st), code, value, now_ms, sent)]
        key_handled(*old(st), *final(st), code, value, now_ms, sent) && final(out)@ == old(out)@
            + sent;
    let mid = InputState { linux: modifiers_after(old(st).linux, code, value), ..*old(st) };
    lemma_modifiers_stay(*old(st), *final(st), code, value, now_ms, sent);
    assert(edge_routed(mid, *final(st), code, value, now_ms, sent));
    let key = Effect::Forward(InputEvent::Key { code: KeyCode(code), down: value != 0 });
    assert(old(out)@.push(key) =~= old(out)@ + seq![key]);
    assert(old(out)@ + Seq::<Effect>::empty() =~= old(out)@);
}

/// Whether the rules for ordinary keys send a key to the peer: one whose press
/// went there, or a press while keys go there.
pub open spec fn keystroke_sent(st: InputState, code: u16, down: bool, now_ms: u64) -> bool {
    input::keystroke_to_peer(st, code, down, st.linux.mode == CursorMode::Remote, now_ms)
}

proof fn lemma_modifiers_stay(
    pre: InputState,
    post: InputState,
    code: u16,
    value: i32,
    now_ms: u64,
    sent: Seq<Effect>,
)
    requires
        key_handled(pre, post, code, value, now_ms, sent),
    ensures
        post.linux.mod_ctrl == modifiers_after(pre.linux, code, value).mod_ctrl,
        post.linux.mod_alt == modifiers_after(pre.linux, code, value).mod_alt,
{
}

/// Ctrl and Alt count as held from their press to their release, either of each
/// kind; no other key and no repetition changes that.
pub proof fn modifiers_are_held_from_press_to_release(
    st: &mut InputState,
    code: u16,
    value: i32,
    now_ms: u64,
    out: &mut Vec<Effect>,
)
    requires
        call_ensures(handle_key, (st, code, value, now_ms, out), ()),
    ensures
        (code == 29 || code == 97) && value == 1 ==> final(st).linux.mod_ctrl,
        (code == 29 || code == 97) && value == 0 ==> !final(st).linux.mod_ctrl,
        (code == 56 || code == 100) && value == 1 ==> final(st).linux.mod_alt,
        (code == 56 || code == 100) && value == 0 ==> !final(st).linux.mod_alt,
        code != 29 && code != 97 || value != 0 && value != 1 ==> final(st).linux.mod_ctrl
            == old(st).linux.mod_ctrl,
        code != 56 && code != 100 || value != 0 && value != 1 ==> final(st).linux.mod_alt
            == old(st).linux.mod_alt,
{
    let sent = choose|sent: Seq<Effect>|
        #![trigger key_handled(*old(st), *final(st), code, value, now_ms, sent)]
        key_handled(*old(st), *final(st), code, value, now_ms, sent) && final(out)@ == old(out)@
            + sent;
    lemma_modifiers_stay(*old(st), *final(st), code, value, now_ms, sent);
}

/// With Ctrl and Alt held a press of R, K or L does what it is for and is not
/// sent on: R switches between the machines, K moves the keyboard target on, L
/// locks or frees the input. No other key does any of it.
pub proof fn hotkeys_do_what_they_are_for(
    st: &mut InputState,
    code: u16,
    now_ms: u64,
    out: &mut Vec<Effect>,
)
    requires
        call_ensures(handle_key, (st, code, 1i32, now_ms, out), ()),
        old(st).platform == input::Platform::Linux,
        old(st).linux.mod_ctrl,
        old(st).linux.mod_alt,
    ensures
        code == 19 && old(st).linux.mode == CursorMode::Remote ==> final(st).linux.mode
            == CursorMode::Local && final(out)@ == old(out)@ + old(st).link.fired(
            RemoteEvent::Exited,
        ),
        code == 19 && old(st).linux.mode == CursorMode::Local && !old(st).link.peer_in_remote
            ==> final(st).linux.mode == CursorMode::Remote && final(out)@ == old(out)@ + old(st).link.fired(RemoteEvent::Entered),
        code == 19 && old(st).linux.mode == CursorMode::Local && old(st).link.peer_in_remote
            ==> final(st).linux.mode == CursorMode::Local && final(out)@ == old(out)@ + old(st).link.fired(RemoteEvent::RequestPeerExit),
        code == 38 ==> final(st).link.input_locked == !old(st).link.input_locked,
        code == 38 && !old(st).link.input_locked ==> final(st).linux.mode == CursorMode::Local,
        code == 37 ==> final(st).keys.keyboard_target != old(st).keys.keyboard_target && final(out)@ == old(out)@,
        code != 19 ==> final(st).linux.mode == old(st).linux.mode || code == 38,
        code != 38 ==> final(st).link.input_locked == old(st).link.input_locked,
        code != 37 ==> final(st).keys.keyboard_target == old(st).keys.keyboard_target,
        code == 19 || code == 37 || code == 38 ==> final(st).keys.held() == old(st).keys.held(),
{
    let sent = choose|sent: Seq<Effect>|
        #![trigger key_handled(*old(st), *final(st), code, 1i32, now_ms, sent)]
        key_handled(*old(st), *final(st), code, 1i32, now_ms, sent) && final(out)@ == old(out)@
            + sent;
    assert(old(out)@ + Seq::<Effect>::empty() =~= old(out)@);
}

/// The wheel turns the peer's page only while the mouse is there, as far as it
/// was turned, and the other way round where the user has asked for it.
pub proof fn the_wheel_follows_the_mouse(
    lx: &LinuxState,
    tuning: &Tuning,
    horizontal: bool,
    value: i32,
    out: &mut Vec<Effect>,
)
    requires
        call_ensures(handle_wheel, (lx, tuning, horizontal, value, out), ()),
    ensures
        lx.mode == CursorMode::Local ==> final(out)@ == old(out)@,
        lx.mode == CursorMode::Remote ==> final(out)@.len() == old(out)@.len() + 1
            && final(out)@.drop_last() == old(out)@ && match final(out)@.last() {
            Effect::ForwardWheel { horizontal: h, units } => h == horizontal && if (horizontal
                && tuning.invert_scroll_x) || (!horizontal && tuning.invert_scroll_y) {
                units + value == 0
            } else {
                units == value
            },
            _ => false,
        },
{
    assert(final(out)@ == old(out)@ + wheel_effects(*lx, *tuning, horizontal, value));
    assert(old(out)@ + Seq::<Effect>::empty() =~= old(out)@);
    if lx.mode == CursorMode::Remote {
        assert(final(out)@.drop_last() =~= old(out)@);
    }
}

/// Every mouse button has the number that the system gives it.
pub proof fn buttons_have_their_numbers(code: u16, r: Option<Button>)
    requires
        call_ensures(button_from_key, (code,), r),
    ensures
        r == Some(Button::Left) <==> code == 272,
        r == Some(Button::Right) <==> code == 273,
        r == Some(Button::Middle) <==> code == 274,
        r == Some(Button::X1) <==> code == 275,
        r == Some(Button::X2) <==> code == 276,
{
}

/// While the mouse is with the peer no device reaches this machine's programs,
/// while the peer drives this machine no pointer does, and else all do: after a
/// change that worked the device is held back exactly then.
pub proof fn devices_are_held_back_when_they_drive_the_peer(
    link: &Link,
    lx: &LinuxState,
    pump: &mut Pump,
    change: GrabChange,
)
    requires
        call_ensures(grab_change, (link, lx, old(pump)), change),
        call_ensures(note_grab, (pump, change, true), ()),
    ensures
        final(pump).grabbed == (lx.mode == CursorMode::Remote || (link.peer_in_remote
            && old(pump).is_pointer)),
        final(pump).grabbed == old(pump).grabbed ==> change == GrabChange::Keep,
{
}

/// Motion of a device is collected until the device has told all of it, each
/// direction for itself, and counts as use of the mouse; the wheel and everything
/// else do not move it.
pub proof fn motion_is_collected_until_it_is_told(
    st: &mut InputState,
    pump: &mut Pump,
    axis: u16,
    value: i32,
    now_ms: u64,
    out: &mut Vec<Effect>,
    r: MotionStep,
    used: &mut Activity,
)
    requires
        call_ensures(
            pump_device,
            (st, pump, DeviceEvent::Relative { axis, value }, now_ms, out),
            r,
        ),
        i32::MIN <= old(pump).accum_dx + value <= i32::MAX,
        i32::MIN <= old(pump).accum_dy + value <= i32::MAX,
        *old(used) == old(st).activity,
        call_ensures(bump_local_mouse_activity, (used, now_ms), ()),
    ensures
        r == MotionStep::Done,
        axis == 0 ==> final(pump).accum_dx == old(pump).accum_dx + value,
        axis != 0 ==> final(pump).accum_dx == old(pump).accum_dx,
        axis == 1 ==> final(pump).accum_dy == old(pump).accum_dy + value,
        axis != 1 ==> final(pump).accum_dy == old(pump).accum_dy,
        axis == 0 || axis == 1 ==> final(st).activity == *final(used) && final(out)@ == old(out)@,
        axis != 0 && axis != 1 ==> final(st).activity == old(st).activity,
        final(st).linux == old(st).linux,
        axis != 6 && axis != 8 ==> final(out)@ == old(out)@,
        (axis == 6 || axis == 8) && old(st).linux.mode == CursorMode::Remote
            && !old(st).tuning.invert_scroll_x && !old(st).tuning.invert_scroll_y ==> final(out)@
            == old(out)@.push(
            Effect::ForwardWheel { horizontal: axis == 6, units: value as i64 },
        ),
{
    let ev = DeviceEvent::Relative { axis, value };
    let sent = choose|sent: Seq<Effect>|
        #![trigger pumped(*old(st), *final(st), *old(pump), *final(pump), ev, now_ms, sent, r)]
        pumped(*old(st), *final(st), *old(pump), *final(pump), ev, now_ms, sent, r) && final(out)@
            == old(out)@ + sent;
    assert(pumped(*old(st), *final(st), *old(pump), *final(pump), ev, now_ms, sent, r));
    assert(old(out)@ + Seq::<Effect>::empty() =~= old(out)@);
    let wheel = Effect::ForwardWheel { horizontal: axis == 6, units: value as i64 };
    assert(old(out)@.push(wheel) =~= old(out)@ + seq![wheel]);
}

/// Once a device has told all of its motion, the motion is handled as one, and
/// nothing of it is left; a report without motion changes nothing.
pub proof fn told_motion_is_handled_as_one(
    st: (&mut InputState, &mut LinuxState),
    pump: &mut Pump,
    now_ms: u64,
    out: (&mut Vec<Effect>, &mut Vec<Effect>),
    r: (MotionStep, MotionStep),
)
    requires
        call_ensures(pump_device, (st.0, pump, DeviceEvent::SynReport, now_ms, out.0), r.0),
        *old(st.1) == old(st.0).linux,
        old(out.1)@ == old(out.0)@,
        call_ensures(
            handle_motion_batch,
            (
                &old(st.0).link,
                st.1,
                old(pump).accum_dx,
                old(pump).accum_dy,
                now_ms,
                out.1,
            ),
            r.1,
        ),
    ensures
        final(pump).accum_dx == 0 && final(pump).accum_dy == 0,
        old(pump).accum_dx == 0 && old(pump).accum_dy == 0 ==> *final(st.0) == *old(st.0)
            && final(out.0)@ == old(out.0)@,
        old(pump).accum_dx != 0 || old(pump).accum_dy != 0 ==> final(st.0).linux == *final(st.1)
            && final(out.0)@ == final(out.1)@ && r.0 == r.1,
{
    let ev = DeviceEvent::SynReport;
    let sent = choose|sent: Seq<Effect>|
        #![trigger pumped(*old(st.0), *final(st.0), *old(pump), *final(pump), ev, now_ms, sent, r.0)]
        pumped(*old(st.0), *final(st.0), *old(pump), *final(pump), ev, now_ms, sent, r.0)
            && final(out.0)@ == old(out.0)@ + sent;
    assert(pumped(
        *old(st.0),
        *final(st.0),
        *old(pump),
        *final(pump),
        ev,
        now_ms,
        sent,
        r.0,
    ));
    assert(old(out.0)@ + Seq::<Effect>::empty() =~= old(out.0)@);
}

} // verus!
