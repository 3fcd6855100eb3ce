//! Windows capture: edge crossings, the virtual cursor on the peer's screen,
//! paced motion and the focus that a handover moves.
//!
//! In `Remote` mode the local cursor is kept at an anchor in the middle of the
//! desktop while its motion moves a virtual cursor on the peer's screen. When
//! that cursor has been pulled back past the entry edge, control returns and
//! the local cursor is put at that edge.

use crate::arith::{self, clamp_i32, half_i32, magnitude_i64, max_i32, saturating_add_i32};
use crate::input::foreground::{self, set_capture_active, set_capture_anchor};
use crate::input::motion::{
    self, flush_pending_motion_if_due, should_snap_virt_x, wake_motion_flush_watchdog, Clock,
    MotionQueue,
};
use crate::input::{
    self, bump_local_mouse_activity, fire_remote_event, push_when, Activity, CursorMode, Effect,
    GameDrive, Link, PeerSide, RemoteEvent,
};
use vstd::prelude::*;

verus! {

/// How far past the entry edge the cursor is pulled back before control
/// returns to this machine.
pub const EXIT_BUFFER_PX: i32 = 100;

/// The most pixels of one hook event that are sent on one axis.
pub const MAX_DELTA_PX: i32 = 1500;

/// Raw reports that stay away for this long no longer own the motion.
pub const RAW_INPUT_STALE_MS: u64 = 300;

/// How far from the edge of the desktop a window is worth activating.
pub const EDGE_INSET_PX: i32 = 8;

/// The most calls that are made to hide the cursor.
pub const MAX_HIDE_CALLS: i32 = 32;

/// Which activations of the foreground window are still owed after the peer
/// took control: one at once, retried with motion, and one with the first key.
#[derive(Debug, Clone, Copy, PartialEq, Eq, Structural)]
pub struct FocusHandoff {
    pub pending: bool,
    pub key_pending: bool,
}

impl FocusHandoff {
    pub fn new() -> (r: Self)
        ensures
            r == (FocusHandoff { pending: false, key_pending: false }),
    {
        FocusHandoff { pending: false, key_pending: false }
    }

    /// A handover owes both activations.
    pub fn arm(&mut self)
        ensures
            *final(self) == (FocusHandoff { pending: true, key_pending: true }),
    {
        self.pending = true;
        self.key_pending = true;
    }

    /// Takes up the first activation, if it is owed.
    pub fn try_begin(&mut self) -> (r: bool)
        ensures
            r == old(self).pending,
            *final(self) == (FocusHandoff { pending: false, ..*old(self) }),
    {
        let r = self.pending;
        self.pending = false;
        r
    }

    /// Takes up the activation of the first key, if it is owed.
    pub fn try_begin_key(&mut self) -> (r: bool)
        ensures
            r == old(self).key_pending,
            *final(self) == (FocusHandoff { key_pending: false, ..*old(self) }),
    {
        let r = self.key_pending;
        self.key_pending = false;
        r
    }

    /// A first activation that failed is owed again.
    pub fn finish(&mut self, activated: bool)
        ensures
            *final(self) == (FocusHandoff { pending: old(self).pending || !activated, ..*old(self) }),
    {
        if !activated {
            self.pending = true;
        }
    }

    /// An activation for the first key that failed is owed again.
    pub fn finish_key(&mut self, activated: bool)
        ensures
            *final(self) == (FocusHandoff {
                key_pending: old(self).key_pending || !activated,
                ..*old(self)
            }),
    {
        if !activated {
            self.key_pending = true;
        }
    }
}

/// What the Windows capture remembers.
#[derive(Debug, Clone, Copy, PartialEq, Eq, Structural)]
pub struct WindowsState {
    /// Whether a thread with a keyboard hook runs.
    pub keyboard_hook: bool,
    /// The last seen position of the cursor; `i32::MIN` is never.
    pub last_x: i32,
    pub last_y: i32,
    pub mode: CursorMode,
    /// How many calls hid the cursor.
    pub hide_calls: i32,
    pub screen_w: i32,
    pub screen_h: i32,
    pub origin_x: i32,
    pub origin_y: i32,
    pub peer_w: i32,
    pub peer_h: i32,
    /// Depth and lateral position of the cursor on the peer's screen.
    pub virt_x: i32,
    pub virt_y: i32,
    pub mod_ctrl: bool,
    pub mod_alt: bool,
    pub using_raw_input: bool,
    pub last_raw_input_ms: u64,
    /// Motion on its way to the peer.
    pub motion: MotionQueue,
    /// Whether a game owns the cursor, and whether the lock was engaged for a
    /// game and not by the user.
    pub game_foreground: bool,
    pub auto_engaged: bool,
    pub focus: FocusHandoff,
}

/// Whether an extent of the desktop has a pixel, and its two edges and their
/// sum are coordinates.
pub open spec fn span_fits(origin: i32, extent: i32) -> bool {
    &&& extent >= 1
    &&& origin + extent <= i32::MAX
    &&& i32::MIN <= 2 * origin + extent - 1 <= i32::MAX
}

impl WindowsState {
    /// The state at start: a desktop of 1920 by 1080 with its corner at the
    /// origin, a peer screen of the same size, and a cursor that was never seen.
    pub open spec fn at_start(self) -> bool {
        &&& self == (WindowsState {
            keyboard_hook: false,
            last_x: i32::MIN,
            last_y: i32::MIN,
            mode: CursorMode::Local,
            hide_calls: 0,
            screen_w: 1920,
            screen_h: 1080,
            origin_x: 0,
            origin_y: 0,
            peer_w: 1920,
            peer_h: 1080,
            virt_x: 0,
            virt_y: 0,
            mod_ctrl: false,
            mod_alt: false,
            using_raw_input: false,
            last_raw_input_ms: 0,
            motion: self.motion,
            game_foreground: false,
            auto_engaged: false,
            focus: FocusHandoff { pending: false, key_pending: false },
        })
        &&& self.motion.idle()
    }

    pub fn new() -> (r: Self)
        ensures
            r.at_start(),
            r.geometry_fits(),
    {
        WindowsState {
            keyboard_hook: false,
            last_x: i32::MIN,
            last_y: i32::MIN,
            mode: CursorMode::Local,
            hide_calls: 0,
            screen_w: 1920,
            screen_h: 1080,
            origin_x: 0,
            origin_y: 0,
            peer_w: 1920,
            peer_h: 1080,
            virt_x: 0,
            virt_y: 0,
            mod_ctrl: false,
            mod_alt: false,
            using_raw_input: false,
            last_raw_input_ms: 0,
            motion: MotionQueue::new(),
            game_foreground: false,
            auto_engaged: false,
            focus: FocusHandoff::new(),
        }
    }

    /// The desktop has an area, and its edges and their sums are coordinates.
    pub open spec fn geometry_fits(self) -> bool {
        &&& span_fits(self.origin_x, self.screen_w)
        &&& span_fits(self.origin_y, self.screen_h)
    }

    /// The middle of the desktop.
    pub open spec fn anchor_point(self) -> (int, int) {
        (self.origin_x + self.screen_w / 2, self.origin_y + self.screen_h / 2)
    }

    /// Left, top, right and bottom edge of the desktop.
    pub open spec fn edges(self) -> (int, int, int, int) {
        (
            self.origin_x as int,
            self.origin_y as int,
            self.origin_x + self.screen_w - 1,
            self.origin_y + self.screen_h - 1,
        )
    }
}

/// Whether the local mouse goes to the peer: the cursor is over there, or a
/// game is driven.
pub open spec fn forwarding(link: Link, win: WindowsState) -> bool {
    win.mode == CursorMode::Remote || link.game_drive == GameDrive::Driving
}

pub fn forwarding_active(link: &Link, win: &WindowsState) -> (r: bool)
    ensures
        r == forwarding(*link, *win),
{
    win.mode == CursorMode::Remote || link.game_drive == GameDrive::Driving
}

/// The state after one round of the sending thread: what is due was sent, and
/// a depth that went negative before a pause is reset.
pub open spec fn after_round(win: WindowsState, now: Clock) -> WindowsState {
    let motion = win.motion.settled(now);
    WindowsState {
        motion,
        virt_x: if motion::snaps(win.virt_x, motion.last_flush_ms, now.ms) {
            0
        } else {
            win.virt_x
        },
        ..win
    }
}

/// One round of the sending thread, while the local mouse goes to the peer.
pub fn motion_watchdog_round(win: &mut WindowsState, now: Clock, out: &mut Vec<Effect>)
    ensures
        *final(win) == after_round(*old(win), now),
        final(out)@ == old(out)@ + old(win).motion.settle_effects(now),
{
    flush_pending_motion_if_due(&mut win.motion, now, out);
    if should_snap_virt_x(win.virt_x, win.motion.last_flush_ms, now.ms) {
        win.virt_x = 0;
    }
}

/// Motion as depth into the peer's screen and as motion along the shared edge.
pub open spec fn motion_axes(side: PeerSide, dx: int, dy: int) -> (int, int) {
    match side {
        PeerSide::Right => (dx, dy),
        PeerSide::Left => (-dx, dy),
        PeerSide::Top => (-dy, dx),
        PeerSide::Bottom => (dy, dx),
    }
}

/// Splits motion into depth and lateral motion.
pub fn remote_motion_axes(side: PeerSide, dx: i32, dy: i32) -> (r: (i32, i32))
    requires
        motion_axes(side, dx as int, dy as int).0 <= i32::MAX,
    ensures
        (r.0 as int, r.1 as int) == motion_axes(side, dx as int, dy as int),
{
    match side {
        PeerSide::Right => (dx, dy),
        PeerSide::Left => (-dx, dy),
        PeerSide::Top => (-dy, dx),
        PeerSide::Bottom => (dy, dx),
    }
}

/// The extent of the peer's screen in the direction of the depth.
pub open spec fn depth_extent(win: WindowsState, side: PeerSide) -> int {
    let extent = if side.horizontal() {
        win.peer_w
    } else {
        win.peer_h
    };
    if extent >= 1 {
        extent as int
    } else {
        1
    }
}

pub fn peer_depth_extent(win: &WindowsState, side: PeerSide) -> (r: i32)
    ensures
        r == depth_extent(*win, side),
{
    let extent: i32 = if side.is_horizontal() {
        win.peer_w
    } else {
        win.peer_h
    };
    max_i32(extent, 1)
}

/// The virtual cursor after a motion: its depth stays between the exit buffer
/// and the far edge of the peer's screen.
pub open spec fn virtual_cursor_moved(win: WindowsState, side: PeerSide, dx: int, dy: int) -> WindowsState {
    let (depth, lateral) = motion_axes(side, dx, dy);
    WindowsState {
        virt_x: arith::clamp(
            arith::saturated(win.virt_x + depth),
            -EXIT_BUFFER_PX as int,
            depth_extent(win, side) - 1,
        ) as i32,
        virt_y: win.virt_y.wrapping_add(lateral as i32),
        ..win
    }
}

/// Moves the virtual cursor by the motion that is sent to the peer; tells its
/// new depth.
pub fn advance_remote_virtual_cursor(win: &mut WindowsState, side: PeerSide, dx: i32, dy: i32) -> (r: i32)
    requires
        motion_axes(side, dx as int, dy as int).0 <= i32::MAX,
    ensures
        *final(win) == virtual_cursor_moved(*old(win), side, dx as int, dy as int),
        r == final(win).virt_x,
{
    let (depth_delta, lateral_delta) = remote_motion_axes(side, dx, dy);
    let extent: i32 = peer_depth_extent(win, side);
    let depth: i32 = clamp_i32(
        saturating_add_i32(win.virt_x, depth_delta),
        -EXIT_BUFFER_PX,
        extent - 1,
    );
    win.virt_x = depth;
    win.virt_y = win.virt_y.wrapping_add(lateral_delta);
    depth
}

/// Follows a raw motion with the virtual cursor; tells whether it has come
/// back far enough to return control. Driving a game moves no cursor.
pub fn track_raw_remote_motion(win: &mut WindowsState, side: PeerSide, dx: i32, dy: i32) -> (r: bool)
    requires
        motion_axes(side, dx as int, dy as int).0 <= i32::MAX,
    ensures
        old(win).mode == CursorMode::Local ==> !r && *final(win) == *old(win),
        old(win).mode == CursorMode::Remote ==> *final(win) == virtual_cursor_moved(
            *old(win),
            side,
            dx as int,
            dy as int,
        ) && r == (final(win).virt_x <= -EXIT_BUFFER_PX),
{
    if win.mode != CursorMode::Remote {
        return false;
    }
    advance_remote_virtual_cursor(win, side, dx, dy) <= -EXIT_BUFFER_PX
}

/// The centre of the desktop, at which the cursor is kept in `Remote` mode.
pub fn anchor(win: &WindowsState) -> (r: (i32, i32))
    requires
        win.geometry_fits(),
    ensures
        (r.0 as int, r.1 as int) == win.anchor_point(),
{
    (win.origin_x + win.screen_w / 2, win.origin_y + win.screen_h / 2)
}

/// Left, top, right and bottom edge of the desktop.
pub fn bounds(win: &WindowsState) -> (r: (i32, i32, i32, i32))
    requires
        win.geometry_fits(),
    ensures
        (r.0 as int, r.1 as int, r.2 as int, r.3 as int) == win.edges(),
{
    (
        win.origin_x,
        win.origin_y,
        win.origin_x + win.screen_w - 1,
        win.origin_y + win.screen_h - 1,
    )
}

/// The Windows state in which the local mouse drives the peer.
pub open spec fn entered(win: WindowsState, entry_lateral: i32) -> WindowsState {
    WindowsState {
        virt_x: 0,
        virt_y: entry_lateral,
        last_x: win.anchor_point().0 as i32,
        last_y: win.anchor_point().1 as i32,
        mode: CursorMode::Remote,
        ..win
    }
}

/// The touchpad state in which the touchpad was asked for at the anchor.
pub open spec fn touch_entered(touch: foreground::TouchpadState, win: WindowsState) -> foreground::TouchpadState {
    foreground::requested_state(
        foreground::TouchpadState {
            anchor_x: win.anchor_point().0 as i32,
            anchor_y: win.anchor_point().1 as i32,
            ..touch
        },
        true,
    )
}

/// What entering `Remote` mode makes the capture code do.
pub open spec fn enter_effects(
    link: Link,
    win: WindowsState,
    touch: foreground::TouchpadState,
) -> Seq<Effect> {
    let warp = Effect::WarpCursor {
        x: win.anchor_point().0 as i32,
        y: win.anchor_point().1 as i32,
    };
    input::when(true, warp) + input::when(win.keyboard_hook, Effect::RefreshKeyboardHook)
        + foreground::request_effects(touch, true) + input::when(
        win.hide_calls == 0,
        Effect::HideCursor,
    ) + win.motion.wake_effects() + link.fired(RemoteEvent::Entered)
}

/// Enters `Remote` mode, unless the peer drives this machine. `entry_lateral`
/// is where along the shared edge the cursor crossed.
pub fn enter_remote(
    link: &Link,
    win: &mut WindowsState,
    touch: &mut foreground::TouchpadState,
    entry_lateral: i32,
    out: &mut Vec<Effect>,
)
    requires
        old(win).geometry_fits(),
    ensures
        link.peer_in_remote ==> *final(win) == *old(win) && *final(touch) == *old(touch) && final(out)@ == old(out)@,
        !link.peer_in_remote ==> {
            &&& *final(win) == entered(*old(win), entry_lateral)
            &&& *final(touch) == touch_entered(*old(touch), *old(win))
            &&& final(out)@ == old(out)@ + enter_effects(*link, *old(win), *old(touch))
        },
{
    if link.peer_in_remote {
        return ;
    }
    let ghost base = out@;
    let (ax, ay) = anchor(win);
    take_over(win, entry_lateral);
    let ghost e1 = input::when(true, Effect::WarpCursor { x: ax, y: ay });
    push_when(true, Effect::WarpCursor { x: ax, y: ay }, out);
    let ghost e2 = input::when(win.keyboard_hook, Effect::RefreshKeyboardHook);
    push_when(win.keyboard_hook, Effect::RefreshKeyboardHook, out);
    let ghost e3 = foreground::request_effects(*touch, true);
    ask_for_touchpad(touch, ax, ay, out);
    let ghost e4 = input::when(win.hide_calls == 0, Effect::HideCursor);
    push_when(win.hide_calls == 0, Effect::HideCursor, out);
    let ghost e5 = win.motion.wake_effects();
    wake_motion_flush_watchdog(&win.motion, out);
    let ghost e6 = link.fired(RemoteEvent::Entered);
    fire_remote_event(link, RemoteEvent::Entered, out);
    proof {
        input::lemma_appended(base, e1, e2);
        input::lemma_appended(base, e1 + e2, e3);
        input::lemma_appended(base, e1 + e2 + e3, e4);
        input::lemma_appended(base, e1 + e2 + e3 + e4, e5);
        input::lemma_appended(base, e1 + e2 + e3 + e4 + e5, e6);
    }
}

fn take_over(win: &mut WindowsState, entry_lateral: i32)
    requires
        old(win).geometry_fits(),
    ensures
        *final(win) == entered(*old(win), entry_lateral),
{
    let (ax, ay) = anchor(win);
    win.virt_x = 0;
    win.virt_y = entry_lateral;
    win.last_x = ax;
    win.last_y = ay;
    win.mode = CursorMode::Remote;
}

fn ask_for_touchpad(
    touch: &mut foreground::TouchpadState,
    ax: i32,
    ay: i32,
    out: &mut Vec<Effect>,
)
    ensures
        *final(touch) == foreground::requested_state(
            foreground::TouchpadState { anchor_x: ax, anchor_y: ay, ..*old(touch) },
            true,
        ),
        final(out)@ == old(out)@ + foreground::request_effects(*old(touch), true),
{
    set_capture_anchor(touch, ax, ay);
    set_capture_active(touch, true, out);
}

/// Whether the cursor is to be hidden by one more call.
pub fn keep_hiding(calls: i32, display_count: i32) -> (r: bool)
    ensures
        r == (calls < MAX_HIDE_CALLS && display_count >= 0),
{
    calls < MAX_HIDE_CALLS && display_count >= 0
}

/// Notes how many calls hid the cursor.
pub fn note_cursor_hidden(win: &mut WindowsState, calls: i32)
    ensures
        *final(win) == (WindowsState { hide_calls: calls, ..*old(win) }),
{
    win.hide_calls = calls;
}

/// Where the cursor is put when control returns: at the edge that adjoins the
/// peer, as far along it as it was on the peer's screen.
pub open spec fn restore_point(win: WindowsState, side: PeerSide, lateral: int) -> (int, int) {
    let (left, top, right, bottom) = win.edges();
    match side {
        PeerSide::Right => (right, arith::clamp(lateral, top, bottom)),
        PeerSide::Left => (left, arith::clamp(lateral, top, bottom)),
        PeerSide::Top => (arith::clamp(lateral, left, right), top),
        PeerSide::Bottom => (arith::clamp(lateral, left, right), bottom),
    }
}

/// The Windows state after control has returned.
pub open spec fn exited(win: WindowsState, side: PeerSide, lateral: i32) -> WindowsState {
    WindowsState {
        last_x: restore_point(win, side, lateral as int).0 as i32,
        last_y: restore_point(win, side, lateral as int).1 as i32,
        mode: CursorMode::Local,
        hide_calls: 0,
        ..win
    }
}

/// What leaving `Remote` mode makes the capture code do.
pub open spec fn exit_effects(
    link: Link,
    win: WindowsState,
    touch: foreground::TouchpadState,
    lateral: i32,
) -> Seq<Effect> {
    let warp = Effect::WarpCursor {
        x: restore_point(win, link.peer_side, lateral as int).0 as i32,
        y: restore_point(win, link.peer_side, lateral as int).1 as i32,
    };
    input::when(true, warp) + foreground::request_effects(touch, false) + input::when(
        win.hide_calls > 0,
        Effect::ShowCursor { calls: win.hide_calls },
    ) + win.motion.wake_effects() + link.fired(RemoteEvent::Exited)
}

fn hand_back(win: &mut WindowsState, side: PeerSide, lateral: i32) -> (r: (i32, i32))
    requires
        old(win).geometry_fits(),
    ensures
        *final(win) == exited(*old(win), side, lateral),
        (r.0 as int, r.1 as int) == restore_point(*old(win), side, lateral as int),
{
    let (left, top, right, bottom) = bounds(win);
    let (x, y): (i32, i32) = match side {
        PeerSide::Right => (right, clamp_i32(lateral, top, bottom)),
        PeerSide::Left => (left, clamp_i32(lateral, top, bottom)),
        PeerSide::Top => (clamp_i32(lateral, left, right), top),
        PeerSide::Bottom => (clamp_i32(lateral, left, right), bottom),
    };
    win.last_x = x;
    win.last_y = y;
    win.mode = CursorMode::Local;
    win.hide_calls = 0;
    (x, y)
}

/// Leaves `Remote` mode.
pub fn exit_remote(
    link: &Link,
    win: &mut WindowsState,
    touch: &mut foreground::TouchpadState,
    restore_lateral: i32,
    out: &mut Vec<Effect>,
)
    requires
        old(win).geometry_fits(),
    ensures
        *final(win) == exited(*old(win), link.peer_side, restore_lateral),
        *final(touch) == foreground::requested_state(*old(touch), false),
        final(out)@ == old(out)@ + exit_effects(*link, *old(win), *old(touch), restore_lateral),
{
    let ghost base = out@;
    let calls: i32 = win.hide_calls;
    let (x, y) = hand_back(win, link.peer_side, restore_lateral);
    let ghost e1 = input::when(true, Effect::WarpCursor { x, y });
    push_when(true, Effect::WarpCursor { x, y }, out);
    let ghost e2 = foreground::request_effects(*touch, false);
    set_capture_active(touch, false, out);
    let ghost e3 = input::when(calls > 0, Effect::ShowCursor { calls });
    push_when(calls > 0, Effect::ShowCursor { calls }, out);
    let ghost e4 = win.motion.wake_effects();
    wake_motion_flush_watchdog(&win.motion, out);
    let ghost e5 = link.fired(RemoteEvent::Exited);
    fire_remote_event(link, RemoteEvent::Exited, out);
    proof {
        input::lemma_appended(base, e1, e2);
        input::lemma_appended(base, e1 + e2, e3);
        input::lemma_appended(base, e1 + e2 + e3, e4);
        input::lemma_appended(base, e1 + e2 + e3 + e4, e5);
    }
}

/// Whether a motion crossed onto the shared edge. The first known position
/// crosses nothing.
pub open spec fn crossed(
    side: PeerSide,
    edges: (int, int, int, int),
    previous: (int, int),
    current: (int, int),
) -> bool {
    previous.0 != i32::MIN && match side {
        PeerSide::Right => previous.0 < edges.2 && current.0 >= edges.2,
        PeerSide::Left => previous.0 > edges.0 && current.0 <= edges.0,
        PeerSide::Top => previous.1 > edges.1 && current.1 <= edges.1,
        PeerSide::Bottom => previous.1 < edges.3 && current.1 >= edges.3,
    }
}

pub fn crossed_peer_edge(
    side: PeerSide,
    bounds: (i32, i32, i32, i32),
    previous: (i32, i32),
    current: (i32, i32),
) -> (r: bool)
    ensures
        r == crossed(
            side,
            (bounds.0 as int, bounds.1 as int, bounds.2 as int, bounds.3 as int),
            (previous.0 as int, previous.1 as int),
            (current.0 as int, current.1 as int),
        ),
{
    previous.0 != i32::MIN && match side {
        PeerSide::Right => previous.0 < bounds.2 && current.0 >= bounds.2,
        PeerSide::Left => previous.0 > bounds.0 && current.0 <= bounds.0,
        PeerSide::Top => previous.1 > bounds.1 && current.1 <= bounds.1,
        PeerSide::Bottom => previous.1 < bounds.3 && current.1 >= bounds.3,
    }
}

/// Takes the mouse back from the peer; tells whether the peer had it.
pub fn reclaim_from_peer_hardware(link: &mut Link) -> (r: bool)
    ensures
        r == old(link).peer_in_remote,
        *final(link) == (Link { peer_in_remote: false, ..*old(link) }),
{
    let r = link.peer_in_remote;
    link.peer_in_remote = false;
    r
}

/// Whether a local motion takes the mouse back from the peer.
pub open spec fn reclaims(link: Link, win: WindowsState, x: int, y: int) -> bool {
    link.peer_in_remote && win.last_x != i32::MIN && arith::magnitude(x - win.last_x)
        + arith::magnitude(y - win.last_y) > 5
}

/// How the machines stand to each other once a local motion was noted.
pub open spec fn reclaimed(link: Link, win: WindowsState, x: int, y: int) -> Link {
    Link { peer_in_remote: link.peer_in_remote && !reclaims(link, win, x, y), ..link }
}

/// Whether a local motion carries the cursor over to the peer.
pub open spec fn crosses_over(link: Link, win: WindowsState, x: int, y: int) -> bool {
    crossed(link.peer_side, win.edges(), (win.last_x as int, win.last_y as int), (x, y))
        && !link.input_locked && link.game_drive == GameDrive::Off && !reclaimed(
        link,
        win,
        x,
        y,
    ).peer_in_remote
}

/// Motion alone never carries the cursor over while the input is locked to
/// this machine, or while a game is driven from either side.
pub proof fn lock_and_drive_keep_the_cursor_home(link: Link, win: WindowsState, x: int, y: int)
    requires
        link.input_locked || link.game_drive != GameDrive::Off,
    ensures
        !crosses_over(link, win, x, y),
{
}

/// What a local motion that takes the mouse back sends.
pub open spec fn reclaim_effects(link: Link, win: WindowsState, x: int, y: int) -> Seq<Effect> {
    if reclaims(link, win, x, y) {
        link.fired(RemoteEvent::RequestPeerExit)
    } else {
        Seq::empty()
    }
}

/// Handles genuine local motion: it takes the mouse back from the peer, and
/// carries the cursor over when it crosses the shared edge.
pub fn process_local_mouse_motion(
    link: &mut Link,
    activity: &mut Activity,
    win: &mut WindowsState,
    touch: &mut foreground::TouchpadState,
    x: i32,
    y: i32,
    track_activity: bool,
    now_ms: u64,
    out: &mut Vec<Effect>,
)
    requires
        old(win).geometry_fits(),
    ensures
        *final(link) == reclaimed(*old(link), *old(win), x as int, y as int),
        *final(activity) == if track_activity {
            old(activity).after_motion(now_ms)
        } else {
            *old(activity)
        },
        ({
            let moved = WindowsState { last_x: x, last_y: y, ..*old(win) };
            let asked = reclaim_effects(*old(link), *old(win), x as int, y as int);
            if crosses_over(*old(link), *old(win), x as int, y as int) {
                &&& *final(win) == entered(
                    moved,
                    if old(link).peer_side.horizontal() {
                        y
                    } else {
                        x
                    },
                )
                &&& *final(touch) == touch_entered(*old(touch), moved)
                &&& final(out)@ == old(out)@ + asked + enter_effects(
                    *final(link),
                    moved,
                    *old(touch),
                )
            } else {
                &&& *final(win) == moved
                &&& *final(touch) == *old(touch)
                &&& final(out)@ == old(out)@ + asked
            }
        }),
{
    if track_activity {
        bump_local_mouse_activity(activity, now_ms);
    }
    let last_x: i32 = win.last_x;
    let last_y: i32 = win.last_y;
    if link.peer_in_remote && last_x != i32::MIN && magnitude_i64(x as i64 - last_x as i64)
        + magnitude_i64(y as i64 - last_y as i64) > 5 {
        reclaim_from_peer_hardware(link);
        fire_remote_event(link, RemoteEvent::RequestPeerExit, out);
    }
    assert(out@ =~= old(out)@ + reclaim_effects(*old(link), *old(win), x as int, y as int));
    note_position(win, x, y);
    let edges = bounds(win);
    if crossed_peer_edge(link.peer_side, edges, (last_x, last_y), (x, y)) && !link.input_locked
        && link.game_drive == GameDrive::Off {
        let entry_lateral: i32 = if link.peer_side.is_horizontal() {
            y
        } else {
            x
        };
        enter_remote(link, win, touch, entry_lateral, out);
    }
}

/// Remembers where the cursor was seen.
pub fn note_position(win: &mut WindowsState, x: i32, y: i32)
    ensures
        *final(win) == (WindowsState { last_x: x, last_y: y, ..*old(win) }),
{
    win.last_x = x;
    win.last_y = y;
}

/// Whether the local mouse drives the peer.
pub fn local_in_remote(win: &WindowsState) -> (r: bool)
    ensures
        r == (win.mode == CursorMode::Remote),
{
    win.mode == CursorMode::Remote
}

/// The middle of the shared edge, along it.
pub open spec fn middle_lateral(win: WindowsState, side: PeerSide) -> int {
    let (left, top, right, bottom) = win.edges();
    if side.horizontal() {
        arith::half(top + bottom)
    } else {
        arith::half(left + right)
    }
}

/// Where along the shared edge control returns when it is forced.
pub open spec fn forced_lateral(link: Link, win: WindowsState) -> i32 {
    middle_lateral(win, link.peer_side) as i32
}

/// The states after `Remote` mode was left, if the local mouse was in it.
pub open spec fn forced_out(link: Link, win: WindowsState) -> WindowsState {
    if win.mode == CursorMode::Remote {
        exited(win, link.peer_side, forced_lateral(link, win))
    } else {
        win
    }
}

pub open spec fn forced_out_touch(
    win: WindowsState,
    touch: foreground::TouchpadState,
) -> foreground::TouchpadState {
    if win.mode == CursorMode::Remote {
        foreground::requested_state(touch, false)
    } else {
        touch
    }
}

pub open spec fn forced_out_effects(
    link: Link,
    win: WindowsState,
    touch: foreground::TouchpadState,
) -> Seq<Effect> {
    if win.mode == CursorMode::Remote {
        exit_effects(link, win, touch, forced_lateral(link, win))
    } else {
        Seq::empty()
    }
}

/// Leaves `Remote` mode, if the local mouse is in it, in the middle of the
/// shared edge.
pub fn force_exit_remote(
    link: &Link,
    win: &mut WindowsState,
    touch: &mut foreground::TouchpadState,
    out: &mut Vec<Effect>,
)
    requires
        old(win).geometry_fits(),
    ensures
        *final(win) == forced_out(*link, *old(win)),
        *final(touch) == forced_out_touch(*old(win), *old(touch)),
        final(out)@ == old(out)@ + forced_out_effects(*link, *old(win), *old(touch)),
{
    if win.mode == CursorMode::Remote {
        let (left, top, right, bottom) = bounds(win);
        let lateral: i32 = if link.peer_side.is_horizontal() {
            half_i32(top + bottom)
        } else {
            half_i32(left + right)
        };
        exit_remote(link, win, touch, lateral, out);
    } else {
        assert(out@ =~= old(out)@ + forced_out_effects(*link, *old(win), *old(touch)));
    }
}

/// Whether a point lies far enough from the edge of the desktop for the window
/// under it to be activated.
pub fn focus_point_is_safe(point: (i32, i32), screen_bounds: (i32, i32, i32, i32)) -> (r: bool)
    ensures
        r == (point.0 >= arith::saturated(screen_bounds.0 + EDGE_INSET_PX) && point.0
            <= arith::saturated(screen_bounds.2 - EDGE_INSET_PX) && point.1 >= arith::saturated(
            screen_bounds.1 + EDGE_INSET_PX,
        ) && point.1 <= arith::saturated(screen_bounds.3 - EDGE_INSET_PX)),
{
    point.0 >= saturating_add_i32(screen_bounds.0, EDGE_INSET_PX) && point.0
        <= arith::saturating_sub_i32(screen_bounds.2, EDGE_INSET_PX) && point.1
        >= saturating_add_i32(screen_bounds.1, EDGE_INSET_PX) && point.1
        <= arith::saturating_sub_i32(screen_bounds.3, EDGE_INSET_PX)
}

/// What happens to the cursor when the peer takes control.
#[derive(Debug, Clone, Copy, PartialEq, Eq, Structural)]
pub enum TakeControlAction {
    /// It is put at this point, so that the peer's model of it is right.
    Warp(i32, i32),
    /// A game owns it: it stays at this point.
    Anchor(i32, i32),
}

/// Whether the cursor stays where it is: only for a game that owns it.
pub fn should_anchor_cursor(game_foreground: bool, peer_in_remote: bool) -> (r: bool)
    ensures
        r == game_foreground,
{
    game_foreground
}

/// The middle of the edge that adjoins the peer.
pub open spec fn entry_point(side: PeerSide, b: (int, int, int, int)) -> (int, int) {
    match side {
        PeerSide::Right => (b.2, arith::half(b.1 + b.3)),
        PeerSide::Left => (b.0, arith::half(b.1 + b.3)),
        PeerSide::Top => (arith::half(b.0 + b.2), b.1),
        PeerSide::Bottom => (arith::half(b.0 + b.2), b.3),
    }
}

/// Decides where the cursor goes when the peer takes control.
pub fn take_control_action(
    anchor_in_place: bool,
    side: PeerSide,
    bounds: (i32, i32, i32, i32),
    cur: (i32, i32),
) -> (r: TakeControlAction)
    requires
        i32::MIN <= bounds.0 + bounds.2 <= i32::MAX,
        i32::MIN <= bounds.1 + bounds.3 <= i32::MAX,
    ensures
        anchor_in_place ==> r == TakeControlAction::Anchor(cur.0, cur.1),
        !anchor_in_place ==> {
            let p = entry_point(
                side,
                (bounds.0 as int, bounds.1 as int, bounds.2 as int, bounds.3 as int),
            );
            r == TakeControlAction::Warp(p.0 as i32, p.1 as i32)
        },
{
    if anchor_in_place {
        return TakeControlAction::Anchor(cur.0, cur.1);
    }
    let mid_x: i32 = half_i32(bounds.0 + bounds.2);
    let mid_y: i32 = half_i32(bounds.1 + bounds.3);
    match side {
        PeerSide::Right => TakeControlAction::Warp(bounds.2, mid_y),
        PeerSide::Left => TakeControlAction::Warp(bounds.0, mid_y),
        PeerSide::Top => TakeControlAction::Warp(mid_x, bounds.1),
        PeerSide::Bottom => TakeControlAction::Warp(mid_x, bounds.3),
    }
}

/// Where the cursor is after the peer took control.
pub open spec fn taken_point(win: WindowsState, side: PeerSide, cur: (i32, i32)) -> (int, int) {
    if win.game_foreground {
        (cur.0 as int, cur.1 as int)
    } else {
        entry_point(side, win.edges())
    }
}

/// Hands the cursor to the peer: it is put at the shared edge, unless a game
/// owns it, and the window under it is activated. `cur` is where it is now.
pub fn on_peer_take_control(
    link: &Link,
    win: &mut WindowsState,
    cur: (i32, i32),
    out: &mut Vec<Effect>,
)
    requires
        old(win).geometry_fits(),
    ensures
        ({
            let p = taken_point(*old(win), link.peer_side, cur);
            &&& *final(win) == (WindowsState {
                last_x: p.0 as i32,
                last_y: p.1 as i32,
                focus: FocusHandoff { pending: false, key_pending: true },
                ..*old(win)
            })
            &&& final(out)@ == old(out)@ + (if old(win).game_foreground {
                Seq::empty()
            } else {
                seq![Effect::WarpCursor { x: p.0 as i32, y: p.1 as i32 }]
            }) + seq![Effect::ActivateWindow]
        }),
{
    win.focus.arm();
    let anchored = should_anchor_cursor(win.game_foreground, link.peer_in_remote);
    match take_control_action(anchored, link.peer_side, bounds(win), cur) {
        TakeControlAction::Warp(x, y) => {
            out.push(Effect::WarpCursor { x, y });
            note_position(win, x, y);
        },
        TakeControlAction::Anchor(x, y) => {
            note_position(win, x, y);
        },
    }
    attempt_remote_focus(win, out);
    assert(out@ =~= old(out)@ + (if old(win).game_foreground {
        Seq::empty()
    } else {
        seq![Effect::WarpCursor { x: win.last_x, y: win.last_y }]
    }) + seq![Effect::ActivateWindow]);
}

/// Activates the window under the cursor, if that is still owed.
pub fn attempt_remote_focus(win: &mut WindowsState, out: &mut Vec<Effect>)
    ensures
        *final(win) == (WindowsState {
            focus: FocusHandoff { pending: false, ..old(win).focus },
            ..*old(win)
        }),
        final(out)@ == if old(win).focus.pending {
            old(out)@.push(Effect::ActivateWindow)
        } else {
            old(out)@
        },
{
    if win.focus.try_begin() {
        out.push(Effect::ActivateWindow);
    }
}

/// Activates the window under the cursor for the first key, if that is still
/// owed.
pub fn attempt_remote_key_focus(win: &mut WindowsState, out: &mut Vec<Effect>)
    ensures
        *final(win) == (WindowsState {
            focus: FocusHandoff { key_pending: false, ..old(win).focus },
            ..*old(win)
        }),
        final(out)@ == if old(win).focus.key_pending {
            old(out)@.push(Effect::ActivateWindowForKey)
        } else {
            old(out)@
        },
{
    if win.focus.try_begin_key() {
        out.push(Effect::ActivateWindowForKey);
    }
}

/// Stores the size of the peer's screen.
pub fn set_peer_screen(win: &mut WindowsState, w: u32, h: u32)
    ensures
        *final(win) == (WindowsState {
            peer_w: (if w >= 1 {
                w
            } else {
                1
            }) as i32,
            peer_h: (if h >= 1 {
                h
            } else {
                1
            }) as i32,
            ..*old(win)
        }),
{
    let w1: u32 = if w >= 1 {
        w
    } else {
        1
    };
    let h1: u32 = if h >= 1 {
        h
    } else {
        1
    };
    win.peer_w = w1 as i32;
    win.peer_h = h1 as i32;
}

/// Tells whether a desktop can be handled: it has an area once it is taken to
/// be at least one pixel each way, and its edges and their sums are
/// coordinates.
pub fn desktop_fits(ox: i32, oy: i32, w: i32, h: i32) -> (r: bool)
    ensures
        r == (span_fits(ox, input::inject::at_least_one(w)) && span_fits(oy, input::inject::at_least_one(h))),
{
    span_is_sane(ox, max_i32(w, 1)) && span_is_sane(oy, max_i32(h, 1))
}

fn span_is_sane(origin: i32, extent: i32) -> (r: bool)
    ensures
        r == span_fits(origin, extent),
{
    let (o, e): (i64, i64) = (origin as i64, extent as i64);
    let sum: i64 = 2 * o + e - 1;
    e >= 1 && o + e <= i32::MAX as i64 && i32::MIN as i64 <= sum && sum <= i32::MAX as i64
}

/// Stores origin and size of the desktop, at least one pixel each way; tells
/// the size.
pub fn local_screen_geometry(win: &mut WindowsState, ox: i32, oy: i32, w: i32, h: i32) -> (r: (
    u32,
    u32,
))
    ensures
        ({
            let w1 = if w >= 1 {
                w
            } else {
                1
            };
            let h1 = if h >= 1 {
                h
            } else {
                1
            };
            &&& *final(win) == (WindowsState {
                origin_x: ox,
                origin_y: oy,
                screen_w: w1,
                screen_h: h1,
                ..*old(win)
            })
            &&& r == (w1 as u32, h1 as u32)
        }),
        final(win).geometry_fits() == (span_fits(ox, input::inject::at_least_one(w)) && span_fits(
            oy,
            input::inject::at_least_one(h),
        )),
{
    let w1: i32 = max_i32(w, 1);
    let h1: i32 = max_i32(h, 1);
    win.origin_x = ox;
    win.origin_y = oy;
    win.screen_w = w1;
    win.screen_h = h1;
    (w1 as u32, h1 as u32)
}

/// Stores what the capture read at its start; a desktop without an area
/// changes nothing.
pub fn probe_screen_geometry(win: &mut WindowsState, ox: i32, oy: i32, w: i32, h: i32)
    ensures
        *final(win) == if w > 0 && h > 0 {
            WindowsState { origin_x: ox, origin_y: oy, screen_w: w, screen_h: h, ..*old(win) }
        } else {
            *old(win)
        },
        old(win).geometry_fits() && span_fits(ox, input::inject::at_least_one(w)) && span_fits(
            oy,
            input::inject::at_least_one(h),
        ) ==> final(win).geometry_fits(),
{
    if w > 0 && h > 0 {
        win.origin_x = ox;
        win.origin_y = oy;
        win.screen_w = w;
        win.screen_h = h;
    }
}

/// Captures the input of a Windows machine.
#[derive(Debug, Clone, Copy, PartialEq, Eq, Structural)]
pub struct HookCapture {
    pub started: bool,
}

impl HookCapture {
    pub fn new() -> (r: Self)
        ensures
            !r.started,
    {
        HookCapture { started: false }
    }

    /// Tells whether the threads are to be started, once; the desktop is
    /// stored then.
    pub fn start(&mut self, win: &mut WindowsState, ox: i32, oy: i32, w: i32, h: i32) -> (r: bool)
        ensures
            final(self).started,
            r == !old(self).started,
            *final(win) == if r && w > 0 && h > 0 {
                WindowsState { origin_x: ox, origin_y: oy, screen_w: w, screen_h: h, ..*old(win) }
            } else {
                *old(win)
            },
            old(win).geometry_fits() && span_fits(ox, input::inject::at_least_one(w)) && span_fits(
                oy,
                input::inject::at_least_one(h),
            ) ==> final(win).geometry_fits(),
    {
        if self.started {
            return false;
        }
        self.started = true;
        probe_screen_geometry(win, ox, oy, w, h);
        true
    }
}

/// What the touchpad of this machine can do for a session.
pub fn touchpad_capabilities(touch: &foreground::TouchpadState) -> (r: u32)
    ensures
        r == foreground::capability_bits(
            touch.frame_capture,
            touch.action_capture,
            touch.injection_ready,
        ),
{
    touch.capabilities()
}

/// The cursor in the peer's screen goes where the mouse goes: towards the peer it
/// goes deeper, home it comes back, along the edge it goes along, a pixel for a
/// pixel, and stops at the far end. A hundred pixels past the edge that it came
/// through, and no sooner, it has come home.
pub proof fn the_virtual_cursor_follows_the_mouse(
    win: &mut WindowsState,
    side: PeerSide,
    dx: i32,
    dy: i32,
    home: bool,
)
    requires
        call_ensures(track_raw_remote_motion, (win, side, dx, dy), home),
        old(win).mode == CursorMode::Remote,
        -100 < old(win).virt_x < 100_000,
        -100_000 < old(win).virt_y < 100_000,
        -100_000 < dx < 100_000,
        -100_000 < dy < 100_000,
        1 <= old(win).peer_w <= 100_000,
        1 <= old(win).peer_h <= 100_000,
    ensures
        ({
            let (towards, along, extent) = match side {
                PeerSide::Left => (-dx, dy as int, old(win).peer_w),
                PeerSide::Right => (dx as int, dy as int, old(win).peer_w),
                PeerSide::Top => (-dy, dx as int, old(win).peer_h),
                PeerSide::Bottom => (dy as int, dx as int, old(win).peer_h),
            };
            let depth = old(win).virt_x + towards;
            &&& home <==> depth <= -100
            &&& -100 < depth < extent ==> final(win).virt_x == depth
            &&& depth >= extent ==> final(win).virt_x == extent - 1
            &&& final(win).virt_y == old(win).virt_y + along
            &&& final(win).mode == old(win).mode
        }),
{
}

/// At home no motion moves the cursor of the peer.
pub proof fn at_home_the_virtual_cursor_rests(
    win: &mut WindowsState,
    side: PeerSide,
    dx: i32,
    dy: i32,
    home: bool,
)
    requires
        call_ensures(track_raw_remote_motion, (win, side, dx, dy), home),
        old(win).mode == CursorMode::Local,
    ensures
        !home,
        *final(win) == *old(win),
{
}

/// The cursor crosses exactly when it comes onto the edge on the peer's side from
/// inside the screen; no other edge counts, and the first position none.
pub proof fn only_the_shared_edge_is_crossed(
    side: PeerSide,
    b: (i32, i32, i32, i32),
    from: (i32, i32),
    to: (i32, i32),
    r: bool,
)
    requires
        call_ensures(crossed_peer_edge, (side, b, from, to), r),
    ensures
        from.0 == i32::MIN ==> !r,
        from.0 != i32::MIN ==> match side {
            PeerSide::Left => r <==> to.0 <= b.0 && b.0 < from.0,
            PeerSide::Top => r <==> to.1 <= b.1 && b.1 < from.1,
            PeerSide::Right => r <==> from.0 < b.2 && b.2 <= to.0,
            PeerSide::Bottom => r <==> from.1 < b.3 && b.3 <= to.1,
        },
{
}

/// A motion at home carries the cursor over exactly where it comes onto the
/// shared edge and nothing forbids it: no lock, no game that is driven, no peer
/// that has the mouse. The peer hears of it.
pub proof fn motion_over_the_edge_enters_the_peer(
    link: &mut Link,
    activity: &mut Activity,
    win: &mut WindowsState,
    touch: &mut foreground::TouchpadState,
    x: i32,
    y: i32,
    genuine: bool,
    now_ms: u64,
    out: &mut Vec<Effect>,
)
    requires
        call_ensures(
            process_local_mouse_motion,
            (link, activity, win, touch, x, y, genuine, now_ms, out),
            (),
        ),
        old(win).mode == CursorMode::Local,
        !old(link).peer_in_remote,
    ensures
        ({
            let w = *old(win);
            let onto = w.last_x != i32::MIN && match old(link).peer_side {
                PeerSide::Left => x <= w.origin_x < w.last_x,
                PeerSide::Top => y <= w.origin_y < w.last_y,
                PeerSide::Right => w.last_x < w.origin_x + w.screen_w - 1 <= x,
                PeerSide::Bottom => w.last_y < w.origin_y + w.screen_h - 1 <= y,
            };
            let free = !old(link).input_locked && old(link).game_drive == GameDrive::Off;
            if onto && free {
                &&& final(win).mode == CursorMode::Remote
                &&& final(win).virt_x == 0
                &&& final(win).virt_y == if old(link).peer_side == PeerSide::Left
                    || old(link).peer_side == PeerSide::Right {
                    y
                } else {
                    x
                }
                &&& old(link).remote_listener ==> final(out)@.last() == Effect::Remote(
                    RemoteEvent::Entered,
                )
            } else {
                &&& final(win).mode == CursorMode::Local
                &&& final(win).last_x == x && final(win).last_y == y
                &&& final(out)@ == old(out)@
            }
        }),
        final(link).input_locked == old(link).input_locked,
{
    assert(old(out)@ + Seq::<Effect>::empty() =~= old(out)@);
}

/// A mouse that the peer has is taken back by moving it for more than five
/// pixels, and by nothing less; the peer is asked to let go.
pub proof fn a_moved_mouse_is_taken_back(
    link: &mut Link,
    activity: &mut Activity,
    win: &mut WindowsState,
    touch: &mut foreground::TouchpadState,
    x: i32,
    y: i32,
    genuine: bool,
    now_ms: u64,
    out: &mut Vec<Effect>,
)
    requires
        call_ensures(
            process_local_mouse_motion,
            (link, activity, win, touch, x, y, genuine, now_ms, out),
            (),
        ),
        old(link).peer_in_remote,
        old(win).last_x != i32::MIN,
    ensures
        ({
            let (dx, dy) = (x - old(win).last_x, y - old(win).last_y);
            let way = (if dx >= 0 {
                dx
            } else {
                -dx
            }) + (if dy >= 0 {
                dy
            } else {
                -dy
            });
            &&& final(link).peer_in_remote <==> way <= 5
            &&& way <= 5 ==> final(win).mode == old(win).mode && final(out)@ == old(out)@
            &&& way > 5 && old(link).remote_listener ==> final(out)@.len() > old(out)@.len()
                && final(out)@[old(out)@.len() as int] == Effect::Remote(
                RemoteEvent::RequestPeerExit,
            )
        }),
{
    assert(old(out)@ + Seq::<Effect>::empty() =~= old(out)@);
}

/// A cursor that comes home is put onto the shared edge, as far along it as it was
/// on the peer's screen, stays on the desktop, and is shown again. The peer hears
/// of it.
pub proof fn the_cursor_comes_home_on_the_shared_edge(
    link: &Link,
    win: &mut WindowsState,
    touch: &mut foreground::TouchpadState,
    lateral: i32,
    out: &mut Vec<Effect>,
)
    requires
        call_ensures(exit_remote, (link, win, touch, lateral, out), ()),
        old(win).geometry_fits(),
    ensures
        final(win).mode == CursorMode::Local,
        final(win).hide_calls == 0,
        ({
            let w = *old(win);
            let (right, bottom) = (w.origin_x + w.screen_w - 1, w.origin_y + w.screen_h - 1);
            let (x, y) = (final(win).last_x, final(win).last_y);
            &&& w.origin_x <= x <= right && w.origin_y <= y <= bottom
            &&& match link.peer_side {
                PeerSide::Left => x == w.origin_x && (w.origin_y <= lateral <= bottom ==> y
                    == lateral),
                PeerSide::Right => x == right && (w.origin_y <= lateral <= bottom ==> y == lateral),
                PeerSide::Top => y == w.origin_y && (w.origin_x <= lateral <= right ==> x
                    == lateral),
                PeerSide::Bottom => y == bottom && (w.origin_x <= lateral <= right ==> x
                    == lateral),
            }
            &&& final(out)@.len() > old(out)@.len() && final(out)@[old(out)@.len() as int]
                == Effect::WarpCursor { x, y }
        }),
        link.remote_listener ==> final(out)@.last() == Effect::Remote(RemoteEvent::Exited),
{
    assert(final(out)@[old(out)@.len() as int] == exit_effects(
        *link,
        *old(win),
        *old(touch),
        lateral,
    )[0]);
}

/// While the peer drives this machine its mouse cannot go over there; else the
/// cursor is kept in the middle of the desktop and hidden while it is away.
pub proof fn the_cursor_is_hidden_in_the_middle_while_it_is_away(
    link: &Link,
    win: &mut WindowsState,
    touch: &mut foreground::TouchpadState,
    lateral: i32,
    out: &mut Vec<Effect>,
)
    requires
        call_ensures(enter_remote, (link, win, touch, lateral, out), ()),
        old(win).geometry_fits(),
    ensures
        link.peer_in_remote ==> *final(win) == *old(win) && final(out)@ == old(out)@,
        !link.peer_in_remote ==> {
            let w = *old(win);
            let (x, y) = (final(win).last_x, final(win).last_y);
            &&& final(win).mode == CursorMode::Remote
            &&& final(win).virt_x == 0 && final(win).virt_y == lateral
            &&& -1 <= 2 * (x - w.origin_x) - w.screen_w <= 0
            &&& -1 <= 2 * (y - w.origin_y) - w.screen_h <= 0
            &&& final(out)@[old(out)@.len() as int] == Effect::WarpCursor { x, y }
            &&& link.remote_listener ==> final(out)@.last() == Effect::Remote(RemoteEvent::Entered)
        },
{
    if !link.peer_in_remote {
        let sent = enter_effects(*link, *old(win), *old(touch));
        assert(final(out)@[old(out)@.len() as int] == sent[0]);
    }
}

/// The mouse goes to the peer exactly while the cursor is there or a game is
/// driven.
pub proof fn the_mouse_goes_where_the_cursor_is(link: &Link, win: &WindowsState, r: bool)
    requires
        call_ensures(forwarding_active, (link, win), r),
    ensures
        r <==> win.mode == CursorMode::Remote || link.game_drive == GameDrive::Driving,
{
}

/// A window is activated for the peer only well inside the desktop, eight pixels
/// from its edges.
pub proof fn windows_are_activated_inside_the_desktop(
    p: (i32, i32),
    b: (i32, i32, i32, i32),
    r: bool,
)
    requires
        call_ensures(focus_point_is_safe, (p, b), r),
        b.0 <= b.2 - 16,
        b.1 <= b.3 - 16,
    ensures
        r <==> b.0 + 8 <= p.0 <= b.2 - 8 && b.1 + 8 <= p.1 <= b.3 - 8,
{
}

/// After a handover the window under the cursor is activated once, and once more
/// for the first key; a failed attempt is made again.
pub proof fn a_handover_activates_once(
    f: (&mut FocusHandoff, &mut FocusHandoff, &mut FocusHandoff, &mut FocusHandoff),
    worked: bool,
    r: (bool, bool),
)
    requires
        call_ensures(FocusHandoff::arm, (f.0,), ()),
        *old(f.1) == *final(f.0),
        call_ensures(FocusHandoff::try_begin, (f.1,), r.0),
        *old(f.2) == *final(f.1),
        call_ensures(FocusHandoff::finish, (f.2, worked), ()),
        *old(f.3) == *final(f.2),
        call_ensures(FocusHandoff::try_begin, (f.3,), r.1),
    ensures
        r.0,
        r.1 == !worked,
        final(f.3).key_pending,
{
}

/// The same for the first key.
pub proof fn a_first_key_activates_once(
    f: (&mut FocusHandoff, &mut FocusHandoff, &mut FocusHandoff, &mut FocusHandoff),
    worked: bool,
    r: (bool, bool),
)
    requires
        call_ensures(FocusHandoff::arm, (f.0,), ()),
        *old(f.1) == *final(f.0),
        call_ensures(FocusHandoff::try_begin_key, (f.1,), r.0),
        *old(f.2) == *final(f.1),
        call_ensures(FocusHandoff::finish_key, (f.2, worked), ()),
        *old(f.3) == *final(f.2),
        call_ensures(FocusHandoff::try_begin_key, (f.3,), r.1),
    ensures
        r.0,
        r.1 == !worked,
        final(f.3).pending,
{
}

/// A cursor is hidden with at most 32 calls, and with no more than it takes.
pub proof fn hiding_the_cursor_ends(calls: i32, shown: i32, r: bool)
    requires
        call_ensures(keep_hiding, (calls, shown), r),
    ensures
        r <==> shown >= 0 && calls < 32,
{
}

/// No screen of the peer is smaller than one pixel, and a larger one is kept as it
/// is.
pub proof fn the_screen_of_the_peer_is_kept(win: &mut WindowsState, w: u32, h: u32)
    requires
        call_ensures(set_peer_screen, (win, w, h), ()),
        w <= i32::MAX,
        h <= i32::MAX,
    ensures
        w >= 1 ==> final(win).peer_w == w,
        h >= 1 ==> final(win).peer_h == h,
        w == 0 ==> final(win).peer_w == 1,
        h == 0 ==> final(win).peer_h == 1,
        final(win).screen_w == old(win).screen_w,
{
}

/// The touchpad goes along with the mouse: it is asked for when the cursor leaves
/// for the peer and given up when it comes home. Nobody leaves while the peer drives
/// this machine, and the peer hears of both.
pub proof fn the_touchpad_goes_along(
    link: &Link,
    win: (&mut WindowsState, &mut WindowsState),
    touch: (&mut foreground::TouchpadState, &mut foreground::TouchpadState),
    lateral: (i32, i32),
    out: (&mut Vec<Effect>, &mut Vec<Effect>),
)
    requires
        call_ensures(enter_remote, (link, win.0, touch.0, lateral.0, out.0), ()),
        call_ensures(exit_remote, (link, win.1, touch.1, lateral.1, out.1), ()),
        link.remote_listener,
    ensures
        !link.peer_in_remote ==> final(touch.0).capture_requested && final(win.0).mode
            == CursorMode::Remote && final(out.0)@.last() == Effect::Remote(RemoteEvent::Entered),
        link.peer_in_remote ==> *final(win.0) == *old(win.0) && *final(touch.0) == *old(touch.0)
            && final(out.0)@ == old(out.0)@,
        !final(touch.1).capture_requested,
        !final(touch.1).keyboard_suspended,
        final(win.1).mode == CursorMode::Local,
        final(out.1)@.last() == Effect::Remote(RemoteEvent::Exited),
{
}

} // verus!
