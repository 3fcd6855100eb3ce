//! What holds of the input over any row of steps that the daemon takes with it.

use crate::arith;
use crate::daemon::control::ControlMsg;
use crate::daemon::layout;
use crate::daemon::session;
use crate::daemon::settings::{self, Settings};
use crate::input::games;
use crate::input::hooks::{self, KeyHookEvent, MouseHookEvent, MouseVerdict, RawReport, WindowKey};
use crate::input::linux::{self, DeviceEvent, LinuxState, MotionStep, Pump};
use crate::input::motion::Clock;
use crate::input::speed;
use crate::input::windows::{self, FocusHandoff, WindowsState};
use crate::input::{
    self, Activity, Effect, GameDrive, InputState, KeyRouting, Link, PeerSide, Platform,
    ScreenReport, Tuning, MAX_MOUSE_RATE_HZ, MIN_MOUSE_RATE_HZ,
};
use crate::ui::{self, MenuEntry};
use vstd::prelude::*;

verus! {

/// A step that the daemon takes with the input, by the function that takes it.
#[allow(inconsistent_fields)]
pub enum InputStep {
    /// A function that is handed the link, the activity, the keys, the capture
    /// of a Linux machine or the touchpad alone.
    OtherPart,
    /// `low_mouse_hook` and `forward_hook_motion`.
    MouseHook { ev: MouseHookEvent, now_ms: u64 },
    HookMotion { dx: i32, dy: i32, now: Clock },
    /// `low_kb_hook`, `handle_raw_keyboard`, `poll_reserved_alt_tab`,
    /// `capture_window_key` and `route_physical_key`.
    KeyHook { ev: KeyHookEvent, cursor_y: Option<i32>, now_ms: u64 },
    RawKey { scan: u32, vk: u32, extended: bool, down: bool, alt_async: bool, now_ms: u64 },
    AltTabPoll { alt_async: bool, tab_async: bool, now_ms: u64 },
    CaptureWindowKey { key: WindowKey, now_ms: u64 },
    PhysicalKey { code: u16, down: bool, remote: bool, now_ms: u64 },
    /// `handle_raw_input`, `local_motion` and `forward_raw_motion`.
    Raw { report: RawReport, now_ms: u64 },
    LocalMotion { x: i32, y: i32, now_ms: u64 },
    RawMotion { dx: i32, dy: i32, now: Clock },
    /// `queue_pending_motion`, `arm_pending_motion`, `flush_pending_motion`,
    /// `flush_pending_motion_if_due` and `motion_watchdog_round`.
    QueueMotion { flush_us: u64, dx: i32, dy: i32, now: Clock },
    ArmMotion { flush_us: u64, now_us: u64 },
    FlushMotion { now: Clock },
    FlushDueMotion { now: Clock },
    WatchdogRound { now: Clock },
    /// `enter_remote`, `exit_remote`, `advance_remote_virtual_cursor` and the
    /// rest that is handed the capture of a Windows machine.
    EnterRemote { lateral: i32 },
    ExitRemote { lateral: i32 },
    VirtualCursor { side: PeerSide, dx: i32, dy: i32 },
    Position { x: i32, y: i32 },
    HiddenCursor { calls: i32 },
    /// Which of the capture's threads run.
    Threads { keyboard_hook: bool, using_raw_input: bool, watchdog: bool },
    Focus { focus: FocusHandoff },
    Desktop { ox: i32, oy: i32, w: i32, h: i32 },
    /// `handle_key` and `pump_device`.
    LinuxKey { code: u16, value: i32, now_ms: u64 },
    LinuxDevice { before: Pump, after: Pump, ev: DeviceEvent, now_ms: u64 },
    /// `bump_inj_events`.
    Injected,
    /// `set_mouse_rate_hz`, and `apply` and `install_loaded` of the settings.
    Rate { hz: u32 },
    Settings { s: Settings },
    /// The other setters of what the user has chosen.
    Sensitivity { bits: u32 },
    ScrollSpeed { bits: u32 },
    InvertScroll { x: bool, y: bool },
    AutoFocus { v: bool },
    /// `set_input_locked`, `toggle_game_drive`, `set_game_drive`,
    /// `force_local_exit_remote`, `game_detect_round` and `on_menu_event`.
    Lock { v: bool },
    ToggleDrive,
    Drive { s: GameDrive },
    LeaveRemote,
    GameLook { warning: Option<String>, found: bool },
    Menu { e: MenuEntry },
    Warning { name: Option<String> },
    /// `set_peer_side` and the layout, the screens, and the peer's doings.
    Side { side: PeerSide },
    PeerScreen { w: u32, h: u32 },
    LocalScreen { report: ScreenReport },
    TakeControl { pushed: bool, cur: (i32, i32) },
    PeerRemote { v: bool },
    PeerActivity { at: u64 },
    PeerTouchpad { capabilities: u32 },
    Listener { on: bool },
    /// `should_forward_keys` and `route_keystroke`.
    Keys { keys: KeyRouting },
    /// `reset_smart_decision`, `begin_session`, `end_session` and `on_control`.
    Forget,
    BeginSession,
    EndSession,
    Control { msg: ControlMsg, pushed: bool, cur: (i32, i32) },
}

impl InputStep {
    /// Whether the step sets the rate of motion packets.
    pub open spec fn sets_rate(self) -> bool {
        self is Rate || self is Settings
    }
}

/// Whether a mouse hook's event can lead from one state to the other, whatever is
/// sent.
pub open spec fn after_mouse_hook(
    pre: InputState,
    post: InputState,
    ev: MouseHookEvent,
    now_ms: u64,
) -> bool {
    exists|sent: Seq<Effect>, r: MouseVerdict| #[trigger]
        hooks::mouse_hooked(pre, post, ev, now_ms, sent, r)
}

/// Whether the motion that such an event left can.
pub open spec fn after_hook_motion(
    pre: InputState,
    post: InputState,
    dx: i32,
    dy: i32,
    now: Clock,
) -> bool {
    exists|mid: InputState, sent: Seq<Effect>| #[trigger]
        hooks::hook_motion_forwarded(pre, post, dx, dy, now, mid, sent)
}

/// Whether a raw key report can.
pub open spec fn after_raw_key(
    pre: InputState,
    post: InputState,
    scan: u32,
    vk: u32,
    extended: bool,
    down: bool,
    alt_async: bool,
    now_ms: u64,
) -> bool {
    exists|sent: Seq<Effect>, r: bool| #[trigger]
        hooks::raw_key_handled(pre, post, scan, vk, extended, down, alt_async, now_ms, sent, r)
}

/// Whether a poll that finds this edge can.
pub open spec fn after_poll(
    pre: InputState,
    post: InputState,
    edge: Option<bool>,
    now_ms: u64,
) -> bool {
    exists|sent: Seq<Effect>, r: bool| #[trigger]
        hooks::polled(pre, post, edge, now_ms, sent, r)
}

/// Whether the routing of a key can.
pub open spec fn after_physical_key(
    pre: InputState,
    post: InputState,
    code: u16,
    down: bool,
    remote: bool,
    now_ms: u64,
) -> bool {
    exists|sent: Seq<Effect>, r: bool| #[trigger]
        hooks::key_routed(pre, post, code, down, remote, now_ms, sent, r)
}

/// Whether genuine local motion can.
pub open spec fn after_local_motion(
    pre: InputState,
    post: InputState,
    x: i32,
    y: i32,
    now_ms: u64,
) -> bool {
    exists|sent: Seq<Effect>| #[trigger]
        hooks::local_motion_done(pre, post, x, y, now_ms, sent)
}

/// Whether the motion of a raw report can.
pub open spec fn after_raw_motion(
    pre: InputState,
    post: InputState,
    dx: i32,
    dy: i32,
    now: Clock,
) -> bool {
    let moved = hooks::raw_followed(pre, dx, dy);
    let back = hooks::returns_control(pre, dx, dy);
    exists|sent: Seq<Effect>| #[trigger]
        hooks::motion_forwarded(pre, post, moved, dx, dy, back, now, sent)
}

/// Whether a key event of a Linux machine can.
pub open spec fn after_linux_key(
    pre: InputState,
    post: InputState,
    code: u16,
    value: i32,
    now_ms: u64,
) -> bool {
    exists|sent: Seq<Effect>| #[trigger]
        linux::key_handled(pre, post, code, value, now_ms, sent)
}

/// Whether an event of a device of a Linux machine can.
pub open spec fn after_device(
    pre: InputState,
    post: InputState,
    before: Pump,
    after: Pump,
    ev: DeviceEvent,
    now_ms: u64,
) -> bool {
    exists|sent: Seq<Effect>, r: MotionStep| #[trigger]
        linux::pumped(pre, post, before, after, ev, now_ms, sent, r)
}

/// Whether a key hook's event can.
pub open spec fn after_key_hook(
    pre: InputState,
    post: InputState,
    ev: KeyHookEvent,
    cursor_y: Option<i32>,
    now_ms: u64,
) -> bool {
    exists|sent: Seq<Effect>, kept: bool| #[trigger]
        hooks::key_hooked(pre, post, ev, cursor_y, now_ms, sent, kept)
}

/// Whether a key of the capture window can.
pub open spec fn after_window_key(
    pre: InputState,
    post: InputState,
    key: WindowKey,
    now_ms: u64,
) -> bool {
    let noted = hooks::alt_noted(pre, key);
    if !pre.touch.capture_enabled {
        post == pre
    } else if hooks::owned_elsewhere(noted, key) {
        post == noted
    } else {
        exists|mid: InputState, first: (Seq<Effect>, bool), late: Seq<Effect>, r: bool| #[trigger]
            hooks::window_key_done(noted, mid, post, key, now_ms, first, late, r)
    }
}

/// Whether a step of the capture on a Windows machine leads from one state to
/// the other, as the function that takes it promises.
pub open spec fn windows_step(pre: InputState, step: InputStep, post: InputState) -> bool {
    match step {
        InputStep::MouseHook { ev, now_ms } => after_mouse_hook(pre, post, ev, now_ms),
        InputStep::HookMotion { dx, dy, now } => after_hook_motion(pre, post, dx, dy, now),
        InputStep::KeyHook { ev, cursor_y, now_ms } => after_key_hook(
            pre,
            post,
            ev,
            cursor_y,
            now_ms,
        ),
        InputStep::RawKey { scan, vk, extended, down, alt_async, now_ms } => after_raw_key(
            pre,
            post,
            scan,
            vk,
            extended,
            down,
            alt_async,
            now_ms,
        ),
        InputStep::AltTabPoll { alt_async, tab_async, now_ms } => after_poll(
            pre,
            post,
            hooks::poll_edge(pre.touch, alt_async, tab_async),
            now_ms,
        ),
        InputStep::CaptureWindowKey { key, now_ms } => after_window_key(pre, post, key, now_ms),
        InputStep::PhysicalKey { code, down, remote, now_ms } => after_physical_key(
            pre,
            post,
            code,
            down,
            remote,
            now_ms,
        ),
        InputStep::Raw { report, now_ms } => {
            let r = hooks::raw_step(pre, report);
            post == if r is ReadCursor || r is Scale {
                InputState { win: WindowsState { last_raw_input_ms: now_ms, ..pre.win }, ..pre }
            } else {
                pre
            }
        },
        InputStep::LocalMotion { x, y, now_ms } => after_local_motion(pre, post, x, y, now_ms),
        InputStep::RawMotion { dx, dy, now } => after_raw_motion(pre, post, dx, dy, now),
        InputStep::QueueMotion { flush_us, dx, dy, now } => post == if dx == 0 && dy == 0 {
            pre
        } else {
            InputState {
                win: WindowsState {
                    motion: pre.win.motion.with(dx, dy).armed(flush_us, now.us).settled(now),
                    ..pre.win
                },
                ..pre
            }
        },
        InputStep::ArmMotion { flush_us, now_us } => post == (InputState {
            win: WindowsState { motion: pre.win.motion.armed(flush_us, now_us), ..pre.win },
            ..pre
        }),
        InputStep::FlushMotion { now } => post == (InputState {
            win: WindowsState { motion: pre.win.motion.flushed(now), ..pre.win },
            ..pre
        }),
        InputStep::FlushDueMotion { now } => post == (InputState {
            win: WindowsState { motion: pre.win.motion.settled(now), ..pre.win },
            ..pre
        }),
        InputStep::WatchdogRound { now } => post == (InputState {
            win: windows::after_round(pre.win, now),
            ..pre
        }),
        InputStep::EnterRemote { lateral } => post == if pre.link.peer_in_remote {
            pre
        } else {
            InputState {
                win: windows::entered(pre.win, lateral),
                touch: windows::touch_entered(pre.touch, pre.win),
                ..pre
            }
        },
        InputStep::ExitRemote { lateral } => post == (InputState {
            win: windows::exited(pre.win, pre.link.peer_side, lateral),
            touch: input::foreground::requested_state(pre.touch, false),
            ..pre
        }),
        InputStep::VirtualCursor { side, dx, dy } => post == (InputState {
            win: windows::virtual_cursor_moved(pre.win, side, dx as int, dy as int),
            ..pre
        }),
        InputStep::Position { x, y } => post == (InputState {
            win: WindowsState { last_x: x, last_y: y, ..pre.win },
            ..pre
        }),
        InputStep::HiddenCursor { calls } => post == (InputState {
            win: WindowsState { hide_calls: calls, ..pre.win },
            ..pre
        }),
        InputStep::Threads { keyboard_hook, using_raw_input, watchdog } => post == (InputState {
            win: WindowsState {
                keyboard_hook,
                using_raw_input,
                motion: input::motion::MotionQueue { watchdog, ..pre.win.motion },
                ..pre.win
            },
            ..pre
        }),
        InputStep::Focus { focus } => post == (InputState {
            win: WindowsState { focus, ..pre.win },
            ..pre
        }),
        InputStep::Desktop { ox, oy, w, h } => post == if w > 0 && h > 0 {
            InputState {
                win: WindowsState {
                    origin_x: ox,
                    origin_y: oy,
                    screen_w: w,
                    screen_h: h,
                    ..pre.win
                },
                ..pre
            }
        } else {
            pre
        },
        _ => false,
    }
}

/// Whether a step on what the user has chosen does.
pub open spec fn chosen_step(pre: InputState, step: InputStep, post: InputState) -> bool {
    match step {
        InputStep::Rate { hz } => post.tuning.target_flush_us == 1_000_000int / arith::clamp(
            hz as int,
            MIN_MOUSE_RATE_HZ as int,
            MAX_MOUSE_RATE_HZ as int,
        ) && post == (InputState {
            tuning: Tuning { target_flush_us: post.tuning.target_flush_us, ..pre.tuning },
            ..pre
        }),
        InputStep::Settings { s } => settings::input_follows(pre, post, s),
        InputStep::Sensitivity { bits } => post == (InputState {
            tuning: Tuning { mouse_sens_bits: speed::speed(bits), ..pre.tuning },
            ..pre
        }),
        InputStep::ScrollSpeed { bits } => post == (InputState {
            tuning: Tuning { scroll_speed_bits: speed::speed(bits), ..pre.tuning },
            ..pre
        }),
        InputStep::InvertScroll { x, y } => post == (InputState {
            tuning: Tuning { invert_scroll_x: x, invert_scroll_y: y, ..pre.tuning },
            ..pre
        }),
        InputStep::AutoFocus { v } => post == (InputState {
            tuning: Tuning { auto_focus_on_take: v, ..pre.tuning },
            ..pre
        }),
        InputStep::Lock { v } => post == if v && !pre.link.input_locked {
            input::forced_local(input::with_lock(pre, v))
        } else {
            input::with_lock(pre, v)
        },
        InputStep::ToggleDrive => post == if pre.link.game_drive != GameDrive::Off {
            input::with_drive(pre, GameDrive::Off)
        } else {
            input::with_drive(input::forced_local(pre), GameDrive::Driving)
        },
        InputStep::Drive { s } => post == input::with_drive(pre, s),
        InputStep::LeaveRemote => post == input::forced_local(pre),
        InputStep::GameLook { warning, found } => post == games::after_look(pre, warning, found),
        InputStep::Menu { e } => post == ui::input_after(pre, e),
        InputStep::Warning { name } => post == (InputState { anticheat_warning: name, ..pre }),
        _ => false,
    }
}

/// Whether a step of a session, or one that the peer causes, does.
pub open spec fn peer_step(pre: InputState, step: InputStep, post: InputState) -> bool {
    match step {
        InputStep::Injected => post == (InputState {
            inj_events: pre.inj_events.wrapping_add(1),
            ..pre
        }),
        InputStep::Side { side } => layout::side_set(pre, post, side),
        InputStep::PeerScreen { w, h } => session::screen_kept(pre, post, w, h),
        InputStep::LocalScreen { report } => {
            let size = input::reported_size(pre.platform, report);
            post == match pre.platform {
                Platform::Windows => InputState {
                    win: WindowsState {
                        origin_x: report.origin_x,
                        origin_y: report.origin_y,
                        screen_w: size.0 as i32,
                        screen_h: size.1 as i32,
                        ..pre.win
                    },
                    ..pre
                },
                Platform::Linux => InputState {
                    linux: LinuxState {
                        screen_w: size.0 as i32,
                        screen_h: size.1 as i32,
                        ..pre.linux
                    },
                    ..pre
                },
                Platform::Other => pre,
            }
        },
        InputStep::TakeControl { pushed, cur } => post == input::taken_over(pre, pushed, cur),
        InputStep::PeerRemote { v } => post == session::with_peer_remote(pre, v),
        InputStep::PeerActivity { at } => post == (InputState {
            activity: Activity { peer_activity_at: at, ..pre.activity },
            ..pre
        }),
        InputStep::PeerTouchpad { capabilities } => post == (InputState {
            link: Link { peer_touchpad_capabilities: capabilities, ..pre.link },
            ..pre
        }),
        InputStep::Listener { on } => post == (InputState {
            link: Link { remote_listener: on, ..pre.link },
            ..pre
        }),
        InputStep::Forget => input::forgotten(pre, post),
        InputStep::BeginSession => session::joined(pre, post),
        InputStep::EndSession => post == session::left(pre),
        InputStep::Control { msg, pushed, cur } => post == session::after_message(
            pre,
            msg,
            pushed,
            cur,
        ),
        _ => false,
    }
}

/// Whether a step on the other parts of the state does.
pub open spec fn other_step(pre: InputState, step: InputStep, post: InputState) -> bool {
    match step {
        InputStep::OtherPart => post == (InputState {
            link: post.link,
            activity: post.activity,
            keys: post.keys,
            linux: post.linux,
            touch: post.touch,
            ..pre
        }),
        InputStep::LinuxKey { code, value, now_ms } => after_linux_key(
            pre,
            post,
            code,
            value,
            now_ms,
        ),
        InputStep::LinuxDevice { before, after, ev, now_ms } => after_device(
            pre,
            post,
            before,
            after,
            ev,
            now_ms,
        ),
        InputStep::Keys { keys } => post == (InputState { keys, ..pre }),
        _ => false,
    }
}

/// Whether a step leads from one state to the other.
pub open spec fn happens(pre: InputState, step: InputStep, post: InputState) -> bool {
    ||| windows_step(pre, step, post)
    ||| chosen_step(pre, step, post)
    ||| peer_step(pre, step, post)
    ||| other_step(pre, step, post)
}

/// A history: the states before and after each of a row of steps.
pub open spec fn is_history(states: Seq<InputState>, steps: Seq<InputStep>) -> bool {
    &&& states.len() == steps.len() + 1
    &&& forall|i: int|
        0 <= i < steps.len() ==> happens(states[i], #[trigger] steps[i], states[i + 1])
}

/// Whether a step adds one to each of the two counts at most, and takes nothing
/// away; and leaves the rate, unless it sets it.
pub open spec fn counted(pre: InputState, step: InputStep, post: InputState) -> bool {
    let (before, after) = (input::motion_counts(pre), input::motion_counts(post));
    &&& input::count_kept(before.0, after.0)
    &&& input::count_kept(before.1, after.1)
    &&& !step.sets_rate() ==> post.tuning.target_flush_us == pre.tuning.target_flush_us
}

proof fn lemma_key_hook(
    pre: InputState,
    post: InputState,
    ev: KeyHookEvent,
    cursor_y: Option<i32>,
    now_ms: u64,
)
    requires
        after_key_hook(pre, post, ev, cursor_y, now_ms),
    ensures
        input::uncounted(pre, post),
{
    let (sent, kept) = choose|sent: Seq<Effect>, kept: bool| #[trigger]
        hooks::key_hooked(pre, post, ev, cursor_y, now_ms, sent, kept);
    hooks::key_events_keep_the_counts(pre, post, ev, cursor_y, now_ms, sent, kept);
}

proof fn lemma_window_key(pre: InputState, post: InputState, key: WindowKey, now_ms: u64)
    requires
        after_window_key(pre, post, key, now_ms),
    ensures
        input::uncounted(pre, post),
{
    let noted = hooks::alt_noted(pre, key);
    if pre.touch.capture_enabled && !hooks::owned_elsewhere(noted, key) {
        let (mid, first, late, r) = choose|
            mid: InputState,
            first: (Seq<Effect>, bool),
            late: Seq<Effect>,
            r: bool,
        | #[trigger]
            hooks::window_key_done(noted, mid, post, key, now_ms, first, late, r);
        hooks::window_keys_keep_the_counts(noted, mid, post, key, now_ms, first, late, r);
    }
}

proof fn lemma_raw_key(
    pre: InputState,
    post: InputState,
    scan: u32,
    vk: u32,
    extended: bool,
    down: bool,
    alt_async: bool,
    now_ms: u64,
)
    requires
        after_raw_key(pre, post, scan, vk, extended, down, alt_async, now_ms),
    ensures
        input::uncounted(pre, post),
{
    let (sent, r) = choose|sent: Seq<Effect>, r: bool| #[trigger]
        hooks::raw_key_handled(pre, post, scan, vk, extended, down, alt_async, now_ms, sent, r);
    if let Some((edge_vk, edge_extended, edge)) = hooks::raw_key_edge(
        pre.touch,
        scan,
        vk,
        extended,
        down,
        alt_async,
    ) {
        hooks::recovered_keys_keep_the_counts(
            pre,
            post,
            scan,
            edge_vk,
            edge_extended,
            edge,
            now_ms,
            sent,
            r,
        );
    }
}

proof fn lemma_poll(pre: InputState, post: InputState, edge: Option<bool>, now_ms: u64)
    requires
        after_poll(pre, post, edge, now_ms),
    ensures
        input::uncounted(pre, post),
{
    let (sent, r) = choose|sent: Seq<Effect>, r: bool| #[trigger]
        hooks::polled(pre, post, edge, now_ms, sent, r);
    if let Some(down) = edge {
        hooks::recovered_keys_keep_the_counts(
            pre,
            post,
            hooks::SCAN_TAB,
            hooks::VK_TAB,
            false,
            down,
            now_ms,
            sent,
            r,
        );
    }
}

proof fn lemma_physical_key(
    pre: InputState,
    post: InputState,
    code: u16,
    down: bool,
    remote: bool,
    now_ms: u64,
)
    requires
        after_physical_key(pre, post, code, down, remote, now_ms),
    ensures
        input::uncounted(pre, post),
{
    let (sent, r) = choose|sent: Seq<Effect>, r: bool| #[trigger]
        hooks::key_routed(pre, post, code, down, remote, now_ms, sent, r);
    hooks::routed_keys_keep_the_counts(pre, post, code, down, remote, now_ms, sent, r);
}

proof fn lemma_mouse_hook(pre: InputState, post: InputState, ev: MouseHookEvent, now_ms: u64)
    requires
        after_mouse_hook(pre, post, ev, now_ms),
    ensures
        input::uncounted(pre, post),
{
    let (sent, r) = choose|sent: Seq<Effect>, r: MouseVerdict| #[trigger]
        hooks::mouse_hooked(pre, post, ev, now_ms, sent, r);
    hooks::mouse_events_keep_the_counts(pre, post, ev, now_ms, sent, r);
}

proof fn lemma_hook_motion(pre: InputState, post: InputState, dx: i32, dy: i32, now: Clock)
    requires
        after_hook_motion(pre, post, dx, dy, now),
    ensures
        counted(pre, InputStep::HookMotion { dx, dy, now }, post),
{
    let (mid, sent) = choose|mid: InputState, sent: Seq<Effect>| #[trigger]
        hooks::hook_motion_forwarded(pre, post, dx, dy, now, mid, sent);
    let (lx, ly) = (hooks::limited(dx), hooks::limited(dy));
    hooks::forwarded_motion_keeps_the_counts(
        pre,
        mid,
        hooks::followed(pre, lx, ly),
        lx,
        ly,
        hooks::brought_back(pre, lx, ly),
        now,
        sent,
    );
}

proof fn lemma_local_motion(pre: InputState, post: InputState, x: i32, y: i32, now_ms: u64)
    requires
        after_local_motion(pre, post, x, y, now_ms),
    ensures
        input::uncounted(pre, post),
{
}

proof fn lemma_raw_motion(pre: InputState, post: InputState, dx: i32, dy: i32, now: Clock)
    requires
        after_raw_motion(pre, post, dx, dy, now),
    ensures
        counted(pre, InputStep::RawMotion { dx, dy, now }, post),
{
    let moved = hooks::raw_followed(pre, dx, dy);
    let back = hooks::returns_control(pre, dx, dy);
    let sent = choose|sent: Seq<Effect>| #[trigger]
        hooks::motion_forwarded(pre, post, moved, dx, dy, back, now, sent);
    hooks::forwarded_motion_keeps_the_counts(pre, post, moved, dx, dy, back, now, sent);
}

/// The steps that are left once those of the hooks are set apart.
proof fn lemma_windows_part(pre: InputState, step: InputStep, post: InputState)
    requires
        windows_step(pre, step, post),
        step is QueueMotion || step is ArmMotion || step is FlushMotion || step is FlushDueMotion
            || step is WatchdogRound || step is EnterRemote || step is ExitRemote
            || step is VirtualCursor || step is Position || step is HiddenCursor || step is Threads
            || step is Focus || step is Desktop || step is Raw,
    ensures
        counted(pre, step, post),
{
}

proof fn lemma_windows_step(pre: InputState, step: InputStep, post: InputState)
    requires
        windows_step(pre, step, post),
    ensures
        counted(pre, step, post),
{
    match step {
        InputStep::MouseHook { ev, now_ms } => lemma_mouse_hook(pre, post, ev, now_ms),
        InputStep::HookMotion { dx, dy, now } => lemma_hook_motion(pre, post, dx, dy, now),
        InputStep::KeyHook { ev, cursor_y, now_ms } => lemma_key_hook(
            pre,
            post,
            ev,
            cursor_y,
            now_ms,
        ),
        InputStep::RawKey { scan, vk, extended, down, alt_async, now_ms } => lemma_raw_key(
            pre,
            post,
            scan,
            vk,
            extended,
            down,
            alt_async,
            now_ms,
        ),
        InputStep::AltTabPoll { alt_async, tab_async, now_ms } => lemma_poll(
            pre,
            post,
            hooks::poll_edge(pre.touch, alt_async, tab_async),
            now_ms,
        ),
        InputStep::CaptureWindowKey { key, now_ms } => lemma_window_key(pre, post, key, now_ms),
        InputStep::PhysicalKey { code, down, remote, now_ms } => lemma_physical_key(
            pre,
            post,
            code,
            down,
            remote,
            now_ms,
        ),
        InputStep::LocalMotion { x, y, now_ms } => lemma_local_motion(pre, post, x, y, now_ms),
        InputStep::RawMotion { dx, dy, now } => lemma_raw_motion(pre, post, dx, dy, now),
        _ => lemma_windows_part(pre, step, post),
    }
}

proof fn lemma_chosen_step(pre: InputState, step: InputStep, post: InputState)
    requires
        chosen_step(pre, step, post),
    ensures
        counted(pre, step, post),
{
}

proof fn lemma_peer_step(pre: InputState, step: InputStep, post: InputState)
    requires
        peer_step(pre, step, post),
    ensures
        counted(pre, step, post),
{
}

proof fn lemma_pumped(
    pre: InputState,
    post: InputState,
    before: Pump,
    after: Pump,
    ev: DeviceEvent,
    now_ms: u64,
    sent: Seq<Effect>,
    r: MotionStep,
)
    requires
        linux::pumped(pre, post, before, after, ev, now_ms, sent, r),
    ensures
        input::uncounted(pre, post),
{
    if let DeviceEvent::Key { code, value } = ev {
        linux::keys_keep_the_counts(pre, post, code, value, now_ms, sent);
    }
}

proof fn lemma_other_step(pre: InputState, step: InputStep, post: InputState)
    requires
        other_step(pre, step, post),
    ensures
        counted(pre, step, post),
{
    match step {
        InputStep::LinuxKey { code, value, now_ms } => {
            let sent = choose|sent: Seq<Effect>| #[trigger]
                linux::key_handled(pre, post, code, value, now_ms, sent);
            linux::keys_keep_the_counts(pre, post, code, value, now_ms, sent);
        },
        InputStep::LinuxDevice { before, after, ev, now_ms } => {
            let (sent, r) = choose|sent: Seq<Effect>, r: MotionStep| #[trigger]
                linux::pumped(pre, post, before, after, ev, now_ms, sent, r);
            lemma_pumped(pre, post, before, after, ev, now_ms, sent, r);
        },
        _ => {},
    }
}

/// Each step adds one to each count of motion at most and takes nothing away,
/// and leaves the rate unless it sets it.
pub proof fn a_step_is_counted(pre: InputState, step: InputStep, post: InputState)
    requires
        happens(pre, step, post),
    ensures
        counted(pre, step, post),
{
    if windows_step(pre, step, post) {
        lemma_windows_step(pre, step, post);
    } else if chosen_step(pre, step, post) {
        lemma_chosen_step(pre, step, post);
    } else if peer_step(pre, step, post) {
        lemma_peer_step(pre, step, post);
    } else {
        lemma_other_step(pre, step, post);
    }
}

/// The counts of sent packets and of injected motions never fall: over any row
/// of steps each of them stays or grows, by one for each step at most. The counts
/// hold 64 bits, and no row is so long that they run over.
pub proof fn the_counts_never_fall(
    states: Seq<InputState>,
    steps: Seq<InputStep>,
    i: int,
    j: int,
)
    requires
        is_history(states, steps),
        0 <= i <= j <= steps.len(),
        input::motion_counts(states[i]).0 + (j - i) <= u64::MAX,
        input::motion_counts(states[i]).1 + (j - i) <= u64::MAX,
    ensures
        ({
            let (before, after) = (
                input::motion_counts(states[i]),
                input::motion_counts(states[j]),
            );
            &&& before.0 <= after.0 <= before.0 + (j - i)
            &&& before.1 <= after.1 <= before.1 + (j - i)
        }),
    decreases j - i,
{
    if i < j {
        the_counts_never_fall(states, steps, i, j - 1);
        assert(happens(states[j - 1], steps[j - 1], states[j]));
        a_step_is_counted(states[j - 1], steps[j - 1], states[j]);
    }
}

/// The rate that was set last is shown, moved into its range, whatever happens
/// after it was set.
pub proof fn the_rate_set_last_is_shown(
    states: Seq<InputState>,
    steps: Seq<InputStep>,
    i: int,
    j: int,
    hz: u32,
)
    requires
        is_history(states, steps),
        0 <= i < j <= steps.len(),
        steps[i] == (InputStep::Rate { hz }),
        forall|k: int| i < k < j ==> !(#[trigger] steps[k]).sets_rate(),
    ensures
        input::shown_rate(states[j]) == arith::clamp(
            hz as int,
            MIN_MOUSE_RATE_HZ as int,
            MAX_MOUSE_RATE_HZ as int,
        ),
    decreases j - i,
{
    assert(happens(states[j - 1], steps[j - 1], states[j]));
    if i + 1 < j {
        the_rate_set_last_is_shown(states, steps, i, j - 1, hz);
        a_step_is_counted(states[j - 1], steps[j - 1], states[j]);
    } else {
        input::the_set_rate_is_shown(hz);
    }
}

} // verus!
