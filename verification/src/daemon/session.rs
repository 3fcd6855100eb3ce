//! One session with a peer: the control channel, the stream of input and
//! sound, and what both leave behind.

use crate::arith;
use crate::audio::{AudioFrame, StreamKind};
use crate::bytes::{self, part, push_all, push_be, read_be};
use crate::daemon::audio_status::AudioToggles;
use crate::daemon::clipboard::ClipboardEvent;
use crate::daemon::control::ControlMsg;
use crate::daemon::echo::{self, EchoGuard};
use crate::daemon::peers::Endpoint;
use crate::daemon::status::{
    add_audio_recv, add_decrypt_errs, add_inject_errs, add_injected, add_recv_pkts, add_sent_pkts,
    clear_peer_connected, set_peer_connected, RuntimeStatus, Totals,
};
use crate::input::events::{self, dispatch, InputEvent};
use crate::input::{
    self, clear_remote_event_sender, force_local_exit_remote, on_peer_take_control, reset_smart_decision,
    set_game_drive, set_peer_in_remote, set_peer_screen, set_remote_event_sender, Effect, GameDrive, InputState,
    KeyRouting, Link, RemoteEvent,
};
use crate::net::pairing::{self, EncryptedSession, PairingError, TAG_LEN};
use crate::text::{self, encode_hex};
use vstd::prelude::*;
use vstd::string::*;

verus! {

/// What the user allows the daemon to do.
#[derive(Debug, Clone, Copy, PartialEq, Eq, Structural)]
pub struct RunOpts {
    pub capture: bool,
    pub inject: bool,
}

/// The parts that are started. One that fails to start is left out, and the
/// rest goes on.
#[derive(Debug, Clone, Copy, PartialEq, Eq, Structural)]
pub struct StartPlan {
    pub input_capture: bool,
    pub sysout_capture: bool,
    pub mic_capture: bool,
    pub inject: bool,
    pub playback: bool,
    pub virtual_mic: bool,
}

/// Tells which parts to start.
pub fn start_plan(opts: RunOpts) -> (r: StartPlan)
    ensures
        r == (StartPlan {
            input_capture: opts.capture,
            sysout_capture: opts.capture,
            mic_capture: opts.capture,
            inject: opts.inject,
            playback: opts.inject,
            virtual_mic: opts.inject,
        }),
{
    StartPlan {
        input_capture: opts.capture,
        sysout_capture: opts.capture,
        mic_capture: opts.capture,
        inject: opts.inject,
        playback: opts.inject,
        virtual_mic: opts.inject,
    }
}

/// The first message of a session in either direction.
pub struct PortAnnounce {
    /// Where the sender takes input and sound.
    pub udp_port: u16,
    pub daemon_version: String,
    pub screen_w: u32,
    pub screen_h: u32,
}

/// What travels outside the control channel.
pub enum WireFrame {
    Input(InputEvent),
    Audio(AudioFrame),
}

/// Counts of one session. Past the largest number they start again at zero.
#[derive(Debug, Clone, Copy, PartialEq, Eq, Structural)]
pub struct SessionStats {
    pub sent_pkts: u64,
    pub sent_bytes: u64,
    pub recv_pkts: u64,
    pub recv_bytes: u64,
    pub injected: u64,
    pub inject_errs: u64,
    pub decrypt_errs: u64,
    pub audio_recv: u64,
}

/// The difference of two counts; zero where the earlier one is larger.
pub open spec fn gained(now: u64, before: u64) -> u64 {
    if now >= before {
        (now - before) as u64
    } else {
        0
    }
}

impl SessionStats {
    pub fn new() -> (r: Self)
        ensures
            r == (SessionStats {
                sent_pkts: 0,
                sent_bytes: 0,
                recv_pkts: 0,
                recv_bytes: 0,
                injected: 0,
                inject_errs: 0,
                decrypt_errs: 0,
                audio_recv: 0,
            }),
    {
        SessionStats {
            sent_pkts: 0,
            sent_bytes: 0,
            recv_pkts: 0,
            recv_bytes: 0,
            injected: 0,
            inject_errs: 0,
            decrypt_errs: 0,
            audio_recv: 0,
        }
    }

    /// What has happened since an earlier count.
    pub fn delta(&self, prev: &SessionStats) -> (r: SessionStats)
        ensures
            r == (SessionStats {
                sent_pkts: gained(self.sent_pkts, prev.sent_pkts),
                sent_bytes: gained(self.sent_bytes, prev.sent_bytes),
                recv_pkts: gained(self.recv_pkts, prev.recv_pkts),
                recv_bytes: gained(self.recv_bytes, prev.recv_bytes),
                injected: gained(self.injected, prev.injected),
                inject_errs: gained(self.inject_errs, prev.inject_errs),
                decrypt_errs: gained(self.decrypt_errs, prev.decrypt_errs),
                audio_recv: gained(self.audio_recv, prev.audio_recv),
            }),
    {
        SessionStats {
            sent_pkts: self.sent_pkts.saturating_sub(prev.sent_pkts),
            sent_bytes: self.sent_bytes.saturating_sub(prev.sent_bytes),
            recv_pkts: self.recv_pkts.saturating_sub(prev.recv_pkts),
            recv_bytes: self.recv_bytes.saturating_sub(prev.recv_bytes),
            injected: self.injected.saturating_sub(prev.injected),
            inject_errs: self.inject_errs.saturating_sub(prev.inject_errs),
            decrypt_errs: self.decrypt_errs.saturating_sub(prev.decrypt_errs),
            audio_recv: self.audio_recv.saturating_sub(prev.audio_recv),
        }
    }

    /// Whether a line is written for what has happened: packets were sent or
    /// came in.
    pub fn worth_reporting(&self) -> (r: bool)
        ensures
            r == (self.sent_pkts != 0 || self.recv_pkts != 0),
    {
        self.sent_pkts != 0 || self.recv_pkts != 0
    }
}

/// The counts of a session, and of all sessions.
#[derive(Debug, Clone, Copy, PartialEq, Eq, Structural)]
pub struct Counters {
    pub session: SessionStats,
    pub totals: Totals,
}

/// A packet of some length was sent.
pub open spec fn with_sent(c: Counters, len: u64) -> Counters {
    Counters {
        session: SessionStats {
            sent_pkts: c.session.sent_pkts.wrapping_add(1),
            sent_bytes: c.session.sent_bytes.wrapping_add(len),
            ..c.session
        },
        totals: Totals { sent_pkts: c.totals.sent_pkts.wrapping_add(1), ..c.totals },
    }
}

/// A packet of some length came in.
pub open spec fn with_received(c: Counters, len: u64) -> Counters {
    Counters {
        session: SessionStats {
            recv_pkts: c.session.recv_pkts.wrapping_add(1),
            recv_bytes: c.session.recv_bytes.wrapping_add(len),
            ..c.session
        },
        totals: Totals { recv_pkts: c.totals.recv_pkts.wrapping_add(1), ..c.totals },
    }
}

/// A packet could not be decrypted.
pub open spec fn with_refused(c: Counters) -> Counters {
    Counters {
        session: SessionStats {
            decrypt_errs: c.session.decrypt_errs.wrapping_add(1),
            ..c.session
        },
        totals: Totals { decrypt_errs: c.totals.decrypt_errs.wrapping_add(1), ..c.totals },
    }
}

/// An event was injected, or could not be.
pub open spec fn with_injected(c: Counters, worked: bool) -> Counters {
    if worked {
        Counters {
            session: SessionStats { injected: c.session.injected.wrapping_add(1), ..c.session },
            totals: Totals { injected: c.totals.injected.wrapping_add(1), ..c.totals },
        }
    } else {
        Counters {
            session: SessionStats {
                inject_errs: c.session.inject_errs.wrapping_add(1),
                ..c.session
            },
            totals: Totals { inject_errs: c.totals.inject_errs.wrapping_add(1), ..c.totals },
        }
    }
}

/// A frame of sound was taken; one that could not be is not counted.
pub open spec fn with_heard(c: Counters, worked: bool) -> Counters {
    if worked {
        Counters {
            session: SessionStats { audio_recv: c.session.audio_recv.wrapping_add(1), ..c.session },
            totals: Totals { audio_recv: c.totals.audio_recv.wrapping_add(1), ..c.totals },
        }
    } else {
        c
    }
}

/// Takes a packet from the network. One that does not come from the peer is
/// left alone; one that does is counted and decrypted.
pub fn open_datagram(
    counters: &mut Counters,
    aead: &mut EncryptedSession,
    peer: Endpoint,
    source: Endpoint,
    data: &[u8],
) -> (r: Option<Vec<u8>>)
    requires
        old(aead).well_formed(),
    ensures
        final(aead).well_formed(),
        if source != peer {
            r is None && *final(counters) == *old(counters) && *final(aead) == *old(aead)
        } else {
            let counted = with_received(*old(counters), data@.len() as u64);
            &&& final(aead)@ == pairing::after_frame(old(aead)@, data@)
            &&& match r {
                Some(plain) => pairing::received(old(aead)@, data@) == Ok::<
                    Seq<u8>,
                    PairingError,
                >(plain@) && *final(counters) == counted,
                None => pairing::received(old(aead)@, data@) is Err && *final(counters)
                    == with_refused(counted),
            }
        },
{
    if source != peer {
        return None;
    }
    let len: u64 = data.len() as u64;
    counters.session.recv_pkts = counters.session.recv_pkts.wrapping_add(1);
    counters.session.recv_bytes = counters.session.recv_bytes.wrapping_add(len);
    add_recv_pkts(&mut counters.totals, 1);
    match aead.open(data) {
        Ok(plain) => Some(plain),
        Err(_) => {
            counters.session.decrypt_errs = counters.session.decrypt_errs.wrapping_add(1);
            add_decrypt_errs(&mut counters.totals, 1);
            None
        },
    }
}

/// Where a frame of the peer goes.
pub enum Delivery {
    Inject(InputEvent),
    Speakers(AudioFrame),
    VirtualMic(AudioFrame),
    /// The user does not want to hear it.
    Muted,
}

/// Sends a frame of the peer on its way. Sound goes by its stream; what is
/// injected is limited first.
pub fn deliver(guard: &mut EchoGuard, toggles: &AudioToggles, frame: WireFrame, now_ms: u64) -> (r:
    Delivery)
    ensures
        match frame {
            WireFrame::Input(ev) => *final(guard) == *old(guard) && r == Delivery::Inject(
                events::injected_event(ev),
            ),
            WireFrame::Audio(f) => {
                &&& *final(guard) == echo::armed(*old(guard), f.stream, f.opus@.len(), now_ms)
                &&& r == if !toggles.plays(f.stream) {
                    Delivery::Muted
                } else {
                    match f.stream {
                        StreamKind::SysOut => Delivery::Speakers(f),
                        StreamKind::Mic => Delivery::VirtualMic(f),
                    }
                }
            },
        },
{
    match frame {
        WireFrame::Input(ev) => Delivery::Inject(dispatch(ev)),
        WireFrame::Audio(f) => {
            guard.hear(f.stream, f.opus.len(), now_ms);
            match f.stream {
                StreamKind::SysOut => if toggles.play_sysout {
                    Delivery::Speakers(f)
                } else {
                    Delivery::Muted
                },
                StreamKind::Mic => if toggles.play_mic {
                    Delivery::VirtualMic(f)
                } else {
                    Delivery::Muted
                },
            }
        },
    }
}

/// Counts an event that was injected, or could not be.
pub fn count_injected(counters: &mut Counters, worked: bool)
    ensures
        *final(counters) == with_injected(*old(counters), worked),
{
    if worked {
        counters.session.injected = counters.session.injected.wrapping_add(1);
        add_injected(&mut counters.totals, 1);
    } else {
        counters.session.inject_errs = counters.session.inject_errs.wrapping_add(1);
        add_inject_errs(&mut counters.totals, 1);
    }
}

/// Counts a frame of sound that was taken, whether it is heard or not.
pub fn count_heard(counters: &mut Counters, worked: bool)
    ensures
        *final(counters) == with_heard(*old(counters), worked),
{
    if worked {
        counters.session.audio_recv = counters.session.audio_recv.wrapping_add(1);
        add_audio_recv(&mut counters.totals, 1);
    }
}

/// Why a session is over.
#[derive(Debug, Clone, Copy, PartialEq, Eq, Structural)]
pub enum SessionEnd {
    ControlEnded,
    SendFailed,
    BroadcastClosed,
}

/// What the main loop of a session waits for.
pub enum LoopEvent {
    /// The control channel was closed.
    ControlEnded,
    /// A frame for the peer, in bytes; nothing if it could not be put into
    /// bytes.
    Frame(Option<Vec<u8>>),
    /// Frames came faster than they were sent, and some are lost.
    Lagged,
    /// No frames will come any more.
    Closed,
}

/// What the main loop does.
pub enum LoopAction {
    GoOn,
    Send(Vec<u8>),
    End(SessionEnd),
}

/// Decides what to do about an event. A frame that cannot be encrypted is left
/// out.
pub fn on_loop_event(aead: &mut EncryptedSession, event: LoopEvent) -> (r: LoopAction)
    requires
        old(aead).well_formed(),
        event matches LoopEvent::Frame(Some(p)) ==> p@.len() + TAG_LEN <= usize::MAX,
    ensures
        final(aead).well_formed(),
        match event {
            LoopEvent::ControlEnded => *final(aead) == *old(aead) && r == LoopAction::End(
                SessionEnd::ControlEnded,
            ),
            LoopEvent::Closed => *final(aead) == *old(aead) && r == LoopAction::End(
                SessionEnd::BroadcastClosed,
            ),
            LoopEvent::Lagged => *final(aead) == *old(aead) && r == LoopAction::GoOn,
            LoopEvent::Frame(None) => *final(aead) == *old(aead) && r == LoopAction::GoOn,
            LoopEvent::Frame(Some(p)) => {
                &&& final(aead)@ == (pairing::Session {
                    next: old(aead)@.next.wrapping_add(1),
                    ..old(aead)@
                })
                &&& if pairing::sealable(p@.len(), old(aead)@.next) {
                    r matches LoopAction::Send(f) && f@ == pairing::wire(
                        old(aead)@.next,
                        pairing::sealed(old(aead)@.sending_key, old(aead)@.next, p@),
                    )
                } else {
                    r == LoopAction::GoOn
                }
            },
        },
{
    match event {
        LoopEvent::ControlEnded => LoopAction::End(SessionEnd::ControlEnded),
        LoopEvent::Closed => LoopAction::End(SessionEnd::BroadcastClosed),
        LoopEvent::Lagged => LoopAction::GoOn,
        LoopEvent::Frame(None) => LoopAction::GoOn,
        LoopEvent::Frame(Some(p)) => match aead.seal(&p) {
            Ok(f) => LoopAction::Send(f),
            Err(_) => LoopAction::GoOn,
        },
    }
}

/// Takes note of a packet that was sent, or could not be, which ends the
/// session.
pub fn on_sent(counters: &mut Counters, len: usize, worked: bool) -> (r: LoopAction)
    ensures
        if worked {
            r == LoopAction::GoOn && *final(counters) == with_sent(*old(counters), len as u64)
        } else {
            r == LoopAction::End(SessionEnd::SendFailed) && *final(counters) == *old(counters)
        },
{
    if worked {
        counters.session.sent_pkts = counters.session.sent_pkts.wrapping_add(1);
        counters.session.sent_bytes = counters.session.sent_bytes.wrapping_add(len as u64);
        add_sent_pkts(&mut counters.totals, 1);
        LoopAction::GoOn
    } else {
        LoopAction::End(SessionEnd::SendFailed)
    }
}

/// Why a session is over, for the log.
pub open spec fn reason(end: SessionEnd) -> Seq<char> {
    match end {
        SessionEnd::ControlEnded => "TCP control reader ended"@,
        SessionEnd::SendFailed => "UDP send error"@,
        SessionEnd::BroadcastClosed => "broadcast closed"@,
    }
}

pub fn exit_reason(end: SessionEnd) -> (r: String)
    ensures
        r@ == reason(end),
{
    match end {
        SessionEnd::ControlEnded => String::from_str("TCP control reader ended"),
        SessionEnd::SendFailed => String::from_str("UDP send error"),
        SessionEnd::BroadcastClosed => String::from_str("broadcast closed"),
    }
}

/// The message that tells the peer of a transition.
pub open spec fn message_for(ev: RemoteEvent) -> ControlMsg {
    match ev {
        RemoteEvent::Entered => ControlMsg::TakeControl,
        RemoteEvent::Exited => ControlMsg::ReleaseControl,
        RemoteEvent::RequestPeerExit => ControlMsg::ForceRelease,
        RemoteEvent::GameDriveStart => ControlMsg::GameDrive { active: true },
        RemoteEvent::GameDriveStop => ControlMsg::GameDrive { active: false },
    }
}

pub fn control_message(ev: RemoteEvent) -> (r: ControlMsg)
    ensures
        r == message_for(ev),
{
    match ev {
        RemoteEvent::Entered => ControlMsg::TakeControl,
        RemoteEvent::Exited => ControlMsg::ReleaseControl,
        RemoteEvent::RequestPeerExit => ControlMsg::ForceRelease,
        RemoteEvent::GameDriveStart => ControlMsg::GameDrive { active: true },
        RemoteEvent::GameDriveStop => ControlMsg::GameDrive { active: false },
    }
}

/// What is left to do about a message of the control channel.
pub enum ControlAction {
    Nothing,
    ApplyClipboard(ClipboardEvent),
    /// A message about a file.
    File(ControlMsg),
    /// A message to send back.
    Reply(ControlMsg),
    /// The peer answered after that time.
    RoundTrip { ms: u64 },
}

/// The message that tells of what happened to the local clipboard.
pub open spec fn clipboard_message_for(ev: ClipboardEvent) -> ControlMsg {
    match ev {
        ClipboardEvent::Text(t) => ControlMsg::ClipboardText(t),
        ClipboardEvent::ImageStart { id, width, height, total_bytes } =>
            ControlMsg::ClipboardImageStart { id, width, height, total_bytes },
        ClipboardEvent::ImageChunk { id, offset, data } => ControlMsg::ClipboardImageChunk {
            id,
            offset,
            data,
        },
        ClipboardEvent::ImageEnd { id } => ControlMsg::ClipboardImageEnd { id },
    }
}

pub fn clipboard_message(ev: ClipboardEvent) -> (r: ControlMsg)
    ensures
        r == clipboard_message_for(ev),
{
    match ev {
        ClipboardEvent::Text(t) => ControlMsg::ClipboardText(t),
        ClipboardEvent::ImageStart { id, width, height, total_bytes } => {
            ControlMsg::ClipboardImageStart { id, width, height, total_bytes }
        },
        ClipboardEvent::ImageChunk { id, offset, data } => {
            ControlMsg::ClipboardImageChunk { id, offset, data }
        },
        ClipboardEvent::ImageEnd { id } => ControlMsg::ClipboardImageEnd { id },
    }
}

/// How often the peer is asked for an answer.
pub const PING_INTERVAL_MS: u64 = 500;

/// Asks the peer for an answer.
pub fn ping(now_ms: u64) -> (r: ControlMsg)
    ensures
        r == (ControlMsg::Ping { ts_ms: now_ms }),
{
    ControlMsg::Ping { ts_ms: now_ms }
}

/// What is left to do about a message.
pub open spec fn action_for(msg: ControlMsg, now_ms: u64) -> ControlAction {
    match msg {
        ControlMsg::TakeControl | ControlMsg::ReleaseControl | ControlMsg::ForceRelease
        | ControlMsg::GameDrive { .. } => ControlAction::Nothing,
        ControlMsg::ClipboardText(t) => ControlAction::ApplyClipboard(ClipboardEvent::Text(t)),
        ControlMsg::ClipboardImageStart { id, width, height, total_bytes } =>
            ControlAction::ApplyClipboard(
            ClipboardEvent::ImageStart { id, width, height, total_bytes },
        ),
        ControlMsg::ClipboardImageChunk { id, offset, data } => ControlAction::ApplyClipboard(
            ClipboardEvent::ImageChunk { id, offset, data },
        ),
        ControlMsg::ClipboardImageEnd { id } => ControlAction::ApplyClipboard(
            ClipboardEvent::ImageEnd { id },
        ),
        ControlMsg::Ping { ts_ms } => ControlAction::Reply(ControlMsg::Pong { ts_ms }),
        ControlMsg::Pong { ts_ms } => ControlAction::RoundTrip {
            ms: arith::elapsed(now_ms, ts_ms) as u64,
        },
        ControlMsg::FileOffer { .. } | ControlMsg::FileChunk { .. } | ControlMsg::FileEnd { .. }
        | ControlMsg::FileCancel { .. } => ControlAction::File(msg),
    }
}

/// The state once the peer has begun or ceased to drive this machine.
pub open spec fn with_peer_remote(st: InputState, v: bool) -> InputState {
    InputState {
        link: Link { peer_in_remote: v, ..st.link },
        keys: KeyRouting { last_smart_to_peer: st.keys.last_smart_to_peer && !v, ..st.keys },
        ..st
    }
}

/// The state after a message of the control channel.
pub open spec fn after_message(st: InputState, msg: ControlMsg, pushed: bool, cur: (i32, i32)) -> InputState {
    match msg {
        ControlMsg::TakeControl => input::taken_over(with_peer_remote(st, true), pushed, cur),
        ControlMsg::ReleaseControl => with_peer_remote(st, false),
        ControlMsg::ForceRelease => input::forced_local(st),
        ControlMsg::GameDrive { active } => input::with_drive(
            st,
            if active {
                GameDrive::Receiving
            } else {
                GameDrive::Off
            },
        ),
        _ => st,
    }
}

/// The effects of a message of the control channel.
pub open spec fn message_effects(st: InputState, msg: ControlMsg, pushed: bool, cur: (i32, i32)) -> Seq<Effect> {
    match msg {
        ControlMsg::TakeControl => input::taken_over_effects(
            with_peer_remote(st, true),
            pushed,
            cur,
        ),
        ControlMsg::ForceRelease => input::forced_local_effects(st),
        _ => Seq::empty(),
    }
}

/// Takes a message of the control channel. `pushed` and `cur` tell of the
/// cursor, as for [`on_peer_take_control`].
pub fn on_control(
    st: &mut InputState,
    msg: ControlMsg,
    pushed: bool,
    cur: (i32, i32),
    now_ms: u64,
    out: &mut Vec<Effect>,
) -> (r: ControlAction)
    requires
        old(st).well_formed(),
    ensures
        final(st).well_formed(),
        *final(st) == after_message(*old(st), msg, pushed, cur),
        final(out)@ == old(out)@ + message_effects(*old(st), msg, pushed, cur),
        r == action_for(msg, now_ms),
{
    match msg {
        ControlMsg::TakeControl => {
            set_peer_in_remote(st, true);
            on_peer_take_control(st, pushed, cur, out);
            ControlAction::Nothing
        },
        ControlMsg::ReleaseControl => {
            set_peer_in_remote(st, false);
            assert(out@ =~= old(out)@ + Seq::<Effect>::empty());
            ControlAction::Nothing
        },
        ControlMsg::ForceRelease => {
            force_local_exit_remote(st, out);
            ControlAction::Nothing
        },
        ControlMsg::GameDrive { active } => {
            set_game_drive(
                st,
                if active {
                    GameDrive::Receiving
                } else {
                    GameDrive::Off
                },
            );
            assert(out@ =~= old(out)@ + Seq::<Effect>::empty());
            ControlAction::Nothing
        },
        ControlMsg::ClipboardText(t) => {
            assert(out@ =~= old(out)@ + Seq::<Effect>::empty());
            ControlAction::ApplyClipboard(ClipboardEvent::Text(t))
        },
        ControlMsg::ClipboardImageStart { id, width, height, total_bytes } => {
            assert(out@ =~= old(out)@ + Seq::<Effect>::empty());
            ControlAction::ApplyClipboard(
                ClipboardEvent::ImageStart { id, width, height, total_bytes },
            )
        },
        ControlMsg::ClipboardImageChunk { id, offset, data } => {
            assert(out@ =~= old(out)@ + Seq::<Effect>::empty());
            ControlAction::ApplyClipboard(ClipboardEvent::ImageChunk { id, offset, data })
        },
        ControlMsg::ClipboardImageEnd { id } => {
            assert(out@ =~= old(out)@ + Seq::<Effect>::empty());
            ControlAction::ApplyClipboard(ClipboardEvent::ImageEnd { id })
        },
        ControlMsg::Ping { ts_ms } => {
            assert(out@ =~= old(out)@ + Seq::<Effect>::empty());
            ControlAction::Reply(ControlMsg::Pong { ts_ms })
        },
        ControlMsg::Pong { ts_ms } => {
            assert(out@ =~= old(out)@ + Seq::<Effect>::empty());
            ControlAction::RoundTrip { ms: now_ms.saturating_sub(ts_ms) }
        },
        other => {
            assert(out@ =~= old(out)@ + Seq::<Effect>::empty());
            ControlAction::File(other)
        },
    }
}

/// How the beginning of a session changes the state: transitions are reported,
/// and nothing is left of what the last session had found out.
pub open spec fn joined(pre: InputState, post: InputState) -> bool {
    input::forgotten(
        InputState { link: Link { remote_listener: true, ..pre.link }, ..pre },
        post,
    )
}

/// The session begins: the peer is shown, transitions are reported, and the
/// keyboard starts without a memory of the last session.
pub fn begin_session(
    st: &mut InputState,
    status: &mut RuntimeStatus,
    addr: String,
    out: &mut Vec<Effect>,
)
    ensures
        joined(*old(st), *final(st)),
        old(st).well_formed() ==> final(st).well_formed(),
        final(out)@ == old(out)@ + input::forget_effects(*old(st)),
        *final(status) == (RuntimeStatus {
            peer_connected: true,
            peer_addr: Some(addr),
            peer_name: None,
            ..*old(status)
        }),
{
    set_peer_connected(status, addr, None);
    set_remote_event_sender(st);
    reset_smart_decision(st, out);
}

/// Takes the first message of the peer; gives the endpoint to which input and
/// sound are sent.
pub fn on_announce(st: &mut InputState, control: Endpoint, announce: &PortAnnounce) -> (r: Endpoint)
    ensures
        r == (Endpoint { ip: control.ip, port: announce.udp_port }),
        screen_kept(*old(st), *final(st), announce.screen_w, announce.screen_h),
{
    set_peer_screen(st, announce.screen_w, announce.screen_h);
    Endpoint { ip: control.ip, port: announce.udp_port }
}

/// The peer's screen, as far as the platform needs it; nothing is smaller than
/// one pixel.
pub open spec fn screen_kept(before: InputState, after: InputState, w: u32, h: u32) -> bool {
    let w1 = (if w >= 1 {
        w
    } else {
        1
    }) as i32;
    let h1 = (if h >= 1 {
        h
    } else {
        1
    }) as i32;
    match before.platform {
        input::Platform::Windows => after == (InputState {
            win: input::windows::WindowsState { peer_w: w1, peer_h: h1, ..before.win },
            ..before
        }),
        input::Platform::Linux => after == (InputState {
            linux: input::linux::LinuxState { peer_w: w1, ..before.linux },
            ..before
        }),
        input::Platform::Other => after == before,
    }
}

/// The session is over: the peer drives nothing here any more, nobody hears of
/// transitions, and no peer is shown.
pub fn end_session(st: &mut InputState, status: &mut RuntimeStatus)
    ensures
        *final(st) == left(*old(st)),
        *final(status) == (RuntimeStatus {
            peer_connected: false,
            peer_addr: None,
            peer_name: None,
            ..*old(status)
        }),
{
    set_peer_in_remote(st, false);
    clear_remote_event_sender(st);
    clear_peer_connected(status);
}

/// The state once a session is over.
pub open spec fn left(st: InputState) -> InputState {
    InputState { link: Link { peer_in_remote: false, remote_listener: false, ..st.link }, ..st }
}

/// A message of the control channel on the wire: four bytes for its length,
/// and the encrypted message.
pub open spec fn control_frame(cipher: Seq<u8>) -> Seq<u8> {
    bytes::be(cipher.len(), 4) + cipher
}

/// Encrypts a message of the control channel and puts its length in front.
pub fn write_encrypted(aead: &mut EncryptedSession, plain: &[u8]) -> (r: Result<
    Vec<u8>,
    PairingError,
>)
    requires
        old(aead).well_formed(),
        plain@.len() + TAG_LEN <= usize::MAX,
    ensures
        final(aead).well_formed(),
        final(aead)@ == (pairing::Session {
            next: old(aead)@.next.wrapping_add(1),
            ..old(aead)@
        }),
        match r {
            Ok(f) => pairing::sealable(plain@.len(), old(aead)@.next) && f@ == control_frame(
                pairing::wire(
                    old(aead)@.next,
                    pairing::sealed(old(aead)@.sending_key, old(aead)@.next, plain@),
                ),
            ),
            Err(e) => !pairing::sealable(plain@.len(), old(aead)@.next) && e
                == PairingError::Noise,
        },
{
    match aead.seal(plain) {
        Err(e) => Err(e),
        Ok(c) => {
            proof {
                bytes::lemma_be_len(old(aead)@.next as nat, 8);
            }
            let mut f: Vec<u8> = Vec::new();
            push_be(&mut f, c.len() as u128, 4);
            push_all(&mut f, &c);
            assert(f@ =~= control_frame(c@));
            Ok(f)
        },
    }
}

/// The length of the message that follows the four bytes of a head.
pub fn control_len(head: [u8; 4]) -> (r: u32)
    ensures
        r == bytes::value(head@),
{
    let n: u128 = read_be(&head);
    proof {
        bytes::numbers_keep_bytes(head@);
        bytes::lemma_limits();
    }
    n as u32
}

/// Decrypts the message at the front of what came in, and tells how many bytes
/// it took. Nothing while it is not complete.
pub fn read_encrypted(aead: &mut EncryptedSession, input: &[u8]) -> (r: Option<
    (Result<Vec<u8>, PairingError>, usize),
>)
    requires
        old(aead).well_formed(),
    ensures
        final(aead).well_formed(),
        match r {
            None => *final(aead) == *old(aead) && (input@.len() < 4 || input@.len() < 4
                + bytes::value(input@.subrange(0, 4))),
            Some((m, used)) => {
                let len = bytes::value(input@.subrange(0, 4));
                let frame = input@.subrange(4, 4 + len as int);
                &&& input@.len() >= 4 + len
                &&& used == 4 + len
                &&& final(aead)@ == pairing::after_frame(old(aead)@, frame)
                &&& match m {
                    Ok(plain) => pairing::received(old(aead)@, frame) == Ok::<
                        Seq<u8>,
                        PairingError,
                    >(plain@),
                    Err(e) => pairing::received(old(aead)@, frame) == Err::<
                        Seq<u8>,
                        PairingError,
                    >(e),
                }
            },
        },
{
    if input.len() < 4 {
        return None;
    }
    let head: [u8; 4] = [input[0], input[1], input[2], input[3]];
    let len: u32 = control_len(head);
    assert(head@ =~= input@.subrange(0, 4));
    if input.len() - 4 < len as usize {
        return None;
    }
    let end: usize = 4 + len as usize;
    let frame = part(input, 4, end);
    Some((aead.open(&frame), end))
}

/// What one side writes to the control channel the other side reads, whatever
/// follows, if it receives under the key that the first side sends under and
/// the number is fresh.
pub proof fn a_control_message_is_read_back(
    sender: pairing::Session,
    receiver: pairing::Session,
    plain: Seq<u8>,
    cipher: Seq<u8>,
    rest: Seq<u8>,
)
    requires
        sender.sending_key == receiver.receiving_key,
        pairing::sealable(plain.len(), sender.next),
        cipher.len() == plain.len() + TAG_LEN,
        pairing::opened(sender.sending_key, sender.next, cipher) == Some(plain),
        receiver.window.fresh.contains(sender.next),
    ensures
        ({
            let input = control_frame(pairing::wire(sender.next, cipher)) + rest;
            let len = bytes::value(input.subrange(0, 4));
            &&& input.len() >= 4 + len
            &&& pairing::received(receiver, input.subrange(4, 4 + len as int)) == Ok::<
                Seq<u8>,
                PairingError,
            >(plain)
            &&& input.subrange(4 + len as int, input.len() as int) == rest
        }),
{
    let wire = pairing::wire(sender.next, cipher);
    let input = control_frame(wire) + rest;
    bytes::lemma_limits();
    bytes::lemma_be_len(sender.next as nat, 8);
    bytes::bytes_keep_numbers(wire.len(), 4);
    assert(input.subrange(0, 4) =~= bytes::be(wire.len(), 4));
    assert(input.subrange(4, 4 + wire.len() as int) =~= wire);
    assert(input.subrange(4 + wire.len() as int, input.len() as int) =~= rest);
    pairing::a_sealed_message_is_opened(sender, receiver, plain, cipher);
}

/// A machine that hears of every transition of the other knows whether the
/// other drives it.
pub proof fn the_peer_is_told_who_drives(st: InputState, pushed: bool, cur: (i32, i32))
    ensures
        after_message(st, message_for(RemoteEvent::Entered), pushed, cur).link.peer_in_remote,
        !after_message(st, message_for(RemoteEvent::Exited), pushed, cur).link.peer_in_remote,
        after_message(st, message_for(RemoteEvent::GameDriveStart), pushed, cur).link.game_drive
            == GameDrive::Receiving,
        after_message(st, message_for(RemoteEvent::GameDriveStop), pushed, cur).link.game_drive
            == GameDrive::Off,
{
}

/// A session starts with no belief of the last one: that the peer drives this
/// machine, that the keyboard is over there, when the peer was used or which
/// keys it holds, whatever messages came.
pub proof fn a_session_inherits_nothing(st: InputState, post: InputState, now_ms: u64)
    requires
        joined(left(st), post),
    ensures
        !post.link.peer_in_remote,
        !post.keys.last_smart_to_peer,
        post.activity.peer_activity_at == 0,
        post.keys.held() == input::held::Held::nothing(),
        post.link.game_drive != GameDrive::Driving && post.keys.keyboard_target
            == input::KeyboardTarget::Smart ==> !input::keys_to_peer(post, false, now_ms),
{
}

/// The first digits of a key, for the log.
pub fn hex_short(b: &[u8]) -> (r: String)
    ensures
        r@ == text::hex_bytes(
            b@.subrange(
                0,
                if b@.len() < 6 {
                    b@.len() as int
                } else {
                    6
                },
            ),
        ),
{
    let n: usize = if b.len() < 6 {
        b.len()
    } else {
        6
    };
    let head = part(b, 0, n);
    encode_hex(&head)
}

/// What happens to the clipboard of one machine is applied on the other.
pub proof fn a_clipboard_event_arrives(ev: ClipboardEvent, now_ms: u64)
    ensures
        action_for(clipboard_message_for(ev), now_ms) == ControlAction::ApplyClipboard(ev),
{
}

/// The time of a round trip is measured by the clock of the machine that
/// asked: whatever the clock of the other one shows, its answer brings back
/// the time of the question.
pub proof fn a_round_trip_takes_one_clock(asked_ms: u64, their_ms: u64, answered_ms: u64)
    requires
        asked_ms <= answered_ms,
    ensures
        action_for(ControlMsg::Ping { ts_ms: asked_ms }, their_ms) matches ControlAction::Reply(m)
            && action_for(m, answered_ms) == (ControlAction::RoundTrip {
            ms: (answered_ms - asked_ms) as u64,
        }),
{
}

/// What one machine does the other one knows: while the mouse of the first is on
/// the screen of the second, the second counts as driven; a request to let go
/// brings the mouse of the second home; and a game that the first drives is
/// received by the second.
pub proof fn transitions_arrive(
    ev: RemoteEvent,
    msg: ControlMsg,
    st: &mut InputState,
    pushed: bool,
    cur: (i32, i32),
    now_ms: u64,
    out: &mut Vec<Effect>,
    r: ControlAction,
)
    requires
        call_ensures(control_message, (ev,), msg),
        call_ensures(on_control, (st, msg, pushed, cur, now_ms, out), r),
    ensures
        r is Nothing,
        ev == RemoteEvent::Entered ==> final(st).link.peer_in_remote,
        ev == RemoteEvent::Exited ==> !final(st).link.peer_in_remote,
        ev != RemoteEvent::Entered && ev != RemoteEvent::Exited ==> final(st).link.peer_in_remote
            == old(st).link.peer_in_remote,
        ev == RemoteEvent::RequestPeerExit && old(st).platform == input::Platform::Linux ==> final(st).linux.mode == input::CursorMode::Local,
        ev == RemoteEvent::RequestPeerExit && old(st).platform == input::Platform::Windows
            ==> final(st).win.mode == input::CursorMode::Local,
        ev == RemoteEvent::GameDriveStart ==> final(st).link.game_drive == GameDrive::Receiving,
        ev == RemoteEvent::GameDriveStop ==> final(st).link.game_drive == GameDrive::Off,
        ev != RemoteEvent::GameDriveStart && ev != RemoteEvent::GameDriveStop ==> final(st).link.game_drive == old(st).link.game_drive,
        final(st).link.input_locked == old(st).link.input_locked,
        final(st).keys.keyboard_target == old(st).keys.keyboard_target,
        ev == RemoteEvent::Entered ==> !final(st).keys.last_smart_to_peer,
        ev != RemoteEvent::Entered ==> final(st).keys == old(st).keys,
        ev != RemoteEvent::Entered && ev != RemoteEvent::RequestPeerExit ==> final(out)@ == old(out)@,
{
    assert(old(out)@ + Seq::<Effect>::empty() =~= old(out)@);
}

/// What is copied on one machine is applied on the other as it is, and touches no
/// input there.
pub proof fn clipboard_events_arrive(
    ev: ClipboardEvent,
    msg: ControlMsg,
    st: &mut InputState,
    pushed: bool,
    cur: (i32, i32),
    now_ms: u64,
    out: &mut Vec<Effect>,
    r: ControlAction,
)
    requires
        call_ensures(clipboard_message, (ev,), msg),
        call_ensures(on_control, (st, msg, pushed, cur, now_ms, out), r),
    ensures
        r == ControlAction::ApplyClipboard(ev),
        *final(st) == *old(st),
        final(out)@ == old(out)@,
{
    assert(old(out)@ + Seq::<Effect>::empty() =~= old(out)@);
}

/// A question comes back as an answer, and the time that both took together is
/// measured by the clock of the machine that asked.
pub proof fn a_ping_is_answered(
    asked_ms: u64,
    answered_ms: u64,
    their_ms: u64,
    msg: (ControlMsg, ControlMsg),
    st: (&mut InputState, &mut InputState),
    at: (bool, (i32, i32)),
    out: (&mut Vec<Effect>, &mut Vec<Effect>),
    r: ControlAction,
)
    requires
        asked_ms <= answered_ms,
        call_ensures(ping, (asked_ms,), msg.0),
        call_ensures(
            on_control,
            (st.0, msg.0, at.0, at.1, their_ms, out.0),
            ControlAction::Reply(msg.1),
        ),
        call_ensures(on_control, (st.1, msg.1, at.0, at.1, answered_ms, out.1), r),
    ensures
        r matches ControlAction::RoundTrip { ms } && asked_ms + ms == answered_ms,
        *final(st.0) == *old(st.0),
        *final(st.1) == *old(st.1),
{
}

/// Every message about a file is handed to the transfers as it came.
pub proof fn messages_about_files_are_passed_on(
    msg: ControlMsg,
    st: &mut InputState,
    pushed: bool,
    cur: (i32, i32),
    now_ms: u64,
    out: &mut Vec<Effect>,
    r: ControlAction,
)
    requires
        call_ensures(on_control, (st, msg, pushed, cur, now_ms, out), r),
        msg is FileOffer || msg is FileChunk || msg is FileEnd || msg is FileCancel,
    ensures
        r == ControlAction::File(msg),
        *final(st) == *old(st),
{
}

/// Packets from elsewhere are not even looked at. Those of the peer are counted,
/// and those that do not open are counted as such.
pub proof fn only_packets_of_the_peer_count(
    c: &mut Counters,
    aead: &mut EncryptedSession,
    peer: Endpoint,
    source: Endpoint,
    data: &[u8],
    r: Option<Vec<u8>>,
)
    requires
        call_ensures(open_datagram, (c, aead, peer, source, data), r),
        old(c).session.recv_pkts < u64::MAX,
        old(c).session.recv_bytes + data@.len() <= u64::MAX,
        old(c).session.decrypt_errs < u64::MAX,
    ensures
        source != peer ==> r is None && *final(c) == *old(c) && *final(aead) == *old(aead),
        source == peer ==> final(c).session.recv_pkts == old(c).session.recv_pkts + 1 && final(c).session.recv_bytes == old(c).session.recv_bytes + data@.len() && final(c).session.decrypt_errs == old(c).session.decrypt_errs + if r is None {
            1int
        } else {
            0
        },
        final(c).session.sent_pkts == old(c).session.sent_pkts,
{
}

/// What the peer sends goes where it belongs: its input is injected, its sound is
/// played on the speakers and its microphone into the virtual one, as long as the
/// user wants to hear them.
pub proof fn frames_go_where_they_belong(
    guard: &mut EchoGuard,
    toggles: &AudioToggles,
    frame: WireFrame,
    now_ms: u64,
    r: Delivery,
)
    requires
        call_ensures(deliver, (guard, toggles, frame, now_ms), r),
    ensures
        frame matches WireFrame::Audio(f) ==> {
            &&& f.stream == StreamKind::SysOut && toggles.play_sysout ==> r == Delivery::Speakers(f)
            &&& f.stream == StreamKind::Mic && toggles.play_mic ==> r == Delivery::VirtualMic(f)
            &&& f.stream == StreamKind::SysOut && !toggles.play_sysout ==> r is Muted
            &&& f.stream == StreamKind::Mic && !toggles.play_mic ==> r is Muted
        },
        frame is Input ==> r is Inject && *final(guard) == *old(guard),
        frame matches WireFrame::Input(InputEvent::Key { code, down }) ==> r == Delivery::Inject(
            InputEvent::Key { code, down },
        ),
        frame matches WireFrame::Input(InputEvent::MouseMove { dx, dy }) ==> -200 <= dx <= 200
            && -200 <= dy <= 200 ==> r == Delivery::Inject(InputEvent::MouseMove { dx, dy }),
{
}

/// A session ends for three reasons and for no other: the control channel has
/// ended, nothing more is to be sent, or sending has failed.
pub proof fn sessions_end_for_three_reasons(
    aead: &mut EncryptedSession,
    ev: LoopEvent,
    r: LoopAction,
    c: &mut Counters,
    len: usize,
    worked: bool,
    s: LoopAction,
)
    requires
        call_ensures(on_loop_event, (aead, ev), r),
        call_ensures(on_sent, (c, len, worked), s),
        old(c).session.sent_pkts < u64::MAX,
        old(c).session.sent_bytes + len <= u64::MAX,
    ensures
        ev is ControlEnded <==> r == LoopAction::End(SessionEnd::ControlEnded),
        ev is Closed <==> r == LoopAction::End(SessionEnd::BroadcastClosed),
        ev is Lagged || ev == LoopEvent::Frame(None) ==> r is GoOn && *final(aead) == *old(aead),
        !worked ==> s == LoopAction::End(SessionEnd::SendFailed) && *final(c) == *old(c),
        worked ==> s is GoOn && final(c).session.sent_pkts == old(c).session.sent_pkts + 1 && final(c).session.sent_bytes == old(c).session.sent_bytes + len,
{
}

/// What one side writes to the control channel the other side reads, and takes
/// all of it and no more.
pub proof fn the_control_channel_carries_messages(
    a: &mut EncryptedSession,
    b: &mut EncryptedSession,
    plain: &[u8],
    f: Vec<u8>,
    rest: Seq<u8>,
    input: &[u8],
    r: Option<(Result<Vec<u8>, PairingError>, usize)>,
)
    requires
        call_ensures(write_encrypted, (a, plain), Ok::<Vec<u8>, PairingError>(f)),
        input@ == f@ + rest,
        input@.len() <= usize::MAX,
        old(b)@.receiving_key == old(a)@.sending_key,
        old(b)@.window.fresh.contains(old(a)@.next),
        pairing::sealed(old(a)@.sending_key, old(a)@.next, plain@).len() == plain@.len() + TAG_LEN,
        pairing::opened(
            old(a)@.sending_key,
            old(a)@.next,
            pairing::sealed(old(a)@.sending_key, old(a)@.next, plain@),
        ) == Some(plain@),
        call_ensures(read_encrypted, (b, input), r),
    ensures
        r matches Some((m, used)) && used == f@.len() && (m matches Ok(p) && p@ == plain@),
{
    let cipher = pairing::sealed(old(a)@.sending_key, old(a)@.next, plain@);
    a_control_message_is_read_back(old(a)@, old(b)@, plain@, cipher, rest);
    let wire = pairing::wire(old(a)@.next, cipher);
    bytes::lemma_limits();
    bytes::lemma_be_len(old(a)@.next as nat, 8);
    bytes::lemma_be_len(wire.len(), 4);
    bytes::bytes_keep_numbers(wire.len(), 4);
    assert(input@.subrange(0, 4) =~= bytes::be(wire.len(), 4));
}

/// A session shows its peer from its beginning to its end, tells transitions while
/// it lasts, and leaves nothing of the peer behind.
pub proof fn a_session_begins_and_ends(
    st: (&mut InputState, &mut InputState),
    status: (&mut RuntimeStatus, &mut RuntimeStatus),
    addr: String,
    out: &mut Vec<Effect>,
)
    requires
        call_ensures(begin_session, (st.0, status.0, addr, out), ()),
        *old(st.1) == *final(st.0),
        *old(status.1) == *final(status.0),
        call_ensures(end_session, (st.1, status.1), ()),
    ensures
        final(status.0).peer_connected,
        final(status.0).peer_addr == Some(addr),
        final(st.0).link.remote_listener,
        !final(st.0).keys.last_smart_to_peer,
        final(st.0).activity.peer_activity_at == 0,
        final(st.0).activity.local_mouse_at == old(st.0).activity.local_mouse_at,
        final(st.0).keys.keyboard_target == old(st.0).keys.keyboard_target,
        !final(status.1).peer_connected,
        final(status.1).peer_addr is None,
        !final(st.1).link.remote_listener,
        !final(st.1).link.peer_in_remote,
        final(st.1).link.input_locked == old(st.0).link.input_locked,
{
}

/// The peer's input and sound go to the port that it has told, at the address
/// that it is connected from, and its screen is as large as it says.
pub proof fn packets_go_to_the_announced_port(
    st: &mut InputState,
    control: Endpoint,
    announce: &PortAnnounce,
    r: Endpoint,
)
    requires
        call_ensures(on_announce, (st, control, announce), r),
    ensures
        r.ip == control.ip,
        r.port == announce.udp_port,
        final(st).link == old(st).link,
        1 <= announce.screen_w <= i32::MAX && 1 <= announce.screen_h <= i32::MAX ==> {
            &&& old(st).platform == input::Platform::Windows ==> final(st).win.peer_w
                == announce.screen_w && final(st).win.peer_h == announce.screen_h
            &&& old(st).platform == input::Platform::Linux ==> final(st).linux.peer_w
                == announce.screen_w
        },
{
}

/// What is captured and what is played and injected is each switched as a whole.
pub proof fn the_daemon_does_what_it_is_allowed_to(opts: RunOpts, r: StartPlan)
    requires
        call_ensures(start_plan, (opts,), r),
    ensures
        opts.capture ==> r.input_capture && r.sysout_capture && r.mic_capture,
        !opts.capture ==> !r.input_capture && !r.sysout_capture && !r.mic_capture,
        opts.inject ==> r.inject && r.playback && r.virtual_mic,
        !opts.inject ==> !r.inject && !r.playback && !r.virtual_mic,
{
}

/// What has happened since an earlier count, added to it, is the later count.
pub proof fn differences_add_up(now: &SessionStats, before: &SessionStats, r: SessionStats)
    requires
        call_ensures(SessionStats::delta, (now, before), r),
        before.sent_pkts <= now.sent_pkts && before.sent_bytes <= now.sent_bytes,
        before.recv_pkts <= now.recv_pkts && before.recv_bytes <= now.recv_bytes,
        before.injected <= now.injected && before.inject_errs <= now.inject_errs,
        before.decrypt_errs <= now.decrypt_errs && before.audio_recv <= now.audio_recv,
    ensures
        before.sent_pkts + r.sent_pkts == now.sent_pkts,
        before.sent_bytes + r.sent_bytes == now.sent_bytes,
        before.recv_pkts + r.recv_pkts == now.recv_pkts,
        before.recv_bytes + r.recv_bytes == now.recv_bytes,
        before.injected + r.injected == now.injected,
        before.inject_errs + r.inject_errs == now.inject_errs,
        before.decrypt_errs + r.decrypt_errs == now.decrypt_errs,
        before.audio_recv + r.audio_recv == now.audio_recv,
{
}

/// Each event that is injected, or cannot be, is counted once, for the session and
/// for all sessions; a frame of sound is counted where it could be played.
pub proof fn what_comes_in_is_counted(
    c: (&mut Counters, &mut Counters),
    worked: bool,
)
    requires
        call_ensures(count_injected, (c.0, worked), ()),
        call_ensures(count_heard, (c.1, worked), ()),
        old(c.0).session.injected < u64::MAX && old(c.0).session.inject_errs < u64::MAX,
        old(c.0).totals.injected < u64::MAX && old(c.0).totals.inject_errs < u64::MAX,
        old(c.1).session.audio_recv < u64::MAX && old(c.1).totals.audio_recv < u64::MAX,
    ensures
        ({
            let (i, e) = if worked {
                (1int, 0int)
            } else {
                (0, 1)
            };
            &&& final(c.0).session.injected == old(c.0).session.injected + i
            &&& final(c.0).session.inject_errs == old(c.0).session.inject_errs + e
            &&& final(c.0).totals.injected == old(c.0).totals.injected + i
            &&& final(c.0).totals.inject_errs == old(c.0).totals.inject_errs + e
            &&& final(c.0).session.recv_pkts == old(c.0).session.recv_pkts
            &&& final(c.1).session.audio_recv == old(c.1).session.audio_recv + i
            &&& final(c.1).totals.audio_recv == old(c.1).totals.audio_recv + i
            &&& final(c.1).session.injected == old(c.1).session.injected
        }),
{
}

} // verus!
