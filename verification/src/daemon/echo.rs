//! Keeping the sound that the peer plays here from being sent back to it.

use crate::arith;
use crate::audio::StreamKind;
use crate::daemon::audio_status::AudioToggles;
use vstd::prelude::*;

verus! {

/// How long after the peer's sound nothing is sent that this machine plays.
pub const ECHO_GUARD_MS: u64 = 500;

/// A frame that is shorter holds silence.
pub const ECHO_TRIGGER_MIN_BYTES: usize = 12;

/// When the peer's sound came last, in milliseconds; 0 is never.
#[derive(Debug, Clone, Copy, PartialEq, Eq, Structural)]
pub struct EchoGuard {
    pub last_peer_sysout_ms: u64,
}

/// Whether the guard holds back what this machine plays.
pub open spec fn guards(g: EchoGuard, now_ms: u64) -> bool {
    g.last_peer_sysout_ms != 0 && arith::elapsed(now_ms, g.last_peer_sysout_ms) < ECHO_GUARD_MS
}

/// Whether a captured frame is sent: its stream is switched on, and it is no
/// echo. A microphone is a device of its own, and its frames are none.
pub open spec fn sends(g: EchoGuard, toggles: AudioToggles, stream: StreamKind, now_ms: u64) -> bool {
    toggles.sends(stream) && !(stream == StreamKind::SysOut && guards(g, now_ms))
}

/// The guard after a frame of the peer: only sound that is played by it, and
/// that is no silence, sets it.
pub open spec fn armed(g: EchoGuard, stream: StreamKind, bytes: nat, now_ms: u64) -> EchoGuard {
    if stream == StreamKind::SysOut && bytes >= ECHO_TRIGGER_MIN_BYTES {
        EchoGuard { last_peer_sysout_ms: now_ms }
    } else {
        g
    }
}

impl EchoGuard {
    pub fn new() -> (r: Self)
        ensures
            r.last_peer_sysout_ms == 0,
    {
        EchoGuard { last_peer_sysout_ms: 0 }
    }

    /// Tells whether a captured frame is sent.
    pub fn forwards(&self, toggles: &AudioToggles, stream: StreamKind, now_ms: u64) -> (r: bool)
        ensures
            r == sends(*self, *toggles, stream, now_ms),
    {
        match stream {
            StreamKind::SysOut => toggles.send_sysout && !(self.last_peer_sysout_ms != 0
                && now_ms.saturating_sub(self.last_peer_sysout_ms) < ECHO_GUARD_MS),
            StreamKind::Mic => toggles.send_mic,
        }
    }

    /// Takes note of a frame of the peer.
    pub fn hear(&mut self, stream: StreamKind, bytes: usize, now_ms: u64)
        ensures
            *final(self) == armed(*old(self), stream, bytes as nat, now_ms),
    {
        if stream == StreamKind::SysOut && bytes >= ECHO_TRIGGER_MIN_BYTES {
            self.last_peer_sysout_ms = now_ms;
        }
    }
}

/// A microphone is never held back.
pub proof fn a_microphone_is_not_held_back(g: EchoGuard, toggles: AudioToggles, now_ms: u64)
    ensures
        sends(g, toggles, StreamKind::Mic, now_ms) == toggles.send_mic,
{
}

/// A stream of silence and the peer's microphone hold nothing back.
pub proof fn silence_holds_nothing_back(g: EchoGuard, stream: StreamKind, bytes: nat, now_ms: u64, later_ms: u64)
    requires
        stream == StreamKind::Mic || bytes < ECHO_TRIGGER_MIN_BYTES,
    ensures
        guards(armed(g, stream, bytes, now_ms), later_ms) == guards(g, later_ms),
{
}

/// Sound of the peer holds back what this machine plays, for half a second and
/// no longer. A clock that stands at zero sets nothing.
pub proof fn the_guard_opens_again(g: EchoGuard, bytes: nat, now_ms: u64, later_ms: u64)
    requires
        bytes >= ECHO_TRIGGER_MIN_BYTES,
        now_ms > 0,
        now_ms <= later_ms,
    ensures
        guards(armed(g, StreamKind::SysOut, bytes, now_ms), later_ms) <==> later_ms < now_ms
            + ECHO_GUARD_MS,
{
}

/// The peer's sound is not sent back to it: for half a second after it has come,
/// nothing that this machine plays is sent, and after that it is again. The
/// microphone is sent all the time, and nothing that is switched off.
pub proof fn sound_of_the_peer_is_not_sent_back(
    g: &mut EchoGuard,
    bytes: usize,
    at: (u64, u64),
    toggles: &AudioToggles,
    r: (bool, bool),
)
    requires
        call_ensures(EchoGuard::hear, (g, StreamKind::SysOut, bytes, at.0), ()),
        bytes >= 12,
        0 < at.0 <= at.1,
        call_ensures(EchoGuard::forwards, (&*final(g), toggles, StreamKind::SysOut, at.1), r.0),
        call_ensures(EchoGuard::forwards, (&*final(g), toggles, StreamKind::Mic, at.1), r.1),
    ensures
        at.1 - at.0 < 500 ==> !r.0,
        at.1 - at.0 >= 500 ==> r.0 == toggles.send_sysout,
        r.1 == toggles.send_mic,
{
}

/// Silence and the peer's microphone hold nothing back.
pub proof fn only_sound_that_is_played_holds_back(
    g: &mut EchoGuard,
    stream: StreamKind,
    bytes: usize,
    now_ms: u64,
)
    requires
        call_ensures(EchoGuard::hear, (g, stream, bytes, now_ms), ()),
        stream == StreamKind::Mic || bytes < 12,
    ensures
        *final(g) == *old(g),
{
}

} // verus!
