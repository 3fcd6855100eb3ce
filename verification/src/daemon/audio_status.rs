//! Which streams of sound are sent and played.

use crate::audio::StreamKind;
use vstd::prelude::*;
use vstd::string::*;

verus! {

/// What plays the peer's microphone on this machine.
#[derive(Debug, Clone, Copy, PartialEq, Eq, Structural)]
pub enum VirtualMicBackend {
    Pipewire,
    VbCable,
    Unavailable,
}

/// What the user has switched on.
#[derive(Debug, Clone, Copy, PartialEq, Eq, Structural)]
pub struct AudioToggles {
    pub send_sysout: bool,
    pub play_sysout: bool,
    pub send_mic: bool,
    pub play_mic: bool,
    pub virtual_mic: VirtualMicBackend,
}

/// The same for the user interface.
pub struct AudioStatus {
    pub send_sysout: bool,
    pub play_sysout: bool,
    pub send_mic: bool,
    pub play_mic: bool,
    pub virtual_mic: VirtualMicBackend,
    pub os: String,
}

impl AudioToggles {
    /// Everything is on, and no virtual microphone has been found.
    pub fn new() -> (r: Self)
        ensures
            r == (AudioToggles {
                send_sysout: true,
                play_sysout: true,
                send_mic: true,
                play_mic: true,
                virtual_mic: VirtualMicBackend::Unavailable,
            }),
    {
        AudioToggles {
            send_sysout: true,
            play_sysout: true,
            send_mic: true,
            play_mic: true,
            virtual_mic: VirtualMicBackend::Unavailable,
        }
    }

    /// Whether captured frames of a stream are sent.
    pub open spec fn sends(self, stream: StreamKind) -> bool {
        match stream {
            StreamKind::SysOut => self.send_sysout,
            StreamKind::Mic => self.send_mic,
        }
    }

    /// Whether the peer's frames of a stream are played.
    pub open spec fn plays(self, stream: StreamKind) -> bool {
        match stream {
            StreamKind::SysOut => self.play_sysout,
            StreamKind::Mic => self.play_mic,
        }
    }
}

pub fn set_virtual_mic_backend(st: &mut AudioToggles, b: VirtualMicBackend)
    ensures
        *final(st) == (AudioToggles { virtual_mic: b, ..*old(st) }),
{
    st.virtual_mic = b;
}

pub fn set_send_sysout(st: &mut AudioToggles, v: bool)
    ensures
        *final(st) == (AudioToggles { send_sysout: v, ..*old(st) }),
{
    st.send_sysout = v;
}

pub fn set_play_sysout(st: &mut AudioToggles, v: bool)
    ensures
        *final(st) == (AudioToggles { play_sysout: v, ..*old(st) }),
{
    st.play_sysout = v;
}

pub fn set_send_mic(st: &mut AudioToggles, v: bool)
    ensures
        *final(st) == (AudioToggles { send_mic: v, ..*old(st) }),
{
    st.send_mic = v;
}

pub fn set_play_mic(st: &mut AudioToggles, v: bool)
    ensures
        *final(st) == (AudioToggles { play_mic: v, ..*old(st) }),
{
    st.play_mic = v;
}

/// The switches, and the name of the operating system.
pub fn snapshot(st: &AudioToggles, os: &str) -> (r: AudioStatus)
    ensures
        r.send_sysout == st.send_sysout,
        r.play_sysout == st.play_sysout,
        r.send_mic == st.send_mic,
        r.play_mic == st.play_mic,
        r.virtual_mic == st.virtual_mic,
        r.os@ == os@,
{
    AudioStatus {
        send_sysout: st.send_sysout,
        play_sysout: st.play_sysout,
        send_mic: st.send_mic,
        play_mic: st.play_mic,
        virtual_mic: st.virtual_mic,
        os: String::from_str(os),
    }
}

} // verus!
