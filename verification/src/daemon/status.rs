//! What the user interface shows of the running daemon.

use crate::input::{is_input_locked, local_in_remote, peer_in_remote, InputState};
use crate::input;
use crate::text::{self, copy_optional};
use vstd::prelude::*;
use vstd::string::*;

verus! {

/// Totals over all sessions. Past the largest number they start again at zero.
#[derive(Debug, Clone, Copy, PartialEq, Eq, Structural)]
pub struct Totals {
    pub sent_pkts: u64,
    pub recv_pkts: u64,
    pub injected: u64,
    pub audio_recv: u64,
    pub inject_errs: u64,
    pub decrypt_errs: u64,
}

/// What is kept for the user interface.
pub struct RuntimeStatus {
    pub peer_connected: bool,
    pub peer_addr: Option<String>,
    pub peer_name: Option<String>,
    pub totals: Totals,
}

/// A copy for the user interface.
pub struct StatusSnapshot {
    pub peer_connected: bool,
    pub peer_addr: Option<String>,
    pub peer_name: Option<String>,
    pub sent_pkts: u64,
    pub recv_pkts: u64,
    pub injected: u64,
    pub audio_recv: u64,
    pub inject_errs: u64,
    pub decrypt_errs: u64,
    /// Whether the local mouse drives the peer.
    pub local_in_remote: bool,
    /// Whether the peer drives this machine.
    pub peer_in_remote: bool,
    /// Whether the input is pinned to this machine.
    pub input_locked: bool,
}

impl RuntimeStatus {
    pub fn new() -> (r: Self)
        ensures
            r == (RuntimeStatus {
                peer_connected: false,
                peer_addr: None,
                peer_name: None,
                totals: Totals {
                    sent_pkts: 0,
                    recv_pkts: 0,
                    injected: 0,
                    audio_recv: 0,
                    inject_errs: 0,
                    decrypt_errs: 0,
                },
            }),
    {
        RuntimeStatus {
            peer_connected: false,
            peer_addr: None,
            peer_name: None,
            totals: Totals {
                sent_pkts: 0,
                recv_pkts: 0,
                injected: 0,
                audio_recv: 0,
                inject_errs: 0,
                decrypt_errs: 0,
            },
        }
    }
}

/// Takes a copy.
pub fn snapshot(st: &RuntimeStatus, input: &InputState) -> (r: StatusSnapshot)
    ensures
        r.peer_connected == st.peer_connected,
        text::optional(r.peer_addr) == text::optional(st.peer_addr),
        text::optional(r.peer_name) == text::optional(st.peer_name),
        r.sent_pkts == st.totals.sent_pkts,
        r.recv_pkts == st.totals.recv_pkts,
        r.injected == st.totals.injected,
        r.audio_recv == st.totals.audio_recv,
        r.inject_errs == st.totals.inject_errs,
        r.decrypt_errs == st.totals.decrypt_errs,
        r.local_in_remote == input::in_remote(*input),
        r.peer_in_remote == input.link.peer_in_remote,
        r.input_locked == input.link.input_locked,
{
    StatusSnapshot {
        peer_connected: st.peer_connected,
        peer_addr: copy_optional(&st.peer_addr),
        peer_name: copy_optional(&st.peer_name),
        sent_pkts: st.totals.sent_pkts,
        recv_pkts: st.totals.recv_pkts,
        injected: st.totals.injected,
        audio_recv: st.totals.audio_recv,
        inject_errs: st.totals.inject_errs,
        decrypt_errs: st.totals.decrypt_errs,
        local_in_remote: local_in_remote(input),
        peer_in_remote: peer_in_remote(input),
        input_locked: is_input_locked(input),
    }
}

/// A session with a peer has begun.
pub fn set_peer_connected(st: &mut RuntimeStatus, addr: String, name: Option<String>)
    ensures
        *final(st) == (RuntimeStatus {
            peer_connected: true,
            peer_addr: Some(addr),
            peer_name: name,
            ..*old(st)
        }),
{
    st.peer_addr = Some(addr);
    st.peer_name = name;
    st.peer_connected = true;
}

/// The session is over; the totals stay.
pub fn clear_peer_connected(st: &mut RuntimeStatus)
    ensures
        *final(st) == (RuntimeStatus {
            peer_connected: false,
            peer_addr: None,
            peer_name: None,
            ..*old(st)
        }),
{
    st.peer_connected = false;
    st.peer_addr = None;
    st.peer_name = None;
}

pub fn add_sent_pkts(t: &mut Totals, n: u64)
    ensures
        *final(t) == (Totals { sent_pkts: old(t).sent_pkts.wrapping_add(n), ..*old(t) }),
{
    t.sent_pkts = t.sent_pkts.wrapping_add(n);
}

pub fn add_recv_pkts(t: &mut Totals, n: u64)
    ensures
        *final(t) == (Totals { recv_pkts: old(t).recv_pkts.wrapping_add(n), ..*old(t) }),
{
    t.recv_pkts = t.recv_pkts.wrapping_add(n);
}

pub fn add_injected(t: &mut Totals, n: u64)
    ensures
        *final(t) == (Totals { injected: old(t).injected.wrapping_add(n), ..*old(t) }),
{
    t.injected = t.injected.wrapping_add(n);
}

pub fn add_audio_recv(t: &mut Totals, n: u64)
    ensures
        *final(t) == (Totals { audio_recv: old(t).audio_recv.wrapping_add(n), ..*old(t) }),
{
    t.audio_recv = t.audio_recv.wrapping_add(n);
}

pub fn add_inject_errs(t: &mut Totals, n: u64)
    ensures
        *final(t) == (Totals { inject_errs: old(t).inject_errs.wrapping_add(n), ..*old(t) }),
{
    t.inject_errs = t.inject_errs.wrapping_add(n);
}

pub fn add_decrypt_errs(t: &mut Totals, n: u64)
    ensures
        *final(t) == (Totals { decrypt_errs: old(t).decrypt_errs.wrapping_add(n), ..*old(t) }),
{
    t.decrypt_errs = t.decrypt_errs.wrapping_add(n);
}

/// What heads the menu in the tray: the peer by its name, else by its address.
pub open spec fn header(connected: bool, addr: Option<Seq<char>>, name: Option<Seq<char>>) -> Seq<char> {
    if !connected {
        "no peer"@
    } else {
        match name {
            Some(n) => "paired with "@ + n,
            None => match addr {
                Some(a) => "paired with "@ + a,
                None => "paired"@,
            },
        }
    }
}

pub fn tray_header(s: &StatusSnapshot) -> (r: String)
    ensures
        r@ == header(s.peer_connected, text::optional(s.peer_addr), text::optional(s.peer_name)),
{
    if !s.peer_connected {
        String::from_str("no peer")
    } else {
        match &s.peer_name {
            Some(n) => String::from_str("paired with ").concat(n.as_str()),
            None => match &s.peer_addr {
                Some(a) => String::from_str("paired with ").concat(a.as_str()),
                None => String::from_str("paired"),
            },
        }
    }
}

/// The head of the menu names the peer while there is one: by its name where it is
/// known, else by its address.
pub proof fn the_menu_names_the_peer(s: &StatusSnapshot, r: String)
    requires
        call_ensures(tray_header, (s,), r),
    ensures
        !s.peer_connected ==> r@ == "no peer"@,
        s.peer_connected && s.peer_name is Some ==> r@ == "paired with "@ + s.peer_name->0@,
        s.peer_connected && s.peer_name is None && s.peer_addr is Some ==> r@ == "paired with "@
            + s.peer_addr->0@,
        s.peer_connected && s.peer_name is None && s.peer_addr is None ==> r@ == "paired"@,
{
}

} // verus!
