//! Which machine's hardware is the source of input.
//!
//! Each machine runs one [`SourceFsm`]. It claims the role when its own
//! hardware is used, and takes a claim of the peer while it does not hold the
//! role itself.

use crate::device::DeviceId;
use vstd::prelude::*;

verus! {

#[derive(Debug, Clone, Copy, PartialEq, Eq, Structural)]
pub enum SourceState {
    Idle,
    LocalSource,
    RemoteSource(DeviceId),
}

#[derive(Debug, Clone, Copy, PartialEq, Eq, Structural)]
pub enum SourceInput {
    LocalHwEvent,
    PeerClaim { device: DeviceId, ts_ns: u64 },
    PeerRelease { device: DeviceId },
    PeerDisconnect { device: DeviceId },
    Tick,
}

/// What the other machines are told.
#[derive(Debug, Clone, Copy, PartialEq, Eq, Structural)]
pub enum SourceAction {
    Silent,
    BroadcastClaim { ts_ns: u64 },
    BroadcastRelease,
}

/// A role changes hands only after the holder was quiet for longer than this.
pub const HYSTERESIS_NS: u64 = 200_000_000;

/// The role is given up after being unused for longer than this.
pub const INACTIVITY_NS: u64 = 2_000_000_000;

/// The role of one machine. Times are nanoseconds of a clock that never goes
/// back.
#[derive(Debug, Clone, Copy, PartialEq, Eq)]
pub struct SourceFsm {
    pub local_id: DeviceId,
    state: SourceState,
    last_local_event_at: Option<u64>,
    last_remote_event_at: Option<u64>,
}

/// What a [`SourceFsm`] stands for.
pub struct Role {
    pub local_id: DeviceId,
    pub state: SourceState,
    pub local_at: Option<u64>,
    pub remote_at: Option<u64>,
}

impl View for SourceFsm {
    type V = Role;

    closed spec fn view(&self) -> Role {
        Role {
            local_id: self.local_id,
            state: self.state,
            local_at: self.last_local_event_at,
            remote_at: self.last_remote_event_at,
        }
    }
}

/// Whether more than `limit` has passed since an event; one that never was is
/// long ago.
pub open spec fn quiet(at: Option<u64>, now_ns: u64, limit: u64) -> bool {
    match at {
        Some(t) => now_ns - t > limit,
        None => true,
    }
}

/// Whether the claim of a peer beats the local one: the earlier wins, and of
/// two at the same time that of the smaller identity.
pub open spec fn beats(peer_ts: u64, peer: DeviceId, local_ts: u64, local: DeviceId) -> bool {
    peer_ts < local_ts || (peer_ts == local_ts && peer.0 < local.0)
}

/// The role after an input, and what is told of it.
pub open spec fn stepped(
    pre: Role,
    input: SourceInput,
    now_ns: u64,
    ts_ns: u64,
) -> (Role, SourceAction) {
    match input {
        SourceInput::LocalHwEvent => {
            let noted = Role { local_at: Some(now_ns), ..pre };
            let claims = match pre.state {
                SourceState::LocalSource => false,
                SourceState::Idle => true,
                SourceState::RemoteSource(_) => quiet(pre.remote_at, now_ns, HYSTERESIS_NS),
            };
            if claims {
                (
                    Role { state: SourceState::LocalSource, ..noted },
                    SourceAction::BroadcastClaim { ts_ns },
                )
            } else {
                (noted, SourceAction::Silent)
            }
        },
        SourceInput::PeerClaim { device, ts_ns: peer_ts } => {
            let noted = Role { remote_at: Some(now_ns), ..pre };
            let taken = Role { state: SourceState::RemoteSource(device), ..noted };
            if pre.state != SourceState::LocalSource {
                (taken, SourceAction::Silent)
            } else if beats(peer_ts, device, ts_ns, pre.local_id) && quiet(
                pre.local_at,
                now_ns,
                HYSTERESIS_NS,
            ) {
                (taken, SourceAction::BroadcastRelease)
            } else {
                (noted, SourceAction::Silent)
            }
        },
        SourceInput::PeerRelease { device } => (left(pre, device), SourceAction::Silent),
        SourceInput::PeerDisconnect { device } => (left(pre, device), SourceAction::Silent),
        SourceInput::Tick => if pre.state == SourceState::LocalSource && quiet(
            pre.local_at,
            now_ns,
            INACTIVITY_NS,
        ) {
            (Role { state: SourceState::Idle, ..pre }, SourceAction::BroadcastRelease)
        } else {
            (pre, SourceAction::Silent)
        },
    }
}

/// The role after a peer let go of it.
pub open spec fn left(pre: Role, device: DeviceId) -> Role {
    if pre.state == SourceState::RemoteSource(device) {
        Role { state: SourceState::Idle, ..pre }
    } else {
        pre
    }
}

fn has_been_quiet(at: Option<u64>, now_ns: u64, limit: u64) -> (r: bool)
    ensures
        r == quiet(at, now_ns, limit),
{
    match at {
        Some(t) => now_ns.saturating_sub(t) > limit,
        None => true,
    }
}

fn hash_id(id: &DeviceId) -> (r: u128)
    ensures
        r == id.0,
{
    id.0
}

impl SourceFsm {
    pub fn new(local_id: DeviceId) -> (r: Self)
        ensures
            r@ == (Role { local_id, state: SourceState::Idle, local_at: None, remote_at: None }),
    {
        SourceFsm {
            local_id,
            state: SourceState::Idle,
            last_local_event_at: None,
            last_remote_event_at: None,
        }
    }

    pub fn state(&self) -> (r: SourceState)
        ensures
            r == self@.state,
    {
        self.state
    }

    /// Takes one input at the time `now_ns`; `ts_ns` is the time stamp of the
    /// local claim.
    pub fn step(&mut self, input: SourceInput, now_ns: u64, ts_ns: u64) -> (action: SourceAction)
        ensures
            (final(self)@, action) == stepped(old(self)@, input, now_ns, ts_ns),
    {
        match input {
            SourceInput::LocalHwEvent => {
                self.last_local_event_at = Some(now_ns);
                match self.state {
                    SourceState::LocalSource => SourceAction::Silent,
                    SourceState::Idle => {
                        self.state = SourceState::LocalSource;
                        SourceAction::BroadcastClaim { ts_ns }
                    },
                    SourceState::RemoteSource(_) => {
                        if has_been_quiet(self.last_remote_event_at, now_ns, HYSTERESIS_NS) {
                            self.state = SourceState::LocalSource;
                            SourceAction::BroadcastClaim { ts_ns }
                        } else {
                            SourceAction::Silent
                        }
                    },
                }
            },
            SourceInput::PeerClaim { device, ts_ns: peer_ts } => {
                self.last_remote_event_at = Some(now_ns);
                match self.state {
                    SourceState::LocalSource => {
                        let peer_wins = peer_ts < ts_ns || (peer_ts == ts_ns && hash_id(&device)
                            < hash_id(&self.local_id));
                        if peer_wins && has_been_quiet(
                            self.last_local_event_at,
                            now_ns,
                            HYSTERESIS_NS,
                        ) {
                            self.state = SourceState::RemoteSource(device);
                            SourceAction::BroadcastRelease
                        } else {
                            SourceAction::Silent
                        }
                    },
                    _ => {
                        self.state = SourceState::RemoteSource(device);
                        SourceAction::Silent
                    },
                }
            },
            SourceInput::PeerRelease { device } => {
                self.peer_left(device);
                SourceAction::Silent
            },
            SourceInput::PeerDisconnect { device } => {
                self.peer_left(device);
                SourceAction::Silent
            },
            SourceInput::Tick => {
                if let SourceState::LocalSource = self.state {
                    if has_been_quiet(self.last_local_event_at, now_ns, INACTIVITY_NS) {
                        self.state = SourceState::Idle;
                        return SourceAction::BroadcastRelease;
                    }
                }
                SourceAction::Silent
            },
        }
    }

    fn peer_left(&mut self, device: DeviceId)
        ensures
            final(self)@ == left(old(self)@, device),
    {
        if let SourceState::RemoteSource(d) = self.state {
            if d == device {
                self.state = SourceState::Idle;
            }
        }
    }
}

/// Of two machines whose claims meet, exactly one beats the other.
pub proof fn exactly_one_claim_wins(a_ts: u64, a: DeviceId, b_ts: u64, b: DeviceId)
    requires
        a != b,
    ensures
        beats(a_ts, a, b_ts, b) != beats(b_ts, b, a_ts, a),
{
}

/// The other machines hear of every change of the local role, and of nothing
/// else: a claim when it is taken, a release when it is given up.
pub proof fn every_change_of_role_is_told(
    pre: Role,
    input: SourceInput,
    now_ns: u64,
    ts_ns: u64,
)
    ensures
        ({
            let (post, action) = stepped(pre, input, now_ns, ts_ns);
            let held = pre.state == SourceState::LocalSource;
            let holds = post.state == SourceState::LocalSource;
            &&& (!held && holds) == (action is BroadcastClaim)
            &&& (held && !holds) == (action is BroadcastRelease)
        }),
{
}

/// Only local hardware brings the role here.
pub proof fn only_hardware_claims(
    pre: Role,
    input: SourceInput,
    now_ns: u64,
    ts_ns: u64,
)
    requires
        pre.state != SourceState::LocalSource,
        stepped(pre, input, now_ns, ts_ns).0.state == SourceState::LocalSource,
    ensures
        input == SourceInput::LocalHwEvent,
{
}

/// A role that was used within the hysteresis is not lost to a claim, and one
/// that the peer used within it is not taken from the peer.
pub proof fn roles_do_not_flap(
    pre: Role,
    device: DeviceId,
    peer_ts: u64,
    now_ns: u64,
    ts_ns: u64,
)
    ensures
        pre.state == SourceState::LocalSource && !quiet(pre.local_at, now_ns, HYSTERESIS_NS)
            ==> stepped(
            pre,
            SourceInput::PeerClaim { device, ts_ns: peer_ts },
            now_ns,
            ts_ns,
        ).0.state == SourceState::LocalSource,
        pre.state is RemoteSource && !quiet(pre.remote_at, now_ns, HYSTERESIS_NS) ==> stepped(
            pre,
            SourceInput::LocalHwEvent,
            now_ns,
            ts_ns,
        ).0.state == pre.state,
{
}

/// Using the hardware of a machine brings the role there, unless the peer that
/// holds it was used within the last two tenths of a second.
pub proof fn used_hardware_takes_the_role(
    f: &mut SourceFsm,
    now_ns: u64,
    ts_ns: u64,
    action: SourceAction,
)
    requires
        call_ensures(SourceFsm::step, (f, SourceInput::LocalHwEvent, now_ns, ts_ns), action),
    ensures
        old(f)@.state == SourceState::Idle ==> final(f)@.state == SourceState::LocalSource
            && action == (SourceAction::BroadcastClaim { ts_ns }),
        old(f)@.state == SourceState::LocalSource ==> final(f)@.state == SourceState::LocalSource
            && action == SourceAction::Silent,
        old(f)@.state is RemoteSource ==> (final(f)@.state == SourceState::LocalSource <==> (
        old(f)@.remote_at is None || now_ns - old(f)@.remote_at->0 > 200_000_000)),
        final(f)@.state == SourceState::LocalSource || final(f)@.state == old(f)@.state,
        final(f)@.local_at == Some(now_ns),
{
}

/// A claim of a peer is taken where the role is not held here. Where it is, the
/// claim takes it only if it is the earlier one and this machine was not used for
/// two tenths of a second, and the others then hear that it is given up.
pub proof fn a_claim_is_taken_where_the_role_is_free(
    f: &mut SourceFsm,
    device: DeviceId,
    peer_ts: u64,
    now_ns: u64,
    ts_ns: u64,
    action: SourceAction,
)
    requires
        call_ensures(
            SourceFsm::step,
            (f, SourceInput::PeerClaim { device, ts_ns: peer_ts }, now_ns, ts_ns),
            action,
        ),
    ensures
        old(f)@.state != SourceState::LocalSource ==> final(f)@.state == SourceState::RemoteSource(
            device,
        ) && action == SourceAction::Silent,
        old(f)@.state == SourceState::LocalSource && peer_ts > ts_ns ==> final(f)@.state
            == SourceState::LocalSource,
        old(f)@.state == SourceState::LocalSource && old(f)@.local_at is Some && now_ns
            - old(f)@.local_at->0 <= 200_000_000 ==> final(f)@.state == SourceState::LocalSource,
        old(f)@.state == SourceState::LocalSource && peer_ts < ts_ns && (old(f)@.local_at is None
            || now_ns - old(f)@.local_at->0 > 200_000_000) ==> final(f)@.state
            == SourceState::RemoteSource(device) && action == SourceAction::BroadcastRelease,
        final(f)@.remote_at == Some(now_ns),
{
}

/// The role is given up after two seconds without use, and not before; a peer that
/// lets go of it or is gone frees it, and no other peer does.
pub proof fn an_unused_role_is_given_up(
    f: (&mut SourceFsm, &mut SourceFsm, &mut SourceFsm),
    device: DeviceId,
    now_ns: u64,
    ts_ns: u64,
    action: (SourceAction, SourceAction, SourceAction),
)
    requires
        call_ensures(SourceFsm::step, (f.0, SourceInput::Tick, now_ns, ts_ns), action.0),
        call_ensures(
            SourceFsm::step,
            (f.1, SourceInput::PeerRelease { device }, now_ns, ts_ns),
            action.1,
        ),
        call_ensures(
            SourceFsm::step,
            (f.2, SourceInput::PeerDisconnect { device }, now_ns, ts_ns),
            action.2,
        ),
    ensures
        old(f.0)@.state == SourceState::LocalSource && old(f.0)@.local_at is Some ==> (final(f.0)@.state == SourceState::Idle <==> now_ns - old(f.0)@.local_at->0 > 2_000_000_000),
        old(f.0)@.state != SourceState::LocalSource ==> final(f.0)@ == old(f.0)@ && action.0
            == SourceAction::Silent,
        old(f.1)@.state == SourceState::RemoteSource(device) ==> final(f.1)@.state
            == SourceState::Idle,
        old(f.1)@.state != SourceState::RemoteSource(device) ==> final(f.1)@ == old(f.1)@,
        old(f.2)@.state == SourceState::RemoteSource(device) ==> final(f.2)@.state
            == SourceState::Idle,
        old(f.2)@.state != SourceState::RemoteSource(device) ==> final(f.2)@ == old(f.2)@,
{
}

} // verus!
