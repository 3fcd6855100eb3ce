//! Which peers are about, and which of two machines dials the other.

use crate::device::DeviceId;
use crate::net::discovery::{Address, Advert, DiscoveryEvent, PeerAdvert};
use std::collections::HashMap;
use vstd::prelude::*;

verus! {

broadcast use vstd::std_specs::hash::group_hash_axioms;

/// How long to wait before a peer is dialed again.
pub const REDIAL_MS: u64 = 2_000;

/// The peers that have announced themselves.
pub struct Peers {
    local: DeviceId,
    known: HashMap<u128, PeerAdvert>,
}

/// What to do about an announcement.
#[derive(Debug, Clone, Copy, PartialEq, Eq, Structural)]
pub enum PeerAction {
    /// Nothing new: this machine itself, or a peer that was known.
    Ignore,
    /// Dial the peer, and again after each session.
    Dial,
    /// The peer will dial.
    Wait,
    /// The peer is gone.
    Gone,
}

/// Of two machines the one with the smaller number dials.
pub open spec fn dials(local: DeviceId, peer: DeviceId) -> bool {
    local.0 < peer.0
}

/// Exactly one of two machines dials the other.
pub proof fn exactly_one_side_dials(a: DeviceId, b: DeviceId)
    requires
        a != b,
    ensures
        dials(a, b) != dials(b, a),
{
    assert(a.0 != b.0);
}

/// What an announcement leads to.
pub open spec fn action_for(local: DeviceId, known: Set<u128>, peer: DeviceId) -> PeerAction {
    if peer == local || known.contains(peer.0) {
        PeerAction::Ignore
    } else if dials(local, peer) {
        PeerAction::Dial
    } else {
        PeerAction::Wait
    }
}

/// An endpoint on the network.
#[derive(Debug, Clone, Copy, PartialEq, Eq, Structural)]
pub struct Endpoint {
    pub ip: Address,
    pub port: u16,
}

impl Peers {
    /// The announcements by machine.
    pub closed spec fn known(self) -> Map<u128, Advert> {
        Map::new(|k: u128| self.known@.contains_key(k), |k: u128| self.known@[k]@)
    }

    pub closed spec fn local(self) -> DeviceId {
        self.local
    }

    pub fn new(local: DeviceId) -> (r: Self)
        ensures
            r.local() == local,
            r.known() == Map::<u128, Advert>::empty(),
    {
        let r = Peers { local, known: HashMap::new() };
        assert(r.known() =~= Map::<u128, Advert>::empty());
        r
    }

    /// Takes what was heard on the network. The announcement of a known peer
    /// takes the place of the last one.
    pub fn hear(&mut self, event: DiscoveryEvent) -> (r: PeerAction)
        ensures
            final(self).local() == old(self).local(),
            match event {
                DiscoveryEvent::PeerOnline(peer) => {
                    &&& r == action_for(old(self).local(), old(self).known().dom(), peer.device_id)
                    &&& final(self).known() == if peer.device_id == old(self).local() {
                        old(self).known()
                    } else {
                        old(self).known().insert(peer.device_id.0, peer@)
                    }
                },
                DiscoveryEvent::PeerOffline(id) => r == PeerAction::Gone && final(self).known()
                    == old(self).known().remove(id.0),
            },
    {
        match event {
            DiscoveryEvent::PeerOnline(peer) => {
                let id = peer.device_id;
                if id == self.local {
                    return PeerAction::Ignore;
                }
                let already_known = self.known.contains_key(&id.0);
                let ghost advert = peer@;
                let _ = self.known.insert(id.0, peer);
                assert(self.known() =~= old(self).known().insert(id.0, advert));
                if already_known {
                    PeerAction::Ignore
                } else if self.local.0 < id.0 {
                    PeerAction::Dial
                } else {
                    PeerAction::Wait
                }
            },
            DiscoveryEvent::PeerOffline(id) => {
                let _ = self.known.remove(&id.0);
                assert(self.known() =~= old(self).known().remove(id.0));
                PeerAction::Gone
            },
        }
    }

    /// Tells where a peer is to be dialed, before each session; nothing once
    /// it is gone, which ends the dialing.
    pub fn redial(&self, id: DeviceId) -> (r: Option<PeerAdvert>)
        ensures
            match r {
                Some(p) => self.known().contains_key(id.0) && p@ == self.known()[id.0],
                None => !self.known().contains_key(id.0),
            },
    {
        match self.known.get(&id.0) {
            Some(p) => Some(p.copy()),
            None => None,
        }
    }
}

/// The endpoints of a peer.
pub open spec fn endpoints(peer: Advert) -> Seq<Endpoint> {
    peer.addresses.map_values(|a: Address| Endpoint { ip: a, port: peer.control_port })
}

/// Tells the endpoints at which a peer is dialed, one after the other until
/// one answers. A peer without an address cannot be dialed.
pub fn dial_targets(peer: &PeerAdvert) -> (r: Vec<Endpoint>)
    ensures
        r@ == endpoints(peer@),
{
    let mut r: Vec<Endpoint> = Vec::new();
    let mut i: usize = 0;
    while i < peer.addresses.len()
        invariant
            i <= peer.addresses@.len(),
            r@ == endpoints(peer@).subrange(0, i as int),
        decreases peer.addresses@.len() - i,
    {
        let e = Endpoint { ip: peer.addresses[i], port: peer.control_port };
        r.push(e);
        assert(endpoints(peer@).subrange(0, i + 1) =~= endpoints(peer@).subrange(0, i as int).push(
            e,
        ));
        i = i + 1;
    }
    assert(endpoints(peer@).subrange(0, peer.addresses@.len() as int) =~= endpoints(peer@));
    r
}

/// The address of this machine that is announced; where the system does not
/// tell one, its own loop address.
pub fn detect_local_addresses(found: Option<Address>) -> (r: Vec<Address>)
    ensures
        r@ == seq![
            match found {
                Some(a) => a,
                None => Address::V4(0x7f00_0001),
            },
        ],
{
    let mut r: Vec<Address> = Vec::new();
    match found {
        Some(a) => r.push(a),
        None => r.push(Address::V4(0x7f00_0001)),
    }
    assert(r@ =~= seq![
        match found {
            Some(a) => a,
            None => Address::V4(0x7f00_0001),
        },
    ]);
    r
}

/// A peer that comes back after it was gone is taken as new.
pub proof fn a_returning_peer_is_dialed_again(local: DeviceId, known: Set<u128>, id: DeviceId)
    requires
        id != local,
    ensures
        action_for(local, known.remove(id.0), id) != PeerAction::Ignore,
{
}

/// Two machines that hear of each other for the first time connect once: exactly
/// one of them dials, and the other waits.
pub proof fn two_machines_connect_once(
    p: (&mut Peers, &mut Peers),
    heard: (PeerAdvert, PeerAdvert),
    r: (PeerAction, PeerAction),
)
    requires
        heard.0.device_id == old(p.1).local(),
        heard.1.device_id == old(p.0).local(),
        heard.0.device_id != heard.1.device_id,
        !old(p.0).known().contains_key(heard.0.device_id.0),
        !old(p.1).known().contains_key(heard.1.device_id.0),
        call_ensures(Peers::hear, (p.0, DiscoveryEvent::PeerOnline(heard.0)), r.0),
        call_ensures(Peers::hear, (p.1, DiscoveryEvent::PeerOnline(heard.1)), r.1),
    ensures
        (r.0 == PeerAction::Dial && r.1 == PeerAction::Wait) || (r.0 == PeerAction::Wait && r.1
            == PeerAction::Dial),
        old(p.0).local().0 < old(p.1).local().0 ==> r.0 == PeerAction::Dial,
{
}

/// A machine does not dial itself, a known peer is not dialed a second time, but
/// dialed where it was heard last; one that has gone is not dialed any more, and is
/// dialed anew when it comes back.
pub proof fn a_peer_is_dialed_while_it_is_there(
    p: (&mut Peers, &mut Peers, &mut Peers),
    heard: (PeerAdvert, PeerAdvert),
    r: (PeerAction, PeerAction, PeerAction),
    dial: (Option<PeerAdvert>, Option<PeerAdvert>),
)
    requires
        heard.0.device_id == heard.1.device_id,
        call_ensures(Peers::hear, (p.0, DiscoveryEvent::PeerOnline(heard.0)), r.0),
        *old(p.1) == *final(p.0),
        call_ensures(Peers::hear, (p.1, DiscoveryEvent::PeerOnline(heard.1)), r.1),
        *old(p.2) == *final(p.1),
        call_ensures(Peers::hear, (p.2, DiscoveryEvent::PeerOffline(heard.0.device_id)), r.2),
        call_ensures(Peers::redial, (&*final(p.1), heard.0.device_id), dial.0),
        call_ensures(Peers::redial, (&*final(p.2), heard.0.device_id), dial.1),
    ensures
        heard.0.device_id == old(p.0).local() ==> r.0 == PeerAction::Ignore && r.1
            == PeerAction::Ignore && final(p.1).known() == old(p.0).known(),
        heard.0.device_id != old(p.0).local() ==> r.1 == PeerAction::Ignore && (
        dial.0 matches Some(a) && a@ == heard.1@),
        r.2 == PeerAction::Gone,
        dial.1 is None,
{
}

/// A peer is dialed at each of its addresses, in the order in which it gives them,
/// at the port that it has told.
pub proof fn every_address_is_dialed(peer: &PeerAdvert, r: Vec<Endpoint>, i: int)
    requires
        call_ensures(dial_targets, (peer,), r),
        0 <= i < peer@.addresses.len(),
    ensures
        r@.len() == peer@.addresses.len(),
        r@[i].ip == peer@.addresses[i],
        r@[i].port == peer@.control_port,
{
}

} // verus!
