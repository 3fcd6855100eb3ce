//! Finding peers on the network.
//!
//! Each machine announces itself under a name, and hears of the names that
//! others have announced.

use crate::device::{self, DeviceId};
use crate::text::{self, chars_of, contains_text, part, same_text, text_of};
use vstd::prelude::*;
use vstd::string::*;

verus! {

/// The address of a machine.
#[derive(Debug, Clone, Copy, PartialEq, Eq, Structural)]
pub enum Address {
    V4(u32),
    V6(u128),
}

/// What a machine announces of itself.
pub struct PeerAdvert {
    pub device_id: DeviceId,
    pub display_name: String,
    pub os: String,
    pub control_port: u16,
    pub addresses: Vec<Address>,
}

/// What a [`PeerAdvert`] stands for.
pub struct Advert {
    pub device_id: DeviceId,
    pub display_name: Seq<char>,
    pub os: Seq<char>,
    pub control_port: u16,
    pub addresses: Seq<Address>,
}

impl View for PeerAdvert {
    type V = Advert;

    open spec fn view(&self) -> Advert {
        Advert {
            device_id: self.device_id,
            display_name: self.display_name@,
            os: self.os@,
            control_port: self.control_port,
            addresses: self.addresses@,
        }
    }
}

fn copy_addresses(addresses: &[Address]) -> (r: Vec<Address>)
    ensures
        r@ == addresses@,
{
    let mut r: Vec<Address> = Vec::new();
    let mut i: usize = 0;
    while i < addresses.len()
        invariant
            i <= addresses@.len(),
            r@ == addresses@.subrange(0, i as int),
        decreases addresses@.len() - i,
    {
        r.push(addresses[i]);
        assert(addresses@.subrange(0, i + 1) =~= addresses@.subrange(0, i as int).push(
            addresses@[i as int],
        ));
        i = i + 1;
    }
    assert(addresses@.subrange(0, addresses@.len() as int) =~= addresses@);
    r
}

impl PeerAdvert {
    pub fn copy(&self) -> (r: Self)
        ensures
            r@ == self@,
    {
        PeerAdvert {
            device_id: self.device_id,
            display_name: self.display_name.clone(),
            os: self.os.clone(),
            control_port: self.control_port,
            addresses: copy_addresses(&self.addresses),
        }
    }
}

pub enum DiscoveryEvent {
    PeerOnline(PeerAdvert),
    PeerOffline(DeviceId),
}

/// Whether two adverts lead to the same endpoint: the same port, and the same
/// addresses in whatever order.
pub open spec fn one_endpoint(a: Advert, b: Advert) -> bool {
    a.control_port == b.control_port && a.addresses.to_multiset() == b.addresses.to_multiset()
}

fn position(s: &[Address], a: Address) -> (r: Option<usize>)
    ensures
        match r {
            Some(i) => i < s@.len() && s@[i as int] == a,
            None => !s@.contains(a),
        },
{
    let mut i: usize = 0;
    while i < s.len()
        invariant
            i <= s@.len(),
            forall|j: int| 0 <= j < i ==> s@[j] != a,
        decreases s@.len() - i,
    {
        if s[i] == a {
            return Some(i);
        }
        i = i + 1;
    }
    None
}

proof fn lemma_missing(a: Seq<Address>, b: Seq<Address>, left: Seq<Address>, i: int)
    requires
        0 <= i < a.len(),
        left.to_multiset().add(a.subrange(0, i).to_multiset()) == b.to_multiset(),
        !left.contains(a[i]),
    ensures
        a.to_multiset() != b.to_multiset(),
{
    broadcast use vstd::seq_lib::group_to_multiset_ensures;

    let x = a[i];
    let head = a.subrange(0, i);
    let rest = a.subrange(i + 1, a.len() as int);
    assert(a =~= head.push(x) + rest);
    vstd::seq_lib::lemma_multiset_commutative(head.push(x), rest);
    assert(head.push(x).to_multiset() =~= head.to_multiset().insert(x));
    assert(left.to_multiset().count(x) == 0);
    assert(b.to_multiset().count(x) == head.to_multiset().count(x));
    assert(a.to_multiset().count(x) >= head.to_multiset().count(x) + 1);
}

/// Whether two adverts lead to the same endpoint.
pub fn same_endpoint(a: &PeerAdvert, b: &PeerAdvert) -> (r: bool)
    ensures
        r == one_endpoint(a@, b@),
{
    broadcast use vstd::seq_lib::group_to_multiset_ensures;

    if a.control_port != b.control_port {
        return false;
    }
    if a.addresses.len() != b.addresses.len() {
        assert(a.addresses@.to_multiset().len() == a.addresses@.len());
        assert(b.addresses@.to_multiset().len() == b.addresses@.len());
        return false;
    }
    let mut left = copy_addresses(&b.addresses);
    let mut i: usize = 0;
    proof {
        assert(a.addresses@.subrange(0, 0) =~= Seq::<Address>::empty());
        assert(left@.to_multiset().add(a.addresses@.subrange(0, 0).to_multiset())
            =~= b.addresses@.to_multiset());
    }
    while i < a.addresses.len()
        invariant
            i <= a.addresses@.len(),
            left@.len() == a.addresses@.len() - i,
            left@.to_multiset().add(a.addresses@.subrange(0, i as int).to_multiset())
                == b.addresses@.to_multiset(),
        decreases a.addresses@.len() - i,
    {
        broadcast use vstd::seq_lib::group_to_multiset_ensures;

        let x = a.addresses[i];
        match position(&left, x) {
            None => {
                proof {
                    lemma_missing(a.addresses@, b.addresses@, left@, i as int);
                }
                return false;
            },
            Some(k) => {
                let ghost before = left@;
                left.remove(k);
                proof {
                    let head = a.addresses@.subrange(0, i as int);
                    assert(a.addresses@.subrange(0, i + 1) =~= head.push(x));
                    assert(left@ =~= before.remove(k as int));
                    assert(left@.to_multiset() =~= before.to_multiset().remove(x));
                    assert(left@.to_multiset().add(head.push(x).to_multiset())
                        =~= before.to_multiset().add(head.to_multiset()));
                }
            },
        }
        i = i + 1;
    }
    proof {
        assert(a.addresses@.subrange(0, a.addresses@.len() as int) =~= a.addresses@);
        assert(left@ =~= Seq::<Address>::empty());
        assert(a.addresses@.to_multiset() =~= b.addresses@.to_multiset());
    }
    true
}

/// The first group of digits of an identity.
pub open spec fn short(id: DeviceId) -> Seq<char> {
    text::hex(id.0 as nat, 32).subrange(0, 8)
}

/// The identity up to its first hyphen.
pub fn short_id(id: &DeviceId) -> (r: String)
    ensures
        r@ == short(*id),
{
    let chars = chars_of(id.to_text().as_str());
    proof {
        text::hex_has_no_hyphen(id.0 as nat, 32);
        let h = text::hex(id.0 as nat, 32);
        assert(chars@[8] == '-');
        assert forall|j: int| 0 <= j < 8 implies #[trigger] chars@[j] == h[j] by {}
    }
    let mut i: usize = 0;
    while i < chars.len() && chars[i] != '-'
        invariant
            i <= 8,
            chars@.len() == 36,
            chars@ == device::uuid_text(id.0),
            chars@[8] == '-',
            forall|j: int| 0 <= j < 8 ==> #[trigger] chars@[j] != '-',
        decreases 8 - i,
    {
        i = i + 1;
    }
    assert(i == 8);
    let head = part(&chars, 0, i);
    assert(head@ =~= short(*id));
    text_of(&head)
}

/// The type of the service under which machines announce themselves.
pub const SERVICE_TYPE: &'static str = "_mineshare._tcp.local.";

pub open spec fn service_type() -> Seq<char> {
    SERVICE_TYPE@
}

/// What is registered for an advert.
pub struct Announcement {
    pub host: String,
    pub instance: String,
    pub fullname: String,
    pub addresses: Vec<Address>,
    pub port: u16,
    /// The properties that go with the service.
    pub device_id: String,
    pub display_name: String,
    pub os: String,
}

/// The name under which an advert is registered: that of the machine and the
/// start of its identity.
pub open spec fn instance_of(a: Advert) -> Seq<char> {
    a.display_name + "-"@ + short(a.device_id)
}

pub open spec fn fullname_of(a: Advert) -> Seq<char> {
    instance_of(a) + "."@ + service_type()
}

/// Whether an announcement is that of an advert. Its identity can be read back.
pub open spec fn announces(r: Announcement, a: Advert) -> bool {
    &&& r.host@ == short(a.device_id) + ".local."@
    &&& r.instance@ == instance_of(a)
    &&& r.fullname@ == fullname_of(a)
    &&& r.addresses@ == a.addresses
    &&& r.port == a.control_port
    &&& r.device_id@ == device::uuid_text(a.device_id.0)
    &&& device::parsed_uuid(r.device_id@) == Some(a.device_id.0)
    &&& r.display_name@ == a.display_name
    &&& r.os@ == a.os
}

/// What this machine has announced.
pub struct Discovery {
    pub instance_name: String,
    pub fullname: String,
}

impl Discovery {
    /// Nothing is announced yet.
    pub fn new() -> (r: Self)
        ensures
            r.instance_name@.len() == 0,
            r.fullname@.len() == 0,
    {
        Discovery { instance_name: String::new(), fullname: String::new() }
    }

    /// Announces this machine. It may be called again with other data.
    pub fn announce(&mut self, advert: &PeerAdvert) -> (r: Announcement)
        ensures
            final(self).instance_name@ == instance_of(advert@),
            final(self).fullname@ == fullname_of(advert@),
            announces(r, advert@),
    {
        let short = short_id(&advert.device_id);
        let host = short.clone().concat(".local.");
        let instance = advert.display_name.clone().concat("-").concat(short.as_str());
        let fullname = instance.clone().concat(".").concat(SERVICE_TYPE);
        self.instance_name = instance.clone();
        self.fullname = fullname.clone();
        Announcement {
            host,
            instance,
            fullname,
            addresses: copy_addresses(&advert.addresses),
            port: advert.control_port,
            device_id: advert.device_id.to_text(),
            display_name: advert.display_name.clone(),
            os: advert.os.clone(),
        }
    }

    /// The name to take back when the program ends; nothing when nothing was
    /// announced.
    pub fn goodbye(&self) -> (r: Option<String>)
        ensures
            match r {
                Some(name) => name@ == self.fullname@ && name@.len() > 0,
                None => self.fullname@.len() == 0,
            },
    {
        if self.fullname.as_str().is_empty() {
            None
        } else {
            Some(self.fullname.clone())
        }
    }
}

/// What a resolved service tells.
pub struct ServiceInfo {
    pub device_id: Option<String>,
    pub display_name: Option<String>,
    pub os: Option<String>,
    pub port: u16,
    pub addresses: Vec<Address>,
}

/// Why a service is no peer.
#[derive(Debug, Clone, Copy, PartialEq, Eq, Structural)]
pub enum AdvertError {
    MissingDeviceId,
    InvalidDeviceId,
}

/// The text of a property, or a word in its place.
pub open spec fn property(p: Option<String>, fallback: Seq<char>) -> Seq<char> {
    match p {
        Some(s) => s@,
        None => fallback,
    }
}

/// The advert of a service whose identity is known.
pub open spec fn advert_of(info: ServiceInfo, id: DeviceId) -> Advert {
    Advert {
        device_id: id,
        display_name: property(info.display_name, "(unknown)"@),
        os: property(info.os, "?"@),
        control_port: info.port,
        addresses: info.addresses@,
    }
}

/// The advert of a service with the identity that was read from it.
pub fn advert_with(info: &ServiceInfo, parsed: Option<DeviceId>) -> (r: Result<
    PeerAdvert,
    AdvertError,
>)
    ensures
        match r {
            Ok(p) => parsed matches Some(id) && p@ == advert_of(*info, id),
            Err(e) => parsed is None && e == AdvertError::InvalidDeviceId,
        },
{
    match parsed {
        None => Err(AdvertError::InvalidDeviceId),
        Some(device_id) => {
            let display_name = match &info.display_name {
                Some(s) => s.clone(),
                None => String::from_str("(unknown)"),
            };
            let os = match &info.os {
                Some(s) => s.clone(),
                None => String::from_str("?"),
            };
            Ok(
                PeerAdvert {
                    device_id,
                    display_name,
                    os,
                    control_port: info.port,
                    addresses: copy_addresses(&info.addresses),
                },
            )
        },
    }
}

/// Reads the advert of a resolved service.
pub fn peer_from_info(info: &ServiceInfo) -> (r: Result<PeerAdvert, AdvertError>)
    ensures
        match info.device_id {
            None => r == Err::<PeerAdvert, AdvertError>(AdvertError::MissingDeviceId),
            Some(s) => match (r, device::parsed_uuid(s@)) {
                (Ok(p), Some(n)) => p@ == advert_of(*info, DeviceId(n)),
                (Err(e), None) => e == AdvertError::InvalidDeviceId,
                _ => false,
            },
        },
{
    match &info.device_id {
        None => Err(AdvertError::MissingDeviceId),
        Some(s) => advert_with(info, DeviceId::parse(s.as_str())),
    }
}

/// What a [`Browser`] has heard: which name belongs to which machine, and the
/// last advert of each machine that was passed on.
pub struct Heard {
    pub names: Map<Seq<char>, DeviceId>,
    pub adverts: Map<DeviceId, Advert>,
}

/// What is passed on.
pub enum News {
    Online(Advert),
    Offline(DeviceId),
}

/// What an advert under a name changes, and what is passed on of it: an
/// endpoint that is new or has changed.
pub open spec fn heard_of(h: Heard, name: Seq<char>, p: Advert) -> (Heard, Option<News>) {
    let known = h.adverts.contains_key(p.device_id) && one_endpoint(h.adverts[p.device_id], p);
    let names = h.names.insert(name, p.device_id);
    if known {
        (Heard { names, ..h }, None)
    } else {
        (Heard { names, adverts: h.adverts.insert(p.device_id, p) }, Some(News::Online(p)))
    }
}

/// What the end of a name changes, and what is passed on of it: a machine is
/// offline once its last name is gone.
pub open spec fn lost(h: Heard, name: Seq<char>) -> (Heard, Option<News>) {
    if !h.names.contains_key(name) {
        (h, None)
    } else {
        let id = h.names[name];
        let names = h.names.remove(name);
        if names.values().contains(id) {
            (Heard { names, ..h }, None)
        } else {
            (Heard { names, adverts: h.adverts.remove(id) }, Some(News::Offline(id)))
        }
    }
}

/// Whether an event tells a piece of news.
pub open spec fn tells(event: Option<DiscoveryEvent>, news: Option<News>) -> bool {
    match (event, news) {
        (Some(DiscoveryEvent::PeerOnline(p)), Some(News::Online(a))) => p@ == a,
        (Some(DiscoveryEvent::PeerOffline(id)), Some(News::Offline(d))) => id == d,
        (None, None) => true,
        _ => false,
    }
}

struct NamedPeer {
    name: String,
    id: DeviceId,
}

/// Listens to the announcements of others.
pub struct Browser {
    me: String,
    names: Vec<NamedPeer>,
    adverts: Vec<PeerAdvert>,
}

spec fn name_at(names: Seq<NamedPeer>, k: Seq<char>) -> int {
    choose|i: int| 0 <= i < names.len() && (#[trigger] names[i]).name@ == k
}

spec fn named(names: Seq<NamedPeer>, k: Seq<char>) -> bool {
    exists|i: int| 0 <= i < names.len() && (#[trigger] names[i]).name@ == k
}

spec fn names_map(names: Seq<NamedPeer>) -> Map<Seq<char>, DeviceId> {
    Map::new(|k: Seq<char>| named(names, k), |k: Seq<char>| names[name_at(names, k)].id)
}

spec fn names_distinct(names: Seq<NamedPeer>) -> bool {
    forall|i: int, j: int|
        0 <= i < names.len() && 0 <= j < names.len() && i != j ==> (#[trigger] names[i]).name@ != (
        #[trigger] names[j]).name@
}

spec fn advert_at(adverts: Seq<PeerAdvert>, d: DeviceId) -> int {
    choose|i: int| 0 <= i < adverts.len() && (#[trigger] adverts[i]).device_id == d
}

spec fn advertised(adverts: Seq<PeerAdvert>, d: DeviceId) -> bool {
    exists|i: int| 0 <= i < adverts.len() && (#[trigger] adverts[i]).device_id == d
}

spec fn adverts_map(adverts: Seq<PeerAdvert>) -> Map<DeviceId, Advert> {
    Map::new(|d: DeviceId| advertised(adverts, d), |d: DeviceId| adverts[advert_at(adverts, d)]@)
}

spec fn adverts_distinct(adverts: Seq<PeerAdvert>) -> bool {
    forall|i: int, j: int|
        0 <= i < adverts.len() && 0 <= j < adverts.len() && i != j ==> (
        #[trigger] adverts[i]).device_id != (#[trigger] adverts[j]).device_id
}

impl View for Browser {
    type V = Heard;

    closed spec fn view(&self) -> Heard {
        Heard { names: names_map(self.names@), adverts: adverts_map(self.adverts@) }
    }
}

proof fn lemma_name_at(names: Seq<NamedPeer>, i: int)
    requires
        names_distinct(names),
        0 <= i < names.len(),
    ensures
        names_map(names).contains_key(names[i].name@),
        names_map(names)[names[i].name@] == names[i].id,
{
    let k = names[i].name@;
    assert(named(names, k));
    let j = name_at(names, k);
    assert(0 <= j < names.len() && names[j].name@ == k);
}

proof fn lemma_advert_at(adverts: Seq<PeerAdvert>, i: int)
    requires
        adverts_distinct(adverts),
        0 <= i < adverts.len(),
    ensures
        adverts_map(adverts).contains_key(adverts[i].device_id),
        adverts_map(adverts)[adverts[i].device_id] == adverts[i]@,
{
    let d = adverts[i].device_id;
    assert(advertised(adverts, d));
    let j = advert_at(adverts, d);
    assert(0 <= j < adverts.len() && adverts[j].device_id == d);
}

impl Browser {
    /// No name and no machine is listed twice.
    pub closed spec fn well_formed(self) -> bool {
        names_distinct(self.names@) && adverts_distinct(self.adverts@)
    }

    /// The name that this machine has announced.
    pub closed spec fn own_name(self) -> Seq<char> {
        self.me@
    }

    /// Starts to listen; `me` is the name that this machine has announced.
    pub fn new(me: &str) -> (r: Self)
        ensures
            r.well_formed(),
            r.own_name() == me@,
            r@.names == Map::<Seq<char>, DeviceId>::empty(),
            r@.adverts == Map::<DeviceId, Advert>::empty(),
    {
        let r = Browser { me: String::from_str(me), names: Vec::new(), adverts: Vec::new() };
        assert(r@.names =~= Map::<Seq<char>, DeviceId>::empty());
        assert(r@.adverts =~= Map::<DeviceId, Advert>::empty());
        r
    }

    fn find_name(&self, name: &str) -> (r: Option<usize>)
        ensures
            match r {
                Some(i) => i < self.names@.len() && self.names@[i as int].name@ == name@,
                None => !named(self.names@, name@),
            },
    {
        let mut i: usize = 0;
        while i < self.names.len()
            invariant
                i <= self.names@.len(),
                forall|j: int| 0 <= j < i ==> (#[trigger] self.names@[j]).name@ != name@,
            decreases self.names@.len() - i,
        {
            if same_text(self.names[i].name.as_str(), name) {
                return Some(i);
            }
            i = i + 1;
        }
        None
    }

    fn find_advert(&self, id: DeviceId) -> (r: Option<usize>)
        ensures
            match r {
                Some(i) => i < self.adverts@.len() && self.adverts@[i as int].device_id == id,
                None => !advertised(self.adverts@, id),
            },
    {
        let mut i: usize = 0;
        while i < self.adverts.len()
            invariant
                i <= self.adverts@.len(),
                forall|j: int| 0 <= j < i ==> (#[trigger] self.adverts@[j]).device_id != id,
            decreases self.adverts@.len() - i,
        {
            if self.adverts[i].device_id == id {
                return Some(i);
            }
            i = i + 1;
        }
        None
    }

    /// Takes a name out, if it is listed.
    fn drop_name(&mut self, name: &str) -> (r: Option<DeviceId>)
        requires
            old(self).well_formed(),
        ensures
            final(self).well_formed(),
            final(self).me == old(self).me,
            final(self).adverts == old(self).adverts,
            final(self)@.names == old(self)@.names.remove(name@),
            match r {
                Some(id) => old(self)@.names.contains_key(name@) && old(self)@.names[name@] == id,
                None => !old(self)@.names.contains_key(name@),
            },
    {
        let ghost before = self.names@;
        match self.find_name(name) {
            None => {
                assert(self@.names =~= old(self)@.names.remove(name@));
                None
            },
            Some(i) => {
                proof {
                    lemma_name_at(before, i as int);
                }
                let entry = self.names.remove(i);
                proof {
                    lemma_names_removed(before, i as int);
                }
                Some(entry.id)
            },
        }
    }

    fn add_name(&mut self, name: &str, id: DeviceId)
        requires
            old(self).well_formed(),
            !old(self)@.names.contains_key(name@),
        ensures
            final(self).well_formed(),
            final(self).me == old(self).me,
            final(self).adverts == old(self).adverts,
            final(self)@.names == old(self)@.names.insert(name@, id),
    {
        let ghost before = self.names@;
        let entry = NamedPeer { name: String::from_str(name), id };
        self.names.push(entry);
        proof {
            lemma_names_pushed(before, entry);
        }
    }

    /// Takes an advert out, if it is listed.
    fn drop_advert(&mut self, id: DeviceId)
        requires
            old(self).well_formed(),
        ensures
            final(self).well_formed(),
            final(self).me == old(self).me,
            final(self).names == old(self).names,
            final(self)@.adverts == old(self)@.adverts.remove(id),
    {
        let ghost before = self.adverts@;
        match self.find_advert(id) {
            None => {
                assert(self@.adverts =~= old(self)@.adverts.remove(id));
            },
            Some(i) => {
                let _ = self.adverts.remove(i);
                proof {
                    lemma_adverts_removed(before, i as int);
                }
            },
        }
    }

    fn add_advert(&mut self, p: PeerAdvert)
        requires
            old(self).well_formed(),
            !old(self)@.adverts.contains_key(p.device_id),
        ensures
            final(self).well_formed(),
            final(self).me == old(self).me,
            final(self).names == old(self).names,
            final(self)@.adverts == old(self)@.adverts.insert(p.device_id, p@),
    {
        let ghost before = self.adverts@;
        self.adverts.push(p);
        proof {
            lemma_adverts_pushed(before, p);
        }
    }

    /// Whether any name belongs to a machine.
    fn has_name_of(&self, id: DeviceId) -> (r: bool)
        requires
            self.well_formed(),
        ensures
            r == self@.names.values().contains(id),
    {
        let mut i: usize = 0;
        while i < self.names.len()
            invariant
                i <= self.names@.len(),
                self.well_formed(),
                forall|j: int| 0 <= j < i ==> (#[trigger] self.names@[j]).id != id,
            decreases self.names@.len() - i,
        {
            if self.names[i].id == id {
                proof {
                    lemma_name_at(self.names@, i as int);
                }
                return true;
            }
            i = i + 1;
        }
        proof {
            if self@.names.values().contains(id) {
                let k = choose|k: Seq<char>|
                    self@.names.contains_key(k) && self@.names[k] == id;
                let j = name_at(self.names@, k);
                assert(0 <= j < self.names@.len() && self.names@[j].name@ == k);
                assert(self.names@[j].id == id);
            }
        }
        false
    }

    /// A service was resolved under a name. That of this machine itself is
    /// left alone, and so is one that is no peer.
    pub fn resolved(&mut self, name: &str, info: &ServiceInfo) -> (r: Option<DiscoveryEvent>)
        requires
            old(self).well_formed(),
        ensures
            final(self).well_formed(),
            final(self).own_name() == old(self).own_name(),
            ({
                let parsed = match info.device_id {
                    Some(s) => device::parsed_uuid(s@),
                    None => None,
                };
                match parsed {
                    Some(n) if !text::occurs(name@, old(self).own_name()) => {
                        let p = advert_of(*info, DeviceId(n));
                        &&& final(self)@ == heard_of(old(self)@, name@, p).0
                        &&& tells(r, heard_of(old(self)@, name@, p).1)
                    },
                    _ => final(self)@ == old(self)@ && r is None,
                }
            }),
    {
        if contains_text(name, self.me.as_str()) {
            return None;
        }
        match peer_from_info(info) {
            Err(_) => None,
            Ok(p) => self.hear(name, p),
        }
    }

    /// A peer was found under a name.
    pub fn hear(&mut self, name: &str, p: PeerAdvert) -> (r: Option<DiscoveryEvent>)
        requires
            old(self).well_formed(),
        ensures
            final(self).well_formed(),
            final(self).own_name() == old(self).own_name(),
            final(self)@ == heard_of(old(self)@, name@, p@).0,
            tells(r, heard_of(old(self)@, name@, p@).1),
    {
        let id = p.device_id;
        let _ = self.drop_name(name);
        self.add_name(name, id);
        assert(self@.names =~= old(self)@.names.insert(name@, id));
        let known = match self.find_advert(id) {
            None => false,
            Some(i) => {
                proof {
                    lemma_advert_at(self.adverts@, i as int);
                }
                same_endpoint(&self.adverts[i], &p)
            },
        };
        if known {
            None
        } else {
            self.drop_advert(id);
            let kept = p.copy();
            self.add_advert(kept);
            assert(self@.adverts =~= old(self)@.adverts.insert(id, p@));
            Some(DiscoveryEvent::PeerOnline(p))
        }
    }

    /// A name is gone.
    pub fn removed(&mut self, name: &str) -> (r: Option<DiscoveryEvent>)
        requires
            old(self).well_formed(),
        ensures
            final(self).well_formed(),
            final(self).own_name() == old(self).own_name(),
            text::occurs(name@, old(self).own_name()) ==> final(self)@ == old(self)@ && r is None,
            !text::occurs(name@, old(self).own_name()) ==> final(self)@ == lost(
                old(self)@,
                name@,
            ).0 && tells(r, lost(old(self)@, name@).1),
    {
        if contains_text(name, self.me.as_str()) {
            return None;
        }
        match self.drop_name(name) {
            None => {
                assert(old(self)@.names.remove(name@) =~= old(self)@.names);
                None
            },
            Some(id) => {
                if self.has_name_of(id) {
                    None
                } else {
                    self.drop_advert(id);
                    Some(DiscoveryEvent::PeerOffline(id))
                }
            },
        }
    }
}

proof fn lemma_names_removed(before: Seq<NamedPeer>, i: int)
    requires
        names_distinct(before),
        0 <= i < before.len(),
    ensures
        names_distinct(before.remove(i)),
        names_map(before.remove(i)) == names_map(before).remove(before[i].name@),
{
    let after = before.remove(i);
    assert forall|a: int, b: int|
        0 <= a < after.len() && 0 <= b < after.len() && a != b implies (#[trigger] after[a]).name@
        != (#[trigger] after[b]).name@ by {
        let x = if a < i {
            a
        } else {
            a + 1
        };
        let y = if b < i {
            b
        } else {
            b + 1
        };
        assert(before[x] == after[a] && before[y] == after[b]);
    }
    let m = names_map(after);
    let n = names_map(before).remove(before[i].name@);
    assert forall|k: Seq<char>| m.contains_key(k) <==> n.contains_key(k) by {
        if named(after, k) {
            let a = name_at(after, k);
            assert(0 <= a < after.len() && after[a].name@ == k);
            let x = if a < i {
                a
            } else {
                a + 1
            };
            assert(before[x].name@ == k);
        }
        if n.contains_key(k) {
            let x = name_at(before, k);
            assert(0 <= x < before.len() && before[x].name@ == k);
            let a = if x < i {
                x
            } else {
                x - 1
            };
            assert(after[a].name@ == k);
        }
    }
    assert forall|k: Seq<char>| m.contains_key(k) implies m[k] == n[k] by {
        let a = name_at(after, k);
        assert(0 <= a < after.len() && after[a].name@ == k);
        let x = if a < i {
            a
        } else {
            a + 1
        };
        assert(before[x] == after[a]);
        lemma_name_at(before, x);
    }
    assert(m =~= n);
}

proof fn lemma_names_pushed(before: Seq<NamedPeer>, e: NamedPeer)
    requires
        names_distinct(before),
        !names_map(before).contains_key(e.name@),
    ensures
        names_distinct(before.push(e)),
        names_map(before.push(e)) == names_map(before).insert(e.name@, e.id),
{
    let after = before.push(e);
    assert(!named(before, e.name@));
    assert forall|a: int, b: int|
        0 <= a < after.len() && 0 <= b < after.len() && a != b implies (#[trigger] after[a]).name@
        != (#[trigger] after[b]).name@ by {
        if a < before.len() {
            assert(before[a] == after[a]);
        }
        if b < before.len() {
            assert(before[b] == after[b]);
        }
    }
    let m = names_map(after);
    let n = names_map(before).insert(e.name@, e.id);
    assert forall|k: Seq<char>| m.contains_key(k) <==> n.contains_key(k) by {
        if named(after, k) && k != e.name@ {
            let a = name_at(after, k);
            assert(0 <= a < after.len() && after[a].name@ == k);
            assert(before[a].name@ == k);
        }
        if named(before, k) {
            let a = name_at(before, k);
            assert(0 <= a < before.len() && before[a].name@ == k);
            assert(after[a].name@ == k);
        }
        assert(after[before.len() as int] == e);
    }
    assert forall|k: Seq<char>| m.contains_key(k) implies m[k] == n[k] by {
        let a = name_at(after, k);
        assert(0 <= a < after.len() && after[a].name@ == k);
        if a < before.len() {
            assert(before[a] == after[a]);
            lemma_name_at(before, a);
        }
    }
    assert(m =~= n);
}

proof fn lemma_adverts_removed(before: Seq<PeerAdvert>, i: int)
    requires
        adverts_distinct(before),
        0 <= i < before.len(),
    ensures
        adverts_distinct(before.remove(i)),
        adverts_map(before.remove(i)) == adverts_map(before).remove(before[i].device_id),
{
    let after = before.remove(i);
    assert forall|a: int, b: int|
        0 <= a < after.len() && 0 <= b < after.len() && a != b implies (
    #[trigger] after[a]).device_id != (#[trigger] after[b]).device_id by {
        let x = if a < i {
            a
        } else {
            a + 1
        };
        let y = if b < i {
            b
        } else {
            b + 1
        };
        assert(before[x] == after[a] && before[y] == after[b]);
    }
    let m = adverts_map(after);
    let n = adverts_map(before).remove(before[i].device_id);
    assert forall|k: DeviceId| m.contains_key(k) <==> n.contains_key(k) by {
        if advertised(after, k) {
            let a = advert_at(after, k);
            assert(0 <= a < after.len() && after[a].device_id == k);
            let x = if a < i {
                a
            } else {
                a + 1
            };
            assert(before[x].device_id == k);
        }
        if n.contains_key(k) {
            let x = advert_at(before, k);
            assert(0 <= x < before.len() && before[x].device_id == k);
            let a = if x < i {
                x
            } else {
                x - 1
            };
            assert(after[a].device_id == k);
        }
    }
    assert forall|k: DeviceId| m.contains_key(k) implies m[k] == n[k] by {
        let a = advert_at(after, k);
        assert(0 <= a < after.len() && after[a].device_id == k);
        let x = if a < i {
            a
        } else {
            a + 1
        };
        assert(before[x] == after[a]);
        lemma_advert_at(before, x);
    }
    assert(m =~= n);
}

proof fn lemma_adverts_pushed(before: Seq<PeerAdvert>, e: PeerAdvert)
    requires
        adverts_distinct(before),
        !adverts_map(before).contains_key(e.device_id),
    ensures
        adverts_distinct(before.push(e)),
        adverts_map(before.push(e)) == adverts_map(before).insert(e.device_id, e@),
{
    let after = before.push(e);
    assert(!advertised(before, e.device_id));
    assert forall|a: int, b: int|
        0 <= a < after.len() && 0 <= b < after.len() && a != b implies (
    #[trigger] after[a]).device_id != (#[trigger] after[b]).device_id by {
        if a < before.len() {
            assert(before[a] == after[a]);
        }
        if b < before.len() {
            assert(before[b] == after[b]);
        }
    }
    let m = adverts_map(after);
    let n = adverts_map(before).insert(e.device_id, e@);
    assert forall|k: DeviceId| m.contains_key(k) <==> n.contains_key(k) by {
        if advertised(after, k) && k != e.device_id {
            let a = advert_at(after, k);
            assert(0 <= a < after.len() && after[a].device_id == k);
            assert(before[a].device_id == k);
        }
        if advertised(before, k) {
            let a = advert_at(before, k);
            assert(0 <= a < before.len() && before[a].device_id == k);
            assert(after[a].device_id == k);
        }
        assert(after[before.len() as int] == e);
    }
    assert forall|k: DeviceId| m.contains_key(k) implies m[k] == n[k] by {
        let a = advert_at(after, k);
        assert(0 <= a < after.len() && after[a].device_id == k);
        if a < before.len() {
            assert(before[a] == after[a]);
            lemma_advert_at(before, a);
        }
    }
    assert(m =~= n);
}

/// Whether a resolved service tells what was announced.
pub open spec fn tells_all(info: ServiceInfo, a: Announcement) -> bool {
    &&& text::optional(info.device_id) == Some(a.device_id@)
    &&& text::optional(info.display_name) == Some(a.display_name@)
    &&& text::optional(info.os) == Some(a.os@)
    &&& info.port == a.port
    &&& info.addresses@ == a.addresses@
}

/// Who resolves what a machine announced reads its advert back.
pub proof fn an_announced_peer_is_recognized(a: Advert, r: Announcement, info: ServiceInfo)
    requires
        announces(r, a),
        tells_all(info, r),
    ensures
        info.device_id matches Some(s) && device::parsed_uuid(s@) == Some(a.device_id.0),
        advert_of(info, a.device_id) == a,
{
}

/// A machine does not take its own announcement for a peer.
pub proof fn own_announcements_are_ignored(a: Advert)
    ensures
        text::occurs(fullname_of(a), instance_of(a)),
{
    assert(fullname_of(a).subrange(0, instance_of(a).len() as int) =~= instance_of(a));
    assert(text::stands_at(fullname_of(a), instance_of(a), 0));
}

/// A peer that is resolved again with the same endpoint, under whatever name,
/// is not passed on again.
pub proof fn duplicates_are_not_passed_on(h: Heard, name: Seq<char>, again: Seq<char>, p: Advert, q: Advert)
    requires
        p.device_id == q.device_id,
        one_endpoint(p, q),
    ensures
        heard_of(heard_of(h, name, p).0, again, q).1 is None,
{
    let after = heard_of(h, name, p).0;
    assert(one_endpoint(after.adverts[p.device_id], q));
}

/// A peer that comes back with another endpoint is passed on again.
pub proof fn a_changed_endpoint_is_passed_on(h: Heard, name: Seq<char>, p: Advert)
    requires
        h.adverts.contains_key(p.device_id),
        !one_endpoint(h.adverts[p.device_id], p),
    ensures
        heard_of(h, name, p).1 == Some(News::Online(p)),
{
}

/// A peer that went offline is passed on when it comes back.
pub proof fn a_returning_peer_is_passed_on(h: Heard, gone: Seq<char>, name: Seq<char>, p: Advert)
    requires
        lost(h, gone).1 == Some(News::Offline(p.device_id)),
    ensures
        heard_of(lost(h, gone).0, name, p).1 == Some(News::Online(p)),
{
}

/// A peer with two names stays online while one of them is left.
pub proof fn a_peer_stays_while_a_name_is_left(h: Heard, gone: Seq<char>, left: Seq<char>)
    requires
        h.names.contains_key(gone),
        h.names.contains_key(left),
        gone != left,
        h.names[gone] == h.names[left],
    ensures
        lost(h, gone).1 is None,
{
    let names = h.names.remove(gone);
    assert(names.contains_key(left) && names[left] == h.names[gone]);
}

/// A peer that is resolved for the first time is passed on as it was resolved, and
/// once its only name is gone it is passed on as gone. What bears the own name is
/// not a peer.
pub proof fn a_resolved_peer_comes_and_goes(
    d: (&mut Browser, &mut Browser),
    name: &str,
    info: &ServiceInfo,
    id: DeviceId,
    r: (Option<DiscoveryEvent>, Option<DiscoveryEvent>),
)
    requires
        call_ensures(Browser::resolved, (d.0, name, info), r.0),
        *old(d.1) == *final(d.0),
        call_ensures(Browser::removed, (d.1, name), r.1),
        info.device_id matches Some(s) && device::parsed_uuid(s@) == Some(id.0),
        !old(d.0)@.adverts.contains_key(id),
        forall|other: Seq<char>| #[trigger]
            old(d.0)@.names.contains_key(other) ==> old(d.0)@.names[other] != id,
    ensures
        !text::occurs(name@, old(d.0).own_name()) ==> {
            &&& r.0 matches Some(DiscoveryEvent::PeerOnline(p)) && p@.device_id == id
                && p@.control_port == info.port && p@.addresses == info.addresses@ && (
            info.display_name is Some ==> p@.display_name == info.display_name->0@)
            &&& r.1 == Some(DiscoveryEvent::PeerOffline(id))
        },
        text::occurs(name@, old(d.0).own_name()) ==> r.0 is None && r.1 is None,
{
    let names = final(d.0)@.names.remove(name@);
    if names.values().contains(id) {
        let other = choose|other: Seq<char>| names.contains_key(other) && names[other] == id;
        assert(old(d.0)@.names.contains_key(other));
    }
}

/// Two adverts have the same endpoint where the port and the addresses are the same,
/// in whatever order the addresses come.
pub proof fn the_order_of_addresses_does_not_matter(
    a: (&PeerAdvert, &PeerAdvert),
    r: (bool, bool),
)
    requires
        call_ensures(same_endpoint, (a.0, a.1), r.0),
        call_ensures(same_endpoint, (a.1, a.0), r.1),
    ensures
        r.0 == r.1,
        a.0@.control_port != a.1@.control_port ==> !r.0,
        a.0@.addresses.len() != a.1@.addresses.len() ==> !r.0,
        a.0@.control_port == a.1@.control_port && a.0@.addresses == a.1@.addresses ==> r.0,
        a.0@.control_port == a.1@.control_port && a.0@.addresses.len() == 2
            && a.1@.addresses.len() == 2 && a.0@.addresses[0] == a.1@.addresses[1]
            && a.0@.addresses[1] == a.1@.addresses[0] ==> r.0,
{
    a.0@.addresses.to_multiset_ensures();
    a.1@.addresses.to_multiset_ensures();
    let (x, y) = (a.0@.addresses, a.1@.addresses);
    if x.len() == 2 && y.len() == 2 && x[0] == y[1] && x[1] == y[0] {
        let e = Seq::empty();
        assert(x =~= e.push(x[0]).push(x[1]));
        assert(y =~= e.push(x[1]).push(x[0]));
        e.to_multiset_ensures();
        e.push(x[0]).to_multiset_ensures();
        e.push(x[1]).to_multiset_ensures();
        assert(x.to_multiset() =~= y.to_multiset());
    }
}

/// A machine is announced under its name and the beginning of its identity, and
/// says goodbye under the name that it was announced under.
pub proof fn a_machine_leaves_as_it_came(
    d: &mut Discovery,
    advert: &PeerAdvert,
    r: Announcement,
    bye: Option<String>,
)
    requires
        call_ensures(Discovery::announce, (d, advert), r),
        call_ensures(Discovery::goodbye, (&*final(d),), bye),
    ensures
        bye matches Some(name) && name@ == r.fullname@,
        r.port == advert@.control_port,
        r.addresses@ == advert@.addresses,
        r.display_name@ == advert@.display_name,
        r.instance@.subrange(0, advert@.display_name.len() as int) == advert@.display_name,
        r.instance@.len() == advert@.display_name.len() + 9,
{
    reveal_strlit("-");
    reveal_strlit(".");
    text::lemma_hex_len(advert@.device_id.0 as nat, 32);
    assert(r.instance@.subrange(0, advert@.display_name.len() as int)
        =~= advert@.display_name);
}

} // verus!
