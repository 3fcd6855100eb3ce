//! The peers that were paired, known by their keys.

use crate::text::{self, encode_hex, same_text};
use vstd::prelude::*;
use vstd::string::*;

verus! {

pub struct TrustedPeer {
    pub device_id: String,
    pub display_name: String,
    /// The key of the peer in hexadecimal digits. It alone decides: another key
    /// under the same identity is another machine.
    pub noise_static_hex: String,
    /// When it was paired, in seconds; for show.
    pub paired_at: i64,
}

/// What a [`TrustedPeer`] stands for.
pub struct Trusted {
    pub device_id: Seq<char>,
    pub display_name: Seq<char>,
    pub key: Seq<char>,
    pub paired_at: i64,
}

impl View for TrustedPeer {
    type V = Trusted;

    open spec fn view(&self) -> Trusted {
        Trusted {
            device_id: self.device_id@,
            display_name: self.display_name@,
            key: self.noise_static_hex@,
            paired_at: self.paired_at,
        }
    }
}

pub struct TrustList {
    pub trusted: Vec<TrustedPeer>,
}

impl View for TrustList {
    type V = Seq<Trusted>;

    open spec fn view(&self) -> Seq<Trusted> {
        self.trusted@.map_values(|p: TrustedPeer| p@)
    }
}

/// Whether a key is on a list.
pub open spec fn trusts(list: Seq<Trusted>, key: Seq<u8>) -> bool {
    exists|i: int| 0 <= i < list.len() && (#[trigger] list[i]).key == text::hex_bytes(key)
}

/// A list without the entries of one identity.
pub open spec fn without(list: Seq<Trusted>, device_id: Seq<char>) -> Seq<Trusted>
    decreases list.len(),
{
    if list.len() == 0 {
        list
    } else {
        let rest = without(list.drop_last(), device_id);
        if list.last().device_id == device_id {
            rest
        } else {
            rest.push(list.last())
        }
    }
}

/// A list after a pairing.
pub open spec fn paired(
    list: Seq<Trusted>,
    device_id: Seq<char>,
    display_name: Seq<char>,
    key: Seq<u8>,
    now: i64,
) -> Seq<Trusted> {
    without(list, device_id).push(
        Trusted { device_id, display_name, key: text::hex_bytes(key), paired_at: now },
    )
}

impl TrustedPeer {
    fn copy(&self) -> (r: Self)
        ensures
            r@ == self@,
    {
        TrustedPeer {
            device_id: self.device_id.clone(),
            display_name: self.display_name.clone(),
            noise_static_hex: self.noise_static_hex.clone(),
            paired_at: self.paired_at,
        }
    }
}

impl TrustList {
    /// Nobody is trusted.
    pub fn new() -> (r: Self)
        ensures
            r@ == Seq::<Trusted>::empty(),
    {
        let r = TrustList { trusted: Vec::new() };
        assert(r@ =~= Seq::<Trusted>::empty());
        r
    }

    fn keep_others(&mut self, device_id: &str)
        ensures
            final(self)@ == without(old(self)@, device_id@),
    {
        let ghost list = self@;
        let mut rest = TrustList { trusted: Vec::new() };
        let mut i: usize = 0;
        assert(rest@ =~= without(list.subrange(0, 0), device_id@));
        while i < self.trusted.len()
            invariant
                *self == *old(self),
                self@ == list,
                i <= self.trusted@.len(),
                rest@ == without(list.subrange(0, i as int), device_id@),
            decreases self.trusted@.len() - i,
        {
            let ghost before = rest@;
            let ghost next = list.subrange(0, i + 1);
            proof {
                assert(next.drop_last() =~= list.subrange(0, i as int));
                assert(next.last() == self.trusted@[i as int]@);
            }
            if !same_text(self.trusted[i].device_id.as_str(), device_id) {
                rest.trusted.push(self.trusted[i].copy());
                assert(rest@ =~= before.push(self.trusted@[i as int]@));
            }
            i = i + 1;
        }
        assert(list.subrange(0, list.len() as int) =~= list);
        *self = rest;
    }

    /// Tells whether a key is trusted.
    pub fn is_trusted(&self, noise_static: &[u8]) -> (r: bool)
        ensures
            r == trusts(self@, noise_static@),
    {
        let hex = encode_hex(noise_static);
        let mut i: usize = 0;
        while i < self.trusted.len()
            invariant
                i <= self.trusted@.len(),
                hex@ == text::hex_bytes(noise_static@),
                forall|j: int| 0 <= j < i ==> (#[trigger] self@[j]).key != hex@,
            decreases self.trusted@.len() - i,
        {
            if same_text(self.trusted[i].noise_static_hex.as_str(), hex.as_str()) {
                assert(self@[i as int].key == hex@);
                return true;
            }
            i = i + 1;
        }
        false
    }

    /// Takes a peer onto the list, in the place of an entry with the same
    /// identity. The list is to be written to the disk then.
    pub fn add_trusted(&mut self, device_id: &str, display_name: &str, noise_static: &[u8], now: i64)
        ensures
            final(self)@ == paired(old(self)@, device_id@, display_name@, noise_static@, now),
    {
        self.keep_others(device_id);
        let ghost before = self@;
        let peer = TrustedPeer {
            device_id: String::from_str(device_id),
            display_name: String::from_str(display_name),
            noise_static_hex: encode_hex(noise_static),
            paired_at: now,
        };
        self.trusted.push(peer);
        assert(self@ =~= before.push(peer@));
    }

    /// The list, for show.
    pub fn list_trusted(&self) -> (r: Vec<TrustedPeer>)
        ensures
            r@.map_values(|p: TrustedPeer| p@) == self@,
    {
        let mut r: Vec<TrustedPeer> = Vec::new();
        let mut i: usize = 0;
        while i < self.trusted.len()
            invariant
                i <= self.trusted@.len(),
                r@.map_values(|p: TrustedPeer| p@) == self@.subrange(0, i as int),
            decreases self.trusted@.len() - i,
        {
            let ghost before = r@.map_values(|p: TrustedPeer| p@);
            r.push(self.trusted[i].copy());
            assert(r@.map_values(|p: TrustedPeer| p@) =~= before.push(self@[i as int]));
            assert(self@.subrange(0, i + 1) =~= self@.subrange(0, i as int).push(self@[i as int]));
            i = i + 1;
        }
        assert(self@.subrange(0, self@.len() as int) =~= self@);
        r
    }

    /// Takes a peer off the list; tells whether it was on it, and the list is
    /// to be written to the disk.
    pub fn revoke(&mut self, device_id: &str) -> (r: bool)
        ensures
            final(self)@ == without(old(self)@, device_id@),
            r == (final(self)@.len() != old(self)@.len()),
            r == exists|i: int|
                0 <= i < old(self)@.len() && (#[trigger] old(self)@[i]).device_id == device_id@,
    {
        let before: usize = self.trusted.len();
        self.keep_others(device_id);
        proof {
            lemma_without(old(self)@, device_id@);
        }
        self.trusted.len() != before
    }
}

/// What stays on a list, and how long it is.
proof fn lemma_without(list: Seq<Trusted>, device_id: Seq<char>)
    ensures
        forall|i: int|
            0 <= i < without(list, device_id).len() ==> (#[trigger] without(
                list,
                device_id,
            )[i]).device_id != device_id && list.contains(without(list, device_id)[i]),
        forall|i: int|
            0 <= i < list.len() && (#[trigger] list[i]).device_id != device_id ==> without(
                list,
                device_id,
            ).contains(list[i]),
        without(list, device_id).len() <= list.len(),
        without(list, device_id).len() != list.len() <==> exists|i: int|
            0 <= i < list.len() && (#[trigger] list[i]).device_id == device_id,
    decreases list.len(),
{
    if list.len() > 0 {
        let head = list.drop_last();
        lemma_without(head, device_id);
        let rest = without(head, device_id);
        let all = without(list, device_id);
        assert forall|i: int| 0 <= i < all.len() implies (#[trigger] all[i]).device_id != device_id
            && list.contains(all[i]) by {
            if i < rest.len() {
                assert(all[i] == rest[i]);
                assert(head.contains(rest[i]));
                let j = choose|j: int| 0 <= j < head.len() && head[j] == rest[i];
                assert(list[j] == all[i]);
            } else {
                assert(all[i] == list.last());
            }
        }
        assert forall|i: int|
            0 <= i < list.len() && (#[trigger] list[i]).device_id != device_id implies all.contains(
            list[i],
        ) by {
            if i < head.len() {
                assert(head[i] == list[i]);
                assert(rest.contains(head[i]));
                let j = choose|j: int| 0 <= j < rest.len() && rest[j] == head[i];
                assert(all[j] == list[i]);
            } else {
                assert(all[all.len() - 1] == list[i]);
            }
        }
        if all.len() != list.len() {
            if list.last().device_id != device_id {
                let i = choose|i: int|
                    0 <= i < head.len() && (#[trigger] head[i]).device_id == device_id;
                assert(list[i].device_id == device_id);
            } else {
                assert(list[list.len() - 1].device_id == device_id);
            }
        }
        if exists|i: int| 0 <= i < list.len() && (#[trigger] list[i]).device_id == device_id {
            let i = choose|i: int|
                0 <= i < list.len() && (#[trigger] list[i]).device_id == device_id;
            if i < head.len() {
                assert(head[i].device_id == device_id);
            }
        }
    }
}

/// A peer that was paired is trusted from then on.
pub proof fn a_paired_peer_is_trusted(
    list: Seq<Trusted>,
    device_id: Seq<char>,
    display_name: Seq<char>,
    key: Seq<u8>,
    now: i64,
)
    ensures
        trusts(paired(list, device_id, display_name, key, now), key),
{
    let after = paired(list, device_id, display_name, key, now);
    assert(after[after.len() - 1].key == text::hex_bytes(key));
}

/// A pairing changes nothing for the keys of other identities.
pub proof fn a_pairing_keeps_the_others(
    list: Seq<Trusted>,
    device_id: Seq<char>,
    display_name: Seq<char>,
    key: Seq<u8>,
    now: i64,
    i: int,
)
    requires
        0 <= i < list.len(),
        list[i].device_id != device_id,
    ensures
        paired(list, device_id, display_name, key, now).contains(list[i]),
{
    lemma_without(list, device_id);
    let rest = without(list, device_id);
    let after = paired(list, device_id, display_name, key, now);
    assert(rest.contains(list[i]));
    let j = choose|j: int| 0 <= j < rest.len() && rest[j] == list[i];
    assert(after[j] == list[i]);
}

/// After a pairing the key that the identity had before is no longer trusted,
/// unless another identity has it too.
pub proof fn an_old_key_is_forgotten(
    list: Seq<Trusted>,
    device_id: Seq<char>,
    display_name: Seq<char>,
    key: Seq<u8>,
    now: i64,
    old_key: Seq<u8>,
)
    requires
        old_key != key,
        forall|i: int|
            0 <= i < list.len() && (#[trigger] list[i]).key == text::hex_bytes(old_key)
                ==> list[i].device_id == device_id,
    ensures
        !trusts(paired(list, device_id, display_name, key, now), old_key),
{
    lemma_without(list, device_id);
    let rest = without(list, device_id);
    let after = paired(list, device_id, display_name, key, now);
    assert forall|i: int| 0 <= i < after.len() implies (#[trigger] after[i]).key
        != text::hex_bytes(old_key) by {
        if i < rest.len() {
            assert(after[i] == rest[i]);
            assert(list.contains(rest[i]));
        } else {
            if text::hex_bytes(key) == text::hex_bytes(old_key) {
                text::hex_digits_tell_bytes_apart(key, old_key);
            }
        }
    }
}

/// A peer that was taken off the list has no entry left on it.
pub proof fn a_revoked_peer_is_gone(list: Seq<Trusted>, device_id: Seq<char>)
    ensures
        forall|i: int|
            0 <= i < without(list, device_id).len() ==> (#[trigger] without(
                list,
                device_id,
            )[i]).device_id != device_id,
{
    lemma_without(list, device_id);
}

/// A key is trusted from its pairing on, whoever else is paired, until the machine
/// is taken off the list.
pub proof fn a_key_is_trusted_from_pairing_to_revocation(
    list: (&mut TrustList, &mut TrustList),
    device_id: &str,
    name: &str,
    key: &[u8],
    now: i64,
    r: (bool, bool),
    was_there: bool,
)
    requires
        call_ensures(TrustList::add_trusted, (list.0, device_id, name, key, now), ()),
        call_ensures(TrustList::is_trusted, (&*final(list.0), key), r.0),
        *old(list.1) == *final(list.0),
        call_ensures(TrustList::revoke, (list.1, device_id), was_there),
        call_ensures(TrustList::is_trusted, (&*final(list.1), key), r.1),
        forall|i: int|
            0 <= i < old(list.0)@.len() ==> (#[trigger] old(list.0)@[i]).key != text::hex_bytes(
                key@,
            ),
    ensures
        r.0,
        !r.1,
        final(list.0)@.last().device_id == device_id@,
        final(list.0)@.last().display_name == name@,
        final(list.0)@.last().paired_at == now,
        forall|i: int|
            0 <= i < final(list.1)@.len() ==> (#[trigger] final(list.1)@[i]).device_id
                != device_id@,
{
    let paired_list = final(list.0)@;
    assert(paired_list.last().key == text::hex_bytes(key@));
    assert(paired_list[paired_list.len() - 1].key == text::hex_bytes(key@));
    lemma_without(old(list.0)@, device_id@);
    lemma_without(paired_list, device_id@);
    assert(without(paired_list, device_id@) == without(paired_list.drop_last(), device_id@));
    assert(paired_list.drop_last() =~= without(old(list.0)@, device_id@));
    assert forall|i: int| 0 <= i < final(list.1)@.len() implies (#[trigger] final(list.1)@[i]).key != text::hex_bytes(key@) by {
        assert(paired_list.contains(final(list.1)@[i]));
    }
}

/// Nobody is trusted at first.
pub proof fn nobody_is_trusted_at_first(list: TrustList, key: &[u8], r: bool)
    requires
        call_ensures(TrustList::new, (), list),
        call_ensures(TrustList::is_trusted, (&list, key), r),
    ensures
        !r,
{
}

} // verus!
