//! Touchpad contacts by identifier, and the transitions between two frames.

use crate::input::events::TouchpadContact;
use vstd::prelude::*;

verus! {

/// Contacts in ascending order of their identifiers, each identifier once.
pub open spec fn ordered(s: Seq<TouchpadContact>) -> bool {
    forall|i: int, j: int| 0 <= i < j < s.len() ==> (#[trigger] s[i]).id < (#[trigger] s[j]).id
}

/// Whether a contact with this identifier is among the contacts.
pub open spec fn names(s: Seq<TouchpadContact>, id: u32) -> bool {
    exists|i: int| 0 <= i < s.len() && (#[trigger] s[i]).id == id
}

/// The contacts by identifier; the last of several with one identifier counts.
pub open spec fn by_id(s: Seq<TouchpadContact>) -> Map<u32, TouchpadContact>
    decreases s.len(),
{
    if s.len() == 0 {
        Map::empty()
    } else {
        by_id(s.drop_last()).insert(s.last().id, s.last())
    }
}

/// The contacts that are down, ordered by identifier.
#[derive(Debug, PartialEq, Eq)]
pub struct ContactTable {
    entries: Vec<TouchpadContact>,
}

impl View for ContactTable {
    type V = Seq<TouchpadContact>;

    closed spec fn view(&self) -> Seq<TouchpadContact> {
        self.entries@
    }
}

impl ContactTable {
    pub open spec fn well_formed(self) -> bool {
        ordered(self@)
    }

    /// A table without contacts.
    pub fn new() -> (r: Self)
        ensures
            r.well_formed(),
            r@ == Seq::<TouchpadContact>::empty(),
    {
        ContactTable { entries: Vec::new() }
    }

    /// How many contacts are down.
    pub fn len(&self) -> (r: usize)
        ensures
            r == self@.len(),
    {
        self.entries.len()
    }

    /// The contacts, in order.
    pub fn contacts(&self) -> (r: &[TouchpadContact])
        ensures
            r@ == self@,
    {
        self.entries.as_slice()
    }

    /// A copy of the table.
    pub fn copy(&self) -> (r: Self)
        ensures
            r@ == self@,
    {
        let mut entries: Vec<TouchpadContact> = Vec::new();
        let mut i: usize = 0;
        while i < self.entries.len()
            invariant
                i <= self.entries@.len(),
                entries@ == self.entries@.take(i as int),
            decreases self.entries@.len() - i,
        {
            entries.push(self.entries[i]);
            i = i + 1;
            assert(entries@ =~= self.entries@.take(i as int));
        }
        assert(entries@ =~= self.entries@);
        ContactTable { entries }
    }

    /// Forgets every contact.
    pub fn clear(&mut self)
        ensures
            final(self).well_formed(),
            final(self)@ == Seq::<TouchpadContact>::empty(),
    {
        self.entries.clear();
    }

    /// The position of the first contact whose identifier is not below `id`.
    fn position(&self, id: u32) -> (r: usize)
        requires
            self.well_formed(),
        ensures
            r <= self@.len(),
            forall|j: int| 0 <= j < r ==> (#[trigger] self@[j]).id < id,
            forall|j: int| r <= j < self@.len() ==> (#[trigger] self@[j]).id >= id,
    {
        let mut i: usize = 0;
        while i < self.entries.len() && self.entries[i].id < id
            invariant
                i <= self.entries@.len(),
                forall|j: int| 0 <= j < i ==> (#[trigger] self@[j]).id < id,
            decreases self.entries@.len() - i,
        {
            i = i + 1;
        }
        i
    }

    /// Whether a contact with this identifier is down.
    pub fn contains(&self, id: u32) -> (r: bool)
        requires
            self.well_formed(),
        ensures
            r == names(self@, id),
    {
        let i: usize = self.position(id);
        i < self.entries.len() && self.entries[i].id == id
    }

    /// Adds a contact, or replaces the one with its identifier.
    pub fn insert(&mut self, contact: TouchpadContact)
        requires
            old(self).well_formed(),
        ensures
            final(self).well_formed(),
            by_id(final(self)@) == by_id(old(self)@).insert(contact.id, contact),
            forall|id: u32| #[trigger]
                names(final(self)@, id) == (id == contact.id || names(old(self)@, id)),
    {
        let i: usize = self.position(contact.id);
        let ghost before = self@;
        if i < self.entries.len() && self.entries[i].id == contact.id {
            self.entries[i] = contact;
        } else {
            self.entries.insert(i, contact);
        }
        proof {
            let after = self@;
            assert forall|j: int, k: int| 0 <= j < k < after.len() implies (#[trigger] after[j]).id
                < (#[trigger] after[k]).id by {}
            lemma_by_id(before);
            lemma_by_id(after);
            assert forall|id: u32| #[trigger]
                names(after, id) == (id == contact.id || names(before, id)) by {
                if names(before, id) && id != contact.id {
                    let j = choose|j: int| 0 <= j < before.len() && (#[trigger] before[j]).id == id;
                    let k = if j < i || after.len() == before.len() {
                        j
                    } else {
                        j + 1
                    };
                    assert(after[k].id == id);
                }
                assert(after[i as int].id == contact.id);
            }
            assert forall|id: u32| names(after, id) && id != contact.id implies by_id(after)[id]
                == by_id(before)[id] by {
                let j = choose|j: int| 0 <= j < before.len() && (#[trigger] before[j]).id == id;
                let k = if j < i || after.len() == before.len() {
                    j
                } else {
                    j + 1
                };
                assert(after[k] == before[j]);
            }
            assert(by_id(after)[contact.id] == contact) by {
                assert(after[i as int] == contact);
            }
            assert(by_id(after) =~= by_id(before).insert(contact.id, contact));
        }
    }

    /// Removes the contact with this identifier, if there is one.
    pub fn remove(&mut self, id: u32)
        requires
            old(self).well_formed(),
        ensures
            final(self).well_formed(),
            by_id(final(self)@) == by_id(old(self)@).remove(id),
            forall|k: u32| #[trigger] names(final(self)@, k) == (k != id && names(old(self)@, k)),
    {
        let i: usize = self.position(id);
        let ghost before = self@;
        if i < self.entries.len() && self.entries[i].id == id {
            self.entries.remove(i);
        }
        proof {
            let after = self@;
            lemma_by_id(before);
            assert forall|j: int, k: int| 0 <= j < k < after.len() implies (#[trigger] after[j]).id
                < (#[trigger] after[k]).id by {}
            lemma_by_id(after);
            assert forall|k: u32| #[trigger] names(after, k) == (k != id && names(before, k)) by {
                if names(before, k) && k != id {
                    let j = choose|j: int| 0 <= j < before.len() && (#[trigger] before[j]).id == k;
                    let m = if j < i || after.len() == before.len() {
                        j
                    } else {
                        j - 1
                    };
                    assert(after[m].id == k);
                }
                if names(after, k) {
                    let m = choose|m: int| 0 <= m < after.len() && (#[trigger] after[m]).id == k;
                    let j = if m < i || after.len() == before.len() {
                        m
                    } else {
                        m + 1
                    };
                    assert(before[j].id == k);
                }
            }
            assert forall|k: u32| names(after, k) implies by_id(after)[k] == by_id(before)[k] by {
                let m = choose|m: int| 0 <= m < after.len() && (#[trigger] after[m]).id == k;
                let j = if m < i || after.len() == before.len() {
                    m
                } else {
                    m + 1
                };
                assert(before[j] == after[m]);
            }
            assert(by_id(after) =~= by_id(before).remove(id));
        }
    }

    /// The table of a snapshot; the last of several contacts with one
    /// identifier counts.
    pub fn of(contacts: &[TouchpadContact]) -> (r: Self)
        ensures
            r.well_formed(),
            by_id(r@) == by_id(contacts@),
            ordered(contacts@) ==> r@ == contacts@,
    {
        let mut table = ContactTable::new();
        let mut i: usize = 0;
        assert(contacts@.take(0) =~= Seq::empty());
        while i < contacts.len()
            invariant
                i <= contacts@.len(),
                table.well_formed(),
                by_id(table@) == by_id(contacts@.take(i as int)),
            decreases contacts@.len() - i,
        {
            table.insert(contacts[i]);
            i = i + 1;
            assert(contacts@.take(i as int).drop_last() =~= contacts@.take(i - 1));
        }
        assert(contacts@.take(i as int) =~= contacts@);
        proof {
            if ordered(contacts@) {
                lemma_ordered_unique(table@, contacts@);
            }
        }
        table
    }
}

/// In an ordered sequence the map holds each contact under its identifier.
pub proof fn lemma_by_id(s: Seq<TouchpadContact>)
    requires
        ordered(s),
    ensures
        forall|id: u32| #[trigger] by_id(s).dom().contains(id) <==> names(s, id),
        forall|i: int| 0 <= i < s.len() ==> by_id(s)[(#[trigger] s[i]).id] == s[i],
    decreases s.len(),
{
    if s.len() > 0 {
        let rest = s.drop_last();
        assert(ordered(rest)) by {
            assert forall|i: int, j: int| 0 <= i < j < rest.len() implies (#[trigger] rest[i]).id < (
            #[trigger] rest[j]).id by {
                assert(s[i].id < s[j].id);
            }
        }
        lemma_by_id(rest);
        assert forall|id: u32| #[trigger] by_id(s).dom().contains(id) <==> names(s, id) by {
            if names(s, id) && id != s.last().id {
                let i = choose|i: int| 0 <= i < s.len() && (#[trigger] s[i]).id == id;
                assert(rest[i].id == id);
                assert(by_id(rest).dom().contains(id));
            }
            if by_id(rest).dom().contains(id) {
                let i = choose|i: int| 0 <= i < rest.len() && (#[trigger] rest[i]).id == id;
                assert(s[i].id == id);
            }
            assert(s[s.len() - 1].id == s.last().id);
            assert(by_id(s).dom() =~= by_id(rest).dom().insert(s.last().id));
        }
        assert forall|i: int| 0 <= i < s.len() implies by_id(s)[(#[trigger] s[i]).id] == s[i] by {
            if i < s.len() - 1 {
                assert(rest[i] == s[i]);
                assert(s[i].id < s[s.len() - 1].id);
            }
        }
    }
}

/// Two ordered sequences with the same map are the same sequence.
pub proof fn lemma_ordered_unique(a: Seq<TouchpadContact>, b: Seq<TouchpadContact>)
    requires
        ordered(a),
        ordered(b),
        by_id(a) == by_id(b),
    ensures
        a == b,
    decreases a.len(),
{
    lemma_by_id(a);
    lemma_by_id(b);
    if a.len() == 0 {
        if b.len() > 0 {
            assert(names(b, b[0].id));
            assert(by_id(a).dom().contains(b[0].id));
            assert(names(a, b[0].id));
        }
        assert(a =~= b);
    } else {
        assert(names(a, a.last().id)) by {
            assert(a[a.len() - 1].id == a.last().id);
        }
        assert(by_id(b).dom().contains(a.last().id));
        let k = choose|k: int| 0 <= k < b.len() && (#[trigger] b[k]).id == a.last().id;
        assert(names(b, b.last().id)) by {
            assert(b[b.len() - 1].id == b.last().id);
        }
        assert(by_id(a).dom().contains(b.last().id));
        let m = choose|m: int| 0 <= m < a.len() && (#[trigger] a[m]).id == b.last().id;
        assert(a.last().id == b.last().id) by {
            if k < b.len() - 1 {
                assert(b[k].id < b[b.len() - 1].id);
            }
            if m < a.len() - 1 {
                assert(a[m].id < a[a.len() - 1].id);
            }
        }
        assert(a.last() == b.last()) by {
            assert(by_id(a)[a[a.len() - 1].id] == a[a.len() - 1]);
            assert(by_id(b)[b[b.len() - 1].id] == b[b.len() - 1]);
        }
        let ra = a.drop_last();
        let rb = b.drop_last();
        assert(ordered(ra)) by {
            assert forall|i: int, j: int| 0 <= i < j < ra.len() implies (#[trigger] ra[i]).id < (
            #[trigger] ra[j]).id by {
                assert(a[i].id < a[j].id);
            }
        }
        assert(ordered(rb)) by {
            assert forall|i: int, j: int| 0 <= i < j < rb.len() implies (#[trigger] rb[i]).id < (
            #[trigger] rb[j]).id by {
                assert(b[i].id < b[j].id);
            }
        }
        lemma_by_id(ra);
        lemma_by_id(rb);
        let id = a.last().id;
        assert(!names(ra, id)) by {
            if names(ra, id) {
                let i = choose|i: int| 0 <= i < ra.len() && (#[trigger] ra[i]).id == id;
                assert(a[i].id < a[a.len() - 1].id);
            }
        }
        assert(!names(rb, id)) by {
            if names(rb, id) {
                let i = choose|i: int| 0 <= i < rb.len() && (#[trigger] rb[i]).id == id;
                assert(b[i].id < b[b.len() - 1].id);
            }
        }
        assert(by_id(ra) =~= by_id(a).remove(id));
        assert(by_id(rb) =~= by_id(b).remove(id));
        lemma_ordered_unique(ra, rb);
        assert(a =~= ra.push(a.last()));
        assert(b =~= rb.push(b.last()));
    }
}

} // verus!
