//! How long messages take to the peer and back.
//!
//! The last round trips are kept in a ring, as bit patterns of milliseconds in
//! single precision. The patterns of numbers that are not negative have the
//! order of the numbers.

use crate::input::speed::{self, INFINITY_BITS, SIGN_BITS};
use vstd::prelude::*;

verus! {

/// How many round trips are kept.
pub const RING: usize = 128;

pub const HISTOGRAM_BINS: usize = 8;

/// The patterns of 2, 5, 10, 20, 50, 100 and 200 milliseconds, the upper
/// bounds of the bins but the last.
pub const BIN_EDGES: [u32; 7] = [
    0x4000_0000,
    0x40a0_0000,
    0x4120_0000,
    0x41a0_0000,
    0x4248_0000,
    0x42c8_0000,
    0x4348_0000,
];

/// The bin of a round trip.
pub open spec fn bin(v: u32) -> int {
    if v < 0x4000_0000 {
        0
    } else if v < 0x40a0_0000 {
        1
    } else if v < 0x4120_0000 {
        2
    } else if v < 0x41a0_0000 {
        3
    } else if v < 0x4248_0000 {
        4
    } else if v < 0x42c8_0000 {
        5
    } else if v < 0x4348_0000 {
        6
    } else {
        7
    }
}

/// How many round trips fall into a bin.
pub open spec fn in_bin(s: Seq<u32>, k: int) -> nat
    decreases s.len(),
{
    if s.len() == 0 {
        0
    } else {
        in_bin(s.drop_last(), k) + if bin(s.last()) == k {
            1nat
        } else {
            0nat
        }
    }
}

/// Whether a pattern is a round trip: a finite number that is not negative.
pub open spec fn is_round_trip(bits: u32) -> bool {
    speed::finite(bits) && bits <= SIGN_BITS
}

/// The pattern under which a round trip is kept: zero has one pattern.
pub open spec fn kept(bits: u32) -> u32 {
    if bits == SIGN_BITS {
        0
    } else {
        bits
    }
}

/// The round trips after one more: the oldest leaves a full ring.
pub open spec fn recorded(s: Seq<u32>, bits: u32) -> Seq<u32> {
    if !is_round_trip(bits) {
        s
    } else if s.len() < RING {
        s.push(kept(bits))
    } else {
        s.drop_first().push(kept(bits))
    }
}

/// The last round trips.
pub struct Latency {
    samples: [u32; 128],
    head: usize,
    len: usize,
}

/// What is told of them. The mean and the percentiles are taken from `sorted`.
pub struct LatencySnapshot {
    pub samples: u32,
    pub last_bits: Option<u32>,
    pub min_bits: Option<u32>,
    pub max_bits: Option<u32>,
    pub sorted: Vec<u32>,
    pub histogram: Vec<u32>,
}

impl View for Latency {
    type V = Seq<u32>;

    /// The round trips, the oldest first.
    closed spec fn view(&self) -> Seq<u32> {
        Seq::new(
            self.len as nat,
            |i: int| self.samples@[(self.head + RING - self.len + i) % RING as int],
        )
    }
}

/// Whether a row goes up.
pub open spec fn ascending(s: Seq<u32>) -> bool {
    forall|i: int, j: int| 0 <= i <= j < s.len() ==> s[i] <= s[j]
}

/// Puts a number into a row that goes up, behind those that are not larger.
fn insert_sorted(v: &mut Vec<u32>, x: u32)
    requires
        ascending(old(v)@),
    ensures
        ascending(final(v)@),
        final(v)@.to_multiset() == old(v)@.to_multiset().insert(x),
        final(v)@.len() == old(v)@.len() + 1,
{
    let mut i: usize = v.len();
    while i > 0 && v[i - 1] > x
        invariant
            i <= v@.len(),
            v@ == old(v)@,
            forall|j: int| i <= j < v@.len() ==> v@[j] > x,
        decreases i,
    {
        i = i - 1;
    }
    v.insert(i, x);
    proof {
        broadcast use vstd::seq_lib::group_to_multiset_ensures;

        assert(v@ =~= old(v)@.insert(i as int, x));
        assert(ascending(v@)) by {
            assert forall|a: int, b: int| 0 <= a <= b < v@.len() implies v@[a] <= v@[b] by {
                if a < i && b == i {
                    assert(v@[a] == old(v)@[a]);
                    assert(old(v)@[a] <= old(v)@[i - 1]);
                }
            }
        }
    }
}

impl Latency {
    pub closed spec fn well_formed(self) -> bool {
        self.head < RING && self.len <= RING
    }

    pub fn new() -> (r: Self)
        ensures
            r.well_formed(),
            r@ == Seq::<u32>::empty(),
    {
        let r = Latency { samples: [0;128], head: 0, len: 0 };
        assert(r@ =~= Seq::<u32>::empty());
        r
    }

    /// Takes a round trip; one that is no number, infinite or negative is left
    /// out.
    pub fn record_rtt_ms(&mut self, bits: u32)
        requires
            old(self).well_formed(),
        ensures
            final(self).well_formed(),
            final(self)@ == recorded(old(self)@, bits),
    {
        if !(bits < INFINITY_BITS || bits == SIGN_BITS) {
            return;
        }
        let v: u32 = if bits == SIGN_BITS {
            0
        } else {
            bits
        };
        let head: usize = self.head;
        self.samples[head] = v;
        self.head = (head + 1) % RING;
        if self.len < RING {
            self.len = self.len + 1;
        }
        proof {
            let want = recorded(old(self)@, bits);
            assert(self@.len() == want.len());
            let n = old(self).len as int;
            assert forall|i: int| 0 <= i < self@.len() implies self@[i] == want[i] by {
                let at = (self.head + RING - self.len + i) % RING as int;
                if n < RING {
                    assert(at == (head + RING - n + i) % RING as int);
                    if i < n {
                        assert(at != head);
                        assert(want[i] == old(self)@[i]);
                    } else {
                        assert(at == head);
                    }
                } else {
                    assert(at == (head + 1 + i) % RING as int);
                    if i < RING - 1 {
                        assert(at != head);
                        assert(want[i] == old(self)@[i + 1]);
                        assert((old(self).head + RING - old(self).len + (i + 1)) % RING as int
                            == at);
                    } else {
                        assert(at == head);
                    }
                }
            }
            assert(self@ =~= want);
        }
    }

    /// Forgets everything, at the start of a session.
    pub fn reset(&mut self)
        ensures
            final(self).well_formed(),
            final(self)@ == Seq::<u32>::empty(),
    {
        self.head = 0;
        self.len = 0;
        assert(self@ =~= Seq::<u32>::empty());
    }

    /// Tells of the round trips.
    pub fn snapshot(&self) -> (r: LatencySnapshot)
        requires
            self.well_formed(),
        ensures
            r.samples == self@.len(),
            r.last_bits == (if self@.len() == 0 {
                None
            } else {
                Some(self@.last())
            }),
            ascending(r.sorted@),
            r.sorted@.to_multiset() == self@.to_multiset(),
            r.sorted@.len() == self@.len(),
            r.min_bits == (if self@.len() == 0 {
                None
            } else {
                Some(r.sorted@.first())
            }),
            r.max_bits == (if self@.len() == 0 {
                None
            } else {
                Some(r.sorted@.last())
            }),
            r.histogram@.len() == HISTOGRAM_BINS,
            forall|k: int| 0 <= k < HISTOGRAM_BINS ==> #[trigger] r.histogram@[k] == in_bin(self@, k),
    {
        let n: usize = self.len;
        let mut sorted: Vec<u32> = Vec::new();
        let mut histogram: Vec<u32> = Vec::new();
        let mut b: usize = 0;
        while b < HISTOGRAM_BINS
            invariant
                b <= HISTOGRAM_BINS,
                histogram@.len() == b,
                forall|k: int| 0 <= k < b ==> histogram@[k] == 0,
            decreases HISTOGRAM_BINS - b,
        {
            histogram.push(0);
            b = b + 1;
        }
        let mut last_bits: Option<u32> = None;
        let mut i: usize = 0;
        assert(self@.subrange(0, 0) =~= Seq::<u32>::empty());
        assert(sorted@.to_multiset() =~= self@.subrange(0, 0).to_multiset()) by {
            assert(sorted@ =~= self@.subrange(0, 0));
        }
        while i < n
            invariant
                self.well_formed(),
                n == self.len,
                n == self@.len(),
                i <= n,
                ascending(sorted@),
                sorted@.len() == i,
                sorted@.to_multiset() == self@.subrange(0, i as int).to_multiset(),
                last_bits == (if i == 0 {
                    None
                } else {
                    Some(self@[i - 1])
                }),
                histogram@.len() == HISTOGRAM_BINS,
                forall|k: int|
                    0 <= k < HISTOGRAM_BINS ==> #[trigger] histogram@[k] == in_bin(
                        self@.subrange(0, i as int),
                        k,
                    ),
                forall|k: int| 0 <= k < HISTOGRAM_BINS ==> #[trigger] histogram@[k] <= i,
            decreases n - i,
        {
            let v: u32 = self.samples[(self.head + RING - n + i) % RING];
            assert(v == self@[i as int]);
            let ghost part = self@.subrange(0, i as int);
            let ghost next = self@.subrange(0, i + 1);
            proof {
                broadcast use vstd::seq_lib::group_to_multiset_ensures;

                assert(next =~= part.push(v));
                assert(next.drop_last() =~= part);
                assert(next.last() == v);
            }
            let k: usize = bin_of(v);
            let ghost counts = histogram@;
            let count: u32 = histogram[k];
            histogram.set(k, count + 1);
            assert forall|j: int| 0 <= j < HISTOGRAM_BINS implies #[trigger] histogram@[j] == in_bin(
                next,
                j,
            ) && histogram@[j] <= i + 1 by {
                assert(counts[j] == in_bin(part, j));
                assert(counts[j] <= i);
            }
            insert_sorted(&mut sorted, v);
            last_bits = Some(v);
            i = i + 1;
        }
        assert(self@.subrange(0, n as int) =~= self@);
        let min_bits = if n == 0 {
            None
        } else {
            Some(sorted[0])
        };
        let max_bits = if n == 0 {
            None
        } else {
            Some(sorted[n - 1])
        };
        LatencySnapshot { samples: n as u32, last_bits, min_bits, max_bits, sorted, histogram }
    }
}

fn bin_of(v: u32) -> (r: usize)
    ensures
        r == bin(v),
        r < HISTOGRAM_BINS,
{
    let mut k: usize = 0;
    while k < 7 && v >= BIN_EDGES[k]
        invariant
            k <= 7,
            k >= 1 ==> v >= 0x4000_0000,
            k >= 2 ==> v >= 0x40a0_0000,
            k >= 3 ==> v >= 0x4120_0000,
            k >= 4 ==> v >= 0x41a0_0000,
            k >= 5 ==> v >= 0x4248_0000,
            k >= 6 ==> v >= 0x42c8_0000,
            k >= 7 ==> v >= 0x4348_0000,
        decreases 7 - k,
    {
        k = k + 1;
    }
    k
}

/// Every round trip is counted in one bin and no other.
pub proof fn every_round_trip_has_a_bin(s: Seq<u32>)
    ensures
        in_bin(s, 0) + in_bin(s, 1) + in_bin(s, 2) + in_bin(s, 3) + in_bin(s, 4) + in_bin(s, 5)
            + in_bin(s, 6) + in_bin(s, 7) == s.len(),
    decreases s.len(),
{
    if s.len() > 0 {
        every_round_trip_has_a_bin(s.drop_last());
    }
}

/// No more than the last round trips are kept, and the newest is one of them.
pub proof fn the_newest_round_trips_are_kept(s: Seq<u32>, bits: u32)
    requires
        s.len() <= RING,
        is_round_trip(bits),
    ensures
        recorded(s, bits).len() <= RING,
        recorded(s, bits).last() == kept(bits),
{
}

/// Round trips are counted by what they took: below two milliseconds, then below
/// five, ten, twenty, fifty, a hundred and two hundred, and the rest.
pub proof fn round_trips_are_counted_by_their_length(v: u32, k: int)
    requires
        bin(v) == k,
    ensures
        0 <= k <= 7,
        v < 0x4000_0000 <==> k == 0,
        v < 0x40a0_0000 <==> k <= 1,
        v < 0x4120_0000 <==> k <= 2,
        v < 0x41a0_0000 <==> k <= 3,
        v < 0x4248_0000 <==> k <= 4,
        v < 0x42c8_0000 <==> k <= 5,
        v < 0x4348_0000 <==> k <= 6,
{
}

/// A round trip that was measured is the last one that is shown, between the
/// shortest and the longest, and one more is counted while there is room; after a
/// reset nothing is shown.
pub proof fn a_measured_round_trip_is_shown(
    l: (&mut Latency, &mut Latency),
    bits: u32,
    r: (LatencySnapshot, LatencySnapshot),
)
    requires
        0 < bits < 0x7f80_0000,
        old(l.0).well_formed(),
        call_ensures(Latency::record_rtt_ms, (l.0, bits), ()),
        call_ensures(Latency::snapshot, (&*final(l.0),), r.0),
        *old(l.1) == *final(l.0),
        call_ensures(Latency::reset, (l.1,), ()),
        call_ensures(Latency::snapshot, (&*final(l.1),), r.1),
    ensures
        r.0.last_bits == Some(bits),
        r.0.samples >= 1,
        r.0.min_bits is Some && r.0.min_bits->0 <= bits,
        r.0.max_bits is Some && r.0.max_bits->0 >= bits,
        r.1.samples == 0,
        r.1.last_bits is None && r.1.min_bits is None && r.1.max_bits is None,
{
    let s = final(l.0)@;
    assert(s.last() == bits);
    broadcast use vstd::seq_lib::group_to_multiset_ensures;

    assert(s.contains(bits)) by {
        assert(s[s.len() - 1] == bits);
    }
    s.to_multiset_ensures();
    r.0.sorted@.to_multiset_ensures();
    assert(s.to_multiset().count(bits) > 0);
    assert(r.0.sorted@.contains(bits));
    let i = choose|i: int| 0 <= i < r.0.sorted@.len() && r.0.sorted@[i] == bits;
    assert(r.0.sorted@[0] <= r.0.sorted@[i] <= r.0.sorted@[r.0.sorted@.len() - 1]);
}

} // verus!
