//! The samples between the thread that has them and the one that needs them.
//!
//! A ring has a writing and a reading end, each on a thread of its own. Samples
//! are held as their bit patterns. How much of the ring is taken changes while
//! a thread looks, so an end is described by what it finds when it next acts.

use ringbuf::traits::{Consumer, Observer, Producer, Split};
use vstd::prelude::*;

verus! {

/// How many samples wait at most: ten frames.
pub const RING_CAPACITY: usize = 19_200;

/// The writing end, `ringbuf::HeapProd`.
#[verifier::external_body]
pub struct RingWriter {
    end: ringbuf::HeapProd<u32>,
}

/// The reading end, `ringbuf::HeapCons`.
#[verifier::external_body]
pub struct RingReader {
    end: ringbuf::HeapCons<u32>,
}

/// The room that the writing end finds when it next puts samples in.
pub uninterp spec fn room(w: RingWriter) -> nat;

/// The samples that the reading end finds when it next takes some, the oldest
/// first: those that wait now, and those that come until then.
pub uninterp spec fn waiting(r: RingReader) -> Seq<u32>;

/// All the samples that go into the ring from now on.
pub uninterp spec fn inflow(w: RingWriter) -> Seq<u32>;

/// All the samples that are still to come out of the ring.
pub uninterp spec fn outflow(r: RingReader) -> Seq<u32>;

/// The smaller of two lengths.
pub open spec fn shorter(a: nat, b: nat) -> nat {
    if a < b {
        a
    } else {
        b
    }
}

/// `ringbuf::HeapRb::new`, split into its ends: all of it is free, and what
/// goes in comes out. It panics where the capacity is zero or the memory for
/// it cannot be had.
#[verifier::external_body]
fn heap_ring(capacity: usize) -> (r: (RingWriter, RingReader))
    requires
        0 < capacity <= RING_CAPACITY,
    ensures
        room(r.0) == capacity,
        outflow(r.1) == inflow(r.0),
{
    let (writing, reading) = ringbuf::HeapRb::<u32>::new(capacity).split();
    (RingWriter { end: writing }, RingReader { end: reading })
}

/// `ringbuf::traits::Producer::push_slice` appends samples from the front of a
/// slice, as many as there is room for, and counts them. The reading end may
/// make more room, never less.
#[verifier::external_body]
fn push_slice(writer: &mut RingWriter, samples: &[u32]) -> (n: usize)
    ensures
        n == shorter(room(*old(writer)), samples@.len()),
        inflow(*old(writer)) == samples@.subrange(0, n as int) + inflow(*final(writer)),
        room(*final(writer)) >= room(*old(writer)) - n,
{
    writer.end.push_slice(samples)
}

/// `ringbuf::traits::Consumer::pop_slice` takes the oldest samples out into
/// the front of a slice, as many as are there and fit, and counts them. It
/// leaves the rest of the slice alone. The writing end may add samples behind
/// those that stay.
#[verifier::external_body]
fn pop_slice(reader: &mut RingReader, out: &mut Vec<u32>) -> (n: usize)
    ensures
        n == shorter(waiting(*old(reader)).len(), old(out)@.len()),
        final(out)@ == waiting(*old(reader)).subrange(0, n as int) + old(out)@.subrange(
            n as int,
            old(out)@.len() as int,
        ),
        outflow(*old(reader)) == waiting(*old(reader)).subrange(0, n as int) + outflow(
            *final(reader),
        ),
        waiting(*old(reader)).subrange(n as int, waiting(*old(reader)).len() as int).is_prefix_of(
            waiting(*final(reader)),
        ),
{
    reader.end.pop_slice(out.as_mut_slice())
}

/// `ringbuf::traits::Observer::occupied_len` counts the samples that wait.
/// More may come before some are taken.
#[verifier::external_body]
pub(crate) fn occupied_len(reader: &RingReader) -> (n: usize)
    ensures
        n <= waiting(*reader).len(),
{
    reader.end.occupied_len()
}

/// A ring for samples, empty.
pub fn sample_ring() -> (r: (RingWriter, RingReader))
    ensures
        room(r.0) == RING_CAPACITY,
        outflow(r.1) == inflow(r.0),
{
    heap_ring(RING_CAPACITY)
}

/// What a device is given: the samples that came, and silence behind them.
pub open spec fn with_silence(out: Seq<u32>, came: int) -> Seq<u32> {
    Seq::new(out.len(), |i: int| if i < came { out[i] } else { 0 })
}

/// Replaces what stands behind the samples that came by silence.
pub fn silence_after(out: &mut Vec<u32>, came: usize)
    requires
        came <= old(out)@.len(),
    ensures
        final(out)@ == with_silence(old(out)@, came as int),
{
    let len: usize = out.len();
    let mut i: usize = came;
    while i < len
        invariant
            came <= i <= len,
            len == old(out)@.len(),
            out@.len() == len,
            forall|j: int| 0 <= j < came ==> out@[j] == old(out)@[j],
            forall|j: int| came <= j < i ==> out@[j] == 0,
        decreases len - i,
    {
        out.set(i, 0);
        i = i + 1;
    }
}

impl RingWriter {
    /// Puts samples into the ring; tells how many had no room and are lost.
    pub fn enqueue(&mut self, samples: &[u32]) -> (lost: usize)
        ensures
            lost == samples@.len() - shorter(room(*old(self)), samples@.len()),
            inflow(*old(self)) == samples@.subrange(0, samples@.len() - lost) + inflow(
                *final(self),
            ),
            room(*final(self)) + samples@.len() >= room(*old(self)) + lost,
    {
        let written: usize = push_slice(self, samples);
        samples.len() - written
    }
}

impl RingReader {
    /// Fills what a device asks for with the oldest samples; tells how many
    /// were missing. They are silent, since a device must not wait.
    pub fn fill_callback(&mut self, out: &mut Vec<u32>) -> (missing: usize)
        ensures
            ({
                let n = shorter(waiting(*old(self)).len(), old(out)@.len()) as int;
                let came = waiting(*old(self)).subrange(0, n);
                &&& missing == old(out)@.len() - n
                &&& final(out)@ == came + Seq::new(missing as nat, |i: int| 0u32)
                &&& outflow(*old(self)) == came + outflow(*final(self))
                &&& waiting(*old(self)).subrange(
                    n,
                    waiting(*old(self)).len() as int,
                ).is_prefix_of(waiting(*final(self)))
            }),
    {
        let came: usize = pop_slice(self, out);
        let len: usize = out.len();
        silence_after(out, came);
        len - came
    }

    /// Takes as many samples as `frame` is long; tells whether they were all
    /// there. What was taken of a frame that was not whole is lost.
    pub fn take_frame(&mut self, frame: &mut Vec<u32>) -> (whole: bool)
        ensures
            ({
                let n = shorter(waiting(*old(self)).len(), old(frame)@.len()) as int;
                let came = waiting(*old(self)).subrange(0, n);
                &&& whole == (n == old(frame)@.len())
                &&& final(frame)@ == came + old(frame)@.subrange(n, old(frame)@.len() as int)
                &&& outflow(*old(self)) == came + outflow(*final(self))
                &&& waiting(*old(self)).subrange(
                    n,
                    waiting(*old(self)).len() as int,
                ).is_prefix_of(waiting(*final(self)))
            }),
    {
        let taken: usize = pop_slice(self, frame);
        taken == frame.len()
    }
}

/// Samples come out of a ring as they went in, and in their order, however
/// many calls put them in and took them out.
pub proof fn samples_keep_their_order(
    flow: Seq<u32>,
    put: Seq<u32>,
    to_put: Seq<u32>,
    taken: Seq<u32>,
    to_take: Seq<u32>,
)
    requires
        flow == put + to_put,
        flow == taken + to_take,
    ensures
        forall|i: int| 0 <= i < put.len() && i < taken.len() ==> taken[i] == put[i],
{
    assert forall|i: int| 0 <= i < put.len() && i < taken.len() implies taken[i] == put[i] by {
        assert(flow[i] == put[i]);
        assert(flow[i] == taken[i]);
    }
}

/// Where there is room, every sample goes in; else the first of them do, and no
/// more are lost than there was no room for.
pub proof fn samples_go_in_while_there_is_room(w: &mut RingWriter, samples: &[u32], lost: usize)
    requires
        call_ensures(RingWriter::enqueue, (w, samples), lost),
    ensures
        samples@.len() <= room(*old(w)) ==> lost == 0 && inflow(*old(w)) == samples@ + inflow(
            *final(w),
        ),
        samples@.len() > room(*old(w)) ==> lost + room(*old(w)) == samples@.len(),
        lost <= samples@.len(),
        inflow(*old(w)) == samples@.subrange(0, samples@.len() - lost) + inflow(*final(w)),
{
    assert(samples@.subrange(0, samples@.len() as int) =~= samples@);
}

/// A device is given what waits, in its order, and silence where nothing waits
/// any more. Its number of samples stays.
pub proof fn a_device_is_given_what_waits(
    q: &mut RingReader,
    out: &mut Vec<u32>,
    missing: usize,
    i: int,
)
    requires
        call_ensures(RingReader::fill_callback, (q, out), missing),
        0 <= i < old(out)@.len(),
    ensures
        final(out)@.len() == old(out)@.len(),
        i < waiting(*old(q)).len() ==> final(out)@[i] == waiting(*old(q))[i],
        i >= waiting(*old(q)).len() ==> final(out)@[i] == 0,
        missing == 0 <==> old(out)@.len() <= waiting(*old(q)).len(),
        missing > 0 ==> missing + waiting(*old(q)).len() == old(out)@.len(),
{
}

/// A frame is whole where enough waits, and then holds what waited first.
pub proof fn a_frame_holds_what_waited(
    q: &mut RingReader,
    frame: &mut Vec<u32>,
    whole: bool,
    i: int,
)
    requires
        call_ensures(RingReader::take_frame, (q, frame), whole),
        0 <= i < old(frame)@.len(),
    ensures
        whole <==> old(frame)@.len() <= waiting(*old(q)).len(),
        final(frame)@.len() == old(frame)@.len(),
        i < waiting(*old(q)).len() ==> final(frame)@[i] == waiting(*old(q))[i],
        i >= waiting(*old(q)).len() ==> final(frame)@[i] == old(frame)@[i],
{
}

/// What came is kept, and all behind it is silent.
pub proof fn silence_follows_what_came(out: &mut Vec<u32>, came: usize, i: int)
    requires
        call_ensures(silence_after, (out, came), ()),
        0 <= i < old(out)@.len(),
    ensures
        final(out)@.len() == old(out)@.len(),
        i < came ==> final(out)@[i] == old(out)@[i],
        i >= came ==> final(out)@[i] == 0,
{
}

} // verus!
