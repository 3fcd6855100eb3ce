//! Contact streams of the local precision touchpad on their way to the peer.

use crate::input::contacts::{self, ContactTable};
use crate::input::events::{TouchpadAction, TouchpadContact, TouchpadEvent, MAX_TOUCHPAD_CONTACTS};
use crate::input::touchpad::{normalize_i32, normalized, TERMINAL_REPEAT_COUNT};
use vstd::prelude::*;

verus! {

/// How the shared translation of two fingers is to be scaled in a frame.
#[derive(Debug, Clone, Copy, PartialEq, Eq, Structural)]
pub enum ScrollStep {
    /// The frame does not hold two contacts: it is sent as it is.
    Copy,
    /// Two contacts that were not the last pair: their centre becomes the
    /// origin, and the frame is sent as it is.
    Restart,
    /// The same two contacts: their centre has moved by a distance to scale.
    Continue,
}

/// Which pair of contacts the two-finger scroll follows.
#[derive(Debug, Clone, Copy, PartialEq, Eq)]
pub struct TwoFingerScrollTransform {
    pub contact_ids: Option<(u32, u32)>,
}

impl TwoFingerScrollTransform {
    pub fn new() -> (r: Self)
        ensures
            r.contact_ids is None,
    {
        TwoFingerScrollTransform { contact_ids: None }
    }

    /// Forgets the pair.
    pub fn reset(&mut self)
        ensures
            final(self).contact_ids is None,
    {
        self.contact_ids = None;
    }

    /// Follows the pair of a frame.
    pub fn apply(&mut self, contacts: &[TouchpadContact]) -> (r: ScrollStep)
        ensures
            contacts@.len() != 2 ==> r == ScrollStep::Copy && final(self).contact_ids is None,
            contacts@.len() == 2 ==> {
                let pair = (contacts@[0].id, contacts@[1].id);
                &&& final(self).contact_ids == Some(pair)
                &&& r == if old(self).contact_ids == Some(pair) {
                    ScrollStep::Continue
                } else {
                    ScrollStep::Restart
                }
            },
    {
        if contacts.len() != 2 {
            self.reset();
            return ScrollStep::Copy;
        }
        let first: u32 = contacts[0].id;
        let second: u32 = contacts[1].id;
        let known = match self.contact_ids {
            Some((a, b)) => a == first && b == second,
            None => false,
        };
        self.contact_ids = Some((first, second));
        if known {
            ScrollStep::Continue
        } else {
            ScrollStep::Restart
        }
    }
}

/// The contacts of the local touchpad and the stream they are sent in.
#[derive(Debug, PartialEq, Eq)]
pub struct CaptureState {
    pub next_stream_id: u32,
    pub stream_id: Option<u32>,
    pub contacts: ContactTable,
    pub scroll_transform: TwoFingerScrollTransform,
}

/// The stream identifier after `id`; 0 is never one.
pub open spec fn following_stream(id: u32) -> u32 {
    if id == u32::MAX {
        1
    } else {
        (id + 1) as u32
    }
}

/// The frames that end a stream.
pub open spec fn ends_stream(events: Seq<TouchpadEvent>, stream: u32) -> bool {
    &&& events.len() == TERMINAL_REPEAT_COUNT
    &&& forall|i: int| 0 <= i < events.len() ==> (#[trigger] events[i]).is_end_of(stream)
}

/// Whether a capture is left without a stream and contacts; the numbers of the
/// streams go on.
pub open spec fn emptied(pre: CaptureState, post: CaptureState) -> bool {
    &&& post.stream_id is None
    &&& post.next_stream_id == pre.next_stream_id
    &&& post.contacts@.len() == 0
    &&& post.scroll_transform.contact_ids is None
}

/// How a snapshot of the contacts changes the capture, and what is sent of it.
pub open spec fn snapshot_taken(
    pre: CaptureState,
    post: CaptureState,
    contacts: Seq<TouchpadContact>,
    scaled: Seq<TouchpadContact>,
    events: Seq<TouchpadEvent>,
) -> bool {
    if contacts.len() == 0 {
        &&& emptied(pre, post)
        &&& match pre.stream_id {
            Some(stream) => ends_stream(events, stream),
            None => events.len() == 0,
        }
    } else if contacts.len() == 1 && pre.stream_id is None {
        &&& contacts::by_id(post.contacts@) == contacts::by_id(contacts)
        &&& events.len() == 0
        &&& post.stream_id is None
        &&& post.next_stream_id == pre.next_stream_id
        &&& post.scroll_transform.contact_ids is None
    } else {
        let (stream, next) = match pre.stream_id {
            Some(s) => (s, pre.next_stream_id),
            None => (pre.next_stream_id, following_stream(pre.next_stream_id)),
        };
        &&& contacts::by_id(post.contacts@) == contacts::by_id(contacts)
        &&& post.stream_id == Some(stream)
        &&& post.next_stream_id == next
        &&& post.scroll_transform == pre.scroll_transform
        &&& if 0 < scaled.len() <= MAX_TOUCHPAD_CONTACTS {
            &&& events.len() == 1
            &&& events[0].well_formed_frame()
            &&& events[0].carried() == scaled
            &&& events[0] matches TouchpadEvent::Frame { stream_id, terminal, .. } && stream_id
                == stream && !terminal
        } else {
            events.len() == 0
        }
    }
}

impl CaptureState {
    /// The next stream never has the identifier of the current one.
    pub open spec fn well_formed(self) -> bool {
        &&& self.contacts.well_formed()
        &&& self.next_stream_id >= 1
        &&& self.stream_id != Some(self.next_stream_id)
    }

    /// No contact was ever seen, and the first stream is the next one.
    pub open spec fn at_start(self) -> bool {
        &&& self.next_stream_id == 1
        &&& self.stream_id is None
        &&& self.contacts@.len() == 0
        &&& self.scroll_transform.contact_ids is None
    }

    pub fn new() -> (r: Self)
        ensures
            r.well_formed(),
            r.at_start(),
    {
        CaptureState {
            next_stream_id: 1,
            stream_id: None,
            contacts: ContactTable::new(),
            scroll_transform: TwoFingerScrollTransform::new(),
        }
    }

    /// Forgets the stream and the contacts without telling the peer.
    pub fn reset_without_event(&mut self)
        requires
            old(self).well_formed(),
        ensures
            final(self).well_formed(),
            emptied(*old(self), *final(self)),
    {
        self.stream_id = None;
        self.contacts.clear();
        self.scroll_transform.reset();
    }

    /// Ends the stream, if there is one.
    pub fn cancel(&mut self) -> (events: Vec<TouchpadEvent>)
        requires
            old(self).well_formed(),
        ensures
            final(self).well_formed(),
            emptied(*old(self), *final(self)),
            match old(self).stream_id {
                Some(stream) => ends_stream(events@, stream),
                None => events@.len() == 0,
            },
    {
        self.contacts.clear();
        self.scroll_transform.reset();
        let mut events: Vec<TouchpadEvent> = Vec::new();
        let stream = self.stream_id;
        self.stream_id = None;
        match stream {
            None => {},
            Some(stream_id) => {
                let mut i: usize = 0;
                while i < TERMINAL_REPEAT_COUNT
                    invariant
                        i <= TERMINAL_REPEAT_COUNT,
                        events@.len() == i,
                        forall|j: int| 0 <= j < i ==> (#[trigger] events@[j]).is_end_of(stream_id),
                    decreases TERMINAL_REPEAT_COUNT - i,
                {
                    events.push(TouchpadEvent::terminal(stream_id));
                    i = i + 1;
                }
            },
        }
        events
    }

    /// Takes a snapshot of the contacts into the stream. `scaled` holds the
    /// same contacts after the two-finger scroll speed was applied.
    ///
    /// One finger alone does not start a stream: pointing and clicking stay
    /// with the mouse. Once a stream runs, a single finger is sent so that the
    /// other one is lifted on the peer.
    pub fn snapshot(&mut self, contacts: &[TouchpadContact], scaled: &[TouchpadContact]) -> (events:
        Vec<TouchpadEvent>)
        requires
            old(self).well_formed(),
        ensures
            final(self).well_formed(),
            snapshot_taken(*old(self), *final(self), contacts@, scaled@, events@),
    {
        self.contacts = ContactTable::of(contacts);
        if contacts.len() == 0 {
            return self.cancel();
        }
        let mut events: Vec<TouchpadEvent> = Vec::new();
        if self.stream_id.is_none() && contacts.len() < 2 {
            self.scroll_transform.reset();
            return events;
        }
        let stream_id: u32 = match self.stream_id {
            Some(id) => id,
            None => {
                let id: u32 = self.next_stream_id;
                self.next_stream_id = if id == u32::MAX {
                    1
                } else {
                    id + 1
                };
                self.stream_id = Some(id);
                id
            },
        };
        match TouchpadEvent::frame(stream_id, scaled, false) {
            Some(event) => events.push(event),
            None => {},
        }
        events
    }

    /// Notes that a contact is down, or has moved, in a gesture of three or
    /// more fingers; tells whether the contacts are to be sent.
    ///
    /// The gestures are reported one contact at a time. A stream starts with
    /// the third contact; once it runs, smaller sets are sent so that every
    /// contact is lifted.
    pub fn contact_down(&mut self, contact: TouchpadContact) -> (publish: bool)
        requires
            old(self).well_formed(),
        ensures
            final(self).well_formed(),
            contacts::by_id(final(self).contacts@) == contacts::by_id(old(self).contacts@).insert(contact.id, contact),
            final(self).next_stream_id == old(self).next_stream_id,
            final(self).stream_id == old(self).stream_id,
            final(self).scroll_transform == old(self).scroll_transform,
            publish == (old(self).stream_id is Some || final(self).contacts@.len() >= 3),
    {
        self.contacts.insert(contact);
        self.stream_id.is_some() || self.contacts.len() >= 3
    }

    /// Notes that a contact was lifted; tells whether the contacts are to be
    /// sent.
    pub fn contact_up(&mut self, id: u32) -> (publish: bool)
        requires
            old(self).well_formed(),
        ensures
            final(self).well_formed(),
            contacts::by_id(final(self).contacts@) == contacts::by_id(old(self).contacts@).remove(id),
            final(self).next_stream_id == old(self).next_stream_id,
            final(self).stream_id == old(self).stream_id,
            final(self).scroll_transform == old(self).scroll_transform,
            publish == (old(self).stream_id is Some || final(self).contacts@.len() >= 3),
    {
        self.contacts.remove(id);
        self.stream_id.is_some() || self.contacts.len() >= 3
    }
}

/// Two streams that follow each other have different identifiers, whatever
/// the first one was.
pub proof fn streams_have_distinct_ids(id: u32)
    requires
        id >= 1,
    ensures
        following_stream(id) != id,
        following_stream(id) >= 1,
{
}

/// The contacts by identifier, the first of several with one identifier.
pub open spec fn first_by_id(s: Seq<TouchpadContact>) -> Map<u32, TouchpadContact>
    decreases s.len(),
{
    if s.len() == 0 {
        Map::empty()
    } else {
        let rest = first_by_id(s.drop_last());
        if rest.dom().contains(s.last().id) {
            rest
        } else {
            rest.insert(s.last().id, s.last())
        }
    }
}

/// Sorts a frame by identifier and keeps the first of equal contacts. There
/// is no frame for more contacts than a touchpad has.
pub fn normalize_frame(contacts: &[TouchpadContact]) -> (r: Option<Vec<TouchpadContact>>)
    ensures
        match r {
            Some(v) => contacts::ordered(v@) && contacts::by_id(v@) == first_by_id(contacts@) && v@.len()
                <= MAX_TOUCHPAD_CONTACTS,
            None => exists|v: Seq<TouchpadContact>|
                #![trigger contacts::by_id(v)]
                contacts::ordered(v) && contacts::by_id(v) == first_by_id(contacts@) && v.len() > MAX_TOUCHPAD_CONTACTS,
        },
{
    let mut table = ContactTable::new();
    let mut i: usize = 0;
    assert(contacts@.take(0) =~= Seq::empty());
    while i < contacts.len()
        invariant
            i <= contacts@.len(),
            table.well_formed(),
            contacts::by_id(table@) == first_by_id(contacts@.take(i as int)),
        decreases contacts@.len() - i,
    {
        proof {
            contacts::lemma_by_id(table@);
            assert(contacts@.take(i + 1).drop_last() =~= contacts@.take(i as int));
        }
        if !table.contains(contacts[i].id) {
            table.insert(contacts[i]);
        }
        i = i + 1;
    }
    assert(contacts@.take(i as int) =~= contacts@);
    if table.len() > MAX_TOUCHPAD_CONTACTS {
        return None;
    }
    let held: &[TouchpadContact] = table.contacts();
    let mut v: Vec<TouchpadContact> = Vec::new();
    let mut j: usize = 0;
    while j < held.len()
        invariant
            j <= held@.len(),
            v@ == held@.take(j as int),
        decreases held@.len() - j,
    {
        v.push(held[j]);
        j = j + 1;
        assert(v@ =~= held@.take(j as int));
    }
    assert(v@ =~= held@);
    Some(v)
}

/// The outline of a pointer device in its own coordinates.
#[derive(Debug, Clone, Copy, PartialEq, Eq, Structural)]
pub struct DeviceRect {
    pub left: i32,
    pub top: i32,
    pub right: i32,
    pub bottom: i32,
}

/// One contact as the system reports it.
#[derive(Debug, Clone, Copy, PartialEq, Eq, Structural)]
pub struct PointerSample {
    /// Hardware time of the sample.
    pub stamp: u64,
    pub id: u32,
    pub x: i32,
    pub y: i32,
    pub in_contact: bool,
    pub lifted: bool,
    /// Outline of the device, where the system knows it.
    pub device: Option<DeviceRect>,
}

/// The contact that a sample stands for: one that touches, is not being lifted
/// and lies on a known device, scaled to the range of the device.
pub open spec fn sample_contact(s: PointerSample) -> Option<TouchpadContact> {
    match s.device {
        Some(d) if s.in_contact && !s.lifted => Some(
            TouchpadContact {
                id: s.id,
                x: normalized(s.x as int, d.left as int, d.right as int) as u16,
                y: normalized(s.y as int, d.top as int, d.bottom as int) as u16,
            },
        ),
        _ => None,
    }
}

/// The contact of one sample, if it is one.
pub fn normalize_win32_contact(s: &PointerSample) -> (r: Option<TouchpadContact>)
    ensures
        r == sample_contact(*s),
{
    if !s.in_contact || s.lifted {
        return None;
    }
    match s.device {
        None => None,
        Some(d) => Some(
            TouchpadContact {
                id: s.id,
                x: normalize_i32(s.x, d.left, d.right),
                y: normalize_i32(s.y, d.top, d.bottom),
            },
        ),
    }
}

/// The earliest time among samples.
pub open spec fn earliest(samples: Seq<PointerSample>) -> u64
    decreases samples.len(),
{
    if samples.len() <= 1 {
        samples[0].stamp
    } else {
        let rest = earliest(samples.drop_last());
        if samples.last().stamp < rest {
            samples.last().stamp
        } else {
            rest
        }
    }
}

/// The contacts among samples, in their order.
pub open spec fn touching(samples: Seq<PointerSample>) -> Seq<TouchpadContact>
    decreases samples.len(),
{
    if samples.len() == 0 {
        Seq::empty()
    } else {
        match sample_contact(samples.last()) {
            Some(c) => touching(samples.drop_last()).push(c),
            None => touching(samples.drop_last()),
        }
    }
}

/// One frame of a history: its time and its contacts.
pub struct HistoryFrame {
    pub stamp: u64,
    pub contacts: Vec<TouchpadContact>,
}

/// The time and the contacts of the `k`-th frame of a history.
pub open spec fn history_frame(samples: Seq<PointerSample>, per_frame: int, k: int) -> (
    u64,
    Seq<TouchpadContact>,
) {
    let frame = samples.subrange(k * per_frame, k * per_frame + per_frame);
    (earliest(frame), touching(frame))
}

/// A frame put behind every frame that is not later.
pub open spec fn put_in_order(
    frames: Seq<(u64, Seq<TouchpadContact>)>,
    frame: (u64, Seq<TouchpadContact>),
) -> Seq<(u64, Seq<TouchpadContact>)>
    decreases frames.len(),
{
    if frames.len() == 0 || frames.last().0 <= frame.0 {
        frames.push(frame)
    } else {
        put_in_order(frames.drop_last(), frame).push(frames.last())
    }
}

/// The first `n` frames of a history, earliest first; frames of one time keep
/// their order.
pub open spec fn ordered_history(samples: Seq<PointerSample>, per_frame: int, n: int) -> Seq<
    (u64, Seq<TouchpadContact>),
>
    decreases n,
{
    if n <= 0 {
        Seq::empty()
    } else {
        put_in_order(
            ordered_history(samples, per_frame, n - 1),
            history_frame(samples, per_frame, n - 1),
        )
    }
}

/// The frames as times and contacts.
pub open spec fn frame_views(frames: Seq<HistoryFrame>) -> Seq<(u64, Seq<TouchpadContact>)> {
    Seq::new(frames.len(), |i: int| (frames[i].stamp, frames[i].contacts@))
}

/// The greatest number of frames that one history holds.
pub const MAX_HISTORY_FRAMES: u32 = 128;

/// Whether the dimensions of a history make sense.
pub open spec fn history_dimensions_valid(frame_count: u32, pointer_count: u32) -> bool {
    0 < frame_count <= MAX_HISTORY_FRAMES && 0 < pointer_count <= MAX_TOUCHPAD_CONTACTS
}

/// Whether the dimensions of a history make sense.
pub fn history_is_valid(frame_count: u32, pointer_count: u32) -> (r: bool)
    ensures
        r == history_dimensions_valid(frame_count, pointer_count),
{
    frame_count > 0 && frame_count <= MAX_HISTORY_FRAMES && pointer_count > 0 && pointer_count as usize
        <= MAX_TOUCHPAD_CONTACTS
}

/// Cuts a history into frames of `per_frame` samples and puts the frames in
/// the order of their times. Samples that do not fill a frame are left out.
pub fn process_touchpad_history(samples: &[PointerSample], per_frame: usize) -> (frames: Vec<
    HistoryFrame,
>)
    requires
        per_frame > 0,
    ensures
        frame_views(frames@) == ordered_history(
            samples@,
            per_frame as int,
            samples@.len() as int / per_frame as int,
        ),
{
    let total: usize = samples.len();
    let count: usize = total / per_frame;
    let mut frames: Vec<HistoryFrame> = Vec::new();
    let mut k: usize = 0;
    assert(frame_views(frames@) =~= ordered_history(samples@, per_frame as int, 0));
    while k < count
        invariant
            k <= count,
            total == samples@.len(),
            count == samples@.len() as int / per_frame as int,
            per_frame > 0,
            frame_views(frames@) == ordered_history(samples@, per_frame as int, k as int),
        decreases count - k,
    {
        proof {
            assert((k + 1) * per_frame <= samples@.len()) by (nonlinear_arith)
                requires
                    k + 1 <= count,
                    count == samples@.len() as int / per_frame as int,
                    per_frame > 0,
            ;
            assert((k + 1) * per_frame == k * per_frame + per_frame) by (nonlinear_arith);
            assert(0 <= k * per_frame) by (nonlinear_arith)
                requires
                    k >= 0,
                    per_frame > 0,
            ;
        }
        let start: usize = k * per_frame;
        let chunk: &[PointerSample] = vstd::slice::slice_subrange(
            samples,
            start,
            start + per_frame,
        );
        let frame = read_frame(chunk);
        insert_frame(&mut frames, frame);
        k = k + 1;
    }
    frames
}

/// Reads the time and the contacts of one frame.
fn read_frame(chunk: &[PointerSample]) -> (frame: HistoryFrame)
    requires
        chunk@.len() > 0,
    ensures
        frame.stamp == earliest(chunk@),
        frame.contacts@ == touching(chunk@),
{
    let mut stamp: u64 = chunk[0].stamp;
    let mut contacts: Vec<TouchpadContact> = Vec::new();
    let mut i: usize = 0;
    assert(chunk@.take(0) =~= Seq::empty());
    while i < chunk.len()
        invariant
            i <= chunk@.len(),
            chunk@.len() > 0,
            i == 0 ==> stamp == chunk@[0].stamp,
            i > 0 ==> stamp == earliest(chunk@.take(i as int)),
            contacts@ == touching(chunk@.take(i as int)),
        decreases chunk@.len() - i,
    {
        if chunk[i].stamp < stamp {
            stamp = chunk[i].stamp;
        }
        match normalize_win32_contact(&chunk[i]) {
            Some(c) => contacts.push(c),
            None => {},
        }
        i = i + 1;
        assert(chunk@.take(i as int).drop_last() =~= chunk@.take(i - 1));
    }
    assert(chunk@.take(i as int) =~= chunk@);
    HistoryFrame { stamp, contacts }
}

/// Puts a frame behind every frame that is not later.
fn insert_frame(frames: &mut Vec<HistoryFrame>, frame: HistoryFrame)
    ensures
        frame_views(final(frames)@) == put_in_order(
            frame_views(old(frames)@),
            (frame.stamp, frame.contacts@),
        ),
{
    let ghost before = frame_views(frames@);
    let ghost added = (frame.stamp, frame.contacts@);
    let mut at: usize = frames.len();
    proof {
        assert(before.take(before.len() as int) =~= before);
        assert(before.skip(before.len() as int) =~= Seq::empty());
        assert(put_in_order(before, added) =~= put_in_order(before, added) + Seq::empty());
    }
    while at > 0 && frames[at - 1].stamp > frame.stamp
        invariant
            at <= frames@.len(),
            before == frame_views(frames@),
            added == (frame.stamp, frame.contacts@),
            put_in_order(before, added) == put_in_order(before.take(at as int), added)
                + before.skip(at as int),
        decreases at,
    {
        proof {
            let head = before.take(at as int);
            assert(head.drop_last() =~= before.take(at - 1));
            assert(before.skip(at - 1) =~= seq![before[at - 1]] + before.skip(at as int));
            assert(put_in_order(head, added) =~= put_in_order(before.take(at - 1), added).push(
                head.last(),
            ));
            assert(put_in_order(before.take(at - 1), added) + before.skip(at - 1) =~= put_in_order(
                head,
                added,
            ) + before.skip(at as int));
        }
        at = at - 1;
    }
    proof {
        assert(put_in_order(before.take(at as int), added) =~= before.take(at as int).push(added));
    }
    frames.insert(at, frame);
    assert(frame_views(frames@) =~= before.take(at as int).push(added) + before.skip(at as int));
}

/// The frames of a history come out in the order of their times, and each
/// comes out once.
pub proof fn history_is_chronological(samples: Seq<PointerSample>, per_frame: int, n: int)
    ensures
        forall|i: int, j: int|
            0 <= i < j < ordered_history(samples, per_frame, n).len() ==> (
            #[trigger] ordered_history(samples, per_frame, n)[i]).0 <= (#[trigger] ordered_history(
                samples,
                per_frame,
                n,
            )[j]).0,
        ordered_history(samples, per_frame, n).len() == if n > 0 {
            n
        } else {
            0
        },
    decreases n,
{
    if n > 0 {
        history_is_chronological(samples, per_frame, n - 1);
        lemma_put_in_order(
            ordered_history(samples, per_frame, n - 1),
            history_frame(samples, per_frame, n - 1),
        );
    }
}

proof fn lemma_put_in_order(
    frames: Seq<(u64, Seq<TouchpadContact>)>,
    frame: (u64, Seq<TouchpadContact>),
)
    requires
        forall|i: int, j: int|
            0 <= i < j < frames.len() ==> (#[trigger] frames[i]).0 <= (#[trigger] frames[j]).0,
    ensures
        put_in_order(frames, frame).len() == frames.len() + 1,
        forall|i: int, j: int|
            0 <= i < j < frames.len() + 1 ==> (#[trigger] put_in_order(frames, frame)[i]).0 <= (
            #[trigger] put_in_order(frames, frame)[j]).0,
        forall|i: int|
            0 <= i < frames.len() + 1 ==> (#[trigger] put_in_order(frames, frame)[i]).0 <= (
            if frames.len() > 0 && frames.last().0 > frame.0 {
                frames.last().0
            } else {
                frame.0
            }),
    decreases frames.len(),
{
    if frames.len() > 0 && frames.last().0 > frame.0 {
        let rest = frames.drop_last();
        assert forall|i: int, j: int| 0 <= i < j < rest.len() implies (#[trigger] rest[i]).0 <= (
        #[trigger] rest[j]).0 by {
            assert(frames[i].0 <= frames[j].0);
        }
        lemma_put_in_order(rest, frame);
        if rest.len() > 0 {
            assert(frames[rest.len() - 1].0 <= frames[frames.len() - 1].0);
        }
    }
}

/// The gestures that the system reports as a whole.
#[derive(Debug, Clone, Copy, PartialEq, Eq, Structural)]
pub enum TouchpadGlobalAction {
    ThreeFingerTap,
    FourFingerTap,
    ThreeFingerPressDown,
    FourFingerPressDown,
    ThreeFingerPressUp,
    FourFingerPressUp,
    /// Any other gesture.
    Other,
}

/// The event that is sent for a gesture of the system.
pub fn action_event(action: TouchpadGlobalAction) -> (r: Option<TouchpadEvent>)
    ensures
        r == (match action {
            TouchpadGlobalAction::ThreeFingerTap => Some(
                TouchpadEvent::Action { fingers: 3, action: TouchpadAction::Tap },
            ),
            TouchpadGlobalAction::FourFingerTap => Some(
                TouchpadEvent::Action { fingers: 4, action: TouchpadAction::Tap },
            ),
            TouchpadGlobalAction::ThreeFingerPressDown => Some(
                TouchpadEvent::Action { fingers: 3, action: TouchpadAction::Press },
            ),
            TouchpadGlobalAction::FourFingerPressDown => Some(
                TouchpadEvent::Action { fingers: 4, action: TouchpadAction::Press },
            ),
            TouchpadGlobalAction::ThreeFingerPressUp => Some(
                TouchpadEvent::Action { fingers: 3, action: TouchpadAction::Release },
            ),
            TouchpadGlobalAction::FourFingerPressUp => Some(
                TouchpadEvent::Action { fingers: 4, action: TouchpadAction::Release },
            ),
            TouchpadGlobalAction::Other => None,
        }),
{
    let (fingers, action): (u8, TouchpadAction) = match action {
        TouchpadGlobalAction::ThreeFingerTap => (3, TouchpadAction::Tap),
        TouchpadGlobalAction::FourFingerTap => (4, TouchpadAction::Tap),
        TouchpadGlobalAction::ThreeFingerPressDown => (3, TouchpadAction::Press),
        TouchpadGlobalAction::FourFingerPressDown => (4, TouchpadAction::Press),
        TouchpadGlobalAction::ThreeFingerPressUp => (3, TouchpadAction::Release),
        TouchpadGlobalAction::FourFingerPressUp => (4, TouchpadAction::Release),
        TouchpadGlobalAction::Other => {
            return None;
        },
    };
    Some(TouchpadEvent::Action { fingers, action })
}

/// Two fingers or more start a stream, and its frames carry all that touch; one
/// finger starts none. A stream goes on under its number until nothing touches any
/// more, and is then ended three times over.
pub proof fn a_stream_lasts_while_fingers_touch(
    c: &mut CaptureState,
    contacts: &[TouchpadContact],
    scaled: &[TouchpadContact],
    events: Vec<TouchpadEvent>,
)
    requires
        old(c).well_formed(),
        call_ensures(CaptureState::snapshot, (c, contacts, scaled), events),
    ensures
        contacts@.len() >= 2 ==> final(c).stream_id is Some,
        contacts@.len() >= 2 && 1 <= scaled@.len() <= 5 ==> events@.len() == 1 && (
        events@[0] matches TouchpadEvent::Frame { stream_id, terminal, count, .. } && Some(
            stream_id,
        ) == final(c).stream_id && !terminal && count == scaled@.len()) && events@[0].carried()
            == scaled@,
        contacts@.len() == 1 && old(c).stream_id is None ==> final(c).stream_id is None
            && events@.len() == 0,
        contacts@.len() > 0 && old(c).stream_id is Some ==> final(c).stream_id == old(c).stream_id,
        contacts@.len() == 0 ==> final(c).stream_id is None,
        contacts@.len() == 0 && old(c).stream_id is None ==> events@.len() == 0,
        contacts@.len() == 0 && old(c).stream_id is Some ==> events@.len() == 3 && (
        events@[0] matches TouchpadEvent::Frame { stream_id, terminal, count, .. } && Some(
            stream_id,
        ) == old(c).stream_id && terminal && count == 0),
        old(c).stream_id is None && final(c).stream_id is Some ==> final(c).stream_id == Some(
            old(c).next_stream_id,
        ) && final(c).next_stream_id != old(c).next_stream_id,
{
    streams_have_distinct_ids(old(c).next_stream_id);
    if contacts@.len() == 0 && old(c).stream_id is Some {
        assert(events@[0].is_end_of(old(c).stream_id->0));
    }
}

/// A finger that comes down is known until it goes up, and a frame is published
/// while a stream runs or three fingers touch.
pub proof fn a_finger_is_known_while_it_touches(
    c: (&mut CaptureState, &mut CaptureState),
    contact: TouchpadContact,
    publish: (bool, bool),
)
    requires
        call_ensures(CaptureState::contact_down, (c.0, contact), publish.0),
        *old(c.1) == *final(c.0),
        call_ensures(CaptureState::contact_up, (c.1, contact.id), publish.1),
    ensures
        contacts::by_id(final(c.0).contacts@).contains_pair(contact.id, contact),
        !contacts::by_id(final(c.1).contacts@).contains_key(contact.id),
        publish.0 == (old(c.0).stream_id is Some || final(c.0).contacts@.len() >= 3),
        publish.1 == (old(c.0).stream_id is Some || final(c.1).contacts@.len() >= 3),
        final(c.1).stream_id == old(c.0).stream_id,
{
}

/// A sample counts as a finger exactly where it touches, is not being lifted and
/// the device is known; its place is told on the same scale for every device, from
/// the left and the top.
pub proof fn a_touching_sample_is_a_finger(s: &PointerSample, r: Option<TouchpadContact>)
    requires
        call_ensures(normalize_win32_contact, (s,), r),
    ensures
        r is Some <==> s.in_contact && !s.lifted && s.device is Some,
        r matches Some(c) ==> {
            let d = s.device->0;
            &&& c.id == s.id
            &&& s.x <= d.left ==> c.x == 0
            &&& s.y <= d.top ==> c.y == 0
            &&& d.left < d.right && s.x >= d.right ==> c.x == 65_535
            &&& d.top < d.bottom && s.y >= d.bottom ==> c.y == 65_535
        },
{
    if r is Some {
        let d = s.device->0;
        let w = d.right - d.left;
        let h = d.bottom - d.top;
        if w > 0 {
            assert((w * 65_535) / w == 65_535 && (0 * 65_535int) / w == 0) by (nonlinear_arith)
                requires
                    w > 0,
            ;
        }
        if h > 0 {
            assert((h * 65_535) / h == 65_535 && (0 * 65_535int) / h == 0) by (nonlinear_arith)
                requires
                    h > 0,
            ;
        }
    }
}

/// A scroll with two fingers goes on while the same two touch, starts anew with
/// others, and ends with any other number.
pub proof fn a_scroll_follows_two_fingers(
    t: (&mut TwoFingerScrollTransform, &mut TwoFingerScrollTransform),
    contacts: (&[TouchpadContact], &[TouchpadContact]),
    r: (ScrollStep, ScrollStep),
)
    requires
        call_ensures(TwoFingerScrollTransform::apply, (t.0, contacts.0), r.0),
        *old(t.1) == *final(t.0),
        call_ensures(TwoFingerScrollTransform::apply, (t.1, contacts.1), r.1),
    ensures
        contacts.1@.len() != 2 ==> r.1 == ScrollStep::Copy,
        contacts.0@.len() != 2 && contacts.1@.len() == 2 ==> r.1 == ScrollStep::Restart,
        contacts.0@.len() == 2 && contacts.1@.len() == 2 ==> (r.1 == ScrollStep::Continue
            <==> contacts.0@[0].id == contacts.1@[0].id && contacts.0@[1].id
            == contacts.1@[1].id),
        contacts.1@.len() == 2 && r.1 != ScrollStep::Continue ==> r.1 == ScrollStep::Restart,
{
}

/// A global gesture of three or four fingers is told with its fingers and what they
/// did; other gestures are not told.
pub proof fn gestures_are_told_with_their_fingers(
    action: TouchpadGlobalAction,
    r: Option<TouchpadEvent>,
)
    requires
        call_ensures(action_event, (action,), r),
    ensures
        r is None <==> action is Other,
        r matches Some(TouchpadEvent::Action { fingers, action: a }) ==> {
            &&& fingers == 3 <==> action is ThreeFingerTap || action is ThreeFingerPressDown
                || action is ThreeFingerPressUp
            &&& fingers == 3 || fingers == 4
            &&& a == TouchpadAction::Tap <==> action is ThreeFingerTap || action is FourFingerTap
            &&& a == TouchpadAction::Press <==> action is ThreeFingerPressDown
                || action is FourFingerPressDown
        },
        r is Some ==> r->0 is Action,
{
}

} // verus!
