//! Precision touchpad of a Windows machine: contact streams, the capture
//! window that takes the foreground, and the keys that reach that window.

use crate::arith;
use crate::input::contacts::{self, ContactTable};
use crate::input::events::{TouchpadAction, TouchpadContact, TouchpadEvent};
use vstd::prelude::*;

verus! {

/// Size of the synthetic touchpad, in hundredths of a millimetre.
pub const DEVICE_WIDTH: u32 = 10_000;

pub const DEVICE_HEIGHT: u32 = 6_000;

/// How often the end of a stream is sent, since any of them may be lost.
pub const TERMINAL_REPEAT_COUNT: usize = 3;

/// Edge length of the capture window, in pixels.
pub const CAPTURE_WINDOW_SIZE: i32 = 5;

/// What happens to one contact between two frames.
#[derive(Debug, Clone, Copy, PartialEq, Eq, Structural)]
pub enum ContactPhase {
    Down,
    Update,
    Up,
}

/// What has to be injected for one frame, and what is remembered after it.
#[derive(Debug, PartialEq, Eq)]
pub struct LifecyclePlan {
    /// Contacts of an older stream, to be lifted first.
    pub release_before: Vec<TouchpadContact>,
    pub frame: Vec<(TouchpadContact, ContactPhase)>,
    pub next_stream_id: Option<u32>,
    pub next_contacts: ContactTable,
    /// The frame ends a stream that is not the current one.
    pub ignored: bool,
}

/// The transitions from one set of contacts to the next, both ordered: every
/// contact that is down now goes down or moves, every other one is lifted.
pub open spec fn transitions(
    baseline: Seq<TouchpadContact>,
    next: Seq<TouchpadContact>,
) -> Seq<(TouchpadContact, ContactPhase)> {
    placed(baseline, next) + lifted(baseline, next)
}

/// The contacts that are down now, each new one going down.
pub open spec fn placed(
    baseline: Seq<TouchpadContact>,
    next: Seq<TouchpadContact>,
) -> Seq<(TouchpadContact, ContactPhase)> {
    Seq::new(
        next.len(),
        |i: int|
            (
                next[i],
                if contacts::names(baseline, next[i].id) {
                    ContactPhase::Update
                } else {
                    ContactPhase::Down
                },
            ),
    )
}

/// The contacts that are no longer down, each going up.
pub open spec fn lifted(
    baseline: Seq<TouchpadContact>,
    next: Seq<TouchpadContact>,
) -> Seq<(TouchpadContact, ContactPhase)>
    decreases baseline.len(),
{
    if baseline.len() == 0 {
        Seq::empty()
    } else {
        let rest = lifted(baseline.drop_last(), next);
        if contacts::names(next, baseline.last().id) {
            rest
        } else {
            rest.push((baseline.last(), ContactPhase::Up))
        }
    }
}

/// Whether a frame starts another stream than the current one.
pub open spec fn stream_changed(current: Option<u32>, stream_id: u32) -> bool {
    current is Some && current != Some(stream_id)
}

/// Derives what a frame changes. A frame that ends another stream than the
/// current one is ignored; a frame of a new stream lifts every contact of the
/// old one first.
pub fn plan_lifecycle(
    current_stream_id: Option<u32>,
    current_contacts: &ContactTable,
    stream_id: u32,
    contacts: &[TouchpadContact],
    terminal: bool,
) -> (r: LifecyclePlan)
    requires
        current_contacts.well_formed(),
    ensures
        r.next_contacts.well_formed(),
        r.ignored == (terminal && current_stream_id != Some(stream_id)),
        r.ignored ==> r.release_before@.len() == 0 && r.frame@.len() == 0 && r.next_stream_id
            == current_stream_id && r.next_contacts@ == current_contacts@,
        !r.ignored ==> {
            let changed = stream_changed(current_stream_id, stream_id);
            let baseline = if changed {
                Seq::empty()
            } else {
                current_contacts@
            };
            &&& r.release_before@ == if changed {
                current_contacts@
            } else {
                Seq::empty()
            }
            &&& contacts::by_id(r.next_contacts@) == contacts::by_id(contacts@)
            &&& contacts::ordered(contacts@) ==> r.next_contacts@ == contacts@
            &&& r.frame@ == transitions(baseline, r.next_contacts@)
            &&& r.next_stream_id == if terminal || r.next_contacts@.len() == 0 {
                None
            } else {
                Some(stream_id)
            }
        },
{
    let same = match current_stream_id {
        Some(current) => current == stream_id,
        None => false,
    };
    if terminal && !same {
        return LifecyclePlan {
            release_before: Vec::new(),
            frame: Vec::new(),
            next_stream_id: current_stream_id,
            next_contacts: current_contacts.copy(),
            ignored: true,
        };
    }
    let changed = current_stream_id.is_some() && !same;
    let held: &[TouchpadContact] = current_contacts.contacts();
    let mut release_before: Vec<TouchpadContact> = Vec::new();
    let baseline = if changed {
        let mut i: usize = 0;
        while i < held.len()
            invariant
                i <= held@.len(),
                release_before@ == held@.take(i as int),
            decreases held@.len() - i,
        {
            release_before.push(held[i]);
            i = i + 1;
            assert(release_before@ =~= held@.take(i as int));
        }
        assert(release_before@ =~= held@);
        ContactTable::new()
    } else {
        current_contacts.copy()
    };
    let next_contacts = ContactTable::of(contacts);
    let frame = changes(&baseline, &next_contacts);
    let next_stream_id = if terminal || next_contacts.len() == 0 {
        None
    } else {
        Some(stream_id)
    };
    LifecyclePlan { release_before, frame, next_stream_id, next_contacts, ignored: false }
}

/// Lists the transitions between two sets of contacts.
fn changes(baseline: &ContactTable, next: &ContactTable) -> (frame: Vec<
    (TouchpadContact, ContactPhase),
>)
    requires
        baseline.well_formed(),
        next.well_formed(),
    ensures
        frame@ == transitions(baseline@, next@),
{
    let down: &[TouchpadContact] = next.contacts();
    let before: &[TouchpadContact] = baseline.contacts();
    let mut frame: Vec<(TouchpadContact, ContactPhase)> = Vec::new();
    let mut i: usize = 0;
    while i < down.len()
        invariant
            i <= down@.len(),
            down@ == next@,
            baseline.well_formed(),
            frame@ == placed(baseline@, next@).take(i as int),
        decreases down@.len() - i,
    {
        let contact = down[i];
        let phase = if baseline.contains(contact.id) {
            ContactPhase::Update
        } else {
            ContactPhase::Down
        };
        frame.push((contact, phase));
        i = i + 1;
        assert(frame@ =~= placed(baseline@, next@).take(i as int));
    }
    assert(frame@ =~= placed(baseline@, next@));
    let ghost first = frame@;
    let mut j: usize = 0;
    assert(before@.take(0) =~= Seq::empty());
    while j < before.len()
        invariant
            j <= before@.len(),
            next.well_formed(),
            frame@ == first + lifted(before@.take(j as int), next@),
        decreases before@.len() - j,
    {
        let contact = before[j];
        if !next.contains(contact.id) {
            frame.push((contact, ContactPhase::Up));
        }
        j = j + 1;
        assert(before@.take(j as int).drop_last() =~= before@.take(j - 1));
        assert(frame@ =~= first + lifted(before@.take(j as int), next@));
    }
    assert(before@.take(j as int) =~= before@);
    frame
}

/// The contacts that are down on a device after it was given one transition.
pub open spec fn after_transition(
    down: Map<u32, TouchpadContact>,
    t: (TouchpadContact, ContactPhase),
) -> Map<u32, TouchpadContact> {
    match t.1 {
        ContactPhase::Down | ContactPhase::Update => down.insert(t.0.id, t.0),
        ContactPhase::Up => down.remove(t.0.id),
    }
}

/// The contacts that are down on a device after a sequence of transitions.
pub open spec fn after_transitions(
    down: Map<u32, TouchpadContact>,
    frame: Seq<(TouchpadContact, ContactPhase)>,
) -> Map<u32, TouchpadContact>
    decreases frame.len(),
{
    if frame.len() == 0 {
        down
    } else {
        after_transition(after_transitions(down, frame.drop_last()), frame.last())
    }
}

proof fn lemma_transitions_appended(
    down: Map<u32, TouchpadContact>,
    a: Seq<(TouchpadContact, ContactPhase)>,
    b: Seq<(TouchpadContact, ContactPhase)>,
)
    ensures
        after_transitions(down, a + b) == after_transitions(after_transitions(down, a), b),
    decreases b.len(),
{
    if b.len() == 0 {
        assert(a + b =~= a);
    } else {
        lemma_transitions_appended(down, a, b.drop_last());
        assert((a + b).drop_last() =~= a + b.drop_last());
    }
}

proof fn lemma_placed(
    down: Map<u32, TouchpadContact>,
    baseline: Seq<TouchpadContact>,
    next: Seq<TouchpadContact>,
)
    requires
        contacts::ordered(next),
    ensures
        after_transitions(down, placed(baseline, next)) == down.union_prefer_right(contacts::by_id(next)),
    decreases next.len(),
{
    if next.len() == 0 {
        assert(placed(baseline, next) =~= Seq::empty());
        assert(down.union_prefer_right(contacts::by_id(next)) =~= down);
    } else {
        let rest = next.drop_last();
        assert(contacts::ordered(rest)) by {
            assert forall|i: int, j: int| 0 <= i < j < rest.len() implies (#[trigger] rest[i]).id < (
            #[trigger] rest[j]).id by {
                assert(next[i].id < next[j].id);
            }
        }
        lemma_placed(down, baseline, rest);
        assert(placed(baseline, next).drop_last() =~= placed(baseline, rest));
        assert(down.union_prefer_right(contacts::by_id(next)) =~= down.union_prefer_right(
            contacts::by_id(rest),
        ).insert(next.last().id, next.last()));
    }
}

proof fn lemma_lifted(
    down: Map<u32, TouchpadContact>,
    baseline: Seq<TouchpadContact>,
    next: Seq<TouchpadContact>,
)
    ensures
        forall|id: u32| #[trigger]
            after_transitions(down, lifted(baseline, next)).dom().contains(id) <==> (
            down.dom().contains(id) && !(contacts::names(baseline, id) && !contacts::names(next, id))),
        forall|id: u32| #[trigger]
            after_transitions(down, lifted(baseline, next)).dom().contains(id)
                ==> after_transitions(down, lifted(baseline, next))[id] == down[id],
    decreases baseline.len(),
{
    if baseline.len() > 0 {
        let rest = baseline.drop_last();
        lemma_lifted(down, rest, next);
        assert forall|id: u32| #[trigger] contacts::names(baseline, id) == (contacts::names(rest, id) || id
            == baseline.last().id) by {
            if contacts::names(baseline, id) {
                let i = choose|i: int|
                    0 <= i < baseline.len() && (#[trigger] baseline[i]).id == id;
                if i < baseline.len() - 1 {
                    assert(rest[i].id == id);
                }
            }
            if contacts::names(rest, id) {
                let i = choose|i: int| 0 <= i < rest.len() && (#[trigger] rest[i]).id == id;
                assert(baseline[i].id == id);
            }
            assert(baseline[baseline.len() - 1].id == baseline.last().id);
        }
        if !contacts::names(next, baseline.last().id) {
            assert(lifted(baseline, next).drop_last() =~= lifted(rest, next));
        }
        let before = after_transitions(down, lifted(rest, next));
        let after = after_transitions(down, lifted(baseline, next));
        assert forall|id: u32| #[trigger] after.dom().contains(id) <==> (down.dom().contains(id)
            && !(contacts::names(baseline, id) && !contacts::names(next, id))) by {
            assert(before.dom().contains(id) <==> (down.dom().contains(id) && !(contacts::names(rest, id)
                && !contacts::names(next, id))));
        }
        assert forall|id: u32| #[trigger] after.dom().contains(id) implies after[id] == down[id] by {
            assert(before.dom().contains(id));
        }
    }
}

/// No contact sticks and none is lost: a device on which exactly the contacts
/// of the last frame are down has exactly those of the new frame down once
/// the transitions have been injected.
pub proof fn a_frame_leaves_exactly_its_contacts_down(
    baseline: Seq<TouchpadContact>,
    next: Seq<TouchpadContact>,
)
    requires
        contacts::ordered(baseline),
        contacts::ordered(next),
    ensures
        after_transitions(contacts::by_id(baseline), transitions(baseline, next)) == contacts::by_id(next),
{
    contacts::lemma_by_id(baseline);
    contacts::lemma_by_id(next);
    let start = contacts::by_id(baseline);
    lemma_transitions_appended(start, placed(baseline, next), lifted(baseline, next));
    lemma_placed(start, baseline, next);
    let mid = start.union_prefer_right(contacts::by_id(next));
    lemma_lifted(mid, baseline, next);
    let end = after_transitions(mid, lifted(baseline, next));
    assert forall|id: u32| #[trigger] end.dom().contains(id) <==> contacts::by_id(next).dom().contains(id) by {
        assert(mid.dom().contains(id) <==> start.dom().contains(id) || contacts::by_id(next).dom().contains(
            id,
        ));
    }
    assert(end =~= contacts::by_id(next));
}

/// Lifting every contact of a stream leaves none of them down.
pub proof fn lifting_all_leaves_none_down(held: Seq<TouchpadContact>)
    requires
        contacts::ordered(held),
    ensures
        lifted(held, Seq::empty()).len() == held.len(),
        after_transitions(contacts::by_id(held), lifted(held, Seq::empty())) == Map::<
            u32,
            TouchpadContact,
        >::empty(),
{
    let none = Seq::<TouchpadContact>::empty();
    a_frame_leaves_exactly_its_contacts_down(held, none);
    assert(transitions(held, none) =~= lifted(held, none));
    lemma_lifted_count(held);
}

proof fn lemma_lifted_count(held: Seq<TouchpadContact>)
    ensures
        lifted(held, Seq::empty()).len() == held.len(),
    decreases held.len(),
{
    if held.len() > 0 {
        lemma_lifted_count(held.drop_last());
        assert(!contacts::names(Seq::<TouchpadContact>::empty(), held.last().id));
    }
}

/// Why an event of the peer is not injected.
#[derive(Debug, Clone, Copy, PartialEq, Eq, Structural)]
pub enum InjectError {
    /// A gesture with another number of fingers than three or four.
    UnsupportedAction,
    /// A frame whose contact count does not fit its kind.
    MalformedContactCount,
    /// A frame that names one contact twice.
    DuplicateContactId,
}

/// What has to be done for an event of the peer.
#[derive(Debug, PartialEq, Eq)]
pub enum InjectStep {
    Reject(InjectError),
    /// Inject the gesture with this code.
    Action { code: i32 },
    /// Inject the transitions of this plan.
    Frame(LifecyclePlan),
}

/// The system's number of a three- or four-finger gesture.
pub open spec fn action_number(fingers: u8, action: TouchpadAction) -> Option<int> {
    let base: int = if fingers == 4 {
        3
    } else {
        0
    };
    if fingers != 3 && fingers != 4 {
        None
    } else {
        match action {
            TouchpadAction::Tap => Some(base),
            TouchpadAction::Press => Some(base + 1),
            TouchpadAction::Release => Some(base + 2),
        }
    }
}

/// The system's number of a three- or four-finger gesture, if it has one.
pub fn action_code(fingers: u8, action: TouchpadAction) -> (r: Option<i32>)
    ensures
        r matches Some(c) ==> action_number(fingers, action) == Some(c as int),
        r is None <==> action_number(fingers, action) is None,
{
    let base: i32 = if fingers == 4 {
        3
    } else {
        0
    };
    if fingers != 3 && fingers != 4 {
        return None;
    }
    match action {
        TouchpadAction::Tap => Some(base),
        TouchpadAction::Press => Some(base + 1),
        TouchpadAction::Release => Some(base + 2),
    }
}

/// Whether no two contacts have one identifier.
pub open spec fn distinct_ids(s: Seq<TouchpadContact>) -> bool {
    forall|i: int, j: int|
        0 <= i < j < s.len() ==> (#[trigger] s[i]).id != (#[trigger] s[j]).id
}

/// Whether no two contacts have one identifier.
pub fn ids_are_distinct(contacts: &[TouchpadContact]) -> (r: bool)
    ensures
        r == distinct_ids(contacts@),
{
    let mut i: usize = 0;
    while i < contacts.len()
        invariant
            i <= contacts@.len(),
            forall|a: int, b: int|
                0 <= a < b < contacts@.len() && a < i ==> (#[trigger] contacts@[a]).id != (
                #[trigger] contacts@[b]).id,
        decreases contacts@.len() - i,
    {
        let mut j: usize = i + 1;
        while j < contacts.len()
            invariant
                i < j <= contacts@.len(),
                forall|b: int|
                    i < b < j ==> contacts@[i as int].id != (#[trigger] contacts@[b]).id,
            decreases contacts@.len() - j,
        {
            if contacts[i].id == contacts[j].id {
                return false;
            }
            j = j + 1;
        }
        i = i + 1;
    }
    true
}

/// What is down on the synthetic touchpad.
#[derive(Debug, PartialEq, Eq)]
pub struct InjectionState {
    pub stream_id: Option<u32>,
    pub contacts: ContactTable,
    /// Whether a three-finger and a four-finger press is held.
    pub three_held: bool,
    pub four_held: bool,
}

/// What has to be injected so that nothing stays down.
#[derive(Debug, PartialEq, Eq)]
pub struct ReleasePlan {
    pub contacts: Vec<TouchpadContact>,
    /// Numbers of the gestures that lift the held presses.
    pub actions: Vec<i32>,
}

impl InjectionState {
    pub open spec fn well_formed(self) -> bool {
        self.contacts.well_formed()
    }

    /// Nothing is down.
    pub open spec fn idle(self) -> bool {
        self.stream_id is None && self.contacts@.len() == 0 && !self.three_held && !self.four_held
    }

    pub fn new() -> (r: Self)
        ensures
            r.well_formed(),
            r.idle(),
    {
        InjectionState {
            stream_id: None,
            contacts: ContactTable::new(),
            three_held: false,
            four_held: false,
        }
    }

    /// Decides what an event of the peer makes the synthetic touchpad do.
    pub fn inject(&self, event: &TouchpadEvent) -> (r: InjectStep)
        requires
            self.well_formed(),
        ensures
            match *event {
                TouchpadEvent::Action { fingers, action } => match action_number(fingers, action) {
                    Some(code) => r matches InjectStep::Action { code: c } && c == code,
                    None => r == InjectStep::Reject(InjectError::UnsupportedAction),
                },
                TouchpadEvent::Frame { stream_id, count, contacts, terminal } => {
                    if !event.well_formed_frame() {
                        r == InjectStep::Reject(InjectError::MalformedContactCount)
                    } else if !distinct_ids(event.carried()) {
                        r == InjectStep::Reject(InjectError::DuplicateContactId)
                    } else {
                        r matches InjectStep::Frame(plan) && plan.next_contacts.well_formed()
                            && plan.ignored == (terminal && self.stream_id != Some(stream_id)) && (
                        plan.ignored ==> plan.release_before@.len() == 0 && plan.frame@.len() == 0
                            && plan.next_stream_id == self.stream_id && plan.next_contacts@
                            == self.contacts@) && (!plan.ignored ==> {
                            let changed = stream_changed(self.stream_id, stream_id);
                            &&& plan.release_before@ == if changed {
                                self.contacts@
                            } else {
                                Seq::empty()
                            }
                            &&& contacts::by_id(plan.next_contacts@) == contacts::by_id(event.carried())
                            &&& plan.frame@ == transitions(
                                if changed {
                                    Seq::empty()
                                } else {
                                    self.contacts@
                                },
                                plan.next_contacts@,
                            )
                            &&& plan.next_stream_id == if terminal || plan.next_contacts@.len()
                                == 0 {
                                None
                            } else {
                                Some(stream_id)
                            }
                        })
                    }
                },
            },
    {
        match event {
            TouchpadEvent::Action { fingers, action } => match action_code(*fingers, *action) {
                Some(code) => InjectStep::Action { code },
                None => InjectStep::Reject(InjectError::UnsupportedAction),
            },
            TouchpadEvent::Frame { stream_id, terminal, .. } => match event.contacts() {
                None => InjectStep::Reject(InjectError::MalformedContactCount),
                Some(contacts) => {
                    if !ids_are_distinct(contacts) {
                        return InjectStep::Reject(InjectError::DuplicateContactId);
                    }
                    InjectStep::Frame(
                        plan_lifecycle(
                            self.stream_id,
                            &self.contacts,
                            *stream_id,
                            contacts,
                            *terminal,
                        ),
                    )
                },
            },
        }
    }

    /// Remembers that a plan was injected.
    pub fn frame_injected(&mut self, plan: LifecyclePlan)
        requires
            old(self).well_formed(),
            plan.next_contacts.well_formed(),
        ensures
            final(self).well_formed(),
            *final(self) == if plan.ignored {
                *old(self)
            } else {
                InjectionState {
                    stream_id: plan.next_stream_id,
                    contacts: plan.next_contacts,
                    ..*old(self)
                }
            },
    {
        if plan.ignored {
            return ;
        }
        self.stream_id = plan.next_stream_id;
        self.contacts = plan.next_contacts;
    }

    /// Forgets every contact after the system refused a frame.
    pub fn frame_failed(&mut self)
        ensures
            final(self).well_formed(),
            final(self).stream_id is None,
            final(self).contacts@.len() == 0,
            final(self).three_held == old(self).three_held,
            final(self).four_held == old(self).four_held,
    {
        self.contacts.clear();
        self.stream_id = None;
    }

    /// Remembers that a gesture was injected: a press is held until its
    /// release.
    pub fn action_injected(&mut self, fingers: u8, action: TouchpadAction)
        ensures
            final(self).stream_id == old(self).stream_id,
            final(self).contacts == old(self).contacts,
            final(self).three_held == if fingers == 3 && action != TouchpadAction::Tap {
                action == TouchpadAction::Press
            } else {
                old(self).three_held
            },
            final(self).four_held == if fingers == 4 && action != TouchpadAction::Tap {
                action == TouchpadAction::Press
            } else {
                old(self).four_held
            },
    {
        let held = match action {
            TouchpadAction::Press => true,
            TouchpadAction::Release => false,
            TouchpadAction::Tap => {
                return ;
            },
        };
        if fingers == 3 {
            self.three_held = held;
        } else if fingers == 4 {
            self.four_held = held;
        }
    }

    /// Forgets everything that is down and lists what lifts it.
    pub fn release_all(&mut self) -> (r: ReleasePlan)
        requires
            old(self).well_formed(),
        ensures
            final(self).well_formed(),
            final(self).idle(),
            r.contacts@ == old(self).contacts@,
            r.actions@ == (if old(self).three_held {
                seq![2i32]
            } else {
                Seq::empty()
            }) + (if old(self).four_held {
                seq![5i32]
            } else {
                Seq::empty()
            }),
    {
        let ghost three = self.three_held;
        let held: &[TouchpadContact] = self.contacts.contacts();
        let mut contacts: Vec<TouchpadContact> = Vec::new();
        let mut i: usize = 0;
        while i < held.len()
            invariant
                i <= held@.len(),
                contacts@ == held@.take(i as int),
            decreases held@.len() - i,
        {
            contacts.push(held[i]);
            i = i + 1;
            assert(contacts@ =~= held@.take(i as int));
        }
        assert(contacts@ =~= held@);
        let mut actions: Vec<i32> = Vec::new();
        if self.three_held {
            actions.push(2);
        }
        if self.four_held {
            actions.push(5);
        }
        assert(actions@ =~= (if old(self).three_held {
            seq![2i32]
        } else {
            Seq::empty()
        }) + (if old(self).four_held {
            seq![5i32]
        } else {
            Seq::empty()
        }));
        self.contacts.clear();
        self.stream_id = None;
        self.three_held = false;
        self.four_held = false;
        ReleasePlan { contacts, actions }
    }
}

/// Where a contact lies on the synthetic touchpad.
pub fn device_position(contact: TouchpadContact) -> (r: (i32, i32))
    ensures
        r.0 == contact.x * DEVICE_WIDTH / 65_535,
        r.1 == contact.y * DEVICE_HEIGHT / 65_535,
        0 <= r.0 <= DEVICE_WIDTH,
        0 <= r.1 <= DEVICE_HEIGHT,
{
    let x: u32 = contact.x as u32 * DEVICE_WIDTH / 65_535;
    let y: u32 = contact.y as u32 * DEVICE_HEIGHT / 65_535;
    (x as i32, y as i32)
}

/// The pointer flags that the system expects for a transition: a contact that
/// is down is in range and in contact, and every sample is confident.
pub fn pointer_flags(phase: ContactPhase) -> (r: u32)
    ensures
        r == match phase {
            ContactPhase::Down => 0x2 + 0x4 + 0x4000 + 0x1_0000,
            ContactPhase::Update => 0x2 + 0x4 + 0x4000 + 0x2_0000,
            ContactPhase::Up => 0x4000 + 0x4_0000,
        },
{
    match phase {
        ContactPhase::Down => 0x1_4006,
        ContactPhase::Update => 0x2_4006,
        ContactPhase::Up => 0x4_4000,
    }
}

/// The position of `value` between `start` and `end`, on a scale from 0 to
/// 65535; 0 when there is no room between them.
pub open spec fn normalized(value: int, start: int, end: int) -> int {
    let span = end - start;
    if span <= 0 {
        0
    } else {
        (arith::clamp(value - start, 0, span) * 65_535) / span
    }
}

/// Scales a coordinate of the device to the range of a contact.
pub fn normalize_i32(value: i32, start: i32, end: i32) -> (r: u16)
    ensures
        r == normalized(value as int, start as int, end as int),
{
    let span: i64 = end as i64 - start as i64;
    if span <= 0 {
        return 0;
    }
    let raw: i64 = value as i64 - start as i64;
    let offset: i64 = if raw < 0 {
        0
    } else if raw > span {
        span
    } else {
        raw
    };
    proof {
        assert(0 <= offset * 65_535 <= span * 65_535) by (nonlinear_arith)
            requires
                0 <= offset <= span,
        ;
        assert((offset * 65_535) / span as int <= 65_535) by (nonlinear_arith)
            requires
                0 <= offset * 65_535 <= span * 65_535,
                span > 0,
        ;
        assert((offset * 65_535) / span as int >= 0) by (nonlinear_arith)
            requires
                0 <= offset * 65_535,
                span > 0,
        ;
    }
    let scaled: i64 = (offset * 65_535) / span;
    scaled as u16
}

/// A scaled coordinate keeps the order of the device coordinates and spans the
/// whole range.
pub proof fn normalization_is_monotone(a: int, b: int, start: int, end: int)
    requires
        a <= b,
    ensures
        normalized(a, start, end) <= normalized(b, start, end),
        0 <= normalized(a, start, end) <= 65_535,
        start < end ==> normalized(start, start, end) == 0 && normalized(end, start, end) == 65_535,
{
    let span = end - start;
    if span > 0 {
        let x = arith::clamp(a - start, 0, span);
        let y = arith::clamp(b - start, 0, span);
        assert(x * 65_535 <= y * 65_535 && 0 <= x * 65_535 <= span * 65_535) by (nonlinear_arith)
            requires
                0 <= x <= y <= span,
        ;
        vstd::arithmetic::div_mod::lemma_div_is_ordered(x * 65_535, y * 65_535, span);
        vstd::arithmetic::div_mod::lemma_div_is_ordered(x * 65_535, span * 65_535, span);
        assert((span * 65_535) / span == 65_535) by (nonlinear_arith)
            requires
                span > 0,
        ;
        assert(0int * 65_535 == 0);
        vstd::arithmetic::div_mod::lemma_div_is_ordered(0, x * 65_535, span);
        assert(0int / span == 0) by (nonlinear_arith)
            requires
                span > 0,
        ;
    }
}

/// The left and the right key of a modifier.
#[derive(Debug, Clone, Copy, PartialEq, Eq, Structural)]
pub struct ModifierPair {
    pub left: bool,
    pub right: bool,
}

impl ModifierPair {
    pub open spec fn none(self) -> bool {
        !self.left && !self.right
    }
}

/// The key by which the two ways of hearing of a key edge are matched. The
/// scan code tells the two shift keys apart, and the two ways disagree about
/// their extended bit, so it is left out for them.
pub open spec fn edge_identity(scan: u32, extended: bool) -> (u32, bool) {
    (scan, extended && scan != 0x2a && scan != 0x36)
}

/// Key presses that reached this machine although they went to the peer, and
/// whose release has to reach it too.
#[derive(Debug, PartialEq, Eq)]
pub struct LegacyPassthroughTracker {
    held: Vec<(u32, bool)>,
}

impl View for LegacyPassthroughTracker {
    type V = Set<(u32, bool)>;

    closed spec fn view(&self) -> Set<(u32, bool)> {
        Set::new(|k: (u32, bool)| self.held@.contains(k))
    }
}

impl Default for LegacyPassthroughTracker {
    fn default() -> (r: Self)
        ensures
            r@ == Set::<(u32, bool)>::empty(),
    {
        let r = LegacyPassthroughTracker { held: Vec::new() };
        assert(r@ =~= Set::<(u32, bool)>::empty());
        r
    }
}

impl LegacyPassthroughTracker {
    /// Forgets every press.
    pub fn clear(&mut self)
        ensures
            final(self)@ == Set::<(u32, bool)>::empty(),
    {
        self.held.clear();
        assert(self@ =~= Set::<(u32, bool)>::empty());
    }

    fn identity(scan: u32, extended: bool) -> (r: (u32, bool))
        ensures
            r == edge_identity(scan, extended),
    {
        (scan, extended && scan != 0x2a && scan != 0x36)
    }

    /// Removes a press; tells whether there was one.
    fn discard(&mut self, key: (u32, bool)) -> (found: bool)
        ensures
            found == old(self)@.contains(key),
            final(self)@ == old(self)@.remove(key),
    {
        let mut kept: Vec<(u32, bool)> = Vec::new();
        let mut found = false;
        let mut i: usize = 0;
        let ghost before = self.held@;
        while i < self.held.len()
            invariant
                i <= self.held@.len(),
                before == self.held@,
                found == (exists|j: int| 0 <= j < i && #[trigger] before[j] == key),
                forall|k: (u32, bool)| #[trigger]
                    kept@.contains(k) <==> k != key && exists|j: int|
                        0 <= j < i && #[trigger] before[j] == k,
            decreases self.held@.len() - i,
        {
            let entry = self.held[i];
            let ghost kept_before = kept@;
            if entry.0 == key.0 && entry.1 == key.1 {
                found = true;
                assert(before[i as int] == key);
            } else {
                kept.push(entry);
                assert forall|k: (u32, bool)| #[trigger]
                    kept@.contains(k) <==> kept_before.contains(k) || k == entry by {
                    if kept_before.contains(k) {
                        let m = choose|m: int| 0 <= m < kept_before.len() && kept_before[m] == k;
                        assert(kept@[m] == k);
                    }
                    assert(kept@[kept@.len() - 1] == entry);
                }
            }
            assert(before[i as int] == entry);
            i = i + 1;
        }
        self.held = kept;
        proof {
            assert forall|k: (u32, bool)| #[trigger] before.contains(k) <==> exists|j: int|
                0 <= j < before.len() && #[trigger] before[j] == k by {}
            assert(self@ =~= old(self)@.remove(key));
        }
        found
    }

    /// Notes a key edge that reached this machine.
    pub fn note_legacy_edge(&mut self, scan: u32, extended: bool, down: bool)
        ensures
            final(self)@ == if down {
                old(self)@.insert(edge_identity(scan, extended))
            } else {
                old(self)@.remove(edge_identity(scan, extended))
            },
    {
        let key = Self::identity(scan, extended);
        if down {
            let ghost before = self.held@;
            self.held.push(key);
            proof {
                assert forall|k: (u32, bool)| #[trigger]
                    self.held@.contains(k) <==> before.contains(k) || k == key by {
                    if before.contains(k) {
                        let m = choose|m: int| 0 <= m < before.len() && before[m] == k;
                        assert(self.held@[m] == k);
                    }
                    assert(self.held@[before.len() as int] == key);
                }
                assert(self@ =~= old(self)@.insert(key));
            }
        } else {
            self.discard(key);
        }
    }

    /// Takes back one press: tells whether its release has to reach this
    /// machine.
    pub fn take_hook_release(&mut self, scan: u32, extended: bool) -> (r: bool)
        ensures
            r == old(self)@.contains(edge_identity(scan, extended)),
            final(self)@ == old(self)@.remove(edge_identity(scan, extended)),
    {
        self.discard(Self::identity(scan, extended))
    }
}

/// One press that reached this machine lets exactly one release through.
pub proof fn one_escaped_press_permits_one_release(
    held: Set<(u32, bool)>,
    scan: u32,
    down_ext: bool,
    up_ext: bool,
)
    ensures
        down_ext == up_ext || scan == 0x2a || scan == 0x36 ==> held.insert(
            edge_identity(scan, down_ext),
        ).contains(edge_identity(scan, up_ext)),
        !held.insert(edge_identity(scan, down_ext)).remove(edge_identity(scan, up_ext)).contains(
            edge_identity(scan, up_ext),
        ),
{
}

/// Whether a shift press that went to the peer has to be cleared in the key
/// state of the capture thread.
pub fn should_neutralize_routed_legacy_shift(scan: u32, down: bool, routed: bool) -> (r: bool)
    ensures
        r == (routed && down && (scan == 0x2a || scan == 0x36)),
{
    routed && down && (scan == 0x2a || scan == 0x36)
}

/// Whether the touchpad is sent to the peer: asked for, in the foreground, and
/// with at least one kind of capture that the peer can inject.
pub fn should_enable_native_capture(
    requested: bool,
    frames: bool,
    actions: bool,
    foreground_owned: bool,
) -> (r: bool)
    ensures
        r == (requested && foreground_owned && (frames || actions)),
{
    requested && foreground_owned && (frames || actions)
}

/// The capture window: a small square centred under the anchored cursor.
pub fn capture_window_rect(anchor_x: i32, anchor_y: i32) -> (r: (i32, i32, i32, i32))
    requires
        i32::MIN <= anchor_x - 2,
        i32::MIN <= anchor_y - 2,
    ensures
        r == (
            (anchor_x - 2) as i32,
            (anchor_y - 2) as i32,
            CAPTURE_WINDOW_SIZE,
            CAPTURE_WINDOW_SIZE,
        ),
{
    (
        anchor_x - CAPTURE_WINDOW_SIZE / 2,
        anchor_y - CAPTURE_WINDOW_SIZE / 2,
        CAPTURE_WINDOW_SIZE,
        CAPTURE_WINDOW_SIZE,
    )
}

/// Whether a release of Tab stands for a press that the shell kept.
pub fn should_recover_reserved_alt_tab(scan: u32, down: bool, routed: bool, alt_held: bool) -> (r:
    bool)
    ensures
        r == (scan == 0x0f && !down && !routed && alt_held),
{
    scan == 0x0f && !down && !routed && alt_held
}

/// Whether a key that reaches the capture window may be sent. The shell sees
/// the two logo keys first, so sending them would act on both machines.
pub fn legacy_capture_may_forward(scan: u32) -> (r: bool)
    ensures
        r == (scan != 0x5b && scan != 0x5c),
{
    scan != 0x5b && scan != 0x5c
}

/// What a modifier edge does to the foreground capture.
#[derive(Debug, Clone, Copy, PartialEq, Eq, Structural)]
pub enum KeyboardCaptureAction {
    Keep,
    Suspend,
    Resume,
}

/// Whether a key is one of the modifiers that suspend the capture: the two
/// shift, alt and logo keys.
pub open spec fn suspends_capture(code: u16) -> bool {
    code == 42 || code == 54 || code == 56 || code == 100 || code == 125 || code == 126
}

/// A modifier press suspends the foreground capture, and the release of the
/// last one resumes it.
pub fn keyboard_capture_action(code: u16, down: bool, no_modifiers_held: bool) -> (r:
    KeyboardCaptureAction)
    ensures
        r == if !suspends_capture(code) {
            KeyboardCaptureAction::Keep
        } else if down {
            KeyboardCaptureAction::Suspend
        } else if no_modifiers_held {
            KeyboardCaptureAction::Resume
        } else {
            KeyboardCaptureAction::Keep
        },
{
    if !(code == 42 || code == 54 || code == 56 || code == 100 || code == 125 || code == 126) {
        return KeyboardCaptureAction::Keep;
    }
    if down {
        KeyboardCaptureAction::Suspend
    } else if no_modifiers_held {
        KeyboardCaptureAction::Resume
    } else {
        KeyboardCaptureAction::Keep
    }
}

/// The Tab edge that a raw report sends: each physical edge of a Tab held with
/// Alt once, and the release of a Tab that was sent.
pub fn raw_alt_tab_edge(
    capture_active: bool,
    alt_down: bool,
    scan: u32,
    down: bool,
    tab_forwarded: bool,
) -> (r: Option<bool>)
    ensures
        r == if capture_active && scan == 0x0f && (alt_down || tab_forwarded) && down
            != tab_forwarded {
            Some(down)
        } else {
            None
        },
{
    if !capture_active || scan != 0x0f || (!alt_down && !tab_forwarded) {
        return None;
    }
    if down != tab_forwarded {
        Some(down)
    } else {
        None
    }
}

/// The S edge that a raw report sends: only the release of an S that was sent.
pub fn raw_snipping_edge(
    capture_requested: bool,
    shift_down: bool,
    meta_down: bool,
    scan: u32,
    down: bool,
    s_forwarded: bool,
) -> (r: Option<bool>)
    ensures
        r == if scan == 0x1f && !down && s_forwarded {
            Some(false)
        } else {
            None
        },
{
    if scan != 0x1f || down {
        return None;
    }
    if s_forwarded {
        Some(false)
    } else {
        None
    }
}

/// The logo-key edge that a raw report sends: only the release of a logo key
/// that was sent.
pub fn raw_meta_edge(capture_requested: bool, down: bool, forwarded: bool) -> (r: Option<bool>)
    ensures
        r == if !down && forwarded {
            Some(false)
        } else {
            None
        },
{
    if !down && forwarded {
        Some(false)
    } else {
        None
    }
}

/// The Tab edge that polling finds: the press of a Tab held with Alt while the
/// capture is on, and the end of one that was sent.
pub open spec fn polled_edge(
    capture_active: bool,
    alt_down: bool,
    tab_down: bool,
    tab_forwarded: bool,
) -> Option<bool> {
    if !tab_forwarded && capture_active && alt_down && tab_down {
        Some(true)
    } else if tab_forwarded && (!capture_active || !tab_down) {
        Some(false)
    } else {
        None
    }
}

/// Looks for a Tab edge that no report brought.
pub fn reserved_alt_tab_poll_edge(
    capture_active: bool,
    alt_down: bool,
    tab_down: bool,
    tab_forwarded: bool,
) -> (r: Option<bool>)
    ensures
        r == polled_edge(capture_active, alt_down, tab_down, tab_forwarded),
{
    if !tab_forwarded {
        return if capture_active && alt_down && tab_down {
            Some(true)
        } else {
            None
        };
    }
    if !capture_active || !tab_down {
        Some(false)
    } else {
        None
    }
}

/// Polling sends presses and releases of Tab in turn: an edge that is found
/// always differs from the last one that was sent.
pub proof fn polled_edges_alternate(capture: bool, alt: bool, tab: bool, forwarded: bool)
    ensures
        polled_edge(capture, alt, tab, forwarded) != Some(forwarded),
        !capture && forwarded ==> polled_edge(capture, alt, tab, forwarded) == Some(false),
{
}

/// The message numbers of key presses and releases.
pub const WM_KEYDOWN: u32 = 0x0100;

pub const WM_KEYUP: u32 = 0x0101;

pub const WM_SYSKEYDOWN: u32 = 0x0104;

pub const WM_SYSKEYUP: u32 = 0x0105;

/// Whether a message reports a key press or release.
pub open spec fn key_message(msg: u32) -> bool {
    msg == WM_KEYDOWN || msg == WM_SYSKEYDOWN || msg == WM_KEYUP || msg == WM_SYSKEYUP
}

/// Reads scan code, virtual key, extended bit and direction of a key message.
/// The scan code is the third byte of the message's data, the extended bit the
/// lowest bit of the fourth.
pub fn legacy_key_from_message(msg: u32, wparam: u64, lparam: u64) -> (r: Option<
    (u32, u32, bool, bool),
>)
    ensures
        r == if key_message(msg) {
            Some(
                (
                    ((lparam / 0x1_0000) % 0x100) as u32,
                    (wparam % 0x1_0000_0000) as u32,
                    (lparam / 0x100_0000) % 2 == 1,
                    msg == WM_KEYDOWN || msg == WM_SYSKEYDOWN,
                ),
            )
        } else {
            None
        },
{
    let down = if msg == WM_KEYDOWN || msg == WM_SYSKEYDOWN {
        true
    } else if msg == WM_KEYUP || msg == WM_SYSKEYUP {
        false
    } else {
        return None;
    };
    let scan: u32 = ((lparam / 0x1_0000) % 0x100) as u32;
    let extended = (lparam / 0x100_0000) % 2 == 1;
    let vk: u32 = (wparam % 0x1_0000_0000) as u32;
    Some((scan, vk, extended, down))
}

/// Every finger of a frame is put down where it was not, moved where it was, and
/// lifted where the frame does not name it any more. A frame of another stream
/// lifts the fingers of the old one first; the end of another stream is ignored.
pub proof fn frames_move_the_fingers_that_stay(
    s: &InjectionState,
    event: &TouchpadEvent,
    r: InjectStep,
    stream: u32,
    ends: bool,
)
    requires
        call_ensures(InjectionState::inject, (s, event), r),
        s.well_formed(),
        event.well_formed_frame(),
        distinct_ids(event.carried()),
        *event matches TouchpadEvent::Frame { stream_id, terminal, .. } && stream_id == stream
            && terminal == ends,
    ensures
        r matches InjectStep::Frame(plan) && {
            &&& plan.ignored <==> ends && s.stream_id != Some(stream)
            &&& s.stream_id is Some && s.stream_id != Some(stream) && !ends
                ==> plan.release_before@ == s.contacts@
            &&& s.stream_id == Some(stream) ==> plan.release_before@.len() == 0
            &&& ends && s.stream_id == Some(stream) ==> plan.next_stream_id is None
            &&& !ends && event.carried().len() > 0 && plan.next_contacts@.len() > 0
                ==> plan.next_stream_id == Some(stream)
            &&& !plan.ignored ==> contacts::by_id(plan.next_contacts@) == contacts::by_id(
                event.carried(),
            )
        },
{
}

/// A frame that says more or fewer fingers than it names, or one finger twice, is
/// refused, and so is a gesture of any but three or four fingers; a gesture of those
/// has a number of its own.
pub proof fn broken_events_are_refused(s: &InjectionState, event: &TouchpadEvent, r: InjectStep)
    requires
        call_ensures(InjectionState::inject, (s, event), r),
    ensures
        event is Frame && !event.well_formed_frame() ==> r is Reject,
        event is Frame && event.well_formed_frame() && !distinct_ids(event.carried()) ==> r
            is Reject,
        event is Frame && event.well_formed_frame() && distinct_ids(event.carried()) ==> r
            is Frame,
        *event matches TouchpadEvent::Action { fingers, action } ==> (r is Reject <==> fingers != 3
            && fingers != 4) && (fingers == 3 ==> r == InjectStep::Action {
            code: match action {
                TouchpadAction::Tap => 0,
                TouchpadAction::Press => 1,
                TouchpadAction::Release => 2,
            },
        }) && (fingers == 4 ==> r == InjectStep::Action {
            code: match action {
                TouchpadAction::Tap => 3,
                TouchpadAction::Press => 4,
                TouchpadAction::Release => 5,
            },
        }),
{
}

/// A gesture that was pressed is held until it is released, and letting go releases
/// what is held: every finger, and each gesture once.
pub proof fn letting_go_releases_what_is_held(
    s: (&mut InjectionState, &mut InjectionState),
    fingers: u8,
    r: ReleasePlan,
)
    requires
        call_ensures(InjectionState::action_injected, (s.0, fingers, TouchpadAction::Press), ()),
        *old(s.1) == *final(s.0),
        call_ensures(InjectionState::release_all, (s.1,), r),
        old(s.0).well_formed(),
        !old(s.0).three_held && !old(s.0).four_held,
    ensures
        r.contacts@ == old(s.0).contacts@,
        fingers == 3 ==> r.actions@ == seq![2i32],
        fingers == 4 ==> r.actions@ == seq![5i32],
        fingers != 3 && fingers != 4 ==> r.actions@.len() == 0,
        final(s.1).stream_id is None,
        final(s.1).contacts@.len() == 0,
        !final(s.1).three_held && !final(s.1).four_held,
{
    if fingers == 3 {
        assert(r.actions@ =~= seq![2i32]);
    }
    if fingers == 4 {
        assert(r.actions@ =~= seq![5i32]);
    }
}

/// A finger keeps its side of the touchpad: nothing is the left and the top, all is
/// the right and the bottom, and further is never less.
pub proof fn fingers_keep_their_places(
    c: (TouchpadContact, TouchpadContact),
    r: ((i32, i32), (i32, i32)),
)
    requires
        call_ensures(device_position, (c.0,), r.0),
        call_ensures(device_position, (c.1,), r.1),
    ensures
        c.0.x == 0 ==> r.0.0 == 0,
        c.0.y == 0 ==> r.0.1 == 0,
        c.0.x == 65_535 ==> r.0.0 == 10_000,
        c.0.y == 65_535 ==> r.0.1 == 6_000,
        c.0.x <= c.1.x ==> r.0.0 <= r.1.0,
        c.0.y <= c.1.y ==> r.0.1 <= r.1.1,
{
}

/// A press tells a finger from its lift: both are in range while it touches, and
/// only the first and the last of them are a change.
pub proof fn phases_have_their_flags(phase: ContactPhase, r: u32)
    requires
        call_ensures(pointer_flags, (phase,), r),
    ensures
        ((r / 0x2) % 2 == 1) == (phase != ContactPhase::Up),
        ((r / 0x4) % 2 == 1) == (phase != ContactPhase::Up),
        ((r / 0x1_0000) % 2 == 1) == (phase == ContactPhase::Down),
        ((r / 0x2_0000) % 2 == 1) == (phase == ContactPhase::Update),
        ((r / 0x4_0000) % 2 == 1) == (phase == ContactPhase::Up),
{
}

/// A key that escaped as a press is let through as a release once, and no key is
/// that did not; both shift keys are one each, with the prefix or without it.
pub proof fn an_escaped_press_is_released_once(
    t: (&mut LegacyPassthroughTracker, &mut LegacyPassthroughTracker, &mut LegacyPassthroughTracker),
    scan: u32,
    extended: (bool, bool),
    r: (bool, bool),
)
    requires
        call_ensures(
            LegacyPassthroughTracker::note_legacy_edge,
            (t.0, scan, extended.0, true),
            (),
        ),
        *old(t.1) == *final(t.0),
        call_ensures(
            LegacyPassthroughTracker::take_hook_release,
            (t.1, scan, extended.1),
            r.0,
        ),
        *old(t.2) == *final(t.1),
        call_ensures(
            LegacyPassthroughTracker::take_hook_release,
            (t.2, scan, extended.1),
            r.1,
        ),
        extended.0 == extended.1 || scan == 0x2a || scan == 0x36,
    ensures
        r.0,
        !r.1,
{
}

/// Alt and Tab together are sent as long as both are down and the touchpad is
/// captured: one press, and then one release when the first of them goes up or the
/// capture ends.
pub proof fn a_reserved_tab_is_sent_once(
    capture: bool,
    alt: bool,
    tab: bool,
    forwarded: bool,
    r: Option<bool>,
)
    requires
        call_ensures(reserved_alt_tab_poll_edge, (capture, alt, tab, forwarded), r),
    ensures
        r == Some(true) <==> !forwarded && capture && alt && tab,
        r == Some(false) <==> forwarded && !(capture && tab),
{
}

/// A message of the window tells its key: the scan code in the third byte, whether
/// it has the prefix in the bit above it, and the virtual key.
pub proof fn a_key_message_tells_its_key(
    msg: u32,
    scan: u64,
    extended: bool,
    vk: u64,
    count: u64,
    r: Option<(u32, u32, bool, bool)>,
)
    requires
        count < 0x1_0000,
        scan < 0x100,
        vk < 0x1_0000_0000,
        call_ensures(
            legacy_key_from_message,
            (msg, vk, (count + scan * 0x1_0000 + if extended {
                0x100_0000int
            } else {
                0
            }) as u64),
            r,
        ),
    ensures
        msg == 0x100 || msg == 0x104 ==> r == Some((scan as u32, vk as u32, extended, true)),
        msg == 0x101 || msg == 0x105 ==> r == Some((scan as u32, vk as u32, extended, false)),
        r is Some <==> msg == 0x100 || msg == 0x104 || msg == 0x101 || msg == 0x105,
{
    let l = (count + scan * 0x1_0000 + if extended {
        0x100_0000int
    } else {
        0
    }) as u64;
    assert(l / 0x1_0000 == scan + if extended {
        0x100int
    } else {
        0
    });
    assert(l / 0x100_0000 == if extended {
        1int
    } else {
        0
    });
}

/// The window that takes the touchpad stands around the cursor.
pub proof fn the_window_stands_around_the_cursor(x: i32, y: i32, r: (i32, i32, i32, i32))
    requires
        call_ensures(capture_window_rect, (x, y), r),
        i32::MIN + 2 <= x,
        i32::MIN + 2 <= y,
    ensures
        r.0 <= x < r.0 + r.2,
        r.1 <= y < r.1 + r.3,
{
}

/// Fingers are told apart by their numbers: one finger is always itself, two are two
/// where their numbers differ, and any that are taken for one share a number.
pub proof fn fingers_are_told_apart(contacts: &[TouchpadContact], r: bool)
    requires
        call_ensures(ids_are_distinct, (contacts,), r),
    ensures
        contacts@.len() <= 1 ==> r,
        contacts@.len() == 2 ==> (r <==> contacts@[0].id != contacts@[1].id),
        !r ==> exists|i: int, j: int|
            0 <= i < j < contacts@.len() && (#[trigger] contacts@[i]).id == (
            #[trigger] contacts@[j]).id,
        r ==> forall|i: int, j: int|
            0 <= i < j < contacts@.len() ==> (#[trigger] contacts@[i]).id != (
            #[trigger] contacts@[j]).id,
{
}

} // verus!
