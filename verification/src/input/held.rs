//! The keys and buttons that the peer is meant to hold down.

use crate::input::events::{Button, InputEvent, KeyCode};
use vstd::prelude::*;

verus! {

/// How many key codes are tracked.
pub const KEY_COUNT: usize = 1024;

/// Position of a button in a set of buttons.
pub open spec fn button_index(btn: Button) -> int {
    match btn {
        Button::Left => 0,
        Button::Right => 1,
        Button::Middle => 2,
        Button::X1 => 3,
        Button::X2 => 4,
    }
}

/// Position of a button in a set of buttons.
pub fn btn_index(btn: Button) -> (r: usize)
    ensures
        r == button_index(btn),
        r < 5,
{
    match btn {
        Button::Left => 0,
        Button::Right => 1,
        Button::Middle => 2,
        Button::X1 => 3,
        Button::X2 => 4,
    }
}

/// Whether bit `i` of a word is set.
pub open spec fn word_bit(w: u64, i: int) -> bool {
    w & (1u64 << (i as u64)) != 0
}

/// Whether bit `i` of a byte is set.
pub open spec fn byte_bit(b: u8, i: int) -> bool {
    b & (1u8 << (i as u8)) != 0
}

proof fn lemma_word_bits(w: u64, i: u64, j: u64)
    requires
        i < 64,
        j < 64,
    ensures
        ((w | (1u64 << i)) & (1u64 << j) != 0) == (i == j || w & (1u64 << j) != 0),
        ((w & !(1u64 << i)) & (1u64 << j) != 0) == (i != j && w & (1u64 << j) != 0),
{
    assert(((w | (1u64 << i)) & (1u64 << j) != 0) == (i == j || w & (1u64 << j) != 0))
        by (bit_vector)
        requires
            i < 64,
            j < 64,
    ;
    assert(((w & !(1u64 << i)) & (1u64 << j) != 0) == (i != j && w & (1u64 << j) != 0))
        by (bit_vector)
        requires
            i < 64,
            j < 64,
    ;
}

proof fn lemma_byte_bits(b: u8, i: u8, j: u8)
    requires
        i < 8,
        j < 8,
    ensures
        ((b | (1u8 << i)) & (1u8 << j) != 0) == (i == j || b & (1u8 << j) != 0),
        ((b & !(1u8 << i)) & (1u8 << j) != 0) == (i != j && b & (1u8 << j) != 0),
{
    assert(((b | (1u8 << i)) & (1u8 << j) != 0) == (i == j || b & (1u8 << j) != 0)) by (bit_vector)
        requires
            i < 8,
            j < 8,
    ;
    assert(((b & !(1u8 << i)) & (1u8 << j) != 0) == (i != j && b & (1u8 << j) != 0))
        by (bit_vector)
        requires
            i < 8,
            j < 8,
    ;
}

proof fn lemma_word_zero(w: u64)
    ensures
        w == 0 <==> (forall|i: int| 0 <= i < 64 ==> !#[trigger] word_bit(w, i)),
{
    if w == 0 {
        assert forall|i: int| 0 <= i < 64 implies !#[trigger] word_bit(w, i) by {
            let k = i as u64;
            assert(0u64 & (1u64 << k) == 0) by (bit_vector);
        }
    } else {
        assert(w != 0 ==> exists|k: u64| k < 64 && w & (1u64 << k) != 0) by {
            assert(w >> 0u64 == w) by (bit_vector);
            lemma_lowest_bit(w, 0);
        }
        let k = choose|k: u64| k < 64 && w & (1u64 << k) != 0;
        assert(word_bit(w, k as int));
    }
}

spec fn lowest_bit(w: u64, from: int) -> u64
    decreases 64 - from,
{
    if from >= 63 {
        63
    } else if word_bit(w, from) {
        from as u64
    } else {
        lowest_bit(w, from + 1)
    }
}

proof fn lemma_lowest_bit(w: u64, from: int)
    requires
        0 <= from <= 63,
        (w >> (from as u64)) != 0,
    ensures
        lowest_bit(w, from) < 64,
        w & (1u64 << lowest_bit(w, from)) != 0,
    decreases 64 - from,
{
    let k = from as u64;
    if from == 63 {
        assert((w >> 63u64) != 0 ==> w & (1u64 << 63u64) != 0) by (bit_vector);
    } else if !word_bit(w, from) {
        let n = (k + 1) as u64;
        assert((w >> k) != 0 && w & (1u64 << k) == 0 && k < 63 && n == k + 1 ==> (w >> n) != 0)
            by (bit_vector);
        lemma_lowest_bit(w, from + 1);
    }
}


/// A set of held keys and buttons.
#[verifier::ext_equal]
pub struct Held {
    pub keys: Set<int>,
    pub buttons: Set<Button>,
}

impl Held {
    /// Nothing is held.
    pub open spec fn nothing() -> Held {
        Held { keys: Set::empty(), buttons: Set::empty() }
    }

    /// What is held after one event: a key or button edge changes that key or
    /// button, any other event changes nothing. Key codes from `KEY_COUNT` on
    /// are not tracked.
    pub open spec fn after(self, event: InputEvent) -> Held {
        match event {
            InputEvent::Key { code, down } => if code.0 >= KEY_COUNT {
                self
            } else if down {
                Held { keys: self.keys.insert(code.0 as int), ..self }
            } else {
                Held { keys: self.keys.remove(code.0 as int), ..self }
            },
            InputEvent::MouseButton { btn, down } => if down {
                Held { buttons: self.buttons.insert(btn), ..self }
            } else {
                Held { buttons: self.buttons.remove(btn), ..self }
            },
            _ => self,
        }
    }

    /// What is held after a sequence of events.
    pub open spec fn after_all(self, events: Seq<InputEvent>) -> Held
        decreases events.len(),
    {
        if events.len() == 0 {
            self
        } else {
            self.after_all(events.drop_last()).after(events.last())
        }
    }

    /// The key edges, in ascending order, by which this set and `desired`
    /// differ among the first `n` codes.
    pub open spec fn key_edges(self, desired: Held, n: int) -> Seq<InputEvent>
        decreases n,
    {
        if n <= 0 {
            Seq::empty()
        } else if self.keys.contains(n - 1) == desired.keys.contains(n - 1) {
            self.key_edges(desired, n - 1)
        } else {
            self.key_edges(desired, n - 1).push(
                InputEvent::Key {
                    code: KeyCode((n - 1) as u16),
                    down: desired.keys.contains(n - 1),
                },
            )
        }
    }

    /// The button edges by which this set and `desired` differ among the
    /// first `n` buttons.
    pub open spec fn button_edges(self, desired: Held, n: int) -> Seq<InputEvent>
        decreases n,
    {
        if n <= 0 {
            Seq::empty()
        } else {
            let btn = nth_button(n - 1);
            let rest = self.button_edges(desired, n - 1);
            if self.buttons.contains(btn) == desired.buttons.contains(btn) {
                rest
            } else {
                rest.push(InputEvent::MouseButton { btn, down: desired.buttons.contains(btn) })
            }
        }
    }

    /// The edges that turn this set into `desired`: keys first, then buttons.
    pub open spec fn edges_to(self, desired: Held) -> Seq<InputEvent> {
        self.key_edges(desired, KEY_COUNT as int) + self.button_edges(desired, 5)
    }
}

/// The button at a position of the fixed order in which buttons are listed.
pub open spec fn nth_button(i: int) -> Button {
    if i == 0 {
        Button::Left
    } else if i == 1 {
        Button::Right
    } else if i == 2 {
        Button::Middle
    } else if i == 3 {
        Button::X1
    } else {
        Button::X2
    }
}

/// The keys and buttons currently routed to the peer, in a compact form that
/// is sent now and then so that a lost key or button edge is repaired.
#[derive(Debug, Clone, Copy, PartialEq, Eq)]
pub struct ForwardedInputState {
    key_words: [u64; 16],
    mouse_buttons: u8,
}

impl View for ForwardedInputState {
    type V = Held;

    closed spec fn view(&self) -> Held {
        Held {
            keys: Set::new(
                |k: int| 0 <= k < KEY_COUNT && word_bit(self.key_words@[k / 64], k % 64),
            ),
            buttons: Set::new(|b: Button| byte_bit(self.mouse_buttons, button_index(b))),
        }
    }
}

impl Default for ForwardedInputState {
    fn default() -> (r: Self)
        ensures
            r.well_formed(),
            r@ == Held::nothing(),
    {
        let words: [u64; 16] = [0u64;16];
        let r = ForwardedInputState { key_words: words, mouse_buttons: 0 };
        proof {
            lemma_word_zero(0);
            assert forall|i: int| 0 <= i < 8 implies !#[trigger] byte_bit(0, i) by {
                let k = i as u8;
                assert(0u8 & (1u8 << k) == 0) by (bit_vector);
            }
            assert(r@ =~= Held::nothing());
        }
        r
    }
}

impl ForwardedInputState {
    /// No bit beyond those of the five buttons is set.
    pub closed spec fn well_formed(self) -> bool {
        forall|i: int| 5 <= i < 8 ==> !#[trigger] byte_bit(self.mouse_buttons, i)
    }

    /// Every key of a snapshot has a code below `KEY_COUNT`.
    pub proof fn keys_are_tracked(self)
        ensures
            forall|k: int| #[trigger] self@.keys.contains(k) ==> 0 <= k < KEY_COUNT,
    {
    }

    /// Whether anything is held.
    pub fn any_held(&self) -> (r: bool)
        requires
            self.well_formed(),
        ensures
            r == (self@ != Held::nothing()),
    {
        if self.mouse_buttons != 0 {
            proof {
                let b = self.mouse_buttons;
                assert(b != 0 ==> b & (1u8 << 0u8) != 0 || b & (1u8 << 1u8) != 0 || b & (1u8 << 2u8)
                    != 0 || b & (1u8 << 3u8) != 0 || b & (1u8 << 4u8) != 0 || b & (1u8 << 5u8) != 0
                    || b & (1u8 << 6u8) != 0 || b & (1u8 << 7u8) != 0) by (bit_vector);
                assert(!byte_bit(b, 5) && !byte_bit(b, 6) && !byte_bit(b, 7));
                let held = self@.buttons;
                assert(held.contains(Button::Left) || held.contains(Button::Right)
                    || held.contains(Button::Middle) || held.contains(Button::X1) || held.contains(
                    Button::X2,
                ));
            }
            return true;
        }
        proof {
            assert forall|b: Button| !#[trigger] self@.buttons.contains(b) by {
                let i = button_index(b) as u8;
                assert(0u8 & (1u8 << i) == 0) by (bit_vector);
            }
        }
        let mut i: usize = 0;
        while i < 16
            invariant
                i <= 16,
                forall|j: int| 0 <= j < i ==> self.key_words@[j] == 0,
                forall|b: Button| !#[trigger] self@.buttons.contains(b),
            decreases 16 - i,
        {
            if self.key_words[i] != 0 {
                proof {
                    let w = self.key_words@[i as int];
                    lemma_word_zero(w);
                    let k = choose|k: int| 0 <= k < 64 && #[trigger] word_bit(w, k);
                    let code = i * 64 + k;
                    assert(code / 64 == i && code % 64 == k);
                    assert(self@.keys.contains(code));
                }
                return true;
            }
            i = i + 1;
        }
        proof {
            assert forall|k: int| !#[trigger] self@.keys.contains(k) by {
                if 0 <= k < KEY_COUNT {
                    lemma_word_zero(self.key_words@[k / 64]);
                }
            }
            assert(self@ =~= Held::nothing());
        }
        false
    }

    /// Whether the key with this code is held.
    pub fn key_is_down(&self, code: u16) -> (r: bool)
        ensures
            r == self@.keys.contains(code as int),
    {
        let index: usize = code as usize;
        if index < KEY_COUNT {
            let word: u64 = self.key_words[index / 64];
            let shift: u64 = (index % 64) as u64;
            word & (1u64 << shift) != 0
        } else {
            false
        }
    }

    /// Whether the button is held.
    pub fn button_is_down(&self, btn: Button) -> (r: bool)
        ensures
            r == self@.buttons.contains(btn),
    {
        let shift: u8 = btn_index(btn) as u8;
        self.mouse_buttons & (1u8 << shift) != 0
    }

    /// Notes a key edge. Codes from `KEY_COUNT` on are not tracked.
    pub fn set_key(&mut self, code: u16, down: bool)
        ensures
            final(self)@ == old(self)@.after(InputEvent::Key { code: KeyCode(code), down }),
            old(self).well_formed() ==> final(self).well_formed(),
    {
        let index: usize = code as usize;
        if index >= KEY_COUNT {
            return;
        }
        let ghost before = *self;
        let shift: u64 = (index % 64) as u64;
        let slot: usize = index / 64;
        let word: u64 = self.key_words[slot];
        let changed: u64 = if down {
            word | (1u64 << shift)
        } else {
            word & !(1u64 << shift)
        };
        self.key_words[slot] = changed;
        proof {
            let expected = before@.after(InputEvent::Key { code: KeyCode(code), down });
            assert forall|k: int| #[trigger] self@.keys.contains(k) == expected.keys.contains(k) by {
                if 0 <= k < KEY_COUNT && k / 64 == slot {
                    lemma_word_bits(word, shift, (k % 64) as u64);
                }
            }
            assert(self@ =~= expected);
        }
    }

    /// Notes a button edge.
    pub fn set_button(&mut self, btn: Button, down: bool)
        ensures
            final(self)@ == old(self)@.after(InputEvent::MouseButton { btn, down }),
            old(self).well_formed() ==> final(self).well_formed(),
    {
        let ghost before = *self;
        let shift: u8 = btn_index(btn) as u8;
        let byte: u8 = self.mouse_buttons;
        self.mouse_buttons =
        if down {
            byte | (1u8 << shift)
        } else {
            byte & !(1u8 << shift)
        };
        proof {
            let expected = before@.after(InputEvent::MouseButton { btn, down });
            assert forall|b: Button| #[trigger]
                self@.buttons.contains(b) == expected.buttons.contains(b) by {
                lemma_byte_bits(byte, shift, button_index(b) as u8);
            }
            assert(self@ =~= expected);
            if before.well_formed() {
                assert forall|i: int| 5 <= i < 8 implies !#[trigger] byte_bit(
                    self.mouse_buttons,
                    i,
                ) by {
                    lemma_byte_bits(byte, shift, i as u8);
                    assert(!byte_bit(byte, i));
                }
            }
        }
    }

    /// Applies one injected event to the snapshot.
    pub fn apply_event(&mut self, event: InputEvent)
        ensures
            final(self)@ == old(self)@.after(event),
            old(self).well_formed() ==> final(self).well_formed(),
    {
        match event {
            InputEvent::Key { code, down } => self.set_key(code.0, down),
            InputEvent::MouseButton { btn, down } => self.set_button(btn, down),
            _ => {},
        }
    }

    /// The edges that have to be injected so that a machine which holds this
    /// snapshot comes to hold `desired`.
    pub fn reconciliation_events(&self, desired: &Self) -> (events: Vec<InputEvent>)
        ensures
            events@ == self@.edges_to(desired@),
    {
        let mut events: Vec<InputEvent> = Vec::new();
        let mut code: u16 = 0;
        while code < 1024
            invariant
                code <= 1024,
                events@ == self@.key_edges(desired@, code as int),
            decreases 1024 - code,
        {
            let current = self.key_is_down(code);
            let want = desired.key_is_down(code);
            if current != want {
                events.push(InputEvent::Key { code: KeyCode(code), down: want });
            }
            code = code + 1;
        }
        let buttons: [Button; 5] = [
            Button::Left,
            Button::Right,
            Button::Middle,
            Button::X1,
            Button::X2,
        ];
        let ghost keys = events@;
        let mut i: usize = 0;
        assert(events@ =~= keys + self@.button_edges(desired@, 0));
        while i < 5
            invariant
                i <= 5,
                buttons@ =~= seq![
                    Button::Left,
                    Button::Right,
                    Button::Middle,
                    Button::X1,
                    Button::X2,
                ],
                events@ == keys + self@.button_edges(desired@, i as int),
            decreases 5 - i,
        {
            let btn = buttons[i];
            assert(btn == nth_button(i as int));
            let current = self.button_is_down(btn);
            let want = desired.button_is_down(btn);
            if current != want {
                events.push(InputEvent::MouseButton { btn, down: want });
            }
            i = i + 1;
            assert(events@ =~= keys + self@.button_edges(desired@, i as int));
        }
        events
    }
}

proof fn lemma_key_edges(from: Held, to: Held, n: int)
    requires
        0 <= n <= KEY_COUNT,
    ensures
        from.after_all(from.key_edges(to, n)).buttons == from.buttons,
        forall|k: int| #[trigger]
            from.after_all(from.key_edges(to, n)).keys.contains(k) == if 0 <= k < n {
                to.keys.contains(k)
            } else {
                from.keys.contains(k)
            },
    decreases n,
{
    if n > 0 {
        lemma_key_edges(from, to, n - 1);
        let shorter = from.key_edges(to, n - 1);
        let longer = from.key_edges(to, n);
        if longer.len() > shorter.len() {
            assert(longer.drop_last() =~= shorter);
        }
    }
}

proof fn lemma_button_edges(from: Held, to: Held, mid: Held, n: int)
    requires
        0 <= n <= 5,
        mid.buttons == from.buttons,
    ensures
        mid.after_all(from.button_edges(to, n)).keys == mid.keys,
        forall|b: Button| #[trigger]
            mid.after_all(from.button_edges(to, n)).buttons.contains(b) == if button_index(b) < n {
                to.buttons.contains(b)
            } else {
                from.buttons.contains(b)
            },
    decreases n,
{
    if n > 0 {
        lemma_button_edges(from, to, mid, n - 1);
        let shorter = from.button_edges(to, n - 1);
        let longer = from.button_edges(to, n);
        assert(forall|b: Button| button_index(b) == n - 1 <==> b == nth_button(n - 1));
        if longer.len() > shorter.len() {
            assert(longer.drop_last() =~= shorter);
        }
    }
}

proof fn lemma_after_all_appended(from: Held, a: Seq<InputEvent>, b: Seq<InputEvent>)
    ensures
        from.after_all(a + b) == from.after_all(a).after_all(b),
    decreases b.len(),
{
    if b.len() == 0 {
        assert(a + b =~= a);
    } else {
        lemma_after_all_appended(from, a, b.drop_last());
        assert((a + b).drop_last() =~= a + b.drop_last());
    }
}

/// A snapshot repairs every lost edge: whatever a machine held before, after
/// it injects the reconciliation events it holds exactly what the snapshot
/// names.
pub proof fn reconciliation_restores_the_snapshot(
    injected: ForwardedInputState,
    desired: ForwardedInputState,
)
    ensures
        injected@.after_all(injected@.edges_to(desired@)) == desired@,
{
    injected.keys_are_tracked();
    desired.keys_are_tracked();
    let from = injected@;
    let to = desired@;
    let n = KEY_COUNT as int;
    lemma_after_all_appended(from, from.key_edges(to, n), from.button_edges(to, 5));
    lemma_key_edges(from, to, n);
    let mid = from.after_all(from.key_edges(to, n));
    lemma_button_edges(from, to, mid, 5);
    assert(mid.after_all(from.button_edges(to, 5)) =~= to);
}

/// A machine that holds what the snapshot names has nothing to inject.
pub proof fn reconciliation_is_silent_when_nothing_was_lost(state: Held)
    ensures
        state.edges_to(state) == Seq::<InputEvent>::empty(),
{
    lemma_no_key_edges(state, KEY_COUNT as int);
    lemma_no_button_edges(state, 5);
}

proof fn lemma_no_key_edges(state: Held, n: int)
    ensures
        state.key_edges(state, n) == Seq::<InputEvent>::empty(),
    decreases n,
{
    if n > 0 {
        lemma_no_key_edges(state, n - 1);
    }
}

proof fn lemma_no_button_edges(state: Held, n: int)
    ensures
        state.button_edges(state, n) == Seq::<InputEvent>::empty(),
    decreases n,
{
    if n > 0 {
        lemma_no_button_edges(state, n - 1);
    }
}

/// A key is down from its press to its release, and no other key is touched.
pub proof fn a_key_is_down_from_press_to_release(
    h: (&mut ForwardedInputState, &mut ForwardedInputState),
    code: u16,
    other: u16,
    r: (bool, bool, bool, bool),
)
    requires
        code < 768,
        other != code,
        call_ensures(ForwardedInputState::set_key, (h.0, code, true), ()),
        call_ensures(ForwardedInputState::key_is_down, (&*final(h.0), code), r.0),
        *old(h.1) == *final(h.0),
        call_ensures(ForwardedInputState::set_key, (h.1, code, false), ()),
        call_ensures(ForwardedInputState::key_is_down, (&*final(h.1), code), r.1),
        call_ensures(ForwardedInputState::key_is_down, (&*old(h.0), other), r.2),
        call_ensures(ForwardedInputState::key_is_down, (&*final(h.1), other), r.3),
    ensures
        r.0,
        !r.1,
        r.2 == r.3,
{
}

/// The same of mouse buttons.
pub proof fn a_button_is_down_from_press_to_release(
    h: (&mut ForwardedInputState, &mut ForwardedInputState),
    btn: Button,
    other: Button,
    r: (bool, bool, bool, bool),
)
    requires
        other != btn,
        call_ensures(
            ForwardedInputState::apply_event,
            (h.0, InputEvent::MouseButton { btn, down: true }),
            (),
        ),
        call_ensures(ForwardedInputState::button_is_down, (&*final(h.0), btn), r.0),
        *old(h.1) == *final(h.0),
        call_ensures(
            ForwardedInputState::apply_event,
            (h.1, InputEvent::MouseButton { btn, down: false }),
            (),
        ),
        call_ensures(ForwardedInputState::button_is_down, (&*final(h.1), btn), r.1),
        call_ensures(ForwardedInputState::button_is_down, (&*old(h.0), other), r.2),
        call_ensures(ForwardedInputState::button_is_down, (&*final(h.1), other), r.3),
    ensures
        r.0,
        !r.1,
        r.2 == r.3,
{
}

/// Motion and scrolling hold nothing down.
pub proof fn only_keys_and_buttons_are_held(h: &mut ForwardedInputState, event: InputEvent)
    requires
        call_ensures(ForwardedInputState::apply_event, (h, event), ()),
        !(event is Key) && !(event is MouseButton),
    ensures
        final(h)@ == old(h)@,
{
}

} // verus!
