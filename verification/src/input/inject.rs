//! What input from the peer holds down on this machine, and how its motion is
//! brought to the desktop.

use crate::arith::{self, clamp_i32, saturating_add_i32};
use crate::input::events::{Button, KeyCode};
use crate::input::keymap::{self, key_injection_spec, KeyInjectionSpec};
use crate::input::linux::{self, key_from_button};
use crate::input::windows::{attempt_remote_key_focus, FocusHandoff, WindowsState};
use crate::input::{Effect, GameDrive, KeyRouting};
use vstd::prelude::*;

verus! {

/// A key or button that the peer holds down here.
#[derive(Debug, Clone, Copy, PartialEq, Eq, Structural)]
pub enum HeldKey {
    MouseBtn(Button),
    Key(u16),
}

/// The keys and buttons that the peer has pressed here and not released.
pub struct HeldKeys {
    held: Vec<HeldKey>,
}

impl View for HeldKeys {
    type V = Set<HeldKey>;

    closed spec fn view(&self) -> Set<HeldKey> {
        Set::new(|k: HeldKey| self.held@.contains(k))
    }
}

impl HeldKeys {
    /// Nothing is listed twice.
    pub closed spec fn well_formed(self) -> bool {
        self.held@.no_duplicates()
    }

    pub fn new() -> (r: Self)
        ensures
            r.well_formed(),
            r@ == Set::<HeldKey>::empty(),
    {
        let r = HeldKeys { held: Vec::new() };
        assert(r@ =~= Set::<HeldKey>::empty());
        r
    }

    fn position(&self, edge: HeldKey) -> (r: Option<usize>)
        ensures
            match r {
                Some(i) => i < self.held@.len() && self.held@[i as int] == edge,
                None => !self.held@.contains(edge),
            },
    {
        let mut i: usize = 0;
        while i < self.held.len()
            invariant
                i <= self.held@.len(),
                forall|j: int| 0 <= j < i ==> self.held@[j] != edge,
            decreases self.held@.len() - i,
        {
            if self.held[i] == edge {
                return Some(i);
            }
            i = i + 1;
        }
        None
    }

    pub fn contains(&self, edge: HeldKey) -> (r: bool)
        ensures
            r == self@.contains(edge),
    {
        self.position(edge).is_some()
    }

    pub fn is_empty(&self) -> (r: bool)
        ensures
            r == (self@ == Set::<HeldKey>::empty()),
    {
        proof {
            if self.held@.len() == 0 {
                assert(self@ =~= Set::<HeldKey>::empty());
            } else {
                assert(self@.contains(self.held@[0]));
            }
        }
        self.held.len() == 0
    }

    pub fn insert(&mut self, edge: HeldKey)
        requires
            old(self).well_formed(),
        ensures
            final(self).well_formed(),
            final(self)@ == old(self)@.insert(edge),
    {
        if !self.contains(edge) {
            let ghost before = self.held@;
            self.held.push(edge);
            proof {
                assert forall|k: HeldKey| #[trigger]
                    self.held@.contains(k) <==> before.contains(k) || k == edge by {
                    if before.contains(k) {
                        let m = choose|m: int| 0 <= m < before.len() && before[m] == k;
                        assert(self.held@[m] == k);
                    }
                    assert(self.held@[before.len() as int] == edge);
                }
            }
        }
        assert(self@ =~= old(self)@.insert(edge));
    }

    pub fn remove(&mut self, edge: HeldKey)
        requires
            old(self).well_formed(),
        ensures
            final(self).well_formed(),
            final(self)@ == old(self)@.remove(edge),
    {
        let ghost before = self.held@;
        if let Some(i) = self.position(edge) {
            self.held.remove(i);
            proof {
                assert forall|k: HeldKey| #[trigger]
                    self.held@.contains(k) <==> before.contains(k) && k != edge by {
                    if self.held@.contains(k) {
                        let m = choose|m: int| 0 <= m < self.held@.len() && self.held@[m] == k;
                        let n = if m < i {
                            m
                        } else {
                            m + 1
                        };
                        assert(before[n] == k);
                    }
                    if before.contains(k) && k != edge {
                        let m = choose|m: int| 0 <= m < before.len() && before[m] == k;
                        let n = if m < i {
                            m
                        } else {
                            m - 1
                        };
                        assert(self.held@[n] == k);
                    }
                }
            }
        }
        assert(self@ =~= old(self)@.remove(edge));
    }

    /// Takes everything out, each key and button once, in the order in which
    /// they went down.
    pub fn drain(&mut self) -> (r: Vec<HeldKey>)
        requires
            old(self).well_formed(),
        ensures
            final(self).well_formed(),
            final(self)@ == Set::<HeldKey>::empty(),
            r@.no_duplicates(),
            r@.to_set() == old(self)@,
    {
        let mut r: Vec<HeldKey> = Vec::new();
        std::mem::swap(&mut r, &mut self.held);
        assert(self@ =~= Set::<HeldKey>::empty());
        assert(r@.to_set() =~= old(self)@);
        r
    }

    /// Whether a button is held.
    pub fn any_button(&self) -> (r: bool)
        ensures
            r == exists|b: Button| self@.contains(HeldKey::MouseBtn(b)),
    {
        let mut i: usize = 0;
        while i < self.held.len()
            invariant
                i <= self.held@.len(),
                forall|j: int| 0 <= j < i ==> !(self.held@[j] is MouseBtn),
            decreases self.held@.len() - i,
        {
            if let HeldKey::MouseBtn(b) = self.held[i] {
                assert(self@.contains(HeldKey::MouseBtn(b)));
                return true;
            }
            i = i + 1;
        }
        proof {
            if exists|b: Button| self@.contains(HeldKey::MouseBtn(b)) {
                let b = choose|b: Button| self@.contains(HeldKey::MouseBtn(b));
                let m = choose|m: int|
                    0 <= m < self.held@.len() && self.held@[m] == HeldKey::MouseBtn(b);
                assert(self.held@[m] is MouseBtn);
            }
        }
        false
    }

    /// Notes an edge that was injected.
    pub fn note_edge(&mut self, edge: HeldKey, down: bool)
        requires
            old(self).well_formed(),
        ensures
            final(self).well_formed(),
            final(self)@ == after_edge(old(self)@, edge, down),
    {
        if down {
            self.insert(edge);
        } else {
            self.remove(edge);
        }
    }
}

/// What is held after an edge.
pub open spec fn after_edge(held: Set<HeldKey>, edge: HeldKey, down: bool) -> Set<HeldKey> {
    if down {
        held.insert(edge)
    } else {
        held.remove(edge)
    }
}

/// Whether an edge is injected: a press always, a release only of what the
/// peer holds, since the local user may hold the same key.
pub fn should_inject_owned_edge(held: &HeldKeys, edge: HeldKey, down: bool) -> (r: bool)
    ensures
        r == (down || held@.contains(edge)),
{
    down || held.contains(edge)
}

/// Keeps a key or button whose release failed, so that it is tried again.
pub fn record_owned_release_result(held: &mut HeldKeys, edge: HeldKey, succeeded: bool)
    requires
        old(held).well_formed(),
    ensures
        final(held).well_formed(),
        final(held)@ == if succeeded {
            old(held)@
        } else {
            old(held)@.insert(edge)
        },
{
    if !succeeded {
        held.insert(edge);
    }
}

/// What is still held once everything was released and some releases failed.
pub open spec fn unreleased(drained: Seq<HeldKey>, succeeded: Seq<bool>) -> Set<HeldKey> {
    Set::new(
        |k: HeldKey|
            exists|i: int|
                0 <= i < drained.len() && !succeeded[i] && #[trigger] drained[i] == k,
    )
}

/// Notes which releases of a drained list worked.
pub fn settle_releases(held: &mut HeldKeys, drained: &[HeldKey], succeeded: &[bool])
    requires
        old(held).well_formed(),
        drained@.len() == succeeded@.len(),
    ensures
        final(held).well_formed(),
        final(held)@ == old(held)@.union(unreleased(drained@, succeeded@)),
{
    let mut i: usize = 0;
    while i < drained.len()
        invariant
            i <= drained@.len(),
            drained@.len() == succeeded@.len(),
            held.well_formed(),
            held@ == old(held)@.union(
                unreleased(drained@.subrange(0, i as int), succeeded@.subrange(0, i as int)),
            ),
        decreases drained@.len() - i,
    {
        let ghost before = unreleased(
            drained@.subrange(0, i as int),
            succeeded@.subrange(0, i as int),
        );
        record_owned_release_result(held, drained[i], succeeded[i]);
        proof {
            let (d, s) = (drained@.subrange(0, i + 1), succeeded@.subrange(0, i + 1));
            let after = unreleased(d, s);
            assert forall|k: HeldKey| #[trigger]
                after.contains(k) <==> before.contains(k) || (!succeeded@[i as int] && k
                == drained@[i as int]) by {
                if before.contains(k) {
                    let (p, q) = (
                        drained@.subrange(0, i as int),
                        succeeded@.subrange(0, i as int),
                    );
                    let m = choose|m: int| 0 <= m < p.len() && !q[m] && #[trigger] p[m] == k;
                    assert(d[m] == k && !s[m]);
                }
                if after.contains(k) {
                    let m = choose|m: int| 0 <= m < d.len() && !s[m] && #[trigger] d[m] == k;
                    if m < i {
                        assert(drained@.subrange(0, i as int)[m] == k);
                        assert(!succeeded@.subrange(0, i as int)[m]);
                    }
                }
                assert(d[i as int] == drained@[i as int]);
            }
            assert(held@ =~= old(held)@.union(after));
        }
        i = i + 1;
    }
    assert(drained@.subrange(0, drained@.len() as int) =~= drained@);
    assert(succeeded@.subrange(0, succeeded@.len() as int) =~= succeeded@);
    assert(held@ =~= old(held)@.union(unreleased(drained@, succeeded@)));
}

/// After a release of everything only what failed is still held, and it was
/// held before; when nothing fails, nothing is.
pub proof fn only_failed_releases_stay(held: Set<HeldKey>, drained: Seq<HeldKey>, succeeded: Seq<bool>)
    requires
        drained.to_set() == held,
        drained.len() == succeeded.len(),
    ensures
        unreleased(drained, succeeded).subset_of(held),
        (forall|i: int| 0 <= i < succeeded.len() ==> succeeded[i]) ==> unreleased(
            drained,
            succeeded,
        ) == Set::<HeldKey>::empty(),
{
    assert forall|k: HeldKey| #[trigger] unreleased(drained, succeeded).contains(k) implies held.contains(
        k,
    ) by {
        let i = choose|i: int|
            0 <= i < drained.len() && !succeeded[i] && #[trigger] drained[i] == k;
        assert(drained.contains(k));
    }
    if forall|i: int| 0 <= i < succeeded.len() ==> succeeded[i] {
        assert(unreleased(drained, succeeded) =~= Set::<HeldKey>::empty());
    }
}

/// A press that was injected makes its release wanted, and after the release
/// another one is not: the local user's own keys are left alone.
pub proof fn a_release_needs_a_press(held: Set<HeldKey>, edge: HeldKey)
    ensures
        after_edge(held, edge, true).contains(edge),
        !after_edge(after_edge(held, edge, true), edge, false).contains(edge),
{
}

/// Counts a key of the peer that was injected.
pub fn note_key_injected_with_code(keys: &mut KeyRouting)
    ensures
        *final(keys) == (KeyRouting {
            keys_injected: old(keys).keys_injected.wrapping_add(1),
            ..*old(keys)
        }),
{
    keys.keys_injected = keys.keys_injected.wrapping_add(1);
}

/// Whether motion is injected as it is: a game owns the cursor, or the peer
/// drives one here.
pub fn should_use_true_relative_injection(game_foreground: bool, game_drive: GameDrive) -> (r: bool)
    ensures
        r == (game_foreground || game_drive == GameDrive::Receiving),
{
    game_foreground || game_drive == GameDrive::Receiving
}

/// Whether motion is injected as an input event: also while a button is held,
/// since a drag follows events only.
pub fn should_emit_mouse_motion_packet(
    game_foreground: bool,
    game_drive: GameDrive,
    mouse_button_held: bool,
) -> (r: bool)
    ensures
        r == (game_foreground || game_drive == GameDrive::Receiving || mouse_button_held),
{
    should_use_true_relative_injection(game_foreground, game_drive) || mouse_button_held
}

/// How a motion of the peer reaches a Windows desktop.
#[derive(Debug, Clone, Copy, PartialEq, Eq, Structural)]
pub enum MotionInjection {
    /// As a relative input event.
    Relative,
    /// As an input event with the position it leads to.
    Positioned,
    /// By moving the cursor.
    Cursor,
}

/// Whether a mouse button is held down.
pub open spec fn drags(held: Set<HeldKey>) -> bool {
    exists|b: Button| held.contains(HeldKey::MouseBtn(b))
}

pub fn motion_injection(game_foreground: bool, game_drive: GameDrive, held: &HeldKeys) -> (r:
    MotionInjection)
    ensures
        r == if game_foreground || game_drive == GameDrive::Receiving {
            MotionInjection::Relative
        } else if exists|b: Button| held@.contains(HeldKey::MouseBtn(b)) {
            MotionInjection::Positioned
        } else {
            MotionInjection::Cursor
        },
        r == MotionInjection::Cursor ==> !drags(held@),
        r == MotionInjection::Positioned ==> drags(held@),
{
    let dragging = held.any_button();
    if should_use_true_relative_injection(game_foreground, game_drive) {
        MotionInjection::Relative
    } else if should_emit_mouse_motion_packet(game_foreground, game_drive, dragging) {
        MotionInjection::Positioned
    } else {
        MotionInjection::Cursor
    }
}

/// Where a motion leads from a position.
pub fn move_desktop_cursor_rel(cursor: (i32, i32), dx: i32, dy: i32) -> (r: (i32, i32))
    ensures
        r.0 == arith::saturated(cursor.0 + dx),
        r.1 == arith::saturated(cursor.1 + dy),
{
    (saturating_add_i32(cursor.0, dx), saturating_add_i32(cursor.1, dy))
}

/// A coordinate as a fraction of the desktop, in 65535ths.
pub open spec fn fraction(value: int, origin: int, extent: int) -> int {
    if extent <= 1 {
        0
    } else {
        ((value - origin) * 65_535) / (extent - 1)
    }
}

/// The last coordinate of a desktop that starts at `origin`.
pub open spec fn last_coordinate(origin: int, extent: int) -> int {
    arith::saturated(origin + extent - 1)
}

/// Where a motion leads along one axis, as a fraction of the desktop.
pub open spec fn moved_fraction(cursor: int, d: int, origin: int, extent: int) -> int {
    fraction(
        arith::clamp(arith::saturated(cursor + d), origin, last_coordinate(origin, extent)),
        origin,
        extent,
    )
}

fn axis_fraction(cursor: i32, d: i32, origin: i32, extent: i32) -> (r: i32)
    requires
        extent >= 1,
    ensures
        r == moved_fraction(cursor as int, d as int, origin as int, extent as int),
        0 <= r <= 65_535,
{
    let last: i32 = saturating_add_i32(origin, extent - 1);
    let value: i32 = clamp_i32(saturating_add_i32(cursor, d), origin, last);
    if extent <= 1 {
        return 0;
    }
    let off: i64 = value as i64 - origin as i64;
    let span: i64 = extent as i64 - 1;
    proof {
        assert(0 <= off <= span);
        assert(off * 65_535 <= span * 65_535) by (nonlinear_arith)
            requires
                0 <= off <= span,
        ;
        assert(0 <= (off * 65_535) / (span as int) <= 65_535) by (nonlinear_arith)
            requires
                0 <= off * 65_535 <= span * 65_535,
                span >= 1,
        ;
    }
    ((off * 65_535) / span) as i32
}

/// The desktop as the system reports it.
#[derive(Debug, Clone, Copy, PartialEq, Eq, Structural)]
pub struct Desktop {
    pub origin_x: i32,
    pub origin_y: i32,
    pub width: i32,
    pub height: i32,
}

/// An extent of at least one.
pub open spec fn at_least_one(v: i32) -> i32 {
    if v >= 1 {
        v
    } else {
        1
    }
}

/// The position that a motion leads to, kept on the desktop and given as
/// fractions of it.
pub fn send_desktop_mouse_move(cursor: (i32, i32), dx: i32, dy: i32, desktop: Desktop) -> (r: (
    i32,
    i32,
))
    ensures
        r.0 == moved_fraction(
            cursor.0 as int,
            dx as int,
            desktop.origin_x as int,
            at_least_one(desktop.width) as int,
        ),
        r.1 == moved_fraction(
            cursor.1 as int,
            dy as int,
            desktop.origin_y as int,
            at_least_one(desktop.height) as int,
        ),
        0 <= r.0 <= 65_535,
        0 <= r.1 <= 65_535,
{
    let width: i32 = if desktop.width >= 1 {
        desktop.width
    } else {
        1
    };
    let height: i32 = if desktop.height >= 1 {
        desktop.height
    } else {
        1
    };
    (
        axis_fraction(cursor.0, dx, desktop.origin_x, width),
        axis_fraction(cursor.1, dy, desktop.origin_y, height),
    )
}

/// Codes of the two relative axes of a mouse.
pub const REL_X: u16 = 0;

pub const REL_Y: u16 = 1;

/// The relative events of a motion: one for each axis that moves.
pub open spec fn relative_events(dx: i32, dy: i32) -> Seq<(u16, i32)> {
    let x = if dx != 0 {
        seq![(REL_X, dx)]
    } else {
        Seq::empty()
    };
    if dy != 0 {
        x.push((REL_Y, dy))
    } else {
        x
    }
}

pub fn mouse_move_rel(dx: i32, dy: i32) -> (r: Vec<(u16, i32)>)
    ensures
        r@ == relative_events(dx, dy),
{
    let mut r: Vec<(u16, i32)> = Vec::new();
    if dx != 0 {
        r.push((REL_X, dx));
    }
    assert(dx != 0 ==> r@ =~= seq![(REL_X, dx)]);
    if dy != 0 {
        r.push((REL_Y, dy));
    }
    r
}

/// How a key of the peer reaches Windows.
#[derive(Debug, Clone, Copy, PartialEq, Eq)]
pub enum KeyInjection {
    /// By the scan code of the physical key.
    Scan(KeyInjectionSpec),
    /// By the virtual key that the system has for its number.
    Virtual(u16),
}

/// Whether a way to inject is that of a key: by the scan code if it has one.
pub open spec fn injects(way: KeyInjection, code: u16) -> bool {
    match keymap::scan_of(code) {
        Some(s) => way matches KeyInjection::Scan(spec) && (spec.scan, spec.extended) == s,
        None => way matches KeyInjection::Virtual(c) && c == code,
    }
}

/// Tells how a key is injected.
pub fn inject_key(code: KeyCode) -> (r: KeyInjection)
    ensures
        injects(r, code.0),
{
    match key_injection_spec(code) {
        Some(spec) => KeyInjection::Scan(spec),
        None => KeyInjection::Virtual(code.0),
    }
}

/// The flags of a key that is injected by its scan code: 8, with 1 for an
/// extended key and 2 for a release.
pub fn scancode_flags(extended: bool, down: bool) -> (r: u32)
    ensures
        r == 8 + (if extended {
            1int
        } else {
            0
        }) + (if down {
            0int
        } else {
            2
        }),
{
    let mut flags: u32 = 8;
    if extended {
        flags = flags + 1;
    }
    if !down {
        flags = flags + 2;
    }
    flags
}

/// Starts to inject a key of the peer on Windows. A press first sees to it
/// that the window under the cursor has the focus. A release of a key that the
/// peer does not hold is left out.
pub fn begin_key(
    win: &mut WindowsState,
    held: &HeldKeys,
    code: KeyCode,
    down: bool,
    out: &mut Vec<Effect>,
) -> (r: Option<KeyInjection>)
    ensures
        *final(win) == (if down {
            WindowsState {
                focus: FocusHandoff { key_pending: false, ..old(win).focus },
                ..*old(win)
            }
        } else {
            *old(win)
        }),
        final(out)@ == (if down && old(win).focus.key_pending {
            old(out)@.push(Effect::ActivateWindowForKey)
        } else {
            old(out)@
        }),
        match r {
            Some(way) => (down || held@.contains(HeldKey::Key(code.0))) && injects(way, code.0),
            None => !down && !held@.contains(HeldKey::Key(code.0)),
        },
{
    if down {
        attempt_remote_key_focus(win, out);
    }
    if !should_inject_owned_edge(held, HeldKey::Key(code.0), down) {
        return None;
    }
    Some(inject_key(code))
}

/// Takes note of a key that was injected.
pub fn finish_key(keys: &mut KeyRouting, held: &mut HeldKeys, code: KeyCode, down: bool)
    requires
        old(held).well_formed(),
    ensures
        final(held).well_formed(),
        final(held)@ == after_edge(old(held)@, HeldKey::Key(code.0), down),
        *final(keys) == (KeyRouting {
            keys_injected: old(keys).keys_injected.wrapping_add(1),
            ..*old(keys)
        }),
{
    note_key_injected_with_code(keys);
    held.note_edge(HeldKey::Key(code.0), down);
}

/// Which of the two virtual devices of a Linux machine an event goes to.
#[derive(Debug, Clone, Copy, PartialEq, Eq, Structural)]
pub enum Node {
    Mouse,
    Keyboard,
}

/// A key or button event of a virtual device.
#[derive(Debug, Clone, Copy, PartialEq, Eq, Structural)]
pub struct UinputKey {
    pub node: Node,
    pub code: u16,
    pub value: i32,
}

/// The event that brings a key or button to a Linux machine.
pub open spec fn uinput_event(edge: HeldKey, down: bool) -> UinputKey {
    let value: i32 = if down {
        1
    } else {
        0
    };
    match edge {
        HeldKey::MouseBtn(b) => UinputKey { node: Node::Mouse, code: linux::button_code(b), value },
        HeldKey::Key(code) => UinputKey { node: Node::Keyboard, code, value },
    }
}

pub fn uinput_key(edge: HeldKey, down: bool) -> (r: UinputKey)
    ensures
        r == uinput_event(edge, down),
{
    let value: i32 = if down {
        1
    } else {
        0
    };
    match edge {
        HeldKey::MouseBtn(b) => UinputKey { node: Node::Mouse, code: key_from_button(b), value },
        HeldKey::Key(code) => UinputKey { node: Node::Keyboard, code, value },
    }
}

/// The events that release keys and buttons on a Linux machine.
pub open spec fn releases(keys: Seq<HeldKey>) -> Seq<UinputKey> {
    keys.map_values(|k: HeldKey| uinput_event(k, false))
}

/// The events that release everything that the peer holds on a Linux machine,
/// each key and button once; nothing is held any more, whether they work or
/// not.
pub fn release_all_held(held: &mut HeldKeys) -> (r: Vec<UinputKey>)
    requires
        old(held).well_formed(),
    ensures
        final(held).well_formed(),
        final(held)@ == Set::<HeldKey>::empty(),
        exists|keys: Seq<HeldKey>|
            #![trigger releases(keys)]
            keys.no_duplicates() && keys.to_set() == old(held)@ && r@ == releases(keys),
{
    let drained = held.drain();
    let mut r: Vec<UinputKey> = Vec::new();
    let mut i: usize = 0;
    while i < drained.len()
        invariant
            i <= drained@.len(),
            r@ == releases(drained@.subrange(0, i as int)),
        decreases drained@.len() - i,
    {
        let ghost part = drained@.subrange(0, i as int);
        r.push(uinput_key(drained[i], false));
        proof {
            let next = drained@.subrange(0, i + 1);
            assert(next =~= part.push(drained@[i as int]));
            assert(releases(next) =~= releases(part).push(uinput_event(drained@[i as int], false)));
        }
        i = i + 1;
    }
    assert(drained@.subrange(0, drained@.len() as int) =~= drained@);
    r
}

/// A key that the peer presses is held until it releases it, and a release without
/// a press is not injected.
pub proof fn a_key_is_held_from_press_to_release(
    win: (&mut WindowsState, &mut WindowsState),
    keys: (&mut KeyRouting, &mut KeyRouting),
    held: (&mut HeldKeys, &mut HeldKeys),
    code: KeyCode,
    out: (&mut Vec<Effect>, &mut Vec<Effect>),
    r: (Option<KeyInjection>, Option<KeyInjection>),
)
    requires
        call_ensures(finish_key, (keys.0, held.0, code, true), ()),
        call_ensures(begin_key, (win.0, &*final(held.0), code, false, out.0), r.0),
        *old(held.1) == *final(held.0),
        call_ensures(finish_key, (keys.1, held.1, code, false), ()),
        call_ensures(begin_key, (win.1, &*final(held.1), code, false, out.1), r.1),
    ensures
        final(held.0)@.contains(HeldKey::Key(code.0)),
        r.0 is Some,
        !final(held.1)@.contains(HeldKey::Key(code.0)),
        r.1 is None,
        forall|other: HeldKey|
            other != HeldKey::Key(code.0) ==> #[trigger] final(held.1)@.contains(other)
                == old(held.0)@.contains(other),
{
}

/// Every key that is pressed is injected, by its own scan code where it stands in
/// the standard block of the keyboard, and counted once.
pub proof fn a_pressed_key_is_injected(
    win: &mut WindowsState,
    held: &HeldKeys,
    code: KeyCode,
    out: &mut Vec<Effect>,
    r: Option<KeyInjection>,
    way: KeyInjection,
)
    requires
        call_ensures(begin_key, (win, held, code, true, out), r),
        call_ensures(inject_key, (code,), way),
    ensures
        r is Some,
        1 <= code.0 <= 68 || 70 <= code.0 <= 83 || 86 <= code.0 <= 88 ==> (
        r->0 matches KeyInjection::Scan(s) && s.scan == code.0 && !s.extended),
        (r->0 is Scan) == (way is Scan),
        final(win).mode == old(win).mode,
{
}

/// The flags of a scan code tell a release from a press, and a prefixed key from one
/// that is not.
pub proof fn flags_tell_presses_from_releases(extended: bool, down: bool, r: u32)
    requires
        call_ensures(scancode_flags, (extended, down), r),
    ensures
        r >= 8,
        (r % 2 == 1) == extended,
        ((r / 2) % 2 == 1) == !down,
{
}

/// The cursor goes where the mouse goes, and stays on the desktop: the first column
/// is nothing, the last one is all, and further to the right is never less.
pub proof fn the_cursor_of_the_desktop_follows(
    cursor: ((i32, i32), (i32, i32)),
    d: ((i32, i32), (i32, i32)),
    desktop: Desktop,
    r: ((i32, i32), (i32, i32)),
)
    requires
        call_ensures(send_desktop_mouse_move, (cursor.0, d.0.0, d.0.1, desktop), r.0),
        call_ensures(send_desktop_mouse_move, (cursor.1, d.1.0, d.1.1, desktop), r.1),
        desktop.width > 1,
        desktop.height > 1,
        desktop.origin_x + desktop.width <= i32::MAX,
        desktop.origin_y + desktop.height <= i32::MAX,
    ensures
        cursor.0.0 + d.0.0 <= desktop.origin_x ==> r.0.0 == 0,
        cursor.0.1 + d.0.1 <= desktop.origin_y ==> r.0.1 == 0,
        cursor.0.0 + d.0.0 >= desktop.origin_x + desktop.width - 1 ==> r.0.0 == 65_535,
        cursor.0.1 + d.0.1 >= desktop.origin_y + desktop.height - 1 ==> r.0.1 == 65_535,
        cursor.0.0 + d.0.0 <= cursor.1.0 + d.1.0 ==> r.0.0 <= r.1.0,
        cursor.0.1 + d.0.1 <= cursor.1.1 + d.1.1 ==> r.0.1 <= r.1.1,
{
    lemma_fraction_follows(
        cursor.0.0 + d.0.0,
        cursor.1.0 + d.1.0,
        desktop.origin_x as int,
        desktop.width as int,
    );
    lemma_fraction_follows(
        cursor.0.1 + d.0.1,
        cursor.1.1 + d.1.1,
        desktop.origin_y as int,
        desktop.height as int,
    );
}

proof fn lemma_fraction_follows(a: int, b: int, origin: int, extent: int)
    requires
        extent > 1,
        i32::MIN <= origin,
        origin + extent <= i32::MAX,
    ensures
        a <= origin ==> moved_fraction(a, 0, origin, extent) == 0,
        a >= origin + extent - 1 ==> moved_fraction(a, 0, origin, extent) == 65_535,
        a <= b ==> moved_fraction(a, 0, origin, extent) <= moved_fraction(b, 0, origin, extent),
{
    let x = arith::clamp(arith::saturated(a), origin, last_coordinate(origin, extent)) - origin;
    let y = arith::clamp(arith::saturated(b), origin, last_coordinate(origin, extent)) - origin;
    let e = extent - 1;
    assert((e * 65_535) / e == 65_535 && (0 * 65_535int) / e == 0) by (nonlinear_arith)
        requires
            e > 0,
    ;
    if a <= b {
        assert((x * 65_535) / e <= (y * 65_535) / e) by {
            vstd::arithmetic::div_mod::lemma_div_is_ordered(x * 65_535, y * 65_535, e);
        }
    }
}

/// Motion that is handed to a Linux machine is what came, one event for each
/// direction in which something moved.
pub proof fn relative_motion_is_kept(dx: i32, dy: i32, r: Vec<(u16, i32)>)
    requires
        call_ensures(mouse_move_rel, (dx, dy), r),
    ensures
        dx != 0 ==> r@.len() > 0 && r@[0] == (0u16, dx),
        dy != 0 ==> r@.len() > 0 && r@.last() == (1u16, dy),
        r@.len() == (if dx != 0 {
            1int
        } else {
            0
        }) + (if dy != 0 {
            1int
        } else {
            0
        }),
{
}

/// A game is moved by the motion itself and never by where the cursor is; a held
/// button is seen by the desktop.
pub proof fn a_game_is_moved_by_motion(
    game_foreground: bool,
    drive: GameDrive,
    held: &HeldKeys,
    r: MotionInjection,
    b: Button,
)
    requires
        call_ensures(motion_injection, (game_foreground, drive, held), r),
    ensures
        r == MotionInjection::Relative <==> game_foreground || drive == GameDrive::Receiving,
        r == MotionInjection::Cursor ==> !held@.contains(HeldKey::MouseBtn(b)),
        held@.contains(HeldKey::MouseBtn(b)) && r != MotionInjection::Relative ==> r
            == MotionInjection::Positioned,
{
}

/// All that is held is released, each key and button once, and nothing stays.
pub proof fn all_that_is_held_is_released(held: &mut HeldKeys, r: Vec<UinputKey>, key: u16)
    requires
        call_ensures(release_all_held, (held,), r),
        old(held)@.contains(HeldKey::Key(key)),
    ensures
        final(held)@ == Set::<HeldKey>::empty(),
        exists|i: int|
            0 <= i < r@.len() && #[trigger] r@[i] == (UinputKey {
                node: Node::Keyboard,
                code: key,
                value: 0,
            }),
        forall|i: int| 0 <= i < r@.len() ==> (#[trigger] r@[i]).value == 0,
{
    let keys = choose|keys: Seq<HeldKey>|
        #![trigger releases(keys)]
        keys.no_duplicates() && keys.to_set() == old(held)@ && r@ == releases(keys);
    assert(keys.to_set().contains(HeldKey::Key(key)));
    let i = choose|i: int| 0 <= i < keys.len() && keys[i] == HeldKey::Key(key);
    assert(r@[i] == uinput_event(keys[i], false));
}

/// A press is a one and a release is a nothing; keys go to the keyboard and buttons
/// to the mouse.
pub proof fn edges_reach_their_device(edge: HeldKey, down: bool, r: UinputKey)
    requires
        call_ensures(uinput_key, (edge, down), r),
    ensures
        r.value == if down {
            1int
        } else {
            0
        },
        edge is MouseBtn <==> r.node == Node::Mouse,
        edge is Key ==> r.node == Node::Keyboard,
        edge matches HeldKey::Key(code) ==> r.code == code,
        edge == HeldKey::MouseBtn(Button::Left) ==> r.code == 0x110,
        edge == HeldKey::MouseBtn(Button::Right) ==> r.code == 0x111,
        edge == HeldKey::MouseBtn(Button::Middle) ==> r.code == 0x112,
        edge == HeldKey::MouseBtn(Button::X1) ==> r.code == 0x113,
        edge == HeldKey::MouseBtn(Button::X2) ==> r.code == 0x114,
{
}

/// On a desktop of one pixel the cursor stays where it is.
pub proof fn a_single_pixel_is_never_left(
    cursor: (i32, i32),
    d: (i32, i32),
    desktop: Desktop,
    r: (i32, i32),
)
    requires
        call_ensures(send_desktop_mouse_move, (cursor, d.0, d.1, desktop), r),
    ensures
        desktop.width <= 1 ==> r.0 == 0,
        desktop.height <= 1 ==> r.1 == 0,
{
}

} // verus!
