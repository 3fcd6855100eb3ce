//! Speeds that the user sets: factors in single precision, kept and compared
//! by their bit patterns.
//!
//! The patterns of numbers that are not negative have the order of the
//! numbers.

use crate::input::{InputState, Tuning};
use vstd::prelude::*;

verus! {

/// The pattern of one.
pub const ONE_BITS: u32 = 0x3f80_0000;

/// The pattern of a quarter, the slowest speed.
pub const SLOWEST_BITS: u32 = 0x3e80_0000;

/// The pattern of four, the fastest speed.
pub const FASTEST_BITS: u32 = 0x4080_0000;

/// The pattern of infinity; larger ones without a sign are no numbers.
pub const INFINITY_BITS: u32 = 0x7f80_0000;

/// The pattern of zero with a minus sign; negative numbers are not smaller.
pub const SIGN_BITS: u32 = 0x8000_0000;

/// The pattern of negative infinity.
pub const NEGATIVE_INFINITY_BITS: u32 = 0xff80_0000;

/// Whether a pattern is no number.
pub open spec fn not_a_number(bits: u32) -> bool {
    INFINITY_BITS < bits < SIGN_BITS || bits > NEGATIVE_INFINITY_BITS
}

/// Whether a pattern is a number other than an infinity.
pub open spec fn finite(bits: u32) -> bool {
    bits < INFINITY_BITS || SIGN_BITS <= bits < NEGATIVE_INFINITY_BITS
}

/// A number moved between the slowest and the fastest speed; one for what is
/// no number.
pub open spec fn clamped_number(bits: u32) -> u32 {
    if not_a_number(bits) {
        ONE_BITS
    } else if bits >= SIGN_BITS || bits < SLOWEST_BITS {
        SLOWEST_BITS
    } else if bits > FASTEST_BITS {
        FASTEST_BITS
    } else {
        bits
    }
}

/// A speed: a finite number moved between the slowest and the fastest, and one
/// for anything else.
pub open spec fn speed(bits: u32) -> u32 {
    if finite(bits) {
        clamped_number(bits)
    } else {
        ONE_BITS
    }
}

pub fn clamp_number(bits: u32) -> (r: u32)
    ensures
        r == clamped_number(bits),
{
    if (INFINITY_BITS < bits && bits < SIGN_BITS) || bits > NEGATIVE_INFINITY_BITS {
        ONE_BITS
    } else if bits >= SIGN_BITS || bits < SLOWEST_BITS {
        SLOWEST_BITS
    } else if bits > FASTEST_BITS {
        FASTEST_BITS
    } else {
        bits
    }
}

pub fn clamp_speed(bits: u32) -> (r: u32)
    ensures
        r == speed(bits),
{
    if bits < INFINITY_BITS || (SIGN_BITS <= bits && bits < NEGATIVE_INFINITY_BITS) {
        clamp_number(bits)
    } else {
        ONE_BITS
    }
}

/// The factor for mouse motion that goes to the peer.
pub fn mouse_sensitivity(st: &InputState) -> (r: u32)
    ensures
        r == st.tuning.mouse_sens_bits,
{
    st.tuning.mouse_sens_bits
}

pub fn set_mouse_sensitivity(st: &mut InputState, bits: u32)
    ensures
        *final(st) == (InputState {
            tuning: Tuning { mouse_sens_bits: speed(bits), ..old(st).tuning },
            ..*old(st)
        }),
{
    st.tuning.mouse_sens_bits = clamp_speed(bits);
}

/// The factor for scrolling that goes to the peer.
pub fn touchpad_scroll_speed(st: &InputState) -> (r: u32)
    ensures
        r == st.tuning.scroll_speed_bits,
{
    st.tuning.scroll_speed_bits
}

pub fn set_touchpad_scroll_speed(st: &mut InputState, bits: u32)
    ensures
        *final(st) == (InputState {
            tuning: Tuning { scroll_speed_bits: speed(bits), ..old(st).tuning },
            ..*old(st)
        }),
{
    st.tuning.scroll_speed_bits = clamp_speed(bits);
}

/// A speed that was set is a finite number between a quarter and four, and
/// setting it again changes nothing.
pub proof fn speeds_are_bounded(bits: u32)
    ensures
        SLOWEST_BITS <= speed(bits) <= FASTEST_BITS,
        SLOWEST_BITS <= clamped_number(bits) <= FASTEST_BITS,
        finite(speed(bits)),
        SLOWEST_BITS <= bits <= FASTEST_BITS ==> speed(bits) == bits,
        speed(speed(bits)) == speed(bits),
{
}

/// A speed between a quarter and four is kept as it is; what is slower or faster,
/// or negative, is moved there; what is no number or infinite is one.
pub proof fn speeds_are_kept_in_their_range(st: &mut InputState, bits: u32, r: (u32, u32))
    requires
        call_ensures(set_mouse_sensitivity, (st, bits), ()),
        call_ensures(mouse_sensitivity, (&*final(st),), r.0),
        call_ensures(touchpad_scroll_speed, (&*final(st),), r.1),
    ensures
        0x3e80_0000 <= bits <= 0x4080_0000 ==> r.0 == bits,
        bits < 0x3e80_0000 ==> r.0 == 0x3e80_0000,
        0x4080_0000 < bits < 0x7f80_0000 ==> r.0 == 0x4080_0000,
        0x8000_0000 <= bits < 0xff80_0000 ==> r.0 == 0x3e80_0000,
        0x7f80_0000 <= bits < 0x8000_0000 || bits >= 0xff80_0000 ==> r.0 == 0x3f80_0000,
        r.1 == old(st).tuning.scroll_speed_bits,
{
}

/// The same of scrolling.
pub proof fn scroll_speeds_are_kept_in_their_range(st: &mut InputState, bits: u32, r: (u32, u32))
    requires
        call_ensures(set_touchpad_scroll_speed, (st, bits), ()),
        call_ensures(touchpad_scroll_speed, (&*final(st),), r.0),
        call_ensures(mouse_sensitivity, (&*final(st),), r.1),
    ensures
        0x3e80_0000 <= bits <= 0x4080_0000 ==> r.0 == bits,
        bits < 0x3e80_0000 ==> r.0 == 0x3e80_0000,
        0x4080_0000 < bits < 0x7f80_0000 ==> r.0 == 0x4080_0000,
        0x8000_0000 <= bits < 0xff80_0000 ==> r.0 == 0x3e80_0000,
        0x7f80_0000 <= bits < 0x8000_0000 || bits >= 0xff80_0000 ==> r.0 == 0x3f80_0000,
        r.1 == old(st).tuning.mouse_sens_bits,
{
}

} // verus!
