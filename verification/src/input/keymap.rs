//! Key numbers of Windows and of Linux.
//!
//! Keys travel in the Linux numbering. It equals the PC/AT scan codes for the
//! standard block; the extended keys differ and are told apart by their prefix
//! or by their virtual key.

use crate::input::events::KeyCode;
use vstd::prelude::*;

verus! {

/// The Linux key of a virtual key of the extended cluster.
pub open spec fn extended_key(vk: u16) -> Option<u16> {
    if vk == 0x26 {
        Some(103)
    } else if vk == 0x28 {
        Some(108)
    } else if vk == 0x25 {
        Some(105)
    } else if vk == 0x27 {
        Some(106)
    } else if vk == 0x24 {
        Some(102)
    } else if vk == 0x23 {
        Some(107)
    } else if vk == 0x21 {
        Some(104)
    } else if vk == 0x22 {
        Some(109)
    } else if vk == 0x2d {
        Some(110)
    } else if vk == 0x2e {
        Some(111)
    } else if vk == 0x5b {
        Some(125)
    } else if vk == 0x5c {
        Some(126)
    } else if vk == 0x2c {
        Some(99)
    } else {
        None
    }
}

/// The Linux key of a virtual key of the extended cluster: the arrows, the six
/// keys above them, the two logo keys and print screen.
pub fn evdev_of_extended_vk(vk: u16) -> (r: Option<u16>)
    ensures
        r == extended_key(vk),
{
    match vk {
        0x26 => Some(103),
        0x28 => Some(108),
        0x25 => Some(105),
        0x27 => Some(106),
        0x24 => Some(102),
        0x23 => Some(107),
        0x21 => Some(104),
        0x22 => Some(109),
        0x2d => Some(110),
        0x2e => Some(111),
        0x5b => Some(125),
        0x5c => Some(126),
        0x2c => Some(99),
        _ => None,
    }
}

/// The virtual key of a Linux key of the extended cluster: the one that is
/// read as it.
pub fn extended_vk_of_evdev(code: u16) -> (r: Option<u16>)
    ensures
        r matches Some(vk) ==> extended_key(vk) == Some(code),
        r is None ==> forall|vk: u16| #[trigger] extended_key(vk) != Some(code),
{
    match code {
        103 => Some(0x26),
        108 => Some(0x28),
        105 => Some(0x25),
        106 => Some(0x27),
        102 => Some(0x24),
        107 => Some(0x23),
        104 => Some(0x21),
        109 => Some(0x22),
        110 => Some(0x2d),
        111 => Some(0x2e),
        125 => Some(0x5b),
        126 => Some(0x5c),
        99 => Some(0x2c),
        _ => None,
    }
}

/// The Linux key of a scan code with the extended prefix, where the scan code
/// alone tells it.
pub open spec fn prefixed_key(scan: u16) -> Option<u16> {
    if scan == 0x1c {
        Some(96)
    } else if scan == 0x1d {
        Some(97)
    } else if scan == 0x35 {
        Some(98)
    } else if scan == 0x37 {
        Some(99)
    } else if scan == 0x38 {
        Some(100)
    } else if scan == 0x45 {
        Some(69)
    } else if scan == 0x5b {
        Some(125)
    } else if scan == 0x5c {
        Some(126)
    } else if scan == 0x5d {
        Some(127)
    } else {
        None
    }
}

/// The Linux key of a captured key: by its prefixed scan code, else by its
/// virtual key, else its scan code itself.
pub open spec fn captured_key(scan: u16, vk: u16, extended: bool) -> u16 {
    if extended && prefixed_key(scan) is Some {
        prefixed_key(scan)->0
    } else if extended_key(vk) is Some {
        extended_key(vk)->0
    } else {
        scan
    }
}

/// Reads the Linux key of a captured key.
pub fn captured_keycode(scan: u16, vk: u16, extended: bool) -> (r: u16)
    ensures
        r == captured_key(scan, vk, extended),
{
    if extended {
        let code: Option<u16> = match scan {
            0x1c => Some(96),
            0x1d => Some(97),
            0x35 => Some(98),
            0x37 => Some(99),
            0x38 => Some(100),
            0x45 => Some(69),
            0x5b => Some(125),
            0x5c => Some(126),
            0x5d => Some(127),
            _ => None,
        };
        if let Some(code) = code {
            return code;
        }
    }
    match evdev_of_extended_vk(vk) {
        Some(code) => code,
        None => scan,
    }
}

/// The scan code by which a key is injected.
#[derive(Debug, Clone, Copy, PartialEq, Eq, Structural)]
pub struct KeyInjectionSpec {
    pub scan: u16,
    pub extended: bool,
}

/// The scan code of a key: its own number in the standard block, a prefixed
/// one for the extended keys; none for the others.
pub open spec fn scan_of(code: u16) -> Option<(u16, bool)> {
    if 1 <= code <= 68 || 70 <= code <= 83 || 86 <= code <= 88 {
        Some((code, false))
    } else {
        match extended_scan(code) {
            Some(scan) => Some((scan, true)),
            None => None,
        }
    }
}

/// The scan code of an extended key, without its prefix.
pub open spec fn extended_scan(code: u16) -> Option<u16> {
    if code == 69 {
        Some(0x45)
    } else if code == 96 {
        Some(0x1c)
    } else if code == 97 {
        Some(0x1d)
    } else if code == 98 {
        Some(0x35)
    } else if code == 99 {
        Some(0x37)
    } else if code == 100 {
        Some(0x38)
    } else if code == 102 {
        Some(0x47)
    } else if code == 103 {
        Some(0x48)
    } else if code == 104 {
        Some(0x49)
    } else if code == 105 {
        Some(0x4b)
    } else if code == 106 {
        Some(0x4d)
    } else if code == 107 {
        Some(0x4f)
    } else if code == 108 {
        Some(0x50)
    } else if code == 109 {
        Some(0x51)
    } else if code == 110 {
        Some(0x52)
    } else if code == 111 {
        Some(0x53)
    } else if code == 125 {
        Some(0x5b)
    } else if code == 126 {
        Some(0x5c)
    } else if code == 127 {
        Some(0x5d)
    } else {
        None
    }
}

/// The scan code by which a key is injected, where it has one.
pub fn key_injection_spec(key: KeyCode) -> (r: Option<KeyInjectionSpec>)
    ensures
        r is None <==> scan_of(key.0) is None,
        r matches Some(s) ==> scan_of(key.0) == Some((s.scan, s.extended)),
{
    let code: u16 = key.0;
    let (scan, extended): (u16, bool) = match code {
        1..=68 | 70..=83 | 86..=88 => (code, false),
        69 => (0x45, true),
        96 => (0x1c, true),
        97 => (0x1d, true),
        98 => (0x35, true),
        99 => (0x37, true),
        100 => (0x38, true),
        102 => (0x47, true),
        103 => (0x48, true),
        104 => (0x49, true),
        105 => (0x4b, true),
        106 => (0x4d, true),
        107 => (0x4f, true),
        108 => (0x50, true),
        109 => (0x51, true),
        110 => (0x52, true),
        111 => (0x53, true),
        125 => (0x5b, true),
        126 => (0x5c, true),
        127 => (0x5d, true),
        _ => {
            return None;
        },
    };
    Some(KeyInjectionSpec { scan, extended })
}

/// The virtual key for a key without a scan code of its own, from what the
/// system maps its number to: the low word of that, or the number itself when
/// the system knows none.
pub fn mapped_vk(code: u16, mapped: u32) -> (r: u16)
    ensures
        r == if mapped == 0 {
            code
        } else {
            (mapped % 0x1_0000) as u16
        },
{
    if mapped == 0 {
        code
    } else {
        (mapped % 0x1_0000) as u16
    }
}

/// A key keeps its identity on its way: captured on one machine and injected
/// by its scan code on another, it is read there as the same key. This holds
/// for every key with a scan code, given the virtual key that the system
/// reports for it.
pub proof fn injected_keys_keep_their_identity(code: u16, vk: u16)
    requires
        scan_of(code) is Some,
        match extended_vk_expected(code) {
            Some(expected) => vk == expected,
            None => extended_key(vk) is None,
        },
    ensures
        scan_of(code) matches Some((scan, extended)) && captured_key(scan, vk, extended) == code,
{
}

/// The virtual key that the system reports for a key of the extended cluster.
pub open spec fn extended_vk_expected(code: u16) -> Option<u16> {
    if code == 103 {
        Some(0x26)
    } else if code == 108 {
        Some(0x28)
    } else if code == 105 {
        Some(0x25)
    } else if code == 106 {
        Some(0x27)
    } else if code == 102 {
        Some(0x24)
    } else if code == 107 {
        Some(0x23)
    } else if code == 104 {
        Some(0x21)
    } else if code == 109 {
        Some(0x22)
    } else if code == 110 {
        Some(0x2d)
    } else if code == 111 {
        Some(0x2e)
    } else if code == 125 {
        Some(0x5b)
    } else if code == 126 {
        Some(0x5c)
    } else if code == 99 {
        Some(0x2c)
    } else {
        None
    }
}

/// Two keys with one scan code are the same key.
pub proof fn scan_codes_are_unique(a: u16, b: u16)
    requires
        scan_of(a) is Some,
        scan_of(a) == scan_of(b),
    ensures
        a == b,
{
}

/// Keys of the standard block have their own numbers, whether they are captured or
/// injected.
pub proof fn standard_keys_keep_their_numbers(
    code: u16,
    vk: u16,
    r: (Option<KeyInjectionSpec>, u16, Option<u16>),
)
    requires
        call_ensures(key_injection_spec, (KeyCode(code),), r.0),
        call_ensures(captured_keycode, (code, vk, false), r.1),
        call_ensures(evdev_of_extended_vk, (vk,), r.2),
        1 <= code <= 68 || 70 <= code <= 83 || 86 <= code <= 88,
    ensures
        r.0 == Some(KeyInjectionSpec { scan: code, extended: false }),
        r.2 is None ==> r.1 == code,
        r.2 matches Some(c) ==> r.1 == c,
{
}

/// A key that is injected by a scan code is captured as itself on the other side:
/// the arrows and their neighbours by their virtual keys, the others by the scan
/// code.
pub proof fn an_injected_key_is_captured_as_itself(
    code: u16,
    s: KeyInjectionSpec,
    vk: u16,
    of_vk: Option<u16>,
    r: u16,
)
    requires
        call_ensures(key_injection_spec, (KeyCode(code),), Some(s)),
        call_ensures(evdev_of_extended_vk, (vk,), of_vk),
        of_vk == Some(code) || of_vk is None && extended_vk_expected(code) is None,
        call_ensures(captured_keycode, (s.scan, vk, s.extended), r),
    ensures
        r == code,
{
    injected_keys_keep_their_identity(code, vk);
}

/// The keys between the letters and the numbers are known: arrows, the six above
/// them, the two with the logo and that for a picture of the screen. No two of them
/// are taken for the same key, and each is injected with the prefix that tells it
/// from the numbers.
pub proof fn arrows_and_their_neighbours_are_known(
    vk: (u16, u16),
    code: (Option<u16>, Option<u16>),
    spec: Option<KeyInjectionSpec>,
)
    requires
        call_ensures(evdev_of_extended_vk, (vk.0,), code.0),
        call_ensures(evdev_of_extended_vk, (vk.1,), code.1),
        code.0 matches Some(c) ==> call_ensures(key_injection_spec, (KeyCode(c),), spec),
    ensures
        code.0 is Some <==> 0x21 <= vk.0 <= 0x28 || 0x2c <= vk.0 <= 0x2e || vk.0 == 0x5b || vk.0
            == 0x5c,
        code.0 is Some && code.0 == code.1 ==> vk.0 == vk.1,
        code.0 is Some ==> (spec matches Some(s) && s.extended),
        vk.0 == 0x26 ==> code.0 == Some(103u16),
        vk.0 == 0x28 ==> code.0 == Some(108u16),
        vk.0 == 0x25 ==> code.0 == Some(105u16),
        vk.0 == 0x27 ==> code.0 == Some(106u16),
{
}

} // verus!
