//! The size of the local screen on a Linux machine.

use crate::input::linux::LinuxState;
use crate::text::{self, chars_of, find_chars, part};
use vstd::prelude::*;

verus! {

pub open spec fn is_digit(c: char) -> bool {
    '0' <= c <= '9'
}

/// The first position from `i` on at which `s` has a digit, or else a
/// non-digit; the end if there is none.
pub open spec fn scan(s: Seq<char>, i: int, digit: bool) -> int
    decreases s.len() - i,
{
    if i < 0 || i >= s.len() || is_digit(s[i]) == digit {
        i
    } else {
        scan(s, i + 1, digit)
    }
}

/// The value of a row of digits.
pub open spec fn value(s: Seq<char>) -> nat
    decreases s.len(),
{
    if s.len() == 0 {
        0
    } else {
        value(s.drop_last()) * 10 + (s.last() as u32 - '0' as u32) as nat
    }
}

/// The first number of `s` from `i` on, and the position behind it. There is
/// none without a digit, nor if it does not fit.
pub open spec fn number_from(s: Seq<char>, i: int) -> Option<(u32, int)> {
    let start = scan(s, i, true);
    let end = scan(s, start, false);
    if start >= s.len() || value(s.subrange(start, end)) > u32::MAX {
        None
    } else {
        Some((value(s.subrange(start, end)) as u32, end))
    }
}

/// What a line has behind the word `current`, up to the next such word.
pub open spec fn behind_current(line: Seq<char>) -> Option<Seq<char>> {
    let pat = "current "@;
    match text::find_from(line, pat, 0) {
        None => None,
        Some(i) => {
            let rest = line.subrange(i + pat.len(), line.len() as int);
            match text::find_from(rest, pat, 0) {
                None => Some(rest),
                Some(j) => Some(rest.subrange(0, j)),
            }
        },
    }
}

/// What a line says of the screen: nothing, that its size cannot be told, or
/// its size.
#[derive(Debug, Clone, Copy, PartialEq, Eq)]
pub enum LineSize {
    Silent,
    Unreadable,
    Size(u32, u32),
}

/// A line tells the size by the first two numbers behind `current`. Without
/// the two numbers it cannot be told; a size of nothing says nothing.
pub open spec fn line_size(line: Seq<char>) -> LineSize {
    match behind_current(line) {
        None => LineSize::Silent,
        Some(rest) => match number_from(rest, 0) {
            None => LineSize::Unreadable,
            Some((w, i)) => match number_from(rest, i) {
                None => LineSize::Unreadable,
                Some((h, j)) => if w > 0 && h > 0 {
                    LineSize::Size(w, h)
                } else {
                    LineSize::Silent
                },
            },
        },
    }
}

/// The position of the first line break from `i` on; the end if there is none.
pub open spec fn line_end(s: Seq<char>, i: int) -> int
    decreases s.len() - i,
{
    if i < 0 || i >= s.len() || s[i] == '\n' {
        i
    } else {
        line_end(s, i + 1)
    }
}

/// The size that a text tells from position `i` on: the first line that does
/// not stay silent decides.
pub open spec fn told_size(s: Seq<char>, i: int) -> Option<(u32, u32)>
    decreases s.len() + 1 - i,
    when 0 <= i
    via told_size_ends
{
    if i >= s.len() {
        None
    } else {
        let end = line_end(s, i);
        match line_size(s.subrange(i, end)) {
            LineSize::Silent => told_size(s, end + 1),
            LineSize::Unreadable => None,
            LineSize::Size(w, h) => Some((w, h)),
        }
    }
}

#[via_fn]
proof fn told_size_ends(s: Seq<char>, i: int) {
    if i < s.len() {
        lemma_line_end(s, i);
    }
}

proof fn lemma_line_end(s: Seq<char>, i: int)
    requires
        0 <= i <= s.len(),
    ensures
        i <= line_end(s, i) <= s.len(),
        line_end(s, i) < s.len() ==> s[line_end(s, i)] == '\n',
    decreases s.len() - i,
{
    if i < s.len() && s[i] != '\n' {
        lemma_line_end(s, i + 1);
    }
}

proof fn lemma_scan(s: Seq<char>, i: int, digit: bool)
    requires
        0 <= i <= s.len(),
    ensures
        i <= scan(s, i, digit) <= s.len(),
        forall|j: int| i <= j < scan(s, i, digit) ==> is_digit(#[trigger] s[j]) != digit,
    decreases s.len() - i,
{
    if i < s.len() && is_digit(s[i]) != digit {
        lemma_scan(s, i + 1, digit);
    }
}

fn scan_from(s: &[char], from: usize, digit: bool) -> (r: usize)
    requires
        from <= s@.len(),
    ensures
        r == scan(s@, from as int, digit),
        from <= r <= s@.len(),
{
    let mut i: usize = from;
    while i < s.len() && (s[i] >= '0' && s[i] <= '9') != digit
        invariant
            from <= i <= s@.len(),
            scan(s@, from as int, digit) == scan(s@, i as int, digit),
        decreases s@.len() - i,
    {
        i = i + 1;
    }
    i
}

proof fn lemma_value_grows(s: Seq<char>, n: int)
    requires
        0 <= n <= s.len(),
        forall|j: int| 0 <= j < s.len() ==> is_digit(#[trigger] s[j]),
    ensures
        value(s.subrange(0, n)) <= value(s),
    decreases s.len(),
{
    if n == s.len() {
        assert(s.subrange(0, n) =~= s);
    } else {
        lemma_value_grows(s.drop_last(), n);
        assert(s.drop_last().subrange(0, n) =~= s.subrange(0, n));
    }
}

fn parse_digits(s: &[char], start: usize, end: usize) -> (r: Option<u32>)
    requires
        start <= end <= s@.len(),
        forall|j: int| start <= j < end ==> is_digit(#[trigger] s@[j]),
    ensures
        r == if value(s@.subrange(start as int, end as int)) <= u32::MAX {
            Some(value(s@.subrange(start as int, end as int)) as u32)
        } else {
            None
        },
{
    let mut v: u64 = 0;
    let mut i: usize = start;
    let ghost all = s@.subrange(start as int, end as int);
    while i < end
        invariant
            start <= i <= end <= s@.len(),
            forall|j: int| start <= j < end ==> is_digit(#[trigger] s@[j]),
            all == s@.subrange(start as int, end as int),
            v == value(all.subrange(0, i - start)),
            v <= u32::MAX,
        decreases end - i,
    {
        let d: u64 = (s[i] as u32 - '0' as u32) as u64;
        proof {
            let k = i - start;
            assert(all.subrange(0, k + 1).drop_last() =~= all.subrange(0, k));
            assert(all[k] == s@[i as int]);
            assert forall|j: int| 0 <= j < all.len() implies is_digit(#[trigger] all[j]) by {
                assert(all[j] == s@[start + j]);
            }
            lemma_value_grows(all, k + 1);
        }
        v = v * 10 + d;
        i = i + 1;
        if v > u32::MAX as u64 {
            return None;
        }
    }
    assert(all.subrange(0, end - start) =~= all);
    Some(v as u32)
}

fn read_number(s: &[char], from: usize) -> (r: Option<(u32, usize)>)
    requires
        from <= s@.len(),
    ensures
        match r {
            Some((v, end)) => number_from(s@, from as int) == Some((v, end as int)) && end
                <= s@.len(),
            None => number_from(s@, from as int) is None,
        },
{
    let start: usize = scan_from(s, from, true);
    let end: usize = scan_from(s, start, false);
    if start >= s.len() {
        return None;
    }
    proof {
        lemma_scan(s@, start as int, false);
    }
    match parse_digits(s, start, end) {
        Some(v) => Some((v, end)),
        None => None,
    }
}

fn read_line(line: &[char]) -> (r: LineSize)
    ensures
        r == line_size(line@),
{
    let pat = chars_of("current ");
    let n: usize = line.len();
    let rest = match find_chars(line, &pat) {
        None => {
            return LineSize::Silent;
        },
        Some(i) => {
            let rest = part(line, i + pat.len(), n);
            match find_chars(&rest, &pat) {
                None => rest,
                Some(j) => part(&rest, 0, j),
            }
        },
    };
    match read_number(&rest, 0) {
        None => LineSize::Unreadable,
        Some((w, i)) => match read_number(&rest, i) {
            None => LineSize::Unreadable,
            Some((h, _)) => {
                if w > 0 && h > 0 {
                    LineSize::Size(w, h)
                } else {
                    LineSize::Silent
                }
            },
        },
    }
}

/// Reads the size of the screen from what `xrandr --query` prints.
pub fn detect_via_xrandr(stdout: &str) -> (r: Option<(u32, u32)>)
    ensures
        r == told_size(stdout@, 0),
{
    let s = chars_of(stdout);
    let mut i: usize = 0;
    while i < s.len()
        invariant
            s@ == stdout@,
            told_size(s@, 0) == told_size(s@, i as int),
        decreases s@.len() - i,
    {
        let mut end: usize = i;
        while end < s.len() && s[end] != '\n'
            invariant
                i <= end <= s@.len(),
                line_end(s@, i as int) == line_end(s@, end as int),
            decreases s@.len() - end,
        {
            end = end + 1;
        }
        let line = part(&s, i, end);
        match read_line(&line) {
            LineSize::Silent => {},
            LineSize::Unreadable => {
                return None;
            },
            LineSize::Size(w, h) => {
                return Some((w, h));
            },
        }
        if end == s.len() {
            assert(told_size(s@, end + 1) is None);
            return None;
        }
        i = end + 1;
    }
    None
}

/// The size of the screen: what the user has set, else what the display server
/// tells, else 1920 by 1080.
pub open spec fn geometry(set_w: Option<i32>, set_h: Option<i32>, told: Option<(u32, u32)>) -> (
    u32,
    u32,
) {
    match (set_w, set_h) {
        (Some(w), Some(h)) => (
            (if w >= 1 {
                w
            } else {
                1
            }) as u32,
            (if h >= 1 {
                h
            } else {
                1
            }) as u32,
        ),
        _ => match told {
            Some(size) => size,
            None => (1920, 1080),
        },
    }
}

/// Finds out the size of the screen and keeps it. `xrandr` is what the display
/// server's tool printed, if it could be asked.
pub fn local_screen_geometry(
    lx: &mut LinuxState,
    set_w: Option<i32>,
    set_h: Option<i32>,
    xrandr: Option<&str>,
) -> (r: (u32, u32))
    ensures
        r == geometry(
            set_w,
            set_h,
            match xrandr {
                Some(text) => told_size(text@, 0),
                None => None,
            },
        ),
        *final(lx) == (LinuxState { screen_w: r.0 as i32, screen_h: r.1 as i32, ..*old(lx) }),
{
    let size = match (set_w, set_h) {
        (Some(w), Some(h)) => {
            let w1: i32 = if w >= 1 {
                w
            } else {
                1
            };
            let h1: i32 = if h >= 1 {
                h
            } else {
                1
            };
            (w1 as u32, h1 as u32)
        },
        _ => {
            let told = match xrandr {
                Some(text) => detect_via_xrandr(text),
                None => None,
            };
            match told {
                Some(size) => size,
                None => (1920, 1080),
            }
        },
    };
    lx.screen_w = #[verifier::truncate] (size.0 as i32);
    lx.screen_h = #[verifier::truncate] (size.1 as i32);
    size
}

/// What an input device can report.
#[derive(Debug, Clone, Copy, PartialEq, Eq, Structural)]
pub struct DeviceTraits {
    pub rel_x: bool,
    pub rel_y: bool,
    pub rel_wheel: bool,
    pub key_a: bool,
    pub key_space: bool,
    pub btn_left: bool,
    pub btn_right: bool,
}

/// Whether a device is a mouse or a keyboard.
pub fn is_relevant(d: DeviceTraits) -> (r: bool)
    ensures
        r == (d.rel_x || d.rel_wheel || d.key_a || d.key_space || d.btn_left || d.btn_right),
{
    let has_rel = d.rel_x || d.rel_wheel;
    let has_keyboard = d.key_a || d.key_space;
    let has_mouse_btns = d.btn_left || d.btn_right;
    has_rel || has_keyboard || has_mouse_btns
}

/// Whether a device moves the cursor. Only its motion tells: keyboards too
/// have mouse buttons.
pub fn is_pointer_device(d: DeviceTraits) -> (r: bool)
    ensures
        r == (d.rel_x || d.rel_y),
{
    d.rel_x || d.rel_y
}

/// Whether a device is one that this program made.
pub fn is_virtual_device(name: &str) -> (r: bool)
    ensures
        r == "MineShare Virtual"@.is_prefix_of(name@),
{
    let prefix = chars_of("MineShare Virtual");
    let chars = chars_of(name);
    if chars.len() < prefix.len() {
        return false;
    }
    let head = part(&chars, 0, prefix.len());
    text::same_chars(&prefix, &head)
}

/// Whether a device is captured: a mouse or keyboard that this program did not
/// make.
pub fn should_capture(name: Option<&str>, d: DeviceTraits) -> (r: bool)
    ensures
        r == (!(name matches Some(n) && "MineShare Virtual"@.is_prefix_of(n@)) && (d.rel_x
            || d.rel_wheel || d.key_a || d.key_space || d.btn_left || d.btn_right)),
{
    let ours = match name {
        Some(n) => is_virtual_device(n),
        None => false,
    };
    !ours && is_relevant(d)
}

/// The capture's start: the cursor is taken to be in the middle of the screen,
/// and the peer's screen as wide as the user has set, or 2880.
pub fn start_capture(lx: &mut LinuxState, set_peer_w: Option<i32>)
    ensures
        *final(lx) == (LinuxState {
            peer_w: match set_peer_w {
                Some(w) => w,
                None => 2880,
            },
            cursor_x: crate::arith::half(old(lx).screen_w as int) as i32,
            ..*old(lx)
        }),
{
    lx.peer_w = match set_peer_w {
        Some(w) => w,
        None => 2880,
    };
    lx.cursor_x = crate::arith::half_i32(lx.screen_w);
}

/// A size that the user set is used as it is; else the one that the system tells;
/// else a common one. What is used is what is noted.
pub proof fn the_size_that_is_set_is_used(
    lx: &mut LinuxState,
    set: (Option<i32>, Option<i32>),
    xrandr: Option<&str>,
    told: Option<(u32, u32)>,
    r: (u32, u32),
)
    requires
        call_ensures(local_screen_geometry, (lx, set.0, set.1, xrandr), r),
        xrandr is Some ==> call_ensures(detect_via_xrandr, (xrandr->0,), told),
        xrandr is None ==> told is None,
    ensures
        set.0 is Some && set.1 is Some && set.0->0 >= 1 && set.1->0 >= 1 ==> r.0 == set.0->0
            && r.1 == set.1->0,
        (set.0 is None || set.1 is None) && told is Some ==> r == told->0,
        (set.0 is None || set.1 is None) && told is None ==> r == (1920u32, 1080u32),
        r.0 <= i32::MAX ==> final(lx).screen_w == r.0,
        r.1 <= i32::MAX ==> final(lx).screen_h == r.1,
        final(lx).mode == old(lx).mode,
{
}

/// Mice and keyboards are captured, and the devices that this program makes itself
/// are not.
pub proof fn own_devices_are_not_captured(name: &str, d: DeviceTraits, r: bool)
    requires
        call_ensures(should_capture, (Some(name), d), r),
    ensures
        name@.len() >= 17 && name@.subrange(0, 17) == "MineShare Virtual"@ ==> !r,
        name@.len() < 17 && (d.rel_x || d.key_a) ==> r,
        !(d.rel_x || d.rel_wheel || d.key_a || d.key_space || d.btn_left || d.btn_right) ==> !r,
        r ==> !"MineShare Virtual"@.is_prefix_of(name@),
{
    reveal_strlit("MineShare Virtual");
    if name@.len() >= 17 && name@.subrange(0, 17) == "MineShare Virtual"@ {
        assert("MineShare Virtual"@.is_prefix_of(name@));
    }
}

/// The size is read from the first line that tells one: behind the word for the
/// current size, the first two numbers are width and height.
pub proof fn the_current_size_is_read(
    stdout: &str,
    before: Seq<char>,
    width: Seq<char>,
    between: Seq<char>,
    height: Seq<char>,
    after: Seq<char>,
    r: Option<(u32, u32)>,
)
    requires
        call_ensures(detect_via_xrandr, (stdout,), r),
        stdout@ == before + "current "@ + width + between + height + after,
        text::find_from(stdout@, "current "@, 0) == Some(before.len() as int),
        text::find_from(
            width + between + height + after,
            "current "@,
            0,
        ) is None,
        forall|k: int| 0 <= k < stdout@.len() ==> #[trigger] stdout@[k] != '\n',
        width.len() > 0 && height.len() > 0 && between.len() > 0,
        forall|k: int| 0 <= k < width.len() ==> is_digit(#[trigger] width[k]),
        forall|k: int| 0 <= k < height.len() ==> is_digit(#[trigger] height[k]),
        forall|k: int| 0 <= k < between.len() ==> !is_digit(#[trigger] between[k]),
        after.len() > 0 ==> !is_digit(after[0]),
        0 < value(width) <= u32::MAX,
        0 < value(height) <= u32::MAX,
    ensures
        r == Some((value(width) as u32, value(height) as u32)),
{
    let s = stdout@;
    lemma_line_end_last(s, 0);
    let pat = "current "@;
    let rest = width + between + height + after;
    assert(s.subrange(0, s.len() as int) =~= s);
    assert(s.subrange(before.len() as int + pat.len(), s.len() as int) =~= rest);
    let w = width.len() as int;
    let b = w + between.len();
    let h = b + height.len();
    lemma_scan_over(rest, 0, 0, true);
    lemma_scan_over(rest, 0, w, false);
    lemma_scan_over(rest, w, b, true);
    lemma_scan_over(rest, b, h, false);
    assert(rest.subrange(0, w) =~= width);
    assert(rest.subrange(b, h) =~= height);
    assert(number_from(rest, 0) == Some((value(width) as u32, w)));
    assert(number_from(rest, w) == Some((value(height) as u32, h)));
    assert(behind_current(s) == Some(rest));
}

proof fn lemma_line_end_last(s: Seq<char>, i: int)
    requires
        0 <= i <= s.len(),
        forall|k: int| 0 <= k < s.len() ==> #[trigger] s[k] != '\n',
    ensures
        line_end(s, i) == s.len(),
    decreases s.len() - i,
{
    if i < s.len() {
        lemma_line_end_last(s, i + 1);
    }
}

/// A scan stops where the kind of character that it looks for begins.
proof fn lemma_scan_over(s: Seq<char>, i: int, end: int, digit: bool)
    requires
        0 <= i <= end <= s.len(),
        forall|k: int| i <= k < end ==> is_digit(#[trigger] s[k]) != digit,
        end < s.len() ==> is_digit(s[end]) == digit,
    ensures
        scan(s, i, digit) == end,
    decreases end - i,
{
    if i < end {
        assert(is_digit(s[i]) != digit);
        lemma_scan_over(s, i + 1, end, digit);
    }
}

} // verus!
