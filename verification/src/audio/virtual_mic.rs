//! The virtual microphone that the peer's microphone is played into.

use crate::text::{self, chars_of, contains_text, lower_char, part, same_chars, text_of};
use vstd::prelude::*;
use vstd::string::*;

verus! {

/// The name of the sink that stands behind the virtual microphone on Linux.
pub const SINK_NAME: &'static str = "mineshare_mic";

/// What programs show for it.
pub const SINK_DESCRIPTION: &'static str = "MineShare-Mic";

/// A text in lower case, as far as it has ASCII letters.
pub open spec fn lowered(s: Seq<char>) -> Seq<char> {
    s.map_values(|c: char| text::lower(c))
}

/// Whether a device is the playing end of the virtual cable.
pub open spec fn is_cable_input(name: Option<Seq<char>>) -> bool {
    name is Some && text::occurs(lowered(name->0), "cable input"@)
}

fn cable_input(name: &str) -> (r: bool)
    ensures
        r == is_cable_input(Some(name@)),
{
    let chars = chars_of(name);
    let mut low: Vec<char> = Vec::new();
    let mut i: usize = 0;
    while i < chars.len()
        invariant
            i <= chars@.len(),
            chars@ == name@,
            low@ == lowered(name@).subrange(0, i as int),
        decreases chars@.len() - i,
    {
        low.push(lower_char(chars[i]));
        assert(lowered(name@).subrange(0, i + 1) =~= lowered(name@).subrange(0, i as int).push(
            text::lower(name@[i as int]),
        ));
        i = i + 1;
    }
    assert(lowered(name@).subrange(0, name@.len() as int) =~= lowered(name@));
    let low_text = text_of(&low);
    contains_text(low_text.as_str(), "cable input")
}

/// Finds the virtual cable among the output devices, on Windows.
pub fn find_cable_input_device(names: &[Option<String>]) -> (r: Option<usize>)
    ensures
        match r {
            Some(i) => i < names@.len() && is_cable_input(text::optional(names@[i as int]))
                && forall|j: int| 0 <= j < i ==> !is_cable_input(text::optional(#[trigger] names@[j])),
            None => forall|j: int|
                0 <= j < names@.len() ==> !is_cable_input(text::optional(#[trigger] names@[j])),
        },
{
    let mut i: usize = 0;
    while i < names.len()
        invariant
            i <= names@.len(),
            forall|j: int| 0 <= j < i ==> !is_cable_input(text::optional(#[trigger] names@[j])),
        decreases names@.len() - i,
    {
        match &names[i] {
            Some(n) => {
                if cable_input(n.as_str()) {
                    return Some(i);
                }
            },
            None => {},
        }
        i = i + 1;
    }
    None
}

/// No virtual cable is installed.
#[derive(Debug, Clone, Copy, PartialEq, Eq, Structural)]
pub struct CableMissing;

/// Plays the peer's microphone into a virtual cable, on Windows.
#[derive(Debug, Clone, Copy, PartialEq, Eq, Structural)]
pub struct VbCablePlayback {
    /// The cable among the output devices.
    pub device: usize,
}

impl VbCablePlayback {
    /// Takes the first output device that is a virtual cable. Where devices
    /// cannot be listed there are no names.
    pub fn new(names: Option<&[Option<String>]>) -> (r: Result<Self, CableMissing>)
        ensures
            match (names, r) {
                (Some(all), Ok(p)) => p.device < all@.len() && is_cable_input(
                    text::optional(all@[p.device as int]),
                ) && forall|j: int|
                    0 <= j < p.device ==> !is_cable_input(text::optional(#[trigger] all@[j])),
                (Some(all), Err(_)) => forall|j: int|
                    0 <= j < all@.len() ==> !is_cable_input(text::optional(#[trigger] all@[j])),
                (None, _) => r is Err,
            },
    {
        match names {
            Some(all) => match find_cable_input_device(all) {
                Some(device) => Ok(VbCablePlayback { device }),
                None => Err(CableMissing),
            },
            None => Err(CableMissing),
        }
    }
}

/// The position of the first `sep` from `i` on; the end if there is none.
pub open spec fn end_of(s: Seq<char>, sep: char, i: int) -> int
    decreases s.len() - i,
{
    if i >= s.len() {
        s.len() as int
    } else if s[i] == sep {
        i
    } else {
        end_of(s, sep, i + 1)
    }
}

/// The position lies behind `i`, and not behind the end.
pub proof fn lemma_end_of(s: Seq<char>, sep: char, i: int)
    requires
        0 <= i <= s.len(),
    ensures
        i <= end_of(s, sep, i) <= s.len(),
    decreases s.len() - i,
{
    if i < s.len() && s[i] != sep {
        lemma_end_of(s, sep, i + 1);
    }
}

fn find_end(s: &[char], sep: char, from: usize) -> (r: usize)
    requires
        from <= s@.len(),
    ensures
        r == end_of(s@, sep, from as int),
        from <= r <= s@.len(),
{
    let mut i: usize = from;
    while i < s.len() && s[i] != sep
        invariant
            from <= i <= s@.len(),
            end_of(s@, sep, from as int) == end_of(s@, sep, i as int),
        decreases s@.len() - i,
    {
        i = i + 1;
    }
    i
}

/// The number of the module that a line of the sound server's list names, if
/// it is a sink of ours: number, kind and arguments, with tabs between them.
pub open spec fn own_module(line: Seq<char>) -> Option<Seq<char>> {
    let a = end_of(line, '\t', 0);
    let b = end_of(line, '\t', a + 1);
    let c = end_of(line, '\t', b + 1);
    if a < line.len() && b < line.len() && line.subrange(a + 1, b) == "module-null-sink"@
        && text::occurs(line.subrange(b + 1, c), "sink_name=mineshare_mic"@) {
        Some(line.subrange(0, a))
    } else {
        None
    }
}

fn read_module(line: &[char]) -> (r: Option<String>)
    ensures
        text::optional(r) == own_module(line@),
{
    let n: usize = line.len();
    let a = find_end(line, '\t', 0);
    if a >= n {
        return None;
    }
    let b = find_end(line, '\t', a + 1);
    if b >= n {
        return None;
    }
    let c = find_end(line, '\t', b + 1);
    let kind = part(line, a + 1, b);
    let arguments = text_of(&part(line, b + 1, c));
    let wanted = chars_of("module-null-sink");
    if same_chars(&kind, &wanted) && contains_text(arguments.as_str(), "sink_name=mineshare_mic") {
        Some(text_of(&part(line, 0, a)))
    } else {
        None
    }
}

/// The modules of ours that a list names from position `i` on.
pub open spec fn own_modules(s: Seq<char>, i: int) -> Seq<Seq<char>>
    decreases s.len() + 1 - i,
{
    if 0 <= i < s.len() {
        proof {
            lemma_end_of(s, '\n', i);
        }
        let end = end_of(s, '\n', i);
        let rest = own_modules(s, end + 1);
        match own_module(s.subrange(i, end)) {
            Some(m) => seq![m] + rest,
            None => rest,
        }
    } else {
        Seq::empty()
    }
}

/// The texts of a list.
pub open spec fn texts(list: Seq<String>) -> Seq<Seq<char>> {
    list.map_values(|t: String| t@)
}

/// Finds the sinks that an earlier run has left behind, in the list of the
/// sound server's modules.
pub fn stale_modules(list: &str) -> (r: Vec<String>)
    ensures
        texts(r@) == own_modules(list@, 0),
{
    let s = chars_of(list);
    let n: usize = s.len();
    let mut r: Vec<String> = Vec::new();
    let mut i: usize = 0;
    assert(texts(r@) + own_modules(list@, 0) =~= own_modules(list@, 0));
    while i < n
        invariant
            n == s@.len(),
            s@ == list@,
            i <= n,
            texts(r@) + own_modules(list@, i as int) == own_modules(list@, 0),
        decreases n - i,
    {
        let end = find_end(&s, '\n', i);
        let line = part(&s, i, end);
        let ghost before = r@;
        let ghost rest = own_modules(list@, end + 1);
        match read_module(&line) {
            Some(m) => {
                let ghost name = m@;
                r.push(m);
                assert(texts(r@) =~= texts(before).push(name));
                assert(texts(r@) + rest =~= texts(before) + (seq![name] + rest));
            },
            None => {},
        }
        if end == n {
            assert(rest =~= Seq::<Seq<char>>::empty());
            assert(texts(r@) + rest =~= texts(r@));
            return r;
        }
        i = end + 1;
    }
    assert(texts(r@) + own_modules(list@, i as int) =~= texts(r@));
    r
}

/// The virtual microphone on Linux: a sink, and a program that plays into it.
pub struct PipewireVirtualMic {
    /// The number of the sink's module.
    pub module_index: Option<String>,
    /// Whether the program runs.
    pub playing: bool,
    /// Whether writing to the program has failed.
    pub pacat_dead: bool,
}

/// What becomes of a frame of the peer's microphone.
#[derive(Debug, Clone, Copy, PartialEq, Eq, Structural)]
pub enum MicFrame {
    Drop,
    Write,
}

impl PipewireVirtualMic {
    /// The sink was made, and the program runs.
    pub fn new(module_index: String) -> (r: Self)
        ensures
            r.module_index == Some(module_index),
            r.playing,
            !r.pacat_dead,
    {
        PipewireVirtualMic { module_index: Some(module_index), playing: true, pacat_dead: false }
    }

    /// Tells whether a frame is written. After a failure frames are dropped
    /// without a word.
    pub fn enqueue(&self) -> (r: MicFrame)
        ensures
            r == (if self.pacat_dead || !self.playing {
                MicFrame::Drop
            } else {
                MicFrame::Write
            }),
    {
        if self.pacat_dead || !self.playing {
            MicFrame::Drop
        } else {
            MicFrame::Write
        }
    }

    /// Writing failed.
    pub fn write_failed(&mut self)
        ensures
            *final(self) == (PipewireVirtualMic { pacat_dead: true, ..*old(self) }),
    {
        self.pacat_dead = true;
    }

    /// Tells whether the program is to be stopped, and which module is to be
    /// unloaded.
    pub fn close(&mut self) -> (r: (bool, Option<String>))
        ensures
            r == (old(self).playing, old(self).module_index),
            *final(self) == (PipewireVirtualMic {
                module_index: None,
                playing: false,
                ..*old(self)
            }),
    {
        let running = self.playing;
        self.playing = false;
        (running, self.module_index.take())
    }
}

/// The virtual cable is found by its name, wherever the name stands among other
/// words and whatever the case of its letters, and the first one is taken.
pub proof fn the_virtual_cable_is_found(
    names: &[Option<String>],
    r: Option<usize>,
    j: int,
    before: Seq<char>,
    name: Seq<char>,
    after: Seq<char>,
)
    requires
        call_ensures(find_cable_input_device, (names,), r),
        0 <= j < names@.len(),
        names@[j] matches Some(n) && n@ == before + name + after,
        name.len() == 11,
        forall|k: int|
            0 <= k < 11 ==> #[trigger] name[k] == "cable input"@[k] || name[k]
                == "CABLE INPUT"@[k],
    ensures
        r is Some,
{
    reveal_strlit("cable input");
    reveal_strlit("CABLE INPUT");
    let n = names@[j]->0@;
    let at = before.len() as int;
    let low = lowered(n);
    assert forall|k: int| 0 <= k < 11 implies low[at + k] == "cable input"@[k] by {
        assert(n[at + k] == name[k]);
        assert(low[at + k] == text::lower(name[k]));
    }
    assert(low.subrange(at, at + 11) =~= "cable input"@);
    assert(text::stands_at(low, "cable input"@, at));
    assert(is_cable_input(text::optional(names@[j])));
}

/// A device that is found bears the name of the cable.
pub proof fn only_a_virtual_cable_is_taken(names: &[Option<String>], i: usize)
    requires
        call_ensures(find_cable_input_device, (names,), Some(i)),
    ensures
        i < names@.len(),
        names@[i as int] matches Some(n) && n@.len() >= 11 && text::occurs(
            lowered(n@),
            "cable input"@,
        ),
{
    reveal_strlit("cable input");
}

proof fn lemma_end_over(s: Seq<char>, sep: char, i: int, end: int)
    requires
        0 <= i <= end <= s.len(),
        forall|k: int| i <= k < end ==> #[trigger] s[k] != sep,
        end < s.len() ==> s[end] == sep,
    ensures
        end_of(s, sep, i) == end,
    decreases end - i,
{
    if i < end {
        assert(s[i] != sep);
        lemma_end_over(s, sep, i + 1, end);
    }
}

/// A sink that an earlier run has left behind is found by its number, whatever else
/// its arguments hold.
pub proof fn an_own_sink_is_found(
    list: &str,
    number: Seq<char>,
    before: Seq<char>,
    after: Seq<char>,
    r: Vec<String>,
)
    requires
        call_ensures(stale_modules, (list,), r),
        list@ == number + "\t"@ + "module-null-sink"@ + "\t"@ + before + "sink_name=mineshare_mic"@
            + after,
        forall|k: int| 0 <= k < number.len() ==> #[trigger] number[k] != '\t' && number[k] != '\n',
        forall|k: int| 0 <= k < before.len() ==> #[trigger] before[k] != '\t' && before[k] != '\n',
        forall|k: int| 0 <= k < after.len() ==> #[trigger] after[k] != '\t' && after[k] != '\n',
    ensures
        r@.len() == 1,
        r@[0]@ == number,
{
    reveal_strlit("\t");
    reveal_strlit("module-null-sink");
    reveal_strlit("sink_name=mineshare_mic");
    let s = list@;
    let a = number.len() as int;
    let b = a + 17;
    assert(forall|k: int| 0 <= k < 16 ==> "module-null-sink"@[k] != '\t' && "module-null-sink"@[k] != '\n');
    assert(forall|k: int|
        0 <= k < 23 ==> "sink_name=mineshare_mic"@[k] != '\t' && "sink_name=mineshare_mic"@[k]
            != '\n');
    assert forall|k: int| 0 <= k < s.len() implies #[trigger] s[k] != '\n' by {
        lemma_sink_line(number, before, after, k);
    }
    assert forall|k: int| 0 <= k < s.len() && k != a && k != b implies #[trigger] s[k] != '\t' by {
        lemma_sink_line(number, before, after, k);
    }
    assert(s[a] == '\t' && s[b] == '\t');
    lemma_end_over(s, '\n', 0, s.len() as int);
    lemma_end_over(s, '\t', 0, a);
    lemma_end_over(s, '\t', a + 1, b);
    lemma_end_over(s, '\t', b + 1, s.len() as int);
    assert(s.subrange(0, s.len() as int) =~= s);
    assert(s.subrange(a + 1, b) =~= "module-null-sink"@);
    assert(s.subrange(0, a) =~= number);
    let arguments = s.subrange(b + 1, s.len() as int);
    assert(arguments.subrange(before.len() as int, before.len() as int + 23)
        =~= "sink_name=mineshare_mic"@);
    assert(text::stands_at(arguments, "sink_name=mineshare_mic"@, before.len() as int));
    assert(own_module(s) == Some(number));
    assert(own_modules(s, s.len() as int + 1) =~= Seq::<Seq<char>>::empty());
    assert(own_modules(s, 0) =~= seq![number]);
    assert(texts(r@)[0] == number);
}

proof fn lemma_sink_line(number: Seq<char>, before: Seq<char>, after: Seq<char>, k: int)
    requires
        forall|k: int| 0 <= k < number.len() ==> #[trigger] number[k] != '\t' && number[k] != '\n',
        forall|k: int| 0 <= k < before.len() ==> #[trigger] before[k] != '\t' && before[k] != '\n',
        forall|k: int| 0 <= k < after.len() ==> #[trigger] after[k] != '\t' && after[k] != '\n',
        0 <= k < number.len() + before.len() + after.len() + 41,
    ensures
        ({
            let s = number + "\t"@ + "module-null-sink"@ + "\t"@ + before
                + "sink_name=mineshare_mic"@ + after;
            &&& s.len() == number.len() + before.len() + after.len() + 41
            &&& s[k] != '\n'
            &&& s[k] == '\t' ==> k == number.len() || k == number.len() + 17
        }),
{
    reveal_strlit("\t");
    reveal_strlit("module-null-sink");
    reveal_strlit("sink_name=mineshare_mic");
    let s = number + "\t"@ + "module-null-sink"@ + "\t"@ + before + "sink_name=mineshare_mic"@
        + after;
    let a = number.len() as int;
    let c = a + 18 + before.len();
    if k < a {
        assert(s[k] == number[k]);
    } else if a < k < a + 17 {
        assert(s[k] == "module-null-sink"@[k - a - 1]);
    } else if a + 17 < k < c {
        assert(s[k] == before[k - a - 18]);
    } else if c <= k < c + 23 {
        assert(s[k] == "sink_name=mineshare_mic"@[k - c]);
    } else if c + 23 <= k {
        assert(s[k] == after[k - c - 23]);
    }
}

/// Frames go into the virtual microphone as long as it plays and writing works.
pub proof fn frames_are_written_while_it_plays(
    m: (&mut PipewireVirtualMic, &mut PipewireVirtualMic),
    index: String,
    new: PipewireVirtualMic,
    r: (MicFrame, MicFrame, MicFrame),
    closed: (bool, Option<String>),
)
    requires
        call_ensures(PipewireVirtualMic::new, (index,), new),
        call_ensures(PipewireVirtualMic::enqueue, (&new,), r.0),
        *old(m.0) == new,
        call_ensures(PipewireVirtualMic::write_failed, (m.0,), ()),
        call_ensures(PipewireVirtualMic::enqueue, (&*final(m.0),), r.1),
        *old(m.1) == new,
        call_ensures(PipewireVirtualMic::close, (m.1,), closed),
        call_ensures(PipewireVirtualMic::enqueue, (&*final(m.1),), r.2),
    ensures
        r.0 == MicFrame::Write,
        r.1 == MicFrame::Drop,
        r.2 == MicFrame::Drop,
        closed == (true, Some(index)),
{
}

} // verus!
