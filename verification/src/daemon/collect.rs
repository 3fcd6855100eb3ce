//! A bundle of recent logs for somebody who looks into a fault.

use crate::order::{self, order_by};
use crate::text::{self, chars_of, decimal_text, starts_with, text_of};
use vstd::prelude::*;
use vstd::string::*;

verus! {

/// The most that a bundle holds of logs: 4 MiB.
pub const MAX_BUNDLE_BYTES: u64 = 4_194_304;

/// The most logs that a bundle holds.
pub const MAX_RECENT_FILES: usize = 3;

/// Whether a character may stand in the name of a bundle.
pub open spec fn is_plain(c: char) -> bool {
    'a' <= c <= 'z' || 'A' <= c <= 'Z' || '0' <= c <= '9' || c == '-' || c == '_'
}

/// A name with a hyphen for every character that may not stand in it.
pub open spec fn plain(name: Seq<char>) -> Seq<char> {
    name.map_values(
        |c: char|
            if is_plain(c) {
                c
            } else {
                '-'
            },
    )
}

/// The name of a machine; nothing and the empty name are unknown.
pub open spec fn known_name(name: Option<Seq<char>>) -> Seq<char> {
    match name {
        Some(n) => if n.len() > 0 {
            n
        } else {
            "unknown"@
        },
        None => "unknown"@,
    }
}

/// Names the bundle of a machine.
pub fn host_label(name: Option<&str>, os: &str) -> (r: String)
    ensures
        r@ == plain(
            known_name(
                match name {
                    Some(n) => Some(n@),
                    None => None,
                },
            ),
        ) + "-"@ + os@,
{
    let chars = match name {
        Some(n) => {
            let c = chars_of(n);
            if c.len() > 0 {
                c
            } else {
                chars_of("unknown")
            }
        },
        None => chars_of("unknown"),
    };
    let mut safe: Vec<char> = Vec::new();
    let mut i: usize = 0;
    while i < chars.len()
        invariant
            i <= chars@.len(),
            safe@ == plain(chars@).subrange(0, i as int),
        decreases chars@.len() - i,
    {
        let c = chars[i];
        let ok = (c >= 'a' && c <= 'z') || (c >= 'A' && c <= 'Z') || (c >= '0' && c <= '9') || c
            == '-' || c == '_';
        safe.push(
            if ok {
                c
            } else {
                '-'
            },
        );
        assert(plain(chars@).subrange(0, i + 1) =~= plain(chars@).subrange(0, i as int).push(
            plain(chars@)[i as int],
        ));
        i = i + 1;
    }
    assert(plain(chars@).subrange(0, chars@.len() as int) =~= plain(chars@));
    text_of(&safe).concat("-").concat(os)
}

/// A machine's name cannot lead the bundle out of its directory.
pub proof fn a_label_stays_in_its_directory(name: Seq<char>, i: int)
    requires
        0 <= i < name.len(),
    ensures
        is_plain(plain(name)[i]),
        plain(name)[i] != '/',
        plain(name)[i] != '\\',
        plain(name)[i] != '.',
{
}

/// What heads a bundle.
pub struct Header {
    pub host: String,
    pub os: String,
    pub arch: String,
    pub collected: String,
    pub version: String,
    pub log_dir: String,
    /// The identity and the name of the machine, where they can be told.
    pub identity: Option<(String, String)>,
    pub local_addrs: String,
}

pub open spec fn header_text(h: Header) -> Seq<char> {
    "=== MineShare log bundle ===\n"@ + "host:        "@ + h.host@ + "\n"@ + "os:          "@
        + h.os@ + "\n"@ + "arch:        "@ + h.arch@ + "\n"@ + "collected:   "@ + h.collected@
        + "\n"@ + "daemon ver:  "@ + h.version@ + "\n"@ + "log dir:     "@ + h.log_dir@ + "\n"@
        + identity_text(h.identity) + "local addrs: "@ + h.local_addrs@ + "\n"@
}

pub open spec fn identity_text(identity: Option<(String, String)>) -> Seq<char> {
    match identity {
        Some(id) => "device id:   "@ + id.0@ + "\n"@ + "display:     "@ + id.1@ + "\n"@,
        None => Seq::empty(),
    }
}

/// Writes the head of a bundle.
pub fn build_header(h: &Header) -> (r: String)
    ensures
        r@ == header_text(*h),
{
    let mut r = String::from_str("=== MineShare log bundle ===\n");
    r.append("host:        ");
    r.append(h.host.as_str());
    r.append("\n");
    r.append("os:          ");
    r.append(h.os.as_str());
    r.append("\n");
    r.append("arch:        ");
    r.append(h.arch.as_str());
    r.append("\n");
    r.append("collected:   ");
    r.append(h.collected.as_str());
    r.append("\n");
    r.append("daemon ver:  ");
    r.append(h.version.as_str());
    r.append("\n");
    r.append("log dir:     ");
    r.append(h.log_dir.as_str());
    r.append("\n");
    let mut id_text = String::new();
    match &h.identity {
        Some(id) => {
            id_text = String::from_str("device id:   ");
            id_text.append(id.0.as_str());
            id_text.append("\n");
            id_text.append("display:     ");
            id_text.append(id.1.as_str());
            id_text.append("\n");
        },
        None => {
            assert(id_text@ =~= Seq::<char>::empty());
        },
    }
    r.append(id_text.as_str());
    r.append("local addrs: ");
    r.append(h.local_addrs.as_str());
    r.append("\n");
    r
}

/// A log on the disk: when it was changed last, in nanoseconds since 1970, and
/// how long it is.
pub struct LogEntry {
    pub path: String,
    pub modified_ns: u128,
    pub len: u64,
}

/// Tells whether a file is taken for a log.
pub fn is_log(name: &str) -> (r: bool)
    ensures
        r == text::stands_at(name@, "daemon"@, 0),
{
    starts_with(name, "daemon")
}

/// A log that goes into the bundle, by its position, and how many bytes of its
/// end.
#[derive(Debug, Clone, Copy, PartialEq, Eq, Structural)]
pub struct TailRead {
    pub index: usize,
    pub take: u64,
}

pub open spec fn changes(files: Seq<LogEntry>) -> Seq<u128> {
    files.map_values(|f: LogEntry| f.modified_ns)
}

/// What is taken of logs in a row: of each as much as there is room for.
pub open spec fn shares(files: Seq<LogEntry>, chosen: Seq<usize>, room: nat) -> Seq<TailRead>
    decreases chosen.len(),
{
    if chosen.len() == 0 {
        Seq::empty()
    } else {
        let len = files[chosen[0] as int].len as nat;
        let take = if len <= room {
            len
        } else {
            room
        };
        seq![TailRead { index: chosen[0], take: take as u64 }] + shares(
            files,
            chosen.drop_first(),
            (room - take) as nat,
        )
    }
}

/// Whether these are the newest logs, the newest first.
pub open spec fn newest(files: Seq<LogEntry>, max_files: usize, chosen: Seq<usize>) -> bool {
    exists|all: Seq<usize>|
        #![trigger order::in_order(changes(files), true, all)]
        {
            &&& order::in_order(changes(files), true, all)
            &&& all.len() == files.len()
            &&& forall|k: usize| k < files.len() ==> all.contains(k)
            &&& forall|j: int| 0 <= j < all.len() ==> (#[trigger] all[j]) < files.len()
            &&& chosen == all.subrange(
                0,
                if all.len() <= max_files {
                    all.len() as int
                } else {
                    max_files as int
                },
            )
        }
}

/// Plans what a bundle takes of the logs.
pub fn plan_recent_logs(files: &[LogEntry], max_files: usize, max_bytes: u64) -> (r: Vec<TailRead>)
    ensures
        exists|chosen: Seq<usize>|
            #![trigger newest(files@, max_files, chosen)]
            newest(files@, max_files, chosen) && r@ == shares(files@, chosen, max_bytes as nat),
{
    let mut keys: Vec<u128> = Vec::new();
    let mut i: usize = 0;
    while i < files.len()
        invariant
            i <= files@.len(),
            keys@ == changes(files@).subrange(0, i as int),
        decreases files@.len() - i,
    {
        keys.push(files[i].modified_ns);
        assert(changes(files@).subrange(0, i + 1) =~= changes(files@).subrange(0, i as int).push(
            files@[i as int].modified_ns,
        ));
        i = i + 1;
    }
    assert(changes(files@).subrange(0, files@.len() as int) =~= changes(files@));
    let all = order_by(&keys, true);
    let n: usize = if all.len() <= max_files {
        all.len()
    } else {
        max_files
    };
    let ghost chosen = all@.subrange(0, n as int);
    assert(order::in_order(changes(files@), true, all@));
    assert(newest(files@, max_files, chosen));
    let mut r: Vec<TailRead> = Vec::new();
    let mut room: u64 = max_bytes;
    let mut k: usize = 0;
    assert(r@ + shares(files@, chosen, room as nat) =~= shares(files@, chosen, max_bytes as nat));
    assert(chosen.subrange(0, n as int) =~= chosen);
    while k < n
        invariant
            k <= n <= all@.len(),
            chosen == all@.subrange(0, n as int),
            forall|j: int| 0 <= j < all@.len() ==> (#[trigger] all@[j]) < files@.len(),
            r@ + shares(files@, chosen.subrange(k as int, n as int), room as nat) == shares(
                files@,
                chosen,
                max_bytes as nat,
            ),
        decreases n - k,
    {
        let index: usize = all[k];
        let len: u64 = files[index].len;
        let take: u64 = if len <= room {
            len
        } else {
            room
        };
        let ghost before = r@;
        let ghost rest = chosen.subrange(k as int, n as int);
        let read = TailRead { index, take };
        r.push(read);
        proof {
            assert(rest[0] == index);
            assert(rest.drop_first() =~= chosen.subrange(k + 1, n as int));
            let tail = shares(files@, rest.drop_first(), (room - take) as nat);
            assert(shares(files@, rest, room as nat) =~= seq![read] + tail);
            assert(r@ + tail =~= before + (seq![read] + tail));
        }
        room = room - take;
        k = k + 1;
    }
    assert(chosen.subrange(n as int, n as int) =~= Seq::<usize>::empty());
    assert(r@ + shares(files@, Seq::empty(), room as nat) =~= r@);
    r
}

/// The bytes that are taken together.
pub open spec fn taken(reads: Seq<TailRead>) -> nat
    decreases reads.len(),
{
    if reads.len() == 0 {
        0
    } else {
        reads[0].take as nat + taken(reads.drop_first())
    }
}

/// A bundle takes no more bytes than it has room for, and of no log more than
/// it has.
pub proof fn a_bundle_is_bounded(files: Seq<LogEntry>, chosen: Seq<usize>, room: u64)
    ensures
        taken(shares(files, chosen, room as nat)) <= room,
        shares(files, chosen, room as nat).len() == chosen.len(),
        forall|i: int|
            0 <= i < chosen.len() ==> {
                &&& (#[trigger] shares(files, chosen, room as nat)[i]).index == chosen[i]
                &&& shares(files, chosen, room as nat)[i].take <= files[chosen[i] as int].len
            },
    decreases chosen.len(),
{
    if chosen.len() > 0 {
        let len = files[chosen[0] as int].len;
        let take: u64 = if len <= room {
            len
        } else {
            room
        };
        let rest = shares(files, chosen.drop_first(), (room - take) as nat);
        a_bundle_is_bounded(files, chosen.drop_first(), (room - take) as u64);
        let all = shares(files, chosen, room as nat);
        assert(all =~= seq![TailRead { index: chosen[0], take }] + rest);
        assert(all.drop_first() =~= rest);
        assert forall|i: int| 0 <= i < chosen.len() implies {
            &&& (#[trigger] all[i]).index == chosen[i]
            &&& all[i].take <= files[chosen[i] as int].len
        } by {
            if i > 0 {
                assert(all[i] == rest[i - 1]);
                assert(chosen.drop_first()[i - 1] == chosen[i]);
            }
        }
    }
}

/// Tells from where on a log of some length is read, for that many bytes of
/// its end.
pub fn tail_start(len: u64, max_bytes: u64) -> (r: u64)
    ensures
        r == if len >= max_bytes {
            len - max_bytes
        } else {
            0
        },
{
    len.saturating_sub(max_bytes)
}

/// One log in a bundle. Of one that there is no room for, only the name is
/// given.
pub open spec fn section(file: LogEntry, take: u64, content: Seq<char>) -> Seq<char> {
    "--- "@ + file.path@ + " ("@ + text::decimal(file.len as nat) + " bytes) ---\n"@ + if take
        == 0 {
        "(skipped — bundle size cap reached)\n\n"@
    } else {
        content + "\n"@
    }
}

/// The logs of a bundle.
pub open spec fn sections(files: Seq<LogEntry>, reads: Seq<TailRead>, contents: Seq<String>) -> Seq<char>
    decreases reads.len(),
{
    if reads.len() == 0 {
        Seq::empty()
    } else {
        sections(files, reads.drop_last(), contents) + section(
            files[reads.last().index as int],
            reads.last().take,
            contents[reads.len() - 1]@,
        )
    }
}

/// Puts the logs of a bundle together. `contents` holds what was read of each.
pub fn read_recent_logs(files: &[LogEntry], reads: &[TailRead], contents: &[String]) -> (r: String)
    requires
        contents@.len() == reads@.len(),
        forall|i: int| 0 <= i < reads@.len() ==> (#[trigger] reads@[i]).index < files@.len(),
    ensures
        r@ == if reads@.len() == 0 {
            "(no daemon log files found)\n"@
        } else {
            sections(files@, reads@, contents@)
        },
{
    if reads.len() == 0 {
        return String::from_str("(no daemon log files found)\n");
    }
    let mut r = String::new();
    let mut i: usize = 0;
    assert(r@ =~= sections(files@, reads@.subrange(0, 0), contents@));
    while i < reads.len()
        invariant
            i <= reads@.len(),
            contents@.len() == reads@.len(),
            forall|j: int| 0 <= j < reads@.len() ==> (#[trigger] reads@[j]).index < files@.len(),
            r@ == sections(files@, reads@.subrange(0, i as int), contents@),
        decreases reads@.len() - i,
    {
        let read = reads[i];
        let file = &files[read.index];
        let ghost before = r@;
        let mut part = String::from_str("--- ");
        part.append(file.path.as_str());
        part.append(" (");
        part.append(decimal_text(file.len).as_str());
        part.append(" bytes) ---\n");
        if read.take == 0 {
            part.append("(skipped — bundle size cap reached)\n\n");
        } else {
            let mut body = contents[i].clone();
            body.append("\n");
            part.append(body.as_str());
        }
        r.append(part.as_str());
        proof {
            let next = reads@.subrange(0, i + 1);
            assert(next.drop_last() =~= reads@.subrange(0, i as int));
            assert(next.last() == read);
            assert(part@ == section(*file, read.take, contents@[i as int]@));
        }
        i = i + 1;
    }
    assert(reads@.subrange(0, reads@.len() as int) =~= reads@);
    r
}

/// The message under which a bundle is committed.
pub fn commit_message(host: &str, stamp: &str) -> (r: String)
    ensures
        r@ == "logs: snapshot from "@ + host@ + " at "@ + stamp@,
{
    String::from_str("logs: snapshot from ").concat(host).concat(" at ").concat(stamp)
}

/// The bundle of a machine bears its name: letters, digits, hyphens and underscores
/// stay, and all else is a hyphen. A machine without a name is unknown. The system
/// comes last.
pub proof fn a_bundle_bears_the_name_of_its_machine(
    name: &str,
    os: &str,
    r: (String, String),
    i: int,
)
    requires
        call_ensures(host_label, (Some(name), os), r.0),
        call_ensures(host_label, (None::<&str>, os), r.1),
        0 <= i < name@.len(),
    ensures
        r.0@.len() == name@.len() + 1 + os@.len(),
        'a' <= name@[i] <= 'z' || 'A' <= name@[i] <= 'Z' || '0' <= name@[i] <= '9' || name@[i]
            == '-' || name@[i] == '_' ==> r.0@[i] == name@[i],
        !('a' <= name@[i] <= 'z' || 'A' <= name@[i] <= 'Z' || '0' <= name@[i] <= '9' || name@[i]
            == '-' || name@[i] == '_') ==> r.0@[i] == '-',
        r.0@[name@.len() as int] == '-',
        r.0@.subrange((name@.len() + 1) as int, r.0@.len() as int) == os@,
        r.1@ == "unknown-"@ + os@,
{
    reveal_strlit("-");
    reveal_strlit("unknown");
    reveal_strlit("unknown-");
    assert(r.0@.subrange((name@.len() + 1) as int, r.0@.len() as int) =~= os@);
    assert(plain("unknown"@) =~= "unknown"@);
    assert(r.1@ =~= "unknown-"@ + os@);
}

/// A bundle holds the newest logs, as many as it may: no log that is left out is
/// newer than one that is taken, and newer ones come first.
pub proof fn a_bundle_holds_the_newest_logs(
    files: &[LogEntry],
    max_files: usize,
    max_bytes: u64,
    r: Vec<TailRead>,
    i: int,
    left: usize,
)
    requires
        call_ensures(plan_recent_logs, (files, max_files, max_bytes), r),
        0 <= i < r@.len(),
        left < files@.len(),
        forall|j: int| 0 <= j < r@.len() ==> (#[trigger] r@[j]).index != left,
    ensures
        r@.len() == max_files || r@.len() == files@.len(),
        r@.len() <= max_files && r@.len() <= files@.len(),
        r@[i].index < files@.len(),
        files@[r@[i].index as int].modified_ns >= files@[left as int].modified_ns,
        i > 0 ==> files@[r@[i - 1].index as int].modified_ns
            >= files@[r@[i].index as int].modified_ns,
{
    let chosen = choose|chosen: Seq<usize>|
        #![trigger newest(files@, max_files, chosen)]
        newest(files@, max_files, chosen) && r@ == shares(files@, chosen, max_bytes as nat);
    a_bundle_is_bounded(files@, chosen, max_bytes);
    let all = choose|all: Seq<usize>|
        #![trigger order::in_order(changes(files@), true, all)]
        {
            &&& order::in_order(changes(files@), true, all)
            &&& all.len() == files@.len()
            &&& forall|k: usize| k < files@.len() ==> all.contains(k)
            &&& forall|j: int| 0 <= j < all.len() ==> (#[trigger] all[j]) < files@.len()
            &&& chosen == all.subrange(
                0,
                if all.len() <= max_files {
                    all.len() as int
                } else {
                    max_files as int
                },
            )
        };
    assert(all.contains(left));
    let at = choose|at: int| 0 <= at < all.len() && all[at] == left;
    if at < r@.len() {
        assert(r@[at].index == chosen[at]);
        assert(false);
    }
    assert(r@[i].index == chosen[i] == all[i]);
    assert(order::precedes(changes(files@), true, all[i] as int, all[at] as int));
    if i > 0 {
        assert(r@[i - 1].index == chosen[i - 1] == all[i - 1]);
        assert(order::precedes(changes(files@), true, all[i - 1] as int, all[i] as int));
    }
}

/// Of each log the end is read, and of a short one all.
pub proof fn the_end_of_a_log_is_read(len: u64, max_bytes: u64, r: u64)
    requires
        call_ensures(tail_start, (len, max_bytes), r),
    ensures
        r <= len,
        len - r <= max_bytes,
        r > 0 ==> len - r == max_bytes,
{
}

/// A newer log is read before an older one: as long as there is room, a log is
/// read whole, and then the rest of the room is used up.
pub proof fn room_goes_to_the_newest_logs(
    files: Seq<LogEntry>,
    chosen: Seq<usize>,
    room: u64,
    i: int,
)
    requires
        0 <= i < chosen.len(),
        shares(files, chosen, room as nat)[i].take < files[chosen[i] as int].len,
    ensures
        taken(shares(files, chosen, room as nat)) == room,
    decreases chosen.len(),
{
    let len = files[chosen[0] as int].len;
    let take: u64 = if len <= room {
        len
    } else {
        room
    };
    let rest = shares(files, chosen.drop_first(), (room - take) as nat);
    let all = shares(files, chosen, room as nat);
    a_bundle_is_bounded(files, chosen.drop_first(), (room - take) as u64);
    assert(all =~= seq![TailRead { index: chosen[0], take }] + rest);
    assert(all.drop_first() =~= rest);
    if i > 0 {
        assert(all[i] == rest[i - 1]);
        assert(chosen.drop_first()[i - 1] == chosen[i]);
        room_goes_to_the_newest_logs(files, chosen.drop_first(), (room - take) as u64, i - 1);
    }
}

} // verus!
