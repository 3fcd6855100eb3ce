//! How long logs are kept, and how much of them.

use crate::order::{self, order_by};
use crate::text::{self, chars_of, starts_with, text_of};
use vstd::prelude::*;
use vstd::string::*;

verus! {

/// Fourteen days, in nanoseconds.
pub const LOG_RETENTION_NS: u128 = 1_209_600_000_000_000;

/// All logs together take no more than 512 MiB.
pub const LOG_TOTAL_LIMIT_BYTES: u64 = 536_870_912;

/// How many lines wait to be written at most.
pub const LOG_QUEUE_LINES: usize = 8_192;

/// A log on the disk. Its time is that of the last change, in nanoseconds
/// since 1970; zero where it cannot be told.
#[derive(Debug, Clone, Copy, PartialEq, Eq, Structural)]
pub struct LogFile {
    pub modified_ns: u128,
    pub len: u64,
}

/// Tells whether a file is a log of the daemon.
pub fn is_daemon_log(name: &str) -> (r: bool)
    ensures
        r == text::stands_at(name@, "daemon."@, 0),
{
    starts_with(name, "daemon.")
}

/// Whether a log is older than logs are kept.
pub open spec fn too_old(f: LogFile, now_ns: u128) -> bool {
    f.modified_ns + LOG_RETENTION_NS < now_ns
}

/// Tells whether a log is removed for its age.
pub fn expired(f: &LogFile, now_ns: u128) -> (r: bool)
    ensures
        r == too_old(*f, now_ns),
{
    now_ns > LOG_RETENTION_NS && f.modified_ns < now_ns - LOG_RETENTION_NS
}

/// The bytes of logs together.
pub open spec fn size(files: Seq<LogFile>) -> nat
    decreases files.len(),
{
    if files.len() == 0 {
        0
    } else {
        files[0].len as nat + size(files.drop_first())
    }
}

proof fn lemma_size(files: Seq<LogFile>)
    ensures
        size(files) <= files.len() * u64::MAX,
    decreases files.len(),
{
    if files.len() > 0 {
        lemma_size(files.drop_first());
        assert(files.len() * u64::MAX == (files.len() - 1) * u64::MAX + u64::MAX)
            by (nonlinear_arith);
    }
}

/// Removes the oldest logs until the rest is small enough.
pub struct Pruning {
    files: Vec<LogFile>,
    order: Vec<usize>,
    at: usize,
    total: u128,
}

/// What a [`Pruning`] stands for.
pub struct Prune {
    /// The logs that were not tried yet, the oldest first, by their positions.
    pub queue: Seq<usize>,
    /// The bytes that are left.
    pub total: nat,
}

impl View for Pruning {
    type V = Prune;

    closed spec fn view(&self) -> Prune {
        Prune {
            queue: self.order@.subrange(self.at as int, self.order@.len() as int),
            total: self.total as nat,
        }
    }
}

/// The times of logs.
pub open spec fn times(files: Seq<LogFile>) -> Seq<u128> {
    files.map_values(|f: LogFile| f.modified_ns)
}

/// Whether a log is removed next: there is one, and too much is left.
pub open spec fn removes(p: Prune) -> bool {
    p.total > LOG_TOTAL_LIMIT_BYTES && p.queue.len() > 0
}

impl Pruning {
    pub closed spec fn well_formed(self) -> bool {
        &&& self.at <= self.order@.len()
        &&& forall|i: int| 0 <= i < self.order@.len() ==> (#[trigger] self.order@[i]) < self.files@.len()
    }

    /// The logs that it was made for.
    pub closed spec fn files(self) -> Seq<LogFile> {
        self.files@
    }

    /// Starts with the logs that are not too old.
    pub fn new(files: Vec<LogFile>) -> (r: Self)
        ensures
            r.well_formed(),
            r.files() == files@,
            r@.queue.len() == files@.len(),
            order::in_order(times(files@), false, r@.queue),
            forall|k: usize| k < files@.len() ==> r@.queue.contains(k),
            r@.total == size(files@),
    {
        let n: usize = files.len();
        let mut keys: Vec<u128> = Vec::new();
        let mut total: u128 = 0;
        let mut i: usize = n;
        proof {
            lemma_size(files@);
            assert(files@.subrange(n as int, n as int) =~= Seq::<LogFile>::empty());
        }
        while i > 0
            invariant
                n == files@.len(),
                i <= n,
                total == size(files@.subrange(i as int, n as int)),
            decreases i,
        {
            i = i - 1;
            let ghost tail = files@.subrange(i as int, n as int);
            proof {
                assert(tail.drop_first() =~= files@.subrange(i + 1, n as int));
                lemma_size(tail);
                assert(tail.len() * u64::MAX <= u128::MAX) by (nonlinear_arith)
                    requires
                        tail.len() <= usize::MAX,
                        usize::MAX <= u64::MAX,
                ;
            }
            total = total + files[i].len as u128;
        }
        assert(files@.subrange(0, n as int) =~= files@);
        while i < n
            invariant
                n == files@.len(),
                i <= n,
                keys@ == times(files@).subrange(0, i as int),
            decreases n - i,
        {
            keys.push(files[i].modified_ns);
            assert(times(files@).subrange(0, i + 1) =~= times(files@).subrange(0, i as int).push(
                files@[i as int].modified_ns,
            ));
            i = i + 1;
        }
        assert(times(files@).subrange(0, n as int) =~= times(files@));
        let order = order_by(&keys, false);
        let r = Pruning { files, order, at: 0, total };
        assert(r@.queue =~= r.order@);
        r
    }

    /// Tells which log is to be removed, by its position; nothing once the
    /// rest is small enough or every log was tried.
    pub fn next(&self) -> (r: Option<usize>)
        requires
            self.well_formed(),
        ensures
            match r {
                Some(k) => removes(self@) && k == self@.queue[0] && k < self.files().len(),
                None => !removes(self@),
            },
    {
        if self.total > LOG_TOTAL_LIMIT_BYTES as u128 && self.at < self.order.len() {
            Some(self.order[self.at])
        } else {
            None
        }
    }

    /// Takes note of whether the log could be removed. Only one that is gone
    /// makes the rest smaller.
    pub fn tried(&mut self, gone: bool)
        requires
            old(self).well_formed(),
            old(self)@.queue.len() > 0,
        ensures
            final(self).well_formed(),
            final(self).files() == old(self).files(),
            final(self)@.queue == old(self)@.queue.drop_first(),
            final(self)@.total == left_after(
                old(self)@.total,
                old(self).files()[old(self)@.queue[0] as int].len,
                gone,
            ),
    {
        if gone {
            let len: u128 = self.files[self.order[self.at]].len as u128;
            self.total = self.total.saturating_sub(len);
        }
        let n: usize = self.order.len();
        assert(self.at < n);
        self.at = self.at + 1;
        assert(self@.queue =~= old(self)@.queue.drop_first());
    }
}

/// The bytes that are left once a log was tried.
pub open spec fn left_after(total: nat, len: u64, gone: bool) -> nat {
    if !gone {
        total
    } else if total >= len {
        (total - len) as nat
    } else {
        0
    }
}

/// The bytes of the logs in a queue.
pub open spec fn queued(files: Seq<LogFile>, queue: Seq<usize>) -> nat
    decreases queue.len(),
{
    if queue.len() == 0 {
        0
    } else {
        files[queue[0] as int].len as nat + queued(files, queue.drop_first())
    }
}

/// As long as every removal works, what is left is what was not tried.
pub proof fn what_is_left_was_not_tried(files: Seq<LogFile>, p: Prune)
    requires
        p.queue.len() > 0,
        p.total == queued(files, p.queue),
    ensures
        left_after(p.total, files[p.queue[0] as int].len, true) == queued(
            files,
            p.queue.drop_first(),
        ),
{
}

/// Where every removal works, the logs end up within the limit.
pub proof fn pruning_ends_within_the_limit(files: Seq<LogFile>, p: Prune)
    requires
        p.total == queued(files, p.queue),
        !removes(p),
    ensures
        p.total <= LOG_TOTAL_LIMIT_BYTES,
{
}

/// What is written when the daemon breaks down.
pub open spec fn crash_text(
    version: Seq<char>,
    thread: Seq<char>,
    location: Seq<char>,
    message: Seq<char>,
    backtrace: Seq<char>,
) -> Seq<char> {
    "MineShare daemon panic\n"@ + "----------------------\n"@ + "version  : "@ + version + "\n"@
        + "thread   : "@ + thread + "\n"@ + "location : "@ + location + "\n"@ + "message  : "@
        + message + "\n"@ + "\n"@ + backtrace + "\n"@
}

pub fn crash_report(version: &str, thread: &str, location: &str, message: &str, backtrace: &str) -> (r:
    String)
    ensures
        r@ == crash_text(version@, thread@, location@, message@, backtrace@),
{
    let mut r = String::from_str("MineShare daemon panic\n");
    r.append("----------------------\n");
    r.append("version  : ");
    r.append(version);
    r.append("\n");
    r.append("thread   : ");
    r.append(thread);
    r.append("\n");
    r.append("location : ");
    r.append(location);
    r.append("\n");
    r.append("message  : ");
    r.append(message);
    r.append("\n");
    r.append("\n");
    r.append(backtrace);
    r.append("\n");
    r
}

/// A time with hyphens for its colons.
pub open spec fn without_colons(stamp: Seq<char>) -> Seq<char> {
    stamp.map_values(
        |c: char|
            if c == ':' {
                '-'
            } else {
                c
            },
    )
}

/// Names the file of a breakdown after its time.
pub fn crash_file_name(stamp: &str) -> (r: String)
    ensures
        r@ == "crash-"@ + without_colons(stamp@) + ".txt"@,
{
    let chars = chars_of(stamp);
    let mut safe: Vec<char> = Vec::new();
    let mut i: usize = 0;
    while i < chars.len()
        invariant
            i <= chars@.len(),
            safe@ == without_colons(chars@).subrange(0, i as int),
        decreases chars@.len() - i,
    {
        safe.push(
            if chars[i] == ':' {
                '-'
            } else {
                chars[i]
            },
        );
        assert(without_colons(chars@).subrange(0, i + 1) =~= without_colons(chars@).subrange(
            0,
            i as int,
        ).push(without_colons(chars@)[i as int]));
        i = i + 1;
    }
    assert(without_colons(chars@).subrange(0, chars@.len() as int) =~= without_colons(chars@));
    String::from_str("crash-").concat(text_of(&safe).as_str()).concat(".txt")
}

/// A log is removed for its age when it was changed more than fourteen days ago,
/// and not before.
pub proof fn logs_are_kept_for_fourteen_days(f: LogFile, now_ns: u128, r: bool)
    requires
        call_ensures(expired, (&f, now_ns), r),
    ensures
        r <==> now_ns - f.modified_ns > 14 * 24 * 3_600 * 1_000_000_000,
{
}

/// The oldest of the logs goes first, and only while they take more than 512 MiB
/// together.
pub proof fn the_oldest_log_goes_first(
    files: Vec<LogFile>,
    p: Pruning,
    r: Option<usize>,
    other: usize,
)
    requires
        call_ensures(Pruning::new, (files,), p),
        call_ensures(Pruning::next, (&p,), r),
        other < files@.len(),
    ensures
        r is Some <==> size(files@) > 512 * 1_024 * 1_024,
        r matches Some(k) ==> k < files@.len() && files@[k as int].modified_ns
            <= files@[other as int].modified_ns,
{
    assert(p@.queue.contains(other));
    let i = choose|i: int| 0 <= i < p@.queue.len() && p@.queue[i] == other;
    assert(order::in_order(times(files@), false, p@.queue));
    if i > 0 {
        assert(order::precedes(
            times(files@),
            false,
            p@.queue[0] as int,
            p@.queue[i] as int,
        ));
    }
}

/// A log that is gone makes the rest smaller by its length; one that could not be
/// removed does not, and is not tried again.
pub proof fn a_tried_log_is_done_with(p: &mut Pruning, gone: bool)
    requires
        call_ensures(Pruning::tried, (p, gone), ()),
        old(p)@.queue.len() > 0,
        old(p)@.total >= old(p).files()[old(p)@.queue[0] as int].len,
    ensures
        final(p)@.queue == old(p)@.queue.subrange(1, old(p)@.queue.len() as int),
        gone ==> final(p)@.total + old(p).files()[old(p)@.queue[0] as int].len == old(p)@.total,
        !gone ==> final(p)@.total == old(p)@.total,
{
    assert(old(p)@.queue.drop_first() =~= old(p)@.queue.subrange(1, old(p)@.queue.len() as int));
}

/// The file of a breakdown can be written everywhere: its name has no colon, and
/// else it is the time.
pub proof fn a_crash_file_has_no_colon(stamp: &str, r: String, i: int)
    requires
        call_ensures(crash_file_name, (stamp,), r),
        0 <= i < stamp@.len(),
    ensures
        r@.len() == 6 + stamp@.len() + 4,
        stamp@[i] == ':' ==> r@[6 + i] == '-',
        stamp@[i] != ':' ==> r@[6 + i] == stamp@[i],
        r@.subrange(0, 6) == "crash-"@,
        r@.subrange((6 + stamp@.len()) as int, r@.len() as int) == ".txt"@,
{
    reveal_strlit("crash-");
    reveal_strlit(".txt");
    assert(r@.subrange(0, 6) =~= "crash-"@);
    assert(r@.subrange((6 + stamp@.len()) as int, r@.len() as int) =~= ".txt"@);
}

} // verus!
