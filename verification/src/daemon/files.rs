//! Files that go from one machine to the other.
//!
//! A file is offered, sent in chunks and ended with its digest. The receiver
//! writes to a partial file, and gives it its name once the digest is right.

use crate::daemon::control::ControlMsg;
use crate::hash::{self, hash_finalize, hash_new, hash_update, Hasher};
use crate::text::{self, chars_of, copy_optional, decimal_text, part, same_text, text_of};
use crate::bytes::same_bytes;
use vstd::prelude::*;
use vstd::string::*;

verus! {

/// The most that one message carries of a file.
pub const CHUNK_BYTES: usize = 32_768;

#[derive(Debug, Clone, Copy, PartialEq, Eq, Structural)]
pub enum Direction {
    Sending,
    Receiving,
}

#[derive(Debug, Clone, Copy, PartialEq, Eq, Structural)]
pub enum Status {
    /// Offered, and not begun.
    Pending,
    Active,
    /// All has come; the digest is being checked.
    Verifying,
    Done,
    Cancelled,
    Failed,
}

/// Whether a transfer is not over.
pub open spec fn in_flight(s: Status) -> bool {
    s == Status::Pending || s == Status::Active || s == Status::Verifying
}

/// A transfer as it is shown. The path is where a received file has landed;
/// there is none while it has not, and none for a file that is sent.
pub struct TransferSnapshot {
    pub id: u64,
    pub direction: Direction,
    pub status: Status,
    pub name: String,
    pub size_bytes: u64,
    pub bytes_so_far: u64,
    pub final_path: Option<String>,
    pub error: Option<String>,
    pub elapsed_ms: u64,
}

/// What has come of a file: the content of the partial file, and whether each
/// chunk came where the one before had ended.
pub struct Received {
    pub content: Seq<u8>,
    pub in_order: bool,
}

/// The content of a file after bytes were written at an offset. What lies
/// between the end of the file and the offset is zero.
pub open spec fn written_at(content: Seq<u8>, offset: nat, data: Seq<u8>) -> Seq<u8> {
    let end = offset + data.len();
    if data.len() == 0 {
        content
    } else {
        Seq::new(
            if end > content.len() {
                end
            } else {
                content.len()
            },
            |i: int|
                if offset <= i < end {
                    data[i - offset]
                } else if i < content.len() {
                    content[i]
                } else {
                    0
                },
        )
    }
}

/// Whether bytes go to the end of a file.
pub open spec fn follows(content: Seq<u8>, offset: u64, data: Seq<u8>) -> bool {
    data.len() == 0 || (offset == content.len() && offset + data.len() <= u64::MAX)
}

/// What has come of a file once another chunk is written.
pub open spec fn received_after(r: Received, offset: u64, data: Seq<u8>) -> Received {
    Received {
        content: written_at(r.content, offset as nat, data),
        in_order: r.in_order && follows(r.content, offset, data),
    }
}

/// The hash of a file that is received. It follows the chunks as long as they
/// come in order; after that the file has to be read again.
pub struct FileHash {
    sha: Hasher,
    /// How much is hashed.
    len: u64,
    in_order: bool,
    content: Ghost<Seq<u8>>,
}

impl View for FileHash {
    type V = Received;

    closed spec fn view(&self) -> Received {
        Received { content: self.content@, in_order: self.in_order }
    }
}

impl FileHash {
    /// As long as the chunks come in order, the content is hashed.
    #[verifier::type_invariant]
    spec fn keeps_up(self) -> bool {
        self.in_order ==> hash::absorbed(self.sha) == self.content@ && self.len
            == self.content@.len()
    }

    /// The hash of an empty file.
    fn new() -> (r: Self)
        ensures
            r@ == (Received { content: Seq::empty(), in_order: true }),
    {
        FileHash { sha: hash_new(), len: 0, in_order: true, content: Ghost(Seq::empty()) }
    }

    /// The hash once a chunk is written.
    fn with_chunk(self, offset: u64, data: &[u8]) -> (r: Self)
        ensures
            r@ == received_after(self@, offset, data@),
    {
        proof {
            use_type_invariant(&self);
        }
        let ghost content = written_at(self.content@, offset as nat, data@);
        if data.len() == 0 {
            return self;
        }
        let end: Option<u64> = offset.checked_add(data.len() as u64);
        match end {
            Some(end) if self.in_order && offset == self.len => {
                let mut sha = self.sha;
                hash_update(&mut sha, data);
                assert(content =~= self.content@ + data@);
                FileHash { sha, len: end, in_order: true, content: Ghost(content) }
            },
            _ => FileHash {
                sha: self.sha,
                len: self.len,
                in_order: false,
                content: Ghost(content),
            },
        }
    }

    /// The check of the whole file, and whether the file has to be read for it.
    fn into_check(self) -> (r: (FileCheck, bool))
        ensures
            r.1 == !self@.in_order,
            r.0.bytes() == if self@.in_order {
                self@.content
            } else {
                Seq::empty()
            },
    {
        proof {
            use_type_invariant(&self);
        }
        if self.in_order {
            (FileCheck { sha: self.sha }, false)
        } else {
            (FileCheck { sha: hash_new() }, true)
        }
    }
}

/// The hash of a whole file, to be held against its digest.
pub struct FileCheck {
    sha: Hasher,
}

impl FileCheck {
    /// The bytes that are hashed.
    pub closed spec fn bytes(self) -> Seq<u8> {
        hash::absorbed(self.sha)
    }

    /// Takes the next bytes of a file that is read again.
    pub fn feed(&mut self, data: &[u8])
        ensures
            final(self).bytes() == old(self).bytes() + data@,
    {
        hash_update(&mut self.sha, data);
    }
}

struct Transfer {
    id: u64,
    direction: Direction,
    status: Status,
    name: String,
    size_bytes: u64,
    bytes_so_far: u64,
    final_path: Option<String>,
    temp_path: Option<String>,
    /// Whether the partial file is open.
    has_file: bool,
    hash: Option<FileHash>,
    error: Option<String>,
    started_ms: u64,
}

/// What is known of a transfer.
pub struct Entry {
    pub direction: Direction,
    pub status: Status,
    pub name: Seq<char>,
    pub size_bytes: u64,
    pub bytes_so_far: u64,
    /// Where the file comes from, or where it goes.
    pub final_path: Option<Seq<char>>,
    /// The partial file, if there is one.
    pub temp_path: Option<Seq<char>>,
    /// Whether the partial file is open.
    pub has_file: bool,
    /// What has come of a file that is received.
    pub received: Option<Received>,
    pub error: Option<Seq<char>>,
    pub started_ms: u64,
}

impl View for Transfer {
    type V = Entry;

    closed spec fn view(&self) -> Entry {
        Entry {
            direction: self.direction,
            status: self.status,
            name: self.name@,
            size_bytes: self.size_bytes,
            bytes_so_far: self.bytes_so_far,
            final_path: text::optional(self.final_path),
            temp_path: text::optional(self.temp_path),
            has_file: self.has_file,
            received: match self.hash {
                Some(h) => Some(h@),
                None => None,
            },
            error: text::optional(self.error),
            started_ms: self.started_ms,
        }
    }
}

/// All transfers.
pub struct Transfers {
    /// In the order of their numbers.
    items: Vec<Transfer>,
    next_id: u64,
    /// Whether a session can send.
    session: bool,
}

spec fn holds(items: Seq<Transfer>, id: u64) -> bool {
    exists|i: int| 0 <= i < items.len() && (#[trigger] items[i]).id == id
}

spec fn place(items: Seq<Transfer>, id: u64) -> int {
    choose|i: int| 0 <= i < items.len() && (#[trigger] items[i]).id == id
}

spec fn table(items: Seq<Transfer>) -> Map<u64, Entry> {
    Map::new(|id: u64| holds(items, id), |id: u64| items[place(items, id)]@)
}

spec fn ordered(items: Seq<Transfer>) -> bool {
    forall|i: int, j: int|
        0 <= i < j < items.len() ==> (#[trigger] items[i]).id < (#[trigger] items[j]).id
}

impl View for Transfers {
    type V = Map<u64, Entry>;

    closed spec fn view(&self) -> Map<u64, Entry> {
        table(self.items@)
    }
}

proof fn lemma_place(items: Seq<Transfer>, i: int)
    requires
        ordered(items),
        0 <= i < items.len(),
    ensures
        table(items).contains_key(items[i].id),
        table(items)[items[i].id] == items[i]@,
{
    let id = items[i].id;
    assert(holds(items, id));
    let j = place(items, id);
    assert(0 <= j < items.len() && items[j].id == id);
    if i < j {
        assert(items[i].id < items[j].id);
    }
    if j < i {
        assert(items[j].id < items[i].id);
    }
}

proof fn lemma_updated(before: Seq<Transfer>, after: Seq<Transfer>, i: int)
    requires
        ordered(before),
        0 <= i < before.len(),
        after.len() == before.len(),
        after[i].id == before[i].id,
        forall|j: int| 0 <= j < before.len() && j != i ==> (#[trigger] after[j]) == before[j],
    ensures
        ordered(after),
        table(after) == table(before).insert(before[i].id, after[i]@),
{
    assert forall|a: int, b: int| 0 <= a < b < after.len() implies (#[trigger] after[a]).id < (
    #[trigger] after[b]).id by {
        assert(before[a].id < before[b].id);
        assert(after[a].id == before[a].id);
        assert(after[b].id == before[b].id);
    }
    let m = table(after);
    let n = table(before).insert(before[i].id, after[i]@);
    assert forall|id: u64| m.contains_key(id) <==> n.contains_key(id) by {
        if holds(after, id) {
            let j = place(after, id);
            assert(0 <= j < after.len() && after[j].id == id);
            assert(before[j].id == id);
        }
        if holds(before, id) {
            let j = place(before, id);
            assert(0 <= j < before.len() && before[j].id == id);
            assert(after[j].id == id);
        }
        assert(after[i].id == before[i].id);
    }
    assert forall|id: u64| m.contains_key(id) implies m[id] == n[id] by {
        let j = place(after, id);
        assert(0 <= j < after.len() && after[j].id == id);
        lemma_place(after, j);
        if j != i {
            assert(before[j] == after[j]);
            lemma_place(before, j);
            if id == before[i].id {
                if i < j {
                    assert(before[i].id < before[j].id);
                } else {
                    assert(before[j].id < before[i].id);
                }
            }
        }
    }
    assert(m =~= n);
}

proof fn lemma_inserted(before: Seq<Transfer>, i: int, t: Transfer)
    requires
        ordered(before),
        0 <= i <= before.len(),
        forall|j: int| 0 <= j < i ==> (#[trigger] before[j]).id < t.id,
        forall|j: int| i <= j < before.len() ==> (#[trigger] before[j]).id > t.id,
    ensures
        ordered(before.insert(i, t)),
        table(before.insert(i, t)) == table(before).insert(t.id, t@),
        !holds(before, t.id),
{
    let after = before.insert(i, t);
    assert forall|a: int, b: int| 0 <= a < b < after.len() implies (#[trigger] after[a]).id < (
    #[trigger] after[b]).id by {
        let x = if a < i {
            a
        } else {
            a - 1
        };
        let y = if b < i {
            b
        } else {
            b - 1
        };
        if a != i {
            assert(after[a] == before[x]);
        }
        if b != i {
            assert(after[b] == before[y]);
        }
    }
    let m = table(after);
    let n = table(before).insert(t.id, t@);
    assert(after[i] == t);
    assert forall|id: u64| m.contains_key(id) <==> n.contains_key(id) by {
        if holds(after, id) {
            let j = place(after, id);
            assert(0 <= j < after.len() && after[j].id == id);
            if j < i {
                assert(before[j].id == id);
            } else if j > i {
                assert(before[j - 1].id == id);
            }
        }
        if holds(before, id) {
            let j = place(before, id);
            assert(0 <= j < before.len() && before[j].id == id);
            if j < i {
                assert(after[j].id == id);
            } else {
                assert(after[j + 1].id == id);
            }
        }
    }
    assert forall|id: u64| m.contains_key(id) implies m[id] == n[id] by {
        let j = place(after, id);
        assert(0 <= j < after.len() && after[j].id == id);
        lemma_place(after, j);
        if j < i {
            assert(before[j] == after[j]);
            lemma_place(before, j);
        } else if j > i {
            assert(before[j - 1] == after[j]);
            lemma_place(before, j - 1);
        }
    }
    assert(m =~= n);
}

/// The transfers with another entry under a number; a number that is not there
/// changes nothing.
pub open spec fn changed(m: Map<u64, Entry>, id: u64, e: Entry) -> Map<u64, Entry> {
    if m.contains_key(id) {
        m.insert(id, e)
    } else {
        m
    }
}

/// An entry that has failed or was cancelled: the partial file is given up.
pub open spec fn given_up(e: Entry, status: Status, error: Option<Seq<char>>) -> Entry {
    Entry { status, error, temp_path: None, has_file: false, received: None, ..e }
}

/// An entry that has failed. One that was cancelled stays so.
pub open spec fn failed(e: Entry, why: Seq<char>) -> Entry {
    if e.status == Status::Cancelled {
        given_up(e, Status::Cancelled, e.error)
    } else {
        given_up(e, Status::Failed, Some(why))
    }
}

/// The state into which an entry is put. One that was cancelled stays so.
pub open spec fn unless_cancelled(e: Entry, status: Status) -> Status {
    if e.status == Status::Cancelled {
        Status::Cancelled
    } else {
        status
    }
}

pub open spec fn finished(e: Entry) -> Entry {
    Entry {
        status: Status::Done,
        bytes_so_far: e.size_bytes,
        has_file: false,
        received: None,
        ..e
    }
}

/// The entry of a file that is sent.
pub open spec fn outgoing(name: Seq<char>, path: Seq<char>, size_bytes: u64, now_ms: u64) -> Entry {
    Entry {
        direction: Direction::Sending,
        status: Status::Pending,
        name,
        size_bytes,
        bytes_so_far: 0,
        final_path: Some(path),
        temp_path: None,
        has_file: false,
        received: None,
        error: None,
        started_ms: now_ms,
    }
}

/// The entry of a file that is received.
pub open spec fn incoming(
    name: Seq<char>,
    final_path: Seq<char>,
    temp_path: Seq<char>,
    size_bytes: u64,
    now_ms: u64,
) -> Entry {
    Entry {
        direction: Direction::Receiving,
        status: Status::Active,
        name,
        size_bytes,
        bytes_so_far: 0,
        final_path: Some(final_path),
        temp_path: Some(temp_path),
        has_file: true,
        received: Some(Received { content: Seq::empty(), in_order: true }),
        error: None,
        started_ms: now_ms,
    }
}

/// Why a transfer cannot go on.
#[derive(Debug, Clone, Copy, PartialEq, Eq, Structural)]
pub enum TransferError {
    UnknownId,
    NotActive,
    FileGone,
    HashGone,
    NoTempPath,
    NoFinalPath,
    DigestMismatch,
    /// No session can send.
    NoPeer,
    NotAFile,
}

/// An entry once a chunk is written, after what had come before.
pub open spec fn with_chunk(e: Entry, before: Received, offset: u64, data: Seq<u8>) -> Entry {
    Entry {
        has_file: true,
        received: Some(received_after(before, offset, data)),
        bytes_so_far: e.bytes_so_far.saturating_add(data.len() as u64),
        ..e
    }
}

/// A received file whose digest is to be checked.
pub struct Finalizing {
    pub check: FileCheck,
    /// Whether the partial file has to be read into the check, all of it.
    /// The chunks then came out of order. What the disk gives back is not said
    /// here: the check compares the bytes that it is fed.
    pub reread: bool,
    pub temp_path: String,
    pub final_path: String,
}

/// What is wrong when a chunk comes, if anything.
pub open spec fn chunk_error(m: Map<u64, Entry>, id: u64) -> Option<TransferError> {
    if !m.contains_key(id) {
        Some(TransferError::UnknownId)
    } else if m[id].status != Status::Active {
        Some(TransferError::NotActive)
    } else if !m[id].has_file {
        Some(TransferError::FileGone)
    } else if m[id].received is None {
        Some(TransferError::HashGone)
    } else {
        None
    }
}

/// What is wrong when a file ends, if anything.
pub open spec fn end_error(m: Map<u64, Entry>, id: u64) -> Option<TransferError> {
    if !m.contains_key(id) {
        Some(TransferError::UnknownId)
    } else if !m[id].has_file {
        Some(TransferError::FileGone)
    } else if m[id].received is None {
        Some(TransferError::HashGone)
    } else if m[id].temp_path is None {
        Some(TransferError::NoTempPath)
    } else if m[id].final_path is None {
        Some(TransferError::NoFinalPath)
    } else {
        None
    }
}

/// Whether a transfer is off: cancelled, failed or unknown.
pub open spec fn off(m: Map<u64, Entry>, id: u64) -> bool {
    !m.contains_key(id) || m[id].status == Status::Cancelled || m[id].status == Status::Failed
}

/// What the sender of a file does next.
#[derive(Debug, Clone, Copy, PartialEq, Eq, Structural)]
pub enum SendStep {
    /// Tell the peer that the transfer is off, and stop.
    Cancel,
    /// Read from the file.
    Read,
    /// Send the bytes that were read.
    Chunk(usize),
    /// Send the digest; the file is through.
    End,
}

/// Whether a shown transfer is an entry at some time.
pub open spec fn shows(s: TransferSnapshot, e: Entry, now_ms: u64) -> bool {
    &&& s.direction == e.direction
    &&& s.status == e.status
    &&& s.name@ == e.name
    &&& s.size_bytes == e.size_bytes
    &&& s.bytes_so_far == e.bytes_so_far
    &&& text::optional(s.final_path) == if e.direction == Direction::Receiving && e.status
        == Status::Done {
        e.final_path
    } else {
        None
    }
    &&& text::optional(s.error) == e.error
    &&& s.elapsed_ms == crate::arith::elapsed(now_ms, e.started_ms)
}

impl Transfers {
    pub closed spec fn well_formed(self) -> bool {
        ordered(self.items@)
    }

    /// The number of the next file that is sent.
    pub closed spec fn next_number(self) -> u64 {
        self.next_id
    }

    /// Whether a session can send.
    pub closed spec fn can_send(self) -> bool {
        self.session
    }

    /// All but the transfers is as before.
    pub open spec fn keeps(self, before: Transfers) -> bool {
        self.well_formed() && self.next_number() == before.next_number() && self.can_send()
            == before.can_send()
    }

    pub fn new() -> (r: Self)
        ensures
            r.well_formed(),
            r@ == Map::<u64, Entry>::empty(),
            r.next_number() == 1,
            !r.can_send(),
    {
        let r = Transfers { items: Vec::new(), next_id: 1, session: false };
        assert(r@ =~= Map::<u64, Entry>::empty());
        r
    }

    /// A fresh number.
    pub fn next_id(&mut self) -> (r: u64)
        requires
            old(self).well_formed(),
        ensures
            final(self).well_formed(),
            final(self)@ == old(self)@,
            final(self).can_send() == old(self).can_send(),
            r == old(self).next_number(),
            final(self).next_number() == r.wrapping_add(1),
    {
        let id: u64 = self.next_id;
        self.next_id = id.wrapping_add(1);
        id
    }

    fn find(&self, id: u64) -> (r: Option<usize>)
        requires
            self.well_formed(),
        ensures
            match r {
                Some(i) => i < self.items@.len() && self.items@[i as int].id == id
                    && self@.contains_key(id) && self@[id] == self.items@[i as int]@,
                None => !self@.contains_key(id),
            },
    {
        let mut i: usize = 0;
        while i < self.items.len()
            invariant
                i <= self.items@.len(),
                self.well_formed(),
                forall|j: int| 0 <= j < i ==> (#[trigger] self.items@[j]).id != id,
            decreases self.items@.len() - i,
        {
            if self.items[i].id == id {
                proof {
                    lemma_place(self.items@, i as int);
                }
                return Some(i);
            }
            i = i + 1;
        }
        None
    }

    /// Puts an entry under its number.
    fn put(&mut self, t: Transfer)
        requires
            old(self).well_formed(),
        ensures
            final(self).keeps(*old(self)),
            final(self)@ == old(self)@.insert(t.id, t@),
    {
        let ghost before = self.items@;
        let mut i: usize = 0;
        while i < self.items.len() && self.items[i].id < t.id
            invariant
                i <= self.items@.len(),
                self.items@ == before,
                ordered(before),
                forall|j: int| 0 <= j < i ==> (#[trigger] before[j]).id < t.id,
            decreases self.items@.len() - i,
        {
            i = i + 1;
        }
        if i < self.items.len() && self.items[i].id == t.id {
            self.items.set(i, t);
            proof {
                lemma_updated(before, self.items@, i as int);
            }
        } else {
            proof {
                assert forall|j: int| i <= j < before.len() implies (#[trigger] before[j]).id
                    > t.id by {
                    if j > i {
                        assert(before[i as int].id < before[j].id);
                    }
                }
                lemma_inserted(before, i as int, t);
            }
            self.items.insert(i, t);
        }
    }

    /// A file is going to be sent.
    pub fn register_outgoing(
        &mut self,
        id: u64,
        file_name: Option<&str>,
        source_path: &str,
        size_bytes: u64,
        now_ms: u64,
    )
        requires
            old(self).well_formed(),
        ensures
            final(self).keeps(*old(self)),
            final(self)@ == old(self)@.insert(
                id,
                outgoing(
                    match file_name {
                        Some(n) => n@,
                        None => "unnamed"@,
                    },
                    source_path@,
                    size_bytes,
                    now_ms,
                ),
            ),
    {
        let name = match file_name {
            Some(n) => String::from_str(n),
            None => String::from_str("unnamed"),
        };
        self.put(
            Transfer {
                id,
                direction: Direction::Sending,
                status: Status::Pending,
                name,
                size_bytes,
                bytes_so_far: 0,
                final_path: Some(String::from_str(source_path)),
                temp_path: None,
                has_file: false,
                hash: None,
                error: None,
                started_ms: now_ms,
            },
        );
    }

    /// Chunks of a transfer flow from now on.
    pub fn mark_active(&mut self, id: u64)
        requires
            old(self).well_formed(),
        ensures
            final(self).keeps(*old(self)),
            final(self)@ == changed(
                old(self)@,
                id,
                Entry {
                    status: unless_cancelled(old(self)@[id], Status::Active),
                    ..old(self)@[id]
                },
            ),
    {
        let ghost before = self.items@;
        if let Some(i) = self.find(id) {
            let t = &mut self.items[i];
            if t.status != Status::Cancelled {
                t.status = Status::Active;
            }
            proof {
                lemma_updated(before, self.items@, i as int);
            }
        }
    }

    /// More bytes are through.
    pub fn add_progress(&mut self, id: u64, bytes: u64)
        requires
            old(self).well_formed(),
        ensures
            final(self).keeps(*old(self)),
            final(self)@ == changed(
                old(self)@,
                id,
                Entry {
                    bytes_so_far: old(self)@[id].bytes_so_far.saturating_add(bytes),
                    ..old(self)@[id]
                },
            ),
    {
        let ghost before = self.items@;
        if let Some(i) = self.find(id) {
            let t = &mut self.items[i];
            t.bytes_so_far = t.bytes_so_far.saturating_add(bytes);
            proof {
                lemma_updated(before, self.items@, i as int);
            }
        }
    }

    pub fn mark_done(&mut self, id: u64)
        requires
            old(self).well_formed(),
        ensures
            final(self).keeps(*old(self)),
            final(self)@ == changed(old(self)@, id, finished(old(self)@[id])),
    {
        let ghost before = self.items@;
        if let Some(i) = self.find(id) {
            let t = &mut self.items[i];
            t.status = Status::Done;
            t.bytes_so_far = t.size_bytes;
            t.has_file = false;
            t.hash = None;
            proof {
                lemma_updated(before, self.items@, i as int);
            }
        }
    }

    /// A transfer has failed; gives the partial file to remove. One that was
    /// cancelled stays so.
    pub fn mark_failed(&mut self, id: u64, why: String) -> (r: Option<String>)
        requires
            old(self).well_formed(),
        ensures
            final(self).keeps(*old(self)),
            final(self)@ == changed(old(self)@, id, failed(old(self)@[id], why@)),
            text::optional(r) == if old(self)@.contains_key(id) {
                old(self)@[id].temp_path
            } else {
                None
            },
    {
        let ghost before = self.items@;
        match self.find(id) {
            None => None,
            Some(i) => {
                let t = &mut self.items[i];
                if t.status != Status::Cancelled {
                    t.status = Status::Failed;
                    t.error = Some(why);
                }
                let temp = t.temp_path.take();
                t.has_file = false;
                t.hash = None;
                proof {
                    lemma_updated(before, self.items@, i as int);
                }
                temp
            },
        }
    }

    /// A transfer was cancelled; gives the partial file to remove.
    pub fn mark_cancelled(&mut self, id: u64) -> (r: Option<String>)
        requires
            old(self).well_formed(),
        ensures
            final(self).keeps(*old(self)),
            final(self)@ == changed(
                old(self)@,
                id,
                given_up(old(self)@[id], Status::Cancelled, old(self)@[id].error),
            ),
            text::optional(r) == if old(self)@.contains_key(id) {
                old(self)@[id].temp_path
            } else {
                None
            },
    {
        let ghost before = self.items@;
        match self.find(id) {
            None => None,
            Some(i) => {
                let t = &mut self.items[i];
                t.status = Status::Cancelled;
                let temp = t.temp_path.take();
                t.has_file = false;
                t.hash = None;
                proof {
                    lemma_updated(before, self.items@, i as int);
                }
                temp
            },
        }
    }

    /// The user has cancelled a transfer. Its sender sees it before the next
    /// chunk.
    pub fn user_cancel(&mut self, id: u64) -> (r: Option<String>)
        requires
            old(self).well_formed(),
        ensures
            final(self).keeps(*old(self)),
            final(self)@ == changed(
                old(self)@,
                id,
                given_up(old(self)@[id], Status::Cancelled, old(self)@[id].error),
            ),
            text::optional(r) == if old(self)@.contains_key(id) {
                old(self)@[id].temp_path
            } else {
                None
            },
    {
        self.mark_cancelled(id)
    }

    /// Whether a transfer is off: cancelled, failed or unknown.
    pub fn is_cancelled(&self, id: u64) -> (r: bool)
        requires
            self.well_formed(),
        ensures
            r == off(self@, id),
    {
        match self.find(id) {
            None => true,
            Some(i) => {
                let s = self.items[i].status;
                s == Status::Cancelled || s == Status::Failed
            },
        }
    }

    /// Tells what the sender of a file does next: before it reads from the
    /// file, and once it has read some bytes, none at the end of the file.
    pub fn next_send_step(&self, id: u64, read: Option<usize>) -> (r: SendStep)
        requires
            self.well_formed(),
        ensures
            r == if off(self@, id) {
                SendStep::Cancel
            } else {
                match read {
                    None => SendStep::Read,
                    Some(n) => if n == 0 {
                        SendStep::End
                    } else {
                        SendStep::Chunk(n)
                    },
                }
            },
    {
        if self.is_cancelled(id) {
            return SendStep::Cancel;
        }
        match read {
            None => SendStep::Read,
            Some(n) => if n == 0 {
                SendStep::End
            } else {
                SendStep::Chunk(n)
            },
        }
    }

    /// Whether an offer is new. One that came before is left alone.
    pub fn accepts_offer(&self, id: u64) -> (r: bool)
        requires
            self.well_formed(),
        ensures
            r == !self@.contains_key(id),
    {
        self.find(id).is_none()
    }

    /// A file is going to be received: its partial file is open.
    pub fn begin_incoming(
        &mut self,
        id: u64,
        name: &str,
        final_path: &str,
        temp_path: &str,
        size_bytes: u64,
        now_ms: u64,
    )
        requires
            old(self).well_formed(),
        ensures
            final(self).keeps(*old(self)),
            final(self)@ == if old(self)@.contains_key(id) {
                old(self)@
            } else {
                old(self)@.insert(
                    id,
                    incoming(name@, final_path@, temp_path@, size_bytes, now_ms),
                )
            },
    {
        if !self.accepts_offer(id) {
            return ;
        }
        self.put(
            Transfer {
                id,
                direction: Direction::Receiving,
                status: Status::Active,
                name: String::from_str(name),
                size_bytes,
                bytes_so_far: 0,
                final_path: Some(String::from_str(final_path)),
                temp_path: Some(String::from_str(temp_path)),
                has_file: true,
                hash: Some(FileHash::new()),
                error: None,
                started_ms: now_ms,
            },
        );
    }

    /// A chunk has come: takes the file and its hash, which
    /// [`Transfers::chunk_written`] gives back once the chunk is written.
    pub fn take_for_chunk(&mut self, id: u64) -> (r: Result<FileHash, TransferError>)
        requires
            old(self).well_formed(),
        ensures
            final(self).keeps(*old(self)),
            match r {
                Ok(h) => chunk_error(old(self)@, id) is None && old(self)@[id].received == Some(h@)
                    && final(self)@ == old(self)@.insert(
                    id,
                    Entry { has_file: false, received: None, ..old(self)@[id] },
                ),
                Err(e) => chunk_error(old(self)@, id) == Some(e) && final(self)@ == if e
                    == TransferError::HashGone {
                    old(self)@.insert(id, Entry { has_file: false, ..old(self)@[id] })
                } else {
                    old(self)@
                },
            },
    {
        let ghost before = self.items@;
        match self.find(id) {
            None => Err(TransferError::UnknownId),
            Some(i) => {
                if self.items[i].status != Status::Active {
                    return Err(TransferError::NotActive);
                }
                if !self.items[i].has_file {
                    return Err(TransferError::FileGone);
                }
                let t = &mut self.items[i];
                t.has_file = false;
                let hash = t.hash.take();
                proof {
                    lemma_updated(before, self.items@, i as int);
                }
                match hash {
                    None => Err(TransferError::HashGone),
                    Some(h) => Ok(h),
                }
            },
        }
    }

    /// A chunk was written at its offset, wherever that is: it counts as
    /// progress.
    pub fn chunk_written(&mut self, id: u64, hash: FileHash, offset: u64, data: &[u8])
        requires
            old(self).well_formed(),
        ensures
            final(self).keeps(*old(self)),
            final(self)@ == changed(
                old(self)@,
                id,
                with_chunk(old(self)@[id], hash@, offset, data@),
            ),
    {
        let ghost before = self.items@;
        let h = hash.with_chunk(offset, data);
        let len: u64 = data.len() as u64;
        if let Some(i) = self.find(id) {
            let t = &mut self.items[i];
            t.has_file = true;
            t.hash = Some(h);
            t.bytes_so_far = t.bytes_so_far.saturating_add(len);
            proof {
                lemma_updated(before, self.items@, i as int);
            }
        }
    }

    /// A file has ended: takes what is needed to check it. The check holds the
    /// file already, unless the file has to be read again.
    pub fn take_for_end(&mut self, id: u64) -> (r: Result<Finalizing, TransferError>)
        requires
            old(self).well_formed(),
        ensures
            final(self).keeps(*old(self)),
            match r {
                Ok(f) => {
                    &&& end_error(old(self)@, id) is None
                    &&& old(self)@[id].temp_path == Some(f.temp_path@)
                    &&& old(self)@[id].final_path == Some(f.final_path@)
                    &&& old(self)@[id].received matches Some(got) && f.reread == !got.in_order
                        && f.check.bytes() == if got.in_order {
                        got.content
                    } else {
                        Seq::empty()
                    }
                },
                Err(e) => end_error(old(self)@, id) == Some(e),
            },
            final(self)@ == changed(
                old(self)@,
                id,
                Entry {
                    status: unless_cancelled(old(self)@[id], Status::Verifying),
                    has_file: false,
                    received: if old(self)@[id].has_file {
                        None
                    } else {
                        old(self)@[id].received
                    },
                    ..old(self)@[id]
                },
            ),
    {
        let ghost before = self.items@;
        match self.find(id) {
            None => Err(TransferError::UnknownId),
            Some(i) => {
                let temp = copy_optional(&self.items[i].temp_path);
                let dest = copy_optional(&self.items[i].final_path);
                let t = &mut self.items[i];
                if t.status != Status::Cancelled {
                    t.status = Status::Verifying;
                }
                let had_file = t.has_file;
                t.has_file = false;
                let hash = if had_file {
                    t.hash.take()
                } else {
                    None
                };
                proof {
                    lemma_updated(before, self.items@, i as int);
                }
                if !had_file {
                    return Err(TransferError::FileGone);
                }
                match hash {
                    None => Err(TransferError::HashGone),
                    Some(h) => match temp {
                        None => Err(TransferError::NoTempPath),
                        Some(temp_path) => match dest {
                            None => Err(TransferError::NoFinalPath),
                            Some(final_path) => {
                                let (check, reread) = h.into_check();
                                Ok(Finalizing { check, reread, temp_path, final_path })
                            },
                        },
                    },
                }
            },
        }
    }

    /// Checks the digest of a received file. A wrong one fails the transfer.
    pub fn check_digest(&mut self, id: u64, check: FileCheck, expected: [u8; 32]) -> (r: Result<
        (),
        TransferError,
    >)
        requires
            old(self).well_formed(),
        ensures
            final(self).keeps(*old(self)),
            match r {
                Ok(_) => hash::digest_of(check.bytes()) == expected@ && final(self)@ == old(self)@,
                Err(e) => hash::digest_of(check.bytes()) != expected@ && e
                    == TransferError::DigestMismatch && final(self)@ == changed(
                    old(self)@,
                    id,
                    failed(old(self)@[id], "sha256 mismatch"@),
                ),
            },
    {
        let got = hash_finalize(check.sha);
        if same_bytes(&got, &expected) {
            Ok(())
        } else {
            let _ = self.mark_failed(id, String::from_str("sha256 mismatch"));
            Err(TransferError::DigestMismatch)
        }
    }

    /// A session can send from now on.
    pub fn set_session_tx(&mut self)
        requires
            old(self).well_formed(),
        ensures
            final(self).well_formed(),
            final(self).can_send(),
            final(self)@ == old(self)@,
            final(self).next_number() == old(self).next_number(),
    {
        self.session = true;
    }

    /// A file is to be sent: gives its number.
    pub fn start_send(
        &mut self,
        file_name: Option<&str>,
        source_path: &str,
        is_file: bool,
        size_bytes: u64,
        now_ms: u64,
    ) -> (r: Result<u64, TransferError>)
        requires
            old(self).well_formed(),
        ensures
            final(self).well_formed(),
            final(self).can_send() == old(self).can_send(),
            match r {
                Ok(id) => old(self).can_send() && is_file && id == old(self).next_number()
                    && final(self).next_number() == id.wrapping_add(1) && final(self)@ == old(self)@.insert(
                    id,
                    outgoing(
                        match file_name {
                            Some(n) => n@,
                            None => "unnamed"@,
                        },
                        source_path@,
                        size_bytes,
                        now_ms,
                    ),
                ),
                Err(e) => final(self)@ == old(self)@ && final(self).next_number() == old(self).next_number() && e == if !old(self).can_send() {
                    TransferError::NoPeer
                } else {
                    TransferError::NotAFile
                } && !(old(self).can_send() && is_file),
            },
    {
        if !self.session {
            return Err(TransferError::NoPeer);
        }
        if !is_file {
            return Err(TransferError::NotAFile);
        }
        let id: u64 = self.next_id();
        self.register_outgoing(id, file_name, source_path, size_bytes, now_ms);
        Ok(id)
    }

    /// All transfers, the newest first.
    pub fn snapshot(&self, now_ms: u64) -> (r: Vec<TransferSnapshot>)
        requires
            self.well_formed(),
        ensures
            forall|i: int, j: int| 0 <= i < j < r@.len() ==> (#[trigger] r@[i]).id > (
            #[trigger] r@[j]).id,
            forall|i: int|
                0 <= i < r@.len() ==> self@.contains_key((#[trigger] r@[i]).id) && shows(
                    r@[i],
                    self@[r@[i].id],
                    now_ms,
                ),
            forall|id: u64|
                self@.contains_key(id) ==> exists|i: int|
                    0 <= i < r@.len() && (#[trigger] r@[i]).id == id,
    {
        let mut r: Vec<TransferSnapshot> = Vec::new();
        let n: usize = self.items.len();
        let mut k: usize = 0;
        while k < n
            invariant
                k <= n,
                n == self.items@.len(),
                self.well_formed(),
                r@.len() == k,
                forall|i: int|
                    0 <= i < k ==> (#[trigger] r@[i]).id == self.items@[n - 1 - i].id && shows(
                        r@[i],
                        self.items@[n - 1 - i]@,
                        now_ms,
                    ),
            decreases n - k,
        {
            let t = &self.items[n - 1 - k];
            r.push(
                TransferSnapshot {
                    id: t.id,
                    direction: t.direction,
                    status: t.status,
                    name: t.name.clone(),
                    size_bytes: t.size_bytes,
                    bytes_so_far: t.bytes_so_far,
                    final_path: if t.direction == Direction::Receiving && t.status == Status::Done {
                        copy_optional(&t.final_path)
                    } else {
                        None
                    },
                    error: copy_optional(&t.error),
                    elapsed_ms: now_ms.saturating_sub(t.started_ms),
                },
            );
            k = k + 1;
        }
        proof {
            assert forall|i: int, j: int| 0 <= i < j < r@.len() implies (#[trigger] r@[i]).id > (
            #[trigger] r@[j]).id by {
                assert(self.items@[n - 1 - j].id < self.items@[n - 1 - i].id);
            }
            assert forall|i: int| 0 <= i < r@.len() implies self@.contains_key(
                (#[trigger] r@[i]).id,
            ) && shows(r@[i], self@[r@[i].id], now_ms) by {
                lemma_place(self.items@, n - 1 - i);
            }
            assert forall|id: u64| self@.contains_key(id) implies exists|i: int|
                0 <= i < r@.len() && (#[trigger] r@[i]).id == id by {
                let p = place(self.items@, id);
                assert(0 <= p < n && self.items@[p].id == id);
                assert(r@[n - 1 - p].id == id);
            }
        }
        r
    }

    /// The session has ended: what is not over fails. Gives the partial files
    /// to remove.
    pub fn clear_session_tx(&mut self) -> (r: Vec<String>)
        requires
            old(self).well_formed(),
        ensures
            final(self).well_formed(),
            !final(self).can_send(),
            final(self).next_number() == old(self).next_number(),
            final(self)@.dom() == old(self)@.dom(),
            forall|id: u64| #[trigger]
                old(self)@.contains_key(id) ==> final(self)@[id] == ended(old(self)@[id]),
            forall|path: Seq<char>|
                listed(r@, path) <==> exists|id: u64| #[trigger]
                    old(self)@.contains_key(id) && in_flight(old(self)@[id].status)
                        && old(self)@[id].temp_path == Some(path),
    {
        let ghost before = self.items@;
        self.session = false;
        let mut r: Vec<String> = Vec::new();
        let mut k: usize = 0;
        while k < self.items.len()
            invariant
                k <= self.items@.len(),
                self.items@.len() == before.len(),
                ordered(before),
                !self.session,
                self.next_id == old(self).next_id,
                forall|j: int|
                    0 <= j < before.len() ==> (#[trigger] self.items@[j]).id == before[j].id,
                forall|j: int| 0 <= j < k ==> (#[trigger] self.items@[j])@ == ended(before[j]@),
                forall|j: int| k <= j < before.len() ==> (#[trigger] self.items@[j]) == before[j],
                forall|path: Seq<char>| #[trigger]
                    listed(r@, path) <==> exists|j: int|
                        0 <= j < k && in_flight((#[trigger] before[j])@.status)
                            && before[j]@.temp_path == Some(path),
            decreases self.items@.len() - k,
        {
            let ghost r0 = r@;
            let status = self.items[k].status;
            if status == Status::Pending || status == Status::Active || status
                == Status::Verifying {
                let t = &mut self.items[k];
                t.status = Status::Failed;
                t.error = Some(String::from_str("session ended mid-transfer"));
                let temp = t.temp_path.take();
                t.has_file = false;
                t.hash = None;
                if let Some(path) = temp {
                    r.push(path);
                    proof {
                        lemma_listed_pushed(r0, path);
                    }
                }
            }
            assert(before[k as int] == before[k as int]);
            k = k + 1;
        }
        proof {
            assert(ordered(self.items@)) by {
                assert forall|a: int, b: int| 0 <= a < b < self.items@.len() implies (
                #[trigger] self.items@[a]).id < (#[trigger] self.items@[b]).id by {
                    assert(before[a].id < before[b].id);
                }
            }
            assert forall|id: u64| self@.contains_key(id) <==> old(self)@.contains_key(id) by {
                if holds(before, id) {
                    let j = place(before, id);
                    assert(0 <= j < before.len() && before[j].id == id);
                    assert(self.items@[j].id == id);
                }
                if holds(self.items@, id) {
                    let j = place(self.items@, id);
                    assert(0 <= j < before.len() && self.items@[j].id == id);
                    assert(before[j].id == id);
                }
            }
            assert(self@.dom() =~= old(self)@.dom());
            assert forall|id: u64| #[trigger] old(self)@.contains_key(id) implies self@[id]
                == ended(old(self)@[id]) by {
                let j = place(before, id);
                assert(0 <= j < before.len() && before[j].id == id);
                lemma_place(before, j);
                lemma_place(self.items@, j);
                assert(self.items@[j].id == before[j].id);
            }
            assert forall|path: Seq<char>|
                listed(r@, path) <==> exists|id: u64| #[trigger]
                    old(self)@.contains_key(id) && in_flight(old(self)@[id].status)
                        && old(self)@[id].temp_path == Some(path) by {
                if listed(r@, path) {
                    let j = choose|j: int|
                        0 <= j < before.len() && in_flight((#[trigger] before[j])@.status)
                            && before[j]@.temp_path == Some(path);
                    lemma_place(before, j);
                    assert(old(self)@.contains_key(before[j].id));
                }
                if exists|id: u64| #[trigger]
                    old(self)@.contains_key(id) && in_flight(old(self)@[id].status)
                        && old(self)@[id].temp_path == Some(path) {
                    let id = choose|id: u64| #[trigger]
                        old(self)@.contains_key(id) && in_flight(old(self)@[id].status)
                            && old(self)@[id].temp_path == Some(path);
                    let j = place(before, id);
                    assert(0 <= j < before.len() && before[j].id == id);
                    lemma_place(before, j);
                    assert(in_flight(before[j]@.status));
                }
            }
        }
        r
    }
}

/// An entry once the session has ended.
pub open spec fn ended(e: Entry) -> Entry {
    if in_flight(e.status) {
        failed(e, "session ended mid-transfer"@)
    } else {
        e
    }
}

/// Whether a list has a text.
pub open spec fn listed(r: Seq<String>, path: Seq<char>) -> bool {
    exists|i: int| 0 <= i < r.len() && (#[trigger] r[i])@ == path
}

proof fn lemma_listed_pushed(r: Seq<String>, p: String)
    ensures
        forall|path: Seq<char>| #[trigger]
            listed(r.push(p), path) <==> listed(r, path) || path == p@,
{
    assert forall|path: Seq<char>| #[trigger]
        listed(r.push(p), path) <==> listed(r, path) || path == p@ by {
        if listed(r, path) {
            let i = choose|i: int| 0 <= i < r.len() && (#[trigger] r[i])@ == path;
            assert(r.push(p)[i]@ == path);
        }
        assert(r.push(p)[r.len() as int] == p);
        if listed(r.push(p), path) {
            let i = choose|i: int|
                0 <= i < r.push(p).len() && (#[trigger] r.push(p)[i])@ == path;
            if i < r.len() {
                assert(r[i]@ == path);
            }
        }
    }
}

/// A path in which every system separates components by `/` alone: no drive,
/// no server and no device is named.
pub open spec fn plain_path(raw: Seq<char>) -> bool {
    &&& !raw.contains('\\')
    &&& !raw.contains(':')
    &&& !(raw.len() >= 2 && raw[0] == '/' && raw[1] == '/')
}

/// Where the component that ends a text begins: behind the last separator.
pub open spec fn component_start(raw: Seq<char>) -> int
    decreases raw.len(),
{
    if raw.len() == 0 || raw.last() == '/' {
        raw.len() as int
    } else {
        component_start(raw.drop_last())
    }
}

/// A component begins within its text.
pub proof fn lemma_component_start(raw: Seq<char>)
    ensures
        0 <= component_start(raw) <= raw.len(),
    decreases raw.len(),
{
    if raw.len() > 0 && raw.last() != '/' {
        lemma_component_start(raw.drop_last());
    }
}

/// The last name of a path. A separator at the end and the component `.` do
/// not count, and behind `..` there is no name.
pub open spec fn last_name(raw: Seq<char>) -> Option<Seq<char>>
    decreases raw.len(),
{
    proof {
        lemma_component_start(raw);
    }
    let start = component_start(raw);
    let name = raw.subrange(start, raw.len() as int);
    if name.len() > 0 && name != "."@ {
        if name == ".."@ {
            None
        } else {
            Some(name)
        }
    } else if start == 0 {
        None
    } else {
        last_name(raw.subrange(0, start - 1))
    }
}

/// `std::path::Path::file_name` gives the last component of a path, and
/// nothing for a path that ends in `..` or has no name. Nothing is claimed
/// where the systems differ on what separates components.
#[verifier::external_body]
fn path_file_name(raw: &str) -> (r: Option<String>)
    ensures
        plain_path(raw@) ==> text::optional(r) == last_name(raw@),
{
    std::path::Path::new(raw).file_name().and_then(|s| s.to_str()).map(|s| s.to_string())
}

/// Whether a character is a control code.
pub open spec fn is_control(c: char) -> bool {
    c <= '\u{1f}' || '\u{7f}' <= c <= '\u{9f}'
}

/// A character as it may stand in a file name.
pub open spec fn clean_char(c: char) -> char {
    if c == '/' || c == '\\' || (is_control(c) && c != '\n') {
        '_'
    } else {
        c
    }
}

pub open spec fn cleaned(s: Seq<char>) -> Seq<char> {
    s.map_values(|c: char| clean_char(c))
}

/// A name that can be used in a directory: what is no name becomes `unnamed`.
pub open spec fn safe_name(basename: Option<Seq<char>>) -> Seq<char> {
    let c = match basename {
        Some(s) => cleaned(s),
        None => "unnamed"@,
    };
    if c.len() == 0 || c == "."@ || c == ".."@ {
        "unnamed"@
    } else {
        c
    }
}

fn clean(c: char) -> (r: char)
    ensures
        r == clean_char(c),
{
    let control = c <= '\u{1f}' || (c >= '\u{7f}' && c <= '\u{9f}');
    if c == '/' || c == '\\' || (control && c != '\n') {
        '_'
    } else {
        c
    }
}

/// Makes the last component of a path usable as a name.
pub fn clean_name(basename: Option<&str>) -> (r: String)
    ensures
        r@ == safe_name(
            match basename {
                Some(s) => Some(s@),
                None => None,
            },
        ),
{
    let raw = match basename {
        Some(s) => chars_of(s),
        None => {
            proof {
                reveal_strlit("unnamed");
                reveal_strlit(".");
                reveal_strlit("..");
            }
            return String::from_str("unnamed");
        },
    };
    let mut out: Vec<char> = Vec::new();
    let mut i: usize = 0;
    while i < raw.len()
        invariant
            i <= raw@.len(),
            out@ == cleaned(raw@).subrange(0, i as int),
        decreases raw@.len() - i,
    {
        out.push(clean(raw[i]));
        assert(cleaned(raw@).subrange(0, i + 1) =~= cleaned(raw@).subrange(0, i as int).push(
            clean_char(raw@[i as int]),
        ));
        i = i + 1;
    }
    assert(cleaned(raw@).subrange(0, raw@.len() as int) =~= cleaned(raw@));
    let name = text_of(&out);
    if out.len() == 0 || same_text(name.as_str(), ".") || same_text(name.as_str(), "..") {
        return String::from_str("unnamed");
    }
    name
}

/// Whether a name stays in its directory: it has no separator, and is neither
/// empty nor the directory or its parent.
pub open spec fn stays_inside(name: Seq<char>) -> bool {
    &&& name.len() > 0
    &&& !name.contains('/')
    &&& !name.contains('\\')
    &&& !name.contains('\0')
    &&& name != "."@
    &&& name != ".."@
}

/// Whatever name the peer gives, the file stays in its directory.
pub proof fn safe_names_stay_inside(basename: Option<Seq<char>>)
    ensures
        stays_inside(safe_name(basename)),
{
    reveal_strlit("unnamed");
    reveal_strlit(".");
    reveal_strlit("..");
    let name = safe_name(basename);
    if let Some(s) = basename {
        let c = cleaned(s);
        assert forall|k: int| 0 <= k < c.len() implies c[k] != '/' && c[k] != '\\' && c[k]
            != '\0' by {
            assert(c[k] == clean_char(s[k]));
        }
    }
    assert("unnamed"@.len() == 7);
    assert forall|k: int| 0 <= k < "unnamed"@.len() implies "unnamed"@[k] != '/' && "unnamed"@[k]
        != '\\' && "unnamed"@[k] != '\0' by {}
}

/// Makes a name that the peer gives usable in the download directory. Of a
/// path that is not plain, which part is kept depends on what separates
/// components on this system.
pub fn sanitize_name(raw: &str) -> (r: String)
    ensures
        stays_inside(r@),
        plain_path(raw@) ==> r@ == safe_name(last_name(raw@)),
        exists|basename: Option<Seq<char>>| r@ == #[trigger] safe_name(basename),
{
    let base = path_file_name(raw);
    let r = match &base {
        Some(s) => clean_name(Some(s.as_str())),
        None => clean_name(None),
    };
    proof {
        safe_names_stay_inside(text::optional(base));
    }
    r
}

/// The position of the last dot that begins an extension: not one in front.
pub open spec fn extension_dot(s: Seq<char>, end: int) -> Option<int>
    decreases end,
{
    if end <= 1 || end > s.len() {
        None
    } else if s[end - 1] == '.' {
        Some(end - 1)
    } else {
        extension_dot(s, end - 1)
    }
}

/// A name without its extension.
pub open spec fn stem(name: Seq<char>) -> Seq<char> {
    match extension_dot(name, name.len() as int) {
        Some(i) => name.subrange(0, i),
        None => name,
    }
}

/// The extension of a name, with its dot.
pub open spec fn extension(name: Seq<char>) -> Seq<char> {
    match extension_dot(name, name.len() as int) {
        Some(i) => name.subrange(i, name.len() as int),
        None => Seq::empty(),
    }
}

/// The names that are tried for a file, in turn: its own, its own with a
/// number, and with the time at last.
pub open spec fn candidate(name: Seq<char>, n: nat, stamp: u64) -> Seq<char> {
    if n == 0 {
        name
    } else if n <= 999 {
        stem(name) + " ("@ + text::decimal(n) + ")"@ + extension(name)
    } else {
        stem(name) + "-"@ + text::decimal(stamp as nat) + extension(name)
    }
}

/// The search for a name that no file has yet.
pub struct DestinationSearch {
    name: String,
    tried: u32,
    stamp: u64,
}

impl DestinationSearch {
    pub closed spec fn base(self) -> Seq<char> {
        self.name@
    }

    /// How many names were found taken.
    pub closed spec fn rejected(self) -> nat {
        self.tried as nat
    }

    pub closed spec fn stamp(self) -> u64 {
        self.stamp
    }

    /// Starts with the name itself; `stamp` is the time in seconds.
    pub fn new(name: &str, stamp: u64) -> (r: Self)
        ensures
            r.base() == name@,
            r.rejected() == 0,
            r.stamp() == stamp,
    {
        DestinationSearch { name: String::from_str(name), tried: 0, stamp }
    }

    /// The name to try.
    pub fn current(&self) -> (r: String)
        ensures
            r@ == candidate(self.base(), self.rejected(), self.stamp()),
    {
        if self.tried == 0 {
            return self.name.clone();
        }
        let chars = chars_of(self.name.as_str());
        let mut end: usize = chars.len();
        while end > 1 && chars[end - 1] != '.'
            invariant
                end <= chars@.len(),
                extension_dot(chars@, chars@.len() as int) == extension_dot(chars@, end as int),
            decreases end,
        {
            end = end - 1;
        }
        let cut: usize = if end > 1 {
            end - 1
        } else {
            chars.len()
        };
        let stem_text = text_of(&part(&chars, 0, cut));
        let ext_text = text_of(&part(&chars, cut, chars.len()));
        proof {
            assert(chars@.subrange(0, chars@.len() as int) =~= chars@);
            assert(chars@.subrange(chars@.len() as int, chars@.len() as int)
                =~= Seq::<char>::empty());
            assert(stem_text@ == stem(self.base()));
            assert(ext_text@ == extension(self.base()));
        }
        if self.tried <= 999 {
            stem_text.concat(" (").concat(decimal_text(self.tried as u64).as_str()).concat(
                ")",
            ).concat(ext_text.as_str())
        } else {
            stem_text.concat("-").concat(decimal_text(self.stamp).as_str()).concat(
                ext_text.as_str(),
            )
        }
    }

    /// The name is taken: goes on to the next. Tells whether that one has to be
    /// tried too; the last one is used as it is.
    pub fn reject(&mut self) -> (try_next: bool)
        ensures
            final(self).base() == old(self).base(),
            final(self).stamp() == old(self).stamp(),
            old(self).rejected() <= 999 ==> final(self).rejected() == old(self).rejected() + 1,
            old(self).rejected() > 999 ==> final(self).rejected() == old(self).rejected(),
            try_next == (final(self).rejected() <= 999),
    {
        if self.tried <= 999 {
            self.tried = self.tried + 1;
        }
        self.tried <= 999
    }
}

/// The name of the partial file of a file.
pub fn partial_name(name: &str) -> (r: String)
    ensures
        r@ == "."@ + name@ + ".partial"@,
{
    String::from_str(".").concat(name).concat(".partial")
}

/// A file on its way to the peer.
pub struct SendingFile {
    id: u64,
    offset: u64,
    sha: Hasher,
}

impl SendingFile {
    pub closed spec fn id(self) -> u64 {
        self.id
    }

    /// What was sent of the file.
    pub closed spec fn sent(self) -> Seq<u8> {
        hash::absorbed(self.sha)
    }

    pub closed spec fn well_formed(self) -> bool {
        self.offset == hash::absorbed(self.sha).len()
    }

    pub fn new(id: u64) -> (r: Self)
        ensures
            r.well_formed(),
            r.id() == id,
            r.sent() == Seq::<u8>::empty(),
    {
        SendingFile { id, offset: 0, sha: hash_new() }
    }

    /// The offer that comes first.
    pub fn offer(&self, file_name: Option<&str>, size_bytes: u64) -> (r: ControlMsg)
        ensures
            r matches ControlMsg::FileOffer { id, name, size_bytes: s } && id == self.id() && s
                == size_bytes && name@ == match file_name {
                Some(n) => n@,
                None => "unnamed"@,
            },
    {
        let name = match file_name {
            Some(n) => String::from_str(n),
            None => String::from_str("unnamed"),
        };
        ControlMsg::FileOffer { id: self.id, name, size_bytes }
    }

    /// The message for the next bytes of the file.
    pub fn chunk(&mut self, data: Vec<u8>) -> (r: ControlMsg)
        requires
            old(self).well_formed(),
            old(self).sent().len() + data@.len() <= u64::MAX,
        ensures
            final(self).well_formed(),
            final(self).id() == old(self).id(),
            final(self).sent() == old(self).sent() + data@,
            r matches ControlMsg::FileChunk { id, offset, data: d } && id == old(self).id()
                && offset == old(self).sent().len() && d@ == data@,
    {
        let offset: u64 = self.offset;
        hash_update(&mut self.sha, &data);
        self.offset = offset + data.len() as u64;
        ControlMsg::FileChunk { id: self.id, offset, data }
    }

    /// The message that the transfer is off.
    pub fn cancel(&self) -> (r: ControlMsg)
        ensures
            r == (ControlMsg::FileCancel { id: self.id() }),
    {
        ControlMsg::FileCancel { id: self.id }
    }

    /// The message that ends the file.
    pub fn end(self) -> (r: ControlMsg)
        ensures
            r matches ControlMsg::FileEnd { id, sha256 } && id == self.id() && sha256@
                == hash::digest_of(self.sent()),
    {
        ControlMsg::FileEnd { id: self.id, sha256: hash_finalize(self.sha) }
    }
}

/// A chunk of a file: where it goes, and its bytes.
pub struct Piece {
    pub offset: u64,
    pub data: Seq<u8>,
}

/// The entry after chunks were written, in the order in which they came.
pub open spec fn after_pieces(e: Entry, pieces: Seq<Piece>) -> Entry
    decreases pieces.len(),
{
    if pieces.len() == 0 {
        e
    } else {
        let before = after_pieces(e, pieces.drop_last());
        with_chunk(before, before.received->0, pieces.last().offset, pieces.last().data)
    }
}

/// The chunks that a sender makes of a file: each begins where the one before
/// has ended.
pub open spec fn sent_as(pieces: Seq<Piece>, file: Seq<u8>) -> bool
    decreases pieces.len(),
{
    if pieces.len() == 0 {
        file.len() == 0
    } else {
        let last = pieces.last();
        &&& last.offset + last.data.len() == file.len()
        &&& last.data == file.subrange(last.offset as int, file.len() as int)
        &&& sent_as(pieces.drop_last(), file.subrange(0, last.offset as int))
    }
}

/// A file whose chunks come in order passes its check: what the receiver has
/// hashed is what the sender has hashed. It also counts every byte.
pub proof fn an_unchanged_file_passes_its_check(
    name: Seq<char>,
    path: Seq<char>,
    temp: Seq<char>,
    size: u64,
    now_ms: u64,
    pieces: Seq<Piece>,
    file: Seq<u8>,
)
    requires
        file.len() <= u64::MAX,
        sent_as(pieces, file),
    ensures
        ({
            let e = after_pieces(incoming(name, path, temp, size, now_ms), pieces);
            &&& e.status == Status::Active
            &&& e.has_file
            &&& e.temp_path == Some(temp)
            &&& e.final_path == Some(path)
            &&& e.received == Some(Received { content: file, in_order: true })
            &&& e.bytes_so_far == file.len()
        }),
    decreases pieces.len(),
{
    if pieces.len() == 0 {
        assert(file =~= Seq::<u8>::empty());
    } else {
        let last = pieces.last();
        let head = file.subrange(0, last.offset as int);
        an_unchanged_file_passes_its_check(
            name,
            path,
            temp,
            size,
            now_ms,
            pieces.drop_last(),
            head,
        );
        assert(written_at(head, last.offset as nat, last.data) =~= file);
    }
}

/// Whether a chunk is a part of a file.
pub open spec fn part_of(p: Piece, file: Seq<u8>) -> bool {
    p.offset + p.data.len() <= file.len() && p.data == file.subrange(
        p.offset as int,
        p.offset + p.data.len(),
    )
}

/// Whether one of the chunks holds a position.
pub open spec fn covered(pieces: Seq<Piece>, i: int) -> bool {
    exists|k: int|
        0 <= k < pieces.len() && (#[trigger] pieces[k]).offset <= i < pieces[k].offset
            + pieces[k].data.len()
}

/// Chunks may come in any order, and more than once: when together they hold
/// the whole file, the partial file is the file that was sent.
pub proof fn chunks_in_any_order_make_the_file(
    name: Seq<char>,
    path: Seq<char>,
    temp: Seq<char>,
    size: u64,
    now_ms: u64,
    pieces: Seq<Piece>,
    file: Seq<u8>,
)
    requires
        forall|k: int| 0 <= k < pieces.len() ==> part_of(#[trigger] pieces[k], file),
        forall|i: int| 0 <= i < file.len() ==> covered(pieces, i),
    ensures
        ({
            let e = after_pieces(incoming(name, path, temp, size, now_ms), pieces);
            e.received matches Some(got) && got.content == file
        }),
{
    lemma_pieces(incoming(name, path, temp, size, now_ms), pieces, file);
    let content = after_pieces(incoming(name, path, temp, size, now_ms), pieces).received->0.content;
    if file.len() > 0 {
        assert(covered(pieces, file.len() - 1));
    }
    assert(content =~= file);
}

proof fn lemma_pieces(e: Entry, pieces: Seq<Piece>, file: Seq<u8>)
    requires
        e.received == Some(Received { content: Seq::empty(), in_order: true }),
        forall|k: int| 0 <= k < pieces.len() ==> part_of(#[trigger] pieces[k], file),
    ensures
        ({
            let after = after_pieces(e, pieces);
            let content = after.received->0.content;
            &&& after.received is Some
            &&& content.len() <= file.len()
            &&& forall|i: int|
                covered(pieces, i) ==> 0 <= i < content.len() && content[i] == file[i]
        }),
    decreases pieces.len(),
{
    if pieces.len() > 0 {
        let rest = pieces.drop_last();
        let last = pieces.last();
        assert(part_of(pieces[pieces.len() - 1], file));
        assert forall|k: int| 0 <= k < rest.len() implies part_of(#[trigger] rest[k], file) by {
            assert(rest[k] == pieces[k]);
        }
        lemma_pieces(e, rest, file);
        let before = after_pieces(e, rest).received->0.content;
        let content = after_pieces(e, pieces).received->0.content;
        assert(content == written_at(before, last.offset as nat, last.data));
        assert forall|i: int| covered(pieces, i) implies 0 <= i < content.len() && content[i]
            == file[i] by {
            if last.offset <= i < last.offset + last.data.len() {
                assert(last.data[i - last.offset] == file[i]);
            } else {
                let k = choose|k: int|
                    0 <= k < pieces.len() && (#[trigger] pieces[k]).offset <= i < pieces[k].offset
                        + pieces[k].data.len();
                assert(rest[k] == pieces[k]);
                assert(covered(rest, i));
            }
        }
    }
}

/// A transfer that was cancelled stays off: its sender sends no more of it, no
/// chunk is taken, and neither a start, a failure nor the end of the file or of
/// the session makes it anything else.
pub proof fn cancelled_transfers_stay_cancelled(m: Map<u64, Entry>, id: u64, why: Seq<char>)
    requires
        m.contains_key(id),
    ensures
        ({
            let after = changed(m, id, given_up(m[id], Status::Cancelled, m[id].error));
            &&& after[id].status == Status::Cancelled
            &&& off(after, id)
            &&& chunk_error(after, id) == Some(TransferError::NotActive)
            &&& end_error(after, id) == Some(TransferError::FileGone)
            &&& unless_cancelled(after[id], Status::Active) == Status::Cancelled
            &&& unless_cancelled(after[id], Status::Verifying) == Status::Cancelled
            &&& failed(after[id], why) == after[id]
            &&& ended(after[id]) == after[id]
            &&& after[id].temp_path is None
        }),
{
}

proof fn lemma_no_separator(raw: Seq<char>, from: int)
    requires
        0 <= from <= raw.len(),
        from == 0 || raw[from - 1] == '/',
        forall|i: int| from <= i < raw.len() ==> #[trigger] raw[i] != '/',
    ensures
        component_start(raw) == from,
    decreases raw.len(),
{
    if from < raw.len() {
        assert(raw[raw.len() - 1] != '/');
        lemma_no_separator(raw.drop_last(), from);
    }
}

/// The name of a file is kept: one without separators and control codes, which
/// is neither empty nor the directory or its parent, is used as the peer gives it,
/// whatever directory the peer names in front of it.
pub proof fn a_harmless_name_is_kept(dir: Seq<char>, name: Seq<char>, raw: &str, r: String)
    requires
        call_ensures(sanitize_name, (raw,), r),
        raw@ == name || raw@ == dir.push('/') + name,
        plain_path(raw@),
        name.len() > 0,
        !(name.len() == 1 && name[0] == '.'),
        !(name.len() == 2 && name[0] == '.' && name[1] == '.'),
        forall|i: int|
            0 <= i < name.len() ==> {
                let c = #[trigger] name[i];
                c != '/' && c != '\\' && (c == '\n' || (c >= ' ' && !('\u{7f}' <= c <= '\u{9f}')))
            },
    ensures
        r@ == name,
{
    reveal_strlit("unnamed");
    reveal_strlit(".");
    reveal_strlit("..");
    let from = raw@.len() - name.len();
    if raw@ != name {
        assert forall|i: int| from <= i < raw@.len() implies #[trigger] raw@[i] != '/' by {
            assert(raw@[i] == name[i - from]);
        }
        assert(raw@[from - 1] == '/');
    }
    lemma_no_separator(raw@, from);
    assert(raw@.subrange(from, raw@.len() as int) =~= name);
    assert(last_name(raw@) == Some(name));
    assert forall|i: int| 0 <= i < name.len() implies cleaned(name)[i] == name[i] by {
        assert(cleaned(name)[i] == clean_char(name[i]));
    }
    assert(cleaned(name) =~= name);
}

/// Cleaning a name changes nothing but separators and control codes, each of
/// which becomes an underscore; a line feed stays. What is then no name is called
/// `unnamed`.
pub proof fn only_harmful_characters_are_replaced(name: &str, r: String)
    requires
        call_ensures(clean_name, (Some(name),), r),
        name@.len() > 2,
    ensures
        r@.len() == name@.len(),
        forall|i: int|
            0 <= i < name@.len() ==> {
                let c = name@[i];
                #[trigger] r@[i] == if c == '/' || c == '\\' || (c < ' ' && c != '\n')
                    || '\u{7f}' <= c <= '\u{9f}' {
                    '_'
                } else {
                    c
                }
            },
{
    reveal_strlit(".");
    reveal_strlit("..");
    assert(cleaned(name@).len() == name@.len());
    assert(r@ == cleaned(name@));
    assert forall|i: int| 0 <= i < name@.len() implies #[trigger] r@[i] == clean_char(
        name@[i],
    ) by {}
}

/// Cleaning twice is cleaning once.
pub proof fn a_clean_name_stays(name: Option<&str>, again: &str, r: (String, String))
    requires
        call_ensures(clean_name, (name,), r.0),
        again@ == r.0@,
        call_ensures(clean_name, (Some(again),), r.1),
    ensures
        r.1@ == r.0@,
{
    reveal_strlit("unnamed");
    reveal_strlit(".");
    reveal_strlit("..");
    assert(cleaned("unnamed"@) =~= "unnamed"@);
    if let Some(s) = name {
        assert(cleaned(cleaned(s@)) =~= cleaned(s@));
    }
}

/// The first name that is tried for a file is its own. The others keep its
/// beginning and its extension, and put a number in round brackets, or the time,
/// between the two.
pub proof fn tried_names_keep_beginning_and_extension(
    name: &str,
    stamp: u64,
    d: DestinationSearch,
    first: String,
    later: DestinationSearch,
    other: String,
    dot: int,
)
    requires
        call_ensures(DestinationSearch::new, (name, stamp), d),
        call_ensures(DestinationSearch::current, (&d,), first),
        later.base() == d.base(),
        later.stamp() == d.stamp(),
        later.rejected() > 0,
        call_ensures(DestinationSearch::current, (&later,), other),
        0 < dot < name@.len(),
        name@[dot] == '.',
        forall|i: int| dot < i < name@.len() ==> #[trigger] name@[i] != '.',
    ensures
        first@ == name@,
        name@.subrange(0, dot).is_prefix_of(other@),
        other@.len() > name@.len(),
        other@.subrange(other@.len() - (name@.len() - dot), other@.len() as int)
            == name@.subrange(dot, name@.len() as int),
        later.rejected() <= 999 ==> other@ == name@.subrange(0, dot) + " ("@ + text::decimal(
            later.rejected(),
        ) + ")"@ + name@.subrange(dot, name@.len() as int),
{
    reveal_strlit(" (");
    reveal_strlit(")");
    reveal_strlit("-");
    lemma_extension_dot(name@, name@.len() as int, dot);
    let tail = name@.subrange(dot, name@.len() as int);
    assert(other@.subrange(other@.len() - (name@.len() - dot), other@.len() as int) =~= tail);
    assert(name@.subrange(0, dot) =~= other@.subrange(0, dot));
}

proof fn lemma_extension_dot(s: Seq<char>, end: int, dot: int)
    requires
        0 < dot < end <= s.len(),
        s[dot] == '.',
        forall|i: int| dot < i < end ==> #[trigger] s[i] != '.',
    ensures
        extension_dot(s, end) == Some(dot),
    decreases end,
{
    if end - 1 != dot {
        assert(s[end - 1] != '.');
        lemma_extension_dot(s, end - 1, dot);
    }
}

/// A file is sent from its beginning to its end without gaps: each chunk carries
/// the bytes that were read and stands where the one before has ended, all of
/// them under the number of the transfer, and the digest at the end is that of all
/// the bytes together.
pub proof fn a_file_is_sent_without_gaps(
    id: u64,
    f: (SendingFile, &mut SendingFile, &mut SendingFile),
    data: (Vec<u8>, Vec<u8>),
    r: (ControlMsg, ControlMsg, ControlMsg),
)
    requires
        call_ensures(SendingFile::new, (id,), f.0),
        *old(f.1) == f.0,
        call_ensures(SendingFile::chunk, (f.1, data.0), r.0),
        *old(f.2) == *final(f.1),
        call_ensures(SendingFile::chunk, (f.2, data.1), r.1),
        call_ensures(SendingFile::end, (*final(f.2),), r.2),
    ensures
        r.0 matches ControlMsg::FileChunk { id: i, offset, data: d } && i == id && offset == 0
            && d@ == data.0@,
        r.1 matches ControlMsg::FileChunk { id: i, offset, data: d } && i == id && offset
            == data.0@.len() && d@ == data.1@,
        r.2 matches ControlMsg::FileEnd { id: i, sha256 } && i == id && sha256@ == hash::digest_of(
            data.0@ + data.1@,
        ),
{
    assert(Seq::<u8>::empty() + data.0@ =~= data.0@);
}

/// A received file is accepted exactly when its digest is the one that the
/// sender gave; else the transfer has failed.
pub proof fn only_a_right_digest_is_accepted(
    t: &mut Transfers,
    id: u64,
    check: FileCheck,
    expected: [u8; 32],
    r: Result<(), TransferError>,
)
    requires
        call_ensures(Transfers::check_digest, (t, id, check, expected), r),
    ensures
        r is Ok <==> hash::digest_of(check.bytes()) == expected@,
        r is Ok ==> final(t)@ == old(t)@,
        r is Err && old(t)@.contains_key(id) && old(t)@[id].status != Status::Cancelled ==> final(t)@[id].status == Status::Failed && final(t)@[id].error is Some,
{
}

/// Bytes that are read again are checked in the order in which they are fed.
pub proof fn reread_bytes_are_checked_in_order(
    c: (&mut FileCheck, &mut FileCheck),
    a: &[u8],
    b: &[u8],
)
    requires
        call_ensures(FileCheck::feed, (c.0, a), ()),
        *old(c.1) == *final(c.0),
        call_ensures(FileCheck::feed, (c.1, b), ()),
    ensures
        final(c.1).bytes() == old(c.0).bytes() + a@ + b@,
{
}

/// Two chunks in order, then the end: the file that is checked is made of both,
/// and the directory entry that it gets is the one that was chosen for it.
pub proof fn chunks_in_order_are_checked_as_one_file(
    t: (&mut Transfers, &mut Transfers, &mut Transfers, &mut Transfers, &mut Transfers, &mut Transfers),
    id: u64,
    name: &str,
    final_path: &str,
    temp_path: &str,
    size: u64,
    now_ms: u64,
    a: &[u8],
    b: &[u8],
    h: (FileHash, FileHash),
    f: Finalizing,
)
    requires
        !old(t.0)@.contains_key(id),
        call_ensures(
            Transfers::begin_incoming,
            (t.0, id, name, final_path, temp_path, size, now_ms),
            (),
        ),
        *old(t.1) == *final(t.0),
        call_ensures(Transfers::take_for_chunk, (t.1, id), Ok::<FileHash, TransferError>(h.0)),
        *old(t.2) == *final(t.1),
        call_ensures(Transfers::chunk_written, (t.2, id, h.0, 0u64, a), ()),
        *old(t.3) == *final(t.2),
        call_ensures(Transfers::take_for_chunk, (t.3, id), Ok::<FileHash, TransferError>(h.1)),
        *old(t.4) == *final(t.3),
        call_ensures(Transfers::chunk_written, (t.4, id, h.1, a@.len() as u64, b), ()),
        *old(t.5) == *final(t.4),
        call_ensures(Transfers::take_for_end, (t.5, id), Ok::<Finalizing, TransferError>(f)),
        a@.len() + b@.len() <= u64::MAX,
    ensures
        !f.reread,
        f.check.bytes() == a@ + b@,
        f.temp_path@ == temp_path@,
        f.final_path@ == final_path@,
        final(t.5)@[id].bytes_so_far == a@.len() + b@.len(),
        final(t.5)@[id].status == Status::Verifying,
{
    let none = Seq::<u8>::empty();
    assert(written_at(none, 0, a@) =~= a@);
    assert(written_at(a@, a@.len() as nat, b@) =~= a@ + b@);
}

/// A chunk is taken for every transfer that is under way, and for none that is
/// unknown or no longer under way.
pub proof fn chunks_are_taken_while_a_transfer_is_active(
    t: &mut Transfers,
    id: u64,
    r: Result<FileHash, TransferError>,
)
    requires
        call_ensures(Transfers::take_for_chunk, (t, id), r),
    ensures
        !old(t)@.contains_key(id) ==> (r matches Err(e) && e
            == TransferError::UnknownId),
        old(t)@.contains_key(id) && old(t)@[id].status != Status::Active ==> (r matches Err(e)
            && e == TransferError::NotActive),
        old(t)@.contains_key(id) && old(t)@[id].status == Status::Active && old(t)@[id].has_file
            && old(t)@[id].received is Some ==> r is Ok,
{
}

/// A file can be sent exactly where a session is up and there is a file. Each has
/// a number of its own, waits at first, and has the name and the size of the file.
pub proof fn sending_starts_with_a_session_and_a_file(
    t: (&mut Transfers, &mut Transfers),
    name: Option<&str>,
    path: &str,
    is_file: bool,
    size: u64,
    now_ms: u64,
    r: (Result<u64, TransferError>, Result<u64, TransferError>),
)
    requires
        call_ensures(Transfers::start_send, (t.0, name, path, is_file, size, now_ms), r.0),
        *old(t.1) == *final(t.0),
        call_ensures(Transfers::start_send, (t.1, name, path, is_file, size, now_ms), r.1),
    ensures
        r.0 is Ok <==> old(t.0).can_send() && is_file,
        !old(t.0).can_send() ==> r.0 == Err::<u64, TransferError>(TransferError::NoPeer),
        old(t.0).can_send() && !is_file ==> r.0 == Err::<u64, TransferError>(TransferError::NotAFile),
        r.0 matches Ok(id) ==> {
            let e = final(t.0)@[id];
            &&& r.1 matches Ok(next) && next != id
            &&& e.direction == Direction::Sending && e.status == Status::Pending
            &&& e.size_bytes == size && e.bytes_so_far == 0 && e.started_ms == now_ms
            &&& name matches Some(n) ==> e.name == n@
        },
{
}

/// A session that begins makes sending possible. One that ends makes it
/// impossible, and no transfer is under way any more: what was is marked as
/// failed, the rest stays.
pub proof fn a_session_carries_the_transfers(
    t: (&mut Transfers, &mut Transfers),
    gone: Vec<String>,
    id: u64,
)
    requires
        call_ensures(Transfers::set_session_tx, (t.0,), ()),
        *old(t.1) == *final(t.0),
        call_ensures(Transfers::clear_session_tx, (t.1,), gone),
        old(t.0)@.contains_key(id),
    ensures
        final(t.0).can_send(),
        !final(t.1).can_send(),
        final(t.1)@.contains_key(id),
        ({
            let (before, after) = (old(t.0)@[id].status, final(t.1)@[id].status);
            if before == Status::Done || before == Status::Failed || before == Status::Cancelled {
                after == before
            } else {
                after == Status::Failed
            }
        }),
{
    assert(old(t.1)@.contains_key(id));
}

/// What the user cancels is off at once: its sender is told to stop and sends
/// nothing more, whatever was read.
pub proof fn a_cancelled_transfer_is_off(
    t: &mut Transfers,
    id: u64,
    gone: Option<String>,
    read: Option<usize>,
    step: SendStep,
    off_now: bool,
)
    requires
        call_ensures(Transfers::user_cancel, (t, id), gone),
        call_ensures(Transfers::next_send_step, (&*final(t), id, read), step),
        call_ensures(Transfers::is_cancelled, (&*final(t), id), off_now),
    ensures
        step == SendStep::Cancel,
        off_now,
        old(t)@.contains_key(id) ==> final(t)@[id].status == Status::Cancelled && text::optional(
            gone,
        ) == old(t)@[id].temp_path,
{
}

/// The sender of a transfer that is under way sends all that it reads, and ends
/// the file where there is nothing left to read.
pub proof fn what_is_read_is_sent(t: &Transfers, id: u64, n: usize, r: (SendStep, SendStep))
    requires
        t@.contains_key(id),
        t@[id].status == Status::Pending || t@[id].status == Status::Active,
        call_ensures(Transfers::next_send_step, (t, id, None::<usize>), r.0),
        call_ensures(Transfers::next_send_step, (t, id, Some(n)), r.1),
    ensures
        r.0 == SendStep::Read,
        n > 0 ==> r.1 == SendStep::Chunk(n),
        n == 0 ==> r.1 == SendStep::End,
{
}

/// A transfer that is done counts as whole, and the list shows it so, a received
/// one with the place where it lies. Nothing else shows a place.
pub proof fn a_finished_transfer_is_shown_whole(
    t: &mut Transfers,
    id: u64,
    now_ms: u64,
    list: Vec<TransferSnapshot>,
    i: int,
)
    requires
        call_ensures(Transfers::mark_done, (t, id), ()),
        old(t)@.contains_key(id),
        call_ensures(Transfers::snapshot, (&*final(t), now_ms), list),
        0 <= i < list@.len(),
    ensures
        list@[i].id == id ==> {
            &&& list@[i].status == Status::Done
            &&& list@[i].bytes_so_far == list@[i].size_bytes
            &&& list@[i].name@ == old(t)@[id].name
            &&& list@[i].direction == Direction::Receiving ==> text::optional(list@[i].final_path)
                == old(t)@[id].final_path
        },
        list@[i].direction == Direction::Sending || list@[i].status != Status::Done
            ==> list@[i].final_path is None,
{
}

/// Progress adds up.
pub proof fn progress_adds_up(t: (&mut Transfers, &mut Transfers), id: u64, a: u64, b: u64)
    requires
        call_ensures(Transfers::add_progress, (t.0, id, a), ()),
        *old(t.1) == *final(t.0),
        call_ensures(Transfers::add_progress, (t.1, id, b), ()),
        old(t.0)@.contains_key(id),
        old(t.0)@[id].bytes_so_far + a + b <= u64::MAX,
    ensures
        final(t.1)@[id].bytes_so_far == old(t.0)@[id].bytes_so_far + a + b,
        final(t.1)@[id].status == old(t.0)@[id].status,
{
}

/// An offer under a number that is in use is refused and changes nothing.
pub proof fn an_offer_needs_a_free_number(
    t: &mut Transfers,
    id: u64,
    name: &str,
    final_path: &str,
    temp_path: &str,
    size: u64,
    now_ms: u64,
    r: bool,
)
    requires
        call_ensures(Transfers::accepts_offer, (&*t, id), r),
        call_ensures(
            Transfers::begin_incoming,
            (t, id, name, final_path, temp_path, size, now_ms),
            (),
        ),
    ensures
        r == !old(t)@.contains_key(id),
        !r ==> final(t)@ == old(t)@,
        r ==> {
            let e = final(t)@[id];
            &&& e.direction == Direction::Receiving && e.status == Status::Active
            &&& e.name == name@ && e.size_bytes == size && e.bytes_so_far == 0
        },
{
}

} // verus!
