//! Sharing the clipboard: text and images.
//!
//! One thread owns the clipboard. It applies what the peer sends, and looks
//! for local changes in between. What was applied last is remembered, so that
//! it is not taken for a local change and sent back.

use crate::bytes::{self, part, push_all, same_bytes};
use crate::hash::{self, sha256};
use crate::text::same_text;
use vstd::prelude::*;
use vstd::string::*;

verus! {

/// Time between two looks at the clipboard.
pub const POLL_MS: u64 = 400;

/// Longer texts are neither sent nor applied.
pub const MAX_BYTES: usize = 65_536;

/// The most that one message carries of an image.
pub const IMAGE_CHUNK_BYTES: usize = 32_768;

/// Larger images are not sent.
pub const MAX_IMAGE_BYTES: usize = 67_108_864;

pub const CLIPBOARD_QUEUE_CAPACITY: usize = 8;

/// How many messages may wait for the session.
pub fn queue_capacity() -> (r: usize)
    ensures
        r == CLIPBOARD_QUEUE_CAPACITY,
{
    CLIPBOARD_QUEUE_CAPACITY
}

/// An image: four bytes for each pixel.
pub struct ClipboardImage {
    pub width: usize,
    pub height: usize,
    pub bytes: Vec<u8>,
}

/// What a [`ClipboardImage`] stands for.
pub struct Picture {
    pub width: nat,
    pub height: nat,
    pub bytes: Seq<u8>,
}

impl View for ClipboardImage {
    type V = Picture;

    open spec fn view(&self) -> Picture {
        Picture { width: self.width as nat, height: self.height as nat, bytes: self.bytes@ }
    }
}

/// What goes between the clipboards.
pub enum ClipboardEvent {
    Text(String),
    ImageStart { id: u64, width: u32, height: u32, total_bytes: u64 },
    ImageChunk { id: u64, offset: u64, data: Vec<u8> },
    ImageEnd { id: u64 },
}

/// What a [`ClipboardEvent`] stands for.
pub enum Note {
    Text(Seq<char>),
    ImageStart { id: u64, width: u32, height: u32, total_bytes: u64 },
    ImageChunk { id: u64, offset: u64, data: Seq<u8> },
    ImageEnd { id: u64 },
}

impl View for ClipboardEvent {
    type V = Note;

    open spec fn view(&self) -> Note {
        match *self {
            ClipboardEvent::Text(t) => Note::Text(t@),
            ClipboardEvent::ImageStart { id, width, height, total_bytes } => Note::ImageStart {
                id,
                width,
                height,
                total_bytes,
            },
            ClipboardEvent::ImageChunk { id, offset, data } => Note::ImageChunk {
                id,
                offset,
                data: data@,
            },
            ClipboardEvent::ImageEnd { id } => Note::ImageEnd { id },
        }
    }
}

/// Why an image or a part of it is refused.
#[derive(Debug, Clone, Copy, PartialEq, Eq, Structural)]
pub enum ImageError {
    /// A number is too large for this machine.
    Unrepresentable,
    ZeroDimensions,
    DimensionsOverflow,
    /// The size is not that of the dimensions.
    SizeMismatch,
    TooLarge,
    /// A part belongs to another image.
    IdChanged,
    OffsetMismatch,
    ChunkTooLarge,
    /// There is more than the image holds.
    TooManyBytes,
    /// The image ended before all of it came.
    Incomplete,
}

/// What is wrong with the shape of an image, if anything.
pub open spec fn shape_error(width: nat, height: nat, total_bytes: nat) -> Option<ImageError> {
    if width == 0 || height == 0 {
        Some(ImageError::ZeroDimensions)
    } else if width * height > usize::MAX || width * height * 4 > usize::MAX {
        Some(ImageError::DimensionsOverflow)
    } else if total_bytes != width * height * 4 {
        Some(ImageError::SizeMismatch)
    } else if total_bytes > MAX_IMAGE_BYTES {
        Some(ImageError::TooLarge)
    } else {
        None
    }
}

/// Checks the shape of an image.
pub fn validate_image_shape(width: usize, height: usize, total_bytes: usize) -> (r: Result<
    (),
    ImageError,
>)
    ensures
        match r {
            Ok(_) => shape_error(width as nat, height as nat, total_bytes as nat) is None,
            Err(e) => shape_error(width as nat, height as nat, total_bytes as nat) == Some(e),
        },
{
    if width == 0 || height == 0 {
        return Err(ImageError::ZeroDimensions);
    }
    let pixels = match width.checked_mul(height) {
        Some(p) => p,
        None => {
            return Err(ImageError::DimensionsOverflow);
        },
    };
    let expected = match pixels.checked_mul(4) {
        Some(e) => e,
        None => {
            return Err(ImageError::DimensionsOverflow);
        },
    };
    if total_bytes != expected {
        return Err(ImageError::SizeMismatch);
    }
    if total_bytes > MAX_IMAGE_BYTES {
        return Err(ImageError::TooLarge);
    }
    Ok(())
}

/// An image of which parts have come.
pub struct IncomingImage {
    id: u64,
    width: usize,
    height: usize,
    total_bytes: usize,
    rgba: Vec<u8>,
}

/// What an [`IncomingImage`] stands for.
pub struct Partial {
    pub id: u64,
    pub width: nat,
    pub height: nat,
    pub total: nat,
    pub bytes: Seq<u8>,
}

impl View for IncomingImage {
    type V = Partial;

    closed spec fn view(&self) -> Partial {
        Partial {
            id: self.id,
            width: self.width as nat,
            height: self.height as nat,
            total: self.total_bytes as nat,
            bytes: self.rgba@,
        }
    }
}

/// What is wrong with the announcement of an image, if anything.
pub open spec fn start_error(width: u32, height: u32, total_bytes: u64) -> Option<ImageError> {
    if width > usize::MAX || height > usize::MAX || total_bytes > usize::MAX {
        Some(ImageError::Unrepresentable)
    } else {
        shape_error(width as nat, height as nat, total_bytes as nat)
    }
}

/// What is wrong with a part of an image, if anything. Parts come in order.
pub open spec fn chunk_error(p: Partial, id: u64, offset: u64, len: nat) -> Option<ImageError> {
    if id != p.id {
        Some(ImageError::IdChanged)
    } else if offset != p.bytes.len() {
        Some(ImageError::OffsetMismatch)
    } else if len > IMAGE_CHUNK_BYTES {
        Some(ImageError::ChunkTooLarge)
    } else if p.bytes.len() + len > p.total {
        Some(ImageError::TooManyBytes)
    } else {
        None
    }
}

/// What is wrong with the end of an image, if anything.
pub open spec fn end_error(p: Partial, id: u64) -> Option<ImageError> {
    if id != p.id {
        Some(ImageError::IdChanged)
    } else if p.bytes.len() != p.total {
        Some(ImageError::Incomplete)
    } else {
        None
    }
}

impl IncomingImage {
    /// No more has come than the image holds.
    pub open spec fn well_formed(self) -> bool {
        self@.bytes.len() <= self@.total
    }

    /// An image is announced.
    pub fn new(id: u64, width: u32, height: u32, total_bytes: u64) -> (r: Result<Self, ImageError>)
        ensures
            match r {
                Ok(i) => start_error(width, height, total_bytes) is None && i.well_formed() && i@
                    == (Partial {
                    id,
                    width: width as nat,
                    height: height as nat,
                    total: total_bytes as nat,
                    bytes: Seq::empty(),
                }),
                Err(e) => start_error(width, height, total_bytes) == Some(e),
            },
    {
        if width as u64 > usize::MAX as u64 || height as u64 > usize::MAX as u64 || total_bytes
            > usize::MAX as u64 {
            return Err(ImageError::Unrepresentable);
        }
        let width = width as usize;
        let height = height as usize;
        let total_bytes = total_bytes as usize;
        match validate_image_shape(width, height, total_bytes) {
            Ok(_) => Ok(IncomingImage { id, width, height, total_bytes, rgba: Vec::new() }),
            Err(e) => Err(e),
        }
    }

    /// A part has come. One that is refused changes nothing.
    pub fn push(&mut self, id: u64, offset: u64, data: &[u8]) -> (r: Result<(), ImageError>)
        requires
            old(self).well_formed(),
        ensures
            final(self).well_formed(),
            match r {
                Ok(_) => chunk_error(old(self)@, id, offset, data@.len()) is None && final(self)@
                    == (Partial { bytes: old(self)@.bytes + data@, ..old(self)@ }),
                Err(e) => chunk_error(old(self)@, id, offset, data@.len()) == Some(e)
                    && final(self)@ == old(self)@,
            },
    {
        if id != self.id {
            return Err(ImageError::IdChanged);
        }
        if offset != self.rgba.len() as u64 {
            return Err(ImageError::OffsetMismatch);
        }
        if data.len() > IMAGE_CHUNK_BYTES {
            return Err(ImageError::ChunkTooLarge);
        }
        if data.len() > self.total_bytes - self.rgba.len() {
            return Err(ImageError::TooManyBytes);
        }
        push_all(&mut self.rgba, data);
        Ok(())
    }

    /// The image has ended.
    pub fn finish(self, id: u64) -> (r: Result<ClipboardImage, ImageError>)
        ensures
            match r {
                Ok(image) => end_error(self@, id) is None && image@ == (Picture {
                    width: self@.width,
                    height: self@.height,
                    bytes: self@.bytes,
                }),
                Err(e) => end_error(self@, id) == Some(e),
            },
    {
        if id != self.id {
            return Err(ImageError::IdChanged);
        }
        if self.rgba.len() != self.total_bytes {
            return Err(ImageError::Incomplete);
        }
        Ok(ClipboardImage { width: self.width, height: self.height, bytes: self.rgba })
    }
}

/// Whether an image can be sent: its shape is right, and its dimensions fit
/// the message.
pub open spec fn sendable(p: Picture) -> bool {
    shape_error(p.width, p.height, p.bytes.len()) is None && p.width <= u32::MAX && p.height
        <= u32::MAX
}

/// How many parts an image is sent in.
pub open spec fn chunk_count(p: Picture) -> nat {
    ((p.bytes.len() + IMAGE_CHUNK_BYTES - 1) / IMAGE_CHUNK_BYTES as int) as nat
}

/// How many bytes of an image are through after some parts.
pub open spec fn through(p: Picture, chunks: nat) -> int {
    if chunks * IMAGE_CHUNK_BYTES <= p.bytes.len() {
        chunks * IMAGE_CHUNK_BYTES
    } else {
        p.bytes.len() as int
    }
}

/// The messages that send an image: its announcement, its parts, its end.
pub open spec fn image_note(id: u64, p: Picture, i: nat) -> Note {
    if i == 0 {
        Note::ImageStart {
            id,
            width: p.width as u32,
            height: p.height as u32,
            total_bytes: p.bytes.len() as u64,
        }
    } else if i <= chunk_count(p) {
        Note::ImageChunk {
            id,
            offset: through(p, (i - 1) as nat) as u64,
            data: p.bytes.subrange(through(p, (i - 1) as nat), through(p, i)),
        }
    } else {
        Note::ImageEnd { id }
    }
}

/// How many messages send an image.
pub open spec fn note_count(p: Picture) -> nat {
    chunk_count(p) + 2
}

/// An image on its way to the peer.
pub struct ImageSender {
    id: u64,
    image: ClipboardImage,
    /// How many messages are through.
    at: usize,
}

impl ImageSender {
    pub closed spec fn id(self) -> u64 {
        self.id
    }

    pub closed spec fn picture(self) -> Picture {
        self.image@
    }

    /// How many messages are through.
    pub closed spec fn position(self) -> nat {
        self.at as nat
    }

    pub open spec fn well_formed(self) -> bool {
        sendable(self.picture()) && self.position() <= note_count(self.picture())
    }

    /// The next message; nothing once all are through.
    pub fn next(&mut self) -> (r: Option<ClipboardEvent>)
        requires
            old(self).well_formed(),
        ensures
            final(self).well_formed(),
            final(self).id() == old(self).id(),
            final(self).picture() == old(self).picture(),
            match r {
                Some(ev) => old(self).position() < note_count(old(self).picture())
                    && final(self).position() == old(self).position() + 1 && ev@ == image_note(
                    old(self).id(),
                    old(self).picture(),
                    old(self).position(),
                ),
                None => old(self).position() == note_count(old(self).picture())
                    && final(self).position() == old(self).position(),
            },
    {
        let total: usize = self.image.bytes.len();
        let chunks: usize = (total + (IMAGE_CHUNK_BYTES - 1)) / IMAGE_CHUNK_BYTES;
        assert(chunks == chunk_count(self.picture()));
        if self.at == 0 {
            self.at = 1;
            return Some(
                ClipboardEvent::ImageStart {
                    id: self.id,
                    width: self.image.width as u32,
                    height: self.image.height as u32,
                    total_bytes: total as u64,
                },
            );
        }
        if self.at <= chunks {
            let from: usize = (self.at - 1) * IMAGE_CHUNK_BYTES;
            let to: usize = if total - from <= IMAGE_CHUNK_BYTES {
                total
            } else {
                from + IMAGE_CHUNK_BYTES
            };
            assert(from == through(self.picture(), (self.at - 1) as nat));
            assert(to == through(self.picture(), self.at as nat));
            let data = part(&self.image.bytes, from, to);
            self.at = self.at + 1;
            return Some(
                ClipboardEvent::ImageChunk { id: self.id, offset: from as u64, data },
            );
        }
        if self.at == chunks + 1 {
            self.at = self.at + 1;
            return Some(ClipboardEvent::ImageEnd { id: self.id });
        }
        None
    }
}

/// What the clipboard was last known to hold.
pub enum ClipboardFingerprint {
    Text(String),
    Image { width: usize, height: usize, sha256: [u8; 32] },
}

/// What a [`ClipboardFingerprint`] stands for.
pub enum Fingerprint {
    Text(Seq<char>),
    Image { width: nat, height: nat, sha256: Seq<u8> },
}

impl View for ClipboardFingerprint {
    type V = Fingerprint;

    open spec fn view(&self) -> Fingerprint {
        match *self {
            ClipboardFingerprint::Text(t) => Fingerprint::Text(t@),
            ClipboardFingerprint::Image { width, height, sha256 } => Fingerprint::Image {
                width: width as nat,
                height: height as nat,
                sha256: sha256@,
            },
        }
    }
}

/// The fingerprint of an image.
pub open spec fn print_of(p: Picture) -> Fingerprint {
    Fingerprint::Image { width: p.width, height: p.height, sha256: hash::digest_of(p.bytes) }
}

pub fn image_fingerprint(image: &ClipboardImage) -> (r: ClipboardFingerprint)
    ensures
        r@ == print_of(image@),
{
    ClipboardFingerprint::Image {
        width: image.width,
        height: image.height,
        sha256: sha256(&image.bytes),
    }
}

fn same_fingerprint(a: &ClipboardFingerprint, b: &ClipboardFingerprint) -> (r: bool)
    ensures
        r == (a@ == b@),
{
    match (a, b) {
        (ClipboardFingerprint::Text(x), ClipboardFingerprint::Text(y)) => same_text(
            x.as_str(),
            y.as_str(),
        ),
        (
            ClipboardFingerprint::Image { width: w1, height: h1, sha256: s1 },
            ClipboardFingerprint::Image { width: w2, height: h2, sha256: s2 },
        ) => *w1 == *w2 && *h1 == *h2 && same_bytes(s1, s2),
        _ => false,
    }
}

/// What has to be done with the clipboard.
pub enum ClipboardAction {
    Nothing,
    SetText(String),
    SetImage(ClipboardImage),
}

/// What a [`ClipboardAction`] stands for.
pub enum Deed {
    Nothing,
    SetText(Seq<char>),
    SetImage(Picture),
}

impl View for ClipboardAction {
    type V = Deed;

    open spec fn view(&self) -> Deed {
        match *self {
            ClipboardAction::Nothing => Deed::Nothing,
            ClipboardAction::SetText(t) => Deed::SetText(t@),
            ClipboardAction::SetImage(i) => Deed::SetImage(i@),
        }
    }
}

/// Whether a text is short enough to be sent and to be applied.
pub open spec fn short_enough(t: Seq<char>) -> bool {
    vstd::utf8::encode_utf8(t).len() as usize <= MAX_BYTES
}

/// The image under way after a message of the peer, and what has to be done. A
/// part or an end that does not fit drops the image, and so does a text, which
/// is left alone where it is too long.
pub open spec fn received(incoming: Option<Partial>, note: Note) -> (Option<Partial>, Deed) {
    match note {
        Note::Text(t) => (
            None,
            if short_enough(t) {
                Deed::SetText(t)
            } else {
                Deed::Nothing
            },
        ),
        Note::ImageStart { id, width, height, total_bytes } => if start_error(
            width,
            height,
            total_bytes,
        ) is None {
            (
                Some(
                    Partial {
                        id,
                        width: width as nat,
                        height: height as nat,
                        total: total_bytes as nat,
                        bytes: Seq::empty(),
                    },
                ),
                Deed::Nothing,
            )
        } else {
            (None, Deed::Nothing)
        },
        Note::ImageChunk { id, offset, data } => match incoming {
            Some(p) if chunk_error(p, id, offset, data.len()) is None => (
                Some(Partial { bytes: p.bytes + data, ..p }),
                Deed::Nothing,
            ),
            _ => (None, Deed::Nothing),
        },
        Note::ImageEnd { id } => match incoming {
            Some(p) if end_error(p, id) is None => (
                None,
                Deed::SetImage(Picture { width: p.width, height: p.height, bytes: p.bytes }),
            ),
            _ => (None, Deed::Nothing),
        },
    }
}

/// The fingerprint that is remembered once something was done.
pub open spec fn deed_print(d: Deed) -> Option<Fingerprint> {
    match d {
        Deed::Nothing => None,
        Deed::SetText(t) => Some(Fingerprint::Text(t)),
        Deed::SetImage(p) => Some(print_of(p)),
    }
}

/// What the clipboard thread remembers.
pub struct Watcher {
    last: Option<ClipboardFingerprint>,
    /// The fingerprint of what is being applied or sent.
    pending: Option<ClipboardFingerprint>,
    incoming: Option<IncomingImage>,
    next_image_id: u64,
    /// Whether the thread runs.
    running: bool,
}

/// What a [`Watcher`] stands for.
pub struct Watching {
    pub last: Option<Fingerprint>,
    pub pending: Option<Fingerprint>,
    pub incoming: Option<Partial>,
    pub next_image_id: u64,
    pub running: bool,
}

/// The view of an optional fingerprint.
pub open spec fn print_view(p: Option<ClipboardFingerprint>) -> Option<Fingerprint> {
    match p {
        Some(f) => Some(f@),
        None => None,
    }
}

/// The view of an optional image under way.
pub open spec fn partial_view(p: Option<IncomingImage>) -> Option<Partial> {
    match p {
        Some(i) => Some(i@),
        None => None,
    }
}

impl View for Watcher {
    type V = Watching;

    closed spec fn view(&self) -> Watching {
        Watching {
            last: print_view(self.last),
            pending: print_view(self.pending),
            incoming: partial_view(self.incoming),
            next_image_id: self.next_image_id,
            running: self.running,
        }
    }
}

/// What a session that wants the clipboard has to do.
#[derive(Debug, Clone, Copy, PartialEq, Eq, Structural)]
pub enum WatcherStart {
    /// The clipboard is not shared.
    Disabled,
    /// The thread runs: it sends to the new session from now on.
    Replace,
    /// The thread has to be started.
    Start,
}

/// What a look at the text of the clipboard leads to.
pub enum TextPoll {
    Skip,
    /// There is no text: look for an image.
    ReadImage,
    Send(String),
}

/// Whether a text is a change that is sent: it is not too long, it is not what
/// was there before, and a session listens.
pub open spec fn sends_text(w: Watching, t: Seq<char>, listener: bool) -> bool {
    short_enough(t) && w.last != Some(Fingerprint::Text(t)) && listener
}

/// What a look at the image of the clipboard leads to.
pub enum ImagePoll {
    Skip,
    Send(ImageSender),
}

impl Watcher {
    pub closed spec fn well_formed(self) -> bool {
        self.incoming matches Some(i) ==> i.well_formed()
    }

    pub fn new() -> (r: Self)
        ensures
            r.well_formed(),
            r@ == (Watching {
                last: None,
                pending: None,
                incoming: None,
                next_image_id: 1,
                running: false,
            }),
    {
        Watcher { last: None, pending: None, incoming: None, next_image_id: 1, running: false }
    }

    /// A session wants the clipboard. The thread is started once.
    pub fn ensure_watcher(&mut self, disabled: bool) -> (r: WatcherStart)
        requires
            old(self).well_formed(),
        ensures
            final(self).well_formed(),
            r == if disabled {
                WatcherStart::Disabled
            } else if old(self)@.running {
                WatcherStart::Replace
            } else {
                WatcherStart::Start
            },
            final(self)@ == (Watching { running: old(self)@.running || !disabled, ..old(self)@ }),
    {
        if disabled {
            return WatcherStart::Disabled;
        }
        if self.running {
            return WatcherStart::Replace;
        }
        self.running = true;
        WatcherStart::Start
    }

    /// Whether a message of the peer goes to the clipboard thread.
    pub fn accepts_peer_events(&self, disabled: bool) -> (r: bool)
        ensures
            r == (!disabled && self@.running),
    {
        !disabled && self.running
    }

    /// Takes a message of the peer; tells what to do. Tell [`Watcher::settle`]
    /// whether it worked.
    pub fn apply_from_peer(&mut self, event: ClipboardEvent) -> (r: ClipboardAction)
        requires
            old(self).well_formed(),
        ensures
            final(self).well_formed(),
            r@ == received(old(self)@.incoming, event@).1,
            final(self)@ == (Watching {
                incoming: received(old(self)@.incoming, event@).0,
                pending: deed_print(r@),
                ..old(self)@
            }),
    {
        match event {
            ClipboardEvent::Text(text) => {
                self.incoming = None;
                if text.as_str().len() > MAX_BYTES {
                    self.pending = None;
                    return ClipboardAction::Nothing;
                }
                self.pending = Some(ClipboardFingerprint::Text(text.clone()));
                ClipboardAction::SetText(text)
            },
            ClipboardEvent::ImageStart { id, width, height, total_bytes } => {
                self.pending = None;
                self.incoming = match IncomingImage::new(id, width, height, total_bytes) {
                    Ok(image) => Some(image),
                    Err(_) => None,
                };
                ClipboardAction::Nothing
            },
            ClipboardEvent::ImageChunk { id, offset, data } => {
                self.pending = None;
                self.incoming = match self.incoming.take() {
                    None => None,
                    Some(i0) => {
                        let mut image = i0;
                        match image.push(id, offset, &data) {
                            Ok(_) => Some(image),
                            Err(_) => None,
                        }
                    },
                };
                ClipboardAction::Nothing
            },
            ClipboardEvent::ImageEnd { id } => {
                self.pending = None;
                match self.incoming.take() {
                    None => ClipboardAction::Nothing,
                    Some(image) => match image.finish(id) {
                        Err(_) => ClipboardAction::Nothing,
                        Ok(image) => {
                            self.pending = Some(image_fingerprint(&image));
                            ClipboardAction::SetImage(image)
                        },
                    },
                }
            },
        }
    }

    /// What was to be applied or sent worked, or did not. Only what worked is
    /// remembered.
    pub fn settle(&mut self, worked: bool)
        requires
            old(self).well_formed(),
        ensures
            final(self).well_formed(),
            final(self)@ == (Watching {
                last: if worked && old(self)@.pending is Some {
                    old(self)@.pending
                } else {
                    old(self)@.last
                },
                pending: None,
                ..old(self)@
            }),
    {
        match self.pending.take() {
            None => {},
            Some(p) => {
                if worked {
                    self.last = Some(p);
                }
            },
        }
    }

    fn is_last(&self, p: &ClipboardFingerprint) -> (r: bool)
        ensures
            r == (self@.last == Some(p@)),
    {
        match &self.last {
            None => false,
            Some(l) => same_fingerprint(l, p),
        }
    }

    /// Looks at the text of the clipboard; `text` is nothing when it holds
    /// none. Tell [`Watcher::settle`] whether a text could be sent.
    pub fn poll_text(&mut self, text: Option<String>, listener: bool) -> (r: TextPoll)
        requires
            old(self).well_formed(),
        ensures
            final(self).well_formed(),
            match text {
                None => r is ReadImage && final(self)@ == old(self)@,
                Some(t) => if sends_text(old(self)@, t@, listener) {
                    r matches TextPoll::Send(s) && s@ == t@ && final(self)@ == (Watching {
                        pending: Some(Fingerprint::Text(t@)),
                        ..old(self)@
                    })
                } else {
                    r is Skip && final(self)@ == old(self)@
                },
            },
    {
        match text {
            None => TextPoll::ReadImage,
            Some(current) => {
                if current.as_str().len() > MAX_BYTES {
                    return TextPoll::Skip;
                }
                let fingerprint = ClipboardFingerprint::Text(current.clone());
                if self.is_last(&fingerprint) {
                    return TextPoll::Skip;
                }
                if !listener {
                    return TextPoll::Skip;
                }
                self.pending = Some(fingerprint);
                TextPoll::Send(current)
            },
        }
    }

    /// Looks at the image of the clipboard. One that cannot be sent is
    /// remembered too, so that it is not looked at again. Tell
    /// [`Watcher::settle`] whether all of an image could be sent.
    pub fn poll_image(&mut self, image: ClipboardImage, listener: bool) -> (r: ImagePoll)
        requires
            old(self).well_formed(),
        ensures
            final(self).well_formed(),
            if old(self)@.last == Some(print_of(image@)) || !listener {
                r is Skip && final(self)@ == old(self)@
            } else if !sendable(image@) {
                r is Skip && final(self)@ == (Watching {
                    last: Some(print_of(image@)),
                    ..old(self)@
                })
            } else {
                r matches ImagePoll::Send(s) && s.well_formed() && s.id() == old(self)@.next_image_id && s.picture() == image@ && s.position() == 0 && final(self)@ == (
                Watching {
                    pending: Some(print_of(image@)),
                    next_image_id: old(self)@.next_image_id.wrapping_add(1),
                    ..old(self)@
                })
            },
    {
        let fingerprint = image_fingerprint(&image);
        if self.is_last(&fingerprint) {
            return ImagePoll::Skip;
        }
        if !listener {
            return ImagePoll::Skip;
        }
        let valid = validate_image_shape(image.width, image.height, image.bytes.len()).is_ok();
        if !valid || image.width as u64 > u32::MAX as u64 || image.height as u64 > u32::MAX as u64 {
            self.last = Some(fingerprint);
            return ImagePoll::Skip;
        }
        let id: u64 = self.next_image_id;
        self.next_image_id = id.wrapping_add(1);
        self.pending = Some(fingerprint);
        ImagePoll::Send(ImageSender { id, image, at: 0 })
    }
}

/// The image under way after the first `n` messages that send an image.
pub open spec fn after_notes(start: Option<Partial>, id: u64, p: Picture, n: nat) -> Option<Partial>
    decreases n,
{
    if n == 0 {
        start
    } else {
        received(after_notes(start, id, p, (n - 1) as nat), image_note(id, p, (n - 1) as nat)).0
    }
}

proof fn lemma_after_notes(start: Option<Partial>, id: u64, p: Picture, n: nat)
    requires
        sendable(p),
        n <= chunk_count(p),
    ensures
        after_notes(start, id, p, n + 1) == Some(
            Partial {
                id,
                width: p.width,
                height: p.height,
                total: p.bytes.len(),
                bytes: p.bytes.subrange(0, through(p, n)),
            },
        ),
    decreases n,
{
    let whole = Partial {
        id,
        width: p.width,
        height: p.height,
        total: p.bytes.len(),
        bytes: p.bytes.subrange(0, through(p, n)),
    };
    if n == 0 {
        reveal_with_fuel(after_notes, 2);
        assert(p.bytes.subrange(0, 0) =~= Seq::<u8>::empty());
    } else {
        let k = (n - 1) as nat;
        lemma_after_notes(start, id, p, k);
        let before = p.bytes.subrange(0, through(p, k));
        let data = p.bytes.subrange(through(p, k), through(p, n));
        assert(through(p, k) == k * IMAGE_CHUNK_BYTES);
        assert(through(p, k) <= through(p, n) <= through(p, k) + IMAGE_CHUNK_BYTES);
        assert(before + data =~= whole.bytes);
        assert(image_note(id, p, n) == Note::ImageChunk {
            id,
            offset: through(p, k) as u64,
            data,
        });
        assert(after_notes(start, id, p, n + 1) == received(
            after_notes(start, id, p, n),
            image_note(id, p, n),
        ).0);
    }
}

/// What one clipboard sends of an image, the other puts together again: after
/// all its messages the image is set as it was, whatever was under way before.
pub proof fn an_image_arrives_as_it_was_sent(start: Option<Partial>, id: u64, p: Picture)
    requires
        sendable(p),
    ensures
        received(
            after_notes(start, id, p, (note_count(p) - 1) as nat),
            image_note(id, p, (note_count(p) - 1) as nat),
        ) == (None::<Partial>, Deed::SetImage(p)),
{
    let n = chunk_count(p);
    lemma_after_notes(start, id, p, n);
    assert(through(p, n) == p.bytes.len());
    assert(p.bytes.subrange(0, p.bytes.len() as int) =~= p.bytes);
}

/// No message of an image carries more than the control channel takes.
pub proof fn image_messages_are_short(id: u64, p: Picture, i: nat)
    requires
        sendable(p),
        i < note_count(p),
    ensures
        image_note(id, p, i) matches Note::ImageChunk { id: d, offset, data } ==> data.len()
            <= IMAGE_CHUNK_BYTES,
{
}

/// What the peer has put into the clipboard is not sent back to it: a look
/// that finds the same text or image sends nothing.
pub proof fn applied_contents_do_not_echo(w: Watching, d: Deed, listener: bool)
    requires
        w.last == deed_print(d),
    ensures
        d matches Deed::SetText(t) ==> !sends_text(w, t, listener),
        d matches Deed::SetImage(p) ==> w.last == Some(print_of(p)),
{
}

/// Every change of the text is sent: a text of at most 65536 bytes goes to a
/// session that listens, as it is, unless the clipboard was last known to hold
/// just this text. Nothing else keeps it back, and nothing longer is sent.
pub proof fn every_change_of_text_is_sent(
    w: &mut Watcher,
    text: Option<String>,
    listener: bool,
    r: TextPoll,
)
    requires
        call_ensures(Watcher::poll_text, (w, text, listener), r),
        text is Some,
        vstd::utf8::encode_utf8(text->0@).len() <= usize::MAX,
    ensures
        ({
            let t = text->0@;
            let known = old(w)@.last matches Some(Fingerprint::Text(k)) && k == t;
            if listener && !known && vstd::utf8::encode_utf8(t).len() <= 65_536 {
                r matches TextPoll::Send(s) && s@ == t
            } else {
                r is Skip
            }
        }),
{
}

/// A clipboard without text is looked at for an image.
pub proof fn without_text_an_image_is_looked_for(w: &mut Watcher, listener: bool, r: TextPoll)
    requires
        call_ensures(Watcher::poll_text, (w, None::<String>, listener), r),
    ensures
        r is ReadImage,
{
}

/// A text that was sent is not sent again, and the next one that differs is.
pub proof fn each_copied_text_is_sent_once(
    w: (&mut Watcher, &mut Watcher, &mut Watcher),
    copied: String,
    next: String,
    r: (TextPoll, TextPoll),
)
    requires
        call_ensures(Watcher::poll_text, (w.0, Some(copied), true), r.0),
        r.0 is Send,
        *old(w.1) == *final(w.0),
        call_ensures(Watcher::settle, (w.1, true), ()),
        *old(w.2) == *final(w.1),
        call_ensures(Watcher::poll_text, (w.2, Some(next), true), r.1),
        vstd::utf8::encode_utf8(next@).len() <= 65_536,
    ensures
        next@ == copied@ ==> r.1 is Skip,
        next@ != copied@ ==> (r.1 matches TextPoll::Send(s) && s@ == next@),
{
}

/// A text that could not be sent is tried again.
pub proof fn a_text_that_did_not_go_out_is_tried_again(
    w: (&mut Watcher, &mut Watcher, &mut Watcher),
    copied: String,
    r: (TextPoll, TextPoll),
)
    requires
        call_ensures(Watcher::poll_text, (w.0, Some(copied), true), r.0),
        r.0 is Send,
        *old(w.1) == *final(w.0),
        call_ensures(Watcher::settle, (w.1, false), ()),
        *old(w.2) == *final(w.1),
        call_ensures(Watcher::poll_text, (w.2, Some(copied), true), r.1),
    ensures
        r.1 matches TextPoll::Send(s) && s@ == copied@,
{
}

/// A text of the peer, of at most 65536 bytes, is put into the clipboard as it
/// came and is not sent back; what the user copies after it is sent.
pub proof fn the_text_of_the_peer_is_set_and_does_not_echo(
    w: (&mut Watcher, &mut Watcher, &mut Watcher),
    came: String,
    copied: String,
    set: ClipboardAction,
    r: TextPoll,
)
    requires
        call_ensures(Watcher::apply_from_peer, (w.0, ClipboardEvent::Text(came)), set),
        vstd::utf8::encode_utf8(came@).len() <= 65_536,
        *old(w.1) == *final(w.0),
        call_ensures(Watcher::settle, (w.1, true), ()),
        *old(w.2) == *final(w.1),
        call_ensures(Watcher::poll_text, (w.2, Some(copied), true), r),
        vstd::utf8::encode_utf8(copied@).len() <= 65_536,
    ensures
        set matches ClipboardAction::SetText(t) && t@ == came@,
        copied@ == came@ ==> r is Skip,
        copied@ != came@ ==> (r matches TextPoll::Send(s) && s@ == copied@),
{
}

/// An image of four bytes for each pixel, not empty and not larger than 64 MiB,
/// is a right one, and no other is. The first thing that is wrong is told.
pub proof fn an_image_has_four_bytes_for_each_pixel(
    width: usize,
    height: usize,
    total: usize,
    r: Result<(), ImageError>,
)
    requires
        call_ensures(validate_image_shape, (width, height, total), r),
    ensures
        r is Ok <==> width > 0 && height > 0 && total == 4 * (width * height) && total
            <= 67_108_864,
        r == Err::<(), ImageError>(ImageError::ZeroDimensions) <==> width == 0 || height == 0,
        r == Err::<(), ImageError>(ImageError::TooLarge) ==> total == 4 * (width * height),
        r == Err::<(), ImageError>(ImageError::SizeMismatch) ==> total != 4 * (width * height),
{
    assert(width * height * 4 == 4 * (width * height));
}

/// A picture that was not there before is sent whole, from its beginning, under
/// a number of its own; one that was known stays, and a session that does not
/// listen gets none.
pub proof fn every_new_image_is_sent(
    w: &mut Watcher,
    image: ClipboardImage,
    listener: bool,
    r: ImagePoll,
)
    requires
        call_ensures(Watcher::poll_image, (w, image, listener), r),
        0 < image.width <= u32::MAX,
        0 < image.height <= u32::MAX,
        image.bytes@.len() == 4 * (image.width * image.height),
        image.bytes@.len() <= 67_108_864,
    ensures
        ({
            let known = old(w)@.last matches Some(
                Fingerprint::Image { width, height, sha256 },
            ) && width == image.width && height == image.height && sha256 == hash::digest_of(
                image.bytes@,
            );
            if listener && !known {
                &&& r matches ImagePoll::Send(s)
                &&& s.picture() == image@
                &&& s.position() == 0
                &&& s.id() == old(w)@.next_image_id
                &&& final(w)@.next_image_id != old(w)@.next_image_id
            } else {
                r is Skip && final(w)@ == old(w)@
            }
        }),
{
    assert(image.width * image.height * 4 == 4 * (image.width * image.height));
}

/// An image that was sent is not sent again.
pub proof fn a_sent_image_is_not_sent_again(
    w: (&mut Watcher, &mut Watcher, &mut Watcher),
    image: (ClipboardImage, ClipboardImage),
    r: (ImagePoll, ImagePoll),
)
    requires
        call_ensures(Watcher::poll_image, (w.0, image.0, true), r.0),
        r.0 is Send,
        *old(w.1) == *final(w.0),
        call_ensures(Watcher::settle, (w.1, true), ()),
        *old(w.2) == *final(w.1),
        call_ensures(Watcher::poll_image, (w.2, image.1, true), r.1),
        image.0@ == image.1@,
    ensures
        r.1 is Skip,
{
}

/// An image goes out in order: first its dimensions and its size, then all its
/// bytes, each part where the one before has ended and no part longer than
/// 32768 bytes, then its end, and nothing after that.
pub proof fn an_image_goes_out_in_order(s: &mut ImageSender, r: Option<ClipboardEvent>)
    requires
        call_ensures(ImageSender::next, (s,), r),
        sendable(old(s).picture()),
        0 < old(s).picture().bytes.len() <= 67_108_864,
    ensures
        ({
            let p = old(s).picture();
            let at = old(s).position();
            let parts = (p.bytes.len() + 32_767) / 32_768;
            match r {
                Some(ClipboardEvent::ImageStart { id, width, height, total_bytes }) => at == 0 && id
                    == old(s).id() && width == p.width && height == p.height && total_bytes
                    == p.bytes.len(),
                Some(ClipboardEvent::ImageChunk { id, offset, data }) => {
                    &&& 1 <= at <= parts
                    &&& id == old(s).id()
                    &&& offset == 32_768 * (at - 1)
                    &&& data@ == p.bytes.subrange(offset as int, offset + data@.len())
                    &&& data@.len() == 32_768 || offset + data@.len() == p.bytes.len()
                    &&& data@.len() <= 32_768
                },
                Some(ClipboardEvent::ImageEnd { id }) => at == parts + 1 && id == old(s).id(),
                Some(ClipboardEvent::Text(_)) => false,
                None => at == parts + 2 && final(s).position() == at,
            }
        }),
        r is Some ==> final(s).position() == old(s).position() + 1,
{
    let p = old(s).picture();
    assert(chunk_count(p) == (p.bytes.len() + 32_767) / 32_768);
    if let Some(ev) = r {
        assert(ev@ == image_note(old(s).id(), p, old(s).position()));
        if let ClipboardEvent::ImageChunk { id, offset, data } = ev {
            let at = old(s).position();
            assert(through(p, (at - 1) as nat) == 32_768 * (at - 1));
        }
    }
}

/// A part of an image is taken exactly where it goes on where the image has
/// ended so far, belongs to it, is no longer than 32768 bytes and leaves it no
/// larger than announced; it is then put behind, and else nothing changes.
pub proof fn parts_of_an_image_are_taken_in_order(
    i: &mut IncomingImage,
    id: u64,
    offset: u64,
    data: &[u8],
    r: Result<(), ImageError>,
)
    requires
        call_ensures(IncomingImage::push, (i, id, offset, data), r),
    ensures
        r is Ok <==> id == old(i)@.id && offset == old(i)@.bytes.len() && data@.len() <= 32_768
            && old(i)@.bytes.len() + data@.len() <= old(i)@.total,
        final(i)@.bytes == if r is Ok {
            old(i)@.bytes + data@
        } else {
            old(i)@.bytes
        },
        final(i)@.id == old(i)@.id && final(i)@.width == old(i)@.width && final(i)@.height
            == old(i)@.height && final(i)@.total == old(i)@.total,
{
}

/// An image is done exactly when all of it has come, and has the dimensions that
/// were announced and the bytes that came.
pub proof fn a_whole_image_is_done(
    i: IncomingImage,
    id: u64,
    r: Result<ClipboardImage, ImageError>,
)
    requires
        call_ensures(IncomingImage::finish, (i, id), r),
    ensures
        r is Ok <==> id == i@.id && i@.bytes.len() == i@.total,
        r matches Ok(image) ==> image.bytes@ == i@.bytes && image.width == i@.width
            && image.height == i@.height,
{
}

/// An image that the peer announces is taken up where its shape is right; a text
/// or a part that does not fit ends it.
pub proof fn the_peer_announces_an_image(
    w: &mut Watcher,
    ev: ClipboardEvent,
    r: ClipboardAction,
)
    requires
        call_ensures(Watcher::apply_from_peer, (w, ev), r),
    ensures
        ev matches ClipboardEvent::ImageStart { id, width, height, total_bytes } ==> {
            &&& r is Nothing
            &&& final(w)@.incoming is Some <==> width > 0 && height > 0 && total_bytes == 4 * (width
                * height) && total_bytes <= 67_108_864
            &&& final(w)@.incoming matches Some(p) ==> p.id == id && p.width == width && p.height
                == height && p.total == total_bytes && p.bytes.len() == 0
        },
        ev is Text || ev is ImageEnd ==> final(w)@.incoming is None,
        r is SetText ==> ev is Text,
        r matches ClipboardAction::SetImage(image) ==> ev is ImageEnd && (
        old(w)@.incoming matches Some(p) && p.bytes == image.bytes@ && p.bytes.len() == p.total
            && image.width == p.width && image.height == p.height),
        final(w)@.last == old(w)@.last,
{
    if let ClipboardEvent::ImageStart { id, width, height, total_bytes } = ev {
        assert(width * height * 4 == 4 * (width * height));
        if total_bytes == 4 * (width * height) && total_bytes <= 67_108_864 {
            assert(width * height <= usize::MAX);
        }
        if width > 0 && height > 0 {
            assert(width * height >= width && width * height >= height) by (nonlinear_arith)
                requires
                    width > 0,
                    height > 0,
            ;
        }
    }
}

/// The thread that watches the clipboard is started once, later sessions take it
/// over, and a clipboard that is not shared starts none and takes nothing.
pub proof fn the_watcher_is_started_once(
    w: (&mut Watcher, &mut Watcher),
    disabled: bool,
    r: (WatcherStart, WatcherStart),
    takes: bool,
)
    requires
        call_ensures(Watcher::new, (), *old(w.0)),
        call_ensures(Watcher::ensure_watcher, (w.0, disabled), r.0),
        *old(w.1) == *final(w.0),
        call_ensures(Watcher::ensure_watcher, (w.1, false), r.1),
        call_ensures(Watcher::accepts_peer_events, (&*final(w.0), false), takes),
    ensures
        !disabled ==> r.0 == WatcherStart::Start && r.1 == WatcherStart::Replace,
        disabled ==> r.0 == WatcherStart::Disabled && r.1 == WatcherStart::Start,
        takes == !disabled,
{
}

} // verus!
