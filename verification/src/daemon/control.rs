//! The messages of the control channel.

use vstd::prelude::*;

verus! {

/// A message of the encrypted control channel.
pub enum ControlMsg {
    /// The sender's mouse has come to the receiver's screen.
    TakeControl,
    /// It has gone back.
    ReleaseControl,
    /// The receiver's mouse has to come back from the sender's screen.
    ForceRelease,
    /// The sender starts or stops driving a game on the receiver.
    GameDrive { active: bool },
    /// The text of the sender's clipboard has changed.
    ClipboardText(String),
    /// An image in the sender's clipboard: its shape, then its pixels, then
    /// that there are no more.
    ClipboardImageStart { id: u64, width: u32, height: u32, total_bytes: u64 },
    ClipboardImageChunk { id: u64, offset: u64, data: Vec<u8> },
    ClipboardImageEnd { id: u64 },
    /// Asks for an answer, to measure how long it takes. The time is the
    /// sender's.
    Ping { ts_ms: u64 },
    /// The answer, with the time that was asked with.
    Pong { ts_ms: u64 },
    FileOffer { id: u64, name: String, size_bytes: u64 },
    FileChunk { id: u64, offset: u64, data: Vec<u8> },
    FileEnd { id: u64, sha256: [u8; 32] },
    FileCancel { id: u64 },
}

} // verus!
