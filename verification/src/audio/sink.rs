//! The way of a frame from the thread that captures it to the session.

use crate::audio::AudioFrame;
use vstd::prelude::*;

verus! {

/// The sending end of a bounded queue, `tokio::sync::mpsc::Sender`.
#[verifier::external_type_specification]
#[verifier::external_body]
#[verifier::reject_recursive_types(T)]
pub struct ExSender<T>(tokio::sync::mpsc::Sender<T>);

/// What became of a frame that was put into the queue.
#[derive(Debug, Clone, Copy, PartialEq, Eq, Structural)]
pub enum SendOutcome {
    Queued,
    /// The queue was full, and the frame is lost.
    Full,
    /// Nobody reads the queue any more.
    Closed,
}

/// `tokio::sync::mpsc::Sender::try_send` puts a value into the queue without
/// waiting. Which of the three it answers depends on what the reading end does
/// at the time, and so nothing is claimed of that.
#[verifier::external_body]
fn try_send(tx: &tokio::sync::mpsc::Sender<AudioFrame>, frame: AudioFrame) -> (r: SendOutcome) {
    match tx.try_send(frame) {
        Ok(()) => SendOutcome::Queued,
        Err(tokio::sync::mpsc::error::TrySendError::Full(_)) => SendOutcome::Full,
        Err(tokio::sync::mpsc::error::TrySendError::Closed(_)) => SendOutcome::Closed,
    }
}

/// Whether the capture goes on: only a queue that nobody reads ends it. A full
/// queue loses the frame, since old sound must not pile up.
pub fn goes_on(outcome: SendOutcome) -> (r: bool)
    ensures
        r == (outcome != SendOutcome::Closed),
{
    match outcome {
        SendOutcome::Queued | SendOutcome::Full => true,
        SendOutcome::Closed => false,
    }
}

/// Where captured frames go. `active` tells whether anybody wants them.
pub struct CaptureSink<F: Fn() -> bool> {
    tx: tokio::sync::mpsc::Sender<AudioFrame>,
    active: F,
}

impl<F: Fn() -> bool> CaptureSink<F> {
    /// The question that tells whether frames are wanted.
    pub closed spec fn demand(self) -> F {
        self.active
    }

    /// The queue that frames go into.
    pub closed spec fn queue(self) -> tokio::sync::mpsc::Sender<AudioFrame> {
        self.tx
    }

    pub fn new(tx: tokio::sync::mpsc::Sender<AudioFrame>, active: F) -> (r: Self)
        ensures
            r.demand() == active,
            r.queue() == tx,
    {
        CaptureSink { tx, active }
    }

    /// Tells whether frames are wanted at this moment.
    pub fn is_active(&self) -> (r: bool)
        requires
            self.demand().requires(()),
        ensures
            self.demand().ensures((), r),
    {
        (self.active)()
    }

    /// Whether this can become of a frame that is put into this queue.
    pub closed spec fn put(self, frame: AudioFrame, outcome: SendOutcome) -> bool {
        call_ensures(try_send, (&self.tx, frame), outcome)
    }

    /// Hands a frame over; tells whether the capture goes on, as [`goes_on`]
    /// says for what became of the frame. Which of the three it is rests with
    /// the reading end of the queue.
    pub fn send_lossy(&self, frame: AudioFrame) -> (r: bool)
        ensures
            exists|outcome: SendOutcome| #[trigger]
                self.put(frame, outcome) && r == (outcome != SendOutcome::Closed),
    {
        let outcome = try_send(&self.tx, frame);
        assert(self.put(frame, outcome));
        goes_on(outcome)
    }
}

} // verus!
