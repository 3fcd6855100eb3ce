//! Motion of a Windows machine on its way to the peer: collected, and sent at
//! the rate that the user has set.

use crate::arith;
use crate::input::events::InputEvent;
use crate::input::Effect;
use vstd::prelude::*;

verus! {

/// The two clocks that the capture code reads: wall time in milliseconds, and
/// a monotonic time in microseconds that is never zero.
#[derive(Debug, Clone, Copy, PartialEq, Eq, Structural)]
pub struct Clock {
    pub ms: u64,
    pub us: u64,
}

/// Motion that was not sent yet, and when it is due.
#[derive(Debug, Clone, Copy, PartialEq, Eq, Structural)]
pub struct MotionQueue {
    pub pending_dx: i32,
    pub pending_dy: i32,
    pub last_flush_ms: u64,
    pub last_flush_us: u64,
    /// When the pending motion is due; 0 is no time.
    pub next_flush_deadline_us: u64,
    /// Whether the thread that sends collected motion runs.
    pub watchdog: bool,
    /// How many motion packets were sent.
    pub sent: u64,
}

impl MotionQueue {
    /// Nothing is pending and nothing was ever sent.
    pub open spec fn idle(self) -> bool {
        self == (MotionQueue {
            pending_dx: 0,
            pending_dy: 0,
            last_flush_ms: 0,
            last_flush_us: 0,
            next_flush_deadline_us: 0,
            watchdog: false,
            sent: 0,
        })
    }

    pub fn new() -> (r: Self)
        ensures
            r.idle(),
    {
        MotionQueue {
            pending_dx: 0,
            pending_dy: 0,
            last_flush_ms: 0,
            last_flush_us: 0,
            next_flush_deadline_us: 0,
            watchdog: false,
            sent: 0,
        }
    }

    /// Whether motion waits to be sent.
    pub open spec fn pending(self) -> bool {
        self.pending_dx != 0 || self.pending_dy != 0
    }

    /// The queue after the pending motion was sent.
    pub open spec fn flushed(self, now: Clock) -> MotionQueue {
        if !self.pending() {
            self
        } else {
            MotionQueue {
                pending_dx: 0,
                pending_dy: 0,
                last_flush_us: now.us,
                last_flush_ms: now.ms,
                sent: self.sent.wrapping_add(1),
                ..self
            }
        }
    }

    /// One combined motion for all that is pending, nothing when nothing is.
    pub open spec fn flush_effects(self) -> Seq<Effect> {
        if !self.pending() {
            Seq::empty()
        } else {
            seq![
                Effect::Forward(InputEvent::MouseMove { dx: self.pending_dx, dy: self.pending_dy }),
            ]
        }
    }

    /// When motion that became pending at `now_us` is due: at once if the last
    /// packet is an interval ago, else one interval after it.
    pub open spec fn due_at(self, flush_us: u64, now_us: u64) -> u64 {
        if self.last_flush_us == 0 || arith::elapsed(now_us, self.last_flush_us) >= flush_us {
            now_us
        } else if self.last_flush_us + flush_us > u64::MAX {
            u64::MAX
        } else {
            (self.last_flush_us + flush_us) as u64
        }
    }

    /// Whether the pending motion is due.
    pub open spec fn due(self, now_us: u64) -> bool {
        self.next_flush_deadline_us != 0 && now_us >= self.next_flush_deadline_us
    }

    /// The queue with more motion in it.
    pub open spec fn with(self, dx: i32, dy: i32) -> MotionQueue {
        MotionQueue {
            pending_dx: self.pending_dx.wrapping_add(dx),
            pending_dy: self.pending_dy.wrapping_add(dy),
            ..self
        }
    }

    /// Whether motion waits and no time is set at which it is due.
    pub open spec fn unarmed(self) -> bool {
        self.pending() && self.next_flush_deadline_us == 0
    }

    /// The queue with a time set at which waiting motion is due.
    pub open spec fn armed(self, flush_us: u64, now_us: u64) -> MotionQueue {
        if self.unarmed() {
            MotionQueue { next_flush_deadline_us: self.due_at(flush_us, now_us), ..self }
        } else {
            self
        }
    }

    /// The queue after what is due was sent, and what that sends.
    pub open spec fn settled(self, now: Clock) -> MotionQueue {
        if self.due(now.us) {
            (MotionQueue { next_flush_deadline_us: 0, ..self }).flushed(now)
        } else {
            self
        }
    }

    pub open spec fn settle_effects(self, now: Clock) -> Seq<Effect> {
        if self.due(now.us) {
            self.flush_effects()
        } else {
            Seq::empty()
        }
    }

    /// A wake-up of the sending thread, if it runs.
    pub open spec fn wake_effects(self) -> Seq<Effect> {
        if self.watchdog {
            seq![Effect::WakeFlushWatchdog]
        } else {
            Seq::empty()
        }
    }

    /// What adding motion to the queue sends or wakes.
    pub open spec fn queue_effects(self, flush_us: u64, dx: i32, dy: i32, now: Clock) -> Seq<
        Effect,
    > {
        let full = self.with(dx, dy).armed(flush_us, now.us);
        if full.due(now.us) {
            full.flush_effects()
        } else if self.with(dx, dy).unarmed() {
            self.wake_effects()
        } else {
            Seq::empty()
        }
    }
}

/// Sends the pending motion.
pub fn flush_pending_motion(q: &mut MotionQueue, now: Clock, out: &mut Vec<Effect>)
    ensures
        *final(q) == old(q).flushed(now),
        final(out)@ == old(out)@ + old(q).flush_effects(),
{
    let dx: i32 = q.pending_dx;
    let dy: i32 = q.pending_dy;
    if dx == 0 && dy == 0 {
        assert(out@ =~= old(out)@ + old(q).flush_effects());
        return ;
    }
    q.pending_dx = 0;
    q.pending_dy = 0;
    q.last_flush_us = now.us;
    q.last_flush_ms = now.ms;
    out.push(Effect::Forward(InputEvent::MouseMove { dx, dy }));
    q.sent = q.sent.wrapping_add(1);
    assert(out@ =~= old(out)@ + old(q).flush_effects());
}

/// Whether motion waits to be sent.
pub fn pending_motion_exists(q: &MotionQueue) -> (r: bool)
    ensures
        r == q.pending(),
{
    q.pending_dx != 0 || q.pending_dy != 0
}

/// Sets the time at which pending motion is due, unless one is set; tells
/// whether it did.
pub fn arm_pending_motion(q: &mut MotionQueue, flush_us: u64, now_us: u64) -> (armed: bool)
    ensures
        armed == old(q).unarmed(),
        *final(q) == old(q).armed(flush_us, now_us),
{
    if !pending_motion_exists(q) || q.next_flush_deadline_us != 0 {
        return false;
    }
    let last: u64 = q.last_flush_us;
    let deadline: u64 = if last == 0 || now_us.saturating_sub(last) >= flush_us {
        now_us
    } else {
        last.saturating_add(flush_us)
    };
    q.next_flush_deadline_us = deadline;
    true
}

/// Wakes the sending thread, if it runs.
pub fn wake_motion_flush_watchdog(q: &MotionQueue, out: &mut Vec<Effect>)
    ensures
        final(out)@ == old(out)@ + q.wake_effects(),
{
    if q.watchdog {
        out.push(Effect::WakeFlushWatchdog);
    }
    assert(out@ =~= old(out)@ + q.wake_effects());
}

/// Sends the pending motion if it is due; tells whether it was.
pub fn flush_pending_motion_if_due(q: &mut MotionQueue, now: Clock, out: &mut Vec<Effect>) -> (r:
    bool)
    ensures
        r == old(q).due(now.us),
        *final(q) == old(q).settled(now),
        final(out)@ == old(out)@ + old(q).settle_effects(now),
{
    let deadline: u64 = q.next_flush_deadline_us;
    if deadline == 0 || now.us < deadline {
        assert(out@ =~= old(out)@ + old(q).settle_effects(now));
        return false;
    }
    q.next_flush_deadline_us = 0;
    flush_pending_motion(q, now, out);
    true
}

/// Adds motion to what is pending. Motion that is due is sent; motion that is
/// the first of its interval wakes the sending thread instead.
pub fn queue_pending_motion(
    q: &mut MotionQueue,
    flush_us: u64,
    dx: i32,
    dy: i32,
    now: Clock,
    out: &mut Vec<Effect>,
)
    ensures
        dx == 0 && dy == 0 ==> *final(q) == *old(q) && final(out)@ == old(out)@,
        dx != 0 || dy != 0 ==> *final(q) == old(q).with(dx, dy).armed(flush_us, now.us).settled(now)
            && final(out)@ == old(out)@ + old(q).queue_effects(flush_us, dx, dy, now),
{
    if dx == 0 && dy == 0 {
        return ;
    }
    q.pending_dx = q.pending_dx.wrapping_add(dx);
    q.pending_dy = q.pending_dy.wrapping_add(dy);
    let newly_armed = arm_pending_motion(q, flush_us, now.us);
    let sent = flush_pending_motion_if_due(q, now, out);
    if newly_armed && !sent {
        wake_motion_flush_watchdog(q, out);
    }
    assert(out@ =~= old(out)@ + old(q).queue_effects(flush_us, dx, dy, now));
}

/// A pause of this length resets a depth that has gone negative.
pub const REMOTE_IDLE_SNAP_MS: u64 = 1_000;

/// Whether a depth that has gone negative is reset: after a pause, if motion
/// was ever sent.
pub open spec fn snaps(virt_x: i32, last_flush: u64, now: u64) -> bool {
    virt_x < 0 && last_flush != 0 && arith::elapsed(now, last_flush) >= REMOTE_IDLE_SNAP_MS
}

pub fn should_snap_virt_x(virt_x: i32, last_flush: u64, now: u64) -> (r: bool)
    ensures
        r == snaps(virt_x, last_flush, now),
{
    virt_x < 0 && last_flush != 0 && now.saturating_sub(last_flush) >= REMOTE_IDLE_SNAP_MS
}

/// How long the sending thread waits for the next round, in microseconds: for
/// the motion that is pending, or for the pause that resets the depth.
pub fn motion_watchdog_wait_us(q: &MotionQueue, now_us: u64) -> (r: u64)
    ensures
        r == if q.next_flush_deadline_us != 0 {
            arith::elapsed(q.next_flush_deadline_us, now_us)
        } else {
            REMOTE_IDLE_SNAP_MS * 1000
        },
{
    if q.next_flush_deadline_us != 0 {
        q.next_flush_deadline_us.saturating_sub(now_us)
    } else {
        REMOTE_IDLE_SNAP_MS * 1000
    }
}

/// The motion on both axes that a sequence of effects sends to the peer.
pub open spec fn motion_sent(effects: Seq<Effect>) -> (int, int)
    decreases effects.len(),
{
    if effects.len() == 0 {
        (0, 0)
    } else {
        let rest = motion_sent(effects.drop_last());
        match effects.last() {
            Effect::Forward(InputEvent::MouseMove { dx, dy }) => (rest.0 + dx, rest.1 + dy),
            _ => rest,
        }
    }
}

/// No motion is lost and none is sent twice: what was pending and what is
/// added equals what is sent and what is pending afterwards, as long as the
/// sums fit their type.
pub proof fn queued_motion_is_conserved(q: MotionQueue, flush_us: u64, dx: i32, dy: i32, now: Clock)
    requires
        i32::MIN <= q.pending_dx + dx <= i32::MAX,
        i32::MIN <= q.pending_dy + dy <= i32::MAX,
    ensures
        ({
            let after = q.with(dx, dy).armed(flush_us, now.us).settled(now);
            let sent = motion_sent(q.queue_effects(flush_us, dx, dy, now));
            &&& sent.0 + after.pending_dx == q.pending_dx + dx
            &&& sent.1 + after.pending_dy == q.pending_dy + dy
        }),
{
    reveal_with_fuel(motion_sent, 2);
    let effects = q.queue_effects(flush_us, dx, dy, now);
    if effects.len() > 0 {
        assert(effects.drop_last() =~= Seq::empty());
    }
}

/// Pending motion always has a time at which it is due, so none is stranded:
/// every operation of the queue keeps this.
pub proof fn pending_motion_is_always_armed(
    q: MotionQueue,
    flush_us: u64,
    dx: i32,
    dy: i32,
    now: Clock,
)
    requires
        !q.unarmed(),
        now.us > 0,
    ensures
        !q.with(dx, dy).armed(flush_us, now.us).settled(now).unarmed(),
        !q.settled(now).unarmed(),
{
}

/// Two packets are at least one interval apart: motion that arrives within an
/// interval of the last packet is not due before the interval is over.
pub proof fn packets_keep_the_set_rate(
    q: MotionQueue,
    flush_us: u64,
    dx: i32,
    dy: i32,
    now: Clock,
)
    requires
        q.next_flush_deadline_us == 0,
        q.last_flush_us != 0,
        q.last_flush_us <= now.us,
        q.last_flush_us + flush_us <= u64::MAX,
    ensures
        now.us < q.last_flush_us + flush_us ==> motion_sent(
            q.queue_effects(flush_us, dx, dy, now),
        ) == (0int, 0int),
{
    reveal_with_fuel(motion_sent, 2);
    let effects = q.queue_effects(flush_us, dx, dy, now);
    if effects.len() > 0 {
        assert(effects.drop_last() =~= Seq::empty());
    }
}

/// Motion is sent with all that was pending when it is due and waits until then.
/// The first packet is due at once, and the next one an interval after it.
pub proof fn motion_is_sent_when_it_is_due(
    q: &mut MotionQueue,
    flush_us: u64,
    dx: i32,
    dy: i32,
    now: Clock,
    out: &mut Vec<Effect>,
)
    requires
        call_ensures(queue_pending_motion, (q, flush_us, dx, dy, now, out), ()),
        old(q).pending_dx == 0 && old(q).pending_dy == 0 && old(q).next_flush_deadline_us == 0,
        dx != 0 || dy != 0,
        0 < now.us,
        old(q).last_flush_us <= now.us,
        old(q).last_flush_us + flush_us <= u64::MAX,
    ensures
        old(q).last_flush_us == 0 || now.us - old(q).last_flush_us >= flush_us ==> {
            &&& final(out)@ == old(out)@.push(Effect::Forward(InputEvent::MouseMove { dx, dy }))
            &&& final(q).pending_dx == 0 && final(q).pending_dy == 0
            &&& final(q).last_flush_us == now.us
        },
        old(q).last_flush_us != 0 && now.us - old(q).last_flush_us < flush_us ==> {
            &&& final(q).pending_dx == dx && final(q).pending_dy == dy
            &&& final(q).next_flush_deadline_us == old(q).last_flush_us + flush_us
            &&& forall|i: int|
                old(out)@.len() <= i < final(out)@.len() ==> !((#[trigger] final(out)@[i]) is Forward)
        },
{
    let sent = Effect::Forward(InputEvent::MouseMove { dx, dy });
    assert(old(out)@.push(sent) =~= old(out)@ + seq![sent]);
    assert(old(q).with(dx, dy).pending_dx == dx);
    assert(old(q).with(dx, dy).pending_dy == dy);
}

/// What waits is sent in one packet as soon as its time has come, and not before.
pub proof fn waiting_motion_is_sent_in_one_packet(
    q: &mut MotionQueue,
    now: Clock,
    out: &mut Vec<Effect>,
    r: bool,
)
    requires
        call_ensures(flush_pending_motion_if_due, (q, now, out), r),
        old(q).pending_dx != 0 || old(q).pending_dy != 0,
        old(q).next_flush_deadline_us > 0,
    ensures
        r <==> now.us >= old(q).next_flush_deadline_us,
        r ==> final(out)@ == old(out)@.push(
            Effect::Forward(
                InputEvent::MouseMove { dx: old(q).pending_dx, dy: old(q).pending_dy },
            ),
        ) && final(q).pending_dx == 0 && final(q).pending_dy == 0 && final(q).last_flush_us == now.us
            && final(q).last_flush_ms == now.ms && final(q).next_flush_deadline_us == 0,
        !r ==> *final(q) == *old(q) && final(out)@ == old(out)@,
{
    let sent = Effect::Forward(
        InputEvent::MouseMove { dx: old(q).pending_dx, dy: old(q).pending_dy },
    );
    assert(old(out)@.push(sent) =~= old(out)@ + seq![sent]);
    assert(old(out)@ + Seq::<Effect>::empty() =~= old(out)@);
}

/// The thread that sends waits until the motion is due and not longer, and a
/// second at most where none is.
pub proof fn the_sending_thread_wakes_in_time(q: &MotionQueue, now_us: u64, r: u64)
    requires
        call_ensures(motion_watchdog_wait_us, (q, now_us), r),
    ensures
        q.next_flush_deadline_us > now_us ==> now_us + r == q.next_flush_deadline_us,
        0 < q.next_flush_deadline_us <= now_us ==> r == 0,
        q.next_flush_deadline_us == 0 ==> r == 1_000_000,
{
}

/// A cursor that was pulled back a little and then left alone for a second counts
/// as at the edge again; a deeper one stays where it is.
pub proof fn a_pause_forgets_a_half_return(virt_x: i32, last: u64, now: u64, r: bool)
    requires
        call_ensures(should_snap_virt_x, (virt_x, last, now), r),
        0 < last <= now,
    ensures
        r <==> virt_x < 0 && now - last >= 1_000,
{
}

} // verus!
