//! Playing the sound of the peer: when the output stream is built again, and
//! what becomes of a frame while there is none.
//!
//! The thread that owns the stream asks [`CpalPlayback`] before each wait for
//! a frame, and tells it of each frame.

use crate::arith;
use crate::audio::{CHANNELS, SAMPLE_RATE};
use vstd::prelude::*;

verus! {

/// How long a failed attempt to build the stream holds off the next one.
pub const RETRY_BACKOFF_MS: u64 = 3_000;

/// How often a live stream is looked at.
pub const WATCHDOG_INTERVAL_MS: u64 = 500;

/// How often dropped frames are reported.
pub const DROP_WARNING_MS: u64 = 2_000;

/// How long the thread waits for a frame.
pub const FRAME_WAIT_MS: u64 = 200;

/// What the playback thread remembers.
#[derive(Debug, Clone, Copy, PartialEq, Eq, Structural)]
pub struct CpalPlayback {
    pub has_stream: bool,
    /// The selection of the device that the stream was last built for.
    pub last_version: u64,
    pub next_build_attempt_ms: u64,
    pub dropped_frames: u64,
    pub last_drop_warning_ms: u64,
    pub last_watchdog_ms: u64,
    /// How often the device had asked for samples when the watchdog last
    /// looked.
    pub last_ticks: u64,
    pub frames_since_watchdog: u64,
}

/// What became of a frame that was decoded.
#[derive(Debug, Clone, Copy, PartialEq, Eq, Structural)]
pub enum FrameOutcome {
    /// Its samples go to the stream.
    Play,
    /// Its samples go to the stream, which is then given up: frames arrive and
    /// the device does not ask for them.
    PlayAndDropStream,
    /// There is no stream, and it is lost.
    Lost,
    /// It is lost, and that many frames have been since the last report.
    LostAndReport { count: u64 },
}

/// How a thread starts: without a stream, which is built at once.
pub open spec fn fresh(version: u64, now_ms: u64) -> CpalPlayback {
    CpalPlayback {
        has_stream: false,
        last_version: version,
        next_build_attempt_ms: now_ms,
        dropped_frames: 0,
        last_drop_warning_ms: now_ms,
        last_watchdog_ms: now_ms,
        last_ticks: 0,
        frames_since_watchdog: 0,
    }
}

/// Whether the stream has to be built: there is none, it was built for another
/// selection, or the device reported an error.
pub open spec fn wants_stream(p: CpalPlayback, version: u64, errored: bool) -> bool {
    !p.has_stream || version != p.last_version || errored
}

/// Whether the stream is built now.
pub open spec fn builds_now(p: CpalPlayback, version: u64, errored: bool, now_ms: u64) -> bool {
    wants_stream(p, version, errored) && now_ms >= p.next_build_attempt_ms
}

/// The state once a stream was built for a selection.
pub open spec fn after_build(p: CpalPlayback, version: u64, ticks: u64, now_ms: u64) -> CpalPlayback {
    CpalPlayback {
        has_stream: true,
        last_version: version,
        last_ticks: ticks,
        last_watchdog_ms: now_ms,
        frames_since_watchdog: 0,
        ..p
    }
}

/// The state once building failed: the same selection is not tried again
/// before the wait is over.
pub open spec fn after_failed_build(p: CpalPlayback, version: u64, now_ms: u64) -> CpalPlayback {
    CpalPlayback {
        last_version: version,
        next_build_attempt_ms: if now_ms + RETRY_BACKOFF_MS <= u64::MAX {
            (now_ms + RETRY_BACKOFF_MS) as u64
        } else {
            u64::MAX
        },
        ..p
    }
}

/// Whether the watchdog looks at the stream.
pub open spec fn watchdog_due(p: CpalPlayback, now_ms: u64) -> bool {
    arith::elapsed(now_ms, p.last_watchdog_ms) >= WATCHDOG_INTERVAL_MS
}

/// Whether the device has stopped: frames came and it asked for none.
pub open spec fn stalled(p: CpalPlayback, ticks: u64, now_ms: u64) -> bool {
    watchdog_due(p, now_ms) && p.frames_since_watchdog.wrapping_add(1) > 0 && ticks == p.last_ticks
}

/// The state after a frame.
pub open spec fn after_frame(p: CpalPlayback, ticks: u64, now_ms: u64) -> CpalPlayback {
    if p.has_stream {
        if stalled(p, ticks, now_ms) {
            CpalPlayback {
                has_stream: false,
                next_build_attempt_ms: now_ms,
                last_watchdog_ms: now_ms,
                frames_since_watchdog: 0,
                ..p
            }
        } else if watchdog_due(p, now_ms) {
            CpalPlayback {
                last_ticks: ticks,
                last_watchdog_ms: now_ms,
                frames_since_watchdog: 0,
                ..p
            }
        } else {
            CpalPlayback { frames_since_watchdog: p.frames_since_watchdog.wrapping_add(1), ..p }
        }
    } else if drop_report_due(p, now_ms) {
        CpalPlayback { dropped_frames: 0, last_drop_warning_ms: now_ms, ..p }
    } else {
        CpalPlayback { dropped_frames: p.dropped_frames.wrapping_add(1), ..p }
    }
}

/// Whether lost frames are reported again.
pub open spec fn drop_report_due(p: CpalPlayback, now_ms: u64) -> bool {
    arith::elapsed(now_ms, p.last_drop_warning_ms) >= DROP_WARNING_MS
}

/// What becomes of a frame.
pub open spec fn frame_outcome(p: CpalPlayback, ticks: u64, now_ms: u64) -> FrameOutcome {
    if p.has_stream {
        if stalled(p, ticks, now_ms) {
            FrameOutcome::PlayAndDropStream
        } else {
            FrameOutcome::Play
        }
    } else if drop_report_due(p, now_ms) {
        FrameOutcome::LostAndReport { count: p.dropped_frames.wrapping_add(1) }
    } else {
        FrameOutcome::Lost
    }
}

impl CpalPlayback {
    /// The thread starts at `now_ms`, under the current selection.
    pub fn new(version: u64, now_ms: u64) -> (r: Self)
        ensures
            r == fresh(version, now_ms),
    {
        CpalPlayback {
            has_stream: false,
            last_version: version,
            next_build_attempt_ms: now_ms,
            dropped_frames: 0,
            last_drop_warning_ms: now_ms,
            last_watchdog_ms: now_ms,
            last_ticks: 0,
            frames_since_watchdog: 0,
        }
    }

    /// Tells whether the stream is to be built, at the head of each round. The
    /// old stream is given up first. `errored` is what the device reported of
    /// it.
    pub fn needs_build(&mut self, version: u64, errored: bool, now_ms: u64) -> (r: bool)
        ensures
            r == builds_now(*old(self), version, old(self).has_stream && errored, now_ms),
            *final(self) == (if r {
                CpalPlayback { has_stream: false, ..*old(self) }
            } else {
                *old(self)
            }),
    {
        let failed = self.has_stream && errored;
        if (!self.has_stream || version != self.last_version || failed) && now_ms
            >= self.next_build_attempt_ms {
            self.has_stream = false;
            true
        } else {
            false
        }
    }

    /// Takes note of an attempt to build the stream: how often the device has
    /// asked the new one for samples, or that there is none.
    pub fn built(&mut self, version: u64, ticks: Option<u64>, now_ms: u64)
        ensures
            *final(self) == match ticks {
                Some(t) => after_build(*old(self), version, t, now_ms),
                None => after_failed_build(*old(self), version, now_ms),
            },
    {
        self.last_version = version;
        match ticks {
            Some(t) => {
                self.has_stream = true;
                self.last_ticks = t;
                self.last_watchdog_ms = now_ms;
                self.frames_since_watchdog = 0;
            },
            None => {
                self.next_build_attempt_ms = now_ms.saturating_add(RETRY_BACKOFF_MS);
            },
        }
    }

    /// Takes a decoded frame. `ticks` tells how often the device has asked for
    /// samples.
    pub fn on_frame(&mut self, ticks: u64, now_ms: u64) -> (r: FrameOutcome)
        ensures
            r == frame_outcome(*old(self), ticks, now_ms),
            *final(self) == after_frame(*old(self), ticks, now_ms),
    {
        if self.has_stream {
            self.frames_since_watchdog = self.frames_since_watchdog.wrapping_add(1);
            if now_ms.saturating_sub(self.last_watchdog_ms) >= WATCHDOG_INTERVAL_MS {
                if self.frames_since_watchdog > 0 && ticks == self.last_ticks {
                    self.has_stream = false;
                    self.next_build_attempt_ms = now_ms;
                    self.last_watchdog_ms = now_ms;
                    self.frames_since_watchdog = 0;
                    return FrameOutcome::PlayAndDropStream;
                }
                self.last_ticks = ticks;
                self.last_watchdog_ms = now_ms;
                self.frames_since_watchdog = 0;
            }
            FrameOutcome::Play
        } else {
            self.dropped_frames = self.dropped_frames.wrapping_add(1);
            if now_ms.saturating_sub(self.last_drop_warning_ms) >= DROP_WARNING_MS {
                let count: u64 = self.dropped_frames;
                self.dropped_frames = 0;
                self.last_drop_warning_ms = now_ms;
                FrameOutcome::LostAndReport { count }
            } else {
                FrameOutcome::Lost
            }
        }
    }
}

/// A stream whose device stops asking for samples is built again in the next
/// round, whatever was selected.
pub proof fn a_silent_device_is_reopened(p: CpalPlayback, ticks: u64, version: u64, now_ms: u64)
    requires
        p.has_stream,
        stalled(p, ticks, now_ms),
    ensures
        builds_now(after_frame(p, ticks, now_ms), version, false, now_ms),
{
}

/// Within the wait after a failed attempt no other attempt is made, whatever
/// is selected and whatever the device reports.
pub proof fn a_broken_device_is_not_tried_in_haste(
    p: CpalPlayback,
    version: u64,
    now_ms: u64,
    other: u64,
    errored: bool,
    later_ms: u64,
)
    requires
        now_ms <= later_ms < now_ms + RETRY_BACKOFF_MS,
        now_ms + RETRY_BACKOFF_MS <= u64::MAX,
    ensures
        !builds_now(after_failed_build(p, version, now_ms), other, errored, later_ms),
{
}

/// A choice of another device reaches a live stream in the next round.
pub proof fn a_new_selection_rebuilds(p: CpalPlayback, version: u64, now_ms: u64)
    requires
        version != p.last_version,
        now_ms >= p.next_build_attempt_ms,
    ensures
        builds_now(p, version, false, now_ms),
{
}

/// How a device stores samples.
#[derive(Debug, Clone, Copy, PartialEq, Eq, Structural)]
pub enum SampleFormat {
    F32,
    I16,
    I32,
    Other,
}

/// A range of configurations that a device supports.
#[derive(Debug, Clone, Copy, PartialEq, Eq, Structural)]
pub struct ConfigRange {
    pub channels: u16,
    pub min_sample_rate: u32,
    pub max_sample_rate: u32,
    pub format: SampleFormat,
}

/// Whether a range holds the rate and the channels that sound travels in.
pub open spec fn carries(c: ConfigRange) -> bool {
    c.channels == CHANNELS && c.min_sample_rate <= SAMPLE_RATE <= c.max_sample_rate
}

/// Whether it also stores samples as they are decoded.
pub open spec fn carries_plainly(c: ConfigRange) -> bool {
    carries(c) && c.format == SampleFormat::F32
}

/// Whether an index is that of the first range that carries sound.
pub open spec fn first_carrying(s: Seq<ConfigRange>, i: int) -> bool {
    &&& 0 <= i < s.len()
    &&& carries(s[i])
    &&& forall|j: int| 0 <= j < i ==> !carries(#[trigger] s[j])
}

/// Whether it is that of the first one that carries it plainly.
pub open spec fn first_carrying_plainly(s: Seq<ConfigRange>, i: int) -> bool {
    &&& 0 <= i < s.len()
    &&& carries_plainly(s[i])
    &&& forall|j: int| 0 <= j < i ==> !carries_plainly(#[trigger] s[j])
}

/// Whether one of the ranges carries sound plainly.
pub open spec fn some_carries_plainly(s: Seq<ConfigRange>) -> bool {
    exists|k: int| 0 <= k < s.len() && carries_plainly(#[trigger] s[k])
}

/// Whether none of them carries it at all.
pub open spec fn none_carries(s: Seq<ConfigRange>) -> bool {
    forall|k: int| 0 <= k < s.len() ==> !carries(#[trigger] s[k])
}

/// Whether an index is that of the first range with some quality.
pub open spec fn first_with(s: Seq<ConfigRange>, quality: spec_fn(ConfigRange) -> bool, i: int) -> bool {
    &&& 0 <= i < s.len()
    &&& quality(s[i])
    &&& forall|j: int| 0 <= j < i ==> !quality(#[trigger] s[j])
}

/// Picks a configuration: the first that fits and needs no conversion, else
/// the first that fits. Without one the default of the device is used.
pub fn pick_config(supported: &[ConfigRange]) -> (r: Option<usize>)
    ensures
        match r {
            Some(i) => if exists|k: int| 0 <= k < supported@.len() && carries_plainly(#[trigger] supported@[k]) {
                first_with(supported@, |c: ConfigRange| carries_plainly(c), i as int)
            } else {
                first_with(supported@, |c: ConfigRange| carries(c), i as int)
            },
            None => forall|k: int| 0 <= k < supported@.len() ==> !carries(#[trigger] supported@[k]),
        },
        r matches Some(i) ==> if some_carries_plainly(supported@) {
            first_carrying_plainly(supported@, i as int)
        } else {
            first_carrying(supported@, i as int)
        },
        r is None ==> none_carries(supported@),
{
    let mut i: usize = 0;
    let mut fallback: Option<usize> = None;
    while i < supported.len()
        invariant
            i <= supported@.len(),
            forall|k: int| 0 <= k < i ==> !carries_plainly(#[trigger] supported@[k]),
            match fallback {
                Some(f) => f < i && first_with(supported@, |c: ConfigRange| carries(c), f as int),
                None => forall|k: int| 0 <= k < i ==> !carries(#[trigger] supported@[k]),
            },
        decreases supported@.len() - i,
    {
        let c = supported[i];
        if c.channels == CHANNELS && c.min_sample_rate <= SAMPLE_RATE && SAMPLE_RATE
            <= c.max_sample_rate {
            if c.format == SampleFormat::F32 {
                assert(carries_plainly(supported@[i as int]));
                assert(first_with(supported@, |c: ConfigRange| carries_plainly(c), i as int));
                return Some(i);
            }
            if fallback.is_none() {
                fallback = Some(i);
                assert(first_with(supported@, |c: ConfigRange| carries(c), i as int));
            }
        }
        i = i + 1;
    }
    fallback
}

/// Whether samples can be written in a format.
pub fn can_play(format: SampleFormat) -> (r: bool)
    ensures
        r == (format == SampleFormat::F32 || format == SampleFormat::I16),
{
    match format {
        SampleFormat::F32 | SampleFormat::I16 => true,
        SampleFormat::I32 | SampleFormat::Other => false,
    }
}

/// A frame that comes while a device is open is played, and one that comes while
/// none is is lost.
pub proof fn frames_are_played_on_an_open_device(
    p: &mut CpalPlayback,
    ticks: u64,
    now_ms: u64,
    r: FrameOutcome,
)
    requires
        call_ensures(CpalPlayback::on_frame, (p, ticks, now_ms), r),
    ensures
        old(p).has_stream <==> r == FrameOutcome::Play || r == FrameOutcome::PlayAndDropStream,
        r == FrameOutcome::Play ==> final(p).has_stream,
        r == FrameOutcome::PlayAndDropStream ==> !final(p).has_stream,
        !old(p).has_stream ==> !final(p).has_stream,
{
}

/// A device is given up exactly where half a second has passed since it was last
/// looked at and it has asked for nothing since then; a device that goes on asking
/// is never given up.
pub proof fn only_a_silent_device_is_given_up(
    p: &mut CpalPlayback,
    ticks: u64,
    now_ms: u64,
    r: FrameOutcome,
)
    requires
        call_ensures(CpalPlayback::on_frame, (p, ticks, now_ms), r),
        old(p).has_stream,
        old(p).last_watchdog_ms <= now_ms,
        old(p).frames_since_watchdog < u64::MAX,
    ensures
        r == FrameOutcome::PlayAndDropStream <==> now_ms - old(p).last_watchdog_ms >= 500 && ticks
            == old(p).last_ticks,
        now_ms - old(p).last_watchdog_ms < 500 ==> final(p).last_ticks == old(p).last_ticks
            && final(p).last_watchdog_ms == old(p).last_watchdog_ms,
        now_ms - old(p).last_watchdog_ms >= 500 && ticks != old(p).last_ticks ==> final(p).last_ticks == ticks && final(p).last_watchdog_ms == now_ms,
{
}

/// Every lost frame is reported, two seconds after the last report at the
/// earliest.
pub proof fn lost_frames_are_reported(
    p: (&mut CpalPlayback, &mut CpalPlayback),
    ticks: u64,
    now_ms: (u64, u64),
    r: (FrameOutcome, FrameOutcome),
)
    requires
        call_ensures(CpalPlayback::on_frame, (p.0, ticks, now_ms.0), r.0),
        *old(p.1) == *final(p.0),
        call_ensures(CpalPlayback::on_frame, (p.1, ticks, now_ms.1), r.1),
        !old(p.0).has_stream,
        old(p.0).dropped_frames < 1_000_000,
        old(p.0).last_drop_warning_ms <= now_ms.0 <= now_ms.1,
    ensures
        r.0 is LostAndReport <==> now_ms.0 - old(p.0).last_drop_warning_ms >= 2_000,
        r.0 == FrameOutcome::Lost && r.1 is LostAndReport ==> r.1 == (FrameOutcome::LostAndReport {
            count: (old(p.0).dropped_frames + 2) as u64,
        }),
        r.0 is LostAndReport && r.1 is LostAndReport ==> now_ms.1 - now_ms.0 >= 2_000 && r.1 == (
        FrameOutcome::LostAndReport { count: 1 }),
{
}

/// The device is opened when the thread starts, when the user has chosen another
/// one and when it has failed, and stays open otherwise. After a failure to open it
/// three seconds pass before the next attempt.
pub proof fn a_device_is_opened_when_it_has_to_be(
    p: (CpalPlayback, &mut CpalPlayback, &mut CpalPlayback, &mut CpalPlayback),
    version: (u64, u64),
    errored: bool,
    at: (u64, u64, u64),
    ticks: Option<u64>,
    r: (bool, bool),
)
    requires
        call_ensures(CpalPlayback::new, (version.0, at.0), p.0),
        *old(p.1) == p.0,
        call_ensures(CpalPlayback::needs_build, (p.1, version.0, errored, at.1), r.0),
        at.0 <= at.1 <= at.2,
        at.1 + 3_000 <= u64::MAX,
        *old(p.2) == *final(p.1),
        call_ensures(CpalPlayback::built, (p.2, version.0, ticks, at.1), ()),
        *old(p.3) == *final(p.2),
        call_ensures(CpalPlayback::needs_build, (p.3, version.1, errored, at.2), r.1),
    ensures
        r.0,
        ticks is Some ==> r.1 == (version.1 != version.0 || errored),
        ticks is None ==> r.1 == (at.2 - at.1 >= 3_000),
        r.1 ==> !final(p.3).has_stream,
{
}

/// What is picked of the configurations of a device is stereo at 48 kHz, and
/// nothing is picked only where it has none of that. One with 32-bit fractions is
/// taken before all others, and of several the first.
pub proof fn a_fitting_configuration_is_picked(
    supported: &[ConfigRange],
    r: Option<usize>,
    k: int,
)
    requires
        call_ensures(pick_config, (supported,), r),
        0 <= k < supported@.len(),
        supported@[k].channels == 2,
        supported@[k].min_sample_rate <= 48_000 <= supported@[k].max_sample_rate,
    ensures
        r matches Some(i) && i < supported@.len() && supported@[i as int].channels == 2
            && supported@[i as int].min_sample_rate <= 48_000
            <= supported@[i as int].max_sample_rate && (supported@[k].format == SampleFormat::F32
            ==> supported@[i as int].format == SampleFormat::F32) && (k < i ==> supported@[k].format
            != SampleFormat::F32 && supported@[i as int].format == SampleFormat::F32),
{
    assert(carries(supported@[k]));
    if supported@[k].format == SampleFormat::F32 {
        assert(carries_plainly(supported@[k]));
    }
}

/// Samples are written as 32-bit fractions or as 16-bit whole numbers.
pub proof fn two_formats_are_played(format: SampleFormat, r: bool)
    requires
        call_ensures(can_play, (format,), r),
    ensures
        r ==> format == SampleFormat::F32 || format == SampleFormat::I16,
        format == SampleFormat::F32 ==> r,
        format == SampleFormat::I16 ==> r,
{
}

} // verus!
