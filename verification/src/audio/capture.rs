//! Capturing sound: which configurations of a device are taken, how many
//! samples make a frame, and how frames are numbered.

use crate::audio::playback::SampleFormat;
use crate::audio::ring::{self, occupied_len, RingReader};
use crate::audio::{AudioFrame, StreamKind, CHANNELS, SAMPLE_RATE};
use vstd::prelude::*;

verus! {

pub const SYSOUT_BITRATE_BPS: i32 = 96_000;

/// A microphone carries voice, and needs less than music.
pub const MIC_BITRATE_BPS: i32 = 48_000;

/// The bytes of one frame of uncompressed samples.
pub const FRAME_BYTES: usize = 7_680;

/// How a device delivers samples.
#[derive(Debug, Clone, Copy, PartialEq, Eq, Structural)]
pub struct CaptureConfig {
    pub sample_rate: u32,
    pub channels: u16,
    pub format: SampleFormat,
}

#[derive(Debug, Clone, Copy, PartialEq, Eq, Structural)]
pub enum CaptureError {
    NoDevice,
    /// The device has no channels, or more than can be mixed.
    UnsupportedChannels { channels: u16 },
    UnsupportedFormat { format: SampleFormat },
}

/// What the encoder is to be fed with.
#[derive(Debug, Clone, Copy, PartialEq, Eq, Structural)]
pub struct EncodePlan {
    pub in_rate: u32,
    pub in_channels: u16,
    /// The samples of the device that make one frame.
    pub in_samples_per_out: u64,
    /// Whether samples have to be converted to the rate and the channels of a
    /// frame.
    pub converts: bool,
    pub bitrate_bps: i32,
    pub stream: StreamKind,
}

/// The samples per channel, at the rate of the device, that make one frame:
/// 20 ms of them to the nearest, and one more.
pub open spec fn source_frames(rate: u32) -> int {
    (rate * 960 + 24_000) / 48_000 + 1
}

pub open spec fn plan_of(config: CaptureConfig, bitrate_bps: i32, stream: StreamKind) -> EncodePlan {
    EncodePlan {
        in_rate: config.sample_rate,
        in_channels: config.channels,
        in_samples_per_out: (source_frames(config.sample_rate) * config.channels) as u64,
        converts: config.sample_rate != SAMPLE_RATE || config.channels != CHANNELS,
        bitrate_bps,
        stream,
    }
}

fn plan(config: CaptureConfig, bitrate_bps: i32, stream: StreamKind) -> (r: EncodePlan)
    ensures
        r == plan_of(config, bitrate_bps, stream),
        r.in_samples_per_out == source_frames(config.sample_rate) * config.channels,
{
    let frames: u64 = (config.sample_rate as u64 * 960 + 24_000) / 48_000 + 1;
    assert(frames <= 0x1_0000_0000);
    assert(frames * config.channels <= 0x1_0000_0000 * 0x1_0000) by (nonlinear_arith)
        requires
            frames <= 0x1_0000_0000,
            config.channels <= 0x1_0000,
    ;
    EncodePlan {
        in_rate: config.sample_rate,
        in_channels: config.channels,
        in_samples_per_out: frames * config.channels as u64,
        converts: config.sample_rate != SAMPLE_RATE || config.channels != CHANNELS,
        bitrate_bps,
        stream,
    }
}

/// What stands against capturing a microphone.
pub open spec fn mic_error(config: Option<CaptureConfig>) -> Option<CaptureError> {
    match config {
        None => Some(CaptureError::NoDevice),
        Some(c) => if c.channels == 0 {
            Some(CaptureError::UnsupportedChannels { channels: 0 })
        } else if c.format == SampleFormat::Other {
            Some(CaptureError::UnsupportedFormat { format: c.format })
        } else {
            None
        },
    }
}

/// Plans the capture of a microphone that delivers samples in this way.
pub fn mic_plan(config: Option<CaptureConfig>) -> (r: Result<EncodePlan, CaptureError>)
    ensures
        match r {
            Ok(p) => mic_error(config) is None && p == plan_of(
                config->0,
                MIC_BITRATE_BPS,
                StreamKind::Mic,
            ) && p.in_samples_per_out == source_frames((config->0).sample_rate) * (config->0).channels,
            Err(e) => mic_error(config) == Some(e),
        },
{
    let c = match config {
        Some(c) => c,
        None => {
            return Err(CaptureError::NoDevice);
        },
    };
    if c.channels == 0 {
        return Err(CaptureError::UnsupportedChannels { channels: 0 });
    }
    match c.format {
        SampleFormat::F32 | SampleFormat::I16 | SampleFormat::I32 => Ok(
            plan(c, MIC_BITRATE_BPS, StreamKind::Mic),
        ),
        SampleFormat::Other => Err(CaptureError::UnsupportedFormat { format: c.format }),
    }
}

/// What stands against capturing what a device plays. More than two channels
/// are not mixed down.
pub open spec fn loopback_error(config: Option<CaptureConfig>) -> Option<CaptureError> {
    match config {
        None => Some(CaptureError::NoDevice),
        Some(c) => if c.channels == 0 || c.channels > 2 {
            Some(CaptureError::UnsupportedChannels { channels: c.channels })
        } else if c.format == SampleFormat::I32 || c.format == SampleFormat::Other {
            Some(CaptureError::UnsupportedFormat { format: c.format })
        } else {
            None
        },
    }
}

/// Plans the capture of what a device plays in this way.
pub fn loopback_plan(config: Option<CaptureConfig>) -> (r: Result<EncodePlan, CaptureError>)
    ensures
        match r {
            Ok(p) => loopback_error(config) is None && p == plan_of(
                config->0,
                SYSOUT_BITRATE_BPS,
                StreamKind::SysOut,
            ) && p.in_samples_per_out == source_frames((config->0).sample_rate) * (config->0).channels,
            Err(e) => loopback_error(config) == Some(e),
        },
{
    let c = match config {
        Some(c) => c,
        None => {
            return Err(CaptureError::NoDevice);
        },
    };
    if c.channels == 0 || c.channels > 2 {
        return Err(CaptureError::UnsupportedChannels { channels: c.channels });
    }
    match c.format {
        SampleFormat::F32 | SampleFormat::I16 => Ok(
            plan(c, SYSOUT_BITRATE_BPS, StreamKind::SysOut),
        ),
        SampleFormat::I32 | SampleFormat::Other => Err(
            CaptureError::UnsupportedFormat { format: c.format },
        ),
    }
}

/// A frame is never made of less than 20 ms of samples, and of at most two
/// samples per channel more.
pub proof fn a_frame_is_never_underfed(rate: u32)
    ensures
        source_frames(rate) * SAMPLE_RATE > rate * 960,
        (source_frames(rate) - 2) * SAMPLE_RATE < rate * 960,
{
}

/// What the encoder does next.
#[derive(Debug, Clone, Copy, PartialEq, Eq, Structural)]
pub enum EncodeStep {
    /// Wait for more samples.
    Wait,
    /// Nobody wants the sound: drop the samples of one frame.
    Discard,
    /// Encode the samples of one frame.
    Encode,
}

/// Whether a ring can tell this number when it is asked how many samples wait.
pub closed spec fn told(ring: RingReader, n: usize) -> bool {
    call_ensures(occupied_len, (&ring,), n)
}

/// Makes the frames of one stream.
#[derive(Debug, Clone, Copy, PartialEq, Eq, Structural)]
pub struct FrameEncoder {
    pub stream: StreamKind,
    /// The number of the next frame.
    pub seq: u32,
    pub in_samples_per_out: u64,
}

impl FrameEncoder {
    pub fn new(stream: StreamKind, in_samples_per_out: u64) -> (r: Self)
        ensures
            r == (FrameEncoder { stream, seq: 0, in_samples_per_out }),
    {
        FrameEncoder { stream, seq: 0, in_samples_per_out }
    }

    /// What to do while that many samples wait, and somebody wants the sound or
    /// not.
    pub open spec fn step_for(self, waiting: int, wanted: bool) -> EncodeStep {
        if waiting < self.in_samples_per_out {
            EncodeStep::Wait
        } else if !wanted {
            EncodeStep::Discard
        } else {
            EncodeStep::Encode
        }
    }

    pub fn step(&self, waiting: u64, wanted: bool) -> (r: EncodeStep)
        ensures
            r == self.step_for(waiting as int, wanted),
    {
        if waiting < self.in_samples_per_out {
            EncodeStep::Wait
        } else if !wanted {
            EncodeStep::Discard
        } else {
            EncodeStep::Encode
        }
    }

    /// Tells what to do with the samples that wait in a ring, by the number that
    /// the ring tells when it is asked. Where it is not to wait, the ring has a
    /// whole frame.
    pub fn poll(&self, ring: &RingReader, wanted: bool) -> (r: EncodeStep)
        ensures
            exists|n: usize| #[trigger] told(*ring, n) && r == self.step_for(n as int, wanted),
            ring::waiting(*ring).len() < self.in_samples_per_out ==> r == EncodeStep::Wait,
    {
        let waiting: usize = occupied_len(ring);
        assert(told(*ring, waiting));
        self.step(waiting as u64, wanted)
    }

    /// Makes a frame of what the encoder gave. What could not be encoded is
    /// left out, and takes no number.
    pub fn encoded(&mut self, payload: Option<Vec<u8>>) -> (r: Option<AudioFrame>)
        ensures
            match (payload, r) {
                (Some(p), Some(f)) => f == (AudioFrame {
                    stream: old(self).stream,
                    seq: old(self).seq,
                    opus: p,
                }) && *final(self) == (FrameEncoder {
                    seq: old(self).seq.wrapping_add(1),
                    ..*old(self)
                }),
                (None, None) => *final(self) == *old(self),
                _ => false,
            },
    {
        match payload {
            Some(opus) => {
                let seq: u32 = self.seq;
                self.seq = seq.wrapping_add(1);
                Some(AudioFrame { stream: self.stream, seq, opus })
            },
            None => None,
        }
    }
}

/// The sample that four bytes hold, the least significant one first.
pub open spec fn word(b0: u8, b1: u8, b2: u8, b3: u8) -> int {
    b0 + 256 * b1 + 65_536 * b2 + 16_777_216 * b3
}

/// The bit patterns of the samples in a row of bytes.
pub open spec fn samples(raw: Seq<u8>) -> Seq<u32> {
    Seq::new(
        raw.len() / 4,
        |i: int| word(raw[4 * i], raw[4 * i + 1], raw[4 * i + 2], raw[4 * i + 3]) as u32,
    )
}

/// One byte of a number, the least significant one under zero.
pub open spec fn byte(n: u32, k: int) -> u8 {
    if k == 0 {
        (n % 256) as u8
    } else if k == 1 {
        (n / 256 % 256) as u8
    } else if k == 2 {
        (n / 65_536 % 256) as u8
    } else {
        (n / 16_777_216) as u8
    }
}

/// The bytes of samples.
pub open spec fn raw_bytes(s: Seq<u32>) -> Seq<u8> {
    Seq::new(4 * s.len(), |i: int| byte(s[i / 4], i % 4))
}

/// Reads the bit patterns of samples; bytes behind the last whole sample are
/// left out.
pub fn samples_from_bytes(raw: &[u8]) -> (r: Vec<u32>)
    ensures
        r@ == samples(raw@),
{
    let len: usize = raw.len();
    let n: usize = len / 4;
    let mut r: Vec<u32> = Vec::new();
    let mut i: usize = 0;
    while i < n
        invariant
            len == raw@.len(),
            n == len / 4,
            i <= n,
            r@ == samples(raw@).subrange(0, i as int),
        decreases n - i,
    {
        let b0: u32 = raw[4 * i] as u32;
        let b1: u32 = raw[4 * i + 1] as u32;
        let b2: u32 = raw[4 * i + 2] as u32;
        let b3: u32 = raw[4 * i + 3] as u32;
        let v: u32 = b0 + 256 * b1 + 65_536 * b2 + 16_777_216 * b3;
        r.push(v);
        assert(samples(raw@)[i as int] == v);
        assert(samples(raw@).subrange(0, i + 1) =~= samples(raw@).subrange(0, i as int).push(v));
        i = i + 1;
    }
    assert(samples(raw@).subrange(0, n as int) =~= samples(raw@));
    r
}

/// Writes the bit patterns of samples.
pub fn bytes_from_samples(s: &[u32]) -> (r: Vec<u8>)
    ensures
        r@ == raw_bytes(s@),
{
    let mut r: Vec<u8> = Vec::new();
    let mut i: usize = 0;
    while i < s.len()
        invariant
            i <= s@.len(),
            r@ == raw_bytes(s@.subrange(0, i as int)),
        decreases s@.len() - i,
    {
        let n: u32 = s[i];
        let ghost before = r@;
        r.push((n % 256) as u8);
        r.push((n / 256 % 256) as u8);
        r.push((n / 65_536 % 256) as u8);
        r.push((n / 16_777_216) as u8);
        let ghost part = s@.subrange(0, i + 1);
        assert(r@ =~= raw_bytes(part)) by {
            assert(r@.len() == 4 * part.len());
            assert forall|j: int| 0 <= j < r@.len() implies r@[j] == raw_bytes(part)[j] by {
                if j < 4 * i {
                    assert(r@[j] == before[j]);
                    assert(before[j] == byte(s@.subrange(0, i as int)[j / 4], j % 4));
                    assert(j / 4 < i);
                } else {
                    assert(j / 4 == i);
                    assert(part[j / 4] == n);
                }
            }
        }
        i = i + 1;
    }
    assert(s@.subrange(0, s@.len() as int) =~= s@);
    r
}

/// Samples are read as they were written.
pub proof fn samples_are_read_back(s: Seq<u32>)
    ensures
        samples(raw_bytes(s)) == s,
{
    let raw = raw_bytes(s);
    assert(raw.len() / 4 == s.len());
    assert forall|i: int| 0 <= i < s.len() implies samples(raw)[i] == s[i] by {
        let n = s[i];
        assert(raw[4 * i] == byte(n, 0)) by {
            assert((4 * i) / 4 == i && (4 * i) % 4 == 0);
        }
        assert(raw[4 * i + 1] == byte(n, 1)) by {
            assert((4 * i + 1) / 4 == i && (4 * i + 1) % 4 == 1);
        }
        assert(raw[4 * i + 2] == byte(n, 2)) by {
            assert((4 * i + 2) / 4 == i && (4 * i + 2) % 4 == 2);
        }
        assert(raw[4 * i + 3] == byte(n, 3)) by {
            assert((4 * i + 3) / 4 == i && (4 * i + 3) % 4 == 3);
        }
        assert(n / 65_536 == n / 256 / 256);
        assert(n / 16_777_216 == n / 65_536 / 256);
        assert(n / 16_777_216 < 256);
    }
    assert(samples(raw) =~= s);
}

/// Captures the microphone.
#[derive(Debug, Clone, Copy, PartialEq, Eq, Structural)]
pub struct CpalMic {
    pub started: bool,
}

impl CpalMic {
    pub fn new() -> (r: Self)
        ensures
            !r.started,
    {
        CpalMic { started: false }
    }

    /// Tells whether the capture thread is to be started: once.
    pub fn start(&mut self) -> (r: bool)
        ensures
            r == !old(self).started,
            final(self).started,
    {
        let first = !self.started;
        self.started = true;
        first
    }
}

/// Captures what this machine plays, on Windows.
#[derive(Debug, Clone, Copy, PartialEq, Eq, Structural)]
pub struct WasapiLoopback {
    pub started: bool,
}

impl WasapiLoopback {
    pub fn new() -> (r: Self)
        ensures
            !r.started,
    {
        WasapiLoopback { started: false }
    }

    /// Tells whether the capture thread is to be started: once.
    pub fn start(&mut self) -> (r: bool)
        ensures
            r == !old(self).started,
            final(self).started,
    {
        let first = !self.started;
        self.started = true;
        first
    }
}

/// Captures what this machine plays, on Linux, through a recording program.
#[derive(Debug, Clone, Copy, PartialEq, Eq, Structural)]
pub struct PipewireMonitor {
    pub started: bool,
    /// Whether the recording program runs.
    pub recording: bool,
}

impl PipewireMonitor {
    pub fn new() -> (r: Self)
        ensures
            r == (PipewireMonitor { started: false, recording: false }),
    {
        PipewireMonitor { started: false, recording: false }
    }

    /// Tells whether the recording program is to be started: once, even where
    /// it then fails to start.
    pub fn start(&mut self) -> (r: bool)
        ensures
            r == !old(self).started,
            *final(self) == (PipewireMonitor { started: true, ..*old(self) }),
    {
        let first = !self.started;
        self.started = true;
        first
    }

    /// The recording program runs.
    pub fn spawned(&mut self)
        ensures
            *final(self) == (PipewireMonitor { recording: true, ..*old(self) }),
    {
        self.recording = true;
    }

    /// Tells whether a recording program is to be stopped.
    pub fn close(&mut self) -> (r: bool)
        ensures
            r == old(self).recording,
            *final(self) == (PipewireMonitor { recording: false, ..*old(self) }),
    {
        let running = self.recording;
        self.recording = false;
        running
    }
}

/// A microphone is captured exactly where it has a channel and its samples are
/// of one of the three kinds that are read: 32-bit fractions, 16-bit and 32-bit
/// whole numbers. Else what is missing is told, the device first, then the
/// channels, then the kind.
pub proof fn every_usable_microphone_is_captured(
    c: CaptureConfig,
    r: (Result<EncodePlan, CaptureError>, Result<EncodePlan, CaptureError>),
)
    requires
        call_ensures(mic_plan, (Some(c),), r.0),
        call_ensures(mic_plan, (None::<CaptureConfig>,), r.1),
    ensures
        r.0 is Ok <==> c.channels > 0 && (c.format == SampleFormat::F32 || c.format
            == SampleFormat::I16 || c.format == SampleFormat::I32),
        c.channels == 0 ==> r.0 == Err::<EncodePlan, CaptureError>(
            CaptureError::UnsupportedChannels { channels: 0 },
        ),
        c.channels > 0 && r.0 is Err ==> r.0 == Err::<EncodePlan, CaptureError>(
            CaptureError::UnsupportedFormat { format: c.format },
        ),
        r.1 == Err::<EncodePlan, CaptureError>(CaptureError::NoDevice),
{
}

/// What a machine plays is captured exactly where it is mono or stereo and its
/// samples are 32-bit fractions or 16-bit whole numbers.
pub proof fn every_usable_output_is_captured(
    c: CaptureConfig,
    r: (Result<EncodePlan, CaptureError>, Result<EncodePlan, CaptureError>),
)
    requires
        call_ensures(loopback_plan, (Some(c),), r.0),
        call_ensures(loopback_plan, (None::<CaptureConfig>,), r.1),
    ensures
        r.0 is Ok <==> (c.channels == 1 || c.channels == 2) && (c.format == SampleFormat::F32
            || c.format == SampleFormat::I16),
        c.channels != 1 && c.channels != 2 ==> r.0 == Err::<EncodePlan, CaptureError>(
            CaptureError::UnsupportedChannels { channels: c.channels },
        ),
        1 <= c.channels <= 2 && r.0 is Err ==> r.0 == Err::<EncodePlan, CaptureError>(
            CaptureError::UnsupportedFormat { format: c.format },
        ),
        r.1 == Err::<EncodePlan, CaptureError>(CaptureError::NoDevice),
{
}

/// A plan is that of the device: it keeps its rate and its channels, gathers 20
/// ms of each channel for a frame, to the nearest sample and one more, and
/// converts all but 48 kHz stereo. A microphone goes out as one, at 48000 bits in
/// a second; what the machine plays as such, at 96000.
pub proof fn a_plan_is_that_of_the_device(c: CaptureConfig, mic: EncodePlan, out: EncodePlan)
    requires
        call_ensures(mic_plan, (Some(c),), Ok::<EncodePlan, CaptureError>(mic)),
        call_ensures(loopback_plan, (Some(c),), Ok::<EncodePlan, CaptureError>(out)),
    ensures
        mic.stream == StreamKind::Mic && mic.bitrate_bps == 48_000,
        out.stream == StreamKind::SysOut && out.bitrate_bps == 96_000,
        mic.in_rate == c.sample_rate && mic.in_channels == c.channels,
        out.in_rate == c.sample_rate && out.in_channels == c.channels,
        mic.converts == !(c.sample_rate == 48_000 && c.channels == 2),
        out.converts == mic.converts,
        out.in_samples_per_out == mic.in_samples_per_out,
        exists|frames: int|
            mic.in_samples_per_out == #[trigger] (frames * c.channels) && -24_000 < c.sample_rate * 960
                - (frames - 1) * 48_000 + 1 <= 24_000,
        c.sample_rate == 48_000 && c.channels == 2 ==> mic.in_samples_per_out == 1_922,
{
    let frames = source_frames(c.sample_rate);
    assert(mic.in_samples_per_out == frames * c.channels);
    if c.channels == 2 {
        assert(frames * c.channels == frames * 2);
    }
}

/// Frames are numbered without gaps, in the stream that they belong to, and carry
/// what was encoded; what could not be encoded takes no number.
pub proof fn frames_are_numbered_without_gaps(
    f: (FrameEncoder, &mut FrameEncoder, &mut FrameEncoder, &mut FrameEncoder),
    stream: StreamKind,
    n: u64,
    payload: (Vec<u8>, Vec<u8>),
    r: (Option<AudioFrame>, Option<AudioFrame>, Option<AudioFrame>),
)
    requires
        call_ensures(FrameEncoder::new, (stream, n), f.0),
        *old(f.1) == f.0,
        call_ensures(FrameEncoder::encoded, (f.1, Some(payload.0)), r.0),
        *old(f.2) == *final(f.1),
        call_ensures(FrameEncoder::encoded, (f.2, None::<Vec<u8>>), r.1),
        *old(f.3) == *final(f.2),
        call_ensures(FrameEncoder::encoded, (f.3, Some(payload.1)), r.2),
    ensures
        r.0 matches Some(a) && a.seq == 0 && a.stream == stream && a.opus == payload.0,
        r.1 is None,
        r.2 matches Some(b) && b.seq == 1 && b.stream == stream && b.opus == payload.1,
        final(f.3).seq == 2,
{
}

/// The encoder waits exactly while less than a frame waits, and then encodes it
/// where somebody listens and drops it where nobody does.
pub proof fn whole_frames_are_encoded_for_who_listens(
    f: &FrameEncoder,
    waiting: u64,
    r: (EncodeStep, EncodeStep),
)
    requires
        call_ensures(FrameEncoder::step, (f, waiting, true), r.0),
        call_ensures(FrameEncoder::step, (f, waiting, false), r.1),
    ensures
        r.0 == EncodeStep::Wait <==> waiting < f.in_samples_per_out,
        r.1 == EncodeStep::Wait <==> waiting < f.in_samples_per_out,
        waiting >= f.in_samples_per_out ==> r.0 == EncodeStep::Encode && r.1 == EncodeStep::Discard,
{
}

/// Samples are read as they were written.
pub proof fn samples_go_out_and_come_back(
    s: &[u32],
    raw: Vec<u8>,
    again: &[u8],
    back: Vec<u32>,
)
    requires
        call_ensures(bytes_from_samples, (s,), raw),
        again@ == raw@,
        call_ensures(samples_from_bytes, (again,), back),
    ensures
        back@ == s@,
{
    samples_are_read_back(s@);
}

/// A sample is four bytes, the least significant one first.
pub proof fn samples_start_with_their_least_byte(s: &[u32], raw: Vec<u8>, i: int)
    requires
        call_ensures(bytes_from_samples, (s,), raw),
        0 <= i < s@.len(),
    ensures
        raw@.len() == 4 * s@.len(),
        raw@[4 * i] == s@[i] % 256,
        raw@[4 * i + 3] == s@[i] / 16_777_216,
{
    assert(raw@[4 * i] == byte(s@[(4 * i) / 4], (4 * i) % 4));
    assert((4 * i) / 4 == i && (4 * i) % 4 == 0);
    assert(raw@[4 * i + 3] == byte(s@[(4 * i + 3) / 4], (4 * i + 3) % 4));
    assert((4 * i + 3) / 4 == i && (4 * i + 3) % 4 == 3);
}

/// A capture is started once.
pub proof fn a_capture_is_started_once(
    m: (&mut CpalMic, &mut CpalMic),
    r: (bool, bool),
)
    requires
        call_ensures(CpalMic::new, (), *old(m.0)),
        call_ensures(CpalMic::start, (m.0,), r.0),
        *old(m.1) == *final(m.0),
        call_ensures(CpalMic::start, (m.1,), r.1),
    ensures
        r.0 && !r.1,
{
}

} // verus!
