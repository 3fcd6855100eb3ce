//! What the codec is set to, and what it may be fed with.

use crate::audio::{FRAME_SAMPLES_INTERLEAVED, CHANNELS};
use vstd::prelude::*;

verus! {

/// The largest encoded frame.
pub const MAX_OPUS_PAYLOAD: usize = 1_500;

/// How an encoder is set up.
#[derive(Debug, Clone, Copy, PartialEq, Eq, Structural)]
pub struct EncoderSettings {
    pub bitrate_bps: i32,
    pub vbr: bool,
    /// Silence is sent in tiny frames.
    pub dtx: bool,
    pub inband_fec: bool,
    /// The loss that the encoder prepares for, in percent.
    pub packet_loss_perc: Option<i32>,
}

/// The settings of an encoder; it prepares for loss only where it corrects
/// errors.
pub fn encoder_settings(bitrate_bps: i32, inband_fec: bool) -> (r: EncoderSettings)
    ensures
        r == (EncoderSettings {
            bitrate_bps,
            vbr: true,
            dtx: true,
            inband_fec,
            packet_loss_perc: if inband_fec {
                Some(10i32)
            } else {
                None
            },
        }),
{
    EncoderSettings {
        bitrate_bps,
        vbr: true,
        dtx: true,
        inband_fec,
        packet_loss_perc: if inband_fec {
            Some(10)
        } else {
            None
        },
    }
}

#[derive(Debug, Clone, Copy, PartialEq, Eq, Structural)]
pub enum CodecError {
    /// A frame has another number of samples.
    WrongFrameSize { samples: usize },
    /// The buffer cannot hold a frame.
    BufferTooSmall { samples: usize },
}

/// The encoder takes whole frames only.
pub fn check_encode_input(samples: usize) -> (r: Result<(), CodecError>)
    ensures
        match r {
            Ok(_) => samples == FRAME_SAMPLES_INTERLEAVED,
            Err(e) => samples != FRAME_SAMPLES_INTERLEAVED && e == (CodecError::WrongFrameSize {
                samples,
            }),
        },
{
    if samples == FRAME_SAMPLES_INTERLEAVED {
        Ok(())
    } else {
        Err(CodecError::WrongFrameSize { samples })
    }
}

/// The decoder needs room for a whole frame.
pub fn check_decode_buffer(samples: usize) -> (r: Result<(), CodecError>)
    ensures
        match r {
            Ok(_) => samples >= FRAME_SAMPLES_INTERLEAVED,
            Err(e) => samples < FRAME_SAMPLES_INTERLEAVED && e == (CodecError::BufferTooSmall {
                samples,
            }),
        },
{
    if samples >= FRAME_SAMPLES_INTERLEAVED {
        Ok(())
    } else {
        Err(CodecError::BufferTooSmall { samples })
    }
}

/// How many samples of all channels the decoder has written, from what it has
/// written of each.
pub fn interleaved_len(per_channel: usize) -> (r: usize)
    requires
        per_channel * CHANNELS <= usize::MAX,
    ensures
        r == per_channel * CHANNELS,
{
    per_channel * CHANNELS as usize
}

/// How many frames are missing between the last one that came and this one. A
/// number that does not go up is a repetition or a new start, and nothing is
/// missing.
pub open spec fn missing(last: Option<u32>, current: u32) -> int {
    match last {
        Some(l) => if current > l {
            current - l - 1
        } else {
            0
        },
        None => 0,
    }
}

pub fn frames_lost(last: Option<u32>, current: u32) -> (r: u32)
    ensures
        r == missing(last, current),
{
    match last {
        Some(l) => if current > l {
            current - l - 1
        } else {
            0
        },
        None => 0,
    }
}

/// Over a row of frames whose numbers go up, what is missing and what came
/// make up all the numbers from the first to the last.
pub open spec fn missing_in_all(numbers: Seq<u32>) -> int
    decreases numbers.len(),
{
    if numbers.len() <= 1 {
        0
    } else {
        missing_in_all(numbers.drop_last()) + missing(
            Some(numbers[numbers.len() - 2]),
            numbers.last(),
        )
    }
}

/// Every frame between the first and the last is either there or counted as
/// missing.
pub proof fn every_frame_is_counted(numbers: Seq<u32>)
    requires
        numbers.len() > 0,
        forall|i: int, j: int| 0 <= i < j < numbers.len() ==> numbers[i] < numbers[j],
    ensures
        missing_in_all(numbers) + numbers.len() == numbers.last() - numbers[0] + 1,
    decreases numbers.len(),
{
    if numbers.len() > 1 {
        every_frame_is_counted(numbers.drop_last());
        assert(numbers.drop_last().last() == numbers[numbers.len() - 2]);
    }
}

/// A frame in stereo holds 1920 samples: no more and no less is encoded, and a
/// buffer for a decoded frame has room for as many.
pub proof fn a_frame_holds_1920_samples(
    samples: usize,
    enc: Result<(), CodecError>,
    dec: Result<(), CodecError>,
)
    requires
        call_ensures(check_encode_input, (samples,), enc),
        call_ensures(check_decode_buffer, (samples,), dec),
    ensures
        enc is Ok <==> samples == 1_920,
        dec is Ok <==> samples >= 1_920,
{
}

/// Both channels of what was decoded count.
pub proof fn both_channels_count(per_channel: usize, r: usize)
    requires
        call_ensures(interleaved_len, (per_channel,), r),
    ensures
        r == per_channel + per_channel,
{
}

/// The bit rate is the one that was asked for. Repair data is put in where it was
/// asked for, for one lost packet in ten.
pub proof fn the_encoder_is_set_as_asked(bps: i32, fec: bool, r: EncoderSettings)
    requires
        call_ensures(encoder_settings, (bps, fec), r),
    ensures
        r.bitrate_bps == bps,
        r.inband_fec == fec,
        fec ==> r.packet_loss_perc == Some(10i32),
        !fec ==> r.packet_loss_perc is None,
        r.vbr && r.dtx,
{
}

/// The frames between two that came are missing: none between one and the next,
/// one more for each number further on, and none before the first.
pub proof fn a_gap_is_counted(last: u32, gap: u32, current: u32, r: (u32, u32, u32))
    requires
        last < u32::MAX,
        call_ensures(frames_lost, (Some(last), (last + 1) as u32), r.0),
        last + 1 + gap <= u32::MAX,
        call_ensures(frames_lost, (Some(last), (last + 1 + gap) as u32), r.1),
        call_ensures(frames_lost, (None::<u32>, current), r.2),
    ensures
        r.0 == 0,
        r.1 == gap,
        r.2 == 0,
{
}

/// A frame whose number does not go up is a repetition or a new start: nothing is
/// missing before it.
pub proof fn a_repeated_frame_is_no_gap(last: u32, current: u32, r: u32)
    requires
        call_ensures(frames_lost, (Some(last), current), r),
    ensures
        current <= last ==> r == 0,
        current > last ==> r < current - last,
{
}

} // verus!
