use vstd::prelude::*;
use crate::creation::list_count;
use crate::error::Error;
use crate::limits::XAUDIO2_NO_LOOP_REGION;
use crate::loop_count::LoopCount;
use crate::sample_range::{is_empty_view, SampleRange};

verus! {

/// The scalar fields of the engine's buffer descriptor, as a submission hands them over.
///
/// The data pointer and the per-buffer context token travel beside these fields.
#[derive(Clone, Copy, Debug, PartialEq, Eq, Structural)]
pub struct RawBuffer {
    pub Flags: u32,
    pub AudioBytes: u32,
    pub PlayBegin: u32,
    pub PlayLength: u32,
    pub LoopBegin: u32,
    pub LoopLength: u32,
    pub LoopCount: u32,
}

/// Whether the loop region is handed to the engine: only with a non-zero count and a region
/// that is not empty.
pub open spec fn loop_region_used(loop_range: (u32, u32), loop_count: u8) -> bool {
    loop_count as u32 != XAUDIO2_NO_LOOP_REGION && !is_empty_view(loop_range)
}

/// The descriptor of a submission whose play region is not empty.
pub open spec fn raw_buffer_view(
    flags: u32,
    audio_bytes: u32,
    play_range: (u32, u32),
    loop_range: (u32, u32),
    loop_count: u8,
) -> RawBuffer {
    let used = loop_region_used(loop_range, loop_count);
    RawBuffer {
        Flags: flags,
        AudioBytes: audio_bytes,
        PlayBegin: play_range.0,
        PlayLength: play_range.1,
        LoopBegin: if used { loop_range.0 } else { 0 },
        LoopLength: if used { loop_range.1 } else { 0 },
        LoopCount: if used { loop_count as u32 } else { 0 },
    }
}

/// What a submission amounts to: an argument error when the data's byte length does not fit
/// the engine's 32-bit field, no engine call at all (`None`) for an empty play region, and
/// otherwise the descriptor to submit.
pub open spec fn submission_view(
    flags: u32,
    audio_bytes: usize,
    play_range: (u32, u32),
    loop_range: (u32, u32),
    loop_count: u8,
) -> Result<Option<RawBuffer>, Error> {
    if audio_bytes > u32::MAX {
        Err(Error::InvalidArgument)
    } else if is_empty_view(play_range) {
        Ok(None)
    } else {
        Ok(Some(raw_buffer_view(flags, audio_bytes as u32, play_range, loop_range, loop_count)))
    }
}

/// Builds the engine descriptor of one submission.
///
/// `audio_bytes` is the byte length of the sample data. `Ok(None)` means that the play region
/// is empty: the submission succeeds without an engine call and without an envelope.
pub fn plan_submission(
    flags: u32,
    audio_bytes: usize,
    play_range: SampleRange,
    loop_range: SampleRange,
    loop_count: LoopCount,
) -> (r: Result<Option<RawBuffer>, Error>)
    ensures
        r == submission_view(flags, audio_bytes, play_range@, loop_range@, loop_count@),
{
    if audio_bytes > u32::MAX as usize {
        return Err(Error::InvalidArgument);
    }
    let mut b = RawBuffer {
        Flags: flags,
        AudioBytes: audio_bytes as u32,
        PlayBegin: 0,
        PlayLength: 0,
        LoopBegin: 0,
        LoopLength: 0,
        LoopCount: 0,
    };
    match play_range.into_raw_begin_length() {
        None => {
            return Ok(None);
        },
        Some((begin, length)) => {
            b.PlayBegin = begin;
            b.PlayLength = length;
        },
    }
    if loop_count.get() != XAUDIO2_NO_LOOP_REGION {
        if let Some((begin, length)) = loop_range.into_raw_begin_length() {
            b.LoopBegin = begin;
            b.LoopLength = length;
            b.LoopCount = loop_count.get();
        }
    }
    Ok(Some(b))
}

/// The packet table of a compressed (xWMA) buffer: the cumulative decoded byte count after
/// each packet.
#[derive(Clone, Copy, Debug)]
pub struct BufferWma<'a> {
    pub DecodedPacketCumulativeBytes: &'a [u32],
}

impl<'a> BufferWma<'a> {
    /// The packet count for the engine's 32-bit field, or `InvalidArgument` when the table is
    /// longer than that field can say.
    pub fn packet_count(&self) -> (r: Result<u32, Error>)
        ensures
            self.DecodedPacketCumulativeBytes@.len() <= u32::MAX ==> r == Ok::<u32, Error>(
                self.DecodedPacketCumulativeBytes@.len() as u32,
            ),
            self.DecodedPacketCumulativeBytes@.len() > u32::MAX ==> r == Err::<u32, Error>(
                Error::InvalidArgument,
            ),
    {
        list_count(self.DecodedPacketCumulativeBytes.len())
    }
}

/// A submission with an empty play region makes no engine call and succeeds, whatever the
/// other arguments are, as long as the data's length fits.
pub proof fn lemma_empty_play_range_is_no_op(
    flags: u32,
    audio_bytes: usize,
    play_range: (u32, u32),
    loop_range: (u32, u32),
    loop_count: u8,
)
    requires
        audio_bytes <= u32::MAX,
        is_empty_view(play_range),
    ensures
        submission_view(flags, audio_bytes, play_range, loop_range, loop_count) == Ok::<Option<RawBuffer>, Error>(None),
{
}

/// A loop count of zero leaves every loop field unset, whatever loop region was given.
pub proof fn lemma_zero_loop_count_disables_loop(
    flags: u32,
    audio_bytes: usize,
    play_range: (u32, u32),
    loop_range: (u32, u32),
)
    ensures
        submission_view(flags, audio_bytes, play_range, loop_range, 0) matches Ok(Some(b)) ==> (
            b.LoopBegin == 0 && b.LoopLength == 0 && b.LoopCount == 0
        ),
{
}

} // verus!
