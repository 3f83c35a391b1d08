//! Byte and frame units of the fixed output format: stereo, 32-bit float.
use vstd::prelude::*;

verus! {

/// Output sample rate, in frames per second.
pub const SAMPLE_RATE: i32 = 48000;

/// Interleaved channels in one frame.
pub const CHANNELS: i32 = 2;

/// Bytes in one 32-bit float sample.
pub const BYTES_PER_SAMPLE: i64 = 4;

/// Bytes in one stereo frame: `CHANNELS * BYTES_PER_SAMPLE`.
pub const FRAME_BYTES: i64 = 8;

/// `x` saturated to the range of `i64`.
pub open spec fn clamp_i64(x: int) -> int {
    if x > i64::MAX {
        i64::MAX as int
    } else if x < i64::MIN {
        i64::MIN as int
    } else {
        x
    }
}

/// `bytes` cut to whole frames, toward zero.
pub open spec fn whole_frame_bytes(bytes: int) -> int {
    if bytes >= 0 {
        bytes - bytes % FRAME_BYTES as int
    } else {
        -((-bytes) - (-bytes) % FRAME_BYTES as int)
    }
}

/// Byte offset of the start of frame number `frames`, saturated to the range of
/// `i64`: a playback position as the host sees it.
pub fn frames_to_bytes(frames: i64) -> (r: i64)
    ensures
        r == clamp_i64(frames * FRAME_BYTES),
        r < i64::MAX ==> r % FRAME_BYTES == 0,
{
    match frames.checked_mul(FRAME_BYTES) {
        Some(b) => b,
        None => {
            if frames > 0 {
                i64::MAX
            } else {
                i64::MIN
            }
        },
    }
}

/// A byte offset of whole frames names its frame exactly: dividing by the
/// frame size gives back the frame count, so turning frames into bytes loses
/// nothing and the only rounding is in counting frames from seconds.
pub proof fn lemma_frames_round_trip(frames: i64)
    requires
        0 <= frames,
        frames * FRAME_BYTES < i64::MAX,
    ensures
        clamp_i64(frames * FRAME_BYTES) / FRAME_BYTES as int == frames,
        clamp_i64(frames * FRAME_BYTES) % FRAME_BYTES as int == 0,
{
}

} // verus!
