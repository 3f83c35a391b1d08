//! Sizing of one read: how many frames to ask of the engine for a host
//! buffer, and how many bytes of that buffer the rendered frames fill.
use vstd::prelude::*;
use crate::units::FRAME_BYTES;

verus! {

/// Number of bytes reported for `frames` rendered frames out of `requested`:
/// never more frames than were asked for, capped at `i32::MAX` bytes.
pub open spec fn read_len_spec(requested: int, frames: int) -> int {
    let whole = if frames <= requested { frames } else { requested };
    if whole * FRAME_BYTES > i32::MAX {
        i32::MAX as int
    } else {
        whole * FRAME_BYTES
    }
}

/// Frames to render into a host buffer of `len` bytes: every whole stereo frame
/// the buffer holds. An empty buffer asks for no render at all (`None`), so the
/// engine is not called.
pub fn plan_read(len: usize) -> (r: Option<usize>)
    ensures
        r is None <==> len == 0,
        r matches Some(frames) ==> frames == len as int / FRAME_BYTES as int,
{
    if len == 0 {
        None
    } else {
        Some(len / 8)
    }
}

/// Interleaved float samples that hold `frames` stereo frames.
pub fn samples_for(frames: usize) -> (r: usize)
    requires
        frames <= usize::MAX / 2,
    ensures
        r == 2 * frames,
{
    2 * frames
}

/// Bytes written into the host buffer when the engine reports `rendered`
/// frames after `requested` were asked for.
pub fn bytes_read(requested: usize, rendered: usize) -> (r: i32)
    ensures
        r == read_len_spec(requested as int, rendered as int),
{
    let whole: usize = if rendered <= requested {
        rendered
    } else {
        requested
    };
    if whole > 268435455 {
        i32::MAX
    } else {
        (whole * 8) as i32
    }
}

/// A read never reports more bytes than the host buffer holds, and what it
/// reports is whole frames unless it is capped at `i32::MAX`.
pub proof fn lemma_read_within_buffer(len: usize, rendered: usize)
    ensures
        ({
            let n = read_len_spec(len as int / FRAME_BYTES as int, rendered as int);
            &&& n <= len
            &&& n < i32::MAX ==> n % FRAME_BYTES as int == 0
        }),
{
    let requested = (len / 8) as int;
    assert(requested * 8 <= len);
    if rendered <= requested {
        assert(rendered * 8 <= requested * 8) by (nonlinear_arith)
            requires
                rendered <= requested,
        ;
    }
}

} // verus!
