//! Length and position of the stream as the host sees them, in bytes.
use vstd::prelude::*;
use crate::units::{clamp_i64, whole_frame_bytes, FRAME_BYTES};

verus! {

/// Total length of the decoded stream.
///
/// A known length is held as the engine's duration in bytes, truncated toward
/// zero but not to whole frames: it bounds seek targets to the byte, while the
/// size reported to the host is cut to whole frames. A duration too large to
/// count in bytes (an endless or generative module) is unbounded; the host
/// learns of that as a size of zero.
#[derive(Clone, Copy, Debug, PartialEq, Eq, Structural)]
pub enum Extent {
    Known(i64),
    Unbounded,
}

impl Extent {
    /// The extent that a byte duration stands for; `i64::MAX`, where an endless
    /// duration saturates, means no known end.
    pub open spec fn from_bytes_spec(bytes: i64) -> Extent {
        if bytes == i64::MAX {
            Extent::Unbounded
        } else {
            Extent::Known(bytes)
        }
    }

    /// The length in bytes reported to the host, in whole frames: zero means
    /// "no known end".
    pub open spec fn size_spec(self) -> int {
        match self {
            Extent::Known(b) => whole_frame_bytes(b as int),
            Extent::Unbounded => 0,
        }
    }

    /// Bytes left to play from byte offset `pos`: the whole range of `i64` when
    /// the end is not known, else the size less `pos`, saturated.
    pub open spec fn available_spec(self, pos: i64) -> int {
        if self.size_spec() == 0 {
            i64::MAX as int
        } else {
            clamp_i64(self.size_spec() - pos)
        }
    }

    /// Whether a seek to byte offset `target` stays within the stream: a target
    /// past the duration in bytes is refused, which for a whole-number target is
    /// exactly a target whose time is past the duration; any target is taken
    /// when no end is known.
    pub open spec fn permits_seek_spec(self, target: i64) -> bool {
        match self {
            Extent::Known(b) => target <= b,
            Extent::Unbounded => true,
        }
    }

    /// Reads a byte duration.
    pub fn from_bytes(bytes: i64) -> (r: Extent)
        ensures
            r == Extent::from_bytes_spec(bytes),
    {
        if bytes == i64::MAX {
            Extent::Unbounded
        } else {
            Extent::Known(bytes)
        }
    }

    /// Length in whole frames of bytes, zero when the end is not known.
    pub fn size(&self) -> (r: i64)
        ensures
            r == self.size_spec(),
            r % FRAME_BYTES == 0,
    {
        match self {
            Extent::Known(b) => {
                let b = *b;
                if b >= 0 {
                    b - b % 8
                } else {
                    let n: i128 = -(b as i128);
                    (-(n - n % 8)) as i64
                }
            },
            Extent::Unbounded => 0,
        }
    }

    /// Seeking is offered exactly when the size is non-zero.
    pub fn is_seekable(&self) -> (r: bool)
        ensures
            r == (self.size_spec() != 0),
    {
        self.size() != 0
    }

    /// A stream without a known size is played as a live stream.
    pub fn is_realtime_stream(&self) -> (r: bool)
        ensures
            r == (self.size_spec() == 0),
    {
        self.size() == 0
    }

    /// Bytes that remain after byte offset `pos`.
    pub fn available_data(&self, pos: i64) -> (r: i64)
        ensures
            r == self.available_spec(pos),
    {
        let size = self.size();
        if size == 0 {
            i64::MAX
        } else {
            match size.checked_sub(pos) {
                Some(d) => d,
                None => {
                    if pos < 0 {
                        i64::MAX
                    } else {
                        i64::MIN
                    }
                },
            }
        }
    }

    /// Decides a seek request before the engine is touched: `false` leaves the
    /// position as it was, `true` means the engine is to seek to `target`.
    pub fn permits_seek(&self, target: i64) -> (r: bool)
        ensures
            r == self.permits_seek_spec(target),
    {
        match self {
            Extent::Known(b) => target <= *b,
            Extent::Unbounded => true,
        }
    }
}

/// A module at least one frame long whose duration in bytes is below the
/// sentinel is offered as seekable and not live; its size is its duration cut
/// to whole frames; a seek is taken exactly up to its duration in bytes; and
/// what remains at a position is the size less that position.
pub proof fn lemma_finite_module(bytes: i64, pos: i64, target: i64)
    requires
        FRAME_BYTES <= bytes < i64::MAX,
        0 <= pos,
    ensures
        ({
            let e = Extent::from_bytes_spec(bytes);
            &&& e.size_spec() > 0
            &&& e.size_spec() % FRAME_BYTES as int == 0
            &&& e.size_spec() <= bytes < e.size_spec() + FRAME_BYTES
            &&& e.available_spec(pos) == e.size_spec() - pos
            &&& e.permits_seek_spec(target) <==> target <= bytes
        }),
{
}

/// What remains to play: everything when the size is zero, else the size less
/// the position, for any duration and position the engine can report (neither
/// is ever negative).
pub proof fn lemma_available_remaining(bytes: i64, pos: i64)
    requires
        0 <= bytes,
        0 <= pos,
    ensures
        ({
            let e = Extent::from_bytes_spec(bytes);
            &&& e.size_spec() == 0 ==> e.available_spec(pos) == i64::MAX
            &&& e.size_spec() != 0 ==> e.available_spec(pos) == e.size_spec() - pos
        }),
{
}

/// A module whose duration saturates the byte count (an endless one does) is
/// a live stream: size zero, not seekable, all of `i64` available from any
/// position, and any seek target taken.
pub proof fn lemma_unbounded_module(pos: i64, target: i64)
    ensures
        ({
            let e = Extent::from_bytes_spec(i64::MAX);
            &&& e == Extent::Unbounded
            &&& e.size_spec() == 0
            &&& e.available_spec(pos) == i64::MAX
            &&& e.permits_seek_spec(target)
        }),
{
}

} // verus!
