//! How a stretch of memory is filled with zeros.

use vstd::prelude::*;

verus! {

/// Stretches up to this length are filled through the cache, where the next use of
/// the memory finds them. Longer ones would push everything else out of the cache,
/// so they go past it.
pub const NT_ZERO_THRESHOLD: usize = 0x80000;

/// The width in bytes of a store that goes past the cache; its address is a
/// multiple of that.
pub const STREAM_WIDTH: usize = 16;

/// How to fill a stretch with zeros.
#[derive(Copy, Clone, Debug, PartialEq, Eq, Structural)]
pub enum ZeroPlan {
    /// Through the cache.
    Cached,
    /// `head` single bytes, `blocks` wide stores past the cache, and `tail` single
    /// bytes.
    Streamed { head: usize, blocks: usize, tail: usize },
}

/// How to fill the `len` bytes from `address` on.
pub open spec fn zero_plan(address: int, len: int) -> ZeroPlan {
    if len <= NT_ZERO_THRESHOLD {
        ZeroPlan::Cached
    } else {
        let head: int = (-address) % (STREAM_WIDTH as int);
        ZeroPlan::Streamed {
            head: head as usize,
            blocks: ((len - head) / (STREAM_WIDTH as int)) as usize,
            tail: ((len - head) % (STREAM_WIDTH as int)) as usize,
        }
    }
}

/// Decides how to fill the `len` bytes from `address` on; see [`zero_plan`].
pub fn plan_zero(address: usize, len: usize) -> (plan: ZeroPlan)
    ensures
        plan == zero_plan(address as int, len as int),
{
    if len <= NT_ZERO_THRESHOLD {
        return ZeroPlan::Cached;
    }
    let past: usize = address % STREAM_WIDTH;
    let head: usize = if past == 0 {
        0
    } else {
        STREAM_WIDTH - past
    };
    ZeroPlan::Streamed {
        head,
        blocks: (len - head) / STREAM_WIDTH,
        tail: (len - head) % STREAM_WIDTH,
    }
}

/// A stretch that is filled past the cache is filled from end to end, and every
/// wide store lies where it may.
pub proof fn streamed_zeros_cover_the_stretch(address: usize, len: usize)
    requires
        len > NT_ZERO_THRESHOLD,
    ensures
        zero_plan(address as int, len as int) matches ZeroPlan::Streamed { head, blocks, tail }
            && head + blocks * STREAM_WIDTH + tail == len && (address + head)
            % (STREAM_WIDTH as int) == 0 && head < STREAM_WIDTH && tail < STREAM_WIDTH,
{
}

/// A stretch of up to half a mebibyte is filled through the cache, and a longer one past
/// it.
pub proof fn long_stretches_go_past_the_cache(address: usize, len: usize)
    ensures
        zero_plan(address as int, len as int) is Cached <==> len <= 524288,
{
}

} // verus!
