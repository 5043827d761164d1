//! Whether mappings are handed from one memory to another: they are not. A
//! mapping that served one memory is never handed on to a second one.

use crate::mmap::Mmap;
use vstd::prelude::*;

verus! {

/// There is never a used mapping to hand out: the caller makes a fresh one.
pub fn try_take(_accessible_size: usize, _mapping_size: usize) -> (taken: Option<Mmap>)
    ensures
        taken is None,
{
    None
}

/// No mapping is kept: the caller gets it back and lets go of it.
pub fn try_pool(mmap: Mmap) -> (returned: Option<Mmap>)
    ensures
        returned == Some(mmap),
{
    Some(mmap)
}

} // verus!
