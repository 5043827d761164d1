//! What growing a linear memory takes, decided from its sizes alone.

use crate::error::{ErrorModel, MemoryError};
use crate::memory_type::MemoryStyle;
use crate::units::{Bytes, Pages, WASM_MAX_PAGES, WASM_PAGE_SIZE};
use vstd::prelude::*;

verus! {

/// The work that a granted growth takes.
#[derive(Copy, Clone, Debug, PartialEq, Eq, Structural)]
pub enum GrowPlan {
    /// Nothing was asked for.
    Keep,
    /// The room that is set aside is too small, and the memory may move: map
    /// `total` bytes elsewhere with the first `accessible` usable, and take the first
    /// `copied` bytes along.
    Move { accessible: usize, total: usize, copied: usize },
    /// There is room: make `[start, start + len)` usable.
    Extend { start: usize, len: usize },
}

/// The new size and the work for a memory of `size` pages in a mapping of
/// `total` bytes, the last `guard` of which are guard room, that is to have
/// `delta` more pages; or why it cannot have them. A memory of static style never
/// moves: it cannot have more than the room that was set aside for it.
pub open spec fn grow_plan(
    size: Pages,
    delta: Pages,
    maximum: Option<Pages>,
    style: MemoryStyle,
    total: usize,
    guard: usize,
) -> Result<(Pages, GrowPlan), ErrorModel> {
    let sum: int = size.0 + delta.0;
    let new_bytes: int = sum * WASM_PAGE_SIZE;
    if delta.0 == 0 {
        Ok((size, GrowPlan::Keep))
    } else if sum > WASM_MAX_PAGES || (maximum matches Some(max) && sum > max.0) {
        Err(ErrorModel::CouldNotGrow { current: size, attempted_delta: delta })
    } else if new_bytes <= total - guard {
        Ok(
            (
                Pages(sum as u32),
                GrowPlan::Extend {
                    start: (size.0 * WASM_PAGE_SIZE) as usize,
                    len: (delta.0 * WASM_PAGE_SIZE) as usize,
                },
            ),
        )
    } else if style is Static {
        Err(ErrorModel::CouldNotGrow { current: size, attempted_delta: delta })
    } else if new_bytes + guard <= usize::MAX {
        Ok(
            (
                Pages(sum as u32),
                GrowPlan::Move {
                    accessible: new_bytes as usize,
                    total: (new_bytes + guard) as usize,
                    copied: (total - guard) as usize,
                },
            ),
        )
    } else {
        Err(
            ErrorModel::CouldNotGrow {
                current: Pages(sum as u32),
                attempted_delta: Pages((guard as nat / WASM_PAGE_SIZE as nat) as u32),
            },
        )
    }
}

/// Decides on a growth by `delta` pages; see [`grow_plan`].
pub fn plan_grow(
    size: Pages,
    delta: Pages,
    maximum: Option<Pages>,
    style: MemoryStyle,
    total: usize,
    guard: usize,
) -> (plan: Result<(Pages, GrowPlan), MemoryError>)
    requires
        guard <= total,
        guard as nat / WASM_PAGE_SIZE as nat <= u32::MAX || guard + WASM_MAX_PAGES * WASM_PAGE_SIZE
            <= usize::MAX,
    ensures
        match (plan, grow_plan(size, delta, maximum, style, total, guard)) {
            (Ok(work), Ok(expected)) => work == expected,
            (Err(error), Err(expected)) => error@ == expected,
            _ => false,
        },
{
    if delta.0 == 0 {
        return Ok((size, GrowPlan::Keep));
    }
    let new_pages = match size.checked_add(delta) {
        Some(sum) => sum,
        None => {
            return Err(MemoryError::CouldNotGrow { current: size, attempted_delta: delta });
        },
    };
    if let Some(max) = maximum {
        if new_pages.0 > max.0 {
            return Err(MemoryError::CouldNotGrow { current: size, attempted_delta: delta });
        }
    }
    let new_bytes: u64 = new_pages.0 as u64 * WASM_PAGE_SIZE as u64;
    if new_bytes <= (total - guard) as u64 {
        return Ok(
            (
                new_pages,
                GrowPlan::Extend { start: size.bytes().0, len: delta.bytes().0 },
            ),
        );
    }
    if matches!(style, MemoryStyle::Static { .. }) {
        return Err(MemoryError::CouldNotGrow { current: size, attempted_delta: delta });
    }
    // The sum of two numbers that a `u64` holds.
    let request: u128 = new_bytes as u128 + guard as u128;
    if request <= usize::MAX as u128 {
        return Ok(
            (
                new_pages,
                GrowPlan::Move {
                    accessible: new_bytes as usize,
                    total: request as usize,
                    copied: total - guard,
                },
            ),
        );
    }
    match Bytes(guard).pages() {
        Ok(guard_pages) => Err(
            MemoryError::CouldNotGrow { current: new_pages, attempted_delta: guard_pages },
        ),
        Err(_) => {
            assert(false);
            Err(MemoryError::CouldNotGrow { current: new_pages, attempted_delta: delta })
        },
    }
}

/// A growth is granted exactly when it may be: nothing is asked for; or the new pages
/// are no more than the declared maximum, if there is one, and no more than 65536, and
/// they fit with the guard room behind them into the room that is set aside, or the
/// memory may move and there are addresses for both.
pub proof fn growth_is_granted_whenever_it_may_be(
    size: Pages,
    delta: Pages,
    maximum: Option<Pages>,
    style: MemoryStyle,
    total: usize,
    guard: usize,
)
    requires
        guard <= total,
    ensures
        grow_plan(size, delta, maximum, style, total, guard) is Ok <==> {
            ||| delta.0 == 0
            ||| size.0 + delta.0 <= 65536 && (maximum matches Some(max) ==> size.0 + delta.0
                <= max.0) && ((size.0 + delta.0) * 65536 + guard <= total || (style is Dynamic && (
            size.0 + delta.0) * 65536 + guard <= usize::MAX))
        },
{
}

/// A granted growth gives exactly `delta` pages more. It makes usable what comes behind
/// the present pages where they lie, or, only if there is no room for that, a new
/// stretch of all pages and the guard room, into which everything before the old guard
/// room goes.
pub proof fn granted_growth_gives_the_pages(
    size: Pages,
    delta: Pages,
    maximum: Option<Pages>,
    style: MemoryStyle,
    total: usize,
    guard: usize,
)
    requires
        guard <= total,
        grow_plan(size, delta, maximum, style, total, guard) is Ok,
    ensures
        ({
            let (pages, work) = grow_plan(size, delta, maximum, style, total, guard)->Ok_0;
            let bytes: int = (size.0 + delta.0) * 65536;
            &&& pages.0 == size.0 + delta.0
            &&& work is Keep <==> delta.0 == 0
            &&& work is Extend <==> delta.0 > 0 && bytes + guard <= total
            &&& work matches GrowPlan::Extend { start, len } ==> start == size.0 * 65536 && start
                + len == bytes
            &&& work matches GrowPlan::Move { accessible, total: room, copied } ==> {
                &&& style is Dynamic
                &&& accessible == bytes
                &&& room == bytes + guard
                &&& copied + guard == total
            }
        }),
{
}

/// A growth that the limits or the room of a static memory refuse is refused with the
/// present size and what was asked for.
pub proof fn refused_growth_says_what_was_asked(
    size: Pages,
    delta: Pages,
    maximum: Option<Pages>,
    style: MemoryStyle,
    total: usize,
    guard: usize,
)
    requires
        guard <= total,
        delta.0 > 0,
        ({
            ||| size.0 + delta.0 > 65536
            ||| maximum matches Some(max) && size.0 + delta.0 > max.0
            ||| style is Static && (size.0 + delta.0) * 65536 + guard > total
        }),
    ensures
        grow_plan(size, delta, maximum, style, total, guard) == Err::<(Pages, GrowPlan), ErrorModel>(
            ErrorModel::CouldNotGrow { current: size, attempted_delta: delta },
        ),
{
}

} // verus!
