//! Sizes of linear memories, in WebAssembly pages and in bytes.

use vstd::prelude::*;

verus! {

/// Bytes in one WebAssembly page.
pub const WASM_PAGE_SIZE: usize = 0x10000;

/// The most pages that a linear memory can have.
pub const WASM_MAX_PAGES: u32 = 0x10000;

/// A number of WebAssembly pages.
#[derive(Copy, Clone, Debug, PartialEq, Eq, Structural)]
pub struct Pages(pub u32);

/// A number of bytes.
#[derive(Copy, Clone, Debug, PartialEq, Eq, Structural)]
pub struct Bytes(pub usize);

/// The pages of a byte count do not fit the counter of [`Pages`].
#[derive(Copy, Clone, Debug, PartialEq, Eq, Structural)]
pub struct PageCountOutOfRange;

impl Pages {
    /// How many bytes these pages have.
    pub open spec fn byte_count(self) -> nat {
        self.0 as nat * WASM_PAGE_SIZE as nat
    }

    /// The most pages that a linear memory can have.
    pub fn max_value() -> (max: Pages)
        ensures
            max.0 == WASM_MAX_PAGES,
    {
        Pages(WASM_MAX_PAGES)
    }

    /// The sum, unless a linear memory cannot have that many pages.
    pub fn checked_add(self, rhs: Pages) -> (sum: Option<Pages>)
        ensures
            sum == if self.0 + rhs.0 <= WASM_MAX_PAGES {
                Some(Pages((self.0 + rhs.0) as u32))
            } else {
                None
            },
    {
        let added: u64 = self.0 as u64 + rhs.0 as u64;
        if added <= WASM_MAX_PAGES as u64 {
            Some(Pages(added as u32))
        } else {
            None
        }
    }

    /// These pages in bytes.
    pub fn bytes(self) -> (bytes: Bytes)
        requires
            self.byte_count() <= usize::MAX,
        ensures
            bytes.0 == self.byte_count(),
    {
        Bytes(self.0 as usize * WASM_PAGE_SIZE)
    }
}

impl Bytes {
    /// The whole pages in this many bytes; what is left over is dropped.
    pub fn pages(self) -> (pages: Result<Pages, PageCountOutOfRange>)
        ensures
            pages == if self.0 as nat / WASM_PAGE_SIZE as nat <= u32::MAX {
                Ok::<Pages, PageCountOutOfRange>(
                    Pages((self.0 as nat / WASM_PAGE_SIZE as nat) as u32),
                )
            } else {
                Err::<Pages, PageCountOutOfRange>(PageCountOutOfRange)
            },
    {
        let count: u64 = self.0 as u64 / WASM_PAGE_SIZE as u64;
        if count <= u32::MAX as u64 {
            Ok(Pages(count as u32))
        } else {
            Err(PageCountOutOfRange)
        }
    }
}

} // verus!
