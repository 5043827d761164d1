//! What is fixed of a module: it holds for every instance of it.

use vstd::prelude::*;

verus! {

/// The function index that stands for no function.
pub const RESERVED_FUNCTION: u32 = 0xffff_ffff;

/// Something that a module exports, by its place among all of its kind; what is
/// imported comes before what is defined.
#[derive(Copy, Clone, Debug, PartialEq, Eq, Structural)]
pub enum ExportIndex {
    /// A function.
    Function(u32),
    /// A memory.
    Memory(u32),
    /// A global.
    Global(u32),
    /// A table.
    Table(u32),
}

/// What is fixed of a module.
#[derive(Clone, Debug, PartialEq, Eq)]
pub struct ModuleInfo {
    /// The exports, by name.
    pub exports: Vec<(String, ExportIndex)>,
    /// How many globals are imported.
    pub num_imported_globals: usize,
    /// How many globals there are, imported ones included.
    pub num_globals: usize,
    /// The passive element segments: each index once, with its functions.
    pub passive_elements: Vec<(u32, Vec<u32>)>,
    /// The passive data segments: each index once, with its bytes.
    pub passive_data: Vec<(u32, Vec<u8>)>,
}

impl ModuleInfo {
    /// No export name and no segment index is declared twice.
    pub open spec fn wf(&self) -> bool {
        &&& self.num_imported_globals <= self.num_globals
        &&& forall|i: int, j: int|
            0 <= i < j < self.exports@.len() ==> (#[trigger] self.exports@[i]).0@ != (
            #[trigger] self.exports@[j]).0@
        &&& forall|i: int, j: int|
            0 <= i < j < self.passive_elements@.len() ==> (#[trigger] self.passive_elements@[i]).0
                != (#[trigger] self.passive_elements@[j]).0
        &&& forall|i: int, j: int|
            0 <= i < j < self.passive_data@.len() ==> (#[trigger] self.passive_data@[i]).0 != (
            #[trigger] self.passive_data@[j]).0
    }
}

} // verus!
