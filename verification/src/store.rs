//! What a store holds: memories, globals and tables, each under an index that
//! serves as its handle.

use crate::memory::LinearMemory;
use crate::table::{VMFuncRef, VMTable};
use crate::vm_memory::VMMemory;
use vstd::prelude::*;

verus! {

/// A global variable: its raw bits.
#[derive(Copy, Clone, Debug, PartialEq, Eq, Structural)]
pub struct VMGlobal {
    /// The bits, whatever the global's type.
    pub val: u128,
}

/// The objects of a store. A handle is an index into one of the lists; an object
/// stays under its handle for life.
pub struct StoreObjects {
    /// The linear memories.
    pub memories: Vec<VMMemory>,
    /// The globals.
    pub globals: Vec<VMGlobal>,
    /// The tables.
    pub tables: Vec<VMTable>,
}

/// An object that a module can export, as the store knows it.
#[derive(Copy, Clone, Debug, PartialEq, Eq, Structural)]
pub enum VMExtern {
    /// A function.
    Function(VMFuncRef),
    /// A memory, by its handle.
    Memory(usize),
    /// A global, by its handle.
    Global(usize),
    /// A table, by its handle.
    Table(usize),
}

/// Every handle is one of `count` objects.
pub open spec fn in_range(handles: Seq<usize>, count: nat) -> bool {
    forall|k: int| 0 <= k < handles.len() ==> #[trigger] handles[k] < count
}

/// No handle occurs twice.
pub open spec fn distinct(handles: Seq<usize>) -> bool {
    forall|j: int, k: int|
        0 <= j < k < handles.len() ==> #[trigger] handles[j] != #[trigger] handles[k]
}

/// The objects that `handles` do not name are as they were, and there are as many
/// as before.
pub open spec fn others_kept<T>(pre: Seq<T>, post: Seq<T>, handles: Seq<usize>) -> bool {
    &&& post.len() == pre.len()
    &&& forall|i: int|
        0 <= i < pre.len() && !handles.contains(i as usize) ==> #[trigger] post[i] == pre[i]
}

impl StoreObjects {
    /// Every memory is in order.
    pub open spec fn wf(&self) -> bool {
        forall|i: int| 0 <= i < self.memories@.len() ==> (#[trigger] self.memories@[i]).inv()
    }

    /// A store without objects.
    pub fn new() -> (objects: StoreObjects)
        ensures
            objects.wf(),
            objects.memories@.len() == 0,
            objects.globals@.len() == 0,
            objects.tables@.len() == 0,
    {
        StoreObjects { memories: Vec::new(), globals: Vec::new(), tables: Vec::new() }
    }
}

} // verus!
