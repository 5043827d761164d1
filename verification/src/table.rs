//! Tables of references.

use vstd::prelude::*;

verus! {

/// A reference to a function of an instance. It is not null.
#[derive(Copy, Clone, Debug, PartialEq, Eq, Structural)]
pub struct VMFuncRef(pub u64);

/// A raw table slot: the bits of a reference, or zero for null.
#[derive(Copy, Clone, Debug, PartialEq, Eq, Structural)]
pub struct RawTableElement(pub u64);

impl RawTableElement {
    /// Whether the slot holds no reference.
    pub fn is_null(&self) -> (null: bool)
        ensures
            null == (self.0 == 0),
    {
        self.0 == 0
    }
}

/// A table: its slots, in order.
pub struct VMTable {
    /// The slots.
    pub elements: Vec<RawTableElement>,
}

impl VMTable {
    /// The slots as they are.
    pub fn snapshot_elements(&self) -> (elements: Vec<RawTableElement>)
        ensures
            elements@ == self.elements@,
    {
        vstd::slice::slice_to_vec(self.elements.as_slice())
    }

    /// Makes the slots exactly `elements`, in number as well.
    pub fn restore_elements(&mut self, elements: &[RawTableElement])
        ensures
            final(self).elements@ == elements@,
    {
        self.elements = vstd::slice::slice_to_vec(elements);
    }
}

} // verus!
