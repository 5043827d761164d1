//! What is asked of a linear memory when it is made.

use crate::units::Pages;
use vstd::prelude::*;

verus! {

/// The declared limits of a linear memory.
#[derive(Copy, Clone, Debug, PartialEq, Eq, Structural)]
pub struct MemoryType {
    /// The pages that the memory has from the start.
    pub minimum: Pages,
    /// The pages that the memory may not exceed, if there is such a limit.
    pub maximum: Option<Pages>,
    /// Whether several threads may hold the memory.
    pub shared: bool,
}

/// How room is set aside for a linear memory.
#[derive(Copy, Clone, Debug, PartialEq, Eq, Structural)]
pub enum MemoryStyle {
    /// Room for the present size only: a memory that outgrows it moves.
    Dynamic { offset_guard_size: u64 },
    /// Room for `bound` pages from the start: the memory stays put, and cannot
    /// outgrow that room.
    Static { bound: Pages, offset_guard_size: u64 },
}

impl MemoryStyle {
    /// Bytes of guard room behind the pages.
    pub open spec fn guard_bytes(self) -> u64 {
        match self {
            MemoryStyle::Dynamic { offset_guard_size } => offset_guard_size,
            MemoryStyle::Static { offset_guard_size, .. } => offset_guard_size,
        }
    }

    /// Bytes of guard room behind the pages.
    pub fn offset_guard_size(&self) -> (guard: u64)
        ensures
            guard == self.guard_bytes(),
    {
        match *self {
            MemoryStyle::Dynamic { offset_guard_size } => offset_guard_size,
            MemoryStyle::Static { offset_guard_size, .. } => offset_guard_size,
        }
    }
}

/// The kind of operating system that a memory lives on.
#[derive(Copy, Clone, Debug, PartialEq, Eq, Structural)]
pub enum Platform {
    /// Linux, where a memory can be captured copy-on-write.
    Linux,
    /// Any other.
    Other,
}

/// The settings that a memory keeps for life.
#[derive(Copy, Clone, Debug, PartialEq, Eq, Structural)]
pub struct VMMemoryConfig {
    /// The pages that the memory may not exceed, if there is such a limit.
    pub maximum: Option<Pages>,
    /// The limits that the memory was declared with.
    pub memory: MemoryType,
    /// How room was set aside.
    pub style: MemoryStyle,
    /// Bytes of guard room behind the pages.
    pub offset_guard_size: usize,
    /// Where the memory lives.
    pub platform: Platform,
}

impl VMMemoryConfig {
    /// The declared type with the present size as its minimum.
    pub open spec fn type_at(self, minimum: Pages) -> MemoryType {
        MemoryType { minimum, maximum: self.memory.maximum, shared: self.memory.shared }
    }

    /// The declared type with the present size as its minimum.
    pub fn ty(&self, minimum: Pages) -> (ty: MemoryType)
        ensures
            ty == self.type_at(minimum),
    {
        MemoryType { minimum, maximum: self.memory.maximum, shared: self.memory.shared }
    }

    /// How room was set aside.
    pub fn style(&self) -> (style: MemoryStyle)
        ensures
            style == self.style,
    {
        self.style
    }
}

} // verus!
