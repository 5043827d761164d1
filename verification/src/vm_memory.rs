//! A linear memory of either kind: it hands each operation on to the memory that
//! it is.

use crate::cow::CowBacking;
use crate::error::{ErrorModel, MemoryError};
use crate::memory::{not_supported, LinearMemory, NotifyLocation, Trap, WaiterError};
use crate::memory_type::{MemoryStyle, MemoryType, Platform, VMMemoryConfig};
use crate::owned_memory::{created, style_fits, VMOwnedMemory};
use crate::shared_memory::VMSharedMemory;
use crate::units::Pages;
use crate::wasm_mmap::{did, MaybeInstanceOwned, VMMemoryDefinition, WasmModel};
use vstd::prelude::*;

verus! {

/// A linear memory that is held by one owner or by several threads.
///
/// There are these two kinds and no others: a box of any [`LinearMemory`] in their
/// place is beyond Verus, which takes no trait object of a trait whose methods give
/// such boxes themselves, nor one that can be sent between threads.
pub enum VMMemory {
    /// Held by one owner.
    Owned(VMOwnedMemory),
    /// Held by several threads.
    Shared(VMSharedMemory),
}

impl From<VMOwnedMemory> for VMMemory {
    fn from(memory: VMOwnedMemory) -> (wrapped: Self) {
        VMMemory::Owned(memory)
    }
}

impl vstd::std_specs::convert::FromSpecImpl<VMOwnedMemory> for VMMemory {
    open spec fn obeys_from_spec() -> bool {
        true
    }

    open spec fn from_spec(memory: VMOwnedMemory) -> Self {
        VMMemory::Owned(memory)
    }
}

impl From<VMSharedMemory> for VMMemory {
    fn from(memory: VMSharedMemory) -> (wrapped: Self) {
        VMMemory::Shared(memory)
    }
}

impl vstd::std_specs::convert::FromSpecImpl<VMSharedMemory> for VMMemory {
    open spec fn obeys_from_spec() -> bool {
        true
    }

    open spec fn from_spec(memory: VMSharedMemory) -> Self {
        VMMemory::Shared(memory)
    }
}

impl VMMemory {
    /// The memory as a value, if one owner holds it.
    pub open spec fn known(&self) -> Option<WasmModel> {
        match *self {
            VMMemory::Owned(memory) => Some(memory.model()),
            VMMemory::Shared(_) => None,
        }
    }

    /// The value at which the last operation through this handle left the memory, or at
    /// which the memory was made.
    pub open spec fn last_value(&self) -> WasmModel {
        match *self {
            VMMemory::Owned(memory) => memory.model(),
            VMMemory::Shared(memory) => memory.history().latest(),
        }
    }

    /// The settings that the memory keeps for life.
    pub open spec fn settings(&self) -> VMMemoryConfig {
        match *self {
            VMMemory::Owned(memory) => memory.settings(),
            VMMemory::Shared(memory) => memory.settings(),
        }
    }

    /// What holds of the memory at any time.
    pub open spec fn wf(&self) -> bool {
        match *self {
            VMMemory::Owned(memory) => memory.wf(),
            VMMemory::Shared(memory) => memory.wf(),
        }
    }

    /// What putting an image back gives, or why it is refused.
    pub open spec fn expected_cow(&self, cow: CowBacking) -> Result<WasmModel, ErrorModel> {
        match *self {
            VMMemory::Owned(memory) => memory.expected_cow(cow),
            VMMemory::Shared(_) => Err(
                ErrorModel::UnsupportedOperation { message: "restore_cow() is not supported"@ },
            ),
        }
    }
}

impl VMMemory {
    /// A memory of the declared kind with these limits that keeps its own
    /// definition.
    pub fn new(memory: &MemoryType, style: &MemoryStyle, platform: Platform) -> (made: Result<
        VMMemory,
        MemoryError,
    >)
        requires
            style_fits(*memory, *style),
        ensures
            created(
                made,
                *memory,
                *style,
                platform,
                Seq::<u8>::empty(),
                MaybeInstanceOwned::Host,
            ),
            made matches Ok(m) ==> m is Shared == memory.shared,
    {
        broadcast use {owned_may_be, shared_may_be};

        if memory.shared {
            match VMSharedMemory::new(memory, style, platform) {
                Ok(shared) => Ok(VMMemory::Shared(shared)),
                Err(error) => Err(error),
            }
        } else {
            match VMOwnedMemory::new(memory, style, platform) {
                Ok(owned) => Ok(VMMemory::Owned(owned)),
                Err(error) => Err(error),
            }
        }
    }

    /// How many pages the memory has.
    pub fn get_runtime_size(&self) -> (pages: u32)
        requires
            self.inv(),
        ensures
            exists|memory: WasmModel| #[trigger]
                self.may_be(memory) && pages == memory.pages().0,
    {
        self.size().0
    }

    /// A memory of the declared kind whose definition an instance keeps, in slot
    /// `vm_memory_location` of its context.
    pub fn from_definition(
        memory: &MemoryType,
        style: &MemoryStyle,
        platform: Platform,
        vm_memory_location: usize,
    ) -> (made: Result<VMMemory, MemoryError>)
        requires
            style_fits(*memory, *style),
        ensures
            created(
                made,
                *memory,
                *style,
                platform,
                Seq::<u8>::empty(),
                MaybeInstanceOwned::Instance(vm_memory_location),
            ),
            made matches Ok(m) ==> m is Shared == memory.shared,
    {
        broadcast use {owned_may_be, shared_may_be};

        if memory.shared {
            match VMSharedMemory::from_definition(memory, style, platform, vm_memory_location) {
                Ok(shared) => Ok(VMMemory::Shared(shared)),
                Err(error) => Err(error),
            }
        } else {
            match VMOwnedMemory::from_definition(memory, style, platform, vm_memory_location) {
                Ok(owned) => Ok(VMMemory::Owned(owned)),
                Err(error) => Err(error),
            }
        }
    }

    /// A memory from anything that can become one.
    pub fn from_custom<IntoVMMemory>(memory: IntoVMMemory) -> (made: VMMemory) where
        IntoVMMemory: Into<VMMemory>,

        requires
            call_requires(IntoVMMemory::into, (memory,)),
        ensures
            call_ensures(IntoVMMemory::into, (memory,), made),
    {
        memory.into()
    }

    /// Whether the image may be handed to the memory. One that several threads hold
    /// takes none, and answers so whatever it is handed.
    pub fn takes_cow(&self, cow: &CowBacking) -> (taken: bool)
        requires
            self.inv(),
        ensures
            taken == self.accepts_cow(*cow),
    {
        match self {
            VMMemory::Owned(memory) => memory.takes_cow(cow),
            VMMemory::Shared(_) => true,
        }
    }

    /// A memory of its own that shows the same.
    pub fn copy(&self) -> (copied: Result<VMMemory, MemoryError>)
        requires
            self.inv(),
        ensures
            copied matches Ok(memory) && memory.inv() && memory.config() == self.config()
                && memory is Shared == self is Shared && match (self.known(), memory.known()) {
                (Some(from), Some(to)) => to == from.copy(to.base) && to.base != from.base,
                (None, None) => true,
                _ => false,
            },
    {
        LinearMemory::copy(self)
    }

    /// A second handle of the same memory, if it can have one.
    pub fn try_clone(&self) -> (cloned: Result<VMMemory, MemoryError>)
        requires
            self.inv(),
        ensures
            match (*self, cloned) {
                (VMMemory::Owned(_), Err(error)) => error@ == ErrorModel::MemoryNotShared,
                (VMMemory::Shared(from), Ok(VMMemory::Shared(handle))) => handle == from,
                _ => false,
            },
    {
        LinearMemory::try_clone(self)
    }
}

/// What an owned memory can be, it can be as a memory of either kind.
broadcast proof fn owned_may_be(memory: VMOwnedMemory, model: WasmModel)
    ensures
        #[trigger] memory.may_be(model) ==> VMMemory::Owned(memory).may_be(model),
{
}

/// What a shared memory can be, it can be as a memory of either kind.
broadcast proof fn shared_may_be(memory: VMSharedMemory, model: WasmModel)
    ensures
        #[trigger] memory.may_be(model) ==> VMMemory::Shared(memory).may_be(model),
{
}

impl LinearMemory for VMMemory {
    open spec fn may_be(&self, model: WasmModel) -> bool {
        match *self {
            VMMemory::Owned(memory) => memory.may_be(model),
            VMMemory::Shared(memory) => memory.may_be(model),
        }
    }

    open spec fn config(&self) -> VMMemoryConfig {
        self.settings()
    }

    open spec fn shared(&self) -> bool {
        self is Shared
    }

    open spec fn inv(&self) -> bool {
        self.wf()
    }

    open spec fn accepts_cow(&self, cow: CowBacking) -> bool {
        match *self {
            VMMemory::Owned(memory) => memory.accepts_cow(cow),
            VMMemory::Shared(memory) => memory.accepts_cow(cow),
        }
    }

    open spec fn accepts_data(&self, start: nat, len: nat) -> bool {
        match *self {
            VMMemory::Owned(memory) => memory.accepts_data(start, len),
            VMMemory::Shared(memory) => memory.accepts_data(start, len),
        }
    }

    open spec fn latest(&self) -> WasmModel {
        self.last_value()
    }

    open spec fn passed(&self, after: &Self, found: WasmModel, left: WasmModel) -> bool {
        match (*self, *after) {
            (VMMemory::Owned(from), VMMemory::Owned(to)) => from.passed(&to, found, left),
            (VMMemory::Shared(from), VMMemory::Shared(to)) => from.passed(&to, found, left),
            _ => false,
        }
    }

    proof fn may_be_wf(&self) {
        match *self {
            VMMemory::Owned(memory) => memory.may_be_wf(),
            VMMemory::Shared(memory) => memory.may_be_wf(),
        }
    }

    fn ty(&self) -> MemoryType {
        broadcast use {owned_may_be, shared_may_be};

        match self {
            VMMemory::Owned(memory) => memory.ty(),
            VMMemory::Shared(memory) => memory.ty(),
        }
    }

    fn size(&self) -> Pages {
        broadcast use {owned_may_be, shared_may_be};

        match self {
            VMMemory::Owned(memory) => memory.size(),
            VMMemory::Shared(memory) => memory.size(),
        }
    }

    fn style(&self) -> MemoryStyle {
        match self {
            VMMemory::Owned(memory) => memory.style(),
            VMMemory::Shared(memory) => memory.style(),
        }
    }

    fn grow(&mut self, delta: Pages) -> (previous: Result<Pages, MemoryError>)
    {
        broadcast use {owned_may_be, shared_may_be};

        match self {
            VMMemory::Owned(memory) => memory.grow(delta),
            VMMemory::Shared(memory) => memory.grow(delta),
        }
    }

    fn grow_at_least(&mut self, min_size: u64) -> (result: Result<(), MemoryError>)
        ensures
            exists|before: WasmModel, after: WasmModel|
                {
                    &&& #[trigger] old(self).may_be(before)
                    &&& #[trigger] final(self).may_be(after)
                    &&& old(self).passed(final(self), before, after)
                    &&& did(
                        before,
                        after,
                        result,
                        before.grow_at_least(min_size, old(self).config(), after.base),
                    )
                },
    {
        broadcast use {owned_may_be, shared_may_be};

        match self {
            VMMemory::Owned(memory) => memory.grow_at_least(min_size),
            VMMemory::Shared(memory) => memory.grow_at_least(min_size),
        }
    }

    fn reset(&mut self) -> (result: Result<(), MemoryError>)
        ensures
            result is Ok,
    {
        broadcast use {owned_may_be, shared_may_be};

        match self {
            VMMemory::Owned(memory) => memory.reset(),
            VMMemory::Shared(memory) => memory.reset(),
        }
    }

    fn snapshot_image(&self) -> Vec<u8> {
        broadcast use {owned_may_be, shared_may_be};

        match self {
            VMMemory::Owned(memory) => memory.snapshot_image(),
            VMMemory::Shared(memory) => memory.snapshot_image(),
        }
    }

    fn restore_image(&mut self, image: &[u8]) -> (result: Result<(), MemoryError>)
        ensures
            exists|before: WasmModel, after: WasmModel|
                {
                    &&& #[trigger] old(self).may_be(before)
                    &&& #[trigger] final(self).may_be(after)
                    &&& old(self).passed(final(self), before, after)
                    &&& did(
                        before,
                        after,
                        result,
                        before.restore_image(image@, old(self).config(), after.base),
                    )
                },
    {
        broadcast use {owned_may_be, shared_may_be};

        match self {
            VMMemory::Owned(memory) => memory.restore_image(image),
            VMMemory::Shared(memory) => memory.restore_image(image),
        }
    }

    fn restore_image_bounded(&mut self, image: &[u8], copy_prefix: usize, zero_to: usize) -> (result:
        Result<(), MemoryError>)
    {
        broadcast use {owned_may_be, shared_may_be};

        match self {
            VMMemory::Owned(memory) => memory.restore_image_bounded(image, copy_prefix, zero_to),
            VMMemory::Shared(memory) => memory.restore_image_bounded(image, copy_prefix, zero_to),
        }
    }

    fn supports_cow_snapshot(&self) -> (supported: bool)
        ensures
            supported == (self is Owned && self.config().platform is Linux
                && self.config().style is Static),
    {
        match self {
            VMMemory::Owned(memory) => memory.supports_cow_snapshot(),
            VMMemory::Shared(memory) => memory.supports_cow_snapshot(),
        }
    }

    fn snapshot_cow(&self) -> (taken: Result<CowBacking, MemoryError>)
        ensures
            taken is Ok == (self is Owned && self.config().platform is Linux),
            self is Owned && !(self.config().platform is Linux) ==> not_supported(
                taken,
                "snapshot_cow() is only supported on Linux",
            ),
            self is Shared ==> not_supported(taken, "snapshot_cow() is not supported"),
    {
        broadcast use {owned_may_be, shared_may_be};

        match self {
            VMMemory::Owned(memory) => memory.snapshot_cow(),
            VMMemory::Shared(memory) => memory.snapshot_cow(),
        }
    }

    fn restore_cow(&mut self, cow: &CowBacking) -> (result: Result<(), MemoryError>)
        ensures
            match (old(self).known(), final(self).known()) {
                (Some(before), Some(after)) => did(
                    before,
                    after,
                    result,
                    old(self).expected_cow(*cow),
                ),
                (None, None) => *final(self) == *old(self) && not_supported(
                    result,
                    "restore_cow() is not supported",
                ),
                _ => false,
            },
    {
        broadcast use {owned_may_be, shared_may_be};

        match self {
            VMMemory::Owned(memory) => memory.restore_cow(cow),
            VMMemory::Shared(memory) => memory.restore_cow(cow),
        }
    }

    fn vmmemory(&self) -> VMMemoryDefinition {
        broadcast use {owned_may_be, shared_may_be};

        match self {
            VMMemory::Owned(memory) => memory.vmmemory(),
            VMMemory::Shared(memory) => memory.vmmemory(),
        }
    }

    fn try_clone(&self) -> (cloned: Result<VMMemory, MemoryError>)
        ensures
            match (*self, cloned) {
                (VMMemory::Owned(_), Err(error)) => error@ == ErrorModel::MemoryNotShared,
                (VMMemory::Shared(from), Ok(VMMemory::Shared(handle))) => handle == from,
                _ => false,
            },
    {
        match self {
            VMMemory::Owned(memory) => memory.try_clone(),
            VMMemory::Shared(memory) => memory.try_clone(),
        }
    }

    fn initialize_with_data(&mut self, start: usize, data: &[u8]) -> (result: Result<(), Trap>)
    {
        broadcast use {owned_may_be, shared_may_be};

        match self {
            VMMemory::Owned(memory) => memory.initialize_with_data(start, data),
            VMMemory::Shared(memory) => memory.initialize_with_data(start, data),
        }
    }

    fn copy(&self) -> (copied: Result<VMMemory, MemoryError>) {
        broadcast use {owned_may_be, shared_may_be};

        match self {
            VMMemory::Owned(memory) => LinearMemory::copy(memory),
            VMMemory::Shared(memory) => LinearMemory::copy(memory),
        }
    }

    fn as_shared(&self) -> (shared: Result<VMSharedMemory, MemoryError>)
        ensures
            match (*self, shared) {
                (VMMemory::Owned(_), Err(error)) => error@ == ErrorModel::MemoryNotShared,
                (VMMemory::Shared(from), Ok(handle)) => handle == from,
                _ => false,
            },
    {
        match self {
            VMMemory::Owned(memory) => memory.as_shared(),
            VMMemory::Shared(memory) => memory.as_shared(),
        }
    }

    fn notify_location(&self, dst: u32) -> (location: Result<NotifyLocation, WaiterError>)
        ensures
            location is Ok == self is Shared,
            self is Owned ==> location == Err::<NotifyLocation, WaiterError>(
                WaiterError::Unimplemented,
            ),
    {
        broadcast use {owned_may_be, shared_may_be};

        match self {
            VMMemory::Owned(memory) => memory.notify_location(dst),
            VMMemory::Shared(memory) => memory.notify_location(dst),
        }
    }
}

} // verus!
