//! What every linear memory can do.

use crate::cow::CowBacking;
use crate::error::{unsupported, ErrorModel, MemoryError};
use crate::memory_type::{MemoryStyle, MemoryType, VMMemoryConfig};
use crate::shared_memory::VMSharedMemory;
use crate::units::Pages;
use crate::vm_memory::VMMemory;
use crate::wasm_mmap::{did, image_fits, VMMemoryDefinition, WasmMmap, WasmModel};
use vstd::prelude::*;

verus! {

/// An access that the memory does not have room for.
#[derive(Copy, Clone, Debug, PartialEq, Eq, Structural)]
pub struct Trap;

/// Why a thread cannot wait on an address.
#[derive(Copy, Clone, Debug, PartialEq, Eq, Structural)]
pub enum WaiterError {
    /// The memory does not support waiting.
    Unimplemented,
}

/// An address that threads wait on: an offset, and the base of the memory.
#[derive(Copy, Clone, Debug, PartialEq, Eq, Structural)]
pub struct NotifyLocation {
    /// The offset in the memory.
    pub address: u32,
    /// What the memory is told from others by.
    pub memory_base: usize,
}

/// The answer of a memory that does not know the operation.
pub open spec fn not_supported<T>(result: Result<T, MemoryError>, message: &str) -> bool {
    result matches Err(error) && error@ == (ErrorModel::UnsupportedOperation { message: message@ })
}

/// `data` was written into `before` from `start` on, giving `after`; or there was
/// no room for it, and nothing changed.
pub open spec fn wrote(
    before: WasmModel,
    after: WasmModel,
    start: nat,
    data: Seq<u8>,
    result: Result<(), Trap>,
) -> bool {
    if start + data.len() <= before.length {
        result is Ok && after == before.write(start, data)
    } else {
        result is Err && after == before
    }
}

/// `cow` holds what `memory` shows.
pub open spec fn captured(memory: WasmModel, cow: CowBacking) -> bool {
    &&& cow.wf()
    &&& cow.image@ == memory.live()
    &&& cow.pages == memory.pages()
    &&& cow.base == memory.base
}

/// From `prefix` on, `image` is zero as far as a restore bounded by `bound`
/// reaches in `memory`: up to the bound, the image's end and the memory's.
pub open spec fn zero_behind(memory: WasmModel, image: Seq<u8>, prefix: nat, bound: nat) -> bool {
    forall|i: int|
        prefix <= i < image.len() && i < bound && i < memory.length ==> #[trigger] image[i] == 0
}

/// A linear memory, as a module uses it.
///
/// A memory that one owner holds has one value at a time. Of a memory that
/// several threads hold only some things are known; `may_be` tells which values
/// it can have. Each operation finds the memory at one such value and leaves it
/// at another.
pub trait LinearMemory: Sized {
    /// Whether the memory can have this value now.
    spec fn may_be(&self, model: WasmModel) -> bool;

    /// The settings that the memory keeps for life.
    spec fn config(&self) -> VMMemoryConfig;

    /// What holds of the memory at any time.
    spec fn inv(&self) -> bool;

    /// Whether several threads may hold the memory.
    spec fn shared(&self) -> bool;

    /// Whether the image can go over the memory; see
    /// [`restore_cow`](LinearMemory::restore_cow).
    spec fn accepts_cow(&self, cow: CowBacking) -> bool;

    /// Whether `len` bytes may be written from `start` on; see
    /// [`initialize_with_data`](LinearMemory::initialize_with_data).
    spec fn accepts_data(&self, start: nat, len: nat) -> bool;

    /// The value at which the last operation through this handle left the memory, or at
    /// which the memory was made.
    spec fn latest(&self) -> WasmModel;

    /// The operation that made `after` of this handle found the memory at `found` and
    /// left it at `left`: these are the values of the memory itself, at the moment when
    /// the operation began and at the moment when it ended.
    spec fn passed(&self, after: &Self, found: WasmModel, left: WasmModel) -> bool;

    /// Every value that the memory can have is in order.
    proof fn may_be_wf(&self)
        requires
            self.inv(),
        ensures
            forall|model: WasmModel| #[trigger] self.may_be(model) ==> model.wf(self.config()),
    ;

    /// The memory's type, with the present size as its minimum.
    fn ty(&self) -> (ty: MemoryType)
        requires
            self.inv(),
        ensures
            exists|memory: WasmModel| #[trigger]
                self.may_be(memory) && ty == self.config().type_at(memory.pages()),
    ;

    /// The memory's size in pages.
    fn size(&self) -> (size: Pages)
        requires
            self.inv(),
        ensures
            exists|memory: WasmModel| #[trigger] self.may_be(memory) && size == memory.pages(),
    ;

    /// How room was set aside for the memory.
    fn style(&self) -> (style: MemoryStyle)
        requires
            self.inv(),
        ensures
            style == self.config().style,
    ;

    /// Grows the memory by `delta` pages and returns the pages that it had.
    fn grow(&mut self, delta: Pages) -> (previous: Result<Pages, MemoryError>)
        requires
            old(self).inv(),
        ensures
            final(self).inv(),
            final(self).config() == old(self).config(),
            final(self).shared() == old(self).shared(),
            exists|before: WasmModel, after: WasmModel|
                {
                    &&& #[trigger] old(self).may_be(before)
                    &&& #[trigger] final(self).may_be(after)
                    &&& old(self).passed(final(self), before, after)
                    &&& did(
                        before,
                        after,
                        previous,
                        before.grow(delta, old(self).config(), after.base),
                    )
                    &&& previous matches Ok(pages) ==> pages == before.pages()
                },
    ;

    /// Grows the memory to at least `min_size` bytes, unless it has them.
    fn grow_at_least(&mut self, min_size: u64) -> (result: Result<(), MemoryError>)
        requires
            old(self).inv(),
        ensures
            final(self).inv(),
            final(self).config() == old(self).config(),
            final(self).shared() == old(self).shared(),
            ({
                ||| not_supported(result, "grow_at_least() is not supported") && *final(self)
                    == *old(self)
                ||| exists|before: WasmModel, after: WasmModel|
                    {
                        &&& #[trigger] old(self).may_be(before)
                        &&& #[trigger] final(self).may_be(after)
                        &&& old(self).passed(final(self), before, after)
                        &&& did(
                            before,
                            after,
                            result,
                            before.grow_at_least(min_size, old(self).config(), after.base),
                        )
                    }
            }),
        default_ensures
            *final(self) == *old(self),
            not_supported(result, "grow_at_least() is not supported"),
    {
        Err(unsupported("grow_at_least() is not supported"))
    }

    /// Takes every page from the memory.
    fn reset(&mut self) -> (result: Result<(), MemoryError>)
        requires
            old(self).inv(),
        ensures
            final(self).inv(),
            final(self).config() == old(self).config(),
            final(self).shared() == old(self).shared(),
            ({
                ||| not_supported(result, "reset() is not supported") && *final(self) == *old(self)
                ||| exists|before: WasmModel, after: WasmModel|
                    {
                        &&& #[trigger] old(self).may_be(before)
                        &&& #[trigger] final(self).may_be(after)
                        &&& old(self).passed(final(self), before, after)
                        &&& result is Ok
                        &&& after == before.reset()
                    }
            }),
        default_ensures
            *final(self) == *old(self),
            not_supported(result, "reset() is not supported"),
    {
        Err(unsupported("reset() is not supported"))
    }

    /// The bytes that the memory shows, which are whole pages. Pair with
    /// [`restore_image`](LinearMemory::restore_image).
    fn snapshot_image(&self) -> (image: Vec<u8>)
        requires
            self.inv(),
        ensures
            exists|memory: WasmModel| #[trigger]
                self.may_be(memory) && image@ == memory.live() && image@.len()
                    == memory.pages().byte_count(),
    ;

    /// Makes the memory show exactly `image`. If it had grown past the image,
    /// the bytes above are zeros when the memory grows there again.
    fn restore_image(&mut self, image: &[u8]) -> (result: Result<(), MemoryError>)
        requires
            old(self).inv(),
            image_fits(image@.len()),
        ensures
            final(self).inv(),
            final(self).config() == old(self).config(),
            final(self).shared() == old(self).shared(),
            ({
                ||| not_supported(result, "restore_image() is not supported") && *final(self)
                    == *old(self)
                ||| exists|before: WasmModel, after: WasmModel|
                    {
                        &&& #[trigger] old(self).may_be(before)
                        &&& #[trigger] final(self).may_be(after)
                        &&& old(self).passed(final(self), before, after)
                        &&& did(
                            before,
                            after,
                            result,
                            before.restore_image(image@, old(self).config(), after.base),
                        )
                    }
            }),
        default_ensures
            *final(self) == *old(self),
            not_supported(result, "restore_image() is not supported"),
    {
        Err(unsupported("restore_image() is not supported"))
    }

    /// Puts the first `zero_to` bytes back to those of `image`, where the image
    /// is zero from `copy_prefix` on. What lies above stays, and so does the
    /// size: the caller knows that it is at its reset value already.
    fn restore_image_bounded(&mut self, image: &[u8], copy_prefix: usize, zero_to: usize) -> (result:
        Result<(), MemoryError>)
        requires
            old(self).inv(),
            forall|memory: WasmModel| #[trigger]
                old(self).may_be(memory) ==> zero_behind(
                    memory,
                    image@,
                    copy_prefix as nat,
                    zero_to as nat,
                ),
        ensures
            final(self).inv(),
            final(self).config() == old(self).config(),
            final(self).shared() == old(self).shared(),
            result is Ok,
            exists|before: WasmModel, after: WasmModel|
                {
                    &&& #[trigger] old(self).may_be(before)
                    &&& #[trigger] final(self).may_be(after)
                    &&& old(self).passed(final(self), before, after)
                    &&& after == before.restore_bounded(image@, zero_to as nat)
                },
    ;

    /// Whether the memory can be captured copy-on-write.
    fn supports_cow_snapshot(&self) -> (supported: bool)
        requires
            self.inv(),
        default_ensures
            !supported,
    {
        false
    }

    /// Captures what the memory shows copy-on-write.
    fn snapshot_cow(&self) -> (taken: Result<CowBacking, MemoryError>)
        requires
            self.inv(),
        ensures
            taken matches Ok(cow) ==> exists|memory: WasmModel| #[trigger]
                self.may_be(memory) && captured(memory, cow),
        default_ensures
            not_supported(taken, "snapshot_cow() is not supported"),
    {
        Err(unsupported("snapshot_cow() is not supported"))
    }

    /// Makes the memory show exactly the image of `cow`.
    fn restore_cow(&mut self, cow: &CowBacking) -> (result: Result<(), MemoryError>)
        requires
            old(self).inv(),
            old(self).accepts_cow(*cow),
        ensures
            final(self).inv(),
            final(self).config() == old(self).config(),
            final(self).shared() == old(self).shared(),
            result is Ok ==> exists|before: WasmModel, after: WasmModel|
                {
                    &&& #[trigger] old(self).may_be(before)
                    &&& #[trigger] final(self).may_be(after)
                    &&& old(self).passed(final(self), before, after)
                    &&& before.restore_cow(*cow) == Ok::<WasmModel, ErrorModel>(after)
                },
        default_ensures
            *final(self) == *old(self),
            not_supported(result, "restore_cow() is not supported"),
    {
        Err(unsupported("restore_cow() is not supported"))
    }

    /// What compiled code reads of the memory.
    fn vmmemory(&self) -> (definition: VMMemoryDefinition)
        requires
            self.inv(),
        ensures
            exists|memory: WasmModel| #[trigger]
                self.may_be(memory) && definition.base == memory.base && definition.current_length
                    == memory.length,
    ;

    /// A second handle of the same memory, if it can have one.
    fn try_clone(&self) -> (cloned: Result<VMMemory, MemoryError>)
        requires
            self.inv(),
        ensures
            match cloned {
                Ok(memory) => self.shared() && memory.wf() && memory is Shared && memory.settings()
                    == self.config(),
                Err(error) => !self.shared() && error@ == ErrorModel::MemoryNotShared,
            },
    ;

    /// Writes `data` from `start` on, when a module's data is laid out. A memory
    /// that others may change answers with a trap if there is no room when its
    /// turn comes.
    fn initialize_with_data(&mut self, start: usize, data: &[u8]) -> (result: Result<(), Trap>)
        requires
            old(self).inv(),
            old(self).accepts_data(start as nat, data@.len()),
        ensures
            final(self).inv(),
            final(self).config() == old(self).config(),
            final(self).shared() == old(self).shared(),
            exists|before: WasmModel, after: WasmModel|
                {
                    &&& #[trigger] old(self).may_be(before)
                    &&& #[trigger] final(self).may_be(after)
                    &&& old(self).passed(final(self), before, after)
                    &&& wrote(before, after, start as nat, data@, result)
                },
    ;

    /// A memory of its own that shows the same.
    fn copy(&self) -> (copied: Result<VMMemory, MemoryError>)
        requires
            self.inv(),
        ensures
            copied matches Ok(memory) && memory.wf() && memory.settings() == self.config()
                && memory is Shared == self.shared() && (memory.known() matches Some(to)
                ==> exists|from: WasmModel| #[trigger]
                self.may_be(from) && to == from.copy(to.base) && to.base != from.base) && exists|
                from: WasmModel,
            | #[trigger]
                self.may_be(from) && memory.last_value() == from.copy(memory.last_value().base)
                    && memory.last_value().base != from.base,
    ;

    /// This memory as a shared one, if it is one.
    fn as_shared(&self) -> (shared: Result<VMSharedMemory, MemoryError>)
        requires
            self.inv(),
        ensures
            match shared {
                Ok(memory) => self.shared() && memory.wf() && memory.settings() == self.config(),
                Err(error) => !self.shared() && error@ == ErrorModel::MemoryNotShared,
            },
    ;

    /// The address that threads wait on at offset `dst`, if the memory supports
    /// waiting.
    fn notify_location(&self, dst: u32) -> (location: Result<NotifyLocation, WaiterError>)
        requires
            self.inv(),
        ensures
            location matches Ok(found) ==> found.address == dst && exists|memory: WasmModel|
                #[trigger] self.may_be(memory) && found.memory_base == memory.base,
        default_ensures
            location == Err::<NotifyLocation, WaiterError>(WaiterError::Unimplemented),
    {
        Err(WaiterError::Unimplemented)
    }
}

/// Writes `data` into the memory from `start` on.
pub fn initialize_memory_with_data(memory: &mut WasmMmap, start: usize, data: &[u8]) -> (result:
    Result<(), Trap>)
    requires
        old(memory).sound(),
        start + data@.len() <= old(memory)@.length,
    ensures
        final(memory).sound(),
        result is Ok,
        final(memory)@ == old(memory)@.write(start as nat, data@),
{
    memory.write(start, data);
    Ok(())
}

} // verus!
