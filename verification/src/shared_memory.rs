//! A linear memory that several threads hold.

use crate::cow::CowBacking;
use crate::error::MemoryError;
use crate::kept_memory::{Access, History, KeptMemory, Trail};
use crate::memory::{LinearMemory, NotifyLocation, Trap, WaiterError};
use crate::memory_type::{MemoryStyle, MemoryType, Platform, VMMemoryConfig};
use crate::owned_memory::{created, style_fits, VMOwnedMemory};
use crate::units::Pages;
use crate::vm_memory::VMMemory;
use crate::wasm_mmap::{did, MaybeInstanceOwned, VMMemoryDefinition, WasmMmap, WasmModel};
use std::sync::Arc;
use vstd::prelude::*;
use vstd::rwlock::{RwLock, RwLockPredicate};

verus! {

/// What holds of the bytes behind the lock whenever no one is changing them:
/// they are a memory with these settings, its definition is kept there, and its history
/// began there.
pub struct MemoryGuard {
    /// The settings.
    pub conf: VMMemoryConfig,
    /// Who keeps the definition.
    pub owner: MaybeInstanceOwned,
    /// What the memory is told from others by, in proofs.
    pub lineage: int,
    /// The memory as it came behind the lock.
    pub start: WasmModel,
}

impl RwLockPredicate<KeptMemory> for MemoryGuard {
    open spec fn inv(self, memory: KeptMemory) -> bool {
        &&& memory.wf(self.conf)
        &&& memory.model().owner == self.owner
        &&& memory.history().lineage == self.lineage
        &&& memory.history().start == self.start
    }
}

/// A linear memory that several threads hold. A handle is the lock that it leads
/// to: handles with one lock lead to one memory, and what is done through one of them
/// is done to the memory of the other. A handle knows the history of the memory up to
/// the last change that was made through it.
#[derive(Clone)]
pub struct VMSharedMemory {
    mmap: Arc<RwLock<KeptMemory, MemoryGuard>>,
    config: VMMemoryConfig,
    trail: Trail,
}

impl VMSharedMemory {
    /// The settings that the memory keeps for life.
    pub closed spec fn settings(&self) -> VMMemoryConfig {
        self.config
    }

    /// The lock behind the handle.
    pub closed spec fn lock(&self) -> RwLock<KeptMemory, MemoryGuard> {
        *self.mmap
    }

    /// What was done to the memory, up to the last change through this handle. The
    /// memory gave this out while its lock was held.
    pub closed spec fn history(&self) -> History {
        self.trail@
    }

    /// Both handles lead to one memory, with the same settings.
    pub open spec fn same_memory(&self, other: &VMSharedMemory) -> bool {
        self.lock() == other.lock() && self.settings() == other.settings()
    }

    /// Who keeps the memory's definition.
    pub open spec fn owner(&self) -> MaybeInstanceOwned {
        self.lock().pred().owner
    }

    /// The lock guards a memory with the handle's settings, and the history that the
    /// handle knows is that memory's.
    pub open spec fn wf(&self) -> bool {
        &&& self.lock().pred().conf == self.settings()
        &&& self.history().lineage == self.lock().pred().lineage
        &&& self.history().start == self.lock().pred().start
        &&& self.history().linked()
    }

    /// A memory that several threads can hold, from its bytes.
    pub fn guarding(mmap: WasmMmap, config: VMMemoryConfig) -> (shared: VMSharedMemory)
        requires
            mmap.wf(config),
        ensures
            shared.inv(),
            shared.config() == config,
            shared.owner() == mmap@.owner,
            shared.latest() == mmap@,
            shared.may_be(mmap@),
            shared.history().start == mmap@,
            shared.history().steps.len() == 0,
    {
        let (kept, trail) = KeptMemory::new(mmap, config);
        let ghost guard = MemoryGuard {
            conf: config,
            owner: mmap@.owner,
            lineage: kept.history().lineage,
            start: mmap@,
        };
        let ghost first = kept;
        let shared = VMSharedMemory {
            mmap: Arc::new(RwLock::new(kept, Ghost(guard))),
            config,
            trail,
        };
        assert(shared.lock().inv(first));
        shared
    }

    /// A second handle of the same memory.
    pub fn handle(&self) -> (handle: VMSharedMemory)
        requires
            self.inv(),
        ensures
            handle == *self,
    {
        VMSharedMemory { mmap: self.mmap.clone(), config: self.config, trail: self.trail }
    }

    /// A memory with these limits that keeps its own definition.
    pub fn new(memory: &MemoryType, style: &MemoryStyle, platform: Platform) -> (made: Result<
        VMSharedMemory,
        MemoryError,
    >)
        requires
            style_fits(*memory, *style),
        ensures
            created(
                made,
                *memory,
                *style,
                platform,
                Seq::<u8>::empty(),
                MaybeInstanceOwned::Host,
            ),
    {
        match VMOwnedMemory::new(memory, style, platform) {
            Ok(owned) => Ok(owned.to_shared()),
            Err(error) => Err(error),
        }
    }

    /// A memory over a file that holds `file`, which keeps its own definition.
    pub fn new_with_file(
        memory: &MemoryType,
        style: &MemoryStyle,
        platform: Platform,
        file: &[u8],
    ) -> (made: Result<VMSharedMemory, MemoryError>)
        requires
            style_fits(*memory, *style),
        ensures
            created(made, *memory, *style, platform, file@, MaybeInstanceOwned::Host),
    {
        match VMOwnedMemory::new_with_file(memory, style, platform, file) {
            Ok(owned) => Ok(owned.to_shared()),
            Err(error) => Err(error),
        }
    }

    /// A memory whose definition an instance keeps, in slot
    /// `vm_memory_location` of its context.
    pub fn from_definition(
        memory: &MemoryType,
        style: &MemoryStyle,
        platform: Platform,
        vm_memory_location: usize,
    ) -> (made: Result<VMSharedMemory, MemoryError>)
        requires
            style_fits(*memory, *style),
        ensures
            created(
                made,
                *memory,
                *style,
                platform,
                Seq::<u8>::empty(),
                MaybeInstanceOwned::Instance(vm_memory_location),
            ),
    {
        match VMOwnedMemory::from_definition(memory, style, platform, vm_memory_location) {
            Ok(owned) => Ok(owned.to_shared()),
            Err(error) => Err(error),
        }
    }

    /// A memory over a file that holds `file`, if there is one, whose definition
    /// an instance keeps, in slot `vm_memory_location` of its context.
    pub fn from_definition_with_file(
        memory: &MemoryType,
        style: &MemoryStyle,
        platform: Platform,
        vm_memory_location: usize,
        file: Option<&[u8]>,
    ) -> (made: Result<VMSharedMemory, MemoryError>)
        requires
            style_fits(*memory, *style),
        ensures
            created(
                made,
                *memory,
                *style,
                platform,
                match file {
                    Some(bytes) => bytes@,
                    None => Seq::<u8>::empty(),
                },
                MaybeInstanceOwned::Instance(vm_memory_location),
            ),
    {
        match VMOwnedMemory::from_definition_with_file(
            memory,
            style,
            platform,
            vm_memory_location,
            file,
        ) {
            Ok(owned) => Ok(owned.to_shared()),
            Err(error) => Err(error),
        }
    }

    /// A memory of its own that shows what this one shows now.
    pub fn copy(&self) -> (copy: Result<VMSharedMemory, MemoryError>)
        requires
            self.inv(),
        ensures
            copy matches Ok(memory) && memory.inv() && memory.config() == self.config()
                && memory.owner() == MaybeInstanceOwned::Host && exists|from: WasmModel| #[trigger]
                self.may_be(from) && memory.latest() == from.copy(memory.latest().base)
                    && memory.latest().base != from.base,
    {
        let guard = self.mmap.acquire_read();
        proof {
            guard.view().is_in_order(self.config);
            assert(self.may_be(guard.view().model()));
        }
        let copy = guard.borrow().copy();
        guard.release_read();
        match copy {
            Ok(mmap) => Ok(VMSharedMemory::guarding(mmap, self.config)),
            Err(error) => Err(error),
        }
    }
}

impl LinearMemory for VMSharedMemory {
    /// Other threads may be changing the memory: it can have any value at which it can
    /// lie behind its lock. Which these are is only known from what lay there.
    open spec fn may_be(&self, model: WasmModel) -> bool {
        exists|kept: KeptMemory| #[trigger] self.lock().inv(kept) && kept.model() == model
    }

    open spec fn config(&self) -> VMMemoryConfig {
        self.settings()
    }

    open spec fn shared(&self) -> bool {
        true
    }

    open spec fn inv(&self) -> bool {
        self.wf()
    }

    /// The image is refused whatever it is.
    open spec fn accepts_cow(&self, cow: CowBacking) -> bool {
        true
    }

    /// Whether there is room is only known when the write happens.
    open spec fn accepts_data(&self, start: nat, len: nat) -> bool {
        true
    }

    open spec fn latest(&self) -> WasmModel {
        self.history().latest()
    }

    /// The last access that the memory wrote down while its lock was held for this
    /// operation.
    open spec fn passed(&self, after: &Self, found: WasmModel, left: WasmModel) -> bool {
        &&& after.same_memory(self)
        &&& after.history().steps.len() > 0
        &&& after.history().steps.last() == (Access { found, left })
    }

    proof fn may_be_wf(&self) {
        assert forall|model: WasmModel| #[trigger] self.may_be(model) implies model.wf(
            self.config(),
        ) by {
            let kept = choose|kept: KeptMemory| #[trigger]
                self.lock().inv(kept) && kept.model() == model;
            kept.is_in_order(self.config());
        }
    }

    fn ty(&self) -> MemoryType {
        let minimum = self.size();
        self.config.ty(minimum)
    }

    fn size(&self) -> Pages {
        let guard = self.mmap.acquire_read();
        proof {
            guard.view().is_in_order(self.config);
        }
        let size = guard.borrow().size();
        assert(self.may_be(guard.view().model()));
        guard.release_read();
        size
    }

    fn style(&self) -> MemoryStyle {
        self.config.style()
    }

    fn grow(&mut self, delta: Pages) -> (previous: Result<Pages, MemoryError>)
        ensures
            final(self).same_memory(old(self)),
    {
        let (mut memory, guard) = self.mmap.acquire_write();
        let ghost found = memory;
        let ghost before = memory.model();
        proof {
            memory.is_in_order(self.config);
        }
        let previous = memory.grow(delta, self.config);
        proof {
            memory.is_in_order(self.config);
        }
        let ghost left = memory;
        let ghost after = memory.model();
        self.trail = memory.put_back(guard);
        assert(old(self).lock().inv(found) && self.lock().inv(left));
        assert(old(self).may_be(before) && self.may_be(after));
        previous
    }

    fn grow_at_least(&mut self, min_size: u64) -> (result: Result<(), MemoryError>)
        ensures
            final(self).same_memory(old(self)),
            exists|before: WasmModel, after: WasmModel|
                {
                    &&& #[trigger] old(self).may_be(before)
                    &&& #[trigger] final(self).may_be(after)
                    &&& old(self).passed(final(self), before, after)
                    &&& did(
                        before,
                        after,
                        result,
                        before.grow_at_least(min_size, old(self).config(), after.base),
                    )
                },
    {
        let (mut memory, guard) = self.mmap.acquire_write();
        let ghost found = memory;
        let ghost before = memory.model();
        proof {
            memory.is_in_order(self.config);
        }
        let result = memory.grow_at_least(min_size, self.config);
        proof {
            memory.is_in_order(self.config);
        }
        let ghost left = memory;
        let ghost after = memory.model();
        self.trail = memory.put_back(guard);
        assert(old(self).lock().inv(found) && self.lock().inv(left));
        assert(old(self).may_be(before) && self.may_be(after));
        result
    }

    fn reset(&mut self) -> (result: Result<(), MemoryError>)
        ensures
            final(self).same_memory(old(self)),
            result is Ok,
    {
        let (mut memory, guard) = self.mmap.acquire_write();
        let ghost found = memory;
        let ghost before = memory.model();
        proof {
            memory.is_in_order(self.config);
        }
        memory.reset(self.config);
        proof {
            memory.is_in_order(self.config);
        }
        let ghost left = memory;
        let ghost after = memory.model();
        self.trail = memory.put_back(guard);
        assert(old(self).lock().inv(found) && self.lock().inv(left));
        assert(old(self).may_be(before) && self.may_be(after));
        Ok(())
    }

    fn snapshot_image(&self) -> Vec<u8> {
        let guard = self.mmap.acquire_read();
        proof {
            guard.view().is_in_order(self.config);
        }
        let image = guard.borrow().live();
        assert(self.may_be(guard.view().model()));
        guard.release_read();
        image
    }

    fn restore_image(&mut self, image: &[u8]) -> (result: Result<(), MemoryError>)
        ensures
            final(self).same_memory(old(self)),
            exists|before: WasmModel, after: WasmModel|
                {
                    &&& #[trigger] old(self).may_be(before)
                    &&& #[trigger] final(self).may_be(after)
                    &&& old(self).passed(final(self), before, after)
                    &&& did(
                        before,
                        after,
                        result,
                        before.restore_image(image@, old(self).config(), after.base),
                    )
                },
    {
        let (mut memory, guard) = self.mmap.acquire_write();
        let ghost found = memory;
        let ghost before = memory.model();
        proof {
            memory.is_in_order(self.config);
        }
        assert(self.may_be(before));
        let result = memory.restore_image(image, self.config);
        proof {
            memory.is_in_order(self.config);
        }
        let ghost left = memory;
        let ghost after = memory.model();
        self.trail = memory.put_back(guard);
        assert(old(self).lock().inv(found) && self.lock().inv(left));
        assert(old(self).may_be(before) && self.may_be(after));
        result
    }

    fn restore_image_bounded(&mut self, image: &[u8], copy_prefix: usize, zero_to: usize) -> (result:
        Result<(), MemoryError>)
        ensures
            final(self).same_memory(old(self)),
    {
        let (mut memory, guard) = self.mmap.acquire_write();
        let ghost found = memory;
        let ghost before = memory.model();
        proof {
            memory.is_in_order(self.config);
        }
        assert(self.may_be(before));
        memory.restore_image_bounded(image, copy_prefix, zero_to, self.config);
        proof {
            memory.is_in_order(self.config);
        }
        let ghost left = memory;
        let ghost after = memory.model();
        self.trail = memory.put_back(guard);
        assert(old(self).lock().inv(found) && self.lock().inv(left));
        assert(old(self).may_be(before) && self.may_be(after));
        Ok(())
    }

    fn vmmemory(&self) -> VMMemoryDefinition {
        let guard = self.mmap.acquire_read();
        let definition = guard.borrow().get_vm_memory_definition();
        proof {
            guard.view().is_in_order(self.config);
        }
        assert(self.may_be(guard.view().model()));
        guard.release_read();
        definition
    }

    /// A shared memory can always have one more handle.
    fn try_clone(&self) -> (cloned: Result<VMMemory, MemoryError>)
        ensures
            cloned matches Ok(VMMemory::Shared(handle)) && handle == *self,
    {
        Ok(VMMemory::Shared(self.handle()))
    }

    fn initialize_with_data(&mut self, start: usize, data: &[u8]) -> (result: Result<(), Trap>)
        ensures
            final(self).same_memory(old(self)),
    {
        let (mut memory, guard) = self.mmap.acquire_write();
        let ghost found = memory;
        let ghost before = memory.model();
        proof {
            memory.is_in_order(self.config);
        }
        let result = memory.initialize(start, data, self.config);
        proof {
            memory.is_in_order(self.config);
        }
        let ghost left = memory;
        let ghost after = memory.model();
        self.trail = memory.put_back(guard);
        assert(old(self).lock().inv(found) && self.lock().inv(left));
        assert(old(self).may_be(before) && self.may_be(after));
        result
    }

    fn copy(&self) -> (copied: Result<VMMemory, MemoryError>) {
        match VMSharedMemory::copy(self) {
            Ok(memory) => Ok(VMMemory::Shared(memory)),
            Err(error) => Err(error),
        }
    }

    fn as_shared(&self) -> (shared: Result<VMSharedMemory, MemoryError>)
        ensures
            shared matches Ok(handle) && handle == *self,
    {
        Ok(self.handle())
    }

    /// Threads can wait on a shared memory.
    fn notify_location(&self, dst: u32) -> (location: Result<NotifyLocation, WaiterError>)
        ensures
            location is Ok,
    {
        let guard = self.mmap.acquire_read();
        let memory_base: usize = guard.borrow().get_vm_memory_definition().base;
        proof {
            guard.view().is_in_order(self.config);
        }
        assert(self.may_be(guard.view().model()));
        guard.release_read();
        Ok(NotifyLocation { address: dst, memory_base })
    }
}

} // verus!
