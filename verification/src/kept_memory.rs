//! The bytes of a linear memory behind a lock, and what happened to them there.
//!
//! Whoever holds the lock finds the memory at some value and leaves it at another.
//! Each such access is written down with the bytes themselves, so what an access left
//! can be told after the lock was released, when others may be changing the memory
//! again. The bytes can only be reached through the operations here, each of which
//! writes down what it did.

use crate::error::MemoryError;
use crate::memory::{initialize_memory_with_data, wrote, Trap};
use crate::memory_type::VMMemoryConfig;
use crate::units::Pages;
use crate::wasm_mmap::{did, image_fits, VMMemoryDefinition, WasmMmap, WasmModel};
use vstd::prelude::*;
use vstd::rwlock::{RwLockPredicate, WriteHandle};

verus! {

/// One access: the value at which the memory was found, and the one at which it was
/// left.
pub struct Access {
    /// The memory as it was found.
    pub found: WasmModel,
    /// The memory as it was left.
    pub left: WasmModel,
}

/// Everything that was done to one memory behind its lock, in order.
pub struct History {
    /// What the memory is told from others by, in proofs.
    pub lineage: int,
    /// The memory as it came behind the lock.
    pub start: WasmModel,
    /// The accesses.
    pub steps: Seq<Access>,
}

impl History {
    /// The memory as the last access left it.
    pub open spec fn latest(self) -> WasmModel {
        if self.steps.len() == 0 {
            self.start
        } else {
            self.steps.last().left
        }
    }

    /// Each access found what the one before left.
    pub open spec fn linked(self) -> bool {
        &&& self.steps.len() > 0 ==> self.steps[0].found == self.start
        &&& forall|i: int, j: int|
            0 <= i < self.steps.len() && j == i + 1 && j < self.steps.len() ==> (
            #[trigger] self.steps[j]).found == (#[trigger] self.steps[i]).left
    }

    /// The history with one more access, which left the memory at `left`.
    pub open spec fn followed_by(self, left: WasmModel) -> History {
        History { steps: self.steps.push(Access { found: self.latest(), left }), ..self }
    }
}

/// A history up to some access, which a memory gave out. There is no other way to come
/// by one.
#[derive(Copy, Clone)]
pub struct Trail {
    history: Ghost<History>,
}

impl View for Trail {
    type V = History;

    closed spec fn view(&self) -> History {
        self.history@
    }
}

/// A linear memory that lies behind a lock, with its history.
pub struct KeptMemory {
    memory: WasmMmap,
    history: Ghost<History>,
}

impl KeptMemory {
    /// The memory as a value.
    pub closed spec fn model(&self) -> WasmModel {
        self.memory@
    }

    /// What was done to the memory.
    pub closed spec fn history(&self) -> History {
        self.history@
    }

    /// What holds of any memory at any time.
    pub closed spec fn sound(&self) -> bool {
        self.memory.sound()
    }

    /// The memory is in order, and is what its history says.
    pub closed spec fn wf(&self, conf: VMMemoryConfig) -> bool {
        &&& self.memory.wf(conf)
        &&& self.history@.linked()
        &&& self.history@.latest() == self.memory@
    }

    /// What the operations here keep.
    pub proof fn is_in_order(&self, conf: VMMemoryConfig)
        requires
            self.wf(conf),
        ensures
            self.sound(),
            self.model().wf(conf),
            self.history().linked(),
            self.history().latest() == self.model(),
    {
    }

    /// A memory that comes behind a lock, with nothing done to it.
    pub fn new(memory: WasmMmap, conf: VMMemoryConfig) -> (made: (KeptMemory, Trail))
        requires
            memory.wf(conf),
        ensures
            made.0.wf(conf),
            made.0.model() == memory@,
            made.0.history().start == memory@,
            made.0.history().steps.len() == 0,
            made.1@ == made.0.history(),
    {
        let ghost history = History {
            lineage: arbitrary(),
            start: memory@,
            steps: Seq::<Access>::empty(),
        };
        (KeptMemory { memory, history: Ghost(history) }, Trail { history: Ghost(history) })
    }

    /// Puts the memory back behind its lock, and tells what was done to it until then.
    /// There is no other way to learn that, so nothing was done in between.
    pub fn put_back<Guard: RwLockPredicate<KeptMemory>>(
        self,
        lock: WriteHandle<'_, KeptMemory, Guard>,
    ) -> (trail: Trail)
        requires
            lock.rwlock().inv(self),
        ensures
            trail@ == self.history(),
    {
        let trail = Trail { history: self.history };
        lock.release_write(self);
        trail
    }

    /// Grows the memory; see [`WasmMmap::grow`].
    pub fn grow(&mut self, delta: Pages, conf: VMMemoryConfig) -> (previous: Result<
        Pages,
        MemoryError,
    >)
        requires
            old(self).wf(conf),
        ensures
            final(self).wf(conf),
            final(self).history() == old(self).history().followed_by(final(self).model()),
            did(
                old(self).model(),
                final(self).model(),
                previous,
                old(self).model().grow(delta, conf, final(self).model().base),
            ),
            final(self).model().owner == old(self).model().owner,
            previous matches Ok(pages) ==> pages == old(self).model().pages(),
    {
        let previous = self.memory.grow(delta, conf);
        self.history = Ghost(self.history@.followed_by(self.memory@));
        previous
    }

    /// Grows the memory to at least that size; see [`WasmMmap::grow_at_least`].
    pub fn grow_at_least(&mut self, min_size: u64, conf: VMMemoryConfig) -> (result: Result<
        (),
        MemoryError,
    >)
        requires
            old(self).wf(conf),
        ensures
            final(self).wf(conf),
            final(self).history() == old(self).history().followed_by(final(self).model()),
            did(
                old(self).model(),
                final(self).model(),
                result,
                old(self).model().grow_at_least(min_size, conf, final(self).model().base),
            ),
            final(self).model().owner == old(self).model().owner,
    {
        let result = self.memory.grow_at_least(min_size, conf);
        self.history = Ghost(self.history@.followed_by(self.memory@));
        result
    }

    /// Takes every page from the memory; see [`WasmMmap::reset`].
    pub fn reset(&mut self, conf: VMMemoryConfig)
        requires
            old(self).wf(conf),
        ensures
            final(self).wf(conf),
            final(self).history() == old(self).history().followed_by(final(self).model()),
            final(self).model() == old(self).model().reset(),
    {
        self.memory.reset();
        self.history = Ghost(self.history@.followed_by(self.memory@));
    }

    /// Makes the memory show exactly `image`; see [`WasmMmap::restore_image`].
    pub fn restore_image(&mut self, image: &[u8], conf: VMMemoryConfig) -> (result: Result<
        (),
        MemoryError,
    >)
        requires
            old(self).wf(conf),
            image_fits(image@.len()),
        ensures
            final(self).wf(conf),
            final(self).history() == old(self).history().followed_by(final(self).model()),
            did(
                old(self).model(),
                final(self).model(),
                result,
                old(self).model().restore_image(image@, conf, final(self).model().base),
            ),
            result is Ok ==> final(self).model().live() == image@,
            final(self).model().owner == old(self).model().owner,
    {
        let result = self.memory.restore_image(image, conf);
        self.history = Ghost(self.history@.followed_by(self.memory@));
        result
    }

    /// Puts the first bytes back to those of `image`; see
    /// [`WasmMmap::restore_image_bounded`].
    pub fn restore_image_bounded(
        &mut self,
        image: &[u8],
        copied: usize,
        bound: usize,
        conf: VMMemoryConfig,
    )
        requires
            old(self).wf(conf),
            forall|i: int|
                copied <= i < image@.len() && i < bound && i < old(self).model().length
                    ==> #[trigger] image@[i] == 0,
        ensures
            final(self).wf(conf),
            final(self).history() == old(self).history().followed_by(final(self).model()),
            final(self).model() == old(self).model().restore_bounded(image@, bound as nat),
    {
        self.memory.restore_image_bounded(image, copied, bound);
        self.history = Ghost(self.history@.followed_by(self.memory@));
    }

    /// Writes `data` from `start` on if the memory has room for it there.
    pub fn initialize(&mut self, start: usize, data: &[u8], conf: VMMemoryConfig) -> (result: Result<
        (),
        Trap,
    >)
        requires
            old(self).wf(conf),
        ensures
            final(self).wf(conf),
            final(self).history() == old(self).history().followed_by(final(self).model()),
            wrote(old(self).model(), final(self).model(), start as nat, data@, result),
    {
        let shown: usize = self.memory.get_vm_memory_definition().current_length;
        let result = if start <= shown && data.len() <= shown - start {
            initialize_memory_with_data(&mut self.memory, start, data)
        } else {
            Err(Trap)
        };
        self.history = Ghost(self.history@.followed_by(self.memory@));
        result
    }

    /// What compiled code reads of the memory.
    pub fn get_vm_memory_definition(&self) -> (definition: VMMemoryDefinition)
        ensures
            definition.base == self.model().base,
            definition.current_length == self.model().length,
    {
        self.memory.get_vm_memory_definition()
    }

    /// The pages that the memory shows.
    pub fn size(&self) -> (size: Pages)
        requires
            self.sound(),
        ensures
            size == self.model().pages(),
    {
        self.memory.size()
    }

    /// The bytes that the memory shows.
    pub fn live(&self) -> (bytes: Vec<u8>)
        requires
            self.sound(),
        ensures
            bytes@ == self.model().live(),
    {
        self.memory.live()
    }

    /// A memory of its own that shows the same.
    pub fn copy(&self) -> (copied: Result<WasmMmap, MemoryError>)
        requires
            self.sound(),
        ensures
            copied matches Ok(copy) && copy.sound() && copy@ == self.model().copy(copy@.base)
                && copy@.base != self.model().base,
    {
        self.memory.copy()
    }
}

} // verus!
