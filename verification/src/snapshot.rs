//! Capturing what an instance can change, and putting it back: the instance is
//! reset and used again instead of being built anew.

use crate::cow::CowBacking;
use crate::error::{generic_error, ErrorModel, MemoryError};
use crate::instance::VMInstance;
use crate::memory::{captured, zero_behind, LinearMemory};
use crate::store::{others_kept, StoreObjects, VMGlobal};
use crate::table::RawTableElement;
use crate::text::{decimal, decimal_text};
use crate::units::WASM_PAGE_SIZE;
use crate::vm_memory::VMMemory;
use crate::wasm_mmap::{image_fits, WasmModel};
use vstd::prelude::*;

verus! {

/// How one linear memory was captured.
pub enum MemorySnapshot {
    /// As a copy of its bytes. From `dirty_prefix` on they are zero.
    Eager { image: Vec<u8>, dirty_prefix: usize },
    /// Copy-on-write.
    Cow(CowBacking),
}

/// What an instance could change, as it was at one moment: its defined memories,
/// globals and tables, each in the order of their indices.
pub struct VMInstanceSnapshot {
    /// The memories.
    pub memories: Vec<MemorySnapshot>,
    /// The raw bits of the globals.
    pub globals: Vec<u128>,
    /// The slots of the tables.
    pub tables: Vec<Vec<RawTableElement>>,
}

/// The slots of an instance's defined tables, as they were at one moment.
pub struct VMTablesSnapshot {
    /// The slots, table by table.
    pub tables: Vec<Vec<RawTableElement>>,
}

/// `prefix` ends right behind the last byte of `image` that is not zero.
pub open spec fn ends_dirt(image: Seq<u8>, prefix: nat) -> bool {
    &&& prefix <= image.len()
    &&& prefix > 0 ==> image[prefix - 1] != 0
    &&& forall|i: int| prefix <= i < image.len() ==> #[trigger] image[i] == 0
}

impl MemorySnapshot {
    /// A copy of the bytes knows where their dirt ends.
    pub open spec fn wf(&self) -> bool {
        match *self {
            MemorySnapshot::Eager { image, dirty_prefix } => ends_dirt(
                image@,
                dirty_prefix as nat,
            ),
            MemorySnapshot::Cow(cow) => cow.wf(),
        }
    }

    /// The capture can go back into `memory`.
    pub open spec fn fits(&self, memory: VMMemory) -> bool {
        match *self {
            MemorySnapshot::Eager { image, .. } => image_fits(image@.len()),
            MemorySnapshot::Cow(cow) => memory.accepts_cow(cow),
        }
    }
}

/// Copy-on-write capture works for memories that one owner holds and that stay
/// put, on Linux.
pub open spec fn cow_capable(memory: VMMemory) -> bool {
    memory is Owned && memory.config().platform is Linux && memory.config().style is Static
}

/// `taken` holds what `memory` shows: copy-on-write if that is allowed and works,
/// and as a copy of the bytes otherwise.
pub open spec fn memory_captured(
    memory: VMMemory,
    taken: MemorySnapshot,
    allow_cow: bool,
) -> bool {
    exists|model: WasmModel| #[trigger]
        memory.may_be(model) && match taken {
            MemorySnapshot::Cow(cow) => allow_cow && cow_capable(memory) && captured(model, cow),
            MemorySnapshot::Eager { image, dirty_prefix } => !(allow_cow && cow_capable(memory))
                && image@ == model.live() && ends_dirt(image@, dirty_prefix as nat),
        }
}

/// The error of a result, as a model.
pub open spec fn outcome(result: Result<(), MemoryError>) -> Result<(), ErrorModel> {
    match result {
        Ok(_) => Ok(()),
        Err(error) => Err(error@),
    }
}

/// A memory that went from `before` to `after` with this outcome did what
/// `expected` says, with another base if it moved, or failed as it says and stayed as
/// it was.
pub open spec fn agrees(
    before: WasmModel,
    after: WasmModel,
    outcome: Result<(), ErrorModel>,
    expected: Result<WasmModel, ErrorModel>,
) -> bool {
    match (outcome, expected) {
        (Ok(_), Ok(memory)) => after == memory && before.moves_show(after),
        (Err(error), Err(reason)) => error == reason && after == before,
        _ => false,
    }
}

/// Why a capture cannot be put back with a bound, if it is not a copy of the
/// bytes.
pub open spec fn bounded_refusal() -> ErrorModel {
    ErrorModel::Generic(
        "restore_bounded requires an eager snapshot (capture with snapshot_eager)"@,
    )
}

/// `pre` was put back to `taken`, giving `post`, with this outcome. With a bound,
/// only the bytes below it were touched.
pub open spec fn memory_restored(
    pre: VMMemory,
    post: VMMemory,
    taken: MemorySnapshot,
    bound: Option<usize>,
    outcome: Result<(), ErrorModel>,
) -> bool {
    &&& post.inv()
    &&& post.config() == pre.config()
    &&& post.shared() == pre.shared()
    &&& match (taken, bound) {
        (MemorySnapshot::Eager { image, .. }, None) => exists|before: WasmModel, after: WasmModel|
            {
                &&& #[trigger] pre.may_be(before)
                &&& #[trigger] post.may_be(after)
                &&& pre.passed(&post, before, after)
                &&& agrees(
                    before,
                    after,
                    outcome,
                    before.restore_image(image@, pre.config(), after.base),
                )
            },
        (MemorySnapshot::Eager { image, .. }, Some(bytes)) => outcome is Ok && exists|
            before: WasmModel,
            after: WasmModel,
        |
            {
                &&& #[trigger] pre.may_be(before)
                &&& #[trigger] post.may_be(after)
                &&& pre.passed(&post, before, after)
                &&& after == before.restore_bounded(image@, bytes as nat)
            },
        (MemorySnapshot::Cow(cow), None) => match (pre.known(), post.known()) {
            (Some(before), Some(after)) => agrees(before, after, outcome, pre.expected_cow(cow)),
            (None, None) => post == pre && outcome is Err && pre.expected_cow(cow)
                == Err::<WasmModel, ErrorModel>(outcome->Err_0),
            _ => false,
        },
        (MemorySnapshot::Cow(_), Some(_)) => post == pre && outcome == Err::<(), ErrorModel>(
            bounded_refusal(),
        ),
    }
}

/// The defined memories with these handles were put back one after the other;
/// the first that failed ended it, and no other object was touched.
pub open spec fn memories_restored(
    pre: Seq<VMMemory>,
    post: Seq<VMMemory>,
    handles: Seq<usize>,
    taken: Seq<MemorySnapshot>,
    bound: Option<usize>,
    outcome: Result<(), ErrorModel>,
) -> bool {
    &&& others_kept(pre, post, handles)
    &&& match outcome {
        Ok(_) => forall|k: int|
            0 <= k < handles.len() ==> memory_restored(
                pre[#[trigger] handles[k] as int],
                post[handles[k] as int],
                taken[k],
                bound,
                Ok(()),
            ),
        Err(error) => exists|failed: int|
            0 <= failed < handles.len() && #[trigger] stopped_at(
                pre,
                post,
                handles,
                taken,
                bound,
                error,
                failed,
            ),
    }
}

/// Putting the memories back ended at the one with number `failed`.
pub open spec fn stopped_at(
    pre: Seq<VMMemory>,
    post: Seq<VMMemory>,
    handles: Seq<usize>,
    taken: Seq<MemorySnapshot>,
    bound: Option<usize>,
    error: ErrorModel,
    failed: int,
) -> bool {
    &&& memory_restored(
        pre[handles[failed] as int],
        post[handles[failed] as int],
        taken[failed],
        bound,
        Err(error),
    )
    &&& forall|k: int|
        0 <= k < failed ==> memory_restored(
            pre[#[trigger] handles[k] as int],
            post[handles[k] as int],
            taken[k],
            bound,
            Ok(()),
        )
    &&& forall|k: int|
        failed < k < handles.len() ==> post[#[trigger] handles[k] as int]
            == pre[handles[k] as int]
}

/// The defined globals with these handles have these bits, and no other global
/// was touched.
pub open spec fn globals_restored(
    pre: Seq<VMGlobal>,
    post: Seq<VMGlobal>,
    handles: Seq<usize>,
    taken: Seq<u128>,
) -> bool {
    &&& others_kept(pre, post, handles)
    &&& forall|k: int|
        0 <= k < handles.len() ==> post[#[trigger] handles[k] as int].val == taken[k]
}

/// The defined tables of an instance have these slots, where indirect calls look
/// too, and no other table was touched.
pub open spec fn tables_restored(
    pre: &StoreObjects,
    post: &StoreObjects,
    instance: &VMInstance,
    taken: Seq<Vec<RawTableElement>>,
) -> bool {
    &&& others_kept(pre.tables@, post.tables@, instance.tables@)
    &&& forall|k: int|
        0 <= k < instance.tables@.len() ==> post.tables@[#[trigger] instance.tables@[k] as int].elements@
            == taken[k]@
    &&& instance.synced(post)
}

/// The slots that indirect calls go through exist for the same tables as before.
pub open spec fn same_dispatch_shape(pre: &VMInstance, post: &VMInstance) -> bool {
    &&& post.dispatch@.len() == pre.dispatch@.len()
    &&& forall|k: int|
        0 <= k < pre.dispatch@.len() ==> (#[trigger] post.dispatch@[k] is Some)
            == pre.dispatch@[k] is Some
}

impl VMInstanceSnapshot {
    /// Every memory capture is in order.
    pub open spec fn wf(&self) -> bool {
        forall|k: int| 0 <= k < self.memories@.len() ==> (#[trigger] self.memories@[k]).wf()
    }

    /// There are as many memories, globals and tables as the instance defines.
    pub open spec fn matches_shape(&self, instance: &VMInstance) -> bool {
        &&& self.memories@.len() == instance.memories@.len()
        &&& self.globals@.len() == instance.globals@.len()
        &&& self.tables@.len() == instance.tables@.len()
    }

    /// Every memory capture can go back into its memory.
    pub open spec fn fits(&self, instance: &VMInstance, ctx: &StoreObjects) -> bool {
        self.matches_shape(instance) ==> forall|k: int|
            0 <= k < self.memories@.len() ==> (#[trigger] self.memories@[k]).fits(
                ctx.memories@[instance.memories@[k] as int],
            )
    }

    /// The snapshot holds what the instance's memories, globals and tables are in
    /// the store.
    pub open spec fn holds(
        &self,
        instance: &VMInstance,
        ctx: &StoreObjects,
        allow_cow: bool,
    ) -> bool {
        &&& self.matches_shape(instance)
        &&& forall|k: int|
            0 <= k < self.memories@.len() ==> memory_captured(
                ctx.memories@[instance.memories@[k] as int],
                #[trigger] self.memories@[k],
                allow_cow,
            )
        &&& forall|k: int|
            0 <= k < self.globals@.len() ==> #[trigger] self.globals@[k]
                == ctx.globals@[instance.globals@[k] as int].val
        &&& forall|k: int|
            0 <= k < self.tables@.len() ==> (#[trigger] self.tables@[k])@
                == ctx.tables@[instance.tables@[k] as int].elements@
    }

    /// `pre` was reset to the snapshot in the store `from`, giving `post` and
    /// `to`, with this outcome. With a bound, only the bytes of each memory below
    /// it were touched.
    ///
    /// A snapshot of another shape is refused, and nothing changes. Otherwise
    /// memories, globals, tables and passive segments are put back, in this
    /// order. If a memory cannot be, that ends it: what comes after stays as it
    /// was.
    pub open spec fn reset(
        &self,
        pre: &VMInstance,
        post: &VMInstance,
        from: &StoreObjects,
        to: &StoreObjects,
        bound: Option<usize>,
        outcome: Result<(), ErrorModel>,
    ) -> bool {
        if !self.matches_shape(pre) {
            &&& outcome == Err::<(), ErrorModel>(
                ErrorModel::Generic("snapshot does not match this instance's shape"@),
            )
            &&& *post == *pre
            &&& *to == *from
        } else {
            &&& memories_restored(
                from.memories@,
                to.memories@,
                pre.memories@,
                self.memories@,
                bound,
                outcome,
            )
            &&& match outcome {
                Ok(_) => {
                    &&& globals_restored(from.globals@, to.globals@, pre.globals@, self.globals@)
                    &&& tables_restored(from, to, post, self.tables@)
                    &&& post.passive_complete()
                    &&& post.same_makeup(pre)
                    &&& same_dispatch_shape(pre, post)
                },
                Err(_) => {
                    &&& *post == *pre
                    &&& to.globals == from.globals
                    &&& to.tables == from.tables
                },
            }
        }
    }
}

/// Where the dirt of `image` ends.
fn dirty_end(image: &Vec<u8>) -> (prefix: usize)
    ensures
        ends_dirt(image@, prefix as nat),
{
    let mut prefix: usize = image.len();
    while prefix > 0 && image[prefix - 1] == 0
        invariant
            prefix <= image@.len(),
            forall|i: int| prefix <= i < image@.len() ==> #[trigger] image@[i] == 0,
        decreases prefix,
    {
        prefix = prefix - 1;
    }
    prefix
}

/// The capture that an image makes.
pub fn eager_snapshot(image: Vec<u8>) -> (taken: MemorySnapshot)
    ensures
        taken matches MemorySnapshot::Eager { image: kept, dirty_prefix } && kept == image
            && ends_dirt(image@, dirty_prefix as nat),
{
    let dirty_prefix: usize = dirty_end(&image);
    MemorySnapshot::Eager { image, dirty_prefix }
}

/// The capture that an attempt to take one copy-on-write gave. If there was no
/// attempt, or it failed, the bytes are to be copied instead.
pub fn usable_capture(attempt: Option<Result<CowBacking, MemoryError>>) -> (cow: Option<CowBacking>)
    ensures
        cow == match attempt {
            Some(Ok(taken)) => Some(taken),
            _ => None,
        },
{
    match attempt {
        Some(Ok(taken)) => Some(taken),
        _ => None,
    }
}

impl MemorySnapshot {
    /// Whether the capture is in order; see [`wf`](MemorySnapshot::wf).
    pub fn is_in_order(&self) -> (in_order: bool)
        ensures
            in_order == self.wf(),
    {
        match self {
            MemorySnapshot::Eager { image, dirty_prefix } => dirty_end(image) == *dirty_prefix,
            MemorySnapshot::Cow(cow) => cow.is_whole(),
        }
    }

    /// Whether the capture can go back into `memory`; see
    /// [`fits`](MemorySnapshot::fits).
    pub fn is_fit_for(&self, memory: &VMMemory) -> (fit: bool)
        requires
            memory.inv(),
        ensures
            fit == self.fits(*memory),
    {
        match self {
            MemorySnapshot::Eager { image, .. } => image.len() % WASM_PAGE_SIZE == 0,
            MemorySnapshot::Cow(cow) => memory.takes_cow(cow),
        }
    }
}

impl VMInstanceSnapshot {
    /// Whether every memory capture is in order; see [`wf`](VMInstanceSnapshot::wf).
    pub fn is_in_order(&self) -> (in_order: bool)
        ensures
            in_order == self.wf(),
    {
        let mut k: usize = 0;
        while k < self.memories.len()
            invariant
                k <= self.memories@.len(),
                forall|j: int| 0 <= j < k ==> (#[trigger] self.memories@[j]).wf(),
            decreases self.memories@.len() - k,
        {
            if !self.memories[k].is_in_order() {
                return false;
            }
            k = k + 1;
        }
        true
    }

    /// Whether every memory capture can go back into its memory; see
    /// [`fits`](VMInstanceSnapshot::fits).
    pub fn is_fit_for(&self, instance: &VMInstance, ctx: &StoreObjects) -> (fit: bool)
        requires
            ctx.wf(),
            instance.wf(ctx),
        ensures
            fit == self.fits(instance, ctx),
    {
        if self.memories.len() != instance.memories.len() || self.globals.len()
            != instance.globals.len() || self.tables.len() != instance.tables.len() {
            return true;
        }
        let mut k: usize = 0;
        while k < self.memories.len()
            invariant
                ctx.wf(),
                instance.wf(ctx),
                self.matches_shape(instance),
                k <= self.memories@.len(),
                forall|j: int|
                    0 <= j < k ==> (#[trigger] self.memories@[j]).fits(
                        ctx.memories@[instance.memories@[j] as int],
                    ),
            decreases self.memories@.len() - k,
        {
            let handle: usize = instance.memories[k];
            if !self.memories[k].is_fit_for(&ctx.memories[handle]) {
                return false;
            }
            k = k + 1;
        }
        true
    }
}

/// Captures one memory: copy-on-write if that is allowed and works, and as a copy
/// of its bytes otherwise.
fn capture_memory(memory: &VMMemory, allow_cow: bool) -> (taken: MemorySnapshot)
    requires
        memory.inv(),
    ensures
        memory_captured(*memory, taken, allow_cow),
        taken.wf(),
{
    let attempt = if allow_cow && memory.supports_cow_snapshot() {
        Some(memory.snapshot_cow())
    } else {
        None
    };
    match usable_capture(attempt) {
        Some(cow) => MemorySnapshot::Cow(cow),
        None => eager_snapshot(memory.snapshot_image()),
    }
}

/// Puts one memory back; with a bound, only the bytes below it.
fn restore_memory(memory: &mut VMMemory, taken: &MemorySnapshot, bound: Option<usize>) -> (result:
    Result<(), MemoryError>)
    requires
        old(memory).inv(),
        taken.wf(),
        bound is None ==> taken.fits(*old(memory)),
    ensures
        final(memory).inv(),
        memory_restored(*old(memory), *final(memory), *taken, bound, outcome(result)),
{
    match (taken, bound) {
        (MemorySnapshot::Eager { image, .. }, None) => memory.restore_image(image.as_slice()),
        (MemorySnapshot::Eager { image, dirty_prefix }, Some(bytes)) => {
            proof {
                assert forall|model: WasmModel| #[trigger] memory.may_be(model) implies zero_behind(
                    model,
                    image@,
                    *dirty_prefix as nat,
                    bytes as nat,
                ) by {}
            }
            memory.restore_image_bounded(image.as_slice(), *dirty_prefix, bytes)
        },
        (MemorySnapshot::Cow(cow), None) => memory.restore_cow(cow),
        (MemorySnapshot::Cow(_), Some(_)) => Err(
            generic_error(
                "restore_bounded requires an eager snapshot (capture with snapshot_eager)",
            ),
        ),
    }
}

impl VMInstance {
    /// Captures the defined memories, globals and tables. Memories are captured
    /// copy-on-write where that works, unless it is switched off.
    ///
    /// What the host holds, such as imported memories and globals, is not
    /// captured.
    pub fn snapshot(&self, ctx: &StoreObjects, cow_disabled: bool) -> (snapshot: VMInstanceSnapshot)
        requires
            ctx.wf(),
            self.wf(ctx),
        ensures
            snapshot.wf(),
            snapshot.holds(self, ctx, !cow_disabled),
    {
        self.snapshot_with(ctx, !cow_disabled)
    }

    /// Captures the defined memories, globals and tables, each memory as a copy
    /// of its bytes. Only such a snapshot can be put back with a bound.
    pub fn snapshot_eager(&self, ctx: &StoreObjects) -> (snapshot: VMInstanceSnapshot)
        requires
            ctx.wf(),
            self.wf(ctx),
        ensures
            snapshot.wf(),
            snapshot.holds(self, ctx, false),
    {
        self.snapshot_with(ctx, false)
    }

    fn snapshot_with(&self, ctx: &StoreObjects, allow_cow: bool) -> (snapshot: VMInstanceSnapshot)
        requires
            ctx.wf(),
            self.wf(ctx),
        ensures
            snapshot.wf(),
            snapshot.holds(self, ctx, allow_cow),
    {
        let mut memories: Vec<MemorySnapshot> = Vec::new();
        let mut k: usize = 0;
        while k < self.memories.len()
            invariant
                ctx.wf(),
                self.wf(ctx),
                k <= self.memories@.len(),
                memories@.len() == k,
                forall|j: int|
                    0 <= j < k ==> (#[trigger] memories@[j]).wf() && memory_captured(
                        ctx.memories@[self.memories@[j] as int],
                        memories@[j],
                        allow_cow,
                    ),
            decreases self.memories@.len() - k,
        {
            let handle: usize = self.memories[k];
            memories.push(capture_memory(&ctx.memories[handle], allow_cow));
            k = k + 1;
        }
        let mut globals: Vec<u128> = Vec::new();
        let mut g: usize = 0;
        while g < self.globals.len()
            invariant
                self.wf(ctx),
                g <= self.globals@.len(),
                globals@.len() == g,
                forall|j: int|
                    0 <= j < g ==> #[trigger] globals@[j]
                        == ctx.globals@[self.globals@[j] as int].val,
            decreases self.globals@.len() - g,
        {
            let handle: usize = self.globals[g];
            globals.push(ctx.globals[handle].val);
            g = g + 1;
        }
        let tables = self.table_images(ctx);
        VMInstanceSnapshot { memories, globals, tables }
    }

    /// The slots of every defined table.
    fn table_images(&self, ctx: &StoreObjects) -> (tables: Vec<Vec<RawTableElement>>)
        requires
            self.wf(ctx),
        ensures
            tables@.len() == self.tables@.len(),
            forall|k: int|
                0 <= k < tables@.len() ==> (#[trigger] tables@[k])@
                    == ctx.tables@[self.tables@[k] as int].elements@,
    {
        let mut tables: Vec<Vec<RawTableElement>> = Vec::new();
        let mut k: usize = 0;
        while k < self.tables.len()
            invariant
                self.wf(ctx),
                k <= self.tables@.len(),
                tables@.len() == k,
                forall|j: int|
                    0 <= j < k ==> (#[trigger] tables@[j])@
                        == ctx.tables@[self.tables@[j] as int].elements@,
            decreases self.tables@.len() - k,
        {
            let handle: usize = self.tables[k];
            tables.push(ctx.tables[handle].snapshot_elements());
            k = k + 1;
        }
        tables
    }

    /// Puts the defined memories back, one after the other.
    fn restore_memories(
        &self,
        ctx: &mut StoreObjects,
        taken: &Vec<MemorySnapshot>,
        bound: Option<usize>,
    ) -> (result: Result<(), MemoryError>)
        requires
            old(ctx).wf(),
            self.wf(old(ctx)),
            taken@.len() == self.memories@.len(),
            forall|k: int| 0 <= k < taken@.len() ==> (#[trigger] taken@[k]).wf(),
            bound is None ==> forall|k: int|
                0 <= k < taken@.len() ==> (#[trigger] taken@[k]).fits(
                    old(ctx).memories@[self.memories@[k] as int],
                ),
        ensures
            final(ctx).wf(),
            self.wf(final(ctx)),
            final(ctx).globals == old(ctx).globals,
            final(ctx).tables == old(ctx).tables,
            memories_restored(
                old(ctx).memories@,
                final(ctx).memories@,
                self.memories@,
                taken@,
                bound,
                outcome(result),
            ),
    {
        let ghost pre = ctx.memories@;
        let mut k: usize = 0;
        while k < self.memories.len()
            invariant
                k <= self.memories@.len(),
                taken@.len() == self.memories@.len(),
                ctx.wf(),
                self.wf(ctx),
                ctx.globals == old(ctx).globals,
                ctx.tables == old(ctx).tables,
                pre == old(ctx).memories@,
                others_kept(pre, ctx.memories@, self.memories@),
                forall|j: int| 0 <= j < taken@.len() ==> (#[trigger] taken@[j]).wf(),
                bound is None ==> forall|j: int|
                    0 <= j < taken@.len() ==> (#[trigger] taken@[j]).fits(
                        pre[self.memories@[j] as int],
                    ),
                forall|j: int|
                    0 <= j < k ==> memory_restored(
                        pre[#[trigger] self.memories@[j] as int],
                        ctx.memories@[self.memories@[j] as int],
                        taken@[j],
                        bound,
                        Ok(()),
                    ),
                forall|j: int|
                    k <= j < self.memories@.len() ==> ctx.memories@[#[trigger] self.memories@[j] as int]
                        == pre[self.memories@[j] as int],
            decreases self.memories@.len() - k,
        {
            let ghost before = ctx.memories@;
            let handle: usize = self.memories[k];
            assert(before[handle as int] == pre[self.memories@[k as int] as int]);
            let result = restore_memory(&mut ctx.memories[handle], &taken[k], bound);
            proof {
                assert forall|i: int| 0 <= i < before.len() && i != handle implies
                    #[trigger] ctx.memories@[i] == before[i] by {}
                assert(self.memories@.contains(handle));
            }
            match result {
                Ok(_) => {},
                Err(error) => {
                    assert(stopped_at(
                        pre,
                        ctx.memories@,
                        self.memories@,
                        taken@,
                        bound,
                        error@,
                        k as int,
                    ));
                    return Err(error);
                },
            }
            k = k + 1;
        }
        Ok(())
    }

    /// Gives the defined globals these bits.
    fn restore_globals(&self, ctx: &mut StoreObjects, taken: &Vec<u128>)
        requires
            old(ctx).wf(),
            self.wf(old(ctx)),
            taken@.len() == self.globals@.len(),
        ensures
            final(ctx).wf(),
            self.wf(final(ctx)),
            final(ctx).memories == old(ctx).memories,
            final(ctx).tables == old(ctx).tables,
            globals_restored(old(ctx).globals@, final(ctx).globals@, self.globals@, taken@),
    {
        let mut k: usize = 0;
        while k < self.globals.len()
            invariant
                k <= self.globals@.len(),
                taken@.len() == self.globals@.len(),
                ctx.wf(),
                self.wf(ctx),
                ctx.memories == old(ctx).memories,
                ctx.tables == old(ctx).tables,
                others_kept(old(ctx).globals@, ctx.globals@, self.globals@),
                forall|j: int|
                    0 <= j < k ==> ctx.globals@[#[trigger] self.globals@[j] as int].val
                        == taken@[j],
            decreases self.globals@.len() - k,
        {
            let handle: usize = self.globals[k];
            ctx.globals[handle] = VMGlobal { val: taken[k] };
            assert(self.globals@.contains(handle));
            k = k + 1;
        }
    }

    /// Gives every defined table these slots, and shows them to indirect calls,
    /// which may go past the tables themselves.
    fn restore_table_elements(&mut self, ctx: &mut StoreObjects, taken: &Vec<Vec<RawTableElement>>)
        requires
            old(ctx).wf(),
            old(self).wf(old(ctx)),
            taken@.len() == old(self).tables@.len(),
        ensures
            final(ctx).wf(),
            final(self).wf(final(ctx)),
            final(ctx).memories == old(ctx).memories,
            final(ctx).globals == old(ctx).globals,
            final(self).same_makeup(old(self)),
            final(self).passive_elements == old(self).passive_elements,
            final(self).passive_data == old(self).passive_data,
            same_dispatch_shape(old(self), final(self)),
            tables_restored(old(ctx), final(ctx), final(self), taken@),
    {
        let mut k: usize = 0;
        while k < self.tables.len()
            invariant
                *self == *old(self),
                k <= self.tables@.len(),
                taken@.len() == self.tables@.len(),
                ctx.wf(),
                self.wf(ctx),
                ctx.memories == old(ctx).memories,
                ctx.globals == old(ctx).globals,
                others_kept(old(ctx).tables@, ctx.tables@, self.tables@),
                forall|j: int|
                    0 <= j < k ==> ctx.tables@[#[trigger] self.tables@[j] as int].elements@
                        == taken@[j]@,
            decreases self.tables@.len() - k,
        {
            let handle: usize = self.tables[k];
            ctx.tables[handle].restore_elements(taken[k].as_slice());
            assert(self.tables@.contains(handle));
            k = k + 1;
        }
        let mut t: usize = 0;
        while t < self.tables.len()
            invariant
                t <= self.tables@.len(),
                self.wf(ctx),
                self.same_makeup(old(self)),
                self.passive_elements == old(self).passive_elements,
                self.passive_data == old(self).passive_data,
                same_dispatch_shape(old(self), self),
                forall|j: int|
                    0 <= j < t ==> match #[trigger] self.dispatch@[j] {
                        Some(slots) => slots@ == ctx.tables@[self.tables@[j] as int].elements@,
                        None => true,
                    },
            decreases self.tables@.len() - t,
        {
            self.sync_fixed_funcref_table(ctx, t);
            t = t + 1;
        }
    }

    /// Puts everything back that the snapshot holds, and the passive segments.
    fn restore(&mut self, ctx: &mut StoreObjects, snapshot: &VMInstanceSnapshot) -> (result: Result<
        (),
        MemoryError,
    >)
        requires
            old(ctx).wf(),
            old(self).wf(old(ctx)),
            snapshot.wf(),
            snapshot.fits(old(self), old(ctx)),
        ensures
            final(ctx).wf(),
            final(self).wf(final(ctx)),
            snapshot.reset(old(self), final(self), old(ctx), final(ctx), None, outcome(result)),
    {
        if snapshot.memories.len() != self.memories.len() || snapshot.globals.len()
            != self.globals.len() || snapshot.tables.len() != self.tables.len() {
            return Err(generic_error("snapshot does not match this instance's shape"));
        }
        match self.restore_memories(ctx, &snapshot.memories, None) {
            Ok(_) => {},
            Err(error) => {
                return Err(error);
            },
        }
        self.restore_globals(ctx, &snapshot.globals);
        self.restore_table_elements(ctx, &snapshot.tables);
        self.reinitialize_passive_segments();
        Ok(())
    }

    /// Like [`restore`](VMInstance::restore), but of each memory only the bytes
    /// below `mem_dirty_bytes` are touched.
    fn restore_bounded(
        &mut self,
        ctx: &mut StoreObjects,
        snapshot: &VMInstanceSnapshot,
        mem_dirty_bytes: usize,
    ) -> (result: Result<(), MemoryError>)
        requires
            old(ctx).wf(),
            old(self).wf(old(ctx)),
            snapshot.wf(),
        ensures
            final(ctx).wf(),
            final(self).wf(final(ctx)),
            snapshot.reset(
                old(self),
                final(self),
                old(ctx),
                final(ctx),
                Some(mem_dirty_bytes),
                outcome(result),
            ),
    {
        if snapshot.memories.len() != self.memories.len() || snapshot.globals.len()
            != self.globals.len() || snapshot.tables.len() != self.tables.len() {
            return Err(generic_error("snapshot does not match this instance's shape"));
        }
        match self.restore_memories(ctx, &snapshot.memories, Some(mem_dirty_bytes)) {
            Ok(_) => {},
            Err(error) => {
                return Err(error);
            },
        }
        self.restore_globals(ctx, &snapshot.globals);
        self.restore_table_elements(ctx, &snapshot.tables);
        self.reinitialize_passive_segments();
        Ok(())
    }

    /// Resets the instance to a snapshot: memories, globals, tables and passive
    /// segments are as they were when it was taken.
    ///
    /// A snapshot of another shape is refused. So is one that a memory cannot be
    /// put back to.
    pub fn reset_to_snapshot(&mut self, ctx: &mut StoreObjects, snapshot: &VMInstanceSnapshot) -> (
    result: Result<(), MemoryError>)
        requires
            old(ctx).wf(),
            old(self).wf(old(ctx)),
            snapshot.wf(),
            snapshot.fits(old(self), old(ctx)),
        ensures
            final(ctx).wf(),
            final(self).wf(final(ctx)),
            snapshot.reset(old(self), final(self), old(ctx), final(ctx), None, outcome(result)),
    {
        self.restore(ctx, snapshot)
    }

    /// Resets the instance to a snapshot, touching of each memory only the bytes
    /// below `mem_dirty_bytes`: the caller knows that what lies above is as it
    /// was. Only a snapshot with copies of the bytes can be used.
    pub fn reset_to_snapshot_bounded(
        &mut self,
        ctx: &mut StoreObjects,
        snapshot: &VMInstanceSnapshot,
        mem_dirty_bytes: usize,
    ) -> (result: Result<(), MemoryError>)
        requires
            old(ctx).wf(),
            old(self).wf(old(ctx)),
            snapshot.wf(),
        ensures
            final(ctx).wf(),
            final(self).wf(final(ctx)),
            snapshot.reset(
                old(self),
                final(self),
                old(ctx),
                final(ctx),
                Some(mem_dirty_bytes),
                outcome(result),
            ),
    {
        self.restore_bounded(ctx, snapshot, mem_dirty_bytes)
    }

    /// Captures the defined tables alone.
    pub fn snapshot_tables(&self, ctx: &StoreObjects) -> (snapshot: VMTablesSnapshot)
        requires
            self.wf(ctx),
        ensures
            snapshot.holds(self, ctx),
    {
        VMTablesSnapshot { tables: self.table_images(ctx) }
    }

    /// Puts the defined tables back, and what indirect calls see of them.
    pub fn reset_tables(&mut self, ctx: &mut StoreObjects, snapshot: &VMTablesSnapshot) -> (result:
        Result<(), MemoryError>)
        requires
            old(ctx).wf(),
            old(self).wf(old(ctx)),
        ensures
            final(ctx).wf(),
            final(self).wf(final(ctx)),
            snapshot.reset(old(self), final(self), old(ctx), final(ctx), outcome(result)),
    {
        if snapshot.tables.len() != self.tables.len() {
            return Err(
                generic_error("tables snapshot does not match this instance's table count"),
            );
        }
        self.restore_table_elements(ctx, &snapshot.tables);
        Ok(())
    }
}

/// One number in a list of named numbers.
pub open spec fn field(name: &str, count: nat) -> Seq<char> {
    name@ + decimal(count)
}

impl VMInstanceSnapshot {
    /// How many memories, globals and tables the snapshot holds, in words.
    pub open spec fn description(&self) -> Seq<char> {
        field("VMInstanceSnapshot { memories: ", self.memories@.len()) + field(
            ", globals: ",
            self.globals@.len(),
        ) + field(", tables: ", self.tables@.len()) + " }"@
    }

    /// How many memories, globals and tables the snapshot holds, in words.
    pub fn describe(&self) -> (text: String)
        ensures
            text@ == self.description(),
    {
        let mut text = "VMInstanceSnapshot { memories: ".to_owned();
        text.append(decimal_text(self.memories.len() as u64).as_str());
        text.append(", globals: ");
        text.append(decimal_text(self.globals.len() as u64).as_str());
        text.append(", tables: ");
        text.append(decimal_text(self.tables.len() as u64).as_str());
        text.append(" }");
        assert(text@ =~= self.description());
        text
    }
}

impl VMTablesSnapshot {
    /// How many tables the snapshot holds, in words.
    pub open spec fn description(&self) -> Seq<char> {
        field("VMTablesSnapshot { tables: ", self.tables@.len()) + " }"@
    }

    /// How many tables the snapshot holds, in words.
    pub fn describe(&self) -> (text: String)
        ensures
            text@ == self.description(),
    {
        let mut text = "VMTablesSnapshot { tables: ".to_owned();
        text.append(decimal_text(self.tables.len() as u64).as_str());
        text.append(" }");
        text
    }

    /// The snapshot holds what the instance's tables are in the store.
    pub open spec fn holds(&self, instance: &VMInstance, ctx: &StoreObjects) -> bool {
        &&& self.tables@.len() == instance.tables@.len()
        &&& forall|k: int|
            0 <= k < self.tables@.len() ==> (#[trigger] self.tables@[k])@
                == ctx.tables@[instance.tables@[k] as int].elements@
    }

    /// The tables of `pre` were put back to the snapshot in the store `from`,
    /// giving `post` and `to`, with this outcome. Nothing but the tables changes;
    /// a snapshot with another number of tables is refused.
    pub open spec fn reset(
        &self,
        pre: &VMInstance,
        post: &VMInstance,
        from: &StoreObjects,
        to: &StoreObjects,
        outcome: Result<(), ErrorModel>,
    ) -> bool {
        if self.tables@.len() != pre.tables@.len() {
            &&& outcome == Err::<(), ErrorModel>(
                ErrorModel::Generic("tables snapshot does not match this instance's table count"@),
            )
            &&& *post == *pre
            &&& *to == *from
        } else {
            &&& outcome is Ok
            &&& tables_restored(from, to, post, self.tables@)
            &&& post.same_makeup(pre)
            &&& same_dispatch_shape(pre, post)
            &&& post.passive_elements == pre.passive_elements
            &&& post.passive_data == pre.passive_data
            &&& to.memories == from.memories
            &&& to.globals == from.globals
        }
    }
}

/// A memory that one owner holds and that stays put is captured copy-on-write on Linux
/// wherever that is allowed, and every other memory as a copy of its bytes; either way
/// the capture has just the bytes that the memory shows.
pub proof fn captures_hold_what_shows(memory: VMMemory, taken: MemorySnapshot, allow_cow: bool)
    requires
        memory_captured(memory, taken, allow_cow),
    ensures
        taken is Cow <==> allow_cow && memory is Owned && memory.config().platform is Linux
            && memory.config().style is Static,
        taken matches MemorySnapshot::Cow(cow) ==> memory matches VMMemory::Owned(owned)
            && cow.image@ == owned.model().live() && cow.base == owned.model().base,
        taken matches MemorySnapshot::Eager { image, dirty_prefix } ==> {
            &&& memory matches VMMemory::Owned(owned) ==> image@ == owned.model().live()
            &&& dirty_prefix <= image@.len()
            &&& dirty_prefix > 0 ==> image@[dirty_prefix - 1] != 0
            &&& forall|i: int| dirty_prefix <= i < image@.len() ==> #[trigger] image@[i] == 0
        },
{
}

/// A snapshot with other numbers of memories, globals or tables than the instance
/// defines is refused, and nothing changes.
pub proof fn other_shapes_are_refused(
    snapshot: &VMInstanceSnapshot,
    now: &VMInstance,
    after: &VMInstance,
    now_ctx: &StoreObjects,
    after_ctx: &StoreObjects,
    bound: Option<usize>,
    outcome: Result<(), ErrorModel>,
)
    requires
        snapshot.reset(now, after, now_ctx, after_ctx, bound, outcome),
        ({
            ||| snapshot.memories@.len() != now.memories@.len()
            ||| snapshot.globals@.len() != now.globals@.len()
            ||| snapshot.tables@.len() != now.tables@.len()
        }),
    ensures
        outcome == Err::<(), ErrorModel>(
            ErrorModel::Generic("snapshot does not match this instance's shape"@),
        ),
        *after == *now,
        *after_ctx == *now_ctx,
{
}

/// Only copies of the bytes can be put back with a bound: a reset with one is refused at
/// the first memory that was captured copy-on-write, and globals, tables and segments
/// stay as they are.
pub proof fn bounds_need_copies(
    snapshot: &VMInstanceSnapshot,
    now: &VMInstance,
    after: &VMInstance,
    now_ctx: &StoreObjects,
    after_ctx: &StoreObjects,
    bound: usize,
    outcome: Result<(), ErrorModel>,
    k: int,
)
    requires
        snapshot.reset(now, after, now_ctx, after_ctx, Some(bound), outcome),
        snapshot.memories@.len() == now.memories@.len(),
        snapshot.globals@.len() == now.globals@.len(),
        snapshot.tables@.len() == now.tables@.len(),
        0 <= k < now.memories@.len(),
        snapshot.memories@[k] is Cow,
    ensures
        outcome == Err::<(), ErrorModel>(
            ErrorModel::Generic(
                "restore_bounded requires an eager snapshot (capture with snapshot_eager)"@,
            ),
        ),
        after_ctx.memories@[now.memories@[k] as int] == now_ctx.memories@[now.memories@[k] as int],
        *after == *now,
        after_ctx.globals == now_ctx.globals,
        after_ctx.tables == now_ctx.tables,
{
    if outcome is Ok {
        assert(memory_restored(
            now_ctx.memories@[now.memories@[k] as int],
            after_ctx.memories@[now.memories@[k] as int],
            snapshot.memories@[k],
            Some(bound),
            Ok(()),
        ));
    } else {
        let error = outcome->Err_0;
        let failed = choose|failed: int|
            0 <= failed < now.memories@.len() && #[trigger] stopped_at(
                now_ctx.memories@,
                after_ctx.memories@,
                now.memories@,
                snapshot.memories@,
                Some(bound),
                error,
                failed,
            );
        assert(memory_restored(
            now_ctx.memories@[now.memories@[failed] as int],
            after_ctx.memories@[now.memories@[failed] as int],
            snapshot.memories@[failed],
            Some(bound),
            Err(error),
        ));
    }
}

/// A snapshot is described by how many memories, globals and tables it holds.
pub proof fn descriptions_tell_the_numbers(
    snapshot: &VMInstanceSnapshot,
    tables: &VMTablesSnapshot,
)
    ensures
        snapshot.description() == "VMInstanceSnapshot { memories: "@ + decimal(
            snapshot.memories@.len(),
        ) + ", globals: "@ + decimal(snapshot.globals@.len()) + ", tables: "@ + decimal(
            snapshot.tables@.len(),
        ) + " }"@,
        tables.description() == "VMTablesSnapshot { tables: "@ + decimal(tables.tables@.len())
            + " }"@,
{
    assert(snapshot.description() =~= "VMInstanceSnapshot { memories: "@ + decimal(
        snapshot.memories@.len(),
    ) + ", globals: "@ + decimal(snapshot.globals@.len()) + ", tables: "@ + decimal(
        snapshot.tables@.len(),
    ) + " }"@);
}

/// The outcome of putting something back is success exactly where it succeeded, and
/// otherwise the error that ended it.
pub proof fn outcomes_are_what_happened(result: Result<(), MemoryError>)
    ensures
        outcome(result) is Ok <==> result is Ok,
        result matches Err(error) ==> outcome(result) == Err::<(), ErrorModel>(error@),
{
}

} // verus!
