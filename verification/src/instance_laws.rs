//! What holds of resetting an instance, whatever ran in it.
//!
//! A memory that one owner holds has one value, and the laws tell which. Of a memory
//! that several threads hold they tell what was put there: another thread may write
//! to it as soon as that is done.

use crate::api_instance::{made_from, reset_outcome, BackendInstance, Instance, Instantiation};
use crate::api_store::{
    EngineError, Exports, Extern, InstantiationError, Module, RuntimeError, Store,
};
use crate::error::ErrorModel;
use crate::instance::{func_refs, VMInstance};
use crate::memory::{captured, LinearMemory};
use crate::memory_laws::{
    bounded_restores_reach_three_limits, growing_keeps_the_bytes_and_adds_zeros, hidden_bytes_stay_zero, restoring_an_image_succeeds,
};
use crate::module::ExportIndex;
use crate::shared_memory::VMSharedMemory;
use crate::snapshot::{
    agrees, cow_capable, ends_dirt, globals_restored, memory_captured, memory_restored,
    same_dispatch_shape, stopped_at, tables_restored, MemorySnapshot, VMInstanceSnapshot,
    VMTablesSnapshot,
};
use crate::store::StoreObjects;
use crate::sys_instance;
use crate::sys_instance::{global_handles, instantiated};
use crate::table::RawTableElement;
use crate::units::Pages;
use crate::vm_memory::VMMemory;
use crate::wasm_mmap::WasmModel;
use vstd::prelude::*;

verus! {

/// What code that runs in an instance can see of what the instance defines.
#[verifier::ext_equal]
pub struct Observation {
    /// The bytes of each memory that one owner holds.
    pub memories: Seq<Option<Seq<u8>>>,
    /// The bits of each global.
    pub globals: Seq<u128>,
    /// The slots of each table.
    pub tables: Seq<Seq<RawTableElement>>,
    /// The slots that indirect calls go through, for each table that has some.
    pub dispatch: Seq<Option<Seq<RawTableElement>>>,
}

/// The `k`-th defined memory.
pub open spec fn memory_of(instance: &VMInstance, ctx: &StoreObjects, k: int) -> VMMemory {
    ctx.memories@[instance.memories@[k] as int]
}

/// The `k`-th defined memory as a value, if one owner holds it.
pub open spec fn value_of(instance: &VMInstance, ctx: &StoreObjects, k: int) -> WasmModel {
    memory_of(instance, ctx, k).known()->0
}

/// What a memory shows, if one owner holds it.
pub open spec fn shown(memory: VMMemory) -> Option<Seq<u8>> {
    match memory.known() {
        Some(value) => Some(value.live()),
        None => None,
    }
}

/// What code that runs in the instance can see.
pub open spec fn observed(instance: &VMInstance, ctx: &StoreObjects) -> Observation {
    Observation {
        memories: Seq::new(
            instance.memories@.len(),
            |k: int| shown(memory_of(instance, ctx, k)),
        ),
        globals: Seq::new(
            instance.globals@.len(),
            |k: int| ctx.globals@[instance.globals@[k] as int].val,
        ),
        tables: Seq::new(
            instance.tables@.len(),
            |k: int| ctx.tables@[instance.tables@[k] as int].elements@,
        ),
        dispatch: Seq::new(
            instance.tables@.len(),
            |k: int|
                match instance.dispatch@[k] {
                    Some(slots) => Some(slots@),
                    None => None,
                },
        ),
    }
}

/// Both instances have the same passive segments, with the same contents.
pub open spec fn same_segments(one: &VMInstance, other: &VMInstance) -> bool {
    &&& forall|index: u32|
        one.passive_data@.contains_key(index) == #[trigger] other.passive_data@.contains_key(index)
    &&& forall|index: u32| #[trigger]
        other.passive_data@.contains_key(index) ==> one.passive_data@[index]@
            == other.passive_data@[index]@
    &&& forall|index: u32|
        one.passive_elements@.contains_key(index) == #[trigger] other.passive_elements@.contains_key(
            index,
        )
    &&& forall|index: u32| #[trigger]
        other.passive_elements@.contains_key(index) ==> one.passive_elements@[index]@
            == other.passive_elements@[index]@
}

/// The hidden bytes of every defined memory that one owner holds are zero.
pub open spec fn hides_only_zeros(instance: &VMInstance, ctx: &StoreObjects) -> bool {
    forall|k: int|
        0 <= k < instance.memories@.len() ==> ((#[trigger] memory_of(
            instance,
            ctx,
            k,
        )).known() matches Some(value) ==> value.hidden_zero())
}

/// One owner holds each memory that the instance defines.
pub open spec fn owns_memories(instance: &VMInstance, ctx: &StoreObjects) -> bool {
    forall|k: int|
        0 <= k < instance.memories@.len() ==> (#[trigger] memory_of(instance, ctx, k)) is Owned
}

/// Indirect calls go past the same tables.
pub open spec fn same_dispatch(one: &VMInstance, other: &VMInstance) -> bool {
    forall|k: int|
        0 <= k < one.tables@.len() ==> (#[trigger] one.dispatch@[k] is Some)
            == other.dispatch@[k] is Some
}

/// `now` can be what became of `baseline` when something ran in it: it has the same
/// objects, and its memories have the settings that they were made with. Bytes,
/// sizes, globals, slots and segments can be anything.
pub open spec fn can_follow(
    baseline: &VMInstance,
    baseline_ctx: &StoreObjects,
    now: &VMInstance,
    now_ctx: &StoreObjects,
) -> bool {
    &&& now_ctx.wf()
    &&& now.wf(now_ctx)
    &&& now.same_makeup(baseline)
    &&& same_dispatch(now, baseline)
    &&& forall|k: int|
        0 <= k < baseline.memories@.len() ==> (#[trigger] memory_of(
            baseline,
            baseline_ctx,
            k,
        )).config() == memory_of(now, now_ctx, k).config() && memory_of(
            baseline,
            baseline_ctx,
            k,
        ).shared() == memory_of(now, now_ctx, k).shared()
}

/// The objects that the instance imports, and does not define as well, are the same
/// in both stores.
pub open spec fn imports_kept(
    instance: &VMInstance,
    pre: &StoreObjects,
    post: &StoreObjects,
) -> bool {
    &&& forall|k: int|
        0 <= k < instance.imported_memories@.len() && !instance.memories@.contains(
            #[trigger] instance.imported_memories@[k],
        ) ==> post.memories@[instance.imported_memories@[k] as int]
            == pre.memories@[instance.imported_memories@[k] as int]
    &&& forall|k: int|
        0 <= k < instance.imported_globals@.len() && !instance.globals@.contains(
            #[trigger] instance.imported_globals@[k],
        ) ==> post.globals@[instance.imported_globals@[k] as int]
            == pre.globals@[instance.imported_globals@[k] as int]
    &&& forall|k: int|
        0 <= k < instance.imported_tables@.len() && !instance.tables@.contains(
            #[trigger] instance.imported_tables@[k],
        ) ==> post.tables@[instance.imported_tables@[k] as int]
            == pre.tables@[instance.imported_tables@[k] as int]
}

/// A memory that could be at `first` when it was captured was left showing the same
/// bytes again.
pub open spec fn shows_again(baseline: VMMemory, after: VMMemory) -> bool {
    exists|first: WasmModel, last: WasmModel|
        {
            &&& #[trigger] baseline.may_be(first)
            &&& #[trigger] after.may_be(last)
            &&& after.latest() == last
            &&& last.live() == first.live()
            &&& last.pages() == first.pages()
        }
}

/// One memory, put back to a capture, shows what it showed when it was captured.
proof fn memory_round_trip(
    baseline: VMMemory,
    now: VMMemory,
    after: VMMemory,
    taken: MemorySnapshot,
    allow_cow: bool,
)
    requires
        baseline.inv(),
        now.inv(),
        now.config() == baseline.config(),
        now.shared() == baseline.shared(),
        memory_captured(baseline, taken, allow_cow),
        memory_restored(now, after, taken, None, Ok(())),
    ensures
        after.shared() == baseline.shared(),
        shows_again(baseline, after),
        shown(after) == shown(baseline),
        now.known() matches Some(value) ==> value.hidden_zero() ==> after.known()->0.hidden_zero(),
{
    baseline.may_be_wf();
    now.may_be_wf();
    after.may_be_wf();
    let first = choose|model: WasmModel| #[trigger]
        baseline.may_be(model) && match taken {
            MemorySnapshot::Cow(cow) => allow_cow && cow_capable(baseline)
                && captured(model, cow),
            MemorySnapshot::Eager { image, dirty_prefix } => !(allow_cow
                && cow_capable(baseline)) && image@ == model.live()
                && ends_dirt(image@, dirty_prefix as nat),
        };
    match taken {
        MemorySnapshot::Eager { image, .. } => {
            let (before, last) = choose|before: WasmModel, last: WasmModel|
                {
                    &&& #[trigger] now.may_be(before)
                    &&& #[trigger] after.may_be(last)
                    &&& now.passed(&after, before, last)
                    &&& agrees(
                        before,
                        last,
                        Ok(()),
                        before.restore_image(image@, now.config(), last.base),
                    )
                };
            assert(last.live() =~= first.live());
            if before.hidden_zero() {
                hidden_bytes_stay_zero(before, now.config(), last.base);
            }
        },
        MemorySnapshot::Cow(cow) => {
            let before = now.known()->0;
            let last = after.known()->0;
            assert(now.may_be(before));
            assert(after.may_be(last));
            assert(last.live() =~= first.live());
            if before.hidden_zero() {
                hidden_bytes_stay_zero(before, now.config(), last.base);
            }
        },
    }
}

/// A memory that was put back to a copy of its bytes, whoever holds it, was left showing
/// exactly the copy and no page more: the value of the memory itself at the moment when
/// the operation ended, also where other threads may have changed it since. If the bytes
/// that it hid before were zero, so are those that it hides then.
pub proof fn a_memory_put_back_shows_the_copy(
    now: VMMemory,
    after: VMMemory,
    taken: MemorySnapshot,
    image: Seq<u8>,
)
    requires
        now.inv(),
        taken matches MemorySnapshot::Eager { image: kept, .. } && kept@ == image,
        memory_restored(now, after, taken, None, Ok(())),
    ensures
        after.latest().live() == image,
        after.latest().length == image.len(),
        after.latest().pages().0 == image.len() / 65536,
        exists|found: WasmModel| #[trigger]
            now.passed(&after, found, after.latest()) && (found.hidden_zero() ==> after.latest().hidden_zero()),
        after matches VMMemory::Shared(memory) ==> memory.history().steps.len() > 0
            && memory.history().steps.last().left.live() == image,
{
    now.may_be_wf();
    after.may_be_wf();
    let (before, last) = choose|before: WasmModel, last: WasmModel|
        {
            &&& #[trigger] now.may_be(before)
            &&& #[trigger] after.may_be(last)
            &&& now.passed(&after, before, last)
            &&& agrees(
                before,
                last,
                Ok(()),
                before.restore_image(image, now.config(), last.base),
            )
        };
    assert(last.live() =~= image);
    if before.hidden_zero() {
        hidden_bytes_stay_zero(before, now.config(), last.base);
    }
    assert(now.passed(&after, before, after.latest()));
}

/// Behind its lock a memory changes in accesses alone: the first one finds it as it was
/// made, and each later one finds exactly what the one before left. So whoever comes next
/// after a memory was put back finds the bytes that were put there.
pub proof fn each_access_finds_what_the_last_one_left(memory: VMSharedMemory, i: int)
    requires
        memory.inv(),
        0 <= i < memory.history().steps.len(),
    ensures
        i == 0 ==> memory.history().steps[0].found == memory.history().start,
        i > 0 ==> memory.history().steps[i].found == memory.history().steps[i - 1].left,
        memory.latest() == memory.history().steps.last().left,
{
}

/// A memory that could not be put back to a copy of its bytes was left as it was found.
pub proof fn a_memory_not_put_back_is_left_alone(
    now: VMMemory,
    after: VMMemory,
    taken: MemorySnapshot,
    error: ErrorModel,
)
    requires
        taken is Eager,
        memory_restored(now, after, taken, None, Err(error)),
    ensures
        exists|found: WasmModel, left: WasmModel| #[trigger]
            now.passed(&after, found, left) && left == found,
{
}

/// The globals, put back to the bits that they had, show what they showed.
proof fn globals_round_trip(
    taken: Seq<u128>,
    baseline: &VMInstance,
    baseline_ctx: &StoreObjects,
    now_ctx: &StoreObjects,
    after_ctx: &StoreObjects,
)
    requires
        taken.len() == baseline.globals@.len(),
        forall|k: int|
            0 <= k < taken.len() ==> #[trigger] taken[k]
                == baseline_ctx.globals@[baseline.globals@[k] as int].val,
        globals_restored(now_ctx.globals@, after_ctx.globals@, baseline.globals@, taken),
    ensures
        observed(baseline, after_ctx).globals == observed(baseline, baseline_ctx).globals,
{
    let left = observed(baseline, after_ctx).globals;
    let right = observed(baseline, baseline_ctx).globals;
    assert forall|k: int| 0 <= k < left.len() implies left[k] == right[k] by {
        assert(after_ctx.globals@[baseline.globals@[k] as int].val == taken[k]);
    }
    assert(left =~= right);
}

/// The tables, put back to the slots that they had, show what they showed, and so
/// do indirect calls.
proof fn tables_round_trip(
    taken: Seq<Vec<RawTableElement>>,
    baseline: &VMInstance,
    baseline_ctx: &StoreObjects,
    now: &VMInstance,
    now_ctx: &StoreObjects,
    after: &VMInstance,
    after_ctx: &StoreObjects,
)
    requires
        baseline.synced(baseline_ctx),
        taken.len() == baseline.tables@.len(),
        forall|k: int|
            0 <= k < taken.len() ==> (#[trigger] taken[k])@
                == baseline_ctx.tables@[baseline.tables@[k] as int].elements@,
        now.dispatch@.len() == now.tables@.len(),
        now.same_makeup(baseline),
        same_dispatch(now, baseline),
        tables_restored(now_ctx, after_ctx, after, taken),
        after.same_makeup(now),
        same_dispatch_shape(now, after),
    ensures
        observed(after, after_ctx).tables == observed(baseline, baseline_ctx).tables,
        observed(after, after_ctx).dispatch == observed(baseline, baseline_ctx).dispatch,
        same_dispatch(after, baseline),
{
    let left = observed(after, after_ctx);
    let right = observed(baseline, baseline_ctx);
    assert forall|k: int| 0 <= k < left.tables.len() implies left.tables[k]
        == right.tables[k] by {
        assert(after_ctx.tables@[after.tables@[k] as int].elements@ == taken[k]@);
    }
    assert(left.tables =~= right.tables);
    assert forall|k: int| 0 <= k < after.tables@.len() implies (#[trigger] after.dispatch@[k]
        is Some) == baseline.dispatch@[k] is Some by {
        assert(after.dispatch@[k] is Some == now.dispatch@[k] is Some);
        assert(now.dispatch@[k] is Some == baseline.dispatch@[k] is Some);
    }
    assert forall|k: int| 0 <= k < left.dispatch.len() implies left.dispatch[k]
        == right.dispatch[k] by {
        assert(left.tables[k] == right.tables[k]);
        assert(after.dispatch@[k] is Some == baseline.dispatch@[k] is Some);
    }
    assert(left.dispatch =~= right.dispatch);
}

/// Two instances of one makeup in which no passive segment is dropped have the
/// same segments, with the same contents: after a reset nothing tells that a
/// segment was ever dropped.
pub proof fn undropped_segments_are_the_same(one: &VMInstance, other: &VMInstance)
    requires
        one.segments_wf(),
        other.segments_wf(),
        one.same_makeup(other),
        one.passive_complete(),
        other.passive_complete(),
    ensures
        same_segments(one, other),
{
    assert forall|index: u32| #[trigger] other.passive_data@.contains_key(index) implies
        one.passive_data@[index]@ == other.passive_data@[index]@ by {
        assert(one.passive_data@.contains_key(index));
    }
    assert forall|index: u32| #[trigger] other.passive_elements@.contains_key(index) implies
        one.passive_elements@[index]@ == other.passive_elements@[index]@ by {
        assert(one.passive_elements@.contains_key(index));
    }
}

/// Objects that an instance imports are the embedder's: a reset, with success or
/// without, does not touch them.
pub proof fn resetting_does_not_touch_imports(
    snapshot: &VMInstanceSnapshot,
    now: &VMInstance,
    now_ctx: &StoreObjects,
    after: &VMInstance,
    after_ctx: &StoreObjects,
    bound: Option<usize>,
    outcome: Result<(), ErrorModel>,
)
    requires
        now.wf(now_ctx),
        snapshot.reset(now, after, now_ctx, after_ctx, bound, outcome),
    ensures
        imports_kept(now, now_ctx, after_ctx),
{
}

/// An instance that is reset to a snapshot is exactly as it was when the snapshot was
/// taken, whatever ran in between: its memories show the same bytes and have the same
/// size, globals and tables are the same, and so is what indirect calls see of the
/// tables. Every declared passive segment is there. What the instance imports is not
/// touched. The instance can be used and reset again.
pub proof fn resetting_gives_the_baseline_back(
    snapshot: &VMInstanceSnapshot,
    allow_cow: bool,
    baseline: &VMInstance,
    baseline_ctx: &StoreObjects,
    now: &VMInstance,
    now_ctx: &StoreObjects,
    after: &VMInstance,
    after_ctx: &StoreObjects,
)
    requires
        baseline_ctx.wf(),
        baseline.wf(baseline_ctx),
        baseline.synced(baseline_ctx),
        snapshot.holds(baseline, baseline_ctx, allow_cow),
        can_follow(baseline, baseline_ctx, now, now_ctx),
        after_ctx.wf(),
        after.wf(after_ctx),
        snapshot.reset(now, after, now_ctx, after_ctx, None, Ok(())),
    ensures
        observed(after, after_ctx) == observed(baseline, baseline_ctx),
        forall|k: int|
            0 <= k < baseline.memories@.len() ==> shows_again(
                memory_of(baseline, baseline_ctx, k),
                #[trigger] memory_of(after, after_ctx, k),
            ),
        after.synced(after_ctx),
        after.passive_complete(),
        baseline.passive_complete() ==> same_segments(after, baseline),
        imports_kept(now, now_ctx, after_ctx),
        hides_only_zeros(now, now_ctx) ==> hides_only_zeros(after, after_ctx),
        can_follow(baseline, baseline_ctx, after, after_ctx),
{
    assert forall|k: int| 0 <= k < after.memories@.len() implies {
        let last = #[trigger] memory_of(after, after_ctx, k);
        let first = memory_of(baseline, baseline_ctx, k);
        &&& shows_again(first, last)
        &&& shown(last) == shown(first)
        &&& last.config() == first.config()
        &&& last.shared() == first.shared()
        &&& memory_of(now, now_ctx, k).known() matches Some(value) ==> value.hidden_zero()
            ==> last.known()->0.hidden_zero()
    } by {
        let handle = now.memories@[k] as int;
        assert(baseline.memories@[k] == now.memories@[k]);
        assert(memory_of(baseline, baseline_ctx, k).config() == memory_of(
            now,
            now_ctx,
            k,
        ).config());
        memory_round_trip(
            baseline_ctx.memories@[handle],
            now_ctx.memories@[handle],
            after_ctx.memories@[handle],
            snapshot.memories@[k],
            allow_cow,
        );
    }
    if hides_only_zeros(now, now_ctx) {
        assert forall|k: int| 0 <= k < after.memories@.len() implies ((#[trigger] memory_of(
            after,
            after_ctx,
            k,
        )).known() matches Some(value) ==> value.hidden_zero()) by {
            assert(memory_of(now, now_ctx, k).known() matches Some(value)
                ==> value.hidden_zero());
        }
    }
    assert forall|k: int| 0 <= k < baseline.memories@.len() implies (#[trigger] memory_of(
        baseline,
        baseline_ctx,
        k,
    )).config() == memory_of(after, after_ctx, k).config() && memory_of(
        baseline,
        baseline_ctx,
        k,
    ).shared() == memory_of(after, after_ctx, k).shared() by {
        assert(shown(memory_of(after, after_ctx, k)) == shown(
            memory_of(baseline, baseline_ctx, k),
        ));
    }
    assert(observed(after, after_ctx).memories =~= observed(baseline, baseline_ctx).memories);
    globals_round_trip(snapshot.globals@, baseline, baseline_ctx, now_ctx, after_ctx);
    tables_round_trip(
        snapshot.tables@,
        baseline,
        baseline_ctx,
        now,
        now_ctx,
        after,
        after_ctx,
    );
    resetting_does_not_touch_imports(
        snapshot,
        now,
        now_ctx,
        after,
        after_ctx,
        None,
        Ok(()),
    );
    if baseline.passive_complete() {
        undropped_segments_are_the_same(after, baseline);
    }
}

/// Two runs from one snapshot, whatever each of them did, leave nothing behind that
/// could tell them apart once the instance was reset: not in memories, globals or
/// tables, not for indirect calls, not in the passive segments.
pub proof fn runs_leave_nothing_behind(
    snapshot: &VMInstanceSnapshot,
    allow_cow: bool,
    baseline: &VMInstance,
    baseline_ctx: &StoreObjects,
    one: &VMInstance,
    one_ctx: &StoreObjects,
    after_one: &VMInstance,
    after_one_ctx: &StoreObjects,
    other: &VMInstance,
    other_ctx: &StoreObjects,
    after_other: &VMInstance,
    after_other_ctx: &StoreObjects,
)
    requires
        baseline_ctx.wf(),
        baseline.wf(baseline_ctx),
        baseline.synced(baseline_ctx),
        snapshot.holds(baseline, baseline_ctx, allow_cow),
        can_follow(baseline, baseline_ctx, one, one_ctx),
        can_follow(baseline, baseline_ctx, other, other_ctx),
        after_one_ctx.wf(),
        after_one.wf(after_one_ctx),
        after_other_ctx.wf(),
        after_other.wf(after_other_ctx),
        snapshot.reset(one, after_one, one_ctx, after_one_ctx, None, Ok(())),
        snapshot.reset(other, after_other, other_ctx, after_other_ctx, None, Ok(())),
    ensures
        observed(after_one, after_one_ctx) == observed(after_other, after_other_ctx),
        same_segments(after_one, after_other),
{
    resetting_gives_the_baseline_back(
        snapshot,
        allow_cow,
        baseline,
        baseline_ctx,
        one,
        one_ctx,
        after_one,
        after_one_ctx,
    );
    resetting_gives_the_baseline_back(
        snapshot,
        allow_cow,
        baseline,
        baseline_ctx,
        other,
        other_ctx,
        after_other,
        after_other_ctx,
    );
    undropped_segments_are_the_same(after_one, after_other);
}

/// Pages that a memory gets after a reset are zero, whatever was written there
/// before, and what the snapshot holds is below them.
pub proof fn pages_grown_after_a_reset_are_zero(
    snapshot: &VMInstanceSnapshot,
    allow_cow: bool,
    baseline: &VMInstance,
    baseline_ctx: &StoreObjects,
    now: &VMInstance,
    now_ctx: &StoreObjects,
    after: &VMInstance,
    after_ctx: &StoreObjects,
    k: int,
    delta: Pages,
    moved_to: usize,
)
    requires
        baseline_ctx.wf(),
        baseline.wf(baseline_ctx),
        baseline.synced(baseline_ctx),
        snapshot.holds(baseline, baseline_ctx, allow_cow),
        can_follow(baseline, baseline_ctx, now, now_ctx),
        hides_only_zeros(now, now_ctx),
        after_ctx.wf(),
        after.wf(after_ctx),
        snapshot.reset(now, after, now_ctx, after_ctx, None, Ok(())),
        0 <= k < now.memories@.len(),
        memory_of(after, after_ctx, k) is Owned,
        value_of(after, after_ctx, k).grow(
            delta,
            memory_of(after, after_ctx, k).config(),
            moved_to,
        ) is Ok,
    ensures
        ({
            let conf = memory_of(after, after_ctx, k).config();
            let grown = value_of(after, after_ctx, k).grow(delta, conf, moved_to)->Ok_0;
            let kept = value_of(baseline, baseline_ctx, k).live();
            &&& grown.live().take(kept.len() as int) == kept
            &&& forall|i: int| kept.len() <= i < grown.length ==> #[trigger] grown.live()[i] == 0
        }),
{
    resetting_gives_the_baseline_back(
        snapshot,
        allow_cow,
        baseline,
        baseline_ctx,
        now,
        now_ctx,
        after,
        after_ctx,
    );
    let memory = memory_of(after, after_ctx, k);
    let conf = memory.config();
    let value = value_of(after, after_ctx, k);
    memory.may_be_wf();
    assert(memory.may_be(value));
    assert(value.hidden_zero());
    assert(observed(after, after_ctx).memories[k] == observed(baseline, baseline_ctx).memories[k]);
    assert(shown(memory) == shown(memory_of(baseline, baseline_ctx, k)));
    growing_keeps_the_bytes_and_adds_zeros(value, delta, conf, moved_to);
}

/// Two runs from one snapshot leave nothing behind on pages that come later either: a
/// memory that grows after the reset shows the same bytes, whichever run it was.
pub proof fn runs_leave_nothing_on_later_pages(
    snapshot: &VMInstanceSnapshot,
    allow_cow: bool,
    baseline: &VMInstance,
    baseline_ctx: &StoreObjects,
    one: &VMInstance,
    one_ctx: &StoreObjects,
    after_one: &VMInstance,
    after_one_ctx: &StoreObjects,
    other: &VMInstance,
    other_ctx: &StoreObjects,
    after_other: &VMInstance,
    after_other_ctx: &StoreObjects,
    k: int,
    delta: Pages,
    one_to: usize,
    other_to: usize,
)
    requires
        baseline_ctx.wf(),
        baseline.wf(baseline_ctx),
        baseline.synced(baseline_ctx),
        snapshot.holds(baseline, baseline_ctx, allow_cow),
        can_follow(baseline, baseline_ctx, one, one_ctx),
        can_follow(baseline, baseline_ctx, other, other_ctx),
        hides_only_zeros(one, one_ctx),
        hides_only_zeros(other, other_ctx),
        after_one_ctx.wf(),
        after_one.wf(after_one_ctx),
        after_other_ctx.wf(),
        after_other.wf(after_other_ctx),
        snapshot.reset(one, after_one, one_ctx, after_one_ctx, None, Ok(())),
        snapshot.reset(other, after_other, other_ctx, after_other_ctx, None, Ok(())),
        0 <= k < baseline.memories@.len(),
        memory_of(baseline, baseline_ctx, k) is Owned,
        ({
            let conf = memory_of(baseline, baseline_ctx, k).config();
            let first = value_of(after_one, after_one_ctx, k);
            let second = value_of(after_other, after_other_ctx, k);
            &&& first.grow(delta, conf, one_to) is Ok
            &&& second.grow(delta, conf, other_to) is Ok
        }),
    ensures
        ({
            let conf = memory_of(baseline, baseline_ctx, k).config();
            value_of(after_one, after_one_ctx, k).grow(delta, conf, one_to)->Ok_0.live()
                == value_of(after_other, after_other_ctx, k).grow(
                delta,
                conf,
                other_to,
            )->Ok_0.live()
        }),
{
    let conf = memory_of(baseline, baseline_ctx, k).config();
    resetting_gives_the_baseline_back(
        snapshot,
        allow_cow,
        baseline,
        baseline_ctx,
        one,
        one_ctx,
        after_one,
        after_one_ctx,
    );
    resetting_gives_the_baseline_back(
        snapshot,
        allow_cow,
        baseline,
        baseline_ctx,
        other,
        other_ctx,
        after_other,
        after_other_ctx,
    );
    let first_memory = memory_of(after_one, after_one_ctx, k);
    let second_memory = memory_of(after_other, after_other_ctx, k);
    assert(memory_of(baseline, baseline_ctx, k).config() == first_memory.config());
    assert(memory_of(baseline, baseline_ctx, k).config() == second_memory.config());
    pages_grown_after_a_reset_are_zero(
        snapshot,
        allow_cow,
        baseline,
        baseline_ctx,
        one,
        one_ctx,
        after_one,
        after_one_ctx,
        k,
        delta,
        one_to,
    );
    pages_grown_after_a_reset_are_zero(
        snapshot,
        allow_cow,
        baseline,
        baseline_ctx,
        other,
        other_ctx,
        after_other,
        after_other_ctx,
        k,
        delta,
        other_to,
    );
    let first = value_of(after_one, after_one_ctx, k);
    let second = value_of(after_other, after_other_ctx, k);
    first_memory.may_be_wf();
    second_memory.may_be_wf();
    assert(first_memory.may_be(first));
    assert(second_memory.may_be(second));
    assert(observed(after_one, after_one_ctx).memories[k] == observed(
        after_other,
        after_other_ctx,
    ).memories[k]);
    let left = first.grow(delta, conf, one_to)->Ok_0.live();
    let right = second.grow(delta, conf, other_to)->Ok_0.live();
    let kept = value_of(baseline, baseline_ctx, k).live();
    assert(first.live().len() == second.live().len());
    assert forall|i: int| 0 <= i < left.len() implies left[i] == right[i] by {
        if i < kept.len() {
            assert(left.take(kept.len() as int)[i] == right.take(kept.len() as int)[i]);
        }
    }
    assert(left =~= right);
}

/// Every defined memory has at least the pages that it had, and one that was captured
/// copy-on-write did not move; a memory of static style never does.
pub open spec fn memories_not_shrunk(
    snapshot: &VMInstanceSnapshot,
    instance: &VMInstance,
    baseline_ctx: &StoreObjects,
    now_ctx: &StoreObjects,
) -> bool {
    forall|k: int|
        0 <= k < instance.memories@.len() ==> (#[trigger] value_of(
            instance,
            baseline_ctx,
            k,
        )).pages().0 <= value_of(instance, now_ctx, k).pages().0 && (snapshot.memories@[k] is Cow
            ==> value_of(instance, baseline_ctx, k).base == value_of(instance, now_ctx, k).base)
}

/// Resetting an instance to its own snapshot succeeds, whatever ran in between,
/// if its memories did not lose pages and those that were captured copy-on-write did
/// not move.
///
/// Of a memory that several threads hold it is not known whether it can have its
/// pages back.
pub proof fn resetting_succeeds(
    snapshot: &VMInstanceSnapshot,
    allow_cow: bool,
    baseline: &VMInstance,
    baseline_ctx: &StoreObjects,
    now: &VMInstance,
    now_ctx: &StoreObjects,
    after: &VMInstance,
    after_ctx: &StoreObjects,
    outcome: Result<(), ErrorModel>,
)
    requires
        baseline_ctx.wf(),
        baseline.wf(baseline_ctx),
        owns_memories(baseline, baseline_ctx),
        snapshot.holds(baseline, baseline_ctx, allow_cow),
        can_follow(baseline, baseline_ctx, now, now_ctx),
        memories_not_shrunk(snapshot, baseline, baseline_ctx, now_ctx),
        snapshot.reset(now, after, now_ctx, after_ctx, None, outcome),
    ensures
        outcome is Ok,
{
    if outcome is Err {
        let error = outcome->Err_0;
        let failed = choose|failed: int|
            0 <= failed < now.memories@.len() && #[trigger] stopped_at(
                now_ctx.memories@,
                after_ctx.memories@,
                now.memories@,
                snapshot.memories@,
                None,
                error,
                failed,
            );
        assert(baseline.memories@[failed] == now.memories@[failed]);
        let origin = memory_of(baseline, baseline_ctx, failed);
        let before = memory_of(now, now_ctx, failed);
        let post = memory_of(now, after_ctx, failed);
        let taken = snapshot.memories@[failed];
        let first = value_of(baseline, baseline_ctx, failed);
        let present = value_of(baseline, now_ctx, failed);
        assert(memory_captured(origin, taken, allow_cow));
        assert(origin.may_be(first));
        assert(before.may_be(present));
        before.may_be_wf();
        origin.may_be_wf();
        assert(memory_restored(before, post, taken, None, Err(error)));
        match taken {
            MemorySnapshot::Eager { image, .. } => {
                assert(image@.len() == first.length);
                let last = post.known()->0;
                restoring_an_image_succeeds(present, image@, before.config(), last.base);
                assert(post.may_be(last));
            },
            MemorySnapshot::Cow(cow) => {
                assert(present.restore_cow(cow) is Ok);
            },
        }
    }
}

/// Resetting an instance in which nothing ran succeeds and changes nothing that
/// code in it can see.
pub proof fn resetting_an_untouched_instance_changes_nothing(
    snapshot: &VMInstanceSnapshot,
    allow_cow: bool,
    baseline: &VMInstance,
    ctx: &StoreObjects,
    after: &VMInstance,
    after_ctx: &StoreObjects,
    outcome: Result<(), ErrorModel>,
)
    requires
        ctx.wf(),
        baseline.wf(ctx),
        baseline.synced(ctx),
        owns_memories(baseline, ctx),
        snapshot.holds(baseline, ctx, allow_cow),
        after_ctx.wf(),
        after.wf(after_ctx),
        snapshot.reset(baseline, after, ctx, after_ctx, None, outcome),
    ensures
        outcome is Ok,
        observed(after, after_ctx) == observed(baseline, ctx),
{
    resetting_succeeds(
        snapshot,
        allow_cow,
        baseline,
        ctx,
        baseline,
        ctx,
        after,
        after_ctx,
        outcome,
    );
    resetting_gives_the_baseline_back(
        snapshot,
        allow_cow,
        baseline,
        ctx,
        baseline,
        ctx,
        after,
        after_ctx,
    );
}

/// A snapshot with copies of the bytes and one that was taken copy-on-write lead
/// back to the same state.
pub proof fn both_kinds_of_snapshot_agree(
    eager: &VMInstanceSnapshot,
    cow: &VMInstanceSnapshot,
    baseline: &VMInstance,
    baseline_ctx: &StoreObjects,
    now: &VMInstance,
    now_ctx: &StoreObjects,
    after_eager: &VMInstance,
    eager_ctx: &StoreObjects,
    after_cow: &VMInstance,
    cow_ctx: &StoreObjects,
)
    requires
        baseline_ctx.wf(),
        baseline.wf(baseline_ctx),
        baseline.synced(baseline_ctx),
        eager.holds(baseline, baseline_ctx, false),
        cow.holds(baseline, baseline_ctx, true),
        can_follow(baseline, baseline_ctx, now, now_ctx),
        eager_ctx.wf(),
        after_eager.wf(eager_ctx),
        cow_ctx.wf(),
        after_cow.wf(cow_ctx),
        eager.reset(now, after_eager, now_ctx, eager_ctx, None, Ok(())),
        cow.reset(now, after_cow, now_ctx, cow_ctx, None, Ok(())),
    ensures
        observed(after_eager, eager_ctx) == observed(after_cow, cow_ctx),
        same_segments(after_eager, after_cow),
{
    resetting_gives_the_baseline_back(
        eager,
        false,
        baseline,
        baseline_ctx,
        now,
        now_ctx,
        after_eager,
        eager_ctx,
    );
    resetting_gives_the_baseline_back(
        cow,
        true,
        baseline,
        baseline_ctx,
        now,
        now_ctx,
        after_cow,
        cow_ctx,
    );
    undropped_segments_are_the_same(after_eager, after_cow);
}

/// `last` has the first bytes of `first`, as far as the bound, the image and the
/// memory reach, and all else of `present`, its size included.
pub open spec fn prefix_restored(
    first: WasmModel,
    present: WasmModel,
    last: WasmModel,
    bound: nat,
) -> bool {
    &&& last.length == present.length
    &&& forall|i: int|
        0 <= i < present.length ==> #[trigger] last.live()[i] == if i < bound && i < first.length {
            first.live()[i]
        } else {
            present.live()[i]
        }
}

/// A memory was put back up to the bound; see [`prefix_restored`].
pub open spec fn below_bound_restored(
    baseline: VMMemory,
    now: VMMemory,
    after: VMMemory,
    bound: nat,
) -> bool {
    exists|first: WasmModel, present: WasmModel, last: WasmModel|
        {
            &&& #[trigger] baseline.may_be(first)
            &&& #[trigger] now.may_be(present)
            &&& #[trigger] after.may_be(last)
            &&& now.passed(&after, present, last)
            &&& prefix_restored(first, present, last, bound)
        }
}

/// A reset with a bound succeeds. Of each memory the bytes below the bound are as they
/// were, and the others and the size are left alone: a memory that grew stays grown.
/// Globals, tables, what indirect calls see of them, and passive segments are put back
/// in full, whatever the bound is. What the instance imports is not touched.
pub proof fn a_bounded_reset_puts_back_what_lies_below(
    snapshot: &VMInstanceSnapshot,
    baseline: &VMInstance,
    baseline_ctx: &StoreObjects,
    now: &VMInstance,
    now_ctx: &StoreObjects,
    after: &VMInstance,
    after_ctx: &StoreObjects,
    bound: usize,
    outcome: Result<(), ErrorModel>,
)
    requires
        baseline_ctx.wf(),
        baseline.wf(baseline_ctx),
        baseline.synced(baseline_ctx),
        snapshot.holds(baseline, baseline_ctx, false),
        can_follow(baseline, baseline_ctx, now, now_ctx),
        after_ctx.wf(),
        after.wf(after_ctx),
        snapshot.reset(now, after, now_ctx, after_ctx, Some(bound), outcome),
    ensures
        outcome is Ok,
        forall|k: int|
            0 <= k < baseline.memories@.len() ==> below_bound_restored(
                memory_of(baseline, baseline_ctx, k),
                memory_of(now, now_ctx, k),
                #[trigger] memory_of(after, after_ctx, k),
                bound as nat,
            ) && memory_of(after, after_ctx, k).shared() == memory_of(
                baseline,
                baseline_ctx,
                k,
            ).shared(),
        observed(after, after_ctx).globals == observed(baseline, baseline_ctx).globals,
        observed(after, after_ctx).tables == observed(baseline, baseline_ctx).tables,
        observed(after, after_ctx).dispatch == observed(baseline, baseline_ctx).dispatch,
        after.passive_complete(),
        baseline.passive_complete() ==> same_segments(after, baseline),
        imports_kept(now, now_ctx, after_ctx),
{
    if outcome is Err {
        let error = outcome->Err_0;
        let failed = choose|failed: int|
            0 <= failed < now.memories@.len() && #[trigger] stopped_at(
                now_ctx.memories@,
                after_ctx.memories@,
                now.memories@,
                snapshot.memories@,
                Some(bound),
                error,
                failed,
            );
        assert(memory_captured(
            memory_of(baseline, baseline_ctx, failed),
            snapshot.memories@[failed],
            false,
        ));
    }
    assert forall|k: int| 0 <= k < baseline.memories@.len() implies below_bound_restored(
        memory_of(baseline, baseline_ctx, k),
        memory_of(now, now_ctx, k),
        #[trigger] memory_of(after, after_ctx, k),
        bound as nat,
    ) && memory_of(after, after_ctx, k).shared() == memory_of(
        baseline,
        baseline_ctx,
        k,
    ).shared() by {
        assert(baseline.memories@[k] == now.memories@[k]);
        let origin = memory_of(baseline, baseline_ctx, k);
        let before = memory_of(now, now_ctx, k);
        let post = memory_of(after, after_ctx, k);
        let taken = snapshot.memories@[k];
        assert(memory_captured(origin, taken, false));
        assert(memory_restored(before, post, taken, Some(bound), Ok(())));
        assert(origin.shared() == before.shared());
        bounded_round_trip(origin, before, post, taken, bound);
    }
    globals_round_trip(snapshot.globals@, baseline, baseline_ctx, now_ctx, after_ctx);
    tables_round_trip(
        snapshot.tables@,
        baseline,
        baseline_ctx,
        now,
        now_ctx,
        after,
        after_ctx,
    );
    resetting_does_not_touch_imports(
        snapshot,
        now,
        now_ctx,
        after,
        after_ctx,
        Some(bound),
        outcome,
    );
    if baseline.passive_complete() {
        undropped_segments_are_the_same(after, baseline);
    }
}

/// One memory, put back to a capture up to a bound.
proof fn bounded_round_trip(
    baseline: VMMemory,
    now: VMMemory,
    after: VMMemory,
    taken: MemorySnapshot,
    bound: usize,
)
    requires
        baseline.inv(),
        now.inv(),
        memory_captured(baseline, taken, false),
        memory_restored(now, after, taken, Some(bound), Ok(())),
    ensures
        below_bound_restored(baseline, now, after, bound as nat),
{
    baseline.may_be_wf();
    now.may_be_wf();
    let image = taken->image@;
    let first = choose|model: WasmModel| #[trigger]
        baseline.may_be(model) && image == model.live();
    let (present, last) = choose|present: WasmModel, last: WasmModel|
        {
            &&& #[trigger] now.may_be(present)
            &&& #[trigger] after.may_be(last)
            &&& now.passed(&after, present, last)
            &&& last == present.restore_bounded(image, bound as nat)
        };
    bounded_restores_reach_three_limits(present, image, bound as nat);
    assert(prefix_restored(first, present, last, bound as nat));
}

/// Every defined memory that one owner holds is as long as it was, and from the bound
/// on it shows what it showed.
pub open spec fn dirty_below(
    instance: &VMInstance,
    baseline_ctx: &StoreObjects,
    now_ctx: &StoreObjects,
    bound: usize,
) -> bool {
    forall|k: int|
        0 <= k < instance.memories@.len() && (#[trigger] memory_of(
            instance,
            now_ctx,
            k,
        )) is Owned ==> value_of(instance, now_ctx, k).length == value_of(
            instance,
            baseline_ctx,
            k,
        ).length && value_of(instance, now_ctx, k).live().skip(bound as int) == value_of(
            instance,
            baseline_ctx,
            k,
        ).live().skip(bound as int)
}

/// A reset with a bound succeeds, and where everything that was written lies
/// below the bound, it gives the baseline back like any other.
pub proof fn a_bounded_reset_gives_the_baseline_back(
    snapshot: &VMInstanceSnapshot,
    baseline: &VMInstance,
    baseline_ctx: &StoreObjects,
    now: &VMInstance,
    now_ctx: &StoreObjects,
    after: &VMInstance,
    after_ctx: &StoreObjects,
    bound: usize,
    outcome: Result<(), ErrorModel>,
)
    requires
        baseline_ctx.wf(),
        baseline.wf(baseline_ctx),
        baseline.synced(baseline_ctx),
        snapshot.holds(baseline, baseline_ctx, false),
        can_follow(baseline, baseline_ctx, now, now_ctx),
        dirty_below(baseline, baseline_ctx, now_ctx, bound),
        after_ctx.wf(),
        after.wf(after_ctx),
        snapshot.reset(now, after, now_ctx, after_ctx, Some(bound), outcome),
    ensures
        outcome is Ok,
        observed(after, after_ctx) == observed(baseline, baseline_ctx),
        after.passive_complete(),
{
    a_bounded_reset_puts_back_what_lies_below(
        snapshot,
        baseline,
        baseline_ctx,
        now,
        now_ctx,
        after,
        after_ctx,
        bound,
        outcome,
    );
    assert forall|k: int| 0 <= k < after.memories@.len() implies shown(
        #[trigger] memory_of(after, after_ctx, k),
    ) == shown(memory_of(baseline, baseline_ctx, k)) by {
        let origin = memory_of(baseline, baseline_ctx, k);
        let post = memory_of(after, after_ctx, k);
        assert(origin.shared() == post.shared());
        if origin is Owned {
            let first = value_of(baseline, baseline_ctx, k);
            let present = value_of(baseline, now_ctx, k);
            let last = value_of(after, after_ctx, k);
            assert(memory_of(now, now_ctx, k) is Owned);
            assert(prefix_restored(first, present, last, bound as nat));
            memory_of(now, now_ctx, k).may_be_wf();
            origin.may_be_wf();
            post.may_be_wf();
            assert(memory_of(now, now_ctx, k).may_be(present));
            assert(origin.may_be(first));
            assert(post.may_be(last));
            assert forall|i: int| 0 <= i < first.length implies last.live()[i]
                == first.live()[i] by {
                if i >= bound {
                    assert(present.live().skip(bound as int)[i - bound] == first.live().skip(
                        bound as int,
                    )[i - bound]);
                }
            }
            assert(last.live() =~= first.live());
        }
    }
    assert(observed(after, after_ctx).memories =~= observed(baseline, baseline_ctx).memories);
}

/// No object belongs to both instances.
pub open spec fn disjoint(one: &VMInstance, other: &VMInstance) -> bool {
    &&& forall|k: int|
        0 <= k < other.memories@.len() ==> !one.memories@.contains(#[trigger] other.memories@[k])
    &&& forall|k: int|
        0 <= k < other.globals@.len() ==> !one.globals@.contains(#[trigger] other.globals@[k])
    &&& forall|k: int|
        0 <= k < other.tables@.len() ==> !one.tables@.contains(#[trigger] other.tables@[k])
}

/// Resetting one instance, with success or without, changes nothing that code in
/// another instance of the same store can see.
pub proof fn resetting_does_not_touch_other_instances(
    snapshot: &VMInstanceSnapshot,
    now: &VMInstance,
    now_ctx: &StoreObjects,
    after: &VMInstance,
    after_ctx: &StoreObjects,
    bound: Option<usize>,
    outcome: Result<(), ErrorModel>,
    other: &VMInstance,
)
    requires
        now.wf(now_ctx),
        other.wf(now_ctx),
        disjoint(now, other),
        snapshot.reset(now, after, now_ctx, after_ctx, bound, outcome),
    ensures
        observed(other, after_ctx) == observed(other, now_ctx),
{
    let left = observed(other, after_ctx);
    let right = observed(other, now_ctx);
    assert forall|k: int| 0 <= k < left.memories.len() implies left.memories[k]
        == right.memories[k] by {
        let handle = other.memories@[k];
        assert(after_ctx.memories@[handle as int] == now_ctx.memories@[handle as int]);
    }
    assert(left.memories =~= right.memories);
    assert forall|k: int| 0 <= k < left.globals.len() implies left.globals[k]
        == right.globals[k] by {
        let handle = other.globals@[k];
        assert(after_ctx.globals@[handle as int] == now_ctx.globals@[handle as int]);
    }
    assert(left.globals =~= right.globals);
    assert forall|k: int| 0 <= k < left.tables.len() implies left.tables[k]
        == right.tables[k] by {
        let handle = other.tables@[k];
        assert(after_ctx.tables@[handle as int] == now_ctx.tables@[handle as int]);
    }
    assert(left.tables =~= right.tables);
    assert(left.dispatch =~= right.dispatch);
}

/// Putting the tables back alone gives the slots back that they had, also to
/// indirect calls, and leaves memories and globals as they are.
pub proof fn resetting_tables_gives_the_tables_back(
    snapshot: &VMTablesSnapshot,
    baseline: &VMInstance,
    baseline_ctx: &StoreObjects,
    now: &VMInstance,
    now_ctx: &StoreObjects,
    after: &VMInstance,
    after_ctx: &StoreObjects,
    outcome: Result<(), ErrorModel>,
)
    requires
        baseline.wf(baseline_ctx),
        baseline.synced(baseline_ctx),
        snapshot.holds(baseline, baseline_ctx),
        now.wf(now_ctx),
        now.same_makeup(baseline),
        same_dispatch(now, baseline),
        snapshot.reset(now, after, now_ctx, after_ctx, outcome),
    ensures
        outcome is Ok,
        observed(after, after_ctx).tables == observed(baseline, baseline_ctx).tables,
        observed(after, after_ctx).dispatch == observed(baseline, baseline_ctx).dispatch,
        observed(after, after_ctx).memories == observed(now, now_ctx).memories,
        observed(after, after_ctx).globals == observed(now, now_ctx).globals,
{
    let left = observed(after, after_ctx);
    tables_round_trip(
        snapshot.tables@,
        baseline,
        baseline_ctx,
        now,
        now_ctx,
        after,
        after_ctx,
    );
    assert(left.memories =~= observed(now, now_ctx).memories);
    assert(left.globals =~= observed(now, now_ctx).globals);
}

/// A snapshot goes on fitting the instance, whatever runs in it, as long as no memory
/// that was captured copy-on-write and did not move has less room set aside than it
/// had; no operation takes room away.
pub proof fn snapshots_go_on_fitting(
    snapshot: &VMInstanceSnapshot,
    allow_cow: bool,
    baseline: &VMInstance,
    baseline_ctx: &StoreObjects,
    now: &VMInstance,
    now_ctx: &StoreObjects,
)
    requires
        baseline_ctx.wf(),
        baseline.wf(baseline_ctx),
        snapshot.holds(baseline, baseline_ctx, allow_cow),
        can_follow(baseline, baseline_ctx, now, now_ctx),
        forall|k: int|
            0 <= k < snapshot.memories@.len() && #[trigger] snapshot.memories@[k] is Cow
                && value_of(baseline, now_ctx, k).base == value_of(baseline, baseline_ctx, k).base
                ==> value_of(baseline, baseline_ctx, k).total <= value_of(
                baseline,
                now_ctx,
                k,
            ).total,
    ensures
        snapshot.fits(now, now_ctx),
{
    assert forall|k: int| 0 <= k < snapshot.memories@.len() implies (
    #[trigger] snapshot.memories@[k]).fits(now_ctx.memories@[now.memories@[k] as int]) by {
        let origin = memory_of(baseline, baseline_ctx, k);
        assert(origin.shared() == memory_of(now, now_ctx, k).shared());
        origin.may_be_wf();
        assert(memory_captured(origin, snapshot.memories@[k], allow_cow));
    }
}

/// While no passive segment is dropped, as after a reset or when the instance is made,
/// the instance has each segment that the module declares, and no other: a data segment
/// with the declared bytes, and an element segment that has elements with as many
/// entries as are declared. Entry `i` is null where the declared index `i` stands for no
/// function, and otherwise the reference of just the function with that index.
pub proof fn undropped_segments_are_as_declared(instance: &VMInstance)
    requires
        instance.segments_wf(),
        instance.passive_complete(),
    ensures
        forall|k: int|
            0 <= k < instance.module.passive_elements@.len() && (
            #[trigger] instance.module.passive_elements@[k]).1@.len() > 0 ==> {
                let (index, declared) = instance.module.passive_elements@[k];
                &&& instance.passive_elements@.contains_key(index)
                &&& instance.passive_elements@[index]@.len() == declared@.len()
                &&& forall|i: int|
                    0 <= i < declared@.len() ==> #[trigger] instance.passive_elements@[index]@[i]
                        == if declared@[i] == 0xffff_ffff {
                        None
                    } else {
                        Some(instance.functions@[declared@[i] as int])
                    }
            },
        forall|index: u32| #[trigger]
            instance.passive_elements@.contains_key(index) ==> exists|k: int|
                0 <= k < instance.module.passive_elements@.len() && (
                #[trigger] instance.module.passive_elements@[k]).0 == index,
        forall|k: int|
            0 <= k < instance.module.passive_data@.len() ==> {
                let (index, declared) = #[trigger] instance.module.passive_data@[k];
                &&& instance.passive_data@.contains_key(index)
                &&& instance.passive_data@[index]@ == declared@
            },
        forall|index: u32| #[trigger]
            instance.passive_data@.contains_key(index) ==> exists|k: int|
                0 <= k < instance.module.passive_data@.len() && (
                #[trigger] instance.module.passive_data@[k]).0 == index,
{
    assert forall|k: int|
        0 <= k < instance.module.passive_elements@.len() && (
        #[trigger] instance.module.passive_elements@[k]).1@.len() > 0 implies {
        let (index, declared) = instance.module.passive_elements@[k];
        &&& instance.passive_elements@.contains_key(index)
        &&& instance.passive_elements@[index]@ == func_refs(instance.functions@, declared@)
    } by {
        let index = instance.module.passive_elements@[k].0;
        assert(instance.passive_elements@.contains_key(index));
    }
    assert forall|k: int| 0 <= k < instance.module.passive_data@.len() implies {
        let (index, declared) = #[trigger] instance.module.passive_data@[k];
        &&& instance.passive_data@.contains_key(index)
        &&& instance.passive_data@[index]@ == declared@
    } by {
        let index = instance.module.passive_data@[k].0;
        assert(instance.passive_data@.contains_key(index));
    }
}

/// A reset that succeeds, with a bound or without, brings every declared element segment
/// back that was dropped, entry by entry: null where the declared index stands for no
/// function, and otherwise the reference of the function with that index.
pub proof fn resetting_brings_the_segments_back(
    snapshot: &VMInstanceSnapshot,
    now: &VMInstance,
    now_ctx: &StoreObjects,
    after: &VMInstance,
    after_ctx: &StoreObjects,
    bound: Option<usize>,
    k: int,
)
    requires
        now.wf(now_ctx),
        after.wf(after_ctx),
        snapshot.reset(now, after, now_ctx, after_ctx, bound, Ok(())),
        0 <= k < now.module.passive_elements@.len(),
        now.module.passive_elements@[k].1@.len() > 0,
    ensures
        ({
            let (index, declared) = now.module.passive_elements@[k];
            &&& after.passive_elements@.contains_key(index)
            &&& after.passive_elements@[index]@.len() == declared@.len()
            &&& forall|i: int|
                0 <= i < declared@.len() ==> #[trigger] after.passive_elements@[index]@[i]
                    == if declared@[i] == 0xffff_ffff {
                    None
                } else {
                    Some(now.functions@[declared@[i] as int])
                }
        }),
{
    undropped_segments_are_as_declared(after);
    assert(after.module.passive_elements@[k].1@.len() > 0);
}

/// A reset that succeeds, with a bound or without, brings every declared data segment
/// back that was dropped, with its declared bytes.
pub proof fn resetting_brings_the_data_back(
    snapshot: &VMInstanceSnapshot,
    now: &VMInstance,
    now_ctx: &StoreObjects,
    after: &VMInstance,
    after_ctx: &StoreObjects,
    bound: Option<usize>,
    k: int,
)
    requires
        now.wf(now_ctx),
        after.wf(after_ctx),
        snapshot.reset(now, after, now_ctx, after_ctx, bound, Ok(())),
        0 <= k < now.module.passive_data@.len(),
    ensures
        after.passive_data@.contains_key(now.module.passive_data@[k].0),
        after.passive_data@[now.module.passive_data@[k].0]@ == now.module.passive_data@[k].1@,
{
    undropped_segments_are_as_declared(after);
    assert(after.module.passive_data@[k] == now.module.passive_data@[k]);
}

/// Under each name that a module exports, a new instance has the object with the
/// declared index of its kind: a function with the index `n` is the `n`-th of its
/// functions, and a memory, global or table with the index `n` is the `n`-th of the
/// imported ones, or, past those, of the ones that the instance defines.
pub proof fn exports_are_the_declared_objects(
    pre: &Store,
    post: &Store,
    module: &Module,
    made: VMInstance,
    instance: sys_instance::Instance,
    exports: Exports,
    i: int,
)
    requires
        instantiated(pre, post, module, Ok(made), Ok((instance, exports))),
        0 <= i < module.info.exports@.len(),
    ensures
        exports.list@.len() == module.info.exports@.len(),
        exports.list@[i].0@ == module.info.exports@[i].0@,
        post.instances@.len() == pre.instances@.len() + 1,
        post.instances@[pre.instances@.len() as int] == made,
        forall|k: int|
            0 <= k < pre.instances@.len() ==> #[trigger] post.instances@[k] == pre.instances@[k],
        post.objects == pre.objects,
        post.id == pre.id,
        post.backend == pre.backend,
        instance.handle.store_id == pre.id,
        instance.handle.index == pre.instances@.len() as usize,
        match module.info.exports@[i].1 {
            ExportIndex::Function(n) => exports.list@[i].1 matches Extern::Function(function)
                && function.store_id == pre.id && function.reference == made.functions@[n as int],
            ExportIndex::Memory(n) => exports.list@[i].1 matches Extern::Memory(handle)
                && handle.store_id == pre.id && handle.index == if n
                < made.imported_memories@.len() {
                made.imported_memories@[n as int]
            } else {
                made.memories@[n - made.imported_memories@.len()]
            },
            ExportIndex::Global(n) => exports.list@[i].1 matches Extern::Global(global)
                && global.handle.store_id == pre.id && global.handle.index == if n
                < made.imported_globals@.len() {
                made.imported_globals@[n as int]
            } else {
                made.globals@[n - made.imported_globals@.len()]
            },
            ExportIndex::Table(n) => exports.list@[i].1 matches Extern::Table(handle)
                && handle.store_id == pre.id && handle.index == if n < made.imported_tables@.len() {
                made.imported_tables@[n as int]
            } else {
                made.tables@[n - made.imported_tables@.len()]
            },
        },
{
}

/// An embedder gets an instance exactly when the runtime made one, and otherwise the
/// runtime's reason; in that case, and where the instance lives in another runtime, the
/// store is as it was.
pub proof fn instances_are_what_the_runtime_made(
    pre: &Store,
    post: &Store,
    module: &Module,
    answer: Instantiation,
    result: Result<Instance, InstantiationError>,
)
    requires
        made_from(pre, post, module, answer, result),
    ensures
        match answer {
            Instantiation::Sys(Ok(made)) => {
                &&& result matches Ok(instance) && instance.module == *module
                    && instance.inner is Sys && instance.inner->Sys_0.handle.store_id == pre.id
                &&& post.instances@ == pre.instances@.push(made)
                &&& post.objects == pre.objects
            },
            Instantiation::Sys(Err(reason)) => {
                &&& *post == *pre
                &&& match (reason, result) {
                    (EngineError::Link(link), Err(InstantiationError::Link(given))) => given == link,
                    (EngineError::Start(start), Err(InstantiationError::Start(given))) => given
                        == start,
                    (
                        EngineError::CpuFeature(feature),
                        Err(InstantiationError::CpuFeature(given)),
                    ) => given == feature,
                    _ => false,
                }
            },
            Instantiation::V8(Ok((foreign, exports))) => {
                &&& *post == *pre
                &&& result matches Ok(instance) && instance.inner == BackendInstance::V8(foreign)
                    && instance.exports == exports && instance.module == *module
            },
            Instantiation::Js(Ok((foreign, exports))) => {
                &&& *post == *pre
                &&& result matches Ok(instance) && instance.inner == BackendInstance::Js(foreign)
                    && instance.exports == exports && instance.module == *module
            },
            Instantiation::V8(Err(reason)) => *post == *pre && result == Err::<
                Instance,
                InstantiationError,
            >(reason),
            Instantiation::Js(Err(reason)) => *post == *pre && result == Err::<
                Instance,
                InstantiationError,
            >(reason),
        },
{
}

/// An embedder is told of a reset what the memories told: that it succeeded, or the
/// error of the memory that ended it.
pub proof fn resets_report_the_memorys_error(result: Result<(), RuntimeError>, told: Result<
    (),
    ErrorModel,
>)
    requires
        reset_outcome(result) == Some(told),
    ensures
        result is Ok <==> told is Ok,
        result matches Err(error) ==> (error matches RuntimeError::Memory(memory) && told == Err::<
            (),
            ErrorModel,
        >(memory@)),
{
}

/// The handles of the globals in a range of indices, one for each index in order: those
/// of the imported globals first.
pub proof fn globals_come_in_order(
    store_id: u64,
    instance: &VMInstance,
    start: int,
    end: int,
    k: int,
)
    requires
        0 <= start,
        start + k < end <= instance.imported_globals@.len() + instance.globals@.len(),
        0 <= k,
    ensures
        global_handles(store_id, instance, start, end).len() == end - start,
        global_handles(store_id, instance, start, end)[k].handle.store_id == store_id,
        global_handles(store_id, instance, start, end)[k].handle.index == if start + k
            < instance.imported_globals@.len() {
            instance.imported_globals@[start + k]
        } else {
            instance.globals@[start + k - instance.imported_globals@.len()]
        },
{
}

} // verus!
