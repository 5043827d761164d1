//! What holds of every linear memory across its operations.

use crate::cow::CowBacking;
use crate::error::{ErrorModel, MemoryError};
use crate::memory::{captured, wrote, LinearMemory, Trap};
use crate::memory_type::{MemoryStyle, MemoryType, Platform, VMMemoryConfig};
use crate::owned_memory::{
    config_for, created, creation_refusal, fresh_model, fresh_pages, reserved_pages, style_fits,
};
use crate::text::decimal;
use crate::units::{Pages, WASM_MAX_PAGES, WASM_PAGE_SIZE};
use crate::wasm_mmap::{cow_fits, did, image_fits, MaybeInstanceOwned, WasmModel};
use vstd::prelude::*;

verus! {

/// A memory that grows keeps what it shows, also if it moves, and the new bytes are
/// zero.
pub proof fn growing_keeps_the_bytes_and_adds_zeros(
    memory: WasmModel,
    delta: Pages,
    conf: VMMemoryConfig,
    moved_to: usize,
)
    requires
        memory.wf(conf),
        memory.hidden_zero(),
        memory.grow(delta, conf, moved_to) is Ok,
    ensures
        ({
            let grown = memory.grow(delta, conf, moved_to)->Ok_0;
            &&& memory.length <= grown.length
            &&& grown.live().take(memory.length as int) == memory.live()
            &&& forall|i: int| memory.length <= i < grown.length ==> #[trigger] grown.live()[i] == 0
        }),
{
    let grown = memory.grow(delta, conf, moved_to)->Ok_0;
    assert(grown.live().take(memory.length as int) =~= memory.live());
}

/// A memory that grows has exactly `delta` pages more.
pub proof fn growing_adds_the_pages(
    memory: WasmModel,
    delta: Pages,
    conf: VMMemoryConfig,
    moved_to: usize,
)
    requires
        memory.wf(conf),
        memory.grow(delta, conf, moved_to) is Ok,
    ensures
        ({
            let grown = memory.grow(delta, conf, moved_to)->Ok_0;
            &&& grown.wf(conf)
            &&& grown.pages().0 == memory.pages().0 + delta.0
        }),
{
}

/// Growing never takes a memory past its maximum, nor past the most pages that
/// any memory can have.
pub proof fn growing_respects_the_limits(
    memory: WasmModel,
    delta: Pages,
    conf: VMMemoryConfig,
    moved_to: usize,
)
    requires
        memory.wf(conf),
        delta.0 > 0,
        memory.grow(delta, conf, moved_to) is Ok,
    ensures
        ({
            let grown = memory.grow(delta, conf, moved_to)->Ok_0;
            &&& grown.pages().0 <= WASM_MAX_PAGES
            &&& conf.maximum matches Some(max) ==> grown.pages().0 <= max.0
        }),
{
}

/// Growing succeeds exactly when it may: nothing is asked for; or the new size is within
/// the declared maximum, if there is one, and within 65536 pages, and its bytes and the
/// guard room fit what is set aside, or the memory may move and a mapping can have them.
pub proof fn growing_succeeds_whenever_it_may(
    memory: WasmModel,
    delta: Pages,
    conf: VMMemoryConfig,
    moved_to: usize,
)
    requires
        memory.wf(conf),
    ensures
        memory.grow(delta, conf, moved_to) is Ok <==> {
            let pages: int = memory.length / 65536 + delta.0;
            ||| delta.0 == 0
            ||| pages <= 65536 && (conf.maximum matches Some(max) ==> pages <= max.0) && (pages
                * 65536 + conf.offset_guard_size <= memory.total || (conf.style is Dynamic && pages
                * 65536 + conf.offset_guard_size <= isize::MAX))
        },
{
}

/// What growing makes of a memory, byte by byte: `delta` pages more, with zeros where no
/// byte was usable before. In place nothing else changes; a memory that moves takes along
/// what lay before its guard room, and has just the room of its pages and the guard.
pub proof fn growing_makes_exactly_this(
    memory: WasmModel,
    after: WasmModel,
    previous: Result<Pages, MemoryError>,
    delta: Pages,
    conf: VMMemoryConfig,
)
    requires
        memory.wf(conf),
        did(memory, after, previous, memory.grow(delta, conf, after.base)),
    ensures
        previous is Ok <==> {
            let pages: int = memory.length / 65536 + delta.0;
            ||| delta.0 == 0
            ||| pages <= 65536 && (conf.maximum matches Some(max) ==> pages <= max.0) && (pages
                * 65536 + conf.offset_guard_size <= memory.total || (conf.style is Dynamic && pages
                * 65536 + conf.offset_guard_size <= isize::MAX))
        },
        previous is Err ==> after == memory,
        previous is Ok ==> {
            let length: int = memory.length + delta.0 * 65536;
            &&& after.length == length
            &&& after.owner == memory.owner
            &&& after.mapped.len() >= length
            &&& forall|i: int|
                0 <= i < after.mapped.len() ==> #[trigger] after.mapped[i] == if i
                    < memory.mapped.len() && (after.base == memory.base || i
                    + conf.offset_guard_size < memory.total) {
                    memory.mapped[i]
                } else {
                    0
                }
            &&& if delta.0 == 0 || length + conf.offset_guard_size <= memory.total {
                &&& after.base == memory.base
                &&& after.total == memory.total
                &&& after.mapped.len() == memory.mapped.len() || after.mapped.len() == length
            } else {
                &&& after.base != memory.base
                &&& after.total == length + conf.offset_guard_size
                &&& after.mapped.len() == length
            }
        },
{
}

/// A memory that was asked for at least `min_size` bytes and got them has them.
///
/// What is asked for is counted in pages; a request for more pages than can be
/// counted is never granted.
pub proof fn growing_at_least_gives_that_much(
    memory: WasmModel,
    min_size: u64,
    conf: VMMemoryConfig,
    moved_to: usize,
)
    requires
        memory.wf(conf),
        memory.grow_at_least(min_size, conf, moved_to) is Ok,
    ensures
        memory.grow_at_least(min_size, conf, moved_to)->Ok_0.length >= min_size,
        memory.pages().byte_count() >= min_size ==> memory.grow_at_least(
            min_size,
            conf,
            moved_to,
        ) == Ok::<WasmModel, ErrorModel>(memory),
{
}

/// Asking for at least `min_size` bytes is asking for just the pages that are missing:
/// it succeeds exactly when growing by these does, and gives no page more than needed.
pub proof fn growing_at_least_gives_no_more(
    memory: WasmModel,
    min_size: u64,
    missing: Pages,
    conf: VMMemoryConfig,
    moved_to: usize,
)
    requires
        memory.wf(conf),
        memory.length + missing.0 * 65536 >= min_size,
        missing.0 > 0 ==> memory.length + (missing.0 - 1) * 65536 < min_size,
    ensures
        memory.grow_at_least(min_size, conf, moved_to) == memory.grow(missing, conf, moved_to),
{
}

/// A memory of static style never moves when it grows.
pub proof fn static_memories_stay_put(
    memory: WasmModel,
    delta: Pages,
    conf: VMMemoryConfig,
    moved_to: usize,
)
    requires
        memory.wf(conf),
        conf.style is Static,
        memory.grow(delta, conf, moved_to) is Ok,
    ensures
        ({
            let grown = memory.grow(delta, conf, moved_to)->Ok_0;
            &&& grown.base == memory.base
            &&& grown.total == memory.total
        }),
{
}

/// In every operation but [`reset`](WasmModel::reset), a memory whose hidden
/// bytes are zero stays such a memory.
pub proof fn hidden_bytes_stay_zero(memory: WasmModel, conf: VMMemoryConfig, moved_to: usize)
    requires
        memory.wf(conf),
        memory.hidden_zero(),
    ensures
        forall|delta: Pages|
            (#[trigger] memory.grow(delta, conf, moved_to)) matches Ok(grown)
                ==> grown.hidden_zero(),
        forall|min_size: u64|
            (#[trigger] memory.grow_at_least(min_size, conf, moved_to)) matches Ok(grown)
                ==> grown.hidden_zero(),
        forall|image: Seq<u8>|
            (#[trigger] memory.restore_image(image, conf, moved_to)) matches Ok(restored)
                ==> restored.hidden_zero(),
        forall|cow: CowBacking|
            (#[trigger] memory.restore_cow(cow)) matches Ok(restored) ==> restored.hidden_zero(),
        forall|image: Seq<u8>, bound: nat|
            (#[trigger] memory.restore_bounded(image, bound)).hidden_zero(),
        forall|start: nat, data: Seq<u8>|
            start + data.len() <= memory.length ==> (#[trigger] memory.write(
                start,
                data,
            )).hidden_zero(),
        forall|base: usize| (#[trigger] memory.copy(base)).hidden_zero(),
{
}

/// A fresh memory shows whole pages and no guard room, whatever backing file it has: at
/// least those that are declared, and no more than room is set aside for. It shows the
/// file from its start on, and zeros behind the file's end.
pub proof fn fresh_memories_show_the_file(
    memory: MemoryType,
    style: MemoryStyle,
    platform: Platform,
    file: Seq<u8>,
    base: usize,
    owner: MaybeInstanceOwned,
)
    requires
        style_fits(memory, style),
        creation_refusal(memory, style) is None,
    ensures
        ({
            let fresh = fresh_model(memory, style, file, base, owner);
            &&& fresh.wf(config_for(memory, style, platform))
            &&& fresh.pages() == fresh_pages(memory, style, file.len())
            &&& memory.minimum.0 <= fresh.pages().0 <= reserved_pages(memory, style).0
            &&& fresh.pages().0 > memory.minimum.0 ==> file.len() > (fresh.pages().0 - 1) * 65536
            &&& fresh.base == base
            &&& fresh.owner == owner
            &&& match style {
                MemoryStyle::Dynamic { offset_guard_size } => fresh.pages() == memory.minimum
                    && fresh.total == memory.minimum.0 * 65536 + offset_guard_size,
                MemoryStyle::Static { bound, offset_guard_size } => fresh.total == bound.0 * 65536
                    + offset_guard_size && (file.len() > bound.0 * 65536 ==> fresh.pages()
                    == bound),
            }
            &&& file.len() <= reserved_pages(memory, style).byte_count() ==> file.len()
                <= fresh.length
            &&& forall|i: int|
                0 <= i < fresh.length ==> #[trigger] fresh.live()[i] == if i < file.len() {
                    file[i]
                } else {
                    0
                }
            &&& fresh.hidden_zero()
        }),
{
}

/// Whatever happened to a memory since its bytes were copied, putting the copy
/// back shows the same bytes and pages again, and hides nothing but zeros.
pub proof fn restoring_an_image_undoes_everything(
    baseline: WasmModel,
    now: WasmModel,
    conf: VMMemoryConfig,
    moved_to: usize,
)
    requires
        baseline.wf(conf),
        now.wf(conf),
        now.hidden_zero(),
        now.restore_image(baseline.live(), conf, moved_to) is Ok,
    ensures
        ({
            let restored = now.restore_image(baseline.live(), conf, moved_to)->Ok_0;
            &&& restored.wf(conf)
            &&& restored.live() == baseline.live()
            &&& restored.pages() == baseline.pages()
            &&& restored.hidden_zero()
        }),
{
    let restored = now.restore_image(baseline.live(), conf, moved_to)->Ok_0;
    assert(restored.live() =~= baseline.live());
}

/// Whatever happened to a memory since it was captured copy-on-write, putting the
/// capture back shows the same bytes and pages again, and hides nothing but
/// zeros.
pub proof fn restoring_cow_undoes_everything(
    baseline: WasmModel,
    now: WasmModel,
    cow: CowBacking,
    conf: VMMemoryConfig,
)
    requires
        baseline.wf(conf),
        now.wf(conf),
        now.hidden_zero(),
        captured(baseline, cow),
        cow_fits(now, conf.offset_guard_size as nat, cow),
        now.restore_cow(cow) is Ok,
    ensures
        ({
            let restored = now.restore_cow(cow)->Ok_0;
            &&& restored.wf(conf)
            &&& restored.live() == baseline.live()
            &&& restored.pages() == baseline.pages()
            &&& restored.hidden_zero()
        }),
{
    let restored = now.restore_cow(cow)->Ok_0;
    assert(restored.live() =~= baseline.live());
}

/// Both ways of capturing a memory put the same bytes back.
pub proof fn both_captures_restore_the_same(
    baseline: WasmModel,
    now: WasmModel,
    cow: CowBacking,
    conf: VMMemoryConfig,
    moved_to: usize,
)
    requires
        baseline.wf(conf),
        now.wf(conf),
        captured(baseline, cow),
        now.restore_cow(cow) is Ok,
        now.restore_image(baseline.live(), conf, moved_to) is Ok,
    ensures
        now.restore_cow(cow)->Ok_0.live() == now.restore_image(
            baseline.live(),
            conf,
            moved_to,
        )->Ok_0.live(),
{
    let copied = now.restore_image(baseline.live(), conf, moved_to)->Ok_0;
    assert(copied.live() =~= baseline.live());
    assert(now.restore_cow(cow)->Ok_0.live() =~= baseline.live());
}

/// A copy can be put back whenever the memory has at least the pages of the copy.
pub proof fn restoring_an_image_succeeds(
    now: WasmModel,
    image: Seq<u8>,
    conf: VMMemoryConfig,
    moved_to: usize,
)
    requires
        now.wf(conf),
        image.len() / WASM_PAGE_SIZE as nat <= now.pages().0,
    ensures
        now.restore_image(image, conf, moved_to) is Ok,
{
}

/// A capture can be put back exactly when the memory still has the base that it had.
pub proof fn restoring_cow_succeeds(now: WasmModel, cow: CowBacking)
    ensures
        now.restore_cow(cow) is Ok <==> now.base == cow.base,
{
}

/// Putting back what a memory shows already changes nothing.
pub proof fn restoring_an_untouched_memory_changes_nothing(
    memory: WasmModel,
    cow: CowBacking,
    conf: VMMemoryConfig,
    moved_to: usize,
)
    requires
        memory.wf(conf),
        captured(memory, cow),
    ensures
        memory.restore_image(memory.live(), conf, moved_to) == Ok::<WasmModel, ErrorModel>(memory),
        memory.restore_cow(cow) == Ok::<WasmModel, ErrorModel>(memory),
{
    let copied = memory.restore_image(memory.live(), conf, moved_to)->Ok_0;
    assert(copied.mapped =~= memory.mapped);
    let mapped_again = memory.restore_cow(cow)->Ok_0;
    assert(mapped_again.mapped =~= memory.mapped);
}

/// Putting a copy back twice is the same as once.
pub proof fn restoring_twice_is_restoring_once(
    now: WasmModel,
    image: Seq<u8>,
    conf: VMMemoryConfig,
    moved_to: usize,
    moved_again: usize,
)
    requires
        now.wf(conf),
        image_fits(image.len()),
        now.restore_image(image, conf, moved_to) is Ok,
    ensures
        now.restore_image(image, conf, moved_to)->Ok_0.restore_image(image, conf, moved_again)
            == now.restore_image(image, conf, moved_to),
{
    let once = now.restore_image(image, conf, moved_to)->Ok_0;
    let twice = once.restore_image(image, conf, moved_again)->Ok_0;
    assert(twice.mapped =~= once.mapped);
}

/// A memory that grows after a copy was put back shows the copy, and the new pages
/// are zero, whatever was written there before.
pub proof fn regrown_pages_are_zero(
    now: WasmModel,
    image: Seq<u8>,
    delta: Pages,
    conf: VMMemoryConfig,
    moved_to: usize,
    moved_again: usize,
)
    requires
        now.wf(conf),
        now.hidden_zero(),
        image_fits(image.len()),
        now.restore_image(image, conf, moved_to) is Ok,
        now.restore_image(image, conf, moved_to)->Ok_0.grow(delta, conf, moved_again) is Ok,
    ensures
        ({
            let restored = now.restore_image(image, conf, moved_to)->Ok_0;
            let regrown = restored.grow(delta, conf, moved_again)->Ok_0;
            &&& regrown.live().take(image.len() as int) == image
            &&& forall|i: int|
                image.len() <= i < regrown.length ==> #[trigger] regrown.live()[i] == 0
        }),
{
    let restored = now.restore_image(image, conf, moved_to)->Ok_0;
    hidden_bytes_stay_zero(now, conf, moved_to);
    growing_keeps_the_bytes_and_adds_zeros(restored, delta, conf, moved_again);
    assert(restored.live() =~= image);
}

/// A memory that grows after a capture was put back shows the capture, and the new
/// pages are zero, whatever was written there before.
pub proof fn regrown_pages_are_zero_after_cow(
    now: WasmModel,
    cow: CowBacking,
    delta: Pages,
    conf: VMMemoryConfig,
    moved_to: usize,
)
    requires
        now.wf(conf),
        now.hidden_zero(),
        cow_fits(now, conf.offset_guard_size as nat, cow),
        now.restore_cow(cow) is Ok,
        now.restore_cow(cow)->Ok_0.grow(delta, conf, moved_to) is Ok,
    ensures
        ({
            let restored = now.restore_cow(cow)->Ok_0;
            let regrown = restored.grow(delta, conf, moved_to)->Ok_0;
            &&& regrown.live().take(cow.image@.len() as int) == cow.image@
            &&& forall|i: int|
                cow.image@.len() <= i < regrown.length ==> #[trigger] regrown.live()[i] == 0
        }),
{
    let restored = now.restore_cow(cow)->Ok_0;
    hidden_bytes_stay_zero(now, conf, moved_to);
    growing_keeps_the_bytes_and_adds_zeros(restored, delta, conf, moved_to);
    assert(restored.live() =~= cow.image@);
}

/// A bounded restore gives back each byte that lies below the bound, below the end of
/// the image and below the end of the memory, and touches nothing else: no other byte,
/// not the size, not the room, also where the memory is longer than the image or
/// shorter.
pub proof fn bounded_restores_reach_three_limits(now: WasmModel, image: Seq<u8>, bound: nat)
    requires
        now.sound(),
    ensures
        ({
            let after = now.restore_bounded(image, bound);
            &&& after.length == now.length
            &&& after.mapped.len() == now.mapped.len()
            &&& after.total == now.total
            &&& after.base == now.base
            &&& after.owner == now.owner
            &&& forall|i: int|
                0 <= i < now.mapped.len() ==> #[trigger] after.mapped[i] == if i < bound && i
                    < image.len() && i < now.length {
                    image[i]
                } else {
                    now.mapped[i]
                }
            &&& forall|i: int|
                0 <= i < now.length ==> #[trigger] after.live()[i] == if i < bound && i
                    < image.len() {
                    image[i]
                } else {
                    now.live()[i]
                }
        }),
{
}

/// Where the size is that of the copy and the bytes from the bound on are those
/// of the copy already, putting back the bytes below the bound is putting back
/// all of them.
pub proof fn a_bound_that_covers_the_dirt_is_enough(
    now: WasmModel,
    image: Seq<u8>,
    bound: nat,
    conf: VMMemoryConfig,
    moved_to: usize,
)
    requires
        now.wf(conf),
        now.length == image.len(),
        forall|i: int| bound <= i < image.len() ==> #[trigger] now.mapped[i] == image[i],
    ensures
        now.restore_image(image, conf, moved_to) == Ok::<WasmModel, ErrorModel>(
            now.restore_bounded(image, bound),
        ),
{
    let full = now.restore_image(image, conf, moved_to)->Ok_0;
    assert(full.mapped =~= now.restore_bounded(image, bound).mapped);
}

/// A copy of a memory shows the same bytes and pages, and keeps its own definition. A
/// capture of the one never goes into the other.
pub proof fn copies_show_the_same(
    memory: WasmModel,
    conf: VMMemoryConfig,
    base: usize,
    cow: CowBacking,
)
    requires
        memory.wf(conf),
        base != memory.base,
    ensures
        memory.copy(base).wf(conf),
        memory.copy(base).pages() == memory.pages(),
        memory.copy(base).live() == memory.live(),
        memory.copy(base).base == base,
        memory.copy(base).total == memory.total,
        memory.copy(base).mapped.len() == memory.mapped.len(),
        memory.copy(base).hidden_zero(),
        memory.copy(base).owner == MaybeInstanceOwned::Host,
        captured(memory, cow) ==> memory.copy(base).restore_cow(cow) is Err,
        captured(memory.copy(base), cow) ==> memory.restore_cow(cow) is Err,
{
    assert(memory.copy(base).live() =~= memory.live());
}

/// A memory that moved as it grew refuses a capture from before.
pub proof fn moved_memories_refuse_their_capture(
    memory: WasmModel,
    after: WasmModel,
    previous: Result<Pages, MemoryError>,
    delta: Pages,
    conf: VMMemoryConfig,
    cow: CowBacking,
)
    requires
        did(memory, after, previous, memory.grow(delta, conf, after.base)),
        after.total != memory.total,
        captured(memory, cow),
    ensures
        after.restore_cow(cow) is Err,
{
}

/// Writing changes the bytes that it says it does, and no others.
pub proof fn writes_touch_what_they_cover(memory: WasmModel, start: nat, data: Seq<u8>)
    requires
        memory.sound(),
        start + data.len() <= memory.length,
    ensures
        memory.write(start, data).live() == memory.live().take(start as int) + data
            + memory.live().skip((start + data.len()) as int),
        memory.write(start, data).pages() == memory.pages(),
{
    assert(memory.write(start, data).live() =~= memory.live().take(start as int) + data
        + memory.live().skip((start + data.len()) as int));
}

/// A capture that fits a memory goes on fitting it as the memory grows.
pub proof fn captures_go_on_fitting(
    memory: WasmModel,
    cow: CowBacking,
    delta: Pages,
    conf: VMMemoryConfig,
    moved_to: usize,
)
    requires
        memory.wf(conf),
        cow.base == memory.base,
        cow_fits(memory, conf.offset_guard_size as nat, cow),
        memory.grow(delta, conf, moved_to) is Ok,
    ensures
        cow_fits(
            memory.grow(delta, conf, moved_to)->Ok_0,
            conf.offset_guard_size as nat,
            cow,
        ),
{
}

/// What a memory shows is an image that fits any memory.
pub proof fn images_fit_everywhere(baseline: WasmModel)
    requires
        baseline.sound(),
    ensures
        image_fits(baseline.live().len()),
        baseline.live().len() == baseline.pages().byte_count(),
{
}

/// Putting an image back succeeds exactly when the memory has its pages or may grow to
/// them. It leaves the memory showing just the image, with zeros in what it showed above.
/// Where nothing had to grow, nothing else changes; where it fails, nothing does.
pub proof fn restoring_an_image_makes_exactly_this(
    memory: WasmModel,
    after: WasmModel,
    result: Result<(), MemoryError>,
    image: Seq<u8>,
    conf: VMMemoryConfig,
)
    requires
        memory.wf(conf),
        image_fits(image.len()),
        did(memory, after, result, memory.restore_image(image, conf, after.base)),
    ensures
        result is Ok <==> {
            ||| image.len() <= memory.length
            ||| image.len() <= 65536 * 65536 && (conf.maximum matches Some(max) ==> image.len()
                <= max.0 * 65536) && (image.len() + conf.offset_guard_size <= memory.total || (
            conf.style is Dynamic && image.len() + conf.offset_guard_size <= isize::MAX))
        },
        result is Err ==> after == memory,
        result is Ok ==> {
            &&& after.length == image.len()
            &&& after.live() == image
            &&& after.owner == memory.owner
            &&& after.mapped.len() >= memory.length
        },
        result is Ok && image.len() <= memory.length ==> {
            &&& after.base == memory.base
            &&& after.total == memory.total
            &&& after.mapped.len() == memory.mapped.len()
            &&& forall|i: int|
                image.len() <= i < memory.mapped.len() ==> #[trigger] after.mapped[i] == if i
                    < memory.length {
                    0
                } else {
                    memory.mapped[i]
                }
        },
{
    if result is Ok {
        assert(after.live() =~= image);
    }
}

/// Putting a capture back succeeds exactly when the memory has the base that it had. It
/// leaves the memory showing just the capture, with zeros in what it showed above, where
/// it is; where it fails, nothing changes.
pub proof fn restoring_cow_makes_exactly_this(
    memory: WasmModel,
    after: WasmModel,
    result: Result<(), MemoryError>,
    cow: CowBacking,
)
    requires
        memory.sound(),
        did(memory, after, result, memory.restore_cow(cow)),
    ensures
        result is Ok <==> memory.base == cow.base,
        result matches Err(error) ==> after == memory && error@ == ErrorModel::Generic(
            "memory base moved since snapshot; cow restore is invalid"@,
        ),
        result is Ok ==> {
            &&& after.length == cow.image@.len()
            &&& after.live() == cow.image@
            &&& after.base == memory.base
            &&& after.total == memory.total
            &&& after.owner == memory.owner
            &&& after.mapped.len() == if cow.image@.len() <= memory.mapped.len() {
                memory.mapped.len()
            } else {
                cow.image@.len()
            }
            &&& forall|i: int|
                cow.image@.len() <= i < after.mapped.len() ==> #[trigger] after.mapped[i] == if i
                    < memory.length {
                    0
                } else {
                    memory.mapped[i]
                }
        },
{
    if result is Ok {
        assert(after.live() =~= cow.image@);
    }
}

/// A memory that lost its pages shows nothing; its bytes, its room and where it is stay.
pub proof fn a_memory_without_pages_keeps_its_bytes(memory: WasmModel)
    ensures
        memory.reset().length == 0,
        memory.reset().pages() == Pages(0),
        memory.reset().mapped == memory.mapped,
        memory.reset().total == memory.total,
        memory.reset().base == memory.base,
        memory.reset().owner == memory.owner,
{
}

/// Laying data out succeeds exactly when it lies within what the memory shows; it
/// changes just the bytes that the data covers, and otherwise nothing.
pub proof fn data_goes_where_it_fits(
    before: WasmModel,
    after: WasmModel,
    start: nat,
    data: Seq<u8>,
    result: Result<(), Trap>,
)
    requires
        before.sound(),
        wrote(before, after, start, data, result),
    ensures
        result is Ok <==> start + data.len() <= before.length,
        result is Err ==> after == before,
        after.length == before.length,
        after.total == before.total,
        after.base == before.base,
        after.owner == before.owner,
        after.mapped.len() == before.mapped.len(),
        result is Ok ==> forall|i: int|
            0 <= i < before.mapped.len() ==> #[trigger] after.mapped[i] == if start <= i < start
                + data.len() {
                data[i - start]
            } else {
                before.mapped[i]
            },
{
}

/// A memory can be made exactly when its limits are possible and there can be a mapping
/// for its pages and the guard room. It is refused for the first thing that is wrong:
/// its minimum, its maximum, the two together, the mapping.
pub proof fn memories_are_made_whenever_they_may_be(memory: MemoryType, style: MemoryStyle)
    ensures
        creation_refusal(memory, style) is None <==> {
            &&& memory.minimum.0 <= 65536
            &&& memory.maximum matches Some(max) ==> memory.minimum.0 <= max.0 <= 65536
            &&& match style {
                MemoryStyle::Dynamic { offset_guard_size } => memory.minimum.0 * 65536
                    + offset_guard_size <= isize::MAX,
                MemoryStyle::Static { bound, offset_guard_size } => bound.0 * 65536
                    + offset_guard_size <= isize::MAX,
            }
        },
        memory.minimum.0 > 65536 ==> creation_refusal(memory, style) == Some(
            ErrorModel::MinimumMemoryTooLarge {
                min_requested: memory.minimum,
                max_allowed: Pages(65536),
            },
        ),
        memory.minimum.0 <= 65536 ==> (memory.maximum matches Some(max) ==> {
            &&& max.0 > 65536 ==> creation_refusal(memory, style) == Some(
                ErrorModel::MaximumMemoryTooLarge { max_requested: max, max_allowed: Pages(65536) },
            )
            &&& max.0 < memory.minimum.0 ==> creation_refusal(memory, style) == Some(
                ErrorModel::InvalidMemory {
                    reason: "the maximum ("@ + decimal(max.0 as nat)
                        + " pages) is less than the minimum ("@ + decimal(memory.minimum.0 as nat)
                        + " pages)"@,
                },
            )
        }),
{
}

/// A capture fits the memory that it was taken of.
pub proof fn captures_fit_their_memory(memory: WasmModel, cow: CowBacking, conf: VMMemoryConfig)
    requires
        memory.wf(conf),
        captured(memory, cow),
    ensures
        cow_fits(memory, conf.offset_guard_size as nat, cow),
        cow.image@ == memory.live(),
        cow.image@.len() == cow.pages.0 * 65536,
        cow.pages.0 == memory.length / 65536,
        cow.base == memory.base,
{
}

/// A memory that may be made is made, whoever is to hold it: it starts as a fresh one,
/// with the settings that it was declared with, and its definition is kept where it is
/// to be kept. One that may not be made is refused.
pub proof fn what_may_be_made_is_made<M: LinearMemory>(
    made: Result<M, MemoryError>,
    memory: MemoryType,
    style: MemoryStyle,
    platform: Platform,
    file: Seq<u8>,
    owner: MaybeInstanceOwned,
)
    requires
        style_fits(memory, style),
        created(made, memory, style, platform, file, owner),
    ensures
        made is Ok <==> creation_refusal(memory, style) is None,
        made matches Err(error) ==> Some(error@) == creation_refusal(memory, style),
        made matches Ok(fresh) ==> {
            &&& fresh.inv()
            &&& fresh.config() == config_for(memory, style, platform)
            &&& fresh.latest().owner == owner
            &&& fresh.latest().pages() == fresh_pages(memory, style, file.len())
            &&& fresh.latest().length == fresh.latest().pages().0 * 65536
            &&& forall|i: int|
                0 <= i < fresh.latest().length ==> #[trigger] fresh.latest().live()[i] == if i
                    < file.len() {
                    file[i]
                } else {
                    0
                }
        },
{
    if let Ok(fresh) = made {
        fresh_memories_show_the_file(memory, style, platform, file, fresh.latest().base, owner);
    }
}

/// The settings of a memory are those that it was declared with.
pub proof fn settings_are_the_declared_ones(
    memory: MemoryType,
    style: MemoryStyle,
    platform: Platform,
    size: Pages,
)
    requires
        style.guard_bytes() <= usize::MAX,
    ensures
        ({
            let conf = config_for(memory, style, platform);
            &&& conf.maximum == memory.maximum
            &&& conf.style == style
            &&& conf.platform == platform
            &&& conf.memory == memory
            &&& match style {
                MemoryStyle::Dynamic { offset_guard_size } => conf.offset_guard_size
                    == offset_guard_size,
                MemoryStyle::Static { offset_guard_size, .. } => conf.offset_guard_size
                    == offset_guard_size,
            }
            &&& conf.type_at(size).minimum == size
            &&& conf.type_at(size).maximum == memory.maximum
            &&& conf.type_at(size).shared == memory.shared
        }),
{
}

} // verus!
