//! The bytes of a linear memory: a mapping, and how much of it the memory shows.

use crate::cow::{CaptureStep, CowBacking, RestoreStep};
use crate::error::{generic_error, ErrorModel, MemoryError};
use crate::grow::{grow_plan, plan_grow, GrowPlan};
use crate::memory_type::VMMemoryConfig;
use crate::mmap::{overwritten, refused_text, zero_extended, zeroed, Mmap};
use crate::units::{Bytes, Pages, WASM_PAGE_SIZE};
use vstd::prelude::*;

verus! {

/// What compiled code reads of a memory: its base and how long it is.
#[derive(Copy, Clone, Debug, PartialEq, Eq, Structural)]
pub struct VMMemoryDefinition {
    /// What the memory's mapping is told from others by; see
    /// [`Mmap`](crate::mmap::Mmap). The bytes do not lie there.
    pub base: usize,
    /// How many bytes it shows.
    pub current_length: usize,
}

/// Who keeps a memory's [`VMMemoryDefinition`].
#[derive(Copy, Clone, Debug, PartialEq, Eq, Structural)]
pub enum MaybeInstanceOwned {
    /// The memory itself.
    Host,
    /// An instance, in this slot of its context.
    Instance(usize),
}

/// A linear memory as a mathematical value.
#[verifier::ext_equal]
pub struct WasmModel {
    /// The usable bytes of the mapping, shown or not.
    pub mapped: Seq<u8>,
    /// All bytes that are set aside.
    pub total: nat,
    /// How many of the usable bytes the memory shows.
    pub length: nat,
    /// What the mapping is told from others by. A memory that moves gets another.
    pub base: usize,
    /// Who keeps the memory's definition.
    pub owner: MaybeInstanceOwned,
}

/// An image of `len` bytes is of whole pages.
pub open spec fn image_fits(len: nat) -> bool {
    len % WASM_PAGE_SIZE as nat == 0
}

/// Whether the image's file can lie over the memory: where both have the same
/// base, there is room for the image before the last `guard` bytes that are set
/// aside.
pub open spec fn cow_fits(model: WasmModel, guard: nat, cow: CowBacking) -> bool {
    cow.wf() && (model.base == cow.base ==> cow.image@.len() + guard <= model.total)
}

impl WasmModel {
    /// The bytes that the memory shows.
    pub open spec fn live(self) -> Seq<u8> {
        self.mapped.take(self.length as int)
    }

    /// The pages that the memory shows.
    pub open spec fn pages(self) -> Pages {
        Pages((self.length / WASM_PAGE_SIZE as nat) as u32)
    }

    /// What holds of any memory at any time: it shows usable bytes only, and they are
    /// whole pages.
    pub open spec fn sound(self) -> bool {
        &&& self.length <= self.mapped.len() <= self.total <= isize::MAX
        &&& self.length == self.pages().byte_count()
    }

    /// What holds of a memory with these settings at any time: it shows no guard room.
    pub open spec fn wf(self, conf: VMMemoryConfig) -> bool {
        self.sound() && self.length + conf.offset_guard_size <= self.total
    }

    /// The usable bytes that the memory does not show are zero, so that growing
    /// shows zeros.
    pub open spec fn hidden_zero(self) -> bool {
        forall|i: int| self.length <= i < self.mapped.len() ==> #[trigger] self.mapped[i] == 0
    }

    /// Where `after` has other room set aside than the memory, it has another base
    /// too.
    pub open spec fn moves_show(self, after: WasmModel) -> bool {
        after.base == self.base ==> after.total == self.total
    }

    /// The memory with `delta` more pages, or why it cannot have them. A memory
    /// that has to move has the base `moved_to` afterwards; one of static style never
    /// moves.
    pub open spec fn grow(self, delta: Pages, conf: VMMemoryConfig, moved_to: usize) -> Result<
        WasmModel,
        ErrorModel,
    > {
        match grow_plan(
            self.pages(),
            delta,
            conf.maximum,
            conf.style,
            self.total as usize,
            conf.offset_guard_size,
        ) {
            Err(error) => Err(error),
            Ok((_, GrowPlan::Keep)) => Ok(self),
            Ok((pages, GrowPlan::Extend { .. })) => Ok(
                WasmModel {
                    mapped: zero_extended(self.mapped, pages.byte_count()),
                    length: pages.byte_count(),
                    ..self
                },
            ),
            Ok((pages, GrowPlan::Move { accessible, total, copied })) => if total > isize::MAX {
                Err(ErrorModel::Region(refused_text(total as nat)))
            } else {
                let kept: Seq<u8> = if copied <= self.mapped.len() {
                    self.mapped.take(copied as int)
                } else {
                    self.mapped
                };
                Ok(
                    WasmModel {
                        mapped: zero_extended(kept, accessible as nat),
                        total: total as nat,
                        length: pages.byte_count(),
                        base: moved_to,
                        owner: self.owner,
                    },
                )
            },
        }
    }

    /// How many pages bring the memory to at least `min_size` bytes.
    pub open spec fn missing_pages(self, min_size: u64) -> nat {
        let shown: int = self.pages().byte_count() as int;
        if shown < min_size {
            ((min_size - shown - 1) / (WASM_PAGE_SIZE as int) + 1) as nat
        } else {
            0
        }
    }

    /// The memory with at least `min_size` bytes in whole pages, or why it cannot
    /// have them. More pages than can be counted are asked for as the most that
    /// can be.
    pub open spec fn grow_at_least(
        self,
        min_size: u64,
        conf: VMMemoryConfig,
        moved_to: usize,
    ) -> Result<WasmModel, ErrorModel> {
        let missing: nat = self.missing_pages(min_size);
        if missing == 0 {
            Ok(self)
        } else {
            self.grow(
                Pages(
                    if missing <= u32::MAX {
                        missing as u32
                    } else {
                        u32::MAX
                    },
                ),
                conf,
                moved_to,
            )
        }
    }

    /// The memory without a page. Its bytes stay where they are.
    pub open spec fn reset(self) -> WasmModel {
        WasmModel { length: 0, ..self }
    }

    /// The memory showing exactly `image`, with zeros in what it showed above,
    /// or why it cannot have the image's pages.
    pub open spec fn restore_image(
        self,
        image: Seq<u8>,
        conf: VMMemoryConfig,
        moved_to: usize,
    ) -> Result<WasmModel, ErrorModel> {
        let wanted: nat = image.len() / WASM_PAGE_SIZE as nat;
        if wanted > u32::MAX {
            Err(ErrorModel::Generic("snapshot image size overflows pages"@))
        } else {
            let grown: Result<WasmModel, ErrorModel> = if wanted > self.pages().0 {
                self.grow(Pages((wanted - self.pages().0) as u32), conf, moved_to)
            } else {
                Ok(self)
            };
            match grown {
                Err(error) => Err(error),
                Ok(memory) => Ok(
                    WasmModel {
                        mapped: overwritten(
                            zeroed(memory.mapped, image.len() as int, memory.length as int),
                            0,
                            image,
                        ),
                        length: image.len(),
                        ..memory
                    },
                ),
            }
        }
    }

    /// The memory showing exactly the image of `cow`, with zeros in what it
    /// showed above, or why the image cannot go there.
    pub open spec fn restore_cow(self, cow: CowBacking) -> Result<WasmModel, ErrorModel> {
        if self.base != cow.base {
            Err(ErrorModel::Generic("memory base moved since snapshot; cow restore is invalid"@))
        } else {
            Ok(
                WasmModel {
                    mapped: overwritten(
                        zeroed(
                            zero_extended(self.mapped, cow.image@.len()),
                            cow.image@.len() as int,
                            self.length as int,
                        ),
                        0,
                        cow.image@,
                    ),
                    length: cow.image@.len(),
                    ..self
                },
            )
        }
    }

    /// How many of the first bytes a restore bounded by `bound` touches.
    pub open spec fn bounded_extent(self, image_len: nat, bound: nat) -> nat {
        let in_image: nat = if bound <= image_len {
            bound
        } else {
            image_len
        };
        if in_image <= self.length {
            in_image
        } else {
            self.length
        }
    }

    /// The memory with its first bytes, up to `bound`, as in `image`.
    pub open spec fn restore_bounded(self, image: Seq<u8>, bound: nat) -> WasmModel {
        WasmModel {
            mapped: overwritten(
                self.mapped,
                0,
                image.take(self.bounded_extent(image.len(), bound) as int),
            ),
            ..self
        }
    }

    /// The memory with `data` written from `start` on.
    pub open spec fn write(self, start: nat, data: Seq<u8>) -> WasmModel {
        WasmModel { mapped: overwritten(self.mapped, start as int, data), ..self }
    }

    /// A memory of its own, with the base `base`, that shows the same.
    pub open spec fn copy(self, base: usize) -> WasmModel {
        WasmModel {
            mapped: zeroed(self.mapped, self.length as int, self.mapped.len() as int),
            base,
            owner: MaybeInstanceOwned::Host,
            ..self
        }
    }
}

/// An operation that ended in `result` and turned `pre` into `post` did what
/// `expected` says: it succeeded with the expected memory, which has another base if
/// it moved, or it failed with the expected error and changed nothing.
pub open spec fn did<T>(
    pre: WasmModel,
    post: WasmModel,
    result: Result<T, MemoryError>,
    expected: Result<WasmModel, ErrorModel>,
) -> bool {
    match (result, expected) {
        (Ok(_), Ok(memory)) => post == memory && pre.moves_show(post),
        (Err(error), Err(model)) => error@ == model && post == pre,
        _ => false,
    }
}

/// Where a restore bounded by `bound` stops copying the image and where it stops
/// writing zeros, in a memory that shows `shown` bytes.
pub fn bounded_parts(image_len: usize, shown: usize, copied: usize, bound: usize) -> (parts: (
    usize,
    usize,
))
    ensures
        parts.1 == if bound <= image_len && bound <= shown {
            bound
        } else if image_len <= shown {
            image_len
        } else {
            shown
        },
        parts.0 == if copied <= parts.1 {
            copied
        } else {
            parts.1
        },
{
    let in_image: usize = if bound <= image_len {
        bound
    } else {
        image_len
    };
    let extent: usize = if in_image <= shown {
        in_image
    } else {
        shown
    };
    let copy: usize = if copied <= extent {
        copied
    } else {
        extent
    };
    (copy, extent)
}

/// A mapping, and how much of it a linear memory shows.
pub struct WasmMmap {
    alloc: Mmap,
    size: Pages,
    vm_memory_definition: VMMemoryDefinition,
    owner: MaybeInstanceOwned,
}

impl View for WasmMmap {
    type V = WasmModel;

    closed spec fn view(&self) -> WasmModel {
        WasmModel {
            mapped: self.alloc.bytes(),
            total: self.alloc.total(),
            length: self.vm_memory_definition.current_length as nat,
            base: self.vm_memory_definition.base,
            owner: self.owner,
        }
    }
}

impl WasmMmap {
    /// The parts agree with each other.
    pub closed spec fn consistent(&self) -> bool {
        &&& self.alloc.wf()
        &&& self.vm_memory_definition.base == self.alloc.base()
        &&& self.size == self@.pages()
    }

    /// What holds of any memory at any time.
    pub open spec fn sound(&self) -> bool {
        self.consistent() && self@.sound()
    }

    /// What holds of a memory with these settings at any time.
    pub open spec fn wf(&self, conf: VMMemoryConfig) -> bool {
        self.consistent() && self@.wf(conf)
    }

    /// A memory that shows the first `length` bytes of a mapping, which are whole pages.
    pub fn new(alloc: Mmap, length: usize, owner: MaybeInstanceOwned) -> (mmap: WasmMmap)
        requires
            alloc.wf(),
            length <= alloc.bytes().len(),
            image_fits(length as nat),
            length as nat / WASM_PAGE_SIZE as nat <= u32::MAX,
        ensures
            mmap.sound(),
            mmap@ == (WasmModel {
                mapped: alloc.bytes(),
                total: alloc.total(),
                length: length as nat,
                base: alloc.base(),
                owner,
            }),
    {
        let size = match Bytes(length).pages() {
            Ok(pages) => pages,
            Err(_) => Pages(0),
        };
        let vm_memory_definition = VMMemoryDefinition {
            base: alloc.as_ptr(),
            current_length: length,
        };
        WasmMmap { alloc, size, vm_memory_definition, owner }
    }

    /// What compiled code reads of the memory.
    pub fn get_vm_memory_definition(&self) -> (definition: VMMemoryDefinition)
        ensures
            definition.base == self@.base,
            definition.current_length == self@.length,
    {
        self.vm_memory_definition
    }

    /// The pages that the memory shows.
    pub fn size(&self) -> (size: Pages)
        requires
            self.sound(),
        ensures
            size == self@.pages(),
    {
        self.size
    }

    /// The bytes that the memory shows.
    pub fn live(&self) -> (bytes: Vec<u8>)
        requires
            self.sound(),
        ensures
            bytes@ == self@.live(),
    {
        let bytes = vstd::slice::slice_to_vec(
            vstd::slice::slice_subrange(
                self.alloc.as_slice_accessible(),
                0,
                self.vm_memory_definition.current_length,
            ),
        );
        assert(bytes@ =~= self@.live());
        bytes
    }

    /// Grows the memory by `delta` pages and returns the pages that it had. A
    /// memory that outgrows the room that is set aside for it moves, or is refused
    /// if it is of static style.
    pub fn grow(&mut self, delta: Pages, conf: VMMemoryConfig) -> (previous: Result<
        Pages,
        MemoryError,
    >)
        requires
            old(self).wf(conf),
        ensures
            final(self).wf(conf),
            did(old(self)@, final(self)@, previous, old(self)@.grow(delta, conf, final(self)@.base)),
            previous matches Ok(pages) ==> pages == old(self)@.pages(),
    {
        let prev_pages = self.size;
        let (new_pages, plan) = match plan_grow(
            self.size,
            delta,
            conf.maximum,
            conf.style,
            self.alloc.len(),
            conf.offset_guard_size,
        ) {
            Ok(granted) => granted,
            Err(error) => {
                return Err(error);
            },
        };
        match plan {
            GrowPlan::Keep => {
                return Ok(prev_pages);
            },
            GrowPlan::Move { accessible, total, copied } => {
                let none: Vec<u8> = Vec::new();
                let mut moved = match Mmap::accessible_reserved(accessible, total, none.as_slice()) {
                    Ok(mapped) => mapped.apart_from(&self.alloc),
                    Err(text) => {
                        return Err(MemoryError::Region(text));
                    },
                };
                let usable: usize = self.alloc.as_slice_accessible().len();
                let kept: usize = if copied <= usable {
                    copied
                } else {
                    usable
                };
                moved.write(
                    0,
                    vstd::slice::slice_subrange(self.alloc.as_slice_accessible(), 0, kept),
                );
                self.alloc = moved;
            },
            GrowPlan::Extend { start, len } => {
                self.alloc.make_accessible(start, len);
            },
        }
        self.size = new_pages;
        self.vm_memory_definition = VMMemoryDefinition {
            base: self.alloc.as_ptr(),
            current_length: new_pages.bytes().0,
        };
        proof {
            match old(self)@.grow(delta, conf, self@.base) {
                Ok(expected) => {
                    assert(self@.mapped =~= expected.mapped);
                    assert(self@ =~= expected);
                },
                Err(_) => {},
            }
        }
        Ok(prev_pages)
    }

    /// Grows the memory to at least `min_size` bytes, unless it has them.
    pub fn grow_at_least(&mut self, min_size: u64, conf: VMMemoryConfig) -> (result: Result<
        (),
        MemoryError,
    >)
        requires
            old(self).wf(conf),
        ensures
            final(self).wf(conf),
            did(
                old(self)@,
                final(self)@,
                result,
                old(self)@.grow_at_least(min_size, conf, final(self)@.base),
            ),
    {
        let cur_size: u64 = self.size.0 as u64 * WASM_PAGE_SIZE as u64;
        if cur_size < min_size {
            let growth: u64 = min_size - cur_size;
            let growth_pages: u64 = ((growth - 1) / WASM_PAGE_SIZE as u64) + 1;
            let delta: u32 = if growth_pages <= u32::MAX as u64 {
                growth_pages as u32
            } else {
                u32::MAX
            };
            match self.grow(Pages(delta), conf) {
                Ok(_) => {},
                Err(error) => {
                    return Err(error);
                },
            }
        }
        Ok(())
    }

    /// Takes every page from the memory. Its bytes stay where they are.
    pub fn reset(&mut self)
        requires
            old(self).sound(),
        ensures
            final(self).sound(),
            final(self)@ == old(self)@.reset(),
    {
        self.size = Pages(0);
        self.vm_memory_definition.current_length = 0;
    }

    /// Makes the memory show exactly `image`: grows it if need be, writes the
    /// image, and puts zeros into what the memory showed above.
    pub fn restore_image(&mut self, image: &[u8], conf: VMMemoryConfig) -> (result: Result<
        (),
        MemoryError,
    >)
        requires
            old(self).wf(conf),
            image_fits(image@.len()),
        ensures
            final(self).wf(conf),
            did(
                old(self)@,
                final(self)@,
                result,
                old(self)@.restore_image(image@, conf, final(self)@.base),
            ),
    {
        let target_bytes: usize = image.len();
        let target_pages = match Bytes(target_bytes).pages() {
            Ok(pages) => pages,
            Err(_) => {
                return Err(generic_error("snapshot image size overflows pages"));
            },
        };
        if target_pages.0 > self.size.0 {
            let delta = Pages(target_pages.0 - self.size.0);
            match self.grow(delta, conf) {
                Ok(_) => {},
                Err(error) => {
                    return Err(error);
                },
            }
        }
        let ghost grown = self@;
        let live_bytes: usize = self.vm_memory_definition.current_length;
        if live_bytes > target_bytes {
            self.alloc.zero(target_bytes, live_bytes);
        }
        assert(self.alloc.bytes() =~= zeroed(
            grown.mapped,
            target_bytes as int,
            live_bytes as int,
        ));
        self.alloc.write(0, image);
        self.size = target_pages;
        self.vm_memory_definition.current_length = target_bytes;
        Ok(())
    }

    /// A memory of its own that shows the same.
    pub fn copy(&self) -> (copied: Result<WasmMmap, MemoryError>)
        requires
            self.sound(),
        ensures
            copied matches Ok(copy) && copy.sound() && copy@ == self@.copy(copy@.base)
                && copy@.base != self@.base,
    {
        let mem_length: usize = self.size.bytes().0;
        let alloc = self.alloc.copy(mem_length);
        Ok(WasmMmap::new(alloc, mem_length, MaybeInstanceOwned::Host))
    }

    /// Takes a pristine image of what the memory shows. The memory is not
    /// touched.
    pub fn snapshot_cow(&self) -> (taken: Result<CowBacking, MemoryError>)
        requires
            self.sound(),
        ensures
            taken matches Ok(cow) && cow.wf() && cow.image@ == self@.live() && cow.pages
                == self@.pages() && cow.base == self@.base,
    {
        let snap_bytes: usize = self.vm_memory_definition.current_length;
        let mut file: Vec<u8> = Vec::new();
        let mut step = CaptureStep::CreateFile;
        while !step.is_finished()
            invariant
                self.sound(),
                snap_bytes == self@.length,
                step is CreateFile ==> file@ == Seq::<u8>::empty(),
                step is Finished ==> file@ == self@.live(),
            decreases step.rank(),
        {
            match step {
                CaptureStep::FillFile => {
                    file = self.live();
                },
                _ => {},
            }
            step = match step.next(snap_bytes, Ok(())) {
                Ok(next) => next,
                Err(error) => {
                    assert(false);
                    return Err(error);
                },
            };
            assert(snap_bytes == 0 ==> self@.live() =~= Seq::<u8>::empty());
        }
        Ok(CowBacking { image: file, pages: self.size, base: self.vm_memory_definition.base })
    }

    /// Whether the image's file can lie over the memory; see [`cow_fits`].
    pub fn takes_cow(&self, guard: usize, cow: &CowBacking) -> (taken: bool)
        requires
            self.sound(),
        ensures
            taken == cow_fits(self@, guard as nat, *cow),
    {
        let total: usize = self.alloc.len();
        cow.is_whole() && (self.vm_memory_definition.base != cow.base || (cow.image.len() <= total
            && guard <= total - cow.image.len()))
    }

    /// Makes the memory show exactly the image of `cow` again, with zeros in
    /// what it showed above. A memory that moved since is refused.
    pub fn restore_cow(&mut self, cow: &CowBacking) -> (result: Result<(), MemoryError>)
        requires
            old(self).sound(),
            cow_fits(old(self)@, 0, *cow),
        ensures
            final(self).sound(),
            did(old(self)@, final(self)@, result, old(self)@.restore_cow(*cow)),
    {
        let image_len: usize = cow.image.len();
        let shown: usize = self.vm_memory_definition.current_length;
        let mut step = match RestoreStep::first(
            self.vm_memory_definition.base,
            shown,
            cow.base,
            image_len,
        ) {
            Ok(first) => first,
            Err(error) => {
                return Err(error);
            },
        };
        if let RestoreStep::Remap { len } = step {
            self.alloc.make_accessible(0, len);
            self.alloc.write(0, cow.image.as_slice());
            step = match step.next(shown, image_len, Ok(())) {
                Ok(next) => next,
                Err(error) => {
                    assert(false);
                    return Err(error);
                },
            };
        }
        if let RestoreStep::Discard { start, len } = step {
            self.alloc.zero(start, start + len);
        }
        self.size = cow.pages;
        self.vm_memory_definition.current_length = image_len;
        proof {
            match old(self)@.restore_cow(*cow) {
                Ok(expected) => {
                    assert(self@.mapped =~= expected.mapped);
                },
                Err(_) => {},
            }
        }
        Ok(())
    }

    /// Puts the first bytes of the memory back to those of `image`, up to
    /// `bound`: the first `copied` are copied, and the others, which are zero in
    /// the image, are written as zeros. What lies above stays, and so does the
    /// size.
    pub fn restore_image_bounded(&mut self, image: &[u8], copied: usize, bound: usize)
        requires
            old(self).sound(),
            forall|i: int|
                copied <= i < image@.len() && i < bound && i < old(self)@.length
                    ==> #[trigger] image@[i] == 0,
        ensures
            final(self).sound(),
            final(self)@ == old(self)@.restore_bounded(image@, bound as nat),
            forall|i: int|
                0 <= i < old(self)@.length ==> #[trigger] final(self)@.live()[i] == if i
                    < image@.len() && i < bound {
                    image@[i]
                } else {
                    old(self)@.live()[i]
                },
    {
        let (copy, extent) = bounded_parts(
            image.len(),
            self.vm_memory_definition.current_length,
            copied,
            bound,
        );
        if copy > 0 {
            self.alloc.write(0, vstd::slice::slice_subrange(image, 0, copy));
        }
        if extent > copy {
            self.alloc.zero(copy, extent);
        }
        assert(self@.mapped =~= old(self)@.restore_bounded(image@, bound as nat).mapped);
    }

    /// Writes `data` into the bytes that the memory shows, from `start` on.
    pub fn write(&mut self, start: usize, data: &[u8])
        requires
            old(self).sound(),
            start + data@.len() <= old(self)@.length,
        ensures
            final(self).sound(),
            final(self)@ == old(self)@.write(start as nat, data@),
    {
        self.alloc.write(start, data);
    }
}

} // verus!
