//! A linear memory that one owner holds.

use crate::cow::CowBacking;
use crate::error::{unsupported, ErrorModel, MemoryError};
use crate::memory::{initialize_memory_with_data, LinearMemory, Trap};
use crate::memory_type::{MemoryStyle, MemoryType, Platform, VMMemoryConfig};
use crate::mmap::{fresh_bytes, refused_text, Mmap};
use crate::shared_memory::VMSharedMemory;
use crate::text::{decimal, decimal_text};
use crate::units::{Pages, WASM_MAX_PAGES, WASM_PAGE_SIZE};
use crate::vm_memory::VMMemory;
use crate::wasm_mmap::{cow_fits, did, MaybeInstanceOwned, VMMemoryDefinition, WasmMmap, WasmModel};
use vstd::prelude::*;

verus! {

/// Why a maximum below the minimum is refused.
pub open spec fn maximum_below_minimum(maximum: Pages, minimum: Pages) -> Seq<char> {
    "the maximum ("@ + decimal(maximum.0 as nat) + " pages) is less than the minimum ("@ + decimal(
        minimum.0 as nat,
    ) + " pages)"@
}

/// Why no memory can have these limits, if none can.
pub open spec fn type_refusal(memory: MemoryType) -> Option<ErrorModel> {
    if memory.minimum.0 > WASM_MAX_PAGES {
        Some(
            ErrorModel::MinimumMemoryTooLarge {
                min_requested: memory.minimum,
                max_allowed: Pages(WASM_MAX_PAGES),
            },
        )
    } else {
        match memory.maximum {
            None => None,
            Some(max) => if max.0 > WASM_MAX_PAGES {
                Some(
                    ErrorModel::MaximumMemoryTooLarge {
                        max_requested: max,
                        max_allowed: Pages(WASM_MAX_PAGES),
                    },
                )
            } else if max.0 < memory.minimum.0 {
                Some(
                    ErrorModel::InvalidMemory {
                        reason: maximum_below_minimum(max, memory.minimum),
                    },
                )
            } else {
                None
            },
        }
    }
}

/// The pages that room is set aside for.
pub open spec fn reserved_pages(memory: MemoryType, style: MemoryStyle) -> Pages {
    match style {
        MemoryStyle::Dynamic { .. } => memory.minimum,
        MemoryStyle::Static { bound, .. } => bound,
    }
}

/// The bytes that are set aside: pages and guard room.
pub open spec fn reserved_bytes(memory: MemoryType, style: MemoryStyle) -> nat {
    reserved_pages(memory, style).byte_count() + style.guard_bytes() as nat
}

/// The style has room for the declared pages, in addresses that exist.
pub open spec fn style_fits(memory: MemoryType, style: MemoryStyle) -> bool {
    type_refusal(memory) is None ==> {
        &&& reserved_pages(memory, style).0 >= memory.minimum.0
        &&& reserved_bytes(memory, style) <= usize::MAX
    }
}

/// The extents of the mapping behind a memory.
#[derive(Copy, Clone, Debug, PartialEq, Eq, Structural)]
pub struct MemoryLayout {
    /// Bytes that the declared pages have.
    pub mapped_bytes: usize,
    /// Bytes to set aside.
    pub request_bytes: usize,
    /// Bytes of guard room among them.
    pub guard_bytes: usize,
}

/// The extents of the mapping for a memory of this type and style, or why there
/// can be no such memory.
pub fn layout(memory: &MemoryType, style: &MemoryStyle) -> (result: Result<
    MemoryLayout,
    MemoryError,
>)
    requires
        style_fits(*memory, *style),
    ensures
        match (result, type_refusal(*memory)) {
            (Ok(layout), None) => {
                &&& layout.mapped_bytes == memory.minimum.byte_count()
                &&& layout.request_bytes == reserved_bytes(*memory, *style)
                &&& layout.guard_bytes == style.guard_bytes()
            },
            (Err(error), Some(refusal)) => error@ == refusal,
            _ => false,
        },
{
    if memory.minimum.0 > Pages::max_value().0 {
        return Err(
            MemoryError::MinimumMemoryTooLarge {
                min_requested: memory.minimum,
                max_allowed: Pages::max_value(),
            },
        );
    }
    if let Some(max) = memory.maximum {
        if max.0 > Pages::max_value().0 {
            return Err(
                MemoryError::MaximumMemoryTooLarge {
                    max_requested: max,
                    max_allowed: Pages::max_value(),
                },
            );
        }
        if max.0 < memory.minimum.0 {
            let mut reason = "the maximum (".to_owned();
            reason.append(decimal_text(max.0 as u64).as_str());
            reason.append(" pages) is less than the minimum (");
            reason.append(decimal_text(memory.minimum.0 as u64).as_str());
            reason.append(" pages)");
            return Err(MemoryError::InvalidMemory { reason });
        }
    }
    let guard_bytes: usize = style.offset_guard_size() as usize;
    let minimum_pages = match *style {
        MemoryStyle::Dynamic { .. } => memory.minimum,
        MemoryStyle::Static { bound, .. } => bound,
    };
    let minimum_bytes: usize = minimum_pages.bytes().0;
    Ok(
        MemoryLayout {
            mapped_bytes: memory.minimum.bytes().0,
            request_bytes: minimum_bytes + guard_bytes,
            guard_bytes,
        },
    )
}

/// A linear memory that one owner holds.
pub struct VMOwnedMemory {
    mmap: WasmMmap,
    config: VMMemoryConfig,
}

/// The settings of a memory made for this type and style.
pub open spec fn config_for(
    memory: MemoryType,
    style: MemoryStyle,
    platform: Platform,
) -> VMMemoryConfig {
    VMMemoryConfig {
        maximum: memory.maximum,
        memory,
        style,
        offset_guard_size: style.guard_bytes() as usize,
        platform,
    }
}

/// The pages that a fresh memory over a file of `file_len` bytes shows: those that are
/// declared, or those that the file begins to fill if these are more, as far as room
/// is set aside.
pub open spec fn fresh_pages(memory: MemoryType, style: MemoryStyle, file_len: nat) -> Pages {
    let filled: int = (file_len + WASM_PAGE_SIZE - 1) / (WASM_PAGE_SIZE as int);
    if filled <= memory.minimum.0 {
        memory.minimum
    } else if filled <= reserved_pages(memory, style).0 {
        Pages(filled as u32)
    } else {
        reserved_pages(memory, style)
    }
}

/// How many pages a fresh memory over a file shows; see [`fresh_pages`].
pub fn fresh_size(memory: &MemoryType, style: &MemoryStyle, file_len: usize) -> (size: Pages)
    ensures
        size == fresh_pages(*memory, *style, file_len as nat),
{
    let reserved = match *style {
        MemoryStyle::Dynamic { .. } => memory.minimum,
        MemoryStyle::Static { bound, .. } => bound,
    };
    let begun: u64 = if file_len % WASM_PAGE_SIZE == 0 {
        0
    } else {
        1
    };
    let filled: u64 = (file_len / WASM_PAGE_SIZE) as u64 + begun;
    if filled <= memory.minimum.0 as u64 {
        memory.minimum
    } else if filled <= reserved.0 as u64 {
        Pages(filled as u32)
    } else {
        reserved
    }
}

/// A fresh memory: its bytes are those of the backing file, with zeros behind the
/// file's end, and all of them show.
pub open spec fn fresh_model(
    memory: MemoryType,
    style: MemoryStyle,
    file: Seq<u8>,
    base: usize,
    owner: MaybeInstanceOwned,
) -> WasmModel {
    let mapped: Seq<u8> = fresh_bytes(fresh_pages(memory, style, file.len()).byte_count(), file);
    WasmModel { mapped, total: reserved_bytes(memory, style), length: mapped.len(), base, owner }
}

/// Why a memory of this type and style cannot be made, if it cannot.
pub open spec fn creation_refusal(memory: MemoryType, style: MemoryStyle) -> Option<ErrorModel> {
    match type_refusal(memory) {
        Some(refusal) => Some(refusal),
        None => if reserved_bytes(memory, style) > isize::MAX {
            Some(ErrorModel::Region(refused_text(reserved_bytes(memory, style))))
        } else {
            None
        },
    }
}

/// A memory of this type and style was made, with these bytes from a backing
/// file; or it was refused for the reason there is.
pub open spec fn created<M: LinearMemory>(
    result: Result<M, MemoryError>,
    memory: MemoryType,
    style: MemoryStyle,
    platform: Platform,
    file: Seq<u8>,
    owner: MaybeInstanceOwned,
) -> bool {
    match (result, creation_refusal(memory, style)) {
        (Ok(made), None) => {
            &&& made.inv()
            &&& made.config() == config_for(memory, style, platform)
            &&& exists|base: usize| #[trigger]
                made.may_be(fresh_model(memory, style, file, base, owner))
            &&& made.latest() == fresh_model(memory, style, file, made.latest().base, owner)
        },
        (Err(error), Some(refusal)) => error@ == refusal,
        _ => false,
    }
}

impl VMOwnedMemory {
    /// The memory as a value.
    pub closed spec fn model(&self) -> WasmModel {
        self.mmap@
    }

    /// The settings that the memory keeps for life.
    pub closed spec fn settings(&self) -> VMMemoryConfig {
        self.config
    }

    /// What holds of the memory at any time.
    pub closed spec fn wf(&self) -> bool {
        self.mmap.wf(self.config)
    }

    /// What putting an image back gives, or why it is refused.
    pub open spec fn expected_cow(&self, cow: CowBacking) -> Result<WasmModel, ErrorModel> {
        match self.settings().platform {
            Platform::Linux => self.model().restore_cow(cow),
            Platform::Other => Err(
                ErrorModel::UnsupportedOperation {
                    message: "restore_cow() is only supported on Linux"@,
                },
            ),
        }
    }

    /// A memory with these limits that keeps its own definition.
    pub fn new(memory: &MemoryType, style: &MemoryStyle, platform: Platform) -> (made: Result<
        VMOwnedMemory,
        MemoryError,
    >)
        requires
            style_fits(*memory, *style),
        ensures
            created(
                made,
                *memory,
                *style,
                platform,
                Seq::<u8>::empty(),
                MaybeInstanceOwned::Host,
            ),
    {
        let none: Vec<u8> = Vec::new();
        Self::new_internal(memory, style, platform, MaybeInstanceOwned::Host, none.as_slice())
    }

    /// A memory over a file that holds `file`, which keeps its own definition.
    pub fn new_with_file(
        memory: &MemoryType,
        style: &MemoryStyle,
        platform: Platform,
        file: &[u8],
    ) -> (made: Result<VMOwnedMemory, MemoryError>)
        requires
            style_fits(*memory, *style),
        ensures
            created(made, *memory, *style, platform, file@, MaybeInstanceOwned::Host),
    {
        Self::new_internal(memory, style, platform, MaybeInstanceOwned::Host, file)
    }

    /// A memory whose definition an instance keeps, in slot
    /// `vm_memory_location` of its context.
    pub fn from_definition(
        memory: &MemoryType,
        style: &MemoryStyle,
        platform: Platform,
        vm_memory_location: usize,
    ) -> (made: Result<VMOwnedMemory, MemoryError>)
        requires
            style_fits(*memory, *style),
        ensures
            created(
                made,
                *memory,
                *style,
                platform,
                Seq::<u8>::empty(),
                MaybeInstanceOwned::Instance(vm_memory_location),
            ),
    {
        let none: Vec<u8> = Vec::new();
        Self::new_internal(
            memory,
            style,
            platform,
            MaybeInstanceOwned::Instance(vm_memory_location),
            none.as_slice(),
        )
    }

    /// A memory over a file that holds `file`, if there is one, whose definition
    /// an instance keeps, in slot `vm_memory_location` of its context.
    pub fn from_definition_with_file(
        memory: &MemoryType,
        style: &MemoryStyle,
        platform: Platform,
        vm_memory_location: usize,
        file: Option<&[u8]>,
    ) -> (made: Result<VMOwnedMemory, MemoryError>)
        requires
            style_fits(*memory, *style),
        ensures
            created(
                made,
                *memory,
                *style,
                platform,
                match file {
                    Some(bytes) => bytes@,
                    None => Seq::<u8>::empty(),
                },
                MaybeInstanceOwned::Instance(vm_memory_location),
            ),
    {
        let owner = MaybeInstanceOwned::Instance(vm_memory_location);
        match file {
            Some(bytes) => Self::new_internal(memory, style, platform, owner, bytes),
            None => {
                let none: Vec<u8> = Vec::new();
                Self::new_internal(memory, style, platform, owner, none.as_slice())
            },
        }
    }

    fn new_internal(
        memory: &MemoryType,
        style: &MemoryStyle,
        platform: Platform,
        owner: MaybeInstanceOwned,
        file: &[u8],
    ) -> (made: Result<VMOwnedMemory, MemoryError>)
        requires
            style_fits(*memory, *style),
        ensures
            created(made, *memory, *style, platform, file@, owner),
    {
        let extents = match layout(memory, style) {
            Ok(extents) => extents,
            Err(error) => {
                return Err(error);
            },
        };
        let mem_length: usize = fresh_size(memory, style, file.len()).bytes().0;
        let alloc = match Mmap::accessible_reserved(mem_length, extents.request_bytes, file) {
            Ok(alloc) => alloc,
            Err(text) => {
                return Err(MemoryError::Region(text));
            },
        };
        let mmap = WasmMmap::new(alloc, mem_length, owner);
        let made = VMOwnedMemory {
            mmap,
            config: VMMemoryConfig {
                maximum: memory.maximum,
                memory: *memory,
                style: *style,
                offset_guard_size: extents.guard_bytes,
                platform,
            },
        };
        assert(made.may_be(fresh_model(*memory, *style, file@, made.model().base, owner)));
        Ok(made)
    }

    /// Gives the memory up to be held by several threads.
    pub fn to_shared(self) -> (shared: VMSharedMemory)
        requires
            self.inv(),
        ensures
            shared.inv(),
            shared.config() == self.config(),
            shared.owner() == self.model().owner,
            forall|model: WasmModel| #[trigger] self.may_be(model) ==> shared.may_be(model),
            shared.latest() == self.model(),
    {
        VMSharedMemory::guarding(self.mmap, self.config)
    }

    /// Whether the image can go over the memory.
    pub fn takes_cow(&self, cow: &CowBacking) -> (taken: bool)
        requires
            self.inv(),
        ensures
            taken == self.accepts_cow(*cow),
    {
        self.mmap.takes_cow(self.config.offset_guard_size, cow)
    }

    /// A memory of its own that shows the same.
    pub fn copy(&self) -> (copy: Result<VMOwnedMemory, MemoryError>)
        requires
            self.inv(),
        ensures
            copy matches Ok(memory) && memory.inv() && memory.config() == self.config()
                && memory.model() == self.model().copy(memory.model().base)
                && memory.model().base != self.model().base,
    {
        match self.mmap.copy() {
            Ok(mmap) => Ok(VMOwnedMemory { mmap, config: self.config }),
            Err(error) => Err(error),
        }
    }
}

impl LinearMemory for VMOwnedMemory {
    /// One owner holds the memory, so it has one value.
    open spec fn may_be(&self, model: WasmModel) -> bool {
        model == self.model()
    }

    open spec fn config(&self) -> VMMemoryConfig {
        self.settings()
    }

    open spec fn shared(&self) -> bool {
        false
    }

    open spec fn inv(&self) -> bool {
        self.wf()
    }

    open spec fn accepts_cow(&self, cow: CowBacking) -> bool {
        cow_fits(self.model(), self.settings().offset_guard_size as nat, cow)
    }

    open spec fn accepts_data(&self, start: nat, len: nat) -> bool {
        start + len <= self.model().length
    }

    open spec fn latest(&self) -> WasmModel {
        self.model()
    }

    open spec fn passed(&self, after: &Self, found: WasmModel, left: WasmModel) -> bool {
        found == self.model() && left == after.model()
    }

    proof fn may_be_wf(&self) {
    }

    fn ty(&self) -> MemoryType {
        assert(self.may_be(self.model()));
        self.config.ty(self.mmap.size())
    }

    fn size(&self) -> Pages {
        assert(self.may_be(self.model()));
        self.mmap.size()
    }

    fn style(&self) -> MemoryStyle {
        self.config.style()
    }

    fn grow(&mut self, delta: Pages) -> Result<Pages, MemoryError> {
        assert(self.may_be(self.model()));
        let previous = self.mmap.grow(delta, self.config);
        assert(self.may_be(self.model()));
        previous
    }

    fn grow_at_least(&mut self, min_size: u64) -> (result: Result<(), MemoryError>)
        ensures
            did(
                old(self).model(),
                final(self).model(),
                result,
                old(self).model().grow_at_least(
                    min_size,
                    old(self).config(),
                    final(self).model().base,
                ),
            ),
    {
        assert(self.may_be(self.model()));
        let result = self.mmap.grow_at_least(min_size, self.config);
        assert(self.may_be(self.model()));
        result
    }

    fn reset(&mut self) -> (result: Result<(), MemoryError>)
        ensures
            result is Ok,
            final(self).model() == old(self).model().reset(),
    {
        assert(self.may_be(self.model()));
        self.mmap.reset();
        assert(self.may_be(self.model()));
        Ok(())
    }

    fn snapshot_image(&self) -> Vec<u8> {
        assert(self.may_be(self.model()));
        self.mmap.live()
    }

    fn restore_image(&mut self, image: &[u8]) -> (result: Result<(), MemoryError>)
        ensures
            did(
                old(self).model(),
                final(self).model(),
                result,
                old(self).model().restore_image(
                    image@,
                    old(self).config(),
                    final(self).model().base,
                ),
            ),
    {
        assert(self.may_be(self.model()));
        let result = self.mmap.restore_image(image, self.config);
        assert(self.may_be(self.model()));
        result
    }

    fn restore_image_bounded(&mut self, image: &[u8], copy_prefix: usize, zero_to: usize) -> Result<
        (),
        MemoryError,
    > {
        assert(self.may_be(self.model()));
        self.mmap.restore_image_bounded(image, copy_prefix, zero_to);
        assert(self.may_be(self.model()));
        Ok(())
    }

    /// On Linux a memory that never moves can be captured copy-on-write.
    fn supports_cow_snapshot(&self) -> (supported: bool)
        ensures
            supported == (self.config().platform is Linux && self.config().style is Static),
    {
        matches!(self.config.platform, Platform::Linux) && matches!(
            self.config.style,
            MemoryStyle::Static { .. }
        )
    }

    fn snapshot_cow(&self) -> (taken: Result<CowBacking, MemoryError>)
        ensures
            match (taken, self.config().platform) {
                (Ok(_), Platform::Linux) => true,
                (Err(error), Platform::Other) => error@ == (ErrorModel::UnsupportedOperation {
                    message: "snapshot_cow() is only supported on Linux"@,
                }),
                _ => false,
            },
    {
        assert(self.may_be(self.model()));
        match self.config.platform {
            Platform::Linux => self.mmap.snapshot_cow(),
            Platform::Other => Err(unsupported("snapshot_cow() is only supported on Linux")),
        }
    }

    fn restore_cow(&mut self, cow: &CowBacking) -> (result: Result<(), MemoryError>)
        ensures
            did(old(self).model(), final(self).model(), result, old(self).expected_cow(*cow)),
    {
        assert(self.may_be(self.model()));
        let result = match self.config.platform {
            Platform::Linux => self.mmap.restore_cow(cow),
            Platform::Other => Err(unsupported("restore_cow() is only supported on Linux")),
        };
        assert(self.may_be(self.model()));
        result
    }

    fn vmmemory(&self) -> VMMemoryDefinition {
        assert(self.may_be(self.model()));
        self.mmap.get_vm_memory_definition()
    }

    /// An owned memory has one handle.
    fn try_clone(&self) -> (cloned: Result<VMMemory, MemoryError>)
        ensures
            cloned matches Err(error) && error@ == ErrorModel::MemoryNotShared,
    {
        Err(MemoryError::MemoryNotShared)
    }

    /// An owned memory is not shared.
    fn as_shared(&self) -> Result<VMSharedMemory, MemoryError> {
        Err(MemoryError::MemoryNotShared)
    }

    fn initialize_with_data(&mut self, start: usize, data: &[u8]) -> Result<(), Trap> {
        assert(self.may_be(self.model()));
        let result = initialize_memory_with_data(&mut self.mmap, start, data);
        assert(self.may_be(self.model()));
        result
    }

    fn copy(&self) -> (copied: Result<VMMemory, MemoryError>) {
        assert(self.may_be(self.model()));
        match VMOwnedMemory::copy(self) {
            Ok(memory) => Ok(VMMemory::Owned(memory)),
            Err(error) => Err(error),
        }
    }
}

} // verus!
