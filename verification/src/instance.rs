//! Instances: which of a store's objects belong to one module instance, and what
//! the instance keeps besides.

use crate::memory::LinearMemory;
use crate::module::{ExportIndex, ModuleInfo, RESERVED_FUNCTION};
use crate::store::{distinct, in_range, others_kept, StoreObjects, VMExtern, VMGlobal};
use crate::table::{RawTableElement, VMFuncRef, VMTable};
use crate::vm_memory::VMMemory;
use std::collections::HashMap;
use std::sync::Arc;
use vstd::prelude::*;

verus! {

broadcast use vstd::std_specs::hash::group_hash_axioms;

/// An instance of a module.
pub struct VMInstance {
    /// What is fixed of the module.
    pub module: Arc<ModuleInfo>,
    /// The functions, imported ones first.
    pub functions: Vec<VMFuncRef>,
    /// Handles of the imported memories.
    pub imported_memories: Vec<usize>,
    /// Handles of the imported globals.
    pub imported_globals: Vec<usize>,
    /// Handles of the imported tables.
    pub imported_tables: Vec<usize>,
    /// Handles of the defined memories.
    pub memories: Vec<usize>,
    /// Handles of the defined globals.
    pub globals: Vec<usize>,
    /// Handles of the defined tables.
    pub tables: Vec<usize>,
    /// For each defined table that indirect calls go through without a look at
    /// the table itself, the slots that they go through.
    pub dispatch: Vec<Option<Vec<RawTableElement>>>,
    /// The passive element segments that were not dropped.
    pub passive_elements: HashMap<u32, Vec<Option<VMFuncRef>>>,
    /// The passive data segments that were not dropped.
    pub passive_data: HashMap<u32, Vec<u8>>,
}

/// The objects of a store that an instance imports.
pub struct InstanceImports {
    /// Handles of the memories.
    pub memories: Vec<usize>,
    /// Handles of the globals.
    pub globals: Vec<usize>,
    /// Handles of the tables.
    pub tables: Vec<usize>,
}

impl InstanceImports {
    /// The handles name objects of the store.
    pub open spec fn wf(&self, ctx: &StoreObjects) -> bool {
        &&& in_range(self.memories@, ctx.memories@.len())
        &&& in_range(self.globals@, ctx.globals@.len())
        &&& in_range(self.tables@, ctx.tables@.len())
    }
}

/// The objects that an instance defines, as they are when it starts.
pub struct InstanceDefinitions {
    /// The memories.
    pub memories: Vec<VMMemory>,
    /// The globals.
    pub globals: Vec<VMGlobal>,
    /// The tables.
    pub tables: Vec<VMTable>,
    /// For each table, whether indirect calls go past it.
    pub fixed_tables: Vec<bool>,
}

impl InstanceDefinitions {
    /// Every memory is in order, and of every table it is told how indirect calls
    /// go.
    pub open spec fn wf(&self) -> bool {
        &&& self.fixed_tables@.len() == self.tables@.len()
        &&& forall|i: int| 0 <= i < self.memories@.len() ==> (#[trigger] self.memories@[i]).inv()
    }
}

/// The handles of `count` objects that come after `start` others.
pub open spec fn fresh_handles(start: nat, count: nat) -> Seq<usize> {
    Seq::new(count, |k: int| (start + k) as usize)
}

fn handles_from(start: usize, count: usize) -> (handles: Vec<usize>)
    requires
        start + count <= usize::MAX,
    ensures
        handles@ == fresh_handles(start as nat, count as nat),
{
    let mut handles: Vec<usize> = Vec::new();
    let mut k: usize = 0;
    while k < count
        invariant
            start + count <= usize::MAX,
            k <= count,
            handles@ == fresh_handles(start as nat, k as nat),
        decreases count - k,
    {
        handles.push(start + k);
        k = k + 1;
        assert(handles@ =~= fresh_handles(start as nat, k as nat));
    }
    handles
}

/// The handle under that index, imported objects first.
fn nth_handle(imported: &Vec<usize>, defined: &Vec<usize>, index: u32) -> (handle: usize)
    requires
        index < imported@.len() + defined@.len(),
    ensures
        handle == (imported@ + defined@)[index as int],
{
    let index: usize = index as usize;
    if index < imported.len() {
        imported[index]
    } else {
        defined[index - imported.len()]
    }
}

/// The references of a segment's functions.
pub open spec fn func_refs(functions: Seq<VMFuncRef>, segment: Seq<u32>) -> Seq<Option<VMFuncRef>> {
    Seq::new(
        segment.len(),
        |i: int|
            if segment[i] == RESERVED_FUNCTION {
                None
            } else {
                Some(functions[segment[i] as int])
            },
    )
}

/// Every data segment in `left` was declared, with these bytes.
pub open spec fn data_declared(left: Map<u32, Vec<u8>>, declared: Seq<(u32, Vec<u8>)>) -> bool {
    forall|index: u32| #[trigger]
        left.contains_key(index) ==> exists|k: int|
            0 <= k < declared.len() && (#[trigger] declared[k]).0 == index && left[index]@
                == declared[k].1@
}

/// Every declared data segment is in `left`.
pub open spec fn data_complete(left: Map<u32, Vec<u8>>, declared: Seq<(u32, Vec<u8>)>) -> bool {
    forall|k: int| 0 <= k < declared.len() ==> left.contains_key((#[trigger] declared[k]).0)
}

/// Every element segment in `left` was declared, with these functions.
pub open spec fn elements_declared(
    left: Map<u32, Vec<Option<VMFuncRef>>>,
    declared: Seq<(u32, Vec<u32>)>,
    functions: Seq<VMFuncRef>,
) -> bool {
    forall|index: u32| #[trigger]
        left.contains_key(index) ==> exists|k: int|
            0 <= k < declared.len() && (#[trigger] declared[k]).0 == index && declared[k].1@.len()
                > 0 && left[index]@ == func_refs(functions, declared[k].1@)
}

/// Every declared element segment that has elements is in `left`.
pub open spec fn elements_complete(
    left: Map<u32, Vec<Option<VMFuncRef>>>,
    declared: Seq<(u32, Vec<u32>)>,
) -> bool {
    forall|k: int|
        0 <= k < declared.len() && (#[trigger] declared[k]).1@.len() > 0 ==> left.contains_key(
            declared[k].0,
        )
}

/// Every function that a segment names exists.
pub open spec fn segments_resolve(declared: Seq<(u32, Vec<u32>)>, functions: nat) -> bool {
    forall|k: int, i: int|
        0 <= k < declared.len() && 0 <= i < declared[k].1@.len() ==> #[trigger] declared[k].1@[i]
            == RESERVED_FUNCTION || declared[k].1@[i] < functions
}

impl VMInstance {
    /// The segments that the module declares can be resolved, and those that are
    /// left are declared ones.
    pub open spec fn segments_wf(&self) -> bool {
        &&& self.module.wf()
        &&& segments_resolve(self.module.passive_elements@, self.functions@.len())
        &&& elements_declared(
            self.passive_elements@,
            self.module.passive_elements@,
            self.functions@,
        )
        &&& data_declared(self.passive_data@, self.module.passive_data@)
    }

    /// The handles name objects of the store, no defined object is named twice,
    /// and the segments are in order.
    pub open spec fn wf(&self, ctx: &StoreObjects) -> bool {
        &&& self.segments_wf()
        &&& self.imported_globals@.len() == self.module.num_imported_globals
        &&& self.imported_globals@.len() + self.globals@.len() == self.module.num_globals
        &&& in_range(self.imported_memories@, ctx.memories@.len())
        &&& in_range(self.imported_globals@, ctx.globals@.len())
        &&& in_range(self.imported_tables@, ctx.tables@.len())
        &&& in_range(self.memories@, ctx.memories@.len())
        &&& in_range(self.globals@, ctx.globals@.len())
        &&& in_range(self.tables@, ctx.tables@.len())
        &&& distinct(self.memories@)
        &&& distinct(self.globals@)
        &&& distinct(self.tables@)
        &&& self.dispatch@.len() == self.tables@.len()
    }

    /// Indirect calls see what the tables hold.
    pub open spec fn synced(&self, ctx: &StoreObjects) -> bool {
        forall|k: int|
            0 <= k < self.tables@.len() ==> match #[trigger] self.dispatch@[k] {
                Some(slots) => slots@ == ctx.tables@[self.tables@[k] as int].elements@,
                None => true,
            }
    }

    /// No passive segment is dropped.
    pub open spec fn passive_complete(&self) -> bool {
        &&& elements_complete(self.passive_elements@, self.module.passive_elements@)
        &&& data_complete(self.passive_data@, self.module.passive_data@)
    }

    /// The instances agree in everything that no operation changes.
    pub open spec fn same_makeup(&self, other: &VMInstance) -> bool {
        &&& self.module == other.module
        &&& self.functions == other.functions
        &&& self.imported_memories == other.imported_memories
        &&& self.imported_globals == other.imported_globals
        &&& self.imported_tables == other.imported_tables
        &&& self.memories == other.memories
        &&& self.globals == other.globals
        &&& self.tables == other.tables
    }

    /// An instance of `module` with these functions and imports. The objects that
    /// it defines go into the store, and the segments are all there. Indirect
    /// calls go past a table where `definitions.fixed_tables` says so.
    pub fn new(
        module: Arc<ModuleInfo>,
        functions: Vec<VMFuncRef>,
        imports: InstanceImports,
        definitions: InstanceDefinitions,
        ctx: &mut StoreObjects,
    ) -> (instance: VMInstance)
        requires
            old(ctx).wf(),
            module.wf(),
            segments_resolve(module.passive_elements@, functions@.len()),
            imports.wf(old(ctx)),
            definitions.wf(),
            imports.globals@.len() == module.num_imported_globals,
            imports.globals@.len() + definitions.globals@.len() == module.num_globals,
            old(ctx).memories@.len() + definitions.memories@.len() <= usize::MAX,
            old(ctx).globals@.len() + definitions.globals@.len() <= usize::MAX,
            old(ctx).tables@.len() + definitions.tables@.len() <= usize::MAX,
        ensures
            final(ctx).wf(),
            final(ctx).memories@ == old(ctx).memories@ + definitions.memories@,
            final(ctx).globals@ == old(ctx).globals@ + definitions.globals@,
            final(ctx).tables@ == old(ctx).tables@ + definitions.tables@,
            instance.wf(final(ctx)),
            instance.synced(final(ctx)),
            instance.passive_complete(),
            instance.module == module,
            instance.functions == functions,
            instance.imported_memories == imports.memories,
            instance.imported_globals == imports.globals,
            instance.imported_tables == imports.tables,
            instance.memories@ == fresh_handles(
                old(ctx).memories@.len(),
                definitions.memories@.len(),
            ),
            instance.globals@ == fresh_handles(old(ctx).globals@.len(), definitions.globals@.len()),
            instance.tables@ == fresh_handles(old(ctx).tables@.len(), definitions.tables@.len()),
            forall|k: int|
                0 <= k < definitions.tables@.len() ==> (#[trigger] instance.dispatch@[k] is Some)
                    == definitions.fixed_tables@[k],
    {
        let InstanceDefinitions { mut memories, mut globals, mut tables, fixed_tables } =
            definitions;
        let memory_handles = handles_from(ctx.memories.len(), memories.len());
        let global_handles = handles_from(ctx.globals.len(), globals.len());
        let table_handles = handles_from(ctx.tables.len(), tables.len());
        let mut dispatch: Vec<Option<Vec<RawTableElement>>> = Vec::new();
        let mut k: usize = 0;
        while k < tables.len()
            invariant
                k <= tables@.len(),
                tables@.len() == fixed_tables@.len(),
                dispatch@.len() == k,
                forall|j: int|
                    0 <= j < k ==> match #[trigger] dispatch@[j] {
                        Some(slots) => fixed_tables@[j] && slots@ == tables@[j].elements@,
                        None => !fixed_tables@[j],
                    },
            decreases tables@.len() - k,
        {
            if fixed_tables[k] {
                dispatch.push(Some(tables[k].snapshot_elements()));
            } else {
                dispatch.push(None);
            }
            k = k + 1;
        }
        ctx.memories.append(&mut memories);
        ctx.globals.append(&mut globals);
        ctx.tables.append(&mut tables);
        let mut instance = VMInstance {
            module,
            functions,
            imported_memories: imports.memories,
            imported_globals: imports.globals,
            imported_tables: imports.tables,
            memories: memory_handles,
            globals: global_handles,
            tables: table_handles,
            dispatch,
            passive_elements: HashMap::new(),
            passive_data: HashMap::new(),
        };
        instance.reinitialize_passive_segments();
        instance
    }

    /// The reference of the function with this index, unless the index stands for
    /// no function.
    pub fn func_ref(&self, index: u32) -> (found: Option<VMFuncRef>)
        requires
            index == RESERVED_FUNCTION || index < self.functions@.len(),
        ensures
            found == if index == RESERVED_FUNCTION {
                None
            } else {
                Some(self.functions@[index as int])
            },
    {
        if index == RESERVED_FUNCTION {
            None
        } else {
            Some(self.functions[index as usize])
        }
    }

    /// Makes the slots that indirect calls go through those of the table, if the
    /// `k`-th defined table has such slots.
    pub fn sync_fixed_funcref_table(&mut self, ctx: &StoreObjects, k: usize)
        requires
            old(self).wf(ctx),
            k < old(self).tables@.len(),
        ensures
            final(self).wf(ctx),
            final(self).same_makeup(old(self)),
            final(self).passive_elements == old(self).passive_elements,
            final(self).passive_data == old(self).passive_data,
            final(self).dispatch@.len() == old(self).dispatch@.len(),
            forall|j: int|
                0 <= j < old(self).dispatch@.len() && j != k ==> #[trigger] final(self).dispatch@[j]
                    == old(self).dispatch@[j],
            match (old(self).dispatch@[k as int], final(self).dispatch@[k as int]) {
                (Some(_), Some(slots)) => slots@ == ctx.tables@[old(
                    self,
                ).tables@[k as int] as int].elements@,
                (None, None) => true,
                _ => false,
            },
    {
        if self.dispatch[k].is_some() {
            let handle: usize = self.tables[k];
            let slots = ctx.tables[handle].snapshot_elements();
            self.dispatch[k] = Some(slots);
        }
    }

    /// The references of a segment's functions.
    fn segment_refs(&self, segment: &Vec<u32>) -> (refs: Vec<Option<VMFuncRef>>)
        requires
            forall|i: int|
                0 <= i < segment@.len() ==> #[trigger] segment@[i] == RESERVED_FUNCTION
                    || segment@[i] < self.functions@.len(),
        ensures
            refs@ == func_refs(self.functions@, segment@),
            refs@.len() == segment@.len(),
            forall|i: int|
                0 <= i < segment@.len() ==> #[trigger] refs@[i] == if segment@[i]
                    == RESERVED_FUNCTION {
                    None
                } else {
                    Some(self.functions@[segment@[i] as int])
                },
    {
        let mut refs: Vec<Option<VMFuncRef>> = Vec::new();
        let mut i: usize = 0;
        while i < segment.len()
            invariant
                i <= segment@.len(),
                forall|j: int|
                    0 <= j < segment@.len() ==> #[trigger] segment@[j] == RESERVED_FUNCTION
                        || segment@[j] < self.functions@.len(),
                refs@ == func_refs(self.functions@, segment@).take(i as int),
            decreases segment@.len() - i,
        {
            refs.push(self.func_ref(segment[i]));
            i = i + 1;
            assert(refs@ =~= func_refs(self.functions@, segment@).take(i as int));
        }
        assert(refs@ =~= func_refs(self.functions@, segment@));
        refs
    }

    /// Makes the passive segments the module's declared ones again, whatever was
    /// dropped. An element segment without elements is left out.
    pub fn reinitialize_passive_segments(&mut self)
        requires
            old(self).segments_wf(),
        ensures
            final(self).segments_wf(),
            final(self).same_makeup(old(self)),
            final(self).dispatch == old(self).dispatch,
            final(self).passive_complete(),
    {
        if self.module.passive_elements.len() == 0 && self.module.passive_data.len() == 0 {
            return;
        }
        let mut elements: HashMap<u32, Vec<Option<VMFuncRef>>> = HashMap::new();
        let mut i: usize = 0;
        while i < self.module.passive_elements.len()
            invariant
                *self == *old(self),
                self.segments_wf(),
                i <= self.module.passive_elements@.len(),
                elements_declared(
                    elements@,
                    self.module.passive_elements@.take(i as int),
                    self.functions@,
                ),
                elements_complete(elements@, self.module.passive_elements@.take(i as int)),
            decreases self.module.passive_elements@.len() - i,
        {
            let ghost declared = self.module.passive_elements@;
            let ghost before = elements@;
            let index: u32 = self.module.passive_elements[i].0;
            if self.module.passive_elements[i].1.len() > 0 {
                let refs = self.segment_refs(&self.module.passive_elements[i].1);
                elements.insert(index, refs);
                proof {
                    Self::element_step(before, declared, self.functions@, i as int, refs);
                }
            } else {
                proof {
                    Self::element_skip(before, declared, self.functions@, i as int);
                }
            }
            i = i + 1;
        }
        assert(self.module.passive_elements@.take(i as int) =~= self.module.passive_elements@);
        let mut data: HashMap<u32, Vec<u8>> = HashMap::new();
        let mut j: usize = 0;
        while j < self.module.passive_data.len()
            invariant
                *self == *old(self),
                self.segments_wf(),
                j <= self.module.passive_data@.len(),
                data_declared(data@, self.module.passive_data@.take(j as int)),
                data_complete(data@, self.module.passive_data@.take(j as int)),
            decreases self.module.passive_data@.len() - j,
        {
            let ghost declared = self.module.passive_data@;
            let ghost before = data@;
            let index: u32 = self.module.passive_data[j].0;
            let bytes = vstd::slice::slice_to_vec(self.module.passive_data[j].1.as_slice());
            data.insert(index, bytes);
            proof {
                Self::data_step(before, declared, j as int, bytes);
            }
            j = j + 1;
        }
        assert(self.module.passive_data@.take(j as int) =~= self.module.passive_data@);
        self.passive_elements = elements;
        self.passive_data = data;
    }

    /// One more declared element segment, taken in.
    proof fn element_step(
        before: Map<u32, Vec<Option<VMFuncRef>>>,
        declared: Seq<(u32, Vec<u32>)>,
        functions: Seq<VMFuncRef>,
        i: int,
        refs: Vec<Option<VMFuncRef>>,
    )
        requires
            0 <= i < declared.len(),
            declared[i].1@.len() > 0,
            refs@ == func_refs(functions, declared[i].1@),
            elements_declared(before, declared.take(i), functions),
            elements_complete(before, declared.take(i)),
        ensures
            elements_declared(before.insert(declared[i].0, refs), declared.take(i + 1), functions),
            elements_complete(before.insert(declared[i].0, refs), declared.take(i + 1)),
    {
        let after = before.insert(declared[i].0, refs);
        assert forall|index: u32| #[trigger] after.contains_key(index) implies exists|k: int|
            0 <= k < declared.take(i + 1).len() && (#[trigger] declared.take(i + 1)[k]).0 == index
                && declared.take(i + 1)[k].1@.len() > 0 && after[index]@ == func_refs(
                functions,
                declared.take(i + 1)[k].1@,
            ) by {
            if index == declared[i].0 {
                assert(declared.take(i + 1)[i] == declared[i]);
            } else {
                assert(before.contains_key(index));
                let k = choose|k: int|
                    0 <= k < declared.take(i).len() && (#[trigger] declared.take(i)[k]).0 == index
                        && declared.take(i)[k].1@.len() > 0 && before[index]@ == func_refs(
                        functions,
                        declared.take(i)[k].1@,
                    );
                assert(declared.take(i + 1)[k] == declared.take(i)[k]);
            }
        }
        assert forall|k: int|
            0 <= k < declared.take(i + 1).len() && (#[trigger] declared.take(i + 1)[k]).1@.len()
                > 0 implies after.contains_key(declared.take(i + 1)[k].0) by {
            if k < i {
                assert(declared.take(i)[k] == declared.take(i + 1)[k]);
            }
        }
    }

    /// One more declared element segment, which has no elements.
    proof fn element_skip(
        before: Map<u32, Vec<Option<VMFuncRef>>>,
        declared: Seq<(u32, Vec<u32>)>,
        functions: Seq<VMFuncRef>,
        i: int,
    )
        requires
            0 <= i < declared.len(),
            declared[i].1@.len() == 0,
            elements_declared(before, declared.take(i), functions),
            elements_complete(before, declared.take(i)),
        ensures
            elements_declared(before, declared.take(i + 1), functions),
            elements_complete(before, declared.take(i + 1)),
    {
        assert forall|index: u32| #[trigger] before.contains_key(index) implies exists|k: int|
            0 <= k < declared.take(i + 1).len() && (#[trigger] declared.take(i + 1)[k]).0 == index
                && declared.take(i + 1)[k].1@.len() > 0 && before[index]@ == func_refs(
                functions,
                declared.take(i + 1)[k].1@,
            ) by {
            let k = choose|k: int|
                0 <= k < declared.take(i).len() && (#[trigger] declared.take(i)[k]).0 == index
                    && declared.take(i)[k].1@.len() > 0 && before[index]@ == func_refs(
                    functions,
                    declared.take(i)[k].1@,
                );
            assert(declared.take(i + 1)[k] == declared.take(i)[k]);
        }
        assert forall|k: int|
            0 <= k < declared.take(i + 1).len() && (#[trigger] declared.take(i + 1)[k]).1@.len()
                > 0 implies before.contains_key(declared.take(i + 1)[k].0) by {
            assert(k < i);
            assert(declared.take(i)[k] == declared.take(i + 1)[k]);
        }
    }

    /// One more declared data segment, taken in.
    proof fn data_step(
        before: Map<u32, Vec<u8>>,
        declared: Seq<(u32, Vec<u8>)>,
        i: int,
        bytes: Vec<u8>,
    )
        requires
            0 <= i < declared.len(),
            bytes@ == declared[i].1@,
            data_declared(before, declared.take(i)),
            data_complete(before, declared.take(i)),
        ensures
            data_declared(before.insert(declared[i].0, bytes), declared.take(i + 1)),
            data_complete(before.insert(declared[i].0, bytes), declared.take(i + 1)),
    {
        let after = before.insert(declared[i].0, bytes);
        assert forall|index: u32| #[trigger] after.contains_key(index) implies exists|k: int|
            0 <= k < declared.take(i + 1).len() && (#[trigger] declared.take(i + 1)[k]).0 == index
                && after[index]@ == declared.take(i + 1)[k].1@ by {
            if index == declared[i].0 {
                assert(declared.take(i + 1)[i] == declared[i]);
            } else {
                assert(before.contains_key(index));
                let k = choose|k: int|
                    0 <= k < declared.take(i).len() && (#[trigger] declared.take(i)[k]).0 == index
                        && before[index]@ == declared.take(i)[k].1@;
                assert(declared.take(i + 1)[k] == declared.take(i)[k]);
            }
        }
        assert forall|k: int| 0 <= k < declared.take(i + 1).len() implies after.contains_key(
            (#[trigger] declared.take(i + 1)[k]).0,
        ) by {
            if k < i {
                assert(declared.take(i)[k] == declared.take(i + 1)[k]);
            }
        }
    }

    /// Whether the instance has something of that kind under that index.
    pub open spec fn declares(&self, export: ExportIndex) -> bool {
        match export {
            ExportIndex::Function(index) => index < self.functions@.len(),
            ExportIndex::Memory(index) => index < self.imported_memories@.len()
                + self.memories@.len(),
            ExportIndex::Global(index) => index < self.imported_globals@.len()
                + self.globals@.len(),
            ExportIndex::Table(index) => index < self.imported_tables@.len() + self.tables@.len(),
        }
    }

    /// What the instance has under that index: imported objects come first.
    pub open spec fn declaration(&self, export: ExportIndex) -> VMExtern {
        match export {
            ExportIndex::Function(index) => VMExtern::Function(self.functions@[index as int]),
            ExportIndex::Memory(index) => VMExtern::Memory(
                (self.imported_memories@ + self.memories@)[index as int],
            ),
            ExportIndex::Global(index) => VMExtern::Global(
                (self.imported_globals@ + self.globals@)[index as int],
            ),
            ExportIndex::Table(index) => VMExtern::Table(
                (self.imported_tables@ + self.tables@)[index as int],
            ),
        }
    }

    /// What the instance has under that index, exported or not.
    pub fn lookup_by_declaration(&self, export: ExportIndex) -> (found: VMExtern)
        requires
            self.declares(export),
        ensures
            found == self.declaration(export),
            match export {
                ExportIndex::Function(n) => found == VMExtern::Function(self.functions@[n as int]),
                ExportIndex::Memory(n) => found == VMExtern::Memory(
                    if n < self.imported_memories@.len() {
                        self.imported_memories@[n as int]
                    } else {
                        self.memories@[n - self.imported_memories@.len()]
                    },
                ),
                ExportIndex::Global(n) => found == VMExtern::Global(
                    if n < self.imported_globals@.len() {
                        self.imported_globals@[n as int]
                    } else {
                        self.globals@[n - self.imported_globals@.len()]
                    },
                ),
                ExportIndex::Table(n) => found == VMExtern::Table(
                    if n < self.imported_tables@.len() {
                        self.imported_tables@[n as int]
                    } else {
                        self.tables@[n - self.imported_tables@.len()]
                    },
                ),
            },
    {
        match export {
            ExportIndex::Function(index) => VMExtern::Function(self.functions[index as usize]),
            ExportIndex::Memory(index) => VMExtern::Memory(
                nth_handle(&self.imported_memories, &self.memories, index),
            ),
            ExportIndex::Global(index) => VMExtern::Global(
                nth_handle(&self.imported_globals, &self.globals, index),
            ),
            ExportIndex::Table(index) => VMExtern::Table(
                nth_handle(&self.imported_tables, &self.tables, index),
            ),
        }
    }

    /// What the module exports under `name`, if anything.
    pub fn lookup(&self, name: &String) -> (found: Option<VMExtern>)
        requires
            self.module.wf(),
            forall|i: int|
                0 <= i < self.module.exports@.len() ==> self.declares(
                    (#[trigger] self.module.exports@[i]).1,
                ),
        ensures
            match found {
                Some(object) => exists|i: int|
                    0 <= i < self.module.exports@.len() && (#[trigger] self.module.exports@[i]).0@
                        == name@ && object == self.declaration(self.module.exports@[i].1),
                None => forall|i: int|
                    0 <= i < self.module.exports@.len() ==> (
                    #[trigger] self.module.exports@[i]).0@ != name@,
            },
    {
        let mut i: usize = 0;
        while i < self.module.exports.len()
            invariant
                i <= self.module.exports@.len(),
                forall|j: int|
                    0 <= j < self.module.exports@.len() ==> self.declares(
                        (#[trigger] self.module.exports@[j]).1,
                    ),
                forall|j: int|
                    0 <= j < i ==> (#[trigger] self.module.exports@[j]).0@ != name@,
            decreases self.module.exports@.len() - i,
        {
            if self.module.exports[i].0 == *name {
                return Some(self.lookup_by_declaration(self.module.exports[i].1));
            }
            i = i + 1;
        }
        None
    }

    /// Puts `element` into slot `slot` of the `k`-th defined table, and where
    /// indirect calls look.
    pub fn table_set(
        &mut self,
        ctx: &mut StoreObjects,
        k: usize,
        slot: usize,
        element: RawTableElement,
    )
        requires
            old(self).wf(old(ctx)),
            old(ctx).wf(),
            old(self).synced(old(ctx)),
            k < old(self).tables@.len(),
            slot < old(ctx).tables@[old(self).tables@[k as int] as int].elements@.len(),
        ensures
            final(ctx).wf(),
            final(self).wf(final(ctx)),
            final(self).synced(final(ctx)),
            final(self).same_makeup(old(self)),
            final(self).passive_elements == old(self).passive_elements,
            final(self).passive_data == old(self).passive_data,
            final(ctx).memories == old(ctx).memories,
            final(ctx).globals == old(ctx).globals,
            others_kept(old(ctx).tables@, final(ctx).tables@, seq![old(self).tables@[k as int]]),
            final(ctx).tables@[old(self).tables@[k as int] as int].elements@ == old(
                ctx,
            ).tables@[old(self).tables@[k as int] as int].elements@.update(slot as int, element),
            forall|j: int|
                0 <= j < old(self).dispatch@.len() && j != k ==> #[trigger] final(self).dispatch@[j]
                    == old(self).dispatch@[j],
            final(self).dispatch@[k as int] is Some == old(self).dispatch@[k as int] is Some,
    {
        let handle: usize = self.tables[k];
        ctx.tables[handle].elements[slot] = element;
        assert forall|i: int|
            0 <= i < ctx.tables@.len() && !seq![handle].contains(i as usize) implies
            #[trigger] ctx.tables@[i] == old(ctx).tables@[i] by {
            assert(seq![handle][0] == handle);
        }
        self.sync_fixed_funcref_table(ctx, k);
        assert forall|j: int| 0 <= j < self.tables@.len() && j != k implies match
        #[trigger] self.dispatch@[j] {
            Some(slots) => slots@ == ctx.tables@[self.tables@[j] as int].elements@,
            None => true,
        } by {
            assert(self.dispatch@[j] == old(self).dispatch@[j]);
            assert(self.tables@[j] != self.tables@[k as int]);
        }
    }

    /// What an indirect call through slot `slot` of the `k`-th defined table
    /// reaches. Where the table has slots of its own for that, only those are
    /// looked at.
    pub fn indirect_callee(&self, ctx: &StoreObjects, k: usize, slot: usize) -> (callee: Option<
        RawTableElement,
    >)
        requires
            self.wf(ctx),
            k < self.tables@.len(),
        ensures
            callee == ({
                let slots = match self.dispatch@[k as int] {
                    Some(own) => own@,
                    None => ctx.tables@[self.tables@[k as int] as int].elements@,
                };
                if slot < slots.len() {
                    Some(slots[slot as int])
                } else {
                    None
                }
            }),
    {
        let slots: &Vec<RawTableElement> = match &self.dispatch[k] {
            Some(own) => own,
            None => &ctx.tables[self.tables[k]].elements,
        };
        if slot < slots.len() {
            Some(slots[slot])
        } else {
            None
        }
    }

    /// The bytes of a passive data segment, unless it was dropped or never
    /// declared.
    pub fn passive_data_segment(&self, index: u32) -> (bytes: Option<&Vec<u8>>)
        ensures
            match bytes {
                Some(found) => self.passive_data@.contains_key(index) && *found
                    == self.passive_data@[index],
                None => !self.passive_data@.contains_key(index),
            },
    {
        self.passive_data.get(&index)
    }

    /// The functions of a passive element segment, unless it was dropped, is
    /// empty or was never declared.
    pub fn passive_element_segment(&self, index: u32) -> (functions: Option<
        &Vec<Option<VMFuncRef>>,
    >)
        ensures
            match functions {
                Some(found) => self.passive_elements@.contains_key(index) && *found
                    == self.passive_elements@[index],
                None => !self.passive_elements@.contains_key(index),
            },
    {
        self.passive_elements.get(&index)
    }

    /// Drops a passive data segment.
    pub fn data_drop(&mut self, index: u32)
        requires
            old(self).segments_wf(),
        ensures
            final(self).segments_wf(),
            final(self).same_makeup(old(self)),
            final(self).dispatch == old(self).dispatch,
            final(self).passive_elements == old(self).passive_elements,
            final(self).passive_data@ == old(self).passive_data@.remove(index),
    {
        let ghost before = self.passive_data@;
        self.passive_data.remove(&index);
        proof {
            assert(self.passive_data@ == before.remove(index));
            assert forall|i: u32| #[trigger] self.passive_data@.contains_key(i) implies exists|
                k: int,
            |
                0 <= k < self.module.passive_data@.len() && (
                #[trigger] self.module.passive_data@[k]).0 == i && self.passive_data@[i]@
                    == self.module.passive_data@[k].1@ by {
                assert(before.contains_key(i));
                let k = choose|k: int|
                    0 <= k < self.module.passive_data@.len() && (
                    #[trigger] self.module.passive_data@[k]).0 == i && before[i]@
                        == self.module.passive_data@[k].1@;
                assert(self.module.passive_data@[k].0 == i);
            }
        }
    }

    /// Drops a passive element segment.
    pub fn elem_drop(&mut self, index: u32)
        requires
            old(self).segments_wf(),
        ensures
            final(self).segments_wf(),
            final(self).same_makeup(old(self)),
            final(self).dispatch == old(self).dispatch,
            final(self).passive_elements@ == old(self).passive_elements@.remove(index),
            final(self).passive_data == old(self).passive_data,
    {
        let ghost before = self.passive_elements@;
        self.passive_elements.remove(&index);
        proof {
            assert(self.passive_elements@ == before.remove(index));
            assert forall|i: u32| #[trigger] self.passive_elements@.contains_key(i) implies exists|
                k: int,
            |
                0 <= k < self.module.passive_elements@.len() && (
                #[trigger] self.module.passive_elements@[k]).0 == i
                    && self.module.passive_elements@[k].1@.len() > 0 && self.passive_elements@[i]@
                    == func_refs(self.functions@, self.module.passive_elements@[k].1@) by {
                assert(before.contains_key(i));
                let k = choose|k: int|
                    0 <= k < self.module.passive_elements@.len() && (
                    #[trigger] self.module.passive_elements@[k]).0 == i
                        && self.module.passive_elements@[k].1@.len() > 0 && before[i]@ == func_refs(
                        self.functions@,
                        self.module.passive_elements@[k].1@,
                    );
                assert(self.module.passive_elements@[k].0 == i);
            }
        }
    }
}

/// Each object that an instance defines is in the store under the handle that the
/// instance has for it, behind all objects that were there, which keep their handles.
pub proof fn defined_objects_are_behind_their_handles<T>(
    before: Seq<T>,
    defined: Seq<T>,
    handles: Seq<usize>,
    k: int,
)
    requires
        before.len() + defined.len() <= usize::MAX,
        handles == fresh_handles(before.len(), defined.len()),
        0 <= k < defined.len(),
    ensures
        handles.len() == defined.len(),
        handles[k] == before.len() + k,
        (before + defined)[handles[k] as int] == defined[k],
{
}

} // verus!
