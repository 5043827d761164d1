//! Instances of the `sys` runtime.

use crate::api_store::{
    EngineError, Exports, Extern, Global, InstantiationError, LinkError, Module, Store, StoreHandle,
};
use crate::error::MemoryError;
use crate::instance::VMInstance;
use crate::module::ExportIndex;
use crate::snapshot::{outcome, VMInstanceSnapshot, VMTablesSnapshot};
use vstd::prelude::*;

verus! {

/// An instance of the `sys` runtime, by its place in a store.
#[derive(Copy, Clone, Debug, PartialEq, Eq, Structural)]
pub struct Instance {
    /// Where it is.
    pub handle: StoreHandle,
}

/// An engine's instance of `module` that can go into the store: it is in order,
/// and everything that the module exports exists.
pub open spec fn fresh_instance(store: &Store, module: &Module, made: &VMInstance) -> bool {
    &&& made.wf(&store.objects)
    &&& made.module == module.info
    &&& forall|i: int|
        0 <= i < module.info.exports@.len() ==> made.declares(
            (#[trigger] module.info.exports@[i]).1,
        )
}

/// `exported` is the object with the index `export` of its kind among the lists of
/// `made`: imported ones come first, and those that the instance defines after them.
pub open spec fn is_object(
    store_id: u64,
    made: &VMInstance,
    export: ExportIndex,
    exported: Extern,
) -> bool {
    match (export, exported) {
        (ExportIndex::Function(n), Extern::Function(function)) => {
            &&& function.store_id == store_id
            &&& n < made.functions@.len()
            &&& function.reference == made.functions@[n as int]
        },
        (ExportIndex::Memory(n), Extern::Memory(handle)) => {
            &&& handle.store_id == store_id
            &&& handle.index == if n < made.imported_memories@.len() {
                made.imported_memories@[n as int]
            } else {
                made.memories@[n - made.imported_memories@.len()]
            }
        },
        (ExportIndex::Global(n), Extern::Global(global)) => {
            &&& global.handle.store_id == store_id
            &&& global.handle.index == if n < made.imported_globals@.len() {
                made.imported_globals@[n as int]
            } else {
                made.globals@[n - made.imported_globals@.len()]
            }
        },
        (ExportIndex::Table(n), Extern::Table(handle)) => {
            &&& handle.store_id == store_id
            &&& handle.index == if n < made.imported_tables@.len() {
                made.imported_tables@[n as int]
            } else {
                made.tables@[n - made.imported_tables@.len()]
            }
        },
        _ => false,
    }
}

/// The exports of `made`, an instance of `module`.
pub open spec fn exports_of(store_id: u64, module: &Module, made: &VMInstance, exports: Seq<
    (String, Extern),
>) -> bool {
    &&& exports.len() == module.info.exports@.len()
    &&& forall|i: int|
        0 <= i < exports.len() ==> (#[trigger] exports[i]).0@ == module.info.exports@[i].0@
            && exports[i].1 == Extern::of(
            store_id,
            made.declaration(module.info.exports@[i].1),
        ) && is_object(store_id, made, module.info.exports@[i].1, exports[i].1)
}

/// What becomes of the engine's answer: its instance is the store's last one
/// now, or its reason is handed on and the store is as it was.
pub open spec fn instantiated(
    pre: &Store,
    post: &Store,
    module: &Module,
    answer: Result<VMInstance, EngineError>,
    result: Result<(Instance, Exports), InstantiationError>,
) -> bool {
    match (answer, result) {
        (Ok(made), Ok((instance, exports))) => {
            &&& instance.handle == (StoreHandle {
                store_id: pre.id,
                index: pre.instances@.len() as usize,
            })
            &&& exports_of(pre.id, module, &made, exports.list@)
            &&& post.id == pre.id
            &&& post.backend == pre.backend
            &&& post.objects == pre.objects
            &&& post.instances@ == pre.instances@.push(made)
        },
        (Err(reason), Err(error)) => error == InstantiationError::of(reason) && *post == *pre,
        _ => false,
    }
}

/// All but one instance, and what is fixed of the store, is the same.
pub open spec fn only_instance_changed(pre: &Store, post: &Store, index: int) -> bool {
    &&& post.id == pre.id
    &&& post.backend == pre.backend
    &&& post.instances@.len() == pre.instances@.len()
    &&& forall|i: int|
        0 <= i < pre.instances@.len() && i != index ==> #[trigger] post.instances@[i]
            == pre.instances@[i]
}

/// The handles of an instance's globals with an index in `[start, end)`,
/// imported ones first.
pub open spec fn global_handles(
    store_id: u64,
    instance: &VMInstance,
    start: int,
    end: int,
) -> Seq<Global> {
    Seq::new(
        if start <= end {
            (end - start) as nat
        } else {
            0
        },
        |k: int|
            Global {
                handle: StoreHandle {
                    store_id,
                    index: (instance.imported_globals@ + instance.globals@)[start + k],
                },
            },
    )
}

impl Instance {
    /// The handle leads into that store.
    pub open spec fn belongs(&self, store: &Store) -> bool {
        self.handle.store_id == store.id && self.handle.index < store.instances@.len()
    }

    /// The instance itself.
    pub open spec fn in_store(&self, store: &Store) -> VMInstance {
        store.instances@[self.handle.index as int]
    }

    /// Takes the engine's answer, once the imports were resolved; if they could
    /// not be, the engine was not asked.
    pub fn new(
        store: &mut Store,
        module: &Module,
        answer: Result<Result<VMInstance, EngineError>, LinkError>,
    ) -> (result: Result<(Instance, Exports), InstantiationError>)
        requires
            old(store).wf(),
            old(store).instances@.len() < usize::MAX,
            answer matches Ok(Ok(made)) ==> fresh_instance(old(store), module, &made),
        ensures
            final(store).wf(),
            match answer {
                Err(link) => result matches Err(error) && error == InstantiationError::Link(link)
                    && *final(store) == *old(store),
                Ok(engine) => instantiated(old(store), final(store), module, engine, result),
            },
    {
        match answer {
            Ok(engine) => Instance::new_by_index(store, module, engine),
            Err(link) => Err(InstantiationError::Link(link)),
        }
    }

    /// Takes the engine's answer.
    pub fn new_by_index(
        store: &mut Store,
        module: &Module,
        answer: Result<VMInstance, EngineError>,
    ) -> (result: Result<(Instance, Exports), InstantiationError>)
        requires
            old(store).wf(),
            old(store).instances@.len() < usize::MAX,
            answer matches Ok(made) ==> fresh_instance(old(store), module, &made),
        ensures
            final(store).wf(),
            instantiated(old(store), final(store), module, answer, result),
    {
        let made = match answer {
            Ok(made) => made,
            Err(error) => {
                return Err(InstantiationError::from(error));
            },
        };
        let exports = Instance::get_exports(store.id, module, &made);
        let handle = StoreHandle { store_id: store.id, index: store.instances.len() };
        store.instances.push(made);
        Ok((Instance { handle }, exports))
    }

    /// The exports of `made`, an instance of `module`, each looked up by name.
    fn get_exports(store_id: u64, module: &Module, made: &VMInstance) -> (exports: Exports)
        requires
            made.module.wf(),
            made.module == module.info,
            forall|i: int|
                0 <= i < module.info.exports@.len() ==> made.declares(
                    (#[trigger] module.info.exports@[i]).1,
                ),
        ensures
            exports_of(store_id, module, made, exports.list@),
    {
        let mut list: Vec<(String, Extern)> = Vec::new();
        let mut i: usize = 0;
        while i < module.info.exports.len()
            invariant
                made.module.wf(),
                made.module == module.info,
                forall|j: int|
                    0 <= j < module.info.exports@.len() ==> made.declares(
                        (#[trigger] module.info.exports@[j]).1,
                    ),
                i <= module.info.exports@.len(),
                list@.len() == i,
                forall|j: int|
                    0 <= j < i ==> (#[trigger] list@[j]).0@ == module.info.exports@[j].0@
                        && list@[j].1 == Extern::of(
                        store_id,
                        made.declaration(module.info.exports@[j].1),
                    ),
            decreases module.info.exports@.len() - i,
        {
            let name = module.info.exports[i].0.clone();
            if let Some(object) = made.lookup(&name) {
                list.push((name, Extern::from_vm_extern(store_id, object)));
            } else {
                assert(module.info.exports@[i as int].0@ == name@);
                assert(false);
            }
            i = i + 1;
        }
        Exports { list }
    }

    /// A handle of every global of the instance with an index in `[start, end)`,
    /// exported or not.
    pub fn defined_globals(&self, store: &Store, start: usize, end: usize) -> (globals: Vec<Global>)
        requires
            self.belongs(store),
            start <= end ==> end <= self.in_store(store).imported_globals@.len() + self.in_store(
                store,
            ).globals@.len(),
            end <= u32::MAX,
        ensures
            globals@ == global_handles(store.id, &self.in_store(store), start as int, end as int),
    {
        let mut out: Vec<Global> = Vec::new();
        let mut index: usize = start;
        while index < end
            invariant
                self.belongs(store),
                start <= end ==> end <= self.in_store(store).imported_globals@.len()
                    + self.in_store(store).globals@.len(),
                end <= u32::MAX,
                start <= index,
                index <= end || index == start,
                out@ == global_handles(
                    store.id,
                    &self.in_store(store),
                    start as int,
                    index as int,
                ),
            decreases end - index,
        {
            let object = store.instances[self.handle.index].lookup_by_declaration(
                ExportIndex::Global(index as u32),
            );
            if let Extern::Global(global) = Extern::from_vm_extern(store.id, object) {
                out.push(global);
            }
            index = index + 1;
            assert(out@ =~= global_handles(
                store.id,
                &self.in_store(store),
                start as int,
                index as int,
            ));
        }
        assert(out@ =~= global_handles(
            store.id,
            &self.in_store(store),
            start as int,
            end as int,
        ));
        out
    }

    /// Captures the instance; see [`VMInstance::snapshot`].
    pub fn snapshot(&self, store: &Store, cow_disabled: bool) -> (snapshot: VMInstanceSnapshot)
        requires
            store.wf(),
            self.belongs(store),
        ensures
            snapshot.wf(),
            snapshot.holds(&self.in_store(store), &store.objects, !cow_disabled),
    {
        store.instances[self.handle.index].snapshot(&store.objects, cow_disabled)
    }

    /// Captures the instance with copies of its memories; see
    /// [`VMInstance::snapshot_eager`].
    pub fn snapshot_eager(&self, store: &Store) -> (snapshot: VMInstanceSnapshot)
        requires
            store.wf(),
            self.belongs(store),
        ensures
            snapshot.wf(),
            snapshot.holds(&self.in_store(store), &store.objects, false),
    {
        store.instances[self.handle.index].snapshot_eager(&store.objects)
    }

    /// Resets the instance; see [`VMInstance::reset_to_snapshot`].
    pub fn reset_to_snapshot(&self, store: &mut Store, snapshot: &VMInstanceSnapshot) -> (result:
        Result<(), MemoryError>)
        requires
            old(store).wf(),
            self.belongs(old(store)),
            snapshot.wf(),
            snapshot.fits(&self.in_store(old(store)), &old(store).objects),
        ensures
            final(store).wf(),
            only_instance_changed(old(store), final(store), self.handle.index as int),
            snapshot.reset(
                &self.in_store(old(store)),
                &self.in_store(final(store)),
                &old(store).objects,
                &final(store).objects,
                None,
                outcome(result),
            ),
    {
        store.instances[self.handle.index].reset_to_snapshot(&mut store.objects, snapshot)
    }

    /// Resets the instance up to a bound; see
    /// [`VMInstance::reset_to_snapshot_bounded`].
    pub fn reset_to_snapshot_bounded(
        &self,
        store: &mut Store,
        snapshot: &VMInstanceSnapshot,
        mem_dirty_bytes: usize,
    ) -> (result: Result<(), MemoryError>)
        requires
            old(store).wf(),
            self.belongs(old(store)),
            snapshot.wf(),
        ensures
            final(store).wf(),
            only_instance_changed(old(store), final(store), self.handle.index as int),
            snapshot.reset(
                &self.in_store(old(store)),
                &self.in_store(final(store)),
                &old(store).objects,
                &final(store).objects,
                Some(mem_dirty_bytes),
                outcome(result),
            ),
    {
        store.instances[self.handle.index].reset_to_snapshot_bounded(
            &mut store.objects,
            snapshot,
            mem_dirty_bytes,
        )
    }

    /// Captures the tables; see [`VMInstance::snapshot_tables`].
    pub fn snapshot_tables(&self, store: &Store) -> (snapshot: VMTablesSnapshot)
        requires
            store.wf(),
            self.belongs(store),
        ensures
            snapshot.holds(&self.in_store(store), &store.objects),
    {
        store.instances[self.handle.index].snapshot_tables(&store.objects)
    }

    /// Puts the tables back; see [`VMInstance::reset_tables`].
    pub fn reset_tables(&self, store: &mut Store, snapshot: &VMTablesSnapshot) -> (result: Result<
        (),
        MemoryError,
    >)
        requires
            old(store).wf(),
            self.belongs(old(store)),
        ensures
            final(store).wf(),
            only_instance_changed(old(store), final(store), self.handle.index as int),
            snapshot.reset(
                &self.in_store(old(store)),
                &self.in_store(final(store)),
                &old(store).objects,
                &final(store).objects,
                outcome(result),
            ),
    {
        store.instances[self.handle.index].reset_tables(&mut store.objects, snapshot)
    }
}

} // verus!
