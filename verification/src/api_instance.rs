//! Instances as an embedder holds them, whatever the runtime.

use crate::api_store::{
    Backend, EngineError, Exports, Global, InstantiationError, LinkError, Module, RuntimeError,
    RuntimeModel, Store, StoreHandle,
};
use crate::error::{ErrorModel, MemoryError};
use crate::instance::VMInstance;
use crate::snapshot::{outcome, VMInstanceSnapshot, VMTablesSnapshot};
use crate::sys_instance;
use crate::sys_instance::{fresh_instance, instantiated, only_instance_changed};
use vstd::prelude::*;

verus! {

/// An instance of a runtime that is not compiled code in this process, by the
/// number under which that runtime knows it.
#[derive(Copy, Clone, Debug, PartialEq, Eq, Structural)]
pub struct ForeignInstance(pub u64);

/// An instance, by its runtime.
#[derive(Copy, Clone, Debug, PartialEq, Eq, Structural)]
pub enum BackendInstance {
    /// Compiled code, run in this process.
    Sys(sys_instance::Instance),
    /// The V8 engine.
    V8(ForeignInstance),
    /// A JavaScript host.
    Js(ForeignInstance),
}

impl BackendInstance {
    /// The `sys` instance that this is.
    pub fn into_sys(self) -> (instance: sys_instance::Instance)
        requires
            self is Sys,
        ensures
            self == BackendInstance::Sys(instance),
    {
        match self {
            BackendInstance::Sys(instance) => instance,
            _ => vstd::pervasive::unreached(),
        }
    }
}

/// What a runtime answers when it is asked for an instance.
pub enum Instantiation {
    /// The engine for compiled code.
    Sys(Result<VMInstance, EngineError>),
    /// The V8 engine.
    V8(Result<(ForeignInstance, Exports), InstantiationError>),
    /// A JavaScript host.
    Js(Result<(ForeignInstance, Exports), InstantiationError>),
}

impl Instantiation {
    /// The runtime that answered.
    pub open spec fn backend(&self) -> Backend {
        match *self {
            Instantiation::Sys(_) => Backend::Sys,
            Instantiation::V8(_) => Backend::V8,
            Instantiation::Js(_) => Backend::Js,
        }
    }

    /// The answer is from the store's runtime, and an instance of compiled code
    /// can go into the store.
    pub open spec fn fits(&self, store: &Store, module: &Module) -> bool {
        &&& self.backend() == store.backend
        &&& self matches Instantiation::Sys(Ok(made)) ==> fresh_instance(store, module, &made)
    }
}

/// An instance of a module.
#[derive(Clone, Debug, PartialEq, Eq)]
pub struct Instance {
    /// The instance itself.
    pub inner: BackendInstance,
    /// Its module.
    pub module: Module,
    /// What it exports.
    pub exports: Exports,
}

/// What an instance could change, as it was at one moment.
pub struct InstanceSnapshot {
    /// The snapshot itself.
    pub inner: VMInstanceSnapshot,
}

/// The slots of an instance's tables, as they were at one moment.
pub struct TablesSnapshot {
    /// The snapshot itself.
    pub inner: VMTablesSnapshot,
}

impl InstanceSnapshot {
    /// How many memories, globals and tables the snapshot holds, in words; see
    /// [`VMInstanceSnapshot::describe`].
    pub fn describe(&self) -> (text: String)
        ensures
            text@ == self.inner.description(),
    {
        self.inner.describe()
    }
}

impl TablesSnapshot {
    /// How many tables the snapshot holds, in words; see
    /// [`VMTablesSnapshot::describe`].
    pub fn describe(&self) -> (text: String)
        ensures
            text@ == self.inner.description(),
    {
        self.inner.describe()
    }
}

/// What becomes of a runtime's answer: an instance of `module` with its exports,
/// or its reason; in that case the store is as it was.
pub open spec fn made_from(
    pre: &Store,
    post: &Store,
    module: &Module,
    answer: Instantiation,
    result: Result<Instance, InstantiationError>,
) -> bool {
    match answer {
        Instantiation::Sys(engine) => match result {
            Ok(instance) => {
                &&& instance.module == *module
                &&& instance.inner matches BackendInstance::Sys(sys) && instantiated(
                    pre,
                    post,
                    module,
                    engine,
                    Ok((sys, instance.exports)),
                )
            },
            Err(error) => instantiated(pre, post, module, engine, Err(error)),
        },
        Instantiation::V8(Ok((foreign, exports))) => {
            &&& *post == *pre
            &&& result matches Ok(instance) && instance.inner == BackendInstance::V8(foreign)
                && instance.module == *module && instance.exports == exports
        },
        Instantiation::Js(Ok((foreign, exports))) => {
            &&& *post == *pre
            &&& result matches Ok(instance) && instance.inner == BackendInstance::Js(foreign)
                && instance.module == *module && instance.exports == exports
        },
        Instantiation::V8(Err(reason)) => {
            &&& *post == *pre
            &&& result matches Err(error) && error == reason
        },
        Instantiation::Js(Err(reason)) => {
            &&& *post == *pre
            &&& result matches Err(error) && error == reason
        },
    }
}

/// The error of a reset, as the memory's error that it reports.
pub open spec fn reset_outcome(result: Result<(), RuntimeError>) -> Option<
    Result<(), ErrorModel>,
> {
    match result {
        Ok(_) => Some(Ok(())),
        Err(error) => match error@ {
            RuntimeModel::Memory(memory) => Some(Err(memory)),
            RuntimeModel::Message(_) => None,
        },
    }
}

/// The answer of an instance of another runtime.
pub open spec fn sys_only<T>(result: Result<T, RuntimeError>, message: &str) -> bool {
    result matches Err(error) && error@ == RuntimeModel::Message(message@)
}

/// An instance of compiled code, as one of any runtime.
fn sys_made(result: Result<(sys_instance::Instance, Exports), InstantiationError>) -> (made: Result<
    (BackendInstance, Exports),
    InstantiationError,
>)
    ensures
        match (result, made) {
            (Ok((sys, exports)), Ok((inner, kept))) => inner == BackendInstance::Sys(sys) && kept
                == exports,
            (Err(error), Err(kept)) => kept == error,
            _ => false,
        },
{
    match result {
        Ok((sys, exports)) => Ok((BackendInstance::Sys(sys), exports)),
        Err(error) => Err(error),
    }
}

/// The memory's error, as a failure of running something.
fn report(result: Result<(), MemoryError>) -> (reported: Result<(), RuntimeError>)
    ensures
        reset_outcome(reported) == Some(outcome(result)),
{
    match result {
        Ok(_) => Ok(()),
        Err(error) => Err(RuntimeError::Memory(error)),
    }
}

impl Instance {
    /// The instance is in that store, if it is one of compiled code.
    pub open spec fn belongs(&self, store: &Store) -> bool {
        self.inner matches BackendInstance::Sys(sys) ==> sys.belongs(store)
    }

    /// Makes an instance of `module` from the answer of the store's runtime. If
    /// the imports could not be resolved, the engine for compiled code was not
    /// asked.
    pub fn new(
        store: &mut Store,
        module: &Module,
        answer: Result<Instantiation, LinkError>,
    ) -> (result: Result<Instance, InstantiationError>)
        requires
            old(store).wf(),
            old(store).instances@.len() < usize::MAX,
            match answer {
                Ok(given) => given.fits(old(store), module),
                Err(_) => old(store).backend is Sys,
            },
        ensures
            final(store).wf(),
            match answer {
                Ok(given) => made_from(old(store), final(store), module, given, result),
                Err(link) => result matches Err(error) && error == InstantiationError::Link(link)
                    && *final(store) == *old(store),
            },
    {
        let made = match answer {
            Ok(Instantiation::Sys(engine)) => sys_made(
                sys_instance::Instance::new(store, module, Ok(engine)),
            ),
            Err(link) => sys_made(sys_instance::Instance::new(store, module, Err(link))),
            Ok(Instantiation::V8(Ok((foreign, exports)))) => Ok(
                (BackendInstance::V8(foreign), exports),
            ),
            Ok(Instantiation::Js(Ok((foreign, exports)))) => Ok(
                (BackendInstance::Js(foreign), exports),
            ),
            Ok(Instantiation::V8(Err(error))) => Err(error),
            Ok(Instantiation::Js(Err(error))) => Err(error),
        };
        match made {
            Ok((inner, exports)) => Ok(Instance { inner, module: module.handle(), exports }),
            Err(error) => Err(error),
        }
    }

    /// Makes an instance of `module` from the answer of the store's runtime, which
    /// was given the imports in order.
    pub fn new_by_index(store: &mut Store, module: &Module, answer: Instantiation) -> (result:
        Result<Instance, InstantiationError>)
        requires
            old(store).wf(),
            old(store).instances@.len() < usize::MAX,
            answer.fits(old(store), module),
        ensures
            final(store).wf(),
            made_from(old(store), final(store), module, answer, result),
    {
        let made = match answer {
            Instantiation::Sys(engine) => sys_made(
                sys_instance::Instance::new_by_index(store, module, engine),
            ),
            Instantiation::V8(Ok((foreign, exports))) => Ok(
                (BackendInstance::V8(foreign), exports),
            ),
            Instantiation::Js(Ok((foreign, exports))) => Ok(
                (BackendInstance::Js(foreign), exports),
            ),
            Instantiation::V8(Err(error)) => Err(error),
            Instantiation::Js(Err(error)) => Err(error),
        };
        match made {
            Ok((inner, exports)) => Ok(Instance { inner, module: module.handle(), exports }),
            Err(error) => Err(error),
        }
    }

    /// The module that this is an instance of.
    pub fn module(&self) -> (module: &Module)
        ensures
            *module == self.module,
    {
        &self.module
    }

    /// A handle of every global that the instance defines, exported or not: a
    /// global that is not exported changes too, and must be put back as well when
    /// an instance is used again. Other runtimes have none to show.
    pub fn defined_globals(&self, store: &Store) -> (globals: Vec<Global>)
        requires
            store.wf(),
            self.belongs(store),
            self.inner matches BackendInstance::Sys(sys) ==> sys.in_store(store).module
                == self.module.info,
            self.module.info.num_globals <= u32::MAX,
        ensures
            match self.inner {
                BackendInstance::Sys(sys) => globals@ == Seq::new(
                    sys.in_store(store).globals@.len(),
                    |k: int|
                        Global {
                            handle: StoreHandle {
                                store_id: store.id,
                                index: sys.in_store(store).globals@[k],
                            },
                        },
                ),
                _ => globals@.len() == 0,
            },
    {
        let start: usize = self.module.info.num_imported_globals;
        let end: usize = self.module.info.num_globals;
        match &self.inner {
            BackendInstance::Sys(sys) => {
                let globals = sys.defined_globals(store, start, end);
                assert(globals@ =~= Seq::new(
                    sys.in_store(store).globals@.len(),
                    |k: int|
                        Global {
                            handle: StoreHandle {
                                store_id: store.id,
                                index: sys.in_store(store).globals@[k],
                            },
                        },
                ));
                globals
            },
            _ => Vec::new(),
        }
    }

    /// Captures the memories, globals and tables that the instance defines, so
    /// that it can be reset and used again. Take the snapshot when the instance
    /// is in the state that every use is to start from.
    pub fn snapshot(&self, store: &Store, cow_disabled: bool) -> (snapshot: Result<
        InstanceSnapshot,
        RuntimeError,
    >)
        requires
            store.wf(),
            self.belongs(store),
        ensures
            match self.inner {
                BackendInstance::Sys(sys) => snapshot matches Ok(taken) && taken.inner.wf()
                    && taken.inner.holds(&sys.in_store(store), &store.objects, !cow_disabled),
                _ => sys_only(snapshot, "Instance::snapshot is only supported on the sys backend"),
            },
    {
        match &self.inner {
            BackendInstance::Sys(sys) => Ok(
                InstanceSnapshot { inner: sys.snapshot(store, cow_disabled) },
            ),
            _ => Err(
                RuntimeError::new("Instance::snapshot is only supported on the sys backend"),
            ),
        }
    }

    /// Captures the instance with copies of its memories' bytes, as
    /// [`reset_to_snapshot_bounded`](Instance::reset_to_snapshot_bounded) needs
    /// it.
    pub fn snapshot_eager(&self, store: &Store) -> (snapshot: Result<
        InstanceSnapshot,
        RuntimeError,
    >)
        requires
            store.wf(),
            self.belongs(store),
        ensures
            match self.inner {
                BackendInstance::Sys(sys) => snapshot matches Ok(taken) && taken.inner.wf()
                    && taken.inner.holds(&sys.in_store(store), &store.objects, false),
                _ => sys_only(
                    snapshot,
                    "Instance::snapshot_eager is only supported on the sys backend",
                ),
            },
    {
        match &self.inner {
            BackendInstance::Sys(sys) => Ok(InstanceSnapshot { inner: sys.snapshot_eager(store) }),
            _ => Err(
                RuntimeError::new("Instance::snapshot_eager is only supported on the sys backend"),
            ),
        }
    }

    /// Resets the instance: every change of a memory, global or table since the
    /// snapshot is undone, and every dropped segment is back.
    pub fn reset_to_snapshot(&self, store: &mut Store, snapshot: &InstanceSnapshot) -> (result:
        Result<(), RuntimeError>)
        requires
            old(store).wf(),
            self.belongs(old(store)),
            snapshot.inner.wf(),
            self.inner matches BackendInstance::Sys(sys) ==> snapshot.inner.fits(
                &sys.in_store(old(store)),
                &old(store).objects,
            ),
        ensures
            final(store).wf(),
            match self.inner {
                BackendInstance::Sys(sys) => {
                    &&& only_instance_changed(old(store), final(store), sys.handle.index as int)
                    &&& reset_outcome(result) matches Some(given) && snapshot.inner.reset(
                        &sys.in_store(old(store)),
                        &sys.in_store(final(store)),
                        &old(store).objects,
                        &final(store).objects,
                        None,
                        given,
                    )
                },
                _ => *final(store) == *old(store) && sys_only(
                    result,
                    "Instance::reset_to_snapshot is only supported on the sys backend",
                ),
            },
    {
        match &self.inner {
            BackendInstance::Sys(sys) => report(sys.reset_to_snapshot(store, &snapshot.inner)),
            _ => Err(
                RuntimeError::new(
                    "Instance::reset_to_snapshot is only supported on the sys backend",
                ),
            ),
        }
    }

    /// Resets the instance, touching of each memory only the bytes below
    /// `mem_dirty_bytes`: the caller knows that what lies above is as it was.
    /// Globals, tables and passive segments are put back in full.
    pub fn reset_to_snapshot_bounded(
        &self,
        store: &mut Store,
        snapshot: &InstanceSnapshot,
        mem_dirty_bytes: usize,
    ) -> (result: Result<(), RuntimeError>)
        requires
            old(store).wf(),
            self.belongs(old(store)),
            snapshot.inner.wf(),
        ensures
            final(store).wf(),
            match self.inner {
                BackendInstance::Sys(sys) => {
                    &&& only_instance_changed(old(store), final(store), sys.handle.index as int)
                    &&& reset_outcome(result) matches Some(given) && snapshot.inner.reset(
                        &sys.in_store(old(store)),
                        &sys.in_store(final(store)),
                        &old(store).objects,
                        &final(store).objects,
                        Some(mem_dirty_bytes),
                        given,
                    )
                },
                _ => *final(store) == *old(store) && sys_only(
                    result,
                    "Instance::reset_to_snapshot_bounded is only supported on the sys backend",
                ),
            },
    {
        match &self.inner {
            BackendInstance::Sys(sys) => report(
                sys.reset_to_snapshot_bounded(store, &snapshot.inner, mem_dirty_bytes),
            ),
            _ => Err(
                RuntimeError::new(
                    "Instance::reset_to_snapshot_bounded is only supported on the sys backend",
                ),
            ),
        }
    }

    /// Captures the tables alone, for embedders that put memories and globals
    /// back by themselves.
    pub fn snapshot_tables(&self, store: &Store) -> (snapshot: Result<TablesSnapshot, RuntimeError>)
        requires
            store.wf(),
            self.belongs(store),
        ensures
            match self.inner {
                BackendInstance::Sys(sys) => snapshot matches Ok(taken) && taken.inner.holds(
                    &sys.in_store(store),
                    &store.objects,
                ),
                _ => sys_only(
                    snapshot,
                    "Instance::snapshot_tables is only supported on the sys backend",
                ),
            },
    {
        match &self.inner {
            BackendInstance::Sys(sys) => Ok(TablesSnapshot { inner: sys.snapshot_tables(store) }),
            _ => Err(
                RuntimeError::new("Instance::snapshot_tables is only supported on the sys backend"),
            ),
        }
    }

    /// Puts the tables back, in size as well.
    pub fn reset_tables(&self, store: &mut Store, snapshot: &TablesSnapshot) -> (result: Result<
        (),
        RuntimeError,
    >)
        requires
            old(store).wf(),
            self.belongs(old(store)),
        ensures
            final(store).wf(),
            match self.inner {
                BackendInstance::Sys(sys) => {
                    &&& only_instance_changed(old(store), final(store), sys.handle.index as int)
                    &&& reset_outcome(result) matches Some(given) && snapshot.inner.reset(
                        &sys.in_store(old(store)),
                        &sys.in_store(final(store)),
                        &old(store).objects,
                        &final(store).objects,
                        given,
                    )
                },
                _ => *final(store) == *old(store) && sys_only(
                    result,
                    "Instance::reset_tables is only supported on the sys backend",
                ),
            },
    {
        match &self.inner {
            BackendInstance::Sys(sys) => report(sys.reset_tables(store, &snapshot.inner)),
            _ => Err(
                RuntimeError::new("Instance::reset_tables is only supported on the sys backend"),
            ),
        }
    }
}

} // verus!
