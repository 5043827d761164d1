//! Stores as an embedder holds them, and the handles that lead into them.

use crate::error::{ErrorModel, MemoryError};
use crate::instance::VMInstance;
use crate::module::ModuleInfo;
use crate::store::{StoreObjects, VMExtern};
use crate::table::VMFuncRef;
use std::sync::Arc;
use vstd::prelude::*;

verus! {

/// The runtime that a store belongs to.
#[derive(Copy, Clone, Debug, PartialEq, Eq, Structural)]
pub enum Backend {
    /// Compiled code, run in this process.
    Sys,
    /// The V8 engine.
    V8,
    /// A JavaScript host.
    Js,
}

/// A store: objects and the instances that they belong to.
pub struct Store {
    /// The number that tells stores apart.
    pub id: u64,
    /// The runtime.
    pub backend: Backend,
    /// Memories, globals and tables.
    pub objects: StoreObjects,
    /// The instances of the `sys` runtime.
    pub instances: Vec<VMInstance>,
}

impl Store {
    /// Every object and every instance is in order.
    pub open spec fn wf(&self) -> bool {
        &&& self.objects.wf()
        &&& forall|i: int|
            0 <= i < self.instances@.len() ==> (#[trigger] self.instances@[i]).wf(&self.objects)
    }

    /// An empty store.
    pub fn new(id: u64, backend: Backend) -> (store: Store)
        ensures
            store.wf(),
            store.id == id,
            store.backend == backend,
            store.objects.memories@.len() == 0,
            store.objects.globals@.len() == 0,
            store.objects.tables@.len() == 0,
            store.instances@.len() == 0,
    {
        Store { id, backend, objects: StoreObjects::new(), instances: Vec::new() }
    }
}

/// A place in one store.
#[derive(Copy, Clone, Debug, PartialEq, Eq, Structural)]
pub struct StoreHandle {
    /// The store's number.
    pub store_id: u64,
    /// The place in it.
    pub index: usize,
}

/// A global, as an embedder holds it.
#[derive(Copy, Clone, Debug, PartialEq, Eq, Structural)]
pub struct Global {
    /// Where it is.
    pub handle: StoreHandle,
}

/// A function, as an embedder holds it.
#[derive(Copy, Clone, Debug, PartialEq, Eq, Structural)]
pub struct Function {
    /// The store's number.
    pub store_id: u64,
    /// The function itself.
    pub reference: VMFuncRef,
}

/// Anything that an instance can export.
#[derive(Copy, Clone, Debug, PartialEq, Eq, Structural)]
pub enum Extern {
    /// A function.
    Function(Function),
    /// A memory.
    Memory(StoreHandle),
    /// A global.
    Global(Global),
    /// A table.
    Table(StoreHandle),
}

impl Extern {
    /// An object of the store with this number, as an embedder holds it.
    pub open spec fn of(store_id: u64, object: VMExtern) -> Extern {
        match object {
            VMExtern::Function(reference) => Extern::Function(Function { store_id, reference }),
            VMExtern::Memory(index) => Extern::Memory(StoreHandle { store_id, index }),
            VMExtern::Global(index) => Extern::Global(
                Global { handle: StoreHandle { store_id, index } },
            ),
            VMExtern::Table(index) => Extern::Table(StoreHandle { store_id, index }),
        }
    }

    /// An object of the store with this number, as an embedder holds it.
    pub fn from_vm_extern(store_id: u64, object: VMExtern) -> (wrapped: Extern)
        ensures
            wrapped == Extern::of(store_id, object),
    {
        match object {
            VMExtern::Function(reference) => Extern::Function(Function { store_id, reference }),
            VMExtern::Memory(index) => Extern::Memory(StoreHandle { store_id, index }),
            VMExtern::Global(index) => Extern::Global(
                Global { handle: StoreHandle { store_id, index } },
            ),
            VMExtern::Table(index) => Extern::Table(StoreHandle { store_id, index }),
        }
    }
}

/// What an instance exports, by name, in the module's order.
#[derive(Clone, Debug, PartialEq, Eq)]
pub struct Exports {
    /// Names and objects.
    pub list: Vec<(String, Extern)>,
}

/// A module, as an embedder holds it.
#[derive(Clone, Debug, PartialEq, Eq)]
pub struct Module {
    /// What is fixed of it.
    pub info: Arc<ModuleInfo>,
}

impl Module {
    /// A second handle of the module.
    pub fn handle(&self) -> (same: Module)
        ensures
            same == *self,
    {
        Module { info: self.info.clone() }
    }
}

/// The imports cannot be plugged in.
#[derive(Debug)]
pub struct LinkError {
    /// Why.
    pub message: String,
}

/// Running something failed.
#[derive(Debug)]
pub enum RuntimeError {
    /// With these words.
    Message(String),
    /// A memory refused.
    Memory(MemoryError),
}

/// A [`RuntimeError`] with its text as a character sequence.
pub enum RuntimeModel {
    Message(Seq<char>),
    Memory(ErrorModel),
}

impl View for RuntimeError {
    type V = RuntimeModel;

    open spec fn view(&self) -> RuntimeModel {
        match *self {
            RuntimeError::Message(text) => RuntimeModel::Message(text@),
            RuntimeError::Memory(error) => RuntimeModel::Memory(error@),
        }
    }
}

impl RuntimeError {
    /// An error with these words.
    pub fn new(message: &str) -> (error: RuntimeError)
        ensures
            error@ == RuntimeModel::Message(message@),
    {
        RuntimeError::Message(message.to_owned())
    }
}

/// Why the engine did not make an instance.
#[derive(Debug)]
pub enum EngineError {
    /// The imports cannot be plugged in.
    Link(LinkError),
    /// The start function failed.
    Start(RuntimeError),
    /// The processor lacks a feature that the code needs.
    CpuFeature(String),
}

/// Why there is no instance.
#[derive(Debug)]
pub enum InstantiationError {
    /// The imports cannot be plugged in.
    Link(LinkError),
    /// The start function failed.
    Start(RuntimeError),
    /// The processor lacks a feature that the code needs.
    CpuFeature(String),
}

impl InstantiationError {
    /// The engine's reason, as an embedder sees it.
    pub open spec fn of(error: EngineError) -> InstantiationError {
        match error {
            EngineError::Link(link) => InstantiationError::Link(link),
            EngineError::Start(start) => InstantiationError::Start(start),
            EngineError::CpuFeature(feature) => InstantiationError::CpuFeature(feature),
        }
    }
}

impl From<EngineError> for InstantiationError {
    fn from(other: EngineError) -> (error: Self) {
        match other {
            EngineError::Link(link) => InstantiationError::Link(link),
            EngineError::Start(start) => InstantiationError::Start(start),
            EngineError::CpuFeature(feature) => InstantiationError::CpuFeature(feature),
        }
    }
}

impl vstd::std_specs::convert::FromSpecImpl<EngineError> for InstantiationError {
    open spec fn obeys_from_spec() -> bool {
        true
    }

    open spec fn from_spec(other: EngineError) -> Self {
        InstantiationError::of(other)
    }
}

} // verus!
