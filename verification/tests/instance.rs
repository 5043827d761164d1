use std::sync::Arc;
use warm_instance::api_instance::{BackendInstance, ForeignInstance, Instance, Instantiation};
use warm_instance::api_store::{
    Backend, EngineError, Exports, Extern, Global, InstantiationError, LinkError, Module,
    RuntimeError, Store, StoreHandle,
};
use warm_instance::error::MemoryError;
use warm_instance::instance::{InstanceDefinitions, InstanceImports, VMInstance};
use warm_instance::memory::LinearMemory;
use warm_instance::memory_type::{MemoryStyle, MemoryType, Platform};
use warm_instance::module::{ExportIndex, ModuleInfo, RESERVED_FUNCTION};
use warm_instance::snapshot::{
    eager_snapshot, usable_capture, MemorySnapshot, VMInstanceSnapshot,
};
use warm_instance::store::{VMExtern, VMGlobal};
use warm_instance::sys_instance;
use warm_instance::table::{RawTableElement, VMFuncRef, VMTable};
use warm_instance::units::Pages;
use warm_instance::vm_memory::VMMemory;

fn memory(bound: u32, maximum: u32) -> VMMemory {
    VMMemory::new(
        &MemoryType {
            minimum: Pages(1),
            maximum: Some(Pages(maximum)),
            shared: false,
        },
        &MemoryStyle::Static {
            bound: Pages(bound),
            offset_guard_size: 0x1_0000,
        },
        Platform::Linux,
    )
    .unwrap_or_else(|e| panic!("{e:?}"))
}

fn module() -> Module {
    Module {
        info: Arc::new(ModuleInfo {
            exports: vec![
                ("f".to_string(), ExportIndex::Function(1)),
                ("m".to_string(), ExportIndex::Memory(0)),
                ("shown".to_string(), ExportIndex::Global(1)),
                ("t".to_string(), ExportIndex::Table(0)),
            ],
            num_imported_globals: 1,
            num_globals: 3,
            passive_elements: vec![(4, vec![1, RESERVED_FUNCTION]), (6, vec![])],
            passive_data: vec![(0, b"zero".to_vec()), (9, vec![])],
        }),
    }
}

/// An instance of the module: one imported global, two defined ones, a memory and
/// two tables, of which indirect calls go past the first.
fn engine(store: &mut Store, module: &Module) -> VMInstance {
    store.objects.globals.push(VMGlobal { val: 1000 });
    let imported = store.objects.globals.len() - 1;
    VMInstance::new(
        module.info.clone(),
        vec![VMFuncRef(10), VMFuncRef(20)],
        InstanceImports {
            memories: vec![],
            globals: vec![imported],
            tables: vec![],
        },
        InstanceDefinitions {
            memories: vec![memory(5, 5)],
            globals: vec![VMGlobal { val: 1 }, VMGlobal { val: 2 }],
            tables: vec![
                VMTable {
                    elements: vec![RawTableElement(10), RawTableElement(0)],
                },
                VMTable { elements: vec![] },
            ],
            fixed_tables: vec![true, false],
        },
        &mut store.objects,
    )
}

fn instance(store: &mut Store) -> Instance {
    let module = module();
    let made = engine(store, &module);
    Instance::new(store, &module, Ok(Instantiation::Sys(Ok(made)))).unwrap_or_else(|e| panic!("{e:?}"))
}

fn refusal(result: Result<(), RuntimeError>) -> MemoryError {
    match result {
        Err(RuntimeError::Memory(error)) => error,
        other => panic!("{other:?}"),
    }
}

fn words<T>(result: Result<T, RuntimeError>) -> String {
    match result {
        Err(RuntimeError::Message(text)) => text,
        Err(other) => panic!("{other:?}"),
        Ok(_) => panic!("expected an error"),
    }
}

#[test]
fn exports_are_looked_up_by_name() {
    let mut store = Store::new(3, Backend::Sys);
    let made = instance(&mut store);
    let names: Vec<&str> = made.exports.list.iter().map(|e| e.0.as_str()).collect();
    assert_eq!(names, vec!["f", "m", "shown", "t"]);
    assert!(matches!(made.exports.list[0].1, Extern::Function(f) if f.reference == VMFuncRef(20) && f.store_id == 3));
    assert_eq!(
        made.exports.list[1].1,
        Extern::Memory(StoreHandle { store_id: 3, index: 0 })
    );
    assert_eq!(
        made.exports.list[2].1,
        Extern::Global(Global { handle: StoreHandle { store_id: 3, index: 1 } })
    );
    let inner = &store.instances[0];
    assert_eq!(inner.lookup(&"shown".to_string()), Some(VMExtern::Global(1)));
    assert_eq!(inner.lookup(&"hidden".to_string()), None);
    assert_eq!(
        inner.lookup_by_declaration(ExportIndex::Global(0)),
        VMExtern::Global(0)
    );
    assert_eq!(made.module().info.num_globals, 3);
    assert_eq!(made.inner.into_sys().handle.index, 0);
}

#[test]
fn defined_globals_are_all_there() {
    let mut store = Store::new(3, Backend::Sys);
    let made = instance(&mut store);
    let handles: Vec<usize> = made
        .defined_globals(&store)
        .iter()
        .map(|g| g.handle.index)
        .collect();
    assert_eq!(handles, vec![1, 2]);
    let sys = made.inner.into_sys();
    assert_eq!(sys.defined_globals(&store, 0, 1).len(), 1);
    assert!(sys.defined_globals(&store, 2, 2).is_empty());
    assert!(sys.defined_globals(&store, 2, 1).is_empty());
}

#[test]
fn every_reason_against_an_instance() {
    let mut store = Store::new(3, Backend::Sys);
    let module = module();
    let link = |message: &str| LinkError {
        message: message.to_string(),
    };
    let result = Instance::new(&mut store, &module, Err(link("no import")));
    assert!(matches!(result, Err(InstantiationError::Link(l)) if l.message == "no import"));
    let result = Instance::new_by_index(
        &mut store,
        &module,
        Instantiation::Sys(Err(EngineError::Link(link("bad import")))),
    );
    assert!(matches!(result, Err(InstantiationError::Link(l)) if l.message == "bad import"));
    let result = Instance::new_by_index(
        &mut store,
        &module,
        Instantiation::Sys(Err(EngineError::Start(RuntimeError::new("trap")))),
    );
    assert!(matches!(
        result,
        Err(InstantiationError::Start(RuntimeError::Message(text))) if text == "trap"
    ));
    let result = sys_instance::Instance::new(
        &mut store,
        &module,
        Ok(Err(EngineError::CpuFeature("avx512".to_string()))),
    );
    assert!(matches!(result, Err(InstantiationError::CpuFeature(text)) if text == "avx512"));
    assert!(store.instances.is_empty());
}

#[test]
fn other_runtimes_cannot_be_captured() {
    let mut store = Store::new(3, Backend::V8);
    let module = module();
    let answer = Instantiation::V8(Ok((ForeignInstance(77), Exports { list: vec![] })));
    let made = Instance::new(&mut store, &module, Ok(answer)).unwrap_or_else(|e| panic!("{e:?}"));
    assert_eq!(made.inner, BackendInstance::V8(ForeignInstance(77)));
    assert!(made.defined_globals(&store).is_empty());
    assert_eq!(
        words(made.snapshot(&store, false)),
        "Instance::snapshot is only supported on the sys backend"
    );
    assert_eq!(
        words(made.snapshot_eager(&store)),
        "Instance::snapshot_eager is only supported on the sys backend"
    );
    assert_eq!(
        words(made.snapshot_tables(&store)),
        "Instance::snapshot_tables is only supported on the sys backend"
    );
    let mut sys_store = Store::new(4, Backend::Sys);
    let sys = instance(&mut sys_store);
    let taken = sys.snapshot(&sys_store, false).unwrap_or_else(|e| panic!("{e:?}"));
    let tables = sys.snapshot_tables(&sys_store).unwrap_or_else(|e| panic!("{e:?}"));
    assert_eq!(
        words(made.reset_to_snapshot(&mut store, &taken)),
        "Instance::reset_to_snapshot is only supported on the sys backend"
    );
    assert_eq!(
        words(made.reset_to_snapshot_bounded(&mut store, &taken, 1)),
        "Instance::reset_to_snapshot_bounded is only supported on the sys backend"
    );
    assert_eq!(
        words(made.reset_tables(&mut store, &tables)),
        "Instance::reset_tables is only supported on the sys backend"
    );
    let js = Instance::new_by_index(
        &mut Store::new(5, Backend::Js),
        &module,
        Instantiation::Js(Err(InstantiationError::CpuFeature("none".to_string()))),
    );
    assert!(matches!(js, Err(InstantiationError::CpuFeature(_))));
}

#[test]
fn a_snapshot_of_another_shape_is_refused() {
    let mut store = Store::new(3, Backend::Sys);
    let made = instance(&mut store);
    let mut taken = made.snapshot(&store, false).unwrap_or_else(|e| panic!("{e:?}"));
    assert_eq!(
        taken.describe(),
        "VMInstanceSnapshot { memories: 1, globals: 2, tables: 2 }"
    );
    taken.inner.globals.pop();
    store.objects.globals[1].val = 55;
    for result in [
        made.reset_to_snapshot(&mut store, &taken),
        made.reset_to_snapshot_bounded(&mut store, &taken, 10),
    ] {
        match refusal(result) {
            MemoryError::Generic(text) => {
                assert_eq!(text, "snapshot does not match this instance's shape")
            }
            other => panic!("{other:?}"),
        }
    }
    assert_eq!(store.objects.globals[1].val, 55);
    let mut tables = made.snapshot_tables(&store).unwrap_or_else(|e| panic!("{e:?}"));
    assert_eq!(tables.describe(), "VMTablesSnapshot { tables: 2 }");
    tables.inner.tables.pop();
    match refusal(made.reset_tables(&mut store, &tables)) {
        MemoryError::Generic(text) => assert_eq!(
            text,
            "tables snapshot does not match this instance's table count"
        ),
        other => panic!("{other:?}"),
    }
}

#[test]
fn a_bounded_reset_needs_copies() {
    let mut store = Store::new(3, Backend::Sys);
    let made = instance(&mut store);
    let taken = made.snapshot(&store, false).unwrap_or_else(|e| panic!("{e:?}"));
    assert!(matches!(taken.inner.memories[0], MemorySnapshot::Cow(_)));
    store.objects.globals[1].val = 55;
    match refusal(made.reset_to_snapshot_bounded(&mut store, &taken, 100)) {
        MemoryError::Generic(text) => assert_eq!(
            text,
            "restore_bounded requires an eager snapshot (capture with snapshot_eager)"
        ),
        other => panic!("{other:?}"),
    }
    assert_eq!(store.objects.globals[1].val, 55, "what comes later is not touched");
}

#[test]
fn a_bounded_reset_gives_the_baseline_back_where_the_bound_covers_the_dirt() {
    let mut store = Store::new(3, Backend::Sys);
    let made = instance(&mut store);
    store.objects.memories[0].initialize_with_data(4, b"static").unwrap();
    let taken = made.snapshot_eager(&store).unwrap_or_else(|e| panic!("{e:?}"));
    assert!(matches!(taken.inner.memories[0], MemorySnapshot::Eager { dirty_prefix: 10, .. }));
    let baseline = store.objects.memories[0].snapshot_image();
    store.objects.memories[0].initialize_with_data(0, &[0xee; 5000]).unwrap();
    store.objects.globals[2].val = 99;
    store.instances[0].elem_drop(4);
    made.reset_to_snapshot_bounded(&mut store, &taken, 5000).unwrap();
    assert_eq!(store.objects.memories[0].snapshot_image(), baseline);
    assert_eq!(store.objects.globals[2].val, 2);
    assert_eq!(
        store.instances[0].passive_element_segment(4),
        Some(&vec![Some(VMFuncRef(20)), None])
    );
    // What lies above the bound is the caller's business.
    store.objects.memories[0].initialize_with_data(6000, &[1]).unwrap();
    made.reset_to_snapshot_bounded(&mut store, &taken, 5000).unwrap();
    assert_eq!(store.objects.memories[0].snapshot_image()[6000], 1);
}

#[test]
fn a_memory_that_cannot_grow_back_ends_the_reset() {
    let mut store = Store::new(3, Backend::Sys);
    let made = instance(&mut store);
    let taken = warm_instance::api_instance::InstanceSnapshot {
        inner: VMInstanceSnapshot {
            memories: vec![eager_snapshot(vec![0; 6 * 65536])],
            globals: vec![8, 8],
            tables: vec![vec![], vec![]],
        },
    };
    assert!(matches!(
        refusal(made.reset_to_snapshot(&mut store, &taken)),
        MemoryError::CouldNotGrow { current: Pages(1), attempted_delta: Pages(5) }
    ));
    assert_eq!(store.objects.globals[1].val, 1);
    assert_eq!(store.objects.tables[0].elements.len(), 2);
}

#[test]
fn snapshots_know_whether_they_fit() {
    let mut store = Store::new(3, Backend::Sys);
    let made = instance(&mut store);
    let inner = &store.instances[0];
    for taken in [
        made.snapshot(&store, false).unwrap_or_else(|e| panic!("{e:?}")),
        made.snapshot_eager(&store).unwrap_or_else(|e| panic!("{e:?}")),
    ] {
        assert!(taken.inner.is_in_order());
        assert!(taken.inner.is_fit_for(inner, &store.objects));
    }
    let with = |capture: MemorySnapshot| VMInstanceSnapshot {
        memories: vec![capture],
        globals: vec![8, 8],
        tables: vec![vec![], vec![]],
    };
    // Half a page fits nowhere.
    let half = with(eager_snapshot(vec![1; 32768]));
    assert!(half.is_in_order());
    assert!(!half.is_fit_for(inner, &store.objects));
    // A copy that does not know where its dirt ends is not in order.
    let unsure = with(MemorySnapshot::Eager { image: vec![1; 65536], dirty_prefix: 65535 });
    assert!(!unsure.is_in_order());
    assert!(unsure.is_fit_for(inner, &store.objects));
    // Of another shape it is refused, so nothing else is asked of it.
    let other = VMInstanceSnapshot {
        memories: vec![],
        globals: vec![],
        tables: vec![],
    };
    assert!(other.is_in_order());
    assert!(other.is_fit_for(inner, &store.objects));
}

#[test]
fn tables_go_back_alone() {
    let mut store = Store::new(3, Backend::Sys);
    let made = instance(&mut store);
    let taken = made.snapshot_tables(&store).unwrap_or_else(|e| panic!("{e:?}"));
    {
        let Store { objects, instances, .. } = &mut store;
        instances[0].table_set(objects, 0, 1, RawTableElement(20));
        objects.tables[1].elements.push(RawTableElement(10));
    }
    store.objects.globals[1].val = 55;
    assert_eq!(
        store.instances[0].indirect_callee(&store.objects, 0, 1),
        Some(RawTableElement(20))
    );
    assert_eq!(
        store.instances[0].indirect_callee(&store.objects, 1, 0),
        Some(RawTableElement(10))
    );
    made.reset_tables(&mut store, &taken).unwrap();
    assert_eq!(
        store.instances[0].indirect_callee(&store.objects, 0, 1),
        Some(RawTableElement(0))
    );
    assert_eq!(store.instances[0].indirect_callee(&store.objects, 1, 0), None);
    assert_eq!(store.instances[0].indirect_callee(&store.objects, 0, 2), None);
    assert_eq!(store.objects.globals[1].val, 55);
}

#[test]
fn segments_come_back() {
    let mut store = Store::new(3, Backend::Sys);
    let made = instance(&mut store);
    let taken = made.snapshot(&store, true).unwrap_or_else(|e| panic!("{e:?}"));
    let inner = &mut store.instances[0];
    assert_eq!(inner.passive_data_segment(0), Some(&b"zero".to_vec()));
    assert_eq!(inner.passive_data_segment(9), Some(&vec![]));
    assert_eq!(inner.passive_element_segment(6), None, "an empty segment is left out");
    assert_eq!(inner.func_ref(RESERVED_FUNCTION), None);
    inner.data_drop(0);
    inner.data_drop(1234);
    inner.elem_drop(4);
    assert_eq!(inner.passive_data_segment(0), None);
    assert_eq!(inner.passive_element_segment(4), None);
    made.reset_to_snapshot(&mut store, &taken).unwrap();
    let inner = &store.instances[0];
    assert_eq!(inner.passive_data_segment(0), Some(&b"zero".to_vec()));
    assert_eq!(
        inner.passive_element_segment(4),
        Some(&vec![Some(VMFuncRef(20)), None])
    );
}

#[test]
fn resetting_one_instance_leaves_the_others() {
    let mut store = Store::new(3, Backend::Sys);
    let first = instance(&mut store);
    let _second = instance(&mut store);
    let taken = first.snapshot(&store, false).unwrap_or_else(|e| panic!("{e:?}"));
    store.objects.memories[0].initialize_with_data(0, &[1]).unwrap();
    store.objects.memories[1].initialize_with_data(0, &[2]).unwrap();
    let theirs = store.instances[1].globals[0];
    store.objects.globals[theirs].val = 77;
    store.instances[1].data_drop(0);
    first.reset_to_snapshot(&mut store, &taken).unwrap();
    assert_eq!(store.objects.memories[0].snapshot_image()[0], 0);
    assert_eq!(store.objects.memories[1].snapshot_image()[0], 2);
    assert_eq!(store.objects.globals[theirs].val, 77);
    assert_eq!(store.instances[1].passive_data_segment(0), None);
}

#[test]
fn both_kinds_of_snapshot_lead_back_to_the_same() {
    let mut store = Store::new(3, Backend::Sys);
    let made = instance(&mut store);
    store.objects.memories[0].initialize_with_data(500, b"warm").unwrap();
    let eager = made.snapshot_eager(&store).unwrap_or_else(|e| panic!("{e:?}"));
    let cow = made.snapshot(&store, false).unwrap_or_else(|e| panic!("{e:?}"));
    let forced = made.snapshot(&store, true).unwrap_or_else(|e| panic!("{e:?}"));
    assert!(matches!(forced.inner.memories[0], MemorySnapshot::Eager { .. }));
    let mut images = vec![];
    for taken in [&eager, &cow, &forced] {
        store.objects.memories[0].grow(Pages(2)).unwrap();
        store.objects.memories[0].initialize_with_data(400, &[3; 100_000]).unwrap();
        made.reset_to_snapshot(&mut store, taken).unwrap();
        images.push(store.objects.memories[0].snapshot_image());
    }
    assert_eq!(images[0], images[1]);
    assert_eq!(images[0], images[2]);
    assert_eq!(&images[0][500..504], b"warm");
}

#[test]
fn imports_are_not_touched() {
    let mut store = Store::new(3, Backend::Sys);
    let made = instance(&mut store);
    let taken = made.snapshot(&store, false).unwrap_or_else(|e| panic!("{e:?}"));
    store.objects.globals[0].val = 2000;
    store.objects.globals[1].val = 2000;
    made.reset_to_snapshot(&mut store, &taken).unwrap();
    assert_eq!(store.objects.globals[0].val, 2000, "the imported global is the host's");
    assert_eq!(store.objects.globals[1].val, 1);
}

#[test]
fn a_failed_capture_falls_back_to_copying() {
    let failed = Some(Err(MemoryError::Generic("memfd_create failed: no room".to_string())));
    assert!(usable_capture(failed).is_none());
    assert!(usable_capture(None).is_none());
    let VMMemory::Owned(owned) = memory(5, 5) else {
        panic!("not shared");
    };
    let cow = owned.snapshot_cow().unwrap_or_else(|e| panic!("{e:?}"));
    let base = cow.base;
    assert_eq!(usable_capture(Some(Ok(cow))).unwrap().base, base);
    assert!(matches!(
        eager_snapshot(vec![0, 7, 0, 0]),
        MemorySnapshot::Eager { image, dirty_prefix: 2 } if image == [0, 7, 0, 0]
    ));
    assert!(matches!(
        eager_snapshot(vec![0, 0]),
        MemorySnapshot::Eager { dirty_prefix: 0, .. }
    ));
}

#[test]
fn a_memory_that_moved_goes_back_to_its_copy() {
    let mut store = Store::new(3, Backend::Sys);
    let module = Module {
        info: Arc::new(ModuleInfo {
            exports: vec![],
            num_imported_globals: 0,
            num_globals: 0,
            passive_elements: vec![],
            passive_data: vec![],
        }),
    };
    let mut moving = VMMemory::new(
        &MemoryType {
            minimum: Pages(1),
            maximum: None,
            shared: false,
        },
        &MemoryStyle::Dynamic { offset_guard_size: 0x1_0000 },
        Platform::Linux,
    )
    .unwrap_or_else(|e| panic!("{e:?}"));
    moving.initialize_with_data(9, b"first").unwrap();
    let made = VMInstance::new(
        module.info.clone(),
        vec![],
        InstanceImports { memories: vec![], globals: vec![], tables: vec![] },
        InstanceDefinitions {
            memories: vec![moving],
            globals: vec![],
            tables: vec![],
            fixed_tables: vec![],
        },
        &mut store.objects,
    );
    let made = Instance::new(&mut store, &module, Ok(Instantiation::Sys(Ok(made))))
        .unwrap_or_else(|e| panic!("{e:?}"));
    let taken = made.snapshot(&store, false).unwrap_or_else(|e| panic!("{e:?}"));
    let base = store.objects.memories[0].vmmemory().base;
    store.objects.memories[0].grow(Pages(2)).unwrap();
    store.objects.memories[0].initialize_with_data(9, b"later").unwrap();
    assert_ne!(store.objects.memories[0].vmmemory().base, base);
    made.reset_to_snapshot(&mut store, &taken).unwrap();
    let image = store.objects.memories[0].snapshot_image();
    assert_eq!(image.len(), 65536);
    assert_eq!(&image[9..14], b"first");
}

#[test]
fn a_bounded_reset_leaves_a_grown_memory_grown() {
    let mut store = Store::new(3, Backend::Sys);
    let made = instance(&mut store);
    store.objects.memories[0].initialize_with_data(0, b"abc").unwrap();
    let taken = made.snapshot_eager(&store).unwrap_or_else(|e| panic!("{e:?}"));
    store.objects.memories[0].grow(Pages(1)).unwrap();
    store.objects.memories[0].initialize_with_data(0, b"xyz").unwrap();
    made.reset_to_snapshot_bounded(&mut store, &taken, 2).unwrap();
    assert_eq!(store.objects.memories[0].size(), Pages(2));
    assert_eq!(&store.objects.memories[0].snapshot_image()[..3], b"abz");
}
