//! Warm instances: take a baseline, change memory, globals, tables and passive
//! segments, reset, and see that nothing is left of the changes.

use std::sync::Arc;
use warm_instance::api_instance::{Instance, InstanceSnapshot, Instantiation};
use warm_instance::api_store::{Backend, Module, Store};
use warm_instance::instance::{InstanceDefinitions, InstanceImports, VMInstance};
use warm_instance::memory::LinearMemory;
use warm_instance::memory_type::{MemoryStyle, MemoryType, Platform};
use warm_instance::module::{ExportIndex, ModuleInfo};
use warm_instance::store::VMGlobal;
use warm_instance::table::{RawTableElement, VMFuncRef, VMTable};
use warm_instance::units::Pages;
use warm_instance::vm_memory::VMMemory;

/// The functions of the module: calling one gives its number.
const F0: u64 = 100;
const F1: u64 = 200;

const STATIC: MemoryStyle = MemoryStyle::Static {
    bound: Pages(0x1_0000),
    offset_guard_size: 0x8000_0000,
};
const DYNAMIC: MemoryStyle = MemoryStyle::Dynamic {
    offset_guard_size: 0x1_0000,
};

struct Warm {
    store: Store,
    instance: Instance,
    cow_disabled: bool,
}

fn memory(maximum: Option<Pages>, style: MemoryStyle) -> VMMemory {
    let ty = MemoryType {
        minimum: Pages(1),
        maximum,
        shared: false,
    };
    VMMemory::new(&ty, &style, Platform::Linux).unwrap()
}

fn build(info: ModuleInfo, definitions: InstanceDefinitions, functions: Vec<VMFuncRef>) -> Warm {
    let mut store = Store::new(1, Backend::Sys);
    let module = Module {
        info: Arc::new(info),
    };
    let imports = InstanceImports {
        memories: vec![],
        globals: vec![],
        tables: vec![],
    };
    let made = VMInstance::new(
        module.info.clone(),
        functions,
        imports,
        definitions,
        &mut store.objects,
    );
    let instance = Instance::new(&mut store, &module, Ok(Instantiation::Sys(Ok(made)))).unwrap();
    Warm {
        store,
        instance,
        cow_disabled: false,
    }
}

/// A module with a global, a linear memory of at most ten pages and a table of
/// three slots, the first of which holds a function.
fn wat() -> Warm {
    build(
        ModuleInfo {
            exports: vec![
                ("mem".to_string(), ExportIndex::Memory(0)),
                ("g".to_string(), ExportIndex::Global(0)),
                ("t".to_string(), ExportIndex::Table(0)),
            ],
            num_imported_globals: 0,
            num_globals: 1,
            passive_elements: vec![],
            passive_data: vec![],
        },
        InstanceDefinitions {
            memories: vec![memory(Some(Pages(10)), STATIC)],
            globals: vec![VMGlobal { val: 7 }],
            tables: vec![VMTable {
                elements: vec![RawTableElement(F0), RawTableElement(0), RawTableElement(0)],
            }],
            fixed_tables: vec![true],
        },
        vec![VMFuncRef(F0), VMFuncRef(F1)],
    )
}

/// A module with a memory that moves when it grows, which is captured by copying.
fn wat_dyn() -> Warm {
    build(
        ModuleInfo {
            exports: vec![("mem".to_string(), ExportIndex::Memory(0))],
            num_imported_globals: 0,
            num_globals: 0,
            passive_elements: vec![],
            passive_data: vec![],
        },
        InstanceDefinitions {
            memories: vec![memory(None, DYNAMIC)],
            globals: vec![],
            tables: vec![],
            fixed_tables: vec![],
        },
        vec![],
    )
}

impl Warm {
    fn inner(&self) -> &VMInstance {
        let sys = self.instance.inner.into_sys();
        &self.store.instances[sys.handle.index]
    }

    fn memory(&mut self) -> &mut VMMemory {
        let handle = self.inner().memories[0];
        &mut self.store.objects.memories[handle]
    }

    fn write_byte(&mut self, addr: i32, val: i32) {
        self.memory()
            .initialize_with_data(addr as usize, &[val as u8])
            .unwrap();
    }

    fn read_byte(&mut self, addr: i32) -> i32 {
        self.memory().snapshot_image()[addr as usize] as i32
    }

    fn read_all(&mut self) -> Vec<u8> {
        self.memory().snapshot_image()
    }

    fn set_global(&mut self, k: usize, bits: u128) {
        let handle = self.inner().globals[k];
        self.store.objects.globals[handle].val = bits;
    }

    fn global(&self, k: usize) -> u128 {
        self.store.objects.globals[self.inner().globals[k]].val
    }

    fn set_g(&mut self, v: i32) {
        self.set_global(0, v as u32 as u128);
    }

    fn get_g(&self) -> i32 {
        self.global(0) as u32 as i32
    }

    fn grow(&mut self, pages: i32) -> i32 {
        match self.memory().grow(Pages(pages as u32)) {
            Ok(previous) => previous.0 as i32,
            Err(_) => -1,
        }
    }

    fn size(&mut self) -> i32 {
        self.memory().size().0 as i32
    }

    fn set_slot(&mut self, slot: usize, function: u64) {
        let index = self.instance.inner.into_sys().handle.index;
        let Store {
            objects, instances, ..
        } = &mut self.store;
        instances[index].table_set(objects, 0, slot, RawTableElement(function));
    }

    fn set_slot1(&mut self) {
        self.set_slot(1, F1);
    }

    fn set_slot0_f1(&mut self) {
        self.set_slot(0, F1);
    }

    fn slot_is_null(&self, slot: usize) -> i32 {
        let handle = self.inner().tables[0];
        self.store.objects.tables[handle].elements[slot].is_null() as i32
    }

    fn call0(&self) -> i32 {
        self.inner()
            .indirect_callee(&self.store.objects, 0, 0)
            .unwrap()
            .0 as i32
    }

    fn init_at(&mut self, dst: i32) {
        let bytes = self.inner().passive_data_segment(0).unwrap().clone();
        self.memory()
            .initialize_with_data(dst as usize, &bytes)
            .unwrap();
    }

    fn drop_d(&mut self) {
        let index = self.instance.inner.into_sys().handle.index;
        self.store.instances[index].data_drop(0);
    }

    fn snapshot(&self) -> InstanceSnapshot {
        self.instance
            .snapshot(&self.store, self.cow_disabled)
            .unwrap_or_else(|_| panic!("no snapshot"))
    }

    fn reset(&mut self, snapshot: &InstanceSnapshot) {
        self.instance
            .reset_to_snapshot(&mut self.store, snapshot)
            .unwrap();
    }
}

#[test]
fn table_reset_visible_to_call_indirect() {
    let mut warm = wat();
    let snap = warm.snapshot();
    assert_eq!(warm.call0(), 100, "baseline: slot 0 holds the first function");

    warm.set_slot0_f1();
    assert_eq!(warm.call0(), 200, "mutated: slot 0 holds the second function");

    warm.reset(&snap);
    assert_eq!(
        warm.call0(),
        100,
        "reset must restore slot 0 as seen by indirect calls"
    );
}

#[test]
fn snapshot_round_trip_memory_global_table() {
    let mut warm = wat();
    let snap = warm.snapshot();

    warm.set_g(42);
    warm.write_byte(16, 0xAB);
    let _ = warm.grow(2); // 1 -> 3 pages
    warm.set_slot1();

    assert_eq!(warm.get_g(), 42);
    assert_eq!(warm.read_byte(16), 0xAB);
    assert_eq!(warm.size(), 3);
    assert_eq!(warm.slot_is_null(1), 0);

    warm.reset(&snap);

    assert_eq!(warm.get_g(), 7, "global restored");
    assert_eq!(warm.read_byte(16), 0, "memory restored");
    assert_eq!(warm.size(), 1, "memory size restored");
    assert_eq!(warm.slot_is_null(1), 1, "table slot 1 cleared back to null");
    assert_eq!(
        warm.slot_is_null(0),
        0,
        "table slot 0 still holds its function"
    );
}

#[test]
fn grown_pages_are_zeroed_after_reset() {
    let mut warm = wat();
    let snap = warm.snapshot();

    let _ = warm.grow(1); // 1 -> 2 pages
    let high_addr = 65536 + 100; // inside page 2
    warm.write_byte(high_addr, 0xFF);
    warm.reset(&snap);

    let _ = warm.grow(1);
    assert_eq!(
        warm.read_byte(high_addr),
        0,
        "regrown page must be zero, not stale prior-run data"
    );
}

#[test]
fn snapshot_isolation_across_reuses() {
    let mut warm = wat();
    let snap = warm.snapshot();

    // The first tenant runs and leaves state behind.
    warm.set_g(111);
    warm.write_byte(0, 0x11);
    warm.reset(&snap);

    // The second must see none of it.
    assert_eq!(warm.get_g(), 7, "no global bleed");
    assert_eq!(warm.read_byte(0), 0, "no memory bleed");
    warm.set_g(222);
    warm.write_byte(0, 0x22);
    warm.reset(&snap);

    // Clean again for the third.
    assert_eq!(warm.get_g(), 7);
    assert_eq!(warm.read_byte(0), 0);
}

#[test]
fn reset_restores_dropped_passive_data() {
    let mut warm = build(
        ModuleInfo {
            exports: vec![("mem".to_string(), ExportIndex::Memory(0))],
            num_imported_globals: 0,
            num_globals: 0,
            passive_elements: vec![],
            passive_data: vec![(0, b"hello".to_vec())],
        },
        InstanceDefinitions {
            memories: vec![memory(None, DYNAMIC)],
            globals: vec![],
            tables: vec![],
            fixed_tables: vec![],
        },
        vec![],
    );
    let snap = warm.snapshot();

    // Use, then drop the passive segment.
    warm.init_at(0);
    assert_eq!(warm.read_byte(0), b'h' as i32);
    warm.drop_d();
    assert!(warm.inner().passive_data_segment(0).is_none());

    // Reset: memory cleared and the dropped segment there again.
    warm.reset(&snap);
    assert_eq!(warm.read_byte(0), 0, "memory cleared");

    warm.init_at(0);
    assert_eq!(
        warm.read_byte(0),
        b'h' as i32,
        "passive data segment restored after drop and reset"
    );
}

#[test]
fn reset_without_mutation_is_a_noop() {
    let mut warm = wat();
    let snap = warm.snapshot();
    for _ in 0..2 {
        warm.reset(&snap);
        assert_eq!(warm.get_g(), 7);
        assert_eq!(warm.read_byte(16), 0);
    }
}

#[test]
fn snapshot_captures_a_non_pristine_baseline() {
    let mut warm = wat();
    warm.set_g(50);
    warm.write_byte(8, 0xCD);
    let snap = warm.snapshot(); // the baseline is the configured state

    warm.set_g(99);
    warm.write_byte(8, 0xEE);

    warm.reset(&snap);
    assert_eq!(warm.get_g(), 50, "restored to snapshot, not init");
    assert_eq!(warm.read_byte(8), 0xCD);
}

#[test]
fn repeated_reset_loop_is_stable() {
    let mut warm = wat();
    let snap = warm.snapshot();

    for i in 0..64i32 {
        warm.set_g(i.wrapping_mul(7) + 1);
        warm.write_byte((i % 100) * 4, i & 0xff);
        let _ = warm.grow((i % 3) + 1);
        warm.set_slot1();

        warm.reset(&snap);

        assert_eq!(warm.get_g(), 7, "iter {i}: global");
        assert_eq!(warm.read_byte((i % 100) * 4), 0, "iter {i}: mem");
        assert_eq!(warm.size(), 1, "iter {i}: size");
        assert_eq!(warm.slot_is_null(1), 1, "iter {i}: table");
    }
}

#[test]
fn restores_i64_and_f64_globals() {
    let mut warm = build(
        ModuleInfo {
            exports: vec![
                ("gi".to_string(), ExportIndex::Global(0)),
                ("gf".to_string(), ExportIndex::Global(1)),
            ],
            num_imported_globals: 0,
            num_globals: 2,
            passive_elements: vec![],
            passive_data: vec![],
        },
        InstanceDefinitions {
            memories: vec![],
            globals: vec![VMGlobal { val: 0 }, VMGlobal { val: 0 }],
            tables: vec![],
            fixed_tables: vec![],
        },
        vec![],
    );
    let snap = warm.snapshot();

    warm.set_global(0, (-0x0123_4567_89ab_cdefi64) as u64 as u128);
    warm.set_global(1, 3.141592653589793f64.to_bits() as u128);
    assert_eq!(warm.global(0) as u64 as i64, -0x0123_4567_89ab_cdef);

    warm.reset(&snap);
    assert_eq!(warm.global(0) as u64 as i64, 0, "i64 global restored");
    assert_eq!(
        f64::from_bits(warm.global(1) as u64),
        0.0,
        "f64 global restored"
    );
}

/// Builds a patterned baseline of three pages, takes a snapshot, scatters writes
/// and grows, resets, and compares every byte.
fn assert_byte_exact_restore(mut warm: Warm) {
    let _ = warm.grow(2);
    let mut a = 0;
    while a < 3 * 65536 {
        warm.write_byte(a, (a >> 6) & 0xff);
        a += 64;
    }
    let baseline = warm.read_all();
    assert_eq!(baseline.len(), 3 * 65536);

    let snap = warm.snapshot();

    let mut a = 0;
    while a < 3 * 65536 {
        warm.write_byte(a, 0xEE);
        a += 64;
    }
    let _ = warm.grow(2);
    let mut a = 3 * 65536;
    while a < 5 * 65536 {
        warm.write_byte(a, 0xCC);
        a += 64;
    }

    warm.reset(&snap);

    assert_eq!(warm.size(), 3, "size restored to baseline");
    assert_eq!(warm.read_all(), baseline, "memory restored byte-for-byte");
}

#[test]
fn cow_path_restore_is_byte_exact() {
    assert_byte_exact_restore(wat());
}

#[test]
fn eager_path_restore_is_byte_exact() {
    assert_byte_exact_restore(wat_dyn());
}

#[test]
fn cow_disabled_env_forces_eager_path() {
    let mut warm = wat();
    warm.cow_disabled = true;
    assert_byte_exact_restore(warm);
}
