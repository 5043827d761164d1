use warm_instance::cow::{CaptureStep, CowBacking, RestoreStep};
use warm_instance::error::MemoryError;
use warm_instance::grow::{plan_grow, GrowPlan};
use warm_instance::memory::{initialize_memory_with_data, LinearMemory, NotifyLocation, WaiterError};
use warm_instance::memory_type::{MemoryStyle, MemoryType, Platform};
use warm_instance::mmap::Mmap;
use warm_instance::mmap_pool::{try_pool, try_take};
use warm_instance::owned_memory::{fresh_size, layout, MemoryLayout, VMOwnedMemory};
use warm_instance::shared_memory::VMSharedMemory;
use warm_instance::text::decimal_text;
use warm_instance::units::{Bytes, Pages, WASM_PAGE_SIZE};
use warm_instance::vm_memory::VMMemory;
use warm_instance::wasm_mmap::{bounded_parts, MaybeInstanceOwned, WasmMmap};
use warm_instance::zero::{plan_zero, ZeroPlan};

const GUARD: u64 = 0x1_0000;

fn ty(minimum: u32, maximum: Option<u32>, shared: bool) -> MemoryType {
    MemoryType {
        minimum: Pages(minimum),
        maximum: maximum.map(Pages),
        shared,
    }
}

fn dynamic() -> MemoryStyle {
    MemoryStyle::Dynamic {
        offset_guard_size: GUARD,
    }
}

fn fixed(bound: u32) -> MemoryStyle {
    MemoryStyle::Static {
        bound: Pages(bound),
        offset_guard_size: GUARD,
    }
}

fn owned(minimum: u32, maximum: Option<u32>, style: MemoryStyle) -> VMOwnedMemory {
    match VMOwnedMemory::new(&ty(minimum, maximum, false), &style, Platform::Linux) {
        Ok(memory) => memory,
        Err(error) => panic!("{error:?}"),
    }
}

fn refusal<T>(result: Result<T, MemoryError>) -> MemoryError {
    match result {
        Ok(_) => panic!("expected a refusal"),
        Err(error) => error,
    }
}

#[test]
fn sizes() {
    assert_eq!(WASM_PAGE_SIZE, 65536);
    assert_eq!(Pages(3).bytes(), Bytes(196608));
    assert_eq!(Bytes(196607).pages(), Ok(Pages(2)));
    assert_eq!(Pages::max_value(), Pages(65536));
    assert_eq!(Pages(65535).checked_add(Pages(1)), Some(Pages(65536)));
    assert_eq!(Pages(65535).checked_add(Pages(2)), None);
    assert!(Bytes(usize::MAX).pages().is_err());
    assert_eq!(decimal_text(0), "0");
    assert_eq!(decimal_text(18446744073709551615), "18446744073709551615");
}

#[test]
fn limits_are_checked_when_a_memory_is_made() {
    let style = dynamic();
    assert!(matches!(
        refusal(VMOwnedMemory::new(&ty(65537, None, false), &style, Platform::Linux)),
        MemoryError::MinimumMemoryTooLarge {
            min_requested: Pages(65537),
            max_allowed: Pages(65536)
        }
    ));
    assert!(matches!(
        refusal(VMOwnedMemory::new(&ty(1, Some(70000), false), &style, Platform::Linux)),
        MemoryError::MaximumMemoryTooLarge {
            max_requested: Pages(70000),
            max_allowed: Pages(65536)
        }
    ));
    match refusal(VMMemory::new(&ty(3, Some(2), true), &style, Platform::Linux)) {
        MemoryError::InvalidMemory { reason } => assert_eq!(
            reason,
            "the maximum (2 pages) is less than the minimum (3 pages)"
        ),
        other => panic!("{other:?}"),
    }
    let huge = MemoryStyle::Dynamic {
        offset_guard_size: isize::MAX as u64,
    };
    match refusal(VMOwnedMemory::new(&ty(1, None, false), &huge, Platform::Linux)) {
        MemoryError::Region(text) => {
            assert_eq!(text, format!("cannot map {} bytes", isize::MAX as u64 + 65536))
        }
        other => panic!("{other:?}"),
    }
}

#[test]
fn layouts() {
    assert_eq!(
        layout(&ty(2, None, false), &dynamic()).unwrap(),
        MemoryLayout {
            mapped_bytes: 131072,
            request_bytes: 196608,
            guard_bytes: 65536
        }
    );
    assert_eq!(
        layout(&ty(2, None, false), &fixed(10)).unwrap(),
        MemoryLayout {
            mapped_bytes: 131072,
            request_bytes: 720896,
            guard_bytes: 65536
        }
    );
    assert!(layout(&ty(65537, None, false), &fixed(10)).is_err());
}

#[test]
fn a_file_shows_through() {
    let mut file = vec![5u8; 65536 + 100];
    file[0] = 9;
    let memory =
        VMOwnedMemory::new_with_file(&ty(1, None, false), &fixed(10), Platform::Linux, &file)
            .unwrap_or_else(|e| panic!("{e:?}"));
    assert_eq!(memory.size(), Pages(2));
    let image = memory.snapshot_image();
    assert_eq!(image.len(), 131072);
    assert_eq!(&image[..65636], &file[..]);
    assert!(image[65636..].iter().all(|&b| b == 0));
    let copy = VMOwnedMemory::copy(&memory).unwrap_or_else(|e| panic!("{e:?}"));
    assert_eq!(copy.snapshot_image(), image);
    assert_eq!(copy.size(), Pages(2));
    let cow = memory.snapshot_cow().unwrap_or_else(|e| panic!("{e:?}"));
    assert_eq!((cow.pages, cow.image.len()), (Pages(2), 131072));
    let short = VMOwnedMemory::from_definition_with_file(
        &ty(1, None, false),
        &fixed(10),
        Platform::Linux,
        7,
        Some(&[1, 2, 3]),
    )
    .unwrap_or_else(|e| panic!("{e:?}"));
    let image = short.snapshot_image();
    assert_eq!(image.len(), 65536);
    assert_eq!(&image[..5], &[1, 2, 3, 0, 0]);
}

#[test]
fn a_file_shows_no_further_than_room_is_set_aside() {
    // The file fills the room and the guard room behind it, and ends beyond.
    let file = vec![6u8; 5 * 65536 + 1];
    let bounded =
        VMOwnedMemory::new_with_file(&ty(1, None, false), &fixed(3), Platform::Linux, &file)
            .unwrap_or_else(|e| panic!("{e:?}"));
    assert_eq!(bounded.size(), Pages(3));
    assert_eq!(bounded.snapshot_image(), file[..3 * 65536]);

    // Of dynamic style, a memory has the room of its declared pages; moving keeps them.
    let mut moving =
        VMOwnedMemory::new_with_file(&ty(2, None, false), &dynamic(), Platform::Linux, &file)
            .unwrap_or_else(|e| panic!("{e:?}"));
    assert_eq!(moving.size(), Pages(2));
    assert_eq!(moving.grow(Pages(1)).unwrap(), Pages(2));
    let image = moving.snapshot_image();
    assert_eq!(&image[..131072], &file[..131072]);
    assert!(image[131072..].iter().all(|&b| b == 0));

    // A file that ends with a page does not begin another.
    assert_eq!(fresh_size(&ty(1, None, false), &fixed(9), 131072), Pages(2));
    assert_eq!(fresh_size(&ty(1, None, false), &fixed(9), 131073), Pages(3));
    assert_eq!(fresh_size(&ty(1, None, false), &fixed(9), 0), Pages(1));
    assert_eq!(fresh_size(&ty(0, None, false), &fixed(9), 0), Pages(0));
    assert_eq!(fresh_size(&ty(1, None, false), &fixed(9), usize::MAX), Pages(9));
}

#[test]
fn captures_know_where_they_can_go() {
    let memory = VMMemory::from_custom(owned(2, Some(5), fixed(5)));
    let cow = memory.snapshot_cow().unwrap_or_else(|e| panic!("{e:?}"));
    assert!(memory.takes_cow(&cow));
    // Elsewhere it is refused, so nothing is asked of its length.
    let other = VMMemory::from_custom(owned(1, Some(1), fixed(1)));
    assert!(other.takes_cow(&cow));
    let long = CowBacking { image: vec![0; 6 * 65536], pages: Pages(6), base: cow.base };
    assert!(!memory.takes_cow(&long));
    let ragged = CowBacking { image: vec![0; 65537], pages: Pages(1), base: cow.base };
    assert!(!ragged.is_whole());
    assert!(!memory.takes_cow(&ragged));
    let shared = VMMemory::new(&ty(1, Some(5), true), &fixed(5), Platform::Linux)
        .unwrap_or_else(|e| panic!("{e:?}"));
    assert!(shared.takes_cow(&long));
}

#[test]
fn a_copy_refuses_the_capture_of_its_original() {
    let memory = owned(1, Some(5), fixed(5));
    let cow = memory.snapshot_cow().unwrap_or_else(|e| panic!("{e:?}"));
    let mut copy = VMOwnedMemory::copy(&memory).unwrap_or_else(|e| panic!("{e:?}"));
    assert_eq!(
        generic(refusal(copy.restore_cow(&cow))),
        "memory base moved since snapshot; cow restore is invalid"
    );
}

#[test]
fn growing_in_place_and_moving() {
    let mut memory = owned(1, Some(10), fixed(10));
    let base = memory.vmmemory().base;
    memory.initialize_with_data(0, b"here").unwrap();
    assert_eq!(memory.grow(Pages(2)).unwrap(), Pages(1));
    assert_eq!(memory.ty(), ty(3, Some(10), false));
    assert_eq!(memory.vmmemory().base, base);
    assert_eq!(memory.vmmemory().current_length, 196608);

    let mut moving = owned(1, None, dynamic());
    let base = moving.vmmemory().base;
    moving.initialize_with_data(65532, b"last").unwrap();
    assert_eq!(moving.grow(Pages(1)).unwrap(), Pages(1));
    assert_ne!(moving.vmmemory().base, base);
    let image = moving.snapshot_image();
    assert_eq!(&image[65532..65536], b"last");
    assert!(image[65536..].iter().all(|&b| b == 0));
    assert_eq!(moving.grow(Pages(0)).unwrap(), Pages(2));
    assert_eq!(moving.style(), dynamic());
}

#[test]
fn growing_past_the_limits_is_refused() {
    let mut memory = owned(1, Some(3), dynamic());
    assert!(matches!(
        refusal(memory.grow(Pages(3))),
        MemoryError::CouldNotGrow {
            current: Pages(1),
            attempted_delta: Pages(3)
        }
    ));
    let mut unlimited = owned(1, None, dynamic());
    assert!(matches!(
        refusal(unlimited.grow(Pages(u32::MAX))),
        MemoryError::CouldNotGrow {
            current: Pages(1),
            attempted_delta: Pages(u32::MAX)
        }
    ));
    assert_eq!(unlimited.size(), Pages(1));
    // There is no room for one page more besides the guard room.
    let guard = isize::MAX as u64 - 65535;
    let mut cramped = owned(0, None, MemoryStyle::Dynamic { offset_guard_size: guard });
    match refusal(cramped.grow(Pages(1))) {
        MemoryError::Region(text) => {
            assert_eq!(text, format!("cannot map {} bytes", guard + 65536))
        }
        other => panic!("{other:?}"),
    }
    assert_eq!(cramped.size(), Pages(0));
}

#[test]
fn static_memories_never_move() {
    let mut memory = owned(1, Some(10), fixed(3));
    let base = memory.vmmemory().base;
    assert_eq!(memory.grow(Pages(2)).unwrap(), Pages(1));
    assert_eq!(memory.vmmemory().base, base);
    assert!(matches!(
        refusal(memory.grow(Pages(1))),
        MemoryError::CouldNotGrow {
            current: Pages(3),
            attempted_delta: Pages(1)
        }
    ));
    assert_eq!(memory.vmmemory().base, base);
    assert_eq!(memory.size(), Pages(3));
}

#[test]
fn growth_plans() {
    assert_eq!(
        plan_grow(Pages(1), Pages(2), Some(Pages(5)), fixed(10), 720896, 65536).unwrap(),
        (
            Pages(3),
            GrowPlan::Extend {
                start: 65536,
                len: 131072
            }
        )
    );
    assert_eq!(
        plan_grow(Pages(1), Pages(2), None, dynamic(), 131072, 65536).unwrap(),
        (
            Pages(3),
            GrowPlan::Move {
                accessible: 196608,
                total: 262144,
                copied: 65536
            }
        )
    );
    assert_eq!(
        plan_grow(Pages(4), Pages(0), Some(Pages(1)), dynamic(), 0, 0).unwrap(),
        (Pages(4), GrowPlan::Keep)
    );
    assert!(plan_grow(Pages(1), Pages(2), None, fixed(1), 131072, 65536).is_err());
}

#[test]
fn growing_at_least() {
    let mut memory = owned(1, Some(10), fixed(10));
    memory.grow_at_least(65536).unwrap();
    assert_eq!(memory.size(), Pages(1));
    memory.grow_at_least(65537).unwrap();
    assert_eq!(memory.size(), Pages(2));
    memory.grow_at_least(4 * 65536).unwrap();
    assert_eq!(memory.size(), Pages(4));
    assert!(matches!(
        refusal(memory.grow_at_least(u64::MAX)),
        MemoryError::CouldNotGrow {
            current: Pages(4),
            attempted_delta: Pages(u32::MAX)
        }
    ));
    assert_eq!(memory.size(), Pages(4));
}

#[test]
fn resetting_a_memory_takes_its_pages() {
    let mut memory = owned(2, Some(10), fixed(10));
    memory.initialize_with_data(10, &[1]).unwrap();
    LinearMemory::reset(&mut memory).unwrap();
    assert_eq!(memory.size(), Pages(0));
    assert!(memory.snapshot_image().is_empty());
    // The bytes stay where they are.
    memory.grow(Pages(1)).unwrap();
    assert_eq!(memory.snapshot_image()[10], 1);
}

#[test]
fn images_go_back() {
    let mut memory = owned(3, Some(10), fixed(10));
    memory.initialize_with_data(100, b"baseline").unwrap();
    let image = memory.snapshot_image();
    memory.initialize_with_data(100, b"scribble").unwrap();
    memory.grow(Pages(2)).unwrap();
    memory.initialize_with_data(4 * 65536, b"above").unwrap();
    memory.restore_image(&image).unwrap();
    assert_eq!(memory.snapshot_image(), image);
    memory.grow(Pages(2)).unwrap();
    assert!(memory.snapshot_image()[3 * 65536..].iter().all(|&b| b == 0));

    // A memory that lost its pages grows back.
    LinearMemory::reset(&mut memory).unwrap();
    memory.restore_image(&image).unwrap();
    assert_eq!(memory.snapshot_image(), image);

    // One that may not grow that far cannot.
    let mut small = owned(1, Some(2), dynamic());
    assert!(matches!(
        refusal(small.restore_image(&image)),
        MemoryError::CouldNotGrow {
            current: Pages(1),
            attempted_delta: Pages(2)
        }
    ));
}

#[test]
fn bounded_restores_leave_the_rest() {
    let mut memory = owned(1, Some(10), fixed(10));
    memory.initialize_with_data(0, b"abc").unwrap();
    let image = memory.snapshot_image();
    memory.initialize_with_data(0, &[0xff; 300]).unwrap();
    memory.restore_image_bounded(&image, 3, 200).unwrap();
    let now = memory.snapshot_image();
    assert_eq!(&now[..200], &image[..200]);
    assert!(now[200..300].iter().all(|&b| b == 0xff));
    assert_eq!(memory.size(), Pages(1));
    // A bound past the end is the end.
    memory.restore_image_bounded(&image, 3, usize::MAX).unwrap();
    assert_eq!(memory.snapshot_image(), image);
    // A bound below the copied part copies only so far.
    memory.initialize_with_data(0, b"xyz").unwrap();
    memory.restore_image_bounded(&image, 3, 1).unwrap();
    assert_eq!(&memory.snapshot_image()[..3], b"ayz");
}

#[test]
fn cow_captures_go_back() {
    let mut memory = owned(1, Some(10), fixed(10));
    assert!(memory.supports_cow_snapshot());
    memory.initialize_with_data(7, b"pristine").unwrap();
    let cow = memory.snapshot_cow().unwrap_or_else(|e| panic!("{e:?}"));
    assert_eq!(cow.pages, Pages(1));
    assert_eq!(cow.base, memory.vmmemory().base);
    memory.initialize_with_data(7, b"changed!").unwrap();
    memory.grow(Pages(3)).unwrap();
    memory.initialize_with_data(3 * 65536, &[1]).unwrap();
    memory.restore_cow(&cow).unwrap();
    assert_eq!(memory.snapshot_image(), cow.image);
    memory.grow(Pages(3)).unwrap();
    assert_eq!(memory.snapshot_image()[3 * 65536], 0);
}

#[test]
fn a_moved_memory_refuses_its_capture() {
    let mut memory = owned(1, None, dynamic());
    assert!(!memory.supports_cow_snapshot());
    let cow = memory.snapshot_cow().unwrap_or_else(|e| panic!("{e:?}"));
    memory.grow(Pages(1)).unwrap();
    match refusal(memory.restore_cow(&cow)) {
        MemoryError::Generic(text) => assert_eq!(
            text,
            "memory base moved since snapshot; cow restore is invalid"
        ),
        other => panic!("{other:?}"),
    }
    assert_eq!(memory.size(), Pages(2));
}

fn unsupported(error: MemoryError) -> String {
    match error {
        MemoryError::UnsupportedOperation { message } => message,
        other => panic!("{other:?}"),
    }
}

#[test]
fn captures_elsewhere_are_not_supported() {
    let mut elsewhere =
        VMOwnedMemory::new(&ty(1, Some(2), false), &fixed(2), Platform::Other)
            .unwrap_or_else(|e| panic!("{e:?}"));
    assert!(!elsewhere.supports_cow_snapshot());
    assert_eq!(
        unsupported(refusal(elsewhere.snapshot_cow())),
        "snapshot_cow() is only supported on Linux"
    );
    let cow = owned(1, None, fixed(2))
        .snapshot_cow()
        .unwrap_or_else(|e| panic!("{e:?}"));
    assert_eq!(
        unsupported(refusal(elsewhere.restore_cow(&cow))),
        "restore_cow() is only supported on Linux"
    );
    let mut shared = VMSharedMemory::new(&ty(1, Some(2), true), &fixed(2), Platform::Linux)
        .unwrap_or_else(|e| panic!("{e:?}"));
    assert!(!shared.supports_cow_snapshot());
    assert_eq!(
        unsupported(refusal(shared.snapshot_cow())),
        "snapshot_cow() is not supported"
    );
    assert_eq!(
        unsupported(refusal(shared.restore_cow(&cow))),
        "restore_cow() is not supported"
    );
}

#[test]
fn owned_memories_have_one_handle() {
    let mut memory = owned(1, Some(5), fixed(5));
    memory.initialize_with_data(3, &[3]).unwrap();
    assert!(matches!(refusal(memory.try_clone()), MemoryError::MemoryNotShared));
    assert!(matches!(refusal(memory.as_shared()), MemoryError::MemoryNotShared));
    assert_eq!(memory.notify_location(8), Err(WaiterError::Unimplemented));
    let copy = VMOwnedMemory::copy(&memory).unwrap_or_else(|e| panic!("{e:?}"));
    memory.initialize_with_data(3, &[4]).unwrap();
    assert_eq!(copy.snapshot_image()[3], 3);
    assert_ne!(copy.vmmemory().base, memory.vmmemory().base);
    let wrapped = VMMemory::from_custom(memory);
    assert_eq!(wrapped.get_runtime_size(), 1);
    let copy = wrapped.copy().unwrap_or_else(|e| panic!("{e:?}"));
    assert_eq!(copy.snapshot_image()[3], 4);
    assert!(matches!(refusal(wrapped.try_clone()), MemoryError::MemoryNotShared));
}

#[test]
fn handles_of_a_shared_memory_see_the_same_bytes() {
    let made = VMMemory::new(&ty(1, Some(5), true), &fixed(5), Platform::Linux);
    let mut first = made.unwrap_or_else(|e| panic!("{e:?}"));
    assert!(matches!(first, VMMemory::Shared(_)));
    let mut second = first.try_clone().unwrap_or_else(|e| panic!("{e:?}"));
    first.initialize_with_data(10, b"both").unwrap();
    assert_eq!(&second.snapshot_image()[10..14], b"both");
    assert_eq!(second.grow(Pages(1)).unwrap(), Pages(1));
    assert_eq!(first.size(), Pages(2));
    assert_eq!(first.ty(), ty(2, Some(5), true));
    assert_eq!(first.vmmemory(), second.vmmemory());
    let mut apart = first.copy().unwrap_or_else(|e| panic!("{e:?}"));
    apart.initialize_with_data(10, b"solo").unwrap();
    assert_eq!(&first.snapshot_image()[10..14], b"both");

    let image = first.snapshot_image();
    second.initialize_with_data(0, &[1; 40]).unwrap();
    first.restore_image(&image).unwrap();
    assert_eq!(second.snapshot_image(), image);
    second.initialize_with_data(0, &[1; 40]).unwrap();
    first.restore_image_bounded(&image, 14, 40).unwrap();
    assert_eq!(second.snapshot_image(), image);
    first.grow_at_least(3 * 65536).unwrap();
    assert_eq!(second.get_runtime_size(), 3);
    LinearMemory::reset(&mut first).unwrap();
    assert_eq!(second.size(), Pages(0));
    assert!(second.initialize_with_data(0, &[1]).is_err());
    let shared = first.as_shared().unwrap_or_else(|e| panic!("{e:?}"));
    assert_eq!(
        shared.notify_location(16),
        Ok(NotifyLocation {
            address: 16,
            memory_base: first.vmmemory().base
        })
    );
    let custom = VMMemory::from_custom(shared);
    assert_eq!(custom.style(), fixed(5));
}

#[test]
fn definitions_may_belong_to_an_instance() {
    let memory = VMMemory::from_definition(&ty(2, None, false), &fixed(4), Platform::Linux, 3)
        .unwrap_or_else(|e| panic!("{e:?}"));
    assert_eq!(memory.size(), Pages(2));
    let shared = VMSharedMemory::from_definition(&ty(2, Some(4), true), &fixed(4), Platform::Linux, 3)
        .unwrap_or_else(|e| panic!("{e:?}"));
    assert_eq!(shared.size(), Pages(2));
    let filed = VMSharedMemory::from_definition_with_file(
        &ty(1, Some(4), true),
        &fixed(4),
        Platform::Linux,
        3,
        None,
    )
    .unwrap_or_else(|e| panic!("{e:?}"));
    assert_eq!(filed.size(), Pages(1));
    let filed =
        VMSharedMemory::new_with_file(&ty(1, Some(4), true), &fixed(4), Platform::Linux, &[8; 9])
            .unwrap_or_else(|e| panic!("{e:?}"));
    assert_eq!(&filed.snapshot_image()[..10], &[8, 8, 8, 8, 8, 8, 8, 8, 8, 0]);
    assert!(VMMemory::from_definition(&ty(65537, None, true), &fixed(4), Platform::Linux, 3).is_err());
}

#[test]
fn mappings() {
    let file = [1u8, 2, 3];
    let mut mapping = Mmap::accessible_reserved(2, 8, &file).unwrap_or_else(|e| panic!("{e}"));
    assert_eq!(mapping.as_slice_accessible(), &[1, 2]);
    assert_eq!(mapping.len(), 8);
    mapping.make_accessible(2, 4);
    assert_eq!(mapping.as_slice_accessible(), &[1, 2, 0, 0, 0, 0]);
    mapping.write(1, &[9, 9]);
    mapping.zero(0, 2);
    assert_eq!(mapping.as_slice_accessible(), &[0, 0, 9, 0, 0, 0]);
    let copy = mapping.copy(2);
    assert_eq!(copy.as_slice_accessible(), &[0, 0, 0, 0, 0, 0]);
    assert_ne!(copy.as_ptr(), mapping.as_ptr());
    assert!(try_take(2, 8).is_none());
    let returned = try_pool(mapping).unwrap();
    assert_eq!(returned.as_slice_accessible(), &[0, 0, 9, 0, 0, 0]);
    let short = Mmap::accessible_reserved(6, 8, &file).unwrap_or_else(|e| panic!("{e}"));
    assert_eq!(short.as_slice_accessible(), &[1, 2, 3, 0, 0, 0]);
    let first = short.as_ptr();
    let again = short.apart_from(&returned);
    assert_eq!(again.as_ptr(), first);
    assert_ne!(again.as_ptr(), returned.as_ptr());

    let pages = Mmap::accessible_reserved(65536, 131072, &file).unwrap_or_else(|e| panic!("{e}"));
    let mut memory = WasmMmap::new(pages, 65536, MaybeInstanceOwned::Host);
    initialize_memory_with_data(&mut memory, 0, &[4]).unwrap();
    assert_eq!(memory.size(), Pages(1));
    assert_eq!(memory.live().len(), 65536);
    assert_eq!(&memory.live()[..5], &[4, 2, 3, 0, 0]);
}

fn generic(error: MemoryError) -> String {
    match error {
        MemoryError::Generic(text) => text,
        other => panic!("{other:?}"),
    }
}

#[test]
fn capturing_step_by_step() {
    let mut steps = vec![];
    let mut step = CaptureStep::CreateFile;
    while !step.is_finished() {
        steps.push(step);
        step = step.next(65536, Ok(())).unwrap();
    }
    assert_eq!(
        steps,
        vec![CaptureStep::CreateFile, CaptureStep::ResizeFile, CaptureStep::FillFile]
    );
    assert_eq!(
        CaptureStep::CreateFile.next(0, Ok(())).unwrap(),
        CaptureStep::Finished
    );
    let failed = |step: CaptureStep| generic(refusal(step.next(1, Err("no room".to_string()))));
    assert_eq!(failed(CaptureStep::CreateFile), "memfd_create failed: no room");
    assert_eq!(failed(CaptureStep::ResizeFile), "ftruncate failed: no room");
    assert_eq!(failed(CaptureStep::FillFile), "mmap(memfd) failed: no room");
}

#[test]
fn restoring_step_by_step() {
    let first = RestoreStep::first(16, 300, 16, 200).unwrap();
    assert_eq!(first, RestoreStep::Remap { len: 200 });
    let second = first.next(300, 200, Ok(())).unwrap();
    assert_eq!(second, RestoreStep::Discard { start: 200, len: 100 });
    assert_eq!(second.next(300, 200, Ok(())).unwrap(), RestoreStep::Finished);
    assert_eq!(first.next(100, 200, Ok(())).unwrap(), RestoreStep::Finished);
    assert_eq!(
        RestoreStep::first(16, 300, 16, 0).unwrap(),
        RestoreStep::Discard { start: 0, len: 300 }
    );
    assert_eq!(
        generic(refusal(RestoreStep::first(16, 300, 32, 200))),
        "memory base moved since snapshot; cow restore is invalid"
    );
    assert_eq!(
        generic(refusal(first.next(300, 200, Err("no".to_string())))),
        "MAP_FIXED cow remap failed: no"
    );
    assert_eq!(
        generic(refusal(second.next(300, 200, Err("no".to_string())))),
        "madvise(MADV_DONTNEED) failed: no"
    );
}

#[test]
fn zeros_go_past_the_cache_where_there_are_many() {
    assert_eq!(plan_zero(3, 0), ZeroPlan::Cached);
    assert_eq!(plan_zero(3, 524288), ZeroPlan::Cached);
    assert_eq!(
        plan_zero(3, 524289),
        ZeroPlan::Streamed { head: 13, blocks: 32767, tail: 4 }
    );
    assert_eq!(
        plan_zero(32, 1048576),
        ZeroPlan::Streamed { head: 0, blocks: 65536, tail: 0 }
    );
}

#[test]
fn bounded_restores_stop_in_time() {
    assert_eq!(bounded_parts(100, 80, 30, 50), (30, 50));
    assert_eq!(bounded_parts(100, 80, 60, 50), (50, 50));
    assert_eq!(bounded_parts(100, 80, 30, 90), (30, 80));
    assert_eq!(bounded_parts(70, 80, 30, 90), (30, 70));
}
