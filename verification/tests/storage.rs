use std::io::{Read as _, Seek as _, Write as _};

use devbar::allocator::{AllocationPlan, DevbarAllocator};
use devbar::bar::{check_aperture, has_nul, BarAction, BarEvent, BarMapping};
use devbar::storage::{DevbarStorage, RegionDescriptor, ReleaseStep, NIXL_KEY};
use devbar::types::{MemType, StorageError, StorageType};

type Storage = DevbarStorage<u32>;

/// Memory in the place of a mapping of `len` bytes.
fn memory(len: usize) -> Vec<u8> {
    vec![0; len]
}

fn addr_of(memory: &[u8]) -> u64 {
    memory.as_ptr() as u64
}

/// Carries out a plan for a mock region over `memory`.
fn provide_mock(plan: AllocationPlan, memory: &[u8]) -> Result<Storage, StorageError> {
    match plan {
        AllocationPlan::Mock { size, device_id } => {
            assert_eq!(size, memory.len());
            Storage::mock(size, device_id, Ok(addr_of(memory)))
        }
        other => panic!("not a mock region: {:?}", other),
    }
}

/// Carries out a plan for pinned memory over `memory`.
fn provide_pinned(plan: AllocationPlan, memory: &[u8]) -> Result<Storage, StorageError> {
    match plan {
        AllocationPlan::Pinned { size, device_id } => {
            assert_eq!(size, memory.len());
            Storage::pinned_fallback(size, device_id, Ok(addr_of(memory)))
        }
        other => panic!("not pinned memory: {:?}", other),
    }
}

/// Carries the mapping of the file of `path` through, with its bytes read into `bytes` in the
/// place of a mapping.
fn provide_bar(
    mut mapping: BarMapping,
    file: &mut tempfile::NamedTempFile,
    bytes: &mut Vec<u8>,
) -> Result<Storage, StorageError> {
    let mut closed = 0;
    loop {
        let event = match mapping.action() {
            BarAction::ExplainPath => panic!("a path without a NUL"),
            BarAction::Open => {
                assert_eq!(mapping.path(), file.path().to_string_lossy());
                BarEvent::Opened
            }
            BarAction::ReadSize => BarEvent::SizeRead {
                aperture_size: file.as_file().metadata().expect("metadata").len(),
                page_size: 4096,
            },
            BarAction::MapFile { len, offset } => {
                file.seek(std::io::SeekFrom::Start(offset)).expect("seek");
                bytes.resize(len, 0);
                file.read_exact(bytes).expect("read");
                BarEvent::MapReturned(addr_of(bytes))
            }
            BarAction::Close => {
                closed += 1;
                BarEvent::Closed(String::new())
            }
            BarAction::Finish => break,
        };
        mapping = mapping.step(event);
    }
    assert_eq!(closed, 1);
    mapping.finish().expect("a result at the end")
}

#[test]
fn test_devbar_mock_roundtrip_and_descriptor() {
    let allocator = DevbarAllocator::mock(3);
    let mut memory = memory(4096);
    let storage =
        provide_mock(allocator.allocate(4096), &memory).expect("mock devbar allocation");

    assert_eq!(storage.size(), 4096);
    assert_ne!(storage.addr(), 0, "Address should be non-zero");
    assert!(storage.is_devbar_backed());
    assert_eq!(storage.storage_type(), StorageType::Device(3));
    assert_eq!(storage.device_id(), 3);
    assert_eq!(storage.mem_type(), MemType::Vram);

    for i in 0..4096 {
        memory[i] = (i & 0xFF) as u8;
    }
    for i in 0..4096 {
        assert_eq!(memory[i], (i & 0xFF) as u8);
    }

    storage.memset(&mut memory, 0xAB, 0, 4096).unwrap();
    assert_eq!(memory[0], 0xAB);
    assert!(memory.iter().all(|b| *b == 0xAB));
}

#[test]
fn test_devbar_pinned_fallback_descriptor() {
    let allocator = DevbarAllocator::default();
    let memory = memory(8192);
    let storage =
        provide_pinned(allocator.allocate(8192), &memory).expect("pinned fallback allocation");

    assert!(!storage.is_devbar_backed());
    assert_eq!(storage.storage_type(), StorageType::Pinned);
    assert_eq!(storage.device_id(), 0);
    assert_eq!(storage.mem_type(), MemType::Dram);
}

#[test]
fn test_devbar_no_descriptor_before_registration() {
    let memory = memory(1024);
    let storage = Storage::mock(1024, 0, Ok(addr_of(&memory))).unwrap();
    assert!(storage.as_nixl_descriptor().is_none());
}

#[test]
fn test_devbar_from_bar_roundtrip_and_aperture_validation() {
    let mut file = tempfile::NamedTempFile::new().expect("temp file");
    file.write_all(&[0x5A; 1024]).expect("write pattern");
    file.flush().expect("flush");
    file.rewind().expect("rewind");
    let path = file.path().to_string_lossy().into_owned();

    let mut bytes = Vec::new();
    let mapping = Storage::from_bar(path.clone(), 0, 1024, 7);
    let storage = provide_bar(mapping, &mut file, &mut bytes)
        .expect("mmap of ordinary file as devbar region");
    assert!(storage.is_devbar_backed());
    assert_eq!(storage.storage_type(), StorageType::Device(7));
    assert_eq!(storage.device_id(), 7);
    assert_eq!(storage.mem_type(), MemType::Vram);
    assert_eq!(bytes[0], 0x5A);
    drop(storage);

    // Requesting past the aperture must be rejected with the sizing
    // guidance error.
    let mapping = Storage::from_bar(path.clone(), 0, 2048, 7);
    let err = provide_bar(mapping, &mut file, &mut bytes)
        .expect_err("aperture overflow must be rejected");
    assert!(matches!(err, StorageError::InvalidConfig(_)));
    assert_eq!(
        err,
        StorageError::InvalidConfig(format!(
            "devbar request (offset 0 + 2048 bytes) exceeds aperture size (1024 bytes) of {}. \
             KVBM tier-2 capacity must be >= the GPU KV cache size; reduce DYN_KVBM_CPU_CACHE_GB.",
            path
        ))
    );
}

#[test]
fn test_devbar_pinned_fallback_nixl_registration() {
    let memory = memory(4096);
    let mut storage = Storage::pinned_fallback(4096, None, Ok(addr_of(&memory))).unwrap();
    assert!(storage.as_nixl_descriptor().is_none());

    storage.register(NIXL_KEY, 17).unwrap();
    assert!(storage.is_registered(NIXL_KEY));

    let desc = storage.as_nixl_descriptor().expect("descriptor after registration");
    assert_eq!(desc.size, 4096);
    assert_eq!(desc.mem_type, MemType::Dram);
    assert_eq!(desc.device_id, 0);
}

#[test]
fn registrations_are_found_by_key() {
    let mut storage = Storage::mock(64, 1, Ok(0x1000)).unwrap();
    assert!(!storage.is_registered("cuda"));
    assert_eq!(storage.registration_handle("cuda"), None);
    assert_eq!(storage.register("cuda", 5), Ok(()));
    assert_eq!(storage.register(NIXL_KEY, 6), Ok(()));
    assert_eq!(storage.registration_handle("cuda"), Some(&5));
    assert_eq!(storage.registration_handle(NIXL_KEY), Some(&6));
    assert_eq!(
        storage.register("cuda", 7),
        Err(StorageError::RegistrationKeyExists("cuda".to_string()))
    );
    assert_eq!(storage.registration_handle("cuda"), Some(&5));
    assert_eq!(
        storage.as_nixl_descriptor(),
        Some(RegionDescriptor { addr: 0x1000, size: 64, mem_type: MemType::Vram, device_id: 1 })
    );
    assert_eq!(
        storage.release(),
        vec![
            ReleaseStep::Handle(5),
            ReleaseStep::Handle(6),
            ReleaseStep::Unmap { addr: 0x1000, len: 64 },
        ]
    );
}

#[test]
fn pinned_memory_is_freed_after_its_registrations() {
    let mut storage = Storage::pinned_fallback(64, Some(2), Ok(0x2000)).unwrap();
    assert_eq!(storage.device_id(), 2);
    assert_eq!(storage.storage_type(), StorageType::Pinned);
    storage.register(NIXL_KEY, 8).unwrap();
    assert_eq!(storage.release(), vec![ReleaseStep::Handle(8), ReleaseStep::FreePinned]);
}

#[test]
fn memset_fills_its_part_only() {
    let storage = Storage::mock(8, 0, Ok(0x1000)).unwrap();
    let mut memory = vec![1u8; 8];
    storage.memset(&mut memory, 9, 2, 3).unwrap();
    assert_eq!(memory, vec![1, 1, 9, 9, 9, 1, 1, 1]);
    storage.memset(&mut memory, 7, 8, 0).unwrap();
    assert_eq!(memory, vec![1, 1, 9, 9, 9, 1, 1, 1]);
    storage.memset(&mut memory, 4, 2, 3).unwrap();
    assert_eq!(memory, vec![1, 1, 4, 4, 4, 1, 1, 1]);
    assert_eq!(
        storage.memset(&mut memory, 5, 6, 3),
        Err(StorageError::OperationFailed("memset: offset + size > storage size".to_string()))
    );
    let refused = |res: Result<(), StorageError>| matches!(res, Err(StorageError::OperationFailed(_)));
    assert!(refused(storage.memset(&mut memory, 5, 9, 0)));
    assert!(refused(storage.memset(&mut memory, 5, 2, usize::MAX)));
    assert!(refused(storage.memset(&mut memory, 5, usize::MAX, usize::MAX)));
    assert_eq!(memory, vec![1, 1, 4, 4, 4, 1, 1, 1]);
}

#[test]
fn failed_allocations() {
    assert_eq!(
        Storage::mock(8, 0, Err("Cannot allocate memory (os error 12)".to_string())).unwrap_err(),
        StorageError::AllocationFailed(
            "anonymous mmap failed: Cannot allocate memory (os error 12)".to_string()
        )
    );
    assert_eq!(
        Storage::mock(8, 0, Ok(0)).unwrap_err(),
        StorageError::AllocationFailed("mmap returned null".to_string())
    );
    assert_eq!(
        Storage::pinned_fallback(8, None, Ok(0)).unwrap_err(),
        StorageError::AllocationFailed("pinned allocation returned null".to_string())
    );
    assert_eq!(
        Storage::pinned_fallback(
            8,
            None,
            Err(StorageError::AllocationFailed("no driver".to_string()))
        )
        .unwrap_err(),
        StorageError::AllocationFailed("no driver".to_string())
    );
}

#[test]
fn aperture_checks() {
    assert_eq!(check_aperture("/r", 4096, 4096, 8192, 4096), Ok(()));
    assert_eq!(check_aperture("/r", 0, 0, 0, 4096), Ok(()));
    assert_eq!(check_aperture("/r", 0, 16, 16, 0), Ok(()));
    assert_eq!(
        check_aperture("/r", 100, 4096, 8192, 4096),
        Err(StorageError::InvalidConfig(
            "devbar offset 100 is not page-aligned; sysfs resource mmap requires a page-aligned \
             offset of /r."
                .to_string()
        ))
    );
    assert_eq!(
        check_aperture("/r", 1, 16, 32, 0),
        Err(StorageError::InvalidConfig(
            "devbar offset 1 is not page-aligned; sysfs resource mmap requires a page-aligned \
             offset of /r."
                .to_string()
        ))
    );
    assert_eq!(
        check_aperture("/r", 18446744073709547520, 4096, u64::MAX, 4096),
        Err(StorageError::InvalidConfig(
            "devbar request (offset 18446744073709547520 + 4096 bytes) overflows of /r."
                .to_string()
        ))
    );
    assert_eq!(
        check_aperture("/r", 4096, 4097, 8192, 4096),
        Err(StorageError::InvalidConfig(
            "devbar request (offset 4096 + 4097 bytes) exceeds aperture size (8192 bytes) of /r. \
             KVBM tier-2 capacity must be >= the GPU KV cache size; reduce DYN_KVBM_CPU_CACHE_GB."
                .to_string()
        ))
    );
}

/// The result of a mapping of `/r` after `events`.
fn after(events: Vec<BarEvent>) -> Option<Result<Storage, StorageError>> {
    let mut mapping = Storage::from_bar("/r".to_string(), 4096, 4096, 7);
    for event in events {
        mapping = mapping.step(event);
    }
    mapping.finish()
}

fn error_after(events: Vec<BarEvent>) -> StorageError {
    after(events).expect("a result").unwrap_err()
}

fn fitting() -> BarEvent {
    BarEvent::SizeRead { aperture_size: 8192, page_size: 4096 }
}

#[test]
fn mapping_goes_step_by_step() {
    let mut mapping = Storage::from_bar("/r".to_string(), 4096, 4096, 7);
    assert_eq!(mapping.action(), BarAction::Open);
    mapping = mapping.step(BarEvent::MapReturned(0x1000));
    assert_eq!(mapping.action(), BarAction::Open);
    mapping = mapping.step(BarEvent::Opened);
    assert_eq!(mapping.action(), BarAction::ReadSize);
    mapping = mapping.step(fitting());
    assert_eq!(mapping.action(), BarAction::MapFile { len: 4096, offset: 4096 });
    mapping = mapping.step(BarEvent::MapReturned(0x1000));
    assert_eq!(mapping.action(), BarAction::Close);
    mapping = mapping.step(BarEvent::Closed("Success".to_string()));
    assert_eq!(mapping.action(), BarAction::Finish);
    let storage: Storage = mapping.finish().expect("a result").expect("a storage");
    assert_eq!(storage.addr(), 0x1000);
    assert_eq!(storage.size(), 4096);
    assert_eq!(storage.device_id(), 7);
    assert_eq!(storage.release(), vec![ReleaseStep::Unmap { addr: 0x1000, len: 4096 }]);
}

#[test]
fn mapping_has_no_result_before_its_end() {
    assert!(after(vec![]).is_none());
    assert!(after(vec![BarEvent::Opened, BarEvent::SizeFailed]).is_none());
}

#[test]
fn mapping_fails_by_each_step() {
    assert_eq!(
        error_after(vec![BarEvent::OpenFailed("E".to_string())]),
        StorageError::AllocationFailed("failed to open devbar region file /r: E".to_string())
    );
    assert_eq!(
        error_after(vec![
            BarEvent::Opened,
            BarEvent::SizeFailed,
            BarEvent::Closed("E".to_string()),
        ]),
        StorageError::AllocationFailed("fstat failed for /r: E".to_string())
    );
    assert!(matches!(
        error_after(vec![
            BarEvent::Opened,
            BarEvent::SizeRead { aperture_size: 8191, page_size: 4096 },
            BarEvent::MapReturned(0x1000),
            BarEvent::Closed("E".to_string()),
        ]),
        StorageError::InvalidConfig(_)
    ));
    assert_eq!(
        error_after(vec![
            BarEvent::Opened,
            fitting(),
            BarEvent::MapFailed,
            BarEvent::Closed("E".to_string()),
        ]),
        StorageError::AllocationFailed("mmap of devbar region /r failed: E".to_string())
    );
    assert_eq!(
        error_after(vec![
            BarEvent::Opened,
            fitting(),
            BarEvent::MapReturned(0),
            BarEvent::Closed("E".to_string()),
        ]),
        StorageError::AllocationFailed("mmap returned null".to_string())
    );
}

#[test]
fn path_with_a_nul_is_not_opened() {
    assert!(!has_nul(""));
    assert!(!has_nul("/r"));
    assert!(has_nul("/r\0"));
    assert!(has_nul("\0"));
    let mut mapping = Storage::from_bar("/r\0/resource0".to_string(), 0, 4096, 7);
    assert_eq!(mapping.action(), BarAction::ExplainPath);
    mapping = mapping.step(BarEvent::Opened);
    assert_eq!(mapping.action(), BarAction::ExplainPath);
    mapping = mapping.step(BarEvent::PathExplained("a NUL at 2".to_string()));
    assert_eq!(mapping.action(), BarAction::Finish);
    let res: Option<Result<Storage, StorageError>> = mapping.finish();
    assert_eq!(
        res.expect("a result").unwrap_err(),
        StorageError::InvalidConfig("a NUL at 2".to_string())
    );
}
