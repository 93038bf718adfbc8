use devbar::allocator::{AllocationPlan, DevbarAllocator};
use devbar::allocator::{
    DYN_KVBM_DEVBAR_BDF, DYN_KVBM_DEVBAR_DEVICE_ID, DYN_KVBM_DEVBAR_MOCK, DYN_KVBM_DEVBAR_OFFSET,
};
use devbar::bar::{BarAction, BarEvent};
use devbar::text::{decimal_string, parse_unsigned};
use devbar::types::{MemType, StorageType};

fn env(vars: &[(&str, &str)]) -> DevbarAllocator {
    let vars = vars.iter().map(|(n, v)| (n.to_string(), v.to_string())).collect();
    DevbarAllocator::from_env(&vars).unwrap()
}

/// The path, the offset and the size of the mapping that the allocator plans.
fn planned(allocator: &DevbarAllocator, size: usize) -> (String, u64, usize) {
    match allocator.allocate(size) {
        AllocationPlan::Bar(mapping) => {
            let mapping = mapping
                .step(BarEvent::Opened)
                .step(BarEvent::SizeRead { aperture_size: u64::MAX, page_size: 1 });
            match mapping.action() {
                BarAction::MapFile { len, offset } => (mapping.path().to_string(), offset, len),
                other => panic!("not a mapping: {:?}", other),
            }
        }
        other => panic!("not a BAR: {:?}", other),
    }
}

#[test]
fn nothing_configured_is_the_pinned_fallback() {
    let allocator = env(&[]);
    assert_eq!(allocator.host_storage_type(), StorageType::Pinned);
    assert!(matches!(
        allocator.allocate(64),
        AllocationPlan::Pinned { size: 64, device_id: Some(0) }
    ));
    assert!(matches!(
        DevbarAllocator::default().allocate(64),
        AllocationPlan::Pinned { size: 64, device_id: Some(0) }
    ));
    assert_eq!(allocator.host_storage_type().nixl_mem_type(), MemType::Dram);
}

#[test]
fn device_is_mapped_from_its_first_bar() {
    let allocator = env(&[(DYN_KVBM_DEVBAR_BDF, "0000:1f:00.0"), (DYN_KVBM_DEVBAR_DEVICE_ID, "5")]);
    assert_eq!(allocator.host_storage_type(), StorageType::Device(5));
    assert_eq!(allocator.host_storage_type().nixl_mem_type(), MemType::Vram);
    assert_eq!(
        planned(&allocator, 512),
        ("/sys/bus/pci/devices/0000:1f:00.0/resource0".to_string(), 0, 512)
    );
}

#[test]
fn offset_is_read_from_its_variable() {
    let with = |offset: &str| {
        let allocator = env(&[(DYN_KVBM_DEVBAR_OFFSET, offset), (DYN_KVBM_DEVBAR_BDF, "b")]);
        planned(&allocator, 1).1
    };
    assert_eq!(with("8192"), 8192);
    assert_eq!(with("+8192"), 8192);
    assert_eq!(with("0x1000"), 0);
    assert_eq!(with(""), 0);
    assert_eq!(with("18446744073709551614"), 18446744073709551614);
}

#[test]
fn mock_wins_over_a_device() {
    let allocator = env(&[
        (DYN_KVBM_DEVBAR_BDF, "0000:1f:00.0"),
        (DYN_KVBM_DEVBAR_MOCK, "1"),
        (DYN_KVBM_DEVBAR_DEVICE_ID, "2"),
    ]);
    assert_eq!(allocator.host_storage_type(), StorageType::Device(2));
    assert!(matches!(allocator.allocate(64), AllocationPlan::Mock { size: 64, device_id: 2 }));
}

#[test]
fn mock_is_on_only_by_one() {
    let off = env(&[(DYN_KVBM_DEVBAR_MOCK, "true"), (DYN_KVBM_DEVBAR_DEVICE_ID, "9")]);
    assert_eq!(off.host_storage_type(), StorageType::Pinned);
    assert!(matches!(
        off.allocate(64),
        AllocationPlan::Pinned { size: 64, device_id: Some(9) }
    ));
    let device = env(&[(DYN_KVBM_DEVBAR_MOCK, "0"), (DYN_KVBM_DEVBAR_BDF, "b")]);
    assert_eq!(planned(&device, 1).0, "/sys/bus/pci/devices/b/resource0");
}

#[test]
fn device_id_is_a_u32_or_zero() {
    let id = |text: &str| match env(&[
        (DYN_KVBM_DEVBAR_DEVICE_ID, text),
        (DYN_KVBM_DEVBAR_MOCK, "1"),
    ])
    .host_storage_type()
    {
        StorageType::Device(id) => id,
        other => panic!("not a device: {:?}", other),
    };
    for text in ["4294967295", "4294967296", "0007", "-1", " 7", "7 ", "+", "++7", "1_000", "٣"] {
        assert_eq!(id(text), text.parse::<u32>().unwrap_or(0), "{}", text);
    }
}

#[test]
fn explicit_aperture() {
    let allocator = DevbarAllocator::bar("/dev/bar".to_string(), 4096, 6);
    assert_eq!(allocator.host_storage_type(), StorageType::Device(6));
    assert_eq!(planned(&allocator, 10), ("/dev/bar".to_string(), 4096, 10));
    assert_eq!(planned(&allocator.clone(), 10), ("/dev/bar".to_string(), 4096, 10));
}

#[test]
fn decimal_text_reads_back() {
    for n in [0, 7, 10, 99, 100, 4294967296, u64::MAX] {
        assert_eq!(decimal_string(n), n.to_string());
        assert_eq!(parse_unsigned(&decimal_string(n), u64::MAX), Some(n));
    }
    assert_eq!(parse_unsigned("18446744073709551616", u64::MAX), None);
    assert_eq!(parse_unsigned("256", 255), None);
    assert_eq!(parse_unsigned("255", 255), Some(255));
}
