//! Which memory backs the storage, and how it is chosen by the environment.

use vstd::prelude::*;
use vstd::string::*;

use crate::bar::{BarMapping, BarMappingView};
use crate::text;
use crate::text::parse_unsigned;
use crate::types::{StorageError, StorageType};

verus! {

/// The PCI address of the device whose BAR aperture is used.
pub const DYN_KVBM_DEVBAR_BDF: &'static str = "DYN_KVBM_DEVBAR_BDF";

/// `1` where an anonymous mapping takes the place of the aperture.
pub const DYN_KVBM_DEVBAR_MOCK: &'static str = "DYN_KVBM_DEVBAR_MOCK";

/// The offset in the aperture at which the storage begins.
pub const DYN_KVBM_DEVBAR_OFFSET: &'static str = "DYN_KVBM_DEVBAR_OFFSET";

/// The id of the device whose memory the aperture shows.
pub const DYN_KVBM_DEVBAR_DEVICE_ID: &'static str = "DYN_KVBM_DEVBAR_DEVICE_ID";

/// The value of the first of the variables `vars` with the name `name`.
pub open spec fn variable(vars: Seq<(String, String)>, name: Seq<char>) -> Option<Seq<char>>
    decreases vars.len(),
{
    if vars.len() == 0 {
        None
    } else if vars[0].0@ == name {
        Some(vars[0].1@)
    } else {
        variable(vars.skip(1), name)
    }
}

/// The number that a variable holds; zero where it is not set or does not hold a number of at
/// most `max`.
pub open spec fn number_or_zero(value: Option<Seq<char>>, max: int) -> int {
    match value {
        Some(digits) => match text::unsigned_value(digits, max) {
            Some(n) => n,
            None => 0,
        },
        None => 0,
    }
}

/// The file behind the first BAR of the PCI device `bdf`.
pub open spec fn resource_path(bdf: Seq<char>) -> Seq<char> {
    "/sys/bus/pci/devices/"@ + bdf + "/resource0"@
}

/// A devbar region.
#[derive(Debug)]
enum DevbarRegion {
    /// The BAR aperture behind a device file, from an offset on.
    Bar { path: String, offset: u64 },
    /// An anonymous mapping in its place.
    Mock,
}

/// Chooses the memory of a storage: the BAR aperture of a device, an anonymous mapping in its
/// place, or, where no region is configured, pinned host memory.
#[derive(Debug)]
pub struct DevbarAllocator {
    region: Option<DevbarRegion>,
    device_id: u32,
}

/// A devbar region, with its path as a sequence of characters.
pub enum DevbarRegionView {
    Bar { path: Seq<char>, offset: u64 },
    Mock,
}

impl View for DevbarRegion {
    type V = DevbarRegionView;

    closed spec fn view(&self) -> DevbarRegionView {
        match self {
            DevbarRegion::Bar { path, offset } => DevbarRegionView::Bar {
                path: path@,
                offset: *offset,
            },
            DevbarRegion::Mock => DevbarRegionView::Mock,
        }
    }
}

/// What there is to know of a [`DevbarAllocator`].
pub struct DevbarAllocatorView {
    pub region: Option<DevbarRegionView>,
    pub device_id: u32,
}

impl DevbarAllocatorView {
    /// What the variables `vars` configure. A mock region wins over a device.
    pub open spec fn configured(vars: Seq<(String, String)>) -> Self {
        DevbarAllocatorView {
            region: if variable(vars, DYN_KVBM_DEVBAR_MOCK@) == Some("1"@) {
                Some(DevbarRegionView::Mock)
            } else {
                match variable(vars, DYN_KVBM_DEVBAR_BDF@) {
                    Some(bdf) => Some(
                        DevbarRegionView::Bar {
                            path: resource_path(bdf),
                            offset: number_or_zero(
                                variable(vars, DYN_KVBM_DEVBAR_OFFSET@),
                                u64::MAX as int,
                            ) as u64,
                        },
                    ),
                    None => None,
                }
            },
            device_id: number_or_zero(
                variable(vars, DYN_KVBM_DEVBAR_DEVICE_ID@),
                u32::MAX as int,
            ) as u32,
        }
    }

    pub open spec fn host_storage_type(self) -> StorageType {
        match self.region {
            Some(_) => StorageType::Device(self.device_id),
            None => StorageType::Pinned,
        }
    }

    /// How the allocator provides `size` bytes.
    pub open spec fn plan(self, size: usize) -> AllocationPlanView {
        match self.region {
            Some(DevbarRegionView::Bar { path, offset }) => AllocationPlanView::Bar(
                BarMappingView::start(path, offset, size, self.device_id),
            ),
            Some(DevbarRegionView::Mock) => AllocationPlanView::Mock {
                size,
                device_id: self.device_id,
            },
            None => AllocationPlanView::Pinned { size, device_id: Some(self.device_id) },
        }
    }
}

impl View for DevbarAllocator {
    type V = DevbarAllocatorView;

    closed spec fn view(&self) -> DevbarAllocatorView {
        DevbarAllocatorView {
            region: match self.region {
                Some(region) => Some(region@),
                None => None,
            },
            device_id: self.device_id,
        }
    }
}

/// How a storage is to be provided.
#[derive(Debug)]
pub enum AllocationPlan {
    /// Carry the mapping of an aperture through to its end.
    Bar(BarMapping),
    /// Make an anonymous private mapping, and hand its fate to `DevbarStorage::mock`.
    Mock { size: usize, device_id: u32 },
    /// Allocate pinned host memory, and hand its fate to `DevbarStorage::pinned_fallback`.
    Pinned { size: usize, device_id: Option<u32> },
}

/// An [`AllocationPlan`], by its parts.
pub enum AllocationPlanView {
    Bar(BarMappingView),
    Mock { size: usize, device_id: u32 },
    Pinned { size: usize, device_id: Option<u32> },
}

impl View for AllocationPlan {
    type V = AllocationPlanView;

    open spec fn view(&self) -> AllocationPlanView {
        match self {
            AllocationPlan::Bar(mapping) => AllocationPlanView::Bar(mapping@),
            AllocationPlan::Mock { size, device_id } => AllocationPlanView::Mock {
                size: *size,
                device_id: *device_id,
            },
            AllocationPlan::Pinned { size, device_id } => AllocationPlanView::Pinned {
                size: *size,
                device_id: *device_id,
            },
        }
    }
}

/// The value of a variable.
fn lookup<'a>(vars: &'a Vec<(String, String)>, name: &str) -> (value: Option<&'a String>)
    ensures
        match value {
            Some(v) => variable(vars@, name@) == Some(v@),
            None => variable(vars@, name@) is None,
        },
{
    let wanted = String::from_str(name);
    let mut i: usize = 0;
    assert(vars@.skip(0) =~= vars@);
    while i < vars.len()
        invariant
            i <= vars@.len(),
            wanted@ == name@,
            variable(vars@, name@) == variable(vars@.skip(i as int), name@),
        decreases vars@.len() - i,
    {
        if vars[i].0 == wanted {
            return Some(&vars[i].1);
        }
        assert(vars@.skip(i as int).skip(1) =~= vars@.skip(i + 1));
        i = i + 1;
    }
    None
}

/// The number that a variable holds.
fn lookup_number(vars: &Vec<(String, String)>, name: &str, max: u64) -> (n: u64)
    ensures
        n == number_or_zero(variable(vars@, name@), max as int),
        n <= max,
{
    match lookup(vars, name) {
        Some(digits) => match parse_unsigned(digits.as_str(), max) {
            Some(n) => n,
            None => 0,
        },
        None => 0,
    }
}

impl Default for DevbarAllocator {
    /// No devbar region: pinned host memory, for device zero.
    fn default() -> (allocator: Self)
        ensures
            allocator@ == (DevbarAllocatorView { region: None, device_id: 0 }),
    {
        DevbarAllocator { region: None, device_id: 0 }
    }
}

impl Clone for DevbarAllocator {
    fn clone(&self) -> (allocator: Self)
        ensures
            allocator@ == self@,
    {
        let region = match &self.region {
            Some(DevbarRegion::Bar { path, offset }) => Some(
                DevbarRegion::Bar { path: path.clone(), offset: *offset },
            ),
            Some(DevbarRegion::Mock) => Some(DevbarRegion::Mock),
            None => None,
        };
        DevbarAllocator { region, device_id: self.device_id }
    }
}

impl DevbarAllocator {
    /// The allocator that environment variables configure. `vars` holds the variables that are
    /// set, each with its value.
    pub fn from_env(vars: &Vec<(String, String)>) -> (res: Result<Self, StorageError>)
        ensures
            res is Ok,
            res->Ok_0@ == DevbarAllocatorView::configured(vars@),
    {
        let device_id = lookup_number(vars, DYN_KVBM_DEVBAR_DEVICE_ID, u32::MAX as u64) as u32;
        let mock = match lookup(vars, DYN_KVBM_DEVBAR_MOCK) {
            Some(value) => *value == String::from_str("1"),
            None => false,
        };
        if mock {
            return Ok(DevbarAllocator { region: Some(DevbarRegion::Mock), device_id });
        }
        match lookup(vars, DYN_KVBM_DEVBAR_BDF) {
            Some(bdf) => {
                let mut path = String::from_str("/sys/bus/pci/devices/");
                path.append(bdf.as_str());
                path.append("/resource0");
                let offset = lookup_number(vars, DYN_KVBM_DEVBAR_OFFSET, u64::MAX);
                Ok(DevbarAllocator { region: Some(DevbarRegion::Bar { path, offset }), device_id })
            },
            None => Ok(DevbarAllocator { region: None, device_id }),
        }
    }

    /// An allocator over an anonymous mapping.
    pub fn mock(device_id: u32) -> (allocator: Self)
        ensures
            allocator@ == (DevbarAllocatorView { region: Some(DevbarRegionView::Mock), device_id }),
    {
        DevbarAllocator { region: Some(DevbarRegion::Mock), device_id }
    }

    /// An allocator over an explicit BAR aperture.
    pub fn bar(path: String, offset: u64, device_id: u32) -> (allocator: Self)
        ensures
            allocator@ == (DevbarAllocatorView {
                region: Some(DevbarRegionView::Bar { path: path@, offset }),
                device_id,
            }),
    {
        DevbarAllocator { region: Some(DevbarRegion::Bar { path, offset }), device_id }
    }

    /// The type that blocks over the allocator's memory carry: a devbar region is device
    /// memory, the fallback is pinned host memory.
    pub fn host_storage_type(&self) -> (storage_type: StorageType)
        ensures
            storage_type == self@.host_storage_type(),
    {
        match &self.region {
            Some(_) => StorageType::Device(self.device_id),
            None => StorageType::Pinned,
        }
    }

    /// How a storage of `size` bytes is to be provided.
    pub fn allocate(&self, size: usize) -> (plan: AllocationPlan)
        ensures
            plan@ == self@.plan(size),
    {
        match &self.region {
            Some(DevbarRegion::Bar { path, offset }) => AllocationPlan::Bar(
                BarMapping::start(path.clone(), *offset, size, self.device_id),
            ),
            Some(DevbarRegion::Mock) => AllocationPlan::Mock { size, device_id: self.device_id },
            None => AllocationPlan::Pinned { size, device_id: Some(self.device_id) },
        }
    }
}

} // verus!
