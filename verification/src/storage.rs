//! BAR-mapped device memory as a storage: what it is, how it is described to NIXL, and what
//! may be done with it.

use vstd::prelude::*;
use vstd::string::*;

use crate::bar::{BarMapping, BarMappingView};
use crate::registration;
use crate::registration::RegistrationHandles;
use crate::types::{MemType, StorageError, StorageErrorView, StorageType};

verus! {

/// The key under which a storage holds its NIXL registration.
pub const NIXL_KEY: &'static str = "nixl";

/// How the memory of a storage was provided.
#[derive(Debug, Clone, Copy, PartialEq, Eq, Structural)]
pub enum DevbarBacking {
    /// BAR-mapped device memory that the host can access.
    Bar,
    /// An anonymous host mapping in the place of a devbar region, for machines without one.
    Mock,
    /// Pinned host memory, when no devbar region is configured.
    Pinned,
}

/// What a peer needs to reach the memory of a registered storage.
#[derive(Debug, Clone, Copy, PartialEq, Eq, Structural)]
pub struct RegionDescriptor {
    pub addr: u64,
    pub size: usize,
    pub mem_type: MemType,
    pub device_id: u64,
}

/// One step of undoing a storage.
#[derive(Debug, PartialEq, Eq)]
pub enum ReleaseStep<H> {
    /// Release this registration.
    Handle(H),
    /// Unmap the `len` bytes at `addr`.
    Unmap { addr: u64, len: usize },
    /// Free the pinned allocation.
    FreePinned,
}

/// A storage over BAR-mapped device memory, over an anonymous mapping in its place, or over
/// pinned host memory. `H` is the type of the registration handles.
///
/// The storage knows where the memory lies; whoever made the mapping owns the bytes.
#[derive(Debug)]
pub struct DevbarStorage<H> {
    addr: u64,
    len: usize,
    device_id: u32,
    backing: DevbarBacking,
    handles: RegistrationHandles<H>,
}

/// What there is to know of a [`DevbarStorage`].
#[verifier::ext_equal]
pub struct DevbarStorageView<H> {
    pub addr: u64,
    pub len: usize,
    pub device_id: u32,
    pub backing: DevbarBacking,
    pub handles: Seq<(Seq<char>, H)>,
}

impl<H> DevbarStorageView<H> {
    /// A storage without registrations.
    pub open spec fn fresh(addr: u64, len: usize, device_id: u32, backing: DevbarBacking) -> Self {
        DevbarStorageView { addr, len, device_id, backing, handles: Seq::empty() }
    }

    /// The address is not null, and each registration has a key of its own.
    pub open spec fn valid(self) -> bool {
        &&& self.addr != 0
        &&& registration::unique_keys(self.handles)
    }

    /// The memory is that of a devbar region, real or in its place.
    pub open spec fn is_devbar_backed(self) -> bool {
        self.backing != DevbarBacking::Pinned
    }

    pub open spec fn storage_type(self) -> StorageType {
        if self.is_devbar_backed() {
            StorageType::Device(self.device_id)
        } else {
            StorageType::Pinned
        }
    }

    pub open spec fn mem_type(self) -> MemType {
        if self.is_devbar_backed() {
            MemType::Vram
        } else {
            MemType::Dram
        }
    }

    /// The descriptor that peers get: there is one only once the storage is registered.
    pub open spec fn nixl_descriptor(self) -> Option<RegionDescriptor> {
        if registration::has_key(self.handles, NIXL_KEY@) {
            Some(
                RegionDescriptor {
                    addr: self.addr,
                    size: self.len,
                    mem_type: self.mem_type(),
                    device_id: self.device_id as u64,
                },
            )
        } else {
            None
        }
    }

    /// The mapping that goes away with the storage.
    pub open spec fn mapping(self) -> Option<(u64, usize)> {
        if self.is_devbar_backed() {
            Some((self.addr, self.len))
        } else {
            None
        }
    }

    /// How the memory itself goes away.
    pub open spec fn memory_step(self) -> ReleaseStep<H> {
        match self.mapping() {
            Some((addr, len)) => ReleaseStep::Unmap { addr, len },
            None => ReleaseStep::FreePinned,
        }
    }

    /// How the storage is undone: every registration in the order in which it was made, then
    /// the memory.
    pub open spec fn release_steps(self) -> Seq<ReleaseStep<H>> {
        registration::handles_of(self.handles).map_values(
            |handle: H| ReleaseStep::Handle(handle),
        ).push(self.memory_step())
    }
}

/// `bytes` with `size` of them, from `offset` on, set to `value`.
pub open spec fn fill(bytes: Seq<u8>, value: u8, offset: int, size: int) -> Seq<u8> {
    Seq::new(
        bytes.len(),
        |i: int|
            if offset <= i < offset + size {
                value
            } else {
                bytes[i]
            },
    )
}

/// What comes of an anonymous mapping that was asked for: its address, or the text of the
/// operating system's error.
pub open spec fn mock_outcome<H>(
    size: usize,
    device_id: u32,
    mapping: Result<u64, Seq<char>>,
) -> Result<DevbarStorageView<H>, StorageErrorView> {
    match mapping {
        Err(os_error) => Err(
            StorageErrorView::AllocationFailed("anonymous mmap failed: "@ + os_error),
        ),
        Ok(addr) => if addr == 0 {
            Err(StorageErrorView::AllocationFailed("mmap returned null"@))
        } else {
            Ok(DevbarStorageView::fresh(addr, size, device_id, DevbarBacking::Mock))
        },
    }
}

/// What comes of a pinned allocation that was asked for: its address, or the allocator's error.
pub open spec fn pinned_outcome<H>(
    size: usize,
    device_id: Option<u32>,
    allocation: Result<u64, StorageErrorView>,
) -> Result<DevbarStorageView<H>, StorageErrorView> {
    match allocation {
        Err(error) => Err(error),
        Ok(addr) => if addr == 0 {
            Err(StorageErrorView::AllocationFailed("pinned allocation returned null"@))
        } else {
            Ok(
                DevbarStorageView::fresh(
                    addr,
                    size,
                    match device_id {
                        Some(id) => id,
                        None => 0,
                    },
                    DevbarBacking::Pinned,
                ),
            )
        },
    }
}

/// The view of a result, part by part.
pub open spec fn storage_result<H>(res: Result<DevbarStorage<H>, StorageError>) -> Result<
    DevbarStorageView<H>,
    StorageErrorView,
> {
    match res {
        Ok(storage) => Ok(storage@),
        Err(error) => Err(error@),
    }
}

impl<H> View for DevbarStorage<H> {
    type V = DevbarStorageView<H>;

    closed spec fn view(&self) -> DevbarStorageView<H> {
        DevbarStorageView {
            addr: self.addr,
            len: self.len,
            device_id: self.device_id,
            backing: self.backing,
            handles: self.handles@,
        }
    }
}

impl<H> DevbarStorage<H> {
    #[verifier::type_invariant]
    spec fn well_formed(self) -> bool {
        self@.valid()
    }

    /// A storage without registrations over memory at a known address.
    pub(crate) fn fresh(addr: u64, len: usize, device_id: u32, backing: DevbarBacking) -> (storage:
        Self)
        requires
            addr != 0,
        ensures
            storage@ == DevbarStorageView::<H>::fresh(addr, len, device_id, backing),
    {
        DevbarStorage { addr, len, device_id, backing, handles: RegistrationHandles::new() }
    }

    /// Begins a storage over `size` bytes at `offset` of the BAR aperture behind the device
    /// file `path`, for example `/sys/bus/pci/devices/<bdf>/resource0`. The storage is what
    /// [`BarMapping::finish`] returns at the end.
    pub fn from_bar(path: String, offset: u64, size: usize, device_id: u32) -> (mapping: BarMapping)
        ensures
            mapping@ == BarMappingView::start(path@, offset, size, device_id),
    {
        BarMapping::start(path, offset, size, device_id)
    }

    /// A storage over an anonymous private mapping of `size` bytes, which stands in for a
    /// devbar region on machines without one. `mapping` is what became of the mapping: its
    /// address, or the text of the operating system's error.
    pub fn mock(size: usize, device_id: u32, mapping: Result<u64, String>) -> (res: Result<
        Self,
        StorageError,
    >)
        ensures
            storage_result(res) == mock_outcome::<H>(
                size,
                device_id,
                match mapping {
                    Ok(addr) => Ok(addr),
                    Err(os_error) => Err(os_error@),
                },
            ),
    {
        match mapping {
            Err(os_error) => {
                let mut text = String::from_str("anonymous mmap failed: ");
                text.append(os_error.as_str());
                Err(StorageError::AllocationFailed(text))
            },
            Ok(addr) => {
                if addr == 0 {
                    return Err(
                        StorageError::AllocationFailed(String::from_str("mmap returned null")),
                    );
                }
                Ok(Self::fresh(addr, size, device_id, DevbarBacking::Mock))
            },
        }
    }

    /// A storage over pinned host memory of `size` bytes. `allocation` is what became of the
    /// allocation: its address, or the error of the allocator.
    pub fn pinned_fallback(
        size: usize,
        device_id: Option<u32>,
        allocation: Result<u64, StorageError>,
    ) -> (res: Result<Self, StorageError>)
        ensures
            storage_result(res) == pinned_outcome::<H>(
                size,
                device_id,
                match allocation {
                    Ok(addr) => Ok(addr),
                    Err(error) => Err(error@),
                },
            ),
            allocation matches Err(error) ==> res == Err::<Self, StorageError>(error),
    {
        match allocation {
            Err(error) => Err(error),
            Ok(addr) => {
                if addr == 0 {
                    return Err(
                        StorageError::AllocationFailed(
                            String::from_str("pinned allocation returned null"),
                        ),
                    );
                }
                Ok(Self::fresh(addr, size, device_id.unwrap_or(0), DevbarBacking::Pinned))
            },
        }
    }

    /// Whether the memory is that of a devbar region, BAR-mapped or mock.
    pub fn is_devbar_backed(&self) -> (devbar: bool)
        ensures
            devbar == self@.is_devbar_backed(),
    {
        self.backing != DevbarBacking::Pinned
    }

    /// The type that blocks of this storage carry: devbar memory is device memory, the
    /// fallback is pinned host memory.
    pub fn storage_type(&self) -> (storage_type: StorageType)
        ensures
            storage_type == self@.storage_type(),
    {
        match self.backing {
            DevbarBacking::Bar | DevbarBacking::Mock => StorageType::Device(self.device_id),
            DevbarBacking::Pinned => StorageType::Pinned,
        }
    }

    /// The address of the memory, which is not null.
    pub fn addr(&self) -> (addr: u64)
        ensures
            addr == self@.addr,
            self@.valid(),
    {
        proof {
            use_type_invariant(self);
        }
        self.addr
    }

    /// The length of the memory in bytes.
    pub fn size(&self) -> (size: usize)
        ensures
            size == self@.len,
    {
        self.len
    }

    /// The kind of memory to register: devbar memory is still device memory.
    pub fn mem_type(&self) -> (mem_type: MemType)
        ensures
            mem_type == self@.mem_type(),
    {
        match self.backing {
            DevbarBacking::Bar | DevbarBacking::Mock => MemType::Vram,
            DevbarBacking::Pinned => MemType::Dram,
        }
    }

    /// The id of the device whose memory this is.
    pub fn device_id(&self) -> (device_id: u64)
        ensures
            device_id == self@.device_id,
    {
        self.device_id as u64
    }

    /// Sets `size` bytes of the storage's memory, from `offset` on, to `value`. `memory` is the
    /// whole memory of the storage.
    pub fn memset(&self, memory: &mut [u8], value: u8, offset: usize, size: usize) -> (res: Result<
        (),
        StorageError,
    >)
        requires
            old(memory)@.len() == self@.len,
        ensures
            match res {
                Ok(()) => {
                    &&& offset + size <= self@.len
                    &&& final(memory)@ == fill(old(memory)@, value, offset as int, size as int)
                },
                Err(error) => {
                    &&& offset + size > self@.len
                    &&& error@ == StorageErrorView::OperationFailed(
                        "memset: offset + size > storage size"@,
                    )
                    &&& final(memory)@ == old(memory)@
                },
            },
    {
        if offset > self.len || size > self.len - offset {
            return Err(
                StorageError::OperationFailed(
                    String::from_str("memset: offset + size > storage size"),
                ),
            );
        }
        let ghost before = memory@;
        let end: usize = offset + size;
        let mut at: usize = offset;
        while at < end
            invariant
                offset <= at <= end,
                end <= memory@.len(),
                memory@ == fill(before, value, offset as int, at - offset),
            decreases end - at,
        {
            memory[at] = value;
            at = at + 1;
            assert(memory@ =~= fill(before, value, offset as int, at - offset));
        }
        Ok(())
    }

    /// Adds a registration under a key that has none yet.
    pub fn register(&mut self, key: &str, handle: H) -> (res: Result<(), StorageError>)
        ensures
            final(self)@.valid(),
            match res {
                Ok(()) => {
                    &&& !registration::has_key(old(self)@.handles, key@)
                    &&& final(self)@ == (DevbarStorageView {
                        handles: old(self)@.handles.push((key@, handle)),
                        ..old(self)@
                    })
                },
                Err(error) => {
                    &&& registration::has_key(old(self)@.handles, key@)
                    &&& error@ == StorageErrorView::RegistrationKeyExists(key@)
                    &&& final(self)@ == old(self)@
                },
            },
    {
        proof {
            use_type_invariant(&*self);
        }
        let mut handles: RegistrationHandles<H> = RegistrationHandles::new();
        std::mem::swap(&mut handles, &mut self.handles);
        let res = handles.register(key, handle);
        std::mem::swap(&mut handles, &mut self.handles);
        proof {
            use_type_invariant(&*self);
        }
        res
    }

    /// Whether there is a registration under `key`.
    pub fn is_registered(&self, key: &str) -> (registered: bool)
        ensures
            registered == registration::has_key(self@.handles, key@),
    {
        self.handles.is_registered(key)
    }

    /// The handle of the registration under `key`.
    pub fn registration_handle(&self, key: &str) -> (handle: Option<&H>)
        ensures
            match handle {
                Some(h) => registration::handle_of(self@.handles, key@) == Some(*h),
                None => registration::handle_of(self@.handles, key@) is None,
            },
    {
        self.handles.registration_handle(key)
    }

    /// The descriptor of a registered storage: its address and size, its kind of memory and
    /// its device.
    pub fn as_nixl_descriptor(&self) -> (descriptor: Option<RegionDescriptor>)
        ensures
            descriptor == self@.nixl_descriptor(),
    {
        if self.is_registered(NIXL_KEY) {
            Some(
                RegionDescriptor {
                    addr: self.addr(),
                    size: self.size(),
                    mem_type: self.mem_type(),
                    device_id: self.device_id(),
                },
            )
        } else {
            None
        }
    }

    /// Takes the storage apart: the registrations to release, in the order in which they were
    /// made, and only then the memory to unmap or to free.
    pub fn release(self) -> (steps: Vec<ReleaseStep<H>>)
        ensures
            steps@ == self@.release_steps(),
    {
        let ghost view = self@;
        let memory = if self.is_devbar_backed() {
            ReleaseStep::Unmap { addr: self.addr, len: self.len }
        } else {
            ReleaseStep::FreePinned
        };
        let handles = self.handles.release();
        let ghost all = handles@;
        let mut steps: Vec<ReleaseStep<H>> = Vec::new();
        for handle in it: handles
            invariant
                it.seq() == all,
                steps@.len() == it.index(),
                forall|i: int|
                    0 <= i < steps@.len() ==> #[trigger] steps@[i] == ReleaseStep::Handle(all[i]),
        {
            steps.push(ReleaseStep::Handle(handle));
        }
        steps.push(memory);
        assert(steps@ =~= view.release_steps());
        steps
    }
}

} // verus!
