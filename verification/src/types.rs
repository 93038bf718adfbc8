//! What kind of memory a storage is, and how an operation on one can fail.

use vstd::prelude::*;

verus! {

/// The kind of memory that a NIXL descriptor names.
#[derive(Debug, Clone, Copy, PartialEq, Eq, Structural)]
pub enum MemType {
    /// Host memory.
    Dram,
    /// Device memory.
    Vram,
}

/// The kind of storage that a block carries.
#[derive(Debug, Clone, Copy, PartialEq, Eq, Structural)]
pub enum StorageType {
    /// Memory of the device with this id.
    Device(u32),
    /// Pinned host memory.
    Pinned,
}

impl StorageType {
    /// The kind of memory under which storage of this type is registered.
    pub open spec fn spec_nixl_mem_type(self) -> MemType {
        match self {
            StorageType::Device(_) => MemType::Vram,
            StorageType::Pinned => MemType::Dram,
        }
    }

    /// The kind of memory under which storage of this type is registered: device memory as
    /// `Vram`, pinned host memory as `Dram`.
    pub fn nixl_mem_type(&self) -> (mem_type: MemType)
        ensures
            mem_type == self.spec_nixl_mem_type(),
    {
        match self {
            StorageType::Device(_) => MemType::Vram,
            StorageType::Pinned => MemType::Dram,
        }
    }
}

/// Why an operation on a storage failed; each variant holds its message.
#[derive(Debug, PartialEq, Eq)]
pub enum StorageError {
    /// The request or the configuration behind it cannot be served.
    InvalidConfig(String),
    /// The operating system or the driver did not provide the memory.
    AllocationFailed(String),
    /// An operation on an existing storage was refused.
    OperationFailed(String),
    /// The storage already has a registration under this key.
    RegistrationKeyExists(String),
}

/// A [`StorageError`] with its message as a sequence of characters.
pub enum StorageErrorView {
    InvalidConfig(Seq<char>),
    AllocationFailed(Seq<char>),
    OperationFailed(Seq<char>),
    RegistrationKeyExists(Seq<char>),
}

impl View for StorageError {
    type V = StorageErrorView;

    open spec fn view(&self) -> StorageErrorView {
        match self {
            StorageError::InvalidConfig(text) => StorageErrorView::InvalidConfig(text@),
            StorageError::AllocationFailed(text) => StorageErrorView::AllocationFailed(text@),
            StorageError::OperationFailed(text) => StorageErrorView::OperationFailed(text@),
            StorageError::RegistrationKeyExists(key) => StorageErrorView::RegistrationKeyExists(
                key@,
            ),
        }
    }
}

} // verus!
