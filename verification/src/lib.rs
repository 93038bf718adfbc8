//! Storage over BAR-mapped device memory, which the host reaches through the aperture of a PCI
//! device, as the host tier of a KV cache.
//!
//! - [`allocator`] chooses the memory from the environment: the aperture of a device, an
//!   anonymous mapping in its place, or pinned host memory where neither is configured.
//! - [`bar`] leads the mapping of an aperture from the path of its file to a storage, and
//!   refuses what does not fit.
//! - [`storage`] is the storage: its type, its registrations and its descriptor.
//! - [`results`] holds what is proved of each operation from its arguments to its result, and
//!   [`laws`] what is proved of them together.
//!
//! The library decides; it makes no system call, reads no environment and touches no memory
//! but what it is handed.

pub mod allocator;
pub mod bar;
pub mod laws;
pub mod registration;
pub mod results;
pub mod storage;
pub mod text;
pub mod types;
