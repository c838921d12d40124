//! Typed ARMv7-A address space and two-level MMU page-table structures.
//!
//! The crate models the first-level translation table and second-level page
//! table descriptors of the ARMv7-A short-descriptor format, the canonical
//! memory-attribute word with its per-descriptor bit codecs, typed virtual
//! and physical addresses with checked arithmetic, and the offset/device
//! mapping utilities built on top of them.  Hardware register access (TTBR0,
//! the address-translation coprocessor operation, the vector table's MMIO
//! block) is left to the surrounding unverified runtime: every function here
//! is pure computation over plain values.

pub mod addr;
pub mod attributes;
pub mod interrupts;
pub mod mapping;
pub mod mode;
pub mod paging;
pub mod tables;

pub use addr::PhysicalAddress;
pub use addr::VirtualAddress;
