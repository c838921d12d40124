//! Typed 32-bit virtual and physical addresses.
//!
//! Both types wrap a full-range 32-bit value.  No alignment invariant is
//! built in: alignment is checked per operation against a caller-supplied
//! mask.  Address arithmetic is checked: the partial operations state their
//! domain in `requires` and the total ones return `Option`.

use vstd::prelude::*;

verus! {

/// Number of entries of a first-level translation table: 4GB / 1MB.
pub const TRANSLATION_TABLE_SIZE: usize = 4096;

/// Number of entries of a second-level page table: 1MB / 4KB.
pub const PAGE_TABLE_SIZE: usize = 256;

/// A 32-bit virtual address.
#[derive(Copy, Clone, Debug, PartialEq, Eq, Structural)]
pub struct VirtualAddress(pub u32);

/// A 32-bit physical address.
#[derive(Copy, Clone, Debug, PartialEq, Eq, Structural)]
pub struct PhysicalAddress(pub u32);

impl View for VirtualAddress {
    type V = u32;

    open spec fn view(&self) -> u32 {
        self.0
    }
}

impl View for PhysicalAddress {
    type V = u32;

    open spec fn view(&self) -> u32 {
        self.0
    }
}

impl VirtualAddress {
    /// Create a new virtual address.
    pub fn new(addr: u32) -> (r: VirtualAddress)
        ensures
            r@ == addr,
    {
        VirtualAddress(addr)
    }

    /// Convert the address to an unsigned integer.
    pub fn as_u32(self) -> (r: u32)
        ensures
            r == self@,
    {
        self.0
    }

    /// Build a virtual address from a first-level table index, a second-level
    /// table index and an offset within the page.
    ///
    /// The address is laid out as `0xXXXY_YZZZ`: the first-level index in the
    /// top 12 bits, the second-level index in the next 8, the offset in the
    /// low 12.
    pub fn from_indices(translation_index: usize, page_index: usize, offset: u32) -> (r: Option<
        VirtualAddress,
    >)
        ensures
            translation_index >= 4096 || page_index >= 256 || offset >= 0xfff ==> r is None,
            translation_index < 4096 && page_index < 256 && offset < 0xfff ==> (r matches Some(a)
                && a@ == ((translation_index as u32) << 20) | ((page_index as u32) << 12)
                | offset),
    {
        if (translation_index >= TRANSLATION_TABLE_SIZE) || (page_index >= PAGE_TABLE_SIZE)
            || offset >= 0xfff {
            return None;
        }
        let mut address: u32 = (translation_index as u32) << 20;
        address = address | ((page_index as u32) << 12);
        address = address | offset;
        Some(VirtualAddress(address))
    }

    /// Index of the 1MB section containing this address in the first-level
    /// translation table.
    pub fn base_table_index(self) -> (r: usize)
        ensures
            r == self@ >> 20,
            r < 4096,
    {
        proof {
            let v: u32 = self.0;
            assert(v >> 20 < 4096) by (bit_vector);
        }
        let base_addr = self.0 >> 20;
        base_addr as usize
    }

    /// Index of the 4KB page containing this address in its second-level
    /// page table.
    pub fn page_table_index(self) -> (r: usize)
        ensures
            r == (self@ & 0xfffff) >> 12,
            r < 256,
    {
        proof {
            let v: u32 = self.0;
            assert((v & 0xfffff) >> 12 < 256) by (bit_vector);
        }
        let page_addr = (self.0 & 0xfffff) >> 12;
        page_addr as usize
    }

    /// Offset word of this address relative to a page table: the address with
    /// the low 12 bits forced high.
    pub fn page_table_offset(self) -> (r: u32)
        ensures
            r == self@ | 0xfff,
    {
        self.0 | 0xfff
    }

    /// Add a byte offset; the sum must stay within the 32-bit address space.
    pub fn add_offset(self, rhs: u32) -> (r: VirtualAddress)
        requires
            self@ + rhs <= u32::MAX,
        ensures
            r@ == self@ + rhs,
    {
        VirtualAddress(self.0 + rhs)
    }

    /// Add a byte offset, returning `None` when the sum would leave the
    /// 32-bit address space.
    pub fn checked_add(self, rhs: u32) -> (r: Option<VirtualAddress>)
        ensures
            self@ + rhs <= u32::MAX ==> (r matches Some(a) && a@ == self@ + rhs),
            self@ + rhs > u32::MAX ==> r is None,
    {
        match self.0.checked_add(rhs) {
            Some(sum) => Some(VirtualAddress(sum)),
            None => None,
        }
    }

    /// Subtract a byte offset; the offset must not exceed the address.
    pub fn sub_offset(self, rhs: u32) -> (r: VirtualAddress)
        requires
            rhs <= self@,
        ensures
            r@ == self@ - rhs,
    {
        VirtualAddress(self.0 - rhs)
    }

    /// Distance to a lower address of the same kind; the subtrahend must not
    /// exceed this address.
    pub fn sub_addr(self, rhs: VirtualAddress) -> (r: u32)
        requires
            rhs@ <= self@,
        ensures
            r == self@ - rhs@,
    {
        self.0 - rhs.0
    }

    /// Bitwise OR with a raw tag-bit word.
    pub fn bitor(self, rhs: u32) -> (r: VirtualAddress)
        ensures
            r@ == self@ | rhs,
    {
        VirtualAddress(self.0 | rhs)
    }

    /// Whether the address has all the mask's bits clear.
    pub fn is_aligned(&self, mask: u32) -> (r: bool)
        ensures
            r == (self@ & mask == 0),
    {
        (self.0 & mask) == 0
    }

    /// Force the address to the top of the region the mask describes.
    pub fn align(&mut self, mask: u32)
        ensures
            final(self)@ == old(self)@ | !mask,
    {
        self.0 = self.0 | !mask;
    }
}

impl PhysicalAddress {
    /// Create a new physical address.
    pub fn new(addr: u32) -> (r: PhysicalAddress)
        ensures
            r@ == addr,
    {
        PhysicalAddress(addr)
    }

    /// Convert the address to an unsigned integer.
    pub fn as_u32(self) -> (r: u32)
        ensures
            r == self@,
    {
        self.0
    }

    /// Add a byte offset; the sum must stay within the 32-bit address space.
    pub fn add_offset(self, rhs: u32) -> (r: PhysicalAddress)
        requires
            self@ + rhs <= u32::MAX,
        ensures
            r@ == self@ + rhs,
    {
        PhysicalAddress(self.0 + rhs)
    }

    /// Add a byte offset, returning `None` when the sum would leave the
    /// 32-bit address space.
    pub fn checked_add(self, rhs: u32) -> (r: Option<PhysicalAddress>)
        ensures
            self@ + rhs <= u32::MAX ==> (r matches Some(a) && a@ == self@ + rhs),
            self@ + rhs > u32::MAX ==> r is None,
    {
        match self.0.checked_add(rhs) {
            Some(sum) => Some(PhysicalAddress(sum)),
            None => None,
        }
    }

    /// Subtract a byte offset; the offset must not exceed the address.
    pub fn sub_offset(self, rhs: u32) -> (r: PhysicalAddress)
        requires
            rhs <= self@,
        ensures
            r@ == self@ - rhs,
    {
        PhysicalAddress(self.0 - rhs)
    }

    /// Distance to a lower address of the same kind; the subtrahend must not
    /// exceed this address.
    pub fn sub_addr(self, rhs: PhysicalAddress) -> (r: u32)
        requires
            rhs@ <= self@,
        ensures
            r == self@ - rhs@,
    {
        self.0 - rhs.0
    }

    /// Bitwise OR with a raw tag-bit word.
    pub fn bitor(self, rhs: u32) -> (r: PhysicalAddress)
        ensures
            r@ == self@ | rhs,
    {
        PhysicalAddress(self.0 | rhs)
    }

    /// Whether the address has all the mask's bits clear.
    pub fn is_aligned(&self, mask: u32) -> (r: bool)
        ensures
            r == (self@ & mask == 0),
    {
        (self.0 & mask) == 0
    }

    /// Force the address to the top of the region the mask describes.
    pub fn align(&mut self, mask: u32)
        ensures
            final(self)@ == old(self)@ | !mask,
    {
        self.0 = self.0 | !mask;
    }
}

} // verus!
