//! Owning views over first- and second-level table storage, and the
//! hardware-assisted address-translation decision logic.
//!
//! A first-level translation table holds 4096 descriptors and covers the 4GB
//! virtual space at 1MB granularity; a second-level page table holds 256
//! descriptors and covers 1MB at 4KB granularity.  The storage here is owned
//! by the table value; the surrounding runtime is responsible for placing a
//! table's words into architecture-aligned memory and for registering its
//! physical base address with the CPU.

use vstd::prelude::*;

use crate::addr::PAGE_TABLE_SIZE;
use crate::addr::PhysicalAddress;
use crate::addr::TRANSLATION_TABLE_SIZE;
use crate::addr::VirtualAddress;
use crate::paging::PageError;
use crate::paging::PageTableDescriptor;
use crate::paging::TranslationTableDescriptor;
use crate::paging::TranslationTableType;
use crate::paging::spec_table_type_of;

verus! {

/// Backing storage of a first-level translation table: 4096 descriptor
/// words.
pub struct TranslationTableMemory {
    table: Vec<TranslationTableDescriptor>,
}

impl View for TranslationTableMemory {
    type V = Seq<TranslationTableDescriptor>;

    closed spec fn view(&self) -> Seq<TranslationTableDescriptor> {
        self.table@
    }
}

impl TranslationTableMemory {
    /// Well-formed storage holds exactly one descriptor per 1MB of the 4GB
    /// virtual space.
    pub open spec fn wf(self) -> bool {
        self@.len() == 4096
    }

    /// Fresh storage: every entry the invalid descriptor.
    pub fn new() -> (r: TranslationTableMemory)
        ensures
            r.wf(),
            forall|i: int| 0 <= i < 4096 ==> r@[i]@ == 0,
    {
        let mut table: Vec<TranslationTableDescriptor> = Vec::new();
        let mut i: usize = 0;
        while i < TRANSLATION_TABLE_SIZE
            invariant
                i <= 4096,
                table@.len() == i,
                forall|j: int| 0 <= j < i ==> table@[j]@ == 0,
            decreases 4096 - i,
        {
            table.push(TranslationTableDescriptor::new_empty());
            i = i + 1;
        }
        TranslationTableMemory { table }
    }
}

/// A first-level translation table: the owning view over its storage.
pub struct TranslationTable {
    memory: TranslationTableMemory,
}

impl View for TranslationTable {
    type V = Seq<TranslationTableDescriptor>;

    closed spec fn view(&self) -> Seq<TranslationTableDescriptor> {
        self.memory@
    }
}

impl TranslationTable {
    /// A well-formed table holds exactly 4096 entries.
    pub open spec fn wf(self) -> bool {
        self@.len() == 4096
    }

    /// Take ownership of table storage.
    pub fn new(memory: TranslationTableMemory) -> (r: TranslationTable)
        requires
            memory.wf(),
        ensures
            r@ == memory@,
            r.wf(),
    {
        TranslationTable { memory }
    }

    /// Read the entry at an index.
    pub fn get_entry(&self, index: usize) -> (r: TranslationTableDescriptor)
        requires
            self.wf(),
            index < 4096,
        ensures
            r == self@[index as int],
    {
        self.memory.table[index]
    }

    /// Replace the entry at an index.  The caller is responsible for keeping
    /// the installed entries consistent with the memory layout the rest of
    /// the program relies on.
    pub fn set_entry(&mut self, index: usize, descriptor: TranslationTableDescriptor)
        requires
            old(self).wf(),
            index < 4096,
        ensures
            final(self)@ == old(self)@.update(index as int, descriptor),
            final(self).wf(),
    {
        self.memory.table[index] = descriptor;
    }

    /// Physical base address of the active first-level table, recovered from
    /// a raw TTBR0 register value by masking off the low control bits.
    pub fn get_ttbr0_phys(ttbr0: u32) -> (r: PhysicalAddress)
        ensures
            r@ == ttbr0 & !0x3fffu32,
    {
        PhysicalAddress::new(ttbr0 & !0x3fff)
    }
}

/// Backing storage of a second-level page table: 256 descriptor words.
pub struct PageTableMemory {
    table: Vec<PageTableDescriptor>,
}

impl View for PageTableMemory {
    type V = Seq<PageTableDescriptor>;

    closed spec fn view(&self) -> Seq<PageTableDescriptor> {
        self.table@
    }
}

impl PageTableMemory {
    /// Well-formed storage holds exactly one descriptor per 4KB of a 1MB
    /// section.
    pub open spec fn wf(self) -> bool {
        self@.len() == 256
    }

    /// Fresh storage: every entry the invalid descriptor.
    pub fn new() -> (r: PageTableMemory)
        ensures
            r.wf(),
            forall|i: int| 0 <= i < 256 ==> r@[i]@ == 0,
    {
        let mut table: Vec<PageTableDescriptor> = Vec::new();
        let mut i: usize = 0;
        while i < PAGE_TABLE_SIZE
            invariant
                i <= 256,
                table@.len() == i,
                forall|j: int| 0 <= j < i ==> table@[j]@ == 0,
            decreases 256 - i,
        {
            table.push(PageTableDescriptor::new_empty());
            i = i + 1;
        }
        PageTableMemory { table }
    }
}

/// A second-level page table: the owning view over its storage.  To be
/// reachable by hardware it must be referenced by a valid `Page`-type entry
/// of some first-level table.
pub struct PageTable {
    memory: PageTableMemory,
}

impl View for PageTable {
    type V = Seq<PageTableDescriptor>;

    closed spec fn view(&self) -> Seq<PageTableDescriptor> {
        self.memory@
    }
}

impl PageTable {
    /// A well-formed table holds exactly 256 entries.
    pub open spec fn wf(self) -> bool {
        self@.len() == 256
    }

    /// Take ownership of table storage.
    pub fn new(memory: PageTableMemory) -> (r: PageTable)
        requires
            memory.wf(),
        ensures
            r@ == memory@,
            r.wf(),
    {
        PageTable { memory }
    }

    /// Read the entry at an index.
    pub fn get_entry(&self, index: usize) -> (r: PageTableDescriptor)
        requires
            self.wf(),
            index < 256,
        ensures
            r == self@[index as int],
    {
        self.memory.table[index]
    }

    /// Replace the entry at an index.  The caller is responsible for keeping
    /// the installed entries consistent with the memory layout the rest of
    /// the program relies on.
    pub fn set_entry(&mut self, index: usize, descriptor: PageTableDescriptor)
        requires
            old(self).wf(),
            index < 256,
        ensures
            final(self)@ == old(self)@.update(index as int, descriptor),
            final(self).wf(),
    {
        self.memory.table[index] = descriptor;
    }
}

/// Result of the hardware walk of a first-level table for an address whose
/// entry is a plain section: the section's base joined with the low 20
/// address bits, `None` where the entry is no section.
pub open spec fn spec_section_walk(table: Seq<TranslationTableDescriptor>, virt: u32) -> Option<
    u32,
> {
    let descriptor = table[(virt >> 20) as int];
    if spec_table_type_of(descriptor@) is Section {
        Some((descriptor@ & !0xf_ffffu32) | (virt & 0xf_ffff))
    } else {
        None
    }
}

/// Decide the outcome of the privileged address-translation operation: the
/// caller hands the virtual address it wrote to the translation-request
/// register and the word it read back from the physical-address result
/// register.  A clear low bit signals success; the physical frame is then
/// joined with the request's page offset.  A set low bit reports a
/// translation fault.
pub fn get_phys_addr(virt_addr: VirtualAddress, par: u32) -> (r: Result<
    PhysicalAddress,
    PageError,
>)
    ensures
        par & 1 == 0 ==> (r matches Ok(a) && a@ == (par & !0xfffu32) | (virt_addr@ & 0xfff)),
        par & 1 != 0 ==> r == Err::<PhysicalAddress, PageError>(PageError::TranslationError),
{
    let frame_offset: u32 = virt_addr.as_u32() & 0xfff;
    if par & 0b1 == 0 {
        Ok(PhysicalAddress::new((par & !0xfff) | frame_offset))
    } else {
        Err(PageError::TranslationError)
    }
}

} // verus!
