//! First- and second-level descriptor words of the ARMv7-A short-descriptor
//! translation scheme.
//!
//! A descriptor is a 32-bit hardware word: a physical base address in the
//! high bits, encoded attribute bits below it, and a type tag in the low two
//! bits (plus bit 18 to tell sections and supersections apart).  The word
//! layout is the wire format the MMU walks, so the contracts here pin every
//! bit.

use vstd::prelude::*;

use crate::addr::PhysicalAddress;
use crate::addr::VirtualAddress;
use crate::attributes::MemoryAttributes;
use crate::attributes::spec_decode_page_attrs;
use crate::attributes::spec_decode_table_attrs;
use crate::attributes::spec_encode_page_attrs;
use crate::attributes::spec_encode_table_attrs;
use crate::attributes::spec_is_canonical;
use crate::attributes::PAGE_ATTR_MASK;
use crate::attributes::PAGE_LINK_ATTR_MASK;

verus! {

/// Errors of the paging subsystem.  Every fallible constructor and lookup
/// surfaces one of these; there is no local recovery.
#[derive(Copy, Clone, Debug, PartialEq, Eq, Structural)]
pub enum PageError {
    /// An address or size violates the required alignment.
    AlignError,
    /// The hardware address-translation operation reported a fault.
    TranslationError,
    /// Reserved for future fault decoding.
    DomainError,
    /// Reserved for future fault decoding.
    PermissionError,
    /// The operation was attempted on an invalid-typed descriptor.
    InvalidMemory,
    /// The address lies outside an offset mapping's window.
    NotInRange,
    /// Reserved.
    IndexError,
}

/// Types a first-level translation-table entry can have.
#[derive(Copy, Clone, Debug, PartialEq, Eq, Structural)]
pub enum TranslationTableType {
    Invalid,
    Page,
    Section,
    Supersection,
}

/// Alignment mask a first-level entry of the given type demands of its
/// physical base address: second-level pointers are 1KB aligned, sections
/// and supersections 1MB.
pub open spec fn spec_translation_align(tabletype: TranslationTableType) -> u32 {
    match tabletype {
        TranslationTableType::Invalid => 0,
        TranslationTableType::Page => 0x3ff,
        TranslationTableType::Section => 0xf_ffff,
        TranslationTableType::Supersection => 0xf_ffff,
    }
}

/// Type encoded in a first-level descriptor word: `0b00` invalid, `0b01`
/// second-level pointer, `0b1x` section, with bit 18 set for a supersection.
pub open spec fn spec_table_type_of(word: u32) -> TranslationTableType {
    if word & 0b11 == 0b00 {
        TranslationTableType::Invalid
    } else if word & 0b11 == 0b01 {
        TranslationTableType::Page
    } else if word & 0x4_0000 == 0 {
        TranslationTableType::Section
    } else {
        TranslationTableType::Supersection
    }
}

impl TranslationTableType {
    /// Alignment mask this entry type demands of its physical base address.
    pub fn align(self) -> (r: u32)
        ensures
            r == spec_translation_align(self),
    {
        match self {
            TranslationTableType::Invalid => 0,
            TranslationTableType::Page => 0x3ff,
            TranslationTableType::Section => 0xf_ffff,
            TranslationTableType::Supersection => 0xf_ffff,
        }
    }
}

/// A first-level translation-table entry: a 32-bit hardware word.
#[derive(Copy, Clone, Debug, PartialEq, Eq, Structural)]
pub struct TranslationTableDescriptor(u32);

impl View for TranslationTableDescriptor {
    type V = u32;

    closed spec fn view(&self) -> u32 {
        self.0
    }
}

impl TranslationTableDescriptor {
    /// The all-zero word: the canonical invalid descriptor.
    pub fn new_empty() -> (r: TranslationTableDescriptor)
        ensures
            r@ == 0,
    {
        TranslationTableDescriptor(0)
    }

    /// Build a descriptor from a type, a physical base address and an
    /// attribute value.  An invalid descriptor ignores the address and the
    /// attributes; for the other types the address must carry the type's
    /// alignment, else construction fails with `AlignError`.
    pub fn new(
        tabletype: TranslationTableType,
        addr: PhysicalAddress,
        attributes: MemoryAttributes,
    ) -> (r: Result<TranslationTableDescriptor, PageError>)
        ensures
            tabletype is Invalid ==> (r matches Ok(d) && d@ == 0),
            !(tabletype is Invalid) && addr@ & spec_translation_align(tabletype) == 0 ==> (
            r matches Ok(d) && d@ == addr@ | spec_encode_table_attrs(attributes@, tabletype)),
            !(tabletype is Invalid) && addr@ & spec_translation_align(tabletype) != 0 ==> r
                == Err::<TranslationTableDescriptor, PageError>(PageError::AlignError),
    {
        if tabletype == TranslationTableType::Invalid {
            return Ok(TranslationTableDescriptor(0));
        }
        if !addr.is_aligned(tabletype.align()) {
            return Err(PageError::AlignError);
        }
        let flags = attributes.to_table_descriptor(tabletype);
        Ok(TranslationTableDescriptor(addr.as_u32() | flags))
    }

    /// The type encoded in the descriptor's tag bits.
    pub fn get_type(self) -> (r: TranslationTableType)
        ensures
            r == spec_table_type_of(self@),
    {
        // The tag is in bits [1:0]: 0b00 invalid, 0b01 page, 0b1x section or
        // supersection; bit 18 is 0 for a section, 1 for a supersection.
        let w = self.0;
        if w & 0b11 == 0b00 {
            TranslationTableType::Invalid
        } else if w & 0b11 == 0b01 {
            TranslationTableType::Page
        } else if w & 0x4_0000 == 0 {
            TranslationTableType::Section
        } else {
            TranslationTableType::Supersection
        }
    }

    /// The physical base address the descriptor carries, recovered by
    /// masking off the attribute and tag bits; fails with `InvalidMemory`
    /// on an invalid descriptor.
    pub fn get_addr(&self) -> (r: Result<PhysicalAddress, PageError>)
        ensures
            spec_table_type_of(self@) is Invalid ==> r == Err::<PhysicalAddress, PageError>(
                PageError::InvalidMemory,
            ),
            !(spec_table_type_of(self@) is Invalid) ==> (r matches Ok(a) && a@ == self@
                & !spec_translation_align(spec_table_type_of(self@))),
    {
        let entry_type = self.get_type();
        if entry_type == TranslationTableType::Invalid {
            return Err(PageError::InvalidMemory);
        }
        let strip_addr = self.0 & !entry_type.align();
        Ok(PhysicalAddress(strip_addr))
    }

    /// The raw hardware word.
    pub fn as_u32(&self) -> (r: u32)
        ensures
            r == self@,
    {
        self.0
    }
}

/// Types a second-level page-table entry can have.
#[derive(Copy, Clone, Debug, PartialEq, Eq, Structural)]
pub enum PageTableType {
    Invalid,
    SmallPage,
    LargePage,
}

/// Alignment mask a second-level entry of the given type demands of its
/// physical base address: small pages are 4KB aligned, large pages 64KB.
pub open spec fn spec_page_align(pagetype: PageTableType) -> u32 {
    match pagetype {
        PageTableType::Invalid => 0,
        PageTableType::SmallPage => 0xfff,
        PageTableType::LargePage => 0xffff,
    }
}

/// Type encoded in a second-level descriptor word: `0b00` invalid, `0b01`
/// large page, `0b1x` small page.  The tag scheme mirrors the first-level
/// one because the hardware defines the two levels independently.
pub open spec fn spec_page_type_of(word: u32) -> PageTableType {
    if word & 0b11 == 0b00 {
        PageTableType::Invalid
    } else if word & 0b11 == 0b01 {
        PageTableType::LargePage
    } else {
        PageTableType::SmallPage
    }
}

impl PageTableType {
    /// Alignment mask this entry type demands of its physical base address.
    pub fn align(self) -> (r: u32)
        ensures
            r == spec_page_align(self),
    {
        match self {
            PageTableType::Invalid => 0,
            PageTableType::SmallPage => 0xfff,
            PageTableType::LargePage => 0xffff,
        }
    }
}

/// A second-level page-table entry: a 32-bit hardware word.
#[derive(Copy, Clone, Debug, PartialEq, Eq, Structural)]
pub struct PageTableDescriptor(u32);

impl View for PageTableDescriptor {
    type V = u32;

    closed spec fn view(&self) -> u32 {
        self.0
    }
}

impl PageTableDescriptor {
    /// The all-zero word: the canonical invalid descriptor.
    pub fn new_empty() -> (r: PageTableDescriptor)
        ensures
            r@ == 0,
    {
        PageTableDescriptor(0)
    }

    /// Build a descriptor from a type, a physical base address and an
    /// attribute value.  An invalid descriptor ignores the address and the
    /// attributes; for the other types the address must carry the type's
    /// alignment, else construction fails with `AlignError`.
    pub fn new(pagetype: PageTableType, addr: PhysicalAddress, attributes: MemoryAttributes) -> (r:
        Result<PageTableDescriptor, PageError>)
        ensures
            pagetype is Invalid ==> (r matches Ok(d) && d@ == 0),
            !(pagetype is Invalid) && addr@ & spec_page_align(pagetype) == 0 ==> (r matches Ok(d)
                && d@ == addr@ | spec_encode_page_attrs(attributes@, pagetype)),
            !(pagetype is Invalid) && addr@ & spec_page_align(pagetype) != 0 ==> r == Err::<
                PageTableDescriptor,
                PageError,
            >(PageError::AlignError),
    {
        if pagetype == PageTableType::Invalid {
            return Ok(PageTableDescriptor(0));
        }
        if !addr.is_aligned(pagetype.align()) {
            return Err(PageError::AlignError);
        }
        let flags = attributes.to_page_descriptor(pagetype);
        Ok(PageTableDescriptor(addr.as_u32() | flags))
    }

    /// The type encoded in the descriptor's tag bits.
    pub fn get_type(self) -> (r: PageTableType)
        ensures
            r == spec_page_type_of(self@),
    {
        // The tag is in bits [1:0]: 0b00 invalid, 0b01 large page, 0b1x
        // small page.
        let w = self.0;
        if w & 0b11 == 0b00 {
            PageTableType::Invalid
        } else if w & 0b11 == 0b01 {
            PageTableType::LargePage
        } else {
            PageTableType::SmallPage
        }
    }

    /// The physical base address the descriptor carries, recovered by
    /// masking off the attribute and tag bits; fails with `InvalidMemory`
    /// on an invalid descriptor.
    pub fn get_addr(self) -> (r: Result<PhysicalAddress, PageError>)
        ensures
            spec_page_type_of(self@) is Invalid ==> r == Err::<PhysicalAddress, PageError>(
                PageError::InvalidMemory,
            ),
            !(spec_page_type_of(self@) is Invalid) ==> (r matches Ok(a) && a@ == self@
                & !spec_page_align(spec_page_type_of(self@))),
    {
        let page_type = self.get_type();
        if page_type == PageTableType::Invalid {
            return Err(PageError::InvalidMemory);
        }
        let strip_addr = self.0 & !page_type.align();
        Ok(PhysicalAddress(strip_addr))
    }

    /// The raw hardware word.
    pub fn as_u32(&self) -> (r: u32)
        ensures
            r == self@,
    {
        self.0
    }
}

impl VirtualAddress {
    /// Check this address against an alignment mask; `AlignError` when any
    /// mask bit is set in the address.
    pub fn check_align(&self, mask: u32) -> (r: Result<(), PageError>)
        ensures
            self@ & mask == 0 ==> r is Ok,
            self@ & mask != 0 ==> r == Err::<(), PageError>(PageError::AlignError),
    {
        if self.is_aligned(mask) {
            Ok(())
        } else {
            Err(PageError::AlignError)
        }
    }
}

impl PhysicalAddress {
    /// Check this address against an alignment mask; `AlignError` when any
    /// mask bit is set in the address.
    pub fn check_align(&self, mask: u32) -> (r: Result<(), PageError>)
        ensures
            self@ & mask == 0 ==> r is Ok,
            self@ & mask != 0 ==> r == Err::<(), PageError>(PageError::AlignError),
    {
        if self.is_aligned(mask) {
            Ok(())
        } else {
            Err(PageError::AlignError)
        }
    }
}

/// Law: a first-level descriptor built from an aligned address reports its
/// type and its address back, and its attribute bits decode to the encoded
/// value restricted to the fields the chosen layout carries.
pub proof fn lemma_table_descriptor_roundtrip(
    tabletype: TranslationTableType,
    addr: u32,
    attrs: u32,
)
    requires
        !(tabletype is Invalid),
        addr & spec_translation_align(tabletype) == 0,
        spec_is_canonical(attrs),
    ensures
        spec_table_type_of(addr | spec_encode_table_attrs(attrs, tabletype)) == tabletype,
        (addr | spec_encode_table_attrs(attrs, tabletype)) & !spec_translation_align(tabletype)
            == addr,
        spec_decode_table_attrs(addr | spec_encode_table_attrs(attrs, tabletype), tabletype) == (
        match tabletype {
            TranslationTableType::Invalid => 0u32,
            TranslationTableType::Page => attrs & PAGE_LINK_ATTR_MASK,
            TranslationTableType::Section => attrs,
            TranslationTableType::Supersection => attrs & !0x1e0u32,
        }),
{
    match tabletype {
        TranslationTableType::Invalid => {
        },
        TranslationTableType::Page => {
            assert(addr & 0x3ff == 0 && attrs & 0x000b_fdfd == attrs ==> {
                let w = addr | (((attrs & 1) << 2) | (((attrs >> 19) & 1) << 3) | (attrs & 0x1e0)
                    | 0b01);
                &&& w & 0b11 == 0b01
                &&& w & !0x3ff == addr
                &&& ((w >> 2) & 1) | (((w >> 3) & 1) << 19) | (w & 0x1e0) == (attrs & 0x0008_01e1)
            }) by (bit_vector);
        },
        TranslationTableType::Section => {
            assert(addr & 0xf_ffff == 0 && attrs & 0x000b_fdfd == attrs ==> {
                let w = addr | ((attrs & 0x000b_fdfd) | 0b10);
                &&& w & 0b11 != 0b00
                &&& w & 0b11 != 0b01
                &&& w & 0x4_0000 == 0
                &&& w & !0xf_ffff == addr
                &&& w & 0x000b_fdfd == attrs
            }) by (bit_vector);
        },
        TranslationTableType::Supersection => {
            assert(addr & 0xf_ffff == 0 && attrs & 0x000b_fdfd == attrs ==> {
                let w = addr | ((attrs & 0x000b_fc1d) | 0x0004_0002);
                &&& w & 0b11 != 0b00
                &&& w & 0b11 != 0b01
                &&& w & 0x4_0000 != 0
                &&& w & !0xf_ffff == addr
                &&& w & 0x000b_fc1d == (attrs & !0x1e0)
            }) by (bit_vector);
        },
    }
}

/// Law: a second-level descriptor built from an aligned address reports its
/// type and its address back, and its attribute bits decode to the encoded
/// value restricted to the fields the second-level layouts carry.
pub proof fn lemma_page_descriptor_roundtrip(pagetype: PageTableType, addr: u32, attrs: u32)
    requires
        !(pagetype is Invalid),
        addr & spec_page_align(pagetype) == 0,
        spec_is_canonical(attrs),
    ensures
        spec_page_type_of(addr | spec_encode_page_attrs(attrs, pagetype)) == pagetype,
        (addr | spec_encode_page_attrs(attrs, pagetype)) & !spec_page_align(pagetype) == addr,
        spec_decode_page_attrs(addr | spec_encode_page_attrs(attrs, pagetype), pagetype) == (attrs
            & PAGE_ATTR_MASK),
{
    match pagetype {
        PageTableType::Invalid => {
        },
        PageTableType::SmallPage => {
            assert(addr & 0xfff == 0 && attrs & 0x000b_fdfd == attrs ==> {
                let w = addr | (((attrs >> 4) & 1) | (attrs & 0xc) | (((attrs >> 10) & 0xff) << 4)
                    | 0b10);
                &&& w & 0b11 != 0b00
                &&& w & 0b11 != 0b01
                &&& w & !0xfff == addr
                &&& ((w & 1) << 4) | (w & 0xc) | (((w >> 4) & 0xff) << 10) == (attrs & 0x0003_fc1c)
            }) by (bit_vector);
        },
        PageTableType::LargePage => {
            assert(addr & 0xffff == 0 && attrs & 0x000b_fdfd == attrs ==> {
                let w = addr | ((attrs & 0x700c) | (((attrs >> 10) & 3) << 4) | (((attrs >> 15) & 7)
                    << 9) | (((attrs >> 4) & 1) << 15) | 0b01);
                &&& w & 0b11 == 0b01
                &&& w & !0xffff == addr
                &&& (w & 0x700c) | (((w >> 4) & 3) << 10) | (((w >> 9) & 7) << 15) | (((w >> 15)
                    & 1) << 4) == (attrs & 0x0003_fc1c)
            }) by (bit_vector);
        },
    }
}

} // verus!
