//! Architecture-independent memory attributes and the codecs that move them
//! into and out of each descriptor's hardware bit layout.
//!
//! The canonical attribute word keeps each field at the position the section
//! descriptor uses: PXN at bit 0, B at 2, C at 3, XN at 4, the four domain
//! bits at 5, AP at 10, TEX at 12, AP2 at 15, S at 16, nG at 17 and NS at
//! bit 19.  All other bits are zero.  Encoding shuffles these fields into the
//! layout the chosen descriptor type mandates and stamps the type's tag bits;
//! decoding performs the exact inverse shuffle.

use vstd::prelude::*;

use crate::paging::PageTableDescriptor;
use crate::paging::PageTableType;
use crate::paging::TranslationTableDescriptor;
use crate::paging::TranslationTableType;
use crate::paging::spec_page_type_of;
use crate::paging::spec_table_type_of;

verus! {

/// Bits of the canonical attribute layout that carry a defined field.
pub const ATTR_MASK: u32 = 0x000b_fdfd;

/// Canonical bits a supersection descriptor can carry: the domain field is
/// architecturally reserved there and forced to zero.
pub const SUPERSECTION_ATTR_MASK: u32 = 0x000b_fc1d;

/// Canonical bits a first-level page-table pointer descriptor can carry:
/// PXN, the domain field and NS.
pub const PAGE_LINK_ATTR_MASK: u32 = 0x0008_01e1;

/// Canonical bits a second-level small or large page descriptor can carry:
/// B, C, XN, AP, TEX, AP2, S and nG.
pub const PAGE_ATTR_MASK: u32 = 0x0003_fc1c;

/// A value is canonical when only defined attribute bits are set.
pub open spec fn spec_is_canonical(bits: u32) -> bool {
    bits & ATTR_MASK == bits
}

/// Attribute bits of a section descriptor: the canonical positions are the
/// hardware positions; bit 1 is the section tag.
pub open spec fn spec_encode_section_attrs(attrs: u32) -> u32 {
    (attrs & ATTR_MASK) | 0b10
}

/// Attribute bits of a supersection descriptor: as a section with the domain
/// field dropped; bit 18 distinguishes it from a plain section.
pub open spec fn spec_encode_supersection_attrs(attrs: u32) -> u32 {
    (attrs & SUPERSECTION_ATTR_MASK) | 0x0004_0002
}

/// Attribute bits of a first-level page-table pointer descriptor: PXN moves
/// from canonical bit 0 to hardware bit 2, NS from canonical bit 19 to
/// hardware bit 3, the domain field stays in place; tag `0b01`.
pub open spec fn spec_encode_page_link_attrs(attrs: u32) -> u32 {
    ((attrs & 1) << 2) | (((attrs >> 19) & 1) << 3) | (attrs & 0x1e0) | 0b01
}

/// Attribute bits of a small page descriptor: B and C stay in place, XN
/// moves from canonical bit 4 to hardware bit 0, and the AP/TEX/AP2/S/nG
/// block shifts from canonical offset 10 down to hardware offset 4; the
/// small-page tag sets bit 1.
pub open spec fn spec_encode_small_page_attrs(attrs: u32) -> u32 {
    ((attrs >> 4) & 1) | (attrs & 0xc) | (((attrs >> 10) & 0xff) << 4) | 0b10
}

/// Attribute bits of a large page descriptor: B, C and TEX stay in place,
/// AP shifts from canonical offset 10 down to 4, the AP2/S/nG block from
/// offset 15 down to 9, and XN from canonical bit 4 up to hardware bit 15;
/// tag `0b01`.
pub open spec fn spec_encode_large_page_attrs(attrs: u32) -> u32 {
    (attrs & 0x700c) | (((attrs >> 10) & 3) << 4) | (((attrs >> 15) & 7) << 9) | (((attrs >> 4)
        & 1) << 15) | 0b01
}

/// Attribute bits encoded into a first-level descriptor of the given type,
/// tag included.
pub open spec fn spec_encode_table_attrs(attrs: u32, tabletype: TranslationTableType) -> u32 {
    match tabletype {
        TranslationTableType::Invalid => 0,
        TranslationTableType::Page => spec_encode_page_link_attrs(attrs),
        TranslationTableType::Section => spec_encode_section_attrs(attrs),
        TranslationTableType::Supersection => spec_encode_supersection_attrs(attrs),
    }
}

/// Attribute bits encoded into a second-level descriptor of the given type,
/// tag included.
pub open spec fn spec_encode_page_attrs(attrs: u32, pagetype: PageTableType) -> u32 {
    match pagetype {
        PageTableType::Invalid => 0,
        PageTableType::SmallPage => spec_encode_small_page_attrs(attrs),
        PageTableType::LargePage => spec_encode_large_page_attrs(attrs),
    }
}

/// Canonical attributes recovered from a section descriptor word.
pub open spec fn spec_decode_section_attrs(word: u32) -> u32 {
    word & ATTR_MASK
}

/// Canonical attributes recovered from a supersection descriptor word.
pub open spec fn spec_decode_supersection_attrs(word: u32) -> u32 {
    word & SUPERSECTION_ATTR_MASK
}

/// Canonical attributes recovered from a first-level page-table pointer
/// descriptor word.
pub open spec fn spec_decode_page_link_attrs(word: u32) -> u32 {
    ((word >> 2) & 1) | (((word >> 3) & 1) << 19) | (word & 0x1e0)
}

/// Canonical attributes recovered from a small page descriptor word.
pub open spec fn spec_decode_small_page_attrs(word: u32) -> u32 {
    ((word & 1) << 4) | (word & 0xc) | (((word >> 4) & 0xff) << 10)
}

/// Canonical attributes recovered from a large page descriptor word.
pub open spec fn spec_decode_large_page_attrs(word: u32) -> u32 {
    (word & 0x700c) | (((word >> 4) & 3) << 10) | (((word >> 9) & 7) << 15) | (((word >> 15) & 1)
        << 4)
}

/// Canonical attributes recovered from a first-level descriptor word of the
/// given type.
pub open spec fn spec_decode_table_attrs(word: u32, tabletype: TranslationTableType) -> u32 {
    match tabletype {
        TranslationTableType::Invalid => 0,
        TranslationTableType::Page => spec_decode_page_link_attrs(word),
        TranslationTableType::Section => spec_decode_section_attrs(word),
        TranslationTableType::Supersection => spec_decode_supersection_attrs(word),
    }
}

/// Canonical attributes recovered from a second-level descriptor word of the
/// given type.
pub open spec fn spec_decode_page_attrs(word: u32, pagetype: PageTableType) -> u32 {
    match pagetype {
        PageTableType::Invalid => 0,
        PageTableType::SmallPage => spec_decode_small_page_attrs(word),
        PageTableType::LargePage => spec_decode_large_page_attrs(word),
    }
}

/// Every decoder yields a canonical value, whatever the descriptor word.
proof fn lemma_decoders_canonical()
    by (bit_vector)
    ensures
        forall|w: u32| #[trigger] spec_decode_section_attrs(w) & 0x000b_fdfd
            == spec_decode_section_attrs(w),
        forall|w: u32| #[trigger] spec_decode_supersection_attrs(w) & 0x000b_fdfd
            == spec_decode_supersection_attrs(w),
        forall|w: u32| #[trigger] spec_decode_page_link_attrs(w) & 0x000b_fdfd
            == spec_decode_page_link_attrs(w),
        forall|w: u32| #[trigger] spec_decode_small_page_attrs(w) & 0x000b_fdfd
            == spec_decode_small_page_attrs(w),
        forall|w: u32| #[trigger] spec_decode_large_page_attrs(w) & 0x000b_fdfd
            == spec_decode_large_page_attrs(w),
{
}

/// Access permission field: the two AP bits of the canonical layout.  The
/// AP2 extension bit is a separate flag.
#[derive(Copy, Clone, Debug, PartialEq, Eq, Structural)]
pub enum AccessPermission {
    NoAccess,
    PrivAccess,
    UnprivReadOnly,
    FullAccess,
}

/// Two-bit hardware encoding of an access permission value.
pub open spec fn spec_ap_bits(ap: AccessPermission) -> u32 {
    match ap {
        AccessPermission::NoAccess => 0b00,
        AccessPermission::PrivAccess => 0b01,
        AccessPermission::UnprivReadOnly => 0b10,
        AccessPermission::FullAccess => 0b11,
    }
}

impl AccessPermission {
    /// The two AP bits this permission encodes to.
    pub fn bits(self) -> (r: u32)
        ensures
            r == spec_ap_bits(self),
    {
        match self {
            AccessPermission::NoAccess => 0b00,
            AccessPermission::PrivAccess => 0b01,
            AccessPermission::UnprivReadOnly => 0b10,
            AccessPermission::FullAccess => 0b11,
        }
    }
}

/// An attribute value in the canonical layout.  Only defined bit positions
/// are ever set; every constructor and builder maintains that.
#[derive(Copy, Clone, Debug, PartialEq, Eq, Structural)]
pub struct MemoryAttributes(u32);

impl View for MemoryAttributes {
    type V = u32;

    closed spec fn view(&self) -> u32 {
        self.0
    }
}

impl MemoryAttributes {
    /// A value in canonical layout has only defined attribute bits set.
    pub open spec fn wf(self) -> bool {
        spec_is_canonical(self@)
    }

    /// The empty attribute value: every field zero.
    pub fn new() -> (r: MemoryAttributes)
        ensures
            r@ == 0,
            r.wf(),
    {
        proof {
            assert(0u32 & 0x000b_fdfd == 0u32) by (bit_vector);
        }
        MemoryAttributes(0)
    }

    /// Build an attribute value from a raw canonical word; bits outside the
    /// defined positions are discarded.
    pub fn from_bits(bits: u32) -> (r: MemoryAttributes)
        ensures
            r@ == bits & ATTR_MASK,
            r.wf(),
    {
        proof {
            assert((bits & 0x000b_fdfd) & 0x000b_fdfd == bits & 0x000b_fdfd) by (bit_vector);
        }
        MemoryAttributes(bits & ATTR_MASK)
    }

    /// The raw canonical word.
    pub fn as_u32(self) -> (r: u32)
        ensures
            r == self@,
    {
        self.0
    }

    /// Set or clear the privileged-execute-never bit.
    pub fn with_priv_execute_never(self, enable: bool) -> (r: MemoryAttributes)
        ensures
            r@ == if enable {
                self@ | 0x1u32
            } else {
                self@ & !0x1u32
            },
            self.wf() ==> r.wf(),
    {
        proof {
            lemma_flag_updates_canonical(self.0, 0x1);
        }
        if enable {
            MemoryAttributes(self.0 | 0x1)
        } else {
            MemoryAttributes(self.0 & !0x1)
        }
    }

    /// Set or clear the bufferable bit.
    pub fn with_bufferable(self, enable: bool) -> (r: MemoryAttributes)
        ensures
            r@ == if enable {
                self@ | 0x4u32
            } else {
                self@ & !0x4u32
            },
            self.wf() ==> r.wf(),
    {
        proof {
            lemma_flag_updates_canonical(self.0, 0x4);
        }
        if enable {
            MemoryAttributes(self.0 | 0x4)
        } else {
            MemoryAttributes(self.0 & !0x4)
        }
    }

    /// Set or clear the cacheable bit.
    pub fn with_cacheable(self, enable: bool) -> (r: MemoryAttributes)
        ensures
            r@ == if enable {
                self@ | 0x8u32
            } else {
                self@ & !0x8u32
            },
            self.wf() ==> r.wf(),
    {
        proof {
            lemma_flag_updates_canonical(self.0, 0x8);
        }
        if enable {
            MemoryAttributes(self.0 | 0x8)
        } else {
            MemoryAttributes(self.0 & !0x8)
        }
    }

    /// Set or clear the execute-never bit.
    pub fn with_execute_never(self, enable: bool) -> (r: MemoryAttributes)
        ensures
            r@ == if enable {
                self@ | 0x10u32
            } else {
                self@ & !0x10u32
            },
            self.wf() ==> r.wf(),
    {
        proof {
            lemma_flag_updates_canonical(self.0, 0x10);
        }
        if enable {
            MemoryAttributes(self.0 | 0x10)
        } else {
            MemoryAttributes(self.0 & !0x10)
        }
    }

    /// Set or clear the AP2 access-permission extension bit.
    pub fn with_ap2(self, enable: bool) -> (r: MemoryAttributes)
        ensures
            r@ == if enable {
                self@ | 0x8000u32
            } else {
                self@ & !0x8000u32
            },
            self.wf() ==> r.wf(),
    {
        proof {
            lemma_flag_updates_canonical(self.0, 0x8000);
        }
        if enable {
            MemoryAttributes(self.0 | 0x8000)
        } else {
            MemoryAttributes(self.0 & !0x8000)
        }
    }

    /// Set or clear the shareable bit.
    pub fn with_shareable(self, enable: bool) -> (r: MemoryAttributes)
        ensures
            r@ == if enable {
                self@ | 0x10000u32
            } else {
                self@ & !0x10000u32
            },
            self.wf() ==> r.wf(),
    {
        proof {
            lemma_flag_updates_canonical(self.0, 0x10000);
        }
        if enable {
            MemoryAttributes(self.0 | 0x10000)
        } else {
            MemoryAttributes(self.0 & !0x10000)
        }
    }

    /// Set or clear the not-global bit.
    pub fn with_not_global(self, enable: bool) -> (r: MemoryAttributes)
        ensures
            r@ == if enable {
                self@ | 0x20000u32
            } else {
                self@ & !0x20000u32
            },
            self.wf() ==> r.wf(),
    {
        proof {
            lemma_flag_updates_canonical(self.0, 0x20000);
        }
        if enable {
            MemoryAttributes(self.0 | 0x20000)
        } else {
            MemoryAttributes(self.0 & !0x20000)
        }
    }

    /// Set or clear the not-secure bit.
    pub fn with_not_secure(self, enable: bool) -> (r: MemoryAttributes)
        ensures
            r@ == if enable {
                self@ | 0x80000u32
            } else {
                self@ & !0x80000u32
            },
            self.wf() ==> r.wf(),
    {
        proof {
            lemma_flag_updates_canonical(self.0, 0x80000);
        }
        if enable {
            MemoryAttributes(self.0 | 0x80000)
        } else {
            MemoryAttributes(self.0 & !0x80000)
        }
    }

    /// Set the four-bit domain field; only the low four bits of the argument
    /// are used.
    pub fn with_domain(self, domain: u8) -> (r: MemoryAttributes)
        ensures
            r@ == (self@ & !0x1e0u32) | ((domain as u32 & 0xf) << 5),
            self.wf() ==> r.wf(),
    {
        proof {
            let v: u32 = self.0;
            let d: u32 = domain as u32;
            assert(v & 0x000b_fdfd == v ==> ((v & !0x1e0) | ((d & 0xf) << 5)) & 0x000b_fdfd == ((v
                & !0x1e0) | ((d & 0xf) << 5))) by (bit_vector);
        }
        MemoryAttributes((self.0 & !0x1e0) | ((domain as u32 & 0xf) << 5))
    }

    /// Set the two-bit access permission field.
    pub fn with_access_permission(self, ap: AccessPermission) -> (r: MemoryAttributes)
        ensures
            r@ == (self@ & !0xc00u32) | (spec_ap_bits(ap) << 10),
            self.wf() ==> r.wf(),
    {
        let bits = ap.bits();
        proof {
            let v: u32 = self.0;
            let b: u32 = bits;
            assert(v & 0x000b_fdfd == v && b < 4 ==> ((v & !0xc00) | (b << 10)) & 0x000b_fdfd == ((v
                & !0xc00) | (b << 10))) by (bit_vector);
        }
        MemoryAttributes((self.0 & !0xc00) | (bits << 10))
    }

    /// Set the three-bit TEX field; only the low three bits of the argument
    /// are used.
    pub fn with_tex(self, tex: u8) -> (r: MemoryAttributes)
        ensures
            r@ == (self@ & !0x7000u32) | ((tex as u32 & 0x7) << 12),
            self.wf() ==> r.wf(),
    {
        proof {
            let v: u32 = self.0;
            let t: u32 = tex as u32;
            assert(v & 0x000b_fdfd == v ==> ((v & !0x7000) | ((t & 0x7) << 12)) & 0x000b_fdfd == ((v
                & !0x7000) | ((t & 0x7) << 12))) by (bit_vector);
        }
        MemoryAttributes((self.0 & !0x7000) | ((tex as u32 & 0x7) << 12))
    }

    /// Encode the attributes into the bit layout of a first-level descriptor
    /// of the given type, tag bits included.
    pub fn to_table_descriptor(&self, tabletype: TranslationTableType) -> (r: u32)
        ensures
            r == spec_encode_table_attrs(self@, tabletype),
    {
        let attrs = self.0;
        match tabletype {
            TranslationTableType::Invalid => 0,
            TranslationTableType::Page => ((attrs & 1) << 2) | (((attrs >> 19) & 1) << 3) | (attrs
                & 0x1e0) | 0b01,
            TranslationTableType::Section => (attrs & ATTR_MASK) | 0b10,
            TranslationTableType::Supersection => (attrs & SUPERSECTION_ATTR_MASK) | 0x0004_0002,
        }
    }

    /// Encode the attributes into the bit layout of a second-level descriptor
    /// of the given type, tag bits included.
    pub fn to_page_descriptor(&self, pagetype: PageTableType) -> (r: u32)
        ensures
            r == spec_encode_page_attrs(self@, pagetype),
    {
        let attrs = self.0;
        match pagetype {
            PageTableType::Invalid => 0,
            PageTableType::SmallPage => ((attrs >> 4) & 1) | (attrs & 0xc) | (((attrs >> 10) & 0xff)
                << 4) | 0b10,
            PageTableType::LargePage => (attrs & 0x700c) | (((attrs >> 10) & 3) << 4) | (((attrs
                >> 15) & 7) << 9) | (((attrs >> 4) & 1) << 15) | 0b01,
        }
    }

    /// Decode the canonical attributes out of a first-level descriptor;
    /// `None` for an invalid descriptor, which carries no attributes.
    pub fn from_table_descriptor(descriptor: TranslationTableDescriptor) -> (r: Option<
        MemoryAttributes,
    >)
        ensures
            spec_table_type_of(descriptor@) is Invalid ==> r is None,
            !(spec_table_type_of(descriptor@) is Invalid) ==> (r matches Some(a) && a@
                == spec_decode_table_attrs(descriptor@, spec_table_type_of(descriptor@)) && a.wf()),
    {
        let word = descriptor.as_u32();
        proof {
            lemma_decoders_canonical();
        }
        match descriptor.get_type() {
            TranslationTableType::Invalid => None,
            TranslationTableType::Page => {
                let a = MemoryAttributes(
                    ((word >> 2) & 1) | (((word >> 3) & 1) << 19) | (word & 0x1e0),
                );
                proof {
                    assert(a@ == spec_decode_page_link_attrs(word));
                    assert(a.wf());
                }
                Some(a)
            },
            TranslationTableType::Section => {
                let a = MemoryAttributes(word & ATTR_MASK);
                proof {
                    assert(a@ == spec_decode_section_attrs(word));
                    assert(a.wf());
                }
                Some(a)
            },
            TranslationTableType::Supersection => {
                let a = MemoryAttributes(word & SUPERSECTION_ATTR_MASK);
                proof {
                    assert(a@ == spec_decode_supersection_attrs(word));
                    assert(a.wf());
                }
                Some(a)
            },
        }
    }

    /// Decode the canonical attributes out of a second-level descriptor;
    /// `None` for an invalid descriptor, which carries no attributes.
    pub fn from_page_descriptor(descriptor: PageTableDescriptor) -> (r: Option<MemoryAttributes>)
        ensures
            spec_page_type_of(descriptor@) is Invalid ==> r is None,
            !(spec_page_type_of(descriptor@) is Invalid) ==> (r matches Some(a) && a@
                == spec_decode_page_attrs(descriptor@, spec_page_type_of(descriptor@)) && a.wf()),
    {
        let word = descriptor.as_u32();
        proof {
            lemma_decoders_canonical();
        }
        match descriptor.get_type() {
            PageTableType::Invalid => None,
            PageTableType::SmallPage => {
                let a = MemoryAttributes(
                    ((word & 1) << 4) | (word & 0xc) | (((word >> 4) & 0xff) << 10),
                );
                proof {
                    assert(a@ == spec_decode_small_page_attrs(word));
                    assert(a.wf());
                }
                Some(a)
            },
            PageTableType::LargePage => {
                let a = MemoryAttributes(
                    (word & 0x700c) | (((word >> 4) & 3) << 10) | (((word >> 9) & 7) << 15) | (((
                    word >> 15) & 1) << 4),
                );
                proof {
                    assert(a@ == spec_decode_large_page_attrs(word));
                    assert(a.wf());
                }
                Some(a)
            },
        }
    }
}

/// Setting or clearing a single defined flag bit keeps a canonical value
/// canonical.
proof fn lemma_flag_updates_canonical(v: u32, bit: u32)
    requires
        bit == 0x1 || bit == 0x4 || bit == 0x8 || bit == 0x10 || bit == 0x8000 || bit == 0x10000
            || bit == 0x20000 || bit == 0x80000,
    ensures
        v & 0x000b_fdfd == v ==> (v | bit) & 0x000b_fdfd == (v | bit),
        v & 0x000b_fdfd == v ==> (v & !bit) & 0x000b_fdfd == (v & !bit),
{
    assert(v & 0x000b_fdfd == v ==> (v | bit) & 0x000b_fdfd == (v | bit) && (v & !bit)
        & 0x000b_fdfd == (v & !bit)) by (bit_vector)
        requires
            bit == 0x1 || bit == 0x4 || bit == 0x8 || bit == 0x10 || bit == 0x8000 || bit == 0x10000
                || bit == 0x20000 || bit == 0x80000,
    ;
}

/// Attribute round trip for a section: every canonical attribute value
/// survives encoding into and decoding out of a section descriptor word,
/// whatever aligned base address the word carries.
pub proof fn lemma_section_attr_roundtrip(addr: u32, attrs: u32)
    requires
        addr & 0xf_ffff == 0,
        spec_is_canonical(attrs),
    ensures
        spec_decode_section_attrs(addr | spec_encode_section_attrs(attrs)) == attrs,
{
    assert(addr & 0xf_ffff == 0 && attrs & 0x000b_fdfd == attrs ==> (addr | ((attrs & 0x000b_fdfd)
        | 0b10)) & 0x000b_fdfd == attrs) by (bit_vector);
}

/// Attribute round trip for a supersection: the domain field is forced to
/// zero by the hardware layout, every other canonical field survives.
pub proof fn lemma_supersection_attr_roundtrip(addr: u32, attrs: u32)
    requires
        addr & 0xf_ffff == 0,
        spec_is_canonical(attrs),
    ensures
        spec_decode_supersection_attrs(addr | spec_encode_supersection_attrs(attrs)) == (attrs
            & !0x1e0u32),
{
    assert(addr & 0xf_ffff == 0 && attrs & 0x000b_fdfd == attrs ==> (addr | ((attrs
        & 0x000b_fc1d) | 0x0004_0002)) & 0x000b_fc1d == (attrs & !0x1e0)) by (bit_vector);
}

/// Attribute round trip for a first-level page-table pointer: every
/// canonical value restricted to the fields that layout carries (PXN,
/// domain, NS) survives.
pub proof fn lemma_page_link_attr_roundtrip(addr: u32, attrs: u32)
    requires
        addr & 0x3ff == 0,
        attrs & PAGE_LINK_ATTR_MASK == attrs,
    ensures
        spec_decode_page_link_attrs(addr | spec_encode_page_link_attrs(attrs)) == attrs,
{
    let w = addr | spec_encode_page_link_attrs(attrs);
    assert(addr & 0x3ff == 0 && attrs & 0x0008_01e1 == attrs ==> {
        let w = addr | (((attrs & 1) << 2) | (((attrs >> 19) & 1) << 3) | (attrs & 0x1e0) | 0b01);
        ((w >> 2) & 1) | (((w >> 3) & 1) << 19) | (w & 0x1e0) == attrs
    }) by (bit_vector);
}

/// Attribute round trip for a small page: every canonical value restricted
/// to the fields the second-level layouts carry survives.
pub proof fn lemma_small_page_attr_roundtrip(addr: u32, attrs: u32)
    requires
        addr & 0xfff == 0,
        attrs & PAGE_ATTR_MASK == attrs,
    ensures
        spec_decode_small_page_attrs(addr | spec_encode_small_page_attrs(attrs)) == attrs,
{
    assert(addr & 0xfff == 0 && attrs & 0x0003_fc1c == attrs ==> {
        let w = addr | (((attrs >> 4) & 1) | (attrs & 0xc) | (((attrs >> 10) & 0xff) << 4) | 0b10);
        ((w & 1) << 4) | (w & 0xc) | (((w >> 4) & 0xff) << 10) == attrs
    }) by (bit_vector);
}

/// Attribute round trip for a large page: every canonical value restricted
/// to the fields the second-level layouts carry survives.
pub proof fn lemma_large_page_attr_roundtrip(addr: u32, attrs: u32)
    requires
        addr & 0xffff == 0,
        attrs & PAGE_ATTR_MASK == attrs,
    ensures
        spec_decode_large_page_attrs(addr | spec_encode_large_page_attrs(attrs)) == attrs,
{
    assert(addr & 0xffff == 0 && attrs & 0x0003_fc1c == attrs ==> {
        let w = addr | ((attrs & 0x700c) | (((attrs >> 10) & 3) << 4) | (((attrs >> 15) & 7) << 9)
            | (((attrs >> 4) & 1) << 15) | 0b01);
        (w & 0x700c) | (((w >> 4) & 3) << 10) | (((w >> 9) & 7) << 15) | (((w >> 15) & 1) << 4)
            == attrs
    }) by (bit_vector);
}

} // verus!
