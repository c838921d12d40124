use armv7_mmu::PhysicalAddress;
use armv7_mmu::attributes::AccessPermission;
use armv7_mmu::attributes::MemoryAttributes;
use armv7_mmu::paging::PageError;
use armv7_mmu::paging::PageTableDescriptor;
use armv7_mmu::paging::PageTableType;
use armv7_mmu::paging::TranslationTableDescriptor;
use armv7_mmu::paging::TranslationTableType;

#[test]
fn aligned_section_descriptor_reports_type_and_addr() {
    let attrs = MemoryAttributes::new().with_access_permission(AccessPermission::PrivAccess);
    let descriptor = TranslationTableDescriptor::new(
        TranslationTableType::Section,
        PhysicalAddress::new(0x8020_0000),
        attrs,
    )
    .unwrap();
    assert_eq!(descriptor.get_type(), TranslationTableType::Section);
    assert_eq!(descriptor.get_addr().unwrap(), PhysicalAddress::new(0x8020_0000));
    assert_eq!(descriptor.as_u32(), 0x8020_0000 | 0x400 | 0b10);
}

#[test]
fn misaligned_section_address_is_rejected() {
    let attrs = MemoryAttributes::new().with_access_permission(AccessPermission::PrivAccess);
    let result = TranslationTableDescriptor::new(
        TranslationTableType::Section,
        PhysicalAddress::new(0x8020_0001),
        attrs,
    );
    assert!(matches!(result, Err(PageError::AlignError)));
}

#[test]
fn each_table_type_roundtrips_through_the_tag_bits() {
    let attrs = MemoryAttributes::new();
    let cases = [
        (TranslationTableType::Page, 0x0002_0400u32),
        (TranslationTableType::Section, 0x8010_0000),
        (TranslationTableType::Supersection, 0x4100_0000),
    ];
    for (tabletype, addr) in cases {
        let descriptor =
            TranslationTableDescriptor::new(tabletype, PhysicalAddress::new(addr), attrs).unwrap();
        assert_eq!(descriptor.get_type(), tabletype);
        assert_eq!(descriptor.get_addr().unwrap(), PhysicalAddress::new(addr));
    }
}

#[test]
fn each_table_type_rejects_its_misaligned_addresses() {
    let attrs = MemoryAttributes::new();
    let cases = [
        (TranslationTableType::Page, 0x0002_0200u32),
        (TranslationTableType::Section, 0x8008_0000),
        (TranslationTableType::Supersection, 0x4108_0000),
    ];
    for (tabletype, addr) in cases {
        let result =
            TranslationTableDescriptor::new(tabletype, PhysicalAddress::new(addr), attrs);
        assert!(matches!(result, Err(PageError::AlignError)));
    }
}

#[test]
fn invalid_table_descriptor_ignores_the_address() {
    let attrs = MemoryAttributes::new();
    let descriptor = TranslationTableDescriptor::new(
        TranslationTableType::Invalid,
        PhysicalAddress::new(0xdead_beef),
        attrs,
    )
    .unwrap();
    assert_eq!(descriptor.as_u32(), 0);
    assert_eq!(descriptor.get_type(), TranslationTableType::Invalid);
    assert!(matches!(descriptor.get_addr(), Err(PageError::InvalidMemory)));
}

#[test]
fn empty_descriptors_are_the_zero_word() {
    assert_eq!(TranslationTableDescriptor::new_empty().as_u32(), 0);
    assert_eq!(TranslationTableDescriptor::new_empty().get_type(), TranslationTableType::Invalid);
    assert_eq!(PageTableDescriptor::new_empty().as_u32(), 0);
    assert_eq!(PageTableDescriptor::new_empty().get_type(), PageTableType::Invalid);
}

#[test]
fn supersection_bit_distinguishes_the_section_kinds() {
    let attrs = MemoryAttributes::new();
    let section = TranslationTableDescriptor::new(
        TranslationTableType::Section,
        PhysicalAddress::new(0x8010_0000),
        attrs,
    )
    .unwrap();
    let supersection = TranslationTableDescriptor::new(
        TranslationTableType::Supersection,
        PhysicalAddress::new(0x8010_0000),
        attrs,
    )
    .unwrap();
    assert_eq!(section.as_u32() & 0x4_0000, 0);
    assert_eq!(supersection.as_u32() & 0x4_0000, 0x4_0000);
    assert_eq!(section.get_type(), TranslationTableType::Section);
    assert_eq!(supersection.get_type(), TranslationTableType::Supersection);
}

#[test]
fn aligned_page_descriptors_report_type_and_addr() {
    let attrs = MemoryAttributes::new().with_access_permission(AccessPermission::FullAccess);
    let small = PageTableDescriptor::new(
        PageTableType::SmallPage,
        PhysicalAddress::new(0x8000_1000),
        attrs,
    )
    .unwrap();
    assert_eq!(small.get_type(), PageTableType::SmallPage);
    assert_eq!(small.get_addr().unwrap(), PhysicalAddress::new(0x8000_1000));
    let large = PageTableDescriptor::new(
        PageTableType::LargePage,
        PhysicalAddress::new(0x8003_0000),
        attrs,
    )
    .unwrap();
    assert_eq!(large.get_type(), PageTableType::LargePage);
    assert_eq!(large.get_addr().unwrap(), PhysicalAddress::new(0x8003_0000));
}

#[test]
fn misaligned_page_addresses_are_rejected() {
    let attrs = MemoryAttributes::new();
    assert!(matches!(
        PageTableDescriptor::new(
            PageTableType::SmallPage,
            PhysicalAddress::new(0x8000_1800),
            attrs,
        ),
        Err(PageError::AlignError)
    ));
    assert!(matches!(
        PageTableDescriptor::new(
            PageTableType::LargePage,
            PhysicalAddress::new(0x8000_8000),
            attrs,
        ),
        Err(PageError::AlignError)
    ));
}

#[test]
fn invalid_page_descriptor_ignores_the_address() {
    let attrs = MemoryAttributes::new();
    let descriptor = PageTableDescriptor::new(
        PageTableType::Invalid,
        PhysicalAddress::new(0xdead_beef),
        attrs,
    )
    .unwrap();
    assert_eq!(descriptor.as_u32(), 0);
    assert!(matches!(descriptor.get_addr(), Err(PageError::InvalidMemory)));
}
