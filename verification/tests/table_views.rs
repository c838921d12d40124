use armv7_mmu::PhysicalAddress;
use armv7_mmu::VirtualAddress;
use armv7_mmu::attributes::MemoryAttributes;
use armv7_mmu::paging::PageError;
use armv7_mmu::paging::PageTableDescriptor;
use armv7_mmu::paging::PageTableType;
use armv7_mmu::paging::TranslationTableDescriptor;
use armv7_mmu::paging::TranslationTableType;
use armv7_mmu::tables::PageTable;
use armv7_mmu::tables::PageTableMemory;
use armv7_mmu::tables::TranslationTable;
use armv7_mmu::tables::TranslationTableMemory;
use armv7_mmu::tables::get_phys_addr;

#[test]
fn fresh_translation_table_is_all_invalid() {
    let table = TranslationTable::new(TranslationTableMemory::new());
    assert_eq!(table.get_entry(0).as_u32(), 0);
    assert_eq!(table.get_entry(2048).as_u32(), 0);
    assert_eq!(table.get_entry(4095).as_u32(), 0);
}

#[test]
fn translation_table_set_entry_is_read_back() {
    let mut table = TranslationTable::new(TranslationTableMemory::new());
    let descriptor = TranslationTableDescriptor::new(
        TranslationTableType::Section,
        PhysicalAddress::new(0x8020_0000),
        MemoryAttributes::new(),
    )
    .unwrap();
    table.set_entry(0x802, descriptor);
    assert_eq!(table.get_entry(0x802), descriptor);
    assert_eq!(table.get_entry(0x801).as_u32(), 0);
    assert_eq!(table.get_entry(0x803).as_u32(), 0);
}

#[test]
fn fresh_page_table_is_all_invalid() {
    let table = PageTable::new(PageTableMemory::new());
    assert_eq!(table.get_entry(0).as_u32(), 0);
    assert_eq!(table.get_entry(255).as_u32(), 0);
}

#[test]
fn page_table_set_entry_is_read_back() {
    let mut table = PageTable::new(PageTableMemory::new());
    let descriptor = PageTableDescriptor::new(
        PageTableType::SmallPage,
        PhysicalAddress::new(0x8000_3000),
        MemoryAttributes::new(),
    )
    .unwrap();
    table.set_entry(3, descriptor);
    assert_eq!(table.get_entry(3), descriptor);
    assert_eq!(table.get_entry(2).as_u32(), 0);
}

#[test]
fn ttbr0_base_masks_the_control_bits() {
    let base = TranslationTable::get_ttbr0_phys(0x8000_4000 | 0x3fff);
    assert_eq!(base, PhysicalAddress::new(0x8000_4000));
    let clean = TranslationTable::get_ttbr0_phys(0x8000_4000);
    assert_eq!(clean, PhysicalAddress::new(0x8000_4000));
}

#[test]
fn translation_succeeds_on_a_clear_status_bit() {
    let virt = VirtualAddress::new(0x0000_0123);
    let result = get_phys_addr(virt, 0x8020_0000);
    assert_eq!(result.unwrap(), PhysicalAddress::new(0x8020_0123));
    // Status and attribute bits of the result register are masked off.
    let noisy = get_phys_addr(virt, 0x8020_0a40);
    assert_eq!(noisy.unwrap(), PhysicalAddress::new(0x8020_0123));
}

#[test]
fn translation_fails_on_a_set_status_bit() {
    let virt = VirtualAddress::new(0x0000_0123);
    let result = get_phys_addr(virt, 0x8020_0001);
    assert!(matches!(result, Err(PageError::TranslationError)));
}
