use armv7_mmu::PhysicalAddress;
use armv7_mmu::VirtualAddress;
use armv7_mmu::attributes::MemoryAttributes;
use armv7_mmu::mapping::DeviceVmemMapper;
use armv7_mmu::mapping::OffsetMapping;
use armv7_mmu::paging::PageError;
use armv7_mmu::paging::TranslationTableType;
use armv7_mmu::tables::TranslationTable;
use armv7_mmu::tables::TranslationTableMemory;

#[test]
fn offset_mapping_converts_inside_the_window() {
    let mapping = OffsetMapping::new(
        VirtualAddress::new(0x8000_0000),
        PhysicalAddress::new(0x0000_0000),
        0x1000_0000,
    );
    let phys = mapping.convert_virt_addr(VirtualAddress::new(0x8000_1000)).unwrap();
    assert_eq!(phys, PhysicalAddress::new(0x0000_1000));
    let virt = mapping.convert_phys_addr(PhysicalAddress::new(0x0000_1000)).unwrap();
    assert_eq!(virt, VirtualAddress::new(0x8000_1000));
}

#[test]
fn offset_mapping_window_includes_both_edges() {
    let mapping = OffsetMapping::new(
        VirtualAddress::new(0x8000_0000),
        PhysicalAddress::new(0x0000_0000),
        0x1000_0000,
    );
    assert!(mapping.virt_addr_in_range(VirtualAddress::new(0x8000_0000)));
    assert!(mapping.virt_addr_in_range(VirtualAddress::new(0x9000_0000)));
    assert!(!mapping.virt_addr_in_range(VirtualAddress::new(0x9000_0001)));
    assert!(!mapping.virt_addr_in_range(VirtualAddress::new(0x7fff_ffff)));
    assert!(mapping.phys_addr_in_range(PhysicalAddress::new(0x0000_0000)));
    assert!(mapping.phys_addr_in_range(PhysicalAddress::new(0x1000_0000)));
    assert!(!mapping.phys_addr_in_range(PhysicalAddress::new(0x1000_0001)));
}

#[test]
fn offset_mapping_rejects_addresses_outside_the_window() {
    let mapping = OffsetMapping::new(
        VirtualAddress::new(0x8000_0000),
        PhysicalAddress::new(0x4000_0000),
        0x0010_0000,
    );
    assert!(matches!(
        mapping.convert_virt_addr(VirtualAddress::new(0x7000_0000)),
        Err(PageError::NotInRange)
    ));
    assert!(matches!(
        mapping.convert_phys_addr(PhysicalAddress::new(0x3fff_ffff)),
        Err(PageError::NotInRange)
    ));
}

#[test]
fn offset_mapping_roundtrip_on_sample_points() {
    let mapping = OffsetMapping::new(
        VirtualAddress::new(0xc000_0000),
        PhysicalAddress::new(0x1000_0000),
        0x0400_0000,
    );
    for virt in [0xc000_0000u32, 0xc000_0001, 0xc123_4567, 0xc400_0000] {
        let phys = mapping.convert_virt_addr(VirtualAddress::new(virt)).unwrap();
        let back = mapping.convert_phys_addr(phys).unwrap();
        assert_eq!(back, VirtualAddress::new(virt));
    }
}

#[test]
fn device_mapper_requires_a_16mb_aligned_base() {
    assert!(DeviceVmemMapper::new(VirtualAddress::new(0x9000_0000), vec![0x3f]).is_ok());
    assert!(matches!(
        DeviceVmemMapper::new(VirtualAddress::new(0x9020_0000), vec![0x3f]),
        Err(PageError::AlignError)
    ));
}

#[test]
fn device_lookup_finds_a_listed_frame() {
    let mapper = DeviceVmemMapper::new(VirtualAddress::new(0x9000_0000), vec![0x3f]).unwrap();
    let virt = mapper.lookup(PhysicalAddress::new(0x3f20_0000)).unwrap();
    assert_eq!(virt, VirtualAddress::new(0x9020_0000));
}

#[test]
fn device_lookup_misses_an_absent_frame() {
    let mapper = DeviceVmemMapper::new(VirtualAddress::new(0x9000_0000), vec![0x3f]).unwrap();
    assert!(mapper.lookup(PhysicalAddress::new(0x4020_0000)).is_none());
}

#[test]
fn device_lookup_uses_the_first_matching_slot() {
    let mapper =
        DeviceVmemMapper::new(VirtualAddress::new(0x9000_0000), vec![0x20, 0x3f, 0x3f]).unwrap();
    let virt = mapper.lookup(PhysicalAddress::new(0x3f00_0042)).unwrap();
    assert_eq!(virt, VirtualAddress::new(0x9100_0042));
}

#[test]
fn do_mapping_installs_fifteen_sections_per_slot() {
    let mapper = DeviceVmemMapper::new(VirtualAddress::new(0x9000_0000), vec![0x3f]).unwrap();
    let mut table = TranslationTable::new(TranslationTableMemory::new());
    mapper.do_mapping(&mut table).unwrap();
    for j in 0..15u32 {
        let entry = table.get_entry((0x900 + j) as usize);
        assert_eq!(entry.get_type(), TranslationTableType::Section);
        assert_eq!(
            entry.get_addr().unwrap(),
            PhysicalAddress::new(0x3f00_0000 | (j << 20))
        );
        let attrs = MemoryAttributes::from_table_descriptor(entry).unwrap();
        assert_eq!(attrs.as_u32(), 0x410);
    }
    // The last 1MB of the slot is left unmapped, and the neighbours of the
    // slot are untouched.
    assert_eq!(table.get_entry(0x90f).as_u32(), 0);
    assert_eq!(table.get_entry(0x8ff).as_u32(), 0);
    assert_eq!(table.get_entry(0x910).as_u32(), 0);
}

#[test]
fn do_mapping_lays_slots_out_in_list_order() {
    let mapper =
        DeviceVmemMapper::new(VirtualAddress::new(0x9000_0000), vec![0x20, 0x3f]).unwrap();
    let mut table = TranslationTable::new(TranslationTableMemory::new());
    mapper.do_mapping(&mut table).unwrap();
    assert_eq!(
        table.get_entry(0x900).get_addr().unwrap(),
        PhysicalAddress::new(0x2000_0000)
    );
    assert_eq!(
        table.get_entry(0x910).get_addr().unwrap(),
        PhysicalAddress::new(0x3f00_0000)
    );
}

#[test]
fn lookup_resolves_back_through_the_installed_table() {
    let mapper = DeviceVmemMapper::new(VirtualAddress::new(0x9000_0000), vec![0x3f]).unwrap();
    let mut table = TranslationTable::new(TranslationTableMemory::new());
    mapper.do_mapping(&mut table).unwrap();
    let phys = PhysicalAddress::new(0x3f20_1234);
    let virt = mapper.lookup(phys).unwrap();
    // Walk the table the way the hardware would: index by the top 12 bits,
    // then join the section base with the low 20 bits of the address.
    let entry = table.get_entry(virt.base_table_index());
    assert_eq!(entry.get_type(), TranslationTableType::Section);
    let resolved = entry.get_addr().unwrap().as_u32() | (virt.as_u32() & 0xf_ffff);
    assert_eq!(resolved, phys.as_u32());
}
