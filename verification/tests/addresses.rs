use armv7_mmu::PhysicalAddress;
use armv7_mmu::VirtualAddress;
use armv7_mmu::paging::PageError;

#[test]
fn new_and_as_u32() {
    let v = VirtualAddress::new(0x8000_1234);
    assert_eq!(v.as_u32(), 0x8000_1234);
    let p = PhysicalAddress::new(0x0002_0000);
    assert_eq!(p.as_u32(), 0x0002_0000);
}

#[test]
fn from_indices_builds_the_address() {
    let v = VirtualAddress::from_indices(0x123, 0x45, 0x678).unwrap();
    assert_eq!(v.as_u32(), 0x1234_5678);
    let zero = VirtualAddress::from_indices(0, 0, 0).unwrap();
    assert_eq!(zero.as_u32(), 0);
}

#[test]
fn from_indices_rejects_out_of_range_parts() {
    assert!(VirtualAddress::from_indices(4096, 0, 0).is_none());
    assert!(VirtualAddress::from_indices(0, 256, 0).is_none());
    assert!(VirtualAddress::from_indices(0, 0, 0xfff).is_none());
    assert!(VirtualAddress::from_indices(0, 0, 0xffe).is_some());
}

#[test]
fn table_indices_of_an_address() {
    let v = VirtualAddress::new(0x1234_5678);
    assert_eq!(v.base_table_index(), 0x123);
    assert_eq!(v.page_table_index(), 0x45);
    assert_eq!(v.page_table_offset(), 0x1234_5fff);
}

#[test]
fn checked_addition() {
    let v = VirtualAddress::new(0xffff_fff0);
    assert!(v.checked_add(0x10).is_none());
    assert_eq!(v.checked_add(0xf).unwrap().as_u32(), 0xffff_ffff);
    assert_eq!(v.add_offset(0xf).as_u32(), 0xffff_ffff);
    let p = PhysicalAddress::new(0xffff_fff0);
    assert!(p.checked_add(0x10).is_none());
    assert_eq!(p.checked_add(0xf).unwrap().as_u32(), 0xffff_ffff);
}

#[test]
fn subtraction_and_distance() {
    let v = VirtualAddress::new(0x8000_1000);
    assert_eq!(v.sub_offset(0x1000).as_u32(), 0x8000_0000);
    assert_eq!(v.sub_addr(VirtualAddress::new(0x8000_0000)), 0x1000);
    let p = PhysicalAddress::new(0x2000);
    assert_eq!(p.sub_offset(0x800).as_u32(), 0x1800);
    assert_eq!(p.sub_addr(PhysicalAddress::new(0x1800)), 0x800);
}

#[test]
fn bit_or_composition() {
    let v = VirtualAddress::new(0x9000_0000);
    assert_eq!(v.bitor(0x0020_0001).as_u32(), 0x9020_0001);
    let p = PhysicalAddress::new(0x8000_0000);
    assert_eq!(p.bitor(0x2).as_u32(), 0x8000_0002);
}

#[test]
fn alignment_predicates() {
    let v = VirtualAddress::new(0x9000_0000);
    assert!(v.is_aligned(0x00ff_ffff));
    assert!(!VirtualAddress::new(0x9000_0001).is_aligned(0x00ff_ffff));
    assert!(v.check_align(0x00ff_ffff).is_ok());
    assert!(matches!(
        VirtualAddress::new(0x9000_0001).check_align(0x00ff_ffff),
        Err(PageError::AlignError)
    ));
    let p = PhysicalAddress::new(0x8010_0000);
    assert!(p.is_aligned(0xf_ffff));
    assert!(matches!(
        PhysicalAddress::new(0x8010_0001).check_align(0xf_ffff),
        Err(PageError::AlignError)
    ));
}

#[test]
fn align_forces_the_region_top() {
    let mut v = VirtualAddress::new(0x8012_0000);
    v.align(0xf_ffff);
    assert_eq!(v.as_u32(), 0xfff2_0000);
    let mut p = PhysicalAddress::new(0x8000_0000);
    p.align(0xfff);
    assert_eq!(p.as_u32(), 0xffff_f000);
}
