use armv7_mmu::VirtualAddress;
use armv7_mmu::interrupts::ASM_PC_24;
use armv7_mmu::interrupts::VectorTable;
use armv7_mmu::interrupts::asm_ldr_pc;
use armv7_mmu::interrupts::get_vectortable_address;

#[test]
fn ldr_pc_instruction_encoding() {
    assert_eq!(asm_ldr_pc(0), 0xe59f_f000);
    assert_eq!(asm_ldr_pc(0x18), 0xe59f_f018);
    assert_eq!(asm_ldr_pc(0x18), ASM_PC_24);
    assert_eq!(asm_ldr_pc(0xff), 0xe59f_f0ff);
}

#[test]
fn vectortable_address_follows_the_vector_select() {
    let vbar = VirtualAddress::new(0x0000_4000);
    assert_eq!(get_vectortable_address(true, vbar), VirtualAddress::new(0xffff_0000));
    assert_eq!(get_vectortable_address(false, vbar), vbar);
}

#[test]
fn init_points_every_slot_at_one_handler() {
    let mut table = VectorTable::new();
    table.init(VirtualAddress::new(0x0001_0000));
    let words = table.words();
    assert_eq!(words.len(), 16);
    for handler in &words[0..8] {
        assert_eq!(*handler, ASM_PC_24);
    }
    for addr in &words[8..16] {
        assert_eq!(*addr, 0x0001_0000);
    }
}

#[test]
fn setters_change_only_their_slot() {
    let mut table = VectorTable::new();
    table.init(VirtualAddress::new(0x0001_0000));
    table.set_irq_handler(VirtualAddress::new(0x0002_0000));
    assert_eq!(table.irq_addr, 0x0002_0000);
    assert_eq!(table.fiq_addr, 0x0001_0000);
    assert_eq!(table.undef_addr, 0x0001_0000);
    table.set_undef_handler(VirtualAddress::new(0x0003_0000));
    table.set_swi_handler(VirtualAddress::new(0x0004_0000));
    table.set_prefetch_abort_handler(VirtualAddress::new(0x0005_0000));
    table.set_data_abort_handler(VirtualAddress::new(0x0006_0000));
    table.set_hyp_handler(VirtualAddress::new(0x0007_0000));
    table.set_fiq_handler(VirtualAddress::new(0x0008_0000));
    let words = table.words();
    assert_eq!(words[9], 0x0003_0000);
    assert_eq!(words[10], 0x0004_0000);
    assert_eq!(words[11], 0x0005_0000);
    assert_eq!(words[12], 0x0006_0000);
    assert_eq!(words[13], 0x0007_0000);
    assert_eq!(words[14], 0x0002_0000);
    assert_eq!(words[15], 0x0008_0000);
    assert_eq!(words[8], 0x0001_0000);
}

#[test]
fn default_is_the_zero_image() {
    let table = VectorTable::default();
    assert_eq!(table, VectorTable::new());
    assert!(table.words().iter().all(|w| *w == 0));
}
