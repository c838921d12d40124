use armv7_mmu::mode::ProcessorMode;
use armv7_mmu::mode::get_current_mode;

#[test]
fn every_mode_encoding_decodes() {
    assert_eq!(get_current_mode(0b10000), Some(ProcessorMode::Usr));
    assert_eq!(get_current_mode(0b10001), Some(ProcessorMode::Fiq));
    assert_eq!(get_current_mode(0b10010), Some(ProcessorMode::Irq));
    assert_eq!(get_current_mode(0b10011), Some(ProcessorMode::Svc));
    assert_eq!(get_current_mode(0b10110), Some(ProcessorMode::Mon));
    assert_eq!(get_current_mode(0b10111), Some(ProcessorMode::Abt));
    assert_eq!(get_current_mode(0b11010), Some(ProcessorMode::Hyp));
    assert_eq!(get_current_mode(0b11011), Some(ProcessorMode::Und));
    assert_eq!(get_current_mode(0b11111), Some(ProcessorMode::Sys));
}

#[test]
fn reserved_encodings_decode_to_none() {
    assert_eq!(get_current_mode(0b00000), None);
    assert_eq!(get_current_mode(0b10100), None);
    assert_eq!(get_current_mode(0b11110), None);
}

#[test]
fn upper_bits_do_not_disturb_the_mode() {
    assert_eq!(get_current_mode(0xffff_fff3), Some(ProcessorMode::Svc));
    assert_eq!(get_current_mode(0x0000_01d3), Some(ProcessorMode::Svc));
}

#[test]
fn mode_descriptions() {
    assert_eq!(ProcessorMode::Usr.description(), "User (USR)");
    assert_eq!(ProcessorMode::Sys.description(), "System (SYS)");
    assert_eq!(ProcessorMode::Irq.description(), "Interrupt (IRQ)");
    assert_eq!(ProcessorMode::Fiq.description(), "Interrupt (FIQ)");
    assert_eq!(ProcessorMode::Svc.description(), "Supervisor (SVC)");
    assert_eq!(ProcessorMode::Und.description(), "Undefined (UND)");
    assert_eq!(ProcessorMode::Abt.description(), "Abort (ABT)");
    assert_eq!(ProcessorMode::Hyp.description(), "Hypervisor (HYP)");
    assert_eq!(ProcessorMode::Mon.description(), "Monitor (MON)");
}
