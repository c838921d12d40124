//! Processor mode decoding from the program-state register.
//!
//! The low five bits of the current program-state register word name the
//! processor mode.  Reading the register is the surrounding runtime's job;
//! the decoding of the raw word is done here.

use vstd::prelude::*;

verus! {

/// Processor modes the mode field can name.
#[derive(Copy, Clone, Debug, PartialEq, Eq, Structural)]
pub enum ProcessorMode {
    Usr,
    Fiq,
    Irq,
    Svc,
    Mon,
    Abt,
    Hyp,
    Und,
    Sys,
}

/// Mode named by the low five bits of a program-state word; `None` for a
/// reserved encoding.
pub open spec fn spec_mode_of(cpsr: u32) -> Option<ProcessorMode> {
    if cpsr & 0x1f == 0b10000 {
        Some(ProcessorMode::Usr)
    } else if cpsr & 0x1f == 0b10001 {
        Some(ProcessorMode::Fiq)
    } else if cpsr & 0x1f == 0b10010 {
        Some(ProcessorMode::Irq)
    } else if cpsr & 0x1f == 0b10011 {
        Some(ProcessorMode::Svc)
    } else if cpsr & 0x1f == 0b10110 {
        Some(ProcessorMode::Mon)
    } else if cpsr & 0x1f == 0b10111 {
        Some(ProcessorMode::Abt)
    } else if cpsr & 0x1f == 0b11010 {
        Some(ProcessorMode::Hyp)
    } else if cpsr & 0x1f == 0b11011 {
        Some(ProcessorMode::Und)
    } else if cpsr & 0x1f == 0b11111 {
        Some(ProcessorMode::Sys)
    } else {
        None
    }
}

/// Decode the processor mode out of a raw program-state register word; the
/// caller reads the register and hands the word in.
pub fn get_current_mode(cpsr: u32) -> (r: Option<ProcessorMode>)
    ensures
        r == spec_mode_of(cpsr),
{
    let mode = cpsr & 0x1f;
    if mode == 0b10000 {
        Some(ProcessorMode::Usr)
    } else if mode == 0b10001 {
        Some(ProcessorMode::Fiq)
    } else if mode == 0b10010 {
        Some(ProcessorMode::Irq)
    } else if mode == 0b10011 {
        Some(ProcessorMode::Svc)
    } else if mode == 0b10110 {
        Some(ProcessorMode::Mon)
    } else if mode == 0b10111 {
        Some(ProcessorMode::Abt)
    } else if mode == 0b11010 {
        Some(ProcessorMode::Hyp)
    } else if mode == 0b11011 {
        Some(ProcessorMode::Und)
    } else if mode == 0b11111 {
        Some(ProcessorMode::Sys)
    } else {
        None
    }
}

impl ProcessorMode {
    /// Human-readable name of the mode.
    pub fn description(&self) -> (r: &'static str)
        ensures
            (match self {
                ProcessorMode::Usr => r@ == "User (USR)"@,
                ProcessorMode::Fiq => r@ == "Interrupt (FIQ)"@,
                ProcessorMode::Irq => r@ == "Interrupt (IRQ)"@,
                ProcessorMode::Svc => r@ == "Supervisor (SVC)"@,
                ProcessorMode::Mon => r@ == "Monitor (MON)"@,
                ProcessorMode::Abt => r@ == "Abort (ABT)"@,
                ProcessorMode::Hyp => r@ == "Hypervisor (HYP)"@,
                ProcessorMode::Und => r@ == "Undefined (UND)"@,
                ProcessorMode::Sys => r@ == "System (SYS)"@,
            }),
    {
        match self {
            ProcessorMode::Usr => "User (USR)",
            ProcessorMode::Fiq => "Interrupt (FIQ)",
            ProcessorMode::Irq => "Interrupt (IRQ)",
            ProcessorMode::Svc => "Supervisor (SVC)",
            ProcessorMode::Mon => "Monitor (MON)",
            ProcessorMode::Abt => "Abort (ABT)",
            ProcessorMode::Hyp => "Hypervisor (HYP)",
            ProcessorMode::Und => "Undefined (UND)",
            ProcessorMode::Sys => "System (SYS)",
        }
    }
}

} // verus!
