//! The interrupt vector table image.
//!
//! The hardware expects a fixed-layout block of sixteen words at the vector
//! base address: eight handler slots, each holding an instruction that loads
//! the program counter from the address word sitting 24 bytes further, and
//! the eight address words those instructions read.  The image is built and
//! edited here as plain values; the surrounding runtime writes the words to
//! the vector base address in order.

use vstd::prelude::*;

use crate::addr::VirtualAddress;

verus! {

/// Instruction word `ldr pc, [pc, #24]`: jump through the address stored 24
/// bytes after the slot.
pub const ASM_PC_24: u32 = 0xe59f_f018;

/// Instruction word `ldr pc, [pc, #offset]` for a caller-chosen offset.
pub fn asm_ldr_pc(offset: u8) -> (r: u32)
    ensures
        r == 0xe59f_f000u32 | offset as u32,
{
    let instruction: u32 = 0xe59f_f000;
    instruction | (offset as u32)
}

/// Base address of the vector table as the system registers describe it:
/// the fixed high address when the system control register selects high
/// vectors, else the vector base address register's value.
pub fn get_vectortable_address(vector_high: bool, vbar: VirtualAddress) -> (r: VirtualAddress)
    ensures
        vector_high ==> r@ == 0xffff_0000u32,
        !vector_high ==> r == vbar,
{
    if vector_high {
        VirtualAddress::new(0xffff_0000)
    } else {
        vbar
    }
}

/// In-memory image of the sixteen-word vector table block, in the order the
/// hardware reads it: eight handler instruction slots followed by the eight
/// handler address words.
#[derive(Copy, Clone, Debug, PartialEq, Eq, Structural)]
pub struct VectorTable {
    pub reset_handler: u32,
    pub undef_handler: u32,
    pub swi_handler: u32,
    pub prefetch_handler: u32,
    pub data_handler: u32,
    pub hyp_handler: u32,
    pub irq_handler: u32,
    pub fiq_handler: u32,
    pub reset_addr: u32,
    pub undef_addr: u32,
    pub swi_addr: u32,
    pub prefetch_addr: u32,
    pub data_addr: u32,
    pub hyp_addr: u32,
    pub irq_addr: u32,
    pub fiq_addr: u32,
}

impl VectorTable {
    /// A fresh, all-zero image.
    pub fn new() -> (r: VectorTable)
        ensures
            r.reset_handler == 0,
            r.undef_handler == 0,
            r.swi_handler == 0,
            r.prefetch_handler == 0,
            r.data_handler == 0,
            r.hyp_handler == 0,
            r.irq_handler == 0,
            r.fiq_handler == 0,
            r.reset_addr == 0,
            r.undef_addr == 0,
            r.swi_addr == 0,
            r.prefetch_addr == 0,
            r.data_addr == 0,
            r.hyp_addr == 0,
            r.irq_addr == 0,
            r.fiq_addr == 0,
    {
        VectorTable {
            reset_handler: 0,
            undef_handler: 0,
            swi_handler: 0,
            prefetch_handler: 0,
            data_handler: 0,
            hyp_handler: 0,
            irq_handler: 0,
            fiq_handler: 0,
            reset_addr: 0,
            undef_addr: 0,
            swi_addr: 0,
            prefetch_addr: 0,
            data_addr: 0,
            hyp_addr: 0,
            irq_addr: 0,
            fiq_addr: 0,
        }
    }

    /// Point every handler slot at the load-through-address instruction and
    /// every address word at one initial handler.
    pub fn init(&mut self, initial_address: VirtualAddress)
        ensures
            final(self).reset_handler == ASM_PC_24,
            final(self).undef_handler == ASM_PC_24,
            final(self).swi_handler == ASM_PC_24,
            final(self).prefetch_handler == ASM_PC_24,
            final(self).data_handler == ASM_PC_24,
            final(self).hyp_handler == ASM_PC_24,
            final(self).irq_handler == ASM_PC_24,
            final(self).fiq_handler == ASM_PC_24,
            final(self).reset_addr == initial_address@,
            final(self).undef_addr == initial_address@,
            final(self).swi_addr == initial_address@,
            final(self).prefetch_addr == initial_address@,
            final(self).data_addr == initial_address@,
            final(self).hyp_addr == initial_address@,
            final(self).irq_addr == initial_address@,
            final(self).fiq_addr == initial_address@,
    {
        self.reset_handler = ASM_PC_24;
        self.undef_handler = ASM_PC_24;
        self.swi_handler = ASM_PC_24;
        self.prefetch_handler = ASM_PC_24;
        self.data_handler = ASM_PC_24;
        self.hyp_handler = ASM_PC_24;
        self.irq_handler = ASM_PC_24;
        self.fiq_handler = ASM_PC_24;
        self.reset_addr = initial_address.as_u32();
        self.undef_addr = initial_address.as_u32();
        self.swi_addr = initial_address.as_u32();
        self.prefetch_addr = initial_address.as_u32();
        self.data_addr = initial_address.as_u32();
        self.hyp_addr = initial_address.as_u32();
        self.irq_addr = initial_address.as_u32();
        self.fiq_addr = initial_address.as_u32();
    }

    /// Set the undefined-instruction handler address.
    pub fn set_undef_handler(&mut self, handler: VirtualAddress)
        ensures
            *final(self) == (VectorTable { undef_addr: handler@, ..*old(self) }),
    {
        self.undef_addr = handler.as_u32();
    }

    /// Set the software-interrupt handler address.
    pub fn set_swi_handler(&mut self, handler: VirtualAddress)
        ensures
            *final(self) == (VectorTable { swi_addr: handler@, ..*old(self) }),
    {
        self.swi_addr = handler.as_u32();
    }

    /// Set the prefetch-abort handler address.
    pub fn set_prefetch_abort_handler(&mut self, handler: VirtualAddress)
        ensures
            *final(self) == (VectorTable { prefetch_addr: handler@, ..*old(self) }),
    {
        self.prefetch_addr = handler.as_u32();
    }

    /// Set the data-abort handler address.
    pub fn set_data_abort_handler(&mut self, handler: VirtualAddress)
        ensures
            *final(self) == (VectorTable { data_addr: handler@, ..*old(self) }),
    {
        self.data_addr = handler.as_u32();
    }

    /// Set the hypervisor-trap handler address.
    pub fn set_hyp_handler(&mut self, handler: VirtualAddress)
        ensures
            *final(self) == (VectorTable { hyp_addr: handler@, ..*old(self) }),
    {
        self.hyp_addr = handler.as_u32();
    }

    /// Set the interrupt handler address.
    pub fn set_irq_handler(&mut self, handler: VirtualAddress)
        ensures
            *final(self) == (VectorTable { irq_addr: handler@, ..*old(self) }),
    {
        self.irq_addr = handler.as_u32();
    }

    /// Set the fast-interrupt handler address.
    pub fn set_fiq_handler(&mut self, handler: VirtualAddress)
        ensures
            *final(self) == (VectorTable { fiq_addr: handler@, ..*old(self) }),
    {
        self.fiq_addr = handler.as_u32();
    }

    /// The sixteen words of the image, in the order the hardware block lays
    /// them out.
    pub fn words(&self) -> (r: Vec<u32>)
        ensures
            r@ == seq![
                self.reset_handler,
                self.undef_handler,
                self.swi_handler,
                self.prefetch_handler,
                self.data_handler,
                self.hyp_handler,
                self.irq_handler,
                self.fiq_handler,
                self.reset_addr,
                self.undef_addr,
                self.swi_addr,
                self.prefetch_addr,
                self.data_addr,
                self.hyp_addr,
                self.irq_addr,
                self.fiq_addr,
            ],
    {
        let mut words: Vec<u32> = Vec::new();
        words.push(self.reset_handler);
        words.push(self.undef_handler);
        words.push(self.swi_handler);
        words.push(self.prefetch_handler);
        words.push(self.data_handler);
        words.push(self.hyp_handler);
        words.push(self.irq_handler);
        words.push(self.fiq_handler);
        words.push(self.reset_addr);
        words.push(self.undef_addr);
        words.push(self.swi_addr);
        words.push(self.prefetch_addr);
        words.push(self.data_addr);
        words.push(self.hyp_addr);
        words.push(self.irq_addr);
        words.push(self.fiq_addr);
        proof {
            assert(words@ =~= seq![
                self.reset_handler,
                self.undef_handler,
                self.swi_handler,
                self.prefetch_handler,
                self.data_handler,
                self.hyp_handler,
                self.irq_handler,
                self.fiq_handler,
                self.reset_addr,
                self.undef_addr,
                self.swi_addr,
                self.prefetch_addr,
                self.data_addr,
                self.hyp_addr,
                self.irq_addr,
                self.fiq_addr,
            ]);
        }
        words
    }
}

impl Default for VectorTable {
    /// A fresh, all-zero image.
    fn default() -> (r: VectorTable)
        ensures
            r == (VectorTable {
                reset_handler: 0u32,
                undef_handler: 0u32,
                swi_handler: 0u32,
                prefetch_handler: 0u32,
                data_handler: 0u32,
                hyp_handler: 0u32,
                irq_handler: 0u32,
                fiq_handler: 0u32,
                reset_addr: 0u32,
                undef_addr: 0u32,
                swi_addr: 0u32,
                prefetch_addr: 0u32,
                data_addr: 0u32,
                hyp_addr: 0u32,
                irq_addr: 0u32,
                fiq_addr: 0u32,
            }),
    {
        VectorTable::new()
    }
}

} // verus!
