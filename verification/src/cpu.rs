//! The CPU: its register file together with the address space it
//! executes from, and the fetch of immediate operand bytes from the
//! instruction stream.

use vstd::prelude::*;

use crate::mem::AddressSpace;
use crate::regs::Registers;
use crate::rom::GameROM;

verus! {

/// The CPU state an instruction handler transforms: the register file
/// and the unified memory map.
pub struct CPU {
    pub regs: Registers,
    pub mem: AddressSpace,
}

/// A 16-bit program-counter value advanced by one, wrapping at the
/// end of the address space.
pub open spec fn pc_after(pc: u16) -> int {
    (pc + 1) % 0x10000
}

impl CPU {
    /// Well-formedness of the memory map the CPU executes from.
    pub open spec fn wf(self) -> bool {
        self.mem.wf()
    }

    /// A power-on CPU around the given cartridge: registers cleared,
    /// RAM regions cleared.
    pub fn new(rom: GameROM) -> (r: CPU)
        requires
            rom.wf(),
            rom.spec_cart_type().is_supported(),
        ensures
            r.wf(),
            r.mem.rom == rom,
            r.regs == (Registers {
                a: 0,
                b: 0,
                c: 0,
                d: 0,
                e: 0,
                f: 0,
                h: 0,
                l: 0,
                pc: 0,
                sp: 0,
            }),
    {
        CPU { regs: Registers::new(), mem: AddressSpace::new(rom) }
    }
}

/// Fetches the next immediate operand byte: reads the byte at the
/// program counter and advances the program counter past it.
pub fn get_n(cpu: &mut CPU) -> (n: u8)
    requires
        old(cpu).wf(),
    ensures
        final(cpu).wf(),
        n == old(cpu).mem.spec_read(old(cpu).regs.pc),
        final(cpu).regs.pc == pc_after(old(cpu).regs.pc),
        final(cpu).regs == (Registers { pc: final(cpu).regs.pc, ..old(cpu).regs }),
        final(cpu).mem == old(cpu).mem,
{
    let n: u8 = cpu.mem.read(cpu.regs.pc);
    cpu.regs.pc = if cpu.regs.pc == 0xFFFF {
        0
    } else {
        cpu.regs.pc + 1
    };
    n
}

} // verus!
