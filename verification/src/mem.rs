//! The unified memory map: routes every CPU-visible address to the
//! owning region — cartridge storage through the mapper, video RAM,
//! cartridge RAM through the mapper, work RAM and its mirror, the I/O
//! register block, high RAM, and the interrupt-enable byte.

use vstd::prelude::*;

use crate::rom::GameROM;

verus! {

/// Size of the video RAM region.
pub const VRAM_SIZE: usize = 0x2000;

/// Size of the work RAM region.
pub const WRAM_SIZE: usize = 0x2000;

/// Size of the I/O register block.
pub const IO_SIZE: usize = 0x80;

/// Size of the high RAM region.
pub const HRAM_SIZE: usize = 0x7F;

/// The unified memory map. Every 16-bit address resolves to exactly
/// one owner; reads and writes are routed, never duplicated.
pub struct AddressSpace {
    /// Cartridge storage and cartridge RAM, reached through the mapper.
    pub rom: GameROM,
    /// Video RAM, 0x8000–0x9FFF.
    pub vram: Vec<u8>,
    /// Work RAM, 0xC000–0xDFFF, mirrored at 0xE000–0xFDFF.
    pub wram: Vec<u8>,
    /// The I/O register block, 0xFF00–0xFF7F.
    pub io: Vec<u8>,
    /// High RAM, 0xFF80–0xFFFE.
    pub hram: Vec<u8>,
    /// The interrupt-enable byte, 0xFFFF.
    pub interrupt_enable: u8,
}

impl AddressSpace {
    /// Well-formedness: each region has its fixed size, and the
    /// cartridge is sound and of a type whose routing is implemented.
    pub open spec fn wf(self) -> bool {
        &&& self.rom.wf()
        &&& self.rom.spec_cart_type().is_supported()
        &&& self.vram@.len() == VRAM_SIZE
        &&& self.wram@.len() == WRAM_SIZE
        &&& self.io@.len() == IO_SIZE
        &&& self.hram@.len() == HRAM_SIZE
    }

    /// A power-on address space around the given cartridge: every RAM
    /// region cleared.
    pub fn new(rom: GameROM) -> (r: AddressSpace)
        requires
            rom.wf(),
            rom.spec_cart_type().is_supported(),
        ensures
            r.wf(),
            r.rom == rom,
            r.vram@ == Seq::<u8>::new(VRAM_SIZE as nat, |i: int| 0u8),
            r.wram@ == Seq::<u8>::new(WRAM_SIZE as nat, |i: int| 0u8),
            r.io@ == Seq::<u8>::new(IO_SIZE as nat, |i: int| 0u8),
            r.hram@ == Seq::<u8>::new(HRAM_SIZE as nat, |i: int| 0u8),
            r.interrupt_enable == 0,
    {
        let r = AddressSpace {
            rom,
            vram: zero_filled(VRAM_SIZE),
            wram: zero_filled(WRAM_SIZE),
            io: zero_filled(IO_SIZE),
            hram: zero_filled(HRAM_SIZE),
            interrupt_enable: 0,
        };
        proof {
            assert(r.vram@ =~= Seq::<u8>::new(VRAM_SIZE as nat, |i: int| 0u8));
            assert(r.wram@ =~= Seq::<u8>::new(WRAM_SIZE as nat, |i: int| 0u8));
            assert(r.io@ =~= Seq::<u8>::new(IO_SIZE as nat, |i: int| 0u8));
            assert(r.hram@ =~= Seq::<u8>::new(HRAM_SIZE as nat, |i: int| 0u8));
        }
        r
    }

    /// What a read returns, by the owning region. An address no
    /// region owns reads as the open-bus sentinel 0xFF.
    pub open spec fn spec_read(self, addr: u16) -> u8 {
        if addr < 0x8000 {
            self.rom.spec_read(addr)
        } else if addr < 0xA000 {
            self.vram@[addr - 0x8000]
        } else if addr < 0xC000 {
            if addr - 0xA000 < self.rom.spec_ram_size() {
                self.rom.ram()[addr - 0xA000]
            } else {
                0xFF
            }
        } else if addr < 0xE000 {
            self.wram@[addr - 0xC000]
        } else if addr < 0xFE00 {
            self.wram@[addr - 0xE000]
        } else if addr < 0xFF00 {
            0xFF
        } else if addr < 0xFF80 {
            self.io@[addr - 0xFF00]
        } else if addr < 0xFFFF {
            self.hram@[addr - 0xFF80]
        } else {
            self.interrupt_enable
        }
    }

    /// Reads the byte the address routes to. Reads never fail: an
    /// unowned or out-of-range address yields the sentinel 0xFF.
    pub fn read(&self, addr: u16) -> (r: u8)
        requires
            self.wf(),
        ensures
            r == self.spec_read(addr),
    {
        if addr < 0x8000 {
            self.rom.read(addr)
        } else if addr < 0xA000 {
            self.vram[(addr - 0x8000) as usize]
        } else if addr < 0xC000 {
            let off: u16 = addr - 0xA000;
            if (off as usize) < self.rom.ram_len() {
                self.rom.read_ram(off)
            } else {
                0xFF
            }
        } else if addr < 0xE000 {
            self.wram[(addr - 0xC000) as usize]
        } else if addr < 0xFE00 {
            self.wram[(addr - 0xE000) as usize]
        } else if addr < 0xFF00 {
            0xFF
        } else if addr < 0xFF80 {
            self.io[(addr - 0xFF00) as usize]
        } else if addr < 0xFFFF {
            self.hram[(addr - 0xFF80) as usize]
        } else {
            self.interrupt_enable
        }
    }

    /// Everything but the cartridge is the same in both states.
    pub open spec fn only_rom_changed(pre: AddressSpace, post: AddressSpace) -> bool {
        &&& post.vram@ == pre.vram@
        &&& post.wram@ == pre.wram@
        &&& post.io@ == pre.io@
        &&& post.hram@ == pre.hram@
        &&& post.interrupt_enable == pre.interrupt_enable
    }

    /// How a write changes the map, by the owning region: a write to
    /// cartridge storage is a mapper command; a write to a RAM region
    /// replaces the addressed byte; a write to an unowned address, or
    /// beyond the cartridge RAM, changes nothing.
    pub open spec fn spec_write(pre: AddressSpace, post: AddressSpace, addr: u16, val: u8) -> bool {
        if addr < 0x8000 {
            &&& GameROM::spec_write(pre.rom, post.rom, addr, val)
            &&& Self::only_rom_changed(pre, post)
        } else if addr < 0xA000 {
            &&& post.vram@ == pre.vram@.update(addr - 0x8000, val)
            &&& post == AddressSpace { vram: post.vram, ..pre }
        } else if addr < 0xC000 {
            if addr - 0xA000 < pre.rom.spec_ram_size() {
                &&& GameROM::spec_write_ram(pre.rom, post.rom, (addr - 0xA000) as u16, val)
                &&& Self::only_rom_changed(pre, post)
            } else {
                post == pre
            }
        } else if addr < 0xE000 {
            &&& post.wram@ == pre.wram@.update(addr - 0xC000, val)
            &&& post == AddressSpace { wram: post.wram, ..pre }
        } else if addr < 0xFE00 {
            &&& post.wram@ == pre.wram@.update(addr - 0xE000, val)
            &&& post == AddressSpace { wram: post.wram, ..pre }
        } else if addr < 0xFF00 {
            post == pre
        } else if addr < 0xFF80 {
            &&& post.io@ == pre.io@.update(addr - 0xFF00, val)
            &&& post == AddressSpace { io: post.io, ..pre }
        } else if addr < 0xFFFF {
            &&& post.hram@ == pre.hram@.update(addr - 0xFF80, val)
            &&& post == AddressSpace { hram: post.hram, ..pre }
        } else {
            post == AddressSpace { interrupt_enable: val, ..pre }
        }
    }

    /// Writes the byte to whatever the address routes to. Writes
    /// never fail: one to a read-only or unowned address is a no-op.
    pub fn write(&mut self, addr: u16, val: u8)
        requires
            old(self).wf(),
        ensures
            final(self).wf(),
            Self::spec_write(*old(self), *final(self), addr, val),
    {
        if addr < 0x8000 {
            self.rom.write(addr, val);
        } else if addr < 0xA000 {
            self.vram.set((addr - 0x8000) as usize, val);
        } else if addr < 0xC000 {
            let off: u16 = addr - 0xA000;
            if (off as usize) < self.rom.ram_len() {
                self.rom.write_ram(off, val);
            }
        } else if addr < 0xE000 {
            self.wram.set((addr - 0xC000) as usize, val);
        } else if addr < 0xFE00 {
            self.wram.set((addr - 0xE000) as usize, val);
        } else if addr < 0xFF00 {
        } else if addr < 0xFF80 {
            self.io.set((addr - 0xFF00) as usize, val);
        } else if addr < 0xFFFF {
            self.hram.set((addr - 0xFF80) as usize, val);
        } else {
            self.interrupt_enable = val;
        }
    }
}

/// A vector of `len` zero bytes.
fn zero_filled(len: usize) -> (r: Vec<u8>)
    ensures
        r@.len() == len,
        forall|i: int| 0 <= i < len ==> r@[i] == 0,
{
    let mut v: Vec<u8> = Vec::new();
    while v.len() < len
        invariant
            v@.len() <= len,
            forall|i: int| 0 <= i < v@.len() ==> v@[i] == 0,
        decreases len - v@.len(),
    {
        v.push(0);
    }
    v
}

} // verus!
