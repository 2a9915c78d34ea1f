//! The cartridge: raw program storage, the bank-selection state of its
//! mapper, and optional cartridge RAM sized by the header's RAM-size
//! code.

use vstd::prelude::*;

verus! {

/// Offset of the first byte of the cartridge name in the header.
pub const NAME_START: usize = 0x134;

/// Offset one past the last byte of the cartridge name.
pub const NAME_END: usize = 0x142;

/// Offset of the cartridge-type code in the header.
pub const CART_TYPE_OFFSET: usize = 0x147;

/// Offset of the RAM-size code in the header.
pub const RAM_SIZE_OFFSET: usize = 0x149;

/// Size of one switchable storage bank.
pub const BANK_SIZE: usize = 0x4000;

/// The different kinds of cartridges that can be handled. Each has a
/// specific way of managing memory/providing additional capabilities.
#[derive(PartialEq, Eq, Structural, Clone, Copy, Debug)]
pub enum CartridgeType {
    RomOnly,
    RomMbc1,
    RomMbc1Ram,
    RomMbc1RamBatt,
    RomMbc2,
    RomMbc2Batt,
    RomRam,
    RomRamBatt,
    RomMMMD1,
    RomMMMD1Sram,
    RomMMMD1SramBatt,
    RomMbc3TimerBatt,
    RomMbc3TimerRamBatt,
    RomMbc3,
    RomMbc3Ram,
    RomMbc3RamBatt,
    RomMbc5,
    RomMbc5Ram,
    RomMbc5RamBatt,
    RomMbc5Rumble,
    RomMbc5RumbleSram,
    RomMbc5RumbleSramBatt,
    PocketCamera,
    BandaiTAMA5,
    HudsonHuC3,
    HudsonHuC1,
}

impl CartridgeType {
    /// The cartridge type a header's type code names, if it names one.
    pub open spec fn spec_from_code(code: u8) -> Option<CartridgeType> {
        match code {
            0x00 => Some(CartridgeType::RomOnly),
            0x01 => Some(CartridgeType::RomMbc1),
            0x02 => Some(CartridgeType::RomMbc1Ram),
            0x03 => Some(CartridgeType::RomMbc1RamBatt),
            0x05 => Some(CartridgeType::RomMbc2),
            0x06 => Some(CartridgeType::RomMbc2Batt),
            0x08 => Some(CartridgeType::RomRam),
            0x09 => Some(CartridgeType::RomRamBatt),
            0x0B => Some(CartridgeType::RomMMMD1),
            0x0C => Some(CartridgeType::RomMMMD1Sram),
            0x0D => Some(CartridgeType::RomMMMD1SramBatt),
            0x0F => Some(CartridgeType::RomMbc3TimerBatt),
            0x10 => Some(CartridgeType::RomMbc3TimerRamBatt),
            0x11 => Some(CartridgeType::RomMbc3),
            0x12 => Some(CartridgeType::RomMbc3Ram),
            0x13 => Some(CartridgeType::RomMbc3RamBatt),
            0x19 => Some(CartridgeType::RomMbc5),
            0x1A => Some(CartridgeType::RomMbc5Ram),
            0x1B => Some(CartridgeType::RomMbc5RamBatt),
            0x1C => Some(CartridgeType::RomMbc5Rumble),
            0x1D => Some(CartridgeType::RomMbc5RumbleSram),
            0x1E => Some(CartridgeType::RomMbc5RumbleSramBatt),
            0x1F => Some(CartridgeType::PocketCamera),
            0xFD => Some(CartridgeType::BandaiTAMA5),
            0xFE => Some(CartridgeType::HudsonHuC3),
            0xFF => Some(CartridgeType::HudsonHuC1),
            _ => None,
        }
    }

    /// Maps a header's type code to the cartridge type it names;
    /// `None` for a code outside the closed, hardware-defined set.
    pub fn from_code(code: u8) -> (r: Option<CartridgeType>)
        ensures
            r == Self::spec_from_code(code),
    {
        match code {
            0x00 => Some(CartridgeType::RomOnly),
            0x01 => Some(CartridgeType::RomMbc1),
            0x02 => Some(CartridgeType::RomMbc1Ram),
            0x03 => Some(CartridgeType::RomMbc1RamBatt),
            0x05 => Some(CartridgeType::RomMbc2),
            0x06 => Some(CartridgeType::RomMbc2Batt),
            0x08 => Some(CartridgeType::RomRam),
            0x09 => Some(CartridgeType::RomRamBatt),
            0x0B => Some(CartridgeType::RomMMMD1),
            0x0C => Some(CartridgeType::RomMMMD1Sram),
            0x0D => Some(CartridgeType::RomMMMD1SramBatt),
            0x0F => Some(CartridgeType::RomMbc3TimerBatt),
            0x10 => Some(CartridgeType::RomMbc3TimerRamBatt),
            0x11 => Some(CartridgeType::RomMbc3),
            0x12 => Some(CartridgeType::RomMbc3Ram),
            0x13 => Some(CartridgeType::RomMbc3RamBatt),
            0x19 => Some(CartridgeType::RomMbc5),
            0x1A => Some(CartridgeType::RomMbc5Ram),
            0x1B => Some(CartridgeType::RomMbc5RamBatt),
            0x1C => Some(CartridgeType::RomMbc5Rumble),
            0x1D => Some(CartridgeType::RomMbc5RumbleSram),
            0x1E => Some(CartridgeType::RomMbc5RumbleSramBatt),
            0x1F => Some(CartridgeType::PocketCamera),
            0xFD => Some(CartridgeType::BandaiTAMA5),
            0xFE => Some(CartridgeType::HudsonHuC3),
            0xFF => Some(CartridgeType::HudsonHuC1),
            _ => None,
        }
    }

    /// The types whose reads go through the switchable-bank window.
    pub open spec fn is_banking(self) -> bool {
        ||| self == CartridgeType::RomMbc1
        ||| self == CartridgeType::RomMbc1Ram
        ||| self == CartridgeType::RomMbc1RamBatt
        ||| self == CartridgeType::RomMbc3RamBatt
    }

    /// The types whose read/write routing is implemented. On any
    /// other type the routing would be a guess, so reads and writes
    /// refuse it up front.
    pub open spec fn is_supported(self) -> bool {
        self == CartridgeType::RomOnly || self.is_banking()
    }
}

/// A fatal configuration error: emulation cannot safely proceed.
#[derive(PartialEq, Eq, Structural, Clone, Copy, Debug)]
pub enum EmuError {
    /// The header's cartridge-type code is outside the closed set.
    UnrecognizedCartridgeType(u8),
    /// The header's RAM-size code is outside the fixed lookup table.
    UnrecognizedRamSize(u8),
    /// No handler is registered for this opcode.
    UnimplementedOpcode(u8),
}

/// The RAM size the fixed lookup table assigns to a RAM-size code.
pub open spec fn spec_ram_size(id: u8) -> int {
    if id == 0 {
        0int
    } else if id == 1 {
        2 * 1024int
    } else if id == 2 {
        8 * 1024int
    } else if id == 3 {
        32 * 1024int
    } else {
        128 * 1024int
    }
}

/// Returns a RAM size for a particular RAM id.
pub fn get_ram_size(id: u8) -> (r: usize)
    requires
        id <= 4,
    ensures
        r == spec_ram_size(id),
{
    match id {
        0 => 0,
        1 => 2 * 1024,
        2 => 8 * 1024,
        3 => 32 * 1024,
        _ => 128 * 1024,
    }
}

/// Holds a game's ROM, and exposes interfaces to read information from
/// it intelligently.
pub struct GameROM {
    backing_data: Vec<u8>,
    current_bank: u8,
    cart_ram: Vec<u8>,
    ram_size: usize,
    pub name: String,
    pub cart_type: CartridgeType,
}

impl GameROM {
    /// The immutable program storage.
    pub closed spec fn image(self) -> Seq<u8> {
        self.backing_data@
    }

    /// The currently selected switchable bank.
    pub closed spec fn bank(self) -> int {
        self.current_bank as int
    }

    /// The cartridge RAM contents.
    pub closed spec fn ram(self) -> Seq<u8> {
        self.cart_ram@
    }

    /// The declared size of the cartridge RAM.
    pub closed spec fn spec_ram_size(self) -> int {
        self.ram_size as int
    }

    /// The cartridge's type tag.
    pub closed spec fn spec_cart_type(self) -> CartridgeType {
        self.cart_type
    }

    /// The cartridge's name field.
    pub closed spec fn spec_name(self) -> Seq<char> {
        self.name@
    }

    /// Well-formedness: the RAM buffer matches its declared size and
    /// the bank selector stays in the range the mapper can produce
    /// (bank 0 is never selected for the switchable window).
    pub open spec fn wf(self) -> bool {
        &&& self.ram().len() == self.spec_ram_size()
        &&& self.spec_ram_size() <= 128 * 1024
        &&& 1 <= self.bank() <= 31
    }

    /// The declared size of the cartridge RAM.
    pub fn ram_len(&self) -> (r: usize)
        ensures
            r == self.spec_ram_size(),
    {
        self.ram_size
    }

    /// The currently selected switchable bank.
    pub fn current_bank(&self) -> (r: u8)
        ensures
            r == self.bank(),
    {
        self.current_bank
    }

    /// The length of the program storage.
    pub fn image_len(&self) -> (r: usize)
        ensures
            r == self.image().len(),
    {
        self.backing_data.len()
    }

    /// The storage offset a read resolves to: direct for a no-banking
    /// cartridge and below the fixed-bank boundary; through the
    /// selected bank at or above it.
    pub open spec fn resolved_offset(self, ptr: u16) -> int {
        if self.spec_cart_type().is_banking() && ptr >= 0x4000 {
            ptr + (self.bank() - 1) * 0x4000
        } else {
            ptr as int
        }
    }

    /// What a read returns: the byte at the resolved offset, or the
    /// open-bus sentinel 0xFF when the offset lies beyond the image.
    pub open spec fn spec_read(self, ptr: u16) -> u8 {
        if self.resolved_offset(ptr) < self.image().len() {
            self.image()[self.resolved_offset(ptr)]
        } else {
            0xFF
        }
    }

    /// Reads one byte of program storage. An offset beyond the image
    /// length resolves to 0xFF rather than failing: cartridges are
    /// sometimes smaller than their declared addressable space.
    pub fn read(&self, ptr: u16) -> (r: u8)
        requires
            self.wf(),
            self.spec_cart_type().is_supported(),
        ensures
            r == self.spec_read(ptr),
    {
        match self.cart_type {
            CartridgeType::RomOnly => {
                if (ptr as usize) < self.backing_data.len() {
                    self.backing_data[ptr as usize]
                } else {
                    0xFF
                }
            },
            CartridgeType::RomMbc1
            | CartridgeType::RomMbc1Ram
            | CartridgeType::RomMbc1RamBatt
            | CartridgeType::RomMbc3RamBatt => {
                if ptr < 0x4000 {
                    if (ptr as usize) < self.backing_data.len() {
                        self.backing_data[ptr as usize]
                    } else {
                        0xFF
                    }
                } else {
                    let target: usize = ptr as usize + (self.current_bank as usize - 1)
                        * BANK_SIZE;
                    if target >= self.backing_data.len() {
                        0xFF
                    } else {
                        self.backing_data[target]
                    }
                }
            },
            _ => vstd::pervasive::unreached(),
        }
    }

    /// What a RAM read returns: the byte at the offset, or 0xFF on a
    /// cartridge without RAM.
    pub open spec fn spec_read_ram(self, ptr: u16) -> u8 {
        if self.spec_ram_size() == 0 {
            0xFF
        } else {
            self.ram()[ptr as int]
        }
    }

    /// Reads one byte of cartridge RAM. On a cartridge with no RAM
    /// this returns 0xFF: software may probe for RAM presence, so the
    /// condition is recoverable, not a failure.
    pub fn read_ram(&self, ptr: u16) -> (r: u8)
        requires
            self.wf(),
            self.spec_ram_size() == 0 || ptr < self.spec_ram_size(),
        ensures
            r == self.spec_read_ram(ptr),
    {
        if self.ram_size == 0 {
            return 0xFF;
        }
        self.cart_ram[ptr as usize]
    }

    /// The bank the mapper selects for a written value: its low five
    /// bits, clamped up to 1 — bank 0 is never directly selectable.
    pub open spec fn spec_selected_bank(val: u8) -> int {
        if val & 0x1F == 0 {
            1
        } else {
            (val & 0x1F) as int
        }
    }

    /// How a mapper write changes the cartridge: only the bank
    /// selector can change, and only for a banking cartridge written
    /// in the bank-select range. RAM-enable and banking-mode writes
    /// are accepted without effect; writes to a no-banking cartridge
    /// are ignored (ROM is not writable) but do not fail.
    pub open spec fn spec_write(pre: GameROM, post: GameROM, ptr: u16, val: u8) -> bool {
        &&& post.image() == pre.image()
        &&& post.ram() == pre.ram()
        &&& post.spec_ram_size() == pre.spec_ram_size()
        &&& post.spec_cart_type() == pre.spec_cart_type()
        &&& post.spec_name() == pre.spec_name()
        &&& post.bank() == if pre.spec_cart_type().is_banking() && 0x2000 <= ptr <= 0x3FFF {
            Self::spec_selected_bank(val)
        } else {
            pre.bank()
        }
    }

    /// Interprets a write to the cartridge's address range as a mapper
    /// command.
    pub fn write(&mut self, ptr: u16, val: u8)
        requires
            old(self).wf(),
            old(self).spec_cart_type().is_supported(),
        ensures
            final(self).wf(),
            Self::spec_write(*old(self), *final(self), ptr, val),
    {
        match self.cart_type {
            CartridgeType::RomOnly => {},
            CartridgeType::RomMbc1
            | CartridgeType::RomMbc1Ram
            | CartridgeType::RomMbc1RamBatt
            | CartridgeType::RomMbc3RamBatt => {
                if 0x2000 <= ptr && ptr <= 0x3FFF {
                    let low: u8 = val & 0x1F;
                    proof {
                        assert(val & 0x1Fu8 <= 0x1Fu8) by (bit_vector);
                    }
                    self.current_bank = if low < 1 {
                        1
                    } else {
                        low
                    };
                }
            },
            _ => vstd::pervasive::unreached(),
        }
    }

    /// How a RAM write changes the cartridge: on a cartridge with no
    /// RAM nothing changes; otherwise exactly the addressed byte.
    pub open spec fn spec_write_ram(pre: GameROM, post: GameROM, ptr: u16, val: u8) -> bool {
        if pre.spec_ram_size() == 0 {
            post == pre
        } else {
            &&& post.image() == pre.image()
            &&& post.ram() == pre.ram().update(ptr as int, val)
            &&& post.spec_ram_size() == pre.spec_ram_size()
            &&& post.bank() == pre.bank()
            &&& post.spec_cart_type() == pre.spec_cart_type()
            &&& post.spec_name() == pre.spec_name()
        }
    }

    /// Writes one byte of cartridge RAM. On a cartridge with no RAM
    /// the write is a no-op rather than a failure.
    pub fn write_ram(&mut self, ptr: u16, val: u8)
        requires
            old(self).wf(),
            old(self).spec_ram_size() == 0 || ptr < old(self).spec_ram_size(),
        ensures
            final(self).wf(),
            Self::spec_write_ram(*old(self), *final(self), ptr, val),
    {
        if self.ram_size == 0 {
            return;
        }
        self.cart_ram.set(ptr as usize, val);
    }

    /// Builds a new ROM from a raw cartridge image. Expects a
    /// correctly formatted image: at least one past the last header
    /// field long, with an ASCII name field.
    ///
    /// Succeeds exactly when the header's cartridge-type code names a
    /// recognized type and its RAM-size code is in the fixed table;
    /// the RAM buffer comes back pre-filled with 0xFF, matching
    /// uninitialized hardware RAM.
    pub fn build(data: Vec<u8>) -> (r: Result<GameROM, EmuError>)
        requires
            data@.len() > RAM_SIZE_OFFSET,
            forall|i: int| NAME_START <= i < NAME_END ==> data@[i] < 0x80,
        ensures
            match r {
                Ok(rom) => {
                    &&& rom.wf()
                    &&& CartridgeType::spec_from_code(data@[CART_TYPE_OFFSET as int])
                        == Some(rom.spec_cart_type())
                    &&& data@[RAM_SIZE_OFFSET as int] <= 4
                    &&& rom.image() == data@
                    &&& rom.bank() == 1
                    &&& rom.spec_ram_size() == spec_ram_size(data@[RAM_SIZE_OFFSET as int])
                    &&& rom.ram().len() == rom.spec_ram_size()
                    &&& forall|i: int| 0 <= i < rom.ram().len() ==> rom.ram()[i] == 0xFF
                    &&& rom.spec_name().len() == NAME_END - NAME_START
                    &&& forall|i: int|
                        0 <= i < NAME_END - NAME_START
                            ==> rom.spec_name()[i] as u32 == data@[NAME_START + i] as u32
                },
                Err(e) => {
                    ||| {
                        &&& e == EmuError::UnrecognizedCartridgeType(
                            data@[CART_TYPE_OFFSET as int],
                        )
                        &&& CartridgeType::spec_from_code(data@[CART_TYPE_OFFSET as int])
                            is None
                    }
                    ||| {
                        &&& e == EmuError::UnrecognizedRamSize(data@[RAM_SIZE_OFFSET as int])
                        &&& CartridgeType::spec_from_code(data@[CART_TYPE_OFFSET as int])
                            is Some
                        &&& data@[RAM_SIZE_OFFSET as int] > 4
                    }
                },
            },
    {
        let type_code: u8 = data[CART_TYPE_OFFSET];
        let cart_type: CartridgeType = match CartridgeType::from_code(type_code) {
            Some(t) => t,
            None => {
                return Err(EmuError::UnrecognizedCartridgeType(type_code));
            },
        };

        let ram_code: u8 = data[RAM_SIZE_OFFSET];
        if ram_code > 4 {
            return Err(EmuError::UnrecognizedRamSize(ram_code));
        }
        let ram_size: usize = get_ram_size(ram_code);

        let mut ram: Vec<u8> = Vec::new();
        while ram.len() < ram_size
            invariant
                ram@.len() <= ram_size,
                forall|i: int| 0 <= i < ram@.len() ==> ram@[i] == 0xFF,
            decreases ram_size - ram@.len(),
        {
            ram.push(0xFF);
        }

        let mut name_bytes: Vec<u8> = Vec::new();
        let mut i: usize = NAME_START;
        while i < NAME_END
            invariant
                NAME_START <= i <= NAME_END,
                data@.len() > RAM_SIZE_OFFSET,
                forall|j: int| NAME_START <= j < NAME_END ==> data@[j] < 0x80,
                name_bytes@.len() == i - NAME_START,
                forall|j: int|
                    0 <= j < name_bytes@.len() ==> name_bytes@[j] == data@[NAME_START + j],
            decreases NAME_END - i,
        {
            name_bytes.push(data[i]);
            i = i + 1;
        }
        let name: String = ascii_to_string(name_bytes);

        Ok(
            GameROM {
                backing_data: data,
                current_bank: 1,
                cart_ram: ram,
                ram_size,
                name,
                cart_type,
            },
        )
    }
}

/// Relies on String::from_utf8: a sequence of ASCII bytes decodes to
/// the string of exactly those characters, one per byte.
#[verifier::external_body]
fn ascii_to_string(bytes: Vec<u8>) -> (r: String)
    requires
        forall|i: int| 0 <= i < bytes@.len() ==> bytes@[i] < 0x80,
    ensures
        r@.len() == bytes@.len(),
        forall|i: int| 0 <= i < bytes@.len() ==> r@[i] as u32 == bytes@[i] as u32,
{
    match String::from_utf8(bytes) {
        Ok(s) => s,
        Err(_) => String::new(),
    }
}

} // verus!
