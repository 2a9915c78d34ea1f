use gbcore::mem::AddressSpace;
use gbcore::rom::get_ram_size;
use gbcore::rom::CartridgeType;
use gbcore::rom::EmuError;
use gbcore::rom::GameROM;

fn make_image(cart_type: u8, ram_code: u8, len: usize) -> Vec<u8> {
    let mut v = vec![0u8; len];
    for i in 0x134..0x142 {
        v[i] = b' ';
    }
    v[0x147] = cart_type;
    v[0x149] = ram_code;
    v
}

#[test]
fn get_ram_size_matches_the_fixed_table() {
    assert_eq!(get_ram_size(0), 0);
    assert_eq!(get_ram_size(1), 2 * 1024);
    assert_eq!(get_ram_size(2), 8 * 1024);
    assert_eq!(get_ram_size(3), 32 * 1024);
    assert_eq!(get_ram_size(4), 128 * 1024);
}

#[test]
fn build_recognizes_the_type_code() {
    let rom = GameROM::build(make_image(0x00, 0, 0x8000)).unwrap();
    assert_eq!(rom.cart_type, CartridgeType::RomOnly);
    let rom = GameROM::build(make_image(0x01, 0, 0x8000)).unwrap();
    assert_eq!(rom.cart_type, CartridgeType::RomMbc1);
    let rom = GameROM::build(make_image(0x13, 3, 0x8000)).unwrap();
    assert_eq!(rom.cart_type, CartridgeType::RomMbc3RamBatt);
}

#[test]
fn build_rejects_an_unrecognized_type_code() {
    let r = GameROM::build(make_image(0x04, 0, 0x8000));
    assert_eq!(r.err(), Some(EmuError::UnrecognizedCartridgeType(0x04)));
}

#[test]
fn build_rejects_an_unrecognized_ram_size_code() {
    let r = GameROM::build(make_image(0x03, 5, 0x8000));
    assert_eq!(r.err(), Some(EmuError::UnrecognizedRamSize(5)));
}

#[test]
fn build_extracts_the_name_field() {
    let mut img = make_image(0x00, 0, 0x8000);
    let name = b"HELLO WORLD   ";
    for (i, b) in name.iter().enumerate() {
        img[0x134 + i] = *b;
    }
    let rom = GameROM::build(img).unwrap();
    assert_eq!(rom.name, "HELLO WORLD   ");
}

#[test]
fn build_fills_the_declared_ram_with_the_sentinel() {
    // RAM-size code 3 must give exactly 32 KiB of RAM, every byte 0xFF.
    let rom = GameROM::build(make_image(0x03, 3, 0x8000)).unwrap();
    assert_eq!(rom.ram_len(), 32 * 1024);
    for ptr in [0u16, 1, 0x1234, 32 * 1024 - 1] {
        assert_eq!(rom.read_ram(ptr), 0xFF);
    }
}

#[test]
fn build_starts_on_bank_one() {
    let rom = GameROM::build(make_image(0x01, 0, 0x8000)).unwrap();
    assert_eq!(rom.current_bank(), 1);
    assert_eq!(rom.image_len(), 0x8000);
}

#[test]
fn rom_only_read_is_direct() {
    let mut img = make_image(0x00, 0, 0x8000);
    img[0x0000] = 0x12;
    img[0x7FFF] = 0x34;
    let rom = GameROM::build(img).unwrap();
    assert_eq!(rom.read(0x0000), 0x12);
    assert_eq!(rom.read(0x7FFF), 0x34);
}

#[test]
fn rom_only_read_past_the_image_is_the_sentinel() {
    let rom = GameROM::build(make_image(0x00, 0, 0x4000)).unwrap();
    assert_eq!(rom.read(0x7FFF), 0xFF);
}

#[test]
fn banked_read_goes_through_the_selected_bank() {
    let mut img = make_image(0x01, 0, 3 * 0x4000);
    img[0x1000] = 0x0A;
    img[0x4000] = 0x11; // bank 1
    img[0x8000] = 0x22; // bank 2
    let mut rom = GameROM::build(img).unwrap();
    assert_eq!(rom.read(0x1000), 0x0A); // below the fixed-bank boundary
    assert_eq!(rom.read(0x4000), 0x11);
    rom.write(0x2000, 2);
    assert_eq!(rom.current_bank(), 2);
    assert_eq!(rom.read(0x4000), 0x22);
    assert_eq!(rom.read(0x1000), 0x0A); // low window does not move
}

#[test]
fn bank_select_uses_the_low_five_bits_clamped_to_one() {
    let mut rom = GameROM::build(make_image(0x01, 0, 0x8000)).unwrap();
    rom.write(0x2000, 0x00); // 0 must resolve to bank 1, never bank 0
    assert_eq!(rom.current_bank(), 1);
    rom.write(0x2000, 0xE2); // only the low five bits count
    assert_eq!(rom.current_bank(), 0x02);
    rom.write(0x3FFF, 0x1F);
    assert_eq!(rom.current_bank(), 0x1F);
    rom.write(0x2000, 0x20); // low five bits are 0 again
    assert_eq!(rom.current_bank(), 1);
}

#[test]
fn writes_outside_the_bank_select_range_keep_the_bank() {
    let mut rom = GameROM::build(make_image(0x01, 0, 0x8000)).unwrap();
    rom.write(0x2000, 3);
    rom.write(0x0000, 0x0A); // RAM enable: accepted, no bank change
    rom.write(0x6000, 0x01); // banking mode: accepted, no bank change
    rom.write(0x4000, 0x07); // no mapper register here
    assert_eq!(rom.current_bank(), 3);
}

#[test]
fn rom_only_write_is_ignored() {
    let mut img = make_image(0x00, 0, 0x8000);
    img[0x1000] = 0x55;
    let mut rom = GameROM::build(img).unwrap();
    rom.write(0x1000, 0x99);
    assert_eq!(rom.read(0x1000), 0x55);
    assert_eq!(rom.current_bank(), 1);
}

#[test]
fn banked_read_past_the_image_is_the_sentinel() {
    // Two banks of storage; bank 31 resolves far beyond the image.
    let mut rom = GameROM::build(make_image(0x01, 0, 0x8000)).unwrap();
    rom.write(0x2000, 31);
    assert_eq!(rom.read(0x4000), 0xFF);
    assert_eq!(rom.read(0xFFFF), 0xFF);
}

#[test]
fn ram_less_cartridge_reads_the_sentinel_and_ignores_writes() {
    let mut rom = GameROM::build(make_image(0x00, 0, 0x8000)).unwrap();
    assert_eq!(rom.ram_len(), 0);
    assert_eq!(rom.read_ram(0), 0xFF);
    rom.write_ram(0, 0x12);
    assert_eq!(rom.read_ram(0), 0xFF);
    assert_eq!(rom.ram_len(), 0);
}

#[test]
fn cartridge_ram_round_trips() {
    let mut rom = GameROM::build(make_image(0x03, 3, 0x8000)).unwrap();
    rom.write_ram(5, 0xAB);
    assert_eq!(rom.read_ram(5), 0xAB);
    assert_eq!(rom.read_ram(4), 0xFF);
}

#[test]
fn address_space_routes_video_and_work_ram() {
    let rom = GameROM::build(make_image(0x00, 0, 0x8000)).unwrap();
    let mut mem = AddressSpace::new(rom);
    mem.write(0x8000, 0x11);
    mem.write(0x9FFF, 0x22);
    mem.write(0xC000, 0x33);
    mem.write(0xDFFF, 0x44);
    assert_eq!(mem.read(0x8000), 0x11);
    assert_eq!(mem.read(0x9FFF), 0x22);
    assert_eq!(mem.read(0xC000), 0x33);
    assert_eq!(mem.read(0xDFFF), 0x44);
}

#[test]
fn work_ram_mirror_aliases_work_ram() {
    let rom = GameROM::build(make_image(0x00, 0, 0x8000)).unwrap();
    let mut mem = AddressSpace::new(rom);
    mem.write(0xC100, 0x55);
    assert_eq!(mem.read(0xE100), 0x55);
    mem.write(0xF000, 0x66);
    assert_eq!(mem.read(0xD000), 0x66);
}

#[test]
fn address_space_routes_io_hram_and_interrupt_enable() {
    let rom = GameROM::build(make_image(0x00, 0, 0x8000)).unwrap();
    let mut mem = AddressSpace::new(rom);
    mem.write(0xFF42, 0x07);
    mem.write(0xFF80, 0x08);
    mem.write(0xFFFE, 0x09);
    mem.write(0xFFFF, 0x1F);
    assert_eq!(mem.read(0xFF42), 0x07);
    assert_eq!(mem.read(0xFF80), 0x08);
    assert_eq!(mem.read(0xFFFE), 0x09);
    assert_eq!(mem.read(0xFFFF), 0x1F);
}

#[test]
fn unowned_addresses_read_the_sentinel_and_drop_writes() {
    let rom = GameROM::build(make_image(0x00, 0, 0x8000)).unwrap();
    let mut mem = AddressSpace::new(rom);
    assert_eq!(mem.read(0xFE00), 0xFF);
    mem.write(0xFE00, 0x12);
    assert_eq!(mem.read(0xFE00), 0xFF);
}

#[test]
fn address_space_routes_cartridge_ram() {
    // RAM-size code 1: 2 KiB, so only the first 2 KiB of the window maps.
    let rom = GameROM::build(make_image(0x02, 1, 0x8000)).unwrap();
    let mut mem = AddressSpace::new(rom);
    mem.write(0xA000, 0x77);
    assert_eq!(mem.read(0xA000), 0x77);
    assert_eq!(mem.read(0xA001), 0xFF); // untouched RAM keeps the fill
    assert_eq!(mem.read(0xA800), 0xFF); // past the declared size
    mem.write(0xA800, 0x99);
    assert_eq!(mem.read(0xA800), 0xFF);
}

#[test]
fn address_space_write_reaches_the_mapper() {
    let mut img = make_image(0x01, 0, 3 * 0x4000);
    img[0x4000] = 0x11;
    img[0x8000] = 0x22;
    let rom = GameROM::build(img).unwrap();
    let mut mem = AddressSpace::new(rom);
    assert_eq!(mem.read(0x4000), 0x11);
    mem.write(0x2000, 2);
    assert_eq!(mem.read(0x4000), 0x22);
}
