use gb_reader::cart::Cartridge;
use gb_reader::header::{
    decode_header_ram_size, decode_mbc, decode_ram_size, decode_rom_size, parse_header, MbcType,
};

fn patterned_rom(len: usize, mbc_code: u8, rom_code: u8, ram_code: u8) -> Vec<u8> {
    let mut rom = vec![0u8; len];
    for i in 0..len {
        rom[i] = (i as u8).wrapping_mul(31).wrapping_add(7);
    }
    let title: &[u8; 16] = b"POCKET CART 0001";
    for i in 0..16 {
        rom[0x134 + i] = title[i];
    }
    rom[0x147] = mbc_code;
    rom[0x148] = rom_code;
    rom[0x149] = ram_code;
    rom
}

#[test]
fn rom_size_table_doubles_per_code() {
    assert_eq!(decode_rom_size(0), 0x8000);
    assert_eq!(decode_rom_size(1), 0x10000);
    assert_eq!(decode_rom_size(2), 0x20000);
    assert_eq!(decode_rom_size(3), 0x40000);
    assert_eq!(decode_rom_size(4), 0x80000);
    assert_eq!(decode_rom_size(5), 0x100000);
    assert_eq!(decode_rom_size(6), 0x200000);
    assert_eq!(decode_rom_size(7), 0x400000);
    assert_eq!(decode_rom_size(8), 0x800000);
    // unknown codes fall back to the smallest ROM
    assert_eq!(decode_rom_size(9), 0x8000);
    assert_eq!(decode_rom_size(0xFF), 0x8000);
}

#[test]
fn ram_size_table_values() {
    assert_eq!(decode_ram_size(0), 0);
    assert_eq!(decode_ram_size(1), 0);
    assert_eq!(decode_ram_size(2), 0x2000);
    assert_eq!(decode_ram_size(3), 0x8000);
    assert_eq!(decode_ram_size(4), 0x20000);
    assert_eq!(decode_ram_size(5), 0x10000);
    assert_eq!(decode_ram_size(6), 0);
    assert_eq!(decode_ram_size(0xFF), 0);
}

#[test]
fn mbc_table_known_codes() {
    assert_eq!(decode_mbc(0x00), MbcType::RomOnly);
    assert_eq!(decode_mbc(0x01), MbcType::Mbc1);
    assert_eq!(decode_mbc(0x02), MbcType::Mbc1Ram);
    assert_eq!(decode_mbc(0x03), MbcType::Mbc1RamBattery);
    assert_eq!(decode_mbc(0x05), MbcType::Mbc2);
    assert_eq!(decode_mbc(0x06), MbcType::Mbc2Battery);
    assert_eq!(decode_mbc(0x11), MbcType::Mbc3);
    assert_eq!(decode_mbc(0x12), MbcType::Mbc3Ram);
    assert_eq!(decode_mbc(0x13), MbcType::Mbc3RamBattery);
    assert_eq!(decode_mbc(0x19), MbcType::Mbc5);
    assert_eq!(decode_mbc(0x1A), MbcType::Mbc5Ram);
    assert_eq!(decode_mbc(0x1B), MbcType::Mbc5RamBattery);
}

#[test]
fn unknown_mbc_code_falls_back_to_rom_only() {
    assert_eq!(decode_mbc(0x04), MbcType::RomOnly);
    assert_eq!(decode_mbc(0x0F), MbcType::RomOnly);
    assert_eq!(decode_mbc(0xC0), MbcType::RomOnly);
}

#[test]
fn rom_only_fallback_reports_no_ram() {
    // a board decoded as ROM-only reports no RAM whatever the RAM code says
    assert_eq!(decode_header_ram_size(0x04, 0x02), 0);
    assert_eq!(decode_header_ram_size(0x00, 0x03), 0);
    assert_eq!(decode_header_ram_size(0xC0, 0x04), 0);
    // a recognized controller keeps the table value
    assert_eq!(decode_header_ram_size(0x03, 0x03), 0x8000);
    assert_eq!(decode_header_ram_size(0x1B, 0x04), 0x20000);
}

#[test]
fn unknown_controller_byte_parses_with_no_ram() {
    // controller byte 0x04 is not in the table; RAM code 0x02 would name
    // 8 KiB, but the defensive fallback must never drive an unidentified
    // controller's RAM window
    let rom = patterned_rom(0x8000, 0x04, 0x00, 0x02);
    let mut cart = Cartridge::new(MbcType::RomOnly, rom, Vec::new());
    assert!(cart.well_formed());
    let h = parse_header(&mut cart).unwrap();
    assert_eq!(h.mbc_type, MbcType::RomOnly);
    assert_eq!(h.ram_size, 0);
}

#[test]
fn zero_controller_byte_parses_to_rom_only_without_ram() {
    let rom = patterned_rom(0x8000, 0x00, 0x00, 0x00);
    let mut cart = Cartridge::new(MbcType::RomOnly, rom, Vec::new());
    let h = parse_header(&mut cart).unwrap();
    assert_eq!(h.mbc_type, MbcType::RomOnly);
    assert_eq!(h.ram_size, 0);
    assert_eq!(h.rom_size, 0x8000);
}

#[test]
fn header_scenario_mbc1_battery_64k_rom_32k_ram() {
    let rom = patterned_rom(0x10000, 0x03, 0x01, 0x03);
    let ram = vec![0u8; 0x8000];
    let mut cart = Cartridge::new(MbcType::Mbc1RamBattery, rom, ram);
    assert!(cart.well_formed());
    let h = parse_header(&mut cart).unwrap();
    assert_eq!(h.mbc_type, MbcType::Mbc1RamBattery);
    assert_eq!(h.rom_size, 65536);
    assert_eq!(h.ram_size, 32768);
    // a restore over this cartridge walks exactly 4 banks of 8192 bytes
    assert_eq!(h.ram_size / 0x2000, 4);
    assert_eq!(0x2000, 8192);
}

#[test]
fn title_bytes_kept_verbatim_even_when_not_text() {
    let mut rom = patterned_rom(0x8000, 0x00, 0x00, 0x00);
    for i in 0..16 {
        rom[0x134 + i] = 0xF0 + i as u8;
    }
    let expected: Vec<u8> = rom[0x134..0x144].to_vec();
    let mut cart = Cartridge::new(MbcType::RomOnly, rom, Vec::new());
    let h = parse_header(&mut cart).unwrap();
    assert_eq!(h.title, expected);
}
