use gb_reader::cart::Cartridge;
use gb_reader::driver::MbcDriver;
use gb_reader::header::MbcType;
use gb_reader::ram::{dump_ram, restore_ram};
use gb_reader::romstream::make_rom_reader;
use gb_reader::MbcError;

fn patterned_rom(len: usize, mbc_code: u8, rom_code: u8, ram_code: u8) -> Vec<u8> {
    let mut rom = vec![0u8; len];
    for i in 0..len {
        rom[i] = (i as u8).wrapping_mul(13).wrapping_add((i >> 8) as u8);
    }
    let title: &[u8; 16] = b"POCKET CART 0002";
    for i in 0..16 {
        rom[0x134 + i] = title[i];
    }
    rom[0x147] = mbc_code;
    rom[0x148] = rom_code;
    rom[0x149] = ram_code;
    rom
}

fn patterned_ram(len: usize) -> Vec<u8> {
    let mut ram = vec![0u8; len];
    for i in 0..len {
        ram[i] = (i as u8).wrapping_mul(5).wrapping_add((i >> 9) as u8);
    }
    ram
}

fn stream_whole_rom(cart: Cartridge) -> Vec<u8> {
    let (mut reader, _h) = make_rom_reader(cart).unwrap();
    let total = reader.size();
    let mut image: Vec<u8> = Vec::new();
    loop {
        let mut buffer = vec![0u8; 0x100];
        let size = reader.read(&mut buffer).unwrap();
        if size == 0 {
            break;
        }
        image.extend_from_slice(&buffer[0..size]);
    }
    assert_eq!(image.len(), total);
    // the stream is exhausted: every further read keeps returning 0
    let mut buffer = vec![0u8; 0x100];
    assert_eq!(reader.read(&mut buffer).unwrap(), 0);
    assert_eq!(reader.read(&mut buffer).unwrap(), 0);
    image
}

#[test]
fn rom_stream_rom_only_matches_image() {
    let rom = patterned_rom(0x8000, 0x00, 0x00, 0x00);
    let cart = Cartridge::new(MbcType::RomOnly, rom.clone(), Vec::new());
    assert!(cart.well_formed());
    assert_eq!(stream_whole_rom(cart), rom);
}

#[test]
fn rom_stream_mbc1_switches_banks() {
    // 128 KiB: 8 banks through the switchable window
    let rom = patterned_rom(0x20000, 0x01, 0x02, 0x00);
    let cart = Cartridge::new(MbcType::Mbc1, rom.clone(), Vec::new());
    assert!(cart.well_formed());
    assert_eq!(stream_whole_rom(cart), rom);
}

#[test]
fn rom_stream_mbc5_large_image() {
    // 512 KiB: 32 banks
    let rom = patterned_rom(0x80000, 0x19, 0x04, 0x00);
    let cart = Cartridge::new(MbcType::Mbc5, rom.clone(), Vec::new());
    assert!(cart.well_formed());
    assert_eq!(stream_whole_rom(cart), rom);
}

#[test]
fn rom_bank_zero_request_selects_bank_one() {
    let rom = patterned_rom(0x10000, 0x11, 0x01, 0x00);
    let expected = rom[0x4000];
    let cart = Cartridge::new(MbcType::Mbc3, rom, Vec::new());
    let mut drv = MbcDriver::new(cart, MbcType::Mbc3);
    drv.select_rom_bank(0).unwrap();
    assert_eq!(drv.state.rom_bank, 1);
    // the switchable window now shows bank 1
    drv.set_addr(0x4000);
    assert_eq!(drv.read_byte().unwrap(), expected);
}

#[test]
fn ram_round_trip_mbc1_four_banks() {
    let rom = patterned_rom(0x10000, 0x03, 0x01, 0x03);
    let ram = vec![0u8; 0x8000];
    let cart = Cartridge::new(MbcType::Mbc1RamBattery, rom, ram);
    assert!(cart.well_formed());
    let (mut reader, h) = make_rom_reader(cart).unwrap();
    let image = patterned_ram(0x8000);
    restore_ram(&mut reader.drv, &h, &image).unwrap();
    let back = dump_ram(&mut reader.drv, &h).unwrap();
    assert_eq!(back, image);
}

#[test]
fn ram_round_trip_mbc5_sixteen_banks() {
    let rom = patterned_rom(0x10000, 0x1B, 0x01, 0x04);
    let ram = vec![0u8; 0x20000];
    let cart = Cartridge::new(MbcType::Mbc5RamBattery, rom, ram);
    assert!(cart.well_formed());
    let (mut reader, h) = make_rom_reader(cart).unwrap();
    let image = patterned_ram(0x20000);
    restore_ram(&mut reader.drv, &h, &image).unwrap();
    let back = dump_ram(&mut reader.drv, &h).unwrap();
    assert_eq!(back, image);
}

#[test]
fn ram_round_trip_mbc2_single_builtin_bank() {
    let rom = patterned_rom(0x10000, 0x05, 0x01, 0x02);
    let ram = vec![0u8; 0x2000];
    let cart = Cartridge::new(MbcType::Mbc2, rom, ram);
    assert!(cart.well_formed());
    let (mut reader, h) = make_rom_reader(cart).unwrap();
    let image = patterned_ram(0x2000);
    restore_ram(&mut reader.drv, &h, &image).unwrap();
    let back = dump_ram(&mut reader.drv, &h).unwrap();
    assert_eq!(back, image);
}

#[test]
fn ram_round_trip_mbc1_single_bank() {
    // one 8 KiB bank on a banking family: the bank-select call is skipped
    let rom = patterned_rom(0x10000, 0x02, 0x01, 0x02);
    let ram = vec![0u8; 0x2000];
    let cart = Cartridge::new(MbcType::Mbc1Ram, rom, ram);
    assert!(cart.well_formed());
    let (mut reader, h) = make_rom_reader(cart).unwrap();
    let image = patterned_ram(0x2000);
    restore_ram(&mut reader.drv, &h, &image).unwrap();
    let back = dump_ram(&mut reader.drv, &h).unwrap();
    assert_eq!(back, image);
}

#[test]
fn restore_long_input_writes_exactly_ram_size() {
    let rom = patterned_rom(0x10000, 0x12, 0x01, 0x03);
    let ram = vec![0u8; 0x8000];
    let cart = Cartridge::new(MbcType::Mbc3Ram, rom, ram);
    assert!(cart.well_formed());
    let (mut reader, h) = make_rom_reader(cart).unwrap();
    let long = patterned_ram(0x8000 + 100);
    restore_ram(&mut reader.drv, &h, &long).unwrap();
    let back = dump_ram(&mut reader.drv, &h).unwrap();
    assert_eq!(back.len(), 0x8000);
    assert_eq!(&back[..], &long[0..0x8000]);
}

#[test]
fn dump_reads_existing_ram_without_restore() {
    let rom = patterned_rom(0x10000, 0x13, 0x01, 0x03);
    let ram = patterned_ram(0x8000);
    let cart = Cartridge::new(MbcType::Mbc3RamBattery, rom, ram.clone());
    assert!(cart.well_formed());
    let (mut reader, h) = make_rom_reader(cart).unwrap();
    let dumped = dump_ram(&mut reader.drv, &h).unwrap();
    assert_eq!(dumped, ram);
}

#[test]
fn restore_short_input_pads_with_ff() {
    let rom = patterned_rom(0x10000, 0x1A, 0x01, 0x03);
    let ram = vec![0u8; 0x8000];
    let cart = Cartridge::new(MbcType::Mbc5Ram, rom, ram);
    assert!(cart.well_formed());
    let (mut reader, h) = make_rom_reader(cart).unwrap();
    let short: Vec<u8> = (0..100u32).map(|i| (i as u8).wrapping_mul(3)).collect();
    restore_ram(&mut reader.drv, &h, &short).unwrap();
    let back = dump_ram(&mut reader.drv, &h).unwrap();
    assert_eq!(back.len(), 0x8000);
    assert_eq!(&back[0..100], &short[..]);
    for i in 100..0x8000 {
        assert_eq!(back[i], 0xFF);
    }
}

#[test]
fn restore_without_ram_is_successful_noop() {
    let rom = patterned_rom(0x8000, 0x00, 0x00, 0x00);
    let cart = Cartridge::new(MbcType::RomOnly, rom, Vec::new());
    assert!(cart.well_formed());
    let (mut reader, h) = make_rom_reader(cart).unwrap();
    let image = patterned_ram(0x100);
    assert_eq!(restore_ram(&mut reader.drv, &h, &image), Ok(()));
    let back = dump_ram(&mut reader.drv, &h).unwrap();
    assert!(back.is_empty());
}

#[test]
fn fallback_cartridge_session_touches_no_ram() {
    // unrecognized controller byte with a nonzero RAM code: the session
    // treats the board as ROM-only with no RAM at all
    let rom = patterned_rom(0x8000, 0x04, 0x00, 0x02);
    let cart = Cartridge::new(MbcType::RomOnly, rom.clone(), Vec::new());
    assert!(cart.well_formed());
    let (mut reader, h) = make_rom_reader(cart).unwrap();
    assert_eq!(h.mbc_type, MbcType::RomOnly);
    assert_eq!(h.ram_size, 0);
    let back = dump_ram(&mut reader.drv, &h).unwrap();
    assert!(back.is_empty());
    assert_eq!(restore_ram(&mut reader.drv, &h, &vec![1u8, 2u8]), Ok(()));
    // the ROM itself still streams in full
    let cart2 = Cartridge::new(MbcType::RomOnly, rom.clone(), Vec::new());
    assert_eq!(stream_whole_rom(cart2), rom);
}

#[test]
fn select_ram_bank_unsupported_on_rom_only() {
    let rom = patterned_rom(0x8000, 0x00, 0x00, 0x00);
    let cart = Cartridge::new(MbcType::RomOnly, rom, Vec::new());
    let mut drv = MbcDriver::new(cart, MbcType::RomOnly);
    assert_eq!(drv.select_ram_bank(1), Err(MbcError::Unsupported));
    assert_eq!(drv.select_ram_bank(0), Err(MbcError::Unsupported));
}

#[test]
fn select_ram_bank_unsupported_on_mbc2() {
    let rom = patterned_rom(0x10000, 0x05, 0x01, 0x02);
    let cart = Cartridge::new(MbcType::Mbc2, rom, vec![0u8; 0x2000]);
    let mut drv = MbcDriver::new(cart, MbcType::Mbc2);
    assert_eq!(drv.select_ram_bank(1), Err(MbcError::Unsupported));
}

#[test]
fn reader_status_reports_current_bank() {
    let rom = patterned_rom(0x20000, 0x01, 0x02, 0x00);
    let cart = Cartridge::new(MbcType::Mbc1, rom, Vec::new());
    let (mut reader, _h) = make_rom_reader(cart).unwrap();
    assert_eq!(reader.status(), 1);
    // stream into the third bank
    let mut buffer = vec![0u8; 0x4000];
    reader.read(&mut buffer).unwrap();
    reader.read(&mut buffer).unwrap();
    let mut one = vec![0u8; 1];
    reader.read(&mut one).unwrap();
    assert_eq!(reader.status(), 2);
}
