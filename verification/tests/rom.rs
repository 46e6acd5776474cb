use oxidgb_core::rom::check_image;
use oxidgb_core::rom::get_ram_size;
use oxidgb_core::rom::get_rom_size;
use oxidgb_core::rom::has_mapper;
use oxidgb_core::rom::is_ram_size;
use oxidgb_core::rom::is_rom_size;
use oxidgb_core::rom::CartridgeType;
use oxidgb_core::rom::GameROM;
use oxidgb_core::rom::RomError;

/// An image of `banks` banks in which every byte holds the number of its
/// bank, with a header for the given cartridge type.
fn image(cart_type: u8, banks: usize, rom_size: u8, ram_size: u8) -> Vec<u8> {
    let mut data = vec![0u8; banks * 0x4000];
    for (i, byte) in data.iter_mut().enumerate() {
        *byte = (i / 0x4000) as u8;
    }
    data[0x147] = cart_type;
    data[0x148] = rom_size;
    data[0x149] = ram_size;
    data
}

#[test]
fn rom_sizes() {
    assert_eq!(get_rom_size(0), 32 * 1024);
    assert_eq!(get_rom_size(1), 64 * 1024);
    assert_eq!(get_rom_size(2), 128 * 1024);
    assert_eq!(get_rom_size(3), 256 * 1024);
    assert_eq!(get_rom_size(4), 512 * 1024);
    assert_eq!(get_rom_size(5), 1024 * 1024);
    assert_eq!(get_rom_size(6), 2048 * 1024);
    assert_eq!(get_rom_size(0x52), 1152 * 1024);
    assert_eq!(get_rom_size(0x53), 1280 * 1024);
    assert_eq!(get_rom_size(0x54), 1536 * 1024);
    for id in 0..=255u8 {
        assert_eq!(is_rom_size(id), id <= 6 || (0x52..=0x54).contains(&id));
        if id <= 6 {
            assert_eq!(get_rom_size(id), 32768 << id);
        }
    }
}

#[test]
fn ram_sizes() {
    assert_eq!(get_ram_size(0), 0);
    assert_eq!(get_ram_size(1), 2 * 1024);
    assert_eq!(get_ram_size(2), 8 * 1024);
    assert_eq!(get_ram_size(3), 32 * 1024);
    assert_eq!(get_ram_size(4), 128 * 1024);
    for id in 0..=255u8 {
        assert_eq!(is_ram_size(id), id <= 4);
    }
}

#[test]
fn cartridge_types_decode() {
    assert_eq!(CartridgeType::decode(0x00), Some(CartridgeType::RomOnly));
    assert_eq!(CartridgeType::decode(0x01), Some(CartridgeType::RomMbc1));
    assert_eq!(CartridgeType::decode(0x06), Some(CartridgeType::RomMbc2Batt));
    assert_eq!(CartridgeType::decode(0x13), Some(CartridgeType::RomMbc3RamBatt));
    assert_eq!(CartridgeType::decode(0x1E), Some(CartridgeType::RomMbc5RumbleSramBatt));
    assert_eq!(CartridgeType::decode(0xFF), Some(CartridgeType::HudsonHuC1));
    assert_eq!(CartridgeType::decode(0x04), None);
    assert_eq!(CartridgeType::decode(0x20), None);
}

#[test]
fn a_short_image_cannot_be_loaded() {
    assert_eq!(check_image(&vec![0u8; 0x149]), Some(RomError::TruncatedHeader));
    assert_eq!(check_image(&[]), Some(RomError::TruncatedHeader));
    assert_eq!(check_image(&vec![0u8; 0x14A]), None);
    assert_eq!(check_image(&vec![0u8; 0x14F]), None);
    assert_eq!(check_image(&vec![0u8; 0x150]), None);
    assert!(GameROM::build(vec![0u8; 0x14A]).is_valid());
}

#[test]
fn unknown_header_bytes_cannot_be_loaded() {
    assert_eq!(check_image(&image(0x00, 2, 0x07, 0)), Some(RomError::UnknownRomSize(0x07)));
    assert_eq!(check_image(&image(0x04, 2, 0, 0)), Some(RomError::UnknownCartridgeType(0x04)));
    assert_eq!(check_image(&image(0x00, 2, 0, 9)), Some(RomError::UnknownRamSize(9)));
    // The ROM size is looked at first, then the type, then the RAM size.
    assert_eq!(check_image(&image(0x04, 2, 0x07, 9)), Some(RomError::UnknownRomSize(0x07)));
    assert_eq!(check_image(&image(0x04, 2, 0, 9)), Some(RomError::UnknownCartridgeType(0x04)));
    // A length that is not the one that the header declares is no error.
    assert_eq!(check_image(&image(0x00, 4, 0, 0)), None);
    assert_eq!(check_image(&image(0x01, 2, 6, 4)), None);
}

#[test]
fn every_known_type_and_size_loads() {
    let known = [
        0x00u8, 0x01, 0x02, 0x03, 0x05, 0x06, 0x08, 0x09, 0x0B, 0x0C, 0x0D, 0x0F, 0x10, 0x11,
        0x12, 0x13, 0x19, 0x1A, 0x1B, 0x1C, 0x1D, 0x1E, 0xFC, 0xFD, 0xFE, 0xFF,
    ];
    for code in 0..=255u8 {
        let data = image(code, 2, 0, 0);
        assert_eq!(check_image(&data).is_none(), known.contains(&code));
        if known.contains(&code) {
            let rom = GameROM::build(data);
            assert_eq!(CartridgeType::decode(code), Some(rom.cart_type));
            assert_eq!(rom.current_bank, 1);
            assert!(rom.is_loaded());
        }
    }
    for (id, size) in [(0u8, 0usize), (1, 2048), (2, 8192), (3, 32768), (4, 131072)] {
        let rom = GameROM::build(image(0x03, 2, 0, id));
        assert_eq!(rom.cart_ram.len(), size);
        assert!(rom.cart_ram.iter().all(|byte| *byte == 0xFF));
    }
}

#[test]
fn a_type_without_bank_switching_here_loads_but_cannot_be_read() {
    let data = image(0x19, 2, 0, 2);
    assert_eq!(check_image(&data), None);
    assert!(!has_mapper(&data));
    let mut rom = GameROM::build(data);
    assert_eq!(rom.cart_type, CartridgeType::RomMbc5);
    assert_eq!(rom.current_bank, 1);
    assert_eq!(rom.cart_ram.len(), 8192);
    assert!(rom.is_loaded());
    assert!(!rom.is_valid());
    // Its RAM and its header are there.
    rom.write_ram(0x0010, 0x42);
    assert_eq!(rom.read_ram(0x0010), 0x42);
    assert!(rom.has_declared_size());
    assert!(rom.get_cart_name().is_some());
    for code in [0x00u8, 0x01, 0x02, 0x03, 0x05, 0x06, 0x0F, 0x10, 0x11, 0x12, 0x13] {
        assert!(has_mapper(&image(code, 2, 0, 0)));
        assert!(GameROM::build(image(code, 2, 0, 0)).is_valid());
    }
    for code in [0x08u8, 0x09, 0x0B, 0x19, 0x1E, 0xFC, 0xFF, 0x04] {
        assert!(!has_mapper(&image(code, 2, 0, 0)));
    }
    assert!(!has_mapper(&[]));
}

#[test]
fn a_fresh_cartridge_maps_bank_one() {
    let rom = GameROM::build(image(0x01, 4, 1, 2));
    assert_eq!(rom.cart_type, CartridgeType::RomMbc1);
    assert_eq!(rom.current_bank, 1);
    assert_eq!(rom.cart_ram.len(), 8 * 1024);
    assert!(rom.cart_ram.iter().all(|byte| *byte == 0xFF));
    assert_eq!(rom.read(0x0000), 0);
    assert_eq!(rom.read(0x3FFF), 0);
    assert_eq!(rom.read(0x4000), 1);
    assert_eq!(rom.read(0x7FFF), 1);
}

#[test]
fn bank_switching_maps_the_chosen_bank() {
    for cart_type in [0x01u8, 0x02, 0x03, 0x0F, 0x10, 0x11, 0x12, 0x13] {
        let mut rom = GameROM::build(image(cart_type, 16, 3, 0));
        for bank in 1..16u8 {
            rom.write(0x2000, bank);
            assert_eq!(rom.read(0x4000), bank);
            assert_eq!(rom.read(0x5ABC), bank);
            assert_eq!(rom.read(0x7FFF), bank);
            assert_eq!(rom.read(0x0000), 0);
            assert_eq!(rom.read(0x3FFF), 0);
        }
    }
}

#[test]
fn bank_zero_reads_as_bank_one() {
    let mut rom = GameROM::build(image(0x01, 8, 2, 0));
    rom.write(0x2000, 5);
    assert_eq!(rom.read(0x4000), 5);
    rom.write(0x3FFF, 0);
    assert_eq!(rom.current_bank, 1);
    assert_eq!(rom.read(0x4000), 1);
}

#[test]
fn the_bank_register_keeps_only_its_bits() {
    let mut mbc1 = GameROM::build(image(0x01, 8, 2, 0));
    mbc1.write(0x2000, 0xE3);
    assert_eq!(mbc1.current_bank, 0x03);
    let mut mbc2 = GameROM::build(image(0x05, 8, 2, 0));
    mbc2.write(0x2100, 0xF3);
    assert_eq!(mbc2.current_bank, 0x03);
    let mut mbc3 = GameROM::build(image(0x13, 8, 2, 0));
    mbc3.write(0x2000, 0x83);
    assert_eq!(mbc3.current_bank, 0x03);
    mbc3.write(0x2000, 0x7F);
    assert_eq!(mbc3.current_bank, 0x7F);
}

#[test]
fn mbc2_selects_only_with_address_bit_eight() {
    let mut rom = GameROM::build(image(0x05, 8, 2, 0));
    rom.write(0x2000, 3);
    assert_eq!(rom.current_bank, 1);
    rom.write(0x2100, 3);
    assert_eq!(rom.current_bank, 3);
    assert_eq!(rom.read(0x4000), 3);
    rom.write(0x3EFF, 5);
    assert_eq!(rom.current_bank, 3);
    rom.write(0x3FFF, 5);
    assert_eq!(rom.current_bank, 5);
}

#[test]
fn writes_outside_the_bank_register_change_nothing() {
    let mut rom = GameROM::build(image(0x01, 8, 2, 0));
    rom.write(0x2000, 2);
    rom.write(0x0000, 0x0A);
    rom.write(0x1FFF, 7);
    rom.write(0x4000, 7);
    rom.write(0x6000, 1);
    rom.write(0x7FFF, 7);
    assert_eq!(rom.current_bank, 2);
    assert_eq!(rom.read(0x4000), 2);
}

#[test]
fn a_plain_cartridge_ignores_writes() {
    let mut rom = GameROM::build(image(0x00, 2, 0, 0));
    rom.write(0x2000, 5);
    assert_eq!(rom.current_bank, 1);
    assert_eq!(rom.read(0x4000), 1);
    assert_eq!(rom.read(0x0100), 0);
}

#[test]
fn reads_beyond_the_image_give_ff() {
    let mut rom = GameROM::build(image(0x01, 2, 0, 0));
    rom.write(0x2000, 2);
    assert_eq!(rom.read(0x4000), 0xFF);
    assert_eq!(rom.read(0x7FFF), 0xFF);
    assert_eq!(rom.read(0x3FFF), 0);
    let short = GameROM::build(vec![0u8; 0x150]);
    assert_eq!(short.read(0x0150), 0xFF);
    assert_eq!(short.read(0x014F), 0x00);
}

#[test]
fn cartridge_ram_reads_and_writes() {
    let mut rom = GameROM::build(image(0x03, 2, 0, 1));
    assert_eq!(rom.read_ram(0x0000), 0xFF);
    rom.write_ram(0x0000, 0x12);
    rom.write_ram(0x07FF, 0x34);
    assert_eq!(rom.read_ram(0x0000), 0x12);
    assert_eq!(rom.read_ram(0x07FF), 0x34);
    // Beyond the 2 KiB of RAM nothing is stored.
    rom.write_ram(0x0800, 0x56);
    assert_eq!(rom.read_ram(0x0800), 0xFF);
    assert_eq!(rom.cart_ram.len(), 2 * 1024);
}

#[test]
fn a_cartridge_without_ram_reads_ff() {
    let mut rom = GameROM::build(image(0x00, 2, 0, 0));
    rom.write_ram(0x0000, 0x12);
    assert_eq!(rom.read_ram(0x0000), 0xFF);
    assert_eq!(rom.read_ram(0x1FFF), 0xFF);
}

#[test]
fn the_title_is_read_from_the_header() {
    let mut data = image(0x00, 2, 0, 0);
    for (i, byte) in "TETRIS".bytes().enumerate() {
        data[0x134 + i] = byte;
    }
    let rom = GameROM::build(data);
    assert_eq!(rom.get_cart_name(), Some(String::from("TETRIS\0\0\0\0\0\0\0\0")));
}

#[test]
fn a_title_of_two_byte_characters_is_decoded() {
    let mut data = image(0x00, 2, 0, 0);
    // Seven times the two bytes of U+00E9.
    for i in 0..7 {
        data[0x134 + 2 * i] = 0xC3;
        data[0x135 + 2 * i] = 0xA9;
    }
    let rom = GameROM::build(data);
    let name = rom.get_cart_name().unwrap();
    assert_eq!(name.chars().count(), 7);
    assert!(name.chars().all(|c| c == '\u{e9}'));
}

#[test]
fn a_title_that_is_not_utf8_has_no_name() {
    let mut data = image(0x00, 2, 0, 0);
    data[0x134] = 0xFF;
    let rom = GameROM::build(data);
    assert_eq!(rom.get_cart_name(), None);
}

#[test]
fn the_declared_size_is_compared() {
    assert!(GameROM::build(image(0x00, 2, 0, 0)).has_declared_size());
    assert!(!GameROM::build(image(0x00, 4, 0, 0)).has_declared_size());
    assert!(GameROM::build(image(0x01, 4, 1, 0)).has_declared_size());
}

#[test]
fn cartridge_ram_is_saved_and_loaded() {
    let mut rom = GameROM::build(image(0x03, 2, 0, 1));
    rom.write_ram(0x0000, 0x12);
    rom.write_ram(0x07FF, 0x34);
    let saved = rom.save_ram();
    assert_eq!(saved.len(), 2048);
    assert_eq!(saved[0], 0x12);
    assert_eq!(saved[0x7FF], 0x34);
    assert_eq!(saved[1], 0xFF);
    let mut other = GameROM::build(image(0x03, 2, 0, 1));
    assert!(other.load_ram(&saved));
    assert_eq!(other.read_ram(0x0000), 0x12);
    assert_eq!(other.read_ram(0x07FF), 0x34);
    // Bytes of another size are not taken.
    assert!(!other.load_ram(&saved[..2047]));
    assert!(!other.load_ram(&[]));
    assert_eq!(other.read_ram(0x0000), 0x12);
    let mut bare = GameROM::build(image(0x00, 2, 0, 0));
    assert!(bare.load_ram(&[]));
    assert!(!bare.load_ram(&saved));
}

#[test]
fn an_image_that_ends_with_its_header_loads() {
    let mut data = vec![0u8; 0x14A];
    for (i, byte) in "SHORT".bytes().enumerate() {
        data[0x134 + i] = byte;
    }
    data[0x147] = 0x03;
    data[0x148] = 0x01;
    data[0x149] = 0x02;
    let mut rom = GameROM::build(data);
    assert!(rom.is_valid());
    assert_eq!(rom.cart_type, CartridgeType::RomMbc1RamBatt);
    assert_eq!(rom.current_bank, 1);
    assert_eq!(rom.cart_ram.len(), 8 * 1024);
    assert!(rom.cart_ram.iter().all(|byte| *byte == 0xFF));
    assert!(!rom.has_declared_size());
    assert_eq!(rom.get_cart_name(), Some(String::from("SHORT\0\0\0\0\0\0\0\0\0")));
    assert_eq!(rom.read(0x0149), 0x02);
    assert_eq!(rom.read(0x014A), 0xFF);
    assert_eq!(rom.read(0x4000), 0xFF);
    rom.write(0x2000, 3);
    assert_eq!(rom.current_bank, 3);
    assert_eq!(rom.read(0x4000), 0xFF);
}
