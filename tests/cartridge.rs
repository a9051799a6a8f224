use gboy::cartridge;
use gboy::memorybus;

fn rom_with(len: usize, bytes: &[(usize, u8)]) -> Vec<u8> {
    let mut rom = vec![0u8; len];
    for &(i, b) in bytes {
        rom[i] = b;
    }
    rom
}

#[test]
fn checksum_of_zero_header_is_e7() {
    let c = cartridge::new(vec![0u8; 0x150]);
    assert_eq!(c.calculate_header_checksum(), 0xE7);
}

#[test]
fn checksum_subtracts_each_byte_and_one() {
    let c = cartridge::new(rom_with(0x150, &[(0x134, 0x10), (0x14C, 0x01)]));
    assert_eq!(c.calculate_header_checksum(), 0xE7u8.wrapping_sub(0x11));
    let c = cartridge::new(rom_with(0x150, &[(0x14D, 0x42)]));
    assert_eq!(c.header_checksum(), 0x42);
}

#[test]
fn header_window_bounds() {
    let c = cartridge::new(vec![0u8; 0x150]);
    assert_eq!(c.header_start(), 0);
    assert_eq!(c.header_end(), 0x14F);
    assert_eq!(c.rom_len(), 0x150);
}

#[test]
fn title_reads_ascii_bytes() {
    let mut rom = vec![0u8; 0x150];
    for (i, b) in b"TETRIS\0\0\0\0".iter().enumerate() {
        rom[0x134 + i] = *b;
    }
    let c = cartridge::new(rom);
    assert_eq!(c.title(), "TETRIS\0\0\0\0");
    assert_eq!(c.read(0x134), b'T');
}

#[test]
fn title_replaces_invalid_utf8() {
    let c = cartridge::new(rom_with(0x150, &[(0x134, 0xFF)]));
    assert!(c.title().starts_with('\u{FFFD}'));
}

#[test]
fn destination_codes() {
    assert_eq!(cartridge::new(rom_with(0x150, &[])).destination_code(), "Japanese");
    assert_eq!(cartridge::new(rom_with(0x150, &[(0x14A, 1)])).destination_code(), "Non-Japanese");
    assert_eq!(cartridge::new(rom_with(0x150, &[(0x14A, 7)])).destination_code(), "Not defined");
}

#[test]
fn licensee_codes() {
    assert_eq!(cartridge::new(rom_with(0x150, &[])).licensee_code(), "None");
    assert_eq!(cartridge::new(rom_with(0x150, &[(0x14B, 1)])).licensee_code(), "Nintendo R&D1");
    assert_eq!(cartridge::new(rom_with(0x150, &[(0x14B, 2)])).licensee_code(), "Not defined");
}

#[test]
fn cartridge_types() {
    assert_eq!(cartridge::new(rom_with(0x150, &[])).cart_type(), "Rom Only");
    assert_eq!(cartridge::new(rom_with(0x150, &[(0x147, 1)])).cart_type(), "Not defined");
}

#[test]
fn interrupt_enable_cell_is_separate() {
    let mut m = memorybus::new(cartridge::new(vec![0u8; 0x150]));
    assert_eq!(m.memory_size(), 0xFFFF);
    m.write(0xFFFF, 0x1F);
    m.write(0xFFFE, 0x33);
    assert_eq!(m.read(0xFFFF), 0x1F);
    assert_eq!(m.read(0xFFFE), 0x33);
    assert_eq!(m.read(0x1234), 0);
}

#[test]
fn header_then_rom_loading() {
    let mut rom = vec![0u8; 0x200];
    rom[0x10] = 0xAA;
    rom[0x14E] = 0xBB;
    rom[0x14F] = 0xCC;
    rom[0x1FF] = 0xDD;
    let mut m = memorybus::new(cartridge::new(rom));
    m.load_cartridge_header();
    assert_eq!(m.read(0x10), 0xAA);
    assert_eq!(m.read(0x14E), 0xBB);
    assert_eq!(m.read(0x14F), 0);
    m.write(0x300, 7);
    m.load_cartridge_rom();
    assert_eq!(m.read(0x14F), 0xCC);
    assert_eq!(m.read(0x1FF), 0xDD);
    assert_eq!(m.read(0x300), 7);
}

#[test]
fn bus_reports_cartridge_header() {
    let mut rom = rom_with(0x150, &[(0x14A, 1), (0x14B, 1), (0x14D, 0x99)]);
    rom[0x134] = b'A';
    let m = memorybus::new(cartridge::new(rom));
    assert!(m.cartridge_title().starts_with('A'));
    assert_eq!(m.destination_code(), "Non-Japanese");
    assert_eq!(m.licensee_code(), "Nintendo R&D1");
    assert_eq!(m.cartridge_type(), "Rom Only");
    assert_eq!(m.cartridge_header_checksum(), (0x99, 0xE7u8.wrapping_sub(0x41 + 1 + 1)));
}
