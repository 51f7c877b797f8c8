use libnestacean::cart::{Cart, Mapper, RomError, RomFile, RomHeader, HEADER_LEN};

fn header_bytes(prg: u8, chr: u8, flags_6: u8) -> Vec<u8> {
    vec![0x4E, 0x45, 0x53, 0x1A, prg, chr, flags_6, 7, 8, 9, 10, 11, 12, 13, 14, 15]
}

fn header_array(bytes: &[u8]) -> [u8; 16] {
    let mut h = [0u8; 16];
    h.copy_from_slice(&bytes[..16]);
    h
}

#[test]
fn header_is_sixteen_bytes() {
    assert_eq!(std::mem::size_of::<RomHeader>(), HEADER_LEN);
}

#[test]
fn verify_header_accepts_magic() {
    let h = header_array(&header_bytes(2, 1, 0x01));
    let header = RomFile::verify_header(h).unwrap();
    assert_eq!(header.magic_constant, [0x4E, 0x45, 0x53, 0x1A]);
    assert_eq!(header.prg_rom_size, 2);
    assert_eq!(header.chr_rom_size, 1);
    assert_eq!(header.flags_6, 0x01);
    assert_eq!(header.flags_7, 7);
    assert_eq!(header.flags_8, 8);
    assert_eq!(header.flags_9, 9);
    assert_eq!(header.flags_10, 10);
    assert_eq!(header.padding, [0; 5]);
}

#[test]
fn verify_header_rejects_bad_magic() {
    let mut h = header_array(&header_bytes(1, 1, 0));
    h[3] = 0x1B;
    assert!(RomFile::verify_header(h).is_none());
    let h = [0u8; 16];
    assert!(RomFile::verify_header(h).is_none());
}

#[test]
fn has_trainer_reads_bit_three() {
    assert!(RomFile::has_trainer(header_array(&header_bytes(1, 1, 0x08))));
    assert!(!RomFile::has_trainer(header_array(&header_bytes(1, 1, 0xF7))));
}

#[test]
fn from_bytes_too_short() {
    let data = header_bytes(1, 1, 0);
    match RomFile::from_bytes(&data[..15]) {
        Err(e) => assert_eq!(e, RomError::UnexpectedEof),
        Ok(_) => panic!("a file shorter than its header must be refused"),
    }
}

#[test]
fn from_bytes_reads_sections_and_pads() {
    let mut data = header_bytes(1, 1, 0);
    for i in 0..16384usize {
        data.push((i % 251) as u8);
    }
    data.push(0xAA);
    data.push(0xBB);
    let file = RomFile::from_bytes(&data).unwrap();
    assert_eq!(file.header.prg_rom_size, 1);
    assert_eq!(file.prg_rom.len(), 16384);
    assert_eq!(file.prg_rom[0], 0);
    assert_eq!(file.prg_rom[300], (300 % 251) as u8);
    assert_eq!(file.chr_rom.len(), 8192);
    assert_eq!(file.chr_rom[0], 0xAA);
    assert_eq!(file.chr_rom[1], 0xBB);
    assert_eq!(file.chr_rom[2], 0);
    assert!(file.trainer.is_none());
    assert!(file.pc_inst_rom.is_none());
    assert!(file.pc_prom.is_none());
}

#[test]
fn empty_cart_is_zero() {
    let cart = Cart::empty();
    assert!(cart.file.is_none());
    assert!(cart.rom.iter().all(|b| *b == 0));
    assert!(cart.ram.iter().all(|b| *b == 0));
    assert!(cart.ppu.iter().all(|b| *b == 0));
    assert!(cart.expansion_rom.iter().all(|b| *b == 0));
    assert!(matches!(cart.mapper, Mapper::Nrom));
}

#[test]
fn single_bank_is_mirrored() {
    let mut data = header_bytes(1, 1, 0);
    for i in 0..16384usize {
        data.push((i % 253) as u8);
    }
    for i in 0..8192usize {
        data.push((i % 7) as u8);
    }
    let file = RomFile::from_bytes(&data).unwrap();
    let mut cart = Cart::from_file(file);
    for i in 0..0x4000usize {
        assert_eq!(cart.rom[i], (i % 253) as u8);
        assert_eq!(cart.rom[i + 0x4000], (i % 253) as u8);
    }
    assert_eq!(cart.read(0x8123), cart.read(0xC123));
    assert_eq!(cart.ppu[6], 6);
    assert_eq!(cart.ppu[7], 0);
    assert!(cart.file.is_some());
}

#[test]
fn two_banks_fill_the_rom() {
    let mut data = header_bytes(2, 0, 0);
    for i in 0..32768usize {
        data.push((i / 16384) as u8 + 1);
    }
    let file = RomFile::from_bytes(&data).unwrap();
    assert_eq!(file.chr_rom.len(), 0);
    let cart = Cart::from_file(file);
    assert_eq!(cart.rom[0], 1);
    assert_eq!(cart.rom[0x3FFF], 1);
    assert_eq!(cart.rom[0x4000], 2);
    assert_eq!(cart.rom[0x7FFF], 2);
    assert!(cart.ppu.iter().all(|b| *b == 0));
}

#[test]
fn cart_read_write_regions() {
    let mut cart = Cart::empty();
    cart.write(0x4020, 1);
    cart.write(0x5FFE, 2);
    cart.write(0x6000, 3);
    cart.write(0x7FFF, 4);
    cart.write(0x8000, 5);
    cart.write(0xFFFF, 6);
    assert_eq!(cart.expansion_rom[0], 1);
    assert_eq!(cart.expansion_rom[0x1FDE], 2);
    assert_eq!(cart.ram[0], 3);
    assert_eq!(cart.ram[0x1FFF], 4);
    assert_eq!(cart.rom[0], 5);
    assert_eq!(cart.rom[0x7FFF], 6);
    assert_eq!(cart.read(0x5FFE), 2);
    assert_eq!(cart.read(0xFFFF), 6);
    assert_eq!(cart.read(0x9000), 0);
}
