use libnestacean::cart::Cart;
use libnestacean::mmap::MemoryMap;

#[test]
fn test_ram_bus() {
    let mut map = MemoryMap::new(Cart::empty());
    map.ram.0[0] = 0xFF;
    assert!(map.read(0) == 0xFF);
    map.write(0, 0xEF);
    assert!(map.read(0) == 0xEF);
    assert!(map.ram.0[0] == 0xEF);
}

#[test]
fn test_ppu_bus() {
    let mut map = MemoryMap::new(Cart::empty());
    map.ppu.ppuctrl = 0xB0;
    map.ppu.ppumask = 0x0B;
    map.ppu.ppustatus = 0xFA;
    map.ppu.oamaddr = 0xCE;
    let mut arr = [0; 4];
    for i in 0x2000..=0x2003 {
        arr[i - 0x2000] = map.read(i as u16);
    }
    for i in 0x2000..=0x3FFF {
        if (i % 8) < 4 {
            let data = map.read(i as u16);
            assert!(data == arr[i % 8]);
        }
    }
    assert!(arr == [0xB0, 0x0B, 0xFA, 0xCE]);
}

#[test]
fn test_apu_bus() {
    let mut map = MemoryMap::new(Cart::empty());
    let input = [0xB0, 0x0B, 0xFA, 0xCE];
    for (i, val) in input.iter().enumerate() {
        map.write(0x4000 + i as u16, *val);
        map.write(0x4004 + i as u16, *val);
        map.write(0x4008 + i as u16, *val);
        map.write(0x400C + i as u16, *val);
        map.write(0x4010 + i as u16, *val);
    }
    map.write(0x4015, 0x4E);
    map.write(0x4017, 0xE1);
    assert!(map.apu.pulse1.0 == input);
    assert!(map.apu.pulse2.0 == input);
    assert!(map.apu.triangle.0 == input);
    assert!(map.apu.noise.0 == input);
    assert!(map.apu.dmc.0 == input);
    assert!(map.apu.status == 0x4E);
    assert!(map.apu.frame_counter == 0xE1);
}
