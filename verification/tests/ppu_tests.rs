use libnestacean::apu::{Apu, Dmc, Noise, Pulse, Triangle};
use libnestacean::cart::Cart;
use libnestacean::mmap::{is_mapped, MemoryMap};
use libnestacean::ppu::{Ppu, PpuVersion, WARM_UP_CYCLES};

#[test]
fn ppu_default_is_powered_up() {
    let mut ppu = Ppu::default();
    assert_eq!(ppu.version, PpuVersion::Ricoh2C02);
    assert!(!ppu.odd_frame);
    assert_eq!(ppu.cycles, 0);
    assert_eq!(ppu.read(0x2000), 0);
}

#[test]
fn ppu_write_ignored_during_warm_up() {
    let mut ppu = Ppu::default();
    ppu.write(0x2000, 0x80);
    assert_eq!(ppu.ppuctrl, 0);
    ppu.write(0x2003, 0x44);
    assert_eq!(ppu.oamaddr, 0);
    ppu.oamaddr = 2;
    ppu.write(0x2003, 0x44);
    assert_eq!(ppu.oamaddr, 0x44);
    ppu.ppumask = 9;
    ppu.write(0x2009, 0x21);
    assert_eq!(ppu.ppumask, 0x21);
    ppu.cycles = WARM_UP_CYCLES;
    ppu.write(0x3FF8, 0x80);
    assert_eq!(ppu.ppuctrl, 0x80);
    assert_eq!(ppu.read(0x2008), 0x80);
}

#[test]
fn ppu_cycles_advance_and_wrap() {
    let mut ppu = Ppu::default();
    assert!(ppu.cycle_due(1));
    assert!(!ppu.cycle_due(0));
    ppu.advance();
    assert_eq!(ppu.cycles, 1);
    assert!(!ppu.cycle_due(1));
    ppu.cycles = usize::MAX;
    ppu.advance();
    assert_eq!(ppu.cycles, 0);
}

#[test]
fn apu_defaults_are_zero() {
    let apu = Apu::default();
    assert_eq!(apu.pulse1.0, [0; 4]);
    assert_eq!(apu.dmc.0, [0; 4]);
    assert_eq!((apu.status, apu.joy1, apu.frame_counter), (0, 0, 0));
    assert_eq!(Pulse::default().0, [0; 4]);
    assert_eq!(Triangle::default().0, [0; 4]);
    assert_eq!(Noise::default().0, [0; 4]);
    assert_eq!(Dmc::default().0, [0; 4]);
}

#[test]
fn apu_read_after_write() {
    let mut apu = Apu::default();
    apu.write(0x400E, 0x12);
    assert_eq!(apu.read(0x400E), 0x12);
    assert_eq!(apu.noise.0[2], 0x12);
    assert_eq!(apu.read(0x400D), 0);
    apu.write(0x4015, 0x34);
    assert_eq!(apu.read(0x4015), 0x34);
    assert_eq!(apu.joy1, 0);
}

#[test]
fn memory_map_read_after_write_and_mirrors() {
    let mut map = MemoryMap::new(Cart::empty());
    map.write(0x2005, 0x66);
    assert_eq!(map.read(0x3FFD), 0x66);
    assert_eq!(map.ppu.ppuscroll, 0x66);
    map.write(0x07FF, 0x11);
    assert_eq!(map.read(0x07FF), 0x11);
    assert_eq!(map.read(0x07FE), 0);
    map.write(0x6123, 0x22);
    assert_eq!(map.read(0x6123), 0x22);
    assert_eq!(map.cart.ram[0x123], 0x22);
}

#[test]
fn memory_map_test_registers() {
    let mut map = MemoryMap::new(Cart::empty());
    assert!(map.can_access(0x0000));
    assert_eq!(map.read(0x401A), 0);
    assert!(!map.can_access(0x0000));
    assert!(map.can_access(0x4018));
    assert_eq!(map.address.len(), 1);
    assert_eq!(map.apu_test, [0; 4]);
    assert_eq!(map.irq_timer, [0; 4]);
}

#[test]
fn memory_map_test_write_waits_on_data_bus() {
    let mut map = MemoryMap::new(Cart::empty());
    map.write(0x4018, 0x99);
    assert_eq!(map.address.len(), 1);
    assert_eq!(map.data.len(), 1);
    assert!(!map.can_access(0x2000));
    assert_eq!(map.peek_read(0x401F), 0x99);
    assert_eq!(map.read(0x401F), 0x99);
    assert_eq!(map.read(0x401F), 0);
    assert_eq!(map.address.len(), 3);
    assert_eq!(map.data.len(), 1);
}

#[test]
fn memory_map_mapped_addresses() {
    assert!(is_mapped(0x0000));
    assert!(is_mapped(0x07FF));
    assert!(!is_mapped(0x0800));
    assert!(!is_mapped(0x1FFF));
    assert!(is_mapped(0x2000));
    assert!(is_mapped(0x3FFF));
    assert!(is_mapped(0x4013));
    assert!(!is_mapped(0x4014));
    assert!(is_mapped(0x4015));
    assert!(!is_mapped(0x4016));
    assert!(is_mapped(0x4017));
    assert!(is_mapped(0x401F));
    assert!(is_mapped(0x4020));
    assert!(!is_mapped(0x5FFF));
    assert!(is_mapped(0xFFFF));
}
