use vstd::prelude::*;

use crate::apu::{apu_mapped, Apu};
use crate::cart::{cart_mapped, zeros, Cart};
use std::collections::VecDeque;

verus! {

/// The console's 2 KiB of internal RAM.
pub struct Ram(pub [u8; 0x800]);

impl Default for Ram {
    fn default() -> (r: Self)
        ensures
            r.0@ == zeros(0x800),
    {
        let r = Self([0; 0x800]);
        assert(r.0@ =~= zeros(0x800));
        r
    }
}

impl Ram {
    /// The byte that `address` selects.
    pub fn map_addr(&mut self, address: u16) -> (r: &mut u8)
        requires
            address <= 0x07FF,
        ensures
            *r == old(self).0@[address as int],
            final(self).0@ == old(self).0@.update(address as int, *final(r)),
    {
        &mut self.0[address as usize]
    }

    pub fn read(&mut self, address: u16) -> (r: u8)
        requires
            address <= 0x07FF,
        ensures
            r == old(self).0@[address as int],
            *final(self) == *old(self),
    {
        let value = *self.map_addr(address);
        assert(self.0 =~= old(self).0);
        value
    }

    pub fn write(&mut self, address: u16, value: u8)
        requires
            address <= 0x07FF,
        ensures
            final(self).0@ == old(self).0@.update(address as int, value),
    {
        *self.map_addr(address) = value
    }
}

/// The picture unit's eight registers as the CPU sees them.
pub struct Ppu {
    pub ppuctrl: u8,
    pub ppumask: u8,
    pub ppustatus: u8,
    pub oamaddr: u8,
    pub oamdata: u8,
    pub ppuscroll: u8,
    pub ppuaddr: u8,
    pub ppudata: u8,
    pub oamdma: u8,
}

/// The register that an address of `0x2000..=0x3FFF` selects: the eight
/// registers repeat every eight bytes.
pub open spec fn ppu_register(address: u16) -> int {
    (address - 0x2000) % 8
}

impl Default for Ppu {
    fn default() -> (r: Self)
        ensures
            r.is_zeroed(),
    {
        Ppu {
            ppuctrl: 0,
            ppumask: 0,
            ppustatus: 0,
            oamaddr: 0,
            oamdata: 0,
            ppuscroll: 0,
            ppuaddr: 0,
            ppudata: 0,
            oamdma: 0,
        }
    }
}

impl Ppu {
    /// Every register zero.
    pub open spec fn is_zeroed(self) -> bool {
        &&& self.ppuctrl == 0
        &&& self.ppumask == 0
        &&& self.ppustatus == 0
        &&& self.oamaddr == 0
        &&& self.oamdata == 0
        &&& self.ppuscroll == 0
        &&& self.ppuaddr == 0
        &&& self.ppudata == 0
        &&& self.oamdma == 0
    }

    /// The register with number `index` (`0..8`).
    pub open spec fn register(self, index: int) -> u8 {
        if index == 0 {
            self.ppuctrl
        } else if index == 1 {
            self.ppumask
        } else if index == 2 {
            self.ppustatus
        } else if index == 3 {
            self.oamaddr
        } else if index == 4 {
            self.oamdata
        } else if index == 5 {
            self.ppuscroll
        } else if index == 6 {
            self.ppuaddr
        } else {
            self.ppudata
        }
    }

    /// These registers with register `index` replaced by `value`.
    pub open spec fn with_register(self, index: int, value: u8) -> Ppu {
        if index == 0 {
            Ppu { ppuctrl: value, ..self }
        } else if index == 1 {
            Ppu { ppumask: value, ..self }
        } else if index == 2 {
            Ppu { ppustatus: value, ..self }
        } else if index == 3 {
            Ppu { oamaddr: value, ..self }
        } else if index == 4 {
            Ppu { oamdata: value, ..self }
        } else if index == 5 {
            Ppu { ppuscroll: value, ..self }
        } else if index == 6 {
            Ppu { ppuaddr: value, ..self }
        } else {
            Ppu { ppudata: value, ..self }
        }
    }

    /// The register that `address` selects.
    pub fn map_addr(&mut self, address: u16) -> (r: &mut u8)
        requires
            0x2000 <= address <= 0x3FFF,
        ensures
            *r == old(self).register(ppu_register(address)),
            *final(self) == old(self).with_register(ppu_register(address), *final(r)),
    {
        match (address - 0x2000) % 8 {
            0 => &mut self.ppuctrl,
            1 => &mut self.ppumask,
            2 => &mut self.ppustatus,
            3 => &mut self.oamaddr,
            4 => &mut self.oamdata,
            5 => &mut self.ppuscroll,
            6 => &mut self.ppuaddr,
            _ => &mut self.ppudata,
        }
    }

    pub fn read(&mut self, address: u16) -> (r: u8)
        requires
            0x2000 <= address <= 0x3FFF,
        ensures
            r == old(self).register(ppu_register(address)),
            *final(self) == *old(self),
    {
        *self.map_addr(address)
    }

    pub fn write(&mut self, address: u16, value: u8)
        requires
            0x2000 <= address <= 0x3FFF,
        ensures
            *final(self) == old(self).with_register(ppu_register(address), value),
    {
        *self.map_addr(address) = value
    }
}

/// The addresses of the APU and I/O test registers, `0x4018..=0x401F`: no
/// device answers them; a read puts a zero on the data bus, and the address
/// (and on a write the value) stays waiting on the buses.
pub open spec fn test_mapped(address: u16) -> bool {
    0x4018 <= address <= 0x401F
}

/// The addresses that the memory map serves without stopping: internal RAM at
/// `0x0000..=0x07FF`, the picture registers and their mirrors at
/// `0x2000..=0x3FFF`, the audio registers, the test registers and the
/// cartridge.
pub open spec fn mapped(address: u16) -> bool {
    ||| address <= 0x07FF
    ||| 0x2000 <= address <= 0x3FFF
    ||| apu_mapped(address)
    ||| test_mapped(address)
    ||| cart_mapped(address)
}

/// Tells whether the memory map serves `address` (see `mapped`).
pub fn is_mapped(address: u16) -> (r: bool)
    ensures
        r == mapped(address),
{
    address <= 0x07FF || (0x2000 <= address && address <= 0x3FFF) || (0x4000 <= address
        && address <= 0x4013) || address == 0x4015 || address == 0x4017 || (0x4018 <= address
        && address <= 0x401F) || (0x4020 <= address && address != 0x5FFF)
}

/// Two addresses name the same byte: the same address, two picture register
/// addresses that select the same register, or two test register addresses
/// (a value written to one of them waits on the data bus for the next read of
/// any of them).
pub open spec fn aliases(a: u16, b: u16) -> bool {
    if 0x2000 <= a <= 0x3FFF && 0x2000 <= b <= 0x3FFF {
        ppu_register(a) == ppu_register(b)
    } else if test_mapped(a) && test_mapped(b) {
        true
    } else {
        a == b
    }
}

/// What waits on the memory map's two buses: the number of addresses on the
/// address bus and the bytes on the data bus. Only accesses to the test
/// registers leave anything waiting; an idle bus holds nothing.
pub open spec fn idle_bus() -> (nat, Seq<u8>) {
    (0nat, Seq::<u8>::empty())
}

/// An access to `address` goes through without stopping with the buses in
/// state `bus`: a test register is always served; a device is served when it
/// answers the address and no earlier address waits before it on the
/// address bus (a waiting address is a test register address, which no
/// device answers).
pub open spec fn can_access(bus: (nat, Seq<u8>), address: u16) -> bool {
    test_mapped(address) || (bus.0 == 0 && mapped(address))
}

/// The byte that the device selected by `address` puts on the data bus for a
/// read of `address`: zero for the test registers.
pub open spec fn served_byte(map: MemoryMap, address: u16) -> u8 {
    if test_mapped(address) {
        0
    } else {
        map.peek(address)
    }
}

/// The byte that a read of `address` returns: the first byte waiting on the
/// data bus, which is the served byte when nothing was waiting.
pub open spec fn read_value(map: MemoryMap, bus: (nat, Seq<u8>), address: u16) -> u8 {
    bus.1.push(served_byte(map, address))[0]
}

/// The buses after a read of `address`: a test register address stays
/// waiting on the address bus; the data bus gains the served byte and loses
/// its first byte.
pub open spec fn read_bus(map: MemoryMap, bus: (nat, Seq<u8>), address: u16) -> (nat, Seq<u8>) {
    (
        if test_mapped(address) {
            bus.0 + 1
        } else {
            bus.0
        },
        bus.1.push(served_byte(map, address)).drop_first(),
    )
}

/// The devices after a write of `value` at `address`: a test register
/// address changes nothing; otherwise the device takes the first byte
/// waiting on the data bus, which is `value` when nothing was waiting.
pub open spec fn written_devices(map: MemoryMap, bus: (nat, Seq<u8>), address: u16, value: u8) -> MemoryMap {
    if test_mapped(address) {
        map
    } else {
        map.poked(address, bus.1.push(value)[0])
    }
}

/// The buses after a write of `value` at `address`: a test register access
/// leaves both the address and the value waiting; a device access takes them.
pub open spec fn written_bus(bus: (nat, Seq<u8>), address: u16, value: u8) -> (nat, Seq<u8>) {
    if test_mapped(address) {
        (bus.0 + 1, bus.1.push(value))
    } else {
        (bus.0, bus.1.push(value).drop_first())
    }
}

/// The CPU's view of the console's address space. Reads and writes go over an
/// address bus and a data bus, modelled as queues.
pub struct MemoryMap {
    pub address: VecDeque<u16>,
    pub data: VecDeque<u8>,
    pub ram: Ram,
    pub ppu: Ppu,
    pub apu: Apu,
    pub apu_test: [u8; 4],
    pub irq_timer: [u8; 4],
    pub cart: Cart,
}

impl MemoryMap {
    /// The state of the buses: how many addresses wait on the address bus,
    /// and the bytes that wait on the data bus.
    pub open spec fn bus(self) -> (nat, Seq<u8>) {
        (self.address@.len(), self.data@)
    }

    /// The buses are consistent: every waiting address is a test register
    /// address, and no more bytes wait than addresses.
    pub open spec fn wf(self) -> bool {
        &&& forall|i: int| 0 <= i < self.address@.len() ==> test_mapped(#[trigger] self.address@[i])
        &&& self.data@.len() <= self.address@.len()
    }

    /// The byte that the device answering `address` holds there.
    pub open spec fn peek(self, address: u16) -> u8
        recommends
            mapped(address),
    {
        if address <= 0x1FFF {
            self.ram.0@[address as int]
        } else if address <= 0x3FFF {
            self.ppu.register(ppu_register(address))
        } else if address <= 0x4017 {
            self.apu.peek(address)
        } else if address <= 0x401F {
            0
        } else {
            self.cart.peek(address)
        }
    }

    /// The devices after `value` was stored at `address`.
    pub open spec fn poked(self, address: u16, value: u8) -> MemoryMap
        recommends
            mapped(address),
    {
        if address <= 0x1FFF {
            MemoryMap {
                ram: Ram(vstd::array::spec_array_update(self.ram.0, address as int, value)),
                ..self
            }
        } else if address <= 0x3FFF {
            MemoryMap { ppu: self.ppu.with_register(ppu_register(address), value), ..self }
        } else if address <= 0x4017 {
            MemoryMap { apu: self.apu.poked(address, value), ..self }
        } else if address <= 0x401F {
            self
        } else {
            MemoryMap { cart: self.cart.poked(address, value), ..self }
        }
    }

    /// `self` and `other` hold the same devices (the buses aside).
    pub open spec fn same_devices(self, other: MemoryMap) -> bool {
        &&& self.ram == other.ram
        &&& self.ppu == other.ppu
        &&& self.apu == other.apu
        &&& self.apu_test == other.apu_test
        &&& self.irq_timer == other.irq_timer
        &&& self.cart == other.cart
    }

    /// `self` and `other` hold the same devices and the same buses.
    pub open spec fn same(self, other: MemoryMap) -> bool {
        self.same_devices(other) && self.bus() == other.bus()
    }

    /// The memory map that `new` builds around `cart`.
    pub open spec fn fresh(self, cart: Cart) -> bool {
        &&& self.ram.0@ == zeros(0x800)
        &&& self.ppu.is_zeroed()
        &&& self.apu.is_zeroed()
        &&& self.apu_test@ == zeros(4)
        &&& self.irq_timer@ == zeros(4)
        &&& self.cart == cart
        &&& self.bus() == idle_bus()
        &&& self.wf()
    }

    /// Everything but internal RAM is the same in `self` and `other`.
    pub open spec fn same_but_ram(self, other: MemoryMap) -> bool {
        &&& self.ppu == other.ppu
        &&& self.apu == other.apu
        &&& self.apu_test == other.apu_test
        &&& self.irq_timer == other.irq_timer
        &&& self.cart == other.cart
    }

    pub fn new(cart: Cart) -> (r: Self)
        ensures
            r.fresh(cart),
    {
        let r = Self {
            address: VecDeque::new(),
            data: VecDeque::new(),
            ram: Ram::default(),
            ppu: Ppu::default(),
            apu: Apu::default(),
            apu_test: [0; 4],
            irq_timer: [0; 4],
            cart,
        };
        assert(r.apu_test@ =~= zeros(4));
        assert(r.irq_timer@ =~= zeros(4));
        assert(r.data@ =~= Seq::<u8>::empty());
        r
    }

    /// Tells whether an access to `address` goes through without stopping.
    pub fn can_access(&self, address: u16) -> (r: bool)
        ensures
            r == can_access(self.bus(), address),
    {
        (0x4018 <= address && address <= 0x401F) || (self.address.len() == 0 && is_mapped(
            address,
        ))
    }

    /// The byte that a read of `address` would return, without reading.
    pub fn peek_read(&mut self, address: u16) -> (r: u8)
        requires
            old(self).wf(),
            can_access(old(self).bus(), address),
        ensures
            r == read_value(*old(self), old(self).bus(), address),
            final(self).same(*old(self)),
            final(self).wf(),
    {
        if self.data.len() > 0 {
            self.data[0]
        } else if 0x4018 <= address && address <= 0x401F {
            0
        } else if address <= 0x1FFF {
            self.ram.read(address)
        } else if address <= 0x3FFF {
            self.ppu.read(address)
        } else if address <= 0x4017 {
            self.apu.read(address)
        } else {
            self.cart.read(address)
        }
    }

    /// Puts `address` on the address bus; the device that the address
    /// selects takes an address from the bus and puts its byte on the data
    /// bus (the test registers put a zero); the first byte on the data bus is
    /// returned.
    pub fn read(&mut self, address: u16) -> (r: u8)
        requires
            old(self).wf(),
            can_access(old(self).bus(), address),
        ensures
            r == read_value(*old(self), old(self).bus(), address),
            final(self).same_devices(*old(self)),
            final(self).bus() == read_bus(*old(self), old(self).bus(), address),
            final(self).wf(),
    {
        self.address.push_back(address);
        if address <= 0x1FFF {
            let addr = self.address.pop_front().unwrap();
            let value = self.ram.read(addr);
            self.data.push_back(value);
        } else if address <= 0x3FFF {
            let addr = self.address.pop_front().unwrap();
            let value = self.ppu.read(addr);
            self.data.push_back(value);
        } else if address <= 0x4017 {
            let addr = self.address.pop_front().unwrap();
            let value = self.apu.read(addr);
            self.data.push_back(value);
        } else if address <= 0x401F {
            self.data.push_back(0);
        } else {
            let addr = self.address.pop_front().unwrap();
            let value = self.cart.read(addr);
            self.data.push_back(value);
        }
        self.data.pop_front().unwrap()
    }

    /// Puts `address` on the address bus and `value` on the data bus; the
    /// device that the address selects takes an address and a byte from the
    /// buses and stores the byte. The test registers take nothing.
    pub fn write(&mut self, address: u16, value: u8)
        requires
            old(self).wf(),
            can_access(old(self).bus(), address),
        ensures
            final(self).same_devices(written_devices(*old(self), old(self).bus(), address, value)),
            final(self).bus() == written_bus(old(self).bus(), address, value),
            final(self).wf(),
    {
        self.address.push_back(address);
        self.data.push_back(value);
        if address <= 0x1FFF {
            let addr = self.address.pop_front().unwrap();
            let byte = self.data.pop_front().unwrap();
            self.ram.write(addr, byte);
            assert(self.ram.0 =~= vstd::array::spec_array_update(
                old(self).ram.0,
                address as int,
                byte,
            ));
        } else if address <= 0x3FFF {
            let addr = self.address.pop_front().unwrap();
            let byte = self.data.pop_front().unwrap();
            self.ppu.write(addr, byte);
        } else if address <= 0x4017 {
            let addr = self.address.pop_front().unwrap();
            let byte = self.data.pop_front().unwrap();
            self.apu.write(addr, byte);
        } else if address <= 0x401F {
        } else {
            let addr = self.address.pop_front().unwrap();
            let byte = self.data.pop_front().unwrap();
            self.cart.write(addr, byte);
        }
    }
}

/// On consistent buses, no byte waits when no address does.
pub proof fn lemma_idle_when_no_address(map: MemoryMap)
    requires
        map.wf(),
        map.bus().0 == 0,
    ensures
        map.bus() == idle_bus(),
{
    assert(map.data@ =~= Seq::<u8>::empty());
}

/// On an idle bus, a read of a device address returns the device's byte and
/// leaves the bus idle, and a write of a device address stores the value and
/// leaves the bus idle.
pub proof fn lemma_idle_access(map: MemoryMap, address: u16, value: u8)
    requires
        mapped(address),
        !test_mapped(address),
    ensures
        read_value(map, idle_bus(), address) == map.peek(address),
        read_bus(map, idle_bus(), address) == idle_bus(),
        written_devices(map, idle_bus(), address, value) == map.poked(address, value),
        written_bus(idle_bus(), address, value) == idle_bus(),
{
    assert(Seq::<u8>::empty().push(map.peek(address)).drop_first() =~= Seq::<u8>::empty());
    assert(Seq::<u8>::empty().push(value).drop_first() =~= Seq::<u8>::empty());
}

/// What is written to the memory map from an idle bus is read back at every
/// address that names the same byte, and every other address that can then
/// be read reads as before.
pub proof fn lemma_read_after_write(map: MemoryMap, address: u16, value: u8, other: u16)
    requires
        mapped(address),
        mapped(other),
        can_access(written_bus(idle_bus(), address, value), other),
    ensures
        read_value(
            written_devices(map, idle_bus(), address, value),
            written_bus(idle_bus(), address, value),
            other,
        ) == (if aliases(address, other) {
            value
        } else {
            map.peek(other)
        }),
{
    if test_mapped(address) {
        assert(test_mapped(other));
    } else {
        lemma_idle_access(map, address, value);
        if !test_mapped(other) {
            lemma_idle_access(map.poked(address, value), other, 0);
        }
        if 0x4000 <= address <= 0x4017 && 0x4000 <= other <= 0x4017 {
            crate::apu::lemma_apu_read_after_write(map.apu, address, value, other);
        }
        if 0x4020 <= address && 0x4020 <= other {
            crate::cart::lemma_cart_read_after_write(map.cart, address, value, other);
        }
    }
}

/// After an access to a test register, only the test registers can be
/// accessed: the test register address waits on the address bus, and the
/// next device that takes an address from it would take that one, which it
/// does not answer.
pub proof fn lemma_test_access_blocks_devices(bus: (nat, Seq<u8>), address: u16, value: u8, other: u16)
    requires
        test_mapped(address),
        !test_mapped(other),
    ensures
        !can_access(written_bus(bus, address, value), other),
        forall|map: MemoryMap| !can_access(#[trigger] read_bus(map, bus, address), other),
{
}

/// Each picture register address (and its mirrors every eight bytes) reads
/// and writes its own register: `0x2000` PPUCTRL, `0x2001` PPUMASK, `0x2002`
/// PPUSTATUS, `0x2003` OAMADDR, `0x2004` OAMDATA, `0x2005` PPUSCROLL,
/// `0x2006` PPUADDR and `0x2007` PPUDATA; a write changes that register only.
pub proof fn lemma_ppu_register_addresses(map: MemoryMap, address: u16, value: u8)
    requires
        0x2000 <= address <= 0x3FFF,
    ensures
        address % 8 == 0 ==> map.peek(address) == map.ppu.ppuctrl && map.poked(address, value).ppu
            == (Ppu { ppuctrl: value, ..map.ppu }),
        address % 8 == 1 ==> map.peek(address) == map.ppu.ppumask && map.poked(address, value).ppu
            == (Ppu { ppumask: value, ..map.ppu }),
        address % 8 == 2 ==> map.peek(address) == map.ppu.ppustatus && map.poked(
            address,
            value,
        ).ppu == (Ppu { ppustatus: value, ..map.ppu }),
        address % 8 == 3 ==> map.peek(address) == map.ppu.oamaddr && map.poked(address, value).ppu
            == (Ppu { oamaddr: value, ..map.ppu }),
        address % 8 == 4 ==> map.peek(address) == map.ppu.oamdata && map.poked(address, value).ppu
            == (Ppu { oamdata: value, ..map.ppu }),
        address % 8 == 5 ==> map.peek(address) == map.ppu.ppuscroll && map.poked(
            address,
            value,
        ).ppu == (Ppu { ppuscroll: value, ..map.ppu }),
        address % 8 == 6 ==> map.peek(address) == map.ppu.ppuaddr && map.poked(address, value).ppu
            == (Ppu { ppuaddr: value, ..map.ppu }),
        address % 8 == 7 ==> map.peek(address) == map.ppu.ppudata && map.poked(address, value).ppu
            == (Ppu { ppudata: value, ..map.ppu }),
        map.poked(address, value).ram == map.ram,
        map.poked(address, value).apu == map.apu,
        map.poked(address, value).cart == map.cart,
{
}

/// Internal RAM answers `0x0000..=0x07FF` byte for byte, and a write there
/// changes that RAM byte only.
pub proof fn lemma_ram_addresses(map: MemoryMap, address: u16, value: u8)
    requires
        address <= 0x07FF,
    ensures
        map.peek(address) == map.ram.0@[address as int],
        map.poked(address, value).ram.0@ == map.ram.0@.update(address as int, value),
        map.poked(address, value).ppu == map.ppu,
        map.poked(address, value).apu == map.apu,
        map.poked(address, value).cart == map.cart,
{
}

/// The cartridge answers `0x4020..=0x5FFE` from its expansion ROM,
/// `0x6000..=0x7FFF` from its work RAM and `0x8000..=0xFFFF` from its PRG
/// ROM, each from the start of that memory; a write there changes that byte
/// only.
pub proof fn lemma_cart_addresses(map: MemoryMap, address: u16, value: u8)
    requires
        crate::cart::cart_mapped(address),
    ensures
        address < 0x6000 ==> map.peek(address) == map.cart.expansion_rom@[address - 0x4020]
            && map.poked(address, value).cart.expansion_rom@ == map.cart.expansion_rom@.update(
            address - 0x4020,
            value,
        ) && map.poked(address, value).cart.ram == map.cart.ram && map.poked(
            address,
            value,
        ).cart.rom == map.cart.rom,
        0x6000 <= address < 0x8000 ==> map.peek(address) == map.cart.ram@[address - 0x6000]
            && map.poked(address, value).cart.ram@ == map.cart.ram@.update(address - 0x6000, value)
            && map.poked(address, value).cart.expansion_rom == map.cart.expansion_rom && map.poked(
            address,
            value,
        ).cart.rom == map.cart.rom,
        0x8000 <= address ==> map.peek(address) == map.cart.rom@[address - 0x8000] && map.poked(
            address,
            value,
        ).cart.rom@ == map.cart.rom@.update(address - 0x8000, value) && map.poked(
            address,
            value,
        ).cart.expansion_rom == map.cart.expansion_rom && map.poked(address, value).cart.ram
            == map.cart.ram,
        map.poked(address, value).ram == map.ram,
        map.poked(address, value).ppu == map.ppu,
        map.poked(address, value).apu == map.apu,
        map.poked(address, value).cart.file == map.cart.file,
        map.poked(address, value).cart.ppu == map.cart.ppu,
{
}


/// A write leaves untouched the parts of the memory map that no address
/// reaches: the OAM DMA register, the joypad byte, the test and IRQ timer
/// bytes, the cartridge's file, picture memory and mapper.
pub proof fn lemma_write_frame(map: MemoryMap, address: u16, value: u8)
    requires
        mapped(address),
    ensures
        map.poked(address, value).ppu.oamdma == map.ppu.oamdma,
        map.poked(address, value).apu.joy1 == map.apu.joy1,
        map.poked(address, value).apu_test == map.apu_test,
        map.poked(address, value).irq_timer == map.irq_timer,
        map.poked(address, value).cart.file == map.cart.file,
        map.poked(address, value).cart.ppu == map.cart.ppu,
        map.poked(address, value).cart.mapper == map.cart.mapper,
{
}

/// The picture registers repeat every eight bytes through `0x2000..=0x3FFF`.
pub proof fn lemma_ppu_mirrors(map: MemoryMap, address: u16)
    requires
        0x2000 <= address <= 0x3FF7,
    ensures
        map.peek(address) == map.peek((address + 8) as u16),
{
}

/// A read of a test register from an idle bus returns zero.
pub proof fn lemma_test_reads_zero(map: MemoryMap, address: u16)
    requires
        test_mapped(address),
    ensures
        read_value(map, idle_bus(), address) == 0,
{
}

} // verus!
