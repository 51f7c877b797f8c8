use vstd::prelude::*;

verus! {

/// The picture unit chips.
#[derive(Debug, Clone, Copy, PartialEq, Eq, Structural)]
pub enum PpuVersion {
    Ricoh2C02,
    Ricoh2C07,
}

/// The number of picture unit cycles after power-up during which writes to
/// some registers are ignored: 29658 CPU cycles, three picture cycles each.
pub const WARM_UP_CYCLES: usize = 29658 * 3;

/// The picture unit: its eight CPU-visible registers, the OAM DMA register,
/// its version, the frame parity and the number of cycles it has run
/// (modulo the machine word).
pub struct Ppu {
    pub ppuctrl: u8,
    pub ppumask: u8,
    pub ppustatus: u8,
    pub oamaddr: u8,
    pub oamdata: u8,
    pub ppuscroll: u8,
    pub ppuaddr: u8,
    pub ppudata: u8,
    pub oamdma: u8,
    pub version: PpuVersion,
    pub odd_frame: bool,
    pub cycles: usize,
}

/// The register that an address of `0x2000..=0x3FFF` selects.
pub open spec fn selected_register(address: u16) -> int {
    (address - 0x2000) % 8
}

impl Default for Ppu {
    fn default() -> (r: Self)
        ensures
            r.is_powered_up(),
    {
        Self {
            ppuctrl: 0,
            ppumask: 0,
            ppustatus: 0,
            oamdata: 0,
            oamaddr: 0,
            ppuscroll: 0,
            ppuaddr: 0,
            ppudata: 0,
            oamdma: 0,
            version: PpuVersion::Ricoh2C02,
            odd_frame: false,
            cycles: 0,
        }
    }
}

impl Ppu {
    /// Every register zero, a Ricoh 2C02 on an even frame, no cycles run.
    pub open spec fn is_powered_up(self) -> bool {
        &&& self.ppuctrl == 0
        &&& self.ppumask == 0
        &&& self.ppustatus == 0
        &&& self.oamaddr == 0
        &&& self.oamdata == 0
        &&& self.ppuscroll == 0
        &&& self.ppuaddr == 0
        &&& self.ppudata == 0
        &&& self.oamdma == 0
        &&& self.version is Ricoh2C02
        &&& !self.odd_frame
        &&& self.cycles == 0
    }

    /// The register with number `index` (`0..8`).
    pub open spec fn register(self, index: int) -> u8 {
        if index == 0 {
            self.ppuctrl
        } else if index == 1 {
            self.ppumask
        } else if index == 2 {
            self.ppustatus
        } else if index == 3 {
            self.oamaddr
        } else if index == 4 {
            self.oamdata
        } else if index == 5 {
            self.ppuscroll
        } else if index == 6 {
            self.ppuaddr
        } else {
            self.ppudata
        }
    }

    /// This unit with register `index` replaced by `value`.
    pub open spec fn with_register(self, index: int, value: u8) -> Ppu {
        if index == 0 {
            Ppu { ppuctrl: value, ..self }
        } else if index == 1 {
            Ppu { ppumask: value, ..self }
        } else if index == 2 {
            Ppu { ppustatus: value, ..self }
        } else if index == 3 {
            Ppu { oamaddr: value, ..self }
        } else if index == 4 {
            Ppu { oamdata: value, ..self }
        } else if index == 5 {
            Ppu { ppuscroll: value, ..self }
        } else if index == 6 {
            Ppu { ppuaddr: value, ..self }
        } else {
            Ppu { ppudata: value, ..self }
        }
    }

    /// A write to `address` is ignored: during warm-up, when the register it
    /// selects holds 0, 1, 5, 6 or 7.
    pub open spec fn ignores_write(self, address: u16) -> bool {
        let current = self.register(selected_register(address));
        &&& (current == 0 || current == 1 || current == 5 || current == 6 || current == 7)
        &&& self.cycles < WARM_UP_CYCLES
    }

    /// The register that `address` selects.
    pub fn map_addr(&mut self, address: u16) -> (r: &mut u8)
        requires
            0x2000 <= address <= 0x3FFF,
        ensures
            *r == old(self).register(selected_register(address)),
            *final(self) == old(self).with_register(selected_register(address), *final(r)),
    {
        match (address - 0x2000) % 8 {
            0 => &mut self.ppuctrl,
            1 => &mut self.ppumask,
            2 => &mut self.ppustatus,
            3 => &mut self.oamaddr,
            4 => &mut self.oamdata,
            5 => &mut self.ppuscroll,
            6 => &mut self.ppuaddr,
            _ => &mut self.ppudata,
        }
    }

    pub fn read(&mut self, address: u16) -> (r: u8)
        requires
            0x2000 <= address <= 0x3FFF,
        ensures
            r == old(self).register(selected_register(address)),
            *final(self) == *old(self),
    {
        *self.map_addr(address)
    }

    pub fn write(&mut self, address: u16, value: u8)
        requires
            0x2000 <= address <= 0x3FFF,
        ensures
            *final(self) == (if old(self).ignores_write(address) {
                *old(self)
            } else {
                old(self).with_register(selected_register(address), value)
            }),
    {
        match *self.map_addr(address) {
            0 | 1 | 5 | 6 | 7 => {
                if self.cycles < WARM_UP_CYCLES {
                    return ;
                }
            },
            _ => (),
        }
        *self.map_addr(address) = value
    }

    /// The unit is behind a wall-clock target of `target_cycles` cycles and
    /// may run its next cycle.
    pub fn cycle_due(&self, target_cycles: usize) -> (r: bool)
        ensures
            r == (target_cycles > self.cycles),
    {
        target_cycles > self.cycles
    }

    /// Runs one cycle.
    pub fn advance(&mut self)
        ensures
            *final(self) == (Ppu {
                cycles: (if old(self).cycles == usize::MAX {
                    0
                } else {
                    old(self).cycles + 1
                }) as usize,
                ..*old(self)
            }),
    {
        self.cycles = self.cycles.wrapping_add(1)
    }
}

/// Each register address (and its mirrors every eight bytes) selects its own
/// register: `0x2000` PPUCTRL, `0x2001` PPUMASK, `0x2002` PPUSTATUS, `0x2003`
/// OAMADDR, `0x2004` OAMDATA, `0x2005` PPUSCROLL, `0x2006` PPUADDR and
/// `0x2007` PPUDATA; storing into it changes that register only. After
/// warm-up no write is ignored.
pub proof fn lemma_register_addresses(ppu: Ppu, address: u16, value: u8)
    requires
        0x2000 <= address <= 0x3FFF,
    ensures
        ({
            let index = selected_register(address);
            let stored = ppu.with_register(index, value);
            &&& address % 8 == 0 ==> ppu.register(index) == ppu.ppuctrl && stored == (Ppu {
                ppuctrl: value,
                ..ppu
            })
            &&& address % 8 == 1 ==> ppu.register(index) == ppu.ppumask && stored == (Ppu {
                ppumask: value,
                ..ppu
            })
            &&& address % 8 == 2 ==> ppu.register(index) == ppu.ppustatus && stored == (Ppu {
                ppustatus: value,
                ..ppu
            })
            &&& address % 8 == 3 ==> ppu.register(index) == ppu.oamaddr && stored == (Ppu {
                oamaddr: value,
                ..ppu
            })
            &&& address % 8 == 4 ==> ppu.register(index) == ppu.oamdata && stored == (Ppu {
                oamdata: value,
                ..ppu
            })
            &&& address % 8 == 5 ==> ppu.register(index) == ppu.ppuscroll && stored == (Ppu {
                ppuscroll: value,
                ..ppu
            })
            &&& address % 8 == 6 ==> ppu.register(index) == ppu.ppuaddr && stored == (Ppu {
                ppuaddr: value,
                ..ppu
            })
            &&& address % 8 == 7 ==> ppu.register(index) == ppu.ppudata && stored == (Ppu {
                ppudata: value,
                ..ppu
            })
        }),
        ppu.cycles >= WARM_UP_CYCLES ==> !ppu.ignores_write(address),
{
}


} // verus!
