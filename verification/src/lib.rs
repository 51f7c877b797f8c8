pub mod apu;
pub mod cart;
pub mod cpu;
pub mod mmap;
pub mod ppu;

use vstd::prelude::*;

pub use crate::cart::Cart;
use crate::cpu::{Cpu, CpuVersion};

verus! {

/// The television systems and regional consoles.
#[derive(Debug, Clone, Copy, PartialEq, Eq, Structural)]
pub enum SystemType {
    NTSC,
    PAL,
    Dendy,
    RGB,
    Brazil,
    Argentina,
}

impl SystemType {
    /// The CPU chip that a system was built with.
    pub fn cpu(self) -> (r: CpuVersion)
        ensures
            r == (match self {
                SystemType::NTSC | SystemType::RGB => CpuVersion::Ricoh2A03,
                SystemType::PAL => CpuVersion::Ricoh2A07,
                SystemType::Dendy => CpuVersion::UMCUA6527P,
                SystemType::Brazil | SystemType::Argentina => CpuVersion::UMCUA6527,
            }),
    {
        match self {
            Self::NTSC | Self::RGB => CpuVersion::Ricoh2A03,
            Self::PAL => CpuVersion::Ricoh2A07,
            Self::Dendy => CpuVersion::UMCUA6527P,
            Self::Brazil | Self::Argentina => CpuVersion::UMCUA6527,
        }
    }
}

/// The console.
pub struct Nes {
    pub cpu: Cpu,
}

impl Nes {
    /// Powers the console up with `cart` inserted.
    pub fn new(cart: Cart) -> (r: Self)
        ensures
            r.cpu.powered_up(cart),
    {
        Self { cpu: Cpu::new(cart) }
    }

    /// Runs one CPU step.
    pub fn step(&mut self)
        requires
            old(self).cpu.can_step(),
        ensures
            Cpu::stepped(old(self).cpu, final(self).cpu),
    {
        self.cpu.step();
    }
}

} // verus!
