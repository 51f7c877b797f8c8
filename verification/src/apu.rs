use vstd::prelude::*;

verus! {

/// The four registers of a pulse channel.
pub struct Pulse(pub [u8; 4]);

/// The four registers of the triangle channel.
pub struct Triangle(pub [u8; 4]);

/// The four registers of the noise channel.
pub struct Noise(pub [u8; 4]);

/// The four registers of the delta modulation channel.
pub struct Dmc(pub [u8; 4]);

impl Default for Pulse {
    fn default() -> (r: Self)
        ensures
            r.0@ == seq![0u8; 4],
    {
        Pulse([0u8; 4])
    }
}

impl Default for Triangle {
    fn default() -> (r: Self)
        ensures
            r.0@ == seq![0u8; 4],
    {
        Triangle([0u8; 4])
    }
}

impl Default for Noise {
    fn default() -> (r: Self)
        ensures
            r.0@ == seq![0u8; 4],
    {
        Noise([0u8; 4])
    }
}

impl Default for Dmc {
    fn default() -> (r: Self)
        ensures
            r.0@ == seq![0u8; 4],
    {
        Dmc([0u8; 4])
    }
}

/// The audio unit's registers as the CPU sees them at `0x4000..=0x4017`.
pub struct Apu {
    pub pulse1: Pulse,
    pub pulse2: Pulse,
    pub triangle: Triangle,
    pub noise: Noise,
    pub dmc: Dmc,
    pub status: u8,
    pub joy1: u8,
    pub frame_counter: u8,
}

/// The addresses that the audio unit answers: the five channels at
/// `0x4000..=0x4013`, the status register at `0x4015` and the frame counter
/// at `0x4017`.
pub open spec fn apu_mapped(address: u16) -> bool {
    (0x4000 <= address <= 0x4013) || address == 0x4015 || address == 0x4017
}

impl Apu {
    /// Every register zero.
    pub open spec fn is_zeroed(self) -> bool {
        &&& self.pulse1.0@ == seq![0u8; 4]
        &&& self.pulse2.0@ == seq![0u8; 4]
        &&& self.triangle.0@ == seq![0u8; 4]
        &&& self.noise.0@ == seq![0u8; 4]
        &&& self.dmc.0@ == seq![0u8; 4]
        &&& self.status == 0
        &&& self.joy1 == 0
        &&& self.frame_counter == 0
    }

    /// The byte that the register at `address` holds.
    pub open spec fn peek(self, address: u16) -> u8
        recommends
            apu_mapped(address),
    {
        if address <= 0x4003 {
            self.pulse1.0@[address - 0x4000]
        } else if address <= 0x4007 {
            self.pulse2.0@[address - 0x4004]
        } else if address <= 0x400B {
            self.triangle.0@[address - 0x4008]
        } else if address <= 0x400F {
            self.noise.0@[address - 0x400C]
        } else if address <= 0x4013 {
            self.dmc.0@[address - 0x4010]
        } else if address == 0x4015 {
            self.status
        } else {
            self.frame_counter
        }
    }

    /// These registers after `value` was written to the register at `address`.
    pub open spec fn poked(self, address: u16, value: u8) -> Apu
        recommends
            apu_mapped(address),
    {
        if address <= 0x4003 {
            Apu { pulse1: Pulse(vstd::array::spec_array_update(self.pulse1.0, address - 0x4000, value)), ..self }
        } else if address <= 0x4007 {
            Apu { pulse2: Pulse(vstd::array::spec_array_update(self.pulse2.0, address - 0x4004, value)), ..self }
        } else if address <= 0x400B {
            Apu {
                triangle: Triangle(vstd::array::spec_array_update(self.triangle.0, address - 0x4008, value)),
                ..self
            }
        } else if address <= 0x400F {
            Apu { noise: Noise(vstd::array::spec_array_update(self.noise.0, address - 0x400C, value)), ..self }
        } else if address <= 0x4013 {
            Apu { dmc: Dmc(vstd::array::spec_array_update(self.dmc.0, address - 0x4010, value)), ..self }
        } else if address == 0x4015 {
            Apu { status: value, ..self }
        } else {
            Apu { frame_counter: value, ..self }
        }
    }

}

impl Default for Apu {
    fn default() -> (r: Apu)
        ensures
            r.is_zeroed(),
    {
        Apu {
            pulse1: Pulse::default(),
            pulse2: Pulse::default(),
            triangle: Triangle::default(),
            noise: Noise::default(),
            dmc: Dmc::default(),
            status: 0,
            joy1: 0,
            frame_counter: 0,
        }
    }
}

impl Apu {
    /// The register that `address` selects.
    pub fn map_addr(&mut self, address: u16) -> (r: &mut u8)
        requires
            apu_mapped(address),
        ensures
            *r == old(self).peek(address),
            *final(self) == old(self).poked(address, *final(r)),
    {
        match address {
            0x4000..=0x4003 => &mut self.pulse1.0[(address - 0x4000) as usize],
            0x4004..=0x4007 => &mut self.pulse2.0[(address - 0x4004) as usize],
            0x4008..=0x400B => &mut self.triangle.0[(address - 0x4008) as usize],
            0x400C..=0x400F => &mut self.noise.0[(address - 0x400C) as usize],
            0x4010..=0x4013 => &mut self.dmc.0[(address - 0x4010) as usize],
            0x4015 => &mut self.status,
            0x4017 => &mut self.frame_counter,
            _ => {
                assert(false);
                &mut self.frame_counter
            },
        }
    }

    pub fn read(&mut self, address: u16) -> (r: u8)
        requires
            apu_mapped(address),
        ensures
            r == old(self).peek(address),
            *final(self) == *old(self),
    {
        let value = *self.map_addr(address);
        assert(self.pulse1.0 =~= old(self).pulse1.0);
        assert(self.pulse2.0 =~= old(self).pulse2.0);
        assert(self.triangle.0 =~= old(self).triangle.0);
        assert(self.noise.0 =~= old(self).noise.0);
        assert(self.dmc.0 =~= old(self).dmc.0);
        value
    }

    pub fn write(&mut self, address: u16, value: u8)
        requires
            apu_mapped(address),
        ensures
            *final(self) == old(self).poked(address, value),
    {
        *self.map_addr(address) = value
    }
}

/// A write to one audio register is read back from that register and leaves
/// every other register as it was.
pub proof fn lemma_apu_read_after_write(apu: Apu, address: u16, value: u8, other: u16)
    requires
        apu_mapped(address),
        apu_mapped(other),
    ensures
        apu.poked(address, value).peek(other) == (if other == address {
            value
        } else {
            apu.peek(other)
        }),
        apu.poked(address, value).joy1 == apu.joy1,
{
}

/// Each audio address reads and writes its own register: `0x4000..=0x4003`
/// the first pulse channel, `0x4004..=0x4007` the second, `0x4008..=0x400B`
/// the triangle, `0x400C..=0x400F` the noise and `0x4010..=0x4013` the DMC
/// channel, each from its first register on; `0x4015` the status and `0x4017`
/// the frame counter. A write changes that register only.
pub proof fn lemma_apu_register_addresses(apu: Apu, address: u16, value: u8)
    requires
        apu_mapped(address),
    ensures
        ({
            let after = apu.poked(address, value);
            let channel = address / 4;
            let i = (address % 4) as int;
            &&& channel == 0x1000 ==> apu.peek(address) == apu.pulse1.0@[i] && after.pulse1.0@
                == apu.pulse1.0@.update(i, value) && after == (Apu { pulse1: after.pulse1, ..apu })
            &&& channel == 0x1001 ==> apu.peek(address) == apu.pulse2.0@[i] && after.pulse2.0@
                == apu.pulse2.0@.update(i, value) && after == (Apu { pulse2: after.pulse2, ..apu })
            &&& channel == 0x1002 ==> apu.peek(address) == apu.triangle.0@[i] && after.triangle.0@
                == apu.triangle.0@.update(i, value) && after == (Apu {
                triangle: after.triangle,
                ..apu
            })
            &&& channel == 0x1003 ==> apu.peek(address) == apu.noise.0@[i] && after.noise.0@
                == apu.noise.0@.update(i, value) && after == (Apu { noise: after.noise, ..apu })
            &&& channel == 0x1004 ==> apu.peek(address) == apu.dmc.0@[i] && after.dmc.0@
                == apu.dmc.0@.update(i, value) && after == (Apu { dmc: after.dmc, ..apu })
            &&& address == 0x4015 ==> apu.peek(address) == apu.status && after == (Apu {
                status: value,
                ..apu
            })
            &&& address == 0x4017 ==> apu.peek(address) == apu.frame_counter && after == (Apu {
                frame_counter: value,
                ..apu
            })
        }),
{
}


} // verus!
