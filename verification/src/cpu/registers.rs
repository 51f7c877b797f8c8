use vstd::prelude::*;

verus! {

/// Mask of the carry flag in the status register.
pub const CARRY: u8 = 0b0000_0001;
/// Mask of the zero flag in the status register.
pub const ZERO: u8 = 0b0000_0010;
/// Mask of the overflow flag in the status register.
pub const OVERFLOW: u8 = 0b0100_0000;
/// Mask of the negative flag in the status register.
pub const NEGATIVE: u8 = 0b1000_0000;

/// The 6502 register file: accumulator, index registers, program counter,
/// stack pointer and processor status.
pub struct Registers {
    pub a: u8,
    pub x: u8,
    pub y: u8,
    pub pc: u16,
    pub s: u8,
    pub p: u8,
}

/// The status byte `p` with the flag `mask` set when `set` holds and cleared otherwise.
pub open spec fn with_flag(p: u8, mask: u8, set: bool) -> u8 {
    if set {
        p | mask
    } else {
        p & !mask
    }
}

/// The masks of the four flags that `Registers` reads and writes one by one.
pub open spec fn is_flag_mask(mask: u8) -> bool {
    mask == CARRY || mask == ZERO || mask == OVERFLOW || mask == NEGATIVE
}

impl Registers {
    /// The registers as they stand at power-up, before the reset vector is read.
    pub open spec fn power_up() -> Registers {
        Registers { a: 0, x: 0, y: 0, pc: 0xFFFC, s: 0xFD, p: 0b0000_0100 }
    }

    /// These registers with the status byte replaced by `p`.
    pub open spec fn with_p(self, p: u8) -> Registers {
        Registers { p: p, ..self }
    }
}

impl Default for Registers {
    fn default() -> (r: Registers)
        ensures
            r == Registers::power_up(),
    {
        Registers { a: 0, x: 0, y: 0, pc: 0xFFFC, s: 0xFD, p: 0b0000_0100 }
    }
}

impl Registers {
    pub fn get_carry(&self) -> (r: u8)
        ensures
            r == self.p & CARRY,
    {
        self.p & 0b0000_0001
    }

    pub fn set_carry(&mut self, set: bool)
        ensures
            *final(self) == old(self).with_p(with_flag(old(self).p, CARRY, set)),
    {
        if set {
            self.p |= 0b0000_0001;
        } else {
            self.p &= 0b1111_1110;
            assert(0b1111_1110u8 == !CARRY) by (bit_vector);
        }
    }

    pub fn toggle_carry(&mut self)
        ensures
            *final(self) == old(self).with_p(old(self).p ^ CARRY),
    {
        self.p ^= 0b0000_0001;
    }

    pub fn get_zero(&self) -> (r: u8)
        ensures
            r == self.p & ZERO,
    {
        self.p & 0b0000_0010
    }

    pub fn set_zero(&mut self, set: bool)
        ensures
            *final(self) == old(self).with_p(with_flag(old(self).p, ZERO, set)),
    {
        if set {
            self.p |= 0b0000_0010;
        } else {
            self.p &= 0b1111_1101;
            assert(0b1111_1101u8 == !ZERO) by (bit_vector);
        }
    }

    pub fn toggle_zero(&mut self)
        ensures
            *final(self) == old(self).with_p(old(self).p ^ ZERO),
    {
        self.p ^= 0b0000_0010;
    }

    pub fn get_overflow(&self) -> (r: u8)
        ensures
            r == self.p & OVERFLOW,
    {
        self.p & 0b0100_0000
    }

    pub fn set_overflow(&mut self, set: bool)
        ensures
            *final(self) == old(self).with_p(with_flag(old(self).p, OVERFLOW, set)),
    {
        if set {
            self.p |= 0b0100_0000;
        } else {
            self.p &= 0b1011_1111;
            assert(0b1011_1111u8 == !OVERFLOW) by (bit_vector);
        }
    }

    pub fn toggle_overflow(&mut self)
        ensures
            *final(self) == old(self).with_p(old(self).p ^ OVERFLOW),
    {
        self.p ^= 0b0100_0000;
    }

    pub fn get_negative(&self) -> (r: u8)
        ensures
            r == self.p & NEGATIVE,
    {
        self.p & 0b1000_0000
    }

    pub fn set_negative(&mut self, set: bool)
        ensures
            *final(self) == old(self).with_p(with_flag(old(self).p, NEGATIVE, set)),
    {
        if set {
            self.p |= 0b1000_0000;
        } else {
            self.p &= 0b0111_1111;
            assert(0b0111_1111u8 == !NEGATIVE) by (bit_vector);
        }
    }

    pub fn toggle_negative(&mut self)
        ensures
            *final(self) == old(self).with_p(old(self).p ^ NEGATIVE),
    {
        self.p ^= 0b1000_0000;
    }

    pub fn pc_hi(&self) -> (r: u8)
        ensures
            r == self.pc / 256,
    {
        let pc = self.pc;
        assert((pc >> 8) == pc / 256) by (bit_vector);
        (pc >> 8) as u8
    }

    pub fn pc_lo(&self) -> (r: u8)
        ensures
            r == self.pc % 256,
    {
        let pc = self.pc;
        assert((pc & 0xFF) == pc % 256) by (bit_vector);
        (pc & 0xFF) as u8
    }
}

/// The four flags that `Registers` handles one by one sit in the status byte
/// as on the 6502: carry in bit 0, zero in bit 1, overflow in bit 6 and
/// negative in bit 7.
pub proof fn lemma_flag_positions(p: u8)
    ensures
        p & CARRY == p % 2,
        p & ZERO == (p / 2) % 2 * 2,
        p & OVERFLOW == (p / 64) % 2 * 64,
        p & NEGATIVE == (p / 128) * 128,
{
    assert(p & 1u8 == p % 2) by (bit_vector);
    assert(p & 2u8 == (p / 2) % 2 * 2) by (bit_vector);
    assert(p & 64u8 == (p / 64) % 2 * 64) by (bit_vector);
    assert(p & 128u8 == (p / 128) * 128) by (bit_vector);
}


/// Setting a flag and reading it back gives the flag's mask when it was set and
/// zero when it was cleared.
pub proof fn lemma_flag_set_get(p: u8, mask: u8, set: bool)
    requires
        is_flag_mask(mask),
    ensures
        with_flag(p, mask, set) & mask == (if set { mask } else { 0u8 }),
{
    if set {
        assert((p | 1u8) & 1u8 == 1u8) by (bit_vector);
        assert((p | 2u8) & 2u8 == 2u8) by (bit_vector);
        assert((p | 0x40u8) & 0x40u8 == 0x40u8) by (bit_vector);
        assert((p | 0x80u8) & 0x80u8 == 0x80u8) by (bit_vector);
    } else {
        assert((p & !1u8) & 1u8 == 0u8) by (bit_vector);
        assert((p & !2u8) & 2u8 == 0u8) by (bit_vector);
        assert((p & !0x40u8) & 0x40u8 == 0u8) by (bit_vector);
        assert((p & !0x80u8) & 0x80u8 == 0u8) by (bit_vector);
    }
}

/// Setting or clearing one flag leaves every other bit of the status byte as it was.
pub proof fn lemma_flag_set_frame(p: u8, mask: u8, set: bool)
    requires
        is_flag_mask(mask),
    ensures
        with_flag(p, mask, set) & !mask == p & !mask,
{
    assert(forall|p: u8, m: u8| #[trigger] ((p | m) & !m) == p & !m) by (bit_vector);
    assert(forall|p: u8, m: u8| #[trigger] ((p & !m) & !m) == p & !m) by (bit_vector);
}

/// Toggling a flag twice gives the status byte back.
pub proof fn lemma_flag_toggle_involutive(p: u8, mask: u8)
    ensures
        (p ^ mask) ^ mask == p,
{
    assert((p ^ mask) ^ mask == p) by (bit_vector);
}

/// The high and low bytes of the program counter put back together give the
/// program counter.
pub proof fn lemma_pc_bytes(pc: u16)
    ensures
        (((pc / 256) as u16) << 8u16) | ((pc % 256) as u16) == pc,
{
    assert(((pc >> 8u16) << 8u16) | (pc & 0xFFu16) == pc) by (bit_vector);
    assert(pc >> 8u16 == pc / 256) by (bit_vector);
    assert(pc & 0xFFu16 == pc % 256) by (bit_vector);
}

} // verus!
