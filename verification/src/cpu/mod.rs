use vstd::prelude::*;

use crate::cart::Cart;
use crate::cpu::opcodes::{decode_table, AddressingMode, Instruction, Operation};
pub use crate::cpu::registers::Registers;
use crate::cpu::registers::{with_flag, CARRY, NEGATIVE, OVERFLOW, ZERO};
use crate::mmap::{can_access, mapped, read_bus, read_value, MemoryMap};

pub mod opcodes;
pub mod registers;

verus! {

/// The CPU chips that NES variants were built with.
#[derive(Debug, Clone, Copy, PartialEq, Eq, Structural)]
pub enum CpuVersion {
    Ricoh2A03,
    Ricoh2A07,
    UMCUA6527P,
    UMCUA6527,
}

impl CpuVersion {
    /// The master clock rate in Hz; only the Ricoh 2A03's is known.
    pub fn clock(&self) -> (r: usize)
        requires
            *self is Ricoh2A03,
        ensures
            r == 21_447_272,
    {
        match self {
            CpuVersion::Ricoh2A03 => 21_447_272,
            _ => {
                assert(false);
                0
            },
        }
    }
}

/// The operand that an addressing mode hands to an instruction: one byte, or
/// a 16-bit address.
#[derive(Debug, Clone, Copy, PartialEq, Eq, Structural)]
pub enum OpArg {
    One(u8),
    Two(u16),
}

/// `x + y` on 16 bits, wrapping around.
pub open spec fn add16(x: u16, y: int) -> u16 {
    ((x + y) % 0x10000) as u16
}

/// `x - y` on 8 bits, wrapping around.
pub open spec fn sub8(x: u8, y: int) -> u8 {
    ((x - y + 0x100) % 0x100) as u8
}

/// A byte read as a signed offset and widened to 16 bits.
pub open spec fn sign_extend(b: u8) -> u16 {
    if b < 128 {
        b as u16
    } else {
        (b + 0xFF00) as u16
    }
}

/// The stack address of stack pointer value `s`.
pub open spec fn stack_address(s: u8) -> u16 {
    (0x100 + s) as u16
}

/// The operand that `execute` takes from an operation: nothing for implicit
/// operations, the first byte for immediate and relative ones, and for
/// absolute ones the first byte shifted left by eight and masked with the
/// second (a mask that always gives zero).
pub open spec fn operand(op: Operation) -> Option<OpArg> {
    match op.mode {
        AddressingMode::Immediate | AddressingMode::Relative => Some(OpArg::One(op.arg1.unwrap())),
        AddressingMode::Absolute => Some(
            OpArg::Two(((op.arg1.unwrap() as u16) << 8u16) & (op.arg2.unwrap() as u16)),
        ),
        _ => None,
    }
}

/// The operations that `execute` carries out without stopping, for a stack
/// pointer `s`.
pub open spec fn executable(op: Operation, s: u8) -> bool {
    &&& match op.mode {
        AddressingMode::Implicit => true,
        AddressingMode::Immediate | AddressingMode::Relative => op.arg1 is Some,
        AddressingMode::Absolute => op.arg1 is Some && op.arg2 is Some,
        _ => false,
    }
    &&& match op.instruction {
        Instruction::BRK | Instruction::CLD | Instruction::SEI => true,
        Instruction::LDA | Instruction::BPL => op.mode is Immediate || op.mode is Relative,
        Instruction::STA => op.mode is Absolute,
        Instruction::JSR => op.mode is Absolute && s >= 2,
        _ => false,
    }
}

/// The operations that write to memory.
pub open spec fn writes_memory(op: Operation) -> bool {
    op.instruction is BRK || op.instruction is STA || op.instruction is JSR
}

/// The registers after `execute` carried out `op`.
pub open spec fn executed_registers(r: Registers, op: Operation) -> Registers {
    match op.instruction {
        Instruction::BRK => Registers { s: sub8(r.s, 3), pc: 0xFFFE, ..r },
        Instruction::CLD => r.with_p(r.p & 0b1111_0111),
        Instruction::SEI => r.with_p(r.p & 0b1111_1011),
        Instruction::LDA => Registers { a: op.arg1.unwrap(), ..r },
        Instruction::BPL => if r.p & NEGATIVE != 0 {
            r
        } else {
            Registers { pc: add16(r.pc, sign_extend(op.arg1.unwrap()) as int), ..r }
        },
        Instruction::JSR => Registers { s: sub8(r.s, 2), pc: operand(op).unwrap()->Two_0, ..r },
        _ => r,
    }
}

/// The memory map after `execute` carried out `op` with registers `r`.
pub open spec fn executed_memory(m: MemoryMap, r: Registers, op: Operation) -> MemoryMap {
    match op.instruction {
        Instruction::BRK => m.poked(stack_address(r.s), (r.pc / 256) as u8).poked(
            stack_address(sub8(r.s, 1)),
            (r.pc % 256) as u8,
        ).poked(stack_address(sub8(r.s, 2)), r.p | 0b0011_0000),
        Instruction::STA => m.poked(operand(op).unwrap()->Two_0, r.a),
        Instruction::JSR => m.poked(stack_address(r.s), (r.pc / 256) as u8).poked(
            stack_address(sub8(r.s, 1)),
            (r.pc % 256) as u8,
        ),
        _ => m,
    }
}

/// The absolute operand is always zero.
pub proof fn lemma_absolute_operand_is_zero(arg1: u8, arg2: u8)
    ensures
        ((arg1 as u16) << 8u16) & (arg2 as u16) == 0,
{
    assert(((arg1 as u16) << 8u16) & (arg2 as u16) == 0) by (bit_vector);
}

/// `x + y` on bytes, wrapping around, with whether it wrapped.
pub fn overflowing_add(x: u8, y: u8) -> (r: (u8, bool))
    ensures
        r.0 == (x + y) % 256,
        r.1 == (x + y > 255),
{
    let sum = x as u16 + y as u16;
    if sum > 255 {
        ((sum - 256) as u8, true)
    } else {
        (sum as u8, false)
    }
}

/// The cycle counter `c` advanced by `n`, wrapping around the machine word.
pub open spec fn add_cycles(c: usize, n: int) -> usize {
    ((c + n) % (usize::MAX + 1)) as usize
}

/// Advancing the cycle counter by one more cycle wraps around as
/// `wrapping_add` does.
proof fn lemma_add_cycles_step(c: usize, n: int)
    requires
        n >= 0,
    ensures
        add_cycles(c, n + 1) == (if add_cycles(c, n) == usize::MAX {
            0
        } else {
            add_cycles(c, n) + 1
        }),
{
    let m = usize::MAX + 1;
    vstd::arithmetic::div_mod::lemma_mod_adds(c + n, 1, m);
    vstd::arithmetic::div_mod::lemma_small_mod(1, m as nat);
    if (c + n) % m + 1 == m {
        vstd::arithmetic::div_mod::lemma_add_mod_noop(c + n, 1, m);
        vstd::arithmetic::div_mod::lemma_mod_self_0(m);
    }
}

/// Advancing the cycle counter by `a` and then by `b` advances it by `a + b`.
pub proof fn lemma_add_cycles_compose(c: usize, a: int, b: int)
    requires
        a >= 0,
        b >= 0,
    ensures
        add_cycles(add_cycles(c, a), b) == add_cycles(c, a + b),
{
    let m = usize::MAX + 1;
    vstd::arithmetic::div_mod::lemma_add_mod_noop_right(b, c + a, m);
}

/// The registers after adding `arg` and the carry to the accumulator: the
/// sum in the accumulator, carry set when the sum passed 255, zero and
/// negative from the sum, and overflow set when the old accumulator, `arg`
/// and the sum all have bit 7 set.
pub open spec fn added_with_carry(r: Registers, arg: u8) -> Registers {
    let sum = r.a + arg + (r.p & CARRY);
    let value = (sum % 256) as u8;
    let p = with_flag(r.p, CARRY, sum > 255);
    let p = with_flag(p, ZERO, value == 0);
    let p = with_flag(p, OVERFLOW, r.a >= 128 && arg >= 128 && value >= 128);
    let p = with_flag(p, NEGATIVE, value >= 128);
    Registers { a: value, p: p, ..r }
}

/// The registers after the accumulator was masked with `arg`: zero and
/// negative from the result.
pub open spec fn anded(r: Registers, arg: u8) -> Registers {
    let value = r.a & arg;
    let p = with_flag(r.p, ZERO, value == 0);
    let p = with_flag(p, NEGATIVE, value >= 128);
    Registers { a: value, p: p, ..r }
}

/// A byte shifted left by one, dropping bit 7.
pub open spec fn shifted_left(v: u8) -> u8 {
    ((v * 2) % 256) as u8
}

/// The status byte after a left shift whose result is `value`: carry and
/// negative from bit 7 of the result, zero when it is zero.
pub open spec fn shift_flags(p: u8, value: u8) -> u8 {
    let p = with_flag(p, CARRY, value >= 128);
    let p = with_flag(p, ZERO, value == 0);
    with_flag(p, NEGATIVE, value >= 128)
}

/// The program counter after a taken branch: past the two-byte branch
/// instruction, then moved by the signed offset.
pub open spec fn branch_target(pc: u16, offset: u8) -> u16 {
    add16(add16(pc, 2), sign_extend(offset) as int)
}

/// The registers after a branch that is taken when `taken` holds.
pub open spec fn branched(r: Registers, taken: bool, offset: u8) -> Registers {
    if taken {
        Registers { pc: branch_target(r.pc, offset), ..r }
    } else {
        r
    }
}

/// The registers after testing the accumulator against `arg`: zero from
/// their conjunction, overflow and negative from bits 6 and 7 of `arg`.
pub open spec fn bit_tested(r: Registers, arg: u8) -> Registers {
    let p = with_flag(r.p, ZERO, r.a & arg == 0);
    let p = with_flag(p, OVERFLOW, arg & 0b0100_0000 == 0b0100_0000);
    let p = with_flag(p, NEGATIVE, arg & 0b1000_0000 == 0b1000_0000);
    r.with_p(p)
}

/// `pc + 2 + offset` as the branch instructions compute it.
fn branch_destination(pc: u16, destination: u8) -> (r: u16)
    ensures
        r == branch_target(pc, destination),
{
    assert(destination < 128 ==> (destination as i8 as i16 as u16) == destination as u16)
        by (bit_vector);
    assert(destination >= 128 ==> (destination as i8 as i16 as u16) == (destination as u16)
        + 0xFF00u16) by (bit_vector);
    pc.wrapping_add(2).wrapping_add(destination as i8 as i16 as u16)
}

/// A byte read as a two's-complement number.
pub open spec fn signed(b: u8) -> int {
    if b < 128 {
        b as int
    } else {
        b - 256
    }
}

/// A taken branch lands `2 + offset` bytes after the branch instruction, the
/// offset read as a signed byte, wrapping around the 16-bit address space.
pub proof fn lemma_branch_target(pc: u16, offset: u8)
    ensures
        branch_target(pc, offset) as int == (pc + 2 + signed(offset) + 0x10000) % 0x10000,
{
}

/// Adding with carry: the accumulator takes the low byte of accumulator,
/// operand and carry bit (bit 0 of P); bit 0 of P then says whether the sum
/// passed 255, bit 1 whether the result is zero, bit 7 whether the result has
/// bit 7 set, bit 6 whether accumulator, operand and result all have bit 7
/// set; the other bits of P stay.
pub proof fn lemma_add_with_carry(r: Registers, arg: u8)
    ensures
        ({
            let carry_in = r.p % 2;
            let sum = r.a + arg + carry_in;
            let after = added_with_carry(r, arg);
            &&& after.a == sum % 256
            &&& (after.p & 1 == 1) == (sum > 255)
            &&& (after.p & 2 == 2) == (sum % 256 == 0)
            &&& (after.p & 0x80 == 0x80) == (sum % 256 >= 128)
            &&& (after.p & 0x40 == 0x40) == (r.a >= 128 && arg >= 128 && sum % 256 >= 128)
            &&& after.p & 0x3C == r.p & 0x3C
            &&& after == (Registers { a: after.a, p: after.p, ..r })
        }),
{
    let p = r.p;
    assert(p & 1u8 == p % 2) by (bit_vector);
    let sum = r.a + arg + (p & 1u8);
    let v = (sum % 256) as u8;
    lemma_four_flags(p, sum > 255, v == 0, r.a >= 128 && arg >= 128 && v >= 128, v >= 128);
}

/// Setting carry, zero, overflow and negative in turn gives a status byte
/// whose bits 0, 1, 6 and 7 are the four flags and whose other bits are as
/// before.
proof fn lemma_four_flags(p: u8, c: bool, z: bool, o: bool, n: bool)
    ensures
        ({
            let q = with_flag(
                with_flag(with_flag(with_flag(p, 1u8, c), 2u8, z), 0x40u8, o),
                0x80u8,
                n,
            );
            &&& (q & 1u8 == 1u8) == c
            &&& (q & 2u8 == 2u8) == z
            &&& (q & 0x40u8 == 0x40u8) == o
            &&& (q & 0x80u8 == 0x80u8) == n
            &&& q & 0x3Cu8 == p & 0x3Cu8
        }),
{
    assert({
        let q = (if n {
            (if o {
                (if z {
                    (if c { p | 1u8 } else { p & !1u8 }) | 2u8
                } else {
                    (if c { p | 1u8 } else { p & !1u8 }) & !2u8
                }) | 0x40u8
            } else {
                (if z {
                    (if c { p | 1u8 } else { p & !1u8 }) | 2u8
                } else {
                    (if c { p | 1u8 } else { p & !1u8 }) & !2u8
                }) & !0x40u8
            }) | 0x80u8
        } else {
            (if o {
                (if z {
                    (if c { p | 1u8 } else { p & !1u8 }) | 2u8
                } else {
                    (if c { p | 1u8 } else { p & !1u8 }) & !2u8
                }) | 0x40u8
            } else {
                (if z {
                    (if c { p | 1u8 } else { p & !1u8 }) | 2u8
                } else {
                    (if c { p | 1u8 } else { p & !1u8 }) & !2u8
                }) & !0x40u8
            }) & !0x80u8
        });
        &&& (q & 1u8 == 1u8) == c
        &&& (q & 2u8 == 2u8) == z
        &&& (q & 0x40u8 == 0x40u8) == o
        &&& (q & 0x80u8 == 0x80u8) == n
        &&& q & 0x3Cu8 == p & 0x3Cu8
    }) by (bit_vector);
}

/// Every stack address lies in page one of internal RAM.
pub proof fn lemma_stack_in_page_one(s: u8)
    ensures
        0x100 <= stack_address(s) <= 0x1FF,
        mapped(stack_address(s)),
{
}

/// The CPU: its version, its registers, the memory map it drives and the
/// number of clock cycles it has spent (modulo the machine word).
pub struct Cpu {
    pub version: CpuVersion,
    pub registers: Registers,
    pub mmap: MemoryMap,
    pub cycle_count: usize,
}

impl Cpu {
    /// The program counter read from the reset vector at `0xFFFC`.
    pub open spec fn reset_vector(cart: Cart) -> u16 {
        (cart.rom@[0x7FFC] + 256 * cart.rom@[0x7FFD]) as u16
    }

    /// `self` is the CPU at power-up with `cart` inserted: power-up
    /// registers, except the program counter that the reset vector gives, a
    /// fresh memory map around `cart`, and no cycles spent.
    pub open spec fn powered_up(self, cart: Cart) -> bool {
        &&& self.version is Ricoh2A03
        &&& self.registers == (Registers {
            pc: Cpu::reset_vector(cart),
            ..Registers::power_up()
        })
        &&& self.mmap.fresh(cart)
        &&& self.cycle_count == 0
    }

    /// The memory map's buses after the first `k` code bytes (up to three)
    /// were read.
    pub open spec fn fetch_bus(self, k: int) -> (nat, Seq<u8>) {
        let pc = self.registers.pc;
        let b0 = self.mmap.bus();
        let b1 = read_bus(self.mmap, b0, pc);
        let b2 = read_bus(self.mmap, b1, add16(pc, 1));
        let b3 = read_bus(self.mmap, b2, add16(pc, 2));
        if k <= 0 {
            b0
        } else if k == 1 {
            b1
        } else if k == 2 {
            b2
        } else {
            b3
        }
    }

    /// The byte that the read of the code byte `k` places after the program
    /// counter returns.
    pub open spec fn code_byte(self, k: int) -> u8 {
        read_value(self.mmap, self.fetch_bus(k), add16(self.registers.pc, k))
    }

    /// The three bytes at the program counter are read without stopping.
    pub open spec fn can_fetch(self) -> bool {
        &&& self.mmap.wf()
        &&& can_access(self.fetch_bus(0), add16(self.registers.pc, 0))
        &&& can_access(self.fetch_bus(1), add16(self.registers.pc, 1))
        &&& can_access(self.fetch_bus(2), add16(self.registers.pc, 2))
    }

    /// The operation at the program counter.
    pub open spec fn next_operation(self) -> Operation {
        Operation::decoded(self.code_byte(0), self.code_byte(1), self.code_byte(2))
    }

    /// `step` runs without stopping from this state: the code bytes are
    /// read without stopping, the opcode decodes, its operation is one that
    /// `execute` carries out, and when it writes to memory no address waits
    /// on the address bus after the fetch.
    pub open spec fn can_step(self) -> bool {
        &&& self.can_fetch()
        &&& decode_table(self.code_byte(0)) is Some
        &&& executable(self.next_operation(), self.registers.s)
        &&& writes_memory(self.next_operation()) ==> self.fetch_bus(3).0 == 0
    }

    /// `new` is the state after one `step` from `old`: the code bytes read,
    /// the operation at the program counter carried out, then the program
    /// counter moved on by two.
    pub open spec fn stepped(old: Cpu, new: Cpu) -> bool {
        let op = old.next_operation();
        let r = executed_registers(old.registers, op);
        &&& new.registers == (Registers { pc: add16(r.pc, 2), ..r })
        &&& new.mmap.same_devices(executed_memory(old.mmap, old.registers, op))
        &&& new.mmap.bus() == old.fetch_bus(3)
        &&& new.mmap.wf()
        &&& new.version == old.version
        &&& new.cycle_count == old.cycle_count
    }

    /// `self` and `other` are the same CPU, buses included.
    pub open spec fn same(self, other: Cpu) -> bool {
        &&& self.registers == other.registers
        &&& self.mmap.same(other.mmap)
        &&& self.version == other.version
        &&& self.cycle_count == other.cycle_count
    }

    /// What one step does, by the opcode byte at the program counter, with
    /// `b1` the byte after it: LDA `#b1` loads the accumulator; CLD clears bit
    /// 3 and SEI bit 2 of P; BPL branches by `b1` (signed, from the next
    /// instruction) when bit 7 of P is clear; STA absolute stores the
    /// accumulator at address 0; JSR pushes the high then the low byte of the
    /// program counter, drops the stack pointer by two and continues at 2;
    /// BRK pushes the program counter and P with bits 4 and 5 set, drops the
    /// stack pointer by three and continues at 0. Every other step moves the
    /// program counter on by two; only internal RAM is written.
    #[verifier::rlimit(60)]
    #[verifier::spinoff_prover]
    pub proof fn lemma_step_by_opcode(old: Cpu, new: Cpu)
        requires
            old.can_step(),
            Cpu::stepped(old, new),
        ensures
            ({
                let op = old.code_byte(0);
                let b1 = old.code_byte(1);
                let r = old.registers;
                let n = new.registers;
                let next = ((r.pc + 2) % 0x10000) as u16;
                let ram = old.mmap.ram.0@;
                let ram_after = new.mmap.ram.0@;
                &&& new.mmap.same_but_ram(old.mmap)
                &&& op == 0xA9 ==> n == (Registers { a: b1, pc: next, ..r }) && ram_after == ram
                &&& op == 0xD8 ==> n == (Registers { p: r.p & 0xF7, pc: next, ..r }) && ram_after
                    == ram
                &&& op == 0x78 ==> n == (Registers { p: r.p & 0xFB, pc: next, ..r }) && ram_after
                    == ram
                &&& op == 0x10 ==> n == (Registers {
                    pc: if r.p & 0x80 == 0 {
                        ((r.pc + 2 + signed(b1) + 0x10000) % 0x10000) as u16
                    } else {
                        next
                    },
                    ..r
                }) && ram_after == ram
                &&& op == 0x8D ==> n == (Registers { pc: next, ..r }) && ram_after == ram.update(
                    0,
                    r.a,
                )
                &&& op == 0x20 ==> n == (Registers { s: (r.s - 2) as u8, pc: 2, ..r })
                    && ram_after == ram.update(0x100 + r.s, (r.pc / 256) as u8).update(
                    0x100 + r.s - 1,
                    (r.pc % 256) as u8,
                )
                &&& op == 0x00 ==> n == (Registers {
                    s: ((r.s + 253) % 256) as u8,
                    pc: 0,
                    ..r
                }) && ram_after == ram.update(0x100 + r.s, (r.pc / 256) as u8).update(
                    0x100 + (r.s + 255) % 256,
                    (r.pc % 256) as u8,
                ).update(0x100 + (r.s + 254) % 256, r.p | 0x30)
            }),
    {
        let op = old.next_operation();
        let m = old.mmap;
        let r = old.registers;
        let b0 = old.code_byte(0);
        assert(op.instruction == decode_table(b0).unwrap().0);
        if b0 == 0x8D {
            lemma_absolute_operand_is_zero(op.arg1.unwrap(), op.arg2.unwrap());
            crate::mmap::lemma_ram_addresses(m, 0, r.a);
        } else if b0 == 0x20 || b0 == 0x00 {
            if b0 == 0x20 {
                lemma_absolute_operand_is_zero(op.arg1.unwrap(), op.arg2.unwrap());
            }
            let hi = (r.pc / 256) as u8;
            let lo = (r.pc % 256) as u8;
            let m1 = m.poked(stack_address(r.s), hi);
            crate::mmap::lemma_ram_addresses(m, stack_address(r.s), hi);
            crate::mmap::lemma_ram_addresses(m1, stack_address(sub8(r.s, 1)), lo);
            if b0 == 0x00 {
                let m2 = m1.poked(stack_address(sub8(r.s, 1)), lo);
                crate::mmap::lemma_ram_addresses(m2, stack_address(sub8(r.s, 2)), r.p | 0b0011_0000);
            }
        } else if b0 == 0x10 {
            lemma_branch_target(r.pc, op.arg1.unwrap());
        }
    }

    /// A step writes only to internal RAM: the picture and audio registers,
    /// the test bytes and the cartridge stay as they were.
    pub proof fn lemma_step_writes_only_ram(old: Cpu, new: Cpu)
        requires
            old.can_step(),
            Cpu::stepped(old, new),
        ensures
            new.mmap.same_but_ram(old.mmap),
    {
        let op = old.next_operation();
        if op.instruction is STA {
            lemma_absolute_operand_is_zero(op.arg1.unwrap(), op.arg2.unwrap());
        }
    }

    /// The opcodes that a step carries out: BRK, CLD, SEI, LDA immediate,
    /// BPL, STA absolute, and JSR when the stack holds two more bytes.
    pub proof fn lemma_steppable_opcodes(cpu: Cpu)
        requires
            cpu.can_fetch(),
        ensures
            cpu.can_step() <==> {
                let op = cpu.code_byte(0);
                let idle = cpu.fetch_bus(3).0 == 0;
                ||| op == 0xD8 || op == 0x78 || op == 0xA9 || op == 0x10
                ||| (op == 0x00 || op == 0x8D) && idle
                ||| op == 0x20 && cpu.registers.s >= 2 && idle
            },
    {
    }

    /// Powers up with `cart` inserted and loads the program counter from the
    /// reset vector.
    pub fn new(cart: Cart) -> (r: Self)
        ensures
            r.powered_up(cart),
    {
        let mut registers = Registers::default();
        let mut mmap = MemoryMap::new(cart);
        proof {
            crate::mmap::lemma_idle_access(mmap, 0xFFFC, 0);
            crate::mmap::lemma_idle_access(mmap, 0xFFFD, 0);
        }
        let lobyte = mmap.read(0xFFFC);
        let hibyte = mmap.read(0xFFFD);
        registers.pc = ((hibyte as u16) << 8) | lobyte as u16;
        assert(((hibyte as u16) << 8u16) | (lobyte as u16) == lobyte + 256 * hibyte) by (bit_vector);
        Self { version: CpuVersion::Ricoh2A03, registers, mmap, cycle_count: 0 }
    }

    /// Fetches, decodes and executes the operation at the program counter,
    /// then moves the program counter on by two.
    pub fn step(&mut self)
        requires
            old(self).can_step(),
        ensures
            Cpu::stepped(*old(self), *final(self)),
    {
        let ghost before = *self;
        let bytes = self.fetch();
        let op = self.decode(bytes);
        self.execute(op);
        self.registers.pc = self.registers.pc.wrapping_add(2);
    }

    /// Tells whether `step` runs without stopping from this state.
    pub fn step_supported(&mut self) -> (r: bool)
        requires
            old(self).mmap.wf(),
        ensures
            r == old(self).can_step(),
            final(self).same(*old(self)),
            final(self).mmap.wf(),
    {
        let pc = self.registers.pc;
        let pc1 = pc.wrapping_add(1);
        let pc2 = pc.wrapping_add(2);
        let test0 = 0x4018 <= pc && pc <= 0x401F;
        let test1 = 0x4018 <= pc1 && pc1 <= 0x401F;
        let test2 = 0x4018 <= pc2 && pc2 <= 0x401F;
        let idle0 = self.mmap.address.len() == 0;
        let idle1 = idle0 && !test0;
        let idle2 = idle1 && !test1;
        let idle3 = idle2 && !test2;
        if !(test0 || (idle0 && crate::mmap::is_mapped(pc))) {
            return false;
        }
        if !(test1 || (idle1 && crate::mmap::is_mapped(pc1))) {
            return false;
        }
        if !(test2 || (idle2 && crate::mmap::is_mapped(pc2))) {
            return false;
        }
        let opbyte = self.mmap.peek_read(pc);
        assert(opbyte == old(self).code_byte(0));
        match opbyte {
            0xD8 | 0x78 | 0xA9 | 0x10 => true,
            0x00 | 0x8D => idle3,
            0x20 => idle3 && self.registers.s >= 2,
            _ => false,
        }
    }

    /// The three bytes at the program counter.
    pub fn fetch(&mut self) -> (r: [u8; 3])
        requires
            old(self).can_fetch(),
        ensures
            r@ == seq![old(self).code_byte(0), old(self).code_byte(1), old(self).code_byte(2)],
            final(self).registers == old(self).registers,
            final(self).mmap.same_devices(old(self).mmap),
            final(self).mmap.bus() == old(self).fetch_bus(3),
            final(self).mmap.wf(),
            final(self).version == old(self).version,
            final(self).cycle_count == old(self).cycle_count,
    {
        let mut output: [u8; 3] = [0; 3];
        let mut i: usize = 0;
        while i < 3
            invariant
                i <= 3,
                old(self).can_fetch(),
                self.registers == old(self).registers,
                self.mmap.same_devices(old(self).mmap),
                self.mmap.bus() == old(self).fetch_bus(i as int),
                self.mmap.wf(),
                self.version == old(self).version,
                self.cycle_count == old(self).cycle_count,
                forall|j: int| 0 <= j < i ==> output@[j] == old(self).code_byte(j),
            decreases 3 - i,
        {
            output[i] = self.mmap.read(self.registers.pc.wrapping_add(i as u16));
            i += 1;
        }
        assert(output@ =~= seq![
            old(self).code_byte(0),
            old(self).code_byte(1),
            old(self).code_byte(2),
        ]);
        output
    }

    /// Decodes fetched bytes into an operation.
    pub fn decode(&mut self, fetchbytes: [u8; 3]) -> (r: Operation)
        requires
            decode_table(fetchbytes@[0]) is Some,
        ensures
            r == Operation::decoded(fetchbytes@[0], fetchbytes@[1], fetchbytes@[2]),
            *final(self) == *old(self),
    {
        let opbyte = fetchbytes[0];
        let arg1 = fetchbytes[1];
        let arg2 = fetchbytes[2];
        Operation::from_bytes(opbyte, arg1, arg2, self)
    }

    /// Carries out an operation: takes its operand, then runs the instruction.
    pub fn execute(&mut self, op: Operation)
        requires
            executable(op, old(self).registers.s),
            old(self).mmap.wf(),
            writes_memory(op) ==> old(self).mmap.bus().0 == 0,
        ensures
            final(self).registers == executed_registers(old(self).registers, op),
            final(self).mmap.same_devices(executed_memory(old(self).mmap, old(self).registers, op)),
            final(self).mmap.bus() == old(self).mmap.bus(),
            final(self).mmap.wf(),
            final(self).version == old(self).version,
            final(self).cycle_count == old(self).cycle_count,
    {
        let arg = match op.mode {
            AddressingMode::Implicit => None,
            AddressingMode::Immediate | AddressingMode::Relative => Some(OpArg::One(op.arg1.unwrap())),
            AddressingMode::Absolute => {
                let a1 = op.arg1.unwrap();
                let a2 = op.arg2.unwrap();
                proof {
                    lemma_absolute_operand_is_zero(a1, a2);
                }
                Some(OpArg::Two(((a1 as u16) << 8) & a2 as u16))
            },
            _ => {
                assert(false);
                None
            },
        };
        assert(arg == operand(op));
        match op.instruction {
            Instruction::BRK => self.brk(None),
            Instruction::CLD => self.clear_decimal(),
            Instruction::SEI => self.set_interrupt_disable(),
            Instruction::LDA => self.load_to_register_a(arg.unwrap()),
            Instruction::BPL => self.branch_if_plus(arg.unwrap()),
            Instruction::STA => self.store_a(arg.unwrap()),
            Instruction::JSR => self.jsr(arg.unwrap()),
            _ => {
                assert(false);
            },
        }
    }

    /// The CPU is behind a wall-clock target of `target_cycles` cycles and
    /// may spend its next cycle.
    pub fn cycle_due(&self, target_cycles: usize) -> (r: bool)
        ensures
            r == (target_cycles > self.cycle_count),
    {
        target_cycles > self.cycle_count
    }

    /// Spends `count` clock cycles. The cycles are counted here; waiting
    /// before each one until `cycle_due` holds for the wall clock's target at
    /// the version's clock rate is the caller's.
    pub fn tick_clock(&mut self, count: u8)
        requires
            old(self).version is Ricoh2A03,
        ensures
            final(self).cycle_count == add_cycles(old(self).cycle_count, count as int),
            final(self).registers == old(self).registers,
            final(self).mmap == old(self).mmap,
            final(self).version == old(self).version,
    {
        let _rate = self.version.clock();
        proof {
            vstd::arithmetic::div_mod::lemma_small_mod(
                self.cycle_count as nat,
                (usize::MAX + 1) as nat,
            );
        }
        let mut i: u8 = 0;
        while i < count
            invariant
                i <= count,
                self.cycle_count == add_cycles(old(self).cycle_count, i as int),
                self.registers == old(self).registers,
                self.mmap == old(self).mmap,
                self.version == old(self).version,
            decreases count - i,
        {
            proof {
                lemma_add_cycles_step(old(self).cycle_count, i as int);
            }
            self.cycle_count = self.cycle_count.wrapping_add(1);
            i += 1;
        }
    }

    /// Adds `arg` and the carry to the accumulator (ADC).
    pub fn add_with_carry(&mut self, arg: u8)
        requires
            old(self).version is Ricoh2A03,
        ensures
            final(self).registers == added_with_carry(old(self).registers, arg),
            final(self).cycle_count == add_cycles(old(self).cycle_count, 2),
            final(self).mmap == old(self).mmap,
            final(self).version == old(self).version,
    {
        let p0 = self.registers.p;
        assert(p0 & 1u8 <= 1u8) by (bit_vector);
        let is_positive = self.registers.a >= 128;
        let mem_is_positive = arg >= 128;
        let carry = self.registers.get_carry();
        let (value, wrapped1) = overflowing_add(self.registers.a, arg);
        let (value, wrapped2) = overflowing_add(value, carry);
        let value_is_positive = value >= 128;
        self.registers.a = value;
        self.tick_clock(1);
        self.registers.set_carry(wrapped1 || wrapped2);
        self.registers.set_zero(value == 0);
        self.registers.set_overflow((is_positive && mem_is_positive) && value_is_positive);
        self.registers.set_negative(value_is_positive);
        self.tick_clock(1);
        proof {
            lemma_add_cycles_compose(old(self).cycle_count, 1, 1);
        }
    }

    /// Masks the accumulator with `arg` (AND).
    pub fn bitwise_and(&mut self, arg: u8)
        requires
            old(self).version is Ricoh2A03,
        ensures
            final(self).registers == anded(old(self).registers, arg),
            final(self).cycle_count == add_cycles(old(self).cycle_count, 2),
            final(self).mmap == old(self).mmap,
            final(self).version == old(self).version,
    {
        self.registers.a &= arg;
        self.tick_clock(1);
        self.registers.set_zero(self.registers.a == 0);
        self.registers.set_negative(self.registers.a >= 128);
        self.tick_clock(1);
        proof {
            lemma_add_cycles_compose(old(self).cycle_count, 1, 1);
        }
    }

    /// Shifts `value` left by one (ASL) and sets carry, zero and negative from
    /// the result. With no `value` the shift is made on a copy of the
    /// accumulator, which keeps its value: only the flags change.
    pub fn arithmetic_shift_left(&mut self, value: Option<&mut u8>)
        requires
            old(self).version is Ricoh2A03,
        ensures
            ({
                let shifted = shifted_left(
                    match value {
                        Some(v) => *v,
                        None => old(self).registers.a,
                    },
                );
                &&& final(self).registers == old(self).registers.with_p(
                    shift_flags(old(self).registers.p, shifted),
                )
                &&& (value matches Some(v) ==> *final(v) == shifted)
            }),
            final(self).cycle_count == add_cycles(old(self).cycle_count, 2),
            final(self).mmap == old(self).mmap,
            final(self).version == old(self).version,
    {
        let mut accumulator = self.registers.a;
        let value_ref = match value {
            Some(v) => v,
            None => &mut accumulator,
        };
        let before = *value_ref;
        assert(before << 1u8 == ((before * 2) % 256) as u8) by (bit_vector);
        *value_ref <<= 1;
        self.tick_clock(1);
        self.registers.set_carry(*value_ref >= 128);
        self.registers.set_zero(*value_ref == 0);
        self.registers.set_negative(*value_ref >= 128);
        self.tick_clock(1);
        proof {
            lemma_add_cycles_compose(old(self).cycle_count, 1, 1);
        }
    }

    /// Branches when the carry flag is clear (BCC), spending one cycle more
    /// when the branch is taken.
    pub fn branch_if_carry_clear(&mut self, destination: u8)
        requires
            old(self).version is Ricoh2A03,
        ensures
            final(self).registers == branched(
                old(self).registers,
                old(self).registers.p & CARRY == 0,
                destination,
            ),
            final(self).cycle_count == add_cycles(
                old(self).cycle_count,
                if old(self).registers.p & CARRY == 0 {
                    3
                } else {
                    2
                },
            ),
            final(self).mmap == old(self).mmap,
            final(self).version == old(self).version,
    {
        if self.registers.get_carry() == 0 {
            self.tick_clock(1);
            self.registers.pc = branch_destination(self.registers.pc, destination);
        }
        self.tick_clock(2);
        proof {
            lemma_add_cycles_compose(old(self).cycle_count, 1, 2);
            vstd::arithmetic::div_mod::lemma_small_mod(
                old(self).cycle_count as nat,
                (usize::MAX + 1) as nat,
            );
        }
    }

    /// Branches when the carry flag is set (BCS).
    pub fn branch_if_carry_set(registers: &mut Registers, destination: u8)
        ensures
            *final(registers) == branched(*old(registers), old(registers).p & CARRY == 1, destination),
    {
        if registers.get_carry() == 1 {
            registers.pc = branch_destination(registers.pc, destination);
        };
    }

    /// Branches when the zero flag is set (BEQ).
    pub fn branch_if_equal(registers: &mut Registers, destination: u8)
        ensures
            *final(registers) == branched(*old(registers), old(registers).p & ZERO == ZERO, destination),
    {
        if registers.get_zero() == 0b0000_0010 {
            registers.pc = branch_destination(registers.pc, destination);
        }
    }

    /// Tests the accumulator against a byte (BIT).
    pub fn bit_test(registers: &mut Registers, destination: u8)
        ensures
            *final(registers) == bit_tested(*old(registers), destination),
    {
        let result = registers.a & destination;
        registers.set_zero(result == 0);
        registers.set_overflow((destination & 0b0100_0000) == 0b0100_0000);
        registers.set_negative((destination & 0b1000_0000) == 0b1000_0000);
    }

    /// Branches when the negative flag is set (BMI).
    pub fn branch_if_minus(registers: &mut Registers, destination: u8)
        ensures
            *final(registers) == branched(
                *old(registers),
                old(registers).p & NEGATIVE == NEGATIVE,
                destination,
            ),
    {
        if registers.get_negative() == 0b1000_0000 {
            registers.pc = branch_destination(registers.pc, destination);
        }
    }

    /// Returning from an interrupt (RTI) does nothing yet.
    pub fn return_from_interrupt(registers: &mut Registers)
        ensures
            *final(registers) == *old(registers),
    {
    }

    /// Pushes the program counter and the status byte (with the break bits
    /// set) and jumps to `0xFFFE`.
    pub fn brk(&mut self, arg: Option<u8>)
        requires
            old(self).mmap.wf(),
            old(self).mmap.bus().0 == 0,
        ensures
            final(self).registers == (Registers {
                s: sub8(old(self).registers.s, 3),
                pc: 0xFFFE,
                ..old(self).registers
            }),
            final(self).mmap.same_devices(
                old(self).mmap.poked(
                    stack_address(old(self).registers.s),
                    (old(self).registers.pc / 256) as u8,
                ).poked(
                    stack_address(sub8(old(self).registers.s, 1)),
                    (old(self).registers.pc % 256) as u8,
                ).poked(
                    stack_address(sub8(old(self).registers.s, 2)),
                    old(self).registers.p | 0b0011_0000,
                ),
            ),
            final(self).mmap.bus() == old(self).mmap.bus(),
            final(self).mmap.wf(),
            final(self).version == old(self).version,
            final(self).cycle_count == old(self).cycle_count,
    {
        let val = self.registers.pc;
        let hi = (val >> 8) as u8;
        let lo = (val & 0xFF) as u8;
        assert(val >> 8 == val / 256) by (bit_vector);
        assert(val & 0xFF == val % 256) by (bit_vector);
        proof {
            crate::mmap::lemma_idle_when_no_address(self.mmap);
            crate::mmap::lemma_idle_access(self.mmap, stack_address(self.registers.s), hi);
        }
        self.mmap.write(self.registers.s as u16 + 0x100, hi);
        self.registers.s = self.registers.s.wrapping_sub(1);
        proof {
            crate::mmap::lemma_idle_access(self.mmap, stack_address(self.registers.s), lo);
        }
        self.mmap.write(self.registers.s as u16 + 0x100, lo);
        self.registers.s = self.registers.s.wrapping_sub(1);
        proof {
            crate::mmap::lemma_idle_access(
                self.mmap,
                stack_address(self.registers.s),
                self.registers.p | 0b0011_0000,
            );
        }
        self.mmap.write(self.registers.s as u16 + 0x100, self.registers.p | 0b0011_0000);
        self.registers.s = self.registers.s.wrapping_sub(1);
        self.registers.pc = 0xFFFE;
    }

    /// Clears bit 2 of the status byte.
    pub fn set_interrupt_disable(&mut self)
        ensures
            final(self).registers == old(self).registers.with_p(old(self).registers.p & 0b1111_1011),
            final(self).mmap == old(self).mmap,
            final(self).version == old(self).version,
            final(self).cycle_count == old(self).cycle_count,
    {
        self.registers.p &= 0b1111_1011
    }

    /// Clears the decimal flag.
    pub fn clear_decimal(&mut self)
        ensures
            final(self).registers == old(self).registers.with_p(old(self).registers.p & 0b1111_0111),
            final(self).mmap == old(self).mmap,
            final(self).version == old(self).version,
            final(self).cycle_count == old(self).cycle_count,
    {
        self.registers.p &= 0b1111_0111
    }

    /// Loads a one-byte operand into the accumulator.
    pub fn load_to_register_a(&mut self, arg: OpArg)
        requires
            arg is One,
        ensures
            final(self).registers == (Registers { a: arg->One_0, ..old(self).registers }),
            final(self).mmap == old(self).mmap,
            final(self).version == old(self).version,
            final(self).cycle_count == old(self).cycle_count,
    {
        match arg {
            OpArg::One(a) => self.registers.a = a,
            OpArg::Two(_) => {
                assert(false);
            },
        }
    }

    /// Branches by a signed one-byte offset when the negative flag is clear.
    pub fn branch_if_plus(&mut self, destination: OpArg)
        requires
            destination is One,
        ensures
            final(self).registers == (if old(self).registers.p & NEGATIVE != 0 {
                old(self).registers
            } else {
                Registers {
                    pc: add16(old(self).registers.pc, sign_extend(destination->One_0) as int),
                    ..old(self).registers
                }
            }),
            final(self).mmap == old(self).mmap,
            final(self).version == old(self).version,
            final(self).cycle_count == old(self).cycle_count,
    {
        match destination {
            OpArg::One(arg) => {
                if self.registers.get_negative() != 0 {
                    return;
                }
                assert(arg < 128 ==> (arg as i8 as u16) == arg as u16) by (bit_vector);
                assert(arg >= 128 ==> (arg as i8 as u16) == (arg as u16) + 0xFF00u16)
                    by (bit_vector);
                self.registers.pc = self.registers.pc.wrapping_add(arg as i8 as u16);
            },
            OpArg::Two(_) => {
                assert(false);
            },
        }
    }

    /// Stores the accumulator at an absolute address.
    pub fn store_a(&mut self, arg: OpArg)
        requires
            arg is Two,
            old(self).mmap.wf(),
            can_access(old(self).mmap.bus(), arg->Two_0),
        ensures
            final(self).registers == old(self).registers,
            final(self).mmap.same_devices(
                crate::mmap::written_devices(
                    old(self).mmap,
                    old(self).mmap.bus(),
                    arg->Two_0,
                    old(self).registers.a,
                ),
            ),
            final(self).mmap.bus() == crate::mmap::written_bus(
                old(self).mmap.bus(),
                arg->Two_0,
                old(self).registers.a,
            ),
            final(self).mmap.wf(),
            final(self).version == old(self).version,
            final(self).cycle_count == old(self).cycle_count,
    {
        match arg {
            OpArg::Two(a) => self.mmap.write(a, self.registers.a),
            OpArg::One(_) => {
                assert(false);
            },
        }
    }

    /// Pushes the program counter and jumps to an absolute address.
    pub fn jsr(&mut self, arg: OpArg)
        requires
            arg is Two,
            old(self).registers.s >= 2,
            old(self).mmap.wf(),
            old(self).mmap.bus().0 == 0,
        ensures
            final(self).registers == (Registers {
                s: sub8(old(self).registers.s, 2),
                pc: arg->Two_0,
                ..old(self).registers
            }),
            final(self).mmap.same_devices(
                old(self).mmap.poked(
                    stack_address(old(self).registers.s),
                    (old(self).registers.pc / 256) as u8,
                ).poked(
                    stack_address(sub8(old(self).registers.s, 1)),
                    (old(self).registers.pc % 256) as u8,
                ),
            ),
            final(self).mmap.bus() == old(self).mmap.bus(),
            final(self).mmap.wf(),
            final(self).version == old(self).version,
            final(self).cycle_count == old(self).cycle_count,
    {
        match arg {
            OpArg::Two(a) => {
                let hi = self.registers.pc_hi();
                proof {
                    crate::mmap::lemma_idle_when_no_address(self.mmap);
                    crate::mmap::lemma_idle_access(self.mmap, stack_address(self.registers.s), hi);
                }
                self.mmap.write(self.registers.s as u16 + 0x0100, hi);
                self.registers.s -= 1;
                let lo = self.registers.pc_lo();
                proof {
                    crate::mmap::lemma_idle_access(self.mmap, stack_address(self.registers.s), lo);
                }
                self.mmap.write(self.registers.s as u16 + 0x100, lo);
                self.registers.s -= 1;
                self.registers.pc = a;
            },
            OpArg::One(_) => {
                assert(false);
            },
        }
    }
}

} // verus!
