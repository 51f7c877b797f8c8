use vstd::prelude::*;

use crate::cpu::registers::Registers;
use crate::cpu::Cpu;
use crate::mmap::{can_access, read_bus, read_value, MemoryMap};

verus! {

/// The 6502 instruction mnemonics.
#[allow(non_camel_case_types)]
#[derive(Debug, Clone, Copy, PartialEq, Eq, Structural)]
pub enum Instruction {
    ADC,
    AND,
    ASL,
    BCC,
    BCS,
    BEQ,
    BIT,
    BMI,
    BNE,
    BPL,
    BRK,
    BVC,
    BVS,
    CLC,
    CLD,
    CLI,
    CLV,
    CMP,
    CPX,
    CPY,
    DEC,
    DEX,
    DEY,
    EOR,
    INC,
    INX,
    INY,
    JMP,
    JSR,
    LDA,
    LDX,
    LDY,
    LSR,
    NOP,
    ORA,
    PHA,
    PHP,
    PLP,
    ROL,
    ROR,
    RTI,
    RTS,
    SBC,
    SEC,
    SED,
    SEI,
    STA,
    STX,
    STY,
    TAX,
    TSX,
    TXS,
    TYA,
}

/// The ways an instruction finds its operand.
#[derive(Debug, Clone, Copy, PartialEq, Eq, Structural)]
pub enum AddressingMode {
    Immediate,
    ZeroPage,
    ZeroPageX,
    ZeroPageY,
    AbsoluteX,
    AbsoluteY,
    IndexedIndirect,
    IndirectIndexed,
    Implicit,
    Accumulator,
    Absolute,
    Relative,
    Indirect,
}

/// A decoded instruction with the operand bytes that its addressing mode uses.
#[derive(Debug)]
pub struct Operation {
    pub instruction: Instruction,
    pub mode: AddressingMode,
    pub arg1: Option<u8>,
    pub arg2: Option<u8>,
}

/// The instruction and addressing mode that an opcode byte decodes to, or
/// `None` for the opcode bytes that the decoder does not handle.
pub open spec fn decode_table(opbyte: u8) -> Option<(Instruction, AddressingMode)> {
    match opbyte {
        0x69 => Some((Instruction::ADC, AddressingMode::Immediate)),
        0x65 => Some((Instruction::ADC, AddressingMode::ZeroPage)),
        0x75 => Some((Instruction::ADC, AddressingMode::ZeroPageX)),
        0x6D => Some((Instruction::ADC, AddressingMode::Absolute)),
        0x7D => Some((Instruction::ADC, AddressingMode::AbsoluteX)),
        0x79 => Some((Instruction::ADC, AddressingMode::AbsoluteY)),
        0x61 => Some((Instruction::ADC, AddressingMode::IndirectIndexed)),
        0x71 => Some((Instruction::ADC, AddressingMode::IndexedIndirect)),
        0x29 => Some((Instruction::AND, AddressingMode::Immediate)),
        0x25 => Some((Instruction::AND, AddressingMode::ZeroPage)),
        0x35 => Some((Instruction::AND, AddressingMode::ZeroPageX)),
        0x2D => Some((Instruction::AND, AddressingMode::Absolute)),
        0x3D => Some((Instruction::AND, AddressingMode::AbsoluteX)),
        0x39 => Some((Instruction::AND, AddressingMode::AbsoluteY)),
        0x21 => Some((Instruction::AND, AddressingMode::IndirectIndexed)),
        0x0A => Some((Instruction::ASL, AddressingMode::Accumulator)),
        0x06 => Some((Instruction::ASL, AddressingMode::ZeroPage)),
        0x16 => Some((Instruction::ASL, AddressingMode::ZeroPageX)),
        0x0E => Some((Instruction::ASL, AddressingMode::Absolute)),
        0x1E => Some((Instruction::ASL, AddressingMode::AbsoluteX)),
        0x90 => Some((Instruction::BCC, AddressingMode::Relative)),
        0xB0 => Some((Instruction::BCS, AddressingMode::Relative)),
        0xF0 => Some((Instruction::BEQ, AddressingMode::Relative)),
        0x24 => Some((Instruction::BIT, AddressingMode::ZeroPage)),
        0x2C => Some((Instruction::BIT, AddressingMode::Absolute)),
        0x30 => Some((Instruction::BMI, AddressingMode::Relative)),
        0xD0 => Some((Instruction::BNE, AddressingMode::Relative)),
        0x10 => Some((Instruction::BPL, AddressingMode::Relative)),
        0x00 => Some((Instruction::BRK, AddressingMode::Implicit)),
        0x50 => Some((Instruction::BVC, AddressingMode::Relative)),
        0x70 => Some((Instruction::BVS, AddressingMode::Relative)),
        0x18 => Some((Instruction::CLC, AddressingMode::Implicit)),
        0xD8 => Some((Instruction::CLD, AddressingMode::Implicit)),
        0x58 => Some((Instruction::CLI, AddressingMode::Implicit)),
        0xB8 => Some((Instruction::CLV, AddressingMode::Implicit)),
        0xC9 => Some((Instruction::CMP, AddressingMode::Immediate)),
        0xC5 => Some((Instruction::CMP, AddressingMode::ZeroPage)),
        0xD5 => Some((Instruction::CMP, AddressingMode::ZeroPageX)),
        0xCD => Some((Instruction::CMP, AddressingMode::Absolute)),
        0xDD => Some((Instruction::CMP, AddressingMode::AbsoluteX)),
        0xD9 => Some((Instruction::CMP, AddressingMode::AbsoluteY)),
        0xC1 => Some((Instruction::CMP, AddressingMode::IndirectIndexed)),
        0xD1 => Some((Instruction::CMP, AddressingMode::IndexedIndirect)),
        0xE0 => Some((Instruction::CPX, AddressingMode::Immediate)),
        0xE4 => Some((Instruction::CPX, AddressingMode::ZeroPage)),
        0xEC => Some((Instruction::CPX, AddressingMode::Absolute)),
        0xC0 => Some((Instruction::CPY, AddressingMode::Immediate)),
        0xC4 => Some((Instruction::CPY, AddressingMode::ZeroPage)),
        0xCC => Some((Instruction::CPY, AddressingMode::Absolute)),
        0xC6 => Some((Instruction::DEC, AddressingMode::ZeroPage)),
        0xD6 => Some((Instruction::DEC, AddressingMode::ZeroPageX)),
        0xCE => Some((Instruction::DEC, AddressingMode::Absolute)),
        0xDE => Some((Instruction::DEC, AddressingMode::AbsoluteX)),
        0xCA => Some((Instruction::DEX, AddressingMode::Implicit)),
        0x88 => Some((Instruction::DEY, AddressingMode::Implicit)),
        0x49 => Some((Instruction::EOR, AddressingMode::Immediate)),
        0x45 => Some((Instruction::EOR, AddressingMode::ZeroPage)),
        0x55 => Some((Instruction::EOR, AddressingMode::ZeroPageX)),
        0x4D => Some((Instruction::EOR, AddressingMode::Absolute)),
        0x5D => Some((Instruction::EOR, AddressingMode::AbsoluteX)),
        0x59 => Some((Instruction::EOR, AddressingMode::AbsoluteY)),
        0x41 => Some((Instruction::EOR, AddressingMode::IndirectIndexed)),
        0x51 => Some((Instruction::EOR, AddressingMode::IndexedIndirect)),
        0xE6 => Some((Instruction::INC, AddressingMode::ZeroPage)),
        0xF6 => Some((Instruction::INC, AddressingMode::ZeroPageX)),
        0xEE => Some((Instruction::INC, AddressingMode::Absolute)),
        0xFE => Some((Instruction::INC, AddressingMode::AbsoluteX)),
        0xE8 => Some((Instruction::INX, AddressingMode::Implicit)),
        0xC8 => Some((Instruction::INY, AddressingMode::Implicit)),
        0x4C => Some((Instruction::JMP, AddressingMode::Absolute)),
        0x6C => Some((Instruction::JMP, AddressingMode::Indirect)),
        0x20 => Some((Instruction::JSR, AddressingMode::Absolute)),
        0xA9 => Some((Instruction::LDA, AddressingMode::Immediate)),
        0xA5 => Some((Instruction::LDA, AddressingMode::ZeroPage)),
        0xB5 => Some((Instruction::LDA, AddressingMode::ZeroPageX)),
        0xAD => Some((Instruction::LDA, AddressingMode::Absolute)),
        0xBD => Some((Instruction::LDA, AddressingMode::AbsoluteX)),
        0xB9 => Some((Instruction::LDA, AddressingMode::AbsoluteY)),
        0xA1 => Some((Instruction::LDA, AddressingMode::IndirectIndexed)),
        0xB1 => Some((Instruction::LDA, AddressingMode::IndexedIndirect)),
        0x78 => Some((Instruction::SEI, AddressingMode::Implicit)),
        0x85 => Some((Instruction::STA, AddressingMode::ZeroPage)),
        0x95 => Some((Instruction::STA, AddressingMode::ZeroPageX)),
        0x8D => Some((Instruction::STA, AddressingMode::Absolute)),
        0x9D => Some((Instruction::STA, AddressingMode::AbsoluteX)),
        0x99 => Some((Instruction::STA, AddressingMode::AbsoluteY)),
        0x81 => Some((Instruction::STA, AddressingMode::IndirectIndexed)),
        _ => None,
    }
}

/// The instruction that bits 7-5 of a group-one opcode (bits 1-0 equal to
/// `01`) select, for the ones this decoder handles: AND, EOR, ADC, STA, LDA
/// and CMP.
pub open spec fn group_one_instruction(aaa: u8) -> Option<Instruction> {
    if aaa == 1 {
        Some(Instruction::AND)
    } else if aaa == 2 {
        Some(Instruction::EOR)
    } else if aaa == 3 {
        Some(Instruction::ADC)
    } else if aaa == 4 {
        Some(Instruction::STA)
    } else if aaa == 5 {
        Some(Instruction::LDA)
    } else if aaa == 6 {
        Some(Instruction::CMP)
    } else {
        None
    }
}

/// The addressing mode that bits 4-2 of a group-one opcode select: `(zp,X)`,
/// zero page, immediate, absolute, `(zp),Y`, zero page X, absolute Y and
/// absolute X. This decoder names `(zp,X)` `IndirectIndexed` and `(zp),Y`
/// `IndexedIndirect`.
pub open spec fn group_one_mode(bbb: u8) -> AddressingMode {
    if bbb == 0 {
        AddressingMode::IndirectIndexed
    } else if bbb == 1 {
        AddressingMode::ZeroPage
    } else if bbb == 2 {
        AddressingMode::Immediate
    } else if bbb == 3 {
        AddressingMode::Absolute
    } else if bbb == 4 {
        AddressingMode::IndexedIndirect
    } else if bbb == 5 {
        AddressingMode::ZeroPageX
    } else if bbb == 6 {
        AddressingMode::AbsoluteY
    } else {
        AddressingMode::AbsoluteX
    }
}

/// The instruction that bits 7-5 of a group-two opcode (bits 1-0 equal to
/// `10`) select, for the ones this decoder handles: ASL, DEC and INC.
pub open spec fn group_two_instruction(aaa: u8) -> Option<Instruction> {
    if aaa == 0 {
        Some(Instruction::ASL)
    } else if aaa == 6 {
        Some(Instruction::DEC)
    } else if aaa == 7 {
        Some(Instruction::INC)
    } else {
        None
    }
}

/// The addressing mode that bits 4-2 of a group-two opcode select: zero page,
/// accumulator, absolute, zero page X and absolute X.
pub open spec fn group_two_mode(bbb: u8) -> Option<AddressingMode> {
    if bbb == 1 {
        Some(AddressingMode::ZeroPage)
    } else if bbb == 2 {
        Some(AddressingMode::Accumulator)
    } else if bbb == 3 {
        Some(AddressingMode::Absolute)
    } else if bbb == 5 {
        Some(AddressingMode::ZeroPageX)
    } else if bbb == 7 {
        Some(AddressingMode::AbsoluteX)
    } else {
        None
    }
}

/// The instruction that bits 7-5 of a group-three opcode (bits 1-0 equal to
/// `00`) with an operand select, for the ones this decoder handles: BIT, CPY
/// and CPX.
pub open spec fn group_three_instruction(aaa: u8) -> Option<Instruction> {
    if aaa == 1 {
        Some(Instruction::BIT)
    } else if aaa == 6 {
        Some(Instruction::CPY)
    } else if aaa == 7 {
        Some(Instruction::CPX)
    } else {
        None
    }
}

/// The addressing mode that bits 4-2 of a group-three opcode select:
/// immediate, zero page and absolute.
pub open spec fn group_three_mode(bbb: u8) -> Option<AddressingMode> {
    if bbb == 0 {
        Some(AddressingMode::Immediate)
    } else if bbb == 1 {
        Some(AddressingMode::ZeroPage)
    } else if bbb == 3 {
        Some(AddressingMode::Absolute)
    } else {
        None
    }
}

/// The conditional branch that a branch opcode (bits 4-0 equal to `10000`)
/// encodes: bits 7-6 pick the flag (negative, overflow, carry, zero) and
/// bit 5 whether the branch is taken on the flag set or clear.
pub open spec fn branch_instruction(flag: u8, on_set: bool) -> Instruction {
    if flag == 0 {
        if on_set { Instruction::BMI } else { Instruction::BPL }
    } else if flag == 1 {
        if on_set { Instruction::BVS } else { Instruction::BVC }
    } else if flag == 2 {
        if on_set { Instruction::BCS } else { Instruction::BCC }
    } else {
        if on_set { Instruction::BEQ } else { Instruction::BNE }
    }
}

/// The flag instruction that bits 7-5 of an opcode `xxx11000` select, for the
/// ones this decoder handles: CLC, CLI, SEI, CLV and CLD.
pub open spec fn flag_instruction(aaa: u8) -> Option<Instruction> {
    if aaa == 0 {
        Some(Instruction::CLC)
    } else if aaa == 2 {
        Some(Instruction::CLI)
    } else if aaa == 3 {
        Some(Instruction::SEI)
    } else if aaa == 5 {
        Some(Instruction::CLV)
    } else if aaa == 6 {
        Some(Instruction::CLD)
    } else {
        None
    }
}

/// Group-one opcodes decode by their bit fields: bits 7-5 pick the
/// instruction and bits 4-2 the addressing mode. Every such opcode of a
/// handled instruction decodes, except `0x31` (AND `(zp),Y`), `0x91`
/// (STA `(zp),Y`) and `0x89` (STA has no immediate form).
pub proof fn lemma_decode_group_one(op: u8)
    requires
        op % 4 == 1,
    ensures
        decode_table(op) is Some <==> (group_one_instruction(op / 32) is Some && op != 0x31
            && op != 0x91 && op != 0x89),
        decode_table(op) is Some ==> decode_table(op) == Some(
            (group_one_instruction(op / 32).unwrap(), group_one_mode((op / 4) % 8)),
        ),
{
}

/// Group-two opcodes decode by their bit fields, DEX (`0xCA`) aside: bits
/// 7-5 pick ASL, DEC or INC and bits 4-2 the addressing mode; the
/// accumulator form exists for ASL only.
pub proof fn lemma_decode_group_two(op: u8)
    requires
        op % 4 == 2,
        op != 0xCA,
    ensures
        decode_table(op) is Some <==> (group_two_instruction(op / 32) is Some && group_two_mode(
            (op / 4) % 8,
        ) is Some && (group_two_mode((op / 4) % 8) == Some(AddressingMode::Accumulator)
            ==> op / 32 == 0)),
        decode_table(op) is Some ==> decode_table(op) == Some(
            (group_two_instruction(op / 32).unwrap(), group_two_mode((op / 4) % 8).unwrap()),
        ),
{
}

/// Group-three opcodes with an operand decode by their bit fields: bits 7-5
/// pick BIT, CPY or CPX and bits 4-2 the addressing mode (BIT has no
/// immediate form).
pub proof fn lemma_decode_group_three(op: u8)
    requires
        op % 4 == 0,
        op % 32 != 0x10,
        op % 32 != 0x18,
        op % 32 != 0x08,
        op != 0x00,
        op != 0x20,
        op != 0x4C,
        op != 0x6C,
    ensures
        decode_table(op) is Some <==> (group_three_instruction(op / 32) is Some
            && group_three_mode((op / 4) % 8) is Some),
        decode_table(op) is Some ==> decode_table(op) == Some(
            (group_three_instruction(op / 32).unwrap(), group_three_mode((op / 4) % 8).unwrap()),
        ),
{
}

/// Every branch opcode decodes to the relative branch that its bits encode:
/// bits 7-6 the flag, bit 5 whether it branches on the flag set.
pub proof fn lemma_decode_branches(op: u8)
    requires
        op % 32 == 0x10,
    ensures
        decode_table(op) == Some(
            (branch_instruction(op / 64, (op / 32) % 2 == 1), AddressingMode::Relative),
        ),
{
}

/// The flag opcodes `xxx11000` decode to the implicit flag instruction that
/// bits 7-5 select; SEC, TYA and SED are not handled.
pub proof fn lemma_decode_flag_instructions(op: u8)
    requires
        op % 32 == 0x18,
    ensures
        decode_table(op) == (match flag_instruction(op / 32) {
            Some(i) => Some((i, AddressingMode::Implicit)),
            None => None,
        }),
{
}

/// The remaining opcodes: BRK, JSR, the two JMP forms, and the register
/// increments and decrements, and which single-byte opcodes `xxx01000`
/// decode.
pub proof fn lemma_decode_other_opcodes()
    ensures
        decode_table(0x00) == Some((Instruction::BRK, AddressingMode::Implicit)),
        decode_table(0x20) == Some((Instruction::JSR, AddressingMode::Absolute)),
        decode_table(0x4C) == Some((Instruction::JMP, AddressingMode::Absolute)),
        decode_table(0x6C) == Some((Instruction::JMP, AddressingMode::Indirect)),
        decode_table(0x88) == Some((Instruction::DEY, AddressingMode::Implicit)),
        decode_table(0xC8) == Some((Instruction::INY, AddressingMode::Implicit)),
        decode_table(0xE8) == Some((Instruction::INX, AddressingMode::Implicit)),
        decode_table(0xCA) == Some((Instruction::DEX, AddressingMode::Implicit)),
        forall|op: u8|
            op % 32 == 0x08 && op != 0x88 && op != 0xC8 && op != 0xE8 ==> #[trigger] decode_table(
                op,
            ) is None,
        forall|op: u8| op % 4 == 3 ==> #[trigger] decode_table(op) is None,
{
}

/// Decoding takes the operand bytes that the addressing mode uses: none for
/// implicit, accumulator and indirect operations, both bytes for absolute
/// ones, and the first byte for all other modes.
pub proof fn lemma_decoded_operands(opbyte: u8, arg1: u8, arg2: u8)
    requires
        decode_table(opbyte) is Some,
    ensures
        ({
            let op = Operation::decoded(opbyte, arg1, arg2);
            &&& op.instruction == decode_table(opbyte).unwrap().0
            &&& op.mode == decode_table(opbyte).unwrap().1
            &&& op.arg2 == (if op.mode is Absolute {
                Some(arg2)
            } else {
                None
            })
            &&& op.arg1 == (if op.mode is Implicit || op.mode is Accumulator
                || op.mode is Indirect {
                None
            } else {
                Some(arg1)
            })
        }),
{
}

/// How many operand bytes an addressing mode takes: the first, both, or none.
pub open spec fn operand_bytes(mode: AddressingMode, arg1: u8, arg2: u8) -> (Option<u8>, Option<u8>) {
    match mode {
        AddressingMode::Absolute => (Some(arg1), Some(arg2)),
        AddressingMode::Accumulator | AddressingMode::Implicit | AddressingMode::Indirect => (
            None,
            None,
        ),
        _ => (Some(arg1), None),
    }
}

/// The zero-page address `base + index`, wrapping within the zero page.
pub open spec fn zero_page(base: u8, index: u8) -> u16 {
    ((base + index) % 256) as u16
}

/// The address of the second zero-page byte that an indexed-indirect operand
/// reads: the one after `arg1 + x`, wrapping within the zero page.
pub open spec fn zero_page_next(base: u8, index: u8) -> u16 {
    ((base + index + 1) % 256) as u16
}

/// The address of the second byte that an indirect-indexed operand reads:
/// `(arg1 + 1) * 256 + y`, the increment wrapping within a byte.
pub open spec fn indirect_indexed_high(r: Registers, arg1: u8) -> u16 {
    (((arg1 + 1) % 256) * 256 + r.y) as u16
}

/// The absolute address `arg1 arg2`, `arg1` as the high byte.
pub open spec fn absolute_address(arg1: u8, arg2: u8) -> u16 {
    (arg1 * 256 + arg2) as u16
}

/// The address that an addressing mode reads its operand from in one read,
/// for the modes that make one read.
pub open spec fn direct_address(r: Registers, mode: AddressingMode, arg1: u8, arg2: u8) -> Option<u16> {
    match mode {
        AddressingMode::ZeroPageX => Some(zero_page(arg1, r.x)),
        AddressingMode::ZeroPageY => Some(zero_page(arg1, r.y)),
        AddressingMode::AbsoluteX => Some((arg1 + r.x) as u16),
        AddressingMode::AbsoluteY => Some((arg1 + r.y) as u16),
        AddressingMode::ZeroPage => Some(arg1 as u16),
        AddressingMode::Absolute => Some(absolute_address(arg1, arg2)),
        _ => None,
    }
}

/// The address of the last read of an indexed-indirect operand: the two
/// zero-page bytes at `arg1 + x` and the one after, added, times 256.
pub open spec fn indexed_indirect_address(
    r: Registers,
    m: MemoryMap,
    bus: (nat, Seq<u8>),
    arg1: u8,
) -> int {
    let z1 = zero_page(arg1, r.x);
    let b1 = read_bus(m, bus, z1);
    (read_value(m, bus, z1) + read_value(m, b1, zero_page_next(arg1, r.x))) * 256
}

/// The buses before the last read of an indexed-indirect operand.
pub open spec fn indexed_indirect_bus(
    r: Registers,
    m: MemoryMap,
    bus: (nat, Seq<u8>),
    arg1: u8,
) -> (nat, Seq<u8>) {
    let b1 = read_bus(m, bus, zero_page(arg1, r.x));
    read_bus(m, b1, zero_page_next(arg1, r.x))
}

/// The address of the last read of an indirect-indexed operand: the byte at
/// `arg1` plus the byte at `(arg1 + 1) * 256 + y`, wrapping within the zero
/// page.
pub open spec fn indirect_indexed_address(
    r: Registers,
    m: MemoryMap,
    bus: (nat, Seq<u8>),
    arg1: u8,
) -> u16 {
    let b1 = read_bus(m, bus, arg1 as u16);
    zero_page(read_value(m, bus, arg1 as u16), read_value(m, b1, indirect_indexed_high(r, arg1)))
}

/// The buses before the last read of an indirect-indexed operand.
pub open spec fn indirect_indexed_bus(
    r: Registers,
    m: MemoryMap,
    bus: (nat, Seq<u8>),
    arg1: u8,
) -> (nat, Seq<u8>) {
    let b1 = read_bus(m, bus, arg1 as u16);
    read_bus(m, b1, indirect_indexed_high(r, arg1))
}

/// The reads of `get_argument` go through without stopping and its
/// arithmetic stays within 16 bits; relative and indirect operands are not
/// handled.
pub open spec fn argument_defined(
    r: Registers,
    m: MemoryMap,
    bus: (nat, Seq<u8>),
    mode: AddressingMode,
    arg1: u8,
    arg2: u8,
) -> bool {
    match mode {
        AddressingMode::IndexedIndirect => {
            let z1 = zero_page(arg1, r.x);
            let address = indexed_indirect_address(r, m, bus, arg1);
            &&& can_access(bus, z1)
            &&& can_access(read_bus(m, bus, z1), zero_page_next(arg1, r.x))
            &&& address <= 0xFFFF
            &&& can_access(indexed_indirect_bus(r, m, bus, arg1), address as u16)
        },
        AddressingMode::IndirectIndexed => {
            &&& can_access(bus, arg1 as u16)
            &&& can_access(read_bus(m, bus, arg1 as u16), indirect_indexed_high(r, arg1))
            &&& can_access(
                indirect_indexed_bus(r, m, bus, arg1),
                indirect_indexed_address(r, m, bus, arg1),
            )
        },
        AddressingMode::Relative | AddressingMode::Indirect => false,
        _ => match direct_address(r, mode, arg1, arg2) {
            Some(address) => can_access(bus, address),
            None => true,
        },
    }
}

/// The operand byte that an addressing mode yields, and the buses after its
/// reads.
pub open spec fn argument(
    r: Registers,
    m: MemoryMap,
    bus: (nat, Seq<u8>),
    mode: AddressingMode,
    arg1: u8,
    arg2: u8,
) -> (Option<u8>, (nat, Seq<u8>)) {
    match mode {
        AddressingMode::IndexedIndirect => {
            let b = indexed_indirect_bus(r, m, bus, arg1);
            let address = indexed_indirect_address(r, m, bus, arg1) as u16;
            (Some(read_value(m, b, address)), read_bus(m, b, address))
        },
        AddressingMode::IndirectIndexed => {
            let b = indirect_indexed_bus(r, m, bus, arg1);
            let address = indirect_indexed_address(r, m, bus, arg1);
            (Some(read_value(m, b, address)), read_bus(m, b, address))
        },
        AddressingMode::Implicit => (None, bus),
        AddressingMode::Accumulator => (Some(r.a), bus),
        AddressingMode::Immediate => (Some(arg1), bus),
        _ => match direct_address(r, mode, arg1, arg2) {
            Some(address) => (Some(read_value(m, bus, address)), read_bus(m, bus, address)),
            None => (None, bus),
        },
    }
}

/// The operand that each addressing mode yields, by the address it reads:
/// nothing for implicit operations, the accumulator, the first operand byte
/// for immediate ones; for the others the byte at the address with high byte
/// `arg1` and low byte `arg2` (absolute), at `arg1` (zero page), at `arg1`
/// plus an index register (absolute X/Y, and zero page X/Y wrapping within
/// the zero page), and for the indirect modes at the address that the bytes
/// read first give.
pub proof fn lemma_argument_reads(r: Registers, m: MemoryMap, bus: (nat, Seq<u8>), arg1: u8, arg2: u8)
    ensures
        argument(r, m, bus, AddressingMode::Implicit, arg1, arg2) == (None::<u8>, bus),
        argument(r, m, bus, AddressingMode::Accumulator, arg1, arg2) == (Some(r.a), bus),
        argument(r, m, bus, AddressingMode::Immediate, arg1, arg2) == (Some(arg1), bus),
        ({
            let address = (arg1 as int * 256 + arg2 as int) as u16;
            &&& address / 256 == arg1 && address % 256 == arg2
            &&& argument(r, m, bus, AddressingMode::Absolute, arg1, arg2) == (
                Some(read_value(m, bus, address)),
                read_bus(m, bus, address),
            )
        }),
        argument(r, m, bus, AddressingMode::ZeroPage, arg1, arg2) == (
            Some(read_value(m, bus, arg1 as u16)),
            read_bus(m, bus, arg1 as u16),
        ),
        ({
            let address = (arg1 as int + r.x as int) as u16;
            argument(r, m, bus, AddressingMode::AbsoluteX, arg1, arg2) == (
                Some(read_value(m, bus, address)),
                read_bus(m, bus, address),
            )
        }),
        ({
            let address = (arg1 as int + r.y as int) as u16;
            argument(r, m, bus, AddressingMode::AbsoluteY, arg1, arg2) == (
                Some(read_value(m, bus, address)),
                read_bus(m, bus, address),
            )
        }),
        ({
            let address = (if arg1 as int + r.x as int >= 256 {
                arg1 as int + r.x as int - 256
            } else {
                arg1 as int + r.x as int
            }) as u16;
            argument(r, m, bus, AddressingMode::ZeroPageX, arg1, arg2) == (
                Some(read_value(m, bus, address)),
                read_bus(m, bus, address),
            )
        }),
        ({
            let address = (if arg1 as int + r.y as int >= 256 {
                arg1 as int + r.y as int - 256
            } else {
                arg1 as int + r.y as int
            }) as u16;
            argument(r, m, bus, AddressingMode::ZeroPageY, arg1, arg2) == (
                Some(read_value(m, bus, address)),
                read_bus(m, bus, address),
            )
        }),
        ({
            let first_address = ((arg1 as int + r.x as int) % 256) as u16;
            let second_address = ((first_address as int + 1) % 256) as u16;
            let b1 = read_bus(m, bus, first_address);
            let b2 = read_bus(m, b1, second_address);
            let address = ((read_value(m, bus, first_address) as int + read_value(
                m,
                b1,
                second_address,
            ) as int) * 256) as u16;
            argument(r, m, bus, AddressingMode::IndexedIndirect, arg1, arg2) == (
                Some(read_value(m, b2, address)),
                read_bus(m, b2, address),
            )
        }),
        ({
            let high_address = (((arg1 as int + 1) % 256) * 256 + r.y as int) as u16;
            let b1 = read_bus(m, bus, arg1 as u16);
            let b2 = read_bus(m, b1, high_address);
            let address = ((read_value(m, bus, arg1 as u16) as int + read_value(
                m,
                b1,
                high_address,
            ) as int) % 256) as u16;
            argument(r, m, bus, AddressingMode::IndirectIndexed, arg1, arg2) == (
                Some(read_value(m, b2, address)),
                read_bus(m, b2, address),
            )
        }),
{
    let first_address = ((arg1 as int + r.x as int) % 256) as u16;
    assert(((first_address as int + 1) % 256) == (arg1 + r.x + 1) % 256) by {
        vstd::arithmetic::div_mod::lemma_add_mod_noop(arg1 + r.x, 1, 256);
    }
}


impl Operation {
    /// The operation that the bytes `opbyte arg1 arg2` decode to.
    pub open spec fn decoded(opbyte: u8, arg1: u8, arg2: u8) -> Operation
        recommends
            decode_table(opbyte) is Some,
    {
        let (instruction, mode) = decode_table(opbyte).unwrap();
        let (a1, a2) = operand_bytes(mode, arg1, arg2);
        Operation { instruction, mode, arg1: a1, arg2: a2 }
    }

    /// Decodes an opcode byte and the two bytes after it.
    pub fn from_bytes(opbyte: u8, arg1: u8, arg2: u8, cpu: &mut Cpu) -> (r: Self)
        requires
            decode_table(opbyte) is Some,
        ensures
            r == Operation::decoded(opbyte, arg1, arg2),
            *final(cpu) == *old(cpu),
    {
        let (instruction, mode) = match opbyte {
            0x69 | 0x65 | 0x75 | 0x6D | 0x7D | 0x79 | 0x61 | 0x71 => (
                Instruction::ADC,
                match opbyte {
                    0x69 => AddressingMode::Immediate,
                    0x65 => AddressingMode::ZeroPage,
                    0x75 => AddressingMode::ZeroPageX,
                    0x6D => AddressingMode::Absolute,
                    0x7D => AddressingMode::AbsoluteX,
                    0x79 => AddressingMode::AbsoluteY,
                    0x61 => AddressingMode::IndirectIndexed,
                    0x71 => AddressingMode::IndexedIndirect,
                    _ => {
                        assert(false);
                        AddressingMode::Implicit
                    },
                },
            ),
            0x29 | 0x25 | 0x35 | 0x2D | 0x3D | 0x39 | 0x21 | 0x31 => (
                Instruction::AND,
                match opbyte {
                    0x29 => AddressingMode::Immediate,
                    0x25 => AddressingMode::ZeroPage,
                    0x35 => AddressingMode::ZeroPageX,
                    0x2D => AddressingMode::Absolute,
                    0x3D => AddressingMode::AbsoluteX,
                    0x39 => AddressingMode::AbsoluteY,
                    0x21 => AddressingMode::IndirectIndexed,
                    0x71 => AddressingMode::IndexedIndirect,
                    _ => {
                        assert(false);
                        AddressingMode::Implicit
                    },
                },
            ),
            0x0A | 0x06 | 0x16 | 0x0E | 0x1E => (
                Instruction::ASL,
                match opbyte {
                    0x0A => AddressingMode::Accumulator,
                    0x06 => AddressingMode::ZeroPage,
                    0x16 => AddressingMode::ZeroPageX,
                    0x0E => AddressingMode::Absolute,
                    0x1E => AddressingMode::AbsoluteX,
                    _ => {
                        assert(false);
                        AddressingMode::Implicit
                    },
                },
            ),
            0x90 => (Instruction::BCC, AddressingMode::Relative),
            0xB0 => (Instruction::BCS, AddressingMode::Relative),
            0xF0 => (Instruction::BEQ, AddressingMode::Relative),
            0x24 => (Instruction::BIT, AddressingMode::ZeroPage),
            0x2C => (Instruction::BIT, AddressingMode::Absolute),
            0x30 => (Instruction::BMI, AddressingMode::Relative),
            0xD0 => (Instruction::BNE, AddressingMode::Relative),
            0x10 => (Instruction::BPL, AddressingMode::Relative),
            0x00 => (Instruction::BRK, AddressingMode::Implicit),
            0x50 => (Instruction::BVC, AddressingMode::Relative),
            0x70 => (Instruction::BVS, AddressingMode::Relative),
            0x18 => (Instruction::CLC, AddressingMode::Implicit),
            0xD8 => (Instruction::CLD, AddressingMode::Implicit),
            0x58 => (Instruction::CLI, AddressingMode::Implicit),
            0xB8 => (Instruction::CLV, AddressingMode::Implicit),
            0xC9 | 0xC5 | 0xD5 | 0xCD | 0xDD | 0xD9 | 0xC1 | 0xD1 => (
                Instruction::CMP,
                match opbyte {
                    0xC9 => AddressingMode::Immediate,
                    0xC5 => AddressingMode::ZeroPage,
                    0xD5 => AddressingMode::ZeroPageX,
                    0xCD => AddressingMode::Absolute,
                    0xDD => AddressingMode::AbsoluteX,
                    0xD9 => AddressingMode::AbsoluteY,
                    0xC1 => AddressingMode::IndirectIndexed,
                    0xD1 => AddressingMode::IndexedIndirect,
                    _ => {
                        assert(false);
                        AddressingMode::Implicit
                    },
                },
            ),
            0xE0 => (Instruction::CPX, AddressingMode::Immediate),
            0xE4 => (Instruction::CPX, AddressingMode::ZeroPage),
            0xEC => (Instruction::CPX, AddressingMode::Absolute),
            0xC0 => (Instruction::CPY, AddressingMode::Immediate),
            0xC4 => (Instruction::CPY, AddressingMode::ZeroPage),
            0xCC => (Instruction::CPY, AddressingMode::Absolute),
            0xC6 => (Instruction::DEC, AddressingMode::ZeroPage),
            0xD6 => (Instruction::DEC, AddressingMode::ZeroPageX),
            0xCE => (Instruction::DEC, AddressingMode::Absolute),
            0xDE => (Instruction::DEC, AddressingMode::AbsoluteX),
            0xCA => (Instruction::DEX, AddressingMode::Implicit),
            0x88 => (Instruction::DEY, AddressingMode::Implicit),
            0x49 | 0x45 | 0x55 | 0x4D | 0x5D | 0x59 | 0x41 | 0x51 => (
                Instruction::EOR,
                match opbyte {
                    0x49 => AddressingMode::Immediate,
                    0x45 => AddressingMode::ZeroPage,
                    0x55 => AddressingMode::ZeroPageX,
                    0x4D => AddressingMode::Absolute,
                    0x5D => AddressingMode::AbsoluteX,
                    0x59 => AddressingMode::AbsoluteY,
                    0x41 => AddressingMode::IndirectIndexed,
                    0x51 => AddressingMode::IndexedIndirect,
                    _ => {
                        assert(false);
                        AddressingMode::Implicit
                    },
                },
            ),
            0xE6 => (Instruction::INC, AddressingMode::ZeroPage),
            0xF6 => (Instruction::INC, AddressingMode::ZeroPageX),
            0xEE => (Instruction::INC, AddressingMode::Absolute),
            0xFE => (Instruction::INC, AddressingMode::AbsoluteX),
            0xE8 => (Instruction::INX, AddressingMode::Implicit),
            0xC8 => (Instruction::INY, AddressingMode::Implicit),
            0x4C => (Instruction::JMP, AddressingMode::Absolute),
            0x6C => (Instruction::JMP, AddressingMode::Indirect),
            0x20 => (Instruction::JSR, AddressingMode::Absolute),
            0xA9 | 0xA5 | 0xB5 | 0xAD | 0xBD | 0xB9 | 0xA1 | 0xB1 => (
                Instruction::LDA,
                match opbyte {
                    0xA9 => AddressingMode::Immediate,
                    0xA5 => AddressingMode::ZeroPage,
                    0xB5 => AddressingMode::ZeroPageX,
                    0xAD => AddressingMode::Absolute,
                    0xBD => AddressingMode::AbsoluteX,
                    0xB9 => AddressingMode::AbsoluteY,
                    0xA1 => AddressingMode::IndirectIndexed,
                    0xB1 => AddressingMode::IndexedIndirect,
                    _ => {
                        assert(false);
                        AddressingMode::Implicit
                    },
                },
            ),
            0x78 => (Instruction::SEI, AddressingMode::Implicit),
            0x85 | 0x95 | 0x8D | 0x9D | 0x99 | 0x81 | 0x91 => (
                Instruction::STA,
                match opbyte {
                    0x85 => AddressingMode::ZeroPage,
                    0x95 => AddressingMode::ZeroPageX,
                    0x8D => AddressingMode::Absolute,
                    0x9D => AddressingMode::AbsoluteX,
                    0x99 => AddressingMode::AbsoluteY,
                    0x81 => AddressingMode::IndirectIndexed,
                    0xB1 => AddressingMode::IndexedIndirect,
                    _ => {
                        assert(false);
                        AddressingMode::Implicit
                    },
                },
            ),
            _ => {
                assert(false);
                (Instruction::NOP, AddressingMode::Implicit)
            },
        };
        let (arg1, arg2) = match mode {
            AddressingMode::ZeroPageX | AddressingMode::ZeroPageY | AddressingMode::AbsoluteX
            | AddressingMode::AbsoluteY | AddressingMode::IndexedIndirect
            | AddressingMode::IndirectIndexed | AddressingMode::Immediate
            | AddressingMode::ZeroPage | AddressingMode::Relative => (Some(arg1), None),
            AddressingMode::Absolute => (Some(arg1), Some(arg2)),
            AddressingMode::Accumulator | AddressingMode::Implicit | AddressingMode::Indirect => (
                None,
                None,
            ),
        };
        Self { instruction, mode, arg1, arg2 }
    }
    /// The operand byte that `mode` yields for the operand bytes `arg1` and
    /// `arg2`.
    #[verifier::rlimit(50)]
    #[verifier::spinoff_prover]
    pub fn get_argument(
        registers: &Registers,
        memory_map: &mut MemoryMap,
        mode: &AddressingMode,
        arg1: u8,
        arg2: u8,
    ) -> (r: Option<u8>)
        requires
            old(memory_map).wf(),
            argument_defined(*registers, *old(memory_map), old(memory_map).bus(), *mode, arg1, arg2),
        ensures
            ({
                let (value, bus) = argument(
                    *registers,
                    *old(memory_map),
                    old(memory_map).bus(),
                    *mode,
                    arg1,
                    arg2,
                );
                &&& r == value
                &&& final(memory_map).bus() == bus
            }),
            final(memory_map).same_devices(*old(memory_map)),
            final(memory_map).wf(),
    {
        match mode {
            AddressingMode::ZeroPageX => Some(memory_map.read(arg1.wrapping_add(registers.x) as u16)),
            AddressingMode::ZeroPageY => Some(memory_map.read(arg1.wrapping_add(registers.y) as u16)),
            AddressingMode::AbsoluteX => Some(
                memory_map.read((arg1 as u16).wrapping_add(registers.x as u16)),
            ),
            AddressingMode::AbsoluteY => Some(
                memory_map.read((arg1 as u16).wrapping_add(registers.y as u16)),
            ),
            AddressingMode::IndexedIndirect => {
                let first_read = memory_map.read(arg1.wrapping_add(registers.x) as u16);
                let zp = arg1.wrapping_add(registers.x);
                assert(zp.wrapping_add(1) == (arg1 + registers.x + 1) % 256) by {
                    vstd::arithmetic::div_mod::lemma_add_mod_noop(
                        arg1 + registers.x,
                        1,
                        256,
                    );
                }
                let second_read = memory_map.read(zp.wrapping_add(1) as u16);
                Some(memory_map.read((first_read as u16 + second_read as u16) * 256))
            },
            AddressingMode::IndirectIndexed => {
                let first_read = memory_map.read(arg1 as u16);
                let second_read = memory_map.read(
                    (arg1.wrapping_add(1)) as u16 * 256 + registers.y as u16,
                );
                Some(memory_map.read(first_read.wrapping_add(second_read) as u16))
            },
            AddressingMode::Implicit => None,
            AddressingMode::Accumulator => Some(registers.a),
            AddressingMode::Immediate => Some(arg1),
            AddressingMode::ZeroPage => Some(memory_map.read(arg1 as u16)),
            AddressingMode::Absolute => {
                let addr = (arg1 as u16) << 8 | arg2 as u16;
                assert(((arg1 as u16) << 8u16) | (arg2 as u16) == arg1 * 256 + arg2) by (bit_vector);
                Some(memory_map.read(addr))
            },
            AddressingMode::Relative | AddressingMode::Indirect => {
                assert(false);
                None
            },
        }
    }
}

} // verus!
