use libnestacean::cart::Cart;
use libnestacean::cpu::opcodes::{AddressingMode, Instruction, Operation};
use libnestacean::cpu::registers::Registers;
use libnestacean::cpu::{overflowing_add, Cpu, CpuVersion, OpArg};
use libnestacean::mmap::MemoryMap;
use libnestacean::{Nes, SystemType};

/// A cartridge whose reset vector points at `0x8000`, where `program` starts.
fn cart_with_program(program: &[u8]) -> Cart {
    let mut cart = Cart::empty();
    cart.rom[0x7FFC] = 0x00;
    cart.rom[0x7FFD] = 0x80;
    for (i, byte) in program.iter().enumerate() {
        cart.rom[i] = *byte;
    }
    cart
}

#[test]
fn registers_default_values() {
    let r = Registers::default();
    assert_eq!((r.a, r.x, r.y, r.pc, r.s, r.p), (0, 0, 0, 0xFFFC, 0xFD, 0b0000_0100));
}

#[test]
fn registers_flags_set_get_toggle() {
    let mut r = Registers::default();
    r.set_carry(true);
    assert_eq!(r.get_carry(), 1);
    r.set_zero(true);
    assert_eq!(r.get_zero(), 2);
    r.set_overflow(true);
    assert_eq!(r.get_overflow(), 0x40);
    r.set_negative(true);
    assert_eq!(r.get_negative(), 0x80);
    assert_eq!(r.p, 0b1100_0111);
    r.set_carry(false);
    assert_eq!(r.get_carry(), 0);
    assert_eq!(r.p, 0b1100_0110);
    r.toggle_carry();
    r.toggle_zero();
    r.toggle_overflow();
    r.toggle_negative();
    assert_eq!(r.p, 0b0000_0101);
    r.toggle_negative();
    r.toggle_negative();
    assert_eq!(r.p, 0b0000_0101);
    r.set_zero(false);
    r.set_overflow(false);
    r.set_negative(false);
    assert_eq!(r.p, 0b0000_0101);
}

#[test]
fn registers_pc_bytes() {
    let mut r = Registers::default();
    r.pc = 0xABCD;
    assert_eq!(r.pc_hi(), 0xAB);
    assert_eq!(r.pc_lo(), 0xCD);
    assert_eq!(((r.pc_hi() as u16) << 8) | r.pc_lo() as u16, 0xABCD);
}

#[test]
fn overflowing_add_values() {
    assert_eq!(overflowing_add(0x10, 0x20), (0x30, false));
    assert_eq!(overflowing_add(0xFF, 0x01), (0x00, true));
    assert_eq!(overflowing_add(0x80, 0x90), (0x10, true));
}

#[test]
fn cpu_version_clock_and_system_cpu() {
    assert_eq!(CpuVersion::Ricoh2A03.clock(), 21_447_272);
    assert_eq!(SystemType::NTSC.cpu(), CpuVersion::Ricoh2A03);
    assert_eq!(SystemType::RGB.cpu(), CpuVersion::Ricoh2A03);
    assert_eq!(SystemType::PAL.cpu(), CpuVersion::Ricoh2A07);
    assert_eq!(SystemType::Dendy.cpu(), CpuVersion::UMCUA6527P);
    assert_eq!(SystemType::Brazil.cpu(), CpuVersion::UMCUA6527);
    assert_eq!(SystemType::Argentina.cpu(), CpuVersion::UMCUA6527);
}

#[test]
fn cpu_new_reads_reset_vector() {
    let mut cart = Cart::empty();
    cart.rom[0x7FFC] = 0x34;
    cart.rom[0x7FFD] = 0x12;
    let cpu = Cpu::new(cart);
    assert_eq!(cpu.registers.pc, 0x1234);
    assert_eq!(cpu.registers.s, 0xFD);
    assert_eq!(cpu.registers.p, 0b0000_0100);
    assert_eq!(cpu.cycle_count, 0);
    assert_eq!(cpu.version, CpuVersion::Ricoh2A03);
}

#[test]
fn nes_new_powers_up_cpu() {
    let nes = Nes::new(cart_with_program(&[]));
    assert_eq!(nes.cpu.registers.pc, 0x8000);
}

#[test]
fn fetch_reads_three_bytes() {
    let mut cpu = Cpu::new(cart_with_program(&[0xA9, 0x42, 0x17]));
    assert_eq!(cpu.fetch(), [0xA9, 0x42, 0x17]);
    assert_eq!(cpu.registers.pc, 0x8000);
}

#[test]
fn step_lda_immediate() {
    let mut cpu = Cpu::new(cart_with_program(&[0xA9, 0x42]));
    assert!(cpu.step_supported());
    cpu.step();
    assert_eq!(cpu.registers.a, 0x42);
    assert_eq!(cpu.registers.pc, 0x8002);
}

#[test]
fn step_cld_and_sei_clear_bits() {
    let mut cpu = Cpu::new(cart_with_program(&[0xD8, 0x00, 0x78]));
    cpu.registers.p = 0xFF;
    cpu.step();
    assert_eq!(cpu.registers.p, 0b1111_0111);
    assert_eq!(cpu.registers.pc, 0x8002);
    cpu.step();
    assert_eq!(cpu.registers.p, 0b1111_0011);
    assert_eq!(cpu.registers.pc, 0x8004);
}

#[test]
fn step_bpl_taken_and_not_taken() {
    let mut cpu = Cpu::new(cart_with_program(&[0x10, 0x10]));
    cpu.step();
    assert_eq!(cpu.registers.pc, 0x8012);
    let mut cpu = Cpu::new(cart_with_program(&[0x10, 0xFE]));
    cpu.step();
    assert_eq!(cpu.registers.pc, 0x8000);
    let mut cpu = Cpu::new(cart_with_program(&[0x10, 0x10]));
    cpu.registers.set_negative(true);
    cpu.step();
    assert_eq!(cpu.registers.pc, 0x8002);
}

#[test]
fn step_sta_absolute_stores_at_zero() {
    let mut cpu = Cpu::new(cart_with_program(&[0x8D, 0x12, 0x34]));
    cpu.registers.a = 0x99;
    cpu.step();
    assert_eq!(cpu.mmap.ram.0[0], 0x99);
    assert_eq!(cpu.mmap.ram.0[0x1234 & 0x7FF], 0);
    assert_eq!(cpu.registers.pc, 0x8002);
}

#[test]
fn step_jsr_pushes_pc_and_jumps() {
    let mut cpu = Cpu::new(cart_with_program(&[0x20, 0x00, 0x90]));
    cpu.step();
    assert_eq!(cpu.mmap.ram.0[0x1FD], 0x80);
    assert_eq!(cpu.mmap.ram.0[0x1FC], 0x00);
    assert_eq!(cpu.registers.s, 0xFB);
    assert_eq!(cpu.registers.pc, 0x0002);
}

#[test]
fn step_brk_pushes_pc_and_status() {
    let mut cpu = Cpu::new(cart_with_program(&[0x00]));
    cpu.registers.s = 0x01;
    cpu.step();
    assert_eq!(cpu.mmap.ram.0[0x101], 0x80);
    assert_eq!(cpu.mmap.ram.0[0x100], 0x00);
    assert_eq!(cpu.mmap.ram.0[0x1FF], 0b0011_0100);
    assert_eq!(cpu.registers.s, 0xFE);
    assert_eq!(cpu.registers.pc, 0x0000);
}

#[test]
fn step_supported_rejects_unhandled() {
    let mut cpu = Cpu::new(cart_with_program(&[0x69, 0x01]));
    assert!(!cpu.step_supported());
    let mut cpu = Cpu::new(cart_with_program(&[0x20, 0x00, 0x90]));
    cpu.registers.s = 1;
    assert!(!cpu.step_supported());
    let mut cpu = Cpu::new(cart_with_program(&[]));
    cpu.registers.pc = 0x0900;
    assert!(!cpu.step_supported());
    cpu.registers.pc = 0x0000;
    assert!(cpu.step_supported());
}

#[test]
fn add_with_carry_values() {
    let mut cpu = Cpu::new(cart_with_program(&[]));
    cpu.registers.a = 0x10;
    cpu.registers.set_carry(true);
    cpu.add_with_carry(0x20);
    assert_eq!(cpu.registers.a, 0x31);
    assert_eq!(cpu.registers.get_carry(), 0);
    assert_eq!(cpu.registers.get_zero(), 0);
    assert_eq!(cpu.cycle_count, 2);

    cpu.registers.a = 0xFF;
    cpu.add_with_carry(0x01);
    assert_eq!(cpu.registers.a, 0x00);
    assert_eq!(cpu.registers.get_carry(), 1);
    assert_eq!(cpu.registers.get_zero(), 2);
    assert_eq!(cpu.registers.get_negative(), 0);

    cpu.registers.a = 0xC0;
    cpu.registers.set_carry(false);
    cpu.add_with_carry(0xC0);
    assert_eq!(cpu.registers.a, 0x80);
    assert_eq!(cpu.registers.get_carry(), 1);
    assert_eq!(cpu.registers.get_overflow(), 0x40);
    assert_eq!(cpu.registers.get_negative(), 0x80);
    assert_eq!(cpu.cycle_count, 6);
}

#[test]
fn bitwise_and_values() {
    let mut cpu = Cpu::new(cart_with_program(&[]));
    cpu.registers.a = 0xF0;
    cpu.bitwise_and(0x0F);
    assert_eq!(cpu.registers.a, 0);
    assert_eq!(cpu.registers.get_zero(), 2);
    cpu.registers.a = 0xF0;
    cpu.bitwise_and(0x80);
    assert_eq!(cpu.registers.a, 0x80);
    assert_eq!(cpu.registers.get_zero(), 0);
    assert_eq!(cpu.registers.get_negative(), 0x80);
}

#[test]
fn arithmetic_shift_left_values() {
    let mut cpu = Cpu::new(cart_with_program(&[]));
    let mut byte = 0x41u8;
    cpu.arithmetic_shift_left(Some(&mut byte));
    assert_eq!(byte, 0x82);
    assert_eq!(cpu.registers.get_carry(), 1);
    assert_eq!(cpu.registers.get_negative(), 0x80);
    assert_eq!(cpu.registers.get_zero(), 0);
    cpu.registers.a = 0x80;
    cpu.arithmetic_shift_left(None);
    assert_eq!(cpu.registers.a, 0x80);
    assert_eq!(cpu.registers.get_zero(), 2);
    assert_eq!(cpu.registers.get_carry(), 0);
    assert_eq!(cpu.cycle_count, 4);
}

#[test]
fn branches_on_flags() {
    let mut cpu = Cpu::new(cart_with_program(&[]));
    cpu.registers.pc = 0x1000;
    cpu.branch_if_carry_clear(0x05);
    assert_eq!(cpu.registers.pc, 0x1007);
    assert_eq!(cpu.cycle_count, 3);
    cpu.registers.set_carry(true);
    cpu.branch_if_carry_clear(0x05);
    assert_eq!(cpu.registers.pc, 0x1007);
    assert_eq!(cpu.cycle_count, 5);

    let mut r = Registers::default();
    r.pc = 0x1000;
    Cpu::branch_if_carry_set(&mut r, 0xFE);
    assert_eq!(r.pc, 0x1000);
    r.set_carry(true);
    Cpu::branch_if_carry_set(&mut r, 0xFE);
    assert_eq!(r.pc, 0x1000);
    r.pc = 0x1000;
    Cpu::branch_if_carry_set(&mut r, 0xF0);
    assert_eq!(r.pc, 0x0FF2);

    r.pc = 0x2000;
    Cpu::branch_if_equal(&mut r, 0x10);
    assert_eq!(r.pc, 0x2000);
    r.set_zero(true);
    Cpu::branch_if_equal(&mut r, 0x10);
    assert_eq!(r.pc, 0x2012);

    r.pc = 0xFFFF;
    Cpu::branch_if_minus(&mut r, 0x01);
    assert_eq!(r.pc, 0xFFFF);
    r.set_negative(true);
    Cpu::branch_if_minus(&mut r, 0x01);
    assert_eq!(r.pc, 0x0002);
}

#[test]
fn bit_test_flags() {
    let mut r = Registers::default();
    r.a = 0x01;
    Cpu::bit_test(&mut r, 0xC0);
    assert_eq!(r.get_zero(), 2);
    assert_eq!(r.get_overflow(), 0x40);
    assert_eq!(r.get_negative(), 0x80);
    Cpu::bit_test(&mut r, 0x01);
    assert_eq!(r.get_zero(), 0);
    assert_eq!(r.get_overflow(), 0);
    assert_eq!(r.get_negative(), 0);
    let before = r.p;
    Cpu::return_from_interrupt(&mut r);
    assert_eq!(r.p, before);
}

#[test]
fn cycle_due_compares_with_count() {
    let mut cpu = Cpu::new(cart_with_program(&[]));
    assert!(cpu.cycle_due(1));
    assert!(!cpu.cycle_due(0));
    cpu.tick_clock(3);
    assert!(!cpu.cycle_due(3));
    assert!(cpu.cycle_due(4));
}

#[test]
fn step_through_test_registers() {
    // pc at 0x4017: the frame counter holds CLD, then two test registers
    let mut cpu = Cpu::new(cart_with_program(&[]));
    cpu.mmap.apu.frame_counter = 0xD8;
    cpu.registers.pc = 0x4017;
    cpu.registers.p = 0xFF;
    assert!(cpu.step_supported());
    cpu.step();
    assert_eq!(cpu.registers.p, 0b1111_0111);
    assert_eq!(cpu.registers.pc, 0x4019);
    assert_eq!(cpu.mmap.address.len(), 2);
    // the next opcode reads as 0x00 (BRK), which would write with addresses waiting
    assert!(!cpu.step_supported());
}

#[test]
fn tick_clock_wraps() {
    let mut cpu = Cpu::new(cart_with_program(&[]));
    cpu.tick_clock(5);
    assert_eq!(cpu.cycle_count, 5);
    cpu.cycle_count = usize::MAX;
    cpu.tick_clock(2);
    assert_eq!(cpu.cycle_count, 1);
}

#[test]
fn instruction_helpers_directly() {
    let mut cpu = Cpu::new(cart_with_program(&[]));
    cpu.load_to_register_a(OpArg::One(0x5A));
    assert_eq!(cpu.registers.a, 0x5A);
    cpu.store_a(OpArg::Two(0x0010));
    assert_eq!(cpu.mmap.ram.0[0x10], 0x5A);
    cpu.registers.p = 0;
    cpu.set_interrupt_disable();
    cpu.clear_decimal();
    assert_eq!(cpu.registers.p, 0);
    cpu.registers.pc = 0x1234;
    cpu.jsr(OpArg::Two(0x4321));
    assert_eq!(cpu.registers.pc, 0x4321);
    assert_eq!(cpu.mmap.ram.0[0x1FD], 0x12);
    assert_eq!(cpu.mmap.ram.0[0x1FC], 0x34);
    cpu.branch_if_plus(OpArg::One(0x80));
    assert_eq!(cpu.registers.pc, 0x42A1);
    cpu.brk(None);
    assert_eq!(cpu.registers.pc, 0xFFFE);
    assert_eq!(cpu.registers.s, 0xF8);
}

#[test]
fn decode_operations() {
    let mut cpu = Cpu::new(cart_with_program(&[]));
    let op = Operation::from_bytes(0xAD, 0x12, 0x34, &mut cpu);
    assert_eq!(op.instruction, Instruction::LDA);
    assert_eq!(op.mode, AddressingMode::Absolute);
    assert_eq!((op.arg1, op.arg2), (Some(0x12), Some(0x34)));
    let op = Operation::from_bytes(0x71, 0x12, 0x34, &mut cpu);
    assert_eq!(op.instruction, Instruction::ADC);
    assert_eq!(op.mode, AddressingMode::IndexedIndirect);
    assert_eq!((op.arg1, op.arg2), (Some(0x12), None));
    let op = Operation::from_bytes(0x0A, 0x12, 0x34, &mut cpu);
    assert_eq!(op.instruction, Instruction::ASL);
    assert_eq!(op.mode, AddressingMode::Accumulator);
    assert_eq!((op.arg1, op.arg2), (None, None));
    let op = Operation::from_bytes(0x6C, 0x12, 0x34, &mut cpu);
    assert_eq!(op.instruction, Instruction::JMP);
    assert_eq!(op.mode, AddressingMode::Indirect);
    assert_eq!((op.arg1, op.arg2), (None, None));
    let op = cpu.decode([0x10, 0x05, 0x06]);
    assert_eq!(op.instruction, Instruction::BPL);
    assert_eq!(op.mode, AddressingMode::Relative);
    assert_eq!((op.arg1, op.arg2), (Some(0x05), None));
}

#[test]
fn get_argument_modes() {
    let mut map = MemoryMap::new(Cart::empty());
    let mut r = Registers::default();
    r.a = 0x77;
    r.x = 0x02;
    r.y = 0x03;
    map.write(0x0012, 0x11);
    map.write(0x0014, 0x22);
    map.write(0x0015, 0x01);
    map.write(0x0115, 0x33);
    map.write(0x0200, 0x44);
    map.write(0x0104, 0x02);
    map.write(0x0000, 0x10);
    map.write(0x0103, 0x05);
    map.ppu.ppuctrl = 0x5C;
    assert_eq!(Operation::get_argument(&r, &mut map, &AddressingMode::Implicit, 0x12, 0), None);
    assert_eq!(Operation::get_argument(&r, &mut map, &AddressingMode::Accumulator, 0x12, 0), Some(0x77));
    assert_eq!(Operation::get_argument(&r, &mut map, &AddressingMode::Immediate, 0x12, 0), Some(0x12));
    assert_eq!(Operation::get_argument(&r, &mut map, &AddressingMode::ZeroPage, 0x12, 0), Some(0x11));
    assert_eq!(Operation::get_argument(&r, &mut map, &AddressingMode::ZeroPageX, 0x12, 0), Some(0x22));
    assert_eq!(Operation::get_argument(&r, &mut map, &AddressingMode::ZeroPageY, 0x12, 0), Some(0x01));
    assert_eq!(Operation::get_argument(&r, &mut map, &AddressingMode::AbsoluteX, 0x13, 0), Some(0x01));
    assert_eq!(Operation::get_argument(&r, &mut map, &AddressingMode::AbsoluteY, 0x12, 0), Some(0x01));
    assert_eq!(Operation::get_argument(&r, &mut map, &AddressingMode::Absolute, 0x02, 0x00), Some(0x44));
    // [0x14] + [0x15] = 0x23, times 256 is 0x2300, which selects ppuctrl
    assert_eq!(Operation::get_argument(&r, &mut map, &AddressingMode::IndexedIndirect, 0x12, 0), Some(0x5C));
    // [0x00] = 0x10, [(0x00 + 1) * 256 + 3] = [0x0103] = 0x05, and [0x15] = 0x01
    assert_eq!(Operation::get_argument(&r, &mut map, &AddressingMode::IndirectIndexed, 0x00, 0), Some(0x01));
    assert_eq!(map.ram.0[0x10], 0);
}
