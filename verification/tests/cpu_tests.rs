//! CPU behaviour: reset, instruction semantics, cycle accounting, stack,
//! interrupts, and the bus routing they run through.

use nestadia::ExecutionMode;
use nestadia::bus::CpuBus;
use nestadia::cartridge::Cartridge;
use nestadia::cpu::Cpu;
use nestadia::opcode::Opcode;
use nestadia::status::{FLAG_B, FLAG_C, FLAG_I, FLAG_N, FLAG_U, FLAG_V, FLAG_Z};

/// Builds an NROM image: one 16 KiB PRG bank of NOPs with the given bytes
/// patched in (by PRG offset) and the reset vector pointing at 0x8000.
fn build_nrom(patches: &[(usize, u8)]) -> Vec<u8> {
    let mut rom = vec![0x4E, 0x45, 0x53, 0x1A, 1, 1, 0, 0, 0, 0, 0, 0, 0, 0, 0, 0];
    let mut prg = vec![0xEA; 16384];
    prg[0x3FFC] = 0x00;
    prg[0x3FFD] = 0x80;
    for &(off, byte) in patches {
        prg[off] = byte;
    }
    rom.extend(prg);
    rom.extend(std::iter::repeat(0u8).take(8192));
    rom
}

/// A reset CPU and a bus around the given image.
fn power_on(rom: &[u8]) -> (Cpu, CpuBus) {
    let cart = Cartridge::load(rom, None).unwrap();
    let bus = CpuBus::new(cart);
    let mut cpu = Cpu::new(ExecutionMode::Ring0);
    cpu.reset(&bus);
    (cpu, bus)
}

/// Runs exactly one instruction: the executing clock call plus the debt it
/// leaves.
fn step(cpu: &mut Cpu, bus: &mut CpuBus) {
    cpu.cycles = 0;
    cpu.clock(bus);
    while cpu.cycles > 0 {
        cpu.clock(bus);
    }
}

#[test]
fn reset_loads_vector_and_registers() {
    let (cpu, _bus) = power_on(&build_nrom(&[]));
    assert_eq!(cpu.pc, 0x8000);
    assert_eq!(cpu.st, 0xFD);
    assert_eq!(cpu.status_register, 0x20);
    assert_eq!(cpu.a, 0);
    assert_eq!(cpu.x, 0);
    assert_eq!(cpu.y, 0);
    assert_eq!(cpu.cycles, 8);
}

#[test]
fn adc_sets_carry_overflow_and_sign() {
    // ADC #$50 with A=0x50 and C=0: signed overflow, negative result.
    let (mut cpu, mut bus) = power_on(&build_nrom(&[(0, 0x69), (1, 0x50)]));
    cpu.a = 0x50;
    cpu.status_register = 0;
    cpu.cycles = 0;
    cpu.clock(&mut bus);
    assert_eq!(cpu.a, 0xA0);
    assert_ne!(cpu.status_register & FLAG_N, 0);
    assert_ne!(cpu.status_register & FLAG_V, 0);
    assert_eq!(cpu.status_register & FLAG_Z, 0);
    assert_eq!(cpu.status_register & FLAG_C, 0);
    // Immediate ADC costs two cycles; one was spent executing.
    assert_eq!(cpu.cycles, 1);
}

#[test]
fn adc_carry_out_without_overflow() {
    // 0xFF + 2: carry out, no signed overflow.
    let (mut cpu, mut bus) = power_on(&build_nrom(&[(0, 0x69), (1, 0x02)]));
    cpu.a = 0xFF;
    cpu.status_register = 0;
    step(&mut cpu, &mut bus);
    assert_eq!(cpu.a, 0x01);
    assert_ne!(cpu.status_register & FLAG_C, 0);
    assert_eq!(cpu.status_register & FLAG_V, 0);
}

#[test]
fn sbc_boundary_borrow() {
    // SBC #$F0 with A=0x50 and C=1: 0x50 - 0xF0 = 0x60 with a borrow
    // (C=0). The result has the correct sign for the signed operands, so
    // the signed-overflow formula leaves V clear.
    let (mut cpu, mut bus) = power_on(&build_nrom(&[(0, 0xE9), (1, 0xF0)]));
    cpu.a = 0x50;
    cpu.status_register = FLAG_C;
    step(&mut cpu, &mut bus);
    assert_eq!(cpu.a, 0x60);
    assert_eq!(cpu.status_register & FLAG_C, 0);
    assert_eq!(cpu.status_register & FLAG_Z, 0);
    assert_eq!(cpu.status_register & FLAG_N, 0);
    assert_eq!(cpu.status_register & FLAG_V, 0);
}

#[test]
fn jmp_indirect_page_wrap_bug() {
    // JMP ($10FF) with 0x10FF=0x34, 0x1000=0x12, 0x1100=0xAB must land on
    // 0x1234: the high byte comes from the start of the same page.
    let (mut cpu, mut bus) = power_on(&build_nrom(&[]));
    bus.write(0x0200, 0x6C);
    bus.write(0x0201, 0xFF);
    bus.write(0x0202, 0x10);
    bus.write(0x10FF, 0x34);
    bus.write(0x1000, 0x12);
    bus.write(0x1100, 0xAB);
    cpu.pc = 0x0200;
    step(&mut cpu, &mut bus);
    assert_eq!(cpu.pc, 0x1234);
}

#[test]
fn branch_taken_and_page_cross_cycles() {
    // BEQ +4 at 0x80FE with Z=1: the branch is taken from the successor
    // address 0x8100 to 0x8104, on the same page: three cycles in all.
    let (mut cpu, mut bus) = power_on(&build_nrom(&[(0x0FE, 0xF0), (0x0FF, 0x04)]));
    cpu.pc = 0x80FE;
    cpu.status_register = FLAG_Z;
    cpu.cycles = 0;
    cpu.clock(&mut bus);
    assert_eq!(cpu.pc, 0x8104);
    assert_eq!(cpu.cycles, 2);

    // BEQ +0x20 at 0x80F0 branches from 0x80F2 to 0x8112, crossing into
    // the next page: four cycles in all.
    let (mut cpu, mut bus) = power_on(&build_nrom(&[(0x0F0, 0xF0), (0x0F1, 0x20)]));
    cpu.pc = 0x80F0;
    cpu.status_register = FLAG_Z;
    cpu.cycles = 0;
    cpu.clock(&mut bus);
    assert_eq!(cpu.pc, 0x8112);
    assert_eq!(cpu.cycles, 3);
}

#[test]
fn branch_not_taken_costs_base_cycles() {
    let (mut cpu, mut bus) = power_on(&build_nrom(&[(0x000, 0xF0), (0x001, 0x04)]));
    cpu.status_register = 0;
    cpu.cycles = 0;
    cpu.clock(&mut bus);
    assert_eq!(cpu.pc, 0x8002);
    assert_eq!(cpu.cycles, 1);
}

#[test]
fn pha_pla_round_trip() {
    // PHA, then PLA: the accumulator comes back, Z and N follow it, and
    // the stack pointer returns.
    let (mut cpu, mut bus) = power_on(&build_nrom(&[(0, 0x48), (1, 0x68)]));
    cpu.a = 0x7F;
    let st0 = cpu.st;
    step(&mut cpu, &mut bus);
    assert_eq!(cpu.st, st0.wrapping_sub(1));
    cpu.a = 0x00;
    step(&mut cpu, &mut bus);
    assert_eq!(cpu.a, 0x7F);
    assert_eq!(cpu.st, st0);
    assert_eq!(cpu.status_register & FLAG_Z, 0);
    assert_eq!(cpu.status_register & FLAG_N, 0);
}

#[test]
fn php_plp_round_trip() {
    // PHP, then PLP: every status bit returns except B and U, which come
    // back cleared.
    let (mut cpu, mut bus) = power_on(&build_nrom(&[(0, 0x08), (1, 0x28)]));
    cpu.status_register = FLAG_C | FLAG_V;
    step(&mut cpu, &mut bus);
    cpu.status_register = 0xFF;
    step(&mut cpu, &mut bus);
    assert_eq!(cpu.status_register, FLAG_C | FLAG_V);
    assert_eq!(cpu.status_register & FLAG_B, 0);
    assert_eq!(cpu.status_register & FLAG_U, 0);
}

#[test]
fn clc_and_sec_are_idempotent() {
    let (mut cpu, mut bus) = power_on(&build_nrom(&[(0, 0x18), (1, 0x18), (2, 0x38), (3, 0x38)]));
    cpu.status_register = FLAG_C;
    step(&mut cpu, &mut bus);
    assert_eq!(cpu.status_register & FLAG_C, 0);
    step(&mut cpu, &mut bus);
    assert_eq!(cpu.status_register & FLAG_C, 0);
    step(&mut cpu, &mut bus);
    assert_ne!(cpu.status_register & FLAG_C, 0);
    step(&mut cpu, &mut bus);
    assert_ne!(cpu.status_register & FLAG_C, 0);
}

#[test]
fn stack_wraps_over_257_pushes_and_pops() {
    let (mut cpu, mut bus) = power_on(&build_nrom(&[]));
    let st0 = cpu.st;
    // 257 values that do not repeat with period 256, so the wrap-around
    // overwrite is visible: the first byte is 0, the 257th is 5.
    let value = |i: u16| (i % 251) as u8;
    for i in 0..257u16 {
        cpu.stack_push(&mut bus, value(i));
    }
    // The stack pointer wrapped the full page once and one slot more.
    assert_eq!(cpu.st, st0.wrapping_sub(1));
    // The 257th push wrapped around to the slot the pointer first named,
    // overwriting the first byte with the last.
    assert_eq!(bus.read(0x0100 + st0 as u16), value(256));
    let mut popped = Vec::new();
    for _ in 0..257 {
        popped.push(cpu.stack_pop(&bus));
    }
    // The pointer is back, and pops never write memory: the byte at the
    // starting slot is exactly what the push phase left there.
    assert_eq!(cpu.st, st0);
    assert_eq!(bus.read(0x0100 + st0 as u16), value(256));
    // The first pop returns the last pushed byte; the following 255 walk
    // the most recent slots backwards; the 257th wraps around to the
    // overwritten starting slot again.
    assert_eq!(popped[0], value(256));
    for i in 1..256 {
        assert_eq!(popped[i], value(256 - i as u16));
    }
    assert_eq!(popped[256], value(256));
}

#[test]
fn opcode_cycles_are_at_least_two() {
    for b in 0..=255u8 {
        assert!(Opcode::of_byte(b).cycles() >= 2);
    }
    assert_eq!(Opcode::of_byte(0xEA).cycles(), 2);
    assert_eq!(Opcode::of_byte(0x00).cycles(), 7);
    assert_eq!(Opcode::of_byte(0x6C).cycles(), 5);
}

#[test]
fn unknown_opcode_runs_as_nop() {
    let (mut cpu, mut bus) = power_on(&build_nrom(&[(0, 0xFF)]));
    let a = cpu.a;
    cpu.cycles = 0;
    cpu.clock(&mut bus);
    assert_eq!(cpu.pc, 0x8001);
    assert_eq!(cpu.a, a);
    assert_eq!(cpu.cycles, 1);
}

#[test]
fn irq_enters_vector_and_masks() {
    // IRQ vector at 0xFFFE maps to PRG offset 0x3FFE on a 16 KiB NROM.
    let (mut cpu, mut bus) = power_on(&build_nrom(&[(0x3FFE, 0x34), (0x3FFF, 0x12)]));
    cpu.status_register = 0;
    cpu.pc = 0x8056;
    cpu.cycles = 0;
    let st0 = cpu.st;
    cpu.irq(&mut bus);
    assert_eq!(cpu.pc, 0x1234);
    assert_ne!(cpu.status_register & FLAG_I, 0);
    assert_eq!(cpu.cycles, 7);
    assert_eq!(cpu.st, st0.wrapping_sub(3));
    // Pushed: PC high, PC low, then status with U set and B clear.
    assert_eq!(bus.read(0x0100 + st0 as u16), 0x80);
    assert_eq!(bus.read(0x0100 + st0.wrapping_sub(1) as u16), 0x56);
    let pushed = bus.read(0x0100 + st0.wrapping_sub(2) as u16);
    assert_ne!(pushed & FLAG_U, 0);
    assert_eq!(pushed & FLAG_B, 0);
}

#[test]
fn irq_is_masked_by_i_flag() {
    let (mut cpu, mut bus) = power_on(&build_nrom(&[(0x3FFE, 0x34), (0x3FFF, 0x12)]));
    cpu.status_register = FLAG_I;
    cpu.cycles = 0;
    let pc0 = cpu.pc;
    cpu.irq(&mut bus);
    assert_eq!(cpu.pc, pc0);
}

#[test]
fn nmi_is_unconditional() {
    // NMI vector at 0xFFFA maps to PRG offset 0x3FFA.
    let (mut cpu, mut bus) = power_on(&build_nrom(&[(0x3FFA, 0x78), (0x3FFB, 0x56)]));
    cpu.status_register = FLAG_I;
    cpu.cycles = 0;
    cpu.nmi(&mut bus);
    assert_eq!(cpu.pc, 0x5678);
    assert_eq!(cpu.cycles, 7);
}

#[test]
fn brk_pushes_b_flag_and_takes_irq_vector() {
    let (mut cpu, mut bus) = power_on(&build_nrom(&[(0x000, 0x00), (0x3FFE, 0x34), (
        0x3FFF,
        0x12,
    )]));
    cpu.status_register = 0;
    let st0 = cpu.st;
    cpu.cycles = 0;
    cpu.clock(&mut bus);
    assert_eq!(cpu.pc, 0x1234);
    // The return address skips the padding byte after BRK.
    assert_eq!(bus.read(0x0100 + st0 as u16), 0x80);
    assert_eq!(bus.read(0x0100 + st0.wrapping_sub(1) as u16), 0x02);
    let pushed = bus.read(0x0100 + st0.wrapping_sub(2) as u16);
    assert_ne!(pushed & FLAG_B, 0);
    assert_ne!(pushed & FLAG_U, 0);
    // BRK costs seven cycles; one was spent executing.
    assert_eq!(cpu.cycles, 6);
}

#[test]
fn repurposed_opcode_reads_secret_bytes() {
    let (mut cpu, mut bus) = power_on(&build_nrom(&[(0, 0x02), (1, 0x02)]));
    cpu.set_secret_data(vec![10, 20, 30], vec![77]);
    cpu.a = 4;
    step(&mut cpu, &mut bus);
    // Ring0: index 4 % 3 = 1.
    assert_eq!(cpu.a, 20);
    cpu.execution_mode = ExecutionMode::Ring3;
    step(&mut cpu, &mut bus);
    assert_eq!(cpu.a, 77);
}

#[test]
fn asl_memory_updates_flags_from_result() {
    // ASL $10 with 0x81 at 0x0010: result 0x02, carry from bit 7, N and Z
    // from the shifted value.
    let (mut cpu, mut bus) = power_on(&build_nrom(&[(0, 0x06), (1, 0x10)]));
    bus.write(0x0010, 0x81);
    cpu.status_register = FLAG_N | FLAG_Z;
    step(&mut cpu, &mut bus);
    assert_eq!(bus.read(0x0010), 0x02);
    assert_ne!(cpu.status_register & FLAG_C, 0);
    assert_eq!(cpu.status_register & FLAG_N, 0);
    assert_eq!(cpu.status_register & FLAG_Z, 0);
}

#[test]
fn ror_accumulator_rotates_through_carry() {
    // ROR A with A=0x01 and C=1: result 0x80, carry kept, N set.
    let (mut cpu, mut bus) = power_on(&build_nrom(&[(0, 0x6A)]));
    cpu.a = 0x01;
    cpu.status_register = FLAG_C;
    step(&mut cpu, &mut bus);
    assert_eq!(cpu.a, 0x80);
    assert_ne!(cpu.status_register & FLAG_C, 0);
    assert_ne!(cpu.status_register & FLAG_N, 0);
    assert_eq!(cpu.status_register & FLAG_Z, 0);
}

#[test]
fn rol_memory_rotates_through_carry() {
    // ROL $10 with 0x80 and C=0: result 0x00, carry out, Z set.
    let (mut cpu, mut bus) = power_on(&build_nrom(&[(0, 0x26), (1, 0x10)]));
    bus.write(0x0010, 0x80);
    cpu.status_register = 0;
    step(&mut cpu, &mut bus);
    assert_eq!(bus.read(0x0010), 0x00);
    assert_ne!(cpu.status_register & FLAG_C, 0);
    assert_ne!(cpu.status_register & FLAG_Z, 0);
    assert_eq!(cpu.status_register & FLAG_N, 0);
}

#[test]
fn cmp_zero_page_uses_zero_page_operand() {
    // CMP $10 must read the zero-page byte itself, not go through the
    // X-indexed indirect mode: X is nonzero and the decoy pointer would
    // compare unequal.
    let (mut cpu, mut bus) = power_on(&build_nrom(&[(0, 0xC5), (1, 0x10)]));
    bus.write(0x0010, 0x42);
    bus.write(0x0015, 0x99);
    cpu.a = 0x42;
    cpu.x = 5;
    step(&mut cpu, &mut bus);
    assert_ne!(cpu.status_register & FLAG_Z, 0);
    assert_ne!(cpu.status_register & FLAG_C, 0);
}

#[test]
fn bit_copies_operand_bits_into_v_and_n() {
    // BIT $10 with operand 0xC0 and A=0x01: Z from A & M == 0, V and N
    // from bits 6 and 7 of the operand itself.
    let (mut cpu, mut bus) = power_on(&build_nrom(&[(0, 0x24), (1, 0x10)]));
    bus.write(0x0010, 0xC0);
    cpu.a = 0x01;
    cpu.status_register = 0;
    step(&mut cpu, &mut bus);
    assert_ne!(cpu.status_register & FLAG_Z, 0);
    assert_ne!(cpu.status_register & FLAG_V, 0);
    assert_ne!(cpu.status_register & FLAG_N, 0);
}

#[test]
fn jsr_rts_round_trip() {
    // JSR $8010, then RTS from there: execution resumes after the call.
    let (mut cpu, mut bus) = power_on(&build_nrom(&[
        (0x000, 0x20),
        (0x001, 0x10),
        (0x002, 0x80),
        (0x010, 0x60),
    ]));
    step(&mut cpu, &mut bus);
    assert_eq!(cpu.pc, 0x8010);
    step(&mut cpu, &mut bus);
    assert_eq!(cpu.pc, 0x8003);
}

#[test]
fn indexed_read_page_cross_adds_a_cycle() {
    // LDA $80F8,X with X=0x10 crosses a page: five cycles instead of four.
    let (mut cpu, mut bus) = power_on(&build_nrom(&[(0x000, 0xBD), (0x001, 0xF8), (
        0x002,
        0x80,
    )]));
    cpu.x = 0x10;
    cpu.cycles = 0;
    cpu.clock(&mut bus);
    assert_eq!(cpu.cycles, 4);

    // Without the crossing it stays at four.
    let (mut cpu, mut bus) = power_on(&build_nrom(&[(0x000, 0xBD), (0x001, 0x10), (
        0x002,
        0x80,
    )]));
    cpu.x = 0x10;
    cpu.cycles = 0;
    cpu.clock(&mut bus);
    assert_eq!(cpu.cycles, 3);
}

#[test]
fn inc_dec_wrap_and_set_flags() {
    let (mut cpu, mut bus) = power_on(&build_nrom(&[(0, 0xE6), (1, 0x10), (2, 0xC6), (
        3,
        0x10,
    )]));
    bus.write(0x0010, 0xFF);
    step(&mut cpu, &mut bus);
    assert_eq!(bus.read(0x0010), 0x00);
    assert_ne!(cpu.status_register & FLAG_Z, 0);
    step(&mut cpu, &mut bus);
    assert_eq!(bus.read(0x0010), 0xFF);
    assert_ne!(cpu.status_register & FLAG_N, 0);
}

#[test]
fn ram_is_mirrored_every_2k() {
    let (_cpu, mut bus) = power_on(&build_nrom(&[]));
    bus.write(0x0000, 0x12);
    assert_eq!(bus.read(0x0800), 0x12);
    assert_eq!(bus.read(0x1800), 0x12);
    bus.write(0x1FFF, 0x34);
    assert_eq!(bus.read(0x07FF), 0x34);
}

#[test]
fn ppu_register_latches_are_mirrored() {
    let (_cpu, mut bus) = power_on(&build_nrom(&[]));
    bus.write(0x2000, 0x55);
    assert_eq!(bus.read(0x3FF8), 0x55);
    bus.write(0x2007, 0x66);
    assert_eq!(bus.read(0x200F), 0x66);
}

#[test]
fn controller_strobe_latches_state() {
    let (_cpu, mut bus) = power_on(&build_nrom(&[]));
    bus.controller1_state = 0xA5;
    assert_eq!(bus.read(0x4016), 0x00);
    bus.write(0x4016, 1);
    assert_eq!(bus.read(0x4016), 0xA5);
}

#[test]
fn apu_range_reads_zero_and_drops_writes() {
    let (_cpu, mut bus) = power_on(&build_nrom(&[]));
    bus.write(0x4000, 0x77);
    assert_eq!(bus.read(0x4000), 0);
    assert_eq!(bus.read(0x4015), 0);
    assert_eq!(bus.read(0x4018), 0);
}

#[test]
fn transfers_update_flags() {
    // TAX with A=0: Z set. TXS never touches flags.
    let (mut cpu, mut bus) = power_on(&build_nrom(&[(0, 0xAA), (1, 0x9A)]));
    cpu.a = 0;
    cpu.x = 0;
    step(&mut cpu, &mut bus);
    assert_ne!(cpu.status_register & FLAG_Z, 0);
    cpu.x = 0x80;
    let flags = cpu.status_register;
    step(&mut cpu, &mut bus);
    assert_eq!(cpu.st, 0x80);
    assert_eq!(cpu.status_register, flags);
}

#[test]
fn branch_backwards_wraps_the_offset() {
    // BNE -2 at 0x8000 with Z=0 loops back onto itself.
    let (mut cpu, mut bus) = power_on(&build_nrom(&[(0x000, 0xD0), (0x001, 0xFE)]));
    cpu.status_register = 0;
    cpu.cycles = 0;
    cpu.clock(&mut bus);
    assert_eq!(cpu.pc, 0x8000);
    assert_eq!(cpu.cycles, 2);
}

#[test]
fn indirect_indexed_read_pays_page_cross() {
    // LDA ($10),Y with the pointer 0x80F8 and Y=0x10 crosses a page: six
    // cycles instead of five.
    let (mut cpu, mut bus) = power_on(&build_nrom(&[(0x000, 0xB1), (0x001, 0x10)]));
    bus.write(0x0010, 0xF8);
    bus.write(0x0011, 0x80);
    cpu.y = 0x10;
    cpu.cycles = 0;
    cpu.clock(&mut bus);
    assert_eq!(cpu.cycles, 5);

    let (mut cpu, mut bus) = power_on(&build_nrom(&[(0x000, 0xB1), (0x001, 0x10)]));
    bus.write(0x0010, 0xF8);
    bus.write(0x0011, 0x80);
    cpu.y = 0;
    cpu.cycles = 0;
    cpu.clock(&mut bus);
    assert_eq!(cpu.cycles, 4);
}

#[test]
fn indirect_indexed_pointer_wraps_within_page_zero() {
    // LDA ($FF),Y: both pointer bytes come from page zero, so the high
    // byte is fetched from 0x0000, not 0x0100. With 0x00 at 0x00FF,
    // 0x03 at 0x0000 and a decoy 0x07 at 0x0100, the base must be 0x0300.
    let (mut cpu, mut bus) = power_on(&build_nrom(&[(0x000, 0xB1), (0x001, 0xFF)]));
    bus.write(0x00FF, 0x00);
    bus.write(0x0000, 0x03);
    bus.write(0x0100, 0x07);
    bus.write(0x0300, 0x42);
    bus.write(0x0700, 0x99);
    cpu.y = 0;
    step(&mut cpu, &mut bus);
    assert_eq!(cpu.a, 0x42);
}

#[test]
fn zero_page_indexed_wraps_within_page_zero() {
    // LDA $FF,X with X=2 wraps to 0x0001; without the wrap it would read
    // the decoy at 0x0101.
    let (mut cpu, mut bus) = power_on(&build_nrom(&[(0x000, 0xB5), (0x001, 0xFF)]));
    bus.write(0x0001, 0x77);
    bus.write(0x0101, 0x88);
    cpu.x = 2;
    step(&mut cpu, &mut bus);
    assert_eq!(cpu.a, 0x77);
}

#[test]
fn logic_ops_update_accumulator_and_flags() {
    // ORA #$0F, AND #$F1, EOR #$01.
    let (mut cpu, mut bus) = power_on(&build_nrom(&[
        (0, 0x09),
        (1, 0x0F),
        (2, 0x29),
        (3, 0xF1),
        (4, 0x49),
        (5, 0x01),
    ]));
    cpu.a = 0xF0;
    step(&mut cpu, &mut bus);
    assert_eq!(cpu.a, 0xFF);
    assert_ne!(cpu.status_register & FLAG_N, 0);
    step(&mut cpu, &mut bus);
    assert_eq!(cpu.a, 0xF1);
    step(&mut cpu, &mut bus);
    assert_eq!(cpu.a, 0xF0);
}

#[test]
fn rti_restores_status_and_pc() {
    // Hand-build an interrupt frame on the stack, then RTI through it.
    let (mut cpu, mut bus) = power_on(&build_nrom(&[(0, 0x40)]));
    cpu.stack_push(&mut bus, 0x90);
    cpu.stack_push(&mut bus, 0x21);
    cpu.stack_push(&mut bus, 0xFF);
    step(&mut cpu, &mut bus);
    assert_eq!(cpu.pc, 0x9021);
    // B and U are cleared on the way out.
    assert_eq!(cpu.status_register, 0xFF & !FLAG_B & !FLAG_U);
}

#[test]
fn cpx_cpy_compare_index_registers() {
    let (mut cpu, mut bus) = power_on(&build_nrom(&[(0, 0xE0), (1, 0x10), (2, 0xC0), (
        3,
        0x30,
    )]));
    cpu.x = 0x10;
    cpu.y = 0x20;
    step(&mut cpu, &mut bus);
    assert_ne!(cpu.status_register & FLAG_Z, 0);
    assert_ne!(cpu.status_register & FLAG_C, 0);
    step(&mut cpu, &mut bus);
    assert_eq!(cpu.status_register & FLAG_Z, 0);
    assert_eq!(cpu.status_register & FLAG_C, 0);
    assert_ne!(cpu.status_register & FLAG_N, 0);
}

#[test]
fn sta_indexed_indirect_stores_through_pointer() {
    // STA ($10,X) with X=4: the pointer at 0x14/0x15 names 0x0300.
    let (mut cpu, mut bus) = power_on(&build_nrom(&[(0, 0x81), (1, 0x10)]));
    bus.write(0x0014, 0x00);
    bus.write(0x0015, 0x03);
    cpu.a = 0x5E;
    cpu.x = 4;
    step(&mut cpu, &mut bus);
    assert_eq!(bus.read(0x0300), 0x5E);
}

#[test]
fn countdown_loop_runs_to_completion() {
    // LDX #3; DEX; BNE -3: three trips around the loop, then fall
    // through.
    let (mut cpu, mut bus) = power_on(&build_nrom(&[
        (0, 0xA2),
        (1, 0x03),
        (2, 0xCA),
        (3, 0xD0),
        (4, 0xFD),
    ]));
    step(&mut cpu, &mut bus);
    assert_eq!(cpu.x, 3);
    for _ in 0..6 {
        step(&mut cpu, &mut bus);
    }
    assert_eq!(cpu.x, 0);
    assert_ne!(cpu.status_register & FLAG_Z, 0);
    assert_eq!(cpu.pc, 0x8005);
}

#[test]
fn sta_indexed_never_pays_page_cross() {
    // STA $80F8,X with X=0x10 crosses a page but stores cost a flat five
    // cycles.
    let (mut cpu, mut bus) = power_on(&build_nrom(&[(0x000, 0x9D), (0x001, 0xF8), (
        0x002,
        0x80,
    )]));
    cpu.a = 0x31;
    cpu.x = 0x10;
    cpu.cycles = 0;
    cpu.clock(&mut bus);
    assert_eq!(cpu.cycles, 4);
}
