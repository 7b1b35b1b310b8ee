use nes_core::cpu::Cpu;
use nes_core::cpu_ops::{decode, Instr};
use nes_core::mappers::{Mapper, Mapper000};
use nes_core::memory::Memory;

const C: u8 = 0x01;
const Z: u8 = 0x02;
const I: u8 = 0x04;
const V: u8 = 0x40;
const N: u8 = 0x80;

/// A 16 KiB NROM cartridge with `program` at 0xC000 (mirrored from 0x8000)
/// and the reset vector pointing at `start`.
fn cartridge(program: &[u8], start: u16) -> Mapper000 {
    let mut rom = vec![0u8; 0x4000];
    rom[..program.len()].copy_from_slice(program);
    rom[0x3FFC] = (start & 0xFF) as u8;
    rom[0x3FFD] = (start >> 8) as u8;
    let mut m = Mapper000::new();
    m.load_prg_rom(&rom);
    m
}

fn boot(program: &[u8]) -> (Cpu, Mapper000) {
    let mut m = cartridge(program, 0xC000);
    let mut cpu = Cpu::new();
    cpu.reset(&mut m);
    (cpu, m)
}

fn run(cpu: &mut Cpu, m: &mut Mapper000, steps: usize) {
    for _ in 0..steps {
        cpu.execute_single_instruction(m);
    }
}

/// Cycles taken by the next instruction.
fn cycles_of_step(cpu: &mut Cpu, m: &mut Mapper000) -> u64 {
    let before = cpu.cycles();
    cpu.execute_single_instruction(m);
    cpu.cycles() - before
}

#[test]
fn new_cpu_is_zeroed() {
    let cpu = Cpu::new();
    assert_eq!((cpu.a(), cpu.x(), cpu.y(), cpu.pc(), cpu.s(), cpu.p(), cpu.cycles()), (0, 0, 0, 0, 0, 0, 0));
}

#[test]
fn reset_loads_vector_and_registers() {
    let (cpu, _) = boot(&[0xEA]);
    assert_eq!(cpu.pc(), 0xC000);
    assert_eq!((cpu.a(), cpu.x(), cpu.y()), (0, 0, 0));
    assert_eq!(cpu.s(), 0xFD);
    assert_eq!(cpu.p(), I);
    assert_eq!(cpu.cycles(), 7);
}

#[test]
fn reset_twice_gives_same_registers() {
    let (mut cpu, mut m) = boot(&[0xA9, 0x42, 0xA2, 0x07, 0x38]);
    run(&mut cpu, &mut m, 3);
    cpu.reset(&mut m);
    let first = (cpu.a(), cpu.x(), cpu.y(), cpu.s(), cpu.p(), cpu.pc());
    let cycles = cpu.cycles();
    cpu.reset(&mut m);
    assert_eq!((cpu.a(), cpu.x(), cpu.y(), cpu.s(), cpu.p(), cpu.pc()), first);
    assert_eq!(cpu.cycles(), cycles + 7);
}

#[test]
fn lda_adc_brk_program() {
    let (mut cpu, mut m) = boot(&[0xA9, 0x05, 0x69, 0x03, 0x00]);
    run(&mut cpu, &mut m, 2);
    assert_eq!(cpu.a(), 0x08);
    assert_eq!(cpu.p() & (C | Z | N), 0);
    assert_eq!(cpu.cycles(), 11);
}

#[test]
fn adc_wraps_to_zero_with_carry() {
    let (mut cpu, mut m) = boot(&[0xA9, 0xFF, 0x69, 0x01]);
    run(&mut cpu, &mut m, 2);
    assert_eq!(cpu.a(), 0x00);
    assert_eq!(cpu.p() & C, C);
    assert_eq!(cpu.p() & Z, Z);
    assert_eq!(cpu.p() & N, 0);
    assert_eq!(cpu.p() & V, 0);
}

#[test]
fn adc_signed_overflow() {
    let (mut cpu, mut m) = boot(&[0xA9, 0x7F, 0x69, 0x01]);
    run(&mut cpu, &mut m, 2);
    assert_eq!(cpu.a(), 0x80);
    assert_eq!(cpu.p() & C, 0);
    assert_eq!(cpu.p() & Z, 0);
    assert_eq!(cpu.p() & N, N);
    assert_eq!(cpu.p() & V, V);
}

#[test]
fn adc_with_carry_clear_is_sum_mod_256() {
    // CLC; LDA #$C8; ADC #$64: 200 + 100 = 300
    let (mut cpu, mut m) = boot(&[0x18, 0xA9, 0xC8, 0x69, 0x64]);
    run(&mut cpu, &mut m, 3);
    assert_eq!(cpu.a(), (300 % 256) as u8);
    assert_eq!(cpu.p() & C, C);
}

#[test]
fn sbc_with_carry_set_subtracts() {
    // SEC; LDA #$50; SBC #$30
    let (mut cpu, mut m) = boot(&[0x38, 0xA9, 0x50, 0xE9, 0x30]);
    run(&mut cpu, &mut m, 3);
    assert_eq!(cpu.a(), 0x20);
    assert_eq!(cpu.p() & C, C);
    // SEC; LDA #$30; SBC #$50 borrows
    let (mut cpu, mut m) = boot(&[0x38, 0xA9, 0x30, 0xE9, 0x50]);
    run(&mut cpu, &mut m, 3);
    assert_eq!(cpu.a(), 0xE0);
    assert_eq!(cpu.p() & C, 0);
    assert_eq!(cpu.p() & N, N);
}

#[test]
fn dex_bne_loop() {
    let (mut cpu, mut m) = boot(&[0xA2, 0x03, 0xCA, 0xD0, 0xFD]);
    run(&mut cpu, &mut m, 7);
    assert_eq!(cpu.x(), 0);
    assert_eq!(cpu.p() & Z, Z);
    assert_eq!(cpu.pc(), 0xC005);
    // LDX 2, then DEX 2 + BNE taken 3 twice, then DEX 2 + BNE not taken 2
    assert_eq!(cpu.cycles(), 7 + 2 + (2 + 3) + (2 + 3) + (2 + 2));
}

#[test]
fn jsr_lda_rts() {
    let (mut cpu, mut m) = boot(&[0x20, 0x05, 0xC0, 0x00, 0x00, 0xA9, 0x42, 0x60]);
    run(&mut cpu, &mut m, 3);
    assert_eq!(cpu.a(), 0x42);
    assert_eq!(cpu.pc(), 0xC003);
    assert_eq!(cpu.s(), 0xFD);
    assert_eq!(cpu.cycles(), 7 + 6 + 2 + 6);
}

#[test]
fn jsr_pushes_address_of_its_last_byte() {
    let (mut cpu, mut m) = boot(&[0x20, 0x05, 0xC0]);
    run(&mut cpu, &mut m, 1);
    assert_eq!(cpu.pc(), 0xC005);
    assert_eq!(m.cpu_load8(0x01FD), 0xC0);
    assert_eq!(m.cpu_load8(0x01FC), 0x02);
    assert_eq!(cpu.s(), 0xFB);
}

#[test]
fn brk_pushes_pc_and_flags_and_jumps_through_vector() {
    let mut rom = vec![0u8; 0x4000];
    rom[0] = 0x00;
    rom[0x3FFC] = 0x00;
    rom[0x3FFD] = 0xC0;
    rom[0x3FFE] = 0x34;
    rom[0x3FFF] = 0x12;
    let mut m = Mapper000::new();
    m.load_prg_rom(&rom);
    let mut cpu = Cpu::new();
    cpu.reset(&mut m);
    assert_eq!(cycles_of_step(&mut cpu, &mut m), 7);
    assert_eq!(cpu.pc(), 0x1234);
    assert_eq!(cpu.s(), 0xFA);
    assert_eq!(m.cpu_load8(0x01FD), 0xC0);
    assert_eq!(m.cpu_load8(0x01FC), 0x02);
    assert_eq!(m.cpu_load8(0x01FB), I | 0x30);
    assert_eq!(cpu.p() & I, I);
}

#[test]
fn push_then_pull_returns_value_and_restores_s() {
    // LDA #$42; PHA; LDA #$00; PLA
    let (mut cpu, mut m) = boot(&[0xA9, 0x42, 0x48, 0xA9, 0x00, 0x68]);
    run(&mut cpu, &mut m, 2);
    assert_eq!(cpu.s(), 0xFC);
    run(&mut cpu, &mut m, 2);
    assert_eq!(cpu.a(), 0x42);
    assert_eq!(cpu.s(), 0xFD);
}

#[test]
fn stack_wraps_within_page_one() {
    // LDX #$00; TXS; LDA #$42; PHA; LDA #$00; PLA
    let (mut cpu, mut m) = boot(&[0xA2, 0x00, 0x9A, 0xA9, 0x42, 0x48, 0xA9, 0x00, 0x68]);
    run(&mut cpu, &mut m, 4);
    assert_eq!(cpu.s(), 0xFF);
    assert_eq!(m.cpu_load8(0x0100), 0x42);
    run(&mut cpu, &mut m, 2);
    assert_eq!(cpu.a(), 0x42);
    assert_eq!(cpu.s(), 0x00);
}

#[test]
fn php_sets_b_and_u_in_pushed_copy_and_plp_clears_them() {
    // SEC; PHP; CLC; PLP
    let (mut cpu, mut m) = boot(&[0x38, 0x08, 0x18, 0x28]);
    run(&mut cpu, &mut m, 2);
    assert_eq!(m.cpu_load8(0x01FD), I | C | 0x30);
    run(&mut cpu, &mut m, 2);
    assert_eq!(cpu.p(), I | C);
}

#[test]
fn rol_then_ror_restores_byte_and_carry() {
    // LDA #$81; SEC; ROL A; ROR A
    let (mut cpu, mut m) = boot(&[0xA9, 0x81, 0x38, 0x2A, 0x6A]);
    run(&mut cpu, &mut m, 3);
    assert_eq!(cpu.a(), 0x03);
    assert_eq!(cpu.p() & C, C);
    run(&mut cpu, &mut m, 1);
    assert_eq!(cpu.a(), 0x81);
    assert_eq!(cpu.p() & C, C);
}

#[test]
fn asl_then_lsr_clears_bit_7() {
    // LDA #$FF; ASL A; LSR A
    let (mut cpu, mut m) = boot(&[0xA9, 0xFF, 0x0A, 0x4A]);
    run(&mut cpu, &mut m, 3);
    assert_eq!(cpu.a(), 0x7F);
}

#[test]
fn lsr_then_asl_clears_bit_0() {
    // LDA #$FF; LSR A; ASL A
    let (mut cpu, mut m) = boot(&[0xA9, 0xFF, 0x4A, 0x0A]);
    run(&mut cpu, &mut m, 3);
    assert_eq!(cpu.a(), 0xFE);
}

#[test]
fn rmw_inc_on_memory() {
    // INC $10; INC $10
    let (mut cpu, mut m) = boot(&[0xE6, 0x10, 0xE6, 0x10]);
    m.cpu_store8(0x0010, 0xFF);
    assert_eq!(cycles_of_step(&mut cpu, &mut m), 5);
    assert_eq!(m.cpu_load8(0x0010), 0x00);
    assert_eq!(cpu.p() & Z, Z);
    run(&mut cpu, &mut m, 1);
    assert_eq!(m.cpu_load8(0x0010), 0x01);
    assert_eq!(cpu.p() & Z, 0);
}

#[test]
fn compare_sets_carry_zero_negative() {
    // LDA #$40; CMP #$40; CMP #$41; CMP #$3F
    let (mut cpu, mut m) = boot(&[0xA9, 0x40, 0xC9, 0x40, 0xC9, 0x41, 0xC9, 0x3F]);
    run(&mut cpu, &mut m, 2);
    assert_eq!(cpu.p() & (C | Z | N), C | Z);
    run(&mut cpu, &mut m, 1);
    assert_eq!(cpu.p() & (C | Z | N), N);
    run(&mut cpu, &mut m, 1);
    assert_eq!(cpu.p() & (C | Z | N), C);
}

#[test]
fn bit_takes_n_and_v_from_memory() {
    // LDA #$01; BIT $10 with $10 = 0xC0
    let (mut cpu, mut m) = boot(&[0xA9, 0x01, 0x24, 0x10]);
    m.cpu_store8(0x0010, 0xC0);
    run(&mut cpu, &mut m, 2);
    assert_eq!(cpu.p() & (Z | V | N), Z | V | N);
    assert_eq!(cpu.a(), 0x01);
}

#[test]
fn jmp_indirect_wraps_within_page() {
    // JMP ($02FF)
    let (mut cpu, mut m) = boot(&[0x6C, 0xFF, 0x02]);
    m.cpu_store8(0x02FF, 0x34);
    m.cpu_store8(0x0200, 0x12);
    m.cpu_store8(0x0300, 0x99);
    assert_eq!(cycles_of_step(&mut cpu, &mut m), 5);
    assert_eq!(cpu.pc(), 0x1234);
}

#[test]
fn indirect_indexed_pointer_wraps_in_zero_page() {
    // LDY #$00; LDA ($FF),Y
    let (mut cpu, mut m) = boot(&[0xA0, 0x00, 0xB1, 0xFF]);
    m.cpu_store8(0x00FF, 0x00);
    m.cpu_store8(0x0000, 0x03);
    m.cpu_store8(0x0100, 0x05);
    m.cpu_store8(0x0300, 0x77);
    run(&mut cpu, &mut m, 2);
    assert_eq!(cpu.a(), 0x77);
}

#[test]
fn indexed_indirect_pointer_wraps_in_zero_page() {
    // LDX #$01; LDA ($FE,X): pointer at $FF and $00
    let (mut cpu, mut m) = boot(&[0xA2, 0x01, 0xA1, 0xFE]);
    m.cpu_store8(0x00FF, 0x10);
    m.cpu_store8(0x0000, 0x03);
    m.cpu_store8(0x0310, 0x5A);
    run(&mut cpu, &mut m, 1);
    assert_eq!(cycles_of_step(&mut cpu, &mut m), 6);
    assert_eq!(cpu.a(), 0x5A);
}

#[test]
fn absolute_x_read_pays_for_page_cross_only() {
    // LDX #$01; LDA $80FF,X; LDA $8000,X
    let (mut cpu, mut m) = boot(&[0xA2, 0x01, 0xBD, 0xFF, 0x80, 0xBD, 0x00, 0x80]);
    run(&mut cpu, &mut m, 1);
    assert_eq!(cycles_of_step(&mut cpu, &mut m), 5);
    assert_eq!(cycles_of_step(&mut cpu, &mut m), 4);
}

#[test]
fn absolute_x_write_always_pays_dummy_read() {
    // LDX #$01; STA $80FF,X; STA $0200,X
    let (mut cpu, mut m) = boot(&[0xA2, 0x01, 0x9D, 0xFF, 0x80, 0x9D, 0x00, 0x02]);
    run(&mut cpu, &mut m, 1);
    assert_eq!(cycles_of_step(&mut cpu, &mut m), 5);
    assert_eq!(cycles_of_step(&mut cpu, &mut m), 5);
    assert_eq!(m.cpu_load8(0x0201), 0x00);
}

/// Runs a taken BNE whose opcode sits at `at` in RAM; returns its cycles
/// and the PC it lands on.
fn taken_branch_from_ram(at: u16, offset: u8) -> (u64, u16) {
    let mut m = cartridge(&[], at);
    m.cpu_store8(at, 0xD0);
    m.cpu_store8(at + 1, offset);
    let mut cpu = Cpu::new();
    cpu.reset(&mut m);
    let c = cycles_of_step(&mut cpu, &mut m);
    (c, cpu.pc())
}

#[test]
fn branch_within_page_costs_three_cycles() {
    assert_eq!(taken_branch_from_ram(0x01EE, 0x05), (3, 0x01F5));
}

#[test]
fn branch_across_page_costs_four_cycles() {
    assert_eq!(taken_branch_from_ram(0x01FB, 0x0A), (4, 0x0207));
}

#[test]
fn branch_backwards_across_page() {
    assert_eq!(taken_branch_from_ram(0x0200, 0xFC), (4, 0x01FE));
}

#[test]
fn untaken_branch_costs_two_cycles() {
    // SEC; BCC +5
    let (mut cpu, mut m) = boot(&[0x38, 0x90, 0x05]);
    run(&mut cpu, &mut m, 1);
    assert_eq!(cycles_of_step(&mut cpu, &mut m), 2);
    assert_eq!(cpu.pc(), 0xC003);
}

#[test]
fn invalid_opcode_is_two_cycle_nop() {
    let (mut cpu, mut m) = boot(&[0x02, 0xEA]);
    assert_eq!(cycles_of_step(&mut cpu, &mut m), 2);
    assert_eq!(cpu.pc(), 0xC001);
    assert_eq!((cpu.a(), cpu.x(), cpu.y(), cpu.s(), cpu.p()), (0, 0, 0, 0xFD, I));
}

#[test]
fn every_step_takes_two_to_eight_cycles() {
    let program = [
        0xA2, 0x05, 0xA9, 0x10, 0x9D, 0x00, 0x02, 0xFE, 0x00, 0x02, 0x48, 0x68, 0x20, 0x14, 0xC0,
        0xEA, 0xCA, 0xD0, 0xF0, 0x00, 0xE8, 0x60,
    ];
    let (mut cpu, mut m) = boot(&program);
    for _ in 0..60 {
        let c = cycles_of_step(&mut cpu, &mut m);
        assert!((2..=8).contains(&c));
    }
}

#[test]
fn step_returns_opcode_for_trace() {
    let (mut cpu, mut m) = boot(&[0xA9, 0x01, 0x02]);
    let op = cpu.execute_single_instruction(&mut m);
    assert_eq!(op, 0xA9);
    assert_eq!(decode(op).instr, Instr::Lda);
    assert_eq!(decode(op).instr.mnemonic(), "LDA");
    let op = cpu.execute_single_instruction(&mut m);
    assert_eq!(decode(op).instr.mnemonic(), "???");
}

#[test]
fn rti_restores_flags_and_pc() {
    // LDA #$C1; PHA (pc high); LDA #$23; PHA (pc low); LDA #$FF; PHA (P); RTI
    let (mut cpu, mut m) = boot(&[0xA9, 0xC1, 0x48, 0xA9, 0x23, 0x48, 0xA9, 0xFF, 0x48, 0x40]);
    run(&mut cpu, &mut m, 6);
    assert_eq!(cycles_of_step(&mut cpu, &mut m), 6);
    assert_eq!(cpu.pc(), 0xC123);
    assert_eq!(cpu.p(), 0xCF);
    assert_eq!(cpu.s(), 0xFD);
}
