//! The instruction set: addressing modes, instruction handlers and the
//! opcode table that maps each of the 256 opcode bytes to them.
use vstd::prelude::*;

verus! {

/// Addressing modes for CPU instructions.
#[derive(Clone, Copy, Debug, PartialEq, Eq, Structural)]
pub enum AddressingMode {
    /// No explicit operand (e.g. INX)
    Implicit,
    /// Single byte address (e.g. ADC $7F)
    ZeroPage,
    /// Single byte address + X, wrapping within the zero page (e.g. ADC $7F,X)
    ZeroPageX,
    /// Single byte address + Y, wrapping within the zero page (e.g. LDX $7F,Y)
    ZeroPageY,
    /// Two byte address (e.g. ADC $5F70)
    Absolute,
    /// Two byte address + X (e.g. ADC $5F70,X)
    AbsoluteX,
    /// Two byte address + Y (e.g. ADC $5F70,Y)
    AbsoluteY,
    /// Immediate operand (e.g. ADC #$64)
    Immediate,
    /// Signed offset from the next instruction (e.g. BNE label)
    Relative,
    /// Two byte address of a two byte address (e.g. JMP ($F0F0))
    Indirect,
    /// Zero page address + X holding a two byte address (e.g. ADC ($34,X))
    IndexedIndirect,
    /// Zero page address holding a two byte address, + Y (e.g. ADC ($F0),Y)
    IndirectIndexed,
}

/// The handler an opcode runs. Accumulator and memory forms of the shifts
/// and rotates are separate handlers; `Invalid` stands for every opcode
/// outside the official set.
#[derive(Clone, Copy, Debug, PartialEq, Eq, Structural)]
pub enum Instr {
    Adc,
    And,
    AslA,
    AslM,
    Bcc,
    Bcs,
    Beq,
    Bit,
    Bmi,
    Bne,
    Bpl,
    Brk,
    Bvc,
    Bvs,
    Clc,
    Cld,
    Cli,
    Clv,
    Cmp,
    Cpx,
    Cpy,
    Dec,
    Dex,
    Dey,
    Eor,
    Inc,
    Inx,
    Iny,
    Jmp,
    Jsr,
    Lda,
    Ldx,
    Ldy,
    LsrA,
    LsrM,
    Nop,
    Ora,
    Pha,
    Php,
    Pla,
    Plp,
    RolA,
    RolM,
    RorA,
    RorM,
    Rti,
    Rts,
    Sbc,
    Sec,
    Sed,
    Sei,
    Sta,
    Stx,
    Sty,
    Tax,
    Tay,
    Tsx,
    Txa,
    Txs,
    Tya,
    Invalid,
}

/// One entry of the opcode table.
#[derive(Clone, Copy, Debug, PartialEq, Eq, Structural)]
pub struct CpuOp {
    pub instr: Instr,
    pub mode: AddressingMode,
}

/// The official instruction encodings; every other opcode byte is invalid.
pub open spec fn op_table(opcode: u8) -> CpuOp {
    match opcode {
        0x69 => CpuOp { instr: Instr::Adc, mode: AddressingMode::Immediate },
        0x65 => CpuOp { instr: Instr::Adc, mode: AddressingMode::ZeroPage },
        0x75 => CpuOp { instr: Instr::Adc, mode: AddressingMode::ZeroPageX },
        0x6D => CpuOp { instr: Instr::Adc, mode: AddressingMode::Absolute },
        0x7D => CpuOp { instr: Instr::Adc, mode: AddressingMode::AbsoluteX },
        0x79 => CpuOp { instr: Instr::Adc, mode: AddressingMode::AbsoluteY },
        0x61 => CpuOp { instr: Instr::Adc, mode: AddressingMode::IndexedIndirect },
        0x71 => CpuOp { instr: Instr::Adc, mode: AddressingMode::IndirectIndexed },
        0x29 => CpuOp { instr: Instr::And, mode: AddressingMode::Immediate },
        0x25 => CpuOp { instr: Instr::And, mode: AddressingMode::ZeroPage },
        0x35 => CpuOp { instr: Instr::And, mode: AddressingMode::ZeroPageX },
        0x2D => CpuOp { instr: Instr::And, mode: AddressingMode::Absolute },
        0x3D => CpuOp { instr: Instr::And, mode: AddressingMode::AbsoluteX },
        0x39 => CpuOp { instr: Instr::And, mode: AddressingMode::AbsoluteY },
        0x21 => CpuOp { instr: Instr::And, mode: AddressingMode::IndexedIndirect },
        0x31 => CpuOp { instr: Instr::And, mode: AddressingMode::IndirectIndexed },
        0x0A => CpuOp { instr: Instr::AslA, mode: AddressingMode::Implicit },
        0x06 => CpuOp { instr: Instr::AslM, mode: AddressingMode::ZeroPage },
        0x16 => CpuOp { instr: Instr::AslM, mode: AddressingMode::ZeroPageX },
        0x0E => CpuOp { instr: Instr::AslM, mode: AddressingMode::Absolute },
        0x1E => CpuOp { instr: Instr::AslM, mode: AddressingMode::AbsoluteX },
        0x90 => CpuOp { instr: Instr::Bcc, mode: AddressingMode::Relative },
        0xB0 => CpuOp { instr: Instr::Bcs, mode: AddressingMode::Relative },
        0xF0 => CpuOp { instr: Instr::Beq, mode: AddressingMode::Relative },
        0x24 => CpuOp { instr: Instr::Bit, mode: AddressingMode::ZeroPage },
        0x2C => CpuOp { instr: Instr::Bit, mode: AddressingMode::Absolute },
        0x30 => CpuOp { instr: Instr::Bmi, mode: AddressingMode::Relative },
        0xD0 => CpuOp { instr: Instr::Bne, mode: AddressingMode::Relative },
        0x10 => CpuOp { instr: Instr::Bpl, mode: AddressingMode::Relative },
        0x00 => CpuOp { instr: Instr::Brk, mode: AddressingMode::Implicit },
        0x50 => CpuOp { instr: Instr::Bvc, mode: AddressingMode::Relative },
        0x70 => CpuOp { instr: Instr::Bvs, mode: AddressingMode::Relative },
        0x18 => CpuOp { instr: Instr::Clc, mode: AddressingMode::Implicit },
        0xD8 => CpuOp { instr: Instr::Cld, mode: AddressingMode::Implicit },
        0x58 => CpuOp { instr: Instr::Cli, mode: AddressingMode::Implicit },
        0xB8 => CpuOp { instr: Instr::Clv, mode: AddressingMode::Implicit },
        0xC9 => CpuOp { instr: Instr::Cmp, mode: AddressingMode::Immediate },
        0xC5 => CpuOp { instr: Instr::Cmp, mode: AddressingMode::ZeroPage },
        0xD5 => CpuOp { instr: Instr::Cmp, mode: AddressingMode::ZeroPageX },
        0xCD => CpuOp { instr: Instr::Cmp, mode: AddressingMode::Absolute },
        0xDD => CpuOp { instr: Instr::Cmp, mode: AddressingMode::AbsoluteX },
        0xD9 => CpuOp { instr: Instr::Cmp, mode: AddressingMode::AbsoluteY },
        0xC1 => CpuOp { instr: Instr::Cmp, mode: AddressingMode::IndexedIndirect },
        0xD1 => CpuOp { instr: Instr::Cmp, mode: AddressingMode::IndirectIndexed },
        0xE0 => CpuOp { instr: Instr::Cpx, mode: AddressingMode::Immediate },
        0xE4 => CpuOp { instr: Instr::Cpx, mode: AddressingMode::ZeroPage },
        0xEC => CpuOp { instr: Instr::Cpx, mode: AddressingMode::Absolute },
        0xC0 => CpuOp { instr: Instr::Cpy, mode: AddressingMode::Immediate },
        0xC4 => CpuOp { instr: Instr::Cpy, mode: AddressingMode::ZeroPage },
        0xCC => CpuOp { instr: Instr::Cpy, mode: AddressingMode::Absolute },
        0xC6 => CpuOp { instr: Instr::Dec, mode: AddressingMode::ZeroPage },
        0xD6 => CpuOp { instr: Instr::Dec, mode: AddressingMode::ZeroPageX },
        0xCE => CpuOp { instr: Instr::Dec, mode: AddressingMode::Absolute },
        0xDE => CpuOp { instr: Instr::Dec, mode: AddressingMode::AbsoluteX },
        0xCA => CpuOp { instr: Instr::Dex, mode: AddressingMode::Implicit },
        0x88 => CpuOp { instr: Instr::Dey, mode: AddressingMode::Implicit },
        0x49 => CpuOp { instr: Instr::Eor, mode: AddressingMode::Immediate },
        0x45 => CpuOp { instr: Instr::Eor, mode: AddressingMode::ZeroPage },
        0x55 => CpuOp { instr: Instr::Eor, mode: AddressingMode::ZeroPageX },
        0x4D => CpuOp { instr: Instr::Eor, mode: AddressingMode::Absolute },
        0x5D => CpuOp { instr: Instr::Eor, mode: AddressingMode::AbsoluteX },
        0x59 => CpuOp { instr: Instr::Eor, mode: AddressingMode::AbsoluteY },
        0x41 => CpuOp { instr: Instr::Eor, mode: AddressingMode::IndexedIndirect },
        0x51 => CpuOp { instr: Instr::Eor, mode: AddressingMode::IndirectIndexed },
        0xE6 => CpuOp { instr: Instr::Inc, mode: AddressingMode::ZeroPage },
        0xF6 => CpuOp { instr: Instr::Inc, mode: AddressingMode::ZeroPageX },
        0xEE => CpuOp { instr: Instr::Inc, mode: AddressingMode::Absolute },
        0xFE => CpuOp { instr: Instr::Inc, mode: AddressingMode::AbsoluteX },
        0xE8 => CpuOp { instr: Instr::Inx, mode: AddressingMode::Implicit },
        0xC8 => CpuOp { instr: Instr::Iny, mode: AddressingMode::Implicit },
        0x4C => CpuOp { instr: Instr::Jmp, mode: AddressingMode::Absolute },
        0x6C => CpuOp { instr: Instr::Jmp, mode: AddressingMode::Indirect },
        0x20 => CpuOp { instr: Instr::Jsr, mode: AddressingMode::Absolute },
        0xA9 => CpuOp { instr: Instr::Lda, mode: AddressingMode::Immediate },
        0xA5 => CpuOp { instr: Instr::Lda, mode: AddressingMode::ZeroPage },
        0xB5 => CpuOp { instr: Instr::Lda, mode: AddressingMode::ZeroPageX },
        0xAD => CpuOp { instr: Instr::Lda, mode: AddressingMode::Absolute },
        0xBD => CpuOp { instr: Instr::Lda, mode: AddressingMode::AbsoluteX },
        0xB9 => CpuOp { instr: Instr::Lda, mode: AddressingMode::AbsoluteY },
        0xA1 => CpuOp { instr: Instr::Lda, mode: AddressingMode::IndexedIndirect },
        0xB1 => CpuOp { instr: Instr::Lda, mode: AddressingMode::IndirectIndexed },
        0xA2 => CpuOp { instr: Instr::Ldx, mode: AddressingMode::Immediate },
        0xA6 => CpuOp { instr: Instr::Ldx, mode: AddressingMode::ZeroPage },
        0xB6 => CpuOp { instr: Instr::Ldx, mode: AddressingMode::ZeroPageY },
        0xAE => CpuOp { instr: Instr::Ldx, mode: AddressingMode::Absolute },
        0xBE => CpuOp { instr: Instr::Ldx, mode: AddressingMode::AbsoluteY },
        0xA0 => CpuOp { instr: Instr::Ldy, mode: AddressingMode::Immediate },
        0xA4 => CpuOp { instr: Instr::Ldy, mode: AddressingMode::ZeroPage },
        0xB4 => CpuOp { instr: Instr::Ldy, mode: AddressingMode::ZeroPageX },
        0xAC => CpuOp { instr: Instr::Ldy, mode: AddressingMode::Absolute },
        0xBC => CpuOp { instr: Instr::Ldy, mode: AddressingMode::AbsoluteX },
        0x4A => CpuOp { instr: Instr::LsrA, mode: AddressingMode::Implicit },
        0x46 => CpuOp { instr: Instr::LsrM, mode: AddressingMode::ZeroPage },
        0x56 => CpuOp { instr: Instr::LsrM, mode: AddressingMode::ZeroPageX },
        0x4E => CpuOp { instr: Instr::LsrM, mode: AddressingMode::Absolute },
        0x5E => CpuOp { instr: Instr::LsrM, mode: AddressingMode::AbsoluteX },
        0xEA => CpuOp { instr: Instr::Nop, mode: AddressingMode::Implicit },
        0x09 => CpuOp { instr: Instr::Ora, mode: AddressingMode::Immediate },
        0x05 => CpuOp { instr: Instr::Ora, mode: AddressingMode::ZeroPage },
        0x15 => CpuOp { instr: Instr::Ora, mode: AddressingMode::ZeroPageX },
        0x0D => CpuOp { instr: Instr::Ora, mode: AddressingMode::Absolute },
        0x1D => CpuOp { instr: Instr::Ora, mode: AddressingMode::AbsoluteX },
        0x19 => CpuOp { instr: Instr::Ora, mode: AddressingMode::AbsoluteY },
        0x01 => CpuOp { instr: Instr::Ora, mode: AddressingMode::IndexedIndirect },
        0x11 => CpuOp { instr: Instr::Ora, mode: AddressingMode::IndirectIndexed },
        0x48 => CpuOp { instr: Instr::Pha, mode: AddressingMode::Implicit },
        0x08 => CpuOp { instr: Instr::Php, mode: AddressingMode::Implicit },
        0x68 => CpuOp { instr: Instr::Pla, mode: AddressingMode::Implicit },
        0x28 => CpuOp { instr: Instr::Plp, mode: AddressingMode::Implicit },
        0x2A => CpuOp { instr: Instr::RolA, mode: AddressingMode::Implicit },
        0x26 => CpuOp { instr: Instr::RolM, mode: AddressingMode::ZeroPage },
        0x36 => CpuOp { instr: Instr::RolM, mode: AddressingMode::ZeroPageX },
        0x2E => CpuOp { instr: Instr::RolM, mode: AddressingMode::Absolute },
        0x3E => CpuOp { instr: Instr::RolM, mode: AddressingMode::AbsoluteX },
        0x6A => CpuOp { instr: Instr::RorA, mode: AddressingMode::Implicit },
        0x66 => CpuOp { instr: Instr::RorM, mode: AddressingMode::ZeroPage },
        0x76 => CpuOp { instr: Instr::RorM, mode: AddressingMode::ZeroPageX },
        0x6E => CpuOp { instr: Instr::RorM, mode: AddressingMode::Absolute },
        0x7E => CpuOp { instr: Instr::RorM, mode: AddressingMode::AbsoluteX },
        0x40 => CpuOp { instr: Instr::Rti, mode: AddressingMode::Implicit },
        0x60 => CpuOp { instr: Instr::Rts, mode: AddressingMode::Implicit },
        0xE9 => CpuOp { instr: Instr::Sbc, mode: AddressingMode::Immediate },
        0xE5 => CpuOp { instr: Instr::Sbc, mode: AddressingMode::ZeroPage },
        0xF5 => CpuOp { instr: Instr::Sbc, mode: AddressingMode::ZeroPageX },
        0xED => CpuOp { instr: Instr::Sbc, mode: AddressingMode::Absolute },
        0xFD => CpuOp { instr: Instr::Sbc, mode: AddressingMode::AbsoluteX },
        0xF9 => CpuOp { instr: Instr::Sbc, mode: AddressingMode::AbsoluteY },
        0xE1 => CpuOp { instr: Instr::Sbc, mode: AddressingMode::IndexedIndirect },
        0xF1 => CpuOp { instr: Instr::Sbc, mode: AddressingMode::IndirectIndexed },
        0x38 => CpuOp { instr: Instr::Sec, mode: AddressingMode::Implicit },
        0xF8 => CpuOp { instr: Instr::Sed, mode: AddressingMode::Implicit },
        0x78 => CpuOp { instr: Instr::Sei, mode: AddressingMode::Implicit },
        0x85 => CpuOp { instr: Instr::Sta, mode: AddressingMode::ZeroPage },
        0x95 => CpuOp { instr: Instr::Sta, mode: AddressingMode::ZeroPageX },
        0x8D => CpuOp { instr: Instr::Sta, mode: AddressingMode::Absolute },
        0x9D => CpuOp { instr: Instr::Sta, mode: AddressingMode::AbsoluteX },
        0x99 => CpuOp { instr: Instr::Sta, mode: AddressingMode::AbsoluteY },
        0x81 => CpuOp { instr: Instr::Sta, mode: AddressingMode::IndexedIndirect },
        0x91 => CpuOp { instr: Instr::Sta, mode: AddressingMode::IndirectIndexed },
        0x86 => CpuOp { instr: Instr::Stx, mode: AddressingMode::ZeroPage },
        0x96 => CpuOp { instr: Instr::Stx, mode: AddressingMode::ZeroPageY },
        0x8E => CpuOp { instr: Instr::Stx, mode: AddressingMode::Absolute },
        0x84 => CpuOp { instr: Instr::Sty, mode: AddressingMode::ZeroPage },
        0x94 => CpuOp { instr: Instr::Sty, mode: AddressingMode::ZeroPageX },
        0x8C => CpuOp { instr: Instr::Sty, mode: AddressingMode::Absolute },
        0xAA => CpuOp { instr: Instr::Tax, mode: AddressingMode::Implicit },
        0xA8 => CpuOp { instr: Instr::Tay, mode: AddressingMode::Implicit },
        0xBA => CpuOp { instr: Instr::Tsx, mode: AddressingMode::Implicit },
        0x8A => CpuOp { instr: Instr::Txa, mode: AddressingMode::Implicit },
        0x9A => CpuOp { instr: Instr::Txs, mode: AddressingMode::Implicit },
        0x98 => CpuOp { instr: Instr::Tya, mode: AddressingMode::Implicit },
        _ => CpuOp { instr: Instr::Invalid, mode: AddressingMode::Implicit },
    }
}

/// Looks an opcode byte up in the table.
pub fn decode(opcode: u8) -> (r: CpuOp)
    ensures
        r == op_table(opcode),
{
    match opcode {
        0x69 => CpuOp { instr: Instr::Adc, mode: AddressingMode::Immediate },
        0x65 => CpuOp { instr: Instr::Adc, mode: AddressingMode::ZeroPage },
        0x75 => CpuOp { instr: Instr::Adc, mode: AddressingMode::ZeroPageX },
        0x6D => CpuOp { instr: Instr::Adc, mode: AddressingMode::Absolute },
        0x7D => CpuOp { instr: Instr::Adc, mode: AddressingMode::AbsoluteX },
        0x79 => CpuOp { instr: Instr::Adc, mode: AddressingMode::AbsoluteY },
        0x61 => CpuOp { instr: Instr::Adc, mode: AddressingMode::IndexedIndirect },
        0x71 => CpuOp { instr: Instr::Adc, mode: AddressingMode::IndirectIndexed },
        0x29 => CpuOp { instr: Instr::And, mode: AddressingMode::Immediate },
        0x25 => CpuOp { instr: Instr::And, mode: AddressingMode::ZeroPage },
        0x35 => CpuOp { instr: Instr::And, mode: AddressingMode::ZeroPageX },
        0x2D => CpuOp { instr: Instr::And, mode: AddressingMode::Absolute },
        0x3D => CpuOp { instr: Instr::And, mode: AddressingMode::AbsoluteX },
        0x39 => CpuOp { instr: Instr::And, mode: AddressingMode::AbsoluteY },
        0x21 => CpuOp { instr: Instr::And, mode: AddressingMode::IndexedIndirect },
        0x31 => CpuOp { instr: Instr::And, mode: AddressingMode::IndirectIndexed },
        0x0A => CpuOp { instr: Instr::AslA, mode: AddressingMode::Implicit },
        0x06 => CpuOp { instr: Instr::AslM, mode: AddressingMode::ZeroPage },
        0x16 => CpuOp { instr: Instr::AslM, mode: AddressingMode::ZeroPageX },
        0x0E => CpuOp { instr: Instr::AslM, mode: AddressingMode::Absolute },
        0x1E => CpuOp { instr: Instr::AslM, mode: AddressingMode::AbsoluteX },
        0x90 => CpuOp { instr: Instr::Bcc, mode: AddressingMode::Relative },
        0xB0 => CpuOp { instr: Instr::Bcs, mode: AddressingMode::Relative },
        0xF0 => CpuOp { instr: Instr::Beq, mode: AddressingMode::Relative },
        0x24 => CpuOp { instr: Instr::Bit, mode: AddressingMode::ZeroPage },
        0x2C => CpuOp { instr: Instr::Bit, mode: AddressingMode::Absolute },
        0x30 => CpuOp { instr: Instr::Bmi, mode: AddressingMode::Relative },
        0xD0 => CpuOp { instr: Instr::Bne, mode: AddressingMode::Relative },
        0x10 => CpuOp { instr: Instr::Bpl, mode: AddressingMode::Relative },
        0x00 => CpuOp { instr: Instr::Brk, mode: AddressingMode::Implicit },
        0x50 => CpuOp { instr: Instr::Bvc, mode: AddressingMode::Relative },
        0x70 => CpuOp { instr: Instr::Bvs, mode: AddressingMode::Relative },
        0x18 => CpuOp { instr: Instr::Clc, mode: AddressingMode::Implicit },
        0xD8 => CpuOp { instr: Instr::Cld, mode: AddressingMode::Implicit },
        0x58 => CpuOp { instr: Instr::Cli, mode: AddressingMode::Implicit },
        0xB8 => CpuOp { instr: Instr::Clv, mode: AddressingMode::Implicit },
        0xC9 => CpuOp { instr: Instr::Cmp, mode: AddressingMode::Immediate },
        0xC5 => CpuOp { instr: Instr::Cmp, mode: AddressingMode::ZeroPage },
        0xD5 => CpuOp { instr: Instr::Cmp, mode: AddressingMode::ZeroPageX },
        0xCD => CpuOp { instr: Instr::Cmp, mode: AddressingMode::Absolute },
        0xDD => CpuOp { instr: Instr::Cmp, mode: AddressingMode::AbsoluteX },
        0xD9 => CpuOp { instr: Instr::Cmp, mode: AddressingMode::AbsoluteY },
        0xC1 => CpuOp { instr: Instr::Cmp, mode: AddressingMode::IndexedIndirect },
        0xD1 => CpuOp { instr: Instr::Cmp, mode: AddressingMode::IndirectIndexed },
        0xE0 => CpuOp { instr: Instr::Cpx, mode: AddressingMode::Immediate },
        0xE4 => CpuOp { instr: Instr::Cpx, mode: AddressingMode::ZeroPage },
        0xEC => CpuOp { instr: Instr::Cpx, mode: AddressingMode::Absolute },
        0xC0 => CpuOp { instr: Instr::Cpy, mode: AddressingMode::Immediate },
        0xC4 => CpuOp { instr: Instr::Cpy, mode: AddressingMode::ZeroPage },
        0xCC => CpuOp { instr: Instr::Cpy, mode: AddressingMode::Absolute },
        0xC6 => CpuOp { instr: Instr::Dec, mode: AddressingMode::ZeroPage },
        0xD6 => CpuOp { instr: Instr::Dec, mode: AddressingMode::ZeroPageX },
        0xCE => CpuOp { instr: Instr::Dec, mode: AddressingMode::Absolute },
        0xDE => CpuOp { instr: Instr::Dec, mode: AddressingMode::AbsoluteX },
        0xCA => CpuOp { instr: Instr::Dex, mode: AddressingMode::Implicit },
        0x88 => CpuOp { instr: Instr::Dey, mode: AddressingMode::Implicit },
        0x49 => CpuOp { instr: Instr::Eor, mode: AddressingMode::Immediate },
        0x45 => CpuOp { instr: Instr::Eor, mode: AddressingMode::ZeroPage },
        0x55 => CpuOp { instr: Instr::Eor, mode: AddressingMode::ZeroPageX },
        0x4D => CpuOp { instr: Instr::Eor, mode: AddressingMode::Absolute },
        0x5D => CpuOp { instr: Instr::Eor, mode: AddressingMode::AbsoluteX },
        0x59 => CpuOp { instr: Instr::Eor, mode: AddressingMode::AbsoluteY },
        0x41 => CpuOp { instr: Instr::Eor, mode: AddressingMode::IndexedIndirect },
        0x51 => CpuOp { instr: Instr::Eor, mode: AddressingMode::IndirectIndexed },
        0xE6 => CpuOp { instr: Instr::Inc, mode: AddressingMode::ZeroPage },
        0xF6 => CpuOp { instr: Instr::Inc, mode: AddressingMode::ZeroPageX },
        0xEE => CpuOp { instr: Instr::Inc, mode: AddressingMode::Absolute },
        0xFE => CpuOp { instr: Instr::Inc, mode: AddressingMode::AbsoluteX },
        0xE8 => CpuOp { instr: Instr::Inx, mode: AddressingMode::Implicit },
        0xC8 => CpuOp { instr: Instr::Iny, mode: AddressingMode::Implicit },
        0x4C => CpuOp { instr: Instr::Jmp, mode: AddressingMode::Absolute },
        0x6C => CpuOp { instr: Instr::Jmp, mode: AddressingMode::Indirect },
        0x20 => CpuOp { instr: Instr::Jsr, mode: AddressingMode::Absolute },
        0xA9 => CpuOp { instr: Instr::Lda, mode: AddressingMode::Immediate },
        0xA5 => CpuOp { instr: Instr::Lda, mode: AddressingMode::ZeroPage },
        0xB5 => CpuOp { instr: Instr::Lda, mode: AddressingMode::ZeroPageX },
        0xAD => CpuOp { instr: Instr::Lda, mode: AddressingMode::Absolute },
        0xBD => CpuOp { instr: Instr::Lda, mode: AddressingMode::AbsoluteX },
        0xB9 => CpuOp { instr: Instr::Lda, mode: AddressingMode::AbsoluteY },
        0xA1 => CpuOp { instr: Instr::Lda, mode: AddressingMode::IndexedIndirect },
        0xB1 => CpuOp { instr: Instr::Lda, mode: AddressingMode::IndirectIndexed },
        0xA2 => CpuOp { instr: Instr::Ldx, mode: AddressingMode::Immediate },
        0xA6 => CpuOp { instr: Instr::Ldx, mode: AddressingMode::ZeroPage },
        0xB6 => CpuOp { instr: Instr::Ldx, mode: AddressingMode::ZeroPageY },
        0xAE => CpuOp { instr: Instr::Ldx, mode: AddressingMode::Absolute },
        0xBE => CpuOp { instr: Instr::Ldx, mode: AddressingMode::AbsoluteY },
        0xA0 => CpuOp { instr: Instr::Ldy, mode: AddressingMode::Immediate },
        0xA4 => CpuOp { instr: Instr::Ldy, mode: AddressingMode::ZeroPage },
        0xB4 => CpuOp { instr: Instr::Ldy, mode: AddressingMode::ZeroPageX },
        0xAC => CpuOp { instr: Instr::Ldy, mode: AddressingMode::Absolute },
        0xBC => CpuOp { instr: Instr::Ldy, mode: AddressingMode::AbsoluteX },
        0x4A => CpuOp { instr: Instr::LsrA, mode: AddressingMode::Implicit },
        0x46 => CpuOp { instr: Instr::LsrM, mode: AddressingMode::ZeroPage },
        0x56 => CpuOp { instr: Instr::LsrM, mode: AddressingMode::ZeroPageX },
        0x4E => CpuOp { instr: Instr::LsrM, mode: AddressingMode::Absolute },
        0x5E => CpuOp { instr: Instr::LsrM, mode: AddressingMode::AbsoluteX },
        0xEA => CpuOp { instr: Instr::Nop, mode: AddressingMode::Implicit },
        0x09 => CpuOp { instr: Instr::Ora, mode: AddressingMode::Immediate },
        0x05 => CpuOp { instr: Instr::Ora, mode: AddressingMode::ZeroPage },
        0x15 => CpuOp { instr: Instr::Ora, mode: AddressingMode::ZeroPageX },
        0x0D => CpuOp { instr: Instr::Ora, mode: AddressingMode::Absolute },
        0x1D => CpuOp { instr: Instr::Ora, mode: AddressingMode::AbsoluteX },
        0x19 => CpuOp { instr: Instr::Ora, mode: AddressingMode::AbsoluteY },
        0x01 => CpuOp { instr: Instr::Ora, mode: AddressingMode::IndexedIndirect },
        0x11 => CpuOp { instr: Instr::Ora, mode: AddressingMode::IndirectIndexed },
        0x48 => CpuOp { instr: Instr::Pha, mode: AddressingMode::Implicit },
        0x08 => CpuOp { instr: Instr::Php, mode: AddressingMode::Implicit },
        0x68 => CpuOp { instr: Instr::Pla, mode: AddressingMode::Implicit },
        0x28 => CpuOp { instr: Instr::Plp, mode: AddressingMode::Implicit },
        0x2A => CpuOp { instr: Instr::RolA, mode: AddressingMode::Implicit },
        0x26 => CpuOp { instr: Instr::RolM, mode: AddressingMode::ZeroPage },
        0x36 => CpuOp { instr: Instr::RolM, mode: AddressingMode::ZeroPageX },
        0x2E => CpuOp { instr: Instr::RolM, mode: AddressingMode::Absolute },
        0x3E => CpuOp { instr: Instr::RolM, mode: AddressingMode::AbsoluteX },
        0x6A => CpuOp { instr: Instr::RorA, mode: AddressingMode::Implicit },
        0x66 => CpuOp { instr: Instr::RorM, mode: AddressingMode::ZeroPage },
        0x76 => CpuOp { instr: Instr::RorM, mode: AddressingMode::ZeroPageX },
        0x6E => CpuOp { instr: Instr::RorM, mode: AddressingMode::Absolute },
        0x7E => CpuOp { instr: Instr::RorM, mode: AddressingMode::AbsoluteX },
        0x40 => CpuOp { instr: Instr::Rti, mode: AddressingMode::Implicit },
        0x60 => CpuOp { instr: Instr::Rts, mode: AddressingMode::Implicit },
        0xE9 => CpuOp { instr: Instr::Sbc, mode: AddressingMode::Immediate },
        0xE5 => CpuOp { instr: Instr::Sbc, mode: AddressingMode::ZeroPage },
        0xF5 => CpuOp { instr: Instr::Sbc, mode: AddressingMode::ZeroPageX },
        0xED => CpuOp { instr: Instr::Sbc, mode: AddressingMode::Absolute },
        0xFD => CpuOp { instr: Instr::Sbc, mode: AddressingMode::AbsoluteX },
        0xF9 => CpuOp { instr: Instr::Sbc, mode: AddressingMode::AbsoluteY },
        0xE1 => CpuOp { instr: Instr::Sbc, mode: AddressingMode::IndexedIndirect },
        0xF1 => CpuOp { instr: Instr::Sbc, mode: AddressingMode::IndirectIndexed },
        0x38 => CpuOp { instr: Instr::Sec, mode: AddressingMode::Implicit },
        0xF8 => CpuOp { instr: Instr::Sed, mode: AddressingMode::Implicit },
        0x78 => CpuOp { instr: Instr::Sei, mode: AddressingMode::Implicit },
        0x85 => CpuOp { instr: Instr::Sta, mode: AddressingMode::ZeroPage },
        0x95 => CpuOp { instr: Instr::Sta, mode: AddressingMode::ZeroPageX },
        0x8D => CpuOp { instr: Instr::Sta, mode: AddressingMode::Absolute },
        0x9D => CpuOp { instr: Instr::Sta, mode: AddressingMode::AbsoluteX },
        0x99 => CpuOp { instr: Instr::Sta, mode: AddressingMode::AbsoluteY },
        0x81 => CpuOp { instr: Instr::Sta, mode: AddressingMode::IndexedIndirect },
        0x91 => CpuOp { instr: Instr::Sta, mode: AddressingMode::IndirectIndexed },
        0x86 => CpuOp { instr: Instr::Stx, mode: AddressingMode::ZeroPage },
        0x96 => CpuOp { instr: Instr::Stx, mode: AddressingMode::ZeroPageY },
        0x8E => CpuOp { instr: Instr::Stx, mode: AddressingMode::Absolute },
        0x84 => CpuOp { instr: Instr::Sty, mode: AddressingMode::ZeroPage },
        0x94 => CpuOp { instr: Instr::Sty, mode: AddressingMode::ZeroPageX },
        0x8C => CpuOp { instr: Instr::Sty, mode: AddressingMode::Absolute },
        0xAA => CpuOp { instr: Instr::Tax, mode: AddressingMode::Implicit },
        0xA8 => CpuOp { instr: Instr::Tay, mode: AddressingMode::Implicit },
        0xBA => CpuOp { instr: Instr::Tsx, mode: AddressingMode::Implicit },
        0x8A => CpuOp { instr: Instr::Txa, mode: AddressingMode::Implicit },
        0x9A => CpuOp { instr: Instr::Txs, mode: AddressingMode::Implicit },
        0x98 => CpuOp { instr: Instr::Tya, mode: AddressingMode::Implicit },
        _ => CpuOp { instr: Instr::Invalid, mode: AddressingMode::Implicit },
    }
}

/// JMP is encoded only with its absolute and indirect modes.
pub proof fn lemma_jmp_modes(opcode: u8)
    ensures
        op_table(opcode).instr == Instr::Jmp ==> op_table(opcode).mode == AddressingMode::Absolute
            || op_table(opcode).mode == AddressingMode::Indirect,
{
}

/// The assembler mnemonic of a handler, `???` for an invalid opcode.
pub open spec fn mnemonic_of(instr: Instr) -> Seq<char> {
    match instr {
        Instr::Adc => "ADC"@,
        Instr::And => "AND"@,
        Instr::AslA => "ASL"@,
        Instr::AslM => "ASL"@,
        Instr::Bcc => "BCC"@,
        Instr::Bcs => "BCS"@,
        Instr::Beq => "BEQ"@,
        Instr::Bit => "BIT"@,
        Instr::Bmi => "BMI"@,
        Instr::Bne => "BNE"@,
        Instr::Bpl => "BPL"@,
        Instr::Brk => "BRK"@,
        Instr::Bvc => "BVC"@,
        Instr::Bvs => "BVS"@,
        Instr::Clc => "CLC"@,
        Instr::Cld => "CLD"@,
        Instr::Cli => "CLI"@,
        Instr::Clv => "CLV"@,
        Instr::Cmp => "CMP"@,
        Instr::Cpx => "CPX"@,
        Instr::Cpy => "CPY"@,
        Instr::Dec => "DEC"@,
        Instr::Dex => "DEX"@,
        Instr::Dey => "DEY"@,
        Instr::Eor => "EOR"@,
        Instr::Inc => "INC"@,
        Instr::Inx => "INX"@,
        Instr::Iny => "INY"@,
        Instr::Jmp => "JMP"@,
        Instr::Jsr => "JSR"@,
        Instr::Lda => "LDA"@,
        Instr::Ldx => "LDX"@,
        Instr::Ldy => "LDY"@,
        Instr::LsrA => "LSR"@,
        Instr::LsrM => "LSR"@,
        Instr::Nop => "NOP"@,
        Instr::Ora => "ORA"@,
        Instr::Pha => "PHA"@,
        Instr::Php => "PHP"@,
        Instr::Pla => "PLA"@,
        Instr::Plp => "PLP"@,
        Instr::RolA => "ROL"@,
        Instr::RolM => "ROL"@,
        Instr::RorA => "ROR"@,
        Instr::RorM => "ROR"@,
        Instr::Rti => "RTI"@,
        Instr::Rts => "RTS"@,
        Instr::Sbc => "SBC"@,
        Instr::Sec => "SEC"@,
        Instr::Sed => "SED"@,
        Instr::Sei => "SEI"@,
        Instr::Sta => "STA"@,
        Instr::Stx => "STX"@,
        Instr::Sty => "STY"@,
        Instr::Tax => "TAX"@,
        Instr::Tay => "TAY"@,
        Instr::Tsx => "TSX"@,
        Instr::Txa => "TXA"@,
        Instr::Txs => "TXS"@,
        Instr::Tya => "TYA"@,
        Instr::Invalid => "???"@,
    }
}

impl Instr {
    /// The assembler mnemonic, `???` for an invalid opcode.
    pub fn mnemonic(self) -> (r: &'static str)
        ensures
            r@ == mnemonic_of(self),
    {
        match self {
            Instr::Adc => "ADC",
            Instr::And => "AND",
            Instr::AslA => "ASL",
            Instr::AslM => "ASL",
            Instr::Bcc => "BCC",
            Instr::Bcs => "BCS",
            Instr::Beq => "BEQ",
            Instr::Bit => "BIT",
            Instr::Bmi => "BMI",
            Instr::Bne => "BNE",
            Instr::Bpl => "BPL",
            Instr::Brk => "BRK",
            Instr::Bvc => "BVC",
            Instr::Bvs => "BVS",
            Instr::Clc => "CLC",
            Instr::Cld => "CLD",
            Instr::Cli => "CLI",
            Instr::Clv => "CLV",
            Instr::Cmp => "CMP",
            Instr::Cpx => "CPX",
            Instr::Cpy => "CPY",
            Instr::Dec => "DEC",
            Instr::Dex => "DEX",
            Instr::Dey => "DEY",
            Instr::Eor => "EOR",
            Instr::Inc => "INC",
            Instr::Inx => "INX",
            Instr::Iny => "INY",
            Instr::Jmp => "JMP",
            Instr::Jsr => "JSR",
            Instr::Lda => "LDA",
            Instr::Ldx => "LDX",
            Instr::Ldy => "LDY",
            Instr::LsrA => "LSR",
            Instr::LsrM => "LSR",
            Instr::Nop => "NOP",
            Instr::Ora => "ORA",
            Instr::Pha => "PHA",
            Instr::Php => "PHP",
            Instr::Pla => "PLA",
            Instr::Plp => "PLP",
            Instr::RolA => "ROL",
            Instr::RolM => "ROL",
            Instr::RorA => "ROR",
            Instr::RorM => "ROR",
            Instr::Rti => "RTI",
            Instr::Rts => "RTS",
            Instr::Sbc => "SBC",
            Instr::Sec => "SEC",
            Instr::Sed => "SED",
            Instr::Sei => "SEI",
            Instr::Sta => "STA",
            Instr::Stx => "STX",
            Instr::Sty => "STY",
            Instr::Tax => "TAX",
            Instr::Tay => "TAY",
            Instr::Tsx => "TSX",
            Instr::Txa => "TXA",
            Instr::Txs => "TXS",
            Instr::Tya => "TYA",
            Instr::Invalid => "???",
        }
    }
}

} // verus!
