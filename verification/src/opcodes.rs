use vstd::prelude::*;

use vstd::string::StrSliceExecFns;

verus! {

/// The thirteen addressing modes of the 6502.
#[derive(Clone, Copy, PartialEq, Eq, Structural, Debug)]
pub enum AddressingMode {
    Implied,
    Accumulator,
    Immediate,
    Relative,
    ZeroPage,
    ZeroPageX,
    ZeroPageY,
    Absolute,
    AbsoluteX,
    AbsoluteY,
    Indirect,
    IndirectX,
    IndirectY,
}

/// The mnemonics of the 151 legal opcodes.
#[derive(Clone, Copy, PartialEq, Eq, Structural, Debug)]
pub enum Mnemonic {
    Adc,
    And,
    Asl,
    Bcc,
    Bcs,
    Beq,
    Bit,
    Bmi,
    Bne,
    Bpl,
    Brk,
    Bvc,
    Bvs,
    Clc,
    Cld,
    Cli,
    Clv,
    Cmp,
    Cpx,
    Cpy,
    Dec,
    Dex,
    Dey,
    Eor,
    Inc,
    Inx,
    Iny,
    Jmp,
    Jsr,
    Lda,
    Ldx,
    Ldy,
    Lsr,
    Nop,
    Ora,
    Pha,
    Php,
    Pla,
    Plp,
    Rol,
    Ror,
    Rti,
    Rts,
    Sbc,
    Sec,
    Sed,
    Sei,
    Sta,
    Stx,
    Sty,
    Tax,
    Tay,
    Tsx,
    Txa,
    Txs,
    Tya,
}

/// One entry of the opcode table: a legal opcode byte together with its
/// mnemonic, its addressing mode, and the full instruction length in bytes.
#[derive(Clone, Copy, PartialEq, Eq, Structural, Debug)]
pub struct OpcodeDescriptor {
    pub code: u8,
    pub mnemonic: Mnemonic,
    pub mode: AddressingMode,
    pub length: u8,
}

/// How many operand bytes follow the opcode byte in each addressing mode.
pub open spec fn spec_operand_bytes(mode: AddressingMode) -> u8 {
    match mode {
        AddressingMode::Implied => 0,
        AddressingMode::Accumulator => 0,
        AddressingMode::Immediate => 1,
        AddressingMode::Relative => 1,
        AddressingMode::ZeroPage => 1,
        AddressingMode::ZeroPageX => 1,
        AddressingMode::ZeroPageY => 1,
        AddressingMode::Absolute => 2,
        AddressingMode::AbsoluteX => 2,
        AddressingMode::AbsoluteY => 2,
        AddressingMode::Indirect => 2,
        AddressingMode::IndirectX => 1,
        AddressingMode::IndirectY => 1,
    }
}

/// Executable twin of `spec_operand_bytes`.
pub fn operand_bytes(mode: AddressingMode) -> (r: u8)
    ensures
        r == spec_operand_bytes(mode),
{
    match mode {
        AddressingMode::Implied => 0,
        AddressingMode::Accumulator => 0,
        AddressingMode::Immediate => 1,
        AddressingMode::Relative => 1,
        AddressingMode::ZeroPage => 1,
        AddressingMode::ZeroPageX => 1,
        AddressingMode::ZeroPageY => 1,
        AddressingMode::Absolute => 2,
        AddressingMode::AbsoluteX => 2,
        AddressingMode::AbsoluteY => 2,
        AddressingMode::Indirect => 2,
        AddressingMode::IndirectX => 1,
        AddressingMode::IndirectY => 1,
    }
}

/// The descriptor for one table entry; the length is one opcode byte plus
/// the operand bytes of the mode.
pub open spec fn spec_descriptor(code: u8, mnemonic: Mnemonic, mode: AddressingMode) -> OpcodeDescriptor {
    OpcodeDescriptor {
        code,
        mnemonic,
        mode,
        length: (1 + spec_operand_bytes(mode)) as u8,
    }
}

fn descriptor(code: u8, mnemonic: Mnemonic, mode: AddressingMode) -> (r: OpcodeDescriptor)
    ensures
        r == spec_descriptor(code, mnemonic, mode),
{
    let operands = operand_bytes(mode);
    OpcodeDescriptor { code, mnemonic, mode, length: 1 + operands }
}

/// The opcode table: exactly one descriptor for each of the 151 legal opcode
/// bytes, and none for the rest.
pub open spec fn spec_lookup_by_byte(b: u8) -> Option<OpcodeDescriptor> {
    match b {
        0x00 => Some(spec_descriptor(0x00, Mnemonic::Brk, AddressingMode::Implied)),
        0x01 => Some(spec_descriptor(0x01, Mnemonic::Ora, AddressingMode::IndirectX)),
        0x05 => Some(spec_descriptor(0x05, Mnemonic::Ora, AddressingMode::ZeroPage)),
        0x06 => Some(spec_descriptor(0x06, Mnemonic::Asl, AddressingMode::ZeroPage)),
        0x08 => Some(spec_descriptor(0x08, Mnemonic::Php, AddressingMode::Implied)),
        0x09 => Some(spec_descriptor(0x09, Mnemonic::Ora, AddressingMode::Immediate)),
        0x0A => Some(spec_descriptor(0x0A, Mnemonic::Asl, AddressingMode::Accumulator)),
        0x0D => Some(spec_descriptor(0x0D, Mnemonic::Ora, AddressingMode::Absolute)),
        0x0E => Some(spec_descriptor(0x0E, Mnemonic::Asl, AddressingMode::Absolute)),
        0x10 => Some(spec_descriptor(0x10, Mnemonic::Bpl, AddressingMode::Relative)),
        0x11 => Some(spec_descriptor(0x11, Mnemonic::Ora, AddressingMode::IndirectY)),
        0x15 => Some(spec_descriptor(0x15, Mnemonic::Ora, AddressingMode::ZeroPageX)),
        0x16 => Some(spec_descriptor(0x16, Mnemonic::Asl, AddressingMode::ZeroPageX)),
        0x18 => Some(spec_descriptor(0x18, Mnemonic::Clc, AddressingMode::Implied)),
        0x19 => Some(spec_descriptor(0x19, Mnemonic::Ora, AddressingMode::AbsoluteY)),
        0x1D => Some(spec_descriptor(0x1D, Mnemonic::Ora, AddressingMode::AbsoluteX)),
        0x1E => Some(spec_descriptor(0x1E, Mnemonic::Asl, AddressingMode::AbsoluteX)),
        0x20 => Some(spec_descriptor(0x20, Mnemonic::Jsr, AddressingMode::Absolute)),
        0x21 => Some(spec_descriptor(0x21, Mnemonic::And, AddressingMode::IndirectX)),
        0x24 => Some(spec_descriptor(0x24, Mnemonic::Bit, AddressingMode::ZeroPage)),
        0x25 => Some(spec_descriptor(0x25, Mnemonic::And, AddressingMode::ZeroPage)),
        0x26 => Some(spec_descriptor(0x26, Mnemonic::Rol, AddressingMode::ZeroPage)),
        0x28 => Some(spec_descriptor(0x28, Mnemonic::Plp, AddressingMode::Implied)),
        0x29 => Some(spec_descriptor(0x29, Mnemonic::And, AddressingMode::Immediate)),
        0x2A => Some(spec_descriptor(0x2A, Mnemonic::Rol, AddressingMode::Accumulator)),
        0x2C => Some(spec_descriptor(0x2C, Mnemonic::Bit, AddressingMode::Absolute)),
        0x2D => Some(spec_descriptor(0x2D, Mnemonic::And, AddressingMode::Absolute)),
        0x2E => Some(spec_descriptor(0x2E, Mnemonic::Rol, AddressingMode::Absolute)),
        0x30 => Some(spec_descriptor(0x30, Mnemonic::Bmi, AddressingMode::Relative)),
        0x31 => Some(spec_descriptor(0x31, Mnemonic::And, AddressingMode::IndirectY)),
        0x35 => Some(spec_descriptor(0x35, Mnemonic::And, AddressingMode::ZeroPageX)),
        0x36 => Some(spec_descriptor(0x36, Mnemonic::Rol, AddressingMode::ZeroPageX)),
        0x38 => Some(spec_descriptor(0x38, Mnemonic::Sec, AddressingMode::Implied)),
        0x39 => Some(spec_descriptor(0x39, Mnemonic::And, AddressingMode::AbsoluteY)),
        0x3D => Some(spec_descriptor(0x3D, Mnemonic::And, AddressingMode::AbsoluteX)),
        0x3E => Some(spec_descriptor(0x3E, Mnemonic::Rol, AddressingMode::AbsoluteX)),
        0x40 => Some(spec_descriptor(0x40, Mnemonic::Rti, AddressingMode::Implied)),
        0x41 => Some(spec_descriptor(0x41, Mnemonic::Eor, AddressingMode::IndirectX)),
        0x45 => Some(spec_descriptor(0x45, Mnemonic::Eor, AddressingMode::ZeroPage)),
        0x46 => Some(spec_descriptor(0x46, Mnemonic::Lsr, AddressingMode::ZeroPage)),
        0x48 => Some(spec_descriptor(0x48, Mnemonic::Pha, AddressingMode::Implied)),
        0x49 => Some(spec_descriptor(0x49, Mnemonic::Eor, AddressingMode::Immediate)),
        0x4A => Some(spec_descriptor(0x4A, Mnemonic::Lsr, AddressingMode::Accumulator)),
        0x4C => Some(spec_descriptor(0x4C, Mnemonic::Jmp, AddressingMode::Absolute)),
        0x4D => Some(spec_descriptor(0x4D, Mnemonic::Eor, AddressingMode::Absolute)),
        0x4E => Some(spec_descriptor(0x4E, Mnemonic::Lsr, AddressingMode::Absolute)),
        0x50 => Some(spec_descriptor(0x50, Mnemonic::Bvc, AddressingMode::Relative)),
        0x51 => Some(spec_descriptor(0x51, Mnemonic::Eor, AddressingMode::IndirectY)),
        0x55 => Some(spec_descriptor(0x55, Mnemonic::Eor, AddressingMode::ZeroPageX)),
        0x56 => Some(spec_descriptor(0x56, Mnemonic::Lsr, AddressingMode::ZeroPageX)),
        0x58 => Some(spec_descriptor(0x58, Mnemonic::Cli, AddressingMode::Implied)),
        0x59 => Some(spec_descriptor(0x59, Mnemonic::Eor, AddressingMode::AbsoluteY)),
        0x5D => Some(spec_descriptor(0x5D, Mnemonic::Eor, AddressingMode::AbsoluteX)),
        0x5E => Some(spec_descriptor(0x5E, Mnemonic::Lsr, AddressingMode::AbsoluteX)),
        0x60 => Some(spec_descriptor(0x60, Mnemonic::Rts, AddressingMode::Implied)),
        0x61 => Some(spec_descriptor(0x61, Mnemonic::Adc, AddressingMode::IndirectX)),
        0x65 => Some(spec_descriptor(0x65, Mnemonic::Adc, AddressingMode::ZeroPage)),
        0x66 => Some(spec_descriptor(0x66, Mnemonic::Ror, AddressingMode::ZeroPage)),
        0x68 => Some(spec_descriptor(0x68, Mnemonic::Pla, AddressingMode::Implied)),
        0x69 => Some(spec_descriptor(0x69, Mnemonic::Adc, AddressingMode::Immediate)),
        0x6A => Some(spec_descriptor(0x6A, Mnemonic::Ror, AddressingMode::Accumulator)),
        0x6C => Some(spec_descriptor(0x6C, Mnemonic::Jmp, AddressingMode::Indirect)),
        0x6D => Some(spec_descriptor(0x6D, Mnemonic::Adc, AddressingMode::Absolute)),
        0x6E => Some(spec_descriptor(0x6E, Mnemonic::Ror, AddressingMode::Absolute)),
        0x70 => Some(spec_descriptor(0x70, Mnemonic::Bvs, AddressingMode::Relative)),
        0x71 => Some(spec_descriptor(0x71, Mnemonic::Adc, AddressingMode::IndirectY)),
        0x75 => Some(spec_descriptor(0x75, Mnemonic::Adc, AddressingMode::ZeroPageX)),
        0x76 => Some(spec_descriptor(0x76, Mnemonic::Ror, AddressingMode::ZeroPageX)),
        0x78 => Some(spec_descriptor(0x78, Mnemonic::Sei, AddressingMode::Implied)),
        0x79 => Some(spec_descriptor(0x79, Mnemonic::Adc, AddressingMode::AbsoluteY)),
        0x7D => Some(spec_descriptor(0x7D, Mnemonic::Adc, AddressingMode::AbsoluteX)),
        0x7E => Some(spec_descriptor(0x7E, Mnemonic::Ror, AddressingMode::AbsoluteX)),
        0x81 => Some(spec_descriptor(0x81, Mnemonic::Sta, AddressingMode::IndirectX)),
        0x84 => Some(spec_descriptor(0x84, Mnemonic::Sty, AddressingMode::ZeroPage)),
        0x85 => Some(spec_descriptor(0x85, Mnemonic::Sta, AddressingMode::ZeroPage)),
        0x86 => Some(spec_descriptor(0x86, Mnemonic::Stx, AddressingMode::ZeroPage)),
        0x88 => Some(spec_descriptor(0x88, Mnemonic::Dey, AddressingMode::Implied)),
        0x8A => Some(spec_descriptor(0x8A, Mnemonic::Txa, AddressingMode::Implied)),
        0x8C => Some(spec_descriptor(0x8C, Mnemonic::Sty, AddressingMode::Absolute)),
        0x8D => Some(spec_descriptor(0x8D, Mnemonic::Sta, AddressingMode::Absolute)),
        0x8E => Some(spec_descriptor(0x8E, Mnemonic::Stx, AddressingMode::Absolute)),
        0x90 => Some(spec_descriptor(0x90, Mnemonic::Bcc, AddressingMode::Relative)),
        0x91 => Some(spec_descriptor(0x91, Mnemonic::Sta, AddressingMode::IndirectY)),
        0x94 => Some(spec_descriptor(0x94, Mnemonic::Sty, AddressingMode::ZeroPageX)),
        0x95 => Some(spec_descriptor(0x95, Mnemonic::Sta, AddressingMode::ZeroPageX)),
        0x96 => Some(spec_descriptor(0x96, Mnemonic::Stx, AddressingMode::ZeroPageY)),
        0x98 => Some(spec_descriptor(0x98, Mnemonic::Tya, AddressingMode::Implied)),
        0x99 => Some(spec_descriptor(0x99, Mnemonic::Sta, AddressingMode::AbsoluteY)),
        0x9A => Some(spec_descriptor(0x9A, Mnemonic::Txs, AddressingMode::Implied)),
        0x9D => Some(spec_descriptor(0x9D, Mnemonic::Sta, AddressingMode::AbsoluteX)),
        0xA0 => Some(spec_descriptor(0xA0, Mnemonic::Ldy, AddressingMode::Immediate)),
        0xA1 => Some(spec_descriptor(0xA1, Mnemonic::Lda, AddressingMode::IndirectX)),
        0xA2 => Some(spec_descriptor(0xA2, Mnemonic::Ldx, AddressingMode::Immediate)),
        0xA4 => Some(spec_descriptor(0xA4, Mnemonic::Ldy, AddressingMode::ZeroPage)),
        0xA5 => Some(spec_descriptor(0xA5, Mnemonic::Lda, AddressingMode::ZeroPage)),
        0xA6 => Some(spec_descriptor(0xA6, Mnemonic::Ldx, AddressingMode::ZeroPage)),
        0xA8 => Some(spec_descriptor(0xA8, Mnemonic::Tay, AddressingMode::Implied)),
        0xA9 => Some(spec_descriptor(0xA9, Mnemonic::Lda, AddressingMode::Immediate)),
        0xAA => Some(spec_descriptor(0xAA, Mnemonic::Tax, AddressingMode::Implied)),
        0xAC => Some(spec_descriptor(0xAC, Mnemonic::Ldy, AddressingMode::Absolute)),
        0xAD => Some(spec_descriptor(0xAD, Mnemonic::Lda, AddressingMode::Absolute)),
        0xAE => Some(spec_descriptor(0xAE, Mnemonic::Ldx, AddressingMode::Absolute)),
        0xB0 => Some(spec_descriptor(0xB0, Mnemonic::Bcs, AddressingMode::Relative)),
        0xB1 => Some(spec_descriptor(0xB1, Mnemonic::Lda, AddressingMode::IndirectY)),
        0xB4 => Some(spec_descriptor(0xB4, Mnemonic::Ldy, AddressingMode::ZeroPageX)),
        0xB5 => Some(spec_descriptor(0xB5, Mnemonic::Lda, AddressingMode::ZeroPageX)),
        0xB6 => Some(spec_descriptor(0xB6, Mnemonic::Ldx, AddressingMode::ZeroPageY)),
        0xB8 => Some(spec_descriptor(0xB8, Mnemonic::Clv, AddressingMode::Implied)),
        0xB9 => Some(spec_descriptor(0xB9, Mnemonic::Lda, AddressingMode::AbsoluteY)),
        0xBA => Some(spec_descriptor(0xBA, Mnemonic::Tsx, AddressingMode::Implied)),
        0xBC => Some(spec_descriptor(0xBC, Mnemonic::Ldy, AddressingMode::AbsoluteX)),
        0xBD => Some(spec_descriptor(0xBD, Mnemonic::Lda, AddressingMode::AbsoluteX)),
        0xBE => Some(spec_descriptor(0xBE, Mnemonic::Ldx, AddressingMode::AbsoluteY)),
        0xC0 => Some(spec_descriptor(0xC0, Mnemonic::Cpy, AddressingMode::Immediate)),
        0xC1 => Some(spec_descriptor(0xC1, Mnemonic::Cmp, AddressingMode::IndirectX)),
        0xC4 => Some(spec_descriptor(0xC4, Mnemonic::Cpy, AddressingMode::ZeroPage)),
        0xC5 => Some(spec_descriptor(0xC5, Mnemonic::Cmp, AddressingMode::ZeroPage)),
        0xC6 => Some(spec_descriptor(0xC6, Mnemonic::Dec, AddressingMode::ZeroPage)),
        0xC8 => Some(spec_descriptor(0xC8, Mnemonic::Iny, AddressingMode::Implied)),
        0xC9 => Some(spec_descriptor(0xC9, Mnemonic::Cmp, AddressingMode::Immediate)),
        0xCA => Some(spec_descriptor(0xCA, Mnemonic::Dex, AddressingMode::Implied)),
        0xCC => Some(spec_descriptor(0xCC, Mnemonic::Cpy, AddressingMode::Absolute)),
        0xCD => Some(spec_descriptor(0xCD, Mnemonic::Cmp, AddressingMode::Absolute)),
        0xCE => Some(spec_descriptor(0xCE, Mnemonic::Dec, AddressingMode::Absolute)),
        0xD0 => Some(spec_descriptor(0xD0, Mnemonic::Bne, AddressingMode::Relative)),
        0xD1 => Some(spec_descriptor(0xD1, Mnemonic::Cmp, AddressingMode::IndirectY)),
        0xD5 => Some(spec_descriptor(0xD5, Mnemonic::Cmp, AddressingMode::ZeroPageX)),
        0xD6 => Some(spec_descriptor(0xD6, Mnemonic::Dec, AddressingMode::ZeroPageX)),
        0xD8 => Some(spec_descriptor(0xD8, Mnemonic::Cld, AddressingMode::Implied)),
        0xD9 => Some(spec_descriptor(0xD9, Mnemonic::Cmp, AddressingMode::AbsoluteY)),
        0xDD => Some(spec_descriptor(0xDD, Mnemonic::Cmp, AddressingMode::AbsoluteX)),
        0xDE => Some(spec_descriptor(0xDE, Mnemonic::Dec, AddressingMode::AbsoluteX)),
        0xE0 => Some(spec_descriptor(0xE0, Mnemonic::Cpx, AddressingMode::Immediate)),
        0xE1 => Some(spec_descriptor(0xE1, Mnemonic::Sbc, AddressingMode::IndirectX)),
        0xE4 => Some(spec_descriptor(0xE4, Mnemonic::Cpx, AddressingMode::ZeroPage)),
        0xE5 => Some(spec_descriptor(0xE5, Mnemonic::Sbc, AddressingMode::ZeroPage)),
        0xE6 => Some(spec_descriptor(0xE6, Mnemonic::Inc, AddressingMode::ZeroPage)),
        0xE8 => Some(spec_descriptor(0xE8, Mnemonic::Inx, AddressingMode::Implied)),
        0xE9 => Some(spec_descriptor(0xE9, Mnemonic::Sbc, AddressingMode::Immediate)),
        0xEA => Some(spec_descriptor(0xEA, Mnemonic::Nop, AddressingMode::Implied)),
        0xEC => Some(spec_descriptor(0xEC, Mnemonic::Cpx, AddressingMode::Absolute)),
        0xED => Some(spec_descriptor(0xED, Mnemonic::Sbc, AddressingMode::Absolute)),
        0xEE => Some(spec_descriptor(0xEE, Mnemonic::Inc, AddressingMode::Absolute)),
        0xF0 => Some(spec_descriptor(0xF0, Mnemonic::Beq, AddressingMode::Relative)),
        0xF1 => Some(spec_descriptor(0xF1, Mnemonic::Sbc, AddressingMode::IndirectY)),
        0xF5 => Some(spec_descriptor(0xF5, Mnemonic::Sbc, AddressingMode::ZeroPageX)),
        0xF6 => Some(spec_descriptor(0xF6, Mnemonic::Inc, AddressingMode::ZeroPageX)),
        0xF8 => Some(spec_descriptor(0xF8, Mnemonic::Sed, AddressingMode::Implied)),
        0xF9 => Some(spec_descriptor(0xF9, Mnemonic::Sbc, AddressingMode::AbsoluteY)),
        0xFD => Some(spec_descriptor(0xFD, Mnemonic::Sbc, AddressingMode::AbsoluteX)),
        0xFE => Some(spec_descriptor(0xFE, Mnemonic::Inc, AddressingMode::AbsoluteX)),
        _ => None,
    }
}

/// Looks a raw opcode byte up in the opcode table.
pub fn lookup_by_byte(b: u8) -> (r: Option<OpcodeDescriptor>)
    ensures
        r == spec_lookup_by_byte(b),
{
    match b {
        0x00 => Some(descriptor(0x00, Mnemonic::Brk, AddressingMode::Implied)),
        0x01 => Some(descriptor(0x01, Mnemonic::Ora, AddressingMode::IndirectX)),
        0x05 => Some(descriptor(0x05, Mnemonic::Ora, AddressingMode::ZeroPage)),
        0x06 => Some(descriptor(0x06, Mnemonic::Asl, AddressingMode::ZeroPage)),
        0x08 => Some(descriptor(0x08, Mnemonic::Php, AddressingMode::Implied)),
        0x09 => Some(descriptor(0x09, Mnemonic::Ora, AddressingMode::Immediate)),
        0x0A => Some(descriptor(0x0A, Mnemonic::Asl, AddressingMode::Accumulator)),
        0x0D => Some(descriptor(0x0D, Mnemonic::Ora, AddressingMode::Absolute)),
        0x0E => Some(descriptor(0x0E, Mnemonic::Asl, AddressingMode::Absolute)),
        0x10 => Some(descriptor(0x10, Mnemonic::Bpl, AddressingMode::Relative)),
        0x11 => Some(descriptor(0x11, Mnemonic::Ora, AddressingMode::IndirectY)),
        0x15 => Some(descriptor(0x15, Mnemonic::Ora, AddressingMode::ZeroPageX)),
        0x16 => Some(descriptor(0x16, Mnemonic::Asl, AddressingMode::ZeroPageX)),
        0x18 => Some(descriptor(0x18, Mnemonic::Clc, AddressingMode::Implied)),
        0x19 => Some(descriptor(0x19, Mnemonic::Ora, AddressingMode::AbsoluteY)),
        0x1D => Some(descriptor(0x1D, Mnemonic::Ora, AddressingMode::AbsoluteX)),
        0x1E => Some(descriptor(0x1E, Mnemonic::Asl, AddressingMode::AbsoluteX)),
        0x20 => Some(descriptor(0x20, Mnemonic::Jsr, AddressingMode::Absolute)),
        0x21 => Some(descriptor(0x21, Mnemonic::And, AddressingMode::IndirectX)),
        0x24 => Some(descriptor(0x24, Mnemonic::Bit, AddressingMode::ZeroPage)),
        0x25 => Some(descriptor(0x25, Mnemonic::And, AddressingMode::ZeroPage)),
        0x26 => Some(descriptor(0x26, Mnemonic::Rol, AddressingMode::ZeroPage)),
        0x28 => Some(descriptor(0x28, Mnemonic::Plp, AddressingMode::Implied)),
        0x29 => Some(descriptor(0x29, Mnemonic::And, AddressingMode::Immediate)),
        0x2A => Some(descriptor(0x2A, Mnemonic::Rol, AddressingMode::Accumulator)),
        0x2C => Some(descriptor(0x2C, Mnemonic::Bit, AddressingMode::Absolute)),
        0x2D => Some(descriptor(0x2D, Mnemonic::And, AddressingMode::Absolute)),
        0x2E => Some(descriptor(0x2E, Mnemonic::Rol, AddressingMode::Absolute)),
        0x30 => Some(descriptor(0x30, Mnemonic::Bmi, AddressingMode::Relative)),
        0x31 => Some(descriptor(0x31, Mnemonic::And, AddressingMode::IndirectY)),
        0x35 => Some(descriptor(0x35, Mnemonic::And, AddressingMode::ZeroPageX)),
        0x36 => Some(descriptor(0x36, Mnemonic::Rol, AddressingMode::ZeroPageX)),
        0x38 => Some(descriptor(0x38, Mnemonic::Sec, AddressingMode::Implied)),
        0x39 => Some(descriptor(0x39, Mnemonic::And, AddressingMode::AbsoluteY)),
        0x3D => Some(descriptor(0x3D, Mnemonic::And, AddressingMode::AbsoluteX)),
        0x3E => Some(descriptor(0x3E, Mnemonic::Rol, AddressingMode::AbsoluteX)),
        0x40 => Some(descriptor(0x40, Mnemonic::Rti, AddressingMode::Implied)),
        0x41 => Some(descriptor(0x41, Mnemonic::Eor, AddressingMode::IndirectX)),
        0x45 => Some(descriptor(0x45, Mnemonic::Eor, AddressingMode::ZeroPage)),
        0x46 => Some(descriptor(0x46, Mnemonic::Lsr, AddressingMode::ZeroPage)),
        0x48 => Some(descriptor(0x48, Mnemonic::Pha, AddressingMode::Implied)),
        0x49 => Some(descriptor(0x49, Mnemonic::Eor, AddressingMode::Immediate)),
        0x4A => Some(descriptor(0x4A, Mnemonic::Lsr, AddressingMode::Accumulator)),
        0x4C => Some(descriptor(0x4C, Mnemonic::Jmp, AddressingMode::Absolute)),
        0x4D => Some(descriptor(0x4D, Mnemonic::Eor, AddressingMode::Absolute)),
        0x4E => Some(descriptor(0x4E, Mnemonic::Lsr, AddressingMode::Absolute)),
        0x50 => Some(descriptor(0x50, Mnemonic::Bvc, AddressingMode::Relative)),
        0x51 => Some(descriptor(0x51, Mnemonic::Eor, AddressingMode::IndirectY)),
        0x55 => Some(descriptor(0x55, Mnemonic::Eor, AddressingMode::ZeroPageX)),
        0x56 => Some(descriptor(0x56, Mnemonic::Lsr, AddressingMode::ZeroPageX)),
        0x58 => Some(descriptor(0x58, Mnemonic::Cli, AddressingMode::Implied)),
        0x59 => Some(descriptor(0x59, Mnemonic::Eor, AddressingMode::AbsoluteY)),
        0x5D => Some(descriptor(0x5D, Mnemonic::Eor, AddressingMode::AbsoluteX)),
        0x5E => Some(descriptor(0x5E, Mnemonic::Lsr, AddressingMode::AbsoluteX)),
        0x60 => Some(descriptor(0x60, Mnemonic::Rts, AddressingMode::Implied)),
        0x61 => Some(descriptor(0x61, Mnemonic::Adc, AddressingMode::IndirectX)),
        0x65 => Some(descriptor(0x65, Mnemonic::Adc, AddressingMode::ZeroPage)),
        0x66 => Some(descriptor(0x66, Mnemonic::Ror, AddressingMode::ZeroPage)),
        0x68 => Some(descriptor(0x68, Mnemonic::Pla, AddressingMode::Implied)),
        0x69 => Some(descriptor(0x69, Mnemonic::Adc, AddressingMode::Immediate)),
        0x6A => Some(descriptor(0x6A, Mnemonic::Ror, AddressingMode::Accumulator)),
        0x6C => Some(descriptor(0x6C, Mnemonic::Jmp, AddressingMode::Indirect)),
        0x6D => Some(descriptor(0x6D, Mnemonic::Adc, AddressingMode::Absolute)),
        0x6E => Some(descriptor(0x6E, Mnemonic::Ror, AddressingMode::Absolute)),
        0x70 => Some(descriptor(0x70, Mnemonic::Bvs, AddressingMode::Relative)),
        0x71 => Some(descriptor(0x71, Mnemonic::Adc, AddressingMode::IndirectY)),
        0x75 => Some(descriptor(0x75, Mnemonic::Adc, AddressingMode::ZeroPageX)),
        0x76 => Some(descriptor(0x76, Mnemonic::Ror, AddressingMode::ZeroPageX)),
        0x78 => Some(descriptor(0x78, Mnemonic::Sei, AddressingMode::Implied)),
        0x79 => Some(descriptor(0x79, Mnemonic::Adc, AddressingMode::AbsoluteY)),
        0x7D => Some(descriptor(0x7D, Mnemonic::Adc, AddressingMode::AbsoluteX)),
        0x7E => Some(descriptor(0x7E, Mnemonic::Ror, AddressingMode::AbsoluteX)),
        0x81 => Some(descriptor(0x81, Mnemonic::Sta, AddressingMode::IndirectX)),
        0x84 => Some(descriptor(0x84, Mnemonic::Sty, AddressingMode::ZeroPage)),
        0x85 => Some(descriptor(0x85, Mnemonic::Sta, AddressingMode::ZeroPage)),
        0x86 => Some(descriptor(0x86, Mnemonic::Stx, AddressingMode::ZeroPage)),
        0x88 => Some(descriptor(0x88, Mnemonic::Dey, AddressingMode::Implied)),
        0x8A => Some(descriptor(0x8A, Mnemonic::Txa, AddressingMode::Implied)),
        0x8C => Some(descriptor(0x8C, Mnemonic::Sty, AddressingMode::Absolute)),
        0x8D => Some(descriptor(0x8D, Mnemonic::Sta, AddressingMode::Absolute)),
        0x8E => Some(descriptor(0x8E, Mnemonic::Stx, AddressingMode::Absolute)),
        0x90 => Some(descriptor(0x90, Mnemonic::Bcc, AddressingMode::Relative)),
        0x91 => Some(descriptor(0x91, Mnemonic::Sta, AddressingMode::IndirectY)),
        0x94 => Some(descriptor(0x94, Mnemonic::Sty, AddressingMode::ZeroPageX)),
        0x95 => Some(descriptor(0x95, Mnemonic::Sta, AddressingMode::ZeroPageX)),
        0x96 => Some(descriptor(0x96, Mnemonic::Stx, AddressingMode::ZeroPageY)),
        0x98 => Some(descriptor(0x98, Mnemonic::Tya, AddressingMode::Implied)),
        0x99 => Some(descriptor(0x99, Mnemonic::Sta, AddressingMode::AbsoluteY)),
        0x9A => Some(descriptor(0x9A, Mnemonic::Txs, AddressingMode::Implied)),
        0x9D => Some(descriptor(0x9D, Mnemonic::Sta, AddressingMode::AbsoluteX)),
        0xA0 => Some(descriptor(0xA0, Mnemonic::Ldy, AddressingMode::Immediate)),
        0xA1 => Some(descriptor(0xA1, Mnemonic::Lda, AddressingMode::IndirectX)),
        0xA2 => Some(descriptor(0xA2, Mnemonic::Ldx, AddressingMode::Immediate)),
        0xA4 => Some(descriptor(0xA4, Mnemonic::Ldy, AddressingMode::ZeroPage)),
        0xA5 => Some(descriptor(0xA5, Mnemonic::Lda, AddressingMode::ZeroPage)),
        0xA6 => Some(descriptor(0xA6, Mnemonic::Ldx, AddressingMode::ZeroPage)),
        0xA8 => Some(descriptor(0xA8, Mnemonic::Tay, AddressingMode::Implied)),
        0xA9 => Some(descriptor(0xA9, Mnemonic::Lda, AddressingMode::Immediate)),
        0xAA => Some(descriptor(0xAA, Mnemonic::Tax, AddressingMode::Implied)),
        0xAC => Some(descriptor(0xAC, Mnemonic::Ldy, AddressingMode::Absolute)),
        0xAD => Some(descriptor(0xAD, Mnemonic::Lda, AddressingMode::Absolute)),
        0xAE => Some(descriptor(0xAE, Mnemonic::Ldx, AddressingMode::Absolute)),
        0xB0 => Some(descriptor(0xB0, Mnemonic::Bcs, AddressingMode::Relative)),
        0xB1 => Some(descriptor(0xB1, Mnemonic::Lda, AddressingMode::IndirectY)),
        0xB4 => Some(descriptor(0xB4, Mnemonic::Ldy, AddressingMode::ZeroPageX)),
        0xB5 => Some(descriptor(0xB5, Mnemonic::Lda, AddressingMode::ZeroPageX)),
        0xB6 => Some(descriptor(0xB6, Mnemonic::Ldx, AddressingMode::ZeroPageY)),
        0xB8 => Some(descriptor(0xB8, Mnemonic::Clv, AddressingMode::Implied)),
        0xB9 => Some(descriptor(0xB9, Mnemonic::Lda, AddressingMode::AbsoluteY)),
        0xBA => Some(descriptor(0xBA, Mnemonic::Tsx, AddressingMode::Implied)),
        0xBC => Some(descriptor(0xBC, Mnemonic::Ldy, AddressingMode::AbsoluteX)),
        0xBD => Some(descriptor(0xBD, Mnemonic::Lda, AddressingMode::AbsoluteX)),
        0xBE => Some(descriptor(0xBE, Mnemonic::Ldx, AddressingMode::AbsoluteY)),
        0xC0 => Some(descriptor(0xC0, Mnemonic::Cpy, AddressingMode::Immediate)),
        0xC1 => Some(descriptor(0xC1, Mnemonic::Cmp, AddressingMode::IndirectX)),
        0xC4 => Some(descriptor(0xC4, Mnemonic::Cpy, AddressingMode::ZeroPage)),
        0xC5 => Some(descriptor(0xC5, Mnemonic::Cmp, AddressingMode::ZeroPage)),
        0xC6 => Some(descriptor(0xC6, Mnemonic::Dec, AddressingMode::ZeroPage)),
        0xC8 => Some(descriptor(0xC8, Mnemonic::Iny, AddressingMode::Implied)),
        0xC9 => Some(descriptor(0xC9, Mnemonic::Cmp, AddressingMode::Immediate)),
        0xCA => Some(descriptor(0xCA, Mnemonic::Dex, AddressingMode::Implied)),
        0xCC => Some(descriptor(0xCC, Mnemonic::Cpy, AddressingMode::Absolute)),
        0xCD => Some(descriptor(0xCD, Mnemonic::Cmp, AddressingMode::Absolute)),
        0xCE => Some(descriptor(0xCE, Mnemonic::Dec, AddressingMode::Absolute)),
        0xD0 => Some(descriptor(0xD0, Mnemonic::Bne, AddressingMode::Relative)),
        0xD1 => Some(descriptor(0xD1, Mnemonic::Cmp, AddressingMode::IndirectY)),
        0xD5 => Some(descriptor(0xD5, Mnemonic::Cmp, AddressingMode::ZeroPageX)),
        0xD6 => Some(descriptor(0xD6, Mnemonic::Dec, AddressingMode::ZeroPageX)),
        0xD8 => Some(descriptor(0xD8, Mnemonic::Cld, AddressingMode::Implied)),
        0xD9 => Some(descriptor(0xD9, Mnemonic::Cmp, AddressingMode::AbsoluteY)),
        0xDD => Some(descriptor(0xDD, Mnemonic::Cmp, AddressingMode::AbsoluteX)),
        0xDE => Some(descriptor(0xDE, Mnemonic::Dec, AddressingMode::AbsoluteX)),
        0xE0 => Some(descriptor(0xE0, Mnemonic::Cpx, AddressingMode::Immediate)),
        0xE1 => Some(descriptor(0xE1, Mnemonic::Sbc, AddressingMode::IndirectX)),
        0xE4 => Some(descriptor(0xE4, Mnemonic::Cpx, AddressingMode::ZeroPage)),
        0xE5 => Some(descriptor(0xE5, Mnemonic::Sbc, AddressingMode::ZeroPage)),
        0xE6 => Some(descriptor(0xE6, Mnemonic::Inc, AddressingMode::ZeroPage)),
        0xE8 => Some(descriptor(0xE8, Mnemonic::Inx, AddressingMode::Implied)),
        0xE9 => Some(descriptor(0xE9, Mnemonic::Sbc, AddressingMode::Immediate)),
        0xEA => Some(descriptor(0xEA, Mnemonic::Nop, AddressingMode::Implied)),
        0xEC => Some(descriptor(0xEC, Mnemonic::Cpx, AddressingMode::Absolute)),
        0xED => Some(descriptor(0xED, Mnemonic::Sbc, AddressingMode::Absolute)),
        0xEE => Some(descriptor(0xEE, Mnemonic::Inc, AddressingMode::Absolute)),
        0xF0 => Some(descriptor(0xF0, Mnemonic::Beq, AddressingMode::Relative)),
        0xF1 => Some(descriptor(0xF1, Mnemonic::Sbc, AddressingMode::IndirectY)),
        0xF5 => Some(descriptor(0xF5, Mnemonic::Sbc, AddressingMode::ZeroPageX)),
        0xF6 => Some(descriptor(0xF6, Mnemonic::Inc, AddressingMode::ZeroPageX)),
        0xF8 => Some(descriptor(0xF8, Mnemonic::Sed, AddressingMode::Implied)),
        0xF9 => Some(descriptor(0xF9, Mnemonic::Sbc, AddressingMode::AbsoluteY)),
        0xFD => Some(descriptor(0xFD, Mnemonic::Sbc, AddressingMode::AbsoluteX)),
        0xFE => Some(descriptor(0xFE, Mnemonic::Inc, AddressingMode::AbsoluteX)),
        _ => None,
    }
}

/// Every descriptor in the table carries the byte it was looked up by, and a
/// length of one opcode byte plus the operand bytes of its mode.
pub proof fn lemma_lookup_by_byte(b: u8)
    ensures
        spec_lookup_by_byte(b) matches Some(d) ==> d.code == b && d.length == 1
            + spec_operand_bytes(d.mode),
{
}

/// Whether some legal opcode pairs this mnemonic with this addressing mode.
pub open spec fn spec_is_pair(b: u8, mnemonic: Mnemonic, mode: AddressingMode) -> bool {
    match spec_lookup_by_byte(b) {
        Some(d) => d.mnemonic == mnemonic && d.mode == mode,
        None => false,
    }
}

/// Whether the pair `(mnemonic, mode)` appears in the opcode table.
pub open spec fn spec_pair_legal(mnemonic: Mnemonic, mode: AddressingMode) -> bool {
    exists|b: u8| #[trigger] spec_is_pair(b, mnemonic, mode)
}

/// Finds the table entry that pairs `mnemonic` with `mode`, if there is one.
pub fn lookup_by_mnemonic_and_mode(mnemonic: Mnemonic, mode: AddressingMode) -> (r: Option<
    OpcodeDescriptor,
>)
    ensures
        r is Some <==> spec_pair_legal(mnemonic, mode),
        r matches Some(d) ==> spec_lookup_by_byte(d.code) == Some(d) && d.mnemonic == mnemonic
            && d.mode == mode,
{
    let mut b: u16 = 0;
    while b < 0x100
        invariant
            b <= 0x100,
            forall|c: u8| c < b ==> !#[trigger] spec_is_pair(c, mnemonic, mode),
        decreases 0x100 - b,
    {
        if let Some(d) = lookup_by_byte(b as u8) {
            if d.mnemonic == mnemonic && d.mode == mode {
                proof {
                    lemma_lookup_by_byte(b as u8);
                    assert(spec_is_pair(b as u8, mnemonic, mode));
                }
                return Some(d);
            }
        }
        proof {
            assert(!spec_is_pair(b as u8, mnemonic, mode));
        }
        b = b + 1;
    }
    proof {
        assert(forall|c: u8| !#[trigger] spec_is_pair(c, mnemonic, mode));
    }
    None
}

/// The mnemonic that a three-character name denotes, if any.
pub open spec fn spec_mnemonic_chars(a: char, b: char, c: char) -> Option<Mnemonic> {
    match (a, b, c) {
        ('A', 'D', 'C') => Some(Mnemonic::Adc),
        ('A', 'N', 'D') => Some(Mnemonic::And),
        ('A', 'S', 'L') => Some(Mnemonic::Asl),
        ('B', 'C', 'C') => Some(Mnemonic::Bcc),
        ('B', 'C', 'S') => Some(Mnemonic::Bcs),
        ('B', 'E', 'Q') => Some(Mnemonic::Beq),
        ('B', 'I', 'T') => Some(Mnemonic::Bit),
        ('B', 'M', 'I') => Some(Mnemonic::Bmi),
        ('B', 'N', 'E') => Some(Mnemonic::Bne),
        ('B', 'P', 'L') => Some(Mnemonic::Bpl),
        ('B', 'R', 'K') => Some(Mnemonic::Brk),
        ('B', 'V', 'C') => Some(Mnemonic::Bvc),
        ('B', 'V', 'S') => Some(Mnemonic::Bvs),
        ('C', 'L', 'C') => Some(Mnemonic::Clc),
        ('C', 'L', 'D') => Some(Mnemonic::Cld),
        ('C', 'L', 'I') => Some(Mnemonic::Cli),
        ('C', 'L', 'V') => Some(Mnemonic::Clv),
        ('C', 'M', 'P') => Some(Mnemonic::Cmp),
        ('C', 'P', 'X') => Some(Mnemonic::Cpx),
        ('C', 'P', 'Y') => Some(Mnemonic::Cpy),
        ('D', 'E', 'C') => Some(Mnemonic::Dec),
        ('D', 'E', 'X') => Some(Mnemonic::Dex),
        ('D', 'E', 'Y') => Some(Mnemonic::Dey),
        ('E', 'O', 'R') => Some(Mnemonic::Eor),
        ('I', 'N', 'C') => Some(Mnemonic::Inc),
        ('I', 'N', 'X') => Some(Mnemonic::Inx),
        ('I', 'N', 'Y') => Some(Mnemonic::Iny),
        ('J', 'M', 'P') => Some(Mnemonic::Jmp),
        ('J', 'S', 'R') => Some(Mnemonic::Jsr),
        ('L', 'D', 'A') => Some(Mnemonic::Lda),
        ('L', 'D', 'X') => Some(Mnemonic::Ldx),
        ('L', 'D', 'Y') => Some(Mnemonic::Ldy),
        ('L', 'S', 'R') => Some(Mnemonic::Lsr),
        ('N', 'O', 'P') => Some(Mnemonic::Nop),
        ('O', 'R', 'A') => Some(Mnemonic::Ora),
        ('P', 'H', 'A') => Some(Mnemonic::Pha),
        ('P', 'H', 'P') => Some(Mnemonic::Php),
        ('P', 'L', 'A') => Some(Mnemonic::Pla),
        ('P', 'L', 'P') => Some(Mnemonic::Plp),
        ('R', 'O', 'L') => Some(Mnemonic::Rol),
        ('R', 'O', 'R') => Some(Mnemonic::Ror),
        ('R', 'T', 'I') => Some(Mnemonic::Rti),
        ('R', 'T', 'S') => Some(Mnemonic::Rts),
        ('S', 'B', 'C') => Some(Mnemonic::Sbc),
        ('S', 'E', 'C') => Some(Mnemonic::Sec),
        ('S', 'E', 'D') => Some(Mnemonic::Sed),
        ('S', 'E', 'I') => Some(Mnemonic::Sei),
        ('S', 'T', 'A') => Some(Mnemonic::Sta),
        ('S', 'T', 'X') => Some(Mnemonic::Stx),
        ('S', 'T', 'Y') => Some(Mnemonic::Sty),
        ('T', 'A', 'X') => Some(Mnemonic::Tax),
        ('T', 'A', 'Y') => Some(Mnemonic::Tay),
        ('T', 'S', 'X') => Some(Mnemonic::Tsx),
        ('T', 'X', 'A') => Some(Mnemonic::Txa),
        ('T', 'X', 'S') => Some(Mnemonic::Txs),
        ('T', 'Y', 'A') => Some(Mnemonic::Tya),
        _ => None,
    }
}

/// The mnemonic that a name denotes: exactly the 56 three-character opcode
/// names, upper case.
pub open spec fn spec_mnemonic_of(s: Seq<char>) -> Option<Mnemonic> {
    if s.len() == 3 {
        spec_mnemonic_chars(s[0], s[1], s[2])
    } else {
        None
    }
}

/// Parses a mnemonic name.
pub fn mnemonic_from_str(s: &str) -> (r: Option<Mnemonic>)
    ensures
        r == spec_mnemonic_of(s@),
{
    if s.unicode_len() != 3 {
        return None;
    }
    let a = s.get_char(0);
    let b = s.get_char(1);
    let c = s.get_char(2);
    match (a, b, c) {
        ('A', 'D', 'C') => Some(Mnemonic::Adc),
        ('A', 'N', 'D') => Some(Mnemonic::And),
        ('A', 'S', 'L') => Some(Mnemonic::Asl),
        ('B', 'C', 'C') => Some(Mnemonic::Bcc),
        ('B', 'C', 'S') => Some(Mnemonic::Bcs),
        ('B', 'E', 'Q') => Some(Mnemonic::Beq),
        ('B', 'I', 'T') => Some(Mnemonic::Bit),
        ('B', 'M', 'I') => Some(Mnemonic::Bmi),
        ('B', 'N', 'E') => Some(Mnemonic::Bne),
        ('B', 'P', 'L') => Some(Mnemonic::Bpl),
        ('B', 'R', 'K') => Some(Mnemonic::Brk),
        ('B', 'V', 'C') => Some(Mnemonic::Bvc),
        ('B', 'V', 'S') => Some(Mnemonic::Bvs),
        ('C', 'L', 'C') => Some(Mnemonic::Clc),
        ('C', 'L', 'D') => Some(Mnemonic::Cld),
        ('C', 'L', 'I') => Some(Mnemonic::Cli),
        ('C', 'L', 'V') => Some(Mnemonic::Clv),
        ('C', 'M', 'P') => Some(Mnemonic::Cmp),
        ('C', 'P', 'X') => Some(Mnemonic::Cpx),
        ('C', 'P', 'Y') => Some(Mnemonic::Cpy),
        ('D', 'E', 'C') => Some(Mnemonic::Dec),
        ('D', 'E', 'X') => Some(Mnemonic::Dex),
        ('D', 'E', 'Y') => Some(Mnemonic::Dey),
        ('E', 'O', 'R') => Some(Mnemonic::Eor),
        ('I', 'N', 'C') => Some(Mnemonic::Inc),
        ('I', 'N', 'X') => Some(Mnemonic::Inx),
        ('I', 'N', 'Y') => Some(Mnemonic::Iny),
        ('J', 'M', 'P') => Some(Mnemonic::Jmp),
        ('J', 'S', 'R') => Some(Mnemonic::Jsr),
        ('L', 'D', 'A') => Some(Mnemonic::Lda),
        ('L', 'D', 'X') => Some(Mnemonic::Ldx),
        ('L', 'D', 'Y') => Some(Mnemonic::Ldy),
        ('L', 'S', 'R') => Some(Mnemonic::Lsr),
        ('N', 'O', 'P') => Some(Mnemonic::Nop),
        ('O', 'R', 'A') => Some(Mnemonic::Ora),
        ('P', 'H', 'A') => Some(Mnemonic::Pha),
        ('P', 'H', 'P') => Some(Mnemonic::Php),
        ('P', 'L', 'A') => Some(Mnemonic::Pla),
        ('P', 'L', 'P') => Some(Mnemonic::Plp),
        ('R', 'O', 'L') => Some(Mnemonic::Rol),
        ('R', 'O', 'R') => Some(Mnemonic::Ror),
        ('R', 'T', 'I') => Some(Mnemonic::Rti),
        ('R', 'T', 'S') => Some(Mnemonic::Rts),
        ('S', 'B', 'C') => Some(Mnemonic::Sbc),
        ('S', 'E', 'C') => Some(Mnemonic::Sec),
        ('S', 'E', 'D') => Some(Mnemonic::Sed),
        ('S', 'E', 'I') => Some(Mnemonic::Sei),
        ('S', 'T', 'A') => Some(Mnemonic::Sta),
        ('S', 'T', 'X') => Some(Mnemonic::Stx),
        ('S', 'T', 'Y') => Some(Mnemonic::Sty),
        ('T', 'A', 'X') => Some(Mnemonic::Tax),
        ('T', 'A', 'Y') => Some(Mnemonic::Tay),
        ('T', 'S', 'X') => Some(Mnemonic::Tsx),
        ('T', 'X', 'A') => Some(Mnemonic::Txa),
        ('T', 'X', 'S') => Some(Mnemonic::Txs),
        ('T', 'Y', 'A') => Some(Mnemonic::Tya),
        _ => None,
    }
}

} // verus!
