use vstd::prelude::*;

use crate::errors::CpuError;
use crate::flags::spec_pack;
use crate::flags::StatusFlags;
use crate::memory_bus::spec_read_byte;
use crate::memory_bus::spec_read_u16;
use crate::memory_bus::wrap_add16;
use crate::memory_bus::wrap_add8;
use crate::memory_bus::wrap_sub8;
use crate::opcodes::spec_lookup_by_byte;
use crate::opcodes::AddressingMode;
use crate::opcodes::Mnemonic;
use crate::opcodes::OpcodeDescriptor;
use crate::stack::stack_addr;
use crate::stack::u16_hi;
use crate::stack::u16_lo;

verus! {

/// One resolved operand: a raw byte, an effective address into the memory
/// bus, or nothing (the operand is implied or is the accumulator).
#[derive(Clone, Copy, PartialEq, Eq, Structural, Debug)]
pub enum Operand {
    Immediate(u8),
    Memory(u16),
    Implied,
}

/// The machine state as the contracts see it: the 64 KiB memory image, the
/// registers, the stack pointer, and the status flags.
#[verifier::ext_equal]
pub struct CpuState {
    pub mem: Seq<u8>,
    pub a: u8,
    pub x: u8,
    pub y: u8,
    pub pc: u16,
    pub sp: u8,
    pub flags: StatusFlags,
}

/// The value an operand stands for: an immediate byte is itself, an address
/// is read through, and an implied operand reads as zero.
pub open spec fn spec_value_of(s: CpuState, operand: Operand) -> u8 {
    match operand {
        Operand::Immediate(b) => b,
        Operand::Memory(addr) => spec_read_byte(s.mem, addr),
        Operand::Implied => 0,
    }
}

/// The address an operand stands for; an immediate byte is taken as a
/// zero-page address, an implied operand as address zero.
pub open spec fn spec_address_of(operand: Operand) -> u16 {
    match operand {
        Operand::Immediate(b) => b as u16,
        Operand::Memory(addr) => addr,
        Operand::Implied => 0,
    }
}

/// Addressing-mode resolution: the operand produced for one mode, with the
/// program counter still at the opcode byte.  Zero-page indexing wraps modulo
/// 256, absolute indexing modulo 2^16.
pub open spec fn spec_operand(s: CpuState, mode: AddressingMode) -> Operand {
    let op1 = spec_read_byte(s.mem, wrap_add16(s.pc, 1));
    let op2 = spec_read_u16(s.mem, wrap_add16(s.pc, 1));
    match mode {
        AddressingMode::Implied => Operand::Implied,
        AddressingMode::Accumulator => Operand::Implied,
        AddressingMode::Immediate => Operand::Immediate(op1),
        AddressingMode::Relative => Operand::Immediate(op1),
        AddressingMode::ZeroPage => Operand::Memory(op1 as u16),
        AddressingMode::ZeroPageX => Operand::Memory(wrap_add8(op1, s.x) as u16),
        AddressingMode::ZeroPageY => Operand::Memory(wrap_add8(op1, s.y) as u16),
        AddressingMode::Absolute => Operand::Memory(op2),
        AddressingMode::AbsoluteX => Operand::Memory(wrap_add16(op2, s.x as u16)),
        AddressingMode::AbsoluteY => Operand::Memory(wrap_add16(op2, s.y as u16)),
        AddressingMode::Indirect => Operand::Memory(spec_read_u16(s.mem, op2)),
        AddressingMode::IndirectX => Operand::Memory(
            spec_read_u16(s.mem, wrap_add8(op1, s.x) as u16),
        ),
        AddressingMode::IndirectY => Operand::Memory(
            wrap_add16(spec_read_u16(s.mem, op1 as u16), s.y as u16),
        ),
    }
}

/// Flags after an operation that sets zero and sign from a result byte.
pub open spec fn spec_flags_zn(f: StatusFlags, v: u8) -> StatusFlags {
    StatusFlags { zero: v == 0, sign: v >= 0x80, ..f }
}

/// What ADC computes from the accumulator, the operand byte, and the carry:
/// the binary 16-bit sum first, then the two decimal-mode fix-ups when the
/// decimal flag is set.  The zero flag always reflects the binary sum; sign,
/// overflow and the stored byte reflect the adjusted result.
pub struct AdcOutcome {
    pub value: u8,
    pub carry: bool,
    pub zero: bool,
    pub sign: bool,
    pub overflow: bool,
}

pub open spec fn spec_adc_outcome(a: u8, m: u8, carry: bool, decimal: bool) -> AdcOutcome {
    let c = if carry {
        1int
    } else {
        0int
    };
    let bin = a + m + c;
    let low_fixed = if decimal && (a % 16) + (m % 16) + c > 9 {
        bin + 6
    } else {
        bin
    };
    let r = if decimal && low_fixed > 0x99 {
        low_fixed + 0x60
    } else {
        low_fixed
    };
    AdcOutcome {
        value: (r % 0x100) as u8,
        carry: if decimal {
            (r / 0x100) % 2 == 1
        } else {
            bin > 0xFF
        },
        zero: bin % 0x100 == 0,
        sign: r % 0x100 >= 0x80,
        overflow: ((a >= 0x80) != (r % 0x100 >= 0x80)) && ((m >= 0x80) != (r % 0x100 >= 0x80)),
    }
}

/// ADC: add the operand byte and the carry into the accumulator.
pub open spec fn spec_adc(s: CpuState, v: u8) -> CpuState {
    let o = spec_adc_outcome(s.a, v, s.flags.carry, s.flags.decimal);
    CpuState {
        a: o.value,
        flags: StatusFlags {
            carry: o.carry,
            zero: o.zero,
            sign: o.sign,
            overflow: o.overflow,
            ..s.flags
        },
        ..s
    }
}

/// AND: conjoin the operand byte into the accumulator.
pub open spec fn spec_and(s: CpuState, v: u8) -> CpuState {
    CpuState { a: s.a & v, flags: spec_flags_zn(s.flags, s.a & v), ..s }
}

/// ASL: shift the accumulator (implied operand) or a memory byte left by
/// one; the old bit 7 moves into the carry.
pub open spec fn spec_asl(s: CpuState, operand: Operand) -> CpuState {
    let t = if operand is Implied {
        s.a
    } else {
        spec_value_of(s, operand)
    };
    let r = ((2 * t) % 0x100) as u8;
    let f = StatusFlags { carry: t >= 0x80, zero: r == 0, sign: r >= 0x80, ..s.flags };
    if operand is Implied {
        CpuState { a: r, flags: f, ..s }
    } else {
        CpuState { mem: s.mem.update(spec_address_of(operand) as int, r), flags: f, ..s }
    }
}

/// BIT: test the operand byte against the accumulator without changing it;
/// bits 6 and 7 of the tested byte land in overflow and sign.
pub open spec fn spec_bit(s: CpuState, v: u8) -> CpuState {
    CpuState {
        flags: StatusFlags {
            zero: (s.a & v) == 0,
            overflow: v & 0x40 == 0x40,
            sign: v >= 0x80,
            ..s.flags
        },
        ..s
    }
}

/// CMP/CPX/CPY: flags from `reg - v`; the register is unchanged.
pub open spec fn spec_compare(s: CpuState, reg: u8, v: u8) -> CpuState {
    CpuState {
        flags: StatusFlags {
            carry: reg >= v,
            zero: reg == v,
            sign: wrap_sub8(reg, v) >= 0x80,
            ..s.flags
        },
        ..s
    }
}

/// DEC: decrement a memory byte modulo 256.
pub open spec fn spec_dec(s: CpuState, operand: Operand) -> CpuState {
    let r = wrap_sub8(spec_value_of(s, operand), 1);
    CpuState {
        mem: s.mem.update(spec_address_of(operand) as int, r),
        flags: spec_flags_zn(s.flags, r),
        ..s
    }
}

/// The loads: LDA/LDX/LDY set their register and the zero and sign flags.
pub open spec fn spec_lda(s: CpuState, v: u8) -> CpuState {
    CpuState { a: v, flags: spec_flags_zn(s.flags, v), ..s }
}

pub open spec fn spec_ldx(s: CpuState, v: u8) -> CpuState {
    CpuState { x: v, flags: spec_flags_zn(s.flags, v), ..s }
}

pub open spec fn spec_ldy(s: CpuState, v: u8) -> CpuState {
    CpuState { y: v, flags: spec_flags_zn(s.flags, v), ..s }
}

/// STA: store the accumulator; no flag changes.
pub open spec fn spec_sta(s: CpuState, addr: u16) -> CpuState {
    CpuState { mem: s.mem.update(addr as int, s.a), ..s }
}

/// A branch offset sign-extended from 8 to 16 bits.
pub open spec fn sext8(offset: u8) -> int {
    if offset < 0x80 {
        offset as int
    } else {
        offset - 0x100
    }
}

/// Where a taken branch at `pc` with the given offset lands, before the
/// instruction length is added; arithmetic on the program counter is modulo
/// 2^16.
pub open spec fn spec_branch_target(pc: u16, offset: u8) -> u16 {
    ((pc + sext8(offset) + 0x10000) % 0x10000) as u16
}

/// A branch: jump relative when `taken` holds, otherwise do nothing.  No
/// flags change either way.
pub open spec fn spec_branch(s: CpuState, taken: bool, offset: u8) -> CpuState {
    if taken {
        CpuState { pc: spec_branch_target(s.pc, offset), ..s }
    } else {
        s
    }
}

/// BRK: push the address two past the opcode (high byte first), push the
/// flags with the break bit set, set interrupt-disable, and jump through the
/// vector at `0xFFFE`.
pub open spec fn spec_brk(s: CpuState) -> CpuState {
    let ra = wrap_add16(s.pc, 2);
    let m1 = s.mem.update(stack_addr(s.sp) as int, u16_hi(ra));
    let sp1 = wrap_sub8(s.sp, 1);
    let m2 = m1.update(stack_addr(sp1) as int, u16_lo(ra));
    let sp2 = wrap_sub8(sp1, 1);
    let m3 = m2.update(stack_addr(sp2) as int, spec_pack(StatusFlags { break_flag: true, ..s.flags }));
    let sp3 = wrap_sub8(sp2, 1);
    CpuState {
        mem: m3,
        sp: sp3,
        pc: spec_read_u16(m3, 0xFFFE),
        flags: StatusFlags { interrupt_disabled: true, ..s.flags },
        ..s
    }
}

/// Whether a mnemonic is one of the eight conditional branches.
pub open spec fn spec_is_branch(m: Mnemonic) -> bool {
    match m {
        Mnemonic::Bcc | Mnemonic::Bcs | Mnemonic::Beq | Mnemonic::Bmi | Mnemonic::Bne
            | Mnemonic::Bpl | Mnemonic::Bvc | Mnemonic::Bvs => true,
        _ => false,
    }
}

/// The flag test of each conditional branch.
pub open spec fn spec_branch_predicate(m: Mnemonic, f: StatusFlags) -> bool {
    match m {
        Mnemonic::Bcc => !f.carry,
        Mnemonic::Bcs => f.carry,
        Mnemonic::Beq => f.zero,
        Mnemonic::Bne => !f.zero,
        Mnemonic::Bmi => f.sign,
        Mnemonic::Bpl => !f.sign,
        Mnemonic::Bvc => !f.overflow,
        Mnemonic::Bvs => f.overflow,
        _ => false,
    }
}

/// The effect of one instruction on the state, before the program counter is
/// advanced by the instruction length.  `None` means the mnemonic is not one
/// the executor implements and the step reports an unknown opcode.
pub open spec fn spec_execute(s: CpuState, d: OpcodeDescriptor, operand: Operand) -> Option<
    CpuState,
> {
    match d.mnemonic {
        Mnemonic::Adc => Some(spec_adc(s, spec_value_of(s, operand))),
        Mnemonic::And => Some(spec_and(s, spec_value_of(s, operand))),
        Mnemonic::Asl => Some(spec_asl(s, operand)),
        Mnemonic::Bcc => Some(spec_branch(s, !s.flags.carry, spec_value_of(s, operand))),
        Mnemonic::Bcs => Some(spec_branch(s, s.flags.carry, spec_value_of(s, operand))),
        Mnemonic::Beq => Some(spec_branch(s, s.flags.zero, spec_value_of(s, operand))),
        Mnemonic::Bit => Some(spec_bit(s, spec_value_of(s, operand))),
        Mnemonic::Bmi => Some(spec_branch(s, s.flags.sign, spec_value_of(s, operand))),
        Mnemonic::Bne => Some(spec_branch(s, !s.flags.zero, spec_value_of(s, operand))),
        Mnemonic::Bpl => Some(spec_branch(s, !s.flags.sign, spec_value_of(s, operand))),
        Mnemonic::Brk => Some(spec_brk(s)),
        Mnemonic::Bvc => Some(spec_branch(s, !s.flags.overflow, spec_value_of(s, operand))),
        Mnemonic::Bvs => Some(spec_branch(s, s.flags.overflow, spec_value_of(s, operand))),
        Mnemonic::Clc => Some(CpuState { flags: StatusFlags { carry: false, ..s.flags }, ..s }),
        Mnemonic::Cld => Some(CpuState { flags: StatusFlags { decimal: false, ..s.flags }, ..s }),
        Mnemonic::Cli => Some(
            CpuState { flags: StatusFlags { interrupt_disabled: false, ..s.flags }, ..s },
        ),
        Mnemonic::Clv => Some(CpuState { flags: StatusFlags { overflow: false, ..s.flags }, ..s }),
        Mnemonic::Cmp => Some(spec_compare(s, s.a, spec_value_of(s, operand))),
        Mnemonic::Cpx => Some(spec_compare(s, s.x, spec_value_of(s, operand))),
        Mnemonic::Cpy => Some(spec_compare(s, s.y, spec_value_of(s, operand))),
        Mnemonic::Dec => Some(spec_dec(s, operand)),
        Mnemonic::Lda => Some(spec_lda(s, spec_value_of(s, operand))),
        Mnemonic::Ldx => Some(spec_ldx(s, spec_value_of(s, operand))),
        Mnemonic::Ldy => Some(spec_ldy(s, spec_value_of(s, operand))),
        Mnemonic::Sed => Some(CpuState { flags: StatusFlags { decimal: true, ..s.flags }, ..s }),
        Mnemonic::Sta => Some(spec_sta(s, spec_address_of(operand))),
        _ => None,
    }
}

/// One full step: read the byte at the program counter, look it up, resolve
/// the operand, execute, then advance the program counter by the descriptor
/// length.  BRK lands on the vector address exactly, so it skips the length
/// advance; on any error the state is unchanged and the program counter still
/// points at the failing byte.
pub open spec fn spec_step(s: CpuState) -> Result<CpuState, CpuError> {
    let b = spec_read_byte(s.mem, s.pc);
    match spec_lookup_by_byte(b) {
        None => Err(CpuError::UnknownOpcode(s.pc, b)),
        Some(d) => match spec_execute(s, d, spec_operand(s, d.mode)) {
            None => Err(CpuError::UnknownOpcode(s.pc, d.code)),
            Some(s1) => Ok(
                if d.mnemonic is Brk {
                    s1
                } else {
                    CpuState { pc: wrap_add16(s1.pc, d.length as u16), ..s1 }
                },
            ),
        },
    }
}

/// `n` steps in a row; a failing step stops the run and reports the state it
/// failed in together with the error.
pub open spec fn spec_step_n(s: CpuState, n: nat) -> Result<CpuState, (CpuState, CpuError)>
    decreases n,
{
    if n == 0 {
        Ok(s)
    } else {
        match spec_step(s) {
            Ok(s1) => spec_step_n(s1, (n - 1) as nat),
            Err(e) => Err((s, e)),
        }
    }
}

/// Unrolling `spec_step_n` from the back: `n + 1` steps are `n` steps
/// followed by one more.
pub proof fn lemma_step_n_snoc(s: CpuState, n: nat)
    ensures
        spec_step_n(s, n + 1) == (match spec_step_n(s, n) {
            Ok(t) => match spec_step(t) {
                Ok(u) => Ok::<CpuState, (CpuState, CpuError)>(u),
                Err(e) => Err::<CpuState, (CpuState, CpuError)>((t, e)),
            },
            Err(te) => Err::<CpuState, (CpuState, CpuError)>(te),
        }),
    decreases n,
{
    if n == 0 {
        match spec_step(s) {
            Ok(s1) => {
                assert(spec_step_n(s1, 0) == Ok::<CpuState, (CpuState, CpuError)>(s1));
            },
            Err(_) => {},
        }
    } else {
        match spec_step(s) {
            Ok(s1) => lemma_step_n_snoc(s1, (n - 1) as nat),
            Err(_) => {},
        }
    }
}

/// A run that reaches a state whose next step fails ends there, however many
/// more steps were asked for.
pub proof fn lemma_step_n_stuck(s: CpuState, t: CpuState, e: CpuError, i: nat, n: nat)
    requires
        i < n,
        spec_step_n(s, i) == Ok::<CpuState, (CpuState, CpuError)>(t),
        spec_step(t) == Err::<CpuState, CpuError>(e),
    ensures
        spec_step_n(s, n) == Err::<CpuState, (CpuState, CpuError)>((t, e)),
    decreases i,
{
    if i == 0 {
        assert(t == s);
    } else {
        match spec_step(s) {
            Ok(s1) => lemma_step_n_stuck(s1, t, e, (i - 1) as nat, (n - 1) as nat),
            Err(_) => {},
        }
    }
}

/// In binary mode ADC is addition modulo 256: the stored byte is
/// `(A + M + C) mod 256`, the carry reports a sum above 255, zero and sign
/// describe the stored byte, and the overflow flag obeys the signed-overflow
/// rule `((A ^ r) & (M ^ r) & 0x80) != 0`.
pub proof fn lemma_adc_binary(a: u8, m: u8, carry: bool)
    ensures
        ({
            let c = if carry {
                1int
            } else {
                0int
            };
            let o = spec_adc_outcome(a, m, carry, false);
            &&& o.value == (a + m + c) % 0x100
            &&& o.carry == (a + m + c > 0xFF)
            &&& o.zero == ((a + m + c) % 0x100 == 0)
            &&& o.sign == ((a + m + c) % 0x100 >= 0x80)
            &&& o.overflow == (((a ^ o.value) & (m ^ o.value) & 0x80) != 0)
        }),
{
    let o = spec_adc_outcome(a, m, carry, false);
    let r = o.value;
    assert((((a ^ r) & (m ^ r) & 0x80) != 0) == (((a >= 0x80) != (r >= 0x80)) && ((m >= 0x80) != (r
        >= 0x80)))) by (bit_vector);
}

/// A branch instruction whose predicate holds leaves the program counter at
/// `pc + length + sext8(offset)` modulo 2^16; one whose predicate fails
/// leaves it at `pc + length`.  Nothing else changes either way.
pub proof fn lemma_branch_step(s: CpuState)
    requires
        spec_lookup_by_byte(spec_read_byte(s.mem, s.pc)) matches Some(d) && spec_is_branch(
            d.mnemonic,
        ),
    ensures
        ({
            let d = spec_lookup_by_byte(spec_read_byte(s.mem, s.pc)).unwrap();
            let offset = spec_read_byte(s.mem, wrap_add16(s.pc, 1));
            let landing = if spec_branch_predicate(d.mnemonic, s.flags) {
                ((s.pc + d.length + sext8(offset) + 0x10000) % 0x10000) as u16
            } else {
                wrap_add16(s.pc, d.length as u16)
            };
            spec_step(s) == Ok::<CpuState, CpuError>(CpuState { pc: landing, ..s })
        }),
{
    let d = spec_lookup_by_byte(spec_read_byte(s.mem, s.pc)).unwrap();
    let offset = spec_read_byte(s.mem, wrap_add16(s.pc, 1));
    if spec_branch_predicate(d.mnemonic, s.flags) {
        let pc1 = spec_branch_target(s.pc, offset);
        assert(wrap_add16(pc1, d.length as u16) == ((s.pc + d.length + sext8(offset) + 0x10000)
            % 0x10000) as u16) by {
            let x = s.pc + sext8(offset) + 0x10000;
            vstd::arithmetic::div_mod::lemma_add_mod_noop(x, d.length as int, 0x10000);
            assert(x % 0x10000 + d.length < 0x20000);
        };
    }
}

} // verus!
