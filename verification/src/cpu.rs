use vstd::prelude::*;

use crate::errors::CpuError;
use crate::flags::StatusFlags;
use crate::memory_bus::spec_read_byte;
use crate::memory_bus::spec_read_u16;
use crate::memory_bus::wrap_add16;
use crate::memory_bus::wrap_add8;
use crate::memory_bus::MemoryBus;
use crate::memory_bus::MEMORY_SIZE;
use crate::opcodes::lookup_by_byte;
use crate::opcodes::AddressingMode;
use crate::opcodes::Mnemonic;
use crate::opcodes::OpcodeDescriptor;
use crate::registers::Registers;
use crate::semantics::spec_adc;
use crate::semantics::spec_address_of;
use crate::semantics::spec_and;
use crate::semantics::spec_asl;
use crate::semantics::spec_bit;
use crate::semantics::spec_branch;
use crate::semantics::spec_branch_target;
use crate::semantics::spec_brk;
use crate::semantics::spec_compare;
use crate::semantics::spec_dec;
use crate::semantics::spec_lda;
use crate::semantics::spec_ldx;
use crate::semantics::spec_ldy;
use crate::semantics::spec_operand;
use crate::semantics::spec_sta;
use crate::semantics::spec_step;
use crate::semantics::spec_step_n;
use crate::semantics::spec_value_of;
use crate::semantics::CpuState;
use crate::semantics::Operand;
use crate::semantics::lemma_step_n_snoc;
use crate::semantics::lemma_step_n_stuck;
use crate::stack::Stack;

verus! {

/// Where `load` places code when the caller names no address.
pub const DEFAULT_CODE_SEGMENT_START_ADDRESS: u16 = 0xC000;

/// 16-bit addition modulo 2^16, executable twin of `wrap_add16`.
fn wrapping_add16(a: u16, b: u16) -> (r: u16)
    ensures
        r == wrap_add16(a, b),
{
    ((a as u32 + b as u32) % 0x10000) as u16
}

/// 8-bit addition modulo 256, executable twin of `wrap_add8`.
fn wrapping_add8(a: u8, b: u8) -> (r: u8)
    ensures
        r == wrap_add8(a, b),
{
    ((a as u16 + b as u16) % 0x100) as u8
}

/// The memory image that `load` leaves behind: `code` written over `mem`
/// starting at `start`, everything else untouched.
pub open spec fn spec_loaded_mem(mem: Seq<u8>, start: u16, code: Seq<u8>) -> Seq<u8> {
    Seq::new(
        mem.len(),
        |i: int|
            if start <= i < start + code.len() {
                code[i - start]
            } else {
                mem[i]
            },
    )
}

/// The address `load` uses: the caller's, or the default code segment start.
pub open spec fn spec_load_addr(addr: Option<u16>) -> u16 {
    match addr {
        Some(a) => a,
        None => DEFAULT_CODE_SEGMENT_START_ADDRESS,
    }
}

/// A MOS 6502 microprocessor: a 64 KiB memory bus, the register file, the
/// status flags, and the stack pointer.
pub struct Cpu {
    pub memory: MemoryBus,
    pub registers: Registers,
    pub flags: StatusFlags,
    pub stack: Stack,
}

pub type CpuLoadResult = Result<(), CpuError>;

pub type CpuStepResult = Result<(), CpuError>;

impl View for Cpu {
    type V = CpuState;

    open spec fn view(&self) -> CpuState {
        CpuState {
            mem: self.memory@,
            a: self.registers.a,
            x: self.registers.x,
            y: self.registers.y,
            pc: self.registers.pc,
            sp: self.stack.pointer,
            flags: self.flags,
        }
    }
}

impl Cpu {
    /// A freshly powered CPU: memory zeroed, registers zeroed, stack pointer
    /// at the top of the stack page, every flag clear.
    pub fn new() -> (r: Cpu)
        ensures
            r@.mem.len() == MEMORY_SIZE,
            forall|i: int| 0 <= i < MEMORY_SIZE ==> r@.mem[i] == 0u8,
            r@.a == 0 && r@.x == 0 && r@.y == 0 && r@.pc == 0,
            r@.sp == 0xFF,
            r@.flags == crate::flags::spec_initial_flags(),
    {
        Cpu {
            memory: MemoryBus::new(),
            registers: Registers::new(),
            flags: StatusFlags::new(),
            stack: Stack::new(),
        }
    }

    /// Loads `code` into memory at `addr` (or at the default code segment
    /// start when `addr` is `None`) and points the program counter at it.
    /// Fails with `CodeSegmentOutOfRange`, changing nothing, exactly when the
    /// code would run past the end of the address space.
    pub fn load(&mut self, code: &[u8], addr: Option<u16>) -> (r: CpuLoadResult)
        ensures
            ({
                let start = spec_load_addr(addr);
                if start + code@.len() <= 0x10000 {
                    r == Ok::<(), CpuError>(()) && final(self)@ == (CpuState {
                        mem: spec_loaded_mem(old(self)@.mem, start, code@),
                        pc: start,
                        ..old(self)@
                    })
                } else {
                    r == Err::<(), CpuError>(CpuError::CodeSegmentOutOfRange(start))
                        && final(self)@ == old(self)@
                }
            }),
    {
        let start: u16 = match addr {
            Some(a) => a,
            None => DEFAULT_CODE_SEGMENT_START_ADDRESS,
        };
        if code.len() > self.memory.len() - start as usize {
            return Err(CpuError::code_segment_out_of_range(start));
        }
        let ghost pre = self@;
        let mut i: usize = 0;
        while i < code.len()
            invariant
                i <= code@.len(),
                start + code@.len() <= 0x10000,
                pre.mem.len() == MEMORY_SIZE,
                self.registers == old(self).registers,
                self.flags == old(self).flags,
                self.stack == old(self).stack,
                self.memory@.len() == MEMORY_SIZE,
                pre == old(self)@,
                forall|j: int|
                    0 <= j < MEMORY_SIZE ==> self.memory@[j] == (if start <= j < start + i {
                        code@[j - start]
                    } else {
                        pre.mem[j]
                    }),
            decreases code@.len() - i,
        {
            self.memory.write_byte((start as usize + i) as u16, code[i]);
            i = i + 1;
        }
        self.registers.pc = start;
        proof {
            assert(self.memory@ =~= spec_loaded_mem(pre.mem, start, code@));
        }
        Ok(())
    }

    /// Runs `n` instructions in a row; a failing step stops the run, leaves
    /// the state as it was when that step failed, and reports its error.
    pub fn step_n(&mut self, n: u32) -> (r: CpuStepResult)
        ensures
            (match spec_step_n(old(self)@, n as nat) {
                Ok(s1) => r == Ok::<(), CpuError>(()) && final(self)@ == s1,
                Err((s1, e)) => r == Err::<(), CpuError>(e) && final(self)@ == s1,
            }),
    {
        let mut i: u32 = 0;
        while i < n
            invariant
                i <= n,
                spec_step_n(old(self)@, i as nat) == Ok::<CpuState, (CpuState, CpuError)>(self@),
            decreases n - i,
        {
            let ghost before = self@;
            match self.step() {
                Ok(()) => {},
                Err(e) => {
                    proof {
                        lemma_step_n_stuck(old(self)@, before, e, i as nat, n as nat);
                    }
                    return Err(e);
                },
            }
            proof {
                lemma_step_n_snoc(old(self)@, i as nat);
            }
            i = i + 1;
        }
        Ok(())
    }

    /// Runs a single instruction: reads the byte at the program counter,
    /// looks it up, resolves its operand, executes it, and advances the
    /// program counter by the instruction length (except for BRK, which
    /// lands on the interrupt vector exactly).  Fails with `UnknownOpcode`,
    /// changing nothing, when the byte has no descriptor or its mnemonic is
    /// not implemented.
    #[verifier::rlimit(60)]
    pub fn step(&mut self) -> (r: CpuStepResult)
        ensures
            (match spec_step(old(self)@) {
                Ok(s1) => r == Ok::<(), CpuError>(()) && final(self)@ == s1,
                Err(e) => r == Err::<(), CpuError>(e) && final(self)@ == old(self)@,
            }),
    {
        let byte = self.memory.read_byte(self.registers.pc);
        match lookup_by_byte(byte) {
            None => Err(CpuError::unknown_opcode(self.registers.pc, byte)),
            Some(opcode) => {
                let operand = self.get_operand_from_opcode(&opcode);
                let advances = match opcode.mnemonic {
                    Mnemonic::Brk => false,
                    _ => true,
                };
                match opcode.mnemonic {
                    Mnemonic::Adc => self.adc(&operand),
                    Mnemonic::And => self.and(&operand),
                    Mnemonic::Asl => self.asl(&operand),
                    Mnemonic::Bcc => self.bcc(&operand),
                    Mnemonic::Bcs => self.bcs(&operand),
                    Mnemonic::Beq => self.beq(&operand),
                    Mnemonic::Bit => self.bit(&operand),
                    Mnemonic::Bmi => self.bmi(&operand),
                    Mnemonic::Bne => self.bne(&operand),
                    Mnemonic::Bpl => self.bpl(&operand),
                    Mnemonic::Brk => self.brk(),
                    Mnemonic::Bvc => self.bvc(&operand),
                    Mnemonic::Bvs => self.bvs(&operand),
                    Mnemonic::Clc => self.set_carry_flag(false),
                    Mnemonic::Cld => self.set_decimal_flag(false),
                    Mnemonic::Cli => self.set_interrupt_flag(false),
                    Mnemonic::Clv => self.set_overflow_flag(false),
                    Mnemonic::Cmp => {
                        let a = self.registers.a;
                        self.compare(&operand, a)
                    },
                    Mnemonic::Cpx => {
                        let x = self.registers.x;
                        self.compare(&operand, x)
                    },
                    Mnemonic::Cpy => {
                        let y = self.registers.y;
                        self.compare(&operand, y)
                    },
                    Mnemonic::Dec => self.dec(&operand),
                    Mnemonic::Lda => self.lda(&operand),
                    Mnemonic::Ldx => self.ldx(&operand),
                    Mnemonic::Ldy => self.ldy(&operand),
                    Mnemonic::Sed => self.set_decimal_flag(true),
                    Mnemonic::Sta => self.sta(&operand),
                    _ => {
                        return Err(CpuError::unknown_opcode(self.registers.pc, opcode.code));
                    },
                }
                if advances {
                    self.registers.pc = wrapping_add16(self.registers.pc, opcode.length as u16);
                }
                Ok(())
            },
        }
    }

    /// Resolves the operand for one opcode from the bytes that follow the
    /// program counter and the current index registers.
    fn get_operand_from_opcode(&self, opcode: &OpcodeDescriptor) -> (r: Operand)
        ensures
            r == spec_operand(self@, opcode.mode),
    {
        let operand_start = wrapping_add16(self.registers.pc, 1);
        match opcode.mode {
            AddressingMode::Implied => Operand::Implied,
            AddressingMode::Accumulator => Operand::Implied,
            AddressingMode::Immediate => Operand::Immediate(self.read_byte(operand_start)),
            AddressingMode::Relative => Operand::Immediate(self.read_byte(operand_start)),
            AddressingMode::ZeroPage => Operand::Memory(self.read_byte(operand_start) as u16),
            AddressingMode::ZeroPageX => Operand::Memory(
                wrapping_add8(self.read_byte(operand_start), self.registers.x) as u16,
            ),
            AddressingMode::ZeroPageY => Operand::Memory(
                wrapping_add8(self.read_byte(operand_start), self.registers.y) as u16,
            ),
            AddressingMode::Absolute => Operand::Memory(self.read_u16(operand_start)),
            AddressingMode::AbsoluteX => Operand::Memory(
                wrapping_add16(self.read_u16(operand_start), self.registers.x as u16),
            ),
            AddressingMode::AbsoluteY => Operand::Memory(
                wrapping_add16(self.read_u16(operand_start), self.registers.y as u16),
            ),
            AddressingMode::Indirect => {
                let ptr = self.read_u16(operand_start);
                Operand::Memory(self.read_u16(ptr))
            },
            AddressingMode::IndirectX => {
                let ptr = wrapping_add8(self.read_byte(operand_start), self.registers.x);
                Operand::Memory(self.read_u16(ptr as u16))
            },
            AddressingMode::IndirectY => Operand::Memory(
                wrapping_add16(
                    self.read_u16(self.read_byte(operand_start) as u16),
                    self.registers.y as u16,
                ),
            ),
        }
    }

    /// The byte an operand stands for.
    fn unwrap_immediate(&self, operand: &Operand) -> (r: u8)
        ensures
            r == spec_value_of(self@, *operand),
    {
        match *operand {
            Operand::Immediate(byte) => byte,
            Operand::Memory(addr) => self.read_byte(addr),
            Operand::Implied => 0,
        }
    }

    /// The address an operand stands for.
    fn unwrap_address(&self, operand: &Operand) -> (r: u16)
        ensures
            r == spec_address_of(*operand),
    {
        match *operand {
            Operand::Immediate(byte) => byte as u16,
            Operand::Memory(addr) => addr,
            Operand::Implied => 0,
        }
    }

    // ## Opcode handlers ##

    fn adc(&mut self, operand: &Operand)
        ensures
            final(self)@ == spec_adc(old(self)@, spec_value_of(old(self)@, *operand)),
    {
        let value = self.unwrap_immediate(operand);
        let a = self.registers.a;
        let carry: u16 = if self.flags.carry {
            1
        } else {
            0
        };
        let bin: u16 = a as u16 + value as u16 + carry;
        let mut result: u16 = bin;
        if self.flags.decimal {
            if (a as u16 % 16) + (value as u16 % 16) + carry > 9 {
                result = result + 6;
            }
            if result > 0x99 {
                result = result + 0x60;
            }
            self.flags.carry = (result / 0x100) % 2 == 1;
        } else {
            self.flags.carry = bin > 0xFF;
        }
        let stored: u8 = (result % 0x100) as u8;
        self.flags.zero = bin % 0x100 == 0;
        self.flags.sign = stored >= 0x80;
        self.flags.overflow = ((a >= 0x80) != (stored >= 0x80)) && ((value >= 0x80) != (stored
            >= 0x80));
        self.registers.a = stored;
    }

    fn and(&mut self, operand: &Operand)
        ensures
            final(self)@ == spec_and(old(self)@, spec_value_of(old(self)@, *operand)),
    {
        let value = self.unwrap_immediate(operand);
        let result = self.registers.a & value;
        self.registers.a = result;
        self.flags.zero = result == 0;
        self.flags.sign = result >= 0x80;
    }

    fn asl(&mut self, operand: &Operand)
        ensures
            final(self)@ == spec_asl(old(self)@, *operand),
    {
        let target = match *operand {
            Operand::Implied => self.registers.a,
            _ => self.unwrap_immediate(operand),
        };
        let shifted: u8 = ((target as u16 * 2) % 0x100) as u8;
        self.flags.carry = target >= 0x80;
        self.flags.zero = shifted == 0;
        self.flags.sign = shifted >= 0x80;
        match *operand {
            Operand::Implied => {
                self.registers.a = shifted;
            },
            _ => {
                let addr = self.unwrap_address(operand);
                self.write_byte(addr, shifted);
            },
        }
    }

    fn bcc(&mut self, operand: &Operand)
        ensures
            final(self)@ == spec_branch(
                old(self)@,
                !old(self)@.flags.carry,
                spec_value_of(old(self)@, *operand),
            ),
    {
        if !self.flags.carry {
            let offset = self.unwrap_immediate(operand);
            self.relative_jump(offset);
        }
    }

    fn bcs(&mut self, operand: &Operand)
        ensures
            final(self)@ == spec_branch(
                old(self)@,
                old(self)@.flags.carry,
                spec_value_of(old(self)@, *operand),
            ),
    {
        if self.flags.carry {
            let offset = self.unwrap_immediate(operand);
            self.relative_jump(offset);
        }
    }

    fn beq(&mut self, operand: &Operand)
        ensures
            final(self)@ == spec_branch(
                old(self)@,
                old(self)@.flags.zero,
                spec_value_of(old(self)@, *operand),
            ),
    {
        if self.flags.zero {
            let offset = self.unwrap_immediate(operand);
            self.relative_jump(offset);
        }
    }

    fn bit(&mut self, operand: &Operand)
        ensures
            final(self)@ == spec_bit(old(self)@, spec_value_of(old(self)@, *operand)),
    {
        let value = self.unwrap_immediate(operand);
        let result = self.registers.a & value;
        self.flags.zero = result == 0;
        self.flags.overflow = value & 0x40 == 0x40;
        self.flags.sign = value >= 0x80;
    }

    fn bmi(&mut self, operand: &Operand)
        ensures
            final(self)@ == spec_branch(
                old(self)@,
                old(self)@.flags.sign,
                spec_value_of(old(self)@, *operand),
            ),
    {
        if self.flags.sign {
            let offset = self.unwrap_immediate(operand);
            self.relative_jump(offset);
        }
    }

    fn bne(&mut self, operand: &Operand)
        ensures
            final(self)@ == spec_branch(
                old(self)@,
                !old(self)@.flags.zero,
                spec_value_of(old(self)@, *operand),
            ),
    {
        if !self.flags.zero {
            let offset = self.unwrap_immediate(operand);
            self.relative_jump(offset);
        }
    }

    fn bpl(&mut self, operand: &Operand)
        ensures
            final(self)@ == spec_branch(
                old(self)@,
                !old(self)@.flags.sign,
                spec_value_of(old(self)@, *operand),
            ),
    {
        if !self.flags.sign {
            let offset = self.unwrap_immediate(operand);
            self.relative_jump(offset);
        }
    }

    fn brk(&mut self)
        ensures
            final(self)@ == spec_brk(old(self)@),
    {
        let return_addr = wrapping_add16(self.registers.pc, 2);
        self.stack.push_u16(&mut self.memory, return_addr);
        let mut pushed = self.flags;
        pushed.break_flag = true;
        let packed = pushed.to_u8();
        self.stack.push(&mut self.memory, packed);
        self.flags.interrupt_disabled = true;
        self.registers.pc = self.memory.read_u16(0xFFFE);
    }

    fn bvc(&mut self, operand: &Operand)
        ensures
            final(self)@ == spec_branch(
                old(self)@,
                !old(self)@.flags.overflow,
                spec_value_of(old(self)@, *operand),
            ),
    {
        if !self.flags.overflow {
            let offset = self.unwrap_immediate(operand);
            self.relative_jump(offset);
        }
    }

    fn bvs(&mut self, operand: &Operand)
        ensures
            final(self)@ == spec_branch(
                old(self)@,
                old(self)@.flags.overflow,
                spec_value_of(old(self)@, *operand),
            ),
    {
        if self.flags.overflow {
            let offset = self.unwrap_immediate(operand);
            self.relative_jump(offset);
        }
    }

    fn set_carry_flag(&mut self, value: bool)
        ensures
            final(self)@ == (CpuState {
                flags: StatusFlags { carry: value, ..old(self)@.flags },
                ..old(self)@
            }),
    {
        self.flags.carry = value;
    }

    fn set_decimal_flag(&mut self, value: bool)
        ensures
            final(self)@ == (CpuState {
                flags: StatusFlags { decimal: value, ..old(self)@.flags },
                ..old(self)@
            }),
    {
        self.flags.decimal = value;
    }

    fn set_interrupt_flag(&mut self, value: bool)
        ensures
            final(self)@ == (CpuState {
                flags: StatusFlags { interrupt_disabled: value, ..old(self)@.flags },
                ..old(self)@
            }),
    {
        self.flags.interrupt_disabled = value;
    }

    fn set_overflow_flag(&mut self, value: bool)
        ensures
            final(self)@ == (CpuState {
                flags: StatusFlags { overflow: value, ..old(self)@.flags },
                ..old(self)@
            }),
    {
        self.flags.overflow = value;
    }

    fn compare(&mut self, operand: &Operand, byte: u8)
        ensures
            final(self)@ == spec_compare(old(self)@, byte, spec_value_of(old(self)@, *operand)),
    {
        let value = self.unwrap_immediate(operand);
        let difference: u8 = (((byte as u16) + 0x100 - (value as u16)) % 0x100) as u8;
        self.flags.carry = byte >= value;
        self.flags.zero = byte == value;
        self.flags.sign = difference >= 0x80;
    }

    fn dec(&mut self, operand: &Operand)
        ensures
            final(self)@ == spec_dec(old(self)@, *operand),
    {
        let value = self.unwrap_immediate(operand);
        let addr = self.unwrap_address(operand);
        let result: u8 = (((value as u16) + 0x100 - 1) % 0x100) as u8;
        self.write_byte(addr, result);
        self.flags.sign = result >= 0x80;
        self.flags.zero = result == 0;
    }

    fn lda(&mut self, operand: &Operand)
        ensures
            final(self)@ == spec_lda(old(self)@, spec_value_of(old(self)@, *operand)),
    {
        let value = self.unwrap_immediate(operand);
        self.registers.a = value;
        self.flags.sign = value >= 0x80;
        self.flags.zero = value == 0;
    }

    fn ldx(&mut self, operand: &Operand)
        ensures
            final(self)@ == spec_ldx(old(self)@, spec_value_of(old(self)@, *operand)),
    {
        let value = self.unwrap_immediate(operand);
        self.registers.x = value;
        self.flags.sign = value >= 0x80;
        self.flags.zero = value == 0;
    }

    fn ldy(&mut self, operand: &Operand)
        ensures
            final(self)@ == spec_ldy(old(self)@, spec_value_of(old(self)@, *operand)),
    {
        let value = self.unwrap_immediate(operand);
        self.registers.y = value;
        self.flags.sign = value >= 0x80;
        self.flags.zero = value == 0;
    }

    fn sta(&mut self, operand: &Operand)
        ensures
            final(self)@ == spec_sta(old(self)@, spec_address_of(*operand)),
    {
        let addr = self.unwrap_address(operand);
        let value = self.registers.a;
        self.write_byte(addr, value);
    }

    /// Moves the program counter by a signed relative offset: forward for
    /// offsets below 0x80, backward by `0x100 - offset` otherwise, wrapping
    /// modulo 2^16 either way.
    fn relative_jump(&mut self, offset: u8)
        ensures
            final(self)@ == (CpuState {
                pc: spec_branch_target(old(self)@.pc, offset),
                ..old(self)@
            }),
    {
        let pc = self.registers.pc;
        if offset >= 0x80 {
            let back: u16 = 0x100 - offset as u16;
            self.registers.pc = (((pc as u32) + 0x10000 - (back as u32)) % 0x10000) as u16;
        } else {
            self.registers.pc = (((pc as u32) + (offset as u32)) % 0x10000) as u16;
        }
    }

    /// Convenience wrapper for reading a byte from memory.
    fn read_byte(&self, addr: u16) -> (r: u8)
        ensures
            r == spec_read_byte(self@.mem, addr),
    {
        self.memory.read_byte(addr)
    }

    /// Convenience wrapper for writing a byte to memory.
    fn write_byte(&mut self, addr: u16, byte: u8)
        ensures
            final(self)@ == (CpuState {
                mem: old(self)@.mem.update(addr as int, byte),
                ..old(self)@
            }),
    {
        self.memory.write_byte(addr, byte);
    }

    /// Convenience wrapper for reading a little-endian word from memory.
    fn read_u16(&self, addr: u16) -> (r: u16)
        ensures
            r == spec_read_u16(self@.mem, addr),
    {
        self.memory.read_u16(addr)
    }
}

} // verus!
