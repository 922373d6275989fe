use vstd::prelude::*;

use crate::memory_bus::spec_read_byte;
use crate::memory_bus::wrap_add8;
use crate::memory_bus::wrap_sub8;
use crate::memory_bus::MemoryBus;

verus! {

/// The absolute address of the stack slot that `sp` names: the stack lives in
/// the page `0x0100..=0x01FF`.
pub open spec fn stack_addr(sp: u8) -> u16 {
    (0x100 + sp) as u16
}

/// The high half of a 16-bit word.
pub open spec fn u16_hi(v: u16) -> u8 {
    (v / 0x100) as u8
}

/// The low half of a 16-bit word.
pub open spec fn u16_lo(v: u16) -> u8 {
    (v % 0x100) as u8
}

/// The stack pointer.  It indexes the stack page of the memory bus; pushes
/// write at the slot it names and move it down, wrapping modulo 256 as the
/// 6502 does.
#[derive(Clone, Copy, PartialEq, Eq, Structural, Debug)]
pub struct Stack {
    pub pointer: u8,
}

impl Stack {
    /// A fresh stack, with the pointer at the top of the page.
    pub fn new() -> (r: Stack)
        ensures
            r == (Stack { pointer: 0xFF }),
    {
        Stack { pointer: 0xFF }
    }

    /// Writes `value` at the slot the pointer names, then moves the pointer
    /// down one slot.
    pub fn push(&mut self, mem: &mut MemoryBus, value: u8)
        ensures
            final(mem)@ == old(mem)@.update(stack_addr(old(self).pointer) as int, value),
            final(self).pointer == wrap_sub8(old(self).pointer, 1),
    {
        mem.write_byte(0x100 + self.pointer as u16, value);
        self.pointer = if self.pointer == 0 {
            0xFF
        } else {
            self.pointer - 1
        };
    }

    /// Moves the pointer up one slot and returns the byte stored there.
    pub fn pop(&mut self, mem: &MemoryBus) -> (r: u8)
        ensures
            final(self).pointer == wrap_add8(old(self).pointer, 1),
            r == spec_read_byte(mem@, stack_addr(wrap_add8(old(self).pointer, 1))),
    {
        self.pointer = if self.pointer == 0xFF {
            0
        } else {
            self.pointer + 1
        };
        mem.read_byte(0x100 + self.pointer as u16)
    }

    /// Pushes a word, high byte first, so that popping yields the low byte
    /// and then the high byte.
    pub fn push_u16(&mut self, mem: &mut MemoryBus, value: u16)
        ensures
            final(mem)@ == old(mem)@.update(stack_addr(old(self).pointer) as int, u16_hi(value))
                .update(stack_addr(wrap_sub8(old(self).pointer, 1)) as int, u16_lo(value)),
            final(self).pointer == wrap_sub8(old(self).pointer, 2),
    {
        self.push(mem, (value / 0x100) as u8);
        self.push(mem, (value % 0x100) as u8);
    }

    /// The inverse of `push_u16`: pops the low byte, then the high byte.
    pub fn pop_u16(&mut self, mem: &MemoryBus) -> (r: u16)
        ensures
            final(self).pointer == wrap_add8(old(self).pointer, 2),
            r == spec_read_byte(mem@, stack_addr(wrap_add8(old(self).pointer, 1))) + 0x100
                * spec_read_byte(mem@, stack_addr(wrap_add8(old(self).pointer, 2))),
    {
        let lo = self.pop(mem);
        let hi = self.pop(mem);
        lo as u16 + (hi as u16) * 0x100
    }
}

} // verus!
