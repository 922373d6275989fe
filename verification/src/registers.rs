use vstd::prelude::*;

verus! {

/// The 6502 register file: accumulator, the two index registers, and the
/// program counter.  The stack pointer lives with the stack (`crate::stack`).
#[derive(Clone, Copy, PartialEq, Eq, Structural, Debug)]
pub struct Registers {
    pub a: u8,
    pub x: u8,
    pub y: u8,
    pub pc: u16,
}

impl Registers {
    /// The initial register file: every register zero; the program counter is
    /// meaningless until code is loaded.
    pub fn new() -> (r: Registers)
        ensures
            r == (Registers { a: 0, x: 0, y: 0, pc: 0 }),
    {
        Registers { a: 0, x: 0, y: 0, pc: 0 }
    }
}

} // verus!
