use vstd::prelude::*;

verus! {

/// The errors the CPU can report.
#[derive(Clone, Copy, PartialEq, Eq, Structural, Debug)]
pub enum CpuError {
    /// `step` read a byte that no opcode descriptor covers, or one whose
    /// mnemonic the executor does not implement.  Carries the program counter
    /// (still pointing at the failing byte) and the byte itself.
    UnknownOpcode(u16, u8),
    /// `load` was asked to place code that would run past the end of the
    /// address space.  Carries the requested start address.
    CodeSegmentOutOfRange(u16),
}

impl CpuError {
    pub fn unknown_opcode(pc: u16, byte: u8) -> (r: CpuError)
        ensures
            r == CpuError::UnknownOpcode(pc, byte),
    {
        CpuError::UnknownOpcode(pc, byte)
    }

    pub fn code_segment_out_of_range(addr: u16) -> (r: CpuError)
        ensures
            r == CpuError::CodeSegmentOutOfRange(addr),
    {
        CpuError::CodeSegmentOutOfRange(addr)
    }
}

} // verus!
