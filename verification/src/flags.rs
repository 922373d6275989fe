use vstd::prelude::*;

verus! {

/// The seven status flags of the 6502, kept as individual booleans.
///
/// The packed byte layout is `N V 1 B D I Z C` (bit 7 down to bit 0); bit 5 is
/// unused and reads as one.
#[derive(Clone, Copy, PartialEq, Eq, Structural, Debug)]
pub struct StatusFlags {
    pub carry: bool,
    pub zero: bool,
    pub interrupt_disabled: bool,
    pub decimal: bool,
    pub break_flag: bool,
    pub overflow: bool,
    pub sign: bool,
}

/// The flag byte in the layout `N V 1 B D I Z C`, bit 5 always one.
pub open spec fn spec_pack(f: StatusFlags) -> u8 {
    ((if f.carry { 0x01int } else { 0int }) + (if f.zero { 0x02int } else { 0int }) + (
    if f.interrupt_disabled {
        0x04int
    } else {
        0int
    }) + (if f.decimal { 0x08int } else { 0int }) + (if f.break_flag { 0x10int } else { 0int })
        + 0x20int + (if f.overflow { 0x40int } else { 0int }) + (if f.sign {
        0x80int
    } else {
        0int
    })) as u8
}

/// The flag state encoded by a packed byte; the unused bit 5 is ignored.
pub open spec fn spec_unpack(b: u8) -> StatusFlags {
    StatusFlags {
        carry: b % 2 == 1,
        zero: (b / 2) % 2 == 1,
        interrupt_disabled: (b / 4) % 2 == 1,
        decimal: (b / 8) % 2 == 1,
        break_flag: (b / 16) % 2 == 1,
        overflow: (b / 64) % 2 == 1,
        sign: (b / 128) % 2 == 1,
    }
}

/// The power-on flag state: every flag clear.
pub open spec fn spec_initial_flags() -> StatusFlags {
    StatusFlags {
        carry: false,
        zero: false,
        interrupt_disabled: false,
        decimal: false,
        break_flag: false,
        overflow: false,
        sign: false,
    }
}

impl StatusFlags {
    /// The initial state: every flag clear.
    pub fn new() -> (r: StatusFlags)
        ensures
            r == spec_initial_flags(),
    {
        StatusFlags {
            carry: false,
            zero: false,
            interrupt_disabled: false,
            decimal: false,
            break_flag: false,
            overflow: false,
            sign: false,
        }
    }

    /// Packs the flags into one byte.
    pub fn to_u8(&self) -> (r: u8)
        ensures
            r == spec_pack(*self),
    {
        let mut r: u8 = 0x20;
        if self.carry {
            r = r + 0x01;
        }
        if self.zero {
            r = r + 0x02;
        }
        if self.interrupt_disabled {
            r = r + 0x04;
        }
        if self.decimal {
            r = r + 0x08;
        }
        if self.break_flag {
            r = r + 0x10;
        }
        if self.overflow {
            r = r + 0x40;
        }
        if self.sign {
            r = r + 0x80;
        }
        r
    }

    /// Unpacks a byte into a flag state.
    pub fn from_u8(b: u8) -> (r: StatusFlags)
        ensures
            r == spec_unpack(b),
    {
        StatusFlags {
            carry: b % 2 == 1,
            zero: (b / 2) % 2 == 1,
            interrupt_disabled: (b / 4) % 2 == 1,
            decimal: (b / 8) % 2 == 1,
            break_flag: (b / 16) % 2 == 1,
            overflow: (b / 64) % 2 == 1,
            sign: (b / 128) % 2 == 1,
        }
    }
}

/// Packing a flag state and unpacking the byte again returns every flag
/// state unchanged.
pub proof fn lemma_unpack_pack(f: StatusFlags)
    ensures
        spec_unpack(spec_pack(f)) == f,
{
}

} // verus!
