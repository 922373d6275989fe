use vstd::prelude::*;

verus! {

/// How many bytes the bus holds: the full 16-bit address space.
pub const MEMORY_SIZE: usize = 0x10000;

/// 16-bit addition that wraps around the top of the address space.
pub open spec fn wrap_add16(a: u16, b: u16) -> u16 {
    ((a + b) % 0x10000) as u16
}

/// 8-bit addition modulo 256.
pub open spec fn wrap_add8(a: u8, b: u8) -> u8 {
    ((a + b) % 0x100) as u8
}

/// 8-bit subtraction modulo 256.
pub open spec fn wrap_sub8(a: u8, b: u8) -> u8 {
    ((a + 0x100 - b) % 0x100) as u8
}

/// The byte stored at `addr`.
pub open spec fn spec_read_byte(mem: Seq<u8>, addr: u16) -> u8 {
    mem[addr as int]
}

/// The little-endian word at `addr`: the byte at `addr` is the low half, the
/// byte at `addr + 1` the high half.  Reading at `0xFFFF` wraps the high byte
/// around to `0x0000`, as the 6502 does.
pub open spec fn spec_read_u16(mem: Seq<u8>, addr: u16) -> u16 {
    (spec_read_byte(mem, addr) + 0x100 * spec_read_byte(mem, wrap_add16(addr, 1))) as u16
}

/// A flat, byte-addressable store of exactly 65,536 bytes.
pub struct MemoryBus {
    bytes: Vec<u8>,
}

impl View for MemoryBus {
    type V = Seq<u8>;

    closed spec fn view(&self) -> Seq<u8> {
        self.bytes@
    }
}

impl MemoryBus {
    #[verifier::type_invariant]
    spec fn wf(self) -> bool {
        self.bytes@.len() == MEMORY_SIZE
    }

    /// A zero-initialised bus.
    pub fn new() -> (r: MemoryBus)
        ensures
            r@.len() == MEMORY_SIZE,
            forall|i: int| 0 <= i < MEMORY_SIZE ==> r@[i] == 0u8,
    {
        let mut bytes: Vec<u8> = Vec::new();
        while bytes.len() < MEMORY_SIZE
            invariant
                bytes@.len() <= MEMORY_SIZE,
                forall|i: int| 0 <= i < bytes@.len() ==> bytes@[i] == 0u8,
            decreases MEMORY_SIZE - bytes@.len(),
        {
            bytes.push(0);
        }
        MemoryBus { bytes }
    }

    /// The number of addressable bytes.  Every bus covers the whole address
    /// space, so this also tells callers how long the view is.
    pub fn len(&self) -> (r: usize)
        ensures
            r == MEMORY_SIZE,
            self@.len() == MEMORY_SIZE,
    {
        proof {
            use_type_invariant(self);
        }
        self.bytes.len()
    }

    /// Returns the byte at `addr`.
    pub fn read_byte(&self, addr: u16) -> (r: u8)
        ensures
            r == spec_read_byte(self@, addr),
    {
        proof {
            use_type_invariant(self);
        }
        self.bytes[addr as usize]
    }

    /// Stores `value` at `addr`.
    pub fn write_byte(&mut self, addr: u16, value: u8)
        ensures
            final(self)@ == old(self)@.update(addr as int, value),
    {
        proof {
            use_type_invariant(&*self);
        }
        self.bytes[addr as usize] = value;
    }

    /// Returns the little-endian word at `addr`; the high byte read wraps to
    /// `0x0000` when `addr` is `0xFFFF`.
    pub fn read_u16(&self, addr: u16) -> (r: u16)
        ensures
            r == spec_read_u16(self@, addr),
    {
        let lo = self.read_byte(addr);
        let hi = self.read_byte(if addr == 0xFFFF { 0 } else { addr + 1 });
        lo as u16 + (hi as u16) * 0x100
    }
}

/// A byte written is the byte read back: reading `addr` right after writing
/// `value` there yields `value`, for every address and value.
pub proof fn lemma_write_then_read_byte(mem: Seq<u8>, addr: u16, value: u8)
    requires
        mem.len() == MEMORY_SIZE,
    ensures
        spec_read_byte(mem.update(addr as int, value), addr) == value,
{
}

/// Writing a low byte at `addr` and a high byte at `addr + 1` and reading the
/// word back yields `lo | hi << 8`, for every `addr <= 0xFFFE`.
pub proof fn lemma_write_pair_then_read_u16(mem: Seq<u8>, addr: u16, lo: u8, hi: u8)
    requires
        mem.len() == MEMORY_SIZE,
        addr <= 0xFFFE,
    ensures
        spec_read_u16(mem.update(addr as int, lo).update(addr as int + 1, hi), addr) == lo + 0x100
            * hi,
{
}

} // verus!
