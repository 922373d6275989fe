//! A MOS 6502 microprocessor core: memory bus, register file, status flags,
//! stack, opcode table, addressing-mode resolution and instruction execution,
//! together with the semantic pass of a 6502 assembler.

pub mod cpu;
pub mod errors;
pub mod flags;
pub mod memory_bus;
pub mod opcodes;
pub mod parser;
pub mod registers;
pub mod semantics;
pub mod stack;
pub mod token;

pub use cpu::Cpu;
pub use errors::CpuError;
pub use parser::Parser;
pub use parser::ParserError;
pub use semantics::Operand;
