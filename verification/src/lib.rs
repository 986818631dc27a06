//! An emulator core for the Intel 8080 microprocessor.
//!
//! The processor owns a 64 KiB memory, seven byte registers, a program
//! counter, a stack pointer and five condition bits. A caller loads a program
//! image at address zero and then executes it one instruction at a time.
//!
//! Every operation has a contract over [`state::State`], a mathematical
//! picture of the machine, and is proved to meet it.

pub mod cpu;
pub mod error;
pub mod flags;
pub mod instruction;
pub mod laws;
pub mod registers;
pub mod state;

pub use cpu::Intel8080;
pub use error::CpuError;
pub use flags::{is_parity_even, ConditionCodes};
pub use instruction::{
    decode_opcode, IndexPair, Instruction, Operand, Register, RegisterPair, StackPair,
};
pub use registers::Registers;
