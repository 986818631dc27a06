//! The ways in which an operation of the processor can fail.

use vstd::prelude::*;

verus! {

/// Why the processor refused an operation. A refused operation leaves the
/// machine as it was.
#[derive(Clone, Copy, Debug, PartialEq, Eq, Structural)]
pub enum CpuError {
    /// The byte dispatched as an opcode has no defined operation.
    UnimplementedOpcode(u8),
    /// An address would leave the 64 KiB address space, or a program image
    /// is larger than memory.
    OutOfBounds,
}

} // verus!
