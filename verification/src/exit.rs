//! Reasons for which the virtual machine stops running.

use vstd::prelude::*;

verus! {

/// Why the virtual machine left its run loop.
#[derive(Clone, Copy, Debug, PartialEq, Eq, Structural)]
pub enum VmExit {
    /// The machine exited cleanly.
    Exit,
    /// The machine executed a STOP instruction.
    Stop,
    /// The machine executed a HALT instruction.
    Halt,
    /// A memory access fell on an address, or on a value for an address, that
    /// no backing store answers, or left the 16-bit address space.
    OobRead,
    /// The program counter reached an opcode that the core does not implement.
    Unimplemented,
}

} // verus!
