//! The typed failure conditions a handler can return.

use vstd::prelude::*;

verus! {

/// A failure condition surfaced to the host. Every fallible step of a handler
/// aborts immediately with one of these; the host discards all writes made so
/// far in the instruction.
#[derive(Clone, Copy, PartialEq, Eq, Structural, Debug)]
pub enum MarketError {
    /// The opcode is outside the known set, or the instruction buffer is
    /// shorter than the opcode's fixed layout.
    InvalidInstructionData,
    /// The instruction was handed fewer accounts than its handler reads.
    NotEnoughAccountKeys,
    /// The supplied asset sub-program account is not the asset sub-program.
    IncorrectProgramId,
}

} // verus!
