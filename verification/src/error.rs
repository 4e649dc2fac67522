//! What stops a run.

use vstd::prelude::*;

verus! {

/// The two conditions that are fatal to a run. Neither is ever recovered from: the
/// instruction that meets one hands the error to its caller. An instruction of the
/// first table that fails has changed nothing. One of the second table has by then
/// moved the program counter on by one, to its own opcode, and changed nothing else.
#[derive(Debug, Copy, Clone, PartialEq, Eq, Structural)]
pub enum Error {
    /// The byte names no instruction of the processor. It is carried along for
    /// diagnostics.
    UnmappedOpcode(u8),
    /// The instruction exists, but what it does is not written yet.
    Unimplemented,
}

} // verus!
