//! The two ways a decode step can fail.

use vstd::prelude::*;

verus! {

/// Why a read or a decode step could not produce an instruction.
#[derive(Debug, Clone, Copy, PartialEq, Eq, Structural)]
pub enum DecodeError {
    /// A format needed more bytes than remained in the stream.
    UnexpectedEndOfStream,
    /// The opcode byte matched no known instruction.
    UnrecognizedOpcode,
}

} // verus!
