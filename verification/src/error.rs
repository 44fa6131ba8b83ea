//! Errors of decoding and encoding machine code.
use vstd::prelude::*;

verus! {

/// Why bytes could not be decoded into an instruction.
#[derive(Copy, Clone, Debug, PartialEq, Eq, Structural)]
pub enum DecodeError {
    /// Fewer bytes than one instruction occupies.
    Truncated,
    /// The word is not a valid RV32I base instruction.
    Invalid,
}

/// Why an instruction could not be encoded.
#[derive(Copy, Clone, Debug, PartialEq, Eq, Structural)]
pub enum EncodeError {
    /// An operand (an immediate or offset) has no encoding.
    InvalidOperands,
    /// The output buffer cannot hold the encoded instruction.
    BufferTooSmall,
}

} // verus!
