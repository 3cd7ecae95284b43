//! Errors of the bounds-checked decoding path.

use vstd::prelude::*;

verus! {

/// An error that may occur while decoding a byte stream.
///
/// Every variant carries the position of the byte (or word) at which the
/// offence was found; the decoder's cursor is left at that position.
#[derive(Clone, Copy, Debug, PartialEq, Eq, Structural)]
pub enum DecodeError {
    /// The byte stream ran out of bytes; `pos` is the length of the
    /// stream, the point at which it was cut short.
    EndOfStream {
        /// The position within the byte stream when the error occurred.
        pos: usize,
    },
    /// An opcode word lay outside the closed set of valid opcodes.
    InvalidOpCode {
        /// The position within the byte stream when the error occurred.
        pos: usize,
        /// The invalid opcode word.
        value: u16,
    },
    /// A trap-code byte matched no trap code.
    InvalidTrapCode {
        /// The position within the byte stream when the error occurred.
        pos: usize,
        /// The invalid byte value.
        value: u8,
    },
    /// A boolean byte held something other than 0 or 1.
    InvalidBool {
        /// The position within the byte stream when the error occurred.
        pos: usize,
        /// The invalid byte value.
        value: u8,
    },
    /// A sign byte held something other than 0 or 1.
    InvalidSign {
        /// The position within the byte stream when the error occurred.
        pos: usize,
        /// The invalid byte value.
        value: u8,
    },
    /// A non-zero integer field held zero.
    InvalidNonZeroValue {
        /// The position within the byte stream when the error occurred.
        pos: usize,
    },
}

impl DecodeError {
    /// A short description of the error kind; the offending position and
    /// value are available from the variant's fields.
    pub fn message(&self) -> (r: &'static str)
        ensures
            self matches DecodeError::EndOfStream { .. } ==> r@ == "unexpected end of stream"@,
            self matches DecodeError::InvalidOpCode { .. } ==> r@ == "invalid op-code"@,
            self matches DecodeError::InvalidTrapCode { .. } ==> r@ == "invalid trap code"@,
            self matches DecodeError::InvalidBool { .. } ==> r@ == "invalid bool value"@,
            self matches DecodeError::InvalidSign { .. } ==> r@ == "invalid sign value"@,
            self matches DecodeError::InvalidNonZeroValue { .. } ==> r@ == "invalid non-zero value"@,
    {
        let r: &'static str = match self {
            DecodeError::EndOfStream { .. } => "unexpected end of stream",
            DecodeError::InvalidOpCode { .. } => "invalid op-code",
            DecodeError::InvalidTrapCode { .. } => "invalid trap code",
            DecodeError::InvalidBool { .. } => "invalid bool value",
            DecodeError::InvalidSign { .. } => "invalid sign value",
            DecodeError::InvalidNonZeroValue { .. } => "invalid non-zero value",
        };
        proof {
            reveal_strlit("unexpected end of stream");
            reveal_strlit("invalid op-code");
            reveal_strlit("invalid trap code");
            reveal_strlit("invalid bool value");
            reveal_strlit("invalid sign value");
            reveal_strlit("invalid non-zero value");
        }
        r
    }
}

} // verus!
