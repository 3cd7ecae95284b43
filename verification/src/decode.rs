//! The two byte-stream decoders. The safe decoder bounds-checks every
//! read and reports structured errors; the unchecked decoder performs no
//! runtime checks at all, its error branches being proved unreachable by
//! the contracts its callers must discharge. Both are specified against
//! the same decoding functions, so on a well-formed stream they must
//! produce identical results.

use crate::codec::{
    dec_any_const16, dec_any_const32, dec_bool, dec_branch_table_target, dec_const16, dec_i128,
    dec_i16, dec_i32, dec_i64, dec_i8, dec_memory, dec_non_zero_u16, dec_op, dec_op_code, dec_reg,
    dec_reg_span, dec_sign, dec_trap_code, dec_u128, dec_u16, dec_u32, dec_u64, dec_u8, Decoded,
};
use crate::error::DecodeError;
use crate::op::{Op, OpCode, OpV, Slice};
use crate::prim::{
    trap_code_from_u8, u16_to_i16, u32_to_i32, u64_to_i64, u8_to_i8, u128_to_i128, AnyConst16,
    AnyConst32, BranchTableTarget, Const16, Memory, NonZeroU16, Reg, RegSpan, Sign, TrapCode,
};
use crate::wire::{read_le128, read_le16, read_le32, read_le64};
use vstd::prelude::*;
use vstd::slice::{slice_index_get, slice_subrange};

verus! {

/// A safe, bounds-checked decoder: a borrowed byte stream and a cursor.
#[derive(Debug, Clone, Copy)]
pub struct SafeDecoder<'op> {
    /// The bytes underlying the decoder.
    bytes: &'op [u8],
    /// The current position within `bytes`.
    pos: usize,
}

impl<'op> SafeDecoder<'op> {
    /// The byte stream the decoder reads.
    pub closed spec fn stream(self) -> Seq<u8> {
        self.bytes@
    }

    /// The current cursor position.
    pub closed spec fn position(self) -> int {
        self.pos as int
    }

    /// The cursor never lies past the end of the stream.
    pub closed spec fn wf(self) -> bool {
        self.pos <= self.bytes@.len()
    }

    /// Creates a decoder over `bytes` with the cursor at the start.
    pub fn new(bytes: &'op [u8]) -> (r: Self)
        ensures
            r.wf(),
            r.stream() == bytes@,
            r.position() == 0,
    {
        Self { bytes, pos: 0 }
    }

    /// Returns the current cursor position.
    pub fn pos(&self) -> (r: usize)
        ensures
            r as int == self.position(),
    {
        self.pos
    }

    /// Returns the length of the underlying byte stream.
    pub fn stream_len(&self) -> (r: usize)
        ensures
            r as int == self.stream().len(),
    {
        self.bytes.len()
    }

    /// The error for a zero in a non-zero field at the cursor.
    pub fn invalid_non_zero_value(&self) -> (r: DecodeError)
        ensures
            r == (DecodeError::InvalidNonZeroValue { pos: self.position() as usize }),
    {
        DecodeError::InvalidNonZeroValue { pos: self.pos }
    }

    /// The error for an invalid boolean byte at the cursor.
    pub fn invalid_bool(&self, value: u8) -> (r: DecodeError)
        ensures
            r == (DecodeError::InvalidBool { pos: self.position() as usize, value }),
    {
        DecodeError::InvalidBool { pos: self.pos, value }
    }

    /// The error for an invalid sign byte at the cursor.
    pub fn invalid_sign(&self, value: u8) -> (r: DecodeError)
        ensures
            r == (DecodeError::InvalidSign { pos: self.position() as usize, value }),
    {
        DecodeError::InvalidSign { pos: self.pos, value }
    }

    /// The error for an invalid opcode word at the cursor.
    pub fn invalid_op_code(&self, value: u16) -> (r: DecodeError)
        ensures
            r == (DecodeError::InvalidOpCode { pos: self.position() as usize, value }),
    {
        DecodeError::InvalidOpCode { pos: self.pos, value }
    }

    /// The error for an invalid trap-code byte at the cursor.
    pub fn invalid_trap_code(&self, value: u8) -> (r: DecodeError)
        ensures
            r == (DecodeError::InvalidTrapCode { pos: self.position() as usize, value }),
    {
        DecodeError::InvalidTrapCode { pos: self.pos, value }
    }

    /// Reads a borrowed run of `n` bytes, or fails with the end-of-stream
    /// error when fewer than `n` bytes remain.
    pub fn read_slice(&mut self, n: usize) -> (r: Result<&'op [u8], DecodeError>)
        requires
            old(self).wf(),
        ensures
            final(self).wf(),
            final(self).stream() == old(self).stream(),
            old(self).position() + n <= old(self).stream().len() ==> {
                &&& r matches Ok(chunk) && chunk@ == old(self).stream().subrange(
                    old(self).position(),
                    old(self).position() + n,
                )
                &&& final(self).position() == old(self).position() + n
            },
            old(self).position() + n > old(self).stream().len() ==> {
                &&& r == Err::<&'op [u8], DecodeError>(
                    DecodeError::EndOfStream { pos: old(self).stream().len() as usize },
                )
                &&& final(self).position() == old(self).position()
            },
    {
        let len: usize = self.bytes.len();
        if len - self.pos >= n {
            let chunk: &'op [u8] = slice_subrange(self.bytes, self.pos, self.pos + n);
            self.pos = self.pos + n;
            Ok(chunk)
        } else {
            Err(DecodeError::EndOfStream { pos: len })
        }
    }

    /// Reads `N` bytes as a fixed-size array, or fails with the
    /// end-of-stream error when fewer than `N` bytes remain.
    pub fn read<const N: usize>(&mut self) -> (r: Result<[u8; N], DecodeError>)
        requires
            old(self).wf(),
        ensures
            final(self).wf(),
            final(self).stream() == old(self).stream(),
            old(self).position() + N <= old(self).stream().len() ==> {
                &&& r matches Ok(chunk) && chunk@ == old(self).stream().subrange(
                    old(self).position(),
                    old(self).position() + N,
                )
                &&& final(self).position() == old(self).position() + N
            },
            old(self).position() + N > old(self).stream().len() ==> {
                &&& r == Err::<[u8; N], DecodeError>(
                    DecodeError::EndOfStream { pos: old(self).stream().len() as usize },
                )
                &&& final(self).position() == old(self).position()
            },
    {
        let len: usize = self.bytes.len();
        if len - self.pos >= N {
            let mut chunk: [u8; N] = [0; N];
            let mut i: usize = 0;
            while i < N
                invariant
                    0 <= i <= N,
                    self.pos + N <= self.bytes@.len(),
                    self.pos + N <= usize::MAX,
                    chunk@.len() == N,
                    forall|j: int| 0 <= j < i ==> chunk@[j] == self.bytes@[self.pos + j],
                decreases N - i,
            {
                let b: u8 = *slice_index_get(self.bytes, self.pos + i);
                chunk[i] = b;
                i = i + 1;
            }
            proof {
                assert(chunk@ =~= self.stream().subrange(
                    self.position(),
                    self.position() + N as int,
                ));
            }
            self.pos = self.pos + N;
            Ok(chunk)
        } else {
            Err(DecodeError::EndOfStream { pos: len })
        }
    }

    /// Reads one byte.
    pub fn read_u8(&mut self) -> (r: Result<u8, DecodeError>)
        requires
            old(self).wf(),
        ensures
            final(self).wf(),
            final(self).stream() == old(self).stream(),
            match dec_u8(old(self).stream(), old(self).position()) {
                Decoded::Found { value, next } => r == Ok::<u8, DecodeError>(value) && final(self).position() == next,
                Decoded::Failed { err } => r == Err::<u8, DecodeError>(err) && final(self).position() == old(self).position(),
            },
    {
        let len: usize = self.bytes.len();
        if len - self.pos >= 1 {
            let b: u8 = *slice_index_get(self.bytes, self.pos);
            self.pos = self.pos + 1;
            Ok(b)
        } else {
            Err(DecodeError::EndOfStream { pos: len })
        }
    }

    /// Reads a 16-bit word.
    pub fn read_u16(&mut self) -> (r: Result<u16, DecodeError>)
        requires
            old(self).wf(),
        ensures
            final(self).wf(),
            final(self).stream() == old(self).stream(),
            match dec_u16(old(self).stream(), old(self).position()) {
                Decoded::Found { value, next } => r == Ok::<u16, DecodeError>(value) && final(self).position() == next,
                Decoded::Failed { err } => r == Err::<u16, DecodeError>(err) && final(self).position() == old(self).position(),
            },
    {
        let len: usize = self.bytes.len();
        if len - self.pos >= 2 {
            let v: u16 = read_le16(self.bytes, self.pos);
            self.pos = self.pos + 2;
            Ok(v)
        } else {
            Err(DecodeError::EndOfStream { pos: len })
        }
    }

    /// Reads a 32-bit word.
    pub fn read_u32(&mut self) -> (r: Result<u32, DecodeError>)
        requires
            old(self).wf(),
        ensures
            final(self).wf(),
            final(self).stream() == old(self).stream(),
            match dec_u32(old(self).stream(), old(self).position()) {
                Decoded::Found { value, next } => r == Ok::<u32, DecodeError>(value) && final(self).position() == next,
                Decoded::Failed { err } => r == Err::<u32, DecodeError>(err) && final(self).position() == old(self).position(),
            },
    {
        let len: usize = self.bytes.len();
        if len - self.pos >= 4 {
            let v: u32 = read_le32(self.bytes, self.pos);
            self.pos = self.pos + 4;
            Ok(v)
        } else {
            Err(DecodeError::EndOfStream { pos: len })
        }
    }

    /// Reads a 64-bit word.
    pub fn read_u64(&mut self) -> (r: Result<u64, DecodeError>)
        requires
            old(self).wf(),
        ensures
            final(self).wf(),
            final(self).stream() == old(self).stream(),
            match dec_u64(old(self).stream(), old(self).position()) {
                Decoded::Found { value, next } => r == Ok::<u64, DecodeError>(value) && final(self).position() == next,
                Decoded::Failed { err } => r == Err::<u64, DecodeError>(err) && final(self).position() == old(self).position(),
            },
    {
        let len: usize = self.bytes.len();
        if len - self.pos >= 8 {
            let v: u64 = read_le64(self.bytes, self.pos);
            self.pos = self.pos + 8;
            Ok(v)
        } else {
            Err(DecodeError::EndOfStream { pos: len })
        }
    }

    /// Reads a 128-bit word.
    pub fn read_u128(&mut self) -> (r: Result<u128, DecodeError>)
        requires
            old(self).wf(),
        ensures
            final(self).wf(),
            final(self).stream() == old(self).stream(),
            match dec_u128(old(self).stream(), old(self).position()) {
                Decoded::Found { value, next } => r == Ok::<u128, DecodeError>(value) && final(self).position() == next,
                Decoded::Failed { err } => r == Err::<u128, DecodeError>(err) && final(self).position() == old(self).position(),
            },
    {
        let len: usize = self.bytes.len();
        if len - self.pos >= 16 {
            let v: u128 = read_le128(self.bytes, self.pos);
            self.pos = self.pos + 16;
            Ok(v)
        } else {
            Err(DecodeError::EndOfStream { pos: len })
        }
    }

    /// Reads a signed byte.
    pub fn read_i8(&mut self) -> (r: Result<i8, DecodeError>)
        requires
            old(self).wf(),
        ensures
            final(self).wf(),
            final(self).stream() == old(self).stream(),
            match dec_i8(old(self).stream(), old(self).position()) {
                Decoded::Found { value, next } => r == Ok::<i8, DecodeError>(value) && final(self).position() == next,
                Decoded::Failed { err } => r == Err::<i8, DecodeError>(err) && final(self).position() == old(self).position(),
            },
    {
        match self.read_u8() {
            Ok(v) => Ok(u8_to_i8(v)),
            Err(e) => Err(e),
        }
    }

    /// Reads a signed 16-bit value.
    pub fn read_i16(&mut self) -> (r: Result<i16, DecodeError>)
        requires
            old(self).wf(),
        ensures
            final(self).wf(),
            final(self).stream() == old(self).stream(),
            match dec_i16(old(self).stream(), old(self).position()) {
                Decoded::Found { value, next } => r == Ok::<i16, DecodeError>(value) && final(self).position() == next,
                Decoded::Failed { err } => r == Err::<i16, DecodeError>(err) && final(self).position() == old(self).position(),
            },
    {
        match self.read_u16() {
            Ok(v) => Ok(u16_to_i16(v)),
            Err(e) => Err(e),
        }
    }

    /// Reads a signed 32-bit value.
    pub fn read_i32(&mut self) -> (r: Result<i32, DecodeError>)
        requires
            old(self).wf(),
        ensures
            final(self).wf(),
            final(self).stream() == old(self).stream(),
            match dec_i32(old(self).stream(), old(self).position()) {
                Decoded::Found { value, next } => r == Ok::<i32, DecodeError>(value) && final(self).position() == next,
                Decoded::Failed { err } => r == Err::<i32, DecodeError>(err) && final(self).position() == old(self).position(),
            },
    {
        match self.read_u32() {
            Ok(v) => Ok(u32_to_i32(v)),
            Err(e) => Err(e),
        }
    }

    /// Reads a signed 64-bit value.
    pub fn read_i64(&mut self) -> (r: Result<i64, DecodeError>)
        requires
            old(self).wf(),
        ensures
            final(self).wf(),
            final(self).stream() == old(self).stream(),
            match dec_i64(old(self).stream(), old(self).position()) {
                Decoded::Found { value, next } => r == Ok::<i64, DecodeError>(value) && final(self).position() == next,
                Decoded::Failed { err } => r == Err::<i64, DecodeError>(err) && final(self).position() == old(self).position(),
            },
    {
        match self.read_u64() {
            Ok(v) => Ok(u64_to_i64(v)),
            Err(e) => Err(e),
        }
    }

    /// Reads a signed 128-bit value.
    pub fn read_i128(&mut self) -> (r: Result<i128, DecodeError>)
        requires
            old(self).wf(),
        ensures
            final(self).wf(),
            final(self).stream() == old(self).stream(),
            match dec_i128(old(self).stream(), old(self).position()) {
                Decoded::Found { value, next } => r == Ok::<i128, DecodeError>(value) && final(self).position() == next,
                Decoded::Failed { err } => r == Err::<i128, DecodeError>(err) && final(self).position() == old(self).position(),
            },
    {
        match self.read_u128() {
            Ok(v) => Ok(u128_to_i128(v)),
            Err(e) => Err(e),
        }
    }

    /// Reads a boolean byte, rejecting anything but 0 and 1; on
    /// rejection the cursor stays at the offending byte.
    pub fn read_bool(&mut self) -> (r: Result<bool, DecodeError>)
        requires
            old(self).wf(),
        ensures
            final(self).wf(),
            final(self).stream() == old(self).stream(),
            match dec_bool(old(self).stream(), old(self).position()) {
                Decoded::Found { value, next } => r == Ok::<bool, DecodeError>(value) && final(self).position() == next,
                Decoded::Failed { err } => r == Err::<bool, DecodeError>(err) && final(self).position() == old(self).position(),
            },
    {
        let len: usize = self.bytes.len();
        if len - self.pos >= 1 {
            let b: u8 = *slice_index_get(self.bytes, self.pos);
            if b == 0 {
                self.pos = self.pos + 1;
                Ok(false)
            } else if b == 1 {
                self.pos = self.pos + 1;
                Ok(true)
            } else {
                Err(self.invalid_bool(b))
            }
        } else {
            Err(DecodeError::EndOfStream { pos: len })
        }
    }

    /// Reads a sign byte, rejecting anything but 0 and 1.
    pub fn read_sign(&mut self) -> (r: Result<Sign, DecodeError>)
        requires
            old(self).wf(),
        ensures
            final(self).wf(),
            final(self).stream() == old(self).stream(),
            match dec_sign(old(self).stream(), old(self).position()) {
                Decoded::Found { value, next } => r == Ok::<Sign, DecodeError>(value) && final(self).position() == next,
                Decoded::Failed { err } => r == Err::<Sign, DecodeError>(err) && final(self).position() == old(self).position(),
            },
    {
        let len: usize = self.bytes.len();
        if len - self.pos >= 1 {
            let b: u8 = *slice_index_get(self.bytes, self.pos);
            if b == 0 {
                self.pos = self.pos + 1;
                Ok(Sign::Pos)
            } else if b == 1 {
                self.pos = self.pos + 1;
                Ok(Sign::Neg)
            } else {
                Err(self.invalid_sign(b))
            }
        } else {
            Err(DecodeError::EndOfStream { pos: len })
        }
    }

    /// Reads a trap-code byte by exhaustive table match, rejecting
    /// unknown tags.
    pub fn read_trap_code(&mut self) -> (r: Result<TrapCode, DecodeError>)
        requires
            old(self).wf(),
        ensures
            final(self).wf(),
            final(self).stream() == old(self).stream(),
            match dec_trap_code(old(self).stream(), old(self).position()) {
                Decoded::Found { value, next } => r == Ok::<TrapCode, DecodeError>(value) && final(self).position() == next,
                Decoded::Failed { err } => r == Err::<TrapCode, DecodeError>(err) && final(self).position() == old(self).position(),
            },
    {
        let len: usize = self.bytes.len();
        if len - self.pos >= 1 {
            let b: u8 = *slice_index_get(self.bytes, self.pos);
            match trap_code_from_u8(b) {
                Some(t) => {
                    self.pos = self.pos + 1;
                    Ok(t)
                },
                None => Err(self.invalid_trap_code(b)),
            }
        } else {
            Err(DecodeError::EndOfStream { pos: len })
        }
    }

    /// Reads a 16-bit non-zero field, rejecting zero.
    pub fn read_non_zero_u16(&mut self) -> (r: Result<NonZeroU16, DecodeError>)
        requires
            old(self).wf(),
        ensures
            final(self).wf(),
            final(self).stream() == old(self).stream(),
            match dec_non_zero_u16(old(self).stream(), old(self).position()) {
                Decoded::Found { value, next } => r == Ok::<NonZeroU16, DecodeError>(value)
                    && final(self).position() == next,
                Decoded::Failed { err } => r == Err::<NonZeroU16, DecodeError>(err) && final(self).position() == old(self).position(),
            },
            r matches Ok(v) ==> v.wf(),
    {
        let len: usize = self.bytes.len();
        if len - self.pos >= 2 {
            let v: u16 = read_le16(self.bytes, self.pos);
            if v == 0 {
                Err(self.invalid_non_zero_value())
            } else {
                self.pos = self.pos + 2;
                Ok(NonZeroU16 { value: v })
            }
        } else {
            Err(DecodeError::EndOfStream { pos: len })
        }
    }

    /// Reads a register.
    pub fn read_reg(&mut self) -> (r: Result<Reg, DecodeError>)
        requires
            old(self).wf(),
        ensures
            final(self).wf(),
            final(self).stream() == old(self).stream(),
            match dec_reg(old(self).stream(), old(self).position()) {
                Decoded::Found { value, next } => r == Ok::<Reg, DecodeError>(value) && final(self).position() == next,
                Decoded::Failed { err } => r == Err::<Reg, DecodeError>(err) && final(self).position() == old(self).position(),
            },
    {
        match self.read_i16() {
            Ok(index) => Ok(Reg { index }),
            Err(e) => Err(e),
        }
    }

    /// Reads a register span: its head register.
    pub fn read_reg_span(&mut self) -> (r: Result<RegSpan, DecodeError>)
        requires
            old(self).wf(),
        ensures
            final(self).wf(),
            final(self).stream() == old(self).stream(),
            match dec_reg_span(old(self).stream(), old(self).position()) {
                Decoded::Found { value, next } => r == Ok::<RegSpan, DecodeError>(value) && final(self).position() == next,
                Decoded::Failed { err } => r == Err::<RegSpan, DecodeError>(err) && final(self).position() == old(self).position(),
            },
    {
        match self.read_reg() {
            Ok(head) => Ok(RegSpan { head }),
            Err(e) => Err(e),
        }
    }

    /// Reads a branch-table target.
    pub fn read_branch_table_target(&mut self) -> (r: Result<BranchTableTarget, DecodeError>)
        requires
            old(self).wf(),
        ensures
            final(self).wf(),
            final(self).stream() == old(self).stream(),
            match dec_branch_table_target(old(self).stream(), old(self).position()) {
                Decoded::Found { value, next } => r == Ok::<BranchTableTarget, DecodeError>(value)
                    && final(self).position() == next,
                Decoded::Failed { err } => r == Err::<BranchTableTarget, DecodeError>(err)
                    && final(self).position() == old(self).position(),
            },
    {
        match self.read_i32() {
            Ok(value) => Ok(BranchTableTarget { value }),
            Err(e) => Err(e),
        }
    }

    /// Reads a compact 16-bit immediate.
    pub fn read_const16(&mut self) -> (r: Result<Const16, DecodeError>)
        requires
            old(self).wf(),
        ensures
            final(self).wf(),
            final(self).stream() == old(self).stream(),
            match dec_const16(old(self).stream(), old(self).position()) {
                Decoded::Found { value, next } => r == Ok::<Const16, DecodeError>(value) && final(self).position() == next,
                Decoded::Failed { err } => r == Err::<Const16, DecodeError>(err) && final(self).position() == old(self).position(),
            },
    {
        match self.read_i16() {
            Ok(value) => Ok(Const16 { value }),
            Err(e) => Err(e),
        }
    }

    /// Reads a 16-bit immediate of any interpretation.
    pub fn read_any_const16(&mut self) -> (r: Result<AnyConst16, DecodeError>)
        requires
            old(self).wf(),
        ensures
            final(self).wf(),
            final(self).stream() == old(self).stream(),
            match dec_any_const16(old(self).stream(), old(self).position()) {
                Decoded::Found { value, next } => r == Ok::<AnyConst16, DecodeError>(value)
                    && final(self).position() == next,
                Decoded::Failed { err } => r == Err::<AnyConst16, DecodeError>(err) && final(self).position() == old(self).position(),
            },
    {
        match self.read_i16() {
            Ok(value) => Ok(AnyConst16 { value }),
            Err(e) => Err(e),
        }
    }

    /// Reads a 32-bit immediate of any interpretation.
    pub fn read_any_const32(&mut self) -> (r: Result<AnyConst32, DecodeError>)
        requires
            old(self).wf(),
        ensures
            final(self).wf(),
            final(self).stream() == old(self).stream(),
            match dec_any_const32(old(self).stream(), old(self).position()) {
                Decoded::Found { value, next } => r == Ok::<AnyConst32, DecodeError>(value)
                    && final(self).position() == next,
                Decoded::Failed { err } => r == Err::<AnyConst32, DecodeError>(err) && final(self).position() == old(self).position(),
            },
    {
        match self.read_u32() {
            Ok(bits) => Ok(AnyConst32 { bits }),
            Err(e) => Err(e),
        }
    }

    /// Reads a linear-memory index.
    pub fn read_memory(&mut self) -> (r: Result<Memory, DecodeError>)
        requires
            old(self).wf(),
        ensures
            final(self).wf(),
            final(self).stream() == old(self).stream(),
            match dec_memory(old(self).stream(), old(self).position()) {
                Decoded::Found { value, next } => r == Ok::<Memory, DecodeError>(value) && final(self).position() == next,
                Decoded::Failed { err } => r == Err::<Memory, DecodeError>(err) && final(self).position() == old(self).position(),
            },
    {
        match self.read_u16() {
            Ok(index) => Ok(Memory { index }),
            Err(e) => Err(e),
        }
    }

    /// Reads an opcode word, rejecting any word above `MAX_OP`; on
    /// rejection the cursor stays at the start of the word.
    pub fn read_op_code(&mut self) -> (r: Result<OpCode, DecodeError>)
        requires
            old(self).wf(),
        ensures
            final(self).wf(),
            final(self).stream() == old(self).stream(),
            match dec_op_code(old(self).stream(), old(self).position()) {
                Decoded::Found { value, next } => r == Ok::<OpCode, DecodeError>(value) && final(self).position() == next,
                Decoded::Failed { err } => r == Err::<OpCode, DecodeError>(err) && final(self).position() == old(self).position(),
            },
    {
        let len: usize = self.bytes.len();
        if len - self.pos >= 2 {
            let tag: u16 = read_le16(self.bytes, self.pos);
            match crate::op::op_code_from_u16(tag) {
                Some(code) => {
                    self.pos = self.pos + 2;
                    Ok(code)
                },
                None => Err(self.invalid_op_code(tag)),
            }
        } else {
            Err(DecodeError::EndOfStream { pos: len })
        }
    }
}

/// A fast decoder that performs no runtime checks: every read requires
/// proof that the bytes it consumes decode, so the error branches of the
/// safe path are unreachable here by contract. Feeding it a position
/// that has not been verified is ruled out statically, not at run time.
#[derive(Debug, Clone, Copy)]
pub struct UnsafeDecoder<'op> {
    /// The bytes underlying the decoder.
    bytes: &'op [u8],
    /// The current position within `bytes`.
    pos: usize,
}

impl<'op> UnsafeDecoder<'op> {
    /// The byte stream the decoder reads.
    pub closed spec fn stream(self) -> Seq<u8> {
        self.bytes@
    }

    /// The current cursor position.
    pub closed spec fn position(self) -> int {
        self.pos as int
    }

    /// The cursor never lies past the end of the stream.
    pub closed spec fn wf(self) -> bool {
        self.pos <= self.bytes@.len()
    }

    /// Creates an unchecked decoder over `bytes` with the cursor at the
    /// start.
    pub fn new(bytes: &'op [u8]) -> (r: Self)
        ensures
            r.wf(),
            r.stream() == bytes@,
            r.position() == 0,
    {
        Self { bytes, pos: 0 }
    }

    /// Returns a decoder rebased by `offset` bytes, forward or
    /// backward, which the caller must prove stays within the stream.
    pub fn offset(&self, offset: isize) -> (r: Self)
        requires
            self.wf(),
            0 <= self.position() + offset,
            self.position() + offset <= self.stream().len(),
        ensures
            r.wf(),
            r.stream() == self.stream(),
            r.position() == self.position() + offset,
    {
        let _n: usize = self.bytes.len();
        let pos: usize = if offset >= 0 {
            self.pos + (offset as usize)
        } else {
            self.pos - ((-(offset + 1)) as usize) - 1
        };
        Self { bytes: self.bytes, pos }
    }

    /// Returns the current cursor position.
    pub fn pos(&self) -> (r: usize)
        ensures
            r as int == self.position(),
    {
        self.pos
    }

    /// Returns the length of the underlying byte stream.
    pub fn stream_len(&self) -> (r: usize)
        ensures
            r as int == self.stream().len(),
    {
        self.bytes.len()
    }

    /// Reads a borrowed run of `n` bytes without a bounds check.
    pub fn read_slice(&mut self, n: usize) -> (r: &'op [u8])
        requires
            old(self).wf(),
            old(self).position() + n <= old(self).stream().len(),
        ensures
            final(self).wf(),
            final(self).stream() == old(self).stream(),
            final(self).position() == old(self).position() + n,
            r@ == old(self).stream().subrange(old(self).position(), old(self).position() + n),
    {
        let _n: usize = self.bytes.len();
        let chunk: &'op [u8] = slice_subrange(self.bytes, self.pos, self.pos + n);
        self.pos = self.pos + n;
        chunk
    }

    /// Reads `N` bytes as a fixed-size array without a bounds check.
    pub fn read<const N: usize>(&mut self) -> (r: [u8; N])
        requires
            old(self).wf(),
            old(self).position() + N <= old(self).stream().len(),
        ensures
            final(self).wf(),
            final(self).stream() == old(self).stream(),
            final(self).position() == old(self).position() + N,
            r@ == old(self).stream().subrange(old(self).position(), old(self).position() + N),
    {
        let _n: usize = self.bytes.len();
        let mut chunk: [u8; N] = [0; N];
        let mut i: usize = 0;
        while i < N
            invariant
                0 <= i <= N,
                self.pos + N <= self.bytes@.len(),
                self.pos + N <= usize::MAX,
                chunk@.len() == N,
                forall|j: int| 0 <= j < i ==> chunk@[j] == self.bytes@[self.pos + j],
            decreases N - i,
        {
            let b: u8 = *slice_index_get(self.bytes, self.pos + i);
            chunk[i] = b;
            i = i + 1;
        }
        proof {
            assert(chunk@ =~= self.stream().subrange(self.position(), self.position() + N as int));
        }
        self.pos = self.pos + N;
        chunk
    }

    /// Reads one byte without a bounds check.
    pub fn read_u8(&mut self) -> (r: u8)
        requires
            old(self).wf(),
            dec_u8(old(self).stream(), old(self).position()) is Found,
        ensures
            final(self).wf(),
            final(self).stream() == old(self).stream(),
            dec_u8(old(self).stream(), old(self).position()) == (Decoded::Found {
                value: r,
                next: final(self).position(),
            }),
    {
        let _n: usize = self.bytes.len();
        let b: u8 = *slice_index_get(self.bytes, self.pos);
        self.pos = self.pos + 1;
        b
    }

    /// Reads a 16-bit word without a bounds check.
    pub fn read_u16(&mut self) -> (r: u16)
        requires
            old(self).wf(),
            dec_u16(old(self).stream(), old(self).position()) is Found,
        ensures
            final(self).wf(),
            final(self).stream() == old(self).stream(),
            dec_u16(old(self).stream(), old(self).position()) == (Decoded::Found {
                value: r,
                next: final(self).position(),
            }),
    {
        let _n: usize = self.bytes.len();
        let v: u16 = read_le16(self.bytes, self.pos);
        self.pos = self.pos + 2;
        v
    }

    /// Reads a 32-bit word without a bounds check.
    pub fn read_u32(&mut self) -> (r: u32)
        requires
            old(self).wf(),
            dec_u32(old(self).stream(), old(self).position()) is Found,
        ensures
            final(self).wf(),
            final(self).stream() == old(self).stream(),
            dec_u32(old(self).stream(), old(self).position()) == (Decoded::Found {
                value: r,
                next: final(self).position(),
            }),
    {
        let _n: usize = self.bytes.len();
        let v: u32 = read_le32(self.bytes, self.pos);
        self.pos = self.pos + 4;
        v
    }

    /// Reads a 64-bit word without a bounds check.
    pub fn read_u64(&mut self) -> (r: u64)
        requires
            old(self).wf(),
            dec_u64(old(self).stream(), old(self).position()) is Found,
        ensures
            final(self).wf(),
            final(self).stream() == old(self).stream(),
            dec_u64(old(self).stream(), old(self).position()) == (Decoded::Found {
                value: r,
                next: final(self).position(),
            }),
    {
        let _n: usize = self.bytes.len();
        let v: u64 = read_le64(self.bytes, self.pos);
        self.pos = self.pos + 8;
        v
    }

    /// Reads a 128-bit word without a bounds check.
    pub fn read_u128(&mut self) -> (r: u128)
        requires
            old(self).wf(),
            dec_u128(old(self).stream(), old(self).position()) is Found,
        ensures
            final(self).wf(),
            final(self).stream() == old(self).stream(),
            dec_u128(old(self).stream(), old(self).position()) == (Decoded::Found {
                value: r,
                next: final(self).position(),
            }),
    {
        let _n: usize = self.bytes.len();
        let v: u128 = read_le128(self.bytes, self.pos);
        self.pos = self.pos + 16;
        v
    }

    /// Reads a signed byte without a bounds check.
    pub fn read_i8(&mut self) -> (r: i8)
        requires
            old(self).wf(),
            dec_i8(old(self).stream(), old(self).position()) is Found,
        ensures
            final(self).wf(),
            final(self).stream() == old(self).stream(),
            dec_i8(old(self).stream(), old(self).position()) == (Decoded::Found {
                value: r,
                next: final(self).position(),
            }),
    {
        u8_to_i8(self.read_u8())
    }

    /// Reads a signed 16-bit value without a bounds check.
    pub fn read_i16(&mut self) -> (r: i16)
        requires
            old(self).wf(),
            dec_i16(old(self).stream(), old(self).position()) is Found,
        ensures
            final(self).wf(),
            final(self).stream() == old(self).stream(),
            dec_i16(old(self).stream(), old(self).position()) == (Decoded::Found {
                value: r,
                next: final(self).position(),
            }),
    {
        u16_to_i16(self.read_u16())
    }

    /// Reads a signed 32-bit value without a bounds check.
    pub fn read_i32(&mut self) -> (r: i32)
        requires
            old(self).wf(),
            dec_i32(old(self).stream(), old(self).position()) is Found,
        ensures
            final(self).wf(),
            final(self).stream() == old(self).stream(),
            dec_i32(old(self).stream(), old(self).position()) == (Decoded::Found {
                value: r,
                next: final(self).position(),
            }),
    {
        u32_to_i32(self.read_u32())
    }

    /// Reads a signed 64-bit value without a bounds check.
    pub fn read_i64(&mut self) -> (r: i64)
        requires
            old(self).wf(),
            dec_i64(old(self).stream(), old(self).position()) is Found,
        ensures
            final(self).wf(),
            final(self).stream() == old(self).stream(),
            dec_i64(old(self).stream(), old(self).position()) == (Decoded::Found {
                value: r,
                next: final(self).position(),
            }),
    {
        u64_to_i64(self.read_u64())
    }

    /// Reads a signed 128-bit value without a bounds check.
    pub fn read_i128(&mut self) -> (r: i128)
        requires
            old(self).wf(),
            dec_i128(old(self).stream(), old(self).position()) is Found,
        ensures
            final(self).wf(),
            final(self).stream() == old(self).stream(),
            dec_i128(old(self).stream(), old(self).position()) == (Decoded::Found {
                value: r,
                next: final(self).position(),
            }),
    {
        u128_to_i128(self.read_u128())
    }

    /// Reads a boolean byte; the caller must have proved the byte is 0
    /// or 1, so no check is made.
    pub fn read_bool(&mut self) -> (r: bool)
        requires
            old(self).wf(),
            dec_bool(old(self).stream(), old(self).position()) is Found,
        ensures
            final(self).wf(),
            final(self).stream() == old(self).stream(),
            dec_bool(old(self).stream(), old(self).position()) == (Decoded::Found {
                value: r,
                next: final(self).position(),
            }),
    {
        let b: u8 = self.read_u8();
        b == 1
    }

    /// Reads a sign byte; the caller must have proved the byte is 0 or 1.
    pub fn read_sign(&mut self) -> (r: Sign)
        requires
            old(self).wf(),
            dec_sign(old(self).stream(), old(self).position()) is Found,
        ensures
            final(self).wf(),
            final(self).stream() == old(self).stream(),
            dec_sign(old(self).stream(), old(self).position()) == (Decoded::Found {
                value: r,
                next: final(self).position(),
            }),
    {
        let b: u8 = self.read_u8();
        if b == 1 {
            Sign::Neg
        } else {
            Sign::Pos
        }
    }

    /// Reads a trap-code byte; the caller must have proved the tag is
    /// valid, so the rejecting branch is unreachable.
    pub fn read_trap_code(&mut self) -> (r: TrapCode)
        requires
            old(self).wf(),
            dec_trap_code(old(self).stream(), old(self).position()) is Found,
        ensures
            final(self).wf(),
            final(self).stream() == old(self).stream(),
            dec_trap_code(old(self).stream(), old(self).position()) == (Decoded::Found {
                value: r,
                next: final(self).position(),
            }),
    {
        let b: u8 = self.read_u8();
        match trap_code_from_u8(b) {
            Some(t) => t,
            None => {
                proof {
                    assert(false);
                }
                TrapCode::UnreachableCodeReached
            },
        }
    }

    /// Reads a 16-bit non-zero field; the caller must have proved the
    /// word is non-zero, so the rejecting branch is unreachable.
    pub fn read_non_zero_u16(&mut self) -> (r: NonZeroU16)
        requires
            old(self).wf(),
            dec_non_zero_u16(old(self).stream(), old(self).position()) is Found,
        ensures
            final(self).wf(),
            final(self).stream() == old(self).stream(),
            dec_non_zero_u16(old(self).stream(), old(self).position()) == (Decoded::Found {
                value: r,
                next: final(self).position(),
            }),
            r.wf(),
    {
        let v: u16 = self.read_u16();
        NonZeroU16 { value: v }
    }

    /// Reads a register without a bounds check.
    pub fn read_reg(&mut self) -> (r: Reg)
        requires
            old(self).wf(),
            dec_reg(old(self).stream(), old(self).position()) is Found,
        ensures
            final(self).wf(),
            final(self).stream() == old(self).stream(),
            dec_reg(old(self).stream(), old(self).position()) == (Decoded::Found {
                value: r,
                next: final(self).position(),
            }),
    {
        Reg { index: self.read_i16() }
    }

    /// Reads a register span without a bounds check.
    pub fn read_reg_span(&mut self) -> (r: RegSpan)
        requires
            old(self).wf(),
            dec_reg_span(old(self).stream(), old(self).position()) is Found,
        ensures
            final(self).wf(),
            final(self).stream() == old(self).stream(),
            dec_reg_span(old(self).stream(), old(self).position()) == (Decoded::Found {
                value: r,
                next: final(self).position(),
            }),
    {
        RegSpan { head: self.read_reg() }
    }

    /// Reads a branch-table target without a bounds check.
    pub fn read_branch_table_target(&mut self) -> (r: BranchTableTarget)
        requires
            old(self).wf(),
            dec_branch_table_target(old(self).stream(), old(self).position()) is Found,
        ensures
            final(self).wf(),
            final(self).stream() == old(self).stream(),
            dec_branch_table_target(old(self).stream(), old(self).position()) == (Decoded::Found {
                value: r,
                next: final(self).position(),
            }),
    {
        BranchTableTarget { value: self.read_i32() }
    }

    /// Reads a compact 16-bit immediate without a bounds check.
    pub fn read_const16(&mut self) -> (r: Const16)
        requires
            old(self).wf(),
            dec_const16(old(self).stream(), old(self).position()) is Found,
        ensures
            final(self).wf(),
            final(self).stream() == old(self).stream(),
            dec_const16(old(self).stream(), old(self).position()) == (Decoded::Found {
                value: r,
                next: final(self).position(),
            }),
    {
        Const16 { value: self.read_i16() }
    }

    /// Reads a 16-bit immediate of any interpretation without a bounds
    /// check.
    pub fn read_any_const16(&mut self) -> (r: AnyConst16)
        requires
            old(self).wf(),
            dec_any_const16(old(self).stream(), old(self).position()) is Found,
        ensures
            final(self).wf(),
            final(self).stream() == old(self).stream(),
            dec_any_const16(old(self).stream(), old(self).position()) == (Decoded::Found {
                value: r,
                next: final(self).position(),
            }),
    {
        AnyConst16 { value: self.read_i16() }
    }

    /// Reads a 32-bit immediate of any interpretation without a bounds
    /// check.
    pub fn read_any_const32(&mut self) -> (r: AnyConst32)
        requires
            old(self).wf(),
            dec_any_const32(old(self).stream(), old(self).position()) is Found,
        ensures
            final(self).wf(),
            final(self).stream() == old(self).stream(),
            dec_any_const32(old(self).stream(), old(self).position()) == (Decoded::Found {
                value: r,
                next: final(self).position(),
            }),
    {
        AnyConst32 { bits: self.read_u32() }
    }

    /// Reads a linear-memory index without a bounds check.
    pub fn read_memory(&mut self) -> (r: Memory)
        requires
            old(self).wf(),
            dec_memory(old(self).stream(), old(self).position()) is Found,
        ensures
            final(self).wf(),
            final(self).stream() == old(self).stream(),
            dec_memory(old(self).stream(), old(self).position()) == (Decoded::Found {
                value: r,
                next: final(self).position(),
            }),
    {
        Memory { index: self.read_u16() }
    }

    /// Reads an opcode word; the caller must have proved it lies in the
    /// valid range, so the rejecting branch is unreachable.
    pub fn read_op_code(&mut self) -> (r: OpCode)
        requires
            old(self).wf(),
            dec_op_code(old(self).stream(), old(self).position()) is Found,
        ensures
            final(self).wf(),
            final(self).stream() == old(self).stream(),
            dec_op_code(old(self).stream(), old(self).position()) == (Decoded::Found {
                value: r,
                next: final(self).position(),
            }),
    {
        let tag: u16 = self.read_u16();
        match crate::op::op_code_from_u16(tag) {
            Some(code) => code,
            None => {
                proof {
                    assert(false);
                }
                OpCode::Trap
            },
        }
    }
}

/// The opcode the opcode word announces is the opcode of the
/// instruction that decodes there.
pub proof fn lemma_dec_op_code_of(s: Seq<u8>, p: int)
    ensures
        dec_op(s, p) matches Decoded::Found { value, .. } ==> dec_op_code(s, p)
            matches Decoded::Found { value: c, .. } && crate::op::op_code_of(value) == c,
{
}

/// A safe instruction decoder over a byte stream.
#[derive(Debug, Clone, Copy)]
pub struct SafeOpDecoder<'op>(SafeDecoder<'op>);

impl<'op> SafeOpDecoder<'op> {
    /// The byte stream the decoder reads.
    pub closed spec fn stream(self) -> Seq<u8> {
        self.0.stream()
    }

    /// The current cursor position.
    pub closed spec fn position(self) -> int {
        self.0.position()
    }

    /// The cursor never lies past the end of the stream.
    pub closed spec fn wf(self) -> bool {
        self.0.wf()
    }

    /// Creates a safe instruction decoder over `bytes`.
    pub fn new(bytes: &'op [u8]) -> (r: Self)
        ensures
            r.wf(),
            r.stream() == bytes@,
            r.position() == 0,
    {
        SafeOpDecoder(SafeDecoder::new(bytes))
    }

    /// Returns the current cursor position.
    pub fn pos(&self) -> (r: usize)
        ensures
            r as int == self.position(),
    {
        self.0.pos()
    }

    /// Returns whether the cursor stands at the end of the stream.
    pub fn is_at_end(&self) -> (r: bool)
        requires
            self.wf(),
        ensures
            r <==> self.position() == self.stream().len(),
    {
        self.0.pos() == self.0.stream_len()
    }

    /// Decodes the next instruction: the opcode word, then the operand
    /// fields of its variant in schema order. Fails exactly where the
    /// decoding functions say the bytes are short or invalid.
    pub fn decode(&mut self) -> (r: Result<Op<'op>, DecodeError>)
        requires
            old(self).wf(),
        ensures
            final(self).wf(),
            final(self).stream() == old(self).stream(),
            final(self).position() == crate::codec::dec_op_stop(
                old(self).stream(),
                old(self).position(),
            ),
            match dec_op(old(self).stream(), old(self).position()) {
                Decoded::Found { value, next } => {
                    &&& r matches Ok(op) && op@ == value && op.slices_wf()
                    &&& final(self).position() == next
                },
                Decoded::Failed { err } => r matches Err(e) && e == err,
            },
    {
        let code: OpCode = match self.0.read_op_code() {
            Ok(c) => c,
            Err(e) => {
                return Err(e);
            },
        };
        match code {
            OpCode::Trap => {
                let trap_code = self.0.read_trap_code()?;
                Ok(Op::Trap { trap_code })
            },
            OpCode::Return => Ok(Op::Return),
            OpCode::ReturnReg => {
                let value = self.0.read_reg()?;
                Ok(Op::ReturnReg { value })
            },
            OpCode::BranchTableTarget => {
                let results = self.0.read_reg_span()?;
                let offset = self.0.read_branch_table_target()?;
                Ok(Op::BranchTableTarget { results, offset })
            },
            OpCode::ApplySign => {
                let result = self.0.read_reg()?;
                let input = self.0.read_reg()?;
                let sign = self.0.read_sign()?;
                Ok(Op::ApplySign { result, input, sign })
            },
            OpCode::CopyBool => {
                let result = self.0.read_reg()?;
                let value = self.0.read_bool()?;
                Ok(Op::CopyBool { result, value })
            },
            OpCode::I32DivUImm16 => {
                let result = self.0.read_reg()?;
                let lhs = self.0.read_reg()?;
                let rhs = self.0.read_non_zero_u16()?;
                Ok(Op::I32DivUImm16 { result, lhs, rhs })
            },
            OpCode::CopyMany => {
                let results = self.0.read_reg_span()?;
                let n = self.0.read_u16()?;
                let ghost q = self.0.position();
                let chunk = self.0.read_slice(2 * (n as usize))?;
                let values = Slice::new(chunk, n);
                proof {
                    let s = old(self).stream();
                    assert forall|i: int| 0 <= i < n as int implies values@[i] == crate::codec::elems_at(
                        s,
                        q,
                        n as int,
                    )[i] by {
                        crate::wire::lemma_le16_in_subrange(s, q, q + 2 * (n as int), 2 * i);
                    }
                    assert(values@ =~= crate::codec::elems_at(s, q, n as int));
                }
                Ok(Op::CopyMany { results, values })
            },
            OpCode::I32Store8Offset16Imm => {
                let ptr = self.0.read_reg()?;
                let offset = self.0.read_u16()?;
                let value = self.0.read_i8()?;
                Ok(Op::I32Store8Offset16Imm { ptr, offset, value })
            },
            OpCode::I32Store => {
                let ptr = self.0.read_reg()?;
                let memory = self.0.read_memory()?;
                Ok(Op::I32Store { ptr, memory })
            },
            OpCode::I32StoreImm16 => {
                let ptr = self.0.read_reg()?;
                let memory = self.0.read_memory()?;
                Ok(Op::I32StoreImm16 { ptr, memory })
            },
            OpCode::I32StoreOffset16 => {
                let ptr = self.0.read_reg()?;
                let offset = self.0.read_u16()?;
                let value = self.0.read_reg()?;
                Ok(Op::I32StoreOffset16 { ptr, offset, value })
            },
            OpCode::I32StoreOffset16Imm16 => {
                let ptr = self.0.read_reg()?;
                let offset = self.0.read_u16()?;
                let value = self.0.read_const16()?;
                Ok(Op::I32StoreOffset16Imm16 { ptr, offset, value })
            },
            OpCode::I32StoreAt => {
                let value = self.0.read_reg()?;
                let address = self.0.read_u32()?;
                Ok(Op::I32StoreAt { value, address })
            },
            OpCode::I32StoreAtImm16 => {
                let value = self.0.read_const16()?;
                let address = self.0.read_u32()?;
                Ok(Op::I32StoreAtImm16 { value, address })
            },
            OpCode::RegisterAndImm32 => {
                let reg = self.0.read_reg()?;
                let imm = self.0.read_any_const32()?;
                Ok(Op::RegisterAndImm32 { reg, imm })
            },
            OpCode::Imm16AndImm32 => {
                let imm16 = self.0.read_any_const16()?;
                let imm32 = self.0.read_any_const32()?;
                Ok(Op::Imm16AndImm32 { imm16, imm32 })
            },
            OpCode::MemoryIndex => {
                let memory = self.0.read_memory()?;
                Ok(Op::MemoryIndex { memory })
            },
            OpCode::ReturnImm32 => {
                let value = self.0.read_any_const32()?;
                Ok(Op::ReturnImm32 { value })
            },
            OpCode::I64LeU => {
                let result = self.0.read_reg()?;
                let lhs = self.0.read_reg()?;
                let rhs = self.0.read_reg()?;
                Ok(Op::I64LeU { result, lhs, rhs })
            },
        }
    }
}

impl<'op> SafeOpDecoder<'op> {
    /// Decodes every instruction from the cursor to the end of the
    /// stream, or fails at the first offending byte with the cursor
    /// frozen inside the offending instruction.
    pub fn decode_stream(&mut self) -> (r: Result<Vec<Op<'op>>, DecodeError>)
        requires
            old(self).wf(),
        ensures
            final(self).wf(),
            final(self).stream() == old(self).stream(),
            match crate::codec::dec_stream(old(self).stream(), old(self).position()) {
                Decoded::Found { value, next } => {
                    &&& r matches Ok(ops) && ops@.map_values(|o: Op<'op>| o@) == value
                    &&& r matches Ok(ops) && forall|j: int|
                        0 <= j < ops@.len() ==> (#[trigger] ops@[j]).slices_wf()
                    &&& final(self).position() == next
                },
                Decoded::Failed { err } => r matches Err(e) && e == err,
            },
            final(self).position() == crate::codec::dec_stream_stop(
                old(self).stream(),
                old(self).position(),
            ),
    {
        let ghost s = self.stream();
        let ghost p0 = self.position();
        let mut ops: Vec<Op<'op>> = Vec::new();
        loop
            invariant
                self.wf(),
                s == old(self).stream(),
                p0 == old(self).position(),
                self.stream() == s,
                0 <= p0 <= s.len(),
                crate::codec::dec_stream_stop(s, p0) == crate::codec::dec_stream_stop(
                    s,
                    self.position(),
                ),
                forall|j: int| 0 <= j < ops@.len() ==> (#[trigger] ops@[j]).slices_wf(),
                match crate::codec::dec_stream(s, self.position()) {
                    Decoded::Found { value, next } => crate::codec::dec_stream(s, p0)
                        == (Decoded::Found {
                        value: ops@.map_values(|o: Op<'op>| o@) + value,
                        next,
                    }),
                    Decoded::Failed { err } => crate::codec::dec_stream(s, p0)
                        == (Decoded::Failed::<Seq<OpV>> { err }),
                },
            decreases s.len() - self.position(),
        {
            if self.is_at_end() {
                proof {
                    assert(ops@.map_values(|o: Op<'op>| o@) + Seq::<OpV>::empty() =~= ops@
                        .map_values(|o: Op<'op>| o@));
                }
                return Ok(ops);
            }
            let ghost p = self.position();
            let ghost prev = ops@.map_values(|o: Op<'op>| o@);
            match self.decode() {
                Ok(op) => {
                    ops.push(op);
                    proof {
                        crate::codec::lemma_dec_op_advances(s, p);
                        assert(ops@.map_values(|o: Op<'op>| o@) =~= prev + seq![op@]);
                        match crate::codec::dec_stream(s, self.position()) {
                            Decoded::Found { value, next } => {
                                assert(prev + (seq![op@] + value) =~= (prev + seq![op@]) + value);
                            },
                            Decoded::Failed { .. } => {},
                        }
                    }
                },
                Err(e) => {
                    return Err(e);
                },
            }
        }
    }
}

/// A fast instruction decoder that performs no runtime checks; its
/// callers must prove that the bytes at the cursor decode, which is what
/// running the safe decoder over the stream once establishes.
#[derive(Debug, Clone, Copy)]
pub struct UnsafeOpDecoder<'op>(UnsafeDecoder<'op>);

/// A decoder for the operand fields of one dispatched instruction,
/// positioned just past the instruction's opcode word.
pub struct UncheckedOpVariantDecoder<'op> {
    /// The underlying unchecked decoder, past the opcode word.
    dec: UnsafeDecoder<'op>,
    /// The position of the instruction's opcode word.
    start: Ghost<int>,
}

impl<'op> UnsafeOpDecoder<'op> {
    /// The byte stream the decoder reads.
    pub closed spec fn stream(self) -> Seq<u8> {
        self.0.stream()
    }

    /// The current cursor position.
    pub closed spec fn position(self) -> int {
        self.0.position()
    }

    /// The cursor never lies past the end of the stream.
    pub closed spec fn wf(self) -> bool {
        self.0.wf()
    }

    /// Creates an unchecked instruction decoder over `bytes`.
    pub fn new(bytes: &'op [u8]) -> (r: Self)
        ensures
            r.wf(),
            r.stream() == bytes@,
            r.position() == 0,
    {
        UnsafeOpDecoder(UnsafeDecoder::new(bytes))
    }

    /// Returns a decoder rebased by `offset` bytes, forward or
    /// backward, which the caller must prove stays within the stream.
    pub fn offset(&self, offset: isize) -> (r: Self)
        requires
            self.wf(),
            0 <= self.position() + offset,
            self.position() + offset <= self.stream().len(),
        ensures
            r.wf(),
            r.stream() == self.stream(),
            r.position() == self.position() + offset,
    {
        UnsafeOpDecoder(self.0.offset(offset))
    }

    /// Returns the current cursor position.
    pub fn pos(&self) -> (r: usize)
        ensures
            r as int == self.position(),
    {
        self.0.pos()
    }

    /// Reads the opcode word of the instruction at the cursor and hands
    /// back a decoder for its operand fields: the caller dispatches on
    /// the opcode and lets the handler decode the fields it needs.
    pub fn dispatch(&mut self) -> (r: (OpCode, UncheckedOpVariantDecoder<'op>))
        requires
            old(self).wf(),
            dec_op(old(self).stream(), old(self).position()) is Found,
        ensures
            final(self).wf(),
            final(self).stream() == old(self).stream(),
            r.1.wf(),
            r.1.stream() == old(self).stream(),
            r.1.op_result() == dec_op(old(self).stream(), old(self).position()),
            dec_op(old(self).stream(), old(self).position()) matches Decoded::Found {
                value,
                ..
            } ==> r.0 == crate::op::op_code_of(value),
    {
        proof {
            lemma_dec_op_code_of(old(self).stream(), old(self).position());
        }
        let ghost start = self.0.position();
        let code: OpCode = self.0.read_op_code();
        (code, UncheckedOpVariantDecoder { dec: self.0, start: Ghost(start) })
    }

    /// Decodes the next instruction without any runtime check.
    pub fn decode(&mut self) -> (r: Op<'op>)
        requires
            old(self).wf(),
            dec_op(old(self).stream(), old(self).position()) is Found,
        ensures
            final(self).wf(),
            final(self).stream() == old(self).stream(),
            dec_op(old(self).stream(), old(self).position()) == (Decoded::Found {
                value: r@,
                next: final(self).position(),
            }),
            r.slices_wf(),
    {
        let (code, variant) = self.dispatch();
        let (dec, op) = variant.decode(code);
        *self = dec;
        op
    }
}

impl<'op> UnsafeOpDecoder<'op> {
    /// Returns the length of the underlying byte stream.
    pub fn stream_len(&self) -> (r: usize)
        ensures
            r as int == self.stream().len(),
    {
        self.0.stream_len()
    }

    /// Decodes every instruction from the cursor to the end of the
    /// stream without any runtime check; the caller must have proved
    /// the whole remaining stream well-formed.
    pub fn decode_stream(&mut self) -> (r: Vec<Op<'op>>)
        requires
            old(self).wf(),
            crate::codec::dec_stream(old(self).stream(), old(self).position()) is Found,
        ensures
            final(self).wf(),
            final(self).stream() == old(self).stream(),
            crate::codec::dec_stream(old(self).stream(), old(self).position())
                == (Decoded::Found {
                value: r@.map_values(|o: Op<'op>| o@),
                next: final(self).position(),
            }),
            forall|j: int| 0 <= j < r@.len() ==> (#[trigger] r@[j]).slices_wf(),
    {
        let ghost s = self.stream();
        let ghost p0 = self.position();
        let mut ops: Vec<Op<'op>> = Vec::new();
        loop
            invariant
                self.wf(),
                s == old(self).stream(),
                p0 == old(self).position(),
                self.stream() == s,
                0 <= p0 <= s.len(),
                forall|j: int| 0 <= j < ops@.len() ==> (#[trigger] ops@[j]).slices_wf(),
                crate::codec::dec_stream(s, self.position()) is Found,
                crate::codec::dec_stream(s, self.position()) matches Decoded::Found {
                    value,
                    next,
                } ==> crate::codec::dec_stream(s, p0) == (Decoded::Found {
                    value: ops@.map_values(|o: Op<'op>| o@) + value,
                    next,
                }),
            decreases s.len() - self.position(),
        {
            if self.pos() == self.stream_len() {
                proof {
                    assert(ops@.map_values(|o: Op<'op>| o@) + Seq::<OpV>::empty() =~= ops@
                        .map_values(|o: Op<'op>| o@));
                }
                return ops;
            }
            let ghost p = self.position();
            let ghost prev = ops@.map_values(|o: Op<'op>| o@);
            let op = self.decode();
            ops.push(op);
            proof {
                crate::codec::lemma_dec_op_advances(s, p);
                assert(ops@.map_values(|o: Op<'op>| o@) =~= prev + seq![op@]);
                match crate::codec::dec_stream(s, self.position()) {
                    Decoded::Found { value, next } => {
                        assert(prev + (seq![op@] + value) =~= (prev + seq![op@]) + value);
                    },
                    Decoded::Failed { .. } => {},
                }
            }
        }
    }
}

impl<'op> UncheckedOpVariantDecoder<'op> {
    /// The byte stream the decoder reads.
    pub closed spec fn stream(self) -> Seq<u8> {
        self.dec.stream()
    }

    /// What decoding the whole instruction at its opcode word finds.
    pub closed spec fn op_result(self) -> Decoded<OpV> {
        dec_op(self.dec.stream(), self.start@)
    }

    /// The decoder stands just past the opcode word of an instruction
    /// that is known to decode.
    pub closed spec fn wf(self) -> bool {
        &&& self.dec.wf()
        &&& dec_op(self.dec.stream(), self.start@) is Found
        &&& self.dec.position() == self.start@ + 2
    }

    /// Decodes the operand fields of the dispatched instruction, whose
    /// opcode the caller passes back, and returns the underlying decoder
    /// ready to dispatch the next instruction.
    pub fn decode(self, code: OpCode) -> (r: (UnsafeOpDecoder<'op>, Op<'op>))
        requires
            self.wf(),
            self.op_result() matches Decoded::Found { value, .. } && crate::op::op_code_of(value)
                == code,
        ensures
            r.0.wf(),
            r.0.stream() == self.stream(),
            self.op_result() == (Decoded::Found { value: r.1@, next: r.0.position() }),
            r.1.slices_wf(),
    {
        proof {
            lemma_dec_op_code_of(self.dec.stream(), self.start@);
        }
        let mut dec = self.dec;
        let op: Op<'op> = match code {
            OpCode::Trap => {
                let trap_code = dec.read_trap_code();
                Op::Trap { trap_code }
            },
            OpCode::Return => Op::Return,
            OpCode::ReturnReg => {
                let value = dec.read_reg();
                Op::ReturnReg { value }
            },
            OpCode::BranchTableTarget => {
                let results = dec.read_reg_span();
                let offset = dec.read_branch_table_target();
                Op::BranchTableTarget { results, offset }
            },
            OpCode::ApplySign => {
                let result = dec.read_reg();
                let input = dec.read_reg();
                let sign = dec.read_sign();
                Op::ApplySign { result, input, sign }
            },
            OpCode::CopyBool => {
                let result = dec.read_reg();
                let value = dec.read_bool();
                Op::CopyBool { result, value }
            },
            OpCode::I32DivUImm16 => {
                let result = dec.read_reg();
                let lhs = dec.read_reg();
                let rhs = dec.read_non_zero_u16();
                Op::I32DivUImm16 { result, lhs, rhs }
            },
            OpCode::CopyMany => {
                let results = dec.read_reg_span();
                let n = dec.read_u16();
                let ghost q = dec.position();
                let chunk = dec.read_slice(2 * (n as usize));
                let values = Slice::new(chunk, n);
                proof {
                    let s = self.dec.stream();
                    assert forall|i: int| 0 <= i < n as int implies values@[i] == crate::codec::elems_at(
                        s,
                        q,
                        n as int,
                    )[i] by {
                        crate::wire::lemma_le16_in_subrange(s, q, q + 2 * (n as int), 2 * i);
                    }
                    assert(values@ =~= crate::codec::elems_at(s, q, n as int));
                }
                Op::CopyMany { results, values }
            },
            OpCode::I32Store8Offset16Imm => {
                let ptr = dec.read_reg();
                let offset = dec.read_u16();
                let value = dec.read_i8();
                Op::I32Store8Offset16Imm { ptr, offset, value }
            },
            OpCode::I32Store => {
                let ptr = dec.read_reg();
                let memory = dec.read_memory();
                Op::I32Store { ptr, memory }
            },
            OpCode::I32StoreImm16 => {
                let ptr = dec.read_reg();
                let memory = dec.read_memory();
                Op::I32StoreImm16 { ptr, memory }
            },
            OpCode::I32StoreOffset16 => {
                let ptr = dec.read_reg();
                let offset = dec.read_u16();
                let value = dec.read_reg();
                Op::I32StoreOffset16 { ptr, offset, value }
            },
            OpCode::I32StoreOffset16Imm16 => {
                let ptr = dec.read_reg();
                let offset = dec.read_u16();
                let value = dec.read_const16();
                Op::I32StoreOffset16Imm16 { ptr, offset, value }
            },
            OpCode::I32StoreAt => {
                let value = dec.read_reg();
                let address = dec.read_u32();
                Op::I32StoreAt { value, address }
            },
            OpCode::I32StoreAtImm16 => {
                let value = dec.read_const16();
                let address = dec.read_u32();
                Op::I32StoreAtImm16 { value, address }
            },
            OpCode::RegisterAndImm32 => {
                let reg = dec.read_reg();
                let imm = dec.read_any_const32();
                Op::RegisterAndImm32 { reg, imm }
            },
            OpCode::Imm16AndImm32 => {
                let imm16 = dec.read_any_const16();
                let imm32 = dec.read_any_const32();
                Op::Imm16AndImm32 { imm16, imm32 }
            },
            OpCode::MemoryIndex => {
                let memory = dec.read_memory();
                Op::MemoryIndex { memory }
            },
            OpCode::ReturnImm32 => {
                let value = dec.read_any_const32();
                Op::ReturnImm32 { value }
            },
            OpCode::I64LeU => {
                let result = dec.read_reg();
                let lhs = dec.read_reg();
                let rhs = dec.read_reg();
                Op::I64LeU { result, lhs, rhs }
            },
        };
        (UnsafeOpDecoder(dec), op)
    }
}

} // verus!
