//! The byte-level meaning of the schema: what decoding finds at a given
//! position of a stream, and what encoding an instruction emits. Both
//! decoders and the encoder are specified against these functions.

use crate::error::DecodeError;
use crate::op::{op_code_from_tag, op_code_of, op_code_tag, op_wf, OpCode, OpV};
use crate::prim::{
    i16_of_u16, i32_of_u32, i64_of_u64, i8_of_u8, trap_code_from_tag, trap_code_tag, u16_of_i16,
    u32_of_i32, u8_of_i8, AnyConst16, AnyConst32, BranchTableTarget, Const16, Memory, NonZeroU16,
    Reg, RegSpan, Sign, TrapCode,
};
use crate::wire::{le128, le16, le32, le64};
use vstd::bytes::{spec_u16_to_le_bytes, spec_u32_to_le_bytes};
use vstd::prelude::*;

verus! {

broadcast use vstd::seq::group_seq_axioms;

/// The outcome of decoding a value at a position of a stream: the value
/// and the position just past it, or the error the bytes there earn.
pub enum Decoded<T> {
    /// Decoding succeeded.
    Found {
        /// The decoded value.
        value: T,
        /// The position of the first byte after the value.
        next: int,
    },
    /// Decoding failed.
    Failed {
        /// The error describing the offending bytes.
        err: DecodeError,
    },
}

/// Decodes the byte at `p`.
pub open spec fn dec_u8(s: Seq<u8>, p: int) -> Decoded<u8> {
    if p + 1 <= s.len() {
        Decoded::Found { value: s[p], next: p + 1 }
    } else {
        Decoded::Failed { err: DecodeError::EndOfStream { pos: s.len() as usize } }
    }
}

/// Decodes the 16-bit word at `p`.
pub open spec fn dec_u16(s: Seq<u8>, p: int) -> Decoded<u16> {
    if p + 2 <= s.len() {
        Decoded::Found { value: le16(s, p), next: p + 2 }
    } else {
        Decoded::Failed { err: DecodeError::EndOfStream { pos: s.len() as usize } }
    }
}

/// Decodes the 32-bit word at `p`.
pub open spec fn dec_u32(s: Seq<u8>, p: int) -> Decoded<u32> {
    if p + 4 <= s.len() {
        Decoded::Found { value: le32(s, p), next: p + 4 }
    } else {
        Decoded::Failed { err: DecodeError::EndOfStream { pos: s.len() as usize } }
    }
}

/// Decodes the 64-bit word at `p`.
pub open spec fn dec_u64(s: Seq<u8>, p: int) -> Decoded<u64> {
    if p + 8 <= s.len() {
        Decoded::Found { value: le64(s, p), next: p + 8 }
    } else {
        Decoded::Failed { err: DecodeError::EndOfStream { pos: s.len() as usize } }
    }
}

/// Decodes the 128-bit word at `p`.
pub open spec fn dec_u128(s: Seq<u8>, p: int) -> Decoded<u128> {
    if p + 16 <= s.len() {
        Decoded::Found { value: le128(s, p), next: p + 16 }
    } else {
        Decoded::Failed { err: DecodeError::EndOfStream { pos: s.len() as usize } }
    }
}

/// Decodes the byte at `p` as a signed value.
pub open spec fn dec_i8(s: Seq<u8>, p: int) -> Decoded<i8> {
    match dec_u8(s, p) {
        Decoded::Found { value, next } => Decoded::Found { value: i8_of_u8(value), next },
        Decoded::Failed { err } => Decoded::Failed { err },
    }
}

/// Decodes the 16-bit word at `p` as a signed value.
pub open spec fn dec_i16(s: Seq<u8>, p: int) -> Decoded<i16> {
    match dec_u16(s, p) {
        Decoded::Found { value, next } => Decoded::Found { value: i16_of_u16(value), next },
        Decoded::Failed { err } => Decoded::Failed { err },
    }
}

/// Decodes the 32-bit word at `p` as a signed value.
pub open spec fn dec_i32(s: Seq<u8>, p: int) -> Decoded<i32> {
    match dec_u32(s, p) {
        Decoded::Found { value, next } => Decoded::Found { value: i32_of_u32(value), next },
        Decoded::Failed { err } => Decoded::Failed { err },
    }
}

/// Decodes the 64-bit word at `p` as a signed value.
pub open spec fn dec_i64(s: Seq<u8>, p: int) -> Decoded<i64> {
    match dec_u64(s, p) {
        Decoded::Found { value, next } => Decoded::Found { value: i64_of_u64(value), next },
        Decoded::Failed { err } => Decoded::Failed { err },
    }
}

/// Decodes the 128-bit word at `p` as a signed value.
pub open spec fn dec_i128(s: Seq<u8>, p: int) -> Decoded<i128> {
    match dec_u128(s, p) {
        Decoded::Found { value, next } => Decoded::Found {
            value: crate::prim::i128_of_u128(value),
            next,
        },
        Decoded::Failed { err } => Decoded::Failed { err },
    }
}

/// Decodes the byte at `p` as a boolean: 0 is false, 1 is true, any
/// other byte is invalid and named by its position.
pub open spec fn dec_bool(s: Seq<u8>, p: int) -> Decoded<bool> {
    match dec_u8(s, p) {
        Decoded::Found { value, next } => {
            if value == 0 {
                Decoded::Found { value: false, next }
            } else if value == 1 {
                Decoded::Found { value: true, next }
            } else {
                Decoded::Failed { err: DecodeError::InvalidBool { pos: p as usize, value } }
            }
        },
        Decoded::Failed { err } => Decoded::Failed { err },
    }
}

/// Decodes the byte at `p` as a sign: 0 is positive, 1 is negative.
pub open spec fn dec_sign(s: Seq<u8>, p: int) -> Decoded<Sign> {
    match dec_u8(s, p) {
        Decoded::Found { value, next } => {
            if value == 0 {
                Decoded::Found { value: Sign::Pos, next }
            } else if value == 1 {
                Decoded::Found { value: Sign::Neg, next }
            } else {
                Decoded::Failed { err: DecodeError::InvalidSign { pos: p as usize, value } }
            }
        },
        Decoded::Failed { err } => Decoded::Failed { err },
    }
}

/// Decodes the byte at `p` as a trap code, rejecting unknown tags.
pub open spec fn dec_trap_code(s: Seq<u8>, p: int) -> Decoded<TrapCode> {
    match dec_u8(s, p) {
        Decoded::Found { value, next } => match trap_code_from_tag(value) {
            Some(t) => Decoded::Found { value: t, next },
            None => Decoded::Failed { err: DecodeError::InvalidTrapCode { pos: p as usize, value } },
        },
        Decoded::Failed { err } => Decoded::Failed { err },
    }
}

/// Decodes the 16-bit word at `p` as a non-zero field, rejecting zero.
pub open spec fn dec_non_zero_u16(s: Seq<u8>, p: int) -> Decoded<NonZeroU16> {
    match dec_u16(s, p) {
        Decoded::Found { value, next } => {
            if value == 0 {
                Decoded::Failed { err: DecodeError::InvalidNonZeroValue { pos: p as usize } }
            } else {
                Decoded::Found { value: NonZeroU16 { value }, next }
            }
        },
        Decoded::Failed { err } => Decoded::Failed { err },
    }
}

/// Decodes a register index.
pub open spec fn dec_reg(s: Seq<u8>, p: int) -> Decoded<Reg> {
    match dec_i16(s, p) {
        Decoded::Found { value, next } => Decoded::Found { value: Reg { index: value }, next },
        Decoded::Failed { err } => Decoded::Failed { err },
    }
}

/// Decodes a register span: its head register alone, the length being
/// carried by the enclosing instruction.
pub open spec fn dec_reg_span(s: Seq<u8>, p: int) -> Decoded<RegSpan> {
    match dec_reg(s, p) {
        Decoded::Found { value, next } => Decoded::Found { value: RegSpan { head: value }, next },
        Decoded::Failed { err } => Decoded::Failed { err },
    }
}

/// Decodes a branch-table target offset.
pub open spec fn dec_branch_table_target(s: Seq<u8>, p: int) -> Decoded<BranchTableTarget> {
    match dec_i32(s, p) {
        Decoded::Found { value, next } => Decoded::Found {
            value: BranchTableTarget { value },
            next,
        },
        Decoded::Failed { err } => Decoded::Failed { err },
    }
}

/// Decodes a compact 16-bit immediate.
pub open spec fn dec_const16(s: Seq<u8>, p: int) -> Decoded<Const16> {
    match dec_i16(s, p) {
        Decoded::Found { value, next } => Decoded::Found { value: Const16 { value }, next },
        Decoded::Failed { err } => Decoded::Failed { err },
    }
}

/// Decodes a 16-bit immediate of any interpretation.
pub open spec fn dec_any_const16(s: Seq<u8>, p: int) -> Decoded<AnyConst16> {
    match dec_i16(s, p) {
        Decoded::Found { value, next } => Decoded::Found { value: AnyConst16 { value }, next },
        Decoded::Failed { err } => Decoded::Failed { err },
    }
}

/// Decodes a 32-bit immediate of any interpretation.
pub open spec fn dec_any_const32(s: Seq<u8>, p: int) -> Decoded<AnyConst32> {
    match dec_u32(s, p) {
        Decoded::Found { value, next } => Decoded::Found { value: AnyConst32 { bits: value }, next },
        Decoded::Failed { err } => Decoded::Failed { err },
    }
}

/// Decodes a linear-memory index.
pub open spec fn dec_memory(s: Seq<u8>, p: int) -> Decoded<Memory> {
    match dec_u16(s, p) {
        Decoded::Found { value, next } => Decoded::Found { value: Memory { index: value }, next },
        Decoded::Failed { err } => Decoded::Failed { err },
    }
}

/// Decodes an opcode word, rejecting words above `MAX_OP` and naming the
/// word's own position in the error.
pub open spec fn dec_op_code(s: Seq<u8>, p: int) -> Decoded<OpCode> {
    match dec_u16(s, p) {
        Decoded::Found { value, next } => match op_code_from_tag(value) {
            Some(c) => Decoded::Found { value: c, next },
            None => Decoded::Failed {
                err: DecodeError::InvalidOpCode { pos: p as usize, value },
            },
        },
        Decoded::Failed { err } => Decoded::Failed { err },
    }
}

/// The `n` 16-bit elements beginning at `p`, each read as a register.
pub open spec fn elems_at(s: Seq<u8>, p: int, n: int) -> Seq<Reg> {
    Seq::new(n as nat, |i: int| Reg { index: i16_of_u16(le16(s, p + 2 * i)) })
}

/// Decodes an inline slice: a 16-bit element count, then two bytes per
/// element, which must not extend past the stream end.
pub open spec fn dec_elems(s: Seq<u8>, p: int) -> Decoded<Seq<Reg>> {
    match dec_u16(s, p) {
        Decoded::Found { value: n, next: q } => {
            if q + 2 * n <= s.len() {
                Decoded::Found { value: elems_at(s, q, n as int), next: q + 2 * n }
            } else {
                Decoded::Failed { err: DecodeError::EndOfStream { pos: s.len() as usize } }
            }
        },
        Decoded::Failed { err } => Decoded::Failed { err },
    }
}

/// Decodes the instruction at `p`: its opcode word, then its operand
/// fields in schema order.
pub open spec fn dec_op(s: Seq<u8>, p: int) -> Decoded<OpV> {
    match dec_op_code(s, p) {
        Decoded::Failed { err } => Decoded::Failed { err },
        Decoded::Found { value: code, next: p1 } => match code {
            OpCode::Trap => match dec_trap_code(s, p1) {
                Decoded::Failed { err } => Decoded::Failed { err },
                Decoded::Found { value: trap_code, next } => Decoded::Found {
                    value: OpV::Trap { trap_code },
                    next,
                },
            },
            OpCode::Return => Decoded::Found { value: OpV::Return, next: p1 },
            OpCode::ReturnReg => match dec_reg(s, p1) {
                Decoded::Failed { err } => Decoded::Failed { err },
                Decoded::Found { value, next } => Decoded::Found {
                    value: OpV::ReturnReg { value },
                    next,
                },
            },
            OpCode::BranchTableTarget => match dec_reg_span(s, p1) {
                Decoded::Failed { err } => Decoded::Failed { err },
                Decoded::Found { value: results, next: p2 } => match dec_branch_table_target(
                    s,
                    p2,
                ) {
                    Decoded::Failed { err } => Decoded::Failed { err },
                    Decoded::Found { value: offset, next } => Decoded::Found {
                        value: OpV::BranchTableTarget { results, offset },
                        next,
                    },
                },
            },
            OpCode::ApplySign => match dec_reg(s, p1) {
                Decoded::Failed { err } => Decoded::Failed { err },
                Decoded::Found { value: result, next: p2 } => match dec_reg(s, p2) {
                    Decoded::Failed { err } => Decoded::Failed { err },
                    Decoded::Found { value: input, next: p3 } => match dec_sign(s, p3) {
                        Decoded::Failed { err } => Decoded::Failed { err },
                        Decoded::Found { value: sign, next } => Decoded::Found {
                            value: OpV::ApplySign { result, input, sign },
                            next,
                        },
                    },
                },
            },
            OpCode::CopyBool => match dec_reg(s, p1) {
                Decoded::Failed { err } => Decoded::Failed { err },
                Decoded::Found { value: result, next: p2 } => match dec_bool(s, p2) {
                    Decoded::Failed { err } => Decoded::Failed { err },
                    Decoded::Found { value, next } => Decoded::Found {
                        value: OpV::CopyBool { result, value },
                        next,
                    },
                },
            },
            OpCode::I32DivUImm16 => match dec_reg(s, p1) {
                Decoded::Failed { err } => Decoded::Failed { err },
                Decoded::Found { value: result, next: p2 } => match dec_reg(s, p2) {
                    Decoded::Failed { err } => Decoded::Failed { err },
                    Decoded::Found { value: lhs, next: p3 } => match dec_non_zero_u16(s, p3) {
                        Decoded::Failed { err } => Decoded::Failed { err },
                        Decoded::Found { value: rhs, next } => Decoded::Found {
                            value: OpV::I32DivUImm16 { result, lhs, rhs },
                            next,
                        },
                    },
                },
            },
            OpCode::CopyMany => match dec_reg_span(s, p1) {
                Decoded::Failed { err } => Decoded::Failed { err },
                Decoded::Found { value: results, next: p2 } => match dec_elems(s, p2) {
                    Decoded::Failed { err } => Decoded::Failed { err },
                    Decoded::Found { value: values, next } => Decoded::Found {
                        value: OpV::CopyMany { results, values },
                        next,
                    },
                },
            },
            OpCode::I32Store8Offset16Imm => match dec_reg(s, p1) {
                Decoded::Failed { err } => Decoded::Failed { err },
                Decoded::Found { value: ptr, next: p2 } => match dec_u16(s, p2) {
                    Decoded::Failed { err } => Decoded::Failed { err },
                    Decoded::Found { value: offset, next: p3 } => match dec_i8(s, p3) {
                        Decoded::Failed { err } => Decoded::Failed { err },
                        Decoded::Found { value, next } => Decoded::Found {
                            value: OpV::I32Store8Offset16Imm { ptr, offset, value },
                            next,
                        },
                    },
                },
            },
            OpCode::I32Store => match dec_reg(s, p1) {
                Decoded::Failed { err } => Decoded::Failed { err },
                Decoded::Found { value: ptr, next: p2 } => match dec_memory(s, p2) {
                    Decoded::Failed { err } => Decoded::Failed { err },
                    Decoded::Found { value: memory, next } => Decoded::Found {
                        value: OpV::I32Store { ptr, memory },
                        next,
                    },
                },
            },
            OpCode::I32StoreImm16 => match dec_reg(s, p1) {
                Decoded::Failed { err } => Decoded::Failed { err },
                Decoded::Found { value: ptr, next: p2 } => match dec_memory(s, p2) {
                    Decoded::Failed { err } => Decoded::Failed { err },
                    Decoded::Found { value: memory, next } => Decoded::Found {
                        value: OpV::I32StoreImm16 { ptr, memory },
                        next,
                    },
                },
            },
            OpCode::I32StoreOffset16 => match dec_reg(s, p1) {
                Decoded::Failed { err } => Decoded::Failed { err },
                Decoded::Found { value: ptr, next: p2 } => match dec_u16(s, p2) {
                    Decoded::Failed { err } => Decoded::Failed { err },
                    Decoded::Found { value: offset, next: p3 } => match dec_reg(s, p3) {
                        Decoded::Failed { err } => Decoded::Failed { err },
                        Decoded::Found { value, next } => Decoded::Found {
                            value: OpV::I32StoreOffset16 { ptr, offset, value },
                            next,
                        },
                    },
                },
            },
            OpCode::I32StoreOffset16Imm16 => match dec_reg(s, p1) {
                Decoded::Failed { err } => Decoded::Failed { err },
                Decoded::Found { value: ptr, next: p2 } => match dec_u16(s, p2) {
                    Decoded::Failed { err } => Decoded::Failed { err },
                    Decoded::Found { value: offset, next: p3 } => match dec_const16(s, p3) {
                        Decoded::Failed { err } => Decoded::Failed { err },
                        Decoded::Found { value, next } => Decoded::Found {
                            value: OpV::I32StoreOffset16Imm16 { ptr, offset, value },
                            next,
                        },
                    },
                },
            },
            OpCode::I32StoreAt => match dec_reg(s, p1) {
                Decoded::Failed { err } => Decoded::Failed { err },
                Decoded::Found { value, next: p2 } => match dec_u32(s, p2) {
                    Decoded::Failed { err } => Decoded::Failed { err },
                    Decoded::Found { value: address, next } => Decoded::Found {
                        value: OpV::I32StoreAt { value, address },
                        next,
                    },
                },
            },
            OpCode::I32StoreAtImm16 => match dec_const16(s, p1) {
                Decoded::Failed { err } => Decoded::Failed { err },
                Decoded::Found { value, next: p2 } => match dec_u32(s, p2) {
                    Decoded::Failed { err } => Decoded::Failed { err },
                    Decoded::Found { value: address, next } => Decoded::Found {
                        value: OpV::I32StoreAtImm16 { value, address },
                        next,
                    },
                },
            },
            OpCode::RegisterAndImm32 => match dec_reg(s, p1) {
                Decoded::Failed { err } => Decoded::Failed { err },
                Decoded::Found { value: reg, next: p2 } => match dec_any_const32(s, p2) {
                    Decoded::Failed { err } => Decoded::Failed { err },
                    Decoded::Found { value: imm, next } => Decoded::Found {
                        value: OpV::RegisterAndImm32 { reg, imm },
                        next,
                    },
                },
            },
            OpCode::Imm16AndImm32 => match dec_any_const16(s, p1) {
                Decoded::Failed { err } => Decoded::Failed { err },
                Decoded::Found { value: imm16, next: p2 } => match dec_any_const32(s, p2) {
                    Decoded::Failed { err } => Decoded::Failed { err },
                    Decoded::Found { value: imm32, next } => Decoded::Found {
                        value: OpV::Imm16AndImm32 { imm16, imm32 },
                        next,
                    },
                },
            },
            OpCode::MemoryIndex => match dec_memory(s, p1) {
                Decoded::Failed { err } => Decoded::Failed { err },
                Decoded::Found { value: memory, next } => Decoded::Found {
                    value: OpV::MemoryIndex { memory },
                    next,
                },
            },
            OpCode::ReturnImm32 => match dec_any_const32(s, p1) {
                Decoded::Failed { err } => Decoded::Failed { err },
                Decoded::Found { value, next } => Decoded::Found {
                    value: OpV::ReturnImm32 { value },
                    next,
                },
            },
            OpCode::I64LeU => match dec_reg(s, p1) {
                Decoded::Failed { err } => Decoded::Failed { err },
                Decoded::Found { value: result, next: p2 } => match dec_reg(s, p2) {
                    Decoded::Failed { err } => Decoded::Failed { err },
                    Decoded::Found { value: lhs, next: p3 } => match dec_reg(s, p3) {
                        Decoded::Failed { err } => Decoded::Failed { err },
                        Decoded::Found { value: rhs, next } => Decoded::Found {
                            value: OpV::I64LeU { result, lhs, rhs },
                            next,
                        },
                    },
                },
            },
        },
    }
}

/// Where the cursor comes to rest after decoding the instruction at
/// `p`: past the instruction on success, and frozen at the start of
/// the first short or invalid field on failure — the fail-fast rule.
pub open spec fn dec_op_stop(s: Seq<u8>, p: int) -> int {
    match dec_op_code(s, p) {
        Decoded::Failed { .. } => p,
        Decoded::Found { value: code, next: p1 } => match code {
            OpCode::Trap => match dec_trap_code(s, p1) {
                Decoded::Failed { .. } => p1,
                Decoded::Found { next, .. } => next,
            },
            OpCode::Return => p1,
            OpCode::ReturnReg => match dec_reg(s, p1) {
                Decoded::Failed { .. } => p1,
                Decoded::Found { next, .. } => next,
            },
            OpCode::BranchTableTarget => match dec_reg_span(s, p1) {
                Decoded::Failed { .. } => p1,
                Decoded::Found { next: p2, .. } => match dec_branch_table_target(s, p2) {
                    Decoded::Failed { .. } => p2,
                    Decoded::Found { next, .. } => next,
                },
            },
            OpCode::ApplySign => match dec_reg(s, p1) {
                Decoded::Failed { .. } => p1,
                Decoded::Found { next: p2, .. } => match dec_reg(s, p2) {
                    Decoded::Failed { .. } => p2,
                    Decoded::Found { next: p3, .. } => match dec_sign(s, p3) {
                        Decoded::Failed { .. } => p3,
                        Decoded::Found { next, .. } => next,
                    },
                },
            },
            OpCode::CopyBool => match dec_reg(s, p1) {
                Decoded::Failed { .. } => p1,
                Decoded::Found { next: p2, .. } => match dec_bool(s, p2) {
                    Decoded::Failed { .. } => p2,
                    Decoded::Found { next, .. } => next,
                },
            },
            OpCode::I32DivUImm16 => match dec_reg(s, p1) {
                Decoded::Failed { .. } => p1,
                Decoded::Found { next: p2, .. } => match dec_reg(s, p2) {
                    Decoded::Failed { .. } => p2,
                    Decoded::Found { next: p3, .. } => match dec_non_zero_u16(s, p3) {
                        Decoded::Failed { .. } => p3,
                        Decoded::Found { next, .. } => next,
                    },
                },
            },
            OpCode::CopyMany => match dec_reg_span(s, p1) {
                Decoded::Failed { .. } => p1,
                Decoded::Found { next: p2, .. } => match dec_u16(s, p2) {
                    Decoded::Failed { .. } => p2,
                    Decoded::Found { value: n, next: p3 } => {
                        if p3 + 2 * n <= s.len() {
                            p3 + 2 * n
                        } else {
                            p3
                        }
                    },
                },
            },
            OpCode::I32Store8Offset16Imm => match dec_reg(s, p1) {
                Decoded::Failed { .. } => p1,
                Decoded::Found { next: p2, .. } => match dec_u16(s, p2) {
                    Decoded::Failed { .. } => p2,
                    Decoded::Found { next: p3, .. } => match dec_i8(s, p3) {
                        Decoded::Failed { .. } => p3,
                        Decoded::Found { next, .. } => next,
                    },
                },
            },
            OpCode::I32Store => match dec_reg(s, p1) {
                Decoded::Failed { .. } => p1,
                Decoded::Found { next: p2, .. } => match dec_memory(s, p2) {
                    Decoded::Failed { .. } => p2,
                    Decoded::Found { next, .. } => next,
                },
            },
            OpCode::I32StoreImm16 => match dec_reg(s, p1) {
                Decoded::Failed { .. } => p1,
                Decoded::Found { next: p2, .. } => match dec_memory(s, p2) {
                    Decoded::Failed { .. } => p2,
                    Decoded::Found { next, .. } => next,
                },
            },
            OpCode::I32StoreOffset16 => match dec_reg(s, p1) {
                Decoded::Failed { .. } => p1,
                Decoded::Found { next: p2, .. } => match dec_u16(s, p2) {
                    Decoded::Failed { .. } => p2,
                    Decoded::Found { next: p3, .. } => match dec_reg(s, p3) {
                        Decoded::Failed { .. } => p3,
                        Decoded::Found { next, .. } => next,
                    },
                },
            },
            OpCode::I32StoreOffset16Imm16 => match dec_reg(s, p1) {
                Decoded::Failed { .. } => p1,
                Decoded::Found { next: p2, .. } => match dec_u16(s, p2) {
                    Decoded::Failed { .. } => p2,
                    Decoded::Found { next: p3, .. } => match dec_const16(s, p3) {
                        Decoded::Failed { .. } => p3,
                        Decoded::Found { next, .. } => next,
                    },
                },
            },
            OpCode::I32StoreAt => match dec_reg(s, p1) {
                Decoded::Failed { .. } => p1,
                Decoded::Found { next: p2, .. } => match dec_u32(s, p2) {
                    Decoded::Failed { .. } => p2,
                    Decoded::Found { next, .. } => next,
                },
            },
            OpCode::I32StoreAtImm16 => match dec_const16(s, p1) {
                Decoded::Failed { .. } => p1,
                Decoded::Found { next: p2, .. } => match dec_u32(s, p2) {
                    Decoded::Failed { .. } => p2,
                    Decoded::Found { next, .. } => next,
                },
            },
            OpCode::RegisterAndImm32 => match dec_reg(s, p1) {
                Decoded::Failed { .. } => p1,
                Decoded::Found { next: p2, .. } => match dec_any_const32(s, p2) {
                    Decoded::Failed { .. } => p2,
                    Decoded::Found { next, .. } => next,
                },
            },
            OpCode::Imm16AndImm32 => match dec_any_const16(s, p1) {
                Decoded::Failed { .. } => p1,
                Decoded::Found { next: p2, .. } => match dec_any_const32(s, p2) {
                    Decoded::Failed { .. } => p2,
                    Decoded::Found { next, .. } => next,
                },
            },
            OpCode::MemoryIndex => match dec_memory(s, p1) {
                Decoded::Failed { .. } => p1,
                Decoded::Found { next, .. } => next,
            },
            OpCode::ReturnImm32 => match dec_any_const32(s, p1) {
                Decoded::Failed { .. } => p1,
                Decoded::Found { next, .. } => next,
            },
            OpCode::I64LeU => match dec_reg(s, p1) {
                Decoded::Failed { .. } => p1,
                Decoded::Found { next: p2, .. } => match dec_reg(s, p2) {
                    Decoded::Failed { .. } => p2,
                    Decoded::Found { next: p3, .. } => match dec_reg(s, p3) {
                        Decoded::Failed { .. } => p3,
                        Decoded::Found { next, .. } => next,
                    },
                },
            },
        },
    }
}

/// The encoding of a 16-bit word.
pub open spec fn enc_u16(x: u16) -> Seq<u8> {
    spec_u16_to_le_bytes(x)
}

/// The encoding of a 32-bit word.
pub open spec fn enc_u32(x: u32) -> Seq<u8> {
    spec_u32_to_le_bytes(x)
}

/// The encoding of a register.
pub open spec fn enc_reg(r: Reg) -> Seq<u8> {
    enc_u16(u16_of_i16(r.index))
}

/// The encoding of a register span: its head register.
pub open spec fn enc_reg_span(r: RegSpan) -> Seq<u8> {
    enc_reg(r.head)
}

/// The encoding of a boolean.
pub open spec fn enc_bool(b: bool) -> Seq<u8> {
    seq![if b { 1u8 } else { 0u8 }]
}

/// The encoding of a sign.
pub open spec fn enc_sign(g: Sign) -> Seq<u8> {
    seq![if g is Neg { 1u8 } else { 0u8 }]
}

/// The encoding of a trap code.
pub open spec fn enc_trap_code(t: TrapCode) -> Seq<u8> {
    seq![trap_code_tag(t)]
}

/// The encoding of a signed byte.
pub open spec fn enc_i8(v: i8) -> Seq<u8> {
    seq![u8_of_i8(v)]
}

/// The encoding of a signed 32-bit value.
pub open spec fn enc_i32(v: i32) -> Seq<u8> {
    enc_u32(u32_of_i32(v))
}

/// The encoding of a run of 16-bit elements, two bytes each.
pub open spec fn enc_elems(vs: Seq<Reg>) -> Seq<u8>
    decreases vs.len(),
{
    if vs.len() == 0 {
        Seq::empty()
    } else {
        enc_reg(vs[0]) + enc_elems(vs.subrange(1, vs.len() as int))
    }
}

/// The encoding of an instruction: its opcode word, then its operand
/// fields in schema order; an inline slice contributes its element
/// count and then its elements.
pub open spec fn enc_op(v: OpV) -> Seq<u8> {
    enc_u16(op_code_tag(op_code_of(v))) + match v {
        OpV::Trap { trap_code } => enc_trap_code(trap_code),
        OpV::Return => Seq::empty(),
        OpV::ReturnReg { value } => enc_reg(value),
        OpV::BranchTableTarget { results, offset } => enc_reg_span(results) + enc_i32(
            offset.value,
        ),
        OpV::ApplySign { result, input, sign } => enc_reg(result) + enc_reg(input) + enc_sign(
            sign,
        ),
        OpV::CopyBool { result, value } => enc_reg(result) + enc_bool(value),
        OpV::I32DivUImm16 { result, lhs, rhs } => enc_reg(result) + enc_reg(lhs) + enc_u16(
            rhs.value,
        ),
        OpV::CopyMany { results, values } => enc_reg_span(results) + enc_u16(
            values.len() as u16,
        ) + enc_elems(values),
        OpV::I32Store8Offset16Imm { ptr, offset, value } => enc_reg(ptr) + enc_u16(offset)
            + enc_i8(value),
        OpV::I32Store { ptr, memory } => enc_reg(ptr) + enc_u16(memory.index),
        OpV::I32StoreImm16 { ptr, memory } => enc_reg(ptr) + enc_u16(memory.index),
        OpV::I32StoreOffset16 { ptr, offset, value } => enc_reg(ptr) + enc_u16(offset) + enc_reg(
            value,
        ),
        OpV::I32StoreOffset16Imm16 { ptr, offset, value } => enc_reg(ptr) + enc_u16(offset)
            + enc_u16(u16_of_i16(value.value)),
        OpV::I32StoreAt { value, address } => enc_reg(value) + enc_u32(address),
        OpV::I32StoreAtImm16 { value, address } => enc_u16(u16_of_i16(value.value)) + enc_u32(
            address,
        ),
        OpV::RegisterAndImm32 { reg, imm } => enc_reg(reg) + enc_u32(imm.bits),
        OpV::Imm16AndImm32 { imm16, imm32 } => enc_u16(u16_of_i16(imm16.value)) + enc_u32(
            imm32.bits,
        ),
        OpV::MemoryIndex { memory } => enc_u16(memory.index),
        OpV::ReturnImm32 { value } => enc_u32(value.bits),
        OpV::I64LeU { result, lhs, rhs } => enc_reg(result) + enc_reg(lhs) + enc_reg(rhs),
    }
}

/// The encoding of a run of elements is two bytes per element.
pub proof fn lemma_enc_elems_len(vs: Seq<Reg>)
    ensures
        enc_elems(vs).len() == 2 * vs.len(),
    decreases vs.len(),
{
    vstd::bytes::lemma_auto_spec_u16_to_from_le_bytes();
    if vs.len() > 0 {
        lemma_enc_elems_len(vs.subrange(1, vs.len() as int));
    }
}

/// The lengths of the field encodings.
pub proof fn lemma_enc_lens()
    ensures
        forall|x: u16| (#[trigger] enc_u16(x)).len() == 2,
        forall|x: u32| (#[trigger] enc_u32(x)).len() == 4,
        forall|r: Reg| (#[trigger] enc_reg(r)).len() == 2,
        forall|r: RegSpan| (#[trigger] enc_reg_span(r)).len() == 2,
        forall|b: bool| (#[trigger] enc_bool(b)).len() == 1,
        forall|g: Sign| (#[trigger] enc_sign(g)).len() == 1,
        forall|t: TrapCode| (#[trigger] enc_trap_code(t)).len() == 1,
        forall|v: i8| (#[trigger] enc_i8(v)).len() == 1,
        forall|v: i32| (#[trigger] enc_i32(v)).len() == 4,
        forall|vs: Seq<Reg>| (#[trigger] enc_elems(vs)).len() == 2 * vs.len(),
{
    vstd::bytes::lemma_auto_spec_u16_to_from_le_bytes();
    vstd::bytes::lemma_auto_spec_u32_to_from_le_bytes();
    assert forall|vs: Seq<Reg>| (#[trigger] enc_elems(vs)).len() == 2 * vs.len() by {
        lemma_enc_elems_len(vs);
    }
}

/// Reading one byte off a suffix whose first byte is known.
proof fn lemma_step_u8(s: Seq<u8>, p: int, x: u8, rest: Seq<u8>)
    requires
        0 <= p <= s.len(),
        s.subrange(p, s.len() as int) == seq![x] + rest,
    ensures
        dec_u8(s, p) == (Decoded::Found { value: x, next: p + 1 }),
        p + 1 + rest.len() == s.len(),
        s.subrange(p + 1, s.len() as int) == rest,
{
    let suf = s.subrange(p, s.len() as int);
    assert(suf.len() == 1 + rest.len());
    assert(s[p] == suf[0]);
    assert(s.subrange(p + 1, s.len() as int) =~= suf.subrange(1, suf.len() as int));
    assert(suf.subrange(1, suf.len() as int) =~= rest);
}

/// Reading one 16-bit word off a suffix that begins with its encoding.
proof fn lemma_step_u16(s: Seq<u8>, p: int, x: u16, rest: Seq<u8>)
    requires
        0 <= p <= s.len(),
        s.subrange(p, s.len() as int) == enc_u16(x) + rest,
    ensures
        dec_u16(s, p) == (Decoded::Found { value: x, next: p + 2 }),
        p + 2 + rest.len() == s.len(),
        s.subrange(p + 2, s.len() as int) == rest,
{
    vstd::bytes::lemma_auto_spec_u16_to_from_le_bytes();
    assert(s.subrange(p, s.len() as int).len() == 2 + rest.len());
    assert(s.subrange(p, p + 2) =~= enc_u16(x));
    crate::wire::lemma_le16_of_enc(s, p, x);
    let suf = s.subrange(p, s.len() as int);
    assert(s.subrange(p + 2, s.len() as int) =~= suf.subrange(2, suf.len() as int));
    assert(suf.subrange(2, suf.len() as int) =~= rest);
}

/// Reading one 32-bit word off a suffix that begins with its encoding.
proof fn lemma_step_u32(s: Seq<u8>, p: int, x: u32, rest: Seq<u8>)
    requires
        0 <= p <= s.len(),
        s.subrange(p, s.len() as int) == enc_u32(x) + rest,
    ensures
        dec_u32(s, p) == (Decoded::Found { value: x, next: p + 4 }),
        p + 4 + rest.len() == s.len(),
        s.subrange(p + 4, s.len() as int) == rest,
{
    vstd::bytes::lemma_auto_spec_u32_to_from_le_bytes();
    assert(s.subrange(p, s.len() as int).len() == 4 + rest.len());
    assert(s.subrange(p, p + 4) =~= enc_u32(x));
    crate::wire::lemma_le32_of_enc(s, p, x);
    let suf = s.subrange(p, s.len() as int);
    assert(s.subrange(p + 4, s.len() as int) =~= suf.subrange(4, suf.len() as int));
    assert(suf.subrange(4, suf.len() as int) =~= rest);
}

/// Reading a run of elements off a suffix that begins with their
/// encoding recovers exactly those elements.
proof fn lemma_step_elems(s: Seq<u8>, p: int, vs: Seq<Reg>, rest: Seq<u8>)
    requires
        0 <= p <= s.len(),
        s.subrange(p, s.len() as int) == enc_elems(vs) + rest,
    ensures
        elems_at(s, p, vs.len() as int) == vs,
        p + 2 * vs.len() + rest.len() == s.len(),
        s.subrange(p + 2 * vs.len(), s.len() as int) == rest,
    decreases vs.len(),
{
    lemma_enc_elems_len(vs);
    crate::prim::lemma_i16_u16_inverse();
    if vs.len() == 0 {
        assert(elems_at(s, p, 0) =~= vs);
        assert(s.subrange(p, s.len() as int) =~= rest);
    } else {
        let tail = vs.subrange(1, vs.len() as int);
        let w0 = u16_of_i16(vs[0].index);
        assert(enc_elems(vs) + rest =~= enc_u16(w0) + (enc_elems(tail) + rest));
        lemma_step_u16(s, p, w0, enc_elems(tail) + rest);
        lemma_step_elems(s, p + 2, tail, rest);
        assert(elems_at(s, p, vs.len() as int) =~= vs) by {
            assert forall|i: int| 0 <= i < vs.len() implies elems_at(s, p, vs.len() as int)[i]
                == vs[i] by {
                if i == 0 {
                    assert(le16(s, p) == w0) by {
                        assert(dec_u16(s, p) == (Decoded::Found { value: w0, next: p + 2 }));
                    }
                } else {
                    assert(elems_at(s, p + 2, tail.len() as int)[i - 1] == tail[i - 1]);
                    assert(p + 2 + 2 * (i - 1) == p + 2 * i);
                }
            }
        }
        assert(s.subrange(p + 2 * vs.len(), s.len() as int) == rest);
    }
}

/// Reading one byte off a suffix in a stream truncated at `t`: the
/// byte survives when it lies below the cut, and the cut itself is
/// reported otherwise.
proof fn lemma_trunc_u8(s: Seq<u8>, t: int, p: int, x: u8, rest: Seq<u8>)
    requires
        0 <= p <= s.len(),
        p <= t <= s.len(),
        s.subrange(p, s.len() as int) == seq![x] + rest,
    ensures
        p + 1 <= t ==> dec_u8(s.take(t), p) == (Decoded::Found { value: x, next: p + 1 }),
        t < p + 1 ==> dec_u8(s.take(t), p) == (Decoded::Failed::<u8> {
            err: DecodeError::EndOfStream { pos: t as usize },
        }),
{
    let st = s.take(t);
    if p + 1 <= t {
        assert(st[p] == s[p]);
        assert(s[p] == (seq![x] + rest)[0]) by {
            assert(s.subrange(p, s.len() as int)[0] == s[p]);
        }
    }
}

/// Reading one 16-bit word off a suffix in a stream truncated at `t`.
proof fn lemma_trunc_u16(s: Seq<u8>, t: int, p: int, x: u16, rest: Seq<u8>)
    requires
        0 <= p <= s.len(),
        p <= t <= s.len(),
        s.subrange(p, s.len() as int) == enc_u16(x) + rest,
    ensures
        p + 2 <= t ==> dec_u16(s.take(t), p) == (Decoded::Found { value: x, next: p + 2 }),
        t < p + 2 ==> dec_u16(s.take(t), p) == (Decoded::Failed::<u16> {
            err: DecodeError::EndOfStream { pos: t as usize },
        }),
{
    vstd::bytes::lemma_auto_spec_u16_to_from_le_bytes();
    let st = s.take(t);
    assert(s.subrange(p, s.len() as int).len() == 2 + rest.len());
    if p + 2 <= t {
        let suf = s.subrange(p, s.len() as int);
        assert(st.subrange(p, p + 2) =~= s.subrange(p, p + 2));
        assert(s.subrange(p, p + 2) =~= suf.subrange(0, 2));
        assert(suf.subrange(0, 2) =~= enc_u16(x));
        crate::wire::lemma_le16_of_enc(st, p, x);
    }
}

/// Reading one 32-bit word off a suffix in a stream truncated at `t`.
proof fn lemma_trunc_u32(s: Seq<u8>, t: int, p: int, x: u32, rest: Seq<u8>)
    requires
        0 <= p <= s.len(),
        p <= t <= s.len(),
        s.subrange(p, s.len() as int) == enc_u32(x) + rest,
    ensures
        p + 4 <= t ==> dec_u32(s.take(t), p) == (Decoded::Found { value: x, next: p + 4 }),
        t < p + 4 ==> dec_u32(s.take(t), p) == (Decoded::Failed::<u32> {
            err: DecodeError::EndOfStream { pos: t as usize },
        }),
{
    vstd::bytes::lemma_auto_spec_u32_to_from_le_bytes();
    let st = s.take(t);
    assert(s.subrange(p, s.len() as int).len() == 4 + rest.len());
    if p + 4 <= t {
        let suf = s.subrange(p, s.len() as int);
        assert(st.subrange(p, p + 4) =~= s.subrange(p, p + 4));
        assert(s.subrange(p, p + 4) =~= suf.subrange(0, 4));
        assert(suf.subrange(0, 4) =~= enc_u32(x));
        crate::wire::lemma_le32_of_enc(st, p, x);
    }
}

/// A decoded instruction always advances the position, and never past
/// the end of the stream.
pub proof fn lemma_dec_op_advances(s: Seq<u8>, p: int)
    ensures
        dec_op(s, p) matches Decoded::Found { next, .. } ==> p < next <= s.len(),
{
}

/// Decodes instructions one after another from `p` to the very end of
/// the stream.
pub open spec fn dec_stream(s: Seq<u8>, p: int) -> Decoded<Seq<OpV>>
    decreases s.len() - p,
    when 0 <= p <= s.len()
    via dec_stream_decreases
{
    if p == s.len() {
        Decoded::Found { value: Seq::empty(), next: p }
    } else {
        match dec_op(s, p) {
            Decoded::Failed { err } => Decoded::Failed { err },
            Decoded::Found { value: v, next: q } => match dec_stream(s, q) {
                Decoded::Failed { err } => Decoded::Failed { err },
                Decoded::Found { value: vs, next } => Decoded::Found { value: seq![v] + vs, next },
            },
        }
    }
}

#[via_fn]
proof fn dec_stream_decreases(s: Seq<u8>, p: int) {
    lemma_dec_op_advances(s, p);
}

/// Where the cursor comes to rest after decoding a stream from `p`:
/// the end of the stream on success, and the failure site of the
/// offending instruction on failure.
pub open spec fn dec_stream_stop(s: Seq<u8>, p: int) -> int
    decreases s.len() - p,
    when 0 <= p <= s.len()
    via dec_stream_stop_decreases
{
    if p == s.len() {
        p
    } else {
        match dec_op(s, p) {
            Decoded::Failed { .. } => dec_op_stop(s, p),
            Decoded::Found { next, .. } => dec_stream_stop(s, next),
        }
    }
}

#[via_fn]
proof fn dec_stream_stop_decreases(s: Seq<u8>, p: int) {
    lemma_dec_op_advances(s, p);
}

/// The encoding of a sequence of instructions: their encodings
/// concatenated without padding.
pub open spec fn enc_stream(vs: Seq<OpV>) -> Seq<u8>
    decreases vs.len(),
{
    if vs.len() == 0 {
        Seq::empty()
    } else {
        enc_op(vs[0]) + enc_stream(vs.subrange(1, vs.len() as int))
    }
}

/// True when every instruction of the sequence is well-formed.
pub open spec fn stream_wf(vs: Seq<OpV>) -> bool {
    forall|i: int| 0 <= i < vs.len() ==> op_wf(#[trigger] vs[i])
}

/// An instruction's encoding is at least the two opcode bytes long.
pub proof fn lemma_enc_op_min_len(v: OpV)
    ensures
        enc_op(v).len() >= 2,
{
    lemma_enc_lens();
}

/// Decoding at the head of a suffix that begins with the encoding of a
/// well-formed instruction finds exactly that instruction and stops
/// exactly past its encoding.
#[verifier::rlimit(100)]
pub proof fn lemma_dec_op_of_enc(s: Seq<u8>, p: int, v: OpV, rest: Seq<u8>)
    requires
        0 <= p <= s.len(),
        op_wf(v),
        s.subrange(p, s.len() as int) == enc_op(v) + rest,
    ensures
        dec_op(s, p) == (Decoded::Found { value: v, next: p + enc_op(v).len() }),
        p + enc_op(v).len() + rest.len() == s.len(),
        s.subrange(p + enc_op(v).len(), s.len() as int) == rest,
{
    lemma_enc_lens();
    crate::op::lemma_op_code_dense();
    crate::prim::lemma_trap_code_tags();
    crate::prim::lemma_i16_u16_inverse();
    crate::prim::lemma_i8_u8_inverse();
    crate::prim::lemma_i32_u32_inverse();
    let tag = op_code_tag(op_code_of(v));
    match v {
        OpV::Trap { trap_code } => {
            let e1 = enc_trap_code(trap_code);
            assert(enc_op(v) + rest =~= enc_u16(tag) + (e1 + rest));
            lemma_step_u16(s, p, tag, e1 + rest);
            lemma_step_u8(s, p + 2, trap_code_tag(trap_code), rest);
            assert(enc_op(v).len() == 3);
        },
        OpV::Return => {
            assert(enc_op(v) + rest =~= enc_u16(tag) + rest);
            lemma_step_u16(s, p, tag, rest);
            assert(enc_op(v).len() == 2);
        },
        OpV::ReturnReg { value } => {
            let e1 = enc_reg(value);
            assert(enc_op(v) + rest =~= enc_u16(tag) + (e1 + rest));
            lemma_step_u16(s, p, tag, e1 + rest);
            lemma_step_u16(s, p + 2, u16_of_i16(value.index), rest);
            assert(enc_op(v).len() == 4);
        },
        OpV::BranchTableTarget { results, offset } => {
            let e1 = enc_reg_span(results);
            let e2 = enc_i32(offset.value);
            assert(enc_op(v) + rest =~= enc_u16(tag) + (e1 + (e2 + rest)));
            lemma_step_u16(s, p, tag, e1 + (e2 + rest));
            lemma_step_u16(s, p + 2, u16_of_i16(results.head.index), e2 + rest);
            lemma_step_u32(s, p + 4, u32_of_i32(offset.value), rest);
            assert(enc_op(v).len() == 8);
        },
        OpV::ApplySign { result, input, sign } => {
            let e1 = enc_reg(result);
            let e2 = enc_reg(input);
            let e3 = enc_sign(sign);
            let sb: u8 = if sign is Neg {
                1u8
            } else {
                0u8
            };
            assert(enc_op(v) + rest =~= enc_u16(tag) + (e1 + (e2 + (e3 + rest))));
            lemma_step_u16(s, p, tag, e1 + (e2 + (e3 + rest)));
            lemma_step_u16(s, p + 2, u16_of_i16(result.index), e2 + (e3 + rest));
            lemma_step_u16(s, p + 4, u16_of_i16(input.index), e3 + rest);
            lemma_step_u8(s, p + 6, sb, rest);
            assert(enc_op(v).len() == 7);
        },
        OpV::CopyBool { result, value } => {
            let e1 = enc_reg(result);
            let e2 = enc_bool(value);
            let bb: u8 = if value {
                1u8
            } else {
                0u8
            };
            assert(enc_op(v) + rest =~= enc_u16(tag) + (e1 + (e2 + rest)));
            lemma_step_u16(s, p, tag, e1 + (e2 + rest));
            lemma_step_u16(s, p + 2, u16_of_i16(result.index), e2 + rest);
            lemma_step_u8(s, p + 4, bb, rest);
            assert(enc_op(v).len() == 5);
        },
        OpV::I32DivUImm16 { result, lhs, rhs } => {
            let e1 = enc_reg(result);
            let e2 = enc_reg(lhs);
            let e3 = enc_u16(rhs.value);
            assert(enc_op(v) + rest =~= enc_u16(tag) + (e1 + (e2 + (e3 + rest))));
            lemma_step_u16(s, p, tag, e1 + (e2 + (e3 + rest)));
            lemma_step_u16(s, p + 2, u16_of_i16(result.index), e2 + (e3 + rest));
            lemma_step_u16(s, p + 4, u16_of_i16(lhs.index), e3 + rest);
            lemma_step_u16(s, p + 6, rhs.value, rest);
            assert(enc_op(v).len() == 8);
        },
        OpV::CopyMany { results, values } => {
            let e1 = enc_reg_span(results);
            let cnt = values.len() as u16;
            let e2 = enc_u16(cnt);
            let e3 = enc_elems(values);
            assert(enc_op(v) + rest =~= enc_u16(tag) + (e1 + (e2 + (e3 + rest))));
            lemma_step_u16(s, p, tag, e1 + (e2 + (e3 + rest)));
            lemma_step_u16(s, p + 2, u16_of_i16(results.head.index), e2 + (e3 + rest));
            lemma_step_u16(s, p + 4, cnt, e3 + rest);
            lemma_step_elems(s, p + 6, values, rest);
            assert(cnt as int == values.len());
            assert(dec_elems(s, p + 4) == (Decoded::Found {
                value: values,
                next: p + 6 + 2 * values.len(),
            }));
            assert(enc_op(v).len() == 6 + 2 * values.len());
        },
        OpV::I32Store8Offset16Imm { ptr, offset, value } => {
            let e1 = enc_reg(ptr);
            let e2 = enc_u16(offset);
            let e3 = enc_i8(value);
            assert(enc_op(v) + rest =~= enc_u16(tag) + (e1 + (e2 + (e3 + rest))));
            lemma_step_u16(s, p, tag, e1 + (e2 + (e3 + rest)));
            lemma_step_u16(s, p + 2, u16_of_i16(ptr.index), e2 + (e3 + rest));
            lemma_step_u16(s, p + 4, offset, e3 + rest);
            lemma_step_u8(s, p + 6, u8_of_i8(value), rest);
            assert(enc_op(v).len() == 7);
        },
        OpV::I32Store { ptr, memory } => {
            let e1 = enc_reg(ptr);
            let e2 = enc_u16(memory.index);
            assert(enc_op(v) + rest =~= enc_u16(tag) + (e1 + (e2 + rest)));
            lemma_step_u16(s, p, tag, e1 + (e2 + rest));
            lemma_step_u16(s, p + 2, u16_of_i16(ptr.index), e2 + rest);
            lemma_step_u16(s, p + 4, memory.index, rest);
            assert(enc_op(v).len() == 6);
        },
        OpV::I32StoreImm16 { ptr, memory } => {
            let e1 = enc_reg(ptr);
            let e2 = enc_u16(memory.index);
            assert(enc_op(v) + rest =~= enc_u16(tag) + (e1 + (e2 + rest)));
            lemma_step_u16(s, p, tag, e1 + (e2 + rest));
            lemma_step_u16(s, p + 2, u16_of_i16(ptr.index), e2 + rest);
            lemma_step_u16(s, p + 4, memory.index, rest);
            assert(enc_op(v).len() == 6);
        },
        OpV::I32StoreOffset16 { ptr, offset, value } => {
            let e1 = enc_reg(ptr);
            let e2 = enc_u16(offset);
            let e3 = enc_reg(value);
            assert(enc_op(v) + rest =~= enc_u16(tag) + (e1 + (e2 + (e3 + rest))));
            lemma_step_u16(s, p, tag, e1 + (e2 + (e3 + rest)));
            lemma_step_u16(s, p + 2, u16_of_i16(ptr.index), e2 + (e3 + rest));
            lemma_step_u16(s, p + 4, offset, e3 + rest);
            lemma_step_u16(s, p + 6, u16_of_i16(value.index), rest);
            assert(enc_op(v).len() == 8);
        },
        OpV::I32StoreOffset16Imm16 { ptr, offset, value } => {
            let e1 = enc_reg(ptr);
            let e2 = enc_u16(offset);
            let e3 = enc_u16(u16_of_i16(value.value));
            assert(enc_op(v) + rest =~= enc_u16(tag) + (e1 + (e2 + (e3 + rest))));
            lemma_step_u16(s, p, tag, e1 + (e2 + (e3 + rest)));
            lemma_step_u16(s, p + 2, u16_of_i16(ptr.index), e2 + (e3 + rest));
            lemma_step_u16(s, p + 4, offset, e3 + rest);
            lemma_step_u16(s, p + 6, u16_of_i16(value.value), rest);
            assert(enc_op(v).len() == 8);
        },
        OpV::I32StoreAt { value, address } => {
            let e1 = enc_reg(value);
            let e2 = enc_u32(address);
            assert(enc_op(v) + rest =~= enc_u16(tag) + (e1 + (e2 + rest)));
            lemma_step_u16(s, p, tag, e1 + (e2 + rest));
            lemma_step_u16(s, p + 2, u16_of_i16(value.index), e2 + rest);
            lemma_step_u32(s, p + 4, address, rest);
            assert(enc_op(v).len() == 8);
        },
        OpV::I32StoreAtImm16 { value, address } => {
            let e1 = enc_u16(u16_of_i16(value.value));
            let e2 = enc_u32(address);
            assert(enc_op(v) + rest =~= enc_u16(tag) + (e1 + (e2 + rest)));
            lemma_step_u16(s, p, tag, e1 + (e2 + rest));
            lemma_step_u16(s, p + 2, u16_of_i16(value.value), e2 + rest);
            lemma_step_u32(s, p + 4, address, rest);
            assert(enc_op(v).len() == 8);
        },
        OpV::RegisterAndImm32 { reg, imm } => {
            let e1 = enc_reg(reg);
            let e2 = enc_u32(imm.bits);
            assert(enc_op(v) + rest =~= enc_u16(tag) + (e1 + (e2 + rest)));
            lemma_step_u16(s, p, tag, e1 + (e2 + rest));
            lemma_step_u16(s, p + 2, u16_of_i16(reg.index), e2 + rest);
            lemma_step_u32(s, p + 4, imm.bits, rest);
            assert(enc_op(v).len() == 8);
        },
        OpV::Imm16AndImm32 { imm16, imm32 } => {
            let e1 = enc_u16(u16_of_i16(imm16.value));
            let e2 = enc_u32(imm32.bits);
            assert(enc_op(v) + rest =~= enc_u16(tag) + (e1 + (e2 + rest)));
            lemma_step_u16(s, p, tag, e1 + (e2 + rest));
            lemma_step_u16(s, p + 2, u16_of_i16(imm16.value), e2 + rest);
            lemma_step_u32(s, p + 4, imm32.bits, rest);
            assert(enc_op(v).len() == 8);
        },
        OpV::MemoryIndex { memory } => {
            let e1 = enc_u16(memory.index);
            assert(enc_op(v) + rest =~= enc_u16(tag) + (e1 + rest));
            lemma_step_u16(s, p, tag, e1 + rest);
            lemma_step_u16(s, p + 2, memory.index, rest);
            assert(enc_op(v).len() == 4);
        },
        OpV::ReturnImm32 { value } => {
            let e1 = enc_u32(value.bits);
            assert(enc_op(v) + rest =~= enc_u16(tag) + (e1 + rest));
            lemma_step_u16(s, p, tag, e1 + rest);
            lemma_step_u32(s, p + 2, value.bits, rest);
            assert(enc_op(v).len() == 6);
        },
        OpV::I64LeU { result, lhs, rhs } => {
            let e1 = enc_reg(result);
            let e2 = enc_reg(lhs);
            let e3 = enc_reg(rhs);
            assert(enc_op(v) + rest =~= enc_u16(tag) + (e1 + (e2 + (e3 + rest))));
            lemma_step_u16(s, p, tag, e1 + (e2 + (e3 + rest)));
            lemma_step_u16(s, p + 2, u16_of_i16(result.index), e2 + (e3 + rest));
            lemma_step_u16(s, p + 4, u16_of_i16(lhs.index), e3 + rest);
            lemma_step_u16(s, p + 6, u16_of_i16(rhs.index), rest);
            assert(enc_op(v).len() == 8);
        },
    }
}

/// Decoding a suffix that is exactly the encoding of a well-formed
/// instruction sequence recovers that sequence, instruction by
/// instruction, ending at the end of the stream.
pub proof fn lemma_dec_stream_of_enc(s: Seq<u8>, p: int, vs: Seq<OpV>)
    requires
        0 <= p <= s.len(),
        stream_wf(vs),
        s.subrange(p, s.len() as int) == enc_stream(vs),
    ensures
        dec_stream(s, p) == (Decoded::Found { value: vs, next: s.len() as int }),
    decreases vs.len(),
{
    if vs.len() == 0 {
        assert(s.subrange(p, s.len() as int).len() == 0);
        assert(vs =~= Seq::<OpV>::empty());
    } else {
        let tail = vs.subrange(1, vs.len() as int);
        assert(enc_stream(vs) == enc_op(vs[0]) + enc_stream(tail));
        lemma_enc_op_min_len(vs[0]);
        lemma_dec_op_of_enc(s, p, vs[0], enc_stream(tail));
        let q = p + enc_op(vs[0]).len();
        assert(stream_wf(tail)) by {
            assert forall|i: int| 0 <= i < tail.len() implies op_wf(#[trigger] tail[i]) by {
                assert(tail[i] == vs[i + 1]);
            }
        }
        lemma_dec_stream_of_enc(s, q, tail);
        assert(seq![vs[0]] + tail =~= vs);
        assert(p != s.len());
    }
}


/// Decoding at the head of a suffix that begins with the encoding of a
/// well-formed instruction, in a stream truncated at `t`: where the cut
/// lies at or past the end of the encoding the instruction survives
/// whole, and where it falls strictly inside, the decode fails with the
/// end-of-stream error naming the cut itself.
#[verifier::rlimit(100)]
pub proof fn lemma_dec_op_of_enc_truncated(s: Seq<u8>, t: int, p: int, v: OpV, rest: Seq<u8>)
    requires
        0 <= p <= t <= s.len(),
        op_wf(v),
        s.subrange(p, s.len() as int) == enc_op(v) + rest,
    ensures
        p + enc_op(v).len() <= t ==> dec_op(s.take(t), p) == (Decoded::Found {
            value: v,
            next: p + enc_op(v).len(),
        }),
        t < p + enc_op(v).len() ==> dec_op(s.take(t), p) == (Decoded::Failed::<OpV> {
            err: DecodeError::EndOfStream { pos: t as usize },
        }),
{
    lemma_enc_lens();
    crate::op::lemma_op_code_dense();
    crate::prim::lemma_trap_code_tags();
    crate::prim::lemma_i16_u16_inverse();
    crate::prim::lemma_i8_u8_inverse();
    crate::prim::lemma_i32_u32_inverse();
    let tag = op_code_tag(op_code_of(v));
    match v {
        OpV::Trap { trap_code } => {
            let e1 = enc_trap_code(trap_code);
            assert(enc_op(v) + rest =~= enc_u16(tag) + (e1 + rest));
            lemma_step_u16(s, p, tag, e1 + rest);
            lemma_trunc_u16(s, t, p, tag, e1 + rest);
            if p + 2 <= t {
                lemma_step_u8(s, p + 2, trap_code_tag(trap_code), rest);
                lemma_trunc_u8(s, t, p + 2, trap_code_tag(trap_code), rest);
            }
            assert(enc_op(v).len() == 3);
        },
        OpV::Return => {
            assert(enc_op(v) + rest =~= enc_u16(tag) + rest);
            lemma_step_u16(s, p, tag, rest);
            lemma_trunc_u16(s, t, p, tag, rest);
            assert(enc_op(v).len() == 2);
        },
        OpV::ReturnReg { value } => {
            let e1 = enc_reg(value);
            assert(enc_op(v) + rest =~= enc_u16(tag) + (e1 + rest));
            lemma_step_u16(s, p, tag, e1 + rest);
            lemma_trunc_u16(s, t, p, tag, e1 + rest);
            if p + 2 <= t {
                lemma_step_u16(s, p + 2, u16_of_i16(value.index), rest);
                lemma_trunc_u16(s, t, p + 2, u16_of_i16(value.index), rest);
            }
            assert(enc_op(v).len() == 4);
        },
        OpV::BranchTableTarget { results, offset } => {
            let e1 = enc_reg_span(results);
            let e2 = enc_i32(offset.value);
            assert(enc_op(v) + rest =~= enc_u16(tag) + (e1 + (e2 + rest)));
            lemma_step_u16(s, p, tag, e1 + (e2 + rest));
            lemma_trunc_u16(s, t, p, tag, e1 + (e2 + rest));
            if p + 2 <= t {
                lemma_step_u16(s, p + 2, u16_of_i16(results.head.index), e2 + rest);
                lemma_trunc_u16(s, t, p + 2, u16_of_i16(results.head.index), e2 + rest);
                if p + 4 <= t {
                    lemma_step_u32(s, p + 4, u32_of_i32(offset.value), rest);
                    lemma_trunc_u32(s, t, p + 4, u32_of_i32(offset.value), rest);
                }
            }
            assert(enc_op(v).len() == 8);
        },
        OpV::ApplySign { result, input, sign } => {
            let sb: u8 = if sign is Neg {
                1u8
            } else {
                0u8
            };
            let e1 = enc_reg(result);
            let e2 = enc_reg(input);
            let e3 = enc_sign(sign);
            assert(enc_op(v) + rest =~= enc_u16(tag) + (e1 + (e2 + (e3 + rest))));
            lemma_step_u16(s, p, tag, e1 + (e2 + (e3 + rest)));
            lemma_trunc_u16(s, t, p, tag, e1 + (e2 + (e3 + rest)));
            if p + 2 <= t {
                lemma_step_u16(s, p + 2, u16_of_i16(result.index), e2 + (e3 + rest));
                lemma_trunc_u16(s, t, p + 2, u16_of_i16(result.index), e2 + (e3 + rest));
                if p + 4 <= t {
                    lemma_step_u16(s, p + 4, u16_of_i16(input.index), e3 + rest);
                    lemma_trunc_u16(s, t, p + 4, u16_of_i16(input.index), e3 + rest);
                    if p + 6 <= t {
                        lemma_step_u8(s, p + 6, sb, rest);
                        lemma_trunc_u8(s, t, p + 6, sb, rest);
                    }
                }
            }
            assert(enc_op(v).len() == 7);
        },
        OpV::CopyBool { result, value } => {
            let bb: u8 = if value {
                1u8
            } else {
                0u8
            };
            let e1 = enc_reg(result);
            let e2 = enc_bool(value);
            assert(enc_op(v) + rest =~= enc_u16(tag) + (e1 + (e2 + rest)));
            lemma_step_u16(s, p, tag, e1 + (e2 + rest));
            lemma_trunc_u16(s, t, p, tag, e1 + (e2 + rest));
            if p + 2 <= t {
                lemma_step_u16(s, p + 2, u16_of_i16(result.index), e2 + rest);
                lemma_trunc_u16(s, t, p + 2, u16_of_i16(result.index), e2 + rest);
                if p + 4 <= t {
                    lemma_step_u8(s, p + 4, bb, rest);
                    lemma_trunc_u8(s, t, p + 4, bb, rest);
                }
            }
            assert(enc_op(v).len() == 5);
        },
        OpV::I32DivUImm16 { result, lhs, rhs } => {
            let e1 = enc_reg(result);
            let e2 = enc_reg(lhs);
            let e3 = enc_u16(rhs.value);
            assert(enc_op(v) + rest =~= enc_u16(tag) + (e1 + (e2 + (e3 + rest))));
            lemma_step_u16(s, p, tag, e1 + (e2 + (e3 + rest)));
            lemma_trunc_u16(s, t, p, tag, e1 + (e2 + (e3 + rest)));
            if p + 2 <= t {
                lemma_step_u16(s, p + 2, u16_of_i16(result.index), e2 + (e3 + rest));
                lemma_trunc_u16(s, t, p + 2, u16_of_i16(result.index), e2 + (e3 + rest));
                if p + 4 <= t {
                    lemma_step_u16(s, p + 4, u16_of_i16(lhs.index), e3 + rest);
                    lemma_trunc_u16(s, t, p + 4, u16_of_i16(lhs.index), e3 + rest);
                    if p + 6 <= t {
                        lemma_step_u16(s, p + 6, rhs.value, rest);
                        lemma_trunc_u16(s, t, p + 6, rhs.value, rest);
                    }
                }
            }
            assert(enc_op(v).len() == 8);
        },
        OpV::CopyMany { results, values } => {
            let cnt = values.len() as u16;
            let e1 = enc_reg_span(results);
            let e2 = enc_u16(cnt);
            let e3 = enc_elems(values);
            assert(enc_op(v) + rest =~= enc_u16(tag) + (e1 + (e2 + (e3 + rest))));
            lemma_step_u16(s, p, tag, e1 + (e2 + (e3 + rest)));
            lemma_trunc_u16(s, t, p, tag, e1 + (e2 + (e3 + rest)));
            if p + 2 <= t {
                lemma_step_u16(s, p + 2, u16_of_i16(results.head.index), e2 + (e3 + rest));
                lemma_trunc_u16(s, t, p + 2, u16_of_i16(results.head.index), e2 + (e3 + rest));
                if p + 4 <= t {
                    lemma_step_u16(s, p + 4, cnt, e3 + rest);
                    lemma_trunc_u16(s, t, p + 4, cnt, e3 + rest);
                    if p + 6 <= t {
                        lemma_step_elems(s, p + 6, values, rest);
                        if p + 6 + 2 * values.len() <= t {
                            let st = s.take(t);
                            assert(elems_at(st, p + 6, cnt as int) =~= values) by {
                                assert forall|i: int| 0 <= i < cnt as int implies elems_at(
                                    st,
                                    p + 6,
                                    cnt as int,
                                )[i] == values[i] by {
                                    assert(st.subrange(
                                        p + 6 + 2 * i,
                                        p + 6 + 2 * i + 2,
                                    ) =~= s.subrange(p + 6 + 2 * i, p + 6 + 2 * i + 2));
                                    assert(elems_at(s, p + 6, cnt as int)[i] == values[i]);
                                }
                            }
                        }
                    }
                }
            }
            assert(enc_op(v).len() == 6 + 2 * values.len());
        },
        OpV::I32Store8Offset16Imm { ptr, offset, value } => {
            let e1 = enc_reg(ptr);
            let e2 = enc_u16(offset);
            let e3 = enc_i8(value);
            assert(enc_op(v) + rest =~= enc_u16(tag) + (e1 + (e2 + (e3 + rest))));
            lemma_step_u16(s, p, tag, e1 + (e2 + (e3 + rest)));
            lemma_trunc_u16(s, t, p, tag, e1 + (e2 + (e3 + rest)));
            if p + 2 <= t {
                lemma_step_u16(s, p + 2, u16_of_i16(ptr.index), e2 + (e3 + rest));
                lemma_trunc_u16(s, t, p + 2, u16_of_i16(ptr.index), e2 + (e3 + rest));
                if p + 4 <= t {
                    lemma_step_u16(s, p + 4, offset, e3 + rest);
                    lemma_trunc_u16(s, t, p + 4, offset, e3 + rest);
                    if p + 6 <= t {
                        lemma_step_u8(s, p + 6, u8_of_i8(value), rest);
                        lemma_trunc_u8(s, t, p + 6, u8_of_i8(value), rest);
                    }
                }
            }
            assert(enc_op(v).len() == 7);
        },
        OpV::I32Store { ptr, memory } => {
            let e1 = enc_reg(ptr);
            let e2 = enc_u16(memory.index);
            assert(enc_op(v) + rest =~= enc_u16(tag) + (e1 + (e2 + rest)));
            lemma_step_u16(s, p, tag, e1 + (e2 + rest));
            lemma_trunc_u16(s, t, p, tag, e1 + (e2 + rest));
            if p + 2 <= t {
                lemma_step_u16(s, p + 2, u16_of_i16(ptr.index), e2 + rest);
                lemma_trunc_u16(s, t, p + 2, u16_of_i16(ptr.index), e2 + rest);
                if p + 4 <= t {
                    lemma_step_u16(s, p + 4, memory.index, rest);
                    lemma_trunc_u16(s, t, p + 4, memory.index, rest);
                }
            }
            assert(enc_op(v).len() == 6);
        },
        OpV::I32StoreImm16 { ptr, memory } => {
            let e1 = enc_reg(ptr);
            let e2 = enc_u16(memory.index);
            assert(enc_op(v) + rest =~= enc_u16(tag) + (e1 + (e2 + rest)));
            lemma_step_u16(s, p, tag, e1 + (e2 + rest));
            lemma_trunc_u16(s, t, p, tag, e1 + (e2 + rest));
            if p + 2 <= t {
                lemma_step_u16(s, p + 2, u16_of_i16(ptr.index), e2 + rest);
                lemma_trunc_u16(s, t, p + 2, u16_of_i16(ptr.index), e2 + rest);
                if p + 4 <= t {
                    lemma_step_u16(s, p + 4, memory.index, rest);
                    lemma_trunc_u16(s, t, p + 4, memory.index, rest);
                }
            }
            assert(enc_op(v).len() == 6);
        },
        OpV::I32StoreOffset16 { ptr, offset, value } => {
            let e1 = enc_reg(ptr);
            let e2 = enc_u16(offset);
            let e3 = enc_reg(value);
            assert(enc_op(v) + rest =~= enc_u16(tag) + (e1 + (e2 + (e3 + rest))));
            lemma_step_u16(s, p, tag, e1 + (e2 + (e3 + rest)));
            lemma_trunc_u16(s, t, p, tag, e1 + (e2 + (e3 + rest)));
            if p + 2 <= t {
                lemma_step_u16(s, p + 2, u16_of_i16(ptr.index), e2 + (e3 + rest));
                lemma_trunc_u16(s, t, p + 2, u16_of_i16(ptr.index), e2 + (e3 + rest));
                if p + 4 <= t {
                    lemma_step_u16(s, p + 4, offset, e3 + rest);
                    lemma_trunc_u16(s, t, p + 4, offset, e3 + rest);
                    if p + 6 <= t {
                        lemma_step_u16(s, p + 6, u16_of_i16(value.index), rest);
                        lemma_trunc_u16(s, t, p + 6, u16_of_i16(value.index), rest);
                    }
                }
            }
            assert(enc_op(v).len() == 8);
        },
        OpV::I32StoreOffset16Imm16 { ptr, offset, value } => {
            let e1 = enc_reg(ptr);
            let e2 = enc_u16(offset);
            let e3 = enc_u16(u16_of_i16(value.value));
            assert(enc_op(v) + rest =~= enc_u16(tag) + (e1 + (e2 + (e3 + rest))));
            lemma_step_u16(s, p, tag, e1 + (e2 + (e3 + rest)));
            lemma_trunc_u16(s, t, p, tag, e1 + (e2 + (e3 + rest)));
            if p + 2 <= t {
                lemma_step_u16(s, p + 2, u16_of_i16(ptr.index), e2 + (e3 + rest));
                lemma_trunc_u16(s, t, p + 2, u16_of_i16(ptr.index), e2 + (e3 + rest));
                if p + 4 <= t {
                    lemma_step_u16(s, p + 4, offset, e3 + rest);
                    lemma_trunc_u16(s, t, p + 4, offset, e3 + rest);
                    if p + 6 <= t {
                        lemma_step_u16(s, p + 6, u16_of_i16(value.value), rest);
                        lemma_trunc_u16(s, t, p + 6, u16_of_i16(value.value), rest);
                    }
                }
            }
            assert(enc_op(v).len() == 8);
        },
        OpV::I32StoreAt { value, address } => {
            let e1 = enc_reg(value);
            let e2 = enc_u32(address);
            assert(enc_op(v) + rest =~= enc_u16(tag) + (e1 + (e2 + rest)));
            lemma_step_u16(s, p, tag, e1 + (e2 + rest));
            lemma_trunc_u16(s, t, p, tag, e1 + (e2 + rest));
            if p + 2 <= t {
                lemma_step_u16(s, p + 2, u16_of_i16(value.index), e2 + rest);
                lemma_trunc_u16(s, t, p + 2, u16_of_i16(value.index), e2 + rest);
                if p + 4 <= t {
                    lemma_step_u32(s, p + 4, address, rest);
                    lemma_trunc_u32(s, t, p + 4, address, rest);
                }
            }
            assert(enc_op(v).len() == 8);
        },
        OpV::I32StoreAtImm16 { value, address } => {
            let e1 = enc_u16(u16_of_i16(value.value));
            let e2 = enc_u32(address);
            assert(enc_op(v) + rest =~= enc_u16(tag) + (e1 + (e2 + rest)));
            lemma_step_u16(s, p, tag, e1 + (e2 + rest));
            lemma_trunc_u16(s, t, p, tag, e1 + (e2 + rest));
            if p + 2 <= t {
                lemma_step_u16(s, p + 2, u16_of_i16(value.value), e2 + rest);
                lemma_trunc_u16(s, t, p + 2, u16_of_i16(value.value), e2 + rest);
                if p + 4 <= t {
                    lemma_step_u32(s, p + 4, address, rest);
                    lemma_trunc_u32(s, t, p + 4, address, rest);
                }
            }
            assert(enc_op(v).len() == 8);
        },
        OpV::RegisterAndImm32 { reg, imm } => {
            let e1 = enc_reg(reg);
            let e2 = enc_u32(imm.bits);
            assert(enc_op(v) + rest =~= enc_u16(tag) + (e1 + (e2 + rest)));
            lemma_step_u16(s, p, tag, e1 + (e2 + rest));
            lemma_trunc_u16(s, t, p, tag, e1 + (e2 + rest));
            if p + 2 <= t {
                lemma_step_u16(s, p + 2, u16_of_i16(reg.index), e2 + rest);
                lemma_trunc_u16(s, t, p + 2, u16_of_i16(reg.index), e2 + rest);
                if p + 4 <= t {
                    lemma_step_u32(s, p + 4, imm.bits, rest);
                    lemma_trunc_u32(s, t, p + 4, imm.bits, rest);
                }
            }
            assert(enc_op(v).len() == 8);
        },
        OpV::Imm16AndImm32 { imm16, imm32 } => {
            let e1 = enc_u16(u16_of_i16(imm16.value));
            let e2 = enc_u32(imm32.bits);
            assert(enc_op(v) + rest =~= enc_u16(tag) + (e1 + (e2 + rest)));
            lemma_step_u16(s, p, tag, e1 + (e2 + rest));
            lemma_trunc_u16(s, t, p, tag, e1 + (e2 + rest));
            if p + 2 <= t {
                lemma_step_u16(s, p + 2, u16_of_i16(imm16.value), e2 + rest);
                lemma_trunc_u16(s, t, p + 2, u16_of_i16(imm16.value), e2 + rest);
                if p + 4 <= t {
                    lemma_step_u32(s, p + 4, imm32.bits, rest);
                    lemma_trunc_u32(s, t, p + 4, imm32.bits, rest);
                }
            }
            assert(enc_op(v).len() == 8);
        },
        OpV::MemoryIndex { memory } => {
            let e1 = enc_u16(memory.index);
            assert(enc_op(v) + rest =~= enc_u16(tag) + (e1 + rest));
            lemma_step_u16(s, p, tag, e1 + rest);
            lemma_trunc_u16(s, t, p, tag, e1 + rest);
            if p + 2 <= t {
                lemma_step_u16(s, p + 2, memory.index, rest);
                lemma_trunc_u16(s, t, p + 2, memory.index, rest);
            }
            assert(enc_op(v).len() == 4);
        },
        OpV::ReturnImm32 { value } => {
            let e1 = enc_u32(value.bits);
            assert(enc_op(v) + rest =~= enc_u16(tag) + (e1 + rest));
            lemma_step_u16(s, p, tag, e1 + rest);
            lemma_trunc_u16(s, t, p, tag, e1 + rest);
            if p + 2 <= t {
                lemma_step_u32(s, p + 2, value.bits, rest);
                lemma_trunc_u32(s, t, p + 2, value.bits, rest);
            }
            assert(enc_op(v).len() == 6);
        },
        OpV::I64LeU { result, lhs, rhs } => {
            let e1 = enc_reg(result);
            let e2 = enc_reg(lhs);
            let e3 = enc_reg(rhs);
            assert(enc_op(v) + rest =~= enc_u16(tag) + (e1 + (e2 + (e3 + rest))));
            lemma_step_u16(s, p, tag, e1 + (e2 + (e3 + rest)));
            lemma_trunc_u16(s, t, p, tag, e1 + (e2 + (e3 + rest)));
            if p + 2 <= t {
                lemma_step_u16(s, p + 2, u16_of_i16(result.index), e2 + (e3 + rest));
                lemma_trunc_u16(s, t, p + 2, u16_of_i16(result.index), e2 + (e3 + rest));
                if p + 4 <= t {
                    lemma_step_u16(s, p + 4, u16_of_i16(lhs.index), e3 + rest);
                    lemma_trunc_u16(s, t, p + 4, u16_of_i16(lhs.index), e3 + rest);
                    if p + 6 <= t {
                        lemma_step_u16(s, p + 6, u16_of_i16(rhs.index), rest);
                        lemma_trunc_u16(s, t, p + 6, u16_of_i16(rhs.index), rest);
                    }
                }
            }
            assert(enc_op(v).len() == 8);
        },
    }
}

} // verus!
