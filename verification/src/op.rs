//! The instruction schema: a closed list of instruction variants, each an
//! opcode followed by fixed-layout operand fields, together with the
//! mathematical view of an instruction that the codec contracts speak of.

use crate::prim::{
    i16_of_u16, u16_to_i16, AnyConst16, AnyConst32, BranchTableTarget, Const16, Memory, NonZeroU16,
    Reg, RegSpan, Sign, TrapCode,
};
use crate::wire::{le16, read_le16};
use vstd::prelude::*;

verus! {

/// A length-prefixed run of 16-bit elements embedded in the byte stream,
/// borrowed from it and decoded on access: elements sit at arbitrary
/// (unaligned) offsets, so a read copies the two bytes out before
/// interpreting them.
#[derive(Clone, Copy, Debug, PartialEq, Eq)]
pub struct Slice<'op> {
    /// The number of elements.
    pub len: u16,
    /// The borrowed element data: exactly two bytes per element.
    pub bytes: &'op [u8],
}

impl<'op> View for Slice<'op> {
    type V = Seq<Reg>;

    /// The elements the slice holds, each read as a register index.
    open spec fn view(&self) -> Seq<Reg> {
        Seq::new(
            self.len as nat,
            |i: int| Reg { index: i16_of_u16(le16(self.bytes@, 2 * i)) },
        )
    }
}

impl<'op> Slice<'op> {
    /// True when the trailing byte count matches the element count.
    pub open spec fn wf(self) -> bool {
        self.bytes@.len() == 2 * self.len as int
    }

    /// Wraps `bytes` as a slice of `len` 16-bit elements.
    pub fn new(bytes: &'op [u8], len: u16) -> (r: Self)
        requires
            bytes@.len() == 2 * len as int,
        ensures
            r == (Slice { len, bytes }),
            r.wf(),
    {
        Slice { len, bytes }
    }

    /// Returns the number of elements.
    pub fn length(&self) -> (r: u16)
        ensures
            r as int == self@.len(),
    {
        self.len
    }

    /// Reads element `i`, copying its bytes out of the stream before
    /// interpreting them.
    pub fn get(&self, i: u16) -> (r: Reg)
        requires
            self.wf(),
            i < self@.len(),
        ensures
            r == self@[i as int],
    {
        let word: u16 = read_le16(self.bytes, 2 * (i as usize));
        Reg { index: u16_to_i16(word) }
    }
}

/// The opcode of an instruction: a dense 16-bit discriminant.
#[derive(Clone, Copy, Debug, PartialEq, Eq, Structural)]
pub enum OpCode {
    /// `Trap`
    Trap,
    /// `Return`
    Return,
    /// `ReturnReg`
    ReturnReg,
    /// `BranchTableTarget`
    BranchTableTarget,
    /// `ApplySign`
    ApplySign,
    /// `CopyBool`
    CopyBool,
    /// `I32DivUImm16`
    I32DivUImm16,
    /// `CopyMany`
    CopyMany,
    /// `I32Store8Offset16Imm`
    I32Store8Offset16Imm,
    /// `I32Store`
    I32Store,
    /// `I32StoreImm16`
    I32StoreImm16,
    /// `I32StoreOffset16`
    I32StoreOffset16,
    /// `I32StoreOffset16Imm16`
    I32StoreOffset16Imm16,
    /// `I32StoreAt`
    I32StoreAt,
    /// `I32StoreAtImm16`
    I32StoreAtImm16,
    /// `RegisterAndImm32`
    RegisterAndImm32,
    /// `Imm16AndImm32`
    Imm16AndImm32,
    /// `MemoryIndex`
    MemoryIndex,
    /// `ReturnImm32`
    ReturnImm32,
    /// `I64LeU`
    I64LeU,
}

/// The largest opcode discriminant; discriminants are assigned densely
/// from 0, so exactly the words in `0..=MAX_OP` are valid opcodes.
pub const MAX_OP: u16 = 19;

/// The discriminant of an opcode.
pub open spec fn op_code_tag(c: OpCode) -> u16 {
    match c {
        OpCode::Trap => 0,
        OpCode::Return => 1,
        OpCode::ReturnReg => 2,
        OpCode::BranchTableTarget => 3,
        OpCode::ApplySign => 4,
        OpCode::CopyBool => 5,
        OpCode::I32DivUImm16 => 6,
        OpCode::CopyMany => 7,
        OpCode::I32Store8Offset16Imm => 8,
        OpCode::I32Store => 9,
        OpCode::I32StoreImm16 => 10,
        OpCode::I32StoreOffset16 => 11,
        OpCode::I32StoreOffset16Imm16 => 12,
        OpCode::I32StoreAt => 13,
        OpCode::I32StoreAtImm16 => 14,
        OpCode::RegisterAndImm32 => 15,
        OpCode::Imm16AndImm32 => 16,
        OpCode::MemoryIndex => 17,
        OpCode::ReturnImm32 => 18,
        OpCode::I64LeU => 19,
    }
}

/// The opcode a discriminant stands for, if any.
pub open spec fn op_code_from_tag(tag: u16) -> Option<OpCode> {
    if tag == 0 {
        Some(OpCode::Trap)
    } else if tag == 1 {
        Some(OpCode::Return)
    } else if tag == 2 {
        Some(OpCode::ReturnReg)
    } else if tag == 3 {
        Some(OpCode::BranchTableTarget)
    } else if tag == 4 {
        Some(OpCode::ApplySign)
    } else if tag == 5 {
        Some(OpCode::CopyBool)
    } else if tag == 6 {
        Some(OpCode::I32DivUImm16)
    } else if tag == 7 {
        Some(OpCode::CopyMany)
    } else if tag == 8 {
        Some(OpCode::I32Store8Offset16Imm)
    } else if tag == 9 {
        Some(OpCode::I32Store)
    } else if tag == 10 {
        Some(OpCode::I32StoreImm16)
    } else if tag == 11 {
        Some(OpCode::I32StoreOffset16)
    } else if tag == 12 {
        Some(OpCode::I32StoreOffset16Imm16)
    } else if tag == 13 {
        Some(OpCode::I32StoreAt)
    } else if tag == 14 {
        Some(OpCode::I32StoreAtImm16)
    } else if tag == 15 {
        Some(OpCode::RegisterAndImm32)
    } else if tag == 16 {
        Some(OpCode::Imm16AndImm32)
    } else if tag == 17 {
        Some(OpCode::MemoryIndex)
    } else if tag == 18 {
        Some(OpCode::ReturnImm32)
    } else if tag == 19 {
        Some(OpCode::I64LeU)
    } else {
        None
    }
}

/// Returns the opcode a word stands for, or `None` for a word outside
/// the valid range.
pub fn op_code_from_u16(tag: u16) -> (r: Option<OpCode>)
    ensures
        r == op_code_from_tag(tag),
{
    match tag {
        0 => Some(OpCode::Trap),
        1 => Some(OpCode::Return),
        2 => Some(OpCode::ReturnReg),
        3 => Some(OpCode::BranchTableTarget),
        4 => Some(OpCode::ApplySign),
        5 => Some(OpCode::CopyBool),
        6 => Some(OpCode::I32DivUImm16),
        7 => Some(OpCode::CopyMany),
        8 => Some(OpCode::I32Store8Offset16Imm),
        9 => Some(OpCode::I32Store),
        10 => Some(OpCode::I32StoreImm16),
        11 => Some(OpCode::I32StoreOffset16),
        12 => Some(OpCode::I32StoreOffset16Imm16),
        13 => Some(OpCode::I32StoreAt),
        14 => Some(OpCode::I32StoreAtImm16),
        15 => Some(OpCode::RegisterAndImm32),
        16 => Some(OpCode::Imm16AndImm32),
        17 => Some(OpCode::MemoryIndex),
        18 => Some(OpCode::ReturnImm32),
        19 => Some(OpCode::I64LeU),
        _ => None,
    }
}

/// Returns the discriminant word of an opcode.
pub fn op_code_to_u16(c: OpCode) -> (r: u16)
    ensures
        r == op_code_tag(c),
{
    match c {
        OpCode::Trap => 0,
        OpCode::Return => 1,
        OpCode::ReturnReg => 2,
        OpCode::BranchTableTarget => 3,
        OpCode::ApplySign => 4,
        OpCode::CopyBool => 5,
        OpCode::I32DivUImm16 => 6,
        OpCode::CopyMany => 7,
        OpCode::I32Store8Offset16Imm => 8,
        OpCode::I32Store => 9,
        OpCode::I32StoreImm16 => 10,
        OpCode::I32StoreOffset16 => 11,
        OpCode::I32StoreOffset16Imm16 => 12,
        OpCode::I32StoreAt => 13,
        OpCode::I32StoreAtImm16 => 14,
        OpCode::RegisterAndImm32 => 15,
        OpCode::Imm16AndImm32 => 16,
        OpCode::MemoryIndex => 17,
        OpCode::ReturnImm32 => 18,
        OpCode::I64LeU => 19,
    }
}

/// One decoded instruction. Inline-slice operands borrow from the byte
/// stream the instruction was decoded from.
#[derive(Clone, Copy, Debug, PartialEq)]
pub enum Op<'op> {
    /// Traps with the given trap code.
    Trap {
        /// The cause of the trap.
        trap_code: TrapCode,
    },
    /// Returns from the current function with no value.
    Return,
    /// Returns the value held by a register.
    ReturnReg {
        /// The register holding the returned value.
        value: Reg,
    },
    /// One arm of a branch table: the registers it forwards and the
    /// offset it branches by.
    BranchTableTarget {
        /// The registers forwarded to the target.
        results: RegSpan,
        /// The branch offset of this arm.
        offset: BranchTableTarget,
    },
    /// Applies a sign to the value of a register.
    ApplySign {
        /// The register receiving the signed value.
        result: Reg,
        /// The register holding the input value.
        input: Reg,
        /// The sign to apply.
        sign: Sign,
    },
    /// Writes a boolean into a register.
    CopyBool {
        /// The register receiving the value.
        result: Reg,
        /// The boolean value written.
        value: bool,
    },
    /// Unsigned 32-bit division by a 16-bit immediate divisor, which a
    /// well-formed stream never encodes as zero.
    I32DivUImm16 {
        /// The register receiving the quotient.
        result: Reg,
        /// The register holding the dividend.
        lhs: Reg,
        /// The non-zero immediate divisor.
        rhs: NonZeroU16,
    },
    /// Copies many registers into a span of result registers.
    CopyMany {
        /// The first result register of the contiguous destination run.
        results: RegSpan,
        /// The source registers, inline in the stream.
        values: Slice<'op>,
    },
    /// Stores the low 8 bits of an immediate through a pointer register
    /// plus a 16-bit offset, into the default memory.
    I32Store8Offset16Imm {
        /// The register holding the base address.
        ptr: Reg,
        /// The constant byte offset.
        offset: u16,
        /// The immediate value stored.
        value: i8,
    },
    /// Stores a 32-bit register value; the value register and the full
    /// 32-bit offset follow in a `RegisterAndImm32` parameter slot.
    I32Store {
        /// The register holding the base address.
        ptr: Reg,
        /// The linear memory written.
        memory: Memory,
    },
    /// Stores a 32-bit immediate; the immediate and the full 32-bit
    /// offset follow in an `Imm16AndImm32` parameter slot.
    I32StoreImm16 {
        /// The register holding the base address.
        ptr: Reg,
        /// The linear memory written.
        memory: Memory,
    },
    /// Stores a 32-bit register value through a pointer register plus a
    /// 16-bit offset, into the default memory.
    I32StoreOffset16 {
        /// The register holding the base address.
        ptr: Reg,
        /// The constant byte offset.
        offset: u16,
        /// The register holding the stored value.
        value: Reg,
    },
    /// Stores a widened 16-bit immediate through a pointer register plus
    /// a 16-bit offset, into the default memory.
    I32StoreOffset16Imm16 {
        /// The register holding the base address.
        ptr: Reg,
        /// The constant byte offset.
        offset: u16,
        /// The immediate value stored.
        value: Const16,
    },
    /// Stores a 32-bit register value at an absolute address; a
    /// `MemoryIndex` parameter slot may follow to select the memory.
    I32StoreAt {
        /// The register holding the stored value.
        value: Reg,
        /// The absolute address written.
        address: u32,
    },
    /// Stores a widened 16-bit immediate at an absolute address.
    I32StoreAtImm16 {
        /// The immediate value stored.
        value: Const16,
        /// The absolute address written.
        address: u32,
    },
    /// A parameter slot carrying a register and a 32-bit immediate for
    /// the preceding instruction.
    RegisterAndImm32 {
        /// The register operand.
        reg: Reg,
        /// The 32-bit immediate operand.
        imm: AnyConst32,
    },
    /// A parameter slot carrying a 16-bit and a 32-bit immediate for the
    /// preceding instruction.
    Imm16AndImm32 {
        /// The 16-bit immediate operand.
        imm16: AnyConst16,
        /// The 32-bit immediate operand.
        imm32: AnyConst32,
    },
    /// A parameter slot selecting a linear memory for the preceding
    /// instruction.
    MemoryIndex {
        /// The linear memory selected.
        memory: Memory,
    },
    /// Returns a 32-bit immediate value.
    ReturnImm32 {
        /// The immediate value returned.
        value: AnyConst32,
    },
    /// Unsigned 64-bit less-or-equal comparison of two registers.
    I64LeU {
        /// The register receiving the boolean result.
        result: Reg,
        /// The register holding the left operand.
        lhs: Reg,
        /// The register holding the right operand.
        rhs: Reg,
    },
}

/// The mathematical reading of one instruction: identical to [`Op`],
/// with inline slices read off as the element sequences they hold.
pub enum OpV {
    /// Traps with the given trap code.
    Trap { trap_code: TrapCode },
    /// Returns with no value.
    Return,
    /// Returns the value held by a register.
    ReturnReg { value: Reg },
    /// One arm of a branch table.
    BranchTableTarget { results: RegSpan, offset: BranchTableTarget },
    /// Applies a sign to the value of a register.
    ApplySign { result: Reg, input: Reg, sign: Sign },
    /// Writes a boolean into a register.
    CopyBool { result: Reg, value: bool },
    /// Unsigned 32-bit division by a non-zero 16-bit immediate.
    I32DivUImm16 { result: Reg, lhs: Reg, rhs: NonZeroU16 },
    /// Copies many registers into a span of result registers.
    CopyMany { results: RegSpan, values: Seq<Reg> },
    /// Stores the low 8 bits of an immediate, offset-16 form.
    I32Store8Offset16Imm { ptr: Reg, offset: u16, value: i8 },
    /// Stores a 32-bit register value, full form.
    I32Store { ptr: Reg, memory: Memory },
    /// Stores a 32-bit immediate, full form.
    I32StoreImm16 { ptr: Reg, memory: Memory },
    /// Stores a 32-bit register value, offset-16 form.
    I32StoreOffset16 { ptr: Reg, offset: u16, value: Reg },
    /// Stores a widened 16-bit immediate, offset-16 form.
    I32StoreOffset16Imm16 { ptr: Reg, offset: u16, value: Const16 },
    /// Stores a 32-bit register value at an absolute address.
    I32StoreAt { value: Reg, address: u32 },
    /// Stores a widened 16-bit immediate at an absolute address.
    I32StoreAtImm16 { value: Const16, address: u32 },
    /// A parameter slot: register and 32-bit immediate.
    RegisterAndImm32 { reg: Reg, imm: AnyConst32 },
    /// A parameter slot: 16-bit and 32-bit immediates.
    Imm16AndImm32 { imm16: AnyConst16, imm32: AnyConst32 },
    /// A parameter slot selecting a linear memory.
    MemoryIndex { memory: Memory },
    /// Returns a 32-bit immediate value.
    ReturnImm32 { value: AnyConst32 },
    /// Unsigned 64-bit less-or-equal comparison of two registers.
    I64LeU { result: Reg, lhs: Reg, rhs: Reg },
}

impl<'op> View for Op<'op> {
    type V = OpV;

    /// The mathematical reading of this instruction.
    open spec fn view(&self) -> OpV {
        match *self {
            Op::Trap { trap_code } => OpV::Trap { trap_code },
            Op::Return => OpV::Return,
            Op::ReturnReg { value } => OpV::ReturnReg { value },
            Op::BranchTableTarget { results, offset } => OpV::BranchTableTarget {
                results,
                offset,
            },
            Op::ApplySign { result, input, sign } => OpV::ApplySign { result, input, sign },
            Op::CopyBool { result, value } => OpV::CopyBool { result, value },
            Op::I32DivUImm16 { result, lhs, rhs } => OpV::I32DivUImm16 { result, lhs, rhs },
            Op::CopyMany { results, values } => OpV::CopyMany { results, values: values@ },
            Op::I32Store8Offset16Imm { ptr, offset, value } => OpV::I32Store8Offset16Imm {
                ptr,
                offset,
                value,
            },
            Op::I32Store { ptr, memory } => OpV::I32Store { ptr, memory },
            Op::I32StoreImm16 { ptr, memory } => OpV::I32StoreImm16 { ptr, memory },
            Op::I32StoreOffset16 { ptr, offset, value } => OpV::I32StoreOffset16 {
                ptr,
                offset,
                value,
            },
            Op::I32StoreOffset16Imm16 { ptr, offset, value } => OpV::I32StoreOffset16Imm16 {
                ptr,
                offset,
                value,
            },
            Op::I32StoreAt { value, address } => OpV::I32StoreAt { value, address },
            Op::I32StoreAtImm16 { value, address } => OpV::I32StoreAtImm16 { value, address },
            Op::RegisterAndImm32 { reg, imm } => OpV::RegisterAndImm32 { reg, imm },
            Op::Imm16AndImm32 { imm16, imm32 } => OpV::Imm16AndImm32 { imm16, imm32 },
            Op::MemoryIndex { memory } => OpV::MemoryIndex { memory },
            Op::ReturnImm32 { value } => OpV::ReturnImm32 { value },
            Op::I64LeU { result, lhs, rhs } => OpV::I64LeU { result, lhs, rhs },
        }
    }
}

/// The opcode of an instruction reading.
pub open spec fn op_code_of(v: OpV) -> OpCode {
    match v {
        OpV::Trap { .. } => OpCode::Trap,
        OpV::Return => OpCode::Return,
        OpV::ReturnReg { .. } => OpCode::ReturnReg,
        OpV::BranchTableTarget { .. } => OpCode::BranchTableTarget,
        OpV::ApplySign { .. } => OpCode::ApplySign,
        OpV::CopyBool { .. } => OpCode::CopyBool,
        OpV::I32DivUImm16 { .. } => OpCode::I32DivUImm16,
        OpV::CopyMany { .. } => OpCode::CopyMany,
        OpV::I32Store8Offset16Imm { .. } => OpCode::I32Store8Offset16Imm,
        OpV::I32Store { .. } => OpCode::I32Store,
        OpV::I32StoreImm16 { .. } => OpCode::I32StoreImm16,
        OpV::I32StoreOffset16 { .. } => OpCode::I32StoreOffset16,
        OpV::I32StoreOffset16Imm16 { .. } => OpCode::I32StoreOffset16Imm16,
        OpV::I32StoreAt { .. } => OpCode::I32StoreAt,
        OpV::I32StoreAtImm16 { .. } => OpCode::I32StoreAtImm16,
        OpV::RegisterAndImm32 { .. } => OpCode::RegisterAndImm32,
        OpV::Imm16AndImm32 { .. } => OpCode::Imm16AndImm32,
        OpV::MemoryIndex { .. } => OpCode::MemoryIndex,
        OpV::ReturnImm32 { .. } => OpCode::ReturnImm32,
        OpV::I64LeU { .. } => OpCode::I64LeU,
    }
}

/// True when an instruction reading respects the schema's field
/// invariants, so that it has an encoding.
pub open spec fn op_wf(v: OpV) -> bool {
    match v {
        OpV::I32DivUImm16 { rhs, .. } => rhs.wf(),
        OpV::CopyMany { values, .. } => values.len() <= 0xFFFF,
        _ => true,
    }
}

impl<'op> Op<'op> {
    /// True when every inline slice of the instruction is well-formed.
    pub open spec fn slices_wf(self) -> bool {
        self matches Op::CopyMany { values, .. } ==> values.wf()
    }

    /// Returns the opcode of this instruction.
    pub fn op_code(&self) -> (r: OpCode)
        ensures
            r == op_code_of(self@),
    {
        match *self {
            Op::Trap { .. } => OpCode::Trap,
            Op::Return => OpCode::Return,
            Op::ReturnReg { .. } => OpCode::ReturnReg,
            Op::BranchTableTarget { .. } => OpCode::BranchTableTarget,
            Op::ApplySign { .. } => OpCode::ApplySign,
            Op::CopyBool { .. } => OpCode::CopyBool,
            Op::I32DivUImm16 { .. } => OpCode::I32DivUImm16,
            Op::CopyMany { .. } => OpCode::CopyMany,
            Op::I32Store8Offset16Imm { .. } => OpCode::I32Store8Offset16Imm,
            Op::I32Store { .. } => OpCode::I32Store,
            Op::I32StoreImm16 { .. } => OpCode::I32StoreImm16,
            Op::I32StoreOffset16 { .. } => OpCode::I32StoreOffset16,
            Op::I32StoreOffset16Imm16 { .. } => OpCode::I32StoreOffset16Imm16,
            Op::I32StoreAt { .. } => OpCode::I32StoreAt,
            Op::I32StoreAtImm16 { .. } => OpCode::I32StoreAtImm16,
            Op::RegisterAndImm32 { .. } => OpCode::RegisterAndImm32,
            Op::Imm16AndImm32 { .. } => OpCode::Imm16AndImm32,
            Op::MemoryIndex { .. } => OpCode::MemoryIndex,
            Op::ReturnImm32 { .. } => OpCode::ReturnImm32,
            Op::I64LeU { .. } => OpCode::I64LeU,
        }
    }
}

/// Every opcode's discriminant lies in `0..=MAX_OP`, some opcode has the
/// discriminant `MAX_OP` itself, and a word is a valid opcode exactly
/// when it lies in `0..=MAX_OP`: the discriminants are dense.
pub proof fn lemma_op_code_dense()
    ensures
        forall|c: OpCode| #[trigger] op_code_tag(c) <= MAX_OP,
        op_code_tag(OpCode::I64LeU) == MAX_OP,
        forall|tag: u16| (tag <= MAX_OP) <==> op_code_from_tag(tag) is Some,
        forall|c: OpCode| op_code_from_tag(#[trigger] op_code_tag(c)) == Some(c),
        forall|tag: u16|
            #[trigger] op_code_from_tag(tag) matches Some(c) ==> op_code_tag(c) == tag,
{
}

} // verus!
