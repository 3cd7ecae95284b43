//! Primitive operand types of the instruction schema, and the two's
//! complement correspondence between signed fields and the unsigned
//! words that carry them in the byte stream.

use vstd::prelude::*;

verus! {

/// A register: a small signed index into the execution frame.
#[derive(Clone, Copy, Debug, PartialEq, Eq, Structural)]
pub struct Reg {
    /// The index of the register.
    pub index: i16,
}

/// A contiguous run of registers, described by its head register.
/// The length of the run is carried by the enclosing instruction.
#[derive(Clone, Copy, Debug, PartialEq, Eq, Structural)]
pub struct RegSpan {
    /// The first register of the span.
    pub head: Reg,
}

/// The destination of one branch-table arm, as a signed byte offset.
#[derive(Clone, Copy, Debug, PartialEq, Eq, Structural)]
pub struct BranchTableTarget {
    /// The branch offset payload.
    pub value: i32,
}

/// The sign of a number: encoded as one byte, 0 for positive and
/// 1 for negative.
#[derive(Clone, Copy, Debug, PartialEq, Eq, Structural)]
pub enum Sign {
    /// A positive sign.
    Pos,
    /// A negative sign.
    Neg,
}

/// A 16-bit immediate that the executor widens to the operand type of
/// the enclosing instruction.
#[derive(Clone, Copy, Debug, PartialEq, Eq, Structural)]
pub struct Const16 {
    /// The compact immediate value.
    pub value: i16,
}

/// A 16-bit immediate of any interpretation, carried as raw bits.
#[derive(Clone, Copy, Debug, PartialEq, Eq, Structural)]
pub struct AnyConst16 {
    /// The raw immediate value.
    pub value: i16,
}

/// A 32-bit immediate of any interpretation, carried as raw bits.
#[derive(Clone, Copy, Debug, PartialEq, Eq, Structural)]
pub struct AnyConst32 {
    /// The raw immediate bits.
    pub bits: u32,
}

/// A 16-bit unsigned integer field that never holds zero.
#[derive(Clone, Copy, Debug, PartialEq, Eq, Structural)]
pub struct NonZeroU16 {
    /// The value; well-formed instructions never carry zero here.
    pub value: u16,
}

impl NonZeroU16 {
    /// True when the field respects its non-zero invariant.
    pub open spec fn wf(self) -> bool {
        self.value != 0
    }
}

/// An index identifying one linear memory of the host store.
#[derive(Clone, Copy, Debug, PartialEq, Eq, Structural)]
pub struct Memory {
    /// The index of the linear memory.
    pub index: u16,
}

impl Memory {
    /// True for the default linear memory, the one at index 0, which the
    /// executor reaches through its fast path.
    pub open spec fn spec_is_default(self) -> bool {
        self.index == 0
    }

    /// Returns whether this is the default linear memory.
    #[verifier::when_used_as_spec(spec_is_default)]
    pub fn is_default(self) -> (r: bool)
        ensures
            r == self.spec_is_default(),
    {
        self.index == 0
    }
}

/// A closed enumeration of runtime failure kinds.
#[derive(Clone, Copy, Debug, PartialEq, Eq, Structural)]
pub enum TrapCode {
    /// Unreachable code was executed.
    UnreachableCodeReached,
    /// A linear memory access was out of bounds.
    MemoryOutOfBounds,
    /// A table access was out of bounds.
    TableOutOfBounds,
    /// An indirect call hit a null table entry.
    IndirectCallToNull,
    /// An integer division or remainder by zero.
    IntegerDivisionByZero,
    /// An integer operation overflowed.
    IntegerOverflow,
    /// A float-to-integer conversion was out of range.
    BadConversionToInteger,
    /// An indirect call found a mismatched signature.
    BadSignature,
    /// The execution budget was exhausted.
    OutOfFuel,
    /// A growth operation exceeded its limit.
    GrowthOperationLimited,
}

/// The byte tag of a trap code; tags are assigned densely from 0.
pub open spec fn trap_code_tag(t: TrapCode) -> u8 {
    match t {
        TrapCode::UnreachableCodeReached => 0,
        TrapCode::MemoryOutOfBounds => 1,
        TrapCode::TableOutOfBounds => 2,
        TrapCode::IndirectCallToNull => 3,
        TrapCode::IntegerDivisionByZero => 4,
        TrapCode::IntegerOverflow => 5,
        TrapCode::BadConversionToInteger => 6,
        TrapCode::BadSignature => 7,
        TrapCode::OutOfFuel => 8,
        TrapCode::GrowthOperationLimited => 9,
    }
}

/// The largest trap-code tag.
pub const MAX_TRAP_CODE: u8 = 9;

/// The trap code a byte tag stands for, if any: exactly the tags in
/// `0..=MAX_TRAP_CODE` are valid.
pub open spec fn trap_code_from_tag(tag: u8) -> Option<TrapCode> {
    if tag == 0 {
        Some(TrapCode::UnreachableCodeReached)
    } else if tag == 1 {
        Some(TrapCode::MemoryOutOfBounds)
    } else if tag == 2 {
        Some(TrapCode::TableOutOfBounds)
    } else if tag == 3 {
        Some(TrapCode::IndirectCallToNull)
    } else if tag == 4 {
        Some(TrapCode::IntegerDivisionByZero)
    } else if tag == 5 {
        Some(TrapCode::IntegerOverflow)
    } else if tag == 6 {
        Some(TrapCode::BadConversionToInteger)
    } else if tag == 7 {
        Some(TrapCode::BadSignature)
    } else if tag == 8 {
        Some(TrapCode::OutOfFuel)
    } else if tag == 9 {
        Some(TrapCode::GrowthOperationLimited)
    } else {
        None
    }
}

/// Returns the trap code a byte stands for, or `None` for an unknown
/// byte.
pub fn trap_code_from_u8(tag: u8) -> (r: Option<TrapCode>)
    ensures
        r == trap_code_from_tag(tag),
{
    match tag {
        0 => Some(TrapCode::UnreachableCodeReached),
        1 => Some(TrapCode::MemoryOutOfBounds),
        2 => Some(TrapCode::TableOutOfBounds),
        3 => Some(TrapCode::IndirectCallToNull),
        4 => Some(TrapCode::IntegerDivisionByZero),
        5 => Some(TrapCode::IntegerOverflow),
        6 => Some(TrapCode::BadConversionToInteger),
        7 => Some(TrapCode::BadSignature),
        8 => Some(TrapCode::OutOfFuel),
        9 => Some(TrapCode::GrowthOperationLimited),
        _ => None,
    }
}

/// Returns the byte tag of a trap code.
pub fn trap_code_to_u8(t: TrapCode) -> (r: u8)
    ensures
        r == trap_code_tag(t),
{
    match t {
        TrapCode::UnreachableCodeReached => 0,
        TrapCode::MemoryOutOfBounds => 1,
        TrapCode::TableOutOfBounds => 2,
        TrapCode::IndirectCallToNull => 3,
        TrapCode::IntegerDivisionByZero => 4,
        TrapCode::IntegerOverflow => 5,
        TrapCode::BadConversionToInteger => 6,
        TrapCode::BadSignature => 7,
        TrapCode::OutOfFuel => 8,
        TrapCode::GrowthOperationLimited => 9,
    }
}

/// Tags and trap codes are in bijection on `0..=MAX_TRAP_CODE`.
pub proof fn lemma_trap_code_tags()
    ensures
        forall|tag: u8| (tag <= MAX_TRAP_CODE) <==> trap_code_from_tag(tag) is Some,
        forall|t: TrapCode| trap_code_from_tag(trap_code_tag(t)) == Some(t),
        forall|tag: u8|
            #[trigger] trap_code_from_tag(tag) matches Some(t) ==> trap_code_tag(t) == tag,
{
}

/// The signed reading of an unsigned 16-bit word, as two's complement.
pub open spec fn i16_of_u16(u: u16) -> i16 {
    if u < 0x8000 {
        u as i16
    } else {
        (u - 0x10000) as i16
    }
}

/// The unsigned word that carries a signed 16-bit value, as two's complement.
pub open spec fn u16_of_i16(v: i16) -> u16 {
    if v >= 0 {
        v as u16
    } else {
        (v + 0x10000) as u16
    }
}

/// The two 16-bit readings are mutually inverse.
pub proof fn lemma_i16_u16_inverse()
    ensures
        forall|v: i16| i16_of_u16(#[trigger] u16_of_i16(v)) == v,
        forall|u: u16| u16_of_i16(#[trigger] i16_of_u16(u)) == u,
{
}

/// Reads an unsigned 16-bit word as a signed value.
pub fn u16_to_i16(u: u16) -> (r: i16)
    ensures
        r == i16_of_u16(u),
{
    if u < 0x8000 {
        u as i16
    } else {
        -((0xFFFFu16 - u) as i16) - 1
    }
}

/// Carries a signed 16-bit value as an unsigned word.
pub fn i16_to_u16(v: i16) -> (r: u16)
    ensures
        r == u16_of_i16(v),
{
    if v >= 0 {
        v as u16
    } else {
        0xFFFFu16 - ((-(v + 1)) as u16)
    }
}

/// The signed reading of an unsigned byte, as two's complement.
pub open spec fn i8_of_u8(u: u8) -> i8 {
    if u < 0x80 {
        u as i8
    } else {
        (u - 0x100) as i8
    }
}

/// The unsigned byte that carries a signed 8-bit value, as two's complement.
pub open spec fn u8_of_i8(v: i8) -> u8 {
    if v >= 0 {
        v as u8
    } else {
        (v + 0x100) as u8
    }
}

/// The two 8-bit readings are mutually inverse.
pub proof fn lemma_i8_u8_inverse()
    ensures
        forall|v: i8| i8_of_u8(#[trigger] u8_of_i8(v)) == v,
        forall|u: u8| u8_of_i8(#[trigger] i8_of_u8(u)) == u,
{
}

/// Reads an unsigned byte as a signed value.
pub fn u8_to_i8(u: u8) -> (r: i8)
    ensures
        r == i8_of_u8(u),
{
    if u < 0x80 {
        u as i8
    } else {
        -((0xFFu8 - u) as i8) - 1
    }
}

/// Carries a signed 8-bit value as an unsigned byte.
pub fn i8_to_u8(v: i8) -> (r: u8)
    ensures
        r == u8_of_i8(v),
{
    if v >= 0 {
        v as u8
    } else {
        0xFFu8 - ((-(v + 1)) as u8)
    }
}

/// The signed reading of an unsigned 32-bit word, as two's complement.
pub open spec fn i32_of_u32(u: u32) -> i32 {
    if u < 0x8000_0000 {
        u as i32
    } else {
        (u - 0x1_0000_0000) as i32
    }
}

/// The unsigned word that carries a signed 32-bit value, as two's complement.
pub open spec fn u32_of_i32(v: i32) -> u32 {
    if v >= 0 {
        v as u32
    } else {
        (v + 0x1_0000_0000) as u32
    }
}

/// The two 32-bit readings are mutually inverse.
pub proof fn lemma_i32_u32_inverse()
    ensures
        forall|v: i32| i32_of_u32(#[trigger] u32_of_i32(v)) == v,
        forall|u: u32| u32_of_i32(#[trigger] i32_of_u32(u)) == u,
{
}

/// Reads an unsigned 32-bit word as a signed value.
pub fn u32_to_i32(u: u32) -> (r: i32)
    ensures
        r == i32_of_u32(u),
{
    if u < 0x8000_0000 {
        u as i32
    } else {
        -((0xFFFF_FFFFu32 - u) as i32) - 1
    }
}

/// Carries a signed 32-bit value as an unsigned word.
pub fn i32_to_u32(v: i32) -> (r: u32)
    ensures
        r == u32_of_i32(v),
{
    if v >= 0 {
        v as u32
    } else {
        0xFFFF_FFFFu32 - ((-(v + 1)) as u32)
    }
}

/// The signed reading of an unsigned 64-bit word, as two's complement.
pub open spec fn i64_of_u64(u: u64) -> i64 {
    if u < 0x8000_0000_0000_0000 {
        u as i64
    } else {
        (u - 0x1_0000_0000_0000_0000) as i64
    }
}

/// The unsigned word that carries a signed 64-bit value, as two's complement.
pub open spec fn u64_of_i64(v: i64) -> u64 {
    if v >= 0 {
        v as u64
    } else {
        (v + 0x1_0000_0000_0000_0000) as u64
    }
}

/// The two 64-bit readings are mutually inverse.
pub proof fn lemma_i64_u64_inverse()
    ensures
        forall|v: i64| i64_of_u64(#[trigger] u64_of_i64(v)) == v,
        forall|u: u64| u64_of_i64(#[trigger] i64_of_u64(u)) == u,
{
}

/// Reads an unsigned 64-bit word as a signed value.
pub fn u64_to_i64(u: u64) -> (r: i64)
    ensures
        r == i64_of_u64(u),
{
    if u < 0x8000_0000_0000_0000 {
        u as i64
    } else {
        -((0xFFFF_FFFF_FFFF_FFFFu64 - u) as i64) - 1
    }
}

/// Carries a signed 64-bit value as an unsigned word.
pub fn i64_to_u64(v: i64) -> (r: u64)
    ensures
        r == u64_of_i64(v),
{
    if v >= 0 {
        v as u64
    } else {
        0xFFFF_FFFF_FFFF_FFFFu64 - ((-(v + 1)) as u64)
    }
}

/// The signed reading of an unsigned 128-bit word, as two's complement.
pub open spec fn i128_of_u128(u: u128) -> i128 {
    if u < 0x8000_0000_0000_0000_0000_0000_0000_0000 {
        u as i128
    } else {
        (u - 0x1_0000_0000_0000_0000_0000_0000_0000_0000) as i128
    }
}

/// The unsigned word that carries a signed 128-bit value, as two's complement.
pub open spec fn u128_of_i128(v: i128) -> u128 {
    if v >= 0 {
        v as u128
    } else {
        (v + 0x1_0000_0000_0000_0000_0000_0000_0000_0000) as u128
    }
}

/// The two 128-bit readings are mutually inverse.
pub proof fn lemma_i128_u128_inverse()
    ensures
        forall|v: i128| i128_of_u128(#[trigger] u128_of_i128(v)) == v,
        forall|u: u128| u128_of_i128(#[trigger] i128_of_u128(u)) == u,
{
}

/// Reads an unsigned 128-bit word as a signed value.
pub fn u128_to_i128(u: u128) -> (r: i128)
    ensures
        r == i128_of_u128(u),
{
    if u < 0x8000_0000_0000_0000_0000_0000_0000_0000 {
        u as i128
    } else {
        -((0xFFFF_FFFF_FFFF_FFFF_FFFF_FFFF_FFFF_FFFFu128 - u) as i128) - 1
    }
}

/// Carries a signed 128-bit value as an unsigned word.
pub fn i128_to_u128(v: i128) -> (r: u128)
    ensures
        r == u128_of_i128(v),
{
    if v >= 0 {
        v as u128
    } else {
        0xFFFF_FFFF_FFFF_FFFF_FFFF_FFFF_FFFF_FFFFu128 - ((-(v + 1)) as u128)
    }
}

} // verus!
