//! The executor's store-instruction family: the multi-word operand
//! protocol. A store instruction occupies two consecutive slots in the
//! stream; the handler fetches its value and offset from the parameter
//! slot that follows, resolves the linear memory, performs the typed
//! write, and leaves the cursor at the start of the next instruction.
//! Peeking a parameter slot of the wrong shape is a contract violation,
//! proved unreachable here rather than checked at run time.

use crate::codec::{dec_op, Decoded};
use crate::decode::UnsafeOpDecoder;
use crate::op::{Op, OpV};
use crate::prim::{u32_of_i32, u64_of_i64, AnyConst16, Const16, Memory, Reg, TrapCode};
use vstd::bytes::{spec_u64_to_le_bytes, u64_to_le_bytes};
use vstd::prelude::*;

verus! {

broadcast use vstd::seq::group_seq_axioms;

/// A raw 64-bit value cell, reinterpreted by each typed operation.
#[derive(Clone, Copy, Debug, PartialEq, Eq, Structural)]
pub struct UntypedVal {
    /// The raw bits of the value.
    pub bits: u64,
}

impl UntypedVal {
    /// The value holding raw bits.
    pub fn from_bits(bits: u64) -> (r: Self)
        ensures
            r.bits == bits,
    {
        UntypedVal { bits }
    }

    /// The cell a 32-bit unsigned value occupies: zero-extended.
    pub fn from_u32(value: u32) -> (r: Self)
        ensures
            r.bits == value,
    {
        UntypedVal { bits: value as u64 }
    }

    /// The cell a 32-bit signed value occupies: its unsigned 32-bit
    /// reading, zero-extended.
    pub fn from_i32(value: i32) -> (r: Self)
        ensures
            r.bits == u32_of_i32(value),
    {
        UntypedVal { bits: crate::prim::i32_to_u32(value) as u64 }
    }

    /// The cell a 64-bit signed value occupies.
    pub fn from_i64(value: i64) -> (r: Self)
        ensures
            r.bits == u64_of_i64(value),
    {
        UntypedVal { bits: crate::prim::i64_to_u64(value) }
    }
}

/// Which typed store primitive an instruction performs.
#[derive(Clone, Copy, Debug, PartialEq, Eq, Structural)]
pub enum StoreKind {
    /// A 32-bit store.
    Store32,
    /// A 64-bit store.
    Store64,
    /// An 8-bit truncating store of a 32-bit value.
    I32Store8,
    /// A 16-bit truncating store of a 32-bit value.
    I32Store16,
    /// An 8-bit truncating store of a 64-bit value.
    I64Store8,
    /// A 16-bit truncating store of a 64-bit value.
    I64Store16,
    /// A 32-bit truncating store of a 64-bit value.
    I64Store32,
}

/// How many bytes a store kind writes.
pub open spec fn store_width(kind: StoreKind) -> int {
    match kind {
        StoreKind::Store32 => 4,
        StoreKind::Store64 => 8,
        StoreKind::I32Store8 => 1,
        StoreKind::I32Store16 => 2,
        StoreKind::I64Store8 => 1,
        StoreKind::I64Store16 => 2,
        StoreKind::I64Store32 => 4,
    }
}

/// Returns how many bytes a store kind writes.
pub fn store_width_of(kind: StoreKind) -> (r: usize)
    ensures
        r == store_width(kind),
{
    match kind {
        StoreKind::Store32 => 4,
        StoreKind::Store64 => 8,
        StoreKind::I32Store8 => 1,
        StoreKind::I32Store16 => 2,
        StoreKind::I64Store8 => 1,
        StoreKind::I64Store16 => 2,
        StoreKind::I64Store32 => 4,
    }
}

/// The bytes a store kind writes for a value: the low bytes of the
/// value's little-endian encoding, which is how a truncating store
/// wraps its operand.
pub open spec fn stored_bytes(kind: StoreKind, value: UntypedVal) -> Seq<u8> {
    spec_u64_to_le_bytes(value.bits).subrange(0, store_width(kind))
}

/// A byte memory with the run at `a` overwritten by `bs`.
pub open spec fn mem_write(m: Seq<u8>, a: int, bs: Seq<u8>) -> Seq<u8> {
    Seq::new(m.len(), |i: int| if a <= i < a + bs.len() { bs[i - a] } else { m[i] })
}

/// The host store: it owns the linear memories, the one at index 0
/// being the default memory of the executor's fast path.
#[derive(Debug)]
pub struct StoreInner {
    /// The linear memories, indexed by `Memory`.
    pub memories: Vec<Vec<u8>>,
}

impl StoreInner {
    /// The linear memories the store owns.
    pub open spec fn mems(self) -> Seq<Vec<u8>> {
        self.memories@
    }

    /// Creates a store owning the given linear memories.
    pub fn new(memories: Vec<Vec<u8>>) -> (r: Self)
        ensures
            r.mems() == memories@,
    {
        StoreInner { memories }
    }
}

/// What a typed store leaves behind: on success the addressed run holds
/// the stored bytes and everything else is unchanged; an access past
/// the end of the memory traps and changes nothing.
pub open spec fn store_post(
    m_old: Seq<u8>,
    m_new: Seq<u8>,
    r: Result<(), TrapCode>,
    a: int,
    bs: Seq<u8>,
) -> bool {
    if a + bs.len() <= m_old.len() {
        &&& r == Ok::<(), TrapCode>(())
        &&& m_new == mem_write(m_old, a, bs)
    } else {
        &&& r == Err::<(), TrapCode>(TrapCode::MemoryOutOfBounds)
        &&& m_new == m_old
    }
}

/// What a store-family handler leaves of the host store: the addressed
/// memory as [`store_post`] says, every other memory untouched.
pub open spec fn store_wrap_post(
    mems_old: Seq<Vec<u8>>,
    mems_new: Seq<Vec<u8>>,
    r: Result<(), TrapCode>,
    mi: int,
    a: int,
    bs: Seq<u8>,
) -> bool {
    &&& mems_new.len() == mems_old.len()
    &&& store_post(mems_old[mi]@, mems_new[mi]@, r, a, bs)
    &&& forall|j: int| 0 <= j < mems_old.len() && j != mi ==> mems_new[j] == mems_old[j]
}

impl UntypedVal {
    /// Performs a typed store into a byte memory: writes the kind's low
    /// bytes of `value` at `address + offset`, or traps without writing
    /// when the run would cross the end of the memory.
    pub fn store_op(
        kind: StoreKind,
        memory: &mut Vec<u8>,
        address: UntypedVal,
        offset: u32,
        value: UntypedVal,
    ) -> (r: Result<(), TrapCode>)
        ensures
            store_post(
                old(memory)@,
                final(memory)@,
                r,
                address.bits + offset,
                stored_bytes(kind, value),
            ),
    {
        proof {
            vstd::bytes::lemma_auto_spec_u64_to_from_le_bytes();
        }
        let width: usize = store_width_of(kind);
        let len: usize = memory.len();
        let a: u64 = address.bits;
        let off: u64 = offset as u64;
        if a > u64::MAX - off {
            return Err(TrapCode::MemoryOutOfBounds);
        }
        let ea: u64 = a + off;
        if ea > u64::MAX - (width as u64) || ea + (width as u64) > (len as u64) {
            return Err(TrapCode::MemoryOutOfBounds);
        }
        let base: usize = ea as usize;
        let bs: Vec<u8> = u64_to_le_bytes(value.bits);
        let mut i: usize = 0;
        while i < width
            invariant
                width == store_width(kind),
                bs@ == spec_u64_to_le_bytes(value.bits),
                bs@.len() == 8,
                width <= 8,
                0 <= i <= width,
                base + width <= memory@.len(),
                base + width <= usize::MAX,
                memory@.len() == old(memory)@.len(),
                memory@ == mem_write(old(memory)@, base as int, bs@.subrange(0, i as int)),
            decreases width - i,
        {
            let b: u8 = bs[i];
            memory[base + i] = b;
            proof {
                assert(memory@ =~= mem_write(
                    old(memory)@,
                    base as int,
                    bs@.subrange(0, i + 1 as int),
                ));
            }
            i = i + 1;
        }
        proof {
            assert(bs@.subrange(0, width as int) =~= stored_bytes(kind, value));
        }
        Ok(())
    }

    /// A 32-bit store.
    pub fn store32(
        memory: &mut Vec<u8>,
        address: UntypedVal,
        offset: u32,
        value: UntypedVal,
    ) -> (r: Result<(), TrapCode>)
        ensures
            store_post(
                old(memory)@,
                final(memory)@,
                r,
                address.bits + offset,
                stored_bytes(StoreKind::Store32, value),
            ),
    {
        Self::store_op(StoreKind::Store32, memory, address, offset, value)
    }

    /// A 64-bit store.
    pub fn store64(
        memory: &mut Vec<u8>,
        address: UntypedVal,
        offset: u32,
        value: UntypedVal,
    ) -> (r: Result<(), TrapCode>)
        ensures
            store_post(
                old(memory)@,
                final(memory)@,
                r,
                address.bits + offset,
                stored_bytes(StoreKind::Store64, value),
            ),
    {
        Self::store_op(StoreKind::Store64, memory, address, offset, value)
    }

    /// An 8-bit truncating store of a 32-bit value.
    pub fn i32_store8(
        memory: &mut Vec<u8>,
        address: UntypedVal,
        offset: u32,
        value: UntypedVal,
    ) -> (r: Result<(), TrapCode>)
        ensures
            store_post(
                old(memory)@,
                final(memory)@,
                r,
                address.bits + offset,
                stored_bytes(StoreKind::I32Store8, value),
            ),
    {
        Self::store_op(StoreKind::I32Store8, memory, address, offset, value)
    }

    /// A 16-bit truncating store of a 32-bit value.
    pub fn i32_store16(
        memory: &mut Vec<u8>,
        address: UntypedVal,
        offset: u32,
        value: UntypedVal,
    ) -> (r: Result<(), TrapCode>)
        ensures
            store_post(
                old(memory)@,
                final(memory)@,
                r,
                address.bits + offset,
                stored_bytes(StoreKind::I32Store16, value),
            ),
    {
        Self::store_op(StoreKind::I32Store16, memory, address, offset, value)
    }

    /// An 8-bit truncating store of a 64-bit value.
    pub fn i64_store8(
        memory: &mut Vec<u8>,
        address: UntypedVal,
        offset: u32,
        value: UntypedVal,
    ) -> (r: Result<(), TrapCode>)
        ensures
            store_post(
                old(memory)@,
                final(memory)@,
                r,
                address.bits + offset,
                stored_bytes(StoreKind::I64Store8, value),
            ),
    {
        Self::store_op(StoreKind::I64Store8, memory, address, offset, value)
    }

    /// A 16-bit truncating store of a 64-bit value.
    pub fn i64_store16(
        memory: &mut Vec<u8>,
        address: UntypedVal,
        offset: u32,
        value: UntypedVal,
    ) -> (r: Result<(), TrapCode>)
        ensures
            store_post(
                old(memory)@,
                final(memory)@,
                r,
                address.bits + offset,
                stored_bytes(StoreKind::I64Store16, value),
            ),
    {
        Self::store_op(StoreKind::I64Store16, memory, address, offset, value)
    }

    /// A 32-bit truncating store of a 64-bit value.
    pub fn i64_store32(
        memory: &mut Vec<u8>,
        address: UntypedVal,
        offset: u32,
        value: UntypedVal,
    ) -> (r: Result<(), TrapCode>)
        ensures
            store_post(
                old(memory)@,
                final(memory)@,
                r,
                address.bits + offset,
                stored_bytes(StoreKind::I64Store32, value),
            ),
    {
        Self::store_op(StoreKind::I64Store32, memory, address, offset, value)
    }
}

/// The executor of a verified instruction stream: an unchecked cursor
/// into the code, the live registers of the execution frame, and the
/// function's constant cells, which negative register indices name.
#[derive(Debug)]
pub struct Executor<'op> {
    /// The instruction pointer: an unchecked decoder into the code.
    ip: UnsafeOpDecoder<'op>,
    /// The live registers of the execution frame.
    regs: Vec<UntypedVal>,
    /// The function's constant cells; register index -1 names the
    /// first, -2 the second, and so on.
    consts: Vec<UntypedVal>,
}

impl<'op> Executor<'op> {
    /// The encoded instruction stream the executor runs.
    pub closed spec fn code(self) -> Seq<u8> {
        self.ip.stream()
    }

    /// The byte position of the instruction pointer.
    pub closed spec fn ip_pos(self) -> int {
        self.ip.position()
    }

    /// The live registers of the execution frame.
    pub closed spec fn registers(self) -> Seq<UntypedVal> {
        self.regs@
    }

    /// The function's constant cells.
    pub closed spec fn constants(self) -> Seq<UntypedVal> {
        self.consts@
    }

    /// The instruction pointer never lies past the end of the code.
    pub closed spec fn wf(self) -> bool {
        self.ip.wf()
    }

    /// True when a register index resolves within this frame: a
    /// non-negative index names a live register, a negative index names
    /// a constant cell, -1 being the first.
    pub open spec fn reg_ok(self, reg: Reg) -> bool {
        if reg.index >= 0 {
            reg.index < self.registers().len()
        } else {
            -1 - reg.index < self.constants().len()
        }
    }

    /// The value a register index resolves to.
    pub open spec fn reg_value(self, reg: Reg) -> UntypedVal {
        if reg.index >= 0 {
            self.registers()[reg.index as int]
        } else {
            self.constants()[-1 - reg.index]
        }
    }

    /// Creates an executor from an instruction pointer, the frame's
    /// live registers, and the function's constant cells.
    pub fn new(ip: UnsafeOpDecoder<'op>, regs: Vec<UntypedVal>, consts: Vec<UntypedVal>) -> (r:
        Self)
        requires
            ip.wf(),
        ensures
            r.wf(),
            r.code() == ip.stream(),
            r.ip_pos() == ip.position(),
            r.registers() == regs@,
            r.constants() == consts@,
    {
        Executor { ip, regs, consts }
    }

    /// Returns the byte position of the instruction pointer.
    pub fn ip_offset(&self) -> (r: usize)
        ensures
            r as int == self.ip_pos(),
    {
        self.ip.pos()
    }

    /// Reads the value a register holds: a live register for a
    /// non-negative index, a constant cell for a negative one.
    pub fn get_register(&self, reg: Reg) -> (r: UntypedVal)
        requires
            self.reg_ok(reg),
        ensures
            r == self.reg_value(reg),
    {
        if reg.index >= 0 {
            self.regs[reg.index as usize]
        } else {
            let cell: i16 = -(reg.index + 1);
            self.consts[cell as usize]
        }
    }

    /// Peeks the register `value` and `offset` parameters that a
    /// two-slot store instruction carries in the `RegisterAndImm32`
    /// parameter slot at the cursor; the cursor does not move. A
    /// verified stream never places any other instruction there, so the
    /// mismatch branch is unreachable by contract.
    pub fn fetch_value_and_offset(&self) -> (r: (Reg, u32))
        requires
            self.wf(),
            dec_op(self.code(), self.ip_pos()) matches Decoded::Found {
                value: OpV::RegisterAndImm32 { .. },
                ..
            },
        ensures
            dec_op(self.code(), self.ip_pos()) matches Decoded::Found {
                value: OpV::RegisterAndImm32 { reg, imm },
                ..
            } && r.0 == reg && r.1 == imm.bits,
    {
        let mut probe = self.ip;
        let op: Op<'op> = probe.decode();
        match op {
            Op::RegisterAndImm32 { reg, imm } => (reg, imm.bits),
            _ => {
                proof {
                    assert(false);
                }
                (Reg { index: 0 }, 0)
            },
        }
    }

    /// Peeks the immediate `value` and `offset` parameters that a
    /// two-slot store instruction carries in the `Imm16AndImm32`
    /// parameter slot at the cursor; the cursor does not move.
    pub fn fetch_value_and_offset_imm(&self) -> (r: (AnyConst16, u32))
        requires
            self.wf(),
            dec_op(self.code(), self.ip_pos()) matches Decoded::Found {
                value: OpV::Imm16AndImm32 { .. },
                ..
            },
        ensures
            dec_op(self.code(), self.ip_pos()) matches Decoded::Found {
                value: OpV::Imm16AndImm32 { imm16, imm32 },
                ..
            } && r.0 == imm16 && r.1 == imm32.bits,
    {
        let mut probe = self.ip;
        let op: Op<'op> = probe.decode();
        match op {
            Op::Imm16AndImm32 { imm16, imm32 } => (imm16, imm32.bits),
            _ => {
                proof {
                    assert(false);
                }
                (AnyConst16 { value: 0 }, 0)
            },
        }
    }

    /// Peeks the linear memory an absolute-address store works on: a
    /// `MemoryIndex` parameter slot at the cursor selects it, the
    /// default memory standing in when none follows. The cursor does
    /// not move; the second component says whether a parameter slot was
    /// found, so the handler can step over it once the store succeeds.
    pub fn fetch_optional_memory(&self) -> (r: (Memory, bool))
        requires
            self.wf(),
            self.ip_pos() == self.code().len() || dec_op(self.code(), self.ip_pos()) is Found,
        ensures
            match dec_op(self.code(), self.ip_pos()) {
                Decoded::Found { value: OpV::MemoryIndex { memory }, .. } => r.0 == memory && r.1
                    == true,
                _ => r.0 == (Memory { index: 0 }) && r.1 == false,
            },
    {
        if self.ip.pos() == self.ip.stream_len() {
            return (Memory { index: 0 }, false);
        }
        let mut probe = self.ip;
        let op: Op<'op> = probe.decode();
        match op {
            Op::MemoryIndex { memory } => (memory, true),
            _ => (Memory { index: 0 }, false),
        }
    }

    /// Advances the instruction pointer past the parameter slot at the
    /// cursor, once the store it parameterized has succeeded.
    fn advance_past_param_slot(&mut self)
        requires
            old(self).wf(),
            dec_op(old(self).code(), old(self).ip_pos()) is Found,
        ensures
            final(self).wf(),
            final(self).code() == old(self).code(),
            final(self).registers() == old(self).registers(),
            final(self).constants() == old(self).constants(),
            dec_op(old(self).code(), old(self).ip_pos()) matches Decoded::Found { next, .. }
                && final(self).ip_pos() == next,
    {
        let _slot: Op<'op> = self.ip.decode();
    }

    /// Fetches the bytes of the default memory, the executor's fast
    /// path: in this model the default memory lives in the host store
    /// at index 0.
    fn fetch_default_memory_bytes_mut<'s>(&mut self, store: &'s mut StoreInner) -> (r: &'s mut Vec<
        u8,
    >)
        requires
            old(store).mems().len() > 0,
        ensures
            *final(self) == *old(self),
            *r == old(store).mems()[0],
            final(store).mems() == old(store).mems().update(0, *final(r)),
    {
        &mut store.memories[0]
    }

    /// Fetches the bytes of a non-default memory through the host
    /// store, the cold path.
    fn fetch_non_default_memory_bytes_mut<'s>(
        &mut self,
        memory: Memory,
        store: &'s mut StoreInner,
    ) -> (r: &'s mut Vec<u8>)
        requires
            (memory.index as int) < old(store).mems().len(),
        ensures
            *final(self) == *old(self),
            *r == old(store).mems()[memory.index as int],
            final(store).mems() == old(store).mems().update(memory.index as int, *final(r)),
    {
        &mut store.memories[memory.index as usize]
    }

    /// Fetches the bytes of the given memory: the default memory
    /// through the fast path, any other through the host store.
    fn fetch_memory_bytes_mut<'s>(&mut self, memory: Memory, store: &'s mut StoreInner) -> (r:
        &'s mut Vec<u8>)
        requires
            (memory.index as int) < old(store).mems().len(),
        ensures
            *final(self) == *old(self),
            *r == old(store).mems()[memory.index as int],
            final(store).mems() == old(store).mems().update(memory.index as int, *final(r)),
    {
        if memory.is_default() {
            self.fetch_default_memory_bytes_mut(store)
        } else {
            self.fetch_non_default_memory_bytes_mut(memory, store)
        }
    }

    /// Performs a store of `value` at `address + offset` in the given
    /// memory of the host store.
    pub fn execute_store_wrap(
        &mut self,
        store: &mut StoreInner,
        memory: Memory,
        address: UntypedVal,
        offset: u32,
        value: UntypedVal,
        kind: StoreKind,
    ) -> (r: Result<(), TrapCode>)
        requires
            old(self).wf(),
            (memory.index as int) < old(store).mems().len(),
        ensures
            *final(self) == *old(self),
            store_wrap_post(
                old(store).mems(),
                final(store).mems(),
                r,
                memory.index as int,
                address.bits + offset,
                stored_bytes(kind, value),
            ),
    {
        let mem: &mut Vec<u8> = self.fetch_memory_bytes_mut(memory, store);
        UntypedVal::store_op(kind, mem, address, offset, value)
    }

    /// Performs a store into the default memory, the executor's fast
    /// path.
    pub fn execute_store_wrap_mem0(
        &mut self,
        store: &mut StoreInner,
        address: UntypedVal,
        offset: u32,
        value: UntypedVal,
        kind: StoreKind,
    ) -> (r: Result<(), TrapCode>)
        requires
            old(self).wf(),
            old(store).mems().len() > 0,
        ensures
            *final(self) == *old(self),
            store_wrap_post(
                old(store).mems(),
                final(store).mems(),
                r,
                0,
                address.bits + offset,
                stored_bytes(kind, value),
            ),
    {
        self.execute_store_wrap(store, Memory { index: 0 }, address, offset, value, kind)
    }

    /// Executes a two-slot store whose value register and 32-bit offset
    /// stand in the `RegisterAndImm32` parameter slot at the cursor:
    /// writes the register's value at the pointer register's address
    /// plus the offset. On success the cursor advances past the
    /// parameter slot; on a trap it stays at the faulting instruction.
    pub fn execute_store(
        &mut self,
        store: &mut StoreInner,
        ptr: Reg,
        memory: Memory,
        kind: StoreKind,
    ) -> (r: Result<(), TrapCode>)
        requires
            old(self).wf(),
            dec_op(old(self).code(), old(self).ip_pos()) matches Decoded::Found {
                value: OpV::RegisterAndImm32 { .. },
                ..
            },
            dec_op(old(self).code(), old(self).ip_pos()) matches Decoded::Found {
                value: OpV::RegisterAndImm32 { reg, .. },
                ..
            } ==> old(self).reg_ok(reg),
            old(self).reg_ok(ptr),
            (memory.index as int) < old(store).mems().len(),
        ensures
            final(self).wf(),
            final(self).code() == old(self).code(),
            final(self).registers() == old(self).registers(),
            final(self).constants() == old(self).constants(),
            dec_op(old(self).code(), old(self).ip_pos()) matches Decoded::Found {
                value: OpV::RegisterAndImm32 { reg, imm },
                next,
            } ==> {
                &&& store_wrap_post(
                    old(store).mems(),
                    final(store).mems(),
                    r,
                    memory.index as int,
                    old(self).reg_value(ptr).bits + imm.bits,
                    stored_bytes(kind, old(self).reg_value(reg)),
                )
                &&& (r matches Ok(_) ==> final(self).ip_pos() == next)
                &&& (r matches Err(_) ==> final(self).ip_pos() == old(self).ip_pos())
            },
    {
        let (value_reg, offset) = self.fetch_value_and_offset();
        let address = self.get_register(ptr);
        let value = self.get_register(value_reg);
        let result = self.execute_store_wrap(store, memory, address, offset, value, kind);
        match result {
            Ok(()) => {
                self.advance_past_param_slot();
                Ok(())
            },
            Err(trap) => Err(trap),
        }
    }

    /// Executes a two-slot store whose immediate value and 32-bit
    /// offset stand in the `Imm16AndImm32` parameter slot at the
    /// cursor; the 16-bit immediate is sign-extended to the kind's
    /// operand width. On success the cursor advances past the parameter
    /// slot; on a trap it stays at the faulting instruction.
    pub fn execute_store_imm(
        &mut self,
        store: &mut StoreInner,
        ptr: Reg,
        memory: Memory,
        kind: StoreKind,
    ) -> (r: Result<(), TrapCode>)
        requires
            old(self).wf(),
            dec_op(old(self).code(), old(self).ip_pos()) matches Decoded::Found {
                value: OpV::Imm16AndImm32 { .. },
                ..
            },
            old(self).reg_ok(ptr),
            (memory.index as int) < old(store).mems().len(),
        ensures
            final(self).wf(),
            final(self).code() == old(self).code(),
            final(self).registers() == old(self).registers(),
            final(self).constants() == old(self).constants(),
            dec_op(old(self).code(), old(self).ip_pos()) matches Decoded::Found {
                value: OpV::Imm16AndImm32 { imm16, imm32 },
                next,
            } ==> {
                &&& store_wrap_post(
                    old(store).mems(),
                    final(store).mems(),
                    r,
                    memory.index as int,
                    old(self).reg_value(ptr).bits + imm32.bits,
                    stored_bytes(kind, UntypedVal { bits: imm_extended(kind, imm16.value) }),
                )
                &&& (r matches Ok(_) ==> final(self).ip_pos() == next)
                &&& (r matches Err(_) ==> final(self).ip_pos() == old(self).ip_pos())
            },
    {
        let (imm16, offset) = self.fetch_value_and_offset_imm();
        let address = self.get_register(ptr);
        let value = extend_imm16(kind, imm16.value);
        let result = self.execute_store_wrap(store, memory, address, offset, value, kind);
        match result {
            Ok(()) => {
                self.advance_past_param_slot();
                Ok(())
            },
            Err(trap) => Err(trap),
        }
    }

    /// Executes a single-slot store into the default memory through a
    /// pointer register plus a 16-bit offset; the cursor does not move.
    pub fn execute_store_offset16(
        &mut self,
        store: &mut StoreInner,
        ptr: Reg,
        offset: u16,
        value: Reg,
        kind: StoreKind,
    ) -> (r: Result<(), TrapCode>)
        requires
            old(self).wf(),
            old(self).reg_ok(ptr),
            old(self).reg_ok(value),
            old(store).mems().len() > 0,
        ensures
            *final(self) == *old(self),
            store_wrap_post(
                old(store).mems(),
                final(store).mems(),
                r,
                0,
                old(self).reg_value(ptr).bits + offset,
                stored_bytes(kind, old(self).reg_value(value)),
            ),
    {
        let address = self.get_register(ptr);
        let stored = self.get_register(value);
        self.execute_store_wrap_mem0(store, address, offset as u32, stored, kind)
    }

    /// Executes a single-slot store of a sign-extended 16-bit immediate
    /// into the default memory through a pointer register plus a 16-bit
    /// offset; the cursor does not move.
    pub fn execute_store_offset16_imm16(
        &mut self,
        store: &mut StoreInner,
        ptr: Reg,
        offset: u16,
        value: Const16,
        kind: StoreKind,
    ) -> (r: Result<(), TrapCode>)
        requires
            old(self).wf(),
            old(self).reg_ok(ptr),
            old(store).mems().len() > 0,
        ensures
            *final(self) == *old(self),
            store_wrap_post(
                old(store).mems(),
                final(store).mems(),
                r,
                0,
                old(self).reg_value(ptr).bits + offset,
                stored_bytes(kind, UntypedVal { bits: imm_extended(kind, value.value) }),
            ),
    {
        let address = self.get_register(ptr);
        let stored = extend_imm16(kind, value.value);
        self.execute_store_wrap_mem0(store, address, offset as u32, stored, kind)
    }

    /// Executes a store of a register value at an absolute address; a
    /// `MemoryIndex` parameter slot at the cursor selects the memory,
    /// the default memory standing in when none follows. On success the
    /// cursor advances past the parameter slot, if one was there; on a
    /// trap it stays at the faulting instruction.
    pub fn execute_store_at(
        &mut self,
        store: &mut StoreInner,
        address: u32,
        value: Reg,
        kind: StoreKind,
    ) -> (r: Result<(), TrapCode>)
        requires
            old(self).wf(),
            old(self).reg_ok(value),
            old(self).ip_pos() == old(self).code().len() || dec_op(
                old(self).code(),
                old(self).ip_pos(),
            ) is Found,
            dec_op(old(self).code(), old(self).ip_pos()) matches Decoded::Found {
                value: OpV::MemoryIndex { memory },
                ..
            } ==> (memory.index as int) < old(store).mems().len(),
            !(dec_op(old(self).code(), old(self).ip_pos()) matches Decoded::Found {
                value: OpV::MemoryIndex { .. },
                ..
            }) ==> old(store).mems().len() > 0,
        ensures
            final(self).wf(),
            final(self).code() == old(self).code(),
            final(self).registers() == old(self).registers(),
            final(self).constants() == old(self).constants(),
            match dec_op(old(self).code(), old(self).ip_pos()) {
                Decoded::Found { value: OpV::MemoryIndex { memory }, next } => {
                    &&& store_wrap_post(
                        old(store).mems(),
                        final(store).mems(),
                        r,
                        memory.index as int,
                        address as int,
                        stored_bytes(kind, old(self).reg_value(value)),
                    )
                    &&& (r matches Ok(_) ==> final(self).ip_pos() == next)
                    &&& (r matches Err(_) ==> final(self).ip_pos() == old(self).ip_pos())
                },
                _ => {
                    &&& final(self).ip_pos() == old(self).ip_pos()
                    &&& store_wrap_post(
                        old(store).mems(),
                        final(store).mems(),
                        r,
                        0,
                        address as int,
                        stored_bytes(kind, old(self).reg_value(value)),
                    )
                },
            },
    {
        let (memory, has_param) = self.fetch_optional_memory();
        let stored = self.get_register(value);
        let result = self.execute_store_wrap(
            store,
            memory,
            UntypedVal::from_u32(0),
            address,
            stored,
            kind,
        );
        match result {
            Ok(()) => {
                if has_param {
                    self.advance_past_param_slot();
                }
                Ok(())
            },
            Err(trap) => Err(trap),
        }
    }

    /// Executes a store of a sign-extended 16-bit immediate at an
    /// absolute address, with an optional `MemoryIndex` parameter slot.
    /// On success the cursor advances past the parameter slot, if one
    /// was there; on a trap it stays at the faulting instruction.
    pub fn execute_store_at_imm16(
        &mut self,
        store: &mut StoreInner,
        address: u32,
        value: AnyConst16,
        kind: StoreKind,
    ) -> (r: Result<(), TrapCode>)
        requires
            old(self).wf(),
            old(self).ip_pos() == old(self).code().len() || dec_op(
                old(self).code(),
                old(self).ip_pos(),
            ) is Found,
            dec_op(old(self).code(), old(self).ip_pos()) matches Decoded::Found {
                value: OpV::MemoryIndex { memory },
                ..
            } ==> (memory.index as int) < old(store).mems().len(),
            !(dec_op(old(self).code(), old(self).ip_pos()) matches Decoded::Found {
                value: OpV::MemoryIndex { .. },
                ..
            }) ==> old(store).mems().len() > 0,
        ensures
            final(self).wf(),
            final(self).code() == old(self).code(),
            final(self).registers() == old(self).registers(),
            final(self).constants() == old(self).constants(),
            match dec_op(old(self).code(), old(self).ip_pos()) {
                Decoded::Found { value: OpV::MemoryIndex { memory }, next } => {
                    &&& store_wrap_post(
                        old(store).mems(),
                        final(store).mems(),
                        r,
                        memory.index as int,
                        address as int,
                        stored_bytes(kind, UntypedVal { bits: imm_extended(kind, value.value) }),
                    )
                    &&& (r matches Ok(_) ==> final(self).ip_pos() == next)
                    &&& (r matches Err(_) ==> final(self).ip_pos() == old(self).ip_pos())
                },
                _ => {
                    &&& final(self).ip_pos() == old(self).ip_pos()
                    &&& store_wrap_post(
                        old(store).mems(),
                        final(store).mems(),
                        r,
                        0,
                        address as int,
                        stored_bytes(kind, UntypedVal { bits: imm_extended(kind, value.value) }),
                    )
                },
            },
    {
        let (memory, has_param) = self.fetch_optional_memory();
        let stored = extend_imm16(kind, value.value);
        let result = self.execute_store_wrap(
            store,
            memory,
            UntypedVal::from_u32(0),
            address,
            stored,
            kind,
        );
        match result {
            Ok(()) => {
                if has_param {
                    self.advance_past_param_slot();
                }
                Ok(())
            },
            Err(trap) => Err(trap),
        }
    }

    /// Executes an `I32Store` instruction: the 32-bit store, full form.
    pub fn i32_store(&mut self, store: &mut StoreInner, ptr: Reg, memory: Memory) -> (r: Result<
        (),
        TrapCode,
    >)
        requires
            old(self).wf(),
            dec_op(old(self).code(), old(self).ip_pos()) matches Decoded::Found {
                value: OpV::RegisterAndImm32 { .. },
                ..
            },
            dec_op(old(self).code(), old(self).ip_pos()) matches Decoded::Found {
                value: OpV::RegisterAndImm32 { reg, .. },
                ..
            } ==> old(self).reg_ok(reg),
            old(self).reg_ok(ptr),
            (memory.index as int) < old(store).mems().len(),
        ensures
            final(self).wf(),
            final(self).code() == old(self).code(),
            final(self).registers() == old(self).registers(),
            final(self).constants() == old(self).constants(),
            dec_op(old(self).code(), old(self).ip_pos()) matches Decoded::Found {
                value: OpV::RegisterAndImm32 { reg, imm },
                next,
            } ==> {
                &&& store_wrap_post(
                    old(store).mems(),
                    final(store).mems(),
                    r,
                    memory.index as int,
                    old(self).reg_value(ptr).bits + imm.bits,
                    stored_bytes(StoreKind::Store32, old(self).reg_value(reg)),
                )
                &&& (r matches Ok(_) ==> final(self).ip_pos() == next)
                &&& (r matches Err(_) ==> final(self).ip_pos() == old(self).ip_pos())
            },
    {
        self.execute_store(store, ptr, memory, StoreKind::Store32)
    }

    /// Executes an `I32StoreImm16` instruction: the 32-bit store of a
    /// widened 16-bit immediate, full form.
    pub fn i32_store_imm16(&mut self, store: &mut StoreInner, ptr: Reg, memory: Memory) -> (r:
        Result<(), TrapCode>)
        requires
            old(self).wf(),
            dec_op(old(self).code(), old(self).ip_pos()) matches Decoded::Found {
                value: OpV::Imm16AndImm32 { .. },
                ..
            },
            old(self).reg_ok(ptr),
            (memory.index as int) < old(store).mems().len(),
        ensures
            final(self).wf(),
            final(self).code() == old(self).code(),
            final(self).registers() == old(self).registers(),
            final(self).constants() == old(self).constants(),
            dec_op(old(self).code(), old(self).ip_pos()) matches Decoded::Found {
                value: OpV::Imm16AndImm32 { imm16, imm32 },
                next,
            } ==> {
                &&& store_wrap_post(
                    old(store).mems(),
                    final(store).mems(),
                    r,
                    memory.index as int,
                    old(self).reg_value(ptr).bits + imm32.bits,
                    stored_bytes(
                        StoreKind::Store32,
                        UntypedVal { bits: imm_extended(StoreKind::Store32, imm16.value) },
                    ),
                )
                &&& (r matches Ok(_) ==> final(self).ip_pos() == next)
                &&& (r matches Err(_) ==> final(self).ip_pos() == old(self).ip_pos())
            },
    {
        self.execute_store_imm(store, ptr, memory, StoreKind::Store32)
    }

    /// Executes an `I32StoreOffset16` instruction: the 32-bit store,
    /// offset-16 form, default memory only.
    pub fn i32_store_offset16(
        &mut self,
        store: &mut StoreInner,
        ptr: Reg,
        offset: u16,
        value: Reg,
    ) -> (r: Result<(), TrapCode>)
        requires
            old(self).wf(),
            old(self).reg_ok(ptr),
            old(self).reg_ok(value),
            old(store).mems().len() > 0,
        ensures
            *final(self) == *old(self),
            store_wrap_post(
                old(store).mems(),
                final(store).mems(),
                r,
                0,
                old(self).reg_value(ptr).bits + offset,
                stored_bytes(StoreKind::Store32, old(self).reg_value(value)),
            ),
    {
        self.execute_store_offset16(store, ptr, offset, value, StoreKind::Store32)
    }

    /// Executes an `I32StoreOffset16Imm16` instruction: the 32-bit
    /// store of a widened 16-bit immediate, offset-16 form.
    pub fn i32_store_offset16_imm16(
        &mut self,
        store: &mut StoreInner,
        ptr: Reg,
        offset: u16,
        value: Const16,
    ) -> (r: Result<(), TrapCode>)
        requires
            old(self).wf(),
            old(self).reg_ok(ptr),
            old(store).mems().len() > 0,
        ensures
            *final(self) == *old(self),
            store_wrap_post(
                old(store).mems(),
                final(store).mems(),
                r,
                0,
                old(self).reg_value(ptr).bits + offset,
                stored_bytes(
                    StoreKind::Store32,
                    UntypedVal { bits: imm_extended(StoreKind::Store32, value.value) },
                ),
            ),
    {
        self.execute_store_offset16_imm16(store, ptr, offset, value, StoreKind::Store32)
    }

    /// Executes an `I32StoreAt` instruction: the 32-bit store at an
    /// absolute address.
    pub fn i32_store_at(&mut self, store: &mut StoreInner, address: u32, value: Reg) -> (r: Result<
        (),
        TrapCode,
    >)
        requires
            old(self).wf(),
            old(self).reg_ok(value),
            old(self).ip_pos() == old(self).code().len() || dec_op(
                old(self).code(),
                old(self).ip_pos(),
            ) is Found,
            dec_op(old(self).code(), old(self).ip_pos()) matches Decoded::Found {
                value: OpV::MemoryIndex { memory },
                ..
            } ==> (memory.index as int) < old(store).mems().len(),
            !(dec_op(old(self).code(), old(self).ip_pos()) matches Decoded::Found {
                value: OpV::MemoryIndex { .. },
                ..
            }) ==> old(store).mems().len() > 0,
        ensures
            final(self).wf(),
            final(self).code() == old(self).code(),
            final(self).registers() == old(self).registers(),
            final(self).constants() == old(self).constants(),
            match dec_op(old(self).code(), old(self).ip_pos()) {
                Decoded::Found { value: OpV::MemoryIndex { memory }, next } => {
                    &&& store_wrap_post(
                        old(store).mems(),
                        final(store).mems(),
                        r,
                        memory.index as int,
                        address as int,
                        stored_bytes(StoreKind::Store32, old(self).reg_value(value)),
                    )
                    &&& (r matches Ok(_) ==> final(self).ip_pos() == next)
                    &&& (r matches Err(_) ==> final(self).ip_pos() == old(self).ip_pos())
                },
                _ => {
                    &&& final(self).ip_pos() == old(self).ip_pos()
                    &&& store_wrap_post(
                        old(store).mems(),
                        final(store).mems(),
                        r,
                        0,
                        address as int,
                        stored_bytes(StoreKind::Store32, old(self).reg_value(value)),
                    )
                },
            },
    {
        self.execute_store_at(store, address, value, StoreKind::Store32)
    }

    /// Executes an `I32StoreAtImm16` instruction: the 32-bit store of a
    /// widened 16-bit immediate at an absolute address.
    pub fn i32_store_at_imm16(
        &mut self,
        store: &mut StoreInner,
        address: u32,
        value: AnyConst16,
    ) -> (r: Result<(), TrapCode>)
        requires
            old(self).wf(),
            old(self).ip_pos() == old(self).code().len() || dec_op(
                old(self).code(),
                old(self).ip_pos(),
            ) is Found,
            dec_op(old(self).code(), old(self).ip_pos()) matches Decoded::Found {
                value: OpV::MemoryIndex { memory },
                ..
            } ==> (memory.index as int) < old(store).mems().len(),
            !(dec_op(old(self).code(), old(self).ip_pos()) matches Decoded::Found {
                value: OpV::MemoryIndex { .. },
                ..
            }) ==> old(store).mems().len() > 0,
        ensures
            final(self).wf(),
            final(self).code() == old(self).code(),
            final(self).registers() == old(self).registers(),
            final(self).constants() == old(self).constants(),
            match dec_op(old(self).code(), old(self).ip_pos()) {
                Decoded::Found { value: OpV::MemoryIndex { memory }, next } => {
                    &&& store_wrap_post(
                        old(store).mems(),
                        final(store).mems(),
                        r,
                        memory.index as int,
                        address as int,
                        stored_bytes(
                            StoreKind::Store32,
                            UntypedVal { bits: imm_extended(StoreKind::Store32, value.value) },
                        ),
                    )
                    &&& (r matches Ok(_) ==> final(self).ip_pos() == next)
                    &&& (r matches Err(_) ==> final(self).ip_pos() == old(self).ip_pos())
                },
                _ => {
                    &&& final(self).ip_pos() == old(self).ip_pos()
                    &&& store_wrap_post(
                        old(store).mems(),
                        final(store).mems(),
                        r,
                        0,
                        address as int,
                        stored_bytes(
                            StoreKind::Store32,
                            UntypedVal { bits: imm_extended(StoreKind::Store32, value.value) },
                        ),
                    )
                },
            },
    {
        self.execute_store_at_imm16(store, address, value, StoreKind::Store32)
    }
}

/// The raw bits a 16-bit immediate contributes once sign-extended to
/// the operand width of a store kind: to 64 bits for the 64-bit family,
/// to 32 bits (then zero-extended in the cell) otherwise.
pub open spec fn imm_extended(kind: StoreKind, imm: i16) -> u64 {
    match kind {
        StoreKind::Store64 | StoreKind::I64Store8 | StoreKind::I64Store16 | StoreKind::I64Store32
            => u64_of_i64(imm as i64),
        _ => u32_of_i32(imm as i32) as u64,
    }
}

/// Sign-extends a 16-bit immediate to the operand width of a store
/// kind.
pub fn extend_imm16(kind: StoreKind, imm: i16) -> (r: UntypedVal)
    ensures
        r.bits == imm_extended(kind, imm),
{
    match kind {
        StoreKind::Store64 | StoreKind::I64Store8 | StoreKind::I64Store16 | StoreKind::I64Store32
            => UntypedVal::from_i64(imm as i64),
        _ => UntypedVal::from_i32(imm as i32),
    }
}

} // verus!