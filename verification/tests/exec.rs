use wasmi_ir::decode::UnsafeOpDecoder;
use wasmi_ir::encode::encode_stream;
use wasmi_ir::op::{Op, OpCode};
use wasmi_ir::prim::{AnyConst16, AnyConst32, Const16, Memory, Reg, TrapCode};
use wasmi_ir::store::{Executor, StoreInner, StoreKind, UntypedVal};

fn reg(index: i16) -> Reg {
    Reg { index }
}

fn zeroed_store(size: usize) -> StoreInner {
    StoreInner::new(vec![vec![0u8; size]])
}

#[test]
fn store32_writes_four_little_endian_bytes() {
    let mut memory = vec![0u8; 16];
    let r = UntypedVal::store32(
        &mut memory,
        UntypedVal::from_u32(4),
        2,
        UntypedVal::from_u32(0xDDCCBBAA),
    );
    assert_eq!(r, Ok(()));
    assert_eq!(&memory[6..10], &[0xAA, 0xBB, 0xCC, 0xDD]);
    assert_eq!(&memory[..6], &[0; 6]);
    assert_eq!(&memory[10..], &[0; 6]);
}

#[test]
fn truncating_stores_write_the_low_bytes() {
    let mut memory = vec![0xFFu8; 8];
    assert_eq!(
        UntypedVal::i32_store8(&mut memory, UntypedVal::from_u32(0), 0, UntypedVal::from_u32(0x1234)),
        Ok(())
    );
    assert_eq!(memory[0], 0x34);
    assert_eq!(memory[1], 0xFF);

    assert_eq!(
        UntypedVal::i64_store16(
            &mut memory,
            UntypedVal::from_u32(2),
            0,
            UntypedVal::from_bits(0xAABB_CCDD_EEFF_1122)
        ),
        Ok(())
    );
    assert_eq!(&memory[2..4], &[0x22, 0x11]);

    assert_eq!(
        UntypedVal::i64_store32(
            &mut memory,
            UntypedVal::from_u32(4),
            0,
            UntypedVal::from_bits(0xAABB_CCDD_EEFF_1122)
        ),
        Ok(())
    );
    assert_eq!(&memory[4..8], &[0x22, 0x11, 0xFF, 0xEE]);
}

#[test]
fn out_of_bounds_store_traps_and_writes_nothing() {
    let mut memory = vec![7u8; 8];
    let r = UntypedVal::store64(&mut memory, UntypedVal::from_u32(1), 0, UntypedVal::from_bits(1));
    assert_eq!(r, Err(TrapCode::MemoryOutOfBounds));
    assert_eq!(memory, vec![7u8; 8]);

    let r = UntypedVal::store32(
        &mut memory,
        UntypedVal::from_bits(u64::MAX),
        u32::MAX,
        UntypedVal::from_bits(1),
    );
    assert_eq!(r, Err(TrapCode::MemoryOutOfBounds));
    assert_eq!(memory, vec![7u8; 8]);
}

#[test]
fn store_family_two_slot_protocol() {
    // Encode `I32Store` followed by its `RegisterAndImm32` parameter
    // slot: value in r3, offset 16. With the pointer register holding
    // address 100, the value must land at 100 + 16, and the cursor must
    // advance by exactly two instruction slots.
    let ops = vec![
        Op::I32Store { ptr: reg(2), memory: Memory { index: 0 } },
        Op::RegisterAndImm32 { reg: reg(3), imm: AnyConst32 { bits: 16 } },
    ];
    let code = encode_stream(&ops);

    let mut regs = vec![UntypedVal::from_u32(0); 4];
    regs[2] = UntypedVal::from_u32(100);
    regs[3] = UntypedVal::from_u32(0xDEAD_BEEF);

    let mut store = zeroed_store(256);

    let mut d = UnsafeOpDecoder::new(&code);
    let (opcode, variant) = d.dispatch();
    assert_eq!(opcode, OpCode::I32Store);
    let (ip, op) = variant.decode(opcode);
    let mut exec = Executor::new(ip, regs, Vec::new());
    match op {
        Op::I32Store { ptr, memory } => {
            assert_eq!(exec.i32_store(&mut store, ptr, memory), Ok(()));
        }
        other => panic!("dispatched the wrong variant: {:?}", other),
    }
    assert_eq!(&store.memories[0][116..120], &[0xEF, 0xBE, 0xAD, 0xDE]);
    assert_eq!(&store.memories[0][..116], &vec![0u8; 116][..]);
    assert_eq!(&store.memories[0][120..], &vec![0u8; 136][..]);
    // Both slots consumed: the cursor stands at the end of the code.
    assert_eq!(exec.ip_offset(), code.len());
}

#[test]
fn store_imm16_two_slot_protocol() {
    let ops = vec![
        Op::I32StoreImm16 { ptr: reg(0), memory: Memory { index: 0 } },
        Op::Imm16AndImm32 { imm16: AnyConst16 { value: -2 }, imm32: AnyConst32 { bits: 8 } },
    ];
    let code = encode_stream(&ops);
    let regs = vec![UntypedVal::from_u32(0)];
    let mut store = zeroed_store(64);

    let mut d = UnsafeOpDecoder::new(&code);
    let (opcode, variant) = d.dispatch();
    assert_eq!(opcode, OpCode::I32StoreImm16);
    let (ip, op) = variant.decode(opcode);
    let mut exec = Executor::new(ip, regs, Vec::new());
    match op {
        Op::I32StoreImm16 { ptr, memory } => {
            assert_eq!(exec.i32_store_imm16(&mut store, ptr, memory), Ok(()));
        }
        other => panic!("dispatched the wrong variant: {:?}", other),
    }
    // -2 sign-extended to 32 bits, little endian, at address 0 + 8.
    assert_eq!(&store.memories[0][8..12], &[0xFE, 0xFF, 0xFF, 0xFF]);
    assert_eq!(exec.ip_offset(), code.len());
}

#[test]
fn store_offset16_single_slot() {
    let code: Vec<u8> = Vec::new();
    let mut regs = vec![UntypedVal::from_u32(0); 6];
    regs[1] = UntypedVal::from_u32(3);
    regs[5] = UntypedVal::from_u32(0x0102_0304);
    let mut store = zeroed_store(32);
    let mut exec = Executor::new(UnsafeOpDecoder::new(&code), regs, Vec::new());
    assert_eq!(exec.i32_store_offset16(&mut store, reg(1), 16, reg(5)), Ok(()));
    assert_eq!(&store.memories[0][19..23], &[0x04, 0x03, 0x02, 0x01]);
    assert_eq!(exec.ip_offset(), 0);
}

#[test]
fn store_offset16_imm16_single_slot() {
    let code: Vec<u8> = Vec::new();
    let mut regs = vec![UntypedVal::from_u32(0); 2];
    regs[0] = UntypedVal::from_u32(1);
    let mut store = zeroed_store(32);
    let mut exec = Executor::new(UnsafeOpDecoder::new(&code), regs, Vec::new());
    assert_eq!(
        exec.i32_store_offset16_imm16(&mut store, reg(0), 2, Const16 { value: 259 }),
        Ok(())
    );
    assert_eq!(&store.memories[0][3..7], &[0x03, 0x01, 0x00, 0x00]);
}

#[test]
fn store_at_with_optional_memory_slot() {
    // With a `MemoryIndex` parameter slot at the cursor the store goes
    // to the selected memory and consumes the slot.
    let ops = vec![Op::MemoryIndex { memory: Memory { index: 1 } }];
    let code = encode_stream(&ops);
    let mut regs = vec![UntypedVal::from_u32(0); 2];
    regs[1] = UntypedVal::from_u32(0xAB);
    let mut store = StoreInner::new(vec![vec![0u8; 8], vec![0u8; 8]]);
    let mut exec = Executor::new(UnsafeOpDecoder::new(&code), regs, Vec::new());
    assert_eq!(exec.i32_store_at(&mut store, 2, reg(1)), Ok(()));
    assert_eq!(&store.memories[1][2..6], &[0xAB, 0x00, 0x00, 0x00]);
    assert_eq!(&store.memories[0][..], &[0u8; 8][..]);
    assert_eq!(exec.ip_offset(), code.len());

    // Without one, the default memory is written and the cursor stays.
    let empty: Vec<u8> = Vec::new();
    let mut regs = vec![UntypedVal::from_u32(0); 2];
    regs[1] = UntypedVal::from_u32(0xCD);
    let mut store = zeroed_store(8);
    let mut exec = Executor::new(UnsafeOpDecoder::new(&empty), regs, Vec::new());
    assert_eq!(exec.i32_store_at(&mut store, 1, reg(1)), Ok(()));
    assert_eq!(&store.memories[0][1..5], &[0xCD, 0x00, 0x00, 0x00]);
    assert_eq!(exec.ip_offset(), 0);
}

#[test]
fn store_at_imm16_writes_extended_immediate() {
    let empty: Vec<u8> = Vec::new();
    let regs = vec![UntypedVal::from_u32(0)];
    let mut store = zeroed_store(8);
    let mut exec = Executor::new(UnsafeOpDecoder::new(&empty), regs, Vec::new());
    assert_eq!(
        exec.i32_store_at_imm16(&mut store, 0, AnyConst16 { value: -1 }),
        Ok(())
    );
    assert_eq!(&store.memories[0][0..4], &[0xFF, 0xFF, 0xFF, 0xFF]);
}

#[test]
fn store_trap_propagates_from_handler() {
    let ops = vec![
        Op::I32Store { ptr: reg(0), memory: Memory { index: 0 } },
        Op::RegisterAndImm32 { reg: reg(1), imm: AnyConst32 { bits: 0 } },
    ];
    let code = encode_stream(&ops);
    let mut regs = vec![UntypedVal::from_u32(0); 2];
    regs[0] = UntypedVal::from_u32(6);  // 6 + 0 + 4 bytes > 8: out of bounds
    let mut store = zeroed_store(8);

    let mut d = UnsafeOpDecoder::new(&code);
    let (opcode, variant) = d.dispatch();
    let (ip, op) = variant.decode(opcode);
    let mut exec = Executor::new(ip, regs, Vec::new());
    // The instruction pointer was not advanced: it still stands at the
    // parameter slot of the faulting store, 6 bytes into the code.
    let ip_before = exec.ip_offset();
    assert_eq!(ip_before, 6);
    match op {
        Op::I32Store { ptr, memory } => {
            assert_eq!(exec.i32_store(&mut store, ptr, memory), Err(TrapCode::MemoryOutOfBounds));
        }
        other => panic!("dispatched the wrong variant: {:?}", other),
    }
    assert_eq!(&store.memories[0][..], &[0u8; 8][..]);
    assert_eq!(exec.ip_offset(), ip_before);
}

#[test]
fn store_from_constant_register() {
    // A negative register index names a function constant: index -1 is
    // the first constant cell.
    let ops = vec![
        Op::I32Store { ptr: reg(0), memory: Memory { index: 0 } },
        Op::RegisterAndImm32 { reg: reg(-1), imm: AnyConst32 { bits: 4 } },
    ];
    let code = encode_stream(&ops);
    let regs = vec![UntypedVal::from_u32(8)];
    let consts = vec![UntypedVal::from_u32(0x0A0B_0C0D)];
    let mut store = zeroed_store(32);

    let mut d = UnsafeOpDecoder::new(&code);
    let (opcode, variant) = d.dispatch();
    let (ip, op) = variant.decode(opcode);
    let mut exec = Executor::new(ip, regs, consts);
    match op {
        Op::I32Store { ptr, memory } => {
            assert_eq!(exec.i32_store(&mut store, ptr, memory), Ok(()));
        }
        other => panic!("dispatched the wrong variant: {:?}", other),
    }
    assert_eq!(&store.memories[0][12..16], &[0x0D, 0x0C, 0x0B, 0x0A]);
    assert_eq!(exec.ip_offset(), code.len());
}

#[test]
fn generic_store_kinds_share_one_protocol() {
    let ops = vec![
        Op::I32Store { ptr: reg(0), memory: Memory { index: 0 } },
        Op::RegisterAndImm32 { reg: reg(1), imm: AnyConst32 { bits: 0 } },
    ];
    let code = encode_stream(&ops);
    let mut regs = vec![UntypedVal::from_u32(0); 2];
    regs[1] = UntypedVal::from_bits(0x1122_3344_5566_7788);
    let mut store = zeroed_store(16);

    let mut d = UnsafeOpDecoder::new(&code);
    let (opcode, variant) = d.dispatch();
    let (ip, _op) = variant.decode(opcode);
    let mut exec = Executor::new(ip, regs, Vec::new());
    assert_eq!(
        exec.execute_store(&mut store, reg(0), Memory { index: 0 }, StoreKind::Store64),
        Ok(())
    );
    assert_eq!(
        &store.memories[0][0..8],
        &[0x88, 0x77, 0x66, 0x55, 0x44, 0x33, 0x22, 0x11]
    );
}
