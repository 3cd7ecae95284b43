use wasmi_ir::decode::{SafeDecoder, SafeOpDecoder, UnsafeDecoder, UnsafeOpDecoder};
use wasmi_ir::encode::{encode_op_to_vec, encode_stream};
use wasmi_ir::error::DecodeError;
use wasmi_ir::op::{op_code_from_u16, op_code_to_u16, Op, OpCode, Slice, MAX_OP};
use wasmi_ir::prim::{
    AnyConst16, AnyConst32, BranchTableTarget, Const16, Memory, NonZeroU16, Reg, RegSpan, Sign,
    TrapCode,
};

fn reg(index: i16) -> Reg {
    Reg { index }
}

#[test]
fn bool_scenarios() {
    let mut d = SafeDecoder::new(&[0x01]);
    assert_eq!(d.read_bool(), Ok(true));

    let mut d = SafeDecoder::new(&[0x00]);
    assert_eq!(d.read_bool(), Ok(false));

    let mut d = SafeDecoder::new(&[0x02]);
    assert_eq!(d.read_bool(), Err(DecodeError::InvalidBool { pos: 0, value: 2 }));
    assert_eq!(d.pos(), 0);

    let mut d = SafeDecoder::new(&[]);
    assert_eq!(d.read_bool(), Err(DecodeError::EndOfStream { pos: 0 }));
}

#[test]
fn sign_scenarios() {
    let mut d = SafeDecoder::new(&[0x00]);
    assert_eq!(d.read_sign(), Ok(Sign::Pos));

    let mut d = SafeDecoder::new(&[0x01]);
    assert_eq!(d.read_sign(), Ok(Sign::Neg));

    let mut d = SafeDecoder::new(&[0x02]);
    assert_eq!(d.read_sign(), Err(DecodeError::InvalidSign { pos: 0, value: 2 }));
}

#[test]
fn non_zero_u16_scenarios() {
    let mut d = SafeDecoder::new(&[0x05, 0x00]);
    assert_eq!(d.read_non_zero_u16(), Ok(NonZeroU16 { value: 5 }));

    let mut d = SafeDecoder::new(&[0x00, 0x00]);
    assert_eq!(d.read_non_zero_u16(), Err(DecodeError::InvalidNonZeroValue { pos: 0 }));
    assert_eq!(d.pos(), 0);
}

#[test]
fn inline_slice_of_16_bit_elements() {
    let bytes = [0x03, 0x00, 0xAA, 0xBB, 0xCC, 0xDD, 0xEE, 0xFF];
    let mut d = SafeDecoder::new(&bytes);
    let len = d.read_u16().unwrap();
    assert_eq!(len, 3);
    let chunk = d.read_slice(2 * len as usize).unwrap();
    assert_eq!(chunk, &[0xAA, 0xBB, 0xCC, 0xDD, 0xEE, 0xFF]);
    let slice = Slice::new(chunk, len);
    assert_eq!(slice.length(), 3);
    // Each element is the little-endian 16-bit word, read as a signed index.
    assert_eq!(slice.get(0), reg(0xBBAAu16 as i16));
    assert_eq!(slice.get(1), reg(0xDDCCu16 as i16));
    assert_eq!(slice.get(2), reg(0xFFEEu16 as i16));
    assert_eq!(d.pos(), 8);
}

#[test]
fn opcode_bounds() {
    // 0x012D = 301 lies above MAX_OP, so the opcode word is rejected
    // with its own position and value.
    let bytes = [0x2D, 0x01];
    assert!(301 > MAX_OP);
    let mut d = SafeOpDecoder::new(&bytes);
    assert_eq!(d.decode(), Err(DecodeError::InvalidOpCode { pos: 0, value: 301 }));
    assert_eq!(d.pos(), 0);
}

#[test]
fn opcode_denseness() {
    // Exactly the words 0..=MAX_OP are valid opcodes, and the two tag
    // maps invert each other.
    for tag in 0..=MAX_OP {
        let code = op_code_from_u16(tag);
        assert!(code.is_some());
        assert_eq!(op_code_to_u16(code.unwrap()), tag);
    }
    for tag in (MAX_OP + 1)..=(MAX_OP + 300) {
        assert!(op_code_from_u16(tag).is_none());
    }
    assert_eq!(op_code_from_u16(u16::MAX), None);
}

#[test]
fn return_encodes_as_tag_only() {
    assert_eq!(encode_op_to_vec(&Op::Return), vec![0x01, 0x00]);
    assert_eq!(encode_op_to_vec(&Op::ReturnReg { value: reg(7) }), vec![0x02, 0x00, 0x07, 0x00]);
}

#[test]
fn op_round_trips() {
    let backing = [0x05, 0x00, 0xFF, 0xFF];
    let ops = [
        Op::Trap { trap_code: TrapCode::MemoryOutOfBounds },
        Op::Return,
        Op::ReturnReg { value: reg(-3) },
        Op::BranchTableTarget {
            results: RegSpan { head: reg(4) },
            offset: BranchTableTarget { value: -70000 },
        },
        Op::ApplySign { result: reg(1), input: reg(2), sign: Sign::Neg },
        Op::CopyBool { result: reg(9), value: true },
        Op::I32DivUImm16 { result: reg(0), lhs: reg(1), rhs: NonZeroU16 { value: 7 } },
        Op::CopyMany { results: RegSpan { head: reg(10) }, values: Slice::new(&backing, 2) },
        Op::I32Store8Offset16Imm { ptr: reg(3), offset: 65535, value: -128 },
        Op::I32Store { ptr: reg(2), memory: Memory { index: 1 } },
        Op::I32StoreImm16 { ptr: reg(2), memory: Memory { index: 0 } },
        Op::I32StoreOffset16 { ptr: reg(1), offset: 16, value: reg(5) },
        Op::I32StoreOffset16Imm16 { ptr: reg(1), offset: 16, value: Const16 { value: -2 } },
        Op::I32StoreAt { value: reg(6), address: 0xDEAD_BEEF },
        Op::I32StoreAtImm16 { value: Const16 { value: 300 }, address: 4 },
        Op::RegisterAndImm32 { reg: reg(3), imm: AnyConst32 { bits: 16 } },
        Op::Imm16AndImm32 { imm16: AnyConst16 { value: -1 }, imm32: AnyConst32 { bits: 99 } },
        Op::MemoryIndex { memory: Memory { index: 2 } },
    ];
    for op in ops.iter() {
        let bytes = encode_op_to_vec(op);
        let mut d = SafeOpDecoder::new(&bytes);
        let back = d.decode().unwrap();
        assert_eq!(&back, op);
        // The whole encoding was consumed: the cursor stands at its end.
        assert_eq!(d.pos(), bytes.len());
    }
}

#[test]
fn stream_round_trip() {
    let ops = vec![
        Op::ApplySign { result: reg(1), input: reg(2), sign: Sign::Pos },
        Op::Return,
        Op::I32Store { ptr: reg(2), memory: Memory { index: 0 } },
        Op::RegisterAndImm32 { reg: reg(3), imm: AnyConst32 { bits: 16 } },
        Op::Trap { trap_code: TrapCode::OutOfFuel },
    ];
    let bytes = encode_stream(&ops);
    let mut d = SafeOpDecoder::new(&bytes);
    let back = d.decode_stream().unwrap();
    assert_eq!(back, ops);
    assert_eq!(d.pos(), bytes.len());
}

#[test]
fn safe_and_unchecked_agree() {
    let ops = vec![
        Op::CopyBool { result: reg(0), value: false },
        Op::ReturnReg { value: reg(11) },
        Op::I32StoreOffset16 { ptr: reg(1), offset: 32, value: reg(2) },
    ];
    let bytes = encode_stream(&ops);

    let mut safe = SafeOpDecoder::new(&bytes);
    let from_safe = safe.decode_stream().unwrap();

    let mut unchecked = UnsafeOpDecoder::new(&bytes);
    let from_unchecked = unchecked.decode_stream();

    assert_eq!(from_safe, from_unchecked);
    assert_eq!(safe.pos(), unchecked.pos());
}

#[test]
fn cursor_tracks_instruction_boundaries() {
    let ops = vec![
        Op::Return,                                                      // 2 bytes
        Op::ReturnReg { value: reg(1) },                                 // 4 bytes
        Op::ApplySign { result: reg(1), input: reg(2), sign: Sign::Neg },  // 7 bytes
        Op::Trap { trap_code: TrapCode::BadSignature },                  // 3 bytes
    ];
    let bytes = encode_stream(&ops);
    assert_eq!(bytes.len(), 2 + 4 + 7 + 3);
    let mut d = SafeOpDecoder::new(&bytes);
    assert_eq!(d.pos(), 0);
    d.decode().unwrap();
    assert_eq!(d.pos(), 2);
    d.decode().unwrap();
    assert_eq!(d.pos(), 6);
    d.decode().unwrap();
    assert_eq!(d.pos(), 13);
    d.decode().unwrap();
    assert_eq!(d.pos(), 16);
}

#[test]
fn invalid_bytes_inside_instructions() {
    // CopyBool (tag 5) with a boolean byte of 2: rejected at the byte's
    // own position.
    let bytes = [0x05, 0x00, 0x01, 0x00, 0x02];
    let mut d = SafeOpDecoder::new(&bytes);
    assert_eq!(d.decode(), Err(DecodeError::InvalidBool { pos: 4, value: 2 }));
    // Fail fast: the cursor is frozen at the offending byte.
    assert_eq!(d.pos(), 4);

    // ApplySign (tag 4) with a sign byte of 9.
    let bytes = [0x04, 0x00, 0x01, 0x00, 0x02, 0x00, 0x09];
    let mut d = SafeOpDecoder::new(&bytes);
    assert_eq!(d.decode(), Err(DecodeError::InvalidSign { pos: 6, value: 9 }));
    assert_eq!(d.pos(), 6);

    // I32DivUImm16 (tag 6) with a zero divisor.
    let bytes = [0x06, 0x00, 0x00, 0x00, 0x01, 0x00, 0x00, 0x00];
    let mut d = SafeOpDecoder::new(&bytes);
    assert_eq!(d.decode(), Err(DecodeError::InvalidNonZeroValue { pos: 6 }));

    // Trap (tag 0) with an unknown trap byte.
    let bytes = [0x00, 0x00, 0x0B];
    let mut d = SafeOpDecoder::new(&bytes);
    assert_eq!(d.decode(), Err(DecodeError::InvalidTrapCode { pos: 2, value: 11 }));
}

#[test]
fn truncation_yields_end_of_stream_at_cut() {
    let ops = vec![
        Op::ReturnReg { value: reg(1) },  // bytes 0..4
        Op::ApplySign { result: reg(1), input: reg(2), sign: Sign::Neg },  // bytes 4..11
    ];
    let bytes = encode_stream(&ops);
    assert_eq!(bytes.len(), 11);
    // Cut anywhere strictly inside an instruction: the safe decoder
    // reports the truncation point itself.
    for cut in [1, 2, 3, 5, 6, 7, 8, 9, 10] {
        let mut d = SafeOpDecoder::new(&bytes[..cut]);
        assert_eq!(d.decode_stream(), Err(DecodeError::EndOfStream { pos: cut }));
    }
    // Cut on a boundary: the prefix is itself a well-formed stream.
    let mut d = SafeOpDecoder::new(&bytes[..4]);
    assert_eq!(d.decode_stream().unwrap(), vec![ops[0]]);
}

#[test]
fn copy_many_round_trip_through_stream() {
    let backing = [0x01, 0x00, 0x02, 0x00, 0x03, 0x00];
    let op = Op::CopyMany { results: RegSpan { head: reg(8) }, values: Slice::new(&backing, 3) };
    let bytes = encode_op_to_vec(&op);
    // head (2) + tag (2) + length (2) + 3 elements of 2 bytes.
    assert_eq!(bytes.len(), 12);
    let mut d = SafeOpDecoder::new(&bytes);
    match d.decode().unwrap() {
        Op::CopyMany { results, values } => {
            assert_eq!(results.head, reg(8));
            assert_eq!(values.length(), 3);
            assert_eq!(values.get(0), reg(1));
            assert_eq!(values.get(1), reg(2));
            assert_eq!(values.get(2), reg(3));
        }
        other => panic!("decoded the wrong variant: {:?}", other),
    }
}

#[test]
fn primitive_integer_reads() {
    let bytes = [
        0x01, 0x02, 0x03, 0x04, 0x05, 0x06, 0x07, 0x08, 0x09, 0x0A, 0x0B, 0x0C, 0x0D, 0x0E, 0x0F,
        0x80,
    ];
    let mut d = SafeDecoder::new(&bytes);
    assert_eq!(d.read_u128().unwrap(), 0x800F0E0D0C0B0A090807060504030201u128);

    let mut d = SafeDecoder::new(&bytes);
    assert_eq!(d.read_u16().unwrap(), 0x0201);
    assert_eq!(d.read_u32().unwrap(), 0x06050403);
    assert_eq!(d.read_u64().unwrap(), 0x0E0D0C0B0A090807);
    assert_eq!(d.read_i8().unwrap(), 0x0F);
    assert_eq!(d.read_u8().unwrap(), 0x80);
    assert_eq!(d.read_u8(), Err(DecodeError::EndOfStream { pos: 16 }));

    let mut d = SafeDecoder::new(&[0xFF, 0xFF, 0xFE, 0xFF, 0xFF, 0xFF, 0x80]);
    assert_eq!(d.read_i16().unwrap(), -1);
    assert_eq!(d.read_i32().unwrap(), -2);
    assert_eq!(d.read_i8().unwrap(), -128);

    let all_ones = [0xFFu8; 16];
    let mut d = SafeDecoder::new(&all_ones);
    assert_eq!(d.read_i64().unwrap(), -1);
    let mut d = SafeDecoder::new(&all_ones);
    assert_eq!(d.read_i128().unwrap(), -1);

    let mut d = UnsafeDecoder::new(&bytes);
    assert_eq!(d.read_u16(), 0x0201);
    assert_eq!(d.read_u32(), 0x06050403);
    assert_eq!(d.pos(), 6);
}

#[test]
fn fixed_size_array_reads() {
    let bytes = [0x10, 0x20, 0x30, 0x40, 0x50];
    let mut d = SafeDecoder::new(&bytes);
    assert_eq!(d.read::<2>(), Ok([0x10, 0x20]));
    assert_eq!(d.read::<3>(), Ok([0x30, 0x40, 0x50]));
    assert_eq!(d.read::<1>(), Err(DecodeError::EndOfStream { pos: 5 }));
    assert_eq!(d.pos(), 5);

    let mut d = UnsafeDecoder::new(&bytes);
    assert_eq!(d.read::<4>(), [0x10, 0x20, 0x30, 0x40]);
    assert_eq!(d.pos(), 4);
}

#[test]
fn error_messages_name_the_kind() {
    assert_eq!(DecodeError::EndOfStream { pos: 3 }.message(), "unexpected end of stream");
    assert_eq!(DecodeError::InvalidOpCode { pos: 0, value: 301 }.message(), "invalid op-code");
    assert_eq!(DecodeError::InvalidTrapCode { pos: 1, value: 11 }.message(), "invalid trap code");
    assert_eq!(DecodeError::InvalidBool { pos: 0, value: 2 }.message(), "invalid bool value");
    assert_eq!(DecodeError::InvalidSign { pos: 0, value: 2 }.message(), "invalid sign value");
    assert_eq!(
        DecodeError::InvalidNonZeroValue { pos: 0 }.message(),
        "invalid non-zero value"
    );
}

#[test]
fn dispatch_splits_tag_and_operands() {
    let bytes = encode_op_to_vec(&Op::ReturnReg { value: reg(12) });
    let mut d = UnsafeOpDecoder::new(&bytes);
    let (code, variant) = d.dispatch();
    assert_eq!(code, OpCode::ReturnReg);
    let (rest, op) = variant.decode(code);
    assert_eq!(op, Op::ReturnReg { value: reg(12) });
    assert_eq!(rest.pos(), bytes.len());
}

#[test]
fn unsafe_decoder_offset_rebases() {
    let ops = vec![Op::Return, Op::ReturnReg { value: reg(2) }];
    let bytes = encode_stream(&ops);
    let d = UnsafeOpDecoder::new(&bytes);
    // Skip over the two-byte `Return` encoding.
    let mut d2 = d.offset(2);
    assert_eq!(d2.decode(), Op::ReturnReg { value: reg(2) });
    // Rebase backward, as a taken branch would, and decode again.
    let mut d3 = d2.offset(-4);
    assert_eq!(d3.pos(), 2);
    assert_eq!(d3.decode(), Op::ReturnReg { value: reg(2) });
}
