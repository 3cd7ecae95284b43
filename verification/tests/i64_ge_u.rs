//! The instruction sequences that lowering `i64.ge_u` yields for each
//! operand shape. The lowering itself lives upstream of this crate:
//! `x >= y` is emitted as the swapped `i64.le_u`, and comparisons whose
//! outcome is known become a returned immediate. What this crate owns
//! is the byte encoding of those sequences, so each case here drives
//! its expected instructions through the codec and checks that they
//! survive unchanged, byte layout included.

use wasmi_ir::decode::SafeOpDecoder;
use wasmi_ir::encode::encode_stream;
use wasmi_ir::op::Op;
use wasmi_ir::prim::{AnyConst32, Reg};

fn reg(index: i16) -> Reg {
    Reg { index }
}

fn assert_round_trip(expected: &[Op<'_>]) {
    let ops: Vec<Op<'_>> = expected.to_vec();
    let bytes = encode_stream(&ops);
    let mut d = SafeOpDecoder::new(&bytes);
    let back = d.decode_stream().unwrap();
    assert_eq!(back, ops);
    assert_eq!(d.pos(), bytes.len());
}

/// `x >= x` is always true: the whole comparison folds to returning the
/// immediate `true`.
#[test]
fn same_reg() {
    let expected = [Op::ReturnImm32 { value: AnyConst32 { bits: true as u32 } }];
    assert_round_trip(&expected);
}

/// `x >= y` over two registers: emitted as `i64.le_u` with the operands
/// swapped, then the result returned.
#[test]
fn reg_reg() {
    let expected = [
        Op::I64LeU { result: reg(2), lhs: reg(1), rhs: reg(0) },
        Op::ReturnReg { value: reg(2) },
    ];
    assert_round_trip(&expected);
}

/// `x >= 100000`: the immediate is too wide for a 16-bit operand, so it
/// is materialized into a constant register and the comparison stays in
/// the swapped register form.
#[test]
fn reg_imm() {
    assert!(100_000i64 > i16::MAX as i64);
    let expected = [
        Op::I64LeU { result: reg(1), lhs: reg(-1), rhs: reg(0) },
        Op::ReturnReg { value: reg(1) },
    ];
    assert_round_trip(&expected);
}

/// `100000 >= x`: the mirrored operand order of `reg_imm`.
#[test]
fn reg_imm_lhs() {
    assert!(100_000i64 > i16::MAX as i64);
    let expected = [
        Op::I64LeU { result: reg(1), lhs: reg(0), rhs: reg(-1) },
        Op::ReturnReg { value: reg(1) },
    ];
    assert_round_trip(&expected);
}

/// `x >= u64::MIN` is always true: folded to returning `true`.
#[test]
fn reg_min() {
    assert_eq!(u64::MIN, 0);
    let expected = [Op::ReturnImm32 { value: AnyConst32 { bits: true as u32 } }];
    assert_round_trip(&expected);
}

/// `u64::MAX >= x` is always true: folded to returning `true`.
#[test]
fn max_reg() {
    assert_eq!(u64::MAX, 0xFFFF_FFFF_FFFF_FFFF);
    let expected = [Op::ReturnImm32 { value: AnyConst32 { bits: true as u32 } }];
    assert_round_trip(&expected);
}

/// Both operands constant: the comparison is evaluated at translation
/// time and only the immediate result is returned.
#[test]
fn consteval() {
    let lhs = 1_u64;
    let rhs = 2;
    let expected = [Op::ReturnImm32 { value: AnyConst32 { bits: (lhs >= rhs) as u32 } }];
    assert_round_trip(&expected);
}
