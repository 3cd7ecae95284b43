//! The byte-stream encoder: emits the encoding that the decoding
//! functions read back, which is what the round-trip laws are proved
//! against.

use crate::codec::{enc_elems, enc_op, enc_stream};
use crate::op::{op_wf, Op, OpV};
use crate::prim::{i16_to_u16, i8_to_u8, trap_code_to_u8, Sign};
use crate::wire::{push_le16, push_le32};
use vstd::prelude::*;

verus! {

broadcast use vstd::seq::group_seq_axioms;

/// Splitting a run of elements splits its encoding.
pub proof fn lemma_enc_elems_concat(a: Seq<crate::prim::Reg>, b: Seq<crate::prim::Reg>)
    ensures
        enc_elems(a + b) == enc_elems(a) + enc_elems(b),
    decreases a.len(),
{
    if a.len() == 0 {
        assert(a + b =~= b);
        assert(enc_elems(a) + enc_elems(b) =~= enc_elems(b));
    } else {
        assert((a + b).subrange(1, (a + b).len() as int) =~= a.subrange(1, a.len() as int) + b);
        lemma_enc_elems_concat(a.subrange(1, a.len() as int), b);
        assert(enc_elems(a + b) =~= enc_elems(a) + enc_elems(b));
    }
}

/// Splitting a sequence of instructions splits its encoding.
pub proof fn lemma_enc_stream_concat(a: Seq<OpV>, b: Seq<OpV>)
    ensures
        enc_stream(a + b) == enc_stream(a) + enc_stream(b),
    decreases a.len(),
{
    if a.len() == 0 {
        assert(a + b =~= b);
        assert(enc_stream(a) + enc_stream(b) =~= enc_stream(b));
    } else {
        assert((a + b).subrange(1, (a + b).len() as int) =~= a.subrange(1, a.len() as int) + b);
        lemma_enc_stream_concat(a.subrange(1, a.len() as int), b);
        assert(enc_stream(a + b) =~= enc_stream(a) + enc_stream(b));
    }
}

/// Appends the encoding of one instruction: its opcode word, then its
/// operand fields in schema order.
pub fn encode_op(op: &Op<'_>, out: &mut Vec<u8>)
    requires
        op_wf(op@),
        op.slices_wf(),
    ensures
        final(out)@ == old(out)@ + enc_op(op@),
{
    let tag: u16 = crate::op::op_code_to_u16(op.op_code());
    push_le16(out, tag);
    match op {
        Op::Trap { trap_code } => {
            out.push(trap_code_to_u8(*trap_code));
        },
        Op::Return => {},
        Op::ReturnReg { value } => {
            push_le16(out, i16_to_u16(value.index));
        },
        Op::BranchTableTarget { results, offset } => {
            push_le16(out, i16_to_u16(results.head.index));
            push_le32(out, crate::prim::i32_to_u32(offset.value));
        },
        Op::ApplySign { result, input, sign } => {
            push_le16(out, i16_to_u16(result.index));
            push_le16(out, i16_to_u16(input.index));
            out.push(
                match sign {
                    Sign::Pos => 0u8,
                    Sign::Neg => 1u8,
                },
            );
        },
        Op::CopyBool { result, value } => {
            push_le16(out, i16_to_u16(result.index));
            out.push(
                if *value {
                    1u8
                } else {
                    0u8
                },
            );
        },
        Op::I32DivUImm16 { result, lhs, rhs } => {
            push_le16(out, i16_to_u16(result.index));
            push_le16(out, i16_to_u16(lhs.index));
            push_le16(out, rhs.value);
        },
        Op::CopyMany { results, values } => {
            push_le16(out, i16_to_u16(results.head.index));
            let n: u16 = values.length();
            push_le16(out, n);
            let ghost base = out@;
            let mut i: u16 = 0;
            while i < n
                invariant
                    values.wf(),
                    n as int == values@.len(),
                    0 <= i <= n,
                    out@ == base + enc_elems(values@.take(i as int)),
                decreases n - i,
            {
                let element = values.get(i);
                push_le16(out, i16_to_u16(element.index));
                proof {
                    let vs = values@;
                    assert(vs.take(i + 1 as int) =~= vs.take(i as int) + seq![vs[i as int]]);
                    lemma_enc_elems_concat(vs.take(i as int), seq![vs[i as int]]);
                    assert(seq![vs[i as int]].subrange(1, 1) =~= Seq::<crate::prim::Reg>::empty());
                    assert(enc_elems(Seq::<crate::prim::Reg>::empty()) =~= Seq::<u8>::empty());
                    assert(enc_elems(seq![vs[i as int]]) =~= crate::codec::enc_reg(vs[i as int]));
                }
                i = i + 1;
            }
            proof {
                assert(values@.take(n as int) =~= values@);
            }
        },
        Op::I32Store8Offset16Imm { ptr, offset, value } => {
            push_le16(out, i16_to_u16(ptr.index));
            push_le16(out, *offset);
            out.push(i8_to_u8(*value));
        },
        Op::I32Store { ptr, memory } => {
            push_le16(out, i16_to_u16(ptr.index));
            push_le16(out, memory.index);
        },
        Op::I32StoreImm16 { ptr, memory } => {
            push_le16(out, i16_to_u16(ptr.index));
            push_le16(out, memory.index);
        },
        Op::I32StoreOffset16 { ptr, offset, value } => {
            push_le16(out, i16_to_u16(ptr.index));
            push_le16(out, *offset);
            push_le16(out, i16_to_u16(value.index));
        },
        Op::I32StoreOffset16Imm16 { ptr, offset, value } => {
            push_le16(out, i16_to_u16(ptr.index));
            push_le16(out, *offset);
            push_le16(out, i16_to_u16(value.value));
        },
        Op::I32StoreAt { value, address } => {
            push_le16(out, i16_to_u16(value.index));
            push_le32(out, *address);
        },
        Op::I32StoreAtImm16 { value, address } => {
            push_le16(out, i16_to_u16(value.value));
            push_le32(out, *address);
        },
        Op::RegisterAndImm32 { reg, imm } => {
            push_le16(out, i16_to_u16(reg.index));
            push_le32(out, imm.bits);
        },
        Op::Imm16AndImm32 { imm16, imm32 } => {
            push_le16(out, i16_to_u16(imm16.value));
            push_le32(out, imm32.bits);
        },
        Op::MemoryIndex { memory } => {
            push_le16(out, memory.index);
        },
        Op::ReturnImm32 { value } => {
            push_le32(out, value.bits);
        },
        Op::I64LeU { result, lhs, rhs } => {
            push_le16(out, i16_to_u16(result.index));
            push_le16(out, i16_to_u16(lhs.index));
            push_le16(out, i16_to_u16(rhs.index));
        },
    }
    proof {
        assert(out@ =~= old(out)@ + enc_op(op@));
    }
}

/// Encodes one instruction into a fresh byte vector.
pub fn encode_op_to_vec(op: &Op<'_>) -> (r: Vec<u8>)
    requires
        op_wf(op@),
        op.slices_wf(),
    ensures
        r@ == enc_op(op@),
{
    let mut out: Vec<u8> = Vec::new();
    encode_op(op, &mut out);
    proof {
        assert(out@ =~= enc_op(op@));
    }
    out
}

/// Encodes a sequence of instructions: their encodings concatenated
/// without padding, so that every byte of the result belongs to exactly
/// one instruction.
pub fn encode_stream<'op>(ops: &Vec<Op<'op>>) -> (r: Vec<u8>)
    requires
        forall|i: int|
            0 <= i < ops@.len() ==> op_wf((#[trigger] ops@[i])@) && ops@[i].slices_wf(),
    ensures
        r@ == enc_stream(ops@.map_values(|o: Op<'op>| o@)),
{
    let ghost views = ops@.map_values(|o: Op<'op>| o@);
    let mut out: Vec<u8> = Vec::new();
    let n: usize = ops.len();
    let mut i: usize = 0;
    while i < n
        invariant
            views == ops@.map_values(|o: Op<'op>| o@),
            forall|k: int|
                0 <= k < ops@.len() ==> op_wf((#[trigger] ops@[k])@) && ops@[k].slices_wf(),
            n == ops@.len(),
            0 <= i <= n,
            out@ == enc_stream(views.take(i as int)),
        decreases n - i,
    {
        encode_op(&ops[i], &mut out);
        proof {
            assert(views.take(i + 1 as int) =~= views.take(i as int) + seq![views[i as int]]);
            lemma_enc_stream_concat(views.take(i as int), seq![views[i as int]]);
            assert(seq![views[i as int]].subrange(1, 1) =~= Seq::<OpV>::empty());
            assert(enc_stream(Seq::<OpV>::empty()) =~= Seq::<u8>::empty());
            assert(enc_stream(seq![views[i as int]]) =~= enc_op(views[i as int]));
        }
        i = i + 1;
    }
    proof {
        assert(views.take(n as int) =~= views);
    }
    out
}

} // verus!
