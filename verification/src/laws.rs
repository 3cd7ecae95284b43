//! The laws of the codec, stated over the same decoding and encoding
//! functions that the decoders' and encoder's contracts use.

use crate::codec::{
    dec_bool, dec_non_zero_u16, dec_op, dec_sign, dec_stream, enc_op, enc_stream,
    lemma_dec_op_of_enc, lemma_dec_stream_of_enc, stream_wf, Decoded,
};
use crate::encode::lemma_enc_stream_concat;
use crate::error::DecodeError;
use crate::op::{op_wf, OpV, MAX_OP};
use crate::prim::{NonZeroU16, Sign};
use crate::wire::le16;
use vstd::prelude::*;

verus! {

broadcast use vstd::seq::group_seq_axioms;

/// Round-trip: decoding the encoding of any well-formed instruction
/// finds exactly that instruction, consuming exactly its encoding.
pub proof fn lemma_op_round_trip(v: OpV)
    requires
        op_wf(v),
    ensures
        dec_op(enc_op(v), 0) == (Decoded::Found { value: v, next: enc_op(v).len() as int }),
{
    let s = enc_op(v);
    assert(s.subrange(0, s.len() as int) =~= s + Seq::<u8>::empty());
    lemma_dec_op_of_enc(s, 0, v, Seq::empty());
}

/// Stream round-trip: decoding the encoding of any finite sequence of
/// well-formed instructions recovers exactly that sequence.
pub proof fn lemma_stream_round_trip(vs: Seq<OpV>)
    requires
        stream_wf(vs),
    ensures
        dec_stream(enc_stream(vs), 0) == (Decoded::Found {
            value: vs,
            next: enc_stream(vs).len() as int,
        }),
{
    let s = enc_stream(vs);
    assert(s.subrange(0, s.len() as int) =~= s);
    lemma_dec_stream_of_enc(s, 0, vs);
}

/// Safe/unchecked agreement: the contracts of both decoders pin their
/// records to the one decoding function, so whatever each returns on a
/// well-formed stream, the records and final cursors coincide.
pub proof fn lemma_safe_unchecked_agree(
    s: Seq<u8>,
    safe: Seq<OpV>,
    safe_next: int,
    unchecked: Seq<OpV>,
    unchecked_next: int,
)
    requires
        dec_stream(s, 0) == (Decoded::Found { value: safe, next: safe_next }),
        dec_stream(s, 0) == (Decoded::Found { value: unchecked, next: unchecked_next }),
    ensures
        safe == unchecked,
        safe_next == unchecked_next,
{
}

/// The position where instruction `k` of an encoded sequence starts.
pub open spec fn start_of(vs: Seq<OpV>, k: int) -> int {
    enc_stream(vs.take(k)).len() as int
}

/// Cursor monotonicity: in the encoding of a well-formed sequence,
/// decoding instruction `k` starts at its own first byte and leaves the
/// cursor exactly at the first byte of instruction `k + 1`.
pub proof fn lemma_cursor_boundaries(vs: Seq<OpV>, k: int)
    requires
        stream_wf(vs),
        0 <= k < vs.len(),
    ensures
        dec_op(enc_stream(vs), start_of(vs, k)) == (Decoded::Found {
            value: vs[k],
            next: start_of(vs, k + 1),
        }),
{
    let s = enc_stream(vs);
    let p = start_of(vs, k);
    let head = vs.take(k);
    let tail = vs.skip(k);
    assert(vs =~= head + tail);
    lemma_enc_stream_concat(head, tail);
    assert(s == enc_stream(head) + enc_stream(tail));
    assert(tail.subrange(1, tail.len() as int) =~= vs.skip(k + 1));
    assert(enc_stream(tail) == enc_op(vs[k]) + enc_stream(vs.skip(k + 1)));
    assert(s.subrange(p, s.len() as int) =~= enc_stream(tail)) by {
        assert forall|i: int| 0 <= i < enc_stream(tail).len() implies s.subrange(
            p,
            s.len() as int,
        )[i] == enc_stream(tail)[i] by {
            assert(s[p + i] == (enc_stream(head) + enc_stream(tail))[p + i]);
        }
    }
    lemma_dec_op_of_enc(s, p, vs[k], enc_stream(vs.skip(k + 1)));
    assert(start_of(vs, k + 1) == p + enc_op(vs[k]).len()) by {
        assert(vs.take(k + 1) =~= head + seq![vs[k]]);
        lemma_enc_stream_concat(head, seq![vs[k]]);
        assert(seq![vs[k]].subrange(1, 1) =~= Seq::<OpV>::empty());
        assert(enc_stream(Seq::<OpV>::empty()) =~= Seq::<u8>::empty());
        assert(enc_stream(seq![vs[k]]) =~= enc_op(vs[k]));
    }
}

/// Every word in `0..=MAX_OP` at an opcode position decodes to an
/// opcode: the valid opcodes are dense.
pub proof fn lemma_in_range_op_code(s: Seq<u8>, p: int)
    requires
        0 <= p,
        p + 2 <= s.len(),
        le16(s, p) <= MAX_OP,
    ensures
        crate::codec::dec_op_code(s, p) matches Decoded::Found { value: c, next }
            && crate::op::op_code_tag(c) == le16(s, p) && next == p + 2,
{
    crate::op::lemma_op_code_dense();
}

/// Out-of-range rejection: a 16-bit word above `MAX_OP` at an opcode
/// position fails the decode with `InvalidOpCode`, naming the word and
/// its own position.
pub proof fn lemma_out_of_range_op_code(s: Seq<u8>, p: int)
    requires
        0 <= p,
        p + 2 <= s.len(),
        le16(s, p) > MAX_OP,
    ensures
        dec_op(s, p) == (Decoded::Failed::<OpV> {
            err: DecodeError::InvalidOpCode { pos: p as usize, value: le16(s, p) },
        }),
{
    crate::op::lemma_op_code_dense();
}

/// Boolean and sign rejection: a byte other than 0 or 1 at a boolean
/// or sign position fails the decode with `InvalidBool` or
/// `InvalidSign`, naming the byte and its position.
pub proof fn lemma_bool_sign_rejection(s: Seq<u8>, p: int)
    requires
        0 <= p,
        p + 1 <= s.len(),
        s[p] != 0,
        s[p] != 1,
    ensures
        dec_bool(s, p) == (Decoded::Failed::<bool> {
            err: DecodeError::InvalidBool { pos: p as usize, value: s[p] },
        }),
        dec_sign(s, p) == (Decoded::Failed::<Sign> {
            err: DecodeError::InvalidSign { pos: p as usize, value: s[p] },
        }),
{
}

/// Non-zero rejection: a zero word at a non-zero integer position
/// fails the decode with `InvalidNonZeroValue` at that position.
pub proof fn lemma_non_zero_rejection(s: Seq<u8>, p: int)
    requires
        0 <= p,
        p + 2 <= s.len(),
        le16(s, p) == 0,
    ensures
        dec_non_zero_u16(s, p) == (Decoded::Failed::<NonZeroU16> {
            err: DecodeError::InvalidNonZeroValue { pos: p as usize },
        }),
{
}

/// Truncation, at a position inside the stream: decoding a suffix that
/// is the encoding of a well-formed sequence, cut at `t` strictly
/// inside one of its instructions, fails with the end-of-stream error
/// naming the cut.
proof fn lemma_truncation_at(s: Seq<u8>, t: int, p: int, vs: Seq<OpV>)
    requires
        stream_wf(vs),
        0 <= p < t <= s.len(),
        s.subrange(p, s.len() as int) == enc_stream(vs),
        forall|k: int| 0 <= k <= vs.len() ==> p + #[trigger] start_of(vs, k) != t,
    ensures
        dec_stream(s.take(t), p) == (Decoded::Failed::<Seq<OpV>> {
            err: DecodeError::EndOfStream { pos: t as usize },
        }),
    decreases vs.len(),
{
    let st = s.take(t);
    if vs.len() == 0 {
        assert(s.subrange(p, s.len() as int).len() == 0);
    } else {
        let tail = vs.subrange(1, vs.len() as int);
        assert(enc_stream(vs) == enc_op(vs[0]) + enc_stream(tail));
        assert(op_wf(vs[0]));
        let len0 = enc_op(vs[0]).len() as int;
        crate::codec::lemma_dec_op_of_enc_truncated(s, t, p, vs[0], enc_stream(tail));
        assert(p + start_of(vs, 1) != t);
        assert(start_of(vs, 1) == len0) by {
            assert(vs.take(1) =~= seq![vs[0]]);
            assert(seq![vs[0]].subrange(1, 1) =~= Seq::<OpV>::empty());
            assert(enc_stream(Seq::<OpV>::empty()) =~= Seq::<u8>::empty());
            assert(enc_stream(seq![vs[0]]) =~= enc_op(vs[0]));
        }
        if t < p + len0 {
            // The cut falls inside the first instruction.
        } else {
            // The cut falls strictly beyond the first instruction, which
            // therefore decodes whole; recurse into the tail.
            lemma_dec_op_of_enc(s, p, vs[0], enc_stream(tail));
            assert(stream_wf(tail)) by {
                assert forall|i: int| 0 <= i < tail.len() implies op_wf(#[trigger] tail[i]) by {
                    assert(tail[i] == vs[i + 1]);
                }
            }
            assert(forall|k: int|
                0 <= k <= tail.len() ==> (p + len0) + #[trigger] start_of(tail, k) != t) by {
                assert forall|k: int| 0 <= k <= tail.len() implies (p + len0) + #[trigger] start_of(
                    tail,
                    k,
                ) != t by {
                    assert(vs.take(k + 1) =~= seq![vs[0]] + tail.take(k));
                    lemma_enc_stream_concat(seq![vs[0]], tail.take(k));
                    assert(seq![vs[0]].subrange(1, 1) =~= Seq::<OpV>::empty());
                    assert(enc_stream(Seq::<OpV>::empty()) =~= Seq::<u8>::empty());
                    assert(enc_stream(seq![vs[0]]) =~= enc_op(vs[0]));
                    assert(start_of(vs, k + 1) == len0 + start_of(tail, k));
                    assert(p + start_of(vs, k + 1) != t);
                }
            }
            lemma_truncation_at(s, t, p + len0, tail);
        }
    }
}

/// Truncation: cut the encoding of a well-formed instruction sequence
/// anywhere that is not an instruction boundary, and the safe decode of
/// the prefix fails with `EndOfStream` naming exactly the truncation
/// point.
pub proof fn lemma_truncation(vs: Seq<OpV>, t: int)
    requires
        stream_wf(vs),
        0 <= t <= enc_stream(vs).len(),
        forall|k: int| 0 <= k <= vs.len() ==> #[trigger] start_of(vs, k) != t,
    ensures
        dec_stream(enc_stream(vs).take(t), 0) == (Decoded::Failed::<Seq<OpV>> {
            err: DecodeError::EndOfStream { pos: t as usize },
        }),
{
    let s = enc_stream(vs);
    assert(start_of(vs, 0) == 0) by {
        assert(vs.take(0) =~= Seq::<OpV>::empty());
        assert(enc_stream(Seq::<OpV>::empty()) =~= Seq::<u8>::empty());
    }
    assert(t != 0);
    assert(s.subrange(0, s.len() as int) =~= s);
    lemma_truncation_at(s, t, 0, vs);
}

/// Every end-of-stream failure of the instruction decoder names the
/// stream's length: the point at which the stream was cut short.
#[verifier::rlimit(100)]
pub proof fn lemma_op_end_of_stream_pos(s: Seq<u8>, p: int)
    requires
        s.len() <= usize::MAX,
    ensures
        dec_op(s, p) matches Decoded::Failed { err: DecodeError::EndOfStream { pos } } ==> pos
            == s.len(),
{
}

/// Every end-of-stream failure of the stream decoder names the
/// stream's length.
pub proof fn lemma_stream_end_of_stream_pos(s: Seq<u8>, p: int)
    requires
        0 <= p <= s.len(),
        s.len() <= usize::MAX,
    ensures
        dec_stream(s, p) matches Decoded::Failed { err: DecodeError::EndOfStream { pos } } ==> pos
            == s.len(),
    decreases s.len() - p,
{
    if p != s.len() {
        crate::codec::lemma_dec_op_advances(s, p);
        lemma_op_end_of_stream_pos(s, p);
        match dec_op(s, p) {
            Decoded::Found { value, next } => {
                lemma_stream_end_of_stream_pos(s, next);
            },
            Decoded::Failed { .. } => {},
        }
    }
}

} // verus!

