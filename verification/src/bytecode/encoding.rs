//! Instructions as the class file format lays them out, and what decoding makes of them.

use super::instruction::{
    SpecDecodeError, SpecInstruction, i32_reader, pair_reader, spec_decode, spec_decode_lookupswitch, spec_instruction_opcode,
    spec_switch_padding,
};
use super::operand::{SpecLookupSwitch, SpecTableSwitch};
use super::opcode::{Opcode, lemma_opcode_tag_roundtrip, spec_opcode_from_tag, spec_opcode_tag};
use super::operand::{lemma_array_type_tag_roundtrip, spec_array_type_tag};
use crate::cursor::{
    be_u16, be_u32, bytes_at, lemma_bytes_at, lemma_bytes_at_split, lemma_i32_as_u32, lemma_u16_be_bytes,
    lemma_u32_be_bytes, spec_i32, u16_be_bytes, u32_be_bytes,
};
use crate::read::spec_read_seq;
use vstd::prelude::*;

verus! {

/// The byte of a signed one-byte operand.
pub open spec fn spec_i8_byte(v: i8) -> u8 {
    v as u8
}

/// The big-endian bytes of a signed two-byte operand.
pub open spec fn spec_i16_bytes(v: i16) -> Seq<u8> {
    u16_be_bytes(v as u16)
}

/// The big-endian bytes of a signed four-byte operand.
pub open spec fn spec_i32_bytes(v: i32) -> Seq<u8> {
    u32_be_bytes(v as u32)
}

/// The low byte of `v`: the one-byte constant pool index of `ldc`.
pub open spec fn spec_low_byte(v: u16) -> u8 {
    v as u8
}

proof fn lemma_i8_byte(v: i8)
    ensures
        spec_i8_byte(v) as i8 == v,
{
    assert((v as u8) as i8 == v) by (bit_vector);
}

proof fn lemma_i16_bytes(v: i16)
    ensures
        spec_i16_bytes(v).len() == 2,
        be_u16(spec_i16_bytes(v)[0], spec_i16_bytes(v)[1]) as i16 == v,
{
    lemma_u16_be_bytes(v as u16);
    assert((v as u16) as i16 == v) by (bit_vector);
}

proof fn lemma_i32_bytes(v: i32)
    ensures
        spec_i32_bytes(v).len() == 4,
        be_u32(spec_i32_bytes(v)[0], spec_i32_bytes(v)[1], spec_i32_bytes(v)[2], spec_i32_bytes(v)[3]) as i32 == v,
{
    lemma_u32_be_bytes(v as u32);
    lemma_i32_as_u32(v);
}

proof fn lemma_low_byte(v: u16)
    requires
        v < 0x100,
    ensures
        spec_low_byte(v) as u16 == v,
{
}

/// The operand bytes of an instruction that has no switch table, in class file order:
/// one-byte operands as they are, wider ones big-endian, `invokeinterface` its index,
/// its count and a zero byte, `invokedynamic` its index and two zero bytes.
pub open spec fn spec_operand_bytes(i: SpecInstruction) -> Seq<u8> {
    match i {
        SpecInstruction::Aload(x)
        | SpecInstruction::Astore(x)
        | SpecInstruction::Dload(x)
        | SpecInstruction::Dstore(x)
        | SpecInstruction::Fload(x)
        | SpecInstruction::Fstore(x)
        | SpecInstruction::Iload(x)
        | SpecInstruction::Istore(x)
        | SpecInstruction::Lload(x)
        | SpecInstruction::Lstore(x)
        | SpecInstruction::Ret(x) => seq![x],
        SpecInstruction::Bipush(x) => seq![spec_i8_byte(x)],
        SpecInstruction::Anewarray(x)
        | SpecInstruction::Checkcast(x)
        | SpecInstruction::Getfield(x)
        | SpecInstruction::Getstatic(x)
        | SpecInstruction::Instanceof(x)
        | SpecInstruction::InvokeSpecial(x)
        | SpecInstruction::InvokeStatic(x)
        | SpecInstruction::InvokeVirtual(x)
        | SpecInstruction::Ldc2W(x)
        | SpecInstruction::LdcW(x)
        | SpecInstruction::New(x)
        | SpecInstruction::Putfield(x)
        | SpecInstruction::Putstatic(x) => u16_be_bytes(x),
        SpecInstruction::Goto(x)
        | SpecInstruction::IfAcmpEq(x)
        | SpecInstruction::IfAcmpNe(x)
        | SpecInstruction::IfEq(x)
        | SpecInstruction::IfGe(x)
        | SpecInstruction::IfGt(x)
        | SpecInstruction::IfIcmpeq(x)
        | SpecInstruction::IfIcmpge(x)
        | SpecInstruction::IfIcmpgt(x)
        | SpecInstruction::IfIcmple(x)
        | SpecInstruction::IfIcmplt(x)
        | SpecInstruction::IfIcmpne(x)
        | SpecInstruction::IfLe(x)
        | SpecInstruction::IfLt(x)
        | SpecInstruction::IfNe(x)
        | SpecInstruction::Ifnonnull(x)
        | SpecInstruction::Ifnull(x)
        | SpecInstruction::Jsr(x)
        | SpecInstruction::Sipush(x) => spec_i16_bytes(x),
        SpecInstruction::GotoW(x)
        | SpecInstruction::JsrW(x) => spec_i32_bytes(x),
        SpecInstruction::Ldc(x) => seq![spec_low_byte(x)],
        SpecInstruction::Iinc(a, b) => seq![a, spec_i8_byte(b)],
        SpecInstruction::InvokeDynamic(a) => u16_be_bytes(a) + seq![0u8, 0u8],
        SpecInstruction::InvokeInterface(a, c) => u16_be_bytes(a) + seq![c, 0u8],
        SpecInstruction::Multianewarray(a, d) => u16_be_bytes(a) + seq![d],
        SpecInstruction::Newarray(t) => seq![spec_array_type_tag(t)],
        _ => seq![],
    }
}

/// The class file bytes of an instruction that has no switch table: its opcode byte, then
/// its operand bytes.
pub open spec fn spec_encode(i: SpecInstruction) -> Seq<u8> {
    seq![spec_opcode_tag(spec_instruction_opcode(i)->0)] + spec_operand_bytes(i)
}

/// Decoding reads back every instruction that has an opcode and no switch table from its
/// class file bytes, wherever they stand in the code, and ends right after them. Each
/// operand comes from its own place: `invokeinterface` takes its count from the byte after
/// the index, `iinc` its signed increment from the byte after the local variable index.
/// (`ldc` holds a one-byte index, so its index is below 256.)
#[verifier::spinoff_prover]
#[verifier::rlimit(100)]
pub proof fn lemma_decode_reads_encoded(i: SpecInstruction, code: Seq<u8>, pc: int)
    requires
        spec_instruction_opcode(i) is Some,
        !(i is Lookupswitch),
        !(i is TableSwitch),
        i matches SpecInstruction::Ldc(x) ==> x < 0x100,
        bytes_at(code, pc, spec_encode(i)),
    ensures
        spec_decode(code, pc) == Ok::<(SpecInstruction, int), SpecDecodeError>((i, pc + spec_encode(i).len())),
{
    let op = spec_instruction_opcode(i)->0;
    lemma_opcode_tag_roundtrip(op, 0);
    let b = spec_encode(i);
    lemma_bytes_at(code, pc, b);
    assert(code[pc] == b[0]);
    if b.len() > 1 {
        assert(code[pc + 1] == b[1]);
    }
    match i {
        SpecInstruction::Aload(x)
        | SpecInstruction::Astore(x)
        | SpecInstruction::Dload(x)
        | SpecInstruction::Dstore(x)
        | SpecInstruction::Fload(x)
        | SpecInstruction::Fstore(x)
        | SpecInstruction::Iload(x)
        | SpecInstruction::Istore(x)
        | SpecInstruction::Lload(x)
        | SpecInstruction::Lstore(x)
        | SpecInstruction::Ret(x) => {},
        SpecInstruction::Bipush(x) => {
            lemma_i8_byte(x);
        },
        SpecInstruction::Anewarray(x)
        | SpecInstruction::Checkcast(x)
        | SpecInstruction::Getfield(x)
        | SpecInstruction::Getstatic(x)
        | SpecInstruction::Instanceof(x)
        | SpecInstruction::InvokeSpecial(x)
        | SpecInstruction::InvokeStatic(x)
        | SpecInstruction::InvokeVirtual(x)
        | SpecInstruction::Ldc2W(x)
        | SpecInstruction::LdcW(x)
        | SpecInstruction::New(x)
        | SpecInstruction::Putfield(x)
        | SpecInstruction::Putstatic(x) => {
            lemma_u16_be_bytes(x);
            assert(code[pc + 2] == b[2]);
        },
        SpecInstruction::Goto(x)
        | SpecInstruction::IfAcmpEq(x)
        | SpecInstruction::IfAcmpNe(x)
        | SpecInstruction::IfEq(x)
        | SpecInstruction::IfGe(x)
        | SpecInstruction::IfGt(x)
        | SpecInstruction::IfIcmpeq(x)
        | SpecInstruction::IfIcmpge(x)
        | SpecInstruction::IfIcmpgt(x)
        | SpecInstruction::IfIcmple(x)
        | SpecInstruction::IfIcmplt(x)
        | SpecInstruction::IfIcmpne(x)
        | SpecInstruction::IfLe(x)
        | SpecInstruction::IfLt(x)
        | SpecInstruction::IfNe(x)
        | SpecInstruction::Ifnonnull(x)
        | SpecInstruction::Ifnull(x)
        | SpecInstruction::Jsr(x)
        | SpecInstruction::Sipush(x) => {
            lemma_i16_bytes(x);
            assert(code[pc + 2] == b[2]);
        },
        SpecInstruction::GotoW(x)
        | SpecInstruction::JsrW(x) => {
            lemma_i32_bytes(x);
            assert(code[pc + 2] == b[2] && code[pc + 3] == b[3] && code[pc + 4] == b[4]);
        },
        SpecInstruction::Ldc(x) => {
            lemma_low_byte(x);
        },
        SpecInstruction::Iinc(a, c) => {
            lemma_i8_byte(c);
            assert(code[pc + 2] == b[2]);
        },
        SpecInstruction::InvokeDynamic(a) => {
            lemma_u16_be_bytes(a);
            assert(code[pc + 2] == b[2] && code[pc + 3] == b[3] && code[pc + 4] == b[4]);
        },
        SpecInstruction::InvokeInterface(a, c) => {
            lemma_u16_be_bytes(a);
            assert(code[pc + 2] == b[2] && code[pc + 3] == b[3] && code[pc + 4] == b[4]);
        },
        SpecInstruction::Multianewarray(a, d) => {
            lemma_u16_be_bytes(a);
            assert(code[pc + 2] == b[2] && code[pc + 3] == b[3]);
        },
        SpecInstruction::Newarray(t) => {
            lemma_array_type_tag_roundtrip(t, 0);
        },
        _ => {},
    }
}


/// Four bytes at `q` laid out as the big-endian bytes of `v` read as `v`.
pub proof fn lemma_i32_at(d: Seq<u8>, q: int, v: i32)
    requires
        bytes_at(d, q, spec_i32_bytes(v)),
    ensures
        spec_i32(d, q) == Some((v, q + 4)),
{
    lemma_i32_bytes(v);
    let b = spec_i32_bytes(v);
    lemma_bytes_at(d, q, b);
    assert(d[q] == b[0] && d[q + 1] == b[1] && d[q + 2] == b[2] && d[q + 3] == b[3]);
}

/// `n` zero bytes.
pub open spec fn spec_zeros(n: nat) -> Seq<u8> {
    Seq::new(n, |_i: int| 0u8)
}

/// `i32` values one after the other, big-endian.
pub open spec fn spec_i32s_bytes(vs: Seq<i32>) -> Seq<u8>
    decreases vs.len(),
{
    if vs.len() == 0 {
        seq![]
    } else {
        spec_i32s_bytes(vs.drop_last()) + spec_i32_bytes(vs.last())
    }
}

/// `(match, offset)` pairs one after the other, each as two big-endian `i32` values.
pub open spec fn spec_pairs_bytes(ps: Seq<(i32, i32)>) -> Seq<u8>
    decreases ps.len(),
{
    if ps.len() == 0 {
        seq![]
    } else {
        spec_pairs_bytes(ps.drop_last()) + spec_i32_bytes(ps.last().0) + spec_i32_bytes(ps.last().1)
    }
}

proof fn lemma_i32s_read_back(vs: Seq<i32>, d: Seq<u8>, p: int)
    requires
        bytes_at(d, p, spec_i32s_bytes(vs)),
    ensures
        spec_i32s_bytes(vs).len() == 4 * vs.len(),
        spec_read_seq(d, p, vs.len(), i32_reader()) == Ok::<(Seq<i32>, int), crate::error::SpecReadError>(
            (vs, p + 4 * vs.len()),
        ),
    decreases vs.len(),
{
    if vs.len() > 0 {
        let dl = vs.drop_last();
        lemma_i32_bytes(vs.last());
        lemma_bytes_at_split(d, p, spec_i32s_bytes(dl), spec_i32_bytes(vs.last()));
        lemma_i32s_read_back(dl, d, p);
        let q = p + 4 * dl.len();
        lemma_i32_at(d, q, vs.last());
        assert(i32_reader()(d, q) == Ok::<(i32, int), crate::error::SpecReadError>((vs.last(), q + 4)));
        assert(dl.push(vs.last()) =~= vs);
        assert(((vs.len() - 1) as nat) == dl.len());
    } else {
        assert(vs =~= Seq::<i32>::empty());
    }
}

proof fn lemma_pairs_read_back(ps: Seq<(i32, i32)>, d: Seq<u8>, p: int)
    requires
        bytes_at(d, p, spec_pairs_bytes(ps)),
    ensures
        spec_pairs_bytes(ps).len() == 8 * ps.len(),
        spec_read_seq(d, p, ps.len(), pair_reader()) == Ok::<(Seq<(i32, i32)>, int), crate::error::SpecReadError>(
            (ps, p + 8 * ps.len()),
        ),
    decreases ps.len(),
{
    if ps.len() > 0 {
        let dl = ps.drop_last();
        let (a, b) = ps.last();
        lemma_i32_bytes(a);
        lemma_i32_bytes(b);
        lemma_bytes_at_split(d, p, spec_pairs_bytes(dl) + spec_i32_bytes(a), spec_i32_bytes(b));
        lemma_bytes_at_split(d, p, spec_pairs_bytes(dl), spec_i32_bytes(a));
        lemma_pairs_read_back(dl, d, p);
        let q = p + 8 * dl.len();
        lemma_i32_at(d, q, a);
        lemma_i32_at(d, q + 4, b);
        assert(pair_reader()(d, q) == Ok::<((i32, i32), int), crate::error::SpecReadError>(((a, b), q + 8)));
        assert(dl.push(ps.last()) =~= ps);
        assert(((ps.len() - 1) as nat) == dl.len());
    } else {
        assert(ps =~= Seq::<(i32, i32)>::empty());
    }
}

/// The class file bytes of a `lookupswitch` (opcode 0xab): its zero padding, the default
/// offset, the number of pairs, then each pair's match and offset.
pub open spec fn spec_lookupswitch_bytes(s: SpecLookupSwitch) -> Seq<u8> {
    seq![0xABu8] + spec_zeros(s.padding as nat) + spec_i32_bytes(s.default_offset) + spec_i32_bytes(s.pairs.len() as i32)
        + spec_pairs_bytes(s.pairs)
}

/// The class file bytes of a `tableswitch` (opcode 0xaa): its zero padding, the default
/// offset, the low and high bounds, then one offset for each value from low to high.
pub open spec fn spec_tableswitch_bytes(s: SpecTableSwitch) -> Seq<u8> {
    seq![0xAAu8] + spec_zeros(s.padding as nat) + spec_i32_bytes(s.default_offset) + spec_i32_bytes(s.low)
        + spec_i32_bytes(s.high) + spec_i32s_bytes(s.offsets)
}

/// Decoding reads back a `lookupswitch` from its class file bytes, wherever it stands in
/// the code: the padding is what brings the default offset to a multiple of four from
/// the start of the code, and the pairs keep their order.
#[verifier::spinoff_prover]
#[verifier::rlimit(100)]
pub proof fn lemma_decode_reads_lookupswitch(s: SpecLookupSwitch, code: Seq<u8>, pc: int)
    requires
        s.padding < 4,
        (pc + 1 + s.padding) % 4 == 0,
        s.pairs.len() <= i32::MAX,
        bytes_at(code, pc, spec_lookupswitch_bytes(s)),
    ensures
        spec_decode(code, pc) == Ok::<(SpecInstruction, int), SpecDecodeError>(
            (SpecInstruction::Lookupswitch(s), pc + spec_lookupswitch_bytes(s).len()),
        ),
{
    let pad = s.padding as nat;
    let h = seq![0xABu8] + spec_zeros(pad);
    let n = s.pairs.len() as i32;
    lemma_bytes_at_split(code, pc, h + spec_i32_bytes(s.default_offset) + spec_i32_bytes(n), spec_pairs_bytes(s.pairs));
    lemma_bytes_at_split(code, pc, h + spec_i32_bytes(s.default_offset), spec_i32_bytes(n));
    lemma_bytes_at_split(code, pc, h, spec_i32_bytes(s.default_offset));
    lemma_bytes_at(code, pc, h);
    assert(code[pc] == h[0]);
    lemma_i32_bytes(s.default_offset);
    lemma_i32_bytes(n);
    lemma_i32_at(code, pc + 1 + pad, s.default_offset);
    lemma_i32_at(code, pc + 5 + pad, n);
    lemma_pairs_read_back(s.pairs, code, pc + 9 + pad);
    assert(n as nat == s.pairs.len());
    assert(spec_switch_padding(pc) == s.padding);
    assert(spec_opcode_from_tag(code[pc]) == Some(Opcode::Lookupswitch));
    assert(spec_decode_lookupswitch(code, pc) == Ok::<(SpecInstruction, int), SpecDecodeError>(
        (SpecInstruction::Lookupswitch(s), pc + 9 + pad + 8 * s.pairs.len()),
    ));
}

/// Decoding reads back a `tableswitch` with `low <= high` and one offset for each value
/// from `low` to `high`, wherever it stands in the code: the padding is what brings the
/// default offset to a multiple of four from the start of the code, and the bounds come
/// low first.
#[verifier::spinoff_prover]
#[verifier::rlimit(50)]
pub proof fn lemma_decode_reads_tableswitch(s: SpecTableSwitch, code: Seq<u8>, pc: int)
    requires
        s.padding < 4,
        (pc + 1 + s.padding) % 4 == 0,
        s.low <= s.high,
        s.offsets.len() == s.high - s.low + 1,
        bytes_at(code, pc, spec_tableswitch_bytes(s)),
    ensures
        spec_decode(code, pc) == Ok::<(SpecInstruction, int), SpecDecodeError>(
            (SpecInstruction::TableSwitch(s), pc + spec_tableswitch_bytes(s).len()),
        ),
{
    let pad = s.padding as nat;
    let h = seq![0xAAu8] + spec_zeros(pad);
    let a = h + spec_i32_bytes(s.default_offset) + spec_i32_bytes(s.low) + spec_i32_bytes(s.high);
    lemma_bytes_at_split(code, pc, a, spec_i32s_bytes(s.offsets));
    lemma_bytes_at_split(code, pc, h + spec_i32_bytes(s.default_offset) + spec_i32_bytes(s.low), spec_i32_bytes(s.high));
    lemma_bytes_at_split(code, pc, h + spec_i32_bytes(s.default_offset), spec_i32_bytes(s.low));
    lemma_bytes_at_split(code, pc, h, spec_i32_bytes(s.default_offset));
    lemma_bytes_at(code, pc, h);
    assert(code[pc] == h[0]);
    lemma_i32_bytes(s.default_offset);
    lemma_i32_bytes(s.low);
    lemma_i32_bytes(s.high);
    lemma_i32_at(code, pc + 1 + pad, s.default_offset);
    lemma_i32_at(code, pc + 5 + pad, s.low);
    lemma_i32_at(code, pc + 9 + pad, s.high);
    lemma_i32s_read_back(s.offsets, code, pc + 13 + pad);
}

} // verus!
