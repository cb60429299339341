//! Writing constant pool entries in their class file form.

use crate::constant_pool::entry::{ConstantEntry, SpecConstantEntry, spec_read_constant, spec_utf8_text};
use crate::constant_pool::kind::{ConstantKind, spec_constant_kind_tag};
use crate::constant_pool::kind::{lemma_constant_kind_tag_roundtrip, spec_constant_kind_from_tag};
use crate::cursor::{
    be_u16, be_u32, lemma_be_u16_bytes, lemma_be_u32_bytes, lemma_i32_as_u32, lemma_u16_be_bytes, lemma_u32_be_bytes, push_u16,
    push_u32, u16_be_bytes, u32_be_bytes,
};
use vstd::prelude::*;
use vstd::utf8::*;

verus! {

/// Whether [`ConstantEntry::write_to`] handles an entry: the kinds that a class
/// assembler emits, and `Unused`, which takes no bytes.
pub open spec fn spec_writable(e: SpecConstantEntry) -> bool {
    ||| e is Unused
    ||| e is Utf8
    ||| e is Integer
    ||| e is Class
    ||| e is String
    ||| e is MethodRef
    ||| e is FieldRef
    ||| e is NameAndType
}

/// The bytes that encode an entry: its tag, then its payload. The length of a `Utf8`
/// entry is its number of UTF-8 bytes, truncated to 16 bits.
pub open spec fn spec_entry_bytes(e: SpecConstantEntry) -> Seq<u8> {
    match e {
        SpecConstantEntry::Utf8(s) => seq![spec_constant_kind_tag(ConstantKind::Utf8)] + u16_be_bytes(
            (encode_utf8(s).len() % 0x10000) as u16,
        ) + encode_utf8(s),
        SpecConstantEntry::Integer(i) => seq![spec_constant_kind_tag(ConstantKind::Integer)] + u32_be_bytes(i as u32),
        SpecConstantEntry::Class(n) => seq![spec_constant_kind_tag(ConstantKind::Class)] + u16_be_bytes(n),
        SpecConstantEntry::String(n) => seq![spec_constant_kind_tag(ConstantKind::String)] + u16_be_bytes(n),
        SpecConstantEntry::MethodRef(r) => seq![spec_constant_kind_tag(ConstantKind::MethodRef)] + u16_be_bytes(
            r.class_index,
        ) + u16_be_bytes(r.name_and_type_index),
        SpecConstantEntry::FieldRef(r) => seq![spec_constant_kind_tag(ConstantKind::FieldRef)] + u16_be_bytes(
            r.class_index,
        ) + u16_be_bytes(r.name_and_type_index),
        SpecConstantEntry::NameAndType(n) => seq![spec_constant_kind_tag(ConstantKind::NameAndType)]
            + u16_be_bytes(n.name_index) + u16_be_bytes(n.descriptor_index),
        _ => seq![],
    }
}

/// The bytes of a sequence of entries, one after the other.
pub open spec fn spec_entries_bytes(es: Seq<SpecConstantEntry>) -> Seq<u8>
    decreases es.len(),
{
    if es.len() == 0 {
        seq![]
    } else {
        spec_entry_bytes(es[0]) + spec_entries_bytes(es.drop_first())
    }
}

/// An entry that reads back as itself: one that is written, takes bytes, and whose
/// `Utf8` text fits the 16-bit length.
pub open spec fn spec_round_trips(e: SpecConstantEntry) -> bool {
    &&& spec_writable(e)
    &&& !(e is Unused)
    &&& (e matches SpecConstantEntry::Utf8(s) ==> encode_utf8(s).len() <= 0xFFFF)
}

impl ConstantEntry {
    /// Appends the class file form of this entry to `buf`. Only the kinds that a class
    /// assembler emits are written.
    pub fn write_to(&self, buf: &mut Vec<u8>)
        requires
            spec_writable(self@),
        ensures
            final(buf)@ == old(buf)@ + spec_entry_bytes(self@),
    {
        match self {
            ConstantEntry::Unused => {
                assert(old(buf)@ + seq![] =~= old(buf)@);
            },
            ConstantEntry::Utf8(s) => {
                buf.push(ConstantKind::Utf8.tag());
                let bytes = s.as_str().as_bytes();
                push_u16(buf, (bytes.len() % 0x10000) as u16);
                buf.extend_from_slice(bytes);
                assert(final(buf)@ =~= old(buf)@ + spec_entry_bytes(self@));
            },
            ConstantEntry::Integer(i) => {
                buf.push(ConstantKind::Integer.tag());
                push_u32(buf, *i as u32);
                assert(final(buf)@ =~= old(buf)@ + spec_entry_bytes(self@));
            },
            ConstantEntry::Class(index) => {
                buf.push(ConstantKind::Class.tag());
                push_u16(buf, *index);
                assert(final(buf)@ =~= old(buf)@ + spec_entry_bytes(self@));
            },
            ConstantEntry::String(index) => {
                buf.push(ConstantKind::String.tag());
                push_u16(buf, *index);
                assert(final(buf)@ =~= old(buf)@ + spec_entry_bytes(self@));
            },
            ConstantEntry::MethodRef(ref_info) => {
                buf.push(ConstantKind::MethodRef.tag());
                ref_info.write_to(buf);
                assert(final(buf)@ =~= old(buf)@ + spec_entry_bytes(self@));
            },
            ConstantEntry::FieldRef(ref_info) => {
                buf.push(ConstantKind::FieldRef.tag());
                ref_info.write_to(buf);
                assert(final(buf)@ =~= old(buf)@ + spec_entry_bytes(self@));
            },
            ConstantEntry::NameAndType(name_and_type) => {
                buf.push(ConstantKind::NameAndType.tag());
                name_and_type.write_to(buf);
                assert(final(buf)@ =~= old(buf)@ + spec_entry_bytes(self@));
            },
            _ => {},
        }
    }
}

/// Reading the bytes of an entry that round-trips, wherever they stand, gives the
/// entry back and ends just after them.
pub proof fn lemma_read_written_entry(e: SpecConstantEntry, d: Seq<u8>, p: int)
    requires
        spec_round_trips(e),
        0 <= p,
        p + spec_entry_bytes(e).len() <= d.len(),
        d.subrange(p, p + spec_entry_bytes(e).len()) == spec_entry_bytes(e),
    ensures
        spec_read_constant(d, p) == Ok::<(SpecConstantEntry, int), crate::error::SpecReadError>(
            (e, p + spec_entry_bytes(e).len()),
        ),
{
    let b = spec_entry_bytes(e);
    assert(d[p] == b[0]);
    match e {
        SpecConstantEntry::Utf8(s) => {
            let enc = encode_utf8(s);
            let n = (enc.len() % 0x10000) as u16;
            lemma_u16_be_bytes(n);
            assert(d[p + 1] == b[1] && d[p + 2] == b[2]);
            assert(n == enc.len());
            assert(d.subrange(p + 3, p + 3 + n) =~= enc) by {
                assert forall|k: int| 0 <= k < n implies d.subrange(p + 3, p + 3 + n)[k] == enc[k] by {
                    assert(d[p + 3 + k] == b[3 + k]);
                }
            }
            encode_utf8_valid_utf8(s);
            encode_utf8_decode_utf8(s);
            assert(spec_utf8_text(enc) == s);
        },
        SpecConstantEntry::Integer(i) => {
            lemma_u32_be_bytes(i as u32);
            lemma_i32_as_u32(i);
            assert(d[p + 1] == b[1] && d[p + 2] == b[2] && d[p + 3] == b[3] && d[p + 4] == b[4]);
        },
        SpecConstantEntry::Class(n) => {
            lemma_u16_be_bytes(n);
            assert(d[p + 1] == b[1] && d[p + 2] == b[2]);
        },
        SpecConstantEntry::String(n) => {
            lemma_u16_be_bytes(n);
            assert(d[p + 1] == b[1] && d[p + 2] == b[2]);
        },
        SpecConstantEntry::MethodRef(r) => {
            lemma_u16_be_bytes(r.class_index);
            lemma_u16_be_bytes(r.name_and_type_index);
            assert(d[p + 1] == b[1] && d[p + 2] == b[2] && d[p + 3] == b[3] && d[p + 4] == b[4]);
        },
        SpecConstantEntry::FieldRef(r) => {
            lemma_u16_be_bytes(r.class_index);
            lemma_u16_be_bytes(r.name_and_type_index);
            assert(d[p + 1] == b[1] && d[p + 2] == b[2] && d[p + 3] == b[3] && d[p + 4] == b[4]);
        },
        SpecConstantEntry::NameAndType(n) => {
            lemma_u16_be_bytes(n.name_index);
            lemma_u16_be_bytes(n.descriptor_index);
            assert(d[p + 1] == b[1] && d[p + 2] == b[2] && d[p + 3] == b[3] && d[p + 4] == b[4]);
        },
        _ => {},
    }
}

/// Reading back a single written entry gives it back: the roundtrip of [`ConstantEntry::write_to`]
/// and [`ConstantEntry::read`].
pub proof fn lemma_entry_roundtrip(e: SpecConstantEntry)
    requires
        spec_round_trips(e),
    ensures
        spec_read_constant(spec_entry_bytes(e), 0) == Ok::<(SpecConstantEntry, int), crate::error::SpecReadError>(
            (e, spec_entry_bytes(e).len() as int),
        ),
{
    let b = spec_entry_bytes(e);
    assert(b.subrange(0, b.len() as int) =~= b);
    lemma_read_written_entry(e, b, 0);
}

/// The bytes of `es` followed by `e` are those of `es`, then those of `e`.
pub proof fn lemma_entries_bytes_push(es: Seq<SpecConstantEntry>, e: SpecConstantEntry)
    ensures
        spec_entries_bytes(es.push(e)) == spec_entries_bytes(es) + spec_entry_bytes(e),
    decreases es.len(),
{
    if es.len() == 0 {
        assert(es.push(e).drop_first() =~= Seq::<SpecConstantEntry>::empty());
        assert(es.push(e)[0] == e);
        assert(spec_entries_bytes(es.push(e)) == spec_entry_bytes(e) + spec_entries_bytes(Seq::<SpecConstantEntry>::empty()));
        assert(spec_entries_bytes(es.push(e)) =~= spec_entries_bytes(es) + spec_entry_bytes(e));
    } else {
        lemma_entries_bytes_push(es.drop_first(), e);
        assert(es.push(e).drop_first() =~= es.drop_first().push(e));
        assert(es.push(e)[0] == es[0]);
        let a = spec_entry_bytes(es[0]);
        let b = spec_entries_bytes(es.drop_first());
        let c = spec_entry_bytes(e);
        assert(spec_entries_bytes(es.push(e)) == a + (b + c));
        assert(spec_entries_bytes(es) == a + b);
        assert(a + (b + c) =~= (a + b) + c);
    }
}

/// Whether the `Utf8` entry read at `p`, if one is, has bytes that are valid UTF-8.
pub open spec fn spec_utf8_payload_valid(d: Seq<u8>, p: int) -> bool {
    match spec_read_constant(d, p) {
        Ok((SpecConstantEntry::Utf8(_), q)) => valid_utf8(d.subrange(p + 3, q)),
        _ => true,
    }
}

/// An entry read at `p` that round-trips, with valid UTF-8 if it is a text, was read
/// from exactly the bytes that writing it gives.
pub proof fn lemma_read_entry_bytes(d: Seq<u8>, p: int)
    requires
        0 <= p,
        spec_read_constant(d, p) matches Ok((e, _)) && spec_round_trips(e),
        spec_utf8_payload_valid(d, p),
    ensures
        spec_read_constant(d, p) matches Ok((e, q)) && d.subrange(p, q) == spec_entry_bytes(e),
{
    let tag = d[p];
    let kind = spec_constant_kind_from_tag(tag)->Some_0;
    lemma_constant_kind_tag_roundtrip(kind, tag);
    let (e, q) = spec_read_constant(d, p)->Ok_0;
    lemma_be_u16_bytes(d[p + 1], d[p + 2]);
    match e {
        SpecConstantEntry::Utf8(t) => {
            let len = be_u16(d[p + 1], d[p + 2]) as int;
            let bytes = d.subrange(p + 3, p + 3 + len);
            assert(q == p + 3 + len);
            decode_utf8_encode_utf8(bytes);
            assert(t == decode_utf8(bytes));
            assert(encode_utf8(t).len() == len);
            assert(d.subrange(p, q) =~= seq![tag] + seq![d[p + 1], d[p + 2]] + bytes);
        },
        SpecConstantEntry::Integer(i) => {
            let x = be_u32(d[p + 1], d[p + 2], d[p + 3], d[p + 4]);
            lemma_be_u32_bytes(d[p + 1], d[p + 2], d[p + 3], d[p + 4]);
            assert((x as i32) as u32 == x) by (bit_vector);
            assert(d.subrange(p, q) =~= seq![tag] + seq![d[p + 1], d[p + 2], d[p + 3], d[p + 4]]);
        },
        SpecConstantEntry::Class(_) => {
            assert(d.subrange(p, q) =~= seq![tag] + seq![d[p + 1], d[p + 2]]);
        },
        SpecConstantEntry::String(_) => {
            assert(d.subrange(p, q) =~= seq![tag] + seq![d[p + 1], d[p + 2]]);
        },
        _ => {
            lemma_be_u16_bytes(d[p + 3], d[p + 4]);
            assert(d.subrange(p, q) =~= seq![tag] + seq![d[p + 1], d[p + 2]] + seq![d[p + 3], d[p + 4]]);
        },
    }
}

} // verus!
