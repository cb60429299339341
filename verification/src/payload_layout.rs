//! Attribute payloads and element values laid out as the class file format lays them out
//! read back as themselves: each reader takes its parts in class file order and from the
//! tags that the format gives them.

use crate::attribute::annotation::{
    SpecAnnotation, SpecElementValue, SpecElementValuePair, spec_read_annotation, spec_read_ev, spec_read_evs, spec_read_pair,
    spec_read_pairs,
};
use crate::attribute::class::{SpecBootstrapMethod, SpecClassAttribute, bootstrap_reader, spec_read_class_payload};
use crate::attribute::kind::AttributeKind;
use crate::attribute::method::{SpecCodeAttribute, SpecMethodAttribute, spec_read_code, spec_read_method_payload};
use crate::bytecode::encoding::{lemma_i32_at, spec_i32_bytes};
use crate::attribute::type_annotation::{LocalVarEntry, SpecTargetInfo, local_var_reader, spec_read_target_info};
use crate::constant_pool::SpecConstantEntry;
use crate::entry_layout::{lemma_local_var_reads_back, spec_local_var_bytes};
use crate::constant_pool::entry::spec_read_constant;
use crate::cursor::{
    bytes_at, lemma_bytes_at, lemma_bytes_at_split, lemma_u16_be_bytes, lemma_u32_be_bytes, u16_be_bytes,
    u32_be_bytes,
};
use crate::error::SpecReadError;
use crate::read::{spec_read_seq, u16_reader};
use vstd::prelude::*;

verus! {

/// `u16` values one after the other, big-endian.
pub open spec fn spec_u16s_bytes(vs: Seq<u16>) -> Seq<u8>
    decreases vs.len(),
{
    if vs.len() == 0 {
        seq![]
    } else {
        spec_u16s_bytes(vs.drop_last()) + u16_be_bytes(vs.last())
    }
}

/// A `u16` count, then the values.
pub open spec fn spec_counted_u16s_bytes(vs: Seq<u16>) -> Seq<u8> {
    u16_be_bytes(vs.len() as u16) + spec_u16s_bytes(vs)
}

/// Two bytes at `p` laid out as `u16_be_bytes(v)` read as `v`.
proof fn lemma_u16_at(d: Seq<u8>, p: int, v: u16)
    requires
        bytes_at(d, p, u16_be_bytes(v)),
    ensures
        crate::cursor::spec_u16(d, p) == Some((v, p + 2)),
{
    lemma_u16_be_bytes(v);
    lemma_bytes_at(d, p, u16_be_bytes(v));
    assert(d[p] == u16_be_bytes(v)[0] && d[p + 1] == u16_be_bytes(v)[1]);
}

/// `u16` values laid out one after the other at `p` read back as themselves.
pub proof fn lemma_u16s_read_back(vs: Seq<u16>, d: Seq<u8>, p: int)
    requires
        bytes_at(d, p, spec_u16s_bytes(vs)),
    ensures
        spec_u16s_bytes(vs).len() == 2 * vs.len(),
        spec_read_seq(d, p, vs.len(), u16_reader()) == Ok::<(Seq<u16>, int), SpecReadError>(
            (vs, p + 2 * vs.len()),
        ),
    decreases vs.len(),
{
    if vs.len() > 0 {
        let dl = vs.drop_last();
        lemma_bytes_at_split(d, p, spec_u16s_bytes(dl), u16_be_bytes(vs.last()));
        lemma_u16s_read_back(dl, d, p);
        let q = p + 2 * dl.len();
        lemma_u16_be_bytes(vs.last());
        lemma_u16_at(d, q, vs.last());
        assert(u16_reader()(d, q) == Ok::<(u16, int), SpecReadError>((vs.last(), q + 2)));
        assert(dl.push(vs.last()) =~= vs);
        assert(((vs.len() - 1) as nat) == dl.len());
    } else {
        assert(vs =~= Seq::<u16>::empty());
    }
}

/// A counted list of `u16` values laid out at `p` reads back as itself.
pub proof fn lemma_counted_u16s_read_back(vs: Seq<u16>, d: Seq<u8>, p: int)
    requires
        vs.len() < 0x10000,
        bytes_at(d, p, spec_counted_u16s_bytes(vs)),
    ensures
        crate::read::spec_read_counted(d, p, u16_reader()) == Ok::<(Seq<u16>, int), SpecReadError>(
            (vs, p + 2 + 2 * vs.len()),
        ),
{
    lemma_bytes_at_split(d, p, u16_be_bytes(vs.len() as u16), spec_u16s_bytes(vs));
    lemma_u16_at(d, p, vs.len() as u16);
    lemma_u16s_read_back(vs, d, p + 2);
}

/// A `SourceFile` or `NestHost` payload, one index, reads back as that index.
pub proof fn lemma_index_payloads_read_back(i: u16, d: Seq<u8>, p: int)
    requires
        bytes_at(d, p, u16_be_bytes(i)),
    ensures
        spec_read_class_payload(AttributeKind::SourceFile, d, p) == Ok::<(SpecClassAttribute, int), SpecReadError>(
            (SpecClassAttribute::SourceFile(i), p + 2),
        ),
        spec_read_class_payload(AttributeKind::NestHost, d, p) == Ok::<(SpecClassAttribute, int), SpecReadError>(
            (SpecClassAttribute::NestHost(i), p + 2),
        ),
{
    lemma_u16_at(d, p, i);
}

/// An `EnclosingMethod` payload, the class index then the method index, reads back in
/// that order.
pub proof fn lemma_enclosing_method_reads_back(class_index: u16, method_index: u16, d: Seq<u8>, p: int)
    requires
        bytes_at(d, p, u16_be_bytes(class_index) + u16_be_bytes(method_index)),
    ensures
        spec_read_class_payload(AttributeKind::EnclosingMethod, d, p) == Ok::<(SpecClassAttribute, int), SpecReadError>(
            (SpecClassAttribute::EnclosingMethod(class_index, method_index), p + 4),
        ),
{
    lemma_bytes_at_split(d, p, u16_be_bytes(class_index), u16_be_bytes(method_index));
    lemma_u16_at(d, p, class_index);
    lemma_u16_at(d, p + 2, method_index);
}

/// `NestMembers`, `PermittedSubclasses` and `Exceptions` payloads, counted lists of
/// class indices, read back as themselves.
pub proof fn lemma_index_lists_read_back(pool: Seq<SpecConstantEntry>, vs: Seq<u16>, d: Seq<u8>, p: int)
    requires
        vs.len() < 0x10000,
        bytes_at(d, p, spec_counted_u16s_bytes(vs)),
    ensures
        spec_read_class_payload(AttributeKind::NestMembers, d, p) == Ok::<(SpecClassAttribute, int), SpecReadError>(
            (SpecClassAttribute::NestMembers(vs), p + 2 + 2 * vs.len()),
        ),
        spec_read_class_payload(AttributeKind::PermittedSubclasses, d, p) == Ok::<(SpecClassAttribute, int), SpecReadError>(
            (SpecClassAttribute::PermittedSubclasses(vs), p + 2 + 2 * vs.len()),
        ),
        spec_read_method_payload(pool, AttributeKind::Exceptions, d, p) == Ok::<(SpecMethodAttribute, int), SpecReadError>(
            (SpecMethodAttribute::Exceptions(vs), p + 2 + 2 * vs.len()),
        ),
{
    lemma_counted_u16s_read_back(vs, d, p);
}

/// A bootstrap method, its method handle index then its counted arguments, reads back as
/// itself.
pub proof fn lemma_bootstrap_method_reads_back(m: SpecBootstrapMethod, d: Seq<u8>, p: int)
    requires
        m.bootstrap_arguments.len() < 0x10000,
        bytes_at(d, p, u16_be_bytes(m.bootstrap_method_idx) + spec_counted_u16s_bytes(m.bootstrap_arguments)),
    ensures
        bootstrap_reader()(d, p) == Ok::<(SpecBootstrapMethod, int), SpecReadError>(
            (m, p + 4 + 2 * m.bootstrap_arguments.len()),
        ),
{
    lemma_bytes_at_split(d, p, u16_be_bytes(m.bootstrap_method_idx), spec_counted_u16s_bytes(m.bootstrap_arguments));
    lemma_u16_at(d, p, m.bootstrap_method_idx);
    lemma_counted_u16s_read_back(m.bootstrap_arguments, d, p + 2);
}

/// A `Code` payload without exception handlers or attributes, laid out as `max_stack`,
/// `max_locals`, the code length, the code, and two zero counts, reads back as itself.
pub proof fn lemma_code_reads_back(
    pool: Seq<SpecConstantEntry>,
    max_stack: u16,
    max_locals: u16,
    code: Seq<u8>,
    d: Seq<u8>,
    p: int,
)
    requires
        code.len() <= u32::MAX,
        bytes_at(
            d,
            p,
            u16_be_bytes(max_stack) + u16_be_bytes(max_locals) + u32_be_bytes(code.len() as u32) + code + u16_be_bytes(0)
                + u16_be_bytes(0),
        ),
    ensures
        spec_read_code(pool, d, p) == Ok::<(SpecCodeAttribute, int), SpecReadError>(
            (
                SpecCodeAttribute { max_stack, max_locals, code, exception_table: seq![], attributes: seq![] },
                p + 12 + code.len(),
            ),
        ),
{
    let a = u16_be_bytes(max_stack) + u16_be_bytes(max_locals) + u32_be_bytes(code.len() as u32);
    lemma_u16_be_bytes(max_stack);
    lemma_u16_be_bytes(max_locals);
    lemma_u32_be_bytes(code.len() as u32);
    lemma_bytes_at_split(d, p, a + code + u16_be_bytes(0), u16_be_bytes(0));
    lemma_bytes_at_split(d, p, a + code, u16_be_bytes(0));
    lemma_bytes_at_split(d, p, a, code);
    lemma_bytes_at(d, p, a);
    assert(d[p] == a[0] && d[p + 1] == a[1] && d[p + 2] == a[2] && d[p + 3] == a[3]);
    assert(d[p + 4] == a[4] && d[p + 5] == a[5] && d[p + 6] == a[6] && d[p + 7] == a[7]);
    assert(d.subrange(p + 8, p + 8 + code.len()) == code);
    lemma_u16_at(d, p + 8 + code.len(), 0);
    lemma_u16_at(d, p + 10 + code.len(), 0);
}

/// An element value whose tag stands for a constant, an enum constant or a class, in
/// class file order: the tag (`B`, `C`, `D`, `F`, `I`, `J`, `S`, `Z` and `s` for constants,
/// `e` for an enum constant, `c` for a class), then its indices.
pub open spec fn spec_simple_ev_bytes(v: SpecElementValue) -> Seq<u8> {
    match v {
        SpecElementValue::Byte(i) => seq![0x42u8] + u16_be_bytes(i),
        SpecElementValue::Char(i) => seq![0x43u8] + u16_be_bytes(i),
        SpecElementValue::Double(i) => seq![0x44u8] + u16_be_bytes(i),
        SpecElementValue::Float(i) => seq![0x46u8] + u16_be_bytes(i),
        SpecElementValue::Int(i) => seq![0x49u8] + u16_be_bytes(i),
        SpecElementValue::Long(i) => seq![0x4Au8] + u16_be_bytes(i),
        SpecElementValue::Short(i) => seq![0x53u8] + u16_be_bytes(i),
        SpecElementValue::Boolean(i) => seq![0x5Au8] + u16_be_bytes(i),
        SpecElementValue::String(i) => seq![0x73u8] + u16_be_bytes(i),
        SpecElementValue::EnumConstValue { type_name_index, const_name_index } => seq![0x65u8] + u16_be_bytes(
            type_name_index,
        ) + u16_be_bytes(const_name_index),
        SpecElementValue::Class(i) => seq![0x63u8] + u16_be_bytes(i),
        _ => seq![],
    }
}

/// An element value that is neither an annotation nor an array, laid out at `p`, reads
/// back as itself: its tag decides its kind, and an enum constant reads its type name
/// before its constant name.
pub proof fn lemma_simple_ev_reads_back(v: SpecElementValue, d: Seq<u8>, p: int)
    requires
        !(v is AnnotationValue),
        !(v is Array),
        bytes_at(d, p, spec_simple_ev_bytes(v)),
    ensures
        spec_read_ev(d, p) == Ok::<(SpecElementValue, int), SpecReadError>((v, p + spec_simple_ev_bytes(v).len())),
{
    let b = spec_simple_ev_bytes(v);
    lemma_bytes_at(d, p, b);
    assert(d[p] == b[0] && d[p + 1] == b[1] && d[p + 2] == b[2]);
    match v {
        SpecElementValue::EnumConstValue { type_name_index, const_name_index } => {
            lemma_u16_be_bytes(type_name_index);
            lemma_u16_be_bytes(const_name_index);
            assert(d[p + 3] == b[3] && d[p + 4] == b[4]);
        },
        SpecElementValue::Byte(i) => lemma_u16_be_bytes(i),
        SpecElementValue::Char(i) => lemma_u16_be_bytes(i),
        SpecElementValue::Double(i) => lemma_u16_be_bytes(i),
        SpecElementValue::Float(i) => lemma_u16_be_bytes(i),
        SpecElementValue::Int(i) => lemma_u16_be_bytes(i),
        SpecElementValue::Long(i) => lemma_u16_be_bytes(i),
        SpecElementValue::Short(i) => lemma_u16_be_bytes(i),
        SpecElementValue::Boolean(i) => lemma_u16_be_bytes(i),
        SpecElementValue::String(i) => lemma_u16_be_bytes(i),
        SpecElementValue::Class(i) => lemma_u16_be_bytes(i),
        _ => {},
    }
}


/// A constant pool entry of fixed size in class file order: its tag (`Integer` 3, `Float`
/// 4, `Class` 7, `String` 8, `Fieldref` 9, `Methodref` 10, `InterfaceMethodref` 11,
/// `NameAndType` 12, `MethodHandle` 15, `MethodType` 16, `Dynamic` 17, `InvokeDynamic` 18),
/// then its fields in order, big-endian.
pub open spec fn spec_constant_bytes(e: SpecConstantEntry) -> Seq<u8> {
    match e {
        SpecConstantEntry::Integer(v) => seq![3u8] + spec_i32_bytes(v),
        SpecConstantEntry::Float(v) => seq![4u8] + u32_be_bytes(v),
        SpecConstantEntry::Class(i) => seq![7u8] + u16_be_bytes(i),
        SpecConstantEntry::String(i) => seq![8u8] + u16_be_bytes(i),
        SpecConstantEntry::FieldRef(r) => seq![9u8] + u16_be_bytes(r.class_index) + u16_be_bytes(r.name_and_type_index),
        SpecConstantEntry::MethodRef(r) => seq![10u8] + u16_be_bytes(r.class_index) + u16_be_bytes(r.name_and_type_index),
        SpecConstantEntry::InterfaceMethodRef(r) => seq![11u8] + u16_be_bytes(r.class_index) + u16_be_bytes(
            r.name_and_type_index,
        ),
        SpecConstantEntry::NameAndType(n) => seq![12u8] + u16_be_bytes(n.name_index) + u16_be_bytes(n.descriptor_index),
        SpecConstantEntry::MethodHandle(h) => seq![15u8, h.reference_kind] + u16_be_bytes(h.reference_index),
        SpecConstantEntry::MethodType(i) => seq![16u8] + u16_be_bytes(i),
        SpecConstantEntry::Dynamic(x) => seq![17u8] + u16_be_bytes(x.bootstrap_method_attr_index) + u16_be_bytes(
            x.name_and_type_index,
        ),
        SpecConstantEntry::InvokeDynamic(x) => seq![18u8] + u16_be_bytes(x.bootstrap_method_attr_index) + u16_be_bytes(
            x.name_and_type_index,
        ),
        _ => seq![],
    }
}

/// A constant pool entry of fixed size (neither `Utf8`, `Long`, `Double` nor the unused
/// slot) laid out at `p` reads back as itself: its tag decides its kind, and its indices
/// come in class file order.
#[verifier::spinoff_prover]
#[verifier::rlimit(50)]
pub proof fn lemma_constant_reads_back(e: SpecConstantEntry, d: Seq<u8>, p: int)
    requires
        !(e is Unused),
        !(e is Utf8),
        !(e is Long),
        !(e is Double),
        bytes_at(d, p, spec_constant_bytes(e)),
    ensures
        spec_read_constant(d, p) == Ok::<(SpecConstantEntry, int), SpecReadError>((e, p + spec_constant_bytes(e).len())),
{
    let b = spec_constant_bytes(e);
    lemma_bytes_at(d, p, b);
    assert(d[p] == b[0]);
    match e {
        SpecConstantEntry::Integer(v) => {
            lemma_bytes_at_split(d, p, seq![3u8], spec_i32_bytes(v));
            lemma_i32_at(d, p + 1, v);
        },
        SpecConstantEntry::Float(v) => {
            lemma_u32_be_bytes(v);
            assert(d[p + 1] == b[1] && d[p + 2] == b[2] && d[p + 3] == b[3] && d[p + 4] == b[4]);
        },
        SpecConstantEntry::Class(i) => {
            lemma_u16_be_bytes(i);
            assert(d[p + 1] == b[1] && d[p + 2] == b[2]);
        },
        SpecConstantEntry::String(i) => {
            lemma_u16_be_bytes(i);
            assert(d[p + 1] == b[1] && d[p + 2] == b[2]);
        },
        SpecConstantEntry::MethodType(i) => {
            lemma_u16_be_bytes(i);
            assert(d[p + 1] == b[1] && d[p + 2] == b[2]);
        },
        SpecConstantEntry::MethodHandle(h) => {
            lemma_u16_be_bytes(h.reference_index);
            assert(d[p + 1] == b[1] && d[p + 2] == b[2] && d[p + 3] == b[3]);
        },
        SpecConstantEntry::FieldRef(r) => {
            lemma_u16_be_bytes(r.class_index);
            lemma_u16_be_bytes(r.name_and_type_index);
            assert(d[p + 1] == b[1] && d[p + 2] == b[2] && d[p + 3] == b[3] && d[p + 4] == b[4]);
        },
        SpecConstantEntry::MethodRef(r) => {
            lemma_u16_be_bytes(r.class_index);
            lemma_u16_be_bytes(r.name_and_type_index);
            assert(d[p + 1] == b[1] && d[p + 2] == b[2] && d[p + 3] == b[3] && d[p + 4] == b[4]);
        },
        SpecConstantEntry::InterfaceMethodRef(r) => {
            lemma_u16_be_bytes(r.class_index);
            lemma_u16_be_bytes(r.name_and_type_index);
            assert(d[p + 1] == b[1] && d[p + 2] == b[2] && d[p + 3] == b[3] && d[p + 4] == b[4]);
        },
        SpecConstantEntry::NameAndType(n) => {
            lemma_u16_be_bytes(n.name_index);
            lemma_u16_be_bytes(n.descriptor_index);
            assert(d[p + 1] == b[1] && d[p + 2] == b[2] && d[p + 3] == b[3] && d[p + 4] == b[4]);
        },
        SpecConstantEntry::Dynamic(x) => {
            lemma_u16_be_bytes(x.bootstrap_method_attr_index);
            lemma_u16_be_bytes(x.name_and_type_index);
            assert(d[p + 1] == b[1] && d[p + 2] == b[2] && d[p + 3] == b[3] && d[p + 4] == b[4]);
        },
        SpecConstantEntry::InvokeDynamic(x) => {
            lemma_u16_be_bytes(x.bootstrap_method_attr_index);
            lemma_u16_be_bytes(x.name_and_type_index);
            assert(d[p + 1] == b[1] && d[p + 2] == b[2] && d[p + 3] == b[3] && d[p + 4] == b[4]);
        },
        _ => {},
    }
}


/// `localvar_target` table entries one after the other.
pub open spec fn spec_local_vars_bytes(vs: Seq<LocalVarEntry>) -> Seq<u8>
    decreases vs.len(),
{
    if vs.len() == 0 {
        seq![]
    } else {
        spec_local_vars_bytes(vs.drop_last()) + spec_local_var_bytes(vs.last())
    }
}

proof fn lemma_local_vars_read_back(vs: Seq<LocalVarEntry>, d: Seq<u8>, p: int)
    requires
        bytes_at(d, p, spec_local_vars_bytes(vs)),
    ensures
        spec_local_vars_bytes(vs).len() == 6 * vs.len(),
        spec_read_seq(d, p, vs.len(), local_var_reader()) == Ok::<(Seq<LocalVarEntry>, int), SpecReadError>(
            (vs, p + 6 * vs.len()),
        ),
    decreases vs.len(),
{
    if vs.len() > 0 {
        let dl = vs.drop_last();
        lemma_u16_be_bytes(vs.last().start_pc);
        lemma_u16_be_bytes(vs.last().length);
        lemma_u16_be_bytes(vs.last().index);
        lemma_bytes_at_split(d, p, spec_local_vars_bytes(dl), spec_local_var_bytes(vs.last()));
        lemma_local_vars_read_back(dl, d, p);
        lemma_local_var_reads_back(vs.last(), d, p + 6 * dl.len());
        assert(dl.push(vs.last()) =~= vs);
        assert(((vs.len() - 1) as nat) == dl.len());
    } else {
        assert(vs =~= Seq::<LocalVarEntry>::empty());
    }
}

/// Whether the target type byte `t` announces target information of the kind of `info`,
/// by the tables of JVMS 4.7.20: type parameters 0x00 and 0x01, supertypes 0x10, bounds
/// 0x11 and 0x12, empty targets 0x13 to 0x15, formal parameters 0x16, throws 0x17, local
/// variables 0x40 and 0x41, catch 0x42, offsets 0x43 to 0x46, type arguments 0x47 to 0x4B.
pub open spec fn spec_target_type_announces(t: u8, info: SpecTargetInfo) -> bool {
    match info {
        SpecTargetInfo::TypeParameter { .. } => t == 0x00 || t == 0x01,
        SpecTargetInfo::Supertype { .. } => t == 0x10,
        SpecTargetInfo::TypeParameterBound { .. } => t == 0x11 || t == 0x12,
        SpecTargetInfo::Empty => 0x13 <= t <= 0x15,
        SpecTargetInfo::MethodFormalParameter { .. } => t == 0x16,
        SpecTargetInfo::Throws { .. } => t == 0x17,
        SpecTargetInfo::LocalVar { .. } => t == 0x40 || t == 0x41,
        SpecTargetInfo::Catch { .. } => t == 0x42,
        SpecTargetInfo::Offset { .. } => 0x43 <= t <= 0x46,
        SpecTargetInfo::TypeArgument { .. } => 0x47 <= t <= 0x4B,
    }
}

/// The target information of a type annotation after its target type byte, in class
/// file order.
pub open spec fn spec_target_info_bytes(info: SpecTargetInfo) -> Seq<u8> {
    match info {
        SpecTargetInfo::TypeParameter { type_parameter_index } => seq![type_parameter_index],
        SpecTargetInfo::Supertype { supertype_index } => u16_be_bytes(supertype_index),
        SpecTargetInfo::TypeParameterBound { type_parameter_index, bound_index } => seq![type_parameter_index, bound_index],
        SpecTargetInfo::Empty => seq![],
        SpecTargetInfo::MethodFormalParameter { formal_parameter_index } => seq![formal_parameter_index],
        SpecTargetInfo::Throws { throws_type_index } => u16_be_bytes(throws_type_index),
        SpecTargetInfo::LocalVar { localvar_table } => u16_be_bytes(localvar_table.len() as u16) + spec_local_vars_bytes(
            localvar_table,
        ),
        SpecTargetInfo::Catch { exception_table_index } => u16_be_bytes(exception_table_index),
        SpecTargetInfo::Offset { offset } => u16_be_bytes(offset),
        SpecTargetInfo::TypeArgument { offset, type_argument_index } => u16_be_bytes(offset) + seq![type_argument_index],
    }
}

/// A type annotation target laid out at `p` after a target type byte that announces its
/// kind reads back as itself.
#[verifier::spinoff_prover]
#[verifier::rlimit(50)]
pub proof fn lemma_target_info_reads_back(t: u8, info: SpecTargetInfo, d: Seq<u8>, p: int)
    requires
        spec_target_type_announces(t, info),
        info matches SpecTargetInfo::LocalVar { localvar_table } ==> localvar_table.len() < 0x10000,
        bytes_at(d, p, seq![t] + spec_target_info_bytes(info)),
    ensures
        spec_read_target_info(d, p) == Ok::<(SpecTargetInfo, int), SpecReadError>(
            (info, p + 1 + spec_target_info_bytes(info).len()),
        ),
{
    let b = spec_target_info_bytes(info);
    lemma_bytes_at_split(d, p, seq![t], b);
    lemma_bytes_at(d, p, seq![t]);
    lemma_bytes_at(d, p + 1, b);
    assert(seq![t][0] == t);
    assert(d[p + 0] == seq![t][0]);
    assert(d[p] == t);
    match info {
        SpecTargetInfo::TypeParameter { .. } => assert(d[p + 1] == b[0]),
        SpecTargetInfo::MethodFormalParameter { .. } => assert(d[p + 1] == b[0]),
        SpecTargetInfo::TypeParameterBound { .. } => assert(d[p + 1] == b[0] && d[p + 2] == b[1]),
        SpecTargetInfo::Supertype { supertype_index: i } => lemma_u16_at(d, p + 1, i),
        SpecTargetInfo::Throws { throws_type_index: i } => lemma_u16_at(d, p + 1, i),
        SpecTargetInfo::Catch { exception_table_index: i } => lemma_u16_at(d, p + 1, i),
        SpecTargetInfo::Offset { offset: i } => lemma_u16_at(d, p + 1, i),
        SpecTargetInfo::TypeArgument { offset, type_argument_index } => {
            lemma_bytes_at_split(d, p + 1, u16_be_bytes(offset), seq![type_argument_index]);
            lemma_u16_at(d, p + 1, offset);
            assert(d[p + 3] == b[2]);
        },
        SpecTargetInfo::LocalVar { localvar_table } => {
            lemma_bytes_at_split(d, p + 1, u16_be_bytes(localvar_table.len() as u16), spec_local_vars_bytes(localvar_table));
            lemma_u16_at(d, p + 1, localvar_table.len() as u16);
            lemma_local_vars_read_back(localvar_table, d, p + 3);
        },
        SpecTargetInfo::Empty => {},
    }
}


/// Whether an element value is neither an annotation nor an array.
pub open spec fn spec_is_simple_ev(v: SpecElementValue) -> bool {
    !(v is AnnotationValue) && !(v is Array)
}

/// Simple element values one after the other.
pub open spec fn spec_simple_evs_bytes(vs: Seq<SpecElementValue>) -> Seq<u8>
    decreases vs.len(),
{
    if vs.len() == 0 {
        seq![]
    } else {
        spec_simple_ev_bytes(vs[0]) + spec_simple_evs_bytes(vs.drop_first())
    }
}

/// Element-value pairs with simple values one after the other: each the element name
/// index, then the value.
pub open spec fn spec_simple_pairs_bytes(ps: Seq<SpecElementValuePair>) -> Seq<u8>
    decreases ps.len(),
{
    if ps.len() == 0 {
        seq![]
    } else {
        u16_be_bytes(ps[0].element_name_index) + spec_simple_ev_bytes(ps[0].value) + spec_simple_pairs_bytes(ps.drop_first())
    }
}

/// An annotation whose values are simple, in class file order: its type index, the
/// number of pairs, then the pairs.
pub open spec fn spec_simple_annotation_bytes(a: SpecAnnotation) -> Seq<u8> {
    u16_be_bytes(a.type_index) + u16_be_bytes(a.element_value_pairs.len() as u16) + spec_simple_pairs_bytes(
        a.element_value_pairs,
    )
}

proof fn lemma_simple_ev_len(v: SpecElementValue)
    requires
        spec_is_simple_ev(v),
    ensures
        spec_simple_ev_bytes(v).len() >= 3,
{
}

proof fn lemma_simple_evs_read_back(vs: Seq<SpecElementValue>, d: Seq<u8>, p: int)
    requires
        forall|k: int| 0 <= k < vs.len() ==> spec_is_simple_ev(#[trigger] vs[k]),
        bytes_at(d, p, spec_simple_evs_bytes(vs)),
    ensures
        spec_read_evs(d, p, vs.len()) == Ok::<(Seq<SpecElementValue>, int), SpecReadError>(
            (vs, p + spec_simple_evs_bytes(vs).len()),
        ),
    decreases vs.len(),
{
    if vs.len() > 0 {
        let rest = vs.drop_first();
        assert(spec_is_simple_ev(vs[0]));
        lemma_bytes_at_split(d, p, spec_simple_ev_bytes(vs[0]), spec_simple_evs_bytes(rest));
        lemma_simple_ev_reads_back(vs[0], d, p);
        lemma_simple_ev_len(vs[0]);
        assert forall|k: int| 0 <= k < rest.len() implies spec_is_simple_ev(#[trigger] rest[k]) by {
            assert(rest[k] == vs[k + 1]);
        }
        lemma_simple_evs_read_back(rest, d, p + spec_simple_ev_bytes(vs[0]).len());
        assert(seq![vs[0]] + rest =~= vs);
        assert(((vs.len() - 1) as nat) == rest.len());
    } else {
        assert(vs =~= Seq::<SpecElementValue>::empty());
    }
}

proof fn lemma_simple_pairs_read_back(ps: Seq<SpecElementValuePair>, d: Seq<u8>, p: int)
    requires
        forall|k: int| 0 <= k < ps.len() ==> spec_is_simple_ev(#[trigger] ps[k].value),
        bytes_at(d, p, spec_simple_pairs_bytes(ps)),
    ensures
        spec_read_pairs(d, p, ps.len()) == Ok::<(Seq<SpecElementValuePair>, int), SpecReadError>(
            (ps, p + spec_simple_pairs_bytes(ps).len()),
        ),
    decreases ps.len(),
{
    if ps.len() > 0 {
        let rest = ps.drop_first();
        let x = ps[0];
        assert(spec_is_simple_ev(x.value));
        lemma_bytes_at_split(
            d,
            p,
            u16_be_bytes(x.element_name_index) + spec_simple_ev_bytes(x.value),
            spec_simple_pairs_bytes(rest),
        );
        lemma_bytes_at_split(d, p, u16_be_bytes(x.element_name_index), spec_simple_ev_bytes(x.value));
        lemma_u16_at(d, p, x.element_name_index);
        lemma_simple_ev_reads_back(x.value, d, p + 2);
        lemma_simple_ev_len(x.value);
        assert(spec_read_pair(d, p) == Ok::<(SpecElementValuePair, int), SpecReadError>(
            (x, p + 2 + spec_simple_ev_bytes(x.value).len()),
        ));
        assert forall|k: int| 0 <= k < rest.len() implies spec_is_simple_ev(#[trigger] rest[k].value) by {
            assert(rest[k] == ps[k + 1]);
        }
        lemma_simple_pairs_read_back(rest, d, p + 2 + spec_simple_ev_bytes(x.value).len());
        assert(seq![x] + rest =~= ps);
        assert(((ps.len() - 1) as nat) == rest.len());
    } else {
        assert(ps =~= Seq::<SpecElementValuePair>::empty());
    }
}

/// An annotation whose element values are simple, laid out at `p`, reads back as itself:
/// its type index first, then its pairs in order, each name before its value.
pub proof fn lemma_simple_annotation_reads_back(a: SpecAnnotation, d: Seq<u8>, p: int)
    requires
        a.element_value_pairs.len() < 0x10000,
        forall|k: int| 0 <= k < a.element_value_pairs.len() ==> spec_is_simple_ev(#[trigger] a.element_value_pairs[k].value),
        bytes_at(d, p, spec_simple_annotation_bytes(a)),
    ensures
        spec_read_annotation(d, p) == Ok::<(SpecAnnotation, int), SpecReadError>(
            (a, p + spec_simple_annotation_bytes(a).len()),
        ),
{
    let ps = a.element_value_pairs;
    lemma_bytes_at_split(
        d,
        p,
        u16_be_bytes(a.type_index) + u16_be_bytes(ps.len() as u16),
        spec_simple_pairs_bytes(ps),
    );
    lemma_bytes_at_split(d, p, u16_be_bytes(a.type_index), u16_be_bytes(ps.len() as u16));
    lemma_u16_at(d, p, a.type_index);
    lemma_u16_at(d, p + 2, ps.len() as u16);
    lemma_simple_pairs_read_back(ps, d, p + 4);
}

/// An element value that is an annotation (tag `@`) or an array of simple values (tag
/// `[`, then the count), laid out at `p`, reads back as itself.
pub proof fn lemma_nested_ev_reads_back(a: SpecAnnotation, vs: Seq<SpecElementValue>, d: Seq<u8>, p: int)
    requires
        a.element_value_pairs.len() < 0x10000,
        forall|k: int| 0 <= k < a.element_value_pairs.len() ==> spec_is_simple_ev(#[trigger] a.element_value_pairs[k].value),
        vs.len() < 0x10000,
        forall|k: int| 0 <= k < vs.len() ==> spec_is_simple_ev(#[trigger] vs[k]),
    ensures
        bytes_at(d, p, seq![0x40u8] + spec_simple_annotation_bytes(a)) ==> spec_read_ev(d, p) == Ok::<
            (SpecElementValue, int),
            SpecReadError,
        >((SpecElementValue::AnnotationValue(a), p + 1 + spec_simple_annotation_bytes(a).len())),
        bytes_at(d, p, seq![0x5Bu8] + u16_be_bytes(vs.len() as u16) + spec_simple_evs_bytes(vs)) ==> spec_read_ev(d, p)
            == Ok::<(SpecElementValue, int), SpecReadError>(
            (SpecElementValue::Array(vs), p + 3 + spec_simple_evs_bytes(vs).len()),
        ),
{
    if bytes_at(d, p, seq![0x40u8] + spec_simple_annotation_bytes(a)) {
        lemma_bytes_at_split(d, p, seq![0x40u8], spec_simple_annotation_bytes(a));
        lemma_bytes_at(d, p, seq![0x40u8]);
        assert(d[p + 0] == seq![0x40u8][0]);
        lemma_simple_annotation_reads_back(a, d, p + 1);
    }
    if bytes_at(d, p, seq![0x5Bu8] + u16_be_bytes(vs.len() as u16) + spec_simple_evs_bytes(vs)) {
        lemma_bytes_at_split(d, p, seq![0x5Bu8] + u16_be_bytes(vs.len() as u16), spec_simple_evs_bytes(vs));
        lemma_bytes_at_split(d, p, seq![0x5Bu8], u16_be_bytes(vs.len() as u16));
        lemma_bytes_at(d, p, seq![0x5Bu8]);
        assert(d[p + 0] == seq![0x5Bu8][0]);
        lemma_u16_at(d, p + 1, vs.len() as u16);
        lemma_simple_evs_read_back(vs, d, p + 3);
    }
}

} // verus!
