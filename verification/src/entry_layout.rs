//! Entries of attribute tables, stack map frames and the starts of fields and methods,
//! laid out as the class file format lays them out, read back as themselves: each reader
//! takes its fields in class file order.

use crate::attribute::class::{InnerClassEntry, inner_class_reader};
use crate::attribute::method::code::{
    LineNumberEntry, LocalVariableEntry, LocalVariableTypeEntry, line_number_reader, local_variable_reader,
    local_variable_type_reader,
};
use crate::attribute::method::{ExceptionTableEntry, MethodParameterEntry, exception_reader, method_parameter_reader};
use crate::attribute::type_annotation::{LocalVarEntry, TypePathEntry, local_var_reader, path_entry_reader};
use crate::attribute::method::code::{SpecStackMapFrame, VerificationTypeInfo, spec_read_frame, spec_read_verification_type, verification_type_reader};
use crate::cursor::{bytes_at, lemma_bytes_at, lemma_bytes_at_split, lemma_u16_be_bytes, u16_be_bytes};
use crate::constant_pool::SpecConstantEntry;
use crate::member::field::{SpecFieldInfo, spec_read_field};
use crate::member::method::{SpecMethodInfo, spec_read_method};
use crate::read::spec_read_seq;
use vstd::prelude::*;

verus! {

/// A line number entry in class file order: `start_pc`, `line_number`.
pub open spec fn spec_line_number_bytes(e: LineNumberEntry) -> Seq<u8> {
    u16_be_bytes(e.start_pc) + u16_be_bytes(e.line_number)
}

/// A local variable entry in class file order: `start_pc`, `length`, `name_index`,
/// `descriptor_index`, `index`.
pub open spec fn spec_local_variable_bytes(e: LocalVariableEntry) -> Seq<u8> {
    u16_be_bytes(e.start_pc) + u16_be_bytes(e.length) + u16_be_bytes(e.name_index) + u16_be_bytes(e.descriptor_index)
        + u16_be_bytes(e.index)
}

/// A local variable type entry in class file order: `start_pc`, `length`, `name_index`,
/// `signature_index`, `index`.
pub open spec fn spec_local_variable_type_bytes(e: LocalVariableTypeEntry) -> Seq<u8> {
    u16_be_bytes(e.start_pc) + u16_be_bytes(e.length) + u16_be_bytes(e.name_index) + u16_be_bytes(e.signature_index)
        + u16_be_bytes(e.index)
}

/// An exception table entry in class file order: `start_pc`, `end_pc`, `handler_pc`,
/// `catch_type`.
pub open spec fn spec_exception_bytes(e: ExceptionTableEntry) -> Seq<u8> {
    u16_be_bytes(e.start_pc) + u16_be_bytes(e.end_pc) + u16_be_bytes(e.handler_pc) + u16_be_bytes(e.catch_type)
}

/// A method parameter entry in class file order: `name_index`, `access_flags`.
pub open spec fn spec_method_parameter_bytes(e: MethodParameterEntry) -> Seq<u8> {
    u16_be_bytes(e.name_index) + u16_be_bytes(e.access_flags)
}

/// An inner class entry in class file order: `inner_class_info_index`,
/// `outer_class_info_index`, `inner_name_index`, `inner_class_access_flags`.
pub open spec fn spec_inner_class_bytes(e: InnerClassEntry) -> Seq<u8> {
    u16_be_bytes(e.inner_class_info_index) + u16_be_bytes(e.outer_class_info_index) + u16_be_bytes(e.inner_name_index)
        + u16_be_bytes(e.inner_class_access_flags)
}

/// A `localvar_target` table entry in class file order: `start_pc`, `length`, `index`.
pub open spec fn spec_local_var_bytes(e: LocalVarEntry) -> Seq<u8> {
    u16_be_bytes(e.start_pc) + u16_be_bytes(e.length) + u16_be_bytes(e.index)
}

/// A type path step in class file order: `type_path_kind`, `type_argument_index`.
pub open spec fn spec_path_entry_bytes(e: TypePathEntry) -> Seq<u8> {
    seq![e.type_path_kind, e.type_argument_index]
}

/// A local variable entry laid out at `p` reads back as itself and ends after its ten
/// bytes: the name index comes before the descriptor index.
pub proof fn lemma_local_variable_reads_back(e: LocalVariableEntry, d: Seq<u8>, p: int)
    requires
        bytes_at(d, p, spec_local_variable_bytes(e)),
    ensures
        local_variable_reader()(d, p) == Ok::<(LocalVariableEntry, int), crate::error::SpecReadError>((e, p + 10)),
{
    lemma_u16_be_bytes(e.start_pc);
    lemma_u16_be_bytes(e.length);
    lemma_u16_be_bytes(e.name_index);
    lemma_u16_be_bytes(e.descriptor_index);
    lemma_u16_be_bytes(e.index);
    let b = spec_local_variable_bytes(e);
    lemma_bytes_at(d, p, b);
    assert(d[p] == b[0] && d[p + 1] == b[1] && d[p + 2] == b[2] && d[p + 3] == b[3] && d[p + 4] == b[4]);
    assert(d[p + 5] == b[5] && d[p + 6] == b[6] && d[p + 7] == b[7] && d[p + 8] == b[8] && d[p + 9] == b[9]);
}


/// A line number entry laid out at `p` reads back as itself and ends after its four bytes.
pub proof fn lemma_line_number_reads_back(e: LineNumberEntry, d: Seq<u8>, p: int)
    requires
        bytes_at(d, p, spec_line_number_bytes(e)),
    ensures
        line_number_reader()(d, p) == Ok::<(LineNumberEntry, int), crate::error::SpecReadError>((e, p + 4)),
{
    lemma_u16_be_bytes(e.start_pc);
    lemma_u16_be_bytes(e.line_number);
    let b = spec_line_number_bytes(e);
    lemma_bytes_at(d, p, b);
    assert(d[p + 0] == b[0] && d[p + 1] == b[1] && d[p + 2] == b[2] && d[p + 3] == b[3]);
}

/// A local variable type entry laid out at `p` reads back as itself and ends after its
/// ten bytes.
pub proof fn lemma_local_variable_type_reads_back(e: LocalVariableTypeEntry, d: Seq<u8>, p: int)
    requires
        bytes_at(d, p, spec_local_variable_type_bytes(e)),
    ensures
        local_variable_type_reader()(d, p) == Ok::<(LocalVariableTypeEntry, int), crate::error::SpecReadError>((e, p + 10)),
{
    lemma_u16_be_bytes(e.start_pc);
    lemma_u16_be_bytes(e.length);
    lemma_u16_be_bytes(e.name_index);
    lemma_u16_be_bytes(e.signature_index);
    lemma_u16_be_bytes(e.index);
    let b = spec_local_variable_type_bytes(e);
    lemma_bytes_at(d, p, b);
    assert(d[p + 0] == b[0] && d[p + 1] == b[1] && d[p + 2] == b[2] && d[p + 3] == b[3] && d[p + 4] == b[4] && d[p + 5] == b[5] && d[p + 6] == b[6] && d[p + 7] == b[7] && d[p + 8] == b[8] && d[p + 9] == b[9]);
}

/// An exception table entry laid out at `p` reads back as itself and ends after its eight
/// bytes.
pub proof fn lemma_exception_reads_back(e: ExceptionTableEntry, d: Seq<u8>, p: int)
    requires
        bytes_at(d, p, spec_exception_bytes(e)),
    ensures
        exception_reader()(d, p) == Ok::<(ExceptionTableEntry, int), crate::error::SpecReadError>((e, p + 8)),
{
    lemma_u16_be_bytes(e.start_pc);
    lemma_u16_be_bytes(e.end_pc);
    lemma_u16_be_bytes(e.handler_pc);
    lemma_u16_be_bytes(e.catch_type);
    let b = spec_exception_bytes(e);
    lemma_bytes_at(d, p, b);
    assert(d[p + 0] == b[0] && d[p + 1] == b[1] && d[p + 2] == b[2] && d[p + 3] == b[3] && d[p + 4] == b[4] && d[p + 5] == b[5] && d[p + 6] == b[6] && d[p + 7] == b[7]);
}

/// A method parameter entry laid out at `p` reads back as itself and ends after its four
/// bytes.
pub proof fn lemma_method_parameter_reads_back(e: MethodParameterEntry, d: Seq<u8>, p: int)
    requires
        bytes_at(d, p, spec_method_parameter_bytes(e)),
    ensures
        method_parameter_reader()(d, p) == Ok::<(MethodParameterEntry, int), crate::error::SpecReadError>((e, p + 4)),
{
    lemma_u16_be_bytes(e.name_index);
    lemma_u16_be_bytes(e.access_flags);
    let b = spec_method_parameter_bytes(e);
    lemma_bytes_at(d, p, b);
    assert(d[p + 0] == b[0] && d[p + 1] == b[1] && d[p + 2] == b[2] && d[p + 3] == b[3]);
}

/// An inner class entry laid out at `p` reads back as itself and ends after its eight
/// bytes.
pub proof fn lemma_inner_class_reads_back(e: InnerClassEntry, d: Seq<u8>, p: int)
    requires
        bytes_at(d, p, spec_inner_class_bytes(e)),
    ensures
        inner_class_reader()(d, p) == Ok::<(InnerClassEntry, int), crate::error::SpecReadError>((e, p + 8)),
{
    lemma_u16_be_bytes(e.inner_class_info_index);
    lemma_u16_be_bytes(e.outer_class_info_index);
    lemma_u16_be_bytes(e.inner_name_index);
    lemma_u16_be_bytes(e.inner_class_access_flags);
    let b = spec_inner_class_bytes(e);
    lemma_bytes_at(d, p, b);
    assert(d[p + 0] == b[0] && d[p + 1] == b[1] && d[p + 2] == b[2] && d[p + 3] == b[3] && d[p + 4] == b[4] && d[p + 5] == b[5] && d[p + 6] == b[6] && d[p + 7] == b[7]);
}

/// A `localvar_target` entry laid out at `p` reads back as itself and ends after its six
/// bytes.
pub proof fn lemma_local_var_reads_back(e: LocalVarEntry, d: Seq<u8>, p: int)
    requires
        bytes_at(d, p, spec_local_var_bytes(e)),
    ensures
        local_var_reader()(d, p) == Ok::<(LocalVarEntry, int), crate::error::SpecReadError>((e, p + 6)),
{
    lemma_u16_be_bytes(e.start_pc);
    lemma_u16_be_bytes(e.length);
    lemma_u16_be_bytes(e.index);
    let b = spec_local_var_bytes(e);
    lemma_bytes_at(d, p, b);
    assert(d[p + 0] == b[0] && d[p + 1] == b[1] && d[p + 2] == b[2] && d[p + 3] == b[3] && d[p + 4] == b[4] && d[p + 5] == b[5]);
}

/// A type path step laid out at `p` reads back as itself and ends after its two bytes.
pub proof fn lemma_path_entry_reads_back(e: TypePathEntry, d: Seq<u8>, p: int)
    requires
        bytes_at(d, p, spec_path_entry_bytes(e)),
    ensures
        path_entry_reader()(d, p) == Ok::<(TypePathEntry, int), crate::error::SpecReadError>((e, p + 2)),
{
    let b = spec_path_entry_bytes(e);
    lemma_bytes_at(d, p, b);
    assert(d[p] == b[0] && d[p + 1] == b[1]);
}


/// A verification type in class file order: its tag (`Top` 0, `Integer` 1, `Float` 2,
/// `Double` 3, `Long` 4, `Null` 5, `UninitializedThis` 6, `Object` 7, `Uninitialized` 8),
/// then the index or offset of `Object` and `Uninitialized`.
pub open spec fn spec_verification_type_bytes(v: VerificationTypeInfo) -> Seq<u8> {
    match v {
        VerificationTypeInfo::Top => seq![0u8],
        VerificationTypeInfo::Integer => seq![1u8],
        VerificationTypeInfo::Float => seq![2u8],
        VerificationTypeInfo::Double => seq![3u8],
        VerificationTypeInfo::Long => seq![4u8],
        VerificationTypeInfo::Null => seq![5u8],
        VerificationTypeInfo::UninitializedThis => seq![6u8],
        VerificationTypeInfo::Object(i) => seq![7u8] + u16_be_bytes(i),
        VerificationTypeInfo::Uninitialized(i) => seq![8u8] + u16_be_bytes(i),
    }
}

/// Verification types one after the other.
pub open spec fn spec_verification_types_bytes(vs: Seq<VerificationTypeInfo>) -> Seq<u8>
    decreases vs.len(),
{
    if vs.len() == 0 {
        seq![]
    } else {
        spec_verification_types_bytes(vs.drop_last()) + spec_verification_type_bytes(vs.last())
    }
}

/// A stack map frame in class file order: the frame type (`same` 0 to 63 is its delta;
/// `same_locals_1_stack_item` 64 to 127 is 64 plus its delta, then the stack item; 247 an
/// extended one with a two-byte delta; `chop` 251 minus `k`; 251 `same_frame_extended`;
/// `append` 251 plus `k`, then `k` locals; 255 `full_frame` with counted locals and stack).
pub open spec fn spec_frame_bytes(f: SpecStackMapFrame) -> Seq<u8> {
    match f {
        SpecStackMapFrame::Same { offset_delta } => seq![offset_delta as u8],
        SpecStackMapFrame::SameLocals1StackItem { offset_delta, stack } => seq![(offset_delta + 64) as u8]
            + spec_verification_type_bytes(stack),
        SpecStackMapFrame::SameLocals1StackItemExtended { offset_delta, stack } => seq![247u8] + u16_be_bytes(offset_delta)
            + spec_verification_type_bytes(stack),
        SpecStackMapFrame::Chop { k, offset_delta } => seq![(251 - k) as u8] + u16_be_bytes(offset_delta),
        SpecStackMapFrame::SameExtended { offset_delta } => seq![251u8] + u16_be_bytes(offset_delta),
        SpecStackMapFrame::Append { k, offset_delta, locals } => seq![(251 + k) as u8] + u16_be_bytes(offset_delta)
            + spec_verification_types_bytes(locals),
        SpecStackMapFrame::Full { offset_delta, locals, stack } => seq![255u8] + u16_be_bytes(offset_delta) + u16_be_bytes(
            locals.len() as u16,
        ) + spec_verification_types_bytes(locals) + u16_be_bytes(stack.len() as u16) + spec_verification_types_bytes(stack),
    }
}

/// Whether the class file format can hold `f`: the short forms' deltas fit below 64, `chop`
/// and `append` drop or add one to three locals, and a full frame counts at most 65535 of each.
pub open spec fn spec_frame_encodable(f: SpecStackMapFrame) -> bool {
    match f {
        SpecStackMapFrame::Same { offset_delta } => offset_delta <= 63,
        SpecStackMapFrame::SameLocals1StackItem { offset_delta, .. } => offset_delta <= 63,
        SpecStackMapFrame::Chop { k, .. } => 1 <= k <= 3,
        SpecStackMapFrame::Append { k, locals, .. } => 1 <= k <= 3 && locals.len() == k,
        SpecStackMapFrame::Full { locals, stack, .. } => locals.len() < 0x10000 && stack.len() < 0x10000,
        _ => true,
    }
}

/// A verification type laid out at `p` reads back as itself and ends after its bytes.
pub proof fn lemma_verification_type_reads_back(v: VerificationTypeInfo, d: Seq<u8>, p: int)
    requires
        bytes_at(d, p, spec_verification_type_bytes(v)),
    ensures
        spec_read_verification_type(d, p) == Ok::<(VerificationTypeInfo, int), crate::error::SpecReadError>(
            (v, p + spec_verification_type_bytes(v).len()),
        ),
{
    let b = spec_verification_type_bytes(v);
    lemma_bytes_at(d, p, b);
    assert(d[p] == b[0]);
    match v {
        VerificationTypeInfo::Object(i) => {
            lemma_u16_be_bytes(i);
            assert(d[p + 1] == b[1] && d[p + 2] == b[2]);
        },
        VerificationTypeInfo::Uninitialized(i) => {
            lemma_u16_be_bytes(i);
            assert(d[p + 1] == b[1] && d[p + 2] == b[2]);
        },
        _ => {},
    }
}

/// Verification types laid out one after the other at `p` read back as themselves.
pub proof fn lemma_verification_types_read_back(vs: Seq<VerificationTypeInfo>, d: Seq<u8>, p: int)
    requires
        bytes_at(d, p, spec_verification_types_bytes(vs)),
    ensures
        spec_read_seq(d, p, vs.len(), verification_type_reader()) == Ok::<
            (Seq<VerificationTypeInfo>, int),
            crate::error::SpecReadError,
        >((vs, p + spec_verification_types_bytes(vs).len())),
    decreases vs.len(),
{
    if vs.len() > 0 {
        let dl = vs.drop_last();
        lemma_bytes_at_split(d, p, spec_verification_types_bytes(dl), spec_verification_type_bytes(vs.last()));
        lemma_verification_types_read_back(dl, d, p);
        let q = p + spec_verification_types_bytes(dl).len();
        lemma_verification_type_reads_back(vs.last(), d, q);
        assert(verification_type_reader()(d, q) == spec_read_verification_type(d, q));
        assert(dl.push(vs.last()) =~= vs);
        assert(((vs.len() - 1) as nat) == dl.len());
        assert(spec_read_seq(d, p, vs.len(), verification_type_reader()) == Ok::<
            (Seq<VerificationTypeInfo>, int),
            crate::error::SpecReadError,
        >((dl.push(vs.last()), q + spec_verification_type_bytes(vs.last()).len())));
    } else {
        assert(vs =~= Seq::<VerificationTypeInfo>::empty());
    }
}

/// A stack map frame that the class file format can hold, laid out at `p`, reads back as
/// itself and ends after its bytes: the frame type decides the kind, the delta and `k`.
#[verifier::spinoff_prover]
#[verifier::rlimit(50)]
pub proof fn lemma_frame_reads_back(f: SpecStackMapFrame, d: Seq<u8>, p: int)
    requires
        spec_frame_encodable(f),
        bytes_at(d, p, spec_frame_bytes(f)),
    ensures
        spec_read_frame(d, p) == Ok::<(SpecStackMapFrame, int), crate::error::SpecReadError>(
            (f, p + spec_frame_bytes(f).len()),
        ),
{
    let b = spec_frame_bytes(f);
    lemma_bytes_at(d, p, b);
    assert(d[p] == b[0]);
    match f {
        SpecStackMapFrame::Same { offset_delta } => {},
        SpecStackMapFrame::SameLocals1StackItem { offset_delta, stack } => {
            lemma_bytes_at_split(d, p, seq![(offset_delta + 64) as u8], spec_verification_type_bytes(stack));
            lemma_verification_type_reads_back(stack, d, p + 1);
        },
        SpecStackMapFrame::SameLocals1StackItemExtended { offset_delta, stack } => {
            lemma_u16_be_bytes(offset_delta);
            assert(d[p + 1] == b[1] && d[p + 2] == b[2]);
            lemma_bytes_at_split(d, p, seq![247u8] + u16_be_bytes(offset_delta), spec_verification_type_bytes(stack));
            lemma_verification_type_reads_back(stack, d, p + 3);
        },
        SpecStackMapFrame::Chop { k, offset_delta } => {
            lemma_u16_be_bytes(offset_delta);
            assert(d[p + 1] == b[1] && d[p + 2] == b[2]);
        },
        SpecStackMapFrame::SameExtended { offset_delta } => {
            lemma_u16_be_bytes(offset_delta);
            assert(d[p + 1] == b[1] && d[p + 2] == b[2]);
        },
        SpecStackMapFrame::Append { k, offset_delta, locals } => {
            lemma_u16_be_bytes(offset_delta);
            assert(d[p + 1] == b[1] && d[p + 2] == b[2]);
            lemma_bytes_at_split(d, p, seq![(251 + k) as u8] + u16_be_bytes(offset_delta), spec_verification_types_bytes(locals));
            lemma_verification_types_read_back(locals, d, p + 3);
        },
        SpecStackMapFrame::Full { offset_delta, locals, stack } => {
            let h = seq![255u8] + u16_be_bytes(offset_delta) + u16_be_bytes(locals.len() as u16);
            let l = spec_verification_types_bytes(locals);
            let m = u16_be_bytes(stack.len() as u16);
            let s = spec_verification_types_bytes(stack);
            lemma_u16_be_bytes(offset_delta);
            lemma_u16_be_bytes(locals.len() as u16);
            lemma_u16_be_bytes(stack.len() as u16);
            assert(d[p + 1] == b[1] && d[p + 2] == b[2] && d[p + 3] == b[3] && d[p + 4] == b[4]);
            lemma_bytes_at_split(d, p, h + l + m, s);
            lemma_bytes_at_split(d, p, h + l, m);
            lemma_bytes_at_split(d, p, h, l);
            lemma_verification_types_read_back(locals, d, p + 5);
            let q = p + 5 + l.len();
            lemma_bytes_at(d, q, m);
            assert(d[q] == m[0] && d[q + 1] == m[1]);
            lemma_verification_types_read_back(stack, d, q + 2);
        },
    }
}


/// The start of a field or method in class file order: access flags, name index,
/// descriptor index, attribute count.
pub open spec fn spec_member_header_bytes(access_flags: u16, name_index: u16, descriptor_index: u16, attributes_count: u16) -> Seq<u8> {
    u16_be_bytes(access_flags) + u16_be_bytes(name_index) + u16_be_bytes(descriptor_index) + u16_be_bytes(attributes_count)
}

/// A field without attributes laid out at `p` reads back with its flags, name index and
/// descriptor index, and ends after its eight bytes.
pub proof fn lemma_field_reads_back(
    pool: Seq<SpecConstantEntry>,
    access_flags: u16,
    name_index: u16,
    descriptor_index: u16,
    d: Seq<u8>,
    p: int,
)
    requires
        bytes_at(d, p, spec_member_header_bytes(access_flags, name_index, descriptor_index, 0)),
    ensures
        spec_read_field(pool, d, p) == Ok::<(SpecFieldInfo, int), crate::error::SpecReadError>(
            (SpecFieldInfo { access_flags, name_index, descriptor_index, attributes: seq![] }, p + 8),
        ),
{
    lemma_u16_be_bytes(access_flags);
    lemma_u16_be_bytes(name_index);
    lemma_u16_be_bytes(descriptor_index);
    lemma_u16_be_bytes(0);
    let b = spec_member_header_bytes(access_flags, name_index, descriptor_index, 0);
    lemma_bytes_at(d, p, b);
    assert(d[p] == b[0] && d[p + 1] == b[1] && d[p + 2] == b[2] && d[p + 3] == b[3]);
    assert(d[p + 4] == b[4] && d[p + 5] == b[5] && d[p + 6] == b[6] && d[p + 7] == b[7]);
}

/// A method without attributes laid out at `p` reads back with its flags, name index and
/// descriptor index, and ends after its eight bytes.
pub proof fn lemma_method_reads_back(
    pool: Seq<SpecConstantEntry>,
    access_flags: u16,
    name_index: u16,
    descriptor_index: u16,
    d: Seq<u8>,
    p: int,
)
    requires
        bytes_at(d, p, spec_member_header_bytes(access_flags, name_index, descriptor_index, 0)),
    ensures
        spec_read_method(pool, d, p) == Ok::<(SpecMethodInfo, int), crate::error::SpecReadError>(
            (SpecMethodInfo { access_flags, name_index, descriptor_index, attributes: seq![] }, p + 8),
        ),
{
    lemma_u16_be_bytes(access_flags);
    lemma_u16_be_bytes(name_index);
    lemma_u16_be_bytes(descriptor_index);
    lemma_u16_be_bytes(0);
    let b = spec_member_header_bytes(access_flags, name_index, descriptor_index, 0);
    lemma_bytes_at(d, p, b);
    assert(d[p] == b[0] && d[p + 1] == b[1] && d[p + 2] == b[2] && d[p + 3] == b[3]);
    assert(d[p + 4] == b[4] && d[p + 5] == b[5] && d[p + 6] == b[6] && d[p + 7] == b[7]);
}

} // verus!
