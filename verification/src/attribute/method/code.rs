//! Attributes of a `Code` attribute, and the stack map frames they hold.
//!
//! https://docs.oracle.com/javase/specs/jvms/se25/html/jvms-4.html#jvms-4.7.3

use crate::attribute::kind::AttributeKind;
use crate::attribute::shared::{read_attribute_header, spec_read_attribute_header};
use crate::constant_pool::entry::{read_matches, ru16, ru8};
use crate::constant_pool::{ConstantPool, SpecConstantEntry};
use crate::cursor::{ByteCursor, avail, be_u16, spec_u16, spec_u8};
use crate::error::{ClassFormatErr, ReadError, SpecClassFormatErr, SpecRead, SpecReadError, spec_eof};
use crate::read::{
    lemma_read_seq_step_err, spec_read_counted, spec_read_seq, vec_matches, views,
};
use vstd::prelude::*;

verus! {

/// https://docs.oracle.com/javase/specs/jvms/se25/html/jvms-4.html#jvms-4.7.3
#[derive(Debug, Clone, PartialEq, Eq)]
pub enum CodeAttributeInfo {
    LineNumberTable(Vec<LineNumberEntry>),
    LocalVariableTable(Vec<LocalVariableEntry>),
    StackMapTable(Vec<StackMapFrame>),
    LocalVariableTypeTable(Vec<LocalVariableTypeEntry>),
    RuntimeVisibleTypeAnnotations,
    RuntimeInvisibleTypeAnnotations,
}

/// https://docs.oracle.com/javase/specs/jvms/se25/html/jvms-4.html#jvms-4.7.12
#[derive(Debug, Clone, Copy, PartialEq, Eq, Structural)]
pub struct LineNumberEntry {
    pub start_pc: u16,
    pub line_number: u16,
}

/// https://docs.oracle.com/javase/specs/jvms/se25/html/jvms-4.html#jvms-4.7.13
#[derive(Debug, Clone, Copy, PartialEq, Eq, Structural)]
pub struct LocalVariableEntry {
    pub start_pc: u16,
    pub length: u16,
    pub name_index: u16,
    pub descriptor_index: u16,
    pub index: u16,
}

/// https://docs.oracle.com/javase/specs/jvms/se25/html/jvms-4.html#jvms-4.7.14
#[derive(Debug, Clone, Copy, PartialEq, Eq, Structural)]
pub struct LocalVariableTypeEntry {
    pub start_pc: u16,
    pub length: u16,
    pub name_index: u16,
    pub signature_index: u16,
    pub index: u16,
}

/// https://docs.oracle.com/javase/specs/jvms/se25/html/jvms-4.html#jvms-4.7.4
#[derive(Debug, Clone, PartialEq, Eq)]
pub enum StackMapFrame {
    Same { offset_delta: u16 },
    SameLocals1StackItem { offset_delta: u16, stack: VerificationTypeInfo },
    SameLocals1StackItemExtended { offset_delta: u16, stack: VerificationTypeInfo },
    Chop { k: u8, offset_delta: u16 },
    SameExtended { offset_delta: u16 },
    Append { k: u8, offset_delta: u16, locals: Vec<VerificationTypeInfo> },
    Full { offset_delta: u16, locals: Vec<VerificationTypeInfo>, stack: Vec<VerificationTypeInfo> },
}

/// Tag of a verification type in a stack map frame.
///
/// https://docs.oracle.com/javase/specs/jvms/se25/html/jvms-4.html#jvms-4.7.4
#[derive(Debug, Clone, Copy, PartialEq, Eq, Structural)]
pub enum VerificationTypeTag {
    Top,
    Integer,
    Float,
    Double,
    Long,
    Null,
    UninitializedThis,
    Object,
    Uninitialized,
}

/// The byte that encodes each [`VerificationTypeTag`].
pub open spec fn spec_verification_tag_tag(k: VerificationTypeTag) -> u8 {
    match k {
        VerificationTypeTag::Top => 0,
        VerificationTypeTag::Integer => 1,
        VerificationTypeTag::Float => 2,
        VerificationTypeTag::Double => 3,
        VerificationTypeTag::Long => 4,
        VerificationTypeTag::Null => 5,
        VerificationTypeTag::UninitializedThis => 6,
        VerificationTypeTag::Object => 7,
        VerificationTypeTag::Uninitialized => 8,
    }
}

/// The [`VerificationTypeTag`] that a byte encodes, if any.
pub open spec fn spec_verification_tag_from_tag(b: u8) -> Option<VerificationTypeTag> {
    match b {
        0 => Some(VerificationTypeTag::Top),
        1 => Some(VerificationTypeTag::Integer),
        2 => Some(VerificationTypeTag::Float),
        3 => Some(VerificationTypeTag::Double),
        4 => Some(VerificationTypeTag::Long),
        5 => Some(VerificationTypeTag::Null),
        6 => Some(VerificationTypeTag::UninitializedThis),
        7 => Some(VerificationTypeTag::Object),
        8 => Some(VerificationTypeTag::Uninitialized),
        _ => None,
    }
}

impl VerificationTypeTag {
    /// The byte that encodes this value.
    pub fn tag(&self) -> (b: u8)
        ensures
            b == spec_verification_tag_tag(*self),
    {
        match self {
            VerificationTypeTag::Top => 0,
            VerificationTypeTag::Integer => 1,
            VerificationTypeTag::Float => 2,
            VerificationTypeTag::Double => 3,
            VerificationTypeTag::Long => 4,
            VerificationTypeTag::Null => 5,
            VerificationTypeTag::UninitializedThis => 6,
            VerificationTypeTag::Object => 7,
            VerificationTypeTag::Uninitialized => 8,
        }
    }

    /// The value that `b` encodes, or `None` for a byte that encodes none.
    pub fn from_tag(b: u8) -> (k: Option<VerificationTypeTag>)
        ensures
            k == spec_verification_tag_from_tag(b),
    {
        match b {
            0 => Some(VerificationTypeTag::Top),
            1 => Some(VerificationTypeTag::Integer),
            2 => Some(VerificationTypeTag::Float),
            3 => Some(VerificationTypeTag::Double),
            4 => Some(VerificationTypeTag::Long),
            5 => Some(VerificationTypeTag::Null),
            6 => Some(VerificationTypeTag::UninitializedThis),
            7 => Some(VerificationTypeTag::Object),
            8 => Some(VerificationTypeTag::Uninitialized),
            _ => None,
        }
    }
}

/// Encoding a [`VerificationTypeTag`] as its byte and decoding the byte gives it back,
/// and every byte that decodes to a value is that value's encoding.
pub proof fn lemma_verification_tag_tag_roundtrip(k: VerificationTypeTag, b: u8)
    ensures
        spec_verification_tag_from_tag(spec_verification_tag_tag(k)) == Some(k),
        spec_verification_tag_from_tag(b) == Some(k) ==> spec_verification_tag_tag(k) == b,
{
}

#[derive(Debug, Clone, Copy, PartialEq, Eq, Structural)]
pub enum VerificationTypeInfo {
    Top,
    Integer,
    Float,
    Double,
    Long,
    Null,
    UninitializedThis,
    Object(u16),
    Uninitialized(u16),
}

impl View for LineNumberEntry {
    type V = LineNumberEntry;

    open spec fn view(&self) -> LineNumberEntry {
        *self
    }
}

impl View for LocalVariableEntry {
    type V = LocalVariableEntry;

    open spec fn view(&self) -> LocalVariableEntry {
        *self
    }
}

impl View for LocalVariableTypeEntry {
    type V = LocalVariableTypeEntry;

    open spec fn view(&self) -> LocalVariableTypeEntry {
        *self
    }
}

impl View for VerificationTypeInfo {
    type V = VerificationTypeInfo;

    open spec fn view(&self) -> VerificationTypeInfo {
        *self
    }
}

/// Mathematical counterpart of [`StackMapFrame`].
pub enum SpecStackMapFrame {
    Same { offset_delta: u16 },
    SameLocals1StackItem { offset_delta: u16, stack: VerificationTypeInfo },
    SameLocals1StackItemExtended { offset_delta: u16, stack: VerificationTypeInfo },
    Chop { k: u8, offset_delta: u16 },
    SameExtended { offset_delta: u16 },
    Append { k: u8, offset_delta: u16, locals: Seq<VerificationTypeInfo> },
    Full { offset_delta: u16, locals: Seq<VerificationTypeInfo>, stack: Seq<VerificationTypeInfo> },
}

/// Mathematical counterpart of [`CodeAttributeInfo`].
pub enum SpecCodeAttributeInfo {
    LineNumberTable(Seq<LineNumberEntry>),
    LocalVariableTable(Seq<LocalVariableEntry>),
    StackMapTable(Seq<SpecStackMapFrame>),
    LocalVariableTypeTable(Seq<LocalVariableTypeEntry>),
    RuntimeVisibleTypeAnnotations,
    RuntimeInvisibleTypeAnnotations,
}

impl View for StackMapFrame {
    type V = SpecStackMapFrame;

    open spec fn view(&self) -> SpecStackMapFrame {
        match self {
            StackMapFrame::Same { offset_delta } => SpecStackMapFrame::Same { offset_delta: *offset_delta },
            StackMapFrame::SameLocals1StackItem { offset_delta, stack } => SpecStackMapFrame::SameLocals1StackItem {
                offset_delta: *offset_delta,
                stack: *stack,
            },
            StackMapFrame::SameLocals1StackItemExtended { offset_delta, stack } => SpecStackMapFrame::SameLocals1StackItemExtended {
                offset_delta: *offset_delta,
                stack: *stack,
            },
            StackMapFrame::Chop { k, offset_delta } => SpecStackMapFrame::Chop { k: *k, offset_delta: *offset_delta },
            StackMapFrame::SameExtended { offset_delta } => SpecStackMapFrame::SameExtended { offset_delta: *offset_delta },
            StackMapFrame::Append { k, offset_delta, locals } => SpecStackMapFrame::Append {
                k: *k,
                offset_delta: *offset_delta,
                locals: locals@,
            },
            StackMapFrame::Full { offset_delta, locals, stack } => SpecStackMapFrame::Full {
                offset_delta: *offset_delta,
                locals: locals@,
                stack: stack@,
            },
        }
    }
}

impl View for CodeAttributeInfo {
    type V = SpecCodeAttributeInfo;

    open spec fn view(&self) -> SpecCodeAttributeInfo {
        match self {
            CodeAttributeInfo::LineNumberTable(v) => SpecCodeAttributeInfo::LineNumberTable(v@),
            CodeAttributeInfo::LocalVariableTable(v) => SpecCodeAttributeInfo::LocalVariableTable(v@),
            CodeAttributeInfo::StackMapTable(v) => SpecCodeAttributeInfo::StackMapTable(views(v@)),
            CodeAttributeInfo::LocalVariableTypeTable(v) => SpecCodeAttributeInfo::LocalVariableTypeTable(v@),
            CodeAttributeInfo::RuntimeVisibleTypeAnnotations => SpecCodeAttributeInfo::RuntimeVisibleTypeAnnotations,
            CodeAttributeInfo::RuntimeInvisibleTypeAnnotations => SpecCodeAttributeInfo::RuntimeInvisibleTypeAnnotations,
        }
    }
}

/// Reads the verification type at `p`: a tag byte, then an index for `Object` and
/// `Uninitialized`.
pub open spec fn spec_read_verification_type(d: Seq<u8>, p: int) -> SpecRead<VerificationTypeInfo> {
    if !avail(d, p, 1) {
        Err(spec_eof())
    } else {
        let q = p + 1;
        match spec_verification_tag_from_tag(d[p]) {
            None => Err(SpecReadError::Format(SpecClassFormatErr::UnknownTag(d[p]))),
            Some(VerificationTypeTag::Top) => Ok((VerificationTypeInfo::Top, q)),
            Some(VerificationTypeTag::Integer) => Ok((VerificationTypeInfo::Integer, q)),
            Some(VerificationTypeTag::Float) => Ok((VerificationTypeInfo::Float, q)),
            Some(VerificationTypeTag::Double) => Ok((VerificationTypeInfo::Double, q)),
            Some(VerificationTypeTag::Long) => Ok((VerificationTypeInfo::Long, q)),
            Some(VerificationTypeTag::Null) => Ok((VerificationTypeInfo::Null, q)),
            Some(VerificationTypeTag::UninitializedThis) => Ok((VerificationTypeInfo::UninitializedThis, q)),
            Some(VerificationTypeTag::Object) => match spec_u16(d, q) {
                Some((i, r)) => Ok((VerificationTypeInfo::Object(i), r)),
                None => Err(spec_eof()),
            },
            Some(VerificationTypeTag::Uninitialized) => match spec_u16(d, q) {
                Some((i, r)) => Ok((VerificationTypeInfo::Uninitialized(i), r)),
                None => Err(spec_eof()),
            },
        }
    }
}

/// Reader of one verification type.
pub open spec fn verification_type_reader() -> spec_fn(Seq<u8>, int) -> SpecRead<VerificationTypeInfo> {
    |d: Seq<u8>, p: int| spec_read_verification_type(d, p)
}

/// Reads an offset delta at `p`, then what `rest` reads after it.
pub open spec fn after_delta(
    d: Seq<u8>,
    p: int,
    rest: spec_fn(u16, int) -> SpecRead<SpecStackMapFrame>,
) -> SpecRead<SpecStackMapFrame> {
    match spec_u16(d, p) {
        None => Err(spec_eof()),
        Some((delta, q)) => rest(delta, q),
    }
}

/// Reads the stack map frame at `p`: its type byte decides its layout.
pub open spec fn spec_read_frame(d: Seq<u8>, p: int) -> SpecRead<SpecStackMapFrame> {
    if !avail(d, p, 1) {
        Err(spec_eof())
    } else {
        let t = d[p];
        let q = p + 1;
        if t <= 63 {
            Ok((SpecStackMapFrame::Same { offset_delta: t as u16 }, q))
        } else if t <= 127 {
            match spec_read_verification_type(d, q) {
                Err(e) => Err(e),
                Ok((v, r)) => Ok((SpecStackMapFrame::SameLocals1StackItem { offset_delta: (t - 64) as u16, stack: v }, r)),
            }
        } else if t == 247 {
            after_delta(
                d,
                q,
                |delta: u16, r: int|
                    match spec_read_verification_type(d, r) {
                        Err(e) => Err(e),
                        Ok((v, s)) => Ok(
                            (SpecStackMapFrame::SameLocals1StackItemExtended { offset_delta: delta, stack: v }, s),
                        ),
                    },
            )
        } else if 248 <= t <= 250 {
            after_delta(d, q, |delta: u16, r: int| Ok((SpecStackMapFrame::Chop { k: (251 - t) as u8, offset_delta: delta }, r)))
        } else if t == 251 {
            after_delta(d, q, |delta: u16, r: int| Ok((SpecStackMapFrame::SameExtended { offset_delta: delta }, r)))
        } else if 252 <= t <= 254 {
            after_delta(
                d,
                q,
                |delta: u16, r: int|
                    match spec_read_seq(d, r, (t - 251) as nat, verification_type_reader()) {
                        Err(e) => Err(e),
                        Ok((locals, s)) => Ok(
                            (SpecStackMapFrame::Append { k: (t - 251) as u8, offset_delta: delta, locals }, s),
                        ),
                    },
            )
        } else if t == 255 {
            after_delta(
                d,
                q,
                |delta: u16, r: int|
                    match spec_read_counted(d, r, verification_type_reader()) {
                        Err(e) => Err(e),
                        Ok((locals, s)) => match spec_read_counted(d, s, verification_type_reader()) {
                            Err(e) => Err(e),
                            Ok((stack, u)) => Ok((SpecStackMapFrame::Full { offset_delta: delta, locals, stack }, u)),
                        },
                    },
            )
        } else {
            Err(SpecReadError::Format(SpecClassFormatErr::UnknownStackFrameType(t)))
        }
    }
}

/// Reader of one stack map frame.
pub open spec fn frame_reader() -> spec_fn(Seq<u8>, int) -> SpecRead<SpecStackMapFrame> {
    |d: Seq<u8>, p: int| spec_read_frame(d, p)
}

/// Reader of one line number entry.
pub open spec fn line_number_reader() -> spec_fn(Seq<u8>, int) -> SpecRead<LineNumberEntry> {
    |d: Seq<u8>, p: int|
        if avail(d, p, 4) {
            Ok((LineNumberEntry { start_pc: be_u16(d[p], d[p + 1]), line_number: be_u16(d[p + 2], d[p + 3]) }, p + 4))
        } else {
            Err(spec_eof())
        }
}

/// Reader of one local variable entry.
pub open spec fn local_variable_reader() -> spec_fn(Seq<u8>, int) -> SpecRead<LocalVariableEntry> {
    |d: Seq<u8>, p: int|
        if avail(d, p, 10) {
            Ok(
                (
                    LocalVariableEntry {
                        start_pc: be_u16(d[p], d[p + 1]),
                        length: be_u16(d[p + 2], d[p + 3]),
                        name_index: be_u16(d[p + 4], d[p + 5]),
                        descriptor_index: be_u16(d[p + 6], d[p + 7]),
                        index: be_u16(d[p + 8], d[p + 9]),
                    },
                    p + 10,
                ),
            )
        } else {
            Err(spec_eof())
        }
}

/// Reader of one local variable type entry.
pub open spec fn local_variable_type_reader() -> spec_fn(Seq<u8>, int) -> SpecRead<LocalVariableTypeEntry> {
    |d: Seq<u8>, p: int|
        if avail(d, p, 10) {
            Ok(
                (
                    LocalVariableTypeEntry {
                        start_pc: be_u16(d[p], d[p + 1]),
                        length: be_u16(d[p + 2], d[p + 3]),
                        name_index: be_u16(d[p + 4], d[p + 5]),
                        signature_index: be_u16(d[p + 6], d[p + 7]),
                        index: be_u16(d[p + 8], d[p + 9]),
                    },
                    p + 10,
                ),
            )
        } else {
            Err(spec_eof())
        }
}

/// `r` with its value wrapped by `f`.
pub open spec fn wrap_code<A>(r: SpecRead<A>, f: spec_fn(A) -> SpecCodeAttributeInfo) -> SpecRead<SpecCodeAttributeInfo> {
    match r {
        Ok((a, q)) => Ok((f(a), q)),
        Err(e) => Err(e),
    }
}

/// Reads the attribute of a `Code` attribute at `p`: header, then payload. The kinds that
/// this reader does not implement are unsupported.
pub open spec fn spec_read_code_attribute_info(
    pool: Seq<SpecConstantEntry>,
    d: Seq<u8>,
    p: int,
) -> SpecRead<SpecCodeAttributeInfo> {
    match spec_read_attribute_header(pool, d, p) {
        Err(e) => Err(e),
        Ok((kind, q)) => match kind {
            AttributeKind::LineNumberTable => wrap_code(
                spec_read_counted(d, q, line_number_reader()),
                |v: Seq<LineNumberEntry>| SpecCodeAttributeInfo::LineNumberTable(v),
            ),
            AttributeKind::LocalVariableTable => wrap_code(
                spec_read_counted(d, q, local_variable_reader()),
                |v: Seq<LocalVariableEntry>| SpecCodeAttributeInfo::LocalVariableTable(v),
            ),
            AttributeKind::LocalVariableTypeTable => wrap_code(
                spec_read_counted(d, q, local_variable_type_reader()),
                |v: Seq<LocalVariableTypeEntry>| SpecCodeAttributeInfo::LocalVariableTypeTable(v),
            ),
            AttributeKind::StackMapTable => wrap_code(
                spec_read_counted(d, q, frame_reader()),
                |v: Seq<SpecStackMapFrame>| SpecCodeAttributeInfo::StackMapTable(v),
            ),
            _ => Err(SpecReadError::Unsupported),
        },
    }
}

impl VerificationTypeInfo {
    pub fn read(cursor: &mut ByteCursor) -> (r: Result<VerificationTypeInfo, ReadError>)
        requires
            old(cursor).inv(),
        ensures
            read_matches(*old(cursor), *final(cursor), r, spec_read_verification_type(old(cursor).data@, old(cursor).pos as int)),
    {
        let raw_tag = ru8(cursor)?;
        let frame_type = match VerificationTypeTag::from_tag(raw_tag) {
            Some(t) => t,
            None => return Err(ReadError::Format(ClassFormatErr::UnknownTag(raw_tag))),
        };
        Ok(
            match frame_type {
                VerificationTypeTag::Top => Self::Top,
                VerificationTypeTag::Integer => Self::Integer,
                VerificationTypeTag::Float => Self::Float,
                VerificationTypeTag::Double => Self::Double,
                VerificationTypeTag::Long => Self::Long,
                VerificationTypeTag::Null => Self::Null,
                VerificationTypeTag::UninitializedThis => Self::UninitializedThis,
                VerificationTypeTag::Object => Self::Object(ru16(cursor)?),
                VerificationTypeTag::Uninitialized => Self::Uninitialized(ru16(cursor)?),
            },
        )
    }
}

fn read_verification_type(cursor: &mut ByteCursor) -> (r: Result<VerificationTypeInfo, ReadError>)
    requires
        old(cursor).inv(),
    ensures
        read_matches(*old(cursor), *final(cursor), r, verification_type_reader()(old(cursor).data@, old(cursor).pos as int)),
{
    VerificationTypeInfo::read(cursor)
}

fn read_frame(cursor: &mut ByteCursor) -> (r: Result<StackMapFrame, ReadError>)
    requires
        old(cursor).inv(),
    ensures
        read_matches(*old(cursor), *final(cursor), r, frame_reader()(old(cursor).data@, old(cursor).pos as int)),
{
    StackMapFrame::read(cursor)
}

fn read_line_number(cursor: &mut ByteCursor) -> (r: Result<LineNumberEntry, ReadError>)
    requires
        old(cursor).inv(),
    ensures
        read_matches(*old(cursor), *final(cursor), r, line_number_reader()(old(cursor).data@, old(cursor).pos as int)),
{
    let start_pc = ru16(cursor)?;
    let line_number = ru16(cursor)?;
    Ok(LineNumberEntry { start_pc, line_number })
}

fn read_local_variable(cursor: &mut ByteCursor) -> (r: Result<LocalVariableEntry, ReadError>)
    requires
        old(cursor).inv(),
    ensures
        read_matches(*old(cursor), *final(cursor), r, local_variable_reader()(old(cursor).data@, old(cursor).pos as int)),
{
    let start_pc = ru16(cursor)?;
    let length = ru16(cursor)?;
    let name_index = ru16(cursor)?;
    let descriptor_index = ru16(cursor)?;
    let index = ru16(cursor)?;
    Ok(LocalVariableEntry { start_pc, length, name_index, descriptor_index, index })
}

fn read_local_variable_type(cursor: &mut ByteCursor) -> (r: Result<LocalVariableTypeEntry, ReadError>)
    requires
        old(cursor).inv(),
    ensures
        read_matches(*old(cursor), *final(cursor), r, local_variable_type_reader()(old(cursor).data@, old(cursor).pos as int)),
{
    let start_pc = ru16(cursor)?;
    let length = ru16(cursor)?;
    let name_index = ru16(cursor)?;
    let signature_index = ru16(cursor)?;
    let index = ru16(cursor)?;
    Ok(LocalVariableTypeEntry { start_pc, length, name_index, signature_index, index })
}

/// Reads `n` items one after the other.
pub fn read_n_verification_types(cursor: &mut ByteCursor, n: usize) -> (r: Result<Vec<VerificationTypeInfo>, ReadError>)
    requires
        old(cursor).inv(),
    ensures
        vec_matches(*old(cursor), *final(cursor), r, spec_read_seq(old(cursor).data@, old(cursor).pos as int, n as nat, verification_type_reader())),
{
    let ghost d = cursor.data@;
    let ghost p0 = cursor.pos as int;
    let mut items: Vec<VerificationTypeInfo> = Vec::new();
    let mut i: usize = 0;
    proof {
        assert(views(items@) =~= Seq::<VerificationTypeInfo>::empty());
    }
    while i < n
        invariant
            cursor.inv(),
            cursor.data@ == d,
            d == old(cursor).data@,
            p0 == old(cursor).pos,
            i <= n,
            spec_read_seq(d, p0, i as nat, verification_type_reader()) == Ok::<(Seq<VerificationTypeInfo>, int), SpecReadError>((views(items@), cursor.pos as int)),
        decreases n - i,
    {
        let ghost q = cursor.pos as int;
        let x = match read_verification_type(cursor) {
            Ok(x) => x,
            Err(e) => {
                proof {
                    lemma_read_seq_step_err(d, p0, i as nat, n as nat, verification_type_reader(), views(items@), q, e@);
                }
                return Err(e);
            },
        };
        let ghost old_items = items@;
        items.push(x);
        proof {
            assert(views(items@) =~= views(old_items).push(x@));
        }
        i = i + 1;
    }
    Ok(items)
}

/// Reads `n` items one after the other.
pub fn read_n_frames(cursor: &mut ByteCursor, n: usize) -> (r: Result<Vec<StackMapFrame>, ReadError>)
    requires
        old(cursor).inv(),
    ensures
        vec_matches(*old(cursor), *final(cursor), r, spec_read_seq(old(cursor).data@, old(cursor).pos as int, n as nat, frame_reader())),
{
    let ghost d = cursor.data@;
    let ghost p0 = cursor.pos as int;
    let mut items: Vec<StackMapFrame> = Vec::new();
    let mut i: usize = 0;
    proof {
        assert(views(items@) =~= Seq::<SpecStackMapFrame>::empty());
    }
    while i < n
        invariant
            cursor.inv(),
            cursor.data@ == d,
            d == old(cursor).data@,
            p0 == old(cursor).pos,
            i <= n,
            spec_read_seq(d, p0, i as nat, frame_reader()) == Ok::<(Seq<SpecStackMapFrame>, int), SpecReadError>((views(items@), cursor.pos as int)),
        decreases n - i,
    {
        let ghost q = cursor.pos as int;
        let x = match read_frame(cursor) {
            Ok(x) => x,
            Err(e) => {
                proof {
                    lemma_read_seq_step_err(d, p0, i as nat, n as nat, frame_reader(), views(items@), q, e@);
                }
                return Err(e);
            },
        };
        let ghost old_items = items@;
        items.push(x);
        proof {
            assert(views(items@) =~= views(old_items).push(x@));
        }
        i = i + 1;
    }
    Ok(items)
}

/// Reads `n` items one after the other.
pub fn read_n_line_numbers(cursor: &mut ByteCursor, n: usize) -> (r: Result<Vec<LineNumberEntry>, ReadError>)
    requires
        old(cursor).inv(),
    ensures
        vec_matches(*old(cursor), *final(cursor), r, spec_read_seq(old(cursor).data@, old(cursor).pos as int, n as nat, line_number_reader())),
{
    let ghost d = cursor.data@;
    let ghost p0 = cursor.pos as int;
    let mut items: Vec<LineNumberEntry> = Vec::new();
    let mut i: usize = 0;
    proof {
        assert(views(items@) =~= Seq::<LineNumberEntry>::empty());
    }
    while i < n
        invariant
            cursor.inv(),
            cursor.data@ == d,
            d == old(cursor).data@,
            p0 == old(cursor).pos,
            i <= n,
            spec_read_seq(d, p0, i as nat, line_number_reader()) == Ok::<(Seq<LineNumberEntry>, int), SpecReadError>((views(items@), cursor.pos as int)),
        decreases n - i,
    {
        let ghost q = cursor.pos as int;
        let x = match read_line_number(cursor) {
            Ok(x) => x,
            Err(e) => {
                proof {
                    lemma_read_seq_step_err(d, p0, i as nat, n as nat, line_number_reader(), views(items@), q, e@);
                }
                return Err(e);
            },
        };
        let ghost old_items = items@;
        items.push(x);
        proof {
            assert(views(items@) =~= views(old_items).push(x@));
        }
        i = i + 1;
    }
    Ok(items)
}

/// Reads `n` items one after the other.
pub fn read_n_local_variables(cursor: &mut ByteCursor, n: usize) -> (r: Result<Vec<LocalVariableEntry>, ReadError>)
    requires
        old(cursor).inv(),
    ensures
        vec_matches(*old(cursor), *final(cursor), r, spec_read_seq(old(cursor).data@, old(cursor).pos as int, n as nat, local_variable_reader())),
{
    let ghost d = cursor.data@;
    let ghost p0 = cursor.pos as int;
    let mut items: Vec<LocalVariableEntry> = Vec::new();
    let mut i: usize = 0;
    proof {
        assert(views(items@) =~= Seq::<LocalVariableEntry>::empty());
    }
    while i < n
        invariant
            cursor.inv(),
            cursor.data@ == d,
            d == old(cursor).data@,
            p0 == old(cursor).pos,
            i <= n,
            spec_read_seq(d, p0, i as nat, local_variable_reader()) == Ok::<(Seq<LocalVariableEntry>, int), SpecReadError>((views(items@), cursor.pos as int)),
        decreases n - i,
    {
        let ghost q = cursor.pos as int;
        let x = match read_local_variable(cursor) {
            Ok(x) => x,
            Err(e) => {
                proof {
                    lemma_read_seq_step_err(d, p0, i as nat, n as nat, local_variable_reader(), views(items@), q, e@);
                }
                return Err(e);
            },
        };
        let ghost old_items = items@;
        items.push(x);
        proof {
            assert(views(items@) =~= views(old_items).push(x@));
        }
        i = i + 1;
    }
    Ok(items)
}

/// Reads `n` items one after the other.
pub fn read_n_local_variable_types(cursor: &mut ByteCursor, n: usize) -> (r: Result<Vec<LocalVariableTypeEntry>, ReadError>)
    requires
        old(cursor).inv(),
    ensures
        vec_matches(*old(cursor), *final(cursor), r, spec_read_seq(old(cursor).data@, old(cursor).pos as int, n as nat, local_variable_type_reader())),
{
    let ghost d = cursor.data@;
    let ghost p0 = cursor.pos as int;
    let mut items: Vec<LocalVariableTypeEntry> = Vec::new();
    let mut i: usize = 0;
    proof {
        assert(views(items@) =~= Seq::<LocalVariableTypeEntry>::empty());
    }
    while i < n
        invariant
            cursor.inv(),
            cursor.data@ == d,
            d == old(cursor).data@,
            p0 == old(cursor).pos,
            i <= n,
            spec_read_seq(d, p0, i as nat, local_variable_type_reader()) == Ok::<(Seq<LocalVariableTypeEntry>, int), SpecReadError>((views(items@), cursor.pos as int)),
        decreases n - i,
    {
        let ghost q = cursor.pos as int;
        let x = match read_local_variable_type(cursor) {
            Ok(x) => x,
            Err(e) => {
                proof {
                    lemma_read_seq_step_err(d, p0, i as nat, n as nat, local_variable_type_reader(), views(items@), q, e@);
                }
                return Err(e);
            },
        };
        let ghost old_items = items@;
        items.push(x);
        proof {
            assert(views(items@) =~= views(old_items).push(x@));
        }
        i = i + 1;
    }
    Ok(items)
}

impl StackMapFrame {
    pub fn read(cursor: &mut ByteCursor) -> (r: Result<StackMapFrame, ReadError>)
        requires
            old(cursor).inv(),
        ensures
            read_matches(*old(cursor), *final(cursor), r, spec_read_frame(old(cursor).data@, old(cursor).pos as int)),
    {
        let frame_type = ru8(cursor)?;
        if frame_type <= 63 {
            Ok(StackMapFrame::Same { offset_delta: frame_type as u16 })
        } else if frame_type <= 127 {
            let stack = VerificationTypeInfo::read(cursor)?;
            Ok(StackMapFrame::SameLocals1StackItem { offset_delta: (frame_type - 64) as u16, stack })
        } else if frame_type == 247 {
            let offset_delta = ru16(cursor)?;
            let stack = VerificationTypeInfo::read(cursor)?;
            Ok(StackMapFrame::SameLocals1StackItemExtended { offset_delta, stack })
        } else if 248 <= frame_type && frame_type <= 250 {
            let offset_delta = ru16(cursor)?;
            Ok(StackMapFrame::Chop { k: 251 - frame_type, offset_delta })
        } else if frame_type == 251 {
            let offset_delta = ru16(cursor)?;
            Ok(StackMapFrame::SameExtended { offset_delta })
        } else if 252 <= frame_type && frame_type <= 254 {
            let offset_delta = ru16(cursor)?;
            let locals = read_n_verification_types(cursor, (frame_type - 251) as usize)?;
            proof {
                assert(views(locals@) =~= locals@);
            }
            Ok(StackMapFrame::Append { k: frame_type - 251, offset_delta, locals })
        } else if frame_type == 255 {
            let offset_delta = ru16(cursor)?;
            let number_of_locals = ru16(cursor)?;
            let locals = read_n_verification_types(cursor, number_of_locals as usize)?;
            let number_of_stack_items = ru16(cursor)?;
            let stack = read_n_verification_types(cursor, number_of_stack_items as usize)?;
            proof {
                assert(views(locals@) =~= locals@);
                assert(views(stack@) =~= stack@);
            }
            Ok(StackMapFrame::Full { offset_delta, locals, stack })
        } else {
            Err(ReadError::Format(ClassFormatErr::UnknownStackFrameType(frame_type)))
        }
    }
}

impl CodeAttributeInfo {
    /// Reads one attribute of a `Code` attribute, resolving its name in `pool`.
    pub fn read(pool: &ConstantPool, cursor: &mut ByteCursor) -> (r: Result<CodeAttributeInfo, ReadError>)
        requires
            old(cursor).inv(),
        ensures
            read_matches(*old(cursor), *final(cursor), r, spec_read_code_attribute_info(pool@, old(cursor).data@, old(cursor).pos as int)),
    {
        let attribute_kind = read_attribute_header(pool, cursor)?;
        match attribute_kind {
            AttributeKind::LineNumberTable => {
                let line_number_table_length = ru16(cursor)?;
                let line_number_table = read_n_line_numbers(cursor, line_number_table_length as usize)?;
                proof {
                    assert(views(line_number_table@) =~= line_number_table@);
                }
                Ok(CodeAttributeInfo::LineNumberTable(line_number_table))
            },
            AttributeKind::LocalVariableTable => {
                let local_variable_table_length = ru16(cursor)?;
                let local_variable_table = read_n_local_variables(cursor, local_variable_table_length as usize)?;
                proof {
                    assert(views(local_variable_table@) =~= local_variable_table@);
                }
                Ok(CodeAttributeInfo::LocalVariableTable(local_variable_table))
            },
            AttributeKind::LocalVariableTypeTable => {
                let local_variable_type_table_length = ru16(cursor)?;
                let local_variable_type_table = read_n_local_variable_types(
                    cursor,
                    local_variable_type_table_length as usize,
                )?;
                proof {
                    assert(views(local_variable_type_table@) =~= local_variable_type_table@);
                }
                Ok(CodeAttributeInfo::LocalVariableTypeTable(local_variable_type_table))
            },
            AttributeKind::StackMapTable => {
                let frames_count = ru16(cursor)?;
                let frames = read_n_frames(cursor, frames_count as usize)?;
                Ok(CodeAttributeInfo::StackMapTable(frames))
            },
            _ => Err(ReadError::Unsupported),
        }
    }
}

} // verus!
