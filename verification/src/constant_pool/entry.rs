//! Constant pool entries: reading and writing.

use crate::constant_pool::kind::{ConstantKind, spec_constant_kind_from_tag};
use crate::constant_pool::types::{Dynamic, MethodHandle, NameAndType, Reference};
use crate::cursor::{ByteCursor, be_u16, avail, lift, spec_bytes, spec_i32, spec_i64, spec_u16, spec_u32, spec_u64, spec_u8};
use crate::error::{ClassFormatErr, ReadError, SpecClassFormatErr, SpecRead, SpecReadError, spec_eof};
use vstd::prelude::*;
use vstd::utf8::*;

verus! {

/// A single entry in the constant pool.
///
/// `Float` and `Double` hold the IEEE 754 bit patterns as stored in the class file.
///
/// https://docs.oracle.com/javase/specs/jvms/se25/html/jvms-4.html#jvms-4.4-140
#[derive(Debug, Clone, PartialEq)]
pub enum ConstantEntry {
    Unused,
    Utf8(String),
    Integer(i32),
    Float(u32),
    Long(i64),
    Double(u64),
    Class(u16),
    String(u16),
    MethodRef(Reference),
    FieldRef(Reference),
    InterfaceMethodRef(Reference),
    NameAndType(NameAndType),
    Dynamic(Dynamic),
    InvokeDynamic(Dynamic),
    MethodHandle(MethodHandle),
    MethodType(u16),
}

/// Mathematical counterpart of [`ConstantEntry`].
pub enum SpecConstantEntry {
    Unused,
    Utf8(Seq<char>),
    Integer(i32),
    Float(u32),
    Long(i64),
    Double(u64),
    Class(u16),
    String(u16),
    MethodRef(Reference),
    FieldRef(Reference),
    InterfaceMethodRef(Reference),
    NameAndType(NameAndType),
    Dynamic(Dynamic),
    InvokeDynamic(Dynamic),
    MethodHandle(MethodHandle),
    MethodType(u16),
}

impl View for ConstantEntry {
    type V = SpecConstantEntry;

    open spec fn view(&self) -> SpecConstantEntry {
        match self {
            ConstantEntry::Unused => SpecConstantEntry::Unused,
            ConstantEntry::Utf8(s) => SpecConstantEntry::Utf8(s@),
            ConstantEntry::Integer(v) => SpecConstantEntry::Integer(*v),
            ConstantEntry::Float(v) => SpecConstantEntry::Float(*v),
            ConstantEntry::Long(v) => SpecConstantEntry::Long(*v),
            ConstantEntry::Double(v) => SpecConstantEntry::Double(*v),
            ConstantEntry::Class(v) => SpecConstantEntry::Class(*v),
            ConstantEntry::String(v) => SpecConstantEntry::String(*v),
            ConstantEntry::MethodRef(v) => SpecConstantEntry::MethodRef(*v),
            ConstantEntry::FieldRef(v) => SpecConstantEntry::FieldRef(*v),
            ConstantEntry::InterfaceMethodRef(v) => SpecConstantEntry::InterfaceMethodRef(*v),
            ConstantEntry::NameAndType(v) => SpecConstantEntry::NameAndType(*v),
            ConstantEntry::Dynamic(v) => SpecConstantEntry::Dynamic(*v),
            ConstantEntry::InvokeDynamic(v) => SpecConstantEntry::InvokeDynamic(*v),
            ConstantEntry::MethodHandle(v) => SpecConstantEntry::MethodHandle(*v),
            ConstantEntry::MethodType(v) => SpecConstantEntry::MethodType(*v),
        }
    }
}

/// The kind of an entry.
pub open spec fn spec_entry_kind(e: SpecConstantEntry) -> ConstantKind {
    match e {
        SpecConstantEntry::Unused => ConstantKind::Unused,
        SpecConstantEntry::Utf8(_) => ConstantKind::Utf8,
        SpecConstantEntry::Integer(_) => ConstantKind::Integer,
        SpecConstantEntry::Float(_) => ConstantKind::Float,
        SpecConstantEntry::Long(_) => ConstantKind::Long,
        SpecConstantEntry::Double(_) => ConstantKind::Double,
        SpecConstantEntry::Class(_) => ConstantKind::Class,
        SpecConstantEntry::String(_) => ConstantKind::String,
        SpecConstantEntry::MethodRef(_) => ConstantKind::MethodRef,
        SpecConstantEntry::FieldRef(_) => ConstantKind::FieldRef,
        SpecConstantEntry::InterfaceMethodRef(_) => ConstantKind::InterfaceMethodRef,
        SpecConstantEntry::NameAndType(_) => ConstantKind::NameAndType,
        SpecConstantEntry::Dynamic(_) => ConstantKind::Dynamic,
        SpecConstantEntry::InvokeDynamic(_) => ConstantKind::InvokeDynamic,
        SpecConstantEntry::MethodHandle(_) => ConstantKind::MethodHandle,
        SpecConstantEntry::MethodType(_) => ConstantKind::MethodType,
    }
}

/// What `String::from_utf8_lossy` makes of a byte sequence.
pub uninterp spec fn spec_utf8_lossy(bytes: Seq<u8>) -> Seq<char>;

/// `String::from_utf8_lossy(bytes).to_string()`: the characters that `bytes`
/// encode, with each invalid sequence replaced by U+FFFD. The contract names the
/// result and states what the documentation gives for valid input: the decoded
/// characters. How invalid input is replaced is left unsaid.
#[verifier::external_body]
fn utf8_lossy_string(bytes: &[u8]) -> (s: String)
    ensures
        s@ == spec_utf8_lossy(bytes@),
        valid_utf8(bytes@) ==> s@ == decode_utf8(bytes@),
{
    String::from_utf8_lossy(bytes).to_string()
}

/// The text of a `Utf8` entry whose bytes are `b`: the characters they encode where they
/// are valid UTF-8, what lossy decoding makes of them otherwise.
pub open spec fn spec_utf8_text(b: Seq<u8>) -> Seq<char> {
    if valid_utf8(b) {
        decode_utf8(b)
    } else {
        spec_utf8_lossy(b)
    }
}

/// Two-index payload as read from the input.
pub open spec fn spec_pair_u16(d: Seq<u8>, p: int) -> Option<((u16, u16), int)> {
    if avail(d, p, 4) {
        Some(((be_u16(d[p], d[p + 1]), be_u16(d[p + 2], d[p + 3])), p + 4))
    } else {
        None
    }
}

/// Reads the constant pool entry at `p`: a tag byte followed by its payload.
/// Tags 0 (`Unused`), 19 (`Module`) and 20 (`Package`) are not handled.
pub open spec fn spec_read_constant(d: Seq<u8>, p: int) -> SpecRead<SpecConstantEntry> {
    match spec_u8(d, p) {
        None => Err(spec_eof()),
        Some((tag, q)) => match spec_constant_kind_from_tag(tag) {
            None => Err(SpecReadError::Format(SpecClassFormatErr::UnknownTag(tag))),
            Some(kind) => match kind {
                ConstantKind::Unused | ConstantKind::Module | ConstantKind::Package => Err(
                    SpecReadError::Unsupported,
                ),
                ConstantKind::Utf8 => match spec_u16(d, q) {
                    None => Err(spec_eof()),
                    Some((len, q2)) => match spec_bytes(d, q2, len as int) {
                        None => Err(spec_eof()),
                        Some((b, q3)) => Ok((SpecConstantEntry::Utf8(spec_utf8_text(b)), q3)),
                    },
                },
                ConstantKind::Integer => match spec_i32(d, q) {
                    None => Err(spec_eof()),
                    Some((v, q2)) => Ok((SpecConstantEntry::Integer(v), q2)),
                },
                ConstantKind::Float => match spec_u32(d, q) {
                    None => Err(spec_eof()),
                    Some((v, q2)) => Ok((SpecConstantEntry::Float(v), q2)),
                },
                ConstantKind::Long => match spec_i64(d, q) {
                    None => Err(spec_eof()),
                    Some((v, q2)) => Ok((SpecConstantEntry::Long(v), q2)),
                },
                ConstantKind::Double => match spec_u64(d, q) {
                    None => Err(spec_eof()),
                    Some((v, q2)) => Ok((SpecConstantEntry::Double(v), q2)),
                },
                ConstantKind::Class => match spec_u16(d, q) {
                    None => Err(spec_eof()),
                    Some((v, q2)) => Ok((SpecConstantEntry::Class(v), q2)),
                },
                ConstantKind::String => match spec_u16(d, q) {
                    None => Err(spec_eof()),
                    Some((v, q2)) => Ok((SpecConstantEntry::String(v), q2)),
                },
                ConstantKind::MethodType => match spec_u16(d, q) {
                    None => Err(spec_eof()),
                    Some((v, q2)) => Ok((SpecConstantEntry::MethodType(v), q2)),
                },
                ConstantKind::MethodHandle => match spec_u8(d, q) {
                    None => Err(spec_eof()),
                    Some((k, q2)) => match spec_u16(d, q2) {
                        None => Err(spec_eof()),
                        Some((i, q3)) => Ok(
                            (
                                SpecConstantEntry::MethodHandle(
                                    MethodHandle { reference_kind: k, reference_index: i },
                                ),
                                q3,
                            ),
                        ),
                    },
                },
                _ => match spec_pair_u16(d, q) {
                    None => Err(spec_eof()),
                    Some(((a, b), q2)) => Ok((spec_pair_entry(kind, a, b), q2)),
                },
            },
        },
    }
}

/// The entry of a two-index kind with indices `a` and `b`.
pub open spec fn spec_pair_entry(kind: ConstantKind, a: u16, b: u16) -> SpecConstantEntry {
    match kind {
        ConstantKind::FieldRef => SpecConstantEntry::FieldRef(
            Reference { class_index: a, name_and_type_index: b },
        ),
        ConstantKind::MethodRef => SpecConstantEntry::MethodRef(
            Reference { class_index: a, name_and_type_index: b },
        ),
        ConstantKind::InterfaceMethodRef => SpecConstantEntry::InterfaceMethodRef(
            Reference { class_index: a, name_and_type_index: b },
        ),
        ConstantKind::NameAndType => SpecConstantEntry::NameAndType(
            NameAndType { name_index: a, descriptor_index: b },
        ),
        ConstantKind::Dynamic => SpecConstantEntry::Dynamic(
            Dynamic { bootstrap_method_attr_index: a, name_and_type_index: b },
        ),
        _ => SpecConstantEntry::InvokeDynamic(
            Dynamic { bootstrap_method_attr_index: a, name_and_type_index: b },
        ),
    }
}

/// `r` is what a reader whose specification is `s` returned, and the cursor
/// went from `old` to `new`: on success the value's view and the new position
/// are those of `s`; on failure the error's view is that of `s`.
pub open spec fn read_matches<'a, T: View>(
    old: ByteCursor<'a>,
    new: ByteCursor<'a>,
    r: Result<T, ReadError>,
    s: SpecRead<T::V>,
) -> bool {
    &&& new.data@ == old.data@
    &&& new.inv()
    &&& match s {
        Ok((v, q)) => r matches Ok(x) && x@ == v && new.pos == q,
        Err(e) => r matches Err(x) && x@ == e,
    }
}

/// Lifts a primitive read to a [`ReadError`] result.
pub fn ru8(c: &mut ByteCursor) -> (r: Result<u8, ReadError>)
    requires
        old(c).inv(),
    ensures
        final(c).inv(),
        read_matches(*old(c), *final(c), r, lift(spec_u8(old(c).data@, old(c).pos as int))),
{
    match c.u8() {
        Ok(v) => Ok(v),
        Err(e) => Err(ReadError::Format(ClassFormatErr::Cursor(e))),
    }
}

pub fn ru16(c: &mut ByteCursor) -> (r: Result<u16, ReadError>)
    requires
        old(c).inv(),
    ensures
        final(c).inv(),
        read_matches(*old(c), *final(c), r, lift(spec_u16(old(c).data@, old(c).pos as int))),
{
    match c.u16() {
        Ok(v) => Ok(v),
        Err(e) => Err(ReadError::Format(ClassFormatErr::Cursor(e))),
    }
}

pub fn ru32(c: &mut ByteCursor) -> (r: Result<u32, ReadError>)
    requires
        old(c).inv(),
    ensures
        final(c).inv(),
        read_matches(*old(c), *final(c), r, lift(spec_u32(old(c).data@, old(c).pos as int))),
{
    match c.u32() {
        Ok(v) => Ok(v),
        Err(e) => Err(ReadError::Format(ClassFormatErr::Cursor(e))),
    }
}

impl ConstantEntry {
    /// The tag of this entry; the same as [`ConstantEntry::get_kind`].
    pub fn get_tag(&self) -> (k: ConstantKind)
        ensures
            k == spec_entry_kind(self@),
    {
        self.get_kind()
    }

    pub fn get_kind(&self) -> (k: ConstantKind)
        ensures
            k == spec_entry_kind(self@),
    {
        match self {
            ConstantEntry::Unused => ConstantKind::Unused,
            ConstantEntry::Utf8(_) => ConstantKind::Utf8,
            ConstantEntry::Integer(_) => ConstantKind::Integer,
            ConstantEntry::Float(_) => ConstantKind::Float,
            ConstantEntry::Long(_) => ConstantKind::Long,
            ConstantEntry::Double(_) => ConstantKind::Double,
            ConstantEntry::Class(_) => ConstantKind::Class,
            ConstantEntry::String(_) => ConstantKind::String,
            ConstantEntry::MethodRef(_) => ConstantKind::MethodRef,
            ConstantEntry::FieldRef(_) => ConstantKind::FieldRef,
            ConstantEntry::InterfaceMethodRef(_) => ConstantKind::InterfaceMethodRef,
            ConstantEntry::NameAndType(_) => ConstantKind::NameAndType,
            ConstantEntry::Dynamic(_) => ConstantKind::Dynamic,
            ConstantEntry::InvokeDynamic(_) => ConstantKind::InvokeDynamic,
            ConstantEntry::MethodHandle(_) => ConstantKind::MethodHandle,
            ConstantEntry::MethodType(_) => ConstantKind::MethodType,
        }
    }

    /// Reads one entry at the cursor.
    pub fn read(cursor: &mut ByteCursor) -> (r: Result<ConstantEntry, ReadError>)
        requires
            old(cursor).inv(),
        ensures
            read_matches(
                *old(cursor),
                *final(cursor),
                r,
                spec_read_constant(old(cursor).data@, old(cursor).pos as int),
            ),
    {
        let raw_tag = ru8(cursor)?;
        let tag = match ConstantKind::from_tag(raw_tag) {
            Some(t) => t,
            None => return Err(ReadError::Format(ClassFormatErr::UnknownTag(raw_tag))),
        };
        let entry = match tag {
            ConstantKind::Unused | ConstantKind::Module | ConstantKind::Package => {
                return Err(ReadError::Unsupported);
            },
            ConstantKind::Utf8 => {
                let len = ru16(cursor)?;
                let bytes = match cursor.bytes(len as usize) {
                    Ok(b) => b,
                    Err(e) => return Err(ReadError::Format(ClassFormatErr::Cursor(e))),
                };
                ConstantEntry::Utf8(utf8_lossy_string(bytes.as_slice()))
            },
            ConstantKind::Integer => match cursor.i32() {
                Ok(v) => ConstantEntry::Integer(v),
                Err(e) => return Err(ReadError::Format(ClassFormatErr::Cursor(e))),
            },
            ConstantKind::Float => ConstantEntry::Float(ru32(cursor)?),
            ConstantKind::Long => match cursor.i64() {
                Ok(v) => ConstantEntry::Long(v),
                Err(e) => return Err(ReadError::Format(ClassFormatErr::Cursor(e))),
            },
            ConstantKind::Double => match cursor.u64() {
                Ok(v) => ConstantEntry::Double(v),
                Err(e) => return Err(ReadError::Format(ClassFormatErr::Cursor(e))),
            },
            ConstantKind::Class => ConstantEntry::Class(ru16(cursor)?),
            ConstantKind::String => ConstantEntry::String(ru16(cursor)?),
            ConstantKind::MethodType => ConstantEntry::MethodType(ru16(cursor)?),
            ConstantKind::MethodHandle => {
                let k = ru8(cursor)?;
                let i = ru16(cursor)?;
                ConstantEntry::MethodHandle(MethodHandle::new(k, i))
            },
            _ => {
                let a = ru16(cursor)?;
                let b = ru16(cursor)?;
                match tag {
                    ConstantKind::FieldRef => ConstantEntry::FieldRef(Reference::new(a, b)),
                    ConstantKind::MethodRef => ConstantEntry::MethodRef(Reference::new(a, b)),
                    ConstantKind::InterfaceMethodRef => ConstantEntry::InterfaceMethodRef(
                        Reference::new(a, b),
                    ),
                    ConstantKind::NameAndType => ConstantEntry::NameAndType(
                        NameAndType::new(a, b),
                    ),
                    ConstantKind::Dynamic => ConstantEntry::Dynamic(Dynamic::new(a, b)),
                    _ => ConstantEntry::InvokeDynamic(Dynamic::new(a, b)),
                }
            },
        };
        Ok(entry)
    }
}

} // verus!
