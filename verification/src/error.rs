//! Errors reported while reading class files and bytecode.

use crate::attribute::AttributeKind;
use vstd::prelude::*;

verus! {

/// Failure of a [`crate::cursor::ByteCursor`] read.
#[derive(Debug, Clone, Copy, PartialEq, Eq, Structural)]
pub enum CursorError {
    /// The input ended before the requested number of bytes.
    UnexpectedEof,
}

/// Errors in the structure of a class file.
#[derive(Debug, Clone, PartialEq, Eq)]
pub enum ClassFormatErr {
    Cursor(CursorError),
    WrongMagic(u32),
    TrailingBytes,
    UnknownTag(u8),
    /// Index, name of the expected kind, name of the kind found.
    TypeError(u16, String, String),
    ConstantNotFound(u16),
    UnknownStackFrameType(u8),
    UnknownAttribute(String),
    AttributeIsNotShared(AttributeKind),
    InvalidMethodHandleKind(u8),
    /// A constant, attribute or type annotation target kind that this reader does not
    /// implement, or a constant pool count that overflows its counter.
    UnsupportedFeature,
}

/// Mathematical counterpart of [`ClassFormatErr`].
pub enum SpecClassFormatErr {
    Cursor(CursorError),
    WrongMagic(u32),
    TrailingBytes,
    UnknownTag(u8),
    TypeError(u16, Seq<char>, Seq<char>),
    ConstantNotFound(u16),
    UnknownStackFrameType(u8),
    UnknownAttribute(Seq<char>),
    AttributeIsNotShared(AttributeKind),
    InvalidMethodHandleKind(u8),
    UnsupportedFeature,
}

impl View for ClassFormatErr {
    type V = SpecClassFormatErr;

    open spec fn view(&self) -> SpecClassFormatErr {
        match self {
            ClassFormatErr::Cursor(e) => SpecClassFormatErr::Cursor(*e),
            ClassFormatErr::WrongMagic(v) => SpecClassFormatErr::WrongMagic(*v),
            ClassFormatErr::TrailingBytes => SpecClassFormatErr::TrailingBytes,
            ClassFormatErr::UnknownTag(t) => SpecClassFormatErr::UnknownTag(*t),
            ClassFormatErr::TypeError(i, e, a) => SpecClassFormatErr::TypeError(*i, e@, a@),
            ClassFormatErr::ConstantNotFound(i) => SpecClassFormatErr::ConstantNotFound(*i),
            ClassFormatErr::UnknownStackFrameType(t) => SpecClassFormatErr::UnknownStackFrameType(*t),
            ClassFormatErr::UnknownAttribute(s) => SpecClassFormatErr::UnknownAttribute(s@),
            ClassFormatErr::AttributeIsNotShared(k) => SpecClassFormatErr::AttributeIsNotShared(*k),
            ClassFormatErr::InvalidMethodHandleKind(k) => SpecClassFormatErr::InvalidMethodHandleKind(*k),
            ClassFormatErr::UnsupportedFeature => SpecClassFormatErr::UnsupportedFeature,
        }
    }
}

/// Errors while decoding a single bytecode instruction.
#[derive(Debug, Clone, Copy, PartialEq, Eq, Structural)]
pub enum InstructionErr {
    Cursor(CursorError),
    UnsupportedOpCode(u8),
    UnknownArrayType(u8),
    /// A `lookupswitch` with a negative number of pairs, or a `tableswitch` whose high
    /// bound lies below its low bound.
    InvalidSwitchRange,
}

/// Outcome of a failed read: either a format error, or an input whose layout
/// this reader does not handle (a constant, attribute or annotation target
/// kind that is not implemented, or a count that overflows its counter).
#[derive(Debug, Clone, PartialEq, Eq)]
pub enum ReadError {
    Format(ClassFormatErr),
    Unsupported,
}

/// Mathematical counterpart of [`ReadError`].
pub enum SpecReadError {
    Format(SpecClassFormatErr),
    Unsupported,
}

impl View for ReadError {
    type V = SpecReadError;

    open spec fn view(&self) -> SpecReadError {
        match self {
            ReadError::Format(e) => SpecReadError::Format(e@),
            ReadError::Unsupported => SpecReadError::Unsupported,
        }
    }
}

/// The error that an exhausted input produces.
pub open spec fn spec_eof() -> SpecReadError {
    SpecReadError::Format(SpecClassFormatErr::Cursor(CursorError::UnexpectedEof))
}

/// Result of a specification-level reader: the value and the position after it.
pub type SpecRead<T> = Result<(T, int), SpecReadError>;

} // verus!
