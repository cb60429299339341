//! Constant pool tags.

use vstd::prelude::*;

verus! {

/// Tag identifying the type of a constant pool entry.
///
/// https://docs.oracle.com/javase/specs/jvms/se25/html/jvms-4.html#jvms-4.4-210
/// Table 4.4-B. Constant pool tags (by tag)
#[derive(Debug, Clone, Copy, PartialEq, Eq, Structural)]
pub enum ConstantKind {
    Unused,
    Utf8,
    Integer,
    Float,
    Long,
    Double,
    Class,
    String,
    FieldRef,
    MethodRef,
    InterfaceMethodRef,
    NameAndType,
    MethodHandle,
    MethodType,
    Dynamic,
    InvokeDynamic,
    Module,
    Package,
}

/// The byte that encodes each [`ConstantKind`].
pub open spec fn spec_constant_kind_tag(k: ConstantKind) -> u8 {
    match k {
        ConstantKind::Unused => 0,
        ConstantKind::Utf8 => 1,
        ConstantKind::Integer => 3,
        ConstantKind::Float => 4,
        ConstantKind::Long => 5,
        ConstantKind::Double => 6,
        ConstantKind::Class => 7,
        ConstantKind::String => 8,
        ConstantKind::FieldRef => 9,
        ConstantKind::MethodRef => 10,
        ConstantKind::InterfaceMethodRef => 11,
        ConstantKind::NameAndType => 12,
        ConstantKind::MethodHandle => 15,
        ConstantKind::MethodType => 16,
        ConstantKind::Dynamic => 17,
        ConstantKind::InvokeDynamic => 18,
        ConstantKind::Module => 19,
        ConstantKind::Package => 20,
    }
}

/// The [`ConstantKind`] that a byte encodes, if any.
pub open spec fn spec_constant_kind_from_tag(b: u8) -> Option<ConstantKind> {
    match b {
        0 => Some(ConstantKind::Unused),
        1 => Some(ConstantKind::Utf8),
        3 => Some(ConstantKind::Integer),
        4 => Some(ConstantKind::Float),
        5 => Some(ConstantKind::Long),
        6 => Some(ConstantKind::Double),
        7 => Some(ConstantKind::Class),
        8 => Some(ConstantKind::String),
        9 => Some(ConstantKind::FieldRef),
        10 => Some(ConstantKind::MethodRef),
        11 => Some(ConstantKind::InterfaceMethodRef),
        12 => Some(ConstantKind::NameAndType),
        15 => Some(ConstantKind::MethodHandle),
        16 => Some(ConstantKind::MethodType),
        17 => Some(ConstantKind::Dynamic),
        18 => Some(ConstantKind::InvokeDynamic),
        19 => Some(ConstantKind::Module),
        20 => Some(ConstantKind::Package),
        _ => None,
    }
}

pub open spec fn spec_constant_kind_name(k: ConstantKind) -> Seq<char> {
    match k {
        ConstantKind::Unused => "Unused"@,
        ConstantKind::Utf8 => "Utf8"@,
        ConstantKind::Integer => "Integer"@,
        ConstantKind::Float => "Float"@,
        ConstantKind::Long => "Long"@,
        ConstantKind::Double => "Double"@,
        ConstantKind::Class => "Class"@,
        ConstantKind::String => "String"@,
        ConstantKind::FieldRef => "Fieldref"@,
        ConstantKind::MethodRef => "Methodref"@,
        ConstantKind::InterfaceMethodRef => "InterfaceMethodref"@,
        ConstantKind::NameAndType => "NameAndType"@,
        ConstantKind::MethodHandle => "MethodHandle"@,
        ConstantKind::MethodType => "MethodType"@,
        ConstantKind::Dynamic => "Dynamic"@,
        ConstantKind::InvokeDynamic => "InvokeDynamic"@,
        ConstantKind::Module => "Module"@,
        ConstantKind::Package => "Package"@,
    }
}

impl ConstantKind {
    /// The byte that encodes this value.
    pub fn tag(&self) -> (b: u8)
        ensures
            b == spec_constant_kind_tag(*self),
    {
        match self {
            ConstantKind::Unused => 0,
            ConstantKind::Utf8 => 1,
            ConstantKind::Integer => 3,
            ConstantKind::Float => 4,
            ConstantKind::Long => 5,
            ConstantKind::Double => 6,
            ConstantKind::Class => 7,
            ConstantKind::String => 8,
            ConstantKind::FieldRef => 9,
            ConstantKind::MethodRef => 10,
            ConstantKind::InterfaceMethodRef => 11,
            ConstantKind::NameAndType => 12,
            ConstantKind::MethodHandle => 15,
            ConstantKind::MethodType => 16,
            ConstantKind::Dynamic => 17,
            ConstantKind::InvokeDynamic => 18,
            ConstantKind::Module => 19,
            ConstantKind::Package => 20,
        }
    }

    /// The value that `b` encodes, or `None` for a byte that encodes none.
    pub fn from_tag(b: u8) -> (k: Option<ConstantKind>)
        ensures
            k == spec_constant_kind_from_tag(b),
    {
        match b {
            0 => Some(ConstantKind::Unused),
            1 => Some(ConstantKind::Utf8),
            3 => Some(ConstantKind::Integer),
            4 => Some(ConstantKind::Float),
            5 => Some(ConstantKind::Long),
            6 => Some(ConstantKind::Double),
            7 => Some(ConstantKind::Class),
            8 => Some(ConstantKind::String),
            9 => Some(ConstantKind::FieldRef),
            10 => Some(ConstantKind::MethodRef),
            11 => Some(ConstantKind::InterfaceMethodRef),
            12 => Some(ConstantKind::NameAndType),
            15 => Some(ConstantKind::MethodHandle),
            16 => Some(ConstantKind::MethodType),
            17 => Some(ConstantKind::Dynamic),
            18 => Some(ConstantKind::InvokeDynamic),
            19 => Some(ConstantKind::Module),
            20 => Some(ConstantKind::Package),
            _ => None,
        }
    }

    pub fn as_str(&self) -> (s: &'static str)
        ensures
            s@ == spec_constant_kind_name(*self),
    {
        match self {
            ConstantKind::Unused => "Unused",
            ConstantKind::Utf8 => "Utf8",
            ConstantKind::Integer => "Integer",
            ConstantKind::Float => "Float",
            ConstantKind::Long => "Long",
            ConstantKind::Double => "Double",
            ConstantKind::Class => "Class",
            ConstantKind::String => "String",
            ConstantKind::FieldRef => "Fieldref",
            ConstantKind::MethodRef => "Methodref",
            ConstantKind::InterfaceMethodRef => "InterfaceMethodref",
            ConstantKind::NameAndType => "NameAndType",
            ConstantKind::MethodHandle => "MethodHandle",
            ConstantKind::MethodType => "MethodType",
            ConstantKind::Dynamic => "Dynamic",
            ConstantKind::InvokeDynamic => "InvokeDynamic",
            ConstantKind::Module => "Module",
            ConstantKind::Package => "Package",
        }
    }
}

/// Encoding a [`ConstantKind`] as its byte and decoding the byte gives it back,
/// and every byte that decodes to a value is that value's encoding.
pub proof fn lemma_constant_kind_tag_roundtrip(k: ConstantKind, b: u8)
    ensures
        spec_constant_kind_from_tag(spec_constant_kind_tag(k)) == Some(k),
        spec_constant_kind_from_tag(b) == Some(k) ==> spec_constant_kind_tag(k) == b,
{
}

} // verus!
