//! Structured constant pool payloads.

use crate::cursor::{push_u16, u16_be_bytes};
use crate::error::ClassFormatErr;
use vstd::prelude::*;

verus! {

/// Reference to a method, field, or interface method in the constant pool.
///
/// https://docs.oracle.com/javase/specs/jvms/se25/html/jvms-4.html#jvms-4.4.2
#[derive(Debug, Clone, Copy, PartialEq, Eq, Structural)]
pub struct Reference {
    pub class_index: u16,
    pub name_and_type_index: u16,
}

impl Reference {
    pub fn new(class_index: u16, name_and_type_index: u16) -> (r: Self)
        ensures
            r == (Reference { class_index, name_and_type_index }),
    {
        Self { class_index, name_and_type_index }
    }

    /// Appends the two indices, big-endian.
    pub fn write_to(&self, buf: &mut Vec<u8>)
        ensures
            final(buf)@ == old(buf)@ + u16_be_bytes(self.class_index) + u16_be_bytes(
                self.name_and_type_index,
            ),
    {
        push_u16(buf, self.class_index);
        push_u16(buf, self.name_and_type_index);
    }
}

/// Name and type descriptor pair in the constant pool.
///
/// https://docs.oracle.com/javase/specs/jvms/se25/html/jvms-4.html#jvms-4.4.6
#[derive(Debug, Clone, Copy, PartialEq, Eq, Structural)]
pub struct NameAndType {
    pub name_index: u16,
    pub descriptor_index: u16,
}

impl NameAndType {
    pub fn new(name_index: u16, descriptor_index: u16) -> (r: Self)
        ensures
            r == (NameAndType { name_index, descriptor_index }),
    {
        Self { name_index, descriptor_index }
    }

    /// Appends the two indices, big-endian.
    pub fn write_to(&self, buf: &mut Vec<u8>)
        ensures
            final(buf)@ == old(buf)@ + u16_be_bytes(self.name_index) + u16_be_bytes(
                self.descriptor_index,
            ),
    {
        push_u16(buf, self.name_index);
        push_u16(buf, self.descriptor_index);
    }
}

/// Dynamic constant or invoke dynamic info.
///
/// https://docs.oracle.com/javase/specs/jvms/se25/html/jvms-4.html#jvms-4.4.10
#[derive(Debug, Clone, Copy, PartialEq, Eq, Structural)]
pub struct Dynamic {
    pub bootstrap_method_attr_index: u16,
    pub name_and_type_index: u16,
}

impl Dynamic {
    pub fn new(bootstrap_method_attr_index: u16, name_and_type_index: u16) -> (r: Self)
        ensures
            r == (Dynamic { bootstrap_method_attr_index, name_and_type_index }),
    {
        Self { bootstrap_method_attr_index, name_and_type_index }
    }
}

/// Method handle reference in the constant pool.
///
/// https://docs.oracle.com/javase/specs/jvms/se25/html/jvms-4.html#jvms-4.4.8
#[derive(Debug, Clone, Copy, PartialEq, Eq, Structural)]
pub struct MethodHandle {
    pub reference_kind: u8,
    pub reference_index: u16,
}

impl MethodHandle {
    pub fn new(reference_kind: u8, reference_index: u16) -> (r: Self)
        ensures
            r == (MethodHandle { reference_kind, reference_index }),
    {
        Self { reference_kind, reference_index }
    }

    /// The kind of the handle, or `InvalidMethodHandleKind` for a byte outside 1..=9.
    pub fn get_kind(&self) -> (r: Result<MethodHandleKind, ClassFormatErr>)
        ensures
            match spec_handle_kind_from_tag(self.reference_kind) {
                Some(k) => r == Ok::<MethodHandleKind, ClassFormatErr>(k),
                None => r == Err::<MethodHandleKind, ClassFormatErr>(
                    ClassFormatErr::InvalidMethodHandleKind(self.reference_kind),
                ),
            },
    {
        match MethodHandleKind::from_tag(self.reference_kind) {
            Some(k) => Ok(k),
            None => Err(ClassFormatErr::InvalidMethodHandleKind(self.reference_kind)),
        }
    }
}

/// Kind of method handle reference.
///
/// https://docs.oracle.com/javase/specs/jvms/se25/html/jvms-4.html#jvms-4.4.8
#[derive(Debug, Clone, Copy, PartialEq, Eq, Structural)]
pub enum MethodHandleKind {
    GetField,
    GetStatic,
    PutField,
    PutStatic,
    InvokeVirtual,
    InvokeStatic,
    InvokeSpecial,
    NewInvokeSpecial,
    InvokeInterface,
}

/// The byte that encodes each [`MethodHandleKind`].
pub open spec fn spec_handle_kind_tag(k: MethodHandleKind) -> u8 {
    match k {
        MethodHandleKind::GetField => 1,
        MethodHandleKind::GetStatic => 2,
        MethodHandleKind::PutField => 3,
        MethodHandleKind::PutStatic => 4,
        MethodHandleKind::InvokeVirtual => 5,
        MethodHandleKind::InvokeStatic => 6,
        MethodHandleKind::InvokeSpecial => 7,
        MethodHandleKind::NewInvokeSpecial => 8,
        MethodHandleKind::InvokeInterface => 9,
    }
}

/// The [`MethodHandleKind`] that a byte encodes, if any.
pub open spec fn spec_handle_kind_from_tag(b: u8) -> Option<MethodHandleKind> {
    match b {
        1 => Some(MethodHandleKind::GetField),
        2 => Some(MethodHandleKind::GetStatic),
        3 => Some(MethodHandleKind::PutField),
        4 => Some(MethodHandleKind::PutStatic),
        5 => Some(MethodHandleKind::InvokeVirtual),
        6 => Some(MethodHandleKind::InvokeStatic),
        7 => Some(MethodHandleKind::InvokeSpecial),
        8 => Some(MethodHandleKind::NewInvokeSpecial),
        9 => Some(MethodHandleKind::InvokeInterface),
        _ => None,
    }
}

pub open spec fn spec_handle_kind_name(k: MethodHandleKind) -> Seq<char> {
    match k {
        MethodHandleKind::GetField => "REF_getField"@,
        MethodHandleKind::GetStatic => "REF_getStatic"@,
        MethodHandleKind::PutField => "REF_putField"@,
        MethodHandleKind::PutStatic => "REF_putStatic"@,
        MethodHandleKind::InvokeVirtual => "REF_invokeVirtual"@,
        MethodHandleKind::InvokeStatic => "REF_invokeStatic"@,
        MethodHandleKind::InvokeSpecial => "REF_invokeSpecial"@,
        MethodHandleKind::NewInvokeSpecial => "REF_newInvokeSpecial"@,
        MethodHandleKind::InvokeInterface => "REF_invokeInterface"@,
    }
}

impl MethodHandleKind {
    /// The byte that encodes this value.
    pub fn tag(&self) -> (b: u8)
        ensures
            b == spec_handle_kind_tag(*self),
    {
        match self {
            MethodHandleKind::GetField => 1,
            MethodHandleKind::GetStatic => 2,
            MethodHandleKind::PutField => 3,
            MethodHandleKind::PutStatic => 4,
            MethodHandleKind::InvokeVirtual => 5,
            MethodHandleKind::InvokeStatic => 6,
            MethodHandleKind::InvokeSpecial => 7,
            MethodHandleKind::NewInvokeSpecial => 8,
            MethodHandleKind::InvokeInterface => 9,
        }
    }

    /// The value that `b` encodes, or `None` for a byte that encodes none.
    pub fn from_tag(b: u8) -> (k: Option<MethodHandleKind>)
        ensures
            k == spec_handle_kind_from_tag(b),
    {
        match b {
            1 => Some(MethodHandleKind::GetField),
            2 => Some(MethodHandleKind::GetStatic),
            3 => Some(MethodHandleKind::PutField),
            4 => Some(MethodHandleKind::PutStatic),
            5 => Some(MethodHandleKind::InvokeVirtual),
            6 => Some(MethodHandleKind::InvokeStatic),
            7 => Some(MethodHandleKind::InvokeSpecial),
            8 => Some(MethodHandleKind::NewInvokeSpecial),
            9 => Some(MethodHandleKind::InvokeInterface),
            _ => None,
        }
    }

    pub fn javap_name(&self) -> (s: &'static str)
        ensures
            s@ == spec_handle_kind_name(*self),
    {
        match self {
            MethodHandleKind::GetField => "REF_getField",
            MethodHandleKind::GetStatic => "REF_getStatic",
            MethodHandleKind::PutField => "REF_putField",
            MethodHandleKind::PutStatic => "REF_putStatic",
            MethodHandleKind::InvokeVirtual => "REF_invokeVirtual",
            MethodHandleKind::InvokeStatic => "REF_invokeStatic",
            MethodHandleKind::InvokeSpecial => "REF_invokeSpecial",
            MethodHandleKind::NewInvokeSpecial => "REF_newInvokeSpecial",
            MethodHandleKind::InvokeInterface => "REF_invokeInterface",
        }
    }
}

/// Encoding a [`MethodHandleKind`] as its byte and decoding the byte gives it back,
/// and every byte that decodes to a value is that value's encoding.
pub proof fn lemma_handle_kind_tag_roundtrip(k: MethodHandleKind, b: u8)
    ensures
        spec_handle_kind_from_tag(spec_handle_kind_tag(k)) == Some(k),
        spec_handle_kind_from_tag(b) == Some(k) ==> spec_handle_kind_tag(k) == b,
{
}

impl MethodHandleKind {
    /// The javap name of the kind, such as `REF_invokeStatic`.
    pub fn get_javap_value(&self) -> (r: Result<&'static str, ClassFormatErr>)
        ensures
            r matches Ok(s) && s@ == spec_handle_kind_name(*self),
    {
        Ok(self.javap_name())
    }

    /// The name of the kind in the pretty listing; the same as the javap name.
    pub fn get_pretty_value(&self) -> (r: Result<&'static str, ClassFormatErr>)
        ensures
            r matches Ok(s) && s@ == spec_handle_kind_name(*self),
    {
        Ok(self.javap_name())
    }
}

} // verus!

verus! {

impl View for Reference {
    type V = Reference;

    open spec fn view(&self) -> Reference {
        *self
    }
}

impl View for NameAndType {
    type V = NameAndType;

    open spec fn view(&self) -> NameAndType {
        *self
    }
}

impl View for Dynamic {
    type V = Dynamic;

    open spec fn view(&self) -> Dynamic {
        *self
    }
}

impl View for MethodHandle {
    type V = MethodHandle;

    open spec fn view(&self) -> MethodHandle {
        *self
    }
}

} // verus!
