//! The constant pool and its typed lookups.

use crate::constant_pool::entry::{ConstantEntry, SpecConstantEntry, spec_entry_kind};
use crate::constant_pool::kind::{ConstantKind, spec_constant_kind_name};
use crate::constant_pool::types::{Dynamic, NameAndType, Reference};
use crate::error::{ClassFormatErr, SpecClassFormatErr};
use crate::text::{escape_debug, quoted, replace_char, spec_escape_debug, spec_quoted, spec_replace_char};
use vstd::prelude::*;

verus! {

/// The constant pool of a class file. Index 0 and the slot after each
/// `Long` and `Double` hold `Unused`.
///
/// https://docs.oracle.com/javase/specs/jvms/se25/html/jvms-4.html#jvms-4.4
#[derive(Debug, Clone, PartialEq)]
pub struct ConstantPool {
    pub inner: Vec<ConstantEntry>,
}

/// The views of a sequence of entries.
pub open spec fn spec_entries(v: Seq<ConstantEntry>) -> Seq<SpecConstantEntry> {
    v.map_values(|e: ConstantEntry| e@)
}

impl View for ConstantPool {
    type V = Seq<SpecConstantEntry>;

    open spec fn view(&self) -> Seq<SpecConstantEntry> {
        spec_entries(self.inner@)
    }
}

/// `r` is the executable form of the lookup result `s`.
pub open spec fn lookup_matches<T: View>(
    r: Result<T, ClassFormatErr>,
    s: Result<T::V, SpecClassFormatErr>,
) -> bool {
    match s {
        Ok(v) => r matches Ok(x) && x@ == v,
        Err(e) => r matches Err(x) && x@ == e,
    }
}

/// The entry at `idx`, or `ConstantNotFound`.
pub open spec fn spec_get_raw(pool: Seq<SpecConstantEntry>, idx: u16) -> Result<
    SpecConstantEntry,
    SpecClassFormatErr,
> {
    if (idx as int) < pool.len() {
        Ok(pool[idx as int])
    } else {
        Err(SpecClassFormatErr::ConstantNotFound(idx))
    }
}

/// The error for finding an entry of the wrong kind at `idx`.
pub open spec fn type_error(idx: u16, expected: ConstantKind, e: SpecConstantEntry) -> SpecClassFormatErr {
    SpecClassFormatErr::TypeError(idx, spec_constant_kind_name(expected), spec_constant_kind_name(spec_entry_kind(e)))
}

/// The error for finding `e` at `idx` where an entry of kind `expected` was asked for.
fn type_error_of(idx: u16, expected: ConstantKind, e: &ConstantEntry) -> (r: ClassFormatErr)
    ensures
        r@ == type_error(idx, expected, e@),
{
    ClassFormatErr::TypeError(idx, expected.as_str().to_string(), e.get_kind().as_str().to_string())
}

pub open spec fn spec_get_utf8(pool: Seq<SpecConstantEntry>, idx: u16) -> Result<
    Seq<char>,
    SpecClassFormatErr,
> {
    match spec_get_raw(pool, idx) {
        Err(e) => Err(e),
        Ok(SpecConstantEntry::Utf8(s)) => Ok(s),
        Ok(e) => Err(type_error(idx, ConstantKind::Utf8, e)),
    }
}

pub open spec fn spec_get_class(pool: Seq<SpecConstantEntry>, idx: u16) -> Result<u16, SpecClassFormatErr> {
    match spec_get_raw(pool, idx) {
        Err(e) => Err(e),
        Ok(SpecConstantEntry::Class(n)) => Ok(n),
        Ok(e) => Err(type_error(idx, ConstantKind::Class, e)),
    }
}

pub open spec fn spec_get_class_name(pool: Seq<SpecConstantEntry>, idx: u16) -> Result<
    Seq<char>,
    SpecClassFormatErr,
> {
    match spec_get_class(pool, idx) {
        Err(e) => Err(e),
        Ok(n) => spec_get_utf8(pool, n),
    }
}

pub open spec fn spec_get_integer(pool: Seq<SpecConstantEntry>, idx: u16) -> Result<i32, SpecClassFormatErr> {
    match spec_get_raw(pool, idx) {
        Err(e) => Err(e),
        Ok(SpecConstantEntry::Integer(v)) => Ok(v),
        Ok(e) => Err(type_error(idx, ConstantKind::Integer, e)),
    }
}

/// A `Methodref` or `InterfaceMethodref` at `idx`.
pub open spec fn spec_get_methodref(pool: Seq<SpecConstantEntry>, idx: u16) -> Result<
    Reference,
    SpecClassFormatErr,
> {
    match spec_get_raw(pool, idx) {
        Err(e) => Err(e),
        Ok(SpecConstantEntry::MethodRef(r)) => Ok(r),
        Ok(SpecConstantEntry::InterfaceMethodRef(r)) => Ok(r),
        Ok(e) => Err(type_error(idx, ConstantKind::MethodRef, e)),
    }
}

pub open spec fn spec_get_name_and_type(pool: Seq<SpecConstantEntry>, idx: u16) -> Result<
    NameAndType,
    SpecClassFormatErr,
> {
    match spec_get_raw(pool, idx) {
        Err(e) => Err(e),
        Ok(SpecConstantEntry::NameAndType(n)) => Ok(n),
        Ok(e) => Err(type_error(idx, ConstantKind::NameAndType, e)),
    }
}

/// The name of the `NameAndType` at `nat_idx`.
pub open spec fn spec_nat_name_at(pool: Seq<SpecConstantEntry>, nat_idx: u16) -> Result<
    Seq<char>,
    SpecClassFormatErr,
> {
    match spec_get_name_and_type(pool, nat_idx) {
        Err(e) => Err(e),
        Ok(name_and_type) => spec_get_utf8(pool, name_and_type.name_index),
    }
}

/// The descriptor of the `NameAndType` at `nat_idx`.
pub open spec fn spec_nat_descriptor_at(pool: Seq<SpecConstantEntry>, nat_idx: u16) -> Result<
    Seq<char>,
    SpecClassFormatErr,
> {
    match spec_get_name_and_type(pool, nat_idx) {
        Err(e) => Err(e),
        Ok(name_and_type) => spec_get_utf8(pool, name_and_type.descriptor_index),
    }
}

/// A class name as javap shows it: `/` becomes `.`.
pub open spec fn spec_get_javap_class_name(pool: Seq<SpecConstantEntry>, idx: u16) -> Result<
    Seq<char>,
    SpecClassFormatErr,
> {
    match spec_get_class_name(pool, idx) {
        Err(e) => Err(e),
        Ok(s) => Ok(spec_replace_char(s, '/', '.')),
    }
}

/// The UTF-8 entry at `idx`, quoted when it names an array type (starts with `[`).
pub open spec fn spec_get_javap_class_name_utf8(pool: Seq<SpecConstantEntry>, idx: u16) -> Result<
    Seq<char>,
    SpecClassFormatErr,
> {
    match spec_get_utf8(pool, idx) {
        Err(e) => Err(e),
        Ok(s) => Ok(
            if s.len() > 0 && s[0] == '[' {
                spec_quoted(s)
            } else {
                s
            },
        ),
    }
}

pub open spec fn spec_get_javap_class_name_for_cp_print(
    pool: Seq<SpecConstantEntry>,
    idx: u16,
) -> Result<Seq<char>, SpecClassFormatErr> {
    match spec_get_class(pool, idx) {
        Err(e) => Err(e),
        Ok(n) => spec_get_javap_class_name_utf8(pool, n),
    }
}

impl ConstantPool {
    pub fn get_raw(&self, idx: &u16) -> (r: Result<&ConstantEntry, ClassFormatErr>)
        ensures
            lookup_matches(r, spec_get_raw(self@, *idx)),
    {
        let i = *idx as usize;
        if i < self.inner.len() {
            Ok(&self.inner[i])
        } else {
            Err(ClassFormatErr::ConstantNotFound(*idx))
        }
    }

    pub fn get_utf8(&self, idx: &u16) -> (r: Result<&str, ClassFormatErr>)
        ensures
            lookup_matches(r, spec_get_utf8(self@, *idx)),
    {
        match self.get_raw(idx) {
            Err(e) => Err(e),
            Ok(ConstantEntry::Utf8(value)) => Ok(value.as_str()),
            Ok(e) => Err(type_error_of(*idx, ConstantKind::Utf8, e)),
        }
    }

    pub fn get_class(&self, idx: &u16) -> (r: Result<u16, ClassFormatErr>)
        ensures
            lookup_matches(r, spec_get_class(self@, *idx)),
    {
        match self.get_raw(idx) {
            Err(e) => Err(e),
            Ok(ConstantEntry::Class(name_index)) => Ok(*name_index),
            Ok(e) => Err(type_error_of(*idx, ConstantKind::Class, e)),
        }
    }

    pub fn get_class_name(&self, idx: &u16) -> (r: Result<&str, ClassFormatErr>)
        ensures
            lookup_matches(r, spec_get_class_name(self@, *idx)),
    {
        let name_index = match self.get_class(idx) {
            Ok(n) => n,
            Err(e) => return Err(e),
        };
        self.get_utf8(&name_index)
    }

    pub fn get_integer(&self, idx: &u16) -> (r: Result<&i32, ClassFormatErr>)
        ensures
            lookup_matches(r, spec_get_integer(self@, *idx)),
    {
        match self.get_raw(idx) {
            Err(e) => Err(e),
            Ok(ConstantEntry::Integer(value)) => Ok(value),
            Ok(e) => Err(type_error_of(*idx, ConstantKind::Integer, e)),
        }
    }

    pub fn get_methodref(&self, idx: &u16) -> (r: Result<&Reference, ClassFormatErr>)
        ensures
            lookup_matches(r, spec_get_methodref(self@, *idx)),
    {
        match self.get_raw(idx) {
            Err(e) => Err(e),
            Ok(ConstantEntry::MethodRef(ref_info)) => Ok(ref_info),
            Ok(ConstantEntry::InterfaceMethodRef(ref_info)) => Ok(ref_info),
            Ok(e) => Err(type_error_of(*idx, ConstantKind::MethodRef, e)),
        }
    }

    pub fn get_name_and_type(&self, idx: &u16) -> (r: Result<&NameAndType, ClassFormatErr>)
        ensures
            lookup_matches(r, spec_get_name_and_type(self@, *idx)),
    {
        match self.get_raw(idx) {
            Err(e) => Err(e),
            Ok(ConstantEntry::NameAndType(name_and_type)) => Ok(name_and_type),
            Ok(e) => Err(type_error_of(*idx, ConstantKind::NameAndType, e)),
        }
    }

    pub fn get_nat_name(&self, name_and_type: &NameAndType) -> (r: Result<&str, ClassFormatErr>)
        ensures
            lookup_matches(r, spec_get_utf8(self@, name_and_type.name_index)),
    {
        self.get_utf8(&name_and_type.name_index)
    }

    pub fn get_nat_descriptor(&self, name_and_type: &NameAndType) -> (r: Result<&str, ClassFormatErr>)
        ensures
            lookup_matches(r, spec_get_utf8(self@, name_and_type.descriptor_index)),
    {
        self.get_utf8(&name_and_type.descriptor_index)
    }

    pub fn get_dyn_info_name(&self, dyn_info: &Dynamic) -> (r: Result<&str, ClassFormatErr>)
        ensures
            lookup_matches(r, spec_nat_name_at(self@, dyn_info.name_and_type_index)),
    {
        let name_and_type = match self.get_name_and_type(&dyn_info.name_and_type_index) {
            Ok(n) => n,
            Err(e) => return Err(e),
        };
        self.get_nat_name(name_and_type)
    }

    pub fn get_dyn_info_descriptor(&self, dyn_info: &Dynamic) -> (r: Result<&str, ClassFormatErr>)
        ensures
            lookup_matches(r, spec_nat_descriptor_at(self@, dyn_info.name_and_type_index)),
    {
        let name_and_type = match self.get_name_and_type(&dyn_info.name_and_type_index) {
            Ok(n) => n,
            Err(e) => return Err(e),
        };
        self.get_nat_descriptor(name_and_type)
    }

    pub fn get_method_or_field_name(&self, method_ref: &Reference) -> (r: Result<&str, ClassFormatErr>)
        ensures
            lookup_matches(r, spec_nat_name_at(self@, method_ref.name_and_type_index)),
    {
        self.get_method_or_field_name_by_nat_idx(&method_ref.name_and_type_index)
    }

    pub fn get_method_or_field_name_by_nat_idx(&self, nat_index: &u16) -> (r: Result<&str, ClassFormatErr>)
        ensures
            lookup_matches(r, spec_nat_name_at(self@, *nat_index)),
    {
        let name_and_type = match self.get_name_and_type(nat_index) {
            Ok(n) => n,
            Err(e) => return Err(e),
        };
        self.get_nat_name(name_and_type)
    }

    pub fn get_method_or_field_descriptor(&self, ref_info: &Reference) -> (r: Result<&str, ClassFormatErr>)
        ensures
            lookup_matches(r, spec_nat_descriptor_at(self@, ref_info.name_and_type_index)),
    {
        let name_and_type = match self.get_name_and_type(&ref_info.name_and_type_index) {
            Ok(n) => n,
            Err(e) => return Err(e),
        };
        self.get_nat_descriptor(name_and_type)
    }

    /// The UTF-8 entry at `idx` with quotes, backslashes and control characters escaped.
    pub fn get_printable_utf8(&self, idx: &u16) -> (r: Result<String, ClassFormatErr>)
        ensures
            lookup_matches(
                r,
                match spec_get_utf8(self@, *idx) {
                    Ok(s) => Ok(spec_escape_debug(s)),
                    Err(e) => Err(e),
                },
            ),
    {
        match self.get_utf8(idx) {
            Ok(raw) => Ok(escape_debug(raw)),
            Err(e) => Err(e),
        }
    }

    pub fn get_javap_class_name(&self, idx: &u16) -> (r: Result<String, ClassFormatErr>)
        ensures
            lookup_matches(r, spec_get_javap_class_name(self@, *idx)),
    {
        match self.get_class_name(idx) {
            Ok(raw) => Ok(replace_char(raw, '/', '.')),
            Err(e) => Err(e),
        }
    }

    pub fn get_javap_class_name_utf8(&self, idx: &u16) -> (r: Result<String, ClassFormatErr>)
        ensures
            lookup_matches(r, spec_get_javap_class_name_utf8(self@, *idx)),
    {
        match self.get_utf8(idx) {
            Ok(raw) => {
                if raw.unicode_len() > 0 && raw.get_char(0) == '[' {
                    Ok(quoted(raw))
                } else {
                    Ok(raw.to_string())
                }
            },
            Err(e) => Err(e),
        }
    }

    pub fn get_javap_class_name_for_cp_print(&self, idx: &u16) -> (r: Result<String, ClassFormatErr>)
        ensures
            lookup_matches(r, spec_get_javap_class_name_for_cp_print(self@, *idx)),
    {
        let name_index = match self.get_class(idx) {
            Ok(n) => n,
            Err(e) => return Err(e),
        };
        self.get_javap_class_name_utf8(&name_index)
    }

    pub fn get_method_or_field_class_name(&self, method_ref: &Reference) -> (r: Result<String, ClassFormatErr>)
        ensures
            lookup_matches(r, spec_get_javap_class_name_for_cp_print(self@, method_ref.class_index)),
    {
        self.get_javap_class_name_for_cp_print(&method_ref.class_index)
    }
}

} // verus!
