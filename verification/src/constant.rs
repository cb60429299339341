//! Alternative names of the constant pool types, and the text of an entry in a code
//! listing's comments.

use crate::constant_pool::pool::{spec_get_javap_class_name_for_cp_print, spec_get_methodref, spec_nat_descriptor_at, spec_nat_name_at};
use crate::constant_pool::types::{spec_handle_kind_from_tag, spec_handle_kind_name};
use crate::constant_pool::{ConstantEntry, ConstantKind, ConstantPool, Dynamic, MethodHandle, NameAndType, Reference, SpecConstantEntry};
use crate::error::{ClassFormatErr, SpecClassFormatErr};
use crate::javap_fmt::constant_pool::{spec_has_javap_text, spec_javap_type_and_value};
use crate::javap_fmt::lines::{SpecText, text_is};
use crate::text::{push_decimal, spec_decimal};
use vstd::prelude::*;

pub use crate::constant_pool::MethodHandleKind;

verus! {

/// Constant pool tags; see [`ConstantKind`].
pub type ConstantTag = ConstantKind;

/// A constant pool entry; see [`ConstantEntry`].
pub type ConstantInfo = ConstantEntry;

/// A field or method reference; see [`Reference`].
pub type ReferenceInfo = Reference;

/// A name and type pair; see [`NameAndType`].
pub type NameAndTypeInfo = NameAndType;

/// A dynamic constant; see [`Dynamic`].
pub type DynamicInfo = Dynamic;

/// A method handle; see [`MethodHandle`].
pub type MethodHandleInfo = MethodHandle;

/// The kind and value of an entry in a code listing's comment, `this` being the class
/// being shown: as in [`spec_javap_type_and_value`], but a method handle shows its
/// method's name as it stands, `<init>` unquoted.
pub open spec fn spec_pretty_type_and_value(cp: Seq<SpecConstantEntry>, e: SpecConstantEntry, this: u16) -> SpecText {
    match e {
        SpecConstantEntry::MethodHandle(h) => match spec_handle_kind_from_tag(h.reference_kind) {
            None => Err(SpecClassFormatErr::InvalidMethodHandleKind(h.reference_kind)),
            Some(kind) => match spec_get_methodref(cp, h.reference_index) {
                Err(e) => Err(e),
                Ok(m) => match spec_get_javap_class_name_for_cp_print(cp, m.class_index) {
                    Err(e) => Err(e),
                    Ok(class) => match spec_nat_name_at(cp, m.name_and_type_index) {
                        Err(e) => Err(e),
                        Ok(name) => match spec_nat_descriptor_at(cp, m.name_and_type_index) {
                            Err(e) => Err(e),
                            Ok(desc) => Ok(spec_handle_kind_name(kind) + " "@ + class + "."@ + name + ":"@ + desc),
                        },
                    },
                },
            },
        },
        e => spec_javap_type_and_value(cp, e, this),
    }
}

/// The value of an entry in a code listing's comment: an integer alone, any other entry
/// with its kind.
pub open spec fn spec_pretty_value(cp: Seq<SpecConstantEntry>, e: SpecConstantEntry, this: u16) -> SpecText {
    match e {
        SpecConstantEntry::Integer(i) => Ok(spec_decimal(i as int)),
        e => spec_pretty_type_and_value(cp, e, this),
    }
}

impl ConstantEntry {
    /// The kind and value of this entry in a code listing's comment, `this` being the
    /// class being shown. Floating-point entries are shown elsewhere.
    pub fn get_pretty_type_and_value(&self, cp: &ConstantPool, this_class_name: &u16) -> (r: Result<String, ClassFormatErr>)
        requires
            spec_has_javap_text(self@),
        ensures
            text_is(r, spec_pretty_type_and_value(cp@, self@, *this_class_name)),
    {
        match self {
            ConstantEntry::MethodHandle(handle_info) => {
                let handle_kind = handle_info.get_kind()?;
                let method_ref = cp.get_methodref(&handle_info.reference_index)?;
                let class = cp.get_method_or_field_class_name(method_ref)?;
                let name = cp.get_method_or_field_name(method_ref)?;
                let desc = cp.get_method_or_field_descriptor(method_ref)?;
                let mut out = handle_kind.get_pretty_value()?.to_string();
                out.append(" ");
                out.append(class.as_str());
                out.append(".");
                out.append(name);
                out.append(":");
                out.append(desc);
                Ok(out)
            },
            _ => self.get_javap_type_and_value(cp, this_class_name),
        }
    }

    /// The value of this entry in a code listing's comment: an integer alone, any other
    /// entry with its kind.
    pub fn get_pretty_value(&self, cp: &ConstantPool, this_class_name: &u16) -> (r: Result<String, ClassFormatErr>)
        requires
            spec_has_javap_text(self@),
        ensures
            text_is(r, spec_pretty_value(cp@, self@, *this_class_name)),
    {
        match self {
            ConstantEntry::Integer(i) => {
                let mut out = String::new();
                push_decimal(&mut out, *i as i64);
                assert(out@ =~= spec_decimal(*i as int));
                Ok(out)
            },
            _ => self.get_pretty_type_and_value(cp, this_class_name),
        }
    }
}


/// Outside method handles, a code listing shows an entry as the constant pool listing
/// does, and its value is that text too, but for an integer, which shows its decimal
/// value alone.
pub proof fn lemma_pretty_text_is_listing_text(cp: Seq<SpecConstantEntry>, e: SpecConstantEntry, this: u16)
    ensures
        !(e is MethodHandle) ==> spec_pretty_type_and_value(cp, e, this) == spec_javap_type_and_value(cp, e, this),
        e matches SpecConstantEntry::Integer(i) ==> spec_pretty_value(cp, e, this) == Ok::<Seq<char>, SpecClassFormatErr>(
            spec_decimal(i as int),
        ),
        !(e is Integer) ==> spec_pretty_value(cp, e, this) == spec_pretty_type_and_value(cp, e, this),
{
}

} // verus!
