//! The text that `javap -v` shows for a constant pool entry referred to from code.

use crate::attribute::kind::str_eq;
use crate::constant_pool::entry::{ConstantEntry, SpecConstantEntry};
use crate::constant_pool::pool::{
    ConstantPool, spec_get_class_name, spec_get_javap_class_name_for_cp_print, spec_get_javap_class_name_utf8,
    spec_get_methodref, spec_get_utf8, spec_nat_descriptor_at, spec_nat_name_at,
};
use crate::constant_pool::types::{Dynamic, Reference};
use crate::constant_pool::types::{spec_handle_kind_from_tag, spec_handle_kind_name};
use crate::error::{ClassFormatErr, SpecClassFormatErr};
use crate::javap_fmt::{fmt_method_name, spec_fmt_method_name};
use crate::text::{escape_debug, push_decimal, push_padded_right, spec_decimal, spec_escape_debug, spec_pad_right};
use vstd::prelude::*;

verus! {

/// The class of a member as javap shows it: nothing for the class itself, the name and a
/// dot for any other class.
pub open spec fn spec_owner_prefix(class: Seq<char>, this_name: Seq<char>) -> Seq<char> {
    if class != this_name {
        class + "."@
    } else {
        seq![]
    }
}

/// Whether javap shows an entry by itself: every kind but `Unused` and the floating-point
/// ones, whose text is made elsewhere.
pub open spec fn spec_has_javap_text(e: SpecConstantEntry) -> bool {
    !(e is Unused) && !(e is Float) && !(e is Double)
}

/// The text of a field, method or interface method reference: the kind's word, the
/// owner unless it is the class `this`, the name and the descriptor.
pub open spec fn spec_member_text(
    cp: Seq<SpecConstantEntry>,
    word: Seq<char>,
    class_index: u16,
    nat_index: u16,
    this: u16,
    quote_init: bool,
) -> Result<Seq<char>, SpecClassFormatErr> {
    match spec_get_javap_class_name_for_cp_print(cp, class_index) {
        Err(e) => Err(e),
        Ok(class) => match spec_get_class_name(cp, this) {
            Err(e) => Err(e),
            Ok(this_name) => match spec_nat_name_at(cp, nat_index) {
                Err(e) => Err(e),
                Ok(name) => match spec_nat_descriptor_at(cp, nat_index) {
                    Err(e) => Err(e),
                    Ok(desc) => Ok(
                        word + spec_owner_prefix(class, this_name) + (if quote_init {
                            spec_fmt_method_name(name)
                        } else {
                            name
                        }) + ":"@ + desc,
                    ),
                },
            },
        },
    }
}

/// The kind and value of an entry as javap shows them in a comment, `this` being the
/// class being shown.
pub open spec fn spec_javap_type_and_value(
    cp: Seq<SpecConstantEntry>,
    e: SpecConstantEntry,
    this: u16,
) -> Result<Seq<char>, SpecClassFormatErr> {
    match e {
        SpecConstantEntry::Utf8(s) => Ok("utf8 "@ + s),
        SpecConstantEntry::Integer(i) => Ok("int "@ + spec_decimal(i as int)),
        SpecConstantEntry::Long(l) => Ok("long "@ + spec_decimal(l as int) + "l"@),
        SpecConstantEntry::Class(idx) => match spec_get_javap_class_name_utf8(cp, idx) {
            Err(e) => Err(e),
            Ok(n) => Ok("class "@ + n),
        },
        SpecConstantEntry::String(idx) => match spec_get_utf8(cp, idx) {
            Err(e) => Err(e),
            Ok(s) => Ok("String "@ + spec_escape_debug(s)),
        },
        SpecConstantEntry::MethodRef(r) => match spec_nat_name_at(cp, r.name_and_type_index) {
            Err(e) => Err(e),
            Ok(_) => spec_member_text(cp, "Method "@, r.class_index, r.name_and_type_index, this, true),
        },
        SpecConstantEntry::FieldRef(r) => spec_member_text(cp, "Field "@, r.class_index, r.name_and_type_index, this, false),
        SpecConstantEntry::InterfaceMethodRef(r) => spec_member_text(
            cp,
            "InterfaceMethod "@,
            r.class_index,
            r.name_and_type_index,
            this,
            false,
        ),
        SpecConstantEntry::InvokeDynamic(d) => match spec_nat_name_at(cp, d.name_and_type_index) {
            Err(e) => Err(e),
            Ok(name) => match spec_nat_descriptor_at(cp, d.name_and_type_index) {
                Err(e) => Err(e),
                Ok(desc) => Ok(
                    "InvokeDynamic #"@ + spec_decimal(d.bootstrap_method_attr_index as int) + ":"@ + name + ":"@ + desc,
                ),
            },
        },
        SpecConstantEntry::MethodHandle(h) => match spec_handle_kind_from_tag(h.reference_kind) {
            None => Err(SpecClassFormatErr::InvalidMethodHandleKind(h.reference_kind)),
            Some(kind) => match spec_get_methodref(cp, h.reference_index) {
                Err(e) => Err(e),
                Ok(m) => match spec_nat_name_at(cp, m.name_and_type_index) {
                    Err(e) => Err(e),
                    Ok(name) => match spec_get_javap_class_name_for_cp_print(cp, m.class_index) {
                        Err(e) => Err(e),
                        Ok(class) => match spec_nat_descriptor_at(cp, m.name_and_type_index) {
                            Err(e) => Err(e),
                            Ok(desc) => Ok(
                                spec_handle_kind_name(kind) + " "@ + class + "."@ + spec_fmt_method_name(name) + ":"@ + desc,
                            ),
                        },
                    },
                },
            },
        },
        SpecConstantEntry::MethodType(idx) => spec_get_utf8(cp, idx),
        SpecConstantEntry::Dynamic(_) => Ok("Dynamic (details omitted)"@),
        _ => Ok(seq![]),
    }
}

/// The value of an entry as javap shows it in a comment: an integer or a class name alone,
/// any other entry with its kind.
pub open spec fn spec_javap_value(cp: Seq<SpecConstantEntry>, e: SpecConstantEntry, this: u16) -> Result<
    Seq<char>,
    SpecClassFormatErr,
> {
    match e {
        SpecConstantEntry::Integer(i) => Ok(spec_decimal(i as int)),
        SpecConstantEntry::Class(idx) => spec_get_javap_class_name_utf8(cp, idx),
        e => spec_javap_type_and_value(cp, e, this),
    }
}

/// `out` followed by `a`.
fn appended(out: String, a: &str) -> (r: String)
    ensures
        r@ == out@ + a@,
{
    let mut out = out;
    out.append(a);
    out
}

fn member_text(
    cp: &ConstantPool,
    word: &str,
    class_index: u16,
    nat_index: u16,
    this: u16,
    quote_init: bool,
) -> (r: Result<String, ClassFormatErr>)
    ensures
        match spec_member_text(cp@, word@, class_index, nat_index, this, quote_init) {
            Ok(s) => r matches Ok(x) && x@ == s,
            Err(e) => r matches Err(x) && x@ == e,
        },
{
    let class = cp.get_javap_class_name_for_cp_print(&class_index)?;
    let this_name = cp.get_class_name(&this)?;
    let name = cp.get_method_or_field_name_by_nat_idx(&nat_index)?;
    let desc = match cp.get_name_and_type(&nat_index) {
        Ok(n) => cp.get_nat_descriptor(n)?,
        Err(e) => return Err(e),
    };
    let mut out = word.to_string();
    if !str_eq(class.as_str(), this_name) {
        out.append(class.as_str());
        out.append(".");
    }
    let shown = if quote_init {
        fmt_method_name(name)
    } else {
        name.to_string()
    };
    out.append(shown.as_str());
    out.append(":");
    out.append(desc);
    assert(out@ =~= spec_member_text(cp@, word@, class_index, nat_index, this, quote_init)->Ok_0);
    Ok(out)
}

impl ConstantEntry {
    /// The kind and value of this entry as javap shows them in a comment, `this` being
    /// the class being shown. Floating-point entries are shown elsewhere.
    pub fn get_javap_type_and_value(&self, cp: &ConstantPool, this_class_name: &u16) -> (r: Result<
        String,
        ClassFormatErr,
    >)
        requires
            spec_has_javap_text(self@),
        ensures
            match spec_javap_type_and_value(cp@, self@, *this_class_name) {
                Ok(s) => r matches Ok(x) && x@ == s,
                Err(e) => r matches Err(x) && x@ == e,
            },
    {
        let this = *this_class_name;
        match self {
            ConstantEntry::Utf8(s) => Ok(appended("utf8 ".to_string(), s.as_str())),
            ConstantEntry::Integer(i) => {
                let mut out = "int ".to_string();
                push_decimal(&mut out, *i as i64);
                Ok(out)
            },
            ConstantEntry::Long(l) => {
                let mut out = "long ".to_string();
                push_decimal(&mut out, *l);
                out.append("l");
                Ok(out)
            },
            ConstantEntry::Class(index) => {
                let n = cp.get_javap_class_name_utf8(index)?;
                Ok(appended("class ".to_string(), n.as_str()))
            },
            ConstantEntry::String(index) => {
                let s = cp.get_printable_utf8(index)?;
                Ok(appended("String ".to_string(), s.as_str()))
            },
            ConstantEntry::MethodRef(ref_info) => {
                let _name = cp.get_method_or_field_name(ref_info)?;
                member_text(cp, "Method ", ref_info.class_index, ref_info.name_and_type_index, this, true)
            },
            ConstantEntry::FieldRef(ref_info) => member_text(
                cp,
                "Field ",
                ref_info.class_index,
                ref_info.name_and_type_index,
                this,
                false,
            ),
            ConstantEntry::InterfaceMethodRef(ref_info) => member_text(
                cp,
                "InterfaceMethod ",
                ref_info.class_index,
                ref_info.name_and_type_index,
                this,
                false,
            ),
            ConstantEntry::InvokeDynamic(dyn_info) => {
                let name = cp.get_dyn_info_name(dyn_info)?;
                let desc = cp.get_dyn_info_descriptor(dyn_info)?;
                let mut out = "InvokeDynamic #".to_string();
                push_decimal(&mut out, dyn_info.bootstrap_method_attr_index as i64);
                out.append(":");
                out.append(name);
                out.append(":");
                out.append(desc);
                Ok(out)
            },
            ConstantEntry::MethodHandle(handle_info) => {
                let handle_kind = handle_info.get_kind()?;
                let method_ref = cp.get_methodref(&handle_info.reference_index)?;
                let method_name = fmt_method_name(cp.get_method_or_field_name(method_ref)?);
                let class = cp.get_method_or_field_class_name(method_ref)?;
                let desc = cp.get_method_or_field_descriptor(method_ref)?;
                let mut out = handle_kind.javap_name().to_string();
                out.append(" ");
                out.append(class.as_str());
                out.append(".");
                out.append(method_name.as_str());
                out.append(":");
                out.append(desc);
                Ok(out)
            },
            ConstantEntry::MethodType(idx) => Ok(cp.get_utf8(idx)?.to_string()),
            ConstantEntry::Dynamic(_) => Ok("Dynamic (details omitted)".to_string()),
            _ => Ok(String::new()),
        }
    }
}

/// An entry's line in the constant pool listing of `javap -v`: its operands, padded to
/// 16 columns, and a comment with what they resolve to. Text entries and numbers stand
/// alone.
pub open spec fn spec_javap_line(cp: Seq<SpecConstantEntry>, e: SpecConstantEntry) -> Result<Seq<char>, SpecClassFormatErr> {
    match e {
        SpecConstantEntry::Utf8(s) => Ok(spec_escape_debug(s)),
        SpecConstantEntry::Integer(i) => Ok(spec_decimal(i as int)),
        SpecConstantEntry::Long(l) => Ok(spec_decimal(l as int) + "l"@),
        SpecConstantEntry::String(idx) => match spec_get_utf8(cp, idx) {
            Err(e) => Err(e),
            Ok(s) => Ok(spec_pad_right("#"@ + spec_decimal(idx as int), 16) + " // "@ + spec_escape_debug(s)),
        },
        SpecConstantEntry::Class(idx) => match spec_get_javap_class_name_utf8(cp, idx) {
            Err(e) => Err(e),
            Ok(n) => Ok(spec_pad_right("#"@ + spec_decimal(idx as int), 16) + " // "@ + n),
        },
        SpecConstantEntry::MethodRef(r) => spec_ref_line(cp, r, true),
        SpecConstantEntry::InterfaceMethodRef(r) => spec_ref_line(cp, r, true),
        SpecConstantEntry::FieldRef(r) => spec_ref_line(cp, r, false),
        SpecConstantEntry::NameAndType(t) => match spec_get_utf8(cp, t.name_index) {
            Err(e) => Err(e),
            Ok(name) => match spec_get_utf8(cp, t.descriptor_index) {
                Err(e) => Err(e),
                Ok(desc) => Ok(
                    spec_pad_right(
                        "#"@ + spec_decimal(t.name_index as int) + ":"@ + "#"@ + spec_decimal(t.descriptor_index as int),
                        16,
                    ) + " // "@ + spec_fmt_method_name(name) + ":"@ + desc,
                ),
            },
        },
        SpecConstantEntry::Dynamic(d) => spec_dynamic_line(cp, d),
        SpecConstantEntry::InvokeDynamic(d) => spec_dynamic_line(cp, d),
        SpecConstantEntry::MethodType(idx) => match spec_get_utf8(cp, idx) {
            Err(e) => Err(e),
            Ok(s) => Ok(spec_pad_right("#"@ + spec_decimal(idx as int), 16) + " // "@ + s),
        },
        SpecConstantEntry::MethodHandle(h) => match spec_handle_kind_from_tag(h.reference_kind) {
            None => Err(SpecClassFormatErr::InvalidMethodHandleKind(h.reference_kind)),
            Some(kind) => match spec_get_methodref(cp, h.reference_index) {
                Err(e) => Err(e),
                Ok(m) => match spec_get_javap_class_name_for_cp_print(cp, m.class_index) {
                    Err(e) => Err(e),
                    Ok(class) => match spec_nat_name_at(cp, m.name_and_type_index) {
                        Err(e) => Err(e),
                        Ok(name) => match spec_nat_descriptor_at(cp, m.name_and_type_index) {
                            Err(e) => Err(e),
                            Ok(desc) => Ok(
                                spec_pad_right(
                                    spec_decimal(h.reference_kind as int) + ":#"@ + spec_decimal(h.reference_index as int),
                                    16,
                                ) + " // "@ + spec_handle_kind_name(kind) + " "@ + class + "."@ + spec_fmt_method_name(name)
                                    + ":"@ + desc,
                            ),
                        },
                    },
                },
            },
        },
        _ => Ok(seq![]),
    }
}

/// The line of a method (if `method`) or field reference: a method's class is shown as
/// the pool listing shows classes, a field's by its plain name.
pub open spec fn spec_ref_line(cp: Seq<SpecConstantEntry>, r: Reference, method: bool) -> Result<Seq<char>, SpecClassFormatErr> {
    match (if method {
        spec_get_javap_class_name_for_cp_print(cp, r.class_index)
    } else {
        spec_get_class_name(cp, r.class_index)
    }) {
        Err(e) => Err(e),
        Ok(class) => match spec_nat_name_at(cp, r.name_and_type_index) {
            Err(e) => Err(e),
            Ok(name) => match spec_nat_descriptor_at(cp, r.name_and_type_index) {
                Err(e) => Err(e),
                Ok(desc) => Ok(
                    spec_pad_right(
                        "#"@ + spec_decimal(r.class_index as int) + "."@ + "#"@ + spec_decimal(r.name_and_type_index as int),
                        16,
                    ) + " // "@ + class + "."@ + (if method {
                        spec_fmt_method_name(name)
                    } else {
                        name
                    }) + ":"@ + desc,
                ),
            },
        },
    }
}

/// The line of a dynamic constant or call site.
pub open spec fn spec_dynamic_line(cp: Seq<SpecConstantEntry>, d: Dynamic) -> Result<Seq<char>, SpecClassFormatErr> {
    match spec_nat_name_at(cp, d.name_and_type_index) {
        Err(e) => Err(e),
        Ok(name) => match spec_nat_descriptor_at(cp, d.name_and_type_index) {
            Err(e) => Err(e),
            Ok(desc) => Ok(
                spec_pad_right(
                    "#"@ + spec_decimal(d.bootstrap_method_attr_index as int) + ":"@ + "#"@ + spec_decimal(
                        d.name_and_type_index as int,
                    ),
                    16,
                ) + " // #"@ + spec_decimal(d.bootstrap_method_attr_index as int) + ":"@ + name + ":"@ + desc,
            ),
        },
    }
}

/// Whether an entry is a floating-point constant, whose text the caller supplies.
pub open spec fn spec_is_float(e: SpecConstantEntry) -> bool {
    e is Float || e is Double
}

/// The word before a floating-point constant's text in a comment.
pub open spec fn spec_float_word(e: SpecConstantEntry) -> Seq<char> {
    if e is Float {
        "float "@
    } else {
        "double "@
    }
}

/// The views of texts that may be missing.
pub open spec fn opt_views(v: Seq<Option<String>>) -> Seq<Option<Seq<char>>> {
    v.map_values(|o: Option<String>| match o {
        Some(s) => Some(s@),
        None => None,
    })
}

/// The text at slot `i` of `ft`, if there is one.
pub open spec fn spec_text_at(ft: Seq<Option<Seq<char>>>, i: int) -> Option<Seq<char>> {
    if 0 <= i < ft.len() {
        ft[i]
    } else {
        None
    }
}

/// The text at slot `i` of `ft`, if there is one.
pub fn constant_text(ft: &Vec<Option<String>>, i: usize) -> (r: Option<&str>)
    ensures
        match spec_text_at(opt_views(ft@), i as int) {
            Some(s) => r matches Some(x) && x@ == s,
            None => r is None,
        },
{
    if i < ft.len() {
        match &ft[i] {
            Some(s) => Some(s.as_str()),
            None => None,
        }
    } else {
        None
    }
}

/// The word before the text of `e`, a floating-point constant, in a comment.
pub fn float_word(e: &ConstantEntry) -> (r: &'static str)
    requires
        spec_is_float(e@),
    ensures
        r@ == spec_float_word(e@),
{
    match e {
        ConstantEntry::Float(_) => {
            proof {
                reveal_strlit("float ");
            }
            "float "
        },
        _ => {
            proof {
                reveal_strlit("double ");
            }
            "double "
        },
    }
}

/// Whether the pool listing shows an entry by itself: every kind but `Unused` and the
/// floating-point ones, whose text is made elsewhere.
pub open spec fn spec_has_javap_line(e: SpecConstantEntry) -> bool {
    !(e is Unused) && !(e is Float) && !(e is Double)
}

/// `#` and `a`, padded to 16 columns.
fn operand_one(a: u16) -> (r: String)
    ensures
        r@ == spec_pad_right("#"@ + spec_decimal(a as int), 16),
{
    let mut ops = "#".to_string();
    push_decimal(&mut ops, a as i64);
    let mut out = String::new();
    push_padded_right(&mut out, ops.as_str(), 16);
    assert(out@ =~= spec_pad_right(ops@, 16));
    out
}

/// `#` and `a`, `sep`, `#` and `b`, padded to 16 columns.
fn operand_two(a: u16, sep: &str, b: u16) -> (r: String)
    ensures
        r@ == spec_pad_right("#"@ + spec_decimal(a as int) + sep@ + "#"@ + spec_decimal(b as int), 16),
{
    let mut ops = "#".to_string();
    push_decimal(&mut ops, a as i64);
    ops.append(sep);
    ops.append("#");
    push_decimal(&mut ops, b as i64);
    let mut out = String::new();
    push_padded_right(&mut out, ops.as_str(), 16);
    assert(out@ =~= spec_pad_right(ops@, 16));
    out
}

fn ref_line(cp: &ConstantPool, r: &Reference, method: bool) -> (res: Result<String, ClassFormatErr>)
    ensures
        match spec_ref_line(cp@, *r, method) {
            Ok(s) => res matches Ok(x) && x@ == s,
            Err(e) => res matches Err(x) && x@ == e,
        },
{
    let class = if method {
        cp.get_method_or_field_class_name(r)?
    } else {
        cp.get_class_name(&r.class_index)?.to_string()
    };
    let name = cp.get_method_or_field_name(r)?;
    let desc = cp.get_method_or_field_descriptor(r)?;
    let mut out = operand_two(r.class_index, ".", r.name_and_type_index);
    out.append(" // ");
    out.append(class.as_str());
    out.append(".");
    if method {
        out.append(fmt_method_name(name).as_str());
    } else {
        out.append(name);
    }
    out.append(":");
    out.append(desc);
    assert(out@ =~= spec_ref_line(cp@, *r, method)->Ok_0);
    Ok(out)
}

fn dynamic_line(cp: &ConstantPool, d: &Dynamic) -> (res: Result<String, ClassFormatErr>)
    ensures
        match spec_dynamic_line(cp@, *d) {
            Ok(s) => res matches Ok(x) && x@ == s,
            Err(e) => res matches Err(x) && x@ == e,
        },
{
    let name = cp.get_dyn_info_name(d)?;
    let desc = cp.get_dyn_info_descriptor(d)?;
    let mut out = operand_two(d.bootstrap_method_attr_index, ":", d.name_and_type_index);
    out.append(" // #");
    push_decimal(&mut out, d.bootstrap_method_attr_index as i64);
    out.append(":");
    out.append(name);
    out.append(":");
    out.append(desc);
    assert(out@ =~= spec_dynamic_line(cp@, *d)->Ok_0);
    Ok(out)
}

impl ConstantEntry {
    /// This entry's line in the constant pool listing of `javap -v`, without the
    /// indentation and the line break around it. Floating-point entries are shown elsewhere.
    pub fn javap_fmt(&self, cp: &ConstantPool) -> (r: Result<String, ClassFormatErr>)
        requires
            spec_has_javap_line(self@),
        ensures
            match spec_javap_line(cp@, self@) {
                Ok(s) => r matches Ok(x) && x@ == s,
                Err(e) => r matches Err(x) && x@ == e,
            },
    {
        match self {
            ConstantEntry::Utf8(s) => Ok(escape_debug(s.as_str())),
            ConstantEntry::Integer(i) => {
                let mut out = String::new();
                push_decimal(&mut out, *i as i64);
                Ok(out)
            },
            ConstantEntry::Long(l) => {
                let mut out = String::new();
                push_decimal(&mut out, *l);
                out.append("l");
                Ok(out)
            },
            ConstantEntry::String(index) => {
                let s = cp.get_printable_utf8(index)?;
                let mut out = operand_one(*index);
                out.append(" // ");
                out.append(s.as_str());
                Ok(out)
            },
            ConstantEntry::Class(index) => {
                let n = cp.get_javap_class_name_utf8(index)?;
                let mut out = operand_one(*index);
                out.append(" // ");
                out.append(n.as_str());
                Ok(out)
            },
            ConstantEntry::MethodRef(r) | ConstantEntry::InterfaceMethodRef(r) => ref_line(cp, r, true),
            ConstantEntry::FieldRef(r) => ref_line(cp, r, false),
            ConstantEntry::NameAndType(t) => {
                let name = cp.get_nat_name(t)?;
                let desc = cp.get_nat_descriptor(t)?;
                let mut out = operand_two(t.name_index, ":", t.descriptor_index);
                out.append(" // ");
                out.append(fmt_method_name(name).as_str());
                out.append(":");
                out.append(desc);
                Ok(out)
            },
            ConstantEntry::Dynamic(d) | ConstantEntry::InvokeDynamic(d) => dynamic_line(cp, d),
            ConstantEntry::MethodType(idx) => {
                let s = cp.get_utf8(idx)?;
                let mut out = operand_one(*idx);
                out.append(" // ");
                out.append(s);
                Ok(out)
            },
            ConstantEntry::MethodHandle(handle_info) => {
                let handle_kind = handle_info.get_kind()?;
                let method_ref = cp.get_methodref(&handle_info.reference_index)?;
                let class = cp.get_method_or_field_class_name(method_ref)?;
                let name = cp.get_method_or_field_name(method_ref)?;
                let desc = cp.get_method_or_field_descriptor(method_ref)?;
                let mut ops = String::new();
                push_decimal(&mut ops, handle_info.reference_kind as i64);
                ops.append(":#");
                push_decimal(&mut ops, handle_info.reference_index as i64);
                let mut out = String::new();
                push_padded_right(&mut out, ops.as_str(), 16);
                out.append(" // ");
                out.append(handle_kind.javap_name());
                out.append(" ");
                out.append(class.as_str());
                out.append(".");
                out.append(fmt_method_name(name).as_str());
                out.append(":");
                out.append(desc);
                Ok(out)
            },
            _ => Ok(String::new()),
        }
    }

    /// The value of this entry as javap shows it in a comment: an integer or a class name
    /// alone, any other entry with its kind.
    pub fn get_javap_value(&self, cp: &ConstantPool, this_class_name: &u16) -> (r: Result<String, ClassFormatErr>)
        requires
            spec_has_javap_text(self@),
        ensures
            match spec_javap_value(cp@, self@, *this_class_name) {
                Ok(s) => r matches Ok(x) && x@ == s,
                Err(e) => r matches Err(x) && x@ == e,
            },
    {
        match self {
            ConstantEntry::Integer(i) => {
                let mut out = String::new();
                push_decimal(&mut out, *i as i64);
                Ok(out)
            },
            ConstantEntry::Class(index) => cp.get_javap_class_name_utf8(index),
            _ => self.get_javap_type_and_value(cp, this_class_name),
        }
    }
}


/// A reference text that could be made starts with the kind's word.
proof fn lemma_member_text_starts_with_word(
    cp: Seq<SpecConstantEntry>,
    word: Seq<char>,
    class_index: u16,
    nat_index: u16,
    this: u16,
    quote_init: bool,
)
    ensures
        spec_member_text(cp, word, class_index, nat_index, this, quote_init) matches Ok(t) ==> word.is_prefix_of(t),
{
    if let Ok(t) = spec_member_text(cp, word, class_index, nat_index, this, quote_init) {
        assert(t.subrange(0, word.len() as int) =~= word);
    }
}

/// javap names the kind of a reference first, for every pool, reference and shown
/// class: a field reference reads `Field ...`, a method reference `Method ...` and an
/// interface method reference `InterfaceMethod ...`, so the two kinds of method stay
/// apart.
pub proof fn lemma_reference_kind_words(cp: Seq<SpecConstantEntry>, r: Reference, this: u16)
    ensures
        spec_javap_type_and_value(cp, SpecConstantEntry::FieldRef(r), this) matches Ok(t) ==> "Field "@.is_prefix_of(t),
        spec_javap_type_and_value(cp, SpecConstantEntry::MethodRef(r), this) matches Ok(t) ==> "Method "@.is_prefix_of(t),
        spec_javap_type_and_value(cp, SpecConstantEntry::InterfaceMethodRef(r), this) matches Ok(t)
            ==> "InterfaceMethod "@.is_prefix_of(t),
{
    lemma_member_text_starts_with_word(cp, "Field "@, r.class_index, r.name_and_type_index, this, false);
    lemma_member_text_starts_with_word(cp, "Method "@, r.class_index, r.name_and_type_index, this, true);
    lemma_member_text_starts_with_word(cp, "InterfaceMethod "@, r.class_index, r.name_and_type_index, this, false);
}


/// javap's text of the other kinds, for every pool, entry and shown class: a `Utf8` entry
/// is `utf8 ` and its text, an integer `int ` and its decimal value, a long `long `, its
/// decimal value and `l`; a class that can be shown reads `class ...`, a string
/// `String ...`, and an invokedynamic entry `InvokeDynamic #` and its bootstrap index.
pub proof fn lemma_constant_kind_words(cp: Seq<SpecConstantEntry>, e: SpecConstantEntry, this: u16)
    ensures
        e matches SpecConstantEntry::Utf8(s) ==> spec_javap_type_and_value(cp, e, this) == Ok::<
            Seq<char>,
            SpecClassFormatErr,
        >("utf8 "@ + s),
        e matches SpecConstantEntry::Integer(i) ==> spec_javap_type_and_value(cp, e, this) == Ok::<
            Seq<char>,
            SpecClassFormatErr,
        >("int "@ + spec_decimal(i as int)),
        e matches SpecConstantEntry::Long(l) ==> spec_javap_type_and_value(cp, e, this) == Ok::<
            Seq<char>,
            SpecClassFormatErr,
        >("long "@ + spec_decimal(l as int) + "l"@),
        e is Class ==> (spec_javap_type_and_value(cp, e, this) matches Ok(t) ==> "class "@.is_prefix_of(t)),
        e is String ==> (spec_javap_type_and_value(cp, e, this) matches Ok(t) ==> "String "@.is_prefix_of(t)),
        e matches SpecConstantEntry::InvokeDynamic(dy) ==> (spec_javap_type_and_value(cp, e, this) matches Ok(t) ==> (
        "InvokeDynamic #"@ + spec_decimal(dy.bootstrap_method_attr_index as int)).is_prefix_of(t)),
{
    if let Ok(t) = spec_javap_type_and_value(cp, e, this) {
        match e {
            SpecConstantEntry::Class(_) => {
                assert(t.subrange(0, "class "@.len() as int) =~= "class "@);
            },
            SpecConstantEntry::String(_) => {
                assert(t.subrange(0, "String "@.len() as int) =~= "String "@);
            },
            SpecConstantEntry::InvokeDynamic(dy) => {
                let w = "InvokeDynamic #"@ + spec_decimal(dy.bootstrap_method_attr_index as int);
                assert(t.subrange(0, w.len() as int) =~= w);
            },
            _ => {},
        }
    }
}


/// A text padded on the right starts with the text.
proof fn lemma_pad_right_prefix(s: Seq<char>, width: nat, rest: Seq<char>)
    ensures
        s.is_prefix_of(spec_pad_right(s, width) + rest),
{
    assert((spec_pad_right(s, width) + rest).subrange(0, s.len() as int) =~= s);
}

/// The operand column of each entry's line in the constant pool listing, for every pool
/// and entry, shows the entry's own indices in class file order: `#class.#name_and_type`
/// for references, `#name:#descriptor` for a name and type, `#bootstrap:#name_and_type`
/// for dynamic entries, `kind:#reference` for a method handle, and `#index` for classes,
/// strings and method types. Method and interface method references are listed alike.
pub proof fn lemma_pool_line_operands(cp: Seq<SpecConstantEntry>, e: SpecConstantEntry)
    ensures
        e matches SpecConstantEntry::Class(i) ==> (spec_javap_line(cp, e) matches Ok(t) ==> ("#"@ + spec_decimal(
            i as int,
        )).is_prefix_of(t)),
        e matches SpecConstantEntry::String(i) ==> (spec_javap_line(cp, e) matches Ok(t) ==> ("#"@ + spec_decimal(
            i as int,
        )).is_prefix_of(t)),
        e matches SpecConstantEntry::MethodType(i) ==> (spec_javap_line(cp, e) matches Ok(t) ==> ("#"@ + spec_decimal(
            i as int,
        )).is_prefix_of(t)),
        e matches SpecConstantEntry::FieldRef(r) ==> (spec_javap_line(cp, e) matches Ok(t) ==> ("#"@ + spec_decimal(
            r.class_index as int,
        ) + "."@ + "#"@ + spec_decimal(r.name_and_type_index as int)).is_prefix_of(t)),
        e matches SpecConstantEntry::MethodRef(r) ==> (spec_javap_line(cp, e) matches Ok(t) ==> ("#"@ + spec_decimal(
            r.class_index as int,
        ) + "."@ + "#"@ + spec_decimal(r.name_and_type_index as int)).is_prefix_of(t)),
        e matches SpecConstantEntry::MethodRef(r) ==> spec_javap_line(cp, e) == spec_javap_line(
            cp,
            SpecConstantEntry::InterfaceMethodRef(r),
        ),
        e matches SpecConstantEntry::NameAndType(n) ==> (spec_javap_line(cp, e) matches Ok(t) ==> ("#"@ + spec_decimal(
            n.name_index as int,
        ) + ":"@ + "#"@ + spec_decimal(n.descriptor_index as int)).is_prefix_of(t)),
        e matches SpecConstantEntry::Dynamic(x) ==> (spec_javap_line(cp, e) matches Ok(t) ==> ("#"@ + spec_decimal(
            x.bootstrap_method_attr_index as int,
        ) + ":"@ + "#"@ + spec_decimal(x.name_and_type_index as int)).is_prefix_of(t)),
        e matches SpecConstantEntry::InvokeDynamic(x) ==> (spec_javap_line(cp, e) matches Ok(t) ==> ("#"@ + spec_decimal(
            x.bootstrap_method_attr_index as int,
        ) + ":"@ + "#"@ + spec_decimal(x.name_and_type_index as int)).is_prefix_of(t)),
        e matches SpecConstantEntry::MethodHandle(h) ==> (spec_javap_line(cp, e) matches Ok(t) ==> (spec_decimal(
            h.reference_kind as int,
        ) + ":#"@ + spec_decimal(h.reference_index as int)).is_prefix_of(t)),
{
    if let Ok(t) = spec_javap_line(cp, e) {
        match e {
            SpecConstantEntry::Class(i) => {
                let w = "#"@ + spec_decimal(i as int);
                lemma_pad_right_prefix(w, 16, t.subrange(spec_pad_right(w, 16).len() as int, t.len() as int));
                assert(t =~= spec_pad_right(w, 16) + t.subrange(spec_pad_right(w, 16).len() as int, t.len() as int));
            },
            SpecConstantEntry::String(i) => {
                let w = "#"@ + spec_decimal(i as int);
                lemma_pad_right_prefix(w, 16, t.subrange(spec_pad_right(w, 16).len() as int, t.len() as int));
                assert(t =~= spec_pad_right(w, 16) + t.subrange(spec_pad_right(w, 16).len() as int, t.len() as int));
            },
            SpecConstantEntry::MethodType(i) => {
                let w = "#"@ + spec_decimal(i as int);
                lemma_pad_right_prefix(w, 16, t.subrange(spec_pad_right(w, 16).len() as int, t.len() as int));
                assert(t =~= spec_pad_right(w, 16) + t.subrange(spec_pad_right(w, 16).len() as int, t.len() as int));
            },
            SpecConstantEntry::FieldRef(r) => {
                let w = "#"@ + spec_decimal(r.class_index as int) + "."@ + "#"@ + spec_decimal(r.name_and_type_index as int);
                lemma_pad_right_prefix(w, 16, t.subrange(spec_pad_right(w, 16).len() as int, t.len() as int));
                assert(t =~= spec_pad_right(w, 16) + t.subrange(spec_pad_right(w, 16).len() as int, t.len() as int));
            },
            SpecConstantEntry::MethodRef(r) => {
                let w = "#"@ + spec_decimal(r.class_index as int) + "."@ + "#"@ + spec_decimal(r.name_and_type_index as int);
                lemma_pad_right_prefix(w, 16, t.subrange(spec_pad_right(w, 16).len() as int, t.len() as int));
                assert(t =~= spec_pad_right(w, 16) + t.subrange(spec_pad_right(w, 16).len() as int, t.len() as int));
            },
            SpecConstantEntry::NameAndType(n) => {
                let w = "#"@ + spec_decimal(n.name_index as int) + ":"@ + "#"@ + spec_decimal(n.descriptor_index as int);
                lemma_pad_right_prefix(w, 16, t.subrange(spec_pad_right(w, 16).len() as int, t.len() as int));
                assert(t =~= spec_pad_right(w, 16) + t.subrange(spec_pad_right(w, 16).len() as int, t.len() as int));
            },
            SpecConstantEntry::Dynamic(x) => {
                let w = "#"@ + spec_decimal(x.bootstrap_method_attr_index as int) + ":"@ + "#"@ + spec_decimal(
                    x.name_and_type_index as int,
                );
                lemma_pad_right_prefix(w, 16, t.subrange(spec_pad_right(w, 16).len() as int, t.len() as int));
                assert(t =~= spec_pad_right(w, 16) + t.subrange(spec_pad_right(w, 16).len() as int, t.len() as int));
            },
            SpecConstantEntry::InvokeDynamic(x) => {
                let w = "#"@ + spec_decimal(x.bootstrap_method_attr_index as int) + ":"@ + "#"@ + spec_decimal(
                    x.name_and_type_index as int,
                );
                lemma_pad_right_prefix(w, 16, t.subrange(spec_pad_right(w, 16).len() as int, t.len() as int));
                assert(t =~= spec_pad_right(w, 16) + t.subrange(spec_pad_right(w, 16).len() as int, t.len() as int));
            },
            SpecConstantEntry::MethodHandle(h) => {
                let w = spec_decimal(h.reference_kind as int) + ":#"@ + spec_decimal(h.reference_index as int);
                lemma_pad_right_prefix(w, 16, t.subrange(spec_pad_right(w, 16).len() as int, t.len() as int));
                assert(t =~= spec_pad_right(w, 16) + t.subrange(spec_pad_right(w, 16).len() as int, t.len() as int));
            },
            _ => {},
        }
    }
}

} // verus!
