//! The text that `javap -v` shows for values held in attributes.

use crate::attribute::annotation::{ElementValue, SpecElementValue};
use crate::attribute::class::{BootstrapMethodEntry, ClassAttribute, InnerClassEntry, SpecBootstrapMethod, SpecClassAttribute};
use crate::attribute::field::{FieldAttribute, SpecFieldAttribute};
use crate::attribute::method::code::VerificationTypeInfo;
use crate::attribute::method::{MethodAttribute, MethodParameterEntry, SpecMethodAttribute};
use crate::constant_pool::pool::{
    ConstantPool, spec_get_class_name, spec_get_integer, spec_get_javap_class_name, spec_get_raw, spec_get_utf8,
    spec_nat_name_at,
};
use crate::constant_pool::{ConstantEntry, SpecConstantEntry};
use crate::error::{ClassFormatErr, SpecClassFormatErr};
use crate::flags::{InnerClassFlags, MethodParamFlags};
use crate::javap_fmt::annotations::{
    fmt_parameter_annotations, spec_param_annotations_shown, spec_parameter_annotations_lines, spec_shared_lines,
    spec_shared_listable,
};
use crate::javap_fmt::constant_pool::{
    constant_text, float_word, opt_views, spec_float_word, spec_has_javap_text, spec_is_float, spec_javap_type_and_value,
    spec_javap_value, spec_text_at,
};
use crate::javap_fmt::code::{spec_code_lines, spec_code_listable};
use crate::javap_fmt::flags::{spec_inner_class_prefix, spec_param_prefix};
use crate::javap_fmt::lines::{
    JavapLine, SpecListing, SpecText, appended, emit, lemma_each_all, lemma_each_err, lemma_each_step,
    lemma_try_join_each_err, lemma_try_join_each_step, spec_cat, spec_each, spec_line, spec_lines, spec_try_join_each,
    text_is,
};
use crate::read::views;
use crate::text::{push_decimal, push_digits, push_padded_right, quoted, spec_decimal, spec_pad_right, spec_quoted};
use vstd::prelude::*;

verus! {

/// Whether javap can show a verification type: an object type must name an entry that
/// javap shows by itself.
pub open spec fn spec_verification_type_shown(cp: Seq<SpecConstantEntry>, v: VerificationTypeInfo) -> bool {
    v matches VerificationTypeInfo::Object(i) ==> (spec_get_raw(cp, i) matches Ok(e) ==> spec_has_javap_text(e))
}

/// A verification type as javap shows it in a stack map frame.
pub open spec fn spec_verification_type_text(
    cp: Seq<SpecConstantEntry>,
    v: VerificationTypeInfo,
    this: u16,
) -> Result<Seq<char>, SpecClassFormatErr> {
    match v {
        VerificationTypeInfo::Top => Ok("top"@),
        VerificationTypeInfo::Integer => Ok("int"@),
        VerificationTypeInfo::Float => Ok("float"@),
        VerificationTypeInfo::Double => Ok("double"@),
        VerificationTypeInfo::Long => Ok("long"@),
        VerificationTypeInfo::Null => Ok("null"@),
        VerificationTypeInfo::UninitializedThis => Ok("this"@),
        VerificationTypeInfo::Object(i) => match spec_get_raw(cp, i) {
            Err(e) => Err(e),
            Ok(e) => spec_javap_type_and_value(cp, e, this),
        },
        VerificationTypeInfo::Uninitialized(idx) => Ok("uninitialized "@ + spec_decimal(idx as int)),
    }
}

impl VerificationTypeInfo {
    /// This verification type as javap shows it, `this` being the class being shown.
    pub fn get_javap_value(&self, cp: &ConstantPool, this: &u16) -> (r: Result<String, ClassFormatErr>)
        requires
            spec_verification_type_shown(cp@, *self),
        ensures
            match spec_verification_type_text(cp@, *self, *this) {
                Ok(s) => r matches Ok(x) && x@ == s,
                Err(e) => r matches Err(x) && x@ == e,
            },
    {
        match self {
            VerificationTypeInfo::Top => Ok("top".to_string()),
            VerificationTypeInfo::Integer => Ok("int".to_string()),
            VerificationTypeInfo::Float => Ok("float".to_string()),
            VerificationTypeInfo::Double => Ok("double".to_string()),
            VerificationTypeInfo::Long => Ok("long".to_string()),
            VerificationTypeInfo::Null => Ok("null".to_string()),
            VerificationTypeInfo::UninitializedThis => Ok("this".to_string()),
            VerificationTypeInfo::Object(cp_index) => cp.get_raw(cp_index)?.get_javap_type_and_value(cp, this),
            VerificationTypeInfo::Uninitialized(idx) => {
                let mut out = "uninitialized ".to_string();
                push_decimal(&mut out, *idx as i64);
                Ok(out)
            },
        }
    }
}

/// Whether javap shows an element value in these forms: a boolean or a string.
pub open spec fn spec_element_value_shown(v: SpecElementValue) -> bool {
    v is Boolean || v is String
}

/// The descriptor form of an element value: `Z#` or `s#` and its index.
pub open spec fn spec_element_descriptor(v: SpecElementValue) -> Seq<char> {
    match v {
        SpecElementValue::Boolean(i) => "Z#"@ + spec_decimal(i as int),
        SpecElementValue::String(i) => "s#"@ + spec_decimal(i as int),
        _ => seq![],
    }
}

/// Whether the value of an element can be shown: a boolean must hold 0 or 1.
pub open spec fn spec_element_value_readable(cp: Seq<SpecConstantEntry>, v: SpecElementValue) -> bool {
    &&& spec_element_value_shown(v)
    &&& (v matches SpecElementValue::Boolean(i) ==> (spec_get_integer(cp, i) matches Ok(x) ==> (x == 0 || x == 1)))
}

/// The value of an element: `false` or `true`, or the string in quotes.
pub open spec fn spec_element_value_text(cp: Seq<SpecConstantEntry>, v: SpecElementValue) -> Result<
    Seq<char>,
    SpecClassFormatErr,
> {
    match v {
        SpecElementValue::Boolean(i) => match spec_get_integer(cp, i) {
            Err(e) => Err(e),
            Ok(x) => Ok(if x == 0 { "false"@ } else { "true"@ }),
        },
        SpecElementValue::String(i) => match spec_get_utf8(cp, i) {
            Err(e) => Err(e),
            Ok(s) => Ok(spec_quoted(s)),
        },
        _ => Ok(seq![]),
    }
}

impl ElementValue {
    /// The descriptor form of this value, such as `Z#12`; for booleans and strings.
    pub fn get_javap_descriptor(&self) -> (r: String)
        requires
            spec_element_value_shown(self@),
        ensures
            r@ == spec_element_descriptor(self@),
    {
        match self {
            ElementValue::Boolean(v) => {
                let mut out = "Z#".to_string();
                push_decimal(&mut out, *v as i64);
                out
            },
            ElementValue::String(v) => {
                let mut out = "s#".to_string();
                push_decimal(&mut out, *v as i64);
                out
            },
            _ => String::new(),
        }
    }

    /// The value of this element: `false` or `true` for a boolean, the string in quotes.
    pub fn get_javap_value(&self, cp: &ConstantPool) -> (r: Result<String, ClassFormatErr>)
        requires
            spec_element_value_readable(cp@, self@),
        ensures
            match spec_element_value_text(cp@, self@) {
                Ok(s) => r matches Ok(x) && x@ == s,
                Err(e) => r matches Err(x) && x@ == e,
            },
    {
        match self {
            ElementValue::Boolean(idx) => {
                let v = *cp.get_integer(idx)?;
                if v == 0 {
                    Ok("false".to_string())
                } else {
                    Ok("true".to_string())
                }
            },
            ElementValue::String(idx) => Ok(quoted(cp.get_utf8(idx)?)),
            _ => Ok(String::new()),
        }
    }
}

/// Whether the entry at `idx`, if there is one, is one that javap shows by itself.
pub open spec fn spec_raw_shown(cp: Seq<SpecConstantEntry>, idx: u16) -> bool {
    spec_get_raw(cp, idx) matches Ok(e) ==> spec_has_javap_text(e)
}

/// The kind and value of the entry at `idx` as javap shows them in a comment about a
/// class attribute.
pub open spec fn spec_raw_text(cp: Seq<SpecConstantEntry>, idx: u16) -> SpecText {
    match spec_get_raw(cp, idx) {
        Err(e) => Err(e),
        Ok(e) => spec_javap_type_and_value(cp, e, 0),
    }
}

/// Whether javap can list an inner class entry: the entries it names are ones it shows.
pub open spec fn spec_inner_listable(cp: Seq<SpecConstantEntry>, e: InnerClassEntry) -> bool {
    &&& spec_raw_shown(cp, e.inner_class_info_index)
    &&& e.outer_class_info_index != 0 ==> spec_raw_shown(cp, e.outer_class_info_index)
}

/// The line of an inner class entry: its indices, padded to 43 columns, and a comment
/// with what they name. An anonymous class shows its modifiers and its class; a local
/// class its name and class; a member class also its outer class.
pub open spec fn spec_inner_line(cp: Seq<SpecConstantEntry>, e: InnerClassEntry) -> SpecText {
    let ici = spec_decimal(e.inner_class_info_index as int);
    let inn = spec_decimal(e.inner_name_index as int);
    match spec_get_raw(cp, e.inner_class_info_index) {
        Err(x) => Err(x),
        Ok(inner) => if e.outer_class_info_index == 0 && e.inner_name_index == 0 {
            let flags = spec_inner_class_prefix(e.inner_class_access_flags);
            let left = if flags.len() == 0 {
                "#"@ + ici + ";"@
            } else {
                flags + " #"@ + ici + ";"@
            };
            match spec_javap_type_and_value(cp, inner, 0) {
                Err(x) => Err(x),
                Ok(iv) => Ok(spec_pad_right(left, 43) + " // "@ + iv),
            }
        } else if e.outer_class_info_index == 0 {
            let left = "#"@ + inn + "= #"@ + ici + ";"@;
            match spec_get_utf8(cp, e.inner_name_index) {
                Err(x) => Err(x),
                Ok(name) => match spec_javap_type_and_value(cp, inner, 0) {
                    Err(x) => Err(x),
                    Ok(iv) => Ok(spec_pad_right(left, 43) + " // "@ + name + "="@ + iv),
                },
            }
        } else {
            match spec_get_raw(cp, e.outer_class_info_index) {
                Err(x) => Err(x),
                Ok(outer) => {
                    let left = spec_inner_class_prefix(e.inner_class_access_flags) + " #"@ + inn + "= #"@ + ici + " of #"@
                        + spec_decimal(e.outer_class_info_index as int) + ";"@;
                    match spec_get_utf8(cp, e.inner_name_index) {
                        Err(x) => Err(x),
                        Ok(name) => match spec_javap_type_and_value(cp, inner, 0) {
                            Err(x) => Err(x),
                            Ok(iv) => match spec_javap_type_and_value(cp, outer, 0) {
                                Err(x) => Err(x),
                                Ok(ov) => Ok(spec_pad_right(left, 43) + " // "@ + name + "="@ + iv + " of "@ + ov),
                            },
                        },
                    }
                },
            }
        },
    }
}

/// The line of an inner class entry, as a function of its position and itself.
pub open spec fn inner_fn(cp: Seq<SpecConstantEntry>, d: usize) -> spec_fn(int, InnerClassEntry) -> SpecListing {
    |i: int, e: InnerClassEntry| spec_line(d, spec_inner_line(cp, e))
}

/// The line of a bootstrap argument: its index and its value.
/// The value of the entry at `idx` as javap shows it in a comment: as
/// [`spec_javap_value`], but a floating-point constant shows its kind and the text that
/// `ft` holds for it.
pub open spec fn spec_raw_listing_value(cp: Seq<SpecConstantEntry>, ft: Seq<Option<Seq<char>>>, idx: u16) -> SpecText {
    match spec_get_raw(cp, idx) {
        Err(e) => Err(e),
        Ok(e) => if spec_is_float(e) {
            Ok(spec_float_word(e) + spec_text_at(ft, idx as int)->Some_0)
        } else {
            spec_javap_value(cp, e, 0)
        },
    }
}

/// The value of the entry at `idx` in a comment, as [`spec_raw_listing_value`] gives it.
fn raw_listing_value(cp: &ConstantPool, ft: &Vec<Option<String>>, idx: u16) -> (r: Result<String, ClassFormatErr>)
    requires
        spec_raw_listable(cp@, opt_views(ft@), idx),
    ensures
        crate::javap_fmt::lines::text_is(r, spec_raw_listing_value(cp@, opt_views(ft@), idx)),
{
    let e = cp.get_raw(&idx)?;
    let is_float = match e {
        ConstantEntry::Float(_) => true,
        ConstantEntry::Double(_) => true,
        _ => false,
    };
    if is_float {
        let mut s = float_word(e).to_string();
        if let Some(t) = constant_text(ft, idx as usize) {
            s.append(t);
        }
        return Ok(s);
    }
    e.get_javap_value(cp, &0)
}

/// The line of an argument of a bootstrap method: its index and its value.
pub open spec fn bootstrap_arg_fn(cp: Seq<SpecConstantEntry>, ft: Seq<Option<Seq<char>>>, d: usize) -> spec_fn(int, u16) -> SpecListing {
    |j: int, arg: u16|
        spec_line(
            d,
            match spec_raw_listing_value(cp, ft, arg) {
                Err(e) => Err(e),
                Ok(v) => Ok("#"@ + spec_decimal(arg as int) + " "@ + v),
            },
        )
}

/// The lines of bootstrap method number `i` at depth `d`: its handle, then one level
/// deeper `Method arguments:`, and each argument one level deeper again.
pub open spec fn spec_bootstrap_lines(cp: Seq<SpecConstantEntry>, ft: Seq<Option<Seq<char>>>, i: int, m: SpecBootstrapMethod, d: usize) -> SpecListing {
    spec_cat(
        spec_cat(
            spec_line(
                d,
                match spec_raw_text(cp, m.bootstrap_method_idx) {
                    Err(e) => Err(e),
                    Ok(h) => Ok(spec_decimal(i) + ": #"@ + spec_decimal(m.bootstrap_method_idx as int) + " "@ + h),
                },
            ),
            Ok(seq![((d + 1) as usize, "Method arguments:"@)]),
        ),
        spec_each(m.bootstrap_arguments, bootstrap_arg_fn(cp, ft, (d + 2) as usize)),
    )
}

/// The lines of a bootstrap method, as a function of its position and itself.
pub open spec fn bootstrap_fn(cp: Seq<SpecConstantEntry>, ft: Seq<Option<Seq<char>>>, d: usize) -> spec_fn(int, SpecBootstrapMethod) -> SpecListing {
    |i: int, m: SpecBootstrapMethod| spec_bootstrap_lines(cp, ft, i, m, d)
}

/// The line of a class named by its `Class` entry.
pub open spec fn class_name_fn(cp: Seq<SpecConstantEntry>, d: usize) -> spec_fn(int, u16) -> SpecListing {
    |i: int, idx: u16| spec_line(d, spec_get_class_name(cp, idx))
}

/// Whether javap can list a bootstrap method: its handle and its arguments are entries
/// that it shows by themselves.
pub open spec fn spec_bootstrap_listable(cp: Seq<SpecConstantEntry>, ft: Seq<Option<Seq<char>>>, m: SpecBootstrapMethod) -> bool {
    &&& spec_raw_shown(cp, m.bootstrap_method_idx)
    &&& forall|j: int| 0 <= j < m.bootstrap_arguments.len() ==> spec_raw_listable(cp, ft, #[trigger] m.bootstrap_arguments[j])
}

/// Whether javap can list a class attribute: the kinds it does not list are left out,
/// and the entries that it shows by themselves must be ones it shows.
pub open spec fn spec_class_attribute_listable(cp: Seq<SpecConstantEntry>, ft: Seq<Option<Seq<char>>>, a: SpecClassAttribute) -> bool {
    match a {
        SpecClassAttribute::Shared(s) => spec_shared_listable(cp, s),
        SpecClassAttribute::InnerClasses(es) => forall|i: int| 0 <= i < es.len() ==> spec_inner_listable(cp, #[trigger] es[i]),
        SpecClassAttribute::BootstrapMethods(ms) => forall|i: int|
            0 <= i < ms.len() ==> spec_bootstrap_listable(cp, ft, #[trigger] ms[i]),
        SpecClassAttribute::NestHost(idx) => spec_raw_shown(cp, idx),
        SpecClassAttribute::SourceDebugExtension => false,
        SpecClassAttribute::Module => false,
        SpecClassAttribute::ModulePackages => false,
        SpecClassAttribute::ModuleMainClass => false,
        SpecClassAttribute::Record => false,
        _ => true,
    }
}

/// The lines of a class attribute at depth `d`.
pub open spec fn spec_class_attribute_lines(cp: Seq<SpecConstantEntry>, ft: Seq<Option<Seq<char>>>, a: SpecClassAttribute, d: usize) -> SpecListing {
    let d1 = (d + 1) as usize;
    match a {
        SpecClassAttribute::Shared(s) => spec_shared_lines(cp, s, d),
        SpecClassAttribute::SourceFile(idx) => spec_line(
            d,
            match spec_get_utf8(cp, idx) {
                Err(e) => Err(e),
                Ok(s) => Ok("SourceFile: \""@ + s + "\""@),
            },
        ),
        SpecClassAttribute::InnerClasses(es) => spec_cat(Ok(seq![(d, "InnerClasses:"@)]), spec_each(es, inner_fn(cp, d1))),
        SpecClassAttribute::EnclosingMethod(class_idx, method_idx) => spec_line(
            d,
            match (if method_idx == 0 {
                Ok(seq![])
            } else {
                spec_nat_name_at(cp, method_idx)
            }) {
                Err(e) => Err(e),
                Ok(m) => match spec_get_javap_class_name(cp, class_idx) {
                    Err(e) => Err(e),
                    Ok(c) => Ok(
                        spec_pad_right(
                            "EnclosingMethod: #"@ + spec_decimal(class_idx as int) + ".#"@ + spec_decimal(method_idx as int),
                            24,
                        ) + " // "@ + c + (if m.len() == 0 {
                            seq![]
                        } else {
                            "."@
                        }) + m,
                    ),
                },
            },
        ),
        SpecClassAttribute::BootstrapMethods(ms) => spec_cat(
            Ok(seq![(d, "BootstrapMethods:"@)]),
            spec_each(ms, bootstrap_fn(cp, ft, d1)),
        ),
        SpecClassAttribute::NestHost(idx) => spec_line(
            d,
            match spec_raw_text(cp, idx) {
                Err(e) => Err(e),
                Ok(t) => Ok("NestHost: "@ + t),
            },
        ),
        SpecClassAttribute::NestMembers(ms) => spec_cat(Ok(seq![(d, "NestMembers:"@)]), spec_each(ms, class_name_fn(cp, d1))),
        SpecClassAttribute::PermittedSubclasses(cs) => spec_cat(
            Ok(seq![(d, "PermittedSubclasses:"@)]),
            spec_each(cs, class_name_fn(cp, d1)),
        ),
        _ => Ok(seq![]),
    }
}

/// The kind and value of the entry at `idx`, as a class attribute's comment shows them.
fn raw_text(cp: &ConstantPool, idx: u16) -> (r: Result<String, ClassFormatErr>)
    requires
        spec_raw_shown(cp@, idx),
    ensures
        crate::javap_fmt::lines::text_is(r, spec_raw_text(cp@, idx)),
{
    cp.get_raw(&idx)?.get_javap_type_and_value(cp, &0)
}

/// Whether javap can show the entry at `idx` in a comment, if there is one: an entry
/// that it shows by itself, or a floating-point constant whose text `ft` holds.
pub open spec fn spec_raw_listable(cp: Seq<SpecConstantEntry>, ft: Seq<Option<Seq<char>>>, idx: u16) -> bool {
    spec_get_raw(cp, idx) matches Ok(e) ==> (spec_has_javap_text(e) || (spec_is_float(e) && spec_text_at(
        ft,
        idx as int,
    ) is Some))
}

/// The kind and value of the entry at `idx` in a comment: as [`spec_raw_text`], but a
/// floating-point constant shows its kind and the text that `ft` holds for it.
pub open spec fn spec_raw_listing_text(cp: Seq<SpecConstantEntry>, ft: Seq<Option<Seq<char>>>, idx: u16) -> SpecText {
    match spec_get_raw(cp, idx) {
        Ok(e) => if spec_is_float(e) {
            Ok(spec_float_word(e) + spec_text_at(ft, idx as int)->Some_0)
        } else {
            spec_raw_text(cp, idx)
        },
        Err(_) => spec_raw_text(cp, idx),
    }
}

/// The kind and value of the entry at `idx` in a comment, as [`spec_raw_listing_text`]
/// gives them.
fn raw_listing_text(cp: &ConstantPool, ft: &Vec<Option<String>>, idx: u16) -> (r: Result<String, ClassFormatErr>)
    requires
        spec_raw_listable(cp@, opt_views(ft@), idx),
    ensures
        crate::javap_fmt::lines::text_is(r, spec_raw_listing_text(cp@, opt_views(ft@), idx)),
{
    if let Ok(e) = cp.get_raw(&idx) {
        let is_float = match e {
            ConstantEntry::Float(_) => true,
            ConstantEntry::Double(_) => true,
            _ => false,
        };
        if is_float {
            let mut s = float_word(e).to_string();
            if let Some(t) = constant_text(ft, idx as usize) {
                s.append(t);
            }
            return Ok(s);
        }
    }
    raw_text(cp, idx)
}

/// The line of an inner class entry.
fn inner_line(cp: &ConstantPool, e: &InnerClassEntry) -> (r: Result<String, ClassFormatErr>)
    requires
        spec_inner_listable(cp@, *e),
    ensures
        crate::javap_fmt::lines::text_is(r, spec_inner_line(cp@, *e)),
{
    let inner = cp.get_raw(&e.inner_class_info_index)?;
    let mut s = String::new();
    if e.outer_class_info_index == 0 && e.inner_name_index == 0 {
        let flags = InnerClassFlags::new(e.inner_class_access_flags).javap_java_like_prefix();
        let mut left = String::new();
        if flags.as_str().unicode_len() == 0 {
            left.append("#");
        } else {
            left.append(flags.as_str());
            left.append(" #");
        }
        push_decimal(&mut left, e.inner_class_info_index as i64);
        left.append(";");
        let iv = inner.get_javap_type_and_value(cp, &0)?;
        push_padded_right(&mut s, left.as_str(), 43);
        s.append(" // ");
        s.append(iv.as_str());
    } else if e.outer_class_info_index == 0 {
        let mut left = "#".to_string();
        push_decimal(&mut left, e.inner_name_index as i64);
        left.append("= #");
        push_decimal(&mut left, e.inner_class_info_index as i64);
        left.append(";");
        let name = cp.get_utf8(&e.inner_name_index)?;
        let iv = inner.get_javap_type_and_value(cp, &0)?;
        push_padded_right(&mut s, left.as_str(), 43);
        s.append(" // ");
        s.append(name);
        s.append("=");
        s.append(iv.as_str());
    } else {
        let outer = cp.get_raw(&e.outer_class_info_index)?;
        let mut left = InnerClassFlags::new(e.inner_class_access_flags).javap_java_like_prefix();
        left.append(" #");
        push_decimal(&mut left, e.inner_name_index as i64);
        left.append("= #");
        push_decimal(&mut left, e.inner_class_info_index as i64);
        left.append(" of #");
        push_decimal(&mut left, e.outer_class_info_index as i64);
        left.append(";");
        let name = cp.get_utf8(&e.inner_name_index)?;
        let iv = inner.get_javap_type_and_value(cp, &0)?;
        let ov = outer.get_javap_type_and_value(cp, &0)?;
        push_padded_right(&mut s, left.as_str(), 43);
        s.append(" // ");
        s.append(name);
        s.append("=");
        s.append(iv.as_str());
        s.append(" of ");
        s.append(ov.as_str());
    }
    Ok(s)
}

/// Appends the lines of the inner class entries, each at depth `d`.
fn inner_lines(cp: &ConstantPool, es: &Vec<InnerClassEntry>, d: usize, out: &mut Vec<JavapLine>) -> (r: Result<
    (),
    ClassFormatErr,
>)
    requires
        forall|i: int| 0 <= i < es@.len() ==> spec_inner_listable(cp@, #[trigger] es@[i]),
    ensures
        appended(r, old(out)@, final(out)@, spec_each(es@, inner_fn(cp@, d))),
{
    let ghost f = inner_fn(cp@, d);
    let ghost start = spec_lines(out@);
    let ghost mut ls: Seq<(usize, Seq<char>)> = seq![];
    let mut i: usize = 0;
    while i < es.len()
        invariant
            i <= es@.len(),
            f == inner_fn(cp@, d),
            forall|i: int| 0 <= i < es@.len() ==> spec_inner_listable(cp@, #[trigger] es@[i]),
            spec_each(es@.take(i as int), f) == SpecListing::Ok(ls),
            spec_lines(out@) == start + ls,
            start == spec_lines(old(out)@),
        decreases es@.len() - i,
    {
        proof {
            lemma_each_step(es@, f, i as int);
        }
        match inner_line(cp, &es[i]) {
            Err(x) => {
                proof {
                    lemma_each_err(es@, f, i + 1);
                }
                return Err(x);
            },
            Ok(s) => {
                let ghost sv = s@;
                emit(out, d, s);
                proof {
                    ls = ls + seq![(d, sv)];
                    assert(spec_lines(out@) =~= start + ls);
                }
            },
        }
        i = i + 1;
    }
    proof {
        lemma_each_all(es@, f);
    }
    Ok(())
}

/// Appends the lines of the classes named by the `Class` entries at `idxs`, each at
/// depth `d`.
fn class_name_lines(cp: &ConstantPool, idxs: &Vec<u16>, d: usize, out: &mut Vec<JavapLine>) -> (r: Result<
    (),
    ClassFormatErr,
>)
    ensures
        appended(r, old(out)@, final(out)@, spec_each(idxs@, class_name_fn(cp@, d))),
{
    let ghost f = class_name_fn(cp@, d);
    let ghost start = spec_lines(out@);
    let ghost mut ls: Seq<(usize, Seq<char>)> = seq![];
    let mut i: usize = 0;
    while i < idxs.len()
        invariant
            i <= idxs@.len(),
            f == class_name_fn(cp@, d),
            spec_each(idxs@.take(i as int), f) == SpecListing::Ok(ls),
            spec_lines(out@) == start + ls,
            start == spec_lines(old(out)@),
        decreases idxs@.len() - i,
    {
        proof {
            lemma_each_step(idxs@, f, i as int);
        }
        match cp.get_class_name(&idxs[i]) {
            Err(x) => {
                proof {
                    lemma_each_err(idxs@, f, i + 1);
                }
                return Err(x);
            },
            Ok(s) => {
                let ghost sv = s@;
                emit(out, d, s.to_string());
                proof {
                    ls = ls + seq![(d, sv)];
                    assert(spec_lines(out@) =~= start + ls);
                }
            },
        }
        i = i + 1;
    }
    proof {
        lemma_each_all(idxs@, f);
    }
    Ok(())
}

/// Appends the lines of the arguments of a bootstrap method, each at depth `d`.
fn bootstrap_arg_lines(cp: &ConstantPool, ft: &Vec<Option<String>>, args: &Vec<u16>, d: usize, out: &mut Vec<JavapLine>) -> (r: Result<
    (),
    ClassFormatErr,
>)
    requires
        forall|j: int| 0 <= j < args@.len() ==> spec_raw_listable(cp@, opt_views(ft@), #[trigger] args@[j]),
    ensures
        appended(r, old(out)@, final(out)@, spec_each(args@, bootstrap_arg_fn(cp@, opt_views(ft@), d))),
{
    let ghost f = bootstrap_arg_fn(cp@, opt_views(ft@), d);
    let ghost start = spec_lines(out@);
    let ghost mut ls: Seq<(usize, Seq<char>)> = seq![];
    let mut i: usize = 0;
    while i < args.len()
        invariant
            i <= args@.len(),
            f == bootstrap_arg_fn(cp@, opt_views(ft@), d),
            forall|j: int| 0 <= j < args@.len() ==> spec_raw_listable(cp@, opt_views(ft@), #[trigger] args@[j]),
            spec_each(args@.take(i as int), f) == SpecListing::Ok(ls),
            spec_lines(out@) == start + ls,
            start == spec_lines(old(out)@),
        decreases args@.len() - i,
    {
        proof {
            lemma_each_step(args@, f, i as int);
        }
        let arg = args[i];
        assert(spec_raw_listable(cp@, opt_views(ft@), arg));
        let v = match raw_listing_value(cp, ft, arg) {
            Err(x) => {
                proof {
                    lemma_each_err(args@, f, i + 1);
                }
                return Err(x);
            },
            Ok(v) => v,
        };
        let mut s = "#".to_string();
        push_decimal(&mut s, arg as i64);
        s.append(" ");
        s.append(v.as_str());
        let ghost sv = s@;
        emit(out, d, s);
        proof {
            ls = ls + seq![(d, sv)];
            assert(spec_lines(out@) =~= start + ls);
        }
        i = i + 1;
    }
    proof {
        lemma_each_all(args@, f);
    }
    Ok(())
}

/// Appends the lines of bootstrap method number `i` at depth `d`.
fn bootstrap_lines(cp: &ConstantPool, ft: &Vec<Option<String>>, i: usize, m: &BootstrapMethodEntry, d: usize, out: &mut Vec<JavapLine>) -> (r: Result<
    (),
    ClassFormatErr,
>)
    requires
        d + 2 <= usize::MAX,
        spec_bootstrap_listable(cp@, opt_views(ft@), m@),
    ensures
        appended(r, old(out)@, final(out)@, spec_bootstrap_lines(cp@, opt_views(ft@), i as int, m@, d)),
{
    let ghost before = spec_lines(out@);
    let h = raw_text(cp, m.bootstrap_method_idx)?;
    let mut s = String::new();
    push_digits(&mut s, i as u64);
    s.append(": #");
    push_decimal(&mut s, m.bootstrap_method_idx as i64);
    s.append(" ");
    s.append(h.as_str());
    emit(out, d, s);
    emit(out, d + 1, "Method arguments:".to_string());
    let r = bootstrap_arg_lines(cp, ft, &m.bootstrap_arguments, d + 2, out);
    if r.is_err() {
        return r;
    }
    assert(spec_lines(out@) =~= before + spec_bootstrap_lines(cp@, opt_views(ft@), i as int, m@, d)->Ok_0);
    Ok(())
}

/// Appends the lines of the bootstrap methods, each at depth `d`.
fn bootstrap_methods_lines(cp: &ConstantPool, ft: &Vec<Option<String>>, ms: &Vec<BootstrapMethodEntry>, d: usize, out: &mut Vec<JavapLine>) -> (r: Result<
    (),
    ClassFormatErr,
>)
    requires
        d + 2 <= usize::MAX,
        forall|i: int| 0 <= i < ms@.len() ==> spec_bootstrap_listable(cp@, opt_views(ft@), #[trigger] views(ms@)[i]),
    ensures
        appended(r, old(out)@, final(out)@, spec_each(views(ms@), bootstrap_fn(cp@, opt_views(ft@), d))),
{
    let ghost f = bootstrap_fn(cp@, opt_views(ft@), d);
    let ghost vs = views(ms@);
    let ghost start = spec_lines(out@);
    let ghost mut ls: Seq<(usize, Seq<char>)> = seq![];
    let mut i: usize = 0;
    while i < ms.len()
        invariant
            i <= ms@.len(),
            d + 2 <= usize::MAX,
            vs == views(ms@),
            f == bootstrap_fn(cp@, opt_views(ft@), d),
            forall|i: int| 0 <= i < vs.len() ==> spec_bootstrap_listable(cp@, opt_views(ft@), #[trigger] vs[i]),
            spec_each(vs.take(i as int), f) == SpecListing::Ok(ls),
            spec_lines(out@) == start + ls,
            start == spec_lines(old(out)@),
        decreases ms@.len() - i,
    {
        proof {
            lemma_each_step(vs, f, i as int);
        }
        assert(vs[i as int] == ms@[i as int]@);
        match bootstrap_lines(cp, ft, i, &ms[i], d, out) {
            Err(x) => {
                proof {
                    lemma_each_err(vs, f, i + 1);
                }
                return Err(x);
            },
            Ok(()) => {
                proof {
                    ls = ls + spec_bootstrap_lines(cp@, opt_views(ft@), i as int, vs[i as int], d)->Ok_0;
                    assert(spec_lines(out@) =~= start + ls);
                }
            },
        }
        i = i + 1;
    }
    proof {
        lemma_each_all(vs, f);
    }
    Ok(())
}

impl ClassAttribute {
    /// Appends the lines of this attribute at depth `depth`.
    pub fn javap_fmt(
        &self,
        cp: &ConstantPool,
        ft: &Vec<Option<String>>,
        depth: usize,
        out: &mut Vec<JavapLine>,
    ) -> (r: Result<(), ClassFormatErr>)
        requires
            depth + 3 <= usize::MAX,
            spec_class_attribute_listable(cp@, opt_views(ft@), self@),
        ensures
            appended(r, old(out)@, final(out)@, spec_class_attribute_lines(cp@, opt_views(ft@), self@, depth)),
    {
        let ghost before = spec_lines(out@);
        let d1 = depth + 1;
        match self {
            ClassAttribute::Shared(shared) => {
                return shared.javap_fmt(cp, depth, out);
            },
            ClassAttribute::SourceFile(idx) => {
                let u = cp.get_utf8(idx)?;
                let mut s = "SourceFile: \"".to_string();
                s.append(u);
                s.append("\"");
                emit(out, depth, s);
            },
            ClassAttribute::InnerClasses(es) => {
                emit(out, depth, "InnerClasses:".to_string());
                let r = inner_lines(cp, es, d1, out);
                if r.is_err() {
                    return r;
                }
            },
            ClassAttribute::EnclosingMethod(class_idx, method_idx) => {
                let m: &str = if *method_idx == 0 {
                    ""
                } else {
                    cp.get_method_or_field_name_by_nat_idx(method_idx)?
                };
                proof {
                    if *method_idx == 0 {
                        reveal_strlit("");
                        assert(m@ =~= Seq::<char>::empty());
                    }
                }
                let c = cp.get_javap_class_name(class_idx)?;
                let mut left = "EnclosingMethod: #".to_string();
                push_decimal(&mut left, *class_idx as i64);
                left.append(".#");
                push_decimal(&mut left, *method_idx as i64);
                let mut s = String::new();
                push_padded_right(&mut s, left.as_str(), 24);
                s.append(" // ");
                s.append(c.as_str());
                if m.unicode_len() != 0 {
                    s.append(".");
                }
                s.append(m);
                emit(out, depth, s);
            },
            ClassAttribute::BootstrapMethods(ms) => {
                emit(out, depth, "BootstrapMethods:".to_string());
                let r = bootstrap_methods_lines(cp, ft, ms, d1, out);
                if r.is_err() {
                    return r;
                }
            },
            ClassAttribute::NestHost(idx) => {
                let t = raw_text(cp, *idx)?;
                let mut s = "NestHost: ".to_string();
                s.append(t.as_str());
                emit(out, depth, s);
            },
            ClassAttribute::NestMembers(ms) => {
                emit(out, depth, "NestMembers:".to_string());
                let r = class_name_lines(cp, ms, d1, out);
                if r.is_err() {
                    return r;
                }
            },
            ClassAttribute::PermittedSubclasses(cs) => {
                emit(out, depth, "PermittedSubclasses:".to_string());
                let r = class_name_lines(cp, cs, d1, out);
                if r.is_err() {
                    return r;
                }
            },
            _ => {},
        }
        assert(spec_lines(out@) =~= before + spec_class_attribute_lines(cp@, opt_views(ft@), self@, depth)->Ok_0);
        Ok(())
    }
}

/// Whether javap can list a field attribute: a constant value must be an entry that it
/// shows by itself.
pub open spec fn spec_field_attribute_listable(
    cp: Seq<SpecConstantEntry>,
    ft: Seq<Option<Seq<char>>>,
    a: SpecFieldAttribute,
) -> bool {
    match a {
        SpecFieldAttribute::Shared(s) => spec_shared_listable(cp, s),
        SpecFieldAttribute::ConstantValue(idx) => spec_raw_listable(cp, ft, idx),
    }
}

/// The lines of a field attribute at depth `d`.
pub open spec fn spec_field_attribute_lines(
    cp: Seq<SpecConstantEntry>,
    ft: Seq<Option<Seq<char>>>,
    a: SpecFieldAttribute,
    d: usize,
) -> SpecListing {
    match a {
        SpecFieldAttribute::Shared(s) => spec_shared_lines(cp, s, d),
        SpecFieldAttribute::ConstantValue(idx) => spec_line(
            d,
            match spec_raw_listing_text(cp, ft, idx) {
                Err(e) => Err(e),
                Ok(t) => Ok("ConstantValue: "@ + t),
            },
        ),
    }
}

impl FieldAttribute {
    /// Appends the lines of this attribute at depth `depth`.
    pub fn javap_fmt(
        &self,
        cp: &ConstantPool,
        ft: &Vec<Option<String>>,
        depth: usize,
        out: &mut Vec<JavapLine>,
    ) -> (r: Result<(), ClassFormatErr>)
        requires
            depth + 3 <= usize::MAX,
            spec_field_attribute_listable(cp@, opt_views(ft@), self@),
        ensures
            appended(r, old(out)@, final(out)@, spec_field_attribute_lines(cp@, opt_views(ft@), self@, depth)),
    {
        match self {
            FieldAttribute::Shared(shared) => shared.javap_fmt(cp, depth, out),
            FieldAttribute::ConstantValue(idx) => {
                let ghost before = spec_lines(out@);
                let t = raw_listing_text(cp, ft, *idx)?;
                let mut s = "ConstantValue: ".to_string();
                s.append(t.as_str());
                emit(out, depth, s);
                assert(spec_lines(out@) =~= before + spec_field_attribute_lines(cp@, opt_views(ft@), self@, depth)->Ok_0);
                Ok(())
            },
        }
    }
}

/// A class name as javap shows it, as a function of its `Class` entry's index.
pub open spec fn javap_class_name_fn(cp: Seq<SpecConstantEntry>) -> spec_fn(u16) -> SpecText {
    |idx: u16| spec_get_javap_class_name(cp, idx)
}

/// The classes a method throws, joined by `, `.
pub open spec fn spec_exceptions_text(cp: Seq<SpecConstantEntry>, exc: Seq<u16>) -> SpecText {
    spec_try_join_each(exc, javap_class_name_fn(cp), ", "@)
}

/// The line of a method parameter: its name, or `<no name>`, padded to 32 columns, and
/// its modifiers.
pub open spec fn method_param_fn(cp: Seq<SpecConstantEntry>, d: usize) -> spec_fn(int, MethodParameterEntry) -> SpecListing {
    |i: int, p: MethodParameterEntry|
        spec_line(
            d,
            match (if p.name_index == 0 {
                Ok("<no name>"@)
            } else {
                spec_get_utf8(cp, p.name_index)
            }) {
                Err(e) => Err(e),
                Ok(n) => Ok(spec_pad_right(n, 32) + " "@ + spec_param_prefix(p.access_flags)),
            },
        )
}

/// Whether javap can list a method attribute: a `Code` attribute must be listable, a
/// default value of an annotation element is not listed, and the pairs of parameter
/// annotations must have descriptor forms.
pub open spec fn spec_method_attribute_listable(
    cp: Seq<SpecConstantEntry>,
    ft: Seq<Option<Seq<char>>>,
    a: SpecMethodAttribute,
) -> bool {
    match a {
        SpecMethodAttribute::Shared(s) => spec_shared_listable(cp, s),
        SpecMethodAttribute::Code(c) => spec_code_listable(cp, ft, c),
        SpecMethodAttribute::RuntimeVisibleParameterAnnotations(ps) => forall|i: int|
            0 <= i < ps.len() ==> spec_param_annotations_shown(#[trigger] ps[i]),
        SpecMethodAttribute::RuntimeInvisibleParameterAnnotations(ps) => forall|i: int|
            0 <= i < ps.len() ==> spec_param_annotations_shown(#[trigger] ps[i]),
        SpecMethodAttribute::AnnotationsDefault => false,
        _ => true,
    }
}

/// The lines of a method attribute at depth `d`, for a method with `param_count`
/// parameters, static or not, of the class `this`.
#[verifier::opaque]
pub open spec fn spec_method_attribute_lines(
    cp: Seq<SpecConstantEntry>,
    ft: Seq<Option<Seq<char>>>,
    a: SpecMethodAttribute,
    param_count: nat,
    this: u16,
    is_static: bool,
    d: usize,
) -> SpecListing {
    let d1 = (d + 1) as usize;
    match a {
        SpecMethodAttribute::Shared(s) => spec_shared_lines(cp, s, d),
        SpecMethodAttribute::Code(c) => spec_code_lines(cp, ft, c, param_count, this, is_static, d),
        SpecMethodAttribute::Exceptions(exc) => spec_cat(
            Ok(seq![(d, "Exceptions:"@)]),
            spec_line(
                d1,
                match spec_exceptions_text(cp, exc) {
                    Err(e) => Err(e),
                    Ok(s) => Ok("throws "@ + s),
                },
            ),
        ),
        SpecMethodAttribute::RuntimeVisibleParameterAnnotations(ps) => spec_parameter_annotations_lines(
            cp,
            "RuntimeVisibleParameterAnnotations:"@,
            ps,
            d,
        ),
        SpecMethodAttribute::RuntimeInvisibleParameterAnnotations(ps) => spec_parameter_annotations_lines(
            cp,
            "RuntimeInvisibleParameterAnnotations:"@,
            ps,
            d,
        ),
        SpecMethodAttribute::MethodParameters(params) => spec_cat(
            Ok(seq![(d, "MethodParameters:"@), (d1, spec_pad_right("Name"@, 32) + " Flags"@)]),
            spec_each(params, method_param_fn(cp, d1)),
        ),
        _ => Ok(seq![]),
    }
}

/// The classes a method throws, joined by `, `.
fn exceptions_text(cp: &ConstantPool, exc: &Vec<u16>) -> (r: Result<String, ClassFormatErr>)
    ensures
        text_is(r, spec_exceptions_text(cp@, exc@)),
{
    let ghost f = javap_class_name_fn(cp@);
    let mut s = String::new();
    let mut i: usize = 0;
    while i < exc.len()
        invariant
            i <= exc@.len(),
            f == javap_class_name_fn(cp@),
            spec_try_join_each(exc@.take(i as int), f, ", "@) == SpecText::Ok(s@),
        decreases exc@.len() - i,
    {
        proof {
            lemma_try_join_each_step(exc@, f, ", "@, i as int);
        }
        match cp.get_javap_class_name(&exc[i]) {
            Err(e) => {
                proof {
                    lemma_try_join_each_err(exc@, f, ", "@, i + 1);
                }
                return Err(e);
            },
            Ok(t) => {
                if i > 0 {
                    s.append(", ");
                }
                s.append(t.as_str());
            },
        }
        i = i + 1;
    }
    proof {
        assert(exc@.take(exc@.len() as int) =~= exc@);
    }
    Ok(s)
}

/// Appends the lines of the method parameters, each at depth `d`.
fn method_param_lines(cp: &ConstantPool, params: &Vec<MethodParameterEntry>, d: usize, out: &mut Vec<JavapLine>) -> (r: Result<
    (),
    ClassFormatErr,
>)
    ensures
        appended(r, old(out)@, final(out)@, spec_each(params@, method_param_fn(cp@, d))),
{
    let ghost f = method_param_fn(cp@, d);
    let ghost start = spec_lines(out@);
    let ghost mut ls: Seq<(usize, Seq<char>)> = seq![];
    let mut i: usize = 0;
    while i < params.len()
        invariant
            i <= params@.len(),
            f == method_param_fn(cp@, d),
            spec_each(params@.take(i as int), f) == SpecListing::Ok(ls),
            spec_lines(out@) == start + ls,
            start == spec_lines(old(out)@),
        decreases params@.len() - i,
    {
        proof {
            lemma_each_step(params@, f, i as int);
        }
        let p = params[i];
        let name = if p.name_index == 0 {
            "<no name>".to_string()
        } else {
            match cp.get_utf8(&p.name_index) {
                Err(x) => {
                    proof {
                        lemma_each_err(params@, f, i + 1);
                    }
                    return Err(x);
                },
                Ok(n) => n.to_string(),
            }
        };
        let mut s = String::new();
        push_padded_right(&mut s, name.as_str(), 32);
        s.append(" ");
        let flags = MethodParamFlags::new(p.access_flags).javap_fmt();
        s.append(flags.as_str());
        let ghost sv = s@;
        emit(out, d, s);
        proof {
            ls = ls + seq![(d, sv)];
            assert(spec_lines(out@) =~= start + ls);
        }
        i = i + 1;
    }
    proof {
        lemma_each_all(params@, f);
    }
    Ok(())
}

impl MethodAttribute {
    /// Appends the lines of this attribute at depth `depth`, for a method with
    /// `param_count` parameters, static or not; `this` is the class being shown.
    pub fn javap_fmt(
        &self,
        cp: &ConstantPool,
        ft: &Vec<Option<String>>,
        param_count: usize,
        this: &u16,
        is_static: bool,
        depth: usize,
        out: &mut Vec<JavapLine>,
    ) -> (r: Result<(), ClassFormatErr>)
        requires
            depth + 4 <= usize::MAX,
            param_count < usize::MAX,
            spec_method_attribute_listable(cp@, opt_views(ft@), self@),
        ensures
            appended(
                r,
                old(out)@,
                final(out)@,
                spec_method_attribute_lines(cp@, opt_views(ft@), self@, param_count as nat, *this, is_static, depth),
            ),
    {
        proof {
            reveal(spec_method_attribute_lines);
        }
        let ghost before = spec_lines(out@);
        let d1 = depth + 1;
        match self {
            MethodAttribute::Shared(shared) => shared.javap_fmt(cp, depth, out),
            MethodAttribute::Code(code) => code.javap_fmt(cp, ft, param_count, this, is_static, depth, out),
            MethodAttribute::Exceptions(exc) => {
                emit(out, depth, "Exceptions:".to_string());
                let names = exceptions_text(cp, exc)?;
                let mut s = "throws ".to_string();
                s.append(names.as_str());
                emit(out, d1, s);
                assert(spec_lines(out@) =~= before + spec_method_attribute_lines(
                    cp@,
                    opt_views(ft@),
                    self@,
                    param_count as nat,
                    *this,
                    is_static,
                    depth,
                )->Ok_0);
                Ok(())
            },
            MethodAttribute::RuntimeVisibleParameterAnnotations(ps) => fmt_parameter_annotations(
                cp,
                "RuntimeVisibleParameterAnnotations:",
                ps,
                depth,
                out,
            ),
            MethodAttribute::RuntimeInvisibleParameterAnnotations(ps) => fmt_parameter_annotations(
                cp,
                "RuntimeInvisibleParameterAnnotations:",
                ps,
                depth,
                out,
            ),
            MethodAttribute::MethodParameters(params) => {
                emit(out, depth, "MethodParameters:".to_string());
                let mut head = String::new();
                push_padded_right(&mut head, "Name", 32);
                head.append(" Flags");
                emit(out, d1, head);
                let r = method_param_lines(cp, params, d1, out);
                if r.is_err() {
                    return r;
                }
                assert(spec_lines(out@) =~= before + spec_method_attribute_lines(
                    cp@,
                    opt_views(ft@),
                    self@,
                    param_count as nat,
                    *this,
                    is_static,
                    depth,
                )->Ok_0);
                Ok(())
            },
            _ => Ok(()),
        }
    }
}

} // verus!
