//! The `javap -v` listing of a class file: its declaration, versions and flags, its
//! constant pool, its fields and methods, and its attributes.
//!
//! Types are shown as Java source writes them. Parsing descriptors and generic
//! signatures into types is not done here: [`ClassTypeText`] holds what that parse
//! gives for the class and each of its members.

use crate::attribute::class::{ClassAttribute, SpecClassAttribute};
use crate::attribute::shared::{SharedAttribute, SpecSharedAttribute};
use crate::attribute::kind::str_eq;
use crate::class_file::{ClassFile, SpecClassFile};
use crate::constant_pool::entry::spec_entry_kind;
use crate::constant_pool::kind::spec_constant_kind_name;
use crate::constant_pool::pool::{spec_get_class_name, spec_get_javap_class_name, spec_get_utf8};
use crate::constant_pool::{ConstantEntry, ConstantPool, SpecConstantEntry};
use crate::error::ClassFormatErr;
use crate::javap_fmt::attribute::{javap_class_name_fn, spec_class_attribute_lines, spec_class_attribute_listable};
use crate::javap_fmt::constant_pool::{constant_text, opt_views, spec_has_javap_line, spec_is_float, spec_javap_line, spec_text_at};
use crate::javap_fmt::field::{spec_field_lines, spec_field_listable};
use crate::javap_fmt::flags::{spec_class_flag_list, spec_class_prefix};
use crate::javap_fmt::lines::{
    JavapLine, SpecListing, SpecText, appended, emit, lemma_each_all, lemma_each_err, lemma_each_step,
    lemma_try_join_each_err, lemma_try_join_each_step, spec_cat, spec_each, spec_line, spec_lines, spec_try_join_each,
    text_is,
};
use crate::javap_fmt::method::{MethodTypeText, SpecMethodTypeText, spec_method_lines, spec_method_listable, string_views};
use crate::javap_fmt::{fmt_class_name, spec_fmt_class_name, word};
use crate::read::views;
use crate::text::{push_decimal, push_digits, push_hex4, push_padded_left, push_padded_right, spec_decimal, spec_hex4, spec_pad_left, spec_pad_right};
use vstd::prelude::*;

verus! {

/// The types of a class and of its members as Java source writes them, as a parser of
/// descriptors and generic signatures gives them.
#[derive(Debug, Clone)]
pub struct ClassTypeText {
    /// The class's generic signature, where it has a `Signature` attribute.
    pub signature: Option<String>,
    /// The type of each field, in the order of the fields.
    pub field_types: Vec<String>,
    /// The types of each method, in the order of the methods.
    pub method_types: Vec<MethodTypeText>,
    /// The number of parameters of each method's descriptor, in the order of the methods.
    pub method_param_counts: Vec<usize>,
    /// By constant pool slot, the text of each `Float` and `Double` constant as javap
    /// writes it (such as `1.5f` or `2.0d`); other slots may hold `None`.
    pub constant_texts: Vec<Option<String>>,
}

/// Mathematical counterpart of [`ClassTypeText`].
pub struct SpecClassTypeText {
    pub signature: Option<Seq<char>>,
    pub field_types: Seq<Seq<char>>,
    pub method_types: Seq<SpecMethodTypeText>,
    pub method_param_counts: Seq<usize>,
    pub constant_texts: Seq<Option<Seq<char>>>,
}

impl View for ClassTypeText {
    type V = SpecClassTypeText;

    open spec fn view(&self) -> SpecClassTypeText {
        SpecClassTypeText {
            signature: match self.signature {
                Some(s) => Some(s@),
                None => None,
            },
            field_types: string_views(self.field_types@),
            method_types: views(self.method_types@),
            method_param_counts: self.method_param_counts@,
            constant_texts: opt_views(self.constant_texts@),
        }
    }
}

/// The index of the first `Signature` attribute among a class's attributes.
pub open spec fn spec_first_class_signature(attrs: Seq<SpecClassAttribute>) -> Option<u16>
    decreases attrs.len(),
{
    if attrs.len() == 0 {
        None
    } else {
        match attrs[0] {
            SpecClassAttribute::Shared(SpecSharedAttribute::Signature(i)) => Some(i),
            _ => spec_first_class_signature(attrs.drop_first()),
        }
    }
}

/// What follows the class's name in its declaration: nothing for a class without a
/// superclass; its generic signature where it has one; else `extends` and the
/// superclass unless that is `java.lang.Object` or the class is an interface, and
/// `implements` (for an interface, `extends`) and its interfaces where it has any.
pub open spec fn spec_generic_signature(cp: Seq<SpecConstantEntry>, c: SpecClassFile, t: SpecClassTypeText) -> SpecText {
    if c.super_class == 0 {
        Ok(seq![])
    } else {
        match spec_get_javap_class_name(cp, c.super_class) {
            Err(e) => Err(e),
            Ok(sup) => {
                let is_object = sup == "java.lang.Object"@;
                let iface = crate::flags::has_flag(c.access_flags, 0x0200);
                match spec_first_class_signature(c.attributes) {
                    Some(si) => match spec_get_utf8(cp, si) {
                        Err(e) => Err(e),
                        Ok(_) => Ok(t.signature->Some_0),
                    },
                    None => if !is_object || c.interfaces.len() > 0 {
                        match spec_try_join_each(c.interfaces, javap_class_name_fn(cp), ", "@) {
                            Err(e) => Err(e),
                            Ok(names) => Ok(
                                word(!is_object && !iface, "extends "@ + sup + word(c.interfaces.len() > 0, " "@)) + (if c.interfaces.len() > 0 {
                                    (if iface {
                                        "extends "@
                                    } else {
                                        "implements "@
                                    }) + names
                                } else {
                                    seq![]
                                }),
                            ),
                        }
                    } else {
                        Ok(seq![])
                    },
                }
            },
        }
    }
}

/// The declaration line of a class: its modifiers, its name and what follows it.
#[verifier::opaque]
pub open spec fn spec_class_declaration(cp: Seq<SpecConstantEntry>, c: SpecClassFile, t: SpecClassTypeText) -> SpecText {
    match spec_get_class_name(cp, c.this_class) {
        Err(e) => Err(e),
        Ok(n) => match spec_generic_signature(cp, c, t) {
            Err(e) => Err(e),
            Ok(g) => Ok(spec_class_prefix(c.access_flags, false) + spec_fmt_class_name(n) + " "@ + g),
        },
    }
}

impl ClassFile {
    /// The index of the first `Signature` attribute of this class.
    fn first_signature(&self) -> (r: Option<u16>)
        ensures
            r == spec_first_class_signature(self@.attributes),
    {
        let ghost attrs = self@.attributes;
        assert(attrs.skip(0) =~= attrs);
        let mut i: usize = 0;
        while i < self.attributes.len()
            invariant
                i <= self.attributes@.len(),
                attrs == views(self.attributes@),
                spec_first_class_signature(attrs) == spec_first_class_signature(attrs.skip(i as int)),
            decreases self.attributes@.len() - i,
        {
            assert(attrs.skip(i as int)[0] == self.attributes@[i as int]@);
            assert(attrs.skip(i as int).drop_first() =~= attrs.skip(i + 1));
            if let ClassAttribute::Shared(SharedAttribute::Signature(sig_index)) = &self.attributes[i] {
                return Some(*sig_index);
            }
            i = i + 1;
        }
        assert(attrs.skip(i as int) =~= Seq::<SpecClassAttribute>::empty());
        None
    }

    /// What follows the class's name in its declaration.
    pub fn fmt_generic_signature(&self, types: &ClassTypeText) -> (r: Result<String, ClassFormatErr>)
        requires
            spec_first_class_signature(self@.attributes) is Some ==> types@.signature is Some,
        ensures
            text_is(r, spec_generic_signature(self@.cp, self@, types@)),
    {
        if self.super_class == 0 {
            return Ok(String::new());
        }
        let super_class_name = self.cp.get_javap_class_name(&self.super_class)?;
        let super_is_object = str_eq(super_class_name.as_str(), "java.lang.Object");
        let iface = self.access_flags.is_interface();
        if let Some(sig_index) = self.first_signature() {
            let _raw_sig = self.cp.get_utf8(&sig_index)?;
            return match &types.signature {
                Some(s) => Ok(s.as_str().to_string()),
                None => Ok(String::new()),
            };
        }
        if super_is_object && self.interfaces.len() == 0 {
            return Ok(String::new());
        }
        let ghost f = javap_class_name_fn(self.cp@);
        let mut names = String::new();
        let mut i: usize = 0;
        while i < self.interfaces.len()
            invariant
                i <= self.interfaces@.len(),
                f == javap_class_name_fn(self.cp@),
                spec_try_join_each(self.interfaces@.take(i as int), f, ", "@) == SpecText::Ok(names@),
                spec_get_javap_class_name(self.cp@, self.super_class) == SpecText::Ok(super_class_name@),
                spec_first_class_signature(self@.attributes) is None,
                self.super_class != 0,
                !(super_is_object && self.interfaces@.len() == 0),
            decreases self.interfaces@.len() - i,
        {
            proof {
                lemma_try_join_each_step(self.interfaces@, f, ", "@, i as int);
            }
            match self.cp.get_javap_class_name(&self.interfaces[i]) {
                Err(e) => {
                    proof {
                        lemma_try_join_each_err(self.interfaces@, f, ", "@, i + 1);
                    }
                    return Err(e);
                },
                Ok(n) => {
                    if i > 0 {
                        names.append(", ");
                    }
                    names.append(n.as_str());
                },
            }
            i = i + 1;
        }
        proof {
            assert(self.interfaces@.take(self.interfaces@.len() as int) =~= self.interfaces@);
        }
        let mut out = String::new();
        if !super_is_object && !iface {
            out.append("extends ");
            out.append(super_class_name.as_str());
            if self.interfaces.len() != 0 {
                out.append(" ");
            }
        }
        if self.interfaces.len() != 0 {
            if iface {
                out.append("extends ");
            } else {
                out.append("implements ");
            }
            out.append(names.as_str());
        }
        proof {
            assert(out@ =~= spec_generic_signature(self@.cp, self@, types@)->Ok_0);
        }
        Ok(out)
    }

    /// The declaration line of this class.
    pub fn fmt_java_like_signature(&self, types: &ClassTypeText) -> (r: Result<String, ClassFormatErr>)
        requires
            spec_first_class_signature(self@.attributes) is Some ==> types@.signature is Some,
        ensures
            text_is(r, spec_class_declaration(self@.cp, self@, types@)),
    {
        proof {
            reveal(spec_class_declaration);
        }
        let mut out = self.access_flags.javap_fmt_java_like_prefix();
        let name = self.cp.get_class_name(&self.this_class)?;
        let n = fmt_class_name(name);
        out.append(n.as_str());
        out.append(" ");
        let g = self.fmt_generic_signature(types)?;
        out.append(g.as_str());
        Ok(out)
    }
}

/// The number of decimal digits of `n` less one, for `n` above zero.
pub open spec fn spec_ilog10(n: nat) -> nat
    decreases n,
{
    if n < 10 {
        0
    } else {
        1 + spec_ilog10(n / 10)
    }
}

/// The width of the index column of a constant pool listing of `n` slots: the digits of
/// `n` and one more, or two for an empty pool.
pub open spec fn spec_counter_width(n: nat) -> nat {
    (if n == 0 {
        0
    } else {
        spec_ilog10(n)
    }) + 2
}

/// The line of slot `i` of the constant pool listing: its index right-aligned in `w`
/// columns, its kind padded to 18, then what [`spec_javap_line`] gives; nothing for an
/// unused slot.
pub open spec fn cp_entry_fn(cp: Seq<SpecConstantEntry>, ft: Seq<Option<Seq<char>>>, w: nat, d: usize) -> spec_fn(int, SpecConstantEntry) -> SpecListing {
    |i: int, e: SpecConstantEntry|
        if e is Unused {
            Ok(seq![])
        } else {
            spec_line(
                d,
                match (if spec_is_float(e) {
                    Ok(spec_text_at(ft, i)->Some_0)
                } else {
                    spec_javap_line(cp, e)
                }) {
                    Err(x) => Err(x),
                    Ok(s) => Ok(
                        spec_pad_left("#"@ + spec_decimal(i), w) + " = "@ + spec_pad_right(
                            spec_constant_kind_name(spec_entry_kind(e)),
                            18,
                        ) + " "@ + s,
                    ),
                },
            )
        }
}

/// The lines of a class's versions, flags, own and super class, and numbers of
/// interfaces, fields, methods and attributes, at depth 1.
#[verifier::opaque]
pub open spec fn spec_head_lines(c: SpecClassFile) -> SpecListing {
    match spec_get_class_name(c.cp, c.this_class) {
        Err(e) => Err(e),
        Ok(tn) => match (if c.super_class != 0 {
            match spec_get_class_name(c.cp, c.super_class) {
                Err(e) => Err(e),
                Ok(sn) => Ok("//"@ + sn),
            }
        } else {
            Ok(seq![])
        }) {
            Err(e) => Err(e),
            Ok(sc) => Ok(
                seq![
                    (1usize, "minor version: "@ + spec_decimal(c.minor_version as int)),
                    (1usize, "major version: "@ + spec_decimal(c.major_version as int)),
                    (
                        1usize,
                        "flags: (0x"@ + spec_hex4(c.access_flags, true) + ") "@ + spec_class_flag_list(c.access_flags),
                    ),
                    (1usize, "this_class: "@ + spec_pad_right("#"@ + spec_decimal(c.this_class as int), 24) + " //"@ + tn),
                    (1usize, "super_class: "@ + spec_pad_right("#"@ + spec_decimal(c.super_class as int), 24) + sc),
                    (
                        1usize,
                        "interfaces: "@ + spec_decimal(c.interfaces.len() as int) + ", fields: "@ + spec_decimal(
                            c.fields.len() as int,
                        ) + ", methods: "@ + spec_decimal(c.methods.len() as int) + ", attributes: "@ + spec_decimal(
                            c.attributes.len() as int,
                        ),
                    ),
                ],
            ),
        },
    }
}

/// The digits of a number above zero, less one, are at most half the number.
proof fn lemma_ilog10_bound(x: nat)
    requires
        x >= 1,
    ensures
        spec_ilog10(x) <= x / 2,
    decreases x,
{
    if x >= 10 {
        lemma_ilog10_bound(x / 10);
    }
}

/// The digits of `n` less one.
fn ilog10(n: usize) -> (r: usize)
    requires
        n > 0,
    ensures
        r == spec_ilog10(n as nat),
        r <= n / 2,
{
    proof {
        lemma_ilog10_bound(n as nat);
    }
    let mut m = n;
    let mut k: usize = 0;
    while m >= 10
        invariant
            m > 0,
            spec_ilog10(n as nat) <= n / 2,
            k + spec_ilog10(m as nat) == spec_ilog10(n as nat),
        decreases m,
    {
        m = m / 10;
        k = k + 1;
    }
    k
}

/// Whether javap can list slot `i` of `cp`: an empty slot, an entry whose line the pool
/// listing makes, or a floating-point constant whose text `ft` holds.
pub open spec fn spec_slot_listable(cp: Seq<SpecConstantEntry>, ft: Seq<Option<Seq<char>>>, i: int) -> bool {
    ||| cp[i] is Unused
    ||| spec_has_javap_line(cp[i])
    ||| spec_is_float(cp[i]) && spec_text_at(ft, i) is Some
}

/// Appends the slots of the constant pool, each at depth `d`, with an index column `w`
/// wide.
fn cp_entry_lines(cp: &ConstantPool, ft: &Vec<Option<String>>, w: usize, d: usize, out: &mut Vec<JavapLine>) -> (r: Result<(), ClassFormatErr>)
    requires
        forall|i: int| 0 <= i < cp@.len() ==> spec_slot_listable(cp@, opt_views(ft@), i),
    ensures
        appended(r, old(out)@, final(out)@, spec_each(cp@, cp_entry_fn(cp@, opt_views(ft@), w as nat, d))),
{
    let ghost f = cp_entry_fn(cp@, opt_views(ft@), w as nat, d);
    let ghost start = spec_lines(out@);
    let ghost mut ls: Seq<(usize, Seq<char>)> = seq![];
    let mut i: usize = 0;
    while i < cp.inner.len()
        invariant
            i <= cp@.len(),
            cp@.len() == cp.inner@.len(),
            f == cp_entry_fn(cp@, opt_views(ft@), w as nat, d),
            forall|i: int| 0 <= i < cp@.len() ==> spec_slot_listable(cp@, opt_views(ft@), i),
            spec_each(cp@.take(i as int), f) == SpecListing::Ok(ls),
            spec_lines(out@) == start + ls,
            start == spec_lines(old(out)@),
        decreases cp@.len() - i,
    {
        proof {
            lemma_each_step(cp@, f, i as int);
        }
        let e = &cp.inner[i];
        assert(cp@[i as int] == e@);
        if let ConstantEntry::Unused = e {
            proof {
                assert(ls + seq![] =~= ls);
            }
        } else {
            assert(spec_slot_listable(cp@, opt_views(ft@), i as int));
            let text = match e {
                ConstantEntry::Float(_) => match constant_text(ft, i) {
                    Some(t) => Ok(t.to_string()),
                    None => Ok(String::new()),
                },
                ConstantEntry::Double(_) => match constant_text(ft, i) {
                    Some(t) => Ok(t.to_string()),
                    None => Ok(String::new()),
                },
                _ => e.javap_fmt(cp),
            };
            match text {
                Err(x) => {
                    proof {
                        lemma_each_err(cp@, f, i + 1);
                    }
                    return Err(x);
                },
                Ok(s) => {
                    let mut line = String::new();
                    let mut idx = "#".to_string();
                    push_digits(&mut idx, i as u64);
                    push_padded_left(&mut line, idx.as_str(), w);
                    line.append(" = ");
                    push_padded_right(&mut line, e.get_kind().as_str(), 18);
                    line.append(" ");
                    line.append(s.as_str());
                    let ghost lv = line@;
                    emit(out, d, line);
                    proof {
                        ls = ls + seq![(d, lv)];
                        assert(spec_lines(out@) =~= start + ls);
                    }
                },
            }
        }
        i = i + 1;
    }
    proof {
        lemma_each_all(cp@, f);
    }
    Ok(())
}

impl ClassFile {
    /// Appends the lines of this class's versions, flags, own and super class, and
    /// numbers of members, at depth 1.
    fn head_lines(&self, out: &mut Vec<JavapLine>) -> (r: Result<(), ClassFormatErr>)
        ensures
            appended(r, old(out)@, final(out)@, spec_head_lines(self@)),
    {
        proof {
            reveal(spec_head_lines);
        }
        let ghost before = spec_lines(out@);
        let tn = self.cp.get_class_name(&self.this_class)?;
        let sc: String = if self.super_class != 0 {
            let sn = self.cp.get_class_name(&self.super_class)?;
            let mut s = "//".to_string();
            s.append(sn);
            s
        } else {
            String::new()
        };
        let mut l1 = "minor version: ".to_string();
        push_decimal(&mut l1, self.minor_version as i64);
        emit(out, 1, l1);
        let mut l2 = "major version: ".to_string();
        push_decimal(&mut l2, self.major_version as i64);
        emit(out, 1, l2);
        let mut l3 = "flags: (0x".to_string();
        push_hex4(&mut l3, *self.access_flags.get_raw(), true);
        l3.append(") ");
        let list = self.access_flags.fmt_class_javap_like_list();
        l3.append(list.as_str());
        emit(out, 1, l3);
        let mut this_idx = "#".to_string();
        push_decimal(&mut this_idx, self.this_class as i64);
        let mut l4 = "this_class: ".to_string();
        push_padded_right(&mut l4, this_idx.as_str(), 24);
        l4.append(" //");
        l4.append(tn);
        emit(out, 1, l4);
        let mut super_idx = "#".to_string();
        push_decimal(&mut super_idx, self.super_class as i64);
        let mut l5 = "super_class: ".to_string();
        push_padded_right(&mut l5, super_idx.as_str(), 24);
        l5.append(sc.as_str());
        emit(out, 1, l5);
        let mut l6 = "interfaces: ".to_string();
        push_digits(&mut l6, self.interfaces.len() as u64);
        l6.append(", fields: ");
        push_digits(&mut l6, self.fields.len() as u64);
        l6.append(", methods: ");
        push_digits(&mut l6, self.methods.len() as u64);
        l6.append(", attributes: ");
        push_digits(&mut l6, self.attributes.len() as u64);
        emit(out, 1, l6);
        assert(spec_lines(out@) =~= before + spec_head_lines(self@)->Ok_0);
        Ok(())
    }
}

/// The lines of field number `i` of `n`, followed by an empty line unless it is the last.
pub open spec fn field_fn(cp: Seq<SpecConstantEntry>, ft: Seq<Option<Seq<char>>>, types: Seq<Seq<char>>, n: int, d: usize) -> spec_fn(int, crate::member::field::SpecFieldInfo) -> SpecListing {
    |i: int, f: crate::member::field::SpecFieldInfo|
        spec_cat(
            spec_field_lines(cp, ft, f, types[i], d),
            if i + 1 < n {
                Ok(seq![(d, Seq::<char>::empty())])
            } else {
                Ok(seq![])
            },
        )
}

/// The lines of method number `i` of `n`, followed by an empty line unless it is the
/// last.
pub open spec fn method_fn(
    cp: Seq<SpecConstantEntry>,
    ft: Seq<Option<Seq<char>>>,
    this: u16,
    class_flags: u16,
    types: Seq<SpecMethodTypeText>,
    counts: Seq<usize>,
    n: int,
    d: usize,
) -> spec_fn(int, crate::member::method::SpecMethodInfo) -> SpecListing {
    |i: int, m: crate::member::method::SpecMethodInfo|
        spec_cat(
            spec_method_lines(cp, ft, m, this, class_flags, types[i], counts[i] as nat, d),
            if i + 1 < n {
                Ok(seq![(d, Seq::<char>::empty())])
            } else {
                Ok(seq![])
            },
        )
}

/// The lines of a class attribute, as a function of the attribute.
pub open spec fn class_attribute_fn(cp: Seq<SpecConstantEntry>, ft: Seq<Option<Seq<char>>>, d: usize) -> spec_fn(int, SpecClassAttribute) -> SpecListing {
    |i: int, a: SpecClassAttribute| spec_class_attribute_lines(cp, ft, a, d)
}

/// Whether javap can list a class with the types `t`: `t` has the text of each of its
/// floating-point constants and the types of each member, and every member and
/// attribute is listable.
pub open spec fn spec_class_listable(c: SpecClassFile, t: SpecClassTypeText) -> bool {
    &&& forall|i: int| 0 <= i < c.cp.len() ==> spec_slot_listable(c.cp, t.constant_texts, i)
    &&& t.field_types.len() == c.fields.len()
    &&& t.method_types.len() == c.methods.len()
    &&& t.method_param_counts.len() == c.methods.len()
    &&& forall|i: int| 0 <= i < c.methods.len() ==> #[trigger] t.method_param_counts[i] < usize::MAX
    &&& forall|i: int| 0 <= i < c.fields.len() ==> spec_field_listable(c.cp, t.constant_texts, #[trigger] c.fields[i])
    &&& forall|i: int| 0 <= i < c.methods.len() ==> spec_method_listable(c.cp, t.constant_texts, #[trigger] c.methods[i])
    &&& forall|i: int| 0 <= i < c.attributes.len() ==> spec_class_attribute_listable(c.cp, t.constant_texts, #[trigger] c.attributes[i])
    &&& spec_first_class_signature(c.attributes) is Some ==> t.signature is Some
}

/// The listing of a class: its declaration, then one level deeper its versions, flags,
/// own and super class and numbers of members; `Constant pool:` and its slots one level
/// deeper; its fields and methods one level deeper between braces, an empty line after
/// each but the last method; then its attributes.
pub open spec fn spec_class_lines(c: SpecClassFile, t: SpecClassTypeText) -> SpecListing {
    let cp = c.cp;
    spec_cat(
        spec_cat(
            spec_cat(
                spec_cat(
                    spec_line(0, spec_class_declaration(cp, c, t)),
                    spec_head_lines(c),
                ),
                spec_cat(
                    Ok(seq![(0usize, "Constant pool:"@)]),
                    spec_each(cp, cp_entry_fn(cp, t.constant_texts, spec_counter_width(cp.len()), 1)),
                ),
            ),
            spec_cat(
                spec_cat(
                    Ok(seq![(0usize, "{"@)]),
                    spec_each(c.fields, field_fn(cp, t.constant_texts, t.field_types, c.fields.len() as int, 1)),
                ),
                if c.fields.len() > 0 {
                    Ok(seq![(1usize, Seq::<char>::empty())])
                } else {
                    Ok(seq![])
                },
            ),
        ),
        spec_cat(
            spec_cat(
                spec_each(
                    c.methods,
                    method_fn(cp, t.constant_texts, c.this_class, c.access_flags, t.method_types, t.method_param_counts, c.methods.len() as int, 1),
                ),
                Ok(seq![(0usize, "}"@)]),
            ),
            spec_each(c.attributes, class_attribute_fn(cp, t.constant_texts, 0)),
        ),
    )
}

impl ClassFile {
    /// Appends the lines of the fields, each at depth 1.
    #[verifier::spinoff_prover]
    #[verifier::rlimit(40)]
    fn field_lines(&self, types: &ClassTypeText, out: &mut Vec<JavapLine>) -> (r: Result<(), ClassFormatErr>)
        requires
            spec_class_listable(self@, types@),
        ensures
            appended(
                r,
                old(out)@,
                final(out)@,
                spec_each(self@.fields, field_fn(self@.cp, types@.constant_texts, types@.field_types, self@.fields.len() as int, 1)),
            ),
    {
        let ghost c = self@;
        let ghost t = types@;
        let n = self.fields.len();
        let ghost f = field_fn(c.cp, t.constant_texts, t.field_types, n as int, 1);
        let ghost start = spec_lines(out@);
        let ghost mut ls: Seq<(usize, Seq<char>)> = seq![];
        let mut i: usize = 0;
        while i < n
            invariant
                i <= n,
                n == c.fields.len(),
                c == self@,
                t == types@,
                spec_class_listable(c, t),
                f == field_fn(c.cp, t.constant_texts, t.field_types, n as int, 1),
                spec_each(c.fields.take(i as int), f) == SpecListing::Ok(ls),
                spec_lines(out@) == start + ls,
                start == spec_lines(old(out)@),
            decreases n - i,
        {
            proof {
                lemma_each_step(c.fields, f, i as int);
            }
            assert(c.fields[i as int] == self.fields@[i as int]@);
            assert(t.field_types[i as int] == types.field_types@[i as int]@);
            assert(spec_field_listable(c.cp, t.constant_texts, c.fields[i as int]));
            match self.fields[i].javap_fmt(&self.cp, &types.constant_texts, types.field_types[i].as_str(), 1, out) {
                Err(x) => {
                    proof {
                        lemma_each_err(c.fields, f, i + 1);
                    }
                    return Err(x);
                },
                Ok(()) => {},
            }
            if i + 1 < n {
                emit(out, 1, String::new());
            }
            proof {
                ls = ls + (f)(i as int, c.fields[i as int])->Ok_0;
                assert(spec_lines(out@) =~= start + ls);
            }
            i = i + 1;
        }
        proof {
            lemma_each_all(c.fields, f);
        }
        Ok(())
    }

    /// Appends the lines of the methods, each at depth 1.
    fn method_lines(&self, types: &ClassTypeText, out: &mut Vec<JavapLine>) -> (r: Result<(), ClassFormatErr>)
        requires
            spec_class_listable(self@, types@),
        ensures
            appended(
                r,
                old(out)@,
                final(out)@,
                spec_each(
                    self@.methods,
                    method_fn(
                        self@.cp,
                        types@.constant_texts,
                        self@.this_class,
                        self@.access_flags,
                        types@.method_types,
                        types@.method_param_counts,
                        self@.methods.len() as int,
                        1,
                    ),
                ),
            ),
    {
        let ghost c = self@;
        let ghost t = types@;
        let n = self.methods.len();
        let ghost f = method_fn(c.cp, t.constant_texts, c.this_class, c.access_flags, t.method_types, t.method_param_counts, n as int, 1);
        let ghost start = spec_lines(out@);
        let ghost mut ls: Seq<(usize, Seq<char>)> = seq![];
        let mut i: usize = 0;
        while i < n
            invariant
                i <= n,
                n == c.methods.len(),
                c == self@,
                t == types@,
                spec_class_listable(c, t),
                f == method_fn(c.cp, t.constant_texts, c.this_class, c.access_flags, t.method_types, t.method_param_counts, n as int, 1),
                spec_each(c.methods.take(i as int), f) == SpecListing::Ok(ls),
                spec_lines(out@) == start + ls,
                start == spec_lines(old(out)@),
            decreases n - i,
        {
            proof {
                lemma_each_step(c.methods, f, i as int);
            }
            assert(c.methods[i as int] == self.methods@[i as int]@);
            assert(t.method_types[i as int] == types.method_types@[i as int]@);
            assert(spec_method_listable(c.cp, t.constant_texts, c.methods[i as int]));
            assert(t.method_param_counts[i as int] < usize::MAX);
            match self.methods[i].javap_fmt(
                &self.cp,
                &types.constant_texts,
                &self.this_class,
                &self.access_flags,
                &types.method_types[i],
                types.method_param_counts[i],
                1,
                out,
            ) {
                Err(x) => {
                    proof {
                        lemma_each_err(c.methods, f, i + 1);
                    }
                    return Err(x);
                },
                Ok(()) => {},
            }
            if i + 1 < n {
                emit(out, 1, String::new());
            }
            proof {
                ls = ls + (f)(i as int, c.methods[i as int])->Ok_0;
                assert(spec_lines(out@) =~= start + ls);
            }
            i = i + 1;
        }
        proof {
            lemma_each_all(c.methods, f);
        }
        Ok(())
    }

    /// Appends the lines of the class's attributes, each at depth 0.
    fn attribute_lines(&self, ft: &Vec<Option<String>>, out: &mut Vec<JavapLine>) -> (r: Result<(), ClassFormatErr>)
        requires
            forall|i: int|
                0 <= i < self@.attributes.len() ==> spec_class_attribute_listable(self@.cp, opt_views(ft@), #[trigger] self@.attributes[i]),
        ensures
            appended(r, old(out)@, final(out)@, spec_each(self@.attributes, class_attribute_fn(self@.cp, opt_views(ft@), 0))),
    {
        let ghost vs = self@.attributes;
        let ghost f = class_attribute_fn(self@.cp, opt_views(ft@), 0);
        let ghost start = spec_lines(out@);
        let ghost mut ls: Seq<(usize, Seq<char>)> = seq![];
        let mut i: usize = 0;
        while i < self.attributes.len()
            invariant
                i <= self.attributes@.len(),
                vs == self@.attributes,
                f == class_attribute_fn(self@.cp, opt_views(ft@), 0),
                forall|i: int| 0 <= i < vs.len() ==> spec_class_attribute_listable(self@.cp, opt_views(ft@), #[trigger] vs[i]),
                spec_each(vs.take(i as int), f) == SpecListing::Ok(ls),
                spec_lines(out@) == start + ls,
                start == spec_lines(old(out)@),
            decreases self.attributes@.len() - i,
        {
            proof {
                lemma_each_step(vs, f, i as int);
            }
            assert(vs[i as int] == self.attributes@[i as int]@);
            match self.attributes[i].javap_fmt(&self.cp, ft, 0, out) {
                Err(x) => {
                    proof {
                        lemma_each_err(vs, f, i + 1);
                    }
                    return Err(x);
                },
                Ok(()) => {
                    proof {
                        ls = ls + spec_class_attribute_lines(self@.cp, opt_views(ft@), vs[i as int], 0)->Ok_0;
                        assert(spec_lines(out@) =~= start + ls);
                    }
                },
            }
            i = i + 1;
        }
        proof {
            lemma_each_all(vs, f);
        }
        Ok(())
    }

    /// The listing of this class in the style of `javap -v -p`, as lines with their
    /// depths; `types` holds the types of the class and its members as Java source
    /// writes them.
    #[verifier::spinoff_prover]
    #[verifier::rlimit(60)]
    pub fn javap_fmt(&self, types: &ClassTypeText) -> (r: Result<Vec<JavapLine>, ClassFormatErr>)
        requires
            spec_class_listable(self@, types@),
        ensures
            match spec_class_lines(self@, types@) {
                Ok(ls) => r matches Ok(v) && spec_lines(v@) == ls,
                Err(e) => r matches Err(x) && x@ == e,
            },
    {
        let mut out: Vec<JavapLine> = Vec::new();
        let decl = self.fmt_java_like_signature(types)?;
        emit(&mut out, 0, decl);
        self.head_lines(&mut out)?;
        emit(&mut out, 0, "Constant pool:".to_string());
        let n = self.cp.inner.len();
        let w: usize = if n == 0 {
            2
        } else {
            ilog10(n) + 2
        };
        cp_entry_lines(&self.cp, &types.constant_texts, w, 1, &mut out)?;
        emit(&mut out, 0, "{".to_string());
        self.field_lines(types, &mut out)?;
        if self.fields.len() != 0 {
            emit(&mut out, 1, String::new());
        }
        self.method_lines(types, &mut out)?;
        emit(&mut out, 0, "}".to_string());
        self.attribute_lines(&types.constant_texts, &mut out)?;
        assert(spec_lines(out@) =~= spec_class_lines(self@, types@)->Ok_0);
        Ok(out)
    }
}


/// The head of a class's listing shows, in this order, its minor version, its major
/// version, its flags, its own class index and its super class index, and its numbers of
/// interfaces, fields, methods and attributes.
pub proof fn lemma_head_lines_order(c: SpecClassFile)
    ensures
        spec_head_lines(c) matches Ok(ls) ==> {
            &&& ls.len() == 6
            &&& ls[0].1 == "minor version: "@ + spec_decimal(c.minor_version as int)
            &&& ls[1].1 == "major version: "@ + spec_decimal(c.major_version as int)
            &&& ("flags: (0x"@ + spec_hex4(c.access_flags, true) + ") "@ + spec_class_flag_list(c.access_flags)) == ls[2].1
            &&& ("this_class: "@ + spec_pad_right("#"@ + spec_decimal(c.this_class as int), 24)).is_prefix_of(ls[3].1)
            &&& ("super_class: "@ + spec_pad_right("#"@ + spec_decimal(c.super_class as int), 24)).is_prefix_of(ls[4].1)
            &&& ls[5].1 == "interfaces: "@ + spec_decimal(c.interfaces.len() as int) + ", fields: "@ + spec_decimal(
                c.fields.len() as int,
            ) + ", methods: "@ + spec_decimal(c.methods.len() as int) + ", attributes: "@ + spec_decimal(
                c.attributes.len() as int,
            )
        },
{
    reveal(spec_head_lines);
    if let Ok(ls) = spec_head_lines(c) {
        let a = "this_class: "@ + spec_pad_right("#"@ + spec_decimal(c.this_class as int), 24);
        assert(ls[3].1.subrange(0, a.len() as int) =~= a);
        let b = "super_class: "@ + spec_pad_right("#"@ + spec_decimal(c.super_class as int), 24);
        assert(ls[4].1.subrange(0, b.len() as int) =~= b);
    }
}

} // verus!
