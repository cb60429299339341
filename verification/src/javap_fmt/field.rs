//! The `javap -v` listing of a field.
//!
//! The type of a field is shown as Java source writes it, from its generic signature
//! where it has one and from its descriptor otherwise. Parsing that text into a type is
//! not done here: [`FieldInfo::javap_type_source`] says which text to parse, and
//! [`FieldInfo::javap_fmt`] takes the type as Java source writes it.

use crate::attribute::field::{FieldAttribute, SpecFieldAttribute};
use crate::attribute::shared::{SharedAttribute, SpecSharedAttribute};
use crate::constant_pool::pool::spec_get_utf8;
use crate::constant_pool::{ConstantPool, SpecConstantEntry};
use crate::error::ClassFormatErr;
use crate::javap_fmt::attribute::{spec_field_attribute_lines, spec_field_attribute_listable};
use crate::javap_fmt::constant_pool::opt_views;
use crate::javap_fmt::flags::{spec_field_flag_list, spec_field_prefix};
use crate::javap_fmt::lines::{
    JavapLine, SpecListing, SpecText, appended, emit, lemma_each_all, lemma_each_err, lemma_each_step, spec_cat,
    spec_each, spec_lines, text_is,
};
use crate::member::field::{FieldInfo, SpecFieldInfo};
use crate::read::views;
use crate::text::{push_hex4, spec_hex4};
use vstd::prelude::*;

verus! {

/// The index of the first `Signature` attribute among `attrs`, if there is one.
pub open spec fn spec_first_signature(attrs: Seq<SpecFieldAttribute>) -> Option<u16>
    decreases attrs.len(),
{
    if attrs.len() == 0 {
        None
    } else {
        match attrs[0] {
            SpecFieldAttribute::Shared(SpecSharedAttribute::Signature(i)) => Some(i),
            _ => spec_first_signature(attrs.drop_first()),
        }
    }
}

/// The text whose type javap shows for a field: its generic signature where it has a
/// `Signature` attribute, its descriptor `raw_descriptor` otherwise.
pub open spec fn spec_type_source(cp: Seq<SpecConstantEntry>, f: SpecFieldInfo, raw_descriptor: Seq<char>) -> SpecText {
    match spec_first_signature(f.attributes) {
        Some(i) => spec_get_utf8(cp, i),
        None => Ok(raw_descriptor),
    }
}

/// The lines of a field's attribute, as a function of the attribute.
pub open spec fn field_attribute_fn(cp: Seq<SpecConstantEntry>, ft: Seq<Option<Seq<char>>>, d: usize) -> spec_fn(int, SpecFieldAttribute) -> SpecListing {
    |k: int, a: SpecFieldAttribute| spec_field_attribute_lines(cp, ft, a, d)
}

/// The lines of a field at depth `d` whose type Java source writes `field_type`: its
/// modifiers, type and name, then one level deeper its descriptor, its flags and its
/// attributes.
pub open spec fn spec_field_lines(cp: Seq<SpecConstantEntry>, ft: Seq<Option<Seq<char>>>, f: SpecFieldInfo, field_type: Seq<char>, d: usize) -> SpecListing {
    let d1 = (d + 1) as usize;
    match spec_get_utf8(cp, f.descriptor_index) {
        Err(e) => Err(e),
        Ok(desc) => match spec_get_utf8(cp, f.name_index) {
            Err(e) => Err(e),
            Ok(name) => spec_cat(
                Ok(
                    seq![
                        (d, spec_field_prefix(f.access_flags) + field_type + " "@ + name + ";"@),
                        (d1, "descriptor: "@ + desc),
                        (d1, "flags: (0x"@ + spec_hex4(f.access_flags, false) + ") "@ + spec_field_flag_list(f.access_flags)),
                    ],
                ),
                spec_each(f.attributes, field_attribute_fn(cp, ft, d1)),
            ),
        },
    }
}

/// Whether javap can list every attribute of a field.
pub open spec fn spec_field_listable(cp: Seq<SpecConstantEntry>, ft: Seq<Option<Seq<char>>>, f: SpecFieldInfo) -> bool {
    forall|k: int| 0 <= k < f.attributes.len() ==> spec_field_attribute_listable(cp, ft, #[trigger] f.attributes[k])
}

/// Appends the lines of the attributes of a field, each at depth `d`.
fn field_attribute_lines(
    cp: &ConstantPool,
    ft: &Vec<Option<String>>,
    attrs: &Vec<FieldAttribute>,
    d: usize,
    out: &mut Vec<JavapLine>,
) -> (r: Result<
    (),
    ClassFormatErr,
>)
    requires
        d + 3 <= usize::MAX,
        forall|k: int| 0 <= k < attrs@.len() ==> spec_field_attribute_listable(cp@, opt_views(ft@), #[trigger] views(attrs@)[k]),
    ensures
        appended(r, old(out)@, final(out)@, spec_each(views(attrs@), field_attribute_fn(cp@, opt_views(ft@), d))),
{
    let ghost f = field_attribute_fn(cp@, opt_views(ft@), d);
    let ghost vs = views(attrs@);
    let ghost start = spec_lines(out@);
    let ghost mut ls: Seq<(usize, Seq<char>)> = seq![];
    let mut i: usize = 0;
    while i < attrs.len()
        invariant
            i <= attrs@.len(),
            d + 3 <= usize::MAX,
            vs == views(attrs@),
            f == field_attribute_fn(cp@, opt_views(ft@), d),
            forall|k: int| 0 <= k < attrs@.len() ==> spec_field_attribute_listable(cp@, opt_views(ft@), #[trigger] views(attrs@)[k]),
            spec_each(vs.take(i as int), f) == SpecListing::Ok(ls),
            spec_lines(out@) == start + ls,
            start == spec_lines(old(out)@),
        decreases attrs@.len() - i,
    {
        proof {
            lemma_each_step(vs, f, i as int);
        }
        assert(vs[i as int] == attrs@[i as int]@);
        match attrs[i].javap_fmt(cp, ft, d, out) {
            Err(x) => {
                proof {
                    lemma_each_err(vs, f, i + 1);
                }
                return Err(x);
            },
            Ok(()) => {
                proof {
                    ls = ls + spec_field_attribute_lines(cp@, opt_views(ft@), vs[i as int], d)->Ok_0;
                    assert(spec_lines(out@) =~= start + ls);
                }
            },
        }
        i = i + 1;
    }
    proof {
        lemma_each_all(vs, f);
    }
    Ok(())
}

impl FieldInfo {
    /// The text whose type javap shows for this field: its generic signature where it
    /// has a `Signature` attribute, `raw_descriptor` otherwise.
    pub fn javap_type_source<'a>(&self, cp: &'a ConstantPool, raw_descriptor: &'a str) -> (r: Result<&'a str, ClassFormatErr>)
        ensures
            match spec_type_source(cp@, self@, raw_descriptor@) {
                Ok(s) => r matches Ok(x) && x@ == s,
                Err(e) => r matches Err(x) && x@ == e,
            },
    {
        let ghost attrs = self@.attributes;
        assert(attrs.skip(0) =~= attrs);
        let mut i: usize = 0;
        while i < self.attributes.len()
            invariant
                i <= self.attributes@.len(),
                attrs == views(self.attributes@),
                spec_first_signature(attrs) == spec_first_signature(attrs.skip(i as int)),
            decreases self.attributes@.len() - i,
        {
            assert(attrs.skip(i as int)[0] == self.attributes@[i as int]@);
            assert(attrs.skip(i as int).drop_first() =~= attrs.skip(i + 1));
            if let FieldAttribute::Shared(SharedAttribute::Signature(sig_index)) = &self.attributes[i] {
                return cp.get_utf8(sig_index);
            }
            i = i + 1;
        }
        assert(attrs.skip(i as int) =~= Seq::<SpecFieldAttribute>::empty());
        Ok(raw_descriptor)
    }

    /// Appends the lines of this field at depth `depth`; `field_type` is its type as
    /// Java source writes it.
    pub fn javap_fmt(
        &self,
        cp: &ConstantPool,
        ft: &Vec<Option<String>>,
        field_type: &str,
        depth: usize,
        out: &mut Vec<JavapLine>,
    ) -> (r: Result<(), ClassFormatErr>)
        requires
            depth + 4 <= usize::MAX,
            spec_field_listable(cp@, opt_views(ft@), self@),
        ensures
            appended(r, old(out)@, final(out)@, spec_field_lines(cp@, opt_views(ft@), self@, field_type@, depth)),
    {
        let ghost before = spec_lines(out@);
        let d1 = depth + 1;
        let desc = cp.get_utf8(&self.descriptor_index)?;
        let name = cp.get_utf8(&self.name_index)?;
        let mut head = self.access_flags.fmt_field_javap_java_like_prefix();
        head.append(field_type);
        head.append(" ");
        head.append(name);
        head.append(";");
        emit(out, depth, head);
        let mut d = "descriptor: ".to_string();
        d.append(desc);
        emit(out, d1, d);
        let mut flags = "flags: (0x".to_string();
        push_hex4(&mut flags, *self.access_flags.get_raw(), false);
        flags.append(") ");
        let list = self.access_flags.fmt_class_javap_like_list();
        flags.append(list.as_str());
        emit(out, d1, flags);
        let r = field_attribute_lines(cp, ft, &self.attributes, d1, out);
        if r.is_err() {
            return r;
        }
        assert(spec_lines(out@) =~= before + spec_field_lines(cp@, opt_views(ft@), self@, field_type@, depth)->Ok_0);
        Ok(())
    }
}

} // verus!
