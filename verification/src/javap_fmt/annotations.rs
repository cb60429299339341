//! The `javap -v` listing of the attributes that fields, methods and classes share:
//! `Deprecated`, `Signature` and the annotations.

use crate::attribute::annotation::{
    Annotation, ElementValuePair, SpecAnnotation, SpecElementValuePair, lemma_pairs_view, pairs_view,
};
use crate::attribute::method::ParameterAnnotations;
use crate::attribute::shared::{SharedAttribute, SpecSharedAttribute};
use crate::attribute::type_annotation::{LocalVarEntry, SpecTargetInfo, SpecTypeAnnotation, TargetInfo, TypeAnnotation};
use crate::constant_pool::pool::spec_get_utf8;
use crate::constant_pool::{ConstantPool, SpecConstantEntry};
use crate::error::ClassFormatErr;
use crate::javap_fmt::attribute::{
    spec_element_descriptor, spec_element_value_readable, spec_element_value_shown, spec_element_value_text,
};
use crate::javap_fmt::lines::{
    JavapLine, SpecListing, appended, emit, lemma_each_all, lemma_each_err, lemma_each_step, lemma_join_each_step,
    spec_cat, spec_each, spec_join_each, spec_line, spec_lines,
};
use crate::javap_fmt::{fmt_class_name, spec_fmt_class_name};
use crate::read::views;
use crate::text::{push_decimal, push_digits, push_padded_right, spec_decimal, spec_pad_right};
use vstd::prelude::*;

verus! {

/// The descriptor form of an element-value pair, such as `#12=Z#13`.
pub open spec fn pair_descriptor_fn() -> spec_fn(SpecElementValuePair) -> Seq<char> {
    |p: SpecElementValuePair| "#"@ + spec_decimal(p.element_name_index as int) + "="@ + spec_element_descriptor(p.value)
}

/// The descriptor forms of the pairs, joined by `,`.
pub open spec fn spec_pairs_descriptor(pairs: Seq<SpecElementValuePair>) -> Seq<char> {
    spec_join_each(pairs, pair_descriptor_fn(), ","@)
}

/// Whether every pair's value has a descriptor form.
pub open spec fn spec_pairs_shown(pairs: Seq<SpecElementValuePair>) -> bool {
    forall|i: int| 0 <= i < pairs.len() ==> spec_element_value_shown(#[trigger] pairs[i].value)
}

/// Whether every pair's value can be shown.
pub open spec fn spec_pairs_readable(cp: Seq<SpecConstantEntry>, pairs: Seq<SpecElementValuePair>) -> bool {
    forall|i: int| 0 <= i < pairs.len() ==> spec_element_value_readable(cp, #[trigger] pairs[i].value)
}

/// The line of a pair: the element's name and its value.
pub open spec fn pair_value_fn(cp: Seq<SpecConstantEntry>, d: usize) -> spec_fn(int, SpecElementValuePair) -> SpecListing {
    |i: int, p: SpecElementValuePair|
        spec_line(
            d,
            match spec_get_utf8(cp, p.element_name_index) {
                Err(e) => Err(e),
                Ok(name) => match spec_element_value_text(cp, p.value) {
                    Err(e) => Err(e),
                    Ok(v) => Ok(name + "="@ + v),
                },
            },
        )
}

/// The first line of annotation number `i`: its type's index and its pairs' descriptors.
pub open spec fn spec_annotation_head(i: int, type_index: u16, pairs: Seq<SpecElementValuePair>) -> Seq<char> {
    spec_decimal(i) + ": #"@ + spec_decimal(type_index as int) + "("@ + spec_pairs_descriptor(pairs) + ")"@
}

/// The lines of annotation number `i` at depth `d`: its first line, then one level deeper
/// its type's name and, where it has pairs, each pair one level deeper again.
pub open spec fn spec_annotation_lines(cp: Seq<SpecConstantEntry>, i: int, a: SpecAnnotation, d: usize) -> SpecListing {
    let d1 = (d + 1) as usize;
    let d2 = (d + 2) as usize;
    spec_cat(
        Ok(seq![(d, spec_annotation_head(i, a.type_index, a.element_value_pairs))]),
        match spec_get_utf8(cp, a.type_index) {
            Err(e) => Err(e),
            Ok(n) => if a.element_value_pairs.len() == 0 {
                Ok(seq![(d1, spec_fmt_class_name(n))])
            } else {
                spec_cat(
                    spec_cat(
                        Ok(seq![(d1, spec_fmt_class_name(n) + "("@)]),
                        spec_each(a.element_value_pairs, pair_value_fn(cp, d2)),
                    ),
                    Ok(seq![(d1, ")"@)]),
                )
            },
        },
    )
}

/// The lines of an annotation, as a function of its position and itself.
pub open spec fn annotation_fn(cp: Seq<SpecConstantEntry>, d: usize) -> spec_fn(int, SpecAnnotation) -> SpecListing {
    |i: int, a: SpecAnnotation| spec_annotation_lines(cp, i, a, d)
}

/// Whether every annotation of `anns` can be listed.
pub open spec fn spec_annotations_listable(cp: Seq<SpecConstantEntry>, anns: Seq<SpecAnnotation>) -> bool {
    forall|i: int| 0 <= i < anns.len() ==> spec_pairs_readable(cp, #[trigger] anns[i].element_value_pairs)
}

/// A local variable range of a type annotation's target.
pub open spec fn localvar_fn() -> spec_fn(LocalVarEntry) -> Seq<char> {
    |e: LocalVarEntry|
        "start_pc="@ + spec_decimal(e.start_pc as int) + ", length="@ + spec_decimal(e.length as int) + ", index="@
            + spec_decimal(e.index as int)
}

/// The target of a type annotation as javap shows it.
pub open spec fn spec_target_text(t: SpecTargetInfo) -> Seq<char> {
    match t {
        SpecTargetInfo::TypeParameter { type_parameter_index } => "CLASS_TYPE_PARAMETER, param_index="@ + spec_decimal(
            type_parameter_index as int,
        ),
        SpecTargetInfo::Supertype { supertype_index } => "CLASS_EXTENDS, type_index="@ + spec_decimal(supertype_index as int),
        SpecTargetInfo::TypeParameterBound { type_parameter_index, bound_index } => "CLASS_TYPE_PARAMETER_BOUND, param_index="@
            + spec_decimal(type_parameter_index as int) + ", bound_index="@ + spec_decimal(bound_index as int),
        SpecTargetInfo::Empty => "EMPTY"@,
        SpecTargetInfo::MethodFormalParameter { formal_parameter_index } => "METHOD_FORMAL_PARAMETER, param_index="@
            + spec_decimal(formal_parameter_index as int),
        SpecTargetInfo::Throws { throws_type_index } => "THROWS, type_index="@ + spec_decimal(throws_type_index as int),
        SpecTargetInfo::LocalVar { localvar_table } => "LOCAL_VARIABLE, {"@ + spec_join_each(
            localvar_table,
            localvar_fn(),
            "; "@,
        ) + "}"@,
        SpecTargetInfo::Catch { exception_table_index } => "EXCEPTION_PARAMETER, exception_index="@ + spec_decimal(
            exception_table_index as int,
        ),
        SpecTargetInfo::Offset { offset } => "OFFSET, offset="@ + spec_decimal(offset as int),
        SpecTargetInfo::TypeArgument { offset, type_argument_index } => "TYPE_ARGUMENT, offset="@ + spec_decimal(
            offset as int,
        ) + ", type_argument_index="@ + spec_decimal(type_argument_index as int),
    }
}

/// The lines of type annotation number `i` at depth `d`: its type's index, its pairs'
/// descriptors and its target, then one level deeper its type's name.
pub open spec fn spec_type_annotation_lines(
    cp: Seq<SpecConstantEntry>,
    i: int,
    a: SpecTypeAnnotation,
    d: usize,
) -> SpecListing {
    spec_cat(
        Ok(
            seq![
                (
                    d,
                    spec_decimal(i) + ": #"@ + spec_decimal(a.type_index as int) + "("@ + spec_pairs_descriptor(
                        a.element_value_pairs,
                    ) + "): "@ + spec_target_text(a.target_info),
                ),
            ],
        ),
        match spec_get_utf8(cp, a.type_index) {
            Err(e) => Err(e),
            Ok(n) => Ok(seq![((d + 1) as usize, spec_fmt_class_name(n))]),
        },
    )
}

/// The lines of a type annotation, as a function of its position and itself.
pub open spec fn type_annotation_fn(cp: Seq<SpecConstantEntry>, d: usize) -> spec_fn(int, SpecTypeAnnotation) -> SpecListing {
    |i: int, a: SpecTypeAnnotation| spec_type_annotation_lines(cp, i, a, d)
}

/// Whether every type annotation of `anns` can be listed.
pub open spec fn spec_type_annotations_listable(anns: Seq<SpecTypeAnnotation>) -> bool {
    forall|i: int| 0 <= i < anns.len() ==> spec_pairs_shown(#[trigger] anns[i].element_value_pairs)
}

/// Whether javap can list a shared attribute: `Synthetic` is not listed, and the pairs of
/// the annotations must have values it can show.
pub open spec fn spec_shared_listable(cp: Seq<SpecConstantEntry>, s: SpecSharedAttribute) -> bool {
    match s {
        SpecSharedAttribute::Synthetic => false,
        SpecSharedAttribute::RuntimeVisibleAnnotations(a) => spec_annotations_listable(cp, a),
        SpecSharedAttribute::RuntimeInvisibleAnnotations(a) => spec_annotations_listable(cp, a),
        SpecSharedAttribute::RuntimeVisibleTypeAnnotations(a) => spec_type_annotations_listable(a),
        SpecSharedAttribute::RuntimeInvisibleTypeAnnotations(a) => spec_type_annotations_listable(a),
        _ => true,
    }
}

/// The lines of a shared attribute at depth `d`.
pub open spec fn spec_shared_lines(cp: Seq<SpecConstantEntry>, s: SpecSharedAttribute, d: usize) -> SpecListing {
    let d1 = (d + 1) as usize;
    match s {
        SpecSharedAttribute::Deprecated => Ok(seq![(d, "Deprecated: true"@)]),
        SpecSharedAttribute::Signature(index) => spec_line(
            d,
            match spec_get_utf8(cp, index) {
                Err(e) => Err(e),
                Ok(u) => Ok("Signature: #"@ + spec_pad_right(spec_decimal(index as int), 26) + " // "@ + u),
            },
        ),
        SpecSharedAttribute::RuntimeVisibleAnnotations(a) => spec_cat(
            Ok(seq![(d, "RuntimeVisibleAnnotations:"@)]),
            spec_each(a, annotation_fn(cp, d1)),
        ),
        SpecSharedAttribute::RuntimeInvisibleAnnotations(a) => spec_cat(
            Ok(seq![(d, "RuntimeInvisibleAnnotations:"@)]),
            spec_each(a, annotation_fn(cp, d1)),
        ),
        SpecSharedAttribute::RuntimeVisibleTypeAnnotations(a) => spec_cat(
            Ok(seq![(d, "RuntimeVisibleTypeAnnotations:"@)]),
            spec_each(a, type_annotation_fn(cp, d1)),
        ),
        SpecSharedAttribute::RuntimeInvisibleTypeAnnotations(a) => spec_cat(
            Ok(seq![(d, "RuntimeInvisibleTypeAnnotations:"@)]),
            spec_each(a, type_annotation_fn(cp, d1)),
        ),
        _ => Ok(seq![]),
    }
}

/// The descriptor forms of the pairs, joined by `,`.
fn pairs_descriptor(pairs: &Vec<ElementValuePair>) -> (r: String)
    requires
        spec_pairs_shown(pairs_view(pairs@)),
    ensures
        r@ == spec_pairs_descriptor(pairs_view(pairs@)),
{
    let ghost f = pair_descriptor_fn();
    let ghost ps = pairs_view(pairs@);
    proof {
        lemma_pairs_view(pairs@);
    }
    let mut s = String::new();
    let mut i: usize = 0;
    while i < pairs.len()
        invariant
            i <= pairs@.len(),
            ps == pairs_view(pairs@),
            ps.len() == pairs@.len(),
            forall|k: int| 0 <= k < pairs@.len() ==> #[trigger] ps[k] == pairs@[k]@,
            spec_pairs_shown(ps),
            f == pair_descriptor_fn(),
            spec_join_each(ps.take(i as int), f, ","@) == s@,
        decreases pairs@.len() - i,
    {
        proof {
            lemma_join_each_step(ps, f, ","@, i as int);
        }
        let p = &pairs[i];
        assert(ps[i as int] == p@);
        if i > 0 {
            s.append(",");
        }
        s.append("#");
        push_decimal(&mut s, p.element_name_index as i64);
        s.append("=");
        let v = p.value.get_javap_descriptor();
        s.append(v.as_str());
        i = i + 1;
    }
    proof {
        assert(ps.take(ps.len() as int) =~= ps);
    }
    s
}

/// The lines of the pairs of an annotation, each at depth `d`.
fn pair_lines(cp: &ConstantPool, pairs: &Vec<ElementValuePair>, d: usize, out: &mut Vec<JavapLine>) -> (r: Result<
    (),
    ClassFormatErr,
>)
    requires
        spec_pairs_readable(cp@, pairs_view(pairs@)),
    ensures
        appended(r, old(out)@, final(out)@, spec_each(pairs_view(pairs@), pair_value_fn(cp@, d))),
{
    let ghost f = pair_value_fn(cp@, d);
    let ghost ps = pairs_view(pairs@);
    proof {
        lemma_pairs_view(pairs@);
    }
    let ghost start = spec_lines(out@);
    let ghost mut ls: Seq<(usize, Seq<char>)> = seq![];
    let mut i: usize = 0;
    while i < pairs.len()
        invariant
            i <= pairs@.len(),
            ps == pairs_view(pairs@),
            ps.len() == pairs@.len(),
            forall|k: int| 0 <= k < pairs@.len() ==> #[trigger] ps[k] == pairs@[k]@,
            spec_pairs_readable(cp@, ps),
            f == pair_value_fn(cp@, d),
            spec_each(ps.take(i as int), f) == SpecListing::Ok(ls),
            spec_lines(out@) == start + ls,
            start == spec_lines(old(out)@),
        decreases pairs@.len() - i,
    {
        proof {
            lemma_each_step(ps, f, i as int);
        }
        let p = &pairs[i];
        assert(ps[i as int] == p@);
        assert(spec_element_value_readable(cp@, ps[i as int].value));
        let name = match cp.get_utf8(&p.element_name_index) {
            Err(x) => {
                proof {
                    lemma_each_err(ps, f, i + 1);
                }
                return Err(x);
            },
            Ok(n) => n,
        };
        let v = match p.value.get_javap_value(cp) {
            Err(x) => {
                proof {
                    lemma_each_err(ps, f, i + 1);
                }
                return Err(x);
            },
            Ok(v) => v,
        };
        let mut s = name.to_string();
        s.append("=");
        s.append(v.as_str());
        let ghost sv = s@;
        emit(out, d, s);
        proof {
            ls = ls + seq![(d, sv)];
            assert(spec_lines(out@) =~= start + ls);
        }
        i = i + 1;
    }
    proof {
        lemma_each_all(ps, f);
    }
    Ok(())
}

/// `i` in decimal.
fn index_text(i: usize) -> (r: String)
    ensures
        r@ == spec_decimal(i as int),
{
    let mut s = String::new();
    push_digits(&mut s, i as u64);
    s
}

/// Appends the lines of annotation number `i` at depth `d`.
fn annotation_lines(cp: &ConstantPool, i: usize, a: &Annotation, d: usize, out: &mut Vec<JavapLine>) -> (r: Result<
    (),
    ClassFormatErr,
>)
    requires
        d + 2 <= usize::MAX,
        spec_pairs_readable(cp@, a@.element_value_pairs),
    ensures
        appended(r, old(out)@, final(out)@, spec_annotation_lines(cp@, i as int, a@, d)),
{
    let ghost before = spec_lines(out@);
    let ghost ps = a@.element_value_pairs;
    assert(spec_pairs_shown(ps)) by {
        assert forall|k: int| 0 <= k < ps.len() implies spec_element_value_shown(#[trigger] ps[k].value) by {
            assert(spec_element_value_readable(cp@, ps[k].value));
        }
    }
    let mut head = index_text(i);
    head.append(": #");
    push_decimal(&mut head, a.type_index as i64);
    head.append("(");
    let pd = pairs_descriptor(&a.element_value_pairs);
    head.append(pd.as_str());
    head.append(")");
    emit(out, d, head);
    let n = cp.get_utf8(&a.type_index)?;
    let name = fmt_class_name(n);
    proof {
        lemma_pairs_view(a.element_value_pairs@);
    }
    if a.element_value_pairs.len() == 0 {
        emit(out, d + 1, name);
        assert(spec_lines(out@) =~= before + spec_annotation_lines(cp@, i as int, a@, d)->Ok_0);
    } else {
        let mut open = name;
        open.append("(");
        emit(out, d + 1, open);
        let r = pair_lines(cp, &a.element_value_pairs, d + 2, out);
        if r.is_err() {
            return r;
        }
        emit(out, d + 1, ")".to_string());
        assert(spec_lines(out@) =~= before + spec_annotation_lines(cp@, i as int, a@, d)->Ok_0);
    }
    Ok(())
}

/// Appends the lines of the annotations, each at depth `d`.
fn fmt_annotations(cp: &ConstantPool, anns: &Vec<Annotation>, d: usize, out: &mut Vec<JavapLine>) -> (r: Result<
    (),
    ClassFormatErr,
>)
    requires
        d + 2 <= usize::MAX,
        spec_annotations_listable(cp@, views(anns@)),
    ensures
        appended(r, old(out)@, final(out)@, spec_each(views(anns@), annotation_fn(cp@, d))),
{
    let ghost f = annotation_fn(cp@, d);
    let ghost vs = views(anns@);
    let ghost start = spec_lines(out@);
    let ghost mut ls: Seq<(usize, Seq<char>)> = seq![];
    let mut i: usize = 0;
    while i < anns.len()
        invariant
            i <= anns@.len(),
            d + 2 <= usize::MAX,
            vs == views(anns@),
            f == annotation_fn(cp@, d),
            spec_annotations_listable(cp@, vs),
            spec_each(vs.take(i as int), f) == SpecListing::Ok(ls),
            spec_lines(out@) == start + ls,
            start == spec_lines(old(out)@),
        decreases anns@.len() - i,
    {
        proof {
            lemma_each_step(vs, f, i as int);
        }
        assert(vs[i as int] == anns@[i as int]@);
        assert(spec_pairs_readable(cp@, vs[i as int].element_value_pairs));
        match annotation_lines(cp, i, &anns[i], d, out) {
            Err(x) => {
                proof {
                    lemma_each_err(vs, f, i + 1);
                }
                return Err(x);
            },
            Ok(()) => {
                proof {
                    ls = ls + spec_annotation_lines(cp@, i as int, vs[i as int], d)->Ok_0;
                    assert(spec_lines(out@) =~= start + ls);
                }
            },
        }
        i = i + 1;
    }
    proof {
        lemma_each_all(vs, f);
    }
    Ok(())
}

/// A local variable range of a type annotation's target.
fn localvar_text(e: &LocalVarEntry) -> (r: String)
    ensures
        r@ == (localvar_fn())(*e),
{
    let mut s = "start_pc=".to_string();
    push_decimal(&mut s, e.start_pc as i64);
    s.append(", length=");
    push_decimal(&mut s, e.length as i64);
    s.append(", index=");
    push_decimal(&mut s, e.index as i64);
    s
}

/// `pre` then `v` in decimal.
fn labelled(pre: &str, v: i64) -> (r: String)
    ensures
        r@ == pre@ + spec_decimal(v as int),
{
    let mut s = pre.to_string();
    push_decimal(&mut s, v);
    s
}

/// The target of a type annotation as javap shows it.
fn target_text(t: &TargetInfo) -> (r: String)
    ensures
        r@ == spec_target_text(t@),
{
    match t {
        TargetInfo::TypeParameter { type_parameter_index } => labelled(
            "CLASS_TYPE_PARAMETER, param_index=",
            *type_parameter_index as i64,
        ),
        TargetInfo::Supertype { supertype_index } => labelled("CLASS_EXTENDS, type_index=", *supertype_index as i64),
        TargetInfo::TypeParameterBound { type_parameter_index, bound_index } => {
            let mut s = labelled("CLASS_TYPE_PARAMETER_BOUND, param_index=", *type_parameter_index as i64);
            s.append(", bound_index=");
            push_decimal(&mut s, *bound_index as i64);
            s
        },
        TargetInfo::Empty => "EMPTY".to_string(),
        TargetInfo::MethodFormalParameter { formal_parameter_index } => labelled(
            "METHOD_FORMAL_PARAMETER, param_index=",
            *formal_parameter_index as i64,
        ),
        TargetInfo::Throws { throws_type_index } => labelled("THROWS, type_index=", *throws_type_index as i64),
        TargetInfo::LocalVar { localvar_table } => {
            let ghost f = localvar_fn();
            let ghost es = localvar_table@;
            let mut s = "LOCAL_VARIABLE, {".to_string();
            let mut joined = String::new();
            let mut i: usize = 0;
            while i < localvar_table.len()
                invariant
                    i <= es.len(),
                    es == localvar_table@,
                    f == localvar_fn(),
                    spec_join_each(es.take(i as int), f, "; "@) == joined@,
                decreases es.len() - i,
            {
                proof {
                    lemma_join_each_step(es, f, "; "@, i as int);
                }
                if i > 0 {
                    joined.append("; ");
                }
                let e = localvar_text(&localvar_table[i]);
                joined.append(e.as_str());
                i = i + 1;
            }
            proof {
                assert(es.take(es.len() as int) =~= es);
            }
            s.append(joined.as_str());
            s.append("}");
            s
        },
        TargetInfo::Catch { exception_table_index } => labelled(
            "EXCEPTION_PARAMETER, exception_index=",
            *exception_table_index as i64,
        ),
        TargetInfo::Offset { offset } => labelled("OFFSET, offset=", *offset as i64),
        TargetInfo::TypeArgument { offset, type_argument_index } => {
            let mut s = labelled("TYPE_ARGUMENT, offset=", *offset as i64);
            s.append(", type_argument_index=");
            push_decimal(&mut s, *type_argument_index as i64);
            s
        },
    }
}

/// Appends the lines of type annotation number `i` at depth `d`.
fn type_annotation_lines(cp: &ConstantPool, i: usize, a: &TypeAnnotation, d: usize, out: &mut Vec<JavapLine>) -> (r: Result<
    (),
    ClassFormatErr,
>)
    requires
        d + 1 <= usize::MAX,
        spec_pairs_shown(a@.element_value_pairs),
    ensures
        appended(r, old(out)@, final(out)@, spec_type_annotation_lines(cp@, i as int, a@, d)),
{
    let ghost before = spec_lines(out@);
    let mut head = index_text(i);
    head.append(": #");
    push_decimal(&mut head, a.type_index as i64);
    head.append("(");
    let pd = pairs_descriptor(&a.element_value_pairs);
    head.append(pd.as_str());
    head.append("): ");
    let target = target_text(&a.target_info);
    head.append(target.as_str());
    emit(out, d, head);
    let n = cp.get_utf8(&a.type_index)?;
    emit(out, d + 1, fmt_class_name(n));
    assert(spec_lines(out@) =~= before + spec_type_annotation_lines(cp@, i as int, a@, d)->Ok_0);
    Ok(())
}

/// Appends the lines of the type annotations, each at depth `d`.
fn fmt_type_annotations(cp: &ConstantPool, anns: &Vec<TypeAnnotation>, d: usize, out: &mut Vec<JavapLine>) -> (r: Result<
    (),
    ClassFormatErr,
>)
    requires
        d + 1 <= usize::MAX,
        spec_type_annotations_listable(views(anns@)),
    ensures
        appended(r, old(out)@, final(out)@, spec_each(views(anns@), type_annotation_fn(cp@, d))),
{
    let ghost f = type_annotation_fn(cp@, d);
    let ghost vs = views(anns@);
    let ghost start = spec_lines(out@);
    let ghost mut ls: Seq<(usize, Seq<char>)> = seq![];
    let mut i: usize = 0;
    while i < anns.len()
        invariant
            i <= anns@.len(),
            d + 1 <= usize::MAX,
            vs == views(anns@),
            f == type_annotation_fn(cp@, d),
            spec_type_annotations_listable(vs),
            spec_each(vs.take(i as int), f) == SpecListing::Ok(ls),
            spec_lines(out@) == start + ls,
            start == spec_lines(old(out)@),
        decreases anns@.len() - i,
    {
        proof {
            lemma_each_step(vs, f, i as int);
        }
        assert(vs[i as int] == anns@[i as int]@);
        assert(spec_pairs_shown(vs[i as int].element_value_pairs));
        match type_annotation_lines(cp, i, &anns[i], d, out) {
            Err(x) => {
                proof {
                    lemma_each_err(vs, f, i + 1);
                }
                return Err(x);
            },
            Ok(()) => {
                proof {
                    ls = ls + spec_type_annotation_lines(cp@, i as int, vs[i as int], d)->Ok_0;
                    assert(spec_lines(out@) =~= start + ls);
                }
            },
        }
        i = i + 1;
    }
    proof {
        lemma_each_all(vs, f);
    }
    Ok(())
}

impl SharedAttribute {
    /// Appends the lines of this attribute at depth `depth`.
    #[verifier::spinoff_prover]
    #[verifier::rlimit(40)]
    pub fn javap_fmt(&self, cp: &ConstantPool, depth: usize, out: &mut Vec<JavapLine>) -> (r: Result<(), ClassFormatErr>)
        requires
            depth + 3 <= usize::MAX,
            spec_shared_listable(cp@, self@),
        ensures
            appended(r, old(out)@, final(out)@, spec_shared_lines(cp@, self@, depth)),
    {
        let ghost before = spec_lines(out@);
        let d1 = depth + 1;
        match self {
            SharedAttribute::Deprecated => {
                emit(out, depth, "Deprecated: true".to_string());
                assert(spec_lines(out@) =~= before + spec_shared_lines(cp@, self@, depth)->Ok_0);
            },
            SharedAttribute::Signature(index) => {
                let u = cp.get_utf8(index)?;
                let mut s = "Signature: #".to_string();
                let mut n = String::new();
                push_decimal(&mut n, *index as i64);
                assert(n@ =~= spec_decimal(*index as int));
                push_padded_right(&mut s, n.as_str(), 26);
                s.append(" // ");
                s.append(u);
                emit(out, depth, s);
                assert(spec_lines(out@) =~= before + spec_shared_lines(cp@, self@, depth)->Ok_0);
            },
            SharedAttribute::RuntimeVisibleAnnotations(a) => {
                emit(out, depth, "RuntimeVisibleAnnotations:".to_string());
                let r = fmt_annotations(cp, a, d1, out);
                if r.is_err() {
                    return r;
                }
                assert(spec_lines(out@) =~= before + spec_shared_lines(cp@, self@, depth)->Ok_0);
            },
            SharedAttribute::RuntimeInvisibleAnnotations(a) => {
                emit(out, depth, "RuntimeInvisibleAnnotations:".to_string());
                let r = fmt_annotations(cp, a, d1, out);
                if r.is_err() {
                    return r;
                }
                assert(spec_lines(out@) =~= before + spec_shared_lines(cp@, self@, depth)->Ok_0);
            },
            SharedAttribute::RuntimeVisibleTypeAnnotations(a) => {
                emit(out, depth, "RuntimeVisibleTypeAnnotations:".to_string());
                let r = fmt_type_annotations(cp, a, d1, out);
                if r.is_err() {
                    return r;
                }
                assert(spec_lines(out@) =~= before + spec_shared_lines(cp@, self@, depth)->Ok_0);
            },
            SharedAttribute::RuntimeInvisibleTypeAnnotations(a) => {
                emit(out, depth, "RuntimeInvisibleTypeAnnotations:".to_string());
                let r = fmt_type_annotations(cp, a, d1, out);
                if r.is_err() {
                    return r;
                }
                assert(spec_lines(out@) =~= before + spec_shared_lines(cp@, self@, depth)->Ok_0);
            },
            SharedAttribute::Synthetic => {},
        }
        Ok(())
    }
}

/// The lines of annotation number `i` of a parameter at depth `d`: its type's index and
/// its pairs' descriptors, then one level deeper its type's name.
pub open spec fn spec_param_annotation_lines(cp: Seq<SpecConstantEntry>, i: int, a: SpecAnnotation, d: usize) -> SpecListing {
    spec_cat(
        Ok(seq![(d, spec_annotation_head(i, a.type_index, a.element_value_pairs))]),
        match spec_get_utf8(cp, a.type_index) {
            Err(e) => Err(e),
            Ok(n) => Ok(seq![((d + 1) as usize, spec_fmt_class_name(n))]),
        },
    )
}

/// The lines of an annotation of a parameter, as a function of its position and itself.
pub open spec fn param_annotation_fn(cp: Seq<SpecConstantEntry>, d: usize) -> spec_fn(int, SpecAnnotation) -> SpecListing {
    |i: int, a: SpecAnnotation| spec_param_annotation_lines(cp, i, a, d)
}

/// The lines of parameter number `i` at depth `d`: `parameter i:`, then its annotations
/// one level deeper.
pub open spec fn spec_param_lines(cp: Seq<SpecConstantEntry>, i: int, anns: Seq<SpecAnnotation>, d: usize) -> SpecListing {
    spec_cat(
        Ok(seq![(d, "parameter "@ + spec_decimal(i) + ":"@)]),
        spec_each(anns, param_annotation_fn(cp, (d + 1) as usize)),
    )
}

/// The lines of a parameter's annotations, as a function of its position and them.
pub open spec fn param_fn(cp: Seq<SpecConstantEntry>, d: usize) -> spec_fn(int, Seq<SpecAnnotation>) -> SpecListing {
    |i: int, anns: Seq<SpecAnnotation>| spec_param_lines(cp, i, anns, d)
}

/// Whether every annotation of a parameter has pairs with descriptor forms.
pub open spec fn spec_param_annotations_shown(anns: Seq<SpecAnnotation>) -> bool {
    forall|j: int| 0 <= j < anns.len() ==> spec_pairs_shown(#[trigger] anns[j].element_value_pairs)
}

/// The lines of a parameter annotations attribute at depth `d`: `header`, then each
/// parameter one level deeper.
pub open spec fn spec_parameter_annotations_lines(
    cp: Seq<SpecConstantEntry>,
    header: Seq<char>,
    ps: Seq<Seq<SpecAnnotation>>,
    d: usize,
) -> SpecListing {
    spec_cat(Ok(seq![(d, header)]), spec_each(ps, param_fn(cp, (d + 1) as usize)))
}

/// Appends the lines of annotation number `i` of a parameter at depth `d`.
fn param_annotation_lines(cp: &ConstantPool, i: usize, a: &Annotation, d: usize, out: &mut Vec<JavapLine>) -> (r: Result<
    (),
    ClassFormatErr,
>)
    requires
        d + 1 <= usize::MAX,
        spec_pairs_shown(a@.element_value_pairs),
    ensures
        appended(r, old(out)@, final(out)@, spec_param_annotation_lines(cp@, i as int, a@, d)),
{
    let ghost before = spec_lines(out@);
    let mut head = index_text(i);
    head.append(": #");
    push_decimal(&mut head, a.type_index as i64);
    head.append("(");
    let pd = pairs_descriptor(&a.element_value_pairs);
    head.append(pd.as_str());
    head.append(")");
    emit(out, d, head);
    let n = cp.get_utf8(&a.type_index)?;
    emit(out, d + 1, fmt_class_name(n));
    assert(spec_lines(out@) =~= before + spec_param_annotation_lines(cp@, i as int, a@, d)->Ok_0);
    Ok(())
}

/// Appends the lines of parameter number `pi` at depth `d`.
fn param_lines(cp: &ConstantPool, pi: usize, p: &ParameterAnnotations, d: usize, out: &mut Vec<JavapLine>) -> (r: Result<
    (),
    ClassFormatErr,
>)
    requires
        d + 2 <= usize::MAX,
        spec_param_annotations_shown(p@),
    ensures
        appended(r, old(out)@, final(out)@, spec_param_lines(cp@, pi as int, p@, d)),
{
    let ghost before = spec_lines(out@);
    let mut head = "parameter ".to_string();
    push_digits(&mut head, pi as u64);
    head.append(":");
    emit(out, d, head);
    let anns = &p.annotations;
    let d1 = d + 1;
    let ghost f = param_annotation_fn(cp@, d1);
    let ghost vs = views(anns@);
    let ghost start = spec_lines(out@);
    let ghost mut ls: Seq<(usize, Seq<char>)> = seq![];
    let mut i: usize = 0;
    while i < anns.len()
        invariant
            i <= anns@.len(),
            d1 + 1 <= usize::MAX,
            d1 == d + 1,
            vs == views(anns@),
            vs == p@,
            f == param_annotation_fn(cp@, d1),
            spec_param_annotations_shown(vs),
            spec_each(vs.take(i as int), f) == SpecListing::Ok(ls),
            spec_lines(out@) == start + ls,
        decreases anns@.len() - i,
    {
        proof {
            lemma_each_step(vs, f, i as int);
        }
        assert(vs[i as int] == anns@[i as int]@);
        assert(spec_pairs_shown(vs[i as int].element_value_pairs));
        match param_annotation_lines(cp, i, &anns[i], d1, out) {
            Err(x) => {
                proof {
                    lemma_each_err(vs, f, i + 1);
                }
                return Err(x);
            },
            Ok(()) => {
                proof {
                    ls = ls + spec_param_annotation_lines(cp@, i as int, vs[i as int], d1)->Ok_0;
                    assert(spec_lines(out@) =~= start + ls);
                }
            },
        }
        i = i + 1;
    }
    proof {
        lemma_each_all(vs, f);
    }
    assert(spec_lines(out@) =~= before + spec_param_lines(cp@, pi as int, p@, d)->Ok_0);
    Ok(())
}

/// Appends the lines of a parameter annotations attribute at depth `d`: `header`, then
/// each parameter one level deeper.
pub(crate) fn fmt_parameter_annotations(
    cp: &ConstantPool,
    header: &str,
    ps: &Vec<ParameterAnnotations>,
    d: usize,
    out: &mut Vec<JavapLine>,
) -> (r: Result<(), ClassFormatErr>)
    requires
        d + 3 <= usize::MAX,
        forall|i: int| 0 <= i < ps@.len() ==> spec_param_annotations_shown(#[trigger] views(ps@)[i]),
    ensures
        appended(r, old(out)@, final(out)@, spec_parameter_annotations_lines(cp@, header@, views(ps@), d)),
{
    let ghost before = spec_lines(out@);
    emit(out, d, header.to_string());
    let d1 = d + 1;
    let ghost f = param_fn(cp@, d1);
    let ghost vs = views(ps@);
    let ghost start = spec_lines(out@);
    let ghost mut ls: Seq<(usize, Seq<char>)> = seq![];
    let mut i: usize = 0;
    while i < ps.len()
        invariant
            i <= ps@.len(),
            d1 + 2 <= usize::MAX,
            d1 == d + 1,
            vs == views(ps@),
            f == param_fn(cp@, d1),
            forall|i: int| 0 <= i < ps@.len() ==> spec_param_annotations_shown(#[trigger] views(ps@)[i]),
            spec_each(vs.take(i as int), f) == SpecListing::Ok(ls),
            spec_lines(out@) == start + ls,
        decreases ps@.len() - i,
    {
        proof {
            lemma_each_step(vs, f, i as int);
        }
        assert(vs[i as int] == ps@[i as int]@);
        match param_lines(cp, i, &ps[i], d1, out) {
            Err(x) => {
                proof {
                    lemma_each_err(vs, f, i + 1);
                }
                return Err(x);
            },
            Ok(()) => {
                proof {
                    ls = ls + spec_param_lines(cp@, i as int, vs[i as int], d1)->Ok_0;
                    assert(spec_lines(out@) =~= start + ls);
                }
            },
        }
        i = i + 1;
    }
    proof {
        lemma_each_all(vs, f);
    }
    assert(spec_lines(out@) =~= before + spec_parameter_annotations_lines(cp@, header@, views(ps@), d)->Ok_0);
    Ok(())
}

} // verus!
