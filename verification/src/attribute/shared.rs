//! Attributes that can appear at several places in a class file, and the header that
//! every attribute starts with.
//!
//! These attributes can be attached to classes, fields, methods, and record components.

use super::annotation::{Annotation, SpecAnnotation, spec_read_annotation};
use super::kind::{AttributeKind, spec_attribute_kind_of};
use super::type_annotation::{SpecTypeAnnotation, TypeAnnotation, type_annotation_reader};
use crate::constant_pool::entry::{read_matches, ru16, ru32};
use crate::constant_pool::pool::spec_get_utf8;
use crate::constant_pool::{ConstantPool, SpecConstantEntry};
use crate::cursor::{ByteCursor, avail, spec_u16};
use crate::error::{ClassFormatErr, ReadError, SpecClassFormatErr, SpecRead, SpecReadError, spec_eof};
use crate::read::{
    lemma_read_seq_step_err, spec_read_counted, spec_read_seq, vec_matches, views,
};
use vstd::prelude::*;

verus! {

/// Attribute payloads that can appear at multiple locations (class, field, method, record).
#[derive(Debug, PartialEq, Eq)]
pub enum SharedAttribute {
    Synthetic,
    Deprecated,
    Signature(u16),
    RuntimeVisibleAnnotations(Vec<Annotation>),
    RuntimeInvisibleAnnotations(Vec<Annotation>),
    RuntimeVisibleTypeAnnotations(Vec<TypeAnnotation>),
    RuntimeInvisibleTypeAnnotations(Vec<TypeAnnotation>),
}

/// Mathematical counterpart of [`SharedAttribute`].
pub enum SpecSharedAttribute {
    Synthetic,
    Deprecated,
    Signature(u16),
    RuntimeVisibleAnnotations(Seq<SpecAnnotation>),
    RuntimeInvisibleAnnotations(Seq<SpecAnnotation>),
    RuntimeVisibleTypeAnnotations(Seq<SpecTypeAnnotation>),
    RuntimeInvisibleTypeAnnotations(Seq<SpecTypeAnnotation>),
}

impl View for SharedAttribute {
    type V = SpecSharedAttribute;

    open spec fn view(&self) -> SpecSharedAttribute {
        match self {
            SharedAttribute::Synthetic => SpecSharedAttribute::Synthetic,
            SharedAttribute::Deprecated => SpecSharedAttribute::Deprecated,
            SharedAttribute::Signature(i) => SpecSharedAttribute::Signature(*i),
            SharedAttribute::RuntimeVisibleAnnotations(v) => SpecSharedAttribute::RuntimeVisibleAnnotations(views(v@)),
            SharedAttribute::RuntimeInvisibleAnnotations(v) => SpecSharedAttribute::RuntimeInvisibleAnnotations(views(v@)),
            SharedAttribute::RuntimeVisibleTypeAnnotations(v) => SpecSharedAttribute::RuntimeVisibleTypeAnnotations(views(v@)),
            SharedAttribute::RuntimeInvisibleTypeAnnotations(v) => SpecSharedAttribute::RuntimeInvisibleTypeAnnotations(views(v@)),
        }
    }
}

/// Reader of one annotation.
pub open spec fn annotation_reader() -> spec_fn(Seq<u8>, int) -> SpecRead<SpecAnnotation> {
    |d: Seq<u8>, p: int| spec_read_annotation(d, p)
}

/// `r` with its value wrapped by `f`.
pub open spec fn wrap_shared<A>(r: SpecRead<A>, f: spec_fn(A) -> SpecSharedAttribute) -> SpecRead<SpecSharedAttribute> {
    match r {
        Ok((a, q)) => Ok((f(a), q)),
        Err(e) => Err(e),
    }
}

/// Reads the payload of a shared attribute of kind `kind` at `p`. A kind that is not
/// shared is reported as `AttributeIsNotShared`.
pub open spec fn spec_read_shared(kind: AttributeKind, d: Seq<u8>, p: int) -> SpecRead<SpecSharedAttribute> {
    match kind {
        AttributeKind::Synthetic => Ok((SpecSharedAttribute::Synthetic, p)),
        AttributeKind::Deprecated => Ok((SpecSharedAttribute::Deprecated, p)),
        AttributeKind::Signature => match spec_u16(d, p) {
            Some((i, q)) => Ok((SpecSharedAttribute::Signature(i), q)),
            None => Err(spec_eof()),
        },
        AttributeKind::RuntimeVisibleAnnotations => wrap_shared(
            spec_read_counted(d, p, annotation_reader()),
            |v: Seq<SpecAnnotation>| SpecSharedAttribute::RuntimeVisibleAnnotations(v),
        ),
        AttributeKind::RuntimeInvisibleAnnotations => wrap_shared(
            spec_read_counted(d, p, annotation_reader()),
            |v: Seq<SpecAnnotation>| SpecSharedAttribute::RuntimeInvisibleAnnotations(v),
        ),
        AttributeKind::RuntimeInvisibleTypeAnnotations => wrap_shared(
            spec_read_counted(d, p, type_annotation_reader()),
            |v: Seq<SpecTypeAnnotation>| SpecSharedAttribute::RuntimeInvisibleTypeAnnotations(v),
        ),
        AttributeKind::RuntimeVisibleTypeAnnotations => wrap_shared(
            spec_read_counted(d, p, type_annotation_reader()),
            |v: Seq<SpecTypeAnnotation>| SpecSharedAttribute::RuntimeVisibleTypeAnnotations(v),
        ),
        _ => Err(SpecReadError::Format(SpecClassFormatErr::AttributeIsNotShared(kind))),
    }
}

/// Reads an attribute header at `p`: the name index, which must name a known attribute
/// in `pool`, and the length, which is not used.
pub open spec fn spec_read_attribute_header(
    pool: Seq<SpecConstantEntry>,
    d: Seq<u8>,
    p: int,
) -> SpecRead<AttributeKind> {
    match spec_u16(d, p) {
        None => Err(spec_eof()),
        Some((name_index, q)) => if !avail(d, q, 4) {
            Err(spec_eof())
        } else {
            match spec_get_utf8(pool, name_index) {
                Err(e) => Err(SpecReadError::Format(e)),
                Ok(name) => match spec_attribute_kind_of(name) {
                    Some(k) => Ok((k, q + 4)),
                    None => Err(SpecReadError::Format(SpecClassFormatErr::UnknownAttribute(name))),
                },
            }
        },
    }
}

/// Reads an attribute header: the name index, resolved in `pool` to the attribute's kind,
/// and the length.
pub fn read_attribute_header(pool: &ConstantPool, cursor: &mut ByteCursor) -> (r: Result<AttributeKind, ReadError>)
    requires
        old(cursor).inv(),
    ensures
        read_matches(*old(cursor), *final(cursor), r, spec_read_attribute_header(pool@, old(cursor).data@, old(cursor).pos as int)),
{
    let attribute_name_index = ru16(cursor)?;
    let _attribute_length = ru32(cursor)?;
    let name = match pool.get_utf8(&attribute_name_index) {
        Ok(s) => s,
        Err(e) => return Err(ReadError::Format(e)),
    };
    match AttributeKind::try_from(name) {
        Ok(k) => Ok(k),
        Err(e) => Err(ReadError::Format(e)),
    }
}

/// Reads `n` items one after the other.
pub fn read_n_annotations(cursor: &mut ByteCursor, n: usize) -> (r: Result<Vec<Annotation>, ReadError>)
    requires
        old(cursor).inv(),
    ensures
        vec_matches(*old(cursor), *final(cursor), r, spec_read_seq(old(cursor).data@, old(cursor).pos as int, n as nat, annotation_reader())),
{
    let ghost d = cursor.data@;
    let ghost p0 = cursor.pos as int;
    let mut items: Vec<Annotation> = Vec::new();
    let mut i: usize = 0;
    proof {
        assert(views(items@) =~= Seq::<SpecAnnotation>::empty());
    }
    while i < n
        invariant
            cursor.inv(),
            cursor.data@ == d,
            d == old(cursor).data@,
            p0 == old(cursor).pos,
            i <= n,
            spec_read_seq(d, p0, i as nat, annotation_reader()) == Ok::<(Seq<SpecAnnotation>, int), SpecReadError>((views(items@), cursor.pos as int)),
        decreases n - i,
    {
        let ghost q = cursor.pos as int;
        let x = match Annotation::read(cursor) {
            Ok(x) => x,
            Err(e) => {
                proof {
                    lemma_read_seq_step_err(d, p0, i as nat, n as nat, annotation_reader(), views(items@), q, e@);
                }
                return Err(e);
            },
        };
        let ghost old_items = items@;
        items.push(x);
        proof {
            assert(views(items@) =~= views(old_items).push(x@));
        }
        i = i + 1;
    }
    Ok(items)
}

impl SharedAttribute {
    /// Reads the payload of an attribute of kind `attr_type` that can appear at several
    /// places; any other kind is reported as `AttributeIsNotShared`.
    pub fn read(attr_type: AttributeKind, cursor: &mut ByteCursor) -> (r: Result<SharedAttribute, ReadError>)
        requires
            old(cursor).inv(),
        ensures
            read_matches(*old(cursor), *final(cursor), r, spec_read_shared(attr_type, old(cursor).data@, old(cursor).pos as int)),
    {
        match attr_type {
            AttributeKind::Synthetic => Ok(SharedAttribute::Synthetic),
            AttributeKind::Deprecated => Ok(SharedAttribute::Deprecated),
            AttributeKind::Signature => {
                let signature_index = ru16(cursor)?;
                Ok(SharedAttribute::Signature(signature_index))
            },
            AttributeKind::RuntimeVisibleAnnotations => {
                let num_annotations = ru16(cursor)?;
                let annotations = read_n_annotations(cursor, num_annotations as usize)?;
                Ok(SharedAttribute::RuntimeVisibleAnnotations(annotations))
            },
            AttributeKind::RuntimeInvisibleAnnotations => {
                let num_annotations = ru16(cursor)?;
                let annotations = read_n_annotations(cursor, num_annotations as usize)?;
                Ok(SharedAttribute::RuntimeInvisibleAnnotations(annotations))
            },
            AttributeKind::RuntimeInvisibleTypeAnnotations => {
                let num_annotations = ru16(cursor)?;
                let annotations = crate::attribute::type_annotation::read_n_type_annotations(cursor, num_annotations as usize)?;
                Ok(SharedAttribute::RuntimeInvisibleTypeAnnotations(annotations))
            },
            AttributeKind::RuntimeVisibleTypeAnnotations => {
                let num_annotations = ru16(cursor)?;
                let annotations = crate::attribute::type_annotation::read_n_type_annotations(cursor, num_annotations as usize)?;
                Ok(SharedAttribute::RuntimeVisibleTypeAnnotations(annotations))
            },
            _ => Err(ReadError::Format(ClassFormatErr::AttributeIsNotShared(attr_type))),
        }
    }
}

} // verus!
