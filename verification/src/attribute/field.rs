//! Attributes of a field.

use super::kind::AttributeKind;
use super::shared::{
    SharedAttribute, SpecSharedAttribute, read_attribute_header, spec_read_attribute_header,
    spec_read_shared,
};
use crate::constant_pool::entry::{read_matches, ru16};
use crate::constant_pool::{ConstantPool, SpecConstantEntry};
use crate::cursor::{ByteCursor, spec_u16};
use crate::error::{ReadError, SpecRead, SpecReadError, spec_eof};
use vstd::prelude::*;

verus! {

#[derive(Debug, PartialEq, Eq)]
pub enum FieldAttribute {
    Shared(SharedAttribute),
    ConstantValue(u16),
}

/// Mathematical counterpart of [`FieldAttribute`].
pub enum SpecFieldAttribute {
    Shared(SpecSharedAttribute),
    ConstantValue(u16),
}

impl View for FieldAttribute {
    type V = SpecFieldAttribute;

    open spec fn view(&self) -> SpecFieldAttribute {
        match self {
            FieldAttribute::Shared(s) => SpecFieldAttribute::Shared(s@),
            FieldAttribute::ConstantValue(i) => SpecFieldAttribute::ConstantValue(*i),
        }
    }
}

/// Reads the payload of a field attribute of kind `kind` at `p`. The kinds that this
/// reader does not implement are unsupported.
pub open spec fn spec_read_field_payload(kind: AttributeKind, d: Seq<u8>, p: int) -> SpecRead<SpecFieldAttribute> {
    match kind {
        AttributeKind::ConstantValue => match spec_u16(d, p) {
            Some((i, q)) => Ok((SpecFieldAttribute::ConstantValue(i), q)),
            None => Err(spec_eof()),
        },
        AttributeKind::RuntimeVisibleAnnotations
        | AttributeKind::Synthetic
        | AttributeKind::Deprecated
        | AttributeKind::Signature => match spec_read_shared(kind, d, p) {
            Ok((s, q)) => Ok((SpecFieldAttribute::Shared(s), q)),
            Err(e) => Err(e),
        },
        _ => Err(SpecReadError::Unsupported),
    }
}

/// Reads the field attribute at `p`: header, then payload.
pub open spec fn spec_read_field_attribute(
    pool: Seq<SpecConstantEntry>,
    d: Seq<u8>,
    p: int,
) -> SpecRead<SpecFieldAttribute> {
    match spec_read_attribute_header(pool, d, p) {
        Err(e) => Err(e),
        Ok((kind, q)) => spec_read_field_payload(kind, d, q),
    }
}

impl FieldAttribute {
    /// Reads one attribute of a field, resolving its name in `pool`.
    pub fn read(pool: &ConstantPool, cursor: &mut ByteCursor) -> (r: Result<FieldAttribute, ReadError>)
        requires
            old(cursor).inv(),
        ensures
            read_matches(*old(cursor), *final(cursor), r, spec_read_field_attribute(pool@, old(cursor).data@, old(cursor).pos as int)),
    {
        let attribute_kind = read_attribute_header(pool, cursor)?;
        match attribute_kind {
            AttributeKind::ConstantValue => Ok(FieldAttribute::ConstantValue(ru16(cursor)?)),
            AttributeKind::RuntimeVisibleAnnotations
            | AttributeKind::Synthetic
            | AttributeKind::Deprecated
            | AttributeKind::Signature => Ok(FieldAttribute::Shared(SharedAttribute::read(attribute_kind, cursor)?)),
            _ => Err(ReadError::Unsupported),
        }
    }
}

} // verus!
