//! Attributes of a method.
//!
//! https://docs.oracle.com/javase/specs/jvms/se25/html/jvms-4.html#jvms-4.7

pub mod code;

use self::code::{CodeAttributeInfo, SpecCodeAttributeInfo, spec_read_code_attribute_info};
use super::annotation::{Annotation, ElementValue, SpecAnnotation, spec_read_ev};
use super::kind::AttributeKind;
use super::shared::{
    SharedAttribute, SpecSharedAttribute, annotation_reader, read_attribute_header, read_n_annotations,
    spec_read_attribute_header, spec_read_shared,
};
use crate::constant_pool::entry::{read_matches, ru16, ru32, ru8};
use crate::constant_pool::{ConstantPool, SpecConstantEntry};
use crate::cursor::{ByteCursor, avail, be_u16, be_u32, spec_bytes};
use crate::error::{ReadError, SpecRead, SpecReadError, spec_eof};
use crate::read::{
    lemma_read_seq_step_err, read_u16_list, spec_read_counted, spec_read_counted8, spec_read_seq, u16_reader,
    vec_matches, views,
};
use vstd::prelude::*;

verus! {

/// An entry of the exception table of a `Code` attribute.
#[derive(Debug, Clone, Copy, PartialEq, Eq, Structural)]
pub struct ExceptionTableEntry {
    pub start_pc: u16,
    pub end_pc: u16,
    pub handler_pc: u16,
    pub catch_type: u16,
}

/// The `Code` attribute of a method.
///
/// https://docs.oracle.com/javase/specs/jvms/se25/html/jvms-4.html#jvms-4.7.3
#[derive(Debug, Clone, PartialEq, Eq)]
pub struct CodeAttribute {
    pub max_stack: u16,
    pub max_locals: u16,
    pub code: Vec<u8>,
    pub exception_table: Vec<ExceptionTableEntry>,
    pub attributes: Vec<CodeAttributeInfo>,
}

/// An entry of a `MethodParameters` attribute.
#[derive(Debug, Clone, Copy, PartialEq, Eq, Structural)]
pub struct MethodParameterEntry {
    pub name_index: u16,
    pub access_flags: u16,
}

/// The annotations of one parameter.
#[derive(Debug, PartialEq, Eq)]
pub struct ParameterAnnotations {
    pub annotations: Vec<Annotation>,
}

#[derive(Debug, PartialEq, Eq)]
pub enum MethodAttribute {
    Shared(SharedAttribute),
    Code(CodeAttribute),
    Exceptions(Vec<u16>),
    RuntimeVisibleParameterAnnotations(Vec<ParameterAnnotations>),
    RuntimeInvisibleParameterAnnotations(Vec<ParameterAnnotations>),
    AnnotationsDefault,
    MethodParameters(Vec<MethodParameterEntry>),
}

/// Mathematical counterpart of [`CodeAttribute`].
pub struct SpecCodeAttribute {
    pub max_stack: u16,
    pub max_locals: u16,
    pub code: Seq<u8>,
    pub exception_table: Seq<ExceptionTableEntry>,
    pub attributes: Seq<SpecCodeAttributeInfo>,
}

/// Mathematical counterpart of [`MethodAttribute`].
pub enum SpecMethodAttribute {
    Shared(SpecSharedAttribute),
    Code(SpecCodeAttribute),
    Exceptions(Seq<u16>),
    RuntimeVisibleParameterAnnotations(Seq<Seq<SpecAnnotation>>),
    RuntimeInvisibleParameterAnnotations(Seq<Seq<SpecAnnotation>>),
    AnnotationsDefault,
    MethodParameters(Seq<MethodParameterEntry>),
}

impl View for ExceptionTableEntry {
    type V = ExceptionTableEntry;

    open spec fn view(&self) -> ExceptionTableEntry {
        *self
    }
}

impl View for MethodParameterEntry {
    type V = MethodParameterEntry;

    open spec fn view(&self) -> MethodParameterEntry {
        *self
    }
}

impl View for CodeAttribute {
    type V = SpecCodeAttribute;

    open spec fn view(&self) -> SpecCodeAttribute {
        SpecCodeAttribute {
            max_stack: self.max_stack,
            max_locals: self.max_locals,
            code: self.code@,
            exception_table: self.exception_table@,
            attributes: views(self.attributes@),
        }
    }
}

impl View for ParameterAnnotations {
    type V = Seq<SpecAnnotation>;

    open spec fn view(&self) -> Seq<SpecAnnotation> {
        views(self.annotations@)
    }
}

impl View for MethodAttribute {
    type V = SpecMethodAttribute;

    open spec fn view(&self) -> SpecMethodAttribute {
        match self {
            MethodAttribute::Shared(s) => SpecMethodAttribute::Shared(s@),
            MethodAttribute::Code(c) => SpecMethodAttribute::Code(c@),
            MethodAttribute::Exceptions(v) => SpecMethodAttribute::Exceptions(v@),
            MethodAttribute::RuntimeVisibleParameterAnnotations(v) => SpecMethodAttribute::RuntimeVisibleParameterAnnotations(views(v@)),
            MethodAttribute::RuntimeInvisibleParameterAnnotations(v) => SpecMethodAttribute::RuntimeInvisibleParameterAnnotations(views(v@)),
            MethodAttribute::AnnotationsDefault => SpecMethodAttribute::AnnotationsDefault,
            MethodAttribute::MethodParameters(v) => SpecMethodAttribute::MethodParameters(v@),
        }
    }
}

/// Reader of one exception table entry.
pub open spec fn exception_reader() -> spec_fn(Seq<u8>, int) -> SpecRead<ExceptionTableEntry> {
    |d: Seq<u8>, p: int|
        if avail(d, p, 8) {
            Ok(
                (
                    ExceptionTableEntry {
                        start_pc: be_u16(d[p], d[p + 1]),
                        end_pc: be_u16(d[p + 2], d[p + 3]),
                        handler_pc: be_u16(d[p + 4], d[p + 5]),
                        catch_type: be_u16(d[p + 6], d[p + 7]),
                    },
                    p + 8,
                ),
            )
        } else {
            Err(spec_eof())
        }
}

/// Reader of one method parameter entry.
pub open spec fn method_parameter_reader() -> spec_fn(Seq<u8>, int) -> SpecRead<MethodParameterEntry> {
    |d: Seq<u8>, p: int|
        if avail(d, p, 4) {
            Ok(
                (
                    MethodParameterEntry { name_index: be_u16(d[p], d[p + 1]), access_flags: be_u16(d[p + 2], d[p + 3]) },
                    p + 4,
                ),
            )
        } else {
            Err(spec_eof())
        }
}

/// Reader of the annotations of one parameter.
pub open spec fn parameter_annotations_reader() -> spec_fn(Seq<u8>, int) -> SpecRead<Seq<SpecAnnotation>> {
    |d: Seq<u8>, p: int| spec_read_counted(d, p, annotation_reader())
}

/// Reader of one attribute of a `Code` attribute, with names resolved in `pool`.
pub open spec fn code_info_reader(pool: Seq<SpecConstantEntry>) -> spec_fn(Seq<u8>, int) -> SpecRead<SpecCodeAttributeInfo> {
    |d: Seq<u8>, p: int| spec_read_code_attribute_info(pool, d, p)
}

/// Reads the payload of a `Code` attribute at `p`: limits, the code, the exception table
/// and the attributes.
pub open spec fn spec_read_code(pool: Seq<SpecConstantEntry>, d: Seq<u8>, p: int) -> SpecRead<SpecCodeAttribute> {
    if !avail(d, p, 8) {
        Err(spec_eof())
    } else {
        match spec_bytes(d, p + 8, be_u32(d[p + 4], d[p + 5], d[p + 6], d[p + 7]) as int) {
            None => Err(spec_eof()),
            Some((code, q)) => match spec_read_counted(d, q, exception_reader()) {
                Err(e) => Err(e),
                Ok((exception_table, r)) => match spec_read_counted(d, r, code_info_reader(pool)) {
                    Err(e) => Err(e),
                    Ok((attributes, s)) => Ok(
                        (
                            SpecCodeAttribute {
                                max_stack: be_u16(d[p], d[p + 1]),
                                max_locals: be_u16(d[p + 2], d[p + 3]),
                                code,
                                exception_table,
                                attributes,
                            },
                            s,
                        ),
                    ),
                },
            },
        }
    }
}

/// `r` with its value wrapped by `f`.
pub open spec fn wrap_method<A>(r: SpecRead<A>, f: spec_fn(A) -> SpecMethodAttribute) -> SpecRead<SpecMethodAttribute> {
    match r {
        Ok((a, q)) => Ok((f(a), q)),
        Err(e) => Err(e),
    }
}

/// Reads the payload of a method attribute of kind `kind` at `p`. The kinds that this
/// reader does not implement are unsupported.
pub open spec fn spec_read_method_payload(
    pool: Seq<SpecConstantEntry>,
    kind: AttributeKind,
    d: Seq<u8>,
    p: int,
) -> SpecRead<SpecMethodAttribute> {
    match kind {
        AttributeKind::Code => wrap_method(spec_read_code(pool, d, p), |c: SpecCodeAttribute| SpecMethodAttribute::Code(c)),
        AttributeKind::Exceptions => wrap_method(
            spec_read_counted(d, p, u16_reader()),
            |v: Seq<u16>| SpecMethodAttribute::Exceptions(v),
        ),
        AttributeKind::RuntimeVisibleParameterAnnotations => wrap_method(
            spec_read_counted8(d, p, parameter_annotations_reader()),
            |v: Seq<Seq<SpecAnnotation>>| SpecMethodAttribute::RuntimeVisibleParameterAnnotations(v),
        ),
        AttributeKind::RuntimeInvisibleParameterAnnotations => wrap_method(
            spec_read_counted8(d, p, parameter_annotations_reader()),
            |v: Seq<Seq<SpecAnnotation>>| SpecMethodAttribute::RuntimeInvisibleParameterAnnotations(v),
        ),
        AttributeKind::AnnotationDefault => match spec_read_ev(d, p) {
            Ok((_, q)) => Ok((SpecMethodAttribute::AnnotationsDefault, q)),
            Err(e) => Err(e),
        },
        AttributeKind::MethodParameters => wrap_method(
            spec_read_counted8(d, p, method_parameter_reader()),
            |v: Seq<MethodParameterEntry>| SpecMethodAttribute::MethodParameters(v),
        ),
        AttributeKind::Synthetic
        | AttributeKind::Deprecated
        | AttributeKind::Signature
        | AttributeKind::RuntimeVisibleAnnotations
        | AttributeKind::RuntimeInvisibleAnnotations
        | AttributeKind::RuntimeVisibleTypeAnnotations
        | AttributeKind::RuntimeInvisibleTypeAnnotations => wrap_method(
            spec_read_shared(kind, d, p),
            |s: SpecSharedAttribute| SpecMethodAttribute::Shared(s),
        ),
        _ => Err(SpecReadError::Unsupported),
    }
}

/// Reads the method attribute at `p`: header, then payload.
pub open spec fn spec_read_method_attribute(
    pool: Seq<SpecConstantEntry>,
    d: Seq<u8>,
    p: int,
) -> SpecRead<SpecMethodAttribute> {
    match spec_read_attribute_header(pool, d, p) {
        Err(e) => Err(e),
        Ok((kind, q)) => spec_read_method_payload(pool, kind, d, q),
    }
}

fn read_exception_entry(cursor: &mut ByteCursor) -> (r: Result<ExceptionTableEntry, ReadError>)
    requires
        old(cursor).inv(),
    ensures
        read_matches(*old(cursor), *final(cursor), r, exception_reader()(old(cursor).data@, old(cursor).pos as int)),
{
    let start_pc = ru16(cursor)?;
    let end_pc = ru16(cursor)?;
    let handler_pc = ru16(cursor)?;
    let catch_type = ru16(cursor)?;
    Ok(ExceptionTableEntry { start_pc, end_pc, handler_pc, catch_type })
}

fn read_method_parameter(cursor: &mut ByteCursor) -> (r: Result<MethodParameterEntry, ReadError>)
    requires
        old(cursor).inv(),
    ensures
        read_matches(*old(cursor), *final(cursor), r, method_parameter_reader()(old(cursor).data@, old(cursor).pos as int)),
{
    let name_index = ru16(cursor)?;
    let access_flags = ru16(cursor)?;
    Ok(MethodParameterEntry { name_index, access_flags })
}

fn read_parameter_annotations(cursor: &mut ByteCursor) -> (r: Result<ParameterAnnotations, ReadError>)
    requires
        old(cursor).inv(),
    ensures
        read_matches(*old(cursor), *final(cursor), r, parameter_annotations_reader()(old(cursor).data@, old(cursor).pos as int)),
{
    let num_annotations = ru16(cursor)?;
    let annotations = read_n_annotations(cursor, num_annotations as usize)?;
    Ok(ParameterAnnotations { annotations })
}

fn read_code_info(pool: &ConstantPool, cursor: &mut ByteCursor) -> (r: Result<CodeAttributeInfo, ReadError>)
    requires
        old(cursor).inv(),
    ensures
        read_matches(*old(cursor), *final(cursor), r, code_info_reader(pool@)(old(cursor).data@, old(cursor).pos as int)),
{
    CodeAttributeInfo::read(pool, cursor)
}

/// Reads `n` items one after the other.
pub fn read_n_exception_entries(cursor: &mut ByteCursor, n: usize) -> (r: Result<Vec<ExceptionTableEntry>, ReadError>)
    requires
        old(cursor).inv(),
    ensures
        vec_matches(*old(cursor), *final(cursor), r, spec_read_seq(old(cursor).data@, old(cursor).pos as int, n as nat, exception_reader())),
{
    let ghost d = cursor.data@;
    let ghost p0 = cursor.pos as int;
    let mut items: Vec<ExceptionTableEntry> = Vec::new();
    let mut i: usize = 0;
    proof {
        assert(views(items@) =~= Seq::<ExceptionTableEntry>::empty());
    }
    while i < n
        invariant
            cursor.inv(),
            cursor.data@ == d,
            d == old(cursor).data@,
            p0 == old(cursor).pos,
            i <= n,
            spec_read_seq(d, p0, i as nat, exception_reader()) == Ok::<(Seq<ExceptionTableEntry>, int), SpecReadError>((views(items@), cursor.pos as int)),
        decreases n - i,
    {
        let ghost q = cursor.pos as int;
        let x = match read_exception_entry(cursor) {
            Ok(x) => x,
            Err(e) => {
                proof {
                    lemma_read_seq_step_err(d, p0, i as nat, n as nat, exception_reader(), views(items@), q, e@);
                }
                return Err(e);
            },
        };
        let ghost old_items = items@;
        items.push(x);
        proof {
            assert(views(items@) =~= views(old_items).push(x@));
        }
        i = i + 1;
    }
    Ok(items)
}

/// Reads `n` items one after the other.
pub fn read_n_method_parameters(cursor: &mut ByteCursor, n: usize) -> (r: Result<Vec<MethodParameterEntry>, ReadError>)
    requires
        old(cursor).inv(),
    ensures
        vec_matches(*old(cursor), *final(cursor), r, spec_read_seq(old(cursor).data@, old(cursor).pos as int, n as nat, method_parameter_reader())),
{
    let ghost d = cursor.data@;
    let ghost p0 = cursor.pos as int;
    let mut items: Vec<MethodParameterEntry> = Vec::new();
    let mut i: usize = 0;
    proof {
        assert(views(items@) =~= Seq::<MethodParameterEntry>::empty());
    }
    while i < n
        invariant
            cursor.inv(),
            cursor.data@ == d,
            d == old(cursor).data@,
            p0 == old(cursor).pos,
            i <= n,
            spec_read_seq(d, p0, i as nat, method_parameter_reader()) == Ok::<(Seq<MethodParameterEntry>, int), SpecReadError>((views(items@), cursor.pos as int)),
        decreases n - i,
    {
        let ghost q = cursor.pos as int;
        let x = match read_method_parameter(cursor) {
            Ok(x) => x,
            Err(e) => {
                proof {
                    lemma_read_seq_step_err(d, p0, i as nat, n as nat, method_parameter_reader(), views(items@), q, e@);
                }
                return Err(e);
            },
        };
        let ghost old_items = items@;
        items.push(x);
        proof {
            assert(views(items@) =~= views(old_items).push(x@));
        }
        i = i + 1;
    }
    Ok(items)
}

/// Reads `n` items one after the other.
pub fn read_n_parameter_annotations(cursor: &mut ByteCursor, n: usize) -> (r: Result<Vec<ParameterAnnotations>, ReadError>)
    requires
        old(cursor).inv(),
    ensures
        vec_matches(*old(cursor), *final(cursor), r, spec_read_seq(old(cursor).data@, old(cursor).pos as int, n as nat, parameter_annotations_reader())),
{
    let ghost d = cursor.data@;
    let ghost p0 = cursor.pos as int;
    let mut items: Vec<ParameterAnnotations> = Vec::new();
    let mut i: usize = 0;
    proof {
        assert(views(items@) =~= Seq::<Seq<SpecAnnotation>>::empty());
    }
    while i < n
        invariant
            cursor.inv(),
            cursor.data@ == d,
            d == old(cursor).data@,
            p0 == old(cursor).pos,
            i <= n,
            spec_read_seq(d, p0, i as nat, parameter_annotations_reader()) == Ok::<(Seq<Seq<SpecAnnotation>>, int), SpecReadError>((views(items@), cursor.pos as int)),
        decreases n - i,
    {
        let ghost q = cursor.pos as int;
        let x = match read_parameter_annotations(cursor) {
            Ok(x) => x,
            Err(e) => {
                proof {
                    lemma_read_seq_step_err(d, p0, i as nat, n as nat, parameter_annotations_reader(), views(items@), q, e@);
                }
                return Err(e);
            },
        };
        let ghost old_items = items@;
        items.push(x);
        proof {
            assert(views(items@) =~= views(old_items).push(x@));
        }
        i = i + 1;
    }
    Ok(items)
}

/// Reads `n` items one after the other.
pub fn read_n_code_infos(pool: &ConstantPool, cursor: &mut ByteCursor, n: usize) -> (r: Result<Vec<CodeAttributeInfo>, ReadError>)
    requires
        old(cursor).inv(),
    ensures
        vec_matches(*old(cursor), *final(cursor), r, spec_read_seq(old(cursor).data@, old(cursor).pos as int, n as nat, code_info_reader(pool@))),
{
    let ghost d = cursor.data@;
    let ghost p0 = cursor.pos as int;
    let mut items: Vec<CodeAttributeInfo> = Vec::new();
    let mut i: usize = 0;
    proof {
        assert(views(items@) =~= Seq::<SpecCodeAttributeInfo>::empty());
    }
    while i < n
        invariant
            cursor.inv(),
            cursor.data@ == d,
            d == old(cursor).data@,
            p0 == old(cursor).pos,
            i <= n,
            spec_read_seq(d, p0, i as nat, code_info_reader(pool@)) == Ok::<(Seq<SpecCodeAttributeInfo>, int), SpecReadError>((views(items@), cursor.pos as int)),
        decreases n - i,
    {
        let ghost q = cursor.pos as int;
        let x = match read_code_info(pool, cursor) {
            Ok(x) => x,
            Err(e) => {
                proof {
                    lemma_read_seq_step_err(d, p0, i as nat, n as nat, code_info_reader(pool@), views(items@), q, e@);
                }
                return Err(e);
            },
        };
        let ghost old_items = items@;
        items.push(x);
        proof {
            assert(views(items@) =~= views(old_items).push(x@));
        }
        i = i + 1;
    }
    Ok(items)
}

impl CodeAttribute {
    /// Reads the payload of a `Code` attribute, resolving the names of its attributes in `pool`.
    pub fn read(pool: &ConstantPool, cursor: &mut ByteCursor) -> (r: Result<CodeAttribute, ReadError>)
        requires
            old(cursor).inv(),
        ensures
            read_matches(*old(cursor), *final(cursor), r, spec_read_code(pool@, old(cursor).data@, old(cursor).pos as int)),
    {
        let max_stack = ru16(cursor)?;
        let max_locals = ru16(cursor)?;
        let code_length = ru32(cursor)?;
        let code = match cursor.bytes(code_length as usize) {
            Ok(b) => b,
            Err(e) => return Err(ReadError::Format(crate::error::ClassFormatErr::Cursor(e))),
        };
        let exception_table_length = ru16(cursor)?;
        let exception_table = read_n_exception_entries(cursor, exception_table_length as usize)?;
        let attributes_count = ru16(cursor)?;
        let attributes = read_n_code_infos(pool, cursor, attributes_count as usize)?;
        proof {
            assert(views(exception_table@) =~= exception_table@);
        }
        Ok(CodeAttribute { max_stack, max_locals, code, exception_table, attributes })
    }
}

impl MethodAttribute {
    /// Reads one attribute of a method, resolving its name in `pool`.
    pub fn read(pool: &ConstantPool, cursor: &mut ByteCursor) -> (r: Result<MethodAttribute, ReadError>)
        requires
            old(cursor).inv(),
        ensures
            read_matches(*old(cursor), *final(cursor), r, spec_read_method_attribute(pool@, old(cursor).data@, old(cursor).pos as int)),
    {
        let attribute_kind = read_attribute_header(pool, cursor)?;
        match attribute_kind {
            AttributeKind::Code => Ok(MethodAttribute::Code(CodeAttribute::read(pool, cursor)?)),
            AttributeKind::Exceptions => {
                let exceptions = read_u16_list(cursor)?;
                proof {
                    assert(views(exceptions@) =~= exceptions@);
                }
                Ok(MethodAttribute::Exceptions(exceptions))
            },
            AttributeKind::RuntimeVisibleParameterAnnotations => {
                let num_parameters = ru8(cursor)?;
                let params = read_n_parameter_annotations(cursor, num_parameters as usize)?;
                Ok(MethodAttribute::RuntimeVisibleParameterAnnotations(params))
            },
            AttributeKind::RuntimeInvisibleParameterAnnotations => {
                let num_parameters = ru8(cursor)?;
                let params = read_n_parameter_annotations(cursor, num_parameters as usize)?;
                Ok(MethodAttribute::RuntimeInvisibleParameterAnnotations(params))
            },
            AttributeKind::AnnotationDefault => {
                let _default_value = ElementValue::read(cursor)?;
                Ok(MethodAttribute::AnnotationsDefault)
            },
            AttributeKind::MethodParameters => {
                let parameters_count = ru8(cursor)?;
                let params = read_n_method_parameters(cursor, parameters_count as usize)?;
                proof {
                    assert(views(params@) =~= params@);
                }
                Ok(MethodAttribute::MethodParameters(params))
            },
            AttributeKind::Synthetic
            | AttributeKind::Deprecated
            | AttributeKind::Signature
            | AttributeKind::RuntimeVisibleAnnotations
            | AttributeKind::RuntimeInvisibleAnnotations
            | AttributeKind::RuntimeVisibleTypeAnnotations
            | AttributeKind::RuntimeInvisibleTypeAnnotations => Ok(MethodAttribute::Shared(SharedAttribute::read(attribute_kind, cursor)?)),
            _ => Err(ReadError::Unsupported),
        }
    }
}

} // verus!
