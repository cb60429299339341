//! Attributes of a class.

use super::kind::AttributeKind;
use super::shared::{
    SharedAttribute, SpecSharedAttribute, read_attribute_header, spec_read_attribute_header,
    spec_read_shared,
};
use crate::constant_pool::entry::{read_matches, ru16};
use crate::constant_pool::{ConstantPool, SpecConstantEntry};
use crate::cursor::{ByteCursor, avail, be_u16, spec_u16};
use crate::error::{ReadError, SpecRead, SpecReadError, spec_eof};
use crate::read::{
    lemma_read_seq_step_err, read_u16_list, spec_read_counted, spec_read_seq, u16_reader, vec_matches,
    views,
};
use vstd::prelude::*;

verus! {

#[derive(Debug, PartialEq, Eq)]
pub enum ClassAttribute {
    Shared(SharedAttribute),
    SourceFile(u16),
    InnerClasses(Vec<InnerClassEntry>),
    EnclosingMethod(u16, u16),
    SourceDebugExtension,
    BootstrapMethods(Vec<BootstrapMethodEntry>),
    Module,
    ModulePackages,
    ModuleMainClass,
    NestHost(u16),
    NestMembers(Vec<u16>),
    Record,
    PermittedSubclasses(Vec<u16>),
}

#[derive(Debug, Clone, PartialEq, Eq)]
pub struct BootstrapMethodEntry {
    pub bootstrap_method_idx: u16,
    pub bootstrap_arguments: Vec<u16>,
}

#[derive(Debug, Clone, Copy, PartialEq, Eq, Structural)]
pub struct InnerClassEntry {
    pub inner_class_info_index: u16,
    pub outer_class_info_index: u16,
    pub inner_name_index: u16,
    pub inner_class_access_flags: u16,
}

/// Mathematical counterpart of [`BootstrapMethodEntry`].
pub struct SpecBootstrapMethod {
    pub bootstrap_method_idx: u16,
    pub bootstrap_arguments: Seq<u16>,
}

/// Mathematical counterpart of [`ClassAttribute`].
pub enum SpecClassAttribute {
    Shared(SpecSharedAttribute),
    SourceFile(u16),
    InnerClasses(Seq<InnerClassEntry>),
    EnclosingMethod(u16, u16),
    SourceDebugExtension,
    BootstrapMethods(Seq<SpecBootstrapMethod>),
    Module,
    ModulePackages,
    ModuleMainClass,
    NestHost(u16),
    NestMembers(Seq<u16>),
    Record,
    PermittedSubclasses(Seq<u16>),
}

impl View for InnerClassEntry {
    type V = InnerClassEntry;

    open spec fn view(&self) -> InnerClassEntry {
        *self
    }
}

impl View for BootstrapMethodEntry {
    type V = SpecBootstrapMethod;

    open spec fn view(&self) -> SpecBootstrapMethod {
        SpecBootstrapMethod {
            bootstrap_method_idx: self.bootstrap_method_idx,
            bootstrap_arguments: self.bootstrap_arguments@,
        }
    }
}

impl View for ClassAttribute {
    type V = SpecClassAttribute;

    open spec fn view(&self) -> SpecClassAttribute {
        match self {
            ClassAttribute::Shared(s) => SpecClassAttribute::Shared(s@),
            ClassAttribute::SourceFile(i) => SpecClassAttribute::SourceFile(*i),
            ClassAttribute::InnerClasses(v) => SpecClassAttribute::InnerClasses(v@),
            ClassAttribute::EnclosingMethod(c, m) => SpecClassAttribute::EnclosingMethod(*c, *m),
            ClassAttribute::SourceDebugExtension => SpecClassAttribute::SourceDebugExtension,
            ClassAttribute::BootstrapMethods(v) => SpecClassAttribute::BootstrapMethods(views(v@)),
            ClassAttribute::Module => SpecClassAttribute::Module,
            ClassAttribute::ModulePackages => SpecClassAttribute::ModulePackages,
            ClassAttribute::ModuleMainClass => SpecClassAttribute::ModuleMainClass,
            ClassAttribute::NestHost(i) => SpecClassAttribute::NestHost(*i),
            ClassAttribute::NestMembers(v) => SpecClassAttribute::NestMembers(v@),
            ClassAttribute::Record => SpecClassAttribute::Record,
            ClassAttribute::PermittedSubclasses(v) => SpecClassAttribute::PermittedSubclasses(v@),
        }
    }
}

impl BootstrapMethodEntry {
    pub fn new(bootstrap_method_ref: u16, bootstrap_arguments: Vec<u16>) -> (e: Self)
        ensures
            e.bootstrap_method_idx == bootstrap_method_ref,
            e.bootstrap_arguments@ == bootstrap_arguments@,
    {
        Self { bootstrap_method_idx: bootstrap_method_ref, bootstrap_arguments }
    }
}

impl InnerClassEntry {
    pub fn new(
        inner_class_info_index: u16,
        outer_class_info_index: u16,
        inner_name_index: u16,
        inner_class_access_flags: u16,
    ) -> (e: Self)
        ensures
            e == (InnerClassEntry {
                inner_class_info_index,
                outer_class_info_index,
                inner_name_index,
                inner_class_access_flags,
            }),
    {
        Self { inner_class_info_index, outer_class_info_index, inner_name_index, inner_class_access_flags }
    }
}

/// Reader of one bootstrap method: the method handle index and its counted arguments.
pub open spec fn bootstrap_reader() -> spec_fn(Seq<u8>, int) -> SpecRead<SpecBootstrapMethod> {
    |d: Seq<u8>, p: int|
        match spec_u16(d, p) {
            None => Err(spec_eof()),
            Some((idx, q)) => match spec_read_counted(d, q, u16_reader()) {
                Err(e) => Err(e),
                Ok((args, r)) => Ok(
                    (SpecBootstrapMethod { bootstrap_method_idx: idx, bootstrap_arguments: args }, r),
                ),
            },
        }
}

/// Reader of one inner class entry: four `u16` values.
pub open spec fn inner_class_reader() -> spec_fn(Seq<u8>, int) -> SpecRead<InnerClassEntry> {
    |d: Seq<u8>, p: int|
        if avail(d, p, 8) {
            Ok(
                (
                    InnerClassEntry {
                        inner_class_info_index: be_u16(d[p], d[p + 1]),
                        outer_class_info_index: be_u16(d[p + 2], d[p + 3]),
                        inner_name_index: be_u16(d[p + 4], d[p + 5]),
                        inner_class_access_flags: be_u16(d[p + 6], d[p + 7]),
                    },
                    p + 8,
                ),
            )
        } else {
            Err(spec_eof())
        }
}

/// `r` with its value wrapped by `f`.
pub open spec fn wrap_class<A>(r: SpecRead<A>, f: spec_fn(A) -> SpecClassAttribute) -> SpecRead<SpecClassAttribute> {
    match r {
        Ok((a, q)) => Ok((f(a), q)),
        Err(e) => Err(e),
    }
}

/// Reads the payload of a class attribute of kind `kind` at `p`. The kinds that this
/// reader does not implement are unsupported.
pub open spec fn spec_read_class_payload(kind: AttributeKind, d: Seq<u8>, p: int) -> SpecRead<SpecClassAttribute> {
    match kind {
        AttributeKind::SourceFile => match spec_u16(d, p) {
            Some((i, q)) => Ok((SpecClassAttribute::SourceFile(i), q)),
            None => Err(spec_eof()),
        },
        AttributeKind::BootstrapMethods => wrap_class(
            spec_read_counted(d, p, bootstrap_reader()),
            |v: Seq<SpecBootstrapMethod>| SpecClassAttribute::BootstrapMethods(v),
        ),
        AttributeKind::InnerClasses => wrap_class(
            spec_read_counted(d, p, inner_class_reader()),
            |v: Seq<InnerClassEntry>| SpecClassAttribute::InnerClasses(v),
        ),
        AttributeKind::NestMembers => wrap_class(
            spec_read_counted(d, p, u16_reader()),
            |v: Seq<u16>| SpecClassAttribute::NestMembers(v),
        ),
        AttributeKind::NestHost => match spec_u16(d, p) {
            Some((i, q)) => Ok((SpecClassAttribute::NestHost(i), q)),
            None => Err(spec_eof()),
        },
        AttributeKind::EnclosingMethod => if avail(d, p, 4) {
            Ok(
                (
                    SpecClassAttribute::EnclosingMethod(be_u16(d[p], d[p + 1]), be_u16(d[p + 2], d[p + 3])),
                    p + 4,
                ),
            )
        } else {
            Err(spec_eof())
        },
        AttributeKind::PermittedSubclasses => wrap_class(
            spec_read_counted(d, p, u16_reader()),
            |v: Seq<u16>| SpecClassAttribute::PermittedSubclasses(v),
        ),
        AttributeKind::RuntimeVisibleAnnotations
        | AttributeKind::RuntimeVisibleTypeAnnotations
        | AttributeKind::RuntimeInvisibleTypeAnnotations
        | AttributeKind::Synthetic
        | AttributeKind::Deprecated
        | AttributeKind::RuntimeInvisibleAnnotations
        | AttributeKind::Signature => wrap_class(
            spec_read_shared(kind, d, p),
            |s: SpecSharedAttribute| SpecClassAttribute::Shared(s),
        ),
        _ => Err(SpecReadError::Unsupported),
    }
}

/// Reads the class attribute at `p`: header, then payload.
pub open spec fn spec_read_class_attribute(
    pool: Seq<SpecConstantEntry>,
    d: Seq<u8>,
    p: int,
) -> SpecRead<SpecClassAttribute> {
    match spec_read_attribute_header(pool, d, p) {
        Err(e) => Err(e),
        Ok((kind, q)) => spec_read_class_payload(kind, d, q),
    }
}

fn read_bootstrap_method(cursor: &mut ByteCursor) -> (r: Result<BootstrapMethodEntry, ReadError>)
    requires
        old(cursor).inv(),
    ensures
        read_matches(*old(cursor), *final(cursor), r, bootstrap_reader()(old(cursor).data@, old(cursor).pos as int)),
{
    let bootstrap_method_ref = ru16(cursor)?;
    let bootstrap_arguments = read_u16_list(cursor)?;
    proof {
        assert(views(bootstrap_arguments@) =~= bootstrap_arguments@);
    }
    Ok(BootstrapMethodEntry::new(bootstrap_method_ref, bootstrap_arguments))
}

fn read_inner_class(cursor: &mut ByteCursor) -> (r: Result<InnerClassEntry, ReadError>)
    requires
        old(cursor).inv(),
    ensures
        read_matches(*old(cursor), *final(cursor), r, inner_class_reader()(old(cursor).data@, old(cursor).pos as int)),
{
    let inner_class_info_index = ru16(cursor)?;
    let outer_class_info_index = ru16(cursor)?;
    let inner_name_index = ru16(cursor)?;
    let inner_class_access_flags = ru16(cursor)?;
    Ok(InnerClassEntry::new(inner_class_info_index, outer_class_info_index, inner_name_index, inner_class_access_flags))
}

/// Reads `n` items one after the other.
pub fn read_n_bootstrap_methods(cursor: &mut ByteCursor, n: usize) -> (r: Result<Vec<BootstrapMethodEntry>, ReadError>)
    requires
        old(cursor).inv(),
    ensures
        vec_matches(*old(cursor), *final(cursor), r, spec_read_seq(old(cursor).data@, old(cursor).pos as int, n as nat, bootstrap_reader())),
{
    let ghost d = cursor.data@;
    let ghost p0 = cursor.pos as int;
    let mut items: Vec<BootstrapMethodEntry> = Vec::new();
    let mut i: usize = 0;
    proof {
        assert(views(items@) =~= Seq::<SpecBootstrapMethod>::empty());
    }
    while i < n
        invariant
            cursor.inv(),
            cursor.data@ == d,
            d == old(cursor).data@,
            p0 == old(cursor).pos,
            i <= n,
            spec_read_seq(d, p0, i as nat, bootstrap_reader()) == Ok::<(Seq<SpecBootstrapMethod>, int), SpecReadError>((views(items@), cursor.pos as int)),
        decreases n - i,
    {
        let ghost q = cursor.pos as int;
        let x = match read_bootstrap_method(cursor) {
            Ok(x) => x,
            Err(e) => {
                proof {
                    lemma_read_seq_step_err(d, p0, i as nat, n as nat, bootstrap_reader(), views(items@), q, e@);
                }
                return Err(e);
            },
        };
        let ghost old_items = items@;
        items.push(x);
        proof {
            assert(views(items@) =~= views(old_items).push(x@));
        }
        i = i + 1;
    }
    Ok(items)
}

/// Reads `n` items one after the other.
pub fn read_n_inner_classes(cursor: &mut ByteCursor, n: usize) -> (r: Result<Vec<InnerClassEntry>, ReadError>)
    requires
        old(cursor).inv(),
    ensures
        vec_matches(*old(cursor), *final(cursor), r, spec_read_seq(old(cursor).data@, old(cursor).pos as int, n as nat, inner_class_reader())),
{
    let ghost d = cursor.data@;
    let ghost p0 = cursor.pos as int;
    let mut items: Vec<InnerClassEntry> = Vec::new();
    let mut i: usize = 0;
    proof {
        assert(views(items@) =~= Seq::<InnerClassEntry>::empty());
    }
    while i < n
        invariant
            cursor.inv(),
            cursor.data@ == d,
            d == old(cursor).data@,
            p0 == old(cursor).pos,
            i <= n,
            spec_read_seq(d, p0, i as nat, inner_class_reader()) == Ok::<(Seq<InnerClassEntry>, int), SpecReadError>((views(items@), cursor.pos as int)),
        decreases n - i,
    {
        let ghost q = cursor.pos as int;
        let x = match read_inner_class(cursor) {
            Ok(x) => x,
            Err(e) => {
                proof {
                    lemma_read_seq_step_err(d, p0, i as nat, n as nat, inner_class_reader(), views(items@), q, e@);
                }
                return Err(e);
            },
        };
        let ghost old_items = items@;
        items.push(x);
        proof {
            assert(views(items@) =~= views(old_items).push(x@));
        }
        i = i + 1;
    }
    Ok(items)
}

impl ClassAttribute {
    /// Reads one attribute of a class, resolving its name in `pool`.
    pub fn read(pool: &ConstantPool, cursor: &mut ByteCursor) -> (r: Result<ClassAttribute, ReadError>)
        requires
            old(cursor).inv(),
        ensures
            read_matches(*old(cursor), *final(cursor), r, spec_read_class_attribute(pool@, old(cursor).data@, old(cursor).pos as int)),
    {
        let attribute_kind = read_attribute_header(pool, cursor)?;
        match attribute_kind {
            AttributeKind::SourceFile => Ok(ClassAttribute::SourceFile(ru16(cursor)?)),
            AttributeKind::BootstrapMethods => {
                let number_of_bootstrap_methods = ru16(cursor)?;
                let methods = read_n_bootstrap_methods(cursor, number_of_bootstrap_methods as usize)?;
                Ok(ClassAttribute::BootstrapMethods(methods))
            },
            AttributeKind::InnerClasses => {
                let number_of_classes = ru16(cursor)?;
                let classes = read_n_inner_classes(cursor, number_of_classes as usize)?;
                proof {
                    assert(views(classes@) =~= classes@);
                }
                Ok(ClassAttribute::InnerClasses(classes))
            },
            AttributeKind::NestMembers => {
                let classes = read_u16_list(cursor)?;
                proof {
                    assert(views(classes@) =~= classes@);
                }
                Ok(ClassAttribute::NestMembers(classes))
            },
            AttributeKind::NestHost => {
                let host_class_index = ru16(cursor)?;
                Ok(ClassAttribute::NestHost(host_class_index))
            },
            AttributeKind::EnclosingMethod => {
                let class_index = ru16(cursor)?;
                let method_index = ru16(cursor)?;
                Ok(ClassAttribute::EnclosingMethod(class_index, method_index))
            },
            AttributeKind::PermittedSubclasses => {
                let classes = read_u16_list(cursor)?;
                proof {
                    assert(views(classes@) =~= classes@);
                }
                Ok(ClassAttribute::PermittedSubclasses(classes))
            },
            AttributeKind::RuntimeVisibleAnnotations
            | AttributeKind::RuntimeVisibleTypeAnnotations
            | AttributeKind::RuntimeInvisibleTypeAnnotations
            | AttributeKind::Synthetic
            | AttributeKind::Deprecated
            | AttributeKind::RuntimeInvisibleAnnotations
            | AttributeKind::Signature => Ok(ClassAttribute::Shared(SharedAttribute::read(attribute_kind, cursor)?)),
            _ => Err(ReadError::Unsupported),
        }
    }
}

} // verus!
