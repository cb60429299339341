//! Type annotation types for class file attributes.
//!
//! https://docs.oracle.com/javase/specs/jvms/se25/html/jvms-4.html#jvms-4.7.20

use super::annotation::{
    ElementValuePair, SpecElementValuePair, pairs_view, read_element_value_pairs, spec_read_pairs,
};
use crate::constant_pool::entry::{ru16, ru8};
use crate::cursor::{ByteCursor, avail, be_u16, lift, spec_u16, spec_u8};
use crate::error::{ReadError, SpecRead, SpecReadError, spec_eof};
use crate::read::{
    lemma_read_seq_step_err, spec_read_counted, spec_read_counted8, spec_read_seq, vec_matches, views,
};
use vstd::prelude::*;

verus! {

/// Target information for a type annotation, identifying where the type is used.
#[derive(Debug, Clone, PartialEq, Eq)]
pub enum TargetInfo {
    TypeParameter { type_parameter_index: u8 },
    Supertype { supertype_index: u16 },
    TypeParameterBound { type_parameter_index: u8, bound_index: u8 },
    Empty,
    MethodFormalParameter { formal_parameter_index: u8 },
    Throws { throws_type_index: u16 },
    LocalVar { localvar_table: Vec<LocalVarEntry> },
    Catch { exception_table_index: u16 },
    Offset { offset: u16 },
    TypeArgument { offset: u16, type_argument_index: u8 },
}

/// An entry in the local variable table for type annotations.
#[derive(Debug, Clone, Copy, PartialEq, Eq, Structural)]
pub struct LocalVarEntry {
    pub start_pc: u16,
    pub length: u16,
    pub index: u16,
}

/// A path to a specific nested type within a compound type.
#[derive(Debug, Clone, PartialEq, Eq)]
pub struct TypePath {
    pub path: Vec<TypePathEntry>,
}

/// A single step in a type path.
#[derive(Debug, Clone, Copy, PartialEq, Eq, Structural)]
pub struct TypePathEntry {
    pub type_path_kind: u8,
    pub type_argument_index: u8,
}

/// A type annotation with its target and path information.
///
/// https://docs.oracle.com/javase/specs/jvms/se25/html/jvms-4.html#jvms-4.7.20
#[derive(Debug, PartialEq, Eq)]
pub struct TypeAnnotation {
    pub target_info: TargetInfo,
    pub target_path: TypePath,
    pub type_index: u16,
    pub element_value_pairs: Vec<ElementValuePair>,
}

/// Mathematical counterpart of [`TargetInfo`].
pub enum SpecTargetInfo {
    TypeParameter { type_parameter_index: u8 },
    Supertype { supertype_index: u16 },
    TypeParameterBound { type_parameter_index: u8, bound_index: u8 },
    Empty,
    MethodFormalParameter { formal_parameter_index: u8 },
    Throws { throws_type_index: u16 },
    LocalVar { localvar_table: Seq<LocalVarEntry> },
    Catch { exception_table_index: u16 },
    Offset { offset: u16 },
    TypeArgument { offset: u16, type_argument_index: u8 },
}

/// Mathematical counterpart of [`TypeAnnotation`].
pub struct SpecTypeAnnotation {
    pub target_info: SpecTargetInfo,
    pub target_path: Seq<TypePathEntry>,
    pub type_index: u16,
    pub element_value_pairs: Seq<SpecElementValuePair>,
}

impl View for LocalVarEntry {
    type V = LocalVarEntry;

    open spec fn view(&self) -> LocalVarEntry {
        *self
    }
}

impl View for TypePathEntry {
    type V = TypePathEntry;

    open spec fn view(&self) -> TypePathEntry {
        *self
    }
}

impl View for TargetInfo {
    type V = SpecTargetInfo;

    open spec fn view(&self) -> SpecTargetInfo {
        match self {
            TargetInfo::TypeParameter { type_parameter_index } => SpecTargetInfo::TypeParameter {
                type_parameter_index: *type_parameter_index,
            },
            TargetInfo::Supertype { supertype_index } => SpecTargetInfo::Supertype {
                supertype_index: *supertype_index,
            },
            TargetInfo::TypeParameterBound { type_parameter_index, bound_index } => SpecTargetInfo::TypeParameterBound {
                type_parameter_index: *type_parameter_index,
                bound_index: *bound_index,
            },
            TargetInfo::Empty => SpecTargetInfo::Empty,
            TargetInfo::MethodFormalParameter { formal_parameter_index } => SpecTargetInfo::MethodFormalParameter {
                formal_parameter_index: *formal_parameter_index,
            },
            TargetInfo::Throws { throws_type_index } => SpecTargetInfo::Throws {
                throws_type_index: *throws_type_index,
            },
            TargetInfo::LocalVar { localvar_table } => SpecTargetInfo::LocalVar { localvar_table: localvar_table@ },
            TargetInfo::Catch { exception_table_index } => SpecTargetInfo::Catch {
                exception_table_index: *exception_table_index,
            },
            TargetInfo::Offset { offset } => SpecTargetInfo::Offset { offset: *offset },
            TargetInfo::TypeArgument { offset, type_argument_index } => SpecTargetInfo::TypeArgument {
                offset: *offset,
                type_argument_index: *type_argument_index,
            },
        }
    }
}

impl View for TypePath {
    type V = Seq<TypePathEntry>;

    open spec fn view(&self) -> Seq<TypePathEntry> {
        self.path@
    }
}

impl View for TypeAnnotation {
    type V = SpecTypeAnnotation;

    open spec fn view(&self) -> SpecTypeAnnotation {
        SpecTypeAnnotation {
            target_info: self.target_info@,
            target_path: self.target_path@,
            type_index: self.type_index,
            element_value_pairs: pairs_view(self.element_value_pairs@),
        }
    }
}

/// Reader of one local variable table entry: start, length and slot.
pub open spec fn local_var_reader() -> spec_fn(Seq<u8>, int) -> SpecRead<LocalVarEntry> {
    |d: Seq<u8>, p: int|
        if avail(d, p, 6) {
            Ok(
                (
                    LocalVarEntry {
                        start_pc: be_u16(d[p], d[p + 1]),
                        length: be_u16(d[p + 2], d[p + 3]),
                        index: be_u16(d[p + 4], d[p + 5]),
                    },
                    p + 6,
                ),
            )
        } else {
            Err(spec_eof())
        }
}

/// Reader of one type path step: kind and argument index.
pub open spec fn path_entry_reader() -> spec_fn(Seq<u8>, int) -> SpecRead<TypePathEntry> {
    |d: Seq<u8>, p: int|
        if avail(d, p, 2) {
            Ok((TypePathEntry { type_path_kind: d[p], type_argument_index: d[p + 1] }, p + 2))
        } else {
            Err(spec_eof())
        }
}

/// `r` with its value wrapped by `f`.
pub open spec fn wrap<A>(r: Option<(A, int)>, f: spec_fn(A) -> SpecTargetInfo) -> SpecRead<SpecTargetInfo> {
    match r {
        Some((a, q)) => Ok((f(a), q)),
        None => Err(spec_eof()),
    }
}

/// Reads the target type byte at `p` and the target information it announces, by the
/// target types of JVMS 4.7.20 (tables 4.7.20-A to C). Any other target type is
/// unsupported.
pub open spec fn spec_read_target_info(d: Seq<u8>, p: int) -> SpecRead<SpecTargetInfo> {
    if !avail(d, p, 1) {
        Err(spec_eof())
    } else {
        let q = p + 1;
        let t = d[p];
        if t == 0x00 || t == 0x01 {
            wrap(spec_u8(d, q), |x: u8| SpecTargetInfo::TypeParameter { type_parameter_index: x })
        } else if t == 0x10 {
            wrap(spec_u16(d, q), |x: u16| SpecTargetInfo::Supertype { supertype_index: x })
        } else if t == 0x11 || t == 0x12 {
            match spec_u8(d, q) {
                None => Err(spec_eof()),
                Some((a, r)) => wrap(
                    spec_u8(d, r),
                    |x: u8| SpecTargetInfo::TypeParameterBound { type_parameter_index: a, bound_index: x },
                ),
            }
        } else if 0x13 <= t <= 0x15 {
            Ok((SpecTargetInfo::Empty, q))
        } else if t == 0x16 {
            wrap(spec_u8(d, q), |x: u8| SpecTargetInfo::MethodFormalParameter { formal_parameter_index: x })
        } else if t == 0x17 {
            wrap(spec_u16(d, q), |x: u16| SpecTargetInfo::Throws { throws_type_index: x })
        } else if t == 0x40 || t == 0x41 {
            match spec_read_counted(d, q, local_var_reader()) {
                Err(e) => Err(e),
                Ok((table, r)) => Ok((SpecTargetInfo::LocalVar { localvar_table: table }, r)),
            }
        } else if t == 0x42 {
            wrap(spec_u16(d, q), |x: u16| SpecTargetInfo::Catch { exception_table_index: x })
        } else if 0x43 <= t <= 0x46 {
            wrap(spec_u16(d, q), |x: u16| SpecTargetInfo::Offset { offset: x })
        } else if 0x47 <= t <= 0x4B {
            match spec_u16(d, q) {
                None => Err(spec_eof()),
                Some((a, r)) => wrap(
                    spec_u8(d, r),
                    |x: u8| SpecTargetInfo::TypeArgument { offset: a, type_argument_index: x },
                ),
            }
        } else {
            Err(SpecReadError::Unsupported)
        }
    }
}

/// Reads the type annotation at `p`: target, type path, type index and element-value pairs.
pub open spec fn spec_read_type_annotation(d: Seq<u8>, p: int) -> SpecRead<SpecTypeAnnotation> {
    match spec_read_target_info(d, p) {
        Err(e) => Err(e),
        Ok((target_info, q)) => match spec_read_counted8(d, q, path_entry_reader()) {
            Err(e) => Err(e),
            Ok((target_path, r)) => if !avail(d, r, 4) {
                Err(spec_eof())
            } else {
                match spec_read_pairs(d, r + 4, be_u16(d[r + 2], d[r + 3]) as nat) {
                    Err(e) => Err(e),
                    Ok((pairs, s)) => Ok(
                        (
                            SpecTypeAnnotation {
                                target_info,
                                target_path,
                                type_index: be_u16(d[r], d[r + 1]),
                                element_value_pairs: pairs,
                            },
                            s,
                        ),
                    ),
                }
            },
        },
    }
}

/// Reader of one type annotation.
pub open spec fn type_annotation_reader() -> spec_fn(Seq<u8>, int) -> SpecRead<SpecTypeAnnotation> {
    |d: Seq<u8>, p: int| spec_read_type_annotation(d, p)
}

fn read_local_var_entry(cursor: &mut ByteCursor) -> (r: Result<LocalVarEntry, ReadError>)
    requires
        old(cursor).inv(),
    ensures
        crate::constant_pool::entry::read_matches(*old(cursor), *final(cursor), r, local_var_reader()(old(cursor).data@, old(cursor).pos as int)),
{
    let start_pc = ru16(cursor)?;
    let length = ru16(cursor)?;
    let index = ru16(cursor)?;
    Ok(LocalVarEntry { start_pc, length, index })
}

fn read_path_entry(cursor: &mut ByteCursor) -> (r: Result<TypePathEntry, ReadError>)
    requires
        old(cursor).inv(),
    ensures
        crate::constant_pool::entry::read_matches(*old(cursor), *final(cursor), r, path_entry_reader()(old(cursor).data@, old(cursor).pos as int)),
{
    let type_path_kind = ru8(cursor)?;
    let type_argument_index = ru8(cursor)?;
    Ok(TypePathEntry { type_path_kind, type_argument_index })
}

/// Reads `n` items one after the other.
pub fn read_n_local_vars(cursor: &mut ByteCursor, n: usize) -> (r: Result<Vec<LocalVarEntry>, ReadError>)
    requires
        old(cursor).inv(),
    ensures
        vec_matches(*old(cursor), *final(cursor), r, spec_read_seq(old(cursor).data@, old(cursor).pos as int, n as nat, local_var_reader())),
{
    let ghost d = cursor.data@;
    let ghost p0 = cursor.pos as int;
    let mut items: Vec<LocalVarEntry> = Vec::new();
    let mut i: usize = 0;
    proof {
        assert(views(items@) =~= Seq::<LocalVarEntry>::empty());
    }
    while i < n
        invariant
            cursor.inv(),
            cursor.data@ == d,
            d == old(cursor).data@,
            p0 == old(cursor).pos,
            i <= n,
            spec_read_seq(d, p0, i as nat, local_var_reader()) == Ok::<(Seq<LocalVarEntry>, int), SpecReadError>((views(items@), cursor.pos as int)),
        decreases n - i,
    {
        let ghost q = cursor.pos as int;
        let x = match read_local_var_entry(cursor) {
            Ok(x) => x,
            Err(e) => {
                proof {
                    lemma_read_seq_step_err(d, p0, i as nat, n as nat, local_var_reader(), views(items@), q, e@);
                }
                return Err(e);
            },
        };
        let ghost old_items = items@;
        items.push(x);
        proof {
            assert(views(items@) =~= views(old_items).push(x@));
        }
        i = i + 1;
    }
    Ok(items)
}

/// Reads `n` items one after the other.
pub fn read_n_path_entries(cursor: &mut ByteCursor, n: usize) -> (r: Result<Vec<TypePathEntry>, ReadError>)
    requires
        old(cursor).inv(),
    ensures
        vec_matches(*old(cursor), *final(cursor), r, spec_read_seq(old(cursor).data@, old(cursor).pos as int, n as nat, path_entry_reader())),
{
    let ghost d = cursor.data@;
    let ghost p0 = cursor.pos as int;
    let mut items: Vec<TypePathEntry> = Vec::new();
    let mut i: usize = 0;
    proof {
        assert(views(items@) =~= Seq::<TypePathEntry>::empty());
    }
    while i < n
        invariant
            cursor.inv(),
            cursor.data@ == d,
            d == old(cursor).data@,
            p0 == old(cursor).pos,
            i <= n,
            spec_read_seq(d, p0, i as nat, path_entry_reader()) == Ok::<(Seq<TypePathEntry>, int), SpecReadError>((views(items@), cursor.pos as int)),
        decreases n - i,
    {
        let ghost q = cursor.pos as int;
        let x = match read_path_entry(cursor) {
            Ok(x) => x,
            Err(e) => {
                proof {
                    lemma_read_seq_step_err(d, p0, i as nat, n as nat, path_entry_reader(), views(items@), q, e@);
                }
                return Err(e);
            },
        };
        let ghost old_items = items@;
        items.push(x);
        proof {
            assert(views(items@) =~= views(old_items).push(x@));
        }
        i = i + 1;
    }
    Ok(items)
}

/// Reads `n` items one after the other.
pub fn read_n_type_annotations(cursor: &mut ByteCursor, n: usize) -> (r: Result<Vec<TypeAnnotation>, ReadError>)
    requires
        old(cursor).inv(),
    ensures
        vec_matches(*old(cursor), *final(cursor), r, spec_read_seq(old(cursor).data@, old(cursor).pos as int, n as nat, type_annotation_reader())),
{
    let ghost d = cursor.data@;
    let ghost p0 = cursor.pos as int;
    let mut items: Vec<TypeAnnotation> = Vec::new();
    let mut i: usize = 0;
    proof {
        assert(views(items@) =~= Seq::<SpecTypeAnnotation>::empty());
    }
    while i < n
        invariant
            cursor.inv(),
            cursor.data@ == d,
            d == old(cursor).data@,
            p0 == old(cursor).pos,
            i <= n,
            spec_read_seq(d, p0, i as nat, type_annotation_reader()) == Ok::<(Seq<SpecTypeAnnotation>, int), SpecReadError>((views(items@), cursor.pos as int)),
        decreases n - i,
    {
        let ghost q = cursor.pos as int;
        let x = match TypeAnnotation::read(cursor) {
            Ok(x) => x,
            Err(e) => {
                proof {
                    lemma_read_seq_step_err(d, p0, i as nat, n as nat, type_annotation_reader(), views(items@), q, e@);
                }
                return Err(e);
            },
        };
        let ghost old_items = items@;
        items.push(x);
        proof {
            assert(views(items@) =~= views(old_items).push(x@));
        }
        i = i + 1;
    }
    Ok(items)
}

fn read_target_info(cursor: &mut ByteCursor) -> (r: Result<TargetInfo, ReadError>)
    requires
        old(cursor).inv(),
    ensures
        crate::constant_pool::entry::read_matches(*old(cursor), *final(cursor), r, spec_read_target_info(old(cursor).data@, old(cursor).pos as int)),
{
    let target_type = ru8(cursor)?;
    let target_info = if target_type == 0x00 || target_type == 0x01 {
        TargetInfo::TypeParameter { type_parameter_index: ru8(cursor)? }
    } else if target_type == 0x10 {
        TargetInfo::Supertype { supertype_index: ru16(cursor)? }
    } else if target_type == 0x11 || target_type == 0x12 {
        let type_parameter_index = ru8(cursor)?;
        let bound_index = ru8(cursor)?;
        TargetInfo::TypeParameterBound { type_parameter_index, bound_index }
    } else if 0x13 <= target_type && target_type <= 0x15 {
        TargetInfo::Empty
    } else if target_type == 0x16 {
        TargetInfo::MethodFormalParameter { formal_parameter_index: ru8(cursor)? }
    } else if target_type == 0x17 {
        TargetInfo::Throws { throws_type_index: ru16(cursor)? }
    } else if target_type == 0x40 || target_type == 0x41 {
        let table_length = ru16(cursor)?;
        let localvar_table = read_n_local_vars(cursor, table_length as usize)?;
        proof {
            assert(views(localvar_table@) =~= localvar_table@);
        }
        TargetInfo::LocalVar { localvar_table }
    } else if target_type == 0x42 {
        TargetInfo::Catch { exception_table_index: ru16(cursor)? }
    } else if 0x43 <= target_type && target_type <= 0x46 {
        TargetInfo::Offset { offset: ru16(cursor)? }
    } else if 0x47 <= target_type && target_type <= 0x4B {
        let offset = ru16(cursor)?;
        let type_argument_index = ru8(cursor)?;
        TargetInfo::TypeArgument { offset, type_argument_index }
    } else {
        return Err(ReadError::Unsupported);
    };
    Ok(target_info)
}

impl TypeAnnotation {
    pub fn read(cursor: &mut ByteCursor) -> (r: Result<TypeAnnotation, ReadError>)
        requires
            old(cursor).inv(),
        ensures
            crate::constant_pool::entry::read_matches(*old(cursor), *final(cursor), r, spec_read_type_annotation(old(cursor).data@, old(cursor).pos as int)),
    {
        let target_info = read_target_info(cursor)?;
        let path_length = ru8(cursor)?;
        let path = read_n_path_entries(cursor, path_length as usize)?;
        proof {
            assert(views(path@) =~= path@);
        }
        let target_path = TypePath { path };
        let type_index = ru16(cursor)?;
        let num_element_value_pairs = ru16(cursor)?;
        let element_value_pairs = read_element_value_pairs(cursor, num_element_value_pairs)?;
        Ok(TypeAnnotation { target_info, target_path, type_index, element_value_pairs })
    }
}

} // verus!
