//! A field of a class.

use crate::attribute::field::{SpecFieldAttribute, spec_read_field_attribute};
use crate::attribute::FieldAttribute;
use crate::constant_pool::entry::{read_matches, ru16};
use crate::constant_pool::{ConstantPool, SpecConstantEntry};
use crate::cursor::{ByteCursor, avail, be_u16};
use crate::error::{ReadError, SpecRead, SpecReadError, spec_eof};
use crate::flags::FieldFlags;
use crate::read::{lemma_read_seq_step_err, spec_read_seq, vec_matches, views};
use vstd::prelude::*;

verus! {

/// A field in a class file.
///
/// https://docs.oracle.com/javase/specs/jvms/se25/html/jvms-4.html#jvms-4.5
#[derive(Debug)]
pub struct FieldInfo {
    pub access_flags: FieldFlags,
    pub name_index: u16,
    pub descriptor_index: u16,
    pub attributes: Vec<FieldAttribute>,
}

/// Mathematical counterpart of [`FieldInfo`].
pub struct SpecFieldInfo {
    pub access_flags: u16,
    pub name_index: u16,
    pub descriptor_index: u16,
    pub attributes: Seq<SpecFieldAttribute>,
}

impl View for FieldInfo {
    type V = SpecFieldInfo;

    open spec fn view(&self) -> SpecFieldInfo {
        SpecFieldInfo {
            access_flags: self.access_flags@,
            name_index: self.name_index,
            descriptor_index: self.descriptor_index,
            attributes: views(self.attributes@),
        }
    }
}

/// Reader of one attribute of a field, with names resolved in `pool`.
pub open spec fn field_attribute_reader(pool: Seq<SpecConstantEntry>) -> spec_fn(Seq<u8>, int) -> SpecRead<SpecFieldAttribute> {
    |d: Seq<u8>, p: int| spec_read_field_attribute(pool, d, p)
}

/// Reads the field at `p`: flags, name and descriptor indices, and counted attributes.
pub open spec fn spec_read_field(pool: Seq<SpecConstantEntry>, d: Seq<u8>, p: int) -> SpecRead<SpecFieldInfo> {
    if !avail(d, p, 8) {
        Err(spec_eof())
    } else {
        match spec_read_seq(d, p + 8, be_u16(d[p + 6], d[p + 7]) as nat, field_attribute_reader(pool)) {
            Err(e) => Err(e),
            Ok((attributes, q)) => Ok(
                (
                    SpecFieldInfo {
                        access_flags: be_u16(d[p], d[p + 1]),
                        name_index: be_u16(d[p + 2], d[p + 3]),
                        descriptor_index: be_u16(d[p + 4], d[p + 5]),
                        attributes,
                    },
                    q,
                ),
            ),
        }
    }
}

fn read_field_attribute(pool: &ConstantPool, cursor: &mut ByteCursor) -> (r: Result<FieldAttribute, ReadError>)
    requires
        old(cursor).inv(),
    ensures
        read_matches(*old(cursor), *final(cursor), r, field_attribute_reader(pool@)(old(cursor).data@, old(cursor).pos as int)),
{
    FieldAttribute::read(pool, cursor)
}

/// Reads `n` items one after the other.
pub fn read_n_field_attributes(pool: &ConstantPool, cursor: &mut ByteCursor, n: usize) -> (r: Result<Vec<FieldAttribute>, ReadError>)
    requires
        old(cursor).inv(),
    ensures
        vec_matches(*old(cursor), *final(cursor), r, spec_read_seq(old(cursor).data@, old(cursor).pos as int, n as nat, field_attribute_reader(pool@))),
{
    let ghost d = cursor.data@;
    let ghost p0 = cursor.pos as int;
    let mut items: Vec<FieldAttribute> = Vec::new();
    let mut i: usize = 0;
    proof {
        assert(views(items@) =~= Seq::<SpecFieldAttribute>::empty());
    }
    while i < n
        invariant
            cursor.inv(),
            cursor.data@ == d,
            d == old(cursor).data@,
            p0 == old(cursor).pos,
            i <= n,
            spec_read_seq(d, p0, i as nat, field_attribute_reader(pool@)) == Ok::<(Seq<SpecFieldAttribute>, int), SpecReadError>((views(items@), cursor.pos as int)),
        decreases n - i,
    {
        let ghost q = cursor.pos as int;
        let x = match read_field_attribute(pool, cursor) {
            Ok(x) => x,
            Err(e) => {
                proof {
                    lemma_read_seq_step_err(d, p0, i as nat, n as nat, field_attribute_reader(pool@), views(items@), q, e@);
                }
                return Err(e);
            },
        };
        let ghost old_items = items@;
        items.push(x);
        proof {
            assert(views(items@) =~= views(old_items).push(x@));
        }
        i = i + 1;
    }
    Ok(items)
}

impl FieldInfo {
    /// Reads one field, resolving the names of its attributes in `pool`.
    pub fn read(pool: &ConstantPool, cursor: &mut ByteCursor) -> (r: Result<FieldInfo, ReadError>)
        requires
            old(cursor).inv(),
        ensures
            read_matches(*old(cursor), *final(cursor), r, spec_read_field(pool@, old(cursor).data@, old(cursor).pos as int)),
    {
        let access_flags = FieldFlags::new(ru16(cursor)?);
        let name_index = ru16(cursor)?;
        let descriptor_index = ru16(cursor)?;
        let attributes_count = ru16(cursor)?;
        let attributes = read_n_field_attributes(pool, cursor, attributes_count as usize)?;
        Ok(FieldInfo { access_flags, name_index, descriptor_index, attributes })
    }
}

} // verus!
