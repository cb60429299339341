//! A method of a class.

use crate::attribute::method::{SpecMethodAttribute, spec_read_method_attribute};
use crate::attribute::MethodAttribute;
use crate::constant_pool::entry::{read_matches, ru16};
use crate::constant_pool::{ConstantPool, SpecConstantEntry};
use crate::cursor::{ByteCursor, avail, be_u16};
use crate::error::{ReadError, SpecRead, SpecReadError, spec_eof};
use crate::flags::MethodFlags;
use crate::read::{lemma_read_seq_step_err, spec_read_seq, vec_matches, views};
use vstd::prelude::*;

verus! {

/// A method in a class file.
///
/// https://docs.oracle.com/javase/specs/jvms/se25/html/jvms-4.html#jvms-4.6
#[derive(Debug)]
pub struct MethodInfo {
    pub access_flags: MethodFlags,
    pub name_index: u16,
    pub descriptor_index: u16,
    pub attributes: Vec<MethodAttribute>,
}

/// Mathematical counterpart of [`MethodInfo`].
pub struct SpecMethodInfo {
    pub access_flags: u16,
    pub name_index: u16,
    pub descriptor_index: u16,
    pub attributes: Seq<SpecMethodAttribute>,
}

impl View for MethodInfo {
    type V = SpecMethodInfo;

    open spec fn view(&self) -> SpecMethodInfo {
        SpecMethodInfo {
            access_flags: self.access_flags@,
            name_index: self.name_index,
            descriptor_index: self.descriptor_index,
            attributes: views(self.attributes@),
        }
    }
}

/// Reader of one attribute of a method, with names resolved in `pool`.
pub open spec fn method_attribute_reader(pool: Seq<SpecConstantEntry>) -> spec_fn(Seq<u8>, int) -> SpecRead<SpecMethodAttribute> {
    |d: Seq<u8>, p: int| spec_read_method_attribute(pool, d, p)
}

/// Reads the method at `p`: flags, name and descriptor indices, and counted attributes.
pub open spec fn spec_read_method(pool: Seq<SpecConstantEntry>, d: Seq<u8>, p: int) -> SpecRead<SpecMethodInfo> {
    if !avail(d, p, 8) {
        Err(spec_eof())
    } else {
        match spec_read_seq(d, p + 8, be_u16(d[p + 6], d[p + 7]) as nat, method_attribute_reader(pool)) {
            Err(e) => Err(e),
            Ok((attributes, q)) => Ok(
                (
                    SpecMethodInfo {
                        access_flags: be_u16(d[p], d[p + 1]),
                        name_index: be_u16(d[p + 2], d[p + 3]),
                        descriptor_index: be_u16(d[p + 4], d[p + 5]),
                        attributes,
                    },
                    q,
                ),
            ),
        }
    }
}

fn read_method_attribute(pool: &ConstantPool, cursor: &mut ByteCursor) -> (r: Result<MethodAttribute, ReadError>)
    requires
        old(cursor).inv(),
    ensures
        read_matches(*old(cursor), *final(cursor), r, method_attribute_reader(pool@)(old(cursor).data@, old(cursor).pos as int)),
{
    MethodAttribute::read(pool, cursor)
}

/// Reads `n` items one after the other.
pub fn read_n_method_attributes(pool: &ConstantPool, cursor: &mut ByteCursor, n: usize) -> (r: Result<Vec<MethodAttribute>, ReadError>)
    requires
        old(cursor).inv(),
    ensures
        vec_matches(*old(cursor), *final(cursor), r, spec_read_seq(old(cursor).data@, old(cursor).pos as int, n as nat, method_attribute_reader(pool@))),
{
    let ghost d = cursor.data@;
    let ghost p0 = cursor.pos as int;
    let mut items: Vec<MethodAttribute> = Vec::new();
    let mut i: usize = 0;
    proof {
        assert(views(items@) =~= Seq::<SpecMethodAttribute>::empty());
    }
    while i < n
        invariant
            cursor.inv(),
            cursor.data@ == d,
            d == old(cursor).data@,
            p0 == old(cursor).pos,
            i <= n,
            spec_read_seq(d, p0, i as nat, method_attribute_reader(pool@)) == Ok::<(Seq<SpecMethodAttribute>, int), SpecReadError>((views(items@), cursor.pos as int)),
        decreases n - i,
    {
        let ghost q = cursor.pos as int;
        let x = match read_method_attribute(pool, cursor) {
            Ok(x) => x,
            Err(e) => {
                proof {
                    lemma_read_seq_step_err(d, p0, i as nat, n as nat, method_attribute_reader(pool@), views(items@), q, e@);
                }
                return Err(e);
            },
        };
        let ghost old_items = items@;
        items.push(x);
        proof {
            assert(views(items@) =~= views(old_items).push(x@));
        }
        i = i + 1;
    }
    Ok(items)
}

impl MethodInfo {
    /// Reads one method, resolving the names of its attributes in `pool`.
    pub fn read(pool: &ConstantPool, cursor: &mut ByteCursor) -> (r: Result<MethodInfo, ReadError>)
        requires
            old(cursor).inv(),
        ensures
            read_matches(*old(cursor), *final(cursor), r, spec_read_method(pool@, old(cursor).data@, old(cursor).pos as int)),
    {
        let access_flags = MethodFlags::new(ru16(cursor)?);
        let name_index = ru16(cursor)?;
        let descriptor_index = ru16(cursor)?;
        let attributes_count = ru16(cursor)?;
        let attributes = read_n_method_attributes(pool, cursor, attributes_count as usize)?;
        Ok(MethodInfo { access_flags, name_index, descriptor_index, attributes })
    }
}

} // verus!
