//! The class file as a whole.
//!
//! https://docs.oracle.com/javase/specs/jvms/se25/html/jvms-4.html

use crate::attribute::class::{SpecClassAttribute, spec_read_class_attribute};
use crate::attribute::ClassAttribute;
use crate::constant_pool::entry::{read_matches, ru16, ru32, spec_read_constant};
use crate::constant_pool::pool::{lookup_matches, spec_entries, spec_get_class_name};
use crate::constant_pool::{ConstantEntry, ConstantPool, SpecConstantEntry};
use crate::constant_pool::write::{
    lemma_entries_bytes_push, lemma_read_entry_bytes, lemma_read_written_entry, spec_entries_bytes, spec_entry_bytes,
    spec_round_trips, spec_utf8_payload_valid, spec_writable,
};
use crate::cursor::{
    ByteCursor, avail, be_u16, be_u32, lemma_be_u16_bytes, lemma_be_u32_bytes, lemma_u16_be_bytes, lemma_u32_be_bytes,
    push_u16, push_u32, spec_u16, spec_u32, u16_be_bytes, u32_be_bytes,
};
use crate::error::{ClassFormatErr, ReadError, SpecClassFormatErr, SpecRead, SpecReadError, spec_eof};
use crate::flags::ClassFlags;
use crate::member::field::{SpecFieldInfo, spec_read_field};
use crate::member::method::{SpecMethodInfo, spec_read_method};
use crate::member::{FieldInfo, MethodInfo};
use crate::read::{
    lemma_read_seq_step_err, prepend, read_u16_list, spec_read_counted, spec_read_seq, u16_reader,
    vec_matches, views,
};
use crate::longer_input::{
    lemma_class_attribute_reader_repeats, lemma_counted_repeats, lemma_field_reader_repeats, lemma_fixed_readers_repeat,
    lemma_method_reader_repeats, spec_prefix_of,
};
use vstd::prelude::*;

verus! {

/// A Rust representation of a Java `.class` file.
///
/// https://docs.oracle.com/javase/specs/jvms/se25/html/jvms-4.html
///
/// All structures in the crate have public fields for easier access,
/// because they will be remapped to runtime structures.
#[derive(Debug)]
pub struct ClassFile {
    pub minor_version: u16,
    pub major_version: u16,
    pub cp: ConstantPool,
    pub access_flags: ClassFlags,
    pub this_class: u16,
    pub super_class: u16,
    pub interfaces: Vec<u16>,
    pub fields: Vec<FieldInfo>,
    pub methods: Vec<MethodInfo>,
    pub attributes: Vec<ClassAttribute>,
}

/// Mathematical counterpart of [`ClassFile`].
pub struct SpecClassFile {
    pub minor_version: u16,
    pub major_version: u16,
    pub cp: Seq<SpecConstantEntry>,
    pub access_flags: u16,
    pub this_class: u16,
    pub super_class: u16,
    pub interfaces: Seq<u16>,
    pub fields: Seq<SpecFieldInfo>,
    pub methods: Seq<SpecMethodInfo>,
    pub attributes: Seq<SpecClassAttribute>,
}

impl View for ClassFile {
    type V = SpecClassFile;

    open spec fn view(&self) -> SpecClassFile {
        SpecClassFile {
            minor_version: self.minor_version,
            major_version: self.major_version,
            cp: self.cp@,
            access_flags: self.access_flags@,
            this_class: self.this_class,
            super_class: self.super_class,
            interfaces: self.interfaces@,
            fields: views(self.fields@),
            methods: views(self.methods@),
            attributes: views(self.attributes@),
        }
    }
}

/// The four bytes that open every class file.
pub const MAGIC: u32 = 0xCAFEBABE;

/// Whether an entry takes two slots of the constant pool (`Long` and `Double` do).
pub open spec fn is_wide(e: SpecConstantEntry) -> bool {
    e is Long || e is Double
}

/// Reads the constant pool entries for the slots `i` to `count - 1`, starting at `p`. A
/// wide entry fills its slot and the next, which holds `Unused`.
pub open spec fn spec_read_cp_entries(d: Seq<u8>, p: int, i: int, count: int) -> SpecRead<Seq<SpecConstantEntry>>
    decreases count + 1 - i,
{
    if i >= count {
        Ok((seq![], p))
    } else {
        match spec_read_constant(d, p) {
            Err(e) => Err(e),
            Ok((e, q)) => if is_wide(e) {
                prepend(seq![e, SpecConstantEntry::Unused], spec_read_cp_entries(d, q, i + 2, count))
            } else {
                prepend(seq![e], spec_read_cp_entries(d, q, i + 1, count))
            },
        }
    }
}

/// Reads the constant pool whose count (one more than its last slot) is at `p`. Slot 0
/// holds `Unused`. A count of 65535 is unsupported.
pub open spec fn spec_read_constant_pool(d: Seq<u8>, p: int) -> SpecRead<Seq<SpecConstantEntry>> {
    if !avail(d, p, 2) {
        Err(spec_eof())
    } else {
        let count = be_u16(d[p], d[p + 1]);
        if count == 0xFFFF {
            Err(SpecReadError::Unsupported)
        } else {
            prepend(seq![SpecConstantEntry::Unused], spec_read_cp_entries(d, p + 2, 1, count as int))
        }
    }
}

/// Reader of one field, with names resolved in `pool`.
pub open spec fn field_reader(pool: Seq<SpecConstantEntry>) -> spec_fn(Seq<u8>, int) -> SpecRead<SpecFieldInfo> {
    |d: Seq<u8>, p: int| spec_read_field(pool, d, p)
}

/// Reader of one method, with names resolved in `pool`.
pub open spec fn method_reader(pool: Seq<SpecConstantEntry>) -> spec_fn(Seq<u8>, int) -> SpecRead<SpecMethodInfo> {
    |d: Seq<u8>, p: int| spec_read_method(pool, d, p)
}

/// Reader of one class attribute, with names resolved in `pool`.
pub open spec fn class_attribute_reader(pool: Seq<SpecConstantEntry>) -> spec_fn(Seq<u8>, int) -> SpecRead<SpecClassAttribute> {
    |d: Seq<u8>, p: int| spec_read_class_attribute(pool, d, p)
}

/// Reads what follows the constant pool, from `p` to the end of `d`: flags, this and super
/// class, interfaces, fields, methods and attributes. Bytes left over are an error.
#[verifier::opaque]
pub open spec fn spec_read_class_body(
    pool: Seq<SpecConstantEntry>,
    d: Seq<u8>,
    p: int,
    minor_version: u16,
    major_version: u16,
) -> Result<SpecClassFile, SpecReadError> {
    if !avail(d, p, 6) {
        Err(spec_eof())
    } else {
        match spec_read_counted(d, p + 6, u16_reader()) {
            Err(e) => Err(e),
            Ok((interfaces, q)) => match spec_read_counted(d, q, field_reader(pool)) {
                Err(e) => Err(e),
                Ok((fields, r)) => match spec_read_counted(d, r, method_reader(pool)) {
                    Err(e) => Err(e),
                    Ok((methods, s)) => match spec_read_counted(d, s, class_attribute_reader(pool)) {
                        Err(e) => Err(e),
                        Ok((attributes, t)) => if avail(d, t, 1) {
                            Err(SpecReadError::Format(SpecClassFormatErr::TrailingBytes))
                        } else {
                            Ok(
                                SpecClassFile {
                                    minor_version,
                                    major_version,
                                    cp: pool,
                                    access_flags: be_u16(d[p], d[p + 1]),
                                    this_class: be_u16(d[p + 2], d[p + 3]),
                                    super_class: be_u16(d[p + 4], d[p + 5]),
                                    interfaces,
                                    fields,
                                    methods,
                                    attributes,
                                },
                            )
                        },
                    },
                },
            },
        }
    }
}

/// Parses a whole class file: magic, versions, constant pool and body.
pub open spec fn spec_parse_class(d: Seq<u8>) -> Result<SpecClassFile, SpecReadError> {
    match spec_u32(d, 0) {
        None => Err(spec_eof()),
        Some((magic, p)) => if magic != MAGIC {
            Err(SpecReadError::Format(SpecClassFormatErr::WrongMagic(magic)))
        } else if !avail(d, p, 4) {
            Err(spec_eof())
        } else {
            match spec_read_constant_pool(d, p + 4) {
                Err(e) => Err(e),
                Ok((pool, q)) => spec_read_class_body(pool, d, q, be_u16(d[4], d[5]), be_u16(d[6], d[7])),
            }
        }
    }
}

/// Reads the entries of the constant pool for the slots `1` to `count - 1`.
fn read_cp_entries(cursor: &mut ByteCursor, count: u16) -> (r: Result<Vec<ConstantEntry>, ReadError>)
    requires
        old(cursor).inv(),
        count < 0xFFFF,
    ensures
        final(cursor).inv(),
        final(cursor).data@ == old(cursor).data@,
        match prepend(seq![SpecConstantEntry::Unused], spec_read_cp_entries(old(cursor).data@, old(cursor).pos as int, 1, count as int)) {
            Ok((v, q)) => r matches Ok(x) && spec_entries(x@) == v && final(cursor).pos == q,
            Err(e) => r matches Err(x) && x@ == e,
        },
{
    let ghost d = cursor.data@;
    let ghost p0 = cursor.pos as int;
    let mut constant_pool: Vec<ConstantEntry> = Vec::new();
    constant_pool.push(ConstantEntry::Unused);
    let mut i: u16 = 1;
    proof {
        assert(spec_entries(constant_pool@) =~= seq![SpecConstantEntry::Unused]);
    }
    while i < count
        invariant
            cursor.inv(),
            cursor.data@ == d,
            d == old(cursor).data@,
            p0 == old(cursor).pos,
            1 <= i,
            count < 0xFFFF,
            i <= count + 1,
            prepend(seq![SpecConstantEntry::Unused], spec_read_cp_entries(d, p0, 1, count as int)) == prepend(
                spec_entries(constant_pool@),
                spec_read_cp_entries(d, cursor.pos as int, i as int, count as int),
            ),
        decreases count + 1 - i,
    {
        let ghost pos = cursor.pos as int;
        let ghost before = spec_entries(constant_pool@);
        let constant = match ConstantEntry::read(cursor) {
            Ok(c) => c,
            Err(e) => {
                assert(spec_read_cp_entries(d, pos, i as int, count as int) == Err::<(Seq<SpecConstantEntry>, int), SpecReadError>(e@));
                return Err(e);
            },
        };
        let wide = match &constant {
            ConstantEntry::Long(_) | ConstantEntry::Double(_) => true,
            _ => false,
        };
        let ghost ce = constant@;
        constant_pool.push(constant);
        if wide {
            constant_pool.push(ConstantEntry::Unused);
            proof {
                assert(spec_entries(constant_pool@) =~= before + seq![ce, SpecConstantEntry::Unused]);
                let rest = spec_read_cp_entries(d, cursor.pos as int, i + 2, count as int);
                if let Ok((ys, q)) = rest {
                    assert(before + (seq![ce, SpecConstantEntry::Unused] + ys) =~= spec_entries(constant_pool@) + ys);
                }
            }
            i = i + 2;
        } else {
            proof {
                assert(spec_entries(constant_pool@) =~= before + seq![ce]);
                let rest = spec_read_cp_entries(d, cursor.pos as int, i + 1, count as int);
                if let Ok((ys, q)) = rest {
                    assert(before + (seq![ce] + ys) =~= spec_entries(constant_pool@) + ys);
                }
            }
            i = i + 1;
        }
    }
    proof {
        assert(spec_entries(constant_pool@) + seq![] =~= spec_entries(constant_pool@));
    }
    Ok(constant_pool)
}

fn read_field(pool: &ConstantPool, cursor: &mut ByteCursor) -> (r: Result<FieldInfo, ReadError>)
    requires
        old(cursor).inv(),
    ensures
        read_matches(*old(cursor), *final(cursor), r, field_reader(pool@)(old(cursor).data@, old(cursor).pos as int)),
{
    FieldInfo::read(pool, cursor)
}

fn read_method(pool: &ConstantPool, cursor: &mut ByteCursor) -> (r: Result<MethodInfo, ReadError>)
    requires
        old(cursor).inv(),
    ensures
        read_matches(*old(cursor), *final(cursor), r, method_reader(pool@)(old(cursor).data@, old(cursor).pos as int)),
{
    MethodInfo::read(pool, cursor)
}

fn read_class_attribute(pool: &ConstantPool, cursor: &mut ByteCursor) -> (r: Result<ClassAttribute, ReadError>)
    requires
        old(cursor).inv(),
    ensures
        read_matches(*old(cursor), *final(cursor), r, class_attribute_reader(pool@)(old(cursor).data@, old(cursor).pos as int)),
{
    ClassAttribute::read(pool, cursor)
}

/// Reads `n` items one after the other.
pub fn read_n_fields(pool: &ConstantPool, cursor: &mut ByteCursor, n: usize) -> (r: Result<Vec<FieldInfo>, ReadError>)
    requires
        old(cursor).inv(),
    ensures
        vec_matches(*old(cursor), *final(cursor), r, spec_read_seq(old(cursor).data@, old(cursor).pos as int, n as nat, field_reader(pool@))),
{
    let ghost d = cursor.data@;
    let ghost p0 = cursor.pos as int;
    let mut items: Vec<FieldInfo> = Vec::new();
    let mut i: usize = 0;
    proof {
        assert(views(items@) =~= Seq::<SpecFieldInfo>::empty());
    }
    while i < n
        invariant
            cursor.inv(),
            cursor.data@ == d,
            d == old(cursor).data@,
            p0 == old(cursor).pos,
            i <= n,
            spec_read_seq(d, p0, i as nat, field_reader(pool@)) == Ok::<(Seq<SpecFieldInfo>, int), SpecReadError>((views(items@), cursor.pos as int)),
        decreases n - i,
    {
        let ghost q = cursor.pos as int;
        let x = match read_field(pool, cursor) {
            Ok(x) => x,
            Err(e) => {
                proof {
                    lemma_read_seq_step_err(d, p0, i as nat, n as nat, field_reader(pool@), views(items@), q, e@);
                }
                return Err(e);
            },
        };
        let ghost old_items = items@;
        items.push(x);
        proof {
            assert(views(items@) =~= views(old_items).push(x@));
        }
        i = i + 1;
    }
    Ok(items)
}

/// Reads `n` items one after the other.
pub fn read_n_methods(pool: &ConstantPool, cursor: &mut ByteCursor, n: usize) -> (r: Result<Vec<MethodInfo>, ReadError>)
    requires
        old(cursor).inv(),
    ensures
        vec_matches(*old(cursor), *final(cursor), r, spec_read_seq(old(cursor).data@, old(cursor).pos as int, n as nat, method_reader(pool@))),
{
    let ghost d = cursor.data@;
    let ghost p0 = cursor.pos as int;
    let mut items: Vec<MethodInfo> = Vec::new();
    let mut i: usize = 0;
    proof {
        assert(views(items@) =~= Seq::<SpecMethodInfo>::empty());
    }
    while i < n
        invariant
            cursor.inv(),
            cursor.data@ == d,
            d == old(cursor).data@,
            p0 == old(cursor).pos,
            i <= n,
            spec_read_seq(d, p0, i as nat, method_reader(pool@)) == Ok::<(Seq<SpecMethodInfo>, int), SpecReadError>((views(items@), cursor.pos as int)),
        decreases n - i,
    {
        let ghost q = cursor.pos as int;
        let x = match read_method(pool, cursor) {
            Ok(x) => x,
            Err(e) => {
                proof {
                    lemma_read_seq_step_err(d, p0, i as nat, n as nat, method_reader(pool@), views(items@), q, e@);
                }
                return Err(e);
            },
        };
        let ghost old_items = items@;
        items.push(x);
        proof {
            assert(views(items@) =~= views(old_items).push(x@));
        }
        i = i + 1;
    }
    Ok(items)
}

/// Reads `n` items one after the other.
pub fn read_n_class_attributes(pool: &ConstantPool, cursor: &mut ByteCursor, n: usize) -> (r: Result<Vec<ClassAttribute>, ReadError>)
    requires
        old(cursor).inv(),
    ensures
        vec_matches(*old(cursor), *final(cursor), r, spec_read_seq(old(cursor).data@, old(cursor).pos as int, n as nat, class_attribute_reader(pool@))),
{
    let ghost d = cursor.data@;
    let ghost p0 = cursor.pos as int;
    let mut items: Vec<ClassAttribute> = Vec::new();
    let mut i: usize = 0;
    proof {
        assert(views(items@) =~= Seq::<SpecClassAttribute>::empty());
    }
    while i < n
        invariant
            cursor.inv(),
            cursor.data@ == d,
            d == old(cursor).data@,
            p0 == old(cursor).pos,
            i <= n,
            spec_read_seq(d, p0, i as nat, class_attribute_reader(pool@)) == Ok::<(Seq<SpecClassAttribute>, int), SpecReadError>((views(items@), cursor.pos as int)),
        decreases n - i,
    {
        let ghost q = cursor.pos as int;
        let x = match read_class_attribute(pool, cursor) {
            Ok(x) => x,
            Err(e) => {
                proof {
                    lemma_read_seq_step_err(d, p0, i as nat, n as nat, class_attribute_reader(pool@), views(items@), q, e@);
                }
                return Err(e);
            },
        };
        let ghost old_items = items@;
        items.push(x);
        proof {
            assert(views(items@) =~= views(old_items).push(x@));
        }
        i = i + 1;
    }
    Ok(items)
}

impl ClassFile {
    fn validate_magic(val: u32) -> (r: Result<(), ClassFormatErr>)
        ensures
            val == MAGIC ==> r is Ok,
            val != MAGIC ==> r == Err::<(), ClassFormatErr>(ClassFormatErr::WrongMagic(val)),
    {
        if val == MAGIC {
            Ok(())
        } else {
            Err(ClassFormatErr::WrongMagic(val))
        }
    }

    /// The name of the superclass; `None` where there is none (`java.lang.Object`).
    pub fn get_super_class_name(&self) -> (r: Option<Result<&str, ClassFormatErr>>)
        ensures
            self.super_class == 0 ==> r is None,
            self.super_class != 0 ==> (r matches Some(x) && lookup_matches(x, spec_get_class_name(self.cp@, self.super_class))),
    {
        if self.super_class == 0 {
            None
        } else {
            Some(self.cp.get_class_name(&self.super_class))
        }
    }

    /// Reads the constant pool: its count, then its entries.
    fn read_constant_pool(cursor: &mut ByteCursor) -> (r: Result<ConstantPool, ReadError>)
        requires
            old(cursor).inv(),
        ensures
            read_matches(*old(cursor), *final(cursor), r, spec_read_constant_pool(old(cursor).data@, old(cursor).pos as int)),
    {
        let constant_pool_count = ru16(cursor)?;
        if constant_pool_count == 0xFFFF {
            return Err(ReadError::Unsupported);
        }
        let inner = read_cp_entries(cursor, constant_pool_count)?;
        Ok(ConstantPool { inner })
    }

    /// Parses a class file; inputs that this parser cannot handle (see [`ReadError`])
    /// are reported as `Unsupported`.
    pub fn parse(value: &[u8]) -> (r: Result<ClassFile, ReadError>)
        ensures
            match spec_parse_class(value@) {
                Ok(c) => r matches Ok(x) && x@ == c,
                Err(e) => r matches Err(x) && x@ == e,
            },
    {
        proof {
            reveal(spec_read_class_body);
        }
        let mut cursor = ByteCursor::new(value);
        let magic = ru32(&mut cursor)?;
        match Self::validate_magic(magic) {
            Ok(()) => {},
            Err(e) => return Err(ReadError::Format(e)),
        }
        let minor_version = ru16(&mut cursor)?;
        let major_version = ru16(&mut cursor)?;
        let constant_pool = Self::read_constant_pool(&mut cursor)?;
        let access_flags = ClassFlags::new(ru16(&mut cursor)?);
        let this_class = ru16(&mut cursor)?;
        let super_class = ru16(&mut cursor)?;
        let interfaces = read_u16_list(&mut cursor)?;
        let fields_count = ru16(&mut cursor)?;
        let fields = read_n_fields(&constant_pool, &mut cursor, fields_count as usize)?;
        let methods_count = ru16(&mut cursor)?;
        let methods = read_n_methods(&constant_pool, &mut cursor, methods_count as usize)?;
        let attributes_count = ru16(&mut cursor)?;
        let attributes = read_n_class_attributes(&constant_pool, &mut cursor, attributes_count as usize)?;
        if cursor.u8().is_ok() {
            return Err(ReadError::Format(ClassFormatErr::TrailingBytes));
        }
        proof {
            assert(views(interfaces@) =~= interfaces@);
        }
        Ok(
            ClassFile {
                minor_version,
                major_version,
                cp: constant_pool,
                access_flags,
                this_class,
                super_class,
                interfaces,
                fields,
                methods,
                attributes,
            },
        )
    }

    /// Parses a class file. An input that this parser does not implement (a constant
    /// pool count of 65535, a constant, attribute or type annotation target whose kind it
    /// does not handle) is answered with `UnsupportedFeature`.
    pub fn try_from(value: Vec<u8>) -> (r: Result<ClassFile, ClassFormatErr>)
        ensures
            match spec_parse_class(value@) {
                Ok(c) => r matches Ok(x) && x@ == c,
                Err(SpecReadError::Format(e)) => r matches Err(x) && x@ == e,
                Err(SpecReadError::Unsupported) => r matches Err(ClassFormatErr::UnsupportedFeature),
            },
    {
        match Self::parse(value.as_slice()) {
            Ok(c) => Ok(c),
            Err(ReadError::Format(e)) => Err(e),
            Err(ReadError::Unsupported) => Err(ClassFormatErr::UnsupportedFeature),
        }
    }
}

/// The first bytes that [`ClassFile::to_bytes`] writes: magic, versions and the
/// constant pool count (its number of slots, truncated to 16 bits).
pub open spec fn spec_class_header(c: SpecClassFile) -> Seq<u8> {
    u32_be_bytes(MAGIC) + u16_be_bytes(c.minor_version) + u16_be_bytes(c.major_version) + u16_be_bytes(
        (c.cp.len() % 0x10000) as u16,
    )
}

/// The last bytes that [`ClassFile::to_bytes`] writes: flags, this and super class, and
/// the counts of interfaces, fields, methods and attributes (truncated to 16 bits).
pub open spec fn spec_class_trailer(c: SpecClassFile) -> Seq<u8> {
    u16_be_bytes(c.access_flags) + u16_be_bytes(c.this_class) + u16_be_bytes(c.super_class) + u16_be_bytes(
        (c.interfaces.len() % 0x10000) as u16,
    ) + u16_be_bytes((c.fields.len() % 0x10000) as u16) + u16_be_bytes((c.methods.len() % 0x10000) as u16)
        + u16_be_bytes((c.attributes.len() % 0x10000) as u16)
}

/// The bytes that [`ClassFile::to_bytes`] writes: header, the entries of the constant
/// pool after slot 0, and trailer.
pub open spec fn spec_class_bytes(c: SpecClassFile) -> Seq<u8> {
    spec_class_header(c) + spec_entries_bytes(c.cp.drop_first()) + spec_class_trailer(c)
}

impl ClassFile {
    /// Writes the class file: header, constant pool and the class's own fields. Writing
    /// interfaces, fields, methods and class attributes is not supported, so there are
    /// none, and the constant pool holds only entries that [`ConstantEntry::write_to`] writes.
    pub fn to_bytes(&self) -> (bytes: Vec<u8>)
        requires
            self.cp@.len() >= 1,
            forall|i: int| 1 <= i < self.cp@.len() ==> spec_writable(#[trigger] self.cp@[i]),
            self.interfaces@.len() == 0,
            self.fields@.len() == 0,
            self.methods@.len() == 0,
            self.attributes@.len() == 0,
        ensures
            bytes@ == spec_class_bytes(self@),
    {
        let mut bytes: Vec<u8> = Vec::new();
        push_u32(&mut bytes, MAGIC);
        push_u16(&mut bytes, self.minor_version);
        push_u16(&mut bytes, self.major_version);
        push_u16(&mut bytes, (self.cp.inner.len() % 0x10000) as u16);
        let ghost head = bytes@;
        assert(head =~= spec_class_header(self@));
        let n = self.cp.inner.len();
        let mut i: usize = 1;
        proof {
            assert(self.cp@.subrange(1, 1) =~= Seq::<SpecConstantEntry>::empty());
        }
        while i < n
            invariant
                1 <= i <= n,
                n == self.cp@.len(),
                forall|k: int| 1 <= k < self.cp@.len() ==> spec_writable(#[trigger] self.cp@[k]),
                bytes@ == head + spec_entries_bytes(self.cp@.subrange(1, i as int)),
            decreases n - i,
        {
            self.cp.inner[i].write_to(&mut bytes);
            proof {
                lemma_entries_bytes_push(self.cp@.subrange(1, i as int), self.cp@[i as int]);
                assert(self.cp@.subrange(1, i + 1) =~= self.cp@.subrange(1, i as int).push(self.cp@[i as int]));
            }
            i = i + 1;
        }
        let ghost mid = bytes@;
        push_u16(&mut bytes, *self.access_flags.get_raw());
        push_u16(&mut bytes, self.this_class);
        push_u16(&mut bytes, self.super_class);
        push_u16(&mut bytes, (self.interfaces.len() % 0x10000) as u16);
        push_u16(&mut bytes, (self.fields.len() % 0x10000) as u16);
        push_u16(&mut bytes, (self.methods.len() % 0x10000) as u16);
        push_u16(&mut bytes, (self.attributes.len() % 0x10000) as u16);
        proof {
            assert(self.cp@.subrange(1, n as int) =~= self.cp@.drop_first());
            assert(bytes@ =~= mid + spec_class_trailer(self@));
        }
        bytes
    }
}

/// Reading the bytes of entries that round-trip, wherever they stand, gives them back
/// for the slots `i` onwards.
proof fn lemma_read_written_entries(es: Seq<SpecConstantEntry>, d: Seq<u8>, p: int, i: int)
    requires
        forall|k: int| 0 <= k < es.len() ==> spec_round_trips(#[trigger] es[k]),
        0 <= p,
        p + spec_entries_bytes(es).len() <= d.len(),
        d.subrange(p, p + spec_entries_bytes(es).len()) == spec_entries_bytes(es),
    ensures
        spec_read_cp_entries(d, p, i, i + es.len()) == Ok::<(Seq<SpecConstantEntry>, int), SpecReadError>(
            (es, p + spec_entries_bytes(es).len()),
        ),
    decreases es.len(),
{
    if es.len() > 0 {
        let e = es[0];
        let rest = es.drop_first();
        let be = spec_entry_bytes(e);
        let br = spec_entries_bytes(rest);
        assert(spec_entries_bytes(es) == be + br);
        assert(d.subrange(p, p + be.len()) =~= be) by {
            assert forall|k: int| 0 <= k < be.len() implies d.subrange(p, p + be.len())[k] == be[k] by {
                assert(d.subrange(p, p + spec_entries_bytes(es).len())[k] == (be + br)[k]);
            }
        }
        lemma_read_written_entry(e, d, p);
        assert(d.subrange(p + be.len(), p + be.len() + br.len()) =~= br) by {
            assert forall|k: int| 0 <= k < br.len() implies d.subrange(p + be.len(), p + be.len() + br.len())[k] == br[k] by {
                assert(d.subrange(p, p + spec_entries_bytes(es).len())[be.len() + k] == (be + br)[be.len() + k]);
            }
        }
        assert forall|k: int| 0 <= k < rest.len() implies spec_round_trips(#[trigger] rest[k]) by {
            assert(rest[k] == es[k + 1]);
        }
        lemma_read_written_entries(rest, d, p + be.len(), i + 1);
        assert(seq![e] + rest =~= es);
        assert(!is_wide(e));
        assert(spec_read_cp_entries(d, p, i, i + es.len()) == prepend(
            seq![e],
            spec_read_cp_entries(d, p + be.len(), i + 1, i + es.len()),
        ));
    } else {
        assert(es =~= Seq::<SpecConstantEntry>::empty());
    }
}

/// Two bytes at `p` that hold `v` big-endian read back as `v`.
proof fn lemma_u16_at(d: Seq<u8>, p: int, v: u16)
    requires
        0 <= p,
        p + 2 <= d.len(),
        d.subrange(p, p + 2) == u16_be_bytes(v),
    ensures
        spec_u16(d, p) == Some((v, p + 2)),
        be_u16(d[p], d[p + 1]) == v,
{
    lemma_u16_be_bytes(v);
    assert(d[p] == d.subrange(p, p + 2)[0]);
    assert(d[p + 1] == d.subrange(p, p + 2)[1]);
}

/// Where the parts of the bytes of a class stand.
proof fn lemma_class_bytes_layout(c: SpecClassFile)
    ensures
        ({
            let d = spec_class_bytes(c);
            let pb = spec_entries_bytes(c.cp.drop_first());
            let q: int = 10 + pb.len() as int;
            &&& d.len() == q + 14
            &&& d.subrange(0, 4) == u32_be_bytes(MAGIC)
            &&& d.subrange(4, 6) == u16_be_bytes(c.minor_version)
            &&& d.subrange(6, 8) == u16_be_bytes(c.major_version)
            &&& d.subrange(8, 10) == u16_be_bytes((c.cp.len() % 0x10000) as u16)
            &&& d.subrange(10, q) == pb
            &&& d.subrange(q, q + 2) == u16_be_bytes(c.access_flags)
            &&& d.subrange(q + 2, q + 4) == u16_be_bytes(c.this_class)
            &&& d.subrange(q + 4, q + 6) == u16_be_bytes(c.super_class)
            &&& d.subrange(q + 6, q + 8) == u16_be_bytes((c.interfaces.len() % 0x10000) as u16)
            &&& d.subrange(q + 8, q + 10) == u16_be_bytes((c.fields.len() % 0x10000) as u16)
            &&& d.subrange(q + 10, q + 12) == u16_be_bytes((c.methods.len() % 0x10000) as u16)
            &&& d.subrange(q + 12, q + 14) == u16_be_bytes((c.attributes.len() % 0x10000) as u16)
        }),
{
    let d = spec_class_bytes(c);
    let h = spec_class_header(c);
    let pb = spec_entries_bytes(c.cp.drop_first());
    let t = spec_class_trailer(c);
    let q: int = 10 + pb.len() as int;
    assert(d.subrange(0, 10) =~= h);
    assert(d.subrange(10, q) =~= pb);
    assert(d.subrange(q, q + 14) =~= t);
    assert(h.subrange(0, 4) =~= u32_be_bytes(MAGIC));
    assert(h.subrange(4, 6) =~= u16_be_bytes(c.minor_version));
    assert(h.subrange(6, 8) =~= u16_be_bytes(c.major_version));
    assert(h.subrange(8, 10) =~= u16_be_bytes((c.cp.len() % 0x10000) as u16));
    assert(d.subrange(0, 4) =~= h.subrange(0, 4));
    assert(d.subrange(4, 6) =~= h.subrange(4, 6));
    assert(d.subrange(6, 8) =~= h.subrange(6, 8));
    assert(d.subrange(8, 10) =~= h.subrange(8, 10));
    assert(t.subrange(0, 2) =~= u16_be_bytes(c.access_flags));
    assert(t.subrange(2, 4) =~= u16_be_bytes(c.this_class));
    assert(t.subrange(4, 6) =~= u16_be_bytes(c.super_class));
    assert(t.subrange(6, 8) =~= u16_be_bytes((c.interfaces.len() % 0x10000) as u16));
    assert(t.subrange(8, 10) =~= u16_be_bytes((c.fields.len() % 0x10000) as u16));
    assert(t.subrange(10, 12) =~= u16_be_bytes((c.methods.len() % 0x10000) as u16));
    assert(t.subrange(12, 14) =~= u16_be_bytes((c.attributes.len() % 0x10000) as u16));
    assert(d.subrange(q, q + 2) =~= t.subrange(0, 2));
    assert(d.subrange(q + 2, q + 4) =~= t.subrange(2, 4));
    assert(d.subrange(q + 4, q + 6) =~= t.subrange(4, 6));
    assert(d.subrange(q + 6, q + 8) =~= t.subrange(6, 8));
    assert(d.subrange(q + 8, q + 10) =~= t.subrange(8, 10));
    assert(d.subrange(q + 10, q + 12) =~= t.subrange(10, 12));
    assert(d.subrange(q + 12, q + 14) =~= t.subrange(12, 14));
}

/// The body of a class with no interfaces, fields, methods or attributes, laid out as
/// [`ClassFile::to_bytes`] writes it at `q`, reads back as the class.
proof fn lemma_read_written_body(c: SpecClassFile, d: Seq<u8>, q: int)
    requires
        0 <= q,
        d.len() == q + 14,
        c.interfaces.len() == 0,
        c.fields.len() == 0,
        c.methods.len() == 0,
        c.attributes.len() == 0,
        d.subrange(q, q + 2) == u16_be_bytes(c.access_flags),
        d.subrange(q + 2, q + 4) == u16_be_bytes(c.this_class),
        d.subrange(q + 4, q + 6) == u16_be_bytes(c.super_class),
        d.subrange(q + 6, q + 8) == u16_be_bytes(0),
        d.subrange(q + 8, q + 10) == u16_be_bytes(0),
        d.subrange(q + 10, q + 12) == u16_be_bytes(0),
        d.subrange(q + 12, q + 14) == u16_be_bytes(0),
    ensures
        spec_read_class_body(c.cp, d, q, c.minor_version, c.major_version) == Ok::<SpecClassFile, SpecReadError>(c),
{
    reveal(spec_read_class_body);
    lemma_u16_at(d, q, c.access_flags);
    lemma_u16_at(d, q + 2, c.this_class);
    lemma_u16_at(d, q + 4, c.super_class);
    lemma_u16_at(d, q + 6, 0);
    lemma_u16_at(d, q + 8, 0);
    lemma_u16_at(d, q + 10, 0);
    lemma_u16_at(d, q + 12, 0);
    assert(c.interfaces =~= Seq::<u16>::empty());
    assert(c.fields =~= Seq::<SpecFieldInfo>::empty());
    assert(c.methods =~= Seq::<SpecMethodInfo>::empty());
    assert(c.attributes =~= Seq::<SpecClassAttribute>::empty());
}

/// A constant pool laid out as [`ClassFile::to_bytes`] writes it at 8 reads back as itself.
proof fn lemma_read_written_pool(cp: Seq<SpecConstantEntry>, d: Seq<u8>)
    requires
        1 <= cp.len() < 0xFFFF,
        cp[0] is Unused,
        forall|i: int| 1 <= i < cp.len() ==> spec_round_trips(#[trigger] cp[i]),
        10 + spec_entries_bytes(cp.drop_first()).len() <= d.len(),
        d.subrange(8, 10) == u16_be_bytes((cp.len() % 0x10000) as u16),
        d.subrange(10, 10 + spec_entries_bytes(cp.drop_first()).len() as int) == spec_entries_bytes(cp.drop_first()),
    ensures
        spec_read_constant_pool(d, 8) == Ok::<(Seq<SpecConstantEntry>, int), SpecReadError>(
            (cp, 10 + spec_entries_bytes(cp.drop_first()).len() as int),
        ),
{
    let es = cp.drop_first();
    lemma_u16_at(d, 8, (cp.len() % 0x10000) as u16);
    assert forall|k: int| 0 <= k < es.len() implies spec_round_trips(#[trigger] es[k]) by {
        assert(es[k] == cp[k + 1]);
    }
    lemma_read_written_entries(es, d, 10, 1);
    assert(seq![SpecConstantEntry::Unused] + es =~= cp);
}

/// A class file's magic and versions, read at the start of `d`, lead to its body.
proof fn lemma_parse_prefix(d: Seq<u8>, cp: Seq<SpecConstantEntry>, q: int, minor: u16, major: u16)
    requires
        d.len() >= 10,
        d.subrange(0, 4) == u32_be_bytes(MAGIC),
        d.subrange(4, 6) == u16_be_bytes(minor),
        d.subrange(6, 8) == u16_be_bytes(major),
        spec_read_constant_pool(d, 8) == Ok::<(Seq<SpecConstantEntry>, int), SpecReadError>((cp, q)),
    ensures
        spec_parse_class(d) == spec_read_class_body(cp, d, q, minor, major),
{
    lemma_u32_be_bytes(MAGIC);
    assert(d[0] == d.subrange(0, 4)[0] && d[1] == d.subrange(0, 4)[1]);
    assert(d[2] == d.subrange(0, 4)[2] && d[3] == d.subrange(0, 4)[3]);
    lemma_u16_at(d, 4, minor);
    lemma_u16_at(d, 6, major);
}

/// Parsing what [`ClassFile::to_bytes`] writes gives the class back, for a class that it
/// can write in full: a constant pool with `Unused` in slot 0, fewer than 65535 slots,
/// and entries that round-trip, and no interfaces, fields, methods or attributes.
pub proof fn lemma_class_bytes_roundtrip(c: SpecClassFile)
    requires
        1 <= c.cp.len() < 0xFFFF,
        c.cp[0] is Unused,
        forall|i: int| 1 <= i < c.cp.len() ==> spec_round_trips(#[trigger] c.cp[i]),
        c.interfaces.len() == 0,
        c.fields.len() == 0,
        c.methods.len() == 0,
        c.attributes.len() == 0,
    ensures
        spec_parse_class(spec_class_bytes(c)) == Ok::<SpecClassFile, SpecReadError>(c),
{
    let d = spec_class_bytes(c);
    let q: int = 10 + spec_entries_bytes(c.cp.drop_first()).len() as int;
    lemma_class_bytes_layout(c);
    lemma_read_written_pool(c.cp, d);
    lemma_parse_prefix(d, c.cp, q, c.minor_version, c.major_version);
    lemma_read_written_body(c, d, q);
}

/// Builder of a [`ClassFile`] from its constant pool, flags and class indices. The class
/// it builds has no interfaces, fields, methods or attributes.
#[derive(Debug)]
pub struct ClassFileBuilder {
    minor_version: u16,
    major_version: u16,
    cp: ConstantPool,
    access_flags: ClassFlags,
    this_class: Option<u16>,
    super_class: Option<u16>,
}

/// Mathematical counterpart of [`ClassFileBuilder`].
pub struct SpecClassFileBuilder {
    pub minor_version: u16,
    pub major_version: u16,
    pub cp: Seq<SpecConstantEntry>,
    pub access_flags: u16,
    pub this_class: Option<u16>,
    pub super_class: Option<u16>,
}

impl View for ClassFileBuilder {
    type V = SpecClassFileBuilder;

    closed spec fn view(&self) -> SpecClassFileBuilder {
        SpecClassFileBuilder {
            minor_version: self.minor_version,
            major_version: self.major_version,
            cp: self.cp@,
            access_flags: self.access_flags@,
            this_class: self.this_class,
            super_class: self.super_class,
        }
    }
}

impl ClassFileBuilder {
    /// A builder with no flags and no class indices yet.
    pub fn new(minor_version: u16, major_version: u16, cp: ConstantPool) -> (b: Self)
        ensures
            b@ == (SpecClassFileBuilder {
                minor_version,
                major_version,
                cp: cp@,
                access_flags: 0,
                this_class: None,
                super_class: None,
            }),
    {
        Self {
            minor_version,
            major_version,
            cp,
            access_flags: ClassFlags::new(0),
            this_class: None,
            super_class: None,
        }
    }

    pub fn access_flags(self, access_flags: ClassFlags) -> (b: Self)
        ensures
            b@ == (SpecClassFileBuilder { access_flags: access_flags@, ..self@ }),
    {
        let mut b = self;
        b.access_flags = access_flags;
        b
    }

    pub fn this_class(self, this_class: Option<u16>) -> (b: Self)
        ensures
            b@ == (SpecClassFileBuilder { this_class, ..self@ }),
    {
        let mut b = self;
        b.this_class = this_class;
        b
    }

    pub fn super_class(self, super_class: Option<u16>) -> (b: Self)
        ensures
            b@ == (SpecClassFileBuilder { super_class, ..self@ }),
    {
        let mut b = self;
        b.super_class = super_class;
        b
    }

    /// The class, once both class indices are set.
    pub fn build(self) -> (c: Option<ClassFile>)
        ensures
            match (self@.this_class, self@.super_class) {
                (Some(t), Some(s)) => c matches Some(x) && x@ == (SpecClassFile {
                    minor_version: self@.minor_version,
                    major_version: self@.major_version,
                    cp: self@.cp,
                    access_flags: self@.access_flags,
                    this_class: t,
                    super_class: s,
                    interfaces: seq![],
                    fields: seq![],
                    methods: seq![],
                    attributes: seq![],
                }),
                _ => c is None,
            },
    {
        let this_class = self.this_class?;
        let super_class = self.super_class?;
        let c = ClassFile {
            minor_version: self.minor_version,
            major_version: self.major_version,
            cp: self.cp,
            access_flags: self.access_flags,
            this_class,
            super_class,
            interfaces: Vec::new(),
            fields: Vec::new(),
            methods: Vec::new(),
            attributes: Vec::new(),
        };
        assert(c@.interfaces =~= seq![]);
        assert(c@.fields =~= seq![]);
        assert(c@.methods =~= seq![]);
        assert(c@.attributes =~= seq![]);
        Some(c)
    }
}

/// Whether every `Long` or `Double` entry of `es` is followed by an `Unused` slot.
pub open spec fn spec_wide_slots_paired(es: Seq<SpecConstantEntry>) -> bool {
    forall|i: int| 0 <= i < es.len() && is_wide(#[trigger] es[i]) ==> i + 1 < es.len() && es[i + 1] is Unused
}

proof fn lemma_cp_entries_paired(d: Seq<u8>, p: int, i: int, count: int)
    ensures
        spec_read_cp_entries(d, p, i, count) matches Ok((es, _)) ==> spec_wide_slots_paired(es),
    decreases count + 1 - i,
{
    if i < count {
        if let Ok((e, q)) = spec_read_constant(d, p) {
            if is_wide(e) {
                lemma_cp_entries_paired(d, q, i + 2, count);
            } else {
                lemma_cp_entries_paired(d, q, i + 1, count);
            }
            if let Ok((rest, _)) = spec_read_cp_entries(d, p, i, count) {
                let head = if is_wide(e) { seq![e, SpecConstantEntry::Unused] } else { seq![e] };
                let tail = if is_wide(e) {
                    spec_read_cp_entries(d, q, i + 2, count)->Ok_0.0
                } else {
                    spec_read_cp_entries(d, q, i + 1, count)->Ok_0.0
                };
                assert(rest == head + tail);
                assert forall|k: int| 0 <= k < rest.len() && is_wide(#[trigger] rest[k]) implies k + 1 < rest.len()
                    && rest[k + 1] is Unused by {
                    if k >= head.len() {
                        assert(rest[k] == tail[k - head.len()]);
                        assert(rest[k + 1] == tail[k + 1 - head.len()]);
                    }
                }
            }
        }
    }
}

/// In a constant pool as it is read, every `Long` and `Double` entry takes two slots:
/// the slot after it holds `Unused`, and slot 0 holds `Unused`.
pub proof fn lemma_read_pool_wide_slots(d: Seq<u8>, p: int)
    ensures
        spec_read_constant_pool(d, p) matches Ok((pool, _)) ==> pool.len() >= 1 && pool[0] is Unused
            && spec_wide_slots_paired(pool),
{
    if avail(d, p, 2) {
        let count = be_u16(d[p], d[p + 1]);
        lemma_cp_entries_paired(d, p + 2, 1, count as int);
        if let Ok((pool, _)) = spec_read_constant_pool(d, p) {
            let es = spec_read_cp_entries(d, p + 2, 1, count as int)->Ok_0.0;
            assert(pool == seq![SpecConstantEntry::Unused] + es);
            assert forall|k: int| 0 <= k < pool.len() && is_wide(#[trigger] pool[k]) implies k + 1 < pool.len()
                && pool[k + 1] is Unused by {
                assert(k >= 1);
                assert(pool[k] == es[k - 1]);
                assert(pool[k + 1] == es[k]);
            }
        }
    }
}

/// Whether every `Utf8` entry of the pool read from `p` for the slots `i` to `count - 1`
/// has bytes that are valid UTF-8.
pub open spec fn spec_cp_payloads_valid(d: Seq<u8>, p: int, i: int, count: int) -> bool
    decreases count + 1 - i,
{
    if i >= count {
        true
    } else {
        match spec_read_constant(d, p) {
            Err(_) => true,
            Ok((e, q)) => spec_utf8_payload_valid(d, p) && spec_cp_payloads_valid(
                d,
                q,
                if is_wide(e) {
                    i + 2
                } else {
                    i + 1
                },
                count,
            ),
        }
    }
}

/// Reading `n` items gives `n` items.
proof fn lemma_read_seq_len<T>(d: Seq<u8>, p: int, n: nat, f: spec_fn(Seq<u8>, int) -> SpecRead<T>)
    ensures
        spec_read_seq(d, p, n, f) matches Ok((xs, q)) ==> xs.len() == n && (n == 0 ==> q == p),
    decreases n,
{
    if n > 0 {
        lemma_read_seq_len(d, p, (n - 1) as nat, f);
    }
}

/// Pool entries that round-trip, with valid UTF-8 texts, were read from exactly the bytes
/// that writing them gives, one slot each.
proof fn lemma_read_pool_bytes(d: Seq<u8>, p: int, i: int, count: int)
    requires
        0 <= p <= d.len(),
        spec_read_cp_entries(d, p, i, count) matches Ok((es, _)) && forall|k: int|
            0 <= k < es.len() ==> spec_round_trips(#[trigger] es[k]),
        spec_cp_payloads_valid(d, p, i, count),
    ensures
        spec_read_cp_entries(d, p, i, count) matches Ok((es, q)) && p <= q <= d.len() && d.subrange(p, q)
            == spec_entries_bytes(es) && es.len() == (if i < count {
            count - i
        } else {
            0
        }),
    decreases count + 1 - i,
{
    if i < count {
        let (e, q1) = spec_read_constant(d, p)->Ok_0;
        let es = spec_read_cp_entries(d, p, i, count)->Ok_0.0;
        assert(es[0] == e);
        assert(!is_wide(e));
        lemma_read_entry_bytes(d, p);
        let rest = spec_read_cp_entries(d, q1, i + 1, count)->Ok_0.0;
        assert(es == seq![e] + rest);
        assert forall|k: int| 0 <= k < rest.len() implies spec_round_trips(#[trigger] rest[k]) by {
            assert(rest[k] == es[k + 1]);
        }
        assert(p < q1 <= d.len()) by {
            assert(spec_entry_bytes(e).len() > 0);
        }
        lemma_read_pool_bytes(d, q1, i + 1, count);
        let q = spec_read_cp_entries(d, q1, i + 1, count)->Ok_0.1;
        assert(es.drop_first() =~= rest);
        assert(d.subrange(p, q) =~= d.subrange(p, q1) + d.subrange(q1, q));
    }
}

/// Writing a parsed class gives back the bytes it was parsed from, for a class that
/// [`ClassFile::to_bytes`] writes in full (no interfaces, fields, methods or attributes,
/// and constant pool entries that round-trip) whose `Utf8` entries were read from valid
/// UTF-8 and whose constant pool count is not 0 (a count of 0 reads as the one slot 0).
/// A counted read that gives no items read a count of zero.
proof fn lemma_counted_empty<T>(d: Seq<u8>, p: int, f: spec_fn(Seq<u8>, int) -> SpecRead<T>)
    ensures
        spec_read_counted(d, p, f) matches Ok((xs, q)) ==> (xs.len() == 0 ==> q == p + 2 && q <= d.len()
            && d.subrange(p, p + 2) == u16_be_bytes(0)),
{
    if let Some((n, q)) = spec_u16(d, p) {
        lemma_read_seq_len(d, q, n as nat, f);
        lemma_be_u16_bytes(d[p], d[p + 1]);
        assert(d.subrange(p, p + 2) =~= seq![d[p], d[p + 1]]);
    }
}

/// A class body with no interfaces, fields, methods or attributes, read at `p`, takes
/// the rest of `d`, fourteen bytes, which are what [`ClassFile::to_bytes`] writes after
/// the constant pool.
#[verifier::rlimit(100)]
#[verifier::spinoff_prover]
proof fn lemma_read_empty_body(pool: Seq<SpecConstantEntry>, d: Seq<u8>, p: int, minor: u16, major: u16)
    requires
        spec_read_class_body(pool, d, p, minor, major) matches Ok(c) && c.interfaces.len() == 0 && c.fields.len() == 0
            && c.methods.len() == 0 && c.attributes.len() == 0,
    ensures
        ({
            let c = spec_read_class_body(pool, d, p, minor, major)->Ok_0;
            &&& d.len() == p + 14
            &&& c.cp == pool
            &&& c.minor_version == minor
            &&& c.major_version == major
            &&& d.subrange(p, p + 14) == spec_class_trailer(c)
        }),
{
    reveal(spec_read_class_body);
    let c = spec_read_class_body(pool, d, p, minor, major)->Ok_0;
    lemma_counted_empty(d, p + 6, u16_reader());
    lemma_counted_empty(d, p + 8, field_reader(pool));
    lemma_counted_empty(d, p + 10, method_reader(pool));
    lemma_counted_empty(d, p + 12, class_attribute_reader(pool));
    lemma_be_u16_bytes(d[p], d[p + 1]);
    lemma_be_u16_bytes(d[p + 2], d[p + 3]);
    lemma_be_u16_bytes(d[p + 4], d[p + 5]);
    assert(d.subrange(p, p + 14) =~= seq![d[p], d[p + 1]] + seq![d[p + 2], d[p + 3]] + seq![d[p + 4], d[p + 5]]
        + d.subrange(p + 6, p + 8) + d.subrange(p + 8, p + 10) + d.subrange(p + 10, p + 12) + d.subrange(p + 12, p + 14));
}

/// Writing a parsed class gives back the bytes it was parsed from, for a class that
/// [`ClassFile::to_bytes`] writes in full (no interfaces, fields, methods or attributes,
/// and constant pool entries that round-trip) whose `Utf8` entries were read from valid
/// UTF-8 and whose constant pool count is not 0 (a count of 0 reads as the one slot 0).
#[verifier::spinoff_prover]
#[verifier::rlimit(40)]
pub proof fn lemma_parsed_class_writes_back(b: Seq<u8>)
    requires
        spec_parse_class(b) matches Ok(c) && c.interfaces.len() == 0 && c.fields.len() == 0 && c.methods.len() == 0
            && c.attributes.len() == 0 && forall|i: int| 1 <= i < c.cp.len() ==> spec_round_trips(#[trigger] c.cp[i]),
        b.len() >= 10,
        be_u16(b[8], b[9]) != 0,
        spec_cp_payloads_valid(b, 10, 1, be_u16(b[8], b[9]) as int),
    ensures
        spec_class_bytes(spec_parse_class(b)->Ok_0) == b,
{
    let c = spec_parse_class(b)->Ok_0;
    let count = be_u16(b[8], b[9]);
    lemma_be_u32_bytes(b[0], b[1], b[2], b[3]);
    lemma_be_u16_bytes(b[4], b[5]);
    lemma_be_u16_bytes(b[6], b[7]);
    lemma_be_u16_bytes(b[8], b[9]);
    let (es, q) = spec_read_cp_entries(b, 10, 1, count as int)->Ok_0;
    let pool = seq![SpecConstantEntry::Unused] + es;
    assert(spec_read_constant_pool(b, 8) == Ok::<(Seq<SpecConstantEntry>, int), SpecReadError>((pool, q)));
    lemma_read_empty_body(pool, b, q, be_u16(b[4], b[5]), be_u16(b[6], b[7]));
    assert(c.cp == pool);
    assert forall|k: int| 0 <= k < es.len() implies spec_round_trips(#[trigger] es[k]) by {
        assert(es[k] == c.cp[k + 1]);
    }
    lemma_read_pool_bytes(b, 10, 1, count as int);
    assert(c.cp.drop_first() =~= es);
    assert(c.cp.len() == count);
    assert(spec_class_header(c) =~= b.subrange(0, 4) + b.subrange(4, 6) + b.subrange(6, 8) + b.subrange(8, 10));
    assert(b =~= b.subrange(0, 4) + b.subrange(4, 6) + b.subrange(6, 8) + b.subrange(8, 10) + b.subrange(10, q)
        + b.subrange(q, q + 14));
}

/// A constant pool entry read from `d` reads the same from any `d2` that starts with `d`,
/// and ends within `d`.
proof fn lemma_read_constant_extend(d: Seq<u8>, d2: Seq<u8>, p: int)
    requires
        0 <= p,
        d.len() <= d2.len(),
        forall|j: int| 0 <= j < d.len() ==> d2[j] == d[j],
    ensures
        spec_read_constant(d, p) matches Ok((_, q)) ==> p < q <= d.len() && spec_read_constant(d2, p)
            == spec_read_constant(d, p),
{
    if let Ok((SpecConstantEntry::Utf8(_), q)) = spec_read_constant(d, p) {
        assert(d2.subrange(p + 3, q) =~= d.subrange(p + 3, q));
    }
}

/// Constant pool entries read from `d` read the same from any `d2` that starts with `d`.
proof fn lemma_read_cp_entries_extend(d: Seq<u8>, d2: Seq<u8>, p: int, i: int, count: int)
    requires
        0 <= p <= d.len(),
        d.len() <= d2.len(),
        forall|j: int| 0 <= j < d.len() ==> d2[j] == d[j],
    ensures
        spec_read_cp_entries(d, p, i, count) matches Ok((_, q)) ==> p <= q <= d.len() && spec_read_cp_entries(
            d2,
            p,
            i,
            count,
        ) == spec_read_cp_entries(d, p, i, count),
    decreases count + 1 - i,
{
    if i < count {
        lemma_read_constant_extend(d, d2, p);
        if let Ok((e, q)) = spec_read_constant(d, p) {
            let next = if is_wide(e) {
                i + 2
            } else {
                i + 1
            };
            lemma_read_cp_entries_extend(d, d2, q, next, count);
        }
    }
}

/// A class body whose counts are zero, at `p` in `d2`, with bytes after it, is refused
/// for its trailing bytes.
proof fn lemma_empty_body_trailing(pool: Seq<SpecConstantEntry>, d2: Seq<u8>, p: int, minor: u16, major: u16)
    requires
        0 <= p,
        p + 14 < d2.len(),
        d2.subrange(p + 6, p + 8) == u16_be_bytes(0),
        d2.subrange(p + 8, p + 10) == u16_be_bytes(0),
        d2.subrange(p + 10, p + 12) == u16_be_bytes(0),
        d2.subrange(p + 12, p + 14) == u16_be_bytes(0),
    ensures
        spec_read_class_body(pool, d2, p, minor, major) == Err::<SpecClassFile, SpecReadError>(
            SpecReadError::Format(SpecClassFormatErr::TrailingBytes),
        ),
{
    reveal(spec_read_class_body);
    lemma_u16_at(d2, p + 6, 0);
    lemma_u16_at(d2, p + 8, 0);
    lemma_u16_at(d2, p + 10, 0);
    lemma_u16_at(d2, p + 12, 0);
}

/// A class body read in full from `p` to the end of `d` is refused for its trailing bytes
/// on any longer `d2` that starts with `d`.
proof fn lemma_body_trailing(pool: Seq<SpecConstantEntry>, d: Seq<u8>, d2: Seq<u8>, p: int, minor: u16, major: u16)
    requires
        spec_prefix_of(d, d2),
        d.len() < d2.len(),
        0 <= p <= d.len(),
        spec_read_class_body(pool, d, p, minor, major) is Ok,
    ensures
        spec_read_class_body(pool, d2, p, minor, major) == Err::<SpecClassFile, SpecReadError>(
            SpecReadError::Format(SpecClassFormatErr::TrailingBytes),
        ),
{
    reveal(spec_read_class_body);
    assert(d2[p] == d[p] && d2[p + 1] == d[p + 1] && d2[p + 2] == d[p + 2]);
    assert(d2[p + 3] == d[p + 3] && d2[p + 4] == d[p + 4] && d2[p + 5] == d[p + 5]);
    lemma_fixed_readers_repeat(d, d2);
    lemma_field_reader_repeats(pool, d, d2);
    lemma_method_reader_repeats(pool, d, d2);
    lemma_class_attribute_reader_repeats(pool, d, d2);
    lemma_counted_repeats(d, d2, p + 6, u16_reader());
    let q = spec_read_counted(d, p + 6, u16_reader())->Ok_0.1;
    lemma_counted_repeats(d, d2, q, field_reader(pool));
    let r = spec_read_counted(d, q, field_reader(pool))->Ok_0.1;
    lemma_counted_repeats(d, d2, r, method_reader(pool));
    let s = spec_read_counted(d, r, method_reader(pool))->Ok_0.1;
    lemma_counted_repeats(d, d2, s, class_attribute_reader(pool));
    let t = spec_read_counted(d, s, class_attribute_reader(pool))->Ok_0.1;
    assert(t == d.len());
}

/// Bytes appended to a class file that parses are refused as trailing bytes.
pub proof fn lemma_trailing_bytes_refused(b: Seq<u8>, extra: Seq<u8>)
    requires
        spec_parse_class(b) is Ok,
        extra.len() > 0,
    ensures
        spec_parse_class(b + extra) == Err::<SpecClassFile, SpecReadError>(
            SpecReadError::Format(SpecClassFormatErr::TrailingBytes),
        ),
{
    let d2 = b + extra;
    assert(b.len() >= 10);
    assert forall|j: int| 0 <= j < b.len() implies d2[j] == b[j] by {}
    assert(spec_prefix_of(b, d2));
    let count = be_u16(b[8], b[9]);
    lemma_read_cp_entries_extend(b, d2, 10, 1, count as int);
    assert(spec_read_constant_pool(d2, 8) == spec_read_constant_pool(b, 8));
    let (pool, q) = spec_read_constant_pool(b, 8)->Ok_0;
    assert(q <= b.len());
    lemma_body_trailing(pool, b, d2, q, be_u16(b[4], b[5]), be_u16(b[6], b[7]));
}


/// A class file that parses has the minor version of its bytes 4 and 5 and the major
/// version of its bytes 6 and 7, big-endian, after the magic number `0xCAFEBABE`.
pub proof fn lemma_parsed_versions(b: Seq<u8>)
    ensures
        spec_parse_class(b) matches Ok(c) ==> {
            &&& b.len() >= 10
            &&& be_u32(b[0], b[1], b[2], b[3]) == 0xCAFEBABE
            &&& c.minor_version == be_u16(b[4], b[5])
            &&& c.major_version == be_u16(b[6], b[7])
        },
{
    if spec_parse_class(b) is Ok {
        reveal(spec_read_class_body);
    }
}

} // verus!
