//! Building a constant pool entry by entry, without duplicates, in the order in which
//! `javac` lays its entries out.
//!
//! An entry that is asked for again is found and reused: every lookup goes to the first
//! entry equal to the one sought. Where an entry refers to others, the referring entry's
//! slot is reserved first and filled once the entries it refers to exist.

use crate::attribute::kind::str_eq;
use crate::constant_pool::entry::{ConstantEntry, SpecConstantEntry};
use crate::constant_pool::pool::{ConstantPool, spec_entries};
use crate::constant_pool::types::{NameAndType, Reference};
use vstd::prelude::*;

verus! {

/// The index of the first entry of `es` from `i` on that equals `x`.
pub open spec fn spec_find_from(es: Seq<SpecConstantEntry>, x: SpecConstantEntry, i: int) -> Option<int>
    decreases es.len() - i,
{
    if i < 0 || i >= es.len() {
        None
    } else if es[i] == x {
        Some(i)
    } else {
        spec_find_from(es, x, i + 1)
    }
}

/// The index of the first entry of `es` that equals `x`.
pub open spec fn spec_find(es: Seq<SpecConstantEntry>, x: SpecConstantEntry) -> Option<int> {
    spec_find_from(es, x, 0)
}

/// What [`spec_find_from`] finds lies in `es` from `i` on and equals `x`.
pub proof fn lemma_find_from(es: Seq<SpecConstantEntry>, x: SpecConstantEntry, i: int)
    ensures
        spec_find_from(es, x, i) matches Some(j) ==> i <= j < es.len() && es[j] == x,
    decreases es.len() - i,
{
    if 0 <= i < es.len() && es[i] != x {
        lemma_find_from(es, x, i + 1);
    }
}

/// What [`spec_find`] finds lies in `es` and equals `x`.
pub proof fn lemma_find(es: Seq<SpecConstantEntry>, x: SpecConstantEntry)
    ensures
        spec_find(es, x) matches Some(j) ==> 0 <= j < es.len() && es[j] == x,
{
    lemma_find_from(es, x, 0);
}

/// The `Class` entry whose name is `name`.
pub open spec fn spec_find_class(es: Seq<SpecConstantEntry>, name: Seq<char>) -> Option<int> {
    match spec_find(es, SpecConstantEntry::Utf8(name)) {
        Some(u) => spec_find(es, SpecConstantEntry::Class(u as u16)),
        None => None,
    }
}

/// The `String` entry whose text is `s`.
pub open spec fn spec_find_string(es: Seq<SpecConstantEntry>, s: Seq<char>) -> Option<int> {
    match spec_find(es, SpecConstantEntry::Utf8(s)) {
        Some(u) => spec_find(es, SpecConstantEntry::String(u as u16)),
        None => None,
    }
}

/// The `NameAndType` entry of `name` and `descriptor`.
pub open spec fn spec_find_nat(es: Seq<SpecConstantEntry>, name: Seq<char>, descriptor: Seq<char>) -> Option<int> {
    match (spec_find(es, SpecConstantEntry::Utf8(name)), spec_find(es, SpecConstantEntry::Utf8(descriptor))) {
        (Some(a), Some(b)) => spec_find(es, SpecConstantEntry::NameAndType(NameAndType { name_index: a as u16, descriptor_index: b as u16 })),
        _ => None,
    }
}

/// A `Methodref` (or, if `!method`, a `Fieldref`) entry with the given indices.
pub open spec fn spec_ref_entry(method: bool, class_index: int, nat_index: int) -> SpecConstantEntry {
    let r = Reference { class_index: class_index as u16, name_and_type_index: nat_index as u16 };
    if method {
        SpecConstantEntry::MethodRef(r)
    } else {
        SpecConstantEntry::FieldRef(r)
    }
}

/// The reference entry to `class`.`name`:`descriptor`.
pub open spec fn spec_find_ref(
    es: Seq<SpecConstantEntry>,
    method: bool,
    class: Seq<char>,
    name: Seq<char>,
    descriptor: Seq<char>,
) -> Option<int> {
    match (spec_find_class(es, class), spec_find_nat(es, name, descriptor)) {
        (Some(c), Some(n)) => spec_find(es, spec_ref_entry(method, c, n)),
        _ => None,
    }
}

/// Adding the text `s`: the pool afterwards and the index of its `Utf8` entry.
pub open spec fn spec_add_utf8(es: Seq<SpecConstantEntry>, s: Seq<char>) -> (Seq<SpecConstantEntry>, int) {
    match spec_find(es, SpecConstantEntry::Utf8(s)) {
        Some(i) => (es, i),
        None => (es.push(SpecConstantEntry::Utf8(s)), es.len() as int),
    }
}

/// Adding a `Class` (if `!string`) or `String` entry for `s`: its slot is reserved, then
/// the text is added, then the slot is filled.
pub open spec fn spec_add_named(es: Seq<SpecConstantEntry>, string: bool, s: Seq<char>) -> (Seq<SpecConstantEntry>, int) {
    match (if string { spec_find_string(es, s) } else { spec_find_class(es, s) }) {
        Some(i) => (es, i),
        None => {
            let c = es.len() as int;
            let (es2, u) = spec_add_utf8(es.push(SpecConstantEntry::Unused), s);
            let e = if string { SpecConstantEntry::String(u as u16) } else { SpecConstantEntry::Class(u as u16) };
            (es2.update(c, e), c)
        },
    }
}

/// Adding `class`.`name`:`descriptor` as a `Methodref` (or `Fieldref`): the reference's
/// slot is reserved, then those of the class and of the name and type where they are
/// missing, then the three texts are added, then the reserved slots are filled.
pub open spec fn spec_add_ref(
    es: Seq<SpecConstantEntry>,
    method: bool,
    class: Seq<char>,
    name: Seq<char>,
    descriptor: Seq<char>,
) -> (Seq<SpecConstantEntry>, int) {
    match spec_find_ref(es, method, class, name, descriptor) {
        Some(r) => (es, r),
        None => {
            let (e8, r, ci, ni) = spec_add_ref_entries(es, class, name, descriptor);
            (e8.update(r, spec_ref_entry(method, ci, ni)), r)
        },
    }
}

/// The entries of a new reference to `class`.`name`:`descriptor`: its slot reserved,
/// then those of the class and of the name and type where they are missing, then the
/// three texts added, then the reserved class and name and type filled. The pool
/// afterwards and the slots of the reference, the class and the name and type.
pub open spec fn spec_add_ref_entries(
    es: Seq<SpecConstantEntry>,
    class: Seq<char>,
    name: Seq<char>,
    descriptor: Seq<char>,
) -> (Seq<SpecConstantEntry>, int, int, int) {
    let r = es.len() as int;
    let (e2, ci) = spec_reserve_class(es.push(SpecConstantEntry::Unused), class);
    let (e3, ni) = spec_reserve_nat(e2, name, descriptor);
    let (e4, cn) = spec_add_utf8(e3, class);
    let (e5, nn) = spec_add_utf8(e4, name);
    let (e6, dn) = spec_add_utf8(e5, descriptor);
    (spec_fill_nat(spec_fill_class(e6, ci, cn), ni, nn, dn), r, ci, ni)
}

/// The slot of the class named `class`, reserved at the end where there is none.
pub open spec fn spec_reserve_class(es: Seq<SpecConstantEntry>, class: Seq<char>) -> (Seq<SpecConstantEntry>, int) {
    match spec_find_class(es, class) {
        Some(i) => (es, i),
        None => (es.push(SpecConstantEntry::Unused), es.len() as int),
    }
}

/// The slot of the name and type of `name` and `descriptor`, reserved at the end where
/// there is none.
pub open spec fn spec_reserve_nat(es: Seq<SpecConstantEntry>, name: Seq<char>, descriptor: Seq<char>) -> (
    Seq<SpecConstantEntry>,
    int,
) {
    match spec_find_nat(es, name, descriptor) {
        Some(i) => (es, i),
        None => (es.push(SpecConstantEntry::Unused), es.len() as int),
    }
}

/// Slot `ci` filled with the class whose name is at `cn`, if it is still empty.
pub open spec fn spec_fill_class(es: Seq<SpecConstantEntry>, ci: int, cn: int) -> Seq<SpecConstantEntry> {
    if es[ci] is Unused {
        es.update(ci, SpecConstantEntry::Class(cn as u16))
    } else {
        es
    }
}

/// Slot `ni` filled with the name and type whose texts are at `nn` and `dn`, if it is
/// still empty.
pub open spec fn spec_fill_nat(es: Seq<SpecConstantEntry>, ni: int, nn: int, dn: int) -> Seq<SpecConstantEntry> {
    if es[ni] is Unused {
        es.update(ni, SpecConstantEntry::NameAndType(NameAndType { name_index: nn as u16, descriptor_index: dn as u16 }))
    } else {
        es
    }
}

/// Builder of a constant pool. Slot 0 holds `Unused`.
#[derive(Debug, Clone)]
pub struct ConstantPoolBuilder {
    entries: Vec<ConstantEntry>,
}

impl View for ConstantPoolBuilder {
    type V = Seq<SpecConstantEntry>;

    closed spec fn view(&self) -> Seq<SpecConstantEntry> {
        spec_entries(self.entries@)
    }
}

/// Whether two entries are equal.
fn same_entry(a: &ConstantEntry, b: &ConstantEntry) -> (r: bool)
    ensures
        r == (a@ == b@),
{
    match (a, b) {
        (ConstantEntry::Unused, ConstantEntry::Unused) => true,
        (ConstantEntry::Utf8(x), ConstantEntry::Utf8(y)) => str_eq(x.as_str(), y.as_str()),
        (ConstantEntry::Integer(x), ConstantEntry::Integer(y)) => *x == *y,
        (ConstantEntry::Float(x), ConstantEntry::Float(y)) => *x == *y,
        (ConstantEntry::Long(x), ConstantEntry::Long(y)) => *x == *y,
        (ConstantEntry::Double(x), ConstantEntry::Double(y)) => *x == *y,
        (ConstantEntry::Class(x), ConstantEntry::Class(y)) => *x == *y,
        (ConstantEntry::String(x), ConstantEntry::String(y)) => *x == *y,
        (ConstantEntry::MethodRef(x), ConstantEntry::MethodRef(y)) => *x == *y,
        (ConstantEntry::FieldRef(x), ConstantEntry::FieldRef(y)) => *x == *y,
        (ConstantEntry::InterfaceMethodRef(x), ConstantEntry::InterfaceMethodRef(y)) => *x == *y,
        (ConstantEntry::NameAndType(x), ConstantEntry::NameAndType(y)) => *x == *y,
        (ConstantEntry::Dynamic(x), ConstantEntry::Dynamic(y)) => *x == *y,
        (ConstantEntry::InvokeDynamic(x), ConstantEntry::InvokeDynamic(y)) => *x == *y,
        (ConstantEntry::MethodHandle(x), ConstantEntry::MethodHandle(y)) => *x == *y,
        (ConstantEntry::MethodType(x), ConstantEntry::MethodType(y)) => *x == *y,
        _ => false,
    }
}

impl ConstantPoolBuilder {
    /// The builder's invariant: slot 0 holds `Unused`, every slot has a 16-bit index, and
    /// every index that an entry holds is a slot of the pool.
    pub open spec fn wf(&self) -> bool {
        &&& 1 <= self@.len() <= 0x10000
        &&& self@[0] is Unused
        &&& spec_refs_in_range(self@)
    }

    /// An empty pool: slot 0 only.
    pub fn new() -> (b: Self)
        ensures
            b.wf(),
            b@ == seq![SpecConstantEntry::Unused],
    {
        let mut entries: Vec<ConstantEntry> = Vec::new();
        entries.push(ConstantEntry::Unused);
        let b = Self { entries };
        assert(b@ =~= seq![SpecConstantEntry::Unused]);
        assert(spec_entry_refs_below(b@[0], 1));
        b
    }

    /// The index of the first entry equal to `x`.
    fn find(&self, x: &ConstantEntry) -> (r: Option<u16>)
        requires
            self.wf(),
        ensures
            match spec_find(self@, x@) {
                Some(i) => r == Some(i as u16),
                None => r is None,
            },
            spec_find(self@, x@) matches Some(i) ==> 0 <= i < self@.len() && self@[i] == x@,
    {
        proof {
            lemma_find(self@, x@);
        }
        let n = self.entries.len();
        let mut i: usize = 0;
        while i < n
            invariant
                i <= n,
                n == self@.len(),
                n <= 0x10000,
                spec_find(self@, x@) == spec_find_from(self@, x@, i as int),
            decreases n - i,
        {
            if same_entry(&self.entries[i], x) {
                return Some(i as u16);
            }
            i = i + 1;
        }
        None
    }

    fn find_class(&self, name: &str) -> (r: Option<u16>)
        requires
            self.wf(),
        ensures
            match spec_find_class(self@, name@) {
                Some(i) => r == Some(i as u16),
                None => r is None,
            },
            spec_find_class(self@, name@) matches Some(i) ==> 1 <= i < self@.len(),
    {
        let u = self.find(&ConstantEntry::Utf8(name.to_string()))?;
        self.find(&ConstantEntry::Class(u))
    }

    fn find_string(&self, s: &str) -> (r: Option<u16>)
        requires
            self.wf(),
        ensures
            match spec_find_string(self@, s@) {
                Some(i) => r == Some(i as u16),
                None => r is None,
            },
            spec_find_string(self@, s@) matches Some(i) ==> 1 <= i < self@.len(),
    {
        let u = self.find(&ConstantEntry::Utf8(s.to_string()))?;
        self.find(&ConstantEntry::String(u))
    }

    fn find_nat(&self, name: &str, descriptor: &str) -> (r: Option<u16>)
        requires
            self.wf(),
        ensures
            match spec_find_nat(self@, name@, descriptor@) {
                Some(i) => r == Some(i as u16),
                None => r is None,
            },
            spec_find_nat(self@, name@, descriptor@) matches Some(i) ==> 1 <= i < self@.len(),
    {
        let a = self.find(&ConstantEntry::Utf8(name.to_string()));
        let b = self.find(&ConstantEntry::Utf8(descriptor.to_string()));
        match (a, b) {
            (Some(a), Some(b)) => self.find(&ConstantEntry::NameAndType(NameAndType { name_index: a, descriptor_index: b })),
            _ => None,
        }
    }

    fn ref_entry(method: bool, class_index: u16, nat_index: u16) -> (e: ConstantEntry)
        ensures
            e@ == spec_ref_entry(method, class_index as int, nat_index as int),
    {
        let r = Reference { class_index, name_and_type_index: nat_index };
        if method {
            ConstantEntry::MethodRef(r)
        } else {
            ConstantEntry::FieldRef(r)
        }
    }

    fn find_ref(&self, method: bool, class: &str, name: &str, descriptor: &str) -> (r: Option<u16>)
        requires
            self.wf(),
        ensures
            match spec_find_ref(self@, method, class@, name@, descriptor@) {
                Some(i) => r == Some(i as u16),
                None => r is None,
            },
            spec_find_ref(self@, method, class@, name@, descriptor@) matches Some(i) ==> 1 <= i < self@.len(),
    {
        let c = self.find_class(class)?;
        let n = self.find_nat(name, descriptor)?;
        self.find(&Self::ref_entry(method, c, n))
    }

    /// Appends an empty slot to be filled later; its index.
    fn reserve_entry(&mut self) -> (idx: u16)
        requires
            old(self).wf(),
            old(self)@.len() < 0x10000,
        ensures
            final(self).wf(),
            final(self)@ == old(self)@.push(SpecConstantEntry::Unused),
            idx == old(self)@.len(),
    {
        let idx = self.entries.len() as u16;
        self.entries.push(ConstantEntry::Unused);
        assert(final(self)@ =~= old(self)@.push(SpecConstantEntry::Unused));
        proof {
            lemma_in_range_push_unused(old(self)@);
        }
        idx
    }

    /// Puts `entry` in slot `idx`.
    fn fill_entry(&mut self, idx: u16, entry: ConstantEntry)
        requires
            old(self).wf(),
            1 <= idx < old(self)@.len(),
            spec_entry_refs_below(entry@, old(self)@.len() as int),
        ensures
            final(self).wf(),
            final(self)@ == old(self)@.update(idx as int, entry@),
    {
        let ghost e = entry@;
        self.entries.set(idx as usize, entry);
        assert(final(self)@ =~= old(self)@.update(idx as int, e));
        proof {
            lemma_in_range_update(old(self)@, idx as int, e);
        }
    }

    /// Appends `entry`, and after a `Long` or `Double` the empty slot that it takes too;
    /// the index of `entry`.
    fn add_entry(&mut self, entry: ConstantEntry) -> (idx: u16)
        requires
            old(self).wf(),
            old(self)@.len() + (if entry@ is Long || entry@ is Double { 2int } else { 1int }) <= 0x10000,
            spec_entry_refs_below(entry@, old(self)@.len() as int),
        ensures
            final(self).wf(),
            final(self)@ == if entry@ is Long || entry@ is Double {
                old(self)@.push(entry@).push(SpecConstantEntry::Unused)
            } else {
                old(self)@.push(entry@)
            },
            idx == old(self)@.len(),
    {
        let idx = self.entries.len() as u16;
        let is_wide = match &entry {
            ConstantEntry::Long(_) => true,
            ConstantEntry::Double(_) => true,
            _ => false,
        };
        let ghost e = entry@;
        self.entries.push(entry);
        proof {
            lemma_in_range_push(old(self)@, e);
        }
        if is_wide {
            self.entries.push(ConstantEntry::Unused);
            assert(final(self)@ =~= old(self)@.push(e).push(SpecConstantEntry::Unused));
            proof {
                lemma_in_range_push_unused(old(self)@.push(e));
            }
        } else {
            assert(final(self)@ =~= old(self)@.push(e));
        }
        idx
    }

    /// Adds the text `s` unless the pool holds it; the index of its `Utf8` entry.
    pub fn add_utf8(&mut self, s: &str) -> (idx: u16)
        requires
            old(self).wf(),
            spec_find(old(self)@, SpecConstantEntry::Utf8(s@)) is Some || old(self)@.len() < 0x10000,
        ensures
            final(self).wf(),
            (final(self)@, idx as int) == spec_add_utf8(old(self)@, s@),
            old(self)@.len() <= final(self)@.len(),
            idx < final(self)@.len(),
    {
        proof {
            lemma_add_utf8_law(old(self)@, s@);
        }
        match self.find(&ConstantEntry::Utf8(s.to_string())) {
            Some(idx) => idx,
            None => self.add_entry(ConstantEntry::Utf8(s.to_string())),
        }
    }

    fn add_named(&mut self, string: bool, s: &str) -> (idx: u16)
        requires
            old(self).wf(),
            (if string { spec_find_string(old(self)@, s@) } else { spec_find_class(old(self)@, s@) }) is Some || old(self)@.len() + 2 <= 0x10000,
        ensures
            final(self).wf(),
            (final(self)@, idx as int) == spec_add_named(old(self)@, string, s@),
    {
        let found = if string {
            self.find_string(s)
        } else {
            self.find_class(s)
        };
        if let Some(idx) = found {
            return idx;
        }
        let idx = self.reserve_entry();
        let utf8_idx = self.add_utf8(s);
        let e = if string {
            ConstantEntry::String(utf8_idx)
        } else {
            ConstantEntry::Class(utf8_idx)
        };
        self.fill_entry(idx, e);
        idx
    }

    /// Adds a `Class` entry named `name` unless the pool holds one; its index.
    pub fn add_class(&mut self, name: &str) -> (idx: u16)
        requires
            old(self).wf(),
            spec_find_class(old(self)@, name@) is Some || old(self)@.len() + 2 <= 0x10000,
        ensures
            final(self).wf(),
            (final(self)@, idx as int) == spec_add_named(old(self)@, false, name@),
    {
        self.add_named(false, name)
    }

    /// Adds a `String` entry of text `s` unless the pool holds one; its index.
    pub fn add_string(&mut self, s: &str) -> (idx: u16)
        requires
            old(self).wf(),
            spec_find_string(old(self)@, s@) is Some || old(self)@.len() + 2 <= 0x10000,
        ensures
            final(self).wf(),
            (final(self)@, idx as int) == spec_add_named(old(self)@, true, s@),
    {
        self.add_named(true, s)
    }

    /// The slot of the class named `name`, reserved at the end where there is none.
    fn find_or_reserve_class(&mut self, name: &str) -> (idx: u16)
        requires
            old(self).wf(),
            old(self)@.len() < 0x10000,
        ensures
            final(self).wf(),
            (final(self)@, idx as int) == spec_reserve_class(old(self)@, name@),
            1 <= idx < final(self)@.len(),
    {
        match self.find_class(name) {
            Some(i) => i,
            None => self.reserve_entry(),
        }
    }

    /// The slot of the name and type of `name` and `descriptor`, reserved at the end
    /// where there is none.
    fn find_or_reserve_nat(&mut self, name: &str, descriptor: &str) -> (idx: u16)
        requires
            old(self).wf(),
            old(self)@.len() < 0x10000,
        ensures
            final(self).wf(),
            (final(self)@, idx as int) == spec_reserve_nat(old(self)@, name@, descriptor@),
            1 <= idx < final(self)@.len(),
    {
        match self.find_nat(name, descriptor) {
            Some(i) => i,
            None => self.reserve_entry(),
        }
    }

    /// Fills slot `class_idx` with the class whose name is at `name_idx`, if it is
    /// still empty.
    fn fill_class_if_reserved(&mut self, class_idx: u16, name_idx: u16)
        requires
            old(self).wf(),
            1 <= class_idx < old(self)@.len(),
            name_idx < old(self)@.len(),
        ensures
            final(self).wf(),
            final(self)@ == spec_fill_class(old(self)@, class_idx as int, name_idx as int),
    {
        if same_entry(&self.entries[class_idx as usize], &ConstantEntry::Unused) {
            self.fill_entry(class_idx, ConstantEntry::Class(name_idx));
        }
    }

    /// Fills slot `nat_idx` with the name and type whose texts are at `name_idx` and
    /// `desc_idx`, if it is still empty.
    fn fill_nat_if_reserved(&mut self, nat_idx: u16, name_idx: u16, desc_idx: u16)
        requires
            old(self).wf(),
            1 <= nat_idx < old(self)@.len(),
            name_idx < old(self)@.len(),
            desc_idx < old(self)@.len(),
        ensures
            final(self).wf(),
            final(self)@ == spec_fill_nat(old(self)@, nat_idx as int, name_idx as int, desc_idx as int),
    {
        if same_entry(&self.entries[nat_idx as usize], &ConstantEntry::Unused) {
            self.fill_entry(
                nat_idx,
                ConstantEntry::NameAndType(NameAndType { name_index: name_idx, descriptor_index: desc_idx }),
            );
        }
    }

    /// Adds the entries of a new reference to `class`.`name`:`descriptor`, all but the
    /// reference itself, whose slot is reserved; the slots of the reference, the class
    /// and the name and type.
    fn add_ref_entries(&mut self, class: &str, name: &str, descriptor: &str) -> (r: (u16, u16, u16))
        requires
            old(self).wf(),
            old(self)@.len() + 6 <= 0x10000,
        ensures
            final(self).wf(),
            (final(self)@, r.0 as int, r.1 as int, r.2 as int) == spec_add_ref_entries(old(self)@, class@, name@, descriptor@),
            1 <= r.0 < final(self)@.len(),
            r.1 < final(self)@.len(),
            r.2 < final(self)@.len(),
    {
        let ref_idx = self.reserve_entry();
        let class_idx = self.find_or_reserve_class(class);
        let nat_idx = self.find_or_reserve_nat(name, descriptor);
        let class_name_idx = self.add_utf8(class);
        let name_idx = self.add_utf8(name);
        let desc_idx = self.add_utf8(descriptor);
        self.fill_class_if_reserved(class_idx, class_name_idx);
        self.fill_nat_if_reserved(nat_idx, name_idx, desc_idx);
        (ref_idx, class_idx, nat_idx)
    }

    fn add_ref(&mut self, method: bool, class: &str, name: &str, descriptor: &str) -> (idx: u16)
        requires
            old(self).wf(),
            spec_find_ref(old(self)@, method, class@, name@, descriptor@) is Some || old(self)@.len() + 6 <= 0x10000,
        ensures
            final(self).wf(),
            (final(self)@, idx as int) == spec_add_ref(old(self)@, method, class@, name@, descriptor@),
    {
        if let Some(idx) = self.find_ref(method, class, name, descriptor) {
            return idx;
        }
        let (ref_idx, class_idx, nat_idx) = self.add_ref_entries(class, name, descriptor);
        self.fill_entry(ref_idx, Self::ref_entry(method, class_idx, nat_idx));
        ref_idx
    }

    /// Adds a `Methodref` to `class`.`name`:`descriptor` unless the pool holds one; its index.
    pub fn add_methodref(&mut self, class: &str, name: &str, descriptor: &str) -> (idx: u16)
        requires
            old(self).wf(),
            spec_find_ref(old(self)@, true, class@, name@, descriptor@) is Some || old(self)@.len() + 6 <= 0x10000,
        ensures
            final(self).wf(),
            (final(self)@, idx as int) == spec_add_ref(old(self)@, true, class@, name@, descriptor@),
    {
        self.add_ref(true, class, name, descriptor)
    }

    /// Adds a `Fieldref` to `class`.`name`:`descriptor` unless the pool holds one; its index.
    pub fn add_fieldref(&mut self, class: &str, name: &str, descriptor: &str) -> (idx: u16)
        requires
            old(self).wf(),
            spec_find_ref(old(self)@, false, class@, name@, descriptor@) is Some || old(self)@.len() + 6 <= 0x10000,
        ensures
            final(self).wf(),
            (final(self)@, idx as int) == spec_add_ref(old(self)@, false, class@, name@, descriptor@),
    {
        self.add_ref(false, class, name, descriptor)
    }

    /// The pool built so far.
    pub fn build(self) -> (pool: ConstantPool)
        ensures
            pool@ == self@,
    {
        ConstantPool { inner: self.entries }
    }

    /// The number of slots, slot 0 included, truncated to 16 bits.
    pub fn len(&self) -> (n: u16)
        ensures
            n == self@.len() % 0x10000,
    {
        (self.entries.len() % 0x10000) as u16
    }

    /// Whether the pool holds no slot but slot 0.
    pub fn is_empty(&self) -> (b: bool)
        ensures
            b == (self@.len() <= 1),
    {
        self.entries.len() <= 1
    }
}

impl Default for ConstantPoolBuilder {
    fn default() -> (b: Self)
        ensures
            b.wf(),
            b@ == seq![SpecConstantEntry::Unused],
    {
        Self::new()
    }
}

/// Nothing of `es` is found from `i` on where [`spec_find_from`] finds nothing.
proof fn lemma_find_from_none(es: Seq<SpecConstantEntry>, x: SpecConstantEntry, i: int)
    requires
        0 <= i,
        spec_find_from(es, x, i) is None,
    ensures
        forall|j: int| i <= j < es.len() ==> es[j] != x,
    decreases es.len() - i,
{
    if i < es.len() {
        lemma_find_from_none(es, x, i + 1);
    }
}

/// Lookups agree on `es` and on any `es2` that starts with `es`, for what `es` holds;
/// what `es` lacks is looked up in the rest of `es2`.
proof fn lemma_find_extend(es: Seq<SpecConstantEntry>, es2: Seq<SpecConstantEntry>, x: SpecConstantEntry, i: int)
    requires
        0 <= i <= es.len() <= es2.len(),
        es2.subrange(0, es.len() as int) == es,
    ensures
        spec_find_from(es, x, i) is Some ==> spec_find_from(es2, x, i) == spec_find_from(es, x, i),
        spec_find_from(es, x, i) is None ==> spec_find_from(es2, x, i) == spec_find_from(es2, x, es.len() as int),
    decreases es.len() - i,
{
    if i < es.len() {
        assert(es2[i] == es[i]);
        lemma_find_extend(es, es2, x, i + 1);
    }
}

/// Whether `es2` starts with all of `es`.
pub open spec fn spec_extends(es2: Seq<SpecConstantEntry>, es: Seq<SpecConstantEntry>) -> bool {
    es.len() <= es2.len() && es2.subrange(0, es.len() as int) == es
}

/// Adding a text keeps what the pool held, returns the index of an entry holding the
/// text, and adding it again changes nothing and returns the same index.
pub proof fn lemma_add_utf8_law(es: Seq<SpecConstantEntry>, s: Seq<char>)
    ensures
        ({
            let (es2, i) = spec_add_utf8(es, s);
            &&& spec_extends(es2, es)
            &&& 0 <= i < es2.len()
            &&& es2[i] == SpecConstantEntry::Utf8(s)
            &&& spec_add_utf8(es2, s) == (es2, i)
        }),
{
    let x = SpecConstantEntry::Utf8(s);
    lemma_find(es, x);
    let (es2, i) = spec_add_utf8(es, s);
    assert(es2.subrange(0, es.len() as int) =~= es);
    if spec_find(es, x) is None {
        lemma_find_extend(es, es2, x, 0);
        assert(es2[es.len() as int] == x);
        assert(spec_find_from(es2, x, es.len() as int) == Some(es.len() as int));
    }
}

/// Whether slot `c` of `es` is a `Class` (or, if `string`, a `String`) entry whose text
/// is `s`.
pub open spec fn spec_names(es: Seq<SpecConstantEntry>, c: int, string: bool, s: Seq<char>) -> bool {
    &&& 0 <= c < es.len()
    &&& match es[c] {
        SpecConstantEntry::Class(u) => !string && u < es.len() && es[u as int] == SpecConstantEntry::Utf8(s),
        SpecConstantEntry::String(u) => string && u < es.len() && es[u as int] == SpecConstantEntry::Utf8(s),
        _ => false,
    }
}

/// Whether slot `n` of `es` is a `NameAndType` entry of `name` and `descriptor`.
pub open spec fn spec_names_nat(es: Seq<SpecConstantEntry>, n: int, name: Seq<char>, descriptor: Seq<char>) -> bool {
    &&& 0 <= n < es.len()
    &&& match es[n] {
        SpecConstantEntry::NameAndType(t) => {
            &&& t.name_index < es.len()
            &&& es[t.name_index as int] == SpecConstantEntry::Utf8(name)
            &&& t.descriptor_index < es.len()
            &&& es[t.descriptor_index as int] == SpecConstantEntry::Utf8(descriptor)
        },
        _ => false,
    }
}

/// Whether slot `r` of `es` is a `Methodref` (or `Fieldref`) to `class`.`name`:`descriptor`.
pub open spec fn spec_names_ref(
    es: Seq<SpecConstantEntry>,
    r: int,
    method: bool,
    class: Seq<char>,
    name: Seq<char>,
    descriptor: Seq<char>,
) -> bool {
    &&& 0 <= r < es.len()
    &&& match es[r] {
        SpecConstantEntry::MethodRef(x) => method && spec_names(es, x.class_index as int, false, class)
            && spec_names_nat(es, x.name_and_type_index as int, name, descriptor),
        SpecConstantEntry::FieldRef(x) => !method && spec_names(es, x.class_index as int, false, class)
            && spec_names_nat(es, x.name_and_type_index as int, name, descriptor),
        _ => false,
    }
}

/// A lookup by name finds a slot that names it.
proof fn lemma_find_named(es: Seq<SpecConstantEntry>, string: bool, s: Seq<char>)
    requires
        es.len() <= 0x10000,
    ensures
        (if string { spec_find_string(es, s) } else { spec_find_class(es, s) }) matches Some(c) ==> spec_names(es, c, string, s),
{
    lemma_find(es, SpecConstantEntry::Utf8(s));
    if let Some(u) = spec_find(es, SpecConstantEntry::Utf8(s)) {
        lemma_find(es, SpecConstantEntry::Class(u as u16));
        lemma_find(es, SpecConstantEntry::String(u as u16));
    }
}

/// A lookup of a name and type finds a slot that names them.
proof fn lemma_find_nat_names(es: Seq<SpecConstantEntry>, name: Seq<char>, descriptor: Seq<char>)
    requires
        es.len() <= 0x10000,
    ensures
        spec_find_nat(es, name, descriptor) matches Some(n) ==> spec_names_nat(es, n, name, descriptor),
{
    lemma_find(es, SpecConstantEntry::Utf8(name));
    lemma_find(es, SpecConstantEntry::Utf8(descriptor));
    if let (Some(a), Some(b)) = (spec_find(es, SpecConstantEntry::Utf8(name)), spec_find(es, SpecConstantEntry::Utf8(descriptor))) {
        lemma_find(es, SpecConstantEntry::NameAndType(NameAndType { name_index: a as u16, descriptor_index: b as u16 }));
    }
}

/// Adding a `Class` (or `String`) entry keeps what the pool held and returns the index of
/// an entry that names the text.
pub proof fn lemma_add_named_law(es: Seq<SpecConstantEntry>, string: bool, s: Seq<char>)
    requires
        es.len() + 2 <= 0x10000,
    ensures
        ({
            let (es2, c) = spec_add_named(es, string, s);
            spec_extends(es2, es) && spec_names(es2, c, string, s)
        }),
{
    lemma_find_named(es, string, s);
    let found = if string { spec_find_string(es, s) } else { spec_find_class(es, s) };
    if found is None {
        let c = es.len() as int;
        let e1 = es.push(SpecConstantEntry::Unused);
        lemma_add_utf8_law(e1, s);
        let (es2, u) = spec_add_utf8(e1, s);
        let e = if string { SpecConstantEntry::String(u as u16) } else { SpecConstantEntry::Class(u as u16) };
        let es3 = es2.update(c, e);
        assert(es2[c] == e1[c]);
        assert(es3.subrange(0, es.len() as int) =~= es);
    } else {
        assert(es.subrange(0, es.len() as int) =~= es);
    }
}

/// What names a class or a name and type keeps naming it once the pool grows.
proof fn lemma_names_extend(es: Seq<SpecConstantEntry>, es2: Seq<SpecConstantEntry>, c: int)
    requires
        spec_extends(es2, es),
        0 <= c < es.len(),
    ensures
        forall|string: bool, s: Seq<char>| spec_names(es, c, string, s) ==> spec_names(es2, c, string, s),
        forall|name: Seq<char>, descriptor: Seq<char>|
            spec_names_nat(es, c, name, descriptor) ==> spec_names_nat(es2, c, name, descriptor),
{
    assert forall|k: int| 0 <= k < es.len() implies es2[k] == es[k] by {
        assert(es2.subrange(0, es.len() as int)[k] == es2[k]);
    }
}

/// The reservations of [`spec_add_ref`] keep the pool, leave its reference slot empty,
/// and give slots that either name what is sought or are empty and new.
proof fn lemma_ref_reserve(es: Seq<SpecConstantEntry>, class: Seq<char>, name: Seq<char>, descriptor: Seq<char>)
    requires
        es.len() + 6 <= 0x10000,
    ensures
        ({
            let r = es.len() as int;
            let (e2, ci) = spec_reserve_class(es.push(SpecConstantEntry::Unused), class);
            let (e3, ni) = spec_reserve_nat(e2, name, descriptor);
            &&& spec_extends(e3, es)
            &&& r < e3.len() <= es.len() + 3
            &&& e3[r] is Unused
            &&& (spec_names(e3, ci, false, class) || (r < ci < e3.len() && e3[ci] is Unused))
            &&& (spec_names_nat(e3, ni, name, descriptor) || (r < ni < e3.len() && e3[ni] is Unused))
            &&& ci != ni
        }),
{
    let r = es.len() as int;
    let e1 = es.push(SpecConstantEntry::Unused);
    lemma_find_named(e1, false, class);
    let (e2, ci) = spec_reserve_class(e1, class);
    lemma_find_nat_names(e2, name, descriptor);
    let (e3, ni) = spec_reserve_nat(e2, name, descriptor);
    assert(e3.subrange(0, es.len() as int) =~= es);
    if spec_names(e2, ci, false, class) {
        assert(spec_names(e3, ci, false, class));
    }
}

/// The texts that [`spec_add_ref`] adds keep the pool and stand where their indices say.
proof fn lemma_ref_texts(e3: Seq<SpecConstantEntry>, class: Seq<char>, name: Seq<char>, descriptor: Seq<char>)
    ensures
        ({
            let (e4, cn) = spec_add_utf8(e3, class);
            let (e5, nn) = spec_add_utf8(e4, name);
            let (e6, dn) = spec_add_utf8(e5, descriptor);
            &&& spec_extends(e6, e3)
            &&& e6.len() <= e3.len() + 3
            &&& 0 <= cn < e6.len() && e6[cn] == SpecConstantEntry::Utf8(class)
            &&& 0 <= nn < e6.len() && e6[nn] == SpecConstantEntry::Utf8(name)
            &&& 0 <= dn < e6.len() && e6[dn] == SpecConstantEntry::Utf8(descriptor)
        }),
{
    lemma_add_utf8_law(e3, class);
    let (e4, cn) = spec_add_utf8(e3, class);
    lemma_add_utf8_law(e4, name);
    let (e5, nn) = spec_add_utf8(e4, name);
    lemma_add_utf8_law(e5, descriptor);
    let (e6, dn) = spec_add_utf8(e5, descriptor);
    assert(e6.subrange(0, e4.len() as int) =~= e4) by {
        assert forall|k: int| 0 <= k < e4.len() implies e6[k] == e4[k] by {
            assert(e5.subrange(0, e4.len() as int)[k] == e5[k]);
            assert(e6.subrange(0, e5.len() as int)[k] == e6[k]);
        }
    }
    assert(e6.subrange(0, e3.len() as int) =~= e3) by {
        assert forall|k: int| 0 <= k < e3.len() implies e6[k] == e3[k] by {
            assert(e4.subrange(0, e3.len() as int)[k] == e4[k]);
            assert(e6.subrange(0, e4.len() as int)[k] == e6[k]);
        }
    }
    assert(e6[nn] == SpecConstantEntry::Utf8(name)) by {
        assert(e6.subrange(0, e5.len() as int)[nn] == e6[nn]);
    }
}

/// The fills of [`spec_add_ref`] make its slots name what is sought.
proof fn lemma_ref_fill(
    es: Seq<SpecConstantEntry>,
    e6: Seq<SpecConstantEntry>,
    method: bool,
    ci: int,
    ni: int,
    cn: int,
    nn: int,
    dn: int,
    class: Seq<char>,
    name: Seq<char>,
    descriptor: Seq<char>,
)
    requires
        e6.len() <= 0x10000,
        spec_extends(e6, es),
        es.len() < e6.len(),
        e6[es.len() as int] is Unused,
        spec_names(e6, ci, false, class) || (es.len() < ci < e6.len() && e6[ci] is Unused),
        spec_names_nat(e6, ni, name, descriptor) || (es.len() < ni < e6.len() && e6[ni] is Unused),
        ci != ni,
        0 <= cn < e6.len() && e6[cn] == SpecConstantEntry::Utf8(class),
        0 <= nn < e6.len() && e6[nn] == SpecConstantEntry::Utf8(name),
        0 <= dn < e6.len() && e6[dn] == SpecConstantEntry::Utf8(descriptor),
    ensures
        ({
            let r = es.len() as int;
            let e9 = spec_fill_nat(spec_fill_class(e6, ci, cn), ni, nn, dn).update(r, spec_ref_entry(method, ci, ni));
            spec_extends(e9, es) && spec_names_ref(e9, r, method, class, name, descriptor)
        }),
{
    let r = es.len() as int;
    let e7 = spec_fill_class(e6, ci, cn);
    assert(spec_names(e7, ci, false, class));
    let e8 = spec_fill_nat(e7, ni, nn, dn);
    assert(spec_names(e8, ci, false, class));
    assert(spec_names_nat(e8, ni, name, descriptor));
    let e9 = e8.update(r, spec_ref_entry(method, ci, ni));
    assert(spec_names(e9, ci, false, class));
    assert(spec_names_nat(e9, ni, name, descriptor));
    assert(e9.subrange(0, es.len() as int) =~= es) by {
        assert forall|k: int| 0 <= k < es.len() implies e9[k] == es[k] by {
            assert(e6.subrange(0, es.len() as int)[k] == e6[k]);
        }
    }
}

/// Adding a `Methodref` (or `Fieldref`) keeps what the pool held and returns the index of
/// an entry that refers to `class`.`name`:`descriptor`.
pub proof fn lemma_add_ref_law(
    es: Seq<SpecConstantEntry>,
    method: bool,
    class: Seq<char>,
    name: Seq<char>,
    descriptor: Seq<char>,
)
    requires
        es.len() + 6 <= 0x10000,
    ensures
        ({
            let (es2, r) = spec_add_ref(es, method, class, name, descriptor);
            spec_extends(es2, es) && spec_names_ref(es2, r, method, class, name, descriptor)
        }),
{
    lemma_find_named(es, false, class);
    lemma_find_nat_names(es, name, descriptor);
    match spec_find_ref(es, method, class, name, descriptor) {
        Some(r) => {
            let c = spec_find_class(es, class)->0;
            let n = spec_find_nat(es, name, descriptor)->0;
            lemma_find(es, spec_ref_entry(method, c, n));
            assert(es.subrange(0, es.len() as int) =~= es);
        },
        None => {
            lemma_ref_reserve(es, class, name, descriptor);
            let (e2, ci) = spec_reserve_class(es.push(SpecConstantEntry::Unused), class);
            let (e3, ni) = spec_reserve_nat(e2, name, descriptor);
            lemma_ref_texts(e3, class, name, descriptor);
            let (e4, cn) = spec_add_utf8(e3, class);
            let (e5, nn) = spec_add_utf8(e4, name);
            let (e6, dn) = spec_add_utf8(e5, descriptor);
            assert(e6.subrange(0, es.len() as int) =~= es) by {
                assert forall|k: int| 0 <= k < es.len() implies e6[k] == es[k] by {
                    assert(e3.subrange(0, es.len() as int)[k] == e3[k]);
                    assert(e6.subrange(0, e3.len() as int)[k] == e6[k]);
                }
            }
            assert(e6[es.len() as int] == e3[es.len() as int]) by {
                assert(e6.subrange(0, e3.len() as int)[es.len() as int] == e6[es.len() as int]);
            }
            lemma_names_extend(e3, e6, ci);
            lemma_names_extend(e3, e6, ni);
            if !spec_names(e3, ci, false, class) {
                assert(e6.subrange(0, e3.len() as int)[ci] == e6[ci]);
            }
            if !spec_names_nat(e3, ni, name, descriptor) {
                assert(e6.subrange(0, e3.len() as int)[ni] == e6[ni]);
            }
            lemma_ref_fill(es, e6, method, ci, ni, cn, nn, dn, class, name, descriptor);
        },
    }
}

/// The first entry equal to `x` is at `j` when it is there and not before.
proof fn lemma_find_first(es: Seq<SpecConstantEntry>, x: SpecConstantEntry, i: int, j: int)
    requires
        0 <= i <= j < es.len(),
        es[j] == x,
        forall|k: int| i <= k < j ==> es[k] != x,
    ensures
        spec_find_from(es, x, i) == Some(j),
    decreases j - i,
{
    if i < j {
        lemma_find_first(es, x, i + 1, j);
    }
}

/// Whether the indices that an entry holds, of the kinds the builder looks up, are below `n`.
pub open spec fn spec_entry_refs_below(e: SpecConstantEntry, n: int) -> bool {
    match e {
        SpecConstantEntry::Class(u) => u < n,
        SpecConstantEntry::String(u) => u < n,
        SpecConstantEntry::NameAndType(t) => t.name_index < n && t.descriptor_index < n,
        SpecConstantEntry::MethodRef(r) => r.class_index < n && r.name_and_type_index < n,
        SpecConstantEntry::FieldRef(r) => r.class_index < n && r.name_and_type_index < n,
        _ => true,
    }
}

/// Whether every index that an entry of `es` holds is a slot of `es`.
pub open spec fn spec_refs_in_range(es: Seq<SpecConstantEntry>) -> bool {
    forall|i: int| 0 <= i < es.len() ==> spec_entry_refs_below(#[trigger] es[i], es.len() as int)
}

/// Adding a text keeps every index in range.
pub proof fn lemma_add_utf8_in_range(es: Seq<SpecConstantEntry>, s: Seq<char>)
    requires
        spec_refs_in_range(es),
    ensures
        spec_refs_in_range(spec_add_utf8(es, s).0),
{
    let es2 = spec_add_utf8(es, s).0;
    assert forall|i: int| 0 <= i < es2.len() implies spec_entry_refs_below(#[trigger] es2[i], es2.len() as int) by {
        if i < es.len() {
            assert(es2[i] == es[i]);
            assert(spec_entry_refs_below(es[i], es.len() as int));
        }
    }
}

/// Adding a `Class` (or `String`) entry to a pool whose indices are in range keeps them
/// in range, and adding it again changes nothing and returns the same index.
pub proof fn lemma_add_named_idempotent(es: Seq<SpecConstantEntry>, string: bool, s: Seq<char>)
    requires
        es.len() + 2 <= 0x10000,
        spec_refs_in_range(es),
    ensures
        ({
            let (es2, c) = spec_add_named(es, string, s);
            &&& spec_refs_in_range(es2)
            &&& spec_add_named(es2, string, s) == (es2, c)
        }),
{
    let found = if string { spec_find_string(es, s) } else { spec_find_class(es, s) };
    if found is None {
        let c = es.len() as int;
        let e1 = es.push(SpecConstantEntry::Unused);
        assert(spec_refs_in_range(e1)) by {
            assert forall|i: int| 0 <= i < e1.len() implies spec_entry_refs_below(#[trigger] e1[i], e1.len() as int) by {
                if i < es.len() {
                    assert(e1[i] == es[i]);
                    assert(spec_entry_refs_below(es[i], es.len() as int));
                }
            }
        }
        lemma_add_utf8_law(e1, s);
        lemma_add_utf8_in_range(e1, s);
        let (es2p, u) = spec_add_utf8(e1, s);
        let e = if string { SpecConstantEntry::String(u as u16) } else { SpecConstantEntry::Class(u as u16) };
        let es2 = es2p.update(c, e);
        assert(es2p[c] == e1[c]);
        assert(spec_refs_in_range(es2)) by {
            assert forall|i: int| 0 <= i < es2.len() implies spec_entry_refs_below(#[trigger] es2[i], es2.len() as int) by {
                if i != c {
                    assert(es2[i] == es2p[i]);
                    assert(spec_entry_refs_below(es2p[i], es2p.len() as int));
                }
            }
        }
        let x = SpecConstantEntry::Utf8(s);
        lemma_find(es, x);
        lemma_find(es2p, x);
        if let Some(j) = spec_find(es2p, x) {
            assert forall|k: int| 0 <= k < j implies es2[k] != x by {
                lemma_find_from_none_before(es2p, x, j);
                assert(es2[k] == es2p[k] || k == c);
            }
            lemma_find_first(es2, x, 0, j);
        }
        assert(spec_find(es2, x) == Some(u));
        assert(e1.subrange(0, es.len() as int) =~= es);
        lemma_find_extend(es, e1, x, 0);
        match spec_find(es, x) {
            Some(u0) => {
                assert(u == u0);
                assert(spec_find(es, e) is None);
                lemma_find_from_none(es, e, 0);
            },
            None => {
                assert(spec_find_from(e1, x, e1.len() as int) is None);
                assert(spec_find_from(e1, x, es.len() as int) is None);
                assert(u == e1.len());
            },
        }
        assert forall|k: int| 0 <= k < c implies es2[k] != e by {
            assert(es2[k] == es[k]);
            assert(spec_entry_refs_below(es[k], es.len() as int));
        }
        lemma_find_first(es2, e, 0, c);
    }
}

/// Before the first entry equal to `x`, no entry equals `x`.
proof fn lemma_find_from_none_before(es: Seq<SpecConstantEntry>, x: SpecConstantEntry, j: int)
    requires
        spec_find(es, x) == Some(j),
    ensures
        forall|k: int| 0 <= k < j ==> es[k] != x,
{
    lemma_find_prefix(es, x, 0, j);
}

proof fn lemma_find_prefix(es: Seq<SpecConstantEntry>, x: SpecConstantEntry, i: int, j: int)
    requires
        0 <= i,
        spec_find_from(es, x, i) == Some(j),
    ensures
        forall|k: int| i <= k < j ==> es[k] != x,
    decreases es.len() - i,
{
    lemma_find_from(es, x, i);
    if i < j {
        lemma_find_prefix(es, x, i + 1, j);
    }
}

/// Replacing slot `k` by `v` leaves the first entry equal to `x` where neither the old
/// nor the new entry there equals `x`.
proof fn lemma_find_from_update(es: Seq<SpecConstantEntry>, k: int, v: SpecConstantEntry, x: SpecConstantEntry, i: int)
    requires
        0 <= i,
        0 <= k < es.len(),
        es[k] != x,
        v != x,
    ensures
        spec_find_from(es.update(k, v), x, i) == spec_find_from(es, x, i),
    decreases es.len() - i,
{
    if i < es.len() {
        assert(es.update(k, v)[i] == x <==> es[i] == x);
        lemma_find_from_update(es, k, v, x, i + 1);
    }
}

/// Nothing is found from `i` on where no entry from `i` on equals `x`.
proof fn lemma_find_absent(es: Seq<SpecConstantEntry>, x: SpecConstantEntry, i: int)
    requires
        0 <= i,
        forall|k: int| i <= k < es.len() ==> es[k] != x,
    ensures
        spec_find_from(es, x, i) is None,
    decreases es.len() - i,
{
    if i < es.len() {
        lemma_find_absent(es, x, i + 1);
    }
}

/// What is first found in `es2` before the end of `es`, which it starts with, is first
/// found in `es` too.
proof fn lemma_find_in_prefix(es: Seq<SpecConstantEntry>, es2: Seq<SpecConstantEntry>, x: SpecConstantEntry)
    requires
        spec_extends(es2, es),
        spec_find(es2, x) matches Some(j) && j < es.len(),
    ensures
        spec_find(es, x) == spec_find(es2, x),
{
    lemma_find_extend(es, es2, x, 0);
    if spec_find(es, x) is None {
        lemma_find_from(es2, x, es.len() as int);
    }
}

/// Empty slots appended to `es` change no lookup of anything but `Unused`.
proof fn lemma_find_unused_tail(es: Seq<SpecConstantEntry>, es2: Seq<SpecConstantEntry>, x: SpecConstantEntry)
    requires
        spec_extends(es2, es),
        !(x is Unused),
        forall|k: int| es.len() <= k < es2.len() ==> es2[k] is Unused,
    ensures
        spec_find(es2, x) == spec_find(es, x),
{
    lemma_find_extend(es, es2, x, 0);
    if spec_find(es, x) is None {
        lemma_find_absent(es2, x, es.len() as int);
    }
}

/// Starting with is transitive.
proof fn lemma_extends_trans(a: Seq<SpecConstantEntry>, b: Seq<SpecConstantEntry>, c: Seq<SpecConstantEntry>)
    requires
        spec_extends(b, a),
        spec_extends(c, b),
    ensures
        spec_extends(c, a),
{
    assert forall|k: int| 0 <= k < a.len() implies c[k] == a[k] by {
        assert(b.subrange(0, a.len() as int)[k] == b[k]);
        assert(c.subrange(0, b.len() as int)[k] == c[k]);
    }
    assert(c.subrange(0, a.len() as int) =~= a);
}

/// An appended empty slot keeps every index in range.
proof fn lemma_in_range_push_unused(es: Seq<SpecConstantEntry>)
    requires
        spec_refs_in_range(es),
    ensures
        spec_refs_in_range(es.push(SpecConstantEntry::Unused)),
{
    let e1 = es.push(SpecConstantEntry::Unused);
    assert forall|i: int| 0 <= i < e1.len() implies spec_entry_refs_below(#[trigger] e1[i], e1.len() as int) by {
        if i < es.len() {
            assert(e1[i] == es[i]);
            assert(spec_entry_refs_below(es[i], es.len() as int));
        }
    }
}

/// A slot replaced by an entry whose indices are in range keeps every index in range.
proof fn lemma_in_range_update(es: Seq<SpecConstantEntry>, k: int, v: SpecConstantEntry)
    requires
        spec_refs_in_range(es),
        0 <= k < es.len(),
        spec_entry_refs_below(v, es.len() as int),
    ensures
        spec_refs_in_range(es.update(k, v)),
{
    let e1 = es.update(k, v);
    assert forall|i: int| 0 <= i < e1.len() implies spec_entry_refs_below(#[trigger] e1[i], e1.len() as int) by {
        if i != k {
            assert(e1[i] == es[i]);
            assert(spec_entry_refs_below(es[i], es.len() as int));
        }
    }
}

/// The first entries holding the three texts of a new reference are those that
/// [`spec_add_ref`] found or added.
proof fn lemma_ref_texts_first(e3: Seq<SpecConstantEntry>, class: Seq<char>, name: Seq<char>, descriptor: Seq<char>)
    ensures
        ({
            let (e4, cn) = spec_add_utf8(e3, class);
            let (e5, nn) = spec_add_utf8(e4, name);
            let (e6, dn) = spec_add_utf8(e5, descriptor);
            &&& spec_find(e6, SpecConstantEntry::Utf8(class)) == Some(cn)
            &&& spec_find(e6, SpecConstantEntry::Utf8(name)) == Some(nn)
            &&& spec_find(e6, SpecConstantEntry::Utf8(descriptor)) == Some(dn)
        }),
{
    lemma_add_utf8_law(e3, class);
    let (e4, cn) = spec_add_utf8(e3, class);
    lemma_add_utf8_law(e4, name);
    let (e5, nn) = spec_add_utf8(e4, name);
    lemma_add_utf8_law(e5, descriptor);
    let (e6, dn) = spec_add_utf8(e5, descriptor);
    assert(e4.push(SpecConstantEntry::Utf8(class)).len() != e4.len());
    assert(e5.push(SpecConstantEntry::Utf8(name)).len() != e5.len());
    assert(e6.push(SpecConstantEntry::Utf8(descriptor)).len() != e6.len());
    assert(spec_find(e4, SpecConstantEntry::Utf8(class)) == Some(cn));
    assert(spec_find(e5, SpecConstantEntry::Utf8(name)) == Some(nn));
    lemma_extends_trans(e4, e5, e6);
    lemma_find_extend(e4, e6, SpecConstantEntry::Utf8(class), 0);
    lemma_find_extend(e5, e6, SpecConstantEntry::Utf8(name), 0);
}

/// Filling the slots of a new reference leaves every lookup of something that the fills
/// do not put there.
proof fn lemma_ref_fills_keep(
    e6: Seq<SpecConstantEntry>,
    method: bool,
    r: int,
    ci: int,
    ni: int,
    cn: int,
    nn: int,
    dn: int,
    x: SpecConstantEntry,
)
    requires
        0 <= r < e6.len(),
        0 <= ci < e6.len(),
        0 <= ni < e6.len(),
        r != ci && r != ni && ci != ni,
        e6[r] is Unused,
        !(x is Unused),
        e6[ci] is Unused ==> x != SpecConstantEntry::Class(cn as u16),
        e6[ni] is Unused ==> x != SpecConstantEntry::NameAndType(
            NameAndType { name_index: nn as u16, descriptor_index: dn as u16 },
        ),
        x != spec_ref_entry(method, ci, ni),
    ensures
        spec_find(
            spec_fill_nat(spec_fill_class(e6, ci, cn), ni, nn, dn).update(r, spec_ref_entry(method, ci, ni)),
            x,
        ) == spec_find(e6, x),
{
    let e7 = spec_fill_class(e6, ci, cn);
    if e6[ci] is Unused {
        lemma_find_from_update(e6, ci, SpecConstantEntry::Class(cn as u16), x, 0);
    }
    assert(e7[ni] == e6[ni] && e7[r] == e6[r]);
    let e8 = spec_fill_nat(e7, ni, nn, dn);
    if e7[ni] is Unused {
        lemma_find_from_update(
            e7,
            ni,
            SpecConstantEntry::NameAndType(NameAndType { name_index: nn as u16, descriptor_index: dn as u16 }),
            x,
            0,
        );
    }
    assert(e8[r] == e6[r]);
    lemma_find_from_update(e8, r, spec_ref_entry(method, ci, ni), x, 0);
}

/// Adding a `Methodref` (or `Fieldref`) to a pool whose indices are in range keeps them in
/// range, and adding it again changes nothing and returns the same index.
pub proof fn lemma_add_ref_idempotent(
    es: Seq<SpecConstantEntry>,
    method: bool,
    class: Seq<char>,
    name: Seq<char>,
    descriptor: Seq<char>,
)
    requires
        es.len() + 6 <= 0x10000,
        spec_refs_in_range(es),
    ensures
        ({
            let (es2, r) = spec_add_ref(es, method, class, name, descriptor);
            &&& spec_refs_in_range(es2)
            &&& spec_add_ref(es2, method, class, name, descriptor) == (es2, r)
        }),
{
    if spec_find_ref(es, method, class, name, descriptor) is None {
        let r = es.len() as int;
        let e1 = es.push(SpecConstantEntry::Unused);
        let (e2, ci) = spec_reserve_class(e1, class);
        let (e3, ni) = spec_reserve_nat(e2, name, descriptor);
        let (e4, cn) = spec_add_utf8(e3, class);
        let (e5, nn) = spec_add_utf8(e4, name);
        let (e6, dn) = spec_add_utf8(e5, descriptor);
        let ref_e = spec_ref_entry(method, ci, ni);
        let e7 = spec_fill_class(e6, ci, cn);
        let e8 = spec_fill_nat(e7, ni, nn, dn);
        let es2 = e8.update(r, ref_e);
        let cls = SpecConstantEntry::Class(cn as u16);
        let natx = SpecConstantEntry::NameAndType(NameAndType { name_index: nn as u16, descriptor_index: dn as u16 });
        assert(spec_add_ref(es, method, class, name, descriptor) == (es2, r));
        lemma_add_ref_law(es, method, class, name, descriptor);
        lemma_ref_reserve(es, class, name, descriptor);
        lemma_ref_texts(e3, class, name, descriptor);
        lemma_ref_texts_first(e3, class, name, descriptor);
        // The reservations append empty slots only.
        assert(spec_extends(e1, es) && spec_extends(e2, e1) && spec_extends(e3, e2)) by {
            assert(e1.subrange(0, es.len() as int) =~= es);
            assert(e2.subrange(0, e1.len() as int) =~= e1);
            assert(e3.subrange(0, e2.len() as int) =~= e2);
        }
        lemma_extends_trans(es, e1, e2);
        lemma_extends_trans(e1, e2, e3);
        lemma_extends_trans(e1, e3, e6);
        lemma_extends_trans(e2, e3, e6);
        lemma_extends_trans(es, e3, e6);
        assert(forall|k: int| es.len() <= k < e1.len() ==> e1[k] is Unused);
        assert(forall|k: int| es.len() <= k < e2.len() ==> e2[k] is Unused);
        assert(e6[ci] == e3[ci] && e6[ni] == e3[ni] && e6[r] == e3[r]) by {
            assert(e6.subrange(0, e3.len() as int)[ci] == e6[ci]);
            assert(e6.subrange(0, e3.len() as int)[ni] == e6[ni]);
            assert(e6.subrange(0, e3.len() as int)[r] == e6[r]);
        }
        assert(e6.len() <= 0x10000);
        assert(r != ci && r != ni);
        // The texts are looked up where they were found or added.
        lemma_ref_fills_keep(e6, method, r, ci, ni, cn, nn, dn, SpecConstantEntry::Utf8(class));
        lemma_ref_fills_keep(e6, method, r, ci, ni, cn, nn, dn, SpecConstantEntry::Utf8(name));
        lemma_ref_fills_keep(e6, method, r, ci, ni, cn, nn, dn, SpecConstantEntry::Utf8(descriptor));
        // The class is looked up at `ci`.
        assert(spec_find(es2, cls) == Some(ci)) by {
            let u = SpecConstantEntry::Utf8(class);
            if spec_find_class(e1, class) is Some {
                let u0 = spec_find(e1, u)->0;
                lemma_find_extend(e1, e6, u, 0);
                lemma_find_extend(e1, e6, SpecConstantEntry::Class(u0 as u16), 0);
                lemma_find(e1, SpecConstantEntry::Class(u0 as u16));
                assert(e6[ci] == e1[ci]) by {
                    assert(e6.subrange(0, e1.len() as int)[ci] == e6[ci]);
                }
                lemma_ref_fills_keep(e6, method, r, ci, ni, cn, nn, dn, cls);
            } else {
                assert(es2[ci] == cls);
                assert forall|k: int| 0 <= k < ci implies es2[k] != cls by {
                    if k < r {
                        assert(es2[k] == es[k]) by {
                            assert(es2.subrange(0, es.len() as int)[k] == es2[k]);
                        }
                        if cn < es.len() {
                            lemma_find_in_prefix(es, e6, u);
                            lemma_find_unused_tail(es, e1, u);
                            lemma_find_unused_tail(es, e1, cls);
                            lemma_find_from_none(es, cls, 0);
                        } else {
                            assert(spec_entry_refs_below(es[k], es.len() as int));
                        }
                    }
                }
                lemma_find_first(es2, cls, 0, ci);
            }
        }
        // The name and type is looked up at `ni`.
        assert(spec_find(es2, natx) == Some(ni)) by {
            let un = SpecConstantEntry::Utf8(name);
            let ud = SpecConstantEntry::Utf8(descriptor);
            if spec_find_nat(e2, name, descriptor) is Some {
                let a = spec_find(e2, un)->0;
                let b = spec_find(e2, ud)->0;
                let n0 = SpecConstantEntry::NameAndType(NameAndType { name_index: a as u16, descriptor_index: b as u16 });
                lemma_find_extend(e2, e6, un, 0);
                lemma_find_extend(e2, e6, ud, 0);
                lemma_find_extend(e2, e6, n0, 0);
                lemma_find(e2, n0);
                assert(e6[ni] == e2[ni]) by {
                    assert(e6.subrange(0, e2.len() as int)[ni] == e6[ni]);
                }
                lemma_ref_fills_keep(e6, method, r, ci, ni, cn, nn, dn, natx);
            } else {
                assert(es2[ni] == natx);
                assert forall|k: int| 0 <= k < ni implies es2[k] != natx by {
                    if k < r {
                        assert(es2[k] == es[k]) by {
                            assert(es2.subrange(0, es.len() as int)[k] == es2[k]);
                        }
                        if nn < es.len() && dn < es.len() {
                            lemma_find_in_prefix(es, e6, un);
                            lemma_find_in_prefix(es, e6, ud);
                            lemma_find_unused_tail(es, e2, un);
                            lemma_find_unused_tail(es, e2, ud);
                            lemma_find_unused_tail(es, e2, natx);
                            lemma_find_from_none(es, natx, 0);
                        } else {
                            assert(spec_entry_refs_below(es[k], es.len() as int));
                        }
                    }
                }
                lemma_find_first(es2, natx, 0, ni);
            }
        }
        // The reference is looked up at `r`.
        assert(spec_find(es2, ref_e) == Some(r)) by {
            assert forall|k: int| 0 <= k < r implies es2[k] != ref_e by {
                assert(es2[k] == es[k]) by {
                    assert(es2.subrange(0, es.len() as int)[k] == es2[k]);
                }
                if ci < es.len() && ni < es.len() {
                    let u = SpecConstantEntry::Utf8(class);
                    let un = SpecConstantEntry::Utf8(name);
                    let ud = SpecConstantEntry::Utf8(descriptor);
                    lemma_find_unused_tail(es, e1, u);
                    let u0 = spec_find(e1, u)->0;
                    lemma_find_unused_tail(es, e1, SpecConstantEntry::Class(u0 as u16));
                    lemma_find_unused_tail(es, e2, un);
                    lemma_find_unused_tail(es, e2, ud);
                    let a = spec_find(e2, un)->0;
                    let b = spec_find(e2, ud)->0;
                    lemma_find_unused_tail(
                        es,
                        e2,
                        SpecConstantEntry::NameAndType(NameAndType { name_index: a as u16, descriptor_index: b as u16 }),
                    );
                    lemma_find_from_none(es, ref_e, 0);
                } else {
                    assert(spec_entry_refs_below(es[k], es.len() as int));
                }
            }
            assert(es2[r] == ref_e);
            lemma_find_first(es2, ref_e, 0, r);
        }
        assert(spec_find_ref(es2, method, class, name, descriptor) == Some(r));
        // Every index stays in range.
        lemma_in_range_push_unused(es);
        lemma_in_range_push_unused(e1);
        lemma_in_range_push_unused(e2);
        assert(spec_refs_in_range(e3));
        lemma_add_utf8_in_range(e3, class);
        lemma_add_utf8_in_range(e4, name);
        lemma_add_utf8_in_range(e5, descriptor);
        if e6[ci] is Unused {
            lemma_in_range_update(e6, ci, cls);
        }
        if e7[ni] is Unused {
            lemma_in_range_update(e7, ni, natx);
        }
        lemma_in_range_update(e8, r, ref_e);
    }
}

/// An appended entry whose indices are in range keeps every index in range.
proof fn lemma_in_range_push(es: Seq<SpecConstantEntry>, v: SpecConstantEntry)
    requires
        spec_refs_in_range(es),
        spec_entry_refs_below(v, es.len() as int),
    ensures
        spec_refs_in_range(es.push(v)),
{
    let e1 = es.push(v);
    assert forall|i: int| 0 <= i < e1.len() implies spec_entry_refs_below(#[trigger] e1[i], e1.len() as int) by {
        if i < es.len() {
            assert(e1[i] == es[i]);
            assert(spec_entry_refs_below(es[i], es.len() as int));
        }
    }
}

/// Whether an entry's indices name entries of the kinds it refers to: a `Class` or
/// `String` names a `Utf8` entry, a `NameAndType` two, and a `Methodref` or `Fieldref` a
/// `Class` and a `NameAndType` entry.
pub open spec fn spec_entry_resolves(es: Seq<SpecConstantEntry>, e: SpecConstantEntry) -> bool {
    match e {
        SpecConstantEntry::Class(u) => u < es.len() && es[u as int] is Utf8,
        SpecConstantEntry::String(u) => u < es.len() && es[u as int] is Utf8,
        SpecConstantEntry::NameAndType(t) => t.name_index < es.len() && es[t.name_index as int] is Utf8
            && t.descriptor_index < es.len() && es[t.descriptor_index as int] is Utf8,
        SpecConstantEntry::MethodRef(r) => r.class_index < es.len() && es[r.class_index as int] is Class
            && r.name_and_type_index < es.len() && es[r.name_and_type_index as int] is NameAndType,
        SpecConstantEntry::FieldRef(r) => r.class_index < es.len() && es[r.class_index as int] is Class
            && r.name_and_type_index < es.len() && es[r.name_and_type_index as int] is NameAndType,
        _ => true,
    }
}

/// Whether `es` is a pool as the builder makes it: slot 0 and no other holds `Unused`,
/// no two entries are equal, and every entry resolves to entries of the right kinds.
pub open spec fn spec_builder_pool(es: Seq<SpecConstantEntry>) -> bool {
    &&& es.len() >= 1
    &&& es[0] is Unused
    &&& forall|i: int| 1 <= i < es.len() ==> !(#[trigger] es[i] is Unused)
    &&& forall|i: int, j: int| 0 <= i < j < es.len() ==> #[trigger] es[i] != #[trigger] es[j]
    &&& forall|i: int| 0 <= i < es.len() ==> spec_entry_resolves(es, #[trigger] es[i])
}

/// The empty pool of a new builder is a builder pool.
pub proof fn lemma_new_builder_pool()
    ensures
        spec_builder_pool(seq![SpecConstantEntry::Unused]),
{
}

/// A builder pool's indices are in range.
proof fn lemma_pool_in_range(es: Seq<SpecConstantEntry>)
    requires
        spec_builder_pool(es),
    ensures
        spec_refs_in_range(es),
{
    assert forall|i: int| 0 <= i < es.len() implies spec_entry_refs_below(#[trigger] es[i], es.len() as int) by {
        assert(spec_entry_resolves(es, es[i]));
    }
}

/// A builder pool extended by entries that are not `Unused`, resolve, and are each found
/// first where they stand, is a builder pool.
proof fn lemma_pool_extend(es: Seq<SpecConstantEntry>, es2: Seq<SpecConstantEntry>)
    requires
        spec_builder_pool(es),
        spec_extends(es2, es),
        forall|j: int|
            es.len() <= j < es2.len() ==> {
                &&& !(#[trigger] es2[j] is Unused)
                &&& spec_find(es2, es2[j]) == Some(j)
                &&& spec_entry_resolves(es2, es2[j])
            },
    ensures
        spec_builder_pool(es2),
{
    assert forall|k: int| 0 <= k < es.len() implies es2[k] == es[k] by {
        assert(es2.subrange(0, es.len() as int)[k] == es2[k]);
    }
    assert forall|i: int| 1 <= i < es2.len() implies !(#[trigger] es2[i] is Unused) by {
        if i < es.len() {
            assert(es2[i] == es[i]);
        }
    }
    assert forall|i: int, j: int| 0 <= i < j < es2.len() implies #[trigger] es2[i] != #[trigger] es2[j] by {
        if j < es.len() {
            assert(es2[i] == es[i] && es2[j] == es[j]);
        } else {
            lemma_find_from_none_before(es2, es2[j], j);
        }
    }
    assert forall|i: int| 0 <= i < es2.len() implies spec_entry_resolves(es2, #[trigger] es2[i]) by {
        if i < es.len() {
            assert(es2[i] == es[i]);
            assert(spec_entry_resolves(es, es[i]));
        }
    }
}

/// Adding a text to a builder pool leaves a builder pool.
pub proof fn lemma_add_utf8_keeps_pool(es: Seq<SpecConstantEntry>, s: Seq<char>)
    requires
        spec_builder_pool(es),
    ensures
        spec_builder_pool(spec_add_utf8(es, s).0),
{
    let (es2, i) = spec_add_utf8(es, s);
    lemma_add_utf8_law(es, s);
    assert(es2.push(SpecConstantEntry::Utf8(s)).len() != es2.len());
    assert(spec_find(es2, SpecConstantEntry::Utf8(s)) == Some(i));
    if es2.len() > es.len() {
        lemma_pool_extend(es, es2);
    } else {
        assert(es2 == es);
    }
}

/// Adding a `Class` (or `String`) entry to a builder pool leaves a builder pool.
pub proof fn lemma_add_named_keeps_pool(es: Seq<SpecConstantEntry>, string: bool, s: Seq<char>)
    requires
        spec_builder_pool(es),
        es.len() + 2 <= 0x10000,
    ensures
        spec_builder_pool(spec_add_named(es, string, s).0),
{
    lemma_pool_in_range(es);
    let found = if string { spec_find_string(es, s) } else { spec_find_class(es, s) };
    if found is None {
        let c = es.len() as int;
        let x = SpecConstantEntry::Utf8(s);
        let e1 = es.push(SpecConstantEntry::Unused);
        lemma_add_utf8_law(e1, s);
        let (e2p, u) = spec_add_utf8(e1, s);
        let e = if string { SpecConstantEntry::String(u as u16) } else { SpecConstantEntry::Class(u as u16) };
        let es2 = e2p.update(c, e);
        assert(spec_add_named(es, string, s) == (es2, c));
        lemma_add_named_idempotent(es, string, s);
        lemma_add_named_law(es, string, s);
        assert(e2p.push(x).len() != e2p.len());
        assert(spec_find(e2p, x) == Some(u));
        assert(e2p[c] == e1[c]);
        lemma_find_from_update(e2p, c, e, x, 0);
        // The first text `s` and the first entry naming it are where they were added.
        let u1 = spec_find(es2, x)->0;
        let e0 = if string { SpecConstantEntry::String(u1 as u16) } else { SpecConstantEntry::Class(u1 as u16) };
        lemma_find(es2, e0);
        assert(es2[c] == e0);
        assert(spec_find(es2, es2[c]) == Some(c));
        assert forall|j: int|
            es.len() <= j < es2.len() implies {
                &&& !(#[trigger] es2[j] is Unused)
                &&& spec_find(es2, es2[j]) == Some(j)
                &&& spec_entry_resolves(es2, es2[j])
            } by {
            if j != c {
                assert(es2[j] == e2p[j]);
                assert(j == e1.len() && e2p.len() > e1.len());
                assert(u == j);
            }
        }
        lemma_pool_extend(es, es2);
    }
}

/// Whether every slot of `e` from the end of `base` on holds a text that is found first
/// where it stands.
pub open spec fn spec_utf8_tail(base: Seq<SpecConstantEntry>, e: Seq<SpecConstantEntry>) -> bool {
    forall|j: int|
        base.len() <= j < e.len() ==> (#[trigger] e[j] is Utf8 && spec_find(e, e[j]) == Some(j))
}

/// Adding a text keeps the texts added after `base` found first where they stand.
proof fn lemma_utf8_tail_add(base: Seq<SpecConstantEntry>, e: Seq<SpecConstantEntry>, s: Seq<char>)
    requires
        base.len() <= e.len(),
        spec_utf8_tail(base, e),
    ensures
        spec_utf8_tail(base, spec_add_utf8(e, s).0),
{
    let x = SpecConstantEntry::Utf8(s);
    let e2 = spec_add_utf8(e, s).0;
    lemma_add_utf8_law(e, s);
    assert forall|j: int| base.len() <= j < e2.len() implies (#[trigger] e2[j] is Utf8 && spec_find(e2, e2[j]) == Some(j)) by {
        if j < e.len() {
            assert(e2[j] == e[j]) by {
                assert(e2.subrange(0, e.len() as int)[j] == e2[j]);
            }
            lemma_find_extend(e, e2, e[j], 0);
        } else {
            lemma_find_extend(e, e2, x, 0);
            assert(e2[e.len() as int] == x);
        }
    }
}

/// Adding a `Methodref` (or `Fieldref`) to a builder pool leaves a builder pool.
#[verifier::rlimit(60)]
#[verifier::spinoff_prover]
pub proof fn lemma_add_ref_keeps_pool(
    es: Seq<SpecConstantEntry>,
    method: bool,
    class: Seq<char>,
    name: Seq<char>,
    descriptor: Seq<char>,
)
    requires
        spec_builder_pool(es),
        es.len() + 6 <= 0x10000,
    ensures
        spec_builder_pool(spec_add_ref(es, method, class, name, descriptor).0),
{
    lemma_pool_in_range(es);
    if spec_find_ref(es, method, class, name, descriptor) is None {
        let r = es.len() as int;
        let e1 = es.push(SpecConstantEntry::Unused);
        let (e2, ci) = spec_reserve_class(e1, class);
        let (e3, ni) = spec_reserve_nat(e2, name, descriptor);
        let (e4, cn) = spec_add_utf8(e3, class);
        let (e5, nn) = spec_add_utf8(e4, name);
        let (e6, dn) = spec_add_utf8(e5, descriptor);
        let ref_e = spec_ref_entry(method, ci, ni);
        let e7 = spec_fill_class(e6, ci, cn);
        let e8 = spec_fill_nat(e7, ni, nn, dn);
        let es2 = e8.update(r, ref_e);
        assert(spec_add_ref(es, method, class, name, descriptor) == (es2, r));
        lemma_add_ref_law(es, method, class, name, descriptor);
        lemma_add_ref_idempotent(es, method, class, name, descriptor);
        lemma_ref_reserve(es, class, name, descriptor);
        lemma_ref_texts(e3, class, name, descriptor);
        assert(e6[ci] == e3[ci] && e6[ni] == e3[ni] && e6[r] == e3[r]) by {
            assert(e6.subrange(0, e3.len() as int)[ci] == e6[ci]);
            assert(e6.subrange(0, e3.len() as int)[ni] == e6[ni]);
            assert(e6.subrange(0, e3.len() as int)[r] == e6[r]);
        }
        assert(r != ci && r != ni);
        // Found again: the reference, its class and its name and type.
        assert(spec_find_ref(es2, method, class, name, descriptor) == Some(r));
        let u1 = spec_find(es2, SpecConstantEntry::Utf8(class))->0;
        let c0 = SpecConstantEntry::Class(u1 as u16);
        let a = spec_find(es2, SpecConstantEntry::Utf8(name))->0;
        let b = spec_find(es2, SpecConstantEntry::Utf8(descriptor))->0;
        let n0 = SpecConstantEntry::NameAndType(NameAndType { name_index: a as u16, descriptor_index: b as u16 });
        let c1 = spec_find(es2, c0)->0;
        let n1 = spec_find(es2, n0)->0;
        lemma_find(es2, c0);
        lemma_find(es2, n0);
        lemma_find(es2, spec_ref_entry(method, c1, n1));
        assert(es2.len() <= 0x10000);
        assert(es2[r] == ref_e);
        assert(0 <= c1 < 0x10000 && 0 <= n1 < 0x10000 && 0 <= ci < 0x10000 && 0 <= ni < 0x10000);
        assert((c1 as u16) as int == c1 && (ci as u16) as int == ci);
        assert((n1 as u16) as int == n1 && (ni as u16) as int == ni);
        assert(c1 == ci && n1 == ni);
        lemma_find(es2, SpecConstantEntry::Utf8(class));
        lemma_find(es2, SpecConstantEntry::Utf8(name));
        lemma_find(es2, SpecConstantEntry::Utf8(descriptor));
        // The texts added after the reservations are found first where they stand.
        assert(spec_utf8_tail(e3, e3));
        lemma_utf8_tail_add(e3, e3, class);
        lemma_utf8_tail_add(e3, e4, name);
        lemma_utf8_tail_add(e3, e5, descriptor);
        assert forall|j: int|
            es.len() <= j < es2.len() implies {
                &&& !(#[trigger] es2[j] is Unused)
                &&& spec_find(es2, es2[j]) == Some(j)
                &&& spec_entry_resolves(es2, es2[j])
            } by {
            if j == r {
            } else if j == ci {
            } else if j == ni {
            } else {
                assert(j >= e3.len());
                assert(es2[j] == e6[j]);
                lemma_ref_fills_keep(e6, method, r, ci, ni, cn, nn, dn, e6[j]);
            }
        }
        lemma_pool_extend(es, es2);
    }
}

} // verus!
