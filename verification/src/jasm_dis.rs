//! Constants and instructions in the text of a class assembler: an entry by the texts
//! that it refers to, down to its `Utf8` entries.

use crate::bytecode::instruction::{Instruction, SpecInstruction, spec_instruction_name};
use crate::class_file::ClassFile;
use crate::constant_pool::pool::{lookup_matches, spec_get_raw};
use crate::constant_pool::{ConstantEntry, ConstantPool, SpecConstantEntry};
use crate::error::ClassFormatErr;
use crate::javap_fmt::lines::{SpecText, text_is};
use vstd::prelude::*;

verus! {

/// Two parts of an entry's text joined by a space; the first failure wins, and an entry
/// whose text is not defined makes the whole undefined.
pub open spec fn spec_jasm_pair(a: Option<SpecText>, b: Option<SpecText>) -> Option<SpecText> {
    match a {
        None => None,
        Some(Err(e)) => Some(Err(e)),
        Some(Ok(x)) => match b {
            None => None,
            Some(Err(e)) => Some(Err(e)),
            Some(Ok(y)) => Some(Ok(x + " "@ + y)),
        },
    }
}

/// The text of the entry at `idx`, looked up at most `fuel` entries deep.
pub open spec fn spec_jasm_at(cp: Seq<SpecConstantEntry>, idx: u16, fuel: nat) -> Option<SpecText>
    decreases fuel, 1nat,
{
    match spec_get_raw(cp, idx) {
        Err(e) => Some(Err(e)),
        Ok(e) => spec_jasm_text(cp, e, fuel),
    }
}

/// The text of an entry, looking up at most `fuel` entries deep: a `Utf8` entry is its
/// text, a class its name, a `String` its text in quotes, a name and type the name and
/// the descriptor, a field or method reference its class and its name and type. `None`
/// where the entry is of another kind, or the lookups go deeper than `fuel`.
pub open spec fn spec_jasm_text(cp: Seq<SpecConstantEntry>, e: SpecConstantEntry, fuel: nat) -> Option<SpecText>
    decreases fuel, 0nat,
{
    if fuel == 0 {
        None
    } else {
        let f = (fuel - 1) as nat;
        match e {
            SpecConstantEntry::Utf8(s) => Some(Ok(s)),
            SpecConstantEntry::Class(i) => spec_jasm_at(cp, i, f),
            SpecConstantEntry::NameAndType(n) => spec_jasm_pair(
                spec_jasm_at(cp, n.name_index, f),
                spec_jasm_at(cp, n.descriptor_index, f),
            ),
            SpecConstantEntry::MethodRef(r) => spec_jasm_pair(
                spec_jasm_at(cp, r.class_index, f),
                spec_jasm_at(cp, r.name_and_type_index, f),
            ),
            SpecConstantEntry::FieldRef(r) => spec_jasm_pair(
                spec_jasm_at(cp, r.class_index, f),
                spec_jasm_at(cp, r.name_and_type_index, f),
            ),
            SpecConstantEntry::String(i) => match spec_jasm_at(cp, i, f) {
                None => None,
                Some(Err(e)) => Some(Err(e)),
                Some(Ok(t)) => Some(Ok("\""@ + t + "\""@)),
            },
            _ => None,
        }
    }
}

impl ConstantPool {
    /// The entry at `idx`, or `ConstantNotFound` past the end of the pool.
    pub fn get_raw_entry(&self, idx: u16) -> (r: Result<&ConstantEntry, ClassFormatErr>)
        ensures
            lookup_matches(r, spec_get_raw(self@, idx)),
    {
        self.get_raw(&idx)
    }
}

/// The text of the entry at `idx`.
fn jasm_at(cp: &ConstantPool, idx: u16, fuel: usize) -> (r: Result<String, ClassFormatErr>)
    requires
        spec_jasm_at(cp@, idx, fuel as nat) is Some,
    ensures
        text_is(r, spec_jasm_at(cp@, idx, fuel as nat)->Some_0),
    decreases fuel, 1usize,
{
    let e = cp.get_raw_entry(idx)?;
    jasm_text(e, cp, fuel)
}

/// The text of `e`.
fn jasm_text(e: &ConstantEntry, cp: &ConstantPool, fuel: usize) -> (r: Result<String, ClassFormatErr>)
    requires
        spec_jasm_text(cp@, e@, fuel as nat) is Some,
    ensures
        text_is(r, spec_jasm_text(cp@, e@, fuel as nat)->Some_0),
    decreases fuel, 0usize,
{
    let f = fuel - 1;
    match e {
        ConstantEntry::Utf8(s) => Ok(s.as_str().to_string()),
        ConstantEntry::Class(i) => jasm_at(cp, *i, f),
        ConstantEntry::NameAndType(n) => {
            let a = jasm_at(cp, n.name_index, f)?;
            let b = jasm_at(cp, n.descriptor_index, f)?;
            let mut s = a;
            s.append(" ");
            s.append(b.as_str());
            Ok(s)
        },
        ConstantEntry::MethodRef(r) => {
            let a = jasm_at(cp, r.class_index, f)?;
            let b = jasm_at(cp, r.name_and_type_index, f)?;
            let mut s = a;
            s.append(" ");
            s.append(b.as_str());
            Ok(s)
        },
        ConstantEntry::FieldRef(r) => {
            let a = jasm_at(cp, r.class_index, f)?;
            let b = jasm_at(cp, r.name_and_type_index, f)?;
            let mut s = a;
            s.append(" ");
            s.append(b.as_str());
            Ok(s)
        },
        ConstantEntry::String(i) => {
            let t = jasm_at(cp, *i, f)?;
            let mut s = "\"".to_string();
            s.append(t.as_str());
            s.append("\"");
            Ok(s)
        },
        _ => Ok(String::new()),
    }
}

impl ConstantEntry {
    /// This entry as a class assembler writes it, by the texts it refers to. The kinds
    /// it writes are `Utf8`, classes, strings, names and types and field and method
    /// references, and the references must not loop.
    pub fn fmt_jasm(&self, cp: &ConstantPool) -> (r: Result<String, ClassFormatErr>)
        requires
            spec_jasm_text(cp@, self@, cp@.len()) is Some,
        ensures
            text_is(r, spec_jasm_text(cp@, self@, cp@.len())->Some_0),
    {
        jasm_text(self, cp, cp.inner.len())
    }
}

/// The constant pool index that an instruction refers to in assembler text, for the
/// instructions that are written with their constant.
pub open spec fn spec_jasm_operand(i: SpecInstruction) -> Option<u16> {
    match i {
        SpecInstruction::InvokeSpecial(idx) => Some(idx),
        SpecInstruction::InvokeVirtual(idx) => Some(idx),
        SpecInstruction::Getstatic(idx) => Some(idx),
        SpecInstruction::Ldc(idx) => Some(idx),
        _ => None,
    }
}

/// The line of an instruction in assembler text: its name, and for the instructions
/// that are written with their constant, the constant's text.
pub open spec fn spec_instruction_jasm(cp: Seq<SpecConstantEntry>, i: SpecInstruction) -> Option<SpecText> {
    match spec_jasm_operand(i) {
        None => Some(Ok(spec_instruction_name(i))),
        Some(idx) => match spec_jasm_at(cp, idx, cp.len()) {
            None => None,
            Some(Err(e)) => Some(Err(e)),
            Some(Ok(t)) => Some(Ok(spec_instruction_name(i) + " "@ + t)),
        },
    }
}

impl Instruction {
    /// The line of this instruction as a class assembler writes it.
    pub fn fmt_jasm(&self, cp: &ConstantPool) -> (r: Result<String, ClassFormatErr>)
        requires
            spec_instruction_jasm(cp@, self@) is Some,
        ensures
            text_is(r, spec_instruction_jasm(cp@, self@)->Some_0),
    {
        let idx = match self {
            Instruction::InvokeSpecial(idx) => *idx,
            Instruction::InvokeVirtual(idx) => *idx,
            Instruction::Getstatic(idx) => *idx,
            Instruction::Ldc(idx) => *idx,
            _ => {
                return Ok(self.get_name().to_string());
            },
        };
        let t = jasm_at(cp, idx, cp.inner.len())?;
        let mut s = self.get_name().to_string();
        s.append(" ");
        s.append(t.as_str());
        Ok(s)
    }
}

/// The `.super` line of a class: `.super` and the text of its superclass, or no line
/// for a class without one.
pub open spec fn spec_super_line(cp: Seq<SpecConstantEntry>, super_class: u16) -> Option<Result<Option<Seq<char>>, crate::error::SpecClassFormatErr>> {
    if super_class == 0 {
        Some(Ok(None))
    } else {
        match spec_jasm_at(cp, super_class, cp.len()) {
            None => None,
            Some(Err(e)) => Some(Err(e)),
            Some(Ok(t)) => Some(Ok(Some(".super "@ + t))),
        }
    }
}

impl ClassFile {
    /// The `.super` line of this class as a class assembler writes it, or `None` for a
    /// class without a superclass.
    pub fn fmt_super_class(&self) -> (r: Result<Option<String>, ClassFormatErr>)
        requires
            spec_super_line(self.cp@, self.super_class) is Some,
        ensures
            match spec_super_line(self.cp@, self.super_class)->Some_0 {
                Ok(None) => r == Ok::<Option<String>, ClassFormatErr>(None),
                Ok(Some(s)) => r matches Ok(Some(x)) && x@ == s,
                Err(e) => r matches Err(x) && x@ == e,
            },
    {
        if self.super_class == 0 {
            return Ok(None);
        }
        let t = jasm_at(&self.cp, self.super_class, self.cp.inner.len())?;
        let mut s = ".super ".to_string();
        s.append(t.as_str());
        Ok(Some(s))
    }
}

} // verus!
