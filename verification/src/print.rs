//! The line of an instruction in a code listing: its name, its operand and, for an
//! operand that is a constant pool index, a comment with what the constant is.

use crate::bytecode::instruction::{Instruction, SpecInstruction, spec_instruction_name};
use crate::constant_pool::pool::spec_get_raw;
use crate::constant_pool::{ConstantEntry, ConstantPool, SpecConstantEntry};
use crate::error::{ClassFormatErr, SpecClassFormatErr};
use crate::constant::spec_pretty_type_and_value;
use crate::javap_fmt::constant_pool::{
    constant_text, float_word, opt_views, spec_float_word, spec_has_javap_text, spec_is_float, spec_text_at,
};
use crate::javap_fmt::instruction::{
    get_instruction_value, instruction_is_position, spec_instruction_value, spec_is_position, spec_value_fits,
};
use crate::javap_fmt::lines::{SpecText, text_is};
use crate::text::{push_padded_right, spec_pad_right};
use vstd::prelude::*;

verus! {

/// The constant pool index that an instruction's comment describes, for the
/// instructions whose operand is one.
pub open spec fn spec_comment_index(i: SpecInstruction) -> Option<u16> {
    match i {
        SpecInstruction::Anewarray(v) => Some(v),
        SpecInstruction::Checkcast(v) => Some(v),
        SpecInstruction::Getfield(v) => Some(v),
        SpecInstruction::Getstatic(v) => Some(v),
        SpecInstruction::Instanceof(v) => Some(v),
        SpecInstruction::InvokeDynamic(v) => Some(v),
        SpecInstruction::InvokeInterface(v, _) => Some(v),
        SpecInstruction::InvokeSpecial(v) => Some(v),
        SpecInstruction::InvokeStatic(v) => Some(v),
        SpecInstruction::InvokeVirtual(v) => Some(v),
        SpecInstruction::Ldc(v) => Some(v),
        SpecInstruction::LdcW(v) => Some(v),
        SpecInstruction::Ldc2W(v) => Some(v),
        SpecInstruction::New(v) => Some(v),
        SpecInstruction::Putfield(v) => Some(v),
        SpecInstruction::Putstatic(v) => Some(v),
        _ => None,
    }
}

/// Whether the comment of an instruction can be made here: the constant it describes,
/// if the pool holds it, is one whose text is made here (not a floating-point one).
pub open spec fn spec_comment_shown(cp: Seq<SpecConstantEntry>, i: SpecInstruction) -> bool {
    spec_comment_index(i) matches Some(idx) ==> (spec_get_raw(cp, idx) matches Ok(e) ==> spec_has_javap_text(e))
}

/// The comment of an instruction: the kind and value of the constant its operand
/// names, `this` being the class being shown; `None` for an instruction whose operand
/// is no constant pool index.
pub open spec fn spec_instruction_comment(cp: Seq<SpecConstantEntry>, i: SpecInstruction, this: u16) -> Result<
    Option<Seq<char>>,
    SpecClassFormatErr,
> {
    match spec_comment_index(i) {
        None => Ok(None),
        Some(idx) => match spec_get_raw(cp, idx) {
            Err(e) => Err(e),
            Ok(e) => match spec_pretty_type_and_value(cp, e, this) {
                Err(e) => Err(e),
                Ok(s) => Ok(Some(s)),
            },
        },
    }
}

/// The comment of an instruction, as [`spec_instruction_comment`] gives it.
pub fn get_instruction_comment(instruction: &Instruction, cp: &ConstantPool, this: &u16) -> (r: Result<
    Option<String>,
    ClassFormatErr,
>)
    requires
        spec_comment_shown(cp@, instruction@),
    ensures
        match spec_instruction_comment(cp@, instruction@, *this) {
            Ok(None) => r == Ok::<Option<String>, ClassFormatErr>(None),
            Ok(Some(s)) => r matches Ok(Some(x)) && x@ == s,
            Err(e) => r matches Err(x) && x@ == e,
        },
{
    let idx = match instruction {
        Instruction::Anewarray(v) => *v,
        Instruction::Checkcast(v) => *v,
        Instruction::Getfield(v) => *v,
        Instruction::Getstatic(v) => *v,
        Instruction::Instanceof(v) => *v,
        Instruction::InvokeDynamic(v) => *v,
        Instruction::InvokeInterface(v, _) => *v,
        Instruction::InvokeSpecial(v) => *v,
        Instruction::InvokeStatic(v) => *v,
        Instruction::InvokeVirtual(v) => *v,
        Instruction::Ldc(v) => *v,
        Instruction::LdcW(v) => *v,
        Instruction::Ldc2W(v) => *v,
        Instruction::New(v) => *v,
        Instruction::Putfield(v) => *v,
        Instruction::Putstatic(v) => *v,
        _ => {
            return Ok(None);
        },
    };
    let constant = cp.get_raw(&idx)?;
    let s = constant.get_pretty_type_and_value(cp, this)?;
    Ok(Some(s))
}

/// The text of an instruction at `pc` with the comment `c`: its name padded to 13
/// columns and, where it has an operand, a space, `#` before a constant pool index, the
/// operand padded to 18 columns and, where there is one, the comment.
#[verifier::opaque]
pub open spec fn spec_instruction_text(i: SpecInstruction, pc: i32, c: Option<Seq<char>>) -> Seq<char> {
    spec_pad_right(spec_instruction_name(i), 13) + match spec_instruction_value(i, pc) {
        None => seq![],
        Some(v) => " "@ + (if spec_is_position(i) {
            seq![]
        } else {
            "#"@
        }) + spec_pad_right(v, 18) + match c {
            None => seq![],
            Some(c) => " // "@ + c,
        },
    }
}

/// The line of an instruction at `pc`, with the comment of [`spec_instruction_comment`].
#[verifier::opaque]
pub open spec fn spec_pretty_instruction(cp: Seq<SpecConstantEntry>, i: SpecInstruction, pc: i32, this: u16) -> SpecText {
    match spec_instruction_comment(cp, i, this) {
        Err(e) => Err(e),
        Ok(c) => Ok(spec_instruction_text(i, pc, c)),
    }
}

/// The view of a text that may be missing.
pub open spec fn opt_view(o: Option<String>) -> Option<Seq<char>> {
    match o {
        Some(s) => Some(s@),
        None => None,
    }
}

/// The text of `instruction` at `pc` with the comment `comment`.
#[verifier::spinoff_prover]
#[verifier::rlimit(40)]
pub fn instruction_text(instruction: &Instruction, pc: i32, comment: Option<String>) -> (r: String)
    requires
        spec_value_fits(instruction@, pc),
    ensures
        r@ == spec_instruction_text(instruction@, pc, opt_view(comment)),
{
    proof {
        reveal(spec_instruction_text);
    }
    let ghost cv = opt_view(comment);
    let val = get_instruction_value(instruction, pc);
    let is_position = instruction_is_position(instruction);
    let mut out = String::new();
    push_padded_right(&mut out, instruction.get_name(), 13);
    if let Some(v) = val {
        out.append(" ");
        if !is_position {
            out.append("#");
        }
        push_padded_right(&mut out, v.as_str(), 18);
        if let Some(c) = comment {
            out.append(" // ");
            out.append(c.as_str());
        }
    }
    proof {
        assert(out@ =~= spec_instruction_text(instruction@, pc, cv));
    }
    out
}

/// The line of `instruction` at `pc` in a code listing; `this` is the class being shown.
pub fn get_pretty_instruction(instruction: &Instruction, cp: &ConstantPool, pc: i32, this: &u16) -> (r: Result<
    String,
    ClassFormatErr,
>)
    requires
        spec_value_fits(instruction@, pc),
        spec_comment_shown(cp@, instruction@),
    ensures
        text_is(r, spec_pretty_instruction(cp@, instruction@, pc, *this)),
{
    proof {
        reveal(spec_pretty_instruction);
    }
    let comment = get_instruction_comment(instruction, cp, this)?;
    Ok(instruction_text(instruction, pc, comment))
}

/// The constant pool index that `instruction`'s comment describes.
fn comment_index(instruction: &Instruction) -> (r: Option<u16>)
    ensures
        r == spec_comment_index(instruction@),
{
    match instruction {
        Instruction::Anewarray(v) => Some(*v),
        Instruction::Checkcast(v) => Some(*v),
        Instruction::Getfield(v) => Some(*v),
        Instruction::Getstatic(v) => Some(*v),
        Instruction::Instanceof(v) => Some(*v),
        Instruction::InvokeDynamic(v) => Some(*v),
        Instruction::InvokeInterface(v, _) => Some(*v),
        Instruction::InvokeSpecial(v) => Some(*v),
        Instruction::InvokeStatic(v) => Some(*v),
        Instruction::InvokeVirtual(v) => Some(*v),
        Instruction::Ldc(v) => Some(*v),
        Instruction::LdcW(v) => Some(*v),
        Instruction::Ldc2W(v) => Some(*v),
        Instruction::New(v) => Some(*v),
        Instruction::Putfield(v) => Some(*v),
        Instruction::Putstatic(v) => Some(*v),
        _ => None,
    }
}

/// Whether a code listing can show the comment of an instruction: the constant it
/// describes, if the pool holds it, is one whose text is made here, or a floating-point
/// constant whose text `ft` holds.
pub open spec fn spec_comment_listable(cp: Seq<SpecConstantEntry>, ft: Seq<Option<Seq<char>>>, i: SpecInstruction) -> bool {
    spec_comment_index(i) matches Some(idx) ==> (spec_get_raw(cp, idx) matches Ok(e) ==> (spec_has_javap_text(e) || (
    spec_is_float(e) && spec_text_at(ft, idx as int) is Some)))
}

/// The comment of an instruction in a code listing: as [`spec_instruction_comment`], but
/// a floating-point constant shows its kind and the text that `ft` holds for it.
#[verifier::opaque]
pub open spec fn spec_listing_comment(
    cp: Seq<SpecConstantEntry>,
    ft: Seq<Option<Seq<char>>>,
    i: SpecInstruction,
    this: u16,
) -> Result<Option<Seq<char>>, SpecClassFormatErr> {
    match spec_comment_index(i) {
        Some(idx) => match spec_get_raw(cp, idx) {
            Ok(e) => if spec_is_float(e) {
                Ok(Some(spec_float_word(e) + spec_text_at(ft, idx as int)->Some_0))
            } else {
                spec_instruction_comment(cp, i, this)
            },
            Err(_) => spec_instruction_comment(cp, i, this),
        },
        None => spec_instruction_comment(cp, i, this),
    }
}

/// The comment of `instruction` in a code listing, as [`spec_listing_comment`] gives it.
pub fn listing_comment(instruction: &Instruction, cp: &ConstantPool, ft: &Vec<Option<String>>, this: &u16) -> (r: Result<
    Option<String>,
    ClassFormatErr,
>)
    requires
        spec_comment_listable(cp@, opt_views(ft@), instruction@),
    ensures
        match spec_listing_comment(cp@, opt_views(ft@), instruction@, *this) {
            Ok(None) => r == Ok::<Option<String>, ClassFormatErr>(None),
            Ok(Some(s)) => r matches Ok(Some(x)) && x@ == s,
            Err(e) => r matches Err(x) && x@ == e,
        },
{
    proof {
        reveal(spec_listing_comment);
    }
    if let Some(idx) = comment_index(instruction) {
        if let Ok(e) = cp.get_raw(&idx) {
            let is_float = match e {
                ConstantEntry::Float(_) => true,
                ConstantEntry::Double(_) => true,
                _ => false,
            };
            if is_float {
                let mut s = float_word(e).to_string();
                if let Some(t) = constant_text(ft, idx as usize) {
                    s.append(t);
                }
                return Ok(Some(s));
            }
        }
    }
    get_instruction_comment(instruction, cp, this)
}


/// The comment javap shows for the constant pool index `v`: the kind and value of the
/// entry at `v`, or the error of looking it up or showing it.
pub open spec fn spec_index_comment(cp: Seq<SpecConstantEntry>, v: u16, this: u16) -> Result<
    Option<Seq<char>>,
    SpecClassFormatErr,
> {
    match spec_get_raw(cp, v) {
        Err(e) => Err(e),
        Ok(e) => match spec_pretty_type_and_value(cp, e, this) {
            Err(e) => Err(e),
            Ok(s) => Ok(Some(s)),
        },
    }
}

/// Every instruction whose operand is a constant pool index is commented with the entry
/// at that index (for `invokeinterface`, the index and not the count); instructions whose
/// operands are local variables, immediate values or jump offsets have no comment.
pub proof fn lemma_comments_describe_the_index(cp: Seq<SpecConstantEntry>, this: u16)
    ensures
        forall|v: u16| #[trigger] spec_instruction_comment(cp, SpecInstruction::Anewarray(v), this) == spec_index_comment(cp, v, this),
        forall|v: u16| #[trigger] spec_instruction_comment(cp, SpecInstruction::Checkcast(v), this) == spec_index_comment(cp, v, this),
        forall|v: u16| #[trigger] spec_instruction_comment(cp, SpecInstruction::Getfield(v), this) == spec_index_comment(cp, v, this),
        forall|v: u16| #[trigger] spec_instruction_comment(cp, SpecInstruction::Getstatic(v), this) == spec_index_comment(cp, v, this),
        forall|v: u16| #[trigger] spec_instruction_comment(cp, SpecInstruction::Instanceof(v), this) == spec_index_comment(cp, v, this),
        forall|v: u16| #[trigger] spec_instruction_comment(cp, SpecInstruction::InvokeDynamic(v), this) == spec_index_comment(cp, v, this),
        forall|v: u16, c: u8| #[trigger] spec_instruction_comment(cp, SpecInstruction::InvokeInterface(v, c), this) == spec_index_comment(cp, v, this),
        forall|v: u16| #[trigger] spec_instruction_comment(cp, SpecInstruction::InvokeSpecial(v), this) == spec_index_comment(cp, v, this),
        forall|v: u16| #[trigger] spec_instruction_comment(cp, SpecInstruction::InvokeStatic(v), this) == spec_index_comment(cp, v, this),
        forall|v: u16| #[trigger] spec_instruction_comment(cp, SpecInstruction::InvokeVirtual(v), this) == spec_index_comment(cp, v, this),
        forall|v: u16| #[trigger] spec_instruction_comment(cp, SpecInstruction::Ldc(v), this) == spec_index_comment(cp, v, this),
        forall|v: u16| #[trigger] spec_instruction_comment(cp, SpecInstruction::LdcW(v), this) == spec_index_comment(cp, v, this),
        forall|v: u16| #[trigger] spec_instruction_comment(cp, SpecInstruction::Ldc2W(v), this) == spec_index_comment(cp, v, this),
        forall|v: u16| #[trigger] spec_instruction_comment(cp, SpecInstruction::New(v), this) == spec_index_comment(cp, v, this),
        forall|v: u16| #[trigger] spec_instruction_comment(cp, SpecInstruction::Putfield(v), this) == spec_index_comment(cp, v, this),
        forall|v: u16| #[trigger] spec_instruction_comment(cp, SpecInstruction::Putstatic(v), this) == spec_index_comment(cp, v, this),
        forall|x: u8| #[trigger] spec_instruction_comment(cp, SpecInstruction::Aload(x), this) == Ok::<Option<Seq<char>>, SpecClassFormatErr>(None),
        forall|x: u8| #[trigger] spec_instruction_comment(cp, SpecInstruction::Astore(x), this) == Ok::<Option<Seq<char>>, SpecClassFormatErr>(None),
        forall|x: u8| #[trigger] spec_instruction_comment(cp, SpecInstruction::Dload(x), this) == Ok::<Option<Seq<char>>, SpecClassFormatErr>(None),
        forall|x: u8| #[trigger] spec_instruction_comment(cp, SpecInstruction::Dstore(x), this) == Ok::<Option<Seq<char>>, SpecClassFormatErr>(None),
        forall|x: u8| #[trigger] spec_instruction_comment(cp, SpecInstruction::Fload(x), this) == Ok::<Option<Seq<char>>, SpecClassFormatErr>(None),
        forall|x: u8| #[trigger] spec_instruction_comment(cp, SpecInstruction::Fstore(x), this) == Ok::<Option<Seq<char>>, SpecClassFormatErr>(None),
        forall|x: u8| #[trigger] spec_instruction_comment(cp, SpecInstruction::Iload(x), this) == Ok::<Option<Seq<char>>, SpecClassFormatErr>(None),
        forall|x: u8| #[trigger] spec_instruction_comment(cp, SpecInstruction::Istore(x), this) == Ok::<Option<Seq<char>>, SpecClassFormatErr>(None),
        forall|x: u8| #[trigger] spec_instruction_comment(cp, SpecInstruction::Lload(x), this) == Ok::<Option<Seq<char>>, SpecClassFormatErr>(None),
        forall|x: u8| #[trigger] spec_instruction_comment(cp, SpecInstruction::Lstore(x), this) == Ok::<Option<Seq<char>>, SpecClassFormatErr>(None),
        forall|x: u8| #[trigger] spec_instruction_comment(cp, SpecInstruction::Ret(x), this) == Ok::<Option<Seq<char>>, SpecClassFormatErr>(None),
        forall|x: i16| #[trigger] spec_instruction_comment(cp, SpecInstruction::Sipush(x), this) == Ok::<Option<Seq<char>>, SpecClassFormatErr>(None),
        forall|x: i16| #[trigger] spec_instruction_comment(cp, SpecInstruction::Goto(x), this) == Ok::<Option<Seq<char>>, SpecClassFormatErr>(None),
        forall|x: i16| #[trigger] spec_instruction_comment(cp, SpecInstruction::IfEq(x), this) == Ok::<Option<Seq<char>>, SpecClassFormatErr>(None),
        forall|x: i16| #[trigger] spec_instruction_comment(cp, SpecInstruction::IfNe(x), this) == Ok::<Option<Seq<char>>, SpecClassFormatErr>(None),
        forall|x: i16| #[trigger] spec_instruction_comment(cp, SpecInstruction::IfLt(x), this) == Ok::<Option<Seq<char>>, SpecClassFormatErr>(None),
        forall|x: i16| #[trigger] spec_instruction_comment(cp, SpecInstruction::IfGe(x), this) == Ok::<Option<Seq<char>>, SpecClassFormatErr>(None),
        forall|x: i16| #[trigger] spec_instruction_comment(cp, SpecInstruction::IfGt(x), this) == Ok::<Option<Seq<char>>, SpecClassFormatErr>(None),
        forall|x: i16| #[trigger] spec_instruction_comment(cp, SpecInstruction::IfLe(x), this) == Ok::<Option<Seq<char>>, SpecClassFormatErr>(None),
        forall|x: i16| #[trigger] spec_instruction_comment(cp, SpecInstruction::IfIcmpeq(x), this) == Ok::<Option<Seq<char>>, SpecClassFormatErr>(None),
        forall|x: i16| #[trigger] spec_instruction_comment(cp, SpecInstruction::IfIcmpne(x), this) == Ok::<Option<Seq<char>>, SpecClassFormatErr>(None),
        forall|x: i16| #[trigger] spec_instruction_comment(cp, SpecInstruction::IfIcmplt(x), this) == Ok::<Option<Seq<char>>, SpecClassFormatErr>(None),
        forall|x: i16| #[trigger] spec_instruction_comment(cp, SpecInstruction::IfIcmpge(x), this) == Ok::<Option<Seq<char>>, SpecClassFormatErr>(None),
        forall|x: i16| #[trigger] spec_instruction_comment(cp, SpecInstruction::IfIcmpgt(x), this) == Ok::<Option<Seq<char>>, SpecClassFormatErr>(None),
        forall|x: i16| #[trigger] spec_instruction_comment(cp, SpecInstruction::IfIcmple(x), this) == Ok::<Option<Seq<char>>, SpecClassFormatErr>(None),
        forall|x: i16| #[trigger] spec_instruction_comment(cp, SpecInstruction::IfAcmpEq(x), this) == Ok::<Option<Seq<char>>, SpecClassFormatErr>(None),
        forall|x: i16| #[trigger] spec_instruction_comment(cp, SpecInstruction::IfAcmpNe(x), this) == Ok::<Option<Seq<char>>, SpecClassFormatErr>(None),
        forall|x: i16| #[trigger] spec_instruction_comment(cp, SpecInstruction::Ifnull(x), this) == Ok::<Option<Seq<char>>, SpecClassFormatErr>(None),
        forall|x: i16| #[trigger] spec_instruction_comment(cp, SpecInstruction::Ifnonnull(x), this) == Ok::<Option<Seq<char>>, SpecClassFormatErr>(None),
        forall|x: i16| #[trigger] spec_instruction_comment(cp, SpecInstruction::Jsr(x), this) == Ok::<Option<Seq<char>>, SpecClassFormatErr>(None),
        forall|x: i8| #[trigger] spec_instruction_comment(cp, SpecInstruction::Bipush(x), this) == Ok::<Option<Seq<char>>, SpecClassFormatErr>(None),
        forall|a: u8, b: i8| #[trigger] spec_instruction_comment(cp, SpecInstruction::Iinc(a, b), this) == Ok::<Option<Seq<char>>, SpecClassFormatErr>(None),
{
}

/// In an instruction's line, `#` comes before the operand exactly when the operand is a
/// constant pool index, the one the comment describes.
pub proof fn lemma_hash_marks_pool_indices(i: SpecInstruction, pc: i32)
    ensures
        spec_instruction_value(i, pc) is Some ==> (!spec_is_position(i) <==> spec_comment_index(i) is Some),
{
}

} // verus!
