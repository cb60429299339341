//! The operand text of an instruction as the pretty listing shows it.

use crate::bytecode::instruction::{Instruction, SpecInstruction};
use crate::bytecode::operand::{ArrayType, LookupSwitchData, SpecLookupSwitch, SpecTableSwitch, TableSwitchData, spec_array_type_name};
use crate::text::{push_decimal, push_digits, push_padded_left, spec_decimal, spec_pad_left};
use vstd::prelude::*;

verus! {

pub open spec fn spec_text_u8(v: u8) -> Seq<char> {
    spec_decimal(v as int)
}

pub open spec fn spec_text_i8(v: i8) -> Seq<char> {
    spec_decimal(v as int)
}

pub open spec fn spec_text_u16(v: u16) -> Seq<char> {
    spec_decimal(v as int)
}

pub open spec fn spec_text_i16(v: i16) -> Seq<char> {
    spec_decimal(v as int)
}

/// The target of a jump by `offset` from `pc`.
pub open spec fn spec_branch_text(offset: i16, pc: i32) -> Seq<char> {
    spec_decimal(offset + pc)
}

/// Two operands separated by a comma and a space.
pub open spec fn spec_pair_text(a: int, b: int) -> Seq<char> {
    spec_decimal(a) + ", "@ + spec_decimal(b)
}

/// Whether `x` fits in an `i32`.
pub open spec fn spec_fits_i32(x: int) -> bool {
    i32::MIN <= x <= i32::MAX
}

/// One line of a switch table: the key right-aligned in 20 columns, then the target.
pub open spec fn spec_switch_line(key: Seq<char>, target: int) -> Seq<char> {
    spec_pad_left(key, 20) + ": "@ + spec_decimal(target) + "\n"@
}

/// The lines of the pairs of a `lookupswitch` at `pc`.
pub open spec fn spec_lookup_lines(pairs: Seq<(i32, i32)>, pc: i32) -> Seq<char>
    decreases pairs.len(),
{
    if pairs.len() == 0 {
        seq![]
    } else {
        spec_lookup_lines(pairs.drop_last(), pc) + spec_switch_line(spec_decimal(pairs.last().0 as int), pairs.last().1 + pc)
    }
}

/// The lines of the offsets of a `tableswitch` at `pc` whose first key is `low`.
pub open spec fn spec_table_lines(offsets: Seq<i32>, low: i32, pc: i32) -> Seq<char>
    decreases offsets.len(),
{
    if offsets.len() == 0 {
        seq![]
    } else {
        spec_table_lines(offsets.drop_last(), low, pc) + spec_switch_line(
            spec_decimal(offsets.len() - 1 + low),
            offsets.last() + pc,
        )
    }
}

/// The closing lines of a switch table: the default target and the brace.
pub open spec fn spec_switch_close(default_target: int) -> Seq<char> {
    spec_switch_line("default"@, default_target) + spec_pad_left("}"@, 7)
}

/// The table of a `lookupswitch` at `pc`.
pub open spec fn spec_lookup_text(d: SpecLookupSwitch, pc: i32) -> Seq<char> {
    "{ // "@ + spec_decimal(d.pairs.len() as int) + "\n"@ + spec_lookup_lines(d.pairs, pc) + spec_switch_close(
        d.default_offset + pc,
    )
}

/// The table of a `tableswitch` at `pc`.
pub open spec fn spec_table_text(d: SpecTableSwitch, pc: i32) -> Seq<char> {
    "{ // "@ + spec_decimal(d.low as int) + " to "@ + spec_decimal(d.high as int) + "\n"@ + spec_table_lines(
        d.offsets,
        d.low,
        pc,
    ) + spec_switch_close(d.default_offset + pc)
}

/// Whether the targets of a `lookupswitch` at `pc` fit in an `i32`.
pub open spec fn spec_lookup_fits(d: SpecLookupSwitch, pc: i32) -> bool {
    &&& spec_fits_i32(d.default_offset + pc)
    &&& forall|k: int| 0 <= k < d.pairs.len() ==> spec_fits_i32(#[trigger] d.pairs[k].1 + pc)
}

/// Whether the keys and targets of a `tableswitch` at `pc` fit in an `i32`.
pub open spec fn spec_table_fits(d: SpecTableSwitch, pc: i32) -> bool {
    &&& spec_fits_i32(d.default_offset + pc)
    &&& d.offsets.len() <= i32::MAX + 1
    &&& forall|k: int| 0 <= k < d.offsets.len() ==> spec_fits_i32(k + d.low) && spec_fits_i32(#[trigger] d.offsets[k] + pc)
}

fn text_u8(v: u8) -> (r: String)
    ensures
        r@ == spec_text_u8(v),
{
    let mut out = String::new();
    push_decimal(&mut out, v as i64);
    assert(out@ =~= spec_text_u8(v));
    out
}

fn text_i8(v: i8) -> (r: String)
    ensures
        r@ == spec_text_i8(v),
{
    let mut out = String::new();
    push_decimal(&mut out, v as i64);
    assert(out@ =~= spec_text_i8(v));
    out
}

fn text_u16(v: u16) -> (r: String)
    ensures
        r@ == spec_text_u16(v),
{
    let mut out = String::new();
    push_decimal(&mut out, v as i64);
    assert(out@ =~= spec_text_u16(v));
    out
}

fn text_i16(v: i16) -> (r: String)
    ensures
        r@ == spec_text_i16(v),
{
    let mut out = String::new();
    push_decimal(&mut out, v as i64);
    assert(out@ =~= spec_text_i16(v));
    out
}

fn branch_text(offset: i16, pc: i32) -> (r: String)
    requires
        spec_fits_i32(offset + pc),
    ensures
        r@ == spec_branch_text(offset, pc),
{
    let target: i32 = offset as i32 + pc;
    let mut out = String::new();
    push_decimal(&mut out, target as i64);
    assert(out@ =~= spec_branch_text(offset, pc));
    out
}

fn pair_text(a: i64, b: i64) -> (r: String)
    ensures
        r@ == spec_pair_text(a as int, b as int),
{
    let mut out = String::new();
    push_decimal(&mut out, a);
    out.append(", ");
    push_decimal(&mut out, b);
    assert(out@ =~= spec_pair_text(a as int, b as int));
    out
}

/// Appends one line of a switch table.
fn push_switch_line(out: &mut String, key: &str, target: i32)
    ensures
        final(out)@ == old(out)@ + spec_switch_line(key@, target as int),
{
    push_padded_left(out, key, 20);
    out.append(": ");
    push_decimal(out, target as i64);
    out.append("\n");
    assert(final(out)@ =~= old(out)@ + spec_switch_line(key@, target as int));
}

/// Appends the closing lines of a switch table.
fn push_switch_close(out: &mut String, default_target: i32)
    ensures
        final(out)@ == old(out)@ + spec_switch_close(default_target as int),
{
    push_switch_line(out, "default", default_target);
    push_padded_left(out, "}", 7);
    assert(final(out)@ =~= old(out)@ + spec_switch_close(default_target as int));
}

fn lookup_text(data: &LookupSwitchData, pc: i32) -> (r: String)
    requires
        spec_lookup_fits(data@, pc),
    ensures
        r@ == spec_lookup_text(data@, pc),
{
    let mut out = "{ // ".to_string();
    push_digits(&mut out, data.pairs.len() as u64);
    out.append("\n");
    let ghost head = out@;
    let n = data.pairs.len();
    let mut i: usize = 0;
    while i < n
        invariant
            i <= n,
            n == data.pairs@.len(),
            spec_lookup_fits(data@, pc),
            out@ == head + spec_lookup_lines(data.pairs@.subrange(0, i as int), pc),
        decreases n - i,
    {
        let (k, v) = data.pairs[i];
        assert(spec_fits_i32(data@.pairs[i as int].1 + pc));
        let key = {
            let mut s = String::new();
            push_decimal(&mut s, k as i64);
            s
        };
        push_switch_line(&mut out, key.as_str(), v + pc);
        proof {
            let next = data.pairs@.subrange(0, i + 1);
            assert(next.drop_last() =~= data.pairs@.subrange(0, i as int));
        }
        i = i + 1;
    }
    proof {
        assert(data.pairs@.subrange(0, n as int) =~= data.pairs@);
    }
    push_switch_close(&mut out, data.default_offset + pc);
    assert(out@ =~= spec_lookup_text(data@, pc));
    out
}

fn table_text(data: &TableSwitchData, pc: i32) -> (r: String)
    requires
        spec_table_fits(data@, pc),
    ensures
        r@ == spec_table_text(data@, pc),
{
    let mut out = "{ // ".to_string();
    push_decimal(&mut out, data.low as i64);
    out.append(" to ");
    push_decimal(&mut out, data.high as i64);
    out.append("\n");
    let ghost head = out@;
    let n = data.offsets.len();
    let mut i: usize = 0;
    while i < n
        invariant
            i <= n,
            n == data.offsets@.len(),
            spec_table_fits(data@, pc),
            out@ == head + spec_table_lines(data.offsets@.subrange(0, i as int), data.low, pc),
        decreases n - i,
    {
        let v = data.offsets[i];
        assert(spec_fits_i32(i + data.low) && spec_fits_i32(data@.offsets[i as int] + pc));
        let key = {
            let mut s = String::new();
            push_decimal(&mut s, (i as i32 + data.low) as i64);
            s
        };
        push_switch_line(&mut out, key.as_str(), v + pc);
        proof {
            let next = data.offsets@.subrange(0, i + 1);
            assert(next.drop_last() =~= data.offsets@.subrange(0, i as int));
        }
        i = i + 1;
    }
    proof {
        assert(data.offsets@.subrange(0, n as int) =~= data.offsets@);
    }
    push_switch_close(&mut out, data.default_offset + pc);
    assert(out@ =~= spec_table_text(data@, pc));
    out
}

/// The operand text of an instruction at `pc` in the pretty listing, if it shows one.
pub open spec fn spec_instruction_value(i: SpecInstruction, pc: i32) -> Option<Seq<char>> {
    match i {
        SpecInstruction::Aload(x) => Some(spec_text_u8(x)),
        SpecInstruction::Anewarray(x) => Some(spec_text_u16(x)),
        SpecInstruction::Astore(x) => Some(spec_text_u8(x)),
        SpecInstruction::Bipush(x) => Some(spec_text_i8(x)),
        SpecInstruction::Checkcast(x) => Some(spec_text_u16(x)),
        SpecInstruction::Getfield(x) => Some(spec_text_u16(x)),
        SpecInstruction::Getstatic(x) => Some(spec_text_u16(x)),
        SpecInstruction::Goto(x) => Some(spec_branch_text(x, pc)),
        SpecInstruction::Dload(x) => Some(spec_text_u8(x)),
        SpecInstruction::Dstore(x) => Some(spec_text_u8(x)),
        SpecInstruction::Fload(x) => Some(spec_text_u8(x)),
        SpecInstruction::Fstore(x) => Some(spec_text_u8(x)),
        SpecInstruction::Instanceof(x) => Some(spec_text_u16(x)),
        SpecInstruction::IfAcmpEq(x) => Some(spec_branch_text(x, pc)),
        SpecInstruction::IfAcmpNe(x) => Some(spec_branch_text(x, pc)),
        SpecInstruction::IfEq(x) => Some(spec_branch_text(x, pc)),
        SpecInstruction::IfNe(x) => Some(spec_branch_text(x, pc)),
        SpecInstruction::Ifnull(x) => Some(spec_branch_text(x, pc)),
        SpecInstruction::IfLt(x) => Some(spec_branch_text(x, pc)),
        SpecInstruction::IfGe(x) => Some(spec_branch_text(x, pc)),
        SpecInstruction::IfGt(x) => Some(spec_branch_text(x, pc)),
        SpecInstruction::IfLe(x) => Some(spec_branch_text(x, pc)),
        SpecInstruction::IfIcmpeq(x) => Some(spec_branch_text(x, pc)),
        SpecInstruction::IfIcmpne(x) => Some(spec_branch_text(x, pc)),
        SpecInstruction::IfIcmplt(x) => Some(spec_branch_text(x, pc)),
        SpecInstruction::IfIcmpge(x) => Some(spec_branch_text(x, pc)),
        SpecInstruction::IfIcmpgt(x) => Some(spec_branch_text(x, pc)),
        SpecInstruction::IfIcmple(x) => Some(spec_branch_text(x, pc)),
        SpecInstruction::Iinc(a, b) => Some(spec_text_u8(a) + ", "@ + spec_text_i8(b)),
        SpecInstruction::Iload(x) => Some(spec_text_u8(x)),
        SpecInstruction::Ifnonnull(x) => Some(spec_branch_text(x, pc)),
        SpecInstruction::InvokeDynamic(x) => Some(spec_text_u16(x) + ", 0"@),
        SpecInstruction::InvokeInterface(a, b) => Some(spec_text_u16(a) + ", "@ + spec_text_u8(b)),
        SpecInstruction::InvokeSpecial(x) => Some(spec_text_u16(x)),
        SpecInstruction::InvokeStatic(x) => Some(spec_text_u16(x)),
        SpecInstruction::InvokeVirtual(x) => Some(spec_text_u16(x)),
        SpecInstruction::Istore(x) => Some(spec_text_u8(x)),
        SpecInstruction::Ldc(x) => Some(spec_text_u16(x)),
        SpecInstruction::LdcW(x) => Some(spec_text_u16(x)),
        SpecInstruction::Ldc2W(x) => Some(spec_text_u16(x)),
        SpecInstruction::Lload(x) => Some(spec_text_u8(x)),
        SpecInstruction::Lookupswitch(d) => Some(spec_lookup_text(d, pc)),
        SpecInstruction::Lstore(x) => Some(spec_text_u8(x)),
        SpecInstruction::New(x) => Some(spec_text_u16(x)),
        SpecInstruction::Newarray(t) => Some(spec_array_type_name(t)),
        SpecInstruction::Putfield(x) => Some(spec_text_u16(x)),
        SpecInstruction::Putstatic(x) => Some(spec_text_u16(x)),
        SpecInstruction::Sipush(x) => Some(spec_text_i16(x)),
        SpecInstruction::TableSwitch(d) => Some(spec_table_text(d, pc)),
        _ => None,
    }
}

/// Whether the operand text of an instruction at `pc` can be made: jump targets fit in an `i32`.
pub open spec fn spec_value_fits(i: SpecInstruction, pc: i32) -> bool {
    match i {
        SpecInstruction::Goto(x) => spec_fits_i32(x + pc),
        SpecInstruction::IfAcmpEq(x) => spec_fits_i32(x + pc),
        SpecInstruction::IfAcmpNe(x) => spec_fits_i32(x + pc),
        SpecInstruction::IfEq(x) => spec_fits_i32(x + pc),
        SpecInstruction::IfNe(x) => spec_fits_i32(x + pc),
        SpecInstruction::Ifnull(x) => spec_fits_i32(x + pc),
        SpecInstruction::IfLt(x) => spec_fits_i32(x + pc),
        SpecInstruction::IfGe(x) => spec_fits_i32(x + pc),
        SpecInstruction::IfGt(x) => spec_fits_i32(x + pc),
        SpecInstruction::IfLe(x) => spec_fits_i32(x + pc),
        SpecInstruction::IfIcmpeq(x) => spec_fits_i32(x + pc),
        SpecInstruction::IfIcmpne(x) => spec_fits_i32(x + pc),
        SpecInstruction::IfIcmplt(x) => spec_fits_i32(x + pc),
        SpecInstruction::IfIcmpge(x) => spec_fits_i32(x + pc),
        SpecInstruction::IfIcmpgt(x) => spec_fits_i32(x + pc),
        SpecInstruction::IfIcmple(x) => spec_fits_i32(x + pc),
        SpecInstruction::Ifnonnull(x) => spec_fits_i32(x + pc),
        SpecInstruction::Lookupswitch(d) => spec_lookup_fits(d, pc),
        SpecInstruction::TableSwitch(d) => spec_table_fits(d, pc),
        _ => true,
    }
}

/// Whether the operand of an instruction is shown without `#`: a local, a constant or a
/// jump target rather than a constant pool index.
pub open spec fn spec_is_position(i: SpecInstruction) -> bool {
    ||| i is Aload
    ||| i is Astore
    ||| i is Bipush
    ||| i is Goto
    ||| i is Dload
    ||| i is Dstore
    ||| i is Fload
    ||| i is Fstore
    ||| i is IfAcmpEq
    ||| i is IfAcmpNe
    ||| i is IfEq
    ||| i is IfNe
    ||| i is Ifnull
    ||| i is IfLt
    ||| i is IfGe
    ||| i is IfGt
    ||| i is IfLe
    ||| i is IfIcmpeq
    ||| i is IfIcmpne
    ||| i is IfIcmplt
    ||| i is IfIcmpge
    ||| i is IfIcmpgt
    ||| i is IfIcmple
    ||| i is Iinc
    ||| i is Iload
    ||| i is Ifnonnull
    ||| i is Istore
    ||| i is Lload
    ||| i is Lookupswitch
    ||| i is Lstore
    ||| i is Newarray
    ||| i is Sipush
    ||| i is TableSwitch
}

/// Whether the operand of `instruction` is shown without `#`: a local, a constant or a
/// jump target rather than a constant pool index.
pub fn instruction_is_position(instruction: &Instruction) -> (b: bool)
    ensures
        b == spec_is_position(instruction@),
{
    match instruction {
        Instruction::Aload(_)
        | Instruction::Astore(_)
        | Instruction::Bipush(_)
        | Instruction::Goto(_)
        | Instruction::Dload(_)
        | Instruction::Dstore(_)
        | Instruction::Fload(_)
        | Instruction::Fstore(_)
        | Instruction::IfAcmpEq(_)
        | Instruction::IfAcmpNe(_)
        | Instruction::IfEq(_)
        | Instruction::IfNe(_)
        | Instruction::Ifnull(_)
        | Instruction::IfLt(_)
        | Instruction::IfGe(_)
        | Instruction::IfGt(_)
        | Instruction::IfLe(_)
        | Instruction::IfIcmpeq(_)
        | Instruction::IfIcmpne(_)
        | Instruction::IfIcmplt(_)
        | Instruction::IfIcmpge(_)
        | Instruction::IfIcmpgt(_)
        | Instruction::IfIcmple(_)
        | Instruction::Iinc(_, _)
        | Instruction::Iload(_)
        | Instruction::Ifnonnull(_)
        | Instruction::Istore(_)
        | Instruction::Lload(_)
        | Instruction::Lookupswitch(_)
        | Instruction::Lstore(_)
        | Instruction::Newarray(_)
        | Instruction::Sipush(_)
        | Instruction::TableSwitch(_) => true,
        _ => false,
    }
}

/// The operand text of `instruction` at `pc` in the pretty listing, if it shows one: the
/// operands in decimal, jump targets rather than offsets, switch tables in full.
#[verifier::rlimit(60)]
#[verifier::spinoff_prover]
pub fn get_instruction_value(instruction: &Instruction, pc: i32) -> (r: Option<String>)
    requires
        spec_value_fits(instruction@, pc),
    ensures
        match spec_instruction_value(instruction@, pc) {
            Some(s) => r matches Some(x) && x@ == s,
            None => r is None,
        },
{
    match instruction {
        Instruction::Aload(x) => Some(text_u8(*x)),
        Instruction::Anewarray(x) => Some(text_u16(*x)),
        Instruction::Astore(x) => Some(text_u8(*x)),
        Instruction::Bipush(x) => Some(text_i8(*x)),
        Instruction::Checkcast(x) => Some(text_u16(*x)),
        Instruction::Getfield(x) => Some(text_u16(*x)),
        Instruction::Getstatic(x) => Some(text_u16(*x)),
        Instruction::Goto(x) => Some(branch_text(*x, pc)),
        Instruction::Dload(x) => Some(text_u8(*x)),
        Instruction::Dstore(x) => Some(text_u8(*x)),
        Instruction::Fload(x) => Some(text_u8(*x)),
        Instruction::Fstore(x) => Some(text_u8(*x)),
        Instruction::Instanceof(x) => Some(text_u16(*x)),
        Instruction::IfAcmpEq(x) => Some(branch_text(*x, pc)),
        Instruction::IfAcmpNe(x) => Some(branch_text(*x, pc)),
        Instruction::IfEq(x) => Some(branch_text(*x, pc)),
        Instruction::IfNe(x) => Some(branch_text(*x, pc)),
        Instruction::Ifnull(x) => Some(branch_text(*x, pc)),
        Instruction::IfLt(x) => Some(branch_text(*x, pc)),
        Instruction::IfGe(x) => Some(branch_text(*x, pc)),
        Instruction::IfGt(x) => Some(branch_text(*x, pc)),
        Instruction::IfLe(x) => Some(branch_text(*x, pc)),
        Instruction::IfIcmpeq(x) => Some(branch_text(*x, pc)),
        Instruction::IfIcmpne(x) => Some(branch_text(*x, pc)),
        Instruction::IfIcmplt(x) => Some(branch_text(*x, pc)),
        Instruction::IfIcmpge(x) => Some(branch_text(*x, pc)),
        Instruction::IfIcmpgt(x) => Some(branch_text(*x, pc)),
        Instruction::IfIcmple(x) => Some(branch_text(*x, pc)),
        Instruction::Iinc(a, b) => Some(iinc_text(*a, *b)),
        Instruction::Iload(x) => Some(text_u8(*x)),
        Instruction::Ifnonnull(x) => Some(branch_text(*x, pc)),
        Instruction::InvokeDynamic(x) => Some(dynamic_text(*x)),
        Instruction::InvokeInterface(a, b) => Some(interface_text(*a, *b)),
        Instruction::InvokeSpecial(x) => Some(text_u16(*x)),
        Instruction::InvokeStatic(x) => Some(text_u16(*x)),
        Instruction::InvokeVirtual(x) => Some(text_u16(*x)),
        Instruction::Istore(x) => Some(text_u8(*x)),
        Instruction::Ldc(x) => Some(text_u16(*x)),
        Instruction::LdcW(x) => Some(text_u16(*x)),
        Instruction::Ldc2W(x) => Some(text_u16(*x)),
        Instruction::Lload(x) => Some(text_u8(*x)),
        Instruction::Lookupswitch(d) => Some(lookup_text(d, pc)),
        Instruction::Lstore(x) => Some(text_u8(*x)),
        Instruction::New(x) => Some(text_u16(*x)),
        Instruction::Newarray(t) => Some(t.as_str().to_string()),
        Instruction::Putfield(x) => Some(text_u16(*x)),
        Instruction::Putstatic(x) => Some(text_u16(*x)),
        Instruction::Sipush(x) => Some(text_i16(*x)),
        Instruction::TableSwitch(d) => Some(table_text(d, pc)),
        _ => None,
    }
}

fn iinc_text(a: u8, b: i8) -> (r: String)
    ensures
        r@ == spec_text_u8(a) + ", "@ + spec_text_i8(b),
{
    pair_text(a as i64, b as i64)
}

fn interface_text(a: u16, b: u8) -> (r: String)
    ensures
        r@ == spec_text_u16(a) + ", "@ + spec_text_u8(b),
{
    pair_text(a as i64, b as i64)
}

fn dynamic_text(a: u16) -> (r: String)
    ensures
        r@ == spec_text_u16(a) + ", 0"@,
{
    let mut out = text_u16(a);
    out.append(", 0");
    out
}


/// javap's operand text of the instructions that are not jumps or switches, for every
/// operand: local variable indices, constant pool indices and immediate values show their decimal value, signed
/// where the operand is signed; `iinc` and `invokeinterface` show both operands joined by
/// `, `, and `invokedynamic` its index and `, 0`; `newarray` shows the element type.
pub proof fn lemma_operand_texts(pc: i32)
    ensures
        forall|x: u8| #[trigger] spec_instruction_value(SpecInstruction::Aload(x), pc) == Some(spec_decimal(x as int)),
        forall|x: u16| #[trigger] spec_instruction_value(SpecInstruction::Anewarray(x), pc) == Some(spec_decimal(x as int)),
        forall|x: u8| #[trigger] spec_instruction_value(SpecInstruction::Astore(x), pc) == Some(spec_decimal(x as int)),
        forall|x: i8| #[trigger] spec_instruction_value(SpecInstruction::Bipush(x), pc) == Some(spec_decimal(x as int)),
        forall|x: u16| #[trigger] spec_instruction_value(SpecInstruction::Checkcast(x), pc) == Some(spec_decimal(x as int)),
        forall|x: u16| #[trigger] spec_instruction_value(SpecInstruction::Getfield(x), pc) == Some(spec_decimal(x as int)),
        forall|x: u16| #[trigger] spec_instruction_value(SpecInstruction::Getstatic(x), pc) == Some(spec_decimal(x as int)),
        forall|x: u8| #[trigger] spec_instruction_value(SpecInstruction::Dload(x), pc) == Some(spec_decimal(x as int)),
        forall|x: u8| #[trigger] spec_instruction_value(SpecInstruction::Dstore(x), pc) == Some(spec_decimal(x as int)),
        forall|x: u8| #[trigger] spec_instruction_value(SpecInstruction::Fload(x), pc) == Some(spec_decimal(x as int)),
        forall|x: u8| #[trigger] spec_instruction_value(SpecInstruction::Fstore(x), pc) == Some(spec_decimal(x as int)),
        forall|x: u16| #[trigger] spec_instruction_value(SpecInstruction::Instanceof(x), pc) == Some(spec_decimal(x as int)),
        forall|a: u8, b: i8| #[trigger] spec_instruction_value(SpecInstruction::Iinc(a, b), pc) == Some(spec_decimal(a as int) + ", "@ + spec_decimal(b as int)),
        forall|x: u8| #[trigger] spec_instruction_value(SpecInstruction::Iload(x), pc) == Some(spec_decimal(x as int)),
        forall|x: u16| #[trigger] spec_instruction_value(SpecInstruction::InvokeDynamic(x), pc) == Some(spec_decimal(x as int) + ", 0"@),
        forall|a: u16, b: u8| #[trigger] spec_instruction_value(SpecInstruction::InvokeInterface(a, b), pc) == Some(spec_decimal(a as int) + ", "@ + spec_decimal(b as int)),
        forall|x: u16| #[trigger] spec_instruction_value(SpecInstruction::InvokeSpecial(x), pc) == Some(spec_decimal(x as int)),
        forall|x: u16| #[trigger] spec_instruction_value(SpecInstruction::InvokeStatic(x), pc) == Some(spec_decimal(x as int)),
        forall|x: u16| #[trigger] spec_instruction_value(SpecInstruction::InvokeVirtual(x), pc) == Some(spec_decimal(x as int)),
        forall|x: u8| #[trigger] spec_instruction_value(SpecInstruction::Istore(x), pc) == Some(spec_decimal(x as int)),
        forall|x: u16| #[trigger] spec_instruction_value(SpecInstruction::Ldc(x), pc) == Some(spec_decimal(x as int)),
        forall|x: u16| #[trigger] spec_instruction_value(SpecInstruction::LdcW(x), pc) == Some(spec_decimal(x as int)),
        forall|x: u16| #[trigger] spec_instruction_value(SpecInstruction::Ldc2W(x), pc) == Some(spec_decimal(x as int)),
        forall|x: u8| #[trigger] spec_instruction_value(SpecInstruction::Lload(x), pc) == Some(spec_decimal(x as int)),
        forall|x: u8| #[trigger] spec_instruction_value(SpecInstruction::Lstore(x), pc) == Some(spec_decimal(x as int)),
        forall|x: u16| #[trigger] spec_instruction_value(SpecInstruction::New(x), pc) == Some(spec_decimal(x as int)),
        forall|t: ArrayType| #[trigger] spec_instruction_value(SpecInstruction::Newarray(t), pc) == Some(spec_array_type_name(t)),
        forall|x: u16| #[trigger] spec_instruction_value(SpecInstruction::Putfield(x), pc) == Some(spec_decimal(x as int)),
        forall|x: u16| #[trigger] spec_instruction_value(SpecInstruction::Putstatic(x), pc) == Some(spec_decimal(x as int)),
        forall|x: i16| #[trigger] spec_instruction_value(SpecInstruction::Sipush(x), pc) == Some(spec_decimal(x as int)),
{
}

/// javap's operand text of the 16-bit jumps, `goto` and every conditional branch, for
/// every offset and every `pc`: the absolute target `pc + offset`, as for `goto`.
pub proof fn lemma_branch_texts(pc: i32)
    ensures
        forall|x: i16| #[trigger] spec_instruction_value(SpecInstruction::Goto(x), pc) == Some(spec_decimal(pc + x)),
        forall|x: i16| #[trigger] spec_instruction_value(SpecInstruction::IfAcmpEq(x), pc) == Some(spec_decimal(pc + x)),
        forall|x: i16| #[trigger] spec_instruction_value(SpecInstruction::IfAcmpNe(x), pc) == Some(spec_decimal(pc + x)),
        forall|x: i16| #[trigger] spec_instruction_value(SpecInstruction::IfEq(x), pc) == Some(spec_decimal(pc + x)),
        forall|x: i16| #[trigger] spec_instruction_value(SpecInstruction::IfNe(x), pc) == Some(spec_decimal(pc + x)),
        forall|x: i16| #[trigger] spec_instruction_value(SpecInstruction::Ifnull(x), pc) == Some(spec_decimal(pc + x)),
        forall|x: i16| #[trigger] spec_instruction_value(SpecInstruction::IfLt(x), pc) == Some(spec_decimal(pc + x)),
        forall|x: i16| #[trigger] spec_instruction_value(SpecInstruction::IfGe(x), pc) == Some(spec_decimal(pc + x)),
        forall|x: i16| #[trigger] spec_instruction_value(SpecInstruction::IfGt(x), pc) == Some(spec_decimal(pc + x)),
        forall|x: i16| #[trigger] spec_instruction_value(SpecInstruction::IfLe(x), pc) == Some(spec_decimal(pc + x)),
        forall|x: i16| #[trigger] spec_instruction_value(SpecInstruction::IfIcmpeq(x), pc) == Some(spec_decimal(pc + x)),
        forall|x: i16| #[trigger] spec_instruction_value(SpecInstruction::IfIcmpne(x), pc) == Some(spec_decimal(pc + x)),
        forall|x: i16| #[trigger] spec_instruction_value(SpecInstruction::IfIcmplt(x), pc) == Some(spec_decimal(pc + x)),
        forall|x: i16| #[trigger] spec_instruction_value(SpecInstruction::IfIcmpge(x), pc) == Some(spec_decimal(pc + x)),
        forall|x: i16| #[trigger] spec_instruction_value(SpecInstruction::IfIcmpgt(x), pc) == Some(spec_decimal(pc + x)),
        forall|x: i16| #[trigger] spec_instruction_value(SpecInstruction::IfIcmple(x), pc) == Some(spec_decimal(pc + x)),
        forall|x: i16| #[trigger] spec_instruction_value(SpecInstruction::Ifnonnull(x), pc) == Some(spec_decimal(pc + x)),
{
}


/// The lines of a `lookupswitch` table, one per pair in order: line `k` shows the match
/// of pair `k` and its absolute target, `pc` plus its offset.
pub proof fn lemma_lookup_lines(pairs: Seq<(i32, i32)>, pc: i32)
    ensures
        spec_lookup_lines(pairs, pc) == Seq::new(
            pairs.len(),
            |k: int| spec_switch_line(spec_decimal(pairs[k].0 as int), pc + pairs[k].1),
        ).flatten_alt(),
    decreases pairs.len(),
{
    let f = Seq::new(pairs.len(), |k: int| spec_switch_line(spec_decimal(pairs[k].0 as int), pc + pairs[k].1));
    if pairs.len() > 0 {
        let dl = pairs.drop_last();
        lemma_lookup_lines(dl, pc);
        assert(f.drop_last() =~= Seq::new(dl.len(), |k: int| spec_switch_line(spec_decimal(dl[k].0 as int), pc + dl[k].1)));
    } else {
        assert(f =~= Seq::<Seq<char>>::empty());
    }
}

/// The lines of a `tableswitch` table, one per offset in order: line `k` shows the key
/// `low + k` and the absolute target, `pc` plus offset `k`.
pub proof fn lemma_table_lines(offsets: Seq<i32>, low: i32, pc: i32)
    ensures
        spec_table_lines(offsets, low, pc) == Seq::new(
            offsets.len(),
            |k: int| spec_switch_line(spec_decimal(low + k), pc + offsets[k]),
        ).flatten_alt(),
    decreases offsets.len(),
{
    let f = Seq::new(offsets.len(), |k: int| spec_switch_line(spec_decimal(low + k), pc + offsets[k]));
    if offsets.len() > 0 {
        let dl = offsets.drop_last();
        lemma_table_lines(dl, low, pc);
        assert(f.drop_last() =~= Seq::new(dl.len(), |k: int| spec_switch_line(spec_decimal(low + k), pc + dl[k])));
    } else {
        assert(f =~= Seq::<Seq<char>>::empty());
    }
}

/// javap's text of a switch at `pc`, for every table: an opening line with the number of
/// pairs (`lookupswitch`) or the bounds (`tableswitch`), one line per case with its key and
/// its absolute target `pc + offset`, the default target `pc + default`, and a closing brace.
pub proof fn lemma_switch_texts(l: SpecLookupSwitch, t: SpecTableSwitch, pc: i32)
    ensures
        spec_instruction_value(SpecInstruction::Lookupswitch(l), pc) == Some(
            "{ // "@ + spec_decimal(l.pairs.len() as int) + "\n"@ + Seq::new(
                l.pairs.len(),
                |k: int| spec_switch_line(spec_decimal(l.pairs[k].0 as int), pc + l.pairs[k].1),
            ).flatten_alt() + spec_switch_line("default"@, pc + l.default_offset) + spec_pad_left("}"@, 7),
        ),
        spec_instruction_value(SpecInstruction::TableSwitch(t), pc) == Some(
            "{ // "@ + spec_decimal(t.low as int) + " to "@ + spec_decimal(t.high as int) + "\n"@ + Seq::new(
                t.offsets.len(),
                |k: int| spec_switch_line(spec_decimal(t.low + k), pc + t.offsets[k]),
            ).flatten_alt() + spec_switch_line("default"@, pc + t.default_offset) + spec_pad_left("}"@, 7),
        ),
{
    lemma_lookup_lines(l.pairs, pc);
    lemma_table_lines(t.offsets, t.low, pc);
}

} // verus!
