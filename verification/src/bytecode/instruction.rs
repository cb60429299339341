//! Decoded JVM bytecode instructions.

use super::opcode::{Opcode, spec_opcode_from_tag, spec_opcode_name};
use super::operand::{
    ArrayType, LookupSwitchData, SpecLookupSwitch, SpecTableSwitch, TableSwitchData,
    spec_array_type_from_tag,
};
use crate::cursor::{ByteCursor, avail, spec_i16, spec_i32, spec_i8, spec_u16, spec_u8};
use crate::constant_pool::entry::read_matches;
use crate::error::{ClassFormatErr, CursorError, InstructionErr, ReadError, SpecRead, SpecReadError, spec_eof};
use crate::read::lemma_read_seq_step_err;
use crate::read::{spec_read_seq, views, vec_matches};
use vstd::prelude::*;

verus! {

/// A fully decoded JVM bytecode instruction with its operands.
#[derive(Debug, Clone, PartialEq, Eq)]
pub enum Instruction {
    Aaload,
    Aastore,
    AconstNull,
    Aload(u8),
    Aload0,
    Aload1,
    Aload2,
    Aload3,
    Anewarray(u16),
    Areturn,
    ArrayLength,
    Astore(u8),
    Astore0,
    Astore1,
    Astore2,
    Astore3,
    Athrow,
    Baload,
    Bastore,
    Bipush(i8),
    Breakpoint,
    Caload,
    Castore,
    Checkcast(u16),
    D2f,
    D2i,
    D2l,
    Dadd,
    Daload,
    Dastore,
    Dcmpg,
    Dcmpl,
    Dconst0,
    Dconst1,
    Ddiv,
    Dload(u8),
    Dload0,
    Dload1,
    Dload2,
    Dload3,
    Dmul,
    Dneg,
    Drem,
    Dreturn,
    Dstore(u8),
    Dstore0,
    Dstore1,
    Dstore2,
    Dstore3,
    Dsub,
    Dup,
    Dup2,
    Dup2X1,
    Dup2X2,
    DupX1,
    DupX2,
    F2d,
    F2i,
    F2l,
    Fadd,
    Faload,
    Fastore,
    Fcmpg,
    Fcmpl,
    Fconst0,
    Fconst1,
    Fconst2,
    Fdiv,
    Fload(u8),
    Fload0,
    Fload1,
    Fload2,
    Fload3,
    Fmul,
    Fneg,
    Frem,
    Freturn,
    Fstore(u8),
    Fstore0,
    Fstore1,
    Fstore2,
    Fstore3,
    Fsub,
    Getfield(u16),
    Getstatic(u16),
    Goto(i16),
    GotoW(i32),
    I2b,
    I2c,
    I2d,
    I2f,
    I2l,
    I2s,
    Iadd,
    Iaload,
    Iand,
    Iastore,
    IconstM1,
    Iconst0,
    Iconst1,
    Iconst2,
    Iconst3,
    Iconst4,
    Iconst5,
    Idiv,
    IfAcmpEq(i16),
    IfAcmpNe(i16),
    IfEq(i16),
    IfGe(i16),
    IfGt(i16),
    IfIcmpeq(i16),
    IfIcmpge(i16),
    IfIcmpgt(i16),
    IfIcmple(i16),
    IfIcmplt(i16),
    IfIcmpne(i16),
    IfLe(i16),
    IfLt(i16),
    IfNe(i16),
    Ifnonnull(i16),
    Ifnull(i16),
    Iinc(u8, i8),
    Iload(u8),
    Iload0,
    Iload1,
    Iload2,
    Iload3,
    Imul,
    Ineg,
    Lookupswitch(LookupSwitchData),
    Instanceof(u16),
    InvokeDynamic(u16),
    InvokeInterface(u16, u8),
    InvokeSpecial(u16),
    InvokeStatic(u16),
    InvokeVirtual(u16),
    Ior,
    Irem,
    Ireturn,
    Ishl,
    Ishr,
    Istore(u8),
    Istore0,
    Istore1,
    Istore2,
    Istore3,
    Isub,
    Iushr,
    Ixor,
    Jsr(i16),
    JsrW(i32),
    L2d,
    L2f,
    L2i,
    Ladd,
    Laload,
    Land,
    Lastore,
    Lcmp,
    Lconst0,
    Lconst1,
    Ldc(u16),
    Ldc2W(u16),
    LdcW(u16),
    Ldiv,
    Lload(u8),
    Lload0,
    Lload1,
    Lload2,
    Lload3,
    Lmul,
    Lneg,
    Lor,
    Lrem,
    Lreturn,
    Lshl,
    Lshr,
    Lstore(u8),
    Lstore0,
    Lstore1,
    Lstore2,
    Lstore3,
    Lsub,
    Lushr,
    Lxor,
    Monitorenter,
    Monitorexit,
    Multianewarray(u16, u8),
    New(u16),
    Newarray(ArrayType),
    Nop,
    Pop,
    Pop2,
    Putfield(u16),
    Putstatic(u16),
    Ret(u8),
    Return,
    Saload,
    Sastore,
    Sipush(i16),
    Swap,
    Impdep1,
    Impdep2,
    TableSwitch(TableSwitchData),
}

/// Mathematical counterpart of [`Instruction`].
pub enum SpecInstruction {
    Aaload,
    Aastore,
    AconstNull,
    Aload(u8),
    Aload0,
    Aload1,
    Aload2,
    Aload3,
    Anewarray(u16),
    Areturn,
    ArrayLength,
    Astore(u8),
    Astore0,
    Astore1,
    Astore2,
    Astore3,
    Athrow,
    Baload,
    Bastore,
    Bipush(i8),
    Breakpoint,
    Caload,
    Castore,
    Checkcast(u16),
    D2f,
    D2i,
    D2l,
    Dadd,
    Daload,
    Dastore,
    Dcmpg,
    Dcmpl,
    Dconst0,
    Dconst1,
    Ddiv,
    Dload(u8),
    Dload0,
    Dload1,
    Dload2,
    Dload3,
    Dmul,
    Dneg,
    Drem,
    Dreturn,
    Dstore(u8),
    Dstore0,
    Dstore1,
    Dstore2,
    Dstore3,
    Dsub,
    Dup,
    Dup2,
    Dup2X1,
    Dup2X2,
    DupX1,
    DupX2,
    F2d,
    F2i,
    F2l,
    Fadd,
    Faload,
    Fastore,
    Fcmpg,
    Fcmpl,
    Fconst0,
    Fconst1,
    Fconst2,
    Fdiv,
    Fload(u8),
    Fload0,
    Fload1,
    Fload2,
    Fload3,
    Fmul,
    Fneg,
    Frem,
    Freturn,
    Fstore(u8),
    Fstore0,
    Fstore1,
    Fstore2,
    Fstore3,
    Fsub,
    Getfield(u16),
    Getstatic(u16),
    Goto(i16),
    GotoW(i32),
    I2b,
    I2c,
    I2d,
    I2f,
    I2l,
    I2s,
    Iadd,
    Iaload,
    Iand,
    Iastore,
    IconstM1,
    Iconst0,
    Iconst1,
    Iconst2,
    Iconst3,
    Iconst4,
    Iconst5,
    Idiv,
    IfAcmpEq(i16),
    IfAcmpNe(i16),
    IfEq(i16),
    IfGe(i16),
    IfGt(i16),
    IfIcmpeq(i16),
    IfIcmpge(i16),
    IfIcmpgt(i16),
    IfIcmple(i16),
    IfIcmplt(i16),
    IfIcmpne(i16),
    IfLe(i16),
    IfLt(i16),
    IfNe(i16),
    Ifnonnull(i16),
    Ifnull(i16),
    Iinc(u8, i8),
    Iload(u8),
    Iload0,
    Iload1,
    Iload2,
    Iload3,
    Imul,
    Ineg,
    Lookupswitch(SpecLookupSwitch),
    Instanceof(u16),
    InvokeDynamic(u16),
    InvokeInterface(u16, u8),
    InvokeSpecial(u16),
    InvokeStatic(u16),
    InvokeVirtual(u16),
    Ior,
    Irem,
    Ireturn,
    Ishl,
    Ishr,
    Istore(u8),
    Istore0,
    Istore1,
    Istore2,
    Istore3,
    Isub,
    Iushr,
    Ixor,
    Jsr(i16),
    JsrW(i32),
    L2d,
    L2f,
    L2i,
    Ladd,
    Laload,
    Land,
    Lastore,
    Lcmp,
    Lconst0,
    Lconst1,
    Ldc(u16),
    Ldc2W(u16),
    LdcW(u16),
    Ldiv,
    Lload(u8),
    Lload0,
    Lload1,
    Lload2,
    Lload3,
    Lmul,
    Lneg,
    Lor,
    Lrem,
    Lreturn,
    Lshl,
    Lshr,
    Lstore(u8),
    Lstore0,
    Lstore1,
    Lstore2,
    Lstore3,
    Lsub,
    Lushr,
    Lxor,
    Monitorenter,
    Monitorexit,
    Multianewarray(u16, u8),
    New(u16),
    Newarray(ArrayType),
    Nop,
    Pop,
    Pop2,
    Putfield(u16),
    Putstatic(u16),
    Ret(u8),
    Return,
    Saload,
    Sastore,
    Sipush(i16),
    Swap,
    Impdep1,
    Impdep2,
    TableSwitch(SpecTableSwitch),
}

impl View for Instruction {
    type V = SpecInstruction;

    open spec fn view(&self) -> SpecInstruction {
        match self {
            Instruction::Aaload => SpecInstruction::Aaload,
            Instruction::Aastore => SpecInstruction::Aastore,
            Instruction::AconstNull => SpecInstruction::AconstNull,
            Instruction::Aload(a) => SpecInstruction::Aload(*a),
            Instruction::Aload0 => SpecInstruction::Aload0,
            Instruction::Aload1 => SpecInstruction::Aload1,
            Instruction::Aload2 => SpecInstruction::Aload2,
            Instruction::Aload3 => SpecInstruction::Aload3,
            Instruction::Anewarray(a) => SpecInstruction::Anewarray(*a),
            Instruction::Areturn => SpecInstruction::Areturn,
            Instruction::ArrayLength => SpecInstruction::ArrayLength,
            Instruction::Astore(a) => SpecInstruction::Astore(*a),
            Instruction::Astore0 => SpecInstruction::Astore0,
            Instruction::Astore1 => SpecInstruction::Astore1,
            Instruction::Astore2 => SpecInstruction::Astore2,
            Instruction::Astore3 => SpecInstruction::Astore3,
            Instruction::Athrow => SpecInstruction::Athrow,
            Instruction::Baload => SpecInstruction::Baload,
            Instruction::Bastore => SpecInstruction::Bastore,
            Instruction::Bipush(a) => SpecInstruction::Bipush(*a),
            Instruction::Breakpoint => SpecInstruction::Breakpoint,
            Instruction::Caload => SpecInstruction::Caload,
            Instruction::Castore => SpecInstruction::Castore,
            Instruction::Checkcast(a) => SpecInstruction::Checkcast(*a),
            Instruction::D2f => SpecInstruction::D2f,
            Instruction::D2i => SpecInstruction::D2i,
            Instruction::D2l => SpecInstruction::D2l,
            Instruction::Dadd => SpecInstruction::Dadd,
            Instruction::Daload => SpecInstruction::Daload,
            Instruction::Dastore => SpecInstruction::Dastore,
            Instruction::Dcmpg => SpecInstruction::Dcmpg,
            Instruction::Dcmpl => SpecInstruction::Dcmpl,
            Instruction::Dconst0 => SpecInstruction::Dconst0,
            Instruction::Dconst1 => SpecInstruction::Dconst1,
            Instruction::Ddiv => SpecInstruction::Ddiv,
            Instruction::Dload(a) => SpecInstruction::Dload(*a),
            Instruction::Dload0 => SpecInstruction::Dload0,
            Instruction::Dload1 => SpecInstruction::Dload1,
            Instruction::Dload2 => SpecInstruction::Dload2,
            Instruction::Dload3 => SpecInstruction::Dload3,
            Instruction::Dmul => SpecInstruction::Dmul,
            Instruction::Dneg => SpecInstruction::Dneg,
            Instruction::Drem => SpecInstruction::Drem,
            Instruction::Dreturn => SpecInstruction::Dreturn,
            Instruction::Dstore(a) => SpecInstruction::Dstore(*a),
            Instruction::Dstore0 => SpecInstruction::Dstore0,
            Instruction::Dstore1 => SpecInstruction::Dstore1,
            Instruction::Dstore2 => SpecInstruction::Dstore2,
            Instruction::Dstore3 => SpecInstruction::Dstore3,
            Instruction::Dsub => SpecInstruction::Dsub,
            Instruction::Dup => SpecInstruction::Dup,
            Instruction::Dup2 => SpecInstruction::Dup2,
            Instruction::Dup2X1 => SpecInstruction::Dup2X1,
            Instruction::Dup2X2 => SpecInstruction::Dup2X2,
            Instruction::DupX1 => SpecInstruction::DupX1,
            Instruction::DupX2 => SpecInstruction::DupX2,
            Instruction::F2d => SpecInstruction::F2d,
            Instruction::F2i => SpecInstruction::F2i,
            Instruction::F2l => SpecInstruction::F2l,
            Instruction::Fadd => SpecInstruction::Fadd,
            Instruction::Faload => SpecInstruction::Faload,
            Instruction::Fastore => SpecInstruction::Fastore,
            Instruction::Fcmpg => SpecInstruction::Fcmpg,
            Instruction::Fcmpl => SpecInstruction::Fcmpl,
            Instruction::Fconst0 => SpecInstruction::Fconst0,
            Instruction::Fconst1 => SpecInstruction::Fconst1,
            Instruction::Fconst2 => SpecInstruction::Fconst2,
            Instruction::Fdiv => SpecInstruction::Fdiv,
            Instruction::Fload(a) => SpecInstruction::Fload(*a),
            Instruction::Fload0 => SpecInstruction::Fload0,
            Instruction::Fload1 => SpecInstruction::Fload1,
            Instruction::Fload2 => SpecInstruction::Fload2,
            Instruction::Fload3 => SpecInstruction::Fload3,
            Instruction::Fmul => SpecInstruction::Fmul,
            Instruction::Fneg => SpecInstruction::Fneg,
            Instruction::Frem => SpecInstruction::Frem,
            Instruction::Freturn => SpecInstruction::Freturn,
            Instruction::Fstore(a) => SpecInstruction::Fstore(*a),
            Instruction::Fstore0 => SpecInstruction::Fstore0,
            Instruction::Fstore1 => SpecInstruction::Fstore1,
            Instruction::Fstore2 => SpecInstruction::Fstore2,
            Instruction::Fstore3 => SpecInstruction::Fstore3,
            Instruction::Fsub => SpecInstruction::Fsub,
            Instruction::Getfield(a) => SpecInstruction::Getfield(*a),
            Instruction::Getstatic(a) => SpecInstruction::Getstatic(*a),
            Instruction::Goto(a) => SpecInstruction::Goto(*a),
            Instruction::GotoW(a) => SpecInstruction::GotoW(*a),
            Instruction::I2b => SpecInstruction::I2b,
            Instruction::I2c => SpecInstruction::I2c,
            Instruction::I2d => SpecInstruction::I2d,
            Instruction::I2f => SpecInstruction::I2f,
            Instruction::I2l => SpecInstruction::I2l,
            Instruction::I2s => SpecInstruction::I2s,
            Instruction::Iadd => SpecInstruction::Iadd,
            Instruction::Iaload => SpecInstruction::Iaload,
            Instruction::Iand => SpecInstruction::Iand,
            Instruction::Iastore => SpecInstruction::Iastore,
            Instruction::IconstM1 => SpecInstruction::IconstM1,
            Instruction::Iconst0 => SpecInstruction::Iconst0,
            Instruction::Iconst1 => SpecInstruction::Iconst1,
            Instruction::Iconst2 => SpecInstruction::Iconst2,
            Instruction::Iconst3 => SpecInstruction::Iconst3,
            Instruction::Iconst4 => SpecInstruction::Iconst4,
            Instruction::Iconst5 => SpecInstruction::Iconst5,
            Instruction::Idiv => SpecInstruction::Idiv,
            Instruction::IfAcmpEq(a) => SpecInstruction::IfAcmpEq(*a),
            Instruction::IfAcmpNe(a) => SpecInstruction::IfAcmpNe(*a),
            Instruction::IfEq(a) => SpecInstruction::IfEq(*a),
            Instruction::IfGe(a) => SpecInstruction::IfGe(*a),
            Instruction::IfGt(a) => SpecInstruction::IfGt(*a),
            Instruction::IfIcmpeq(a) => SpecInstruction::IfIcmpeq(*a),
            Instruction::IfIcmpge(a) => SpecInstruction::IfIcmpge(*a),
            Instruction::IfIcmpgt(a) => SpecInstruction::IfIcmpgt(*a),
            Instruction::IfIcmple(a) => SpecInstruction::IfIcmple(*a),
            Instruction::IfIcmplt(a) => SpecInstruction::IfIcmplt(*a),
            Instruction::IfIcmpne(a) => SpecInstruction::IfIcmpne(*a),
            Instruction::IfLe(a) => SpecInstruction::IfLe(*a),
            Instruction::IfLt(a) => SpecInstruction::IfLt(*a),
            Instruction::IfNe(a) => SpecInstruction::IfNe(*a),
            Instruction::Ifnonnull(a) => SpecInstruction::Ifnonnull(*a),
            Instruction::Ifnull(a) => SpecInstruction::Ifnull(*a),
            Instruction::Iinc(a, b) => SpecInstruction::Iinc(*a, *b),
            Instruction::Iload(a) => SpecInstruction::Iload(*a),
            Instruction::Iload0 => SpecInstruction::Iload0,
            Instruction::Iload1 => SpecInstruction::Iload1,
            Instruction::Iload2 => SpecInstruction::Iload2,
            Instruction::Iload3 => SpecInstruction::Iload3,
            Instruction::Imul => SpecInstruction::Imul,
            Instruction::Ineg => SpecInstruction::Ineg,
            Instruction::Lookupswitch(d) => SpecInstruction::Lookupswitch(d@),
            Instruction::Instanceof(a) => SpecInstruction::Instanceof(*a),
            Instruction::InvokeDynamic(a) => SpecInstruction::InvokeDynamic(*a),
            Instruction::InvokeInterface(a, b) => SpecInstruction::InvokeInterface(*a, *b),
            Instruction::InvokeSpecial(a) => SpecInstruction::InvokeSpecial(*a),
            Instruction::InvokeStatic(a) => SpecInstruction::InvokeStatic(*a),
            Instruction::InvokeVirtual(a) => SpecInstruction::InvokeVirtual(*a),
            Instruction::Ior => SpecInstruction::Ior,
            Instruction::Irem => SpecInstruction::Irem,
            Instruction::Ireturn => SpecInstruction::Ireturn,
            Instruction::Ishl => SpecInstruction::Ishl,
            Instruction::Ishr => SpecInstruction::Ishr,
            Instruction::Istore(a) => SpecInstruction::Istore(*a),
            Instruction::Istore0 => SpecInstruction::Istore0,
            Instruction::Istore1 => SpecInstruction::Istore1,
            Instruction::Istore2 => SpecInstruction::Istore2,
            Instruction::Istore3 => SpecInstruction::Istore3,
            Instruction::Isub => SpecInstruction::Isub,
            Instruction::Iushr => SpecInstruction::Iushr,
            Instruction::Ixor => SpecInstruction::Ixor,
            Instruction::Jsr(a) => SpecInstruction::Jsr(*a),
            Instruction::JsrW(a) => SpecInstruction::JsrW(*a),
            Instruction::L2d => SpecInstruction::L2d,
            Instruction::L2f => SpecInstruction::L2f,
            Instruction::L2i => SpecInstruction::L2i,
            Instruction::Ladd => SpecInstruction::Ladd,
            Instruction::Laload => SpecInstruction::Laload,
            Instruction::Land => SpecInstruction::Land,
            Instruction::Lastore => SpecInstruction::Lastore,
            Instruction::Lcmp => SpecInstruction::Lcmp,
            Instruction::Lconst0 => SpecInstruction::Lconst0,
            Instruction::Lconst1 => SpecInstruction::Lconst1,
            Instruction::Ldc(a) => SpecInstruction::Ldc(*a),
            Instruction::Ldc2W(a) => SpecInstruction::Ldc2W(*a),
            Instruction::LdcW(a) => SpecInstruction::LdcW(*a),
            Instruction::Ldiv => SpecInstruction::Ldiv,
            Instruction::Lload(a) => SpecInstruction::Lload(*a),
            Instruction::Lload0 => SpecInstruction::Lload0,
            Instruction::Lload1 => SpecInstruction::Lload1,
            Instruction::Lload2 => SpecInstruction::Lload2,
            Instruction::Lload3 => SpecInstruction::Lload3,
            Instruction::Lmul => SpecInstruction::Lmul,
            Instruction::Lneg => SpecInstruction::Lneg,
            Instruction::Lor => SpecInstruction::Lor,
            Instruction::Lrem => SpecInstruction::Lrem,
            Instruction::Lreturn => SpecInstruction::Lreturn,
            Instruction::Lshl => SpecInstruction::Lshl,
            Instruction::Lshr => SpecInstruction::Lshr,
            Instruction::Lstore(a) => SpecInstruction::Lstore(*a),
            Instruction::Lstore0 => SpecInstruction::Lstore0,
            Instruction::Lstore1 => SpecInstruction::Lstore1,
            Instruction::Lstore2 => SpecInstruction::Lstore2,
            Instruction::Lstore3 => SpecInstruction::Lstore3,
            Instruction::Lsub => SpecInstruction::Lsub,
            Instruction::Lushr => SpecInstruction::Lushr,
            Instruction::Lxor => SpecInstruction::Lxor,
            Instruction::Monitorenter => SpecInstruction::Monitorenter,
            Instruction::Monitorexit => SpecInstruction::Monitorexit,
            Instruction::Multianewarray(a, b) => SpecInstruction::Multianewarray(*a, *b),
            Instruction::New(a) => SpecInstruction::New(*a),
            Instruction::Newarray(a) => SpecInstruction::Newarray(*a),
            Instruction::Nop => SpecInstruction::Nop,
            Instruction::Pop => SpecInstruction::Pop,
            Instruction::Pop2 => SpecInstruction::Pop2,
            Instruction::Putfield(a) => SpecInstruction::Putfield(*a),
            Instruction::Putstatic(a) => SpecInstruction::Putstatic(*a),
            Instruction::Ret(a) => SpecInstruction::Ret(*a),
            Instruction::Return => SpecInstruction::Return,
            Instruction::Saload => SpecInstruction::Saload,
            Instruction::Sastore => SpecInstruction::Sastore,
            Instruction::Sipush(a) => SpecInstruction::Sipush(*a),
            Instruction::Swap => SpecInstruction::Swap,
            Instruction::Impdep1 => SpecInstruction::Impdep1,
            Instruction::Impdep2 => SpecInstruction::Impdep2,
            Instruction::TableSwitch(d) => SpecInstruction::TableSwitch(d@),
        }
    }
}

/// The opcode of an instruction; the reserved `impdep1` and `impdep2` have none.
pub open spec fn spec_instruction_opcode(i: SpecInstruction) -> Option<Opcode> {
    match i {
        SpecInstruction::Aaload => Some(Opcode::Aaload),
        SpecInstruction::Aastore => Some(Opcode::Aastore),
        SpecInstruction::AconstNull => Some(Opcode::AconstNull),
        SpecInstruction::Aload(_) => Some(Opcode::Aload),
        SpecInstruction::Aload0 => Some(Opcode::Aload0),
        SpecInstruction::Aload1 => Some(Opcode::Aload1),
        SpecInstruction::Aload2 => Some(Opcode::Aload2),
        SpecInstruction::Aload3 => Some(Opcode::Aload3),
        SpecInstruction::Anewarray(_) => Some(Opcode::Anewarray),
        SpecInstruction::Areturn => Some(Opcode::Areturn),
        SpecInstruction::ArrayLength => Some(Opcode::ArrayLength),
        SpecInstruction::Astore(_) => Some(Opcode::Astore),
        SpecInstruction::Astore0 => Some(Opcode::Astore0),
        SpecInstruction::Astore1 => Some(Opcode::Astore1),
        SpecInstruction::Astore2 => Some(Opcode::Astore2),
        SpecInstruction::Astore3 => Some(Opcode::Astore3),
        SpecInstruction::Athrow => Some(Opcode::Athrow),
        SpecInstruction::Baload => Some(Opcode::Baload),
        SpecInstruction::Bastore => Some(Opcode::Bastore),
        SpecInstruction::Bipush(_) => Some(Opcode::Bipush),
        SpecInstruction::Breakpoint => Some(Opcode::Breakpoint),
        SpecInstruction::Caload => Some(Opcode::Caload),
        SpecInstruction::Castore => Some(Opcode::Castore),
        SpecInstruction::Checkcast(_) => Some(Opcode::Checkcast),
        SpecInstruction::D2f => Some(Opcode::D2f),
        SpecInstruction::D2i => Some(Opcode::D2i),
        SpecInstruction::D2l => Some(Opcode::D2l),
        SpecInstruction::Dadd => Some(Opcode::Dadd),
        SpecInstruction::Daload => Some(Opcode::Daload),
        SpecInstruction::Dastore => Some(Opcode::Dastore),
        SpecInstruction::Dcmpg => Some(Opcode::Dcmpg),
        SpecInstruction::Dcmpl => Some(Opcode::Dcmpl),
        SpecInstruction::Dconst0 => Some(Opcode::Dconst0),
        SpecInstruction::Dconst1 => Some(Opcode::Dconst1),
        SpecInstruction::Ddiv => Some(Opcode::Ddiv),
        SpecInstruction::Dload(_) => Some(Opcode::Dload),
        SpecInstruction::Dload0 => Some(Opcode::Dload0),
        SpecInstruction::Dload1 => Some(Opcode::Dload1),
        SpecInstruction::Dload2 => Some(Opcode::Dload2),
        SpecInstruction::Dload3 => Some(Opcode::Dload3),
        SpecInstruction::Dmul => Some(Opcode::Dmul),
        SpecInstruction::Dneg => Some(Opcode::Dneg),
        SpecInstruction::Drem => Some(Opcode::Drem),
        SpecInstruction::Dreturn => Some(Opcode::Dreturn),
        SpecInstruction::Dstore(_) => Some(Opcode::Dstore),
        SpecInstruction::Dstore0 => Some(Opcode::Dstore0),
        SpecInstruction::Dstore1 => Some(Opcode::Dstore1),
        SpecInstruction::Dstore2 => Some(Opcode::Dstore2),
        SpecInstruction::Dstore3 => Some(Opcode::Dstore3),
        SpecInstruction::Dsub => Some(Opcode::Dsub),
        SpecInstruction::Dup => Some(Opcode::Dup),
        SpecInstruction::Dup2 => Some(Opcode::Dup2),
        SpecInstruction::Dup2X1 => Some(Opcode::Dup2X1),
        SpecInstruction::Dup2X2 => Some(Opcode::Dup2X2),
        SpecInstruction::DupX1 => Some(Opcode::DupX1),
        SpecInstruction::DupX2 => Some(Opcode::DupX2),
        SpecInstruction::F2d => Some(Opcode::F2d),
        SpecInstruction::F2i => Some(Opcode::F2i),
        SpecInstruction::F2l => Some(Opcode::F2l),
        SpecInstruction::Fadd => Some(Opcode::Fadd),
        SpecInstruction::Faload => Some(Opcode::Faload),
        SpecInstruction::Fastore => Some(Opcode::Fastore),
        SpecInstruction::Fcmpg => Some(Opcode::Fcmpg),
        SpecInstruction::Fcmpl => Some(Opcode::Fcmpl),
        SpecInstruction::Fconst0 => Some(Opcode::Fconst0),
        SpecInstruction::Fconst1 => Some(Opcode::Fconst1),
        SpecInstruction::Fconst2 => Some(Opcode::Fconst2),
        SpecInstruction::Fdiv => Some(Opcode::Fdiv),
        SpecInstruction::Fload(_) => Some(Opcode::Fload),
        SpecInstruction::Fload0 => Some(Opcode::Fload0),
        SpecInstruction::Fload1 => Some(Opcode::Fload1),
        SpecInstruction::Fload2 => Some(Opcode::Fload2),
        SpecInstruction::Fload3 => Some(Opcode::Fload3),
        SpecInstruction::Fmul => Some(Opcode::Fmul),
        SpecInstruction::Fneg => Some(Opcode::Fneg),
        SpecInstruction::Frem => Some(Opcode::Frem),
        SpecInstruction::Freturn => Some(Opcode::Freturn),
        SpecInstruction::Fstore(_) => Some(Opcode::Fstore),
        SpecInstruction::Fstore0 => Some(Opcode::Fstore0),
        SpecInstruction::Fstore1 => Some(Opcode::Fstore1),
        SpecInstruction::Fstore2 => Some(Opcode::Fstore2),
        SpecInstruction::Fstore3 => Some(Opcode::Fstore3),
        SpecInstruction::Fsub => Some(Opcode::Fsub),
        SpecInstruction::Getfield(_) => Some(Opcode::Getfield),
        SpecInstruction::Getstatic(_) => Some(Opcode::Getstatic),
        SpecInstruction::Goto(_) => Some(Opcode::Goto),
        SpecInstruction::GotoW(_) => Some(Opcode::GotoW),
        SpecInstruction::I2b => Some(Opcode::I2b),
        SpecInstruction::I2c => Some(Opcode::I2c),
        SpecInstruction::I2d => Some(Opcode::I2d),
        SpecInstruction::I2f => Some(Opcode::I2f),
        SpecInstruction::I2l => Some(Opcode::I2l),
        SpecInstruction::I2s => Some(Opcode::I2s),
        SpecInstruction::Iadd => Some(Opcode::Iadd),
        SpecInstruction::Iaload => Some(Opcode::Iaload),
        SpecInstruction::Iand => Some(Opcode::Iand),
        SpecInstruction::Iastore => Some(Opcode::Iastore),
        SpecInstruction::IconstM1 => Some(Opcode::IconstM1),
        SpecInstruction::Iconst0 => Some(Opcode::Iconst0),
        SpecInstruction::Iconst1 => Some(Opcode::Iconst1),
        SpecInstruction::Iconst2 => Some(Opcode::Iconst2),
        SpecInstruction::Iconst3 => Some(Opcode::Iconst3),
        SpecInstruction::Iconst4 => Some(Opcode::Iconst4),
        SpecInstruction::Iconst5 => Some(Opcode::Iconst5),
        SpecInstruction::Idiv => Some(Opcode::Idiv),
        SpecInstruction::IfAcmpEq(_) => Some(Opcode::IfAcmpEq),
        SpecInstruction::IfAcmpNe(_) => Some(Opcode::IfAcmpNe),
        SpecInstruction::IfEq(_) => Some(Opcode::IfEq),
        SpecInstruction::IfGe(_) => Some(Opcode::IfGe),
        SpecInstruction::IfGt(_) => Some(Opcode::IfGt),
        SpecInstruction::IfIcmpeq(_) => Some(Opcode::IfIcmpeq),
        SpecInstruction::IfIcmpge(_) => Some(Opcode::IfIcmpge),
        SpecInstruction::IfIcmpgt(_) => Some(Opcode::IfIcmpgt),
        SpecInstruction::IfIcmple(_) => Some(Opcode::IfIcmple),
        SpecInstruction::IfIcmplt(_) => Some(Opcode::IfIcmplt),
        SpecInstruction::IfIcmpne(_) => Some(Opcode::IfIcmpne),
        SpecInstruction::IfLe(_) => Some(Opcode::IfLe),
        SpecInstruction::IfLt(_) => Some(Opcode::IfLt),
        SpecInstruction::IfNe(_) => Some(Opcode::IfNe),
        SpecInstruction::Ifnonnull(_) => Some(Opcode::Ifnonnull),
        SpecInstruction::Ifnull(_) => Some(Opcode::Ifnull),
        SpecInstruction::Iinc(_, _) => Some(Opcode::Iinc),
        SpecInstruction::Iload(_) => Some(Opcode::Iload),
        SpecInstruction::Iload0 => Some(Opcode::Iload0),
        SpecInstruction::Iload1 => Some(Opcode::Iload1),
        SpecInstruction::Iload2 => Some(Opcode::Iload2),
        SpecInstruction::Iload3 => Some(Opcode::Iload3),
        SpecInstruction::Imul => Some(Opcode::Imul),
        SpecInstruction::Ineg => Some(Opcode::Ineg),
        SpecInstruction::Lookupswitch(_) => Some(Opcode::Lookupswitch),
        SpecInstruction::Instanceof(_) => Some(Opcode::Instanceof),
        SpecInstruction::InvokeDynamic(_) => Some(Opcode::InvokeDynamic),
        SpecInstruction::InvokeInterface(_, _) => Some(Opcode::InvokeInterface),
        SpecInstruction::InvokeSpecial(_) => Some(Opcode::InvokeSpecial),
        SpecInstruction::InvokeStatic(_) => Some(Opcode::InvokeStatic),
        SpecInstruction::InvokeVirtual(_) => Some(Opcode::InvokeVirtual),
        SpecInstruction::Ior => Some(Opcode::Ior),
        SpecInstruction::Irem => Some(Opcode::Irem),
        SpecInstruction::Ireturn => Some(Opcode::Ireturn),
        SpecInstruction::Ishl => Some(Opcode::Ishl),
        SpecInstruction::Ishr => Some(Opcode::Ishr),
        SpecInstruction::Istore(_) => Some(Opcode::Istore),
        SpecInstruction::Istore0 => Some(Opcode::Istore0),
        SpecInstruction::Istore1 => Some(Opcode::Istore1),
        SpecInstruction::Istore2 => Some(Opcode::Istore2),
        SpecInstruction::Istore3 => Some(Opcode::Istore3),
        SpecInstruction::Isub => Some(Opcode::Isub),
        SpecInstruction::Iushr => Some(Opcode::Iushr),
        SpecInstruction::Ixor => Some(Opcode::Ixor),
        SpecInstruction::Jsr(_) => Some(Opcode::Jsr),
        SpecInstruction::JsrW(_) => Some(Opcode::JsrW),
        SpecInstruction::L2d => Some(Opcode::L2d),
        SpecInstruction::L2f => Some(Opcode::L2f),
        SpecInstruction::L2i => Some(Opcode::L2i),
        SpecInstruction::Ladd => Some(Opcode::Ladd),
        SpecInstruction::Laload => Some(Opcode::Laload),
        SpecInstruction::Land => Some(Opcode::Land),
        SpecInstruction::Lastore => Some(Opcode::Lastore),
        SpecInstruction::Lcmp => Some(Opcode::Lcmp),
        SpecInstruction::Lconst0 => Some(Opcode::Lconst0),
        SpecInstruction::Lconst1 => Some(Opcode::Lconst1),
        SpecInstruction::Ldc(_) => Some(Opcode::Ldc),
        SpecInstruction::Ldc2W(_) => Some(Opcode::Ldc2W),
        SpecInstruction::LdcW(_) => Some(Opcode::LdcW),
        SpecInstruction::Ldiv => Some(Opcode::Ldiv),
        SpecInstruction::Lload(_) => Some(Opcode::Lload),
        SpecInstruction::Lload0 => Some(Opcode::Lload0),
        SpecInstruction::Lload1 => Some(Opcode::Lload1),
        SpecInstruction::Lload2 => Some(Opcode::Lload2),
        SpecInstruction::Lload3 => Some(Opcode::Lload3),
        SpecInstruction::Lmul => Some(Opcode::Lmul),
        SpecInstruction::Lneg => Some(Opcode::Lneg),
        SpecInstruction::Lor => Some(Opcode::Lor),
        SpecInstruction::Lrem => Some(Opcode::Lrem),
        SpecInstruction::Lreturn => Some(Opcode::Lreturn),
        SpecInstruction::Lshl => Some(Opcode::Lshl),
        SpecInstruction::Lshr => Some(Opcode::Lshr),
        SpecInstruction::Lstore(_) => Some(Opcode::Lstore),
        SpecInstruction::Lstore0 => Some(Opcode::Lstore0),
        SpecInstruction::Lstore1 => Some(Opcode::Lstore1),
        SpecInstruction::Lstore2 => Some(Opcode::Lstore2),
        SpecInstruction::Lstore3 => Some(Opcode::Lstore3),
        SpecInstruction::Lsub => Some(Opcode::Lsub),
        SpecInstruction::Lushr => Some(Opcode::Lushr),
        SpecInstruction::Lxor => Some(Opcode::Lxor),
        SpecInstruction::Monitorenter => Some(Opcode::Monitorenter),
        SpecInstruction::Monitorexit => Some(Opcode::Monitorexit),
        SpecInstruction::Multianewarray(_, _) => Some(Opcode::Multianewarray),
        SpecInstruction::New(_) => Some(Opcode::New),
        SpecInstruction::Newarray(_) => Some(Opcode::Newarray),
        SpecInstruction::Nop => Some(Opcode::Nop),
        SpecInstruction::Pop => Some(Opcode::Pop),
        SpecInstruction::Pop2 => Some(Opcode::Pop2),
        SpecInstruction::Putfield(_) => Some(Opcode::Putfield),
        SpecInstruction::Putstatic(_) => Some(Opcode::Putstatic),
        SpecInstruction::Ret(_) => Some(Opcode::Ret),
        SpecInstruction::Return => Some(Opcode::Return),
        SpecInstruction::Saload => Some(Opcode::Saload),
        SpecInstruction::Sastore => Some(Opcode::Sastore),
        SpecInstruction::Sipush(_) => Some(Opcode::Sipush),
        SpecInstruction::Swap => Some(Opcode::Swap),
        SpecInstruction::Impdep1 => None,
        SpecInstruction::Impdep2 => None,
        SpecInstruction::TableSwitch(_) => Some(Opcode::TableSwitch),
    }
}

/// The mnemonic of an instruction.
pub open spec fn spec_instruction_name(i: SpecInstruction) -> Seq<char> {
    match i {
        SpecInstruction::Impdep1 => "impdep1"@,
        SpecInstruction::Impdep2 => "impdep2"@,
        _ => spec_opcode_name(spec_instruction_opcode(i)->0),
    }
}

/// Whether an instruction transfers control to an offset it names.
pub open spec fn spec_is_branch(i: SpecInstruction) -> bool {
    ||| i is Goto
    ||| i is GotoW
    ||| i is IfAcmpEq
    ||| i is IfAcmpNe
    ||| i is IfEq
    ||| i is IfGe
    ||| i is IfGt
    ||| i is IfIcmpeq
    ||| i is IfIcmpge
    ||| i is IfIcmpgt
    ||| i is IfIcmple
    ||| i is IfIcmplt
    ||| i is IfIcmpne
    ||| i is IfLe
    ||| i is IfLt
    ||| i is IfNe
    ||| i is Ifnonnull
    ||| i is Ifnull
    ||| i is Lookupswitch
    ||| i is Jsr
    ||| i is JsrW
    ||| i is TableSwitch
}

/// The number of bytes that encode an instruction, operands and padding included.
pub open spec fn spec_encoded_len(i: SpecInstruction) -> int {
    match i {
        SpecInstruction::Lookupswitch(d) => 1 + d.padding + 8 + 8 * d.pairs.len(),
        SpecInstruction::TableSwitch(d) => 1 + d.padding + 12 + 4 * d.offsets.len(),
        SpecInstruction::GotoW(_)
        | SpecInstruction::InvokeDynamic(_)
        | SpecInstruction::InvokeInterface(_, _)
        | SpecInstruction::JsrW(_) => 5,
        SpecInstruction::Multianewarray(_, _) => 4,
        SpecInstruction::Anewarray(_)
        | SpecInstruction::Checkcast(_)
        | SpecInstruction::Getfield(_)
        | SpecInstruction::Getstatic(_)
        | SpecInstruction::Goto(_)
        | SpecInstruction::IfAcmpEq(_)
        | SpecInstruction::IfAcmpNe(_)
        | SpecInstruction::IfEq(_)
        | SpecInstruction::IfGe(_)
        | SpecInstruction::IfGt(_)
        | SpecInstruction::IfIcmpeq(_)
        | SpecInstruction::IfIcmpge(_)
        | SpecInstruction::IfIcmpgt(_)
        | SpecInstruction::IfIcmple(_)
        | SpecInstruction::IfIcmplt(_)
        | SpecInstruction::IfIcmpne(_)
        | SpecInstruction::IfLe(_)
        | SpecInstruction::IfLt(_)
        | SpecInstruction::IfNe(_)
        | SpecInstruction::Ifnonnull(_)
        | SpecInstruction::Ifnull(_)
        | SpecInstruction::Iinc(_, _)
        | SpecInstruction::Instanceof(_)
        | SpecInstruction::InvokeSpecial(_)
        | SpecInstruction::InvokeStatic(_)
        | SpecInstruction::InvokeVirtual(_)
        | SpecInstruction::Jsr(_)
        | SpecInstruction::Ldc2W(_)
        | SpecInstruction::LdcW(_)
        | SpecInstruction::New(_)
        | SpecInstruction::Putfield(_)
        | SpecInstruction::Putstatic(_)
        | SpecInstruction::Sipush(_) => 3,
        SpecInstruction::Aload(_)
        | SpecInstruction::Astore(_)
        | SpecInstruction::Bipush(_)
        | SpecInstruction::Dload(_)
        | SpecInstruction::Dstore(_)
        | SpecInstruction::Fload(_)
        | SpecInstruction::Fstore(_)
        | SpecInstruction::Iload(_)
        | SpecInstruction::Istore(_)
        | SpecInstruction::Ldc(_)
        | SpecInstruction::Lload(_)
        | SpecInstruction::Lstore(_)
        | SpecInstruction::Newarray(_)
        | SpecInstruction::Ret(_) => 2,
        _ => 1,
    }
}

/// What [`Instruction::byte_size`] computes: the encoded length, where the number of
/// switch entries is first truncated to 16 bits.
pub open spec fn spec_byte_size(i: SpecInstruction) -> int {
    match i {
        SpecInstruction::Lookupswitch(d) => 1 + d.padding + 8 + 8 * (d.pairs.len() % 0x10000),
        SpecInstruction::TableSwitch(d) => 1 + d.padding + 12 + 4 * (d.offsets.len() % 0x10000),
        _ => spec_encoded_len(i),
    }
}
/// Why decoding stops: the error that [`Instruction::new_at`] reports.
pub enum SpecDecodeError {
    Invalid(InstructionErr),
}

pub type SpecDecoded = Result<(SpecInstruction, int), SpecDecodeError>;

pub open spec fn decode_eof() -> SpecDecodeError {
    SpecDecodeError::Invalid(InstructionErr::Cursor(CursorError::UnexpectedEof))
}

/// One operand read by `r`, wrapped by `f`.
pub open spec fn with_operand<T>(r: Option<(T, int)>, f: spec_fn(T) -> SpecInstruction) -> SpecDecoded {
    match r {
        Some((v, q)) => Ok((f(v), q)),
        None => Err(decode_eof()),
    }
}

/// Zero-fill that aligns the operands of a switch at `pc` to four bytes.
pub open spec fn spec_switch_padding(pc: int) -> u8 {
    ((4 - (pc + 1) % 4) % 4) as u8
}

/// Reader of a `(match, offset)` pair of a `lookupswitch`.
pub open spec fn pair_reader() -> spec_fn(Seq<u8>, int) -> SpecRead<(i32, i32)> {
    |d: Seq<u8>, p: int|
        match spec_i32(d, p) {
            None => Err(spec_eof()),
            Some((a, q)) => match spec_i32(d, q) {
                None => Err(spec_eof()),
                Some((b, r)) => Ok(((a, b), r)),
            },
        }
}

/// Reader of one `i32` jump offset.
pub open spec fn i32_reader() -> spec_fn(Seq<u8>, int) -> SpecRead<i32> {
    |d: Seq<u8>, p: int|
        match spec_i32(d, p) {
            None => Err(spec_eof()),
            Some(x) => Ok(x),
        }
}

/// Decodes the `lookupswitch` whose opcode is at `pc`.
pub open spec fn spec_decode_lookupswitch(code: Seq<u8>, pc: int) -> SpecDecoded {
    let pad = spec_switch_padding(pc);
    if !avail(code, pc + 1, pad as int) {
        Err(decode_eof())
    } else {
        match spec_i32(code, pc + 1 + pad) {
            None => Err(decode_eof()),
            Some((default_offset, q)) => match spec_i32(code, q) {
                None => Err(decode_eof()),
                Some((npairs, r)) => if npairs < 0 {
                    Err(SpecDecodeError::Invalid(InstructionErr::InvalidSwitchRange))
                } else {
                    match spec_read_seq(code, r, npairs as nat, pair_reader()) {
                        Err(_) => Err(decode_eof()),
                        Ok((pairs, s)) => Ok(
                            (SpecInstruction::Lookupswitch(SpecLookupSwitch { padding: pad, default_offset, pairs }), s),
                        ),
                    }
                },
            },
        }
    }
}

/// Decodes the `tableswitch` whose opcode is at `pc`. A high bound below the low bound
/// is an invalid range.
pub open spec fn spec_decode_tableswitch(code: Seq<u8>, pc: int) -> SpecDecoded {
    let pad = spec_switch_padding(pc);
    if !avail(code, pc + 1, pad as int) {
        Err(decode_eof())
    } else {
        match spec_i32(code, pc + 1 + pad) {
            None => Err(decode_eof()),
            Some((default_offset, q)) => match spec_i32(code, q) {
                None => Err(decode_eof()),
                Some((low, r)) => match spec_i32(code, r) {
                    None => Err(decode_eof()),
                    Some((high, s)) => {
                        let n = high - low + 1;
                        if high < low {
                            Err(SpecDecodeError::Invalid(InstructionErr::InvalidSwitchRange))
                        } else {
                            match spec_read_seq(code, s, n as nat, i32_reader()) {
                                Err(_) => Err(decode_eof()),
                                Ok((offsets, t)) => Ok(
                                    (
                                        SpecInstruction::TableSwitch(
                                            SpecTableSwitch { padding: pad, default_offset, low, high, offsets },
                                        ),
                                        t,
                                    ),
                                ),
                            }
                        }
                    },
                },
            },
        }
    }
}

/// A one-byte operand, widened to a `u16`.
pub open spec fn spec_u8_wide(d: Seq<u8>, p: int) -> Option<(u16, int)> {
    match spec_u8(d, p) {
        Some((v, q)) => Some((v as u16, q)),
        None => None,
    }
}

/// Decodes the operands of `op`, whose opcode byte is at `pc`.
pub open spec fn spec_decode_operands(op: Opcode, code: Seq<u8>, pc: int) -> SpecDecoded {
    let p = pc + 1;
    match op {
        Opcode::Nop => Ok((SpecInstruction::Nop, p)),
        Opcode::AconstNull => Ok((SpecInstruction::AconstNull, p)),
        Opcode::IconstM1 => Ok((SpecInstruction::IconstM1, p)),
        Opcode::Iconst0 => Ok((SpecInstruction::Iconst0, p)),
        Opcode::Iconst1 => Ok((SpecInstruction::Iconst1, p)),
        Opcode::Iconst2 => Ok((SpecInstruction::Iconst2, p)),
        Opcode::Iconst3 => Ok((SpecInstruction::Iconst3, p)),
        Opcode::Iconst4 => Ok((SpecInstruction::Iconst4, p)),
        Opcode::Iconst5 => Ok((SpecInstruction::Iconst5, p)),
        Opcode::Lconst0 => Ok((SpecInstruction::Lconst0, p)),
        Opcode::Lconst1 => Ok((SpecInstruction::Lconst1, p)),
        Opcode::Fconst0 => Ok((SpecInstruction::Fconst0, p)),
        Opcode::Fconst1 => Ok((SpecInstruction::Fconst1, p)),
        Opcode::Fconst2 => Ok((SpecInstruction::Fconst2, p)),
        Opcode::Dconst0 => Ok((SpecInstruction::Dconst0, p)),
        Opcode::Dconst1 => Ok((SpecInstruction::Dconst1, p)),
        Opcode::Bipush => with_operand(spec_i8(code, p), |x: i8| SpecInstruction::Bipush(x)),
        Opcode::Sipush => with_operand(spec_i16(code, p), |x: i16| SpecInstruction::Sipush(x)),
        Opcode::Ldc => with_operand(spec_u8_wide(code, p), |x: u16| SpecInstruction::Ldc(x)),
        Opcode::LdcW => with_operand(spec_u16(code, p), |x: u16| SpecInstruction::LdcW(x)),
        Opcode::Ldc2W => with_operand(spec_u16(code, p), |x: u16| SpecInstruction::Ldc2W(x)),
        Opcode::Iload => with_operand(spec_u8(code, p), |x: u8| SpecInstruction::Iload(x)),
        Opcode::Lload => with_operand(spec_u8(code, p), |x: u8| SpecInstruction::Lload(x)),
        Opcode::Fload => with_operand(spec_u8(code, p), |x: u8| SpecInstruction::Fload(x)),
        Opcode::Dload => with_operand(spec_u8(code, p), |x: u8| SpecInstruction::Dload(x)),
        Opcode::Aload => with_operand(spec_u8(code, p), |x: u8| SpecInstruction::Aload(x)),
        Opcode::Iload0 => Ok((SpecInstruction::Iload0, p)),
        Opcode::Iload1 => Ok((SpecInstruction::Iload1, p)),
        Opcode::Iload2 => Ok((SpecInstruction::Iload2, p)),
        Opcode::Iload3 => Ok((SpecInstruction::Iload3, p)),
        Opcode::Lload0 => Ok((SpecInstruction::Lload0, p)),
        Opcode::Lload1 => Ok((SpecInstruction::Lload1, p)),
        Opcode::Lload2 => Ok((SpecInstruction::Lload2, p)),
        Opcode::Lload3 => Ok((SpecInstruction::Lload3, p)),
        Opcode::Fload0 => Ok((SpecInstruction::Fload0, p)),
        Opcode::Fload1 => Ok((SpecInstruction::Fload1, p)),
        Opcode::Fload2 => Ok((SpecInstruction::Fload2, p)),
        Opcode::Fload3 => Ok((SpecInstruction::Fload3, p)),
        Opcode::Dload0 => Ok((SpecInstruction::Dload0, p)),
        Opcode::Dload1 => Ok((SpecInstruction::Dload1, p)),
        Opcode::Dload2 => Ok((SpecInstruction::Dload2, p)),
        Opcode::Dload3 => Ok((SpecInstruction::Dload3, p)),
        Opcode::Aload0 => Ok((SpecInstruction::Aload0, p)),
        Opcode::Aload1 => Ok((SpecInstruction::Aload1, p)),
        Opcode::Aload2 => Ok((SpecInstruction::Aload2, p)),
        Opcode::Aload3 => Ok((SpecInstruction::Aload3, p)),
        Opcode::Iaload => Ok((SpecInstruction::Iaload, p)),
        Opcode::Laload => Ok((SpecInstruction::Laload, p)),
        Opcode::Faload => Ok((SpecInstruction::Faload, p)),
        Opcode::Daload => Ok((SpecInstruction::Daload, p)),
        Opcode::Aaload => Ok((SpecInstruction::Aaload, p)),
        Opcode::Baload => Ok((SpecInstruction::Baload, p)),
        Opcode::Caload => Ok((SpecInstruction::Caload, p)),
        Opcode::Saload => Ok((SpecInstruction::Saload, p)),
        Opcode::Istore => with_operand(spec_u8(code, p), |x: u8| SpecInstruction::Istore(x)),
        Opcode::Lstore => with_operand(spec_u8(code, p), |x: u8| SpecInstruction::Lstore(x)),
        Opcode::Fstore => with_operand(spec_u8(code, p), |x: u8| SpecInstruction::Fstore(x)),
        Opcode::Dstore => with_operand(spec_u8(code, p), |x: u8| SpecInstruction::Dstore(x)),
        Opcode::Astore => with_operand(spec_u8(code, p), |x: u8| SpecInstruction::Astore(x)),
        Opcode::Istore0 => Ok((SpecInstruction::Istore0, p)),
        Opcode::Istore1 => Ok((SpecInstruction::Istore1, p)),
        Opcode::Istore2 => Ok((SpecInstruction::Istore2, p)),
        Opcode::Istore3 => Ok((SpecInstruction::Istore3, p)),
        Opcode::Lstore0 => Ok((SpecInstruction::Lstore0, p)),
        Opcode::Lstore1 => Ok((SpecInstruction::Lstore1, p)),
        Opcode::Lstore2 => Ok((SpecInstruction::Lstore2, p)),
        Opcode::Lstore3 => Ok((SpecInstruction::Lstore3, p)),
        Opcode::Fstore0 => Ok((SpecInstruction::Fstore0, p)),
        Opcode::Fstore1 => Ok((SpecInstruction::Fstore1, p)),
        Opcode::Fstore2 => Ok((SpecInstruction::Fstore2, p)),
        Opcode::Fstore3 => Ok((SpecInstruction::Fstore3, p)),
        Opcode::Dstore0 => Ok((SpecInstruction::Dstore0, p)),
        Opcode::Dstore1 => Ok((SpecInstruction::Dstore1, p)),
        Opcode::Dstore2 => Ok((SpecInstruction::Dstore2, p)),
        Opcode::Dstore3 => Ok((SpecInstruction::Dstore3, p)),
        Opcode::Astore0 => Ok((SpecInstruction::Astore0, p)),
        Opcode::Astore1 => Ok((SpecInstruction::Astore1, p)),
        Opcode::Astore2 => Ok((SpecInstruction::Astore2, p)),
        Opcode::Astore3 => Ok((SpecInstruction::Astore3, p)),
        Opcode::Iastore => Ok((SpecInstruction::Iastore, p)),
        Opcode::Lastore => Ok((SpecInstruction::Lastore, p)),
        Opcode::Fastore => Ok((SpecInstruction::Fastore, p)),
        Opcode::Dastore => Ok((SpecInstruction::Dastore, p)),
        Opcode::Aastore => Ok((SpecInstruction::Aastore, p)),
        Opcode::Bastore => Ok((SpecInstruction::Bastore, p)),
        Opcode::Castore => Ok((SpecInstruction::Castore, p)),
        Opcode::Sastore => Ok((SpecInstruction::Sastore, p)),
        Opcode::Pop => Ok((SpecInstruction::Pop, p)),
        Opcode::Pop2 => Ok((SpecInstruction::Pop2, p)),
        Opcode::Dup => Ok((SpecInstruction::Dup, p)),
        Opcode::DupX1 => Ok((SpecInstruction::DupX1, p)),
        Opcode::DupX2 => Ok((SpecInstruction::DupX2, p)),
        Opcode::Dup2 => Ok((SpecInstruction::Dup2, p)),
        Opcode::Dup2X1 => Ok((SpecInstruction::Dup2X1, p)),
        Opcode::Dup2X2 => Ok((SpecInstruction::Dup2X2, p)),
        Opcode::Swap => Ok((SpecInstruction::Swap, p)),
        Opcode::Iadd => Ok((SpecInstruction::Iadd, p)),
        Opcode::Ladd => Ok((SpecInstruction::Ladd, p)),
        Opcode::Fadd => Ok((SpecInstruction::Fadd, p)),
        Opcode::Dadd => Ok((SpecInstruction::Dadd, p)),
        Opcode::Isub => Ok((SpecInstruction::Isub, p)),
        Opcode::Lsub => Ok((SpecInstruction::Lsub, p)),
        Opcode::Fsub => Ok((SpecInstruction::Fsub, p)),
        Opcode::Dsub => Ok((SpecInstruction::Dsub, p)),
        Opcode::Imul => Ok((SpecInstruction::Imul, p)),
        Opcode::Lmul => Ok((SpecInstruction::Lmul, p)),
        Opcode::Fmul => Ok((SpecInstruction::Fmul, p)),
        Opcode::Dmul => Ok((SpecInstruction::Dmul, p)),
        Opcode::Idiv => Ok((SpecInstruction::Idiv, p)),
        Opcode::Ldiv => Ok((SpecInstruction::Ldiv, p)),
        Opcode::Fdiv => Ok((SpecInstruction::Fdiv, p)),
        Opcode::Ddiv => Ok((SpecInstruction::Ddiv, p)),
        Opcode::Irem => Ok((SpecInstruction::Irem, p)),
        Opcode::Lrem => Ok((SpecInstruction::Lrem, p)),
        Opcode::Frem => Ok((SpecInstruction::Frem, p)),
        Opcode::Drem => Ok((SpecInstruction::Drem, p)),
        Opcode::Ineg => Ok((SpecInstruction::Ineg, p)),
        Opcode::Lneg => Ok((SpecInstruction::Lneg, p)),
        Opcode::Fneg => Ok((SpecInstruction::Fneg, p)),
        Opcode::Dneg => Ok((SpecInstruction::Dneg, p)),
        Opcode::Ishl => Ok((SpecInstruction::Ishl, p)),
        Opcode::Lshl => Ok((SpecInstruction::Lshl, p)),
        Opcode::Ishr => Ok((SpecInstruction::Ishr, p)),
        Opcode::Lshr => Ok((SpecInstruction::Lshr, p)),
        Opcode::Iushr => Ok((SpecInstruction::Iushr, p)),
        Opcode::Lushr => Ok((SpecInstruction::Lushr, p)),
        Opcode::Iand => Ok((SpecInstruction::Iand, p)),
        Opcode::Land => Ok((SpecInstruction::Land, p)),
        Opcode::Ior => Ok((SpecInstruction::Ior, p)),
        Opcode::Lor => Ok((SpecInstruction::Lor, p)),
        Opcode::Ixor => Ok((SpecInstruction::Ixor, p)),
        Opcode::Lxor => Ok((SpecInstruction::Lxor, p)),
        Opcode::Iinc => match spec_u8(code, p) {
            None => Err(decode_eof()),
            Some((a, q)) => with_operand(spec_i8(code, q), |x: i8| SpecInstruction::Iinc(a, x)),
        },
        Opcode::I2l => Ok((SpecInstruction::I2l, p)),
        Opcode::I2f => Ok((SpecInstruction::I2f, p)),
        Opcode::I2d => Ok((SpecInstruction::I2d, p)),
        Opcode::L2i => Ok((SpecInstruction::L2i, p)),
        Opcode::L2f => Ok((SpecInstruction::L2f, p)),
        Opcode::L2d => Ok((SpecInstruction::L2d, p)),
        Opcode::F2i => Ok((SpecInstruction::F2i, p)),
        Opcode::F2l => Ok((SpecInstruction::F2l, p)),
        Opcode::F2d => Ok((SpecInstruction::F2d, p)),
        Opcode::D2i => Ok((SpecInstruction::D2i, p)),
        Opcode::D2l => Ok((SpecInstruction::D2l, p)),
        Opcode::D2f => Ok((SpecInstruction::D2f, p)),
        Opcode::I2b => Ok((SpecInstruction::I2b, p)),
        Opcode::I2c => Ok((SpecInstruction::I2c, p)),
        Opcode::I2s => Ok((SpecInstruction::I2s, p)),
        Opcode::Lcmp => Ok((SpecInstruction::Lcmp, p)),
        Opcode::Fcmpl => Ok((SpecInstruction::Fcmpl, p)),
        Opcode::Fcmpg => Ok((SpecInstruction::Fcmpg, p)),
        Opcode::Dcmpl => Ok((SpecInstruction::Dcmpl, p)),
        Opcode::Dcmpg => Ok((SpecInstruction::Dcmpg, p)),
        Opcode::IfEq => with_operand(spec_i16(code, p), |x: i16| SpecInstruction::IfEq(x)),
        Opcode::IfNe => with_operand(spec_i16(code, p), |x: i16| SpecInstruction::IfNe(x)),
        Opcode::IfLt => with_operand(spec_i16(code, p), |x: i16| SpecInstruction::IfLt(x)),
        Opcode::IfGe => with_operand(spec_i16(code, p), |x: i16| SpecInstruction::IfGe(x)),
        Opcode::IfGt => with_operand(spec_i16(code, p), |x: i16| SpecInstruction::IfGt(x)),
        Opcode::IfLe => with_operand(spec_i16(code, p), |x: i16| SpecInstruction::IfLe(x)),
        Opcode::IfIcmpeq => with_operand(spec_i16(code, p), |x: i16| SpecInstruction::IfIcmpeq(x)),
        Opcode::IfIcmpne => with_operand(spec_i16(code, p), |x: i16| SpecInstruction::IfIcmpne(x)),
        Opcode::IfIcmplt => with_operand(spec_i16(code, p), |x: i16| SpecInstruction::IfIcmplt(x)),
        Opcode::IfIcmpge => with_operand(spec_i16(code, p), |x: i16| SpecInstruction::IfIcmpge(x)),
        Opcode::IfIcmpgt => with_operand(spec_i16(code, p), |x: i16| SpecInstruction::IfIcmpgt(x)),
        Opcode::IfIcmple => with_operand(spec_i16(code, p), |x: i16| SpecInstruction::IfIcmple(x)),
        Opcode::IfAcmpEq => with_operand(spec_i16(code, p), |x: i16| SpecInstruction::IfAcmpEq(x)),
        Opcode::IfAcmpNe => with_operand(spec_i16(code, p), |x: i16| SpecInstruction::IfAcmpNe(x)),
        Opcode::Goto => with_operand(spec_i16(code, p), |x: i16| SpecInstruction::Goto(x)),
        Opcode::Jsr => with_operand(spec_i16(code, p), |x: i16| SpecInstruction::Jsr(x)),
        Opcode::Ret => with_operand(spec_u8(code, p), |x: u8| SpecInstruction::Ret(x)),
        Opcode::TableSwitch => spec_decode_tableswitch(code, pc),
        Opcode::Lookupswitch => spec_decode_lookupswitch(code, pc),
        Opcode::Ireturn => Ok((SpecInstruction::Ireturn, p)),
        Opcode::Lreturn => Ok((SpecInstruction::Lreturn, p)),
        Opcode::Freturn => Ok((SpecInstruction::Freturn, p)),
        Opcode::Dreturn => Ok((SpecInstruction::Dreturn, p)),
        Opcode::Areturn => Ok((SpecInstruction::Areturn, p)),
        Opcode::Return => Ok((SpecInstruction::Return, p)),
        Opcode::Getstatic => with_operand(spec_u16(code, p), |x: u16| SpecInstruction::Getstatic(x)),
        Opcode::Putstatic => with_operand(spec_u16(code, p), |x: u16| SpecInstruction::Putstatic(x)),
        Opcode::Getfield => with_operand(spec_u16(code, p), |x: u16| SpecInstruction::Getfield(x)),
        Opcode::Putfield => with_operand(spec_u16(code, p), |x: u16| SpecInstruction::Putfield(x)),
        Opcode::InvokeVirtual => with_operand(spec_u16(code, p), |x: u16| SpecInstruction::InvokeVirtual(x)),
        Opcode::InvokeSpecial => with_operand(spec_u16(code, p), |x: u16| SpecInstruction::InvokeSpecial(x)),
        Opcode::InvokeStatic => with_operand(spec_u16(code, p), |x: u16| SpecInstruction::InvokeStatic(x)),
        Opcode::InvokeInterface => match spec_u16(code, p) {
            None => Err(decode_eof()),
            Some((a, q)) => match spec_u8(code, q) {
                None => Err(decode_eof()),
                Some((c, r)) => with_operand(spec_u8(code, r), |_x: u8| SpecInstruction::InvokeInterface(a, c)),
            },
        },
        Opcode::InvokeDynamic => match spec_u16(code, p) {
            None => Err(decode_eof()),
            Some((a, q)) => with_operand(spec_u16(code, q), |_x: u16| SpecInstruction::InvokeDynamic(a)),
        },
        Opcode::New => with_operand(spec_u16(code, p), |x: u16| SpecInstruction::New(x)),
        Opcode::Newarray => match spec_u8(code, p) {
            None => Err(decode_eof()),
            Some((t, q)) => match spec_array_type_from_tag(t) {
                None => Err(SpecDecodeError::Invalid(InstructionErr::UnknownArrayType(t))),
                Some(a) => Ok((SpecInstruction::Newarray(a), q)),
            },
        },
        Opcode::Anewarray => with_operand(spec_u16(code, p), |x: u16| SpecInstruction::Anewarray(x)),
        Opcode::ArrayLength => Ok((SpecInstruction::ArrayLength, p)),
        Opcode::Athrow => Ok((SpecInstruction::Athrow, p)),
        Opcode::Checkcast => with_operand(spec_u16(code, p), |x: u16| SpecInstruction::Checkcast(x)),
        Opcode::Instanceof => with_operand(spec_u16(code, p), |x: u16| SpecInstruction::Instanceof(x)),
        Opcode::Monitorenter => Ok((SpecInstruction::Monitorenter, p)),
        Opcode::Monitorexit => Ok((SpecInstruction::Monitorexit, p)),
        Opcode::Multianewarray => match spec_u16(code, p) {
            None => Err(decode_eof()),
            Some((a, q)) => with_operand(spec_u8(code, q), |x: u8| SpecInstruction::Multianewarray(a, x)),
        },
        Opcode::Ifnull => with_operand(spec_i16(code, p), |x: i16| SpecInstruction::Ifnull(x)),
        Opcode::Ifnonnull => with_operand(spec_i16(code, p), |x: i16| SpecInstruction::Ifnonnull(x)),
        Opcode::GotoW => with_operand(spec_i32(code, p), |x: i32| SpecInstruction::GotoW(x)),
        Opcode::JsrW => with_operand(spec_i32(code, p), |x: i32| SpecInstruction::JsrW(x)),
        Opcode::Breakpoint => Ok((SpecInstruction::Breakpoint, p)),
    }
}

/// Decodes the instruction whose opcode byte is at `pc`: the instruction and the
/// position just after it.
pub open spec fn spec_decode(code: Seq<u8>, pc: int) -> SpecDecoded {
    if !avail(code, pc, 1) {
        Err(decode_eof())
    } else {
        match spec_opcode_from_tag(code[pc]) {
            None => Err(SpecDecodeError::Invalid(InstructionErr::UnsupportedOpCode(code[pc]))),
            Some(op) => spec_decode_operands(op, code, pc),
        }
    }
}
/// The cursor went from `old` to `new` by a read whose specification is `s`.
pub open spec fn decode_stepped<'a, T>(
    old: ByteCursor<'a>,
    new: ByteCursor<'a>,
    r: Result<T, InstructionErr>,
    s: Option<(T, int)>,
) -> bool {
    &&& new.data@ == old.data@
    &&& new.inv()
    &&& match s {
        Some((v, q)) => r == Ok::<T, InstructionErr>(v) && new.pos == q,
        None => r == Err::<T, InstructionErr>(InstructionErr::Cursor(CursorError::UnexpectedEof)),
    }
}

fn op_u8(c: &mut ByteCursor) -> (r: Result<u8, InstructionErr>)
    requires
        old(c).inv(),
    ensures
        decode_stepped(*old(c), *final(c), r, spec_u8(old(c).data@, old(c).pos as int)),
{
    match c.u8() {
        Ok(v) => Ok(v),
        Err(e) => Err(InstructionErr::Cursor(e)),
    }
}

fn op_i8(c: &mut ByteCursor) -> (r: Result<i8, InstructionErr>)
    requires
        old(c).inv(),
    ensures
        decode_stepped(*old(c), *final(c), r, spec_i8(old(c).data@, old(c).pos as int)),
{
    match c.i8() {
        Ok(v) => Ok(v),
        Err(e) => Err(InstructionErr::Cursor(e)),
    }
}

fn op_u16(c: &mut ByteCursor) -> (r: Result<u16, InstructionErr>)
    requires
        old(c).inv(),
    ensures
        decode_stepped(*old(c), *final(c), r, spec_u16(old(c).data@, old(c).pos as int)),
{
    match c.u16() {
        Ok(v) => Ok(v),
        Err(e) => Err(InstructionErr::Cursor(e)),
    }
}

fn op_i16(c: &mut ByteCursor) -> (r: Result<i16, InstructionErr>)
    requires
        old(c).inv(),
    ensures
        decode_stepped(*old(c), *final(c), r, spec_i16(old(c).data@, old(c).pos as int)),
{
    match c.i16() {
        Ok(v) => Ok(v),
        Err(e) => Err(InstructionErr::Cursor(e)),
    }
}

fn op_i32(c: &mut ByteCursor) -> (r: Result<i32, InstructionErr>)
    requires
        old(c).inv(),
    ensures
        decode_stepped(*old(c), *final(c), r, spec_i32(old(c).data@, old(c).pos as int)),
{
    match c.i32() {
        Ok(v) => Ok(v),
        Err(e) => Err(InstructionErr::Cursor(e)),
    }
}

/// A one-byte constant pool index, widened.
fn op_u8_index(c: &mut ByteCursor) -> (r: Result<u16, InstructionErr>)
    requires
        old(c).inv(),
    ensures
        decode_stepped(*old(c), *final(c), r, spec_u8_wide(old(c).data@, old(c).pos as int)),
{
    let v = op_u8(c)?;
    Ok(v as u16)
}

/// Size of a switch: opcode, padding, a header of `header` bytes, and `entries` entries of
/// `width` bytes, their number truncated to 16 bits.
fn switch_byte_size(padding: u8, entries: usize, header: u16, width: u16) -> (n: u16)
    requires
        1 + padding + header + width * (entries % 0x10000) <= u16::MAX,
    ensures
        n == 1 + padding + header + width * (entries % 0x10000),
{
    let k: u16 = (entries % 0x10000) as u16;
    1 + padding as u16 + header + width * k
}

impl Instruction {
    /// Whether this instruction transfers control to an offset it names.
    pub fn is_branch(&self) -> (b: bool)
        ensures
            b == spec_is_branch(self@),
    {
        match self {
            Self::Goto(_)
            | Self::GotoW(_)
            | Self::IfAcmpEq(_)
            | Self::IfAcmpNe(_)
            | Self::IfEq(_)
            | Self::IfGe(_)
            | Self::IfGt(_)
            | Self::IfIcmpeq(_)
            | Self::IfIcmpge(_)
            | Self::IfIcmpgt(_)
            | Self::IfIcmple(_)
            | Self::IfIcmplt(_)
            | Self::IfIcmpne(_)
            | Self::IfLe(_)
            | Self::IfLt(_)
            | Self::IfNe(_)
            | Self::Ifnonnull(_)
            | Self::Ifnull(_)
            | Self::Lookupswitch(_)
            | Self::Jsr(_)
            | Self::JsrW(_)
            | Self::TableSwitch(_) => true,
            _ => false,
        }
    }

    /// The number of bytes that encode this instruction. The number of switch entries
    /// is truncated to 16 bits first; the sum must fit in a `u16`.
    pub fn byte_size(&self) -> (n: u16)
        requires
            spec_byte_size(self@) <= u16::MAX,
        ensures
            n == spec_byte_size(self@),
    {
        match self {
            Self::Lookupswitch(data) => {
                switch_byte_size(data.padding, data.pairs.len(), 8, 8)
            },
            Self::TableSwitch(data) => {
                switch_byte_size(data.padding, data.offsets.len(), 12, 4)
            },
            Self::GotoW(_)
            | Self::InvokeDynamic(_)
            | Self::InvokeInterface(_, _)
            | Self::JsrW(_) => 5,
            Self::Multianewarray(_, _) => 4,
            Self::Anewarray(_)
            | Self::Checkcast(_)
            | Self::Getfield(_)
            | Self::Getstatic(_)
            | Self::Goto(_)
            | Self::IfAcmpEq(_)
            | Self::IfAcmpNe(_)
            | Self::IfEq(_)
            | Self::IfGe(_)
            | Self::IfGt(_)
            | Self::IfIcmpeq(_)
            | Self::IfIcmpge(_)
            | Self::IfIcmpgt(_)
            | Self::IfIcmple(_)
            | Self::IfIcmplt(_)
            | Self::IfIcmpne(_)
            | Self::IfLe(_)
            | Self::IfLt(_)
            | Self::IfNe(_)
            | Self::Ifnonnull(_)
            | Self::Ifnull(_)
            | Self::Iinc(_, _)
            | Self::Instanceof(_)
            | Self::InvokeSpecial(_)
            | Self::InvokeStatic(_)
            | Self::InvokeVirtual(_)
            | Self::Jsr(_)
            | Self::Ldc2W(_)
            | Self::LdcW(_)
            | Self::New(_)
            | Self::Putfield(_)
            | Self::Putstatic(_)
            | Self::Sipush(_) => 3,
            Self::Aload(_)
            | Self::Astore(_)
            | Self::Bipush(_)
            | Self::Dload(_)
            | Self::Dstore(_)
            | Self::Fload(_)
            | Self::Fstore(_)
            | Self::Iload(_)
            | Self::Istore(_)
            | Self::Ldc(_)
            | Self::Lload(_)
            | Self::Lstore(_)
            | Self::Newarray(_)
            | Self::Ret(_) => 2,
            _ => 1,
        }
    }

    /// The opcode of this instruction; `None` for `impdep1` and `impdep2`.
    pub fn opcode(&self) -> (r: Option<Opcode>)
        ensures
            r == spec_instruction_opcode(self@),
    {
        let op = match self {
            Self::Aaload => Opcode::Aaload,
            Self::Aastore => Opcode::Aastore,
            Self::AconstNull => Opcode::AconstNull,
            Self::Aload(_) => Opcode::Aload,
            Self::Aload0 => Opcode::Aload0,
            Self::Aload1 => Opcode::Aload1,
            Self::Aload2 => Opcode::Aload2,
            Self::Aload3 => Opcode::Aload3,
            Self::Anewarray(_) => Opcode::Anewarray,
            Self::Areturn => Opcode::Areturn,
            Self::ArrayLength => Opcode::ArrayLength,
            Self::Astore(_) => Opcode::Astore,
            Self::Astore0 => Opcode::Astore0,
            Self::Astore1 => Opcode::Astore1,
            Self::Astore2 => Opcode::Astore2,
            Self::Astore3 => Opcode::Astore3,
            Self::Athrow => Opcode::Athrow,
            Self::Baload => Opcode::Baload,
            Self::Bastore => Opcode::Bastore,
            Self::Bipush(_) => Opcode::Bipush,
            Self::Breakpoint => Opcode::Breakpoint,
            Self::Caload => Opcode::Caload,
            Self::Castore => Opcode::Castore,
            Self::Checkcast(_) => Opcode::Checkcast,
            Self::D2f => Opcode::D2f,
            Self::D2i => Opcode::D2i,
            Self::D2l => Opcode::D2l,
            Self::Dadd => Opcode::Dadd,
            Self::Daload => Opcode::Daload,
            Self::Dastore => Opcode::Dastore,
            Self::Dcmpg => Opcode::Dcmpg,
            Self::Dcmpl => Opcode::Dcmpl,
            Self::Dconst0 => Opcode::Dconst0,
            Self::Dconst1 => Opcode::Dconst1,
            Self::Ddiv => Opcode::Ddiv,
            Self::Dload(_) => Opcode::Dload,
            Self::Dload0 => Opcode::Dload0,
            Self::Dload1 => Opcode::Dload1,
            Self::Dload2 => Opcode::Dload2,
            Self::Dload3 => Opcode::Dload3,
            Self::Dmul => Opcode::Dmul,
            Self::Dneg => Opcode::Dneg,
            Self::Drem => Opcode::Drem,
            Self::Dreturn => Opcode::Dreturn,
            Self::Dstore(_) => Opcode::Dstore,
            Self::Dstore0 => Opcode::Dstore0,
            Self::Dstore1 => Opcode::Dstore1,
            Self::Dstore2 => Opcode::Dstore2,
            Self::Dstore3 => Opcode::Dstore3,
            Self::Dsub => Opcode::Dsub,
            Self::Dup => Opcode::Dup,
            Self::Dup2 => Opcode::Dup2,
            Self::Dup2X1 => Opcode::Dup2X1,
            Self::Dup2X2 => Opcode::Dup2X2,
            Self::DupX1 => Opcode::DupX1,
            Self::DupX2 => Opcode::DupX2,
            Self::F2d => Opcode::F2d,
            Self::F2i => Opcode::F2i,
            Self::F2l => Opcode::F2l,
            Self::Fadd => Opcode::Fadd,
            Self::Faload => Opcode::Faload,
            Self::Fastore => Opcode::Fastore,
            Self::Fcmpg => Opcode::Fcmpg,
            Self::Fcmpl => Opcode::Fcmpl,
            Self::Fconst0 => Opcode::Fconst0,
            Self::Fconst1 => Opcode::Fconst1,
            Self::Fconst2 => Opcode::Fconst2,
            Self::Fdiv => Opcode::Fdiv,
            Self::Fload(_) => Opcode::Fload,
            Self::Fload0 => Opcode::Fload0,
            Self::Fload1 => Opcode::Fload1,
            Self::Fload2 => Opcode::Fload2,
            Self::Fload3 => Opcode::Fload3,
            Self::Fmul => Opcode::Fmul,
            Self::Fneg => Opcode::Fneg,
            Self::Frem => Opcode::Frem,
            Self::Freturn => Opcode::Freturn,
            Self::Fstore(_) => Opcode::Fstore,
            Self::Fstore0 => Opcode::Fstore0,
            Self::Fstore1 => Opcode::Fstore1,
            Self::Fstore2 => Opcode::Fstore2,
            Self::Fstore3 => Opcode::Fstore3,
            Self::Fsub => Opcode::Fsub,
            Self::Getfield(_) => Opcode::Getfield,
            Self::Getstatic(_) => Opcode::Getstatic,
            Self::Goto(_) => Opcode::Goto,
            Self::GotoW(_) => Opcode::GotoW,
            Self::I2b => Opcode::I2b,
            Self::I2c => Opcode::I2c,
            Self::I2d => Opcode::I2d,
            Self::I2f => Opcode::I2f,
            Self::I2l => Opcode::I2l,
            Self::I2s => Opcode::I2s,
            Self::Iadd => Opcode::Iadd,
            Self::Iaload => Opcode::Iaload,
            Self::Iand => Opcode::Iand,
            Self::Iastore => Opcode::Iastore,
            Self::IconstM1 => Opcode::IconstM1,
            Self::Iconst0 => Opcode::Iconst0,
            Self::Iconst1 => Opcode::Iconst1,
            Self::Iconst2 => Opcode::Iconst2,
            Self::Iconst3 => Opcode::Iconst3,
            Self::Iconst4 => Opcode::Iconst4,
            Self::Iconst5 => Opcode::Iconst5,
            Self::Idiv => Opcode::Idiv,
            Self::IfAcmpEq(_) => Opcode::IfAcmpEq,
            Self::IfAcmpNe(_) => Opcode::IfAcmpNe,
            Self::IfEq(_) => Opcode::IfEq,
            Self::IfGe(_) => Opcode::IfGe,
            Self::IfGt(_) => Opcode::IfGt,
            Self::IfIcmpeq(_) => Opcode::IfIcmpeq,
            Self::IfIcmpge(_) => Opcode::IfIcmpge,
            Self::IfIcmpgt(_) => Opcode::IfIcmpgt,
            Self::IfIcmple(_) => Opcode::IfIcmple,
            Self::IfIcmplt(_) => Opcode::IfIcmplt,
            Self::IfIcmpne(_) => Opcode::IfIcmpne,
            Self::IfLe(_) => Opcode::IfLe,
            Self::IfLt(_) => Opcode::IfLt,
            Self::IfNe(_) => Opcode::IfNe,
            Self::Ifnonnull(_) => Opcode::Ifnonnull,
            Self::Ifnull(_) => Opcode::Ifnull,
            Self::Iinc(_, _) => Opcode::Iinc,
            Self::Iload(_) => Opcode::Iload,
            Self::Iload0 => Opcode::Iload0,
            Self::Iload1 => Opcode::Iload1,
            Self::Iload2 => Opcode::Iload2,
            Self::Iload3 => Opcode::Iload3,
            Self::Imul => Opcode::Imul,
            Self::Ineg => Opcode::Ineg,
            Self::Lookupswitch(_) => Opcode::Lookupswitch,
            Self::Instanceof(_) => Opcode::Instanceof,
            Self::InvokeDynamic(_) => Opcode::InvokeDynamic,
            Self::InvokeInterface(_, _) => Opcode::InvokeInterface,
            Self::InvokeSpecial(_) => Opcode::InvokeSpecial,
            Self::InvokeStatic(_) => Opcode::InvokeStatic,
            Self::InvokeVirtual(_) => Opcode::InvokeVirtual,
            Self::Ior => Opcode::Ior,
            Self::Irem => Opcode::Irem,
            Self::Ireturn => Opcode::Ireturn,
            Self::Ishl => Opcode::Ishl,
            Self::Ishr => Opcode::Ishr,
            Self::Istore(_) => Opcode::Istore,
            Self::Istore0 => Opcode::Istore0,
            Self::Istore1 => Opcode::Istore1,
            Self::Istore2 => Opcode::Istore2,
            Self::Istore3 => Opcode::Istore3,
            Self::Isub => Opcode::Isub,
            Self::Iushr => Opcode::Iushr,
            Self::Ixor => Opcode::Ixor,
            Self::Jsr(_) => Opcode::Jsr,
            Self::JsrW(_) => Opcode::JsrW,
            Self::L2d => Opcode::L2d,
            Self::L2f => Opcode::L2f,
            Self::L2i => Opcode::L2i,
            Self::Ladd => Opcode::Ladd,
            Self::Laload => Opcode::Laload,
            Self::Land => Opcode::Land,
            Self::Lastore => Opcode::Lastore,
            Self::Lcmp => Opcode::Lcmp,
            Self::Lconst0 => Opcode::Lconst0,
            Self::Lconst1 => Opcode::Lconst1,
            Self::Ldc(_) => Opcode::Ldc,
            Self::Ldc2W(_) => Opcode::Ldc2W,
            Self::LdcW(_) => Opcode::LdcW,
            Self::Ldiv => Opcode::Ldiv,
            Self::Lload(_) => Opcode::Lload,
            Self::Lload0 => Opcode::Lload0,
            Self::Lload1 => Opcode::Lload1,
            Self::Lload2 => Opcode::Lload2,
            Self::Lload3 => Opcode::Lload3,
            Self::Lmul => Opcode::Lmul,
            Self::Lneg => Opcode::Lneg,
            Self::Lor => Opcode::Lor,
            Self::Lrem => Opcode::Lrem,
            Self::Lreturn => Opcode::Lreturn,
            Self::Lshl => Opcode::Lshl,
            Self::Lshr => Opcode::Lshr,
            Self::Lstore(_) => Opcode::Lstore,
            Self::Lstore0 => Opcode::Lstore0,
            Self::Lstore1 => Opcode::Lstore1,
            Self::Lstore2 => Opcode::Lstore2,
            Self::Lstore3 => Opcode::Lstore3,
            Self::Lsub => Opcode::Lsub,
            Self::Lushr => Opcode::Lushr,
            Self::Lxor => Opcode::Lxor,
            Self::Monitorenter => Opcode::Monitorenter,
            Self::Monitorexit => Opcode::Monitorexit,
            Self::Multianewarray(_, _) => Opcode::Multianewarray,
            Self::New(_) => Opcode::New,
            Self::Newarray(_) => Opcode::Newarray,
            Self::Nop => Opcode::Nop,
            Self::Pop => Opcode::Pop,
            Self::Pop2 => Opcode::Pop2,
            Self::Putfield(_) => Opcode::Putfield,
            Self::Putstatic(_) => Opcode::Putstatic,
            Self::Ret(_) => Opcode::Ret,
            Self::Return => Opcode::Return,
            Self::Saload => Opcode::Saload,
            Self::Sastore => Opcode::Sastore,
            Self::Sipush(_) => Opcode::Sipush,
            Self::Swap => Opcode::Swap,
            Self::TableSwitch(_) => Opcode::TableSwitch,
            Self::Impdep1 | Self::Impdep2 => return None,
        };
        Some(op)
    }

    /// The mnemonic name of this instruction (e.g. `"aload"`, `"invokespecial"`).
    pub fn get_name(&self) -> (s: &'static str)
        ensures
            s@ == spec_instruction_name(self@),
    {
        match self {
            Self::Impdep1 => "impdep1",
            Self::Impdep2 => "impdep2",
            _ => match self.opcode() {
                Some(op) => op.as_str(),
                None => "impdep1",
            },
        }
    }

    /// Decodes the operands of `op`; the cursor stands just after the opcode at `pc`.
    #[verifier::rlimit(100)]
    fn decode_operands(op: Opcode, cursor: &mut ByteCursor) -> (r: Result<Instruction, InstructionErr>)
        requires
            old(cursor).inv(),
            old(cursor).pos >= 1,
        ensures
            match spec_decode_operands(op, old(cursor).data@, old(cursor).pos - 1) {
                Ok((i, _)) => r matches Ok(x) && x@ == i,
                Err(SpecDecodeError::Invalid(e)) => r == Err::<Instruction, InstructionErr>(e),
            },
    {
        let pc = cursor.pos - 1;
        let ins = match op {
            Opcode::Nop => Self::Nop,
            Opcode::AconstNull => Self::AconstNull,
            Opcode::IconstM1 => Self::IconstM1,
            Opcode::Iconst0 => Self::Iconst0,
            Opcode::Iconst1 => Self::Iconst1,
            Opcode::Iconst2 => Self::Iconst2,
            Opcode::Iconst3 => Self::Iconst3,
            Opcode::Iconst4 => Self::Iconst4,
            Opcode::Iconst5 => Self::Iconst5,
            Opcode::Lconst0 => Self::Lconst0,
            Opcode::Lconst1 => Self::Lconst1,
            Opcode::Fconst0 => Self::Fconst0,
            Opcode::Fconst1 => Self::Fconst1,
            Opcode::Fconst2 => Self::Fconst2,
            Opcode::Dconst0 => Self::Dconst0,
            Opcode::Dconst1 => Self::Dconst1,
            Opcode::Bipush => Self::Bipush(op_i8(cursor)?),
            Opcode::Sipush => Self::Sipush(op_i16(cursor)?),
            Opcode::Ldc => Self::Ldc(op_u8_index(cursor)?),
            Opcode::LdcW => Self::LdcW(op_u16(cursor)?),
            Opcode::Ldc2W => Self::Ldc2W(op_u16(cursor)?),
            Opcode::Iload => Self::Iload(op_u8(cursor)?),
            Opcode::Lload => Self::Lload(op_u8(cursor)?),
            Opcode::Fload => Self::Fload(op_u8(cursor)?),
            Opcode::Dload => Self::Dload(op_u8(cursor)?),
            Opcode::Aload => Self::Aload(op_u8(cursor)?),
            Opcode::Iload0 => Self::Iload0,
            Opcode::Iload1 => Self::Iload1,
            Opcode::Iload2 => Self::Iload2,
            Opcode::Iload3 => Self::Iload3,
            Opcode::Lload0 => Self::Lload0,
            Opcode::Lload1 => Self::Lload1,
            Opcode::Lload2 => Self::Lload2,
            Opcode::Lload3 => Self::Lload3,
            Opcode::Fload0 => Self::Fload0,
            Opcode::Fload1 => Self::Fload1,
            Opcode::Fload2 => Self::Fload2,
            Opcode::Fload3 => Self::Fload3,
            Opcode::Dload0 => Self::Dload0,
            Opcode::Dload1 => Self::Dload1,
            Opcode::Dload2 => Self::Dload2,
            Opcode::Dload3 => Self::Dload3,
            Opcode::Aload0 => Self::Aload0,
            Opcode::Aload1 => Self::Aload1,
            Opcode::Aload2 => Self::Aload2,
            Opcode::Aload3 => Self::Aload3,
            Opcode::Iaload => Self::Iaload,
            Opcode::Laload => Self::Laload,
            Opcode::Faload => Self::Faload,
            Opcode::Daload => Self::Daload,
            Opcode::Aaload => Self::Aaload,
            Opcode::Baload => Self::Baload,
            Opcode::Caload => Self::Caload,
            Opcode::Saload => Self::Saload,
            Opcode::Istore => Self::Istore(op_u8(cursor)?),
            Opcode::Lstore => Self::Lstore(op_u8(cursor)?),
            Opcode::Fstore => Self::Fstore(op_u8(cursor)?),
            Opcode::Dstore => Self::Dstore(op_u8(cursor)?),
            Opcode::Astore => Self::Astore(op_u8(cursor)?),
            Opcode::Istore0 => Self::Istore0,
            Opcode::Istore1 => Self::Istore1,
            Opcode::Istore2 => Self::Istore2,
            Opcode::Istore3 => Self::Istore3,
            Opcode::Lstore0 => Self::Lstore0,
            Opcode::Lstore1 => Self::Lstore1,
            Opcode::Lstore2 => Self::Lstore2,
            Opcode::Lstore3 => Self::Lstore3,
            Opcode::Fstore0 => Self::Fstore0,
            Opcode::Fstore1 => Self::Fstore1,
            Opcode::Fstore2 => Self::Fstore2,
            Opcode::Fstore3 => Self::Fstore3,
            Opcode::Dstore0 => Self::Dstore0,
            Opcode::Dstore1 => Self::Dstore1,
            Opcode::Dstore2 => Self::Dstore2,
            Opcode::Dstore3 => Self::Dstore3,
            Opcode::Astore0 => Self::Astore0,
            Opcode::Astore1 => Self::Astore1,
            Opcode::Astore2 => Self::Astore2,
            Opcode::Astore3 => Self::Astore3,
            Opcode::Iastore => Self::Iastore,
            Opcode::Lastore => Self::Lastore,
            Opcode::Fastore => Self::Fastore,
            Opcode::Dastore => Self::Dastore,
            Opcode::Aastore => Self::Aastore,
            Opcode::Bastore => Self::Bastore,
            Opcode::Castore => Self::Castore,
            Opcode::Sastore => Self::Sastore,
            Opcode::Pop => Self::Pop,
            Opcode::Pop2 => Self::Pop2,
            Opcode::Dup => Self::Dup,
            Opcode::DupX1 => Self::DupX1,
            Opcode::DupX2 => Self::DupX2,
            Opcode::Dup2 => Self::Dup2,
            Opcode::Dup2X1 => Self::Dup2X1,
            Opcode::Dup2X2 => Self::Dup2X2,
            Opcode::Swap => Self::Swap,
            Opcode::Iadd => Self::Iadd,
            Opcode::Ladd => Self::Ladd,
            Opcode::Fadd => Self::Fadd,
            Opcode::Dadd => Self::Dadd,
            Opcode::Isub => Self::Isub,
            Opcode::Lsub => Self::Lsub,
            Opcode::Fsub => Self::Fsub,
            Opcode::Dsub => Self::Dsub,
            Opcode::Imul => Self::Imul,
            Opcode::Lmul => Self::Lmul,
            Opcode::Fmul => Self::Fmul,
            Opcode::Dmul => Self::Dmul,
            Opcode::Idiv => Self::Idiv,
            Opcode::Ldiv => Self::Ldiv,
            Opcode::Fdiv => Self::Fdiv,
            Opcode::Ddiv => Self::Ddiv,
            Opcode::Irem => Self::Irem,
            Opcode::Lrem => Self::Lrem,
            Opcode::Frem => Self::Frem,
            Opcode::Drem => Self::Drem,
            Opcode::Ineg => Self::Ineg,
            Opcode::Lneg => Self::Lneg,
            Opcode::Fneg => Self::Fneg,
            Opcode::Dneg => Self::Dneg,
            Opcode::Ishl => Self::Ishl,
            Opcode::Lshl => Self::Lshl,
            Opcode::Ishr => Self::Ishr,
            Opcode::Lshr => Self::Lshr,
            Opcode::Iushr => Self::Iushr,
            Opcode::Lushr => Self::Lushr,
            Opcode::Iand => Self::Iand,
            Opcode::Land => Self::Land,
            Opcode::Ior => Self::Ior,
            Opcode::Lor => Self::Lor,
            Opcode::Ixor => Self::Ixor,
            Opcode::Lxor => Self::Lxor,
            Opcode::Iinc => {
                let index = op_u8(cursor)?;
                let constant = op_i8(cursor)?;
                Self::Iinc(index, constant)
            },
            Opcode::I2l => Self::I2l,
            Opcode::I2f => Self::I2f,
            Opcode::I2d => Self::I2d,
            Opcode::L2i => Self::L2i,
            Opcode::L2f => Self::L2f,
            Opcode::L2d => Self::L2d,
            Opcode::F2i => Self::F2i,
            Opcode::F2l => Self::F2l,
            Opcode::F2d => Self::F2d,
            Opcode::D2i => Self::D2i,
            Opcode::D2l => Self::D2l,
            Opcode::D2f => Self::D2f,
            Opcode::I2b => Self::I2b,
            Opcode::I2c => Self::I2c,
            Opcode::I2s => Self::I2s,
            Opcode::Lcmp => Self::Lcmp,
            Opcode::Fcmpl => Self::Fcmpl,
            Opcode::Fcmpg => Self::Fcmpg,
            Opcode::Dcmpl => Self::Dcmpl,
            Opcode::Dcmpg => Self::Dcmpg,
            Opcode::IfEq => Self::IfEq(op_i16(cursor)?),
            Opcode::IfNe => Self::IfNe(op_i16(cursor)?),
            Opcode::IfLt => Self::IfLt(op_i16(cursor)?),
            Opcode::IfGe => Self::IfGe(op_i16(cursor)?),
            Opcode::IfGt => Self::IfGt(op_i16(cursor)?),
            Opcode::IfLe => Self::IfLe(op_i16(cursor)?),
            Opcode::IfIcmpeq => Self::IfIcmpeq(op_i16(cursor)?),
            Opcode::IfIcmpne => Self::IfIcmpne(op_i16(cursor)?),
            Opcode::IfIcmplt => Self::IfIcmplt(op_i16(cursor)?),
            Opcode::IfIcmpge => Self::IfIcmpge(op_i16(cursor)?),
            Opcode::IfIcmpgt => Self::IfIcmpgt(op_i16(cursor)?),
            Opcode::IfIcmple => Self::IfIcmple(op_i16(cursor)?),
            Opcode::IfAcmpEq => Self::IfAcmpEq(op_i16(cursor)?),
            Opcode::IfAcmpNe => Self::IfAcmpNe(op_i16(cursor)?),
            Opcode::Goto => Self::Goto(op_i16(cursor)?),
            Opcode::Jsr => Self::Jsr(op_i16(cursor)?),
            Opcode::Ret => Self::Ret(op_u8(cursor)?),
            Opcode::TableSwitch => Self::read_tableswitch(cursor, pc)?,
            Opcode::Lookupswitch => Self::read_lookupswitch(cursor, pc)?,
            Opcode::Ireturn => Self::Ireturn,
            Opcode::Lreturn => Self::Lreturn,
            Opcode::Freturn => Self::Freturn,
            Opcode::Dreturn => Self::Dreturn,
            Opcode::Areturn => Self::Areturn,
            Opcode::Return => Self::Return,
            Opcode::Getstatic => Self::Getstatic(op_u16(cursor)?),
            Opcode::Putstatic => Self::Putstatic(op_u16(cursor)?),
            Opcode::Getfield => Self::Getfield(op_u16(cursor)?),
            Opcode::Putfield => Self::Putfield(op_u16(cursor)?),
            Opcode::InvokeVirtual => Self::InvokeVirtual(op_u16(cursor)?),
            Opcode::InvokeSpecial => Self::InvokeSpecial(op_u16(cursor)?),
            Opcode::InvokeStatic => Self::InvokeStatic(op_u16(cursor)?),
            Opcode::InvokeInterface => {
                let index = op_u16(cursor)?;
                let count = op_u8(cursor)?;
                let _zero = op_u8(cursor)?;
                Self::InvokeInterface(index, count)
            },
            Opcode::InvokeDynamic => {
                let index = op_u16(cursor)?;
                let _zero = op_u16(cursor)?;
                Self::InvokeDynamic(index)
            },
            Opcode::New => Self::New(op_u16(cursor)?),
            Opcode::Newarray => {
                let array_type_raw = op_u8(cursor)?;
                match ArrayType::from_tag(array_type_raw) {
                    Some(t) => Self::Newarray(t),
                    None => return Err(InstructionErr::UnknownArrayType(array_type_raw)),
                }
            },
            Opcode::Anewarray => Self::Anewarray(op_u16(cursor)?),
            Opcode::ArrayLength => Self::ArrayLength,
            Opcode::Athrow => Self::Athrow,
            Opcode::Checkcast => Self::Checkcast(op_u16(cursor)?),
            Opcode::Instanceof => Self::Instanceof(op_u16(cursor)?),
            Opcode::Monitorenter => Self::Monitorenter,
            Opcode::Monitorexit => Self::Monitorexit,
            Opcode::Multianewarray => {
                let index = op_u16(cursor)?;
                let dimensions = op_u8(cursor)?;
                Self::Multianewarray(index, dimensions)
            },
            Opcode::Ifnull => Self::Ifnull(op_i16(cursor)?),
            Opcode::Ifnonnull => Self::Ifnonnull(op_i16(cursor)?),
            Opcode::GotoW => Self::GotoW(op_i32(cursor)?),
            Opcode::JsrW => Self::JsrW(op_i32(cursor)?),
            Opcode::Breakpoint => Self::Breakpoint,
        };
        Ok(ins)
    }
}
/// Reads one jump offset of a `tableswitch`.
fn read_offset(c: &mut ByteCursor) -> (r: Result<i32, ReadError>)
    requires
        old(c).inv(),
    ensures
        read_matches(*old(c), *final(c), r, i32_reader()(old(c).data@, old(c).pos as int)),
{
    match c.i32() {
        Ok(v) => Ok(v),
        Err(e) => Err(ReadError::Format(ClassFormatErr::Cursor(e))),
    }
}

/// Reads one `(match, offset)` pair of a `lookupswitch`.
fn read_match_pair(c: &mut ByteCursor) -> (r: Result<(i32, i32), ReadError>)
    requires
        old(c).inv(),
    ensures
        read_matches(*old(c), *final(c), r, pair_reader()(old(c).data@, old(c).pos as int)),
{
    let a = match c.i32() {
        Ok(v) => v,
        Err(e) => return Err(ReadError::Format(ClassFormatErr::Cursor(e))),
    };
    let b = match c.i32() {
        Ok(v) => v,
        Err(e) => return Err(ReadError::Format(ClassFormatErr::Cursor(e))),
    };
    Ok((a, b))
}

/// Reads `n` items one after the other.
pub fn read_n_match_pairs(cursor: &mut ByteCursor, n: usize) -> (r: Result<Vec<(i32, i32)>, ReadError>)
    requires
        old(cursor).inv(),
    ensures
        vec_matches(*old(cursor), *final(cursor), r, spec_read_seq(old(cursor).data@, old(cursor).pos as int, n as nat, pair_reader())),
{
    let ghost d = cursor.data@;
    let ghost p0 = cursor.pos as int;
    let mut items: Vec<(i32, i32)> = Vec::new();
    let mut i: usize = 0;
    proof {
        assert(views(items@) =~= Seq::<(i32, i32)>::empty());
    }
    while i < n
        invariant
            cursor.inv(),
            cursor.data@ == d,
            d == old(cursor).data@,
            p0 == old(cursor).pos,
            i <= n,
            spec_read_seq(d, p0, i as nat, pair_reader()) == Ok::<(Seq<(i32, i32)>, int), SpecReadError>((views(items@), cursor.pos as int)),
        decreases n - i,
    {
        let ghost q = cursor.pos as int;
        let x = match read_match_pair(cursor) {
            Ok(x) => x,
            Err(e) => {
                proof {
                    lemma_read_seq_step_err(d, p0, i as nat, n as nat, pair_reader(), views(items@), q, e@);
                }
                return Err(e);
            },
        };
        let ghost old_items = items@;
        items.push(x);
        proof {
            assert(views(items@) =~= views(old_items).push(x@));
        }
        i = i + 1;
    }
    Ok(items)
}

/// Reads `n` items one after the other.
pub fn read_n_offsets(cursor: &mut ByteCursor, n: usize) -> (r: Result<Vec<i32>, ReadError>)
    requires
        old(cursor).inv(),
    ensures
        vec_matches(*old(cursor), *final(cursor), r, spec_read_seq(old(cursor).data@, old(cursor).pos as int, n as nat, i32_reader())),
{
    let ghost d = cursor.data@;
    let ghost p0 = cursor.pos as int;
    let mut items: Vec<i32> = Vec::new();
    let mut i: usize = 0;
    proof {
        assert(views(items@) =~= Seq::<i32>::empty());
    }
    while i < n
        invariant
            cursor.inv(),
            cursor.data@ == d,
            d == old(cursor).data@,
            p0 == old(cursor).pos,
            i <= n,
            spec_read_seq(d, p0, i as nat, i32_reader()) == Ok::<(Seq<i32>, int), SpecReadError>((views(items@), cursor.pos as int)),
        decreases n - i,
    {
        let ghost q = cursor.pos as int;
        let x = match read_offset(cursor) {
            Ok(x) => x,
            Err(e) => {
                proof {
                    lemma_read_seq_step_err(d, p0, i as nat, n as nat, i32_reader(), views(items@), q, e@);
                }
                return Err(e);
            },
        };
        let ghost old_items = items@;
        items.push(x);
        proof {
            assert(views(items@) =~= views(old_items).push(x@));
        }
        i = i + 1;
    }
    Ok(items)
}

impl Instruction {
    /// Zero-fill that aligns the operands of a switch whose opcode is at `pc`.
    fn switch_padding(pc: usize) -> (r: u8)
        requires
            pc < usize::MAX,
        ensures
            r == spec_switch_padding(pc as int),
    {
        ((4 - (pc + 1) % 4) % 4) as u8
    }

    /// Skips the padding of a switch at `pc`; the cursor stands just after its opcode.
    fn skip_padding(cursor: &mut ByteCursor, pc: usize) -> (r: Result<u8, InstructionErr>)
        requires
            old(cursor).inv(),
            old(cursor).pos == pc + 1,
        ensures
            final(cursor).inv(),
            final(cursor).data@ == old(cursor).data@,
            r matches Ok(p) ==> p == spec_switch_padding(pc as int)
                && avail(old(cursor).data@, pc + 1, p as int) && final(cursor).pos == pc + 1 + p,
            r matches Err(e) ==> e == InstructionErr::Cursor(CursorError::UnexpectedEof)
                && !avail(old(cursor).data@, pc + 1, spec_switch_padding(pc as int) as int),
    {
        let padding = Self::switch_padding(pc);
        if cursor.remaining() < padding as usize {
            return Err(InstructionErr::Cursor(CursorError::UnexpectedEof));
        }
        let len = cursor.data.len();
        assert(cursor.pos + padding <= len);
        cursor.pos = cursor.pos + padding as usize;
        Ok(padding)
    }

    fn read_lookupswitch(cursor: &mut ByteCursor, pc: usize) -> (r: Result<Instruction, InstructionErr>)
        requires
            old(cursor).inv(),
            old(cursor).pos == pc + 1,
        ensures
            match spec_decode_lookupswitch(old(cursor).data@, pc as int) {
                Ok((i, _)) => r matches Ok(x) && x@ == i,
                Err(SpecDecodeError::Invalid(e)) => r == Err::<Instruction, InstructionErr>(e),
            },
    {
        let padding = Self::skip_padding(cursor, pc)?;
        let default_offset = op_i32(cursor)?;
        let npairs = op_i32(cursor)?;
        if npairs < 0 {
            return Err(InstructionErr::InvalidSwitchRange);
        }
        let pairs = match read_n_match_pairs(cursor, npairs as usize) {
            Ok(v) => v,
            Err(_) => return Err(InstructionErr::Cursor(CursorError::UnexpectedEof)),
        };
        proof {
            assert(views(pairs@) =~= pairs@);
        }
        Ok(Instruction::Lookupswitch(LookupSwitchData { padding, default_offset, pairs }))
    }

    fn read_tableswitch(cursor: &mut ByteCursor, pc: usize) -> (r: Result<Instruction, InstructionErr>)
        requires
            old(cursor).inv(),
            old(cursor).pos == pc + 1,
        ensures
            match spec_decode_tableswitch(old(cursor).data@, pc as int) {
                Ok((i, _)) => r matches Ok(x) && x@ == i,
                Err(SpecDecodeError::Invalid(e)) => r == Err::<Instruction, InstructionErr>(e),
            },
    {
        let padding = Self::skip_padding(cursor, pc)?;
        let default_offset = op_i32(cursor)?;
        let low = op_i32(cursor)?;
        let high = op_i32(cursor)?;
        if high < low {
            return Err(InstructionErr::InvalidSwitchRange);
        }
        let n: u64 = (high as i64 - low as i64 + 1) as u64;
        if (cursor.remaining() as u64) / 4 < n {
            proof {
                lemma_offsets_need_bytes(cursor.data@, cursor.pos as int, n as nat);
            }
            return Err(InstructionErr::Cursor(CursorError::UnexpectedEof));
        }
        let num_offsets = n as usize;
        let offsets = match read_n_offsets(cursor, num_offsets) {
            Ok(v) => v,
            Err(_) => return Err(InstructionErr::Cursor(CursorError::UnexpectedEof)),
        };
        proof {
            assert(views(offsets@) =~= offsets@);
        }
        Ok(Instruction::TableSwitch(TableSwitchData { padding, default_offset, low, high, offsets }))
    }

    /// Decodes the instruction whose opcode byte is at `pc` in `code`; `pc` lies within or
    /// at the end of `code`.
    pub fn new_at(code: &[u8], pc: usize) -> (r: Result<Instruction, InstructionErr>)
        requires
            pc <= code@.len(),
        ensures
            match spec_decode(code@, pc as int) {
                Ok((i, _)) => r matches Ok(x) && x@ == i,
                Err(SpecDecodeError::Invalid(e)) => r == Err::<Instruction, InstructionErr>(e),
            },
    {
        let mut cursor = ByteCursor { data: code, pos: pc };
        let opcode_byte = op_u8(&mut cursor)?;
        let opcode = match Opcode::from_byte(opcode_byte) {
            Some(op) => op,
            None => return Err(InstructionErr::UnsupportedOpCode(opcode_byte)),
        };
        Self::decode_operands(opcode, &mut cursor)
    }
}

/// `r`, a read of `n` items from `p`, gave `n` items and ended `n * k` bytes on, if it succeeded.
pub open spec fn read_fixed<T>(r: SpecRead<Seq<T>>, p: int, n: nat, k: int) -> bool {
    match r {
        Ok((xs, q)) => xs.len() == n && q == p + n * k,
        Err(_) => true,
    }
}

/// Reading `n` items that each take `k` bytes gives `n` items and ends `n * k` bytes on.
pub proof fn lemma_read_seq_fixed<T>(
    d: Seq<u8>,
    p: int,
    n: nat,
    f: spec_fn(Seq<u8>, int) -> SpecRead<T>,
    k: int,
)
    requires
        forall|q: int| #[trigger] f(d, q) matches Ok((_, r)) ==> r == q + k,
    ensures
        read_fixed(spec_read_seq(d, p, n, f), p, n, k),
    decreases n,
{
    if n > 0 {
        lemma_read_seq_fixed(d, p, (n - 1) as nat, f, k);
        assert((n - 1) * k + k == n * k) by (nonlinear_arith);
    }
}

proof fn lemma_lookupswitch_length(code: Seq<u8>, pc: int)
    ensures
        spec_decode_lookupswitch(code, pc) matches Ok((i, end)) ==> {
            &&& end - pc == spec_encoded_len(i)
            &&& spec_encoded_len(i) <= u16::MAX ==> spec_byte_size(i) == spec_encoded_len(i)
        },
{
        let pad = spec_switch_padding(pc);
        if let Some((_, q)) = spec_i32(code, pc + 1 + pad) {
            if let Some((npairs, r)) = spec_i32(code, q) {
                if npairs >= 0 {
                    lemma_read_seq_fixed(code, r, npairs as nat, pair_reader(), 8);
                }
            }
        }
}

proof fn lemma_tableswitch_length(code: Seq<u8>, pc: int)
    ensures
        spec_decode_tableswitch(code, pc) matches Ok((i, end)) ==> {
            &&& end - pc == spec_encoded_len(i)
            &&& spec_encoded_len(i) <= u16::MAX ==> spec_byte_size(i) == spec_encoded_len(i)
        },
{
        let pad = spec_switch_padding(pc);
        if let Some((_, q)) = spec_i32(code, pc + 1 + pad) {
            if let Some((low, r)) = spec_i32(code, q) {
                if let Some((high, s)) = spec_i32(code, r) {
                    let n = high - low + 1;
                    if low <= high {
                        lemma_read_seq_fixed(code, s, n as nat, i32_reader(), 4);
                    }
                }
            }
        }
}

/// The operands of `op` at `pc` take the rest of [`spec_encoded_len`], and the decoded
/// instruction has opcode `op`.
#[verifier::rlimit(100)]
#[verifier::spinoff_prover]
proof fn lemma_operands_length(op: Opcode, code: Seq<u8>, pc: int)
    ensures
        spec_decode_operands(op, code, pc) matches Ok((i, end)) ==> {
            &&& end - pc == spec_encoded_len(i)
            &&& spec_instruction_opcode(i) == Some(op)
            &&& spec_encoded_len(i) <= u16::MAX ==> spec_byte_size(i) == spec_encoded_len(i)
        },
{
    match op {
        Opcode::Nop => {},
        Opcode::AconstNull => {},
        Opcode::IconstM1 => {},
        Opcode::Iconst0 => {},
        Opcode::Iconst1 => {},
        Opcode::Iconst2 => {},
        Opcode::Iconst3 => {},
        Opcode::Iconst4 => {},
        Opcode::Iconst5 => {},
        Opcode::Lconst0 => {},
        Opcode::Lconst1 => {},
        Opcode::Fconst0 => {},
        Opcode::Fconst1 => {},
        Opcode::Fconst2 => {},
        Opcode::Dconst0 => {},
        Opcode::Dconst1 => {},
        Opcode::Bipush => {},
        Opcode::Sipush => {},
        Opcode::Ldc => {},
        Opcode::LdcW => {},
        Opcode::Ldc2W => {},
        Opcode::Iload => {},
        Opcode::Lload => {},
        Opcode::Fload => {},
        Opcode::Dload => {},
        Opcode::Aload => {},
        Opcode::Iload0 => {},
        Opcode::Iload1 => {},
        Opcode::Iload2 => {},
        Opcode::Iload3 => {},
        Opcode::Lload0 => {},
        Opcode::Lload1 => {},
        Opcode::Lload2 => {},
        Opcode::Lload3 => {},
        Opcode::Fload0 => {},
        Opcode::Fload1 => {},
        Opcode::Fload2 => {},
        Opcode::Fload3 => {},
        Opcode::Dload0 => {},
        Opcode::Dload1 => {},
        Opcode::Dload2 => {},
        Opcode::Dload3 => {},
        Opcode::Aload0 => {},
        Opcode::Aload1 => {},
        Opcode::Aload2 => {},
        Opcode::Aload3 => {},
        Opcode::Iaload => {},
        Opcode::Laload => {},
        Opcode::Faload => {},
        Opcode::Daload => {},
        Opcode::Aaload => {},
        Opcode::Baload => {},
        Opcode::Caload => {},
        Opcode::Saload => {},
        Opcode::Istore => {},
        Opcode::Lstore => {},
        Opcode::Fstore => {},
        Opcode::Dstore => {},
        Opcode::Astore => {},
        Opcode::Istore0 => {},
        Opcode::Istore1 => {},
        Opcode::Istore2 => {},
        Opcode::Istore3 => {},
        Opcode::Lstore0 => {},
        Opcode::Lstore1 => {},
        Opcode::Lstore2 => {},
        Opcode::Lstore3 => {},
        Opcode::Fstore0 => {},
        Opcode::Fstore1 => {},
        Opcode::Fstore2 => {},
        Opcode::Fstore3 => {},
        Opcode::Dstore0 => {},
        Opcode::Dstore1 => {},
        Opcode::Dstore2 => {},
        Opcode::Dstore3 => {},
        Opcode::Astore0 => {},
        Opcode::Astore1 => {},
        Opcode::Astore2 => {},
        Opcode::Astore3 => {},
        Opcode::Iastore => {},
        Opcode::Lastore => {},
        Opcode::Fastore => {},
        Opcode::Dastore => {},
        Opcode::Aastore => {},
        Opcode::Bastore => {},
        Opcode::Castore => {},
        Opcode::Sastore => {},
        Opcode::Pop => {},
        Opcode::Pop2 => {},
        Opcode::Dup => {},
        Opcode::DupX1 => {},
        Opcode::DupX2 => {},
        Opcode::Dup2 => {},
        Opcode::Dup2X1 => {},
        Opcode::Dup2X2 => {},
        Opcode::Swap => {},
        Opcode::Iadd => {},
        Opcode::Ladd => {},
        Opcode::Fadd => {},
        Opcode::Dadd => {},
        Opcode::Isub => {},
        Opcode::Lsub => {},
        Opcode::Fsub => {},
        Opcode::Dsub => {},
        Opcode::Imul => {},
        Opcode::Lmul => {},
        Opcode::Fmul => {},
        Opcode::Dmul => {},
        Opcode::Idiv => {},
        Opcode::Ldiv => {},
        Opcode::Fdiv => {},
        Opcode::Ddiv => {},
        Opcode::Irem => {},
        Opcode::Lrem => {},
        Opcode::Frem => {},
        Opcode::Drem => {},
        Opcode::Ineg => {},
        Opcode::Lneg => {},
        Opcode::Fneg => {},
        Opcode::Dneg => {},
        Opcode::Ishl => {},
        Opcode::Lshl => {},
        Opcode::Ishr => {},
        Opcode::Lshr => {},
        Opcode::Iushr => {},
        Opcode::Lushr => {},
        Opcode::Iand => {},
        Opcode::Land => {},
        Opcode::Ior => {},
        Opcode::Lor => {},
        Opcode::Ixor => {},
        Opcode::Lxor => {},
        Opcode::Iinc => {},
        Opcode::I2l => {},
        Opcode::I2f => {},
        Opcode::I2d => {},
        Opcode::L2i => {},
        Opcode::L2f => {},
        Opcode::L2d => {},
        Opcode::F2i => {},
        Opcode::F2l => {},
        Opcode::F2d => {},
        Opcode::D2i => {},
        Opcode::D2l => {},
        Opcode::D2f => {},
        Opcode::I2b => {},
        Opcode::I2c => {},
        Opcode::I2s => {},
        Opcode::Lcmp => {},
        Opcode::Fcmpl => {},
        Opcode::Fcmpg => {},
        Opcode::Dcmpl => {},
        Opcode::Dcmpg => {},
        Opcode::IfEq => {},
        Opcode::IfNe => {},
        Opcode::IfLt => {},
        Opcode::IfGe => {},
        Opcode::IfGt => {},
        Opcode::IfLe => {},
        Opcode::IfIcmpeq => {},
        Opcode::IfIcmpne => {},
        Opcode::IfIcmplt => {},
        Opcode::IfIcmpge => {},
        Opcode::IfIcmpgt => {},
        Opcode::IfIcmple => {},
        Opcode::IfAcmpEq => {},
        Opcode::IfAcmpNe => {},
        Opcode::Goto => {},
        Opcode::Jsr => {},
        Opcode::Ret => {},
        Opcode::TableSwitch => lemma_tableswitch_length(code, pc),
        Opcode::Lookupswitch => lemma_lookupswitch_length(code, pc),
        Opcode::Ireturn => {},
        Opcode::Lreturn => {},
        Opcode::Freturn => {},
        Opcode::Dreturn => {},
        Opcode::Areturn => {},
        Opcode::Return => {},
        Opcode::Getstatic => {},
        Opcode::Putstatic => {},
        Opcode::Getfield => {},
        Opcode::Putfield => {},
        Opcode::InvokeVirtual => {},
        Opcode::InvokeSpecial => {},
        Opcode::InvokeStatic => {},
        Opcode::InvokeInterface => {},
        Opcode::InvokeDynamic => {},
        Opcode::New => {},
        Opcode::Newarray => {},
        Opcode::Anewarray => {},
        Opcode::ArrayLength => {},
        Opcode::Athrow => {},
        Opcode::Checkcast => {},
        Opcode::Instanceof => {},
        Opcode::Monitorenter => {},
        Opcode::Monitorexit => {},
        Opcode::Multianewarray => {},
        Opcode::Ifnull => {},
        Opcode::Ifnonnull => {},
        Opcode::GotoW => {},
        Opcode::JsrW => {},
        Opcode::Breakpoint => {},
    }
}

/// A decoded instruction takes exactly [`spec_encoded_len`] bytes, its opcode is the one
/// its first byte encodes, and [`Instruction::byte_size`] reports that length whenever it
/// fits in a `u16`.
pub proof fn lemma_decode_length(code: Seq<u8>, pc: int)
    ensures
        spec_decode(code, pc) matches Ok((i, end)) ==> {
            &&& end - pc == spec_encoded_len(i)
            &&& spec_instruction_opcode(i) == spec_opcode_from_tag(code[pc])
            &&& spec_encoded_len(i) <= u16::MAX ==> spec_byte_size(i) == spec_encoded_len(i)
        },
{
    if avail(code, pc, 1) {
        if let Some(op) = spec_opcode_from_tag(code[pc]) {
            lemma_operands_length(op, code, pc);
        }
    }
}
/// Reading `n` jump offsets from `p` takes `4 * n` bytes, all within `d`.
proof fn lemma_offsets_need_bytes(d: Seq<u8>, p: int, n: nat)
    requires
        0 <= p,
    ensures
        spec_read_seq(d, p, n, i32_reader()) matches Ok((_, q)) ==> q == p + 4 * n && (n > 0 ==> q <= d.len()),
    decreases n,
{
    if n > 0 {
        lemma_offsets_need_bytes(d, p, (n - 1) as nat);
    }
}

/// A read of `n` items that each take `k` bytes and stay within `d` ends within `d`, and
/// gives the same on any `d2` that agrees with `d` up to where it ended.
proof fn lemma_read_seq_agree<T>(
    d: Seq<u8>,
    d2: Seq<u8>,
    m: int,
    p: int,
    n: nat,
    f: spec_fn(Seq<u8>, int) -> SpecRead<T>,
    k: int,
)
    requires
        0 <= p,
        0 <= k,
        m <= d.len(),
        m <= d2.len(),
        forall|j: int| 0 <= j < m ==> d[j] == d2[j],
        forall|q: int| #[trigger] f(d, q) matches Ok((_, r)) ==> r == q + k && r <= d.len(),
        forall|q: int| 0 <= q && q + k <= m ==> #[trigger] f(d2, q) == f(d, q),
    ensures
        spec_read_seq(d, p, n, f) matches Ok((_, q)) ==> (n > 0 ==> q <= d.len()) && (q <= m ==> spec_read_seq(
            d2,
            p,
            n,
            f,
        ) == spec_read_seq(d, p, n, f)),
    decreases n,
{
    if n > 0 {
        lemma_read_seq_agree(d, d2, m, p, (n - 1) as nat, f, k);
        lemma_read_seq_fixed(d, p, (n - 1) as nat, f, k);
        lemma_read_seq_fixed(d, p, n, f, k);
        if let Ok((_, q)) = spec_read_seq(d, p, (n - 1) as nat, f) {
            assert(q >= p);
        }
    }
}

/// The `lookupswitch` at `pc` decodes alike on `d` and on any `d2` that agrees with `d`
/// up to `m`, if it ends by `m`; it ends within `d`.
proof fn lemma_lookupswitch_agree(d: Seq<u8>, d2: Seq<u8>, m: int, pc: int)
    requires
        0 <= pc,
        m <= d.len(),
        m <= d2.len(),
        forall|j: int| 0 <= j < m ==> d[j] == d2[j],
    ensures
        spec_decode_lookupswitch(d, pc) matches Ok((_, e)) ==> e <= d.len() && (e <= m ==> spec_decode_lookupswitch(
            d2,
            pc,
        ) == spec_decode_lookupswitch(d, pc)),
{
    let pad = spec_switch_padding(pc);
    if let Some((_, q)) = spec_i32(d, pc + 1 + pad) {
        if let Some((npairs, r)) = spec_i32(d, q) {
            if npairs >= 0 {
                lemma_read_seq_agree(d, d2, m, r, npairs as nat, pair_reader(), 8);
                lemma_read_seq_fixed(d, r, npairs as nat, pair_reader(), 8);
            }
        }
    }
}

/// The `tableswitch` at `pc` decodes alike on `d` and on any `d2` that agrees with `d`
/// up to `m`, if it ends by `m`; it ends within `d`.
proof fn lemma_tableswitch_agree(d: Seq<u8>, d2: Seq<u8>, m: int, pc: int)
    requires
        0 <= pc,
        m <= d.len(),
        m <= d2.len(),
        forall|j: int| 0 <= j < m ==> d[j] == d2[j],
    ensures
        spec_decode_tableswitch(d, pc) matches Ok((_, e)) ==> e <= d.len() && (e <= m ==> spec_decode_tableswitch(
            d2,
            pc,
        ) == spec_decode_tableswitch(d, pc)),
{
    let pad = spec_switch_padding(pc);
    if let Some((_, q)) = spec_i32(d, pc + 1 + pad) {
        if let Some((low, r)) = spec_i32(d, q) {
            if let Some((high, s)) = spec_i32(d, r) {
                if low <= high {
                    let n = (high - low + 1) as nat;
                    lemma_read_seq_agree(d, d2, m, s, n, i32_reader(), 4);
                    lemma_read_seq_fixed(d, s, n, i32_reader(), 4);
                }
            }
        }
    }
}

/// The operands of `op` at `pc` decode alike on `d` and on any `d2` that agrees with `d`
/// up to `m`, if they end by `m`; they end within `d`.
#[verifier::rlimit(100)]
#[verifier::spinoff_prover]
proof fn lemma_operands_agree(op: Opcode, d: Seq<u8>, d2: Seq<u8>, m: int, pc: int)
    requires
        0 <= pc < m,
        m <= d.len(),
        m <= d2.len(),
        forall|j: int| 0 <= j < m ==> d[j] == d2[j],
    ensures
        spec_decode_operands(op, d, pc) matches Ok((_, e)) ==> e <= d.len() && (e <= m ==> spec_decode_operands(
            op,
            d2,
            pc,
        ) == spec_decode_operands(op, d, pc)),
{
    match op {
        Opcode::Nop => {},
        Opcode::AconstNull => {},
        Opcode::IconstM1 => {},
        Opcode::Iconst0 => {},
        Opcode::Iconst1 => {},
        Opcode::Iconst2 => {},
        Opcode::Iconst3 => {},
        Opcode::Iconst4 => {},
        Opcode::Iconst5 => {},
        Opcode::Lconst0 => {},
        Opcode::Lconst1 => {},
        Opcode::Fconst0 => {},
        Opcode::Fconst1 => {},
        Opcode::Fconst2 => {},
        Opcode::Dconst0 => {},
        Opcode::Dconst1 => {},
        Opcode::Bipush => {},
        Opcode::Sipush => {},
        Opcode::Ldc => {},
        Opcode::LdcW => {},
        Opcode::Ldc2W => {},
        Opcode::Iload => {},
        Opcode::Lload => {},
        Opcode::Fload => {},
        Opcode::Dload => {},
        Opcode::Aload => {},
        Opcode::Iload0 => {},
        Opcode::Iload1 => {},
        Opcode::Iload2 => {},
        Opcode::Iload3 => {},
        Opcode::Lload0 => {},
        Opcode::Lload1 => {},
        Opcode::Lload2 => {},
        Opcode::Lload3 => {},
        Opcode::Fload0 => {},
        Opcode::Fload1 => {},
        Opcode::Fload2 => {},
        Opcode::Fload3 => {},
        Opcode::Dload0 => {},
        Opcode::Dload1 => {},
        Opcode::Dload2 => {},
        Opcode::Dload3 => {},
        Opcode::Aload0 => {},
        Opcode::Aload1 => {},
        Opcode::Aload2 => {},
        Opcode::Aload3 => {},
        Opcode::Iaload => {},
        Opcode::Laload => {},
        Opcode::Faload => {},
        Opcode::Daload => {},
        Opcode::Aaload => {},
        Opcode::Baload => {},
        Opcode::Caload => {},
        Opcode::Saload => {},
        Opcode::Istore => {},
        Opcode::Lstore => {},
        Opcode::Fstore => {},
        Opcode::Dstore => {},
        Opcode::Astore => {},
        Opcode::Istore0 => {},
        Opcode::Istore1 => {},
        Opcode::Istore2 => {},
        Opcode::Istore3 => {},
        Opcode::Lstore0 => {},
        Opcode::Lstore1 => {},
        Opcode::Lstore2 => {},
        Opcode::Lstore3 => {},
        Opcode::Fstore0 => {},
        Opcode::Fstore1 => {},
        Opcode::Fstore2 => {},
        Opcode::Fstore3 => {},
        Opcode::Dstore0 => {},
        Opcode::Dstore1 => {},
        Opcode::Dstore2 => {},
        Opcode::Dstore3 => {},
        Opcode::Astore0 => {},
        Opcode::Astore1 => {},
        Opcode::Astore2 => {},
        Opcode::Astore3 => {},
        Opcode::Iastore => {},
        Opcode::Lastore => {},
        Opcode::Fastore => {},
        Opcode::Dastore => {},
        Opcode::Aastore => {},
        Opcode::Bastore => {},
        Opcode::Castore => {},
        Opcode::Sastore => {},
        Opcode::Pop => {},
        Opcode::Pop2 => {},
        Opcode::Dup => {},
        Opcode::DupX1 => {},
        Opcode::DupX2 => {},
        Opcode::Dup2 => {},
        Opcode::Dup2X1 => {},
        Opcode::Dup2X2 => {},
        Opcode::Swap => {},
        Opcode::Iadd => {},
        Opcode::Ladd => {},
        Opcode::Fadd => {},
        Opcode::Dadd => {},
        Opcode::Isub => {},
        Opcode::Lsub => {},
        Opcode::Fsub => {},
        Opcode::Dsub => {},
        Opcode::Imul => {},
        Opcode::Lmul => {},
        Opcode::Fmul => {},
        Opcode::Dmul => {},
        Opcode::Idiv => {},
        Opcode::Ldiv => {},
        Opcode::Fdiv => {},
        Opcode::Ddiv => {},
        Opcode::Irem => {},
        Opcode::Lrem => {},
        Opcode::Frem => {},
        Opcode::Drem => {},
        Opcode::Ineg => {},
        Opcode::Lneg => {},
        Opcode::Fneg => {},
        Opcode::Dneg => {},
        Opcode::Ishl => {},
        Opcode::Lshl => {},
        Opcode::Ishr => {},
        Opcode::Lshr => {},
        Opcode::Iushr => {},
        Opcode::Lushr => {},
        Opcode::Iand => {},
        Opcode::Land => {},
        Opcode::Ior => {},
        Opcode::Lor => {},
        Opcode::Ixor => {},
        Opcode::Lxor => {},
        Opcode::Iinc => {},
        Opcode::I2l => {},
        Opcode::I2f => {},
        Opcode::I2d => {},
        Opcode::L2i => {},
        Opcode::L2f => {},
        Opcode::L2d => {},
        Opcode::F2i => {},
        Opcode::F2l => {},
        Opcode::F2d => {},
        Opcode::D2i => {},
        Opcode::D2l => {},
        Opcode::D2f => {},
        Opcode::I2b => {},
        Opcode::I2c => {},
        Opcode::I2s => {},
        Opcode::Lcmp => {},
        Opcode::Fcmpl => {},
        Opcode::Fcmpg => {},
        Opcode::Dcmpl => {},
        Opcode::Dcmpg => {},
        Opcode::IfEq => {},
        Opcode::IfNe => {},
        Opcode::IfLt => {},
        Opcode::IfGe => {},
        Opcode::IfGt => {},
        Opcode::IfLe => {},
        Opcode::IfIcmpeq => {},
        Opcode::IfIcmpne => {},
        Opcode::IfIcmplt => {},
        Opcode::IfIcmpge => {},
        Opcode::IfIcmpgt => {},
        Opcode::IfIcmple => {},
        Opcode::IfAcmpEq => {},
        Opcode::IfAcmpNe => {},
        Opcode::Goto => {},
        Opcode::Jsr => {},
        Opcode::Ret => {},
        Opcode::TableSwitch => lemma_tableswitch_agree(d, d2, m, pc),
        Opcode::Lookupswitch => lemma_lookupswitch_agree(d, d2, m, pc),
        Opcode::Ireturn => {},
        Opcode::Lreturn => {},
        Opcode::Freturn => {},
        Opcode::Dreturn => {},
        Opcode::Areturn => {},
        Opcode::Return => {},
        Opcode::Getstatic => {},
        Opcode::Putstatic => {},
        Opcode::Getfield => {},
        Opcode::Putfield => {},
        Opcode::InvokeVirtual => {},
        Opcode::InvokeSpecial => {},
        Opcode::InvokeStatic => {},
        Opcode::InvokeInterface => {},
        Opcode::InvokeDynamic => {},
        Opcode::New => {},
        Opcode::Newarray => {},
        Opcode::Anewarray => {},
        Opcode::ArrayLength => {},
        Opcode::Athrow => {},
        Opcode::Checkcast => {},
        Opcode::Instanceof => {},
        Opcode::Monitorenter => {},
        Opcode::Monitorexit => {},
        Opcode::Multianewarray => {},
        Opcode::Ifnull => {},
        Opcode::Ifnonnull => {},
        Opcode::GotoW => {},
        Opcode::JsrW => {},
        Opcode::Breakpoint => {},
    }

}

/// An instruction at `pc` decodes alike on `d` and on any `d2` that agrees with `d` up
/// to `m`, if it ends by `m`; it ends within `d`.
proof fn lemma_decode_agree(d: Seq<u8>, d2: Seq<u8>, m: int, pc: int)
    requires
        0 <= pc < m,
        m <= d.len(),
        m <= d2.len(),
        forall|j: int| 0 <= j < m ==> d[j] == d2[j],
    ensures
        spec_decode(d, pc) matches Ok((_, e)) ==> e <= d.len() && (e <= m ==> spec_decode(d2, pc) == spec_decode(d, pc)),
{
    if let Some(op) = spec_opcode_from_tag(d[pc]) {
        assert(d2[pc] == d[pc]);
        lemma_operands_agree(op, d, d2, m, pc);
    }
}

/// An instruction decodes from exactly its bytes: on the code cut at any `k` from its
/// end on it decodes to the same, and on the code cut before its end decoding fails. So
/// its end, `pc` plus [`Instruction::byte_size`] where that fits in a `u16`, is the
/// shortest prefix of the code on which [`Instruction::new_at`] succeeds.
pub proof fn lemma_decode_needs_its_bytes(code: Seq<u8>, pc: int, k: int)
    requires
        0 <= pc <= k <= code.len(),
        spec_decode(code, pc) is Ok,
    ensures
        k >= spec_decode(code, pc)->Ok_0.1 ==> spec_decode(code.take(k), pc) == spec_decode(code, pc),
        k < spec_decode(code, pc)->Ok_0.1 ==> spec_decode(code.take(k), pc) is Err,
        spec_encoded_len(spec_decode(code, pc)->Ok_0.0) <= u16::MAX ==> spec_decode(code, pc)->Ok_0.1 == pc
            + spec_byte_size(spec_decode(code, pc)->Ok_0.0),
{
    let d2 = code.take(k);
    let e = spec_decode(code, pc)->Ok_0.1;
    if pc < k {
        lemma_decode_agree(code, d2, k, pc);
        lemma_decode_agree(d2, code, k, pc);
    }
    lemma_decode_length(code, pc);
}

} // verus!
