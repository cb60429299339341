//! JVM opcodes.

use vstd::prelude::*;

verus! {

/// A JVM opcode, as the first byte of an instruction encodes it.
///
/// https://docs.oracle.com/javase/specs/jvms/se25/html/jvms-6.html
#[derive(Debug, Clone, Copy, PartialEq, Eq, Structural)]
pub enum Opcode {
    Nop,
    AconstNull,
    IconstM1,
    Iconst0,
    Iconst1,
    Iconst2,
    Iconst3,
    Iconst4,
    Iconst5,
    Lconst0,
    Lconst1,
    Fconst0,
    Fconst1,
    Fconst2,
    Dconst0,
    Dconst1,
    Bipush,
    Sipush,
    Ldc,
    LdcW,
    Ldc2W,
    Iload,
    Lload,
    Fload,
    Dload,
    Aload,
    Iload0,
    Iload1,
    Iload2,
    Iload3,
    Lload0,
    Lload1,
    Lload2,
    Lload3,
    Fload0,
    Fload1,
    Fload2,
    Fload3,
    Dload0,
    Dload1,
    Dload2,
    Dload3,
    Aload0,
    Aload1,
    Aload2,
    Aload3,
    Iaload,
    Laload,
    Faload,
    Daload,
    Aaload,
    Baload,
    Caload,
    Saload,
    Istore,
    Lstore,
    Fstore,
    Dstore,
    Astore,
    Istore0,
    Istore1,
    Istore2,
    Istore3,
    Lstore0,
    Lstore1,
    Lstore2,
    Lstore3,
    Fstore0,
    Fstore1,
    Fstore2,
    Fstore3,
    Dstore0,
    Dstore1,
    Dstore2,
    Dstore3,
    Astore0,
    Astore1,
    Astore2,
    Astore3,
    Iastore,
    Lastore,
    Fastore,
    Dastore,
    Aastore,
    Bastore,
    Castore,
    Sastore,
    Pop,
    Pop2,
    Dup,
    DupX1,
    DupX2,
    Dup2,
    Dup2X1,
    Dup2X2,
    Swap,
    Iadd,
    Ladd,
    Fadd,
    Dadd,
    Isub,
    Lsub,
    Fsub,
    Dsub,
    Imul,
    Lmul,
    Fmul,
    Dmul,
    Idiv,
    Ldiv,
    Fdiv,
    Ddiv,
    Irem,
    Lrem,
    Frem,
    Drem,
    Ineg,
    Lneg,
    Fneg,
    Dneg,
    Ishl,
    Lshl,
    Ishr,
    Lshr,
    Iushr,
    Lushr,
    Iand,
    Land,
    Ior,
    Lor,
    Ixor,
    Lxor,
    Iinc,
    I2l,
    I2f,
    I2d,
    L2i,
    L2f,
    L2d,
    F2i,
    F2l,
    F2d,
    D2i,
    D2l,
    D2f,
    I2b,
    I2c,
    I2s,
    Lcmp,
    Fcmpl,
    Fcmpg,
    Dcmpl,
    Dcmpg,
    IfEq,
    IfNe,
    IfLt,
    IfGe,
    IfGt,
    IfLe,
    IfIcmpeq,
    IfIcmpne,
    IfIcmplt,
    IfIcmpge,
    IfIcmpgt,
    IfIcmple,
    IfAcmpEq,
    IfAcmpNe,
    Goto,
    Jsr,
    Ret,
    TableSwitch,
    Lookupswitch,
    Ireturn,
    Lreturn,
    Freturn,
    Dreturn,
    Areturn,
    Return,
    Getstatic,
    Putstatic,
    Getfield,
    Putfield,
    InvokeVirtual,
    InvokeSpecial,
    InvokeStatic,
    InvokeInterface,
    InvokeDynamic,
    New,
    Newarray,
    Anewarray,
    ArrayLength,
    Athrow,
    Checkcast,
    Instanceof,
    Monitorenter,
    Monitorexit,
    Multianewarray,
    Ifnull,
    Ifnonnull,
    GotoW,
    JsrW,
    Breakpoint,
}

/// The byte that encodes each [`Opcode`].
pub open spec fn spec_opcode_tag(k: Opcode) -> u8 {
    match k {
        Opcode::Nop => 0x0,
        Opcode::AconstNull => 0x1,
        Opcode::IconstM1 => 0x2,
        Opcode::Iconst0 => 0x3,
        Opcode::Iconst1 => 0x4,
        Opcode::Iconst2 => 0x5,
        Opcode::Iconst3 => 0x6,
        Opcode::Iconst4 => 0x7,
        Opcode::Iconst5 => 0x8,
        Opcode::Lconst0 => 0x9,
        Opcode::Lconst1 => 0xa,
        Opcode::Fconst0 => 0xb,
        Opcode::Fconst1 => 0xc,
        Opcode::Fconst2 => 0xd,
        Opcode::Dconst0 => 0xe,
        Opcode::Dconst1 => 0xf,
        Opcode::Bipush => 0x10,
        Opcode::Sipush => 0x11,
        Opcode::Ldc => 0x12,
        Opcode::LdcW => 0x13,
        Opcode::Ldc2W => 0x14,
        Opcode::Iload => 0x15,
        Opcode::Lload => 0x16,
        Opcode::Fload => 0x17,
        Opcode::Dload => 0x18,
        Opcode::Aload => 0x19,
        Opcode::Iload0 => 0x1a,
        Opcode::Iload1 => 0x1b,
        Opcode::Iload2 => 0x1c,
        Opcode::Iload3 => 0x1d,
        Opcode::Lload0 => 0x1e,
        Opcode::Lload1 => 0x1f,
        Opcode::Lload2 => 0x20,
        Opcode::Lload3 => 0x21,
        Opcode::Fload0 => 0x22,
        Opcode::Fload1 => 0x23,
        Opcode::Fload2 => 0x24,
        Opcode::Fload3 => 0x25,
        Opcode::Dload0 => 0x26,
        Opcode::Dload1 => 0x27,
        Opcode::Dload2 => 0x28,
        Opcode::Dload3 => 0x29,
        Opcode::Aload0 => 0x2a,
        Opcode::Aload1 => 0x2b,
        Opcode::Aload2 => 0x2c,
        Opcode::Aload3 => 0x2d,
        Opcode::Iaload => 0x2e,
        Opcode::Laload => 0x2f,
        Opcode::Faload => 0x30,
        Opcode::Daload => 0x31,
        Opcode::Aaload => 0x32,
        Opcode::Baload => 0x33,
        Opcode::Caload => 0x34,
        Opcode::Saload => 0x35,
        Opcode::Istore => 0x36,
        Opcode::Lstore => 0x37,
        Opcode::Fstore => 0x38,
        Opcode::Dstore => 0x39,
        Opcode::Astore => 0x3a,
        Opcode::Istore0 => 0x3b,
        Opcode::Istore1 => 0x3c,
        Opcode::Istore2 => 0x3d,
        Opcode::Istore3 => 0x3e,
        Opcode::Lstore0 => 0x3f,
        Opcode::Lstore1 => 0x40,
        Opcode::Lstore2 => 0x41,
        Opcode::Lstore3 => 0x42,
        Opcode::Fstore0 => 0x43,
        Opcode::Fstore1 => 0x44,
        Opcode::Fstore2 => 0x45,
        Opcode::Fstore3 => 0x46,
        Opcode::Dstore0 => 0x47,
        Opcode::Dstore1 => 0x48,
        Opcode::Dstore2 => 0x49,
        Opcode::Dstore3 => 0x4a,
        Opcode::Astore0 => 0x4b,
        Opcode::Astore1 => 0x4c,
        Opcode::Astore2 => 0x4d,
        Opcode::Astore3 => 0x4e,
        Opcode::Iastore => 0x4f,
        Opcode::Lastore => 0x50,
        Opcode::Fastore => 0x51,
        Opcode::Dastore => 0x52,
        Opcode::Aastore => 0x53,
        Opcode::Bastore => 0x54,
        Opcode::Castore => 0x55,
        Opcode::Sastore => 0x56,
        Opcode::Pop => 0x57,
        Opcode::Pop2 => 0x58,
        Opcode::Dup => 0x59,
        Opcode::DupX1 => 0x5a,
        Opcode::DupX2 => 0x5b,
        Opcode::Dup2 => 0x5c,
        Opcode::Dup2X1 => 0x5d,
        Opcode::Dup2X2 => 0x5e,
        Opcode::Swap => 0x5f,
        Opcode::Iadd => 0x60,
        Opcode::Ladd => 0x61,
        Opcode::Fadd => 0x62,
        Opcode::Dadd => 0x63,
        Opcode::Isub => 0x64,
        Opcode::Lsub => 0x65,
        Opcode::Fsub => 0x66,
        Opcode::Dsub => 0x67,
        Opcode::Imul => 0x68,
        Opcode::Lmul => 0x69,
        Opcode::Fmul => 0x6a,
        Opcode::Dmul => 0x6b,
        Opcode::Idiv => 0x6c,
        Opcode::Ldiv => 0x6d,
        Opcode::Fdiv => 0x6e,
        Opcode::Ddiv => 0x6f,
        Opcode::Irem => 0x70,
        Opcode::Lrem => 0x71,
        Opcode::Frem => 0x72,
        Opcode::Drem => 0x73,
        Opcode::Ineg => 0x74,
        Opcode::Lneg => 0x75,
        Opcode::Fneg => 0x76,
        Opcode::Dneg => 0x77,
        Opcode::Ishl => 0x78,
        Opcode::Lshl => 0x79,
        Opcode::Ishr => 0x7a,
        Opcode::Lshr => 0x7b,
        Opcode::Iushr => 0x7c,
        Opcode::Lushr => 0x7d,
        Opcode::Iand => 0x7e,
        Opcode::Land => 0x7f,
        Opcode::Ior => 0x80,
        Opcode::Lor => 0x81,
        Opcode::Ixor => 0x82,
        Opcode::Lxor => 0x83,
        Opcode::Iinc => 0x84,
        Opcode::I2l => 0x85,
        Opcode::I2f => 0x86,
        Opcode::I2d => 0x87,
        Opcode::L2i => 0x88,
        Opcode::L2f => 0x89,
        Opcode::L2d => 0x8a,
        Opcode::F2i => 0x8b,
        Opcode::F2l => 0x8c,
        Opcode::F2d => 0x8d,
        Opcode::D2i => 0x8e,
        Opcode::D2l => 0x8f,
        Opcode::D2f => 0x90,
        Opcode::I2b => 0x91,
        Opcode::I2c => 0x92,
        Opcode::I2s => 0x93,
        Opcode::Lcmp => 0x94,
        Opcode::Fcmpl => 0x95,
        Opcode::Fcmpg => 0x96,
        Opcode::Dcmpl => 0x97,
        Opcode::Dcmpg => 0x98,
        Opcode::IfEq => 0x99,
        Opcode::IfNe => 0x9a,
        Opcode::IfLt => 0x9b,
        Opcode::IfGe => 0x9c,
        Opcode::IfGt => 0x9d,
        Opcode::IfLe => 0x9e,
        Opcode::IfIcmpeq => 0x9f,
        Opcode::IfIcmpne => 0xa0,
        Opcode::IfIcmplt => 0xa1,
        Opcode::IfIcmpge => 0xa2,
        Opcode::IfIcmpgt => 0xa3,
        Opcode::IfIcmple => 0xa4,
        Opcode::IfAcmpEq => 0xa5,
        Opcode::IfAcmpNe => 0xa6,
        Opcode::Goto => 0xa7,
        Opcode::Jsr => 0xa8,
        Opcode::Ret => 0xa9,
        Opcode::TableSwitch => 0xaa,
        Opcode::Lookupswitch => 0xab,
        Opcode::Ireturn => 0xac,
        Opcode::Lreturn => 0xad,
        Opcode::Freturn => 0xae,
        Opcode::Dreturn => 0xaf,
        Opcode::Areturn => 0xb0,
        Opcode::Return => 0xb1,
        Opcode::Getstatic => 0xb2,
        Opcode::Putstatic => 0xb3,
        Opcode::Getfield => 0xb4,
        Opcode::Putfield => 0xb5,
        Opcode::InvokeVirtual => 0xb6,
        Opcode::InvokeSpecial => 0xb7,
        Opcode::InvokeStatic => 0xb8,
        Opcode::InvokeInterface => 0xb9,
        Opcode::InvokeDynamic => 0xba,
        Opcode::New => 0xbb,
        Opcode::Newarray => 0xbc,
        Opcode::Anewarray => 0xbd,
        Opcode::ArrayLength => 0xbe,
        Opcode::Athrow => 0xbf,
        Opcode::Checkcast => 0xc0,
        Opcode::Instanceof => 0xc1,
        Opcode::Monitorenter => 0xc2,
        Opcode::Monitorexit => 0xc3,
        Opcode::Multianewarray => 0xc5,
        Opcode::Ifnull => 0xc6,
        Opcode::Ifnonnull => 0xc7,
        Opcode::GotoW => 0xc8,
        Opcode::JsrW => 0xc9,
        Opcode::Breakpoint => 0xca,
    }
}

/// The [`Opcode`] that a byte encodes, if any.
pub open spec fn spec_opcode_from_tag(b: u8) -> Option<Opcode> {
    match b {
        0x0 => Some(Opcode::Nop),
        0x1 => Some(Opcode::AconstNull),
        0x2 => Some(Opcode::IconstM1),
        0x3 => Some(Opcode::Iconst0),
        0x4 => Some(Opcode::Iconst1),
        0x5 => Some(Opcode::Iconst2),
        0x6 => Some(Opcode::Iconst3),
        0x7 => Some(Opcode::Iconst4),
        0x8 => Some(Opcode::Iconst5),
        0x9 => Some(Opcode::Lconst0),
        0xa => Some(Opcode::Lconst1),
        0xb => Some(Opcode::Fconst0),
        0xc => Some(Opcode::Fconst1),
        0xd => Some(Opcode::Fconst2),
        0xe => Some(Opcode::Dconst0),
        0xf => Some(Opcode::Dconst1),
        0x10 => Some(Opcode::Bipush),
        0x11 => Some(Opcode::Sipush),
        0x12 => Some(Opcode::Ldc),
        0x13 => Some(Opcode::LdcW),
        0x14 => Some(Opcode::Ldc2W),
        0x15 => Some(Opcode::Iload),
        0x16 => Some(Opcode::Lload),
        0x17 => Some(Opcode::Fload),
        0x18 => Some(Opcode::Dload),
        0x19 => Some(Opcode::Aload),
        0x1a => Some(Opcode::Iload0),
        0x1b => Some(Opcode::Iload1),
        0x1c => Some(Opcode::Iload2),
        0x1d => Some(Opcode::Iload3),
        0x1e => Some(Opcode::Lload0),
        0x1f => Some(Opcode::Lload1),
        0x20 => Some(Opcode::Lload2),
        0x21 => Some(Opcode::Lload3),
        0x22 => Some(Opcode::Fload0),
        0x23 => Some(Opcode::Fload1),
        0x24 => Some(Opcode::Fload2),
        0x25 => Some(Opcode::Fload3),
        0x26 => Some(Opcode::Dload0),
        0x27 => Some(Opcode::Dload1),
        0x28 => Some(Opcode::Dload2),
        0x29 => Some(Opcode::Dload3),
        0x2a => Some(Opcode::Aload0),
        0x2b => Some(Opcode::Aload1),
        0x2c => Some(Opcode::Aload2),
        0x2d => Some(Opcode::Aload3),
        0x2e => Some(Opcode::Iaload),
        0x2f => Some(Opcode::Laload),
        0x30 => Some(Opcode::Faload),
        0x31 => Some(Opcode::Daload),
        0x32 => Some(Opcode::Aaload),
        0x33 => Some(Opcode::Baload),
        0x34 => Some(Opcode::Caload),
        0x35 => Some(Opcode::Saload),
        0x36 => Some(Opcode::Istore),
        0x37 => Some(Opcode::Lstore),
        0x38 => Some(Opcode::Fstore),
        0x39 => Some(Opcode::Dstore),
        0x3a => Some(Opcode::Astore),
        0x3b => Some(Opcode::Istore0),
        0x3c => Some(Opcode::Istore1),
        0x3d => Some(Opcode::Istore2),
        0x3e => Some(Opcode::Istore3),
        0x3f => Some(Opcode::Lstore0),
        0x40 => Some(Opcode::Lstore1),
        0x41 => Some(Opcode::Lstore2),
        0x42 => Some(Opcode::Lstore3),
        0x43 => Some(Opcode::Fstore0),
        0x44 => Some(Opcode::Fstore1),
        0x45 => Some(Opcode::Fstore2),
        0x46 => Some(Opcode::Fstore3),
        0x47 => Some(Opcode::Dstore0),
        0x48 => Some(Opcode::Dstore1),
        0x49 => Some(Opcode::Dstore2),
        0x4a => Some(Opcode::Dstore3),
        0x4b => Some(Opcode::Astore0),
        0x4c => Some(Opcode::Astore1),
        0x4d => Some(Opcode::Astore2),
        0x4e => Some(Opcode::Astore3),
        0x4f => Some(Opcode::Iastore),
        0x50 => Some(Opcode::Lastore),
        0x51 => Some(Opcode::Fastore),
        0x52 => Some(Opcode::Dastore),
        0x53 => Some(Opcode::Aastore),
        0x54 => Some(Opcode::Bastore),
        0x55 => Some(Opcode::Castore),
        0x56 => Some(Opcode::Sastore),
        0x57 => Some(Opcode::Pop),
        0x58 => Some(Opcode::Pop2),
        0x59 => Some(Opcode::Dup),
        0x5a => Some(Opcode::DupX1),
        0x5b => Some(Opcode::DupX2),
        0x5c => Some(Opcode::Dup2),
        0x5d => Some(Opcode::Dup2X1),
        0x5e => Some(Opcode::Dup2X2),
        0x5f => Some(Opcode::Swap),
        0x60 => Some(Opcode::Iadd),
        0x61 => Some(Opcode::Ladd),
        0x62 => Some(Opcode::Fadd),
        0x63 => Some(Opcode::Dadd),
        0x64 => Some(Opcode::Isub),
        0x65 => Some(Opcode::Lsub),
        0x66 => Some(Opcode::Fsub),
        0x67 => Some(Opcode::Dsub),
        0x68 => Some(Opcode::Imul),
        0x69 => Some(Opcode::Lmul),
        0x6a => Some(Opcode::Fmul),
        0x6b => Some(Opcode::Dmul),
        0x6c => Some(Opcode::Idiv),
        0x6d => Some(Opcode::Ldiv),
        0x6e => Some(Opcode::Fdiv),
        0x6f => Some(Opcode::Ddiv),
        0x70 => Some(Opcode::Irem),
        0x71 => Some(Opcode::Lrem),
        0x72 => Some(Opcode::Frem),
        0x73 => Some(Opcode::Drem),
        0x74 => Some(Opcode::Ineg),
        0x75 => Some(Opcode::Lneg),
        0x76 => Some(Opcode::Fneg),
        0x77 => Some(Opcode::Dneg),
        0x78 => Some(Opcode::Ishl),
        0x79 => Some(Opcode::Lshl),
        0x7a => Some(Opcode::Ishr),
        0x7b => Some(Opcode::Lshr),
        0x7c => Some(Opcode::Iushr),
        0x7d => Some(Opcode::Lushr),
        0x7e => Some(Opcode::Iand),
        0x7f => Some(Opcode::Land),
        0x80 => Some(Opcode::Ior),
        0x81 => Some(Opcode::Lor),
        0x82 => Some(Opcode::Ixor),
        0x83 => Some(Opcode::Lxor),
        0x84 => Some(Opcode::Iinc),
        0x85 => Some(Opcode::I2l),
        0x86 => Some(Opcode::I2f),
        0x87 => Some(Opcode::I2d),
        0x88 => Some(Opcode::L2i),
        0x89 => Some(Opcode::L2f),
        0x8a => Some(Opcode::L2d),
        0x8b => Some(Opcode::F2i),
        0x8c => Some(Opcode::F2l),
        0x8d => Some(Opcode::F2d),
        0x8e => Some(Opcode::D2i),
        0x8f => Some(Opcode::D2l),
        0x90 => Some(Opcode::D2f),
        0x91 => Some(Opcode::I2b),
        0x92 => Some(Opcode::I2c),
        0x93 => Some(Opcode::I2s),
        0x94 => Some(Opcode::Lcmp),
        0x95 => Some(Opcode::Fcmpl),
        0x96 => Some(Opcode::Fcmpg),
        0x97 => Some(Opcode::Dcmpl),
        0x98 => Some(Opcode::Dcmpg),
        0x99 => Some(Opcode::IfEq),
        0x9a => Some(Opcode::IfNe),
        0x9b => Some(Opcode::IfLt),
        0x9c => Some(Opcode::IfGe),
        0x9d => Some(Opcode::IfGt),
        0x9e => Some(Opcode::IfLe),
        0x9f => Some(Opcode::IfIcmpeq),
        0xa0 => Some(Opcode::IfIcmpne),
        0xa1 => Some(Opcode::IfIcmplt),
        0xa2 => Some(Opcode::IfIcmpge),
        0xa3 => Some(Opcode::IfIcmpgt),
        0xa4 => Some(Opcode::IfIcmple),
        0xa5 => Some(Opcode::IfAcmpEq),
        0xa6 => Some(Opcode::IfAcmpNe),
        0xa7 => Some(Opcode::Goto),
        0xa8 => Some(Opcode::Jsr),
        0xa9 => Some(Opcode::Ret),
        0xaa => Some(Opcode::TableSwitch),
        0xab => Some(Opcode::Lookupswitch),
        0xac => Some(Opcode::Ireturn),
        0xad => Some(Opcode::Lreturn),
        0xae => Some(Opcode::Freturn),
        0xaf => Some(Opcode::Dreturn),
        0xb0 => Some(Opcode::Areturn),
        0xb1 => Some(Opcode::Return),
        0xb2 => Some(Opcode::Getstatic),
        0xb3 => Some(Opcode::Putstatic),
        0xb4 => Some(Opcode::Getfield),
        0xb5 => Some(Opcode::Putfield),
        0xb6 => Some(Opcode::InvokeVirtual),
        0xb7 => Some(Opcode::InvokeSpecial),
        0xb8 => Some(Opcode::InvokeStatic),
        0xb9 => Some(Opcode::InvokeInterface),
        0xba => Some(Opcode::InvokeDynamic),
        0xbb => Some(Opcode::New),
        0xbc => Some(Opcode::Newarray),
        0xbd => Some(Opcode::Anewarray),
        0xbe => Some(Opcode::ArrayLength),
        0xbf => Some(Opcode::Athrow),
        0xc0 => Some(Opcode::Checkcast),
        0xc1 => Some(Opcode::Instanceof),
        0xc2 => Some(Opcode::Monitorenter),
        0xc3 => Some(Opcode::Monitorexit),
        0xc5 => Some(Opcode::Multianewarray),
        0xc6 => Some(Opcode::Ifnull),
        0xc7 => Some(Opcode::Ifnonnull),
        0xc8 => Some(Opcode::GotoW),
        0xc9 => Some(Opcode::JsrW),
        0xca => Some(Opcode::Breakpoint),
        _ => None,
    }
}

pub open spec fn spec_opcode_name(k: Opcode) -> Seq<char> {
    match k {
        Opcode::Nop => "nop"@,
        Opcode::AconstNull => "aconst_null"@,
        Opcode::IconstM1 => "iconst_m1"@,
        Opcode::Iconst0 => "iconst_0"@,
        Opcode::Iconst1 => "iconst_1"@,
        Opcode::Iconst2 => "iconst_2"@,
        Opcode::Iconst3 => "iconst_3"@,
        Opcode::Iconst4 => "iconst_4"@,
        Opcode::Iconst5 => "iconst_5"@,
        Opcode::Lconst0 => "lconst_0"@,
        Opcode::Lconst1 => "lconst_1"@,
        Opcode::Fconst0 => "fconst_0"@,
        Opcode::Fconst1 => "fconst_1"@,
        Opcode::Fconst2 => "fconst_2"@,
        Opcode::Dconst0 => "dconst_0"@,
        Opcode::Dconst1 => "dconst_1"@,
        Opcode::Bipush => "bipush"@,
        Opcode::Sipush => "sipush"@,
        Opcode::Ldc => "ldc"@,
        Opcode::LdcW => "ldc_w"@,
        Opcode::Ldc2W => "ldc2_w"@,
        Opcode::Iload => "iload"@,
        Opcode::Lload => "lload"@,
        Opcode::Fload => "fload"@,
        Opcode::Dload => "dload"@,
        Opcode::Aload => "aload"@,
        Opcode::Iload0 => "iload_0"@,
        Opcode::Iload1 => "iload_1"@,
        Opcode::Iload2 => "iload_2"@,
        Opcode::Iload3 => "iload_3"@,
        Opcode::Lload0 => "lload_0"@,
        Opcode::Lload1 => "lload_1"@,
        Opcode::Lload2 => "lload_2"@,
        Opcode::Lload3 => "lload_3"@,
        Opcode::Fload0 => "fload_0"@,
        Opcode::Fload1 => "fload_1"@,
        Opcode::Fload2 => "fload_2"@,
        Opcode::Fload3 => "fload_3"@,
        Opcode::Dload0 => "dload_0"@,
        Opcode::Dload1 => "dload_1"@,
        Opcode::Dload2 => "dload_2"@,
        Opcode::Dload3 => "dload_3"@,
        Opcode::Aload0 => "aload_0"@,
        Opcode::Aload1 => "aload_1"@,
        Opcode::Aload2 => "aload_2"@,
        Opcode::Aload3 => "aload_3"@,
        Opcode::Iaload => "iaload"@,
        Opcode::Laload => "laload"@,
        Opcode::Faload => "faload"@,
        Opcode::Daload => "daload"@,
        Opcode::Aaload => "aaload"@,
        Opcode::Baload => "baload"@,
        Opcode::Caload => "caload"@,
        Opcode::Saload => "saload"@,
        Opcode::Istore => "istore"@,
        Opcode::Lstore => "lstore"@,
        Opcode::Fstore => "fstore"@,
        Opcode::Dstore => "dstore"@,
        Opcode::Astore => "astore"@,
        Opcode::Istore0 => "istore_0"@,
        Opcode::Istore1 => "istore_1"@,
        Opcode::Istore2 => "istore_2"@,
        Opcode::Istore3 => "istore_3"@,
        Opcode::Lstore0 => "lstore_0"@,
        Opcode::Lstore1 => "lstore_1"@,
        Opcode::Lstore2 => "lstore_2"@,
        Opcode::Lstore3 => "lstore_3"@,
        Opcode::Fstore0 => "fstore_0"@,
        Opcode::Fstore1 => "fstore_1"@,
        Opcode::Fstore2 => "fstore_2"@,
        Opcode::Fstore3 => "fstore_3"@,
        Opcode::Dstore0 => "dstore_0"@,
        Opcode::Dstore1 => "dstore_1"@,
        Opcode::Dstore2 => "dstore_2"@,
        Opcode::Dstore3 => "dstore_3"@,
        Opcode::Astore0 => "astore_0"@,
        Opcode::Astore1 => "astore_1"@,
        Opcode::Astore2 => "astore_2"@,
        Opcode::Astore3 => "astore_3"@,
        Opcode::Iastore => "iastore"@,
        Opcode::Lastore => "lastore"@,
        Opcode::Fastore => "fastore"@,
        Opcode::Dastore => "dastore"@,
        Opcode::Aastore => "aastore"@,
        Opcode::Bastore => "bastore"@,
        Opcode::Castore => "castore"@,
        Opcode::Sastore => "sastore"@,
        Opcode::Pop => "pop"@,
        Opcode::Pop2 => "pop2"@,
        Opcode::Dup => "dup"@,
        Opcode::DupX1 => "dup_x1"@,
        Opcode::DupX2 => "dup_x2"@,
        Opcode::Dup2 => "dup2"@,
        Opcode::Dup2X1 => "dup2_x1"@,
        Opcode::Dup2X2 => "dup2_x2"@,
        Opcode::Swap => "swap"@,
        Opcode::Iadd => "iadd"@,
        Opcode::Ladd => "ladd"@,
        Opcode::Fadd => "fadd"@,
        Opcode::Dadd => "dadd"@,
        Opcode::Isub => "isub"@,
        Opcode::Lsub => "lsub"@,
        Opcode::Fsub => "fsub"@,
        Opcode::Dsub => "dsub"@,
        Opcode::Imul => "imul"@,
        Opcode::Lmul => "lmul"@,
        Opcode::Fmul => "fmul"@,
        Opcode::Dmul => "dmul"@,
        Opcode::Idiv => "idiv"@,
        Opcode::Ldiv => "ldiv"@,
        Opcode::Fdiv => "fdiv"@,
        Opcode::Ddiv => "ddiv"@,
        Opcode::Irem => "irem"@,
        Opcode::Lrem => "lrem"@,
        Opcode::Frem => "frem"@,
        Opcode::Drem => "drem"@,
        Opcode::Ineg => "ineg"@,
        Opcode::Lneg => "lneg"@,
        Opcode::Fneg => "fneg"@,
        Opcode::Dneg => "dneg"@,
        Opcode::Ishl => "ishl"@,
        Opcode::Lshl => "lshl"@,
        Opcode::Ishr => "ishr"@,
        Opcode::Lshr => "lshr"@,
        Opcode::Iushr => "iushr"@,
        Opcode::Lushr => "lushr"@,
        Opcode::Iand => "iand"@,
        Opcode::Land => "land"@,
        Opcode::Ior => "ior"@,
        Opcode::Lor => "lor"@,
        Opcode::Ixor => "ixor"@,
        Opcode::Lxor => "lxor"@,
        Opcode::Iinc => "iinc"@,
        Opcode::I2l => "i2l"@,
        Opcode::I2f => "i2f"@,
        Opcode::I2d => "i2d"@,
        Opcode::L2i => "l2i"@,
        Opcode::L2f => "l2f"@,
        Opcode::L2d => "l2d"@,
        Opcode::F2i => "f2i"@,
        Opcode::F2l => "f2l"@,
        Opcode::F2d => "f2d"@,
        Opcode::D2i => "d2i"@,
        Opcode::D2l => "d2l"@,
        Opcode::D2f => "d2f"@,
        Opcode::I2b => "i2b"@,
        Opcode::I2c => "i2c"@,
        Opcode::I2s => "i2s"@,
        Opcode::Lcmp => "lcmp"@,
        Opcode::Fcmpl => "fcmpl"@,
        Opcode::Fcmpg => "fcmpg"@,
        Opcode::Dcmpl => "dcmpl"@,
        Opcode::Dcmpg => "dcmpg"@,
        Opcode::IfEq => "ifeq"@,
        Opcode::IfNe => "ifne"@,
        Opcode::IfLt => "iflt"@,
        Opcode::IfGe => "ifge"@,
        Opcode::IfGt => "ifgt"@,
        Opcode::IfLe => "ifle"@,
        Opcode::IfIcmpeq => "if_icmpeq"@,
        Opcode::IfIcmpne => "if_icmpne"@,
        Opcode::IfIcmplt => "if_icmplt"@,
        Opcode::IfIcmpge => "if_icmpge"@,
        Opcode::IfIcmpgt => "if_icmpgt"@,
        Opcode::IfIcmple => "if_icmple"@,
        Opcode::IfAcmpEq => "if_acmpeq"@,
        Opcode::IfAcmpNe => "if_acmpne"@,
        Opcode::Goto => "goto"@,
        Opcode::Jsr => "jsr"@,
        Opcode::Ret => "ret"@,
        Opcode::TableSwitch => "tableswitch"@,
        Opcode::Lookupswitch => "lookupswitch"@,
        Opcode::Ireturn => "ireturn"@,
        Opcode::Lreturn => "lreturn"@,
        Opcode::Freturn => "freturn"@,
        Opcode::Dreturn => "dreturn"@,
        Opcode::Areturn => "areturn"@,
        Opcode::Return => "return"@,
        Opcode::Getstatic => "getstatic"@,
        Opcode::Putstatic => "putstatic"@,
        Opcode::Getfield => "getfield"@,
        Opcode::Putfield => "putfield"@,
        Opcode::InvokeVirtual => "invokevirtual"@,
        Opcode::InvokeSpecial => "invokespecial"@,
        Opcode::InvokeStatic => "invokestatic"@,
        Opcode::InvokeInterface => "invokeinterface"@,
        Opcode::InvokeDynamic => "invokedynamic"@,
        Opcode::New => "new"@,
        Opcode::Newarray => "newarray"@,
        Opcode::Anewarray => "anewarray"@,
        Opcode::ArrayLength => "arraylength"@,
        Opcode::Athrow => "athrow"@,
        Opcode::Checkcast => "checkcast"@,
        Opcode::Instanceof => "instanceof"@,
        Opcode::Monitorenter => "monitorenter"@,
        Opcode::Monitorexit => "monitorexit"@,
        Opcode::Multianewarray => "multianewarray"@,
        Opcode::Ifnull => "ifnull"@,
        Opcode::Ifnonnull => "ifnonnull"@,
        Opcode::GotoW => "goto_w"@,
        Opcode::JsrW => "jsr_w"@,
        Opcode::Breakpoint => "breakpoint"@,
    }
}

impl Opcode {
    /// The byte that encodes this value.
    pub fn as_byte(&self) -> (b: u8)
        ensures
            b == spec_opcode_tag(*self),
    {
        match self {
            Opcode::Nop => 0x0,
            Opcode::AconstNull => 0x1,
            Opcode::IconstM1 => 0x2,
            Opcode::Iconst0 => 0x3,
            Opcode::Iconst1 => 0x4,
            Opcode::Iconst2 => 0x5,
            Opcode::Iconst3 => 0x6,
            Opcode::Iconst4 => 0x7,
            Opcode::Iconst5 => 0x8,
            Opcode::Lconst0 => 0x9,
            Opcode::Lconst1 => 0xa,
            Opcode::Fconst0 => 0xb,
            Opcode::Fconst1 => 0xc,
            Opcode::Fconst2 => 0xd,
            Opcode::Dconst0 => 0xe,
            Opcode::Dconst1 => 0xf,
            Opcode::Bipush => 0x10,
            Opcode::Sipush => 0x11,
            Opcode::Ldc => 0x12,
            Opcode::LdcW => 0x13,
            Opcode::Ldc2W => 0x14,
            Opcode::Iload => 0x15,
            Opcode::Lload => 0x16,
            Opcode::Fload => 0x17,
            Opcode::Dload => 0x18,
            Opcode::Aload => 0x19,
            Opcode::Iload0 => 0x1a,
            Opcode::Iload1 => 0x1b,
            Opcode::Iload2 => 0x1c,
            Opcode::Iload3 => 0x1d,
            Opcode::Lload0 => 0x1e,
            Opcode::Lload1 => 0x1f,
            Opcode::Lload2 => 0x20,
            Opcode::Lload3 => 0x21,
            Opcode::Fload0 => 0x22,
            Opcode::Fload1 => 0x23,
            Opcode::Fload2 => 0x24,
            Opcode::Fload3 => 0x25,
            Opcode::Dload0 => 0x26,
            Opcode::Dload1 => 0x27,
            Opcode::Dload2 => 0x28,
            Opcode::Dload3 => 0x29,
            Opcode::Aload0 => 0x2a,
            Opcode::Aload1 => 0x2b,
            Opcode::Aload2 => 0x2c,
            Opcode::Aload3 => 0x2d,
            Opcode::Iaload => 0x2e,
            Opcode::Laload => 0x2f,
            Opcode::Faload => 0x30,
            Opcode::Daload => 0x31,
            Opcode::Aaload => 0x32,
            Opcode::Baload => 0x33,
            Opcode::Caload => 0x34,
            Opcode::Saload => 0x35,
            Opcode::Istore => 0x36,
            Opcode::Lstore => 0x37,
            Opcode::Fstore => 0x38,
            Opcode::Dstore => 0x39,
            Opcode::Astore => 0x3a,
            Opcode::Istore0 => 0x3b,
            Opcode::Istore1 => 0x3c,
            Opcode::Istore2 => 0x3d,
            Opcode::Istore3 => 0x3e,
            Opcode::Lstore0 => 0x3f,
            Opcode::Lstore1 => 0x40,
            Opcode::Lstore2 => 0x41,
            Opcode::Lstore3 => 0x42,
            Opcode::Fstore0 => 0x43,
            Opcode::Fstore1 => 0x44,
            Opcode::Fstore2 => 0x45,
            Opcode::Fstore3 => 0x46,
            Opcode::Dstore0 => 0x47,
            Opcode::Dstore1 => 0x48,
            Opcode::Dstore2 => 0x49,
            Opcode::Dstore3 => 0x4a,
            Opcode::Astore0 => 0x4b,
            Opcode::Astore1 => 0x4c,
            Opcode::Astore2 => 0x4d,
            Opcode::Astore3 => 0x4e,
            Opcode::Iastore => 0x4f,
            Opcode::Lastore => 0x50,
            Opcode::Fastore => 0x51,
            Opcode::Dastore => 0x52,
            Opcode::Aastore => 0x53,
            Opcode::Bastore => 0x54,
            Opcode::Castore => 0x55,
            Opcode::Sastore => 0x56,
            Opcode::Pop => 0x57,
            Opcode::Pop2 => 0x58,
            Opcode::Dup => 0x59,
            Opcode::DupX1 => 0x5a,
            Opcode::DupX2 => 0x5b,
            Opcode::Dup2 => 0x5c,
            Opcode::Dup2X1 => 0x5d,
            Opcode::Dup2X2 => 0x5e,
            Opcode::Swap => 0x5f,
            Opcode::Iadd => 0x60,
            Opcode::Ladd => 0x61,
            Opcode::Fadd => 0x62,
            Opcode::Dadd => 0x63,
            Opcode::Isub => 0x64,
            Opcode::Lsub => 0x65,
            Opcode::Fsub => 0x66,
            Opcode::Dsub => 0x67,
            Opcode::Imul => 0x68,
            Opcode::Lmul => 0x69,
            Opcode::Fmul => 0x6a,
            Opcode::Dmul => 0x6b,
            Opcode::Idiv => 0x6c,
            Opcode::Ldiv => 0x6d,
            Opcode::Fdiv => 0x6e,
            Opcode::Ddiv => 0x6f,
            Opcode::Irem => 0x70,
            Opcode::Lrem => 0x71,
            Opcode::Frem => 0x72,
            Opcode::Drem => 0x73,
            Opcode::Ineg => 0x74,
            Opcode::Lneg => 0x75,
            Opcode::Fneg => 0x76,
            Opcode::Dneg => 0x77,
            Opcode::Ishl => 0x78,
            Opcode::Lshl => 0x79,
            Opcode::Ishr => 0x7a,
            Opcode::Lshr => 0x7b,
            Opcode::Iushr => 0x7c,
            Opcode::Lushr => 0x7d,
            Opcode::Iand => 0x7e,
            Opcode::Land => 0x7f,
            Opcode::Ior => 0x80,
            Opcode::Lor => 0x81,
            Opcode::Ixor => 0x82,
            Opcode::Lxor => 0x83,
            Opcode::Iinc => 0x84,
            Opcode::I2l => 0x85,
            Opcode::I2f => 0x86,
            Opcode::I2d => 0x87,
            Opcode::L2i => 0x88,
            Opcode::L2f => 0x89,
            Opcode::L2d => 0x8a,
            Opcode::F2i => 0x8b,
            Opcode::F2l => 0x8c,
            Opcode::F2d => 0x8d,
            Opcode::D2i => 0x8e,
            Opcode::D2l => 0x8f,
            Opcode::D2f => 0x90,
            Opcode::I2b => 0x91,
            Opcode::I2c => 0x92,
            Opcode::I2s => 0x93,
            Opcode::Lcmp => 0x94,
            Opcode::Fcmpl => 0x95,
            Opcode::Fcmpg => 0x96,
            Opcode::Dcmpl => 0x97,
            Opcode::Dcmpg => 0x98,
            Opcode::IfEq => 0x99,
            Opcode::IfNe => 0x9a,
            Opcode::IfLt => 0x9b,
            Opcode::IfGe => 0x9c,
            Opcode::IfGt => 0x9d,
            Opcode::IfLe => 0x9e,
            Opcode::IfIcmpeq => 0x9f,
            Opcode::IfIcmpne => 0xa0,
            Opcode::IfIcmplt => 0xa1,
            Opcode::IfIcmpge => 0xa2,
            Opcode::IfIcmpgt => 0xa3,
            Opcode::IfIcmple => 0xa4,
            Opcode::IfAcmpEq => 0xa5,
            Opcode::IfAcmpNe => 0xa6,
            Opcode::Goto => 0xa7,
            Opcode::Jsr => 0xa8,
            Opcode::Ret => 0xa9,
            Opcode::TableSwitch => 0xaa,
            Opcode::Lookupswitch => 0xab,
            Opcode::Ireturn => 0xac,
            Opcode::Lreturn => 0xad,
            Opcode::Freturn => 0xae,
            Opcode::Dreturn => 0xaf,
            Opcode::Areturn => 0xb0,
            Opcode::Return => 0xb1,
            Opcode::Getstatic => 0xb2,
            Opcode::Putstatic => 0xb3,
            Opcode::Getfield => 0xb4,
            Opcode::Putfield => 0xb5,
            Opcode::InvokeVirtual => 0xb6,
            Opcode::InvokeSpecial => 0xb7,
            Opcode::InvokeStatic => 0xb8,
            Opcode::InvokeInterface => 0xb9,
            Opcode::InvokeDynamic => 0xba,
            Opcode::New => 0xbb,
            Opcode::Newarray => 0xbc,
            Opcode::Anewarray => 0xbd,
            Opcode::ArrayLength => 0xbe,
            Opcode::Athrow => 0xbf,
            Opcode::Checkcast => 0xc0,
            Opcode::Instanceof => 0xc1,
            Opcode::Monitorenter => 0xc2,
            Opcode::Monitorexit => 0xc3,
            Opcode::Multianewarray => 0xc5,
            Opcode::Ifnull => 0xc6,
            Opcode::Ifnonnull => 0xc7,
            Opcode::GotoW => 0xc8,
            Opcode::JsrW => 0xc9,
            Opcode::Breakpoint => 0xca,
        }
    }

    /// The value that `b` encodes, or `None` for a byte that encodes none.
    pub fn from_byte(b: u8) -> (k: Option<Opcode>)
        ensures
            k == spec_opcode_from_tag(b),
    {
        match b {
            0x0 => Some(Opcode::Nop),
            0x1 => Some(Opcode::AconstNull),
            0x2 => Some(Opcode::IconstM1),
            0x3 => Some(Opcode::Iconst0),
            0x4 => Some(Opcode::Iconst1),
            0x5 => Some(Opcode::Iconst2),
            0x6 => Some(Opcode::Iconst3),
            0x7 => Some(Opcode::Iconst4),
            0x8 => Some(Opcode::Iconst5),
            0x9 => Some(Opcode::Lconst0),
            0xa => Some(Opcode::Lconst1),
            0xb => Some(Opcode::Fconst0),
            0xc => Some(Opcode::Fconst1),
            0xd => Some(Opcode::Fconst2),
            0xe => Some(Opcode::Dconst0),
            0xf => Some(Opcode::Dconst1),
            0x10 => Some(Opcode::Bipush),
            0x11 => Some(Opcode::Sipush),
            0x12 => Some(Opcode::Ldc),
            0x13 => Some(Opcode::LdcW),
            0x14 => Some(Opcode::Ldc2W),
            0x15 => Some(Opcode::Iload),
            0x16 => Some(Opcode::Lload),
            0x17 => Some(Opcode::Fload),
            0x18 => Some(Opcode::Dload),
            0x19 => Some(Opcode::Aload),
            0x1a => Some(Opcode::Iload0),
            0x1b => Some(Opcode::Iload1),
            0x1c => Some(Opcode::Iload2),
            0x1d => Some(Opcode::Iload3),
            0x1e => Some(Opcode::Lload0),
            0x1f => Some(Opcode::Lload1),
            0x20 => Some(Opcode::Lload2),
            0x21 => Some(Opcode::Lload3),
            0x22 => Some(Opcode::Fload0),
            0x23 => Some(Opcode::Fload1),
            0x24 => Some(Opcode::Fload2),
            0x25 => Some(Opcode::Fload3),
            0x26 => Some(Opcode::Dload0),
            0x27 => Some(Opcode::Dload1),
            0x28 => Some(Opcode::Dload2),
            0x29 => Some(Opcode::Dload3),
            0x2a => Some(Opcode::Aload0),
            0x2b => Some(Opcode::Aload1),
            0x2c => Some(Opcode::Aload2),
            0x2d => Some(Opcode::Aload3),
            0x2e => Some(Opcode::Iaload),
            0x2f => Some(Opcode::Laload),
            0x30 => Some(Opcode::Faload),
            0x31 => Some(Opcode::Daload),
            0x32 => Some(Opcode::Aaload),
            0x33 => Some(Opcode::Baload),
            0x34 => Some(Opcode::Caload),
            0x35 => Some(Opcode::Saload),
            0x36 => Some(Opcode::Istore),
            0x37 => Some(Opcode::Lstore),
            0x38 => Some(Opcode::Fstore),
            0x39 => Some(Opcode::Dstore),
            0x3a => Some(Opcode::Astore),
            0x3b => Some(Opcode::Istore0),
            0x3c => Some(Opcode::Istore1),
            0x3d => Some(Opcode::Istore2),
            0x3e => Some(Opcode::Istore3),
            0x3f => Some(Opcode::Lstore0),
            0x40 => Some(Opcode::Lstore1),
            0x41 => Some(Opcode::Lstore2),
            0x42 => Some(Opcode::Lstore3),
            0x43 => Some(Opcode::Fstore0),
            0x44 => Some(Opcode::Fstore1),
            0x45 => Some(Opcode::Fstore2),
            0x46 => Some(Opcode::Fstore3),
            0x47 => Some(Opcode::Dstore0),
            0x48 => Some(Opcode::Dstore1),
            0x49 => Some(Opcode::Dstore2),
            0x4a => Some(Opcode::Dstore3),
            0x4b => Some(Opcode::Astore0),
            0x4c => Some(Opcode::Astore1),
            0x4d => Some(Opcode::Astore2),
            0x4e => Some(Opcode::Astore3),
            0x4f => Some(Opcode::Iastore),
            0x50 => Some(Opcode::Lastore),
            0x51 => Some(Opcode::Fastore),
            0x52 => Some(Opcode::Dastore),
            0x53 => Some(Opcode::Aastore),
            0x54 => Some(Opcode::Bastore),
            0x55 => Some(Opcode::Castore),
            0x56 => Some(Opcode::Sastore),
            0x57 => Some(Opcode::Pop),
            0x58 => Some(Opcode::Pop2),
            0x59 => Some(Opcode::Dup),
            0x5a => Some(Opcode::DupX1),
            0x5b => Some(Opcode::DupX2),
            0x5c => Some(Opcode::Dup2),
            0x5d => Some(Opcode::Dup2X1),
            0x5e => Some(Opcode::Dup2X2),
            0x5f => Some(Opcode::Swap),
            0x60 => Some(Opcode::Iadd),
            0x61 => Some(Opcode::Ladd),
            0x62 => Some(Opcode::Fadd),
            0x63 => Some(Opcode::Dadd),
            0x64 => Some(Opcode::Isub),
            0x65 => Some(Opcode::Lsub),
            0x66 => Some(Opcode::Fsub),
            0x67 => Some(Opcode::Dsub),
            0x68 => Some(Opcode::Imul),
            0x69 => Some(Opcode::Lmul),
            0x6a => Some(Opcode::Fmul),
            0x6b => Some(Opcode::Dmul),
            0x6c => Some(Opcode::Idiv),
            0x6d => Some(Opcode::Ldiv),
            0x6e => Some(Opcode::Fdiv),
            0x6f => Some(Opcode::Ddiv),
            0x70 => Some(Opcode::Irem),
            0x71 => Some(Opcode::Lrem),
            0x72 => Some(Opcode::Frem),
            0x73 => Some(Opcode::Drem),
            0x74 => Some(Opcode::Ineg),
            0x75 => Some(Opcode::Lneg),
            0x76 => Some(Opcode::Fneg),
            0x77 => Some(Opcode::Dneg),
            0x78 => Some(Opcode::Ishl),
            0x79 => Some(Opcode::Lshl),
            0x7a => Some(Opcode::Ishr),
            0x7b => Some(Opcode::Lshr),
            0x7c => Some(Opcode::Iushr),
            0x7d => Some(Opcode::Lushr),
            0x7e => Some(Opcode::Iand),
            0x7f => Some(Opcode::Land),
            0x80 => Some(Opcode::Ior),
            0x81 => Some(Opcode::Lor),
            0x82 => Some(Opcode::Ixor),
            0x83 => Some(Opcode::Lxor),
            0x84 => Some(Opcode::Iinc),
            0x85 => Some(Opcode::I2l),
            0x86 => Some(Opcode::I2f),
            0x87 => Some(Opcode::I2d),
            0x88 => Some(Opcode::L2i),
            0x89 => Some(Opcode::L2f),
            0x8a => Some(Opcode::L2d),
            0x8b => Some(Opcode::F2i),
            0x8c => Some(Opcode::F2l),
            0x8d => Some(Opcode::F2d),
            0x8e => Some(Opcode::D2i),
            0x8f => Some(Opcode::D2l),
            0x90 => Some(Opcode::D2f),
            0x91 => Some(Opcode::I2b),
            0x92 => Some(Opcode::I2c),
            0x93 => Some(Opcode::I2s),
            0x94 => Some(Opcode::Lcmp),
            0x95 => Some(Opcode::Fcmpl),
            0x96 => Some(Opcode::Fcmpg),
            0x97 => Some(Opcode::Dcmpl),
            0x98 => Some(Opcode::Dcmpg),
            0x99 => Some(Opcode::IfEq),
            0x9a => Some(Opcode::IfNe),
            0x9b => Some(Opcode::IfLt),
            0x9c => Some(Opcode::IfGe),
            0x9d => Some(Opcode::IfGt),
            0x9e => Some(Opcode::IfLe),
            0x9f => Some(Opcode::IfIcmpeq),
            0xa0 => Some(Opcode::IfIcmpne),
            0xa1 => Some(Opcode::IfIcmplt),
            0xa2 => Some(Opcode::IfIcmpge),
            0xa3 => Some(Opcode::IfIcmpgt),
            0xa4 => Some(Opcode::IfIcmple),
            0xa5 => Some(Opcode::IfAcmpEq),
            0xa6 => Some(Opcode::IfAcmpNe),
            0xa7 => Some(Opcode::Goto),
            0xa8 => Some(Opcode::Jsr),
            0xa9 => Some(Opcode::Ret),
            0xaa => Some(Opcode::TableSwitch),
            0xab => Some(Opcode::Lookupswitch),
            0xac => Some(Opcode::Ireturn),
            0xad => Some(Opcode::Lreturn),
            0xae => Some(Opcode::Freturn),
            0xaf => Some(Opcode::Dreturn),
            0xb0 => Some(Opcode::Areturn),
            0xb1 => Some(Opcode::Return),
            0xb2 => Some(Opcode::Getstatic),
            0xb3 => Some(Opcode::Putstatic),
            0xb4 => Some(Opcode::Getfield),
            0xb5 => Some(Opcode::Putfield),
            0xb6 => Some(Opcode::InvokeVirtual),
            0xb7 => Some(Opcode::InvokeSpecial),
            0xb8 => Some(Opcode::InvokeStatic),
            0xb9 => Some(Opcode::InvokeInterface),
            0xba => Some(Opcode::InvokeDynamic),
            0xbb => Some(Opcode::New),
            0xbc => Some(Opcode::Newarray),
            0xbd => Some(Opcode::Anewarray),
            0xbe => Some(Opcode::ArrayLength),
            0xbf => Some(Opcode::Athrow),
            0xc0 => Some(Opcode::Checkcast),
            0xc1 => Some(Opcode::Instanceof),
            0xc2 => Some(Opcode::Monitorenter),
            0xc3 => Some(Opcode::Monitorexit),
            0xc5 => Some(Opcode::Multianewarray),
            0xc6 => Some(Opcode::Ifnull),
            0xc7 => Some(Opcode::Ifnonnull),
            0xc8 => Some(Opcode::GotoW),
            0xc9 => Some(Opcode::JsrW),
            0xca => Some(Opcode::Breakpoint),
            _ => None,
        }
    }

    pub fn as_str(&self) -> (s: &'static str)
        ensures
            s@ == spec_opcode_name(*self),
    {
        match self {
            Opcode::Nop => "nop",
            Opcode::AconstNull => "aconst_null",
            Opcode::IconstM1 => "iconst_m1",
            Opcode::Iconst0 => "iconst_0",
            Opcode::Iconst1 => "iconst_1",
            Opcode::Iconst2 => "iconst_2",
            Opcode::Iconst3 => "iconst_3",
            Opcode::Iconst4 => "iconst_4",
            Opcode::Iconst5 => "iconst_5",
            Opcode::Lconst0 => "lconst_0",
            Opcode::Lconst1 => "lconst_1",
            Opcode::Fconst0 => "fconst_0",
            Opcode::Fconst1 => "fconst_1",
            Opcode::Fconst2 => "fconst_2",
            Opcode::Dconst0 => "dconst_0",
            Opcode::Dconst1 => "dconst_1",
            Opcode::Bipush => "bipush",
            Opcode::Sipush => "sipush",
            Opcode::Ldc => "ldc",
            Opcode::LdcW => "ldc_w",
            Opcode::Ldc2W => "ldc2_w",
            Opcode::Iload => "iload",
            Opcode::Lload => "lload",
            Opcode::Fload => "fload",
            Opcode::Dload => "dload",
            Opcode::Aload => "aload",
            Opcode::Iload0 => "iload_0",
            Opcode::Iload1 => "iload_1",
            Opcode::Iload2 => "iload_2",
            Opcode::Iload3 => "iload_3",
            Opcode::Lload0 => "lload_0",
            Opcode::Lload1 => "lload_1",
            Opcode::Lload2 => "lload_2",
            Opcode::Lload3 => "lload_3",
            Opcode::Fload0 => "fload_0",
            Opcode::Fload1 => "fload_1",
            Opcode::Fload2 => "fload_2",
            Opcode::Fload3 => "fload_3",
            Opcode::Dload0 => "dload_0",
            Opcode::Dload1 => "dload_1",
            Opcode::Dload2 => "dload_2",
            Opcode::Dload3 => "dload_3",
            Opcode::Aload0 => "aload_0",
            Opcode::Aload1 => "aload_1",
            Opcode::Aload2 => "aload_2",
            Opcode::Aload3 => "aload_3",
            Opcode::Iaload => "iaload",
            Opcode::Laload => "laload",
            Opcode::Faload => "faload",
            Opcode::Daload => "daload",
            Opcode::Aaload => "aaload",
            Opcode::Baload => "baload",
            Opcode::Caload => "caload",
            Opcode::Saload => "saload",
            Opcode::Istore => "istore",
            Opcode::Lstore => "lstore",
            Opcode::Fstore => "fstore",
            Opcode::Dstore => "dstore",
            Opcode::Astore => "astore",
            Opcode::Istore0 => "istore_0",
            Opcode::Istore1 => "istore_1",
            Opcode::Istore2 => "istore_2",
            Opcode::Istore3 => "istore_3",
            Opcode::Lstore0 => "lstore_0",
            Opcode::Lstore1 => "lstore_1",
            Opcode::Lstore2 => "lstore_2",
            Opcode::Lstore3 => "lstore_3",
            Opcode::Fstore0 => "fstore_0",
            Opcode::Fstore1 => "fstore_1",
            Opcode::Fstore2 => "fstore_2",
            Opcode::Fstore3 => "fstore_3",
            Opcode::Dstore0 => "dstore_0",
            Opcode::Dstore1 => "dstore_1",
            Opcode::Dstore2 => "dstore_2",
            Opcode::Dstore3 => "dstore_3",
            Opcode::Astore0 => "astore_0",
            Opcode::Astore1 => "astore_1",
            Opcode::Astore2 => "astore_2",
            Opcode::Astore3 => "astore_3",
            Opcode::Iastore => "iastore",
            Opcode::Lastore => "lastore",
            Opcode::Fastore => "fastore",
            Opcode::Dastore => "dastore",
            Opcode::Aastore => "aastore",
            Opcode::Bastore => "bastore",
            Opcode::Castore => "castore",
            Opcode::Sastore => "sastore",
            Opcode::Pop => "pop",
            Opcode::Pop2 => "pop2",
            Opcode::Dup => "dup",
            Opcode::DupX1 => "dup_x1",
            Opcode::DupX2 => "dup_x2",
            Opcode::Dup2 => "dup2",
            Opcode::Dup2X1 => "dup2_x1",
            Opcode::Dup2X2 => "dup2_x2",
            Opcode::Swap => "swap",
            Opcode::Iadd => "iadd",
            Opcode::Ladd => "ladd",
            Opcode::Fadd => "fadd",
            Opcode::Dadd => "dadd",
            Opcode::Isub => "isub",
            Opcode::Lsub => "lsub",
            Opcode::Fsub => "fsub",
            Opcode::Dsub => "dsub",
            Opcode::Imul => "imul",
            Opcode::Lmul => "lmul",
            Opcode::Fmul => "fmul",
            Opcode::Dmul => "dmul",
            Opcode::Idiv => "idiv",
            Opcode::Ldiv => "ldiv",
            Opcode::Fdiv => "fdiv",
            Opcode::Ddiv => "ddiv",
            Opcode::Irem => "irem",
            Opcode::Lrem => "lrem",
            Opcode::Frem => "frem",
            Opcode::Drem => "drem",
            Opcode::Ineg => "ineg",
            Opcode::Lneg => "lneg",
            Opcode::Fneg => "fneg",
            Opcode::Dneg => "dneg",
            Opcode::Ishl => "ishl",
            Opcode::Lshl => "lshl",
            Opcode::Ishr => "ishr",
            Opcode::Lshr => "lshr",
            Opcode::Iushr => "iushr",
            Opcode::Lushr => "lushr",
            Opcode::Iand => "iand",
            Opcode::Land => "land",
            Opcode::Ior => "ior",
            Opcode::Lor => "lor",
            Opcode::Ixor => "ixor",
            Opcode::Lxor => "lxor",
            Opcode::Iinc => "iinc",
            Opcode::I2l => "i2l",
            Opcode::I2f => "i2f",
            Opcode::I2d => "i2d",
            Opcode::L2i => "l2i",
            Opcode::L2f => "l2f",
            Opcode::L2d => "l2d",
            Opcode::F2i => "f2i",
            Opcode::F2l => "f2l",
            Opcode::F2d => "f2d",
            Opcode::D2i => "d2i",
            Opcode::D2l => "d2l",
            Opcode::D2f => "d2f",
            Opcode::I2b => "i2b",
            Opcode::I2c => "i2c",
            Opcode::I2s => "i2s",
            Opcode::Lcmp => "lcmp",
            Opcode::Fcmpl => "fcmpl",
            Opcode::Fcmpg => "fcmpg",
            Opcode::Dcmpl => "dcmpl",
            Opcode::Dcmpg => "dcmpg",
            Opcode::IfEq => "ifeq",
            Opcode::IfNe => "ifne",
            Opcode::IfLt => "iflt",
            Opcode::IfGe => "ifge",
            Opcode::IfGt => "ifgt",
            Opcode::IfLe => "ifle",
            Opcode::IfIcmpeq => "if_icmpeq",
            Opcode::IfIcmpne => "if_icmpne",
            Opcode::IfIcmplt => "if_icmplt",
            Opcode::IfIcmpge => "if_icmpge",
            Opcode::IfIcmpgt => "if_icmpgt",
            Opcode::IfIcmple => "if_icmple",
            Opcode::IfAcmpEq => "if_acmpeq",
            Opcode::IfAcmpNe => "if_acmpne",
            Opcode::Goto => "goto",
            Opcode::Jsr => "jsr",
            Opcode::Ret => "ret",
            Opcode::TableSwitch => "tableswitch",
            Opcode::Lookupswitch => "lookupswitch",
            Opcode::Ireturn => "ireturn",
            Opcode::Lreturn => "lreturn",
            Opcode::Freturn => "freturn",
            Opcode::Dreturn => "dreturn",
            Opcode::Areturn => "areturn",
            Opcode::Return => "return",
            Opcode::Getstatic => "getstatic",
            Opcode::Putstatic => "putstatic",
            Opcode::Getfield => "getfield",
            Opcode::Putfield => "putfield",
            Opcode::InvokeVirtual => "invokevirtual",
            Opcode::InvokeSpecial => "invokespecial",
            Opcode::InvokeStatic => "invokestatic",
            Opcode::InvokeInterface => "invokeinterface",
            Opcode::InvokeDynamic => "invokedynamic",
            Opcode::New => "new",
            Opcode::Newarray => "newarray",
            Opcode::Anewarray => "anewarray",
            Opcode::ArrayLength => "arraylength",
            Opcode::Athrow => "athrow",
            Opcode::Checkcast => "checkcast",
            Opcode::Instanceof => "instanceof",
            Opcode::Monitorenter => "monitorenter",
            Opcode::Monitorexit => "monitorexit",
            Opcode::Multianewarray => "multianewarray",
            Opcode::Ifnull => "ifnull",
            Opcode::Ifnonnull => "ifnonnull",
            Opcode::GotoW => "goto_w",
            Opcode::JsrW => "jsr_w",
            Opcode::Breakpoint => "breakpoint",
        }
    }
}

/// Encoding a [`Opcode`] as its byte and decoding the byte gives it back,
/// and every byte that decodes to a value is that value's encoding.
pub proof fn lemma_opcode_tag_roundtrip(k: Opcode, b: u8)
    ensures
        spec_opcode_from_tag(spec_opcode_tag(k)) == Some(k),
        spec_opcode_from_tag(b) == Some(k) ==> spec_opcode_tag(k) == b,
{
}

} // verus!
