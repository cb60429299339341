use lvm_class::attribute::AttributeKind;
use lvm_class::bytecode::{ArrayType, Instruction, Opcode};
use lvm_class::constant_pool::builder::ConstantPoolBuilder;
use lvm_class::constant_pool::{ConstantEntry, ConstantPool, NameAndType, Reference};
use lvm_class::error::{ClassFormatErr, CursorError, InstructionErr, ReadError};
use lvm_class::flags::ClassFlags;
use lvm_class::{ClassFile, ClassFileBuilder};

fn minimal_class() -> Vec<u8> {
    let mut b = ConstantPoolBuilder::new();
    let this = b.add_class("Hello");
    let sup = b.add_class("java/lang/Object");
    let cp = b.build();
    let cf = ClassFileBuilder::new(0, 65, cp)
        .access_flags(ClassFlags::new(0x21))
        .this_class(Some(this))
        .super_class(Some(sup))
        .build()
        .unwrap();
    cf.to_bytes()
}

#[test]
fn write_then_parse_gives_the_class_back() {
    let bytes = minimal_class();
    let cf = ClassFile::try_from(bytes.clone()).unwrap();
    assert_eq!(cf.major_version, 65);
    assert_eq!(cf.minor_version, 0);
    assert_eq!(*cf.access_flags.get_raw(), 0x21);
    assert_eq!(cf.this_class, 1);
    assert_eq!(cf.super_class, 3);
    assert_eq!(cf.cp.get_class_name(&cf.this_class).unwrap(), "Hello");
    assert_eq!(cf.get_super_class_name().unwrap().unwrap(), "java/lang/Object");
    assert_eq!(cf.to_bytes(), bytes);
}

#[test]
fn wrong_magic_is_reported() {
    let mut bytes = minimal_class();
    bytes[0] = 0;
    match ClassFile::parse(&bytes) {
        Err(ReadError::Format(ClassFormatErr::WrongMagic(m))) => assert_eq!(m, 0x00FE_BABE),
        other => panic!("unexpected {:?}", other.map(|c| c.this_class)),
    }
}

#[test]
fn trailing_bytes_are_reported() {
    let mut bytes = minimal_class();
    bytes.push(0);
    assert!(matches!(ClassFile::parse(&bytes), Err(ReadError::Format(ClassFormatErr::TrailingBytes))));
}

#[test]
fn truncated_input_is_reported() {
    let bytes = minimal_class();
    let short = &bytes[..bytes.len() - 1];
    assert!(matches!(
        ClassFile::parse(short),
        Err(ReadError::Format(ClassFormatErr::Cursor(CursorError::UnexpectedEof)))
    ));
}

#[test]
fn builder_reuses_entries() {
    let mut b = ConstantPoolBuilder::new();
    let m1 = b.add_methodref("java/lang/Object", "<init>", "()V");
    let len = b.len();
    let m2 = b.add_methodref("java/lang/Object", "<init>", "()V");
    assert_eq!(m1, m2);
    assert_eq!(b.len(), len);
    let pool = b.build();
    // javac order: ref, class, name-and-type, then the texts
    assert_eq!(m1, 1);
    assert!(matches!(pool.inner[1], ConstantEntry::MethodRef(Reference { class_index: 2, name_and_type_index: 3 })));
    assert!(matches!(pool.inner[2], ConstantEntry::Class(4)));
    assert!(matches!(pool.inner[3], ConstantEntry::NameAndType(NameAndType { name_index: 5, descriptor_index: 6 })));
    assert_eq!(pool.get_utf8(&4).unwrap(), "java/lang/Object");
    assert_eq!(pool.get_utf8(&5).unwrap(), "<init>");
    assert_eq!(pool.get_utf8(&6).unwrap(), "()V");
}

#[test]
fn decode_instructions() {
    let code = [0x2a, 0xb7, 0x00, 0x01, 0xb1, 0x10, 0xff, 0xbc, 0x0a];
    let i0 = Instruction::new_at(&code, 0).unwrap();
    assert_eq!(i0, Instruction::Aload0);
    assert_eq!(i0.byte_size(), 1);
    let i1 = Instruction::new_at(&code, 1).unwrap();
    assert_eq!(i1, Instruction::InvokeSpecial(1));
    assert_eq!(i1.byte_size(), 3);
    assert_eq!(i1.get_name(), "invokespecial");
    assert_eq!(Instruction::new_at(&code, 4).unwrap(), Instruction::Return);
    assert_eq!(Instruction::new_at(&code, 5).unwrap(), Instruction::Bipush(-1));
    assert_eq!(Instruction::new_at(&code, 7).unwrap(), Instruction::Newarray(ArrayType::Int));
    assert_eq!(i1.opcode(), Some(Opcode::InvokeSpecial));
    assert!(matches!(Instruction::new_at(&[0xfe], 0), Err(InstructionErr::UnsupportedOpCode(0xfe))));
    assert!(matches!(Instruction::new_at(&[0xbc, 3], 0), Err(InstructionErr::UnknownArrayType(3))));
}

#[test]
fn attribute_names() {
    assert_eq!(AttributeKind::Code.as_str(), "Code");
    assert_eq!(AttributeKind::try_from("StackMapTable").unwrap(), AttributeKind::StackMapTable);
    assert!(matches!(AttributeKind::try_from("Nope"), Err(ClassFormatErr::UnknownAttribute(s)) if s == "Nope"));
    let pool = ConstantPool { inner: vec![ConstantEntry::Unused] };
    assert!(matches!(pool.get_utf8(&3), Err(ClassFormatErr::ConstantNotFound(3))));
}

#[test]
fn unsupported_features_are_errors() {
    // A constant pool of two slots whose entry is a Module constant (tag 19).
    let mut bytes = vec![0xca, 0xfe, 0xba, 0xbe, 0, 0, 0, 65, 0, 2, 19, 0, 1];
    bytes.extend_from_slice(&[0; 16]);
    assert!(matches!(ClassFile::try_from(bytes), Err(ClassFormatErr::UnsupportedFeature)));
    let mut trailing = minimal_class();
    trailing.extend_from_slice(&[1, 2, 3]);
    assert!(matches!(ClassFile::try_from(trailing), Err(ClassFormatErr::TrailingBytes)));
}

fn push16(v: &mut Vec<u8>, x: u16) {
    v.extend_from_slice(&x.to_be_bytes());
}

fn class_with_members() -> Vec<u8> {
    let mut b = ConstantPoolBuilder::new();
    let this = b.add_class("Hello");
    let sup = b.add_class("java/lang/Object");
    let field_name = b.add_utf8("x");
    let field_desc = b.add_utf8("I");
    let method_name = b.add_utf8("m");
    let method_desc = b.add_utf8("()V");
    let code = b.add_utf8("Code");
    let source_file = b.add_utf8("SourceFile");
    let source = b.add_utf8("Hello.java");
    let cp = b.build();
    let cf = ClassFileBuilder::new(0, 65, cp)
        .access_flags(ClassFlags::new(0x21))
        .this_class(Some(this))
        .super_class(Some(sup))
        .build()
        .unwrap();
    let mut bytes = cf.to_bytes();
    bytes.truncate(bytes.len() - 8);
    push16(&mut bytes, 0);
    push16(&mut bytes, 1);
    push16(&mut bytes, 0x0002);
    push16(&mut bytes, field_name);
    push16(&mut bytes, field_desc);
    push16(&mut bytes, 0);
    push16(&mut bytes, 1);
    push16(&mut bytes, 0x0001);
    push16(&mut bytes, method_name);
    push16(&mut bytes, method_desc);
    push16(&mut bytes, 1);
    push16(&mut bytes, code);
    bytes.extend_from_slice(&13u32.to_be_bytes());
    push16(&mut bytes, 0);
    push16(&mut bytes, 1);
    bytes.extend_from_slice(&1u32.to_be_bytes());
    bytes.push(0xb1);
    push16(&mut bytes, 0);
    push16(&mut bytes, 0);
    push16(&mut bytes, 1);
    push16(&mut bytes, source_file);
    bytes.extend_from_slice(&2u32.to_be_bytes());
    push16(&mut bytes, source);
    bytes
}

#[test]
fn trailing_bytes_after_members_are_reported() {
    let bytes = class_with_members();
    let cf = ClassFile::try_from(bytes.clone()).unwrap();
    assert_eq!(cf.fields.len(), 1);
    assert_eq!(cf.methods.len(), 1);
    assert_eq!(cf.attributes.len(), 1);
    for extra in [vec![0u8], vec![0xCA, 0xFE], vec![1, 2, 3, 4, 5]] {
        let mut longer = bytes.clone();
        longer.extend_from_slice(&extra);
        assert!(matches!(ClassFile::try_from(longer), Err(ClassFormatErr::TrailingBytes)));
    }
}
