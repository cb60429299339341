use lvm_class::attribute::method::code::{StackMapFrame, VerificationTypeInfo, VerificationTypeTag};
use lvm_class::attribute::{AttributeKind, ElementKind, SharedAttribute};
use lvm_class::bytecode::{ArrayType, Instruction, Opcode};
use lvm_class::constant_pool::builder::ConstantPoolBuilder;
use lvm_class::constant_pool::{ConstantEntry, ConstantPool, MethodHandle, MethodHandleKind, NameAndType, Reference};
use lvm_class::cursor::ByteCursor;
use lvm_class::error::{ClassFormatErr, InstructionErr, ReadError};
use lvm_class::ClassFile;

#[test]
fn every_opcode_byte_round_trips() {
    let mut known = 0;
    for b in 0..=255u8 {
        if let Some(op) = Opcode::from_byte(b) {
            assert_eq!(op.as_byte(), b);
            known += 1;
        }
    }
    assert_eq!(Opcode::from_byte(0x2a), Some(Opcode::Aload0));
    assert_eq!(Opcode::from_byte(0xfe), None);
    assert!(known > 200);
}

#[test]
fn attribute_kind_names_round_trip() {
    for name in ["Code", "ConstantValue", "LineNumberTable", "BootstrapMethods", "NestMembers", "Signature"] {
        let k = AttributeKind::try_from(name).unwrap();
        assert_eq!(k.as_str(), name);
    }
}

#[test]
fn array_type_tags_round_trip() {
    for b in 0..=255u8 {
        if let Some(t) = ArrayType::from_tag(b) {
            assert_eq!(t.tag(), b);
            assert_eq!(ArrayType::try_from(t.descriptor()), Ok(t));
        }
    }
    assert_eq!(ArrayType::from_tag(10), Some(ArrayType::Int));
    assert_eq!(ArrayType::Int.get_byte_size(), 4);
    assert_eq!(ArrayType::Long.as_str(), "long");
    assert_eq!(ArrayType::try_from("Q"), Err(()));
}

#[test]
fn verification_tags_round_trip() {
    for b in 0..=8u8 {
        let t = VerificationTypeTag::from_tag(b).unwrap();
        assert_eq!(t.tag(), b);
    }
    assert_eq!(VerificationTypeTag::from_tag(9), None);
}

#[test]
fn element_kind_tags_round_trip() {
    for c in ['B', 'C', 'D', 'F', 'I', 'J', 'S', 'Z', 's', 'e', 'c', '@', '['] {
        let k = ElementKind::from_tag(c as u8).unwrap();
        assert_eq!(k.tag(), c as u8);
    }
    assert_eq!(ElementKind::from_tag(b'x'), None);
}

#[test]
fn method_handle_kinds_round_trip() {
    let kinds = [
        MethodHandleKind::GetField,
        MethodHandleKind::GetStatic,
        MethodHandleKind::PutField,
        MethodHandleKind::PutStatic,
        MethodHandleKind::InvokeVirtual,
        MethodHandleKind::InvokeStatic,
        MethodHandleKind::InvokeSpecial,
        MethodHandleKind::NewInvokeSpecial,
        MethodHandleKind::InvokeInterface,
    ];
    for (i, k) in kinds.iter().enumerate() {
        let h = MethodHandle::new(i as u8 + 1, 1);
        assert_eq!(&h.get_kind().unwrap(), k);
    }
    assert_eq!(MethodHandle::new(10, 1).get_kind(), Err(ClassFormatErr::InvalidMethodHandleKind(10)));
    assert_eq!(MethodHandle::new(0, 1).get_kind(), Err(ClassFormatErr::InvalidMethodHandleKind(0)));
    assert_eq!(MethodHandleKind::NewInvokeSpecial.get_javap_value().unwrap(), "REF_newInvokeSpecial");
}

fn read_back(e: &ConstantEntry) -> (ConstantEntry, usize) {
    let mut buf = Vec::new();
    e.write_to(&mut buf);
    let mut c = ByteCursor::new(&buf);
    let r = ConstantEntry::read(&mut c).unwrap();
    (r, c.remaining())
}

#[test]
fn written_entries_read_back() {
    let entries = vec![
        ConstantEntry::Utf8("h\u{e9}llo \u{2603}".to_string()),
        ConstantEntry::Integer(-7),
        ConstantEntry::Class(3),
        ConstantEntry::String(4),
        ConstantEntry::FieldRef(Reference::new(1, 2)),
        ConstantEntry::MethodRef(Reference::new(3, 4)),
        ConstantEntry::NameAndType(NameAndType::new(7, 8)),
    ];
    for e in &entries {
        let (r, rest) = read_back(e);
        assert_eq!(&r, e);
        assert_eq!(rest, 0);
    }
    let mut buf = Vec::new();
    ConstantEntry::Utf8("h\u{e9}".to_string()).write_to(&mut buf);
    assert_eq!(buf, vec![1, 0, 3, b'h', 0xc3, 0xa9]);
}

#[test]
fn written_integer_has_tag_and_big_endian_value() {
    let mut buf = Vec::new();
    ConstantEntry::Integer(0x01020304).write_to(&mut buf);
    assert_eq!(buf, vec![3, 1, 2, 3, 4]);
}

#[test]
fn unknown_constant_tag_is_reported() {
    let data = [2u8, 0, 0];
    let mut c = ByteCursor::new(&data);
    assert_eq!(ConstantEntry::read(&mut c), Err(ReadError::Format(ClassFormatErr::UnknownTag(2))));
}

#[test]
fn long_and_double_take_two_slots() {
    let mut bytes = vec![0xCA, 0xFE, 0xBA, 0xBE, 0, 0, 0, 52, 0, 7];
    bytes.extend_from_slice(&[7, 0, 2]);
    bytes.extend_from_slice(&[1, 0, 1, b'W']);
    bytes.push(5);
    bytes.extend_from_slice(&5i64.to_be_bytes());
    bytes.push(6);
    bytes.extend_from_slice(&2.5f64.to_bits().to_be_bytes());
    bytes.extend_from_slice(&[0, 0x21, 0, 1, 0, 0, 0, 0, 0, 0, 0, 0, 0, 0]);
    let cf = ClassFile::parse(&bytes).unwrap();
    assert_eq!(cf.cp.inner.len(), 7);
    assert_eq!(cf.cp.inner[0], ConstantEntry::Unused);
    assert_eq!(cf.cp.inner[3], ConstantEntry::Long(5));
    assert_eq!(cf.cp.inner[4], ConstantEntry::Unused);
    assert_eq!(cf.cp.inner[5], ConstantEntry::Double(2.5f64.to_bits()));
    assert_eq!(cf.cp.inner[6], ConstantEntry::Unused);
    assert_eq!(cf.cp.get_class_name(&1).unwrap(), "W");
}

#[test]
fn unknown_stack_frame_type_is_reported() {
    let data = [128u8];
    let mut c = ByteCursor::new(&data);
    assert!(matches!(
        StackMapFrame::read(&mut c),
        Err(ReadError::Format(ClassFormatErr::UnknownStackFrameType(128)))
    ));
    let data = [10u8];
    let mut c = ByteCursor::new(&data);
    assert_eq!(StackMapFrame::read(&mut c).unwrap(), StackMapFrame::Same { offset_delta: 10 });
    let data = [251u8, 1, 0];
    let mut c = ByteCursor::new(&data);
    assert_eq!(StackMapFrame::read(&mut c).unwrap(), StackMapFrame::SameExtended { offset_delta: 256 });
    let data = [253u8, 0, 3, 1, 7, 0, 9];
    let mut c = ByteCursor::new(&data);
    assert_eq!(
        StackMapFrame::read(&mut c).unwrap(),
        StackMapFrame::Append {
            k: 2,
            offset_delta: 3,
            locals: vec![VerificationTypeInfo::Integer, VerificationTypeInfo::Object(9)]
        }
    );
}

#[test]
fn non_shared_attribute_is_refused_as_shared() {
    let data = [0u8; 4];
    let mut c = ByteCursor::new(&data);
    assert!(matches!(
        SharedAttribute::read(AttributeKind::Code, &mut c),
        Err(ReadError::Format(ClassFormatErr::AttributeIsNotShared(AttributeKind::Code)))
    ));
    let mut c = ByteCursor::new(&data);
    assert_eq!(SharedAttribute::read(AttributeKind::Deprecated, &mut c), Ok(SharedAttribute::Deprecated));
}

#[test]
fn decoded_length_is_byte_size() {
    let code = [0x2a, 0xb7, 0x00, 0x01, 0xb1, 0x10, 0xff, 0xbc, 0x0a, 0x14, 0x00, 0x02, 0x84, 0x01, 0x02];
    let mut pc = 0;
    let mut count = 0;
    while pc < code.len() {
        let i = Instruction::new_at(&code, pc).unwrap();
        pc += i.byte_size() as usize;
        count += 1;
    }
    assert_eq!(pc, code.len());
    assert_eq!(count, 7);
    assert_eq!(Instruction::new_at(&code, 12).unwrap(), Instruction::Iinc(1, 2));
    assert_eq!(Instruction::new_at(&code, 12).unwrap().byte_size(), 3);
}

#[test]
fn switches_are_padded_to_four_bytes() {
    // tableswitch at pc 1: two bytes of padding, default 20, low 0, high 1, two offsets.
    let mut code = vec![0x00, 0xaa, 0x00, 0x00];
    for v in [20i32, 0, 1, 8, 12] {
        code.extend_from_slice(&v.to_be_bytes());
    }
    let i = Instruction::new_at(&code, 1).unwrap();
    assert_eq!(i.byte_size(), 1 + 2 + 12 + 8);
    // lookupswitch at pc 0: three bytes of padding, default 4, one pair.
    let mut code = vec![0xab, 0x00, 0x00, 0x00];
    for v in [4i32, 1, 7, 9] {
        code.extend_from_slice(&v.to_be_bytes());
    }
    let i = Instruction::new_at(&code, 0).unwrap();
    assert_eq!(i.byte_size(), 1 + 3 + 8 + 8);
    assert!(matches!(Instruction::new_at(&code[..10], 0), Err(InstructionErr::Cursor(_))));
}

#[test]
fn truncated_operand_is_an_error() {
    assert!(matches!(Instruction::new_at(&[0x11, 0x01], 0), Err(InstructionErr::Cursor(_))));
}

#[test]
fn builder_adds_each_text_once() {
    let mut b = ConstantPoolBuilder::new();
    let a = b.add_utf8("x");
    let n = b.len();
    assert_eq!(b.add_utf8("x"), a);
    assert_eq!(b.len(), n);
    let c = b.add_class("x");
    assert_eq!(b.add_class("x"), c);
    let s = b.add_string("x");
    assert_eq!(b.add_string("x"), s);
    assert_ne!(c, s);
    let pool: ConstantPool = b.build();
    assert_eq!(pool.inner[c as usize], ConstantEntry::Class(a));
    assert_eq!(pool.inner[s as usize], ConstantEntry::String(a));
    assert_eq!(pool.inner.len(), 4);
    let f1 = {
        let mut b = ConstantPoolBuilder::new();
        let f = b.add_fieldref("A", "f", "I");
        (f, b.add_fieldref("A", "f", "I"), b.add_methodref("A", "f", "I"))
    };
    assert_eq!(f1.0, f1.1);
    assert_ne!(f1.0, f1.2);
}

#[test]
fn builder_reuses_class_and_name_and_type_across_refs() {
    let mut b = ConstantPoolBuilder::new();
    let m = b.add_methodref("A", "m", "()V");
    assert_eq!(m, 1);
    assert_eq!(b.len(), 7);
    let f = b.add_fieldref("A", "m", "()V");
    assert_eq!(f, 7);
    assert_eq!(b.len(), 8);
    assert_eq!(b.add_methodref("A", "m", "()V"), m);
    assert_eq!(b.add_fieldref("A", "m", "()V"), f);
    assert_eq!(b.len(), 8);
    let pool = b.build();
    assert_eq!(pool.inner[7], ConstantEntry::FieldRef(Reference { class_index: 2, name_and_type_index: 3 }));
    assert_eq!(pool.inner[1], ConstantEntry::MethodRef(Reference { class_index: 2, name_and_type_index: 3 }));
}

#[test]
fn invalid_switch_ranges_are_errors() {
    // tableswitch with high one below low: an invalid range, not an empty table.
    let mut code = vec![0xaa, 0x00, 0x00, 0x00];
    for v in [20i32, 5, 4] {
        code.extend_from_slice(&v.to_be_bytes());
    }
    assert_eq!(Instruction::new_at(&code, 0), Err(InstructionErr::InvalidSwitchRange));
    // tableswitch with low == high: one offset.
    let mut code = vec![0xaa, 0x00, 0x00, 0x00];
    for v in [20i32, 5, 5, 9] {
        code.extend_from_slice(&v.to_be_bytes());
    }
    assert_eq!(Instruction::new_at(&code, 0).unwrap().byte_size(), 1 + 3 + 12 + 4);
    // lookupswitch with a negative number of pairs.
    let mut code = vec![0xab, 0x00, 0x00, 0x00];
    for v in [4i32, -1] {
        code.extend_from_slice(&v.to_be_bytes());
    }
    assert_eq!(Instruction::new_at(&code, 0), Err(InstructionErr::InvalidSwitchRange));
    // a range far larger than the code runs past its end.
    let mut code = vec![0xaa, 0x00, 0x00, 0x00];
    for v in [0i32, i32::MIN, i32::MAX] {
        code.extend_from_slice(&v.to_be_bytes());
    }
    assert!(matches!(Instruction::new_at(&code, 0), Err(InstructionErr::Cursor(_))));
}

#[test]
fn builder_pool_has_no_duplicates_and_resolves() {
    let mut b = ConstantPoolBuilder::new();
    b.add_class("A");
    b.add_methodref("A", "m", "()V");
    b.add_fieldref("B", "m", "()V");
    b.add_string("m");
    b.add_utf8("A");
    b.add_methodref("B", "n", "I");
    b.add_class("B");
    let p = b.build().inner;
    assert_eq!(p[0], ConstantEntry::Unused);
    for i in 1..p.len() {
        assert_ne!(p[i], ConstantEntry::Unused);
        for j in (i + 1)..p.len() {
            assert_ne!(p[i], p[j]);
        }
        let utf8 = |k: u16| matches!(p[k as usize], ConstantEntry::Utf8(_));
        match &p[i] {
            ConstantEntry::Class(u) | ConstantEntry::String(u) => assert!(utf8(*u)),
            ConstantEntry::NameAndType(t) => assert!(utf8(t.name_index) && utf8(t.descriptor_index)),
            ConstantEntry::MethodRef(r) | ConstantEntry::FieldRef(r) => {
                assert!(matches!(p[r.class_index as usize], ConstantEntry::Class(_)));
                assert!(matches!(p[r.name_and_type_index as usize], ConstantEntry::NameAndType(_)));
            },
            _ => {},
        }
    }
}

#[test]
fn byte_size_is_the_shortest_prefix_that_decodes() {
    let mut code = vec![0x00, 0xaa, 0x00, 0x00];
    for v in [20i32, 0, 1, 8, 12] {
        code.extend_from_slice(&v.to_be_bytes());
    }
    code.extend_from_slice(&[0x11, 0x01, 0x02, 0xb1]);
    for pc in [1usize, 24] {
        let i = Instruction::new_at(&code, pc).unwrap();
        let end = pc + i.byte_size() as usize;
        for k in pc..end {
            assert!(Instruction::new_at(&code[..k], pc).is_err());
        }
        for k in end..=code.len() {
            assert_eq!(Instruction::new_at(&code[..k], pc).unwrap(), i);
        }
    }
}
