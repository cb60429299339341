use lvm_class::attribute::method::code::VerificationTypeInfo;
use lvm_class::attribute::ElementValue;
use lvm_class::bytecode::{ArrayType, Instruction, LookupSwitchData, TableSwitchData};
use lvm_class::constant::{ConstantInfo, ConstantTag, MethodHandleInfo, ReferenceInfo};
use lvm_class::constant_pool::builder::ConstantPoolBuilder;
use lvm_class::constant_pool::{ConstantEntry, ConstantPool, Dynamic, MethodHandle, MethodHandleKind, NameAndType};
use lvm_class::error::ClassFormatErr;
use lvm_class::flags::{ClassFlags, MethodFlags};
use lvm_class::javap_fmt::instruction::{get_instruction_value, instruction_is_position};

fn sample_pool() -> (ConstantPool, u16, u16, u16) {
    let mut b = ConstantPoolBuilder::new();
    let this = b.add_class("demo/Main");
    let init = b.add_methodref("java/lang/Object", "<init>", "()V");
    let field = b.add_fieldref("demo/Main", "count", "I");
    (b.build(), this, init, field)
}

#[test]
fn type_and_value_of_references() {
    let (cp, this, init, field) = sample_pool();
    let m = cp.inner[init as usize].clone();
    assert_eq!(m.get_javap_type_and_value(&cp, &this).unwrap(), "Method java/lang/Object.\"<init>\":()V");
    let f = cp.inner[field as usize].clone();
    assert_eq!(f.get_javap_type_and_value(&cp, &this).unwrap(), "Field count:I");
    let c = cp.inner[this as usize].clone();
    assert_eq!(c.get_javap_type_and_value(&cp, &this).unwrap(), "class demo/Main");
    assert_eq!(c.get_javap_value(&cp, &this).unwrap(), "demo/Main");
    assert_eq!(ConstantEntry::Integer(-42).get_javap_type_and_value(&cp, &this).unwrap(), "int -42");
    assert_eq!(ConstantEntry::Integer(-42).get_javap_value(&cp, &this).unwrap(), "-42");
    assert_eq!(ConstantEntry::Long(i64::MIN).get_javap_type_and_value(&cp, &this).unwrap(), "long -9223372036854775808l");
    assert_eq!(ConstantEntry::Utf8("a\"b".to_string()).get_javap_type_and_value(&cp, &this).unwrap(), "utf8 a\"b");
    assert_eq!(ConstantEntry::Dynamic(Dynamic::new(0, 1)).get_javap_type_and_value(&cp, &this).unwrap(), "Dynamic (details omitted)");
}

#[test]
fn method_handle_text() {
    let (mut cp, this, init, _) = sample_pool();
    cp.inner.push(ConstantEntry::MethodHandle(MethodHandle::new(7, init)));
    let h = cp.inner.last().unwrap().clone();
    assert_eq!(
        h.get_javap_type_and_value(&cp, &this).unwrap(),
        "REF_invokeSpecial java/lang/Object.\"<init>\":()V"
    );
    assert_eq!(
        h.javap_fmt(&cp).unwrap(),
        "7:#3             // REF_invokeSpecial java/lang/Object.\"<init>\":()V"
    );
    let bad = ConstantEntry::MethodHandle(MethodHandle::new(12, init));
    assert_eq!(bad.get_javap_type_and_value(&cp, &this), Err(ClassFormatErr::InvalidMethodHandleKind(12)));
    assert_eq!(MethodHandleKind::InvokeStatic.get_pretty_value().unwrap(), "REF_invokeStatic");
    assert_eq!(MethodHandleKind::GetField.get_javap_value().unwrap(), "REF_getField");
}

#[test]
fn constant_pool_lines() {
    let (cp, _, init, field) = sample_pool();
    assert_eq!(cp.inner[init as usize].javap_fmt(&cp).unwrap(), "#4.#5            // java/lang/Object.\"<init>\":()V");
    assert_eq!(cp.inner[4].javap_fmt(&cp).unwrap(), "#6               // java/lang/Object");
    assert_eq!(cp.inner[5].javap_fmt(&cp).unwrap(), "#7:#8            // \"<init>\":()V");
    assert_eq!(cp.inner[field as usize].javap_fmt(&cp).unwrap(), "#1.#10           // demo/Main.count:I");
    assert_eq!(ConstantEntry::Integer(7).javap_fmt(&cp).unwrap(), "7");
    assert_eq!(ConstantEntry::Long(-3).javap_fmt(&cp).unwrap(), "-3l");
    assert_eq!(ConstantEntry::Utf8("tab\t".to_string()).javap_fmt(&cp).unwrap(), "tab\\t");
    assert_eq!(ConstantEntry::String(99).javap_fmt(&cp), Err(ClassFormatErr::ConstantNotFound(99)));
    assert_eq!(
        ConstantEntry::Class(1).javap_fmt(&cp),
        Err(ClassFormatErr::TypeError(1, "Utf8".to_string(), "Class".to_string()))
    );
}

#[test]
fn verification_types_and_element_values() {
    let (mut cp, this, _, _) = sample_pool();
    assert_eq!(VerificationTypeInfo::Top.get_javap_value(&cp, &this).unwrap(), "top");
    assert_eq!(VerificationTypeInfo::UninitializedThis.get_javap_value(&cp, &this).unwrap(), "this");
    assert_eq!(VerificationTypeInfo::Uninitialized(17).get_javap_value(&cp, &this).unwrap(), "uninitialized 17");
    assert_eq!(VerificationTypeInfo::Object(this).get_javap_value(&cp, &this).unwrap(), "class demo/Main");
    cp.inner.push(ConstantEntry::Integer(1));
    let one = (cp.inner.len() - 1) as u16;
    assert_eq!(ElementValue::Boolean(one).get_javap_value(&cp).unwrap(), "true");
    assert_eq!(ElementValue::Boolean(one).get_javap_descriptor(), format!("Z#{one}"));
    assert_eq!(ElementValue::String(6).get_javap_value(&cp).unwrap(), "\"java/lang/Object\"");
    assert_eq!(ElementValue::String(6).get_javap_descriptor(), "s#6");
}

#[test]
fn instruction_values() {
    assert_eq!(get_instruction_value(&Instruction::Goto(-5), 10).unwrap(), "5");
    assert_eq!(get_instruction_value(&Instruction::Iinc(3, -1), 0).unwrap(), "3, -1");
    assert_eq!(get_instruction_value(&Instruction::InvokeDynamic(12), 0).unwrap(), "12, 0");
    assert_eq!(get_instruction_value(&Instruction::InvokeInterface(4, 2), 0).unwrap(), "4, 2");
    assert_eq!(get_instruction_value(&Instruction::Newarray(ArrayType::Long), 0).unwrap(), "long");
    assert_eq!(get_instruction_value(&Instruction::Return, 0), None);
    assert!(instruction_is_position(&Instruction::Goto(1)));
    assert!(!instruction_is_position(&Instruction::InvokeStatic(1)));
    let lookup = Instruction::Lookupswitch(LookupSwitchData { padding: 3, default_offset: 20, pairs: vec![(1, 8), (-4, 12)] });
    assert_eq!(
        get_instruction_value(&lookup, 100).unwrap(),
        "{ // 2\n                   1: 108\n                  -4: 112\n             default: 120\n      }"
    );
    let table = Instruction::TableSwitch(TableSwitchData { padding: 0, default_offset: 9, low: 5, high: 6, offsets: vec![1, 2] });
    assert_eq!(
        get_instruction_value(&table, 0).unwrap(),
        "{ // 5 to 6\n                   5: 1\n                   6: 2\n             default: 9\n      }"
    );
}

#[test]
fn flag_texts() {
    let c = ClassFlags::new(0x0411);
    assert_eq!(c.fmt_rns(), ".class public abstract final ");
    let m = MethodFlags::new(0x0009);
    assert_eq!(m.fmt_rns(), "public static ");
}

#[test]
fn alternative_type_names() {
    let r = ReferenceInfo::new(1, 2);
    assert_eq!(r.class_index, 1);
    let h = MethodHandleInfo::new(5, 3);
    assert_eq!(h.get_kind().unwrap(), MethodHandleKind::InvokeVirtual);
    let e: ConstantInfo = ConstantEntry::NameAndType(NameAndType::new(1, 2));
    assert_eq!(e.get_tag(), ConstantTag::NameAndType);
    assert_eq!(ArrayType::try_from("[J"), Ok(ArrayType::Long));
    assert_eq!(ArrayType::try_from("[X"), Err(()));
    assert_eq!(ArrayType::Short.get_byte_size(), 2);
    assert_eq!(ArrayType::Char.descriptor(), "[C");
}
