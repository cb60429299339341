use lvm_class::bytecode::Instruction;
use lvm_class::constant_pool::builder::ConstantPoolBuilder;
use lvm_class::constant_pool::{ConstantEntry, ConstantPool, MethodHandle};
use lvm_class::error::ClassFormatErr;
use lvm_class::print::{get_instruction_comment, get_pretty_instruction};

fn pool() -> (ConstantPool, u16, u16, u16, u16) {
    let mut b = ConstantPoolBuilder::new();
    let this = b.add_class("demo/Main");
    let init = b.add_methodref("java/lang/Object", "<init>", "()V");
    let out = b.add_fieldref("java/lang/System", "out", "Ljava/io/PrintStream;");
    let hello = b.add_string("hello");
    (b.build(), this, init, out, hello)
}

#[test]
fn instruction_comments_describe_constants() {
    let (cp, this, init, out, hello) = pool();
    assert_eq!(
        get_instruction_comment(&Instruction::InvokeSpecial(init), &cp, &this).unwrap(),
        Some("Method java/lang/Object.\"<init>\":()V".to_string())
    );
    assert_eq!(
        get_instruction_comment(&Instruction::Getstatic(out), &cp, &this).unwrap(),
        Some("Field java/lang/System.out:Ljava/io/PrintStream;".to_string())
    );
    assert_eq!(
        get_instruction_comment(&Instruction::Ldc(hello), &cp, &this).unwrap(),
        Some("String hello".to_string())
    );
    assert_eq!(get_instruction_comment(&Instruction::New(this), &cp, &this).unwrap(), Some("class demo/Main".to_string()));
    assert_eq!(get_instruction_comment(&Instruction::Iload(1), &cp, &this).unwrap(), None);
    assert_eq!(
        get_instruction_comment(&Instruction::Checkcast(500), &cp, &this),
        Err(ClassFormatErr::ConstantNotFound(500))
    );
}

#[test]
fn pretty_instructions() {
    let (cp, this, init, _, _) = pool();
    assert_eq!(get_pretty_instruction(&Instruction::Return, &cp, 0, &this).unwrap(), "return       ");
    assert_eq!(
        get_pretty_instruction(&Instruction::Iload(2), &cp, 0, &this).unwrap(),
        "iload         2                 "
    );
    assert_eq!(
        get_pretty_instruction(&Instruction::Goto(-3), &cp, 10, &this).unwrap(),
        "goto          7                 "
    );
    assert_eq!(
        get_pretty_instruction(&Instruction::InvokeSpecial(init), &cp, 1, &this).unwrap(),
        format!("invokespecial #{init:<18} // Method java/lang/Object.\"<init>\":()V")
    );
}

#[test]
fn pretty_method_handle_keeps_the_name() {
    let (mut cp, this, init, _, _) = pool();
    cp.inner.push(ConstantEntry::MethodHandle(MethodHandle::new(7, init)));
    let h = cp.inner.last().unwrap().clone();
    assert_eq!(
        h.get_pretty_type_and_value(&cp, &this).unwrap(),
        "REF_invokeSpecial java/lang/Object.<init>:()V"
    );
    assert_eq!(
        h.get_javap_type_and_value(&cp, &this).unwrap(),
        "REF_invokeSpecial java/lang/Object.\"<init>\":()V"
    );
    assert_eq!(ConstantEntry::Integer(3).get_pretty_value(&cp, &this).unwrap(), "3");
    assert_eq!(cp.inner[this as usize].get_pretty_value(&cp, &this).unwrap(), "class demo/Main");
}

#[test]
fn assembler_text_of_constants() {
    let (cp, this, init, out, hello) = pool();
    assert_eq!(cp.inner[this as usize].fmt_jasm(&cp).unwrap(), "demo/Main");
    assert_eq!(cp.inner[init as usize].fmt_jasm(&cp).unwrap(), "java/lang/Object <init> ()V");
    assert_eq!(cp.inner[out as usize].fmt_jasm(&cp).unwrap(), "java/lang/System out Ljava/io/PrintStream;");
    assert_eq!(cp.inner[hello as usize].fmt_jasm(&cp).unwrap(), "\"hello\"");
    assert_eq!(ConstantEntry::Class(77).fmt_jasm(&cp), Err(ClassFormatErr::ConstantNotFound(77)));
    assert_eq!(Instruction::InvokeSpecial(init).fmt_jasm(&cp).unwrap(), "invokespecial java/lang/Object <init> ()V");
    assert_eq!(Instruction::Ldc(hello).fmt_jasm(&cp).unwrap(), "ldc \"hello\"");
    assert_eq!(Instruction::Return.fmt_jasm(&cp).unwrap(), "return");
}

#[test]
fn super_class_line() {
    let mut b = ConstantPoolBuilder::new();
    let this = b.add_class("demo/Main");
    let sup = b.add_class("java/lang/Object");
    let cp = b.build();
    let cf = lvm_class::ClassFileBuilder::new(0, 52, cp).this_class(Some(this)).super_class(Some(sup)).build().unwrap();
    assert_eq!(cf.fmt_super_class().unwrap(), Some(".super java/lang/Object".to_string()));
    let mut b = ConstantPoolBuilder::new();
    let this = b.add_class("java/lang/Object");
    let root = lvm_class::ClassFileBuilder::new(0, 52, b.build()).this_class(Some(this)).super_class(Some(0)).build().unwrap();
    assert_eq!(root.fmt_super_class().unwrap(), None);
}

#[test]
fn raw_entries_by_index() {
    let (cp, this, _, _, _) = pool();
    assert_eq!(cp.get_raw_entry(0), Ok(&ConstantEntry::Unused));
    assert!(matches!(cp.get_raw_entry(this), Ok(ConstantEntry::Class(_))));
    assert_eq!(cp.get_raw_entry(900), Err(ClassFormatErr::ConstantNotFound(900)));
}
