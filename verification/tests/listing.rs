use lvm_class::attribute::method::code::{
    CodeAttributeInfo, LineNumberEntry, LocalVariableEntry, LocalVariableTypeEntry, StackMapFrame,
    VerificationTypeInfo,
};
use lvm_class::attribute::{
    CodeAttribute, ExceptionTableEntry,
    Annotation, BootstrapMethodEntry, ClassAttribute, ElementValue, ElementValuePair, FieldAttribute,
    InnerClassEntry, LocalVarEntry, MethodAttribute, MethodParameterEntry, ParameterAnnotations,
    SharedAttribute, TargetInfo, TypeAnnotation, TypePath,
};
use lvm_class::constant_pool::builder::ConstantPoolBuilder;
use lvm_class::constant_pool::{ConstantEntry, ConstantPool, MethodHandle, NameAndType};
use lvm_class::error::ClassFormatErr;
use lvm_class::class_file::ClassFile;
use lvm_class::flags::{ClassFlags, FieldFlags, MethodFlags};
use lvm_class::javap_fmt::class::ClassTypeText;
use lvm_class::javap_fmt::method::MethodTypeText;
use lvm_class::javap_fmt::lines::JavapLine;
use lvm_class::member::{FieldInfo, MethodInfo};

fn lines(v: &[JavapLine]) -> Vec<(usize, String)> {
    v.iter().map(|l| (l.depth, l.text.clone())).collect()
}

fn l(depth: usize, text: &str) -> (usize, String) {
    (depth, text.to_string())
}

fn push(cp: &mut ConstantPool, e: ConstantEntry) -> u16 {
    cp.inner.push(e);
    (cp.inner.len() - 1) as u16
}

struct Fixture {
    cp: ConstantPool,
    this: u16,
}

fn fixture() -> Fixture {
    let mut b = ConstantPoolBuilder::new();
    let this = b.add_class("demo/Main");
    Fixture { cp: b.build(), this }
}

fn frame_lines(f: &StackMapFrame, fx: &Fixture, depth: usize) -> Result<Vec<(usize, String)>, ClassFormatErr> {
    let mut out = Vec::new();
    f.javap_fmt(&fx.cp, &fx.this, depth, &mut out)?;
    Ok(lines(&out))
}

#[test]
fn stack_map_frames_are_listed() {
    let fx = fixture();
    assert_eq!(
        frame_lines(&StackMapFrame::Same { offset_delta: 3 }, &fx, 2).unwrap(),
        vec![l(2, "frame_type = 3 /* same */")]
    );
    assert_eq!(
        frame_lines(&StackMapFrame::SameLocals1StackItem { offset_delta: 5, stack: VerificationTypeInfo::Integer }, &fx, 0)
            .unwrap(),
        vec![l(0, "frame_type = 69 /* same_locals_1_stack_item */"), l(1, "stack = [ int ]")]
    );
    assert_eq!(
        frame_lines(
            &StackMapFrame::SameLocals1StackItemExtended { offset_delta: 400, stack: VerificationTypeInfo::Null },
            &fx,
            0
        )
        .unwrap(),
        vec![
            l(0, "frame_type = 247 /* same_locals_1_stack_item_frame_extended */"),
            l(1, "offset_delta = 400"),
            l(1, "stack = [ null ]"),
        ]
    );
    assert_eq!(
        frame_lines(&StackMapFrame::Chop { k: 2, offset_delta: 7 }, &fx, 0).unwrap(),
        vec![l(0, "frame_type = 249 /* chop */"), l(1, "offset_delta = 7")]
    );
    assert_eq!(
        frame_lines(&StackMapFrame::SameExtended { offset_delta: 300 }, &fx, 0).unwrap(),
        vec![l(0, "frame_type = 251 /* same_frame_extended */"), l(1, "offset_delta = 300")]
    );
    assert_eq!(
        frame_lines(
            &StackMapFrame::Append {
                k: 1,
                offset_delta: 4,
                locals: vec![VerificationTypeInfo::Integer, VerificationTypeInfo::Object(fx.this)],
            },
            &fx,
            0
        )
        .unwrap(),
        vec![
            l(0, "frame_type = 252 /* append */"),
            l(1, "offset_delta = 4"),
            l(1, "locals = [int, class demo/Main]"),
        ]
    );
    assert_eq!(
        frame_lines(
            &StackMapFrame::Full { offset_delta: 10, locals: vec![], stack: vec![VerificationTypeInfo::Top] },
            &fx,
            1
        )
        .unwrap(),
        vec![
            l(1, "frame_type = 255 /* full_frame */"),
            l(2, "offset_delta = 10"),
            l(2, "locals = []"),
            l(2, "stack = [top]"),
        ]
    );
}

#[test]
fn stack_map_frame_with_missing_constant_fails() {
    let fx = fixture();
    let f = StackMapFrame::Full {
        offset_delta: 0,
        locals: vec![VerificationTypeInfo::Long, VerificationTypeInfo::Object(999)],
        stack: vec![],
    };
    assert_eq!(frame_lines(&f, &fx, 0), Err(ClassFormatErr::ConstantNotFound(999)));
}

fn code_info_lines(a: &CodeAttributeInfo, fx: &Fixture, depth: usize) -> Result<Vec<(usize, String)>, ClassFormatErr> {
    let mut out = Vec::new();
    a.javap_fmt(&fx.cp, &fx.this, depth, &mut out)?;
    Ok(lines(&out))
}

#[test]
fn line_number_table_is_listed() {
    let fx = fixture();
    let a = CodeAttributeInfo::LineNumberTable(vec![
        LineNumberEntry { start_pc: 0, line_number: 3 },
        LineNumberEntry { start_pc: 4, line_number: 5 },
    ]);
    assert_eq!(
        code_info_lines(&a, &fx, 1).unwrap(),
        vec![l(1, "LineNumberTable:"), l(2, "line 3: 0"), l(2, "line 5: 4")]
    );
}

#[test]
fn local_variable_tables_are_listed() {
    let mut fx = fixture();
    let name = push(&mut fx.cp, ConstantEntry::Utf8("this".to_string()));
    let desc = push(&mut fx.cp, ConstantEntry::Utf8("Ldemo/Main;".to_string()));
    let a = CodeAttributeInfo::LocalVariableTable(vec![LocalVariableEntry {
        start_pc: 0,
        length: 5,
        name_index: name,
        descriptor_index: desc,
        index: 0,
    }]);
    assert_eq!(
        code_info_lines(&a, &fx, 0).unwrap(),
        vec![
            l(0, "LocalVariableTable:"),
            l(0, " Start   Length  Slot  Name   Signature"),
            l(0, "     0        5     0  this   Ldemo/Main;"),
        ]
    );
    let t = CodeAttributeInfo::LocalVariableTypeTable(vec![LocalVariableTypeEntry {
        start_pc: 12,
        length: 300,
        name_index: name,
        signature_index: desc,
        index: 2,
    }]);
    assert_eq!(
        code_info_lines(&t, &fx, 0).unwrap(),
        vec![
            l(0, "LocalVariableTypeTable:"),
            l(1, " Start   Length  Slot  Name   Signature"),
            l(1, "    12      300     2  this   Ldemo/Main;"),
        ]
    );
    let bad = CodeAttributeInfo::LocalVariableTable(vec![LocalVariableEntry {
        start_pc: 0,
        length: 1,
        name_index: fx.this,
        descriptor_index: desc,
        index: 0,
    }]);
    assert!(matches!(code_info_lines(&bad, &fx, 0), Err(ClassFormatErr::TypeError(..))));
}

#[test]
fn stack_map_table_is_listed() {
    let fx = fixture();
    let a = CodeAttributeInfo::StackMapTable(vec![
        StackMapFrame::Same { offset_delta: 8 },
        StackMapFrame::Chop { k: 1, offset_delta: 2 },
    ]);
    assert_eq!(
        code_info_lines(&a, &fx, 0).unwrap(),
        vec![
            l(0, "StackMapTable: number_of_entries = 2"),
            l(1, "frame_type = 8 /* same */"),
            l(1, "frame_type = 250 /* chop */"),
            l(2, "offset_delta = 2"),
        ]
    );
}

fn shared_lines(a: &SharedAttribute, cp: &ConstantPool) -> Result<Vec<(usize, String)>, ClassFormatErr> {
    let mut out = Vec::new();
    a.javap_fmt(cp, 0, &mut out)?;
    Ok(lines(&out))
}

#[test]
fn deprecated_and_signature_are_listed() {
    let mut fx = fixture();
    assert_eq!(shared_lines(&SharedAttribute::Deprecated, &fx.cp).unwrap(), vec![l(0, "Deprecated: true")]);
    let sig = push(&mut fx.cp, ConstantEntry::Utf8("Ljava/util/List<TT;>;".to_string()));
    assert_eq!(sig, 3);
    assert_eq!(
        shared_lines(&SharedAttribute::Signature(sig), &fx.cp).unwrap(),
        vec![l(0, "Signature: #3                          // Ljava/util/List<TT;>;")]
    );
    assert_eq!(
        shared_lines(&SharedAttribute::Signature(77), &fx.cp),
        Err(ClassFormatErr::ConstantNotFound(77))
    );
}

#[test]
fn annotations_are_listed() {
    let mut fx = fixture();
    let t1 = push(&mut fx.cp, ConstantEntry::Utf8("Ljava/lang/Deprecated;".to_string()));
    let t2 = push(&mut fx.cp, ConstantEntry::Utf8("Lfoo/Bar;".to_string()));
    let n1 = push(&mut fx.cp, ConstantEntry::Utf8("value".to_string()));
    let n2 = push(&mut fx.cp, ConstantEntry::Utf8("s".to_string()));
    let one = push(&mut fx.cp, ConstantEntry::Integer(1));
    let hi = push(&mut fx.cp, ConstantEntry::Utf8("hi".to_string()));
    let a = SharedAttribute::RuntimeVisibleAnnotations(vec![
        Annotation { type_index: t1, element_value_pairs: vec![] },
        Annotation {
            type_index: t2,
            element_value_pairs: vec![
                ElementValuePair { element_name_index: n1, value: ElementValue::Boolean(one) },
                ElementValuePair { element_name_index: n2, value: ElementValue::String(hi) },
            ],
        },
    ]);
    assert_eq!(
        shared_lines(&a, &fx.cp).unwrap(),
        vec![
            l(0, "RuntimeVisibleAnnotations:"),
            (1, format!("0: #{t1}()")),
            l(2, "java.lang.Deprecated"),
            (1, format!("1: #{t2}(#{n1}=Z#{one},#{n2}=s#{hi})")),
            l(2, "foo.Bar("),
            l(3, "value=true"),
            l(3, "s=\"hi\""),
            l(2, ")"),
        ]
    );
    let missing = SharedAttribute::RuntimeInvisibleAnnotations(vec![Annotation { type_index: 500, element_value_pairs: vec![] }]);
    assert_eq!(shared_lines(&missing, &fx.cp), Err(ClassFormatErr::ConstantNotFound(500)));
}

#[test]
fn type_annotations_are_listed() {
    let mut fx = fixture();
    let t1 = push(&mut fx.cp, ConstantEntry::Utf8("Ljava/lang/Deprecated;".to_string()));
    let a = SharedAttribute::RuntimeInvisibleTypeAnnotations(vec![
        TypeAnnotation {
            target_info: TargetInfo::LocalVar {
                localvar_table: vec![
                    LocalVarEntry { start_pc: 0, length: 5, index: 1 },
                    LocalVarEntry { start_pc: 6, length: 2, index: 3 },
                ],
            },
            target_path: TypePath { path: vec![] },
            type_index: t1,
            element_value_pairs: vec![],
        },
        TypeAnnotation {
            target_info: TargetInfo::TypeArgument { offset: 9, type_argument_index: 1 },
            target_path: TypePath { path: vec![] },
            type_index: t1,
            element_value_pairs: vec![],
        },
    ]);
    assert_eq!(
        shared_lines(&a, &fx.cp).unwrap(),
        vec![
            l(0, "RuntimeInvisibleTypeAnnotations:"),
            (1, format!("0: #{t1}(): LOCAL_VARIABLE, {{start_pc=0, length=5, index=1; start_pc=6, length=2, index=3}}")),
            l(2, "java.lang.Deprecated"),
            (1, format!("1: #{t1}(): TYPE_ARGUMENT, offset=9, type_argument_index=1")),
            l(2, "java.lang.Deprecated"),
        ]
    );
}

fn class_attr_lines(a: &ClassAttribute, cp: &ConstantPool) -> Result<Vec<(usize, String)>, ClassFormatErr> {
    let mut out = Vec::new();
    a.javap_fmt(cp, &vec![], 0, &mut out)?;
    Ok(lines(&out))
}

#[test]
fn source_file_and_nest_attributes_are_listed() {
    let mut fx = fixture();
    let src = push(&mut fx.cp, ConstantEntry::Utf8("Main.java".to_string()));
    assert_eq!(
        class_attr_lines(&ClassAttribute::SourceFile(src), &fx.cp).unwrap(),
        vec![l(0, "SourceFile: \"Main.java\"")]
    );
    assert_eq!(
        class_attr_lines(&ClassAttribute::SourceFile(999), &fx.cp),
        Err(ClassFormatErr::ConstantNotFound(999))
    );
    assert_eq!(
        class_attr_lines(&ClassAttribute::NestHost(fx.this), &fx.cp).unwrap(),
        vec![l(0, "NestHost: class demo/Main")]
    );
    assert_eq!(
        class_attr_lines(&ClassAttribute::NestMembers(vec![fx.this]), &fx.cp).unwrap(),
        vec![l(0, "NestMembers:"), l(1, "demo/Main")]
    );
    assert_eq!(
        class_attr_lines(&ClassAttribute::PermittedSubclasses(vec![fx.this, fx.this]), &fx.cp).unwrap(),
        vec![l(0, "PermittedSubclasses:"), l(1, "demo/Main"), l(1, "demo/Main")]
    );
    assert_eq!(
        class_attr_lines(&ClassAttribute::Shared(SharedAttribute::Deprecated), &fx.cp).unwrap(),
        vec![l(0, "Deprecated: true")]
    );
}

#[test]
fn inner_classes_are_listed() {
    let mut b = ConstantPoolBuilder::new();
    let outer = b.add_class("demo/Main");
    let anon = b.add_class("demo/Main$1");
    let member = b.add_class("demo/Main$Inner");
    let name = b.add_utf8("Inner");
    let cp = b.build();
    let a = ClassAttribute::InnerClasses(vec![
        InnerClassEntry::new(anon, 0, 0, 0x0008),
        InnerClassEntry::new(anon, 0, 0, 0),
        InnerClassEntry::new(member, 0, name, 0),
        InnerClassEntry::new(member, outer, name, 0x0009),
    ]);
    let pad = |s: String| format!("{s:<43}");
    assert_eq!(
        class_attr_lines(&a, &cp).unwrap(),
        vec![
            l(0, "InnerClasses:"),
            (1, format!("{} // class demo/Main$1", pad(format!("static #{anon};")))),
            (1, format!("{} // class demo/Main$1", pad(format!("#{anon};")))),
            (1, format!("{} // Inner=class demo/Main$Inner", pad(format!("#{name}= #{member};")))),
            (
                1,
                format!(
                    "{} // Inner=class demo/Main$Inner of class demo/Main",
                    pad(format!("public static #{name}= #{member} of #{outer};"))
                )
            ),
        ]
    );
    assert_eq!(
        lines_text(&class_attr_lines(&a, &cp).unwrap()[1]),
        "static #3;                                  // class demo/Main$1"
    );
}

fn lines_text(line: &(usize, String)) -> String {
    line.1.clone()
}

#[test]
fn enclosing_method_is_listed() {
    let mut b = ConstantPoolBuilder::new();
    let this = b.add_class("demo/Main");
    let run = b.add_utf8("run");
    let desc = b.add_utf8("()V");
    let mut cp = b.build();
    let nat = push(&mut cp, ConstantEntry::NameAndType(NameAndType::new(run, desc)));
    assert_eq!(
        class_attr_lines(&ClassAttribute::EnclosingMethod(this, 0), &cp).unwrap(),
        vec![l(0, "EnclosingMethod: #1.#0   // demo.Main")]
    );
    assert_eq!(
        class_attr_lines(&ClassAttribute::EnclosingMethod(this, nat), &cp).unwrap(),
        vec![(0, format!("{:<24} // demo.Main.run", format!("EnclosingMethod: #1.#{nat}")))]
    );
}

#[test]
fn bootstrap_methods_are_listed() {
    let mut b = ConstantPoolBuilder::new();
    let this = b.add_class("demo/Main");
    let target = b.add_methodref("demo/Main", "boot", "()V");
    let mut cp = b.build();
    let handle = push(&mut cp, ConstantEntry::MethodHandle(MethodHandle::new(6, target)));
    let seven = push(&mut cp, ConstantEntry::Integer(7));
    let a = ClassAttribute::BootstrapMethods(vec![BootstrapMethodEntry::new(handle, vec![seven, this])]);
    assert_eq!(
        class_attr_lines(&a, &cp).unwrap(),
        vec![
            l(0, "BootstrapMethods:"),
            (1, format!("0: #{handle} REF_invokeStatic demo/Main.boot:()V")),
            l(2, "Method arguments:"),
            (3, format!("#{seven} 7")),
            (3, format!("#{this} demo/Main")),
        ]
    );
}

#[test]
fn constant_value_is_listed() {
    let mut fx = fixture();
    let seven = push(&mut fx.cp, ConstantEntry::Integer(7));
    let mut out = Vec::new();
    FieldAttribute::ConstantValue(seven).javap_fmt(&fx.cp, &vec![], 0, &mut out).unwrap();
    assert_eq!(lines(&out), vec![l(0, "ConstantValue: int 7")]);
    let mut out = Vec::new();
    assert_eq!(
        FieldAttribute::ConstantValue(4000).javap_fmt(&fx.cp, &vec![], 0, &mut out),
        Err(ClassFormatErr::ConstantNotFound(4000))
    );
}

fn method_attr_lines(a: &MethodAttribute, cp: &ConstantPool) -> Result<Vec<(usize, String)>, ClassFormatErr> {
    let mut out = Vec::new();
    a.javap_fmt(cp, &vec![], 0, &1, false, 0, &mut out)?;
    Ok(lines(&out))
}

#[test]
fn exceptions_and_parameters_are_listed() {
    let mut b = ConstantPoolBuilder::new();
    let this = b.add_class("demo/Main");
    let io = b.add_class("java/io/IOException");
    let x = b.add_utf8("x");
    let cp = b.build();
    assert_eq!(
        method_attr_lines(&MethodAttribute::Exceptions(vec![io, this]), &cp).unwrap(),
        vec![l(0, "Exceptions:"), l(1, "throws java.io.IOException, demo.Main")]
    );
    assert_eq!(
        method_attr_lines(&MethodAttribute::Exceptions(vec![io, x]), &cp),
        Err(ClassFormatErr::TypeError(x, "Class".to_string(), "Utf8".to_string()))
    );
    let params = MethodAttribute::MethodParameters(vec![
        MethodParameterEntry { name_index: 0, access_flags: 0x0010 },
        MethodParameterEntry { name_index: x, access_flags: 0 },
    ]);
    assert_eq!(
        method_attr_lines(&params, &cp).unwrap(),
        vec![
            l(0, "MethodParameters:"),
            l(1, "Name                             Flags"),
            l(1, "<no name>                        final "),
            l(1, "x                                "),
        ]
    );
}

#[test]
fn parameter_annotations_are_listed() {
    let mut fx = fixture();
    let t1 = push(&mut fx.cp, ConstantEntry::Utf8("Ljava/lang/Deprecated;".to_string()));
    let a = MethodAttribute::RuntimeVisibleParameterAnnotations(vec![
        ParameterAnnotations { annotations: vec![Annotation { type_index: t1, element_value_pairs: vec![] }] },
        ParameterAnnotations { annotations: vec![] },
    ]);
    assert_eq!(
        method_attr_lines(&a, &fx.cp).unwrap(),
        vec![
            l(0, "RuntimeVisibleParameterAnnotations:"),
            l(1, "parameter 0:"),
            (2, format!("0: #{t1}()")),
            l(3, "java.lang.Deprecated"),
            l(1, "parameter 1:"),
        ]
    );
}

#[test]
fn code_attribute_is_listed() {
    let mut b = ConstantPoolBuilder::new();
    let this = b.add_class("demo/Main");
    let init = b.add_methodref("java/lang/Object", "<init>", "()V");
    let cp = b.build();
    let [hi, lo] = init.to_be_bytes();
    let code = CodeAttribute {
        max_stack: 1,
        max_locals: 1,
        code: vec![0x2a, 0xb7, hi, lo, 0xb1],
        exception_table: vec![ExceptionTableEntry { start_pc: 0, end_pc: 5, handler_pc: 5, catch_type: 0 }],
        attributes: vec![CodeAttributeInfo::LineNumberTable(vec![LineNumberEntry { start_pc: 0, line_number: 3 }])],
    };
    let a = MethodAttribute::Code(code);
    let mut out = Vec::new();
    a.javap_fmt(&cp, &vec![], 0, &this, false, 0, &mut out).unwrap();
    let invoke = format!("{:<13} #{:<18} // Method java/lang/Object.\"<init>\":()V", "invokespecial", init);
    assert_eq!(
        lines(&out),
        vec![
            l(0, "Code: "),
            l(1, "stack=1, locals=1, args_size=1"),
            l(1, "   0: aload_0                 "),
            (1, format!("   1: {invoke}")),
            l(1, "   4: return                  "),
            l(1, "Exception table:"),
            l(2, "  from       to target type"),
            l(2, "     0        5     5  any"),
            l(1, "LineNumberTable:"),
            l(2, "line 3: 0"),
        ]
    );
    let mut out = Vec::new();
    a.javap_fmt(&cp, &vec![], 2, &this, true, 0, &mut out).unwrap();
    assert_eq!(out[1].text, "stack=1, locals=1, args_size=2");
}

#[test]
fn exception_handler_names_its_class() {
    let mut b = ConstantPoolBuilder::new();
    let this = b.add_class("demo/Main");
    let io = b.add_class("java/io/IOException");
    let cp = b.build();
    let code = CodeAttribute {
        max_stack: 0,
        max_locals: 0,
        code: vec![0xb1],
        exception_table: vec![ExceptionTableEntry { start_pc: 0, end_pc: 1, handler_pc: 0, catch_type: io }],
        attributes: vec![],
    };
    let mut out = Vec::new();
    code.javap_fmt(&cp, &vec![], 0, &this, true, 0, &mut out).unwrap();
    assert_eq!(out[5].text, "     0        1     0  Class java/io/IOException");
    let bad = CodeAttribute { exception_table: vec![ExceptionTableEntry { start_pc: 0, end_pc: 1, handler_pc: 0, catch_type: 99 }], ..code };
    let mut out = Vec::new();
    assert_eq!(bad.javap_fmt(&cp, &vec![], 0, &this, true, 0, &mut out), Err(ClassFormatErr::ConstantNotFound(99)));
}

#[test]
fn field_is_listed() {
    let mut b = ConstantPoolBuilder::new();
    let _this = b.add_class("demo/Main");
    let name = b.add_utf8("count");
    let desc = b.add_utf8("I");
    let sig = b.add_utf8("TT;");
    let mut cp = b.build();
    let seven = push(&mut cp, ConstantEntry::Integer(7));
    let field = FieldInfo {
        access_flags: FieldFlags::new(0x0019),
        name_index: name,
        descriptor_index: desc,
        attributes: vec![FieldAttribute::ConstantValue(seven)],
    };
    assert_eq!(field.javap_type_source(&cp, "I").unwrap(), "I");
    let mut out = Vec::new();
    field.javap_fmt(&cp, &vec![], "int", 0, &mut out).unwrap();
    assert_eq!(
        lines(&out),
        vec![
            l(0, "public static final int count;"),
            l(1, "descriptor: I"),
            l(1, "flags: (0x0019) ACC_PUBLIC, ACC_STATIC, ACC_FINAL"),
            l(1, "ConstantValue: int 7"),
        ]
    );
    let generic = FieldInfo {
        access_flags: FieldFlags::new(0x0002),
        name_index: name,
        descriptor_index: desc,
        attributes: vec![FieldAttribute::Shared(SharedAttribute::Signature(sig))],
    };
    assert_eq!(generic.javap_type_source(&cp, "Ljava/lang/Object;").unwrap(), "TT;");
    let mut out = Vec::new();
    generic.javap_fmt(&cp, &vec![], "T", 1, &mut out).unwrap();
    assert_eq!(out[0].text, "private T count;");
    assert_eq!(out[2].text, "flags: (0x0002) ACC_PRIVATE");
    assert_eq!(out[3].text, format!("Signature: #{sig:<26} // TT;"));
    let broken = FieldInfo { access_flags: FieldFlags::new(0), name_index: 300, descriptor_index: desc, attributes: vec![] };
    let mut out = Vec::new();
    assert_eq!(broken.javap_fmt(&cp, &vec![], "int", 0, &mut out), Err(ClassFormatErr::ConstantNotFound(300)));
}

#[test]
fn class_is_listed() {
    let mut b = ConstantPoolBuilder::new();
    let this = b.add_class("demo/Main");
    let sup = b.add_class("java/lang/Object");
    let iface = b.add_class("java/lang/Runnable");
    let init = b.add_methodref("java/lang/Object", "<init>", "()V");
    let run_name = b.add_utf8("run");
    let run_desc = b.add_utf8("()V");
    let init_name = b.add_utf8("<init>");
    let count = b.add_utf8("count");
    let int_desc = b.add_utf8("I");
    let src = b.add_utf8("Main.java");
    let cp = b.build();
    let [hi, lo] = init.to_be_bytes();
    let ctor = MethodInfo {
        access_flags: MethodFlags::new(0x0001),
        name_index: init_name,
        descriptor_index: run_desc,
        attributes: vec![MethodAttribute::Code(CodeAttribute {
            max_stack: 1,
            max_locals: 1,
            code: vec![0x2a, 0xb7, hi, lo, 0xb1],
            exception_table: vec![],
            attributes: vec![],
        })],
    };
    let run = MethodInfo {
        access_flags: MethodFlags::new(0x0401),
        name_index: run_name,
        descriptor_index: run_desc,
        attributes: vec![],
    };
    let cf = ClassFile {
        minor_version: 0,
        major_version: 65,
        cp,
        access_flags: ClassFlags::new(0x0421),
        this_class: this,
        super_class: sup,
        interfaces: vec![iface],
        fields: vec![FieldInfo { access_flags: FieldFlags::new(0x0002), name_index: count, descriptor_index: int_desc, attributes: vec![] }],
        methods: vec![ctor, run],
        attributes: vec![ClassAttribute::SourceFile(src)],
    };
    let void = MethodTypeText { ret: "void".to_string(), params: vec![], last_array_elem: None, signature_throws: None };
    let types = ClassTypeText {
        signature: None,
        field_types: vec!["int".to_string()],
        method_types: vec![void.clone(), void],
        method_param_counts: vec![0, 0],
        constant_texts: vec![],
    };
    let out = cf.javap_fmt(&types).unwrap();
    let got = lines(&out);
    assert_eq!(got[0], l(0, "public abstract class demo.Main implements java.lang.Runnable"));
    assert_eq!(got[1], l(1, "minor version: 0"));
    assert_eq!(got[2], l(1, "major version: 65"));
    assert_eq!(got[3], l(1, "flags: (0x0421) ACC_PUBLIC, ACC_SUPER, ACC_ABSTRACT"));
    assert_eq!(got[4], (1, format!("this_class: {:<24} //demo/Main", format!("#{this}"))));
    assert_eq!(got[5], (1, format!("super_class: {:<24}//java/lang/Object", format!("#{sup}"))));
    assert_eq!(got[6], l(1, "interfaces: 1, fields: 1, methods: 2, attributes: 1"));
    assert_eq!(got[7], l(0, "Constant pool:"));
    assert_eq!(got[8], (1, format!(" #1 = {:<18} {:<16} // demo/Main", "Class", "#2")));
    assert_eq!(got[9], (1, format!(" #2 = {:<18} demo/Main", "Utf8")));
    assert_eq!(cf.cp.inner.len(), 15);
    let n = cf.cp.inner.len() - 1;
    let close = 8 + n;
    assert_eq!(got[close], l(0, "{"));
    assert_eq!(got[close + 1], l(1, "private int count;"));
    assert_eq!(got[close + 2], l(2, "descriptor: I"));
    assert_eq!(got[close + 3], l(2, "flags: (0x0002) ACC_PRIVATE"));
    assert_eq!(got[close + 4], l(1, ""));
    assert_eq!(got[close + 5], l(1, "public demo.Main();"));
    assert_eq!(got[close + 6], l(2, "descriptor: ()V"));
    assert_eq!(got[close + 7], l(2, "flags: (0x0001) ACC_PUBLIC"));
    assert_eq!(got[close + 8], l(2, "Code: "));
    assert_eq!(got[close + 9], l(3, "stack=1, locals=1, args_size=1"));
    assert_eq!(got[close + 13], l(1, ""));
    assert_eq!(got[close + 14], l(1, "public abstract void run();"));
    assert_eq!(got[close + 15], l(2, "descriptor: ()V"));
    assert_eq!(got[close + 16], l(2, "flags: (0x0401) ACC_PUBLIC, ACC_ABSTRACT"));
    assert_eq!(got[close + 17], l(0, "}"));
    assert_eq!(got[close + 18], l(0, "SourceFile: \"Main.java\""));
    assert_eq!(got.len(), close + 19);
}

#[test]
fn method_headers_show_parameters_and_throws() {
    let mut b = ConstantPoolBuilder::new();
    let this = b.add_class("demo/Main");
    let io = b.add_class("java/io/IOException");
    let name = b.add_utf8("log");
    let desc = b.add_utf8("([Ljava/lang/String;)V");
    let clinit = b.add_utf8("<clinit>");
    let cp = b.build();
    let m = MethodInfo {
        access_flags: MethodFlags::new(0x0089),
        name_index: name,
        descriptor_index: desc,
        attributes: vec![MethodAttribute::Exceptions(vec![io])],
    };
    let types = MethodTypeText {
        ret: "void".to_string(),
        params: vec!["java.lang.String[]".to_string()],
        last_array_elem: Some("java.lang.String".to_string()),
        signature_throws: None,
    };
    assert_eq!(m.javap_type_source(&cp).unwrap(), None);
    let mut out = Vec::new();
    m.javap_fmt(&cp, &vec![], &this, &ClassFlags::new(0x0021), &types, 1, 0, &mut out).unwrap();
    assert_eq!(out[0].text, "public static void log(java.lang.String...) throws java.io.IOException;");
    assert_eq!(out[2].text, "flags: (0x0089) ACC_PUBLIC, ACC_STATIC, ACC_VARARGS");
    assert_eq!(out[3].text, "Exceptions:");
    assert_eq!(out[4].text, "throws java.io.IOException");
    let s = MethodInfo { access_flags: MethodFlags::new(0x0008), name_index: clinit, descriptor_index: desc, attributes: vec![] };
    let mut out = Vec::new();
    s.javap_fmt(&cp, &vec![], &this, &ClassFlags::new(0x0021), &types, 1, 0, &mut out).unwrap();
    assert_eq!(out[0].text, "static {};");
}

#[test]
fn floating_point_constants_take_their_texts() {
    let mut b = ConstantPoolBuilder::new();
    let this = b.add_class("demo/Main");
    let sup = b.add_class("java/lang/Object");
    let mut cp = b.build();
    let half = cp.inner.len() as u16;
    cp.inner.push(ConstantEntry::Float(0x3fc0_0000));
    let two = cp.inner.len() as u16;
    cp.inner.push(ConstantEntry::Double(0x4000_0000_0000_0000));
    cp.inner.push(ConstantEntry::Unused);
    let mut texts: Vec<Option<String>> = vec![None; cp.inner.len()];
    texts[half as usize] = Some("1.5f".to_string());
    texts[two as usize] = Some("2.0d".to_string());
    // A field's constant value.
    let mut out = Vec::new();
    FieldAttribute::ConstantValue(half).javap_fmt(&cp, &texts, 0, &mut out).unwrap();
    assert_eq!(lines(&out), vec![l(0, "ConstantValue: float 1.5f")]);
    // An ldc2_w in code.
    let [hi, lo] = two.to_be_bytes();
    let code = CodeAttribute { max_stack: 2, max_locals: 0, code: vec![0x14, hi, lo, 0xaf], exception_table: vec![], attributes: vec![] };
    let mut out = Vec::new();
    code.javap_fmt(&cp, &texts, 0, &this, true, 0, &mut out).unwrap();
    assert_eq!(out[2].text, format!("   0: {:<13} #{:<18} // double 2.0d", "ldc2_w", two));
    // The class listing shows them in its pool.
    let cf = ClassFile {
        minor_version: 0,
        major_version: 65,
        cp,
        access_flags: ClassFlags::new(0x0021),
        this_class: this,
        super_class: sup,
        interfaces: vec![],
        fields: vec![],
        methods: vec![],
        attributes: vec![],
    };
    let types = ClassTypeText {
        signature: None,
        field_types: vec![],
        method_types: vec![],
        method_param_counts: vec![],
        constant_texts: texts,
    };
    let got = lines(&cf.javap_fmt(&types).unwrap());
    assert!(got.contains(&(1, format!("#{half} = {:<18} 1.5f", "Float"))));
    assert!(got.contains(&(1, format!("#{two} = {:<18} 2.0d", "Double"))));
}
