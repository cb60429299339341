use lvm_class::attribute::method::code::{CodeAttributeInfo, LineNumberEntry, StackMapFrame, VerificationTypeInfo};
use lvm_class::attribute::{
    ClassAttribute, ElementValue, FieldAttribute, LocalVarEntry, MethodAttribute, SharedAttribute, TargetInfo,
    TypeAnnotation, TypePath,
};
use lvm_class::cursor::ByteCursor;
use lvm_class::constant_pool::builder::ConstantPoolBuilder;
use lvm_class::constant_pool::ConstantPool;
use lvm_class::error::{ClassFormatErr, ReadError};
use lvm_class::ClassFile;

fn u16b(v: u16) -> [u8; 2] {
    v.to_be_bytes()
}

fn u32b(v: u32) -> [u8; 4] {
    v.to_be_bytes()
}

struct Pool {
    pool: ConstantPool,
    this: u16,
    sup: u16,
    code: u16,
    smt: u16,
    lnt: u16,
    source_file: u16,
    constant_value: u16,
    deprecated: u16,
    rva: u16,
    rvta: u16,
    name: u16,
    desc: u16,
    anno: u16,
    file: u16,
}

fn pool() -> Pool {
    let mut b = ConstantPoolBuilder::new();
    let this = b.add_class("demo/Demo");
    let sup = b.add_class("java/lang/Object");
    let code = b.add_utf8("Code");
    let smt = b.add_utf8("StackMapTable");
    let lnt = b.add_utf8("LineNumberTable");
    let source_file = b.add_utf8("SourceFile");
    let constant_value = b.add_utf8("ConstantValue");
    let deprecated = b.add_utf8("Deprecated");
    let rva = b.add_utf8("RuntimeVisibleAnnotations");
    let rvta = b.add_utf8("RuntimeVisibleTypeAnnotations");
    let name = b.add_utf8("run");
    let desc = b.add_utf8("()V");
    let anno = b.add_utf8("Ldemo/Marker;");
    let file = b.add_utf8("Demo.java");
    Pool {
        pool: b.build(),
        this,
        sup,
        code,
        smt,
        lnt,
        source_file,
        constant_value,
        deprecated,
        rva,
        rvta,
        name,
        desc,
        anno,
        file,
    }
}

fn class_bytes(p: &Pool) -> Vec<u8> {
    let mut out = Vec::new();
    out.extend(u32b(0xCAFEBABE));
    out.extend(u16b(0));
    out.extend(u16b(61));
    out.extend(u16b(p.pool.inner.len() as u16));
    for e in &p.pool.inner[1..] {
        e.write_to(&mut out);
    }
    out.extend(u16b(0x21));
    out.extend(u16b(p.this));
    out.extend(u16b(p.sup));
    out.extend(u16b(0)); // interfaces
    // one field: ConstantValue and a RuntimeVisibleAnnotations with a boolean element
    out.extend(u16b(1));
    out.extend(u16b(0x0019));
    out.extend(u16b(p.name));
    out.extend(u16b(p.desc));
    out.extend(u16b(2));
    out.extend(u16b(p.constant_value));
    out.extend(u32b(2));
    out.extend(u16b(7));
    let anno_body: Vec<u8> = [
        &u16b(1)[..],
        &u16b(p.anno)[..],
        &u16b(1)[..],
        &u16b(p.name)[..],
        &[b'Z'][..],
        &u16b(9)[..],
    ]
    .concat();
    out.extend(u16b(p.rva));
    out.extend(u32b(anno_body.len() as u32));
    out.extend(&anno_body);
    // one method with Code: aload_0, return; a StackMapTable and a LineNumberTable
    out.extend(u16b(1));
    out.extend(u16b(0x0001));
    out.extend(u16b(p.name));
    out.extend(u16b(p.desc));
    out.extend(u16b(2));
    let smt_body: Vec<u8> = [&u16b(2)[..], &[3u8][..], &[255u8][..], &u16b(4)[..], &u16b(1)[..], &[7u8][..], &u16b(p.this)[..], &u16b(0)[..]].concat();
    let lnt_body: Vec<u8> = [&u16b(1)[..], &u16b(0)[..], &u16b(12)[..]].concat();
    let mut code_body = Vec::new();
    code_body.extend(u16b(1));
    code_body.extend(u16b(1));
    code_body.extend(u32b(2));
    code_body.extend([0x2a, 0xb1]);
    code_body.extend(u16b(0));
    code_body.extend(u16b(2));
    code_body.extend(u16b(p.smt));
    code_body.extend(u32b(smt_body.len() as u32));
    code_body.extend(&smt_body);
    code_body.extend(u16b(p.lnt));
    code_body.extend(u32b(lnt_body.len() as u32));
    code_body.extend(&lnt_body);
    out.extend(u16b(p.code));
    out.extend(u32b(code_body.len() as u32));
    out.extend(&code_body);
    out.extend(u16b(p.deprecated));
    out.extend(u32b(0));
    // class attributes: SourceFile and a type annotation on the superclass
    out.extend(u16b(2));
    out.extend(u16b(p.source_file));
    out.extend(u32b(2));
    out.extend(u16b(p.file));
    let ta: Vec<u8> = [&u16b(1)[..], &[0x11u8, 0, 1][..], &[1u8, 3, 0][..], &u16b(p.anno)[..], &u16b(0)[..]].concat();
    out.extend(u16b(p.rvta));
    out.extend(u32b(ta.len() as u32));
    out.extend(&ta);
    out
}

#[test]
fn parses_members_and_attributes() {
    let p = pool();
    let cf = ClassFile::parse(&class_bytes(&p)).unwrap();
    assert_eq!(cf.fields.len(), 1);
    let field = &cf.fields[0];
    assert!(field.access_flags.is_static() && field.access_flags.is_final() && field.access_flags.is_public());
    assert!(matches!(field.attributes[0], FieldAttribute::ConstantValue(7)));
    match &field.attributes[1] {
        FieldAttribute::Shared(SharedAttribute::RuntimeVisibleAnnotations(list)) => {
            assert_eq!(list.len(), 1);
            assert_eq!(list[0].type_index, p.anno);
            assert_eq!(list[0].element_value_pairs[0].element_name_index, p.name);
            assert_eq!(list[0].element_value_pairs[0].value, ElementValue::Boolean(9));
            assert_eq!(list[0].element_value_pairs[0].value.get_javap_descriptor(), "Z#9");
        },
        _ => panic!("expected annotations"),
    }
    let method = &cf.methods[0];
    match &method.attributes[0] {
        MethodAttribute::Code(code) => {
            assert_eq!(code.code, vec![0x2a, 0xb1]);
            assert_eq!(code.max_stack, 1);
            match &code.attributes[0] {
                CodeAttributeInfo::StackMapTable(frames) => {
                    assert_eq!(frames[0], StackMapFrame::Same { offset_delta: 3 });
                    assert_eq!(
                        frames[1],
                        StackMapFrame::Full {
                            offset_delta: 4,
                            locals: vec![VerificationTypeInfo::Object(p.this)],
                            stack: vec![],
                        }
                    );
                },
                _ => panic!("expected a stack map"),
            }
            assert!(matches!(
                &code.attributes[1],
                CodeAttributeInfo::LineNumberTable(t) if t == &vec![LineNumberEntry { start_pc: 0, line_number: 12 }]
            ));
        },
        _ => panic!("expected code"),
    }
    assert!(matches!(method.attributes[1], MethodAttribute::Shared(SharedAttribute::Deprecated)));
    assert!(matches!(cf.attributes[0], ClassAttribute::SourceFile(i) if i == p.file));
    match &cf.attributes[1] {
        ClassAttribute::Shared(SharedAttribute::RuntimeVisibleTypeAnnotations(list)) => {
            assert_eq!(list[0].target_info, TargetInfo::TypeParameterBound { type_parameter_index: 0, bound_index: 1 });
            assert_eq!(list[0].target_path.path.len(), 1);
            assert_eq!(list[0].target_path.path[0].type_path_kind, 3);
        },
        _ => panic!("expected type annotations"),
    }
}

#[test]
fn unknown_attribute_name_is_reported() {
    let p = pool();
    let mut bytes = class_bytes(&p);
    // the SourceFile attribute's name index now points to "run"
    let at = bytes.len() - 18 - 8;
    bytes[at] = (p.name >> 8) as u8;
    bytes[at + 1] = p.name as u8;
    match ClassFile::parse(&bytes) {
        Err(ReadError::Format(ClassFormatErr::UnknownAttribute(n))) => assert_eq!(n, "run"),
        Err(e) => panic!("unexpected {:?}", e),
        Ok(_) => panic!("unexpected success"),
    }
}

#[test]
fn unsupported_attribute_kind_is_unsupported() {
    let mut b = ConstantPoolBuilder::new();
    let this = b.add_class("A");
    let sup = b.add_class("B");
    let module = b.add_utf8("Module");
    let pool = b.build();
    let mut out = Vec::new();
    out.extend(u32b(0xCAFEBABE));
    out.extend(u16b(0));
    out.extend(u16b(61));
    out.extend(u16b(pool.inner.len() as u16));
    for e in &pool.inner[1..] {
        e.write_to(&mut out);
    }
    out.extend(u16b(0));
    out.extend(u16b(this));
    out.extend(u16b(sup));
    out.extend(u16b(0));
    out.extend(u16b(0));
    out.extend(u16b(0));
    out.extend(u16b(1));
    out.extend(u16b(module));
    out.extend(u32b(0));
    assert!(matches!(ClassFile::parse(&out), Err(ReadError::Unsupported)));
}

#[test]
fn type_annotation_targets_follow_jvms() {
    // 0x13: a field's type, an empty target.
    let data = [0x13u8, 0x00, 0x00, 0x05, 0x00, 0x00];
    let mut c = ByteCursor::new(&data);
    assert_eq!(
        TypeAnnotation::read(&mut c),
        Ok(TypeAnnotation {
            target_info: TargetInfo::Empty,
            target_path: TypePath { path: vec![] },
            type_index: 5,
            element_value_pairs: vec![],
        })
    );
    assert_eq!(c.pos, 6);
    let target = |bytes: &[u8]| {
        let mut data = bytes.to_vec();
        data.extend_from_slice(&[0x00, 0x00, 0x07, 0x00, 0x00]);
        let mut c = ByteCursor::new(&data);
        TypeAnnotation::read(&mut c).map(|t| t.target_info)
    };
    assert_eq!(target(&[0x01, 0x02]), Ok(TargetInfo::TypeParameter { type_parameter_index: 2 }));
    assert_eq!(target(&[0x10, 0xff, 0xff]), Ok(TargetInfo::Supertype { supertype_index: 0xffff }));
    assert_eq!(target(&[0x12, 0x01, 0x02]), Ok(TargetInfo::TypeParameterBound { type_parameter_index: 1, bound_index: 2 }));
    assert_eq!(target(&[0x14]), Ok(TargetInfo::Empty));
    assert_eq!(target(&[0x15]), Ok(TargetInfo::Empty));
    assert_eq!(target(&[0x16, 0x03]), Ok(TargetInfo::MethodFormalParameter { formal_parameter_index: 3 }));
    assert_eq!(target(&[0x17, 0x00, 0x04]), Ok(TargetInfo::Throws { throws_type_index: 4 }));
    assert_eq!(
        target(&[0x41, 0x00, 0x01, 0x00, 0x02, 0x00, 0x03, 0x00, 0x04]),
        Ok(TargetInfo::LocalVar { localvar_table: vec![LocalVarEntry { start_pc: 2, length: 3, index: 4 }] })
    );
    assert_eq!(target(&[0x42, 0x00, 0x01]), Ok(TargetInfo::Catch { exception_table_index: 1 }));
    assert_eq!(target(&[0x45, 0x00, 0x09]), Ok(TargetInfo::Offset { offset: 9 }));
    assert_eq!(target(&[0x4b, 0x00, 0x09, 0x01]), Ok(TargetInfo::TypeArgument { offset: 9, type_argument_index: 1 }));
    assert_eq!(target(&[0x30]), Err(ReadError::Unsupported));
}
