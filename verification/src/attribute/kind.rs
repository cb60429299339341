//! Attribute kinds and their names.

use crate::error::ClassFormatErr;
use vstd::prelude::*;

verus! {

/// Discriminant for attribute types defined in the JVM specification.
///
/// https://docs.oracle.com/javase/specs/jvms/se25/html/jvms-4.html#jvms-4.7
#[derive(Debug, Clone, Copy, PartialEq, Eq, Hash, Structural)]
pub enum AttributeKind {
    ConstantValue,
    Code,
    Exceptions,
    SourceFile,
    LineNumberTable,
    LocalVariableTable,
    InnerClasses,
    Synthetic,
    Deprecated,
    EnclosingMethod,
    Signature,
    SourceDebugExtension,
    LocalVariableTypeTable,
    RuntimeVisibleAnnotations,
    RuntimeInvisibleAnnotations,
    RuntimeVisibleParameterAnnotations,
    RuntimeInvisibleParameterAnnotations,
    AnnotationDefault,
    StackMapTable,
    BootstrapMethods,
    RuntimeVisibleTypeAnnotations,
    RuntimeInvisibleTypeAnnotations,
    MethodParameters,
    Module,
    ModulePackages,
    ModuleMainClass,
    NestHost,
    NestMembers,
    Record,
    PermittedSubclasses,
}

impl View for AttributeKind {
    type V = AttributeKind;

    open spec fn view(&self) -> AttributeKind {
        *self
    }
}

/// The name under which each kind is stored in a class file.
pub open spec fn spec_attribute_name(k: AttributeKind) -> Seq<char> {
    match k {
        AttributeKind::ConstantValue => "ConstantValue"@,
        AttributeKind::Code => "Code"@,
        AttributeKind::Exceptions => "Exceptions"@,
        AttributeKind::SourceFile => "SourceFile"@,
        AttributeKind::LineNumberTable => "LineNumberTable"@,
        AttributeKind::LocalVariableTable => "LocalVariableTable"@,
        AttributeKind::InnerClasses => "InnerClasses"@,
        AttributeKind::Synthetic => "Synthetic"@,
        AttributeKind::Deprecated => "Deprecated"@,
        AttributeKind::EnclosingMethod => "EnclosingMethod"@,
        AttributeKind::Signature => "Signature"@,
        AttributeKind::SourceDebugExtension => "SourceDebugExtension"@,
        AttributeKind::LocalVariableTypeTable => "LocalVariableTypeTable"@,
        AttributeKind::RuntimeVisibleAnnotations => "RuntimeVisibleAnnotations"@,
        AttributeKind::RuntimeInvisibleAnnotations => "RuntimeInvisibleAnnotations"@,
        AttributeKind::RuntimeVisibleParameterAnnotations => "RuntimeVisibleParameterAnnotations"@,
        AttributeKind::RuntimeInvisibleParameterAnnotations => "RuntimeInvisibleParameterAnnotations"@,
        AttributeKind::AnnotationDefault => "AnnotationDefault"@,
        AttributeKind::StackMapTable => "StackMapTable"@,
        AttributeKind::BootstrapMethods => "BootstrapMethods"@,
        AttributeKind::RuntimeVisibleTypeAnnotations => "RuntimeVisibleTypeAnnotations"@,
        AttributeKind::RuntimeInvisibleTypeAnnotations => "RuntimeInvisibleTypeAnnotations"@,
        AttributeKind::MethodParameters => "MethodParameters"@,
        AttributeKind::Module => "Module"@,
        AttributeKind::ModulePackages => "ModulePackages"@,
        AttributeKind::ModuleMainClass => "ModuleMainClass"@,
        AttributeKind::NestHost => "NestHost"@,
        AttributeKind::NestMembers => "NestMembers"@,
        AttributeKind::Record => "Record"@,
        AttributeKind::PermittedSubclasses => "PermittedSubclasses"@,
    }
}

/// The kind stored under `name`, if any.
pub open spec fn spec_attribute_kind_of(name: Seq<char>) -> Option<AttributeKind> {
    if name == "ConstantValue"@ {
        Some(AttributeKind::ConstantValue)
    } else if name == "Code"@ {
        Some(AttributeKind::Code)
    } else if name == "Exceptions"@ {
        Some(AttributeKind::Exceptions)
    } else if name == "SourceFile"@ {
        Some(AttributeKind::SourceFile)
    } else if name == "LineNumberTable"@ {
        Some(AttributeKind::LineNumberTable)
    } else if name == "LocalVariableTable"@ {
        Some(AttributeKind::LocalVariableTable)
    } else if name == "InnerClasses"@ {
        Some(AttributeKind::InnerClasses)
    } else if name == "Synthetic"@ {
        Some(AttributeKind::Synthetic)
    } else if name == "Deprecated"@ {
        Some(AttributeKind::Deprecated)
    } else if name == "EnclosingMethod"@ {
        Some(AttributeKind::EnclosingMethod)
    } else if name == "Signature"@ {
        Some(AttributeKind::Signature)
    } else if name == "SourceDebugExtension"@ {
        Some(AttributeKind::SourceDebugExtension)
    } else if name == "LocalVariableTypeTable"@ {
        Some(AttributeKind::LocalVariableTypeTable)
    } else if name == "RuntimeVisibleAnnotations"@ {
        Some(AttributeKind::RuntimeVisibleAnnotations)
    } else if name == "RuntimeInvisibleAnnotations"@ {
        Some(AttributeKind::RuntimeInvisibleAnnotations)
    } else if name == "RuntimeVisibleParameterAnnotations"@ {
        Some(AttributeKind::RuntimeVisibleParameterAnnotations)
    } else if name == "RuntimeInvisibleParameterAnnotations"@ {
        Some(AttributeKind::RuntimeInvisibleParameterAnnotations)
    } else if name == "AnnotationDefault"@ {
        Some(AttributeKind::AnnotationDefault)
    } else if name == "StackMapTable"@ {
        Some(AttributeKind::StackMapTable)
    } else if name == "BootstrapMethods"@ {
        Some(AttributeKind::BootstrapMethods)
    } else if name == "RuntimeVisibleTypeAnnotations"@ {
        Some(AttributeKind::RuntimeVisibleTypeAnnotations)
    } else if name == "RuntimeInvisibleTypeAnnotations"@ {
        Some(AttributeKind::RuntimeInvisibleTypeAnnotations)
    } else if name == "MethodParameters"@ {
        Some(AttributeKind::MethodParameters)
    } else if name == "Module"@ {
        Some(AttributeKind::Module)
    } else if name == "ModulePackages"@ {
        Some(AttributeKind::ModulePackages)
    } else if name == "ModuleMainClass"@ {
        Some(AttributeKind::ModuleMainClass)
    } else if name == "NestHost"@ {
        Some(AttributeKind::NestHost)
    } else if name == "NestMembers"@ {
        Some(AttributeKind::NestMembers)
    } else if name == "Record"@ {
        Some(AttributeKind::Record)
    } else if name == "PermittedSubclasses"@ {
        Some(AttributeKind::PermittedSubclasses)
    } else {
        None
    }
}

/// Whether two string slices hold the same characters: whether their UTF-8 bytes agree,
/// the encoding being one to one.
pub(crate) fn str_eq(a: &str, b: &str) -> (r: bool)
    ensures
        r == (a@ == b@),
{
    let x = a.as_bytes();
    let y = b.as_bytes();
    proof {
        vstd::utf8::encode_utf8_decode_utf8(a@);
        vstd::utf8::encode_utf8_decode_utf8(b@);
    }
    if x.len() != y.len() {
        return false;
    }
    let mut i: usize = 0;
    while i < x.len()
        invariant
            i <= x@.len(),
            x@.len() == y@.len(),
            a@ == b@ ==> x@ == y@,
            x@ == y@ ==> a@ == b@,
            forall|k: int| 0 <= k < i ==> x@[k] == y@[k],
        decreases x@.len() - i,
    {
        if x[i] != y[i] {
            return false;
        }
        i = i + 1;
    }
    assert(x@ =~= y@);
    true
}

impl AttributeKind {
    pub fn as_str(&self) -> (s: &'static str)
        ensures
            s@ == spec_attribute_name(*self),
    {
        match self {
            AttributeKind::ConstantValue => "ConstantValue",
            AttributeKind::Code => "Code",
            AttributeKind::Exceptions => "Exceptions",
            AttributeKind::SourceFile => "SourceFile",
            AttributeKind::LineNumberTable => "LineNumberTable",
            AttributeKind::LocalVariableTable => "LocalVariableTable",
            AttributeKind::InnerClasses => "InnerClasses",
            AttributeKind::Synthetic => "Synthetic",
            AttributeKind::Deprecated => "Deprecated",
            AttributeKind::EnclosingMethod => "EnclosingMethod",
            AttributeKind::Signature => "Signature",
            AttributeKind::SourceDebugExtension => "SourceDebugExtension",
            AttributeKind::LocalVariableTypeTable => "LocalVariableTypeTable",
            AttributeKind::RuntimeVisibleAnnotations => "RuntimeVisibleAnnotations",
            AttributeKind::RuntimeInvisibleAnnotations => "RuntimeInvisibleAnnotations",
            AttributeKind::RuntimeVisibleParameterAnnotations => "RuntimeVisibleParameterAnnotations",
            AttributeKind::RuntimeInvisibleParameterAnnotations => "RuntimeInvisibleParameterAnnotations",
            AttributeKind::AnnotationDefault => "AnnotationDefault",
            AttributeKind::StackMapTable => "StackMapTable",
            AttributeKind::BootstrapMethods => "BootstrapMethods",
            AttributeKind::RuntimeVisibleTypeAnnotations => "RuntimeVisibleTypeAnnotations",
            AttributeKind::RuntimeInvisibleTypeAnnotations => "RuntimeInvisibleTypeAnnotations",
            AttributeKind::MethodParameters => "MethodParameters",
            AttributeKind::Module => "Module",
            AttributeKind::ModulePackages => "ModulePackages",
            AttributeKind::ModuleMainClass => "ModuleMainClass",
            AttributeKind::NestHost => "NestHost",
            AttributeKind::NestMembers => "NestMembers",
            AttributeKind::Record => "Record",
            AttributeKind::PermittedSubclasses => "PermittedSubclasses",
        }
    }

    /// The kind named `s`, or `UnknownAttribute(s)`.
    pub fn try_from(s: &str) -> (r: Result<AttributeKind, ClassFormatErr>)
        ensures
            match spec_attribute_kind_of(s@) {
                Some(k) => r == Ok::<AttributeKind, ClassFormatErr>(k),
                None => r matches Err(ClassFormatErr::UnknownAttribute(n)) && n@ == s@,
            },
    {
        if str_eq(s, "ConstantValue") {
            Ok(AttributeKind::ConstantValue)
        } else if str_eq(s, "Code") {
            Ok(AttributeKind::Code)
        } else if str_eq(s, "Exceptions") {
            Ok(AttributeKind::Exceptions)
        } else if str_eq(s, "SourceFile") {
            Ok(AttributeKind::SourceFile)
        } else if str_eq(s, "LineNumberTable") {
            Ok(AttributeKind::LineNumberTable)
        } else if str_eq(s, "LocalVariableTable") {
            Ok(AttributeKind::LocalVariableTable)
        } else if str_eq(s, "InnerClasses") {
            Ok(AttributeKind::InnerClasses)
        } else if str_eq(s, "Synthetic") {
            Ok(AttributeKind::Synthetic)
        } else if str_eq(s, "Deprecated") {
            Ok(AttributeKind::Deprecated)
        } else if str_eq(s, "EnclosingMethod") {
            Ok(AttributeKind::EnclosingMethod)
        } else if str_eq(s, "Signature") {
            Ok(AttributeKind::Signature)
        } else if str_eq(s, "SourceDebugExtension") {
            Ok(AttributeKind::SourceDebugExtension)
        } else if str_eq(s, "LocalVariableTypeTable") {
            Ok(AttributeKind::LocalVariableTypeTable)
        } else if str_eq(s, "RuntimeVisibleAnnotations") {
            Ok(AttributeKind::RuntimeVisibleAnnotations)
        } else if str_eq(s, "RuntimeInvisibleAnnotations") {
            Ok(AttributeKind::RuntimeInvisibleAnnotations)
        } else if str_eq(s, "RuntimeVisibleParameterAnnotations") {
            Ok(AttributeKind::RuntimeVisibleParameterAnnotations)
        } else if str_eq(s, "RuntimeInvisibleParameterAnnotations") {
            Ok(AttributeKind::RuntimeInvisibleParameterAnnotations)
        } else if str_eq(s, "AnnotationDefault") {
            Ok(AttributeKind::AnnotationDefault)
        } else if str_eq(s, "StackMapTable") {
            Ok(AttributeKind::StackMapTable)
        } else if str_eq(s, "BootstrapMethods") {
            Ok(AttributeKind::BootstrapMethods)
        } else if str_eq(s, "RuntimeVisibleTypeAnnotations") {
            Ok(AttributeKind::RuntimeVisibleTypeAnnotations)
        } else if str_eq(s, "RuntimeInvisibleTypeAnnotations") {
            Ok(AttributeKind::RuntimeInvisibleTypeAnnotations)
        } else if str_eq(s, "MethodParameters") {
            Ok(AttributeKind::MethodParameters)
        } else if str_eq(s, "Module") {
            Ok(AttributeKind::Module)
        } else if str_eq(s, "ModulePackages") {
            Ok(AttributeKind::ModulePackages)
        } else if str_eq(s, "ModuleMainClass") {
            Ok(AttributeKind::ModuleMainClass)
        } else if str_eq(s, "NestHost") {
            Ok(AttributeKind::NestHost)
        } else if str_eq(s, "NestMembers") {
            Ok(AttributeKind::NestMembers)
        } else if str_eq(s, "Record") {
            Ok(AttributeKind::Record)
        } else if str_eq(s, "PermittedSubclasses") {
            Ok(AttributeKind::PermittedSubclasses)
        } else {
            Err(ClassFormatErr::UnknownAttribute(s.to_string()))
        }
    }
}

/// Every kind is found again under its name.
#[verifier::rlimit(100)]
pub proof fn lemma_attribute_name_roundtrip(k: AttributeKind)
    ensures
        spec_attribute_kind_of(spec_attribute_name(k)) == Some(k),
{
    broadcast use vstd::string::group_string_axioms;
    reveal_strlit("ConstantValue");
    assert("ConstantValue"@.len() == 13);
    reveal_strlit("Code");
    assert("Code"@.len() == 4);
    reveal_strlit("Exceptions");
    assert("Exceptions"@.len() == 10);
    reveal_strlit("SourceFile");
    assert("SourceFile"@.len() == 10);
    reveal_strlit("LineNumberTable");
    assert("LineNumberTable"@.len() == 15);
    reveal_strlit("LocalVariableTable");
    assert("LocalVariableTable"@.len() == 18);
    reveal_strlit("InnerClasses");
    assert("InnerClasses"@.len() == 12);
    reveal_strlit("Synthetic");
    assert("Synthetic"@.len() == 9);
    reveal_strlit("Deprecated");
    assert("Deprecated"@.len() == 10);
    reveal_strlit("EnclosingMethod");
    assert("EnclosingMethod"@.len() == 15);
    reveal_strlit("Signature");
    assert("Signature"@.len() == 9);
    reveal_strlit("SourceDebugExtension");
    assert("SourceDebugExtension"@.len() == 20);
    reveal_strlit("LocalVariableTypeTable");
    assert("LocalVariableTypeTable"@.len() == 22);
    reveal_strlit("RuntimeVisibleAnnotations");
    assert("RuntimeVisibleAnnotations"@.len() == 25);
    reveal_strlit("RuntimeInvisibleAnnotations");
    assert("RuntimeInvisibleAnnotations"@.len() == 27);
    reveal_strlit("RuntimeVisibleParameterAnnotations");
    assert("RuntimeVisibleParameterAnnotations"@.len() == 34);
    reveal_strlit("RuntimeInvisibleParameterAnnotations");
    assert("RuntimeInvisibleParameterAnnotations"@.len() == 36);
    reveal_strlit("AnnotationDefault");
    assert("AnnotationDefault"@.len() == 17);
    reveal_strlit("StackMapTable");
    assert("StackMapTable"@.len() == 13);
    reveal_strlit("BootstrapMethods");
    assert("BootstrapMethods"@.len() == 16);
    reveal_strlit("RuntimeVisibleTypeAnnotations");
    assert("RuntimeVisibleTypeAnnotations"@.len() == 29);
    reveal_strlit("RuntimeInvisibleTypeAnnotations");
    assert("RuntimeInvisibleTypeAnnotations"@.len() == 31);
    reveal_strlit("MethodParameters");
    assert("MethodParameters"@.len() == 16);
    reveal_strlit("Module");
    assert("Module"@.len() == 6);
    reveal_strlit("ModulePackages");
    assert("ModulePackages"@.len() == 14);
    reveal_strlit("ModuleMainClass");
    assert("ModuleMainClass"@.len() == 15);
    reveal_strlit("NestHost");
    assert("NestHost"@.len() == 8);
    reveal_strlit("NestMembers");
    assert("NestMembers"@.len() == 11);
    reveal_strlit("Record");
    assert("Record"@.len() == 6);
    reveal_strlit("PermittedSubclasses");
    assert("PermittedSubclasses"@.len() == 19);
    assert("ConstantValue"@[0] != "StackMapTable"@[0]);
    assert("Exceptions"@[0] != "SourceFile"@[0]);
    assert("Exceptions"@[0] != "Deprecated"@[0]);
    assert("SourceFile"@[0] != "Deprecated"@[0]);
    assert("LineNumberTable"@[0] != "EnclosingMethod"@[0]);
    assert("LineNumberTable"@[0] != "ModuleMainClass"@[0]);
    assert("Synthetic"@[1] != "Signature"@[1]);
    assert("EnclosingMethod"@[0] != "ModuleMainClass"@[0]);
    assert("BootstrapMethods"@[0] != "MethodParameters"@[0]);
    assert("Module"@[0] != "Record"@[0]);
    match k {
        AttributeKind::ConstantValue => {},
        AttributeKind::Code => {},
        AttributeKind::Exceptions => {},
        AttributeKind::SourceFile => {},
        AttributeKind::LineNumberTable => {},
        AttributeKind::LocalVariableTable => {},
        AttributeKind::InnerClasses => {},
        AttributeKind::Synthetic => {},
        AttributeKind::Deprecated => {},
        AttributeKind::EnclosingMethod => {},
        AttributeKind::Signature => {},
        AttributeKind::SourceDebugExtension => {},
        AttributeKind::LocalVariableTypeTable => {},
        AttributeKind::RuntimeVisibleAnnotations => {},
        AttributeKind::RuntimeInvisibleAnnotations => {},
        AttributeKind::RuntimeVisibleParameterAnnotations => {},
        AttributeKind::RuntimeInvisibleParameterAnnotations => {},
        AttributeKind::AnnotationDefault => {},
        AttributeKind::StackMapTable => {},
        AttributeKind::BootstrapMethods => {},
        AttributeKind::RuntimeVisibleTypeAnnotations => {},
        AttributeKind::RuntimeInvisibleTypeAnnotations => {},
        AttributeKind::MethodParameters => {},
        AttributeKind::Module => {},
        AttributeKind::ModulePackages => {},
        AttributeKind::ModuleMainClass => {},
        AttributeKind::NestHost => {},
        AttributeKind::NestMembers => {},
        AttributeKind::Record => {},
        AttributeKind::PermittedSubclasses => {},
    }
}

} // verus!
