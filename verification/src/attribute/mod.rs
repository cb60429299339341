//! Attribute types for class files.
//!
//! https://docs.oracle.com/javase/specs/jvms/se25/html/jvms-4.html#jvms-4.7

pub mod annotation;
pub mod class;
pub mod field;
pub mod kind;
pub mod method;
pub mod shared;
pub mod type_annotation;

pub use annotation::{Annotation, ElementKind, ElementValue, ElementValuePair};
pub use kind::AttributeKind;
pub use type_annotation::{LocalVarEntry, TargetInfo, TypeAnnotation, TypePath, TypePathEntry};
pub use shared::SharedAttribute;
pub use class::{BootstrapMethodEntry, ClassAttribute, InnerClassEntry};
pub use field::FieldAttribute;
pub use method::{
    CodeAttribute, ExceptionTableEntry, MethodAttribute, MethodParameterEntry, ParameterAnnotations,
};
