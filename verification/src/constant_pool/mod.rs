//! Constant pool types and structures.
//!
//! The constant pool is a table of structures representing various string constants,
//! class and interface names, field names, and other constants that are referred to
//! within the ClassFile structure and its substructures.

pub mod builder;
pub mod entry;
pub mod kind;
pub mod types;
pub mod write;

pub use entry::{ConstantEntry, SpecConstantEntry};
pub use kind::ConstantKind;
pub use types::{Dynamic, MethodHandle, MethodHandleKind, NameAndType, Reference};
pub mod pool;

pub use pool::ConstantPool;
