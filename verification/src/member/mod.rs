//! Fields and methods of a class.

pub mod field;
pub mod method;

pub use field::FieldInfo;
pub use method::MethodInfo;
