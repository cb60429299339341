//! Reading, checking and writing Java `.class` files.

pub mod attribute;
pub mod bytecode;
pub mod class_file;
pub mod constant;
pub mod constant_pool;
pub mod cursor;
pub mod error;
pub mod text;
pub mod flags;
pub mod jasm_dis;
pub mod entry_layout;
pub mod longer_input;
pub mod javap_fmt;
pub mod member;
pub mod payload_layout;
pub mod print;
pub mod read;
pub mod rns_dis;

pub use class_file::{ClassFile, ClassFileBuilder};
