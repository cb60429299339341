//! JVM bytecode: opcodes, operands and decoded instructions.

pub mod encoding;
pub mod instruction;
pub mod opcode;
pub mod operand;

pub use instruction::Instruction;
pub use opcode::Opcode;
pub use operand::{ArrayType, LookupSwitchData, TableSwitchData};
