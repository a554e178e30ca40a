//! EVM opcode definitions and utilities: the opcode table, with what each opcode is
//! called, what it does to the stack and how many immediate bytes follow it.

pub mod catalog;
pub mod constants;
pub mod info;
pub mod laws;
pub mod opcode;
pub mod table;

pub use info::{immediate_size, stack_io, terminating, OpCodeInfo, OpCodeInfoModel};
pub use opcode::OpCode;
pub use table::opcode_info;
