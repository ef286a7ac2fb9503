//! An LC-3 virtual machine: instruction decoding, the register file, the
//! memory with its keyboard registers, and the fetch-decode-execute engine.

pub mod opcode;
pub mod register;
pub mod memory;
pub mod machine;
