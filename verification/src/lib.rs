//! An interpreter for compiled class files: a binary reader, an instruction
//! decoder, a class linker and a stack-frame interpreter over a managed heap.

pub mod arith;
pub mod bytes;
pub mod call_frame;
pub mod class;
pub mod class_file;
pub mod decode;
pub mod descriptor;
pub mod error;
pub mod heap;
pub mod instructions;
pub mod machine;
pub mod opcodes;
pub mod reader;
pub mod render;
pub mod symbols;
pub mod text;
pub mod value;
pub mod vm;
