//! The bytecode interpreter of a Java virtual machine: frames with their operand stack,
//! local variables and program counter, the instructions they execute, and the threads
//! that hold them. Every instruction is specified over the mathematical state of a frame
//! (`state`, `step`) and proved to follow that specification.

pub mod value;
pub mod stack;
pub mod local;
pub mod model;
pub mod text;
pub mod opcode;
pub mod state;
pub mod step;
pub mod arith;
pub mod frame;
pub mod thread;
pub mod laws;
