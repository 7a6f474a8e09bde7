//! An interpreter for the CHIP-8 virtual machine: its machine state, the
//! fetch-decode-execute cycle and the semantics of every opcode, each stated
//! over a mathematical model of the machine and proved against it.

pub mod chip_8;
pub mod io_interface;
pub mod laws;
pub mod model;
pub mod platform;
