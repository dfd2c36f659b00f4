//! An Intel 8080 emulator: instruction decoder, ALU and processor core,
//! with the data model of a terminal view of the machine.

pub mod debugger;
pub mod disassembler;
pub mod i8080;
pub mod text;
