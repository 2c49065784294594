//! A CHIP-8 virtual machine: opcode decoder, machine state, execution engine
//! and the decisions of the driver loop, each with a verified contract.

pub mod font;
pub mod instruction;
pub mod interpreter;
pub mod keypad;
pub mod laws;
pub mod model;
pub mod pixel;
pub mod schedule;
pub mod screen;
