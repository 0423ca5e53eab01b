//! A cycle-accurate model of a W65C02 microcomputer: the processor's instruction
//! steppers and executor, pins and ports with tri-state semantics, static RAM chips
//! driven by their control lines, and machines that wire them to a clock.

pub mod pin;
pub mod memory;
pub mod state;
pub mod opcodes;
pub mod alu;
pub mod steppers;
pub mod debugger;
pub mod w65c02;
pub mod machine;
pub mod circuit;
pub mod sequences;
