//! Cycle-accurate core of the JAM-1 8-bit pipelined computer and its assembler.

pub mod assembler;
pub mod cpu;
pub mod device;
pub mod system;
pub mod terminal;
pub mod types;
pub mod utf8;
