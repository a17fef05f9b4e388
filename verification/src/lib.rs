//! A cycle-accurate model of the MOS 6502 processor.
//!
//! The processor is a passive state machine: [`Cpu::step`] runs one instruction, or the entry
//! into one interrupt, and calls the host's [`Bus::tick`] once for every bus cycle. What
//! every operation does is stated over [`model::State`], the processor as a mathematical
//! value, as a function of the state before and of what the host answered.

pub mod access;
pub mod addressing;
pub mod alu;
pub mod answers;
pub mod bus;
pub mod bytes;
pub mod cpu;
pub mod decode;
pub mod execute;
pub mod flow;
pub mod instructions;
pub mod interrupts;
pub mod invariants;
pub mod laws;
pub mod model;
pub mod pins;
pub mod runs;
pub mod status;
pub mod step;

pub use bus::Bus;
pub use cpu::Cpu;
pub use pins::Pins;
pub use status::{Flag, Status};
