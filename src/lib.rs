//! A cycle-accurate model of the NMOS 6502 processor driving a memory-mapped bus.
//!
//! - `flags`: the status word and its packing.
//! - `bus`: the bus capability, with a log of its transactions, and a RAM bus.
//! - `decode`: the opcode tables.
//! - `ops`: what each opcode semantic does to the registers.
//! - `model`: what each cycle does, as a state machine over bus transactions.
//! - `cpu`, `modes`, `driver`: the processor, its sequencers and its clock.
//! - `laws`: timing and round-trip properties proved of the model.
pub mod bus;
pub mod cpu;
pub mod decode;
pub mod driver;
pub mod flags;
pub mod laws;
pub mod model;
pub mod modes;
pub mod ops;
