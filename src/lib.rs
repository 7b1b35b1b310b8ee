//! A cycle-counting interpreter for the NES flavour of the 6502 CPU, with the
//! NROM cartridge mapper and an INES header reader.
//!
//! Every bus transaction the CPU makes is recorded in the ghost log of the
//! [`memory::Memory`] it drives; the contracts of the CPU are stated against
//! that log, so they fix the order, the addresses and the written values of
//! all real and dummy accesses.
pub mod cpu;
pub mod cpu_ops;
pub mod ines;
pub mod laws;
pub mod mappers;
pub mod memory;
pub mod model;
