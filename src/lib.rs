//! An instruction-level emulator of the MOS 6502 processor.
//!
//! The processor state lives in [`MOS6502`]; memory and mapped devices are supplied by the caller
//! through the [`Interface6502`] trait. Every access the processor makes to that interface is
//! visible to the contracts as an entry of the interface's access record, so the effect of each
//! instruction is stated exactly in terms of the bytes the interface handed back.
use vstd::prelude::*;

pub mod bus;
pub mod cpu;
pub mod address_modes;
pub mod opcodes;
pub mod illegal;
pub mod table;
pub mod engine;
pub mod laws;
pub mod ram;

pub use address_modes::AddressModeValue;
pub use bus::{BusAccess, Interface6502};
pub use cpu::{MOS6502, StatusFlag};
