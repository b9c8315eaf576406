//! Memory bus of a cartridge-based 8-bit handheld game console.
//!
//! A flat 64KB address space is overlaid with a bank-switchable cartridge
//! window, a memory-mapped I/O register window, an interrupt-enable register,
//! and a block-transfer mechanism. `memory` holds the bus itself, `mbc` the
//! bank-controller policy it delegates to, and `laws` the proofs of the
//! bus-wide properties that relate several operations.

pub mod mbc;
pub mod memory;
pub mod laws;
