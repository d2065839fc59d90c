//! A ZX Spectrum 128 emulator core: the Z80 processor, the paged memory, the
//! ULA and AY peripherals, and the bus that ties them together with the
//! ULA's memory contention.

pub mod memory;
pub mod peripherals;
pub mod machine;
pub mod interconnect;
pub mod cpu;
pub mod debugger;
pub mod instructions;
pub mod snapshot;
