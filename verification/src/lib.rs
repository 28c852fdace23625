//! The core of a kernel for the Raspberry Pi.
//!
//! The heart of it is virtual memory on a 64-bit ARM core: a declarative
//! layout of address regions, the stage 1 translation tables that are filled
//! from it, and the unit that takes the core from physical to translated
//! addressing. Around it stand the board's memory map, the manager of the
//! device drivers, and the privilege levels.
//!
//! Nothing here touches the machine. A register is the word that it holds,
//! memory is an address, and what is to be done to the core comes back as a
//! record for the caller to carry out.

pub mod arch;
pub mod board;
pub mod driver;
pub mod error;
pub mod exception;
pub mod memory;
pub mod utils;
