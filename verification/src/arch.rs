//! Everything that is specific to the AArch64 execution state.

pub mod exception;
pub mod memory;
pub mod registers;
