//! Driver for serial-in, parallel-out shift registers.
//!
//! A register is wired to three digital output lines: clock, latch and data.
//! The driver keeps a copy of the register's output bits and, whenever one
//! bit changes, shifts the whole pattern out again and latches it.

pub mod line;
pub mod protocol;
pub mod sipo;
