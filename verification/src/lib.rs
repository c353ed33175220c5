//! Driver layer for the general purpose I/O peripheral of the EFM32PG1B
//! microcontroller family.
//!
//! The driver manages per-pin electrical mode (disabled, input, output,
//! alternate output, analog), per-port electrical characteristics (drive
//! strength, slew rate, input-readback gating), and protection of the four
//! debug pins (the SWD/JTAG clock, data and test lines on port `F`).
//!
//! All register state lives in an explicit [`regs::RegisterBank`] value, a
//! software image of the memory-mapped port register block. Every operation
//! of the driver is specified and verified against that image; the thin
//! transport that copies the image to and from the hardware block lives
//! outside this crate.

pub mod debug;
pub mod dynamic;
pub mod erased;
pub mod gpio;
pub mod mode;
pub mod pin;
pub mod port;
pub mod regs;
