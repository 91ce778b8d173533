//! Master-mode driver core for an I2C bus peripheral.
//!
//! The crate turns a requested bit rate and the peripheral's input clock into
//! the timing words of the peripheral, brings the peripheral from power-on to
//! an armed state, and offers the three bus primitives (start, address frame,
//! stop) that a transfer layer builds reads and writes from.
//!
//! The registers of the peripheral are held by an in-memory register block
//! that keeps a ghost journal of the writes made to it. So every operation of
//! the driver has a contract over the words it leaves in the registers and
//! over the writes it made, in their order.
//!
//! - [`time`], [`mode`]: bit rates and speed grades.
//! - [`timing`]: from input clock and mode to the timing quantities and the
//!   words that hold them.
//! - [`registers`], [`rcc`], [`afio`], [`gpio`]: the registers of the
//!   peripheral, the clock subsystem, the remap register and the pins.
//! - [`instance`], [`i2c1`], [`i2c2`]: the two peripherals and their pins.
//! - [`lifecycle`]: the stages of a peripheral, the writes that lead from one
//!   to the next, and what is proved of them.
//! - [`i2c`]: the driver.
//! - [`error`]: the failures that a transfer layer reports.

pub mod afio;
pub mod error;
pub mod gpio;
pub mod i2c;
pub mod i2c1;
pub mod i2c2;
pub mod instance;
pub mod lifecycle;
pub mod mode;
pub mod rcc;
pub mod registers;
pub mod time;
pub mod timing;
