//! Driver for an HD44780-class character display behind a PCF8574-style
//! 4-bit I/O expander on an I2C bus.
//!
//! The driver computes the exact bus traffic of every operation as a plan of
//! [`bus::BusOp`]s; the caller performs the plan on its bus and delay
//! primitives, stopping at the first failed write.
pub mod bus;
pub mod lcd_i2c;
