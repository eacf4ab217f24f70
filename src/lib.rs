//! Driver for an HD44780-compatible character LCD wired through a
//! PCF8574-style I2C expander and run in 4-bit mode.
//!
//! The driver does not touch the bus itself: each operation appends the exact
//! bus traffic it needs (single-byte writes to the expander and waits) to a
//! list of `driver::BusOp`, and `bus::next_action` tells the caller how to
//! play such a list back on a real bus, stopping at the first failed write.

pub mod bus;
pub mod driver;
pub mod enums;
pub mod instruction;
