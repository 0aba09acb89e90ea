//! Hardware abstraction: pins, timers, the I2C bus and interrupt numbers.
pub mod gpio;
pub mod timer;
pub mod i2c;
pub mod interrupts;
pub mod simple_timer;
