//! The pins of the Uno R4 WiFi, port by port.
pub mod port0;
pub mod port1;
pub mod port2;
pub mod port3;
