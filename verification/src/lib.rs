//! The decisions of a Bluetooth cat scale: what it broadcasts, how it reacts to
//! its serial console and its power events, how it configures its radio, its USB
//! port and its accelerometer, and in which order it polls its load cell.
//!
//! Everything here is a function of plain values. The firmware around it talks to
//! the peripherals, hands in what it read and performs what it is told.

pub mod bytes;
pub mod gap;
pub mod bthome;
pub mod console;
pub mod dfu;
pub mod weigh;
pub mod leds;
pub mod usb;
pub mod softdevice;
pub mod accel;
