//! Logic of an air-quality monitor: a temperature/humidity sensor, a PM2.5
//! particle sensor and a formaldehyde (HCHO) sensor, shown on three pages of a
//! small display, with an encoder to turn pages, a push button, an LED and a
//! buzzer.
//!
//! The firmware around this library performs the I/O; every decision it takes
//! between two I/O operations is a verified function here.

pub mod page;
pub mod text;
pub mod protocol;
pub mod sensors;
pub mod monitor;
pub mod display;
pub mod laws;
