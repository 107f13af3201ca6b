//! Drives the monochrome status display of a USB keyboard.

pub mod bits;
pub mod error;
pub mod keyboard;
pub mod manager;
pub mod send;
pub mod transport;
pub mod screen;
