//! Verified core of the touch-bar panel firmware.
//!
//! Two MPR121 touch sensors are read and their touch deltas are drawn as opposing
//! bar graphs on an SSD1312 OLED. This crate holds everything that the firmware
//! decides and computes; the program around it performs the bus transfers, the
//! register accesses and the waits.
//!
//! - [`mpr121`]: the touch sensor's configuration, registers and driver
//! - [`oled`] and [`panel`]: the framebuffer, the stream of bytes that drives the
//!   display, and what the display makes of it
//! - [`bars`] and [`frame`]: the bar graphs and the frame they are part of
//! - [`serial`] and [`line`]: the debug serial port
//! - [`log_setup`]: log records on that port

pub mod bars;
pub mod frame;
pub mod line;
pub mod log_setup;
pub mod mpr121;
pub mod oled;
pub mod panel;
pub mod serial;
