//! Keeps a device's backlight LEDs lit while the user is typing or touching
//! an input surface, and fades them off after a period of inactivity.
//!
//! This crate holds the verified core: the device-interest filter, the
//! validated configuration values, the brightness and fade arithmetic, the
//! LED set with per-LED failure isolation, the coalescing activity channel
//! model, and the idle-timeout state machine. The surrounding binary performs
//! the actual device and file I/O and feeds plain values in and out.

pub mod channel;
pub mod config;
pub mod fade;
pub mod filter;
pub mod input;
pub mod leds;
pub mod logger;
pub mod service;
pub mod sysfs;
