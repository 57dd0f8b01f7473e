//! The core of a keyboard logger: naming key codes, classifying raw input
//! events, and coalescing key presses and releases into a compact log.

pub mod input;
pub mod tracker;
pub mod laws;
pub mod config;
pub mod devices;
