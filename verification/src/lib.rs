//! Control layer of a spotlight-style overlay window: the geometry of the
//! displays around the pointer, the panel that floats above other windows,
//! the controller that shows and hides it, the decoder of remote commands
//! and the reconnecting channel that delivers them.
//!
//! The library decides; the program around it touches the operating system.
//! Every function here takes plain values and hands plain values back.

pub mod channel;
pub mod command;
pub mod controller;
pub mod decimal;
pub mod geometry;
pub mod json;
pub mod panel;
pub mod startup;
