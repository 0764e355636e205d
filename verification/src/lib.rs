//! Control logic for a USB conferencing camera.
//!
//! The crate decides; its caller acts. It turns a parsed command into the
//! device-control calls to make and the lines to print, and it drives the
//! bounded poll that waits for the device to become ready. Talking to the
//! device registry, sleeping and printing are left to the caller.

pub mod command;
pub mod dispatch;
pub mod failure;
pub mod options;
pub mod report;
pub mod resolver;
pub mod text;
