//! Input handling for the anland display consumer.
//!
//! `ffi` describes the wire protocol spoken with the consumer (event type
//! numbers and the payload layouts), and `input` turns a raw input event into
//! the compositor-facing event it stands for.

pub mod ffi;
pub mod input;
pub mod laws;
