//! The audio service of a remote desktop: it captures what a computer records or
//! plays, encodes it, and sends it to subscribers.
//!
//! The library holds the decisions: which device to capture from, at which rate
//! and layout to encode, how samples are buffered, converted, framed and cut for
//! the encoder, when silence is held back, and what subscribers are told. Outside
//! work is asked for by actions, and its results come back as events.

pub mod buffer;
pub mod capture;
pub mod convert;
pub mod device;
pub mod encode;
pub mod format;
pub mod gate;
pub mod merge;
pub mod message;
pub mod mix;
pub mod pa;
pub mod play;
pub mod sample;
pub mod state;
pub mod stream;
pub mod target;
