//! Core of a push-to-talk voice streaming client.
//!
//! The crate holds the parts of the real-time audio pipeline that decide and
//! compute: framing of captured samples, the bounded playback buffer, datagram
//! classification, the keep-alive rule, device capability checks and the
//! controller's state machine. Everything that touches hardware, sockets or
//! the codec is left to the caller, which hands in plain values.

pub mod client;
pub mod config;
pub mod device;
pub mod error_codes;
pub mod frame;
pub mod heartbeat;
pub mod hotkey;
pub mod network;
pub mod pcm;
pub mod playback;
pub mod stream;
