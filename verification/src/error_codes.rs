//! Status codes of the control operations: zero for success, a small negative
//! number for each kind of failure.

use vstd::prelude::*;

verus! {

/// The operation did what it was asked.
pub const SUCCESS: i32 = 0;

/// No client was given.
pub const NULL_POINTER: i32 = -1;

/// The peer's address is not an address.
pub const INVALID_IP: i32 = -2;

/// The local socket could not be bound.
pub const SOCKET_BIND_FAILED: i32 = -3;

/// The peer's address could not be resolved.
pub const INVALID_SERVER_ADDR: i32 = -4;

/// The socket could not be connected to the peer.
pub const SOCKET_CONNECT_FAILED: i32 = -5;

/// The host has no capture device.
pub const NO_INPUT_DEVICE: i32 = -6;

/// The host has no playback device.
pub const NO_OUTPUT_DEVICE: i32 = -7;

/// The codec could not be set up.
pub const ENCODER_INIT_FAILED: i32 = -8;

/// The capture stream could not be queried, built or started.
pub const INPUT_STREAM_FAILED: i32 = -9;

/// The playback stream could not be queried, built or started.
pub const OUTPUT_STREAM_FAILED: i32 = -10;

/// A parameter is outside the range the operation accepts.
pub const INVALID_AUDIO_PARAM: i32 = -11;

/// The operation needs a running client.
pub const NOT_RUNNING: i32 = -12;

/// A device cannot do mono at the stream's sample rate in the sample format
/// the pipeline works in.
pub const UNSUPPORTED_SAMPLE_FORMAT: i32 = -13;

/// Whether `code` reports a failure.
pub open spec fn is_failure(code: int) -> bool {
    -13 <= code < 0
}

/// Says whether `code` reports a failure.
pub fn failed(code: i32) -> (failure: bool)
    ensures
        failure == is_failure(code as int),
{
    -13 <= code && code < 0
}

} // verus!
