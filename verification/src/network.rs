//! The wire format and the decisions round the datagram socket.
//!
//! A datagram carries no header. One of at most one byte is a keep-alive
//! probe, whatever it holds; a longer one is one compressed audio packet.

use vstd::prelude::*;
use crate::config::RECEIVE_IDLE_MS;

verus! {

/// The payload of a keep-alive probe: a single zero byte.
pub const KEEP_ALIVE_PROBE: [u8; 1] = [0];

/// Whether a datagram of `length` bytes is a keep-alive probe, which the
/// receiver drops unread.
pub open spec fn is_keep_alive(length: nat) -> bool {
    length <= 1
}

/// What a received datagram is taken for.
#[derive(Clone, Copy, Debug, PartialEq, Eq)]
pub enum DatagramKind {
    /// A probe that keeps the path open; it is dropped.
    KeepAlive,
    /// One compressed audio packet; it is decoded whole.
    Audio,
}

/// Tells probes from audio packets by the datagram's length alone.
pub fn classify(length: usize) -> (kind: DatagramKind)
    ensures
        kind is KeepAlive <==> is_keep_alive(length as nat),
        kind is Audio <==> length >= 2,
{
    if length <= 1 {
        DatagramKind::KeepAlive
    } else {
        DatagramKind::Audio
    }
}

/// How one poll of the non-blocking socket ended.
#[derive(Clone, Copy, Debug, PartialEq, Eq)]
pub enum ReceiveEvent {
    /// A datagram of this many bytes now fills the front of the buffer.
    Received(usize),
    /// Nothing was waiting.
    WouldBlock,
    /// The socket reported another error.
    Failed,
}

/// What the receiver loop does after one poll.
#[derive(Clone, Copy, Debug)]
pub enum ReceiveAction<'a> {
    /// Drop the datagram and poll again.
    Discard,
    /// Hand this packet to the decoder.
    Decode(&'a [u8]),
    /// Sleep for this many milliseconds before the next poll.
    Sleep(u64),
    /// Record the failure and poll again.
    Report,
}

/// Decides what follows one poll of the socket. A probe never reaches the
/// decoder; every longer datagram does, whole and unchanged.
pub fn receive_step<'a>(buffer: &'a [u8], event: ReceiveEvent) -> (action: ReceiveAction<'a>)
    requires
        event matches ReceiveEvent::Received(length) ==> length <= buffer@.len(),
    ensures
        match event {
            ReceiveEvent::Received(length) => if is_keep_alive(length as nat) {
                action is Discard
            } else {
                action matches ReceiveAction::Decode(packet) && packet@ == buffer@.take(
                    length as int,
                )
            },
            ReceiveEvent::WouldBlock => action matches ReceiveAction::Sleep(millis) && millis
                == RECEIVE_IDLE_MS,
            ReceiveEvent::Failed => action is Report,
        },
{
    match event {
        ReceiveEvent::Received(length) => match classify(length) {
            DatagramKind::KeepAlive => ReceiveAction::Discard,
            DatagramKind::Audio => ReceiveAction::Decode(&buffer[0..length]),
        },
        ReceiveEvent::WouldBlock => ReceiveAction::Sleep(RECEIVE_IDLE_MS),
        ReceiveEvent::Failed => ReceiveAction::Report,
    }
}

/// How a call of the codec ended: with so many bytes or samples written to
/// the front of the output buffer, or with an error.
#[derive(Clone, Copy, Debug, PartialEq, Eq)]
pub enum CodecOutcome {
    /// The codec wrote this many items.
    Produced(usize),
    /// The codec rejected its input.
    Failed,
}

/// The part of `output` that the codec filled, or nothing where it failed or
/// wrote nothing: a failed frame or packet is dropped, and an empty packet is
/// not sent.
pub fn produced<'a, T>(output: &'a [T], outcome: CodecOutcome) -> (filled: Option<&'a [T]>)
    requires
        outcome matches CodecOutcome::Produced(count) ==> count <= output@.len(),
    ensures
        filled is Some <==> (outcome matches CodecOutcome::Produced(count) && count > 0),
        filled matches Some(items) ==> (outcome matches CodecOutcome::Produced(count) && items@
            == output@.take(count as int)),
{
    match outcome {
        CodecOutcome::Produced(count) => if count > 0 {
            Some(&output[0..count])
        } else {
            None
        },
        CodecOutcome::Failed => None,
    }
}

/// The receiver takes the probe the heartbeat sends for a probe.
pub proof fn lemma_probe_is_keep_alive()
    ensures
        KEEP_ALIVE_PROBE@ == seq![0u8],
        is_keep_alive(KEEP_ALIVE_PROBE@.len()),
{
}

} // verus!
