//! The keep-alive rule: one probe per tick while the client is silent.
//!
//! The heartbeat loop wakes once per `KEEP_ALIVE_INTERVAL_MS`, reads the
//! transmission gate and asks `heartbeat_tick` what to send. While audio is
//! being sent the packets themselves keep the path open, so no probe goes out.

use vstd::prelude::*;
use crate::network::KEEP_ALIVE_PROBE;

verus! {

/// Number of probes one tick sends, given the state of the transmission gate
/// at that tick.
pub open spec fn probes_at_tick(transmitting: bool) -> nat {
    if transmitting {
        0
    } else {
        1
    }
}

/// Number of probes sent over a run of ticks, where `gate[i]` is the state of
/// the transmission gate at tick `i`.
pub open spec fn probes_over(gate: Seq<bool>) -> nat
    decreases gate.len(),
{
    if gate.len() == 0 {
        0
    } else {
        probes_over(gate.drop_last()) + probes_at_tick(gate.last())
    }
}

/// Number of ticks of a run at which the client was silent.
pub open spec fn silent_ticks(gate: Seq<bool>) -> nat {
    gate.filter(|transmitting: bool| !transmitting).len()
}

/// What the heartbeat sends at one tick: the probe if the client is silent,
/// nothing if it is transmitting.
pub fn heartbeat_tick(transmitting: bool) -> (probe: Option<[u8; 1]>)
    ensures
        probe is Some <==> !transmitting,
        probe matches Some(payload) ==> payload == KEEP_ALIVE_PROBE,
        probes_at_tick(transmitting) == (if probe is Some {
            1nat
        } else {
            0nat
        }),
{
    if transmitting {
        None
    } else {
        Some(KEEP_ALIVE_PROBE)
    }
}

/// Over any run of ticks exactly one probe is sent for each tick at which the
/// client was silent, and none for a tick at which it was transmitting.
pub proof fn lemma_one_probe_per_silent_tick(gate: Seq<bool>)
    ensures
        probes_over(gate) == silent_ticks(gate),
        probes_over(gate) <= gate.len(),
        (forall|i: int| 0 <= i < gate.len() ==> gate[i]) ==> probes_over(gate) == 0,
        (forall|i: int| 0 <= i < gate.len() ==> !gate[i]) ==> probes_over(gate) == gate.len(),
    decreases gate.len(),
{
    if gate.len() > 0 {
        lemma_one_probe_per_silent_tick(gate.drop_last());
        reveal_with_fuel(Seq::filter, 2);
    }
}

/// A run of ticks followed by another sends the probes of both.
pub proof fn lemma_probes_add_up(first: Seq<bool>, second: Seq<bool>)
    ensures
        probes_over(first + second) == probes_over(first) + probes_over(second),
    decreases second.len(),
{
    if second.len() > 0 {
        lemma_probes_add_up(first, second.drop_last());
        assert((first + second).drop_last() =~= first + second.drop_last());
    }
}

} // verus!
