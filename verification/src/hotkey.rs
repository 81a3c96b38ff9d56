//! Push-to-talk: from key events to transitions of the transmission gate.
//!
//! A key that is held down repeats its press event. Only the first press and
//! the first release change whether the client transmits.

use vstd::prelude::*;

verus! {

/// What happened to a key.
#[derive(Clone, Copy, Debug, PartialEq, Eq, Structural)]
pub enum KeyState {
    /// The key went down, or repeats while held.
    Pressed,
    /// The key came up.
    Released,
}

/// Whether a key event asks for transmission.
pub open spec fn wanted(state: KeyState) -> bool {
    state == KeyState::Pressed
}

/// Whether the client transmits after the events of `states`, all of the
/// talk key, when it started from `active`.
pub open spec fn transmitting_after(active: bool, states: Seq<KeyState>) -> bool {
    if states.len() == 0 {
        active
    } else {
        wanted(states.last())
    }
}

/// Number of times transmission was switched on or off over those events.
pub open spec fn changes_over(active: bool, states: Seq<KeyState>) -> nat
    decreases states.len(),
{
    if states.len() == 0 {
        0
    } else {
        let earlier = states.drop_last();
        let switched = transmitting_after(active, earlier) != wanted(states.last());
        changes_over(active, earlier) + if switched {
            1nat
        } else {
            0nat
        }
    }
}

/// Tracks whether the talk key is held.
pub struct PushToTalk {
    hotkey: u32,
    active: bool,
}

impl PushToTalk {
    /// Whether the key is held.
    pub closed spec fn active(&self) -> bool {
        self.active
    }

    /// Identifier of the talk key.
    pub closed spec fn hotkey(&self) -> u32 {
        self.hotkey
    }

    /// A tracker for the key with identifier `hotkey`, not held.
    pub fn new(hotkey: u32) -> (tracker: Self)
        ensures
            !tracker.active(),
            tracker.hotkey() == hotkey,
    {
        PushToTalk { hotkey, active: false }
    }

    /// Says whether the key is held.
    pub fn is_active(&self) -> (active: bool)
        ensures
            active == self.active(),
    {
        self.active
    }

    /// Takes in one key event. Returns the new value of the transmission gate
    /// if the event changes it: an event of another key changes nothing, nor
    /// does a press while the key is held or a release while it is not.
    pub fn on_event(&mut self, id: u32, state: KeyState) -> (change: Option<bool>)
        ensures
            final(self).hotkey() == old(self).hotkey(),
            final(self).active() == if id == old(self).hotkey() {
                wanted(state)
            } else {
                old(self).active()
            },
            change == if final(self).active() != old(self).active() {
                Some(final(self).active())
            } else {
                None
            },
    {
        if id != self.hotkey {
            return None;
        }
        let pressed: bool = state == KeyState::Pressed;
        if pressed != self.active {
            self.active = pressed;
            Some(pressed)
        } else {
            None
        }
    }
}

/// However often a key repeats, transmission is switched at most once for a
/// run of equal events, and after any events it is what the last one asked
/// for.
pub proof fn lemma_repeats_change_once(active: bool, earlier: Seq<KeyState>, state: KeyState, n: nat)
    requires
        n >= 1,
    ensures
        changes_over(active, earlier + Seq::new(n, |i: int| state)) <= changes_over(
            active,
            earlier,
        ) + 1,
        transmitting_after(active, earlier + Seq::new(n, |i: int| state)) == wanted(state),
    decreases n,
{
    let run = Seq::new(n, |i: int| state);
    let all = earlier + run;
    if n == 1 {
        assert(all.drop_last() =~= earlier);
    } else {
        let shorter = Seq::new((n - 1) as nat, |i: int| state);
        lemma_repeats_change_once(active, earlier, state, (n - 1) as nat);
        assert(all.drop_last() =~= earlier + shorter);
    }
}

} // verus!
