//! A publisher: a transport that sends media into the server.

use vstd::prelude::*;
use crate::negotiation::{next_state, state_after, NegotiationEvent, NegotiationState};

verus! {

/// The engine's record of one publisher. The peer connection itself stays
/// with the caller, under the identifier that the session knows the publisher
/// by; this record follows the phase of its offer/answer exchange.
#[derive(Clone, Copy, Debug, PartialEq, Eq)]
pub struct Publisher {
    state: NegotiationState,
}

impl View for Publisher {
    type V = NegotiationState;

    closed spec fn view(&self) -> NegotiationState {
        self.state
    }
}

impl Publisher {
    #[verifier::type_invariant]
    spec fn initialized(&self) -> bool {
        self.state != NegotiationState::Uninitialized
    }

    /// The publisher that a client's offer creates: its peer connection is at
    /// work on the offer.
    pub fn new() -> (publisher: Publisher)
        ensures
            publisher@ == NegotiationState::Negotiating,
    {
        Publisher { state: NegotiationState::Negotiating }
    }

    /// The phase of the publisher's exchange.
    pub fn state(&self) -> (state: NegotiationState)
        ensures
            state == self@,
            state != NegotiationState::Uninitialized,
    {
        proof {
            use_type_invariant(self);
        }
        self.state
    }

    /// Lets an event act on the publisher: it moves as the state machine says,
    /// and stays as it is where the state machine has no such transition.
    /// Returns whether it moved.
    pub fn on(&mut self, event: NegotiationEvent) -> (moved: bool)
        ensures
            moved == next_state(old(self)@, event) is Some,
            final(self)@ == state_after(old(self)@, event),
    {
        match self.state.advance(event) {
            Some(next) => {
                self.state = next;
                true
            },
            None => false,
        }
    }
}

} // verus!
