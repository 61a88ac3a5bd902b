//! The offer/answer state machine that every transport follows.
//!
//! ```text
//! Uninitialized --Create--> Negotiating --AnswerProduced--> Stable
//! Stable --Renegotiate--> Negotiating --AnswerProduced--> Stable
//! Stable --NegotiationNeeded--> ServerOffering --OfferDelivered--> Stable
//! ```
//!
//! An exchange that the peer connection gives up (`Failed`) leaves a
//! transport `Stable` again.

use vstd::prelude::*;
use crate::error::SfuError;

verus! {

/// The phase of one transport's offer/answer exchange.
#[derive(Clone, Copy, Debug, PartialEq, Eq, Structural)]
pub enum NegotiationState {
    /// The transport does not exist.
    Uninitialized,
    /// A remote offer is being applied; the local answer is awaited.
    Negotiating,
    /// No exchange is in flight.
    Stable,
    /// The server is producing an offer of its own.
    ServerOffering,
}

/// What can happen to a transport.
#[derive(Clone, Copy, Debug, PartialEq, Eq, Structural)]
pub enum NegotiationEvent {
    /// A client's offer asks for a new transport.
    Create,
    /// A client's offer asks an existing transport to renegotiate.
    Renegotiate,
    /// The peer connection produced the local answer.
    AnswerProduced,
    /// The peer connection asks for a renegotiation that the server starts.
    NegotiationNeeded,
    /// The server's offer is on its way to the client.
    OfferDelivered,
    /// The peer connection gave the exchange up.
    Failed,
}

/// What a peer connection reports when an exchange does not produce a
/// description.
#[derive(Clone, Copy, Debug, PartialEq, Eq, Structural)]
pub enum Fault {
    /// The peer connection refused the remote offer.
    OfferRejected,
    /// The peer connection could not be constructed.
    Unavailable,
    /// The peer connection did not finish in time.
    TimedOut,
}

/// The state that an event leads to, or `None` where the state machine has no
/// such transition.
pub open spec fn next_state(state: NegotiationState, event: NegotiationEvent) -> Option<
    NegotiationState,
> {
    match (state, event) {
        (NegotiationState::Uninitialized, NegotiationEvent::Create) => Some(
            NegotiationState::Negotiating,
        ),
        (NegotiationState::Stable, NegotiationEvent::Renegotiate) => Some(
            NegotiationState::Negotiating,
        ),
        (NegotiationState::Negotiating, NegotiationEvent::AnswerProduced) => Some(
            NegotiationState::Stable,
        ),
        (NegotiationState::Stable, NegotiationEvent::NegotiationNeeded) => Some(
            NegotiationState::ServerOffering,
        ),
        (NegotiationState::ServerOffering, NegotiationEvent::OfferDelivered) => Some(
            NegotiationState::Stable,
        ),
        (NegotiationState::Negotiating, NegotiationEvent::Failed) => Some(NegotiationState::Stable),
        (NegotiationState::ServerOffering, NegotiationEvent::Failed) => Some(
            NegotiationState::Stable,
        ),
        _ => None,
    }
}

/// The state of a transport after an event: the state that the event leads to,
/// or the same state where the state machine has no such transition.
pub open spec fn state_after(state: NegotiationState, event: NegotiationEvent) -> NegotiationState {
    match next_state(state, event) {
        Some(next) => next,
        None => state,
    }
}

/// The failure that a fault is reported as.
pub open spec fn fault_error(fault: Fault) -> SfuError {
    match fault {
        Fault::OfferRejected => SfuError::InvalidOffer,
        Fault::Unavailable => SfuError::EngineInit,
        Fault::TimedOut => SfuError::NegotiationTimeout,
    }
}

impl NegotiationState {
    /// Takes one step of the state machine.
    pub fn advance(self, event: NegotiationEvent) -> (next: Option<NegotiationState>)
        ensures
            next == next_state(self, event),
    {
        match (self, event) {
            (NegotiationState::Uninitialized, NegotiationEvent::Create) => Some(
                NegotiationState::Negotiating,
            ),
            (NegotiationState::Stable, NegotiationEvent::Renegotiate) => Some(
                NegotiationState::Negotiating,
            ),
            (NegotiationState::Negotiating, NegotiationEvent::AnswerProduced) => Some(
                NegotiationState::Stable,
            ),
            (NegotiationState::Stable, NegotiationEvent::NegotiationNeeded) => Some(
                NegotiationState::ServerOffering,
            ),
            (NegotiationState::ServerOffering, NegotiationEvent::OfferDelivered) => Some(
                NegotiationState::Stable,
            ),
            (NegotiationState::Negotiating, NegotiationEvent::Failed) => Some(
                NegotiationState::Stable,
            ),
            (NegotiationState::ServerOffering, NegotiationEvent::Failed) => Some(
                NegotiationState::Stable,
            ),
            _ => None,
        }
    }
}

impl Fault {
    /// The failure that this fault is reported as.
    pub fn error(self) -> (e: SfuError)
        ensures
            e == fault_error(self),
    {
        match self {
            Fault::OfferRejected => SfuError::InvalidOffer,
            Fault::Unavailable => SfuError::EngineInit,
            Fault::TimedOut => SfuError::NegotiationTimeout,
        }
    }
}

/// No state is terminal, and no transition leads back to `Uninitialized`:
/// once a transport exists it stays, and it can always move on.
pub proof fn lemma_no_terminal_state(state: NegotiationState)
    ensures
        exists|event: NegotiationEvent| next_state(state, event) is Some,
        forall|event: NegotiationEvent| #[trigger]
            next_state(state, event) != Some(NegotiationState::Uninitialized),
{
    match state {
        NegotiationState::Uninitialized => {
            assert(next_state(state, NegotiationEvent::Create) is Some);
        },
        NegotiationState::Negotiating => {
            assert(next_state(state, NegotiationEvent::AnswerProduced) is Some);
        },
        NegotiationState::Stable => {
            assert(next_state(state, NegotiationEvent::Renegotiate) is Some);
        },
        NegotiationState::ServerOffering => {
            assert(next_state(state, NegotiationEvent::OfferDelivered) is Some);
        },
    }
}

/// Every exchange ends in `Stable`: the one event that a transport in
/// `Negotiating` or `ServerOffering` waits for, and a failure of the
/// exchange, both lead there.
pub proof fn lemma_exchanges_end_stable(state: NegotiationState, event: NegotiationEvent)
    requires
        state == NegotiationState::Negotiating || state == NegotiationState::ServerOffering,
        next_state(state, event) is Some,
    ensures
        next_state(state, event) == Some(NegotiationState::Stable),
{
}

} // verus!
