//! The registry as a mathematical value, and each operation of the engine as a
//! function from a registry and an input to a registry and an action.
//!
//! The executable engine is specified by these functions, and what holds of
//! the engine as a whole is proved of them.

use vstd::prelude::*;
use crate::error::SfuError;
use crate::negotiation::{fault_error, Fault, NegotiationState};
use crate::signalling::{
    kind_negotiation_done,
    kind_publisher_created,
    kind_subscriber_created,
    SocketResponseView,
    Transport,
};

verus! {

/// A subscriber: its phase, and the publishers whose tracks it is forwarded.
pub struct SubscriberView {
    pub state: NegotiationState,
    pub sources: Set<Seq<char>>,
}

/// A session: the phase of each publisher, each subscriber, and the transport
/// that holds the session's lock while the peer connection works for it.
pub struct SessionView {
    pub publishers: Map<Seq<char>, NegotiationState>,
    pub subscribers: Map<Seq<char>, SubscriberView>,
    pub holder: Option<(Transport, Seq<char>)>,
}

/// The registry: each session under its identifier.
pub type RegistryView = Map<Seq<char>, SessionView>;

/// What the engine asks of its caller.
pub enum ActionView {
    Reply(SocketResponseView),
    Fail(SfuError),
    Open { transport: Transport, offer: Seq<char> },
    Answer { publisher_id: Seq<char>, offer: Seq<char> },
    Offer { transport: Transport, id: Seq<char> },
    Wait,
}

/// The outcome of one operation: the registry after it and the action asked
/// for.
pub struct Step {
    pub registry: RegistryView,
    pub action: ActionView,
}

/// The failure for a transport that a session does not hold.
pub open spec fn not_found(transport: Transport) -> SfuError {
    match transport {
        Transport::PUBLISHER => SfuError::PublisherNotFound,
        Transport::SUBSCRIBER => SfuError::SubscriberNotFound,
    }
}

/// The response to the creation of a transport.
pub open spec fn created_response(
    transport: Transport,
    answer: Seq<char>,
    id: Seq<char>,
) -> SocketResponseView {
    match transport {
        Transport::PUBLISHER => SocketResponseView::CreateTransportRes {
            answer,
            publisher_id: id,
            kind: kind_publisher_created(),
        },
        Transport::SUBSCRIBER => SocketResponseView::CreateSubscriberRes {
            answer,
            subscriber_id: id,
            kind: kind_subscriber_created(),
        },
    }
}

/// The response that carries the description an exchange came to.
pub open spec fn negotiated_response(sdp: Seq<char>) -> SocketResponseView {
    SocketResponseView::RenegotiateRes { sdp, kind: kind_negotiation_done() }
}

impl SessionView {
    /// A session without transports.
    pub open spec fn empty() -> SessionView {
        SessionView { publishers: Map::empty(), subscribers: Map::empty(), holder: None }
    }

    /// Whether the session's lock is free.
    pub open spec fn idle(self) -> bool {
        self.holder is None
    }

    /// Whether the session holds a transport.
    pub open spec fn has(self, transport: Transport, id: Seq<char>) -> bool {
        match transport {
            Transport::PUBLISHER => self.publishers.contains_key(id),
            Transport::SUBSCRIBER => self.subscribers.contains_key(id),
        }
    }

    /// The phase of a transport; `Uninitialized` for one the session does not
    /// hold.
    pub open spec fn state_of(self, transport: Transport, id: Seq<char>) -> NegotiationState {
        if !self.has(transport, id) {
            NegotiationState::Uninitialized
        } else {
            match transport {
                Transport::PUBLISHER => self.publishers[id],
                Transport::SUBSCRIBER => self.subscribers[id].state,
            }
        }
    }

    /// The session with one of its transports in another phase.
    pub open spec fn with_state(
        self,
        transport: Transport,
        id: Seq<char>,
        state: NegotiationState,
    ) -> SessionView {
        match transport {
            Transport::PUBLISHER => SessionView {
                publishers: self.publishers.insert(id, state),
                ..self
            },
            Transport::SUBSCRIBER => SessionView {
                subscribers: self.subscribers.insert(
                    id,
                    SubscriberView { state, sources: self.subscribers[id].sources },
                ),
                ..self
            },
        }
    }

    /// The session with a new transport, stable and, for a subscriber, without
    /// sources.
    pub open spec fn with_transport(self, transport: Transport, id: Seq<char>) -> SessionView {
        match transport {
            Transport::PUBLISHER => SessionView {
                publishers: self.publishers.insert(id, NegotiationState::Stable),
                ..self
            },
            Transport::SUBSCRIBER => SessionView {
                subscribers: self.subscribers.insert(
                    id,
                    SubscriberView { state: NegotiationState::Stable, sources: Set::empty() },
                ),
                ..self
            },
        }
    }

    /// The session with a publisher added to the sources of a subscriber.
    pub open spec fn with_source(self, subscriber: Seq<char>, publisher: Seq<char>) -> SessionView {
        SessionView {
            subscribers: self.subscribers.insert(
                subscriber,
                SubscriberView {
                    state: self.subscribers[subscriber].state,
                    sources: self.subscribers[subscriber].sources.insert(publisher),
                },
            ),
            ..self
        }
    }

    /// The session with its lock taken by a transport that enters a phase.
    pub open spec fn held_by(
        self,
        transport: Transport,
        id: Seq<char>,
        state: NegotiationState,
    ) -> SessionView {
        SessionView { holder: Some((transport, id)), ..self.with_state(transport, id, state) }
    }

    /// The session with its lock free and the transport that held it stable.
    pub open spec fn released(self) -> SessionView {
        match self.holder {
            Some((transport, id)) => SessionView {
                holder: None,
                ..self.with_state(transport, id, NegotiationState::Stable)
            },
            None => self,
        }
    }

    /// A subscriber is forwarded tracks of publishers of its own session only.
    pub open spec fn sources_in_session(self) -> bool {
        forall|s: Seq<char>, p: Seq<char>|
            self.subscribers.contains_key(s) && #[trigger] self.subscribers[s].sources.contains(p)
                ==> self.publishers.contains_key(p)
    }

    /// Work on a session is serialized: the transport that holds the lock is
    /// in an exchange, and every other transport is stable.
    pub open spec fn serialized(self) -> bool {
        &&& forall|t: Transport, id: Seq<char>|
            self.has(t, id) && self.holder != Some((t, id)) ==> #[trigger] self.state_of(t, id)
                == NegotiationState::Stable
        &&& match self.holder {
            Some((t, id)) => self.has(t, id) && (self.state_of(t, id)
                == NegotiationState::Negotiating || self.state_of(t, id)
                == NegotiationState::ServerOffering),
            None => true,
        }
    }

    /// What holds of every session that the engine keeps.
    pub open spec fn coherent(self) -> bool {
        self.sources_in_session() && self.serialized()
    }
}

/// Whether some session of the registry holds a transport.
pub open spec fn knows(reg: RegistryView, transport: Transport, id: Seq<char>) -> bool {
    exists|s: Seq<char>| reg.contains_key(s) && (#[trigger] reg[s]).has(transport, id)
}

/// What holds of every registry that the engine keeps: each session is
/// coherent, and no identifier names transports of one kind in two sessions.
pub open spec fn registry_wf(reg: RegistryView) -> bool {
    &&& forall|s: Seq<char>| reg.contains_key(s) ==> (#[trigger] reg[s]).coherent()
    &&& forall|s1: Seq<char>, s2: Seq<char>, t: Transport, id: Seq<char>|
        reg.contains_key(s1) && reg.contains_key(s2) && (#[trigger] reg[s1].has(t, id))
            && (#[trigger] reg[s2].has(t, id)) ==> s1 == s2
}

/// The registry with a session under an identifier: the one it has, or else a
/// new, empty one.
pub open spec fn with_session(reg: RegistryView, session_id: Seq<char>) -> RegistryView {
    if reg.contains_key(session_id) {
        reg
    } else {
        reg.insert(session_id, SessionView::empty())
    }
}

/// Registers a transport that the peer connection has answered for.
///
/// A fault is reported and changes nothing. Otherwise the session is looked
/// up or made; if its lock is held the caller waits; an identifier that the
/// registry already knows is refused; else the transport is added, stable,
/// and the answer goes out with the identifier.
pub open spec fn create_step(
    reg: RegistryView,
    transport: Transport,
    id: Seq<char>,
    outcome: Result<Seq<char>, Fault>,
    session_id: Seq<char>,
) -> Step {
    match outcome {
        Err(fault) => Step { registry: reg, action: ActionView::Fail(fault_error(fault)) },
        Ok(answer) => {
            if reg.contains_key(session_id) && !reg[session_id].idle() {
                Step { registry: reg, action: ActionView::Wait }
            } else if knows(reg, transport, id) {
                Step { registry: reg, action: ActionView::Fail(SfuError::EngineInit) }
            } else {
                Step {
                    registry: reg.insert(
                        session_id,
                        with_session(reg, session_id)[session_id].with_transport(transport, id),
                    ),
                    action: ActionView::Reply(created_response(transport, answer, id)),
                }
            }
        },
    }
}

/// Starts a renegotiation that a client asks for.
pub open spec fn renegotiate_step(
    reg: RegistryView,
    offer: Seq<char>,
    offer_ok: bool,
    publisher_id: Seq<char>,
    session_id: Seq<char>,
) -> Step {
    if !reg.contains_key(session_id) {
        Step { registry: reg, action: ActionView::Fail(SfuError::SessionNotFound) }
    } else if !reg[session_id].publishers.contains_key(publisher_id) {
        Step { registry: reg, action: ActionView::Fail(SfuError::PublisherNotFound) }
    } else if !offer_ok {
        Step { registry: reg, action: ActionView::Fail(SfuError::InvalidOffer) }
    } else if !reg[session_id].idle() {
        Step { registry: reg, action: ActionView::Wait }
    } else {
        Step {
            registry: reg.insert(
                session_id,
                reg[session_id].held_by(
                    Transport::PUBLISHER,
                    publisher_id,
                    NegotiationState::Negotiating,
                ),
            ),
            action: ActionView::Answer { publisher_id, offer },
        }
    }
}

/// Starts a renegotiation that the server offers, for a transport whose peer
/// connection asks for one.
pub open spec fn server_offer_step(
    reg: RegistryView,
    transport: Transport,
    id: Seq<char>,
    session_id: Seq<char>,
) -> Step {
    if !reg.contains_key(session_id) {
        Step { registry: reg, action: ActionView::Fail(SfuError::SessionNotFound) }
    } else if !reg[session_id].has(transport, id) {
        Step { registry: reg, action: ActionView::Fail(not_found(transport)) }
    } else if !reg[session_id].idle() {
        Step { registry: reg, action: ActionView::Wait }
    } else {
        Step {
            registry: reg.insert(
                session_id,
                reg[session_id].held_by(transport, id, NegotiationState::ServerOffering),
            ),
            action: ActionView::Offer { transport, id },
        }
    }
}

/// Ends the exchange that a transport holds the session's lock for.
///
/// `during` is the phase of that exchange. A result for a transport that is
/// not in it comes too late, or was never asked for, and changes nothing.
pub open spec fn finish_step(
    reg: RegistryView,
    during: NegotiationState,
    outcome: Result<Seq<char>, Fault>,
    transport: Transport,
    id: Seq<char>,
    session_id: Seq<char>,
) -> Step {
    if !reg.contains_key(session_id) {
        Step { registry: reg, action: ActionView::Fail(SfuError::SessionNotFound) }
    } else if !reg[session_id].has(transport, id) {
        Step { registry: reg, action: ActionView::Fail(not_found(transport)) }
    } else if reg[session_id].holder != Some((transport, id)) || reg[session_id].state_of(
        transport,
        id,
    ) != during {
        Step { registry: reg, action: ActionView::Fail(SfuError::NegotiationTimeout) }
    } else {
        Step {
            registry: reg.insert(session_id, reg[session_id].released()),
            action: match outcome {
                Ok(sdp) => ActionView::Reply(negotiated_response(sdp)),
                Err(fault) => ActionView::Fail(fault_error(fault)),
            },
        }
    }
}

/// Forwards a publisher's tracks to a subscriber of the same session, and
/// starts the renegotiation that this asks of the subscriber.
pub open spec fn subscribe_step(
    reg: RegistryView,
    subscriber_id: Seq<char>,
    publisher_id: Seq<char>,
    session_id: Seq<char>,
) -> Step {
    if !reg.contains_key(session_id) {
        Step { registry: reg, action: ActionView::Fail(SfuError::SessionNotFound) }
    } else if !reg[session_id].subscribers.contains_key(subscriber_id) {
        Step { registry: reg, action: ActionView::Fail(SfuError::SubscriberNotFound) }
    } else if !reg[session_id].publishers.contains_key(publisher_id) {
        Step { registry: reg, action: ActionView::Fail(SfuError::PublisherNotFound) }
    } else if !reg[session_id].idle() {
        Step { registry: reg, action: ActionView::Wait }
    } else {
        Step {
            registry: reg.insert(
                session_id,
                reg[session_id].with_source(subscriber_id, publisher_id).held_by(
                    Transport::SUBSCRIBER,
                    subscriber_id,
                    NegotiationState::ServerOffering,
                ),
            ),
            action: ActionView::Offer { transport: Transport::SUBSCRIBER, id: subscriber_id },
        }
    }
}

} // verus!
