//! The selective-forwarding unit: the registry of sessions and the engine that
//! negotiates their transports.
//!
//! The engine never touches a peer connection. Each operation takes what has
//! happened, changes the registry, and answers with an [`Action`]: a response
//! for the client, a failure, work for the peer connection, or the request to
//! wait for a session's lock. The caller does the work and reports its outcome
//! with the next operation.

pub mod laws;
pub mod model;
pub mod publisher;
pub mod session;
pub mod subscriber;

use vstd::prelude::*;
use crate::error::SfuError;
use crate::ident::{is_uuid_text, random_uuid_text};
use crate::negotiation::{Fault, NegotiationEvent, NegotiationState};
use crate::sdp::{offer_well_formed, parses_as_offer};
use crate::sfu::laws::{
    lemma_create_keeps_wf,
    lemma_remove_keeps_wf,
    lemma_finish_keeps_wf,
    lemma_renegotiate_keeps_wf,
    lemma_server_offer_keeps_wf,
    lemma_subscribe_keeps_wf,
};
use crate::sfu::model::{
    create_step,
    created_response,
    finish_step,
    knows,
    negotiated_response,
    not_found,
    registry_wf,
    renegotiate_step,
    server_offer_step,
    subscribe_step,
    with_session,
    ActionView,
    RegistryView,
    SessionView,
};
use crate::sfu::session::Session;
use crate::signalling::{SocketResponse, Transport};
use crate::table::Table;

verus! {

/// What the engine asks of its caller.
#[derive(Clone, Debug, PartialEq, Eq)]
pub enum Action {
    /// Send the response to the client.
    Reply(SocketResponse),
    /// The operation failed, and nothing was changed.
    Fail(SfuError),
    /// Construct a peer connection for a new transport, apply the offer as
    /// its remote description and ask it for an answer; report with
    /// `create_publisher` or `create_subscriber`.
    Open { transport: Transport, offer: String },
    /// Apply the offer as the new remote description of the publisher's peer
    /// connection and ask it for an answer; report with `answer_produced`.
    Answer { publisher_id: String, offer: String },
    /// Ask the transport's peer connection for an offer and set it as its
    /// local description; report with `offer_delivered`.
    Offer { transport: Transport, id: String },
    /// The session's lock is held: ask again when the exchange that holds it
    /// has ended.
    Wait,
}

impl View for Action {
    type V = ActionView;

    open spec fn view(&self) -> ActionView {
        match self {
            Action::Reply(response) => ActionView::Reply(response@),
            Action::Fail(e) => ActionView::Fail(*e),
            Action::Open { transport, offer } => ActionView::Open {
                transport: *transport,
                offer: offer@,
            },
            Action::Answer { publisher_id, offer } => ActionView::Answer {
                publisher_id: publisher_id@,
                offer: offer@,
            },
            Action::Offer { transport, id } => ActionView::Offer { transport: *transport, id: id@ },
            Action::Wait => ActionView::Wait,
        }
    }
}

/// What a peer connection reported, as a value of characters.
pub open spec fn outcome_view(outcome: Result<String, Fault>) -> Result<Seq<char>, Fault> {
    match outcome {
        Ok(sdp) => Ok(sdp@),
        Err(fault) => Err(fault),
    }
}

/// The registry of sessions, and the negotiation engine that works on it.
pub struct SFU {
    sessions: Table<Session>,
}

impl View for SFU {
    type V = RegistryView;

    closed spec fn view(&self) -> RegistryView {
        registry_of(self.sessions)
    }
}

/// The registry that a table of sessions stands for.
spec fn registry_of(sessions: Table<Session>) -> RegistryView {
    sessions@.map_values(|s: Session| s@)
}

/// The failure for a transport that a session does not hold.
fn missing(transport: Transport) -> (e: SfuError)
    ensures
        e == not_found(transport),
{
    match transport {
        Transport::PUBLISHER => SfuError::PublisherNotFound,
        Transport::SUBSCRIBER => SfuError::SubscriberNotFound,
    }
}

/// The response to the creation of a transport.
fn created(transport: Transport, answer: String, id: String) -> (response: SocketResponse)
    ensures
        response@ == created_response(transport, answer@, id@),
{
    match transport {
        Transport::PUBLISHER => SocketResponse::CreateTransportRes {
            answer,
            publisher_id: id,
            kind: "PUBLISHER_CREATED".to_owned(),
        },
        Transport::SUBSCRIBER => SocketResponse::CreateSubscriberRes {
            answer,
            subscriber_id: id,
            kind: "SUBSCRIBER_CREATED".to_owned(),
        },
    }
}

/// The response that carries the description an exchange came to.
fn negotiated(sdp: String) -> (response: SocketResponse)
    ensures
        response@ == negotiated_response(sdp@),
{
    SocketResponse::RenegotiateRes { sdp, kind: "NEGOTIATION_DONE".to_owned() }
}

impl SFU {
    #[verifier::type_invariant]
    spec fn well_formed(&self) -> bool {
        registry_wf(self@)
    }

    /// A registry without sessions.
    pub fn new() -> (sfu: SFU)
        ensures
            sfu@ == Map::<Seq<char>, SessionView>::empty(),
            registry_wf(sfu@),
    {
        let sessions: Table<Session> = Table::new();
        assert(registry_of(sessions) =~= Map::empty());
        SFU { sessions }
    }

    /// The session under an identifier, made first if the registry has none:
    /// whoever asks for an identifier is given the one session of that name.
    pub fn get_session(&mut self, id: &String) -> (session: &Session)
        ensures
            final(self)@ == with_session(old(self)@, id@),
            session@ == final(self)@[id@],
            registry_wf(final(self)@),
    {
        proof {
            use_type_invariant(&*self);
        }
        if !self.sessions.contains_key(id) {
            let mut sessions: Table<Session> = Table::new();
            std::mem::swap(&mut sessions, &mut self.sessions);
            sessions.insert(id.clone(), Session::new());
            proof {
                assert(registry_of(sessions) =~= with_session(old(self)@, id@));
            }
            self.sessions = sessions;
        }
        match self.sessions.get(id) {
            Some(session) => session,
            None => vstd::pervasive::unreached(),
        }
    }

    /// The session under an identifier, if the registry has one.
    pub fn find_session(&self, id: &String) -> (found: Result<&Session, SfuError>)
        ensures
            match found {
                Ok(session) => self@.contains_key(id@) && session@ == self@[id@],
                Err(e) => e == SfuError::SessionNotFound && !self@.contains_key(id@),
            },
    {
        match self.sessions.get(id) {
            Some(session) => Ok(session),
            None => Err(SfuError::SessionNotFound),
        }
    }

    /// Whether some session holds a transport under an identifier.
    pub fn knows(&self, transport: Transport, id: &String) -> (known: bool)
        ensures
            known == knows(self@, transport, id@),
    {
        let n = self.sessions.len();
        let mut i: usize = 0;
        while i < n
            invariant
                i <= n,
                n == self.sessions.keys().len(),
                forall|k: Seq<char>| self.sessions@.contains_key(k) <==> self.sessions.keys().contains(k),
                forall|j: int|
                    0 <= j < i ==> !(#[trigger] self@[self.sessions.keys()[j]]).has(transport, id@),
            decreases n - i,
        {
            let session = self.sessions.value_at(i);
            if session.has(transport, id) {
                assert(self@.contains_key(self.sessions.keys()[i as int]));
                assert(self@[self.sessions.keys()[i as int]].has(transport, id@));
                return true;
            }
            i = i + 1;
        }
        proof {
            assert forall|s: Seq<char>| self@.contains_key(s) implies !(#[trigger] self@[s]).has(
                transport,
                id@,
            ) by {
                assert(self.sessions.keys().contains(s));
                let j = choose|j: int|
                    0 <= j < self.sessions.keys().len() && self.sessions.keys()[j] == s;
                assert(!self@[self.sessions.keys()[j]].has(transport, id@));
            }
        }
        false
    }

    /// Puts a changed session back in the place of the one under an
    /// identifier.
    fn replace(&mut self, session_id: &String, session: Session)
        requires
            registry_wf(old(self)@.insert(session_id@, session@)),
        ensures
            final(self)@ == old(self)@.insert(session_id@, session@),
    {
        let mut sessions: Table<Session> = Table::new();
        std::mem::swap(&mut sessions, &mut self.sessions);
        sessions.insert(session_id.clone(), session);
        proof {
            assert(registry_of(sessions) =~= old(self)@.insert(session_id@, session@));
        }
        self.sessions = sessions;
    }

    /// Takes the session under an identifier out of the registry.
    fn take(&mut self, session_id: &String) -> (session: Option<Session>)
        ensures
            final(self)@ == old(self)@.remove(session_id@),
            match session {
                Some(s) => old(self)@.contains_key(session_id@) && s@ == old(self)@[session_id@],
                None => !old(self)@.contains_key(session_id@),
            },
    {
        proof {
            use_type_invariant(&*self);
        }
        let mut sessions: Table<Session> = Table::new();
        std::mem::swap(&mut sessions, &mut self.sessions);
        let session = sessions.remove(session_id);
        proof {
            assert(registry_of(sessions) =~= old(self)@.remove(session_id@));
            lemma_remove_keeps_wf(old(self)@, session_id@);
        }
        self.sessions = sessions;
        session
    }

    /// Registers a transport under an identifier of the caller's choice, once
    /// its peer connection has reported on the client's offer.
    ///
    /// A fault is handed on as the failure it stands for: `InvalidOffer` where
    /// the peer connection refused the offer, `EngineInit` where it could not
    /// be constructed, `NegotiationTimeout` where it did not finish in time.
    /// With an answer, the transport is added to the session of that name,
    /// which is made if the registry has none, and the response carries the
    /// answer and the identifier. While the session's lock is held the caller
    /// waits. An identifier that names a transport of this kind anywhere in
    /// the registry is refused with `EngineInit`.
    pub fn create_transport(
        &mut self,
        transport: Transport,
        id: String,
        outcome: Result<String, Fault>,
        session_id: &String,
    ) -> (action: Action)
        ensures
            final(self)@ == create_step(
                old(self)@,
                transport,
                id@,
                outcome_view(outcome),
                session_id@,
            ).registry,
            action@ == create_step(
                old(self)@,
                transport,
                id@,
                outcome_view(outcome),
                session_id@,
            ).action,
            registry_wf(final(self)@),
    {
        proof {
            use_type_invariant(&*self);
            lemma_create_keeps_wf(old(self)@, transport, id@, outcome_view(outcome), session_id@);
        }
        match outcome {
            Err(fault) => Action::Fail(fault.error()),
            Ok(answer) => {
                let busy = match self.sessions.get(session_id) {
                    Some(session) => !session.is_idle(),
                    None => false,
                };
                if busy {
                    return Action::Wait;
                }
                if self.knows(transport, &id) {
                    return Action::Fail(SfuError::EngineInit);
                }
                let ghost before = self@;
                let mut session = match self.take(session_id) {
                    Some(session) => session,
                    None => Session::new(),
                };
                session.enrol(transport, id.clone());
                proof {
                    assert(before.insert(session_id@, session@) =~= self@.insert(
                        session_id@,
                        session@,
                    ));
                }
                self.replace(session_id, session);
                Action::Reply(created(transport, answer, id))
            },
        }
    }

    /// Registers a publisher under a fresh random identifier, once its peer
    /// connection has reported on the client's offer: `create_transport` for
    /// a publisher, with an identifier in the text form of a version 4 UUID.
    pub fn create_publisher(&mut self, outcome: Result<String, Fault>, session_id: &String) -> (action:
        Action)
        ensures
            exists|id: Seq<char>|
                is_uuid_text(id) && final(self)@ == (#[trigger] create_step(
                    old(self)@,
                    Transport::PUBLISHER,
                    id,
                    outcome_view(outcome),
                    session_id@,
                )).registry && action@ == create_step(
                    old(self)@,
                    Transport::PUBLISHER,
                    id,
                    outcome_view(outcome),
                    session_id@,
                ).action,
            registry_wf(final(self)@),
    {
        let id = random_uuid_text();
        self.create_transport(Transport::PUBLISHER, id, outcome, session_id)
    }

    /// Registers a subscriber under a fresh random identifier, once its peer
    /// connection has reported on the client's offer: `create_transport` for
    /// a subscriber, with an identifier in the text form of a version 4 UUID.
    pub fn create_subscriber(&mut self, outcome: Result<String, Fault>, session_id: &String) -> (action:
        Action)
        ensures
            exists|id: Seq<char>|
                is_uuid_text(id) && final(self)@ == (#[trigger] create_step(
                    old(self)@,
                    Transport::SUBSCRIBER,
                    id,
                    outcome_view(outcome),
                    session_id@,
                )).registry && action@ == create_step(
                    old(self)@,
                    Transport::SUBSCRIBER,
                    id,
                    outcome_view(outcome),
                    session_id@,
                ).action,
            registry_wf(final(self)@),
    {
        let id = random_uuid_text();
        self.create_transport(Transport::SUBSCRIBER, id, outcome, session_id)
    }

    /// Starts the renegotiation that a client asks of a publisher, given
    /// whether the client's offer is well formed.
    ///
    /// Fails with `SessionNotFound` where the registry has no such session,
    /// with `PublisherNotFound` where that session has no such publisher, with
    /// `InvalidOffer` where the offer is not well formed, in this order. While
    /// the session's lock is held the caller waits. Else the publisher takes
    /// the lock and is `Negotiating`, and the caller is to apply the offer and
    /// ask for the answer.
    pub fn renegotiate_checked(
        &mut self,
        offer: String,
        offer_ok: bool,
        publisher_id: String,
        session_id: &String,
    ) -> (action: Action)
        ensures
            final(self)@ == renegotiate_step(
                old(self)@,
                offer@,
                offer_ok,
                publisher_id@,
                session_id@,
            ).registry,
            action@ == renegotiate_step(
                old(self)@,
                offer@,
                offer_ok,
                publisher_id@,
                session_id@,
            ).action,
            registry_wf(final(self)@),
    {
        proof {
            use_type_invariant(&*self);
            lemma_renegotiate_keeps_wf(old(self)@, offer@, offer_ok, publisher_id@, session_id@);
        }
        match self.sessions.get(session_id) {
            None => {
                return Action::Fail(SfuError::SessionNotFound);
            },
            Some(session) => {
                if !session.has(Transport::PUBLISHER, &publisher_id) {
                    return Action::Fail(SfuError::PublisherNotFound);
                }
                if !offer_ok {
                    return Action::Fail(SfuError::InvalidOffer);
                }
                if !session.is_idle() {
                    return Action::Wait;
                }
            },
        }
        let ghost before = self@;
        match self.take(session_id) {
            Some(session) => {
                let mut session = session;
                assert(before[session_id@].coherent());
                session.hold(Transport::PUBLISHER, &publisher_id, NegotiationEvent::Renegotiate);
                proof {
                    assert(before.insert(session_id@, session@) =~= self@.insert(
                        session_id@,
                        session@,
                    ));
                }
                self.replace(session_id, session);
            },
            None => {},
        }
        Action::Answer { publisher_id, offer }
    }

    /// Starts the renegotiation that a client asks of a publisher: the offer
    /// is put to the WebRTC engine's parser, and `renegotiate_checked` does
    /// the rest.
    pub fn renegotiate(&mut self, offer: String, publisher_id: String, session_id: &String) -> (action:
        Action)
        ensures
            final(self)@ == renegotiate_step(
                old(self)@,
                offer@,
                offer_well_formed(offer@),
                publisher_id@,
                session_id@,
            ).registry,
            action@ == renegotiate_step(
                old(self)@,
                offer@,
                offer_well_formed(offer@),
                publisher_id@,
                session_id@,
            ).action,
            registry_wf(final(self)@),
    {
        let offer_ok = parses_as_offer(offer.as_str());
        self.renegotiate_checked(offer, offer_ok, publisher_id, session_id)
    }

    /// Starts the renegotiation that the server offers to a transport.
    fn server_offer(&mut self, transport: Transport, id: String, session_id: &String) -> (action:
        Action)
        ensures
            final(self)@ == server_offer_step(old(self)@, transport, id@, session_id@).registry,
            action@ == server_offer_step(old(self)@, transport, id@, session_id@).action,
            registry_wf(final(self)@),
    {
        proof {
            use_type_invariant(&*self);
            lemma_server_offer_keeps_wf(old(self)@, transport, id@, session_id@);
        }
        match self.sessions.get(session_id) {
            None => {
                return Action::Fail(SfuError::SessionNotFound);
            },
            Some(session) => {
                if !session.has(transport, &id) {
                    return Action::Fail(missing(transport));
                }
                if !session.is_idle() {
                    return Action::Wait;
                }
            },
        }
        let ghost before = self@;
        match self.take(session_id) {
            Some(session) => {
                let mut session = session;
                assert(before[session_id@].coherent());
                assert(before[session_id@].state_of(transport, id@) == NegotiationState::Stable);
                session.hold(transport, &id, NegotiationEvent::NegotiationNeeded);
                proof {
                    assert(before.insert(session_id@, session@) =~= self@.insert(
                        session_id@,
                        session@,
                    ));
                }
                self.replace(session_id, session);
            },
            None => {},
        }
        Action::Offer { transport, id }
    }

    /// Starts the renegotiation that a publisher's peer connection asks the
    /// server to offer.
    ///
    /// Fails with `SessionNotFound` where the registry has no such session and
    /// with `PublisherNotFound` where that session has no such publisher.
    /// While the session's lock is held the caller waits. Else the publisher
    /// takes the lock and is `ServerOffering`, and the caller is to ask its
    /// peer connection for the offer.
    pub fn renegotiate_server(&mut self, publisher_id: String, session_id: &String) -> (action:
        Action)
        ensures
            final(self)@ == server_offer_step(
                old(self)@,
                Transport::PUBLISHER,
                publisher_id@,
                session_id@,
            ).registry,
            action@ == server_offer_step(
                old(self)@,
                Transport::PUBLISHER,
                publisher_id@,
                session_id@,
            ).action,
            registry_wf(final(self)@),
    {
        self.server_offer(Transport::PUBLISHER, publisher_id, session_id)
    }

    /// Forwards the tracks of a publisher to a subscriber of the same session,
    /// and starts the renegotiation that this asks of the subscriber.
    ///
    /// Fails with `SessionNotFound` where the registry has no such session,
    /// with `SubscriberNotFound` where that session has no such subscriber,
    /// with `PublisherNotFound` where it has no such publisher, in this order.
    /// While the session's lock is held the caller waits. Else the publisher
    /// is among the subscriber's sources, the subscriber takes the lock and is
    /// `ServerOffering`, and the caller is to ask its peer connection for the
    /// offer.
    pub fn subscribe_to_track(
        &mut self,
        subscriber_id: String,
        publisher_id: String,
        session_id: &String,
    ) -> (action: Action)
        ensures
            final(self)@ == subscribe_step(
                old(self)@,
                subscriber_id@,
                publisher_id@,
                session_id@,
            ).registry,
            action@ == subscribe_step(
                old(self)@,
                subscriber_id@,
                publisher_id@,
                session_id@,
            ).action,
            registry_wf(final(self)@),
    {
        proof {
            use_type_invariant(&*self);
            lemma_subscribe_keeps_wf(old(self)@, subscriber_id@, publisher_id@, session_id@);
        }
        match self.sessions.get(session_id) {
            None => {
                return Action::Fail(SfuError::SessionNotFound);
            },
            Some(session) => {
                if !session.has(Transport::SUBSCRIBER, &subscriber_id) {
                    return Action::Fail(SfuError::SubscriberNotFound);
                }
                if !session.has(Transport::PUBLISHER, &publisher_id) {
                    return Action::Fail(SfuError::PublisherNotFound);
                }
                if !session.is_idle() {
                    return Action::Wait;
                }
            },
        }
        let ghost before = self@;
        match self.take(session_id) {
            Some(session) => {
                let mut session = session;
                assert(before[session_id@].coherent());
                assert(before[session_id@].state_of(Transport::SUBSCRIBER, subscriber_id@)
                    == NegotiationState::Stable);
                session.add_source(&subscriber_id, publisher_id);
                session.hold(
                    Transport::SUBSCRIBER,
                    &subscriber_id,
                    NegotiationEvent::NegotiationNeeded,
                );
                proof {
                    assert(before.insert(session_id@, session@) =~= self@.insert(
                        session_id@,
                        session@,
                    ));
                }
                self.replace(session_id, session);
            },
            None => {},
        }
        Action::Offer { transport: Transport::SUBSCRIBER, id: subscriber_id }
    }

    /// Ends the exchange that a transport holds its session's lock for.
    fn finish(
        &mut self,
        during: NegotiationState,
        outcome: Result<String, Fault>,
        transport: Transport,
        id: &String,
        session_id: &String,
    ) -> (action: Action)
        requires
            during == NegotiationState::Negotiating || during == NegotiationState::ServerOffering,
        ensures
            final(self)@ == finish_step(
                old(self)@,
                during,
                outcome_view(outcome),
                transport,
                id@,
                session_id@,
            ).registry,
            action@ == finish_step(
                old(self)@,
                during,
                outcome_view(outcome),
                transport,
                id@,
                session_id@,
            ).action,
            registry_wf(final(self)@),
    {
        proof {
            use_type_invariant(&*self);
            lemma_finish_keeps_wf(
                old(self)@,
                during,
                outcome_view(outcome),
                transport,
                id@,
                session_id@,
            );
        }
        match self.sessions.get(session_id) {
            None => {
                return Action::Fail(SfuError::SessionNotFound);
            },
            Some(session) => {
                if !session.has(transport, id) {
                    return Action::Fail(missing(transport));
                }
                if !session.is_held_by(transport, id) || session.state_of(transport, id) != during {
                    return Action::Fail(SfuError::NegotiationTimeout);
                }
            },
        }
        let event = match &outcome {
            Ok(_) => match during {
                NegotiationState::Negotiating => NegotiationEvent::AnswerProduced,
                _ => NegotiationEvent::OfferDelivered,
            },
            Err(_) => NegotiationEvent::Failed,
        };
        let ghost before = self@;
        match self.take(session_id) {
            Some(session) => {
                let mut session = session;
                session.release(transport, id, event);
                proof {
                    assert(session@ == before[session_id@].released());
                    assert(before.insert(session_id@, session@) =~= self@.insert(
                        session_id@,
                        session@,
                    ));
                }
                self.replace(session_id, session);
            },
            None => {},
        }
        match outcome {
            Ok(sdp) => Action::Reply(negotiated(sdp)),
            Err(fault) => Action::Fail(fault.error()),
        }
    }

    /// Ends the renegotiation of a publisher with what its peer connection
    /// reported on the client's offer.
    ///
    /// Fails with `SessionNotFound` or `PublisherNotFound` where there is no
    /// such session or publisher, and with `NegotiationTimeout`, changing
    /// nothing, where the publisher is in no such exchange. Else the publisher
    /// is `Stable` again and the lock is free; with an answer the response
    /// carries it, and a fault is handed on as the failure it stands for.
    pub fn answer_produced(
        &mut self,
        outcome: Result<String, Fault>,
        publisher_id: &String,
        session_id: &String,
    ) -> (action: Action)
        ensures
            final(self)@ == finish_step(
                old(self)@,
                NegotiationState::Negotiating,
                outcome_view(outcome),
                Transport::PUBLISHER,
                publisher_id@,
                session_id@,
            ).registry,
            action@ == finish_step(
                old(self)@,
                NegotiationState::Negotiating,
                outcome_view(outcome),
                Transport::PUBLISHER,
                publisher_id@,
                session_id@,
            ).action,
            registry_wf(final(self)@),
    {
        self.finish(
            NegotiationState::Negotiating,
            outcome,
            Transport::PUBLISHER,
            publisher_id,
            session_id,
        )
    }

    /// Ends the renegotiation that the server offers to a transport, with the
    /// offer that its peer connection produced.
    ///
    /// Fails with `SessionNotFound`, or with `PublisherNotFound` or
    /// `SubscriberNotFound`, where there is no such session or transport, and
    /// with `NegotiationTimeout`, changing nothing, where the transport is in
    /// no such exchange. Else the transport is `Stable` again and the lock is
    /// free; with an offer the response carries it to the client, and a fault
    /// is handed on as the failure it stands for.
    pub fn offer_delivered(
        &mut self,
        outcome: Result<String, Fault>,
        transport: Transport,
        id: &String,
        session_id: &String,
    ) -> (action: Action)
        ensures
            final(self)@ == finish_step(
                old(self)@,
                NegotiationState::ServerOffering,
                outcome_view(outcome),
                transport,
                id@,
                session_id@,
            ).registry,
            action@ == finish_step(
                old(self)@,
                NegotiationState::ServerOffering,
                outcome_view(outcome),
                transport,
                id@,
                session_id@,
            ).action,
            registry_wf(final(self)@),
    {
        self.finish(NegotiationState::ServerOffering, outcome, transport, id, session_id)
    }
}

} // verus!
