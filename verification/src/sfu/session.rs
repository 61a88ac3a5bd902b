//! A session: the publishers and subscribers of one call.

use vstd::prelude::*;
use crate::error::SfuError;
use crate::negotiation::{state_after, NegotiationEvent, NegotiationState};
use crate::sfu::model::{SessionView, SubscriberView};
use crate::sfu::publisher::Publisher;
use crate::sfu::subscriber::Subscriber;
use crate::signalling::Transport;
use crate::table::Table;

verus! {

struct Holder {
    transport: Transport,
    id: String,
}

/// The transports of one call, each under its identifier, and the transport,
/// if any, that holds the session's lock. A subscriber of a session is
/// forwarded tracks of publishers of that session only.
pub struct Session {
    publishers: Table<Publisher>,
    subscribers: Table<Subscriber>,
    holder: Option<Holder>,
}

impl View for Session {
    type V = SessionView;

    closed spec fn view(&self) -> SessionView {
        view_of(self.publishers, self.subscribers, self.holder)
    }
}

/// The session that the parts of a `Session` stand for.
spec fn view_of(
    publishers: Table<Publisher>,
    subscribers: Table<Subscriber>,
    holder: Option<Holder>,
) -> SessionView {
    SessionView {
        publishers: publishers@.map_values(|p: Publisher| p@),
        subscribers: subscribers@.map_values(|s: Subscriber| s@),
        holder: match holder {
            Some(h) => Some((h.transport, h.id@)),
            None => None,
        },
    }
}

impl Session {
    #[verifier::type_invariant]
    spec fn sources_known(&self) -> bool {
        self@.sources_in_session()
    }

    /// A session without transports.
    pub fn new() -> (session: Session)
        ensures
            session@ == SessionView::empty(),
    {
        let session = Session { publishers: Table::new(), subscribers: Table::new(), holder: None };
        assert(session@.publishers =~= Map::empty());
        assert(session@.subscribers =~= Map::empty());
        session
    }

    /// The publisher under an identifier.
    pub fn get_publisher(&self, id: String) -> (found: Result<&Publisher, SfuError>)
        ensures
            match found {
                Ok(publisher) => self@.publishers.contains_key(id@) && publisher@
                    == self@.publishers[id@],
                Err(e) => e == SfuError::PublisherNotFound && !self@.publishers.contains_key(id@),
            },
    {
        match self.publishers.get(&id) {
            Some(publisher) => Ok(publisher),
            None => Err(SfuError::PublisherNotFound),
        }
    }

    /// The subscriber under an identifier.
    pub fn get_subscriber(&self, id: String) -> (found: Result<&Subscriber, SfuError>)
        ensures
            match found {
                Ok(subscriber) => self@.subscribers.contains_key(id@) && subscriber@
                    == self@.subscribers[id@],
                Err(e) => e == SfuError::SubscriberNotFound && !self@.subscribers.contains_key(id@),
            },
    {
        match self.subscribers.get(&id) {
            Some(subscriber) => Ok(subscriber),
            None => Err(SfuError::SubscriberNotFound),
        }
    }

    /// Puts a publisher under an identifier, in place of the one that was
    /// there, if any.
    pub fn insert_publisher(&mut self, id: String, publisher: Publisher)
        ensures
            final(self)@ == (SessionView {
                publishers: old(self)@.publishers.insert(id@, publisher@),
                ..old(self)@
            }),
    {
        let mut taken = Session::new();
        std::mem::swap(self, &mut taken);
        proof {
            use_type_invariant(&taken);
        }
        let Session { publishers, subscribers, holder } = taken;
        let mut publishers = publishers;
        publishers.insert(id, publisher);
        proof {
            let after = view_of(publishers, subscribers, holder);
            assert(after.publishers =~= old(self)@.publishers.insert(id@, publisher@));
            assert(after.sources_in_session());
        }
        *self = Session { publishers, subscribers, holder };
    }

    /// Puts a subscriber under an identifier, in place of the one that was
    /// there, if any. The publishers that are forwarded to it are publishers
    /// of this session.
    pub fn insert_subscriber(&mut self, id: String, subscriber: Subscriber)
        requires
            subscriber@.sources.subset_of(old(self)@.publishers.dom()),
        ensures
            final(self)@ == (SessionView {
                subscribers: old(self)@.subscribers.insert(id@, subscriber@),
                ..old(self)@
            }),
    {
        let mut taken = Session::new();
        std::mem::swap(self, &mut taken);
        proof {
            use_type_invariant(&taken);
        }
        let Session { publishers, subscribers, holder } = taken;
        let mut subscribers = subscribers;
        subscribers.insert(id, subscriber);
        proof {
            let after = view_of(publishers, subscribers, holder);
            assert(after.subscribers =~= old(self)@.subscribers.insert(id@, subscriber@));
            assert(after.sources_in_session());
        }
        *self = Session { publishers, subscribers, holder };
    }

    /// Whether the session's lock is free.
    pub fn is_idle(&self) -> (idle: bool)
        ensures
            idle == self@.idle(),
    {
        self.holder.is_none()
    }

    /// Whether the session holds a transport.
    pub fn has(&self, transport: Transport, id: &String) -> (found: bool)
        ensures
            found == self@.has(transport, id@),
    {
        match transport {
            Transport::PUBLISHER => self.publishers.contains_key(id),
            Transport::SUBSCRIBER => self.subscribers.contains_key(id),
        }
    }

    /// The phase of a transport; `Uninitialized` for one the session does not
    /// hold.
    pub fn state_of(&self, transport: Transport, id: &String) -> (state: NegotiationState)
        ensures
            state == self@.state_of(transport, id@),
    {
        match transport {
            Transport::PUBLISHER => match self.publishers.get(id) {
                Some(publisher) => publisher.state(),
                None => NegotiationState::Uninitialized,
            },
            Transport::SUBSCRIBER => match self.subscribers.get(id) {
                Some(subscriber) => subscriber.state(),
                None => NegotiationState::Uninitialized,
            },
        }
    }

    /// Adds a new transport, stable and, for a subscriber, without sources.
    pub(crate) fn enrol(&mut self, transport: Transport, id: String)
        ensures
            final(self)@ == old(self)@.with_transport(transport, id@),
    {
        match transport {
            Transport::PUBLISHER => {
                let mut publisher = Publisher::new();
                publisher.on(NegotiationEvent::AnswerProduced);
                self.insert_publisher(id, publisher);
            },
            Transport::SUBSCRIBER => {
                let mut subscriber = Subscriber::new();
                subscriber.on(NegotiationEvent::AnswerProduced);
                self.insert_subscriber(id, subscriber);
                assert(self@.subscribers =~= old(self)@.with_transport(transport, id@).subscribers);
            },
        }
    }

    /// Lets an event act on a transport of the session.
    fn transition(&mut self, transport: Transport, id: &String, event: NegotiationEvent)
        requires
            old(self)@.has(transport, id@),
        ensures
            final(self)@ == old(self)@.with_state(
                transport,
                id@,
                state_after(old(self)@.state_of(transport, id@), event),
            ),
    {
        let mut taken = Session::new();
        std::mem::swap(self, &mut taken);
        proof {
            use_type_invariant(&taken);
        }
        let Session { publishers, subscribers, holder } = taken;
        let mut publishers = publishers;
        let mut subscribers = subscribers;
        match transport {
            Transport::PUBLISHER => {
                if let Some(publisher) = publishers.remove(id) {
                    let mut publisher = publisher;
                    publisher.on(event);
                    publishers.insert(id.clone(), publisher);
                }
            },
            Transport::SUBSCRIBER => {
                if let Some(subscriber) = subscribers.remove(id) {
                    let mut subscriber = subscriber;
                    subscriber.on(event);
                    subscribers.insert(id.clone(), subscriber);
                }
            },
        }
        proof {
            let after = view_of(publishers, subscribers, holder);
            let wanted = old(self)@.with_state(
                transport,
                id@,
                state_after(old(self)@.state_of(transport, id@), event),
            );
            assert(after.publishers =~= wanted.publishers);
            assert(after.subscribers =~= wanted.subscribers);
            assert(after.sources_in_session());
        }
        *self = Session { publishers, subscribers, holder };
    }

    /// Gives the session's lock to a transport, which an event moves into an
    /// exchange.
    pub(crate) fn hold(&mut self, transport: Transport, id: &String, event: NegotiationEvent)
        requires
            old(self)@.has(transport, id@),
        ensures
            final(self)@ == old(self)@.held_by(
                transport,
                id@,
                state_after(old(self)@.state_of(transport, id@), event),
            ),
    {
        self.transition(transport, id, event);
        let mut taken = Session::new();
        std::mem::swap(self, &mut taken);
        proof {
            use_type_invariant(&taken);
        }
        let Session { publishers, subscribers, holder: _ } = taken;
        *self = Session {
            publishers,
            subscribers,
            holder: Some(Holder { transport, id: id.clone() }),
        };
    }

    /// Frees the session's lock, with the event that moves the transport which
    /// held it.
    pub(crate) fn release(&mut self, transport: Transport, id: &String, event: NegotiationEvent)
        requires
            old(self)@.has(transport, id@),
            old(self)@.holder == Some((transport, id@)),
        ensures
            final(self)@ == (SessionView {
                holder: None,
                ..old(self)@.with_state(
                    transport,
                    id@,
                    state_after(old(self)@.state_of(transport, id@), event),
                )
            }),
    {
        self.transition(transport, id, event);
        let mut taken = Session::new();
        std::mem::swap(self, &mut taken);
        proof {
            use_type_invariant(&taken);
        }
        let Session { publishers, subscribers, holder: _ } = taken;
        *self = Session { publishers, subscribers, holder: None };
    }

    /// Adds a publisher of the session to the sources of one of its
    /// subscribers.
    pub(crate) fn add_source(&mut self, subscriber_id: &String, publisher_id: String)
        requires
            old(self)@.subscribers.contains_key(subscriber_id@),
            old(self)@.publishers.contains_key(publisher_id@),
        ensures
            final(self)@ == old(self)@.with_source(subscriber_id@, publisher_id@),
    {
        let mut taken = Session::new();
        std::mem::swap(self, &mut taken);
        proof {
            use_type_invariant(&taken);
        }
        let Session { publishers, subscribers, holder } = taken;
        let mut subscribers = subscribers;
        if let Some(subscriber) = subscribers.remove(subscriber_id) {
            let mut subscriber = subscriber;
            subscriber.add_source(publisher_id);
            subscribers.insert(subscriber_id.clone(), subscriber);
        }
        proof {
            let after = view_of(publishers, subscribers, holder);
            let wanted = old(self)@.with_source(subscriber_id@, publisher_id@);
            assert(after.subscribers[subscriber_id@].sources =~= wanted.subscribers[subscriber_id@].sources);
            assert(after.subscribers =~= wanted.subscribers);
            assert(after.sources_in_session());
        }
        *self = Session { publishers, subscribers, holder };
    }

    /// Whether a transport holds the session's lock.
    pub fn is_held_by(&self, transport: Transport, id: &String) -> (held: bool)
        ensures
            held == (self@.holder == Some((transport, id@))),
    {
        match &self.holder {
            Some(h) => h.transport == transport && h.id == *id,
            None => false,
        }
    }
}

} // verus!
