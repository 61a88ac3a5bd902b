//! A subscriber: a transport that receives media forwarded by the server.

use vstd::prelude::*;
use crate::negotiation::{next_state, state_after, NegotiationEvent, NegotiationState};
use crate::sfu::model::SubscriberView;

verus! {

/// The engine's record of one subscriber: the phase of its exchange, and the
/// publishers whose tracks it is forwarded.
#[derive(Debug, PartialEq, Eq)]
pub struct Subscriber {
    state: NegotiationState,
    sources: Vec<String>,
}

impl View for Subscriber {
    type V = SubscriberView;

    closed spec fn view(&self) -> SubscriberView {
        SubscriberView {
            state: self.state,
            sources: Set::new(
                |p: Seq<char>|
                    exists|i: int| 0 <= i < self.sources@.len() && (#[trigger] self.sources@[i])@ == p,
            ),
        }
    }
}

impl Subscriber {
    #[verifier::type_invariant]
    spec fn initialized(&self) -> bool {
        self.state != NegotiationState::Uninitialized
    }

    /// The subscriber that a client's offer creates: its peer connection is at
    /// work on the offer, and no publisher is forwarded to it yet.
    pub fn new() -> (subscriber: Subscriber)
        ensures
            subscriber@.state == NegotiationState::Negotiating,
            subscriber@.sources == Set::<Seq<char>>::empty(),
    {
        let subscriber = Subscriber { state: NegotiationState::Negotiating, sources: Vec::new() };
        assert(subscriber@.sources =~= Set::<Seq<char>>::empty());
        subscriber
    }

    /// The phase of the subscriber's exchange.
    pub fn state(&self) -> (state: NegotiationState)
        ensures
            state == self@.state,
            state != NegotiationState::Uninitialized,
    {
        proof {
            use_type_invariant(self);
        }
        self.state
    }

    /// Whether the tracks of a publisher are forwarded to the subscriber.
    pub fn forwards(&self, publisher_id: &String) -> (found: bool)
        ensures
            found == self@.sources.contains(publisher_id@),
    {
        let mut i: usize = 0;
        while i < self.sources.len()
            invariant
                i <= self.sources@.len(),
                forall|j: int| 0 <= j < i ==> (#[trigger] self.sources@[j])@ != publisher_id@,
            decreases self.sources@.len() - i,
        {
            if self.sources[i] == *publisher_id {
                return true;
            }
            i = i + 1;
        }
        false
    }

    /// Lets an event act on the subscriber: it moves as the state machine
    /// says, and stays as it is where the state machine has no such
    /// transition. Returns whether it moved.
    pub fn on(&mut self, event: NegotiationEvent) -> (moved: bool)
        ensures
            moved == next_state(old(self)@.state, event) is Some,
            final(self)@.sources == old(self)@.sources,
            final(self)@.state == state_after(old(self)@.state, event),
    {
        match self.state.advance(event) {
            Some(next) => {
                self.state = next;
                assert(self@.sources =~= old(self)@.sources);
                true
            },
            None => false,
        }
    }

    /// Adds a publisher to those whose tracks the subscriber is forwarded.
    pub(crate) fn add_source(&mut self, publisher_id: String)
        ensures
            final(self)@.state == old(self)@.state,
            final(self)@.sources == old(self)@.sources.insert(publisher_id@),
    {
        proof {
            use_type_invariant(&*self);
        }
        if !self.forwards(&publisher_id) {
            let ghost before = self.sources@;
            let mut sources: Vec<String> = Vec::new();
            std::mem::swap(&mut sources, &mut self.sources);
            sources.push(publisher_id);
            self.sources = sources;
            proof {
                let n = before.len() as int;
                assert(self.sources@[n]@ == publisher_id@);
                assert forall|p: Seq<char>| self@.sources.contains(p) implies old(
                    self,
                )@.sources.insert(publisher_id@).contains(p) by {
                    let i = choose|i: int|
                        0 <= i < self.sources@.len() && (#[trigger] self.sources@[i])@ == p;
                    if i < n {
                        assert(before[i]@ == p);
                    }
                }
                assert forall|p: Seq<char>|
                    old(self)@.sources.insert(publisher_id@).contains(
                        p,
                    ) implies self@.sources.contains(p) by {
                    if p != publisher_id@ {
                        let i = choose|i: int| 0 <= i < before.len() && (#[trigger] before[i])@ == p;
                        assert(self.sources@[i]@ == p);
                    }
                }
            }
        }
        assert(self@.sources =~= old(self)@.sources.insert(publisher_id@));
    }
}

} // verus!
