//! The failures that the negotiation engine and the gateway report.

use vstd::prelude::*;

verus! {

/// Why an operation did not produce its response.
#[derive(Clone, Copy, Debug, PartialEq, Eq, Structural)]
pub enum SfuError {
    /// The offer is not a well-formed session description, or the peer
    /// connection refused it.
    InvalidOffer,
    /// The registry holds no session under the identifier.
    SessionNotFound,
    /// The session holds no publisher under the identifier.
    PublisherNotFound,
    /// The session holds no subscriber under the identifier.
    SubscriberNotFound,
    /// A transport for the request could not be set up.
    EngineInit,
    /// The exchange that a result belongs to is not, or no longer, pending.
    NegotiationTimeout,
    /// The message is not one of the request shapes.
    MalformedMessage,
}

impl SfuError {
    /// The name under which a failure is reported to a client.
    pub open spec fn spec_name(self) -> Seq<char> {
        match self {
            SfuError::InvalidOffer => "InvalidOfferError"@,
            SfuError::SessionNotFound => "SessionNotFound"@,
            SfuError::PublisherNotFound => "PublisherNotFound"@,
            SfuError::SubscriberNotFound => "SubscriberNotFound"@,
            SfuError::EngineInit => "EngineInitError"@,
            SfuError::NegotiationTimeout => "NegotiationTimeout"@,
            SfuError::MalformedMessage => "MalformedMessage"@,
        }
    }

    /// The name under which a failure is reported to a client.
    pub fn name(&self) -> (s: String)
        ensures
            s@ == self.spec_name(),
    {
        match self {
            SfuError::InvalidOffer => "InvalidOfferError".to_owned(),
            SfuError::SessionNotFound => "SessionNotFound".to_owned(),
            SfuError::PublisherNotFound => "PublisherNotFound".to_owned(),
            SfuError::SubscriberNotFound => "SubscriberNotFound".to_owned(),
            SfuError::EngineInit => "EngineInitError".to_owned(),
            SfuError::NegotiationTimeout => "NegotiationTimeout".to_owned(),
            SfuError::MalformedMessage => "MalformedMessage".to_owned(),
        }
    }

    /// The names of two failures differ unless the failures are the same.
    pub proof fn lemma_names_distinct(a: SfuError, b: SfuError)
        ensures
            a.spec_name() == b.spec_name() <==> a == b,
    {
        reveal_strlit("InvalidOfferError");
        reveal_strlit("SessionNotFound");
        reveal_strlit("PublisherNotFound");
        reveal_strlit("SubscriberNotFound");
        reveal_strlit("EngineInitError");
        reveal_strlit("NegotiationTimeout");
        reveal_strlit("MalformedMessage");
        if a != b {
            let x = a.spec_name();
            let y = b.spec_name();
            if x.len() == y.len() {
                assert(x[0] != y[0]);
            }
        }
    }
}

} // verus!
