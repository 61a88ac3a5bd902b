//! The signalling gateway: the messages that a client and the server exchange.
//!
//! A request is a JSON object, told apart by the members it has. A response
//! carries a `kind` that names its shape. Session descriptions travel as plain
//! strings.

pub mod wire;

use vstd::prelude::*;
use crate::error::SfuError;
use crate::sdp::{offer_well_formed, parses_as_offer};
use crate::sfu::model::{registry_wf, renegotiate_step, ActionView, RegistryView, Step};
use crate::sfu::{Action, SFU};
use crate::signalling::wire::{decode_message, decoded_request, request_view};

verus! {

/// The two directions of a media transport.
#[allow(non_camel_case_types)]
#[derive(Clone, Copy, Debug, PartialEq, Eq, Structural)]
pub enum Transport {
    /// A transport that sends media into the server.
    PUBLISHER,
    /// A transport that receives media forwarded by the server.
    SUBSCRIBER,
}

/// A request from a client.
#[derive(Clone, Debug, PartialEq, Eq)]
pub enum SocketMessage {
    /// Asks for a new transport, with the client's offer.
    CreateTransportReq { transport_type: Transport, offer: String },
    /// Asks an existing publisher to renegotiate, with the client's new offer.
    RenegotiateReq { offer: String, publisher_id: String },
}

/// A response to a client.
#[derive(Clone, Debug, PartialEq, Eq)]
pub enum SocketResponse {
    /// A publisher was created: the server's answer and the publisher's
    /// identifier.
    CreateTransportRes { answer: String, publisher_id: String, kind: String },
    /// An exchange on an existing transport came to its description: the
    /// server's answer, or the offer of a renegotiation that the server starts.
    RenegotiateRes { sdp: String, kind: String },
    /// A subscriber was created: the server's answer and the subscriber's
    /// identifier.
    CreateSubscriberRes { answer: String, subscriber_id: String, kind: String },
    /// The request failed, with the failure's name.
    ErrorRes { error: String, kind: String },
}

/// A request, as a value of characters.
pub enum SocketMessageView {
    CreateTransportReq { transport_type: Transport, offer: Seq<char> },
    RenegotiateReq { offer: Seq<char>, publisher_id: Seq<char> },
}

/// A response, as a value of characters.
pub enum SocketResponseView {
    CreateTransportRes { answer: Seq<char>, publisher_id: Seq<char>, kind: Seq<char> },
    RenegotiateRes { sdp: Seq<char>, kind: Seq<char> },
    CreateSubscriberRes { answer: Seq<char>, subscriber_id: Seq<char>, kind: Seq<char> },
    ErrorRes { error: Seq<char>, kind: Seq<char> },
}

impl View for SocketMessage {
    type V = SocketMessageView;

    open spec fn view(&self) -> SocketMessageView {
        match self {
            SocketMessage::CreateTransportReq { transport_type, offer } => {
                SocketMessageView::CreateTransportReq {
                    transport_type: *transport_type,
                    offer: offer@,
                }
            },
            SocketMessage::RenegotiateReq { offer, publisher_id } => {
                SocketMessageView::RenegotiateReq { offer: offer@, publisher_id: publisher_id@ }
            },
        }
    }
}

impl View for SocketResponse {
    type V = SocketResponseView;

    open spec fn view(&self) -> SocketResponseView {
        match self {
            SocketResponse::CreateTransportRes { answer, publisher_id, kind } => {
                SocketResponseView::CreateTransportRes {
                    answer: answer@,
                    publisher_id: publisher_id@,
                    kind: kind@,
                }
            },
            SocketResponse::RenegotiateRes { sdp, kind } => {
                SocketResponseView::RenegotiateRes { sdp: sdp@, kind: kind@ }
            },
            SocketResponse::CreateSubscriberRes { answer, subscriber_id, kind } => {
                SocketResponseView::CreateSubscriberRes {
                    answer: answer@,
                    subscriber_id: subscriber_id@,
                    kind: kind@,
                }
            },
            SocketResponse::ErrorRes { error, kind } => {
                SocketResponseView::ErrorRes { error: error@, kind: kind@ }
            },
        }
    }
}

/// The `kind` of the response to the creation of a publisher.
pub open spec fn kind_publisher_created() -> Seq<char> {
    "PUBLISHER_CREATED"@
}

/// The `kind` of the response that ends an exchange on an existing transport.
pub open spec fn kind_negotiation_done() -> Seq<char> {
    "NEGOTIATION_DONE"@
}

/// The `kind` of the response to the creation of a subscriber.
pub open spec fn kind_subscriber_created() -> Seq<char> {
    "SUBSCRIBER_CREATED"@
}

/// The `kind` of the response that reports a failure.
pub open spec fn kind_error() -> Seq<char> {
    "ERROR"@
}

impl SocketMessage {
    /// The offer that the request carries.
    pub fn offer(&self) -> (offer: &String)
        ensures
            offer@ == offer_of(self@),
    {
        match self {
            SocketMessage::CreateTransportReq { offer, .. } => offer,
            SocketMessage::RenegotiateReq { offer, .. } => offer,
        }
    }
}

/// The offer that a request carries.
pub open spec fn offer_of(message: SocketMessageView) -> Seq<char> {
    match message {
        SocketMessageView::CreateTransportReq { offer, .. } => offer,
        SocketMessageView::RenegotiateReq { offer, .. } => offer,
    }
}

/// The response that reports a failure: its name, and the `kind` of errors.
pub open spec fn error_view(e: SfuError) -> SocketResponseView {
    SocketResponseView::ErrorRes { error: e.spec_name(), kind: kind_error() }
}

/// An action with every failure turned into the response that reports it.
pub open spec fn answered(action: ActionView) -> ActionView {
    match action {
        ActionView::Fail(e) => ActionView::Reply(error_view(e)),
        other => other,
    }
}

/// What the engine does with a request, given whether its offer is well
/// formed. A request for a transport with a well-formed offer asks the caller
/// to open one, and changes nothing; with another offer it fails with
/// `InvalidOffer`. A request to renegotiate starts the renegotiation.
pub open spec fn dispatch_step(
    reg: RegistryView,
    message: SocketMessageView,
    offer_ok: bool,
    session_id: Seq<char>,
) -> Step {
    match message {
        SocketMessageView::CreateTransportReq { transport_type, offer } => Step {
            registry: reg,
            action: if offer_ok {
                ActionView::Open { transport: transport_type, offer }
            } else {
                ActionView::Fail(SfuError::InvalidOffer)
            },
        },
        SocketMessageView::RenegotiateReq { offer, publisher_id } => renegotiate_step(
            reg,
            offer,
            offer_ok,
            publisher_id,
            session_id,
        ),
    }
}

/// What the gateway does with what it read from a message: a message that
/// spells no request is answered with the failure `MalformedMessage`, and a
/// request is dispatched, with every failure turned into its response.
pub open spec fn respond_step(
    reg: RegistryView,
    decoded: Option<SocketMessageView>,
    offer_ok: bool,
    session_id: Seq<char>,
) -> Step {
    match decoded {
        None => Step {
            registry: reg,
            action: ActionView::Reply(error_view(SfuError::MalformedMessage)),
        },
        Some(message) => Step {
            registry: dispatch_step(reg, message, offer_ok, session_id).registry,
            action: answered(dispatch_step(reg, message, offer_ok, session_id).action),
        },
    }
}

/// What the gateway does with the text of a message.
pub open spec fn gateway_step(reg: RegistryView, text: Seq<char>, session_id: Seq<char>) -> Step {
    respond_step(
        reg,
        decoded_request(text),
        match decoded_request(text) {
            Some(message) => offer_well_formed(offer_of(message)),
            None => false,
        },
        session_id,
    )
}

/// The response that reports a failure.
pub fn error_response(e: SfuError) -> (response: SocketResponse)
    ensures
        response@ == error_view(e),
{
    SocketResponse::ErrorRes { error: e.name(), kind: "ERROR".to_owned() }
}

/// Turns a failure into the response that reports it, and leaves every other
/// action as it is: the client is answered whether its request succeeded or
/// not.
pub fn reply_for(action: Action) -> (reply: Action)
    ensures
        reply@ == answered(action@),
{
    match action {
        Action::Fail(e) => Action::Reply(error_response(e)),
        other => other,
    }
}

/// Hands a request to the engine, given whether its offer is well formed.
pub fn dispatch(sfu: &mut SFU, message: SocketMessage, offer_ok: bool, session_id: &String) -> (action:
    Action)
    ensures
        final(sfu)@ == dispatch_step(old(sfu)@, message@, offer_ok, session_id@).registry,
        action@ == dispatch_step(old(sfu)@, message@, offer_ok, session_id@).action,
{
    match message {
        SocketMessage::CreateTransportReq { transport_type, offer } => {
            if offer_ok {
                Action::Open { transport: transport_type, offer }
            } else {
                Action::Fail(SfuError::InvalidOffer)
            }
        },
        SocketMessage::RenegotiateReq { offer, publisher_id } => sfu.renegotiate_checked(
            offer,
            offer_ok,
            publisher_id,
            session_id,
        ),
    }
}

/// Hands a request to the engine: the offer is put to the WebRTC engine's
/// parser, and `dispatch` does the rest.
pub fn handle_socket_message(sfu: &mut SFU, message: SocketMessage, session_id: &String) -> (action:
    Action)
    ensures
        final(sfu)@ == dispatch_step(
            old(sfu)@,
            message@,
            offer_well_formed(offer_of(message@)),
            session_id@,
        ).registry,
        action@ == dispatch_step(
            old(sfu)@,
            message@,
            offer_well_formed(offer_of(message@)),
            session_id@,
        ).action,
{
    let offer_ok = parses_as_offer(message.offer().as_str());
    dispatch(sfu, message, offer_ok, session_id)
}

/// Answers what was read from a message, given whether the offer of the
/// request is well formed.
pub fn respond(
    sfu: &mut SFU,
    decoded: Option<SocketMessage>,
    offer_ok: bool,
    session_id: &String,
) -> (action: Action)
    ensures
        final(sfu)@ == respond_step(
            old(sfu)@,
            request_view(decoded),
            offer_ok,
            session_id@,
        ).registry,
        action@ == respond_step(old(sfu)@, request_view(decoded), offer_ok, session_id@).action,
{
    match decoded {
        None => Action::Reply(error_response(SfuError::MalformedMessage)),
        Some(message) => reply_for(dispatch(sfu, message, offer_ok, session_id)),
    }
}

/// Takes one text message of a connection: reads the request, puts its offer
/// to the WebRTC engine's parser, and answers with `respond`. The action is
/// never a bare failure: a message that cannot be read, and a request that
/// fails, are answered with an error response.
pub fn parse_message(sfu: &mut SFU, message: String, session_id: &String) -> (action: Action)
    ensures
        final(sfu)@ == gateway_step(old(sfu)@, message@, session_id@).registry,
        action@ == gateway_step(old(sfu)@, message@, session_id@).action,
{
    let decoded = decode_message(message.as_str());
    let offer_ok = match &decoded {
        Some(request) => parses_as_offer(request.offer().as_str()),
        None => false,
    };
    respond(sfu, decoded, offer_ok, session_id)
}

/// Every message is answered. Whatever the text, the gateway's action is not a
/// bare failure; a text that spells no request changes nothing and is answered
/// with the response that names `MalformedMessage`; and a request that the
/// engine fails is answered with the response that names the failure.
pub proof fn lemma_every_message_is_answered(
    reg: RegistryView,
    text: Seq<char>,
    session_id: Seq<char>,
    message: SocketMessageView,
    offer_ok: bool,
    e: SfuError,
)
    ensures
        !(gateway_step(reg, text, session_id).action is Fail),
        decoded_request(text) is None ==> gateway_step(reg, text, session_id) == (Step {
            registry: reg,
            action: ActionView::Reply(error_view(SfuError::MalformedMessage)),
        }),
        dispatch_step(reg, message, offer_ok, session_id).action == ActionView::Fail(e)
            ==> respond_step(reg, Some(message), offer_ok, session_id).action
            == ActionView::Reply(error_view(e)),
{
}

} // verus!
