//! The wire format: which JSON object spells which request, and which JSON
//! object a response is written as.
//!
//! A request is an object with the string members `transportType`
//! (`PUBLISHER` or `SUBSCRIBER`) and `offer`, or with the string members
//! `offer` and `publisherId`; the first shape that fits is taken, and other
//! members are passed over. A response is an object of string members, one of
//! them its `kind`.

use vstd::prelude::*;
use crate::json::{
    distinct_keys,
    members_of,
    object_text,
    parse_document,
    parsed_members,
    render_object,
    string_member,
};
use crate::signalling::{
    SocketMessage,
    SocketMessageView,
    SocketResponse,
    SocketResponseView,
    Transport,
};

verus! {

/// The member of a record under a key, if it has one.
pub open spec fn member(members: Map<Seq<char>, Seq<char>>, key: Seq<char>) -> Option<Seq<char>> {
    if members.contains_key(key) {
        Some(members[key])
    } else {
        None
    }
}

/// The transport that a name stands for.
pub open spec fn transport_named(name: Seq<char>) -> Option<Transport> {
    if name == "PUBLISHER"@ {
        Some(Transport::PUBLISHER)
    } else if name == "SUBSCRIBER"@ {
        Some(Transport::SUBSCRIBER)
    } else {
        None
    }
}

/// The request that three members spell, if any: a transport to create where
/// `transport_type` names a transport and there is an offer; else a
/// renegotiation where there are an offer and a publisher's identifier.
pub open spec fn request_from(
    transport_type: Option<Seq<char>>,
    offer: Option<Seq<char>>,
    publisher_id: Option<Seq<char>>,
) -> Option<SocketMessageView> {
    if transport_type is Some && transport_named(transport_type->0) is Some && offer is Some {
        Some(
            SocketMessageView::CreateTransportReq {
                transport_type: transport_named(transport_type->0)->0,
                offer: offer->0,
            },
        )
    } else if offer is Some && publisher_id is Some {
        Some(SocketMessageView::RenegotiateReq { offer: offer->0, publisher_id: publisher_id->0 })
    } else {
        None
    }
}

/// The request that a record spells, if any.
pub open spec fn request_of(members: Map<Seq<char>, Seq<char>>) -> Option<SocketMessageView> {
    request_from(
        member(members, "transportType"@),
        member(members, "offer"@),
        member(members, "publisherId"@),
    )
}

/// The request that a text spells, if any.
pub open spec fn decoded_request(text: Seq<char>) -> Option<SocketMessageView> {
    match parsed_members(text) {
        Some(members) => request_of(members),
        None => None,
    }
}

/// The record that a response is written as.
pub open spec fn response_members(response: SocketResponseView) -> Map<Seq<char>, Seq<char>> {
    match response {
        SocketResponseView::CreateTransportRes { answer, publisher_id, kind } => Map::empty().insert(
            "answer"@,
            answer,
        ).insert("publisherId"@, publisher_id).insert("kind"@, kind),
        SocketResponseView::RenegotiateRes { sdp, kind } => Map::empty().insert("sdp"@, sdp).insert(
            "kind"@,
            kind,
        ),
        SocketResponseView::CreateSubscriberRes { answer, subscriber_id, kind } => Map::empty().insert(
            "answer"@,
            answer,
        ).insert("subscriberId"@, subscriber_id).insert("kind"@, kind),
        SocketResponseView::ErrorRes { error, kind } => Map::empty().insert("error"@, error).insert(
            "kind"@,
            kind,
        ),
    }
}

/// The response that six members spell, if any. Each shape needs its `kind`;
/// the first shape whose members are all there is taken.
pub open spec fn response_from(
    answer: Option<Seq<char>>,
    publisher_id: Option<Seq<char>>,
    subscriber_id: Option<Seq<char>>,
    sdp: Option<Seq<char>>,
    error: Option<Seq<char>>,
    kind: Option<Seq<char>>,
) -> Option<SocketResponseView> {
    if kind is None {
        None
    } else if answer is Some && publisher_id is Some {
        Some(
            SocketResponseView::CreateTransportRes {
                answer: answer->0,
                publisher_id: publisher_id->0,
                kind: kind->0,
            },
        )
    } else if answer is Some && subscriber_id is Some {
        Some(
            SocketResponseView::CreateSubscriberRes {
                answer: answer->0,
                subscriber_id: subscriber_id->0,
                kind: kind->0,
            },
        )
    } else if sdp is Some {
        Some(SocketResponseView::RenegotiateRes { sdp: sdp->0, kind: kind->0 })
    } else if error is Some {
        Some(SocketResponseView::ErrorRes { error: error->0, kind: kind->0 })
    } else {
        None
    }
}

/// The response that a record spells, if any.
pub open spec fn response_of(members: Map<Seq<char>, Seq<char>>) -> Option<SocketResponseView> {
    response_from(
        member(members, "answer"@),
        member(members, "publisherId"@),
        member(members, "subscriberId"@),
        member(members, "sdp"@),
        member(members, "error"@),
        member(members, "kind"@),
    )
}

/// The response that a text spells, if any.
pub open spec fn decoded_response(text: Seq<char>) -> Option<SocketResponseView> {
    match parsed_members(text) {
        Some(members) => response_of(members),
        None => None,
    }
}

/// The characters of an optional string.
pub open spec fn chars_of(s: Option<String>) -> Option<Seq<char>> {
    match s {
        Some(s) => Some(s@),
        None => None,
    }
}

/// The view of an optional request.
pub open spec fn request_view(message: Option<SocketMessage>) -> Option<SocketMessageView> {
    match message {
        Some(m) => Some(m@),
        None => None,
    }
}

/// The view of an optional response.
pub open spec fn response_view(response: Option<SocketResponse>) -> Option<SocketResponseView> {
    match response {
        Some(r) => Some(r@),
        None => None,
    }
}

/// The transport that a name stands for.
pub fn parse_transport(name: &String) -> (transport: Option<Transport>)
    ensures
        transport == transport_named(name@),
{
    if *name == "PUBLISHER".to_owned() {
        Some(Transport::PUBLISHER)
    } else if *name == "SUBSCRIBER".to_owned() {
        Some(Transport::SUBSCRIBER)
    } else {
        None
    }
}

/// The request that three members of a record spell, if any.
pub fn classify_request(
    transport_type: Option<String>,
    offer: Option<String>,
    publisher_id: Option<String>,
) -> (message: Option<SocketMessage>)
    ensures
        request_view(message) == request_from(
            chars_of(transport_type),
            chars_of(offer),
            chars_of(publisher_id),
        ),
{
    let transport = match &transport_type {
        Some(name) => parse_transport(name),
        None => None,
    };
    match (transport, offer, publisher_id) {
        (Some(transport_type), Some(offer), _) => Some(
            SocketMessage::CreateTransportReq { transport_type, offer },
        ),
        (None, Some(offer), Some(publisher_id)) => Some(
            SocketMessage::RenegotiateReq { offer, publisher_id },
        ),
        _ => None,
    }
}

/// Reads a request from the text of a message.
pub fn decode_message(text: &str) -> (message: Option<SocketMessage>)
    ensures
        request_view(message) == decoded_request(text@),
{
    match parse_document(text) {
        None => None,
        Some(doc) => {
            let transport_type = string_member(&doc, "transportType");
            let offer = string_member(&doc, "offer");
            let publisher_id = string_member(&doc, "publisherId");
            classify_request(transport_type, offer, publisher_id)
        },
    }
}

/// The response that six members of a record spell, if any.
pub fn classify_response(
    answer: Option<String>,
    publisher_id: Option<String>,
    subscriber_id: Option<String>,
    sdp: Option<String>,
    error: Option<String>,
    kind: Option<String>,
) -> (response: Option<SocketResponse>)
    ensures
        response_view(response) == response_from(
            chars_of(answer),
            chars_of(publisher_id),
            chars_of(subscriber_id),
            chars_of(sdp),
            chars_of(error),
            chars_of(kind),
        ),
{
    match kind {
        None => None,
        Some(kind) => match (answer, publisher_id, subscriber_id, sdp, error) {
            (Some(answer), Some(publisher_id), _, _, _) => Some(
                SocketResponse::CreateTransportRes { answer, publisher_id, kind },
            ),
            (Some(answer), None, Some(subscriber_id), _, _) => Some(
                SocketResponse::CreateSubscriberRes { answer, subscriber_id, kind },
            ),
            (Some(_), None, None, Some(sdp), _) => Some(SocketResponse::RenegotiateRes { sdp, kind }),
            (None, _, _, Some(sdp), _) => Some(SocketResponse::RenegotiateRes { sdp, kind }),
            (Some(_), None, None, None, Some(error)) => Some(
                SocketResponse::ErrorRes { error, kind },
            ),
            (None, _, _, None, Some(error)) => Some(SocketResponse::ErrorRes { error, kind }),
            _ => None,
        },
    }
}

/// Reads a response from the text of a message.
pub fn decode_response(text: &str) -> (response: Option<SocketResponse>)
    ensures
        response_view(response) == decoded_response(text@),
{
    match parse_document(text) {
        None => None,
        Some(doc) => {
            let answer = string_member(&doc, "answer");
            let publisher_id = string_member(&doc, "publisherId");
            let subscriber_id = string_member(&doc, "subscriberId");
            let sdp = string_member(&doc, "sdp");
            let error = string_member(&doc, "error");
            let kind = string_member(&doc, "kind");
            classify_response(answer, publisher_id, subscriber_id, sdp, error, kind)
        },
    }
}

/// The keys of the response records differ from each other.
proof fn lemma_keys_differ()
    ensures
        "answer"@.len() == 6,
        "publisherId"@.len() == 11,
        "subscriberId"@.len() == 12,
        "sdp"@.len() == 3,
        "error"@.len() == 5,
        "kind"@.len() == 4,
{
    reveal_strlit("answer");
    reveal_strlit("publisherId");
    reveal_strlit("subscriberId");
    reveal_strlit("sdp");
    reveal_strlit("error");
    reveal_strlit("kind");
}

/// The record that a list of members spells grows with the list.
proof fn lemma_members_push(pairs: Seq<(String, String)>, pair: (String, String))
    ensures
        members_of(pairs.push(pair)) == members_of(pairs).insert(pair.0@, pair.1@),
{
    assert(pairs.push(pair).drop_last() =~= pairs);
}

/// Adds a member to a list.
fn put(pairs: &mut Vec<(String, String)>, key: &str, value: &String)
    ensures
        final(pairs)@.len() == old(pairs)@.len() + 1,
        final(pairs)@.last().0@ == key@,
        forall|i: int| 0 <= i < old(pairs)@.len() ==> final(pairs)@[i] == old(pairs)@[i],
        members_of(final(pairs)@) == members_of(old(pairs)@).insert(key@, value@),
{
    let pair = (key.to_owned(), value.clone());
    proof {
        lemma_members_push(pairs@, pair);
    }
    pairs.push(pair);
}

/// The members of a response, in a list.
fn response_pairs(response: &SocketResponse) -> (pairs: Vec<(String, String)>)
    ensures
        distinct_keys(pairs@),
        members_of(pairs@) == response_members(response@),
{
    let mut pairs: Vec<(String, String)> = Vec::new();
    proof {
        lemma_keys_differ();
        assert(members_of(pairs@) =~= Map::empty());
    }
    match response {
        SocketResponse::CreateTransportRes { answer, publisher_id, kind } => {
            put(&mut pairs, "answer", answer);
            put(&mut pairs, "publisherId", publisher_id);
            put(&mut pairs, "kind", kind);
        },
        SocketResponse::RenegotiateRes { sdp, kind } => {
            put(&mut pairs, "sdp", sdp);
            put(&mut pairs, "kind", kind);
        },
        SocketResponse::CreateSubscriberRes { answer, subscriber_id, kind } => {
            put(&mut pairs, "answer", answer);
            put(&mut pairs, "subscriberId", subscriber_id);
            put(&mut pairs, "kind", kind);
        },
        SocketResponse::ErrorRes { error, kind } => {
            put(&mut pairs, "error", error);
            put(&mut pairs, "kind", kind);
        },
    }
    pairs
}

/// Writes a response as the text of a message.
pub fn encode_response(response: &SocketResponse) -> (text: String)
    ensures
        text@ == object_text(response_members(response@)),
{
    let pairs = response_pairs(response);
    render_object(&pairs)
}

/// Reading a response's record gives the response back: every member
/// survives, the `kind` among them.
pub proof fn lemma_response_round_trip(response: SocketResponseView)
    ensures
        response_of(response_members(response)) == Some(response),
{
    lemma_keys_differ();
}

} // verus!
