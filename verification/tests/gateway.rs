use rapture::error::SfuError;
use rapture::sfu::{Action, SFU};
use rapture::signalling::wire::{
    classify_request, classify_response, decode_message, decode_response, encode_response,
    parse_transport,
};
use rapture::signalling::{
    dispatch, error_response, handle_socket_message, parse_message, reply_for, respond,
    SocketMessage, SocketResponse, Transport,
};

const OFFER: &str = "v=0\r\no=- 4596489990601351948 2 IN IP4 127.0.0.1\r\ns=-\r\nt=0 0\r\n";

fn text(s: &str) -> String {
    s.to_string()
}

fn request(members: &[(&str, &str)]) -> String {
    let mut object = serde_json::Map::new();
    for (key, value) in members {
        object.insert(key.to_string(), serde_json::Value::String(value.to_string()));
    }
    serde_json::Value::Object(object).to_string()
}

fn malformed() -> Action {
    Action::Reply(SocketResponse::ErrorRes {
        error: text("MalformedMessage"),
        kind: text("ERROR"),
    })
}

#[test]
fn transports_have_their_names() {
    assert_eq!(parse_transport(&text("PUBLISHER")), Some(Transport::PUBLISHER));
    assert_eq!(parse_transport(&text("SUBSCRIBER")), Some(Transport::SUBSCRIBER));
    assert_eq!(parse_transport(&text("publisher")), None);
    assert_eq!(parse_transport(&text("")), None);
}

#[test]
fn a_request_is_told_by_its_members() {
    let create = decode_message(r#"{"transportType":"PUBLISHER","offer":"o"}"#);
    assert_eq!(
        create,
        Some(SocketMessage::CreateTransportReq {
            transport_type: Transport::PUBLISHER,
            offer: text("o"),
        })
    );
    let create = decode_message(r#"{"offer":"o","transportType":"SUBSCRIBER"}"#);
    assert_eq!(
        create,
        Some(SocketMessage::CreateTransportReq {
            transport_type: Transport::SUBSCRIBER,
            offer: text("o"),
        })
    );
    let renegotiate = decode_message(r#"{"offer":"o","publisherId":"p"}"#);
    assert_eq!(
        renegotiate,
        Some(SocketMessage::RenegotiateReq { offer: text("o"), publisher_id: text("p") })
    );
}

#[test]
fn the_first_shape_that_fits_is_taken() {
    let both = decode_message(r#"{"transportType":"PUBLISHER","offer":"o","publisherId":"p"}"#);
    assert_eq!(
        both,
        Some(SocketMessage::CreateTransportReq {
            transport_type: Transport::PUBLISHER,
            offer: text("o"),
        })
    );
    let unknown = decode_message(r#"{"transportType":"RELAY","offer":"o","publisherId":"p"}"#);
    assert_eq!(
        unknown,
        Some(SocketMessage::RenegotiateReq { offer: text("o"), publisher_id: text("p") })
    );
    let extra = decode_message(r#"{"offer":"o","publisherId":"p","seq":7,"tags":["a"]}"#);
    assert_eq!(
        extra,
        Some(SocketMessage::RenegotiateReq { offer: text("o"), publisher_id: text("p") })
    );
}

#[test]
fn what_spells_no_request_is_not_decoded() {
    assert_eq!(decode_message(""), None);
    assert_eq!(decode_message("{"), None);
    assert_eq!(decode_message("hello"), None);
    assert_eq!(decode_message("[]"), None);
    assert_eq!(decode_message("\"offer\""), None);
    assert_eq!(decode_message("{}"), None);
    assert_eq!(decode_message(r#"{"offer":"o"}"#), None);
    assert_eq!(decode_message(r#"{"transportType":"PUBLISHER"}"#), None);
    assert_eq!(decode_message(r#"{"transportType":"RELAY","offer":"o"}"#), None);
    assert_eq!(decode_message(r#"{"offer":7,"publisherId":"p"}"#), None);
    assert_eq!(decode_message(r#"{"offer":"o","publisherId":null}"#), None);
    assert_eq!(decode_message(r#"{"offer":"o","publisherId":"p"} trailing"#), None);
}

#[test]
fn requests_are_classified_from_their_members() {
    assert_eq!(classify_request(None, None, None), None);
    assert_eq!(classify_request(Some(text("PUBLISHER")), None, Some(text("p"))), None);
    assert_eq!(
        classify_request(None, Some(text("o")), Some(text("p"))),
        Some(SocketMessage::RenegotiateReq { offer: text("o"), publisher_id: text("p") })
    );
    assert_eq!(
        classify_request(Some(text("SUBSCRIBER")), Some(text("o")), None),
        Some(SocketMessage::CreateTransportReq {
            transport_type: Transport::SUBSCRIBER,
            offer: text("o"),
        })
    );
}

#[test]
fn responses_are_written_as_compact_objects() {
    let created = SocketResponse::CreateTransportRes {
        answer: text("a"),
        publisher_id: text("p"),
        kind: text("PUBLISHER_CREATED"),
    };
    assert_eq!(
        encode_response(&created),
        r#"{"answer":"a","kind":"PUBLISHER_CREATED","publisherId":"p"}"#
    );
    let done = SocketResponse::RenegotiateRes { sdp: text("v=0\r\n"), kind: text("NEGOTIATION_DONE") };
    assert_eq!(encode_response(&done), r#"{"kind":"NEGOTIATION_DONE","sdp":"v=0\r\n"}"#);
    let subscribed = SocketResponse::CreateSubscriberRes {
        answer: text("a"),
        subscriber_id: text("u"),
        kind: text("SUBSCRIBER_CREATED"),
    };
    assert_eq!(
        encode_response(&subscribed),
        r#"{"answer":"a","kind":"SUBSCRIBER_CREATED","subscriberId":"u"}"#
    );
    let failed = error_response(SfuError::PublisherNotFound);
    assert_eq!(encode_response(&failed), r#"{"error":"PublisherNotFound","kind":"ERROR"}"#);
}

#[test]
fn a_response_survives_writing_and_reading() {
    let responses = vec![
        SocketResponse::CreateTransportRes {
            answer: text("v=0\r\no=- 1 2 IN IP4 0.0.0.0\r\n"),
            publisher_id: text("0b6b2f9e-6f0c-4d0e-9d5c-2f6c3f1f8a11"),
            kind: text("PUBLISHER_CREATED"),
        },
        SocketResponse::CreateTransportRes {
            answer: text("quote \" backslash \\ tab \t snowman \u{2603}"),
            publisher_id: text(""),
            kind: text("PUBLISHER_CREATED"),
        },
        SocketResponse::RenegotiateRes { sdp: text("answer"), kind: text("NEGOTIATION_DONE") },
        SocketResponse::CreateSubscriberRes {
            answer: text("answer"),
            subscriber_id: text("ua"),
            kind: text("SUBSCRIBER_CREATED"),
        },
        error_response(SfuError::InvalidOffer),
        error_response(SfuError::MalformedMessage),
    ];
    for response in responses {
        let written = encode_response(&response);
        assert_eq!(decode_response(&written), Some(response));
    }
}

#[test]
fn what_spells_no_response_is_not_decoded() {
    assert_eq!(decode_response("nonsense"), None);
    assert_eq!(decode_response("{}"), None);
    assert_eq!(decode_response(r#"{"answer":"a","publisherId":"p"}"#), None);
    assert_eq!(decode_response(r#"{"kind":"ERROR"}"#), None);
    assert_eq!(decode_response(r#"{"answer":"a","kind":"PUBLISHER_CREATED"}"#), None);
    assert_eq!(classify_response(None, None, None, None, None, Some(text("k"))), None);
    assert_eq!(
        classify_response(Some(text("a")), None, None, Some(text("s")), None, Some(text("k"))),
        Some(SocketResponse::RenegotiateRes { sdp: text("s"), kind: text("k") })
    );
}

#[test]
fn a_message_that_cannot_be_read_is_answered_with_an_error() {
    let mut sfu = SFU::new();
    let sid = text("call");
    assert_eq!(parse_message(&mut sfu, text("not json"), &sid), malformed());
    assert_eq!(parse_message(&mut sfu, text(""), &sid), malformed());
    assert_eq!(parse_message(&mut sfu, text("{\"offer\":"), &sid), malformed());
    assert_eq!(parse_message(&mut sfu, text("{\"unknown\":\"shape\"}"), &sid), malformed());
    assert!(sfu.find_session(&sid).is_err());
    assert_eq!(respond(&mut sfu, None, true, &sid), malformed());
}

#[test]
fn a_request_for_a_transport_asks_for_one_to_be_opened() {
    let mut sfu = SFU::new();
    let sid = text("call");
    let message = request(&[("transportType", "PUBLISHER"), ("offer", OFFER)]);
    assert_eq!(
        parse_message(&mut sfu, message, &sid),
        Action::Open { transport: Transport::PUBLISHER, offer: text(OFFER) }
    );
    let message = request(&[("transportType", "SUBSCRIBER"), ("offer", OFFER)]);
    assert_eq!(
        parse_message(&mut sfu, message, &sid),
        Action::Open { transport: Transport::SUBSCRIBER, offer: text(OFFER) }
    );
    assert!(sfu.find_session(&sid).is_err());
}

#[test]
fn a_request_with_a_bad_offer_is_answered_with_an_error() {
    let mut sfu = SFU::new();
    let sid = text("call");
    let message = request(&[("transportType", "PUBLISHER"), ("offer", "v=1 nonsense")]);
    assert_eq!(
        parse_message(&mut sfu, message, &sid),
        Action::Reply(SocketResponse::ErrorRes {
            error: text("InvalidOfferError"),
            kind: text("ERROR"),
        })
    );
    let bad = SocketMessage::CreateTransportReq {
        transport_type: Transport::PUBLISHER,
        offer: text("v=1 nonsense"),
    };
    assert_eq!(handle_socket_message(&mut sfu, bad, &sid), Action::Fail(SfuError::InvalidOffer));
}

#[test]
fn a_request_to_renegotiate_reaches_the_engine() {
    let mut sfu = SFU::new();
    let sid = text("call");
    let message = request(&[("offer", OFFER), ("publisherId", "pa")]);
    assert_eq!(
        parse_message(&mut sfu, message.clone(), &sid),
        Action::Reply(SocketResponse::ErrorRes {
            error: text("SessionNotFound"),
            kind: text("ERROR"),
        })
    );
    sfu.create_transport(Transport::PUBLISHER, text("pa"), Ok(text("answer")), &sid);
    assert_eq!(
        parse_message(&mut sfu, message.clone(), &sid),
        Action::Answer { publisher_id: text("pa"), offer: text(OFFER) }
    );
    assert_eq!(parse_message(&mut sfu, message, &sid), Action::Wait);
}

#[test]
fn dispatch_goes_by_the_given_verdict_on_the_offer() {
    let mut sfu = SFU::new();
    let sid = text("call");
    let create = SocketMessage::CreateTransportReq {
        transport_type: Transport::PUBLISHER,
        offer: text("anything"),
    };
    assert_eq!(
        dispatch(&mut sfu, create.clone(), true, &sid),
        Action::Open { transport: Transport::PUBLISHER, offer: text("anything") }
    );
    assert_eq!(dispatch(&mut sfu, create, false, &sid), Action::Fail(SfuError::InvalidOffer));
    let renegotiate = SocketMessage::RenegotiateReq { offer: text("o"), publisher_id: text("p") };
    assert_eq!(
        dispatch(&mut sfu, renegotiate.clone(), true, &sid),
        Action::Fail(SfuError::SessionNotFound)
    );
    assert_eq!(
        respond(&mut sfu, Some(renegotiate), true, &sid),
        Action::Reply(error_response(SfuError::SessionNotFound))
    );
}

#[test]
fn a_failure_becomes_its_response_and_nothing_else_changes() {
    assert_eq!(
        reply_for(Action::Fail(SfuError::EngineInit)),
        Action::Reply(SocketResponse::ErrorRes {
            error: text("EngineInitError"),
            kind: text("ERROR"),
        })
    );
    assert_eq!(reply_for(Action::Wait), Action::Wait);
    let open = Action::Open { transport: Transport::SUBSCRIBER, offer: text("o") };
    assert_eq!(reply_for(open.clone()), open);
}
