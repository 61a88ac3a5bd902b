use rapture::error::SfuError;
use rapture::negotiation::{Fault, NegotiationState};
use rapture::sfu::{Action, SFU};
use rapture::signalling::{SocketResponse, Transport};

const OFFER: &str = "v=0\r\no=- 4596489990601351948 2 IN IP4 127.0.0.1\r\ns=-\r\nt=0 0\r\n";

fn text(s: &str) -> String {
    s.to_string()
}

fn publisher_in(sfu: &mut SFU, id: &str, session: &str) {
    let made = sfu.create_transport(Transport::PUBLISHER, text(id), Ok(text("answer")), &text(session));
    assert!(matches!(made, Action::Reply(_)));
}

fn subscriber_in(sfu: &mut SFU, id: &str, session: &str) {
    let made = sfu.create_transport(Transport::SUBSCRIBER, text(id), Ok(text("answer")), &text(session));
    assert!(matches!(made, Action::Reply(_)));
}

#[test]
fn creating_a_publisher_answers_with_the_answer_and_the_identifier() {
    let mut sfu = SFU::new();
    let action = sfu.create_transport(Transport::PUBLISHER, text("pa"), Ok(text("the answer")), &text("room"));
    assert_eq!(
        action,
        Action::Reply(SocketResponse::CreateTransportRes {
            answer: text("the answer"),
            publisher_id: text("pa"),
            kind: text("PUBLISHER_CREATED"),
        })
    );
    let session = sfu.find_session(&text("room")).unwrap();
    assert_eq!(session.state_of(Transport::PUBLISHER, &text("pa")), NegotiationState::Stable);
    assert!(session.is_idle());
}

#[test]
fn creating_a_subscriber_answers_with_the_answer_and_the_identifier() {
    let mut sfu = SFU::new();
    let action = sfu.create_transport(Transport::SUBSCRIBER, text("ua"), Ok(text("the answer")), &text("room"));
    assert_eq!(
        action,
        Action::Reply(SocketResponse::CreateSubscriberRes {
            answer: text("the answer"),
            subscriber_id: text("ua"),
            kind: text("SUBSCRIBER_CREATED"),
        })
    );
    let session = sfu.find_session(&text("room")).unwrap();
    assert_eq!(session.state_of(Transport::SUBSCRIBER, &text("ua")), NegotiationState::Stable);
    assert!(!session.has(Transport::PUBLISHER, &text("ua")));
}

#[test]
fn a_fault_is_reported_and_makes_no_session() {
    let mut sfu = SFU::new();
    let sid = text("room");
    assert_eq!(sfu.create_publisher(Err(Fault::OfferRejected), &sid), Action::Fail(SfuError::InvalidOffer));
    assert_eq!(sfu.create_publisher(Err(Fault::Unavailable), &sid), Action::Fail(SfuError::EngineInit));
    assert_eq!(sfu.create_subscriber(Err(Fault::TimedOut), &sid), Action::Fail(SfuError::NegotiationTimeout));
    assert!(sfu.find_session(&sid).is_err());
}

#[test]
fn a_created_publisher_has_a_uuid_for_its_identifier() {
    let mut sfu = SFU::new();
    let action = sfu.create_publisher(Ok(text("answer")), &text("room"));
    let id = match action {
        Action::Reply(SocketResponse::CreateTransportRes { answer, publisher_id, kind }) => {
            assert_eq!(answer, "answer");
            assert_eq!(kind, "PUBLISHER_CREATED");
            publisher_id
        }
        other => panic!("{:?}", other),
    };
    let chars: Vec<char> = id.chars().collect();
    assert_eq!(chars.len(), 36);
    for (i, c) in chars.iter().enumerate() {
        if i == 8 || i == 13 || i == 18 || i == 23 {
            assert_eq!(*c, '-');
        } else {
            assert!(c.is_ascii_digit() || ('a'..='f').contains(c));
        }
    }
    assert_eq!(chars[14], '4');
    assert!(matches!(chars[19], '8' | '9' | 'a' | 'b'));
    assert!(sfu.knows(Transport::PUBLISHER, &id));
    assert!(sfu.find_session(&text("room")).unwrap().has(Transport::PUBLISHER, &id));
}

#[test]
fn created_identifiers_differ() {
    let mut sfu = SFU::new();
    let mut seen: Vec<String> = Vec::new();
    for i in 0..20 {
        let session = format!("s{}", i % 3);
        match sfu.create_publisher(Ok(text("answer")), &session) {
            Action::Reply(SocketResponse::CreateTransportRes { publisher_id, .. }) => {
                assert!(!seen.contains(&publisher_id));
                seen.push(publisher_id);
            }
            other => panic!("{:?}", other),
        }
    }
    assert_eq!(seen.len(), 20);
}

#[test]
fn an_identifier_that_is_taken_anywhere_is_refused() {
    let mut sfu = SFU::new();
    publisher_in(&mut sfu, "pa", "a");
    let again = sfu.create_transport(Transport::PUBLISHER, text("pa"), Ok(text("answer")), &text("b"));
    assert_eq!(again, Action::Fail(SfuError::EngineInit));
    assert!(sfu.find_session(&text("b")).is_err());
    let same = sfu.create_transport(Transport::PUBLISHER, text("pa"), Ok(text("answer")), &text("a"));
    assert_eq!(same, Action::Fail(SfuError::EngineInit));
    subscriber_in(&mut sfu, "pa", "b");
}

#[test]
fn renegotiate_without_the_session_fails_with_session_not_found() {
    let mut sfu = SFU::new();
    let action = sfu.renegotiate(text(OFFER), text("pa"), &text("nowhere"));
    assert_eq!(action, Action::Fail(SfuError::SessionNotFound));
    assert!(sfu.find_session(&text("nowhere")).is_err());
}

#[test]
fn renegotiate_looks_in_the_named_session_only() {
    let mut sfu = SFU::new();
    publisher_in(&mut sfu, "pa", "a");
    publisher_in(&mut sfu, "pb", "b");
    let action = sfu.renegotiate(text(OFFER), text("pa"), &text("b"));
    assert_eq!(action, Action::Fail(SfuError::PublisherNotFound));
    let action = sfu.renegotiate(text(OFFER), text("pb"), &text("a"));
    assert_eq!(action, Action::Fail(SfuError::PublisherNotFound));
    assert!(sfu.find_session(&text("a")).unwrap().is_idle());
    assert!(sfu.find_session(&text("b")).unwrap().is_idle());
}

#[test]
fn renegotiate_refuses_an_offer_that_is_no_session_description() {
    let mut sfu = SFU::new();
    publisher_in(&mut sfu, "pa", "a");
    let action = sfu.renegotiate(text("not sdp"), text("pa"), &text("a"));
    assert_eq!(action, Action::Fail(SfuError::InvalidOffer));
    let action = sfu.renegotiate(text(""), text("pa"), &text("a"));
    assert_eq!(action, Action::Fail(SfuError::InvalidOffer));
    let action = sfu.renegotiate(text("not sdp"), text("px"), &text("a"));
    assert_eq!(action, Action::Fail(SfuError::PublisherNotFound));
}

#[test]
fn a_renegotiation_runs_from_stable_to_stable() {
    let mut sfu = SFU::new();
    let sid = text("room");
    let pid = match sfu.create_publisher(Ok(text("first answer")), &sid) {
        Action::Reply(SocketResponse::CreateTransportRes { publisher_id, .. }) => publisher_id,
        other => panic!("{:?}", other),
    };
    let started = sfu.renegotiate(text(OFFER), pid.clone(), &sid);
    assert_eq!(started, Action::Answer { publisher_id: pid.clone(), offer: text(OFFER) });
    {
        let session = sfu.find_session(&sid).unwrap();
        assert_eq!(session.state_of(Transport::PUBLISHER, &pid), NegotiationState::Negotiating);
        assert!(session.is_held_by(Transport::PUBLISHER, &pid));
        assert!(!session.is_idle());
    }
    let ended = sfu.answer_produced(Ok(text("second answer")), &pid, &sid);
    assert_eq!(
        ended,
        Action::Reply(SocketResponse::RenegotiateRes {
            sdp: text("second answer"),
            kind: text("NEGOTIATION_DONE"),
        })
    );
    let session = sfu.find_session(&sid).unwrap();
    assert_eq!(session.state_of(Transport::PUBLISHER, &pid), NegotiationState::Stable);
    assert!(session.is_idle());
    let elsewhere = sfu.renegotiate(text(OFFER), pid.clone(), &text("hall"));
    assert_eq!(elsewhere, Action::Fail(SfuError::SessionNotFound));
    sfu.get_session(&text("hall"));
    let elsewhere = sfu.renegotiate(text(OFFER), pid, &text("hall"));
    assert_eq!(elsewhere, Action::Fail(SfuError::PublisherNotFound));
}
