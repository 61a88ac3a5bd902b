use rapture::error::SfuError;
use rapture::negotiation::{Fault, NegotiationState};
use rapture::sfu::{Action, SFU};
use rapture::signalling::{SocketResponse, Transport};

const OFFER: &str = "v=0\r\no=- 4596489990601351948 2 IN IP4 127.0.0.1\r\ns=-\r\nt=0 0\r\n";

fn text(s: &str) -> String {
    s.to_string()
}

fn publisher_in(sfu: &mut SFU, id: &str, session: &str) {
    let made = sfu.create_transport(Transport::PUBLISHER, text(id), Ok(text("answer")), &text(session));
    assert!(matches!(made, Action::Reply(_)));
}

fn subscriber_in(sfu: &mut SFU, id: &str, session: &str) {
    let made = sfu.create_transport(Transport::SUBSCRIBER, text(id), Ok(text("answer")), &text(session));
    assert!(matches!(made, Action::Reply(_)));
}

#[test]
fn work_on_one_session_waits_for_its_lock() {
    let mut sfu = SFU::new();
    let sid = text("a");
    publisher_in(&mut sfu, "pa", "a");
    publisher_in(&mut sfu, "pb", "a");
    let started = sfu.renegotiate(text(OFFER), text("pa"), &sid);
    assert!(matches!(started, Action::Answer { .. }));
    assert_eq!(sfu.renegotiate(text(OFFER), text("pb"), &sid), Action::Wait);
    assert_eq!(sfu.renegotiate(text(OFFER), text("pa"), &sid), Action::Wait);
    assert_eq!(sfu.renegotiate_server(text("pb"), &sid), Action::Wait);
    assert_eq!(sfu.create_publisher(Ok(text("answer")), &sid), Action::Wait);
    let other = sfu.find_session(&sid).unwrap();
    assert_eq!(other.state_of(Transport::PUBLISHER, &text("pb")), NegotiationState::Stable);
    sfu.answer_produced(Ok(text("answer")), &text("pa"), &sid);
    let next = sfu.renegotiate(text(OFFER), text("pb"), &sid);
    assert_eq!(next, Action::Answer { publisher_id: text("pb"), offer: text(OFFER) });
}

#[test]
fn failures_come_before_waiting() {
    let mut sfu = SFU::new();
    let sid = text("a");
    publisher_in(&mut sfu, "pa", "a");
    sfu.renegotiate(text(OFFER), text("pa"), &sid);
    assert_eq!(
        sfu.renegotiate(text(OFFER), text("px"), &sid),
        Action::Fail(SfuError::PublisherNotFound)
    );
    assert_eq!(
        sfu.renegotiate(text("not sdp"), text("pa"), &sid),
        Action::Fail(SfuError::InvalidOffer)
    );
    assert_eq!(
        sfu.create_publisher(Err(Fault::Unavailable), &sid),
        Action::Fail(SfuError::EngineInit)
    );
}

#[test]
fn sessions_do_not_wait_for_each_other() {
    let mut sfu = SFU::new();
    publisher_in(&mut sfu, "pa", "a");
    publisher_in(&mut sfu, "pb", "b");
    let started = sfu.renegotiate(text(OFFER), text("pa"), &text("a"));
    assert!(matches!(started, Action::Answer { .. }));
    let made = sfu.create_publisher(Ok(text("answer")), &text("b"));
    assert!(matches!(made, Action::Reply(SocketResponse::CreateTransportRes { .. })));
    let made = sfu.create_publisher(Ok(text("answer")), &text("c"));
    assert!(matches!(made, Action::Reply(SocketResponse::CreateTransportRes { .. })));
    let there = sfu.renegotiate(text(OFFER), text("pb"), &text("b"));
    assert_eq!(there, Action::Answer { publisher_id: text("pb"), offer: text(OFFER) });
    let a = sfu.find_session(&text("a")).unwrap();
    assert!(a.is_held_by(Transport::PUBLISHER, &text("pa")));
    assert_eq!(a.state_of(Transport::PUBLISHER, &text("pa")), NegotiationState::Negotiating);
}

#[test]
fn a_fault_ends_the_renegotiation_and_frees_the_lock() {
    let mut sfu = SFU::new();
    let sid = text("a");
    publisher_in(&mut sfu, "pa", "a");
    sfu.renegotiate(text(OFFER), text("pa"), &sid);
    let ended = sfu.answer_produced(Err(Fault::TimedOut), &text("pa"), &sid);
    assert_eq!(ended, Action::Fail(SfuError::NegotiationTimeout));
    let session = sfu.find_session(&sid).unwrap();
    assert!(session.is_idle());
    assert_eq!(session.state_of(Transport::PUBLISHER, &text("pa")), NegotiationState::Stable);
    sfu.renegotiate(text(OFFER), text("pa"), &sid);
    let ended = sfu.answer_produced(Err(Fault::OfferRejected), &text("pa"), &sid);
    assert_eq!(ended, Action::Fail(SfuError::InvalidOffer));
}

#[test]
fn an_answer_that_nobody_waits_for_changes_nothing() {
    let mut sfu = SFU::new();
    let sid = text("a");
    publisher_in(&mut sfu, "pa", "a");
    publisher_in(&mut sfu, "pb", "a");
    let late = sfu.answer_produced(Ok(text("answer")), &text("pa"), &sid);
    assert_eq!(late, Action::Fail(SfuError::NegotiationTimeout));
    sfu.renegotiate(text(OFFER), text("pa"), &sid);
    let stray = sfu.answer_produced(Ok(text("answer")), &text("pb"), &sid);
    assert_eq!(stray, Action::Fail(SfuError::NegotiationTimeout));
    let wrong = sfu.offer_delivered(Ok(text("offer")), Transport::PUBLISHER, &text("pa"), &sid);
    assert_eq!(wrong, Action::Fail(SfuError::NegotiationTimeout));
    assert!(sfu.find_session(&sid).unwrap().is_held_by(Transport::PUBLISHER, &text("pa")));
    assert_eq!(
        sfu.answer_produced(Ok(text("answer")), &text("pa"), &text("zz")),
        Action::Fail(SfuError::SessionNotFound)
    );
    assert_eq!(
        sfu.answer_produced(Ok(text("answer")), &text("px"), &sid),
        Action::Fail(SfuError::PublisherNotFound)
    );
}

#[test]
fn the_server_offers_a_renegotiation() {
    let mut sfu = SFU::new();
    let sid = text("a");
    publisher_in(&mut sfu, "pa", "a");
    assert_eq!(sfu.renegotiate_server(text("pa"), &text("zz")), Action::Fail(SfuError::SessionNotFound));
    assert_eq!(sfu.renegotiate_server(text("px"), &sid), Action::Fail(SfuError::PublisherNotFound));
    let started = sfu.renegotiate_server(text("pa"), &sid);
    assert_eq!(started, Action::Offer { transport: Transport::PUBLISHER, id: text("pa") });
    {
        let session = sfu.find_session(&sid).unwrap();
        assert_eq!(session.state_of(Transport::PUBLISHER, &text("pa")), NegotiationState::ServerOffering);
        assert!(!session.is_idle());
    }
    assert_eq!(
        sfu.answer_produced(Ok(text("answer")), &text("pa"), &sid),
        Action::Fail(SfuError::NegotiationTimeout)
    );
    let ended = sfu.offer_delivered(Ok(text("server offer")), Transport::PUBLISHER, &text("pa"), &sid);
    assert_eq!(
        ended,
        Action::Reply(SocketResponse::RenegotiateRes {
            sdp: text("server offer"),
            kind: text("NEGOTIATION_DONE"),
        })
    );
    let session = sfu.find_session(&sid).unwrap();
    assert_eq!(session.state_of(Transport::PUBLISHER, &text("pa")), NegotiationState::Stable);
    assert!(session.is_idle());
}

#[test]
fn a_subscriber_is_forwarded_publishers_of_its_own_session_only() {
    let mut sfu = SFU::new();
    let sid = text("a");
    publisher_in(&mut sfu, "pa", "a");
    publisher_in(&mut sfu, "pb", "b");
    subscriber_in(&mut sfu, "ua", "a");
    assert_eq!(
        sfu.subscribe_to_track(text("ua"), text("pa"), &text("zz")),
        Action::Fail(SfuError::SessionNotFound)
    );
    assert_eq!(
        sfu.subscribe_to_track(text("ux"), text("pa"), &sid),
        Action::Fail(SfuError::SubscriberNotFound)
    );
    assert_eq!(
        sfu.subscribe_to_track(text("ua"), text("pb"), &sid),
        Action::Fail(SfuError::PublisherNotFound)
    );
    assert!(!sfu.find_session(&sid).unwrap().get_subscriber(text("ua")).unwrap().forwards(&text("pb")));
    let started = sfu.subscribe_to_track(text("ua"), text("pa"), &sid);
    assert_eq!(started, Action::Offer { transport: Transport::SUBSCRIBER, id: text("ua") });
    {
        let session = sfu.find_session(&sid).unwrap();
        let subscriber = session.get_subscriber(text("ua")).unwrap();
        assert!(subscriber.forwards(&text("pa")));
        assert_eq!(subscriber.state(), NegotiationState::ServerOffering);
        assert!(session.is_held_by(Transport::SUBSCRIBER, &text("ua")));
    }
    assert_eq!(sfu.renegotiate(text(OFFER), text("pa"), &sid), Action::Wait);
    let ended = sfu.offer_delivered(Ok(text("server offer")), Transport::SUBSCRIBER, &text("ua"), &sid);
    assert_eq!(
        ended,
        Action::Reply(SocketResponse::RenegotiateRes {
            sdp: text("server offer"),
            kind: text("NEGOTIATION_DONE"),
        })
    );
    let session = sfu.find_session(&sid).unwrap();
    let subscriber = session.get_subscriber(text("ua")).unwrap();
    assert!(subscriber.forwards(&text("pa")));
    assert_eq!(subscriber.state(), NegotiationState::Stable);
    assert!(session.is_idle());
}
