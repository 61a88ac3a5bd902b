use rapture::error::SfuError;
use rapture::negotiation::{Fault, NegotiationEvent, NegotiationState};
use rapture::sfu::publisher::Publisher;
use rapture::sfu::subscriber::Subscriber;

const STATES: [NegotiationState; 4] = [
    NegotiationState::Uninitialized,
    NegotiationState::Negotiating,
    NegotiationState::Stable,
    NegotiationState::ServerOffering,
];

const EVENTS: [NegotiationEvent; 6] = [
    NegotiationEvent::Create,
    NegotiationEvent::Renegotiate,
    NegotiationEvent::AnswerProduced,
    NegotiationEvent::NegotiationNeeded,
    NegotiationEvent::OfferDelivered,
    NegotiationEvent::Failed,
];

#[test]
fn the_transitions_of_the_diagram() {
    assert_eq!(NegotiationState::Uninitialized.advance(NegotiationEvent::Create), Some(NegotiationState::Negotiating));
    assert_eq!(NegotiationState::Negotiating.advance(NegotiationEvent::AnswerProduced), Some(NegotiationState::Stable));
    assert_eq!(NegotiationState::Stable.advance(NegotiationEvent::Renegotiate), Some(NegotiationState::Negotiating));
    assert_eq!(NegotiationState::Stable.advance(NegotiationEvent::NegotiationNeeded), Some(NegotiationState::ServerOffering));
    assert_eq!(NegotiationState::ServerOffering.advance(NegotiationEvent::OfferDelivered), Some(NegotiationState::Stable));
}

#[test]
fn a_failed_exchange_leaves_the_transport_stable() {
    assert_eq!(NegotiationState::Negotiating.advance(NegotiationEvent::Failed), Some(NegotiationState::Stable));
    assert_eq!(NegotiationState::ServerOffering.advance(NegotiationEvent::Failed), Some(NegotiationState::Stable));
    assert_eq!(NegotiationState::Stable.advance(NegotiationEvent::Failed), None);
    assert_eq!(NegotiationState::Uninitialized.advance(NegotiationEvent::Failed), None);
}

#[test]
fn there_are_seven_transitions_and_no_more() {
    let mut enabled = 0;
    for state in STATES {
        for event in EVENTS {
            if state.advance(event).is_some() {
                enabled += 1;
            }
        }
    }
    assert_eq!(enabled, 7);
}

#[test]
fn no_state_is_terminal_and_none_leads_back_to_uninitialized() {
    for state in STATES {
        let mut can_move = false;
        for event in EVENTS {
            if let Some(next) = state.advance(event) {
                can_move = true;
                assert_ne!(next, NegotiationState::Uninitialized);
            }
        }
        assert!(can_move);
    }
}

#[test]
fn a_renegotiation_cannot_start_during_an_exchange() {
    assert_eq!(NegotiationState::Negotiating.advance(NegotiationEvent::Renegotiate), None);
    assert_eq!(NegotiationState::ServerOffering.advance(NegotiationEvent::Renegotiate), None);
    assert_eq!(NegotiationState::Negotiating.advance(NegotiationEvent::NegotiationNeeded), None);
    assert_eq!(NegotiationState::Uninitialized.advance(NegotiationEvent::Renegotiate), None);
}

#[test]
fn faults_are_reported_as_their_failures() {
    assert_eq!(Fault::OfferRejected.error(), SfuError::InvalidOffer);
    assert_eq!(Fault::Unavailable.error(), SfuError::EngineInit);
    assert_eq!(Fault::TimedOut.error(), SfuError::NegotiationTimeout);
}

#[test]
fn failures_have_their_names() {
    assert_eq!(SfuError::InvalidOffer.name(), "InvalidOfferError");
    assert_eq!(SfuError::SessionNotFound.name(), "SessionNotFound");
    assert_eq!(SfuError::PublisherNotFound.name(), "PublisherNotFound");
    assert_eq!(SfuError::SubscriberNotFound.name(), "SubscriberNotFound");
    assert_eq!(SfuError::EngineInit.name(), "EngineInitError");
    assert_eq!(SfuError::NegotiationTimeout.name(), "NegotiationTimeout");
    assert_eq!(SfuError::MalformedMessage.name(), "MalformedMessage");
}

#[test]
fn a_publisher_follows_the_state_machine() {
    let mut publisher = Publisher::new();
    assert_eq!(publisher.state(), NegotiationState::Negotiating);
    assert!(!publisher.on(NegotiationEvent::Renegotiate));
    assert_eq!(publisher.state(), NegotiationState::Negotiating);
    assert!(publisher.on(NegotiationEvent::AnswerProduced));
    assert_eq!(publisher.state(), NegotiationState::Stable);
    assert!(publisher.on(NegotiationEvent::NegotiationNeeded));
    assert_eq!(publisher.state(), NegotiationState::ServerOffering);
    assert!(publisher.on(NegotiationEvent::OfferDelivered));
    assert_eq!(publisher.state(), NegotiationState::Stable);
    assert!(!publisher.on(NegotiationEvent::Create));
    assert_eq!(publisher.state(), NegotiationState::Stable);
}

#[test]
fn a_subscriber_follows_the_state_machine() {
    let mut subscriber = Subscriber::new();
    assert_eq!(subscriber.state(), NegotiationState::Negotiating);
    assert!(subscriber.on(NegotiationEvent::AnswerProduced));
    assert_eq!(subscriber.state(), NegotiationState::Stable);
    assert!(subscriber.on(NegotiationEvent::Renegotiate));
    assert!(subscriber.on(NegotiationEvent::Failed));
    assert_eq!(subscriber.state(), NegotiationState::Stable);
    assert!(!subscriber.forwards(&"p".to_string()));
}
