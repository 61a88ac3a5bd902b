//! What holds of the engine as a whole, proved of the operations of the model.

use vstd::prelude::*;
use crate::negotiation::{Fault, NegotiationState};
use crate::signalling::Transport;
use crate::error::SfuError;
use crate::sfu::model::{
    create_step,
    created_response,
    finish_step,
    knows,
    negotiated_response,
    registry_wf,
    renegotiate_step,
    server_offer_step,
    subscribe_step,
    with_session,
    ActionView,
    RegistryView,
    SessionView,
};

verus! {

/// Registering a transport keeps the registry well formed.
pub proof fn lemma_create_keeps_wf(
    reg: RegistryView,
    transport: Transport,
    id: Seq<char>,
    outcome: Result<Seq<char>, Fault>,
    session_id: Seq<char>,
)
    requires
        registry_wf(reg),
    ensures
        registry_wf(create_step(reg, transport, id, outcome, session_id).registry),
{
    let after = create_step(reg, transport, id, outcome, session_id).registry;
    if after != reg {
        let before = with_session(reg, session_id)[session_id];
        let session = before.with_transport(transport, id);
        assert(after == reg.insert(session_id, session));
        assert(before.coherent());
        assert(before.idle());
        assert(session.sources_in_session());
        assert forall|t: Transport, i: Seq<char>| session.has(t, i) implies #[trigger]
            session.state_of(t, i) == NegotiationState::Stable by {
            if !(t == transport && i == id) {
                assert(before.has(t, i));
                assert(before.state_of(t, i) == NegotiationState::Stable);
            }
        }
        assert(session.coherent());
        assert forall|s1: Seq<char>, s2: Seq<char>, t: Transport, i: Seq<char>|
            after.contains_key(s1) && after.contains_key(s2) && (#[trigger] after[s1].has(t, i))
                && (#[trigger] after[s2].has(t, i)) implies s1 == s2 by {
            if s1 != s2 {
                if s1 == session_id {
                    assert(reg[s2].has(t, i));
                    if t == transport && i == id {
                    } else {
                        assert(before.has(t, i));
                        assert(reg.contains_key(s1));
                    }
                } else if s2 == session_id {
                    assert(reg[s1].has(t, i));
                    if t == transport && i == id {
                    } else {
                        assert(before.has(t, i));
                        assert(reg.contains_key(s2));
                    }
                }
            }
        }
    }
}

/// A registry without one of its sessions is well formed.
pub proof fn lemma_remove_keeps_wf(reg: RegistryView, session_id: Seq<char>)
    requires
        registry_wf(reg),
    ensures
        registry_wf(reg.remove(session_id)),
{
    let after = reg.remove(session_id);
    assert forall|s1: Seq<char>, s2: Seq<char>, t: Transport, i: Seq<char>|
        after.contains_key(s1) && after.contains_key(s2) && (#[trigger] after[s1].has(t, i)) && (
        #[trigger] after[s2].has(t, i)) implies s1 == s2 by {
        assert(reg[s1].has(t, i));
        assert(reg[s2].has(t, i));
    }
}

/// Putting a coherent session with the same transports in the place of a
/// session keeps the registry well formed.
proof fn lemma_replace_keeps_wf(reg: RegistryView, session_id: Seq<char>, session: SessionView)
    requires
        registry_wf(reg),
        reg.contains_key(session_id),
        session.coherent(),
        forall|t: Transport, i: Seq<char>| session.has(t, i) == reg[session_id].has(t, i),
    ensures
        registry_wf(reg.insert(session_id, session)),
{
    let after = reg.insert(session_id, session);
    assert forall|s1: Seq<char>, s2: Seq<char>, t: Transport, i: Seq<char>|
        after.contains_key(s1) && after.contains_key(s2) && (#[trigger] after[s1].has(t, i)) && (
        #[trigger] after[s2].has(t, i)) implies s1 == s2 by {
        assert(reg[s1].has(t, i));
        assert(reg[s2].has(t, i));
    }
}

/// The start of a renegotiation keeps the registry well formed.
pub proof fn lemma_renegotiate_keeps_wf(
    reg: RegistryView,
    offer: Seq<char>,
    offer_ok: bool,
    publisher_id: Seq<char>,
    session_id: Seq<char>,
)
    requires
        registry_wf(reg),
    ensures
        registry_wf(renegotiate_step(reg, offer, offer_ok, publisher_id, session_id).registry),
{
    let after = renegotiate_step(reg, offer, offer_ok, publisher_id, session_id).registry;
    if after != reg {
        let before = reg[session_id];
        assert(before.coherent());
        let session = before.held_by(
            Transport::PUBLISHER,
            publisher_id,
            NegotiationState::Negotiating,
        );
        lemma_held_coherent(before, Transport::PUBLISHER, publisher_id, NegotiationState::Negotiating);
        lemma_replace_keeps_wf(reg, session_id, session);
    }
}

/// A coherent, idle session stays coherent when one of its transports takes
/// the lock and enters an exchange.
proof fn lemma_held_coherent(
    before: SessionView,
    transport: Transport,
    id: Seq<char>,
    state: NegotiationState,
)
    requires
        before.coherent(),
        before.idle(),
        before.has(transport, id),
        state == NegotiationState::Negotiating || state == NegotiationState::ServerOffering,
    ensures
        before.held_by(transport, id, state).coherent(),
        forall|t: Transport, i: Seq<char>|
            before.held_by(transport, id, state).has(t, i) == before.has(t, i),
{
    let session = before.held_by(transport, id, state);
    assert forall|t: Transport, i: Seq<char>| session.has(t, i) == before.has(t, i) by {}
    assert forall|t: Transport, i: Seq<char>|
        session.has(t, i) && session.holder != Some((t, i)) implies #[trigger] session.state_of(
        t,
        i,
    ) == NegotiationState::Stable by {
        assert(before.has(t, i));
        assert(before.state_of(t, i) == NegotiationState::Stable);
    }
    assert forall|s: Seq<char>, p: Seq<char>|
        session.subscribers.contains_key(s) && #[trigger] session.subscribers[s].sources.contains(
            p,
        ) implies session.publishers.contains_key(p) by {
        assert(before.subscribers.contains_key(s));
        assert(before.subscribers[s].sources.contains(p));
    }
}

/// The start of a renegotiation that the server offers keeps the registry well
/// formed.
pub proof fn lemma_server_offer_keeps_wf(
    reg: RegistryView,
    transport: Transport,
    id: Seq<char>,
    session_id: Seq<char>,
)
    requires
        registry_wf(reg),
    ensures
        registry_wf(server_offer_step(reg, transport, id, session_id).registry),
{
    let after = server_offer_step(reg, transport, id, session_id).registry;
    if after != reg {
        let before = reg[session_id];
        assert(before.coherent());
        lemma_held_coherent(before, transport, id, NegotiationState::ServerOffering);
        lemma_replace_keeps_wf(
            reg,
            session_id,
            before.held_by(transport, id, NegotiationState::ServerOffering),
        );
    }
}

/// The end of an exchange keeps the registry well formed.
pub proof fn lemma_finish_keeps_wf(
    reg: RegistryView,
    during: NegotiationState,
    outcome: Result<Seq<char>, Fault>,
    transport: Transport,
    id: Seq<char>,
    session_id: Seq<char>,
)
    requires
        registry_wf(reg),
    ensures
        registry_wf(finish_step(reg, during, outcome, transport, id, session_id).registry),
{
    let after = finish_step(reg, during, outcome, transport, id, session_id).registry;
    if after != reg {
        let before = reg[session_id];
        assert(before.coherent());
        let session = before.released();
        assert forall|t: Transport, i: Seq<char>| session.has(t, i) == before.has(t, i) by {}
        assert forall|t: Transport, i: Seq<char>| session.has(t, i) implies #[trigger]
            session.state_of(t, i) == NegotiationState::Stable by {
            if !(t == transport && i == id) {
                assert(before.has(t, i));
                assert(before.state_of(t, i) == NegotiationState::Stable);
            }
        }
        assert forall|s: Seq<char>, p: Seq<char>|
            session.subscribers.contains_key(s) && #[trigger] session.subscribers[s].sources.contains(
                p,
            ) implies session.publishers.contains_key(p) by {
            assert(before.subscribers.contains_key(s));
            assert(before.subscribers[s].sources.contains(p));
        }
        lemma_replace_keeps_wf(reg, session_id, session);
    }
}

/// Forwarding a publisher to a subscriber keeps the registry well formed.
pub proof fn lemma_subscribe_keeps_wf(
    reg: RegistryView,
    subscriber_id: Seq<char>,
    publisher_id: Seq<char>,
    session_id: Seq<char>,
)
    requires
        registry_wf(reg),
    ensures
        registry_wf(subscribe_step(reg, subscriber_id, publisher_id, session_id).registry),
{
    let after = subscribe_step(reg, subscriber_id, publisher_id, session_id).registry;
    if after != reg {
        let before = reg[session_id];
        assert(before.coherent());
        let sourced = before.with_source(subscriber_id, publisher_id);
        assert forall|t: Transport, i: Seq<char>| sourced.has(t, i) == before.has(t, i) by {}
        assert forall|t: Transport, i: Seq<char>| sourced.has(t, i) implies #[trigger]
            sourced.state_of(t, i) == NegotiationState::Stable by {
            assert(before.has(t, i));
            assert(before.state_of(t, i) == NegotiationState::Stable);
        }
        assert forall|s: Seq<char>, p: Seq<char>|
            sourced.subscribers.contains_key(s) && #[trigger] sourced.subscribers[s].sources.contains(
                p,
            ) implies sourced.publishers.contains_key(p) by {
            if !(s == subscriber_id && p == publisher_id) {
                assert(before.subscribers.contains_key(s));
                assert(before.subscribers[s].sources.contains(p));
            }
        }
        assert(sourced.coherent());
        lemma_held_coherent(
            sourced,
            Transport::SUBSCRIBER,
            subscriber_id,
            NegotiationState::ServerOffering,
        );
        lemma_replace_keeps_wf(
            reg,
            session_id,
            sourced.held_by(
                Transport::SUBSCRIBER,
                subscriber_id,
                NegotiationState::ServerOffering,
            ),
        );
    }
}

/// One session per identifier. Whoever asks for an identifier after another
/// has asked for it is given the session that the first was given, and the
/// registry is as the first request left it. A request finds the session that
/// is there, and leaves every other session alone. Two requests lead to the
/// same registry in either order.
pub proof fn lemma_one_session_per_id(reg: RegistryView, id: Seq<char>, other: Seq<char>)
    ensures
        with_session(reg, id).contains_key(id),
        with_session(with_session(reg, id), id) == with_session(reg, id),
        reg.contains_key(id) ==> with_session(reg, id) == reg,
        other != id ==> with_session(reg, id).contains_key(other) == reg.contains_key(other),
        other != id ==> with_session(reg, id)[other] == reg[other],
        with_session(with_session(reg, id), other) == with_session(with_session(reg, other), id),
{
    assert(with_session(with_session(reg, id), other) =~= with_session(
        with_session(reg, other),
        id,
    ));
}

/// The identifier of a transport that was registered is new: no session knew
/// a transport of that kind under it, and afterwards the session it was
/// registered in is the only one that does.
pub proof fn lemma_created_id_is_fresh(
    reg: RegistryView,
    transport: Transport,
    id: Seq<char>,
    outcome: Result<Seq<char>, Fault>,
    session_id: Seq<char>,
    other: Seq<char>,
)
    requires
        create_step(reg, transport, id, outcome, session_id).action is Reply,
    ensures
        !knows(reg, transport, id),
        create_step(reg, transport, id, outcome, session_id).registry[session_id].has(
            transport,
            id,
        ),
        other != session_id && create_step(
            reg,
            transport,
            id,
            outcome,
            session_id,
        ).registry.contains_key(other) ==> !create_step(
            reg,
            transport,
            id,
            outcome,
            session_id,
        ).registry[other].has(transport, id),
{
    let after = create_step(reg, transport, id, outcome, session_id).registry;
    if other != session_id && after.contains_key(other) {
        assert(reg.contains_key(other));
        assert(after[other] == reg[other]);
        if reg[other].has(transport, id) {
            assert(knows(reg, transport, id));
        }
    }
}

/// No operation forgets a transport: what a session holds before an operation
/// it holds after it, whatever the operation and its inputs. With
/// `lemma_created_id_is_fresh`: an identifier is handed out once.
pub proof fn lemma_transports_stay(
    reg: RegistryView,
    known_in: Seq<char>,
    known: (Transport, Seq<char>),
    transport: Transport,
    id: Seq<char>,
    other_id: Seq<char>,
    outcome: Result<Seq<char>, Fault>,
    offer: Seq<char>,
    offer_ok: bool,
    during: NegotiationState,
    session_id: Seq<char>,
)
    requires
        reg.contains_key(known_in),
        reg[known_in].has(known.0, known.1),
    ensures
        held_in(with_session(reg, session_id), known_in, known),
        held_in(create_step(reg, transport, id, outcome, session_id).registry, known_in, known),
        held_in(
            renegotiate_step(reg, offer, offer_ok, id, session_id).registry,
            known_in,
            known,
        ),
        held_in(server_offer_step(reg, transport, id, session_id).registry, known_in, known),
        held_in(
            finish_step(reg, during, outcome, transport, id, session_id).registry,
            known_in,
            known,
        ),
        held_in(subscribe_step(reg, id, other_id, session_id).registry, known_in, known),
{
}

/// Whether a session of the registry holds a transport.
pub open spec fn held_in(
    reg: RegistryView,
    session_id: Seq<char>,
    transport: (Transport, Seq<char>),
) -> bool {
    reg.contains_key(session_id) && reg[session_id].has(transport.0, transport.1)
}

/// A renegotiation looks for its publisher in the session it names and
/// nowhere else: where that session does not hold the publisher it fails with
/// `PublisherNotFound` and changes nothing, also where another session holds a
/// publisher under the same identifier.
pub proof fn lemma_renegotiate_is_scoped(
    reg: RegistryView,
    offer: Seq<char>,
    offer_ok: bool,
    publisher_id: Seq<char>,
    session_id: Seq<char>,
)
    requires
        reg.contains_key(session_id),
        !reg[session_id].publishers.contains_key(publisher_id),
    ensures
        renegotiate_step(reg, offer, offer_ok, publisher_id, session_id).action
            == ActionView::Fail(SfuError::PublisherNotFound),
        renegotiate_step(reg, offer, offer_ok, publisher_id, session_id).registry == reg,
{
}

/// A publisher that was just created can renegotiate in its own session and
/// in no other. In the session it was created in, a well-formed offer is
/// taken up, and the answer that the peer connection produces goes out as the
/// response, after which the registry is as it was after the creation. In any
/// other session the renegotiation fails with `SessionNotFound` or
/// `PublisherNotFound`.
pub proof fn lemma_renegotiate_after_create(
    reg: RegistryView,
    publisher_id: Seq<char>,
    first_answer: Seq<char>,
    session_id: Seq<char>,
    offer: Seq<char>,
    offer_ok: bool,
    answer: Seq<char>,
    elsewhere: Seq<char>,
)
    requires
        registry_wf(reg),
        create_step(reg, Transport::PUBLISHER, publisher_id, Ok(first_answer), session_id).action
            == ActionView::Reply(
            created_response(Transport::PUBLISHER, first_answer, publisher_id),
        ),
    ensures
        ({
            let created = create_step(
                reg,
                Transport::PUBLISHER,
                publisher_id,
                Ok(first_answer),
                session_id,
            ).registry;
            let started = renegotiate_step(created, offer, true, publisher_id, session_id);
            let ended = finish_step(
                started.registry,
                NegotiationState::Negotiating,
                Ok(answer),
                Transport::PUBLISHER,
                publisher_id,
                session_id,
            );
            let stray = renegotiate_step(created, offer, offer_ok, publisher_id, elsewhere);
            &&& started.action == ActionView::Answer { publisher_id, offer }
            &&& ended.action == ActionView::Reply(negotiated_response(answer))
            &&& ended.registry == created
            &&& elsewhere != session_id ==> stray.registry == created && (stray.action
                == ActionView::Fail(SfuError::SessionNotFound) || stray.action
                == ActionView::Fail(SfuError::PublisherNotFound))
        }),
{
    let created = create_step(
        reg,
        Transport::PUBLISHER,
        publisher_id,
        Ok(first_answer),
        session_id,
    ).registry;
    lemma_create_keeps_wf(reg, Transport::PUBLISHER, publisher_id, Ok(first_answer), session_id);
    lemma_created_id_is_fresh(
        reg,
        Transport::PUBLISHER,
        publisher_id,
        Ok(first_answer),
        session_id,
        elsewhere,
    );
    let session = created[session_id];
    assert(session.coherent());
    assert(session.idle());
    assert(session.has(Transport::PUBLISHER, publisher_id));
    assert(session.state_of(Transport::PUBLISHER, publisher_id) == NegotiationState::Stable);
    let started = renegotiate_step(created, offer, true, publisher_id, session_id);
    let held = session.held_by(
        Transport::PUBLISHER,
        publisher_id,
        NegotiationState::Negotiating,
    );
    assert(started.registry[session_id] == held);
    assert(held.released().publishers =~= session.publishers);
    assert(held.released() == session);
    let ended = finish_step(
        started.registry,
        NegotiationState::Negotiating,
        Ok(answer),
        Transport::PUBLISHER,
        publisher_id,
        session_id,
    );
    assert(ended.registry =~= created);
}

/// Sessions do not stand in each other's way. An operation on one session
/// leaves every other session as it was, and an operation waits only because
/// the lock of its own session is held. So whatever is in flight in one
/// session, an operation on another, idle one goes ahead.
pub proof fn lemma_sessions_independent(
    reg: RegistryView,
    transport: Transport,
    id: Seq<char>,
    other_id: Seq<char>,
    outcome: Result<Seq<char>, Fault>,
    offer: Seq<char>,
    offer_ok: bool,
    during: NegotiationState,
    a: Seq<char>,
    b: Seq<char>,
)
    requires
        a != b,
    ensures
        untouched(reg, with_session(reg, a), b),
        untouched(reg, create_step(reg, transport, id, outcome, a).registry, b),
        untouched(reg, renegotiate_step(reg, offer, offer_ok, id, a).registry, b),
        untouched(reg, server_offer_step(reg, transport, id, a).registry, b),
        untouched(reg, finish_step(reg, during, outcome, transport, id, a).registry, b),
        untouched(reg, subscribe_step(reg, id, other_id, a).registry, b),
        create_step(reg, transport, id, outcome, b).action is Wait ==> busy(reg, b),
        renegotiate_step(reg, offer, offer_ok, id, b).action is Wait ==> busy(reg, b),
        server_offer_step(reg, transport, id, b).action is Wait ==> busy(reg, b),
        !(finish_step(reg, during, outcome, transport, id, b).action is Wait),
        subscribe_step(reg, id, other_id, b).action is Wait ==> busy(reg, b),
{
}

/// Whether an operation left a session as it was.
pub open spec fn untouched(before: RegistryView, after: RegistryView, session_id: Seq<char>) -> bool {
    after.contains_key(session_id) == before.contains_key(session_id) && after[session_id]
        == before[session_id]
}

/// Whether a session's lock is held.
pub open spec fn busy(reg: RegistryView, session_id: Seq<char>) -> bool {
    reg.contains_key(session_id) && !reg[session_id].idle()
}

} // verus!
