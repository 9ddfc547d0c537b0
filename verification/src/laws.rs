//! Laws of the session, proved of the state machine that the client runs.
//!
//! The laws are stated for stores that do their work, that is with no
//! fault, and for a stream that can be flushed.

use crate::error::{Error, IoFailure};
use crate::message::{MessageView, PubOpt, QoS};
use crate::model::{
    dropped, granted, outbound, ActionView, ClientState, ClientView, OutcomeView, OutputView,
    PendingView,
};
use crate::options::OptionsView;
use crate::packet::{
    Connack, ConnectReturnCode, PacketView, PublishView, SubscribeReturnCodes,
    SubscribeTopicView, SubscribeView,
};
use crate::pid::PacketIdentifier;
use crate::sub::{
    distinct, holds, index_of, lemma_with, lemma_without, stands_at, with, without,
    SubscriptionView,
};
use crate::topic::{is_topic_filter, is_topic_name};
use vstd::prelude::*;

verus! {

/// A publication that is delivered at least once joins the end of the
/// queue of unacknowledged publications, under an identifier that is not
/// zero, and goes out as one PUBLISH.
pub proof fn law_at_least_once_is_queued(
    s: ClientView,
    topic: Seq<char>,
    payload: Seq<u8>,
    opt: PubOpt,
)
    requires
        is_topic_name(topic),
        opt.qos() == QoS::AtLeastOnce,
    ensures
        ({
            let (after, done) = s.publish(topic, payload, opt, None);
            let message = outbound(topic, payload, opt, Some(after.last_pid));
            &&& done is Ok
            &&& after.last_pid.0 != 0
            &&& after.outgoing_ack == s.outgoing_ack.push(message)
            &&& after.outbox == s.outbox.push(OutputView::Write(PacketView::Publish(message.publish())))
        }),
{
}

/// PUBACK for the oldest unacknowledged publication removes that entry and
/// no other: the queue is one shorter, and what was behind the entry
/// follows in its order. Nothing else changes.
pub proof fn law_puback_removes_the_oldest(s: ClientView, pid: PacketIdentifier)
    requires
        s.state == ClientState::Connected,
        s.outgoing_ack.len() > 0,
        s.outgoing_ack[0].pid == Some(pid),
    ensures
        ({
            let (after, action) = s.parse_packet(PacketView::Puback(pid), None);
            &&& action == ActionView::Return(Ok(None))
            &&& after == ClientView { outgoing_ack: s.outgoing_ack.drop_first(), ..s }
            &&& after.outgoing_ack.len() == s.outgoing_ack.len() - 1
            &&& forall|i: int|
                0 <= i < after.outgoing_ack.len() ==> after.outgoing_ack[i] == s.outgoing_ack[i + 1]
        }),
{
}

/// PUBACK for any other publication than the oldest is an error.
pub proof fn law_puback_out_of_order(s: ClientView, pid: PacketIdentifier)
    requires
        s.state == ClientState::Connected,
        s.outgoing_ack.len() == 0 || s.outgoing_ack[0].pid != Some(pid),
    ensures
        s.parse_packet(PacketView::Puback(pid), None).1 == ActionView::Return(
            Err(Error::UnhandledPuback(pid)),
        ),
{
}

/// A publication that was sent for delivery at least once with nothing
/// before it is gone from the queue after its PUBACK.
pub proof fn law_at_least_once_round_trip(
    s: ClientView,
    topic: Seq<char>,
    payload: Seq<u8>,
    opt: PubOpt,
)
    requires
        s.state == ClientState::Connected,
        s.outgoing_ack.len() == 0,
        is_topic_name(topic),
        opt.qos() == QoS::AtLeastOnce,
    ensures
        ({
            let sent = s.publish(topic, payload, opt, None).0;
            let (after, action) = sent.parse_packet(PacketView::Puback(sent.last_pid), None);
            &&& sent.outgoing_ack.len() == 1
            &&& action == ActionView::Return(Ok(None))
            &&& after.outgoing_ack.len() == 0
        }),
{
}

/// A publication that is delivered exactly once joins the end of the queue
/// of unreceived publications and is kept in the outgoing store.
pub proof fn law_exactly_once_is_stored(
    s: ClientView,
    topic: Seq<char>,
    payload: Seq<u8>,
    opt: PubOpt,
)
    requires
        is_topic_name(topic),
        opt.qos() == QoS::ExactlyOnce,
        s.opts.outgoing_store is Some,
    ensures
        ({
            let (after, done) = s.publish(topic, payload, opt, None);
            let message = outbound(topic, payload, opt, Some(after.last_pid));
            &&& done is Ok
            &&& after.last_pid.0 != 0
            &&& after.outgoing_rec == s.outgoing_rec.push(message)
            &&& after.opts.outgoing_store == Some(
                s.opts.outgoing_store->0.insert(after.last_pid, message),
            )
        }),
{
}

/// The hand-over of the oldest unreceived publication: PUBREC takes it
/// from its queue and has PUBREL written; once that is flushed the
/// publication has left the outgoing store and its identifier awaits
/// PUBCOMP; PUBCOMP takes the identifier from its queue.
pub proof fn law_exactly_once_hand_over(s: ClientView, pid: PacketIdentifier)
    requires
        s.state == ClientState::Connected,
        s.opts.outgoing_store is Some,
        s.outgoing_rec.len() > 0,
        s.outgoing_rec[0].pid == Some(pid),
    ensures
        ({
            let (received, first) = s.parse_packet(PacketView::Pubrec(pid), None);
            let (released, second) = received.flushed(Ok(()), None);
            let (completed, third) = released.parse_packet(PacketView::Pubcomp(pid), None);
            &&& first == ActionView::Flush
            &&& received.outbox == s.outbox.push(OutputView::Write(PacketView::Pubrel(pid)))
            &&& received.outgoing_rec == s.outgoing_rec.drop_first()
            &&& second == ActionView::Return(Ok(None))
            &&& released.outgoing_comp == s.outgoing_comp.push(pid)
            &&& released.opts.outgoing_store == Some(s.opts.outgoing_store->0.remove(pid))
            &&& !released.opts.outgoing_store->0.contains_key(pid)
            &&& third == ActionView::Return(Ok(None))
            &&& completed.outgoing_rec == s.outgoing_rec.drop_first()
            &&& completed.outgoing_comp == s.outgoing_comp.push(pid).drop_first()
            &&& completed.opts.outgoing_store == released.opts.outgoing_store
        }),
{
}

/// A publication that was sent for delivery exactly once with nothing in
/// flight before it has left both queues and the store after PUBREC, the
/// flush of PUBREL, and PUBCOMP.
pub proof fn law_exactly_once_round_trip(
    s: ClientView,
    topic: Seq<char>,
    payload: Seq<u8>,
    opt: PubOpt,
)
    requires
        s.state == ClientState::Connected,
        s.opts.outgoing_store is Some,
        s.outgoing_rec.len() == 0,
        s.outgoing_comp.len() == 0,
        is_topic_name(topic),
        opt.qos() == QoS::ExactlyOnce,
    ensures
        ({
            let sent = s.publish(topic, payload, opt, None).0;
            let pid = sent.last_pid;
            let received = sent.parse_packet(PacketView::Pubrec(pid), None).0;
            let released = received.flushed(Ok(()), None).0;
            let (completed, action) = released.parse_packet(PacketView::Pubcomp(pid), None);
            &&& sent.opts.outgoing_store->0.contains_key(pid)
            &&& action == ActionView::Return(Ok(None))
            &&& completed.outgoing_rec.len() == 0
            &&& completed.outgoing_comp.len() == 0
            &&& !completed.opts.outgoing_store->0.contains_key(pid)
        }),
{
    let sent = s.publish(topic, payload, opt, None).0;
    law_exactly_once_hand_over(sent, sent.last_pid);
}

/// An inbound publication that is delivered exactly once reaches the
/// application once, and not before the broker has released it.
///
/// Taking the PUBLISH in hands nothing back: the publication is stored and
/// PUBREC goes out. PUBREL hands back the stored publication. A second
/// PUBREL hands back nothing. When the application has completed the
/// publication and PUBCOMP is flushed, the store holds it no longer.
pub proof fn law_inbound_exactly_once(s: ClientView, publish: PublishView)
    requires
        s.state == ClientState::Connected,
        s.opts.incomming_store is Some,
        s.incomming_rec.len() == 0,
        s.incomming_rel.len() == 0,
        publish.qos == QoS::ExactlyOnce,
        publish.well_formed(),
        is_topic_name(publish.topic_name),
    ensures
        ({
            let pid = publish.pid->0;
            let (taken, first) = s.parse_packet(PacketView::Publish(publish), None);
            let (stored, second) = taken.flushed(Ok(()), None);
            let (released, third) = stored.parse_packet(PacketView::Pubrel(pid), None);
            let (again, fourth) = released.parse_packet(PacketView::Pubrel(pid), None);
            let (completing, done) = released.complete(pid);
            let (completed, fifth) = completing.flushed(Ok(()), None);
            &&& first == ActionView::Flush
            &&& taken.outbox == s.outbox.push(OutputView::Write(PacketView::Pubrec(pid)))
            &&& taken.opts.incomming_store->0.contains_key(pid)
            &&& taken.opts.incomming_store->0[pid] == publish.message()
            &&& second == ActionView::Return(Ok(None))
            &&& third == ActionView::Return(Ok(Some(publish.message())))
            &&& released.incomming_rel == seq![pid]
            &&& fourth == ActionView::Return(Err(Error::UnhandledPubrel(pid)))
            &&& done is Ok
            &&& completing.outbox == released.outbox.push(
                OutputView::Write(PacketView::Pubcomp(pid)),
            )
            &&& fifth == ActionView::Return(Ok(None))
            &&& !completed.opts.incomming_store->0.contains_key(pid)
            &&& completed.incomming_rec.len() == 0
            &&& completed.incomming_rel.len() == 0
        }),
{
    let pid = publish.pid->0;
    let (taken, first) = s.parse_packet(PacketView::Publish(publish), None);
    let (stored, second) = taken.flushed(Ok(()), None);
    let (released, third) = stored.parse_packet(PacketView::Pubrel(pid), None);
    assert(taken.incomming_rec == seq![publish.message()]);
    assert(stored.incomming_rec[0].pid == Some(pid));
    assert(released.incomming_rel == seq![pid]);
}

/// Once the application has completed a publication, completing it again
/// is a protocol violation.
pub proof fn law_complete_once(s: ClientView, pid: PacketIdentifier)
    requires
        s.incomming_rel == seq![pid],
    ensures
        s.complete(pid).1 is Ok,
        s.complete(pid).0.complete(pid).1 == Err::<(), Error>(Error::ProtocolViolation),
{
}

/// After a handshake in which the broker resumed no session, exactly one
/// SUBSCRIBE goes out, and every filter of the registry stands in it at
/// exactly one place, with the guarantee that was granted for it.
pub proof fn law_resubscribe_asks_for_every_filter(s: ClientView, connack: Connack)
    requires
        s.state == ClientState::Handshake,
        connack.code == ConnectReturnCode::Accepted,
        !connack.session_present,
        distinct(s.subscriptions),
    ensures
        ({
            let (connected, action) = s.parse_packet(PacketView::Connack(connack), None);
            let after = connected.resubscribe();
            let asked = SubscribeView {
                pid: after.last_pid,
                topics: after.await_suback.last().topics,
            };
            &&& action == ActionView::Return(Ok(None))
            &&& connected.state == ClientState::Connected
            &&& after.outbox == s.outbox.push(OutputView::Write(PacketView::Subscribe(asked)))
            &&& after.await_suback == s.await_suback.push(asked)
            &&& asked.topics.len() == s.subscriptions.len()
            &&& forall|filter: Seq<char>| #[trigger]
                holds(s.subscriptions, filter) ==> {
                    let at = index_of(s.subscriptions, filter);
                    &&& 0 <= at < asked.topics.len()
                    &&& asked.topics[at].topic_path == filter
                    &&& asked.topics[at].qos == s.subscriptions[at].qos
                    &&& forall|i: int|
                        0 <= i < asked.topics.len() && asked.topics[i].topic_path == filter ==> i
                            == at
                }
            &&& forall|i: int|
                0 <= i < asked.topics.len() ==> holds(
                    s.subscriptions,
                    #[trigger] asked.topics[i].topic_path,
                )
        }),
{
    let (connected, action) = s.parse_packet(PacketView::Connack(connack), None);
    let after = connected.resubscribe();
    let topics = after.await_suback.last().topics;
    assert forall|filter: Seq<char>| #[trigger] holds(s.subscriptions, filter) implies {
        let at = index_of(s.subscriptions, filter);
        &&& 0 <= at < topics.len()
        &&& topics[at].topic_path == filter
        &&& topics[at].qos == s.subscriptions[at].qos
        &&& forall|i: int| 0 <= i < topics.len() && topics[i].topic_path == filter ==> i == at
    } by {
        let at = index_of(s.subscriptions, filter);
        assert(stands_at(s.subscriptions, filter, at));
    }
    assert forall|i: int| 0 <= i < topics.len() implies holds(
        s.subscriptions,
        #[trigger] topics[i].topic_path,
    ) by {
        assert(stands_at(s.subscriptions, topics[i].topic_path, i));
    }
}

/// With a resumed session the registry is not asked for again.
pub proof fn law_resumed_session_keeps_quiet(s: ClientView)
    requires
        s.session_present,
    ensures
        s.resubscribe() == s,
{
}

/// What the application asks to be published.
pub struct Publication {
    pub topic: Seq<char>,
    pub payload: Seq<u8>,
    pub opt: PubOpt,
}

/// The session after the publications `sent` went out in turn.
pub open spec fn published(s: ClientView, sent: Seq<Publication>) -> ClientView
    decreases sent.len(),
{
    if sent.len() == 0 {
        s
    } else {
        let last = sent.last();
        published(s, sent.drop_last()).publish(last.topic, last.payload, last.opt, None).0
    }
}

/// What the broker answers to one publication that went out under `pid`:
/// nothing, PUBACK, or PUBREC and then PUBCOMP.
pub open spec fn answer(opt: PubOpt, pid: PacketIdentifier) -> Seq<PacketView> {
    match opt.qos() {
        QoS::AtMostOnce => Seq::empty(),
        QoS::AtLeastOnce => seq![PacketView::Puback(pid)],
        QoS::ExactlyOnce => seq![PacketView::Pubrec(pid), PacketView::Pubcomp(pid)],
    }
}

/// What the broker answers to the publications `sent`: the answer to each
/// in the order in which they went out, under the identifier it went out
/// with.
pub open spec fn answers(s: ClientView, sent: Seq<Publication>) -> Seq<PacketView>
    decreases sent.len(),
{
    if sent.len() == 0 {
        Seq::empty()
    } else {
        answers(s, sent.drop_last()) + answer(
            sent.last().opt,
            published(s, sent.drop_last()).last_pid.spec_next(),
        )
    }
}

/// The session takes one packet in, and the stream is flushed if that is
/// asked for.
pub open spec fn taken(s: ClientView, packet: PacketView) -> (ClientView, ActionView) {
    let (parsed, action) = s.parse_packet(packet, None);
    if action == ActionView::Flush {
        parsed.flushed(Ok(()), None)
    } else {
        (parsed, action)
    }
}

/// Each of `packets` in turn is taken in without error, and after the last
/// of them the session is normalized.
pub open spec fn settles(s: ClientView, packets: Seq<PacketView>) -> bool
    decreases packets.len(),
{
    if packets.len() == 0 {
        s.normalized()
    } else {
        let (next, action) = taken(s, packets[0]);
        action == ActionView::Return(Ok(None)) && settles(next, packets.drop_first())
    }
}

/// The session after each of `packets` in turn was taken in.
pub open spec fn after_all(s: ClientView, packets: Seq<PacketView>) -> ClientView
    decreases packets.len(),
{
    if packets.len() == 0 {
        s
    } else {
        after_all(taken(s, packets[0]).0, packets.drop_first())
    }
}

/// A session that settles under `packets` is normalized after them.
pub proof fn lemma_settled_is_normalized(s: ClientView, packets: Seq<PacketView>)
    requires
        settles(s, packets),
    ensures
        after_all(s, packets).normalized(),
    decreases packets.len(),
{
    if packets.len() > 0 {
        lemma_settled_is_normalized(taken(s, packets[0]).0, packets.drop_first());
    }
}

/// The packet acknowledges a publication of the session.
pub open spec fn is_answer(packet: PacketView) -> bool {
    packet is Puback || packet is Pubrec || packet is Pubcomp
}

/// The session without what an acknowledgement never looks at: the outbox
/// and what the outgoing store holds.
pub open spec fn in_flight(s: ClientView) -> ClientView {
    ClientView {
        outbox: Seq::empty(),
        opts: OptionsView {
            outgoing_store: match s.opts.outgoing_store {
                Some(_) => Some(Map::empty()),
                None => None,
            },
            ..s.opts
        },
        ..s
    }
}

/// Sessions that differ only in their outbox and in what their outgoing
/// store holds take an acknowledgement alike.
proof fn lemma_taken_alike(a: ClientView, b: ClientView, packet: PacketView)
    requires
        in_flight(a) == in_flight(b),
        is_answer(packet),
    ensures
        taken(a, packet).1 == taken(b, packet).1,
        in_flight(taken(a, packet).0) == in_flight(taken(b, packet).0),
{
    assert(a.opts.outgoing_store is Some <==> b.opts.outgoing_store is Some);
    assert(a.outgoing_ack == in_flight(a).outgoing_ack);
    assert(b.outgoing_ack == in_flight(b).outgoing_ack);
    assert(a.outgoing_rec == in_flight(a).outgoing_rec);
    assert(b.outgoing_rec == in_flight(b).outgoing_rec);
    assert(a.outgoing_comp == in_flight(a).outgoing_comp);
    assert(b.outgoing_comp == in_flight(b).outgoing_comp);
    assert(a.state == in_flight(a).state);
    assert(b.state == in_flight(b).state);
}

/// Sessions that differ only in their outbox and in what their outgoing
/// store holds settle under the same acknowledgements.
proof fn lemma_settles_alike(a: ClientView, b: ClientView, packets: Seq<PacketView>)
    requires
        in_flight(a) == in_flight(b),
        forall|i: int| 0 <= i < packets.len() ==> is_answer(#[trigger] packets[i]),
    ensures
        settles(a, packets) == settles(b, packets),
    decreases packets.len(),
{
    if packets.len() == 0 {
        assert(a.normalized() == in_flight(a).normalized());
        assert(b.normalized() == in_flight(b).normalized());
    } else {
        lemma_taken_alike(a, b, packets[0]);
        lemma_settles_alike(taken(a, packets[0]).0, taken(b, packets[0]).0, packets.drop_first());
    }
}

/// An acknowledgement that the session takes without error is taken just
/// so when a publication went out before it arrived: the acknowledgement
/// works at the head of a queue, the publication joined its end.
proof fn lemma_publish_then_taken(t: ClientView, m: Publication, packet: PacketView)
    requires
        t.state == ClientState::Connected,
        t.opts.outgoing_store is Some,
        is_topic_name(m.topic),
        is_answer(packet),
        taken(t, packet).1 == ActionView::Return(Ok(None)),
    ensures
        ({
            let sent = t.publish(m.topic, m.payload, m.opt, None).0;
            let next = taken(t, packet).0;
            &&& taken(sent, packet).1 == ActionView::Return(Ok(None))
            &&& in_flight(taken(sent, packet).0) == in_flight(
                next.publish(m.topic, m.payload, m.opt, None).0,
            )
            &&& next.state == ClientState::Connected
            &&& next.opts.outgoing_store is Some
            &&& next.last_pid == t.last_pid
        }),
{
    let sent = t.publish(m.topic, m.payload, m.opt, None).0;
    let next = taken(t, packet).0;
    let left = taken(sent, packet).0;
    let right = next.publish(m.topic, m.payload, m.opt, None).0;
    let message = outbound(m.topic, m.payload, m.opt, Some(t.last_pid.spec_next()));
    match packet {
        PacketView::Puback(pid) => {
            assert(t.outgoing_ack.len() > 0);
            assert(left.outgoing_ack =~= right.outgoing_ack);
        },
        PacketView::Pubrec(pid) => {
            assert(t.outgoing_rec.len() > 0);
            assert(left.outgoing_rec =~= right.outgoing_rec);
        },
        PacketView::Pubcomp(pid) => {
            assert(t.outgoing_comp.len() > 0);
        },
        _ => {},
    }
    assert(in_flight(left) =~= in_flight(right));
}

/// If a session settles under the acknowledgements `packets`, then after
/// one more publication it settles under `packets` followed by the answer
/// to that publication.
proof fn lemma_settles_after_publish(t: ClientView, packets: Seq<PacketView>, m: Publication)
    requires
        t.state == ClientState::Connected,
        t.opts.outgoing_store is Some,
        is_topic_name(m.topic),
        forall|i: int| 0 <= i < packets.len() ==> is_answer(#[trigger] packets[i]),
        settles(t, packets),
    ensures
        settles(
            t.publish(m.topic, m.payload, m.opt, None).0,
            packets + answer(m.opt, t.last_pid.spec_next()),
        ),
    decreases packets.len(),
{
    let sent = t.publish(m.topic, m.payload, m.opt, None).0;
    let pid = t.last_pid.spec_next();
    let reply = answer(m.opt, pid);
    let all = packets + reply;
    if packets.len() == 0 {
        assert(all =~= reply);
        match m.opt.qos() {
            QoS::AtMostOnce => {
                assert(settles(sent, reply));
            },
            QoS::AtLeastOnce => {
                let after = taken(sent, reply[0]).0;
                assert(sent.outgoing_ack =~= seq![outbound(m.topic, m.payload, m.opt, Some(pid))]);
                assert(after.outgoing_ack.len() == 0);
                assert(reply.drop_first().len() == 0);
                assert(settles(after, reply.drop_first()));
            },
            QoS::ExactlyOnce => {
                let released = taken(sent, reply[0]).0;
                assert(sent.outgoing_rec =~= seq![outbound(m.topic, m.payload, m.opt, Some(pid))]);
                assert(released.outgoing_rec.len() == 0);
                assert(released.outgoing_comp =~= seq![pid]);
                let rest = reply.drop_first();
                assert(rest.len() == 1 && rest[0] == PacketView::Pubcomp(pid));
                let after = taken(released, rest[0]).0;
                assert(after.outgoing_comp.len() == 0);
                assert(rest.drop_first().len() == 0);
                assert(settles(after, rest.drop_first()));
                assert(settles(released, rest));
            },
        }
    } else {
        let first = packets[0];
        let next = taken(t, first).0;
        lemma_publish_then_taken(t, m, first);
        lemma_settles_after_publish(next, packets.drop_first(), m);
        let rest = packets.drop_first() + reply;
        assert(all[0] == first);
        assert(all.drop_first() =~= rest);
        assert forall|i: int| 0 <= i < rest.len() implies is_answer(#[trigger] rest[i]) by {
            if i < packets.len() - 1 {
                assert(rest[i] == packets[i + 1]);
            }
        }
        lemma_settles_alike(
            taken(sent, first).0,
            next.publish(m.topic, m.payload, m.opt, None).0,
            rest,
        );
    }
}

/// Publications with well-formed topics leave an established session
/// established and its outgoing store in place, and the broker's answers
/// to them are acknowledgements.
proof fn lemma_published_stays_connected(s: ClientView, sent: Seq<Publication>)
    requires
        s.state == ClientState::Connected,
        s.opts.outgoing_store is Some,
        forall|i: int| 0 <= i < sent.len() ==> is_topic_name(#[trigger] sent[i].topic),
    ensures
        published(s, sent).state == ClientState::Connected,
        published(s, sent).opts.outgoing_store is Some,
        forall|i: int|
            0 <= i < answers(s, sent).len() ==> is_answer(#[trigger] answers(s, sent)[i]),
    decreases sent.len(),
{
    if sent.len() > 0 {
        let before = sent.drop_last();
        lemma_published_stays_connected(s, before);
        assert(is_topic_name(sent[sent.len() - 1].topic));
        let reply = answer(sent.last().opt, published(s, before).last_pid.spec_next());
        assert forall|i: int| 0 <= i < answers(s, sent).len() implies is_answer(
            #[trigger] answers(s, sent)[i],
        ) by {
            if i < answers(s, before).len() {
                assert(answers(s, sent)[i] == answers(s, before)[i]);
            } else {
                assert(answers(s, sent)[i] == reply[i - answers(s, before).len()]);
            }
        }
    }
}

/// The round trip: whatever publications a normalized session sends, with
/// whatever guarantees, once the broker has acknowledged each of them in
/// the order in which they went out, every acknowledgement was taken
/// without error, nothing is in flight, and the session is normalized
/// again.
pub proof fn law_round_trip(s: ClientView, sent: Seq<Publication>)
    requires
        s.normalized(),
        s.opts.outgoing_store is Some,
        forall|i: int| 0 <= i < sent.len() ==> is_topic_name(#[trigger] sent[i].topic),
    ensures
        settles(published(s, sent), answers(s, sent)),
        after_all(published(s, sent), answers(s, sent)).normalized(),
    decreases sent.len(),
{
    if sent.len() > 0 {
        let before = sent.drop_last();
        law_round_trip(s, before);
        lemma_published_stays_connected(s, before);
        lemma_settles_after_publish(published(s, before), answers(s, before), sent.last());
    }
    lemma_settled_is_normalized(published(s, sent), answers(s, sent));
}

/// The publication is one that awaits an acknowledgement of the guarantee
/// `qos`: it has that guarantee and carries an identifier.
pub open spec fn in_flight_as(message: MessageView, qos: QoS) -> bool {
    message.qos == qos && message.pid is Some
}

/// The publication carries an identifier that the session has issued,
/// which is never zero.
pub open spec fn issued(message: MessageView) -> bool {
    message.pid matches Some(pid) && pid.0 != 0
}

/// What holds of a session at every moment of its life.
///
/// Each queue of publications holds publications of its guarantee only,
/// each with an identifier, which for an outbound publication is not zero
/// and whose topic is a topic name. Every request that awaits its answer
/// has an identifier that is not zero. The registry holds no filter twice,
/// and only well-formed filters.
pub open spec fn sound(s: ClientView) -> bool {
    &&& forall|i: int|
        0 <= i < s.outgoing_ack.len() ==> {
            &&& in_flight_as(#[trigger] s.outgoing_ack[i], QoS::AtLeastOnce)
            &&& issued(s.outgoing_ack[i])
            &&& is_topic_name(s.outgoing_ack[i].topic)
        }
    &&& forall|i: int|
        0 <= i < s.outgoing_rec.len() ==> {
            &&& in_flight_as(#[trigger] s.outgoing_rec[i], QoS::ExactlyOnce)
            &&& issued(s.outgoing_rec[i])
            &&& is_topic_name(s.outgoing_rec[i].topic)
        }
    &&& forall|i: int|
        0 <= i < s.incomming_pub.len() ==> in_flight_as(
            #[trigger] s.incomming_pub[i],
            QoS::AtLeastOnce,
        )
    &&& forall|i: int|
        0 <= i < s.incomming_rec.len() ==> in_flight_as(
            #[trigger] s.incomming_rec[i],
            QoS::ExactlyOnce,
        )
    &&& forall|i: int| 0 <= i < s.await_suback.len() ==> (#[trigger] s.await_suback[i]).pid.0 != 0
    &&& forall|i: int|
        0 <= i < s.await_unsuback.len() ==> (#[trigger] s.await_unsuback[i]).pid.0 != 0
    &&& s.pending matches PendingView::Acknowledge(message) ==> in_flight_as(
        message,
        QoS::AtLeastOnce,
    )
    &&& distinct(s.subscriptions)
    &&& forall|i: int|
        0 <= i < s.subscriptions.len() ==> is_topic_filter(
            (#[trigger] s.subscriptions[i]).topic_path,
        )
}

/// A session is sound before anything was sent.
pub proof fn law_fresh_is_sound(opts: OptionsView)
    ensures
        sound(ClientView::fresh(opts)),
{
}

/// Recording a grant for a well-formed filter leaves only well-formed
/// filters in the registry.
proof fn lemma_with_filters(entries: Seq<SubscriptionView>, grant: SubscriptionView)
    requires
        distinct(entries),
        is_topic_filter(grant.topic_path),
        forall|i: int| 0 <= i < entries.len() ==> is_topic_filter((#[trigger] entries[i]).topic_path),
    ensures
        distinct(with(entries, grant)),
        forall|i: int|
            0 <= i < with(entries, grant).len() ==> is_topic_filter(
                (#[trigger] with(entries, grant)[i]).topic_path,
            ),
{
    lemma_with(entries, grant);
    if holds(entries, grant.topic_path) {
        let at = index_of(entries, grant.topic_path);
        assert(stands_at(entries, grant.topic_path, at));
    }
}

/// Dropping a filter leaves only well-formed filters in the registry.
proof fn lemma_without_filters(entries: Seq<SubscriptionView>, filter: Seq<char>)
    requires
        distinct(entries),
        forall|i: int| 0 <= i < entries.len() ==> is_topic_filter((#[trigger] entries[i]).topic_path),
    ensures
        distinct(without(entries, filter)),
        forall|i: int|
            0 <= i < without(entries, filter).len() ==> is_topic_filter(
                (#[trigger] without(entries, filter)[i]).topic_path,
            ),
{
    lemma_without(entries, filter);
    if holds(entries, filter) {
        let at = index_of(entries, filter);
        assert(stands_at(entries, filter, at));
        let after = without(entries, filter);
        assert forall|i: int| 0 <= i < after.len() implies is_topic_filter(
            (#[trigger] after[i]).topic_path,
        ) by {
            if i < at {
                assert(after[i] == entries[i]);
            } else {
                assert(after[i] == entries[i + 1]);
            }
        }
    }
}

/// The grants of a SUBACK keep the registry free of repetition and of
/// ill-formed filters.
proof fn lemma_granted_filters(
    entries: Seq<SubscriptionView>,
    asked: SubscribeView,
    codes: Seq<SubscribeReturnCodes>,
    n: int,
)
    requires
        distinct(entries),
        forall|i: int| 0 <= i < entries.len() ==> is_topic_filter((#[trigger] entries[i]).topic_path),
    ensures
        distinct(granted(entries, asked, codes, n).0),
        forall|i: int|
            0 <= i < granted(entries, asked, codes, n).0.len() ==> is_topic_filter(
                (#[trigger] granted(entries, asked, codes, n).0[i]).topic_path,
            ),
    decreases n,
{
    if n > 0 {
        lemma_granted_filters(entries, asked, codes, n - 1);
        let (before, fine) = granted(entries, asked, codes, n - 1);
        if fine {
            match codes[n - 1] {
                SubscribeReturnCodes::Success(qos) => {
                    let filter = asked.topics[n - 1].topic_path;
                    if is_topic_filter(filter) {
                        lemma_with_filters(
                            before,
                            SubscriptionView { pid: asked.pid, topic_path: filter, qos },
                        );
                    }
                },
                SubscribeReturnCodes::Failure => {},
            }
        }
    }
}

/// The filters that an UNSUBACK drops leave the registry free of
/// repetition and of ill-formed filters.
proof fn lemma_dropped_filters(entries: Seq<SubscriptionView>, filters: Seq<Seq<char>>, n: int)
    requires
        distinct(entries),
        forall|i: int| 0 <= i < entries.len() ==> is_topic_filter((#[trigger] entries[i]).topic_path),
    ensures
        distinct(dropped(entries, filters, n)),
        forall|i: int|
            0 <= i < dropped(entries, filters, n).len() ==> is_topic_filter(
                (#[trigger] dropped(entries, filters, n)[i]).topic_path,
            ),
    decreases n,
{
    if n > 0 {
        lemma_dropped_filters(entries, filters, n - 1);
        lemma_without_filters(dropped(entries, filters, n - 1), filters[n - 1]);
    }
}

/// What the application asks for leaves a sound session sound: to
/// publish, to subscribe, to unsubscribe, to ping, to complete a
/// publication, to end the link, and to start the handshake.
pub proof fn law_requests_keep_sound(
    s: ClientView,
    topic: Seq<char>,
    payload: Seq<u8>,
    opt: PubOpt,
    fault: Option<Error>,
    topics: Seq<SubscribeTopicView>,
    filters: Seq<Seq<char>>,
    pid: PacketIdentifier,
)
    requires
        sound(s),
    ensures
        sound(s.publish(topic, payload, opt, fault).0),
        sound(s.subscribe(topics)),
        sound(s.unsubscribe(filters)),
        sound(s.resubscribe()),
        sound(s.ping()),
        sound(s.complete(pid).0),
        sound(s.unbind()),
        sound(s.handshake()),
        sound(s.drained()),
        sound(s.next_pid()),
{
}

/// Whatever well-formed packet comes in, a sound session stays sound.
pub proof fn law_parse_packet_keeps_sound(s: ClientView, packet: PacketView, fault: Option<Error>)
    requires
        sound(s),
        packet.well_formed(),
    ensures
        sound(s.parse_packet(packet, fault).0),
{
    if s.state == ClientState::Connected {
        match packet {
            PacketView::Suback(suback) => {
                if s.await_suback.len() > 0 {
                    lemma_granted_filters(
                        s.subscriptions,
                        s.await_suback[0],
                        suback.return_codes,
                        s.await_suback[0].topics.len() as int,
                    );
                }
            },
            PacketView::Unsuback(pid) => {
                if s.await_unsuback.len() > 0 {
                    lemma_dropped_filters(
                        s.subscriptions,
                        s.await_unsuback[0].topics,
                        s.await_unsuback[0].topics.len() as int,
                    );
                }
            },
            _ => {},
        }
    }
}

/// However a flush, a read or a read cycle ends, a sound session stays
/// sound.
pub proof fn law_driver_keeps_sound(
    s: ClientView,
    flushed: Result<(), IoFailure>,
    read: Result<PacketView, IoFailure>,
    accepted: OutcomeView,
    fault: Option<Error>,
)
    requires
        sound(s),
        read matches Ok(packet) ==> packet.well_formed(),
    ensures
        sound(s.flushed(flushed, fault).0),
        sound(s.received(read, fault).0),
        sound(s.wait(accepted).0),
{
    if let Ok(packet) = read {
        law_parse_packet_keeps_sound(s, packet, fault);
    }
}

} // verus!
