//! The session as a state machine over mathematical values.
//!
//! Every operation of the client is a function from the state before it, and
//! what came in, to the state after it and what goes out. The client's
//! executable methods are proved to compute these functions, and the laws of
//! the session are proved about them.

use crate::error::{Error, IoFailure};
use crate::message::{MessageView, PubOpt, QoS};
use crate::options::{Nanos, OptionsView, ReconnectMethod};
use crate::packet::{
    ConnectReturnCode, PacketView, SubackView, SubscribeReturnCodes, SubscribeTopicView,
    SubscribeView, UnsubscribeView,
};
use crate::pid::PacketIdentifier;
use crate::sub::{resubscription, with, without, SubscriptionView};
use crate::topic::{is_topic_filter, is_topic_name};
use vstd::prelude::*;

verus! {

/// Where a session stands with its broker.
#[derive(Clone, Copy, Debug, PartialEq, Eq, Structural)]
pub enum ClientState {
    /// CONNECT was sent and CONNACK is awaited.
    Handshake,
    /// The broker accepted the session.
    Connected,
    /// There is no usable stream.
    Disconnected,
}

/// Something the caller does on the stream, without an answer to report.
#[verifier::ext_equal]
pub enum OutputView {
    /// Write the packet.
    Write(PacketView),
    /// Shut the stream down in both directions.
    Shutdown,
}

/// What the session goes on with once the stream has been flushed.
#[verifier::ext_equal]
pub enum PendingView {
    /// Nothing but to report the flush.
    Idle,
    /// A ping went out because the broker was silent.
    Probe,
    /// PUBACK went out for this publication, which is now delivered.
    Acknowledge(MessageView),
    /// PUBREL went out: the publication is out of the sender's hands.
    Release(PacketIdentifier),
    /// PUBCOMP went out: the publication is out of the receiver's hands.
    Complete(PacketIdentifier),
}

/// What a call ends with: a publication for the application, nothing, or
/// an error.
pub type OutcomeView = Result<Option<MessageView>, Error>;

/// What the caller does next.
#[verifier::ext_equal]
pub enum ActionView {
    /// Hand the outcome to the application.
    Return(OutcomeView),
    /// Read one packet, within the deadline if there is one, and report it.
    Read(Option<Nanos>),
    /// Flush the stream and report how that went.
    Flush,
    /// Sleep, connect again, and hand `Ok(None)` to the application.
    Reconnect(Nanos),
    /// Accept once more.
    Again,
}

/// A session as a mathematical value. The fields are those of the client,
/// each by its view.
#[verifier::ext_equal]
pub struct ClientView {
    pub state: ClientState,
    pub opts: OptionsView,
    pub session_present: bool,
    pub last_pid: PacketIdentifier,
    pub await_ping: bool,
    pub incomming_pub: Seq<MessageView>,
    pub incomming_rec: Seq<MessageView>,
    pub incomming_rel: Seq<PacketIdentifier>,
    pub outgoing_ack: Seq<MessageView>,
    pub outgoing_rec: Seq<MessageView>,
    pub outgoing_comp: Seq<PacketIdentifier>,
    pub await_suback: Seq<SubscribeView>,
    pub await_unsuback: Seq<UnsubscribeView>,
    pub subscriptions: Seq<SubscriptionView>,
    pub outbox: Seq<OutputView>,
    pub pending: PendingView,
}

/// The publication that `publish` sends.
pub open spec fn outbound(
    topic: Seq<char>,
    payload: Seq<u8>,
    opt: PubOpt,
    pid: Option<PacketIdentifier>,
) -> MessageView {
    MessageView { topic, qos: opt.qos(), retain: opt.is_retain(), pid, payload }
}

/// The registry after the first `n` return codes of a SUBACK were applied
/// to the filters of the SUBSCRIBE it answers, and whether all of these
/// filters were well formed. A filter that is granted is recorded with the
/// guarantee granted; one that is refused is passed over; an ill-formed
/// filter that is granted ends the work.
pub open spec fn granted(
    entries: Seq<SubscriptionView>,
    asked: SubscribeView,
    codes: Seq<SubscribeReturnCodes>,
    n: int,
) -> (Seq<SubscriptionView>, bool)
    decreases n,
{
    if n <= 0 {
        (entries, true)
    } else {
        let (before, sound) = granted(entries, asked, codes, n - 1);
        if !sound {
            (before, false)
        } else {
            match codes[n - 1] {
                SubscribeReturnCodes::Success(qos) => {
                    let filter = asked.topics[n - 1].topic_path;
                    if is_topic_filter(filter) {
                        (
                            with(
                                before,
                                SubscriptionView { pid: asked.pid, topic_path: filter, qos },
                            ),
                            true,
                        )
                    } else {
                        (before, false)
                    }
                },
                SubscribeReturnCodes::Failure => (before, true),
            }
        }
    }
}

/// The registry after the first `n` of `filters` were dropped from it.
pub open spec fn dropped(entries: Seq<SubscriptionView>, filters: Seq<Seq<char>>, n: int) -> Seq<
    SubscriptionView,
>
    decreases n,
{
    if n <= 0 {
        entries
    } else {
        without(dropped(entries, filters, n - 1), filters[n - 1])
    }
}

impl ClientView {
    /// The session that `opts` describe, before anything was sent.
    pub open spec fn fresh(opts: OptionsView) -> ClientView {
        ClientView {
            state: ClientState::Disconnected,
            opts,
            session_present: false,
            last_pid: PacketIdentifier(0),
            await_ping: false,
            incomming_pub: Seq::empty(),
            incomming_rec: Seq::empty(),
            incomming_rel: Seq::empty(),
            outgoing_ack: Seq::empty(),
            outgoing_rec: Seq::empty(),
            outgoing_comp: Seq::empty(),
            await_suback: Seq::empty(),
            await_unsuback: Seq::empty(),
            subscriptions: Seq::empty(),
            outbox: Seq::empty(),
            pending: PendingView::Idle,
        }
    }

    /// The session is established and nothing is in flight.
    pub open spec fn normalized(self) -> bool {
        &&& self.state == ClientState::Connected
        &&& !self.await_ping
        &&& self.outgoing_ack.len() == 0
        &&& self.outgoing_rec.len() == 0
        &&& self.outgoing_comp.len() == 0
        &&& self.incomming_pub.len() == 0
        &&& self.incomming_rec.len() == 0
        &&& self.incomming_rel.len() == 0
        &&& self.await_suback.len() == 0
        &&& self.await_unsuback.len() == 0
    }

    /// `packet` is handed to the caller to be written.
    pub open spec fn written(self, packet: PacketView) -> ClientView {
        ClientView { outbox: self.outbox.push(OutputView::Write(packet)), ..self }
    }

    /// The next packet identifier is issued: it is `self.next_pid().last_pid`.
    pub open spec fn next_pid(self) -> ClientView {
        ClientView { last_pid: self.last_pid.spec_next(), ..self }
    }

    /// The caller took what was in the outbox.
    pub open spec fn drained(self) -> ClientView {
        ClientView { outbox: Seq::empty(), ..self }
    }

    /// The session with `store` as what the incoming store holds.
    pub open spec fn with_incomming_store(
        self,
        store: Map<PacketIdentifier, MessageView>,
    ) -> ClientView {
        ClientView { opts: OptionsView { incomming_store: Some(store), ..self.opts }, ..self }
    }

    /// The session with `store` as what the outgoing store holds.
    pub open spec fn with_outgoing_store(
        self,
        store: Map<PacketIdentifier, MessageView>,
    ) -> ClientView {
        ClientView { opts: OptionsView { outgoing_store: Some(store), ..self.opts }, ..self }
    }

    /// The link is given up: the stream is shut down, and what waited for
    /// an answer on it is forgotten. Publications in flight stay.
    pub open spec fn unbind(self) -> ClientView {
        ClientView {
            outbox: self.outbox.push(OutputView::Shutdown),
            await_unsuback: Seq::empty(),
            await_suback: Seq::empty(),
            await_ping: false,
            state: ClientState::Disconnected,
            ..self
        }
    }

    /// CONNECT goes out.
    pub open spec fn handshake(self) -> ClientView
        recommends
            self.opts.client_id is Some,
    {
        ClientView { state: ClientState::Handshake, ..self }.written(
            PacketView::Connect(self.opts.connect_packet()),
        )
    }

    /// A publication goes out. `fault` is the error that the outgoing
    /// store reports, if it is asked and fails.
    pub open spec fn publish(
        self,
        topic: Seq<char>,
        payload: Seq<u8>,
        opt: PubOpt,
        fault: Option<Error>,
    ) -> (ClientView, Result<(), Error>) {
        if !is_topic_name(topic) {
            (self, Err(Error::InvalidTopic))
        } else {
            match opt.qos() {
                QoS::AtMostOnce => {
                    let message = outbound(topic, payload, opt, None);
                    (self.written(PacketView::Publish(message.publish())), Ok(()))
                },
                QoS::AtLeastOnce => {
                    let issued = self.next_pid();
                    let message = outbound(topic, payload, opt, Some(issued.last_pid));
                    (
                        ClientView {
                            outgoing_ack: issued.outgoing_ack.push(message),
                            ..issued
                        }.written(PacketView::Publish(message.publish())),
                        Ok(()),
                    )
                },
                QoS::ExactlyOnce => {
                    let issued = self.next_pid();
                    let message = outbound(topic, payload, opt, Some(issued.last_pid));
                    match (issued.opts.outgoing_store, fault) {
                        (None, _) => (issued, Err(Error::OutgoingStorageAbsent)),
                        (Some(_), Some(e)) => (issued, Err(e)),
                        (Some(store), None) => (
                            ClientView {
                                outgoing_rec: issued.outgoing_rec.push(message),
                                ..issued.with_outgoing_store(
                                    store.insert(issued.last_pid, message),
                                )
                            }.written(PacketView::Publish(message.publish())),
                            Ok(()),
                        ),
                    }
                },
            }
        }
    }

    /// A SUBSCRIBE for `topics` goes out.
    pub open spec fn subscribe(self, topics: Seq<SubscribeTopicView>) -> ClientView {
        let issued = self.next_pid();
        let asked = SubscribeView { pid: issued.last_pid, topics };
        ClientView { await_suback: issued.await_suback.push(asked), ..issued }.written(
            PacketView::Subscribe(asked),
        )
    }

    /// An UNSUBSCRIBE for `topics` goes out.
    pub open spec fn unsubscribe(self, topics: Seq<Seq<char>>) -> ClientView {
        let issued = self.next_pid();
        let asked = UnsubscribeView { pid: issued.last_pid, topics };
        ClientView { await_unsuback: issued.await_unsuback.push(asked), ..issued }.written(
            PacketView::Unsubscribe(asked),
        )
    }

    /// After a handshake that resumed no session, one SUBSCRIBE asks again
    /// for everything in the registry.
    pub open spec fn resubscribe(self) -> ClientView {
        if self.session_present {
            self
        } else {
            self.subscribe(resubscription(self.subscriptions))
        }
    }

    /// A PINGREQ goes out.
    pub open spec fn ping(self) -> ClientView {
        ClientView { await_ping: true, ..self }.written(PacketView::Pingreq)
    }

    /// The application is done with the publication `pid`: PUBCOMP goes
    /// out if `pid` is the oldest released publication.
    pub open spec fn complete(self, pid: PacketIdentifier) -> (ClientView, Result<(), Error>) {
        if self.incomming_rel.len() == 0 {
            (self, Err(Error::ProtocolViolation))
        } else {
            let popped = ClientView { incomming_rel: self.incomming_rel.drop_first(), ..self };
            if self.incomming_rel[0] == pid {
                (
                    ClientView { pending: PendingView::Complete(pid), ..popped }.written(
                        PacketView::Pubcomp(pid),
                    ),
                    Ok(()),
                )
            } else {
                (popped, Err(Error::ProtocolViolation))
            }
        }
    }

    /// A publication came in. `fault` is the error that the incoming store
    /// reports, if it is asked and fails.
    pub open spec fn handle_message(self, message: MessageView, fault: Option<Error>) -> (
        ClientView,
        ActionView,
    )
        recommends
            message.well_formed(),
    {
        match message.qos {
            QoS::AtMostOnce => (self, ActionView::Return(Ok(Some(message)))),
            QoS::AtLeastOnce => (
                ClientView {
                    incomming_pub: self.incomming_pub.push(message),
                    pending: PendingView::Acknowledge(message),
                    ..self
                }.written(PacketView::Puback(message.pid->0)),
                ActionView::Flush,
            ),
            QoS::ExactlyOnce => {
                let queued = ClientView {
                    incomming_rec: self.incomming_rec.push(message),
                    ..self
                };
                match (queued.opts.incomming_store, fault) {
                    (None, _) => (
                        queued,
                        ActionView::Return(Err(Error::IncomingStorageAbsent)),
                    ),
                    (Some(_), Some(e)) => (queued, ActionView::Return(Err(e))),
                    (Some(store), None) => (
                        ClientView {
                            pending: PendingView::Idle,
                            ..queued.with_incomming_store(store.insert(message.pid->0, message))
                        }.written(PacketView::Pubrec(message.pid->0)),
                        ActionView::Flush,
                    ),
                }
            },
        }
    }

    /// SUBACK came in.
    pub open spec fn suback(self, suback: SubackView) -> (ClientView, ActionView) {
        if self.await_suback.len() == 0 {
            (self, ActionView::Return(Err(Error::ProtocolViolation)))
        } else {
            let asked = self.await_suback[0];
            let popped = ClientView { await_suback: self.await_suback.drop_first(), ..self };
            if asked.pid != suback.pid || asked.topics.len() != suback.return_codes.len() {
                (popped, ActionView::Return(Err(Error::ProtocolViolation)))
            } else {
                let (entries, sound) = granted(
                    self.subscriptions,
                    asked,
                    suback.return_codes,
                    asked.topics.len() as int,
                );
                (
                    ClientView { subscriptions: entries, ..popped },
                    ActionView::Return(
                        if sound {
                            Ok(None)
                        } else {
                            Err(Error::InvalidTopic)
                        },
                    ),
                )
            }
        }
    }

    /// UNSUBACK came in.
    pub open spec fn unsuback(self, pid: PacketIdentifier) -> (ClientView, ActionView) {
        if self.await_unsuback.len() == 0 {
            (self, ActionView::Return(Err(Error::ProtocolViolation)))
        } else {
            let asked = self.await_unsuback[0];
            let popped = ClientView { await_unsuback: self.await_unsuback.drop_first(), ..self };
            if asked.pid != pid {
                (popped, ActionView::Return(Err(Error::ProtocolViolation)))
            } else {
                (
                    ClientView {
                        subscriptions: dropped(
                            self.subscriptions,
                            asked.topics,
                            asked.topics.len() as int,
                        ),
                        ..popped
                    },
                    ActionView::Return(Ok(None)),
                )
            }
        }
    }

    /// A packet came in on an established session.
    pub open spec fn dispatch(self, packet: PacketView, fault: Option<Error>) -> (
        ClientView,
        ActionView,
    )
        recommends
            packet.well_formed(),
    {
        match packet {
            PacketView::Connack(_) => (self, ActionView::Return(Err(Error::AlreadyConnected))),
            PacketView::Publish(publish) => {
                if is_topic_name(publish.topic_name) {
                    self.handle_message(publish.message(), fault)
                } else {
                    (self, ActionView::Return(Err(Error::InvalidTopic)))
                }
            },
            PacketView::Puback(pid) => {
                if self.outgoing_ack.len() == 0 {
                    (self, ActionView::Return(Err(Error::UnhandledPuback(pid))))
                } else {
                    (
                        ClientView { outgoing_ack: self.outgoing_ack.drop_first(), ..self },
                        ActionView::Return(
                            if self.outgoing_ack[0].pid == Some(pid) {
                                Ok(None)
                            } else {
                                Err(Error::UnhandledPuback(pid))
                            },
                        ),
                    )
                }
            },
            PacketView::Pubrec(pid) => {
                if self.outgoing_rec.len() == 0 {
                    (self, ActionView::Return(Err(Error::UnhandledPubrec(pid))))
                } else {
                    let popped = ClientView {
                        outgoing_rec: self.outgoing_rec.drop_first(),
                        ..self
                    };
                    if self.outgoing_rec[0].pid == Some(pid) {
                        (
                            ClientView { pending: PendingView::Release(pid), ..popped }.written(
                                PacketView::Pubrel(pid),
                            ),
                            ActionView::Flush,
                        )
                    } else {
                        (popped, ActionView::Return(Err(Error::UnhandledPubrec(pid))))
                    }
                }
            },
            PacketView::Pubrel(pid) => {
                if self.incomming_rec.len() == 0 {
                    (self, ActionView::Return(Err(Error::UnhandledPubrel(pid))))
                } else {
                    let popped = ClientView {
                        incomming_rec: self.incomming_rec.drop_first(),
                        ..self
                    };
                    if self.incomming_rec[0].pid != Some(pid) {
                        (popped, ActionView::Return(Err(Error::UnhandledPubrel(pid))))
                    } else {
                        match (popped.opts.incomming_store, fault) {
                            (None, _) => (
                                popped,
                                ActionView::Return(Err(Error::IncomingStorageAbsent)),
                            ),
                            (Some(store), _) if !store.contains_key(pid) => (
                                popped,
                                ActionView::Return(Err(Error::StorageMiss)),
                            ),
                            (Some(_), Some(e)) => (popped, ActionView::Return(Err(e))),
                            (Some(store), None) => (
                                ClientView {
                                    incomming_rel: popped.incomming_rel.push(pid),
                                    ..popped
                                },
                                ActionView::Return(Ok(Some(store[pid]))),
                            ),
                        }
                    }
                }
            },
            PacketView::Pubcomp(pid) => {
                if self.outgoing_comp.len() == 0 {
                    (self, ActionView::Return(Err(Error::UnhandledPubcomp(pid))))
                } else {
                    (
                        ClientView { outgoing_comp: self.outgoing_comp.drop_first(), ..self },
                        ActionView::Return(Ok(None)),
                    )
                }
            },
            PacketView::Suback(suback) => self.suback(suback),
            PacketView::Unsuback(pid) => self.unsuback(pid),
            PacketView::Pingresp => (
                ClientView { await_ping: false, ..self },
                ActionView::Return(Ok(None)),
            ),
            _ => (self, ActionView::Return(Err(Error::UnrecognizedPacket))),
        }
    }

    /// A packet came in.
    pub open spec fn parse_packet(self, packet: PacketView, fault: Option<Error>) -> (
        ClientView,
        ActionView,
    )
        recommends
            packet.well_formed(),
    {
        match self.state {
            ClientState::Handshake => match packet {
                PacketView::Connack(connack) => {
                    if connack.code == ConnectReturnCode::Accepted {
                        (
                            ClientView {
                                session_present: connack.session_present,
                                state: ClientState::Connected,
                                ..self
                            },
                            ActionView::Return(Ok(None)),
                        )
                    } else {
                        (self, ActionView::Return(Err(Error::ConnectionRefused(connack.code))))
                    }
                },
                _ => (self, ActionView::Return(Err(Error::HandshakeFailed))),
            },
            ClientState::Connected => self.dispatch(packet, fault),
            ClientState::Disconnected => (
                self,
                ActionView::Return(Err(Error::ConnectionAbort)),
            ),
        }
    }

    /// The stream was flushed, or failed to be. `fault` is the error that
    /// a store reports, if one is asked and fails.
    pub open spec fn flushed(self, outcome: Result<(), IoFailure>, fault: Option<Error>) -> (
        ClientView,
        ActionView,
    ) {
        let idle = ClientView { pending: PendingView::Idle, ..self };
        match (self.pending, outcome) {
            (PendingView::Probe, _) => (idle, ActionView::Again),
            (_, Err(failure)) => (idle, ActionView::Return(Err(Error::Io(failure)))),
            (PendingView::Idle, Ok(_)) => (idle, ActionView::Return(Ok(None))),
            (PendingView::Acknowledge(message), Ok(_)) => (
                ClientView {
                    incomming_pub: if idle.incomming_pub.len() == 0 {
                        idle.incomming_pub
                    } else {
                        idle.incomming_pub.drop_first()
                    },
                    ..idle
                },
                ActionView::Return(Ok(Some(message))),
            ),
            (PendingView::Release(pid), Ok(_)) => {
                let moved = ClientView { outgoing_comp: idle.outgoing_comp.push(pid), ..idle };
                match (moved.opts.outgoing_store, fault) {
                    (None, _) => (moved, ActionView::Return(Err(Error::OutgoingStorageAbsent))),
                    (Some(_), Some(e)) => (moved, ActionView::Return(Err(e))),
                    (Some(store), None) => (
                        moved.with_outgoing_store(store.remove(pid)),
                        ActionView::Return(Ok(None)),
                    ),
                }
            },
            (PendingView::Complete(pid), Ok(_)) => match (idle.opts.incomming_store, fault) {
                (None, _) => (idle, ActionView::Return(Err(Error::IncomingStorageAbsent))),
                (Some(_), Some(e)) => (idle, ActionView::Return(Err(e))),
                (Some(store), None) => (
                    idle.with_incomming_store(store.remove(pid)),
                    ActionView::Return(Ok(None)),
                ),
            },
        }
    }

    /// What the reconnect policy asks for once the link is down.
    pub open spec fn try_reconnect(self) -> ActionView {
        match self.opts.reconnect {
            ReconnectMethod::ForeverDisconnect => ActionView::Return(Err(Error::Disconnected)),
            ReconnectMethod::ReconnectAfter(delay) => ActionView::Reconnect(delay),
        }
    }

    /// How a read cycle starts when `elapsed` has passed since the last
    /// flush: on a live link with a read that ends when the keep-alive
    /// interval does, unless it already has; without a link, with the
    /// reconnect policy.
    pub open spec fn accept(self, elapsed: Nanos) -> ActionView {
        match self.state {
            ClientState::Disconnected => self.try_reconnect(),
            _ => match self.opts.keep_alive_nanos() {
                Some(keep_alive) => {
                    if elapsed >= keep_alive {
                        ActionView::Return(Err(Error::Timeout))
                    } else {
                        ActionView::Read(Some((keep_alive - elapsed) as u128))
                    }
                },
                None => ActionView::Read(None),
            },
        }
    }

    /// The read ended, with a packet or with a failure.
    pub open spec fn received(self, read: Result<PacketView, IoFailure>, fault: Option<Error>) -> (
        ClientView,
        ActionView,
    )
        recommends
            read matches Ok(packet) ==> packet.well_formed(),
    {
        match read {
            Ok(packet) => {
                let (parsed, action) = self.parse_packet(packet, fault);
                if action == ActionView::Return(Err(Error::ConnectionAbort)) {
                    (parsed.unbind(), action)
                } else {
                    (parsed, action)
                }
            },
            Err(failure) => {
                if failure.is_timeout() {
                    (self, ActionView::Return(Err(Error::Timeout)))
                } else if failure.is_disconnect() {
                    (self.unbind(), self.try_reconnect())
                } else {
                    (self.unbind(), ActionView::Return(Err(Error::Io(failure))))
                }
            },
        }
    }

    /// Whether the application's wait is over, when nothing was handed back.
    pub open spec fn settle(self) -> ActionView {
        if self.normalized() {
            ActionView::Return(Ok(None))
        } else {
            ActionView::Again
        }
    }

    /// A read cycle ended with `accepted` while the application waits.
    pub open spec fn wait(self, accepted: OutcomeView) -> (ClientView, ActionView) {
        match accepted {
            Ok(Some(message)) => (self, ActionView::Return(Ok(Some(message)))),
            Ok(None) => (self, self.settle()),
            Err(Error::Timeout) => {
                if self.state != ClientState::Connected {
                    (self, ActionView::Return(Err(Error::Timeout)))
                } else if !self.await_ping {
                    (ClientView { pending: PendingView::Probe, ..self.ping() }, ActionView::Flush)
                } else {
                    (self.unbind(), ActionView::Again)
                }
            },
            Err(e) => (self, ActionView::Return(Err(e))),
        }
    }
}

} // verus!
