//! The session engine.

use crate::error::{Error, IoFailure};
use crate::message::{lemma_views_push, lemma_views_subrange, views, Message, PubOpt, QoS};
use crate::model::{
    dropped, granted, ActionView, ClientState, ClientView, OutcomeView, OutputView, PendingView,
};
use crate::options::{
    is_plain_scheme, is_tls_scheme, route, standard_port, ClientOptions, Nanos, OptionsView,
    ReconnectMethod, Route, NANOS_PER_SEC,
};
use crate::packet::{
    ConnectReturnCode, Packet, PacketView, Suback, Subscribe, SubscribeReturnCodes, SubscribeTopic,
    Unsubscribe,
};
use crate::pid::PacketIdentifier;
use crate::store::Store;
use crate::sub::{Subscription, Subscriptions};
use crate::topic::{valid_topic_filter, valid_topic_name};
use std::collections::VecDeque;
use vstd::prelude::*;

verus! {

/// Something the caller does on the stream, without an answer to report.
#[derive(Debug, PartialEq, Eq)]
pub enum Output {
    /// Write the packet.
    Write(Packet),
    /// Shut the stream down in both directions.
    Shutdown,
}

impl View for Output {
    type V = OutputView;

    open spec fn view(&self) -> OutputView {
        match self {
            Output::Write(packet) => OutputView::Write(packet@),
            Output::Shutdown => OutputView::Shutdown,
        }
    }
}

/// What the session goes on with once the stream has been flushed.
#[derive(Debug, PartialEq, Eq)]
pub enum Pending {
    /// Nothing but to report the flush.
    Idle,
    /// A ping went out because the broker was silent.
    Probe,
    /// PUBACK went out for this publication, which is now delivered.
    Acknowledge(Message),
    /// PUBREL went out: the publication is out of the sender's hands.
    Release(PacketIdentifier),
    /// PUBCOMP went out: the publication is out of the receiver's hands.
    Complete(PacketIdentifier),
}

impl View for Pending {
    type V = PendingView;

    open spec fn view(&self) -> PendingView {
        match self {
            Pending::Idle => PendingView::Idle,
            Pending::Probe => PendingView::Probe,
            Pending::Acknowledge(message) => PendingView::Acknowledge(message@),
            Pending::Release(pid) => PendingView::Release(*pid),
            Pending::Complete(pid) => PendingView::Complete(*pid),
        }
    }
}

/// The view of what a call ends with.
pub open spec fn outcome_view(outcome: Result<Option<Message>, Error>) -> OutcomeView {
    match outcome {
        Ok(Some(message)) => Ok(Some(message@)),
        Ok(None) => Ok(None),
        Err(e) => Err(e),
    }
}

/// What the caller does next. Before it acts on an action, the caller takes
/// the outbox and carries out what it holds, in order.
#[derive(Debug, PartialEq, Eq)]
pub enum Action {
    /// Hand the outcome to the application.
    Return(Result<Option<Message>, Error>),
    /// Set the read deadline of the stream, if one is given, read one
    /// packet, and report it to `received`.
    Read(Option<Nanos>),
    /// Flush the stream and report how that went to `flushed`.
    Flush,
    /// Sleep for so long, connect again whatever comes of it, and hand
    /// `Ok(None)` to the application.
    Reconnect(Nanos),
    /// Start another read cycle with `accept`.
    Again,
}

impl View for Action {
    type V = ActionView;

    open spec fn view(&self) -> ActionView {
        match self {
            Action::Return(outcome) => ActionView::Return(outcome_view(*outcome)),
            Action::Read(deadline) => ActionView::Read(*deadline),
            Action::Flush => ActionView::Flush,
            Action::Reconnect(delay) => ActionView::Reconnect(*delay),
            Action::Again => ActionView::Again,
        }
    }
}

/// The view of what a read gave.
pub open spec fn read_view(read: Result<Packet, IoFailure>) -> Result<PacketView, IoFailure> {
    match read {
        Ok(packet) => Ok(packet@),
        Err(failure) => Err(failure),
    }
}

/// Whether `got` is what `step` yields: with no fault, or, where the
/// stores may fail for reasons of their own, with the error that one of
/// them reported.
pub open spec fn follows<R>(
    reliable: bool,
    got: (ClientView, R),
    step: spec_fn(Option<Error>) -> (ClientView, R),
) -> bool {
    got == step(None) || (!reliable && exists|e: Error| got == #[trigger] step(Some(e)))
}

/// One MQTT session: its place in the protocol, its options and stores, the
/// publications in flight in both directions, the subscriptions asked for
/// and granted, and what the caller has yet to do on the stream.
pub struct Client<S: Store> {
    pub(crate) state: ClientState,
    pub(crate) opts: ClientOptions<S>,
    pub(crate) session_present: bool,
    pub(crate) last_pid: PacketIdentifier,
    pub(crate) await_ping: bool,
    pub(crate) incomming_pub: VecDeque<Message>,
    pub(crate) incomming_rec: VecDeque<Message>,
    pub(crate) incomming_rel: VecDeque<PacketIdentifier>,
    pub(crate) outgoing_ack: VecDeque<Message>,
    pub(crate) outgoing_rec: VecDeque<Message>,
    pub(crate) outgoing_comp: VecDeque<PacketIdentifier>,
    pub(crate) await_suback: VecDeque<Subscribe>,
    pub(crate) await_unsuback: VecDeque<Unsubscribe>,
    pub(crate) subscriptions: Subscriptions,
    pub(crate) outbox: Vec<Output>,
    pub(crate) pending: Pending,
}

impl<S: Store> View for Client<S> {
    type V = ClientView;

    open(crate) spec fn view(&self) -> ClientView {
        ClientView {
            state: self.state,
            opts: self.opts@,
            session_present: self.session_present,
            last_pid: self.last_pid,
            await_ping: self.await_ping,
            incomming_pub: views(self.incomming_pub@),
            incomming_rec: views(self.incomming_rec@),
            incomming_rel: self.incomming_rel@,
            outgoing_ack: views(self.outgoing_ack@),
            outgoing_rec: views(self.outgoing_rec@),
            outgoing_comp: self.outgoing_comp@,
            await_suback: views(self.await_suback@),
            await_unsuback: views(self.await_unsuback@),
            subscriptions: self.subscriptions@,
            outbox: views(self.outbox@),
            pending: self.pending@,
        }
    }
}

/// `client` is the session that `opts` describe, before anything was sent;
/// if `opts` name no client identifier, with one made from some number.
pub open spec fn begins(opts: OptionsView, client: ClientView) -> bool {
    match opts.client_id {
        Some(_) => client == ClientView::fresh(opts),
        None => exists|n: u32| client == ClientView::fresh(#[trigger] opts.identified_by(n)),
    }
}

impl<S: Store> ClientOptions<S> {
    /// The session for a broker at an address with this scheme, and how
    /// the broker is reached: in the plain for `tcp` and `mqtt`, over TLS
    /// for `tls`, `ssl` and `mqtts`, on `port` or else on 1883 in the
    /// plain and 8883 over TLS.
    ///
    /// `Error::InvalidUrlScheme` for any other scheme.
    pub fn connect(self, scheme: &str, port: Option<u16>) -> (session: Result<
        (Client<S>, Route),
        Error,
    >)
        ensures
            match session {
                Ok((client, way)) => {
                    &&& is_plain_scheme(scheme@) || is_tls_scheme(scheme@)
                    &&& way.tls == is_tls_scheme(scheme@)
                    &&& way.port == match port {
                        Some(p) => p,
                        None => standard_port(way.tls),
                    }
                    &&& begins(self@, client@)
                },
                Err(e) => {
                    &&& !is_plain_scheme(scheme@)
                    &&& !is_tls_scheme(scheme@)
                    &&& e matches Error::InvalidUrlScheme(text) && text@ == scheme@
                },
            },
    {
        match route(scheme, port) {
            Ok(way) => Ok((self.connect_with(), way)),
            Err(e) => Err(e),
        }
    }

    /// The session that these options describe, before anything was sent.
    /// Options without a client identifier get one made from a random
    /// number.
    pub fn connect_with(self) -> (client: Client<S>)
        ensures
            begins(self@, client@),
    {
        let mut opts = self;
        if opts.client_id.is_none() {
            opts.generate_client_id();
        }
        let client = Client {
            state: ClientState::Disconnected,
            opts,
            session_present: false,
            last_pid: PacketIdentifier::zero(),
            await_ping: false,
            incomming_pub: VecDeque::new(),
            incomming_rec: VecDeque::new(),
            incomming_rel: VecDeque::new(),
            outgoing_ack: VecDeque::new(),
            outgoing_rec: VecDeque::new(),
            outgoing_comp: VecDeque::new(),
            await_suback: VecDeque::new(),
            await_unsuback: VecDeque::new(),
            subscriptions: Subscriptions::new(),
            outbox: Vec::new(),
            pending: Pending::Idle,
        };
        assert(client@ =~= ClientView::fresh(client.opts@));
        client
    }
}

impl<S: Store> Client<S> {
    /// Where the session stands with its broker.
    pub fn state(&self) -> (state: ClientState)
        ensures
            state == self@.state,
    {
        self.state
    }

    /// Whether the broker resumed an earlier session at the last handshake.
    pub fn session_present(&self) -> (present: bool)
        ensures
            present == self@.session_present,
    {
        self.session_present
    }

    /// Sets what the session does when its link is lost.
    pub fn set_reconnect(&mut self, reconnect: ReconnectMethod)
        ensures
            final(self)@ == (ClientView {
                opts: OptionsView { reconnect, ..old(self)@.opts },
                ..old(self)@
            }),
    {
        self.opts.reconnect = reconnect;
    }

    /// Issues the next packet identifier. It is never zero.
    pub fn next_pid(&mut self) -> (pid: PacketIdentifier)
        ensures
            final(self)@ == old(self)@.next_pid(),
            pid == final(self)@.last_pid,
            pid.0 != 0,
    {
        self.last_pid = self.last_pid.next();
        self.last_pid
    }

    /// Hands `packet` to the caller to be written.
    fn write_packet(&mut self, packet: Packet)
        ensures
            final(self)@ == old(self)@.written(packet@),
    {
        proof {
            lemma_views_push(self.outbox@, Output::Write(packet));
        }
        self.outbox.push(Output::Write(packet));
    }

    /// Takes what the caller has to do on the stream, in order.
    pub fn take_outbox(&mut self) -> (outbox: Vec<Output>)
        ensures
            views(outbox@) == old(self)@.outbox,
            final(self)@ == old(self)@.drained(),
    {
        let mut outbox: Vec<Output> = Vec::new();
        std::mem::swap(&mut outbox, &mut self.outbox);
        outbox
    }

    /// Whether the session is established and nothing is in flight: no
    /// ping, no publication in either direction, no subscription request.
    pub fn normalized(&self) -> (normalized: bool)
        ensures
            normalized == self@.normalized(),
    {
        self.state == ClientState::Connected && !self.await_ping && self.outgoing_ack.len() == 0
            && self.outgoing_rec.len() == 0 && self.outgoing_comp.len() == 0
            && self.incomming_pub.len() == 0 && self.incomming_rec.len() == 0
            && self.incomming_rel.len() == 0 && self.await_suback.len() == 0
            && self.await_unsuback.len() == 0
    }

    /// Gives the link up: the caller is told to shut the stream down, and
    /// what waited for an answer on it is forgotten. Publications in flight
    /// and the stores stay as they are.
    fn unbind(&mut self)
        ensures
            final(self)@ == old(self)@.unbind(),
    {
        proof {
            lemma_views_push(self.outbox@, Output::Shutdown);
        }
        self.outbox.push(Output::Shutdown);
        self.await_unsuback.clear();
        self.await_suback.clear();
        self.await_ping = false;
        self.state = ClientState::Disconnected;
        assert(views(self.await_suback@) =~= Seq::empty());
        assert(views(self.await_unsuback@) =~= Seq::empty());
    }

    /// Ends the session's link.
    pub fn terminate(&mut self)
        ensures
            final(self)@ == old(self)@.unbind(),
    {
        self.unbind();
    }

    /// Ends the session. What is handed back is still to be carried out on
    /// the stream, which is then flushed.
    pub fn disconnect(self) -> (outbox: Vec<Output>)
        ensures
            views(outbox@) == self@.outbox,
    {
        self.outbox
    }

    /// Starts the handshake: CONNECT is put into the outbox. The caller
    /// flushes the stream and waits for the broker's answer.
    pub fn handshake(&mut self)
        requires
            old(self)@.opts.client_id is Some,
        ensures
            final(self)@ == old(self)@.handshake(),
    {
        self.state = ClientState::Handshake;
        let connect = self.opts.generate_connect_packet();
        self.write_packet(Packet::Connect(connect));
    }

    /// Whether connecting again has anything to do: not on an established
    /// session.
    pub fn reconnect(&self) -> (due: bool)
        ensures
            due == (self@.state != ClientState::Connected),
    {
        self.state != ClientState::Connected
    }

    /// Publishes `payload` to `topic`. With `Ok`, PUBLISH is in the outbox
    /// and the caller flushes the stream.
    ///
    /// `Error::InvalidTopic` if `topic` is no topic name;
    /// `Error::OutgoingStorageAbsent` if the publication is to be delivered
    /// exactly once and there is no store for it.
    pub fn publish(&mut self, topic: &str, payload: Vec<u8>, pubopt: PubOpt) -> (done: Result<
        (),
        Error,
    >)
        ensures
            follows(
                S::reliable(),
                (final(self)@, done),
                |fault: Option<Error>| old(self)@.publish(topic@, payload@, pubopt, fault),
            ),
    {
        let ghost before = self@;
        let ghost step = |fault: Option<Error>| before.publish(topic@, payload@, pubopt, fault);
        if !valid_topic_name(topic) {
            assert((self@, Err::<(), Error>(Error::InvalidTopic)) == step(None));
            return Err(Error::InvalidTopic);
        }
        let mut message = Message {
            topic: topic.to_owned(),
            qos: pubopt.qos(),
            retain: pubopt.is_retain(),
            pid: None,
            payload,
        };
        match message.qos {
            QoS::AtMostOnce => {},
            QoS::AtLeastOnce => {
                message.pid = Some(self.next_pid());
                let queued = message.clone();
                proof {
                    lemma_views_push(self.outgoing_ack@, queued);
                }
                self.outgoing_ack.push_back(queued);
            },
            QoS::ExactlyOnce => {
                message.pid = Some(self.next_pid());
                let stored = message.clone();
                match &mut self.opts.outgoing_store {
                    Some(store) => {
                        match store.put(stored) {
                            Ok(()) => {},
                            Err(e) => {
                                assert((self@, Err::<(), Error>(e)) == step(Some(e)));
                                return Err(e);
                            },
                        }
                    },
                    None => {
                        assert((self@, Err::<(), Error>(Error::OutgoingStorageAbsent)) == step(
                            None,
                        ));
                        return Err(Error::OutgoingStorageAbsent);
                    },
                }
                let queued = message.clone();
                proof {
                    lemma_views_push(self.outgoing_rec@, queued);
                }
                self.outgoing_rec.push_back(queued);
            },
        }
        self.write_packet(Packet::Publish(message.to_pub()));
        assert((self@, Ok::<(), Error>(())) == step(None));
        Ok(())
    }

    /// Asks the broker for `topics`. SUBSCRIBE is put into the outbox and
    /// remembered until SUBACK answers it; the caller flushes the stream.
    pub fn subscribe(&mut self, topics: Vec<SubscribeTopic>)
        ensures
            final(self)@ == old(self)@.subscribe(views(topics@)),
    {
        let pid = self.next_pid();
        let asked = Subscribe { pid, topics: clone_topics(&topics) };
        proof {
            lemma_views_push(self.await_suback@, asked);
        }
        self.await_suback.push_back(asked);
        self.write_packet(Packet::Subscribe(Subscribe { pid, topics }));
    }

    /// Asks the broker to end the subscriptions to `topics`. UNSUBSCRIBE is
    /// put into the outbox and remembered until UNSUBACK answers it; the
    /// caller flushes the stream.
    pub fn unsubscribe(&mut self, topics: Vec<String>)
        ensures
            final(self)@ == old(self)@.unsubscribe(views(topics@)),
    {
        let pid = self.next_pid();
        let asked = Unsubscribe { pid, topics: clone_texts(&topics) };
        proof {
            lemma_views_push(self.await_unsuback@, asked);
        }
        self.await_unsuback.push_back(asked);
        self.write_packet(Packet::Unsubscribe(Unsubscribe { pid, topics }));
    }

    /// After a handshake: if the broker resumed no session, one SUBSCRIBE
    /// for every subscription of the registry is put into the outbox.
    pub fn resubscribe(&mut self)
        ensures
            final(self)@ == old(self)@.resubscribe(),
    {
        if !self.session_present {
            let topics = self.subscriptions.to_subscribe_topics();
            self.subscribe(topics);
        }
    }

    /// Puts PINGREQ into the outbox; the caller flushes the stream.
    pub fn ping(&mut self)
        ensures
            final(self)@ == old(self)@.ping(),
    {
        self.await_ping = true;
        self.write_packet(Packet::Pingreq);
    }

    /// Tells the engine that the application is done with the publication
    /// `pid`, which was delivered exactly once. With `Ok`, PUBCOMP is in
    /// the outbox; the caller flushes the stream and reports to `flushed`,
    /// which forgets the stored publication.
    ///
    /// `Error::ProtocolViolation` unless `pid` is the oldest publication
    /// that the broker has released.
    pub fn complete(&mut self, pid: PacketIdentifier) -> (done: Result<(), Error>)
        ensures
            (final(self)@, done) == old(self)@.complete(pid),
    {
        match self.incomming_rel.pop_front() {
            Some(released) => {
                if released == pid {
                    self.pending = Pending::Complete(pid);
                    self.write_packet(Packet::Pubcomp(pid));
                    Ok(())
                } else {
                    Err(Error::ProtocolViolation)
                }
            },
            None => Err(Error::ProtocolViolation),
        }
    }

    /// What the reconnect policy asks for once the link is down.
    fn try_reconnect(&self) -> (action: Action)
        ensures
            action@ == self@.try_reconnect(),
    {
        match self.opts.reconnect {
            ReconnectMethod::ForeverDisconnect => Action::Return(Err(Error::Disconnected)),
            ReconnectMethod::ReconnectAfter(delay) => Action::Reconnect(delay),
        }
    }

    /// Starts a read cycle, `elapsed` after the stream was last flushed.
    ///
    /// On a live link: `Error::Timeout` if the keep-alive interval has
    /// passed; otherwise a read that ends when the interval does (a read
    /// without deadline if the session has no keep-alive). Without a link:
    /// what the reconnect policy asks for, `Error::Disconnected` if it is
    /// to stay so.
    pub fn accept(&self, elapsed: Nanos) -> (action: Action)
        ensures
            action@ == self@.accept(elapsed),
    {
        match self.state {
            ClientState::Disconnected => self.try_reconnect(),
            _ => match self.opts.keep_alive {
                Some(secs) => {
                    let keep_alive: u128 = secs as u128 * NANOS_PER_SEC;
                    if elapsed >= keep_alive {
                        Action::Return(Err(Error::Timeout))
                    } else {
                        Action::Read(Some(keep_alive - elapsed))
                    }
                },
                None => Action::Read(None),
            },
        }
    }

    /// Takes in a publication from the broker.
    ///
    /// Delivered at most once, it is handed back at once. Delivered at
    /// least once, it is handed back once PUBACK is flushed. Delivered
    /// exactly once, it is stored and PUBREC goes out; it is handed back
    /// when the broker releases it.
    pub fn handle_message(&mut self, message: Message) -> (action: Action)
        requires
            message@.well_formed(),
        ensures
            follows(
                S::reliable(),
                (final(self)@, action@),
                |fault: Option<Error>| old(self)@.handle_message(message@, fault),
            ),
    {
        let ghost before = self@;
        let ghost step = |fault: Option<Error>| before.handle_message(message@, fault);
        match message.qos {
            QoS::AtMostOnce => {
                let action = Action::Return(Ok(Some(message)));
                assert((self@, action@) == step(None));
                action
            },
            QoS::AtLeastOnce => {
                let pid = message.pid.unwrap();
                let queued = message.clone();
                proof {
                    lemma_views_push(self.incomming_pub@, queued);
                }
                self.incomming_pub.push_back(queued);
                self.pending = Pending::Acknowledge(message);
                self.write_packet(Packet::Puback(pid));
                assert((self@, ActionView::Flush) == step(None));
                Action::Flush
            },
            QoS::ExactlyOnce => {
                let pid = message.pid.unwrap();
                let queued = message.clone();
                proof {
                    lemma_views_push(self.incomming_rec@, queued);
                }
                self.incomming_rec.push_back(queued);
                match &mut self.opts.incomming_store {
                    Some(store) => {
                        match store.put(message) {
                            Ok(()) => {},
                            Err(e) => {
                                let action = Action::Return(Err(e));
                                assert((self@, action@) == step(Some(e)));
                                return action;
                            },
                        }
                    },
                    None => {
                        let action = Action::Return(Err(Error::IncomingStorageAbsent));
                        assert((self@, action@) == step(None));
                        return action;
                    },
                }
                self.pending = Pending::Idle;
                self.write_packet(Packet::Pubrec(pid));
                assert((self@, ActionView::Flush) == step(None));
                Action::Flush
            },
        }
    }

    /// Applies SUBACK to the oldest SUBSCRIBE that waits for its answer.
    ///
    /// `Error::ProtocolViolation` if none waits, or if the identifier or
    /// the number of return codes is not that SUBSCRIBE's. Otherwise every
    /// filter that was granted is recorded with the guarantee granted, in
    /// the order asked; `Error::InvalidTopic` at the first granted filter
    /// that is ill formed.
    fn suback(&mut self, suback: Suback) -> (action: Action)
        ensures
            (final(self)@, action@) == old(self)@.suback(suback@),
    {
        let ghost before = self@;
        let ghost queue = self.await_suback@;
        let asked = match self.await_suback.pop_front() {
            Some(asked) => asked,
            None => {
                return Action::Return(Err(Error::ProtocolViolation));
            },
        };
        proof {
            lemma_views_subrange(queue, 1, queue.len() as int);
        }
        if asked.pid != suback.pid || asked.topics.len() != suback.return_codes.len() {
            return Action::Return(Err(Error::ProtocolViolation));
        }
        let mut i: usize = 0;
        while i < asked.topics.len()
            invariant
                i <= asked.topics.len(),
                asked.topics.len() == suback.return_codes.len(),
                before == old(self)@,
                before.await_suback.len() > 0,
                before.await_suback[0] == asked@,
                asked.pid == suback.pid,
                granted(before.subscriptions, asked@, suback@.return_codes, i as int) == (
                    self.subscriptions@,
                    true,
                ),
                self@ == (ClientView {
                    subscriptions: self.subscriptions@,
                    await_suback: before.await_suback.drop_first(),
                    ..before
                }),
            decreases asked.topics.len() - i,
        {
            match suback.return_codes[i] {
                SubscribeReturnCodes::Success(qos) => {
                    if !valid_topic_filter(asked.topics[i].topic_path.as_str()) {
                        proof {
                            lemma_granted_stays(
                                before.subscriptions,
                                asked@,
                                suback@.return_codes,
                                i + 1,
                                asked.topics.len() as int,
                            );
                        }
                        return Action::Return(Err(Error::InvalidTopic));
                    }
                    self.subscriptions.insert(
                        Subscription {
                            pid: asked.pid,
                            topic_path: asked.topics[i].topic_path.clone(),
                            qos,
                        },
                    );
                },
                SubscribeReturnCodes::Failure => {},
            }
            i += 1;
        }
        Action::Return(Ok(None))
    }

    /// Applies UNSUBACK to the oldest UNSUBSCRIBE that waits for its
    /// answer: its filters leave the registry.
    ///
    /// `Error::ProtocolViolation` if none waits, or if the identifier is
    /// not that UNSUBSCRIBE's.
    fn unsuback(&mut self, pid: PacketIdentifier) -> (action: Action)
        ensures
            (final(self)@, action@) == old(self)@.unsuback(pid),
    {
        let ghost before = self@;
        let ghost queue = self.await_unsuback@;
        let asked = match self.await_unsuback.pop_front() {
            Some(asked) => asked,
            None => {
                return Action::Return(Err(Error::ProtocolViolation));
            },
        };
        proof {
            lemma_views_subrange(queue, 1, queue.len() as int);
        }
        if asked.pid != pid {
            return Action::Return(Err(Error::ProtocolViolation));
        }
        let mut i: usize = 0;
        while i < asked.topics.len()
            invariant
                i <= asked.topics.len(),
                self.subscriptions@ == dropped(before.subscriptions, asked@.topics, i as int),
                self@ == (ClientView {
                    subscriptions: self.subscriptions@,
                    await_unsuback: before.await_unsuback.drop_first(),
                    ..before
                }),
            decreases asked.topics.len() - i,
        {
            self.subscriptions.remove(&asked.topics[i]);
            i += 1;
        }
        Action::Return(Ok(None))
    }

    /// Takes in one packet from the broker.
    ///
    /// During the handshake only CONNACK is taken: accepted, it
    /// establishes the session; refused, it fails with
    /// `Error::ConnectionRefused`; anything else fails with
    /// `Error::HandshakeFailed`. On an established session each
    /// acknowledgement must answer the oldest entry of its queue, and a
    /// packet that only a broker receives fails with
    /// `Error::UnrecognizedPacket`. Without a link every packet fails with
    /// `Error::ConnectionAbort`.
    pub fn parse_packet(&mut self, packet: Packet) -> (action: Action)
        requires
            packet@.well_formed(),
        ensures
            follows(
                S::reliable(),
                (final(self)@, action@),
                |fault: Option<Error>| old(self)@.parse_packet(packet@, fault),
            ),
    {
        let ghost before = self@;
        let ghost step = |fault: Option<Error>| before.parse_packet(packet@, fault);
        match self.state {
            ClientState::Handshake => {
                let action = match packet {
                    Packet::Connack(connack) => {
                        if connack.code == ConnectReturnCode::Accepted {
                            self.session_present = connack.session_present;
                            self.state = ClientState::Connected;
                            Action::Return(Ok(None))
                        } else {
                            Action::Return(Err(Error::ConnectionRefused(connack.code)))
                        }
                    },
                    _ => Action::Return(Err(Error::HandshakeFailed)),
                };
                assert((self@, action@) == step(None));
                action
            },
            ClientState::Connected => {
                match packet {
                    Packet::Connack(_) => {
                        let action = Action::Return(Err(Error::AlreadyConnected));
                        assert((self@, action@) == step(None));
                        action
                    },
                    Packet::Publish(publish) => {
                        match Message::from_pub(publish) {
                            Ok(message) => {
                                let ghost handle = |fault: Option<Error>|
                                    before.handle_message(message@, fault);
                                let action = self.handle_message(message);
                                proof {
                                    assert(forall|fault: Option<Error>|
                                        #[trigger] step(fault) == handle(fault));
                                    if (self@, action@) != handle(None) {
                                        let e = choose|e: Error|
                                            (self@, action@) == #[trigger] handle(Some(e));
                                        assert((self@, action@) == step(Some(e)));
                                    }
                                }
                                action
                            },
                            Err(e) => {
                                let action = Action::Return(Err(e));
                                assert((self@, action@) == step(None));
                                action
                            },
                        }
                    },
                    Packet::Puback(pid) => {
                        let ghost queue = self.outgoing_ack@;
                        let action = match self.outgoing_ack.pop_front() {
                            Some(message) => {
                                proof {
                                    lemma_views_subrange(queue, 1, queue.len() as int);
                                }
                                if message.pid == Some(pid) {
                                    Action::Return(Ok(None))
                                } else {
                                    Action::Return(Err(Error::UnhandledPuback(pid)))
                                }
                            },
                            None => Action::Return(Err(Error::UnhandledPuback(pid))),
                        };
                        assert((self@, action@) == step(None));
                        action
                    },
                    Packet::Pubrec(pid) => {
                        let ghost queue = self.outgoing_rec@;
                        let action = match self.outgoing_rec.pop_front() {
                            Some(message) => {
                                proof {
                                    lemma_views_subrange(queue, 1, queue.len() as int);
                                }
                                if message.pid == Some(pid) {
                                    self.pending = Pending::Release(pid);
                                    self.write_packet(Packet::Pubrel(pid));
                                    Action::Flush
                                } else {
                                    Action::Return(Err(Error::UnhandledPubrec(pid)))
                                }
                            },
                            None => Action::Return(Err(Error::UnhandledPubrec(pid))),
                        };
                        assert((self@, action@) == step(None));
                        action
                    },
                    Packet::Pubrel(pid) => {
                        let ghost queue = self.incomming_rec@;
                        match self.incomming_rec.pop_front() {
                            Some(message) => {
                                proof {
                                    lemma_views_subrange(queue, 1, queue.len() as int);
                                }
                                if message.pid == Some(pid) {
                                    let found = match &mut self.opts.incomming_store {
                                        Some(store) => store.get(pid),
                                        None => Err(Error::IncomingStorageAbsent),
                                    };
                                    match found {
                                        Ok(stored) => {
                                            self.incomming_rel.push_back(pid);
                                            let action = Action::Return(Ok(Some(stored)));
                                            assert((self@, action@) == step(None));
                                            action
                                        },
                                        Err(e) => {
                                            let action = Action::Return(Err(e));
                                            assert((self@, action@) == step(None) || (
                                            !S::reliable() && (self@, action@) == step(Some(e))));
                                            action
                                        },
                                    }
                                } else {
                                    let action = Action::Return(Err(Error::UnhandledPubrel(pid)));
                                    assert((self@, action@) == step(None));
                                    action
                                }
                            },
                            None => {
                                let action = Action::Return(Err(Error::UnhandledPubrel(pid)));
                                assert((self@, action@) == step(None));
                                action
                            },
                        }
                    },
                    Packet::Pubcomp(pid) => {
                        let action = match self.outgoing_comp.pop_front() {
                            Some(_) => Action::Return(Ok(None)),
                            None => Action::Return(Err(Error::UnhandledPubcomp(pid))),
                        };
                        assert((self@, action@) == step(None));
                        action
                    },
                    Packet::Suback(suback) => {
                        let action = self.suback(suback);
                        assert((self@, action@) == step(None));
                        action
                    },
                    Packet::Unsuback(pid) => {
                        let action = self.unsuback(pid);
                        assert((self@, action@) == step(None));
                        action
                    },
                    Packet::Pingresp => {
                        self.await_ping = false;
                        let action = Action::Return(Ok(None));
                        assert((self@, action@) == step(None));
                        action
                    },
                    _ => {
                        let action = Action::Return(Err(Error::UnrecognizedPacket));
                        assert((self@, action@) == step(None));
                        action
                    },
                }
            },
            ClientState::Disconnected => {
                let action = Action::Return(Err(Error::ConnectionAbort));
                assert((self@, action@) == step(None));
                action
            },
        }
    }

    /// Goes on after the caller has flushed the stream, or has failed to.
    ///
    /// A failed flush ends the call with `Error::Io`, except after the
    /// ping that `wait` sends, where the wait goes on either way. After a
    /// flush that went well the session does what the flushed packet
    /// stands for: behind PUBACK the publication is handed back; behind
    /// PUBREL the publication awaits PUBCOMP and leaves the outgoing
    /// store; behind PUBCOMP it leaves the incoming store.
    pub fn flushed(&mut self, outcome: Result<(), IoFailure>) -> (action: Action)
        ensures
            follows(
                S::reliable(),
                (final(self)@, action@),
                |fault: Option<Error>| old(self)@.flushed(outcome, fault),
            ),
    {
        let ghost before = self@;
        let ghost step = |fault: Option<Error>| before.flushed(outcome, fault);
        let mut pending = Pending::Idle;
        std::mem::swap(&mut pending, &mut self.pending);
        match pending {
            Pending::Probe => {
                assert((self@, ActionView::Again) == step(None));
                return Action::Again;
            },
            _ => {},
        }
        match outcome {
            Err(failure) => {
                let action = Action::Return(Err(Error::Io(failure)));
                assert((self@, action@) == step(None));
                return action;
            },
            Ok(()) => {},
        }
        match pending {
            Pending::Idle | Pending::Probe => {
                let action = Action::Return(Ok(None));
                assert((self@, action@) == step(None));
                action
            },
            Pending::Acknowledge(message) => {
                let ghost queue = self.incomming_pub@;
                let _ = self.incomming_pub.pop_front();
                proof {
                    if queue.len() > 0 {
                        lemma_views_subrange(queue, 1, queue.len() as int);
                    }
                }
                let action = Action::Return(Ok(Some(message)));
                assert((self@, action@) == step(None));
                action
            },
            Pending::Release(pid) => {
                self.outgoing_comp.push_back(pid);
                let done = match &mut self.opts.outgoing_store {
                    Some(store) => store.delete(pid),
                    None => Err(Error::OutgoingStorageAbsent),
                };
                match done {
                    Ok(()) => {
                        let action = Action::Return(Ok(None));
                        assert((self@, action@) == step(None));
                        action
                    },
                    Err(e) => {
                        let action = Action::Return(Err(e));
                        assert((self@, action@) == step(None) || (!S::reliable() && (
                            self@,
                            action@,
                        ) == step(Some(e))));
                        action
                    },
                }
            },
            Pending::Complete(pid) => {
                let done = match &mut self.opts.incomming_store {
                    Some(store) => store.delete(pid),
                    None => Err(Error::IncomingStorageAbsent),
                };
                match done {
                    Ok(()) => {
                        let action = Action::Return(Ok(None));
                        assert((self@, action@) == step(None));
                        action
                    },
                    Err(e) => {
                        let action = Action::Return(Err(e));
                        assert((self@, action@) == step(None) || (!S::reliable() && (
                            self@,
                            action@,
                        ) == step(Some(e))));
                        action
                    },
                }
            },
        }
    }

    /// Ends a read cycle with what the read gave: a packet, or the reason
    /// why there is none.
    ///
    /// A packet is handed to `parse_packet`. A read that ran into its
    /// deadline fails with `Error::Timeout`. When the peer is gone the
    /// link is given up and the reconnect policy consulted:
    /// `Error::Disconnected` if the session is to stay so. Any other
    /// failure gives the link up and fails with `Error::Io`.
    pub fn received(&mut self, read: Result<Packet, IoFailure>) -> (action: Action)
        requires
            read matches Ok(packet) ==> packet@.well_formed(),
        ensures
            follows(
                S::reliable(),
                (final(self)@, action@),
                |fault: Option<Error>| old(self)@.received(read_view(read), fault),
            ),
    {
        let ghost before = self@;
        let ghost step = |fault: Option<Error>| before.received(read_view(read), fault);
        match read {
            Ok(packet) => {
                let ghost parse = |fault: Option<Error>| before.parse_packet(packet@, fault);
                let action = self.parse_packet(packet);
                let ghost parsed = self@;
                let abort = match &action {
                    Action::Return(Err(Error::ConnectionAbort)) => true,
                    _ => false,
                };
                assert(abort == (action@ == ActionView::Return(Err(Error::ConnectionAbort))));
                if abort {
                    self.unbind();
                }
                proof {
                    if (parsed, action@) == parse(None) {
                        assert((self@, action@) == step(None));
                    } else {
                        let e = choose|e: Error| (parsed, action@) == #[trigger] parse(Some(e));
                        assert((self@, action@) == step(Some(e)));
                    }
                }
                action
            },
            Err(failure) => {
                let action = match failure {
                    IoFailure::WouldBlock | IoFailure::TimedOut => Action::Return(
                        Err(Error::Timeout),
                    ),
                    IoFailure::UnexpectedEof
                    | IoFailure::ConnectionRefused
                    | IoFailure::ConnectionReset
                    | IoFailure::ConnectionAborted => {
                        self.unbind();
                        self.try_reconnect()
                    },
                    IoFailure::Other => {
                        self.unbind();
                        Action::Return(Err(Error::Io(failure)))
                    },
                };
                assert((self@, action@) == step(None));
                action
            },
        }
    }

    /// Decides how the application's wait goes on after a read cycle that
    /// ended with `accepted`.
    ///
    /// A publication ends the wait, and so does any error but
    /// `Error::Timeout`. A timeout on an established session sends a ping,
    /// or gives the link up if the last ping is still unanswered; before
    /// the session is established it ends the wait. Otherwise the wait
    /// ends with `Ok(None)` once the session is normalized, and goes on
    /// until then.
    pub fn wait(&mut self, accepted: Result<Option<Message>, Error>) -> (action: Action)
        ensures
            (final(self)@, action@) == old(self)@.wait(outcome_view(accepted)),
    {
        match accepted {
            Ok(Some(message)) => {
                return Action::Return(Ok(Some(message)));
            },
            Ok(None) => {},
            Err(Error::Timeout) => {
                if self.state != ClientState::Connected {
                    return Action::Return(Err(Error::Timeout));
                } else if !self.await_ping {
                    self.ping();
                    self.pending = Pending::Probe;
                    return Action::Flush;
                } else {
                    self.unbind();
                    return Action::Again;
                }
            },
            Err(e) => {
                return Action::Return(Err(e));
            },
        }
        if self.normalized() {
            Action::Return(Ok(None))
        } else {
            Action::Again
        }
    }

    /// The keep-alive interval in seconds, if the session has one.
    pub fn keep_alive(&self) -> (secs: Option<u16>)
        ensures
            secs == self@.opts.keep_alive,
    {
        self.opts.keep_alive
    }

    /// Whether a ping went out that the broker has not answered.
    pub fn await_ping(&self) -> (waiting: bool)
        ensures
            waiting == self@.await_ping,
    {
        self.await_ping
    }

    /// The identifier that was issued last; zero before the first.
    pub fn last_pid(&self) -> (pid: PacketIdentifier)
        ensures
            pid == self@.last_pid,
    {
        self.last_pid
    }

    /// The subscriptions that the broker has granted.
    pub fn subscriptions(&self) -> (registry: &Subscriptions)
        ensures
            registry@ == self@.subscriptions,
    {
        &self.subscriptions
    }

    /// The store of inbound publications, if the session has one.
    pub fn incomming_store(&self) -> (store: Option<&S>)
        ensures
            match store {
                Some(s) => self@.opts.incomming_store == Some(s.contents()),
                None => self@.opts.incomming_store is None,
            },
    {
        self.opts.incomming_store.as_ref()
    }

    /// The store of outbound publications, if the session has one.
    pub fn outgoing_store(&self) -> (store: Option<&S>)
        ensures
            match store {
                Some(s) => self@.opts.outgoing_store == Some(s.contents()),
                None => self@.opts.outgoing_store is None,
            },
    {
        self.opts.outgoing_store.as_ref()
    }

    /// Inbound publications whose PUBACK is not flushed yet.
    pub fn incomming_pub(&self) -> (queue: &VecDeque<Message>)
        ensures
            views(queue@) == self@.incomming_pub,
    {
        &self.incomming_pub
    }

    /// Inbound publications that the broker has not released yet.
    pub fn incomming_rec(&self) -> (queue: &VecDeque<Message>)
        ensures
            views(queue@) == self@.incomming_rec,
    {
        &self.incomming_rec
    }

    /// Released publications that the application has not completed yet.
    pub fn incomming_rel(&self) -> (queue: &VecDeque<PacketIdentifier>)
        ensures
            queue@ == self@.incomming_rel,
    {
        &self.incomming_rel
    }

    /// Outbound publications that await PUBACK.
    pub fn outgoing_ack(&self) -> (queue: &VecDeque<Message>)
        ensures
            views(queue@) == self@.outgoing_ack,
    {
        &self.outgoing_ack
    }

    /// Outbound publications that await PUBREC.
    pub fn outgoing_rec(&self) -> (queue: &VecDeque<Message>)
        ensures
            views(queue@) == self@.outgoing_rec,
    {
        &self.outgoing_rec
    }

    /// Outbound publications that await PUBCOMP.
    pub fn outgoing_comp(&self) -> (queue: &VecDeque<PacketIdentifier>)
        ensures
            queue@ == self@.outgoing_comp,
    {
        &self.outgoing_comp
    }

    /// The SUBSCRIBE packets that await SUBACK.
    pub fn await_suback(&self) -> (queue: &VecDeque<Subscribe>)
        ensures
            views(queue@) == self@.await_suback,
    {
        &self.await_suback
    }

    /// The UNSUBSCRIBE packets that await UNSUBACK.
    pub fn await_unsuback(&self) -> (queue: &VecDeque<Unsubscribe>)
        ensures
            views(queue@) == self@.await_unsuback,
    {
        &self.await_unsuback
    }
}

/// Once a granted filter was found ill formed, the rest of the return
/// codes changes nothing.
proof fn lemma_granted_stays(
    entries: Seq<crate::sub::SubscriptionView>,
    asked: crate::packet::SubscribeView,
    codes: Seq<SubscribeReturnCodes>,
    k: int,
    n: int,
)
    requires
        0 <= k <= n,
        !granted(entries, asked, codes, k).1,
    ensures
        granted(entries, asked, codes, n) == granted(entries, asked, codes, k),
    decreases n - k,
{
    if k < n {
        lemma_granted_stays(entries, asked, codes, k, n - 1);
    }
}

/// A copy of `topics`.
fn clone_topics(topics: &Vec<SubscribeTopic>) -> (copy: Vec<SubscribeTopic>)
    ensures
        views(copy@) == views(topics@),
{
    let mut copy: Vec<SubscribeTopic> = Vec::new();
    let mut i: usize = 0;
    while i < topics.len()
        invariant
            i <= topics.len(),
            views(copy@) == views(topics@.subrange(0, i as int)),
        decreases topics.len() - i,
    {
        let topic = topics[i].clone();
        proof {
            lemma_views_push(copy@, topic);
            assert(topics@.subrange(0, i + 1) == topics@.subrange(0, i as int).push(topics@[i as int]));
            lemma_views_push(topics@.subrange(0, i as int), topics@[i as int]);
        }
        copy.push(topic);
        i += 1;
    }
    assert(topics@.subrange(0, i as int) == topics@);
    copy
}

/// A copy of `texts`.
fn clone_texts(texts: &Vec<String>) -> (copy: Vec<String>)
    ensures
        views(copy@) == views(texts@),
{
    let mut copy: Vec<String> = Vec::new();
    let mut i: usize = 0;
    while i < texts.len()
        invariant
            i <= texts.len(),
            views(copy@) == views(texts@.subrange(0, i as int)),
        decreases texts.len() - i,
    {
        let text = texts[i].clone();
        proof {
            lemma_views_push(copy@, text);
            assert(texts@.subrange(0, i + 1) == texts@.subrange(0, i as int).push(texts@[i as int]));
            lemma_views_push(texts@.subrange(0, i as int), texts@[i as int]);
        }
        copy.push(text);
        i += 1;
    }
    assert(texts@.subrange(0, i as int) == texts@);
    copy
}

} // verus!
