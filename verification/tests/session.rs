use mqttc::client::{Action, Client, Output};
use mqttc::error::{Error, IoFailure};
use mqttc::message::{Message, PubOpt, QoS};
use mqttc::model::ClientState;
use mqttc::options::{default_port, ClientOptions, ReconnectMethod};
use mqttc::packet::{
    Connack, ConnectReturnCode, Packet, Protocol, Publish, Suback, SubscribeReturnCodes,
    SubscribeTopic,
};
use mqttc::pid::PacketIdentifier;
use mqttc::store::{MemoryStorage, Store};
use mqtt3::MqttRead;
use std::io::Cursor;

const SECOND: u128 = 1_000_000_000;

/// Stands in for the stream: what the broker sends, and what was done on it.
struct Wire {
    feed: Vec<Result<Packet, IoFailure>>,
    done: Vec<Output>,
    flushes: usize,
}

impl Wire {
    fn new() -> Wire {
        Wire { feed: Vec::new(), done: Vec::new(), flushes: 0 }
    }

    fn read(&mut self) -> Result<Packet, IoFailure> {
        if self.feed.is_empty() {
            Err(IoFailure::TimedOut)
        } else {
            self.feed.remove(0)
        }
    }

    fn written(&self) -> Vec<&Packet> {
        let mut packets = Vec::new();
        for output in &self.done {
            if let Output::Write(packet) = output {
                packets.push(packet);
            }
        }
        packets
    }
}

fn accept(
    client: &mut Client<MemoryStorage>,
    wire: &mut Wire,
    elapsed: u128,
) -> Result<Option<Message>, Error> {
    let mut action = client.accept(elapsed);
    loop {
        wire.done.extend(client.take_outbox());
        action = match action {
            Action::Return(outcome) => return outcome,
            Action::Read(_) => {
                let read = wire.read();
                client.received(read)
            }
            Action::Flush => {
                wire.flushes += 1;
                client.flushed(Ok(()))
            }
            Action::Reconnect(_) => return Ok(None),
            Action::Again => unreachable!(),
        };
    }
}

fn wait(
    client: &mut Client<MemoryStorage>,
    wire: &mut Wire,
    elapsed: u128,
) -> Result<Option<Message>, Error> {
    let mut rounds = 0;
    loop {
        rounds += 1;
        assert!(rounds < 100);
        let accepted = accept(client, wire, elapsed);
        let mut action = client.wait(accepted);
        loop {
            wire.done.extend(client.take_outbox());
            action = match action {
                Action::Return(outcome) => return outcome,
                Action::Flush => {
                    wire.flushes += 1;
                    client.flushed(Ok(()))
                }
                Action::Again => break,
                _ => unreachable!(),
            };
        }
    }
}

fn accepted_connack(session_present: bool) -> Packet {
    Packet::Connack(Connack { session_present, code: ConnectReturnCode::Accepted })
}

fn decode(bytes: Vec<u8>) -> Packet {
    match Cursor::new(bytes).read_packet().unwrap() {
        mqtt3::Packet::Connack(connack) => Packet::Connack(Connack {
            session_present: connack.session_present,
            code: match connack.code {
                mqtt3::ConnectReturnCode::Accepted => ConnectReturnCode::Accepted,
                mqtt3::ConnectReturnCode::RefusedProtocolVersion => {
                    ConnectReturnCode::RefusedProtocolVersion
                }
                mqtt3::ConnectReturnCode::RefusedIdentifierRejected => {
                    ConnectReturnCode::RefusedIdentifierRejected
                }
                mqtt3::ConnectReturnCode::ServerUnavailable => ConnectReturnCode::ServerUnavailable,
                mqtt3::ConnectReturnCode::BadUsernamePassword => {
                    ConnectReturnCode::BadUsernamePassword
                }
                mqtt3::ConnectReturnCode::NotAuthorized => ConnectReturnCode::NotAuthorized,
            },
        }),
        mqtt3::Packet::Puback(pid) => Packet::Puback(PacketIdentifier(pid.0)),
        mqtt3::Packet::Pubrec(pid) => Packet::Pubrec(PacketIdentifier(pid.0)),
        mqtt3::Packet::Pubrel(pid) => Packet::Pubrel(PacketIdentifier(pid.0)),
        mqtt3::Packet::Pubcomp(pid) => Packet::Pubcomp(PacketIdentifier(pid.0)),
        mqtt3::Packet::Unsuback(pid) => Packet::Unsuback(PacketIdentifier(pid.0)),
        mqtt3::Packet::Pingresp => Packet::Pingresp,
        other => panic!("not used here: {:?}", other),
    }
}

fn connected() -> (Client<MemoryStorage>, Wire) {
    let mut options = ClientOptions::new();
    options.set_client_id("tester".to_string());
    let mut client = options.connect_with();
    let mut wire = Wire::new();
    client.handshake();
    wire.done.extend(client.take_outbox());
    assert_eq!(client.flushed(Ok(())), Action::Return(Ok(None)));
    assert_eq!(client.received(Ok(accepted_connack(false))), Action::Return(Ok(None)));
    assert_eq!(client.state(), ClientState::Connected);
    wire.done.clear();
    (client, wire)
}

fn inbound(qos: QoS, pid: Option<u16>, topic: &str, payload: &[u8]) -> Packet {
    Packet::Publish(Publish {
        dup: false,
        qos,
        retain: false,
        topic_name: topic.to_string(),
        pid: pid.map(PacketIdentifier),
        payload: payload.to_vec(),
    })
}

fn message(qos: QoS, pid: Option<u16>, topic: &str, payload: &[u8]) -> Message {
    Message {
        topic: topic.to_string(),
        qos,
        retain: false,
        pid: pid.map(PacketIdentifier),
        payload: payload.to_vec(),
    }
}

fn filter(path: &str, qos: QoS) -> SubscribeTopic {
    SubscribeTopic { topic_path: path.to_string(), qos }
}

#[test]
fn client_connect_test() {
    let mock_data = vec![0b00100000, 0x02, 0x01, 0x00];
    let options = ClientOptions::new();
    let host = "localhost";
    let port = default_port("tcp").unwrap();
    assert_eq!(format!("{}:{}", host, port), "localhost:1883");
    let mut client = options.connect_with();
    let mut wire = Wire::new();
    wire.feed.push(Ok(decode(mock_data)));
    client.handshake();
    wire.done.extend(client.take_outbox());
    assert_eq!(client.flushed(Ok(())), Action::Return(Ok(None)));
    wait(&mut client, &mut wire, 0).unwrap();
    assert_eq!(client.state(), ClientState::Connected);
    assert!(client.session_present());
}

#[test]
fn fresh_client_is_disconnected_and_empty() {
    let client = ClientOptions::new().connect_with();
    assert_eq!(client.state(), ClientState::Disconnected);
    assert!(!client.session_present());
    assert!(!client.await_ping());
    assert_eq!(client.last_pid(), PacketIdentifier(0));
    assert!(!client.normalized());
    assert_eq!(client.outgoing_ack().len(), 0);
    assert_eq!(client.outgoing_rec().len(), 0);
    assert_eq!(client.outgoing_comp().len(), 0);
    assert_eq!(client.incomming_pub().len(), 0);
    assert_eq!(client.incomming_rec().len(), 0);
    assert_eq!(client.incomming_rel().len(), 0);
    assert_eq!(client.await_suback().len(), 0);
    assert_eq!(client.await_unsuback().len(), 0);
    assert_eq!(client.subscriptions().len(), 0);
    assert_eq!(client.incomming_store().unwrap().len(), 0);
    assert_eq!(client.outgoing_store().unwrap().len(), 0);
    assert!(client.reconnect());
}

#[test]
fn handshake_writes_connect() {
    let mut options = ClientOptions::new();
    options.set_client_id("tester".to_string()).set_keep_alive(15);
    let mut client = options.connect_with();
    client.handshake();
    assert_eq!(client.state(), ClientState::Handshake);
    let outbox = client.take_outbox();
    assert_eq!(outbox.len(), 1);
    match &outbox[0] {
        Output::Write(Packet::Connect(connect)) => {
            assert_eq!(connect.protocol, Protocol::MQTT(4));
            assert_eq!(connect.keep_alive, 15);
            assert_eq!(connect.client_id, "tester");
            assert!(connect.clean_session);
            assert_eq!(connect.last_will, None);
            assert_eq!(connect.username, None);
            assert_eq!(connect.password, None);
        }
        other => panic!("unexpected {:?}", other),
    }
    assert_eq!(client.take_outbox().len(), 0);
}

#[test]
fn connack_accepted_establishes_the_session() {
    let mut client = ClientOptions::new().connect_with();
    client.handshake();
    let action = client.received(Ok(decode(vec![0x20, 0x02, 0x00, 0x00])));
    assert_eq!(action, Action::Return(Ok(None)));
    assert_eq!(client.state(), ClientState::Connected);
    assert!(!client.session_present());
    assert!(!client.reconnect());
}

#[test]
fn connack_refused_fails_the_handshake() {
    let mut client = ClientOptions::new().connect_with();
    client.handshake();
    assert_eq!(client.take_outbox().len(), 1);
    let action = client.received(Ok(decode(vec![0x20, 0x02, 0x00, 0x05])));
    assert_eq!(
        action,
        Action::Return(Err(Error::ConnectionRefused(ConnectReturnCode::NotAuthorized)))
    );
    assert_eq!(client.state(), ClientState::Handshake);
    client.terminate();
    assert_eq!(client.state(), ClientState::Disconnected);
    assert_eq!(client.take_outbox(), vec![Output::Shutdown]);
}

#[test]
fn handshake_takes_nothing_but_connack() {
    let mut client = ClientOptions::new().connect_with();
    client.handshake();
    assert_eq!(
        client.parse_packet(Packet::Pingresp),
        Action::Return(Err(Error::HandshakeFailed))
    );
    assert_eq!(
        client.parse_packet(Packet::Puback(PacketIdentifier(1))),
        Action::Return(Err(Error::HandshakeFailed))
    );
    assert_eq!(client.state(), ClientState::Handshake);
}

#[test]
fn connack_on_established_session_is_an_error() {
    let (mut client, _) = connected();
    assert_eq!(
        client.parse_packet(accepted_connack(true)),
        Action::Return(Err(Error::AlreadyConnected))
    );
    assert!(!client.session_present());
}

#[test]
fn packet_without_link_aborts() {
    let mut client = ClientOptions::new().connect_with();
    assert_eq!(
        client.parse_packet(Packet::Pingresp),
        Action::Return(Err(Error::ConnectionAbort))
    );
    assert_eq!(client.take_outbox().len(), 0);
    assert_eq!(
        client.received(Ok(Packet::Pingresp)),
        Action::Return(Err(Error::ConnectionAbort))
    );
    assert_eq!(client.take_outbox(), vec![Output::Shutdown]);
}

#[test]
fn broker_only_packets_are_unrecognized() {
    let (mut client, _) = connected();
    assert_eq!(
        client.parse_packet(Packet::Pingreq),
        Action::Return(Err(Error::UnrecognizedPacket))
    );
    assert_eq!(
        client.parse_packet(Packet::Disconnect),
        Action::Return(Err(Error::UnrecognizedPacket))
    );
    assert!(client.normalized());
}

#[test]
fn publish_at_most_once_keeps_no_state() {
    let (mut client, _) = connected();
    client.publish("a/b", b"hi".to_vec(), PubOpt::at_most_once()).unwrap();
    assert_eq!(client.last_pid(), PacketIdentifier(0));
    assert_eq!(client.outgoing_ack().len(), 0);
    assert_eq!(client.outgoing_rec().len(), 0);
    assert_eq!(client.outgoing_store().unwrap().len(), 0);
    assert_eq!(
        client.take_outbox(),
        vec![Output::Write(inbound(QoS::AtMostOnce, None, "a/b", b"hi"))]
    );
    assert_eq!(client.flushed(Ok(())), Action::Return(Ok(None)));
    assert!(client.normalized());
}

#[test]
fn publish_at_least_once_echo() {
    let (mut client, mut wire) = connected();
    client.publish("a/b", b"hi".to_vec(), PubOpt::at_least_once()).unwrap();
    assert_eq!(client.outgoing_ack().len(), 1);
    assert_eq!(client.outgoing_ack()[0], message(QoS::AtLeastOnce, Some(1), "a/b", b"hi"));
    assert_eq!(
        client.take_outbox(),
        vec![Output::Write(inbound(QoS::AtLeastOnce, Some(1), "a/b", b"hi"))]
    );
    assert_eq!(client.flushed(Ok(())), Action::Return(Ok(None)));
    assert!(!client.normalized());
    wire.feed.push(Ok(decode(vec![0x40, 0x02, 0x00, 0x01])));
    assert_eq!(wait(&mut client, &mut wire, 0), Ok(None));
    assert_eq!(client.outgoing_ack().len(), 0);
    assert!(client.normalized());
}

#[test]
fn publish_retained_sets_the_flag() {
    let (mut client, _) = connected();
    client.publish("a", vec![7], PubOpt::new(QoS::AtLeastOnce, true)).unwrap();
    let mut expected = message(QoS::AtLeastOnce, Some(1), "a", &[7]);
    expected.retain = true;
    assert_eq!(client.outgoing_ack()[0], expected);
    match client.take_outbox().pop() {
        Some(Output::Write(Packet::Publish(publish))) => {
            assert!(publish.retain);
            assert!(!publish.dup);
        }
        other => panic!("unexpected {:?}", other),
    }
}

#[test]
fn publish_to_a_filter_is_refused() {
    let (mut client, _) = connected();
    for topic in ["a/+/c", "a/#", "+", "#", "a+b", "wro#ng"] {
        assert_eq!(
            client.publish(topic, vec![1], PubOpt::exactly_once()),
            Err(Error::InvalidTopic)
        );
    }
    assert_eq!(client.last_pid(), PacketIdentifier(0));
    assert_eq!(client.take_outbox().len(), 0);
    assert!(client.normalized());
}

#[test]
fn puback_must_answer_the_oldest_publication() {
    let (mut client, _) = connected();
    client.publish("a", vec![1], PubOpt::at_least_once()).unwrap();
    client.publish("b", vec![2], PubOpt::at_least_once()).unwrap();
    client.publish("c", vec![3], PubOpt::at_least_once()).unwrap();
    assert_eq!(client.outgoing_ack().len(), 3);
    assert_eq!(
        client.parse_packet(Packet::Puback(PacketIdentifier(1))),
        Action::Return(Ok(None))
    );
    assert_eq!(client.outgoing_ack().len(), 2);
    assert_eq!(client.outgoing_ack()[0].pid, Some(PacketIdentifier(2)));
    assert_eq!(client.outgoing_ack()[1].pid, Some(PacketIdentifier(3)));
    assert_eq!(
        client.parse_packet(Packet::Puback(PacketIdentifier(3))),
        Action::Return(Err(Error::UnhandledPuback(PacketIdentifier(3))))
    );
    assert_eq!(client.outgoing_ack().len(), 1);
}

#[test]
fn puback_without_publication_is_unhandled() {
    let (mut client, _) = connected();
    assert_eq!(
        client.parse_packet(Packet::Puback(PacketIdentifier(9))),
        Action::Return(Err(Error::UnhandledPuback(PacketIdentifier(9))))
    );
}

#[test]
fn publish_exactly_once_hand_over() {
    let (mut client, mut wire) = connected();
    client.publish("a/b", b"hi".to_vec(), PubOpt::exactly_once()).unwrap();
    assert_eq!(client.outgoing_rec().len(), 1);
    assert_eq!(client.outgoing_store().unwrap().len(), 1);
    wire.done.extend(client.take_outbox());
    assert_eq!(client.flushed(Ok(())), Action::Return(Ok(None)));

    assert_eq!(client.parse_packet(decode(vec![0x50, 0x02, 0x00, 0x01])), Action::Flush);
    assert_eq!(client.outgoing_rec().len(), 0);
    assert_eq!(client.outgoing_comp().len(), 0);
    assert_eq!(client.outgoing_store().unwrap().len(), 1);
    assert_eq!(client.take_outbox(), vec![Output::Write(Packet::Pubrel(PacketIdentifier(1)))]);

    assert_eq!(client.flushed(Ok(())), Action::Return(Ok(None)));
    assert_eq!(client.outgoing_comp().len(), 1);
    assert_eq!(client.outgoing_comp()[0], PacketIdentifier(1));
    assert_eq!(client.outgoing_store().unwrap().len(), 0);
    assert!(!client.normalized());

    assert_eq!(
        client.parse_packet(decode(vec![0x70, 0x02, 0x00, 0x01])),
        Action::Return(Ok(None))
    );
    assert_eq!(client.outgoing_comp().len(), 0);
    assert!(client.normalized());
}

#[test]
fn pubrel_flush_failure_keeps_the_store() {
    let (mut client, _) = connected();
    client.publish("a/b", b"hi".to_vec(), PubOpt::exactly_once()).unwrap();
    assert_eq!(client.flushed(Ok(())), Action::Return(Ok(None)));
    assert_eq!(client.parse_packet(Packet::Pubrec(PacketIdentifier(1))), Action::Flush);
    assert_eq!(
        client.flushed(Err(IoFailure::Other)),
        Action::Return(Err(Error::Io(IoFailure::Other)))
    );
    assert_eq!(client.outgoing_comp().len(), 0);
    assert_eq!(client.outgoing_store().unwrap().len(), 1);
    assert_eq!(client.flushed(Ok(())), Action::Return(Ok(None)));
    assert_eq!(client.outgoing_comp().len(), 0);
}

#[test]
fn pubrec_out_of_order_is_unhandled() {
    let (mut client, _) = connected();
    assert_eq!(
        client.parse_packet(Packet::Pubrec(PacketIdentifier(4))),
        Action::Return(Err(Error::UnhandledPubrec(PacketIdentifier(4))))
    );
    client.publish("a", vec![1], PubOpt::exactly_once()).unwrap();
    assert_eq!(
        client.parse_packet(Packet::Pubrec(PacketIdentifier(4))),
        Action::Return(Err(Error::UnhandledPubrec(PacketIdentifier(4))))
    );
    assert_eq!(client.outgoing_rec().len(), 0);
    assert_eq!(client.outgoing_store().unwrap().len(), 1);
}

#[test]
fn pubcomp_without_release_is_unhandled() {
    let (mut client, _) = connected();
    assert_eq!(
        client.parse_packet(Packet::Pubcomp(PacketIdentifier(3))),
        Action::Return(Err(Error::UnhandledPubcomp(PacketIdentifier(3))))
    );
}

#[test]
fn inbound_at_most_once_is_surfaced_at_once() {
    let (mut client, mut wire) = connected();
    wire.feed.push(Ok(inbound(QoS::AtMostOnce, None, "t", b"x")));
    assert_eq!(
        wait(&mut client, &mut wire, 0),
        Ok(Some(message(QoS::AtMostOnce, None, "t", b"x")))
    );
    assert_eq!(wire.written().len(), 0);
    assert_eq!(wire.flushes, 0);
}

#[test]
fn inbound_at_least_once_is_acknowledged_then_surfaced() {
    let (mut client, mut wire) = connected();
    assert_eq!(client.parse_packet(inbound(QoS::AtLeastOnce, Some(5), "t", b"x")), Action::Flush);
    assert_eq!(client.incomming_pub().len(), 1);
    assert_eq!(client.take_outbox(), vec![Output::Write(Packet::Puback(PacketIdentifier(5)))]);
    assert_eq!(
        client.flushed(Ok(())),
        Action::Return(Ok(Some(message(QoS::AtLeastOnce, Some(5), "t", b"x"))))
    );
    assert_eq!(client.incomming_pub().len(), 0);
    wire.feed.push(Ok(inbound(QoS::AtLeastOnce, Some(5), "t", b"x")));
    assert_eq!(
        wait(&mut client, &mut wire, 0),
        Ok(Some(message(QoS::AtLeastOnce, Some(5), "t", b"x")))
    );
}

#[test]
fn inbound_at_least_once_flush_failure_surfaces_nothing() {
    let (mut client, _) = connected();
    assert_eq!(client.parse_packet(inbound(QoS::AtLeastOnce, Some(5), "t", b"x")), Action::Flush);
    assert_eq!(
        client.flushed(Err(IoFailure::ConnectionReset)),
        Action::Return(Err(Error::Io(IoFailure::ConnectionReset)))
    );
    assert_eq!(client.incomming_pub().len(), 1);
}

#[test]
fn inbound_exactly_once() {
    let (mut client, mut wire) = connected();
    wire.feed.push(Ok(inbound(QoS::ExactlyOnce, Some(7), "t", b"hi")));
    wire.feed.push(Ok(decode(vec![0x62, 0x02, 0x00, 0x07])));
    assert_eq!(accept(&mut client, &mut wire, 0), Ok(None));
    assert_eq!(wire.written(), vec![&Packet::Pubrec(PacketIdentifier(7))]);
    assert_eq!(client.incomming_rec().len(), 1);
    assert_eq!(client.incomming_store().unwrap().len(), 1);
    assert_eq!(
        wait(&mut client, &mut wire, 0),
        Ok(Some(message(QoS::ExactlyOnce, Some(7), "t", b"hi")))
    );
    assert_eq!(client.incomming_rec().len(), 0);
    assert_eq!(client.incomming_rel().len(), 1);
    assert_eq!(client.incomming_store().unwrap().len(), 1);

    assert_eq!(client.complete(PacketIdentifier(7)), Ok(()));
    assert_eq!(client.take_outbox(), vec![Output::Write(Packet::Pubcomp(PacketIdentifier(7)))]);
    assert_eq!(client.flushed(Ok(())), Action::Return(Ok(None)));
    assert_eq!(client.incomming_store().unwrap().len(), 0);
    assert_eq!(client.incomming_rel().len(), 0);
    assert!(client.normalized());

    assert_eq!(client.complete(PacketIdentifier(7)), Err(Error::ProtocolViolation));
    assert_eq!(client.take_outbox().len(), 0);
}

#[test]
fn inbound_exactly_once_first_wait_yields_nothing() {
    let (mut client, mut wire) = connected();
    wire.feed.push(Ok(inbound(QoS::ExactlyOnce, Some(7), "t", b"hi")));
    wire.feed.push(Ok(Packet::Pubrel(PacketIdentifier(7))));
    let first = accept(&mut client, &mut wire, 0);
    assert_eq!(first, Ok(None));
    assert_eq!(client.wait(first), Action::Again);
    let second = accept(&mut client, &mut wire, 0);
    assert_eq!(second, Ok(Some(message(QoS::ExactlyOnce, Some(7), "t", b"hi"))));
}

#[test]
fn pubrel_out_of_order_is_unhandled() {
    let (mut client, _) = connected();
    assert_eq!(
        client.parse_packet(Packet::Pubrel(PacketIdentifier(7))),
        Action::Return(Err(Error::UnhandledPubrel(PacketIdentifier(7))))
    );
    assert_eq!(client.parse_packet(inbound(QoS::ExactlyOnce, Some(7), "t", b"hi")), Action::Flush);
    assert_eq!(client.flushed(Ok(())), Action::Return(Ok(None)));
    assert_eq!(
        client.parse_packet(Packet::Pubrel(PacketIdentifier(8))),
        Action::Return(Err(Error::UnhandledPubrel(PacketIdentifier(8))))
    );
    assert_eq!(client.incomming_rec().len(), 0);
    assert_eq!(client.incomming_rel().len(), 0);
}

#[test]
fn pubrel_for_a_lost_publication_is_a_storage_miss() {
    let (mut client, _) = connected();
    assert_eq!(client.parse_packet(inbound(QoS::ExactlyOnce, Some(7), "t", b"a")), Action::Flush);
    assert_eq!(client.flushed(Ok(())), Action::Return(Ok(None)));
    assert_eq!(client.parse_packet(inbound(QoS::ExactlyOnce, Some(7), "t", b"b")), Action::Flush);
    assert_eq!(client.flushed(Ok(())), Action::Return(Ok(None)));
    assert_eq!(client.incomming_store().unwrap().len(), 1);
    assert_eq!(
        client.parse_packet(Packet::Pubrel(PacketIdentifier(7))),
        Action::Return(Ok(Some(message(QoS::ExactlyOnce, Some(7), "t", b"b"))))
    );
    assert_eq!(client.complete(PacketIdentifier(7)), Ok(()));
    assert_eq!(client.flushed(Ok(())), Action::Return(Ok(None)));
    assert_eq!(
        client.parse_packet(Packet::Pubrel(PacketIdentifier(7))),
        Action::Return(Err(Error::StorageMiss))
    );
}

#[test]
fn complete_is_first_in_first_out() {
    let (mut client, _) = connected();
    for pid in [3u16, 4] {
        assert_eq!(
            client.parse_packet(inbound(QoS::ExactlyOnce, Some(pid), "t", b"a")),
            Action::Flush
        );
        assert_eq!(client.flushed(Ok(())), Action::Return(Ok(None)));
    }
    for pid in [3u16, 4] {
        assert!(matches!(
            client.parse_packet(Packet::Pubrel(PacketIdentifier(pid))),
            Action::Return(Ok(Some(_)))
        ));
    }
    assert_eq!(client.incomming_rel().len(), 2);
    assert_eq!(client.complete(PacketIdentifier(3)), Ok(()));
    assert_eq!(client.flushed(Ok(())), Action::Return(Ok(None)));
    assert_eq!(client.incomming_rel().len(), 1);
    assert_eq!(client.incomming_rel()[0], PacketIdentifier(4));
    assert_eq!(client.complete(PacketIdentifier(3)), Err(Error::ProtocolViolation));
    assert_eq!(client.incomming_rel().len(), 0);
    assert_eq!(client.incomming_store().unwrap().len(), 1);
}

#[test]
fn inbound_publish_to_a_filter_is_refused() {
    let (mut client, _) = connected();
    assert_eq!(
        client.parse_packet(inbound(QoS::AtMostOnce, None, "a/+", b"x")),
        Action::Return(Err(Error::InvalidTopic))
    );
    assert_eq!(
        client.parse_packet(inbound(QoS::ExactlyOnce, Some(2), "a+b", b"x")),
        Action::Return(Err(Error::InvalidTopic))
    );
    assert_eq!(client.incomming_rec().len(), 0);
    assert_eq!(client.incomming_store().unwrap().len(), 0);
}

#[test]
fn suback_partial_failure() {
    let (mut client, _) = connected();
    client.subscribe(vec![
        filter("x", QoS::ExactlyOnce),
        filter("y", QoS::ExactlyOnce),
        filter("z", QoS::ExactlyOnce),
    ]);
    assert_eq!(client.await_suback().len(), 1);
    assert_eq!(client.await_suback()[0].pid, PacketIdentifier(1));
    let outbox = client.take_outbox();
    assert_eq!(outbox.len(), 1);
    match &outbox[0] {
        Output::Write(Packet::Subscribe(subscribe)) => {
            assert_eq!(subscribe, &client.await_suback()[0]);
            assert_eq!(subscribe.topics.len(), 3);
            assert_eq!(subscribe.topics[1], filter("y", QoS::ExactlyOnce));
        }
        other => panic!("unexpected {:?}", other),
    }
    assert_eq!(client.flushed(Ok(())), Action::Return(Ok(None)));
    let action = client.parse_packet(Packet::Suback(Suback {
        pid: PacketIdentifier(1),
        return_codes: vec![
            SubscribeReturnCodes::Success(QoS::AtLeastOnce),
            SubscribeReturnCodes::Failure,
            SubscribeReturnCodes::Success(QoS::AtMostOnce),
        ],
    }));
    assert_eq!(action, Action::Return(Ok(None)));
    assert_eq!(client.await_suback().len(), 0);
    let registry = client.subscriptions();
    assert_eq!(registry.len(), 2);
    let x = registry.get(&"x".to_string()).unwrap();
    assert_eq!(x.qos, QoS::AtLeastOnce);
    assert_eq!(x.pid, PacketIdentifier(1));
    assert_eq!(x.topic_path, "x");
    assert_eq!(registry.get(&"z".to_string()).unwrap().qos, QoS::AtMostOnce);
    assert_eq!(registry.get(&"y".to_string()), None);
    assert!(client.normalized());
}

#[test]
fn suback_must_match_the_subscribe() {
    let (mut client, _) = connected();
    let grant = |pid: u16, n: usize| {
        Packet::Suback(Suback {
            pid: PacketIdentifier(pid),
            return_codes: vec![SubscribeReturnCodes::Success(QoS::AtMostOnce); n],
        })
    };
    assert_eq!(client.parse_packet(grant(1, 1)), Action::Return(Err(Error::ProtocolViolation)));
    client.subscribe(vec![filter("x", QoS::AtMostOnce)]);
    assert_eq!(client.parse_packet(grant(2, 1)), Action::Return(Err(Error::ProtocolViolation)));
    assert_eq!(client.await_suback().len(), 0);
    client.subscribe(vec![filter("x", QoS::AtMostOnce)]);
    assert_eq!(client.parse_packet(grant(2, 2)), Action::Return(Err(Error::ProtocolViolation)));
    assert_eq!(client.await_suback().len(), 0);
    assert_eq!(client.subscriptions().len(), 0);
}

#[test]
fn suback_stops_at_an_ill_formed_filter() {
    let (mut client, _) = connected();
    client.subscribe(vec![
        filter("a/+/c", QoS::AtLeastOnce),
        filter("bad#", QoS::AtLeastOnce),
        filter("c/#", QoS::AtLeastOnce),
    ]);
    let action = client.parse_packet(Packet::Suback(Suback {
        pid: PacketIdentifier(1),
        return_codes: vec![SubscribeReturnCodes::Success(QoS::AtLeastOnce); 3],
    }));
    assert_eq!(action, Action::Return(Err(Error::InvalidTopic)));
    assert_eq!(client.subscriptions().len(), 1);
    assert!(client.subscriptions().get(&"a/+/c".to_string()).is_some());
    assert!(client.subscriptions().get(&"c/#".to_string()).is_none());
}

#[test]
fn suback_passes_over_a_refused_ill_formed_filter() {
    let (mut client, _) = connected();
    client.subscribe(vec![filter("bad#", QoS::AtLeastOnce), filter("c/#", QoS::AtLeastOnce)]);
    let action = client.parse_packet(Packet::Suback(Suback {
        pid: PacketIdentifier(1),
        return_codes: vec![
            SubscribeReturnCodes::Failure,
            SubscribeReturnCodes::Success(QoS::AtMostOnce),
        ],
    }));
    assert_eq!(action, Action::Return(Ok(None)));
    assert_eq!(client.subscriptions().len(), 1);
    assert_eq!(client.subscriptions().get(&"c/#".to_string()).unwrap().qos, QoS::AtMostOnce);
}

#[test]
fn a_later_grant_replaces_an_earlier_one() {
    let (mut client, _) = connected();
    client.subscribe(vec![filter("x", QoS::ExactlyOnce), filter("y", QoS::ExactlyOnce)]);
    client.subscribe(vec![filter("x", QoS::AtMostOnce)]);
    assert_eq!(client.await_suback().len(), 2);
    let first = Packet::Suback(Suback {
        pid: PacketIdentifier(1),
        return_codes: vec![SubscribeReturnCodes::Success(QoS::ExactlyOnce); 2],
    });
    let second = Packet::Suback(Suback {
        pid: PacketIdentifier(2),
        return_codes: vec![SubscribeReturnCodes::Success(QoS::AtMostOnce)],
    });
    assert_eq!(client.parse_packet(first), Action::Return(Ok(None)));
    assert_eq!(client.parse_packet(second), Action::Return(Ok(None)));
    assert_eq!(client.subscriptions().len(), 2);
    let x = client.subscriptions().get(&"x".to_string()).unwrap();
    assert_eq!(x.qos, QoS::AtMostOnce);
    assert_eq!(x.pid, PacketIdentifier(2));
    let topics = client.subscriptions().to_subscribe_topics();
    assert_eq!(topics, vec![filter("x", QoS::AtMostOnce), filter("y", QoS::ExactlyOnce)]);
}

fn subscribed(filters: &[&str]) -> (Client<MemoryStorage>, Wire) {
    let (mut client, wire) = connected();
    client.subscribe(filters.iter().map(|f| filter(f, QoS::AtLeastOnce)).collect());
    let pid = client.last_pid();
    let action = client.parse_packet(Packet::Suback(Suback {
        pid,
        return_codes: vec![SubscribeReturnCodes::Success(QoS::AtLeastOnce); filters.len()],
    }));
    assert_eq!(action, Action::Return(Ok(None)));
    client.take_outbox();
    (client, wire)
}

#[test]
fn unsuback_removes_the_filters() {
    let (mut client, _) = subscribed(&["x", "y", "z"]);
    client.unsubscribe(vec!["x".to_string(), "nope".to_string(), "z".to_string()]);
    assert_eq!(client.await_unsuback().len(), 1);
    assert_eq!(client.await_unsuback()[0].pid, PacketIdentifier(2));
    match client.take_outbox().pop() {
        Some(Output::Write(Packet::Unsubscribe(unsubscribe))) => {
            assert_eq!(unsubscribe.pid, PacketIdentifier(2));
            assert_eq!(unsubscribe.topics, vec!["x", "nope", "z"]);
        }
        other => panic!("unexpected {:?}", other),
    }
    assert_eq!(client.subscriptions().len(), 3);
    assert_eq!(
        client.parse_packet(decode(vec![0xb0, 0x02, 0x00, 0x02])),
        Action::Return(Ok(None))
    );
    assert_eq!(client.subscriptions().len(), 1);
    assert!(client.subscriptions().get(&"y".to_string()).is_some());
    assert_eq!(client.await_unsuback().len(), 0);
}

#[test]
fn unsuback_must_match_the_unsubscribe() {
    let (mut client, _) = subscribed(&["x"]);
    assert_eq!(
        client.parse_packet(Packet::Unsuback(PacketIdentifier(2))),
        Action::Return(Err(Error::ProtocolViolation))
    );
    client.unsubscribe(vec!["x".to_string()]);
    assert_eq!(
        client.parse_packet(Packet::Unsuback(PacketIdentifier(9))),
        Action::Return(Err(Error::ProtocolViolation))
    );
    assert_eq!(client.await_unsuback().len(), 0);
    assert_eq!(client.subscriptions().len(), 1);
}

#[test]
fn keep_alive_ping() {
    let mut options = ClientOptions::new();
    options.set_keep_alive(1).set_client_id("tester".to_string());
    let mut client = options.connect_with();
    let mut wire = Wire::new();
    client.handshake();
    client.take_outbox();
    assert_eq!(client.flushed(Ok(())), Action::Return(Ok(None)));
    assert_eq!(client.received(Ok(accepted_connack(false))), Action::Return(Ok(None)));

    assert_eq!(client.accept(0), Action::Read(Some(SECOND)));
    assert_eq!(client.accept(SECOND - 1), Action::Read(Some(1)));
    assert_eq!(client.accept(SECOND), Action::Return(Err(Error::Timeout)));

    let timeout = accept(&mut client, &mut wire, SECOND);
    assert_eq!(timeout, Err(Error::Timeout));
    assert_eq!(client.wait(timeout), Action::Flush);
    assert!(client.await_ping());
    assert_eq!(client.take_outbox(), vec![Output::Write(Packet::Pingreq)]);
    assert_eq!(client.flushed(Ok(())), Action::Again);

    wire.feed.push(Ok(decode(vec![0xd0, 0x00])));
    assert_eq!(wait(&mut client, &mut wire, 0), Ok(None));
    assert!(!client.await_ping());
    assert!(client.normalized());

    let timeout = accept(&mut client, &mut wire, SECOND);
    assert_eq!(client.wait(timeout), Action::Flush);
    assert_eq!(client.flushed(Err(IoFailure::Other)), Action::Again);
    assert!(client.await_ping());
    client.take_outbox();
    let timeout = accept(&mut client, &mut wire, 2 * SECOND);
    assert_eq!(timeout, Err(Error::Timeout));
    assert_eq!(client.wait(timeout), Action::Again);
    assert_eq!(client.state(), ClientState::Disconnected);
    assert!(!client.await_ping());
    assert_eq!(client.take_outbox(), vec![Output::Shutdown]);
    assert_eq!(client.accept(0), Action::Return(Err(Error::Disconnected)));
    assert_eq!(wait(&mut client, &mut wire, 0), Err(Error::Disconnected));
}

#[test]
fn timeout_during_handshake_ends_the_wait() {
    let mut client = ClientOptions::new().connect_with();
    client.handshake();
    assert_eq!(client.wait(Err(Error::Timeout)), Action::Return(Err(Error::Timeout)));
    assert_eq!(client.state(), ClientState::Handshake);
    assert!(!client.await_ping());
}

#[test]
fn wait_passes_errors_and_publications_through() {
    let (mut client, _) = connected();
    client.publish("a", vec![1], PubOpt::at_least_once()).unwrap();
    assert_eq!(
        client.wait(Err(Error::ProtocolViolation)),
        Action::Return(Err(Error::ProtocolViolation))
    );
    let m = message(QoS::AtMostOnce, None, "t", b"x");
    assert_eq!(client.wait(Ok(Some(m.clone()))), Action::Return(Ok(Some(m))));
    assert_eq!(client.wait(Ok(None)), Action::Again);
    assert_eq!(client.parse_packet(Packet::Puback(PacketIdentifier(1))), Action::Return(Ok(None)));
    assert_eq!(client.wait(Ok(None)), Action::Return(Ok(None)));
}

#[test]
fn accept_at_the_bounds_of_keep_alive() {
    let mut options = ClientOptions::with_stores(Some(MemoryStorage::new()), Some(MemoryStorage::new()));
    options.set_keep_alive(0);
    let mut client = options.connect_with();
    client.handshake();
    assert_eq!(client.accept(0), Action::Return(Err(Error::Timeout)));
    options = ClientOptions::new();
    options.set_keep_alive(u16::MAX);
    let mut client = options.connect_with();
    client.handshake();
    assert_eq!(client.accept(5), Action::Read(Some(65535 * SECOND - 5)));
    assert_eq!(client.accept(u128::MAX), Action::Return(Err(Error::Timeout)));
}

#[test]
fn read_failures() {
    let (mut client, _) = connected();
    assert_eq!(client.received(Err(IoFailure::WouldBlock)), Action::Return(Err(Error::Timeout)));
    assert_eq!(client.received(Err(IoFailure::TimedOut)), Action::Return(Err(Error::Timeout)));
    assert_eq!(client.state(), ClientState::Connected);
    assert_eq!(client.take_outbox().len(), 0);

    for failure in [
        IoFailure::UnexpectedEof,
        IoFailure::ConnectionRefused,
        IoFailure::ConnectionReset,
        IoFailure::ConnectionAborted,
    ] {
        let (mut client, _) = connected();
        assert_eq!(client.received(Err(failure)), Action::Return(Err(Error::Disconnected)));
        assert_eq!(client.state(), ClientState::Disconnected);
        assert_eq!(client.take_outbox(), vec![Output::Shutdown]);

        let (mut client, _) = connected();
        client.set_reconnect(ReconnectMethod::ReconnectAfter(5 * SECOND));
        assert_eq!(client.received(Err(failure)), Action::Reconnect(5 * SECOND));
        assert_eq!(client.state(), ClientState::Disconnected);
        assert_eq!(client.accept(0), Action::Reconnect(5 * SECOND));
    }

    let (mut client, _) = connected();
    client.set_reconnect(ReconnectMethod::ReconnectAfter(SECOND));
    assert_eq!(
        client.received(Err(IoFailure::Other)),
        Action::Return(Err(Error::Io(IoFailure::Other)))
    );
    assert_eq!(client.state(), ClientState::Disconnected);
    assert_eq!(client.take_outbox(), vec![Output::Shutdown]);
}

#[test]
fn unbind_keeps_publications_in_flight() {
    let (mut client, _) = connected();
    client.publish("a", vec![1], PubOpt::at_least_once()).unwrap();
    client.publish("b", vec![2], PubOpt::exactly_once()).unwrap();
    client.subscribe(vec![filter("x", QoS::AtMostOnce)]);
    client.unsubscribe(vec!["y".to_string()]);
    client.ping();
    assert!(client.await_ping());
    client.take_outbox();
    client.terminate();
    assert_eq!(client.state(), ClientState::Disconnected);
    assert!(!client.await_ping());
    assert_eq!(client.await_suback().len(), 0);
    assert_eq!(client.await_unsuback().len(), 0);
    assert_eq!(client.outgoing_ack().len(), 1);
    assert_eq!(client.outgoing_rec().len(), 1);
    assert_eq!(client.outgoing_store().unwrap().len(), 1);
    assert_eq!(client.last_pid(), PacketIdentifier(4));
    assert_eq!(client.take_outbox(), vec![Output::Shutdown]);
}

#[test]
fn ping_and_pingresp() {
    let (mut client, _) = connected();
    client.ping();
    assert!(client.await_ping());
    assert!(!client.normalized());
    assert_eq!(client.take_outbox(), vec![Output::Write(Packet::Pingreq)]);
    assert_eq!(client.flushed(Ok(())), Action::Return(Ok(None)));
    assert_eq!(client.parse_packet(Packet::Pingresp), Action::Return(Ok(None)));
    assert!(!client.await_ping());
}

#[test]
fn flush_failure_is_reported() {
    let (mut client, _) = connected();
    client.publish("a", vec![1], PubOpt::at_most_once()).unwrap();
    assert_eq!(
        client.flushed(Err(IoFailure::ConnectionAborted)),
        Action::Return(Err(Error::Io(IoFailure::ConnectionAborted)))
    );
    assert_eq!(client.state(), ClientState::Connected);
}

#[test]
fn resubscribe_after_a_new_session() {
    let (mut client, _) = subscribed(&["x", "y/+", "z/#"]);
    client.terminate();
    client.take_outbox();
    assert!(client.reconnect());
    client.handshake();
    client.take_outbox();
    assert_eq!(client.flushed(Ok(())), Action::Return(Ok(None)));
    assert_eq!(client.received(Ok(accepted_connack(false))), Action::Return(Ok(None)));
    client.resubscribe();
    let outbox = client.take_outbox();
    assert_eq!(outbox.len(), 1);
    match &outbox[0] {
        Output::Write(Packet::Subscribe(subscribe)) => {
            assert_eq!(subscribe.pid, PacketIdentifier(2));
            assert_eq!(
                subscribe.topics,
                vec![
                    filter("x", QoS::AtLeastOnce),
                    filter("y/+", QoS::AtLeastOnce),
                    filter("z/#", QoS::AtLeastOnce),
                ]
            );
        }
        other => panic!("unexpected {:?}", other),
    }
    assert_eq!(client.await_suback().len(), 1);
}

#[test]
fn resumed_session_is_not_resubscribed() {
    let (mut client, _) = subscribed(&["x"]);
    client.terminate();
    client.handshake();
    client.take_outbox();
    assert_eq!(client.received(Ok(accepted_connack(true))), Action::Return(Ok(None)));
    assert!(client.session_present());
    client.resubscribe();
    assert_eq!(client.take_outbox().len(), 0);
    assert_eq!(client.await_suback().len(), 0);
    assert_eq!(client.last_pid(), PacketIdentifier(1));
}

#[test]
fn mixed_round_trip_normalizes() {
    let (mut client, mut wire) = connected();
    let plan = [
        QoS::AtLeastOnce,
        QoS::ExactlyOnce,
        QoS::AtMostOnce,
        QoS::ExactlyOnce,
        QoS::AtLeastOnce,
        QoS::AtLeastOnce,
    ];
    let mut pid = 0u16;
    for (i, qos) in plan.iter().enumerate() {
        client.publish("t", vec![i as u8], PubOpt::new(*qos, false)).unwrap();
        wire.done.extend(client.take_outbox());
        assert_eq!(client.flushed(Ok(())), Action::Return(Ok(None)));
        match qos {
            QoS::AtMostOnce => {}
            QoS::AtLeastOnce => {
                pid += 1;
                wire.feed.push(Ok(Packet::Puback(PacketIdentifier(pid))));
            }
            QoS::ExactlyOnce => {
                pid += 1;
                wire.feed.push(Ok(Packet::Pubrec(PacketIdentifier(pid))));
                wire.feed.push(Ok(Packet::Pubcomp(PacketIdentifier(pid))));
            }
        }
    }
    assert_eq!(client.outgoing_ack().len(), 3);
    assert_eq!(client.outgoing_rec().len(), 2);
    assert_eq!(client.outgoing_store().unwrap().len(), 2);
    assert!(!client.normalized());
    assert_eq!(wait(&mut client, &mut wire, 0), Ok(None));
    assert!(wire.feed.is_empty());
    assert!(client.normalized());
    assert_eq!(client.outgoing_ack().len(), 0);
    assert_eq!(client.outgoing_rec().len(), 0);
    assert_eq!(client.outgoing_comp().len(), 0);
    assert_eq!(client.outgoing_store().unwrap().len(), 0);
    assert_eq!(wire.written().len(), 8);
}

#[test]
fn next_pid_skips_zero() {
    let mut client = ClientOptions::new().connect_with();
    assert_eq!(client.next_pid(), PacketIdentifier(1));
    assert_eq!(client.next_pid(), PacketIdentifier(2));
    for _ in 2..65535 {
        assert_ne!(client.next_pid(), PacketIdentifier(0));
    }
    assert_eq!(client.last_pid(), PacketIdentifier(65535));
    assert_eq!(client.next_pid(), PacketIdentifier(1));
}

#[test]
fn disconnect_hands_back_what_is_unwritten() {
    let (mut client, _) = connected();
    client.publish("a", vec![1], PubOpt::at_most_once()).unwrap();
    let rest = client.disconnect();
    assert_eq!(rest, vec![Output::Write(inbound(QoS::AtMostOnce, None, "a", &[1]))]);
}

#[test]
fn stores_given_to_the_options_are_used() {
    let mut incoming = MemoryStorage::new();
    incoming.put(message(QoS::ExactlyOnce, Some(40), "old", b"kept")).unwrap();
    let mut options = ClientOptions::new();
    options.set_incomming_store(incoming).set_outgoing_store(MemoryStorage::new());
    let mut client = options.connect_with();
    assert_eq!(client.incomming_store().unwrap().len(), 1);
    assert_eq!(client.outgoing_store().unwrap().len(), 0);
    client.handshake();
    assert_eq!(client.received(Ok(accepted_connack(true))), Action::Return(Ok(None)));
    assert_eq!(client.parse_packet(inbound(QoS::ExactlyOnce, Some(41), "t", b"new")), Action::Flush);
    assert_eq!(client.incomming_store().unwrap().len(), 2);
}
