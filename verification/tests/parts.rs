use mqttc::error::Error;
use mqttc::message::{Message, PubOpt, QoS};
use mqttc::options::{default_port, is_ssl, route, ClientOptions, Route};
use mqttc::packet::{LastWill, Packet, Protocol, Publish, SubscribeTopic};
use mqttc::pid::PacketIdentifier;
use mqttc::store::{MemoryStorage, Store};
use mqttc::sub::{Subscription, Subscriptions};
use mqttc::client::Output;
use mqttc::model::ClientState;

fn message(pid: u16, payload: &[u8]) -> Message {
    Message {
        topic: "t".to_string(),
        qos: QoS::ExactlyOnce,
        retain: false,
        pid: Some(PacketIdentifier(pid)),
        payload: payload.to_vec(),
    }
}

#[test]
fn packet_identifier_next() {
    assert_eq!(PacketIdentifier::zero(), PacketIdentifier(0));
    assert_eq!(PacketIdentifier::zero().next(), PacketIdentifier(1));
    assert_eq!(PacketIdentifier(1).next(), PacketIdentifier(2));
    assert_eq!(PacketIdentifier(65534).next(), PacketIdentifier(65535));
    assert_eq!(PacketIdentifier(65535).next(), PacketIdentifier(1));
}

#[test]
fn packet_identifier_never_returns_to_zero() {
    let mut pid = PacketIdentifier::zero();
    for _ in 0..200_000 {
        pid = pid.next();
        assert_ne!(pid.0, 0);
    }
    assert_eq!(pid, PacketIdentifier((200_000 % 65535) as u16));
}

#[test]
fn qos_levels() {
    assert_eq!(QoS::AtMostOnce.to_u8(), 0);
    assert_eq!(QoS::AtLeastOnce.to_u8(), 1);
    assert_eq!(QoS::ExactlyOnce.to_u8(), 2);
}

#[test]
fn pub_opt_holds_guarantee_and_retain() {
    assert_eq!(PubOpt::at_most_once().qos(), QoS::AtMostOnce);
    assert_eq!(PubOpt::at_least_once().qos(), QoS::AtLeastOnce);
    assert_eq!(PubOpt::exactly_once().qos(), QoS::ExactlyOnce);
    assert!(!PubOpt::at_most_once().is_retain());
    assert!(!PubOpt::at_least_once().is_retain());
    assert!(!PubOpt::exactly_once().is_retain());
    let opt = PubOpt::new(QoS::AtLeastOnce, true);
    assert_eq!(opt.qos(), QoS::AtLeastOnce);
    assert!(opt.is_retain());
    assert_eq!(PubOpt::new(QoS::ExactlyOnce, false), PubOpt::exactly_once());
}

#[test]
fn message_to_pub_test() {
    let msg = Message {
        topic: "/a/b".to_string(),
        qos: QoS::AtLeastOnce,
        retain: false,
        pid: Some(PacketIdentifier(1)),
        payload: vec![0x80, 0x40],
    };
    assert_eq!(
        msg.to_pub(),
        Publish {
            dup: false,
            qos: QoS::AtLeastOnce,
            retain: false,
            topic_name: "/a/b".to_owned(),
            pid: Some(PacketIdentifier(1)),
            payload: vec![0x80, 0x40],
        }
    );
}

#[test]
fn message_from_pub_test() {
    let publish = Publish {
        dup: true,
        qos: QoS::ExactlyOnce,
        retain: true,
        topic_name: "/a/b/c".to_owned(),
        pid: Some(PacketIdentifier(2)),
        payload: vec![0x10, 0x20, 0x30],
    };
    let msg = Message::from_pub(publish).unwrap();
    assert_eq!(msg.topic, "/a/b/c");
    assert_eq!(msg.qos, QoS::ExactlyOnce);
    assert_eq!(msg.pid, Some(PacketIdentifier(2)));
    assert_eq!(msg.payload, vec![0x10, 0x20, 0x30]);
    assert!(msg.retain);
}

#[test]
fn message_from_pub_refuses_wildcards() {
    for topic in ["/a/+/c", "#", "a/#", "+wrong", "wro#ng", "w/r/o/n/g+"] {
        let publish = Publish {
            dup: false,
            qos: QoS::AtMostOnce,
            retain: false,
            topic_name: topic.to_owned(),
            pid: None,
            payload: vec![],
        };
        assert_eq!(Message::from_pub(publish), Err(Error::InvalidTopic));
    }
    for topic in ["", "/", "a", "/a/b/c", "$SYS/x", "a//b", "a b"] {
        let publish = Publish {
            dup: false,
            qos: QoS::AtMostOnce,
            retain: false,
            topic_name: topic.to_owned(),
            pid: None,
            payload: vec![],
        };
        assert!(Message::from_pub(publish).is_ok());
    }
}

#[test]
fn message_clone_is_equal() {
    let m = message(3, b"abc");
    assert_eq!(m.clone(), m);
}

#[test]
fn memory_storage_put_get_delete() {
    let mut store = MemoryStorage::new();
    assert_eq!(store.len(), 0);
    assert_eq!(store.get(PacketIdentifier(1)), Err(Error::StorageMiss));
    assert_eq!(store.put(message(1, b"a")), Ok(()));
    assert_eq!(store.put(message(2, b"b")), Ok(()));
    assert_eq!(store.len(), 2);
    assert_eq!(store.get(PacketIdentifier(1)), Ok(message(1, b"a")));
    assert_eq!(store.get(PacketIdentifier(2)), Ok(message(2, b"b")));
    assert_eq!(store.len(), 2);
    assert_eq!(store.delete(PacketIdentifier(1)), Ok(()));
    assert_eq!(store.len(), 1);
    assert_eq!(store.get(PacketIdentifier(1)), Err(Error::StorageMiss));
    assert_eq!(store.get(PacketIdentifier(2)), Ok(message(2, b"b")));
}

#[test]
fn memory_storage_put_overwrites() {
    let mut store = MemoryStorage::new();
    store.put(message(9, b"old")).unwrap();
    store.put(message(9, b"new")).unwrap();
    assert_eq!(store.len(), 1);
    assert_eq!(store.get(PacketIdentifier(9)), Ok(message(9, b"new")));
}

#[test]
fn memory_storage_delete_is_idempotent() {
    let mut store = MemoryStorage::new();
    store.put(message(9, b"x")).unwrap();
    assert_eq!(store.delete(PacketIdentifier(9)), Ok(()));
    assert_eq!(store.delete(PacketIdentifier(9)), Ok(()));
    assert_eq!(store.delete(PacketIdentifier(10)), Ok(()));
    assert_eq!(store.len(), 0);
}

fn grant(path: &str, pid: u16, qos: QoS) -> Subscription {
    Subscription { pid: PacketIdentifier(pid), topic_path: path.to_string(), qos }
}

#[test]
fn registry_insert_get_remove() {
    let mut registry = Subscriptions::new();
    assert_eq!(registry.len(), 0);
    assert_eq!(registry.get(&"a".to_string()), None);
    registry.insert(grant("a", 1, QoS::AtMostOnce));
    registry.insert(grant("b", 1, QoS::AtLeastOnce));
    registry.insert(grant("c", 2, QoS::ExactlyOnce));
    assert_eq!(registry.len(), 3);
    assert_eq!(registry.get(&"b".to_string()), Some(grant("b", 1, QoS::AtLeastOnce)));
    registry.insert(grant("a", 5, QoS::ExactlyOnce));
    assert_eq!(registry.len(), 3);
    assert_eq!(registry.get(&"a".to_string()), Some(grant("a", 5, QoS::ExactlyOnce)));
    registry.remove(&"b".to_string());
    assert_eq!(registry.len(), 2);
    assert_eq!(registry.get(&"b".to_string()), None);
    registry.remove(&"b".to_string());
    registry.remove(&"zzz".to_string());
    assert_eq!(registry.len(), 2);
    assert_eq!(
        registry.to_subscribe_topics(),
        vec![
            SubscribeTopic { topic_path: "a".to_string(), qos: QoS::ExactlyOnce },
            SubscribeTopic { topic_path: "c".to_string(), qos: QoS::ExactlyOnce },
        ]
    );
}

#[test]
fn subscription_to_subscribe_topic() {
    assert_eq!(
        grant("a/#", 4, QoS::AtLeastOnce).to_subscribe_topic(),
        SubscribeTopic { topic_path: "a/#".to_string(), qos: QoS::AtLeastOnce }
    );
    let g = grant("a/#", 4, QoS::AtLeastOnce);
    assert_eq!(g.clone(), g);
}

#[test]
fn schemes() {
    assert_eq!(is_ssl("tcp"), Ok(false));
    assert_eq!(is_ssl("mqtt"), Ok(false));
    assert_eq!(is_ssl("tls"), Ok(true));
    assert_eq!(is_ssl("ssl"), Ok(true));
    assert_eq!(is_ssl("mqtts"), Ok(true));
    assert_eq!(is_ssl("http"), Err(()));
    assert_eq!(is_ssl(""), Err(()));
    assert_eq!(is_ssl("TCP"), Err(()));
    assert_eq!(default_port("tcp"), Ok(1883));
    assert_eq!(default_port("mqtt"), Ok(1883));
    assert_eq!(default_port("tls"), Ok(8883));
    assert_eq!(default_port("ssl"), Ok(8883));
    assert_eq!(default_port("mqtts"), Ok(8883));
    assert_eq!(default_port("ws"), Err(()));
}

#[test]
fn routes() {
    assert_eq!(route("tcp", None), Ok(Route { tls: false, port: 1883 }));
    assert_eq!(route("mqtts", None), Ok(Route { tls: true, port: 8883 }));
    assert_eq!(route("mqtt", Some(8883)), Ok(Route { tls: false, port: 8883 }));
    assert_eq!(route("ssl", Some(1)), Ok(Route { tls: true, port: 1 }));
    assert_eq!(route("http", Some(80)), Err(Error::InvalidUrlScheme("http".to_string())));
}

#[test]
fn connect_by_scheme() {
    let (client, way) = match ClientOptions::new().connect("tls", None) {
        Ok(session) => session,
        Err(e) => panic!("unexpected {:?}", e),
    };
    assert_eq!(way, Route { tls: true, port: 8883 });
    assert_eq!(client.state(), ClientState::Disconnected);
    match ClientOptions::new().connect("gopher", None) {
        Err(e) => assert_eq!(e, Error::InvalidUrlScheme("gopher".to_string())),
        Ok(_) => panic!("an unknown scheme was taken"),
    }
}

#[test]
fn default_options() {
    let connect = {
        let mut options = ClientOptions::new();
        options.set_client_id("id".to_string());
        options.generate_connect_packet()
    };
    assert_eq!(connect.protocol, Protocol::MQTT(4));
    assert_eq!(connect.keep_alive, 30);
    assert!(connect.clean_session);
    assert_eq!(connect.client_id, "id");
    assert_eq!(connect.last_will, None);
    assert_eq!(connect.username, None);
    assert_eq!(connect.password, None);
}

#[test]
fn setters_show_in_the_connect_packet() {
    let mut options = ClientOptions::new();
    options
        .set_keep_alive(15)
        .set_protocol(Protocol::MQIsdp(3))
        .set_client_id("me".to_string())
        .set_clean_session(false)
        .set_username("user".to_string())
        .set_password("secret".to_string())
        .set_last_will_opt(Some(LastWill {
            topic: "gone".to_string(),
            message: "bye".to_string(),
            qos: QoS::AtLeastOnce,
            retain: true,
        }));
    let connect = options.generate_connect_packet();
    assert_eq!(connect.protocol, Protocol::MQIsdp(3));
    assert_eq!(connect.keep_alive, 15);
    assert_eq!(connect.client_id, "me");
    assert!(!connect.clean_session);
    assert_eq!(connect.username, Some("user".to_string()));
    assert_eq!(connect.password, Some("secret".to_string()));
    assert_eq!(
        connect.last_will,
        Some(LastWill {
            topic: "gone".to_string(),
            message: "bye".to_string(),
            qos: QoS::AtLeastOnce,
            retain: true,
        })
    );
    options.set_last_will_opt(None);
    assert_eq!(options.generate_connect_packet().last_will, None);
}

#[test]
fn last_will_needs_a_topic_name() {
    let mut options = ClientOptions::new();
    options.set_client_id("me".to_string());
    assert_eq!(
        options.set_last_will("a/+", "bye".to_string(), PubOpt::at_least_once()),
        Err(Error::InvalidTopic)
    );
    assert_eq!(options.generate_connect_packet().last_will, None);
    assert_eq!(
        options.set_last_will("a/b", "bye".to_string(), PubOpt::new(QoS::ExactlyOnce, true)),
        Ok(())
    );
    assert_eq!(
        options.generate_connect_packet().last_will,
        Some(LastWill {
            topic: "a/b".to_string(),
            message: "bye".to_string(),
            qos: QoS::ExactlyOnce,
            retain: true,
        })
    );
    assert_eq!(
        options.set_last_will("#", "x".to_string(), PubOpt::at_most_once()),
        Err(Error::InvalidTopic)
    );
    assert_eq!(options.generate_connect_packet().last_will.unwrap().message, "bye");
}

#[test]
fn client_id_from_a_number() {
    assert_eq!(ClientOptions::<MemoryStorage>::client_id_from(0), "mqttc_0");
    assert_eq!(ClientOptions::<MemoryStorage>::client_id_from(7), "mqttc_7");
    assert_eq!(ClientOptions::<MemoryStorage>::client_id_from(42), "mqttc_42");
    assert_eq!(ClientOptions::<MemoryStorage>::client_id_from(1000), "mqttc_1000");
    assert_eq!(ClientOptions::<MemoryStorage>::client_id_from(u32::MAX), "mqttc_4294967295");
}

#[test]
fn generated_client_id() {
    let mut options = ClientOptions::new();
    options.generate_client_id();
    let id = options.generate_connect_packet().client_id;
    assert!(id.starts_with("mqttc_"));
    let number: u32 = id["mqttc_".len()..].parse().unwrap();
    assert_eq!(id, format!("mqttc_{}", number));
}

#[test]
fn connect_with_keeps_a_given_client_id() {
    let mut options = ClientOptions::new();
    options.set_client_id("given".to_string());
    let mut client = options.connect_with();
    client.handshake();
    match client.take_outbox().pop() {
        Some(Output::Write(Packet::Connect(connect))) => assert_eq!(connect.client_id, "given"),
        other => panic!("unexpected {:?}", other),
    }
}

#[test]
fn connect_with_generates_a_missing_client_id() {
    let mut client = ClientOptions::new().connect_with();
    client.handshake();
    match client.take_outbox().pop() {
        Some(Output::Write(Packet::Connect(connect))) => {
            assert!(connect.client_id.starts_with("mqttc_"));
            assert!(connect.client_id.len() > "mqttc_".len());
        }
        other => panic!("unexpected {:?}", other),
    }
}
