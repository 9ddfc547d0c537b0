//! The control packets of MQTT 3.1.1, as values.

use crate::error::Error;
use crate::message::{views, Message, MessageView, QoS};
use crate::pid::PacketIdentifier;
use crate::topic::{is_topic_name, valid_topic_name};
use vstd::prelude::*;

verus! {

/// The protocol a session speaks, with its level.
#[derive(Clone, Copy, Debug, PartialEq, Eq, Structural)]
pub enum Protocol {
    MQIsdp(u8),
    MQTT(u8),
}

/// The broker's answer to CONNECT.
#[derive(Clone, Copy, Debug, PartialEq, Eq, Structural)]
pub enum ConnectReturnCode {
    Accepted,
    RefusedProtocolVersion,
    RefusedIdentifierRejected,
    ServerUnavailable,
    BadUsernamePassword,
    NotAuthorized,
}

/// The publication a broker makes for a client that vanished.
#[derive(Debug, PartialEq, Eq)]
pub struct LastWill {
    pub topic: String,
    pub message: String,
    pub qos: QoS,
    pub retain: bool,
}

/// A last will as a mathematical value.
pub struct LastWillView {
    pub topic: Seq<char>,
    pub message: Seq<char>,
    pub qos: QoS,
    pub retain: bool,
}

impl View for LastWill {
    type V = LastWillView;

    open spec fn view(&self) -> LastWillView {
        LastWillView {
            topic: self.topic@,
            message: self.message@,
            qos: self.qos,
            retain: self.retain,
        }
    }
}

impl Clone for LastWill {
    fn clone(&self) -> (copy: LastWill)
        ensures
            copy@ == self@,
    {
        LastWill {
            topic: self.topic.clone(),
            message: self.message.clone(),
            qos: self.qos,
            retain: self.retain,
        }
    }
}

/// The view of an optional text.
pub open spec fn text_view(text: Option<String>) -> Option<Seq<char>> {
    match text {
        Some(t) => Some(t@),
        None => None,
    }
}

/// The view of an optional last will.
pub open spec fn will_view(will: Option<LastWill>) -> Option<LastWillView> {
    match will {
        Some(w) => Some(w@),
        None => None,
    }
}

/// CONNECT: what a client opens a session with.
#[derive(Debug, PartialEq, Eq)]
pub struct Connect {
    pub protocol: Protocol,
    /// In seconds; zero switches the keep-alive off.
    pub keep_alive: u16,
    pub client_id: String,
    pub clean_session: bool,
    pub last_will: Option<LastWill>,
    pub username: Option<String>,
    pub password: Option<String>,
}

/// A CONNECT as a mathematical value.
pub struct ConnectView {
    pub protocol: Protocol,
    pub keep_alive: u16,
    pub client_id: Seq<char>,
    pub clean_session: bool,
    pub last_will: Option<LastWillView>,
    pub username: Option<Seq<char>>,
    pub password: Option<Seq<char>>,
}

impl View for Connect {
    type V = ConnectView;

    open spec fn view(&self) -> ConnectView {
        ConnectView {
            protocol: self.protocol,
            keep_alive: self.keep_alive,
            client_id: self.client_id@,
            clean_session: self.clean_session,
            last_will: will_view(self.last_will),
            username: text_view(self.username),
            password: text_view(self.password),
        }
    }
}

/// CONNACK: the broker's answer to CONNECT.
#[derive(Clone, Copy, Debug, PartialEq, Eq, Structural)]
pub struct Connack {
    pub session_present: bool,
    pub code: ConnectReturnCode,
}

/// PUBLISH: one transmission of a publication.
#[derive(Debug, PartialEq, Eq)]
pub struct Publish {
    pub dup: bool,
    pub qos: QoS,
    pub retain: bool,
    pub topic_name: String,
    /// Present exactly when `qos` is above `AtMostOnce`.
    pub pid: Option<PacketIdentifier>,
    pub payload: Vec<u8>,
}

/// A PUBLISH as a mathematical value.
pub struct PublishView {
    pub dup: bool,
    pub qos: QoS,
    pub retain: bool,
    pub topic_name: Seq<char>,
    pub pid: Option<PacketIdentifier>,
    pub payload: Seq<u8>,
}

impl PublishView {
    /// A PUBLISH carries an identifier exactly when it is acknowledged.
    pub open spec fn well_formed(self) -> bool {
        self.pid is Some <==> self.qos != QoS::AtMostOnce
    }

    /// The publication that this packet delivers.
    pub open spec fn message(self) -> MessageView {
        MessageView {
            topic: self.topic_name,
            qos: self.qos,
            retain: self.retain,
            pid: self.pid,
            payload: self.payload,
        }
    }
}

impl MessageView {
    /// The first transmission of this publication.
    pub open spec fn publish(self) -> PublishView {
        PublishView {
            dup: false,
            qos: self.qos,
            retain: self.retain,
            topic_name: self.topic,
            pid: self.pid,
            payload: self.payload,
        }
    }
}

impl Message {
    /// The publication that `publish` delivers; `Error::InvalidTopic` if
    /// its topic is no topic name.
    pub fn from_pub(publish: Publish) -> (message: Result<Message, Error>)
        ensures
            match message {
                Ok(m) => is_topic_name(publish@.topic_name) && m@ == publish@.message(),
                Err(e) => !is_topic_name(publish@.topic_name) && e == Error::InvalidTopic,
            },
    {
        if !valid_topic_name(publish.topic_name.as_str()) {
            return Err(Error::InvalidTopic);
        }
        Ok(
            Message {
                topic: publish.topic_name,
                qos: publish.qos,
                retain: publish.retain,
                pid: publish.pid,
                payload: publish.payload,
            },
        )
    }

    /// The first transmission of this publication.
    pub fn to_pub(self) -> (publish: Publish)
        ensures
            publish@ == self@.publish(),
    {
        Publish {
            dup: false,
            qos: self.qos,
            retain: self.retain,
            topic_name: self.topic,
            pid: self.pid,
            payload: self.payload,
        }
    }
}

impl View for Publish {
    type V = PublishView;

    open spec fn view(&self) -> PublishView {
        PublishView {
            dup: self.dup,
            qos: self.qos,
            retain: self.retain,
            topic_name: self.topic_name@,
            pid: self.pid,
            payload: self.payload@,
        }
    }
}

/// One filter of a SUBSCRIBE, with the guarantee asked for.
#[derive(Debug, PartialEq, Eq)]
pub struct SubscribeTopic {
    pub topic_path: String,
    pub qos: QoS,
}

/// One filter of a SUBSCRIBE as a mathematical value.
pub struct SubscribeTopicView {
    pub topic_path: Seq<char>,
    pub qos: QoS,
}

impl View for SubscribeTopic {
    type V = SubscribeTopicView;

    open spec fn view(&self) -> SubscribeTopicView {
        SubscribeTopicView { topic_path: self.topic_path@, qos: self.qos }
    }
}

impl Clone for SubscribeTopic {
    fn clone(&self) -> (copy: SubscribeTopic)
        ensures
            copy@ == self@,
    {
        SubscribeTopic { topic_path: self.topic_path.clone(), qos: self.qos }
    }
}

/// SUBSCRIBE: the filters a client asks for.
#[derive(Debug, PartialEq, Eq)]
pub struct Subscribe {
    pub pid: PacketIdentifier,
    pub topics: Vec<SubscribeTopic>,
}

/// A SUBSCRIBE as a mathematical value.
pub struct SubscribeView {
    pub pid: PacketIdentifier,
    pub topics: Seq<SubscribeTopicView>,
}

impl View for Subscribe {
    type V = SubscribeView;

    open spec fn view(&self) -> SubscribeView {
        SubscribeView { pid: self.pid, topics: views(self.topics@) }
    }
}

/// The broker's answer to one filter of a SUBSCRIBE.
#[derive(Clone, Copy, Debug, PartialEq, Eq, Structural)]
pub enum SubscribeReturnCodes {
    Success(QoS),
    Failure,
}

/// SUBACK: one return code for each filter of the SUBSCRIBE it answers.
#[derive(Debug, PartialEq, Eq)]
pub struct Suback {
    pub pid: PacketIdentifier,
    pub return_codes: Vec<SubscribeReturnCodes>,
}

/// A SUBACK as a mathematical value.
pub struct SubackView {
    pub pid: PacketIdentifier,
    pub return_codes: Seq<SubscribeReturnCodes>,
}

impl View for Suback {
    type V = SubackView;

    open spec fn view(&self) -> SubackView {
        SubackView { pid: self.pid, return_codes: self.return_codes@ }
    }
}

/// UNSUBSCRIBE: the filters a client gives up.
#[derive(Debug, PartialEq, Eq)]
pub struct Unsubscribe {
    pub pid: PacketIdentifier,
    pub topics: Vec<String>,
}

/// An UNSUBSCRIBE as a mathematical value.
pub struct UnsubscribeView {
    pub pid: PacketIdentifier,
    pub topics: Seq<Seq<char>>,
}

impl View for Unsubscribe {
    type V = UnsubscribeView;

    open spec fn view(&self) -> UnsubscribeView {
        UnsubscribeView { pid: self.pid, topics: views(self.topics@) }
    }
}

/// A control packet.
#[derive(Debug, PartialEq, Eq)]
pub enum Packet {
    Connect(Connect),
    Connack(Connack),
    Publish(Publish),
    Puback(PacketIdentifier),
    Pubrec(PacketIdentifier),
    Pubrel(PacketIdentifier),
    Pubcomp(PacketIdentifier),
    Subscribe(Subscribe),
    Suback(Suback),
    Unsubscribe(Unsubscribe),
    Unsuback(PacketIdentifier),
    Pingreq,
    Pingresp,
    Disconnect,
}

/// A control packet as a mathematical value.
pub enum PacketView {
    Connect(ConnectView),
    Connack(Connack),
    Publish(PublishView),
    Puback(PacketIdentifier),
    Pubrec(PacketIdentifier),
    Pubrel(PacketIdentifier),
    Pubcomp(PacketIdentifier),
    Subscribe(SubscribeView),
    Suback(SubackView),
    Unsubscribe(UnsubscribeView),
    Unsuback(PacketIdentifier),
    Pingreq,
    Pingresp,
    Disconnect,
}

impl View for Packet {
    type V = PacketView;

    open spec fn view(&self) -> PacketView {
        match self {
            Packet::Connect(p) => PacketView::Connect(p@),
            Packet::Connack(p) => PacketView::Connack(*p),
            Packet::Publish(p) => PacketView::Publish(p@),
            Packet::Puback(pid) => PacketView::Puback(*pid),
            Packet::Pubrec(pid) => PacketView::Pubrec(*pid),
            Packet::Pubrel(pid) => PacketView::Pubrel(*pid),
            Packet::Pubcomp(pid) => PacketView::Pubcomp(*pid),
            Packet::Subscribe(p) => PacketView::Subscribe(p@),
            Packet::Suback(p) => PacketView::Suback(p@),
            Packet::Unsubscribe(p) => PacketView::Unsubscribe(p@),
            Packet::Unsuback(pid) => PacketView::Unsuback(*pid),
            Packet::Pingreq => PacketView::Pingreq,
            Packet::Pingresp => PacketView::Pingresp,
            Packet::Disconnect => PacketView::Disconnect,
        }
    }
}

impl PacketView {
    /// What the decoder guarantees of an inbound packet.
    pub open spec fn well_formed(self) -> bool {
        self matches PacketView::Publish(p) ==> p.well_formed()
    }
}

} // verus!
