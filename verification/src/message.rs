//! Publications as the application sees them.

use crate::pid::PacketIdentifier;
use vstd::prelude::*;

verus! {

/// The delivery guarantee of a publication.
#[derive(Clone, Copy, Debug, PartialEq, Eq, Structural)]
pub enum QoS {
    AtMostOnce,
    AtLeastOnce,
    ExactlyOnce,
}

impl QoS {
    /// The level as MQTT numbers it.
    pub open spec fn level(self) -> int {
        match self {
            QoS::AtMostOnce => 0,
            QoS::AtLeastOnce => 1,
            QoS::ExactlyOnce => 2,
        }
    }

    /// The level as MQTT numbers it.
    pub fn to_u8(&self) -> (level: u8)
        ensures
            level == self.level(),
    {
        match self {
            QoS::AtMostOnce => 0,
            QoS::AtLeastOnce => 1,
            QoS::ExactlyOnce => 2,
        }
    }
}

/// How a publication is to be delivered: its guarantee, and whether the
/// broker keeps it for later subscribers.
#[derive(Clone, Copy, Debug, PartialEq, Eq, Structural)]
pub struct PubOpt {
    qos: QoS,
    retain: bool,
}

impl PubOpt {
    /// The delivery guarantee.
    pub closed spec fn spec_qos(&self) -> QoS {
        self.qos
    }

    /// Whether the broker keeps the publication for later subscribers.
    pub closed spec fn spec_is_retain(&self) -> bool {
        self.retain
    }

    /// Delivery with this guarantee, retained or not.
    pub fn new(qos: QoS, retain: bool) -> (opt: PubOpt)
        ensures
            opt.spec_qos() == qos,
            opt.spec_is_retain() == retain,
    {
        PubOpt { qos, retain }
    }

    /// Delivery at most once, not retained.
    pub fn at_most_once() -> (opt: PubOpt)
        ensures
            opt.spec_qos() == QoS::AtMostOnce,
            !opt.spec_is_retain(),
    {
        PubOpt { qos: QoS::AtMostOnce, retain: false }
    }

    /// Delivery at least once, not retained.
    pub fn at_least_once() -> (opt: PubOpt)
        ensures
            opt.spec_qos() == QoS::AtLeastOnce,
            !opt.spec_is_retain(),
    {
        PubOpt { qos: QoS::AtLeastOnce, retain: false }
    }

    /// Delivery exactly once, not retained.
    pub fn exactly_once() -> (opt: PubOpt)
        ensures
            opt.spec_qos() == QoS::ExactlyOnce,
            !opt.spec_is_retain(),
    {
        PubOpt { qos: QoS::ExactlyOnce, retain: false }
    }

    /// The delivery guarantee.
    #[verifier::when_used_as_spec(spec_qos)]
    pub fn qos(&self) -> (qos: QoS)
        ensures
            qos == self.spec_qos(),
    {
        self.qos
    }

    /// Whether the broker keeps the publication for later subscribers.
    #[verifier::when_used_as_spec(spec_is_retain)]
    pub fn is_retain(&self) -> (retain: bool)
        ensures
            retain == self.spec_is_retain(),
    {
        self.retain
    }
}

/// A publication: what the application hands to `publish`, and what `wait`
/// hands to the application.
#[derive(Debug, PartialEq, Eq)]
pub struct Message {
    pub topic: String,
    pub qos: QoS,
    pub retain: bool,
    /// Present exactly when `qos` is above `AtMostOnce`.
    pub pid: Option<PacketIdentifier>,
    pub payload: Vec<u8>,
}

/// A publication as a mathematical value.
pub struct MessageView {
    pub topic: Seq<char>,
    pub qos: QoS,
    pub retain: bool,
    pub pid: Option<PacketIdentifier>,
    pub payload: Seq<u8>,
}

impl MessageView {
    /// A publication carries an identifier exactly when it is acknowledged.
    pub open spec fn well_formed(self) -> bool {
        self.pid is Some <==> self.qos != QoS::AtMostOnce
    }
}

impl View for Message {
    type V = MessageView;

    open spec fn view(&self) -> MessageView {
        MessageView {
            topic: self.topic@,
            qos: self.qos,
            retain: self.retain,
            pid: self.pid,
            payload: self.payload@,
        }
    }
}

impl Clone for Message {
    fn clone(&self) -> (copy: Message)
        ensures
            copy@ == self@,
    {
        Message {
            topic: self.topic.clone(),
            qos: self.qos,
            retain: self.retain,
            pid: self.pid,
            payload: self.payload.clone(),
        }
    }
}

/// The views of the items of `items`, in their order.
pub open spec fn views<T: View>(items: Seq<T>) -> Seq<T::V> {
    Seq::new(items.len(), |i: int| items[i]@)
}

/// The views of a sequence with one more item are the views of the
/// sequence with the view of the item.
pub proof fn lemma_views_push<T: View>(items: Seq<T>, item: T)
    ensures
        views(items.push(item)) == views(items).push(item@),
{
    assert(views(items.push(item)) =~= views(items).push(item@));
}

/// The views of a part of a sequence are that part of its views.
pub proof fn lemma_views_subrange<T: View>(items: Seq<T>, from: int, to: int)
    requires
        0 <= from <= to <= items.len(),
    ensures
        views(items.subrange(from, to)) == views(items).subrange(from, to),
{
    assert(views(items.subrange(from, to)) =~= views(items).subrange(from, to));
}

} // verus!
