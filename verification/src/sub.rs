//! The subscriptions that the broker has granted.

use crate::message::{views, QoS};
use crate::packet::{SubscribeTopic, SubscribeTopicView};
use crate::pid::PacketIdentifier;
use vstd::prelude::*;

verus! {

/// One granted subscription.
#[derive(Debug, PartialEq, Eq)]
pub struct Subscription {
    /// The identifier of the SUBSCRIBE that asked for it.
    pub pid: PacketIdentifier,
    pub topic_path: String,
    /// The guarantee that the broker granted.
    pub qos: QoS,
}

/// A granted subscription as a mathematical value.
pub struct SubscriptionView {
    pub pid: PacketIdentifier,
    pub topic_path: Seq<char>,
    pub qos: QoS,
}

impl SubscriptionView {
    /// The entry of a SUBSCRIBE that asks for this subscription again.
    pub open spec fn subscribe_topic(self) -> SubscribeTopicView {
        SubscribeTopicView { topic_path: self.topic_path, qos: self.qos }
    }
}

impl View for Subscription {
    type V = SubscriptionView;

    open spec fn view(&self) -> SubscriptionView {
        SubscriptionView { pid: self.pid, topic_path: self.topic_path@, qos: self.qos }
    }
}

impl Clone for Subscription {
    fn clone(&self) -> (copy: Subscription)
        ensures
            copy@ == self@,
    {
        Subscription { pid: self.pid, topic_path: self.topic_path.clone(), qos: self.qos }
    }
}

impl Subscription {
    /// The entry of a SUBSCRIBE that asks for this subscription again.
    pub fn to_subscribe_topic(&self) -> (topic: SubscribeTopic)
        ensures
            topic@ == self@.subscribe_topic(),
    {
        SubscribeTopic { topic_path: self.topic_path.clone(), qos: self.qos }
    }
}

/// No filter stands twice in `entries`.
pub open spec fn distinct(entries: Seq<SubscriptionView>) -> bool {
    forall|i: int, j: int|
        0 <= i < entries.len() && 0 <= j < entries.len() && i != j ==> entries[i].topic_path
            != entries[j].topic_path
}

/// `filter` stands at `i` in `entries`.
pub open spec fn stands_at(entries: Seq<SubscriptionView>, filter: Seq<char>, i: int) -> bool {
    0 <= i < entries.len() && entries[i].topic_path == filter
}

/// Some entry of `entries` is for `filter`.
pub open spec fn holds(entries: Seq<SubscriptionView>, filter: Seq<char>) -> bool {
    exists|i: int| stands_at(entries, filter, i)
}

/// Where the entry for `filter` stands in `entries`.
pub open spec fn index_of(entries: Seq<SubscriptionView>, filter: Seq<char>) -> int {
    choose|i: int| stands_at(entries, filter, i)
}

/// `entries` after `granted` was recorded: it takes the place of the entry
/// for the same filter, or comes last.
pub open spec fn with(entries: Seq<SubscriptionView>, granted: SubscriptionView) -> Seq<
    SubscriptionView,
> {
    if holds(entries, granted.topic_path) {
        entries.update(index_of(entries, granted.topic_path), granted)
    } else {
        entries.push(granted)
    }
}

/// `entries` after the entry for `filter`, if any, was dropped.
pub open spec fn without(entries: Seq<SubscriptionView>, filter: Seq<char>) -> Seq<
    SubscriptionView,
> {
    if holds(entries, filter) {
        entries.remove(index_of(entries, filter))
    } else {
        entries
    }
}

/// The registry as a map from filter to subscription.
pub open spec fn as_map(entries: Seq<SubscriptionView>) -> Map<Seq<char>, SubscriptionView> {
    Map::new(
        |filter: Seq<char>| holds(entries, filter),
        |filter: Seq<char>| entries[index_of(entries, filter)],
    )
}

/// In a registry without repetition a filter stands at one place only.
pub proof fn lemma_index_unique(entries: Seq<SubscriptionView>, filter: Seq<char>, i: int)
    requires
        distinct(entries),
        stands_at(entries, filter, i),
    ensures
        holds(entries, filter),
        index_of(entries, filter) == i,
{
}

/// Recording a grant keeps the registry free of repetition, and is an
/// insertion into the map.
pub proof fn lemma_with(entries: Seq<SubscriptionView>, granted: SubscriptionView)
    requires
        distinct(entries),
    ensures
        distinct(with(entries, granted)),
        as_map(with(entries, granted)) == as_map(entries).insert(granted.topic_path, granted),
{
    let after = with(entries, granted);
    let at = if holds(entries, granted.topic_path) {
        index_of(entries, granted.topic_path)
    } else {
        entries.len() as int
    };
    assert(stands_at(after, granted.topic_path, at));
    assert forall|i: int| 0 <= i < after.len() && i != at implies after[i] == entries[i]
        && entries[i].topic_path != granted.topic_path by {
        if entries[i].topic_path == granted.topic_path {
            assert(stands_at(entries, granted.topic_path, i));
        }
    }
    assert(distinct(after));
    let expected = as_map(entries).insert(granted.topic_path, granted);
    assert forall|filter: Seq<char>| #[trigger] as_map(after).contains_key(filter) implies expected.contains_key(filter) by {
        let i = index_of(after, filter);
        assert(stands_at(after, filter, i));
        if i != at {
            assert(stands_at(entries, filter, i));
        }
    }
    assert forall|filter: Seq<char>| #[trigger] expected.contains_key(filter) implies as_map(after).contains_key(filter)
        && as_map(after)[filter] == expected[filter] by {
        if filter == granted.topic_path {
            lemma_index_unique(after, filter, at);
        } else {
            let i = index_of(entries, filter);
            assert(stands_at(entries, filter, i));
            assert(stands_at(after, filter, i));
            lemma_index_unique(after, filter, i);
        }
    }
    assert(as_map(after) =~= expected);
}

/// Dropping a filter keeps the registry free of repetition, and is a
/// removal from the map.
pub proof fn lemma_without(entries: Seq<SubscriptionView>, filter: Seq<char>)
    requires
        distinct(entries),
    ensures
        distinct(without(entries, filter)),
        as_map(without(entries, filter)) == as_map(entries).remove(filter),
        !holds(without(entries, filter), filter),
{
    let after = without(entries, filter);
    if holds(entries, filter) {
        let at = index_of(entries, filter);
        assert(stands_at(entries, filter, at));
        assert forall|i: int| 0 <= i < after.len() implies after[i] == entries[if i < at {
            i
        } else {
            i + 1
        }] by {}
        assert(distinct(after));
        assert forall|i: int| !stands_at(after, filter, i) by {
            if stands_at(after, filter, i) {
                let k = if i < at {
                    i
                } else {
                    i + 1
                };
                assert(stands_at(entries, filter, k));
            }
        }
        let expected = as_map(entries).remove(filter);
        assert forall|other: Seq<char>| #[trigger] as_map(after).contains_key(other) implies expected.contains_key(other) by {
            let i = index_of(after, other);
            assert(stands_at(after, other, i));
            let k = if i < at {
                i
            } else {
                i + 1
            };
            assert(stands_at(entries, other, k));
        }
        assert forall|other: Seq<char>| #[trigger] expected.contains_key(other) implies as_map(after).contains_key(other)
            && as_map(after)[other] == expected[other] by {
            let k = index_of(entries, other);
            assert(stands_at(entries, other, k));
            let i = if k < at {
                k
            } else {
                k - 1
            };
            assert(stands_at(after, other, i));
            lemma_index_unique(after, other, i);
        }
        assert(as_map(after) =~= expected);
    } else {
        assert(as_map(entries).remove(filter) =~= as_map(entries));
    }
}

/// The granted subscriptions of a session, each filter once, in the order in
/// which the filters were first granted.
pub struct Subscriptions {
    entries: Vec<Subscription>,
}

impl View for Subscriptions {
    type V = Seq<SubscriptionView>;

    closed spec fn view(&self) -> Seq<SubscriptionView> {
        views(self.entries@)
    }
}

impl Subscriptions {
    #[verifier::type_invariant]
    spec fn no_repetition(&self) -> bool {
        distinct(views(self.entries@))
    }

    /// The empty registry.
    pub fn new() -> (registry: Subscriptions)
        ensures
            registry@ == Seq::<SubscriptionView>::empty(),
    {
        let registry = Subscriptions { entries: Vec::new() };
        assert(registry@ =~= Seq::<SubscriptionView>::empty());
        registry
    }

    /// How many filters are subscribed to.
    pub fn len(&self) -> (n: usize)
        ensures
            n == self@.len(),
    {
        self.entries.len()
    }

    /// Where `filter` stands, if it is subscribed to.
    fn find(&self, filter: &String) -> (at: Option<usize>)
        ensures
            match at {
                Some(i) => stands_at(self@, filter@, i as int) && index_of(self@, filter@) == i,
                None => !holds(self@, filter@),
            },
    {
        proof {
            use_type_invariant(self);
        }
        let mut i: usize = 0;
        while i < self.entries.len()
            invariant
                i <= self.entries.len(),
                distinct(self@),
                self@ == views(self.entries@),
                forall|k: int| 0 <= k < i ==> !stands_at(self@, filter@, k),
            decreases self.entries.len() - i,
        {
            if self.entries[i].topic_path == *filter {
                proof {
                    lemma_index_unique(self@, filter@, i as int);
                }
                return Some(i);
            }
            i += 1;
        }
        None
    }

    /// The subscription to `filter`, if there is one.
    pub fn get(&self, filter: &String) -> (found: Option<Subscription>)
        ensures
            match found {
                Some(sub) => as_map(self@).contains_key(filter@) && sub@ == as_map(self@)[filter@],
                None => !as_map(self@).contains_key(filter@),
            },
    {
        match self.find(filter) {
            Some(i) => Some(self.entries[i].clone()),
            None => None,
        }
    }

    /// Records a grant, in place of an earlier one for the same filter.
    pub fn insert(&mut self, granted: Subscription)
        ensures
            final(self)@ == with(old(self)@, granted@),
            as_map(final(self)@) == as_map(old(self)@).insert(granted@.topic_path, granted@),
    {
        proof {
            use_type_invariant(&*self);
            lemma_with(self@, granted@);
        }
        let ghost before = self@;
        let ghost view = granted@;
        let at = self.find(&granted.topic_path);
        let mut entries: Vec<Subscription> = Vec::new();
        std::mem::swap(&mut entries, &mut self.entries);
        match at {
            Some(i) => {
                entries.set(i, granted);
                assert(views(entries@) =~= before.update(i as int, view));
            },
            None => {
                entries.push(granted);
                assert(views(entries@) =~= before.push(view));
            },
        }
        self.entries = entries;
    }

    /// Drops the subscription to `filter`, if there is one.
    pub fn remove(&mut self, filter: &String)
        ensures
            final(self)@ == without(old(self)@, filter@),
            as_map(final(self)@) == as_map(old(self)@).remove(filter@),
    {
        proof {
            use_type_invariant(&*self);
            lemma_without(self@, filter@);
        }
        let ghost before = self@;
        let at = self.find(filter);
        let mut entries: Vec<Subscription> = Vec::new();
        std::mem::swap(&mut entries, &mut self.entries);
        match at {
            Some(i) => {
                entries.remove(i);
                assert(views(entries@) =~= before.remove(i as int));
            },
            None => {},
        }
        self.entries = entries;
    }

    /// One SUBSCRIBE entry for each subscription, in the registry's order.
    pub fn to_subscribe_topics(&self) -> (topics: Vec<SubscribeTopic>)
        ensures
            views(topics@) == resubscription(self@),
            distinct(self@),
    {
        proof {
            use_type_invariant(self);
        }
        let mut topics: Vec<SubscribeTopic> = Vec::new();
        let mut i: usize = 0;
        while i < self.entries.len()
            invariant
                i <= self.entries.len(),
                self@ == views(self.entries@),
                views(topics@) == resubscription(self@.subrange(0, i as int)),
            decreases self.entries.len() - i,
        {
            let topic = self.entries[i].to_subscribe_topic();
            let ghost before = topics@;
            topics.push(topic);
            assert(views(topics@) =~= resubscription(self@.subrange(0, i + 1))) by {
                assert(views(topics@) =~= views(before).push(topic@));
            }
            i += 1;
        }
        assert(self@.subrange(0, i as int) =~= self@);
        topics
    }
}

/// The entries of the SUBSCRIBE that asks again for all of `entries`.
pub open spec fn resubscription(entries: Seq<SubscriptionView>) -> Seq<SubscribeTopicView> {
    Seq::new(entries.len(), |i: int| entries[i].subscribe_topic())
}

} // verus!
