//! Writer-declared subscriptions to Kafka topics and keys.
use vstd::prelude::*;

verus! {

/// Define which Kafka keys this writer should be notified for.
#[derive(Debug, Clone, PartialEq, Eq, Hash)]
pub enum SubscriptionKey {
    /// Deliver messages from all Kafka keys.
    All,
    /// Only deliver messages which have a Kafka key matching
    /// the specified bytes.
    Key(Vec<u8>),
}

/// Mathematical model of a `SubscriptionKey`.
pub enum SubscriptionKeyView {
    All,
    Key(Seq<u8>),
}

impl View for SubscriptionKey {
    type V = SubscriptionKeyView;

    open spec fn view(&self) -> SubscriptionKeyView {
        match self {
            SubscriptionKey::All => SubscriptionKeyView::All,
            SubscriptionKey::Key(k) => SubscriptionKeyView::Key(k@),
        }
    }
}

/// Writer-declared subscription to a Kafka topic and key.
/// The writer will be notified of messages delivered to this
/// topic + key combination.
#[derive(Debug, Clone, PartialEq, Eq)]
pub struct Subscription {
    topic: String,
    key: SubscriptionKey,
}

/// Mathematical model of a `Subscription`.
pub struct SubscriptionView {
    pub topic: Seq<char>,
    pub key: SubscriptionKeyView,
}

impl View for Subscription {
    type V = SubscriptionView;

    closed spec fn view(&self) -> SubscriptionView {
        SubscriptionView { topic: self.topic@, key: self.key@ }
    }
}

impl Subscription {
    pub fn new(topic: String, key: SubscriptionKey) -> (s: Subscription)
        ensures
            s@ == (SubscriptionView { topic: topic@, key: key@ }),
    {
        Subscription { topic, key }
    }

    pub fn topic(&self) -> (t: &str)
        ensures
            t@ == self@.topic,
    {
        self.topic.as_str()
    }

    pub fn key(&self) -> (k: &SubscriptionKey)
        ensures
            k@ == self@.key,
    {
        &self.key
    }
}

} // verus!
