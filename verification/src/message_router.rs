//! Message router: routes messages by topic and key to writer modules that declared
//! those as subscriptions.
//!
//! Writer modules subscribe to topics+keys specified in advance. A hash map lookup
//! determines the writer(s) for a message's topic and key. Writers may subscribe to
//! all keys if they need to receive all messages from a topic.
use crate::stream::KafkaMessageMeta;
use crate::subscription::{Subscription, SubscriptionKey, SubscriptionKeyView, SubscriptionView};
use vstd::prelude::*;

verus! {

/// Unique identifier for a specific writer module (an index into the
/// list of writer modules of a file).
pub type WriterId = usize;

/// Message router for a single topic.
#[derive(Debug)]
pub struct TopicMessageRouter {
    keyed_subscribers: ahash::HashMap<Vec<u8>, Vec<WriterId>>,
    all_key_subscribers: Vec<WriterId>,
}

/// Mathematical model of a `TopicMessageRouter`: the writers subscribed to each
/// key, and the writers subscribed to all keys, each in subscription order.
pub struct TopicRouterView {
    pub keyed: Map<Seq<u8>, Seq<WriterId>>,
    pub all: Seq<WriterId>,
}

/// Message router for all topics.
#[derive(Debug)]
pub struct MessageRouter {
    /// Map of topic to topic-router for that topic.
    topic_routers: ahash::HashMap<String, TopicMessageRouter>,
    /// Router used for topics to which nothing has subscribed.
    default_router: TopicMessageRouter,
}

/// What a table from keys to writer lists holds.
pub uninterp spec fn keyed_table_contents(t: ahash::HashMap<Vec<u8>, Vec<WriterId>>) -> Map<Seq<u8>, Seq<WriterId>>;

/// What a table from topics to topic routers holds, each router by its view.
pub uninterp spec fn topic_table_contents(t: ahash::HashMap<String, TopicMessageRouter>) -> Map<Seq<char>, TopicRouterView>;

/// Calls `ahash::HashMapExt::new`: the new map holds no entries.
#[verifier::external_body]
fn keyed_table_new() -> (t: ahash::HashMap<Vec<u8>, Vec<WriterId>>)
    ensures
        keyed_table_contents(t) =~= Map::empty(),
{
    <ahash::HashMap<Vec<u8>, Vec<WriterId>> as ahash::HashMapExt>::new()
}

/// Calls `HashMap::remove`: the entry for `key`, if any, leaves the map and is returned.
#[verifier::external_body]
fn keyed_table_remove(t: &mut ahash::HashMap<Vec<u8>, Vec<WriterId>>, key: &[u8]) -> (r: Option<Vec<WriterId>>)
    ensures
        keyed_table_contents(*final(t)) == keyed_table_contents(*old(t)).remove(key@),
        match r {
            Some(v) => keyed_table_contents(*old(t)).contains_key(key@) && v@ == keyed_table_contents(*old(t))[key@],
            None => !keyed_table_contents(*old(t)).contains_key(key@),
        },
{
    t.remove(key)
}

/// Calls `HashMap::insert`: afterwards `key` maps to `value`, the other entries unchanged.
#[verifier::external_body]
fn keyed_table_insert(t: &mut ahash::HashMap<Vec<u8>, Vec<WriterId>>, key: Vec<u8>, value: Vec<WriterId>)
    ensures
        keyed_table_contents(*final(t)) == keyed_table_contents(*old(t)).insert(key@, value@),
{
    t.insert(key, value);
}

/// Calls `HashMap::get`: the list stored under `key`, if there is one.
#[verifier::external_body]
fn keyed_table_get<'a>(t: &'a ahash::HashMap<Vec<u8>, Vec<WriterId>>, key: &[u8]) -> (r: Option<&'a Vec<WriterId>>)
    ensures
        match r {
            Some(v) => keyed_table_contents(*t).contains_key(key@) && v@ == keyed_table_contents(*t)[key@],
            None => !keyed_table_contents(*t).contains_key(key@),
        },
{
    t.get(key)
}

/// Calls `ahash::HashMapExt::new`: the new map holds no entries.
#[verifier::external_body]
fn topic_table_new() -> (t: ahash::HashMap<String, TopicMessageRouter>)
    ensures
        topic_table_contents(t) =~= Map::empty(),
{
    <ahash::HashMap<String, TopicMessageRouter> as ahash::HashMapExt>::new()
}

/// Calls `HashMap::remove`: the router for `topic`, if any, leaves the map and is returned.
#[verifier::external_body]
fn topic_table_remove(t: &mut ahash::HashMap<String, TopicMessageRouter>, topic: &str) -> (r: Option<TopicMessageRouter>)
    ensures
        topic_table_contents(*final(t)) == topic_table_contents(*old(t)).remove(topic@),
        match r {
            Some(v) => topic_table_contents(*old(t)).contains_key(topic@) && v@ == topic_table_contents(*old(t))[topic@],
            None => !topic_table_contents(*old(t)).contains_key(topic@),
        },
{
    t.remove(topic)
}

/// Calls `HashMap::insert`: afterwards `topic` maps to `router`, the other entries unchanged.
#[verifier::external_body]
fn topic_table_insert(t: &mut ahash::HashMap<String, TopicMessageRouter>, topic: String, router: TopicMessageRouter)
    ensures
        topic_table_contents(*final(t)) == topic_table_contents(*old(t)).insert(topic@, router@),
{
    t.insert(topic, router);
}

/// Calls `HashMap::get`: the router stored under `topic`, if there is one.
#[verifier::external_body]
fn topic_table_get<'a>(t: &'a ahash::HashMap<String, TopicMessageRouter>, topic: &str) -> (r: Option<&'a TopicMessageRouter>)
    ensures
        match r {
            Some(v) => topic_table_contents(*t).contains_key(topic@) && v@ == topic_table_contents(*t)[topic@],
            None => !topic_table_contents(*t).contains_key(topic@),
        },
{
    t.get(topic)
}

/// Calls `HashMap::keys` and collects the keys. They come out in the order in which
/// the map is walked, which depends on the hasher's random seed: only that each key
/// comes out exactly once is stated.
#[verifier::external_body]
fn topic_table_keys(t: &ahash::HashMap<String, TopicMessageRouter>) -> (r: Vec<String>)
    ensures
        r@.map_values(|s: String| s@).no_duplicates(),
        r@.map_values(|s: String| s@).to_set() == topic_table_contents(*t).dom(),
{
    t.keys().cloned().collect()
}

impl View for TopicMessageRouter {
    type V = TopicRouterView;

    closed spec fn view(&self) -> TopicRouterView {
        TopicRouterView { keyed: keyed_table_contents(self.keyed_subscribers), all: self.all_key_subscribers@ }
    }
}

impl View for MessageRouter {
    type V = Map<Seq<char>, TopicRouterView>;

    closed spec fn view(&self) -> Map<Seq<char>, TopicRouterView> {
        topic_table_contents(self.topic_routers)
    }
}

/// A router for one topic that nothing has subscribed to yet.
pub open spec fn empty_topic_router() -> TopicRouterView {
    TopicRouterView { keyed: Map::empty(), all: Seq::empty() }
}

/// The writers subscribed to `key` under one topic, in subscription order.
pub open spec fn keyed_writers(r: TopicRouterView, key: Seq<u8>) -> Seq<WriterId> {
    if r.keyed.contains_key(key) {
        r.keyed[key]
    } else {
        Seq::empty()
    }
}

/// A topic router after writer `id` subscribes with `key`.
pub open spec fn topic_router_subscribe(r: TopicRouterView, id: WriterId, key: SubscriptionKeyView) -> TopicRouterView {
    match key {
        SubscriptionKeyView::All => TopicRouterView { keyed: r.keyed, all: r.all.push(id) },
        SubscriptionKeyView::Key(k) => TopicRouterView {
            keyed: r.keyed.insert(k, keyed_writers(r, k).push(id)),
            all: r.all,
        },
    }
}

/// The writers that one topic router notifies of a message with the given key:
/// first those subscribed to that key, then those subscribed to all keys.
pub open spec fn topic_router_writers(r: TopicRouterView, key: Option<Seq<u8>>) -> Seq<WriterId> {
    match key {
        Some(k) => keyed_writers(r, k) + r.all,
        None => r.all,
    }
}

/// The router for `topic`, or an empty one if nothing subscribed to it.
pub open spec fn router_for_topic(m: Map<Seq<char>, TopicRouterView>, topic: Seq<char>) -> TopicRouterView {
    if m.contains_key(topic) {
        m[topic]
    } else {
        empty_topic_router()
    }
}

/// A message router after writer `id` subscribes with `sub`.
pub open spec fn router_subscribe(m: Map<Seq<char>, TopicRouterView>, id: WriterId, sub: SubscriptionView) -> Map<Seq<char>, TopicRouterView> {
    m.insert(sub.topic, topic_router_subscribe(router_for_topic(m, sub.topic), id, sub.key))
}

/// The writers a message router notifies of a message on `topic` with `key`.
pub open spec fn router_writers(m: Map<Seq<char>, TopicRouterView>, topic: Seq<char>, key: Option<Seq<u8>>) -> Seq<WriterId> {
    topic_router_writers(router_for_topic(m, topic), key)
}

impl TopicMessageRouter {
    fn new() -> (r: TopicMessageRouter)
        ensures
            r@ == empty_topic_router(),
    {
        TopicMessageRouter { keyed_subscribers: keyed_table_new(), all_key_subscribers: Vec::new() }
    }

    fn subscribe(&mut self, id: WriterId, subscription: &Subscription)
        ensures
            final(self)@ == topic_router_subscribe(old(self)@, id, subscription@.key),
    {
        match subscription.key() {
            SubscriptionKey::Key(key) => {
                let mut ids = match keyed_table_remove(&mut self.keyed_subscribers, key.as_slice()) {
                    Some(ids) => ids,
                    None => Vec::new(),
                };
                ids.push(id);
                keyed_table_insert(&mut self.keyed_subscribers, key.clone(), ids);
                proof {
                    assert(keyed_table_contents(self.keyed_subscribers) =~= keyed_table_contents(old(self).keyed_subscribers).insert(key@, keyed_writers(old(self)@, key@).push(id)));
                }
            },
            SubscriptionKey::All => {
                self.all_key_subscribers.push(id);
            },
        }
    }

    fn writers_for(&self, meta: &KafkaMessageMeta) -> (ids: Vec<WriterId>)
        ensures
            ids@ == topic_router_writers(self@, meta.key_view()),
    {
        let mut ids: Vec<WriterId> = Vec::new();
        if let Some(k) = meta.key {
            if let Some(keyed) = keyed_table_get(&self.keyed_subscribers, k) {
                ids = keyed.clone();
            }
        }
        let ghost prefix = ids@;
        let mut i: usize = 0;
        while i < self.all_key_subscribers.len()
            invariant
                0 <= i <= self.all_key_subscribers@.len(),
                ids@ == prefix + self.all_key_subscribers@.subrange(0, i as int),
            decreases self.all_key_subscribers@.len() - i,
        {
            ids.push(self.all_key_subscribers[i]);
            proof {
                assert(self.all_key_subscribers@.subrange(0, i + 1) =~= self.all_key_subscribers@.subrange(0, i as int).push(self.all_key_subscribers@[i as int]));
            }
            i = i + 1;
        }
        proof {
            assert(self.all_key_subscribers@.subrange(0, i as int) =~= self.all_key_subscribers@);
        }
        ids
    }
}

impl Default for MessageRouter {
    fn default() -> (r: MessageRouter)
        ensures
            r.wf(),
            r@ =~= Map::empty(),
    {
        MessageRouter::new()
    }
}

impl MessageRouter {
    /// Well-formedness: the router for unsubscribed topics stays empty.
    pub closed spec fn wf(&self) -> bool {
        self.default_router@ == empty_topic_router()
    }

    pub fn new() -> (r: MessageRouter)
        ensures
            r.wf(),
            r@ =~= Map::empty(),
    {
        MessageRouter { topic_routers: topic_table_new(), default_router: TopicMessageRouter::new() }
    }

    /// Subscribe to receive messages described by a ``Subscription``.
    pub fn subscribe(&mut self, id: WriterId, subscription: &Subscription)
        requires
            old(self).wf(),
        ensures
            final(self).wf(),
            final(self)@ == router_subscribe(old(self)@, id, subscription@),
    {
        let mut router = match topic_table_remove(&mut self.topic_routers, subscription.topic()) {
            Some(r) => r,
            None => TopicMessageRouter::new(),
        };
        router.subscribe(id, subscription);
        topic_table_insert(&mut self.topic_routers, subscription.topic().to_owned(), router);
        proof {
            assert(self@ =~= router_subscribe(old(self)@, id, subscription@));
        }
    }

    /// The topics that something has subscribed to, each once.
    pub fn topics(&self) -> (t: Vec<String>)
        ensures
            t@.map_values(|s: String| s@).no_duplicates(),
            t@.map_values(|s: String| s@).to_set() == self@.dom(),
    {
        topic_table_keys(&self.topic_routers)
    }

    /// Get the writers that should be notified for the specified message metadata.
    pub fn writers_for(&self, meta: &KafkaMessageMeta) -> (ids: Vec<WriterId>)
        requires
            self.wf(),
        ensures
            ids@ == router_writers(self@, meta.topic@, meta.key_view()),
    {
        match topic_table_get(&self.topic_routers, meta.topic) {
            Some(router) => router.writers_for(meta),
            None => self.default_router.writers_for(meta),
        }
    }
}

} // verus!

verus! {

/// The writers subscribed, in order, by entries of `log` to `topic` with key `key`.
pub open spec fn logged_keyed_writers(log: Seq<(WriterId, SubscriptionView)>, topic: Seq<char>, key: Seq<u8>) -> Seq<WriterId>
    decreases log.len(),
{
    if log.len() == 0 {
        Seq::empty()
    } else {
        let prev = logged_keyed_writers(log.drop_last(), topic, key);
        let entry = log.last();
        if entry.1.topic == topic && entry.1.key == SubscriptionKeyView::Key(key) {
            prev.push(entry.0)
        } else {
            prev
        }
    }
}

/// The writers subscribed, in order, by entries of `log` to all keys of `topic`.
pub open spec fn logged_all_key_writers(log: Seq<(WriterId, SubscriptionView)>, topic: Seq<char>) -> Seq<WriterId>
    decreases log.len(),
{
    if log.len() == 0 {
        Seq::empty()
    } else {
        let prev = logged_all_key_writers(log.drop_last(), topic);
        let entry = log.last();
        if entry.1.topic == topic && entry.1.key == SubscriptionKeyView::All {
            prev.push(entry.0)
        } else {
            prev
        }
    }
}

/// The writers that should see a message on `topic` with `key`, given the subscriptions
/// in `log`: those subscribed to that very key, then those subscribed to all keys.
pub open spec fn logged_writers(log: Seq<(WriterId, SubscriptionView)>, topic: Seq<char>, key: Option<Seq<u8>>) -> Seq<WriterId> {
    match key {
        Some(k) => logged_keyed_writers(log, topic, k) + logged_all_key_writers(log, topic),
        None => logged_all_key_writers(log, topic),
    }
}

/// The router that results from subscribing the entries of `log` in order to an empty router.
pub open spec fn router_from_log(log: Seq<(WriterId, SubscriptionView)>) -> Map<Seq<char>, TopicRouterView>
    decreases log.len(),
{
    if log.len() == 0 {
        Map::empty()
    } else {
        router_subscribe(router_from_log(log.drop_last()), log.last().0, log.last().1)
    }
}

/// The topics named by the entries of `log`.
pub open spec fn logged_topics(log: Seq<(WriterId, SubscriptionView)>) -> Set<Seq<char>> {
    log.map_values(|e: (WriterId, SubscriptionView)| e.1.topic).to_set()
}

proof fn lemma_router_from_log_parts(log: Seq<(WriterId, SubscriptionView)>, topic: Seq<char>, key: Seq<u8>)
    ensures
        keyed_writers(router_for_topic(router_from_log(log), topic), key) == logged_keyed_writers(log, topic, key),
        router_for_topic(router_from_log(log), topic).all == logged_all_key_writers(log, topic),
        router_from_log(log).contains_key(topic) <==> logged_topics(log).contains(topic),
    decreases log.len(),
{
    if log.len() > 0 {
        let prefix = log.drop_last();
        lemma_router_from_log_parts(prefix, topic, key);
        let m = router_from_log(prefix);
        let (id, s) = log.last();
        assert(log.map_values(|e: (WriterId, SubscriptionView)| e.1.topic) =~= prefix.map_values(|e: (WriterId, SubscriptionView)| e.1.topic).push(s.topic));
        assert(prefix.map_values(|e: (WriterId, SubscriptionView)| e.1.topic).push(s.topic).to_set() =~= prefix.map_values(|e: (WriterId, SubscriptionView)| e.1.topic).to_set().insert(s.topic)) by {
            prefix.map_values(|e: (WriterId, SubscriptionView)| e.1.topic).lemma_push_to_set_commute(s.topic);
        }
    } else {
        assert(log.map_values(|e: (WriterId, SubscriptionView)| e.1.topic).to_set() =~= Set::empty());
    }
}

/// Routing law: after writers subscribe in the order given by `log`, a message on
/// `topic` with `key` goes to exactly the writers subscribed to that topic with that
/// key, in subscription order, followed by the writers subscribed to all keys of that
/// topic, in subscription order. A topic that nothing subscribed to goes to no writer.
pub proof fn lemma_routing_follows_subscriptions(log: Seq<(WriterId, SubscriptionView)>, topic: Seq<char>, key: Option<Seq<u8>>)
    ensures
        router_writers(router_from_log(log), topic, key) == logged_writers(log, topic, key),
        router_from_log(log).dom() == logged_topics(log),
{
    let k = match key {
        Some(k) => k,
        None => Seq::empty(),
    };
    lemma_router_from_log_parts(log, topic, k);
    assert forall|t: Seq<char>| router_from_log(log).dom().contains(t) <==> logged_topics(log).contains(t) by {
        lemma_router_from_log_parts(log, t, k);
    }
    assert(router_from_log(log).dom() =~= logged_topics(log));
}

} // verus!
