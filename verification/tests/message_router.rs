use kafka_file_writer::message_router::MessageRouter;
use kafka_file_writer::stream::{partitions_for, KafkaMessageMeta, TopicMetadata};
use kafka_file_writer::subscription::{Subscription, SubscriptionKey};
use std::collections::HashSet;
use std::hash::Hash;

fn meta<'a>(topic: &'a str, key: Option<&'a [u8]>) -> KafkaMessageMeta<'a> {
    KafkaMessageMeta {
        topic,
        key,
        partition: 0,
        offset: 0,
        timestamp: Some(0),
    }
}

fn to_set<T: Hash + Eq>(v: impl IntoIterator<Item = T>) -> HashSet<T> {
    v.into_iter().collect()
}

fn sub(topic: &str, key: SubscriptionKey) -> Subscription {
    Subscription::new(topic.to_string(), key)
}

#[test]
fn test_unknown_topic() {
    let mut router = MessageRouter::default();

    router.subscribe(123, &sub("someTopic", SubscriptionKey::All));

    let writers = router.writers_for(&meta("someOtherTopic", Some(b"")));

    assert!(writers.is_empty());
}

#[test]
fn test_known_topic_all_keys() {
    let mut router = MessageRouter::default();

    router.subscribe(123, &sub("someTopic", SubscriptionKey::All));

    let writers = router.writers_for(&meta("someTopic", Some(b"")));

    assert_eq!(writers, vec![123]);
}

#[test]
fn test_known_topic_unknown_key() {
    let mut router = MessageRouter::default();

    router.subscribe(123, &sub("someTopic", SubscriptionKey::Key(b"foo".to_vec())));

    let writers = router.writers_for(&meta("someTopic", Some(b"a_different_key")));

    assert!(writers.is_empty());
}

#[test]
fn test_known_topic_known_key() {
    let mut router = MessageRouter::default();

    router.subscribe(123, &sub("someTopic", SubscriptionKey::Key(b"someKey".to_vec())));

    let writers = router.writers_for(&meta("someTopic", Some(b"someKey")));

    assert_eq!(writers, vec![123]);
}

#[test]
fn test_multiple_subscriptions() {
    let mut router = MessageRouter::default();

    router.subscribe(1, &sub("topic1", SubscriptionKey::All));
    router.subscribe(2, &sub("topic1", SubscriptionKey::Key(b"key2".to_vec())));
    router.subscribe(3, &sub("topic1", SubscriptionKey::Key(b"key3".to_vec())));
    router.subscribe(4, &sub("topic1", SubscriptionKey::Key(b"key3".to_vec())));
    router.subscribe(11, &sub("topic2", SubscriptionKey::All));
    router.subscribe(12, &sub("topic2", SubscriptionKey::Key(b"key2".to_vec())));
    router.subscribe(13, &sub("topic2", SubscriptionKey::Key(b"key3".to_vec())));
    router.subscribe(14, &sub("topic2", SubscriptionKey::Key(b"key3".to_vec())));

    assert_eq!(to_set(router.writers_for(&meta("topic1", Some(b"key1")))), to_set([1]));
    assert_eq!(to_set(router.writers_for(&meta("topic1", None))), to_set([1]));
    assert_eq!(to_set(router.writers_for(&meta("topic1", Some(b"key2")))), to_set([1, 2]));
    assert_eq!(to_set(router.writers_for(&meta("topic1", Some(b"key3")))), to_set([1, 3, 4]));

    assert_eq!(to_set(router.writers_for(&meta("topic2", Some(b"key1")))), to_set([11]));
    assert_eq!(to_set(router.writers_for(&meta("topic2", None))), to_set([11]));
    assert_eq!(to_set(router.writers_for(&meta("topic2", Some(b"key2")))), to_set([11, 12]));
    assert_eq!(to_set(router.writers_for(&meta("topic2", Some(b"key3")))), to_set([11, 13, 14]));

    assert_eq!(to_set(router.writers_for(&meta("topic3", Some(b"key1")))), to_set::<usize>([]));
    assert_eq!(to_set(router.writers_for(&meta("topic3", None))), to_set::<usize>([]));
}

#[test]
fn test_keyed_writers_come_before_all_key_writers_in_subscription_order() {
    let mut router = MessageRouter::default();
    router.subscribe(7, &sub("t", SubscriptionKey::All));
    router.subscribe(5, &sub("t", SubscriptionKey::Key(b"k".to_vec())));
    router.subscribe(3, &sub("t", SubscriptionKey::All));
    router.subscribe(9, &sub("t", SubscriptionKey::Key(b"k".to_vec())));
    router.subscribe(1, &sub("u", SubscriptionKey::Key(b"k".to_vec())));

    assert_eq!(router.writers_for(&meta("t", Some(b"k"))), vec![5, 9, 7, 3]);
    assert_eq!(router.writers_for(&meta("t", None)), vec![7, 3]);
    assert_eq!(router.writers_for(&meta("u", Some(b"k"))), vec![1]);
}

#[test]
fn test_topics_lists_each_subscribed_topic_once() {
    let mut router = MessageRouter::default();
    router.subscribe(1, &sub("a", SubscriptionKey::All));
    router.subscribe(2, &sub("b", SubscriptionKey::Key(b"x".to_vec())));
    router.subscribe(3, &sub("a", SubscriptionKey::Key(b"y".to_vec())));

    let mut topics = router.topics();
    topics.sort();
    assert_eq!(topics, vec!["a".to_string(), "b".to_string()]);
    assert!(MessageRouter::new().topics().is_empty());
}

#[test]
fn test_subscription_accessors() {
    let s = sub("someTopic", SubscriptionKey::Key(b"k".to_vec()));
    assert_eq!(s.topic(), "someTopic");
    assert_eq!(s.key(), &SubscriptionKey::Key(b"k".to_vec()));
}

#[test]
fn test_partitions_for() {
    let topics = vec![
        TopicMetadata { name: "a".to_string(), error: None, partitions: vec![0, 1, 2] },
        TopicMetadata { name: "b".to_string(), error: Some("UnknownTopicOrPartition".to_string()), partitions: vec![] },
        TopicMetadata { name: "a".to_string(), error: None, partitions: vec![7] },
    ];
    assert_eq!(partitions_for(Ok(topics.clone()), "a"), Ok(vec![0, 1, 2]));
    let err = partitions_for(Ok(topics.clone()), "b").unwrap_err();
    assert_eq!(err.source, None);
    assert_eq!(err.context, "Unable to fetch topics (searching for 'b'): UnknownTopicOrPartition");
    let err = partitions_for(Ok(topics), "c").unwrap_err();
    assert_eq!(err.context, "Topic 'c' was not found");
    let err = partitions_for(Err("broker down".to_string()), "a").unwrap_err();
    assert_eq!(err.source.as_deref(), Some("broker down"));
    assert_eq!(err.context, "Unable to fetch metadata for 'a'");
}
