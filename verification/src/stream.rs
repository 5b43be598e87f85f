//! Plain descriptions of what the Kafka stream hands to the file writer.
use vstd::prelude::*;

verus! {

/// Metadata about a message from Kafka
#[derive(Debug, PartialEq, Eq)]
pub struct KafkaMessageMeta<'a> {
    pub topic: &'a str,
    pub key: Option<&'a [u8]>,
    pub partition: i32,
    pub offset: i64,
    pub timestamp: Option<i64>,
}

impl<'a> KafkaMessageMeta<'a> {
    /// The message key as a mathematical sequence, if the message has one.
    pub open spec fn key_view(&self) -> Option<Seq<u8>> {
        match self.key {
            Some(k) => Some(k@),
            None => None,
        }
    }
}

/// Errors thrown by stream operations at run time.
///
/// `source` describes the underlying Kafka error, where there was one.
#[derive(Debug, Clone, PartialEq, Eq)]
pub struct StreamError {
    pub source: Option<String>,
    pub context: String,
}

} // verus!

verus! {

/// What the Kafka metadata says of one topic.
#[derive(Debug, Clone, PartialEq, Eq)]
pub struct TopicMetadata {
    pub name: String,
    /// The error reported for the topic, if any, as rendered text.
    pub error: Option<String>,
    /// The ids of the topic's partitions.
    pub partitions: Vec<i32>,
}

/// The position of the first entry of `topics` named `topic`, if any.
pub open spec fn first_topic_index(topics: Seq<TopicMetadata>, topic: Seq<char>) -> Option<int>
    decreases topics.len(),
{
    if topics.len() == 0 {
        None
    } else if topics[0].name@ == topic {
        Some(0)
    } else {
        match first_topic_index(topics.drop_first(), topic) {
            Some(i) => Some(i + 1),
            None => None,
        }
    }
}

pub open spec fn quote_char() -> Seq<char> {
    seq!['\'']
}

/// `Unable to fetch metadata for '<topic>'`
pub open spec fn fetch_failed_text(topic: Seq<char>) -> Seq<char> {
    seq!['U', 'n', 'a', 'b', 'l', 'e', ' ', 't', 'o', ' ', 'f', 'e', 't', 'c', 'h', ' ', 'm', 'e', 't', 'a', 'd', 'a', 't', 'a', ' ', 'f', 'o', 'r', ' ', '\'']
        + topic + quote_char()
}

/// `Topic '<topic>' was not found`
pub open spec fn topic_not_found_text(topic: Seq<char>) -> Seq<char> {
    seq!['T', 'o', 'p', 'i', 'c', ' ', '\''] + topic
        + seq!['\'', ' ', 'w', 'a', 's', ' ', 'n', 'o', 't', ' ', 'f', 'o', 'u', 'n', 'd']
}

/// `Unable to fetch topics (searching for '<topic>'): <error>`
pub open spec fn topic_error_text(topic: Seq<char>, error: Seq<char>) -> Seq<char> {
    seq!['U', 'n', 'a', 'b', 'l', 'e', ' ', 't', 'o', ' ', 'f', 'e', 't', 'c', 'h', ' ', 't', 'o', 'p', 'i', 'c', 's', ' ',
        '(', 's', 'e', 'a', 'r', 'c', 'h', 'i', 'n', 'g', ' ', 'f', 'o', 'r', ' ', '\''] + topic
        + seq!['\'', ')', ':', ' '] + error
}

proof fn lemma_first_topic_index_step(topics: Seq<TopicMetadata>, topic: Seq<char>, i: int)
    requires
        0 <= i < topics.len(),
        forall|j: int| 0 <= j < i ==> topics[j].name@ != topic,
    ensures
        topics[i].name@ == topic ==> first_topic_index(topics, topic) == Some(i),
        topics[i].name@ != topic ==> first_topic_index(topics, topic) == (match first_topic_index(topics.subrange(i + 1, topics.len() as int), topic) {
            Some(k) => Some(k + i + 1),
            None => None::<int>,
        }),
    decreases i,
{
    if i > 0 {
        let rest = topics.drop_first();
        assert forall|j: int| 0 <= j < i - 1 implies rest[j].name@ != topic by {
            assert(rest[j] == topics[j + 1]);
        }
        lemma_first_topic_index_step(rest, topic, i - 1);
        assert(rest.subrange(i, rest.len() as int) =~= topics.subrange(i + 1, topics.len() as int));
    } else {
        assert(topics.subrange(1, topics.len() as int) =~= topics.drop_first());
    }
}

proof fn lemma_no_topic_found(topics: Seq<TopicMetadata>, topic: Seq<char>)
    requires
        forall|j: int| 0 <= j < topics.len() ==> topics[j].name@ != topic,
    ensures
        first_topic_index(topics, topic) is None,
    decreases topics.len(),
{
    if topics.len() > 0 {
        let rest = topics.drop_first();
        assert forall|j: int| 0 <= j < rest.len() implies rest[j].name@ != topic by {
            assert(rest[j] == topics[j + 1]);
        }
        lemma_no_topic_found(rest, topic);
    }
}

fn text_of(s: &str) -> (r: String)
    ensures
        r@ == s@,
{
    s.to_owned()
}

/// The partitions of `topic`, given the result of fetching the Kafka metadata for it:
/// the fetch must have succeeded, the topic must be listed, and no error may be reported
/// for it. The first entry with the topic's name counts.
pub fn partitions_for(fetched: Result<Vec<TopicMetadata>, String>, topic: &str) -> (r: Result<Vec<i32>, StreamError>)
    ensures
        match fetched {
            Err(e) => r matches Err(err) && err.source == Some(e) && err.context@ == fetch_failed_text(topic@),
            Ok(topics) => match first_topic_index(topics@, topic@) {
                None => r matches Err(err) && err.source is None && err.context@ == topic_not_found_text(topic@),
                Some(i) => match topics@[i].error {
                    Some(e) => r matches Err(err) && err.source is None && err.context@ == topic_error_text(topic@, e@),
                    None => r matches Ok(p) && p@ == topics@[i].partitions@,
                },
            },
        },
{
    let quote = text_of("'");
    proof { reveal_strlit("'"); assert(quote@ =~= quote_char()); }
    let topics = match fetched {
        Err(e) => {
            let context = text_of("Unable to fetch metadata for '").concat(topic).concat(quote.as_str());
            proof {
                reveal_strlit("Unable to fetch metadata for '");
                assert(context@ =~= fetch_failed_text(topic@));
            }
            return Err(StreamError { source: Some(e), context });
        },
        Ok(topics) => topics,
    };
    let wanted = text_of(topic);
    let mut i: usize = 0;
    while i < topics.len()
        invariant
            i <= topics@.len(),
            wanted@ == topic@,
            fetched == Ok::<Vec<TopicMetadata>, String>(topics),
            forall|j: int| 0 <= j < i ==> topics@[j].name@ != topic@,
        decreases topics@.len() - i,
    {
        if topics[i].name == wanted {
            proof {
                lemma_first_topic_index_step(topics@, topic@, i as int);
            }
            match &topics[i].error {
                Some(e) => {
                    let context = text_of("Unable to fetch topics (searching for '").concat(topic).concat("'): ").concat(e.as_str());
                    proof {
                        reveal_strlit("Unable to fetch topics (searching for '");
                        reveal_strlit("'): ");
                        assert(context@ =~= topic_error_text(topic@, e@));
                    }
                    return Err(StreamError { source: None, context });
                },
                None => {
                    return Ok(topics[i].partitions.clone());
                },
            }
        }
        i = i + 1;
    }
    proof {
        lemma_no_topic_found(topics@, topic@);
    }
    let context = text_of("Topic '").concat(topic).concat("' was not found");
    proof {
        reveal_strlit("Topic '");
        reveal_strlit("' was not found");
        assert(context@ =~= topic_not_found_text(topic@));
    }
    Err(StreamError { source: None, context })
}

} // verus!
