//! Global file-writer configuration.
use vstd::prelude::*;

verus! {

/// The file writer's configuration, as read from its configuration file.
///
/// Kafka consumer settings are (key, value) pairs, each key at most once.
#[derive(Debug, Clone, Default)]
pub struct GlobalConfig {
    pub back_in_time_ms: u64,
    pub job_pool_topic: String,
    pub error_backoff_s: u64,
    pub job_pool_kafka_consumer_settings: Vec<(String, String)>,
    pub data_kafka_consumer_settings: Vec<(String, String)>,
    pub file_output_directory: String,
    pub forced_nexus_structure_filepath: Option<String>,
    pub one_file_only: bool,
}

/// The settings as mathematical (key, value) pairs.
pub open spec fn settings_view(s: Seq<(String, String)>) -> Seq<(Seq<char>, Seq<char>)> {
    s.map_values(|p: (String, String)| (p.0@, p.1@))
}

/// The Kafka key under which a consumer group is named.
pub open spec fn group_id_key() -> Seq<char> {
    seq!['g', 'r', 'o', 'u', 'p', '.', 'i', 'd']
}

/// The prefix of the generated consumer group of the data consumer.
pub open spec fn group_id_prefix() -> Seq<char> {
    seq!['k', 'a', 'f', 'k', 'a', '_', 'f', 'i', 'l', 'e', '_', 'w', 'r', 'i', 't', 'e', 'r', '-']
}

/// The data consumer's settings: the configured ones but `group.id`, followed by
/// `group.id` set to the generated name.
pub open spec fn data_settings_spec(settings: Seq<(Seq<char>, Seq<char>)>, unique_id: Seq<char>) -> Seq<(Seq<char>, Seq<char>)> {
    settings.filter(|p: (Seq<char>, Seq<char>)| p.0 != group_id_key()).push((group_id_key(), group_id_prefix() + unique_id))
}

/// Whether `c` is a lowercase hexadecimal digit.
pub open spec fn is_lower_hex_digit(c: char) -> bool {
    seq!['0', '1', '2', '3', '4', '5', '6', '7', '8', '9', 'a', 'b', 'c', 'd', 'e', 'f'].contains(c)
}

/// Whether `s` is the text of a version 4 (random) UUID in lowercase hyphenated form:
/// 36 characters, hyphens at positions 8, 13, 18 and 23 and lowercase hex digits
/// elsewhere, the version digit `4` at position 14, and the variant digit, one of
/// `8`, `9`, `a`, `b`, at position 19.
pub open spec fn is_v4_uuid_text(s: Seq<char>) -> bool {
    &&& s.len() == 36
    &&& forall|i: int| 0 <= i < 36 ==> if i == 8 || i == 13 || i == 18 || i == 23 {
        s[i] == '-'
    } else {
        is_lower_hex_digit(#[trigger] s[i])
    }
    &&& s[14] == '4'
    &&& (s[19] == '8' || s[19] == '9' || s[19] == 'a' || s[19] == 'b')
}

/// Calls `uuid::Uuid::new_v4` and renders the UUID as text with `to_string`. The UUID
/// is random, so only the form of the text is stated: `new_v4` sets the version and
/// variant bits of random ones, and `Display` writes the lowercase hyphenated form.
#[verifier::external_body]
fn new_unique_id() -> (r: String)
    ensures
        is_v4_uuid_text(r@),
{
    uuid::Uuid::new_v4().to_string()
}

fn copy_settings(settings: &Vec<(String, String)>) -> (r: Vec<(String, String)>)
    ensures
        settings_view(r@) == settings_view(settings@),
{
    let mut r: Vec<(String, String)> = Vec::new();
    let mut i: usize = 0;
    while i < settings.len()
        invariant
            i <= settings@.len(),
            settings_view(r@) == settings_view(settings@.subrange(0, i as int)),
        decreases settings@.len() - i,
    {
        let (k, v) = &settings[i];
        let ghost before = settings_view(r@);
        proof {
            assert(settings_view(settings@.subrange(0, i + 1)) =~= settings_view(settings@.subrange(0, i as int)).push((k@, v@)));
        }
        r.push((k.clone(), v.clone()));
        proof {
            assert(settings_view(r@) =~= before.push((k@, v@)));
        }
        i = i + 1;
    }
    proof {
        assert(settings@.subrange(0, i as int) =~= settings@);
    }
    r
}

/// The Kafka settings of the job pool consumer: those configured for it.
pub fn make_job_pool_kafka_client_config(config: &GlobalConfig) -> (r: Vec<(String, String)>)
    ensures
        settings_view(r@) == settings_view(config.job_pool_kafka_consumer_settings@),
{
    copy_settings(&config.job_pool_kafka_consumer_settings)
}

/// The Kafka settings of a data consumer with the generated unique id `unique_id`.
/// A configured `group.id` is overridden by `kafka_file_writer-` followed by the id.
pub fn data_consumer_settings(settings: &Vec<(String, String)>, unique_id: &str) -> (r: Vec<(String, String)>)
    ensures
        settings_view(r@) == data_settings_spec(settings_view(settings@), unique_id@),
{
    let group_key = "group.id".to_owned();
    proof {
        reveal_strlit("group.id");
        assert(group_key@ =~= group_id_key());
    }
    let ghost pred = |p: (Seq<char>, Seq<char>)| p.0 != group_id_key();
    let mut r: Vec<(String, String)> = Vec::new();
    let mut i: usize = 0;
    while i < settings.len()
        invariant
            i <= settings@.len(),
            group_key@ == group_id_key(),
            pred == (|p: (Seq<char>, Seq<char>)| p.0 != group_id_key()),
            settings_view(r@) == settings_view(settings@.subrange(0, i as int)).filter(pred),
        decreases settings@.len() - i,
    {
        let (k, v) = &settings[i];
        let ghost before = settings_view(settings@.subrange(0, i as int));
        proof {
            assert(settings_view(settings@.subrange(0, i + 1)) =~= before.push((k@, v@)));
            before.lemma_filter_push((k@, v@), pred);
        }
        if !(*k == group_key) {
            r.push((k.clone(), v.clone()));
            proof {
                assert(settings_view(r@) =~= settings_view(settings@.subrange(0, i as int)).filter(pred).push((k@, v@)));
            }
        }
        i = i + 1;
    }
    proof {
        assert(settings@.subrange(0, i as int) =~= settings@);
    }
    let group_id = "kafka_file_writer-".to_owned().concat(unique_id);
    proof {
        reveal_strlit("kafka_file_writer-");
        assert(group_id@ =~= group_id_prefix() + unique_id@);
    }
    let ghost before_push = settings_view(r@);
    r.push((group_key, group_id));
    proof {
        assert(settings_view(r@) =~= before_push.push((group_id_key(), group_id_prefix() + unique_id@)));
    }
    r
}

/// The Kafka settings of a fresh data consumer: its consumer group gets a newly generated
/// unique name, `kafka_file_writer-` followed by a random version 4 UUID, so that each
/// run reads the data topics from the start of the run.
pub fn make_data_kafka_client_config(config: &GlobalConfig) -> (r: Vec<(String, String)>)
    ensures
        exists|unique_id: Seq<char>| is_v4_uuid_text(unique_id)
            && settings_view(r@) == data_settings_spec(settings_view(config.data_kafka_consumer_settings@), unique_id),
{
    let unique_id = new_unique_id();
    data_consumer_settings(&config.data_kafka_consumer_settings, unique_id.as_str())
}

} // verus!

verus! {

/// Consumer-group law: whatever the configured settings, the data consumer's settings
/// hold exactly one `group.id`, the generated one, and keep every other setting in order.
pub proof fn lemma_data_settings_override_group_id(settings: Seq<(Seq<char>, Seq<char>)>, unique_id: Seq<char>)
    ensures
        data_settings_spec(settings, unique_id).filter(|p: (Seq<char>, Seq<char>)| p.0 == group_id_key())
            == seq![(group_id_key(), group_id_prefix() + unique_id)],
        data_settings_spec(settings, unique_id).filter(|p: (Seq<char>, Seq<char>)| p.0 != group_id_key())
            == settings.filter(|p: (Seq<char>, Seq<char>)| p.0 != group_id_key()),
{
    let is_group = |p: (Seq<char>, Seq<char>)| p.0 == group_id_key();
    let not_group = |p: (Seq<char>, Seq<char>)| p.0 != group_id_key();
    let kept = settings.filter(not_group);
    let entry = (group_id_key(), group_id_prefix() + unique_id);
    kept.lemma_filter_push(entry, is_group);
    kept.lemma_filter_push(entry, not_group);
    settings.filter_lemma(not_group);
    lemma_filter_none_pass(kept, is_group);
    lemma_filter_all_pass(kept, not_group);
}

proof fn lemma_filter_none_pass(s: Seq<(Seq<char>, Seq<char>)>, f: spec_fn((Seq<char>, Seq<char>)) -> bool)
    requires
        forall|i: int| 0 <= i < s.len() ==> !f(#[trigger] s[i]),
    ensures
        s.filter(f) == Seq::<(Seq<char>, Seq<char>)>::empty(),
    decreases s.len(),
{
    reveal(Seq::filter);
    if s.len() > 0 {
        lemma_filter_none_pass(s.drop_last(), f);
    } else {
        assert(s.filter(f) =~= Seq::<(Seq<char>, Seq<char>)>::empty());
    }
}

proof fn lemma_filter_all_pass(s: Seq<(Seq<char>, Seq<char>)>, f: spec_fn((Seq<char>, Seq<char>)) -> bool)
    requires
        forall|i: int| 0 <= i < s.len() ==> f(#[trigger] s[i]),
    ensures
        s.filter(f) == s,
    decreases s.len(),
{
    reveal(Seq::filter);
    if s.len() > 0 {
        lemma_filter_all_pass(s.drop_last(), f);
        assert(s.drop_last().push(s.last()) =~= s);
    } else {
        assert(s.filter(f) =~= s);
    }
}

} // verus!
