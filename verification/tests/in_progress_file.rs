use flatbuffers::FlatBufferBuilder;
use isis_streaming_data_types::flatbuffers_generated::run_stop_6s4t::{finish_run_stop_buffer, RunStop, RunStopArgs};
use kafka_file_writer::config::GlobalConfig;
use kafka_file_writer::decode::{DecodedMessage, EventDataFields, RunStopFields};
use kafka_file_writer::file_writer::{assignment_topics, handle_decoded_message, handle_one_message};
use kafka_file_writer::error::{FileWriterError, NexusStructureError, WriterModuleCreationError};
use kafka_file_writer::in_progress_file::{InProgressFile, StepOutcome};
use kafka_file_writer::nexus_structure::{
    plan_structure, AttributeValue, NexusFileStructure, NexusGroup, NexusStructureItem, NexusWriterModule, StructureStep,
};
use kafka_file_writer::placed_writer::PlacedWriter;
use kafka_file_writer::run_start_parameters::RunStartParameters;
use kafka_file_writer::stream::KafkaMessageMeta;
use kafka_file_writer::writer_module::{IXseblockConfig, NXeventdataConfig, WriterAction, WriterModuleConfig};
use kafka_file_writer::writer_modules::default_registry;

fn params() -> RunStartParameters {
    RunStartParameters { start_time: 1000, job_id: "job1".to_string(), ..Default::default() }
}

fn nx_writer(location: &str, topic: &str) -> PlacedWriter {
    PlacedWriter::new(
        location.to_string(),
        NexusWriterModule { module: "NXevent_data".to_string(), config: String::new() },
        &default_registry(),
        Ok(WriterModuleConfig::NXeventdata(NXeventdataConfig { topic: topic.to_string() })),
    )
    .unwrap()
}

fn ix_writer() -> PlacedWriter {
    PlacedWriter::new(
        "/se".to_string(),
        NexusWriterModule { module: "IXseblock".to_string(), config: String::new() },
        &default_registry(),
        Ok(WriterModuleConfig::IXseblock(IXseblockConfig {})),
    )
    .unwrap()
}

fn meta(topic: &str, timestamp: Option<i64>) -> KafkaMessageMeta<'_> {
    KafkaMessageMeta { topic, key: Some(b"k"), partition: 0, offset: 0, timestamp }
}

fn run_stop_payload(job_id: &str, stop_time: u64) -> Vec<u8> {
    let mut fbb = FlatBufferBuilder::new();
    let args = RunStopArgs { stop_time, run_name: None, job_id: Some(fbb.create_string(job_id)), service_id: None, command_id: None, abort: false };
    let buf = RunStop::create(&mut fbb, &args);
    finish_run_stop_buffer(&mut fbb, buf);
    fbb.finished_data().to_vec()
}

#[test]
fn test_empty_file_is_finished() {
    let p = params();
    let f = InProgressFile::empty(&p);
    assert!(f.finished());
    assert_eq!(f.job_id(), "job1");
    assert!(f.topics().is_empty());
}

#[test]
fn test_messages_go_to_subscribed_writers() {
    let p = params();
    let mut f = InProgressFile::empty(&p);
    f.add_placed_writer(nx_writer("/a", "ev_a"));
    f.add_placed_writer(ix_writer());
    f.add_placed_writer(nx_writer("/b", "ev_b"));

    let mut topics = f.topics();
    topics.sort();
    assert_eq!(topics, vec!["ev_a".to_string(), "ev_b".to_string()]);

    let run_start_actions = f.on_run_start(&p).unwrap();
    assert_eq!(
        run_start_actions,
        vec![(0, WriterAction::CreateEventDataDatasets), (1, WriterAction::Nothing), (2, WriterAction::CreateEventDataDatasets)]
    );

    let pulse = DecodedMessage::PulseMetadata { reference_time: 77 };
    assert_eq!(
        f.on_message(&meta("ev_b", Some(1500)), &pulse).unwrap(),
        vec![(2, WriterAction::AppendEventTimeZero { reference_time: 77 })]
    );
    assert_eq!(f.on_message(&meta("other", Some(1500)), &pulse).unwrap(), vec![]);
    // Before the run start: routed, but nothing written.
    assert_eq!(f.on_message(&meta("ev_a", Some(10)), &pulse).unwrap(), vec![(0, WriterAction::Nothing)]);
    // Invalid data is not fatal.
    let bad = DecodedMessage::EventData(EventDataFields { pixel_id: None, time_of_flight: None });
    assert_eq!(f.on_message(&meta("ev_a", Some(1500)), &bad).unwrap(), vec![(0, WriterAction::Nothing)]);
    assert!(!f.finished());
}

#[test]
fn test_run_stop_for_this_job_finishes_file() {
    let p = params();
    let mut f = InProgressFile::empty(&p);
    f.add_placed_writer(nx_writer("/a", "ev_a"));
    f.on_run_start(&p).unwrap();

    // A run stop for another job is ignored.
    let other = DecodedMessage::RunStop(RunStopFields { stop_time: 1, job_id: Some("job2".to_string()) });
    assert_eq!(handle_decoded_message(&meta("control", None), Some(other), &mut f).unwrap(), vec![]);
    handle_decoded_message(&meta("ev_a", Some(1800)), Some(DecodedMessage::Other), &mut f).unwrap();
    assert!(!f.finished());

    let payload = run_stop_payload("job1", 2000);
    assert_eq!(handle_one_message(&meta("control", None), Some(payload.as_slice()), &mut f).unwrap(), vec![]);
    assert!(!f.finished());
    let events = DecodedMessage::EventData(EventDataFields { pixel_id: Some(vec![4]), time_of_flight: Some(vec![9]) });
    assert_eq!(
        handle_decoded_message(&meta("ev_a", Some(1999)), Some(events), &mut f).unwrap(),
        vec![(0, WriterAction::AppendEvents { pixel_ids: vec![4], time_of_flight: vec![9] })]
    );
    assert!(!f.finished());
    handle_decoded_message(&meta("ev_a", Some(2001)), Some(DecodedMessage::Other), &mut f).unwrap();
    assert!(f.finished());
}

#[test]
fn test_undecodable_and_empty_messages_are_ignored() {
    let p = params();
    let mut f = InProgressFile::empty(&p);
    f.add_placed_writer(nx_writer("/a", "ev_a"));
    assert_eq!(handle_one_message(&meta("ev_a", Some(1500)), Some(b"garbage".as_slice()), &mut f).unwrap(), vec![]);
    assert_eq!(handle_one_message(&meta("ev_a", Some(1500)), None, &mut f).unwrap(), vec![]);
    assert_eq!(handle_decoded_message(&meta("ev_a", Some(1500)), None, &mut f).unwrap(), vec![]);
}

#[test]
fn test_assignment_topics_end_with_control_topic() {
    let p = params();
    let mut f = InProgressFile::empty(&p);
    f.add_placed_writer(nx_writer("/a", "ev_a"));
    let config = GlobalConfig { job_pool_topic: "jobs".to_string(), ..Default::default() };
    assert_eq!(assignment_topics(&f, &p, &config), vec!["ev_a".to_string(), "jobs".to_string()]);
}

fn structure_with(children: Vec<NexusStructureItem>) -> NexusFileStructure {
    NexusFileStructure {
        children: vec![NexusStructureItem::Group(NexusGroup {
            name: "entry".to_string(),
            children,
            attributes: vec![("NX_class".to_string(), AttributeValue::Text("NXentry".to_string()))],
        })],
        attributes: vec![],
    }
}

fn module(name: &str) -> NexusStructureItem {
    NexusStructureItem::WriterModule(NexusWriterModule { module: name.to_string(), config: "{}".to_string() })
}

/// The outcomes of carrying out every step of the plan with success, the writer module
/// configurations taken in turn from `configs`.
fn all_succeed(structure: &NexusFileStructure, configs: Vec<WriterModuleConfig>) -> Vec<StepOutcome> {
    let plan = plan_structure(structure, &default_registry());
    let mut configs = configs.into_iter();
    plan.steps
        .iter()
        .map(|step| match step {
            StructureStep::PlaceWriter { .. } => StepOutcome::WriterConfig(Ok(configs.next().unwrap())),
            _ => StepOutcome::Performed(Ok(())),
        })
        .collect()
}

#[test]
fn test_new_places_writers_in_document_order_and_starts_run() {
    let p = params();
    let registry = default_registry();
    let structure = structure_with(vec![module("NXevent_data"), module("IXseblock"), module("NXevent_data")]);
    let outcomes = all_succeed(
        &structure,
        vec![
            WriterModuleConfig::NXeventdata(NXeventdataConfig { topic: "ev_a".to_string() }),
            WriterModuleConfig::IXseblock(IXseblockConfig {}),
            WriterModuleConfig::NXeventdata(NXeventdataConfig { topic: "ev_b".to_string() }),
        ],
    );
    let (mut f, actions) = InProgressFile::new(&p, &structure, &registry, outcomes).unwrap();
    assert_eq!(
        actions,
        vec![(0, WriterAction::CreateEventDataDatasets), (1, WriterAction::Nothing), (2, WriterAction::CreateEventDataDatasets)]
    );
    assert_eq!(f.job_id(), "job1");
    assert_eq!(f.writer(0).unwrap().group(), "/entry");
    assert_eq!(f.writer(0).unwrap().writer_name(), "NXevent_data");
    assert_eq!(f.writer(1).unwrap().writer_name(), "IXseblock");
    assert!(f.writer(3).is_none());
    let mut topics = f.topics();
    topics.sort();
    assert_eq!(topics, vec!["ev_a".to_string(), "ev_b".to_string()]);
    // The run has started: a message within the run is written by the writer that subscribed.
    let pulse = DecodedMessage::PulseMetadata { reference_time: 5 };
    assert_eq!(
        f.on_message(&meta("ev_b", Some(1500)), &pulse).unwrap(),
        vec![(2, WriterAction::AppendEventTimeZero { reference_time: 5 })]
    );
    assert_eq!(f.on_message(&meta("ev_b", Some(999)), &pulse).unwrap(), vec![(2, WriterAction::Nothing)]);
}

#[test]
fn test_new_fails_with_first_failed_step() {
    let p = params();
    let registry = default_registry();
    let structure = structure_with(vec![module("IXseblock"), module("NXevent_data")]);
    let hdf5_error = FileWriterError::HDF5Error {
        cause: "exists".to_string(),
        file_name: "f.nxs".to_string(),
        dataset_location: "/".to_string(),
    };
    // Steps: create /entry, its NX_class attribute, the two writers, the root attributes.
    let config_error = WriterModuleCreationError::ConfigInvalid { description: "bad".to_string() };
    let outcomes = vec![
        StepOutcome::Performed(Ok(())),
        StepOutcome::Performed(Ok(())),
        StepOutcome::WriterConfig(Ok(WriterModuleConfig::IXseblock(IXseblockConfig {}))),
        StepOutcome::WriterConfig(Err(config_error.clone())),
    ];
    assert!(outcomes[3].failed());
    assert!(!outcomes[2].failed());
    let err = InProgressFile::new(&p, &structure, &registry, outcomes).err().unwrap();
    assert_eq!(
        err,
        FileWriterError::NexusStructureError(NexusStructureError::WriterModuleCreationError {
            cause: config_error,
            module_name: "NXevent_data".to_string(),
            location: "/entry".to_string(),
        })
    );

    let outcomes = vec![StepOutcome::Performed(Err(hdf5_error.clone()))];
    let err = InProgressFile::new(&p, &structure, &registry, outcomes).err().unwrap();
    assert_eq!(err, hdf5_error);
}

#[test]
fn test_new_fails_for_unknown_writer_module_after_its_steps() {
    let p = params();
    let registry = default_registry();
    let structure = structure_with(vec![module("IXseblock"), module("NXlog")]);
    let outcomes = all_succeed(&structure, vec![WriterModuleConfig::IXseblock(IXseblockConfig {})]);
    assert_eq!(outcomes.len(), 3);
    let err = InProgressFile::new(&p, &structure, &registry, outcomes).err().unwrap();
    assert_eq!(
        err,
        FileWriterError::NexusStructureError(NexusStructureError::UnknownWriterModule {
            name: "NXlog".to_string(),
            location: "/entry".to_string(),
        })
    );
}

#[test]
fn test_new_with_no_writers_has_no_topics() {
    let p = params();
    let registry = default_registry();
    let structure = structure_with(vec![]);
    let outcomes = all_succeed(&structure, vec![]);
    let (f, actions) = InProgressFile::new(&p, &structure, &registry, outcomes).unwrap();
    assert!(actions.is_empty());
    assert!(f.topics().is_empty());
    assert!(f.finished());
}
