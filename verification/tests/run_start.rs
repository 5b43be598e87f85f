use flatbuffers::FlatBufferBuilder;
use isis_streaming_data_types::flatbuffers_generated::events_ev44::{finish_event_44_message_buffer, Event44Message, Event44MessageArgs};
use isis_streaming_data_types::flatbuffers_generated::pulse_metadata_pu00::{finish_pu_00_message_buffer, Pu00Message, Pu00MessageArgs};
use isis_streaming_data_types::flatbuffers_generated::run_start_pl72::{finish_run_start_buffer, RunStart, RunStartArgs};
use isis_streaming_data_types::flatbuffers_generated::run_stop_6s4t::{finish_run_stop_buffer, RunStop, RunStopArgs};
use kafka_file_writer::config::{data_consumer_settings, make_data_kafka_client_config, make_job_pool_kafka_client_config, GlobalConfig};
use kafka_file_writer::decode::{decode_message, DecodedMessage, EventDataFields, RunStartFields, RunStopFields};
use kafka_file_writer::error::FileWriterError;
use kafka_file_writer::file_writer::{after_file, run_start_from_message, seek_timestamp, AfterFile};
use kafka_file_writer::run_start_parameters::{RunStartParameters, StructureSource};
use kafka_file_writer::stream::{KafkaMessageMeta, StreamError};

fn make_run_start() -> Vec<u8> {
    let mut fbb = FlatBufferBuilder::new();
    let args = RunStartArgs {
        start_time: 123,
        stop_time: 456,
        run_name: Some(fbb.create_string("a_run_name")),
        instrument_name: Some(fbb.create_string("a_fake_instrument")),
        nexus_structure: Some(fbb.create_string("{}")),
        job_id: Some(fbb.create_string("a_job_id")),
        broker: None,
        service_id: Some(fbb.create_string("some_service_id")),
        filename: Some(fbb.create_string("filename")),
        n_periods: 1,
        detector_spectrum_map: None,
        metadata: None,
        control_topic: None,
    };
    let buf = RunStart::create(&mut fbb, &args);
    finish_run_start_buffer(&mut fbb, buf);
    fbb.finished_data().to_vec()
}

pub fn make_run_stop(job_id: &str, stop_time: u64) -> Vec<u8> {
    let mut fbb = FlatBufferBuilder::new();
    let args = RunStopArgs {
        stop_time,
        run_name: None,
        job_id: Some(fbb.create_string(job_id)),
        service_id: None,
        command_id: None,
        abort: false,
    };
    let buf = RunStop::create(&mut fbb, &args);
    finish_run_stop_buffer(&mut fbb, buf);
    fbb.finished_data().to_vec()
}

fn make_pulse(reference_time: i64) -> Vec<u8> {
    let mut fbb = FlatBufferBuilder::new();
    let args = Pu00MessageArgs {
        source_name: Some(fbb.create_string("source")),
        message_id: 1,
        reference_time,
        vetos: None,
        period_number: None,
        proton_charge: None,
    };
    let buf = Pu00Message::create(&mut fbb, &args);
    finish_pu_00_message_buffer(&mut fbb, buf);
    fbb.finished_data().to_vec()
}

fn make_events(pixel_id: &[i32], time_of_flight: &[i32]) -> Vec<u8> {
    let mut fbb = FlatBufferBuilder::new();
    let args = Event44MessageArgs {
        source_name: Some(fbb.create_string("source")),
        message_id: 1,
        reference_time: Some(fbb.create_vector(&[5i64])),
        reference_time_index: Some(fbb.create_vector(&[0i32])),
        time_of_flight: Some(fbb.create_vector(time_of_flight)),
        pixel_id: Some(fbb.create_vector(pixel_id)),
    };
    let buf = Event44Message::create(&mut fbb, &args);
    finish_event_44_message_buffer(&mut fbb, buf);
    fbb.finished_data().to_vec()
}

fn meta(topic: &str) -> KafkaMessageMeta<'_> {
    KafkaMessageMeta { topic, key: None, partition: 3, offset: 42, timestamp: None }
}

#[test]
fn test_wait_for_run_start() {
    let payloads: Vec<Vec<u8>> = vec![b"nonsense".to_vec(), make_run_start(), b"a different message".to_vec()];
    let m = meta("runInfo");
    let mut consumed = 0;
    let mut params = None;
    for payload in &payloads {
        consumed += 1;
        if let Some(result) = run_start_from_message(&m, Some(payload.as_slice())) {
            params = Some(result.expect("wait_for_run_start failed"));
            break;
        }
    }
    let params = params.expect("wait_for_run_start failed");

    // Run start should have been consumed, but "a different message" should remain.
    assert_eq!(payloads.len() - consumed, 1);

    assert_eq!(params.start_time, 123);
    assert_eq!(params.stop_time, 456);
    assert_eq!(params.filename, "filename");
    assert_eq!(params.nexus_structure, "{}");
    assert_eq!(params.metadata, None);
    assert_eq!(params.n_periods, 1);
    assert_eq!(params.control_topic, None);
}

#[test]
fn test_no_payload_is_no_run_start() {
    assert_eq!(run_start_from_message(&meta("runInfo"), None), None);
    let stop = make_run_stop("job", 1);
    assert_eq!(run_start_from_message(&meta("runInfo"), Some(stop.as_slice())), None);
}

#[test]
fn test_decode_message_reads_each_kind() {
    match decode_message(&make_run_start()) {
        Some(DecodedMessage::RunStart(f)) => {
            assert_eq!(f.start_time, 123);
            assert_eq!(f.filename.as_deref(), Some("filename"));
            assert_eq!(f.job_id.as_deref(), Some("a_job_id"));
            assert_eq!(f.control_topic, None);
        }
        other => panic!("not a run start: {:?}", other),
    }
    assert_eq!(
        decode_message(&make_run_stop("a_job_id", 99)),
        Some(DecodedMessage::RunStop(RunStopFields { stop_time: 99, job_id: Some("a_job_id".to_string()) }))
    );
    assert_eq!(decode_message(&make_pulse(-7)), Some(DecodedMessage::PulseMetadata { reference_time: -7 }));
    assert_eq!(
        decode_message(&make_events(&[1, 2], &[30, 40])),
        Some(DecodedMessage::EventData(EventDataFields { pixel_id: Some(vec![1, 2]), time_of_flight: Some(vec![30, 40]) }))
    );
    assert_eq!(decode_message(b"nonsense"), None);
    assert_eq!(decode_message(b""), None);
}

fn fields() -> RunStartFields {
    RunStartFields {
        start_time: 10,
        stop_time: 20,
        nexus_structure: Some("{\"children\": []}".to_string()),
        job_id: Some("job".to_string()),
        filename: Some("file.nxs".to_string()),
        n_periods: 2,
        metadata: Some("meta".to_string()),
        control_topic: Some("control".to_string()),
    }
}

#[test]
fn test_from_pl72_success() {
    let p = RunStartParameters::from_pl72(&fields(), &meta("jobs")).unwrap();
    assert_eq!(
        p,
        RunStartParameters {
            start_time: 10,
            stop_time: 20,
            nexus_structure: "{\"children\": []}".to_string(),
            job_id: "job".to_string(),
            filename: "file.nxs".to_string(),
            n_periods: 2,
            metadata: Some("meta".to_string()),
            control_topic: Some("control".to_string()),
        }
    );
}

#[test]
fn test_from_pl72_missing_items_in_order() {
    let missing = |f: RunStartFields| match RunStartParameters::from_pl72(&f, &meta("jobs")) {
        Err(FileWriterError::MissingRunStartData { missing_item, topic, partition, offset }) => {
            assert_eq!(topic, "jobs");
            assert_eq!(partition, 3);
            assert_eq!(offset, 42);
            missing_item
        }
        other => panic!("unexpected {:?}", other),
    };
    assert_eq!(missing(RunStartFields { filename: None, nexus_structure: None, job_id: None, ..fields() }), "filename");
    assert_eq!(missing(RunStartFields { nexus_structure: None, job_id: None, ..fields() }), "nexus_structure");
    assert_eq!(missing(RunStartFields { job_id: None, ..fields() }), "job_id");
}

#[test]
fn test_control_topic_and_structure_source() {
    let mut config = GlobalConfig { job_pool_topic: "job_pool".to_string(), ..Default::default() };
    let mut p = RunStartParameters::from_pl72(&fields(), &meta("jobs")).unwrap();
    assert_eq!(p.control_topic(&config), "control");
    p.control_topic = None;
    assert_eq!(p.control_topic(&config), "job_pool");

    assert_eq!(p.structure_source(&config), StructureSource::RunStart("{\"children\": []}".to_string()));
    config.forced_nexus_structure_filepath = Some("/tmp/structure.json".to_string());
    assert_eq!(p.structure_source(&config), StructureSource::LocalFile("/tmp/structure.json".to_string()));
}

#[test]
fn test_seek_timestamp_saturates() {
    let p = RunStartParameters { start_time: 10_000, ..Default::default() };
    let config = GlobalConfig { back_in_time_ms: 3_000, ..Default::default() };
    assert_eq!(seek_timestamp(&p, &config), 7_000);
    let config = GlobalConfig { back_in_time_ms: 30_000, ..Default::default() };
    assert_eq!(seek_timestamp(&p, &config), 0);
}

#[test]
fn test_after_file() {
    let config = GlobalConfig { error_backoff_s: 5, ..Default::default() };
    assert_eq!(after_file(&config, true), AfterFile::NextRun);
    assert_eq!(after_file(&config, false), AfterFile::BackOff { seconds: 5 });
    let config = GlobalConfig { one_file_only: true, ..config };
    assert_eq!(after_file(&config, false), AfterFile::Exit);
    assert_eq!(after_file(&config, true), AfterFile::Exit);
}

#[test]
fn test_data_consumer_group_id_is_overridden() {
    let settings = vec![
        ("bootstrap.servers".to_string(), "localhost:9092".to_string()),
        ("group.id".to_string(), "configured".to_string()),
        ("auto.offset.reset".to_string(), "earliest".to_string()),
    ];
    assert_eq!(
        data_consumer_settings(&settings, "1234"),
        vec![
            ("bootstrap.servers".to_string(), "localhost:9092".to_string()),
            ("auto.offset.reset".to_string(), "earliest".to_string()),
            ("group.id".to_string(), "kafka_file_writer-1234".to_string()),
        ]
    );

    let config = GlobalConfig { data_kafka_consumer_settings: settings.clone(), job_pool_kafka_consumer_settings: settings.clone(), ..Default::default() };
    let a = make_data_kafka_client_config(&config);
    let b = make_data_kafka_client_config(&config);
    assert_eq!(a.len(), 3);
    assert_eq!(a[2].0, "group.id");
    assert!(a[2].1.starts_with("kafka_file_writer-"));
    assert!(a[2].1.len() > "kafka_file_writer-".len());
    assert_ne!(a[2].1, b[2].1);
    assert_eq!(make_job_pool_kafka_client_config(&config), settings);
}

#[test]
fn test_data_consumer_group_id_ends_with_v4_uuid() {
    let config = GlobalConfig::default();
    let settings = make_data_kafka_client_config(&config);
    assert_eq!(settings.len(), 1);
    assert_eq!(settings[0].0, "group.id");
    let id: Vec<char> = settings[0].1.strip_prefix("kafka_file_writer-").unwrap().chars().collect();
    assert_eq!(id.len(), 36);
    for (i, c) in id.iter().enumerate() {
        if i == 8 || i == 13 || i == 18 || i == 23 {
            assert_eq!(*c, '-');
        } else {
            assert!(c.is_ascii_digit() || ('a'..='f').contains(c), "not a lowercase hex digit: {}", c);
        }
    }
    assert_eq!(id[14], '4');
    assert!(['8', '9', 'a', 'b'].contains(&id[19]));
}

#[test]
fn test_stream_errors() {
    let err = StreamError { source: None, context: "oops".to_string() };
    match FileWriterError::from_stream_topic(err.clone(), "a,b") {
        FileWriterError::StreamError { cause, topic, partition, offset } => {
            assert_eq!(cause, err);
            assert_eq!(topic.as_deref(), Some("a,b"));
            assert_eq!(partition, None);
            assert_eq!(offset, None);
        }
        other => panic!("unexpected {:?}", other),
    }
    match FileWriterError::from_stream_message(err.clone(), &meta("t")) {
        FileWriterError::StreamError { topic, partition, offset, .. } => {
            assert_eq!(topic.as_deref(), Some("t"));
            assert_eq!(partition, Some(3));
            assert_eq!(offset, Some(42));
        }
        other => panic!("unexpected {:?}", other),
    }
}
