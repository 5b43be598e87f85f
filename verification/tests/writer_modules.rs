use kafka_file_writer::decode::{DecodedMessage, EventDataFields, RunStopFields};
use kafka_file_writer::error::WriterModuleError;
use kafka_file_writer::run_start_parameters::RunStartParameters;
use kafka_file_writer::stream::KafkaMessageMeta;
use kafka_file_writer::subscription::SubscriptionKey;
use kafka_file_writer::writer_module::{
    IXseblock, IXseblockConfig, NXeventdata, NXeventdataConfig, WriterAction, WriterModule, WriterModuleConfig,
    WriterModuleInstance, WriterModuleKind, WriterModuleSpec,
};
use kafka_file_writer::writer_module_registry::WriterModuleFactories;
use kafka_file_writer::writer_modules::default_registry;

fn meta_at(timestamp: Option<i64>) -> KafkaMessageMeta<'static> {
    KafkaMessageMeta { topic: "events", key: None, partition: 0, offset: 0, timestamp }
}

fn nx() -> NXeventdata {
    NXeventdata::create(NXeventdataConfig { topic: "events".to_string() }).unwrap().module
}

#[test]
fn test_default_registry_does_not_have_duplicate_names() {
    assert!(
        !default_registry().has_duplicated_module_names(),
        "Default registry has modules with duplicate names"
    );
}

#[test]
fn test_default_registry_knows_both_modules() {
    let registry = default_registry();
    assert_eq!(registry.get("IXseblock"), Some(WriterModuleKind::IXseblock));
    assert_eq!(registry.get("NXevent_data"), Some(WriterModuleKind::NXeventdata));
    assert_eq!(registry.get("NXlog"), None);
}

#[test]
fn test_registering_a_name_twice_is_recorded() {
    let mut registry = WriterModuleFactories::empty();
    assert!(!registry.has_duplicated_module_names());
    registry.register_module(WriterModuleKind::NXeventdata);
    assert!(!registry.has_duplicated_module_names());
    registry.register_module(WriterModuleKind::NXeventdata);
    assert!(registry.has_duplicated_module_names());
    assert_eq!(registry.get("NXevent_data"), Some(WriterModuleKind::NXeventdata));
}

#[test]
fn test_module_names() {
    assert_eq!(WriterModuleKind::IXseblock.name(), "IXseblock");
    assert_eq!(WriterModuleKind::NXeventdata.name(), "NXevent_data");
    assert_eq!(IXseblock::name(), "IXseblock");
    assert_eq!(NXeventdata::name(), "NXevent_data");
}

#[test]
fn test_ixseblock_writes_nothing_and_is_finished() {
    let mut m = IXseblock::create(IXseblockConfig {}).unwrap().module;
    let params = RunStartParameters::default();
    assert_eq!(m.on_run_start(&params), Ok(WriterAction::Nothing));
    assert_eq!(m.on_message(&meta_at(Some(5)), &DecodedMessage::PulseMetadata { reference_time: 1 }), Ok(WriterAction::Nothing));
    assert_eq!(m.on_run_stop(&meta_at(None), &RunStopFields { stop_time: 1, job_id: None }), Ok(()));
    assert_eq!(m.flush(), Ok(()));
    assert!(m.finished());
}

#[test]
fn test_create_subscriptions() {
    let created = WriterModuleKind::NXeventdata
        .create(WriterModuleConfig::NXeventdata(NXeventdataConfig { topic: "det_events".to_string() }))
        .unwrap();
    assert_eq!(created.subscriptions.len(), 1);
    assert_eq!(created.subscriptions[0].topic(), "det_events");
    assert_eq!(created.subscriptions[0].key(), &SubscriptionKey::All);

    let created = WriterModuleKind::IXseblock.create(WriterModuleConfig::IXseblock(IXseblockConfig {})).unwrap();
    assert!(created.subscriptions.is_empty());
    assert!(created.module.finished());
}

#[test]
fn test_nxeventdata_run_start_creates_datasets() {
    let mut m = nx();
    let params = RunStartParameters { start_time: 1000, ..Default::default() };
    assert_eq!(m.on_run_start(&params), Ok(WriterAction::CreateEventDataDatasets));
    assert_eq!(m.run_start_time_ms, 1000);
}

#[test]
fn test_nxeventdata_writes_pulses_and_events_within_the_run() {
    let mut m = nx();
    m.run_start_time_ms = 1000;
    let pulse = DecodedMessage::PulseMetadata { reference_time: 1234 };
    assert_eq!(
        m.on_message(&meta_at(Some(1500)), &pulse),
        Ok(WriterAction::AppendEventTimeZero { reference_time: 1234 })
    );
    assert_eq!(m.latest_message_time_ms, 1500);

    let events = DecodedMessage::EventData(EventDataFields {
        pixel_id: Some(vec![1, 2, 3]),
        time_of_flight: Some(vec![10, 20, 30]),
    });
    assert_eq!(
        m.on_message(&meta_at(None), &events),
        Ok(WriterAction::AppendEvents { pixel_ids: vec![1, 2, 3], time_of_flight: vec![10, 20, 30] })
    );
    assert_eq!(m.latest_message_time_ms, 1500);
    assert_eq!(m.on_message(&meta_at(Some(1600)), &DecodedMessage::Other), Ok(WriterAction::Nothing));
}

#[test]
fn test_nxeventdata_ignores_messages_outside_the_run() {
    let mut m = nx();
    m.run_start_time_ms = 1000;
    m.run_stop_time_ms = 2000;
    let pulse = DecodedMessage::PulseMetadata { reference_time: 5 };
    assert_eq!(m.on_message(&meta_at(Some(999)), &pulse), Ok(WriterAction::Nothing));
    assert_eq!(m.latest_message_time_ms, 999);
    assert_eq!(m.on_message(&meta_at(Some(2001)), &pulse), Ok(WriterAction::Nothing));
    assert_eq!(m.latest_message_time_ms, 2001);
    assert_eq!(
        m.on_message(&meta_at(Some(2000)), &pulse),
        Ok(WriterAction::AppendEventTimeZero { reference_time: 5 })
    );
}

#[test]
fn test_nxeventdata_invalid_events() {
    let mut m = nx();
    let no_pixels = DecodedMessage::EventData(EventDataFields { pixel_id: None, time_of_flight: Some(vec![1]) });
    assert_eq!(
        m.on_message(&meta_at(None), &no_pixels),
        Err(WriterModuleError::InvalidData("Missing pixel_id".to_string()))
    );
    let no_tof = DecodedMessage::EventData(EventDataFields { pixel_id: Some(vec![1]), time_of_flight: None });
    assert_eq!(
        m.on_message(&meta_at(None), &no_tof),
        Err(WriterModuleError::InvalidData("Missing time_of_flight".to_string()))
    );
    let mismatch = DecodedMessage::EventData(EventDataFields { pixel_id: Some(vec![1, 2]), time_of_flight: Some(vec![1]) });
    assert_eq!(
        m.on_message(&meta_at(None), &mismatch),
        Err(WriterModuleError::InvalidData(
            "pixel_id length 2 does not match time_of_flight length 1".to_string()
        ))
    );
}

#[test]
fn test_nxeventdata_length_mismatch_names_both_lengths_in_decimal() {
    let mut m = nx();
    let mismatch = DecodedMessage::EventData(EventDataFields { pixel_id: Some(vec![7; 120]), time_of_flight: Some(vec![]) });
    assert_eq!(
        m.on_message(&meta_at(None), &mismatch),
        Err(WriterModuleError::InvalidData(
            "pixel_id length 120 does not match time_of_flight length 0".to_string()
        ))
    );
    let mismatch = DecodedMessage::EventData(EventDataFields { pixel_id: Some(vec![1; 9]), time_of_flight: Some(vec![1; 10]) });
    assert_eq!(
        m.on_message(&meta_at(None), &mismatch),
        Err(WriterModuleError::InvalidData(
            "pixel_id length 9 does not match time_of_flight length 10".to_string()
        ))
    );
}

#[test]
fn test_nxeventdata_finishes_after_run_stop_and_late_enough_message() {
    let mut m = WriterModuleInstance::NXeventdata(nx());
    assert!(!m.finished());
    m.on_run_stop(&meta_at(None), &RunStopFields { stop_time: 3000, job_id: None }).unwrap();
    assert!(!m.finished());
    m.on_message(&meta_at(Some(2999)), &DecodedMessage::Other).unwrap();
    assert!(!m.finished());
    m.on_message(&meta_at(Some(3000)), &DecodedMessage::Other).unwrap();
    assert!(m.finished());
    assert_eq!(m.flush(), Ok(()));
}
