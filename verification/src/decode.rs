//! Decoding of the flatbuffer messages that the file writer reads from Kafka.
//!
//! `isis_streaming_data_types::deserialize_message` does the decoding; the wrappers
//! here hand its result on as plain values.
use isis_streaming_data_types::{deserialize_message, DeserializedMessage};
use vstd::prelude::*;

verus! {

/// The parts of a pl72 run start message that the file writer reads.
#[derive(Debug, Clone, PartialEq, Eq, Default)]
pub struct RunStartFields {
    pub start_time: u64,
    pub stop_time: u64,
    pub nexus_structure: Option<String>,
    pub job_id: Option<String>,
    pub filename: Option<String>,
    pub n_periods: u32,
    pub metadata: Option<String>,
    pub control_topic: Option<String>,
}

/// The parts of a 6s4t run stop message that the file writer reads.
#[derive(Debug, Clone, PartialEq, Eq, Default)]
pub struct RunStopFields {
    pub stop_time: u64,
    pub job_id: Option<String>,
}

/// The parts of an ev44 event message that the file writer reads.
#[derive(Debug, Clone, PartialEq, Eq, Default)]
pub struct EventDataFields {
    pub pixel_id: Option<Vec<i32>>,
    pub time_of_flight: Option<Vec<i32>>,
}

/// A decoded message, as far as the file writer reads it.
#[derive(Debug, Clone, PartialEq, Eq)]
pub enum DecodedMessage {
    RunStart(RunStartFields),
    RunStop(RunStopFields),
    /// A pu00 pulse metadata message.
    PulseMetadata { reference_time: i64 },
    EventData(EventDataFields),
    /// Any other message type that decodes.
    Other,
}

pub open spec fn opt_str_view(s: Option<String>) -> Option<Seq<char>> {
    match s {
        Some(s) => Some(s@),
        None => None,
    }
}

pub open spec fn opt_vec_view(v: Option<Vec<i32>>) -> Option<Seq<i32>> {
    match v {
        Some(v) => Some(v@),
        None => None,
    }
}

pub struct RunStartFieldsView {
    pub start_time: u64,
    pub stop_time: u64,
    pub nexus_structure: Option<Seq<char>>,
    pub job_id: Option<Seq<char>>,
    pub filename: Option<Seq<char>>,
    pub n_periods: u32,
    pub metadata: Option<Seq<char>>,
    pub control_topic: Option<Seq<char>>,
}

pub struct RunStopFieldsView {
    pub stop_time: u64,
    pub job_id: Option<Seq<char>>,
}

pub struct EventDataFieldsView {
    pub pixel_id: Option<Seq<i32>>,
    pub time_of_flight: Option<Seq<i32>>,
}

pub enum DecodedMessageView {
    RunStart(RunStartFieldsView),
    RunStop(RunStopFieldsView),
    PulseMetadata { reference_time: i64 },
    EventData(EventDataFieldsView),
    Other,
}

impl View for RunStartFields {
    type V = RunStartFieldsView;

    open spec fn view(&self) -> RunStartFieldsView {
        RunStartFieldsView {
            start_time: self.start_time,
            stop_time: self.stop_time,
            nexus_structure: opt_str_view(self.nexus_structure),
            job_id: opt_str_view(self.job_id),
            filename: opt_str_view(self.filename),
            n_periods: self.n_periods,
            metadata: opt_str_view(self.metadata),
            control_topic: opt_str_view(self.control_topic),
        }
    }
}

impl View for RunStopFields {
    type V = RunStopFieldsView;

    open spec fn view(&self) -> RunStopFieldsView {
        RunStopFieldsView { stop_time: self.stop_time, job_id: opt_str_view(self.job_id) }
    }
}

impl View for EventDataFields {
    type V = EventDataFieldsView;

    open spec fn view(&self) -> EventDataFieldsView {
        EventDataFieldsView { pixel_id: opt_vec_view(self.pixel_id), time_of_flight: opt_vec_view(self.time_of_flight) }
    }
}

impl View for DecodedMessage {
    type V = DecodedMessageView;

    open spec fn view(&self) -> DecodedMessageView {
        match self {
            DecodedMessage::RunStart(f) => DecodedMessageView::RunStart(f@),
            DecodedMessage::RunStop(f) => DecodedMessageView::RunStop(f@),
            DecodedMessage::PulseMetadata { reference_time } => DecodedMessageView::PulseMetadata { reference_time: *reference_time },
            DecodedMessage::EventData(f) => DecodedMessageView::EventData(f@),
            DecodedMessage::Other => DecodedMessageView::Other,
        }
    }
}

/// What `isis_streaming_data_types::deserialize_message` gives for `payload`, as far as
/// the file writer reads it; `None` where it returns an error.
pub uninterp spec fn deserialized(payload: Seq<u8>) -> Option<DecodedMessageView>;

/// Calls `deserialize_message`: tells whether the payload decodes at all.
#[verifier::external_body]
fn deserializes(payload: &[u8]) -> (r: bool)
    ensures
        r == deserialized(payload@) is Some,
{
    deserialize_message(payload).is_ok()
}

/// Calls `deserialize_message` and, where it yields a pl72 run start, reads that
/// message's fields.
#[verifier::external_body]
fn decode_run_start(payload: &[u8]) -> (r: Option<RunStartFields>)
    ensures
        match r {
            Some(f) => deserialized(payload@) == Some(DecodedMessageView::RunStart(f@)),
            None => !(deserialized(payload@) matches Some(DecodedMessageView::RunStart(_))),
        },
{
    match deserialize_message(payload) {
        Ok(DeserializedMessage::RunStartPl72(m)) => Some(RunStartFields {
            start_time: m.start_time(),
            stop_time: m.stop_time(),
            nexus_structure: m.nexus_structure().map(String::from),
            job_id: m.job_id().map(String::from),
            filename: m.filename().map(String::from),
            n_periods: m.n_periods(),
            metadata: m.metadata().map(String::from),
            control_topic: m.control_topic().map(String::from),
        }),
        _ => None,
    }
}

/// Calls `deserialize_message` and, where it yields a 6s4t run stop, reads that
/// message's fields.
#[verifier::external_body]
fn decode_run_stop(payload: &[u8]) -> (r: Option<RunStopFields>)
    ensures
        match r {
            Some(f) => deserialized(payload@) == Some(DecodedMessageView::RunStop(f@)),
            None => !(deserialized(payload@) matches Some(DecodedMessageView::RunStop(_))),
        },
{
    match deserialize_message(payload) {
        Ok(DeserializedMessage::RunStop6s4t(m)) => Some(RunStopFields {
            stop_time: m.stop_time(),
            job_id: m.job_id().map(String::from),
        }),
        _ => None,
    }
}

/// Calls `deserialize_message` and, where it yields a pu00 pulse metadata message,
/// reads its reference time.
#[verifier::external_body]
fn decode_pulse_metadata(payload: &[u8]) -> (r: Option<i64>)
    ensures
        match r {
            Some(t) => deserialized(payload@) == Some(DecodedMessageView::PulseMetadata { reference_time: t }),
            None => !(deserialized(payload@) matches Some(DecodedMessageView::PulseMetadata { .. })),
        },
{
    match deserialize_message(payload) {
        Ok(DeserializedMessage::PulseMetadataPu00(m)) => Some(m.reference_time()),
        _ => None,
    }
}

/// Calls `deserialize_message` and, where it yields an ev44 event message, reads its
/// pixel ids and times of flight.
#[verifier::external_body]
fn decode_event_data(payload: &[u8]) -> (r: Option<EventDataFields>)
    ensures
        match r {
            Some(f) => deserialized(payload@) == Some(DecodedMessageView::EventData(f@)),
            None => !(deserialized(payload@) matches Some(DecodedMessageView::EventData(_))),
        },
{
    match deserialize_message(payload) {
        Ok(DeserializedMessage::EventDataEv44(m)) => Some(EventDataFields {
            pixel_id: m.pixel_id().map(|v| v.iter().collect()),
            time_of_flight: m.time_of_flight().map(|v| v.iter().collect()),
        }),
        _ => None,
    }
}

pub open spec fn opt_decoded_view(m: Option<DecodedMessage>) -> Option<DecodedMessageView> {
    match m {
        Some(m) => Some(m@),
        None => None,
    }
}

/// Decode an arbitrary message from Kafka: `None` where it cannot be decoded.
pub fn decode_message(payload: &[u8]) -> (r: Option<DecodedMessage>)
    ensures
        opt_decoded_view(r) == deserialized(payload@),
{
    if let Some(f) = decode_event_data(payload) {
        return Some(DecodedMessage::EventData(f));
    }
    if let Some(t) = decode_pulse_metadata(payload) {
        return Some(DecodedMessage::PulseMetadata { reference_time: t });
    }
    if let Some(f) = decode_run_stop(payload) {
        return Some(DecodedMessage::RunStop(f));
    }
    if let Some(f) = decode_run_start(payload) {
        return Some(DecodedMessage::RunStart(f));
    }
    if deserializes(payload) {
        Some(DecodedMessage::Other)
    } else {
        None
    }
}

} // verus!
