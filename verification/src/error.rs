//! Top-level error definitions for runtime errors encountered during file-writing.
//!
//! Errors that come from outside the library (HDF5, Kafka, file reads, JSON parsing)
//! are carried as their rendered descriptions.
use crate::message_router::WriterId;
use crate::stream::{KafkaMessageMeta, StreamError};
use vstd::prelude::*;

verus! {

/// Error type returned by writer modules at runtime.
#[derive(Debug, Clone, PartialEq, Eq)]
pub enum WriterModuleError {
    /// Failure to write to a NeXus file.
    FailedFileWrite(String),
    /// Invalid data which the writer module is unable to
    /// consume. This is non-fatal and the writer module
    /// can accept new, valid, data in subsequent calls.
    InvalidData(String),
    /// A generic fatal error from which this writer module
    /// will not be able to recover.
    Fatal(String),
}

/// Error type returned by writer modules at configuration time.
#[derive(Debug, Clone, PartialEq, Eq)]
pub enum WriterModuleCreationError {
    /// The specified writer module does not exist.
    WriterModuleNameDoesNotExist { name: String },
    /// The writer-module configuration is semantically invalid
    /// or inconsistent, and cannot be used.
    ConfigInvalid { description: String },
    /// The configuration of this writer module failed to parse
    /// into the expected structure from JSON.
    ConfigParseError { cause: String, config_type_name: String },
}

/// Errors in a NeXus structure.
#[derive(Debug, Clone, PartialEq, Eq)]
pub enum NexusStructureError {
    /// The JSON text of the structure could not be parsed.
    FailedParse { cause: String, source_code: String, line: usize, column: usize },
    /// A child is neither a group nor a writer module.
    UnknownChildType { invalid_json: String, location: String },
    /// A writer module could not be created.
    WriterModuleCreationError { cause: WriterModuleCreationError, module_name: String, location: String },
    /// A writer module name is not in the registry.
    UnknownWriterModule { name: String, location: String },
}

/// Top-level error type for errors that can be encountered during file writing.
///
/// This type usually wraps a lower-level error type with more context about the location
/// or cause of the underlying error.
#[derive(Debug, Clone, PartialEq, Eq)]
pub enum FileWriterError {
    HDF5Error { cause: String, file_name: String, dataset_location: String },
    StreamError { cause: StreamError, topic: Option<String>, partition: Option<i32>, offset: Option<i64> },
    StringError { cause: String, dataset_location: String },
    IoError { cause: String, filename: String },
    WriterModuleError { cause: WriterModuleError, module_name: String, module_location: String },
    NexusStructureError(NexusStructureError),
    MissingRunStartData { missing_item: &'static str, topic: String, partition: i32, offset: i64 },
    WriterModuleNotFound { writer_index: WriterId },
}

impl FileWriterError {
    /// Make a StreamError related to a specific topic, but not
    /// a specific message.
    pub fn from_stream_topic(err: StreamError, topic: &str) -> (e: FileWriterError)
        ensures
            match e {
                FileWriterError::StreamError { cause, topic: Some(t), partition: None, offset: None } =>
                    cause == err && t@ == topic@,
                _ => false,
            },
    {
        FileWriterError::StreamError { cause: err, topic: Some(topic.to_owned()), partition: None, offset: None }
    }

    /// Make a StreamError related to a specific message.
    pub fn from_stream_message(err: StreamError, msg: &KafkaMessageMeta) -> (e: FileWriterError)
        ensures
            match e {
                FileWriterError::StreamError { cause, topic: Some(t), partition: Some(p), offset: Some(o) } =>
                    cause == err && t@ == msg.topic@ && p == msg.partition && o == msg.offset,
                _ => false,
            },
    {
        FileWriterError::StreamError {
            cause: err,
            topic: Some(msg.topic.to_owned()),
            partition: Some(msg.partition),
            offset: Some(msg.offset),
        }
    }

    /// Make an error describing missing data in a run start message.
    pub fn from_missing_runstart_data(missing_item: &'static str, msg: &KafkaMessageMeta) -> (e: FileWriterError)
        ensures
            match e {
                FileWriterError::MissingRunStartData { missing_item: m, topic, partition, offset } =>
                    m == missing_item && topic@ == msg.topic@ && partition == msg.partition && offset == msg.offset,
                _ => false,
            },
    {
        FileWriterError::MissingRunStartData {
            missing_item,
            topic: msg.topic.to_owned(),
            partition: msg.partition,
            offset: msg.offset,
        }
    }
}

} // verus!
