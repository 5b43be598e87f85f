//! Verified core of a Kafka-to-NeXus file writer.
//!
//! The library holds the decisions of the file writer: how messages are routed to
//! writer modules, how a NeXus structure turns into groups, attributes and writer
//! modules, how run start and run stop messages are read, and when a file is done.
//! Reading from Kafka and writing HDF5 files happens outside this crate, driven by
//! the values that the functions here return.
pub mod subscription;
pub mod hash_tables;
pub mod stream;
pub mod message_router;
pub mod error;
pub mod config;
pub mod decode;
pub mod run_start_parameters;
pub mod writer_module;
pub mod writer_module_registry;
pub mod writer_modules;
pub mod nexus_structure;
pub mod placed_writer;
pub mod in_progress_file;
pub mod file_writer;
