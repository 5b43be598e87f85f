[package]
name = "kafka_file_writer"
version = "0.1.0"
edition = "2021"
publish = false

[dependencies]
ahash = "*"
chrono = "*"
clap = { version = "*", features = ["derive"] }
clap-verbosity-flag = "*"
env_logger = "*"
hdf5 = "*"
isis_streaming_data_types = "*"
log = "*"
miette = { version = "*", features = ["fancy"] }
rdkafka = "*"
serde = { version = "*", features = ["derive"] }
serde_json = "*"
thiserror = "*"
toml = "*"
uuid = { version = "*", features = ["v4"] }

[dev-dependencies]
flatbuffers = "*"
