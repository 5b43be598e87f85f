# kafka_file_writer

Writes NeXus (HDF5) files from data streamed through Kafka.

The crate is split in two:

- `src/` is a library verified with Verus. It holds the decisions of the file
  writer: which writer modules a message on a topic and key goes to
  (`message_router`), how a NeXus structure turns into groups, attributes and
  writer modules (`nexus_structure`), how run start and run stop messages are read
  (`decode`, `run_start_parameters`), what the writer modules make of each message
  (`writer_module`, `placed_writer`, `in_progress_file`), and what the main loop
  does next (`file_writer`). Flatbuffer messages are decoded with
  `isis_streaming_data_types`; topic and key tables are `ahash` maps.
- `app/` is the program around it: configuration files, Kafka consumers
  (`rdkafka`), HDF5 files (`hdf5`), JSON parsing of NeXus structures (`serde_json`)
  and the command line. It performs the writes that the library returns.

`tests/` exercises the library on concrete values.
