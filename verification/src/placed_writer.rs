//! A writer module together with the NeXus location it writes to.
use crate::decode::{DecodedMessage, RunStopFields};
use crate::error::{FileWriterError, NexusStructureError, WriterModuleCreationError, WriterModuleError};
use crate::nexus_structure::NexusWriterModule;
use crate::run_start_parameters::RunStartParameters;
use crate::stream::KafkaMessageMeta;
use crate::subscription::{Subscription, SubscriptionView};
use crate::writer_module::{created_subscriptions, is_fresh_module, module_after_message, module_after_run_start, module_after_run_stop, module_message_outcome, module_run_start_action, MessageOutcome, WriterAction, WriterModule, WriterModuleConfig, WriterModuleInstance};
use crate::writer_module_registry::WriterModuleFactories;
use vstd::prelude::*;

verus! {

#[derive(Debug)]
pub struct PlacedWriter {
    location: String,
    writer: WriterModuleInstance,
    writer_name: String,
    subscriptions: Vec<Subscription>,
}

/// Mathematical model of a `PlacedWriter`.
pub struct PlacedWriterView {
    /// The location of the group the module writes to.
    pub location: Seq<char>,
    /// The name of the module's kind.
    pub name: Seq<char>,
    pub writer: WriterModuleInstance,
    pub subscriptions: Seq<SubscriptionView>,
}

impl View for PlacedWriter {
    type V = PlacedWriterView;

    closed spec fn view(&self) -> PlacedWriterView {
        PlacedWriterView {
            location: self.location@,
            name: self.writer_name@,
            writer: self.writer,
            subscriptions: self.subscriptions@.map_values(|s: Subscription| s@),
        }
    }
}

/// Whether `e` is the error of the module `name` at `location` failing with `cause`.
pub open spec fn is_module_error(e: FileWriterError, cause: WriterModuleError, name: Seq<char>, location: Seq<char>) -> bool {
    match e {
        FileWriterError::WriterModuleError { cause: c, module_name, module_location } =>
            c == cause && module_name@ == name && module_location@ == location,
        _ => false,
    }
}

/// The result of a placed writer for a message, given what its module made of it:
/// invalid data is not fatal, the module simply writes nothing.
pub open spec fn placed_result_matches(r: Result<WriterAction, FileWriterError>, o: MessageOutcome) -> bool {
    match o {
        MessageOutcome::Write(a) => r matches Ok(x) && x@ == a,
        MessageOutcome::Invalid(_) => r == Ok::<WriterAction, FileWriterError>(WriterAction::Nothing),
    }
}

impl PlacedWriter {
    /// Place a writer module named by `spec` at `location`. `config` is the module's
    /// configuration as parsed for the kind that `factories` registers under its name.
    pub fn new(
        location: String,
        spec: NexusWriterModule,
        factories: &WriterModuleFactories,
        config: Result<WriterModuleConfig, WriterModuleCreationError>,
    ) -> (r: Result<PlacedWriter, NexusStructureError>)
        requires
            factories@.contains_key(spec.module@) ==> (config matches Ok(c) ==> c.spec_kind() == factories@[spec.module@]),
        ensures
            !factories@.contains_key(spec.module@) ==> (r matches Err(NexusStructureError::UnknownWriterModule { name, location: l })
                && name@ == spec.module@ && l@ == location@),
            factories@.contains_key(spec.module@) ==> match config {
                Err(cause) => r matches Err(NexusStructureError::WriterModuleCreationError { cause: c, module_name, location: l })
                    && c == cause && module_name@ == spec.module@ && l@ == location@,
                Ok(c) => r matches Ok(p) && p@.location == location@ && p@.name == spec.module@
                    && is_fresh_module(p@.writer, c) && p@.subscriptions == created_subscriptions(c),
            },
    {
        let kind = match factories.get(spec.module.as_str()) {
            Some(kind) => kind,
            None => {
                return Err(NexusStructureError::UnknownWriterModule { location, name: spec.module });
            },
        };
        let config = match config {
            Ok(c) => c,
            Err(e) => {
                return Err(NexusStructureError::WriterModuleCreationError { cause: e, location, module_name: spec.module });
            },
        };
        let create_result = match kind.create(config) {
            Ok(c) => c,
            Err(e) => {
                return Err(NexusStructureError::WriterModuleCreationError { cause: e, location, module_name: spec.module });
            },
        };
        Ok(PlacedWriter {
            writer_name: spec.module,
            writer: create_result.module,
            location,
            subscriptions: create_result.subscriptions,
        })
    }

    pub fn writer(&mut self) -> (w: &mut WriterModuleInstance)
        ensures
            *w == old(self)@.writer,
            final(self)@ == (PlacedWriterView { writer: *final(w), ..old(self)@ }),
    {
        &mut self.writer
    }

    /// The location of the group the module writes to.
    pub fn group(&self) -> (g: &str)
        ensures
            g@ == self@.location,
    {
        self.location.as_str()
    }

    pub fn on_message(&mut self, meta: &KafkaMessageMeta, msg: &DecodedMessage) -> (r: Result<WriterAction, FileWriterError>)
        ensures
            final(self)@ == (PlacedWriterView { writer: module_after_message(old(self)@.writer, meta.timestamp), ..old(self)@ }),
            placed_result_matches(r, module_message_outcome(old(self)@.writer, meta.timestamp, msg@)),
    {
        match self.writer.on_message(meta, msg) {
            Ok(a) => Ok(a),
            Err(WriterModuleError::InvalidData(_)) => Ok(WriterAction::Nothing),
            Err(e) => Err(FileWriterError::WriterModuleError {
                cause: e,
                module_location: self.location.clone(),
                module_name: self.writer_name.clone(),
            }),
        }
    }

    pub fn on_run_start(&mut self, parameters: &RunStartParameters) -> (r: Result<WriterAction, FileWriterError>)
        ensures
            final(self)@ == (PlacedWriterView { writer: module_after_run_start(old(self)@.writer, parameters.start_time), ..old(self)@ }),
            r matches Ok(a) && a@ == module_run_start_action(old(self)@.writer),
    {
        match self.writer.on_run_start(parameters) {
            Ok(a) => Ok(a),
            Err(e) => Err(FileWriterError::WriterModuleError {
                cause: e,
                module_location: self.location.clone(),
                module_name: self.writer_name.clone(),
            }),
        }
    }

    pub fn on_run_stop(&mut self, meta: &KafkaMessageMeta, msg: &RunStopFields) -> (r: Result<(), FileWriterError>)
        ensures
            final(self)@ == (PlacedWriterView { writer: module_after_run_stop(old(self)@.writer, msg.stop_time), ..old(self)@ }),
            r is Ok,
    {
        match self.writer.on_run_stop(meta, msg) {
            Ok(()) => Ok(()),
            Err(e) => Err(FileWriterError::WriterModuleError {
                cause: e,
                module_location: self.location.clone(),
                module_name: self.writer_name.clone(),
            }),
        }
    }

    pub fn flush(&mut self) -> (r: Result<(), FileWriterError>)
        ensures
            final(self)@ == old(self)@,
            r is Ok,
    {
        match self.writer.flush() {
            Ok(()) => Ok(()),
            Err(e) => Err(FileWriterError::WriterModuleError {
                cause: e,
                module_location: self.location.clone(),
                module_name: self.writer_name.clone(),
            }),
        }
    }

    /// The name of the module's kind, as the NeXus structure gave it.
    pub fn writer_name(&self) -> (n: &str)
        ensures
            n@ == self@.name,
    {
        self.writer_name.as_str()
    }

    pub fn subscriptions(&self) -> (s: &[Subscription])
        ensures
            s@.map_values(|x: Subscription| x@) == self@.subscriptions,
    {
        self.subscriptions.as_slice()
    }
}

} // verus!

verus! {

impl PlacedWriter {
    /// Read access to the writer module.
    pub fn writer_ref(&self) -> (w: &WriterModuleInstance)
        ensures
            *w == self@.writer,
    {
        &self.writer
    }
}

} // verus!
