//! Writer modules: what each kind of writer module does with the messages of a run.
//!
//! A writer module decides; the HDF5 writes that it asks for are returned as
//! `WriterAction`s, which the caller performs on the module's group.
use crate::decode::{DecodedMessage, DecodedMessageView, RunStopFields};
use crate::error::WriterModuleError;
use crate::run_start_parameters::RunStartParameters;
use crate::stream::KafkaMessageMeta;
use crate::subscription::{Subscription, SubscriptionKey, SubscriptionKeyView, SubscriptionView};
use vstd::prelude::*;

verus! {

/// The kinds of writer module that the file writer knows.
#[derive(Debug, Clone, Copy, PartialEq, Eq, Structural)]
pub enum WriterModuleKind {
    IXseblock,
    NXeventdata,
}

pub open spec fn ixseblock_name() -> Seq<char> {
    seq!['I', 'X', 's', 'e', 'b', 'l', 'o', 'c', 'k']
}

pub open spec fn nxeventdata_name() -> Seq<char> {
    seq!['N', 'X', 'e', 'v', 'e', 'n', 't', '_', 'd', 'a', 't', 'a']
}

/// The name by which a NeXus structure refers to a kind of writer module.
pub open spec fn kind_name(kind: WriterModuleKind) -> Seq<char> {
    match kind {
        WriterModuleKind::IXseblock => ixseblock_name(),
        WriterModuleKind::NXeventdata => nxeventdata_name(),
    }
}

impl WriterModuleKind {
    /// The name of this writer module, as referred to in `nexus_structure`.
    /// This is unique among all writer modules.
    pub fn name(&self) -> (n: &'static str)
        ensures
            n@ == kind_name(*self),
    {
        proof {
            reveal_strlit("IXseblock");
            reveal_strlit("NXevent_data");
        }
        match self {
            WriterModuleKind::IXseblock => {
                assert("IXseblock"@ =~= ixseblock_name());
                "IXseblock"
            },
            WriterModuleKind::NXeventdata => {
                assert("NXevent_data"@ =~= nxeventdata_name());
                "NXevent_data"
            },
        }
    }
}

/// Configuration of an IXseblock writer module: it takes no parameters.
#[derive(Debug, Clone, PartialEq, Eq, Default)]
pub struct IXseblockConfig {}

/// Configuration of an NXevent_data writer module.
#[derive(Debug, Clone, PartialEq, Eq, Default)]
pub struct NXeventdataConfig {
    /// The topic carrying the pulse and event messages.
    pub topic: String,
}

/// The configuration of a writer module, as parsed for its kind.
#[derive(Debug, Clone, PartialEq, Eq)]
pub enum WriterModuleConfig {
    IXseblock(IXseblockConfig),
    NXeventdata(NXeventdataConfig),
}

impl WriterModuleConfig {
    pub open spec fn spec_kind(&self) -> WriterModuleKind {
        match self {
            WriterModuleConfig::IXseblock(_) => WriterModuleKind::IXseblock,
            WriterModuleConfig::NXeventdata(_) => WriterModuleKind::NXeventdata,
        }
    }

    /// The kind of writer module this configuration is for.
    pub fn kind(&self) -> (k: WriterModuleKind)
        ensures
            k == self.spec_kind(),
    {
        match self {
            WriterModuleConfig::IXseblock(_) => WriterModuleKind::IXseblock,
            WriterModuleConfig::NXeventdata(_) => WriterModuleKind::NXeventdata,
        }
    }
}

/// Result of creating a writer module.
pub struct WriterModuleCreateResult<T> {
    /// The writer module
    pub module: T,
    /// Subscriptions defining which Kafka streams this writer
    /// needs to listen to.
    pub subscriptions: Vec<Subscription>,
}

/// An HDF5 write that a writer module asks for, on its own group.
#[derive(Debug, Clone, PartialEq, Eq)]
pub enum WriterAction {
    /// Nothing to write.
    Nothing,
    /// Create the resizable datasets `event_time_zero` (f64), `event_id` (u32) and
    /// `event_time_offset` (f32), and the attribute `NX_class` = `NXevent_data`.
    CreateEventDataDatasets,
    /// Append one pulse time to `event_time_zero`.
    AppendEventTimeZero { reference_time: i64 },
    /// Append the events of one message: the pixel ids, divided by 1000, to `event_id`
    /// and the times of flight to `event_time_offset`.
    AppendEvents { pixel_ids: Vec<i32>, time_of_flight: Vec<i32> },
}

pub enum WriterActionView {
    Nothing,
    CreateEventDataDatasets,
    AppendEventTimeZero { reference_time: i64 },
    AppendEvents { pixel_ids: Seq<i32>, time_of_flight: Seq<i32> },
}

impl View for WriterAction {
    type V = WriterActionView;

    open spec fn view(&self) -> WriterActionView {
        match self {
            WriterAction::Nothing => WriterActionView::Nothing,
            WriterAction::CreateEventDataDatasets => WriterActionView::CreateEventDataDatasets,
            WriterAction::AppendEventTimeZero { reference_time } => WriterActionView::AppendEventTimeZero { reference_time: *reference_time },
            WriterAction::AppendEvents { pixel_ids, time_of_flight } => WriterActionView::AppendEvents { pixel_ids: pixel_ids@, time_of_flight: time_of_flight@ },
        }
    }
}

/// What a writer module makes of a message: an action, or a complaint about invalid data.
pub enum MessageOutcome {
    Write(WriterActionView),
    Invalid(Seq<char>),
}

/// Whether a writer module's result matches an outcome.
pub open spec fn result_matches(r: Result<WriterAction, WriterModuleError>, o: MessageOutcome) -> bool {
    match r {
        Ok(a) => o == MessageOutcome::Write(a@),
        Err(WriterModuleError::InvalidData(s)) => o == MessageOutcome::Invalid(s@),
        Err(_) => false,
    }
}

/// Runtime behaviour of a writer module: what it makes of the events of a run.
pub trait WriterModule: Sized {
    /// Called once, when a run start message is received.
    fn on_run_start(&mut self, run_start_parameters: &RunStartParameters) -> Result<WriterAction, WriterModuleError>;

    /// Called for each received message which matched a subscription provided by
    /// this module.
    fn on_message(&mut self, meta: &KafkaMessageMeta, message: &DecodedMessage) -> Result<WriterAction, WriterModuleError>;

    /// Called when a run-stop message is received.
    fn on_run_stop(&mut self, meta: &KafkaMessageMeta, message: &RunStopFields) -> Result<(), WriterModuleError>;

    /// Ensure that any local state is reflected in the NeXus file, in an
    /// internally-consistent way.
    fn flush(&mut self) -> Result<(), WriterModuleError>;

    /// Has this writer module finished writing, after a run-stop was received?
    fn finished(&self) -> bool;
}

/// Creation parameters for writer modules of this type.
pub trait WriterModuleSpec: WriterModule {
    /// The configuration parameters for this type.
    type Config;

    /// The name of this writer module, as referred to in `nexus_structure`.
    fn name() -> &'static str;

    /// Create the writer module.
    fn create(config: Self::Config) -> Result<WriterModuleCreateResult<Self>, crate::error::WriterModuleCreationError>;
}

/// An IXseblock writer module. It writes nothing yet.
#[derive(Debug)]
pub struct IXseblock {
    pub config: IXseblockConfig,
}

/// An NXevent_data writer module: writes the pulse times and events of the run.
#[derive(Debug)]
pub struct NXeventdata {
    pub config: NXeventdataConfig,
    pub run_start_time_ms: u64,
    pub run_stop_time_ms: u64,
    pub latest_message_time_ms: u64,
}

/// A writer module of one of the kinds that the file writer knows.
#[derive(Debug)]
pub enum WriterModuleInstance {
    IXseblock(IXseblock),
    NXeventdata(NXeventdata),
}

/// The decimal digit `d`, for `d < 10`.
pub open spec fn digit_char(d: nat) -> char {
    seq!['0', '1', '2', '3', '4', '5', '6', '7', '8', '9'][d as int]
}

/// The decimal notation of `n`: its digits, most significant first, with no leading zero.
pub open spec fn decimal(n: nat) -> Seq<char>
    decreases n,
{
    if n < 10 {
        seq![digit_char(n)]
    } else {
        decimal(n / 10).push(digit_char(n % 10))
    }
}

/// The text of the complaint about event messages whose pixel ids and times of flight
/// differ in number.
pub open spec fn length_mismatch_text(pixel_ids_len: usize, time_of_flight_len: usize) -> Seq<char> {
    "pixel_id length "@ + decimal(pixel_ids_len as nat) + " does not match time_of_flight length "@ + decimal(time_of_flight_len as nat)
}

fn digit_str(d: usize) -> (s: &'static str)
    requires
        d < 10,
    ensures
        s@ == seq![digit_char(d as nat)],
{
    proof {
        reveal_strlit("0");
        reveal_strlit("1");
        reveal_strlit("2");
        reveal_strlit("3");
        reveal_strlit("4");
        reveal_strlit("5");
        reveal_strlit("6");
        reveal_strlit("7");
        reveal_strlit("8");
        reveal_strlit("9");
    }
    let s = if d == 0 {
        "0"
    } else if d == 1 {
        "1"
    } else if d == 2 {
        "2"
    } else if d == 3 {
        "3"
    } else if d == 4 {
        "4"
    } else if d == 5 {
        "5"
    } else if d == 6 {
        "6"
    } else if d == 7 {
        "7"
    } else if d == 8 {
        "8"
    } else {
        "9"
    };
    assert(s@ =~= seq![digit_char(d as nat)]);
    s
}

/// The decimal notation of `n`.
fn decimal_text(n: usize) -> (s: String)
    ensures
        s@ == decimal(n as nat),
    decreases n,
{
    if n < 10 {
        digit_str(n).to_owned()
    } else {
        let mut s = decimal_text(n / 10);
        s.append(digit_str(n % 10));
        s
    }
}

fn length_mismatch_message(pixel_ids_len: usize, time_of_flight_len: usize) -> (s: String)
    ensures
        s@ == length_mismatch_text(pixel_ids_len, time_of_flight_len),
{
    let mut s = "pixel_id length ".to_owned();
    s.append(decimal_text(pixel_ids_len).as_str());
    s.append(" does not match time_of_flight length ");
    s.append(decimal_text(time_of_flight_len).as_str());
    s
}

pub open spec fn missing_pixel_id_text() -> Seq<char> {
    seq!['M', 'i', 's', 's', 'i', 'n', 'g', ' ', 'p', 'i', 'x', 'e', 'l', '_', 'i', 'd']
}

pub open spec fn missing_time_of_flight_text() -> Seq<char> {
    seq!['M', 'i', 's', 's', 'i', 'n', 'g', ' ', 't', 'i', 'm', 'e', '_', 'o', 'f', '_', 'f', 'l', 'i', 'g', 'h', 't']
}

/// The time of a message in ms since the epoch, read as unsigned.
pub open spec fn message_time(t: i64) -> u64 {
    t as u64
}

/// Whether an NXevent_data module writes a message with this timestamp: messages
/// before the run start or after the run stop are not written.
pub open spec fn nx_in_run(w: NXeventdata, timestamp: Option<i64>) -> bool {
    match timestamp {
        Some(t) => w.run_start_time_ms <= message_time(t) && message_time(t) <= w.run_stop_time_ms,
        None => true,
    }
}

/// What an NXevent_data module makes of a message within the run.
pub open spec fn nx_outcome(msg: DecodedMessageView) -> MessageOutcome {
    match msg {
        DecodedMessageView::PulseMetadata { reference_time } => MessageOutcome::Write(WriterActionView::AppendEventTimeZero { reference_time }),
        DecodedMessageView::EventData(f) => match (f.pixel_id, f.time_of_flight) {
            (None, _) => MessageOutcome::Invalid(missing_pixel_id_text()),
            (Some(_), None) => MessageOutcome::Invalid(missing_time_of_flight_text()),
            (Some(p), Some(t)) => if p.len() != t.len() {
                MessageOutcome::Invalid(length_mismatch_text(p.len() as usize, t.len() as usize))
            } else {
                MessageOutcome::Write(WriterActionView::AppendEvents { pixel_ids: p, time_of_flight: t })
            },
        },
        _ => MessageOutcome::Write(WriterActionView::Nothing),
    }
}

/// The latest message time an NXevent_data module has seen, after a message with this timestamp.
pub open spec fn nx_latest_after(w: NXeventdata, timestamp: Option<i64>) -> u64 {
    match timestamp {
        Some(t) => message_time(t),
        None => w.latest_message_time_ms,
    }
}

impl WriterModule for IXseblock {
    fn on_run_start(&mut self, _run_start_parameters: &RunStartParameters) -> (r: Result<WriterAction, WriterModuleError>)
        ensures
            *final(self) == *old(self),
            r == Ok::<WriterAction, WriterModuleError>(WriterAction::Nothing),
    {
        Ok(WriterAction::Nothing)
    }

    fn on_message(&mut self, _meta: &KafkaMessageMeta, _message: &DecodedMessage) -> (r: Result<WriterAction, WriterModuleError>)
        ensures
            *final(self) == *old(self),
            r == Ok::<WriterAction, WriterModuleError>(WriterAction::Nothing),
    {
        Ok(WriterAction::Nothing)
    }

    fn on_run_stop(&mut self, _meta: &KafkaMessageMeta, _message: &RunStopFields) -> (r: Result<(), WriterModuleError>)
        ensures
            *final(self) == *old(self),
            r is Ok,
    {
        Ok(())
    }

    fn flush(&mut self) -> (r: Result<(), WriterModuleError>)
        ensures
            *final(self) == *old(self),
            r is Ok,
    {
        Ok(())
    }

    fn finished(&self) -> (b: bool)
        ensures
            b,
    {
        true
    }
}

impl WriterModuleSpec for IXseblock {
    type Config = IXseblockConfig;

    fn name() -> (n: &'static str)
        ensures
            n@ == ixseblock_name(),
    {
        WriterModuleKind::IXseblock.name()
    }

    fn create(config: IXseblockConfig) -> (r: Result<WriterModuleCreateResult<IXseblock>, crate::error::WriterModuleCreationError>)
        ensures
            r matches Ok(c) && c.module.config == config && c.subscriptions@.len() == 0,
    {
        Ok(WriterModuleCreateResult { module: IXseblock { config }, subscriptions: Vec::new() })
    }
}

impl NXeventdata {
    /// Whether this module has received all data up to the run stop.
    pub open spec fn spec_finished(&self) -> bool {
        self.latest_message_time_ms >= self.run_stop_time_ms
    }
}

impl WriterModuleSpec for NXeventdata {
    type Config = NXeventdataConfig;

    fn name() -> (n: &'static str)
        ensures
            n@ == nxeventdata_name(),
    {
        WriterModuleKind::NXeventdata.name()
    }

    fn create(config: NXeventdataConfig) -> (r: Result<WriterModuleCreateResult<NXeventdata>, crate::error::WriterModuleCreationError>)
        ensures
            r matches Ok(c) && {
                &&& c.subscriptions@.len() == 1
                &&& c.subscriptions@[0]@ == (SubscriptionView { topic: config.topic@, key: SubscriptionKeyView::All })
                &&& c.module.config == config
                &&& c.module.run_start_time_ms == 0
                &&& c.module.run_stop_time_ms == u64::MAX
                &&& c.module.latest_message_time_ms == 0
            },
    {
        let mut subscriptions = Vec::new();
        subscriptions.push(Subscription::new(config.topic.clone(), SubscriptionKey::All));
        let module = NXeventdata {
            config,
            latest_message_time_ms: 0,
            run_start_time_ms: 0,
            run_stop_time_ms: u64::MAX,
        };
        Ok(WriterModuleCreateResult { module, subscriptions })
    }
}

impl WriterModule for NXeventdata {
    fn on_run_start(&mut self, run_start_parameters: &RunStartParameters) -> (r: Result<WriterAction, WriterModuleError>)
        ensures
            final(self).run_start_time_ms == run_start_parameters.start_time,
            final(self).config == old(self).config,
            final(self).run_stop_time_ms == old(self).run_stop_time_ms,
            final(self).latest_message_time_ms == old(self).latest_message_time_ms,
            r == Ok::<WriterAction, WriterModuleError>(WriterAction::CreateEventDataDatasets),
    {
        self.run_start_time_ms = run_start_parameters.start_time;
        Ok(WriterAction::CreateEventDataDatasets)
    }

    fn on_message(&mut self, meta: &KafkaMessageMeta, message: &DecodedMessage) -> (r: Result<WriterAction, WriterModuleError>)
        ensures
            final(self).config == old(self).config,
            final(self).run_start_time_ms == old(self).run_start_time_ms,
            final(self).run_stop_time_ms == old(self).run_stop_time_ms,
            final(self).latest_message_time_ms == nx_latest_after(*old(self), meta.timestamp),
            nx_in_run(*old(self), meta.timestamp) ==> result_matches(r, nx_outcome(message@)),
            !nx_in_run(*old(self), meta.timestamp) ==> r == Ok::<WriterAction, WriterModuleError>(WriterAction::Nothing),
    {
        if let Some(timestamp) = meta.timestamp {
            let timestamp = timestamp as u64;
            self.latest_message_time_ms = timestamp;
            if timestamp < self.run_start_time_ms || timestamp > self.run_stop_time_ms {
                // This writer module doesn't write messages before / after run.
                return Ok(WriterAction::Nothing);
            }
        }
        match message {
            DecodedMessage::PulseMetadata { reference_time } => Ok(WriterAction::AppendEventTimeZero { reference_time: *reference_time }),
            DecodedMessage::EventData(events) => {
                let pixel_ids = match &events.pixel_id {
                    Some(p) => p,
                    None => {
                        proof { reveal_strlit("Missing pixel_id"); }
                        let text = "Missing pixel_id".to_owned();
                        assert(text@ =~= missing_pixel_id_text());
                        return Err(WriterModuleError::InvalidData(text));
                    },
                };
                let time_of_flight = match &events.time_of_flight {
                    Some(t) => t,
                    None => {
                        proof { reveal_strlit("Missing time_of_flight"); }
                        let text = "Missing time_of_flight".to_owned();
                        assert(text@ =~= missing_time_of_flight_text());
                        return Err(WriterModuleError::InvalidData(text));
                    },
                };
                if pixel_ids.len() != time_of_flight.len() {
                    return Err(WriterModuleError::InvalidData(length_mismatch_message(pixel_ids.len(), time_of_flight.len())));
                }
                Ok(WriterAction::AppendEvents { pixel_ids: pixel_ids.clone(), time_of_flight: time_of_flight.clone() })
            },
            _ => Ok(WriterAction::Nothing),
        }
    }

    fn on_run_stop(&mut self, _meta: &KafkaMessageMeta, message: &RunStopFields) -> (r: Result<(), WriterModuleError>)
        ensures
            final(self).config == old(self).config,
            final(self).run_stop_time_ms == message.stop_time,
            final(self).run_start_time_ms == old(self).run_start_time_ms,
            final(self).latest_message_time_ms == old(self).latest_message_time_ms,
            r is Ok,
    {
        self.run_stop_time_ms = message.stop_time;
        Ok(())
    }

    fn flush(&mut self) -> (r: Result<(), WriterModuleError>)
        ensures
            *final(self) == *old(self),
            r is Ok,
    {
        Ok(())
    }

    /// Has this module received all data up to the run stop?
    fn finished(&self) -> (b: bool)
        ensures
            b == self.spec_finished(),
    {
        self.latest_message_time_ms >= self.run_stop_time_ms
    }
}

} // verus!

verus! {

/// The subscriptions that a writer module created with `config` declares.
pub open spec fn created_subscriptions(config: WriterModuleConfig) -> Seq<SubscriptionView> {
    match config {
        WriterModuleConfig::IXseblock(_) => Seq::empty(),
        WriterModuleConfig::NXeventdata(c) => seq![SubscriptionView { topic: c.topic@, key: SubscriptionKeyView::All }],
    }
}

/// Whether `w` is a freshly created writer module for `config`.
pub open spec fn is_fresh_module(w: WriterModuleInstance, config: WriterModuleConfig) -> bool {
    match (w, config) {
        (WriterModuleInstance::IXseblock(m), WriterModuleConfig::IXseblock(c)) => m.config == c,
        (WriterModuleInstance::NXeventdata(m), WriterModuleConfig::NXeventdata(c)) => {
            &&& m.config == c
            &&& m.run_start_time_ms == 0
            &&& m.run_stop_time_ms == u64::MAX
            &&& m.latest_message_time_ms == 0
        },
        _ => false,
    }
}

/// The writer module freshly created with `config`.
pub open spec fn fresh_module(config: WriterModuleConfig) -> WriterModuleInstance {
    match config {
        WriterModuleConfig::IXseblock(c) => WriterModuleInstance::IXseblock(IXseblock { config: c }),
        WriterModuleConfig::NXeventdata(c) => WriterModuleInstance::NXeventdata(NXeventdata {
            config: c,
            run_start_time_ms: 0,
            run_stop_time_ms: u64::MAX,
            latest_message_time_ms: 0,
        }),
    }
}

/// A module is fresh for a configuration exactly when it is the one created with it.
pub proof fn lemma_fresh_module_unique(w: WriterModuleInstance, config: WriterModuleConfig)
    ensures
        is_fresh_module(w, config) <==> w == fresh_module(config),
{
}

/// Whether a writer module has received all data it needs after the run stop.
pub open spec fn module_finished(w: WriterModuleInstance) -> bool {
    match w {
        WriterModuleInstance::IXseblock(_) => true,
        WriterModuleInstance::NXeventdata(m) => m.spec_finished(),
    }
}

/// A writer module after the run starts at `start_time`.
pub open spec fn module_after_run_start(w: WriterModuleInstance, start_time: u64) -> WriterModuleInstance {
    match w {
        WriterModuleInstance::IXseblock(m) => WriterModuleInstance::IXseblock(m),
        WriterModuleInstance::NXeventdata(m) => WriterModuleInstance::NXeventdata(NXeventdata { run_start_time_ms: start_time, ..m }),
    }
}

/// What a writer module writes when the run starts.
pub open spec fn module_run_start_action(w: WriterModuleInstance) -> WriterActionView {
    match w {
        WriterModuleInstance::IXseblock(_) => WriterActionView::Nothing,
        WriterModuleInstance::NXeventdata(_) => WriterActionView::CreateEventDataDatasets,
    }
}

/// A writer module after a message with this timestamp.
pub open spec fn module_after_message(w: WriterModuleInstance, timestamp: Option<i64>) -> WriterModuleInstance {
    match w {
        WriterModuleInstance::IXseblock(m) => WriterModuleInstance::IXseblock(m),
        WriterModuleInstance::NXeventdata(m) => WriterModuleInstance::NXeventdata(NXeventdata { latest_message_time_ms: nx_latest_after(m, timestamp), ..m }),
    }
}

/// What a writer module makes of a message.
pub open spec fn module_message_outcome(w: WriterModuleInstance, timestamp: Option<i64>, msg: DecodedMessageView) -> MessageOutcome {
    match w {
        WriterModuleInstance::IXseblock(_) => MessageOutcome::Write(WriterActionView::Nothing),
        WriterModuleInstance::NXeventdata(m) => if nx_in_run(m, timestamp) {
            nx_outcome(msg)
        } else {
            MessageOutcome::Write(WriterActionView::Nothing)
        },
    }
}

/// A writer module after the run stops at `stop_time`.
pub open spec fn module_after_run_stop(w: WriterModuleInstance, stop_time: u64) -> WriterModuleInstance {
    match w {
        WriterModuleInstance::IXseblock(m) => WriterModuleInstance::IXseblock(m),
        WriterModuleInstance::NXeventdata(m) => WriterModuleInstance::NXeventdata(NXeventdata { run_stop_time_ms: stop_time, ..m }),
    }
}

impl WriterModuleKind {
    /// Create a writer module of this kind from its parsed configuration.
    pub fn create(&self, config: WriterModuleConfig) -> (r: Result<WriterModuleCreateResult<WriterModuleInstance>, crate::error::WriterModuleCreationError>)
        requires
            config.spec_kind() == *self,
        ensures
            r matches Ok(c) && is_fresh_module(c.module, config)
                && c.subscriptions@.map_values(|s: Subscription| s@) == created_subscriptions(config),
    {
        match config {
            WriterModuleConfig::IXseblock(c) => {
                let created = match IXseblock::create(c) {
                    Ok(created) => created,
                    Err(e) => return Err(e),
                };
                proof {
                    assert(created.subscriptions@.map_values(|s: Subscription| s@) =~= created_subscriptions(config));
                }
                Ok(WriterModuleCreateResult { module: WriterModuleInstance::IXseblock(created.module), subscriptions: created.subscriptions })
            },
            WriterModuleConfig::NXeventdata(c) => {
                let created = match NXeventdata::create(c) {
                    Ok(created) => created,
                    Err(e) => return Err(e),
                };
                proof {
                    assert(created.subscriptions@.map_values(|s: Subscription| s@) =~= created_subscriptions(config));
                }
                Ok(WriterModuleCreateResult { module: WriterModuleInstance::NXeventdata(created.module), subscriptions: created.subscriptions })
            },
        }
    }
}

impl WriterModule for WriterModuleInstance {
    /// Called once, when a run start message is received.
    fn on_run_start(&mut self, run_start_parameters: &RunStartParameters) -> (r: Result<WriterAction, WriterModuleError>)
        ensures
            *final(self) == module_after_run_start(*old(self), run_start_parameters.start_time),
            r matches Ok(a) && a@ == module_run_start_action(*old(self)),
    {
        match self {
            WriterModuleInstance::IXseblock(_) => Ok(WriterAction::Nothing),
            WriterModuleInstance::NXeventdata(m) => m.on_run_start(run_start_parameters),
        }
    }

    /// Called for each received message which matched a subscription of this module.
    fn on_message(&mut self, meta: &KafkaMessageMeta, message: &DecodedMessage) -> (r: Result<WriterAction, WriterModuleError>)
        ensures
            *final(self) == module_after_message(*old(self), meta.timestamp),
            result_matches(r, module_message_outcome(*old(self), meta.timestamp, message@)),
    {
        match self {
            WriterModuleInstance::IXseblock(_) => Ok(WriterAction::Nothing),
            WriterModuleInstance::NXeventdata(m) => m.on_message(meta, message),
        }
    }

    /// Called when a run-stop message is received.
    fn on_run_stop(&mut self, meta: &KafkaMessageMeta, message: &RunStopFields) -> (r: Result<(), WriterModuleError>)
        ensures
            *final(self) == module_after_run_stop(*old(self), message.stop_time),
            r is Ok,
    {
        match self {
            WriterModuleInstance::IXseblock(_) => Ok(()),
            WriterModuleInstance::NXeventdata(m) => m.on_run_stop(meta, message),
        }
    }

    /// Make sure any state held in memory is written. Both kinds write as they go.
    fn flush(&mut self) -> (r: Result<(), WriterModuleError>)
        ensures
            *final(self) == *old(self),
            r is Ok,
    {
        match self {
            WriterModuleInstance::IXseblock(_) => Ok(()),
            WriterModuleInstance::NXeventdata(m) => m.flush(),
        }
    }

    /// Has this writer module finished writing, after a run-stop was received?
    fn finished(&self) -> (b: bool)
        ensures
            b == module_finished(*self),
    {
        match self {
            WriterModuleInstance::IXseblock(_) => true,
            WriterModuleInstance::NXeventdata(m) => m.finished(),
        }
    }
}

} // verus!

verus! {

/// Completion law: after a writer module is told that the run stopped at `stop_time`
/// and then sees a message with timestamp `t`, it has finished exactly when it is an
/// IXseblock module or the message is from the stop time or later.
pub proof fn lemma_finished_after_run_stop(w: WriterModuleInstance, stop_time: u64, t: i64)
    ensures
        module_finished(module_after_message(module_after_run_stop(w, stop_time), Some(t)))
            <==> (w is IXseblock || message_time(t) >= stop_time),
{
}

/// Run-window law: a writer module writes nothing for a message from before the run
/// start or after the run stop that it knows of.
pub proof fn lemma_nothing_written_outside_run(m: NXeventdata, t: i64, msg: DecodedMessageView)
    requires
        message_time(t) < m.run_start_time_ms || message_time(t) > m.run_stop_time_ms,
    ensures
        module_message_outcome(WriterModuleInstance::NXeventdata(m), Some(t), msg) == MessageOutcome::Write(WriterActionView::Nothing),
{
}

} // verus!

verus! {

/// Run-stop law: a run stop sets the stop time and nothing else. The module keeps its
/// kind, its configuration, its run start and the latest message time it has seen, so
/// right after the stop it is finished exactly when it has already seen a message from
/// the stop time or later.
pub proof fn lemma_run_stop_sets_only_stop_time(w: WriterModuleInstance, stop_time: u64)
    ensures
        match (w, module_after_run_stop(w, stop_time)) {
            (WriterModuleInstance::IXseblock(m), WriterModuleInstance::IXseblock(m2)) => m2 == m,
            (WriterModuleInstance::NXeventdata(m), WriterModuleInstance::NXeventdata(m2)) => {
                &&& m2.config == m.config
                &&& m2.run_start_time_ms == m.run_start_time_ms
                &&& m2.latest_message_time_ms == m.latest_message_time_ms
                &&& m2.run_stop_time_ms == stop_time
            },
            _ => false,
        },
        module_finished(module_after_run_stop(w, stop_time)) <==> match w {
            WriterModuleInstance::IXseblock(_) => true,
            WriterModuleInstance::NXeventdata(m) => m.latest_message_time_ms >= stop_time,
        },
{
}

} // verus!
