//! The decisions of the file-writing loop: which run to write, what each message
//! does to the file being written, and what happens after a file.
use crate::config::GlobalConfig;
use crate::decode::{decode_message, deserialized, opt_str_view, DecodedMessage, DecodedMessageView};
use crate::error::FileWriterError;
use crate::in_progress_file::{actions_view, file_after_message, file_after_run_stop, InProgressFile};
use crate::message_router::WriterId;
use crate::run_start_parameters::RunStartParameters;
use crate::stream::KafkaMessageMeta;
use crate::writer_module::WriterAction;
use vstd::prelude::*;

verus! {

/// Implementations of opening a NeXus file.
#[derive(Debug, Clone, Copy, PartialEq, Eq)]
pub enum FileFactory {
    /// On-disk - used at runtime
    Disk,
    /// In-memory file - used for tests, and for structure_verify.
    Memory,
    /// A file factory that unconditionally fails to create a file
    AlwaysFails,
}

/// What the main loop does after an attempt to write one file.
#[derive(Debug, Clone, Copy, PartialEq, Eq)]
pub enum AfterFile {
    /// Stop, handing on the attempt's result.
    Exit,
    /// Wait this many seconds, then wait for the next run.
    BackOff { seconds: u64 },
    /// Wait for the next run.
    NextRun,
}

/// What the main loop does after an attempt to write one file: in single-file mode it
/// stops; otherwise it backs off after a failure and goes on to the next run.
pub fn after_file(config: &GlobalConfig, succeeded: bool) -> (a: AfterFile)
    ensures
        config.one_file_only ==> a == AfterFile::Exit,
        !config.one_file_only && !succeeded ==> a == (AfterFile::BackOff { seconds: config.error_backoff_s }),
        !config.one_file_only && succeeded ==> a == AfterFile::NextRun,
{
    if config.one_file_only {
        AfterFile::Exit
    } else if !succeeded {
        AfterFile::BackOff { seconds: config.error_backoff_s }
    } else {
        AfterFile::NextRun
    }
}

/// The run that a decoded message on the job pool topic starts, if it is a run start.
pub fn run_start_from_decoded(meta: &KafkaMessageMeta, decoded: Option<DecodedMessage>) -> (r: Option<Result<RunStartParameters, FileWriterError>>)
    ensures
        match decoded {
            Some(DecodedMessage::RunStart(fields)) => r matches Some(res) && crate::run_start_parameters::is_pl72_result(res, fields, *meta),
            _ => r is None,
        },
{
    match decoded {
        Some(DecodedMessage::RunStart(fields)) => Some(RunStartParameters::from_pl72(&fields, meta)),
        _ => None,
    }
}

} // verus!

verus! {

/// The run that a message on the job pool topic starts, if it is a run start: `payload`
/// is decoded, and the fields of a run start message are read.
pub fn run_start_from_message(meta: &KafkaMessageMeta, payload: Option<&[u8]>) -> (r: Option<Result<RunStartParameters, FileWriterError>>)
    ensures
        match payload {
            None => r is None,
            Some(p) => match deserialized(p@) {
                Some(DecodedMessageView::RunStart(fv)) => r matches Some(res)
                    && exists|fields: crate::decode::RunStartFields| fields@ == fv && crate::run_start_parameters::is_pl72_result(res, fields, *meta),
                _ => r is None,
            },
        },
{
    match payload {
        None => None,
        Some(p) => {
            let decoded = decode_message(p);
            let ghost d = decoded;
            let r = run_start_from_decoded(meta, decoded);
            proof {
                if let Some(DecodedMessage::RunStart(fields)) = d {
                    assert(fields@ == fields@);
                }
            }
            r
        },
    }
}

/// Whether a run stop with job id `job_id` is for the run with job id `current`.
pub open spec fn is_own_run_stop(job_id: Option<Seq<char>>, current: Seq<char>) -> bool {
    job_id == Some(current)
}

/// Apply one decoded data message to the file being written. A run stop for this run
/// stops the writer modules; a run stop for another run is ignored; any other message
/// goes to the writer modules subscribed to it, whose writes are returned. A message
/// that could not be decoded is ignored.
pub fn handle_decoded_message(meta: &KafkaMessageMeta, decoded: Option<DecodedMessage>, in_progress_file: &mut InProgressFile) -> (r: Result<Vec<(WriterId, WriterAction)>, FileWriterError>)
    requires
        old(in_progress_file).wf(),
    ensures
        final(in_progress_file).wf(),
        match decoded {
            None => r matches Ok(a) && a@.len() == 0 && final(in_progress_file)@ == old(in_progress_file)@,
            Some(DecodedMessage::RunStop(rs)) => r matches Ok(a) && a@.len() == 0 && final(in_progress_file)@ == if is_own_run_stop(opt_str_view(rs.job_id), old(in_progress_file)@.job_id) {
                file_after_run_stop(old(in_progress_file)@, rs.stop_time)
            } else {
                old(in_progress_file)@
            },
            Some(m) => r matches Ok(a) && {
                let after = file_after_message(old(in_progress_file)@, meta.topic@, meta.key_view(), meta.timestamp, m@);
                &&& final(in_progress_file)@ == after.0
                &&& actions_view(a@) == after.1
            },
        },
{
    match decoded {
        None => Ok(Vec::new()),
        Some(DecodedMessage::RunStop(run_stop)) => {
            let own = match &run_stop.job_id {
                Some(j) => *j == in_progress_file.job_id().to_owned(),
                None => false,
            };
            if own {
                in_progress_file.on_run_stop(meta, &run_stop)?;
            }
            Ok(Vec::new())
        },
        Some(data) => in_progress_file.on_message(meta, &data),
    }
}

/// Apply one message from the data topics to the file being written: `payload` is
/// decoded and handled as `handle_decoded_message` says; a message without payload is ignored.
pub fn handle_one_message(meta: &KafkaMessageMeta, payload: Option<&[u8]>, in_progress_file: &mut InProgressFile) -> (r: Result<Vec<(WriterId, WriterAction)>, FileWriterError>)
    requires
        old(in_progress_file).wf(),
    ensures
        final(in_progress_file).wf(),
        match payload {
            None => r matches Ok(a) && a@.len() == 0 && final(in_progress_file)@ == old(in_progress_file)@,
            Some(p) => match deserialized(p@) {
                None => r matches Ok(a) && a@.len() == 0 && final(in_progress_file)@ == old(in_progress_file)@,
                Some(DecodedMessageView::RunStop(rs)) => r matches Ok(a) && a@.len() == 0 && final(in_progress_file)@ == if is_own_run_stop(rs.job_id, old(in_progress_file)@.job_id) {
                    file_after_run_stop(old(in_progress_file)@, rs.stop_time)
                } else {
                    old(in_progress_file)@
                },
                Some(m) => r matches Ok(a) && {
                    let after = file_after_message(old(in_progress_file)@, meta.topic@, meta.key_view(), meta.timestamp, m);
                    &&& final(in_progress_file)@ == after.0
                    &&& actions_view(a@) == after.1
                },
            },
        },
{
    match payload {
        Some(p) => handle_decoded_message(meta, decode_message(p), in_progress_file),
        None => Ok(Vec::new()),
    }
}

/// The time from which the data topics are read for a run: the run start less the
/// configured look-back, but not before the epoch.
pub fn seek_timestamp(run_start_parameters: &RunStartParameters, config: &GlobalConfig) -> (t: i64)
    ensures
        t == (if run_start_parameters.start_time >= config.back_in_time_ms {
            (run_start_parameters.start_time - config.back_in_time_ms) as u64
        } else {
            0u64
        }) as i64,
{
    run_start_parameters.start_time.saturating_sub(config.back_in_time_ms) as i64
}

/// The topics to read while writing a file: those its writer modules subscribed to,
/// then the topic on which its run stop arrives.
pub fn assignment_topics(in_progress_file: &InProgressFile, run_start_parameters: &RunStartParameters, config: &GlobalConfig) -> (t: Vec<String>)
    ensures
        t@.len() >= 1,
        t@.drop_last().map_values(|s: String| s@).to_set() == in_progress_file@.router.dom(),
        t@.drop_last().map_values(|s: String| s@).no_duplicates(),
        t@.last()@ == match run_start_parameters.control_topic {
            Some(c) => c@,
            None => config.job_pool_topic@,
        },
{
    let mut topics = in_progress_file.topics();
    let ghost before = topics@;
    topics.push(run_start_parameters.control_topic(config).to_owned());
    proof {
        assert(topics@.drop_last() =~= before);
    }
    topics
}

} // verus!
