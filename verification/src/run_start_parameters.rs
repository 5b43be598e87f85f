//! The parameters of a run, as given by its run start message.
use crate::config::GlobalConfig;
use crate::decode::{opt_str_view, RunStartFields};
use crate::error::FileWriterError;
use crate::stream::KafkaMessageMeta;
use vstd::prelude::*;

verus! {

/// An owned version of the parts of a pl72 runStart that the filewriter needs to know about.
#[derive(Debug, Clone, PartialEq, Eq, Default)]
pub struct RunStartParameters {
    // ms since epoch
    pub start_time: u64,
    // ms since epoch
    pub stop_time: u64,
    pub nexus_structure: String,
    pub job_id: String,
    pub filename: String,
    pub n_periods: u32,
    pub metadata: Option<String>,
    pub control_topic: Option<String>,
}

/// Where the NeXus structure of a run comes from.
#[derive(Debug, Clone, PartialEq, Eq)]
pub enum StructureSource {
    /// The JSON file at this path, forced by the configuration.
    LocalFile(String),
    /// This JSON text, from the run start message.
    RunStart(String),
}

/// The error for a run start message that lacks `item`, with the message's position.
pub open spec fn is_missing_data_error(e: FileWriterError, item: Seq<char>, msg: KafkaMessageMeta) -> bool {
    match e {
        FileWriterError::MissingRunStartData { missing_item, topic, partition, offset } =>
            missing_item@ == item && topic@ == msg.topic@ && partition == msg.partition && offset == msg.offset,
        _ => false,
    }
}

pub open spec fn filename_item() -> Seq<char> {
    seq!['f', 'i', 'l', 'e', 'n', 'a', 'm', 'e']
}

pub open spec fn nexus_structure_item() -> Seq<char> {
    seq!['n', 'e', 'x', 'u', 's', '_', 's', 't', 'r', 'u', 'c', 't', 'u', 'r', 'e']
}

pub open spec fn job_id_item() -> Seq<char> {
    seq!['j', 'o', 'b', '_', 'i', 'd']
}

/// Whether `r` is the result of reading run start fields `rs` received as `msg`: the
/// filename, the NeXus structure and the job id are required, and checked in that order.
pub open spec fn is_pl72_result(r: Result<RunStartParameters, FileWriterError>, rs: RunStartFields, msg: KafkaMessageMeta) -> bool {
    if rs.filename is None {
        r matches Err(e) && is_missing_data_error(e, filename_item(), msg)
    } else if rs.nexus_structure is None {
        r matches Err(e) && is_missing_data_error(e, nexus_structure_item(), msg)
    } else if rs.job_id is None {
        r matches Err(e) && is_missing_data_error(e, job_id_item(), msg)
    } else {
        r matches Ok(p) && {
            &&& p.start_time == rs.start_time
            &&& p.stop_time == rs.stop_time
            &&& Some(p.filename@) == opt_str_view(rs.filename)
            &&& Some(p.nexus_structure@) == opt_str_view(rs.nexus_structure)
            &&& Some(p.job_id@) == opt_str_view(rs.job_id)
            &&& p.n_periods == rs.n_periods
            &&& opt_str_view(p.metadata) == opt_str_view(rs.metadata)
            &&& opt_str_view(p.control_topic) == opt_str_view(rs.control_topic)
        }
    }
}


fn copy_opt(s: &Option<String>) -> (r: Option<String>)
    ensures
        opt_str_view(r) == opt_str_view(*s),
{
    match s {
        Some(s) => Some(s.clone()),
        None => None,
    }
}

impl RunStartParameters {
    /// Convert the fields of a pl72 run start message, received as `msg`, to an owned
    /// `RunStartParameters`. The filename, the NeXus structure and the job id are
    /// required, and checked in that order.
    pub fn from_pl72(rs: &RunStartFields, msg: &KafkaMessageMeta) -> (r: Result<RunStartParameters, FileWriterError>)
        ensures
            is_pl72_result(r, *rs, *msg),
    {
        proof {
            reveal_strlit("filename");
            reveal_strlit("nexus_structure");
            reveal_strlit("job_id");
        }
        let filename = match &rs.filename {
            Some(f) => f.clone(),
            None => {
                let e = FileWriterError::from_missing_runstart_data("filename", msg);
                assert("filename"@ =~= filename_item());
                return Err(e);
            },
        };
        let nexus_structure = match &rs.nexus_structure {
            Some(s) => s.clone(),
            None => {
                let e = FileWriterError::from_missing_runstart_data("nexus_structure", msg);
                assert("nexus_structure"@ =~= nexus_structure_item());
                return Err(e);
            },
        };
        let job_id = match &rs.job_id {
            Some(j) => j.clone(),
            None => {
                let e = FileWriterError::from_missing_runstart_data("job_id", msg);
                assert("job_id"@ =~= job_id_item());
                return Err(e);
            },
        };
        Ok(RunStartParameters {
            start_time: rs.start_time,
            stop_time: rs.stop_time,
            filename,
            nexus_structure,
            control_topic: copy_opt(&rs.control_topic),
            metadata: copy_opt(&rs.metadata),
            job_id,
            n_periods: rs.n_periods,
        })
    }

    /// Where this run's NeXus structure is to be read from: the file forced by the
    /// configuration, if there is one, else the structure in the run start message.
    pub fn structure_source(&self, config: &GlobalConfig) -> (r: StructureSource)
        ensures
            match config.forced_nexus_structure_filepath {
                Some(path) => r matches StructureSource::LocalFile(p) && p@ == path@,
                None => r matches StructureSource::RunStart(s) && s@ == self.nexus_structure@,
            },
    {
        match &config.forced_nexus_structure_filepath {
            Some(path) => StructureSource::LocalFile(path.clone()),
            None => StructureSource::RunStart(self.nexus_structure.clone()),
        }
    }

    /// The topic on which the run stop for this run arrives: the control topic of the
    /// run start message if it names one, else the job pool topic.
    pub fn control_topic<'a>(&'a self, config: &'a GlobalConfig) -> (t: &'a str)
        ensures
            t@ == match self.control_topic {
                Some(c) => c@,
                None => config.job_pool_topic@,
            },
    {
        match &self.control_topic {
            Some(control_topic) => control_topic.as_str(),
            None => config.job_pool_topic.as_str(),
        }
    }
}

} // verus!
